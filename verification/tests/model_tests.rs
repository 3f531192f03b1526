use tangara::builder::{create_class, PackageBuilder, TypeBuilder};
use tangara::generator::{Config, RustStdLib};
use tangara::ids::generate_type_id;
use tangara::model::{
    Argument, ArgumentKind, Attribute, Generics, Type, TypeKind, TypeRef, Value, Visibility,
};
use tangara::naming::{Naming, NamingCase, NamingConventions};

#[test]
fn values_of_plain_values() {
    assert!(matches!(Value::default(), Value::Null));
    assert!(matches!(Value::from(true), Value::Bool(true)));
    assert!(matches!(Value::from(7u8), Value::Byte(7)));
    assert!(matches!(Value::from(-7i16), Value::Short(-7)));
    assert!(matches!(Value::from(-70i32), Value::Int(-70)));
    assert!(matches!(Value::from(-700i64), Value::Long(-700)));
    assert!(matches!(Value::from(-1i8), Value::SByte(-1)));
    assert!(matches!(Value::from(9u16), Value::UShort(9)));
    assert!(matches!(Value::from(90u32), Value::UInt(90)));
    assert!(matches!(Value::from(900u64), Value::ULong(900)));
    assert!(matches!(Value::from("text"), Value::String(s) if s == "text"));
    assert!(matches!(Value::from("text".to_string()), Value::String(s) if s == "text"));
    if usize::BITS == 32 {
        assert!(matches!(Value::from(5usize), Value::UInt(5)));
    } else {
        assert!(matches!(Value::from(5usize), Value::ULong(5)));
    }
}

#[test]
fn type_references_of_plain_values() {
    assert!(matches!(TypeRef::from("Name"), TypeRef::Name(n) if n == "Name"));
    assert!(matches!(TypeRef::from("Name".to_string()), TypeRef::Name(n) if n == "Name"));
    assert!(matches!(TypeRef::from(5u64), TypeRef::Id(5)));
    assert!(matches!(TypeRef::from_name("Name"), TypeRef::Name(n) if n == "Name"));
    assert!(matches!(TypeRef::from_id(6), TypeRef::Id(6)));
    let package = PackageBuilder::new("pkg", NamingConventions::rust()).unwrap();
    let t = create_class(&package, "Thing").get_type();
    assert!(matches!(TypeRef::from(&t), TypeRef::Id(id) if id == generate_type_id("pkg.Thing")));
    assert!(matches!(TypeRef::from_type(&t), TypeRef::Id(id) if id == t.id));
}

#[test]
fn clones_hold_what_was_cloned() {
    let value = Value::Object(vec![
        ("a".to_string(), Value::Array(vec![Value::Int(1), Value::Double(2f64.to_bits(), "2".to_string())])),
        ("b".to_string(), Value::Tuple(vec![Value::String("x".to_string()), Value::Null])),
    ]);
    assert_eq!(format!("{:?}", value.clone()), format!("{:?}", value));
    let argument = Argument(
        vec![Attribute(TypeRef::from("Marker"), vec![value.clone()])],
        TypeRef::Fn(Some(Box::new(TypeRef::Id(1))), vec![TypeRef::Tuple(vec![])]),
        "arg".to_string(),
        ArgumentKind::DefaultValue(value),
    );
    assert_eq!(format!("{:?}", argument.clone()), format!("{:?}", argument));
    let generics = Generics(
        vec!["T".to_string()],
        vec![("T".to_string(), TypeRef::from("Bound"))],
    );
    assert_eq!(format!("{:?}", generics.clone()), format!("{:?}", generics));
    let package = PackageBuilder::new("pkg", NamingConventions::csharp());
    assert!(package.is_err());
    let mut package = PackageBuilder::new("Pkg", NamingConventions::csharp()).unwrap();
    create_class(&package, "Thing")
        .add_method("M")
        .arg(TypeRef::from("int"), "x")
        .build()
        .unwrap()
        .add_field(TypeRef::from("int"), "f")
        .set_default_value(Value::Int(1))
        .build()
        .build(&mut package);
    let built = package.build();
    assert_eq!(format!("{:?}", built.clone()), format!("{:?}", built));
}

fn plain(kind: TypeKind) -> Type {
    Type {
        attrs: vec![],
        vis: Visibility::Public,
        namespace: "ns".to_string(),
        name: "T".to_string(),
        id: 1,
        generics: Generics(vec![], vec![]),
        kind,
    }
}

#[test]
fn a_class_of_data_only_is_a_struct() {
    let package = PackageBuilder::new("pkg", NamingConventions::rust()).unwrap();
    let data = create_class(&package, "Data")
        .add_constructor()
        .build()
        .add_field(TypeRef::from("i32"), "x")
        .build()
        .add_static_field(TypeRef::from("i32"), "y")
        .build()
        .get_type()
        .into_struct_if_plain();
    match &data.kind {
        TypeKind::Struct { constructors, fields, static_fields } => {
            assert_eq!(constructors.len(), 1);
            assert_eq!(fields.len(), 1);
            assert_eq!(static_fields.len(), 1);
        }
        _ => panic!("a class of data only is a struct"),
    }
    assert_eq!(data.name, "Data");
    assert_eq!(data.id, generate_type_id("pkg.Data"));

    let with_method = create_class(&package, "A").add_method("m").build().unwrap().get_type();
    assert!(matches!(with_method.into_struct_if_plain().kind, TypeKind::Class { .. }));
    let with_parent = create_class(&package, "B").inherits(TypeRef::from("P")).get_type();
    assert!(matches!(with_parent.into_struct_if_plain().kind, TypeKind::Class { .. }));
    let with_property = create_class(&package, "C")
        .add_property(TypeRef::from("i32"), "p")
        .build()
        .unwrap()
        .get_type();
    assert!(matches!(with_property.into_struct_if_plain().kind, TypeKind::Class { .. }));
    let with_static_property = create_class(&package, "D")
        .add_static_property(TypeRef::from("i32"), "p")
        .build()
        .unwrap()
        .get_type();
    assert!(matches!(with_static_property.into_struct_if_plain().kind, TypeKind::Class { .. }));
    let an_enum = plain(TypeKind::Enum { variants: vec![] });
    assert!(matches!(an_enum.into_struct_if_plain().kind, TypeKind::Enum { .. }));
}

#[test]
fn the_parts_of_a_naming() {
    let naming =
        Naming::new("p_".to_string(), "_s".to_string(), "-".to_string(), NamingCase::Upper);
    assert_eq!(naming.prefix(), "p_");
    assert_eq!(naming.suffix(), "_s");
    assert_eq!(naming.sep(), "-");
    assert_eq!(naming.case(), NamingCase::Upper);
    assert_eq!(naming.from_parts(&["a".to_string(), "b".to_string()]), "p_A-B_s");
    assert_eq!(naming.to_parts("p_A-B_s").unwrap(), vec!["A", "B"]);
    assert_eq!(naming.clone().from_parts(&["a".to_string()]), "p_A_s");
    assert_eq!(NamingConventions::csharp().interface.prefix(), "I");
    assert_eq!(NamingConventions::csharp().private_static.prefix(), "s_");
    assert_eq!(NamingConventions::rust().namespace_divider, "::");
    assert_eq!(NamingConventions::rust().clone().package_divider, "-");
}

#[test]
fn the_default_configuration() {
    let config = Config::default();
    assert!(!config.enable_internal);
    assert_eq!(config.ctor_name, "new");
    assert!(config.generate_default);
    assert_eq!(config.load_name, "tgLoad");
    assert!(config.pass_vis(Visibility::Public));
    assert!(!config.pass_vis(Visibility::Internal));
    assert!(!config.pass_vis(Visibility::Protected));
    assert!(!config.pass_vis(Visibility::Private));
}

#[test]
fn the_attribute_library() {
    let lib = RustStdLib::new();
    let package = lib.get_package();
    assert_eq!(package.name, "Tangara.Rust");
    let names: Vec<&str> = package.types.iter().map(|t| t.name.as_str()).collect();
    assert_eq!(
        names,
        vec![
            "StructField",
            "Mutable",
            "Reference",
            "Lifetime",
            "LifetimeGeneric",
            "ConstructorFnName",
            "TupleField",
            "TupleVariant",
            "Return"
        ]
    );
    assert!(package.types.iter().all(|t| t.namespace == "Tangara.Rust.Metadata"));
    assert_eq!(package.types[1].id, generate_type_id("Tangara.Rust.Metadata.Mutable"));
    assert!(lib.mutable_attribute().0 == TypeRef::from("Tangara.Rust.Metadata.Mutable"));
    assert!(lib.reference_attribute().0 == TypeRef::Id(package.types[2].id));
    match &package.types[6].kind {
        TypeKind::Class { properties, .. } => {
            assert_eq!(properties.len(), 1);
            assert_eq!(properties[0].name, "Index");
            assert!(properties[0].prop_type == TypeRef::from("UShort"));
            assert_eq!(properties[0].setter_visibility, Some(Visibility::Public));
        }
        _ => panic!("an attribute type is a class"),
    }
}

#[test]
fn attributes_are_found_by_their_type() {
    let lib = RustStdLib::new();
    let attrs = vec![
        Attribute(TypeRef::from("Something.Else"), vec![Value::from("x")]),
        lib.mutable_attribute(),
        lib.tuple_field_attribute(3),
        lib.lifetime_attribute("a"),
        lib.lifetime_generic_attribute("T", "b"),
        lib.constructor_name_attribute("make"),
        lib.lifetime_attribute("c"),
        lib.lifetime_generic_attribute("U", "d"),
        lib.lifetime_generic_attribute("T", "e"),
        lib.return_attribute("&mut "),
        lib.constructor_name_attribute("other"),
        lib.tuple_field_attribute(4),
    ];
    assert!(lib.is_mutable(&attrs));
    assert!(!lib.is_reference(&attrs));
    assert!(!lib.is_struct_field(&attrs));
    assert!(!lib.is_tuple_variant(&attrs));
    assert!(lib.is_reference(&[lib.reference_attribute()]));
    assert!(lib.is_struct_field(&[lib.struct_field_attribute()]));
    assert!(lib.is_tuple_variant(&[lib.tuple_variant_attribute()]));
    assert!(!lib.is_mutable(&[]));
    assert_eq!(lib.get_fn_name(&attrs), Some("make".to_string()));
    assert_eq!(lib.get_tuple_index(&attrs), Some(3));
    assert_eq!(lib.get_lifetime(&attrs), Some("a".to_string()));
    assert_eq!(lib.get_lifetimes(&attrs), vec!["a", "c"]);
    assert_eq!(lib.get_generic_lifetimes(&attrs, "T"), vec!["b", "e"]);
    assert_eq!(lib.get_generic_lifetimes(&attrs, "U"), vec!["d"]);
    assert!(lib.get_generic_lifetimes(&attrs, "V").is_empty());
    assert_eq!(lib.get_return_prefix(&attrs), Some("&mut ".to_string()));
    assert_eq!(lib.get_fn_name(&[]), None);
    assert_eq!(lib.get_tuple_index(&[lib.mutable_attribute()]), None);
}

#[test]
fn an_attribute_without_its_argument_is_passed_over() {
    let lib = RustStdLib::new();
    let named = lib.constructor_name_attribute("make");
    let empty = Attribute(named.0.clone(), vec![]);
    let wrong = Attribute(named.0.clone(), vec![Value::Int(1)]);
    assert_eq!(lib.get_fn_name(&[empty.clone(), wrong.clone()]), None);
    assert_eq!(lib.get_fn_name(&[empty, wrong, named]), Some("make".to_string()));
    let index = lib.tuple_field_attribute(1);
    let no_index = Attribute(index.0.clone(), vec![Value::from("one")]);
    assert_eq!(lib.get_tuple_index(&[no_index, index]), Some(1));
}

#[test]
fn an_object_has_no_key_twice() {
    let made = Value::object(vec![
        ("a".to_string(), Value::Int(1)),
        ("b".to_string(), Value::Int(2)),
        ("a".to_string(), Value::Int(3)),
        ("c".to_string(), Value::Null),
        ("b".to_string(), Value::Bool(true)),
    ]);
    match made {
        Value::Object(entries) => {
            let keys: Vec<&str> = entries.iter().map(|entry| entry.0.as_str()).collect();
            assert_eq!(keys, vec!["a", "c", "b"]);
            assert!(matches!(entries[0].1, Value::Int(3)));
            assert!(matches!(entries[1].1, Value::Null));
            assert!(matches!(entries[2].1, Value::Bool(true)));
        }
        other => panic!("not an object: {:?}", other),
    }
}

#[test]
fn an_object_of_distinct_keys_keeps_its_entries() {
    let made = Value::object(vec![
        ("x".to_string(), Value::Byte(1)),
        ("y".to_string(), Value::String("two".to_string())),
    ]);
    match made {
        Value::Object(entries) => {
            assert_eq!(entries.len(), 2);
            assert_eq!(entries[0].0, "x");
            assert!(matches!(entries[0].1, Value::Byte(1)));
            assert_eq!(entries[1].0, "y");
            assert!(matches!(&entries[1].1, Value::String(text) if text == "two"));
        }
        other => panic!("not an object: {:?}", other),
    }
    assert!(matches!(Value::object(vec![]), Value::Object(entries) if entries.is_empty()));
}

#[test]
fn what_stands_before_a_returned_reference() {
    let lib = RustStdLib::new();
    assert!(lib.return_attribute_of(&[]).is_none());
    assert!(lib.return_attribute_of(&[lib.mutable_attribute()]).is_none());
    let prefix_of = |attrs: Vec<Attribute>| {
        let attribute = lib.return_attribute_of(&attrs).unwrap();
        lib.get_return_prefix(&[attribute]).unwrap()
    };
    assert_eq!(prefix_of(vec![lib.reference_attribute()]), "&");
    assert_eq!(prefix_of(vec![lib.reference_attribute(), lib.mutable_attribute()]), "&mut ");
    assert_eq!(prefix_of(vec![lib.lifetime_attribute("a"), lib.reference_attribute()]), "&'a ");
    assert_eq!(
        prefix_of(vec![
            lib.reference_attribute(),
            lib.lifetime_attribute("long"),
            lib.mutable_attribute(),
            lib.lifetime_attribute("other"),
        ]),
        "&'long mut "
    );
}
