use tangara::builder::{
    create_alias, create_class, create_enum, create_enum_class, create_interface, create_struct,
    generic_wheres, generics, AttributeCollector, BuildInvariantViolation, Defaults, Refused,
    GenericsCollector, PackageBuilder, TypeBuilder,
};
use tangara::ids::{
    generate_member_id, generate_method_id, generate_package_id, generate_type_id,
};
use tangara::model::{
    Argument, ArgumentKind, Attribute, MethodKind, TypeKind, TypeRef, Value, Visibility,
};
use tangara::naming::{NamingCase, NamingConventions, NamingError};

fn package(name: &str, namespace: &str) -> PackageBuilder {
    let mut builder = PackageBuilder::new(name, NamingConventions::csharp()).unwrap();
    builder.set_namespace(namespace);
    builder
}

#[test]
fn alpha_engine() {
    // Create Alpha.Window package
    let alphawindow;
    {
        let mut builder = PackageBuilder::new("Alpha.Window", NamingConventions::csharp()).unwrap();
        builder.set_namespace("Alpha.Window");
        let type_builder = create_enum(&builder, "WindowFlags")
            .bitflags()
            .variant("None")
            .variant("Fullscreen")
            .variant("FullscreenDesktop")
            .variant("Borderless")
            .variant("Resizable")
            .variant("Maximized");
        type_builder.build(&mut builder);
        let type_builder = create_class(&builder, "Window")
            .set_visibility(Visibility::Public)
            .add_constructor()
            .set_visibility(Visibility::Public)
            .arg(TypeRef::from("CString"), "title")
            .arg(TypeRef::from("int"), "x")
            .arg(TypeRef::from("int"), "y")
            .arg(TypeRef::from("int"), "width")
            .arg(TypeRef::from("int"), "height")
            .arg(TypeRef::from("WindowFlags"), "state")
            .build()
            .add_property(TypeRef::from("WindowFlags"), "WindowState")
            .build()
            .unwrap()
            .add_method("Update")
            .build()
            .unwrap()
            .add_method("Show")
            .build()
            .unwrap()
            .add_method("Hide")
            .build()
            .unwrap()
            .add_method("Close")
            .build()
            .unwrap()
            .add_method("ShouldClose")
            .return_type(TypeRef::from("bool"))
            .build()
            .unwrap()
            .add_method("GetNativeHandle")
            .return_type(TypeRef::from("Ptr"))
            .build()
            .unwrap()
            .add_method("SetSize")
            .arg(TypeRef::from("int"), "x")
            .arg(TypeRef::from("int"), "y")
            .build()
            .unwrap()
            .add_method("GetSize")
            .arg_out(TypeRef::from("int"), "x")
            .arg_out(TypeRef::from("int"), "x")
            .build()
            .unwrap()
            .add_method("SetFramebufferResizeCallback")
            .arg(TypeRef::from("Ptr"), "ptr")
            .arg(
                TypeRef::Fn(
                    None,
                    vec![TypeRef::from("Ptr"), TypeRef::from("int"), TypeRef::from("int")],
                ),
                "callback",
            )
            .build()
            .unwrap();
        type_builder.build(&mut builder);
        alphawindow = builder.build();
    }
    println!("Alpha.Window package: {:?}", alphawindow);
    assert_eq!(alphawindow.name, "Alpha.Window");
    assert_eq!(alphawindow.id, generate_package_id("Alpha.Window"));
    assert_eq!(alphawindow.types.len(), 2);
    assert_eq!(alphawindow.types[0].name, "WindowFlags");
    assert_eq!(alphawindow.types[0].id, generate_type_id("Alpha.Window.WindowFlags"));
    match &alphawindow.types[0].kind {
        TypeKind::Enum { variants } => {
            let names: Vec<&str> = variants.iter().map(|v| v.0.as_str()).collect();
            assert_eq!(
                names,
                vec![
                    "None",
                    "Fullscreen",
                    "FullscreenDesktop",
                    "Borderless",
                    "Resizable",
                    "Maximized"
                ]
            );
            let values: Vec<u32> = variants
                .iter()
                .map(|v| match v.1 {
                    Value::UInt(flag) => flag,
                    _ => panic!("a flag is an unsigned integer"),
                })
                .collect();
            assert_eq!(values, vec![0, 1, 2, 4, 8, 16]);
        }
        _ => panic!("WindowFlags is an enum"),
    }
    assert_eq!(alphawindow.types[0].attrs.len(), 1);
    assert!(alphawindow.types[0].attrs[0].0 == TypeRef::from("Tangara.Flags"));
    match &alphawindow.types[1].kind {
        TypeKind::Class { is_sealed, constructors, properties, methods, .. } => {
            assert!(*is_sealed);
            assert_eq!(constructors.len(), 1);
            assert_eq!(constructors[0].args.len(), 6);
            assert_eq!(constructors[0].args[3].2, "width");
            assert_eq!(properties.len(), 1);
            assert_eq!(properties[0].id, generate_member_id("WindowState"));
            assert_eq!(methods.len(), 9);
            assert_eq!(methods[0].name, "Update");
            assert_eq!(methods[0].id, generate_method_id("Update", &vec![]));
            assert_eq!(methods[6].id, generate_method_id("SetSize", &methods[6].args));
            assert!(matches!(methods[7].args[0].3, ArgumentKind::Out));
            assert!(methods.iter().all(|m| m.kind == MethodKind::Default));
        }
        _ => panic!("Window is a class"),
    }

    // Create AlphaEngine package
    let alphaengine;
    {
        let mut builder = PackageBuilder::new("AlphaEngine", NamingConventions::csharp()).unwrap();
        builder.set_namespace("Alpha.Engine");
        let type_builder = create_interface(&builder, "ISystem")
            .add_method("Init")
            .build()
            .unwrap()
            .add_method("Enable")
            .build()
            .unwrap()
            .add_method("Disable")
            .build()
            .unwrap();
        type_builder.build(&mut builder);
        alphaengine = builder.build();
    }
    println!("Alpha Engine package: {:?}", alphaengine);
    match &alphaengine.types[0].kind {
        TypeKind::Interface { methods, .. } => {
            assert_eq!(methods.len(), 3);
            assert!(methods.iter().all(|m| m.kind == MethodKind::Abstract));
            assert!(methods.iter().all(|m| m.vis == Visibility::Public));
        }
        _ => panic!("ISystem is an interface"),
    }
    assert_eq!(alphaengine.types[0].id, generate_type_id("Alpha.Engine.ISystem"));
}

#[test]
fn diligent_engine() {
    let alphaengine = PackageBuilder::new("AlphaEngine", NamingConventions::csharp()).unwrap();
    let isystem = create_interface(&alphaengine, "ISystem");
    let built = isystem.get_type();
    assert_eq!(built.name, "ISystem");
    assert_eq!(built.namespace, "AlphaEngine");
    assert_eq!(alphaengine.get_namespace(), "AlphaEngine");
    assert_eq!(alphaengine.get_name(), "AlphaEngine");
}

#[test]
fn a_package_name_must_follow_the_naming() {
    let result = PackageBuilder::new("alphaEngine", NamingConventions::csharp());
    assert!(matches!(result, Err(NamingError::InvalidCase(NamingCase::Pascal))));
}

#[test]
fn the_namespace_is_the_name_respelled() {
    let builder = PackageBuilder::new("my_engine", NamingConventions::rust()).unwrap();
    assert_eq!(builder.get_namespace(), "my_engine");
    assert_eq!(builder.get_id(), generate_package_id("my_engine"));
}

#[test]
fn set_naming_respells_name_and_namespace() {
    let mut builder = PackageBuilder::new("MyEngine", NamingConventions::csharp()).unwrap();
    builder.set_namespace("MyEngine");
    builder.set_naming(NamingConventions::rust()).unwrap();
    assert_eq!(builder.get_name(), "my_engine");
    assert_eq!(builder.get_namespace(), "my_engine");

    let mut builder = PackageBuilder::new("MyEngine", NamingConventions::csharp()).unwrap();
    builder.set_namespace("not pascal");
    assert!(builder.set_naming(NamingConventions::rust()).is_err());
    assert_eq!(builder.get_name(), "MyEngine");
    assert_eq!(builder.get_namespace(), "not pascal");
}

#[test]
fn an_interface_takes_no_private_method() {
    let builder = package("Pkg", "Pkg");
    let result = create_interface(&builder, "IThing")
        .add_method("Hidden")
        .set_visibility(Visibility::Private)
        .build();
    assert!(matches!(result, Err(Refused { violation: BuildInvariantViolation::PrivateInterfaceMember, .. })));

    for vis in [Visibility::Public, Visibility::Protected, Visibility::Internal] {
        let result = create_interface(&builder, "IThing")
            .add_method("Seen")
            .set_visibility(vis)
            .build();
        let built = result.unwrap().get_type();
        match built.kind {
            TypeKind::Interface { methods, .. } => {
                assert_eq!(methods.len(), 1);
                assert_eq!(methods[0].vis, vis);
            }
            _ => panic!("IThing is an interface"),
        }
    }
}

#[test]
fn an_interface_takes_no_property_that_nobody_sees() {
    let builder = package("Pkg", "Pkg");
    let result = create_interface(&builder, "IThing")
        .add_property(TypeRef::from("int"), "Hidden")
        .getter_visibility(Visibility::Private)
        .build();
    assert!(matches!(result, Err(Refused { violation: BuildInvariantViolation::PrivateInterfaceMember, .. })));

    let result = create_interface(&builder, "IThing")
        .add_property(TypeRef::from("int"), "Hidden")
        .getter_visibility(Visibility::Private)
        .setter_visibility(Visibility::Private)
        .build();
    assert!(matches!(result, Err(Refused { violation: BuildInvariantViolation::PrivateInterfaceMember, .. })));

    let result = create_interface(&builder, "IThing")
        .add_property(TypeRef::from("int"), "WriteOnly")
        .getter_visibility(Visibility::Private)
        .setter_visibility(Visibility::Internal)
        .build();
    assert!(result.is_ok());

    let result = create_interface(&builder, "IThing")
        .add_property(TypeRef::from("int"), "ReadOnly")
        .build();
    assert!(result.is_ok());
}

#[test]
fn a_where_bound_needs_its_generic() {
    let builder = package("Pkg", "Pkg");
    let result = create_class(&builder, "Holder")
        .generic_where(("T".to_string(), TypeRef::from("Trait")));
    assert!(matches!(result, Err(Refused { violation: BuildInvariantViolation::UnknownGeneric(name), .. }) if name == "T"));

    let built = create_class(&builder, "Holder")
        .generic("T".to_string())
        .generic_where(("T".to_string(), TypeRef::from("Trait")))
        .unwrap()
        .get_type();
    assert_eq!(built.generics.0, vec!["T"]);
    assert_eq!(built.generics.1.len(), 1);
    assert_eq!(built.generics.1[0].0, "T");
    assert!(built.generics.1[0].1 == TypeRef::from("Trait"));
}

#[test]
fn many_generics_and_bounds() {
    let builder = package("Pkg", "Pkg");
    let class = generics(create_struct(&builder, "Pair"), vec!["A".to_string(), "B".to_string()]);
    let class = generic_wheres(
        class,
        vec![
            ("B".to_string(), TypeRef::from("Second")),
            ("A".to_string(), TypeRef::from("First")),
        ],
    )
    .unwrap();
    let built = class.get_type();
    assert_eq!(built.generics.0, vec!["A", "B"]);
    assert_eq!(built.generics.1[0].0, "B");
    assert_eq!(built.generics.1[1].0, "A");

    let class = generics(create_struct(&builder, "Pair"), vec!["A".to_string()]);
    let result = generic_wheres(
        class,
        vec![
            ("A".to_string(), TypeRef::from("First")),
            ("C".to_string(), TypeRef::from("Third")),
            ("D".to_string(), TypeRef::from("Fourth")),
        ],
    );
    assert!(matches!(result, Err(Refused { violation: BuildInvariantViolation::UnknownGeneric(name), .. }) if name == "C"));
}

#[test]
fn a_generic_of_a_method() {
    let builder = package("Pkg", "Pkg");
    let result = create_class(&builder, "Holder")
        .add_method("Convert")
        .generic_where(("T".to_string(), TypeRef::from("Trait")));
    assert!(matches!(result, Err(Refused { violation: BuildInvariantViolation::UnknownGeneric(name), .. }) if name == "T"));
    let built = create_class(&builder, "Holder")
        .add_method("Convert")
        .generic("T".to_string())
        .generic_where(("T".to_string(), TypeRef::from("Trait")))
        .unwrap()
        .get_method();
    assert_eq!(built.generics.0, vec!["T"]);
}

#[test]
fn the_kinds_of_method_that_a_type_supports() {
    let builder = package("Pkg", "Pkg");
    let sealed = || create_class(&builder, "Sealed").add_method("M");
    assert!(sealed().set_kind(MethodKind::Default).is_ok());
    assert!(sealed().set_kind(MethodKind::Static).is_ok());
    assert!(matches!(
        sealed().set_kind(MethodKind::Virtual),
        Err(Refused { violation: BuildInvariantViolation::UnsupportedMethodKind(MethodKind::Virtual), .. })
    ));
    assert!(matches!(
        sealed().set_kind(MethodKind::Abstract),
        Err(Refused { violation: BuildInvariantViolation::UnsupportedMethodKind(MethodKind::Abstract), .. })
    ));

    let open = || create_class(&builder, "Open").open().add_method("M");
    assert!(open().set_kind(MethodKind::Default).is_ok());
    assert!(open().set_kind(MethodKind::Static).is_ok());
    assert!(open().set_kind(MethodKind::Virtual).is_ok());
    assert!(open().set_kind(MethodKind::Abstract).is_err());

    let interface = || create_interface(&builder, "IThing").add_method("M");
    assert_eq!(interface().get_method().kind, MethodKind::Abstract);
    assert!(interface().set_kind(MethodKind::Abstract).is_ok());
    assert!(matches!(
        interface().set_kind(MethodKind::Default),
        Err(Refused { violation: BuildInvariantViolation::UnsupportedMethodKind(MethodKind::Default), .. })
    ));
    assert!(interface().set_kind(MethodKind::Static).is_err());
    assert!(interface().set_kind(MethodKind::Virtual).is_err());
}

#[test]
fn members_inherit_the_defaults_of_the_package() {
    let mut builder = package("Pkg", "Pkg.Space");
    builder.set_defaults(Defaults {
        type_visibility: Visibility::Internal,
        constructor_visibility: Visibility::Protected,
        member_visibility: Visibility::Private,
        method_visibility: Visibility::Internal,
    });
    let class = create_class(&builder, "Thing")
        .add_constructor()
        .build()
        .add_property(TypeRef::from("int"), "P")
        .build()
        .unwrap()
        .add_field(TypeRef::from("int"), "f")
        .build()
        .add_static_field(TypeRef::from("int"), "sf")
        .set_visibility(Visibility::Public)
        .set_default_value(Value::Int(3))
        .build()
        .add_static_property(TypeRef::from("int"), "SP")
        .setter_visibility(Visibility::Public)
        .build()
        .unwrap()
        .add_method("M")
        .build()
        .unwrap();
    let built = class.build(&mut builder);
    assert_eq!(built.vis, Visibility::Internal);
    assert_eq!(built.namespace, "Pkg.Space");
    assert_eq!(built.id, generate_type_id("Pkg.Space.Thing"));
    match &built.kind {
        TypeKind::Class {
            constructors,
            properties,
            fields,
            static_properties,
            static_fields,
            methods,
            ..
        } => {
            assert_eq!(constructors[0].vis, Visibility::Protected);
            assert_eq!(properties[0].getter_visibility, Visibility::Private);
            assert_eq!(properties[0].setter_visibility, None);
            assert_eq!(fields[0].vis, Visibility::Private);
            assert_eq!(fields[0].id, generate_member_id("f"));
            assert!(fields[0].default_value.is_none());
            assert_eq!(static_fields[0].vis, Visibility::Public);
            assert!(matches!(static_fields[0].default_value, Some(Value::Int(3))));
            assert_eq!(static_properties[0].setter_visibility, Some(Visibility::Public));
            assert_eq!(methods[0].vis, Visibility::Internal);
        }
        _ => panic!("Thing is a class"),
    }
    let pkg = builder.build();
    assert_eq!(pkg.types.len(), 1);
    assert_eq!(pkg.types[0].id, built.id);
}

#[test]
fn attributes_wait_for_the_next_argument() {
    let builder = package("Pkg", "Pkg");
    let marker = || Attribute(TypeRef::Id(1), vec![]);
    let method = create_class(&builder, "Thing")
        .add_method("M")
        .add_attribute(Attribute(TypeRef::Id(9), vec![Value::Bool(true)]))
        .arg(TypeRef::from("int"), "plain")
        .arg_attribute(marker())
        .arg_attribute(marker())
        .arg_ref(TypeRef::from("int"), "marked")
        .arg_in(TypeRef::from("int"), "read")
        .arg_value(TypeRef::from("int"), "optional", Value::Int(7))
        .get_method();
    assert_eq!(method.attrs.len(), 1);
    assert_eq!(method.args.len(), 4);
    assert_eq!(method.args[0].0.len(), 0);
    assert_eq!(method.args[1].0.len(), 2);
    assert_eq!(method.args[2].0.len(), 0);
    assert!(matches!(method.args[0].3, ArgumentKind::Default));
    assert!(matches!(method.args[1].3, ArgumentKind::Ref));
    assert!(matches!(method.args[2].3, ArgumentKind::In));
    assert!(matches!(method.args[3].3, ArgumentKind::DefaultValue(Value::Int(7))));
    assert_eq!(method.id, generate_method_id("M", &method.args));

    let ctor = create_struct(&builder, "S")
        .add_constructor()
        .add_attribute(marker())
        .arg_attribute(marker())
        .arg(TypeRef::from("int"), "a")
        .arg_value(TypeRef::from("int"), "b", Value::Null)
        .arg_ref(TypeRef::from("int"), "c")
        .get_constructor();
    assert_eq!(ctor.attrs.len(), 1);
    assert_eq!(ctor.args[0].0.len(), 1);
    assert_eq!(ctor.args[1].0.len(), 0);
    assert!(matches!(ctor.args[2].3, ArgumentKind::Ref));
}

#[test]
fn an_enum_counts_its_variants() {
    let mut builder = package("Pkg", "Pkg");
    let built = create_enum(&builder, "Color")
        .variant("Red")
        .variant("Green")
        .variant_value("Blue", Value::Int(10))
        .variant("Alpha")
        .add_attribute(Attribute(TypeRef::Id(1), vec![]))
        .set_visibility(Visibility::Internal)
        .build(&mut builder);
    assert_eq!(built.vis, Visibility::Internal);
    assert_eq!(built.attrs.len(), 1);
    match &built.kind {
        TypeKind::Enum { variants } => {
            assert_eq!(variants.len(), 4);
            assert!(matches!(variants[0].1, Value::Int(0)));
            assert!(matches!(variants[1].1, Value::Int(1)));
            assert!(matches!(variants[2].1, Value::Int(10)));
            assert!(matches!(variants[3].1, Value::Int(3)));
        }
        _ => panic!("Color is an enum"),
    }
}

#[test]
fn an_enum_class_collects_variants_with_fields() {
    let mut builder = package("Pkg", "Pkg");
    let built = create_enum_class(&builder, "Shape")
        .variant("Empty")
        .build()
        .variant("Circle")
        .add_attribute(Attribute(TypeRef::Id(2), vec![]))
        .add_field(TypeRef::from("int"), "radius")
        .add_attribute(Attribute(TypeRef::Id(3), vec![]))
        .build()
        .build()
        .build(&mut builder);
    match &built.kind {
        TypeKind::EnumClass { variants, methods } => {
            assert_eq!(methods.len(), 0);
            assert_eq!(variants.len(), 2);
            assert_eq!(variants[0].name, "Empty");
            assert_eq!(variants[0].fields.len(), 0);
            assert_eq!(variants[1].id, generate_member_id("Circle"));
            assert_eq!(variants[1].attrs.len(), 1);
            assert_eq!(variants[1].fields.len(), 1);
            assert_eq!(variants[1].fields[0].name, "radius");
            assert_eq!(variants[1].fields[0].attrs.len(), 1);
        }
        _ => panic!("Shape is an enum class"),
    }
}

#[test]
fn an_alias_stands_for_a_type() {
    let mut builder = package("Pkg", "Pkg");
    let built = create_alias(&builder, "BoxedStr", TypeRef::from("Box"))
        .generic("T".to_string())
        .build(&mut builder);
    match &built.kind {
        TypeKind::TypeAlias(alias) => assert!(**alias == TypeRef::from("Box")),
        _ => panic!("BoxedStr is an alias"),
    }
    assert_eq!(built.generics.0, vec!["T"]);
    assert_eq!(builder.build().types.len(), 1);
}

#[test]
fn types_are_collected_in_the_order_they_are_built() {
    let mut builder = package("Pkg", "Pkg");
    let first = create_class(&builder, "First");
    let second = create_struct(&builder, "Second");
    second.build(&mut builder);
    first.inherits(TypeRef::from("Base")).build(&mut builder);
    builder.add_attribute(Attribute(TypeRef::Id(1), vec![]));
    let pkg = builder.build();
    assert_eq!(pkg.attrs.len(), 1);
    assert_eq!(pkg.types[0].name, "Second");
    assert_eq!(pkg.types[1].name, "First");
    match &pkg.types[1].kind {
        TypeKind::Class { parents, .. } => assert_eq!(parents.len(), 1),
        _ => panic!("First is a class"),
    }
}

#[test]
fn an_argument_of_a_field_or_a_property() {
    let builder = package("Pkg", "Pkg");
    let field = create_struct(&builder, "S").add_field(TypeRef::from("int"), "x").get_field();
    let arg = Argument::from(field);
    assert_eq!(arg.2, "x");
    assert!(matches!(arg.3, ArgumentKind::Default));
    let property =
        create_class(&builder, "C").add_property(TypeRef::from("int"), "P").get_property();
    let arg = Argument::from(property);
    assert_eq!(arg.2, "P");
    assert!(arg.1 == TypeRef::from("int"));
}

#[test]
fn a_refused_step_gives_the_builder_back() {
    let builder = package("Pkg", "Pkg");
    let refused = create_interface(&builder, "IThing")
        .add_method("Seen")
        .build()
        .unwrap()
        .add_method("Hidden")
        .set_visibility(Visibility::Private)
        .build()
        .unwrap_err();
    assert!(matches!(refused.violation, BuildInvariantViolation::PrivateInterfaceMember));
    let built = refused
        .builder
        .add_property(TypeRef::from("int"), "Size")
        .build()
        .unwrap()
        .get_type();
    match built.kind {
        TypeKind::Interface { methods, properties, .. } => {
            assert_eq!(methods.len(), 1);
            assert_eq!(methods[0].name, "Seen");
            assert_eq!(properties.len(), 1);
        }
        _ => panic!("IThing is an interface"),
    }

    let refused = create_class(&builder, "Holder")
        .add_method("Run")
        .arg(TypeRef::from("int"), "times")
        .set_kind(MethodKind::Virtual)
        .unwrap_err();
    assert!(matches!(
        refused.violation,
        BuildInvariantViolation::UnsupportedMethodKind(MethodKind::Virtual)
    ));
    let method = refused.builder.get_method();
    assert_eq!(method.name, "Run");
    assert_eq!(method.args.len(), 1);
    assert_eq!(method.kind, MethodKind::Default);

    let refused = create_struct(&builder, "Pair")
        .generic("A".to_string())
        .generic_where(("B".to_string(), TypeRef::from("Second")))
        .unwrap_err();
    assert!(matches!(&refused.violation, BuildInvariantViolation::UnknownGeneric(name) if name == "B"));
    let built = refused.builder.get_type();
    assert_eq!(built.generics.0, vec!["A"]);
    assert!(built.generics.1.is_empty());

    let refused = generic_wheres(
        generics(create_struct(&builder, "Pair"), vec!["A".to_string()]),
        vec![
            ("A".to_string(), TypeRef::from("First")),
            ("C".to_string(), TypeRef::from("Third")),
            ("A".to_string(), TypeRef::from("Fourth")),
        ],
    )
    .unwrap_err();
    assert!(matches!(&refused.violation, BuildInvariantViolation::UnknownGeneric(name) if name == "C"));
    let built = refused.builder.get_type();
    assert_eq!(built.generics.1.len(), 1);
    assert!(built.generics.1[0].1 == TypeRef::from("First"));
}

#[test]
fn a_builder_under_way_takes_the_new_defaults() {
    let mut builder = package("Pkg", "Pkg");
    let class = create_class(&builder, "Thing").add_method("Before").build().unwrap();
    let mut defaults = builder.get_defaults();
    defaults.method_visibility = Visibility::Private;
    defaults.member_visibility = Visibility::Internal;
    defaults.type_visibility = Visibility::Private;
    builder.set_defaults(defaults);

    let held = create_class(&builder, "Other");
    assert_eq!(held.get_type().vis, Visibility::Private);

    let built = class
        .add_method("Held")
        .build()
        .unwrap()
        .take_defaults(&builder)
        .add_method("After")
        .build()
        .unwrap()
        .add_field(TypeRef::from("int"), "size")
        .build()
        .build(&mut builder);
    assert_eq!(built.vis, Visibility::Public);
    match built.kind {
        TypeKind::Class { methods, fields, .. } => {
            assert_eq!(methods[0].vis, Visibility::Public);
            assert_eq!(methods[1].vis, Visibility::Public);
            assert_eq!(methods[2].vis, Visibility::Private);
            assert_eq!(fields[0].vis, Visibility::Internal);
        }
        _ => panic!("Thing is a class"),
    }
}
