use tangara::context::{
    Entry, FnCall, FnDtor, FnGetter, FnSetter, FnStaticGetter, FnStaticSetter, NotFound, Property,
    Ptr, Runtime, StaticProperty,
};

#[test]
fn test_it_works() {
    let my_struct_ctor0 = FnCall { addr: 0x1000 };
    let my_struct_dtor = FnDtor { addr: 0x1010 };
    let my_struct_repeat_name = FnCall { addr: 0x1020 };
    let my_struct_get_name = FnGetter { addr: 0x1030 };
    let my_struct_set_name = FnSetter { addr: 0x1040 };
    let my_enum_unit = FnCall { addr: 0x2000 };
    let my_enum_vec3 = FnCall { addr: 0x2010 };
    let my_enum_dtor = FnDtor { addr: 0x2020 };

    let mut rt = Runtime::new();
    let ctx = rt.use_context();
    {
        let my_pkg = ctx.add_package(0);
        let my_struct_type = my_pkg.add_type(0);
        my_struct_type.add_ctor(my_struct_ctor0);
        my_struct_type.set_dtor(my_struct_dtor);
        my_struct_type.add_method(0, my_struct_repeat_name);
        my_struct_type.add_property(
            1,
            Property { getter: my_struct_get_name, setter: Some(my_struct_set_name) },
        );
        let my_enum_type = my_pkg.add_type(1);
        my_enum_type.set_dtor(my_enum_dtor);
        my_enum_type.add_method(0, my_enum_unit);
        my_enum_type.add_method(1, my_enum_vec3);
    }
    {
        let my_pkg = ctx.get_package(0).unwrap();
        let my_struct_type = my_pkg.get_type(0).unwrap();
        let ctor = my_struct_type.get_ctor(0).unwrap();
        let dtor = my_struct_type.get_dtor().unwrap();
        let repeat_name = my_struct_type.get_method(0).unwrap();
        let name_property = my_struct_type.get_property(1).unwrap();
        assert_eq!(*ctor, my_struct_ctor0);
        assert_eq!(dtor, my_struct_dtor);
        assert_eq!(*repeat_name, my_struct_repeat_name);
        assert_eq!(name_property.getter, my_struct_get_name);
        assert_eq!(name_property.setter, Some(my_struct_set_name));

        let my_enum_type = my_pkg.get_type(1).unwrap();
        assert_eq!(my_enum_type.get_dtor().unwrap(), my_enum_dtor);
        assert_eq!(*my_enum_type.get_method(0).unwrap(), my_enum_unit);
        assert_eq!(*my_enum_type.get_method(1).unwrap(), my_enum_vec3);
    }
}

#[test]
fn registry_round_trip() {
    let d = FnDtor { addr: 0xd };
    let mut rt = Runtime::new();
    let ctx = rt.use_context();
    ctx.add_package(7).add_type(3).set_dtor(d);
    assert_eq!(ctx.get_package(7).unwrap().get_type(3).unwrap().get_dtor(), Ok(d));
    assert!(matches!(
        ctx.get_package(9),
        Err(NotFound { entry: Entry::Package, key: 9 })
    ));
}

#[test]
fn lookups_of_what_was_not_registered_fail() {
    let mut rt = Runtime::new();
    let ctx = rt.use_context();
    assert!(matches!(ctx.get_package(0), Err(NotFound { entry: Entry::Package, key: 0 })));
    let pkg = ctx.add_package(1);
    assert!(matches!(pkg.get_type(5), Err(NotFound { entry: Entry::Type, key: 5 })));
    let table = pkg.add_type(5);
    assert_eq!(table.get_dtor(), Err(NotFound { entry: Entry::Destructor, key: 0 }));
    assert!(matches!(
        table.get_ctor(0),
        Err(NotFound { entry: Entry::Constructor, key: 0 })
    ));
    assert!(matches!(
        table.get_method(11),
        Err(NotFound { entry: Entry::Method, key: 11 })
    ));
    assert!(matches!(
        table.get_property(12),
        Err(NotFound { entry: Entry::Property, key: 12 })
    ));
    assert!(matches!(
        table.get_static(13),
        Err(NotFound { entry: Entry::StaticProperty, key: 13 })
    ));
}

#[test]
fn constructors_are_found_by_position() {
    let mut rt = Runtime::new();
    let table = rt.use_context().add_package(1).add_type(1);
    assert_eq!(table.add_ctor(FnCall { addr: 10 }), 0);
    assert_eq!(table.add_ctor(FnCall { addr: 20 }), 1);
    assert_eq!(table.add_ctor(FnCall { addr: 10 }), 2);
    assert_eq!(table.get_ctor(0), Ok(&FnCall { addr: 10 }));
    assert_eq!(table.get_ctor(1), Ok(&FnCall { addr: 20 }));
    assert_eq!(table.get_ctor(2), Ok(&FnCall { addr: 10 }));
    assert!(matches!(
        table.get_ctor(3),
        Err(NotFound { entry: Entry::Constructor, key: 3 })
    ));
}

#[test]
fn registering_again_replaces() {
    let mut rt = Runtime::new();
    let ctx = rt.use_context();
    let table = ctx.add_package(1).add_type(2);
    table.add_method(5, FnCall { addr: 1 });
    table.add_method(5, FnCall { addr: 2 });
    table.set_dtor(FnDtor { addr: 3 });
    table.set_dtor(FnDtor { addr: 4 });
    assert_eq!(table.get_method(5), Ok(&FnCall { addr: 2 }));
    assert_eq!(table.get_dtor(), Ok(FnDtor { addr: 4 }));

    // A type that is added again starts empty.
    let pkg = ctx.add_package(1);
    assert!(pkg.get_type(2).is_err());
    let table = pkg.add_type(2);
    assert!(table.get_dtor().is_err());
    assert!(table.get_method(5).is_err());
}

#[test]
fn packages_and_types_do_not_mix() {
    let mut rt = Runtime::new();
    let ctx = rt.use_context();
    ctx.add_package(1).add_type(1).set_dtor(FnDtor { addr: 11 });
    ctx.add_package(2).add_type(1).set_dtor(FnDtor { addr: 21 });
    assert_eq!(
        ctx.get_package(1).unwrap().get_type(1).unwrap().get_dtor(),
        Ok(FnDtor { addr: 11 })
    );
    assert_eq!(
        ctx.get_package(2).unwrap().get_type(1).unwrap().get_dtor(),
        Ok(FnDtor { addr: 21 })
    );
}

#[test]
fn static_properties_are_kept_apart_from_properties() {
    let mut rt = Runtime::new();
    let table = rt.use_context().add_package(1).add_type(1);
    let property = Property { getter: FnGetter { addr: 1 }, setter: None };
    let static_property = StaticProperty {
        getter: FnStaticGetter { addr: 2 },
        setter: Some(FnStaticSetter { addr: 3 }),
    };
    table.add_property(9, property);
    table.add_static(9, static_property);
    assert_eq!(table.get_property(9), Ok(&property));
    assert_eq!(table.get_static(9), Ok(&static_property));
}

#[test]
fn the_null_pointer() {
    assert!(Ptr::null().is_null());
    assert_eq!(Ptr::null().addr, 0);
    assert!(!Ptr { addr: 8 }.is_null());
}
