use tangara::sample::{
    EnumComplex, EnumMixed, EnumStruct, EnumTuple, EnumUnit, GenericsTest, MyStruct, MyTrait,
    TestStruct,
};

#[test]
fn a_struct_with_a_name() {
    let mut snaulx = MyStruct::new("snaulX");
    assert_eq!(snaulx.get_name(), "snaulX");
    snaulx.set_name("https://github.com/snaulX");
    assert_eq!(snaulx.get_name(), "https://github.com/snaulX");
    snaulx.foo("Alexander".to_string());
    assert_eq!(snaulx.bar(), "Alexander");
}

#[test]
fn a_struct_with_an_id() {
    let mut test = TestStruct::new(64);
    assert_eq!(test.id, 64);
    test.id = 164;
    assert_eq!(test.id, 164);
}

#[test]
fn a_generic_struct() {
    let mut holder: GenericsTest<MyStruct> = GenericsTest::new();
    assert_eq!(holder.t_bar(), None);
    holder.set_t(MyStruct::new("inside"));
    assert_eq!(holder.t_bar(), Some("inside".to_string()));
}

#[test]
fn enums_of_every_shape() {
    assert!(matches!(EnumUnit::Variant, EnumUnit::Variant));
    assert!(matches!(EnumTuple::Variant(3), EnumTuple::Variant(3)));
    assert!(matches!(EnumStruct::Variant { a: 4 }, EnumStruct::Variant { a: 4 }));
    assert!(matches!(EnumMixed::Tuple(5), EnumMixed::Tuple(5)));
    assert!(matches!(EnumMixed::Unit, EnumMixed::Unit));
    assert!(matches!(EnumComplex::Struct { a: 6 }, EnumComplex::Struct { a: 6 }));
    assert!(matches!(EnumComplex::Tuple(7), EnumComplex::Tuple(7)));
    assert!(matches!(EnumComplex::Unit, EnumComplex::Unit));
}
