use tangara::ids::{
    generate_member_id, generate_method_id, generate_package_id, generate_type_id,
    get_typeref_bytes, u64_to_be_bytes,
};
use tangara::model::{Argument, ArgumentKind, TypeRef};
use xxhash_rust::const_xxh3::const_custom_default_secret;
use xxhash_rust::xxh3::xxh3_64_with_secret;

fn name(s: &str) -> TypeRef {
    TypeRef::Name(s.to_string())
}

fn arg(t: TypeRef, name: &str) -> Argument {
    Argument(vec![], t, name.to_string(), ArgumentKind::Default)
}

#[test]
fn ids_are_the_keyed_hashes_of_the_names() {
    assert_eq!(
        generate_package_id("MyPackage"),
        xxh3_64_with_secret(b"MyPackage", &const_custom_default_secret(772))
    );
    assert_eq!(
        generate_type_id("Tangara.MyClass"),
        xxh3_64_with_secret(b"Tangara.MyClass", &const_custom_default_secret(4900))
    );
    assert_eq!(
        generate_member_id("Name"),
        xxh3_64_with_secret(b"Name", &const_custom_default_secret(18257))
    );
}

#[test]
fn ids_do_not_change_between_calls() {
    for s in ["", "a", "Tangara.MyClass", "Пакет", "a much longer name that goes on and on"] {
        assert_eq!(generate_type_id(s), generate_type_id(s));
        assert_eq!(generate_package_id(s), generate_package_id(s));
        assert_eq!(generate_member_id(s), generate_member_id(s));
    }
}

#[test]
fn the_three_kinds_of_id_are_hashed_apart() {
    let t = generate_type_id("Name");
    let m = generate_member_id("Name");
    let p = generate_package_id("Name");
    assert_ne!(t, m);
    assert_ne!(t, p);
    assert_ne!(m, p);
    assert_ne!(generate_type_id("Name"), generate_type_id("Name2"));
}

#[test]
fn big_endian_bytes_of_a_number() {
    assert_eq!(u64_to_be_bytes(0), vec![0, 0, 0, 0, 0, 0, 0, 0]);
    assert_eq!(u64_to_be_bytes(1), vec![0, 0, 0, 0, 0, 0, 0, 1]);
    assert_eq!(
        u64_to_be_bytes(0x0102_0304_0506_0708),
        vec![1, 2, 3, 4, 5, 6, 7, 8]
    );
    assert_eq!(u64_to_be_bytes(u64::MAX), vec![255; 8]);
    assert_eq!(u64_to_be_bytes(0xdead_beef).to_vec(), 0xdead_beefu64.to_be_bytes().to_vec());
}

#[test]
fn structural_bytes_of_each_shape() {
    assert_eq!(get_typeref_bytes(&TypeRef::Id(7)), vec![0, 0, 0, 0, 0, 0, 0, 7]);
    assert_eq!(
        get_typeref_bytes(&name("Int")),
        generate_type_id("Int").to_be_bytes().to_vec()
    );
    let generic = TypeRef::Generic(Box::new(TypeRef::Id(1)), vec![TypeRef::Id(2), TypeRef::Id(3)]);
    let mut expected = vec![0u8];
    expected.extend_from_slice(&1u64.to_be_bytes());
    expected.extend_from_slice(&2u64.to_be_bytes());
    expected.extend_from_slice(&3u64.to_be_bytes());
    assert_eq!(get_typeref_bytes(&generic), expected);

    let tuple = TypeRef::Tuple(vec![TypeRef::Id(4), TypeRef::Id(5)]);
    let mut expected = vec![1u8];
    expected.extend_from_slice(&4u64.to_be_bytes());
    expected.extend_from_slice(&5u64.to_be_bytes());
    assert_eq!(get_typeref_bytes(&tuple), expected);
    assert_eq!(get_typeref_bytes(&TypeRef::Tuple(vec![])), vec![1u8]);

    let function = TypeRef::Fn(Some(Box::new(TypeRef::Id(6))), vec![TypeRef::Id(7)]);
    let mut expected = vec![2u8];
    expected.extend_from_slice(&6u64.to_be_bytes());
    expected.extend_from_slice(&7u64.to_be_bytes());
    assert_eq!(get_typeref_bytes(&function), expected);

    let procedure = TypeRef::Fn(None, vec![TypeRef::Id(7)]);
    let mut expected = vec![2u8];
    expected.extend_from_slice(&[0u8; 8]);
    expected.extend_from_slice(&7u64.to_be_bytes());
    assert_eq!(get_typeref_bytes(&procedure), expected);
}

#[test]
fn structural_bytes_nest() {
    let inner = TypeRef::Generic(Box::new(name("Array")), vec![name("Int")]);
    let outer = TypeRef::Tuple(vec![inner.clone(), TypeRef::Fn(None, vec![inner.clone()])]);
    let inner_bytes = get_typeref_bytes(&inner);
    let mut expected = vec![1u8];
    expected.extend_from_slice(&inner_bytes);
    expected.push(2);
    expected.extend_from_slice(&[0u8; 8]);
    expected.extend_from_slice(&inner_bytes);
    assert_eq!(get_typeref_bytes(&outer), expected);
}

#[test]
fn type_references_of_one_shape_are_equal() {
    let first = TypeRef::Generic(Box::new(name("Array")), vec![name("Int")]);
    let second = TypeRef::Generic(Box::new(TypeRef::from("Array")), vec![TypeRef::from("Int")]);
    assert_eq!(get_typeref_bytes(&first), get_typeref_bytes(&second));
    assert!(first == second);

    let other = TypeRef::Generic(Box::new(name("Array")), vec![name("Long")]);
    assert_ne!(get_typeref_bytes(&first), get_typeref_bytes(&other));
    assert!(first != other);
}

#[test]
fn a_name_equals_the_id_it_hashes_to() {
    assert!(name("Int") == TypeRef::Id(generate_type_id("Int")));
    assert!(name("Int") != TypeRef::Id(generate_type_id("Int") ^ 1));
}

#[test]
fn a_clone_is_equal_to_what_it_was_cloned_from() {
    let t = TypeRef::Fn(
        Some(Box::new(name("Bool"))),
        vec![TypeRef::Tuple(vec![name("Int"), TypeRef::Id(3)])],
    );
    assert!(t.clone() == t);
    assert_eq!(get_typeref_bytes(&t.clone()), get_typeref_bytes(&t));
}

#[test]
fn overloads_get_different_method_ids() {
    let takes_int = generate_method_id("get", &vec![arg(name("Int"), "x")]);
    let takes_string = generate_method_id("get", &vec![arg(name("String"), "x")]);
    assert_ne!(takes_int, takes_string);
    assert_eq!(takes_int, generate_method_id("get", &vec![arg(name("Int"), "other")]));
}

#[test]
fn a_method_id_hashes_the_name_and_the_argument_types() {
    let args = vec![arg(TypeRef::Id(1), "a"), arg(TypeRef::Tuple(vec![TypeRef::Id(2)]), "b")];
    let mut bytes = b"call".to_vec();
    bytes.extend_from_slice(&1u64.to_be_bytes());
    bytes.push(1);
    bytes.extend_from_slice(&2u64.to_be_bytes());
    assert_eq!(
        generate_method_id("call", &args),
        xxh3_64_with_secret(&bytes, &const_custom_default_secret(18257))
    );
    assert_eq!(generate_method_id("call", &vec![]), generate_member_id("call"));
}
