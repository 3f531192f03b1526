use tangara::naming::{Naming, NamingCase, NamingConventions, NamingError};

#[test]
fn test_to_parts() {
    let name_parts = Naming::snake_case().to_parts("my_field").unwrap();
    assert_eq!(name_parts[0], "my");
    assert_eq!(name_parts[1], "field");

    let name_parts = Naming::pascal_case().to_parts("MyClass").unwrap();
    assert_eq!(name_parts[0], "My");
    assert_eq!(name_parts[1], "Class");

    let name_parts = Naming::const_case().to_parts("MY_CONST").unwrap();
    assert_eq!(name_parts[0], "MY");
    assert_eq!(name_parts[1], "CONST");

    let name_parts = Naming::hungarian_member().to_parts("m_someMember").unwrap();
    assert_eq!(name_parts[0], "some");
    assert_eq!(name_parts[1], "Member");

    let name_parts = Naming::hungarian_parameter().to_parts("pSomeParam").unwrap();
    assert_eq!(name_parts[0], "Some");
    assert_eq!(name_parts[1], "Param");
}

#[test]
fn test_from_parts() {
    let name = Naming::snake_case().from_parts(&["My".to_string(), "Field".to_string()]);
    assert_eq!(name, "my_field");

    let name = Naming::pascal_case().from_parts(&["my".to_string(), "class".to_string()]);
    assert_eq!(name, "MyClass");

    let name = Naming::const_case().from_parts(&["my".to_string(), "const".to_string()]);
    assert_eq!(name, "MY_CONST");

    let name = Naming::hungarian_member().from_parts(&["some".to_string(), "member".to_string()]);
    assert_eq!(name, "m_someMember");

    let name = Naming::hungarian_parameter().from_parts(&["some".to_string(), "param".to_string()]);
    assert_eq!(name, "pSomeParam");

    let name = Naming::camel_case().from_parts(&["SOME".to_string(), "MEMBER".to_string()]);
    assert_eq!(name, "someMember");
}

#[test]
fn test_between_namings() {
    let camel_name = "myClass";
    let pascal_name = Naming::pascal_case().from(camel_name, &Naming::camel_case()).unwrap();
    assert_eq!(pascal_name, "MyClass");
    let const_name = Naming::const_case().from(&pascal_name, &Naming::pascal_case()).unwrap();
    assert_eq!(const_name, "MY_CLASS");
    let hungarian_member =
        Naming::hungarian_member().from(&const_name, &Naming::const_case()).unwrap();
    assert_eq!(hungarian_member, "m_myClass");
    let hungarian_param =
        Naming::hungarian_parameter().from(&hungarian_member, &Naming::hungarian_member()).unwrap();
    assert_eq!(hungarian_param, "pMyClass");
    let snake_name =
        Naming::snake_case().from(&hungarian_param, &Naming::hungarian_parameter()).unwrap();
    assert_eq!(snake_name, "my_class");
}

#[test]
fn test_convert_type() {
    let rust_naming = NamingConventions::rust();
    let csharp_naming = NamingConventions::csharp();
    let csharp_my_class = "Tangara.MyClass";
    let rust_my_class = rust_naming.convert_type(csharp_my_class, &csharp_naming).unwrap();
    assert_eq!(rust_my_class, "tangara::MyClass");
    let csharp_my_class = csharp_naming.convert_type(&rust_my_class, &rust_naming).unwrap();
    assert_eq!(csharp_my_class, "Tangara.MyClass");
}

#[test]
fn test_convert_package() {
    let rust_naming = NamingConventions::rust();
    let csharp_naming = NamingConventions::csharp();
    let csharp_package = "Tangara.Package";
    let rust_package = rust_naming.convert_package(csharp_package, &csharp_naming).unwrap();
    assert_eq!(rust_package, "tangara-package");
    let csharp_package = csharp_naming.convert_package(&rust_package, &rust_naming).unwrap();
    assert_eq!(csharp_package, "Tangara.Package");
}

#[test]
fn to_parts_reports_a_missing_prefix() {
    let result = Naming::hungarian_member().to_parts("someMember");
    assert!(matches!(result, Err(NamingError::InvalidPrefix(p)) if p == "m_"));
}

#[test]
fn to_parts_reports_a_missing_suffix() {
    let naming =
        Naming::new("".to_string(), "_t".to_string(), "_".to_string(), NamingCase::Lower);
    let result = naming.to_parts("my_field");
    assert!(matches!(result, Err(NamingError::InvalidSuffix(s)) if s == "_t"));
    assert_eq!(naming.to_parts("my_field_t").unwrap(), vec!["my", "field"]);
}

#[test]
fn to_parts_reports_the_wrong_case() {
    assert!(matches!(
        Naming::snake_case().to_parts("my_Field"),
        Err(NamingError::InvalidCase(NamingCase::Lower))
    ));
    assert!(matches!(
        Naming::const_case().to_parts("MY_fIELD"),
        Err(NamingError::InvalidCase(NamingCase::Upper))
    ));
    assert!(matches!(
        Naming::pascal_case().to_parts("myClass"),
        Err(NamingError::InvalidCase(NamingCase::Pascal))
    ));
    assert!(matches!(
        Naming::camel_case().to_parts("MyClass"),
        Err(NamingError::InvalidCase(NamingCase::Camel))
    ));
}

#[test]
fn to_parts_of_an_empty_name() {
    assert_eq!(Naming::snake_case().to_parts("").unwrap(), vec![""]);
    assert!(Naming::pascal_case().to_parts("").unwrap().is_empty());
    assert!(Naming::camel_case().to_parts("").unwrap().is_empty());
}

#[test]
fn to_parts_with_an_empty_separator_cuts_everywhere() {
    let naming = Naming::new("".to_string(), "".to_string(), "".to_string(), NamingCase::Lower);
    assert_eq!(naming.to_parts("abc").unwrap(), vec!["", "a", "b", "c", ""]);
    let expected: Vec<String> = "abc".split("").map(|p| p.to_string()).collect();
    assert_eq!(naming.to_parts("abc").unwrap(), expected);
}

#[test]
fn to_parts_splits_as_std_does() {
    let naming = Naming::new("".to_string(), "".to_string(), "aa".to_string(), NamingCase::Lower);
    for name in ["aaa", "aaaa", "baab", "aabaa", "b", "", "aab"] {
        let expected: Vec<String> = name.split("aa").map(|p| p.to_string()).collect();
        assert_eq!(naming.to_parts(name).unwrap(), expected);
    }
}

#[test]
fn from_parts_skips_empty_words() {
    let name = Naming::pascal_case().from_parts(&["".to_string(), "class".to_string()]);
    assert_eq!(name, "Class");
    assert_eq!(Naming::camel_case().from_parts(&[]), "");
    assert_eq!(Naming::snake_case().from_parts(&["One".to_string()]), "one");
}

#[test]
fn namings_compare_by_their_fields() {
    assert!(Naming::snake_case() == Naming::snake_case());
    assert!(Naming::snake_case() != Naming::const_case());
    assert!(Naming::pascal_case().with_prefix("p") == Naming::hungarian_parameter());
}

#[test]
fn convert_type_reports_the_first_part_that_fails() {
    let rust_naming = NamingConventions::rust();
    let csharp_naming = NamingConventions::csharp();
    let result = rust_naming.convert_type("tangara.myClass", &csharp_naming);
    assert!(matches!(result, Err(NamingError::InvalidCase(NamingCase::Pascal))));
}
