use tangara::builder::{
    create_alias, create_class, create_enum, create_enum_class, create_interface,
    AttributeCollector, GenericsCollector, PackageBuilder, TypeBuilder,
};
use tangara::generator::source_generator::{
    get_typeref, get_value, pack_arguments, primitive, GenerateError,
};
use tangara::generator::entrypoint_generator::{gen_args, get_type_name};
use tangara::generator::{
    arguments_cross, type_crosses, Config, EntrypointGenerator, RustGenerator, RustStdLib,
};
use tangara::ids::{generate_member_id, generate_method_id, generate_type_id};
use tangara::model::{
    Argument, ArgumentKind, Attribute, Field, Method, MethodKind, Package, Type, TypeKind,
    TypeRef, Value, Variant, Visibility,
};
use tangara::naming::{NamingCase, NamingConventions, NamingError};

/// The metadata of a small library: enums of every shape, a trait, a
/// generic struct, an alias and two structs with constructors and methods.
fn mylib() -> Package {
    let lib = RustStdLib::new();
    let mut package = PackageBuilder::new("mylib", NamingConventions::rust()).unwrap();

    create_enum(&package, "EnumUnit").variant("Variant").build(&mut package);
    create_enum_class(&package, "EnumTuple")
        .variant("Variant")
        .add_attribute(lib.tuple_variant_attribute())
        .add_field(TypeRef::from("i32"), "field0")
        .build()
        .build()
        .build(&mut package);
    create_enum_class(&package, "EnumStruct")
        .variant("Variant")
        .add_field(TypeRef::from("i32"), "a")
        .build()
        .build()
        .build(&mut package);
    create_enum_class(&package, "EnumMixed")
        .variant("Unit")
        .build()
        .variant("Tuple")
        .add_attribute(lib.tuple_variant_attribute())
        .add_field(TypeRef::from("i32"), "field0")
        .build()
        .build()
        .build(&mut package);
    create_enum_class(&package, "EnumComplex")
        .variant("Unit")
        .build()
        .variant("Tuple")
        .add_attribute(lib.tuple_variant_attribute())
        .add_field(TypeRef::from("i32"), "field0")
        .build()
        .build()
        .variant("Struct")
        .add_field(TypeRef::from("i32"), "a")
        .build()
        .build()
        .build(&mut package);

    create_interface(&package, "MyTrait")
        .add_method("foo")
        .add_attribute(lib.reference_attribute())
        .add_attribute(lib.mutable_attribute())
        .arg(TypeRef::from("String"), "a")
        .build()
        .unwrap()
        .add_method("bar")
        .add_attribute(lib.reference_attribute())
        .return_type(TypeRef::from("String"))
        .build()
        .unwrap()
        .build(&mut package);

    create_class(&package, "GenericsTest")
        .generic("T".to_string())
        .generic_where(("T".to_string(), TypeRef::from("MyTrait")))
        .unwrap()
        .add_constructor()
        .add_attribute(lib.constructor_name_attribute("new"))
        .build()
        .build(&mut package);

    create_alias(
        &package,
        "BoxedStr",
        TypeRef::Generic(Box::new(TypeRef::from("Box")), vec![TypeRef::from("str")]),
    )
    .build(&mut package);

    create_class(&package, "MyStruct")
        .add_constructor()
        .add_attribute(lib.constructor_name_attribute("new"))
        .arg_attribute(lib.reference_attribute())
        .arg_in(TypeRef::from("str"), "name")
        .build()
        .add_method("repeat_name")
        .add_attribute(lib.reference_attribute())
        .arg(TypeRef::from("u32"), "times")
        .return_type(TypeRef::Tuple(vec![]))
        .build()
        .unwrap()
        .add_method("set_name")
        .add_attribute(lib.reference_attribute())
        .add_attribute(lib.mutable_attribute())
        .arg_attribute(lib.reference_attribute())
        .arg_in(TypeRef::from("str"), "name")
        .build()
        .unwrap()
        .add_method("get_name")
        .add_attribute(lib.reference_attribute())
        .add_attribute(lib.return_attribute("&"))
        .return_type(TypeRef::from("str"))
        .build()
        .unwrap()
        .build(&mut package);

    create_class(&package, "TestStruct")
        .add_constructor()
        .add_attribute(lib.constructor_name_attribute("test_empty_ctor"))
        .build()
        .add_constructor()
        .add_attribute(lib.constructor_name_attribute("new"))
        .arg(TypeRef::from("u64"), "id")
        .build()
        .add_property(TypeRef::from("u64"), "id")
        .setter_visibility(Visibility::Public)
        .build()
        .unwrap()
        .build(&mut package);

    package.build()
}

#[test]
fn gentest_gentest() {
    let text = RustGenerator::new(mylib(), Config::default())
        .generate_bindings()
        .unwrap()
        .render()
        .unwrap();
    let expected = r##"// This file was generated by tangara-gen
// All changes in this file will discard after rebuilding project
use tangara::context::{FnDtor, Context, Ptr, Fn};

static mut MyStruct_ctor0: Option<Fn> = None;
static mut MyStruct_repeat_name: Option<Fn> = None;
static mut MyStruct_set_name: Option<Fn> = None;
static mut MyStruct_get_name: Option<Fn> = None;
static mut MyStruct_dtor: Option<FnDtor> = None;
static mut TestStruct_ctor0: Option<Fn> = None;
static mut TestStruct_ctor1: Option<Fn> = None;
static mut TestStruct_id_getter: Option<extern "C" fn(Ptr) -> Ptr> = None;
static mut TestStruct_id_setter: Option<extern "C" fn(Ptr, Ptr)> = None;
static mut TestStruct_dtor: Option<FnDtor> = None;

#[derive(Ord, PartialOrd, Hash, Eq, PartialEq, Debug, Copy, Clone)]
pub enum EnumUnit {
	Variant = 0,
}

pub enum EnumTuple {
}

pub enum EnumStruct {
}

pub enum EnumMixed {
}

pub enum EnumComplex {
}

pub trait MyTrait {
	fn foo(&mut self, a:String);
	fn bar(&self) -> String;
}

pub type BoxedStr = Box<str>;

pub struct MyStruct {
    ptr: Ptr
}

impl MyStruct {
	pub fn new(name:&str) -> Self {
		unsafe {
			if let Some(ctor_func) = MyStruct_ctor0 {
                let args_size = std::mem::size_of::<&str>();
                let mut args_buf = vec![0u8; args_size];
                let args_ptr = args_buf.as_mut_ptr();
                unsafe {
                    *(args_ptr as *mut &str) = name;
                }
                let this = ctor_func(args_size, args_ptr);
                if !this.is_null() {
                    Self {
                        ptr: this
                    }
                } else {
                    panic!("Pointer of constructor result is null")
                }
            }
            else {
                panic!("Constructor wasn't loaded")
            }
        }
    }
	pub fn repeat_name(&self, times:u32) -> () {
		unsafe {
			if let Some(method_func) = MyStruct_repeat_name {
                let args_size = std::mem::size_of::<Ptr>() + std::mem::size_of::<u32>();
                let mut args_buf = vec![0u8; args_size];
                let args_ptr = args_buf.as_mut_ptr();
                unsafe {
                    *(args_ptr as *mut Ptr) = self.ptr;
					*(args_ptr.add(std::mem::size_of::<Ptr>()) as *mut u32) = times;
                }
                let raw_ptr = method_func(args_size, args_ptr);
                if !raw_ptr.is_null() {
                    *Box::from_raw(raw_ptr as *mut ())
                } else {
                    panic!("Pointer of method result is null")
                }
            }
            else {
                panic!("Constructor wasn't loaded")
            }
        }
    }
	pub fn set_name(&mut self, name:&str) {
		unsafe {
			if let Some(method_func) = MyStruct_set_name {
                let args_size = std::mem::size_of::<Ptr>() + std::mem::size_of::<&str>();
                let mut args_buf = vec![0u8; args_size];
                let args_ptr = args_buf.as_mut_ptr();
                unsafe {
                    *(args_ptr as *mut Ptr) = self.ptr;
					*(args_ptr.add(std::mem::size_of::<Ptr>()) as *mut &str) = name;
                }
				method_func(args_size, args_ptr);
            }
            else {
                panic!("Constructor wasn't loaded")
            }
        }
    }
	pub fn get_name(&self) -> &str {
		unsafe {
			if let Some(method_func) = MyStruct_get_name {
                let args_size = std::mem::size_of::<Ptr>();
                let mut args_buf = vec![0u8; args_size];
                let args_ptr = args_buf.as_mut_ptr();
                unsafe {
                    *(args_ptr as *mut Ptr) = self.ptr;
                }
                let raw_ptr = method_func(args_size, args_ptr);
                if !raw_ptr.is_null() {
                    *Box::from_raw(raw_ptr as *mut &str)
                } else {
                    panic!("Pointer of method result is null")
                }
            }
            else {
                panic!("Constructor wasn't loaded")
            }
        }
    }
}

impl Drop for MyStruct {
	fn drop(&mut self) {
		unsafe {
			MyStruct_dtor.expect("Destructor wasn't loaded from library")(self.ptr);
		}
	}
}

pub struct TestStruct {
    ptr: Ptr
}

impl TestStruct {
	pub fn test_empty_ctor() -> Self {
		unsafe {
			if let Some(ctor_func) = TestStruct_ctor0 {
                let this = ctor_func(0, std::ptr::null_mut());
                if !this.is_null() {
                    Self {
                        ptr: this
                    }
                } else {
                    panic!("Pointer of constructor result is null")
                }
            }
            else {
                panic!("Constructor wasn't loaded")
            }
        }
    }
	pub fn new(id:u64) -> Self {
		unsafe {
			if let Some(ctor_func) = TestStruct_ctor1 {
                let args_size = std::mem::size_of::<u64>();
                let mut args_buf = vec![0u8; args_size];
                let args_ptr = args_buf.as_mut_ptr();
                unsafe {
                    *(args_ptr as *mut u64) = id;
                }
                let this = ctor_func(args_size, args_ptr);
                if !this.is_null() {
                    Self {
                        ptr: this
                    }
                } else {
                    panic!("Pointer of constructor result is null")
                }
            }
            else {
                panic!("Constructor wasn't loaded")
            }
        }
    }
	pub fn get_id(&self) -> u64 {
		unsafe {
			let raw_ptr: *mut u64 = TestStruct_id_getter.unwrap()(self.ptr) as *mut u64;
			if !raw_ptr.is_null() {
				*Box::from_raw(raw_ptr)
			} else {
				panic!("Pointer of gotten property is null")
			}
		}
	}
	pub fn set_id(&mut self, value: u64) {
		unsafe { TestStruct_id_setter.unwrap()(self.ptr, &value as *const u64 as Ptr); }
	}
}

impl Drop for TestStruct {
	fn drop(&mut self) {
		unsafe {
			TestStruct_dtor.expect("Destructor wasn't loaded from library")(self.ptr);
		}
	}
}

impl Default for TestStruct {
	fn default() -> Self {
		unsafe {
			TestStruct::test_empty_ctor()
		}
	}
}


pub fn load_mylib(ctx: &Context) {
	unsafe {
		let mylib_package = ctx.get_package(14252210530948059848);
		let EnumTuple_type = mylib_package.get_type(5703501090477233855);
		let EnumStruct_type = mylib_package.get_type(4061653529057324328);
		let EnumMixed_type = mylib_package.get_type(6533684593556827468);
		let EnumComplex_type = mylib_package.get_type(5514888211111417365);
		let MyStruct_type = mylib_package.get_type(11184697179514631841);
		MyStruct_ctor0 = Some(MyStruct_type.get_ctor(0).clone());
		MyStruct_repeat_name = Some(MyStruct_type.get_method(17567713076779176127).clone());
		MyStruct_set_name = Some(MyStruct_type.get_method(1641961565049420977).clone());
		MyStruct_get_name = Some(MyStruct_type.get_method(552281434682100053).clone());
		MyStruct_dtor = Some(MyStruct_type.get_dtor());
		let TestStruct_type = mylib_package.get_type(5562349104188291914);
		TestStruct_ctor0 = Some(TestStruct_type.get_ctor(0).clone());
		TestStruct_ctor1 = Some(TestStruct_type.get_ctor(1).clone());
		let TestStruct_id_prop = TestStruct_type.get_property(5824848936401749885);
		TestStruct_id_getter = Some(TestStruct_id_prop.getter);
		TestStruct_id_setter = Some(TestStruct_id_prop.setter.unwrap());
		TestStruct_dtor = Some(TestStruct_type.get_dtor());
	}
}
"##;
    assert_eq!(text, expected);
}

/// A package with one class, `TestStruct`.
fn test_struct_only() -> Package {
    let lib = RustStdLib::new();
    let mut package = PackageBuilder::new("mylib", NamingConventions::rust()).unwrap();
    create_class(&package, "TestStruct")
        .add_constructor()
        .add_attribute(lib.constructor_name_attribute("test_empty_ctor"))
        .build()
        .add_constructor()
        .add_attribute(lib.constructor_name_attribute("new"))
        .arg(TypeRef::from("u64"), "id")
        .build()
        .add_property(TypeRef::from("u64"), "id")
        .setter_visibility(Visibility::Public)
        .build()
        .unwrap()
        .build(&mut package);
    package.build()
}

fn entrypoint(package: Package) -> EntrypointGenerator {
    RustGenerator::new(package, Config::default()).generate_entrypoint()
}

fn empty_package() -> Package {
    PackageBuilder::new("mylib", NamingConventions::rust()).unwrap().build()
}

fn type_named(name: &str) -> Type {
    let package = PackageBuilder::new("mylib", NamingConventions::rust()).unwrap();
    create_class(&package, name).get_type()
}

fn method(name: &str, attrs: Vec<Attribute>, args: Vec<Argument>, ret: Option<TypeRef>) -> Method {
    Method {
        attrs,
        vis: Visibility::Public,
        name: name.to_string(),
        id: generate_method_id(name, &args),
        generics: tangara::model::Generics(vec![], vec![]),
        args,
        return_type: ret,
        kind: MethodKind::Default,
    }
}

fn argument(t: TypeRef, name: &str, kind: ArgumentKind) -> Argument {
    Argument(vec![], t, name.to_string(), kind)
}

fn field(name: &str) -> Field {
    Field {
        attrs: vec![],
        vis: Visibility::Public,
        field_type: TypeRef::from("i32"),
        name: name.to_string(),
        default_value: None,
        id: generate_member_id(name),
    }
}

#[test]
fn the_entry_point_of_a_library() {
    let text = entrypoint(test_struct_only()).custom_use("crate::*").render();
    assert_eq!(text, "// This file was generated by tangara-gen\n// All changes in this file will discard after rebuilding project\nuse std::ptr;\nuse std::alloc::{dealloc, Layout};\nuse tangara::context::{Context, Ptr, Property, StaticProperty};\nuse crate::*;\n\npub extern \"C\" fn TestStruct_dtor(value: Ptr) {\n    unsafe {\n        ptr::drop_in_place(value);\n        dealloc(value, Layout::new::<TestStruct>());\n    }\n}\n\npub extern \"C\" fn TestStruct_ctor0(args_size: usize, args: *mut u8) -> Ptr {\n    unsafe {\n        let value = Box::new(TestStruct::test_empty_ctor());\n        Box::into_raw(value) as Ptr\n    }\n}\n\npub extern \"C\" fn TestStruct_ctor1(args_size: usize, args: *mut u8) -> Ptr {\n    unsafe {\n        let args_slice = std::slice::from_raw_parts_mut(args, args_size);\n        let mut args_ptr = args_slice.as_mut_ptr();\n        let id: u64 = ptr::read(args_ptr as *const u64);\n        args_ptr = args_ptr.add(std::mem::size_of::<u64>());\n        let value = Box::new(TestStruct::new(id));\n        Box::into_raw(value) as Ptr\n    }\n}\n\npub extern \"C\" fn TestStruct_get_id(this: Ptr) -> Ptr {\n    unsafe {\n        let this: *const TestStruct = this as *const TestStruct;\n        let to_return = Box::new((*this).get_id());\n        Box::into_raw(to_return) as Ptr\n    }\n}\n\npub extern \"C\" fn TestStruct_set_id(this: Ptr, object: Ptr) {\n    unsafe {\n        let this: *mut TestStruct = this as *mut TestStruct;\n        let id: u64 = ptr::read(object as *const u64);\n        (*this).set_id(id);\n    }\n}\n#[no_mangle]\npub extern \"C\" fn tgLoad(ctx: &mut Context) {\n\tlet mut mylib_package = ctx.add_package(14252210530948059848);\n\tlet mut TestStruct_type = mylib_package.add_type(5562349104188291914);\n\tTestStruct_type.set_dtor(TestStruct_dtor);\n\tTestStruct_type.add_ctor(TestStruct_ctor0);\n\tTestStruct_type.add_ctor(TestStruct_ctor1);\n\tTestStruct_type.add_property(5824848936401749885, Property { getter: TestStruct_get_id, setter: Some(TestStruct_set_id) });\n}\n");
}

#[test]
fn the_entry_point_of_an_empty_package() {
    let text = entrypoint(empty_package()).render();
    assert_eq!(
        text,
        "// This file was generated by tangara-gen\n// All changes in this file will discard after rebuilding project\nuse std::ptr;\nuse std::alloc::{dealloc, Layout};\nuse tangara::context::{Context, Ptr, Property, StaticProperty};\n#[no_mangle]\npub extern \"C\" fn tgLoad(ctx: &mut Context) {\n\tlet mut mylib_package = ctx.add_package(14252210530948059848);\n}\n"
    );
}

#[test]
fn the_destructor_frees_the_object_as_its_own_type() {
    let e = entrypoint(empty_package()).gen_dtor(&type_named("MyStruct"));
    assert_eq!(e.glue, "\npub extern \"C\" fn MyStruct_dtor(value: Ptr) {\n    unsafe {\n        ptr::drop_in_place(value);\n        dealloc(value, Layout::new::<MyStruct>());\n    }\n}\n");
    assert_eq!(e.load, "MyStruct_type.set_dtor(MyStruct_dtor);\n");
}

#[test]
fn a_method_that_returns_nothing_returns_null() {
    let lib = RustStdLib::new();
    let m = method(
        "set_name",
        vec![lib.reference_attribute(), lib.mutable_attribute()],
        vec![argument(TypeRef::from("str"), "name", ArgumentKind::In)],
        None,
    );
    let e = entrypoint(empty_package()).gen_method(&m, &type_named("MyStruct"));
    assert_eq!(e.glue, "\npub extern \"C\" fn MyStruct_set_name(args_size: usize, args: *mut u8) -> Ptr {\n    unsafe {\n        let args_slice = std::slice::from_raw_parts_mut(args, args_size);\n        let mut args_ptr = args_slice.as_mut_ptr();\n        let this: *mut MyStruct = *(args_ptr as *mut Ptr) as *mut MyStruct;\n        args_ptr = args_ptr.add(std::mem::size_of::<*mut MyStruct>());\n        let name: &str = ptr::read(args_ptr as *const &str);\n        args_ptr = args_ptr.add(std::mem::size_of::<&str>());\n        (*this).set_name(name);\n\t\tptr::null_mut()\n    }\n}\n");
    assert_eq!(e.load, "MyStruct_type.add_method(1641961565049420977, MyStruct_set_name);\n");
    assert!(e.glue.contains("ptr::null_mut()"));
    assert!(!e.glue.contains("Box::into_raw"));
}

#[test]
fn a_method_that_returns_a_value_hands_over_its_allocation() {
    let lib = RustStdLib::new();
    let m = method("get_name", vec![lib.reference_attribute()], vec![], Some(TypeRef::from("str")));
    let e = entrypoint(empty_package()).gen_method(&m, &type_named("MyStruct"));
    assert_eq!(e.glue, "\npub extern \"C\" fn MyStruct_get_name(args_size: usize, args: *mut u8) -> Ptr {\n    unsafe {\n        let args_slice = std::slice::from_raw_parts_mut(args, args_size);\n        let mut args_ptr = args_slice.as_mut_ptr();\n        let this: *const MyStruct = *(args_ptr as *mut Ptr) as *const MyStruct;\n        args_ptr = args_ptr.add(std::mem::size_of::<*const MyStruct>());\n        let to_return = Box::new((*this).get_name());\n\t\tBox::into_raw(to_return) as Ptr\n    }\n}\n");
    assert_eq!(e.load, "MyStruct_type.add_method(552281434682100053, MyStruct_get_name);\n");
    assert!(e.glue.contains("Box::into_raw(to_return) as Ptr"));
    assert!(!e.glue.contains("ptr::null_mut()"));
}

#[test]
fn a_static_method_has_no_receiver() {
    let mut m = method("make", vec![], vec![], Some(TypeRef::from("MyStruct")));
    m.kind = MethodKind::Static;
    let e = entrypoint(empty_package()).gen_method(&m, &type_named("MyStruct"));
    assert_eq!(e.glue, "\npub extern \"C\" fn MyStruct_make(args_size: usize, args: *mut u8) -> Ptr {\n    unsafe {\n        let to_return = Box::new(MyStruct::make());\n\t\tBox::into_raw(to_return) as Ptr\n    }\n}\n");
}

#[test]
fn arguments_are_read_in_the_order_they_are_declared() {
    let m = method(
        "swap",
        vec![],
        vec![
            argument(TypeRef::from("Thing"), "a", ArgumentKind::Out),
            argument(TypeRef::from("Other"), "b", ArgumentKind::Ref),
            argument(TypeRef::from("i32"), "c", ArgumentKind::DefaultValue(Value::Int(1))),
        ],
        None,
    );
    let e = entrypoint(empty_package()).gen_method(&m, &type_named("MyStruct"));
    assert_eq!(e.glue, "\npub extern \"C\" fn MyStruct_swap(args_size: usize, args: *mut u8) -> Ptr {\n    unsafe {\n        let args_slice = std::slice::from_raw_parts_mut(args, args_size);\n        let mut args_ptr = args_slice.as_mut_ptr();\n        let this: *const MyStruct = *(args_ptr as *mut Ptr) as *const MyStruct;\n        args_ptr = args_ptr.add(std::mem::size_of::<*const MyStruct>());\n        let mut a: &Thing = ptr::read(args_ptr as *mut &Thing);\n        args_ptr = args_ptr.add(std::mem::size_of::<&Thing>());\n        let mut b: &Other = ptr::read(args_ptr as *mut &Other);\n        args_ptr = args_ptr.add(std::mem::size_of::<&Other>());\n        let c: i32 = ptr::read(args_ptr as *const i32);\n        args_ptr = args_ptr.add(std::mem::size_of::<i32>());\n        (*this).swap(a, b, c);\n\t\tptr::null_mut()\n    }\n}\n");
}

#[test]
fn methods_that_are_not_generated() {
    let generator = entrypoint(empty_package());
    let t = type_named("MyStruct");
    for kind in [MethodKind::Abstract, MethodKind::Virtual] {
        let mut m = method("hidden", vec![], vec![], None);
        m.kind = kind;
        let e = generator.gen_method(&m, &t);
        assert_eq!(e.glue, "");
        assert_eq!(e.load, "");
    }
    for vis in [Visibility::Private, Visibility::Protected, Visibility::Internal] {
        let mut m = method("hidden", vec![], vec![], None);
        m.vis = vis;
        let e = generator.gen_method(&m, &t);
        assert_eq!(e.glue, "");
        assert_eq!(e.load, "");
    }
}

#[test]
fn internal_members_are_generated_on_request() {
    let mut m = method("inner", vec![], vec![], None);
    m.vis = Visibility::Internal;
    let mut config = Config::default();
    config.enable_internal = true;
    let generator = RustGenerator::new(empty_package(), config).generate_entrypoint();
    let e = generator.gen_method(&m, &type_named("MyStruct"));
    assert!(e.glue.starts_with("\npub extern \"C\" fn MyStruct_inner("));
    m.vis = Visibility::Protected;
    assert_eq!(generator.gen_method(&m, &type_named("MyStruct")).glue, "");
}

#[test]
fn a_constructor_without_a_function_keeps_its_slot() {
    let package = PackageBuilder::new("mylib", NamingConventions::rust()).unwrap();
    let ctor = create_class(&package, "MyStruct").add_constructor().get_constructor();
    let e = entrypoint(empty_package()).gen_ctor(&ctor, &type_named("MyStruct"), 3);
    assert_eq!(
        e.glue,
        "\npub extern \"C\" fn MyStruct_ctor3(_: usize, _: *mut u8) -> Ptr {\n    ptr::null_mut()\n}\n"
    );
    assert_eq!(e.load, "MyStruct_type.add_ctor(MyStruct_ctor3);\n");
}

/// A class whose first constructor is private, whose second is public and
/// whose third takes a tuple.
fn class_with_a_hidden_constructor() -> Package {
    let lib = RustStdLib::new();
    let mut package = PackageBuilder::new("mylib", NamingConventions::rust()).unwrap();
    create_class(&package, "Thing")
        .add_constructor()
        .add_attribute(lib.constructor_name_attribute("hidden"))
        .set_visibility(Visibility::Private)
        .build()
        .add_constructor()
        .add_attribute(lib.constructor_name_attribute("with_size"))
        .arg(TypeRef::from("u8"), "size")
        .build()
        .add_constructor()
        .add_attribute(lib.constructor_name_attribute("of_pair"))
        .arg(TypeRef::Tuple(vec![TypeRef::from("u8"), TypeRef::from("u8")]), "pair")
        .build()
        .build(&mut package);
    package.build()
}

#[test]
fn both_sides_number_the_constructors_alike() {
    let text = entrypoint(class_with_a_hidden_constructor()).render();
    let registered: Vec<&str> =
        text.lines().filter(|line| line.contains(".add_ctor(")).map(|line| line.trim()).collect();
    assert_eq!(
        registered,
        vec![
            "Thing_type.add_ctor(Thing_ctor0);",
            "Thing_type.add_ctor(Thing_ctor1);",
            "Thing_type.add_ctor(Thing_ctor2);",
        ]
    );
    assert!(text.contains(
        "pub extern \"C\" fn Thing_ctor0(_: usize, _: *mut u8) -> Ptr {\n    ptr::null_mut()\n}\n"
    ));
    assert!(text.contains("let value = Box::new(Thing::with_size(size));"));
    assert!(text.contains(
        "pub extern \"C\" fn Thing_ctor2(_: usize, _: *mut u8) -> Ptr {\n    ptr::null_mut()\n}\n"
    ));
    assert!(!text.contains("of_pair"));

    let host = RustGenerator::new(class_with_a_hidden_constructor(), Config::default())
        .generate_bindings()
        .unwrap()
        .render()
        .unwrap();
    let fetched: Vec<&str> =
        host.lines().filter(|line| line.contains(".get_ctor(")).map(|line| line.trim()).collect();
    assert_eq!(fetched, vec!["Thing_ctor1 = Some(Thing_type.get_ctor(1).clone());"]);
    assert!(host.contains("pub fn with_size(size:u8) -> Self {"));
    assert!(!host.contains("hidden"));
    assert!(!host.contains("of_pair"));
}

#[test]
fn a_member_that_cannot_cross_is_left_out() {
    let generator = entrypoint(empty_package());
    let t = type_named("MyStruct");
    let pair = TypeRef::Tuple(vec![TypeRef::from("u8"), TypeRef::from("u8")]);
    let m = method("take", vec![], vec![argument(pair.clone(), "pair", ArgumentKind::Default)], None);
    let e = generator.gen_method(&m, &t);
    assert_eq!(e.glue, "");
    assert_eq!(e.load, "");

    let mut f = field("pair");
    f.field_type = TypeRef::Id(9);
    let e = generator.gen_field(&f, &t);
    assert_eq!(e.glue, "");
    assert_eq!(e.load, "");
    let e = generator.gen_static_field(&f, &t);
    assert_eq!(e.glue, "");
    assert_eq!(e.load, "");

    let package = PackageBuilder::new("mylib", NamingConventions::rust()).unwrap();
    let property = create_class(&package, "MyStruct")
        .add_property(pair.clone(), "pair")
        .setter_visibility(Visibility::Public)
        .get_property();
    let e = generator.gen_property(&property, &t);
    assert_eq!(e.glue, "");
    assert_eq!(e.load, "");
    let e = generator.gen_static_property(&property, &t);
    assert_eq!(e.glue, "");
    assert_eq!(e.load, "");

    let pair_variant = Variant {
        attrs: vec![],
        vis: Visibility::Public,
        name: "Pair".to_string(),
        id: generate_member_id("Pair"),
        fields: vec![f],
    };
    let e = generator.gen_variant(&pair_variant, &t);
    assert_eq!(e.glue, "");
    assert_eq!(e.load, "");

    let host = bindings(empty_package());
    let output = host.gen_method(&m, "MyStruct").unwrap();
    assert_eq!(output.load, "");
    assert_eq!(output.bindings, "");
    let output = host.gen_property(&property, Some("MyStruct")).unwrap();
    assert_eq!(output.load, "");
    assert_eq!(output.bindings, "");
    let mut virtual_method = method("run", vec![], vec![], None);
    virtual_method.kind = MethodKind::Virtual;
    let output = host.gen_method(&virtual_method, "MyStruct").unwrap();
    assert_eq!(output.load, "");
    assert_eq!(output.statics, "");
}

#[test]
fn variants_of_every_shape() {
    let lib = RustStdLib::new();
    let generator = entrypoint(empty_package());
    let t = type_named("EnumComplex");
    let variant = |name: &str, attrs: Vec<Attribute>, fields: Vec<Field>| Variant {
        attrs,
        vis: Visibility::Public,
        name: name.to_string(),
        id: generate_member_id(name),
        fields,
    };
    let e = generator.gen_variant(&variant("Unit", vec![], vec![]), &t);
    assert_eq!(e.glue, "\npub extern \"C\" fn EnumComplex_Unit(args_size: usize, args: *mut u8) -> Ptr {\n    unsafe {\n        let return_value = Box::new(EnumComplex::Unit);\n\t\tBox::into_raw(return_value) as Ptr\n    }\n}\n");
    assert_eq!(
        e.load,
        format!("EnumComplex_type.add_method({}, EnumComplex_Unit);\n", generate_member_id("Unit"))
    );
    let e = generator.gen_variant(
        &variant("Tuple", vec![lib.tuple_variant_attribute()], vec![field("field0")]),
        &t,
    );
    assert_eq!(e.glue, "\npub extern \"C\" fn EnumComplex_Tuple(args_size: usize, args: *mut u8) -> Ptr {\n    unsafe {\n        let args_slice = std::slice::from_raw_parts_mut(args, args_size);\n        let mut args_ptr = args_slice.as_mut_ptr();\n        let field0: i32 = ptr::read(args_ptr as *const i32);\n        args_ptr = args_ptr.add(std::mem::size_of::<i32>());\n        let return_value = Box::new(EnumComplex::Tuple(field0));\n\t\tBox::into_raw(return_value) as Ptr\n    }\n}\n");
    let e = generator.gen_variant(&variant("Struct", vec![], vec![field("a"), field("b")]), &t);
    assert_eq!(e.glue, "\npub extern \"C\" fn EnumComplex_Struct(args_size: usize, args: *mut u8) -> Ptr {\n    unsafe {\n        let args_slice = std::slice::from_raw_parts_mut(args, args_size);\n        let mut args_ptr = args_slice.as_mut_ptr();\n        let a: i32 = ptr::read(args_ptr as *const i32);\n        args_ptr = args_ptr.add(std::mem::size_of::<i32>());\n        let b: i32 = ptr::read(args_ptr as *const i32);\n        args_ptr = args_ptr.add(std::mem::size_of::<i32>());\n        let return_value = Box::new(EnumComplex::Struct { a, b });\n\t\tBox::into_raw(return_value) as Ptr\n    }\n}\n");
}

#[test]
fn a_field_is_read_and_written_directly() {
    let e = entrypoint(empty_package()).gen_field(&field("x"), &type_named("Point"));
    assert_eq!(e.glue, "\npub extern \"C\" fn Point_get_x(this: Ptr) -> Ptr {\n    unsafe {\n        let this: *const Point = this as *const Point;\n        let to_return = Box::new((*this).x);\n        Box::into_raw(to_return) as Ptr\n    }\n}\n\npub extern \"C\" fn Point_set_x(this: Ptr, object: Ptr) {\n    unsafe {\n        let this: *mut Point = this as *mut Point;\n        let x: i32 = ptr::read(object as *const i32);\n        (*this).x = x;\n    }\n}\n");
    assert_eq!(
        e.load,
        format!(
            "Point_type.add_property({}, Property {{ getter: Point_get_x, setter: Some(Point_set_x) }});\n",
            generate_member_id("x")
        )
    );
}

#[test]
fn a_read_only_property_has_no_setter() {
    let package = PackageBuilder::new("mylib", NamingConventions::rust()).unwrap();
    let property =
        create_class(&package, "Point").add_property(TypeRef::from("i32"), "x").get_property();
    let e = entrypoint(empty_package()).gen_property(&property, &type_named("Point"));
    assert_eq!(e.glue, "\npub extern \"C\" fn Point_get_x(this: Ptr) -> Ptr {\n    unsafe {\n        let this: *const Point = this as *const Point;\n        let to_return = Box::new((*this).get_x());\n        Box::into_raw(to_return) as Ptr\n    }\n}\n");
    assert_eq!(
        e.load,
        format!(
            "Point_type.add_property({}, Property {{ getter: Point_get_x, setter: None }});\n",
            generate_member_id("x")
        )
    );
}

#[test]
fn types_that_the_entry_point_skips() {
    let mut package = PackageBuilder::new("mylib", NamingConventions::rust()).unwrap();
    let generator = entrypoint(empty_package());
    let generic = create_class(&package, "Holder").generic("T".to_string()).get_type();
    assert_eq!(generator.gen_type(&generic).glue, "");
    let hidden = create_class(&package, "Hidden").set_visibility(Visibility::Private).get_type();
    assert_eq!(generator.gen_type(&hidden).load, "");
    let an_enum = create_enum(&package, "Color").variant("Red").build(&mut package);
    assert_eq!(generator.gen_type(&an_enum).glue, "");
    let a_struct = tangara::builder::create_struct(&package, "Point").get_type();
    let e = generator.gen_type(&a_struct);
    assert_eq!(e.glue, "\npub extern \"C\" fn Point_dtor(value: Ptr) {\n    unsafe {\n        ptr::drop_in_place(value);\n        dealloc(value, Layout::new::<Point>());\n    }\n}\n");
    assert_eq!(
        e.load,
        format!(
            "let mut Point_type = mylib_package.add_type({});\nPoint_type.set_dtor(Point_dtor);\n",
            generate_type_id("mylib.Point")
        )
    );
    assert!(matches!(a_struct.kind, TypeKind::Struct { .. }));
}

#[test]
fn unpacking_nothing() {
    let (code, names) = gen_args(&vec![], None).unwrap();
    assert_eq!(code, "");
    assert_eq!(names, "");
    let (code, names) = gen_args(
        &vec![
            argument(TypeRef::from("i32"), "a", ArgumentKind::Default),
            argument(TypeRef::from("i32"), "b", ArgumentKind::Default),
        ],
        None,
    )
    .unwrap();
    assert_eq!(names, "a, b");
    assert!(code.starts_with("\n        let args_slice = "));
    assert_eq!(get_type_name(&TypeRef::from("Thing")), Some("Thing".to_string()));
    assert_eq!(get_type_name(&TypeRef::Tuple(vec![])), None);
    assert_eq!(get_type_name(&TypeRef::Id(7)), None);
    assert!(gen_args(&vec![argument(TypeRef::Id(7), "a", ArgumentKind::Default)], None).is_none());
}

#[test]
fn the_text_of_type_references() {
    let rust = NamingConventions::rust();
    let csharp = NamingConventions::csharp();
    assert_eq!(get_typeref(&TypeRef::from("u32"), &csharp).unwrap(), "u32");
    assert_eq!(get_typeref(&TypeRef::from("MyClass"), &csharp).unwrap(), "MyClass");
    assert_eq!(
        get_typeref(&TypeRef::from("Tangara.Std.MyClass"), &csharp).unwrap(),
        "tangara::std::MyClass"
    );
    assert!(matches!(get_typeref(&TypeRef::Id(3), &rust), Err(GenerateError::UnresolvedId(3))));
    assert_eq!(
        get_typeref(
            &TypeRef::Generic(
                Box::new(TypeRef::from("Map")),
                vec![TypeRef::from("str"), TypeRef::from("Thing")]
            ),
            &rust
        )
        .unwrap(),
        "Map<str,Thing>"
    );
    assert_eq!(
        get_typeref(&TypeRef::Generic(Box::new(TypeRef::from("Map")), vec![]), &rust).unwrap(),
        "Map<>"
    );
    assert_eq!(get_typeref(&TypeRef::Tuple(vec![]), &rust).unwrap(), "()");
    assert_eq!(
        get_typeref(&TypeRef::Tuple(vec![TypeRef::from("u8"), TypeRef::from("u16")]), &rust)
            .unwrap(),
        "(u8,u16)"
    );
    assert_eq!(
        get_typeref(&TypeRef::Fn(None, vec![TypeRef::from("u8")]), &rust).unwrap(),
        "fn(u8)"
    );
    assert_eq!(
        get_typeref(
            &TypeRef::Fn(
                Some(Box::new(TypeRef::from("bool"))),
                vec![TypeRef::from("u8"), TypeRef::from("Thing")]
            ),
            &rust
        )
        .unwrap(),
        "fn(u8,Thing) -> bool"
    );
    assert!(matches!(
        get_typeref(
            &TypeRef::Fn(Some(Box::new(TypeRef::from("bool"))), vec![TypeRef::Id(1), TypeRef::Id(2)]),
            &rust
        ),
        Err(GenerateError::UnresolvedId(1))
    ));
    assert!(matches!(
        get_typeref(&TypeRef::Tuple(vec![TypeRef::from("u8"), TypeRef::Id(4)]), &rust),
        Err(GenerateError::UnresolvedId(4))
    ));
    assert!(primitive("usize"));
    assert!(!primitive("i128"));
    assert!(!primitive("String"));
}

#[test]
fn a_type_reference_that_breaks_the_naming() {
    let csharp = NamingConventions::csharp();
    let result = get_typeref(&TypeRef::from("myClass"), &csharp);
    assert!(matches!(
        result,
        Err(GenerateError::Naming(NamingError::InvalidCase(NamingCase::Pascal)))
    ));
    let nested = TypeRef::Tuple(vec![
        TypeRef::from("Fine"),
        TypeRef::Generic(Box::new(TypeRef::from("Fine")), vec![TypeRef::from("notFine")]),
    ]);
    assert!(matches!(get_typeref(&nested, &csharp), Err(GenerateError::Naming(_))));
}

#[test]
fn the_text_of_constants() {
    assert_eq!(get_value(&Value::Null).unwrap(), "None");
    assert_eq!(get_value(&Value::Bool(true)).unwrap(), "true");
    assert_eq!(get_value(&Value::Bool(false)).unwrap(), "false");
    assert_eq!(get_value(&Value::Byte(255)).unwrap(), "255");
    assert_eq!(get_value(&Value::Short(-32768)).unwrap(), "-32768");
    assert_eq!(get_value(&Value::Int(-7)).unwrap(), "-7");
    assert_eq!(get_value(&Value::Long(i64::MIN)).unwrap(), "-9223372036854775808");
    assert_eq!(get_value(&Value::SByte(-128)).unwrap(), "-128");
    assert_eq!(get_value(&Value::UShort(65535)).unwrap(), "65535");
    assert_eq!(get_value(&Value::UInt(4294967295)).unwrap(), "4294967295");
    assert_eq!(get_value(&Value::ULong(u64::MAX)).unwrap(), "18446744073709551615");
    assert_eq!(get_value(&Value::String("text".to_string())).unwrap(), "text");
    assert_eq!(get_value(&Value::Array(vec![])).unwrap(), "[]");
    assert_eq!(
        get_value(&Value::Array(vec![Value::Int(1), Value::Tuple(vec![Value::Null, Value::Int(2)])]))
            .unwrap(),
        "[1,(None,2)]"
    );
    assert_eq!(get_value(&Value::Tuple(vec![Value::Bool(true)])).unwrap(), "(true)");
}

#[test]
fn constants_without_text() {
    assert!(matches!(get_value(&Value::Object(vec![])), Err(GenerateError::UnsupportedValue)));
    assert!(matches!(
        get_value(&Value::Array(vec![Value::Int(1), Value::object(vec![])])),
        Err(GenerateError::UnsupportedValue)
    ));
    assert!(matches!(
        get_value(&Value::Tuple(vec![Value::Array(vec![Value::object(vec![(
            "key".to_string(),
            Value::Null
        )])])])),
        Err(GenerateError::UnsupportedValue)
    ));
}

#[test]
fn the_text_of_floats() {
    let half = Value::Float(0.5f32.to_bits(), 0.5f32.to_string());
    assert_eq!(get_value(&half).unwrap(), "0.5");
    let small = Value::Double(1e-7f64.to_bits(), 1e-7f64.to_string());
    assert_eq!(get_value(&small).unwrap(), "0.0000001");
    let whole = Value::Double(2f64.to_bits(), 2f64.to_string());
    assert_eq!(get_value(&Value::Array(vec![Value::Int(1), whole])).unwrap(), "[1,2]");
    let copy = half.clone();
    assert!(matches!(copy, Value::Float(bits, text) if bits == 0.5f32.to_bits() && text == "0.5"));
}

#[test]
fn packing_puts_each_slot_after_the_ones_before() {
    let (code, passed) = pack_arguments(false, &vec![], &vec![]);
    assert_eq!(code, "");
    assert_eq!(passed, "0, std::ptr::null_mut()");

    let (code, passed) = pack_arguments(
        true,
        &vec!["u32".to_string(), "&str".to_string()],
        &vec!["times".to_string(), "name".to_string()],
    );
    assert_eq!(passed, "args_size, args_ptr");
    assert_eq!(
        code,
        "\n                let args_size = std::mem::size_of::<Ptr>() + std::mem::size_of::<u32>() + std::mem::size_of::<&str>();\n                let mut args_buf = vec![0u8; args_size];\n                let args_ptr = args_buf.as_mut_ptr();\n                unsafe {\n                    *(args_ptr as *mut Ptr) = self.ptr;\n\t\t\t\t\t*(args_ptr.add(std::mem::size_of::<Ptr>()) as *mut u32) = times;\n\t\t\t\t\t*(args_ptr.add(std::mem::size_of::<Ptr>() + std::mem::size_of::<u32>()) as *mut &str) = name;\n                }"
    );

    let (code, _) = pack_arguments(false, &vec!["u64".to_string()], &vec!["id".to_string()]);
    assert_eq!(
        code,
        "\n                let args_size = std::mem::size_of::<u64>();\n                let mut args_buf = vec![0u8; args_size];\n                let args_ptr = args_buf.as_mut_ptr();\n                unsafe {\n                    *(args_ptr as *mut u64) = id;\n                }"
    );
}

#[test]
fn bindings_of_a_package_that_breaks_its_naming() {
    let mut package = PackageBuilder::new("MyLib", NamingConventions::csharp()).unwrap();
    create_class(&package, "notPascal").build(&mut package);
    let mut generator =
        RustGenerator::new(package.build(), Config::default()).generate_bindings().unwrap();
    assert!(matches!(
        generator.generate(),
        Err(GenerateError::Naming(NamingError::InvalidCase(NamingCase::Pascal)))
    ));
    assert!(matches!(generator.render(), Err(GenerateError::Naming(_))));

    let mut package = mylib();
    package.name = "myLib".to_string();
    package.naming = NamingConventions::csharp();
    assert!(RustGenerator::new(package, Config::default()).generate_bindings().is_err());
}

#[test]
fn bindings_of_an_enum_with_a_value_without_text() {
    let mut package = PackageBuilder::new("mylib", NamingConventions::rust()).unwrap();
    create_enum(&package, "Odd")
        .variant_value("Half", Value::object(vec![]))
        .build(&mut package);
    let result =
        RustGenerator::new(package.build(), Config::default()).generate_bindings().unwrap().render();
    assert!(matches!(result, Err(GenerateError::UnsupportedValue)));
}

#[test]
fn bindings_of_a_package_in_other_conventions() {
    let mut package = PackageBuilder::new("MyLib", NamingConventions::csharp()).unwrap();
    create_interface(&package, "IShape")
        .add_method("GetArea")
        .return_type(TypeRef::from("u32"))
        .build()
        .unwrap()
        .add_property(TypeRef::from("Geometry.Point"), "TopLeft")
        .setter_visibility(Visibility::Public)
        .build()
        .unwrap()
        .build(&mut package);
    create_enum(&package, "Color")
        .variant("Red")
        .variant_value("Blue", Value::Int(-5))
        .set_visibility(Visibility::Internal)
        .build(&mut package);
    let mut config = Config::default();
    config.enable_internal = true;
    let text =
        RustGenerator::new(package.build(), config).generate_bindings().unwrap().render().unwrap();
    let id = tangara::ids::generate_package_id("MyLib");
    assert_eq!(
        text,
        format!(
            "// This file was generated by tangara-gen\n// All changes in this file will discard after rebuilding project\nuse tangara::context::{{FnDtor, Context, Ptr, Fn}};\n\n\npub trait Shape {{\n\tfn get_area(self) -> u32;\n\tpub fn get_top_left(&self) -> geometry::Point;\n\tpub fn set_top_left(&mut self, value: geometry::Point);\n}}\n\n#[derive(Ord, PartialOrd, Hash, Eq, PartialEq, Debug, Copy, Clone)]\npub(crate) enum Color {{\n\tRed = 0,\n\tBlue = -5,\n}}\n\n\npub fn load_MyLib(ctx: &Context) {{\n\tunsafe {{\n\t\tlet my_lib_package = ctx.get_package({});\n\t}}\n}}\n",
            id
        )
    );
}

#[test]
fn static_members_of_the_entry_point() {
    let package = PackageBuilder::new("mylib", NamingConventions::rust()).unwrap();
    let generator = entrypoint(empty_package());
    let property = create_class(&package, "Counter")
        .add_static_property(TypeRef::from("u32"), "total")
        .setter_visibility(Visibility::Public)
        .get_property();
    let t = type_named("Counter");
    let e = generator.gen_static_property(&property, &t);
    assert_eq!(
        e.glue,
        "\npub extern \"C\" fn Counter_get_static_total() -> Ptr {\n    unsafe {\n        let to_return = Box::new(Counter::get_total());\n        Box::into_raw(to_return) as Ptr\n    }\n}\n\npub extern \"C\" fn Counter_set_static_total(object: Ptr) {\n    unsafe {\n        let total: u32 = ptr::read(object as *const u32);\n        Counter::set_total(total);\n    }\n}\n"
    );
    assert_eq!(
        e.load,
        format!(
            "Counter_type.add_static({}, StaticProperty {{ getter: Counter_get_static_total, setter: Some(Counter_set_static_total) }});\n",
            generate_member_id("total")
        )
    );
    let e = generator.gen_static_field(&field("LIMIT"), &t);
    assert_eq!(
        e.glue,
        "\npub extern \"C\" fn Counter_get_static_LIMIT() -> Ptr {\n    unsafe {\n        let to_return = Box::new(Counter::LIMIT);\n        Box::into_raw(to_return) as Ptr\n    }\n}\n\npub extern \"C\" fn Counter_set_static_LIMIT(object: Ptr) {\n    unsafe {\n        let LIMIT: i32 = ptr::read(object as *const i32);\n        Counter::LIMIT = LIMIT;\n    }\n}\n"
    );
    assert_eq!(
        e.load,
        format!(
            "Counter_type.add_static({}, StaticProperty {{ getter: Counter_get_static_LIMIT, setter: Some(Counter_set_static_LIMIT) }});\n",
            generate_member_id("LIMIT")
        )
    );
}

fn bindings(package: Package) -> tangara::generator::SourceGenerator {
    RustGenerator::new(package, Config::default()).generate_bindings().unwrap()
}

#[test]
fn generic_parameters_with_their_bounds() {
    let lib = RustStdLib::new();
    let generator = bindings(empty_package());
    let generics = tangara::model::Generics(
        vec!["T".to_string(), "U".to_string(), "V".to_string()],
        vec![
            ("T".to_string(), TypeRef::from("First")),
            ("U".to_string(), TypeRef::from("Second")),
            ("T".to_string(), TypeRef::from("Third")),
        ],
    );
    let attrs = vec![
        lib.lifetime_attribute("a"),
        lib.lifetime_generic_attribute("U", "a"),
        lib.lifetime_generic_attribute("U", "b"),
        lib.lifetime_generic_attribute("V", "a"),
    ];
    assert_eq!(generator.get_generics(&generics, &attrs, false).unwrap(), "<'a, T, U, V>");
    assert_eq!(
        generator.get_generics(&generics, &attrs, true).unwrap(),
        "<'a, T:First+Third, U:'a + 'b+Second, V:'a>"
    );
    let none = tangara::model::Generics(vec![], vec![]);
    assert_eq!(generator.get_generics(&none, &attrs, true).unwrap(), "");
}

#[test]
fn the_arguments_of_a_signature() {
    let lib = RustStdLib::new();
    let generator = bindings(empty_package());
    let mut with_lifetime = argument(TypeRef::from("str"), "text", ArgumentKind::In);
    with_lifetime.0.push(lib.lifetime_attribute("a"));
    let mut written = argument(TypeRef::from("Buffer"), "out_buffer", ArgumentKind::Out);
    written.0.push(lib.lifetime_attribute("b"));
    let args = vec![
        argument(TypeRef::from("u32"), "count", ArgumentKind::Default),
        with_lifetime,
        written,
        argument(TypeRef::from("u8"), "flag", ArgumentKind::Ref),
    ];
    assert_eq!(
        generator.get_args(&args).unwrap(),
        "count:u32, text:&'a str, out_buffer:&'b mut Buffer, flag:&mut u8"
    );
    assert_eq!(generator.get_args(&vec![]).unwrap(), "");
    let (pack, passed) = generator.gen_args(&args, false).unwrap();
    assert_eq!(passed, "args_size, args_ptr");
    assert!(pack.contains(
        "let args_size = std::mem::size_of::<u32>() + std::mem::size_of::<&str>() + std::mem::size_of::<&mut Buffer>() + std::mem::size_of::<&mut u8>();"
    ));
    assert!(pack.contains("*(args_ptr as *mut u32) = count;"));
    assert!(pack.contains(
        "*(args_ptr.add(std::mem::size_of::<u32>() + std::mem::size_of::<&str>()) as *mut &mut Buffer) = out_buffer;"
    ));
}

#[test]
fn a_constructor_of_the_host_side() {
    let package = PackageBuilder::new("mylib", NamingConventions::rust()).unwrap();
    let generator = bindings(empty_package());
    let ctor = create_class(&package, "Thing").add_constructor().get_constructor();
    let output = generator.gen_ctor(&ctor, 2, "Thing").unwrap();
    assert_eq!(output.statics, "static mut Thing_ctor2: Option<Fn> = None;\n");
    assert_eq!(output.load, "Thing_ctor2 = Some(Thing_type.get_ctor(2).clone());\n");
    assert!(output.bindings.starts_with("\tpub fn new2() -> Self {\n"));
    assert!(output.bindings.contains("let this = ctor_func(0, std::ptr::null_mut());"));
    assert!(output.bindings.contains("panic!(\"Pointer of constructor result is null\")"));

    let hidden = create_class(&package, "Thing")
        .add_constructor()
        .set_visibility(Visibility::Private)
        .get_constructor();
    let output = generator.gen_ctor(&hidden, 0, "Thing").unwrap();
    assert_eq!(output.statics, "");
    assert_eq!(output.bindings, "");
    assert_eq!(output.load, "");
}

#[test]
fn a_write_only_property_is_bound_in_an_interface_only() {
    let package = PackageBuilder::new("mylib", NamingConventions::rust()).unwrap();
    let generator = bindings(empty_package());
    let property = create_class(&package, "Thing")
        .add_property(TypeRef::from("u8"), "level")
        .getter_visibility(Visibility::Private)
        .setter_visibility(Visibility::Public)
        .get_property();
    let output = generator.gen_property(&property, Some("Thing")).unwrap();
    assert_eq!(output.statics, "");
    assert_eq!(output.load, "");
    assert_eq!(output.bindings, "");
    let e = entrypoint(empty_package()).gen_property(&property, &type_named("Thing"));
    assert_eq!(e.load, "");
    let signature = generator.gen_property(&property, None).unwrap();
    assert_eq!(signature.bindings, "\tpub fn set_level(&mut self, value: u8);\n");
    assert_eq!(signature.statics, "");
    assert_eq!(signature.load, "");
}

#[test]
fn a_setter_is_taken_from_the_property_of_the_getter() {
    let package = PackageBuilder::new("mylib", NamingConventions::rust()).unwrap();
    let generator = bindings(empty_package());
    let property = create_class(&package, "Thing")
        .add_property(TypeRef::from("u8"), "level")
        .setter_visibility(Visibility::Public)
        .get_property();
    let output = generator.gen_property(&property, Some("Thing")).unwrap();
    assert_eq!(
        output.load,
        format!(
            "let Thing_level_prop = Thing_type.get_property({});\nThing_level_getter = Some(Thing_level_prop.getter);\nThing_level_setter = Some(Thing_level_prop.setter.unwrap());\n",
            generate_member_id("level")
        )
    );
}

#[test]
fn default_is_not_generated_on_request() {
    let mut config = Config::default();
    config.generate_default = false;
    config.ctor_name = "create".to_string();
    let text = RustGenerator::new(test_struct_only(), config)
        .generate_bindings()
        .unwrap()
        .render()
        .unwrap();
    assert!(!text.contains("impl Default for TestStruct"));
    assert!(text.contains("impl Drop for TestStruct"));
    let with_default = RustGenerator::new(test_struct_only(), Config::default())
        .generate_bindings()
        .unwrap()
        .render()
        .unwrap();
    assert!(with_default.contains("impl Default for TestStruct {\n\tfn default() -> Self {\n\t\tunsafe {\n\t\t\tTestStruct::test_empty_ctor()\n"));
}

#[test]
fn statics_are_registered_among_the_statics() {
    let mut package = PackageBuilder::new("mylib", NamingConventions::rust()).unwrap();
    create_class(&package, "Counter")
        .add_property(TypeRef::from("u32"), "count")
        .build()
        .unwrap()
        .add_static_property(TypeRef::from("u32"), "total")
        .setter_visibility(Visibility::Public)
        .build()
        .unwrap()
        .add_field(TypeRef::from("u8"), "step")
        .set_visibility(Visibility::Public)
        .build()
        .add_static_field(TypeRef::from("u8"), "LIMIT")
        .set_visibility(Visibility::Public)
        .build()
        .build(&mut package);
    let text = entrypoint(package.build()).render();
    let registered: Vec<&str> = text
        .lines()
        .map(|line| line.trim())
        .filter(|line| line.starts_with("Counter_type.add_"))
        .collect();
    assert_eq!(
        registered,
        vec![
            format!(
                "Counter_type.add_property({}, Property {{ getter: Counter_get_count, setter: None }});",
                generate_member_id("count")
            ),
            format!(
                "Counter_type.add_property({}, Property {{ getter: Counter_get_step, setter: Some(Counter_set_step) }});",
                generate_member_id("step")
            ),
            format!(
                "Counter_type.add_static({}, StaticProperty {{ getter: Counter_get_static_total, setter: Some(Counter_set_static_total) }});",
                generate_member_id("total")
            ),
            format!(
                "Counter_type.add_static({}, StaticProperty {{ getter: Counter_get_static_LIMIT, setter: Some(Counter_set_static_LIMIT) }});",
                generate_member_id("LIMIT")
            ),
        ]
    );
    assert!(text.contains("pub extern \"C\" fn Counter_get_static_total() -> Ptr {"));
    assert!(text.contains("Box::new(Counter::get_total());"));
    assert!(text.contains("pub extern \"C\" fn Counter_set_static_LIMIT(object: Ptr) {"));
    assert!(text.contains("Counter::LIMIT = LIMIT;"));
    assert!(!text.contains("(*this).LIMIT"));
    assert!(!text.contains("(*this).get_total()"));
}

#[test]
fn what_crosses_the_boundary() {
    assert!(type_crosses(&TypeRef::from("u8")));
    assert!(!type_crosses(&TypeRef::Id(1)));
    assert!(!type_crosses(&TypeRef::Tuple(vec![])));
    assert!(!type_crosses(&TypeRef::Generic(Box::new(TypeRef::from("Vec")), vec![])));
    assert!(!type_crosses(&TypeRef::Fn(None, vec![])));
    assert!(arguments_cross(&vec![]));
    assert!(arguments_cross(&vec![
        argument(TypeRef::from("u8"), "a", ArgumentKind::Default),
        argument(TypeRef::from("Thing"), "b", ArgumentKind::Out),
    ]));
    assert!(!arguments_cross(&vec![
        argument(TypeRef::from("u8"), "a", ArgumentKind::Default),
        argument(TypeRef::Id(2), "b", ArgumentKind::Default),
    ]));
}
