use vstd::prelude::*;

use crate::generator::rust_std_lib::{first_string_from, has_attribute, RustStdLib, RustStdLibView};
use crate::generator::{
    all_cross, arguments_cross, exports_constructor, exports_field, exports_method,
    exports_property, type_crosses, Config, ConfigView,
};
use crate::model::{
    Argument, ArgumentKind, ArgumentKindView, ArgumentView, Constructor, ConstructorView, Field,
    FieldView, Method, MethodKind, MethodView, Package, PackageView, Property, PropertyView, Type,
    TypeKind, TypeKindView, TypeRef, TypeRefView, TypeView, Variant, VariantView,
};
use crate::text::{decimal, indent, indented, join, u64_to_string, without_last};

verus! {

/// What is emitted for one item: the glue function, and the line of the
/// entry point that registers it.
pub struct Emission {
    pub glue: String,
    pub load: String,
}

pub ghost struct Emitted {
    pub glue: Seq<char>,
    pub load: Seq<char>,
}

impl Emitted {
    /// Nothing.
    pub open spec fn nothing() -> Emitted {
        Emitted { glue: Seq::empty(), load: Seq::empty() }
    }

    /// This, and after it `next`.
    pub open spec fn followed_by(self, next: Emitted) -> Emitted {
        Emitted { glue: self.glue + next.glue, load: self.load + next.load }
    }
}

impl View for Emission {
    type V = Emitted;

    open spec fn view(&self) -> Emitted {
        Emitted { glue: self.glue@, load: self.load@ }
    }
}

impl Emission {
    /// Nothing.
    pub fn new() -> (e: Emission)
        ensures
            e@ == Emitted::nothing(),
    {
        Emission { glue: String::new(), load: String::new() }
    }

    /// Appends `next`.
    pub fn push(&mut self, next: &Emission)
        ensures
            final(self)@ == old(self)@.followed_by(next@),
    {
        self.glue.append(next.glue.as_str());
        self.load.append(next.load.as_str());
    }
}

/// The name that the emitted text gives to a reference by name. Glue has
/// no text for any other reference: a member that needs one is left out.
pub open spec fn referred_name(t: TypeRefView) -> Seq<char> {
    match t {
        TypeRefView::Name(name) => name,
        _ => Seq::empty(),
    }
}

/// The name that the emitted text gives to a reference: that of a
/// reference by name, and none for any other.
pub fn get_type_name(type_ref: &TypeRef) -> (name: Option<String>)
    ensures
        name.deep_view() == (match type_ref@ {
            TypeRefView::Name(name) => Some(name),
            _ => None,
        }),
{
    match type_ref {
        TypeRef::Name(name) => Some(name.clone()),
        _ => None,
    }
}

/// The name of a reference as the emitted text spells it.
fn name_text(type_ref: &TypeRef) -> (name: String)
    ensures
        name@ == referred_name(type_ref@),
{
    match type_ref {
        TypeRef::Name(name) => name.clone(),
        _ => String::new(),
    }
}

/// The variable that holds a type's table in the entry point.
pub open spec fn type_variable(name: Seq<char>) -> Seq<char> {
    name + "_type"@
}

/// The variable that holds a type's table in the entry point.
fn type_var(t: &Type) -> (name: String)
    ensures
        name@ == type_variable(t@.name),
{
    let mut name = t.name.clone();
    name.append("_type");
    name
}

/// Whether an argument of this kind arrives as a reference.
pub open spec fn reference_prefix(kind: ArgumentKindView) -> Seq<char> {
    if kind.by_reference() {
        "&"@
    } else {
        ""@
    }
}

/// The mutability of the pointer through which an argument of this kind is
/// read from the buffer.
pub open spec fn pointer_prefix(kind: ArgumentKindView) -> Seq<char> {
    if kind is Out || kind is Ref {
        "mut"@
    } else {
        "const"@
    }
}

/// `mut` before the name of an argument that is written through.
pub open spec fn let_postfix(kind: ArgumentKindView) -> Seq<char> {
    if kind is Out || kind is Ref {
        " mut"@
    } else {
        ""@
    }
}

/// The type as which an argument is read from the buffer.
pub open spec fn slot_type(arg: ArgumentView) -> Seq<char> {
    reference_prefix(arg.3) + referred_name(arg.1)
}

/// The statements that read one argument from the buffer and move on by
/// its size. Arguments are read in the order in which they were declared,
/// each as the type the caller packed it as: the buffer holds no tags.
pub open spec fn read_argument(arg: ArgumentView) -> Seq<char> {
    "\n"@
        + "        let"@
        + let_postfix(arg.3)
        + " "@
        + arg.2
        + ": "@
        + slot_type(arg)
        + " = ptr::read(args_ptr as *"@
        + pointer_prefix(arg.3)
        + " "@
        + slot_type(arg)
        + ");\n"@
        + "        args_ptr = args_ptr.add(std::mem::size_of::<"@
        + slot_type(arg)
        + ">());"@
}

/// The type of the receiver as it is read from the buffer.
pub open spec fn receiver_type(mutable: bool, name: Seq<char>) -> Seq<char> {
    (if mutable {
        "*mut "@
    } else {
        "*const "@
    }) + name
}

/// The statements that read the receiver, which comes first in the buffer:
/// one slot of the size of a pointer.
pub open spec fn read_receiver(mutable: bool, name: Seq<char>) -> Seq<char> {
    "\n"@
        + "        let this: "@
        + receiver_type(mutable, name)
        + " = *(args_ptr as *mut Ptr) as "@
        + receiver_type(mutable, name)
        + ";\n"@
        + "        args_ptr = args_ptr.add(std::mem::size_of::<"@
        + receiver_type(mutable, name)
        + ">());"@
}

/// The statements that read each argument from index `from` on.
pub open spec fn read_arguments_from(args: Seq<ArgumentView>, from: int) -> Seq<char>
    decreases args.len() - from,
{
    if from < 0 || from >= args.len() {
        Seq::empty()
    } else {
        read_argument(args[from]) + read_arguments_from(args, from + 1)
    }
}

/// The names of the arguments from index `from` on.
pub open spec fn argument_names_from(args: Seq<ArgumentView>, from: int) -> Seq<Seq<char>>
    decreases args.len() - from,
{
    if from < 0 || from >= args.len() {
        Seq::empty()
    } else {
        seq![args[from].2] + argument_names_from(args, from + 1)
    }
}

/// The statements that unpack a call's arguments: nothing where there is
/// neither receiver nor argument; else the buffer is taken, then the
/// receiver read if there is one, then each argument in order.
pub open spec fn unpacking(args: Seq<ArgumentView>, this: Option<(bool, Seq<char>)>) -> Seq<char> {
    (if this is Some || args.len() > 0 {
        "\n"@
            + "        let args_slice = std::slice::from_raw_parts_mut(args, args_size);\n"@
            + "        let mut args_ptr = args_slice.as_mut_ptr();"@
    } else {
        Seq::empty()
    }) + (match this {
        Some((mutable, name)) => read_receiver(mutable, name),
        None => Seq::empty(),
    }) + read_arguments_from(args, 0)
}

/// The names of the arguments, with a comma and a space between each two.
pub open spec fn argument_list(args: Seq<ArgumentView>) -> Seq<char> {
    join(argument_names_from(args, 0), ", "@)
}

/// The destructor of a type: it drops the object in place and frees its
/// allocation as that of this very type. Only this function may free it.
pub open spec fn destructor(t: TypeView) -> Emitted {
    Emitted {
        glue: "\n"@
            + "pub extern \"C\" fn "@
            + t.name
            + "_dtor(value: Ptr) {\n"@
            + "    unsafe {\n"@
            + "        ptr::drop_in_place(value);\n"@
            + "        dealloc(value, Layout::new::<"@
            + t.name
            + ">());\n"@
            + "    }\n"@
            + "}\n"@,
        load: type_variable(t.name)
            + ".set_dtor("@
            + t.name
            + "_dtor);\n"@,
    }
}

/// The name of the glue function of the constructor number `count`.
pub open spec fn constructor_function(t: TypeView, count: nat) -> Seq<char> {
    t.name + "_ctor"@ + decimal(count)
}

/// The call that the glue of a constructor makes.
pub open spec fn constructor_call(t: TypeView, fn_name: Seq<char>, args: Seq<ArgumentView>) -> Seq<
    char,
> {
    t.name + "::"@ + fn_name + "("@ + argument_list(args) + ")"@
}

/// The function behind a constructor that the library exports: it unpacks
/// the arguments, calls the Rust function `fn_name`, and returns the new
/// object on the heap, owned by the caller from then on.
pub open spec fn constructor_glue(
    c: ConstructorView,
    t: TypeView,
    fn_name: Seq<char>,
    count: nat,
) -> Seq<char> {
    "\n"@
        + "pub extern \"C\" fn "@
        + constructor_function(t, count)
        + "(args_size: usize, args: *mut u8) -> Ptr {\n"@
        + "    unsafe {"@
        + unpacking(c.args, None)
        + "\n"@
        + "        let value = Box::new("@
        + constructor_call(t, fn_name, c.args)
        + ");\n"@
        + "        Box::into_raw(value) as Ptr\n"@
        + "    }\n"@
        + "}\n"@
}

/// The function that holds the place of a constructor that the library
/// does not export: it makes nothing and returns the null address.
pub open spec fn constructor_placeholder(t: TypeView, count: nat) -> Seq<char> {
    "\n"@
        + "pub extern \"C\" fn "@
        + constructor_function(t, count)
        + "(_: usize, _: *mut u8) -> Ptr {\n"@
        + "    ptr::null_mut()\n"@
        + "}\n"@
}

/// The line that registers the function of the constructor number `count`.
pub open spec fn constructor_registration(t: TypeView, count: nat) -> Seq<char> {
    type_variable(t.name)
        + ".add_ctor("@
        + constructor_function(t, count)
        + ");\n"@
}

/// A constructor. Every constructor of a type gets a function and a line
/// that registers it, so that the table holds the constructor number
/// `count` at index `count`. Behind a constructor that the library exports
/// stands the Rust function that the `ConstructorFnName` attribute names;
/// behind any other, a function that returns the null address.
pub open spec fn constructor(
    lib: RustStdLibView,
    config: ConfigView,
    c: ConstructorView,
    t: TypeView,
    count: nat,
) -> Emitted {
    Emitted {
        glue: if exports_constructor(lib, config, c) {
            constructor_glue(
                c,
                t,
                first_string_from(c.attrs, lib.constructor_name_attribute.id, 0)->Some_0,
                count,
            )
        } else {
            constructor_placeholder(t, count)
        },
        load: constructor_registration(t, count),
    }
}

/// The lines that register the constructors numbered from `from` up to
/// `count`, in this order.
pub open spec fn constructor_registrations(t: TypeView, count: nat, from: nat) -> Seq<char>
    decreases count - from,
{
    if from >= count {
        Seq::empty()
    } else {
        constructor_registration(t, from) + constructor_registrations(t, count, from + 1)
    }
}

/// The receiver of a method: a default method has one, mutable if the
/// method is marked so; a static method has none.
pub open spec fn receiver_of(lib: RustStdLibView, m: MethodView, t: TypeView) -> Option<
    (bool, Seq<char>),
> {
    if m.kind == MethodKind::Default {
        Some((has_attribute(m.attrs, lib.mutable_attribute.id), t.name))
    } else {
        None
    }
}

/// The call that the glue of a method makes.
pub open spec fn method_call(lib: RustStdLibView, m: MethodView, t: TypeView) -> Seq<char> {
    if m.kind == MethodKind::Default {
        "(*this)."@ + m.name + "("@ + argument_list(m.args) + ")"@
    } else {
        t.name + "::"@ + m.name + "("@ + argument_list(m.args) + ")"@
    }
}

/// How the glue hands a result back. A call that produces a value puts it
/// on the heap and returns its address: the allocation is the caller's from
/// then on. A call that produces nothing returns the null address.
pub open spec fn returning(call: Seq<char>, has_value: bool) -> Seq<char> {
    if has_value {
        "let to_return = Box::new("@
            + call
            + ");\n"@
            + "\t\tBox::into_raw(to_return) as Ptr"@
    } else {
        call
            + ";\n"@
            + "\t\tptr::null_mut()"@
    }
}

/// The name of the glue function of a method or a variant.
pub open spec fn member_function(t: TypeView, member: Seq<char>) -> Seq<char> {
    t.name + "_"@ + member
}

/// A method: it unpacks the receiver and the arguments, makes the call and
/// hands the result back. Nothing is emitted for a method that is not
/// visible enough, is neither a default nor a static method, or takes an
/// argument whose type is not given by name.
pub open spec fn method(
    lib: RustStdLibView,
    config: ConfigView,
    m: MethodView,
    t: TypeView,
) -> Emitted {
    if exports_method(config, m) {
        Emitted {
            glue: "\n"@
                + "pub extern \"C\" fn "@
                + member_function(t, m.name)
                + "(args_size: usize, args: *mut u8) -> Ptr {\n"@
                + "    unsafe {"@
                + unpacking(m.args, receiver_of(lib, m, t))
                + "\n"@
                + "        "@
                + returning(method_call(lib, m, t), m.return_type is Some)
                + "\n"@
                + "    }\n"@
                + "}\n"@,
            load: type_variable(t.name)
                + ".add_method("@
                + decimal(m.id as nat)
                + ", "@
                + member_function(t, m.name)
                + ");\n"@,
        }
    } else {
        Emitted::nothing()
    }
}

/// The name of the getter of a member.
pub open spec fn getter_function(t: TypeView, member: Seq<char>) -> Seq<char> {
    t.name + "_get_"@ + member
}

/// The name of the setter of a member.
pub open spec fn setter_function(t: TypeView, member: Seq<char>) -> Seq<char> {
    t.name + "_set_"@ + member
}

/// Whether the setter of a property is emitted.
pub open spec fn has_setter(config: ConfigView, p: PropertyView) -> bool {
    match p.setter_visibility {
        Some(vis) => Config::passes(config, vis),
        None => false,
    }
}

/// What the registration of a property says of its setter.
pub open spec fn registered_setter(config: ConfigView, p: PropertyView, setter: Seq<char>) -> Seq<
    char,
> {
    if has_setter(config, p) {
        "Some("@ + setter + ")"@
    } else {
        "None"@
    }
}

/// A property: a getter, which returns the value on the heap, and a setter
/// where the property has one that is visible enough. Nothing is emitted
/// for a property whose getter is not visible enough, or whose type is not
/// given by name.
pub open spec fn property(config: ConfigView, p: PropertyView, t: TypeView) -> Emitted {
    if exports_property(config, p) {
        Emitted {
            glue: "\n"@
                + "pub extern \"C\" fn "@
                + getter_function(t, p.name)
                + "(this: Ptr) -> Ptr {\n"@
                + "    unsafe {\n"@
                + "        let this: *const "@
                + t.name
                + " = this as *const "@
                + t.name
                + ";\n"@
                + "        let to_return = Box::new((*this).get_"@
                + p.name
                + "());\n"@
                + "        Box::into_raw(to_return) as Ptr\n"@
                + "    }\n"@
                + "}\n"@ + (if has_setter(config, p) {
                "\n"@
                    + "pub extern \"C\" fn "@
                    + setter_function(t, p.name)
                    + "(this: Ptr, object: Ptr) {\n"@
                    + "    unsafe {\n"@
                    + "        let this: *mut "@
                    + t.name
                    + " = this as *mut "@
                    + t.name
                    + ";\n"@
                    + "        let "@
                    + p.name
                    + ": "@
                    + referred_name(p.prop_type)
                    + " = ptr::read(object as *const "@
                    + referred_name(p.prop_type)
                    + ");\n"@
                    + "        (*this).set_"@
                    + p.name
                    + "("@
                    + p.name
                    + ");\n"@
                    + "    }\n"@
                    + "}\n"@
            } else {
                Seq::empty()
            }),
            load: type_variable(t.name)
                + ".add_property("@
                + decimal(p.id as nat)
                + ", Property { getter: "@
                + getter_function(t, p.name)
                + ", setter: "@
                + registered_setter(config, p, setter_function(t, p.name))
                + " });\n"@,
        }
    } else {
        Emitted::nothing()
    }
}

/// A field: a getter and a setter that read and write the field itself.
/// Nothing is emitted for a field that is not visible enough, or whose
/// type is not given by name.
pub open spec fn field(config: ConfigView, f: FieldView, t: TypeView) -> Emitted {
    if exports_field(config, f) {
        Emitted {
            glue: "\n"@
                + "pub extern \"C\" fn "@
                + getter_function(t, f.name)
                + "(this: Ptr) -> Ptr {\n"@
                + "    unsafe {\n"@
                + "        let this: *const "@
                + t.name
                + " = this as *const "@
                + t.name
                + ";\n"@
                + "        let to_return = Box::new((*this)."@
                + f.name
                + ");\n"@
                + "        Box::into_raw(to_return) as Ptr\n"@
                + "    }\n"@
                + "}\n"@ + "\n"@
                + "pub extern \"C\" fn "@
                + setter_function(t, f.name)
                + "(this: Ptr, object: Ptr) {\n"@
                + "    unsafe {\n"@
                + "        let this: *mut "@
                + t.name
                + " = this as *mut "@
                + t.name
                + ";\n"@
                + "        let "@
                + f.name
                + ": "@
                + referred_name(f.field_type)
                + " = ptr::read(object as *const "@
                + referred_name(f.field_type)
                + ");\n"@
                + "        (*this)."@
                + f.name
                + " = "@
                + f.name
                + ";\n"@
                + "    }\n"@
                + "}\n"@,
            load: type_variable(t.name)
                + ".add_property("@
                + decimal(f.id as nat)
                + ", Property { getter: "@
                + getter_function(t, f.name)
                + ", setter: Some("@
                + setter_function(t, f.name)
                + ") });\n"@,
        }
    } else {
        Emitted::nothing()
    }
}

/// The fields of a variant as the arguments of the function that makes it:
/// each passed by value, with the field's attributes, type and name.
pub open spec fn field_arguments_from(fields: Seq<FieldView>, from: int) -> Seq<ArgumentView>
    decreases fields.len() - from,
{
    if from < 0 || from >= fields.len() {
        Seq::empty()
    } else {
        seq![
            ArgumentView(
                fields[from].attrs,
                fields[from].field_type,
                fields[from].name,
                ArgumentKindView::Default,
            ),
        ] + field_arguments_from(fields, from + 1)
    }
}

/// Whether a variant crosses the boundary: it is visible enough and the
/// types of its fields are given by name.
pub open spec fn exports_variant(config: ConfigView, v: VariantView) -> bool {
    Config::passes(config, v.vis) && all_cross(field_arguments_from(v.fields, 0))
}

/// The expression that makes a variant of its fields: a bare path for a
/// variant without fields, a call for a tuple variant, a struct literal
/// otherwise.
pub open spec fn variant_value(lib: RustStdLibView, v: VariantView, t: TypeView) -> Seq<char> {
    let args = field_arguments_from(v.fields, 0);
    if args.len() == 0 {
        t.name + "::"@ + v.name
    } else if has_attribute(v.attrs, lib.tuple_variant_attribute.id) {
        t.name + "::"@ + v.name + "("@ + argument_list(args) + ")"@
    } else {
        t.name + "::"@ + v.name + " { "@ + argument_list(args) + " }"@
    }
}

/// How the glue hands a variant back: on the heap, the caller's from then
/// on.
pub open spec fn returning_variant(value: Seq<char>) -> Seq<char> {
    "let return_value = Box::new("@
        + value
        + ");\n"@
        + "\t\tBox::into_raw(return_value) as Ptr"@
}

/// A variant of an enum class: a function that unpacks the fields, makes
/// the variant and returns it on the heap. It is registered as a method
/// under the variant's id. Nothing is emitted for a variant that is not
/// visible enough, or that has a field whose type is not given by name.
pub open spec fn variant(
    lib: RustStdLibView,
    config: ConfigView,
    v: VariantView,
    t: TypeView,
) -> Emitted {
    if exports_variant(config, v) {
        Emitted {
            glue: "\n"@
                + "pub extern \"C\" fn "@
                + member_function(t, v.name)
                + "(args_size: usize, args: *mut u8) -> Ptr {\n"@
                + "    unsafe {"@
                + unpacking(field_arguments_from(v.fields, 0), None)
                + "\n"@
                + "        "@
                + returning_variant(variant_value(lib, v, t))
                + "\n"@
                + "    }\n"@
                + "}\n"@,
            load: type_variable(t.name)
                + ".add_method("@
                + decimal(v.id as nat)
                + ", "@
                + member_function(t, v.name)
                + ");\n"@,
        }
    } else {
        Emitted::nothing()
    }
}

/// The name of the getter of a static member.
pub open spec fn static_getter_function(t: TypeView, member: Seq<char>) -> Seq<char> {
    t.name + "_get_static_"@ + member
}

/// The name of the setter of a static member.
pub open spec fn static_setter_function(t: TypeView, member: Seq<char>) -> Seq<char> {
    t.name + "_set_static_"@ + member
}

/// A static property: a getter and, where it has one that is visible
/// enough, a setter, neither of which takes an object. Nothing is emitted
/// for a static property whose getter is not visible enough, or whose type
/// is not given by name.
pub open spec fn static_property(config: ConfigView, p: PropertyView, t: TypeView) -> Emitted {
    if exports_property(config, p) {
        Emitted {
            glue: "\n"@
                + "pub extern \"C\" fn "@
                + static_getter_function(t, p.name)
                + "() -> Ptr {\n"@
                + "    unsafe {\n"@
                + "        let to_return = Box::new("@
                + t.name
                + "::get_"@
                + p.name
                + "());\n"@
                + "        Box::into_raw(to_return) as Ptr\n"@
                + "    }\n"@
                + "}\n"@ + (if has_setter(config, p) {
                "\n"@
                    + "pub extern \"C\" fn "@
                    + static_setter_function(t, p.name)
                    + "(object: Ptr) {\n"@
                    + "    unsafe {\n"@
                    + "        let "@
                    + p.name
                    + ": "@
                    + referred_name(p.prop_type)
                    + " = ptr::read(object as *const "@
                    + referred_name(p.prop_type)
                    + ");\n"@
                    + "        "@
                    + t.name
                    + "::set_"@
                    + p.name
                    + "("@
                    + p.name
                    + ");\n"@
                    + "    }\n"@
                    + "}\n"@
            } else {
                Seq::empty()
            }),
            load: type_variable(t.name)
                + ".add_static("@
                + decimal(p.id as nat)
                + ", StaticProperty { getter: "@
                + static_getter_function(t, p.name)
                + ", setter: "@
                + registered_setter(config, p, static_setter_function(t, p.name))
                + " });\n"@,
        }
    } else {
        Emitted::nothing()
    }
}

/// A static field: a getter and a setter that read and write the static
/// itself. Nothing is emitted for a static field that is not visible
/// enough, or whose type is not given by name.
pub open spec fn static_field(config: ConfigView, f: FieldView, t: TypeView) -> Emitted {
    if exports_field(config, f) {
        Emitted {
            glue: "\n"@
                + "pub extern \"C\" fn "@
                + static_getter_function(t, f.name)
                + "() -> Ptr {\n"@
                + "    unsafe {\n"@
                + "        let to_return = Box::new("@
                + t.name
                + "::"@
                + f.name
                + ");\n"@
                + "        Box::into_raw(to_return) as Ptr\n"@
                + "    }\n"@
                + "}\n"@ + "\n"@
                + "pub extern \"C\" fn "@
                + static_setter_function(t, f.name)
                + "(object: Ptr) {\n"@
                + "    unsafe {\n"@
                + "        let "@
                + f.name
                + ": "@
                + referred_name(f.field_type)
                + " = ptr::read(object as *const "@
                + referred_name(f.field_type)
                + ");\n"@
                + "        "@
                + t.name
                + "::"@
                + f.name
                + " = "@
                + f.name
                + ";\n"@
                + "    }\n"@
                + "}\n"@,
            load: type_variable(t.name)
                + ".add_static("@
                + decimal(f.id as nat)
                + ", StaticProperty { getter: "@
                + static_getter_function(t, f.name)
                + ", setter: Some("@
                + static_setter_function(t, f.name)
                + ") });\n"@,
        }
    } else {
        Emitted::nothing()
    }
}

/// What is emitted for the constructors from index `from` on. A constructor
/// is numbered by its index among all the constructors of the type.
pub open spec fn constructors_from(
    lib: RustStdLibView,
    config: ConfigView,
    items: Seq<ConstructorView>,
    t: TypeView,
    from: int,
) -> Emitted
    decreases items.len() - from,
{
    if from < 0 || from >= items.len() {
        Emitted::nothing()
    } else {
        constructor(lib, config, items[from], t, from as nat).followed_by(
            constructors_from(lib, config, items, t, from + 1),
        )
    }
}

/// What is emitted for the properties from index `from` on.
pub open spec fn properties_from(
    lib: RustStdLibView,
    config: ConfigView,
    items: Seq<PropertyView>,
    t: TypeView,
    from: int,
) -> Emitted
    decreases items.len() - from,
{
    if from < 0 || from >= items.len() {
        Emitted::nothing()
    } else {
        property(config, items[from], t).followed_by(
            properties_from(lib, config, items, t, from + 1),
        )
    }
}

/// What is emitted for the fields from index `from` on.
pub open spec fn fields_from(
    lib: RustStdLibView,
    config: ConfigView,
    items: Seq<FieldView>,
    t: TypeView,
    from: int,
) -> Emitted
    decreases items.len() - from,
{
    if from < 0 || from >= items.len() {
        Emitted::nothing()
    } else {
        field(config, items[from], t).followed_by(
            fields_from(lib, config, items, t, from + 1),
        )
    }
}

/// What is emitted for the static properties from index `from` on.
pub open spec fn static_properties_from(
    lib: RustStdLibView,
    config: ConfigView,
    items: Seq<PropertyView>,
    t: TypeView,
    from: int,
) -> Emitted
    decreases items.len() - from,
{
    if from < 0 || from >= items.len() {
        Emitted::nothing()
    } else {
        static_property(config, items[from], t).followed_by(
            static_properties_from(lib, config, items, t, from + 1),
        )
    }
}

/// What is emitted for the static fields from index `from` on.
pub open spec fn static_fields_from(
    lib: RustStdLibView,
    config: ConfigView,
    items: Seq<FieldView>,
    t: TypeView,
    from: int,
) -> Emitted
    decreases items.len() - from,
{
    if from < 0 || from >= items.len() {
        Emitted::nothing()
    } else {
        static_field(config, items[from], t).followed_by(
            static_fields_from(lib, config, items, t, from + 1),
        )
    }
}

/// What is emitted for the methods from index `from` on.
pub open spec fn methods_from(
    lib: RustStdLibView,
    config: ConfigView,
    items: Seq<MethodView>,
    t: TypeView,
    from: int,
) -> Emitted
    decreases items.len() - from,
{
    if from < 0 || from >= items.len() {
        Emitted::nothing()
    } else {
        method(lib, config, items[from], t).followed_by(
            methods_from(lib, config, items, t, from + 1),
        )
    }
}

/// What is emitted for the variants from index `from` on.
pub open spec fn variants_from(
    lib: RustStdLibView,
    config: ConfigView,
    items: Seq<VariantView>,
    t: TypeView,
    from: int,
) -> Emitted
    decreases items.len() - from,
{
    if from < 0 || from >= items.len() {
        Emitted::nothing()
    } else {
        variant(lib, config, items[from], t).followed_by(
            variants_from(lib, config, items, t, from + 1),
        )
    }
}

/// The line of the entry point that registers a type in its package.
pub open spec fn type_registration(package_variable: Seq<char>, t: TypeView) -> Emitted {
    Emitted {
        glue: Seq::empty(),
        load: "let mut "@
            + type_variable(t.name)
            + " = "@
            + package_variable
            + ".add_type("@
            + decimal(t.id as nat)
            + ");\n"@,
    }
}

/// What is emitted for one type: its registration, its destructor, then
/// its members, kind by kind: the constructors, the methods (of an enum
/// class the variants come before them), the properties and fields, the
/// static properties and static fields. A static property or a static
/// field gets functions that take no object, and is registered among the
/// statics.
/// Nothing is emitted for a generic type, for a type that is not visible
/// enough, or for an enum, an interface or an alias.
pub open spec fn type_glue(
    lib: RustStdLibView,
    config: ConfigView,
    package_variable: Seq<char>,
    t: TypeView,
) -> Emitted {
    if t.generics.0.len() > 0 || !Config::passes(config, t.vis) {
        Emitted::nothing()
    } else {
        match t.kind {
            TypeKindView::Class {
                constructors,
                properties,
                fields,
                static_properties,
                static_fields,
                methods,
                ..
            } => type_registration(package_variable, t)
                .followed_by(destructor(t))
                .followed_by(constructors_from(lib, config, constructors, t, 0))
                .followed_by(methods_from(lib, config, methods, t, 0))
                .followed_by(properties_from(lib, config, properties, t, 0))
                .followed_by(fields_from(lib, config, fields, t, 0))
                .followed_by(static_properties_from(lib, config, static_properties, t, 0))
                .followed_by(static_fields_from(lib, config, static_fields, t, 0)),
            TypeKindView::EnumClass { variants, methods } => type_registration(package_variable, t)
                .followed_by(destructor(t))
                .followed_by(variants_from(lib, config, variants, t, 0))
                .followed_by(methods_from(lib, config, methods, t, 0)),
            TypeKindView::Struct { constructors, fields, static_fields } => type_registration(
                package_variable,
                t,
            )
                .followed_by(destructor(t))
                .followed_by(constructors_from(lib, config, constructors, t, 0))
                .followed_by(fields_from(lib, config, fields, t, 0))
                .followed_by(static_fields_from(lib, config, static_fields, t, 0)),
            _ => Emitted::nothing(),
        }
    }
}

/// What is emitted for the types from index `from` on.
pub open spec fn types_from(
    lib: RustStdLibView,
    config: ConfigView,
    package_variable: Seq<char>,
    types: Seq<TypeView>,
    from: int,
) -> Emitted
    decreases types.len() - from,
{
    if from < 0 || from >= types.len() {
        Emitted::nothing()
    } else {
        type_glue(lib, config, package_variable, types[from]).followed_by(
            types_from(lib, config, package_variable, types, from + 1),
        )
    }
}

/// What is emitted for a package: the line that registers the package,
/// then each type in the order of the package.
pub open spec fn package_glue(
    lib: RustStdLibView,
    config: ConfigView,
    package_variable: Seq<char>,
    package: PackageView,
) -> Emitted {
    (Emitted {
        glue: Seq::empty(),
        load: "let mut "@
            + package_variable
            + " = ctx.add_package("@
            + decimal(package.id as nat)
            + ");\n"@,
    }).followed_by(types_from(lib, config, package_variable, package.types, 0))
}

/// The first lines of an emitted file.
pub open spec fn file_head() -> Seq<char> {
    "// This file was generated by tangara-gen\n"@
        + "// All changes in this file will discard after rebuilding project\n"@
        + "use std::ptr;\n"@
        + "use std::alloc::{dealloc, Layout};\n"@
        + "use tangara::context::{Context, Ptr, Property, StaticProperty};\n"@
}

/// The body of the entry point as it stands in the file: each line after
/// the first begins with a tab.
pub open spec fn entry_body(body: Seq<char>) -> Seq<char> {
    if indented(body, "\t"@).len() == 0 {
        indented(body, "\t"@)
    } else {
        indented(body, "\t"@).drop_last()
    }
}

/// The entry point that a library exports: it takes the host's registry
/// and registers the package, its types and their functions, in this
/// order, before it returns.
pub open spec fn entry_point(load_name: Seq<char>, body: Seq<char>) -> Seq<char> {
    "#[no_mangle]\n"@
        + "pub extern \"C\" fn "@
        + load_name
        + "(ctx: &mut Context) {\n"@
        + "\t"@
        + entry_body(body)
        + "}\n"@
}

/// `a`, then `b`, then `c`, however they are grouped.
pub proof fn lemma_followed_by_assoc(a: Emitted, b: Emitted, c: Emitted)
    ensures
        a.followed_by(b).followed_by(c) == a.followed_by(b.followed_by(c)),
{
    assert(a.followed_by(b).followed_by(c).glue =~= a.followed_by(b.followed_by(c)).glue);
    assert(a.followed_by(b).followed_by(c).load =~= a.followed_by(b.followed_by(c)).load);
}

/// Nothing, before or after, changes nothing.
pub proof fn lemma_followed_by_nothing(a: Emitted)
    ensures
        a.followed_by(Emitted::nothing()) == a,
        Emitted::nothing().followed_by(a) == a,
{
    assert(a.followed_by(Emitted::nothing()).glue =~= a.glue);
    assert(a.followed_by(Emitted::nothing()).load =~= a.load);
    assert(Emitted::nothing().followed_by(a).glue =~= a.glue);
    assert(Emitted::nothing().followed_by(a).load =~= a.load);
}

/// The entry point registers one function for each constructor of a type,
/// in the order of the type: the line number `k` among them, counted from
/// zero, registers the function of the constructor number `k`, whether the
/// library exports that constructor or not.
pub proof fn lemma_constructor_slots(
    lib: RustStdLibView,
    config: ConfigView,
    items: Seq<ConstructorView>,
    t: TypeView,
    from: int,
)
    requires
        0 <= from <= items.len(),
    ensures
        constructors_from(lib, config, items, t, from).load == constructor_registrations(
            t,
            items.len(),
            from as nat,
        ),
    decreases items.len() - from,
{
    if from < items.len() {
        lemma_constructor_slots(lib, config, items, t, from + 1);
    }
}

/// Appends the statements that read one argument.
fn push_read_argument(out: &mut String, arg: &Argument)
    ensures
        final(out)@ == old(out)@ + read_argument(arg@),
{
    let by_reference = match &arg.3 {
        ArgumentKind::Default => false,
        ArgumentKind::DefaultValue(_) => false,
        ArgumentKind::Out => true,
        ArgumentKind::Ref => true,
        ArgumentKind::In => true,
    };
    let written = match &arg.3 {
        ArgumentKind::Out => true,
        ArgumentKind::Ref => true,
        _ => false,
    };
    let ref_prefix = if by_reference {
        "&"
    } else {
        ""
    };
    let ptr_prefix = if written {
        "mut"
    } else {
        "const"
    };
    let postfix = if written {
        " mut"
    } else {
        ""
    };
    let mut arg_type = String::from_str(ref_prefix);
    arg_type.append(name_text(&arg.1).as_str());
    assert(arg_type@ == slot_type(arg@));
    out.append("\n");
    out.append("        let");
    out.append(postfix);
    out.append(" ");
    out.append(arg.2.as_str());
    out.append(": ");
    out.append(arg_type.as_str());
    out.append(" = ptr::read(args_ptr as *");
    out.append(ptr_prefix);
    out.append(" ");
    out.append(arg_type.as_str());
    out.append(");\n");
    out.append("        args_ptr = args_ptr.add(std::mem::size_of::<");
    out.append(arg_type.as_str());
    out.append(">());");
}

/// The names of the arguments, with a comma and a space between each two.
fn argument_names(args: &Vec<Argument>) -> (names: String)
    ensures
        names@ == argument_list(args.deep_view()),
{
    let mut names: Vec<String> = Vec::new();
    let mut i: usize = 0;
    assert(names.deep_view() =~= Seq::<Seq<char>>::empty());
    while i < args.len()
        invariant
            i <= args.len(),
            argument_names_from(args.deep_view(), 0) == names.deep_view() + argument_names_from(
                args.deep_view(),
                i as int,
            ),
        decreases args.len() - i,
    {
        let ghost before = names.deep_view();
        names.push(args[i].2.clone());
        assert(names.deep_view() =~= before + seq![args.deep_view()[i as int].2]);
        i += 1;
    }
    crate::text::join_strings(&names, ", ")
}

/// The statements that unpack a call's arguments, and the names of the
/// arguments as the call lists them. Nothing where the type of an argument
/// is not given by name: that call cannot cross.
pub fn gen_args(args: &Vec<Argument>, this: Option<(bool, String)>) -> (r: Option<
    (String, String),
>)
    ensures
        r is Some <==> all_cross(args.deep_view()),
        r matches Some(texts) ==> texts.0@ == unpacking(args.deep_view(), this.deep_view())
            && texts.1@ == argument_list(args.deep_view()),
{
    if !arguments_cross(args) {
        return None;
    }
    let mut code = String::new();
    if this.is_some() || args.len() > 0 {
        code.append("\n");
        code.append("        let args_slice = std::slice::from_raw_parts_mut(args, args_size);\n");
        code.append("        let mut args_ptr = args_slice.as_mut_ptr();");
    }
    match &this {
        Some((mutable, name)) => {
            let mut ptr_type = String::from_str(if *mutable {
                "*mut "
            } else {
                "*const "
            });
            ptr_type.append(name.as_str());
            assert(ptr_type@ == receiver_type(*mutable, name@));
            code.append("\n");
            code.append("        let this: ");
            code.append(ptr_type.as_str());
            code.append(" = *(args_ptr as *mut Ptr) as ");
            code.append(ptr_type.as_str());
            code.append(";\n");
            code.append("        args_ptr = args_ptr.add(std::mem::size_of::<");
            code.append(ptr_type.as_str());
            code.append(">());");
        },
        None => {},
    }
    let ghost head = code@;
    let mut i: usize = 0;
    while i < args.len()
        invariant
            i <= args.len(),
            head + read_arguments_from(args.deep_view(), 0) == code@ + read_arguments_from(
                args.deep_view(),
                i as int,
            ),
        decreases args.len() - i,
    {
        push_read_argument(&mut code, &args[i]);
        i += 1;
    }
    Some((code, argument_names(args)))
}

/// The arguments that stand for the fields of a variant.
fn field_arguments(fields: &Vec<Field>) -> (args: Vec<Argument>)
    ensures
        args.deep_view() == field_arguments_from(fields.deep_view(), 0),
{
    let mut args: Vec<Argument> = Vec::new();
    let mut i: usize = 0;
    assert(args.deep_view() =~= Seq::<ArgumentView>::empty());
    while i < fields.len()
        invariant
            i <= fields.len(),
            field_arguments_from(fields.deep_view(), 0) == args.deep_view()
                + field_arguments_from(fields.deep_view(), i as int),
        decreases fields.len() - i,
    {
        let ghost before = args.deep_view();
        let arg = Argument::from(fields[i].clone());
        args.push(arg);
        assert(args.deep_view() =~= before + seq![arg@]);
        i += 1;
    }
    args
}

/// Generates, for the library's side, the glue functions of a package and
/// the entry point that registers them.
pub struct EntrypointGenerator {
    config: Config,
    package: Package,
    std_lib: RustStdLib,
    use_block: String,
    tgload_body: String,
    bindings_block: String,
    package_name: String,
}

pub ghost struct EntrypointView {
    pub config: ConfigView,
    pub package: PackageView,
    /// The `use` lines of the emitted file.
    pub use_block: Seq<char>,
    /// The body of the entry point.
    pub tgload_body: Seq<char>,
    /// The glue functions.
    pub bindings_block: Seq<char>,
    /// The variable that holds the package's table in the entry point.
    pub package_name: Seq<char>,
}

impl EntrypointView {
    /// The generator as it is made for a package: nothing emitted yet.
    pub open spec fn fresh(package: PackageView, config: ConfigView) -> EntrypointView {
        EntrypointView {
            config,
            package,
            use_block: Seq::empty(),
            tgload_body: Seq::empty(),
            bindings_block: Seq::empty(),
            package_name: package.name + "_package"@,
        }
    }

    /// What `generate` emits for the package.
    pub open spec fn glue(self) -> Emitted {
        package_glue(RustStdLibView::standard(), self.config, self.package_name, self.package)
    }

    /// The generator after `generate`.
    pub open spec fn generated(self) -> EntrypointView {
        EntrypointView {
            tgload_body: self.tgload_body + self.glue().load,
            bindings_block: self.bindings_block + self.glue().glue,
            ..self
        }
    }

    /// The text of the file: the head, the `use` lines, the glue functions,
    /// the entry point.
    pub open spec fn file(self) -> Seq<char> {
        file_head() + self.use_block + self.bindings_block + entry_point(
            self.config.load_name,
            self.tgload_body,
        )
    }
}

impl View for EntrypointGenerator {
    type V = EntrypointView;

    closed spec fn view(&self) -> EntrypointView {
        EntrypointView {
            config: self.config@,
            package: self.package@,
            use_block: self.use_block@,
            tgload_body: self.tgload_body@,
            bindings_block: self.bindings_block@,
            package_name: self.package_name@,
        }
    }
}

impl EntrypointGenerator {
    #[verifier::type_invariant]
    spec fn well_formed(self) -> bool {
        self.std_lib@ == RustStdLibView::standard()
    }

    pub(crate) fn new(package: Package, config: Config) -> (r: Self)
        ensures
            r@ == EntrypointView::fresh(package@, config@),
    {
        let mut package_name = package.name.clone();
        package_name.append("_package");
        Self {
            config,
            package,
            std_lib: RustStdLib::new(),
            use_block: String::new(),
            tgload_body: String::new(),
            bindings_block: String::new(),
            package_name,
        }
    }

    /// Adds a `use` line to the emitted file.
    pub fn custom_use(self, use_mod: &str) -> (r: Self)
        ensures
            r@ == (EntrypointView {
                use_block: self@.use_block + "use "@ + use_mod@ + ";\n"@,
                ..self@
            }),
    {
        proof {
            use_type_invariant(&self);
        }
        let mut use_block = self.use_block;
        use_block.append("use ");
        use_block.append(use_mod);
        use_block.append(";\n");
        Self {
            config: self.config,
            package: self.package,
            std_lib: self.std_lib,
            use_block,
            tgload_body: self.tgload_body,
            bindings_block: self.bindings_block,
            package_name: self.package_name,
        }
    }

    /// The destructor of a type.
    pub fn gen_dtor(&self, t: &Type) -> (e: Emission)
        ensures
            e@ == destructor(t@),
    {
        let mut e = Emission::new();
        let name = t.name.as_str();
        let var = type_var(t);
        e.glue.append("\n");
        e.glue.append("pub extern \"C\" fn ");
        e.glue.append(name);
        e.glue.append("_dtor(value: Ptr) {\n");
        e.glue.append("    unsafe {\n");
        e.glue.append("        ptr::drop_in_place(value);\n");
        e.glue.append("        dealloc(value, Layout::new::<");
        e.glue.append(name);
        e.glue.append(">());\n");
        e.glue.append("    }\n");
        e.glue.append("}\n");
        e.load.append(var.as_str());
        e.load.append(".set_dtor(");
        e.load.append(name);
        e.load.append("_dtor);\n");
        e
    }

    /// The glue of the constructor number `count` of a type.
    pub fn gen_ctor(&self, ctor: &Constructor, t: &Type, count: usize) -> (e: Emission)
        ensures
            e@ == constructor(RustStdLibView::standard(), self@.config, ctor@, t@, count as nat),
    {
        proof {
            use_type_invariant(self);
        }
        let mut e = Emission::new();
        let mut ctor_name = t.name.clone();
        ctor_name.append("_ctor");
        ctor_name.append(u64_to_string(count as u64).as_str());
        assert(ctor_name@ == constructor_function(t@, count as nat));
        let var = type_var(t);
        e.load.append(var.as_str());
        e.load.append(".add_ctor(");
        e.load.append(ctor_name.as_str());
        e.load.append(");\n");
        let fn_name = if self.config.pass_vis(ctor.vis) {
            self.std_lib.get_fn_name(ctor.attrs.as_slice())
        } else {
            None
        };
        let unpacked = match &fn_name {
            Some(_) => gen_args(&ctor.args, None),
            None => None,
        };
        match (fn_name, unpacked) {
            (Some(fn_name), Some((args_code, arg_names))) => {
                let mut ctor_call = t.name.clone();
                ctor_call.append("::");
                ctor_call.append(fn_name.as_str());
                ctor_call.append("(");
                ctor_call.append(arg_names.as_str());
                ctor_call.append(")");
                e.glue.append("\n");
                e.glue.append("pub extern \"C\" fn ");
                e.glue.append(ctor_name.as_str());
                e.glue.append("(args_size: usize, args: *mut u8) -> Ptr {\n");
                e.glue.append("    unsafe {");
                e.glue.append(args_code.as_str());
                e.glue.append("\n");
                e.glue.append("        let value = Box::new(");
                e.glue.append(ctor_call.as_str());
                e.glue.append(");\n");
                e.glue.append("        Box::into_raw(value) as Ptr\n");
                e.glue.append("    }\n");
                e.glue.append("}\n");
            },
            _ => {
                e.glue.append("\n");
                e.glue.append("pub extern \"C\" fn ");
                e.glue.append(ctor_name.as_str());
                e.glue.append("(_: usize, _: *mut u8) -> Ptr {\n");
                e.glue.append("    ptr::null_mut()\n");
                e.glue.append("}\n");
            },
        }
        e
    }

    /// The glue of a method of a type.
    pub fn gen_method(&self, method: &Method, t: &Type) -> (e: Emission)
        ensures
            e@ == crate::generator::entrypoint_generator::method(
                RustStdLibView::standard(),
                self@.config,
                method@,
                t@,
            ),
    {
        proof {
            use_type_invariant(self);
        }
        let mut e = Emission::new();
        if self.config.pass_vis(method.vis) && arguments_cross(&method.args) {
            let this_arg: Option<(bool, String)> = match method.kind {
                MethodKind::Default => Some(
                    (self.std_lib.is_mutable(method.attrs.as_slice()), t.name.clone()),
                ),
                MethodKind::Static => None,
                _ => {
                    return e;
                },
            };
            let has_this = this_arg.is_some();
            let mut fn_name = t.name.clone();
            fn_name.append("_");
            fn_name.append(method.name.as_str());
            let (args_code, arg_names) = match gen_args(&method.args, this_arg) {
                Some(texts) => texts,
                None => {
                    return e;
                },
            };
            let mut fn_call = String::new();
            if has_this {
                fn_call.append("(*this).");
            } else {
                fn_call.append(t.name.as_str());
                fn_call.append("::");
            }
            fn_call.append(method.name.as_str());
            fn_call.append("(");
            fn_call.append(arg_names.as_str());
            fn_call.append(")");
            assert(fn_call@ =~= method_call(RustStdLibView::standard(), method@, t@));
            let mut final_code = String::new();
            if method.return_type.is_some() {
                final_code.append("let to_return = Box::new(");
                final_code.append(fn_call.as_str());
                final_code.append(");\n");
                final_code.append("\t\tBox::into_raw(to_return) as Ptr");
            } else {
                final_code.append(fn_call.as_str());
                final_code.append(";\n");
                final_code.append("\t\tptr::null_mut()");
            }
            assert(final_code@ =~= returning(fn_call@, method@.return_type is Some));
            let var = type_var(t);
            e.glue.append("\n");
            e.glue.append("pub extern \"C\" fn ");
            e.glue.append(fn_name.as_str());
            e.glue.append("(args_size: usize, args: *mut u8) -> Ptr {\n");
            e.glue.append("    unsafe {");
            e.glue.append(args_code.as_str());
            e.glue.append("\n");
            e.glue.append("        ");
            e.glue.append(final_code.as_str());
            e.glue.append("\n");
            e.glue.append("    }\n");
            e.glue.append("}\n");
            e.load.append(var.as_str());
            e.load.append(".add_method(");
            e.load.append(u64_to_string(method.id).as_str());
            e.load.append(", ");
            e.load.append(fn_name.as_str());
            e.load.append(");\n");
        }
        e
    }

    /// The glue of a property of a type.
    #[verifier::rlimit(40)]
    pub fn gen_property(&self, prop: &Property, t: &Type) -> (e: Emission)
        ensures
            e@ == property(self@.config, prop@, t@),
    {
        let mut e = Emission::new();
        if self.config.pass_vis(prop.getter_visibility) && type_crosses(&prop.prop_type) {
            let mut getter_name = t.name.clone();
            getter_name.append("_get_");
            getter_name.append(prop.name.as_str());
            e.glue.append("\n");
            e.glue.append("pub extern \"C\" fn ");
            e.glue.append(getter_name.as_str());
            e.glue.append("(this: Ptr) -> Ptr {\n");
            e.glue.append("    unsafe {\n");
            e.glue.append("        let this: *const ");
            e.glue.append(t.name.as_str());
            e.glue.append(" = this as *const ");
            e.glue.append(t.name.as_str());
            e.glue.append(";\n");
            e.glue.append("        let to_return = Box::new((*this).get_");
            e.glue.append(prop.name.as_str());
            e.glue.append("());\n");
            e.glue.append("        Box::into_raw(to_return) as Ptr\n");
            e.glue.append("    }\n");
            e.glue.append("}\n");
            let with_setter = match prop.setter_visibility {
                Some(setter_vis) => self.config.pass_vis(setter_vis),
                None => false,
            };
            let mut setter = String::new();
            if with_setter {
                let mut setter_name = t.name.clone();
                setter_name.append("_set_");
                setter_name.append(prop.name.as_str());
                let prop_type = name_text(&prop.prop_type);
                e.glue.append("\n");
                e.glue.append("pub extern \"C\" fn ");
                e.glue.append(setter_name.as_str());
                e.glue.append("(this: Ptr, object: Ptr) {\n");
                e.glue.append("    unsafe {\n");
                e.glue.append("        let this: *mut ");
                e.glue.append(t.name.as_str());
                e.glue.append(" = this as *mut ");
                e.glue.append(t.name.as_str());
                e.glue.append(";\n");
                e.glue.append("        let ");
                e.glue.append(prop.name.as_str());
                e.glue.append(": ");
                e.glue.append(prop_type.as_str());
                e.glue.append(" = ptr::read(object as *const ");
                e.glue.append(prop_type.as_str());
                e.glue.append(");\n");
                e.glue.append("        (*this).set_");
                e.glue.append(prop.name.as_str());
                e.glue.append("(");
                e.glue.append(prop.name.as_str());
                e.glue.append(");\n");
                e.glue.append("    }\n");
                e.glue.append("}\n");
                setter.append("Some(");
                setter.append(setter_name.as_str());
                setter.append(")");
            } else {
                setter.append("None");
            }
            let var = type_var(t);
            e.load.append(var.as_str());
            e.load.append(".add_property(");
            e.load.append(u64_to_string(prop.id).as_str());
            e.load.append(", Property { getter: ");
            e.load.append(getter_name.as_str());
            e.load.append(", setter: ");
            e.load.append(setter.as_str());
            e.load.append(" });\n");
            assert(e@.glue =~= property(self@.config, prop@, t@).glue);
            assert(e@.load =~= property(self@.config, prop@, t@).load);
        }
        e
    }

    /// The glue of a field of a type.
    pub fn gen_field(&self, field: &Field, t: &Type) -> (e: Emission)
        ensures
            e@ == crate::generator::entrypoint_generator::field(self@.config, field@, t@),
    {
        let mut e = Emission::new();
        if self.config.pass_vis(field.vis) && type_crosses(&field.field_type) {
            let mut getter_name = t.name.clone();
            getter_name.append("_get_");
            getter_name.append(field.name.as_str());
            e.glue.append("\n");
            e.glue.append("pub extern \"C\" fn ");
            e.glue.append(getter_name.as_str());
            e.glue.append("(this: Ptr) -> Ptr {\n");
            e.glue.append("    unsafe {\n");
            e.glue.append("        let this: *const ");
            e.glue.append(t.name.as_str());
            e.glue.append(" = this as *const ");
            e.glue.append(t.name.as_str());
            e.glue.append(";\n");
            e.glue.append("        let to_return = Box::new((*this).");
            e.glue.append(field.name.as_str());
            e.glue.append(");\n");
            e.glue.append("        Box::into_raw(to_return) as Ptr\n");
            e.glue.append("    }\n");
            e.glue.append("}\n");
            let mut setter_name = t.name.clone();
            setter_name.append("_set_");
            setter_name.append(field.name.as_str());
            let field_type = name_text(&field.field_type);
            e.glue.append("\n");
            e.glue.append("pub extern \"C\" fn ");
            e.glue.append(setter_name.as_str());
            e.glue.append("(this: Ptr, object: Ptr) {\n");
            e.glue.append("    unsafe {\n");
            e.glue.append("        let this: *mut ");
            e.glue.append(t.name.as_str());
            e.glue.append(" = this as *mut ");
            e.glue.append(t.name.as_str());
            e.glue.append(";\n");
            e.glue.append("        let ");
            e.glue.append(field.name.as_str());
            e.glue.append(": ");
            e.glue.append(field_type.as_str());
            e.glue.append(" = ptr::read(object as *const ");
            e.glue.append(field_type.as_str());
            e.glue.append(");\n");
            e.glue.append("        (*this).");
            e.glue.append(field.name.as_str());
            e.glue.append(" = ");
            e.glue.append(field.name.as_str());
            e.glue.append(";\n");
            e.glue.append("    }\n");
            e.glue.append("}\n");
            let var = type_var(t);
            e.load.append(var.as_str());
            e.load.append(".add_property(");
            e.load.append(u64_to_string(field.id).as_str());
            e.load.append(", Property { getter: ");
            e.load.append(getter_name.as_str());
            e.load.append(", setter: Some(");
            e.load.append(setter_name.as_str());
            e.load.append(") });\n");
            assert(e@.glue =~= crate::generator::entrypoint_generator::field(
                self@.config,
                field@,
                t@,
            ).glue);
        }
        e
    }

    /// The glue of a static property of a type.
    #[verifier::rlimit(40)]
    pub fn gen_static_property(&self, prop: &Property, t: &Type) -> (e: Emission)
        ensures
            e@ == static_property(self@.config, prop@, t@),
    {
        let mut e = Emission::new();
        if self.config.pass_vis(prop.getter_visibility) && type_crosses(&prop.prop_type) {
            let mut getter_name = t.name.clone();
            getter_name.append("_get_static_");
            getter_name.append(prop.name.as_str());
            e.glue.append("\n");
            e.glue.append("pub extern \"C\" fn ");
            e.glue.append(getter_name.as_str());
            e.glue.append("() -> Ptr {\n");
            e.glue.append("    unsafe {\n");
            e.glue.append("        let to_return = Box::new(");
            e.glue.append(t.name.as_str());
            e.glue.append("::get_");
            e.glue.append(prop.name.as_str());
            e.glue.append("());\n");
            e.glue.append("        Box::into_raw(to_return) as Ptr\n");
            e.glue.append("    }\n");
            e.glue.append("}\n");
            let with_setter = match prop.setter_visibility {
                Some(setter_vis) => self.config.pass_vis(setter_vis),
                None => false,
            };
            let mut setter = String::new();
            if with_setter {
                let mut setter_name = t.name.clone();
                setter_name.append("_set_static_");
                setter_name.append(prop.name.as_str());
                let prop_type = name_text(&prop.prop_type);
                e.glue.append("\n");
                e.glue.append("pub extern \"C\" fn ");
                e.glue.append(setter_name.as_str());
                e.glue.append("(object: Ptr) {\n");
                e.glue.append("    unsafe {\n");
                e.glue.append("        let ");
                e.glue.append(prop.name.as_str());
                e.glue.append(": ");
                e.glue.append(prop_type.as_str());
                e.glue.append(" = ptr::read(object as *const ");
                e.glue.append(prop_type.as_str());
                e.glue.append(");\n");
                e.glue.append("        ");
                e.glue.append(t.name.as_str());
                e.glue.append("::set_");
                e.glue.append(prop.name.as_str());
                e.glue.append("(");
                e.glue.append(prop.name.as_str());
                e.glue.append(");\n");
                e.glue.append("    }\n");
                e.glue.append("}\n");
                setter.append("Some(");
                setter.append(setter_name.as_str());
                setter.append(")");
            } else {
                setter.append("None");
            }
            let var = type_var(t);
            e.load.append(var.as_str());
            e.load.append(".add_static(");
            e.load.append(u64_to_string(prop.id).as_str());
            e.load.append(", StaticProperty { getter: ");
            e.load.append(getter_name.as_str());
            e.load.append(", setter: ");
            e.load.append(setter.as_str());
            e.load.append(" });\n");
            assert(e@.glue =~= static_property(self@.config, prop@, t@).glue);
            assert(e@.load =~= static_property(self@.config, prop@, t@).load);
        }
        e
    }

    /// The glue of a static field of a type.
    pub fn gen_static_field(&self, field: &Field, t: &Type) -> (e: Emission)
        ensures
            e@ == static_field(self@.config, field@, t@),
    {
        let mut e = Emission::new();
        if self.config.pass_vis(field.vis) && type_crosses(&field.field_type) {
            let mut getter_name = t.name.clone();
            getter_name.append("_get_static_");
            getter_name.append(field.name.as_str());
            e.glue.append("\n");
            e.glue.append("pub extern \"C\" fn ");
            e.glue.append(getter_name.as_str());
            e.glue.append("() -> Ptr {\n");
            e.glue.append("    unsafe {\n");
            e.glue.append("        let to_return = Box::new(");
            e.glue.append(t.name.as_str());
            e.glue.append("::");
            e.glue.append(field.name.as_str());
            e.glue.append(");\n");
            e.glue.append("        Box::into_raw(to_return) as Ptr\n");
            e.glue.append("    }\n");
            e.glue.append("}\n");
            let mut setter_name = t.name.clone();
            setter_name.append("_set_static_");
            setter_name.append(field.name.as_str());
            let field_type = name_text(&field.field_type);
            e.glue.append("\n");
            e.glue.append("pub extern \"C\" fn ");
            e.glue.append(setter_name.as_str());
            e.glue.append("(object: Ptr) {\n");
            e.glue.append("    unsafe {\n");
            e.glue.append("        let ");
            e.glue.append(field.name.as_str());
            e.glue.append(": ");
            e.glue.append(field_type.as_str());
            e.glue.append(" = ptr::read(object as *const ");
            e.glue.append(field_type.as_str());
            e.glue.append(");\n");
            e.glue.append("        ");
            e.glue.append(t.name.as_str());
            e.glue.append("::");
            e.glue.append(field.name.as_str());
            e.glue.append(" = ");
            e.glue.append(field.name.as_str());
            e.glue.append(";\n");
            e.glue.append("    }\n");
            e.glue.append("}\n");
            let var = type_var(t);
            e.load.append(var.as_str());
            e.load.append(".add_static(");
            e.load.append(u64_to_string(field.id).as_str());
            e.load.append(", StaticProperty { getter: ");
            e.load.append(getter_name.as_str());
            e.load.append(", setter: Some(");
            e.load.append(setter_name.as_str());
            e.load.append(") });\n");
            assert(e@.glue =~= static_field(self@.config, field@, t@).glue);
        }
        e
    }

    /// The glue of a variant of an enum class.
    pub fn gen_variant(&self, variant: &Variant, t: &Type) -> (e: Emission)
        ensures
            e@ == crate::generator::entrypoint_generator::variant(
                RustStdLibView::standard(),
                self@.config,
                variant@,
                t@,
            ),
    {
        proof {
            use_type_invariant(self);
        }
        let mut e = Emission::new();
        let args = field_arguments(&variant.fields);
        if self.config.pass_vis(variant.vis) && arguments_cross(&args) {
            let mut fn_name = t.name.clone();
            fn_name.append("_");
            fn_name.append(variant.name.as_str());
            let mut enum_variant = t.name.clone();
            enum_variant.append("::");
            enum_variant.append(variant.name.as_str());
            let mut args_code = String::new();
            if args.len() > 0 {
                let (code, arg_names) = match gen_args(&args, None) {
                    Some(texts) => texts,
                    None => {
                        return e;
                    },
                };
                args_code = code;
                if self.std_lib.is_tuple_variant(variant.attrs.as_slice()) {
                    enum_variant.append("(");
                    enum_variant.append(arg_names.as_str());
                    enum_variant.append(")");
                } else {
                    enum_variant.append(" { ");
                    enum_variant.append(arg_names.as_str());
                    enum_variant.append(" }");
                }
            }
            assert(enum_variant@ =~= variant_value(RustStdLibView::standard(), variant@, t@));
            assert(args_code@ =~= unpacking(field_arguments_from(variant@.fields, 0), None));
            let mut final_code = String::new();
            final_code.append("let return_value = Box::new(");
            final_code.append(enum_variant.as_str());
            final_code.append(");\n");
            final_code.append("\t\tBox::into_raw(return_value) as Ptr");
            let var = type_var(t);
            e.glue.append("\n");
            e.glue.append("pub extern \"C\" fn ");
            e.glue.append(fn_name.as_str());
            e.glue.append("(args_size: usize, args: *mut u8) -> Ptr {\n");
            e.glue.append("    unsafe {");
            e.glue.append(args_code.as_str());
            e.glue.append("\n");
            e.glue.append("        ");
            e.glue.append(final_code.as_str());
            e.glue.append("\n");
            e.glue.append("    }\n");
            e.glue.append("}\n");
            e.load.append(var.as_str());
            e.load.append(".add_method(");
            e.load.append(u64_to_string(variant.id).as_str());
            e.load.append(", ");
            e.load.append(fn_name.as_str());
            e.load.append(");\n");
        }
        e
    }

    /// The glue of the constructors of a type.
    fn gen_constructors(&self, items: &Vec<Constructor>, t: &Type) -> (e: Emission)
        ensures
            e@ == constructors_from(
                RustStdLibView::standard(),
                self@.config,
                items.deep_view(),
                t@,
                0,
            ),
    {
        let ghost lib = RustStdLibView::standard();
        let mut e = Emission::new();
        let mut i: usize = 0;
        proof {
            lemma_followed_by_nothing(
                constructors_from(lib, self@.config, items.deep_view(), t@, 0),
            );
        }
        while i < items.len()
            invariant
                i <= items.len(),
                lib == RustStdLibView::standard(),
                constructors_from(lib, self@.config, items.deep_view(), t@, 0) == e@.followed_by(
                    constructors_from(lib, self@.config, items.deep_view(), t@, i as int),
                ),
            decreases items.len() - i,
        {
            let one = self.gen_ctor(&items[i], t, i);
            proof {
                lemma_followed_by_assoc(
                    e@,
                    one@,
                    constructors_from(lib, self@.config, items.deep_view(), t@, i + 1),
                );
            }
            e.push(&one);
            i += 1;
        }
        proof {
            lemma_followed_by_nothing(e@);
        }
        e
    }

    /// The glue of properties of a type.
    fn gen_properties(&self, items: &Vec<Property>, t: &Type) -> (e: Emission)
        ensures
            e@ == properties_from(
                RustStdLibView::standard(),
                self@.config,
                items.deep_view(),
                t@,
                0,
            ),
    {
        let ghost lib = RustStdLibView::standard();
        let mut e = Emission::new();
        let mut i: usize = 0;
        proof {
            lemma_followed_by_nothing(
                properties_from(lib, self@.config, items.deep_view(), t@, 0),
            );
        }
        while i < items.len()
            invariant
                i <= items.len(),
                lib == RustStdLibView::standard(),
                properties_from(lib, self@.config, items.deep_view(), t@, 0) == e@.followed_by(
                    properties_from(lib, self@.config, items.deep_view(), t@, i as int),
                ),
            decreases items.len() - i,
        {
            let one = self.gen_property(&items[i], t);
            proof {
                lemma_followed_by_assoc(
                    e@,
                    one@,
                    properties_from(lib, self@.config, items.deep_view(), t@, i + 1),
                );
            }
            e.push(&one);
            i += 1;
        }
        proof {
            lemma_followed_by_nothing(e@);
        }
        e
    }

    /// The glue of fields of a type.
    fn gen_fields(&self, items: &Vec<Field>, t: &Type) -> (e: Emission)
        ensures
            e@ == fields_from(
                RustStdLibView::standard(),
                self@.config,
                items.deep_view(),
                t@,
                0,
            ),
    {
        let ghost lib = RustStdLibView::standard();
        let mut e = Emission::new();
        let mut i: usize = 0;
        proof {
            lemma_followed_by_nothing(
                fields_from(lib, self@.config, items.deep_view(), t@, 0),
            );
        }
        while i < items.len()
            invariant
                i <= items.len(),
                lib == RustStdLibView::standard(),
                fields_from(lib, self@.config, items.deep_view(), t@, 0) == e@.followed_by(
                    fields_from(lib, self@.config, items.deep_view(), t@, i as int),
                ),
            decreases items.len() - i,
        {
            let one = self.gen_field(&items[i], t);
            proof {
                lemma_followed_by_assoc(
                    e@,
                    one@,
                    fields_from(lib, self@.config, items.deep_view(), t@, i + 1),
                );
            }
            e.push(&one);
            i += 1;
        }
        proof {
            lemma_followed_by_nothing(e@);
        }
        e
    }

    /// The glue of static properties of a type.
    fn gen_static_properties(&self, items: &Vec<Property>, t: &Type) -> (e: Emission)
        ensures
            e@ == static_properties_from(
                RustStdLibView::standard(),
                self@.config,
                items.deep_view(),
                t@,
                0,
            ),
    {
        let ghost lib = RustStdLibView::standard();
        let mut e = Emission::new();
        let mut i: usize = 0;
        proof {
            lemma_followed_by_nothing(
                static_properties_from(lib, self@.config, items.deep_view(), t@, 0),
            );
        }
        while i < items.len()
            invariant
                i <= items.len(),
                lib == RustStdLibView::standard(),
                static_properties_from(lib, self@.config, items.deep_view(), t@, 0) == e@.followed_by(
                    static_properties_from(lib, self@.config, items.deep_view(), t@, i as int),
                ),
            decreases items.len() - i,
        {
            let one = self.gen_static_property(&items[i], t);
            proof {
                lemma_followed_by_assoc(
                    e@,
                    one@,
                    static_properties_from(lib, self@.config, items.deep_view(), t@, i + 1),
                );
            }
            e.push(&one);
            i += 1;
        }
        proof {
            lemma_followed_by_nothing(e@);
        }
        e
    }

    /// The glue of static fields of a type.
    fn gen_static_fields(&self, items: &Vec<Field>, t: &Type) -> (e: Emission)
        ensures
            e@ == static_fields_from(
                RustStdLibView::standard(),
                self@.config,
                items.deep_view(),
                t@,
                0,
            ),
    {
        let ghost lib = RustStdLibView::standard();
        let mut e = Emission::new();
        let mut i: usize = 0;
        proof {
            lemma_followed_by_nothing(
                static_fields_from(lib, self@.config, items.deep_view(), t@, 0),
            );
        }
        while i < items.len()
            invariant
                i <= items.len(),
                lib == RustStdLibView::standard(),
                static_fields_from(lib, self@.config, items.deep_view(), t@, 0) == e@.followed_by(
                    static_fields_from(lib, self@.config, items.deep_view(), t@, i as int),
                ),
            decreases items.len() - i,
        {
            let one = self.gen_static_field(&items[i], t);
            proof {
                lemma_followed_by_assoc(
                    e@,
                    one@,
                    static_fields_from(lib, self@.config, items.deep_view(), t@, i + 1),
                );
            }
            e.push(&one);
            i += 1;
        }
        proof {
            lemma_followed_by_nothing(e@);
        }
        e
    }

    /// The glue of the methods of a type.
    fn gen_methods(&self, items: &Vec<Method>, t: &Type) -> (e: Emission)
        ensures
            e@ == methods_from(
                RustStdLibView::standard(),
                self@.config,
                items.deep_view(),
                t@,
                0,
            ),
    {
        let ghost lib = RustStdLibView::standard();
        let mut e = Emission::new();
        let mut i: usize = 0;
        proof {
            lemma_followed_by_nothing(
                methods_from(lib, self@.config, items.deep_view(), t@, 0),
            );
        }
        while i < items.len()
            invariant
                i <= items.len(),
                lib == RustStdLibView::standard(),
                methods_from(lib, self@.config, items.deep_view(), t@, 0) == e@.followed_by(
                    methods_from(lib, self@.config, items.deep_view(), t@, i as int),
                ),
            decreases items.len() - i,
        {
            let one = self.gen_method(&items[i], t);
            proof {
                lemma_followed_by_assoc(
                    e@,
                    one@,
                    methods_from(lib, self@.config, items.deep_view(), t@, i + 1),
                );
            }
            e.push(&one);
            i += 1;
        }
        proof {
            lemma_followed_by_nothing(e@);
        }
        e
    }

    /// The glue of the variants of an enum class.
    fn gen_variants(&self, items: &Vec<Variant>, t: &Type) -> (e: Emission)
        ensures
            e@ == variants_from(
                RustStdLibView::standard(),
                self@.config,
                items.deep_view(),
                t@,
                0,
            ),
    {
        let ghost lib = RustStdLibView::standard();
        let mut e = Emission::new();
        let mut i: usize = 0;
        proof {
            lemma_followed_by_nothing(
                variants_from(lib, self@.config, items.deep_view(), t@, 0),
            );
        }
        while i < items.len()
            invariant
                i <= items.len(),
                lib == RustStdLibView::standard(),
                variants_from(lib, self@.config, items.deep_view(), t@, 0) == e@.followed_by(
                    variants_from(lib, self@.config, items.deep_view(), t@, i as int),
                ),
            decreases items.len() - i,
        {
            let one = self.gen_variant(&items[i], t);
            proof {
                lemma_followed_by_assoc(
                    e@,
                    one@,
                    variants_from(lib, self@.config, items.deep_view(), t@, i + 1),
                );
            }
            e.push(&one);
            i += 1;
        }
        proof {
            lemma_followed_by_nothing(e@);
        }
        e
    }

    /// The line that registers a type in its package.
    fn gen_registration(&self, t: &Type) -> (e: Emission)
        ensures
            e@ == type_registration(self@.package_name, t@),
    {
        let mut e = Emission::new();
        let var = type_var(t);
        e.load.append("let mut ");
        e.load.append(var.as_str());
        e.load.append(" = ");
        e.load.append(self.package_name.as_str());
        e.load.append(".add_type(");
        e.load.append(u64_to_string(t.id).as_str());
        e.load.append(");\n");
        e
    }

    /// The glue of one type.
    pub fn gen_type(&self, t: &Type) -> (e: Emission)
        ensures
            e@ == type_glue(RustStdLibView::standard(), self@.config, self@.package_name, t@),
    {
        let mut e = Emission::new();
        if t.generics.0.len() > 0 || !self.config.pass_vis(t.vis) {
            return e;
        }
        match &t.kind {
            TypeKind::Class {
                is_sealed: _,
                constructors,
                properties,
                fields,
                static_properties,
                static_fields,
                methods,
                parents: _,
            } => {
                e = self.gen_registration(t);
                e.push(&self.gen_dtor(t));
                e.push(&self.gen_constructors(constructors, t));
                e.push(&self.gen_methods(methods, t));
                e.push(&self.gen_properties(properties, t));
                e.push(&self.gen_fields(fields, t));
                e.push(&self.gen_static_properties(static_properties, t));
                e.push(&self.gen_static_fields(static_fields, t));
            },
            TypeKind::EnumClass { variants, methods } => {
                e = self.gen_registration(t);
                e.push(&self.gen_dtor(t));
                e.push(&self.gen_variants(variants, t));
                e.push(&self.gen_methods(methods, t));
            },
            TypeKind::Struct { constructors, fields, static_fields } => {
                e = self.gen_registration(t);
                e.push(&self.gen_dtor(t));
                e.push(&self.gen_constructors(constructors, t));
                e.push(&self.gen_fields(fields, t));
                e.push(&self.gen_static_fields(static_fields, t));
            },
            _ => {},
        }
        e
    }

    /// Emits the glue of the package: appends the glue functions to the
    /// bindings and the registrations to the body of the entry point.
    pub fn generate(&mut self)
        ensures
            final(self)@ == old(self)@.generated(),
    {
        proof {
            use_type_invariant(&*self);
        }
        let ghost lib = RustStdLibView::standard();
        let mut e = Emission::new();
        e.load.append("let mut ");
        e.load.append(self.package_name.as_str());
        e.load.append(" = ctx.add_package(");
        e.load.append(u64_to_string(self.package.id).as_str());
        e.load.append(");\n");
        let ghost head = e@;
        let mut i: usize = 0;
        while i < self.package.types.len()
            invariant
                i <= self.package.types.len(),
                *self == *old(self),
                lib == RustStdLibView::standard(),
                head.followed_by(
                    types_from(lib, self@.config, self@.package_name, self@.package.types, 0),
                ) == e@.followed_by(
                    types_from(
                        lib,
                        self@.config,
                        self@.package_name,
                        self@.package.types,
                        i as int,
                    ),
                ),
            decreases self.package.types.len() - i,
        {
            let one = self.gen_type(&self.package.types[i]);
            proof {
                lemma_followed_by_assoc(
                    e@,
                    one@,
                    types_from(lib, self@.config, self@.package_name, self@.package.types, i + 1),
                );
            }
            e.push(&one);
            i += 1;
        }
        proof {
            lemma_followed_by_nothing(e@);
        }
        let mut body = self.tgload_body.clone();
        body.append(e.load.as_str());
        let mut bindings = self.bindings_block.clone();
        bindings.append(e.glue.as_str());
        self.tgload_body = body;
        self.bindings_block = bindings;
    }

    /// Emits the glue of the package and gives the text of the whole file.
    pub fn render(self) -> (text: String)
        ensures
            text@ == self@.generated().file(),
    {
        let mut generator = self;
        generator.generate();
        let body = without_last(indent(generator.tgload_body.as_str(), "\t").as_str());
        let mut text = String::new();
        text.append("// This file was generated by tangara-gen\n");
        text.append("// All changes in this file will discard after rebuilding project\n");
        text.append("use std::ptr;\n");
        text.append("use std::alloc::{dealloc, Layout};\n");
        text.append("use tangara::context::{Context, Ptr, Property, StaticProperty};\n");
        text.append(generator.use_block.as_str());
        text.append(generator.bindings_block.as_str());
        text.append("#[no_mangle]\n");
        text.append("pub extern \"C\" fn ");
        text.append(generator.config.load_name.as_str());
        text.append("(ctx: &mut Context) {\n");
        text.append("\t");
        text.append(body.as_str());
        text.append("}\n");
        text
    }
}

} // verus!
