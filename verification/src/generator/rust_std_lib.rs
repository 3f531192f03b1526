use vstd::prelude::*;

use crate::builder::class_builder::ClassBuilderView;
use crate::builder::property_builder::PropertyBuilderView;
use crate::builder::{
    create_class, empty_vec, ClassBuilder, Defaults, PackageBuilder, PackageBuilderView,
    PropertyCollector, TypeBuilder,
};
use crate::ids::{get_typeref_bytes, member_id, typeref_bytes};
use crate::model::{
    Attribute, AttributeView, Package, PackageView, PropertyView, Type, TypeRef, TypeRefView,
    TypeView, Value, ValueView, Visibility,
};
use crate::naming::{csharp_conventions, NamingConventions};

verus! {

/// The attribute types by which Rust-specific facts ride on the
/// language-neutral model: that something is mutable, a reference, a field
/// of a struct, has a lifetime, and so on.
pub struct RustStdLib {
    rust_std: Package,
    mutable_attribute: Type,
    struct_field_attribute: Type,
    reference_attribute: Type,
    lifetime_attribute: Type,
    lifetime_generic_attribute: Type,
    constructor_name_attribute: Type,
    tuple_field_attribute: Type,
    tuple_variant_attribute: Type,
    return_attribute: Type,
}

pub ghost struct RustStdLibView {
    pub rust_std: PackageView,
    pub mutable_attribute: TypeView,
    pub struct_field_attribute: TypeView,
    pub reference_attribute: TypeView,
    pub lifetime_attribute: TypeView,
    pub lifetime_generic_attribute: TypeView,
    pub constructor_name_attribute: TypeView,
    pub tuple_field_attribute: TypeView,
    pub tuple_variant_attribute: TypeView,
    pub return_attribute: TypeView,
}

/// The package builder of the attribute library before any type is built:
/// the package `Tangara.Rust`, its types in `Tangara.Rust.Metadata`, all
/// public, spelled as C# spells.
pub open spec fn std_package() -> PackageBuilderView {
    PackageBuilderView {
        name: "Tangara.Rust"@,
        namespace: "Tangara.Rust.Metadata"@,
        defaults: Defaults {
            type_visibility: Visibility::Public,
            constructor_visibility: Visibility::Public,
            member_visibility: Visibility::Public,
            method_visibility: Visibility::Public,
        },
        attrs: Seq::empty(),
        types: Seq::empty(),
        naming: csharp_conventions(),
    }
}

/// An attribute class without properties.
pub open spec fn marker_class(name: Seq<char>) -> TypeView {
    ClassBuilder::built(ClassBuilderView::fresh(std_package(), name))
}

/// An attribute class with one public property that can be read and
/// written.
pub open spec fn value_class(
    name: Seq<char>,
    property_type: Seq<char>,
    property: Seq<char>,
) -> TypeView {
    ClassBuilder::built(
        ClassBuilder::with_property(
            ClassBuilderView::fresh(std_package(), name),
            PropertyView {
                attrs: Seq::empty(),
                getter_visibility: Visibility::Public,
                setter_visibility: Some(Visibility::Public),
                prop_type: TypeRefView::Name(property_type),
                name: property,
                id: member_id(property),
            },
        ),
    )
}

impl RustStdLibView {
    /// The attribute library: nine classes in one package, in the order in
    /// which they are built.
    pub open spec fn standard() -> RustStdLibView {
        let struct_field = marker_class("StructField"@);
        let mutable = marker_class("Mutable"@);
        let reference = marker_class("Reference"@);
        let lifetime = value_class("Lifetime"@, "String"@, "Name"@);
        let lifetime_generic = value_class("LifetimeGeneric"@, "String"@, "Name"@);
        let constructor_name = value_class("ConstructorFnName"@, "String"@, "FnName"@);
        let tuple_field = value_class("TupleField"@, "UShort"@, "Index"@);
        let tuple_variant = marker_class("TupleVariant"@);
        let returned = value_class("Return"@, "String"@, "Prefix"@);
        RustStdLibView {
            rust_std: (PackageBuilderView {
                types: seq![
                    struct_field,
                    mutable,
                    reference,
                    lifetime,
                    lifetime_generic,
                    constructor_name,
                    tuple_field,
                    tuple_variant,
                    returned,
                ],
                ..std_package()
            }).built(),
            mutable_attribute: mutable,
            struct_field_attribute: struct_field,
            reference_attribute: reference,
            lifetime_attribute: lifetime,
            lifetime_generic_attribute: lifetime_generic,
            constructor_name_attribute: constructor_name,
            tuple_field_attribute: tuple_field,
            tuple_variant_attribute: tuple_variant,
            return_attribute: returned,
        }
    }
}

impl View for RustStdLib {
    type V = RustStdLibView;

    closed spec fn view(&self) -> RustStdLibView {
        RustStdLibView {
            rust_std: self.rust_std@,
            mutable_attribute: self.mutable_attribute@,
            struct_field_attribute: self.struct_field_attribute@,
            reference_attribute: self.reference_attribute@,
            lifetime_attribute: self.lifetime_attribute@,
            lifetime_generic_attribute: self.lifetime_generic_attribute@,
            constructor_name_attribute: self.constructor_name_attribute@,
            tuple_field_attribute: self.tuple_field_attribute@,
            tuple_variant_attribute: self.tuple_variant_attribute@,
            return_attribute: self.return_attribute@,
        }
    }
}

/// Whether an attribute is of the type with this id: whether its type has
/// the structural bytes of a reference to that id.
pub open spec fn is_of_type(attribute: AttributeView, id: u64) -> bool {
    typeref_bytes(attribute.0) == typeref_bytes(TypeRefView::Id(id))
}

/// Whether one of the attributes is of the type with this id.
pub open spec fn has_attribute(attrs: Seq<AttributeView>, id: u64) -> bool {
    exists|i: int| 0 <= i < attrs.len() && is_of_type(#[trigger] attrs[i], id)
}

/// The string that is the argument at `index` of the attribute, if it has
/// that argument and it is a string.
pub open spec fn string_argument(attribute: AttributeView, index: int) -> Option<Seq<char>> {
    if 0 <= index < attribute.1.len() {
        match attribute.1[index] {
            ValueView::String(s) => Some(s),
            _ => None,
        }
    } else {
        None
    }
}

/// The first string that is the first argument of an attribute of the type
/// with this id, from index `from` on.
pub open spec fn first_string_from(attrs: Seq<AttributeView>, id: u64, from: int) -> Option<
    Seq<char>,
>
    decreases attrs.len() - from,
{
    if from < 0 || from >= attrs.len() {
        None
    } else if is_of_type(attrs[from], id) && string_argument(attrs[from], 0) is Some {
        string_argument(attrs[from], 0)
    } else {
        first_string_from(attrs, id, from + 1)
    }
}

/// The first number that is the first argument of an attribute of the type
/// with this id, from index `from` on.
pub open spec fn first_index_from(attrs: Seq<AttributeView>, id: u64, from: int) -> Option<u16>
    decreases attrs.len() - from,
{
    if from < 0 || from >= attrs.len() {
        None
    } else if is_of_type(attrs[from], id) && attrs[from].1.len() > 0 && attrs[from].1[0]
        is UShort {
        Some(attrs[from].1[0]->UShort_0)
    } else {
        first_index_from(attrs, id, from + 1)
    }
}

/// The first arguments, where they are strings, of the attributes of the
/// type with this id, from index `from` on.
pub open spec fn strings_from(attrs: Seq<AttributeView>, id: u64, from: int) -> Seq<Seq<char>>
    decreases attrs.len() - from,
{
    if from < 0 || from >= attrs.len() {
        Seq::empty()
    } else if is_of_type(attrs[from], id) && string_argument(attrs[from], 0) is Some {
        seq![string_argument(attrs[from], 0)->Some_0] + strings_from(attrs, id, from + 1)
    } else {
        strings_from(attrs, id, from + 1)
    }
}

/// The second arguments, where both are strings, of the attributes of the
/// type with this id whose first argument is `first`, from index `from` on.
pub open spec fn seconds_from(
    attrs: Seq<AttributeView>,
    id: u64,
    first: Seq<char>,
    from: int,
) -> Seq<Seq<char>>
    decreases attrs.len() - from,
{
    if from < 0 || from >= attrs.len() {
        Seq::empty()
    } else if is_of_type(attrs[from], id) && string_argument(attrs[from], 0) == Some(first)
        && string_argument(attrs[from], 1) is Some {
        seq![string_argument(attrs[from], 1)->Some_0] + seconds_from(attrs, id, first, from + 1)
    } else {
        seconds_from(attrs, id, first, from + 1)
    }
}

/// An attribute of the type with this id and without arguments.
fn marker(id: u64) -> (a: Attribute)
    ensures
        a@ == AttributeView(TypeRefView::Id(id), Seq::empty()),
{
    Attribute(TypeRef::Id(id), empty_vec())
}

/// An attribute of the type with this id and one string argument.
fn with_string(id: u64, value: &str) -> (a: Attribute)
    ensures
        a@ == AttributeView(TypeRefView::Id(id), seq![ValueView::String(value@)]),
{
    let mut args: Vec<Value> = Vec::new();
    args.push(Value::String(String::from_str(value)));
    assert(args.deep_view() =~= seq![ValueView::String(value@)]);
    Attribute(TypeRef::Id(id), args)
}

/// Whether one of the attributes is of the type with this id.
fn any_of_type(attrs: &[Attribute], id: u64) -> (found: bool)
    ensures
        found == has_attribute(attrs.deep_view(), id),
{
    let wanted = get_typeref_bytes(&TypeRef::Id(id));
    let mut i: usize = 0;
    while i < attrs.len()
        invariant
            i <= attrs.len(),
            wanted@ == typeref_bytes(TypeRefView::Id(id)),
            forall|j: int| 0 <= j < i ==> !is_of_type(#[trigger] attrs.deep_view()[j], id),
        decreases attrs.len() - i,
    {
        let bytes = get_typeref_bytes(&attrs[i].0);
        if crate::ids::same_bytes(&bytes, &wanted) {
            assert(is_of_type(attrs.deep_view()[i as int], id));
            return true;
        }
        i += 1;
    }
    false
}

/// Whether the attribute is of the type with these structural bytes.
fn of_type(attribute: &Attribute, wanted: &Vec<u8>, Ghost(id): Ghost<u64>) -> (yes: bool)
    requires
        wanted@ == typeref_bytes(TypeRefView::Id(id)),
    ensures
        yes == is_of_type(attribute@, id),
{
    let bytes = get_typeref_bytes(&attribute.0);
    crate::ids::same_bytes(&bytes, wanted)
}

/// The string that is the argument at `index` of the attribute.
fn string_at(attribute: &Attribute, index: usize) -> (r: Option<String>)
    ensures
        r.deep_view() == string_argument(attribute@, index as int),
{
    if index < attribute.1.len() {
        proof {
            crate::model::lemma_value_view(attribute.1@[index as int]);
        }
        match &attribute.1[index] {
            Value::String(s) => Some(s.clone()),
            _ => None,
        }
    } else {
        None
    }
}

/// What stands before the type of a reference: `&`, then the lifetime
/// with its tick and a space where the reference has one, then `mut` and a
/// space where the reference is mutable.
pub open spec fn borrow_prefix(lib: RustStdLibView, attrs: Seq<AttributeView>) -> Seq<char> {
    "&"@ + (match first_string_from(attrs, lib.lifetime_attribute.id, 0) {
        Some(lifetime) => "'"@ + lifetime + " "@,
        None => Seq::empty(),
    }) + (if has_attribute(attrs, lib.mutable_attribute.id) {
        "mut "@
    } else {
        Seq::empty()
    })
}

impl RustStdLib {
    /// Builds the attribute library.
    pub fn new() -> (lib: Self)
        ensures
            lib@ == RustStdLibView::standard(),
    {
        let mut rust_std = PackageBuilder::in_namespace(
            "Tangara.Rust",
            "Tangara.Rust.Metadata",
            NamingConventions::csharp(),
        );
        let struct_field_attribute = create_class(&rust_std, "StructField");
        let mutable_attribute = create_class(&rust_std, "Mutable");
        let reference_attribute = create_class(&rust_std, "Reference");
        let lifetime_attribute = create_class(&rust_std, "Lifetime").add_property(
            TypeRef::from_name("String"),
            "Name",
        ).setter_visibility(Visibility::Public).build().unwrap();
        let lifetime_generic_attribute = create_class(&rust_std, "LifetimeGeneric").add_property(
            TypeRef::from_name("String"),
            "Name",
        ).setter_visibility(Visibility::Public).build().unwrap();
        let constructor_name_attribute = create_class(&rust_std, "ConstructorFnName").add_property(
            TypeRef::from_name("String"),
            "FnName",
        ).setter_visibility(Visibility::Public).build().unwrap();
        let tuple_field_attribute = create_class(&rust_std, "TupleField").add_property(
            TypeRef::from_name("UShort"),
            "Index",
        ).setter_visibility(Visibility::Public).build().unwrap();
        let tuple_variant_attribute = create_class(&rust_std, "TupleVariant");
        let return_attribute = create_class(&rust_std, "Return").add_property(
            TypeRef::from_name("String"),
            "Prefix",
        ).setter_visibility(Visibility::Public).build().unwrap();

        let struct_field_attribute = struct_field_attribute.build(&mut rust_std);
        let mutable_attribute = mutable_attribute.build(&mut rust_std);
        let reference_attribute = reference_attribute.build(&mut rust_std);
        let lifetime_attribute = lifetime_attribute.build(&mut rust_std);
        let lifetime_generic_attribute = lifetime_generic_attribute.build(&mut rust_std);
        let constructor_name_attribute = constructor_name_attribute.build(&mut rust_std);
        let tuple_field_attribute = tuple_field_attribute.build(&mut rust_std);
        let tuple_variant_attribute = tuple_variant_attribute.build(&mut rust_std);
        let return_attribute = return_attribute.build(&mut rust_std);
        let rust_std = rust_std.build();
        proof {
            assert(struct_field_attribute@ == marker_class("StructField"@));
            assert(lifetime_attribute@ == value_class("Lifetime"@, "String"@, "Name"@));
            assert(tuple_field_attribute@ == value_class("TupleField"@, "UShort"@, "Index"@));
            assert(rust_std@.types =~= RustStdLibView::standard().rust_std.types);
        }
        Self {
            rust_std,
            mutable_attribute,
            struct_field_attribute,
            reference_attribute,
            lifetime_attribute,
            lifetime_generic_attribute,
            constructor_name_attribute,
            tuple_field_attribute,
            tuple_variant_attribute,
            return_attribute,
        }
    }

    /// The package of the attribute types.
    pub fn get_package(&self) -> (package: Package)
        ensures
            package@ == self@.rust_std,
    {
        self.rust_std.clone()
    }

    /// Marks what can be changed.
    pub fn mutable_attribute(&self) -> (a: Attribute)
        ensures
            a@ == AttributeView(TypeRefView::Id(self@.mutable_attribute.id), Seq::empty()),
    {
        marker(self.mutable_attribute.id)
    }

    /// Marks a member that is a field of a Rust struct.
    pub fn struct_field_attribute(&self) -> (a: Attribute)
        ensures
            a@ == AttributeView(TypeRefView::Id(self@.struct_field_attribute.id), Seq::empty()),
    {
        marker(self.struct_field_attribute.id)
    }

    /// Marks what is passed or held by reference.
    pub fn reference_attribute(&self) -> (a: Attribute)
        ensures
            a@ == AttributeView(TypeRefView::Id(self@.reference_attribute.id), Seq::empty()),
    {
        marker(self.reference_attribute.id)
    }

    /// Says that something has the lifetime `lifetime`.
    pub fn lifetime_attribute(&self, lifetime: &str) -> (a: Attribute)
        ensures
            a@ == AttributeView(
                TypeRefView::Id(self@.lifetime_attribute.id),
                seq![ValueView::String(lifetime@)],
            ),
    {
        with_string(self.lifetime_attribute.id, lifetime)
    }

    /// Says that the generic parameter `bounded` outlives `lifetime`.
    pub fn lifetime_generic_attribute(&self, bounded: &str, lifetime: &str) -> (a: Attribute)
        ensures
            a@ == AttributeView(
                TypeRefView::Id(self@.lifetime_generic_attribute.id),
                seq![ValueView::String(bounded@), ValueView::String(lifetime@)],
            ),
    {
        let mut args: Vec<Value> = Vec::new();
        args.push(Value::String(String::from_str(bounded)));
        args.push(Value::String(String::from_str(lifetime)));
        assert(args.deep_view() =~= seq![
            ValueView::String(bounded@),
            ValueView::String(lifetime@),
        ]);
        Attribute(TypeRef::Id(self.lifetime_generic_attribute.id), args)
    }

    /// Names the Rust function that a constructor stands for.
    pub fn constructor_name_attribute(&self, fn_name: &str) -> (a: Attribute)
        ensures
            a@ == AttributeView(
                TypeRefView::Id(self@.constructor_name_attribute.id),
                seq![ValueView::String(fn_name@)],
            ),
    {
        with_string(self.constructor_name_attribute.id, fn_name)
    }

    /// Gives the position of a field of a tuple.
    pub fn tuple_field_attribute(&self, index: u16) -> (a: Attribute)
        ensures
            a@ == AttributeView(
                TypeRefView::Id(self@.tuple_field_attribute.id),
                seq![ValueView::UShort(index)],
            ),
    {
        let mut args: Vec<Value> = Vec::new();
        args.push(Value::UShort(index));
        assert(args.deep_view() =~= seq![ValueView::UShort(index)]);
        Attribute(TypeRef::Id(self.tuple_field_attribute.id), args)
    }

    /// Marks a variant whose fields have positions, not names.
    pub fn tuple_variant_attribute(&self) -> (a: Attribute)
        ensures
            a@ == AttributeView(TypeRefView::Id(self@.tuple_variant_attribute.id), Seq::empty()),
    {
        marker(self.tuple_variant_attribute.id)
    }

    /// Says what stands before the type that a method returned: `&`, with a
    /// lifetime or `mut` where the reference has one.
    pub fn return_attribute(&self, prefix: &str) -> (a: Attribute)
        ensures
            a@ == AttributeView(
                TypeRefView::Id(self@.return_attribute.id),
                seq![ValueView::String(prefix@)],
            ),
    {
        with_string(self.return_attribute.id, prefix)
    }

    /// The attribute that says what stands before the type that a method
    /// returns, where that type has these attributes: none where it is no
    /// reference.
    pub fn return_attribute_of(&self, attrs: &[Attribute]) -> (a: Option<Attribute>)
        ensures
            a.deep_view() == (if has_attribute(attrs.deep_view(), self@.reference_attribute.id) {
                Some(
                    AttributeView(
                        TypeRefView::Id(self@.return_attribute.id),
                        seq![ValueView::String(borrow_prefix(self@, attrs.deep_view()))],
                    ),
                )
            } else {
                None
            }),
    {
        if !self.is_reference(attrs) {
            return None;
        }
        let mut prefix = String::from_str("&");
        match self.get_lifetime(attrs) {
            Some(lifetime) => {
                prefix.append("'");
                prefix.append(lifetime.as_str());
                prefix.append(" ");
            },
            None => {},
        }
        if self.is_mutable(attrs) {
            prefix.append("mut ");
        }
        assert(prefix@ =~= borrow_prefix(self@, attrs.deep_view()));
        Some(self.return_attribute(prefix.as_str()))
    }

    pub fn is_struct_field(&self, attrs: &[Attribute]) -> (yes: bool)
        ensures
            yes == has_attribute(attrs.deep_view(), self@.struct_field_attribute.id),
    {
        any_of_type(attrs, self.struct_field_attribute.id)
    }

    pub fn is_mutable(&self, attrs: &[Attribute]) -> (yes: bool)
        ensures
            yes == has_attribute(attrs.deep_view(), self@.mutable_attribute.id),
    {
        any_of_type(attrs, self.mutable_attribute.id)
    }

    pub fn is_reference(&self, attrs: &[Attribute]) -> (yes: bool)
        ensures
            yes == has_attribute(attrs.deep_view(), self@.reference_attribute.id),
    {
        any_of_type(attrs, self.reference_attribute.id)
    }

    /// Whether a variant of an enum class is a tuple.
    pub fn is_tuple_variant(&self, attrs: &[Attribute]) -> (yes: bool)
        ensures
            yes == has_attribute(attrs.deep_view(), self@.tuple_variant_attribute.id),
    {
        any_of_type(attrs, self.tuple_variant_attribute.id)
    }

    /// The function name of the first `ConstructorFnName` attribute that
    /// has one.
    pub fn get_fn_name(&self, attrs: &[Attribute]) -> (name: Option<String>)
        ensures
            name.deep_view() == first_string_from(
                attrs.deep_view(),
                self@.constructor_name_attribute.id,
                0,
            ),
    {
        self.first_string(attrs, self.constructor_name_attribute.id)
    }

    /// The prefix of the first `Return` attribute that has one.
    pub fn get_return_prefix(&self, attrs: &[Attribute]) -> (prefix: Option<String>)
        ensures
            prefix.deep_view() == first_string_from(
                attrs.deep_view(),
                self@.return_attribute.id,
                0,
            ),
    {
        self.first_string(attrs, self.return_attribute.id)
    }

    /// The lifetime of the first `Lifetime` attribute that has one.
    pub fn get_lifetime(&self, attrs: &[Attribute]) -> (name: Option<String>)
        ensures
            name.deep_view() == first_string_from(
                attrs.deep_view(),
                self@.lifetime_attribute.id,
                0,
            ),
    {
        self.first_string(attrs, self.lifetime_attribute.id)
    }

    fn first_string(&self, attrs: &[Attribute], id: u64) -> (name: Option<String>)
        ensures
            name.deep_view() == first_string_from(attrs.deep_view(), id, 0),
    {
        let wanted = get_typeref_bytes(&TypeRef::Id(id));
        let mut i: usize = 0;
        while i < attrs.len()
            invariant
                i <= attrs.len(),
                wanted@ == typeref_bytes(TypeRefView::Id(id)),
                first_string_from(attrs.deep_view(), id, 0) == first_string_from(
                    attrs.deep_view(),
                    id,
                    i as int,
                ),
            decreases attrs.len() - i,
        {
            if of_type(&attrs[i], &wanted, Ghost(id)) {
                let found = string_at(&attrs[i], 0);
                if found.is_some() {
                    return found;
                }
            }
            i += 1;
        }
        None
    }

    /// The position of the first `TupleField` attribute that has one.
    pub fn get_tuple_index(&self, attrs: &[Attribute]) -> (index: Option<u16>)
        ensures
            index == first_index_from(attrs.deep_view(), self@.tuple_field_attribute.id, 0),
    {
        let ghost id = self@.tuple_field_attribute.id;
        let wanted = get_typeref_bytes(&TypeRef::Id(self.tuple_field_attribute.id));
        let mut i: usize = 0;
        while i < attrs.len()
            invariant
                i <= attrs.len(),
                id == self@.tuple_field_attribute.id,
                wanted@ == typeref_bytes(TypeRefView::Id(id)),
                first_index_from(attrs.deep_view(), id, 0) == first_index_from(
                    attrs.deep_view(),
                    id,
                    i as int,
                ),
            decreases attrs.len() - i,
        {
            if of_type(&attrs[i], &wanted, Ghost(id)) && attrs[i].1.len() > 0 {
                proof {
                    crate::model::lemma_value_view(attrs@[i as int].1@[0]);
                    assert(attrs.deep_view()[i as int].1[0] == attrs@[i as int].1@[0]@);
                }
                match &attrs[i].1[0] {
                    Value::UShort(index) => {
                        assert(first_index_from(attrs.deep_view(), id, i as int) == Some(*index));
                        return Some(*index);
                    },
                    _ => {},
                }
            }
            i += 1;
        }
        None
    }

    /// The lifetimes of the `Lifetime` attributes, in order.
    pub fn get_lifetimes(&self, attrs: &[Attribute]) -> (names: Vec<String>)
        ensures
            names.deep_view() == strings_from(attrs.deep_view(), self@.lifetime_attribute.id, 0),
    {
        let ghost id = self@.lifetime_attribute.id;
        let wanted = get_typeref_bytes(&TypeRef::Id(self.lifetime_attribute.id));
        let mut names: Vec<String> = empty_vec();
        let mut i: usize = 0;
        while i < attrs.len()
            invariant
                i <= attrs.len(),
                wanted@ == typeref_bytes(TypeRefView::Id(id)),
                strings_from(attrs.deep_view(), id, 0) == names.deep_view() + strings_from(
                    attrs.deep_view(),
                    id,
                    i as int,
                ),
            decreases attrs.len() - i,
        {
            if of_type(&attrs[i], &wanted, Ghost(id)) {
                match string_at(&attrs[i], 0) {
                    Some(name) => {
                        let ghost before = names.deep_view();
                        names.push(name);
                        assert(names.deep_view() =~= before + seq![name@]);
                    },
                    None => {},
                }
            }
            i += 1;
        }
        names
    }

    /// The lifetimes that the generic parameter `generic` outlives, by the
    /// `LifetimeGeneric` attributes, in order.
    pub fn get_generic_lifetimes(&self, attrs: &[Attribute], generic: &str) -> (names: Vec<String>)
        ensures
            names.deep_view() == seconds_from(
                attrs.deep_view(),
                self@.lifetime_generic_attribute.id,
                generic@,
                0,
            ),
    {
        let ghost id = self@.lifetime_generic_attribute.id;
        let wanted = get_typeref_bytes(&TypeRef::Id(self.lifetime_generic_attribute.id));
        let mut names: Vec<String> = empty_vec();
        let mut i: usize = 0;
        while i < attrs.len()
            invariant
                i <= attrs.len(),
                wanted@ == typeref_bytes(TypeRefView::Id(id)),
                seconds_from(attrs.deep_view(), id, generic@, 0) == names.deep_view()
                    + seconds_from(attrs.deep_view(), id, generic@, i as int),
            decreases attrs.len() - i,
        {
            if of_type(&attrs[i], &wanted, Ghost(id)) {
                let bounded = string_at(&attrs[i], 0);
                let lifetime = string_at(&attrs[i], 1);
                match (bounded, lifetime) {
                    (Some(bounded), Some(lifetime)) => {
                        if crate::builder::same_text(bounded.as_str(), generic) {
                            let ghost before = names.deep_view();
                            names.push(lifetime);
                            assert(names.deep_view() =~= before + seq![lifetime@]);
                        }
                    },
                    _ => {},
                }
            }
            i += 1;
        }
        names
    }
}

} // verus!
