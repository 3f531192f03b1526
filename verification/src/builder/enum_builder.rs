use vstd::prelude::*;

use crate::builder::{
    contains_name, empty_vec, full_name, make_full_name, AttributeCollector,
    BuildInvariantViolation, Defaults, FieldBuilder, FieldCollector, GenericsCollector,
    PackageBuilder, PackageBuilderView, TypeBuilder, Refused,
};
use crate::ids::{generate_member_id, generate_type_id, member_id, type_id};
use crate::model::{
    clone_bounds, clone_entries, Attribute, AttributeView, Field, FieldView, Generics, GenericsView,
    Method, MethodView, Type, TypeKind, TypeKindView, TypeRef, TypeRefView, TypeView, Value,
    ValueView, Variant, VariantView, Visibility,
};

verus! {

/// Builds an enum: a closed set of named constants.
#[derive(Debug)]
pub struct EnumBuilder {
    defaults: Defaults,
    attrs: Vec<Attribute>,
    name: String,
    namespace: String,
    vis: Visibility,
    variants: Vec<(String, Value)>,
}

pub ghost struct EnumBuilderView {
    /// The package's default visibilities, as they were when the builder
    /// was made.
    pub defaults: Defaults,
    pub attrs: Seq<AttributeView>,
    pub name: Seq<char>,
    pub namespace: Seq<char>,
    pub vis: Visibility,
    pub variants: Seq<(Seq<char>, ValueView)>,
}

impl EnumBuilderView {
    /// The builder of the enum `name` as it is made for a package.
    pub open spec fn fresh(package: PackageBuilderView, name: Seq<char>) -> EnumBuilderView {
        EnumBuilderView {
            defaults: package.defaults,
            attrs: Seq::empty(),
            name,
            namespace: package.namespace,
            vis: package.defaults.type_visibility,
            variants: Seq::empty(),
        }
    }
}

impl View for EnumBuilder {
    type V = EnumBuilderView;

    closed spec fn view(&self) -> EnumBuilderView {
        EnumBuilderView {
            defaults: self.defaults,
            attrs: self.attrs.deep_view(),
            name: self.name@,
            namespace: self.namespace@,
            vis: self.vis,
            variants: self.variants.deep_view(),
        }
    }
}

impl EnumBuilder {
    /// A builder for the enum `name` of `package`: in the package's
    /// namespace, with the package's visibility for types, without variants.
    pub fn new(package: &PackageBuilder, name: &str) -> (r: Self)
        ensures
            r@ == EnumBuilderView::fresh(package@, name@),
    {
        let defaults = package.get_defaults();
        Self {
            defaults,
            attrs: empty_vec(),
            name: String::from_str(name),
            namespace: package.get_namespace(),
            vis: defaults.type_visibility,
            variants: empty_vec(),
        }
    }

    /// Turns the enum into a set of bit flags.
    pub fn bitflags(self) -> (r: BitflagsBuilder)
        ensures
            r@ == self@,
    {
        BitflagsBuilder { builder: self }
    }

    /// Adds a variant whose value is the number of variants before it.
    pub fn variant(self, literal: &str) -> (r: Self)
        ensures
            r@ == (EnumBuilderView {
                variants: self@.variants.push(
                    (literal@, ValueView::Int(self@.variants.len() as usize as i32)),
                ),
                ..self@
            }),
    {
        let count = self.variants.len();
        self.variant_value(literal, Value::Int(#[verifier::truncate] (count as i32)))
    }

    /// Adds a variant with the given value.
    pub fn variant_value(self, literal: &str, value: Value) -> (r: Self)
        ensures
            r@ == (EnumBuilderView { variants: self@.variants.push((literal@, value@)), ..self@ }),
    {
        let mut b = self;
        let ghost view = value@;
        b.variants.push((String::from_str(literal), value));
        assert(b.variants.deep_view() =~= self.variants.deep_view().push((literal@, view)));
        b
    }

    /// How many variants the enum has.
    pub fn variant_count(&self) -> (count: usize)
        ensures
            count == self@.variants.len(),
    {
        self.variants.len()
    }
}

impl TypeBuilder for EnumBuilder {
    open spec fn with_type_attribute(v: Self::V, attribute: AttributeView) -> Self::V {
        EnumBuilderView { attrs: v.attrs.push(attribute), ..v }
    }

    open spec fn with_visibility(v: Self::V, vis: Visibility) -> Self::V {
        EnumBuilderView { vis, ..v }
    }

    open spec fn with_defaults(v: Self::V, defaults: Defaults) -> Self::V {
        EnumBuilderView { defaults, ..v }
    }

    open spec fn built(v: Self::V) -> TypeView {
        TypeView {
            attrs: v.attrs,
            vis: v.vis,
            namespace: v.namespace,
            name: v.name,
            id: type_id(full_name(v.namespace, v.name)),
            generics: GenericsView(Seq::empty(), Seq::empty()),
            kind: TypeKindView::Enum { variants: v.variants },
        }
    }

    fn add_attribute(self, attr: Attribute) -> (r: Self) {
        let mut b = self;
        b.attrs.push(attr);
        assert(b.attrs.deep_view() =~= self.attrs.deep_view().push(attr@));
        b
    }

    fn set_visibility(self, vis: Visibility) -> (r: Self) {
        let mut b = self;
        b.vis = vis;
        b
    }

    fn take_defaults(self, package: &PackageBuilder) -> (r: Self) {
        let mut b = self;
        b.defaults = package.get_defaults();
        b
    }

    fn get_type(&self) -> (t: Type) {
        let full = make_full_name(self.namespace.as_str(), self.name.as_str());
        Type {
            attrs: self.attrs.clone(),
            vis: self.vis,
            namespace: self.namespace.clone(),
            name: self.name.clone(),
            id: generate_type_id(full.as_str()),
            generics: Generics(empty_vec(), empty_vec()),
            kind: TypeKind::Enum { variants: clone_entries(&self.variants) },
        }
    }

    fn build(self, package: &mut PackageBuilder) -> (t: Type) {
        let result = self.get_type();
        package.add_type(result.clone());
        result
    }
}

/// The value of the flag that comes after `count` others: zero for the
/// first, then one bit each, from the lowest.
pub open spec fn flag_value(count: nat) -> u32
    recommends
        count <= 32,
{
    if count == 0 {
        0
    } else {
        1u32 << ((count - 1) as u32)
    }
}

/// The attribute that marks an enum as a set of bit flags.
pub open spec fn flags_attribute() -> AttributeView {
    AttributeView(TypeRefView::Name("Tangara.Flags"@), Seq::empty())
}

/// Builds an enum whose variants are bit flags.
#[derive(Debug)]
pub struct BitflagsBuilder {
    builder: EnumBuilder,
}

impl View for BitflagsBuilder {
    type V = EnumBuilderView;

    closed spec fn view(&self) -> EnumBuilderView {
        self.builder@
    }
}

impl BitflagsBuilder {
    /// Adds a flag. The first flag is zero, the flags after it are the
    /// bits from the lowest up; there is room for thirty-three.
    pub fn variant(self, literal: &str) -> (r: Self)
        requires
            self@.variants.len() <= 32,
        ensures
            r@ == (EnumBuilderView {
                variants: self@.variants.push(
                    (literal@, ValueView::UInt(flag_value(self@.variants.len()))),
                ),
                ..self@
            }),
    {
        let count = self.builder.variant_count();
        let value: u32 = if count == 0 {
            0
        } else {
            1u32 << ((count - 1) as u32)
        };
        BitflagsBuilder { builder: self.builder.variant_value(literal, Value::UInt(value)) }
    }

    /// How many flags the enum has.
    pub fn variant_count(&self) -> (count: usize)
        ensures
            count == self@.variants.len(),
    {
        self.builder.variant_count()
    }
}

impl TypeBuilder for BitflagsBuilder {
    open spec fn with_type_attribute(v: Self::V, attribute: AttributeView) -> Self::V {
        EnumBuilderView { attrs: v.attrs.push(attribute), ..v }
    }

    open spec fn with_visibility(v: Self::V, vis: Visibility) -> Self::V {
        EnumBuilderView { vis, ..v }
    }

    open spec fn with_defaults(v: Self::V, defaults: Defaults) -> Self::V {
        EnumBuilderView { defaults, ..v }
    }

    /// The enum, with the flags attribute after its own attributes.
    open spec fn built(v: Self::V) -> TypeView {
        TypeView { attrs: v.attrs.push(flags_attribute()), ..EnumBuilder::built(v) }
    }

    fn add_attribute(self, attr: Attribute) -> (r: Self) {
        BitflagsBuilder { builder: self.builder.add_attribute(attr) }
    }

    fn set_visibility(self, vis: Visibility) -> (r: Self) {
        BitflagsBuilder { builder: self.builder.set_visibility(vis) }
    }

    fn take_defaults(self, package: &PackageBuilder) -> (r: Self) {
        BitflagsBuilder { builder: self.builder.take_defaults(package) }
    }

    fn get_type(&self) -> (t: Type) {
        let mut t = self.builder.get_type();
        let flags = Attribute(TypeRef::from_name("Tangara.Flags"), empty_vec());
        let ghost before = t.attrs.deep_view();
        t.attrs.push(flags);
        assert(t.attrs.deep_view() =~= before.push(flags_attribute()));
        t
    }

    fn build(self, package: &mut PackageBuilder) -> (t: Type) {
        let result = self.get_type();
        package.add_type(result.clone());
        result
    }
}

/// Builds an enum class: a closed set of variants, each with its own
/// fields.
#[derive(Debug)]
pub struct EnumClassBuilder {
    defaults: Defaults,
    attrs: Vec<Attribute>,
    name: String,
    namespace: String,
    vis: Visibility,
    variants: Vec<Variant>,
    methods: Vec<Method>,
    generics: Vec<String>,
    generics_where: Vec<(String, TypeRef)>,
}

pub ghost struct EnumClassBuilderView {
    /// The package's default visibilities, as they were when the builder
    /// was made.
    pub defaults: Defaults,
    pub attrs: Seq<AttributeView>,
    pub name: Seq<char>,
    pub namespace: Seq<char>,
    pub vis: Visibility,
    pub variants: Seq<VariantView>,
    pub methods: Seq<MethodView>,
    pub generics: Seq<Seq<char>>,
    pub generics_where: Seq<(Seq<char>, TypeRefView)>,
}

impl EnumClassBuilderView {
    /// The builder of the enum class `name` as it is made for a package.
    pub open spec fn fresh(package: PackageBuilderView, name: Seq<char>) -> EnumClassBuilderView {
        EnumClassBuilderView {
            defaults: package.defaults,
            attrs: Seq::empty(),
            name,
            namespace: package.namespace,
            vis: package.defaults.type_visibility,
            variants: Seq::empty(),
            methods: Seq::empty(),
            generics: Seq::empty(),
            generics_where: Seq::empty(),
        }
    }
}

impl View for EnumClassBuilder {
    type V = EnumClassBuilderView;

    closed spec fn view(&self) -> EnumClassBuilderView {
        EnumClassBuilderView {
            defaults: self.defaults,
            attrs: self.attrs.deep_view(),
            name: self.name@,
            namespace: self.namespace@,
            vis: self.vis,
            variants: self.variants.deep_view(),
            methods: self.methods.deep_view(),
            generics: self.generics.deep_view(),
            generics_where: self.generics_where.deep_view(),
        }
    }
}

impl EnumClassBuilder {
    /// A builder for the enum class `name` of `package`: in the package's
    /// namespace, with the package's visibility for types, without variants.
    pub fn new(package: &PackageBuilder, name: &str) -> (r: Self)
        ensures
            r@ == EnumClassBuilderView::fresh(package@, name@),
    {
        let defaults = package.get_defaults();
        Self {
            defaults,
            attrs: empty_vec(),
            name: String::from_str(name),
            namespace: package.get_namespace(),
            vis: defaults.type_visibility,
            variants: empty_vec(),
            methods: empty_vec(),
            generics: empty_vec(),
            generics_where: empty_vec(),
        }
    }

    /// A builder for the variant `name`, with the visibility that the
    /// package gives to members.
    pub fn variant(self, name: &str) -> (r: VariantBuilder)
        ensures
            r@ == (VariantBuilderView {
                parent: self@,
                attrs: Seq::empty(),
                vis: self@.defaults.member_visibility,
                name: name@,
                fields: Seq::empty(),
            }),
    {
        VariantBuilder::new(self, name)
    }
}

impl TypeBuilder for EnumClassBuilder {
    open spec fn with_type_attribute(v: Self::V, attribute: AttributeView) -> Self::V {
        EnumClassBuilderView { attrs: v.attrs.push(attribute), ..v }
    }

    open spec fn with_visibility(v: Self::V, vis: Visibility) -> Self::V {
        EnumClassBuilderView { vis, ..v }
    }

    open spec fn with_defaults(v: Self::V, defaults: Defaults) -> Self::V {
        EnumClassBuilderView { defaults, ..v }
    }

    open spec fn built(v: Self::V) -> TypeView {
        TypeView {
            attrs: v.attrs,
            vis: v.vis,
            namespace: v.namespace,
            name: v.name,
            id: type_id(full_name(v.namespace, v.name)),
            generics: GenericsView(v.generics, v.generics_where),
            kind: TypeKindView::EnumClass { variants: v.variants, methods: v.methods },
        }
    }

    fn add_attribute(self, attr: Attribute) -> (r: Self) {
        let mut b = self;
        b.attrs.push(attr);
        assert(b.attrs.deep_view() =~= self.attrs.deep_view().push(attr@));
        b
    }

    fn set_visibility(self, vis: Visibility) -> (r: Self) {
        let mut b = self;
        b.vis = vis;
        b
    }

    fn take_defaults(self, package: &PackageBuilder) -> (r: Self) {
        let mut b = self;
        b.defaults = package.get_defaults();
        b
    }

    fn get_type(&self) -> (t: Type) {
        let full = make_full_name(self.namespace.as_str(), self.name.as_str());
        Type {
            attrs: self.attrs.clone(),
            vis: self.vis,
            namespace: self.namespace.clone(),
            name: self.name.clone(),
            id: generate_type_id(full.as_str()),
            generics: Generics(self.generics.clone(), clone_bounds(&self.generics_where)),
            kind: TypeKind::EnumClass {
                variants: self.variants.clone(),
                methods: self.methods.clone(),
            },
        }
    }

    fn build(self, package: &mut PackageBuilder) -> (t: Type) {
        let result = self.get_type();
        package.add_type(result.clone());
        result
    }
}

impl GenericsCollector for EnumClassBuilder {
    open spec fn declared(v: Self::V) -> Seq<Seq<char>> {
        v.generics
    }

    open spec fn with_generic(v: Self::V, generic: Seq<char>) -> Self::V {
        EnumClassBuilderView { generics: v.generics.push(generic), ..v }
    }

    open spec fn with_where(v: Self::V, statement: (Seq<char>, TypeRefView)) -> Self::V {
        EnumClassBuilderView { generics_where: v.generics_where.push(statement), ..v }
    }

    fn generic(self, generic: String) -> (r: Self) {
        let mut b = self;
        b.generics.push(generic);
        assert(b.generics.deep_view() =~= self.generics.deep_view().push(generic@));
        b
    }

    fn generic_where(self, statement: (String, TypeRef)) -> (r: Result<Self, Refused<Self>>) {
        if !contains_name(&self.generics, statement.0.as_str()) {
            return Err(
                Refused {
                    builder: self,
                    violation: BuildInvariantViolation::UnknownGeneric(statement.0),
                },
            );
        }
        let mut b = self;
        let ghost added = (statement.0@, statement.1@);
        b.generics_where.push(statement);
        assert(b.generics_where.deep_view() =~= self.generics_where.deep_view().push(added));
        Ok(b)
    }
}

/// Builds one variant of an enum class.
#[derive(Debug)]
pub struct VariantBuilder {
    builder: EnumClassBuilder,
    attrs: Vec<Attribute>,
    vis: Visibility,
    name: String,
    fields: Vec<Field>,
}

pub ghost struct VariantBuilderView {
    pub parent: EnumClassBuilderView,
    pub attrs: Seq<AttributeView>,
    pub vis: Visibility,
    pub name: Seq<char>,
    pub fields: Seq<FieldView>,
}

impl VariantBuilderView {
    /// The variant that the builder would build now: its id is the member
    /// id of its name.
    pub open spec fn variant(self) -> VariantView {
        VariantView {
            attrs: self.attrs,
            vis: self.vis,
            name: self.name,
            id: member_id(self.name),
            fields: self.fields,
        }
    }
}

impl View for VariantBuilder {
    type V = VariantBuilderView;

    closed spec fn view(&self) -> VariantBuilderView {
        VariantBuilderView {
            parent: self.builder@,
            attrs: self.attrs.deep_view(),
            vis: self.vis,
            name: self.name@,
            fields: self.fields.deep_view(),
        }
    }
}

impl VariantBuilder {
    pub(crate) fn new(builder: EnumClassBuilder, name: &str) -> (r: Self)
        ensures
            r@ == (VariantBuilderView {
                parent: builder@,
                attrs: Seq::empty(),
                vis: builder@.defaults.member_visibility,
                name: name@,
                fields: Seq::empty(),
            }),
    {
        let vis = builder.defaults.member_visibility;
        Self { builder, attrs: empty_vec(), vis, name: String::from_str(name), fields: empty_vec() }
    }

    pub fn set_visibility(self, vis: Visibility) -> (r: Self)
        ensures
            r@ == (VariantBuilderView { vis, ..self@ }),
    {
        let mut b = self;
        b.vis = vis;
        b
    }

    pub fn add_field(self, field_type: TypeRef, name: &str) -> (r: FieldBuilder<Self>)
        ensures
            r@ == (crate::builder::field_builder::FieldBuilderView {
                parent: self@,
                is_static: false,
                attrs: Seq::empty(),
                visibility: self@.parent.defaults.member_visibility,
                field_type: field_type@,
                default_value: None,
                name: name@,
            }),
    {
        FieldBuilder::new(self, false, field_type, name)
    }

    /// Finishes the variant: appends it to the enum class's variants and
    /// gives the enum class builder back.
    pub fn build(self) -> (parent: EnumClassBuilder)
        ensures
            parent@ == (EnumClassBuilderView {
                variants: self@.parent.variants.push(self@.variant()),
                ..self@.parent
            }),
    {
        let variant = Variant {
            attrs: self.attrs,
            vis: self.vis,
            id: generate_member_id(self.name.as_str()),
            name: self.name,
            fields: self.fields,
        };
        let mut parent = self.builder;
        parent.variants.push(variant);
        assert(parent.variants.deep_view() =~= self.builder.variants.deep_view().push(variant@));
        parent
    }
}

impl FieldCollector for VariantBuilder {
    open spec fn holds_static_fields() -> bool {
        false
    }

    open spec fn field_visibility(v: Self::V) -> Visibility {
        v.parent.defaults.member_visibility
    }

    open spec fn with_field(v: Self::V, field: FieldView) -> Self::V {
        VariantBuilderView { fields: v.fields.push(field), ..v }
    }

    open spec fn with_static_field(v: Self::V, field: FieldView) -> Self::V {
        v
    }

    fn get_default_visibility(&self) -> (vis: Visibility) {
        self.builder.defaults.member_visibility
    }

    fn add_field(&mut self, field: Field) {
        self.fields.push(field);
        assert(self.fields.deep_view() =~= old(self).fields.deep_view().push(field@));
    }

    /// A variant has no static fields: nothing can call this.
    fn add_static_field(&mut self, field: Field) {
    }
}

impl AttributeCollector for VariantBuilder {
    open spec fn with_attribute(v: Self::V, attribute: AttributeView) -> Self::V {
        VariantBuilderView { attrs: v.attrs.push(attribute), ..v }
    }

    fn add_attribute(self, attribute: Attribute) -> (r: Self) {
        let mut b = self;
        b.attrs.push(attribute);
        assert(b.attrs.deep_view() =~= self.attrs.deep_view().push(attribute@));
        b
    }
}

} // verus!
