use vstd::prelude::*;

use crate::builder::{
    contains_name, empty_vec, full_name, make_full_name, BuildInvariantViolation,
    ConstructorBuilder, ConstructorCollector, Defaults, FieldBuilder, FieldCollector,
    GenericsCollector, PackageBuilder, PackageBuilderView, TypeBuilder, Refused,
};
use crate::ids::{generate_type_id, type_id};
use crate::model::{
    clone_bounds, Attribute, AttributeView, Constructor, ConstructorView, Field, FieldView,
    Generics, GenericsView, Type, TypeKind, TypeKindView, TypeRef, TypeRefView, TypeView,
    Visibility,
};

verus! {

/// Builds a struct: a type that holds data and has constructors, but no
/// behaviour.
#[derive(Debug)]
pub struct StructBuilder {
    defaults: Defaults,
    attrs: Vec<Attribute>,
    name: String,
    namespace: String,
    vis: Visibility,
    constructors: Vec<Constructor>,
    fields: Vec<Field>,
    static_fields: Vec<Field>,
    generics: Vec<String>,
    generics_where: Vec<(String, TypeRef)>,
}

pub ghost struct StructBuilderView {
    /// The package's default visibilities, as they were when the builder
    /// was made.
    pub defaults: Defaults,
    pub attrs: Seq<AttributeView>,
    pub name: Seq<char>,
    pub namespace: Seq<char>,
    pub vis: Visibility,
    pub constructors: Seq<ConstructorView>,
    pub fields: Seq<FieldView>,
    pub static_fields: Seq<FieldView>,
    pub generics: Seq<Seq<char>>,
    pub generics_where: Seq<(Seq<char>, TypeRefView)>,
}

impl StructBuilderView {
    /// The builder of the struct `name` as it is made for a package.
    pub open spec fn fresh(package: PackageBuilderView, name: Seq<char>) -> StructBuilderView {
        StructBuilderView {
            defaults: package.defaults,
            attrs: Seq::empty(),
            name,
            namespace: package.namespace,
            vis: package.defaults.type_visibility,
            constructors: Seq::empty(),
            fields: Seq::empty(),
            static_fields: Seq::empty(),
            generics: Seq::empty(),
            generics_where: Seq::empty(),
        }
    }
}

impl View for StructBuilder {
    type V = StructBuilderView;

    closed spec fn view(&self) -> StructBuilderView {
        StructBuilderView {
            defaults: self.defaults,
            attrs: self.attrs.deep_view(),
            name: self.name@,
            namespace: self.namespace@,
            vis: self.vis,
            constructors: self.constructors.deep_view(),
            fields: self.fields.deep_view(),
            static_fields: self.static_fields.deep_view(),
            generics: self.generics.deep_view(),
            generics_where: self.generics_where.deep_view(),
        }
    }
}

impl StructBuilder {
    /// A builder for the struct `name` of `package`: in the package's
    /// namespace, with the package's visibility for types, empty.
    pub fn new(package: &PackageBuilder, name: &str) -> (r: Self)
        ensures
            r@ == StructBuilderView::fresh(package@, name@),
    {
        let defaults = package.get_defaults();
        Self {
            defaults,
            attrs: empty_vec(),
            name: String::from_str(name),
            namespace: package.get_namespace(),
            vis: defaults.type_visibility,
            constructors: empty_vec(),
            fields: empty_vec(),
            static_fields: empty_vec(),
            generics: empty_vec(),
            generics_where: empty_vec(),
        }
    }

    pub fn add_constructor(self) -> (r: ConstructorBuilder<Self>)
        ensures
            r@ == (crate::builder::constructor_builder::ConstructorBuilderView {
                parent: self@,
                attrs: Seq::empty(),
                vis: self@.defaults.constructor_visibility,
                arg_attrs: Seq::empty(),
                args: Seq::empty(),
            }),
    {
        ConstructorBuilder::new(self)
    }

    pub fn add_field(self, field_type: TypeRef, name: &str) -> (r: FieldBuilder<Self>)
        ensures
            r@ == (crate::builder::field_builder::FieldBuilderView {
                parent: self@,
                is_static: false,
                attrs: Seq::empty(),
                visibility: self@.defaults.member_visibility,
                field_type: field_type@,
                default_value: None,
                name: name@,
            }),
    {
        FieldBuilder::new(self, false, field_type, name)
    }

    pub fn add_static_field(self, field_type: TypeRef, name: &str) -> (r: FieldBuilder<Self>)
        ensures
            r@ == (crate::builder::field_builder::FieldBuilderView {
                parent: self@,
                is_static: true,
                attrs: Seq::empty(),
                visibility: self@.defaults.member_visibility,
                field_type: field_type@,
                default_value: None,
                name: name@,
            }),
    {
        FieldBuilder::new(self, true, field_type, name)
    }
}

impl TypeBuilder for StructBuilder {
    open spec fn with_type_attribute(v: Self::V, attribute: AttributeView) -> Self::V {
        StructBuilderView { attrs: v.attrs.push(attribute), ..v }
    }

    open spec fn with_visibility(v: Self::V, vis: Visibility) -> Self::V {
        StructBuilderView { vis, ..v }
    }

    open spec fn with_defaults(v: Self::V, defaults: Defaults) -> Self::V {
        StructBuilderView { defaults, ..v }
    }

    open spec fn built(v: Self::V) -> TypeView {
        TypeView {
            attrs: v.attrs,
            vis: v.vis,
            namespace: v.namespace,
            name: v.name,
            id: type_id(full_name(v.namespace, v.name)),
            generics: GenericsView(v.generics, v.generics_where),
            kind: TypeKindView::Struct {
                constructors: v.constructors,
                fields: v.fields,
                static_fields: v.static_fields,
            },
        }
    }

    fn add_attribute(self, attr: Attribute) -> (r: Self) {
        let mut b = self;
        b.attrs.push(attr);
        assert(b.attrs.deep_view() =~= self.attrs.deep_view().push(attr@));
        b
    }

    fn set_visibility(self, vis: Visibility) -> (r: Self) {
        let mut b = self;
        b.vis = vis;
        b
    }

    fn take_defaults(self, package: &PackageBuilder) -> (r: Self) {
        let mut b = self;
        b.defaults = package.get_defaults();
        b
    }

    fn get_type(&self) -> (t: Type) {
        let full = make_full_name(self.namespace.as_str(), self.name.as_str());
        Type {
            attrs: self.attrs.clone(),
            vis: self.vis,
            namespace: self.namespace.clone(),
            name: self.name.clone(),
            id: generate_type_id(full.as_str()),
            generics: Generics(self.generics.clone(), clone_bounds(&self.generics_where)),
            kind: TypeKind::Struct {
                constructors: self.constructors.clone(),
                fields: self.fields.clone(),
                static_fields: self.static_fields.clone(),
            },
        }
    }

    fn build(self, package: &mut PackageBuilder) -> (t: Type) {
        let result = self.get_type();
        package.add_type(result.clone());
        result
    }
}

impl GenericsCollector for StructBuilder {
    open spec fn declared(v: Self::V) -> Seq<Seq<char>> {
        v.generics
    }

    open spec fn with_generic(v: Self::V, generic: Seq<char>) -> Self::V {
        StructBuilderView { generics: v.generics.push(generic), ..v }
    }

    open spec fn with_where(v: Self::V, statement: (Seq<char>, TypeRefView)) -> Self::V {
        StructBuilderView { generics_where: v.generics_where.push(statement), ..v }
    }

    fn generic(self, generic: String) -> (r: Self) {
        let mut b = self;
        b.generics.push(generic);
        assert(b.generics.deep_view() =~= self.generics.deep_view().push(generic@));
        b
    }

    fn generic_where(self, statement: (String, TypeRef)) -> (r: Result<Self, Refused<Self>>) {
        if !contains_name(&self.generics, statement.0.as_str()) {
            return Err(
                Refused {
                    builder: self,
                    violation: BuildInvariantViolation::UnknownGeneric(statement.0),
                },
            );
        }
        let mut b = self;
        let ghost added = (statement.0@, statement.1@);
        b.generics_where.push(statement);
        assert(b.generics_where.deep_view() =~= self.generics_where.deep_view().push(added));
        Ok(b)
    }
}

impl ConstructorCollector for StructBuilder {
    open spec fn constructor_visibility(v: Self::V) -> Visibility {
        v.defaults.constructor_visibility
    }

    open spec fn with_constructor(v: Self::V, constructor: ConstructorView) -> Self::V {
        StructBuilderView { constructors: v.constructors.push(constructor), ..v }
    }

    fn get_default_visibility(&self) -> (vis: Visibility) {
        self.defaults.constructor_visibility
    }

    fn add_constructor(&mut self, constructor: Constructor) {
        self.constructors.push(constructor);
        assert(self.constructors.deep_view() =~= old(self).constructors.deep_view().push(
            constructor@,
        ));
    }
}

impl FieldCollector for StructBuilder {
    open spec fn holds_static_fields() -> bool {
        true
    }

    open spec fn field_visibility(v: Self::V) -> Visibility {
        v.defaults.member_visibility
    }

    open spec fn with_field(v: Self::V, field: FieldView) -> Self::V {
        StructBuilderView { fields: v.fields.push(field), ..v }
    }

    open spec fn with_static_field(v: Self::V, field: FieldView) -> Self::V {
        StructBuilderView { static_fields: v.static_fields.push(field), ..v }
    }

    fn get_default_visibility(&self) -> (vis: Visibility) {
        self.defaults.member_visibility
    }

    fn add_field(&mut self, field: Field) {
        self.fields.push(field);
        assert(self.fields.deep_view() =~= old(self).fields.deep_view().push(field@));
    }

    fn add_static_field(&mut self, field: Field) {
        self.static_fields.push(field);
        assert(self.static_fields.deep_view() =~= old(self).static_fields.deep_view().push(field@));
    }
}

} // verus!
