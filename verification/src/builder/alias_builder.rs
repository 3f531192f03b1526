use vstd::prelude::*;

use crate::builder::{
    contains_name, empty_vec, full_name, make_full_name, BuildInvariantViolation, Defaults,
    GenericsCollector, PackageBuilder, PackageBuilderView, TypeBuilder, Refused,
};
use crate::ids::{generate_type_id, type_id};
use crate::model::{
    clone_bounds, Attribute, AttributeView, Generics, GenericsView, Type, TypeKind, TypeKindView,
    TypeRef, TypeRefView, TypeView, Visibility,
};

verus! {

/// Builds a type alias: a name that stands for a type reference.
#[derive(Debug)]
pub struct TypeAliasBuilder {
    defaults: Defaults,
    attrs: Vec<Attribute>,
    name: String,
    namespace: String,
    vis: Visibility,
    generics: Vec<String>,
    generics_where: Vec<(String, TypeRef)>,
    alias: TypeRef,
}

pub ghost struct TypeAliasBuilderView {
    /// The package's default visibilities, as they were when the builder
    /// was made.
    pub defaults: Defaults,
    pub attrs: Seq<AttributeView>,
    pub name: Seq<char>,
    pub namespace: Seq<char>,
    pub vis: Visibility,
    pub generics: Seq<Seq<char>>,
    pub generics_where: Seq<(Seq<char>, TypeRefView)>,
    pub alias: TypeRefView,
}

impl TypeAliasBuilderView {
    /// The builder of the alias `name` for `alias` as it is made for a package.
    pub open spec fn fresh(
        package: PackageBuilderView,
        name: Seq<char>,
        alias: TypeRefView,
    ) -> TypeAliasBuilderView {
        TypeAliasBuilderView {
            defaults: package.defaults,
            attrs: Seq::empty(),
            name,
            namespace: package.namespace,
            vis: package.defaults.type_visibility,
            generics: Seq::empty(),
            generics_where: Seq::empty(),
            alias,
        }
    }
}

impl View for TypeAliasBuilder {
    type V = TypeAliasBuilderView;

    closed spec fn view(&self) -> TypeAliasBuilderView {
        TypeAliasBuilderView {
            defaults: self.defaults,
            attrs: self.attrs.deep_view(),
            name: self.name@,
            namespace: self.namespace@,
            vis: self.vis,
            generics: self.generics.deep_view(),
            generics_where: self.generics_where.deep_view(),
            alias: self.alias@,
        }
    }
}

impl TypeAliasBuilder {
    /// A builder for the alias `name` of `package`, which stands for `alias`.
    pub fn new(package: &PackageBuilder, name: &str, alias: TypeRef) -> (r: Self)
        ensures
            r@ == TypeAliasBuilderView::fresh(package@, name@, alias@),
    {
        let defaults = package.get_defaults();
        Self {
            defaults,
            attrs: empty_vec(),
            name: String::from_str(name),
            namespace: package.get_namespace(),
            vis: defaults.type_visibility,
            generics: empty_vec(),
            generics_where: empty_vec(),
            alias,
        }
    }
}

impl TypeBuilder for TypeAliasBuilder {
    open spec fn with_type_attribute(v: Self::V, attribute: AttributeView) -> Self::V {
        TypeAliasBuilderView { attrs: v.attrs.push(attribute), ..v }
    }

    open spec fn with_visibility(v: Self::V, vis: Visibility) -> Self::V {
        TypeAliasBuilderView { vis, ..v }
    }

    open spec fn with_defaults(v: Self::V, defaults: Defaults) -> Self::V {
        TypeAliasBuilderView { defaults, ..v }
    }

    open spec fn built(v: Self::V) -> TypeView {
        TypeView {
            attrs: v.attrs,
            vis: v.vis,
            namespace: v.namespace,
            name: v.name,
            id: type_id(full_name(v.namespace, v.name)),
            generics: GenericsView(v.generics, v.generics_where),
            kind: TypeKindView::TypeAlias(v.alias),
        }
    }

    fn add_attribute(self, attr: Attribute) -> (r: Self) {
        let mut b = self;
        b.attrs.push(attr);
        assert(b.attrs.deep_view() =~= self.attrs.deep_view().push(attr@));
        b
    }

    fn set_visibility(self, vis: Visibility) -> (r: Self) {
        let mut b = self;
        b.vis = vis;
        b
    }

    fn take_defaults(self, package: &PackageBuilder) -> (r: Self) {
        let mut b = self;
        b.defaults = package.get_defaults();
        b
    }

    fn get_type(&self) -> (t: Type) {
        let full = make_full_name(self.namespace.as_str(), self.name.as_str());
        Type {
            attrs: self.attrs.clone(),
            vis: self.vis,
            namespace: self.namespace.clone(),
            name: self.name.clone(),
            id: generate_type_id(full.as_str()),
            generics: Generics(self.generics.clone(), clone_bounds(&self.generics_where)),
            kind: TypeKind::TypeAlias(Box::new(self.alias.clone())),
        }
    }

    fn build(self, package: &mut PackageBuilder) -> (t: Type) {
        let result = self.get_type();
        package.add_type(result.clone());
        result
    }
}

impl GenericsCollector for TypeAliasBuilder {
    open spec fn declared(v: Self::V) -> Seq<Seq<char>> {
        v.generics
    }

    open spec fn with_generic(v: Self::V, generic: Seq<char>) -> Self::V {
        TypeAliasBuilderView { generics: v.generics.push(generic), ..v }
    }

    open spec fn with_where(v: Self::V, statement: (Seq<char>, TypeRefView)) -> Self::V {
        TypeAliasBuilderView { generics_where: v.generics_where.push(statement), ..v }
    }

    fn generic(self, generic: String) -> (r: Self) {
        let mut b = self;
        b.generics.push(generic);
        assert(b.generics.deep_view() =~= self.generics.deep_view().push(generic@));
        b
    }

    fn generic_where(self, statement: (String, TypeRef)) -> (r: Result<Self, Refused<Self>>) {
        if !contains_name(&self.generics, statement.0.as_str()) {
            return Err(
                Refused {
                    builder: self,
                    violation: BuildInvariantViolation::UnknownGeneric(statement.0),
                },
            );
        }
        let mut b = self;
        let ghost added = (statement.0@, statement.1@);
        b.generics_where.push(statement);
        assert(b.generics_where.deep_view() =~= self.generics_where.deep_view().push(added));
        Ok(b)
    }
}

} // verus!
