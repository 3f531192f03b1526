use vstd::prelude::*;

use crate::builder::{
    contains_name, empty_vec, full_name, make_full_name, BuildInvariantViolation, Defaults,
    GenericsCollector, MethodBuilder, MethodCollector, PackageBuilder, PackageBuilderView,
    PropertyBuilder, PropertyCollector, TypeBuilder, Refused,
};
use crate::ids::{generate_type_id, type_id};
use crate::model::{
    clone_bounds, Attribute, AttributeView, Generics, GenericsView, Method, MethodKind, MethodView,
    Property, PropertyView, Type, TypeKind, TypeKindView, TypeRef, TypeRefView, TypeView,
    Visibility,
};

verus! {

/// Builds an interface: properties and abstract methods, and the interfaces
/// it inherits from. No member of an interface may be private to everyone.
#[derive(Debug)]
pub struct InterfaceBuilder {
    defaults: Defaults,
    attrs: Vec<Attribute>,
    name: String,
    namespace: String,
    vis: Visibility,
    properties: Vec<Property>,
    methods: Vec<Method>,
    parents: Vec<TypeRef>,
    generics: Vec<String>,
    generics_where: Vec<(String, TypeRef)>,
}

pub ghost struct InterfaceBuilderView {
    /// The package's default visibilities, as they were when the builder
    /// was made.
    pub defaults: Defaults,
    pub attrs: Seq<AttributeView>,
    pub name: Seq<char>,
    pub namespace: Seq<char>,
    pub vis: Visibility,
    pub properties: Seq<PropertyView>,
    pub methods: Seq<MethodView>,
    pub parents: Seq<TypeRefView>,
    pub generics: Seq<Seq<char>>,
    pub generics_where: Seq<(Seq<char>, TypeRefView)>,
}

impl InterfaceBuilderView {
    /// The builder of the interface `name` as it is made for a package.
    pub open spec fn fresh(package: PackageBuilderView, name: Seq<char>) -> InterfaceBuilderView {
        InterfaceBuilderView {
            defaults: package.defaults,
            attrs: Seq::empty(),
            name,
            namespace: package.namespace,
            vis: package.defaults.type_visibility,
            properties: Seq::empty(),
            methods: Seq::empty(),
            parents: Seq::empty(),
            generics: Seq::empty(),
            generics_where: Seq::empty(),
        }
    }
}

impl View for InterfaceBuilder {
    type V = InterfaceBuilderView;

    closed spec fn view(&self) -> InterfaceBuilderView {
        InterfaceBuilderView {
            defaults: self.defaults,
            attrs: self.attrs.deep_view(),
            name: self.name@,
            namespace: self.namespace@,
            vis: self.vis,
            properties: self.properties.deep_view(),
            methods: self.methods.deep_view(),
            parents: self.parents.deep_view(),
            generics: self.generics.deep_view(),
            generics_where: self.generics_where.deep_view(),
        }
    }
}

impl InterfaceBuilder {
    /// A builder for the interface `name` of `package`: in the package's
    /// namespace, with the package's visibility for types, empty.
    pub fn new(package: &PackageBuilder, name: &str) -> (r: Self)
        ensures
            r@ == InterfaceBuilderView::fresh(package@, name@),
    {
        let defaults = package.get_defaults();
        Self {
            defaults,
            attrs: empty_vec(),
            name: String::from_str(name),
            namespace: package.get_namespace(),
            vis: defaults.type_visibility,
            properties: empty_vec(),
            methods: empty_vec(),
            parents: empty_vec(),
            generics: empty_vec(),
            generics_where: empty_vec(),
        }
    }

    /// Adds a parent: an interface that this interface inherits from.
    pub fn inherits(self, parent: TypeRef) -> (r: Self)
        ensures
            r@ == (InterfaceBuilderView { parents: self@.parents.push(parent@), ..self@ }),
    {
        let mut b = self;
        b.parents.push(parent);
        assert(b.parents.deep_view() =~= self.parents.deep_view().push(parent@));
        b
    }

    /// A builder for a read-only property with a public getter.
    pub fn add_property(self, prop_type: TypeRef, name: &str) -> (r: PropertyBuilder<Self>)
        ensures
            r@ == (crate::builder::property_builder::PropertyBuilderView {
                parent: self@,
                is_static: false,
                attrs: Seq::empty(),
                getter_visibility: Visibility::Public,
                setter_visibility: None,
                prop_type: prop_type@,
                name: name@,
            }),
    {
        PropertyBuilder::new(self, false, prop_type, name)
    }

    /// A builder for a public abstract method.
    pub fn add_method(self, name: &str) -> (r: MethodBuilder<Self>)
        ensures
            r@ == (crate::builder::method_builder::MethodBuilderView {
                parent: self@,
                attrs: Seq::empty(),
                vis: Visibility::Public,
                name: name@,
                arg_attrs: Seq::empty(),
                args: Seq::empty(),
                return_type: None,
                generics: Seq::empty(),
                generics_where: Seq::empty(),
                kind: MethodKind::Abstract,
            }),
    {
        MethodBuilder::of_kind(self, name, MethodKind::Abstract)
    }
}

impl TypeBuilder for InterfaceBuilder {
    open spec fn with_type_attribute(v: Self::V, attribute: AttributeView) -> Self::V {
        InterfaceBuilderView { attrs: v.attrs.push(attribute), ..v }
    }

    open spec fn with_visibility(v: Self::V, vis: Visibility) -> Self::V {
        InterfaceBuilderView { vis, ..v }
    }

    open spec fn with_defaults(v: Self::V, defaults: Defaults) -> Self::V {
        InterfaceBuilderView { defaults, ..v }
    }

    open spec fn built(v: Self::V) -> TypeView {
        TypeView {
            attrs: v.attrs,
            vis: v.vis,
            namespace: v.namespace,
            name: v.name,
            id: type_id(full_name(v.namespace, v.name)),
            generics: GenericsView(v.generics, v.generics_where),
            kind: TypeKindView::Interface {
                properties: v.properties,
                methods: v.methods,
                parents: v.parents,
            },
        }
    }

    fn add_attribute(self, attr: Attribute) -> (r: Self) {
        let mut b = self;
        b.attrs.push(attr);
        assert(b.attrs.deep_view() =~= self.attrs.deep_view().push(attr@));
        b
    }

    fn set_visibility(self, vis: Visibility) -> (r: Self) {
        let mut b = self;
        b.vis = vis;
        b
    }

    fn take_defaults(self, package: &PackageBuilder) -> (r: Self) {
        let mut b = self;
        b.defaults = package.get_defaults();
        b
    }

    fn get_type(&self) -> (t: Type) {
        let full = make_full_name(self.namespace.as_str(), self.name.as_str());
        Type {
            attrs: self.attrs.clone(),
            vis: self.vis,
            namespace: self.namespace.clone(),
            name: self.name.clone(),
            id: generate_type_id(full.as_str()),
            generics: Generics(self.generics.clone(), clone_bounds(&self.generics_where)),
            kind: TypeKind::Interface {
                properties: self.properties.clone(),
                methods: self.methods.clone(),
                parents: self.parents.clone(),
            },
        }
    }

    fn build(self, package: &mut PackageBuilder) -> (t: Type) {
        let result = self.get_type();
        package.add_type(result.clone());
        result
    }
}

impl GenericsCollector for InterfaceBuilder {
    open spec fn declared(v: Self::V) -> Seq<Seq<char>> {
        v.generics
    }

    open spec fn with_generic(v: Self::V, generic: Seq<char>) -> Self::V {
        InterfaceBuilderView { generics: v.generics.push(generic), ..v }
    }

    open spec fn with_where(v: Self::V, statement: (Seq<char>, TypeRefView)) -> Self::V {
        InterfaceBuilderView { generics_where: v.generics_where.push(statement), ..v }
    }

    fn generic(self, generic: String) -> (r: Self) {
        let mut b = self;
        b.generics.push(generic);
        assert(b.generics.deep_view() =~= self.generics.deep_view().push(generic@));
        b
    }

    fn generic_where(self, statement: (String, TypeRef)) -> (r: Result<Self, Refused<Self>>) {
        if !contains_name(&self.generics, statement.0.as_str()) {
            return Err(
                Refused {
                    builder: self,
                    violation: BuildInvariantViolation::UnknownGeneric(statement.0),
                },
            );
        }
        let mut b = self;
        let ghost added = (statement.0@, statement.1@);
        b.generics_where.push(statement);
        assert(b.generics_where.deep_view() =~= self.generics_where.deep_view().push(added));
        Ok(b)
    }
}

/// Whether the property can be seen by anyone but its owner: its getter is
/// not private, or it has a setter that is not private.
pub open spec fn property_is_visible(property: PropertyView) -> bool {
    property.getter_visibility != Visibility::Private || match property.setter_visibility {
        Some(vis) => vis != Visibility::Private,
        None => false,
    }
}

impl PropertyCollector for InterfaceBuilder {
    open spec fn holds_static_properties() -> bool {
        false
    }

    open spec fn property_visibility(v: Self::V) -> Visibility {
        Visibility::Public
    }

    /// An interface takes a property that someone can see.
    open spec fn allows_property(v: Self::V, property: PropertyView) -> bool {
        property_is_visible(property)
    }

    open spec fn with_property(v: Self::V, property: PropertyView) -> Self::V {
        InterfaceBuilderView { properties: v.properties.push(property), ..v }
    }

    open spec fn with_static_property(v: Self::V, property: PropertyView) -> Self::V {
        v
    }

    fn get_default_visibility(&self) -> (vis: Visibility) {
        Visibility::Public
    }

    fn add_property(&mut self, property: Property) -> (r: Result<(), BuildInvariantViolation>) {
        let setter_private = match property.setter_visibility {
            Some(vis) => vis == Visibility::Private,
            None => true,
        };
        if property.getter_visibility == Visibility::Private && setter_private {
            return Err(BuildInvariantViolation::PrivateInterfaceMember);
        }
        self.properties.push(property);
        assert(self.properties.deep_view() =~= old(self).properties.deep_view().push(property@));
        Ok(())
    }

    /// An interface has no static properties: nothing can call this.
    fn add_static_property(&mut self, property: Property) {
    }
}

impl MethodCollector for InterfaceBuilder {
    open spec fn method_visibility(v: Self::V) -> Visibility {
        Visibility::Public
    }

    /// An interface has abstract methods only.
    open spec fn supports_kind(v: Self::V, kind: MethodKind) -> bool {
        kind == MethodKind::Abstract
    }

    /// An interface takes a method that is not private.
    open spec fn allows_method(v: Self::V, method: MethodView) -> bool {
        method.vis != Visibility::Private
    }

    open spec fn with_method(v: Self::V, method: MethodView) -> Self::V {
        InterfaceBuilderView { methods: v.methods.push(method), ..v }
    }

    fn get_default_visibility(&self) -> (vis: Visibility) {
        Visibility::Public
    }

    fn get_supported_kinds(&self) -> (kinds: Vec<MethodKind>) {
        let mut kinds: Vec<MethodKind> = Vec::new();
        kinds.push(MethodKind::Abstract);
        assert forall|kind: MethodKind| kinds@.contains(kind) <==> Self::supports_kind(
            self@,
            kind,
        ) by {
            if kinds@.contains(kind) {
                let i = choose|i: int| 0 <= i < kinds@.len() && kinds@[i] == kind;
            }
            if Self::supports_kind(self@, kind) {
                assert(kinds@[0] == kind);
            }
        }
        kinds
    }

    fn add_method(&mut self, method: Method) -> (r: Result<(), BuildInvariantViolation>) {
        if method.vis == Visibility::Private {
            return Err(BuildInvariantViolation::PrivateInterfaceMember);
        }
        self.methods.push(method);
        assert(self.methods.deep_view() =~= old(self).methods.deep_view().push(method@));
        Ok(())
    }
}

/// An interface takes a method exactly if the method's visibility is
/// public, protected or internal: the builder fails on a private method and
/// on no other.
pub proof fn lemma_interface_visibility(v: InterfaceBuilderView, m: MethodView)
    ensures
        InterfaceBuilder::allows_method(v, m) <==> (m.vis == Visibility::Public || m.vis
            == Visibility::Protected || m.vis == Visibility::Internal),
        InterfaceBuilder::allows_method(v, m) ==> InterfaceBuilder::with_method(v, m).methods
            == v.methods.push(m),
{
}

} // verus!
