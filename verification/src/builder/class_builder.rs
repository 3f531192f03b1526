use vstd::prelude::*;

use crate::builder::{
    contains_name, empty_vec, full_name, make_full_name, BuildInvariantViolation,
    ConstructorBuilder, ConstructorCollector, Defaults, FieldBuilder, FieldCollector,
    GenericsCollector, MethodBuilder, MethodCollector, PackageBuilder, PackageBuilderView,
    PropertyBuilder, PropertyCollector, TypeBuilder, Refused,
};
use crate::ids::{generate_type_id, type_id};
use crate::model::{
    Attribute, AttributeView, Constructor, ConstructorView, Field, FieldView, Generics,
    GenericsView, Method, MethodKind, MethodView, Property, PropertyView, Type, TypeKind,
    TypeKindView, TypeRef, TypeRefView, TypeView, Visibility,
};

verus! {

/// Builds a class: a type with constructors, properties, fields, methods
/// and parents. A class is sealed unless it is opened.
#[derive(Debug)]
pub struct ClassBuilder {
    defaults: Defaults,
    attrs: Vec<Attribute>,
    name: String,
    namespace: String,
    vis: Visibility,
    constructors: Vec<Constructor>,
    properties: Vec<Property>,
    fields: Vec<Field>,
    static_properties: Vec<Property>,
    static_fields: Vec<Field>,
    methods: Vec<Method>,
    parents: Vec<TypeRef>,
    generics: Vec<String>,
    generics_where: Vec<(String, TypeRef)>,
    sealed: bool,
}

pub ghost struct ClassBuilderView {
    /// The package's default visibilities, as they were when the builder
    /// was made.
    pub defaults: Defaults,
    pub attrs: Seq<AttributeView>,
    pub name: Seq<char>,
    pub namespace: Seq<char>,
    pub vis: Visibility,
    pub constructors: Seq<ConstructorView>,
    pub properties: Seq<PropertyView>,
    pub fields: Seq<FieldView>,
    pub static_properties: Seq<PropertyView>,
    pub static_fields: Seq<FieldView>,
    pub methods: Seq<MethodView>,
    pub parents: Seq<TypeRefView>,
    pub generics: Seq<Seq<char>>,
    pub generics_where: Seq<(Seq<char>, TypeRefView)>,
    pub sealed: bool,
}

impl ClassBuilderView {
    /// The builder of the class `name` as it is made for a package.
    pub open spec fn fresh(package: PackageBuilderView, name: Seq<char>) -> ClassBuilderView {
        ClassBuilderView {
            defaults: package.defaults,
            attrs: Seq::empty(),
            name,
            namespace: package.namespace,
            vis: package.defaults.type_visibility,
            constructors: Seq::empty(),
            properties: Seq::empty(),
            fields: Seq::empty(),
            static_properties: Seq::empty(),
            static_fields: Seq::empty(),
            methods: Seq::empty(),
            parents: Seq::empty(),
            generics: Seq::empty(),
            generics_where: Seq::empty(),
            sealed: true,
        }
    }
}

impl View for ClassBuilder {
    type V = ClassBuilderView;

    closed spec fn view(&self) -> ClassBuilderView {
        ClassBuilderView {
            defaults: self.defaults,
            attrs: self.attrs.deep_view(),
            name: self.name@,
            namespace: self.namespace@,
            vis: self.vis,
            constructors: self.constructors.deep_view(),
            properties: self.properties.deep_view(),
            fields: self.fields.deep_view(),
            static_properties: self.static_properties.deep_view(),
            static_fields: self.static_fields.deep_view(),
            methods: self.methods.deep_view(),
            parents: self.parents.deep_view(),
            generics: self.generics.deep_view(),
            generics_where: self.generics_where.deep_view(),
            sealed: self.sealed,
        }
    }
}

impl ClassBuilder {
    /// A builder for the class `name` of `package`: in the package's
    /// namespace, with the package's visibility for types, sealed, empty.
    pub fn new(package: &PackageBuilder, name: &str) -> (r: Self)
        ensures
            r@ == ClassBuilderView::fresh(package@, name@),
    {
        let defaults = package.get_defaults();
        let r = Self {
            defaults,
            attrs: empty_vec(),
            name: String::from_str(name),
            namespace: package.get_namespace(),
            vis: defaults.type_visibility,
            constructors: empty_vec(),
            properties: empty_vec(),
            fields: empty_vec(),
            static_properties: empty_vec(),
            static_fields: empty_vec(),
            methods: empty_vec(),
            parents: empty_vec(),
            generics: empty_vec(),
            generics_where: empty_vec(),
            sealed: true,
        };
        r
    }

    /// Adds a parent: a class or an interface that this class inherits from.
    pub fn inherits(self, parent: TypeRef) -> (r: Self)
        ensures
            r@ == (ClassBuilderView { parents: self@.parents.push(parent@), ..self@ }),
    {
        let mut b = self;
        b.parents.push(parent);
        assert(b.parents.deep_view() =~= self.parents.deep_view().push(parent@));
        b
    }

    /// Opens the class: others may inherit from it, and it may have
    /// virtual methods.
    pub fn open(self) -> (r: Self)
        ensures
            r@ == (ClassBuilderView { sealed: false, ..self@ }),
    {
        let mut b = self;
        b.sealed = false;
        b
    }

    pub fn add_constructor(self) -> (r: ConstructorBuilder<Self>)
        ensures
            r@ == (crate::builder::constructor_builder::ConstructorBuilderView {
                parent: self@,
                attrs: Seq::empty(),
                vis: self@.defaults.constructor_visibility,
                arg_attrs: Seq::empty(),
                args: Seq::empty(),
            }),
    {
        ConstructorBuilder::new(self)
    }

    pub fn add_property(self, prop_type: TypeRef, name: &str) -> (r: PropertyBuilder<Self>)
        ensures
            r@ == (crate::builder::property_builder::PropertyBuilderView {
                parent: self@,
                is_static: false,
                attrs: Seq::empty(),
                getter_visibility: self@.defaults.member_visibility,
                setter_visibility: None,
                prop_type: prop_type@,
                name: name@,
            }),
    {
        PropertyBuilder::new(self, false, prop_type, name)
    }

    pub fn add_field(self, field_type: TypeRef, name: &str) -> (r: FieldBuilder<Self>)
        ensures
            r@ == (crate::builder::field_builder::FieldBuilderView {
                parent: self@,
                is_static: false,
                attrs: Seq::empty(),
                visibility: self@.defaults.member_visibility,
                field_type: field_type@,
                default_value: None,
                name: name@,
            }),
    {
        FieldBuilder::new(self, false, field_type, name)
    }

    pub fn add_static_property(self, prop_type: TypeRef, name: &str) -> (r: PropertyBuilder<Self>)
        ensures
            r@ == (crate::builder::property_builder::PropertyBuilderView {
                parent: self@,
                is_static: true,
                attrs: Seq::empty(),
                getter_visibility: self@.defaults.member_visibility,
                setter_visibility: None,
                prop_type: prop_type@,
                name: name@,
            }),
    {
        PropertyBuilder::new(self, true, prop_type, name)
    }

    pub fn add_static_field(self, field_type: TypeRef, name: &str) -> (r: FieldBuilder<Self>)
        ensures
            r@ == (crate::builder::field_builder::FieldBuilderView {
                parent: self@,
                is_static: true,
                attrs: Seq::empty(),
                visibility: self@.defaults.member_visibility,
                field_type: field_type@,
                default_value: None,
                name: name@,
            }),
    {
        FieldBuilder::new(self, true, field_type, name)
    }

    pub fn add_method(self, name: &str) -> (r: MethodBuilder<Self>)
        ensures
            r@ == (crate::builder::method_builder::MethodBuilderView {
                parent: self@,
                attrs: Seq::empty(),
                vis: self@.defaults.method_visibility,
                name: name@,
                arg_attrs: Seq::empty(),
                args: Seq::empty(),
                return_type: None,
                generics: Seq::empty(),
                generics_where: Seq::empty(),
                kind: MethodKind::Default,
            }),
    {
        MethodBuilder::new(self, name)
    }
}

impl TypeBuilder for ClassBuilder {
    open spec fn with_type_attribute(v: Self::V, attribute: AttributeView) -> Self::V {
        ClassBuilderView { attrs: v.attrs.push(attribute), ..v }
    }

    open spec fn with_visibility(v: Self::V, vis: Visibility) -> Self::V {
        ClassBuilderView { vis, ..v }
    }

    open spec fn with_defaults(v: Self::V, defaults: Defaults) -> Self::V {
        ClassBuilderView { defaults, ..v }
    }

    open spec fn built(v: Self::V) -> TypeView {
        TypeView {
            attrs: v.attrs,
            vis: v.vis,
            namespace: v.namespace,
            name: v.name,
            id: type_id(full_name(v.namespace, v.name)),
            generics: GenericsView(v.generics, v.generics_where),
            kind: TypeKindView::Class {
                is_sealed: v.sealed,
                constructors: v.constructors,
                properties: v.properties,
                fields: v.fields,
                static_properties: v.static_properties,
                static_fields: v.static_fields,
                methods: v.methods,
                parents: v.parents,
            },
        }
    }

    fn add_attribute(self, attr: Attribute) -> (r: Self) {
        let mut b = self;
        b.attrs.push(attr);
        assert(b.attrs.deep_view() =~= self.attrs.deep_view().push(attr@));
        b
    }

    fn set_visibility(self, vis: Visibility) -> (r: Self) {
        let mut b = self;
        b.vis = vis;
        b
    }

    fn take_defaults(self, package: &PackageBuilder) -> (r: Self) {
        let mut b = self;
        b.defaults = package.get_defaults();
        b
    }

    fn get_type(&self) -> (t: Type) {
        let full = make_full_name(self.namespace.as_str(), self.name.as_str());
        Type {
            attrs: self.attrs.clone(),
            vis: self.vis,
            namespace: self.namespace.clone(),
            name: self.name.clone(),
            id: generate_type_id(full.as_str()),
            generics: Generics(
                self.generics.clone(),
                crate::model::clone_bounds(&self.generics_where),
            ),
            kind: TypeKind::Class {
                is_sealed: self.sealed,
                constructors: self.constructors.clone(),
                properties: self.properties.clone(),
                fields: self.fields.clone(),
                static_properties: self.static_properties.clone(),
                static_fields: self.static_fields.clone(),
                methods: self.methods.clone(),
                parents: self.parents.clone(),
            },
        }
    }

    fn build(self, package: &mut PackageBuilder) -> (t: Type) {
        let result = self.get_type();
        package.add_type(result.clone());
        result
    }
}

impl GenericsCollector for ClassBuilder {
    open spec fn declared(v: Self::V) -> Seq<Seq<char>> {
        v.generics
    }

    open spec fn with_generic(v: Self::V, generic: Seq<char>) -> Self::V {
        ClassBuilderView { generics: v.generics.push(generic), ..v }
    }

    open spec fn with_where(v: Self::V, statement: (Seq<char>, TypeRefView)) -> Self::V {
        ClassBuilderView { generics_where: v.generics_where.push(statement), ..v }
    }

    fn generic(self, generic: String) -> (r: Self) {
        let mut b = self;
        b.generics.push(generic);
        assert(b.generics.deep_view() =~= self.generics.deep_view().push(generic@));
        b
    }

    fn generic_where(self, statement: (String, TypeRef)) -> (r: Result<Self, Refused<Self>>) {
        if !contains_name(&self.generics, statement.0.as_str()) {
            return Err(
                Refused {
                    builder: self,
                    violation: BuildInvariantViolation::UnknownGeneric(statement.0),
                },
            );
        }
        let mut b = self;
        let ghost added = (statement.0@, statement.1@);
        b.generics_where.push(statement);
        assert(b.generics_where.deep_view() =~= self.generics_where.deep_view().push(added));
        Ok(b)
    }
}

impl ConstructorCollector for ClassBuilder {
    open spec fn constructor_visibility(v: Self::V) -> Visibility {
        v.defaults.constructor_visibility
    }

    open spec fn with_constructor(v: Self::V, constructor: ConstructorView) -> Self::V {
        ClassBuilderView { constructors: v.constructors.push(constructor), ..v }
    }

    fn get_default_visibility(&self) -> (vis: Visibility) {
        self.defaults.constructor_visibility
    }

    fn add_constructor(&mut self, constructor: Constructor) {
        self.constructors.push(constructor);
        assert(self.constructors.deep_view() =~= old(self).constructors.deep_view().push(
            constructor@,
        ));
    }
}

impl PropertyCollector for ClassBuilder {
    open spec fn holds_static_properties() -> bool {
        true
    }

    open spec fn property_visibility(v: Self::V) -> Visibility {
        v.defaults.member_visibility
    }

    open spec fn allows_property(v: Self::V, property: PropertyView) -> bool {
        true
    }

    open spec fn with_property(v: Self::V, property: PropertyView) -> Self::V {
        ClassBuilderView { properties: v.properties.push(property), ..v }
    }

    open spec fn with_static_property(v: Self::V, property: PropertyView) -> Self::V {
        ClassBuilderView { static_properties: v.static_properties.push(property), ..v }
    }

    fn get_default_visibility(&self) -> (vis: Visibility) {
        self.defaults.member_visibility
    }

    fn add_property(&mut self, property: Property) -> (r: Result<(), BuildInvariantViolation>) {
        self.properties.push(property);
        assert(self.properties.deep_view() =~= old(self).properties.deep_view().push(property@));
        Ok(())
    }

    fn add_static_property(&mut self, property: Property) {
        self.static_properties.push(property);
        assert(self.static_properties.deep_view() =~= old(self).static_properties.deep_view().push(
            property@,
        ));
    }
}

impl FieldCollector for ClassBuilder {
    open spec fn holds_static_fields() -> bool {
        true
    }

    open spec fn field_visibility(v: Self::V) -> Visibility {
        v.defaults.member_visibility
    }

    open spec fn with_field(v: Self::V, field: FieldView) -> Self::V {
        ClassBuilderView { fields: v.fields.push(field), ..v }
    }

    open spec fn with_static_field(v: Self::V, field: FieldView) -> Self::V {
        ClassBuilderView { static_fields: v.static_fields.push(field), ..v }
    }

    fn get_default_visibility(&self) -> (vis: Visibility) {
        self.defaults.member_visibility
    }

    fn add_field(&mut self, field: Field) {
        self.fields.push(field);
        assert(self.fields.deep_view() =~= old(self).fields.deep_view().push(field@));
    }

    fn add_static_field(&mut self, field: Field) {
        self.static_fields.push(field);
        assert(self.static_fields.deep_view() =~= old(self).static_fields.deep_view().push(field@));
    }
}

impl MethodCollector for ClassBuilder {
    open spec fn method_visibility(v: Self::V) -> Visibility {
        v.defaults.method_visibility
    }

    /// A sealed class has default and static methods; an open class has
    /// virtual methods too. No class has abstract methods.
    open spec fn supports_kind(v: Self::V, kind: MethodKind) -> bool {
        kind == MethodKind::Default || kind == MethodKind::Static || (!v.sealed && kind
            == MethodKind::Virtual)
    }

    open spec fn allows_method(v: Self::V, method: MethodView) -> bool {
        true
    }

    open spec fn with_method(v: Self::V, method: MethodView) -> Self::V {
        ClassBuilderView { methods: v.methods.push(method), ..v }
    }

    fn get_default_visibility(&self) -> (vis: Visibility) {
        self.defaults.method_visibility
    }

    fn get_supported_kinds(&self) -> (kinds: Vec<MethodKind>) {
        let mut kinds: Vec<MethodKind> = Vec::new();
        kinds.push(MethodKind::Default);
        kinds.push(MethodKind::Static);
        if !self.sealed {
            kinds.push(MethodKind::Virtual);
        }
        assert forall|kind: MethodKind| kinds@.contains(kind) <==> Self::supports_kind(
            self@,
            kind,
        ) by {
            if kinds@.contains(kind) {
                let i = choose|i: int| 0 <= i < kinds@.len() && kinds@[i] == kind;
            }
            if Self::supports_kind(self@, kind) {
                if kind == MethodKind::Default {
                    assert(kinds@[0] == kind);
                } else if kind == MethodKind::Static {
                    assert(kinds@[1] == kind);
                } else {
                    assert(kinds@[2] == kind);
                }
            }
        }
        kinds
    }

    fn add_method(&mut self, method: Method) -> (r: Result<(), BuildInvariantViolation>) {
        self.methods.push(method);
        assert(self.methods.deep_view() =~= old(self).methods.deep_view().push(method@));
        Ok(())
    }
}

} // verus!
