//! Builders for the metadata model.
//!
//! A `PackageBuilder` collects types. A type builder is made for a package,
//! collects members through member builders, and is consumed when it is
//! built: the finished type is appended to the package. A member builder
//! takes its parent by value and gives it back from `build`, with the
//! finished member appended. The rules that a model must obey are checked
//! here, where it is made, and a broken rule is an error, not a panic.
use vstd::prelude::*;

use crate::ids::{generate_package_id, package_id};
use crate::model::{
    Attribute, AttributeView, MethodKind, Package, PackageView, Type, TypeRef, TypeRefView,
    TypeView, Visibility,
};
use crate::naming::{
    converted, NamingConventions, NamingConventionsView, NamingError, NamingErrorView,
};

pub mod alias_builder;
pub mod class_builder;
pub mod constructor_builder;
pub mod enum_builder;
pub mod field_builder;
pub mod interface_builder;
pub mod method_builder;
pub mod property_builder;
pub mod struct_builder;

pub use crate::builder::alias_builder::TypeAliasBuilder;
pub use crate::builder::class_builder::ClassBuilder;
pub use crate::builder::constructor_builder::{ConstructorBuilder, ConstructorCollector};
pub use crate::builder::enum_builder::{
    BitflagsBuilder, EnumBuilder, EnumClassBuilder, VariantBuilder,
};
pub use crate::builder::field_builder::{FieldBuilder, FieldCollector};
pub use crate::builder::interface_builder::InterfaceBuilder;
pub use crate::builder::method_builder::{MethodBuilder, MethodCollector};
pub use crate::builder::property_builder::{PropertyBuilder, PropertyCollector};
pub use crate::builder::struct_builder::StructBuilder;

verus! {

/// A rule of the model that a builder was asked to break.
#[derive(Debug)]
pub enum BuildInvariantViolation {
    /// A member of an interface would be private to everyone: a method whose
    /// visibility is private, or a property of which neither the getter nor
    /// the setter is more than private.
    PrivateInterfaceMember,
    /// A `where` bound names a generic parameter that was not declared.
    UnknownGeneric(String),
    /// The type that collects the method has no methods of this kind.
    UnsupportedMethodKind(MethodKind),
}

pub ghost enum BuildInvariantViolationView {
    PrivateInterfaceMember,
    UnknownGeneric(Seq<char>),
    UnsupportedMethodKind(MethodKind),
}

impl View for BuildInvariantViolation {
    type V = BuildInvariantViolationView;

    open spec fn view(&self) -> BuildInvariantViolationView {
        match self {
            BuildInvariantViolation::PrivateInterfaceMember =>
                BuildInvariantViolationView::PrivateInterfaceMember,
            BuildInvariantViolation::UnknownGeneric(name) =>
                BuildInvariantViolationView::UnknownGeneric(name@),
            BuildInvariantViolation::UnsupportedMethodKind(kind) =>
                BuildInvariantViolationView::UnsupportedMethodKind(*kind),
        }
    }
}

/// A step that a builder refused: the builder as it was before the step,
/// with which the work can go on, and why it refused.
#[derive(Debug)]
pub struct Refused<B> {
    pub builder: B,
    pub violation: BuildInvariantViolation,
}

/// The visibilities that a package gives to what does not say its own.
#[derive(PartialEq, Eq, Structural, Debug, Clone, Copy)]
pub struct Defaults {
    /// For types.
    pub type_visibility: Visibility,
    /// For constructors.
    pub constructor_visibility: Visibility,
    /// For properties, fields and variants.
    pub member_visibility: Visibility,
    /// For methods.
    pub method_visibility: Visibility,
}

/// The full name of a type: its namespace, a dot, its name.
pub open spec fn full_name(namespace: Seq<char>, name: Seq<char>) -> Seq<char> {
    namespace.push('.') + name
}

/// The full name of a type: its namespace, a dot, its name.
pub fn make_full_name(namespace: &str, name: &str) -> (full: String)
    ensures
        full@ == full_name(namespace@, name@),
{
    let mut full = String::from_str(namespace);
    crate::text::push_char(&mut full, '.');
    full.append(name);
    full
}

/// An empty vector, whose view is the empty sequence.
pub(crate) fn empty_vec<T: DeepView>() -> (v: Vec<T>)
    ensures
        v.deep_view() == Seq::<T::V>::empty(),
{
    let v: Vec<T> = Vec::new();
    assert(v.deep_view() =~= Seq::<T::V>::empty());
    v
}

/// Whether `name` is one of `names`.
pub fn contains_name(names: &Vec<String>, name: &str) -> (found: bool)
    ensures
        found == names.deep_view().contains(name@),
{
    let mut i: usize = 0;
    while i < names.len()
        invariant
            i <= names.len(),
            forall|j: int| 0 <= j < i ==> names.deep_view()[j] != name@,
        decreases names.len() - i,
    {
        if crate::builder::same_text(names[i].as_str(), name) {
            assert(names.deep_view()[i as int] == name@);
            return true;
        }
        i += 1;
    }
    false
}

/// Whether two strings hold the same characters.
pub fn same_text(a: &str, b: &str) -> (same: bool)
    ensures
        same == (a@ == b@),
{
    let a = String::from_str(a);
    let b = String::from_str(b);
    a == b
}

/// Collects the attributes of a package, a type or a member.
pub trait AttributeCollector: View + Sized {
    /// The collector with one more attribute.
    spec fn with_attribute(v: Self::V, attribute: AttributeView) -> Self::V;

    fn add_attribute(self, attribute: Attribute) -> (r: Self)
        ensures
            r@ == Self::with_attribute(self@, attribute@),
    ;
}

/// Collects generic parameters and their `where` bounds.
pub trait GenericsCollector: View + Sized {
    /// The generic parameters declared so far.
    spec fn declared(v: Self::V) -> Seq<Seq<char>>;

    /// The collector with one more generic parameter.
    spec fn with_generic(v: Self::V, generic: Seq<char>) -> Self::V;

    /// The collector with one more `where` bound.
    spec fn with_where(v: Self::V, statement: (Seq<char>, TypeRefView)) -> Self::V;

    /// Declares a generic parameter.
    fn generic(self, generic: String) -> (r: Self)
        ensures
            r@ == Self::with_generic(self@, generic@),
            Self::declared(r@) == Self::declared(self@).push(generic@),
    ;

    /// Adds the bound `where statement.0: statement.1`. The bounded name
    /// must be a generic parameter declared before; where it is not, the
    /// collector comes back as it was.
    fn generic_where(self, statement: (String, TypeRef)) -> (r: Result<Self, Refused<Self>>)
        ensures
            match r {
                Ok(c) => Self::declared(self@).contains(statement.0@) && c@ == Self::with_where(
                    self@,
                    (statement.0@, statement.1@),
                ) && Self::declared(c@) == Self::declared(self@),
                Err(refused) => !Self::declared(self@).contains(statement.0@) && refused.violation@
                    == BuildInvariantViolationView::UnknownGeneric(statement.0@) && refused.builder@
                    == self@,
            },
    ;
}

/// The collector with each of `generics` declared, in order.
pub open spec fn with_generics<T: GenericsCollector>(v: T::V, generics: Seq<Seq<char>>) -> T::V
    decreases generics.len(),
{
    if generics.len() == 0 {
        v
    } else {
        T::with_generic(with_generics::<T>(v, generics.drop_last()), generics.last())
    }
}

/// The collector with each of `wheres` added, in order, or the violation of
/// the first bound whose name is not declared.
pub open spec fn with_wheres<T: GenericsCollector>(
    v: T::V,
    wheres: Seq<(Seq<char>, TypeRefView)>,
) -> Result<T::V, BuildInvariantViolationView>
    decreases wheres.len(),
{
    if wheres.len() == 0 {
        Ok(v)
    } else {
        match with_wheres::<T>(v, wheres.drop_last()) {
            Err(e) => Err(e),
            Ok(done) => if T::declared(done).contains(wheres.last().0) {
                Ok(T::with_where(done, wheres.last()))
            } else {
                Err(BuildInvariantViolationView::UnknownGeneric(wheres.last().0))
            },
        }
    }
}

/// The collector with the bounds of `wheres` that come before the first
/// whose name is not declared: all of them, where there is none such.
pub open spec fn wheres_taken<T: GenericsCollector>(
    v: T::V,
    wheres: Seq<(Seq<char>, TypeRefView)>,
) -> T::V
    decreases wheres.len(),
{
    if wheres.len() == 0 {
        v
    } else {
        match with_wheres::<T>(v, wheres.drop_last()) {
            Err(_) => wheres_taken::<T>(v, wheres.drop_last()),
            Ok(done) => if T::declared(done).contains(wheres.last().0) {
                T::with_where(done, wheres.last())
            } else {
                done
            },
        }
    }
}

/// An error among the first `k` bounds is the error of the whole sequence,
/// and no bound after it is taken.
pub proof fn lemma_first_violation_stands<T: GenericsCollector>(
    v: T::V,
    wheres: Seq<(Seq<char>, TypeRefView)>,
    k: int,
)
    requires
        0 <= k <= wheres.len(),
        with_wheres::<T>(v, wheres.take(k)) is Err,
    ensures
        with_wheres::<T>(v, wheres) == with_wheres::<T>(v, wheres.take(k)),
        wheres_taken::<T>(v, wheres) == wheres_taken::<T>(v, wheres.take(k)),
    decreases wheres.len() - k,
{
    if k == wheres.len() {
        assert(wheres.take(k) =~= wheres);
    } else {
        assert(wheres.take(k + 1).drop_last() =~= wheres.take(k));
        lemma_first_violation_stands::<T>(v, wheres, k + 1);
    }
}

/// Declares each of `names`, in order.
pub fn generics<T: GenericsCollector>(builder: T, names: Vec<String>) -> (r: T)
    ensures
        r@ == with_generics::<T>(builder@, names.deep_view()),
{
    let mut builder = builder;
    let ghost start = builder@;
    let ghost all = names.deep_view();
    let mut i: usize = 0;
    while i < names.len()
        invariant
            i <= names.len(),
            all == names.deep_view(),
            builder@ == with_generics::<T>(start, all.take(i as int)),
        decreases names.len() - i,
    {
        builder = builder.generic(names[i].clone());
        i += 1;
        assert(all.take(i as int).drop_last() =~= all.take(i - 1));
    }
    assert(all.take(names.len() as int) =~= all);
    builder
}

/// Adds each of `statements`, in order, and stops at the first bound whose
/// name is not declared: the collector then comes back with the bounds
/// before that one.
pub fn generic_wheres<T: GenericsCollector>(
    builder: T,
    statements: Vec<(String, TypeRef)>,
) -> (r: Result<T, Refused<T>>)
    ensures
        match r {
            Ok(c) => with_wheres::<T>(builder@, statements.deep_view()) == Ok::<
                T::V,
                BuildInvariantViolationView,
            >(c@),
            Err(refused) => with_wheres::<T>(builder@, statements.deep_view()) == Err::<
                T::V,
                BuildInvariantViolationView,
            >(refused.violation@) && refused.builder@ == wheres_taken::<T>(
                builder@,
                statements.deep_view(),
            ),
        },
{
    let ghost start = builder@;
    let mut current = builder;
    let ghost all = statements.deep_view();
    let mut i: usize = 0;
    while i < statements.len()
        invariant
            i <= statements.len(),
            all == statements.deep_view(),
            start == builder@,
            with_wheres::<T>(start, all.take(i as int)) == Ok::<T::V, BuildInvariantViolationView>(
                current@,
            ),
        decreases statements.len() - i,
    {
        proof {
            assert(all.take(i + 1).drop_last() =~= all.take(i as int));
            assert(all.take(i + 1).last() == (statements@[i as int].0@, statements@[i as int].1@));
        }
        let statement = (statements[i].0.clone(), statements[i].1.clone());
        let ghost before = current@;
        match current.generic_where(statement) {
            Ok(next) => {
                current = next;
            },
            Err(refused) => {
                proof {
                    assert(!T::declared(before).contains(all.take(i + 1).last().0));
                    assert(with_wheres::<T>(start, all.take(i + 1)) == Err::<
                        T::V,
                        BuildInvariantViolationView,
                    >(refused.violation@));
                    assert(wheres_taken::<T>(start, all.take(i + 1)) == before);
                    lemma_first_violation_stands::<T>(start, all, i + 1);
                }
                return Err(refused);
            },
        }
        i += 1;
    }
    assert(all.take(statements.len() as int) =~= all);
    Ok(current)
}

/// What every type builder offers.
pub trait TypeBuilder: View + Sized {
    /// The builder with one more attribute.
    spec fn with_type_attribute(v: Self::V, attribute: AttributeView) -> Self::V;

    /// The builder with another visibility.
    spec fn with_visibility(v: Self::V, vis: Visibility) -> Self::V;

    /// The builder with other default visibilities for what is added from
    /// now on.
    spec fn with_defaults(v: Self::V, defaults: Defaults) -> Self::V;

    /// The type that the builder would build now.
    spec fn built(v: Self::V) -> TypeView;

    fn add_attribute(self, attr: Attribute) -> (r: Self)
        ensures
            r@ == Self::with_type_attribute(self@, attr@),
    ;

    fn set_visibility(self, vis: Visibility) -> (r: Self)
        ensures
            r@ == Self::with_visibility(self@, vis),
    ;

    /// Takes the package's default visibilities as they are now. A builder
    /// holds them as they were when it was made: where the package's
    /// defaults have changed since, this is how a builder under way follows.
    /// What was added before keeps its visibility, and so does the type.
    fn take_defaults(self, package: &PackageBuilder) -> (r: Self)
        ensures
            r@ == Self::with_defaults(self@, package@.defaults),
    ;

    /// The type as it stands: its id is the type id of its full name.
    fn get_type(&self) -> (t: Type)
        ensures
            t@ == Self::built(self@),
    ;

    /// Finishes the type: appends it to the package's types and returns it.
    fn build(self, package: &mut PackageBuilder) -> (t: Type)
        ensures
            t@ == Self::built(self@),
            final(package)@ == (PackageBuilderView {
                types: old(package)@.types.push(Self::built(self@)),
                ..old(package)@
            }),
    ;
}

/// Collects the types and attributes of a package.
pub struct PackageBuilder {
    name: String,
    namespace: String,
    defaults: Defaults,
    attrs: Vec<Attribute>,
    types: Vec<Type>,
    naming: NamingConventions,
}

pub ghost struct PackageBuilderView {
    pub name: Seq<char>,
    pub namespace: Seq<char>,
    pub defaults: Defaults,
    pub attrs: Seq<AttributeView>,
    pub types: Seq<TypeView>,
    pub naming: NamingConventionsView,
}

impl PackageBuilderView {
    /// The package that the builder would build now.
    pub open spec fn built(self) -> PackageView {
        PackageView {
            attrs: self.attrs,
            name: self.name,
            id: package_id(self.name),
            types: self.types,
            naming: self.naming,
        }
    }
}

impl View for PackageBuilder {
    type V = PackageBuilderView;

    closed spec fn view(&self) -> PackageBuilderView {
        PackageBuilderView {
            name: self.name@,
            namespace: self.namespace@,
            defaults: self.defaults,
            attrs: self.attrs.deep_view(),
            types: self.types.deep_view(),
            naming: self.naming@,
        }
    }
}

impl PackageBuilder {
    /// A builder for the package called `name`, which is spelled in
    /// `naming`'s package convention. The namespace starts as the name
    /// respelled in the namespace convention, every default visibility as
    /// public. Fails where `name` does not follow the package convention.
    pub fn new(name: &str, naming: NamingConventions) -> (r: Result<Self, NamingError>)
        ensures
            match r {
                Ok(b) => converted(naming@.namespace, naming@.package, name@) == Ok::<
                    Seq<char>,
                    NamingErrorView,
                >(b@.namespace) && b@ == (PackageBuilderView {
                    name: name@,
                    namespace: b@.namespace,
                    defaults: Defaults {
                        type_visibility: Visibility::Public,
                        constructor_visibility: Visibility::Public,
                        member_visibility: Visibility::Public,
                        method_visibility: Visibility::Public,
                    },
                    attrs: Seq::empty(),
                    types: Seq::empty(),
                    naming: naming@,
                }),
                Err(e) => converted(naming@.namespace, naming@.package, name@) == Err::<
                    Seq<char>,
                    NamingErrorView,
                >(e@),
            },
    {
        let namespace = match naming.namespace.from(name, &naming.package) {
            Ok(namespace) => namespace,
            Err(e) => {
                return Err(e);
            },
        };
        let b = Self {
            name: String::from_str(name),
            namespace,
            defaults: Defaults {
                type_visibility: Visibility::Public,
                constructor_visibility: Visibility::Public,
                member_visibility: Visibility::Public,
                method_visibility: Visibility::Public,
            },
            attrs: Vec::new(),
            types: Vec::new(),
            naming,
        };
        assert(b.attrs.deep_view() =~= Seq::<AttributeView>::empty());
        assert(b.types.deep_view() =~= Seq::<TypeView>::empty());
        Ok(b)
    }

    /// A builder for the package called `name` whose types live in
    /// `namespace`, with every default visibility public.
    pub fn in_namespace(name: &str, namespace: &str, naming: NamingConventions) -> (b: Self)
        ensures
            b@ == (PackageBuilderView {
                name: name@,
                namespace: namespace@,
                defaults: Defaults {
                    type_visibility: Visibility::Public,
                    constructor_visibility: Visibility::Public,
                    member_visibility: Visibility::Public,
                    method_visibility: Visibility::Public,
                },
                attrs: Seq::empty(),
                types: Seq::empty(),
                naming: naming@,
            }),
    {
        Self {
            name: String::from_str(name),
            namespace: String::from_str(namespace),
            defaults: Defaults {
                type_visibility: Visibility::Public,
                constructor_visibility: Visibility::Public,
                member_visibility: Visibility::Public,
                method_visibility: Visibility::Public,
            },
            attrs: empty_vec(),
            types: empty_vec(),
            naming,
        }
    }

    pub fn get_name(&self) -> (name: String)
        ensures
            name@ == self@.name,
    {
        self.name.clone()
    }

    pub fn set_namespace(&mut self, namespace: &str)
        ensures
            final(self)@ == (PackageBuilderView { namespace: namespace@, ..old(self)@ }),
    {
        self.namespace = String::from_str(namespace);
    }

    pub fn get_namespace(&self) -> (namespace: String)
        ensures
            namespace@ == self@.namespace,
    {
        self.namespace.clone()
    }

    /// The visibilities given to what does not say its own.
    pub fn get_defaults(&self) -> (defaults: Defaults)
        ensures
            defaults == self@.defaults,
    {
        self.defaults
    }

    pub fn set_defaults(&mut self, defaults: Defaults)
        ensures
            final(self)@ == (PackageBuilderView { defaults, ..old(self)@ }),
    {
        self.defaults = defaults;
    }

    /// Respells the package in `naming`: the name as a package name, the
    /// namespace as a namespace. Types already collected keep their names.
    /// Where the name or the namespace does not follow the present
    /// conventions, nothing changes.
    pub fn set_naming(&mut self, naming: NamingConventions) -> (r: Result<(), NamingError>)
        ensures
            match (
                converted(naming@.package, old(self)@.naming.package, old(self)@.name),
                converted(naming@.namespace, old(self)@.naming.namespace, old(self)@.namespace),
            ) {
                (Ok(name), Ok(namespace)) => r is Ok && final(self)@ == (PackageBuilderView {
                    name,
                    namespace,
                    naming: naming@,
                    ..old(self)@
                }),
                (Err(e), _) => r is Err && r->Err_0@ == e && final(self)@ == old(self)@,
                (Ok(_), Err(e)) => r is Err && r->Err_0@ == e && final(self)@ == old(self)@,
            },
    {
        let name = match naming.package.from(self.name.as_str(), &self.naming.package) {
            Ok(name) => name,
            Err(e) => {
                return Err(e);
            },
        };
        let namespace = match naming.namespace.from(
            self.namespace.as_str(),
            &self.naming.namespace,
        ) {
            Ok(namespace) => namespace,
            Err(e) => {
                return Err(e);
            },
        };
        self.name = name;
        self.namespace = namespace;
        self.naming = naming;
        Ok(())
    }

    pub fn get_naming(&self) -> (naming: NamingConventions)
        ensures
            naming@ == self@.naming,
    {
        self.naming.clone()
    }

    /// The id of the package: the package id of its name.
    pub fn get_id(&self) -> (id: u64)
        ensures
            id == package_id(self@.name),
    {
        generate_package_id(self.name.as_str())
    }

    pub fn add_type(&mut self, t: Type)
        ensures
            final(self)@ == (PackageBuilderView {
                types: old(self)@.types.push(t@),
                ..old(self)@
            }),
    {
        self.types.push(t);
        assert(self.types.deep_view() =~= old(self).types.deep_view().push(t@));
    }

    pub fn add_attribute(&mut self, attr: Attribute)
        ensures
            final(self)@ == (PackageBuilderView {
                attrs: old(self)@.attrs.push(attr@),
                ..old(self)@
            }),
    {
        self.attrs.push(attr);
        assert(self.attrs.deep_view() =~= old(self).attrs.deep_view().push(attr@));
    }

    /// The package as it stands.
    pub fn build(&self) -> (package: Package)
        ensures
            package@ == self@.built(),
    {
        Package {
            attrs: self.attrs.clone(),
            name: self.name.clone(),
            id: self.get_id(),
            types: self.types.clone(),
            naming: self.naming.clone(),
        }
    }
}

/// A builder for the class `name` of the package.
pub fn create_class(pkg_builder: &PackageBuilder, name: &str) -> (r: ClassBuilder)
    ensures
        r@ == crate::builder::class_builder::ClassBuilderView::fresh(pkg_builder@, name@),
{
    ClassBuilder::new(pkg_builder, name)
}

/// A builder for the struct `name` of the package.
pub fn create_struct(pkg_builder: &PackageBuilder, name: &str) -> (r: StructBuilder)
    ensures
        r@ == crate::builder::struct_builder::StructBuilderView::fresh(pkg_builder@, name@),
{
    StructBuilder::new(pkg_builder, name)
}

/// A builder for the enum `name` of the package.
pub fn create_enum(pkg_builder: &PackageBuilder, name: &str) -> (r: EnumBuilder)
    ensures
        r@ == crate::builder::enum_builder::EnumBuilderView::fresh(pkg_builder@, name@),
{
    EnumBuilder::new(pkg_builder, name)
}

/// A builder for the enum class `name` of the package.
pub fn create_enum_class(pkg_builder: &PackageBuilder, name: &str) -> (r: EnumClassBuilder)
    ensures
        r@ == crate::builder::enum_builder::EnumClassBuilderView::fresh(pkg_builder@, name@),
{
    EnumClassBuilder::new(pkg_builder, name)
}

/// A builder for the interface `name` of the package.
pub fn create_interface(pkg_builder: &PackageBuilder, name: &str) -> (r: InterfaceBuilder)
    ensures
        r@ == crate::builder::interface_builder::InterfaceBuilderView::fresh(pkg_builder@, name@),
{
    InterfaceBuilder::new(pkg_builder, name)
}

/// A builder for the alias `name` of the package, which stands for `alias`.
pub fn create_alias(pkg_builder: &PackageBuilder, name: &str, alias: TypeRef) -> (r:
    TypeAliasBuilder)
    ensures
        r@ == crate::builder::alias_builder::TypeAliasBuilderView::fresh(
            pkg_builder@,
            name@,
            alias@,
        ),
{
    TypeAliasBuilder::new(pkg_builder, name, alias)
}

} // verus!
