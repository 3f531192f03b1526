use vstd::prelude::*;

use crate::builder::{
    contains_name, empty_vec, AttributeCollector, BuildInvariantViolation,
    BuildInvariantViolationView, GenericsCollector, Refused,
};
use crate::ids::{generate_method_id, method_id};
use crate::model::{
    Argument, ArgumentKind, ArgumentKindView, ArgumentView, Attribute, AttributeView, Generics,
    GenericsView, Method, MethodKind, MethodView, TypeRef, TypeRefView, Value, Visibility,
};

verus! {

/// A type builder that collects methods.
pub trait MethodCollector: View + Sized {
    /// The visibility of a method that does not say its own.
    spec fn method_visibility(v: Self::V) -> Visibility;

    /// Whether the collector has methods of this kind.
    spec fn supports_kind(v: Self::V, kind: MethodKind) -> bool;

    /// Whether the collector takes this method.
    spec fn allows_method(v: Self::V, method: MethodView) -> bool;

    /// The collector with one more method.
    spec fn with_method(v: Self::V, method: MethodView) -> Self::V;

    fn get_default_visibility(&self) -> (vis: Visibility)
        ensures
            vis == Self::method_visibility(self@),
    ;

    /// The kinds of method that the collector has, each once.
    fn get_supported_kinds(&self) -> (kinds: Vec<MethodKind>)
        ensures
            forall|kind: MethodKind| kinds@.contains(kind) <==> Self::supports_kind(self@, kind),
            kinds@.no_duplicates(),
    ;

    /// Appends the method, unless the collector does not take it: then
    /// nothing changes.
    fn add_method(&mut self, method: Method) -> (r: Result<(), BuildInvariantViolation>)
        ensures
            match r {
                Ok(_) => Self::allows_method(old(self)@, method@) && final(self)@
                    == Self::with_method(old(self)@, method@),
                Err(e) => !Self::allows_method(old(self)@, method@) && final(self)@ == old(self)@
                    && e@ == BuildInvariantViolationView::PrivateInterfaceMember,
            },
    ;
}

/// Builds one method of the type that `T` builds.
#[derive(Debug)]
pub struct MethodBuilder<T: MethodCollector> {
    builder: T,
    attrs: Vec<Attribute>,
    vis: Visibility,
    name: String,
    arg_attrs: Vec<Attribute>,
    args: Vec<Argument>,
    return_type: Option<TypeRef>,
    generics: Vec<String>,
    generics_where: Vec<(String, TypeRef)>,
    kind: MethodKind,
}

pub ghost struct MethodBuilderView<P> {
    pub parent: P,
    pub attrs: Seq<AttributeView>,
    pub vis: Visibility,
    pub name: Seq<char>,
    /// The attributes that wait for the next argument.
    pub arg_attrs: Seq<AttributeView>,
    pub args: Seq<ArgumentView>,
    pub return_type: Option<TypeRefView>,
    pub generics: Seq<Seq<char>>,
    pub generics_where: Seq<(Seq<char>, TypeRefView)>,
    pub kind: MethodKind,
}

impl<P> MethodBuilderView<P> {
    /// The builder with one more argument, which takes the waiting attributes.
    pub open spec fn with_argument(
        self,
        arg_type: TypeRefView,
        name: Seq<char>,
        kind: ArgumentKindView,
    ) -> Self {
        MethodBuilderView {
            args: self.args.push(ArgumentView(self.arg_attrs, arg_type, name, kind)),
            arg_attrs: Seq::empty(),
            ..self
        }
    }

    /// The method that the builder would build now: its id is the method id
    /// of its name and its arguments.
    pub open spec fn method(self) -> MethodView {
        MethodView {
            attrs: self.attrs,
            vis: self.vis,
            name: self.name,
            id: method_id(self.name, self.args),
            generics: GenericsView(self.generics, self.generics_where),
            args: self.args,
            return_type: self.return_type,
            kind: self.kind,
        }
    }
}

impl<T: MethodCollector> View for MethodBuilder<T> {
    type V = MethodBuilderView<T::V>;

    closed spec fn view(&self) -> MethodBuilderView<T::V> {
        MethodBuilderView {
            parent: self.builder@,
            attrs: self.attrs.deep_view(),
            vis: self.vis,
            name: self.name@,
            arg_attrs: self.arg_attrs.deep_view(),
            args: self.args.deep_view(),
            return_type: self.return_type.deep_view(),
            generics: self.generics.deep_view(),
            generics_where: self.generics_where.deep_view(),
            kind: self.kind,
        }
    }
}

/// Whether `kind` is one of `kinds`.
fn contains_kind(kinds: &Vec<MethodKind>, kind: MethodKind) -> (found: bool)
    ensures
        found == kinds@.contains(kind),
{
    let mut i: usize = 0;
    while i < kinds.len()
        invariant
            i <= kinds.len(),
            forall|j: int| 0 <= j < i ==> kinds@[j] != kind,
        decreases kinds.len() - i,
    {
        if kinds[i] == kind {
            return true;
        }
        i += 1;
    }
    false
}

impl<T: MethodCollector> MethodBuilder<T> {
    /// A builder for the method `name` of `builder`'s type: of the default
    /// kind, with the visibility that the type gives to methods, without
    /// arguments, returning nothing.
    pub fn new(builder: T, name: &str) -> (r: Self)
        ensures
            r@ == (MethodBuilderView {
                parent: builder@,
                attrs: Seq::empty(),
                vis: T::method_visibility(builder@),
                name: name@,
                arg_attrs: Seq::empty(),
                args: Seq::empty(),
                return_type: None,
                generics: Seq::empty(),
                generics_where: Seq::empty(),
                kind: MethodKind::Default,
            }),
    {
        let vis = builder.get_default_visibility();
        let r = Self {
            builder,
            attrs: empty_vec(),
            vis,
            name: String::from_str(name),
            arg_attrs: empty_vec(),
            args: empty_vec(),
            return_type: None,
            generics: empty_vec(),
            generics_where: empty_vec(),
            kind: MethodKind::Default,
        };
        r
    }

    /// A builder like that of `new`, but for a method of the given kind,
    /// which the collecting type supports.
    pub(crate) fn of_kind(builder: T, name: &str, kind: MethodKind) -> (r: Self)
        requires
            T::supports_kind(builder@, kind),
        ensures
            r@ == (MethodBuilderView {
                parent: builder@,
                attrs: Seq::empty(),
                vis: T::method_visibility(builder@),
                name: name@,
                arg_attrs: Seq::empty(),
                args: Seq::empty(),
                return_type: None,
                generics: Seq::empty(),
                generics_where: Seq::empty(),
                kind,
            }),
    {
        let mut r = Self::new(builder, name);
        r.kind = kind;
        r
    }

    pub fn set_visibility(self, vis: Visibility) -> (r: Self)
        ensures
            r@ == (MethodBuilderView { vis, ..self@ }),
    {
        let mut b = self;
        b.vis = vis;
        b
    }

    /// Sets the kind of the method, which must be one that the collecting
    /// type supports. Where it is not, the builder comes back as it was.
    pub fn set_kind(self, kind: MethodKind) -> (r: Result<Self, Refused<Self>>)
        ensures
            match r {
                Ok(b) => T::supports_kind(self@.parent, kind) && b@ == (MethodBuilderView {
                    kind,
                    ..self@
                }),
                Err(refused) => !T::supports_kind(self@.parent, kind) && refused.violation@
                    == BuildInvariantViolationView::UnsupportedMethodKind(kind) && refused.builder@
                    == self@,
            },
    {
        let kinds = self.builder.get_supported_kinds();
        if !contains_kind(&kinds, kind) {
            return Err(
                Refused {
                    builder: self,
                    violation: BuildInvariantViolation::UnsupportedMethodKind(kind),
                },
            );
        }
        let mut b = self;
        b.kind = kind;
        Ok(b)
    }

    /// Sets what the method returns. A method of which this is not called
    /// returns nothing.
    pub fn return_type(self, return_type: TypeRef) -> (r: Self)
        ensures
            r@ == (MethodBuilderView { return_type: Some(return_type@), ..self@ }),
    {
        let mut b = self;
        b.return_type = Some(return_type);
        b
    }

    /// Puts an attribute on the next argument.
    pub fn arg_attribute(self, attribute: Attribute) -> (r: Self)
        ensures
            r@ == (MethodBuilderView { arg_attrs: self@.arg_attrs.push(attribute@), ..self@ }),
    {
        let mut b = self;
        b.arg_attrs.push(attribute);
        assert(b.arg_attrs.deep_view() =~= self.arg_attrs.deep_view().push(attribute@));
        b
    }

    fn add_argument(self, arg_type: TypeRef, name: &str, kind: ArgumentKind) -> (r: Self)
        ensures
            r@ == self@.with_argument(arg_type@, name@, kind@),
    {
        let mut b = self;
        let mut attrs: Vec<Attribute> = Vec::new();
        std::mem::swap(&mut attrs, &mut b.arg_attrs);
        let arg = Argument(attrs, arg_type, String::from_str(name), kind);
        b.args.push(arg);
        assert(b.args.deep_view() =~= self.args.deep_view().push(arg@));
        assert(b.arg_attrs.deep_view() =~= Seq::<AttributeView>::empty());
        b
    }

    /// Adds an argument that is passed by value.
    pub fn arg(self, arg_type: TypeRef, name: &str) -> (r: Self)
        ensures
            r@ == self@.with_argument(arg_type@, name@, ArgumentKindView::Default),
    {
        self.add_argument(arg_type, name, ArgumentKind::Default)
    }

    /// Adds an argument that is passed by value and may be left out.
    pub fn arg_value(self, arg_type: TypeRef, name: &str, default_value: Value) -> (r: Self)
        ensures
            r@ == self@.with_argument(
                arg_type@,
                name@,
                ArgumentKindView::DefaultValue(default_value@),
            ),
    {
        self.add_argument(arg_type, name, ArgumentKind::DefaultValue(default_value))
    }

    /// Adds an argument that is passed by reference, to be written only.
    pub fn arg_out(self, arg_type: TypeRef, name: &str) -> (r: Self)
        ensures
            r@ == self@.with_argument(arg_type@, name@, ArgumentKindView::Out),
    {
        self.add_argument(arg_type, name, ArgumentKind::Out)
    }

    /// Adds an argument that is passed by reference, to be read and written.
    pub fn arg_ref(self, arg_type: TypeRef, name: &str) -> (r: Self)
        ensures
            r@ == self@.with_argument(arg_type@, name@, ArgumentKindView::Ref),
    {
        self.add_argument(arg_type, name, ArgumentKind::Ref)
    }

    /// Adds an argument that is passed by reference, to be read only.
    pub fn arg_in(self, arg_type: TypeRef, name: &str) -> (r: Self)
        ensures
            r@ == self@.with_argument(arg_type@, name@, ArgumentKindView::In),
    {
        self.add_argument(arg_type, name, ArgumentKind::In)
    }

    /// The method as it stands.
    pub fn get_method(&self) -> (method: Method)
        ensures
            method@ == self@.method(),
    {
        Method {
            attrs: self.attrs.clone(),
            vis: self.vis,
            name: self.name.clone(),
            id: generate_method_id(self.name.as_str(), &self.args),
            generics: Generics(
                self.generics.clone(),
                crate::model::clone_bounds(&self.generics_where),
            ),
            args: self.args.clone(),
            return_type: match &self.return_type {
                Some(t) => Some(t.clone()),
                None => None,
            },
            kind: self.kind,
        }
    }

    /// Gives the type builder back as it was, without the method.
    pub fn into_parent(self) -> (parent: T)
        ensures
            parent@ == self@.parent,
    {
        self.builder
    }

    /// Finishes the method: appends it to the type's methods and gives the
    /// type builder back. A method that the type does not take is an error,
    /// with which the type builder comes back as it was, without the method.
    pub fn build(self) -> (r: Result<T, Refused<T>>)
        ensures
            match r {
                Ok(parent) => T::allows_method(self@.parent, self@.method()) && parent@
                    == T::with_method(self@.parent, self@.method()),
                Err(refused) => !T::allows_method(self@.parent, self@.method())
                    && refused.violation@ == BuildInvariantViolationView::PrivateInterfaceMember
                    && refused.builder@ == self@.parent,
            },
    {
        let method = self.get_method();
        let mut parent = self.builder;
        match parent.add_method(method) {
            Ok(_) => Ok(parent),
            Err(e) => Err(Refused { builder: parent, violation: e }),
        }
    }
}

impl<T: MethodCollector> GenericsCollector for MethodBuilder<T> {
    open spec fn declared(v: Self::V) -> Seq<Seq<char>> {
        v.generics
    }

    open spec fn with_generic(v: Self::V, generic: Seq<char>) -> Self::V {
        MethodBuilderView { generics: v.generics.push(generic), ..v }
    }

    open spec fn with_where(v: Self::V, statement: (Seq<char>, TypeRefView)) -> Self::V {
        MethodBuilderView { generics_where: v.generics_where.push(statement), ..v }
    }

    fn generic(self, generic: String) -> (r: Self) {
        let mut b = self;
        b.generics.push(generic);
        assert(b.generics.deep_view() =~= self.generics.deep_view().push(generic@));
        b
    }

    fn generic_where(self, statement: (String, TypeRef)) -> (r: Result<Self, Refused<Self>>) {
        if !contains_name(&self.generics, statement.0.as_str()) {
            return Err(
                Refused {
                    builder: self,
                    violation: BuildInvariantViolation::UnknownGeneric(statement.0),
                },
            );
        }
        let mut b = self;
        let ghost added = (statement.0@, statement.1@);
        b.generics_where.push(statement);
        assert(b.generics_where.deep_view() =~= self.generics_where.deep_view().push(added));
        Ok(b)
    }
}

impl<T: MethodCollector> AttributeCollector for MethodBuilder<T> {
    open spec fn with_attribute(v: Self::V, attribute: AttributeView) -> Self::V {
        MethodBuilderView { attrs: v.attrs.push(attribute), ..v }
    }

    fn add_attribute(self, attribute: Attribute) -> (r: Self) {
        let mut b = self;
        b.attrs.push(attribute);
        assert(b.attrs.deep_view() =~= self.attrs.deep_view().push(attribute@));
        b
    }
}

} // verus!
