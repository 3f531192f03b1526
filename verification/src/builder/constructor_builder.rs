use vstd::prelude::*;

use crate::builder::empty_vec;
use crate::model::{
    Argument, ArgumentKind, ArgumentKindView, ArgumentView, Attribute, AttributeView, Constructor,
    ConstructorView, TypeRef, TypeRefView, Value, Visibility,
};

verus! {

/// A type builder that collects constructors.
pub trait ConstructorCollector: View + Sized {
    /// The visibility of a constructor that does not say its own.
    spec fn constructor_visibility(v: Self::V) -> Visibility;

    /// The collector with one more constructor.
    spec fn with_constructor(v: Self::V, constructor: ConstructorView) -> Self::V;

    fn get_default_visibility(&self) -> (vis: Visibility)
        ensures
            vis == Self::constructor_visibility(self@),
    ;

    fn add_constructor(&mut self, constructor: Constructor)
        ensures
            final(self)@ == Self::with_constructor(old(self)@, constructor@),
    ;
}

/// Builds one constructor of the type that `T` builds.
#[derive(Debug)]
pub struct ConstructorBuilder<T: ConstructorCollector> {
    builder: T,
    attrs: Vec<Attribute>,
    vis: Visibility,
    arg_attrs: Vec<Attribute>,
    args: Vec<Argument>,
}

pub ghost struct ConstructorBuilderView<P> {
    pub parent: P,
    pub attrs: Seq<AttributeView>,
    pub vis: Visibility,
    /// The attributes that wait for the next argument.
    pub arg_attrs: Seq<AttributeView>,
    pub args: Seq<ArgumentView>,
}

impl<P> ConstructorBuilderView<P> {
    /// The builder with one more argument, which takes the waiting attributes.
    pub open spec fn with_argument(
        self,
        arg_type: TypeRefView,
        name: Seq<char>,
        kind: ArgumentKindView,
    ) -> Self {
        ConstructorBuilderView {
            args: self.args.push(ArgumentView(self.arg_attrs, arg_type, name, kind)),
            arg_attrs: Seq::empty(),
            ..self
        }
    }

    /// The constructor that the builder would build now.
    pub open spec fn constructor(self) -> ConstructorView {
        ConstructorView { attrs: self.attrs, vis: self.vis, args: self.args }
    }
}

impl<T: ConstructorCollector> View for ConstructorBuilder<T> {
    type V = ConstructorBuilderView<T::V>;

    closed spec fn view(&self) -> ConstructorBuilderView<T::V> {
        ConstructorBuilderView {
            parent: self.builder@,
            attrs: self.attrs.deep_view(),
            vis: self.vis,
            arg_attrs: self.arg_attrs.deep_view(),
            args: self.args.deep_view(),
        }
    }
}

impl<T: ConstructorCollector> ConstructorBuilder<T> {
    /// A builder for a constructor of `builder`'s type, with the visibility
    /// that the type gives to constructors.
    pub fn new(builder: T) -> (r: Self)
        ensures
            r@ == (ConstructorBuilderView {
                parent: builder@,
                attrs: Seq::empty(),
                vis: T::constructor_visibility(builder@),
                arg_attrs: Seq::empty(),
                args: Seq::empty(),
            }),
    {
        let vis = builder.get_default_visibility();
        let r = Self {
            builder,
            attrs: empty_vec(),
            vis,
            arg_attrs: empty_vec(),
            args: empty_vec(),
        };
        r
    }

    pub fn add_attribute(self, attr: Attribute) -> (r: Self)
        ensures
            r@ == (ConstructorBuilderView { attrs: self@.attrs.push(attr@), ..self@ }),
    {
        let mut b = self;
        b.attrs.push(attr);
        assert(b.attrs.deep_view() =~= self.attrs.deep_view().push(attr@));
        b
    }

    pub fn set_visibility(self, vis: Visibility) -> (r: Self)
        ensures
            r@ == (ConstructorBuilderView { vis, ..self@ }),
    {
        let mut b = self;
        b.vis = vis;
        b
    }

    /// Puts an attribute on the next argument.
    pub fn arg_attribute(self, attribute: Attribute) -> (r: Self)
        ensures
            r@ == (ConstructorBuilderView {
                arg_attrs: self@.arg_attrs.push(attribute@),
                ..self@
            }),
    {
        let mut b = self;
        b.arg_attrs.push(attribute);
        assert(b.arg_attrs.deep_view() =~= self.arg_attrs.deep_view().push(attribute@));
        b
    }

    fn add_argument(self, arg_type: TypeRef, name: &str, kind: ArgumentKind) -> (r: Self)
        ensures
            r@ == self@.with_argument(arg_type@, name@, kind@),
    {
        let mut b = self;
        let mut attrs: Vec<Attribute> = Vec::new();
        std::mem::swap(&mut attrs, &mut b.arg_attrs);
        let arg = Argument(attrs, arg_type, String::from_str(name), kind);
        b.args.push(arg);
        assert(b.args.deep_view() =~= self.args.deep_view().push(arg@));
        assert(b.arg_attrs.deep_view() =~= Seq::<AttributeView>::empty());
        b
    }

    /// Adds an argument that is passed by value.
    pub fn arg(self, arg_type: TypeRef, name: &str) -> (r: Self)
        ensures
            r@ == self@.with_argument(arg_type@, name@, ArgumentKindView::Default),
    {
        self.add_argument(arg_type, name, ArgumentKind::Default)
    }

    /// Adds an argument that is passed by value and may be left out.
    pub fn arg_value(self, arg_type: TypeRef, name: &str, default_value: Value) -> (r: Self)
        ensures
            r@ == self@.with_argument(
                arg_type@,
                name@,
                ArgumentKindView::DefaultValue(default_value@),
            ),
    {
        self.add_argument(arg_type, name, ArgumentKind::DefaultValue(default_value))
    }

    /// Adds an argument that is passed by reference, to be read and written.
    pub fn arg_ref(self, arg_type: TypeRef, name: &str) -> (r: Self)
        ensures
            r@ == self@.with_argument(arg_type@, name@, ArgumentKindView::Ref),
    {
        self.add_argument(arg_type, name, ArgumentKind::Ref)
    }

    /// Adds an argument that is passed by reference, to be read only.
    pub fn arg_in(self, arg_type: TypeRef, name: &str) -> (r: Self)
        ensures
            r@ == self@.with_argument(arg_type@, name@, ArgumentKindView::In),
    {
        self.add_argument(arg_type, name, ArgumentKind::In)
    }

    /// The constructor as it stands.
    pub fn get_constructor(&self) -> (c: Constructor)
        ensures
            c@ == self@.constructor(),
    {
        Constructor { attrs: self.attrs.clone(), vis: self.vis, args: self.args.clone() }
    }

    /// Gives the type builder back as it was, without the constructor.
    pub fn into_parent(self) -> (parent: T)
        ensures
            parent@ == self@.parent,
    {
        self.builder
    }

    /// Finishes the constructor: appends it to the type's constructors and
    /// gives the type builder back.
    pub fn build(self) -> (parent: T)
        ensures
            parent@ == T::with_constructor(self@.parent, self@.constructor()),
    {
        let constructor = Constructor { attrs: self.attrs, vis: self.vis, args: self.args };
        let mut parent = self.builder;
        parent.add_constructor(constructor);
        parent
    }
}

} // verus!
