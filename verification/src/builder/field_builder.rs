use vstd::prelude::*;

use crate::builder::empty_vec;
use crate::builder::AttributeCollector;
use crate::ids::{generate_member_id, member_id};
use crate::model::{
    Attribute, AttributeView, Field, FieldView, TypeRef, TypeRefView, Value, ValueView, Visibility,
};

verus! {

/// A builder that collects fields.
pub trait FieldCollector: View + Sized {
    /// Whether the collector has static fields at all.
    spec fn holds_static_fields() -> bool;

    /// The visibility of a field that does not say its own.
    spec fn field_visibility(v: Self::V) -> Visibility;

    /// The collector with one more field.
    spec fn with_field(v: Self::V, field: FieldView) -> Self::V;

    /// The collector with one more static field.
    spec fn with_static_field(v: Self::V, field: FieldView) -> Self::V;

    fn get_default_visibility(&self) -> (vis: Visibility)
        ensures
            vis == Self::field_visibility(self@),
    ;

    fn add_field(&mut self, field: Field)
        ensures
            final(self)@ == Self::with_field(old(self)@, field@),
    ;

    fn add_static_field(&mut self, field: Field)
        requires
            Self::holds_static_fields(),
        ensures
            final(self)@ == Self::with_static_field(old(self)@, field@),
    ;
}

/// Builds one field of what `T` builds.
#[derive(Debug)]
pub struct FieldBuilder<T: FieldCollector> {
    builder: T,
    is_static: bool,
    attrs: Vec<Attribute>,
    visibility: Visibility,
    field_type: TypeRef,
    default_value: Option<Value>,
    name: String,
}

pub ghost struct FieldBuilderView<P> {
    pub parent: P,
    pub is_static: bool,
    pub attrs: Seq<AttributeView>,
    pub visibility: Visibility,
    pub field_type: TypeRefView,
    pub default_value: Option<ValueView>,
    pub name: Seq<char>,
}

impl<P> FieldBuilderView<P> {
    /// The field that the builder would build now: its id is the member id
    /// of its name.
    pub open spec fn field(self) -> FieldView {
        FieldView {
            attrs: self.attrs,
            vis: self.visibility,
            field_type: self.field_type,
            name: self.name,
            default_value: self.default_value,
            id: member_id(self.name),
        }
    }
}

impl<T: FieldCollector> View for FieldBuilder<T> {
    type V = FieldBuilderView<T::V>;

    closed spec fn view(&self) -> FieldBuilderView<T::V> {
        FieldBuilderView {
            parent: self.builder@,
            is_static: self.is_static,
            attrs: self.attrs.deep_view(),
            visibility: self.visibility,
            field_type: self.field_type@,
            default_value: self.default_value.deep_view(),
            name: self.name@,
        }
    }
}

impl<T: FieldCollector> FieldBuilder<T> {
    /// A static field only goes to a collector that has static fields.
    #[verifier::type_invariant]
    spec fn well_formed(self) -> bool {
        self.is_static ==> T::holds_static_fields()
    }

    /// A builder for a field of `builder`, with the visibility that
    /// `builder` gives to fields.
    pub(crate) fn new(builder: T, is_static: bool, field_type: TypeRef, name: &str) -> (r: Self)
        requires
            is_static ==> T::holds_static_fields(),
        ensures
            r@ == (FieldBuilderView {
                parent: builder@,
                is_static,
                attrs: Seq::empty(),
                visibility: T::field_visibility(builder@),
                field_type: field_type@,
                default_value: None,
                name: name@,
            }),
    {
        let visibility = builder.get_default_visibility();
        let r = Self {
            builder,
            is_static,
            attrs: empty_vec(),
            visibility,
            field_type,
            default_value: None,
            name: String::from_str(name),
        };
        r
    }

    pub fn set_visibility(self, vis: Visibility) -> (r: Self)
        ensures
            r@ == (FieldBuilderView { visibility: vis, ..self@ }),
    {
        proof {
            use_type_invariant(&self);
        }
        Self {
            builder: self.builder,
            is_static: self.is_static,
            attrs: self.attrs,
            visibility: vis,
            field_type: self.field_type,
            default_value: self.default_value,
            name: self.name,
        }
    }

    /// Gives the field a default value. A field of which this is not called
    /// has none.
    pub fn set_default_value(self, value: Value) -> (r: Self)
        ensures
            r@ == (FieldBuilderView { default_value: Some(value@), ..self@ }),
    {
        proof {
            use_type_invariant(&self);
        }
        Self {
            builder: self.builder,
            is_static: self.is_static,
            attrs: self.attrs,
            visibility: self.visibility,
            field_type: self.field_type,
            default_value: Some(value),
            name: self.name,
        }
    }

    /// The field as it stands.
    pub fn get_field(&self) -> (field: Field)
        ensures
            field@ == self@.field(),
    {
        Field {
            attrs: self.attrs.clone(),
            vis: self.visibility,
            field_type: self.field_type.clone(),
            name: self.name.clone(),
            default_value: match &self.default_value {
                Some(value) => Some(value.clone()),
                None => None,
            },
            id: generate_member_id(self.name.as_str()),
        }
    }

    /// Gives the parent back as it was, without the field.
    pub fn into_parent(self) -> (parent: T)
        ensures
            parent@ == self@.parent,
    {
        self.builder
    }

    /// Finishes the field: appends it to the parent's fields, or to its
    /// static fields, and gives the parent back.
    pub fn build(self) -> (parent: T)
        ensures
            parent@ == (if self@.is_static {
                T::with_static_field(self@.parent, self@.field())
            } else {
                T::with_field(self@.parent, self@.field())
            }),
    {
        proof {
            use_type_invariant(&self);
        }
        let field = self.get_field();
        let is_static = self.is_static;
        let mut parent = self.builder;
        if is_static {
            parent.add_static_field(field);
        } else {
            parent.add_field(field);
        }
        parent
    }
}

impl<T: FieldCollector> AttributeCollector for FieldBuilder<T> {
    open spec fn with_attribute(v: Self::V, attribute: AttributeView) -> Self::V {
        FieldBuilderView { attrs: v.attrs.push(attribute), ..v }
    }

    fn add_attribute(self, attribute: Attribute) -> (r: Self) {
        proof {
            use_type_invariant(&self);
        }
        let mut attrs = self.attrs;
        attrs.push(attribute);
        assert(attrs.deep_view() =~= self.attrs.deep_view().push(attribute@));
        Self {
            builder: self.builder,
            is_static: self.is_static,
            attrs,
            visibility: self.visibility,
            field_type: self.field_type,
            default_value: self.default_value,
            name: self.name,
        }
    }
}

} // verus!
