use vstd::prelude::*;

use crate::builder::{
    empty_vec, AttributeCollector, BuildInvariantViolation, BuildInvariantViolationView, Refused,
};
use crate::ids::{generate_member_id, member_id};
use crate::model::{
    Attribute, AttributeView, Property, PropertyView, TypeRef, TypeRefView, Visibility,
};

verus! {

/// A type builder that collects properties.
pub trait PropertyCollector: View + Sized {
    /// Whether the collector has static properties at all.
    spec fn holds_static_properties() -> bool;

    /// The getter visibility of a property that does not say its own.
    spec fn property_visibility(v: Self::V) -> Visibility;

    /// Whether the collector takes this property.
    spec fn allows_property(v: Self::V, property: PropertyView) -> bool;

    /// The collector with one more property.
    spec fn with_property(v: Self::V, property: PropertyView) -> Self::V;

    /// The collector with one more static property.
    spec fn with_static_property(v: Self::V, property: PropertyView) -> Self::V;

    fn get_default_visibility(&self) -> (vis: Visibility)
        ensures
            vis == Self::property_visibility(self@),
    ;

    /// Appends the property, unless the collector does not take it: then
    /// nothing changes.
    fn add_property(&mut self, property: Property) -> (r: Result<(), BuildInvariantViolation>)
        ensures
            match r {
                Ok(_) => Self::allows_property(old(self)@, property@) && final(self)@
                    == Self::with_property(old(self)@, property@),
                Err(e) => !Self::allows_property(old(self)@, property@) && final(self)@ == old(
                    self,
                )@ && e@ == BuildInvariantViolationView::PrivateInterfaceMember,
            },
    ;

    fn add_static_property(&mut self, property: Property)
        requires
            Self::holds_static_properties(),
        ensures
            final(self)@ == Self::with_static_property(old(self)@, property@),
    ;
}

/// Builds one property of the type that `T` builds.
#[derive(Debug)]
pub struct PropertyBuilder<T: PropertyCollector> {
    builder: T,
    is_static: bool,
    attrs: Vec<Attribute>,
    getter_visibility: Visibility,
    setter_visibility: Option<Visibility>,
    prop_type: TypeRef,
    name: String,
}

pub ghost struct PropertyBuilderView<P> {
    pub parent: P,
    pub is_static: bool,
    pub attrs: Seq<AttributeView>,
    pub getter_visibility: Visibility,
    pub setter_visibility: Option<Visibility>,
    pub prop_type: TypeRefView,
    pub name: Seq<char>,
}

impl<P> PropertyBuilderView<P> {
    /// The property that the builder would build now: its id is the member
    /// id of its name.
    pub open spec fn property(self) -> PropertyView {
        PropertyView {
            attrs: self.attrs,
            getter_visibility: self.getter_visibility,
            setter_visibility: self.setter_visibility,
            prop_type: self.prop_type,
            name: self.name,
            id: member_id(self.name),
        }
    }
}

impl<T: PropertyCollector> View for PropertyBuilder<T> {
    type V = PropertyBuilderView<T::V>;

    closed spec fn view(&self) -> PropertyBuilderView<T::V> {
        PropertyBuilderView {
            parent: self.builder@,
            is_static: self.is_static,
            attrs: self.attrs.deep_view(),
            getter_visibility: self.getter_visibility,
            setter_visibility: self.setter_visibility,
            prop_type: self.prop_type@,
            name: self.name@,
        }
    }
}

impl<T: PropertyCollector> PropertyBuilder<T> {
    /// A static property only goes to a collector that has static properties.
    #[verifier::type_invariant]
    spec fn well_formed(self) -> bool {
        self.is_static ==> T::holds_static_properties()
    }

    /// A builder for a read-only property of `builder`'s type, with the
    /// getter visibility that the type gives to properties.
    pub(crate) fn new(builder: T, is_static: bool, prop_type: TypeRef, name: &str) -> (r: Self)
        requires
            is_static ==> T::holds_static_properties(),
        ensures
            r@ == (PropertyBuilderView {
                parent: builder@,
                is_static,
                attrs: Seq::empty(),
                getter_visibility: T::property_visibility(builder@),
                setter_visibility: None,
                prop_type: prop_type@,
                name: name@,
            }),
    {
        let getter_visibility = builder.get_default_visibility();
        let r = Self {
            builder,
            is_static,
            attrs: empty_vec(),
            getter_visibility,
            setter_visibility: None,
            prop_type,
            name: String::from_str(name),
        };
        r
    }

    /// Sets the visibility of the getter.
    pub fn getter_visibility(self, vis: Visibility) -> (r: Self)
        ensures
            r@ == (PropertyBuilderView { getter_visibility: vis, ..self@ }),
    {
        proof {
            use_type_invariant(&self);
        }
        Self {
            builder: self.builder,
            is_static: self.is_static,
            attrs: self.attrs,
            getter_visibility: vis,
            setter_visibility: self.setter_visibility,
            prop_type: self.prop_type,
            name: self.name,
        }
    }

    /// Sets the visibility of the setter, and gives the property a setter
    /// if it had none.
    pub fn setter_visibility(self, vis: Visibility) -> (r: Self)
        ensures
            r@ == (PropertyBuilderView { setter_visibility: Some(vis), ..self@ }),
    {
        proof {
            use_type_invariant(&self);
        }
        Self {
            builder: self.builder,
            is_static: self.is_static,
            attrs: self.attrs,
            getter_visibility: self.getter_visibility,
            setter_visibility: Some(vis),
            prop_type: self.prop_type,
            name: self.name,
        }
    }

    /// The property as it stands.
    pub fn get_property(&self) -> (property: Property)
        ensures
            property@ == self@.property(),
    {
        Property {
            attrs: self.attrs.clone(),
            getter_visibility: self.getter_visibility,
            setter_visibility: self.setter_visibility,
            prop_type: self.prop_type.clone(),
            name: self.name.clone(),
            id: generate_member_id(self.name.as_str()),
        }
    }

    /// Gives the type builder back as it was, without the property.
    pub fn into_parent(self) -> (parent: T)
        ensures
            parent@ == self@.parent,
    {
        self.builder
    }

    /// Finishes the property: appends it to the type's properties, or to
    /// its static properties, and gives the type builder back. A property
    /// that the type does not take is an error, with which the type builder
    /// comes back as it was, without the property.
    pub fn build(self) -> (r: Result<T, Refused<T>>)
        ensures
            match r {
                Ok(parent) => if self@.is_static {
                    parent@ == T::with_static_property(self@.parent, self@.property())
                } else {
                    T::allows_property(self@.parent, self@.property()) && parent@
                        == T::with_property(self@.parent, self@.property())
                },
                Err(refused) => !self@.is_static && !T::allows_property(
                    self@.parent,
                    self@.property(),
                ) && refused.violation@ == BuildInvariantViolationView::PrivateInterfaceMember
                    && refused.builder@ == self@.parent,
            },
    {
        proof {
            use_type_invariant(&self);
        }
        let property = self.get_property();
        let is_static = self.is_static;
        let mut parent = self.builder;
        if is_static {
            parent.add_static_property(property);
            Ok(parent)
        } else {
            match parent.add_property(property) {
                Ok(_) => Ok(parent),
                Err(e) => Err(Refused { builder: parent, violation: e }),
            }
        }
    }
}

impl<T: PropertyCollector> AttributeCollector for PropertyBuilder<T> {
    open spec fn with_attribute(v: Self::V, attribute: AttributeView) -> Self::V {
        PropertyBuilderView { attrs: v.attrs.push(attribute), ..v }
    }

    fn add_attribute(self, attribute: Attribute) -> (r: Self) {
        proof {
            use_type_invariant(&self);
        }
        let mut attrs = self.attrs;
        attrs.push(attribute);
        assert(attrs.deep_view() =~= self.attrs.deep_view().push(attribute@));
        Self {
            builder: self.builder,
            is_static: self.is_static,
            attrs,
            getter_visibility: self.getter_visibility,
            setter_visibility: self.setter_visibility,
            prop_type: self.prop_type,
            name: self.name,
        }
    }
}

} // verus!
