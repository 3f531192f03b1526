//! A small library of the kind that glue is generated for: a few enums of
//! every shape, a trait, and structs with constructors, methods and a
//! field. It has no other purpose than to be reflected and called.
use vstd::prelude::*;

verus! {

/// An enum of one variant without fields.
#[derive(Debug)]
pub enum EnumUnit {
    Variant,
}

/// An enum of one tuple variant.
#[derive(Debug)]
pub enum EnumTuple {
    Variant(i32),
}

/// An enum of one struct variant.
#[derive(Debug)]
pub enum EnumStruct {
    Variant { a: i32 },
}

/// An enum of a unit variant and a tuple variant.
#[derive(Debug)]
pub enum EnumMixed {
    Unit,
    Tuple(i32),
}

/// An enum of a variant of every shape.
#[derive(Debug)]
pub enum EnumComplex {
    Unit,
    Tuple(i32),
    Struct { a: i32 },
}

/// Something that holds a text which can be replaced and read.
pub trait MyTrait {
    /// The text held.
    spec fn held(&self) -> Seq<char>;

    /// Replaces the text.
    fn foo(&mut self, a: String)
        ensures
            final(self).held() == a@,
    ;

    /// A copy of the text.
    fn bar(&self) -> (text: String)
        ensures
            text@ == self.held(),
    ;
}

/// A struct with a generic parameter that a trait bounds.
pub struct GenericsTest<T: MyTrait> {
    some_field: Option<T>,
}

/// A struct with a public field.
#[derive(Debug)]
pub struct TestStruct {
    pub id: u64,
}

/// A struct with a name.
#[derive(Debug)]
pub struct MyStruct {
    name: String,
}

impl TestStruct {
    pub fn new(id: u64) -> (r: Self)
        ensures
            r.id == id,
    {
        Self { id }
    }
}

impl<T: MyTrait> GenericsTest<T> {
    /// What is held, if anything is.
    pub closed spec fn content(&self) -> Option<T> {
        self.some_field
    }

    pub fn new() -> (r: Self)
        ensures
            r.content() is None,
    {
        Self { some_field: None }
    }

    pub fn set_t(&mut self, t: T)
        ensures
            final(self).content() == Some(t),
    {
        self.some_field = Some(t);
    }

    /// The text of what is held, if anything is.
    pub fn t_bar(&self) -> (text: Option<String>)
        ensures
            match text {
                Some(text) => self.content() is Some && text@ == self.content()->Some_0.held(),
                None => self.content() is None,
            },
    {
        match &self.some_field {
            Some(t) => Some(t.bar()),
            None => None,
        }
    }
}

impl MyTrait for MyStruct {
    closed spec fn held(&self) -> Seq<char> {
        self.name@
    }

    fn foo(&mut self, a: String) {
        self.name = a;
    }

    fn bar(&self) -> (text: String) {
        self.name.clone()
    }
}

impl MyStruct {
    pub fn new(name: &str) -> (r: Self)
        ensures
            r.held() == name@,
    {
        Self { name: String::from_str(name) }
    }

    pub fn set_name(&mut self, name: &str)
        ensures
            final(self).held() == name@,
    {
        self.name = String::from_str(name);
    }

    pub fn get_name(&self) -> (name: &str)
        ensures
            name@ == self.held(),
    {
        self.name.as_str()
    }
}

} // verus!
