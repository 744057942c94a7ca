//! The attribute kinds, and what a tag needs of each: its name and its value
//! as text.

use crate::store::Entry;
use vstd::prelude::*;

verus! {

/// A typed attribute that can be taken apart into the name and the value that
/// the store holds.
pub trait IntoAttribute: Sized {
    /// The name and the value that this attribute stands for.
    spec fn entry(self) -> Entry;

    /// Takes the attribute apart. Never fails.
    fn into_attribute(self) -> (pair: (String, String))
        ensures
            (pair.0@, pair.1@) == self.entry(),
    ;
}

/// The `name` attribute.
#[derive(Debug)]
pub struct Name {
    value: String,
}

impl View for Name {
    type V = Seq<char>;

    closed spec fn view(&self) -> Seq<char> {
        self.value@
    }
}

impl Name {
    /// The attribute `name` with the given value.
    pub fn new(value: &str) -> (attr: Name)
        ensures
            attr@ == value@,
    {
        Name { value: String::from_str(value) }
    }
}

impl IntoAttribute for Name {
    open spec fn entry(self) -> Entry {
        ("name"@, self@)
    }

    fn into_attribute(self) -> (pair: (String, String)) {
        (String::from_str("name"), self.value)
    }
}

impl Clone for Name {
    fn clone(&self) -> (copy: Name)
        ensures
            copy@ == self@,
    {
        Name { value: self.value.clone() }
    }
}

/// The `class` attribute.
#[derive(Debug)]
pub struct Class {
    value: String,
}

impl View for Class {
    type V = Seq<char>;

    closed spec fn view(&self) -> Seq<char> {
        self.value@
    }
}

impl Class {
    /// The attribute `class` with the given value.
    pub fn new(value: &str) -> (attr: Class)
        ensures
            attr@ == value@,
    {
        Class { value: String::from_str(value) }
    }
}

impl IntoAttribute for Class {
    open spec fn entry(self) -> Entry {
        ("class"@, self@)
    }

    fn into_attribute(self) -> (pair: (String, String)) {
        (String::from_str("class"), self.value)
    }
}

impl Clone for Class {
    fn clone(&self) -> (copy: Class)
        ensures
            copy@ == self@,
    {
        Class { value: self.value.clone() }
    }
}

/// The `id` attribute.
#[derive(Debug)]
pub struct Id {
    value: String,
}

impl View for Id {
    type V = Seq<char>;

    closed spec fn view(&self) -> Seq<char> {
        self.value@
    }
}

impl Id {
    /// The attribute `id` with the given value.
    pub fn new(value: &str) -> (attr: Id)
        ensures
            attr@ == value@,
    {
        Id { value: String::from_str(value) }
    }
}

impl IntoAttribute for Id {
    open spec fn entry(self) -> Entry {
        ("id"@, self@)
    }

    fn into_attribute(self) -> (pair: (String, String)) {
        (String::from_str("id"), self.value)
    }
}

impl Clone for Id {
    fn clone(&self) -> (copy: Id)
        ensures
            copy@ == self@,
    {
        Id { value: self.value.clone() }
    }
}

} // verus!
