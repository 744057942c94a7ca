//! The `option` tag: the one kind of child that a `select` admits.

use crate::attributes::{Class, Id, IntoAttribute};
use crate::legality::IntoUnion;
use crate::store::{
    attributes_markup, distinct_names, lookup, with_entry, AttributeStore, Entry,
};
use vstd::prelude::*;

verus! {

/// The attribute kinds that are legal on an `option`.
#[derive(Debug)]
pub enum SelectOptionAttr {
    Class(Class),
    Id(Id),
}

impl IntoAttribute for SelectOptionAttr {
    open spec fn entry(self) -> Entry {
        match self {
            SelectOptionAttr::Class(class) => class.entry(),
            SelectOptionAttr::Id(id) => id.entry(),
        }
    }

    fn into_attribute(self) -> (pair: (String, String)) {
        match self {
            SelectOptionAttr::Class(class) => class.into_attribute(),
            SelectOptionAttr::Id(id) => id.into_attribute(),
        }
    }
}

impl IntoUnion<SelectOptionAttr> for Class {
    open spec fn as_union(self) -> SelectOptionAttr {
        SelectOptionAttr::Class(self)
    }

    fn into_union(self) -> (member: SelectOptionAttr) {
        SelectOptionAttr::Class(self)
    }
}

impl IntoUnion<SelectOptionAttr> for Id {
    open spec fn as_union(self) -> SelectOptionAttr {
        SelectOptionAttr::Id(self)
    }

    fn into_union(self) -> (member: SelectOptionAttr) {
        SelectOptionAttr::Id(self)
    }
}

impl IntoUnion<SelectOptionAttr> for SelectOptionAttr {
    open spec fn as_union(self) -> SelectOptionAttr {
        self
    }

    fn into_union(self) -> (member: SelectOptionAttr) {
        self
    }
}

impl Clone for SelectOptionAttr {
    fn clone(&self) -> (copy: SelectOptionAttr)
        ensures
            copy.entry() == self.entry(),
    {
        match self {
            SelectOptionAttr::Class(class) => SelectOptionAttr::Class(class.clone()),
            SelectOptionAttr::Id(id) => SelectOptionAttr::Id(id.clone()),
        }
    }
}

/// What an `option` is: its attributes in their order, and its text.
pub struct OptionModel {
    pub attrs: Seq<Entry>,
    pub text: Seq<char>,
}

impl OptionModel {
    /// The option with the given text and no attribute.
    pub open spec fn plain(text: Seq<char>) -> OptionModel {
        OptionModel { attrs: Seq::empty(), text }
    }

    /// The option after `value` was written under the attribute `name`.
    pub open spec fn with_attribute(self, name: Seq<char>, value: Seq<char>) -> OptionModel {
        OptionModel { attrs: with_entry(self.attrs, name, value), text: self.text }
    }

    /// The option as text: the opening tag with the attributes, the text as
    /// it stands, the closing tag.
    pub open spec fn markup(self) -> Seq<char> {
        "<option "@ + attributes_markup(self.attrs) + ">"@ + self.text + "</option>"@
    }
}

/// The `option` tag.
#[derive(Debug)]
#[must_use]
pub struct SelectOption {
    attrs: AttributeStore,
    text: String,
}

impl View for SelectOption {
    type V = OptionModel;

    closed spec fn view(&self) -> OptionModel {
        OptionModel { attrs: self.attrs@, text: self.text@ }
    }
}

impl SelectOption {
    /// An option with the given text and no attribute.
    pub fn new(text: &str) -> (option: SelectOption)
        ensures
            option@ == OptionModel::plain(text@),
    {
        SelectOption { attrs: AttributeStore::new(), text: String::from_str(text) }
    }

    /// Sets an attribute of a kind that is legal on an `option`. An earlier
    /// value under the same name is lost.
    pub fn attribute<A: IntoUnion<SelectOptionAttr>>(self, attr: A) -> (option: SelectOption)
        ensures
            option@ == self@.with_attribute(attr.as_union().entry().0, attr.as_union().entry().1),
            distinct_names(option@.attrs),
    {
        let (name, value) = attr.into_union().into_attribute();
        SelectOption { attrs: self.attrs.insert(name, value), text: self.text }
    }

    /// Sets an attribute by its literal name and value. Nothing is checked:
    /// this is the way to attributes for which there is no kind.
    pub fn raw_attribute(self, name: &str, value: &str) -> (option: SelectOption)
        ensures
            option@ == self@.with_attribute(name@, value@),
            distinct_names(option@.attrs),
    {
        let attrs = self.attrs.insert(String::from_str(name), String::from_str(value));
        SelectOption { attrs, text: self.text }
    }

    /// The value of the attribute `name`, if it was set.
    pub fn read_attribute(&self, name: &str) -> (value: Option<&String>)
        ensures
            lookup(self@.attrs, name@) == match value {
                Some(v) => Some(v@),
                None => None,
            },
    {
        self.attrs.read(name)
    }

    /// The attributes of the option.
    pub fn attributes(&self) -> (attrs: &AttributeStore)
        ensures
            attrs@ == self@.attrs,
    {
        &self.attrs
    }

    /// The text of the option.
    pub fn text(&self) -> (text: &str)
        ensures
            text@ == self@.text,
    {
        self.text.as_str()
    }

    /// Appends the option as text to `out`.
    pub fn write_to(&self, out: &mut String)
        ensures
            final(out)@ == old(out)@ + self@.markup(),
    {
        out.append("<option ");
        self.attrs.write_to(out);
        out.append(">");
        out.append(self.text.as_str());
        out.append("</option>");
    }

    /// The option as text.
    pub fn render(&self) -> (text: String)
        ensures
            text@ == self@.markup(),
    {
        let mut text = String::new();
        self.write_to(&mut text);
        text
    }
}

impl Clone for SelectOption {
    /// An option of its own with the same attributes and the same text.
    fn clone(&self) -> (copy: SelectOption)
        ensures
            copy@ == self@,
    {
        SelectOption { attrs: self.attrs.clone(), text: self.text.clone() }
    }
}

impl IntoUnion<SelectOption> for SelectOption {
    open spec fn as_union(self) -> SelectOption {
        self
    }

    fn into_union(self) -> (member: SelectOption) {
        self
    }
}

} // verus!
