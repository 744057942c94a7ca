//! The `select` tag: its attributes, its options, and its text.

use crate::attributes::{Class, Id, IntoAttribute, Name};
use crate::legality::IntoUnion;
use crate::store::{
    attributes_markup, distinct_names, lemma_last_write_wins, lemma_read_sees_write,
    lemma_write_keeps_names_distinct, lookup, with_entries, with_entry, AttributeStore, Entry,
};
use crate::tags::option::{OptionModel, SelectOption};
use vstd::prelude::*;

verus! {

/// The attribute kinds that are legal on a `select`.
#[derive(Debug)]
pub enum SelectAttr {
    Name(Name),
    Class(Class),
    Id(Id),
}

impl IntoAttribute for SelectAttr {
    open spec fn entry(self) -> Entry {
        match self {
            SelectAttr::Name(name) => name.entry(),
            SelectAttr::Class(class) => class.entry(),
            SelectAttr::Id(id) => id.entry(),
        }
    }

    fn into_attribute(self) -> (pair: (String, String)) {
        match self {
            SelectAttr::Name(name) => name.into_attribute(),
            SelectAttr::Class(class) => class.into_attribute(),
            SelectAttr::Id(id) => id.into_attribute(),
        }
    }
}

impl IntoUnion<SelectAttr> for Name {
    open spec fn as_union(self) -> SelectAttr {
        SelectAttr::Name(self)
    }

    fn into_union(self) -> (member: SelectAttr) {
        SelectAttr::Name(self)
    }
}

impl IntoUnion<SelectAttr> for Class {
    open spec fn as_union(self) -> SelectAttr {
        SelectAttr::Class(self)
    }

    fn into_union(self) -> (member: SelectAttr) {
        SelectAttr::Class(self)
    }
}

impl IntoUnion<SelectAttr> for Id {
    open spec fn as_union(self) -> SelectAttr {
        SelectAttr::Id(self)
    }

    fn into_union(self) -> (member: SelectAttr) {
        SelectAttr::Id(self)
    }
}

impl IntoUnion<SelectAttr> for SelectAttr {
    open spec fn as_union(self) -> SelectAttr {
        self
    }

    fn into_union(self) -> (member: SelectAttr) {
        self
    }
}

impl Clone for SelectAttr {
    fn clone(&self) -> (copy: SelectAttr)
        ensures
            copy.entry() == self.entry(),
    {
        match self {
            SelectAttr::Name(name) => SelectAttr::Name(name.clone()),
            SelectAttr::Class(class) => SelectAttr::Class(class.clone()),
            SelectAttr::Id(id) => SelectAttr::Id(id.clone()),
        }
    }
}

/// The options as text: each one's own text, one after the other in the
/// order of the list, with nothing between them.
pub open spec fn options_markup(options: Seq<OptionModel>) -> Seq<char>
    decreases options.len(),
{
    if options.len() == 0 {
        Seq::empty()
    } else {
        options_markup(options.drop_last()) + options.last().markup()
    }
}

/// The options that a list of values stands for, once each value has been
/// wrapped into the child union of `select`.
pub open spec fn options_of<C: IntoUnion<SelectOption>>(values: Seq<C>) -> Seq<OptionModel> {
    values.map_values(|value: C| value.as_union()@)
}

/// What a `select` is: its attributes in their order, and its options in
/// theirs.
pub struct SelectModel {
    pub attrs: Seq<Entry>,
    pub children: Seq<OptionModel>,
}

impl SelectModel {
    /// The `select` without attributes and without options.
    pub open spec fn empty() -> SelectModel {
        SelectModel { attrs: Seq::empty(), children: Seq::empty() }
    }

    /// The `select` after `value` was written under the attribute `name`.
    pub open spec fn with_attribute(self, name: Seq<char>, value: Seq<char>) -> SelectModel {
        SelectModel { attrs: with_entry(self.attrs, name, value), children: self.children }
    }

    /// The `select` after the `writes` were made to its attributes one after
    /// the other, each by `attribute` or by `raw_attribute`.
    pub open spec fn with_attributes(self, writes: Seq<Entry>) -> SelectModel
        decreases writes.len(),
    {
        if writes.len() == 0 {
            self
        } else {
            self.with_attributes(writes.drop_last()).with_attribute(
                writes.last().0,
                writes.last().1,
            )
        }
    }

    /// The `select` with one more option, after those it has.
    pub open spec fn with_child(self, child: OptionModel) -> SelectModel {
        SelectModel { attrs: self.attrs, children: self.children.push(child) }
    }

    /// The `select` with more options, in their order, after those it has.
    pub open spec fn with_children(self, more: Seq<OptionModel>) -> SelectModel {
        SelectModel { attrs: self.attrs, children: self.children + more }
    }

    /// The `select` as text: the opening tag with the attributes, the options,
    /// the closing tag.
    pub open spec fn markup(self) -> Seq<char> {
        "<select "@ + attributes_markup(self.attrs) + ">"@ + options_markup(self.children)
            + "</select>"@
    }
}

/// The `select` tag.
#[derive(Debug)]
#[must_use]
pub struct Select {
    attrs: AttributeStore,
    children: Vec<SelectOption>,
}

/// What a list of options stands for.
spec fn models_of(options: Seq<SelectOption>) -> Seq<OptionModel> {
    options.map_values(|option: SelectOption| option@)
}

impl View for Select {
    type V = SelectModel;

    closed spec fn view(&self) -> SelectModel {
        SelectModel { attrs: self.attrs@, children: models_of(self.children@) }
    }
}

/// A new `select`, without attributes and without options: the same as
/// `Select::new()`, and shorter to write.
pub fn select() -> (tag: Select)
    ensures
        tag@ == SelectModel::empty(),
{
    Select::new()
}

impl Select {
    /// A new `select`, without attributes and without options.
    pub fn new() -> (tag: Select)
        ensures
            tag@ == SelectModel::empty(),
    {
        let tag = Select { attrs: AttributeStore::new(), children: Vec::new() };
        assert(tag@.children =~= Seq::<OptionModel>::empty());
        tag
    }

    /// Adds a number of options, in their order, after those that are there.
    pub fn children<C: IntoUnion<SelectOption>>(self, children: Vec<C>) -> (tag: Select)
        ensures
            tag@ == self@.with_children(options_of(children@)),
    {
        let ghost given = children@;
        let mut options = self.children;
        let ghost before = options@;
        for child in it: children
            invariant
                it.seq() == given,
                models_of(options@) == models_of(before) + options_of(given.take(it.index())),
        {
            let ghost had = options@;
            let ghost k = it.index();
            options.push(child.into_union());
            assert(models_of(options@) =~= models_of(had).push(given[k].as_union()@));
        }
        assert(given.take(given.len() as int) =~= given);
        Select { attrs: self.attrs, children: options }
    }

    /// Adds one option, after those that are there.
    pub fn child<C: IntoUnion<SelectOption>>(self, child: C) -> (tag: Select)
        ensures
            tag@ == self@.with_child(child.as_union()@),
    {
        let mut options = self.children;
        options.push(child.into_union());
        let tag = Select { attrs: self.attrs, children: options };
        assert(tag@.children =~= self@.children.push(child.as_union()@));
        tag
    }

    /// Sets an attribute of a kind that is legal on a `select`. An earlier
    /// value under the same name is lost.
    pub fn attribute<A: IntoUnion<SelectAttr>>(self, attr: A) -> (tag: Select)
        ensures
            tag@ == self@.with_attribute(attr.as_union().entry().0, attr.as_union().entry().1),
            distinct_names(tag@.attrs),
    {
        let (name, value) = attr.into_union().into_attribute();
        Select { attrs: self.attrs.insert(name, value), children: self.children }
    }

    /// Sets an attribute by its literal name and value. Nothing is checked:
    /// this is the way to attributes for which there is no kind. It writes
    /// into the same store as `attribute`.
    pub fn raw_attribute(self, name: &str, value: &str) -> (tag: Select)
        ensures
            tag@ == self@.with_attribute(name@, value@),
            distinct_names(tag@.attrs),
    {
        let attrs = self.attrs.insert(String::from_str(name), String::from_str(value));
        Select { attrs, children: self.children }
    }

    /// The value of the attribute `attribute`, if it was set.
    pub fn read_attribute(&self, attribute: &str) -> (value: Option<&String>)
        ensures
            lookup(self@.attrs, attribute@) == match value {
                Some(v) => Some(v@),
                None => None,
            },
    {
        self.attrs.read(attribute)
    }

    /// The attributes of the `select`.
    pub fn attributes(&self) -> (attrs: &AttributeStore)
        ensures
            attrs@ == self@.attrs,
    {
        &self.attrs
    }

    /// The options of the `select`, in their order.
    pub fn options(&self) -> (options: &Vec<SelectOption>)
        ensures
            options_of(options@) == self@.children,
    {
        &self.children
    }

    /// Appends the `select` and its options as text to `out`.
    pub fn write_to(&self, out: &mut String)
        ensures
            final(out)@ == old(out)@ + self@.markup(),
    {
        out.append("<select ");
        self.attrs.write_to(out);
        out.append(">");
        let ghost opened = out@;
        let mut i: usize = 0;
        while i < self.children.len()
            invariant
                i <= self.children.len(),
                out@ == opened + options_markup(self@.children.take(i as int)),
            decreases self.children.len() - i,
        {
            self.children[i].write_to(out);
            assert(self@.children.take(i + 1).drop_last() =~= self@.children.take(i as int));
            i += 1;
        }
        assert(self@.children.take(i as int) =~= self@.children);
        out.append("</select>");
    }

    /// The `select` and its options as text.
    pub fn render(&self) -> (text: String)
        ensures
            text@ == self@.markup(),
    {
        let mut text = String::new();
        self.write_to(&mut text);
        text
    }
}

impl Default for Select {
    /// A new `select`, without attributes and without options.
    fn default() -> (tag: Select)
        ensures
            tag@ == SelectModel::empty(),
    {
        Select::new()
    }
}

impl Clone for Select {
    /// A `select` of its own with the same attributes and the same options.
    fn clone(&self) -> (copy: Select)
        ensures
            copy@ == self@,
    {
        let mut options: Vec<SelectOption> = Vec::new();
        let mut i: usize = 0;
        while i < self.children.len()
            invariant
                i <= self.children.len(),
                models_of(options@) == self@.children.take(i as int),
            decreases self.children.len() - i,
        {
            options.push(self.children[i].clone());
            assert(self@.children.take(i + 1) =~= self@.children.take(i as int).push(
                self@.children[i as int],
            ));
            i += 1;
        }
        assert(self@.children.take(i as int) =~= self@.children);
        Select { attrs: self.attrs.clone(), children: options }
    }
}

/// A `select` without attributes and without options is, as text, its opening
/// tag and its closing tag, with nothing between the two.
pub proof fn lemma_empty_select_markup()
    ensures
        SelectModel::empty().markup() == "<select ></select>"@,
{
    reveal_strlit("<select ");
    reveal_strlit(">");
    reveal_strlit("</select>");
    reveal_strlit("<select ></select>");
}

/// The text of two lists of options, one after the other, is the text of the
/// first followed by the text of the second.
pub proof fn lemma_options_markup_concat(first: Seq<OptionModel>, second: Seq<OptionModel>)
    ensures
        options_markup(first + second) == options_markup(first) + options_markup(second),
    decreases second.len(),
{
    if second.len() > 0 {
        assert((first + second).drop_last() =~= first + second.drop_last());
        lemma_options_markup_concat(first, second.drop_last());
    }
}

/// To add a list of options with `children` is to add them one by one with
/// `child`, in the order of the list. As text, the options that were there
/// come first and the new ones after them, each list in its own order.
pub proof fn lemma_children_are_added_one_by_one(tree: SelectModel, more: Seq<OptionModel>)
    ensures
        tree.with_children(more) == more.fold_left(
            tree,
            |so_far: SelectModel, child: OptionModel| so_far.with_child(child),
        ),
        tree.with_children(more).markup() == "<select "@ + attributes_markup(tree.attrs) + ">"@
            + options_markup(tree.children) + options_markup(more) + "</select>"@,
    decreases more.len(),
{
    if more.len() > 0 {
        lemma_children_are_added_one_by_one(tree, more.drop_last());
        assert(tree.children + more =~= (tree.children + more.drop_last()).push(more.last()));
    }
    lemma_options_markup_concat(tree.children, more);
}

/// A run of attribute writes touches the attributes alone, and does to them
/// what the same writes do to a store.
pub proof fn lemma_attributes_go_to_the_store(tree: SelectModel, writes: Seq<Entry>)
    ensures
        tree.with_attributes(writes).attrs == with_entries(tree.attrs, writes),
        tree.with_attributes(writes).children == tree.children,
    decreases writes.len(),
{
    if writes.len() > 0 {
        lemma_attributes_go_to_the_store(tree, writes.drop_last());
    }
}

/// Last write wins. After any run of attribute writes, the name of a write
/// that no later write repeats reads that write's value. Where all the names
/// differ this holds of every write; where one name comes several times, of
/// the last of them, and the earlier values are gone.
pub proof fn lemma_last_attribute_wins(tree: SelectModel, writes: Seq<Entry>, last: int)
    requires
        distinct_names(tree.attrs),
        0 <= last < writes.len(),
        forall|later: int|
            last < later < writes.len() ==> (#[trigger] writes[later]).0 != writes[last].0,
    ensures
        lookup(tree.with_attributes(writes).attrs, writes[last].0) == Some(writes[last].1),
        distinct_names(tree.with_attributes(writes).attrs),
{
    lemma_attributes_go_to_the_store(tree, writes);
    lemma_last_write_wins(tree.attrs, writes, last);
}

/// The typed and the raw way write into one store: where a raw write follows
/// a typed attribute under that attribute's name, the raw value is read, and
/// where the typed attribute follows the raw write, the typed value.
pub proof fn lemma_raw_and_typed_writes_share_the_store(
    tree: SelectModel,
    typed: SelectAttr,
    raw_value: Seq<char>,
)
    requires
        distinct_names(tree.attrs),
    ensures
        lookup(
            tree.with_attribute(typed.entry().0, typed.entry().1).with_attribute(
                typed.entry().0,
                raw_value,
            ).attrs,
            typed.entry().0,
        ) == Some(raw_value),
        lookup(
            tree.with_attribute(typed.entry().0, raw_value).with_attribute(
                typed.entry().0,
                typed.entry().1,
            ).attrs,
            typed.entry().0,
        ) == Some(typed.entry().1),
{
    let name = typed.entry().0;
    lemma_write_keeps_names_distinct(tree.attrs, name, typed.entry().1);
    lemma_write_keeps_names_distinct(tree.attrs, name, raw_value);
    lemma_read_sees_write(with_entry(tree.attrs, name, typed.entry().1), name, raw_value);
    lemma_read_sees_write(with_entry(tree.attrs, name, raw_value), name, typed.entry().1);
}

/// Rendering reads the tag and nothing else: any two texts that `render` may
/// give for one tag are the same text.
pub proof fn lemma_render_is_repeatable(tag: &Select, first: String, second: String)
    requires
        call_ensures(Select::render, (tag,), first),
        call_ensures(Select::render, (tag,), second),
    ensures
        first@ == second@,
{
}

} // verus!
