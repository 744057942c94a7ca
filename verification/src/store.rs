//! The attribute store of a tag: attribute names with their values, each name
//! at most once, in the order in which the names were first written.

use vstd::prelude::*;

verus! {

/// An attribute as the model sees it: its name and its value.
pub type Entry = (Seq<char>, Seq<char>);

/// Some entry of `entries` is named `name`.
pub open spec fn has_name(entries: Seq<Entry>, name: Seq<char>) -> bool {
    exists|i: int| 0 <= i < entries.len() && (#[trigger] entries[i]).0 == name
}

/// The place of an entry named `name`, where there is one.
pub open spec fn position(entries: Seq<Entry>, name: Seq<char>) -> int {
    choose|i: int| 0 <= i < entries.len() && (#[trigger] entries[i]).0 == name
}

/// No two entries share a name.
pub open spec fn distinct_names(entries: Seq<Entry>) -> bool {
    forall|i: int, j: int|
        0 <= i < j < entries.len() ==> (#[trigger] entries[i]).0 != (#[trigger] entries[j]).0
}

/// The value written under `name`, if any.
pub open spec fn lookup(entries: Seq<Entry>, name: Seq<char>) -> Option<Seq<char>> {
    if has_name(entries, name) {
        Some(entries[position(entries, name)].1)
    } else {
        None
    }
}

/// The entries after `value` was written under `name`: a name that is already
/// there keeps its place and takes the new value, a new name comes last.
pub open spec fn with_entry(entries: Seq<Entry>, name: Seq<char>, value: Seq<char>) -> Seq<Entry> {
    if has_name(entries, name) {
        entries.update(position(entries, name), (name, value))
    } else {
        entries.push((name, value))
    }
}

/// The entries after the `writes` were made one after the other, the first
/// of them first.
pub open spec fn with_entries(entries: Seq<Entry>, writes: Seq<Entry>) -> Seq<Entry>
    decreases writes.len(),
{
    if writes.len() == 0 {
        entries
    } else {
        with_entry(with_entries(entries, writes.drop_last()), writes.last().0, writes.last().1)
    }
}

/// The store as a mapping from names to values.
pub open spec fn as_map(entries: Seq<Entry>) -> Map<Seq<char>, Seq<char>> {
    Map::new(
        |name: Seq<char>| has_name(entries, name),
        |name: Seq<char>| entries[position(entries, name)].1,
    )
}

/// One attribute as text: its name, `="`, its value and `"`.
pub open spec fn attribute_markup(entry: Entry) -> Seq<char> {
    entry.0 + "=\""@ + entry.1 + "\""@
}

/// The attributes as text, in their order, with one space between two of them.
pub open spec fn attributes_markup(entries: Seq<Entry>) -> Seq<char>
    decreases entries.len(),
{
    if entries.len() == 0 {
        Seq::empty()
    } else if entries.len() == 1 {
        attribute_markup(entries[0])
    } else {
        attributes_markup(entries.drop_last()) + " "@ + attribute_markup(entries.last())
    }
}

/// What a list of stored pairs stands for.
spec fn model_of(pairs: Seq<(String, String)>) -> Seq<Entry> {
    pairs.map_values(|pair: (String, String)| (pair.0@, pair.1@))
}

/// The attributes of one tag.
#[derive(Debug)]
pub struct AttributeStore {
    entries: Vec<(String, String)>,
}

impl View for AttributeStore {
    type V = Seq<Entry>;

    closed spec fn view(&self) -> Seq<Entry> {
        model_of(self.entries@)
    }
}

impl AttributeStore {
    #[verifier::type_invariant]
    spec fn names_are_distinct(self) -> bool {
        distinct_names(self@)
    }

    /// A store without attributes.
    pub fn new() -> (store: Self)
        ensures
            store@ == Seq::<Entry>::empty(),
    {
        let store = AttributeStore { entries: Vec::new() };
        store
    }

    /// The number of attributes.
    pub fn len(&self) -> (n: usize)
        ensures
            n == self@.len(),
    {
        self.entries.len()
    }

    /// The attributes as pairs of name and value, in the order of the store.
    pub fn pairs(&self) -> (pairs: Vec<(String, String)>)
        ensures
            pairs@.len() == self@.len(),
            forall|i: int|
                0 <= i < pairs@.len() ==> (#[trigger] pairs@[i]).0@ == self@[i].0 && pairs@[i].1@
                    == self@[i].1,
            distinct_names(self@),
    {
        proof {
            use_type_invariant(self);
        }
        let copy = self.clone();
        copy.entries
    }

    /// The place of the attribute named `name`, if it was written.
    fn find(&self, name: &String) -> (found: Option<usize>)
        ensures
            found is Some <==> has_name(self@, name@),
            found matches Some(i) ==> i < self@.len() && position(self@, name@) == i,
    {
        proof {
            use_type_invariant(self);
        }
        let mut i: usize = 0;
        while i < self.entries.len()
            invariant
                i <= self.entries.len(),
                distinct_names(self@),
                forall|j: int| 0 <= j < i ==> (#[trigger] self@[j]).0 != name@,
            decreases self.entries.len() - i,
        {
            if self.entries[i].0 == *name {
                proof {
                    lemma_position_is_unique(self@, i as int);
                }
                return Some(i);
            }
            i += 1;
        }
        None
    }

    /// Writes `value` under `name` and gives the store back. An earlier value
    /// of that name is lost; the other attributes are untouched.
    pub fn insert(self, name: String, value: String) -> (store: Self)
        ensures
            store@ == with_entry(self@, name@, value@),
            as_map(store@) == as_map(self@).insert(name@, value@),
            distinct_names(store@),
    {
        proof {
            use_type_invariant(&self);
            lemma_write_is_map_insert(self@, name@, value@);
            lemma_write_keeps_names_distinct(self@, name@, value@);
        }
        let found = self.find(&name);
        let mut entries = self.entries;
        match found {
            Some(i) => {
                entries.set(i, (name, value));
            },
            None => {
                entries.push((name, value));
            },
        }
        assert(model_of(entries@) =~= with_entry(self@, name@, value@));
        AttributeStore { entries }
    }

    /// The value written under `name`, if any.
    pub fn read(&self, name: &str) -> (value: Option<&String>)
        ensures
            lookup(self@, name@) == match value {
                Some(v) => Some(v@),
                None => None,
            },
    {
        let key = String::from_str(name);
        match self.find(&key) {
            Some(i) => Some(&self.entries[i].1),
            None => None,
        }
    }

    /// Appends the attributes to `out`, in the order of the store: each as its
    /// name, `="`, its value as it stands and `"`, with one space between two
    /// attributes.
    pub fn write_to(&self, out: &mut String)
        ensures
            final(out)@ == old(out)@ + attributes_markup(self@),
    {
        let ghost before = out@;
        let mut i: usize = 0;
        while i < self.entries.len()
            invariant
                i <= self.entries.len(),
                out@ == before + attributes_markup(self@.take(i as int)),
            decreases self.entries.len() - i,
        {
            if i > 0 {
                out.append(" ");
            }
            out.append(self.entries[i].0.as_str());
            out.append("=\"");
            out.append(self.entries[i].1.as_str());
            out.append("\"");
            assert(self@.take(i + 1).drop_last() =~= self@.take(i as int));
            i += 1;
        }
        assert(self@.take(i as int) =~= self@);
    }
}

impl Clone for AttributeStore {
    /// A store of its own with the same attributes in the same order.
    fn clone(&self) -> (copy: AttributeStore)
        ensures
            copy@ == self@,
    {
        proof {
            use_type_invariant(self);
        }
        let mut entries: Vec<(String, String)> = Vec::new();
        let mut i: usize = 0;
        while i < self.entries.len()
            invariant
                i <= self.entries.len(),
                model_of(entries@) == self@.take(i as int),
            decreases self.entries.len() - i,
        {
            let name = self.entries[i].0.clone();
            let value = self.entries[i].1.clone();
            entries.push((name, value));
            assert(self@.take(i + 1) =~= self@.take(i as int).push(self@[i as int]));
            i += 1;
        }
        AttributeStore { entries }
    }
}

/// In a store without repeated names, the place of a name is the place of the
/// one entry that bears it.
pub proof fn lemma_position_is_unique(entries: Seq<Entry>, i: int)
    requires
        distinct_names(entries),
        0 <= i < entries.len(),
    ensures
        has_name(entries, entries[i].0),
        position(entries, entries[i].0) == i,
{
    let p = position(entries, entries[i].0);
    assert(0 <= p < entries.len() && entries[p].0 == entries[i].0);
}

/// Writing into a store without repeated names leaves it without repeated
/// names.
pub proof fn lemma_write_keeps_names_distinct(entries: Seq<Entry>, name: Seq<char>, value: Seq<char>)
    requires
        distinct_names(entries),
    ensures
        distinct_names(with_entry(entries, name, value)),
{
    let after = with_entry(entries, name, value);
    assert forall|i: int, j: int| 0 <= i < j < after.len() implies (#[trigger] after[i]).0 != (
    #[trigger] after[j]).0 by {
        assert(after[i].0 == entries[i].0);
        if j < entries.len() {
            assert(after[j].0 == entries[j].0);
        }
    }
}

/// On the mapping from names to values, a write is the insertion of one pair.
pub proof fn lemma_write_is_map_insert(entries: Seq<Entry>, name: Seq<char>, value: Seq<char>)
    requires
        distinct_names(entries),
    ensures
        as_map(with_entry(entries, name, value)) == as_map(entries).insert(name, value),
{
    let after = with_entry(entries, name, value);
    lemma_write_keeps_names_distinct(entries, name, value);
    let at: int = if has_name(entries, name) {
        position(entries, name)
    } else {
        entries.len() as int
    };
    assert(0 <= at < after.len() && after[at] == (name, value));
    assert forall|n: Seq<char>| has_name(after, n) <==> (n == name || has_name(entries, n)) by {
        if has_name(after, n) && n != name {
            assert(entries[position(after, n)].0 == n);
        }
        if has_name(entries, n) {
            assert(after[position(entries, n)].0 == n);
        }
    }
    assert forall|n: Seq<char>| has_name(after, n) implies #[trigger] as_map(after)[n] == as_map(
        entries,
    ).insert(name, value)[n] by {
        if n == name {
            lemma_position_is_unique(after, at);
        } else {
            lemma_position_is_unique(entries, position(after, n));
        }
    }
}

/// A read sees the value that was just written under the same name.
pub proof fn lemma_read_sees_write(entries: Seq<Entry>, name: Seq<char>, value: Seq<char>)
    requires
        distinct_names(entries),
    ensures
        lookup(with_entry(entries, name, value), name) == Some(value),
{
    lemma_write_is_map_insert(entries, name, value);
    let after = as_map(with_entry(entries, name, value));
    assert(after.contains_key(name) && after[name] == value);
}

/// A write under one name changes what no other name reads.
pub proof fn lemma_write_spares_other_names(
    entries: Seq<Entry>,
    name: Seq<char>,
    value: Seq<char>,
    other: Seq<char>,
)
    requires
        distinct_names(entries),
        other != name,
    ensures
        lookup(with_entry(entries, name, value), other) == lookup(entries, other),
{
    lemma_write_is_map_insert(entries, name, value);
    let before = as_map(entries);
    let after = as_map(with_entry(entries, name, value));
    assert(after.contains_key(other) == before.contains_key(other));
}

/// Last write wins. After any run of writes, a name reads the value of the
/// last write made under it, however many writes under that name or under
/// others came before it, and whatever was in the store at the start. Every
/// entry of the store that bears the name holds that value, and there is one
/// such entry, so no earlier value is left to be read or written out.
pub proof fn lemma_last_write_wins(entries: Seq<Entry>, writes: Seq<Entry>, last: int)
    requires
        distinct_names(entries),
        0 <= last < writes.len(),
        forall|later: int|
            last < later < writes.len() ==> (#[trigger] writes[later]).0 != writes[last].0,
    ensures
        lookup(with_entries(entries, writes), writes[last].0) == Some(writes[last].1),
        distinct_names(with_entries(entries, writes)),
        forall|i: int|
            0 <= i < with_entries(entries, writes).len() && (#[trigger] with_entries(
                entries,
                writes,
            )[i]).0 == writes[last].0 ==> with_entries(entries, writes)[i].1 == writes[last].1,
    decreases writes.len(),
{
    lemma_last_write_is_read(entries, writes, last);
    lemma_writes_keep_names_distinct(entries, writes);
    let after = with_entries(entries, writes);
    assert forall|i: int| 0 <= i < after.len() && (#[trigger] after[i]).0
        == writes[last].0 implies after[i].1 == writes[last].1 by {
        lemma_position_is_unique(after, i);
    }
}

/// After any run of writes, a name reads the value of the last write made
/// under it.
proof fn lemma_last_write_is_read(entries: Seq<Entry>, writes: Seq<Entry>, last: int)
    requires
        distinct_names(entries),
        0 <= last < writes.len(),
        forall|later: int|
            last < later < writes.len() ==> (#[trigger] writes[later]).0 != writes[last].0,
    ensures
        lookup(with_entries(entries, writes), writes[last].0) == Some(writes[last].1),
    decreases writes.len(),
{
    let earlier = writes.drop_last();
    lemma_writes_keep_names_distinct(entries, earlier);
    let name = writes.last().0;
    let value = writes.last().1;
    if last == writes.len() - 1 {
        lemma_read_sees_write(with_entries(entries, earlier), name, value);
    } else {
        lemma_last_write_is_read(entries, earlier, last);
        lemma_write_spares_other_names(with_entries(entries, earlier), name, value, writes[last].0);
    }
}

/// A name under which none of the writes was made reads what it read before
/// them.
pub proof fn lemma_unwritten_name_keeps_value(
    entries: Seq<Entry>,
    writes: Seq<Entry>,
    name: Seq<char>,
)
    requires
        distinct_names(entries),
        forall|k: int| 0 <= k < writes.len() ==> (#[trigger] writes[k]).0 != name,
    ensures
        lookup(with_entries(entries, writes), name) == lookup(entries, name),
    decreases writes.len(),
{
    if writes.len() > 0 {
        let earlier = writes.drop_last();
        lemma_unwritten_name_keeps_value(entries, earlier, name);
        lemma_writes_keep_names_distinct(entries, earlier);
        lemma_write_spares_other_names(
            with_entries(entries, earlier),
            writes.last().0,
            writes.last().1,
            name,
        );
    }
}

/// Any run of writes into a store without repeated names leaves it without
/// repeated names.
pub proof fn lemma_writes_keep_names_distinct(entries: Seq<Entry>, writes: Seq<Entry>)
    requires
        distinct_names(entries),
    ensures
        distinct_names(with_entries(entries, writes)),
    decreases writes.len(),
{
    if writes.len() > 0 {
        lemma_writes_keep_names_distinct(entries, writes.drop_last());
        lemma_write_keeps_names_distinct(
            with_entries(entries, writes.drop_last()),
            writes.last().0,
            writes.last().1,
        );
    }
}

} // verus!
