//! The properties of a structured log line: values by key, kept in ascending
//! key order so that they are written out the same way on every run.

use crate::text::{
    compare_text, lemma_text_before_asymmetric, lemma_text_before_transitive, same_text,
    text_before, TextOrder,
};
use vstd::prelude::*;

verus! {

/// One property: a key and its value.
pub struct Property {
    pub key: String,
    pub value: String,
}

impl View for Property {
    type V = (Seq<char>, Seq<char>);

    open spec fn view(&self) -> (Seq<char>, Seq<char>) {
        (self.key@, self.value@)
    }
}

/// The keys stand in strictly ascending order, so none occurs twice.
pub open spec fn ascending(entries: Seq<(Seq<char>, Seq<char>)>) -> bool {
    forall|i: int, j: int|
        0 <= i < j < entries.len() ==> text_before((#[trigger] entries[i]).0, (
        #[trigger] entries[j]).0)
}

/// Some entry has this key.
pub open spec fn has_key(entries: Seq<(Seq<char>, Seq<char>)>, key: Seq<char>) -> bool {
    exists|i: int| 0 <= i < entries.len() && (#[trigger] entries[i]).0 == key
}

/// The value of an entry with this key.
pub open spec fn value_of_key(entries: Seq<(Seq<char>, Seq<char>)>, key: Seq<char>) -> Seq<char> {
    entries[choose|i: int| 0 <= i < entries.len() && (#[trigger] entries[i]).0 == key].1
}

/// The entries as a map from key to value.
pub open spec fn as_map(entries: Seq<(Seq<char>, Seq<char>)>) -> Map<Seq<char>, Seq<char>> {
    Map::new(|key: Seq<char>| has_key(entries, key), |key: Seq<char>| value_of_key(entries, key))
}

/// In ascending entries every entry is the one that the map holds for its
/// key.
pub proof fn lemma_entry_in_map(entries: Seq<(Seq<char>, Seq<char>)>, i: int)
    requires
        ascending(entries),
        0 <= i < entries.len(),
    ensures
        has_key(entries, entries[i].0),
        value_of_key(entries, entries[i].0) == entries[i].1,
        as_map(entries).contains_key(entries[i].0),
        as_map(entries)[entries[i].0] == entries[i].1,
{
    let key = entries[i].0;
    let j = choose|j: int| 0 <= j < entries.len() && (#[trigger] entries[j]).0 == key;
    if j < i {
        lemma_text_before_asymmetric(entries[j].0, entries[i].0);
    } else if i < j {
        lemma_text_before_asymmetric(entries[i].0, entries[j].0);
    }
}

/// Ascending entries are fixed by the map they stand for: the order adds
/// nothing that the keys and values do not already settle.
pub proof fn lemma_order_is_determined(
    a: Seq<(Seq<char>, Seq<char>)>,
    b: Seq<(Seq<char>, Seq<char>)>,
)
    requires
        ascending(a),
        ascending(b),
        as_map(a) == as_map(b),
    ensures
        a == b,
    decreases a.len(),
{
    if a.len() == 0 {
        if b.len() > 0 {
            lemma_entry_in_map(b, 0);
        }
    } else {
        lemma_entry_in_map(a, 0);
        let m = choose|m: int| 0 <= m < b.len() && (#[trigger] b[m]).0 == a[0].0;
        lemma_entry_in_map(b, 0);
        let n = choose|n: int| 0 <= n < a.len() && (#[trigger] a[n]).0 == b[0].0;
        if m > 0 {
            // The first key of `b` comes before its key at `m`, which is the
            // first key of `a`, which is no later than the key of `a` at `n`,
            // which is the first key of `b` again.
            if n > 0 {
                lemma_text_before_transitive(b[0].0, b[m].0, a[n].0);
            }
            lemma_text_before_asymmetric(b[0].0, b[m].0);
        }
        let rest_of_a = a.drop_first();
        let rest_of_b = b.drop_first();
        assert(ascending(rest_of_a));
        assert(ascending(rest_of_b));
        lemma_rest_map(a);
        lemma_rest_map(b);
        lemma_order_is_determined(rest_of_a, rest_of_b);
        assert(a =~= seq![a[0]] + rest_of_a);
    }
}

/// Without their first entry, ascending entries stand for the map without
/// that entry's key.
proof fn lemma_rest_map(entries: Seq<(Seq<char>, Seq<char>)>)
    requires
        ascending(entries),
        entries.len() > 0,
    ensures
        as_map(entries.drop_first()) =~= as_map(entries).remove(entries[0].0),
{
    let rest = entries.drop_first();
    assert(ascending(rest));
    assert forall|key: Seq<char>| #[trigger]
        as_map(rest).contains_key(key) <==> as_map(entries).remove(entries[0].0).contains_key(
            key,
        ) by {
        if has_key(rest, key) {
            let i = choose|i: int| 0 <= i < rest.len() && (#[trigger] rest[i]).0 == key;
            lemma_text_before_asymmetric(entries[0].0, entries[i + 1].0);
        }
        if has_key(entries, key) && key != entries[0].0 {
            let i = choose|i: int| 0 <= i < entries.len() && (#[trigger] entries[i]).0 == key;
            assert(rest[i - 1].0 == key);
        }
    }
    assert forall|key: Seq<char>| #[trigger] as_map(rest).contains_key(key) implies as_map(
        rest,
    )[key] == as_map(entries).remove(entries[0].0)[key] by {
        let i = choose|i: int| 0 <= i < rest.len() && (#[trigger] rest[i]).0 == key;
        lemma_entry_in_map(rest, i);
        lemma_entry_in_map(entries, i + 1);
    }
}

/// Properties by key, in ascending key order.
pub struct Properties {
    entries: Vec<Property>,
}

impl View for Properties {
    type V = Seq<(Seq<char>, Seq<char>)>;

    closed spec fn view(&self) -> Seq<(Seq<char>, Seq<char>)> {
        entries_view(self.entries@)
    }
}

/// Each property as its key and value.
pub open spec fn entries_view(entries: Seq<Property>) -> Seq<(Seq<char>, Seq<char>)> {
    Seq::new(entries.len(), |i: int| entries[i]@)
}

impl Properties {
    #[verifier::type_invariant]
    spec fn well_formed(self) -> bool {
        ascending(self@)
    }

    /// No properties.
    pub fn new() -> (properties: Properties)
        ensures
            properties@ == Seq::<(Seq<char>, Seq<char>)>::empty(),
    {
        Properties { entries: Vec::new() }
    }

    /// How many properties there are.
    pub fn len(&self) -> (count: usize)
        ensures
            count == self@.len(),
    {
        self.entries.len()
    }

    /// The properties in ascending key order.
    pub fn entries(&self) -> (entries: &Vec<Property>)
        ensures
            entries@.len() == self@.len(),
            forall|i: int| 0 <= i < entries@.len() ==> (#[trigger] entries@[i])@ == self@[i],
            ascending(self@),
    {
        proof {
            use_type_invariant(self);
        }
        &self.entries
    }

    /// The value under a key, if the key is there.
    pub fn get(&self, key: &str) -> (value: Option<&str>)
        ensures
            ascending(self@),
            match value {
                Some(text) => as_map(self@).contains_key(key@) && as_map(self@)[key@] == text@,
                None => !as_map(self@).contains_key(key@),
            },
    {
        proof {
            use_type_invariant(self);
        }
        let mut i: usize = 0;
        while i < self.entries.len()
            invariant
                i <= self.entries@.len(),
                ascending(self@),
                forall|j: int| 0 <= j < i ==> (#[trigger] self@[j]).0 != key@,
            decreases self.entries@.len() - i,
        {
            if same_text(self.entries[i].key.as_str(), key) {
                proof {
                    lemma_entry_in_map(self@, i as int);
                }
                return Some(self.entries[i].value.as_str());
            }
            i += 1;
        }
        None
    }

    /// Sets the value under a key: a key that is there keeps its place and
    /// gets the new value, a new key goes where the order puts it.
    pub fn insert(&mut self, key: String, value: String)
        ensures
            ascending(final(self)@),
            as_map(final(self)@) == as_map(old(self)@).insert(key@, value@),
    {
        let mut taken = Properties::new();
        core::mem::swap(self, &mut taken);
        proof {
            use_type_invariant(&taken);
        }
        let ghost before = taken@;
        let mut entries = taken.entries;
        let mut i: usize = 0;
        let mut found = false;
        while i < entries.len()
            invariant_except_break
                !found,
            invariant
                i <= entries@.len(),
                before == entries_view(entries@),
                forall|j: int| 0 <= j < i ==> text_before((#[trigger] before[j]).0, key@),
            ensures
                i <= entries@.len(),
                before == entries_view(entries@),
                forall|j: int| 0 <= j < i ==> text_before((#[trigger] before[j]).0, key@),
                found ==> i < before.len() && before[i as int].0 == key@,
                !found && i < before.len() ==> text_before(key@, before[i as int].0),
            decreases entries@.len() - i,
        {
            match compare_text(entries[i].key.as_str(), key.as_str()) {
                TextOrder::Before => {
                    i += 1;
                },
                TextOrder::Same => {
                    found = true;
                    break ;
                },
                TextOrder::After => {
                    break ;
                },
            }
        }
        let ghost entry = (key@, value@);
        if found {
            entries.set(i, Property { key, value });
            proof {
                assert(entries_view(entries@) =~= before.update(i as int, entry));
                lemma_map_after_update(before, i as int, value@);
            }
        } else {
            entries.insert(i, Property { key, value });
            proof {
                assert(entries_view(entries@) =~= before.insert(i as int, entry));
                lemma_map_after_insert(before, i as int, entry);
            }
        }
        *self = Properties { entries };
    }
}

/// Giving an entry of ascending entries a new value changes the map at that
/// entry's key and nowhere else.
proof fn lemma_map_after_update(entries: Seq<(Seq<char>, Seq<char>)>, at: int, value: Seq<char>)
    requires
        ascending(entries),
        0 <= at < entries.len(),
    ensures
        ascending(entries.update(at, (entries[at].0, value))),
        as_map(entries.update(at, (entries[at].0, value))) =~= as_map(entries).insert(
            entries[at].0,
            value,
        ),
{
    let key = entries[at].0;
    let after = entries.update(at, (key, value));
    assert(ascending(after));
    assert forall|k: Seq<char>| #[trigger]
        as_map(after).contains_key(k) <==> as_map(entries).insert(key, value).contains_key(k) by {
        if has_key(entries, k) {
            let i = choose|i: int| 0 <= i < entries.len() && (#[trigger] entries[i]).0 == k;
            assert(after[i].0 == k);
        }
    }
    assert forall|k: Seq<char>| #[trigger] as_map(after).contains_key(k) implies as_map(after)[k]
        == as_map(entries).insert(key, value)[k] by {
        let i = choose|i: int| 0 <= i < after.len() && (#[trigger] after[i]).0 == k;
        lemma_entry_in_map(after, i);
        if i != at {
            lemma_entry_in_map(entries, i);
            if i < at {
                lemma_text_before_asymmetric(entries[i].0, entries[at].0);
            } else {
                lemma_text_before_asymmetric(entries[at].0, entries[i].0);
            }
        }
    }
}

/// Putting an entry with a new key at its place in ascending entries keeps
/// them ascending and adds the entry to the map.
proof fn lemma_map_after_insert(
    entries: Seq<(Seq<char>, Seq<char>)>,
    at: int,
    entry: (Seq<char>, Seq<char>),
)
    requires
        ascending(entries),
        0 <= at <= entries.len(),
        forall|j: int| 0 <= j < at ==> text_before((#[trigger] entries[j]).0, entry.0),
        at < entries.len() ==> text_before(entry.0, entries[at].0),
    ensures
        ascending(entries.insert(at, entry)),
        as_map(entries.insert(at, entry)) =~= as_map(entries).insert(entry.0, entry.1),
{
    let after = entries.insert(at, entry);
    assert forall|j: int| at <= j < entries.len() implies text_before(
        entry.0,
        (#[trigger] entries[j]).0,
    ) by {
        if j > at {
            lemma_text_before_transitive(entry.0, entries[at].0, entries[j].0);
        }
    }
    assert(ascending(after));
    assert forall|k: Seq<char>| #[trigger]
        as_map(after).contains_key(k) <==> as_map(entries).insert(entry.0, entry.1).contains_key(
            k,
        ) by {
        if has_key(entries, k) {
            let i = choose|i: int| 0 <= i < entries.len() && (#[trigger] entries[i]).0 == k;
            if i < at {
                assert(after[i].0 == k);
            } else {
                assert(after[i + 1].0 == k);
            }
        }
        if k == entry.0 {
            assert(after[at].0 == k);
        }
    }
    assert forall|k: Seq<char>| #[trigger] as_map(after).contains_key(k) implies as_map(after)[k]
        == as_map(entries).insert(entry.0, entry.1)[k] by {
        let i = choose|i: int| 0 <= i < after.len() && (#[trigger] after[i]).0 == k;
        lemma_entry_in_map(after, i);
        if i < at {
            lemma_entry_in_map(entries, i);
            lemma_text_before_asymmetric(entries[i].0, entry.0);
        } else if i > at {
            lemma_entry_in_map(entries, i - 1);
            lemma_text_before_asymmetric(entry.0, entries[i - 1].0);
        }
    }
}

} // verus!
