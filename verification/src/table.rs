//! Tables with text keys, kept in key order.

use crate::text::{text_before, text_before_irreflexive, text_before_transitive, text_order, TextOrder};
use vstd::prelude::*;

verus! {

/// What a list of entries maps each key to: where a key comes twice, the later
/// entry counts.
pub open spec fn collected<V>(entries: Seq<(String, V)>) -> Map<Seq<char>, V>
    decreases entries.len(),
{
    if entries.len() == 0 {
        Map::empty()
    } else {
        collected(entries.drop_last()).insert(entries.last().0@, entries.last().1)
    }
}

/// Whether no key comes twice.
pub open spec fn distinct_keys<V>(entries: Seq<(String, V)>) -> bool {
    forall|i: int, j: int| 0 <= i < j < entries.len() ==> entries[i].0@ != entries[j].0@
}

/// Whether the keys stand in strictly increasing order.
pub open spec fn in_key_order<V>(entries: Seq<(String, V)>) -> bool {
    forall|i: int, j: int|
        0 <= i < j < entries.len() ==> text_before(#[trigger] entries[i].0@, #[trigger] entries[j].0@)
}

/// Keys in strictly increasing order are distinct.
pub proof fn ordered_keys_are_distinct<V>(entries: Seq<(String, V)>)
    requires
        in_key_order(entries),
    ensures
        distinct_keys(entries),
{
    assert forall|i: int, j: int| 0 <= i < j < entries.len() implies entries[i].0@ != entries[j].0@ by {
        text_before_irreflexive(entries[i].0@);
    }
}

/// A key is collected exactly if some entry has it.
pub proof fn collected_keys<V>(entries: Seq<(String, V)>, key: Seq<char>)
    ensures
        collected(entries).contains_key(key) <==> exists|i: int|
            0 <= i < entries.len() && #[trigger] entries[i].0@ == key,
    decreases entries.len(),
{
    if entries.len() > 0 {
        let rest = entries.drop_last();
        collected_keys(rest, key);
        if collected(rest).contains_key(key) {
            let i = choose|i: int| 0 <= i < rest.len() && #[trigger] rest[i].0@ == key;
            assert(entries[i].0@ == key);
        }
        if entries.last().0@ == key {
            assert(entries[entries.len() - 1].0@ == key);
        }
        if exists|i: int| 0 <= i < entries.len() && #[trigger] entries[i].0@ == key {
            let i = choose|i: int| 0 <= i < entries.len() && #[trigger] entries[i].0@ == key;
            if i < rest.len() {
                assert(rest[i].0@ == key);
            }
        }
    }
}

/// Among distinct keys each entry is collected with its own value.
pub proof fn collected_value<V>(entries: Seq<(String, V)>, i: int)
    requires
        distinct_keys(entries),
        0 <= i < entries.len(),
    ensures
        collected(entries).contains_key(entries[i].0@),
        collected(entries)[entries[i].0@] == entries[i].1,
    decreases entries.len(),
{
    let rest = entries.drop_last();
    if i < rest.len() {
        assert(distinct_keys(rest)) by {
            assert forall|a: int, b: int| 0 <= a < b < rest.len() implies rest[a].0@ != rest[b].0@ by {
                assert(entries[a].0@ != entries[b].0@);
            }
        }
        collected_value(rest, i);
        assert(rest[i] == entries[i]);
        assert(entries[i].0@ != entries[entries.len() - 1].0@);
    }
}

/// Taking out the entry at an index takes out its key.
proof fn remove_at_place<V>(entries: Seq<(String, V)>, index: int)
    requires
        in_key_order(entries),
        0 <= index < entries.len(),
    ensures
        in_key_order(entries.remove(index)),
        collected(entries.remove(index)) == collected(entries).remove(entries[index].0@),
{
    let rest = entries.remove(index);
    let key = entries[index].0@;
    ordered_keys_are_distinct(entries);
    assert forall|i: int, j: int| 0 <= i < j < rest.len() implies text_before(
        #[trigger] rest[i].0@,
        #[trigger] rest[j].0@,
    ) by {
        let a = if i < index { i } else { i + 1 };
        let b = if j < index { j } else { j + 1 };
        assert(rest[i] == entries[a]);
        assert(rest[j] == entries[b]);
    }
    ordered_keys_are_distinct(rest);
    let expected = collected(entries).remove(key);
    assert forall|k: Seq<char>| #[trigger] collected(rest).contains_key(k) implies expected.contains_key(
        k,
    ) && expected[k] == collected(rest)[k] by {
        collected_keys(rest, k);
        let i = choose|i: int| 0 <= i < rest.len() && #[trigger] rest[i].0@ == k;
        let a = if i < index { i } else { i + 1 };
        assert(rest[i] == entries[a]);
        collected_value(rest, i);
        collected_value(entries, a);
        if a < index {
            assert(entries[a].0@ != entries[index].0@);
        } else {
            assert(entries[index].0@ != entries[a].0@);
        }
    }
    assert forall|k: Seq<char>| #[trigger] expected.contains_key(k) implies collected(
        rest,
    ).contains_key(k) by {
        collected_keys(entries, k);
        let a = choose|a: int| 0 <= a < entries.len() && #[trigger] entries[a].0@ == k;
        let i = if a < index { a } else { a - 1 };
        assert(rest[i] == entries[a]);
        collected_keys(rest, k);
    }
    assert(collected(rest) =~= expected);
}

/// Putting an entry in between the smaller and the greater keys keeps the order.
proof fn insert_keeps_order<V>(kept: Seq<(String, V)>, index: int, key: String, value: V)
    requires
        in_key_order(kept),
        0 <= index <= kept.len(),
        forall|i: int| 0 <= i < index ==> text_before(#[trigger] kept[i].0@, key@),
        forall|j: int| index <= j < kept.len() ==> text_before(key@, #[trigger] kept[j].0@),
    ensures
        in_key_order(kept.insert(index, (key, value))),
{
    let next = kept.insert(index, (key, value));
    assert forall|i: int, j: int| 0 <= i < j < next.len() implies text_before(
        #[trigger] next[i].0@,
        #[trigger] next[j].0@,
    ) by {
        if i < index {
            assert(next[i] == kept[i]);
        } else if i > index {
            assert(next[i] == kept[i - 1]);
        }
        if j < index {
            assert(next[j] == kept[j]);
        } else if j > index {
            assert(next[j] == kept[j - 1]);
        }
    }
}

/// Putting in an entry whose key is new, anywhere, gives the key its value.
proof fn insert_new_key<V>(kept: Seq<(String, V)>, index: int, key: String, value: V)
    requires
        0 <= index <= kept.len(),
        distinct_keys(kept),
        distinct_keys(kept.insert(index, (key, value))),
    ensures
        collected(kept.insert(index, (key, value))) == collected(kept).insert(key@, value),
{
    let next = kept.insert(index, (key, value));
    let expected = collected(kept).insert(key@, value);
    assert forall|k: Seq<char>| #[trigger] collected(next).contains_key(k) implies expected.contains_key(
        k,
    ) && expected[k] == collected(next)[k] by {
        collected_keys(next, k);
        let i = choose|i: int| 0 <= i < next.len() && #[trigger] next[i].0@ == k;
        collected_value(next, i);
        if i < index {
            assert(next[i] == kept[i]);
            collected_value(kept, i);
            assert(next[i].0@ != next[index].0@);
        } else if i > index {
            assert(next[i] == kept[i - 1]);
            collected_value(kept, i - 1);
            assert(next[index].0@ != next[i].0@);
        }
    }
    assert forall|k: Seq<char>| #[trigger] expected.contains_key(k) implies collected(
        next,
    ).contains_key(k) by {
        collected_keys(next, k);
        if k == key@ {
            assert(next[index].0@ == k);
        } else {
            collected_keys(kept, k);
            let a = choose|a: int| 0 <= a < kept.len() && #[trigger] kept[a].0@ == k;
            if a < index {
                assert(next[a] == kept[a]);
            } else {
                assert(next[a + 1] == kept[a]);
            }
        }
    }
    assert(collected(next) =~= expected);
}

/// Putting an entry in between the smaller and the greater keys keeps the order, and
/// gives the key its value.
proof fn insert_between<V>(kept: Seq<(String, V)>, index: int, key: String, value: V)
    requires
        in_key_order(kept),
        0 <= index <= kept.len(),
        forall|i: int| 0 <= i < index ==> text_before(#[trigger] kept[i].0@, key@),
        forall|j: int| index <= j < kept.len() ==> text_before(key@, #[trigger] kept[j].0@),
    ensures
        in_key_order(kept.insert(index, (key, value))),
        collected(kept.insert(index, (key, value))) == collected(kept).insert(key@, value),
{
    insert_keeps_order(kept, index, key, value);
    ordered_keys_are_distinct(kept);
    ordered_keys_are_distinct(kept.insert(index, (key, value)));
    insert_new_key(kept, index, key, value);
}

/// Putting an entry in before the first greater key, where no entry has its key.
proof fn insert_at_gap<V>(entries: Seq<(String, V)>, index: int, key: String, value: V)
    requires
        in_key_order(entries),
        0 <= index <= entries.len(),
        index < entries.len() ==> text_before(key@, entries[index].0@),
        forall|i: int| 0 <= i < index ==> text_before(#[trigger] entries[i].0@, key@),
    ensures
        in_key_order(entries.insert(index, (key, value))),
        collected(entries.insert(index, (key, value))) == collected(entries).insert(key@, value),
{
    assert forall|j: int| index <= j < entries.len() implies text_before(
        key@,
        #[trigger] entries[j].0@,
    ) by {
        if index < j {
            text_before_transitive(key@, entries[index].0@, entries[j].0@);
        }
    }
    insert_between(entries, index, key, value);
}

/// Putting an entry in the place of one with the same key.
proof fn replace_at_place<V>(entries: Seq<(String, V)>, index: int, key: String, value: V)
    requires
        in_key_order(entries),
        0 <= index < entries.len(),
        entries[index].0@ == key@,
        forall|i: int| 0 <= i < index ==> text_before(#[trigger] entries[i].0@, key@),
    ensures
        in_key_order(entries.remove(index).insert(index, (key, value))),
        collected(entries.remove(index).insert(index, (key, value))) == collected(entries).insert(
            key@,
            value,
        ),
{
    let kept = entries.remove(index);
    remove_at_place(entries, index);
    assert forall|j: int| index <= j < kept.len() implies text_before(key@, #[trigger] kept[j].0@) by {
        assert(kept[j] == entries[j + 1]);
        assert(text_before(entries[index].0@, entries[j + 1].0@));
    }
    assert forall|i: int| 0 <= i < index implies text_before(#[trigger] kept[i].0@, key@) by {
        assert(kept[i] == entries[i]);
    }
    insert_between(kept, index, key, value);
    assert(collected(entries).remove(key@).insert(key@, value) =~= collected(entries).insert(
        key@,
        value,
    ));
}

/// Finds where a key stands, or would stand.
fn place_of<V>(entries: &Vec<(String, V)>, key: &str) -> (r: (usize, bool))
    requires
        in_key_order(entries@),
    ensures
        r.0 <= entries.len(),
        r.1 ==> r.0 < entries.len() && entries@[r.0 as int].0@ == key@,
        !r.1 && r.0 < entries.len() ==> text_before(key@, entries@[r.0 as int].0@),
        forall|i: int| 0 <= i < r.0 ==> text_before(#[trigger] entries@[i].0@, key@),
        r.1 <==> exists|i: int| 0 <= i < entries.len() && #[trigger] entries@[i].0@ == key@,
{
    let mut index: usize = 0;
    while index < entries.len()
        invariant
            index <= entries.len(),
            in_key_order(entries@),
            forall|i: int| 0 <= i < index ==> text_before(#[trigger] entries@[i].0@, key@),
        decreases entries.len() - index,
    {
        match text_order(entries[index].0.as_str(), key) {
            TextOrder::Before => {
                index = index + 1;
            },
            TextOrder::Same => {
                return (index, true);
            },
            TextOrder::After => {
                proof {
                    text_before_irreflexive(key@);
                    assert forall|i: int| 0 <= i < entries.len() implies #[trigger] entries@[i].0@
                        != key@ by {
                        if i > index {
                            text_before_transitive(
                                key@,
                                entries@[index as int].0@,
                                entries@[i].0@,
                            );
                        }
                    }
                }
                return (index, false);
            },
        }
    }
    proof {
        text_before_irreflexive(key@);
    }
    (index, false)
}

/// A map from text to `V` whose entries stand in the byte order of their keys.
#[derive(Debug, PartialEq, Eq)]
pub struct StringTable<V> {
    entries: Vec<(String, V)>,
}

impl<V> View for StringTable<V> {
    type V = Map<Seq<char>, V>;

    closed spec fn view(&self) -> Map<Seq<char>, V> {
        collected(self.entries@)
    }
}

impl<V> StringTable<V> {
    #[verifier::type_invariant]
    closed spec fn ordered(self) -> bool {
        in_key_order(self.entries@)
    }

    /// An empty table.
    pub fn new() -> (r: Self)
        ensures
            r@ == Map::<Seq<char>, V>::empty(),
    {
        StringTable { entries: Vec::new() }
    }

    /// The entries, in the order of their keys.
    pub fn entries(&self) -> (r: &Vec<(String, V)>)
        ensures
            collected(r@) == self@,
            in_key_order(r@),
            distinct_keys(r@),
    {
        proof {
            use_type_invariant(self);
            ordered_keys_are_distinct(self.entries@);
        }
        &self.entries
    }

    /// The value of a key.
    pub fn get(&self, key: &str) -> (r: Option<&V>)
        ensures
            match r {
                Some(value) => self@.contains_key(key@) && *value == self@[key@],
                None => !self@.contains_key(key@),
            },
    {
        proof {
            use_type_invariant(self);
            ordered_keys_are_distinct(self.entries@);
        }
        let (index, found) = place_of(&self.entries, key);
        proof {
            collected_keys(self.entries@, key@);
        }
        if found {
            proof {
                collected_value(self.entries@, index as int);
            }
            Some(&self.entries[index].1)
        } else {
            None
        }
    }

    /// Gives a key a value, in place of the one that it had.
    pub fn insert(&mut self, key: String, value: V)
        ensures
            final(self)@ == old(self)@.insert(key@, value),
    {
        proof {
            use_type_invariant(&*self);
        }
        let mut entries: Vec<(String, V)> = Vec::new();
        std::mem::swap(&mut entries, &mut self.entries);
        let ghost before = entries@;
        let (index, found) = place_of(&entries, key.as_str());
        if found {
            entries.remove(index);
        }
        entries.insert(index, (key, value));
        proof {
            if found {
                replace_at_place(before, index as int, key, value);
            } else {
                insert_at_gap(before, index as int, key, value);
            }
        }
        self.entries = entries;
    }

    /// Takes a key out of the table, and gives back its value.
    pub fn remove(&mut self, key: &str) -> (r: Option<V>)
        ensures
            final(self)@ == old(self)@.remove(key@),
            match r {
                Some(value) => old(self)@.contains_key(key@) && value == old(self)@[key@],
                None => !old(self)@.contains_key(key@),
            },
    {
        proof {
            use_type_invariant(&*self);
        }
        let mut entries: Vec<(String, V)> = Vec::new();
        std::mem::swap(&mut entries, &mut self.entries);
        let ghost before = entries@;
        let (index, found) = place_of(&entries, key);
        proof {
            ordered_keys_are_distinct(before);
            collected_keys(before, key@);
        }
        let r = if found {
            proof {
                collected_value(before, index as int);
                remove_at_place(before, index as int);
            }
            let (_, value) = entries.remove(index);
            Some(value)
        } else {
            assert(collected(before).remove(key@) =~= collected(before));
            None
        };
        self.entries = entries;
        r
    }
}

/// An entry counts whatever stands before it, and no entries map nothing.
pub proof fn later_entries_count<V>(entries: Seq<(String, V)>, key: String, value: V)
    ensures
        collected(Seq::<(String, V)>::empty()) == Map::<Seq<char>, V>::empty(),
        collected(entries.push((key, value))) == collected(entries).insert(key@, value),
{
    assert(entries.push((key, value)).drop_last() =~= entries);
}

/// Entries whose keys are distinct have no two with one key.
pub proof fn distinct_keys_differ<V>(entries: Seq<(String, V)>, i: int, j: int)
    requires
        distinct_keys(entries),
        0 <= i < entries.len(),
        0 <= j < entries.len(),
        i != j,
    ensures
        entries[i].0@ != entries[j].0@,
{
    if i < j {
        assert(entries[i].0@ != entries[j].0@);
    } else {
        assert(entries[j].0@ != entries[i].0@);
    }
}

/// Of entries in key order the earlier has the smaller key.
pub proof fn ordered_keys_increase<V>(entries: Seq<(String, V)>, i: int, j: int)
    requires
        in_key_order(entries),
        0 <= i < j < entries.len(),
    ensures
        text_before(entries[i].0@, entries[j].0@),
{
}

} // verus!
