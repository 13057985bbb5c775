//! Insertion-ordered association lists: the model of the ordered maps and of
//! the members of a JSON object.

use vstd::prelude::*;

verus! {

/// The index of the first entry at or after `from` whose key is `key`.
pub open spec fn position_from<V>(entries: Seq<(Seq<char>, V)>, key: Seq<char>, from: int) -> Option<
    int,
>
    decreases entries.len() - from,
{
    if from < 0 || from >= entries.len() {
        None
    } else if entries[from].0 == key {
        Some(from)
    } else {
        position_from(entries, key, from + 1)
    }
}

/// The index of the first entry whose key is `key`.
pub open spec fn position<V>(entries: Seq<(Seq<char>, V)>, key: Seq<char>) -> Option<int> {
    position_from(entries, key, 0)
}

/// The value of the first entry whose key is `key`.
pub open spec fn lookup<V>(entries: Seq<(Seq<char>, V)>, key: Seq<char>) -> Option<V> {
    match position(entries, key) {
        Some(i) => Some(entries[i].1),
        None => None,
    }
}

/// Sets the value of `key`: an entry that bears the key keeps its place and
/// takes the new value; otherwise a new entry goes to the end.
pub open spec fn upsert<V>(entries: Seq<(Seq<char>, V)>, key: Seq<char>, value: V) -> Seq<
    (Seq<char>, V),
> {
    match position(entries, key) {
        Some(i) => entries.update(i, (key, value)),
        None => entries.push((key, value)),
    }
}

/// Whether no two entries bear the same key.
pub open spec fn distinct_keys<V>(entries: Seq<(Seq<char>, V)>) -> bool {
    forall|i: int, j: int|
        0 <= i < j < entries.len() ==> (#[trigger] entries[i]).0 != (#[trigger] entries[j]).0
}

/// Whether some entry bears `key`.
pub open spec fn has_key<V>(entries: Seq<(Seq<char>, V)>, key: Seq<char>) -> bool {
    exists|i: int| 0 <= i < entries.len() && (#[trigger] entries[i]).0 == key
}

/// What [`position_from`] finds is the first entry with the key, and it
/// finds nothing only where no entry from `from` on bears the key.
pub proof fn lemma_position_from<V>(entries: Seq<(Seq<char>, V)>, key: Seq<char>, from: int)
    requires
        0 <= from,
    ensures
        match position_from(entries, key, from) {
            Some(i) => {
                &&& from <= i < entries.len()
                &&& entries[i].0 == key
                &&& forall|j: int| from <= j < i ==> (#[trigger] entries[j]).0 != key
            },
            None => forall|j: int|
                from <= j < entries.len() ==> (#[trigger] entries[j]).0 != key,
        },
    decreases entries.len() - from,
{
    if from < entries.len() && entries[from].0 != key {
        lemma_position_from(entries, key, from + 1);
    }
}

/// An index is the position of a key exactly where it is the first entry
/// with that key.
pub proof fn lemma_position_is<V>(entries: Seq<(Seq<char>, V)>, key: Seq<char>, i: int)
    requires
        0 <= i < entries.len(),
        entries[i].0 == key,
        forall|j: int| 0 <= j < i ==> (#[trigger] entries[j]).0 != key,
    ensures
        position(entries, key) == Some(i),
{
    lemma_position_from(entries, key, 0);
}

/// A key is found exactly where some entry bears it.
pub proof fn lemma_lookup_iff_has_key<V>(entries: Seq<(Seq<char>, V)>, key: Seq<char>)
    ensures
        lookup(entries, key) is Some <==> has_key(entries, key),
        position(entries, key) is Some <==> has_key(entries, key),
{
    lemma_position_from(entries, key, 0);
}

/// After a key was set, looking it up gives the new value.
pub proof fn lemma_lookup_upsert_same<V>(entries: Seq<(Seq<char>, V)>, key: Seq<char>, value: V)
    ensures
        lookup(upsert(entries, key, value), key) == Some(value),
{
    lemma_position_from(entries, key, 0);
    let after = upsert(entries, key, value);
    match position(entries, key) {
        Some(i) => {
            assert forall|j: int| 0 <= j < i implies (#[trigger] after[j]).0 != key by {
                assert(after[j] == entries[j]);
            }
            lemma_position_is(after, key, i);
        },
        None => {
            let i = entries.len() as int;
            assert forall|j: int| 0 <= j < i implies (#[trigger] after[j]).0 != key by {
                assert(after[j] == entries[j]);
            }
            lemma_position_is(after, key, i);
        },
    }
}

/// Setting one key leaves the value of every other key as it was.
pub proof fn lemma_lookup_upsert_other<V>(
    entries: Seq<(Seq<char>, V)>,
    key: Seq<char>,
    value: V,
    other: Seq<char>,
)
    requires
        other != key,
    ensures
        lookup(upsert(entries, key, value), other) == lookup(entries, other),
{
    lemma_position_from(entries, key, 0);
    lemma_position_from(entries, other, 0);
    let after = upsert(entries, key, value);
    assert forall|j: int| 0 <= j < entries.len() implies (#[trigger] after[j]).0 == entries[j].0 by {}
    match position(entries, other) {
        Some(i) => {
            assert forall|j: int| 0 <= j < i implies (#[trigger] after[j]).0 != other by {
                assert(after[j].0 == entries[j].0);
            }
            assert(after[i].0 == entries[i].0);
            lemma_position_is(after, other, i);
            assert(after[i] == entries[i]);
        },
        None => {
            lemma_position_from(after, other, 0);
            if position(after, other) is Some {
                let i = position(after, other).unwrap();
                if i < entries.len() {
                    assert(after[i].0 == entries[i].0);
                }
            }
        },
    }
}

/// Setting a key keeps the keys distinct.
pub proof fn lemma_upsert_distinct<V>(entries: Seq<(Seq<char>, V)>, key: Seq<char>, value: V)
    requires
        distinct_keys(entries),
    ensures
        distinct_keys(upsert(entries, key, value)),
{
    lemma_position_from(entries, key, 0);
    let after = upsert(entries, key, value);
    assert forall|i: int, j: int| 0 <= i < j < after.len() implies (#[trigger] after[i]).0 != (
    #[trigger] after[j]).0 by {
        match position(entries, key) {
            Some(p) => {
                assert(after[i].0 == entries[i].0);
                assert(after[j].0 == entries[j].0);
            },
            None => {
                assert(after[i] == entries[i]);
                if j < entries.len() {
                    assert(after[j] == entries[j]);
                }
            },
        }
    }
}

/// Setting a key adds it to the keys and removes none.
pub proof fn lemma_upsert_has_key<V>(
    entries: Seq<(Seq<char>, V)>,
    key: Seq<char>,
    value: V,
    other: Seq<char>,
)
    ensures
        has_key(upsert(entries, key, value), other) <==> (other == key || has_key(entries, other)),
{
    lemma_lookup_iff_has_key(entries, other);
    lemma_lookup_iff_has_key(upsert(entries, key, value), other);
    if other == key {
        lemma_lookup_upsert_same(entries, key, value);
    } else {
        lemma_lookup_upsert_other(entries, key, value, other);
    }
}

} // verus!
