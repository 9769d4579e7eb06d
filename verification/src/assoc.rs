//! Named entries kept in a vector, where a later entry overrides an earlier
//! one of the same name: the model of a map filled by successive inserts.

use vstd::prelude::*;
use crate::text::str_eq;

verus! {

/// The map that successive inserts of `entries`, in order, leave behind.
pub open spec fn assoc_map<V>(entries: Seq<(Seq<char>, V)>) -> Map<Seq<char>, V>
    decreases entries.len(),
{
    if entries.len() == 0 {
        Map::empty()
    } else {
        assoc_map(entries.drop_last()).insert(entries.last().0, entries.last().1)
    }
}

/// The names of `entries` taken as text, with their values.
pub open spec fn named<V>(entries: Seq<(String, V)>) -> Seq<(Seq<char>, V)> {
    entries.map_values(|e: (String, V)| (e.0@, e.1))
}

/// The map holds a name exactly when some entry has it, and then the value of
/// the last such entry.
pub proof fn lemma_assoc_map<V>(entries: Seq<(Seq<char>, V)>, key: Seq<char>)
    ensures
        assoc_map(entries).contains_key(key) <==> exists|i: int|
            0 <= i < entries.len() && #[trigger] entries[i].0 == key,
        forall|j: int|
            0 <= j < entries.len() && entries[j].0 == key && (forall|i: int|
                j < i < entries.len() ==> #[trigger] entries[i].0 != key) ==> assoc_map(entries)[key]
                == #[trigger] entries[j].1,
    decreases entries.len(),
{
    if entries.len() > 0 {
        let prev = entries.drop_last();
        lemma_assoc_map(prev, key);
        let n = entries.len() - 1;
        if entries.last().0 != key {
            assert forall|i: int| 0 <= i < prev.len() && #[trigger] prev[i].0 == key implies
                entries[i].0 == key by {
            }
            if assoc_map(entries).contains_key(key) {
                let i = choose|i: int| 0 <= i < prev.len() && #[trigger] prev[i].0 == key;
                assert(entries[i].0 == key);
            }
            if exists|i: int| 0 <= i < entries.len() && #[trigger] entries[i].0 == key {
                let i = choose|i: int| 0 <= i < entries.len() && #[trigger] entries[i].0 == key;
                assert(i != n);
                assert(prev[i].0 == key);
            }
            assert forall|j: int|
                0 <= j < entries.len() && entries[j].0 == key && (forall|i: int|
                    j < i < entries.len() ==> #[trigger] entries[i].0 != key) implies assoc_map(
                entries)[key] == #[trigger] entries[j].1 by {
                assert(j != n);
                assert(prev[j].0 == key);
                assert forall|i: int| j < i < prev.len() implies #[trigger] prev[i].0 != key by {
                    assert(entries[i].0 != key);
                }
            }
        } else {
            assert(entries[n].0 == key);
            assert forall|j: int|
                0 <= j < entries.len() && entries[j].0 == key && (forall|i: int|
                    j < i < entries.len() ==> #[trigger] entries[i].0 != key) implies assoc_map(
                entries)[key] == #[trigger] entries[j].1 by {
                if j != n {
                    assert(entries[n].0 != key);
                }
            }
        }
    }
}

/// Position of the last entry named `key`.
pub fn find_last<V>(entries: &Vec<(String, V)>, key: &str) -> (r: Option<usize>)
    ensures
        match r {
            Some(i) => i < entries@.len() && entries@[i as int].0@ == key@ && forall|j: int|
                i < j < entries@.len() ==> #[trigger] entries@[j].0@ != key@,
            None => forall|j: int| 0 <= j < entries@.len() ==> #[trigger] entries@[j].0@ != key@,
        },
{
    let mut i: usize = entries.len();
    while i > 0
        invariant
            i <= entries@.len(),
            forall|j: int| i <= j < entries@.len() ==> #[trigger] entries@[j].0@ != key@,
        decreases i,
    {
        if str_eq(entries[i - 1].0.as_str(), key) {
            return Some(i - 1);
        }
        i = i - 1;
    }
    None
}

/// The value of the last entry named `key`, as the map of successive inserts
/// gives it (`HashMap::get`).
pub fn lookup<'a, V>(entries: &'a Vec<(String, V)>, key: &str) -> (r: Option<&'a V>)
    ensures
        match r {
            Some(v) => assoc_map(named(entries@)).contains_key(key@) && assoc_map(named(entries@))[key@]
                == *v,
            None => !assoc_map(named(entries@)).contains_key(key@),
        },
{
    let ghost s = named(entries@);
    proof {
        lemma_assoc_map(s, key@);
    }
    match find_last(entries, key) {
        Some(i) => {
            proof {
                assert(s[i as int].0 == key@);
                assert forall|j: int| i < j < s.len() implies #[trigger] s[j].0 != key@ by {
                    assert(entries@[j].0@ != key@);
                }
                assert(assoc_map(s)[key@] == s[i as int].1);
            }
            Some(&entries[i].1)
        },
        None => {
            proof {
                assert forall|j: int| 0 <= j < s.len() implies #[trigger] s[j].0 != key@ by {
                    assert(entries@[j].0@ != key@);
                }
            }
            None
        },
    }
}

} // verus!
