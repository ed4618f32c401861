//! A small table keyed by text, for the handful of entries a bot has.

use vstd::prelude::*;

verus! {

/// A mapping from text keys to values. Each key occurs once; a later
/// insertion under a key replaces the earlier one.
pub struct Table<V> {
    entries: Vec<(String, V)>,
}

spec fn holds<V>(entries: Seq<(String, V)>, key: Seq<char>, i: int) -> bool {
    0 <= i < entries.len() && entries[i].0@ == key
}

spec fn distinct<V>(entries: Seq<(String, V)>) -> bool {
    forall|i: int, j: int|
        0 <= i < entries.len() && 0 <= j < entries.len() && i != j ==> (#[trigger] entries[i]).0@
            != (#[trigger] entries[j]).0@
}

spec fn as_map<V>(entries: Seq<(String, V)>) -> Map<Seq<char>, V> {
    Map::new(
        |key: Seq<char>| exists|i: int| holds(entries, key, i),
        |key: Seq<char>| entries[choose|i: int| holds(entries, key, i)].1,
    )
}

fn position<V>(entries: &Vec<(String, V)>, key: &String) -> (found: Option<usize>)
    ensures
        match found {
            Some(i) => holds(entries@, key@, i as int),
            None => forall|i: int| !holds(entries@, key@, i),
        },
{
    let mut i: usize = 0;
    while i < entries.len()
        invariant
            i <= entries.len(),
            forall|j: int| 0 <= j < i ==> !holds(entries@, key@, j),
        decreases entries.len() - i,
    {
        if entries[i].0 == *key {
            return Some(i);
        }
        i += 1;
    }
    None
}

proof fn lemma_replaced<V>(before: Seq<(String, V)>, after: Seq<(String, V)>, i: int)
    requires
        distinct(before),
        0 <= i < before.len(),
        after == before.update(i, after[i]),
        after[i].0@ == before[i].0@,
    ensures
        distinct(after),
        as_map(after) == as_map(before).insert(after[i].0@, after[i].1),
{
    let key = after[i].0@;
    assert forall|other: Seq<char>| #[trigger]
        as_map(after).dom().contains(other) == as_map(before).insert(
            key,
            after[i].1,
        ).dom().contains(other) by {
        if exists|j: int| holds(before, other, j) {
            let j = choose|j: int| holds(before, other, j);
            assert(holds(after, other, j));
        }
        if exists|j: int| holds(after, other, j) {
            let j = choose|j: int| holds(after, other, j);
            assert(holds(before, other, j));
        }
        assert(holds(after, key, i));
    }
    assert forall|other: Seq<char>| #[trigger] as_map(after).dom().contains(other) implies as_map(
        after,
    )[other] == as_map(before).insert(key, after[i].1)[other] by {
        let j = choose|j: int| holds(after, other, j);
        if other != key {
            let l = choose|l: int| holds(before, other, l);
            assert(holds(before, other, j));
            assert(j == l);
        } else {
            assert(j == i);
        }
    }
    assert(as_map(after) =~= as_map(before).insert(key, after[i].1));
}

proof fn lemma_appended<V>(before: Seq<(String, V)>, entry: (String, V))
    requires
        distinct(before),
        forall|i: int| !holds(before, entry.0@, i),
    ensures
        distinct(before.push(entry)),
        as_map(before.push(entry)) == as_map(before).insert(entry.0@, entry.1),
{
    let after = before.push(entry);
    let key = entry.0@;
    let last = before.len() as int;
    assert forall|i: int, j: int|
        0 <= i < after.len() && 0 <= j < after.len() && i != j implies (#[trigger] after[i]).0@
        != (#[trigger] after[j]).0@ by {
        if i == last {
            assert(!holds(before, key, j));
        } else if j == last {
            assert(!holds(before, key, i));
        }
    }
    assert forall|other: Seq<char>| #[trigger]
        as_map(after).dom().contains(other) == as_map(before).insert(
            key,
            entry.1,
        ).dom().contains(other) by {
        if exists|j: int| holds(before, other, j) {
            let j = choose|j: int| holds(before, other, j);
            assert(holds(after, other, j));
        }
        if exists|j: int| holds(after, other, j) {
            let j = choose|j: int| holds(after, other, j);
            if j != last {
                assert(holds(before, other, j));
            }
        }
        assert(holds(after, key, last));
    }
    assert forall|other: Seq<char>| #[trigger] as_map(after).dom().contains(other) implies as_map(
        after,
    )[other] == as_map(before).insert(key, entry.1)[other] by {
        let j = choose|j: int| holds(after, other, j);
        if other != key {
            let l = choose|l: int| holds(before, other, l);
            assert(holds(before, other, j));
            assert(holds(after, other, l));
            assert(j == l);
        } else {
            if j != last {
                assert(holds(before, key, j));
            }
        }
    }
    assert(as_map(after) =~= as_map(before).insert(key, entry.1));
}

impl<V> Table<V> {
    #[verifier::type_invariant]
    spec fn distinct_keys(self) -> bool {
        distinct(self.entries@)
    }

    /// The table as a map from keys to values.
    pub closed spec fn view(&self) -> Map<Seq<char>, V> {
        as_map(self.entries@)
    }

    /// The empty table.
    pub fn new() -> (table: Self)
        ensures
            table@ == Map::<Seq<char>, V>::empty(),
    {
        let table = Table { entries: Vec::new() };
        assert(table@ =~= Map::<Seq<char>, V>::empty());
        table
    }

    /// Puts `value` under `key`, in place of what was there.
    pub fn insert(&mut self, key: String, value: V)
        ensures
            final(self)@ == old(self)@.insert(key@, value),
    {
        proof {
            use_type_invariant(&*self);
        }
        let ghost before = self.entries@;
        let mut entries: Vec<(String, V)> = Vec::new();
        core::mem::swap(&mut self.entries, &mut entries);
        match position(&entries, &key) {
            Some(i) => {
                entries.set(i, (key, value));
                proof {
                    lemma_replaced(before, entries@, i as int);
                }
            },
            None => {
                proof {
                    lemma_appended(before, (key, value));
                }
                entries.push((key, value));
            },
        }
        core::mem::swap(&mut self.entries, &mut entries);
    }

    /// The value under `key`, if there is one.
    pub fn get(&self, key: &str) -> (found: Option<&V>)
        ensures
            match found {
                Some(value) => self@.contains_key(key@) && self@[key@] == *value,
                None => !self@.contains_key(key@),
            },
    {
        proof {
            use_type_invariant(self);
        }
        let owned = key.to_owned();
        match position(&self.entries, &owned) {
            Some(i) => {
                proof {
                    let j = choose|j: int| holds(self.entries@, key@, j);
                    assert(holds(self.entries@, key@, i as int));
                    assert(j == i);
                }
                Some(&self.entries[i].1)
            },
            None => None,
        }
    }
}

} // verus!
