//! Name-keyed entries kept in strictly increasing name order, and the map they hold.

use vstd::prelude::*;

use crate::text::{
    lemma_seq_lt_irreflexive, lemma_seq_lt_total, lemma_seq_lt_transitive, seq_lt, str_eq, str_lt,
};

verus! {

/// Names strictly increase along `entries`.
pub open spec fn names_sorted<V>(entries: Seq<(String, V)>) -> bool {
    forall|i: int, j: int| 0 <= i < j < entries.len() ==> seq_lt(entries[i].0@, entries[j].0@)
}

/// `entries[i]` is named `name`.
pub open spec fn name_at<V>(entries: Seq<(String, V)>, i: int, name: Seq<char>) -> bool {
    0 <= i < entries.len() && entries[i].0@ == name
}

/// The map from name to value view that `entries` holds.
pub open spec fn keyed_map<V: View>(entries: Seq<(String, V)>) -> Map<Seq<char>, V::V> {
    Map::new(
        |name: Seq<char>| exists|i: int| name_at(entries, i, name),
        |name: Seq<char>| entries[choose|i: int| name_at(entries, i, name)].1@,
    )
}

/// The names of `entries`, in order.
pub open spec fn names_of<V>(entries: Seq<(String, V)>) -> Seq<Seq<char>> {
    entries.map_values(|e: (String, V)| e.0@)
}

/// In name-sorted entries, each entry is what the map holds for its name.
pub proof fn lemma_keyed_entry<V: View>(entries: Seq<(String, V)>, i: int)
    requires
        names_sorted(entries),
        0 <= i < entries.len(),
    ensures
        keyed_map(entries).contains_key(entries[i].0@),
        keyed_map(entries)[entries[i].0@] == entries[i].1@,
{
    let name = entries[i].0@;
    assert(name_at(entries, i, name));
    let j = choose|j: int| name_at(entries, j, name);
    lemma_seq_lt_irreflexive(name);
    if j < i {
        assert(seq_lt(entries[j].0@, entries[i].0@));
    } else if i < j {
        assert(seq_lt(entries[i].0@, entries[j].0@));
    }
}

/// A name that orders after every name before `p` and before the name at `p` is absent.
pub proof fn lemma_keyed_absent<V: View>(entries: Seq<(String, V)>, p: int, name: Seq<char>)
    requires
        names_sorted(entries),
        0 <= p <= entries.len(),
        forall|m: int| 0 <= m < p ==> seq_lt(#[trigger] entries[m].0@, name),
        p < entries.len() ==> seq_lt(name, entries[p].0@),
    ensures
        forall|j: int| 0 <= j < entries.len() ==> #[trigger] entries[j].0@ != name,
        !keyed_map(entries).contains_key(name),
{
    lemma_seq_lt_irreflexive(name);
    assert forall|j: int| 0 <= j < entries.len() implies #[trigger] entries[j].0@ != name by {
        if j > p {
            assert(seq_lt(entries[p].0@, entries[j].0@));
            lemma_seq_lt_transitive(name, entries[p].0@, entries[j].0@);
        }
    }
    if keyed_map(entries).contains_key(name) {
        let j = choose|j: int| name_at(entries, j, name);
        assert(entries[j].0@ != name);
    }
}

/// Inserting a new name at its sorted position keeps the names sorted and adds it to the map.
pub proof fn lemma_keyed_insert<V: View>(entries: Seq<(String, V)>, p: int, e: (String, V))
    requires
        names_sorted(entries),
        0 <= p <= entries.len(),
        forall|m: int| 0 <= m < p ==> seq_lt(#[trigger] entries[m].0@, e.0@),
        p < entries.len() ==> seq_lt(e.0@, entries[p].0@),
    ensures
        names_sorted(entries.insert(p, e)),
        !keyed_map(entries).contains_key(e.0@),
        keyed_map(entries.insert(p, e)) == keyed_map(entries).insert(e.0@, e.1@),
{
    let after = entries.insert(p, e);
    let name = e.0@;
    lemma_keyed_absent(entries, p, name);
    assert forall|i: int, j: int| 0 <= i < j < after.len() implies seq_lt(
        after[i].0@,
        after[j].0@,
    ) by {
        if i < p && j == p {
        } else if i == p {
            if j > p + 1 {
                assert(seq_lt(entries[p].0@, entries[j - 1].0@));
                lemma_seq_lt_transitive(name, entries[p].0@, entries[j - 1].0@);
            }
        } else if i < p && j > p {
            assert(seq_lt(entries[i].0@, entries[j - 1].0@));
        } else if i > p {
            assert(seq_lt(entries[i - 1].0@, entries[j - 1].0@));
        } else {
            assert(seq_lt(entries[i].0@, entries[j].0@));
        }
    }
    let m1 = keyed_map(entries);
    let m2 = keyed_map(after);
    assert(after[p] == e);
    lemma_keyed_entry(after, p);
    assert forall|k: Seq<char>| k != name implies (#[trigger] m2.contains_key(k) == m1.contains_key(
        k,
    )) && (m2.contains_key(k) ==> m2[k] == m1[k]) by {
        if m2.contains_key(k) {
            let j = choose|j: int| name_at(after, j, k);
            assert(j != p);
            let b = if j < p {
                j
            } else {
                j - 1
            };
            assert(after[j] == entries[b]);
            assert(name_at(entries, b, k));
            lemma_keyed_entry(after, j);
            lemma_keyed_entry(entries, b);
        }
        if m1.contains_key(k) {
            let j = choose|j: int| name_at(entries, j, k);
            let a = if j < p {
                j
            } else {
                j + 1
            };
            assert(after[a] == entries[j]);
            assert(name_at(after, a, k));
        }
    }
    assert(m2 =~= m1.insert(name, e.1@));
}

/// Replacing the value of an entry keeps the names sorted and maps its name to the new
/// value.
pub proof fn lemma_keyed_update<V: View>(entries: Seq<(String, V)>, i: int, e: (String, V))
    requires
        names_sorted(entries),
        0 <= i < entries.len(),
        e.0@ == entries[i].0@,
    ensures
        names_sorted(entries.update(i, e)),
        keyed_map(entries.update(i, e)) == keyed_map(entries).insert(e.0@, e.1@),
{
    let after = entries.update(i, e);
    let name = e.0@;
    assert forall|a: int, b: int| 0 <= a < b < after.len() implies seq_lt(
        after[a].0@,
        after[b].0@,
    ) by {
        assert(seq_lt(entries[a].0@, entries[b].0@));
    }
    let m1 = keyed_map(entries);
    let m2 = keyed_map(after);
    lemma_keyed_entry(after, i);
    assert forall|k: Seq<char>| k != name implies (#[trigger] m2.contains_key(k) == m1.contains_key(
        k,
    )) && (m2.contains_key(k) ==> m2[k] == m1[k]) by {
        if m2.contains_key(k) {
            let j = choose|j: int| name_at(after, j, k);
            assert(j != i);
            assert(name_at(entries, j, k));
            lemma_keyed_entry(after, j);
            lemma_keyed_entry(entries, j);
        }
        if m1.contains_key(k) {
            let j = choose|j: int| name_at(entries, j, k);
            assert(j != i);
            assert(name_at(after, j, k));
        }
    }
    assert(m2 =~= m1.insert(name, e.1@));
}

/// Removing an entry keeps the names sorted and drops its name from the map.
pub proof fn lemma_keyed_remove<V: View>(entries: Seq<(String, V)>, i: int)
    requires
        names_sorted(entries),
        0 <= i < entries.len(),
    ensures
        names_sorted(entries.remove(i)),
        keyed_map(entries.remove(i)) == keyed_map(entries).remove(entries[i].0@),
{
    let after = entries.remove(i);
    let name = entries[i].0@;
    assert forall|a: int, b: int| 0 <= a < b < after.len() implies seq_lt(
        after[a].0@,
        after[b].0@,
    ) by {
        let x = if a < i {
            a
        } else {
            a + 1
        };
        let y = if b < i {
            b
        } else {
            b + 1
        };
        assert(after[a] == entries[x]);
        assert(after[b] == entries[y]);
        assert(seq_lt(entries[x].0@, entries[y].0@));
    }
    let m1 = keyed_map(entries);
    let m2 = keyed_map(after);
    lemma_seq_lt_irreflexive(name);
    assert forall|j: int| 0 <= j < after.len() implies #[trigger] after[j].0@ != name by {
        if j < i {
            assert(seq_lt(entries[j].0@, name));
        } else {
            assert(after[j] == entries[j + 1]);
            assert(seq_lt(name, entries[j + 1].0@));
        }
    }
    assert forall|k: Seq<char>| (#[trigger] m2.contains_key(k) == (m1.contains_key(k) && k
        != name)) && (m2.contains_key(k) ==> m2[k] == m1[k]) by {
        if m2.contains_key(k) {
            let j = choose|j: int| name_at(after, j, k);
            let b = if j < i {
                j
            } else {
                j + 1
            };
            assert(after[j] == entries[b]);
            assert(name_at(entries, b, k));
            lemma_keyed_entry(after, j);
            lemma_keyed_entry(entries, b);
        }
        if m1.contains_key(k) && k != name {
            let j = choose|j: int| name_at(entries, j, k);
            assert(j != i);
            let a = if j < i {
                j
            } else {
                j - 1
            };
            assert(after[a] == entries[j]);
            assert(name_at(after, a, k));
        }
    }
    assert(m2 =~= m1.remove(name));
}

/// Where `name` is, or where it would go, in name-sorted entries.
pub fn name_position<V>(entries: &Vec<(String, V)>, name: &str) -> (r: Result<usize, usize>)
    requires
        names_sorted(entries@),
    ensures
        match r {
            Ok(i) => i < entries@.len() && entries@[i as int].0@ == name@,
            Err(p) => p <= entries@.len() && (forall|m: int|
                0 <= m < p ==> seq_lt(#[trigger] entries@[m].0@, name@)) && (p < entries@.len()
                ==> seq_lt(name@, entries@[p as int].0@)),
        },
{
    let mut i: usize = 0;
    while i < entries.len()
        invariant
            i <= entries@.len(),
            forall|m: int| 0 <= m < i ==> seq_lt(#[trigger] entries@[m].0@, name@),
        decreases entries.len() - i,
    {
        let current = entries[i].0.as_str();
        if str_eq(current, name) {
            return Ok(i);
        }
        if str_lt(name, current) {
            return Err(i);
        }
        proof {
            lemma_seq_lt_total(name@, current@);
        }
        i = i + 1;
    }
    Err(i)
}

/// Sets the value under `name`, adding the name where it is absent.
pub fn upsert<V: View>(entries: &mut Vec<(String, V)>, name: String, value: V)
    requires
        names_sorted(old(entries)@),
    ensures
        names_sorted(final(entries)@),
        keyed_map(final(entries)@) == keyed_map(old(entries)@).insert(name@, value@),
{
    match name_position(entries, name.as_str()) {
        Ok(i) => {
            let entry = (name, value);
            proof {
                lemma_keyed_update(entries@, i as int, entry);
            }
            entries.set(i, entry);
        },
        Err(p) => {
            let entry = (name, value);
            proof {
                lemma_keyed_insert(entries@, p as int, entry);
            }
            entries.insert(p, entry);
        },
    }
}

} // verus!
