//! Small name-to-value tables.
//!
//! The frame model keeps its registers and expression results, and the
//! debugger model its attachable processes, as association lists looked up by
//! name. Lookup finds the first entry with the given name.

use vstd::prelude::*;

verus! {

/// The names and payloads of a table, at the specification level.
pub open spec fn table_view<V>(t: Seq<(String, V)>) -> Seq<(Seq<char>, V)> {
    t.map_values(|p: (String, V)| (p.0@, p.1))
}

/// Index of the first entry named `name`, if any.
pub open spec fn table_find<V>(t: Seq<(Seq<char>, V)>, name: Seq<char>) -> Option<int>
    decreases t.len(),
{
    if t.len() == 0 {
        None
    } else if t[0].0 == name {
        Some(0)
    } else {
        match table_find(t.drop_first(), name) {
            Some(i) => Some(i + 1),
            None => None,
        }
    }
}

/// Payload of the first entry named `name`, if any.
pub open spec fn table_lookup<V>(t: Seq<(Seq<char>, V)>, name: Seq<char>) -> Option<V> {
    match table_find(t, name) {
        Some(i) => Some(t[i].1),
        None => None,
    }
}

/// `table_find` returns exactly the first matching index.
pub proof fn lemma_table_find_at<V>(t: Seq<(Seq<char>, V)>, name: Seq<char>, k: int)
    requires
        0 <= k <= t.len(),
        forall|j: int| 0 <= j < k ==> t[j].0 != name,
        k < t.len() ==> t[k].0 == name,
    ensures
        k < t.len() ==> table_find(t, name) == Some(k),
        k == t.len() ==> table_find(t, name).is_none(),
    decreases k,
{
    if t.len() == 0 {
    } else if k == 0 {
    } else {
        let rest = t.drop_first();
        assert(forall|j: int| 0 <= j < k - 1 ==> rest[j].0 != name);
        lemma_table_find_at(rest, name, k - 1);
    }
}

/// Whatever index `table_find` returns is in range and is a first match.
pub proof fn lemma_table_find_props<V>(t: Seq<(Seq<char>, V)>, name: Seq<char>)
    ensures
        match table_find(t, name) {
            Some(i) => 0 <= i < t.len() && t[i].0 == name && forall|j: int|
                0 <= j < i ==> t[j].0 != name,
            None => forall|j: int| 0 <= j < t.len() ==> t[j].0 != name,
        },
    decreases t.len(),
{
    if t.len() == 0 {
    } else if t[0].0 == name {
    } else {
        let rest = t.drop_first();
        lemma_table_find_props(rest, name);
        match table_find(rest, name) {
            Some(i) => {
                assert(rest[i] == t[i + 1]);
                assert forall|j: int| 0 <= j < i + 1 implies t[j].0 != name by {
                    if j > 0 {
                        assert(rest[j - 1].0 != name);
                        assert(rest[j - 1] == t[j]);
                    }
                }
            },
            None => {
                assert forall|j: int| 0 <= j < t.len() implies t[j].0 != name by {
                    if j > 0 {
                        assert(rest[j - 1].0 != name);
                        assert(rest[j - 1] == t[j]);
                    }
                }
            },
        }
    }
}

/// Finds the first entry named `name` and returns its index.
pub fn table_find_exec<V>(t: &Vec<(String, V)>, name: &str) -> (r: Option<usize>)
    ensures
        match r {
            Some(i) => i < t.len() && table_find(table_view(t@), name@) == Some(i as int),
            None => table_find(table_view(t@), name@).is_none(),
        },
{
    let wanted: String = name.to_owned();
    let ghost tv = table_view(t@);
    let mut i: usize = 0;
    while i < t.len()
        invariant
            i <= t.len(),
            tv == table_view(t@),
            wanted@ == name@,
            forall|j: int| 0 <= j < i ==> tv[j].0 != name@,
        decreases t.len() - i,
    {
        if t[i].0 == wanted {
            proof {
                lemma_table_find_at(tv, name@, i as int);
            }
            return Some(i);
        }
        i += 1;
    }
    proof {
        lemma_table_find_at(tv, name@, t@.len() as int);
    }
    None
}

} // verus!
