//! An address-keyed store.
//!
//! The tracker keeps its breakpoint handles and its handler registrations
//! keyed by instruction address. Lookup finds the first entry with the given
//! address; insertion overwrites that entry, or appends a new one.

use vstd::prelude::*;

verus! {

/// Index of the first entry keyed `k`, if any.
pub open spec fn key_find<V>(s: Seq<(u64, V)>, k: u64) -> Option<int>
    decreases s.len(),
{
    if s.len() == 0 {
        None
    } else if s[0].0 == k {
        Some(0)
    } else {
        match key_find(s.drop_first(), k) {
            Some(i) => Some(i + 1),
            None => None,
        }
    }
}

/// `key_find` returns exactly the first matching index.
proof fn lemma_key_find_at<V>(s: Seq<(u64, V)>, k: u64, i: int)
    requires
        0 <= i <= s.len(),
        forall|j: int| 0 <= j < i ==> s[j].0 != k,
        i < s.len() ==> s[i].0 == k,
    ensures
        i < s.len() ==> key_find(s, k) == Some(i),
        i == s.len() ==> key_find(s, k).is_none(),
    decreases i,
{
    if s.len() == 0 {
    } else if i == 0 {
    } else {
        let rest = s.drop_first();
        assert(forall|j: int| 0 <= j < i - 1 ==> rest[j] == s[j + 1] && rest[j].0 != k);
        assert(i - 1 < rest.len() ==> rest[i - 1] == s[i]);
        lemma_key_find_at(rest, k, i - 1);
    }
}

/// Appending an entry leaves every present key where it was, and makes the
/// appended key found at the end when it was absent.
proof fn lemma_key_find_push<V>(s: Seq<(u64, V)>, p: (u64, V), k: u64)
    ensures
        key_find(s.push(p), k) == (match key_find(s, k) {
            Some(i) => Some(i),
            None => if p.0 == k {
                Some(s.len() as int)
            } else {
                None::<int>
            },
        }),
    decreases s.len(),
{
    let t = s.push(p);
    if s.len() == 0 {
        assert(t.len() == 1);
        assert(t[0] == p);
        if p.0 == k {
            assert(key_find(t, k) == Some(0int));
            assert(key_find(s, k).is_none());
        } else {
            assert(t.drop_first() =~= Seq::<(u64, V)>::empty());
            assert(key_find(t.drop_first(), k).is_none());
            assert(key_find(t, k).is_none());
        }
    } else {
        assert(t[0] == s[0]);
        if s[0].0 == k {
            assert(key_find(t, k) == Some(0int));
            assert(key_find(s, k) == Some(0int));
        } else {
            assert(t.drop_first() =~= s.drop_first().push(p));
            lemma_key_find_push(s.drop_first(), p, k);
            assert(s.drop_first().len() == s.len() - 1);
        }
    }
}

/// Replacing an entry's payload, keeping its key, moves no key around.
proof fn lemma_key_find_update<V>(s: Seq<(u64, V)>, i: int, v: V, k: u64)
    requires
        0 <= i < s.len(),
    ensures
        key_find(s.update(i, (s[i].0, v)), k) == key_find(s, k),
    decreases s.len(),
{
    let t = s.update(i, (s[i].0, v));
    assert(t.len() == s.len());
    assert(t[0].0 == s[0].0);
    if s[0].0 == k {
    } else if i == 0 {
        assert(t.drop_first() =~= s.drop_first());
    } else {
        assert(t.drop_first() =~= s.drop_first().update(i - 1, (s.drop_first()[i - 1].0, v)));
        lemma_key_find_update(s.drop_first(), i - 1, v, k);
    }
}

/// Whatever index `key_find` returns is in range and is a first match.
proof fn lemma_key_find_props<V>(s: Seq<(u64, V)>, k: u64)
    ensures
        match key_find(s, k) {
            Some(i) => 0 <= i < s.len() && s[i].0 == k && forall|j: int|
                0 <= j < i ==> s[j].0 != k,
            None => forall|j: int| 0 <= j < s.len() ==> s[j].0 != k,
        },
    decreases s.len(),
{
    if s.len() == 0 {
    } else if s[0].0 == k {
    } else {
        let rest = s.drop_first();
        lemma_key_find_props(rest, k);
        match key_find(rest, k) {
            Some(i) => {
                assert(rest[i] == s[i + 1]);
                assert forall|j: int| 0 <= j < i + 1 implies s[j].0 != k by {
                    if j > 0 {
                        assert(rest[j - 1].0 != k);
                        assert(rest[j - 1] == s[j]);
                    }
                }
            },
            None => {
                assert forall|j: int| 0 <= j < s.len() implies s[j].0 != k by {
                    if j > 0 {
                        assert(rest[j - 1].0 != k);
                        assert(rest[j - 1] == s[j]);
                    }
                }
            },
        }
    }
}

/// An address-keyed store of copyable payloads.
pub struct AddressMap<V> {
    entries: Vec<(u64, V)>,
}

impl<V: Copy> AddressMap<V> {
    /// The payload stored under `k`, if any.
    pub closed spec fn spec_get(self, k: u64) -> Option<V> {
        match key_find(self.entries@, k) {
            Some(i) => Some(self.entries@[i].1),
            None => None,
        }
    }

    /// An empty store.
    pub fn new() -> (r: AddressMap<V>)
        ensures
            forall|k: u64| r.spec_get(k).is_none(),
    {
        let r = AddressMap::<V> { entries: Vec::new() };
        proof {
            assert forall|k: u64| r.spec_get(k).is_none() by {
                assert(r.entries@.len() == 0);
            }
        }
        r
    }

    /// The payload stored under `k`, if any.
    pub fn get(&self, k: u64) -> (r: Option<V>)
        ensures
            r == self.spec_get(k),
    {
        let ghost s = self.entries@;
        let mut i: usize = 0;
        while i < self.entries.len()
            invariant
                i <= self.entries.len(),
                s == self.entries@,
                forall|j: int| 0 <= j < i ==> s[j].0 != k,
            decreases self.entries.len() - i,
        {
            if self.entries[i].0 == k {
                proof {
                    lemma_key_find_at(s, k, i as int);
                }
                return Some(self.entries[i].1);
            }
            i += 1;
        }
        proof {
            lemma_key_find_at(s, k, s.len() as int);
        }
        None
    }

    /// Whether a payload is stored under `k`.
    pub fn contains(&self, k: u64) -> (r: bool)
        ensures
            r == self.spec_get(k).is_some(),
    {
        self.get(k).is_some()
    }

    /// Stores `v` under `k`, replacing what was there.
    #[verifier::loop_isolation(false)]
    pub fn insert(&mut self, k: u64, v: V)
        ensures
            forall|k2: u64| final(self).spec_get(k2) == (if k2 == k {
                Some(v)
            } else {
                old(self).spec_get(k2)
            }),
    {
        let ghost s = self.entries@;
        let mut i: usize = 0;
        while i < self.entries.len()
            invariant
                i <= self.entries.len(),
                s == self.entries@,
                forall|j: int| 0 <= j < i ==> s[j].0 != k,
            decreases self.entries.len() - i,
        {
            if self.entries[i].0 == k {
                proof {
                    lemma_key_find_at(s, k, i as int);
                }
                self.entries[i] = (k, v);
                proof {
                    assert(self.entries@ =~= s.update(i as int, (s[i as int].0, v)));
                    assert forall|k2: u64| self.spec_get(k2) == (if k2 == k {
                        Some(v)
                    } else {
                        old(self).spec_get(k2)
                    }) by {
                        lemma_key_find_update(s, i as int, v, k2);
                        lemma_key_find_props(s, k2);
                    }
                }
                return ;
            }
            i += 1;
        }
        proof {
            lemma_key_find_at(s, k, s.len() as int);
        }
        self.entries.push((k, v));
        proof {
            assert(self.entries@ =~= s.push((k, v)));
            assert forall|k2: u64| self.spec_get(k2) == (if k2 == k {
                Some(v)
            } else {
                old(self).spec_get(k2)
            }) by {
                lemma_key_find_push(s, (k, v), k2);
                lemma_key_find_props(s, k2);
            }
        }
    }
}

} // verus!
