use vstd::prelude::*;

use crate::keys::AccountId;

verus! {

/// True when no two entries of `s` carry the same key.
pub open spec fn unique_keys<T>(s: Seq<(AccountId, T)>) -> bool {
    forall|i: int, j: int|
        #![trigger s[i], s[j]]
        0 <= i < j < s.len() ==> s[i].0 != s[j].0
}

/// An association table from `AccountId` keys to values, with distinct keys.
///
/// It stands for a set of storage slots addressed by identifier: the project
/// records of the registry, and the mints and token accounts of the ledger
/// model. Lookup is by first (and, given well-formedness, only) occurrence.
pub struct Table<T> {
    pub entries: Vec<(AccountId, T)>,
}

impl<T> Table<T> {
    /// Well-formed: every key occurs at most once.
    pub open spec fn wf(&self) -> bool {
        unique_keys(self.entries@)
    }

    /// The value stored under `k` in `s`, by first occurrence.
    pub open spec fn spec_lookup(s: Seq<(AccountId, T)>, k: AccountId) -> Option<T>
        decreases s.len(),
    {
        if s.len() == 0 {
            None
        } else if s[0].0 == k {
            Some(s[0].1)
        } else {
            Self::spec_lookup(s.drop_first(), k)
        }
    }

    /// The value stored under `k`, if any.
    pub open spec fn lookup(&self, k: AccountId) -> Option<T> {
        Self::spec_lookup(self.entries@, k)
    }

    /// Whether some value is stored under `k`.
    pub open spec fn contains_key(&self, k: AccountId) -> bool {
        self.lookup(k) is Some
    }

    /// Lookup finds exactly the keys that occur in the sequence.
    pub proof fn lemma_lookup_none_iff(s: Seq<(AccountId, T)>, k: AccountId)
        ensures
            (Self::spec_lookup(s, k) is None) <==> (forall|j: int|
                0 <= j < s.len() ==> (#[trigger] s[j]).0 != k),
        decreases s.len(),
    {
        if s.len() == 0 {
        } else if s[0].0 == k {
        } else {
            Self::lemma_lookup_none_iff(s.drop_first(), k);
            assert(forall|j: int|
                0 <= j < s.drop_first().len() ==> #[trigger] s.drop_first()[j] == s[j + 1]);
            if forall|j: int| 0 <= j < s.drop_first().len() ==> (#[trigger] s.drop_first()[j]).0
                != k {
                assert(forall|j: int| 0 <= j < s.len() ==> (#[trigger] s[j]).0 != k) by {
                    assert forall|j: int| 0 <= j < s.len() implies (#[trigger] s[j]).0 != k by {
                        if j > 0 {
                            assert(s.drop_first()[j - 1] == s[j]);
                        }
                    }
                }
            } else {
                let j = choose|j: int|
                    0 <= j < s.drop_first().len() && (#[trigger] s.drop_first()[j]).0 == k;
                assert(s[j + 1].0 == k);
            }
        }
    }

    /// Lookup returns the entry at the first index whose key matches.
    pub proof fn lemma_lookup_at_first_index(s: Seq<(AccountId, T)>, k: AccountId, i: int)
        requires
            0 <= i < s.len(),
            s[i].0 == k,
            forall|j: int| 0 <= j < i ==> (#[trigger] s[j]).0 != k,
        ensures
            Self::spec_lookup(s, k) == Some(s[i].1),
        decreases i,
    {
        if i == 0 {
        } else {
            assert(s[0].0 != k);
            assert(s.drop_first()[i - 1] == s[i]);
            assert(forall|j: int|
                0 <= j < i - 1 ==> (#[trigger] s.drop_first()[j]).0 != k) by {
                assert forall|j: int| 0 <= j < i - 1 implies (#[trigger] s.drop_first()[j]).0
                    != k by {
                    assert(s.drop_first()[j] == s[j + 1]);
                }
            }
            Self::lemma_lookup_at_first_index(s.drop_first(), k, i - 1);
        }
    }

    /// How appending one entry changes every lookup.
    pub proof fn lemma_lookup_push(s: Seq<(AccountId, T)>, k: AccountId, v: T, k2: AccountId)
        ensures
            Self::spec_lookup(s.push((k, v)), k2) == (if k2 == k && Self::spec_lookup(s, k2)
                is None {
                Some(v)
            } else {
                Self::spec_lookup(s, k2)
            }),
        decreases s.len(),
    {
        if s.len() == 0 {
            assert(s.push((k, v))[0] == (k, v));
            assert(s.push((k, v)).drop_first() =~= Seq::<(AccountId, T)>::empty());
        } else {
            assert(s.push((k, v))[0] == s[0]);
            assert(s.push((k, v)).drop_first() =~= s.drop_first().push((k, v)));
            Self::lemma_lookup_push(s.drop_first(), k, v, k2);
        }
    }

    /// How replacing the value at the first occurrence of its key changes
    /// every lookup.
    pub proof fn lemma_lookup_update(s: Seq<(AccountId, T)>, i: int, v: T, k2: AccountId)
        requires
            0 <= i < s.len(),
            forall|j: int| 0 <= j < i ==> (#[trigger] s[j]).0 != s[i].0,
        ensures
            Self::spec_lookup(s.update(i, (s[i].0, v)), k2) == (if k2 == s[i].0 {
                Some(v)
            } else {
                Self::spec_lookup(s, k2)
            }),
        decreases i,
    {
        let t = s.update(i, (s[i].0, v));
        if i == 0 {
            assert(t[0] == (s[0].0, v));
            assert(t.drop_first() =~= s.drop_first());
        } else {
            assert(t[0] == s[0]);
            assert(s[0].0 != s[i].0);
            assert(t.drop_first() =~= s.drop_first().update(i - 1, (s[i].0, v)));
            assert(s.drop_first()[i - 1] == s[i]);
            assert(forall|j: int|
                0 <= j < i - 1 ==> (#[trigger] s.drop_first()[j]).0 != s.drop_first()[i - 1].0)
                by {
                assert forall|j: int| 0 <= j < i - 1 implies (#[trigger] s.drop_first()[j]).0
                    != s.drop_first()[i - 1].0 by {
                    assert(s.drop_first()[j] == s[j + 1]);
                }
            }
            Self::lemma_lookup_update(s.drop_first(), i - 1, v, k2);
        }
    }

    /// An empty table.
    pub fn new() -> (r: Self)
        ensures
            r.entries@.len() == 0,
            r.wf(),
            forall|k: AccountId| r.lookup(k) is None,
    {
        let r = Table { entries: Vec::new() };
        proof {
            assert forall|k: AccountId| r.lookup(k) is None by {
                Self::lemma_lookup_none_iff(r.entries@, k);
            }
        }
        r
    }

    /// The index of the first entry stored under `k`, if any.
    pub fn index_of(&self, k: AccountId) -> (r: Option<usize>)
        ensures
            match r {
                Some(i) => {
                    &&& i < self.entries@.len()
                    &&& self.entries@[i as int].0 == k
                    &&& forall|j: int| 0 <= j < i ==> (#[trigger] self.entries@[j]).0 != k
                    &&& self.lookup(k) == Some(self.entries@[i as int].1)
                },
                None => self.lookup(k) is None,
            },
    {
        let n = self.entries.len();
        let mut i: usize = 0;
        while i < n
            invariant
                i <= n,
                n == self.entries@.len(),
                forall|j: int| 0 <= j < i ==> (#[trigger] self.entries@[j]).0 != k,
            decreases n - i,
        {
            if self.entries[i].0 == k {
                proof {
                    Self::lemma_lookup_at_first_index(self.entries@, k, i as int);
                }
                return Some(i);
            }
            i = i + 1;
        }
        proof {
            Self::lemma_lookup_none_iff(self.entries@, k);
        }
        None
    }

    /// Whether some value is stored under `k`.
    pub fn has(&self, k: AccountId) -> (r: bool)
        ensures
            r == self.contains_key(k),
    {
        self.index_of(k).is_some()
    }

    /// A borrow of the value stored under `k`, if any.
    pub fn get(&self, k: AccountId) -> (r: Option<&T>)
        ensures
            match r {
                Some(v) => self.lookup(k) == Some(*v),
                None => self.lookup(k) is None,
            },
    {
        match self.index_of(k) {
            Some(i) => Some(&self.entries[i].1),
            None => None,
        }
    }

    /// Appends an entry under a key not yet present.
    pub fn insert_new(&mut self, k: AccountId, v: T)
        requires
            old(self).wf(),
            !old(self).contains_key(k),
        ensures
            final(self).wf(),
            final(self).entries@ == old(self).entries@.push((k, v)),
            final(self).lookup(k) == Some(v),
            forall|k2: AccountId| k2 != k ==> final(self).lookup(k2) == old(self).lookup(k2),
    {
        proof {
            Self::lemma_lookup_none_iff(self.entries@, k);
        }
        let ghost s0 = self.entries@;
        self.entries.push((k, v));
        proof {
            assert forall|k2: AccountId| k2 != k implies Self::spec_lookup(s0.push((k, v)), k2)
                == Self::spec_lookup(s0, k2) by {
                Self::lemma_lookup_push(s0, k, v, k2);
            }
            Self::lemma_lookup_push(s0, k, v, k);
            assert(unique_keys(s0.push((k, v)))) by {
                assert forall|i: int, j: int|
                    0 <= i < j < s0.push((k, v)).len() implies (#[trigger] s0.push(
                    (k, v),
                )[i]).0 != (#[trigger] s0.push((k, v))[j]).0 by {
                    if j < s0.len() {
                        assert(s0.push((k, v))[i] == s0[i]);
                        assert(s0.push((k, v))[j] == s0[j]);
                    } else {
                        assert(s0.push((k, v))[i] == s0[i]);
                        assert(s0.push((k, v))[j] == (k, v));
                    }
                }
            }
        }
    }

    /// Replaces the value at index `i`, keeping its key.
    pub fn replace_at(&mut self, i: usize, v: T) -> (prev: T)
        requires
            old(self).wf(),
            i < old(self).entries@.len(),
        ensures
            final(self).wf(),
            prev == old(self).entries@[i as int].1,
            final(self).entries@ == old(self).entries@.update(
                i as int,
                (old(self).entries@[i as int].0, v),
            ),
            final(self).lookup(old(self).entries@[i as int].0) == Some(v),
            forall|k2: AccountId|
                k2 != old(self).entries@[i as int].0 ==> final(self).lookup(k2) == old(
                    self,
                ).lookup(k2),
    {
        let ghost s0 = self.entries@;
        let ghost k = s0[i as int].0;
        let kv = self.entries.remove(i);
        self.entries.insert(i, (kv.0, v));
        proof {
            assert(self.entries@ =~= s0.update(i as int, (k, v)));
            assert(forall|j: int| 0 <= j < i ==> (#[trigger] s0[j]).0 != s0[i as int].0);
            assert forall|k2: AccountId| k2 != k implies Self::spec_lookup(
                s0.update(i as int, (k, v)),
                k2,
            ) == Self::spec_lookup(s0, k2) by {
                Self::lemma_lookup_update(s0, i as int, v, k2);
            }
            Self::lemma_lookup_update(s0, i as int, v, k);
            assert(unique_keys(s0.update(i as int, (k, v)))) by {
                assert forall|a: int, b: int|
                    0 <= a < b < s0.update(i as int, (k, v)).len() implies (#[trigger] s0.update(
                    i as int,
                    (k, v),
                )[a]).0 != (#[trigger] s0.update(i as int, (k, v))[b]).0 by {
                    assert(s0.update(i as int, (k, v))[a].0 == s0[a].0);
                    assert(s0.update(i as int, (k, v))[b].0 == s0[b].0);
                }
            }
        }
        kv.1
    }

    /// Removes and returns the entry at index `i`.
    ///
    /// Meant to be paired with `put_at` on the same index, which restores
    /// well-formedness; on its own it only shrinks the sequence.
    pub fn take_at(&mut self, i: usize) -> (kv: (AccountId, T))
        requires
            i < old(self).entries@.len(),
        ensures
            kv == old(self).entries@[i as int],
            final(self).entries@ == old(self).entries@.remove(i as int),
    {
        self.entries.remove(i)
    }

    /// Inserts an entry at index `i`.
    pub fn put_at(&mut self, i: usize, kv: (AccountId, T))
        requires
            i <= old(self).entries@.len(),
        ensures
            final(self).entries@ == old(self).entries@.insert(i as int, kv),
    {
        self.entries.insert(i, kv);
    }
}

} // verus!
