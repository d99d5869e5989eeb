//! The persistent fact store: a mapping from identifier names to definite
//! booleans, owned by one evaluator instance.
//!
//! The store is kept as a list of entries in insertion order, where a later
//! entry for a key shadows every earlier one; its mathematical model, the
//! view, is the map that the entries build up left to right.

use vstd::prelude::*;

verus! {

/// A mapping from identifier names to definite booleans. Values are always
/// definite: an unknown cannot be stored.
pub struct MemStore {
    entries: Vec<(String, bool)>,
}

/// The map that a list of entries denotes: each entry overwrites the binding
/// of its key, so the last entry for a key wins.
spec fn map_of(entries: Seq<(String, bool)>) -> Map<Seq<char>, bool>
    decreases entries.len(),
{
    if entries.len() == 0 {
        Map::empty()
    } else {
        map_of(entries.drop_last()).insert(entries.last().0@, entries.last().1)
    }
}

impl View for MemStore {
    type V = Map<Seq<char>, bool>;

    closed spec fn view(&self) -> Map<Seq<char>, bool> {
        map_of(self.entries@)
    }
}

impl MemStore {
    /// An empty store.
    pub fn new() -> (r: Self)
        ensures
            r@ == Map::<Seq<char>, bool>::empty(),
    {
        MemStore { entries: Vec::new() }
    }

    /// Binds `key` to `value`, overwriting any earlier binding.
    pub fn insert(&mut self, key: String, value: bool)
        ensures
            final(self)@ == old(self)@.insert(key@, value),
    {
        let ghost s0 = self.entries@;
        self.entries.push((key, value));
        proof {
            assert(self.entries@.drop_last() =~= s0);
        }
    }

    /// The value bound to `key`, if any.
    pub fn get(&self, key: &String) -> (r: Option<bool>)
        ensures
            r == self@.get(key@),
    {
        let mut i: usize = self.entries.len();
        proof {
            assert(self.entries@.take(i as int) =~= self.entries@);
        }
        while i > 0
            invariant
                i <= self.entries@.len(),
                map_of(self.entries@).get(key@) == map_of(
                    self.entries@.take(i as int),
                ).get(key@),
            decreases i,
        {
            i = i - 1;
            proof {
                let s = self.entries@;
                assert(s.take(i as int + 1).drop_last() =~= s.take(i as int));
                assert(s.take(i as int + 1).last() == s[i as int]);
            }
            if self.entries[i].0 == *key {
                return Some(self.entries[i].1);
            }
        }
        proof {
            assert(self.entries@.take(0) =~= Seq::<(String, bool)>::empty());
        }
        None
    }

    /// Merges `other` into `self`: a key bound in both keeps the binding of
    /// `other` (last write wins).
    pub fn extend(&mut self, other: MemStore)
        ensures
            final(self)@ == old(self)@.union_prefer_right(other@),
    {
        let ghost m0 = self@;
        let ghost so = other.entries@;
        let n = other.entries.len();
        let mut j: usize = 0;
        while j < n
            invariant
                j <= n,
                n == so.len(),
                other.entries@ == so,
                map_of(self.entries@) == m0.union_prefer_right(map_of(so.take(j as int))),
            decreases n - j,
        {
            let key = other.entries[j].0.clone();
            let value = other.entries[j].1;
            let ghost s_before = self.entries@;
            self.entries.push((key, value));
            proof {
                assert(self.entries@.drop_last() =~= s_before);
                assert(so.take(j as int + 1).drop_last() =~= so.take(j as int));
                assert(so.take(j as int + 1).last() == so[j as int]);
                let step = map_of(so.take(j as int));
                assert(m0.union_prefer_right(step).insert(so[j as int].0@, so[j as int].1)
                    =~= m0.union_prefer_right(step.insert(so[j as int].0@, so[j as int].1)));
            }
            j = j + 1;
        }
        proof {
            assert(so.take(n as int) =~= so);
        }
    }

    /// An independent copy: later changes to either store leave the other
    /// untouched.
    pub fn duplicate(&self) -> (r: Self)
        ensures
            r@ == self@,
    {
        let mut out: Vec<(String, bool)> = Vec::new();
        let n = self.entries.len();
        let mut j: usize = 0;
        while j < n
            invariant
                j <= n,
                n == self.entries@.len(),
                out@ =~= self.entries@.take(j as int),
            decreases n - j,
        {
            out.push((self.entries[j].0.clone(), self.entries[j].1));
            proof {
                assert(out@ =~= self.entries@.take(j as int + 1));
            }
            j = j + 1;
        }
        proof {
            assert(out@ =~= self.entries@);
        }
        MemStore { entries: out }
    }

    /// Whether the store binds no key at all.
    pub fn is_empty(&self) -> (r: bool)
        ensures
            r == self@.is_empty(),
    {
        let r = self.entries.len() == 0;
        proof {
            if self.entries@.len() == 0 {
                assert(self@ =~= Map::<Seq<char>, bool>::empty());
            } else {
                assert(self@.contains_key(self.entries@.last().0@));
            }
        }
        r
    }
}

} // verus!
