//! The in-memory secret mapping.
//!
//! A `SecretMap` maps secret names to secret values.  It is the decrypted
//! form of the vault's on-disk blob: every vault operation decrypts the
//! blob into a `SecretMap`, mutates it here, and re-encrypts it.  The
//! representation is a vector of (name, value) pairs with no name
//! repeated; its mathematical model is the `Map<Seq<char>, Seq<char>>`
//! that the pairs denote.

use vstd::prelude::*;

verus! {

/// The mapping that a sequence of (name, value) pairs denotes; a later
/// pair for the same name wins.
pub open spec fn pairs_map(s: Seq<(String, String)>) -> Map<Seq<char>, Seq<char>>
    decreases s.len(),
{
    if s.len() == 0 {
        Map::empty()
    } else {
        pairs_map(s.drop_last()).insert(s.last().0@, s.last().1@)
    }
}

/// No secret name occurs twice.
pub open spec fn unique_keys(s: Seq<(String, String)>) -> bool {
    forall|i: int, j: int| 0 <= i < j < s.len() ==> s[i].0@ != s[j].0@
}

/// A name carried by no pair is not in the denoted mapping.
proof fn lemma_pairs_map_absent(s: Seq<(String, String)>, k: Seq<char>)
    requires
        forall|i: int| 0 <= i < s.len() ==> s[i].0@ != k,
    ensures
        !pairs_map(s).contains_key(k),
    decreases s.len(),
{
    if s.len() > 0 {
        assert forall|i: int| 0 <= i < s.drop_last().len() implies s.drop_last()[i].0@ != k by {
            assert(s.drop_last()[i] == s[i]);
        }
        lemma_pairs_map_absent(s.drop_last(), k);
        assert(s.last().0@ == s[s.len() - 1].0@);
    }
}

/// A name carried by some pair is in the denoted mapping.
proof fn lemma_pairs_map_has(s: Seq<(String, String)>, i: int)
    requires
        0 <= i < s.len(),
    ensures
        pairs_map(s).contains_key(s[i].0@),
    decreases s.len(),
{
    if i < s.len() - 1 {
        assert(s.drop_last()[i] == s[i]);
        lemma_pairs_map_has(s.drop_last(), i);
    } else {
        assert(s.last() == s[i]);
    }
}

/// With no repeated names, the pair that carries a name decides its value.
proof fn lemma_pairs_map_index(s: Seq<(String, String)>, i: int)
    requires
        unique_keys(s),
        0 <= i < s.len(),
    ensures
        pairs_map(s).contains_key(s[i].0@),
        pairs_map(s)[s[i].0@] == s[i].1@,
    decreases s.len(),
{
    lemma_pairs_map_has(s, i);
    if i < s.len() - 1 {
        assert(s.drop_last()[i] == s[i]);
        assert forall|p: int, q: int| 0 <= p < q < s.drop_last().len()
            implies s.drop_last()[p].0@ != s.drop_last()[q].0@ by {
            assert(s.drop_last()[p] == s[p]);
            assert(s.drop_last()[q] == s[q]);
        }
        lemma_pairs_map_index(s.drop_last(), i);
        assert(s.last().0@ == s[s.len() - 1].0@);
        assert(s[i].0@ != s[s.len() - 1].0@);
    } else {
        assert(s.last() == s[i]);
    }
}

/// Removing the pair that carries a name removes exactly that name from
/// the denoted mapping.
proof fn lemma_pairs_map_remove(s: Seq<(String, String)>, i: int)
    requires
        unique_keys(s),
        0 <= i < s.len(),
    ensures
        pairs_map(s.remove(i)) =~= pairs_map(s).remove(s[i].0@),
    decreases s.len(),
{
    let k = s[i].0@;
    if i == s.len() - 1 {
        assert(s.remove(i) =~= s.drop_last());
        assert forall|j: int| 0 <= j < s.drop_last().len() implies s.drop_last()[j].0@ != k by {
            assert(s.drop_last()[j] == s[j]);
        }
        lemma_pairs_map_absent(s.drop_last(), k);
        assert(pairs_map(s) == pairs_map(s.drop_last()).insert(k, s.last().1@));
        assert(pairs_map(s.drop_last()) =~= pairs_map(s).remove(k));
    } else {
        let t = s.drop_last();
        assert forall|p: int, q: int| 0 <= p < q < t.len() implies t[p].0@ != t[q].0@ by {
            assert(t[p] == s[p]);
            assert(t[q] == s[q]);
        }
        assert(t[i] == s[i]);
        lemma_pairs_map_remove(t, i);
        assert(s.remove(i).len() == s.len() - 1);
        assert(s.remove(i).drop_last() =~= t.remove(i));
        assert(s.remove(i).last() == s[s.len() - 1]);
        assert(pairs_map(s.remove(i))
            == pairs_map(s.remove(i).drop_last()).insert(s.remove(i).last().0@, s.remove(i).last().1@));
        assert(s.last().0@ != k);
        assert(pairs_map(s) == pairs_map(t).insert(s.last().0@, s.last().1@));
        assert(pairs_map(t).remove(k).insert(s.last().0@, s.last().1@)
            =~= pairs_map(t).insert(s.last().0@, s.last().1@).remove(k));
    }
}

/// Removing a pair keeps the names unique.
proof fn lemma_unique_keys_remove(s: Seq<(String, String)>, i: int)
    requires
        unique_keys(s),
        0 <= i < s.len(),
    ensures
        unique_keys(s.remove(i)),
{
    assert forall|p: int, q: int| 0 <= p < q < s.remove(i).len()
        implies s.remove(i)[p].0@ != s.remove(i)[q].0@ by {
        let p0 = if p < i { p } else { p + 1 };
        let q0 = if q < i { q } else { q + 1 };
        assert(s.remove(i)[p] == s[p0]);
        assert(s.remove(i)[q] == s[q0]);
    }
}

/// The in-memory mapping from secret names to secret values.
pub struct SecretMap {
    entries: Vec<(String, String)>,
}

impl View for SecretMap {
    type V = Map<Seq<char>, Seq<char>>;

    closed spec fn view(&self) -> Map<Seq<char>, Seq<char>> {
        pairs_map(self.entries@)
    }
}

impl SecretMap {
    /// Well-formed: no secret name occurs twice.
    pub closed spec fn wf(&self) -> bool {
        unique_keys(self.entries@)
    }

    /// The empty mapping.
    pub fn new() -> (r: SecretMap)
        ensures
            r.wf(),
            r@ == Map::<Seq<char>, Seq<char>>::empty(),
    {
        SecretMap { entries: Vec::new() }
    }

    /// Build a mapping from pairs already known to carry distinct names.
    pub(crate) fn from_pairs(pairs: Vec<(String, String)>) -> (r: SecretMap)
        requires
            unique_keys(pairs@),
        ensures
            r.wf(),
            r@ == pairs_map(pairs@),
    {
        SecretMap { entries: pairs }
    }

    /// The underlying pairs, for encoding.
    pub(crate) fn as_pairs(&self) -> (r: &Vec<(String, String)>)
        requires
            self.wf(),
        ensures
            unique_keys(r@),
            pairs_map(r@) == self@,
    {
        &self.entries
    }

    /// The position of the pair that carries `name`, if any.
    fn position_of(&self, name: &String) -> (r: Option<usize>)
        ensures
            match r {
                Some(i) => i < self.entries@.len() && self.entries@[i as int].0@ == name@,
                None => forall|i: int| 0 <= i < self.entries@.len() ==> self.entries@[i].0@ != name@,
            },
    {
        let n = self.entries.len();
        let mut i: usize = 0;
        while i < n
            invariant
                n == self.entries@.len(),
                i <= n,
                forall|j: int| 0 <= j < i ==> self.entries@[j].0@ != name@,
            decreases n - i,
        {
            let e = &self.entries[i];
            if e.0 == *name {
                return Some(i);
            }
            i = i + 1;
        }
        None
    }

    /// The value stored under `name`, if any.
    pub fn get(&self, name: &str) -> (r: Option<String>)
        requires
            self.wf(),
        ensures
            match r {
                Some(v) => self@.contains_key(name@) && v@ == self@[name@],
                None => !self@.contains_key(name@),
            },
    {
        let owned = name.to_owned();
        match self.position_of(&owned) {
            Some(i) => {
                proof {
                    lemma_pairs_map_index(self.entries@, i as int);
                }
                let e = &self.entries[i];
                Some(e.1.clone())
            }
            None => {
                proof {
                    lemma_pairs_map_absent(self.entries@, name@);
                }
                None
            }
        }
    }

    /// Insert `value` under `name`, replacing any previous value.
    pub fn insert(&mut self, name: &str, value: &str)
        requires
            old(self).wf(),
        ensures
            final(self).wf(),
            final(self)@ == old(self)@.insert(name@, value@),
    {
        let ghost orig = *self;
        let owned = name.to_owned();
        match self.position_of(&owned) {
            Some(i) => {
                proof {
                    lemma_pairs_map_remove(self.entries@, i as int);
                    lemma_unique_keys_remove(self.entries@, i as int);
                }
                self.entries.remove(i);
            }
            None => {
                proof {
                    lemma_pairs_map_absent(self.entries@, name@);
                }
            }
        }
        let ghost before = self.entries@;
        self.entries.push((owned, value.to_owned()));
        proof {
            assert(!pairs_map(before).contains_key(name@));
            assert(self.entries@.drop_last() =~= before);
            assert(self.entries@.last().0@ == name@);
            assert(self.entries@.last().1@ == value@);
            assert(self@ == pairs_map(before).insert(name@, value@));
            assert(self@ =~= orig@.insert(name@, value@));
            assert forall|p: int, q: int| 0 <= p < q < self.entries@.len()
                implies self.entries@[p].0@ != self.entries@[q].0@ by {
                assert(self.entries@[p] == before[p]);
                if q == self.entries@.len() - 1 {
                    if before[p].0@ == name@ {
                        lemma_pairs_map_has(before, p);
                    }
                } else {
                    assert(self.entries@[q] == before[q]);
                }
            }
        }
    }

    /// Remove the value stored under `name`, if any.
    pub fn remove(&mut self, name: &str)
        requires
            old(self).wf(),
        ensures
            final(self).wf(),
            final(self)@ == old(self)@.remove(name@),
    {
        let ghost orig = *self;
        let owned = name.to_owned();
        match self.position_of(&owned) {
            Some(i) => {
                proof {
                    lemma_pairs_map_remove(self.entries@, i as int);
                    lemma_unique_keys_remove(self.entries@, i as int);
                }
                self.entries.remove(i);
            }
            None => {
                proof {
                    lemma_pairs_map_absent(self.entries@, name@);
                    assert(self@ =~= orig@.remove(name@));
                }
            }
        }
    }
}

} // verus!
