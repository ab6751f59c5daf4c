//! Association map from byte-sequence keys to values.
//!
//! Every keyed component of a session is one of these: snapshot paths to
//! sessions, client identifiers to client state, store keys to records,
//! record paths to secrets. The view is the finite map the entries represent;
//! a type invariant keeps the keys unique.

use vstd::prelude::*;

verus! {

/// An association list from byte-sequence keys to values, viewed as a
/// `Map<Seq<u8>, V::V>`. Keys are unique.
pub struct ByteMap<V: View> {
    entries: Vec<(Vec<u8>, V)>,
}

impl<V: View> View for ByteMap<V> {
    type V = Map<Seq<u8>, V::V>;

    closed spec fn view(&self) -> Map<Seq<u8>, V::V> {
        ByteMap::<V>::map_of(self.entries@)
    }
}

impl<V: View> ByteMap<V> {
    /// The map an entry sequence represents; later entries win.
    pub closed spec fn map_of(s: Seq<(Vec<u8>, V)>) -> Map<Seq<u8>, V::V>
        decreases s.len(),
    {
        if s.len() == 0 {
            Map::empty()
        } else {
            Self::map_of(s.drop_last()).insert(s.last().0@, s.last().1@)
        }
    }

    spec fn unique_keys(s: Seq<(Vec<u8>, V)>) -> bool {
        forall|i: int, j: int| 0 <= i < j < s.len() ==> s[i].0@ != s[j].0@
    }

    #[verifier::type_invariant]
    spec fn inv(self) -> bool {
        Self::unique_keys(self.entries@)
    }

    proof fn lemma_absent(s: Seq<(Vec<u8>, V)>, k: Seq<u8>)
        requires
            forall|i: int| 0 <= i < s.len() ==> s[i].0@ != k,
        ensures
            !Self::map_of(s).contains_key(k),
        decreases s.len(),
    {
        if s.len() > 0 {
            assert(forall|i: int| 0 <= i < s.drop_last().len() ==> s.drop_last()[i] == s[i]);
            Self::lemma_absent(s.drop_last(), k);
        }
    }

    proof fn lemma_present(s: Seq<(Vec<u8>, V)>, i: int)
        requires
            Self::unique_keys(s),
            0 <= i < s.len(),
        ensures
            Self::map_of(s).contains_key(s[i].0@),
            Self::map_of(s)[s[i].0@] == s[i].1@,
        decreases s.len(),
    {
        if i < s.len() - 1 {
            assert(forall|m: int| 0 <= m < s.drop_last().len() ==> s.drop_last()[m] == s[m]);
            Self::lemma_present(s.drop_last(), i);
            assert(s[s.len() - 1].0@ != s[i].0@);
        }
    }

    proof fn lemma_remove_at(s: Seq<(Vec<u8>, V)>, i: int)
        requires
            Self::unique_keys(s),
            0 <= i < s.len(),
        ensures
            Self::unique_keys(s.remove(i)),
            Self::map_of(s.remove(i)) == Self::map_of(s).remove(s[i].0@),
        decreases s.len(),
    {
        let k = s[i].0@;
        if i == s.len() - 1 {
            assert(s.remove(i) =~= s.drop_last());
            assert(forall|m: int| 0 <= m < s.drop_last().len() ==> s.drop_last()[m] == s[m]);
            Self::lemma_absent(s.drop_last(), k);
            assert(Self::map_of(s.drop_last()) =~= Self::map_of(s).remove(k));
        } else {
            assert(forall|m: int| 0 <= m < s.drop_last().len() ==> s.drop_last()[m] == s[m]);
            Self::lemma_remove_at(s.drop_last(), i);
            let t = s.remove(i);
            assert(t.drop_last() =~= s.drop_last().remove(i));
            assert(t.last() == s.last());
            assert(Self::map_of(t) == Self::map_of(s.drop_last().remove(i)).insert(
                s.last().0@,
                s.last().1@,
            ));
            assert(s.last().0@ != k);
            assert(Self::map_of(s.drop_last()).remove(k).insert(s.last().0@, s.last().1@)
                =~= Self::map_of(s.drop_last()).insert(s.last().0@, s.last().1@).remove(k));
            assert(Self::map_of(t) =~= Self::map_of(s).remove(k));
        }
    }

    /// An empty map.
    pub fn new() -> (r: Self)
        ensures
            r@ == Map::<Seq<u8>, V::V>::empty(),
    {
        ByteMap { entries: Vec::new() }
    }

    fn find_index(&self, key: &Vec<u8>) -> (r: Option<usize>)
        ensures
            match r {
                Some(i) => i < self.entries@.len() && self.entries@[i as int].0@ == key@,
                None => forall|i: int| 0 <= i < self.entries@.len() ==> self.entries@[i].0@ != key@,
            },
    {
        let n = self.entries.len();
        let mut i: usize = 0;
        while i < n
            invariant
                n == self.entries@.len(),
                i <= n,
                forall|j: int| 0 <= j < i ==> self.entries@[j].0@ != key@,
            decreases n - i,
        {
            if self.entries[i].0 == *key {
                proof {
                    assert(self.entries@[i as int].0@ =~= key@);
                }
                return Some(i);
            }
            i += 1;
        }
        None
    }

    /// Whether a binding for `key` is present.
    pub fn contains(&self, key: &Vec<u8>) -> (r: bool)
        ensures
            r == self@.contains_key(key@),
    {
        proof {
            use_type_invariant(&*self);
        }
        match self.find_index(key) {
            Some(i) => {
                proof {
                    Self::lemma_present(self.entries@, i as int);
                }
                true
            },
            None => {
                proof {
                    Self::lemma_absent(self.entries@, key@);
                }
                false
            },
        }
    }

    /// The value bound to `key`, if any.
    pub fn get<'a>(&'a self, key: &Vec<u8>) -> (r: Option<&'a V>)
        ensures
            match r {
                Some(v) => self@.contains_key(key@) && v@ == self@[key@],
                None => !self@.contains_key(key@),
            },
    {
        proof {
            use_type_invariant(&*self);
        }
        match self.find_index(key) {
            Some(i) => {
                proof {
                    Self::lemma_present(self.entries@, i as int);
                }
                Some(&self.entries[i].1)
            },
            None => {
                proof {
                    Self::lemma_absent(self.entries@, key@);
                }
                None
            },
        }
    }

    /// Removes the binding for `key` and returns it.
    pub fn remove_entry(&mut self, key: &Vec<u8>) -> (r: Option<(Vec<u8>, V)>)
        ensures
            final(self)@ == old(self)@.remove(key@),
            match r {
                Some(p) => old(self)@.contains_key(key@) && p.0@ == key@ && p.1@ == old(
                    self,
                )@[key@],
                None => !old(self)@.contains_key(key@) && final(self)@ == old(self)@,
            },
    {
        proof {
            use_type_invariant(&*self);
        }
        match self.find_index(key) {
            Some(i) => {
                proof {
                    Self::lemma_present(self.entries@, i as int);
                    Self::lemma_remove_at(self.entries@, i as int);
                }
                let mut entries: Vec<(Vec<u8>, V)> = Vec::new();
                core::mem::swap(&mut entries, &mut self.entries);
                let p = entries.remove(i);
                core::mem::swap(&mut entries, &mut self.entries);
                Some(p)
            },
            None => {
                proof {
                    Self::lemma_absent(self.entries@, key@);
                    assert(old(self)@.remove(key@) =~= old(self)@);
                }
                None
            },
        }
    }

    /// Binds `key` to `value`, replacing and returning any previous value.
    pub fn insert(&mut self, key: Vec<u8>, value: V) -> (prev: Option<V>)
        ensures
            final(self)@ == old(self)@.insert(key@, value@),
            match prev {
                Some(p) => old(self)@.contains_key(key@) && p@ == old(self)@[key@],
                None => !old(self)@.contains_key(key@),
            },
    {
        let ghost k = key@;
        let ghost v = value@;
        let prev = match self.remove_entry(&key) {
            Some(p) => Some(p.1),
            None => None,
        };
        proof {
            use_type_invariant(&*self);
        }
        let ghost s = self.entries@;
        proof {
            assert forall|i: int| 0 <= i < s.len() implies s[i].0@ != k by {
                if s[i].0@ == k {
                    Self::lemma_present(s, i);
                }
            };
        }
        let mut entries: Vec<(Vec<u8>, V)> = Vec::new();
        core::mem::swap(&mut entries, &mut self.entries);
        entries.push((key, value));
        proof {
            assert(Self::unique_keys(entries@));
        }
        core::mem::swap(&mut entries, &mut self.entries);
        proof {
            assert(self.entries@.drop_last() =~= s);
            assert(self@ == Self::map_of(s).insert(k, v));
            assert(old(self)@.remove(k).insert(k, v) =~= old(self)@.insert(k, v));
        }
        prev
    }
}

} // verus!
