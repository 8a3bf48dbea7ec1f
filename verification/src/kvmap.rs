//! A string-keyed association map with a `Map` view.
//!
//! [`StringMap`] stores key/value pairs in a vector whose keys are pairwise
//! distinct, and presents itself to callers as a `Map<Seq<char>, V>`.  It is
//! the storage underneath the cache store and the refresh registry, which are
//! specified entirely in terms of this view.

use vstd::prelude::*;

verus! {

/// Relies on str's `PartialEq`: two string slices compare equal exactly when
/// their character sequences are equal.
#[verifier::external_body]
pub(crate) fn str_eq(a: &str, b: &str) -> (r: bool)
    ensures
        r == (a@ == b@),
{
    a == b
}

/// An owned copy of a borrowed key.
pub fn to_owned_string(s: &str) -> (r: String)
    ensures
        r@ == s@,
{
    <String as vstd::string::StringExecFns>::from_str(s)
}

/// Removing a key and then inserting it again is the same as inserting it
/// directly.
pub proof fn lemma_remove_insert<K, A>(m: Map<K, A>, k: K, v: A)
    ensures
        m.remove(k).insert(k, v) == m.insert(k, v),
{
    assert(m.remove(k).insert(k, v) =~= m.insert(k, v));
}

/// The map described by a sequence of key/value pairs; a pair later in the
/// sequence shadows an earlier pair with the same key.
pub open spec fn assoc_map<V>(s: Seq<(String, V)>) -> Map<Seq<char>, V>
    decreases s.len(),
{
    if s.len() == 0 {
        Map::empty()
    } else {
        assoc_map(s.drop_last()).insert(s.last().0@, s.last().1)
    }
}

/// No two pairs of the sequence share a key.
pub open spec fn keys_distinct<V>(s: Seq<(String, V)>) -> bool {
    forall|i: int, j: int| 0 <= i < j < s.len() ==> s[i].0@ != s[j].0@
}

pub proof fn lemma_assoc_map_contains<V>(s: Seq<(String, V)>, k: Seq<char>)
    ensures
        assoc_map(s).contains_key(k) <==> exists|i: int| 0 <= i < s.len() && s[i].0@ == k,
    decreases s.len(),
{
    if s.len() > 0 {
        lemma_assoc_map_contains(s.drop_last(), k);
        if s.last().0@ == k {
            assert(s[s.len() - 1].0@ == k);
        } else {
            if assoc_map(s).contains_key(k) {
                let i = choose|i: int| 0 <= i < s.drop_last().len() && s.drop_last()[i].0@ == k;
                assert(s[i].0@ == k);
            }
            if exists|i: int| 0 <= i < s.len() && s[i].0@ == k {
                let i = choose|i: int| 0 <= i < s.len() && s[i].0@ == k;
                assert(s.drop_last()[i].0@ == k);
            }
        }
    }
}

pub proof fn lemma_assoc_map_finite<V>(s: Seq<(String, V)>)
    ensures
        assoc_map(s).dom().finite(),
    decreases s.len(),
{
    if s.len() > 0 {
        lemma_assoc_map_finite(s.drop_last());
    }
}

pub proof fn lemma_assoc_map_index<V>(s: Seq<(String, V)>, i: int)
    requires
        keys_distinct(s),
        0 <= i < s.len(),
    ensures
        assoc_map(s).contains_key(s[i].0@),
        assoc_map(s)[s[i].0@] == s[i].1,
    decreases s.len(),
{
    if i == s.len() - 1 {
    } else {
        assert(keys_distinct(s.drop_last()));
        lemma_assoc_map_index(s.drop_last(), i);
        assert(s.drop_last()[i] == s[i]);
        assert(s[i].0@ != s.last().0@);
    }
}

pub proof fn lemma_assoc_map_push<V>(s: Seq<(String, V)>, key: String, value: V)
    ensures
        assoc_map(s.push((key, value))) == assoc_map(s).insert(key@, value),
{
    assert(s.push((key, value)).drop_last() =~= s);
    assert(s.push((key, value)).last() == (key, value));
}

pub proof fn lemma_assoc_map_remove<V>(s: Seq<(String, V)>, i: int)
    requires
        keys_distinct(s),
        0 <= i < s.len(),
    ensures
        assoc_map(s.remove(i)) == assoc_map(s).remove(s[i].0@),
    decreases s.len(),
{
    let k = s[i].0@;
    if i == s.len() - 1 {
        assert(s.remove(i) =~= s.drop_last());
        lemma_assoc_map_contains(s.drop_last(), k);
        assert(!assoc_map(s.drop_last()).contains_key(k));
        assert(assoc_map(s.drop_last()).insert(k, s[i].1).remove(k) =~= assoc_map(
            s.drop_last(),
        ).remove(k));
        assert(assoc_map(s.drop_last()).remove(k) =~= assoc_map(s.drop_last()));
    } else {
        assert(keys_distinct(s.drop_last()));
        lemma_assoc_map_remove(s.drop_last(), i);
        assert(s.remove(i).drop_last() =~= s.drop_last().remove(i));
        assert(s.remove(i).last() == s.last());
        assert(s[i].0@ != s.last().0@);
        assert(assoc_map(s.remove(i)) == assoc_map(s.drop_last().remove(i)).insert(
            s.last().0@,
            s.last().1,
        ));
        assert(assoc_map(s.drop_last()).remove(k).insert(s.last().0@, s.last().1) =~= assoc_map(
            s.drop_last(),
        ).insert(s.last().0@, s.last().1).remove(k));
    }
}

pub proof fn lemma_assoc_map_len<V>(s: Seq<(String, V)>)
    requires
        keys_distinct(s),
    ensures
        assoc_map(s).dom().finite(),
        assoc_map(s).dom().len() == s.len(),
    decreases s.len(),
{
    if s.len() > 0 {
        assert(keys_distinct(s.drop_last()));
        lemma_assoc_map_len(s.drop_last());
        lemma_assoc_map_contains(s.drop_last(), s.last().0@);
        assert(!assoc_map(s.drop_last()).contains_key(s.last().0@));
        assert(assoc_map(s).dom() =~= assoc_map(s.drop_last()).dom().insert(s.last().0@));
    }
}

/// A map from string keys to values of type `V`, with a `Map` view.
pub struct StringMap<V> {
    items: Vec<(String, V)>,
}

impl<V> View for StringMap<V> {
    type V = Map<Seq<char>, V>;

    closed spec fn view(&self) -> Map<Seq<char>, V> {
        assoc_map(self.items@)
    }
}

impl<V> StringMap<V> {
    #[verifier::type_invariant]
    spec fn wf(&self) -> bool {
        keys_distinct(self.items@)
    }

    pub fn new() -> (r: Self)
        ensures
            r@ == Map::<Seq<char>, V>::empty(),
    {
        StringMap { items: Vec::new() }
    }

    /// The view of a map is always finite.
    pub proof fn lemma_finite(&self)
        ensures
            self@.dom().finite(),
    {
        lemma_assoc_map_finite(self.items@);
    }

    pub fn len(&self) -> (r: usize)
        ensures
            r == self@.dom().len(),
    {
        proof {
            use_type_invariant(&*self);
            lemma_assoc_map_len(self.items@);
        }
        self.items.len()
    }

    /// The index of the pair holding `key`, if the key is present.
    fn index_of(&self, key: &str) -> (r: Option<usize>)
        ensures
            match r {
                Some(i) => {
                    &&& i < self.items@.len()
                    &&& self.items@[i as int].0@ == key@
                    &&& self@.contains_key(key@)
                    &&& self@[key@] == self.items@[i as int].1
                },
                None => !self@.contains_key(key@),
            },
    {
        proof {
            use_type_invariant(&*self);
        }
        let n = self.items.len();
        let mut i: usize = 0;
        while i < n
            invariant
                n == self.items@.len(),
                i <= n,
                keys_distinct(self.items@),
                forall|j: int| 0 <= j < i ==> self.items@[j].0@ != key@,
            decreases n - i,
        {
            if str_eq(self.items[i].0.as_str(), key) {
                proof {
                    lemma_assoc_map_index(self.items@, i as int);
                }
                return Some(i);
            }
            i += 1;
        }
        proof {
            lemma_assoc_map_contains(self.items@, key@);
        }
        None
    }

    pub fn contains_key(&self, key: &str) -> (r: bool)
        ensures
            r == self@.contains_key(key@),
    {
        self.index_of(key).is_some()
    }

    /// A reference to the value stored under `key`, if the key is present.
    pub fn get(&self, key: &str) -> (r: Option<&V>)
        ensures
            match r {
                Some(v) => self@.contains_key(key@) && *v == self@[key@],
                None => !self@.contains_key(key@),
            },
    {
        match self.index_of(key) {
            Some(i) => Some(&self.items[i].1),
            None => None,
        }
    }

    /// Removes and returns the value stored under `key`, if the key is present.
    pub fn take(&mut self, key: &str) -> (r: Option<V>)
        ensures
            final(self)@ == old(self)@.remove(key@),
            match r {
                Some(v) => old(self)@.contains_key(key@) && v == old(self)@[key@],
                None => !old(self)@.contains_key(key@) && final(self)@ == old(self)@,
            },
    {
        proof {
            use_type_invariant(&*self);
        }
        match self.index_of(key) {
            Some(i) => {
                let ghost s = self.items@;
                let mut items: Vec<(String, V)> = Vec::new();
                core::mem::swap(&mut items, &mut self.items);
                let pair = items.remove(i);
                proof {
                    lemma_assoc_map_remove(s, i as int);
                    assert(keys_distinct(s.remove(i as int)));
                }
                self.items = items;
                Some(pair.1)
            },
            None => {
                proof {
                    assert(old(self)@.remove(key@) =~= old(self)@);
                }
                None
            },
        }
    }

    /// Removes the value stored under `key`; reports whether the key was present.
    pub fn remove(&mut self, key: &str) -> (r: bool)
        ensures
            final(self)@ == old(self)@.remove(key@),
            r == old(self)@.contains_key(key@),
    {
        self.take(key).is_some()
    }

    /// Stores `value` under `key`, replacing any value stored there before.
    pub fn insert(&mut self, key: String, value: V)
        ensures
            final(self)@ == old(self)@.insert(key@, value),
    {
        let _ = self.take(key.as_str());
        proof {
            use_type_invariant(&*self);
        }
        let ghost s = self.items@;
        let ghost kview = key@;
        let mut items: Vec<(String, V)> = Vec::new();
        core::mem::swap(&mut items, &mut self.items);
        proof {
            lemma_assoc_map_contains(s, kview);
        }
        items.push((key, value));
        proof {
            lemma_assoc_map_push(s, items@.last().0, items@.last().1);
            assert(keys_distinct(items@)) by {
                assert(forall|i: int| 0 <= i < s.len() ==> s[i].0@ != kview);
                assert(forall|i: int| 0 <= i < items@.len() - 1 ==> items@[i] == s[i]);
            }
            assert(old(self)@.remove(kview).insert(kview, items@.last().1) =~= old(self)@.insert(
                kview,
                items@.last().1,
            ));
        }
        self.items = items;
    }

    /// Removes every pair from the map.
    pub fn clear(&mut self)
        ensures
            final(self)@ == Map::<Seq<char>, V>::empty(),
    {
        self.items = Vec::new();
    }

    /// The stored pairs; the sequence carries distinct keys and describes the
    /// map view exactly.
    pub fn pairs(&self) -> (r: &Vec<(String, V)>)
        ensures
            keys_distinct(r@),
            assoc_map(r@) == self@,
            r@.len() == self@.dom().len(),
            forall|i: int|
                0 <= i < r@.len() ==> self@.contains_key(#[trigger] r@[i].0@) && self@[r@[i].0@]
                    == r@[i].1,
    {
        proof {
            use_type_invariant(&*self);
            lemma_assoc_map_len(self.items@);
            assert forall|i: int| 0 <= i < self.items@.len() implies self@.contains_key(
                #[trigger] self.items@[i].0@,
            ) && self@[self.items@[i].0@] == self.items@[i].1 by {
                lemma_assoc_map_index(self.items@, i);
            }
        }
        &self.items
    }
}

} // verus!
