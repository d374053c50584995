//! Metadata: string key/value pairs attached to API objects.
//!
//! A [`Metadata`] value is a finite map from string keys to string values,
//! held as a list of pairs with pairwise-distinct keys. Its view is the
//! mathematical map from key characters to value characters.

use vstd::prelude::*;

use crate::strutil::str_eq;

verus! {

/// A string argument: either a borrowed or an owned string.
pub trait StringArg {
    /// The characters of the argument.
    spec fn arg_chars(&self) -> Seq<char>;

    /// Turns the argument into an owned string.
    fn into_plain(self) -> (s: String)
        ensures
            s@ == self.arg_chars(),
    ;
}

impl StringArg for &str {
    open spec fn arg_chars(&self) -> Seq<char> {
        self@
    }

    fn into_plain(self) -> (s: String)
        ensures
            s@ == self.arg_chars(),
    {
        self.to_owned()
    }
}

impl StringArg for String {
    open spec fn arg_chars(&self) -> Seq<char> {
        self@
    }

    fn into_plain(self) -> (s: String)
        ensures
            s@ == self.arg_chars(),
    {
        self
    }
}

/// The map a list of key/value pairs stands for; later pairs win.
pub open spec fn spec_pairs_map(s: Seq<(String, String)>) -> Map<Seq<char>, Seq<char>>
    decreases s.len(),
{
    if s.len() == 0 {
        Map::empty()
    } else {
        spec_pairs_map(s.drop_last()).insert(s.last().0@, s.last().1@)
    }
}

/// The keys of the pairs are pairwise distinct.
pub open spec fn spec_keys_unique(s: Seq<(String, String)>) -> bool {
    forall|i: int, j: int| 0 <= i < j < s.len() ==> s[i].0@ != s[j].0@
}

/// The map of a pair list contains exactly the keys that occur in the list.
proof fn lemma_pairs_map_contains(s: Seq<(String, String)>, k: Seq<char>)
    ensures
        spec_pairs_map(s).contains_key(k) <==> exists|i: int|
            0 <= i < s.len() && s[i].0@ == k,
    decreases s.len(),
{
    if s.len() > 0 {
        lemma_pairs_map_contains(s.drop_last(), k);
        if spec_pairs_map(s).contains_key(k) {
            if s.last().0@ != k {
                let i = choose|i: int| 0 <= i < s.drop_last().len() && s.drop_last()[i].0@ == k;
                assert(s[i].0@ == k);
            } else {
                assert(s[s.len() - 1].0@ == k);
            }
        }
        if exists|i: int| 0 <= i < s.len() && s[i].0@ == k {
            let i = choose|i: int| 0 <= i < s.len() && s[i].0@ == k;
            if i < s.len() - 1 {
                assert(s.drop_last()[i].0@ == k);
            }
        }
    }
}

/// Under distinct keys, the map sends each listed key to its listed value.
proof fn lemma_pairs_map_value(s: Seq<(String, String)>, i: int)
    requires
        spec_keys_unique(s),
        0 <= i < s.len(),
    ensures
        spec_pairs_map(s).contains_key(s[i].0@),
        spec_pairs_map(s)[s[i].0@] == s[i].1@,
    decreases s.len(),
{
    if i == s.len() - 1 {
    } else {
        assert(spec_keys_unique(s.drop_last()));
        lemma_pairs_map_value(s.drop_last(), i);
        assert(s.drop_last()[i] == s[i]);
        assert(s.last().0@ != s[i].0@);
    }
}

/// Under distinct keys, the map and the list have the same size, and the
/// map's domain is finite.
proof fn lemma_pairs_map_len(s: Seq<(String, String)>)
    requires
        spec_keys_unique(s),
    ensures
        spec_pairs_map(s).dom().finite(),
        spec_pairs_map(s).dom().len() == s.len(),
    decreases s.len(),
{
    if s.len() > 0 {
        assert(spec_keys_unique(s.drop_last()));
        lemma_pairs_map_len(s.drop_last());
        lemma_pairs_map_contains(s.drop_last(), s.last().0@);
        assert(forall|i: int|
            0 <= i < s.drop_last().len() ==> s.drop_last()[i].0@ != s.last().0@);
        assert(!spec_pairs_map(s.drop_last()).contains_key(s.last().0@));
    }
}

/// Under distinct keys, removing the pair at `i` from the list removes its
/// key from the map.
proof fn lemma_pairs_map_remove(s: Seq<(String, String)>, i: int)
    requires
        spec_keys_unique(s),
        0 <= i < s.len(),
    ensures
        spec_pairs_map(s.remove(i)) == spec_pairs_map(s).remove(s[i].0@),
    decreases s.len(),
{
    let k = s[i].0@;
    if i == s.len() - 1 {
        assert(s.remove(i) =~= s.drop_last());
        lemma_pairs_map_contains(s.drop_last(), k);
        assert(forall|j: int| 0 <= j < s.drop_last().len() ==> s.drop_last()[j].0@ != k);
        assert(!spec_pairs_map(s.drop_last()).contains_key(k));
        assert(spec_pairs_map(s.drop_last()).insert(k, s.last().1@).remove(k)
            =~= spec_pairs_map(s.drop_last()));
    } else {
        assert(spec_keys_unique(s.drop_last()));
        lemma_pairs_map_remove(s.drop_last(), i);
        assert(s.remove(i).drop_last() =~= s.drop_last().remove(i));
        assert(s.remove(i).last() == s.last());
        assert(s.drop_last()[i] == s[i]);
        assert(s.last().0@ != k);
        assert(spec_pairs_map(s.drop_last()).remove(k).insert(s.last().0@, s.last().1@)
            =~= spec_pairs_map(s.drop_last()).insert(s.last().0@, s.last().1@).remove(k));
    }
}


/// A copy of the pairs.
fn pairs_copy(v: &Vec<(String, String)>) -> (r: Vec<(String, String)>)
    ensures
        r@ == v@,
{
    let n = v.len();
    let mut r: Vec<(String, String)> = Vec::new();
    let mut i: usize = 0;
    while i < n
        invariant
            i <= n,
            n == v@.len(),
            r@ == v@.subrange(0, i as int),
        decreases n - i,
    {
        r.push((v[i].0.clone(), v[i].1.clone()));
        proof {
            assert(r@ =~= v@.subrange(0, i as int + 1));
        }
        i = i + 1;
    }
    proof {
        assert(v@.subrange(0, n as int) =~= v@);
    }
    r
}

/// A copy of the pairs with the one at `skip` left out.
fn pairs_without(v: &Vec<(String, String)>, skip: usize) -> (r: Vec<(String, String)>)
    requires
        skip < v@.len(),
    ensures
        r@ == v@.remove(skip as int),
{
    let n = v.len();
    let mut r: Vec<(String, String)> = Vec::new();
    let mut i: usize = 0;
    while i < n
        invariant
            i <= n,
            skip < n,
            n == v@.len(),
            i <= skip ==> r@ == v@.subrange(0, i as int),
            i > skip ==> r@ == v@.subrange(0, skip as int) + v@.subrange(skip as int + 1, i as int),
        decreases n - i,
    {
        if i != skip {
            r.push((v[i].0.clone(), v[i].1.clone()));
            proof {
                if i <= skip {
                    assert(r@ =~= v@.subrange(0, i as int + 1));
                } else {
                    assert(r@ =~= v@.subrange(0, skip as int) + v@.subrange(
                        skip as int + 1,
                        i as int + 1,
                    ));
                }
            }
        } else {
            proof {
                assert(r@ =~= v@.subrange(0, skip as int) + v@.subrange(
                    skip as int + 1,
                    i as int + 1,
                ));
            }
        }
        i = i + 1;
    }
    proof {
        assert(v@.subrange(0, skip as int) + v@.subrange(skip as int + 1, n as int) =~= v@.remove(
            skip as int,
        ));
    }
    r
}

/// A set of key-value pairs attached to an API object, for storing
/// additional structured information.
#[derive(Debug, PartialEq, Eq)]
pub struct Metadata {
    entries: Vec<(String, String)>,
}

impl View for Metadata {
    type V = Map<Seq<char>, Seq<char>>;

    closed spec fn view(&self) -> Map<Seq<char>, Seq<char>> {
        spec_pairs_map(self.entries@)
    }
}

impl Metadata {
    /// The keys of the held pairs are pairwise distinct.
    #[verifier::type_invariant]
    closed spec fn inv(self) -> bool {
        spec_keys_unique(self.entries@)
    }

    /// An empty metadata set.
    pub fn new() -> (r: Metadata)
        ensures
            r@ == Map::<Seq<char>, Seq<char>>::empty(),
    {
        Metadata { entries: Vec::new() }
    }

    /// A metadata set holding one pair.
    pub fn with_pair<K: StringArg, V: StringArg>(key: K, value: V) -> (r: Metadata)
        ensures
            r@ == Map::<Seq<char>, Seq<char>>::empty().insert(key.arg_chars(), value.arg_chars()),
    {
        let mut metadata = Metadata::new();
        metadata.insert(key, value);
        metadata
    }

    /// The index at which the key is held, if it is.
    fn find_key(&self, key: &str) -> (r: Option<usize>)
        ensures
            match r {
                Some(i) => i < self.entries@.len() && self.entries@[i as int].0@ == key@,
                None => forall|j: int| 0 <= j < self.entries@.len() ==> self.entries@[j].0@ != key@,
            },
    {
        let n = self.entries.len();
        let mut i: usize = 0;
        while i < n
            invariant
                i <= n,
                n == self.entries@.len(),
                forall|j: int| 0 <= j < i ==> self.entries@[j].0@ != key@,
            decreases n - i,
        {
            if str_eq(self.entries[i].0.as_str(), key) {
                return Some(i);
            }
            i = i + 1;
        }
        None
    }

    /// Inserts a pair, replacing the value of a key already present.
    pub fn insert<K: StringArg, V: StringArg>(&mut self, key: K, value: V)
        ensures
            final(self)@ == old(self)@.insert(key.arg_chars(), value.arg_chars()),
    {
        proof {
            use_type_invariant(&*self);
        }
        let key = key.into_plain();
        let value = value.into_plain();
        let ghost s0 = self.entries@;
        match self.find_key(key.as_str()) {
            Some(i) => {
                proof {
                    lemma_pairs_map_remove(s0, i as int);
                }
                let mut nv = pairs_without(&self.entries, i);
                let ghost s1 = nv@;
                proof {
                    assert(spec_keys_unique(s1)) by {
                        assert(forall|j: int|
                            0 <= j < s1.len() ==> s1[j] == if j < i {
                                s0[j]
                            } else {
                                s0[j + 1]
                            });
                    }
                    assert(forall|j: int| 0 <= j < s1.len() ==> s1[j].0@ != key@);
                }
                nv.push((key, value));
                proof {
                    assert(nv@.drop_last() =~= s1);
                    assert(spec_pairs_map(nv@) =~= spec_pairs_map(s0).insert(key@, value@));
                }
                self.entries = nv;
            },
            None => {
                let mut nv = pairs_copy(&self.entries);
                nv.push((key, value));
                proof {
                    assert(nv@.drop_last() =~= s0);
                }
                self.entries = nv;
            },
        }
    }

    /// The value held for a key.
    pub fn get(&self, key: &str) -> (r: Option<&str>)
        ensures
            self@.contains_key(key@) ==> (r matches Some(v) && v@ == self@[key@]),
            !self@.contains_key(key@) ==> r is None,
    {
        proof {
            use_type_invariant(self);
            lemma_pairs_map_contains(self.entries@, key@);
        }
        match self.find_key(key) {
            Some(i) => {
                proof {
                    lemma_pairs_map_value(self.entries@, i as int);
                }
                Some(self.entries[i].1.as_str())
            },
            None => None,
        }
    }

    /// Removes a key, handing back the value it held.
    pub fn remove(&mut self, key: &str) -> (r: Option<String>)
        ensures
            final(self)@ == old(self)@.remove(key@),
            old(self)@.contains_key(key@) ==> (r matches Some(v) && v@ == old(self)@[key@]),
            !old(self)@.contains_key(key@) ==> r is None,
    {
        proof {
            use_type_invariant(&*self);
            lemma_pairs_map_contains(self.entries@, key@);
        }
        let ghost s0 = self.entries@;
        match self.find_key(key) {
            Some(i) => {
                proof {
                    lemma_pairs_map_value(s0, i as int);
                    lemma_pairs_map_remove(s0, i as int);
                }
                let value = self.entries[i].1.clone();
                let nv = pairs_without(&self.entries, i);
                proof {
                    assert(spec_keys_unique(nv@)) by {
                        assert(forall|j: int|
                            0 <= j < nv@.len() ==> nv@[j] == if j < i {
                                s0[j]
                            } else {
                                s0[j + 1]
                            });
                    }
                }
                self.entries = nv;
                Some(value)
            },
            None => {
                proof {
                    assert(old(self)@.remove(key@) =~= old(self)@);
                }
                None
            },
        }
    }

    /// Whether a key is present.
    pub fn contains_key(&self, key: &str) -> (r: bool)
        ensures
            r == self@.contains_key(key@),
    {
        proof {
            use_type_invariant(self);
            lemma_pairs_map_contains(self.entries@, key@);
        }
        match self.find_key(key) {
            Some(_) => true,
            None => false,
        }
    }

    /// Whether no pair is held.
    pub fn is_empty(&self) -> (r: bool)
        ensures
            r == (self@.dom().len() == 0),
    {
        proof {
            use_type_invariant(self);
            lemma_pairs_map_len(self.entries@);
        }
        self.entries.is_empty()
    }

    /// How many pairs are held.
    pub fn len(&self) -> (r: usize)
        ensures
            r == self@.dom().len(),
    {
        proof {
            use_type_invariant(self);
            lemma_pairs_map_len(self.entries@);
        }
        self.entries.len()
    }

    /// The held pairs, each key paired with its value, in no promised order.
    pub fn iter(&self) -> (r: &Vec<(String, String)>)
        ensures
            r@.len() == self@.dom().len(),
            forall|i: int|
                0 <= i < r@.len() ==> self@.contains_key(#[trigger] r@[i].0@) && self@[r@[i].0@]
                    == r@[i].1@,
    {
        proof {
            use_type_invariant(self);
            lemma_pairs_map_len(self.entries@);
            assert forall|i: int| 0 <= i < self.entries@.len() implies self@.contains_key(
                #[trigger] self.entries@[i].0@,
            ) && self@[self.entries@[i].0@] == self.entries@[i].1@ by {
                lemma_pairs_map_value(self.entries@, i);
            }
        }
        &self.entries
    }

    /// Removes every pair.
    pub fn clear(&mut self)
        ensures
            final(self)@ == Map::<Seq<char>, Seq<char>>::empty(),
    {
        self.entries = Vec::new();
    }
}

impl Clone for Metadata {
    /// An equal metadata set.
    fn clone(&self) -> (r: Self)
        ensures
            r@ == self@,
    {
        proof {
            use_type_invariant(self);
        }
        Metadata { entries: pairs_copy(&self.entries) }
    }
}

impl Default for Metadata {
    /// An empty metadata set.
    fn default() -> (r: Metadata)
        ensures
            r@ == Map::<Seq<char>, Seq<char>>::empty(),
    {
        Metadata::new()
    }
}

/// Relies on `HashMap::into_iter` (via `FromIterator` for `Vec`): it hands
/// out each of the map's key/value pairs exactly once, so the keys of the
/// result are pairwise distinct.
#[verifier::external_body]
fn hash_map_pairs(map: std::collections::HashMap<String, String>) -> (r: Vec<(String, String)>)
    ensures
        spec_keys_unique(r@),
{
    map.into_iter().collect()
}

impl From<std::collections::HashMap<String, String>> for Metadata {
    /// Takes over the pairs of a standard hash map, in no promised order.
    fn from(map: std::collections::HashMap<String, String>) -> (r: Metadata) {
        Metadata { entries: hash_map_pairs(map) }
    }
}

impl vstd::std_specs::convert::FromSpecImpl<std::collections::HashMap<String, String>> for Metadata {
    open spec fn obeys_from_spec() -> bool {
        false
    }

    open spec fn from_spec(map: std::collections::HashMap<String, String>) -> Metadata {
        arbitrary()
    }
}

} // verus!
