//! Maps held as vectors of entries with distinct keys.

use vstd::prelude::*;

verus! {

/// Keys that can be compared by their views.
pub trait Key: View + Sized {
    /// Whether two keys are equal.
    fn key_eq(&self, other: &Self) -> (res: bool)
        ensures
            res == (self@ == other@);

    /// A copy of the key.
    fn key_clone(&self) -> (res: Self)
        ensures
            res@ == self@;
}

impl Key for String {
    fn key_eq(&self, other: &Self) -> (res: bool) {
        *self == *other
    }

    fn key_clone(&self) -> (res: Self) {
        self.clone()
    }
}

impl Key for (String, String) {
    fn key_eq(&self, other: &Self) -> (res: bool) {
        self.0 == other.0 && self.1 == other.1
    }

    fn key_clone(&self) -> (res: Self) {
        (self.0.clone(), self.1.clone())
    }
}

impl Key for u128 {
    fn key_eq(&self, other: &Self) -> (res: bool) {
        *self == *other
    }

    fn key_clone(&self) -> (res: Self) {
        *self
    }
}

impl Key for (u32, String, String) {
    fn key_eq(&self, other: &Self) -> (res: bool) {
        self.0 == other.0 && self.1 == other.1 && self.2 == other.2
    }

    fn key_clone(&self) -> (res: Self) {
        (self.0, self.1.clone(), self.2.clone())
    }
}

/// Whether the keys of the entries are pairwise distinct.
pub open spec fn distinct_keys<K: View, V>(s: Seq<(K, V)>) -> bool {
    forall|i: int, j: int| 0 <= i < s.len() && 0 <= j < s.len() && i != j ==> s[i].0@ != s[j].0@
}

/// The map that a sequence of entries describes.
pub open spec fn map_of<K: View, V>(s: Seq<(K, V)>) -> Map<K::V, V>
    decreases s.len(),
{
    if s.len() == 0 {
        Map::empty()
    } else {
        map_of(s.drop_last()).insert(s.last().0@, s.last().1)
    }
}

/// Every key of the map is the key of one of the entries.
pub proof fn lemma_map_of_keys<K: View, V>(s: Seq<(K, V)>)
    ensures
        forall|k: K::V| #[trigger] map_of(s).contains_key(k) ==> exists|i: int| 0 <= i < s.len() && s[i].0@ == k,
    decreases s.len(),
{
    if s.len() > 0 {
        let t = s.drop_last();
        lemma_map_of_keys(t);
        assert forall|k: K::V| #[trigger] map_of(s).contains_key(k) implies exists|i: int| 0 <= i < s.len() && s[i].0@ == k by {
            if k == s.last().0@ {
                assert(s[s.len() - 1].0@ == k);
            } else {
                assert(map_of(t).contains_key(k));
                let i = choose|i: int| 0 <= i < t.len() && t[i].0@ == k;
                assert(s[i].0@ == k);
            }
        }
    }
}

/// With distinct keys, the map holds exactly the entries' keys, each with
/// its entry's value.
pub proof fn lemma_map_of<K: View, V>(s: Seq<(K, V)>)
    requires
        distinct_keys(s),
    ensures
        forall|k: K::V| #[trigger] map_of(s).contains_key(k) <==> exists|i: int| 0 <= i < s.len() && s[i].0@ == k,
        forall|i: int| 0 <= i < s.len() ==> #[trigger] map_of(s)[s[i].0@] == s[i].1,
    decreases s.len(),
{
    if s.len() > 0 {
        let t = s.drop_last();
        assert(distinct_keys(t));
        lemma_map_of(t);
        assert(map_of(s) == map_of(t).insert(s.last().0@, s.last().1));
        assert forall|k: K::V| #[trigger] map_of(s).contains_key(k) <==> exists|i: int| 0 <= i < s.len() && s[i].0@ == k by {
            if map_of(s).contains_key(k) {
                if k == s.last().0@ {
                    assert(s[s.len() - 1].0@ == k);
                } else {
                    assert(map_of(s) == map_of(t).insert(s.last().0@, s.last().1));
                    assert(map_of(t).contains_key(k));
                    let i = choose|i: int| 0 <= i < t.len() && t[i].0@ == k;
                    assert(s[i].0@ == k);
                }
            }
            if exists|i: int| 0 <= i < s.len() && s[i].0@ == k {
                let i = choose|i: int| 0 <= i < s.len() && s[i].0@ == k;
                if i < s.len() - 1 {
                    assert(t[i].0@ == k);
                }
            }
        }
        assert forall|i: int| 0 <= i < s.len() implies #[trigger] map_of(s)[s[i].0@] == s[i].1 by {
            if i < s.len() - 1 {
                assert(t[i] == s[i]);
                assert(s[i].0@ != s[s.len() - 1].0@);
                assert(map_of(t)[t[i].0@] == t[i].1);
            }
        }
    }
}

/// Map held as a vector of entries whose keys are pairwise distinct.
#[derive(Debug)]
pub struct VecMap<K: Key, V> {
    entries: Vec<(K, V)>,
}

impl<K: Key, V> VecMap<K, V> {
    /// The entries, in the order they are held.
    pub closed spec fn entries(self) -> Seq<(K, V)> {
        self.entries@
    }

    #[verifier::type_invariant]
    spec fn wf(self) -> bool {
        distinct_keys(self.entries@)
    }

    /// The map of the entries.
    pub open spec fn view(self) -> Map<K::V, V> {
        map_of(self.entries())
    }

    /// An empty map.
    pub fn new() -> (res: Self)
        ensures
            res@ == Map::<K::V, V>::empty(),
            res.entries().len() == 0,
    {
        VecMap { entries: Vec::new() }
    }

    /// Number of entries.
    pub fn len(&self) -> (res: usize)
        ensures
            res == self.entries().len(),
            res == self@.len(),
    {
        proof {
            use_type_invariant(self);
            lemma_len(self.entries@);
        }
        self.entries.len()
    }

    /// The entry at position `i`.
    pub fn entry(&self, i: usize) -> (res: &(K, V))
        requires
            i < self.entries().len(),
        ensures
            *res == self.entries()[i as int],
            self@.contains_key(res.0@),
            self@[res.0@] == res.1,
    {
        proof {
            use_type_invariant(self);
            lemma_map_of(self.entries@);
        }
        &self.entries[i]
    }

    /// Position of the entry with the given key.
    fn find(&self, key: &K) -> (res: Option<usize>)
        ensures
            match res {
                Some(i) => i < self.entries@.len() && self.entries@[i as int].0@ == key@,
                None => forall|i: int| 0 <= i < self.entries@.len() ==> self.entries@[i].0@ != key@,
            },
    {
        let mut i: usize = 0;
        while i < self.entries.len()
            invariant
                i <= self.entries@.len(),
                forall|j: int| 0 <= j < i ==> self.entries@[j].0@ != key@,
            decreases self.entries@.len() - i,
        {
            if self.entries[i].0.key_eq(key) {
                return Some(i);
            }
            i = i + 1;
        }
        None
    }

    /// Whether the map holds the key.
    pub fn contains_key(&self, key: &K) -> (res: bool)
        ensures
            res == self@.contains_key(key@),
    {
        proof {
            use_type_invariant(self);
            lemma_map_of(self.entries@);
        }
        self.find(key).is_some()
    }

    /// The value held for the key.
    pub fn get(&self, key: &K) -> (res: Option<&V>)
        ensures
            match res {
                Some(v) => self@.contains_key(key@) && self@[key@] == *v,
                None => !self@.contains_key(key@),
            },
    {
        proof {
            use_type_invariant(self);
            lemma_map_of(self.entries@);
        }
        match self.find(key) {
            Some(i) => Some(&self.entries[i].1),
            None => None,
        }
    }

    /// Sets the value for the key, returning the value it replaces.
    pub fn insert(&mut self, key: K, value: V) -> (res: Option<V>)
        ensures
            final(self)@ == old(self)@.insert(key@, value),
            match res {
                Some(v) => old(self)@.contains_key(key@) && old(self)@[key@] == v,
                None => !old(self)@.contains_key(key@),
            },
    {
        proof {
            use_type_invariant(&*self);
            lemma_map_of(self.entries@);
        }
        let ghost old_entries = self.entries@;
        match self.find(&key) {
            Some(i) => {
                let ghost k = key@;
                let mut entries = Vec::new();
                std::mem::swap(&mut entries, &mut self.entries);
                let (_, old_value) = entries.remove(i);
                entries.insert(i, (key, value));
                proof {
                    let s = entries@;
                    assert(s =~= old_entries.update(i as int, s[i as int]));
                    assert(distinct_keys(s));
                    lemma_map_of(s);
                    assert forall|kk: K::V| #[trigger] map_of(s).contains_key(kk) implies map_of(s)[kk]
                        == map_of(old_entries).insert(k, value)[kk] by {
                        let j = choose|j: int| 0 <= j < s.len() && s[j].0@ == kk;
                        assert(map_of(s)[s[j].0@] == s[j].1);
                        if j != i {
                            assert(map_of(old_entries)[old_entries[j].0@] == old_entries[j].1);
                        }
                    }
                    assert forall|kk: K::V| #[trigger] map_of(old_entries).insert(k, value).contains_key(kk)
                        implies map_of(s).contains_key(kk) by {
                        if kk != k {
                            let j = choose|j: int| 0 <= j < old_entries.len() && old_entries[j].0@ == kk;
                            assert(s[j].0@ == kk);
                        } else {
                            assert(s[i as int].0@ == kk);
                        }
                    }
                    assert(map_of(s) =~= map_of(old_entries).insert(k, value));
                }
                self.entries = entries;
                Some(old_value)
            },
            None => {
                proof {
                    let s = old_entries.push((key, value));
                    assert(s.drop_last() =~= old_entries);
                    assert(distinct_keys(s));
                }
                let mut entries = Vec::new();
                std::mem::swap(&mut entries, &mut self.entries);
                entries.push((key, value));
                self.entries = entries;
                None
            },
        }
    }

    /// Removes the entry with the key, returning its value.
    pub fn remove(&mut self, key: &K) -> (res: Option<V>)
        ensures
            final(self)@ == old(self)@.remove(key@),
            match res {
                Some(v) => old(self)@.contains_key(key@) && old(self)@[key@] == v,
                None => !old(self)@.contains_key(key@),
            },
    {
        proof {
            use_type_invariant(&*self);
            lemma_map_of(self.entries@);
        }
        let ghost old_entries = self.entries@;
        match self.find(key) {
            Some(i) => {
                let ghost k = key@;
                let mut entries = Vec::new();
                std::mem::swap(&mut entries, &mut self.entries);
                let (_, old_value) = entries.remove(i);
                proof {
                    let s = entries@;
                    assert(s =~= old_entries.remove(i as int));
                    assert(distinct_keys(s));
                    lemma_map_of(s);
                    assert forall|kk: K::V| #[trigger] map_of(s).contains_key(kk) implies map_of(s)[kk]
                        == map_of(old_entries).remove(k)[kk] && map_of(old_entries).remove(k).contains_key(kk) by {
                        let j = choose|j: int| 0 <= j < s.len() && s[j].0@ == kk;
                        assert(map_of(s)[s[j].0@] == s[j].1);
                        if j < i {
                            assert(s[j] == old_entries[j]);
                            assert(map_of(old_entries)[old_entries[j].0@] == old_entries[j].1);
                        } else {
                            assert(s[j] == old_entries[j + 1]);
                            assert(map_of(old_entries)[old_entries[j + 1].0@] == old_entries[j + 1].1);
                        }
                    }
                    assert forall|kk: K::V| #[trigger] map_of(old_entries).remove(k).contains_key(kk)
                        implies map_of(s).contains_key(kk) by {
                        let j = choose|j: int| 0 <= j < old_entries.len() && old_entries[j].0@ == kk;
                        if j < i {
                            assert(s[j].0@ == kk);
                        } else {
                            assert(j != i);
                            assert(s[j - 1].0@ == kk);
                        }
                    }
                    assert(map_of(s) =~= map_of(old_entries).remove(k));
                }
                self.entries = entries;
                Some(old_value)
            },
            None => {
                assert(map_of(old_entries) =~= map_of(old_entries).remove(key@));
                None
            },
        }
    }

    /// The entries, consuming the map.
    pub fn into_entries(self) -> (res: Vec<(K, V)>)
        ensures
            res@ == self.entries(),
            distinct_keys(res@),
    {
        proof {
            use_type_invariant(&self);
        }
        self.entries
    }
}

impl<K: Key, V: Clone> Clone for VecMap<K, V> {
    /// A copy holding clones of the entries, in the same order.
    fn clone(&self) -> (res: Self)
        ensures
            res.entries().len() == self.entries().len(),
            forall|i: int|
                0 <= i < self.entries().len() ==> (#[trigger] res.entries()[i]).0@ == self.entries()[i].0@
                    && cloned(self.entries()[i].1, res.entries()[i].1),
            res@.dom() == self@.dom(),
            forall|k: K::V| #[trigger] self@.contains_key(k) ==> cloned(self@[k], res@[k]),
    {
        proof {
            use_type_invariant(self);
        }
        let mut out: Vec<(K, V)> = Vec::new();
        let mut i: usize = 0;
        while i < self.entries.len()
            invariant
                distinct_keys(self.entries@),
                i <= self.entries@.len(),
                out@.len() == i,
                forall|j: int|
                    0 <= j < i ==> (#[trigger] out@[j]).0@ == self.entries@[j].0@
                        && cloned(self.entries@[j].1, out@[j].1),
            decreases self.entries@.len() - i,
        {
            let e = &self.entries[i];
            out.push((e.0.key_clone(), e.1.clone()));
            i = i + 1;
        }
        assert(distinct_keys(out@)) by {
            assert forall|a: int, b: int| 0 <= a < out@.len() && 0 <= b < out@.len() && a != b implies out@[a].0@
                != out@[b].0@ by {
                assert(self.entries@[a].0@ != self.entries@[b].0@);
            }
        }
        proof {
            lemma_map_of(self.entries@);
            lemma_map_of(out@);
            assert forall|k: K::V| #[trigger] self@.contains_key(k) implies cloned(self@[k], map_of(out@)[k]) by {
                let i = choose|i: int| 0 <= i < self.entries@.len() && self.entries@[i].0@ == k;
                assert(out@[i].0@ == k);
            }
            assert forall|k: K::V| map_of(out@).contains_key(k) <==> self@.contains_key(k) by {
                if map_of(out@).contains_key(k) {
                    let i = choose|i: int| 0 <= i < out@.len() && out@[i].0@ == k;
                    assert(self.entries@[i].0@ == k);
                }
                if self@.contains_key(k) {
                    let i = choose|i: int| 0 <= i < self.entries@.len() && self.entries@[i].0@ == k;
                    assert(out@[i].0@ == k);
                }
            }
            assert(map_of(out@).dom() =~= self@.dom());
        }
        VecMap { entries: out }
    }
}

/// A map has as many keys as a sequence with distinct keys has entries.
pub proof fn lemma_len<K: View, V>(s: Seq<(K, V)>)
    requires
        distinct_keys(s),
    ensures
        map_of(s).len() == s.len(),
        map_of(s).dom().finite(),
    decreases s.len(),
{
    if s.len() > 0 {
        let t = s.drop_last();
        assert(distinct_keys(t));
        lemma_len(t);
        lemma_map_of(t);
        if map_of(t).contains_key(s.last().0@) {
            let i = choose|i: int| 0 <= i < t.len() && t[i].0@ == s.last().0@;
            assert(s[i].0@ == s[s.len() - 1].0@);
        }
    }
}

} // verus!
