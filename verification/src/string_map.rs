//! A finite map from text to text, kept as a list of entries with distinct keys.

use vstd::prelude::*;

verus! {

/// The map that a list of entries stands for: a key is present when some entry
/// carries it, and maps to the value of such an entry.
pub open spec fn entries_map(s: Seq<(String, String)>) -> Map<Seq<char>, Seq<char>> {
    Map::new(
        |k: Seq<char>| exists|i: int| 0 <= i < s.len() && #[trigger] s[i].0@ == k,
        |k: Seq<char>| s[choose|i: int| 0 <= i < s.len() && #[trigger] s[i].0@ == k].1@,
    )
}

/// The map that pairs build up one after the other, a later pair replacing
/// an earlier one with the same key.
pub open spec fn pairs_map(pairs: Seq<(String, String)>) -> Map<Seq<char>, Seq<char>>
    decreases pairs.len(),
{
    if pairs.len() == 0 {
        Map::empty()
    } else {
        pairs_map(pairs.drop_last()).insert(pairs.last().0@, pairs.last().1@)
    }
}

/// No two entries of the list carry the same key.
pub open spec fn keys_distinct(s: Seq<(String, String)>) -> bool {
    forall|i: int, j: int| 0 <= i < j < s.len() ==> #[trigger] s[i].0@ != #[trigger] s[j].0@
}

/// With distinct keys, every entry of the list is an entry of the map.
pub proof fn lemma_entry_in_map(s: Seq<(String, String)>, i: int)
    requires
        keys_distinct(s),
        0 <= i < s.len(),
    ensures
        entries_map(s).contains_key(s[i].0@),
        entries_map(s)[s[i].0@] == s[i].1@,
{
    let k = s[i].0@;
    let j = choose|j: int| 0 <= j < s.len() && #[trigger] s[j].0@ == k;
    assert(j == i) by {
        if j < i {
            assert(s[j].0@ != s[i].0@);
        } else if i < j {
            assert(s[i].0@ != s[j].0@);
        }
    }
}

/// A list of pairs with distinct keys builds up the map that it stands for.
pub proof fn lemma_pairs_map_of_distinct(s: Seq<(String, String)>)
    requires
        keys_distinct(s),
    ensures
        pairs_map(s) == entries_map(s),
    decreases s.len(),
{
    if s.len() == 0 {
        assert(entries_map(s) =~= Map::<Seq<char>, Seq<char>>::empty());
    } else {
        let front = s.drop_last();
        let n = front.len() as int;
        assert(keys_distinct(front)) by {
            assert forall|a: int, b: int| 0 <= a < b < front.len() implies front[a].0@ != front[b].0@ by {
                assert(s[a].0@ != s[b].0@);
            }
        }
        lemma_pairs_map_of_distinct(front);
        let next = entries_map(front).insert(s.last().0@, s.last().1@);
        assert forall|k: Seq<char>| entries_map(s).contains_key(k) <==> next.contains_key(k) by {
            if entries_map(s).contains_key(k) {
                let j = choose|j: int| 0 <= j < s.len() && #[trigger] s[j].0@ == k;
                if j < n {
                    assert(front[j].0@ == k);
                }
            }
            if entries_map(front).contains_key(k) {
                let j = choose|j: int| 0 <= j < front.len() && #[trigger] front[j].0@ == k;
                assert(s[j].0@ == k);
            }
            if k == s.last().0@ {
                assert(s[n].0@ == k);
            }
        }
        assert forall|k: Seq<char>| entries_map(s).contains_key(k) implies entries_map(s)[k]
            == next[k] by {
            let j = choose|j: int| 0 <= j < s.len() && #[trigger] s[j].0@ == k;
            lemma_entry_in_map(s, j);
            if j < n {
                lemma_entry_in_map(front, j);
                assert(s[j].0@ != s[n].0@);
            }
        }
        assert(entries_map(s) =~= next);
    }
}

/// Labels, annotations and similar string-to-string data of an object.
pub struct StringMap {
    entries: Vec<(String, String)>,
}

impl View for StringMap {
    type V = Map<Seq<char>, Seq<char>>;

    closed spec fn view(&self) -> Map<Seq<char>, Seq<char>> {
        entries_map(self.entries@)
    }
}

impl StringMap {
    #[verifier::type_invariant]
    spec fn distinct(&self) -> bool {
        keys_distinct(self.entries@)
    }

    /// The entries in the order in which they are stored.
    pub closed spec fn spec_entries(&self) -> Seq<(String, String)> {
        self.entries@
    }

    /// The empty map.
    pub fn new() -> (m: Self)
        ensures
            m@ == Map::<Seq<char>, Seq<char>>::empty(),
            m.spec_entries().len() == 0,
    {
        let m = StringMap { entries: Vec::new() };
        assert(m@ =~= Map::<Seq<char>, Seq<char>>::empty());
        m
    }

    /// The number of entries, which is the number of keys.
    pub fn len(&self) -> (n: usize)
        ensures
            n == self.spec_entries().len(),
            self@.dom().finite(),
            n == self@.dom().len(),
    {
        proof {
            use_type_invariant(self);
            let entries = self.entries@;
            let keys = Seq::new(entries.len(), |i: int| entries[i].0@);
            assert(keys.no_duplicates());
            assert(keys.to_set() =~= self@.dom()) by {
                assert forall|k: Seq<char>| keys.to_set().contains(k) <==> self@.dom().contains(k) by {
                    if keys.to_set().contains(k) {
                        let i = choose|i: int| 0 <= i < keys.len() && keys[i] == k;
                        assert(entries[i].0@ == k);
                    }
                    if self@.dom().contains(k) {
                        let i = choose|i: int| 0 <= i < entries.len() && #[trigger] entries[i].0@ == k;
                        assert(keys[i] == k);
                    }
                }
            }
            keys.unique_seq_to_set();
        }
        self.entries.len()
    }

    /// The position of the entry that carries `key`, if there is one.
    fn position(&self, key: &String) -> (r: Option<usize>)
        ensures
            match r {
                Some(i) => i < self.entries@.len() && self.entries@[i as int].0@ == key@,
                None => forall|j: int| 0 <= j < self.entries@.len() ==> self.entries@[j].0@ != key@,
            },
    {
        let mut i: usize = 0;
        while i < self.entries.len()
            invariant
                i <= self.entries@.len(),
                forall|j: int| 0 <= j < i ==> self.entries@[j].0@ != key@,
            decreases self.entries@.len() - i,
        {
            if self.entries[i].0 == *key {
                return Some(i);
            }
            i += 1;
        }
        None
    }

    /// The value stored under `key`.
    pub fn get(&self, key: &String) -> (r: Option<&String>)
        ensures
            match r {
                Some(v) => self@.contains_key(key@) && self@[key@] == v@,
                None => !self@.contains_key(key@),
            },
    {
        proof {
            use_type_invariant(self);
        }
        match self.position(key) {
            Some(i) => {
                proof {
                    lemma_entry_in_map(self.entries@, i as int);
                }
                Some(&self.entries[i].1)
            },
            None => None,
        }
    }

    /// Whether `key` is present.
    pub fn contains_key(&self, key: &String) -> (b: bool)
        ensures
            b == self@.contains_key(key@),
    {
        self.get(key).is_some()
    }

    /// Stores `value` under `key`, replacing what was stored there.
    pub fn insert(&mut self, key: String, value: String)
        ensures
            final(self)@ == old(self)@.insert(key@, value@),
    {
        proof {
            use_type_invariant(&*self);
        }
        let found = self.position(&key);
        let mut taken = StringMap::new();
        core::mem::swap(self, &mut taken);
        let mut entries = taken.entries;
        let ghost before = entries@;
        match found {
            Some(i) => {
                entries.set(i, (key, value));
                proof {
                    let after = entries@;
                    assert(keys_distinct(after)) by {
                        assert forall|a: int, b: int| 0 <= a < b < after.len() implies after[a].0@
                            != after[b].0@ by {
                            assert(before[a].0@ != before[b].0@);
                        }
                    }
                    assert forall|k: Seq<char>|
                        entries_map(after).contains_key(k) <==> entries_map(before).insert(
                            key@,
                            value@,
                        ).contains_key(k) by {
                        if entries_map(after).contains_key(k) {
                            let j = choose|j: int| 0 <= j < after.len() && #[trigger] after[j].0@ == k;
                            assert(before[j].0@ == k);
                        }
                        if entries_map(before).contains_key(k) {
                            let j = choose|j: int|
                                0 <= j < before.len() && #[trigger] before[j].0@ == k;
                            assert(after[j].0@ == k);
                        }
                        if k == key@ {
                            assert(after[i as int].0@ == k);
                        }
                    }
                    assert forall|k: Seq<char>| entries_map(after).contains_key(k) implies entries_map(
                        after,
                    )[k] == entries_map(before).insert(key@, value@)[k] by {
                        let j = choose|j: int| 0 <= j < after.len() && #[trigger] after[j].0@ == k;
                        lemma_entry_in_map(after, j);
                        if j != i as int {
                            lemma_entry_in_map(before, j);
                        }
                    }
                    assert(entries_map(after) =~= entries_map(before).insert(key@, value@));
                }
            },
            None => {
                entries.push((key, value));
                proof {
                    let after = entries@;
                    let n = before.len() as int;
                    assert(keys_distinct(after)) by {
                        assert forall|a: int, b: int| 0 <= a < b < after.len() implies after[a].0@
                            != after[b].0@ by {
                            if b < n {
                                assert(before[a].0@ != before[b].0@);
                            } else {
                                assert(before[a].0@ != key@);
                            }
                        }
                    }
                    assert forall|k: Seq<char>|
                        entries_map(after).contains_key(k) <==> entries_map(before).insert(
                            key@,
                            value@,
                        ).contains_key(k) by {
                        if entries_map(after).contains_key(k) {
                            let j = choose|j: int| 0 <= j < after.len() && #[trigger] after[j].0@ == k;
                            if j < n {
                                assert(before[j].0@ == k);
                            }
                        }
                        if entries_map(before).contains_key(k) {
                            let j = choose|j: int|
                                0 <= j < before.len() && #[trigger] before[j].0@ == k;
                            assert(after[j].0@ == k);
                        }
                        if k == key@ {
                            assert(after[n].0@ == k);
                        }
                    }
                    assert forall|k: Seq<char>| entries_map(after).contains_key(k) implies entries_map(
                        after,
                    )[k] == entries_map(before).insert(key@, value@)[k] by {
                        let j = choose|j: int| 0 <= j < after.len() && #[trigger] after[j].0@ == k;
                        lemma_entry_in_map(after, j);
                        if j < n {
                            lemma_entry_in_map(before, j);
                        }
                    }
                    assert(entries_map(after) =~= entries_map(before).insert(key@, value@));
                }
            },
        }
        *self = StringMap { entries };
    }

    /// Whether every entry of this map is an entry of `other` too. Entries that
    /// only `other` holds do not count.
    pub fn is_submap_of(&self, other: &StringMap) -> (b: bool)
        ensures
            b == self@.submap_of(other@),
    {
        proof {
            use_type_invariant(self);
        }
        let mut i: usize = 0;
        while i < self.entries.len()
            invariant
                i <= self.entries@.len(),
                keys_distinct(self.entries@),
                forall|j: int|
                    0 <= j < i ==> other@.contains_key(#[trigger] self.entries@[j].0@) && other@[self.entries@[j].0@]
                        == self.entries@[j].1@,
            decreases self.entries@.len() - i,
        {
            proof {
                lemma_entry_in_map(self.entries@, i as int);
            }
            match other.get(&self.entries[i].0) {
                Some(v) => {
                    if *v != self.entries[i].1 {
                        return false;
                    }
                },
                None => {
                    return false;
                },
            }
            i += 1;
        }
        proof {
            assert forall|k: Seq<char>| #[trigger] self@.dom().contains(k) implies other@.dom().contains(k)
                && self@[k] == other@[k] by {
                let j = choose|j: int|
                    0 <= j < self.entries@.len() && #[trigger] self.entries@[j].0@ == k;
                lemma_entry_in_map(self.entries@, j);
            }
        }
        true
    }

    /// Whether both maps hold the same entries.
    pub fn same(&self, other: &StringMap) -> (b: bool)
        ensures
            b == (self@ == other@),
    {
        let b = self.is_submap_of(other) && other.is_submap_of(self);
        proof {
            self@.lemma_submap_eq_iff(other@);
        }
        b
    }

    /// A copy with the same entries.
    pub fn duplicate(&self) -> (m: Self)
        ensures
            m@ == self@,
            m.spec_entries() == self.spec_entries(),
    {
        proof {
            use_type_invariant(self);
        }
        let mut entries: Vec<(String, String)> = Vec::new();
        let mut i: usize = 0;
        while i < self.entries.len()
            invariant
                i <= self.entries@.len(),
                entries@ == self.entries@.take(i as int),
            decreases self.entries@.len() - i,
        {
            let k = self.entries[i].0.clone();
            let v = self.entries[i].1.clone();
            entries.push((k, v));
            i += 1;
            assert(entries@ =~= self.entries@.take(i as int));
        }
        assert(entries@ =~= self.entries@);
        StringMap { entries }
    }

    /// Adds every entry of `other`, replacing what was stored under its keys.
    pub fn extend(&mut self, other: &StringMap)
        ensures
            final(self)@ == old(self)@.union_prefer_right(other@),
    {
        proof {
            use_type_invariant(other);
        }
        let ghost start = self@;
        let mut i: usize = 0;
        while i < other.entries.len()
            invariant
                i <= other.entries@.len(),
                keys_distinct(other.entries@),
                self@ == start.union_prefer_right(entries_map(other.entries@.take(i as int))),
            decreases other.entries@.len() - i,
        {
            let ghost before = self@;
            let ghost part = other.entries@.take(i as int);
            let ghost next = other.entries@.take(i + 1);
            let k = other.entries[i].0.clone();
            let v = other.entries[i].1.clone();
            self.insert(k, v);
            proof {
                assert(keys_distinct(next));
                assert(next.len() == i + 1);
                assert forall|key: Seq<char>|
                    entries_map(next).contains_key(key) <==> entries_map(part).insert(
                        k@,
                        v@,
                    ).contains_key(key) by {
                    if entries_map(next).contains_key(key) {
                        let j = choose|j: int| 0 <= j < next.len() && #[trigger] next[j].0@ == key;
                        if j < i {
                            assert(part[j].0@ == key);
                        }
                    }
                    if entries_map(part).contains_key(key) {
                        let j = choose|j: int| 0 <= j < part.len() && #[trigger] part[j].0@ == key;
                        assert(next[j].0@ == key);
                    }
                    if key == k@ {
                        assert(next[i as int].0@ == key);
                    }
                }
                assert forall|key: Seq<char>| entries_map(next).contains_key(key) implies entries_map(
                    next,
                )[key] == entries_map(part).insert(k@, v@)[key] by {
                    let j = choose|j: int| 0 <= j < next.len() && #[trigger] next[j].0@ == key;
                    lemma_entry_in_map(next, j);
                    if j < i {
                        assert(keys_distinct(part));
                        lemma_entry_in_map(part, j);
                    }
                }
                assert(entries_map(next) =~= entries_map(part).insert(k@, v@));
                assert(self@ =~= start.union_prefer_right(entries_map(next)));
            }
            i += 1;
        }
        proof {
            assert(other.entries@.take(i as int) =~= other.entries@);
            assert(entries_map(Seq::<(String, String)>::empty()) =~= Map::<Seq<char>, Seq<char>>::empty());
        }
    }

    /// The entries as pairs of key and value, in the order in which they are stored.
    pub fn to_pairs(&self) -> (r: Vec<(String, String)>)
        ensures
            r@ == self.spec_entries(),
            pairs_map(r@) == self@,
    {
        proof {
            use_type_invariant(self);
            lemma_pairs_map_of_distinct(self.entries@);
        }
        let mut r: Vec<(String, String)> = Vec::new();
        let mut i: usize = 0;
        while i < self.entries.len()
            invariant
                i <= self.entries@.len(),
                r@ == self.entries@.take(i as int),
            decreases self.entries@.len() - i,
        {
            r.push((self.entries[i].0.clone(), self.entries[i].1.clone()));
            i += 1;
            assert(r@ =~= self.entries@.take(i as int));
        }
        assert(r@ =~= self.entries@);
        r
    }

    /// The map that holds the pairs, a later pair replacing an earlier one
    /// with the same key.
    pub fn from_pairs(pairs: Vec<(String, String)>) -> (m: Self)
        ensures
            m@ == pairs_map(pairs@),
    {
        let mut m = StringMap::new();
        let mut i: usize = 0;
        assert(pairs@.take(0) =~= Seq::empty());
        while i < pairs.len()
            invariant
                i <= pairs@.len(),
                m@ == pairs_map(pairs@.take(i as int)),
            decreases pairs@.len() - i,
        {
            proof {
                let next = pairs@.take(i + 1);
                assert(next.drop_last() =~= pairs@.take(i as int));
                assert(next.last() == pairs@[i as int]);
            }
            m.insert(pairs[i].0.clone(), pairs[i].1.clone());
            i += 1;
        }
        assert(pairs@.take(i as int) =~= pairs@);
        m
    }

    /// The key and the value of the entry at position `i`.
    pub fn entry(&self, i: usize) -> (r: (&String, &String))
        requires
            i < self.spec_entries().len(),
        ensures
            *r.0 == self.spec_entries()[i as int].0,
            *r.1 == self.spec_entries()[i as int].1,
            self@.contains_key(r.0@),
            self@[r.0@] == r.1@,
    {
        proof {
            use_type_invariant(self);
            lemma_entry_in_map(self.entries@, i as int);
        }
        (&self.entries[i].0, &self.entries[i].1)
    }
}

} // verus!
