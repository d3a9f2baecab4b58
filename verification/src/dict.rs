//! A map from strings to strings, kept as a list of entries in which a
//! key occurs at most once where it counts: the first entry of a key wins.

use vstd::prelude::*;

use crate::text::str_eq;

verus! {

/// The key/value pairs of `entries`, as sequences of characters.
pub open spec fn entry_views(entries: Seq<(String, String)>) -> Seq<(Seq<char>, Seq<char>)> {
    entries.map_values(|p: (String, String)| (p.0@, p.1@))
}

/// The index of the first entry whose key is `k`.
pub open spec fn key_index(entries: Seq<(Seq<char>, Seq<char>)>, k: Seq<char>) -> Option<int>
    decreases entries.len(),
{
    if entries.len() == 0 {
        None
    } else if entries[0].0 == k {
        Some(0)
    } else {
        match key_index(entries.drop_first(), k) {
            Some(i) => Some(i + 1),
            None => None,
        }
    }
}

/// The map that a sequence of entries denotes: the first entry of a key wins.
pub open spec fn entries_map(entries: Seq<(Seq<char>, Seq<char>)>) -> Map<Seq<char>, Seq<char>> {
    Map::new(
        |k: Seq<char>| key_index(entries, k) is Some,
        |k: Seq<char>| entries[key_index(entries, k)->0].1,
    )
}

/// `key_index` is the first index whose key matches.
pub proof fn lemma_key_index(entries: Seq<(Seq<char>, Seq<char>)>, k: Seq<char>)
    ensures
        match key_index(entries, k) {
            Some(i) => 0 <= i < entries.len() && entries[i].0 == k && forall|j: int|
                0 <= j < i ==> entries[j].0 != k,
            None => forall|j: int| 0 <= j < entries.len() ==> entries[j].0 != k,
        },
    decreases entries.len(),
{
    if entries.len() > 0 && entries[0].0 != k {
        lemma_key_index(entries.drop_first(), k);
        assert forall|j: int| 1 <= j < entries.len() implies entries[j] == entries.drop_first()[j
            - 1] by {}
    }
}

/// `key_index` is determined by the first index with a matching key.
pub proof fn lemma_key_index_at(entries: Seq<(Seq<char>, Seq<char>)>, k: Seq<char>, i: int)
    requires
        0 <= i <= entries.len(),
        forall|j: int| 0 <= j < i ==> entries[j].0 != k,
    ensures
        i < entries.len() && entries[i].0 == k ==> key_index(entries, k) == Some(i),
        i == entries.len() ==> key_index(entries, k) is None,
{
    lemma_key_index(entries, k);
}

/// Replacing or adding the first entry of `key` inserts into the denoted map.
pub proof fn lemma_entries_map_insert(
    old_entries: Seq<(Seq<char>, Seq<char>)>,
    new_entries: Seq<(Seq<char>, Seq<char>)>,
    key: Seq<char>,
    value: Seq<char>,
)
    requires
        forall|q: Seq<char>|
            q != key ==> #[trigger] key_index(new_entries, q) == key_index(old_entries, q),
        forall|q: Seq<char>|
            q != key && key_index(old_entries, q) is Some ==> new_entries[key_index(
                old_entries,
                q,
            )->0].1 == old_entries[#[trigger] key_index(old_entries, q)->0].1,
        key_index(new_entries, key) is Some,
        new_entries[key_index(new_entries, key)->0].1 == value,
    ensures
        entries_map(new_entries) =~= entries_map(old_entries).insert(key, value),
{
    assert forall|q: Seq<char>| #[trigger] entries_map(new_entries).dom().contains(q)
        == entries_map(old_entries).insert(key, value).dom().contains(q) by {
        if q != key {
            assert(key_index(new_entries, q) == key_index(old_entries, q));
        }
    }
    assert forall|q: Seq<char>| #[trigger] entries_map(new_entries).dom().contains(q) implies
        entries_map(new_entries)[q] == entries_map(old_entries).insert(key, value)[q] by {
        if q != key {
            assert(key_index(new_entries, q) == key_index(old_entries, q));
        }
    }
}

/// A map from strings to strings.
#[derive(Debug)]
pub struct StrMap {
    entries: Vec<(String, String)>,
}

impl View for StrMap {
    type V = Map<Seq<char>, Seq<char>>;

    closed spec fn view(&self) -> Map<Seq<char>, Seq<char>> {
        entries_map(entry_views(self.entries@))
    }
}

impl StrMap {
    /// A map without entries.
    pub fn new() -> (t: StrMap)
        ensures
            t@ == Map::<Seq<char>, Seq<char>>::empty(),
    {
        let t = StrMap { entries: Vec::new() };
        assert(t@ =~= Map::<Seq<char>, Seq<char>>::empty());
        t
    }

    /// Sets `key` to `value`, replacing any earlier value.
    pub fn insert(&mut self, key: String, value: String)
        ensures
            final(self)@ == old(self)@.insert(key@, value@),
    {
        let ghost old_entries = entry_views(self.entries@);
        let mut i: usize = 0;
        while i < self.entries.len()
            invariant
                i <= self.entries@.len(),
                old_entries == entry_views(self.entries@),
                self.entries@ == old(self).entries@,
                forall|j: int| 0 <= j < i ==> old_entries[j].0 != key@,
            decreases self.entries@.len() - i,
        {
            if self.entries[i].0 == key {
                proof {
                    lemma_key_index_at(old_entries, key@, i as int);
                }
                let k = self.entries[i].0.clone();
                self.entries.set(i, (k, value));
                proof {
                    let new_entries = entry_views(self.entries@);
                    assert(new_entries =~= old_entries.update(i as int, (key@, value@)));
                    assert forall|q: Seq<char>| q != key@ implies #[trigger] key_index(new_entries, q)
                        == key_index(old_entries, q) by {
                        lemma_key_index(old_entries, q);
                        match key_index(old_entries, q) {
                            Some(a) => {
                                lemma_key_index_at(new_entries, q, a);
                            },
                            None => {
                                lemma_key_index_at(new_entries, q, new_entries.len() as int);
                            },
                        }
                    }
                    assert forall|q: Seq<char>|
                        q != key@ && key_index(old_entries, q) is Some implies new_entries[key_index(
                        old_entries,
                        q,
                    )->0].1 == old_entries[#[trigger] key_index(old_entries, q)->0].1 by {
                        lemma_key_index(old_entries, q);
                    }
                    lemma_key_index_at(new_entries, key@, i as int);
                    lemma_entries_map_insert(old_entries, new_entries, key@, value@);
                }
                return ;
            }
            i = i + 1;
        }
        proof {
            lemma_key_index_at(old_entries, key@, old_entries.len() as int);
        }
        self.entries.push((key, value));
        proof {
            let new_entries = entry_views(self.entries@);
            assert(new_entries =~= old_entries.push((key@, value@)));
            assert forall|q: Seq<char>| q != key@ implies #[trigger] key_index(new_entries, q)
                == key_index(old_entries, q) by {
                lemma_key_index(old_entries, q);
                match key_index(old_entries, q) {
                    Some(a) => {
                        lemma_key_index_at(new_entries, q, a);
                    },
                    None => {
                        lemma_key_index_at(new_entries, q, new_entries.len() as int);
                    },
                }
            }
            assert forall|q: Seq<char>|
                q != key@ && key_index(old_entries, q) is Some implies new_entries[key_index(
                old_entries,
                q,
            )->0].1 == old_entries[#[trigger] key_index(old_entries, q)->0].1 by {
                lemma_key_index(old_entries, q);
            }
            lemma_key_index_at(new_entries, key@, old_entries.len() as int);
            lemma_entries_map_insert(old_entries, new_entries, key@, value@);
        }
    }

    /// A map with the same entries.
    pub fn duplicate(&self) -> (r: StrMap)
        ensures
            r@ == self@,
    {
        let mut entries: Vec<(String, String)> = Vec::new();
        let mut i: usize = 0;
        while i < self.entries.len()
            invariant
                i <= self.entries@.len(),
                entries@ == self.entries@.take(i as int),
            decreases self.entries@.len() - i,
        {
            let (k, v) = &self.entries[i];
            entries.push((k.clone(), v.clone()));
            assert(self.entries@.take(i + 1) =~= self.entries@.take(i as int).push(
                self.entries@[i as int],
            ));
            i = i + 1;
        }
        assert(self.entries@.take(self.entries@.len() as int) =~= self.entries@);
        StrMap { entries }
    }

    /// The value of `key`.
    pub fn get(&self, key: &str) -> (r: Option<&String>)
        ensures
            match r {
                Some(v) => self@.dom().contains(key@) && v@ == self@[key@],
                None => !self@.dom().contains(key@),
            },
    {
        let ghost entries = entry_views(self.entries@);
        let mut i: usize = 0;
        while i < self.entries.len()
            invariant
                i <= self.entries@.len(),
                entries == entry_views(self.entries@),
                forall|j: int| 0 <= j < i ==> entries[j].0 != key@,
            decreases self.entries@.len() - i,
        {
            if str_eq(self.entries[i].0.as_str(), key) {
                proof {
                    lemma_key_index_at(entries, key@, i as int);
                }
                return Some(&self.entries[i].1);
            }
            i = i + 1;
        }
        proof {
            lemma_key_index_at(entries, key@, entries.len() as int);
        }
        None
    }

}

/// A read gives back what the last write wrote: after `insert(key,
/// value)`, `get(key)` finds `value`, and every other key reads as before.
pub proof fn lemma_read_after_write(
    m: Map<Seq<char>, Seq<char>>,
    key: Seq<char>,
    value: Seq<char>,
    other: Seq<char>,
)
    requires
        other != key,
    ensures
        m.insert(key, value).dom().contains(key),
        m.insert(key, value)[key] == value,
        m.insert(key, value).dom().contains(other) == m.dom().contains(other),
        m.dom().contains(other) ==> m.insert(key, value)[other] == m[other],
{
}

} // verus!
