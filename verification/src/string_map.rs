//! An ordered map from text to text: the headers, cookies and query
//! parameters of a network event.

use vstd::prelude::*;

verus! {

/// The entries of a map, as pairs of key and value, in order.
pub type Entries = Seq<(Seq<char>, Seq<char>)>;

/// No key occurs twice.
pub open spec fn distinct_keys(entries: Entries) -> bool {
    forall|i: int, j: int| 0 <= i < j < entries.len() ==> entries[i].0 != entries[j].0
}

/// Some entry has this key.
pub open spec fn has_key(entries: Entries, key: Seq<char>) -> bool {
    exists|i: int| 0 <= i < entries.len() && #[trigger] entries[i].0 == key
}

/// The entries after `key` is set to `value`: the entry with that key is
/// replaced where it stands, or a new entry is added at the end.
pub open spec fn put(entries: Entries, key: Seq<char>, value: Seq<char>) -> Entries
    decreases entries.len(),
{
    if entries.len() == 0 {
        seq![(key, value)]
    } else if entries[0].0 == key {
        entries.update(0, (key, value))
    } else {
        seq![entries[0]] + put(entries.skip(1), key, value)
    }
}

/// The value that the first entry with this key holds.
pub open spec fn value_of(entries: Entries, key: Seq<char>) -> Option<Seq<char>>
    decreases entries.len(),
{
    if entries.len() == 0 {
        None
    } else if entries[0].0 == key {
        Some(entries[0].1)
    } else {
        value_of(entries.skip(1), key)
    }
}

/// The keys and values of a list of pairs of texts.
pub open spec fn pairs(list: Seq<(String, String)>) -> Entries {
    Seq::new(list.len(), |i: int| (list[i].0@, list[i].1@))
}

/// A map from text to text that keeps its entries in the order in which
/// their keys were first set. Keys are compared exactly, letter case included,
/// and no key occurs twice.
#[derive(Debug, PartialEq, Eq)]
pub struct StringMap {
    entries: Vec<(String, String)>,
}

impl View for StringMap {
    type V = Entries;

    closed spec fn view(&self) -> Entries {
        pairs(self.entries@)
    }
}

impl Clone for StringMap {
    fn clone(&self) -> (copy: StringMap)
        ensures
            copy@ == self@,
    {
        proof {
            use_type_invariant(self);
        }
        let mut entries: Vec<(String, String)> = Vec::new();
        let mut i: usize = 0;
        while i < self.entries.len()
            invariant
                i <= self.entries.len(),
                entries.len() == i,
                forall|k: int| 0 <= k < i ==> #[trigger] entries[k] == self.entries[k],
            decreases self.entries.len() - i,
        {
            entries.push((self.entries[i].0.clone(), self.entries[i].1.clone()));
            i += 1;
        }
        assert(pairs(entries@) =~= pairs(self.entries@));
        StringMap { entries }
    }
}

impl StringMap {
    #[verifier::type_invariant]
    spec fn keys_are_distinct(&self) -> bool {
        distinct_keys(pairs(self.entries@))
    }

    /// The empty map.
    pub fn new() -> (map: StringMap)
        ensures
            map@ == Entries::empty(),
    {
        let entries: Vec<(String, String)> = Vec::new();
        StringMap { entries }
    }

    /// The number of entries.
    pub fn len(&self) -> (n: usize)
        ensures
            n == self@.len(),
    {
        self.entries.len()
    }

    /// The entries in order. No two of them have the same key.
    pub fn entries(&self) -> (entries: &Vec<(String, String)>)
        ensures
            pairs(entries@) == self@,
            distinct_keys(self@),
    {
        proof {
            use_type_invariant(self);
        }
        &self.entries
    }

    /// The value stored under `key`.
    pub fn get(&self, key: &str) -> (r: Option<&String>)
        ensures
            (match r {
                Some(value) => value_of(self@, key@) == Some(value@),
                None => value_of(self@, key@) is None,
            }),
    {
        let wanted = key.to_owned();
        let mut i: usize = 0;
        assert(self@.skip(0) =~= self@);
        while i < self.entries.len()
            invariant
                i <= self.entries.len(),
                wanted@ == key@,
                value_of(self@, key@) == value_of(self@.skip(i as int), key@),
            decreases self.entries.len() - i,
        {
            proof {
                assert(self@.skip(i as int).skip(1) =~= self@.skip(i + 1));
            }
            if self.entries[i].0 == wanted {
                return Some(&self.entries[i].1);
            }
            i += 1;
        }
        None
    }

    /// Sets `key` to `value`.
    pub fn insert(&mut self, key: String, value: String)
        ensures
            final(self)@ == put(old(self)@, key@, value@),
    {
        proof {
            use_type_invariant(&*self);
        }
        let ghost before = self@;
        let mut entries: Vec<(String, String)> = Vec::new();
        core::mem::swap(&mut entries, &mut self.entries);
        proof {
            lemma_put_keeps_distinct(before, key@, value@);
            assert(before.skip(0) =~= before);
        }
        let mut i: usize = 0;
        while i < entries.len()
            invariant
                i <= entries.len(),
                before == old(self)@,
                pairs(entries@) == before,
                distinct_keys(put(before, key@, value@)),
                put(before, key@, value@) == before.take(i as int) + put(
                    before.skip(i as int),
                    key@,
                    value@,
                ),
            decreases entries.len() - i,
        {
            proof {
                assert(before.skip(i as int).skip(1) =~= before.skip(i + 1));
            }
            if entries[i].0 == key {
                entries.set(i, (key, value));
                assert(pairs(entries@) =~= before.take(i as int) + before.skip(i as int).update(
                    0,
                    (key@, value@),
                ));
                self.entries = entries;
                return ;
            }
            i += 1;
        }
        entries.push((key, value));
        proof {
            assert(pairs(entries@) =~= before.take(i as int) + seq![(key@, value@)]);
        }
        self.entries = entries;
    }
}

/// The place of the first entry with this key, or the number of entries
/// where there is none.
pub open spec fn position(entries: Entries, key: Seq<char>) -> int
    decreases entries.len(),
{
    if entries.len() == 0 {
        0
    } else if entries[0].0 == key {
        0
    } else {
        1 + position(entries.skip(1), key)
    }
}

/// `position` finds the first entry with the key, and `put` writes there.
pub proof fn lemma_put_at_position(entries: Entries, key: Seq<char>, value: Seq<char>)
    ensures
        0 <= position(entries, key) <= entries.len(),
        forall|j: int| 0 <= j < position(entries, key) ==> (#[trigger] entries[j]).0 != key,
        position(entries, key) < entries.len() ==> entries[position(entries, key)].0 == key,
        put(entries, key, value) == (if position(entries, key) < entries.len() {
            entries.update(position(entries, key), (key, value))
        } else {
            entries.push((key, value))
        }),
    decreases entries.len(),
{
    if entries.len() > 0 && entries[0].0 != key {
        let rest = entries.skip(1);
        lemma_put_at_position(rest, key, value);
        assert forall|j: int| 0 <= j < position(entries, key) implies (#[trigger] entries[j]).0
            != key by {
            if j > 0 {
                assert(rest[j - 1] == entries[j]);
            }
        }
    }
}

/// Setting a key that no entry has adds an entry at the end.
pub proof fn lemma_put_fresh(entries: Entries, key: Seq<char>, value: Seq<char>)
    requires
        !has_key(entries, key),
    ensures
        put(entries, key, value) == entries.push((key, value)),
{
    lemma_put_at_position(entries, key, value);
}

/// Setting a key keeps the keys distinct.
pub proof fn lemma_put_keeps_distinct(entries: Entries, key: Seq<char>, value: Seq<char>)
    requires
        distinct_keys(entries),
    ensures
        distinct_keys(put(entries, key, value)),
{
    lemma_put_at_position(entries, key, value);
}

} // verus!
