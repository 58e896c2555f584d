//! A small in-memory keyed store.  Each record type names its own string
//! key; the store keeps at most one record per key and pins down, in every
//! contract, exactly how the stored sequence changes.

use vstd::prelude::*;

verus! {

/// A record addressed by a string key.
pub trait Keyed: Sized {
    /// The key under which the record is stored.
    spec fn key(&self) -> Seq<char>;

    /// Compares the record's key against `key`.
    fn key_eq(&self, key: &String) -> (r: bool)
        ensures
            r == (self.key() == key@),
    ;
}

/// No two records share a key.
pub open spec fn seq_wf<T: Keyed>(s: Seq<T>) -> bool {
    forall|i: int, j: int|
        #![trigger s[i].key(), s[j].key()]
        0 <= i < j < s.len() ==> s[i].key() != s[j].key()
}

/// Some record carries key `k`.
pub open spec fn seq_contains_key<T: Keyed>(s: Seq<T>, k: Seq<char>) -> bool {
    exists|i: int| 0 <= i < s.len() && (#[trigger] s[i].key()) == k
}

/// The record carrying key `k`, if any.
pub open spec fn seq_get<T: Keyed>(s: Seq<T>, k: Seq<char>) -> Option<T> {
    if seq_contains_key(s, k) {
        Some(s[choose|i: int| 0 <= i < s.len() && (#[trigger] s[i].key()) == k])
    } else {
        None
    }
}

/// In a well-formed sequence, a record that carries key `k` at position `i`
/// is the record `seq_get` denotes.
pub proof fn lemma_seq_get_at<T: Keyed>(s: Seq<T>, k: Seq<char>, i: int)
    requires
        seq_wf(s),
        0 <= i < s.len(),
        s[i].key() == k,
    ensures
        seq_get(s, k) == Some(s[i]),
{
    assert(seq_contains_key(s, k));
    let j = choose|j: int| 0 <= j < s.len() && (#[trigger] s[j].key()) == k;
    if i < j {
        assert(s[i].key() != s[j].key());
    } else if j < i {
        assert(s[j].key() != s[i].key());
    }
}

/// An in-memory store of records, one per key, in insertion order.
pub struct KeyedVec<T> {
    pub items: Vec<T>,
}

impl<T: Keyed> KeyedVec<T> {
    /// Keys are pairwise distinct.
    pub open spec fn wf(self) -> bool {
        seq_wf(self.items@)
    }

    /// Whether a record carries key `k`.
    pub open spec fn contains_key(self, k: Seq<char>) -> bool {
        seq_contains_key(self.items@, k)
    }

    /// The record carrying key `k`, if any.
    pub open spec fn spec_get(self, k: Seq<char>) -> Option<T> {
        seq_get(self.items@, k)
    }

    /// An empty store.
    pub fn new() -> (r: Self)
        ensures
            r.items@ == Seq::<T>::empty(),
            r.wf(),
            forall|k: Seq<char>| r.spec_get(k) is None,
    {
        KeyedVec { items: Vec::new() }
    }

    /// Number of records held.
    pub fn len(&self) -> (r: usize)
        ensures
            r == self.items@.len(),
    {
        self.items.len()
    }

    /// The position of the record carrying `key`, if any.
    pub fn index_of(&self, key: &String) -> (r: Option<usize>)
        ensures
            r matches Some(i) ==> 0 <= i < self.items@.len() && self.items@[i as int].key()
                == key@,
            r is None ==> !self.contains_key(key@),
            r matches Some(i) ==> (self.wf() ==> self.spec_get(key@) == Some(
                self.items@[i as int],
            )),
    {
        let mut i: usize = 0;
        while i < self.items.len()
            invariant
                i <= self.items@.len(),
                forall|j: int| 0 <= j < i ==> (#[trigger] self.items@[j].key()) != key@,
            decreases self.items@.len() - i,
        {
            if self.items[i].key_eq(key) {
                proof {
                    if self.wf() {
                        lemma_seq_get_at(self.items@, key@, i as int);
                    }
                }
                return Some(i);
            }
            i = i + 1;
        }
        None
    }

    /// A borrow of the record carrying `key`, if any.
    pub fn get(&self, key: &String) -> (r: Option<&T>)
        requires
            self.wf(),
        ensures
            r matches Some(t) ==> self.spec_get(key@) == Some(*t),
            r is None ==> self.spec_get(key@) is None,
            (r is Some) == self.contains_key(key@),
    {
        match self.index_of(key) {
            Some(i) => Some(&self.items[i]),
            None => None,
        }
    }

    /// Appends a record under a key not yet present.
    pub fn push_item(&mut self, item: T)
        requires
            old(self).wf(),
            !old(self).contains_key(item.key()),
        ensures
            final(self).items@ == old(self).items@.push(item),
            final(self).wf(),
            final(self).spec_get(item.key()) == Some(item),
            forall|k: Seq<char>|
                k != item.key() ==> final(self).spec_get(k) == old(self).spec_get(k),
    {
        self.items.push(item);
        proof {
            let s = self.items@;
            let n = s.len() - 1;
            assert forall|i: int, j: int| 0 <= i < j < s.len() implies s[i].key() != s[j].key()
            by {
                if j < n {
                    assert(old(self).items@[i].key() != old(self).items@[j].key());
                } else {
                    assert(s[j] == item);
                    assert(!seq_contains_key(old(self).items@, item.key()));
                    assert(old(self).items@[i].key() != item.key());
                }
            }
            lemma_seq_get_at(s, item.key(), n);
            assert forall|k: Seq<char>| k != item.key() implies seq_get(s, k) == seq_get(
                old(self).items@,
                k,
            ) by {
                lemma_other_keys_after_write(old(self).items@, s, n, k);
            }
        }
    }

    /// Replaces the record at `i` with one carrying the same key.
    pub fn set_item(&mut self, i: usize, item: T)
        requires
            old(self).wf(),
            i < old(self).items@.len(),
            old(self).items@[i as int].key() == item.key(),
        ensures
            final(self).items@ == old(self).items@.update(i as int, item),
            final(self).wf(),
            final(self).spec_get(item.key()) == Some(item),
            forall|k: Seq<char>|
                k != item.key() ==> final(self).spec_get(k) == old(self).spec_get(k),
    {
        self.items.set(i, item);
        proof {
            let s = self.items@;
            assert forall|a: int, b: int| 0 <= a < b < s.len() implies s[a].key() != s[b].key()
            by {
                assert(old(self).items@[a].key() != old(self).items@[b].key());
            }
            lemma_seq_get_at(s, item.key(), i as int);
            assert forall|k: Seq<char>| k != item.key() implies seq_get(s, k) == seq_get(
                old(self).items@,
                k,
            ) by {
                lemma_other_keys_after_write(old(self).items@, s, i as int, k);
            }
        }
    }
}

/// A write at one position leaves every other key's lookup unchanged, as
/// long as the write only touches records carrying the written key.
proof fn lemma_other_keys_after_write<T: Keyed>(
    before: Seq<T>,
    after: Seq<T>,
    idx: int,
    k: Seq<char>,
)
    requires
        seq_wf(before),
        seq_wf(after),
        before.len() <= after.len(),
        after.len() <= before.len() + 1,
        0 <= idx < after.len(),
        forall|i: int| #![trigger before[i], after[i]] 0 <= i < after.len() && i != idx
            ==> i < before.len() && after[i] == before[i],
        k != after[idx].key(),
        idx < before.len() ==> k != before[idx].key(),
    ensures
        seq_get(after, k) == seq_get(before, k),
{
    if seq_contains_key(before, k) {
        let i = choose|i: int| 0 <= i < before.len() && (#[trigger] before[i].key()) == k;
        assert(i != idx);
        assert(after[i] == before[i]);
        lemma_seq_get_at(before, k, i);
        lemma_seq_get_at(after, k, i);
    } else {
        if seq_contains_key(after, k) {
            let i = choose|i: int| 0 <= i < after.len() && (#[trigger] after[i].key()) == k;
            assert(i != idx);
            assert(after[i] == before[i]);
            assert(seq_contains_key(before, k));
        }
    }
}

} // verus!
