//! A small map from identities to values, kept in the order of insertion.

use vstd::prelude::*;

verus! {

/// A value that is told apart from others of its type by comparison.
pub trait Ident: Copy {
    fn same(self, other: Self) -> (r: bool)
        ensures
            r == (self == other),
    ;
}

/// A map that holds each key once.
#[derive(Debug)]
pub struct Table<K, V> {
    entries: Vec<(K, V)>,
}

impl<K, V> View for Table<K, V> {
    type V = Map<K, V>;

    closed spec fn view(&self) -> Map<K, V> {
        entries_as_map(self.entries@)
    }
}

/// The value of each key's first entry.
spec fn entries_as_map<K, V>(entries: Seq<(K, V)>) -> Map<K, V> {
    Map::new(
        |k: K| exists|i: int| 0 <= i < entries.len() && entries[i].0 == k,
        |k: K| entries[key_index(entries, k)].1,
    )
}

spec fn is_first<K, V>(entries: Seq<(K, V)>, k: K, i: int) -> bool {
    0 <= i < entries.len() && entries[i].0 == k && forall|j: int|
        0 <= j < i ==> entries[j].0 != k
}

spec fn key_index<K, V>(entries: Seq<(K, V)>, k: K) -> int {
    choose|i: int| is_first(entries, k, i)
}

spec fn distinct<K, V>(entries: Seq<(K, V)>) -> bool {
    forall|i: int, j: int| 0 <= i < j < entries.len() ==> entries[i].0 != entries[j].0
}

proof fn lemma_first<K, V>(entries: Seq<(K, V)>, k: K, i: int)
    requires
        is_first(entries, k, i),
    ensures
        entries_as_map(entries).dom().contains(k),
        entries_as_map(entries)[k] == entries[i].1,
{
    assert(0 <= i < entries.len() && entries[i].0 == k);
    let j = key_index(entries, k);
    assert(is_first(entries, k, j));
    assert(j == i) by {
        if j < i {
            assert(entries[j].0 != k);
        } else if i < j {
            assert(entries[i].0 != k);
        }
    }
}

proof fn lemma_entry<K, V>(entries: Seq<(K, V)>, i: int)
    requires
        distinct(entries),
        0 <= i < entries.len(),
    ensures
        entries_as_map(entries).dom().contains(entries[i].0),
        entries_as_map(entries)[entries[i].0] == entries[i].1,
{
    assert(is_first(entries, entries[i].0, i));
    lemma_first(entries, entries[i].0, i);
}

impl<K: Ident, V> Table<K, V> {
    /// No key is held twice.
    pub closed spec fn wf(self) -> bool {
        distinct(self.entries@)
    }

    pub fn new() -> (r: Self)
        ensures
            r.wf(),
            r@ == Map::<K, V>::empty(),
    {
        let r = Table { entries: Vec::new() };
        assert(r@ =~= Map::<K, V>::empty());
        r
    }

    fn find(&self, key: K) -> (r: Option<usize>)
        ensures
            r is Some <==> self@.dom().contains(key),
            r matches Some(i) ==> i < self.entries@.len() && self.entries@[i as int].0 == key
                && self@[key] == self.entries@[i as int].1,
    {
        let mut i: usize = 0;
        while i < self.entries.len()
            invariant
                i <= self.entries@.len(),
                forall|j: int| 0 <= j < i ==> self.entries@[j].0 != key,
            decreases self.entries@.len() - i,
        {
            if self.entries[i].0.same(key) {
                proof {
                    lemma_first(self.entries@, key, i as int);
                }
                return Some(i);
            }
            i = i + 1;
        }
        None
    }

    /// Whether `key` has a value.
    pub fn contains(&self, key: K) -> (r: bool)
        ensures
            r == self@.dom().contains(key),
    {
        self.find(key).is_some()
    }

    /// The value of `key`.
    pub fn get(&self, key: K) -> (r: Option<&V>)
        ensures
            r == (if self@.dom().contains(key) {
                Some(&self@[key])
            } else {
                None
            }),
    {
        match self.find(key) {
            Some(i) => Some(&self.entries[i].1),
            None => None,
        }
    }

    /// Gives `key` the value `value`, in place of the one that it had.
    pub fn insert(&mut self, key: K, value: V)
        requires
            old(self).wf(),
        ensures
            final(self).wf(),
            final(self)@ == old(self)@.insert(key, value),
    {
        let ghost before = self.entries@;
        match self.find(key) {
            Some(i) => {
                self.entries[i].1 = value;
                proof {
                    let after = self.entries@;
                    assert(after == before.update(i as int, (key, value)));
                    lemma_inserted(before, after, key, value, i as int);
                }
            },
            None => {
                self.entries.push((key, value));
                proof {
                    lemma_inserted(before, self.entries@, key, value, before.len() as int);
                }
            },
        }
    }

    /// Forgets `key`.
    pub fn remove(&mut self, key: K)
        requires
            old(self).wf(),
        ensures
            final(self).wf(),
            final(self)@ == old(self)@.remove(key),
    {
        let _removed = self.take(key);
    }

    /// Forgets `key` and hands its value over.
    pub fn take(&mut self, key: K) -> (r: Option<V>)
        requires
            old(self).wf(),
        ensures
            final(self).wf(),
            final(self)@ == old(self)@.remove(key),
            r == (if old(self)@.dom().contains(key) {
                Some(old(self)@[key])
            } else {
                None
            }),
    {
        let ghost before = self.entries@;
        match self.find(key) {
            Some(i) => {
                let removed = self.entries.remove(i);
                proof {
                    lemma_removed(before, key, i as int);
                }
                Some(removed.1)
            },
            None => {
                assert(self@ =~= old(self)@.remove(key));
                None
            },
        }
    }

    /// Forgets every key.
    pub fn clear(&mut self)
        ensures
            final(self).wf(),
            final(self)@ == Map::<K, V>::empty(),
    {
        self.entries.clear();
        assert(self@ =~= Map::<K, V>::empty());
    }

    /// Whether no key has a value.
    pub fn is_empty(&self) -> (r: bool)
        ensures
            r == (self@ == Map::<K, V>::empty()),
    {
        let r = self.entries.len() == 0;
        proof {
            if r {
                assert(self@ =~= Map::<K, V>::empty());
            } else {
                lemma_first(self.entries@, self.entries@[0].0, 0);
            }
        }
        r
    }
}

proof fn lemma_inserted<K, V>(
    before: Seq<(K, V)>,
    after: Seq<(K, V)>,
    key: K,
    value: V,
    at: int,
)
    requires
        distinct(before),
        0 <= at <= before.len(),
        at < before.len() ==> before[at].0 == key && after == before.update(at, (key, value)),
        at == before.len() ==> after == before.push((key, value)) && !entries_as_map(
            before,
        ).dom().contains(key),
    ensures
        distinct(after),
        entries_as_map(after) == entries_as_map(before).insert(key, value),
{
    let old_map = entries_as_map(before);
    let new_map = entries_as_map(after);
    assert forall|i: int, j: int| 0 <= i < j < after.len() implies after[i].0 != after[j].0 by {
        if j == before.len() {
            lemma_entry(before, i);
        } else {
            assert(before[i].0 != before[j].0);
        }
    }
    lemma_entry(after, at);
    assert forall|k: K|
        #![trigger new_map.dom().contains(k)]
        #![trigger old_map.dom().contains(k)]
        k != key implies (new_map.dom().contains(k) <==> old_map.dom().contains(k))
        && (old_map.dom().contains(k) ==> new_map[k] == old_map[k]) by {
        if old_map.dom().contains(k) {
            let i = choose|i: int| 0 <= i < before.len() && before[i].0 == k;
            lemma_entry(before, i);
            lemma_entry(after, i);
        }
        if new_map.dom().contains(k) {
            let i = choose|i: int| 0 <= i < after.len() && after[i].0 == k;
            lemma_entry(after, i);
            lemma_entry(before, i);
        }
    }
    assert(new_map.dom() =~= old_map.insert(key, value).dom());
    assert forall|k: K| new_map.dom().contains(k) implies #[trigger] new_map[k] == old_map.insert(
        key,
        value,
    )[k] by {}
    assert(new_map =~= old_map.insert(key, value));
}

proof fn lemma_removed<K, V>(before: Seq<(K, V)>, key: K, at: int)
    requires
        distinct(before),
        0 <= at < before.len(),
        before[at].0 == key,
    ensures
        distinct(before.remove(at)),
        entries_as_map(before.remove(at)) == entries_as_map(before).remove(key),
{
    let after = before.remove(at);
    let old_map = entries_as_map(before);
    let new_map = entries_as_map(after);
    assert forall|i: int| 0 <= i < after.len() implies #[trigger] after[i] == before[if i < at {
        i
    } else {
        i + 1
    }] by {}
    assert forall|i: int, j: int| 0 <= i < j < after.len() implies after[i].0 != after[j].0 by {
        let bi = if i < at { i } else { i + 1 };
        let bj = if j < at { j } else { j + 1 };
        assert(before[bi].0 != before[bj].0);
    }
    assert forall|k: K|
        #![trigger new_map.dom().contains(k)]
        #![trigger old_map.dom().contains(k)]
        (new_map.dom().contains(k) <==> old_map.dom().contains(k) && k != key) && (
        new_map.dom().contains(k) ==> new_map[k] == old_map[k]) by {
        if old_map.dom().contains(k) && k != key {
            let i = choose|i: int| 0 <= i < before.len() && before[i].0 == k;
            lemma_entry(before, i);
            lemma_entry(after, if i < at { i } else { i - 1 });
        }
        if new_map.dom().contains(k) {
            let i = choose|i: int| 0 <= i < after.len() && after[i].0 == k;
            let b = if i < at { i } else { i + 1 };
            lemma_entry(after, i);
            lemma_entry(before, b);
            if k == key {
                if b < at {
                    assert(before[b].0 != before[at].0);
                } else {
                    assert(before[at].0 != before[b].0);
                }
            }
        }
    }
    assert(new_map.dom() =~= old_map.remove(key).dom());
    assert forall|k: K| new_map.dom().contains(k) implies #[trigger] new_map[k] == old_map.remove(
        key,
    )[k] by {}
    assert(new_map =~= old_map.remove(key));
}

} // verus!
