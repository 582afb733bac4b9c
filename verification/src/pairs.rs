//! A small table keyed by pairs of numbers, in order of first entry.
use vstd::prelude::*;

verus! {

/// A table keyed by pairs of numbers.
pub struct PairMap<V> {
    pub entries: Vec<((u64, u64), V)>,
}

/// The position of a key.
pub open spec fn key_position<V>(entries: Seq<((u64, u64), V)>, key: (u64, u64)) -> Option<nat> {
    crate::search::first_where(entries.len(), key_at(entries, key))
}

/// Where a key stands.
pub open spec fn key_at<V>(entries: Seq<((u64, u64), V)>, key: (u64, u64)) -> spec_fn(int) -> bool {
    |i: int| entries[i].0 == key
}

impl<V> View for PairMap<V> {
    type V = Map<(u64, u64), V>;

    open spec fn view(&self) -> Map<(u64, u64), V> {
        Map::new(
            |key: (u64, u64)| key_position(self.entries@, key) is Some,
            |key: (u64, u64)| self.entries@[key_position(self.entries@, key).unwrap() as int].1,
        )
    }
}

/// Whether each key stands once.
pub open spec fn has_distinct_keys<V>(entries: Seq<((u64, u64), V)>) -> bool {
    forall|i: int, j: int|
        0 <= i < j < entries.len() ==> (#[trigger] entries[i]).0 != (#[trigger] entries[j]).0
}

/// Some entries with one put in: in place of the one with its key, or at the end.
pub open spec fn put_in<V>(
    entries: Seq<((u64, u64), V)>,
    key: (u64, u64),
    value: V,
) -> Seq<((u64, u64), V)> {
    match key_position(entries, key) {
        Some(i) => entries.update(i as int, (key, value)),
        None => entries.push((key, value)),
    }
}

impl<V: Copy> PairMap<V> {
    /// Whether each key stands once.
    pub open spec fn wf(&self) -> bool {
        has_distinct_keys(self.entries@)
    }

    /// An empty table.
    pub fn new() -> (r: Self)
        ensures
            r.wf(),
            r.entries@.len() == 0,
            r@ == Map::<(u64, u64), V>::empty(),
    {
        let r = PairMap { entries: Vec::new() };
        assert(r@ =~= Map::<(u64, u64), V>::empty());
        r
    }

    fn find(&self, key: (u64, u64)) -> (r: Option<usize>)
        ensures
            match r {
                Some(i) => key_position(self.entries@, key) == Some(i as nat) && i
                    < self.entries@.len() && self.entries@[i as int].0 == key,
                None => key_position(self.entries@, key) is None,
            },
    {
        let ghost found = key_at(self.entries@, key);
        for i in 0..self.entries.len()
            invariant
                found == key_at(self.entries@, key),
                forall|j: int| 0 <= j < i ==> !#[trigger] found(j),
        {
            let k = self.entries[i].0;
            if k.0 == key.0 && k.1 == key.1 {
                proof {
                    assert(found(i as int));
                    crate::search::lemma_is_first(self.entries@.len(), found, i as nat);
                }
                return Some(i);
            }
            assert(!found(i as int));
        }
        proof {
            crate::search::lemma_is_nowhere(self.entries@.len(), found);
        }
        None
    }

    /// Looks up a key.
    pub fn get(&self, key: (u64, u64)) -> (r: Option<V>)
        ensures
            match r {
                Some(v) => self@.contains_key(key) && self@[key] == v,
                None => !self@.contains_key(key),
            },
    {
        match self.find(key) {
            Some(i) => Some(self.entries[i].1),
            None => None,
        }
    }

    /// Puts an entry in, in place of the one with its key.
    pub fn insert(&mut self, key: (u64, u64), value: V)
        requires
            old(self).wf(),
        ensures
            final(self).wf(),
            final(self).entries@ == put_in(old(self).entries@, key, value),
            final(self)@ == old(self)@.insert(key, value),
    {
        match self.find(key) {
            Some(i) => {
                self.entries.set(i, (key, value));
            },
            None => {
                proof {
                    crate::search::lemma_first_where(
                        self.entries@.len(),
                        key_at(self.entries@, key),
                    );
                    assert forall|j: int| 0 <= j < self.entries@.len() implies (
                    #[trigger] self.entries@[j]).0 != key by {
                        assert(!key_at(self.entries@, key)(j));
                    }
                }
                self.entries.push((key, value));
            },
        }
        proof {
            lemma_put_in(old(self).entries@, key, value);
            assert(self@ =~= old(self)@.insert(key, value));
        }
    }
}

/// An entry is found exactly where its key stands.
pub proof fn lemma_key_found<V>(entries: Seq<((u64, u64), V)>, i: int)
    requires
        has_distinct_keys(entries),
        0 <= i < entries.len(),
    ensures
        key_position(entries, entries[i].0) == Some(i as nat),
{
    let found = key_at(entries, entries[i].0);
    assert(found(i));
    assert forall|j: int| 0 <= j < i implies !#[trigger] found(j) by {
        assert(entries[j].0 != entries[i].0);
    }
    crate::search::lemma_is_first(entries.len(), found, i as nat);
}

proof fn lemma_put_in<V>(entries: Seq<((u64, u64), V)>, key: (u64, u64), value: V)
    requires
        has_distinct_keys(entries),
    ensures
        has_distinct_keys(put_in(entries, key, value)),
        forall|k: (u64, u64)|
            (#[trigger] key_position(put_in(entries, key, value), k)) is Some <==> (k == key
                || key_position(entries, k) is Some),
        key_position(put_in(entries, key, value), key) is Some,
        put_in(entries, key, value)[key_position(
            put_in(entries, key, value),
            key,
        ).unwrap() as int].1 == value,
        forall|k: (u64, u64)|
            k != key && (#[trigger] key_position(entries, k)) is Some ==> put_in(
                entries,
                key,
                value,
            )[key_position(put_in(entries, key, value), k).unwrap() as int].1
                == entries[key_position(entries, k).unwrap() as int].1,
{
    let all = put_in(entries, key, value);
    crate::search::lemma_first_where(entries.len(), key_at(entries, key));
    let at = match key_position(entries, key) {
        Some(i) => i as int,
        None => entries.len() as int,
    };
    assert(all[at] == (key, value));
    assert forall|j: int| 0 <= j < entries.len() && j != at implies all[j] == entries[j] by {}
    if key_position(entries, key) is None {
        assert forall|j: int| 0 <= j < entries.len() implies (#[trigger] entries[j]).0 != key by {
            assert(!key_at(entries, key)(j));
        }
    } else {
        assert(key_at(entries, key)(at));
        assert(entries[at].0 == key);
    }
    assert forall|i: int, j: int| 0 <= i < j < all.len() implies (#[trigger] all[i]).0 != (
    #[trigger] all[j]).0 by {
        if i == at {
            if j < entries.len() {
                assert(all[j] == entries[j]);
                if at < entries.len() {
                    assert(entries[at].0 != entries[j].0);
                }
            }
        } else if j == at {
            assert(all[i] == entries[i]);
            if at < entries.len() {
                assert(entries[i].0 != entries[at].0);
            }
        } else {
            assert(all[i] == entries[i] && all[j] == entries[j]);
        }
    }
    lemma_key_found(all, at);
    assert forall|k: (u64, u64)| k != key implies key_position(all, k) == key_position(
        entries,
        k,
    ) by {
        crate::search::lemma_first_where(entries.len(), key_at(entries, k));
        crate::search::lemma_first_where(all.len(), key_at(all, k));
        match key_position(entries, k) {
            Some(i) => {
                assert(key_at(entries, k)(i as int));
                assert(i != at);
                assert(all[i as int] == entries[i as int]);
                lemma_key_found(all, i as int);
            },
            None => {
                match key_position(all, k) {
                    Some(i) => {
                        assert(key_at(all, k)(i as int));
                        assert(i != at);
                        assert(all[i as int] == entries[i as int]);
                        assert(key_at(entries, k)(i as int));
                    },
                    None => {},
                }
            },
        }
    }
    assert forall|k: (u64, u64)|
        k != key && (#[trigger] key_position(entries, k)) is Some implies all[key_position(
        all,
        k,
    ).unwrap() as int].1 == entries[key_position(entries, k).unwrap() as int].1 by {
        crate::search::lemma_first_where(entries.len(), key_at(entries, k));
        let i = key_position(entries, k).unwrap() as int;
        assert(key_at(entries, k)(i));
        assert(i != at);
    }
}

} // verus!
