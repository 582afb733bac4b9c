//! A map from references to lists of references.
use vstd::prelude::*;
use std::collections::HashMap;

verus! {

broadcast use vstd::std_specs::hash::group_hash_axioms;

/// Lists of references, by reference.
pub struct MultiMap {
    pub entries: HashMap<u64, Vec<u64>>,
}

/// The list under a key, empty where there is none.
pub open spec fn listed(map: Map<u64, Seq<u64>>, key: u64) -> Seq<u64> {
    if map.contains_key(key) {
        map[key]
    } else {
        Seq::empty()
    }
}

/// `list` followed by those members of `extra` that are not in it yet.
pub open spec fn joined(list: Seq<u64>, extra: Seq<u64>) -> Seq<u64>
    decreases extra.len(),
{
    if extra.len() == 0 {
        list
    } else {
        let before = joined(list, extra.drop_last());
        if before.contains(extra.last()) {
            before
        } else {
            before.push(extra.last())
        }
    }
}

impl View for MultiMap {
    type V = Map<u64, Seq<u64>>;

    open spec fn view(&self) -> Map<u64, Seq<u64>> {
        Map::new(|k: u64| self.entries@.contains_key(k), |k: u64| self.entries@[k]@)
    }
}

/// Whether a list holds a number.
pub fn contains_value(list: &Vec<u64>, value: u64) -> (r: bool)
    ensures
        r == list@.contains(value),
{
    for i in 0..list.len()
        invariant
            forall|j: int| 0 <= j < i ==> list@[j] != value,
    {
        if list[i] == value {
            assert(list@[i as int] == value);
            return true;
        }
    }
    false
}

/// Copies a list.
pub fn copied(list: &Vec<u64>) -> (r: Vec<u64>)
    ensures
        r@ == list@,
{
    let mut out: Vec<u64> = Vec::new();
    for i in 0..list.len()
        invariant
            out@ == list@.take(i as int),
    {
        out.push(list[i]);
        assert(out@ =~= list@.take(i + 1));
    }
    assert(list@.take(list@.len() as int) =~= list@);
    out
}

impl MultiMap {
    /// No lists.
    pub fn new() -> (r: Self)
        ensures
            r@ == Map::<u64, Seq<u64>>::empty(),
    {
        let r = MultiMap { entries: HashMap::new() };
        assert(r@ =~= Map::<u64, Seq<u64>>::empty());
        r
    }

    /// A copy of the list under a key.
    pub fn list(&self, key: u64) -> (r: Vec<u64>)
        ensures
            r@ == listed(self@, key),
    {
        match self.entries.get(&key) {
            Some(list) => copied(list),
            None => Vec::new(),
        }
    }

    /// Puts a list under a key.
    pub fn put(&mut self, key: u64, list: Vec<u64>)
        ensures
            final(self)@ == old(self)@.insert(key, list@),
    {
        self.entries.insert(key, list);
        assert(self@ =~= old(self)@.insert(key, list@));
    }

    /// Adds a number to the list under a key.
    pub fn push(&mut self, key: u64, value: u64)
        ensures
            final(self)@ == old(self)@.insert(key, listed(old(self)@, key).push(value)),
    {
        let mut list = self.list(key);
        list.push(value);
        self.put(key, list);
    }

    /// Adds to the list under `to` the members of the list under `from` that it
    /// lacks; nothing happens where there is no list under `from`.
    pub fn join(&mut self, to: u64, from: u64)
        ensures
            final(self)@ == if old(self)@.contains_key(from) {
                old(self)@.insert(to, joined(listed(old(self)@, to), old(self)@[from]))
            } else {
                old(self)@
            },
    {
        if self.entries.contains_key(&from) {
            let extra = self.list(from);
            let mut list = self.list(to);
            let ghost start = list@;
            for i in 0..extra.len()
                invariant
                    list@ == joined(start, extra@.take(i as int)),
            {
                assert(extra@.take(i + 1).drop_last() =~= extra@.take(i as int));
                assert(extra@.take(i + 1).last() == extra@[i as int]);
                if !contains_value(&list, extra[i]) {
                    list.push(extra[i]);
                }
            }
            assert(extra@.take(extra@.len() as int) =~= extra@);
            self.put(to, list);
        }
    }
}

/// Joining keeps the list, adds every member of the other and nothing else, and
/// adds no member twice.
pub proof fn law_join_adds_members(list: Seq<u64>, extra: Seq<u64>)
    ensures
        joined(list, extra).len() >= list.len(),
        joined(list, extra).take(list.len() as int) =~= list,
        forall|v: u64|
            #[trigger] joined(list, extra).contains(v) <==> list.contains(v) || extra.contains(v),
        list.no_duplicates() ==> joined(list, extra).no_duplicates(),
    decreases extra.len(),
{
    if extra.len() > 0 {
        let before = joined(list, extra.drop_last());
        law_join_adds_members(list, extra.drop_last());
        let last = extra.last();
        assert(extra =~= extra.drop_last().push(last));
        assert forall|v: u64| #[trigger] joined(list, extra).contains(v) implies list.contains(v)
            || extra.contains(v) by {
            if before.contains(v) {
                if extra.drop_last().contains(v) {
                    let k = choose|k: int|
                        0 <= k < extra.drop_last().len() && extra.drop_last()[k] == v;
                    assert(extra[k] == v);
                }
            } else {
                assert(v == last);
                assert(extra[extra.len() - 1] == v);
            }
        }
        assert forall|v: u64| list.contains(v) || extra.contains(v) implies #[trigger] joined(
            list,
            extra,
        ).contains(v) by {
            if v == last {
                if !before.contains(last) {
                    assert(before.push(last)[before.len() as int] == v);
                }
            } else {
                if extra.contains(v) {
                    let k = choose|k: int| 0 <= k < extra.len() && extra[k] == v;
                    assert(extra.drop_last()[k] == v);
                }
                assert(before.contains(v));
                let k = choose|k: int| 0 <= k < before.len() && before[k] == v;
                assert(joined(list, extra)[k] == v);
            }
        }
        if !before.contains(last) {
            assert(before.push(last).take(list.len() as int) =~= before.take(list.len() as int));
        }
    } else {
        assert(list.take(list.len() as int) =~= list);
    }
}

} // verus!
