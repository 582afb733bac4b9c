//! The order in which the nodes of a graph run: cycles, the order itself, waves
//! of independent nodes, and the nodes each node depends on.
use vstd::prelude::*;
use crate::multimap::contains_value;
use crate::wiring::{Wiring, WiringSpec};
use std::collections::HashMap;

verus! {

broadcast use vstd::std_specs::hash::group_hash_axioms;

/// Whether another node reads something that a node writes.
pub open spec fn feeds(w: WiringSpec, from: u64, to: u64) -> bool {
    from != to && exists|k: int|
        0 <= k < crate::multimap::listed(w.outputs, from).len() && crate::multimap::listed(
            w.consumers,
            #[trigger] crate::multimap::listed(w.outputs, from)[k],
        ).contains(to)
}

/// Whether each node of a path feeds the next.
pub open spec fn is_path(w: WiringSpec, path: Seq<u64>) -> bool {
    forall|k: int, l: int|
        0 <= k && l == k + 1 && l < path.len() ==> feeds(w, #[trigger] path[k], #[trigger] path[l])
}

/// Whether some node leads back to itself through other nodes.
pub open spec fn has_cycle(w: WiringSpec, ids: Seq<u64>) -> bool {
    exists|path: Seq<u64>| #[trigger]
        is_path(w, path) && path.len() >= 2 && path[0] == path.last() && forall|k: int|
            0 <= k < path.len() ==> ids.contains(#[trigger] path[k])
}

/// Finds whether another node reads something that a node writes.
pub fn node_feeds(wiring: &Wiring, from: u64, to: u64) -> (r: bool)
    ensures
        r == feeds(wiring@, from, to),
{
    if from == to {
        return false;
    }
    let outputs = wiring.outputs.list(from);
    for k in 0..outputs.len()
        invariant
            from != to,
            outputs@ == crate::multimap::listed(wiring@.outputs, from),
            forall|j: int|
                0 <= j < k ==> !crate::multimap::listed(
                    wiring@.consumers,
                    #[trigger] outputs@[j],
                ).contains(to),
    {
        let readers = wiring.consumers.list(outputs[k]);
        if contains_value(&readers, to) {
            assert(crate::multimap::listed(
                wiring@.consumers,
                crate::multimap::listed(wiring@.outputs, from)[k as int],
            ).contains(to));
            return true;
        }
    }
    false
}

/// Whether `m[i][j]` says that node `i` feeds node `j`.
spec fn is_matrix(m: Seq<Vec<bool>>, w: WiringSpec, ids: Seq<u64>) -> bool {
    &&& m.len() == ids.len()
    &&& forall|i: int| 0 <= i < ids.len() ==> (#[trigger] m[i])@.len() == ids.len()
    &&& forall|i: int, j: int|
        0 <= i < ids.len() && 0 <= j < ids.len() ==> #[trigger] m[i]@[j] == feeds(
            w,
            ids[i],
            ids[j],
        )
}

fn feed_matrix(wiring: &Wiring, ids: &Vec<u64>) -> (m: Vec<Vec<bool>>)
    ensures
        is_matrix(m@, wiring@, ids@),
{
    let mut m: Vec<Vec<bool>> = Vec::new();
    for i in 0..ids.len()
        invariant
            m@.len() == i,
            forall|k: int| 0 <= k < i ==> (#[trigger] m@[k])@.len() == ids.len(),
            forall|k: int, l: int|
                0 <= k < i && 0 <= l < ids.len() ==> #[trigger] m@[k]@[l] == feeds(
                    wiring@,
                    ids@[k],
                    ids@[l],
                ),
    {
        let mut row: Vec<bool> = Vec::new();
        for j in 0..ids.len()
            invariant
                i < ids.len(),
                row@.len() == j,
                forall|l: int|
                    0 <= l < j ==> #[trigger] row@[l] == feeds(wiring@, ids@[i as int], ids@[l]),
        {
            row.push(node_feeds(wiring, ids[i], ids[j]));
        }
        m.push(row);
    }
    m
}

/// A walk of the given length that ends at `end`, all of it among the nodes that
/// are left, where each node left is fed by a node left.
proof fn lemma_walk_back(
    w: WiringSpec,
    ids: Seq<u64>,
    left: spec_fn(int) -> bool,
    end: int,
    steps: nat,
) -> (walk: Seq<int>)
    requires
        0 <= end < ids.len(),
        left(end),
        forall|i: int|
            0 <= i < ids.len() && #[trigger] left(i) ==> exists|j: int|
                0 <= j < ids.len() && #[trigger] left(j) && feeds(w, ids[j], ids[i]),
    ensures
        walk.len() == steps + 1,
        forall|k: int| 0 <= k < walk.len() ==> 0 <= #[trigger] walk[k] < ids.len(),
        forall|k: int, l: int|
            0 <= k && l == k + 1 && l < walk.len() ==> feeds(
                w,
                ids[#[trigger] walk[k]],
                ids[#[trigger] walk[l]],
            ),
    decreases steps,
{
    if steps == 0 {
        seq![end]
    } else {
        let before = choose|j: int|
            0 <= j < ids.len() && #[trigger] left(j) && feeds(w, ids[j], ids[end]);
        let shorter = lemma_walk_back_to(w, ids, left, before, end, (steps - 1) as nat);
        shorter
    }
}

proof fn lemma_walk_back_to(
    w: WiringSpec,
    ids: Seq<u64>,
    left: spec_fn(int) -> bool,
    before: int,
    end: int,
    steps: nat,
) -> (walk: Seq<int>)
    requires
        0 <= before < ids.len(),
        0 <= end < ids.len(),
        left(before),
        feeds(w, ids[before], ids[end]),
        forall|i: int|
            0 <= i < ids.len() && #[trigger] left(i) ==> exists|j: int|
                0 <= j < ids.len() && #[trigger] left(j) && feeds(w, ids[j], ids[i]),
    ensures
        walk.len() == steps + 2,
        walk.last() == end,
        forall|k: int| 0 <= k < walk.len() ==> 0 <= #[trigger] walk[k] < ids.len(),
        forall|k: int, l: int|
            0 <= k && l == k + 1 && l < walk.len() ==> feeds(
                w,
                ids[#[trigger] walk[k]],
                ids[#[trigger] walk[l]],
            ),
    decreases steps,
{
    if steps == 0 {
        seq![before, end]
    } else {
        let earlier = choose|j: int|
            0 <= j < ids.len() && #[trigger] left(j) && feeds(w, ids[j], ids[before]);
        let walk = lemma_walk_back_to(w, ids, left, earlier, before, (steps - 1) as nat);
        let longer = walk.push(end);
        assert forall|k: int, l: int| 0 <= k && l == k + 1 && l < longer.len() implies feeds(
            w,
            ids[#[trigger] longer[k]],
            ids[#[trigger] longer[l]],
        ) by {
            if l < walk.len() {
                assert(longer[k] == walk[k] && longer[l] == walk[l]);
            } else {
                assert(longer[k] == before);
            }
        }
        longer
    }
}

/// A list of more numbers below `n` than there are repeats one of them.
proof fn lemma_repeats(list: Seq<int>, n: nat) -> (r: (int, int))
    requires
        list.len() > n,
        forall|k: int| 0 <= k < list.len() ==> 0 <= #[trigger] list[k] < n,
    ensures
        0 <= r.0 < r.1 < list.len(),
        list[r.0] == list[r.1],
{
    if list.no_duplicates() {
        list.unique_seq_to_set();
        let range = vstd::set_lib::set_int_range(0, n as int);
        vstd::set_lib::lemma_int_range(0, n as int);
        assert(list.to_set().subset_of(range)) by {
            assert forall|v: int| list.to_set().contains(v) implies range.contains(v) by {
                let k = choose|k: int| 0 <= k < list.len() && list[k] == v;
                assert(0 <= list[k] < n);
            }
        }
        vstd::set_lib::lemma_len_subset(list.to_set(), range);
        assert(false);
    }
    let (i, j) = choose|i: int, j: int|
        0 <= i < list.len() && 0 <= j < list.len() && i != j && list[i] == list[j];
    if i < j {
        (i, j)
    } else {
        (j, i)
    }
}

/// Where each node left is fed by a node left, some node leads back to itself.
pub proof fn lemma_stuck_means_cycle(
    w: WiringSpec,
    ids: Seq<u64>,
    left: spec_fn(int) -> bool,
    end: int,
)
    requires
        0 <= end < ids.len(),
        left(end),
        forall|i: int|
            0 <= i < ids.len() && #[trigger] left(i) ==> exists|j: int|
                0 <= j < ids.len() && #[trigger] left(j) && feeds(w, ids[j], ids[i]),
    ensures
        has_cycle(w, ids),
{
    let walk = lemma_walk_back(w, ids, left, end, ids.len());
    let (a, b) = lemma_repeats(walk, ids.len());
    let path = Seq::new((b - a + 1) as nat, |k: int| ids[walk[a + k]]);
    assert(is_path(w, path)) by {
        assert forall|k: int, l: int| 0 <= k && l == k + 1 && l < path.len() implies feeds(
            w,
            #[trigger] path[k],
            #[trigger] path[l],
        ) by {
            assert(feeds(w, ids[walk[a + k]], ids[walk[a + l]]));
        }
    }
    assert forall|k: int| 0 <= k < path.len() implies ids.contains(#[trigger] path[k]) by {
        assert(0 <= walk[a + k] < ids.len());
    }
    assert(path[0] == path.last());
}

/// Where every node comes after all nodes that feed it, no node leads back to
/// itself.
proof fn lemma_ranked_means_no_cycle(w: WiringSpec, ids: Seq<u64>, order: Seq<u64>)
    requires
        order.no_duplicates(),
        forall|v: u64| ids.contains(v) ==> #[trigger] order.contains(v),
        forall|i: int, j: int|
            0 <= i < order.len() && 0 <= j < order.len() && feeds(
                w,
                #[trigger] order[i],
                #[trigger] order[j],
            ) ==> i < j,
    ensures
        !has_cycle(w, ids),
{
    if has_cycle(w, ids) {
        let path = choose|path: Seq<u64>| #[trigger]
            is_path(w, path) && path.len() >= 2 && path[0] == path.last() && forall|k: int|
                0 <= k < path.len() ==> ids.contains(#[trigger] path[k]);
        lemma_positions_grow(w, ids, order, path, (path.len() - 1) as nat);
    }
}

proof fn lemma_positions_grow(
    w: WiringSpec,
    ids: Seq<u64>,
    order: Seq<u64>,
    path: Seq<u64>,
    k: nat,
)
    requires
        0 < k < path.len(),
        order.no_duplicates(),
        forall|v: u64| ids.contains(v) ==> #[trigger] order.contains(v),
        forall|i: int, j: int|
            0 <= i < order.len() && 0 <= j < order.len() && feeds(
                w,
                #[trigger] order[i],
                #[trigger] order[j],
            ) ==> i < j,
        is_path(w, path),
        forall|m: int| 0 <= m < path.len() ==> ids.contains(#[trigger] path[m]),
    ensures
        order.index_of(path[0]) < order.index_of(path[k as int]),
    decreases k,
{
    let prev = path[k - 1];
    let here = path[k as int];
    assert(feeds(w, prev, here));
    assert(ids.contains(prev) && ids.contains(here));
    assert(order.contains(prev) && order.contains(here));
    let a = order.index_of(prev);
    let b = order.index_of(here);
    assert(order[a] == prev && order[b] == here);
    if k > 1 {
        lemma_positions_grow(w, ids, order, path, (k - 1) as nat);
    }
}

/// Whether each node left is fed by a node left.
#[verifier::opaque]
spec fn all_fed(w: WiringSpec, ids: Seq<u64>, left: Seq<bool>) -> bool {
    forall|k: int|
        0 <= k < ids.len() && #[trigger] left[k] ==> exists|j: int|
            0 <= j < ids.len() && #[trigger] left[j] && feeds(w, ids[j], ids[k])
}

/// Whether no node left feeds node `f`, which is left.
#[verifier::opaque]
spec fn unfed(w: WiringSpec, ids: Seq<u64>, left: Seq<bool>, f: int) -> bool {
    &&& 0 <= f < ids.len()
    &&& left[f]
    &&& forall|j: int| 0 <= j < ids.len() && left[j] ==> !feeds(w, #[trigger] ids[j], ids[f])
}

/// Whether `order` lists the nodes that are not left, each after all that feed it.
#[verifier::opaque]
spec fn taken_in_order(w: WiringSpec, ids: Seq<u64>, order: Seq<u64>, left: Seq<bool>) -> bool {
    &&& left.len() == ids.len()
    &&& order.no_duplicates()
    &&& forall|k: int| 0 <= k < ids.len() ==> (#[trigger] left[k] <==> !order.contains(ids[k]))
    &&& forall|v: u64| #[trigger] order.contains(v) ==> ids.contains(v)
    &&& forall|a: int, b: int|
        0 <= a < ids.len() && 0 <= b < order.len() && feeds(
            w,
            #[trigger] ids[a],
            #[trigger] order[b],
        ) ==> order.take(b).contains(ids[a])
}

proof fn lemma_taken_step(
    w: WiringSpec,
    ids: Seq<u64>,
    before: Seq<u64>,
    left: Seq<bool>,
    f: int,
)
    requires
        ids.no_duplicates(),
        taken_in_order(w, ids, before, left),
        unfed(w, ids, left, f),
    ensures
        taken_in_order(w, ids, before.push(ids[f]), left.update(f, false)),
{
    reveal(taken_in_order);
    reveal(unfed);
    let order = before.push(ids[f]);
    let now = left.update(f, false);
    assert(order[before.len() as int] == ids[f]);
    assert forall|v: u64| #[trigger] order.contains(v) implies ids.contains(v) by {
        let k = choose|k: int| 0 <= k < order.len() && order[k] == v;
        if k < before.len() {
            assert(before[k] == v);
            assert(before.contains(v));
        }
    }
    assert forall|k: int| 0 <= k < ids.len() implies (#[trigger] now[k] <==> !order.contains(
        ids[k],
    )) by {
        assert(left[k] <==> !before.contains(ids[k]));
        if k != f {
            if before.contains(ids[k]) {
                let q = choose|q: int| 0 <= q < before.len() && before[q] == ids[k];
                assert(order[q] == ids[k]);
            }
            if order.contains(ids[k]) {
                let q = choose|q: int| 0 <= q < order.len() && order[q] == ids[k];
                assert(ids[k] != ids[f]);
                assert(before[q] == ids[k]);
            }
        }
    }
    assert(order.no_duplicates()) by {
        assert(!before.contains(ids[f]));
    }
    assert forall|a: int, b: int|
        0 <= a < ids.len() && 0 <= b < order.len() && feeds(
            w,
            #[trigger] ids[a],
            #[trigger] order[b],
        ) implies order.take(b).contains(ids[a]) by {
        if b < before.len() {
            assert(order.take(b) =~= before.take(b));
            assert(before[b] == order[b]);
        } else {
            assert(order.take(b) =~= before);
            assert(!left[a]);
        }
    }
}

/// Finds a node that is left and that no node left feeds.
fn find_unfed(m: &Vec<Vec<bool>>, left: &Vec<bool>, wiring: &Wiring, ids: &Vec<u64>) -> (r: Option<
    usize,
>)
    requires
        is_matrix(m@, wiring@, ids@),
        left@.len() == ids@.len(),
    ensures
        match r {
            Some(f) => f < ids@.len() && unfed(wiring@, ids@, left@, f as int),
            None => all_fed(wiring@, ids@, left@),
        },
{
    for i in 0..ids.len()
        invariant
            is_matrix(m@, wiring@, ids@),
            left@.len() == ids@.len(),
            forall|k: int|
                0 <= k < i && #[trigger] left@[k] ==> exists|j: int|
                    0 <= j < ids@.len() && #[trigger] left@[j] && feeds(
                        wiring@,
                        ids@[j],
                        ids@[k],
                    ),
    {
        if left[i] {
            let mut fed = false;
            for j in 0..ids.len()
                invariant
                    is_matrix(m@, wiring@, ids@),
                    left@.len() == ids@.len(),
                    i < ids@.len(),
                    fed ==> exists|k: int|
                        0 <= k < ids@.len() && #[trigger] left@[k] && feeds(
                            wiring@,
                            ids@[k],
                            ids@[i as int],
                        ),
                    !fed ==> forall|k: int|
                        0 <= k < j && left@[k] ==> !feeds(
                            wiring@,
                            #[trigger] ids@[k],
                            ids@[i as int],
                        ),
            {
                assert(m@[j as int]@.len() == ids@.len());
                if left[j] && m[j][i] {
                    fed = true;
                    assert(left@[j as int]);
                }
            }
            if !fed {
                proof {
                    reveal(unfed);
                }
                return Some(i);
            }
        }
    }
    proof {
        reveal(all_fed);
    }
    None
}

/// Where some node is left and each node left is fed by a node left, some node
/// leads back to itself.
proof fn lemma_stuck(w: WiringSpec, ids: Seq<u64>, order: Seq<u64>, left: Seq<bool>)
    requires
        ids.no_duplicates(),
        taken_in_order(w, ids, order, left),
        order.len() < ids.len(),
        all_fed(w, ids, left),
    ensures
        has_cycle(w, ids),
{
    reveal(taken_in_order);
    reveal(all_fed);
    let alive = |k: int| 0 <= k < ids.len() && left[k];
    assert forall|i: int| 0 <= i < ids.len() && #[trigger] alive(i) implies exists|j: int|
        0 <= j < ids.len() && #[trigger] alive(j) && feeds(w, ids[j], ids[i]) by {
        assert(left[i]);
        let j = choose|j: int|
            0 <= j < ids.len() && #[trigger] left[j] && feeds(w, ids[j], ids[i]);
        assert(alive(j));
    }
    let end = lemma_some_left(ids, order);
    assert(left[end]);
    assert(alive(end));
    lemma_stuck_means_cycle(w, ids, alive, end);
}

/// Where every node was taken, no node leads back to itself.
proof fn lemma_finished(w: WiringSpec, ids: Seq<u64>, order: Seq<u64>, left: Seq<bool>)
    requires
        taken_in_order(w, ids, order, left),
        order.len() == ids.len(),
    ensures
        !has_cycle(w, ids),
{
    reveal(taken_in_order);
    assert forall|v: u64| ids.contains(v) implies #[trigger] order.contains(v) by {
        lemma_all_taken(ids, order, v);
    }
    assert forall|i: int, j: int|
        0 <= i < order.len() && 0 <= j < order.len() && feeds(
            w,
            #[trigger] order[i],
            #[trigger] order[j],
        ) implies i < j by {
        assert(order.contains(order[i]));
        let a = choose|a: int| 0 <= a < ids.len() && ids[a] == order[i];
        assert(order.take(j).contains(ids[a]));
        let k = choose|k: int| 0 <= k < order.take(j).len() && order.take(j)[k] == ids[a];
        assert(order[k] == order[i]);
    }
    lemma_ranked_means_no_cycle(w, ids, order);
}

/// Finds whether some node leads back to itself: nodes that nothing left feeds are
/// taken away until none can be, and whatever remains lies on or behind a cycle.
pub fn find_cycle(wiring: &Wiring, ids: &Vec<u64>) -> (r: bool)
    requires
        ids@.no_duplicates(),
    ensures
        r == has_cycle(wiring@, ids@),
{
    let m = feed_matrix(wiring, ids);
    let n = ids.len();
    let mut left: Vec<bool> = Vec::new();
    for i in 0..n
        invariant
            left@.len() == i,
            forall|k: int| 0 <= k < i ==> left@[k],
    {
        left.push(true);
    }
    let ghost mut order: Seq<u64> = Seq::empty();
    assert(taken_in_order(wiring@, ids@, order, left@)) by {
        reveal(taken_in_order);
    }
    let mut taken: usize = 0;
    while taken < n
        invariant
            n == ids.len(),
            ids@.no_duplicates(),
            is_matrix(m@, wiring@, ids@),
            taken <= n,
            left@.len() == n,
            order.len() == taken,
            taken_in_order(wiring@, ids@, order, left@),
        decreases n - taken,
    {
        let found = find_unfed(&m, &left, wiring, ids);
        match found {
            Some(f) => {
                proof {
                    lemma_taken_step(wiring@, ids@, order, left@, f as int);
                    order = order.push(ids@[f as int]);
                }
                left.set(f, false);
                taken = taken + 1;
            },
            None => {
                proof {
                    lemma_stuck(wiring@, ids@, order, left@);
                }
                return true;
            },
        }
    }
    proof {
        lemma_finished(wiring@, ids@, order, left@);
    }
    false
}

/// A list without repeats that is shorter than another misses one of its members.
proof fn lemma_some_left(ids: Seq<u64>, taken: Seq<u64>) -> (i: int)
    requires
        ids.no_duplicates(),
        taken.len() < ids.len(),
    ensures
        0 <= i < ids.len(),
        !taken.contains(ids[i]),
{
    if forall|i: int| 0 <= i < ids.len() ==> #[trigger] taken.contains(ids[i]) {
        ids.unique_seq_to_set();
        taken.lemma_cardinality_of_set();
        assert(ids.to_set().subset_of(taken.to_set())) by {
            assert forall|v: u64| ids.to_set().contains(v) implies taken.to_set().contains(v) by {
                let k = choose|k: int| 0 <= k < ids.len() && ids[k] == v;
                assert(taken.contains(ids[k]));
            }
        }
        vstd::set_lib::lemma_len_subset(ids.to_set(), taken.to_set());
        assert(false);
    }
    choose|i: int| 0 <= i < ids.len() && !#[trigger] taken.contains(ids[i])
}

/// Where as many were taken as there are, without repeats, every one was.
proof fn lemma_all_taken(ids: Seq<u64>, taken: Seq<u64>, v: u64)
    requires
        ids.len() == taken.len(),
        taken.no_duplicates(),
        forall|u: u64| #[trigger] taken.contains(u) ==> ids.contains(u),
        ids.contains(v),
    ensures
        taken.contains(v),
{
    if !taken.contains(v) {
        let more = taken.push(v);
        assert(more.no_duplicates());
        more.unique_seq_to_set();
        ids.lemma_cardinality_of_set();
        assert(more.to_set().subset_of(ids.to_set())) by {
            assert forall|u: u64| more.to_set().contains(u) implies ids.to_set().contains(u) by {
                let k = choose|k: int| 0 <= k < more.len() && more[k] == u;
                if k < taken.len() {
                    assert(taken[k] == u);
                    assert(taken.contains(u));
                }
            }
        }
        vstd::set_lib::lemma_len_subset(more.to_set(), ids.to_set());
        assert(false);
    }
}

} // verus!
