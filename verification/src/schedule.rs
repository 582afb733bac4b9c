//! The run order of the nodes of a graph.
//!
//! Each node waits for the nodes that feed it.  Whenever a node has run, the nodes it
//! feeds wait for one node less, and a node is ready once it waits for none.
use vstd::prelude::*;
use crate::order::node_feeds;
use crate::wiring::{Wire, WireSpec, Wiring, WiringSpec};

verus! {

/// Whether a list is a run order: it holds every node once, and each after all that
/// feed it.
pub open spec fn is_run_order(w: WiringSpec, ids: Seq<u64>, order: Seq<u64>) -> bool {
    &&& order.no_duplicates()
    &&& forall|v: u64| #[trigger] order.contains(v) <==> ids.contains(v)
    &&& forall|i: int, j: int|
        0 <= i < order.len() && 0 <= j < order.len() && crate::order::feeds(
            w,
            #[trigger] order[i],
            #[trigger] order[j],
        ) ==> i < j
}

/// How many of some nodes feed another and have not run yet.
pub open spec fn awaited(w: WiringSpec, ids: Seq<u64>, ran: Seq<u64>, to: u64) -> nat
    decreases ids.len(),
{
    if ids.len() == 0 {
        0
    } else {
        awaited(w, ids.drop_last(), ran, to) + if crate::order::feeds(w, ids.last(), to)
            && !ran.contains(ids.last()) {
            1nat
        } else {
            0
        }
    }
}

/// The node numbers of a list of nodes.
pub open spec fn ids_of(wires: Seq<WireSpec>) -> Seq<u64> {
    wires.map_values(|w: WireSpec| w.id)
}

/// Lists the node numbers of some nodes.
pub fn list_ids(wires: &Vec<Wire>) -> (r: Vec<u64>)
    ensures
        r@ == ids_of(crate::wiring::wires_of(wires@)),
{
    let mut ids: Vec<u64> = Vec::new();
    for i in 0..wires.len()
        invariant
            ids@.len() == i,
            forall|k: int|
                0 <= k < i ==> ids@[k] == ids_of(crate::wiring::wires_of(wires@))[k],
    {
        ids.push(wires[i].id);
    }
    assert(ids@ =~= ids_of(crate::wiring::wires_of(wires@)));
    ids
}

/// Counts how many nodes each node waits for before any has run.
pub fn count_awaited(wiring: &Wiring, ids: &Vec<u64>) -> (r: Vec<usize>)
    ensures
        r@.len() == ids@.len(),
        forall|i: int|
            0 <= i < ids@.len() ==> #[trigger] r@[i] == awaited(
                wiring@,
                ids@,
                Seq::empty(),
                ids@[i],
            ),
{
    let mut counts: Vec<usize> = Vec::new();
    for i in 0..ids.len()
        invariant
            counts@.len() == i,
            forall|k: int|
                0 <= k < i ==> #[trigger] counts@[k] == awaited(
                    wiring@,
                    ids@,
                    Seq::empty(),
                    ids@[k],
                ),
    {
        let to = ids[i];
        let mut count: usize = 0;
        for j in 0..ids.len()
            invariant
                count <= j,
                count == awaited(wiring@, ids@.take(j as int), Seq::empty(), to),
        {
            proof {
                assert(ids@.take(j + 1).drop_last() =~= ids@.take(j as int));
                assert(ids@.take(j + 1).last() == ids@[j as int]);
            }
            if node_feeds(wiring, ids[j], to) {
                count = count + 1;
            }
        }
        assert(ids@.take(ids@.len() as int) =~= ids@);
        counts.push(count);
    }
    counts
}

proof fn lemma_none_awaited(w: WiringSpec, ids: Seq<u64>, ran: Seq<u64>, to: u64)
    ensures
        awaited(w, ids, ran, to) == 0 <==> (forall|k: int|
            0 <= k < ids.len() && crate::order::feeds(w, #[trigger] ids[k], to) ==> ran.contains(
                ids[k],
            )),
    decreases ids.len(),
{
    if ids.len() > 0 {
        let rest = ids.drop_last();
        lemma_none_awaited(w, rest, ran, to);
        assert forall|k: int|
            awaited(w, ids, ran, to) == 0 && 0 <= k < ids.len() && crate::order::feeds(
                w,
                #[trigger] ids[k],
                to,
            ) implies ran.contains(ids[k]) by {
            if k < rest.len() {
                assert(rest[k] == ids[k]);
            }
        }
        if forall|k: int|
            0 <= k < ids.len() && crate::order::feeds(w, #[trigger] ids[k], to) ==> ran.contains(
                ids[k],
            ) {
            assert forall|k: int|
                0 <= k < rest.len() && crate::order::feeds(
                    w,
                    #[trigger] rest[k],
                    to,
                ) implies ran.contains(rest[k]) by {
                assert(ids[k] == rest[k]);
            }
            assert(ids[ids.len() - 1] == ids.last());
        }
    }
}

/// What is awaited does not change when a node runs that is none of those.
proof fn lemma_awaited_same(w: WiringSpec, ids: Seq<u64>, ran: Seq<u64>, node: u64, to: u64)
    requires
        !ids.contains(node),
    ensures
        awaited(w, ids, ran.push(node), to) == awaited(w, ids, ran, to),
    decreases ids.len(),
{
    if ids.len() > 0 {
        let rest = ids.drop_last();
        assert(!rest.contains(node)) by {
            if rest.contains(node) {
                assert(ids[rest.index_of(node)] == node);
            }
        }
        lemma_awaited_same(w, rest, ran, node, to);
        assert(ids[ids.len() - 1] == ids.last());
        lemma_push_contains(ran, node, ids.last());
    }
}

proof fn lemma_push_contains(list: Seq<u64>, more: u64, v: u64)
    ensures
        list.push(more).contains(v) <==> list.contains(v) || v == more,
{
    let longer = list.push(more);
    if list.contains(v) {
        assert(longer[list.index_of(v)] == v);
    }
    if longer.contains(v) && v != more {
        assert(list[longer.index_of(v)] == v);
    }
    assert(longer[list.len() as int] == more);
}

/// Once a node has run, whoever it feeds waits for one node less.
proof fn lemma_awaited_less(w: WiringSpec, ids: Seq<u64>, ran: Seq<u64>, node: u64, to: u64)
    requires
        ids.no_duplicates(),
        ids.contains(node),
        !ran.contains(node),
    ensures
        awaited(w, ids, ran, to) == awaited(w, ids, ran.push(node), to) + if crate::order::feeds(
            w,
            node,
            to,
        ) {
            1nat
        } else {
            0
        },
    decreases ids.len(),
{
    let rest = ids.drop_last();
    let at = ids.index_of(node);
    assert(ids[at] == node);
    lemma_push_contains(ran, node, ids.last());
    if at == ids.len() - 1 {
        assert(!rest.contains(node)) by {
            if rest.contains(node) {
                let k = rest.index_of(node);
                assert(ids[k] == ids[at]);
            }
        }
        lemma_awaited_same(w, rest, ran, node, to);
    } else {
        assert(rest[at] == node);
        assert(ids[ids.len() - 1] != ids[at]);
        lemma_awaited_less(w, rest, ran, node, to);
    }
}

/// The state of the search for a run order: `waiting` says how many nodes each node
/// still waits for once `order` has run, and `ready` lists the nodes that wait for
/// none and have not run.
#[verifier::opaque]
spec fn in_progress(
    w: WiringSpec,
    ids: Seq<u64>,
    order: Seq<u64>,
    ready: Seq<u64>,
    waiting: Seq<usize>,
) -> bool {
    &&& order_so_far(w, ids, order)
    &&& waiting.len() == ids.len()
    &&& (order + ready).no_duplicates()
    &&& forall|k: int| 0 <= k < ready.len() ==> ids.contains(#[trigger] ready[k])
    &&& forall|i: int|
        0 <= i < ids.len() ==> #[trigger] waiting[i] == awaited(w, ids, order, ids[i])
    &&& forall|i: int|
        0 <= i < ids.len() ==> (#[trigger] waiting[i] == 0 <==> (order + ready).contains(ids[i]))
}

/// Whether some nodes have run, each after all that feed it.
spec fn order_so_far(w: WiringSpec, ids: Seq<u64>, order: Seq<u64>) -> bool {
    &&& order.no_duplicates()
    &&& forall|j: int| 0 <= j < order.len() ==> ids.contains(#[trigger] order[j])
    &&& forall|a: int, j: int|
        0 <= a < ids.len() && 0 <= j < order.len() && crate::order::feeds(
            w,
            #[trigger] ids[a],
            #[trigger] order[j],
        ) ==> order.take(j).contains(ids[a])
}

/// Like [`in_progress`], while the last node of `order` tells the nodes it feeds: the
/// first `done` nodes have been told.
#[verifier::opaque]
spec fn telling(
    w: WiringSpec,
    ids: Seq<u64>,
    order: Seq<u64>,
    ready: Seq<u64>,
    waiting: Seq<usize>,
    done: int,
) -> bool {
    &&& order.len() > 0
    &&& order_so_far(w, ids, order)
    &&& waiting.len() == ids.len()
    &&& (order + ready).no_duplicates()
    &&& forall|k: int| 0 <= k < ready.len() ==> ids.contains(#[trigger] ready[k])
    &&& forall|i: int|
        0 <= i < ids.len() ==> #[trigger] waiting[i] == awaited(
            w,
            ids,
            if i < done {
                order
            } else {
                order.drop_last()
            },
            ids[i],
        )
    &&& forall|i: int|
        0 <= i < ids.len() ==> (#[trigger] waiting[i] == 0 <==> (order + ready).contains(ids[i]))
}

proof fn lemma_begin_telling(
    w: WiringSpec,
    ids: Seq<u64>,
    order: Seq<u64>,
    ready: Seq<u64>,
    waiting: Seq<usize>,
)
    requires
        in_progress(w, ids, order, ready, waiting),
        ready.len() > 0,
    ensures
        telling(w, ids, order.push(ready.last()), ready.drop_last(), waiting, 0),
        ids.contains(ready.last()),
        !order.contains(ready.last()),
{
    reveal(in_progress);
    reveal(telling);
    let node = ready.last();
    let all = order + ready;
    let next = order.push(node);
    let rest = ready.drop_last();
    let now = next + rest;
    assert(all[all.len() - 1] == node);
    assert(ids.contains(ready[ready.len() - 1]));
    assert(!order.contains(node)) by {
        if order.contains(node) {
            let k = order.index_of(node);
            assert(all[k] == all[all.len() - 1]);
        }
    }
    assert forall|a: int, b: int| 0 <= a < now.len() && 0 <= b < now.len() && a != b implies now[a]
        != now[b] by {
        let p = if a < order.len() {
            a
        } else if a == order.len() {
            all.len() - 1
        } else {
            a - 1
        };
        let q = if b < order.len() {
            b
        } else if b == order.len() {
            all.len() - 1
        } else {
            b - 1
        };
        assert(now[a] == all[p] && now[b] == all[q] && p != q);
    }
    assert forall|v: u64| now.contains(v) <==> #[trigger] all.contains(v) by {
        if all.contains(v) {
            let k = all.index_of(v);
            if k < order.len() {
                assert(now[k] == v);
            } else if k == all.len() - 1 {
                assert(now[order.len() as int] == v);
            } else {
                assert(now[k + 1] == v);
            }
        }
        if now.contains(v) {
            let k = now.index_of(v);
            if k < order.len() {
                assert(all[k] == v);
            } else if k == order.len() {
                assert(all[all.len() - 1] == v);
            } else {
                assert(all[k - 1] == v);
            }
        }
    }
    let at = ids.index_of(node);
    assert(waiting[at] == 0) by {
        assert(all.contains(node));
    }
    lemma_none_awaited(w, ids, order, node);
    assert(next.no_duplicates());
    assert forall|j: int| 0 <= j < next.len() implies ids.contains(#[trigger] next[j]) by {
        if j < order.len() {
            assert(next[j] == order[j]);
        }
    }
    assert forall|a: int, j: int|
        0 <= a < ids.len() && 0 <= j < next.len() && crate::order::feeds(
            w,
            #[trigger] ids[a],
            #[trigger] next[j],
        ) implies next.take(j).contains(ids[a]) by {
        if j < order.len() {
            assert(next[j] == order[j]);
            assert(next.take(j) =~= order.take(j));
        } else {
            assert(next.take(j) =~= order);
        }
    }
    assert(next.drop_last() =~= order);
    assert forall|k: int| 0 <= k < rest.len() implies ids.contains(#[trigger] rest[k]) by {
        assert(rest[k] == ready[k]);
    }
    assert forall|i: int| 0 <= i < ids.len() implies (#[trigger] waiting[i] == 0 <==> now.contains(
        ids[i],
    )) by {
        assert(now.contains(ids[i]) <==> all.contains(ids[i]));
    }
}

proof fn lemma_end_telling(
    w: WiringSpec,
    ids: Seq<u64>,
    order: Seq<u64>,
    ready: Seq<u64>,
    waiting: Seq<usize>,
)
    requires
        telling(w, ids, order, ready, waiting, ids.len() as int),
    ensures
        in_progress(w, ids, order, ready, waiting),
{
    reveal(in_progress);
    reveal(telling);
}

/// Telling one node that the last node of the order does not feed.
proof fn lemma_not_told(
    w: WiringSpec,
    ids: Seq<u64>,
    order: Seq<u64>,
    ready: Seq<u64>,
    waiting: Seq<usize>,
    i: int,
)
    requires
        ids.no_duplicates(),
        0 <= i < ids.len(),
        telling(w, ids, order, ready, waiting, i),
        !crate::order::feeds(w, order.last(), ids[i]),
    ensures
        telling(w, ids, order, ready, waiting, i + 1),
{
    reveal(telling);
    lemma_last_is_new(w, ids, order);
    lemma_awaited_less(w, ids, order.drop_last(), order.last(), ids[i]);
}

proof fn lemma_last_is_new(w: WiringSpec, ids: Seq<u64>, order: Seq<u64>)
    requires
        order.len() > 0,
        order_so_far(w, ids, order),
    ensures
        ids.contains(order.last()),
        !order.drop_last().contains(order.last()),
        order.drop_last().push(order.last()) == order,
{
    assert(ids.contains(order[order.len() - 1]));
    if order.drop_last().contains(order.last()) {
        let k = order.drop_last().index_of(order.last());
        assert(order[k] == order[order.len() - 1]);
    }
    assert(order.drop_last().push(order.last()) =~= order);
}

/// Telling one node that the last node of the order feeds.
proof fn lemma_told(
    w: WiringSpec,
    ids: Seq<u64>,
    order: Seq<u64>,
    ready: Seq<u64>,
    waiting: Seq<usize>,
    i: int,
)
    requires
        ids.no_duplicates(),
        0 <= i < ids.len(),
        telling(w, ids, order, ready, waiting, i),
        crate::order::feeds(w, order.last(), ids[i]),
    ensures
        waiting.len() == ids.len(),
        waiting[i] > 0,
        telling(
            w,
            ids,
            order,
            if waiting[i] == 1 {
                ready.push(ids[i])
            } else {
                ready
            },
            waiting.update(i, (waiting[i] - 1) as usize),
            i + 1,
        ),
{
    reveal(telling);
    lemma_last_is_new(w, ids, order);
    lemma_awaited_less(w, ids, order.drop_last(), order.last(), ids[i]);
    let now = waiting.update(i, (waiting[i] - 1) as usize);
    let all = order + ready;
    assert(waiting[i] > 0);
    assert(!all.contains(ids[i]));
    if waiting[i] == 1 {
        let more = ready.push(ids[i]);
        let longer = order + more;
        assert(longer =~= all.push(ids[i]));
        assert forall|k: int| 0 <= k < more.len() implies ids.contains(#[trigger] more[k]) by {
            if k < ready.len() {
                assert(more[k] == ready[k]);
            } else {
                assert(ids[i] == more[k]);
            }
        }
        assert forall|k: int| 0 <= k < ids.len() implies (#[trigger] now[k] == 0
            <==> longer.contains(ids[k])) by {
            lemma_push_contains(all, ids[i], ids[k]);
            if k != i {
                assert(now[k] == waiting[k]);
                assert(ids[k] != ids[i]);
            }
        }
        assert(longer.no_duplicates());
        assert forall|k: int| 0 <= k < ids.len() implies #[trigger] now[k] == awaited(
            w,
            ids,
            if k < i + 1 {
                order
            } else {
                order.drop_last()
            },
            ids[k],
        ) by {
            if k != i {
                assert(now[k] == waiting[k]);
            }
        }
    } else {
        assert forall|k: int| 0 <= k < ids.len() implies (#[trigger] now[k] == 0 <==> all.contains(
            ids[k],
        )) by {
            if k != i {
                assert(now[k] == waiting[k]);
            }
        }
        assert forall|k: int| 0 <= k < ids.len() implies #[trigger] now[k] == awaited(
            w,
            ids,
            if k < i + 1 {
                order
            } else {
                order.drop_last()
            },
            ids[k],
        ) by {
            if k != i {
                assert(now[k] == waiting[k]);
            }
        }
    }
}

/// There is room for one more node in an order without repeats.
proof fn lemma_room(ids: Seq<u64>, order: Seq<u64>, node: u64)
    requires
        order.no_duplicates(),
        forall|j: int| 0 <= j < order.len() ==> ids.contains(#[trigger] order[j]),
        ids.contains(node),
        !order.contains(node),
    ensures
        order.len() < ids.len(),
{
    let more = order.push(node);
    assert(more.no_duplicates());
    more.unique_seq_to_set();
    ids.lemma_cardinality_of_set();
    assert(more.to_set().subset_of(ids.to_set())) by {
        assert forall|u: u64| more.to_set().contains(u) implies ids.to_set().contains(u) by {
            let k = choose|k: int| 0 <= k < more.len() && more[k] == u;
            if k < order.len() {
                assert(ids.contains(order[k]));
            }
        }
    }
    vstd::set_lib::lemma_len_subset(more.to_set(), ids.to_set());
}

/// Where nothing is ready and nothing leads back to itself, the order is complete.
proof fn lemma_done(
    w: WiringSpec,
    ids: Seq<u64>,
    order: Seq<u64>,
    ready: Seq<u64>,
    waiting: Seq<usize>,
)
    requires
        in_progress(w, ids, order, ready, waiting),
        ready.len() == 0,
        !crate::order::has_cycle(w, ids),
    ensures
        is_run_order(w, ids, order),
{
    reveal(in_progress);
    assert(order + ready =~= order);
    let left = |k: int| 0 <= k < ids.len() && !order.contains(ids[k]);
    assert forall|i: int| 0 <= i < ids.len() && #[trigger] left(i) implies exists|j: int|
        0 <= j < ids.len() && #[trigger] left(j) && crate::order::feeds(w, ids[j], ids[i]) by {
        assert(waiting[i] != 0);
        lemma_none_awaited(w, ids, order, ids[i]);
        let j = choose|j: int|
            0 <= j < ids.len() && crate::order::feeds(w, #[trigger] ids[j], ids[i])
                && !order.contains(ids[j]);
        assert(left(j));
    }
    assert forall|v: u64| ids.contains(v) implies #[trigger] order.contains(v) by {
        let k = ids.index_of(v);
        if !order.contains(v) {
            assert(left(k));
            crate::order::lemma_stuck_means_cycle(w, ids, left, k);
        }
    }
    assert forall|v: u64| #[trigger] order.contains(v) implies ids.contains(v) by {
        assert(ids.contains(order[order.index_of(v)]));
    }
    assert forall|i: int, j: int|
        0 <= i < order.len() && 0 <= j < order.len() && crate::order::feeds(
            w,
            #[trigger] order[i],
            #[trigger] order[j],
        ) implies i < j by {
        assert(ids.contains(order[i]));
        let a = ids.index_of(order[i]);
        assert(order.take(j).contains(ids[a]));
        let k = order.take(j).index_of(ids[a]);
        assert(order[k] == order[i]);
    }
}

/// Finds a run order of nodes of which none leads back to itself.
pub fn run_order(wiring: &Wiring, ids: &Vec<u64>) -> (order: Vec<u64>)
    requires
        ids@.no_duplicates(),
        !crate::order::has_cycle(wiring@, ids@),
    ensures
        is_run_order(wiring@, ids@, order@),
{
    let mut waiting = count_awaited(wiring, ids);
    let mut order: Vec<u64> = Vec::new();
    let mut ready: Vec<u64> = Vec::new();
    for i in 0..ids.len()
        invariant
            ids@.no_duplicates(),
            waiting@.len() == ids@.len(),
            ready@.no_duplicates(),
            forall|k: int| 0 <= k < ready@.len() ==> ids@.contains(#[trigger] ready@[k]),
            forall|k: int|
                0 <= k < ids@.len() ==> (ready@.contains(#[trigger] ids@[k]) <==> (k < i
                    && waiting@[k] == 0)),
    {
        let ghost before = ready@;
        assert(!before.contains(ids@[i as int]));
        if waiting[i] == 0 {
            ready.push(ids[i]);
            proof {
                assert forall|k: int| 0 <= k < ids@.len() implies (ready@.contains(
                    #[trigger] ids@[k],
                ) <==> (k < i + 1 && waiting@[k] == 0)) by {
                    lemma_push_contains(before, ids@[i as int], ids@[k]);
                    assert(ready@ == before.push(ids@[i as int]));
                    if k != i {
                        assert(ids@[k] != ids@[i as int]);
                    }
                }
                assert forall|k: int| 0 <= k < ready@.len() implies ids@.contains(
                    #[trigger] ready@[k],
                ) by {
                    if k < before.len() {
                        assert(ready@[k] == before[k]);
                    } else {
                        assert(ids@[i as int] == ready@[k]);
                    }
                }
            }
        }
    }
    proof {
        assert(order@ + ready@ =~= ready@);
        assert(order@ =~= Seq::<u64>::empty());
        reveal(in_progress);
    }
    while ready.len() > 0
        invariant
            ids@.no_duplicates(),
            order@.len() <= ids@.len(),
            in_progress(wiring@, ids@, order@, ready@, waiting@),
        decreases ids@.len() - order@.len(),
    {
        proof {
            lemma_begin_telling(wiring@, ids@, order@, ready@, waiting@);
            reveal(in_progress);
            lemma_room(ids@, order@, ready@.last());
        }
        let node = ready[ready.len() - 1];
        let ghost rest = ready@.drop_last();
        ready.pop();
        order.push(node);
        assert(ready@ =~= rest);
        for i in 0..ids.len()
            invariant
                ids@.no_duplicates(),
                order@.len() > 0,
                order@.last() == node,
                telling(wiring@, ids@, order@, ready@, waiting@, i as int),
        {
            if node_feeds(wiring, node, ids[i]) {
                proof {
                    lemma_told(wiring@, ids@, order@, ready@, waiting@, i as int);
                }
                let left: usize = waiting[i] - 1;
                waiting.set(i, left);
                if left == 0 {
                    ready.push(ids[i]);
                }
            } else {
                proof {
                    lemma_not_told(wiring@, ids@, order@, ready@, waiting@, i as int);
                }
            }
        }
        proof {
            lemma_end_telling(wiring@, ids@, order@, ready@, waiting@);
        }
    }
    proof {
        lemma_done(wiring@, ids@, order@, ready@, waiting@);
    }
    order
}

/// A node waits for nobody exactly when every node that feeds it has run.
pub proof fn law_nothing_awaited(w: WiringSpec, ids: Seq<u64>, ran: Seq<u64>, to: u64)
    ensures
        awaited(w, ids, ran, to) == 0 <==> forall|i: int|
            0 <= i < ids.len() && crate::order::feeds(w, #[trigger] ids[i], to) ==> ran.contains(
                ids[i],
            ),
        awaited(w, ids, ran, to) <= ids.len(),
    decreases ids.len(),
{
    if ids.len() > 0 {
        let rest = ids.drop_last();
        let last = ids.len() - 1;
        law_nothing_awaited(w, rest, ran, to);
        if awaited(w, ids, ran, to) == 0 {
            assert forall|i: int|
                0 <= i < ids.len() && crate::order::feeds(w, #[trigger] ids[i], to) implies
                ran.contains(ids[i]) by {
                if i < last {
                    assert(rest[i] == ids[i]);
                }
            }
        }
        if forall|i: int|
            0 <= i < ids.len() && crate::order::feeds(w, #[trigger] ids[i], to) ==> ran.contains(
                ids[i],
            ) {
            assert forall|i: int|
                0 <= i < rest.len() && crate::order::feeds(w, #[trigger] rest[i], to) implies
                ran.contains(rest[i]) by {
                assert(rest[i] == ids[i]);
            }
            assert(ids[last] == ids.last());
        }
    }
}

} // verus!
