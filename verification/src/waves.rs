//! Waves of nodes that may run side by side, and the nodes each node depends on.
use vstd::prelude::*;
use crate::order::node_feeds;
use crate::wiring::{Wiring, WiringSpec};
use std::collections::HashMap;

verus! {

broadcast use vstd::std_specs::hash::group_hash_axioms;

/// The larger of two numbers.
pub open spec fn larger(a: nat, b: nat) -> nat {
    if a < b {
        b
    } else {
        a
    }
}

/// The wave of a node, given the waves of the first `n` nodes of a run order: the
/// first one after the waves of those that feed it.
pub open spec fn wave_after(
    w: WiringSpec,
    node: u64,
    order: Seq<u64>,
    waves: Seq<nat>,
    n: nat,
) -> nat
    decreases n,
{
    if n == 0 {
        0
    } else {
        larger(
            wave_after(w, node, order, waves, (n - 1) as nat),
            if crate::order::feeds(w, order[n - 1], node) {
                waves[n - 1] + 1
            } else {
                0
            },
        )
    }
}

/// The waves of nodes in run order.
pub open spec fn waves_of(w: WiringSpec, order: Seq<u64>) -> Seq<nat>
    decreases order.len(),
{
    if order.len() == 0 {
        Seq::empty()
    } else {
        let earlier = waves_of(w, order.drop_last());
        earlier.push(
            wave_after(w, order.last(), order, earlier, (order.len() - 1) as nat),
        )
    }
}

/// The largest of some numbers.
pub open spec fn largest(list: Seq<nat>) -> nat
    decreases list.len(),
{
    if list.len() == 0 {
        0
    } else {
        larger(largest(list.drop_last()), list.last())
    }
}

/// The nodes of one wave, in run order.
pub open spec fn members(order: Seq<u64>, waves: Seq<nat>, wave: nat) -> Seq<u64>
    decreases order.len(),
{
    if order.len() == 0 {
        Seq::empty()
    } else {
        let before = members(order.drop_last(), waves, wave);
        if waves[order.len() - 1] == wave {
            before.push(order.last())
        } else {
            before
        }
    }
}

/// The waves as lists of nodes; a graph without nodes has one empty wave.
pub open spec fn grouped(order: Seq<u64>, waves: Seq<nat>) -> Seq<Seq<u64>> {
    Seq::new(largest(waves) + 1, |wave: int| members(order, waves, wave as nat))
}

proof fn lemma_wave_bound(w: WiringSpec, node: u64, order: Seq<u64>, waves: Seq<nat>, n: nat)
    requires
        forall|k: int| 0 <= k < n ==> #[trigger] waves[k] <= k,
    ensures
        wave_after(w, node, order, waves, n) <= n,
    decreases n,
{
    if n > 0 {
        lemma_wave_bound(w, node, order, waves, (n - 1) as nat);
        assert(waves[n - 1] <= n - 1);
    }
}

/// A node's wave is no larger than its position in the run order.
pub proof fn lemma_waves_bounded(w: WiringSpec, order: Seq<u64>)
    ensures
        waves_of(w, order).len() == order.len(),
        forall|k: int| 0 <= k < order.len() ==> #[trigger] waves_of(w, order)[k] <= k,
    decreases order.len(),
{
    if order.len() > 0 {
        lemma_waves_bounded(w, order.drop_last());
        let earlier = waves_of(w, order.drop_last());
        lemma_wave_bound(w, order.last(), order, earlier, (order.len() - 1) as nat);
    }
}

proof fn lemma_same_wave(
    w: WiringSpec,
    node: u64,
    a: Seq<u64>,
    b: Seq<u64>,
    waves: Seq<nat>,
    n: nat,
)
    requires
        forall|k: int| 0 <= k < n ==> #[trigger] a[k] == b[k],
    ensures
        wave_after(w, node, a, waves, n) == wave_after(w, node, b, waves, n),
    decreases n,
{
    if n > 0 {
        lemma_same_wave(w, node, a, b, waves, (n - 1) as nat);
        assert(a[n - 1] == b[n - 1]);
    }
}

/// Finds the waves of nodes in run order.
pub fn find_waves(wiring: &Wiring, order: &Vec<u64>) -> (r: Vec<usize>)
    ensures
        r@.map_values(|w: usize| w as nat) == waves_of(wiring@, order@),
{
    let ghost w = wiring@;
    let mut waves: Vec<usize> = Vec::new();
    assert(waves@.map_values(|w: usize| w as nat) =~= waves_of(w, order@.take(0)));
    for i in 0..order.len()
        invariant
            w == wiring@,
            waves@.len() == i,
            waves@.map_values(|w: usize| w as nat) == waves_of(w, order@.take(i as int)),
    {
        let node = order[i];
        let ghost earlier = waves@.map_values(|w: usize| w as nat);
        proof {
            lemma_waves_bounded(w, order@.take(i as int));
        }
        let mut wave: usize = 0;
        for j in 0..i
            invariant
                w == wiring@,
                i < order@.len(),
                waves@.len() == i,
                earlier == waves@.map_values(|w: usize| w as nat),
                forall|k: int| 0 <= k < i ==> #[trigger] earlier[k] <= k,
                wave <= j,
                wave == wave_after(w, node, order@, earlier, j as nat),
        {
            assert(earlier[j as int] == waves@[j as int]);
            if node_feeds(wiring, order[j], node) && wave < waves[j] + 1 {
                wave = waves[j] + 1;
            }
        }
        waves.push(wave);
        proof {
            assert(order@.take(i + 1).drop_last() =~= order@.take(i as int));
            assert(order@.take(i + 1).last() == node);
            lemma_same_wave(w, node, order@, order@.take(i + 1), earlier, i as nat);
            assert(waves@.map_values(|w: usize| w as nat) =~= earlier.push(wave as nat));
        }
    }
    assert(order@.take(order@.len() as int) =~= order@);
    waves
}

/// Groups nodes by wave.
pub fn group_waves(order: &Vec<u64>, waves: &Vec<usize>) -> (r: Vec<Vec<u64>>)
    requires
        waves@.len() == order@.len(),
        forall|k: int| 0 <= k < waves@.len() ==> #[trigger] waves@[k] <= k,
    ensures
        r@.map_values(|v: Vec<u64>| v@) == grouped(order@, waves@.map_values(|w: usize| w as nat)),
{
    let ghost all = waves@.map_values(|w: usize| w as nat);
    let mut top: usize = 0;
    for i in 0..waves.len()
        invariant
            all == waves@.map_values(|w: usize| w as nat),
            top == largest(all.take(i as int)),
            forall|k: int| 0 <= k < waves@.len() ==> #[trigger] waves@[k] <= k,
            top <= i,
    {
        assert(all.take(i + 1).drop_last() =~= all.take(i as int));
        if top < waves[i] {
            top = waves[i];
        }
    }
    assert(all.take(all.len() as int) =~= all);
    let mut groups: Vec<Vec<u64>> = Vec::new();
    let mut wave: usize = 0;
    loop
        invariant_except_break
            groups@.len() == wave,
            forall|k: int|
                0 <= k < wave ==> (#[trigger] groups@[k])@ == members(order@, all, k as nat),
        invariant
            all == waves@.map_values(|w: usize| w as nat),
            waves@.len() == order@.len(),
            top == largest(all),
            wave <= top,
        ensures
            groups@.len() == top + 1,
            forall|k: int|
                0 <= k < groups@.len() ==> (#[trigger] groups@[k])@ == members(
                    order@,
                    all,
                    k as nat,
                ),
        decreases top - wave,
    {
        let mut group: Vec<u64> = Vec::new();
        for i in 0..order.len()
            invariant
                all == waves@.map_values(|w: usize| w as nat),
                waves@.len() == order@.len(),
                group@ == members(order@.take(i as int), all, wave as nat),
        {
            assert(order@.take(i + 1).drop_last() =~= order@.take(i as int));
            if waves[i] == wave {
                group.push(order[i]);
            }
        }
        assert(order@.take(order@.len() as int) =~= order@);
        groups.push(group);
        if wave == top {
            break;
        }
        wave = wave + 1;
    }
    assert(groups@.map_values(|v: Vec<u64>| v@) =~= grouped(order@, all));
    groups
}

/// The nodes that feed a node, in the order of `ids`.
pub open spec fn predecessors(w: WiringSpec, ids: Seq<u64>, node: u64) -> Seq<u64>
    decreases ids.len(),
{
    if ids.len() == 0 {
        Seq::empty()
    } else {
        let before = predecessors(w, ids.drop_last(), node);
        if crate::order::feeds(w, ids.last(), node) {
            before.push(ids.last())
        } else {
            before
        }
    }
}

/// Finds the nodes that feed a node.
pub fn find_predecessors(wiring: &Wiring, ids: &Vec<u64>, node: u64) -> (r: Vec<u64>)
    ensures
        r@ == predecessors(wiring@, ids@, node),
{
    let mut list: Vec<u64> = Vec::new();
    for i in 0..ids.len()
        invariant
            list@ == predecessors(wiring@, ids@.take(i as int), node),
    {
        proof {
            assert(ids@.take(i + 1).drop_last() =~= ids@.take(i as int));
            assert(ids@.take(i + 1).last() == ids@[i as int]);
        }
        if node_feeds(wiring, ids[i], node) {
            list.push(ids[i]);
        }
    }
    assert(ids@.take(ids@.len() as int) =~= ids@);
    list
}

/// A node is in a later wave than every earlier node that feeds it.
pub proof fn law_waves_follow_data(w: WiringSpec, order: Seq<u64>, i: int, j: int)
    requires
        0 <= i < j < order.len(),
        crate::order::feeds(w, order[i], order[j]),
    ensures
        waves_of(w, order)[i] < waves_of(w, order)[j],
    decreases order.len(),
{
    let shorter = order.drop_last();
    let earlier = waves_of(w, shorter);
    lemma_waves_bounded(w, shorter);
    lemma_waves_bounded(w, order);
    if j < order.len() - 1 {
        assert(shorter[i] == order[i] && shorter[j] == order[j]);
        law_waves_follow_data(w, shorter, i, j);
    } else {
        lemma_wave_at_least(w, order[j], order, earlier, j as nat, i);
    }
}

proof fn lemma_wave_at_least(
    w: WiringSpec,
    node: u64,
    order: Seq<u64>,
    waves: Seq<nat>,
    n: nat,
    i: int,
)
    requires
        0 <= i < n,
        crate::order::feeds(w, order[i], node),
    ensures
        wave_after(w, node, order, waves, n) > waves[i],
    decreases n,
{
    if i < n - 1 {
        lemma_wave_at_least(w, node, order, waves, (n - 1) as nat, i);
    }
}

/// A node is listed in its own wave and in no other.
pub proof fn law_one_wave_each(order: Seq<u64>, waves: Seq<nat>, k: int, wave: int)
    requires
        order.no_duplicates(),
        waves.len() == order.len(),
        0 <= k < order.len(),
        0 <= wave < grouped(order, waves).len(),
    ensures
        waves[k] < grouped(order, waves).len(),
        grouped(order, waves)[wave].contains(order[k]) <==> wave == waves[k],
{
    lemma_largest(waves, k);
    lemma_members(order, waves, wave as nat, order.len(), k);
    assert(order.take(order.len() as int) =~= order);
}

proof fn lemma_largest(list: Seq<nat>, k: int)
    requires
        0 <= k < list.len(),
    ensures
        list[k] <= largest(list),
    decreases list.len(),
{
    if k < list.len() - 1 {
        lemma_largest(list.drop_last(), k);
        assert(list.drop_last()[k] == list[k]);
    }
}

proof fn lemma_members(order: Seq<u64>, waves: Seq<nat>, wave: nat, n: nat, k: int)
    requires
        order.no_duplicates(),
        waves.len() == order.len(),
        n <= order.len(),
        0 <= k < order.len(),
    ensures
        members(order.take(n as int), waves, wave).contains(order[k]) <==> k < n && waves[k] == wave,
    decreases n,
{
    let part = order.take(n as int);
    if n > 0 {
        lemma_members(order, waves, wave, (n - 1) as nat, k);
        assert(part.drop_last() =~= order.take(n - 1));
        let before = members(order.take(n - 1), waves, wave);
        let last = order[n - 1];
        assert(part.last() == last);
        if waves[n - 1] == wave {
            let longer = before.push(last);
            if before.contains(order[k]) {
                assert(longer[before.index_of(order[k])] == order[k]);
            }
            if longer.contains(order[k]) && order[k] != last {
                assert(before[longer.index_of(order[k])] == order[k]);
            }
            assert(longer[before.len() as int] == last);
        }
    }
}

/// The predecessors of a node are the nodes that feed it, listed once each, and never
/// the node itself.
pub proof fn law_predecessors(w: WiringSpec, ids: Seq<u64>, node: u64, other: u64)
    requires
        ids.no_duplicates(),
    ensures
        predecessors(w, ids, node).no_duplicates(),
        predecessors(w, ids, node).contains(other) <==> ids.contains(other)
            && crate::order::feeds(w, other, node),
        !predecessors(w, ids, node).contains(node),
    decreases ids.len(),
{
    lemma_predecessors(w, ids, node, other);
    lemma_predecessors(w, ids, node, node);
}

proof fn lemma_predecessors(w: WiringSpec, ids: Seq<u64>, node: u64, other: u64)
    requires
        ids.no_duplicates(),
    ensures
        predecessors(w, ids, node).no_duplicates(),
        predecessors(w, ids, node).contains(other) <==> ids.contains(other)
            && crate::order::feeds(w, other, node),
    decreases ids.len(),
{
    if ids.len() > 0 {
        let rest = ids.drop_last();
        let last = ids.last();
        let before = predecessors(w, rest, node);
        lemma_predecessors(w, rest, node, other);
        lemma_predecessors(w, rest, node, last);
        assert(ids[ids.len() - 1] == last);
        assert(!rest.contains(last)) by {
            if rest.contains(last) {
                assert(ids[rest.index_of(last)] == ids[ids.len() - 1]);
            }
        }
        if rest.contains(other) {
            assert(ids[rest.index_of(other)] == other);
        }
        if ids.contains(other) && other != last {
            assert(rest[ids.index_of(other)] == other);
        }
        if crate::order::feeds(w, last, node) {
            let longer = before.push(last);
            if before.contains(other) {
                assert(longer[before.index_of(other)] == other);
            }
            if longer.contains(other) && other != last {
                assert(before[longer.index_of(other)] == other);
            }
            assert(longer[before.len() as int] == last);
        }
    }
}

proof fn lemma_wave_after_is_reached(
    w: WiringSpec,
    node: u64,
    order: Seq<u64>,
    waves: Seq<nat>,
    n: nat,
)
    ensures
        wave_after(w, node, order, waves, n) > 0 ==> exists|i: int|
            0 <= i < n && #[trigger] crate::order::feeds(w, order[i], node) && waves[i] + 1
                == wave_after(w, node, order, waves, n),
    decreases n,
{
    if n > 0 {
        lemma_wave_after_is_reached(w, node, order, waves, (n - 1) as nat);
        if crate::order::feeds(w, order[n - 1], node) && waves[n - 1] + 1 == wave_after(
            w,
            node,
            order,
            waves,
            n,
        ) {
            assert(crate::order::feeds(w, order[n - 1], node));
        }
    }
}

/// No node waits longer than it has to: one that no earlier node feeds is in the
/// first wave, and any other in the wave right after that of some node that feeds
/// it.
pub proof fn law_waves_are_as_early_as_can_be(w: WiringSpec, order: Seq<u64>, j: int)
    requires
        0 <= j < order.len(),
    ensures
        waves_of(w, order)[j] == 0 || exists|i: int|
            0 <= i < j && #[trigger] crate::order::feeds(w, order[i], order[j]) && waves_of(
                w,
                order,
            )[i] + 1 == waves_of(w, order)[j],
        (forall|i: int| 0 <= i < j ==> !#[trigger] crate::order::feeds(w, order[i], order[j]))
            ==> waves_of(w, order)[j] == 0,
    decreases order.len(),
{
    let rest = order.drop_last();
    let earlier = waves_of(w, rest);
    lemma_waves_bounded(w, rest);
    if j < rest.len() {
        law_waves_are_as_early_as_can_be(w, rest, j);
        assert(rest[j] == order[j]);
        assert(waves_of(w, order)[j] == earlier[j]);
        if earlier[j] > 0 {
            let i = choose|i: int|
                0 <= i < j && #[trigger] crate::order::feeds(w, rest[i], rest[j]) && earlier[i] + 1
                    == earlier[j];
            assert(rest[i] == order[i]);
            assert(crate::order::feeds(w, order[i], order[j]));
            assert(waves_of(w, order)[i] == earlier[i]);
        }
    } else {
        let n = (order.len() - 1) as nat;
        lemma_wave_after_is_reached(w, order.last(), order, earlier, n);
        assert(waves_of(w, order)[j] == wave_after(w, order.last(), order, earlier, n));
        if waves_of(w, order)[j] > 0 {
            let i = choose|i: int|
                0 <= i < n && #[trigger] crate::order::feeds(w, order[i], order.last()) && earlier[
                    i
                ] + 1 == wave_after(w, order.last(), order, earlier, n);
            assert(waves_of(w, order)[i] == earlier[i]);
            assert(crate::order::feeds(w, order[i], order[j]));
        }
    }
}

proof fn lemma_largest_is_reached(list: Seq<nat>)
    requires
        list.len() > 0,
    ensures
        exists|j: int| 0 <= j < list.len() && list[j] == largest(list),
    decreases list.len(),
{
    let rest = list.drop_last();
    if rest.len() == 0 {
        assert(largest(rest) == 0);
    }
    if list.last() == largest(list) {
        assert(list[list.len() - 1] == largest(list));
    } else {
        lemma_largest_is_reached(rest);
        let j = choose|j: int| 0 <= j < rest.len() && rest[j] == largest(rest);
        assert(list[j] == rest[j]);
    }
}

proof fn lemma_member_is_listed(order: Seq<u64>, waves: Seq<nat>, wave: nat, j: int)
    requires
        order.len() <= waves.len(),
        0 <= j < order.len(),
        waves[j] == wave,
    ensures
        members(order, waves, wave).contains(order[j]),
    decreases order.len(),
{
    let rest = order.drop_last();
    let all = members(order, waves, wave);
    if j == order.len() - 1 {
        assert(all[all.len() - 1] == order[j]);
    } else {
        lemma_member_is_listed(rest, waves, wave, j);
        let before = members(rest, waves, wave);
        let k = choose|k: int| 0 <= k < before.len() && before[k] == rest[j];
        assert(all[k] == order[j]);
    }
}

/// There are as many groups as there are waves: the last group has a node.
pub proof fn law_last_group_has_a_node(order: Seq<u64>, waves: Seq<nat>)
    requires
        order.len() == waves.len(),
        order.len() > 0,
    ensures
        grouped(order, waves).len() > 0,
        grouped(order, waves).last().len() > 0,
{
    lemma_largest_is_reached(waves);
    let j = choose|j: int| 0 <= j < waves.len() && waves[j] == largest(waves);
    lemma_member_is_listed(order, waves, largest(waves), j);
    let last = members(order, waves, largest(waves));
    assert(last.contains(order[j]));
    assert(grouped(order, waves).last() == last);
}

} // verus!
