//! How the nodes of a graph are connected: which node writes and which nodes
//! read each piece of data.
use vstd::prelude::*;
use crate::image::VxCImage;
use crate::multimap::{MultiMap, contains_value, copied};
use crate::outputs::{builtin_outputs, parameter_is_output};
use crate::records::UserKernelParam;
use crate::refs::References;
use crate::types::{VX_TYPE_IMAGE, vx_enum};
use std::collections::HashMap;

verus! {

broadcast use vstd::std_specs::hash::group_hash_axioms;

/// A node as far as its connections go.
pub struct Wire {
    pub id: u64,
    /// All its parameters that are set, in order.
    pub refs: Vec<u64>,
    /// The data it reads, in order.
    pub reads: Vec<u64>,
    /// The data it writes, in order.
    pub writes: Vec<u64>,
}

/// The mathematical value of a [`Wire`].
pub struct WireSpec {
    pub id: u64,
    pub refs: Seq<u64>,
    pub reads: Seq<u64>,
    pub writes: Seq<u64>,
}

impl View for Wire {
    type V = WireSpec;

    open spec fn view(&self) -> WireSpec {
        WireSpec { id: self.id, refs: self.refs@, reads: self.reads@, writes: self.writes@ }
    }
}

/// The values of a list of wires.
pub open spec fn wires_of(wires: Seq<Wire>) -> Seq<WireSpec> {
    wires.map_values(|w: Wire| w@)
}

/// The parameters that are set and that `keep` accepts at their position.
pub open spec fn selected(params: Seq<Option<u64>>, keep: spec_fn(int, u64) -> bool) -> Seq<u64>
    decreases params.len(),
{
    if params.len() == 0 {
        Seq::empty()
    } else {
        let before = selected(params.drop_last(), keep);
        match params.last() {
            Some(r) => if keep(params.len() - 1, r) {
                before.push(r)
            } else {
                before
            },
            None => before,
        }
    }
}

/// The connections of a node, given its parameters, which references carry data
/// and which positions are outputs.
pub open spec fn wire_of(
    id: u64,
    params: Seq<Option<u64>>,
    data: spec_fn(u64) -> bool,
    output: spec_fn(int) -> bool,
) -> WireSpec {
    WireSpec {
        id,
        refs: selected(params, |i: int, r: u64| true),
        reads: selected(params, |i: int, r: u64| data(r) && !output(i)),
        writes: selected(params, |i: int, r: u64| data(r) && output(i)),
    }
}

/// Finds the connections of a node.
pub fn wire(
    id: u64,
    params: &Vec<Option<u64>>,
    name: &str,
    declared: Option<&Vec<UserKernelParam>>,
    refs: &References,
    images: &HashMap<u64, VxCImage>,
) -> (r: Wire)
    ensures
        r@ == wire_of(
            id,
            params@,
            |r: u64| crate::refs::is_data(refs.types@, images@.dom(), r),
            |i: int|
                crate::outputs::is_output(
                    name@,
                    match declared {
                        Some(d) => Some(d@),
                        None => None,
                    },
                    i,
                ),
        ),
{
    let ghost data = |r: u64| crate::refs::is_data(refs.types@, images@.dom(), r);
    let ghost output = |i: int|
        crate::outputs::is_output(
            name@,
            match declared {
                Some(d) => Some(d@),
                None => None,
            },
            i,
        );
    let ghost any = |i: int, r: u64| true;
    let ghost read = |i: int, r: u64| data(r) && !output(i);
    let ghost written = |i: int, r: u64| data(r) && output(i);
    let builtin = builtin_outputs(name);
    let mut set: Vec<u64> = Vec::new();
    let mut reads: Vec<u64> = Vec::new();
    let mut writes: Vec<u64> = Vec::new();
    for i in 0..params.len()
        invariant
            builtin == crate::outputs::outputs_of(name@),
            any == (|i: int, r: u64| true),
            read == (|i: int, r: u64| data(r) && !output(i)),
            written == (|i: int, r: u64| data(r) && output(i)),
            data == (|r: u64| crate::refs::is_data(refs.types@, images@.dom(), r)),
            output == (|i: int|
                crate::outputs::is_output(
                    name@,
                    match declared {
                        Some(d) => Some(d@),
                        None => None,
                    },
                    i,
                )),
            set@ == selected(params@.take(i as int), any),
            reads@ == selected(params@.take(i as int), read),
            writes@ == selected(params@.take(i as int), written),
    {
        proof {
            assert(params@.take(i + 1).drop_last() =~= params@.take(i as int));
            assert(params@.take(i + 1).last() == params@[i as int]);
        }
        if let Some(r) = params[i] {
            set.push(r);
            if refs.is_data_reference(images, r) {
                if parameter_is_output(builtin, declared, i) {
                    writes.push(r);
                } else {
                    reads.push(r);
                }
            }
        }
    }
    assert(params@.take(params@.len() as int) =~= params@);
    Wire { id, refs: set, reads, writes }
}

/// Whether a node writes a piece of data.
pub open spec fn writes(wires: Seq<WireSpec>, node: u64, reference: u64) -> bool {
    exists|i: int|
        0 <= i < wires.len() && #[trigger] wires[i].id == node && wires[i].writes.contains(
            reference,
        )
}

/// Whether two nodes write the same piece of data.
pub open spec fn has_two_writers(wires: Seq<WireSpec>) -> bool {
    exists|a: u64, b: u64, reference: u64|
        a != b && #[trigger] writes(wires, a, reference) && #[trigger] writes(wires, b, reference)
}

/// `id`, once for each time `reference` is among `reads`.
pub open spec fn readings(reads: Seq<u64>, id: u64, reference: u64) -> Seq<u64>
    decreases reads.len(),
{
    if reads.len() == 0 {
        Seq::empty()
    } else {
        let before = readings(reads.drop_last(), id, reference);
        if reads.last() == reference {
            before.push(id)
        } else {
            before
        }
    }
}

/// The nodes that read a piece of data, in order, once for each reading.
pub open spec fn readers(wires: Seq<WireSpec>, reference: u64) -> Seq<u64>
    decreases wires.len(),
{
    if wires.len() == 0 {
        Seq::empty()
    } else {
        readers(wires.drop_last(), reference) + readings(
            wires.last().reads,
            wires.last().id,
            reference,
        )
    }
}

/// Who writes what and who reads it.
pub struct Wiring {
    /// The node that writes each piece of data.
    pub producer: HashMap<u64, u64>,
    /// What each node writes.
    pub outputs: MultiMap,
    /// The nodes that read each piece of data.
    pub consumers: MultiMap,
}

/// The mathematical value of a [`Wiring`].
#[verifier::ext_equal]
pub struct WiringSpec {
    pub producer: Map<u64, u64>,
    pub outputs: Map<u64, Seq<u64>>,
    pub consumers: Map<u64, Seq<u64>>,
}

impl View for Wiring {
    type V = WiringSpec;

    open spec fn view(&self) -> WiringSpec {
        WiringSpec {
            producer: self.producer@,
            outputs: self.outputs@,
            consumers: self.consumers@,
        }
    }
}

/// Whether a wiring records exactly the direct connections of some nodes.
pub open spec fn direct(wiring: WiringSpec, wires: Seq<WireSpec>) -> bool {
    &&& forall|r: u64, n: u64|
        #[trigger] writes(wires, n, r) <==> wiring.producer.contains_key(r) && wiring.producer[r]
            == n
    &&& forall|i: int|
        0 <= i < wires.len() ==> crate::multimap::listed(
            wiring.outputs,
            (#[trigger] wires[i]).id,
        ) == wires[i].writes
    &&& forall|n: u64|
        (forall|i: int| 0 <= i < wires.len() ==> (#[trigger] wires[i]).id != n)
            ==> !#[trigger] wiring.outputs.contains_key(n)
    &&& forall|n: u64| #[trigger] wiring.outputs.contains_key(n) ==> wiring.outputs[n].len() > 0
    &&& forall|r: u64|
        #[trigger] crate::multimap::listed(wiring.consumers, r) == readers(wires, r)
    &&& forall|r: u64|
        #[trigger] wiring.consumers.contains_key(r) ==> readers(wires, r).len() > 0
}

/// Only one wiring records exactly the direct connections of some nodes.
pub proof fn lemma_direct_unique(a: WiringSpec, b: WiringSpec, wires: Seq<WireSpec>)
    requires
        direct(a, wires),
        direct(b, wires),
    ensures
        a == b,
{
    assert forall|r: u64| #[trigger] a.producer.contains_key(r) implies b.producer.contains_key(r)
        && b.producer[r] == a.producer[r] by {
        assert(writes(wires, a.producer[r], r));
    }
    assert forall|r: u64| #[trigger] b.producer.contains_key(r) implies a.producer.contains_key(
        r,
    ) by {
        assert(writes(wires, b.producer[r], r));
    }
    assert(a.producer =~= b.producer);
    assert forall|n: u64|
        crate::multimap::listed(a.outputs, n) == #[trigger] crate::multimap::listed(
            b.outputs,
            n,
        ) by {
        if exists|i: int| 0 <= i < wires.len() && (#[trigger] wires[i]).id == n {
            let i = choose|i: int| 0 <= i < wires.len() && (#[trigger] wires[i]).id == n;
            assert(wires[i].id == n);
        } else {
            assert(!a.outputs.contains_key(n));
            assert(!b.outputs.contains_key(n));
        }
    }
    assert forall|n: u64| #[trigger] a.outputs.contains_key(n) <==> b.outputs.contains_key(n) by {
        assert(crate::multimap::listed(a.outputs, n) == crate::multimap::listed(b.outputs, n));
    }
    assert forall|n: u64| #[trigger] a.outputs.contains_key(n) implies a.outputs[n]
        == b.outputs[n] by {
        assert(crate::multimap::listed(a.outputs, n) == crate::multimap::listed(b.outputs, n));
    }
    assert(a.outputs =~= b.outputs);
    assert forall|r: u64| #[trigger] a.consumers.contains_key(r) <==> b.consumers.contains_key(
        r,
    ) by {
        assert(crate::multimap::listed(a.consumers, r) == readers(wires, r));
        assert(crate::multimap::listed(b.consumers, r) == readers(wires, r));
    }
    assert forall|r: u64| #[trigger] a.consumers.contains_key(r) implies a.consumers[r]
        == b.consumers[r] by {
        assert(crate::multimap::listed(a.consumers, r) == readers(wires, r));
        assert(crate::multimap::listed(b.consumers, r) == readers(wires, r));
    }
    assert(a.consumers =~= b.consumers);
}

/// Whether no two nodes share a number.
pub open spec fn distinct(wires: Seq<WireSpec>) -> bool {
    forall|i: int, j: int|
        0 <= i < j < wires.len() ==> (#[trigger] wires[i]).id != (#[trigger] wires[j]).id
}

proof fn lemma_writes_push(wires: Seq<WireSpec>, w: WireSpec)
    ensures
        forall|n: u64, r: u64|
            #[trigger] writes(wires.push(w), n, r) <==> writes(wires, n, r) || (n == w.id
                && w.writes.contains(r)),
{
    assert forall|n: u64, r: u64| #[trigger] writes(wires.push(w), n, r) implies writes(
        wires,
        n,
        r,
    ) || (n == w.id && w.writes.contains(r)) by {
        let i = choose|i: int|
            0 <= i < wires.push(w).len() && (#[trigger] wires.push(w)[i]).id == n && wires.push(
                w,
            )[i].writes.contains(r);
        if i < wires.len() {
            assert(wires[i].id == n);
        }
    }
    assert forall|n: u64, r: u64|
        writes(wires, n, r) || (n == w.id && w.writes.contains(r)) implies #[trigger] writes(
        wires.push(w),
        n,
        r,
    ) by {
        if writes(wires, n, r) {
            let i = choose|i: int|
                0 <= i < wires.len() && (#[trigger] wires[i]).id == n && wires[i].writes.contains(
                    r,
                );
            assert(wires.push(w)[i].id == n);
        } else {
            assert(wires.push(w)[wires.len() as int].id == n);
        }
    }
}

/// Whether a map records the writers among `done`, and `id` as the writer of `list`.
spec fn produced(
    producer: Map<u64, u64>,
    done: Seq<WireSpec>,
    id: u64,
    list: Seq<u64>,
) -> bool {
    forall|r: u64, n: u64|
        #![trigger writes(done, n, r)]
        (producer.contains_key(r) && producer[r] == n) <==> (writes(done, n, r) || (n == id
            && list.contains(r)))
}

proof fn lemma_produced_step(
    producer: Map<u64, u64>,
    done: Seq<WireSpec>,
    id: u64,
    list: Seq<u64>,
    j: int,
)
    requires
        0 <= j < list.len(),
        produced(producer, done, id, list.take(j)),
        producer.contains_key(list[j]) ==> producer[list[j]] == id,
    ensures
        produced(producer.insert(list[j], id), done, id, list.take(j + 1)),
{
    let earlier = list.take(j);
    let now = list.take(j + 1);
    assert forall|r: u64, n: u64|
        #![trigger writes(done, n, r)]
        (producer.insert(list[j], id).contains_key(r) && producer.insert(list[j], id)[r] == n)
            <==> (writes(done, n, r) || (n == id && now.contains(r))) by {
        assert(producer.contains_key(r) && producer[r] == n <==> (writes(done, n, r) || (n == id
            && earlier.contains(r))));
        if earlier.contains(r) {
            let k = choose|k: int| 0 <= k < earlier.len() && earlier[k] == r;
            assert(now[k] == r);
        }
        if now.contains(r) && r != list[j] {
            let k = choose|k: int| 0 <= k < now.len() && now[k] == r;
            assert(earlier[k] == r);
        }
        assert(now[j] == list[j]);
    }
}

proof fn lemma_direct_step(before: WiringSpec, done: Seq<WireSpec>, w: WireSpec, after: WiringSpec)
    requires
        direct(before, done),
        forall|m: int| 0 <= m < done.len() ==> (#[trigger] done[m]).id != w.id,
        produced(after.producer, done, w.id, w.writes),
        after.outputs == if w.writes.len() > 0 {
            before.outputs.insert(w.id, w.writes)
        } else {
            before.outputs
        },
        forall|r: u64|
            #[trigger] crate::multimap::listed(after.consumers, r) == crate::multimap::listed(
                before.consumers,
                r,
            ) + readings(w.reads, w.id, r),
        forall|r: u64|
            #[trigger] after.consumers.contains_key(r) ==> crate::multimap::listed(
                after.consumers,
                r,
            ).len() > 0,
    ensures
        direct(after, done.push(w)),
{
    let now = done.push(w);
    assert(now.drop_last() =~= done);
    lemma_writes_push(done, w);
    assert(!before.outputs.contains_key(w.id));
    assert forall|k: int| 0 <= k < now.len() implies crate::multimap::listed(
        after.outputs,
        (#[trigger] now[k]).id,
    ) == now[k].writes by {
        if k < done.len() {
            assert(now[k] == done[k]);
        } else if w.writes.len() == 0 {
            assert(w.writes =~= Seq::empty());
        }
    }
    assert forall|n: u64|
        (forall|k: int| 0 <= k < now.len() ==> (#[trigger] now[k]).id
            != n) implies !#[trigger] after.outputs.contains_key(n) by {
        assert(now[done.len() as int].id != n);
        assert forall|m: int| 0 <= m < done.len() implies (#[trigger] done[m]).id != n by {
            assert(now[m].id != n);
        }
    }
    assert forall|r: u64|
        #[trigger] crate::multimap::listed(after.consumers, r) == readers(now, r) by {
        assert(crate::multimap::listed(before.consumers, r) == readers(done, r));
    }
    assert forall|r: u64| #[trigger] after.consumers.contains_key(r) implies readers(now, r).len()
        > 0 by {
        assert(crate::multimap::listed(after.consumers, r) == readers(now, r));
    }
    assert forall|r: u64, n: u64|
        #[trigger] writes(now, n, r) <==> after.producer.contains_key(r) && after.producer[r]
            == n by {
        assert(writes(now, n, r) <==> writes(done, n, r) || (n == w.id && w.writes.contains(r)));
    }
}

/// Records the direct connections of nodes, unless two of them write the same
/// piece of data.
pub fn connect(wires: &Vec<Wire>) -> (r: Option<Wiring>)
    requires
        distinct(wires_of(wires@)),
    ensures
        match r {
            Some(wiring) => !has_two_writers(wires_of(wires@)) && direct(
                wiring@,
                wires_of(wires@),
            ),
            None => has_two_writers(wires_of(wires@)),
        },
{
    let mut wiring = Wiring {
        producer: HashMap::new(),
        outputs: MultiMap::new(),
        consumers: MultiMap::new(),
    };
    let ghost all = wires_of(wires@);
    assert(direct(wiring@, all.take(0)));
    for i in 0..wires.len()
        invariant
            all == wires_of(wires@),
            distinct(all),
            direct(wiring@, all.take(i as int)),
    {
        let w = &wires[i];
        let ghost done = all.take(i as int);
        let ghost before = wiring@;
        assert(all.take(i + 1) =~= done.push(w@));
        for j in 0..w.writes.len()
            invariant
                all == wires_of(wires@),
                distinct(all),
                i < wires@.len(),
                *w == wires@[i as int],
                done == all.take(i as int),
                direct(before, done),
                wiring.outputs@ == before.outputs,
                wiring.consumers@ == before.consumers,
                produced(wiring.producer@, done, w.id, w.writes@.take(j as int)),
        {
            let r = w.writes[j];
            let ghost earlier = wiring.producer@;
            let existing: Option<u64> = match wiring.producer.get(&r) {
                Some(n) => Some(*n),
                None => None,
            };
            if let Some(n) = existing {
                if n != w.id {
                    proof {
                        assert(writes(done, n, r));
                        let k = choose|k: int|
                            0 <= k < done.len() && (#[trigger] done[k]).id == n
                                && done[k].writes.contains(r);
                        assert(all[k].id == n);
                        assert(writes(all, n, r));
                        assert(all[i as int].id == w.id);
                        assert(w.writes@[j as int] == r);
                        assert(writes(all, w.id, r));
                    }
                    return None;
                }
            }
            wiring.producer.insert(r, w.id);
            proof {
                lemma_produced_step(earlier, done, w.id, w.writes@, j as int);
            }
        }
        assert(w.writes@.take(w.writes@.len() as int) =~= w.writes@);
        let list = copied(&w.writes);
        if w.writes.len() > 0 {
            wiring.outputs.put(w.id, list);
        }
        let ghost consumers = wiring.consumers@;
        let ghost outputs = wiring.outputs@;
        let ghost producer = wiring.producer@;
        for j in 0..w.reads.len()
            invariant
                wiring.outputs@ == outputs,
                wiring.producer@ == producer,
                consumers == before.consumers,
                direct(before, done),
                forall|r: u64|
                    #[trigger] crate::multimap::listed(wiring.consumers@, r)
                        == crate::multimap::listed(consumers, r) + readings(
                        w.reads@.take(j as int),
                        w.id,
                        r,
                    ),
                forall|r: u64|
                    #[trigger] wiring.consumers@.contains_key(r) ==> crate::multimap::listed(
                        wiring.consumers@,
                        r,
                    ).len() > 0,
        {
            let r = w.reads[j];
            let ghost prior = wiring.consumers@;
            wiring.consumers.push(r, w.id);
            proof {
                assert(w.reads@.take(j + 1).drop_last() =~= w.reads@.take(j as int));
                assert(w.reads@.take(j + 1).last() == r);
                assert forall|q: u64|
                    #[trigger] crate::multimap::listed(wiring.consumers@, q)
                        == crate::multimap::listed(consumers, q) + readings(
                        w.reads@.take(j + 1),
                        w.id,
                        q,
                    ) by {
                    assert(crate::multimap::listed(prior, q) == crate::multimap::listed(
                        consumers,
                        q,
                    ) + readings(w.reads@.take(j as int), w.id, q));
                    if q == r {
                        assert(crate::multimap::listed(wiring.consumers@, q)
                            =~= crate::multimap::listed(consumers, q) + readings(
                            w.reads@.take(j + 1),
                            w.id,
                            q,
                        ));
                    }
                }
            }
        }
        proof {
            assert(w.reads@.take(w.reads@.len() as int) =~= w.reads@);
            assert forall|m: int| 0 <= m < done.len() implies (#[trigger] done[m]).id != w.id by {
                assert(all[m].id != all[i as int].id);
            }
            lemma_direct_step(before, done, w@, wiring@);
        }
    }
    assert(all.take(all.len() as int) =~= all);
    proof {
        if has_two_writers(all) {
            let (a, b, r) = choose|a: u64, b: u64, r: u64|
                a != b && #[trigger] writes(all, a, r) && #[trigger] writes(all, b, r);
            assert(wiring@.producer[r] == a && wiring@.producer[r] == b);
        }
    }
    Some(wiring)
}

/// The image that a region lies in.
pub open spec fn region_parent(
    types: Map<u64, vx_enum>,
    images: Map<u64, VxCImage>,
    reference: u64,
) -> Option<u64> {
    if types.contains_key(reference) && types[reference] == VX_TYPE_IMAGE && images.contains_key(
        reference,
    ) && images[reference].roi_offsets@.len() > 0 {
        images[reference].parent
    } else {
        None
    }
}

/// The pyramid that an image is a level of.
pub open spec fn level_pyramid(
    types: Map<u64, vx_enum>,
    levels: Map<u64, (u64, usize)>,
    reference: u64,
) -> Option<u64> {
    if types.contains_key(reference) && types[reference] == VX_TYPE_IMAGE && levels.contains_key(
        reference,
    ) {
        Some(levels[reference].0)
    } else {
        None
    }
}

/// Finds the image that a region lies in.
pub fn find_region_parent(
    refs: &References,
    images: &HashMap<u64, VxCImage>,
    reference: u64,
) -> (r: Option<u64>)
    ensures
        r == region_parent(refs.types@, images@, reference),
{
    match refs.type_of(reference) {
        Some(t) => if t == VX_TYPE_IMAGE {
            match images.get(&reference) {
                Some(image) => if image.roi_offsets.len() > 0 {
                    image.parent
                } else {
                    None
                },
                None => None,
            }
        } else {
            None
        },
        None => None,
    }
}

/// Finds the pyramid that an image is a level of.
pub fn find_level_pyramid(
    refs: &References,
    levels: &HashMap<u64, (u64, usize)>,
    reference: u64,
) -> (r: Option<u64>)
    ensures
        r == level_pyramid(refs.types@, levels@, reference),
{
    match refs.type_of(reference) {
        Some(t) => if t == VX_TYPE_IMAGE {
            match levels.get(&reference) {
                Some(level) => Some(level.0),
                None => None,
            }
        } else {
            None
        },
        None => None,
    }
}

/// The parameters of all nodes, node after node.
pub open spec fn all_refs(wires: Seq<WireSpec>) -> Seq<u64>
    decreases wires.len(),
{
    if wires.len() == 0 {
        Seq::empty()
    } else {
        all_refs(wires.drop_last()) + wires.last().refs
    }
}

/// Each reference with the one it belongs to, in order of first appearance.
pub open spec fn family(list: Seq<u64>, parent: spec_fn(u64) -> Option<u64>) -> Seq<(u64, u64)>
    decreases list.len(),
{
    if list.len() == 0 {
        Seq::empty()
    } else {
        let before = family(list.drop_last(), parent);
        match parent(list.last()) {
            Some(p) => if before.contains((list.last(), p)) {
                before
            } else {
                before.push((list.last(), p))
            },
            None => before,
        }
    }
}

/// Whoever writes `from` writes `to` as well.
pub open spec fn written_through(w: WiringSpec, from: u64, to: u64) -> WiringSpec {
    WiringSpec {
        producer: if w.producer.contains_key(from) {
            w.producer.insert(to, w.producer[from])
        } else {
            w.producer
        },
        outputs: w.outputs.map_values(
            |list: Seq<u64>|
                if list.contains(from) {
                    list.push(to)
                } else {
                    list
                },
        ),
        consumers: w.consumers,
    }
}

/// Whoever reads `from` reads `to` as well.
pub open spec fn read_through(w: WiringSpec, from: u64, to: u64) -> WiringSpec {
    if w.consumers.contains_key(from) {
        WiringSpec {
            consumers: w.consumers.insert(
                to,
                crate::multimap::joined(
                    crate::multimap::listed(w.consumers, to),
                    w.consumers[from],
                ),
            ),
            ..w
        }
    } else {
        w
    }
}

/// The wiring once writers of a region count as writers of its image.
pub open spec fn with_region_writes(w: WiringSpec, pairs: Seq<(u64, u64)>) -> WiringSpec
    decreases pairs.len(),
{
    if pairs.len() == 0 {
        w
    } else {
        written_through(with_region_writes(w, pairs.drop_last()), pairs.last().0, pairs.last().1)
    }
}

/// The wiring once readers of a part count as readers of the whole.
pub open spec fn with_part_reads(w: WiringSpec, pairs: Seq<(u64, u64)>) -> WiringSpec
    decreases pairs.len(),
{
    if pairs.len() == 0 {
        w
    } else {
        read_through(with_part_reads(w, pairs.drop_last()), pairs.last().0, pairs.last().1)
    }
}

/// The wiring once writers of a pyramid count as writers of its levels.
pub open spec fn with_level_writes(w: WiringSpec, pairs: Seq<(u64, u64)>) -> WiringSpec
    decreases pairs.len(),
{
    if pairs.len() == 0 {
        w
    } else {
        written_through(with_level_writes(w, pairs.drop_last()), pairs.last().1, pairs.last().0)
    }
}

/// The wiring once regions and pyramid levels are followed to what they belong to.
pub open spec fn completed(
    w: WiringSpec,
    regions: Seq<(u64, u64)>,
    levels: Seq<(u64, u64)>,
) -> WiringSpec {
    with_part_reads(
        with_level_writes(with_part_reads(with_region_writes(w, regions), regions), levels),
        levels,
    )
}

fn has_pair(list: &Vec<(u64, u64)>, a: u64, b: u64) -> (r: bool)
    ensures
        r == list@.contains((a, b)),
{
    for i in 0..list.len()
        invariant
            forall|j: int| 0 <= j < i ==> list@[j] != (a, b),
    {
        if list[i].0 == a && list[i].1 == b {
            assert(list@[i as int] == (a, b));
            return true;
        }
    }
    false
}

/// Lists the parameters of all nodes, node after node.
pub fn list_refs(wires: &Vec<Wire>) -> (r: Vec<u64>)
    ensures
        r@ == all_refs(wires_of(wires@)),
{
    let ghost all = wires_of(wires@);
    let mut list: Vec<u64> = Vec::new();
    for i in 0..wires.len()
        invariant
            all == wires_of(wires@),
            list@ == all_refs(all.take(i as int)),
    {
        let mut more = copied(&wires[i].refs);
        list.append(&mut more);
        proof {
            assert(all.take(i + 1).drop_last() =~= all.take(i as int));
            assert(all.take(i + 1).last() == wires@[i as int]@);
        }
    }
    assert(all.take(all.len() as int) =~= all);
    list
}

/// Lists the regions among some references with the images they lie in.
pub fn list_regions(list: &Vec<u64>, refs: &References, images: &HashMap<u64, VxCImage>) -> (r: Vec<
    (u64, u64),
>)
    ensures
        r@ == family(list@, |r: u64| region_parent(refs.types@, images@, r)),
{
    let ghost parent = |r: u64| region_parent(refs.types@, images@, r);
    let mut pairs: Vec<(u64, u64)> = Vec::new();
    for i in 0..list.len()
        invariant
            parent == (|r: u64| region_parent(refs.types@, images@, r)),
            pairs@ == family(list@.take(i as int), parent),
    {
        proof {
            assert(list@.take(i + 1).drop_last() =~= list@.take(i as int));
            assert(list@.take(i + 1).last() == list@[i as int]);
        }
        if let Some(p) = find_region_parent(refs, images, list[i]) {
            if !has_pair(&pairs, list[i], p) {
                pairs.push((list[i], p));
            }
        }
    }
    assert(list@.take(list@.len() as int) =~= list@);
    pairs
}

/// Lists the pyramid levels among some references with their pyramids.
pub fn list_levels(
    list: &Vec<u64>,
    refs: &References,
    levels: &HashMap<u64, (u64, usize)>,
) -> (r: Vec<(u64, u64)>)
    ensures
        r@ == family(list@, |r: u64| level_pyramid(refs.types@, levels@, r)),
{
    let ghost parent = |r: u64| level_pyramid(refs.types@, levels@, r);
    let mut pairs: Vec<(u64, u64)> = Vec::new();
    for i in 0..list.len()
        invariant
            parent == (|r: u64| level_pyramid(refs.types@, levels@, r)),
            pairs@ == family(list@.take(i as int), parent),
    {
        proof {
            assert(list@.take(i + 1).drop_last() =~= list@.take(i as int));
            assert(list@.take(i + 1).last() == list@[i as int]);
        }
        if let Some(p) = find_level_pyramid(refs, levels, list[i]) {
            if !has_pair(&pairs, list[i], p) {
                pairs.push((list[i], p));
            }
        }
    }
    assert(list@.take(list@.len() as int) =~= list@);
    pairs
}

impl Wiring {
    /// Counts whoever writes `from` as a writer of `to`.  `ids` lists the nodes.
    pub fn write_through(&mut self, ids: &Vec<u64>, from: u64, to: u64)
        requires
            ids@.no_duplicates(),
            forall|n: u64| #[trigger] old(self)@.outputs.contains_key(n) ==> ids@.contains(n),
        ensures
            final(self)@ == written_through(old(self)@, from, to),
    {
        let node: Option<u64> = match self.producer.get(&from) {
            Some(n) => Some(*n),
            None => None,
        };
        if let Some(n) = node {
            self.producer.insert(to, n);
        }
        let ghost before = old(self)@.outputs;
        let ghost after = written_through(old(self)@, from, to).outputs;
        for i in 0..ids.len()
            invariant
                ids@.no_duplicates(),
                before == old(self)@.outputs,
                after == written_through(old(self)@, from, to).outputs,
                self.consumers == old(self).consumers,
                self.producer@ == written_through(old(self)@, from, to).producer,
                self.outputs@.dom() == before.dom(),
                forall|k: int|
                    0 <= k < ids@.len() && before.contains_key(#[trigger] ids@[k])
                        ==> self.outputs@[ids@[k]] == if k < i {
                        after[ids@[k]]
                    } else {
                        before[ids@[k]]
                    },
        {
            let ghost now = self.outputs@;
            let list = self.outputs.list(ids[i]);
            if contains_value(&list, from) {
                assert(before.contains_key(ids@[i as int]));
                self.outputs.push(ids[i], to);
            }
            proof {
                assert(self.outputs@.dom() =~= before.dom());
                assert forall|k: int|
                    0 <= k < ids@.len() && before.contains_key(
                        #[trigger] ids@[k],
                    ) implies self.outputs@[ids@[k]] == (if k < i + 1 {
                    after[ids@[k]]
                } else {
                    before[ids@[k]]
                }) by {
                    if k != i {
                        assert(self.outputs@[ids@[k]] == now[ids@[k]]);
                    }
                }
            }
        }
        proof {
            assert forall|n: u64| #[trigger] before.contains_key(n) implies self.outputs@[n]
                == after[n] by {
                let k = ids@.index_of(n);
                assert(ids@[k] == n);
            }
            assert(self.outputs@ =~= after);
        }
    }

    /// Counts whoever reads `from` as a reader of `to`.
    pub fn read_through(&mut self, from: u64, to: u64)
        ensures
            final(self)@ == read_through(old(self)@, from, to),
    {
        self.consumers.join(to, from);
    }

    /// Follows regions and pyramid levels to what they belong to.  `ids` lists the
    /// nodes.
    pub fn complete(&mut self, ids: &Vec<u64>, regions: &Vec<(u64, u64)>, levels: &Vec<(u64, u64)>)
        requires
            ids@.no_duplicates(),
            forall|n: u64| #[trigger] old(self)@.outputs.contains_key(n) ==> ids@.contains(n),
        ensures
            final(self)@ == completed(old(self)@, regions@, levels@),
    {
        let ghost w0 = self@;
        for i in 0..regions.len()
            invariant
                self@ == with_region_writes(w0, regions@.take(i as int)),
                ids@.no_duplicates(),
                forall|n: u64| #[trigger] self@.outputs.contains_key(n) ==> ids@.contains(n),
        {
            assert(regions@.take(i + 1).drop_last() =~= regions@.take(i as int));
            self.write_through(ids, regions[i].0, regions[i].1);
        }
        assert(regions@.take(regions@.len() as int) =~= regions@);
        let ghost w1 = self@;
        for i in 0..regions.len()
            invariant
                self@ == with_part_reads(w1, regions@.take(i as int)),
                ids@.no_duplicates(),
                forall|n: u64| #[trigger] self@.outputs.contains_key(n) ==> ids@.contains(n),
        {
            assert(regions@.take(i + 1).drop_last() =~= regions@.take(i as int));
            self.read_through(regions[i].0, regions[i].1);
        }
        assert(regions@.take(regions@.len() as int) =~= regions@);
        let ghost w2 = self@;
        for i in 0..levels.len()
            invariant
                self@ == with_level_writes(w2, levels@.take(i as int)),
                ids@.no_duplicates(),
                forall|n: u64| #[trigger] self@.outputs.contains_key(n) ==> ids@.contains(n),
        {
            assert(levels@.take(i + 1).drop_last() =~= levels@.take(i as int));
            self.write_through(ids, levels[i].1, levels[i].0);
        }
        assert(levels@.take(levels@.len() as int) =~= levels@);
        let ghost w3 = self@;
        for i in 0..levels.len()
            invariant
                self@ == with_part_reads(w3, levels@.take(i as int)),
                ids@.no_duplicates(),
                forall|n: u64| #[trigger] self@.outputs.contains_key(n) ==> ids@.contains(n),
        {
            assert(levels@.take(i + 1).drop_last() =~= levels@.take(i as int));
            self.read_through(levels[i].0, levels[i].1);
        }
        assert(levels@.take(levels@.len() as int) =~= levels@);
    }
}

proof fn lemma_family_contains(list: Seq<u64>, parent: spec_fn(u64) -> Option<u64>, x: u64)
    requires
        list.contains(x),
        parent(x) is Some,
    ensures
        family(list, parent).contains((x, parent(x).unwrap())),
    decreases list.len(),
{
    let before = family(list.drop_last(), parent);
    let pair = (x, parent(x).unwrap());
    if list.last() == x {
        if !before.contains(pair) {
            assert(before.push(pair)[before.len() as int] == pair);
        }
    } else {
        assert(list.drop_last()[list.index_of(x)] == x);
        lemma_family_contains(list.drop_last(), parent, x);
        let k = before.index_of(pair);
        assert(family(list, parent)[k] == pair);
    }
}

proof fn lemma_written_through(w: WiringSpec, from: u64, to: u64, node: u64, x: u64)
    requires
        crate::multimap::listed(w.outputs, node).contains(x),
    ensures
        crate::multimap::listed(written_through(w, from, to).outputs, node).contains(x),
        x == from ==> crate::multimap::listed(
            written_through(w, from, to).outputs,
            node,
        ).contains(to),
{
    let list = w.outputs[node];
    assert(w.outputs.contains_key(node));
    if list.contains(from) {
        let longer = list.push(to);
        assert(longer[list.index_of(x)] == x);
        assert(longer[list.len() as int] == to);
        assert(written_through(w, from, to).outputs[node] == longer);
    }
}

proof fn lemma_region_writes(w: WiringSpec, pairs: Seq<(u64, u64)>, node: u64, x: u64)
    requires
        crate::multimap::listed(w.outputs, node).contains(x),
    ensures
        with_region_writes(w, pairs).consumers == w.consumers,
        crate::multimap::listed(with_region_writes(w, pairs).outputs, node).contains(x),
        forall|p: u64| #[trigger]
            pairs.contains((x, p)) ==> crate::multimap::listed(
                with_region_writes(w, pairs).outputs,
                node,
            ).contains(p),
    decreases pairs.len(),
{
    if pairs.len() > 0 {
        let before = with_region_writes(w, pairs.drop_last());
        let last = pairs.last();
        lemma_region_writes(w, pairs.drop_last(), node, x);
        lemma_written_through(before, last.0, last.1, node, x);
        assert forall|p: u64| #[trigger] pairs.contains((x, p)) implies crate::multimap::listed(
            with_region_writes(w, pairs).outputs,
            node,
        ).contains(p) by {
            if last != (x, p) {
                assert(pairs.drop_last()[pairs.index_of((x, p))] == (x, p));
                assert(pairs.drop_last().contains((x, p)));
                lemma_written_through(before, last.0, last.1, node, p);
            }
        }
    }
}

proof fn lemma_level_writes(w: WiringSpec, pairs: Seq<(u64, u64)>, node: u64, x: u64)
    requires
        crate::multimap::listed(w.outputs, node).contains(x),
    ensures
        with_level_writes(w, pairs).consumers == w.consumers,
        crate::multimap::listed(with_level_writes(w, pairs).outputs, node).contains(x),
    decreases pairs.len(),
{
    if pairs.len() > 0 {
        let before = with_level_writes(w, pairs.drop_last());
        lemma_level_writes(w, pairs.drop_last(), node, x);
        lemma_written_through(before, pairs.last().1, pairs.last().0, node, x);
    }
}

proof fn lemma_read_through(w: WiringSpec, from: u64, to: u64, node: u64, y: u64)
    requires
        crate::multimap::listed(w.consumers, y).contains(node),
    ensures
        crate::multimap::listed(read_through(w, from, to).consumers, y).contains(node),
        y == from ==> crate::multimap::listed(
            read_through(w, from, to).consumers,
            to,
        ).contains(node),
{
    if w.consumers.contains_key(from) {
        crate::multimap::law_join_adds_members(
            crate::multimap::listed(w.consumers, to),
            w.consumers[from],
        );
    }
}

proof fn lemma_part_reads(w: WiringSpec, pairs: Seq<(u64, u64)>, node: u64, y: u64)
    requires
        crate::multimap::listed(w.consumers, y).contains(node),
    ensures
        with_part_reads(w, pairs).outputs == w.outputs,
        crate::multimap::listed(with_part_reads(w, pairs).consumers, y).contains(node),
        forall|p: u64| #[trigger]
            pairs.contains((y, p)) ==> crate::multimap::listed(
                with_part_reads(w, pairs).consumers,
                p,
            ).contains(node),
    decreases pairs.len(),
{
    if pairs.len() > 0 {
        let before = with_part_reads(w, pairs.drop_last());
        let last = pairs.last();
        lemma_part_reads(w, pairs.drop_last(), node, y);
        lemma_read_through(before, last.0, last.1, node, y);
        assert forall|p: u64| #[trigger] pairs.contains((y, p)) implies crate::multimap::listed(
            with_part_reads(w, pairs).consumers,
            p,
        ).contains(node) by {
            if last != (y, p) {
                assert(pairs.drop_last()[pairs.index_of((y, p))] == (y, p));
                assert(pairs.drop_last().contains((y, p)));
                lemma_read_through(before, last.0, last.1, node, p);
            }
        }
    }
}

proof fn lemma_readings_contain(reads: Seq<u64>, id: u64, reference: u64)
    requires
        reads.contains(reference),
    ensures
        readings(reads, id, reference).contains(id),
    decreases reads.len(),
{
    let before = readings(reads.drop_last(), id, reference);
    if reads.last() == reference {
        assert(before.push(id)[before.len() as int] == id);
    } else {
        assert(reads.drop_last()[reads.index_of(reference)] == reference);
        lemma_readings_contain(reads.drop_last(), id, reference);
    }
}

proof fn lemma_readers_contain(wires: Seq<WireSpec>, i: int, reference: u64)
    requires
        0 <= i < wires.len(),
        wires[i].reads.contains(reference),
    ensures
        readers(wires, reference).contains(wires[i].id),
    decreases wires.len(),
{
    let before = readers(wires.drop_last(), reference);
    let more = readings(wires.last().reads, wires.last().id, reference);
    if i == wires.len() - 1 {
        lemma_readings_contain(wires[i].reads, wires[i].id, reference);
        let k = more.index_of(wires[i].id);
        assert((before + more)[before.len() + k] == wires[i].id);
    } else {
        assert(wires.drop_last()[i] == wires[i]);
        lemma_readers_contain(wires.drop_last(), i, reference);
        let k = before.index_of(wires[i].id);
        assert((before + more)[k] == wires[i].id);
    }
}

proof fn lemma_among_all_refs(wires: Seq<WireSpec>, i: int, reference: u64)
    requires
        0 <= i < wires.len(),
        wires[i].refs.contains(reference),
    ensures
        all_refs(wires).contains(reference),
    decreases wires.len(),
{
    let before = all_refs(wires.drop_last());
    let more = wires.last().refs;
    if i == wires.len() - 1 {
        let k = more.index_of(reference);
        assert((before + more)[before.len() + k] == reference);
    } else {
        assert(wires.drop_last()[i] == wires[i]);
        lemma_among_all_refs(wires.drop_last(), i, reference);
        let k = before.index_of(reference);
        assert((before + more)[k] == reference);
    }
}

/// Whether writing `x` shows in `y`: they are the same, one is a region of the other,
/// both are regions of one image, or `y` is a level of the pyramid `x`.
pub open spec fn shows_in(
    x: u64,
    y: u64,
    region: spec_fn(u64) -> Option<u64>,
    level: spec_fn(u64) -> Option<u64>,
) -> bool {
    ||| x == y
    ||| region(y) == Some(x)
    ||| region(x) == Some(y)
    ||| (region(x) is Some && region(x) == region(y))
    ||| level(y) == Some(x)
}

/// Where one node writes what shows in something that another reads, the complete
/// wiring has something that the one writes and the other reads.
pub proof fn lemma_connected(
    d: WiringSpec,
    wires: Seq<WireSpec>,
    region: spec_fn(u64) -> Option<u64>,
    level: spec_fn(u64) -> Option<u64>,
    a: int,
    b: int,
    x: u64,
    y: u64,
) -> (z: u64)
    requires
        direct(d, wires),
        0 <= a < wires.len(),
        0 <= b < wires.len(),
        wires[a].writes.contains(x),
        wires[a].refs.contains(x),
        wires[b].reads.contains(y),
        wires[b].refs.contains(y),
        shows_in(x, y, region, level),
    ensures
        ({
            let w = completed(d, family(all_refs(wires), region), family(all_refs(wires), level));
            &&& crate::multimap::listed(w.outputs, wires[a].id).contains(z)
            &&& crate::multimap::listed(w.consumers, z).contains(wires[b].id)
        }),
{
    let regions = family(all_refs(wires), region);
    let levels = family(all_refs(wires), level);
    let from = wires[a].id;
    let to = wires[b].id;
    let w1 = with_region_writes(d, regions);
    let w2 = with_part_reads(w1, regions);
    let w3 = with_level_writes(w2, levels);
    let w4 = with_part_reads(w3, levels);
    lemma_among_all_refs(wires, a, x);
    lemma_among_all_refs(wires, b, y);
    assert(crate::multimap::listed(d.outputs, from) == wires[a].writes);
    lemma_readers_contain(wires, b, y);
    assert(crate::multimap::listed(d.consumers, y) == readers(wires, y));
    lemma_region_writes(d, regions, from, x);
    lemma_part_reads(w1, regions, to, y);
    lemma_level_writes(w2, levels, from, x);
    lemma_part_reads(w3, levels, to, y);
    if region(x) is Some {
        lemma_family_contains(all_refs(wires), region, x);
        let p = region(x).unwrap();
        assert(crate::multimap::listed(w2.outputs, from).contains(p));
        lemma_level_writes(w2, levels, from, p);
    }
    if region(y) is Some {
        lemma_family_contains(all_refs(wires), region, y);
        let p = region(y).unwrap();
        assert(crate::multimap::listed(w3.consumers, p).contains(to));
        lemma_part_reads(w3, levels, to, p);
    }
    if x == y || region(x) == Some(y) {
        y
    } else if region(y) == Some(x) {
        x
    } else if region(x) is Some && region(x) == region(y) {
        region(x).unwrap()
    } else {
        lemma_family_contains(all_refs(wires), level, y);
        x
    }
}

/// What a node reads and writes is among its parameters.
pub proof fn lemma_wire_refs(
    id: u64,
    params: Seq<Option<u64>>,
    data: spec_fn(u64) -> bool,
    output: spec_fn(int) -> bool,
    reference: u64,
)
    ensures
        wire_of(id, params, data, output).reads.contains(reference) || wire_of(
            id,
            params,
            data,
            output,
        ).writes.contains(reference) ==> wire_of(id, params, data, output).refs.contains(
            reference,
        ),
{
    let any = |i: int, r: u64| true;
    lemma_selected_within(params, |i: int, r: u64| data(r) && !output(i), any, reference);
    lemma_selected_within(params, |i: int, r: u64| data(r) && output(i), any, reference);
}

proof fn lemma_selected_within(
    params: Seq<Option<u64>>,
    keep: spec_fn(int, u64) -> bool,
    any: spec_fn(int, u64) -> bool,
    reference: u64,
)
    requires
        any == (|i: int, r: u64| true),
    ensures
        selected(params, keep).contains(reference) ==> selected(params, any).contains(reference),
    decreases params.len(),
{
    if params.len() > 0 && selected(params, keep).contains(reference) {
        let few = selected(params.drop_last(), keep);
        let many = selected(params.drop_last(), any);
        lemma_selected_within(params.drop_last(), keep, any, reference);
        match params.last() {
            Some(r) => {
                assert(selected(params, any) == many.push(r));
                assert(many.push(r)[many.len() as int] == r);
                if r != reference {
                    let k = selected(params, keep).index_of(reference);
                    assert(few[k] == reference);
                    assert(many.push(r)[many.index_of(reference)] == reference);
                }
            },
            None => {},
        }
    }
}

proof fn lemma_selected(params: Seq<Option<u64>>, keep: spec_fn(int, u64) -> bool, r: u64)
    ensures
        selected(params, keep).contains(r) <==> exists|i: int|
            0 <= i < params.len() && #[trigger] params[i] == Some(r) && keep(i, r),
    decreases params.len(),
{
    if params.len() > 0 {
        let rest = params.drop_last();
        let last = params.len() - 1;
        lemma_selected(rest, keep, r);
        let before = selected(rest, keep);
        let all = selected(params, keep);
        if all.contains(r) {
            let k = choose|k: int| 0 <= k < all.len() && all[k] == r;
            if k < before.len() {
                assert(before[k] == r);
                let i = choose|i: int|
                    0 <= i < rest.len() && #[trigger] rest[i] == Some(r) && keep(i, r);
                assert(params[i] == Some(r));
            } else {
                assert(params[last] == Some(r));
            }
        }
        if exists|i: int| 0 <= i < params.len() && #[trigger] params[i] == Some(r) && keep(i, r) {
            let i = choose|i: int|
                0 <= i < params.len() && #[trigger] params[i] == Some(r) && keep(i, r);
            if i < last {
                assert(rest[i] == Some(r));
                let k = choose|k: int| 0 <= k < before.len() && before[k] == r;
                assert(all[k] == r);
            } else {
                assert(all[before.len() as int] == r);
            }
        }
    }
}

/// A node writes the data that stands at its output positions and reads the data
/// that stands at the others; what carries no data is neither read nor written.
pub proof fn law_positions_say_what_is_written(
    id: u64,
    params: Seq<Option<u64>>,
    data: spec_fn(u64) -> bool,
    output: spec_fn(int) -> bool,
    r: u64,
)
    ensures
        wire_of(id, params, data, output).id == id,
        wire_of(id, params, data, output).writes.contains(r) <==> data(r) && exists|i: int|
            0 <= i < params.len() && #[trigger] params[i] == Some(r) && output(i),
        wire_of(id, params, data, output).reads.contains(r) <==> data(r) && exists|i: int|
            0 <= i < params.len() && #[trigger] params[i] == Some(r) && !output(i),
        wire_of(id, params, data, output).refs.contains(r) <==> params.contains(Some(r)),
{
    let writing = |i: int, r: u64| data(r) && output(i);
    let reading = |i: int, r: u64| data(r) && !output(i);
    let all = |i: int, r: u64| true;
    lemma_selected(params, writing, r);
    lemma_selected(params, reading, r);
    lemma_selected(params, all, r);
    let w = wire_of(id, params, data, output);
    assert(w.writes == selected(params, writing));
    assert(w.reads == selected(params, reading));
    assert(w.refs == selected(params, all));
}

proof fn lemma_readings(reads: Seq<u64>, id: u64, reference: u64)
    ensures
        forall|n: u64| readings(reads, id, reference).contains(n) <==> n == id && reads.contains(
            reference,
        ),
    decreases reads.len(),
{
    if reads.len() > 0 {
        let rest = reads.drop_last();
        lemma_readings(rest, id, reference);
        let before = readings(rest, id, reference);
        let all = readings(reads, id, reference);
        assert forall|n: u64| all.contains(n) <==> n == id && reads.contains(reference) by {
            if all.contains(n) {
                let k = choose|k: int| 0 <= k < all.len() && all[k] == n;
                if k < before.len() {
                    assert(before.contains(before[k]));
                    let j = choose|j: int| 0 <= j < rest.len() && rest[j] == reference;
                    assert(reads[j] == reference);
                } else {
                    assert(reads[reads.len() - 1] == reference);
                }
            }
            if n == id && reads.contains(reference) {
                let j = choose|j: int| 0 <= j < reads.len() && reads[j] == reference;
                if reads.last() == reference {
                    assert(all[before.len() as int] == id);
                } else {
                    assert(rest[j] == reference);
                    assert(before.contains(id));
                }
            }
        }
    }
}

/// The readers of a piece of data are the nodes that read it, and no others.
pub proof fn law_readers_are_those_that_read(wires: Seq<WireSpec>, reference: u64, n: u64)
    ensures
        readers(wires, reference).contains(n) <==> exists|i: int|
            0 <= i < wires.len() && (#[trigger] wires[i]).id == n && wires[i].reads.contains(
                reference,
            ),
    decreases wires.len(),
{
    if wires.len() > 0 {
        let rest = wires.drop_last();
        let last = wires.last();
        law_readers_are_those_that_read(rest, reference, n);
        lemma_readings(last.reads, last.id, reference);
        let before = readers(rest, reference);
        let more = readings(last.reads, last.id, reference);
        let all = readers(wires, reference);
        if all.contains(n) {
            let k = choose|k: int| 0 <= k < all.len() && all[k] == n;
            if k < before.len() {
                assert(before[k] == n);
                let i = choose|i: int|
                    0 <= i < rest.len() && (#[trigger] rest[i]).id == n && rest[i].reads.contains(
                        reference,
                    );
                assert(wires[i] == rest[i]);
            } else {
                assert(more[k - before.len()] == n);
                assert(more.contains(n));
                assert(wires[wires.len() - 1] == last);
            }
        }
        if exists|i: int|
            0 <= i < wires.len() && (#[trigger] wires[i]).id == n && wires[i].reads.contains(
                reference,
            ) {
            let i = choose|i: int|
                0 <= i < wires.len() && (#[trigger] wires[i]).id == n && wires[i].reads.contains(
                    reference,
                );
            if i < rest.len() {
                assert(rest[i] == wires[i]);
                let k = choose|k: int| 0 <= k < before.len() && before[k] == n;
                assert(all[k] == n);
            } else {
                assert(more.contains(n));
                let k = choose|k: int| 0 <= k < more.len() && more[k] == n;
                assert(all[before.len() + k] == n);
            }
        }
    }
}

/// Without regions and pyramid levels, one node feeds another exactly where it
/// writes something that the other reads.
pub proof fn law_writers_feed_readers(w: WiringSpec, wires: Seq<WireSpec>, a: int, b: int)
    requires
        direct(w, wires),
        distinct(wires),
        0 <= a < wires.len(),
        0 <= b < wires.len(),
    ensures
        completed(w, Seq::empty(), Seq::empty()) == w,
        crate::order::feeds(w, wires[a].id, wires[b].id) <==> a != b && exists|r: u64|
            #[trigger] wires[a].writes.contains(r) && wires[b].reads.contains(r),
{
    let from = wires[a].id;
    let to = wires[b].id;
    let list = wires[a].writes;
    assert(crate::multimap::listed(w.outputs, from) == list);
    if crate::order::feeds(w, from, to) {
        let k = choose|k: int|
            0 <= k < list.len() && crate::multimap::listed(
                w.consumers,
                #[trigger] crate::multimap::listed(w.outputs, from)[k],
            ).contains(to);
        let r = list[k];
        assert(crate::multimap::listed(w.consumers, r) == readers(wires, r));
        law_readers_are_those_that_read(wires, r, to);
        let i = choose|i: int|
            0 <= i < wires.len() && (#[trigger] wires[i]).id == to && wires[i].reads.contains(r);
        assert(i == b) by {
            if i < b {
                assert(wires[i].id != wires[b].id);
            } else if b < i {
                assert(wires[b].id != wires[i].id);
            }
        }
        assert(wires[a].writes.contains(r));
    }
    if a != b && exists|r: u64|
        #[trigger] wires[a].writes.contains(r) && wires[b].reads.contains(r) {
        let r = choose|r: u64|
            #[trigger] wires[a].writes.contains(r) && wires[b].reads.contains(r);
        let k = choose|k: int| 0 <= k < list.len() && list[k] == r;
        assert(crate::multimap::listed(w.consumers, r) == readers(wires, r));
        law_readers_are_those_that_read(wires, r, to);
        assert(wires[b].id == to);
        assert(crate::multimap::listed(w.outputs, from)[k] == r);
        if a < b {
            assert(wires[a].id != wires[b].id);
        } else {
            assert(wires[b].id != wires[a].id);
        }
    }
}

/// What is written through counts for whoever wrote the part, and for nobody else;
/// who reads what stays.
pub proof fn law_writing_through(w: WiringSpec, from: u64, to: u64, n: u64, r: u64)
    requires
        w.outputs.contains_key(n),
        from != to,
    ensures
        written_through(w, from, to).consumers == w.consumers,
        written_through(w, from, to).outputs[n].contains(r) <==> w.outputs[n].contains(r) || (r
            == to && w.outputs[n].contains(from)),
        w.producer.contains_key(from) ==> written_through(w, from, to).producer.contains_key(to)
            && written_through(w, from, to).producer[to] == w.producer[from],
        r != to ==> written_through(w, from, to).producer.contains_key(r) == w.producer.contains_key(
            r,
        ) && (w.producer.contains_key(r) ==> written_through(w, from, to).producer[r]
            == w.producer[r]),
{
    let list = w.outputs[n];
    let after = written_through(w, from, to).outputs[n];
    if list.contains(from) {
        assert(after == list.push(to));
        if list.contains(r) {
            let k = choose|k: int| 0 <= k < list.len() && list[k] == r;
            assert(after[k] == r);
        }
        if r == to {
            assert(after[list.len() as int] == to);
        }
        if after.contains(r) && r != to {
            let k = choose|k: int| 0 <= k < after.len() && after[k] == r;
            assert(list[k] == r);
        }
    }
}

/// A region belongs to the image that it was cut from, and a level to its pyramid;
/// only images belong to anything.
pub proof fn law_parts_belong_to_wholes(
    types: Map<u64, vx_enum>,
    images: Map<u64, VxCImage>,
    levels: Map<u64, (u64, usize)>,
    r: u64,
)
    ensures
        types.contains_key(r) && types[r] == VX_TYPE_IMAGE && images.contains_key(r)
            && images[r].roi_offsets@.len() > 0 ==> region_parent(types, images, r)
            == images[r].parent,
        images.contains_key(r) && images[r].roi_offsets@.len() == 0 ==> region_parent(
            types,
            images,
            r,
        ) is None,
        types.contains_key(r) && types[r] == VX_TYPE_IMAGE && levels.contains_key(r)
            ==> level_pyramid(types, levels, r) == Some(levels[r].0),
        types.contains_key(r) && types[r] != VX_TYPE_IMAGE ==> region_parent(types, images, r)
            is None && level_pyramid(types, levels, r) is None,
        !levels.contains_key(r) ==> level_pyramid(types, levels, r) is None,
{
}

} // verus!
