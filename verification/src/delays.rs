//! Delays: rings of objects, and the node parameters that follow them as they age.
use vstd::prelude::*;
use crate::constants::{VX_DELAY_SLOTS, VX_DELAY_TYPE};
use crate::multimap::{MultiMap, contains_value, copied};
use crate::object_arrays::{all_exist, list_existing};
use crate::pairs::PairMap;
use crate::parameters::{set_node_parameter, set_value};
use crate::records::{NodeData, VxCDelay, VxCGraphData, VxCParameter, VxCPyramid};
use crate::refs::References;
use crate::types::{
    VX_ERROR_INVALID_PARAMETERS, VX_ERROR_INVALID_REFERENCE, VX_ERROR_NOT_SUPPORTED, VX_SUCCESS,
    VX_TYPE_DELAY, vx_enum, vx_status,
};
use crate::values::{ENUM_BYTES, SIZE_BYTES, Value, hand_out_exactly};
use std::collections::HashMap;

verus! {

broadcast use vstd::std_specs::hash::group_hash_axioms;

impl VxCDelay {
    /// Whether a delay has slots and its current one is among them.
    pub open spec fn wf(&self) -> bool {
        &&& 0 < self.slot_count <= i32::MAX
        &&& self.current_index < self.slot_count
        &&& self.slots@.len() == self.slot_count
    }
}

/// Whether every delay is sound.
pub open spec fn are_sound(delays: Map<u64, VxCDelay>) -> bool {
    forall|d: u64| #[trigger] delays.contains_key(d) ==> delays[d].wf()
}

/// The place in the ring of the slot with an index: `0` is the current slot, `-1` the
/// one before.
pub open spec fn place_of(d: VxCDelay, index: int) -> int {
    (d.current_index + index) % (d.slot_count as int)
}

/// The object in the slot with an index.
pub open spec fn slot_of(d: VxCDelay, index: int) -> u64 {
    d.slots@[place_of(d, index)]
}

fn find_slot(d: &VxCDelay, index: i32) -> (r: u64)
    requires
        d.wf(),
    ensures
        r == slot_of(*d, index as int),
{
    let count: i64 = d.slot_count as i64;
    let sum: i64 = d.current_index as i64 + index as i64;
    let ghost n = d.slot_count as int;
    let place: i64 = if sum >= 0 {
        sum % count
    } else {
        let back: i64 = (-sum) % count;
        proof {
            let q = (-sum) / n;
            vstd::arithmetic::div_mod::lemma_fundamental_div_mod(-sum, n);
            assert(sum == n * (-q) - back) by (nonlinear_arith)
                requires
                    -sum == n * q + back,
            ;
            if back == 0 {
                assert(n * (-q) == (-q) * n) by (nonlinear_arith);
                vstd::arithmetic::div_mod::lemma_fundamental_div_mod_converse(
                    sum as int,
                    n,
                    -q,
                    0,
                );
            } else {
                assert(sum == (-q - 1) * n + (n - back)) by (nonlinear_arith)
                    requires
                        sum == n * (-q) - back,
                ;
                vstd::arithmetic::div_mod::lemma_fundamental_div_mod_converse(
                    sum as int,
                    n,
                    -q - 1,
                    n - back,
                );
            }
        }
        if back == 0 {
            0
        } else {
            count - back
        }
    };
    assert(0 <= place < n);
    d.slots[place as usize]
}

/// Whether a delay is new: its slots in order, the first one current.
pub open spec fn is_new_delay(
    d: VxCDelay,
    slots: Seq<u64>,
    ref_type: vx_enum,
    context: u64,
) -> bool {
    &&& d.slots@ == slots
    &&& d.slot_count == slots.len()
    &&& d.current_index == 0
    &&& d.ref_type == ref_type
    &&& d.context_id == context
    &&& d.ref_count == 1
}

/// Where the objects of some slots belong: each to the delay, at its place.
pub open spec fn with_slots(
    places: Map<u64, (u64, usize)>,
    delay: u64,
    slots: Seq<u64>,
) -> Map<u64, (u64, usize)>
    decreases slots.len(),
{
    if slots.len() == 0 {
        places
    } else {
        let before = with_slots(places, delay, slots.drop_last());
        if slots.last() != 0 {
            before.insert(slots.last(), (delay, (slots.len() - 1) as usize))
        } else {
            before
        }
    }
}

/// Creates a delay of objects like an exemplar under a fresh handle.  `slots` are the
/// objects that were created for it, `0` for one that could not be.  Answers the
/// handle, or `0` and the objects to release.
pub fn vxCreateDelay(
    delays: &mut HashMap<u64, VxCDelay>,
    refs: &mut References,
    places: &mut HashMap<u64, (u64, usize)>,
    context: u64,
    exemplar: u64,
    ref_type: Option<vx_enum>,
    count: usize,
    slots: Vec<u64>,
    fresh: u64,
) -> (r: (u64, Vec<u64>))
    requires
        fresh != 0,
        count <= i32::MAX,
        are_sound(old(delays)@),
    ensures
        are_sound(final(delays)@),
        ({
            let made = crate::object_arrays::is_sound_request(context, exemplar, ref_type, count)
                && crate::object_arrays::is_complete(slots@, count);
            &&& r.0 == if made {
                fresh
            } else {
                0
            }
            &&& r.1@ == if made {
                Seq::empty()
            } else {
                crate::object_arrays::existing(slots@)
            }
            &&& !made ==> final(delays)@ == old(delays)@ && *final(refs) == *old(refs)
                && final(places)@ == old(places)@
            &&& made ==> {
                &&& final(delays)@.contains_key(fresh)
                &&& final(delays)@.remove(fresh) == old(delays)@.remove(fresh)
                &&& is_new_delay(final(delays)@[fresh], slots@, ref_type.unwrap(), context)
                &&& final(refs).counts@ == old(refs).counts@.insert(fresh, 1)
                &&& final(refs).types@ == old(refs).types@.insert(fresh, VX_TYPE_DELAY)
                &&& final(refs).names@ == old(refs).names@
                &&& final(places)@ == with_slots(old(places)@, fresh, slots@)
            }
        }),
{
    if context != 0 && exemplar != 0 && count != 0 && all_exist(&slots, count) {
        if let Some(t) = ref_type {
            let ghost places0 = places@;
            for i in 0..slots.len()
                invariant
                    places@ == with_slots(places0, fresh, slots@.take(i as int)),
            {
                proof {
                    assert(slots@.take(i + 1).drop_last() =~= slots@.take(i as int));
                    assert(slots@.take(i + 1).last() == slots@[i as int]);
                }
                if slots[i] != 0 {
                    places.insert(slots[i], (fresh, i));
                }
            }
            assert(slots@.take(slots@.len() as int) =~= slots@);
            delays.insert(
                fresh,
                VxCDelay {
                    slots,
                    slot_count: count,
                    current_index: 0,
                    ref_type: t,
                    context_id: context,
                    ref_count: 1,
                },
            );
            refs.register(fresh, VX_TYPE_DELAY);
            proof {
                assert(delays@.remove(fresh) =~= old(delays)@.remove(fresh));
                assert forall|d: u64| #[trigger]
                    delays@.contains_key(d) implies delays@[d].wf() by {
                    if d != fresh {
                        assert(old(delays)@.contains_key(d));
                    }
                }
            }
            return (fresh, Vec::new());
        }
    }
    (0, list_existing(&slots))
}

/// The value of an attribute of a delay.
pub open spec fn delay_attribute(d: VxCDelay, attribute: vx_enum, size: usize) -> Result<
    Value,
    vx_status,
> {
    let error = VX_ERROR_INVALID_PARAMETERS;
    if attribute == VX_DELAY_TYPE {
        crate::values::with_exact_room(size, ENUM_BYTES, Value::Enum(d.ref_type), error)
    } else if attribute == VX_DELAY_SLOTS {
        crate::values::with_exact_room(size, SIZE_BYTES, Value::Size(d.slot_count), error)
    } else {
        Err(VX_ERROR_NOT_SUPPORTED)
    }
}

/// Reads an attribute of a delay.
pub fn vxQueryDelay(
    delays: &HashMap<u64, VxCDelay>,
    delay: u64,
    attribute: vx_enum,
    ptr: u64,
    size: usize,
) -> (r: Result<Value, vx_status>)
    ensures
        r == if delay == 0 {
            Err(VX_ERROR_INVALID_REFERENCE)
        } else if ptr == 0 {
            Err(VX_ERROR_INVALID_PARAMETERS)
        } else if !delays@.contains_key(delay) {
            Err(VX_ERROR_INVALID_REFERENCE)
        } else {
            delay_attribute(delays@[delay], attribute, size)
        },
{
    if delay == 0 {
        return Err(VX_ERROR_INVALID_REFERENCE);
    }
    if ptr == 0 {
        return Err(VX_ERROR_INVALID_PARAMETERS);
    }
    let d = match delays.get(&delay) {
        Some(d) => d,
        None => {
            return Err(VX_ERROR_INVALID_REFERENCE);
        },
    };
    let error: vx_status = VX_ERROR_INVALID_PARAMETERS;
    if attribute == VX_DELAY_TYPE {
        hand_out_exactly(size, ENUM_BYTES, Value::Enum(d.ref_type), error)
    } else if attribute == VX_DELAY_SLOTS {
        hand_out_exactly(size, SIZE_BYTES, Value::Size(d.slot_count), error)
    } else {
        Err(VX_ERROR_NOT_SUPPORTED)
    }
}

/// The object in a slot of a delay, `0` where there is none.
pub open spec fn object_in_slot(delays: Map<u64, VxCDelay>, delay: u64, index: int) -> u64 {
    if delay != 0 && delays.contains_key(delay) {
        slot_of(delays[delay], index)
    } else {
        0
    }
}

/// Fetches the object in a slot of a delay, and records which slot it was asked for.
pub fn vxGetReferenceFromDelay(
    delays: &HashMap<u64, VxCDelay>,
    logical: &mut HashMap<u64, (u64, i32)>,
    delay: u64,
    index: i32,
) -> (r: u64)
    requires
        are_sound(delays@),
    ensures
        r == object_in_slot(delays@, delay, index as int),
        final(logical)@ == if r != 0 {
            old(logical)@.insert(r, (delay, index))
        } else {
            old(logical)@
        },
{
    if delay == 0 {
        return 0;
    }
    let object: u64 = match delays.get(&delay) {
        Some(d) => find_slot(d, index),
        None => 0,
    };
    if object != 0 {
        logical.insert(object, (delay, index));
    }
    object
}

/// Fetches the object in a slot of a delay, the older way.
pub fn vxAccessDelayElement(
    delays: &HashMap<u64, VxCDelay>,
    logical: &mut HashMap<u64, (u64, i32)>,
    delay: u64,
    index: i32,
) -> (r: u64)
    requires
        are_sound(delays@),
    ensures
        r == object_in_slot(delays@, delay, index as int),
        final(logical)@ == if r != 0 {
            old(logical)@.insert(r, (delay, index))
        } else {
            old(logical)@
        },
{
    vxGetReferenceFromDelay(delays, logical, delay, index)
}

/// Gives back an object of a delay, the older way.  Nothing has to be done.
pub fn vxCommitDelayElement(delay: u64, reference: u64) -> (status: vx_status)
    ensures
        status == if delay == 0 {
            VX_ERROR_INVALID_REFERENCE
        } else if reference == 0 {
            VX_ERROR_INVALID_PARAMETERS
        } else {
            VX_SUCCESS
        },
{
    if delay == 0 {
        VX_ERROR_INVALID_REFERENCE
    } else if reference == 0 {
        VX_ERROR_INVALID_PARAMETERS
    } else {
        VX_SUCCESS
    }
}

/// A delay one step older: the current slot becomes the one before.
pub open spec fn aged(d: VxCDelay) -> VxCDelay {
    VxCDelay { current_index: ((d.current_index + 1) % (d.slot_count as int)) as usize, ..d }
}

/// Everything that changes when node parameters follow a delay.
#[verifier::ext_equal]
pub struct Following {
    /// The parameters of each node.
    pub lists: Map<u64, Seq<Option<u64>>>,
    /// How often each reference is held.
    pub counts: Map<u64, usize>,
    /// The recorded parameters.
    pub params: Map<u64, VxCParameter>,
    /// The pyramid and level of each level image.
    pub levels: Map<u64, (u64, usize)>,
}

/// Whether a recorded parameter has a value.
pub open spec fn has_value(map: Map<u64, VxCParameter>, value: u64, id: u64) -> bool {
    map.contains_key(id) && map[id].value == Some(value)
}

/// Whether a recorded parameter is the one with the smallest number of those that
/// have a value.
pub open spec fn is_first_with(map: Map<u64, VxCParameter>, value: u64, id: u64) -> bool {
    has_value(map, value, id) && forall|other: u64| #[trigger]
        has_value(map, value, other) ==> id <= other
}

/// Recorded parameters with one of a value changed to another: of several the one
/// with the smallest number.
pub open spec fn revalued(map: Map<u64, VxCParameter>, from: u64, to: u64) -> Map<
    u64,
    VxCParameter,
> {
    if exists|id: u64| is_first_with(map, from, id) {
        crate::parameters::with_value(
            map,
            choose|id: u64| is_first_with(map, from, id),
            Some(to),
        )
    } else {
        map
    }
}

/// Finds the parameter with the smallest number of those that have a value.
fn find_first_with(params: &HashMap<u64, VxCParameter>, value: u64) -> (r: Option<u64>)
    ensures
        match r {
            Some(id) => is_first_with(params@, value, id),
            None => forall|id: u64| !#[trigger] has_value(params@, value, id),
        },
{
    let mut best: Option<u64> = None;
    for k in it: params.keys()
        invariant
            it.seq().unref().to_set() == params@.dom(),
            match best {
                Some(id) => has_value(params@, value, id) && forall|j: int|
                    0 <= j < it.index() && has_value(params@, value, *#[trigger] it.seq()[j])
                        ==> id <= *it.seq()[j],
                None => forall|j: int|
                    0 <= j < it.index() ==> !has_value(params@, value, *#[trigger] it.seq()[j]),
            },
    {
        let same = match params.get(k) {
            Some(p) => match p.value {
                Some(v) => v == value,
                None => false,
            },
            None => false,
        };
        if same {
            best = match best {
                Some(id) => if id <= *k {
                    Some(id)
                } else {
                    Some(*k)
                },
                None => Some(*k),
            };
        }
    }
    assert forall|id: u64| #[trigger] has_value(params@, value, id) implies (best matches Some(
        b,
    ) && b <= id) by {
        assert(params@.dom().contains(id));
    }
    best
}

fn revalue(params: &mut HashMap<u64, VxCParameter>, from: u64, to: u64)
    ensures
        final(params)@ == revalued(old(params)@, from, to),
{
    if let Some(id) = find_first_with(params, from) {
        assert(is_first_with(params@, from, id));
        set_value(params, id, Some(to));
    }
}

/// A parameter as a reference, `0` where none is set.
pub open spec fn reference_in(value: Option<u64>) -> u64 {
    match value {
        Some(r) => r,
        None => 0,
    }
}

/// Whether a node has a parameter at a position.
pub open spec fn has_parameter(s: Following, node: u64, index: u64) -> bool {
    s.lists.contains_key(node) && index < s.lists[node].len()
}

/// One node parameter follows its delay: it takes the object that is now in its slot,
/// which is held in place of the one before.
pub open spec fn followed(
    s: Following,
    delays: Map<u64, VxCDelay>,
    entry: ((u64, u64), (u64, i32)),
) -> Following {
    let (node, index) = entry.0;
    let object = object_in_slot(delays, entry.1.0, entry.1.1 as int);
    if !has_parameter(s, node, index) || object == 0 {
        s
    } else {
        let before = reference_in(s.lists[node][index as int]);
        if object == before {
            s
        } else {
            Following {
                lists: crate::parameters::with_parameter(
                    s.lists,
                    node,
                    index as int,
                    Some(object),
                ),
                counts: if before != 0 {
                    crate::refs::loosened(crate::refs::retained(s.counts, object), before)
                } else {
                    crate::refs::retained(s.counts, object)
                },
                params: revalued(s.params, before, object),
                levels: s.levels,
            }
        }
    }
}

/// The parameters of one node follow their delays.
pub open spec fn node_followed(
    s: Following,
    delays: Map<u64, VxCDelay>,
    node: u64,
    entries: Seq<((u64, u64), (u64, i32))>,
) -> Following
    decreases entries.len(),
{
    if entries.len() == 0 {
        s
    } else {
        let before = node_followed(s, delays, node, entries.drop_last());
        if entries.last().0.0 == node {
            followed(before, delays, entries.last())
        } else {
            before
        }
    }
}

/// The parameters of some nodes follow their delays.
pub open spec fn all_followed(
    s: Following,
    delays: Map<u64, VxCDelay>,
    nodes: Seq<u64>,
    entries: Seq<((u64, u64), (u64, i32))>,
) -> Following
    decreases nodes.len(),
{
    if nodes.len() == 0 {
        s
    } else {
        node_followed(
            all_followed(s, delays, nodes.drop_last(), entries),
            delays,
            nodes.last(),
            entries,
        )
    }
}

/// The image at a level of a pyramid, `0` where there is none.
pub open spec fn level_image(pyramids: Map<u64, VxCPyramid>, pyramid: u64, level: usize) -> u64 {
    if pyramids.contains_key(pyramid) && level < pyramids[pyramid].num_levels && level
        < pyramids[pyramid].levels@.len() {
        pyramids[pyramid].levels@[level as int]
    } else {
        0
    }
}

/// The pyramid that an image is recorded as a level of, `0` where there is none.
pub open spec fn recorded_pyramid(levels: Map<u64, (u64, usize)>, image: u64) -> u64 {
    if levels.contains_key(image) {
        levels[image].0
    } else {
        0
    }
}

/// One node parameter that is a level of a pyramid follows the pyramid's delay: it
/// takes the same level of the pyramid that is now in the slot.
pub open spec fn level_followed(
    s: Following,
    delays: Map<u64, VxCDelay>,
    pyramids: Map<u64, VxCPyramid>,
    entry: ((u64, u64), (u64, i32, usize)),
) -> Following {
    let (node, index) = entry.0;
    let pyramid = object_in_slot(delays, entry.1.0, entry.1.1 as int);
    let image = level_image(pyramids, pyramid, entry.1.2);
    if !has_parameter(s, node, index) || pyramid == 0 || image == 0 {
        s
    } else {
        let before = reference_in(s.lists[node][index as int]);
        if pyramid == recorded_pyramid(s.levels, before) {
            s
        } else {
            Following {
                lists: crate::parameters::with_parameter(
                    s.lists,
                    node,
                    index as int,
                    Some(image),
                ),
                counts: crate::refs::loosened(crate::refs::retained(s.counts, image), before),
                params: revalued(s.params, before, image),
                levels: s.levels.insert(image, (pyramid, entry.1.2)),
            }
        }
    }
}

/// The pyramid levels among the parameters of one node follow their delays.
pub open spec fn node_levels_followed(
    s: Following,
    delays: Map<u64, VxCDelay>,
    pyramids: Map<u64, VxCPyramid>,
    node: u64,
    entries: Seq<((u64, u64), (u64, i32, usize))>,
) -> Following
    decreases entries.len(),
{
    if entries.len() == 0 {
        s
    } else {
        let before = node_levels_followed(s, delays, pyramids, node, entries.drop_last());
        if entries.last().0.0 == node {
            level_followed(before, delays, pyramids, entries.last())
        } else {
            before
        }
    }
}

/// The pyramid levels among the parameters of some nodes follow their delays.
pub open spec fn all_levels_followed(
    s: Following,
    delays: Map<u64, VxCDelay>,
    pyramids: Map<u64, VxCPyramid>,
    nodes: Seq<u64>,
    entries: Seq<((u64, u64), (u64, i32, usize))>,
) -> Following
    decreases nodes.len(),
{
    if nodes.len() == 0 {
        s
    } else {
        node_levels_followed(
            all_levels_followed(s, delays, pyramids, nodes.drop_last(), entries),
            delays,
            pyramids,
            nodes.last(),
            entries,
        )
    }
}

/// The tables that node parameters follow delays in.
pub struct DelayTables {
    pub delays: HashMap<u64, VxCDelay>,
    pub pyramids: HashMap<u64, VxCPyramid>,
    /// The slot that a node parameter follows.
    pub node_params: PairMap<(u64, i32)>,
    /// The slot and level that a node parameter follows.
    pub node_levels: PairMap<(u64, i32, usize)>,
}

/// The mathematical value of [`DelayTables`].
#[verifier::ext_equal]
pub struct DelaySpec {
    pub delays: Map<u64, VxCDelay>,
    pub pyramids: Map<u64, VxCPyramid>,
    pub node_params: Seq<((u64, u64), (u64, i32))>,
    pub node_levels: Seq<((u64, u64), (u64, i32, usize))>,
}

impl View for DelayTables {
    type V = DelaySpec;

    open spec fn view(&self) -> DelaySpec {
        DelaySpec {
            delays: self.delays@,
            pyramids: self.pyramids@,
            node_params: self.node_params.entries@,
            node_levels: self.node_levels.entries@,
        }
    }
}

/// What following delays changes.
pub struct Followers {
    pub nodes: HashMap<u64, NodeData>,
    pub refs: References,
    pub params: HashMap<u64, VxCParameter>,
    pub levels: HashMap<u64, (u64, usize)>,
}

impl Followers {
    /// The part of the tables that following changes.
    pub open spec fn state(&self) -> Following {
        Following {
            lists: crate::parameters::parameter_lists(self.nodes@),
            counts: self.refs.counts@,
            params: self.params@,
            levels: self.levels@,
        }
    }

    /// Whether two sets of tables agree in everything that following keeps.
    pub open spec fn keeps(&self, other: &Followers) -> bool {
        &&& crate::parameters::same_but_parameters(self.nodes@, other.nodes@)
        &&& self.refs.types@ == other.refs.types@
        &&& self.refs.names@ == other.refs.names@
    }
}

proof fn lemma_keeps_chain(a: Followers, b: Followers, c: Followers)
    requires
        a.keeps(&b),
        b.keeps(&c),
    ensures
        a.keeps(&c),
{
    assert forall|n: u64| #[trigger] a.nodes@.contains_key(n) implies a.nodes@[n] == (NodeData {
        parameters: a.nodes@[n].parameters,
        ..c.nodes@[n]
    }) by {
        assert(b.nodes@.contains_key(n));
    }
}

fn find_parameter_value(
    nodes: &HashMap<u64, NodeData>,
    node: u64,
    index: u64,
) -> (r: Option<u64>)
    ensures
        r == if crate::parameters::parameter_lists(nodes@).contains_key(node) && index
            < crate::parameters::parameter_lists(nodes@)[node].len() {
            Some(reference_in(crate::parameters::parameter_lists(nodes@)[node][index as int]))
        } else {
            None
        },
{
    match nodes.get(&node) {
        Some(n) => if index < n.parameters.len() as u64 {
            match n.parameters[index as usize] {
                Some(r) => Some(r),
                None => Some(0),
            }
        } else {
            None
        },
        None => None,
    }
}

fn find_object(delays: &HashMap<u64, VxCDelay>, delay: u64, index: i32) -> (r: u64)
    requires
        are_sound(delays@),
    ensures
        r == object_in_slot(delays@, delay, index as int),
{
    if delay == 0 {
        return 0;
    }
    match delays.get(&delay) {
        Some(d) => find_slot(d, index),
        None => 0,
    }
}

fn follow(f: &mut Followers, tables: &DelayTables, entry: ((u64, u64), (u64, i32)))
    requires
        are_sound(tables.delays@),
    ensures
        final(f).state() == followed(old(f).state(), tables.delays@, entry),
        final(f).keeps(old(f)),
{
    let (node, index) = entry.0;
    let before = match find_parameter_value(&f.nodes, node, index) {
        Some(b) => b,
        None => {
            return;
        },
    };
    let object = find_object(&tables.delays, entry.1.0, entry.1.1);
    if object == 0 || object == before {
        return;
    }
    f.refs.retain(object);
    if before != 0 {
        f.refs.loosen(before);
    }
    set_node_parameter(&mut f.nodes, node, index, Some(object));
    revalue(&mut f.params, before, object);
}

fn find_level_image(pyramids: &HashMap<u64, VxCPyramid>, pyramid: u64, level: usize) -> (r: u64)
    ensures
        r == level_image(pyramids@, pyramid, level),
{
    match pyramids.get(&pyramid) {
        Some(p) => if level < p.num_levels && level < p.levels.len() {
            p.levels[level]
        } else {
            0
        },
        None => 0,
    }
}

fn follow_level(f: &mut Followers, tables: &DelayTables, entry: ((u64, u64), (u64, i32, usize)))
    requires
        are_sound(tables.delays@),
    ensures
        final(f).state() == level_followed(
            old(f).state(),
            tables.delays@,
            tables.pyramids@,
            entry,
        ),
        final(f).keeps(old(f)),
{
    let (node, index) = entry.0;
    let before = match find_parameter_value(&f.nodes, node, index) {
        Some(b) => b,
        None => {
            return;
        },
    };
    let pyramid = find_object(&tables.delays, entry.1.0, entry.1.1);
    if pyramid == 0 {
        return;
    }
    let recorded: u64 = match f.levels.get(&before) {
        Some(l) => l.0,
        None => 0,
    };
    if pyramid == recorded {
        return;
    }
    let image = find_level_image(&tables.pyramids, pyramid, entry.1.2);
    if image == 0 {
        return;
    }
    f.refs.retain(image);
    f.refs.loosen(before);
    set_node_parameter(&mut f.nodes, node, index, Some(image));
    revalue(&mut f.params, before, image);
    f.levels.insert(image, (pyramid, entry.1.2));
}

/// The parameters of the nodes of a graph once they follow their delays.
pub open spec fn graph_followed(
    s: Following,
    tables: DelaySpec,
    nodes: Seq<u64>,
) -> Following {
    all_levels_followed(
        all_followed(s, tables.delays, nodes, tables.node_params),
        tables.delays,
        tables.pyramids,
        nodes,
        tables.node_levels,
    )
}

/// The nodes of a graph, none where it does not exist.
pub open spec fn nodes_of(graphs: Map<u64, VxCGraphData>, graph: u64) -> Seq<u64> {
    if graphs.contains_key(graph) {
        graphs[graph].nodes@
    } else {
        Seq::empty()
    }
}

/// Makes the parameters of a graph's nodes follow their delays: each takes the object
/// that is now in the slot it was taken from.
pub fn resolve_delay_params_for_graph(
    f: &mut Followers,
    tables: &DelayTables,
    graphs: &HashMap<u64, VxCGraphData>,
    graph_id: u64,
)
    requires
        are_sound(tables.delays@),
    ensures
        final(f).state() == graph_followed(old(f).state(), tables@, nodes_of(graphs@, graph_id)),
        final(f).keeps(old(f)),
{
    let ids: Vec<u64> = match graphs.get(&graph_id) {
        Some(g) => copied(&g.nodes),
        None => Vec::new(),
    };
    let ghost f0 = *f;
    let ghost s0 = f.state();
    let ghost entries = tables.node_params.entries@;
    let count = tables.node_params.entries.len();
    for i in 0..ids.len()
        invariant
            are_sound(tables.delays@),
            entries == tables.node_params.entries@,
            count == entries.len(),
            f.state() == all_followed(s0, tables.delays@, ids@.take(i as int), entries),
            f.keeps(&f0),
    {
        let ghost s1 = f.state();
        proof {
            assert(ids@.take(i + 1).drop_last() =~= ids@.take(i as int));
            assert(ids@.take(i + 1).last() == ids@[i as int]);
        }
        let node = ids[i];
        for j in 0..count
            invariant
                are_sound(tables.delays@),
                entries == tables.node_params.entries@,
                count == entries.len(),
                f.state() == node_followed(s1, tables.delays@, node, entries.take(j as int)),
                f.keeps(&f0),
        {
            let ghost f1 = *f;
            proof {
                assert(entries.take(j + 1).drop_last() =~= entries.take(j as int));
                assert(entries.take(j + 1).last() == entries[j as int]);
            }
            let entry = tables.node_params.entries[j];
            if entry.0.0 == node {
                follow(f, tables, entry);
                proof {
                    lemma_keeps_chain(*f, f1, f0);
                }
            }
        }
        assert(entries.take(entries.len() as int) =~= entries);
    }
    assert(ids@.take(ids@.len() as int) =~= ids@);
    let ghost s2 = f.state();
    let ghost parts = tables.node_levels.entries@;
    let parts_count = tables.node_levels.entries.len();
    for i in 0..ids.len()
        invariant
            are_sound(tables.delays@),
            parts == tables.node_levels.entries@,
            parts_count == parts.len(),
            f.state() == all_levels_followed(
                s2,
                tables.delays@,
                tables.pyramids@,
                ids@.take(i as int),
                parts,
            ),
            f.keeps(&f0),
    {
        let ghost s3 = f.state();
        proof {
            assert(ids@.take(i + 1).drop_last() =~= ids@.take(i as int));
            assert(ids@.take(i + 1).last() == ids@[i as int]);
        }
        let node = ids[i];
        for j in 0..parts_count
            invariant
                are_sound(tables.delays@),
                parts == tables.node_levels.entries@,
                parts_count == parts.len(),
                f.state() == node_levels_followed(
                    s3,
                    tables.delays@,
                    tables.pyramids@,
                    node,
                    parts.take(j as int),
                ),
                f.keeps(&f0),
        {
            let ghost f1 = *f;
            proof {
                assert(parts.take(j + 1).drop_last() =~= parts.take(j as int));
                assert(parts.take(j + 1).last() == parts[j as int]);
            }
            let entry = tables.node_levels.entries[j];
            if entry.0.0 == node {
                follow_level(f, tables, entry);
                proof {
                    lemma_keeps_chain(*f, f1, f0);
                }
            }
        }
        assert(parts.take(parts.len() as int) =~= parts);
    }
}

/// The parameters of the nodes of some graphs once they follow their delays.
pub open spec fn graphs_followed(
    s: Following,
    tables: DelaySpec,
    graphs: Map<u64, VxCGraphData>,
    ids: Seq<u64>,
) -> Following
    decreases ids.len(),
{
    if ids.len() == 0 {
        s
    } else {
        graph_followed(
            graphs_followed(s, tables, graphs, ids.drop_last()),
            tables,
            nodes_of(graphs, ids.last()),
        )
    }
}

/// Delay tables once one delay is one step older.
pub open spec fn with_aged(tables: DelaySpec, delay: u64) -> DelaySpec {
    DelaySpec { delays: tables.delays.insert(delay, aged(tables.delays[delay])), ..tables }
}

/// Ages a delay: the current slot becomes the one before, and the parameters of all
/// nodes follow.  `graph_ids` lists the graphs in the order in which they follow.
pub fn vxAgeDelay(
    tables: &mut DelayTables,
    f: &mut Followers,
    graphs: &HashMap<u64, VxCGraphData>,
    graph_ids: &Vec<u64>,
    delay: u64,
) -> (status: vx_status)
    requires
        are_sound(old(tables).delays@),
    ensures
        are_sound(final(tables).delays@),
        status == if delay == 0 || !old(tables).delays@.contains_key(delay) {
            VX_ERROR_INVALID_REFERENCE
        } else {
            VX_SUCCESS
        },
        final(f).keeps(old(f)),
        status != VX_SUCCESS ==> *final(tables) == *old(tables) && *final(f) == *old(f),
        status == VX_SUCCESS ==> final(tables)@ == with_aged(old(tables)@, delay)
            && final(f).state() == graphs_followed(
            old(f).state(),
            final(tables)@,
            graphs@,
            graph_ids@,
        ),
{
    if delay == 0 || !tables.delays.contains_key(&delay) {
        return VX_ERROR_INVALID_REFERENCE;
    }
    if let Some(mut d) = tables.delays.remove(&delay) {
        let next: usize = d.current_index + 1;
        d.current_index = next % d.slot_count;
        tables.delays.insert(delay, d);
    }
    proof {
        assert(tables.delays@ =~= old(tables).delays@.insert(
            delay,
            aged(old(tables).delays@[delay]),
        ));
        assert forall|d: u64| #[trigger]
            tables.delays@.contains_key(d) implies tables.delays@[d].wf() by {
            assert(old(tables).delays@.contains_key(d));
        }
    }
    let ghost s0 = f.state();
    let ghost f0 = *f;
    for i in 0..graph_ids.len()
        invariant
            are_sound(tables.delays@),
            f.state() == graphs_followed(s0, tables@, graphs@, graph_ids@.take(i as int)),
            f.keeps(&f0),
    {
        let ghost f1 = *f;
        proof {
            assert(graph_ids@.take(i + 1).drop_last() =~= graph_ids@.take(i as int));
            assert(graph_ids@.take(i + 1).last() == graph_ids@[i as int]);
        }
        resolve_delay_params_for_graph(f, tables, graphs, graph_ids[i]);
        proof {
            lemma_keeps_chain(*f, f1, f0);
        }
    }
    assert(graph_ids@.take(graph_ids@.len() as int) =~= graph_ids@);
    VX_SUCCESS
}

/// Whether a delay is held by one holder at most.
pub open spec fn is_last_hold(counts: Map<u64, usize>, delay: u64) -> bool {
    !crate::refs::dropped(counts, delay).contains_key(delay)
}

/// The delays once one hold of a delay is released: the last one takes the delay with
/// it.
pub open spec fn after_release(
    delays: Map<u64, VxCDelay>,
    counts: Map<u64, usize>,
    delay: u64,
) -> Map<u64, VxCDelay> {
    if is_last_hold(counts, delay) {
        delays.remove(delay)
    } else {
        delays
    }
}

/// The objects that are left when one hold of a delay is released: those in its slots,
/// where that was the last hold.
pub open spec fn left_by_release(
    delays: Map<u64, VxCDelay>,
    counts: Map<u64, usize>,
    delay: u64,
) -> Seq<u64> {
    if is_last_hold(counts, delay) && delays.contains_key(delay) {
        crate::object_arrays::existing(delays[delay].slots@)
    } else {
        Seq::empty()
    }
}

/// Releases one hold of a delay.  The last one forgets the delay and answers the
/// objects to release; a delay that others hold stays as it is.
pub fn vxReleaseDelay(
    delays: &mut HashMap<u64, VxCDelay>,
    refs: &mut References,
    place: u64,
    delay: u64,
) -> (r: Result<Vec<u64>, vx_status>)
    requires
        are_sound(old(delays)@),
    ensures
        are_sound(final(delays)@),
        final(refs).types@ == old(refs).types@,
        final(refs).names@ == old(refs).names@,
        place == 0 ==> r == Err::<Vec<u64>, vx_status>(VX_ERROR_INVALID_REFERENCE),
        place == 0 || delay == 0 ==> final(delays)@ == old(delays)@ && final(refs).counts@ == old(
            refs,
        ).counts@,
        place != 0 && delay == 0 ==> (r matches Ok(list) && list@.len() == 0),
        place != 0 && delay != 0 ==> {
            &&& final(refs).counts@ == crate::refs::dropped(old(refs).counts@, delay)
            &&& final(delays)@ == after_release(old(delays)@, old(refs).counts@, delay)
            &&& (r matches Ok(list) && list@ == left_by_release(
                old(delays)@,
                old(refs).counts@,
                delay,
            ))
        },
{
    if place == 0 {
        return Err(VX_ERROR_INVALID_REFERENCE);
    }
    if delay == 0 {
        return Ok(Vec::new());
    }
    if !refs.release(delay) {
        return Ok(Vec::new());
    }
    let gone = delays.remove(&delay);
    proof {
        assert(delays@ =~= old(delays)@.remove(delay));
        assert forall|d: u64| #[trigger] delays@.contains_key(d) implies delays@[d].wf() by {
            assert(old(delays)@.contains_key(d));
        }
    }
    match gone {
        Some(d) => Ok(list_existing(&d.slots)),
        None => Ok(Vec::new()),
    }
}

/// Holding a delay once more and releasing it changes nothing: it stays with all its
/// slots, is held as often as before, and no object is left to release.
pub proof fn law_retain_then_release_delay(
    delays: Map<u64, VxCDelay>,
    counts: Map<u64, usize>,
    delay: u64,
)
    requires
        counts.contains_key(delay),
        0 < counts[delay] < usize::MAX,
    ensures
        ({
            let held = crate::refs::retained(counts, delay);
            &&& crate::refs::dropped(held, delay) == counts
            &&& after_release(delays, held, delay) == delays
            &&& left_by_release(delays, held, delay).len() == 0
        }),
{
    crate::refs::law_retain_then_drop(counts, delay);
}

/// The release of the only hold of a delay leaves every object in its slots, and the
/// delay is gone.
pub proof fn law_last_release_leaves_the_slots(
    delays: Map<u64, VxCDelay>,
    counts: Map<u64, usize>,
    delay: u64,
    i: int,
)
    requires
        delays.contains_key(delay),
        counts.contains_key(delay) ==> counts[delay] <= 1,
        0 <= i < delays[delay].slots@.len(),
        delays[delay].slots@[i] != 0,
    ensures
        !after_release(delays, counts, delay).contains_key(delay),
        left_by_release(delays, counts, delay).contains(delays[delay].slots@[i]),
{
    let slots = delays[delay].slots@;
    crate::object_arrays::lemma_existing_holds(slots, slots[i]);
}

/// The delays registered with each graph once a graph has a delay: it is added where
/// it is not among them.
pub open spec fn with_aging(aging: Map<u64, Seq<u64>>, graph: u64, delay: u64) -> Map<
    u64,
    Seq<u64>,
> {
    let list = crate::multimap::listed(aging, graph);
    if list.contains(delay) {
        aging
    } else {
        aging.insert(graph, list.push(delay))
    }
}

/// Registers a delay to be aged whenever a graph has run.
pub fn vxRegisterAutoAging(aging: &mut MultiMap, graph: u64, delay: u64) -> (status: vx_status)
    ensures
        status == if graph == 0 || delay == 0 {
            VX_ERROR_INVALID_REFERENCE
        } else {
            VX_SUCCESS
        },
        final(aging)@ == if status == VX_SUCCESS {
            with_aging(old(aging)@, graph, delay)
        } else {
            old(aging)@
        },
{
    if graph == 0 || delay == 0 {
        return VX_ERROR_INVALID_REFERENCE;
    }
    let list = aging.list(graph);
    if !contains_value(&list, delay) {
        aging.push(graph, delay);
    }
    VX_SUCCESS
}

/// Delay tables and what follows them, once some delays have aged one after the
/// other.
pub open spec fn all_aged(
    tables: DelaySpec,
    s: Following,
    graphs: Map<u64, VxCGraphData>,
    graph_ids: Seq<u64>,
    list: Seq<u64>,
) -> (DelaySpec, Following)
    decreases list.len(),
{
    if list.len() == 0 {
        (tables, s)
    } else {
        let before = all_aged(tables, s, graphs, graph_ids, list.drop_last());
        let d = list.last();
        if d != 0 && before.0.delays.contains_key(d) {
            let after = with_aged(before.0, d);
            (after, graphs_followed(before.1, after, graphs, graph_ids))
        } else {
            before
        }
    }
}

/// Ages the delays that are registered with a graph.
pub fn auto_age_delays(
    tables: &mut DelayTables,
    f: &mut Followers,
    graphs: &HashMap<u64, VxCGraphData>,
    graph_ids: &Vec<u64>,
    aging: &MultiMap,
    graph_id: u64,
)
    requires
        are_sound(old(tables).delays@),
    ensures
        are_sound(final(tables).delays@),
        (final(tables)@, final(f).state()) == all_aged(
            old(tables)@,
            old(f).state(),
            graphs@,
            graph_ids@,
            crate::multimap::listed(aging@, graph_id),
        ),
        final(f).keeps(old(f)),
{
    let list = aging.list(graph_id);
    let ghost tables0 = tables@;
    let ghost s0 = f.state();
    let ghost f0 = *f;
    for i in 0..list.len()
        invariant
            are_sound(tables.delays@),
            (tables@, f.state()) == all_aged(
                tables0,
                s0,
                graphs@,
                graph_ids@,
                list@.take(i as int),
            ),
            f.keeps(&f0),
    {
        let ghost f1 = *f;
        proof {
            assert(list@.take(i + 1).drop_last() =~= list@.take(i as int));
            assert(list@.take(i + 1).last() == list@[i as int]);
        }
        let _ = vxAgeDelay(tables, f, graphs, graph_ids, list[i]);
        proof {
            lemma_keeps_chain(*f, f1, f0);
        }
    }
    assert(list@.take(list@.len() as int) =~= list@);
}

proof fn lemma_mod_first(a: int, b: int, n: int)
    requires
        n > 0,
    ensures
        (a % n + b) % n == (a + b) % n,
{
    vstd::arithmetic::div_mod::lemma_add_mod_noop(a, b, n);
    vstd::arithmetic::div_mod::lemma_add_mod_noop(a % n, b, n);
    vstd::arithmetic::div_mod::lemma_mod_bound(a, n);
    vstd::arithmetic::div_mod::lemma_small_mod((a % n) as nat, n as nat);
}

/// Once a delay ages, each slot is what the slot after it was: what was current is
/// the one before.
pub proof fn law_aging_shifts_slots(d: VxCDelay, index: int)
    requires
        d.wf(),
    ensures
        aged(d).wf(),
        slot_of(aged(d), index) == slot_of(d, index + 1),
        slot_of(aged(d), -1) == slot_of(d, 0),
{
    let n = d.slot_count as int;
    let c = d.current_index as int;
    assert(((c + 1) % n + index) % n == (c + 1 + index) % n) by {
        lemma_mod_first(c + 1, index, n);
    }
    assert(((c + 1) % n - 1) % n == (c + 1 - 1) % n) by {
        lemma_mod_first(c + 1, -1, n);
    }
    assert(0 <= (c + 1) % n < n) by {
        vstd::arithmetic::div_mod::lemma_mod_bound(c + 1, n);
    }
}

/// A delay that has aged a number of times.
pub open spec fn aged_often(d: VxCDelay, times: nat) -> VxCDelay
    decreases times,
{
    if times == 0 {
        d
    } else {
        aged(aged_often(d, (times - 1) as nat))
    }
}

proof fn lemma_aged_often(d: VxCDelay, times: nat)
    requires
        d.wf(),
    ensures
        aged_often(d, times).wf(),
        aged_often(d, times).current_index == (d.current_index + times) % (d.slot_count as int),
        aged_often(d, times) == (VxCDelay {
            current_index: aged_often(d, times).current_index,
            ..d
        }),
    decreases times,
{
    let n = d.slot_count as int;
    let c = d.current_index as int;
    if times > 0 {
        lemma_aged_often(d, (times - 1) as nat);
        lemma_mod_first(c + times - 1, 1, n);
        vstd::arithmetic::div_mod::lemma_mod_bound(c + times, n);
    } else {
        vstd::arithmetic::div_mod::lemma_small_mod(c as nat, n as nat);
    }
}

/// A delay that ages as often as it has slots is as it was.
pub proof fn law_aging_comes_round(d: VxCDelay)
    requires
        d.wf(),
    ensures
        aged_often(d, d.slot_count as nat) == d,
{
    let n = d.slot_count as int;
    let c = d.current_index as int;
    lemma_aged_often(d, d.slot_count as nat);
    vstd::arithmetic::div_mod::lemma_mod_add_multiples_vanish(c, n);
    vstd::arithmetic::div_mod::lemma_small_mod(c as nat, n as nat);
    assert((c + n) % n == c) by {
        assert(c + n == n + c);
    }
}

/// Registering a delay twice is registering it once.
pub proof fn law_auto_aging_is_idempotent(aging: Map<u64, Seq<u64>>, graph: u64, delay: u64)
    ensures
        crate::multimap::listed(with_aging(aging, graph, delay), graph).contains(delay),
        with_aging(with_aging(aging, graph, delay), graph, delay) == with_aging(
            aging,
            graph,
            delay,
        ),
{
    let list = crate::multimap::listed(aging, graph);
    assert(list.push(delay)[list.len() as int] == delay);
}

proof fn lemma_all_aged(
    tables: DelaySpec,
    s: Following,
    graphs: Map<u64, VxCGraphData>,
    graph_ids: Seq<u64>,
    list: Seq<u64>,
)
    requires
        list.no_duplicates(),
    ensures
        ({
            let after = all_aged(tables, s, graphs, graph_ids, list).0;
            &&& after == (DelaySpec { delays: after.delays, ..tables })
            &&& after.delays.dom() == tables.delays.dom()
            &&& forall|d: u64| #[trigger]
                tables.delays.contains_key(d) ==> after.delays[d] == if d != 0 && list.contains(d) {
                    aged(tables.delays[d])
                } else {
                    tables.delays[d]
                }
        }),
    decreases list.len(),
{
    if list.len() > 0 {
        let rest = list.drop_last();
        let last = list.last();
        lemma_all_aged(tables, s, graphs, graph_ids, rest);
        let before = all_aged(tables, s, graphs, graph_ids, rest).0;
        let after = all_aged(tables, s, graphs, graph_ids, list).0;
        assert(!rest.contains(last));
        assert(after.delays.dom() =~= tables.delays.dom());
        assert forall|d: u64| #[trigger] tables.delays.contains_key(d) implies after.delays[d]
            == if d != 0 && list.contains(d) {
            aged(tables.delays[d])
        } else {
            tables.delays[d]
        } by {
            assert(before.delays.contains_key(d));
            assert(list[list.len() - 1] == last);
            if rest.contains(d) {
                assert(list[rest.index_of(d)] == d);
            }
            if list.contains(d) && d != last {
                assert(rest[list.index_of(d)] == d);
            }
        }
    }
}

/// What is registered once some delays were registered with graphs, one after the
/// other; each pair is a graph and a delay.
pub open spec fn registered(pairs: Seq<(u64, u64)>) -> Map<u64, Seq<u64>>
    decreases pairs.len(),
{
    if pairs.len() == 0 {
        Map::empty()
    } else {
        let before = registered(pairs.drop_last());
        let (graph, delay) = pairs.last();
        if graph == 0 || delay == 0 {
            before
        } else {
            with_aging(before, graph, delay)
        }
    }
}

proof fn lemma_registered(pairs: Seq<(u64, u64)>, graph: u64)
    ensures
        ({
            let list = crate::multimap::listed(registered(pairs), graph);
            &&& list.no_duplicates()
            &&& forall|d: u64| #[trigger]
                list.contains(d) <==> graph != 0 && d != 0 && pairs.contains((graph, d))
        }),
    decreases pairs.len(),
{
    let list = crate::multimap::listed(registered(pairs), graph);
    if pairs.len() > 0 {
        let rest = pairs.drop_last();
        let last = pairs.last();
        lemma_registered(rest, graph);
        let before = crate::multimap::listed(registered(rest), graph);
        assert(pairs[pairs.len() - 1] == last);
        assert(list == before || list == before.push(last.1) && !before.contains(last.1));
        assert forall|d: u64| #[trigger] list.contains(d) <==> graph != 0 && d != 0
            && pairs.contains((graph, d)) by {
            assert(before.contains(d) <==> graph != 0 && d != 0 && rest.contains((graph, d)));
            if rest.contains((graph, d)) {
                assert(pairs[rest.index_of((graph, d))] == (graph, d));
            }
            if pairs.contains((graph, d)) && last != (graph, d) {
                assert(rest[pairs.index_of((graph, d))] == (graph, d));
            }
            if before.contains(d) {
                assert(before.push(last.1)[before.index_of(d)] == d);
            }
            assert(before.push(last.1)[before.len() as int] == last.1);
            if list.contains(d) && list != before && d != last.1 {
                assert(before[list.index_of(d)] == d);
            }
        }
    }
}

/// After a graph has run, each delay that was registered with it, once or more often,
/// has aged exactly once.  Every other delay is as it was, and no delay comes or goes.
pub proof fn law_registered_delays_age_once(
    tables: DelaySpec,
    s: Following,
    graphs: Map<u64, VxCGraphData>,
    graph_ids: Seq<u64>,
    pairs: Seq<(u64, u64)>,
    graph: u64,
    delay: u64,
)
    requires
        tables.delays.contains_key(delay),
    ensures
        ({
            let list = crate::multimap::listed(registered(pairs), graph);
            let after = all_aged(tables, s, graphs, graph_ids, list).0.delays;
            &&& after.dom() == tables.delays.dom()
            &&& after[delay] == if graph != 0 && delay != 0 && pairs.contains((graph, delay)) {
                aged(tables.delays[delay])
            } else {
                tables.delays[delay]
            }
        }),
{
    let list = crate::multimap::listed(registered(pairs), graph);
    lemma_registered(pairs, graph);
    lemma_all_aged(tables, s, graphs, graph_ids, list);
    assert(list.contains(delay) <==> graph != 0 && delay != 0 && pairs.contains((graph, delay)));
}

proof fn lemma_followed(
    s: Following,
    delays: Map<u64, VxCDelay>,
    entry: ((u64, u64), (u64, i32)),
)
    ensures
        ({
            let t = followed(s, delays, entry);
            let object = object_in_slot(delays, entry.1.0, entry.1.1 as int);
            &&& forall|n: u64, i: u64| #[trigger]
                has_parameter(t, n, i) <==> has_parameter(s, n, i)
            &&& forall|n: u64, i: u64|
                (n, i) != entry.0 && #[trigger] has_parameter(s, n, i) ==> t.lists[n][i as int]
                    == s.lists[n][i as int]
            &&& has_parameter(s, entry.0.0, entry.0.1) && object != 0 ==> reference_in(
                t.lists[entry.0.0][entry.0.1 as int],
            ) == object
        }),
{
}

/// Whether a node parameter refers to the object that is in its slot.
pub open spec fn is_current(
    s: Following,
    delays: Map<u64, VxCDelay>,
    entry: ((u64, u64), (u64, i32)),
) -> bool {
    let object = object_in_slot(delays, entry.1.0, entry.1.1 as int);
    has_parameter(s, entry.0.0, entry.0.1) && object != 0 ==> reference_in(
        s.lists[entry.0.0][entry.0.1 as int],
    ) == object
}

proof fn lemma_node_followed(
    s: Following,
    delays: Map<u64, VxCDelay>,
    node: u64,
    entries: Seq<((u64, u64), (u64, i32))>,
)
    requires
        crate::pairs::has_distinct_keys(entries),
    ensures
        ({
            let t = node_followed(s, delays, node, entries);
            &&& forall|n: u64, i: u64| #[trigger]
                has_parameter(t, n, i) <==> has_parameter(s, n, i)
            &&& forall|n: u64, i: u64|
                n != node && #[trigger] has_parameter(s, n, i) ==> t.lists[n][i as int]
                    == s.lists[n][i as int]
            &&& forall|n: u64, i: u64|
                (forall|k: int| 0 <= k < entries.len() ==> (#[trigger] entries[k]).0 != (n, i))
                    && #[trigger] has_parameter(s, n, i) ==> t.lists[n][i as int]
                    == s.lists[n][i as int]
            &&& forall|k: int|
                0 <= k < entries.len() && (#[trigger] entries[k]).0.0 == node ==> is_current(
                    t,
                    delays,
                    entries[k],
                )
        }),
    decreases entries.len(),
{
    if entries.len() > 0 {
        let rest = entries.drop_last();
        let last = entries.last();
        assert forall|a: int, b: int| 0 <= a < b < rest.len() implies (#[trigger] rest[a]).0 != (
        #[trigger] rest[b]).0 by {
            assert(entries[a].0 != entries[b].0);
        }
        lemma_node_followed(s, delays, node, rest);
        let before = node_followed(s, delays, node, rest);
        lemma_followed(before, delays, last);
        let t = node_followed(s, delays, node, entries);
        assert forall|n: u64, i: u64|
            (forall|k: int| 0 <= k < entries.len() ==> (#[trigger] entries[k]).0 != (n, i))
                && #[trigger] has_parameter(s, n, i) implies t.lists[n][i as int]
            == s.lists[n][i as int] by {
            assert(entries[entries.len() - 1].0 != (n, i));
            assert forall|k: int| 0 <= k < rest.len() implies (#[trigger] rest[k]).0 != (n, i) by {
                assert(entries[k].0 != (n, i));
            }
            assert(has_parameter(before, n, i));
        }
        assert forall|n: u64, i: u64|
            n != node && #[trigger] has_parameter(s, n, i) implies t.lists[n][i as int]
            == s.lists[n][i as int] by {
            assert(has_parameter(before, n, i));
        }
        assert forall|k: int| 0 <= k < entries.len() && (#[trigger] entries[k]).0.0 == node
            implies is_current(t, delays, entries[k]) by {
            if k < rest.len() {
                assert(rest[k] == entries[k]);
                assert(is_current(before, delays, rest[k]));
                assert(entries[k].0 != entries[entries.len() - 1].0);
                if has_parameter(t, entries[k].0.0, entries[k].0.1) {
                    assert(has_parameter(before, entries[k].0.0, entries[k].0.1));
                }
            } else {
                assert(entries[k] == last);
                assert(has_parameter(t, last.0.0, last.0.1) == has_parameter(
                    before,
                    last.0.0,
                    last.0.1,
                ));
            }
        }
        assert forall|n: u64, i: u64| #[trigger] has_parameter(t, n, i) <==> has_parameter(
            s,
            n,
            i,
        ) by {
            assert(has_parameter(before, n, i) <==> has_parameter(s, n, i));
        }
    }
}

/// After the parameters of some nodes have followed their delays, each of them refers
/// to the object that is in its slot.
pub proof fn law_parameters_follow_delays(
    s: Following,
    delays: Map<u64, VxCDelay>,
    nodes: Seq<u64>,
    entries: Seq<((u64, u64), (u64, i32))>,
)
    requires
        crate::pairs::has_distinct_keys(entries),
    ensures
        forall|n: u64, i: u64| #[trigger]
            has_parameter(all_followed(s, delays, nodes, entries), n, i) <==> has_parameter(
                s,
                n,
                i,
            ),
        forall|k: int|
            0 <= k < entries.len() && nodes.contains((#[trigger] entries[k]).0.0) ==> is_current(
                all_followed(s, delays, nodes, entries),
                delays,
                entries[k],
            ),
    decreases nodes.len(),
{
    if nodes.len() > 0 {
        let rest = nodes.drop_last();
        law_parameters_follow_delays(s, delays, rest, entries);
        let before = all_followed(s, delays, rest, entries);
        lemma_node_followed(before, delays, nodes.last(), entries);
        let t = all_followed(s, delays, nodes, entries);
        assert forall|k: int|
            0 <= k < entries.len() && nodes.contains((#[trigger] entries[k]).0.0) implies is_current(
            t,
            delays,
            entries[k],
        ) by {
            let node = entries[k].0.0;
            if node != nodes.last() {
                let j = nodes.index_of(node);
                assert(rest[j] == node);
                assert(is_current(before, delays, entries[k]));
                if has_parameter(t, node, entries[k].0.1) {
                    assert(has_parameter(before, node, entries[k].0.1));
                }
            }
        }
        assert forall|n: u64, i: u64| #[trigger] has_parameter(t, n, i) <==> has_parameter(
            s,
            n,
            i,
        ) by {
            assert(has_parameter(before, n, i) <==> has_parameter(s, n, i));
        }
    }
}

/// Whether every image is a level of one pyramid only, and is recorded as a level of
/// that one, if at all.
pub open spec fn levels_have_one_pyramid(
    pyramids: Map<u64, VxCPyramid>,
    levels: Map<u64, (u64, usize)>,
) -> bool {
    &&& forall|p: u64, l: usize, q: u64, m: usize|
        #![trigger level_image(pyramids, p, l), level_image(pyramids, q, m)]
        level_image(pyramids, p, l) != 0 && level_image(pyramids, p, l) == level_image(
            pyramids,
            q,
            m,
        ) ==> p == q
    &&& forall|p: u64, l: usize|
        level_image(pyramids, p, l) != 0 && levels.contains_key(
            #[trigger] level_image(pyramids, p, l),
        ) ==> levels[level_image(pyramids, p, l)].0 == p
}

/// Whether a node parameter that is a level of a pyramid belongs to the pyramid that
/// is in its slot.
pub open spec fn is_level_current(
    s: Following,
    delays: Map<u64, VxCDelay>,
    pyramids: Map<u64, VxCPyramid>,
    entry: ((u64, u64), (u64, i32, usize)),
) -> bool {
    let pyramid = object_in_slot(delays, entry.1.0, entry.1.1 as int);
    has_parameter(s, entry.0.0, entry.0.1) && pyramid != 0 && level_image(
        pyramids,
        pyramid,
        entry.1.2,
    ) != 0 ==> recorded_pyramid(
        s.levels,
        reference_in(s.lists[entry.0.0][entry.0.1 as int]),
    ) == pyramid
}

/// Whether following some levels turned one state into another and kept what is
/// current.
spec fn levels_lead(
    s: Following,
    t: Following,
    tables: DelaySpec,
) -> bool {
    &&& levels_have_one_pyramid(tables.pyramids, t.levels)
    &&& forall|n: u64, i: u64| #[trigger] has_parameter(t, n, i) <==> has_parameter(s, n, i)
    &&& forall|n: u64, i: u64|
        (forall|k: int|
            0 <= k < tables.node_levels.len() ==> (#[trigger] tables.node_levels[k]).0 != (n, i))
            && #[trigger] has_parameter(s, n, i) ==> t.lists[n][i as int] == s.lists[n][i as int]
    &&& forall|k: int|
        0 <= k < tables.node_levels.len() && is_level_current(
            s,
            tables.delays,
            tables.pyramids,
            #[trigger] tables.node_levels[k],
        ) ==> is_level_current(t, tables.delays, tables.pyramids, tables.node_levels[k])
}

proof fn lemma_levels_lead_on(s: Following, t: Following, u: Following, tables: DelaySpec)
    requires
        levels_lead(s, t, tables),
        levels_lead(t, u, tables),
    ensures
        levels_lead(s, u, tables),
{
    assert forall|n: u64, i: u64| #[trigger] has_parameter(u, n, i) <==> has_parameter(s, n, i) by {
        assert(has_parameter(t, n, i) <==> has_parameter(s, n, i));
    }
    assert forall|n: u64, i: u64|
        (forall|k: int|
            0 <= k < tables.node_levels.len() ==> (#[trigger] tables.node_levels[k]).0 != (n, i))
            && #[trigger] has_parameter(s, n, i) implies u.lists[n][i as int]
        == s.lists[n][i as int] by {
        assert(has_parameter(t, n, i));
    }
}

proof fn lemma_level_followed(s: Following, tables: DelaySpec, j: int)
    requires
        levels_have_one_pyramid(tables.pyramids, s.levels),
        crate::pairs::has_distinct_keys(tables.node_levels),
        0 <= j < tables.node_levels.len(),
    ensures
        ({
            let e = tables.node_levels[j];
            let t = level_followed(s, tables.delays, tables.pyramids, e);
            levels_lead(s, t, tables) && is_level_current(t, tables.delays, tables.pyramids, e)
        }),
{
    let e = tables.node_levels[j];
    let t = level_followed(s, tables.delays, tables.pyramids, e);
    let pyramid = object_in_slot(tables.delays, e.1.0, e.1.1 as int);
    let image = level_image(tables.pyramids, pyramid, e.1.2);
    assert forall|x: u64| #[trigger] s.levels.contains_key(x) implies t.levels.contains_key(x)
        && t.levels[x].0 == s.levels[x].0 by {
        if x == image {
            assert(level_image(tables.pyramids, pyramid, e.1.2) == x);
        }
    }
    assert forall|k: int|
        0 <= k < tables.node_levels.len() && is_level_current(
            s,
            tables.delays,
            tables.pyramids,
            #[trigger] tables.node_levels[k],
        ) implies is_level_current(t, tables.delays, tables.pyramids, tables.node_levels[k]) by {
        let other = tables.node_levels[k];
        if k != j {
            assert(other.0 != e.0) by {
                if k < j {
                    assert(tables.node_levels[k].0 != tables.node_levels[j].0);
                } else {
                    assert(tables.node_levels[j].0 != tables.node_levels[k].0);
                }
            }
            if has_parameter(t, other.0.0, other.0.1) {
                assert(has_parameter(s, other.0.0, other.0.1));
                assert(t.lists[other.0.0][other.0.1 as int] == s.lists[other.0.0][other.0.1 as int]);
            }
        }
    }
    assert forall|n: u64, i: u64|
        (forall|k: int|
            0 <= k < tables.node_levels.len() ==> (#[trigger] tables.node_levels[k]).0 != (n, i))
            && #[trigger] has_parameter(s, n, i) implies t.lists[n][i as int]
        == s.lists[n][i as int] by {
        assert(tables.node_levels[j].0 != (n, i));
    }
}

proof fn lemma_node_levels_followed(s: Following, tables: DelaySpec, node: u64, count: int)
    requires
        levels_have_one_pyramid(tables.pyramids, s.levels),
        crate::pairs::has_distinct_keys(tables.node_levels),
        0 <= count <= tables.node_levels.len(),
    ensures
        ({
            let t = node_levels_followed(
                s,
                tables.delays,
                tables.pyramids,
                node,
                tables.node_levels.take(count),
            );
            &&& levels_lead(s, t, tables)
            &&& forall|k: int|
                0 <= k < count && (#[trigger] tables.node_levels[k]).0.0 == node
                    ==> is_level_current(t, tables.delays, tables.pyramids, tables.node_levels[k])
        }),
    decreases count,
{
    if count > 0 {
        let part = tables.node_levels.take(count);
        assert(part.drop_last() =~= tables.node_levels.take(count - 1));
        assert(part.last() == tables.node_levels[count - 1]);
        lemma_node_levels_followed(s, tables, node, count - 1);
        let before = node_levels_followed(
            s,
            tables.delays,
            tables.pyramids,
            node,
            tables.node_levels.take(count - 1),
        );
        if part.last().0.0 == node {
            let t = level_followed(before, tables.delays, tables.pyramids, part.last());
            lemma_level_followed(before, tables, count - 1);
            lemma_levels_lead_on(s, before, t, tables);
        }
    }
}

/// After the pyramid levels among the parameters of some nodes have followed their
/// delays, each of them belongs to the pyramid that is in its slot.
pub proof fn law_levels_follow_delays(s: Following, tables: DelaySpec, nodes: Seq<u64>)
    requires
        levels_have_one_pyramid(tables.pyramids, s.levels),
        crate::pairs::has_distinct_keys(tables.node_levels),
    ensures
        forall|k: int|
            0 <= k < tables.node_levels.len() && nodes.contains(
                (#[trigger] tables.node_levels[k]).0.0,
            ) ==> is_level_current(
                all_levels_followed(
                    s,
                    tables.delays,
                    tables.pyramids,
                    nodes,
                    tables.node_levels,
                ),
                tables.delays,
                tables.pyramids,
                tables.node_levels[k],
            ),
{
    lemma_all_levels_followed(s, tables, nodes);
}

proof fn lemma_all_levels_followed(s: Following, tables: DelaySpec, nodes: Seq<u64>)
    requires
        levels_have_one_pyramid(tables.pyramids, s.levels),
        crate::pairs::has_distinct_keys(tables.node_levels),
    ensures
        ({
            let t = all_levels_followed(
                s,
                tables.delays,
                tables.pyramids,
                nodes,
                tables.node_levels,
            );
            &&& levels_lead(s, t, tables)
            &&& forall|k: int|
                0 <= k < tables.node_levels.len() && nodes.contains(
                    (#[trigger] tables.node_levels[k]).0.0,
                ) ==> is_level_current(t, tables.delays, tables.pyramids, tables.node_levels[k])
        }),
    decreases nodes.len(),
{
    if nodes.len() > 0 {
        let rest = nodes.drop_last();
        lemma_all_levels_followed(s, tables, rest);
        let before = all_levels_followed(
            s,
            tables.delays,
            tables.pyramids,
            rest,
            tables.node_levels,
        );
        let count = tables.node_levels.len() as int;
        assert(tables.node_levels.take(count) =~= tables.node_levels);
        lemma_node_levels_followed(before, tables, nodes.last(), count);
        let t = all_levels_followed(
            s,
            tables.delays,
            tables.pyramids,
            nodes,
            tables.node_levels,
        );
        lemma_levels_lead_on(s, before, t, tables);
        assert forall|k: int|
            0 <= k < tables.node_levels.len() && nodes.contains(
                (#[trigger] tables.node_levels[k]).0.0,
            ) implies is_level_current(
            t,
            tables.delays,
            tables.pyramids,
            tables.node_levels[k],
        ) by {
            let node = tables.node_levels[k].0.0;
            if node != nodes.last() {
                assert(rest[nodes.index_of(node)] == node);
            }
        }
    }
}

proof fn lemma_current_node_stays(
    s: Following,
    delays: Map<u64, VxCDelay>,
    node: u64,
    entries: Seq<((u64, u64), (u64, i32))>,
)
    requires
        forall|k: int|
            0 <= k < entries.len() && (#[trigger] entries[k]).0.0 == node ==> is_current(
                s,
                delays,
                entries[k],
            ),
    ensures
        node_followed(s, delays, node, entries) == s,
    decreases entries.len(),
{
    if entries.len() > 0 {
        let rest = entries.drop_last();
        assert forall|k: int| 0 <= k < rest.len() && (#[trigger] rest[k]).0.0 == node implies
            is_current(s, delays, rest[k]) by {
            assert(rest[k] == entries[k]);
        }
        lemma_current_node_stays(s, delays, node, rest);
        assert(entries.last() == entries[entries.len() - 1]);
    }
}

proof fn lemma_current_stays(
    s: Following,
    delays: Map<u64, VxCDelay>,
    nodes: Seq<u64>,
    entries: Seq<((u64, u64), (u64, i32))>,
)
    requires
        forall|k: int|
            0 <= k < entries.len() && nodes.contains((#[trigger] entries[k]).0.0) ==> is_current(
                s,
                delays,
                entries[k],
            ),
    ensures
        all_followed(s, delays, nodes, entries) == s,
    decreases nodes.len(),
{
    if nodes.len() > 0 {
        let rest = nodes.drop_last();
        assert forall|k: int|
            0 <= k < entries.len() && rest.contains((#[trigger] entries[k]).0.0) implies is_current(
            s,
            delays,
            entries[k],
        ) by {
            assert(nodes[rest.index_of(entries[k].0.0)] == entries[k].0.0);
        }
        lemma_current_stays(s, delays, rest, entries);
        assert(nodes.contains(nodes.last())) by {
            assert(nodes[nodes.len() - 1] == nodes.last());
        }
        lemma_current_node_stays(s, delays, nodes.last(), entries);
    }
}

proof fn lemma_current_node_levels_stay(
    s: Following,
    delays: Map<u64, VxCDelay>,
    pyramids: Map<u64, VxCPyramid>,
    node: u64,
    entries: Seq<((u64, u64), (u64, i32, usize))>,
)
    requires
        forall|k: int|
            0 <= k < entries.len() && (#[trigger] entries[k]).0.0 == node ==> is_level_current(
                s,
                delays,
                pyramids,
                entries[k],
            ),
    ensures
        node_levels_followed(s, delays, pyramids, node, entries) == s,
    decreases entries.len(),
{
    if entries.len() > 0 {
        let rest = entries.drop_last();
        assert forall|k: int| 0 <= k < rest.len() && (#[trigger] rest[k]).0.0 == node implies
            is_level_current(s, delays, pyramids, rest[k]) by {
            assert(rest[k] == entries[k]);
        }
        lemma_current_node_levels_stay(s, delays, pyramids, node, rest);
        assert(entries.last() == entries[entries.len() - 1]);
    }
}

proof fn lemma_current_levels_stay(
    s: Following,
    delays: Map<u64, VxCDelay>,
    pyramids: Map<u64, VxCPyramid>,
    nodes: Seq<u64>,
    entries: Seq<((u64, u64), (u64, i32, usize))>,
)
    requires
        forall|k: int|
            0 <= k < entries.len() && nodes.contains((#[trigger] entries[k]).0.0)
                ==> is_level_current(s, delays, pyramids, entries[k]),
    ensures
        all_levels_followed(s, delays, pyramids, nodes, entries) == s,
    decreases nodes.len(),
{
    if nodes.len() > 0 {
        let rest = nodes.drop_last();
        assert forall|k: int|
            0 <= k < entries.len() && rest.contains((#[trigger] entries[k]).0.0) implies
            is_level_current(s, delays, pyramids, entries[k]) by {
            assert(nodes[rest.index_of(entries[k].0.0)] == entries[k].0.0);
        }
        lemma_current_levels_stay(s, delays, pyramids, rest, entries);
        assert(nodes.contains(nodes.last())) by {
            assert(nodes[nodes.len() - 1] == nodes.last());
        }
        lemma_current_node_levels_stay(s, delays, pyramids, nodes.last(), entries);
    }
}

proof fn lemma_following_keeps_levels(
    s: Following,
    delays: Map<u64, VxCDelay>,
    nodes: Seq<u64>,
    entries: Seq<((u64, u64), (u64, i32))>,
)
    ensures
        all_followed(s, delays, nodes, entries).levels == s.levels,
    decreases nodes.len(),
{
    if nodes.len() > 0 {
        lemma_following_keeps_levels(s, delays, nodes.drop_last(), entries);
        lemma_node_following_keeps_levels(
            all_followed(s, delays, nodes.drop_last(), entries),
            delays,
            nodes.last(),
            entries,
        );
    }
}

proof fn lemma_node_following_keeps_levels(
    s: Following,
    delays: Map<u64, VxCDelay>,
    node: u64,
    entries: Seq<((u64, u64), (u64, i32))>,
)
    ensures
        node_followed(s, delays, node, entries).levels == s.levels,
    decreases entries.len(),
{
    if entries.len() > 0 {
        lemma_node_following_keeps_levels(s, delays, node, entries.drop_last());
    }
}

/// Once the parameters of a graph's nodes have followed their delays, each one that
/// follows a slot and not a level refers to the object in its slot, and following
/// again changes nothing: no parameter, no count, no recorded value and no recorded
/// level.
pub proof fn law_following_again_changes_nothing(s: Following, tables: DelaySpec, nodes: Seq<u64>)
    requires
        crate::pairs::has_distinct_keys(tables.node_params),
        crate::pairs::has_distinct_keys(tables.node_levels),
        forall|j: int, k: int|
            0 <= j < tables.node_params.len() && 0 <= k < tables.node_levels.len() ==> (
            #[trigger] tables.node_params[j]).0 != (#[trigger] tables.node_levels[k]).0,
        levels_have_one_pyramid(tables.pyramids, s.levels),
    ensures
        forall|k: int|
            0 <= k < tables.node_params.len() && nodes.contains(
                (#[trigger] tables.node_params[k]).0.0,
            ) ==> is_current(
                graph_followed(s, tables, nodes),
                tables.delays,
                tables.node_params[k],
            ),
        graph_followed(graph_followed(s, tables, nodes), tables, nodes) == graph_followed(
            s,
            tables,
            nodes,
        ),
{
    let t = all_followed(s, tables.delays, nodes, tables.node_params);
    let u = graph_followed(s, tables, nodes);
    law_parameters_follow_delays(s, tables.delays, nodes, tables.node_params);
    lemma_following_keeps_levels(s, tables.delays, nodes, tables.node_params);
    lemma_all_levels_followed(t, tables, nodes);
    assert forall|k: int|
        0 <= k < tables.node_params.len() && nodes.contains(
            (#[trigger] tables.node_params[k]).0.0,
        ) implies is_current(u, tables.delays, tables.node_params[k]) by {
        let at = tables.node_params[k].0;
        assert(is_current(t, tables.delays, tables.node_params[k]));
        if has_parameter(u, at.0, at.1) {
            assert(has_parameter(t, at.0, at.1));
            assert forall|j: int| 0 <= j < tables.node_levels.len() implies (
            #[trigger] tables.node_levels[j]).0 != (at.0, at.1) by {
                assert(tables.node_params[k].0 != tables.node_levels[j].0);
            }
        }
    }
    lemma_current_stays(u, tables.delays, nodes, tables.node_params);
    lemma_current_levels_stay(u, tables.delays, tables.pyramids, nodes, tables.node_levels);
}

/// In a new delay the slots stand in the order of its objects: zero is the first,
/// and the numbers below zero count back from the last.
pub proof fn law_slots_stand_in_order(d: VxCDelay, index: int)
    requires
        d.wf(),
        d.current_index == 0,
    ensures
        0 <= index < d.slot_count ==> slot_of(d, index) == d.slots@[index],
        0 < index <= d.slot_count ==> slot_of(d, -index) == d.slots@[d.slot_count - index],
{
    let n = d.slot_count as int;
    if 0 <= index < n {
        vstd::arithmetic::div_mod::lemma_small_mod(index as nat, n as nat);
    }
    if 0 < index <= n {
        vstd::arithmetic::div_mod::lemma_fundamental_div_mod_converse(-index, n, -1, n - index);
    }
}

/// What can be asked of a delay, in exactly the room for the answer: the type of its
/// objects and how many slots it has.
pub proof fn law_delay_answers(d: VxCDelay, size: usize)
    ensures
        delay_attribute(d, VX_DELAY_TYPE, 4) == Ok::<Value, vx_status>(Value::Enum(d.ref_type)),
        delay_attribute(d, VX_DELAY_SLOTS, 8) == Ok::<Value, vx_status>(Value::Size(d.slot_count)),
        size != 4 ==> delay_attribute(d, VX_DELAY_TYPE, size) is Err,
        size != 8 ==> delay_attribute(d, VX_DELAY_SLOTS, size) is Err,
{
}

/// Each object of a delay is known to belong to it, at its own place, and nothing
/// that was known of other objects is lost.
pub proof fn law_objects_know_their_slot(
    places: Map<u64, (u64, usize)>,
    delay: u64,
    slots: Seq<u64>,
    other: u64,
)
    requires
        slots.len() <= usize::MAX,
        forall|i: int, j: int|
            0 <= i < j < slots.len() ==> #[trigger] slots[i] != #[trigger] slots[j],
    ensures
        forall|i: int|
            0 <= i < slots.len() && (#[trigger] slots[i]) != 0 ==> with_slots(places, delay, slots)
                .contains_key(slots[i]) && with_slots(places, delay, slots)[slots[i]] == (
                delay,
                i as usize,
            ),
        !slots.contains(other) ==> with_slots(places, delay, slots).contains_key(other)
            == places.contains_key(other) && (places.contains_key(other) ==> with_slots(
            places,
            delay,
            slots,
        )[other] == places[other]),
    decreases slots.len(),
{
    if slots.len() > 0 {
        let rest = slots.drop_last();
        assert forall|i: int, j: int| 0 <= i < j < rest.len() implies #[trigger] rest[i]
            != #[trigger] rest[j] by {
            assert(slots[i] != slots[j]);
        }
        law_objects_know_their_slot(places, delay, rest, other);
        let before = with_slots(places, delay, rest);
        let after = with_slots(places, delay, slots);
        assert forall|i: int| 0 <= i < slots.len() && (#[trigger] slots[i]) != 0 implies after
            .contains_key(slots[i]) && after[slots[i]] == (delay, i as usize) by {
            if i < rest.len() {
                assert(rest[i] == slots[i]);
                assert(slots[i] != slots[slots.len() - 1]);
            }
        }
        if !slots.contains(other) {
            assert(slots[slots.len() - 1] != other);
            if rest.contains(other) {
                let k = choose|k: int| 0 <= k < rest.len() && rest[k] == other;
                assert(slots[k] == other);
            }
        }
    }
}

/// Aging changes which slot of a delay is the current one, and nothing else of it.
pub proof fn law_aging_moves_the_current_slot(d: VxCDelay)
    requires
        d.wf(),
    ensures
        aged(d).slots == d.slots,
        aged(d).slot_count == d.slot_count,
        aged(d).ref_type == d.ref_type,
        d.current_index + 1 < d.slot_count ==> aged(d).current_index == d.current_index + 1,
        d.current_index + 1 == d.slot_count ==> aged(d).current_index == 0,
        aged(d).wf(),
{
    let n = d.slot_count as int;
    if d.current_index + 1 < n {
        vstd::arithmetic::div_mod::lemma_small_mod((d.current_index + 1) as nat, n as nat);
    } else {
        vstd::arithmetic::div_mod::lemma_mod_self_0(n);
    }
}

/// A parameter that follows takes over one hold: the object that it takes is held
/// once more, the one that it had once less.
pub proof fn law_following_moves_one_hold(
    s: Following,
    delays: Map<u64, VxCDelay>,
    node: u64,
    index: u64,
    delay: u64,
    slot: i32,
    before: u64,
)
    requires
        has_parameter(s, node, index),
        s.lists[node][index as int] == Some(before),
        before != 0,
        object_in_slot(delays, delay, slot as int) != 0,
        object_in_slot(delays, delay, slot as int) != before,
        s.counts.contains_key(before),
        s.counts[before] > 1,
        s.counts.contains_key(object_in_slot(delays, delay, slot as int)),
        s.counts[object_in_slot(delays, delay, slot as int)] < usize::MAX,
    ensures
        ({
            let object = object_in_slot(delays, delay, slot as int);
            let after = followed(s, delays, ((node, index), (delay, slot)));
            &&& after.lists[node][index as int] == Some(object)
            &&& after.counts[object] == s.counts[object] + 1
            &&& after.counts[before] == s.counts[before] - 1
            &&& after.levels == s.levels
        }),
{
}

/// A new delay has its slots in their order, starts at the first, and is held once.
pub proof fn law_new_delays(d: VxCDelay, slots: Seq<u64>, ref_type: vx_enum, context: u64)
    requires
        is_new_delay(d, slots, ref_type, context),
    ensures
        d.slots@ == slots,
        d.slot_count == slots.len(),
        d.current_index == 0,
        d.ref_type == ref_type,
        d.context_id == context,
        d.ref_count == 1,
{
}

/// What is given back to a delay must be something, and the delay must be there.
pub proof fn law_elements_are_given_back(delay: u64, reference: u64, status: vx_status)
    requires
        call_ensures(vxCommitDelayElement, (delay, reference), status),
    ensures
        status == VX_SUCCESS <==> delay != 0 && reference != 0,
        delay == 0 ==> status == VX_ERROR_INVALID_REFERENCE,
        delay != 0 && reference == 0 ==> status == VX_ERROR_INVALID_PARAMETERS,
{
}

/// The image of a level is the one that the pyramid has at that level, and null where
/// there is no such level; the pyramid of an image is the one that was recorded.
pub proof fn law_levels_of_pyramids(
    pyramids: Map<u64, VxCPyramid>,
    levels: Map<u64, (u64, usize)>,
    pyramid: u64,
    level: usize,
    image: u64,
)
    ensures
        pyramids.contains_key(pyramid) && level < pyramids[pyramid].num_levels && level
            < pyramids[pyramid].levels@.len() ==> level_image(pyramids, pyramid, level)
            == pyramids[pyramid].levels@[level as int],
        !pyramids.contains_key(pyramid) ==> level_image(pyramids, pyramid, level) == 0,
        pyramids.contains_key(pyramid) && level >= pyramids[pyramid].num_levels ==> level_image(
            pyramids,
            pyramid,
            level,
        ) == 0,
        levels.contains_key(image) ==> recorded_pyramid(levels, image) == levels[image].0,
        !levels.contains_key(image) ==> recorded_pyramid(levels, image) == 0,
{
}

/// Graphs follow their delays one after the other, each with its own nodes; an
/// unknown graph has none.
pub proof fn law_graphs_follow_in_order(
    s: Following,
    tables: DelaySpec,
    graphs: Map<u64, VxCGraphData>,
    ids: Seq<u64>,
    graph: u64,
)
    ensures
        graphs_followed(s, tables, graphs, Seq::empty()) == s,
        graphs.contains_key(graph) ==> graphs_followed(s, tables, graphs, ids.push(graph))
            == graph_followed(
            graphs_followed(s, tables, graphs, ids),
            tables,
            graphs[graph].nodes@,
        ),
        !graphs.contains_key(graph) ==> graphs_followed(s, tables, graphs, ids.push(graph))
            == graph_followed(graphs_followed(s, tables, graphs, ids), tables, Seq::empty()),
{
    assert(ids.push(graph).drop_last() =~= ids);
}

/// Of the parameters with a value the first is the one with the smallest number, and
/// there is no other first.
pub proof fn law_first_parameter_with_a_value(
    map: Map<u64, VxCParameter>,
    value: u64,
    id: u64,
    other: u64,
)
    ensures
        is_first_with(map, value, id) && is_first_with(map, value, other) ==> id == other,
        is_first_with(map, value, id) && map.contains_key(other) && map[other].value == Some(value)
            ==> id <= other,
        map.contains_key(id) && map[id].value == Some(value) && (forall|k: u64|
            #[trigger] map.contains_key(k) && k != id ==> map[k].value != Some(value))
            ==> is_first_with(map, value, id),
{
    if is_first_with(map, value, id) && map.contains_key(other) && map[other].value == Some(value) {
        assert(has_value(map, value, other));
    }
    if is_first_with(map, value, id) && is_first_with(map, value, other) {
        assert(has_value(map, value, id) && has_value(map, value, other));
    }
}

} // verus!
