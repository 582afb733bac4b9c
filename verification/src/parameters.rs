//! Parameters of nodes and graphs, and what they are bound to.
use vstd::prelude::*;
use crate::pairs::PairMap;
use crate::records::{NodeData, NodeParamBinding, VxCGraphData, VxCParameter};
use crate::refs::References;
use crate::types::{
    VX_ERROR_INVALID_PARAMETERS, VX_ERROR_INVALID_REFERENCE, VX_INPUT, VX_SUCCESS,
    VX_TYPE_PARAMETER, vx_status,
};
use std::collections::HashMap;

verus! {

broadcast use vstd::std_specs::hash::group_hash_axioms;

/// Parameters where one has another value.
pub open spec fn with_value(
    map: Map<u64, VxCParameter>,
    id: u64,
    value: Option<u64>,
) -> Map<u64, VxCParameter> {
    map.insert(id, VxCParameter { value, ..map[id] })
}

/// The value of the parameter with a number, where there is one and it has one.
pub open spec fn value_of(map: Map<u64, VxCParameter>, id: u64) -> Option<u64> {
    if map.contains_key(id) {
        map[id].value
    } else {
        None
    }
}

/// Sets the value of a parameter that exists.
pub fn set_value(params: &mut HashMap<u64, VxCParameter>, id: u64, value: Option<u64>)
    requires
        old(params)@.contains_key(id),
    ensures
        final(params)@ == with_value(old(params)@, id, value),
{
    if let Some(mut p) = params.remove(&id) {
        p.value = value;
        params.insert(id, p);
    }
    assert(params@ =~= with_value(old(params)@, id, value));
}

/// Reads the value of a parameter.
pub fn get_parameter_value(params: &HashMap<u64, VxCParameter>, param_id: u64) -> (r: Option<u64>)
    ensures
        r == value_of(params@, param_id),
{
    match params.get(&param_id) {
        Some(p) => p.value,
        None => None,
    }
}

/// Finds whether a parameter exists.
pub fn parameter_exists(params: &HashMap<u64, VxCParameter>, param_id: u64) -> (r: bool)
    ensures
        r == params@.contains_key(param_id),
{
    params.contains_key(&param_id)
}

/// Forgets a parameter and everything recorded of its reference.
pub fn remove_parameter(
    params: &mut HashMap<u64, VxCParameter>,
    refs: &mut References,
    param_id: u64,
)
    ensures
        final(params)@ == old(params)@.remove(param_id),
        final(refs).types@ == old(refs).types@.remove(param_id),
        final(refs).counts@ == old(refs).counts@.remove(param_id),
        final(refs).names@ == old(refs).names@.remove(param_id),
{
    params.remove(&param_id);
    refs.unregister(param_id);
    refs.names.remove(&param_id);
}

/// A parameter of a node as it is first recorded.
pub open spec fn new_parameter(id: u64, index: u32, value: Option<u64>, node_id: u64) -> VxCParameter {
    VxCParameter {
        id,
        node_id,
        index,
        direction: VX_INPUT,
        data_type: 0,
        ref_count: 1,
        value,
    }
}

/// Parameters once one of them has a value: an existing one keeps everything else.
pub open spec fn updated(
    map: Map<u64, VxCParameter>,
    id: u64,
    index: u32,
    value: Option<u64>,
    node_id: u64,
) -> Map<u64, VxCParameter> {
    if map.contains_key(id) {
        with_value(map, id, value)
    } else {
        map.insert(id, new_parameter(id, index, value, node_id))
    }
}

fn update(
    params: &mut HashMap<u64, VxCParameter>,
    id: u64,
    index: u32,
    value: Option<u64>,
    node_id: u64,
) -> (existed: bool)
    ensures
        existed == old(params)@.contains_key(id),
        final(params)@ == updated(old(params)@, id, index, value, node_id),
{
    if params.contains_key(&id) {
        set_value(params, id, value);
        return true;
    }
    params.insert(
        id,
        VxCParameter {
            id,
            node_id,
            index,
            direction: VX_INPUT,
            data_type: 0,
            ref_count: 1,
            value,
        },
    );
    false
}

/// Records the value of a parameter of a node.  A parameter that is recorded already
/// keeps its node; a new one gets its reference type.
pub fn create_or_update_parameter_with_node(
    params: &mut HashMap<u64, VxCParameter>,
    refs: &mut References,
    param_id: u64,
    index: u32,
    value: u64,
    node_id: u64,
)
    ensures
        final(params)@ == updated(old(params)@, param_id, index, Some(value), node_id),
        final(refs).counts@ == old(refs).counts@,
        final(refs).names@ == old(refs).names@,
        final(refs).types@ == if old(params)@.contains_key(param_id) {
            old(refs).types@
        } else {
            old(refs).types@.insert(param_id, VX_TYPE_PARAMETER)
        },
{
    if !update(params, param_id, index, Some(value), node_id) {
        refs.types.insert(param_id, VX_TYPE_PARAMETER);
    }
}

/// Records the value of a parameter that belongs to no node.
pub fn create_or_update_parameter(
    params: &mut HashMap<u64, VxCParameter>,
    refs: &mut References,
    param_id: u64,
    index: u32,
    value: u64,
    _context_id: u32,
    _kernel_id: u64,
)
    ensures
        final(params)@ == updated(old(params)@, param_id, index, Some(value), 0),
        final(refs).counts@ == old(refs).counts@,
        final(refs).names@ == old(refs).names@,
        final(refs).types@ == if old(params)@.contains_key(param_id) {
            old(refs).types@
        } else {
            old(refs).types@.insert(param_id, VX_TYPE_PARAMETER)
        },
{
    create_or_update_parameter_with_node(params, refs, param_id, index, value, 0);
}

/// The number of a node's parameter: the node's number in the high half, the position
/// in the low half.
pub open spec fn parameter_id(node: u64, index: u32) -> u64 {
    ((node % 0x1_0000_0000) * 0x1_0000_0000 + index) as u64
}

/// What a node has at a position.
pub open spec fn node_value(nodes: Map<u64, NodeData>, node: u64, index: u32) -> Option<u64> {
    if nodes.contains_key(node) && index < nodes[node].parameters@.len() {
        nodes[node].parameters@[index as int]
    } else {
        None
    }
}

/// A map with an entry added where there is none under its key.
pub open spec fn with_default<V>(map: Map<u64, V>, key: u64, value: V) -> Map<u64, V> {
    if map.contains_key(key) {
        map
    } else {
        map.insert(key, value)
    }
}

/// Fetches a parameter of a node, with the value the node has there.
pub fn vxGetParameterByIndex(
    params: &mut HashMap<u64, VxCParameter>,
    refs: &mut References,
    nodes: &HashMap<u64, NodeData>,
    node: u64,
    index: u32,
) -> (r: u64)
    ensures
        r == if node == 0 {
            0
        } else {
            parameter_id(node, index)
        },
        node == 0 ==> final(params)@ == old(params)@ && *final(refs) == *old(refs),
        node != 0 ==> {
            &&& final(params)@ == updated(
                old(params)@,
                r,
                index,
                node_value(nodes@, node, index),
                node,
            )
            &&& final(refs).types@ == with_default(old(refs).types@, r, VX_TYPE_PARAMETER)
            &&& final(refs).counts@ == with_default(old(refs).counts@, r, 1usize)
            &&& final(refs).names@ == old(refs).names@
        },
{
    if node == 0 {
        return 0;
    }
    let id: u64 = (node % 0x1_0000_0000) * 0x1_0000_0000 + index as u64;
    let value: Option<u64> = match nodes.get(&node) {
        Some(n) => if (index as usize) < n.parameters.len() {
            n.parameters[index as usize]
        } else {
            None
        },
        None => None,
    };
    if !refs.types.contains_key(&id) {
        refs.types.insert(id, VX_TYPE_PARAMETER);
    }
    if !refs.counts.contains_key(&id) {
        refs.counts.insert(id, 1);
    }
    update(params, id, index, value, node);
    id
}

/// The node and position a parameter belongs to: as recorded, or as its number says
/// where another registry knows its position.
pub open spec fn parameter_origin(
    map: Map<u64, VxCParameter>,
    known: Map<u64, u32>,
    id: u64,
) -> Option<(u64, u32)> {
    if map.contains_key(id) {
        Some((map[id].node_id, map[id].index))
    } else if known.contains_key(id) {
        Some((id / 0x1_0000_0000, known[id]))
    } else {
        None
    }
}

/// Finds the node and position a parameter belongs to.
pub fn find_origin(
    params: &HashMap<u64, VxCParameter>,
    known: &HashMap<u64, u32>,
    id: u64,
) -> (r: Option<(u64, u32)>)
    ensures
        r == parameter_origin(params@, known@, id),
{
    match params.get(&id) {
        Some(p) => Some((p.node_id, p.index)),
        None => match known.get(&id) {
            Some(index) => Some((id / 0x1_0000_0000, *index)),
            None => None,
        },
    }
}

/// Makes a parameter of a node a parameter of its graph.  `known` holds the positions
/// of parameters that only the other registry has.
pub fn vxAddParameterToGraph(
    graphs: &mut HashMap<u64, VxCGraphData>,
    params: &HashMap<u64, VxCParameter>,
    known: &HashMap<u64, u32>,
    refs: &mut References,
    bindings: &mut PairMap<NodeParamBinding>,
    graph: u64,
    parameter: u64,
) -> (status: vx_status)
    requires
        old(bindings).wf(),
        old(graphs)@.contains_key(graph) || graph == 0 || parameter == 0 || parameter_origin(
            params@,
            known@,
            parameter,
        ) is None,
    ensures
        final(bindings).wf(),
        status == if graph == 0 {
            VX_ERROR_INVALID_REFERENCE
        } else if parameter == 0 {
            VX_ERROR_INVALID_PARAMETERS
        } else if parameter_origin(params@, known@, parameter) is None {
            VX_ERROR_INVALID_REFERENCE
        } else {
            VX_SUCCESS
        },
        final(refs).types@ == old(refs).types@,
        final(refs).names@ == old(refs).names@,
        status != VX_SUCCESS ==> final(graphs)@ == old(graphs)@ && final(refs).counts@ == old(
            refs,
        ).counts@ && final(bindings).entries@ == old(bindings).entries@,
        status == VX_SUCCESS ==> {
            let before = old(graphs)@[graph];
            let after = final(graphs)@[graph];
            let origin = parameter_origin(params@, known@, parameter).unwrap();
            &&& final(graphs)@.dom() == old(graphs)@.dom()
            &&& final(graphs)@.remove(graph) == old(graphs)@.remove(graph)
            &&& after == (VxCGraphData { parameters: after.parameters, ..before })
            &&& after.parameters@ == before.parameters@.push(parameter)
            &&& final(refs).counts@ == crate::refs::retained(old(refs).counts@, parameter)
            &&& final(bindings)@ == old(bindings)@.insert(
                (origin.0, origin.1 as u64),
                NodeParamBinding::GraphParam(before.parameters@.len() as usize),
            )
        },
{
    if graph == 0 {
        return VX_ERROR_INVALID_REFERENCE;
    }
    if parameter == 0 {
        return VX_ERROR_INVALID_PARAMETERS;
    }
    let origin: (u64, u32) = match find_origin(params, known, parameter) {
        Some(origin) => origin,
        None => {
            return VX_ERROR_INVALID_REFERENCE;
        },
    };
    let mut at: usize = 0;
    if let Some(mut g) = graphs.remove(&graph) {
        at = g.parameters.len();
        g.parameters.push(parameter);
        graphs.insert(graph, g);
    }
    proof {
        assert(graphs@.dom() =~= old(graphs)@.dom());
        assert(graphs@.remove(graph) =~= old(graphs)@.remove(graph));
    }
    refs.retain(parameter);
    bindings.insert((origin.0, origin.1 as u64), NodeParamBinding::GraphParam(at));
    VX_SUCCESS
}

/// Whether nodes agree in everything but their parameters.
pub open spec fn same_but_parameters(a: Map<u64, NodeData>, b: Map<u64, NodeData>) -> bool {
    a.dom() == b.dom() && forall|n: u64| #[trigger]
        a.contains_key(n) ==> a[n] == (NodeData { parameters: a[n].parameters, ..b[n] })
}

/// The parameters of each node.
pub open spec fn parameter_lists(nodes: Map<u64, NodeData>) -> Map<u64, Seq<Option<u64>>> {
    nodes.map_values(|n: NodeData| n.parameters@)
}

/// Parameters of nodes once one of them has another value, where it exists.
pub open spec fn with_parameter(
    lists: Map<u64, Seq<Option<u64>>>,
    node: u64,
    index: int,
    value: Option<u64>,
) -> Map<u64, Seq<Option<u64>>> {
    if lists.contains_key(node) && 0 <= index < lists[node].len() {
        lists.insert(node, lists[node].update(index, value))
    } else {
        lists
    }
}

/// Sets a parameter of a node, where it exists.
pub fn set_node_parameter(
    nodes: &mut HashMap<u64, NodeData>,
    node: u64,
    index: u64,
    value: Option<u64>,
)
    ensures
        parameter_lists(final(nodes)@) == with_parameter(
            parameter_lists(old(nodes)@),
            node,
            index as int,
            value,
        ),
        same_but_parameters(final(nodes)@, old(nodes)@),
{
    if let Some(mut n) = nodes.remove(&node) {
        if index < n.parameters.len() as u64 {
            n.parameters.set(index as usize, value);
        }
        nodes.insert(node, n);
    }
    proof {
        assert(parameter_lists(nodes@) =~= with_parameter(
            parameter_lists(old(nodes)@),
            node,
            index as int,
            value,
        ));
        assert(nodes@.dom() =~= old(nodes)@.dom());
    }
}

/// What a graph lists at a position.
pub open spec fn listed_parameter(
    graphs: Map<u64, VxCGraphData>,
    graph: u64,
    index: u32,
) -> Option<u64> {
    if graphs.contains_key(graph) && index < graphs[graph].parameters@.len() {
        Some(graphs[graph].parameters@[index as int])
    } else {
        None
    }
}

/// The node parameter that the parameter of a graph was made from.
pub open spec fn listed_origin(
    graphs: Map<u64, VxCGraphData>,
    map: Map<u64, VxCParameter>,
    known: Map<u64, u32>,
    graph: u64,
    index: u32,
) -> Option<(u64, u32)> {
    match listed_parameter(graphs, graph, index) {
        Some(id) => parameter_origin(map, known, id),
        None => None,
    }
}

/// Whether a node parameter is connected to a parameter of a graph: it is bound to
/// its position, and its node belongs to the graph or it is the one that the graph
/// lists there.
pub open spec fn is_connected(
    nodes: Map<u64, NodeData>,
    bindings: Map<(u64, u64), NodeParamBinding>,
    origin: Option<(u64, u32)>,
    graph: u64,
    index: u32,
    at: (u64, u64),
) -> bool {
    &&& bindings.contains_key(at)
    &&& bindings[at] == NodeParamBinding::GraphParam(index as usize)
    &&& nodes.contains_key(at.0)
    &&& nodes[at.0].graph_id == graph || (origin matches Some(o) && at == (o.0, o.1 as u64))
}

/// The parameters of each node once those at some places have another value.
pub open spec fn with_values_at(
    lists: Map<u64, Seq<Option<u64>>>,
    places: spec_fn((u64, u64)) -> bool,
    value: Option<u64>,
) -> Map<u64, Seq<Option<u64>>> {
    lists.map_entries(
        |n: u64, list: Seq<Option<u64>>|
            list.map(
                |i: int, v: Option<u64>|
                    if i <= u64::MAX && places((n, i as u64)) {
                        value
                    } else {
                        v
                    },
            ),
    )
}

/// The counts once a graph parameter is bound to another reference: the one before
/// is held once less, the new one once more.
pub open spec fn rebound(
    counts: Map<u64, usize>,
    before: Option<u64>,
    reference: u64,
) -> Map<u64, usize> {
    crate::refs::retained(
        match before {
            Some(b) => crate::refs::dropped(counts, b),
            None => counts,
        },
        reference,
    )
}

/// Binds a parameter of a graph to a reference.  Every node parameter that is
/// connected to it has the reference too.
pub fn vxSetGraphParameterByIndex(
    nodes: &mut HashMap<u64, NodeData>,
    refs: &mut References,
    graph_bindings: &mut PairMap<u64>,
    node_bindings: &PairMap<NodeParamBinding>,
    graphs: &HashMap<u64, VxCGraphData>,
    params: &HashMap<u64, VxCParameter>,
    known: &HashMap<u64, u32>,
    graph: u64,
    index: u32,
    param: u64,
) -> (status: vx_status)
    requires
        old(graph_bindings).wf(),
        node_bindings.wf(),
    ensures
        final(graph_bindings).wf(),
        status == if graph == 0 || param == 0 {
            VX_ERROR_INVALID_REFERENCE
        } else {
            VX_SUCCESS
        },
        final(refs).types@ == old(refs).types@,
        final(refs).names@ == old(refs).names@,
        same_but_parameters(final(nodes)@, old(nodes)@),
        status != VX_SUCCESS ==> final(nodes)@ == old(nodes)@ && final(refs).counts@ == old(
            refs,
        ).counts@ && final(graph_bindings)@ == old(graph_bindings)@,
        status == VX_SUCCESS ==> {
            let key = (graph, index as u64);
            let origin = listed_origin(graphs@, params@, known@, graph, index);
            &&& final(graph_bindings)@ == old(graph_bindings)@.insert(key, param)
            &&& final(refs).counts@ == rebound(
                old(refs).counts@,
                if old(graph_bindings)@.contains_key(key) {
                    Some(old(graph_bindings)@[key])
                } else {
                    None
                },
                param,
            )
            &&& parameter_lists(final(nodes)@) == with_values_at(
                parameter_lists(old(nodes)@),
                |at: (u64, u64)|
                    is_connected(old(nodes)@, node_bindings@, origin, graph, index, at),
                Some(param),
            )
        },
{
    if graph == 0 || param == 0 {
        return VX_ERROR_INVALID_REFERENCE;
    }
    let key = (graph, index as u64);
    if let Some(before) = graph_bindings.get(key) {
        refs.release(before);
    }
    refs.retain(param);
    graph_bindings.insert(key, param);
    let origin: Option<(u64, u32)> = match graphs.get(&graph) {
        Some(g) => if (index as usize) < g.parameters.len() {
            find_origin(params, known, g.parameters[index as usize])
        } else {
            None
        },
        None => None,
    };
    bind_connected(nodes, node_bindings, origin, graph, index, param);
    VX_SUCCESS
}

/// Gives every node parameter that is connected to a parameter of a graph a
/// reference.
fn bind_connected(
    nodes: &mut HashMap<u64, NodeData>,
    node_bindings: &PairMap<NodeParamBinding>,
    origin: Option<(u64, u32)>,
    graph: u64,
    index: u32,
    param: u64,
)
    requires
        node_bindings.wf(),
    ensures
        same_but_parameters(final(nodes)@, old(nodes)@),
        parameter_lists(final(nodes)@) == with_values_at(
            parameter_lists(old(nodes)@),
            |at: (u64, u64)| is_connected(old(nodes)@, node_bindings@, origin, graph, index, at),
            Some(param),
        ),
{
    let ghost lists0 = parameter_lists(nodes@);
    let ghost nodes0 = nodes@;
    let ghost entries = node_bindings.entries@;
    let ghost connected = |at: (u64, u64)|
        is_connected(nodes0, node_bindings@, origin, graph, index, at);
    proof {
        let none = |at: (u64, u64)| reached(entries, connected, at, 0);
        assert(lists0 =~~= with_values_at(lists0, none, Some(param)));
    }
    for i in 0..node_bindings.entries.len()
        invariant
            node_bindings.wf(),
            entries == node_bindings.entries@,
            nodes0 == old(nodes)@,
            connected == (|at: (u64, u64)|
                is_connected(nodes0, node_bindings@, origin, graph, index, at)),
            parameter_lists(nodes@) == with_values_at(
                lists0,
                |at: (u64, u64)| reached(entries, connected, at, i as int),
                Some(param),
            ),
            lists0 == parameter_lists(nodes0),
            same_but_parameters(nodes@, nodes0),
    {
        let ghost nodes1 = nodes@;
        let at = node_bindings.entries[i].0;
        let binding = node_bindings.entries[i].1;
        proof {
            crate::pairs::lemma_key_found(entries, i as int);
        }
        let owned: bool = match nodes.get(&at.0) {
            Some(n) => n.graph_id == graph,
            None => false,
        };
        let listed: bool = match origin {
            Some(o) => at.0 == o.0 && at.1 == o.1 as u64,
            None => false,
        };
        let bound: bool = match binding {
            NodeParamBinding::GraphParam(k) => k == index as usize,
            _ => false,
        };
        if bound && (owned || listed) {
            set_node_parameter(nodes, at.0, at.1, Some(param));
        }
        proof {
            assert(nodes1.contains_key(at.0) ==> nodes1[at.0].graph_id == nodes0[at.0].graph_id);
            assert forall|n: u64| #[trigger] nodes@.contains_key(n) implies nodes@[n] == (
            NodeData { parameters: nodes@[n].parameters, ..nodes0[n] }) by {
                assert(nodes1.contains_key(n));
            }
            lemma_one_more_reached(
                lists0,
                entries,
                connected,
                i as int,
                parameter_lists(nodes1),
                parameter_lists(nodes@),
                Some(param),
            );
        }
    }
    proof {
        let all = |at: (u64, u64)| reached(entries, connected, at, entries.len() as int);
        assert forall|at: (u64, u64)| #[trigger] connected(at) implies all(at) by {
            crate::search::lemma_first_where(
                entries.len(),
                crate::pairs::key_at(entries, at),
            );
        }
        assert(with_values_at(lists0, all, Some(param)) =~~= with_values_at(
            lists0,
            connected,
            Some(param),
        ));
    }
}

/// Whether a connected place stands before a position among some bindings.
spec fn reached(
    entries: Seq<((u64, u64), NodeParamBinding)>,
    connected: spec_fn((u64, u64)) -> bool,
    at: (u64, u64),
    i: int,
) -> bool {
    &&& connected(at)
    &&& crate::pairs::key_position(entries, at) matches Some(k) && k < i
}

/// What a request for a parameter of a graph is answered: the parameter that the
/// graph lists there, or `0`.
pub open spec fn graph_parameter(
    graphs: Map<u64, VxCGraphData>,
    graph: u64,
    index: u32,
) -> u64 {
    match listed_parameter(graphs, graph, index) {
        Some(id) if graph != 0 => id,
        _ => 0,
    }
}

/// Fetches a parameter of a graph and holds it once more.
pub fn vxGetGraphParameterByIndex(
    graphs: &HashMap<u64, VxCGraphData>,
    refs: &mut References,
    graph: u64,
    index: u32,
) -> (r: u64)
    ensures
        r == graph_parameter(graphs@, graph, index),
        final(refs).types@ == old(refs).types@,
        final(refs).names@ == old(refs).names@,
        final(refs).counts@ == if graph != 0 && listed_parameter(graphs@, graph, index) is Some {
            crate::refs::retained(old(refs).counts@, r)
        } else {
            old(refs).counts@
        },
{
    if graph == 0 {
        return 0;
    }
    if let Some(g) = graphs.get(&graph) {
        if (index as usize) < g.parameters.len() {
            let id = g.parameters[index as usize];
            refs.retain(id);
            return id;
        }
    }
    0
}

/// Setting the place of one more binding reaches one more connected place.
proof fn lemma_one_more_reached(
    lists: Map<u64, Seq<Option<u64>>>,
    entries: Seq<((u64, u64), NodeParamBinding)>,
    connected: spec_fn((u64, u64)) -> bool,
    i: int,
    before: Map<u64, Seq<Option<u64>>>,
    after: Map<u64, Seq<Option<u64>>>,
    value: Option<u64>,
)
    requires
        0 <= i < entries.len(),
        crate::pairs::has_distinct_keys(entries),
        before == with_values_at(
            lists,
            |at: (u64, u64)| reached(entries, connected, at, i),
            value,
        ),
        after == if connected(entries[i].0) {
            with_parameter(before, entries[i].0.0, entries[i].0.1 as int, value)
        } else {
            before
        },
    ensures
        after == with_values_at(
            lists,
            |at: (u64, u64)| reached(entries, connected, at, i + 1),
            value,
        ),
{
    let now = |at: (u64, u64)| reached(entries, connected, at, i);
    let next = |at: (u64, u64)| reached(entries, connected, at, i + 1);
    let key = entries[i].0;
    crate::pairs::lemma_key_found(entries, i);
    assert forall|at: (u64, u64)| #[trigger] next(at) == (now(at) || at == key && connected(at)) by {
        let found = crate::pairs::key_at(entries, at);
        crate::search::lemma_first_where(entries.len(), found);
        if next(at) && !now(at) {
            assert(found(i));
        }
    }
    let goal = with_values_at(lists, next, value);
    assert(after.dom() =~= goal.dom());
    assert forall|n: u64| #[trigger] after.contains_key(n) implies after[n] == goal[n] by {
        assert(after[n].len() == goal[n].len());
        assert forall|j: int| 0 <= j < after[n].len() implies after[n][j] == goal[n][j] by {
            assert(next((n, j as u64)) == (now((n, j as u64)) || (n, j as u64) == key && connected(
                (n, j as u64),
            )));
        }
        assert(after[n] =~= goal[n]);
    }
    assert(after =~= goal);
}

/// A recorded value is read back, and other parameters keep theirs.
pub proof fn law_parameter_round_trip(
    map: Map<u64, VxCParameter>,
    id: u64,
    index: u32,
    value: Option<u64>,
    node_id: u64,
    other: u64,
)
    requires
        other != id,
    ensures
        value_of(updated(map, id, index, value, node_id), id) == value,
        value_of(updated(map, id, index, value, node_id), other) == value_of(map, other),
{
}

/// A removed parameter is gone, and other parameters stay.
pub proof fn law_removed_parameter_is_gone(map: Map<u64, VxCParameter>, id: u64, other: u64)
    requires
        other != id,
    ensures
        !map.remove(id).contains_key(id),
        value_of(map.remove(id), id) is None,
        value_of(map.remove(id), other) == value_of(map, other),
{
}

/// A node parameter that was made a parameter of a graph has what the parameter of
/// the graph is bound to, and a node parameter bound to another position keeps what
/// it had.
pub proof fn law_graph_parameter_reaches_node(
    nodes: Map<u64, NodeData>,
    bindings: Map<(u64, u64), NodeParamBinding>,
    graphs: Map<u64, VxCGraphData>,
    map: Map<u64, VxCParameter>,
    known: Map<u64, u32>,
    graph: u64,
    parameter: u64,
    index: u32,
    param: u64,
    other: (u64, u64),
)
    requires
        parameter_origin(map, known, parameter) is Some,
        listed_parameter(graphs, graph, index) == Some(parameter),
        ({
            let origin = parameter_origin(map, known, parameter).unwrap();
            &&& bindings.contains_key((origin.0, origin.1 as u64))
            &&& bindings[(origin.0, origin.1 as u64)] == NodeParamBinding::GraphParam(
                index as usize,
            )
            &&& nodes.contains_key(origin.0)
            &&& origin.1 < nodes[origin.0].parameters@.len()
        }),
        nodes.contains_key(other.0),
        other.1 < nodes[other.0].parameters@.len(),
        !(bindings.contains_key(other) && bindings[other] == NodeParamBinding::GraphParam(
            index as usize,
        )),
    ensures
        ({
            let origin = listed_origin(graphs, map, known, graph, index);
            let node = origin.unwrap();
            let lists = with_values_at(
                parameter_lists(nodes),
                |at: (u64, u64)| is_connected(nodes, bindings, origin, graph, index, at),
                Some(param),
            );
            &&& lists[node.0][node.1 as int] == Some(param)
            &&& lists[other.0][other.1 as int] == nodes[other.0].parameters@[other.1 as int]
        }),
{
}

/// The number of a node's parameter gives back the node, for node numbers of one half,
/// and the position.
pub proof fn law_parameter_number(node: u64, index: u32)
    requires
        node < 0x1_0000_0000,
    ensures
        parameter_id(node, index) / 0x1_0000_0000 == node,
        parameter_id(node, index) % 0x1_0000_0000 == index,
{
}

/// A parameter that is recorded for the first time is an input, held once, at its
/// own position of its own node.
pub proof fn law_new_parameters(
    map: Map<u64, VxCParameter>,
    id: u64,
    index: u32,
    value: Option<u64>,
    node_id: u64,
)
    requires
        !map.contains_key(id),
    ensures
        ({
            let p = updated(map, id, index, value, node_id)[id];
            &&& p.id == id
            &&& p.index == index
            &&& p.node_id == node_id
            &&& p.value == value
            &&& p.direction == VX_INPUT
            &&& p.data_type == 0
            &&& p.ref_count == 1
        }),
        parameter_origin(updated(map, id, index, value, node_id), Map::empty(), id) == Some(
            (node_id, index),
        ),
{
}

/// A parameter that is recorded again keeps its position, its node and its holds.
pub proof fn law_known_parameters_keep_their_place(
    map: Map<u64, VxCParameter>,
    id: u64,
    index: u32,
    value: Option<u64>,
    node_id: u64,
)
    requires
        map.contains_key(id),
    ensures
        ({
            let p = updated(map, id, index, value, node_id)[id];
            &&& p.index == map[id].index
            &&& p.node_id == map[id].node_id
            &&& p.ref_count == map[id].ref_count
            &&& p.direction == map[id].direction
        }),
        updated(map, id, index, value, node_id).dom() == map.dom(),
{
    assert(updated(map, id, index, value, node_id).dom() =~= map.dom());
}

/// Binding a graph parameter anew takes one hold from the reference that it was
/// bound to and gives one to the new one; every other reference keeps its holds.
pub proof fn law_rebinding_moves_one_hold(
    counts: Map<u64, usize>,
    before: u64,
    reference: u64,
    other: u64,
)
    requires
        before != reference,
        other != before,
        other != reference,
        counts.contains_key(before),
        counts.contains_key(reference),
        counts[before] > 1,
        counts[reference] < usize::MAX,
    ensures
        ({
            let after = rebound(counts, Some(before), reference);
            &&& after[before] == counts[before] - 1
            &&& after[reference] == counts[reference] + 1
            &&& after.contains_key(other) == counts.contains_key(other)
            &&& counts.contains_key(other) ==> after[other] == counts[other]
        }),
        rebound(counts, None, reference)[reference] == counts[reference] + 1,
        rebound(counts, None, reference)[before] == counts[before],
        rebound(counts, Some(reference), reference) == if counts[reference] > 1 {
            counts
        } else {
            rebound(counts, Some(reference), reference)
        },
{
    if counts[reference] > 1 {
        assert(rebound(counts, Some(reference), reference) =~= counts);
    }
}

/// Setting a parameter of a node reaches that position of that node alone.
pub proof fn law_parameters_are_set_alone(
    lists: Map<u64, Seq<Option<u64>>>,
    node: u64,
    index: int,
    value: Option<u64>,
    other: u64,
    i: int,
)
    requires
        lists.contains_key(node),
        0 <= index < lists[node].len(),
        lists.contains_key(other),
        0 <= i < lists[other].len(),
    ensures
        ({
            let after = with_parameter(lists, node, index, value);
            &&& after.dom() == lists.dom()
            &&& after[other].len() == lists[other].len()
            &&& after[other][i] == if other == node && i == index {
                value
            } else {
                lists[other][i]
            }
        }),
{
    assert(with_parameter(lists, node, index, value).dom() =~= lists.dom());
}

/// What a graph lists at a position is what is answered for it, and a position
/// behind the last is answered with null.
pub proof fn law_listed_parameters_are_answered(
    graphs: Map<u64, VxCGraphData>,
    graph: u64,
    index: u32,
)
    requires
        graph != 0,
        graphs.contains_key(graph),
    ensures
        graph_parameter(graphs, graph, index) == if index < graphs[graph].parameters@.len() {
            graphs[graph].parameters@[index as int]
        } else {
            0
        },
        graph_parameter(graphs, 0, index) == 0,
{
}

/// A parameter of a node has the value at its index, and none beyond the last.
pub proof fn law_values_stand_at_their_index(nodes: Map<u64, NodeData>, node: u64, index: u32)
    ensures
        nodes.contains_key(node) && index < nodes[node].parameters@.len() ==> node_value(
            nodes,
            node,
            index,
        ) == nodes[node].parameters@[index as int],
        nodes.contains_key(node) && index >= nodes[node].parameters@.len() ==> node_value(
            nodes,
            node,
            index,
        ) is None,
        !nodes.contains_key(node) ==> node_value(nodes, node, index) is None,
{
}

/// A default is recorded only where nothing was recorded before.
pub proof fn law_defaults_replace_nothing<V>(map: Map<u64, V>, key: u64, value: V, other: u64)
    requires
        other != key,
    ensures
        with_default(map, key, value).contains_key(key),
        with_default(map, key, value)[key] == if map.contains_key(key) {
            map[key]
        } else {
            value
        },
        with_default(map, key, value).contains_key(other) == map.contains_key(other),
        map.contains_key(other) ==> with_default(map, key, value)[other] == map[other],
{
}

} // verus!
