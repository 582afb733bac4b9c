//! Running one node: finding its kernel and the references it runs with.
use vstd::prelude::*;
use crate::naming::{KernelTables, find_kernel_name};
use crate::pairs::PairMap;
use crate::parameters::get_parameter_value;
use crate::records::{
    NodeData, NodeParamBinding, VxCGraphData, VxCKernel, VxCParameter, VxCUserKernel,
};
use crate::refs::References;
use crate::replicas::{Containers, build_node_replicas, lookup_node_replication_flags};
use crate::text::contains_text;
use crate::types::{
    VX_ERROR_INVALID_KERNEL, VX_ERROR_INVALID_NODE, VX_ERROR_INVALID_PARAMETERS, VX_SUCCESS,
    vx_bool, vx_border_t, vx_enum, vx_status,
};
use crate::user_kernels::UserKernels;
use std::collections::HashMap;

verus! {

broadcast use vstd::std_specs::hash::group_hash_axioms;

/// Records that one reference stands for another while a graph runs.
pub fn set_ref_substitution(substitutions: &mut HashMap<u64, u64>, original: u64, substituted: u64)
    ensures
        final(substitutions)@ == old(substitutions)@.insert(original, substituted),
{
    substitutions.insert(original, substituted);
}

/// What stands for a reference, if anything does.
pub open spec fn substitute_of(substitutions: Map<u64, u64>, reference: u64) -> Option<u64> {
    if substitutions.contains_key(reference) {
        Some(substitutions[reference])
    } else {
        None
    }
}

/// Finds what stands for a reference while a graph runs.
pub fn get_substituted_ref(substitutions: &HashMap<u64, u64>, original: u64) -> (r: Option<u64>)
    ensures
        r == substitute_of(substitutions@, original),
{
    match substitutions.get(&original) {
        Some(s) => Some(*s),
        None => None,
    }
}

/// Forgets what stands for what.
pub fn clear_ref_substitutions(substitutions: &mut HashMap<u64, u64>)
    ensures
        final(substitutions)@ == Map::<u64, u64>::empty(),
{
    substitutions.clear();
}

/// The references queued for a parameter of a graph.
pub struct ParameterQueue {
    /// To be used, first come first served.
    pub ready: Vec<u64>,
    /// In use.
    pub consumed: Vec<u64>,
    /// All references of the parameter; the first is the one nodes are built with.
    pub valid: Vec<u64>,
}

/// The mathematical value of a [`ParameterQueue`].
#[verifier::ext_equal]
pub struct QueueSpec {
    pub ready: Seq<u64>,
    pub consumed: Seq<u64>,
    pub valid: Seq<u64>,
}

impl View for ParameterQueue {
    type V = QueueSpec;

    open spec fn view(&self) -> QueueSpec {
        QueueSpec { ready: self.ready@, consumed: self.consumed@, valid: self.valid@ }
    }
}

/// The values of some queues.
pub open spec fn queues_of(queues: Map<u32, ParameterQueue>) -> Map<u32, QueueSpec> {
    queues.map_values(|q: ParameterQueue| q@)
}

/// Finds whether a reference is ready in some queue.
pub fn has_ready(queues: &HashMap<u32, ParameterQueue>) -> (r: bool)
    ensures
        r == exists|k: u32| #[trigger]
            queues@.contains_key(k) && queues@[k].ready@.len() > 0,
{
    for k in it: queues.keys()
        invariant
            it.seq().unref().to_set() == queues@.dom(),
            forall|i: int|
                0 <= i < it.index() ==> queues@[*#[trigger] it.seq()[i]].ready@.len() == 0,
    {
        proof {
            assert(it.seq().unref()[it.index()] == *k);
            assert(it.seq().unref().to_set().contains(*k));
        }
        if let Some(q) = queues.get(k) {
            if q.ready.len() > 0 {
                assert(queues@.contains_key(*k));
                return true;
            }
        }
    }
    assert forall|k: u32| #[trigger] queues@.contains_key(k) implies queues@[k].ready@.len()
        == 0 by {
        assert(queues@.dom().contains(k));
    }
    false
}

/// What running a node changes besides data: the queues and the substitutions.
#[verifier::ext_equal]
pub struct Traffic {
    pub queues: Map<u32, QueueSpec>,
    pub substitutions: Map<u64, u64>,
}

/// What is known of the parameters of a graph.
pub struct ParameterTables {
    /// The recorded parameters.
    pub params: HashMap<u64, VxCParameter>,
    /// The positions of parameters that only the other registry has.
    pub known: HashMap<u64, u32>,
    /// What the parameters of graphs are bound to.
    pub graph_bindings: PairMap<u64>,
    /// What the parameters of nodes are bound to.
    pub node_bindings: PairMap<NodeParamBinding>,
}

/// The number a position has among queues.
pub open spec fn queue_number(index: usize) -> u32 {
    (index as int % 0x1_0000_0000) as u32
}

/// The reference that the queue of a graph parameter has for it, if any: the next one
/// that is ready, or the last one in use.
pub open spec fn queued(t: Traffic, index: usize) -> Option<u64> {
    let q = t.queues[queue_number(index)];
    if !t.queues.contains_key(queue_number(index)) {
        None
    } else if q.ready.len() > 0 {
        Some(q.ready[0])
    } else if q.consumed.len() > 0 {
        Some(q.consumed.last())
    } else {
        None
    }
}

/// The queues and substitutions once a graph parameter was looked up: a reference
/// that was ready is in use, and stands for the one that nodes are built with.
pub open spec fn dequeued(t: Traffic, index: usize) -> Traffic {
    let key = queue_number(index);
    let q = t.queues[key];
    if t.queues.contains_key(key) && q.ready.len() > 0 {
        Traffic {
            queues: t.queues.insert(
                key,
                QueueSpec {
                    ready: q.ready.skip(1),
                    consumed: q.consumed.push(q.ready[0]),
                    valid: q.valid,
                },
            ),
            substitutions: if q.valid.len() > 0 {
                t.substitutions.insert(q.valid[0], q.ready[0])
            } else {
                t.substitutions
            },
        }
    } else {
        t
    }
}

/// The reference that a graph parameter stands for without queues: the value of the
/// parameter, or what the graph parameter is bound to.
pub open spec fn settled(
    tables: ParameterTables,
    graphs: Map<u64, VxCGraphData>,
    graph: u64,
    index: usize,
) -> Option<u64> {
    let id = graphs[graph].parameters@[index as int];
    let value = crate::parameters::value_of(tables.params@, id);
    if !graphs.contains_key(graph) || index >= graphs[graph].parameters@.len() {
        None
    } else if value is Some {
        value
    } else if tables.known@.contains_key(id) {
        None
    } else if tables.graph_bindings@.contains_key((graph, index as u64)) {
        Some(tables.graph_bindings@[(graph, index as u64)])
    } else {
        None
    }
}

/// Finds the reference that a graph parameter stands for: from its queue first.
/// `queues` are those of the graph.
pub fn resolve_graph_parameter(
    tables: &ParameterTables,
    graphs: &HashMap<u64, VxCGraphData>,
    queues: &mut HashMap<u32, ParameterQueue>,
    substitutions: &mut HashMap<u64, u64>,
    graph_id: u64,
    graph_param_index: usize,
) -> (r: Option<u64>)
    ensures
        ({
            let t = Traffic {
                queues: queues_of(old(queues)@),
                substitutions: old(substitutions)@,
            };
            &&& (Traffic {
                queues: queues_of(final(queues)@),
                substitutions: final(substitutions)@,
            }) == dequeued(t, graph_param_index)
            &&& r == match queued(t, graph_param_index) {
                Some(reference) => Some(reference),
                None => settled(*tables, graphs@, graph_id, graph_param_index),
            }
        }),
{
    let key: u32 = (graph_param_index as u64 % 0x1_0000_0000) as u32;
    let ghost before = queues_of(queues@);
    if let Some(mut q) = queues.remove(&key) {
        if q.ready.len() > 0 {
            let ghost q0 = q@;
            let reference = q.ready.remove(0);
            q.consumed.push(reference);
            if q.valid.len() > 0 {
                set_ref_substitution(substitutions, q.valid[0], reference);
            }
            let ghost q1 = q@;
            assert(q1.ready =~= q0.ready.skip(1));
            queues.insert(key, q);
            assert(queues_of(queues@) =~= before.insert(key, q1));
            return Some(reference);
        }
        let last: Option<u64> = if q.consumed.len() > 0 {
            Some(q.consumed[q.consumed.len() - 1])
        } else {
            None
        };
        queues.insert(key, q);
        assert(queues_of(queues@) =~= before);
        if last.is_some() {
            return last;
        }
    } else {
        assert(queues@ =~= old(queues)@);
    }
    let id: u64 = match graphs.get(&graph_id) {
        Some(g) => if graph_param_index < g.parameters.len() {
            g.parameters[graph_param_index]
        } else {
            return None;
        },
        None => {
            return None;
        },
    };
    if let Some(v) = get_parameter_value(&tables.params, id) {
        return Some(v);
    }
    if tables.known.contains_key(&id) {
        return None;
    }
    tables.graph_bindings.get((graph_id, graph_param_index as u64))
}

/// Whether a kernel may run without a reference at a position.
pub open spec fn is_optional(name: Seq<char>, index: int) -> bool {
    ||| crate::text::has_part(name, "channel_combine"@)
    ||| (crate::text::has_part(name, "non_max_suppression"@) && index == 1)
    ||| (crate::text::has_part(name, "hog_features"@) && index == 4)
    ||| (crate::text::has_part(name, "tensor_matrix_multiply"@) && index == 2)
}

/// The references collected for a node so far, `None` where one is missing.
pub struct Collected {
    pub traffic: Traffic,
    pub refs: Option<Seq<u64>>,
}

/// The references collected once the parameter at a position was looked at.
pub open spec fn collected_one(
    s: Collected,
    tables: ParameterTables,
    graphs: Map<u64, VxCGraphData>,
    graph: u64,
    node: u64,
    name: Seq<char>,
    index: int,
    param: Option<u64>,
) -> Collected {
    let key = (node, index as u64);
    let binding = tables.node_bindings@[key];
    match s.refs {
        None => s,
        Some(list) => if tables.node_bindings@.contains_key(key) && binding is GraphParam {
            let at = binding->GraphParam_0;
            let found = match queued(s.traffic, at) {
                Some(reference) => Some(reference),
                None => settled(tables, graphs, graph, at),
            };
            Collected {
                traffic: dequeued(s.traffic, at),
                refs: match found {
                    Some(r) => Some(list.push(r)),
                    None => None,
                },
            }
        } else {
            match param {
                Some(p) => {
                    let actual = match substitute_of(s.traffic.substitutions, p) {
                        Some(substitute) => substitute,
                        None => p,
                    };
                    Collected {
                        traffic: s.traffic,
                        refs: if actual == 0 && !is_optional(name, index) {
                            None
                        } else {
                            Some(list.push(actual))
                        },
                    }
                },
                None => Collected { traffic: s.traffic, refs: Some(list.push(0)) },
            }
        },
    }
}

/// The references collected for the first parameters of a node.
pub open spec fn collected(
    s: Collected,
    tables: ParameterTables,
    graphs: Map<u64, VxCGraphData>,
    graph: u64,
    node: u64,
    name: Seq<char>,
    params: Seq<Option<u64>>,
) -> Collected
    decreases params.len(),
{
    if params.len() == 0 {
        s
    } else {
        collected_one(
            collected(s, tables, graphs, graph, node, name, params.drop_last()),
            tables,
            graphs,
            graph,
            node,
            name,
            params.len() - 1,
            params.last(),
        )
    }
}

/// What running a node comes to.
pub enum NodeRun {
    /// It cannot run.
    Fail(vx_status),
    /// Its kernel runs once for each list of references, until one run fails.
    Run { name: String, calls: Vec<Vec<u64>>, border: vx_border_t },
}

/// What is wrong with a node before its references are looked at.
pub open spec fn node_status(
    nodes: Map<u64, NodeData>,
    catalog: Map<u64, VxCKernel>,
    extra: Map<u64, VxCKernel>,
    user: Seq<VxCUserKernel>,
    node: u64,
) -> vx_status {
    let n = nodes[node];
    let name = crate::naming::kernel_name(catalog, extra, user, n.kernel_id);
    if !nodes.contains_key(node) {
        VX_ERROR_INVALID_NODE
    } else if n.kernel_id == 0 {
        VX_ERROR_INVALID_KERNEL
    } else {
        match name {
            None => VX_ERROR_INVALID_KERNEL,
            Some(text) => if text.len() == 0 {
                VX_ERROR_INVALID_KERNEL
            } else if n.parameters@.len() == 0 || (n.parameters@[0] is None
                && !crate::text::has_part(text, "channel_combine"@)) {
                VX_ERROR_INVALID_PARAMETERS
            } else {
                VX_SUCCESS
            },
        }
    }
}

/// The lists of references a node runs with: one for each replica, or its own.
pub open spec fn calls_of(
    c: Containers,
    types: Map<u64, vx_enum>,
    flags: Option<Seq<vx_bool>>,
    refs: Seq<u64>,
) -> Seq<Seq<u64>> {
    match flags {
        Some(f) => if crate::replicas::can_replicate(c, types, refs, f) {
            Seq::new(
                crate::replicas::replica_count(c, types, refs, f, refs.len()).unwrap() as nat,
                |run: int| crate::replicas::replica(c, types, refs, f, run),
            )
        } else {
            seq![refs]
        },
        None => seq![refs],
    }
}

struct Optional {
    combine: bool,
    suppression: bool,
    features: bool,
    matrix: bool,
}

fn find_optional(name: &str) -> (r: Optional)
    ensures
        forall|i: int| #[trigger] is_optional(name@, i) == (r.combine || (r.suppression && i == 1)
            || (r.features && i == 4) || (r.matrix && i == 2)),
{
    Optional {
        combine: contains_text(name, "channel_combine"),
        suppression: contains_text(name, "non_max_suppression"),
        features: contains_text(name, "hog_features"),
        matrix: contains_text(name, "tensor_matrix_multiply"),
    }
}

/// Collects the references that a node runs with.  `None` where one is missing.
pub fn collect_references(
    tables: &ParameterTables,
    graphs: &HashMap<u64, VxCGraphData>,
    queues: &mut HashMap<u32, ParameterQueue>,
    substitutions: &mut HashMap<u64, u64>,
    graph: u64,
    node: u64,
    name: &str,
    params: &Vec<Option<u64>>,
) -> (r: Option<Vec<u64>>)
    ensures
        ({
            let s = Collected {
                traffic: Traffic {
                    queues: queues_of(old(queues)@),
                    substitutions: old(substitutions)@,
                },
                refs: Some(Seq::empty()),
            };
            let t = collected(s, *tables, graphs@, graph, node, name@, params@);
            &&& (Traffic {
                queues: queues_of(final(queues)@),
                substitutions: final(substitutions)@,
            }) == t.traffic
            &&& match r {
                Some(list) => t.refs == Some(list@),
                None => t.refs is None,
            }
        }),
{
    let ghost start = Collected {
        traffic: Traffic { queues: queues_of(queues@), substitutions: substitutions@ },
        refs: Some(Seq::empty()),
    };
    let optional = find_optional(name);
    let mut list: Vec<u64> = Vec::new();
    let mut complete = true;
    for i in 0..params.len()
        invariant
            forall|k: int| #[trigger] is_optional(name@, k) == (optional.combine || (
            optional.suppression && k == 1) || (optional.features && k == 4) || (optional.matrix
                && k == 2)),
            ({
                let t = collected(
                    start,
                    *tables,
                    graphs@,
                    graph,
                    node,
                    name@,
                    params@.take(i as int),
                );
                &&& (Traffic { queues: queues_of(queues@), substitutions: substitutions@ })
                    == t.traffic
                &&& t.refs == if complete {
                    Some(list@)
                } else {
                    None
                }
            }),
    {
        proof {
            assert(params@.take(i + 1).drop_last() =~= params@.take(i as int));
            assert(params@.take(i + 1).last() == params@[i as int]);
        }
        if complete {
            let bound: Option<usize> = match tables.node_bindings.get((node, i as u64)) {
                Some(NodeParamBinding::GraphParam(at)) => Some(at),
                _ => None,
            };
            match bound {
                Some(at) => match resolve_graph_parameter(
                    tables,
                    graphs,
                    queues,
                    substitutions,
                    graph,
                    at,
                ) {
                    Some(r) => {
                        list.push(r);
                    },
                    None => {
                        complete = false;
                    },
                },
                None => match params[i] {
                    Some(p) => {
                        let actual: u64 = match get_substituted_ref(substitutions, p) {
                            Some(s) => s,
                            None => p,
                        };
                        assert(is_optional(name@, i as int) == (optional.combine || (
                        optional.suppression && i == 1) || (optional.features && i == 4) || (
                        optional.matrix && i == 2)));
                        if actual == 0 && !(optional.combine || (optional.suppression && i == 1)
                            || (optional.features && i == 4) || (optional.matrix && i == 2)) {
                            complete = false;
                        } else {
                            list.push(actual);
                        }
                    },
                    None => {
                        list.push(0);
                    },
                },
            }
        }
    }
    assert(params@.take(params@.len() as int) =~= params@);
    if complete {
        Some(list)
    } else {
        None
    }
}

/// Finds what running a node comes to: its kernel, and the references it runs with.
pub fn execute_node(
    node_id: u64,
    nodes: &HashMap<u64, NodeData>,
    graphs: &HashMap<u64, VxCGraphData>,
    kernels: &KernelTables,
    user_kernels: &UserKernels,
    tables: &ParameterTables,
    containers: &Containers,
    refs: &References,
    queues: &mut HashMap<u32, ParameterQueue>,
    substitutions: &mut HashMap<u64, u64>,
) -> (r: NodeRun)
    ensures
        ({
            let status = node_status(
                nodes@,
                kernels.catalog@,
                kernels.extra@,
                user_kernels.kernels@,
                node_id,
            );
            let n = nodes@[node_id];
            let name = crate::naming::kernel_name(
                kernels.catalog@,
                kernels.extra@,
                user_kernels.kernels@,
                n.kernel_id,
            ).unwrap();
            let before = Traffic {
                queues: queues_of(old(queues)@),
                substitutions: old(substitutions)@,
            };
            let after = Traffic {
                queues: queues_of(final(queues)@),
                substitutions: final(substitutions)@,
            };
            let t = collected(
                Collected { traffic: before, refs: Some(Seq::empty()) },
                *tables,
                graphs@,
                n.graph_id,
                node_id,
                name,
                n.parameters@,
            );
            if status != VX_SUCCESS {
                r == NodeRun::Fail(status) && after == before
            } else {
                &&& after == t.traffic
                &&& match t.refs {
                    None => r == NodeRun::Fail(VX_ERROR_INVALID_PARAMETERS),
                    Some(list) => match r {
                        NodeRun::Fail(_) => false,
                        NodeRun::Run { name: text, calls, border } => {
                            &&& text@ == name
                            &&& border == n.border_mode
                            &&& calls@.map_values(|c: Vec<u64>| c@) == calls_of(
                                *containers,
                                refs.types@,
                                crate::replicas::replication_flags(graphs@, nodes@, node_id),
                                list,
                            )
                        },
                    },
                }
            }
        }),
{
    let n = match nodes.get(&node_id) {
        Some(n) => n,
        None => {
            return NodeRun::Fail(VX_ERROR_INVALID_NODE);
        },
    };
    if n.kernel_id == 0 {
        return NodeRun::Fail(VX_ERROR_INVALID_KERNEL);
    }
    let name = match find_kernel_name(kernels, user_kernels, n.kernel_id) {
        Some(name) => name,
        None => {
            return NodeRun::Fail(VX_ERROR_INVALID_KERNEL);
        },
    };
    if name.as_str().unicode_len() == 0 {
        return NodeRun::Fail(VX_ERROR_INVALID_KERNEL);
    }
    if n.parameters.len() == 0 || (n.parameters[0].is_none() && !contains_text(
        name.as_str(),
        "channel_combine",
    )) {
        return NodeRun::Fail(VX_ERROR_INVALID_PARAMETERS);
    }
    let list = match collect_references(
        tables,
        graphs,
        queues,
        substitutions,
        n.graph_id,
        node_id,
        name.as_str(),
        &n.parameters,
    ) {
        Some(list) => list,
        None => {
            return NodeRun::Fail(VX_ERROR_INVALID_PARAMETERS);
        },
    };
    let ghost collected_refs = list@;
    let border = n.border_mode;
    if let Some(flags) = lookup_node_replication_flags(graphs, nodes, node_id) {
        if let Some(calls) = build_node_replicas(containers, refs, &list, &flags) {
            assert(calls@.map_values(|c: Vec<u64>| c@) =~= calls_of(
                *containers,
                refs.types@,
                Some(flags@),
                collected_refs,
            ));
            return NodeRun::Run { name, calls, border };
        }
    }
    let mut calls: Vec<Vec<u64>> = Vec::new();
    calls.push(list);
    assert(calls@.map_values(|c: Vec<u64>| c@) =~= seq![collected_refs]);
    NodeRun::Run { name, calls, border }
}

/// What stands for a reference is found, and nothing else stands for anything new,
/// until the substitutions are forgotten.
pub proof fn law_substitution_round_trip(
    substitutions: Map<u64, u64>,
    reference: u64,
    substitute: u64,
    other: u64,
)
    ensures
        substitute_of(substitutions.insert(reference, substitute), reference) == Some(substitute),
        other != reference ==> substitute_of(
            substitutions.insert(reference, substitute),
            other,
        ) == substitute_of(substitutions, other),
        substitute_of(Map::empty(), reference) is None,
{
}

/// References leave a queue in the order in which they came, and each stays the
/// answer until the next one is ready.
pub proof fn law_queue_is_first_come_first_served(t: Traffic, index: usize)
    requires
        t.queues.contains_key(queue_number(index)),
        t.queues[queue_number(index)].ready.len() > 0,
    ensures
        queued(t, index) == Some(t.queues[queue_number(index)].ready[0]),
        dequeued(t, index).queues[queue_number(index)].ready == t.queues[queue_number(
            index,
        )].ready.skip(1),
        t.queues[queue_number(index)].ready.len() == 1 ==> queued(dequeued(t, index), index)
            == queued(t, index),
{
}

/// What a queue answers: the first reference that is ready, else the last one that
/// was taken into use, else nothing; a parameter without a queue has no answer.
pub proof fn law_queue_answers(t: Traffic, index: usize)
    requires
        index <= u32::MAX,
    ensures
        !t.queues.contains_key(index as u32) ==> queued(t, index) is None,
        t.queues.contains_key(index as u32) ==> {
            let q = t.queues[index as u32];
            &&& q.ready.len() > 0 ==> queued(t, index) == Some(q.ready[0])
            &&& q.ready.len() == 0 && q.consumed.len() > 0 ==> queued(t, index) == Some(
                q.consumed[q.consumed.len() - 1],
            )
            &&& q.ready.len() == 0 && q.consumed.len() == 0 ==> queued(t, index) is None
        },
{
}

/// Taking a reference out of a queue moves it behind those in use, makes it stand
/// for the reference that nodes are built with, and leaves every other queue and
/// substitution alone; no reference is lost or doubled.
pub proof fn law_dequeuing_moves_one_reference(t: Traffic, index: usize, other: u32, reference: u64)
    requires
        index <= u32::MAX,
        t.queues.contains_key(index as u32),
        t.queues[index as u32].ready.len() > 0,
        t.queues[index as u32].valid.len() > 0,
        other != index,
        reference != t.queues[index as u32].valid[0],
    ensures
        ({
            let before = t.queues[index as u32];
            let after = dequeued(t, index).queues[index as u32];
            &&& after.valid == before.valid
            &&& after.ready.len() == before.ready.len() - 1
            &&& after.consumed.len() == before.consumed.len() + 1
            &&& after.consumed.last() == before.ready[0]
            &&& after.consumed.drop_last() == before.consumed
            &&& seq![before.ready[0]] + after.ready == before.ready
            &&& substitute_of(dequeued(t, index).substitutions, before.valid[0]) == Some(
                before.ready[0],
            )
            &&& substitute_of(dequeued(t, index).substitutions, reference) == substitute_of(
                t.substitutions,
                reference,
            )
            &&& dequeued(t, index).queues.contains_key(other) == t.queues.contains_key(other)
            &&& t.queues.contains_key(other) ==> dequeued(t, index).queues[other]
                == t.queues[other]
        }),
{
    let before = t.queues[index as u32];
    let after = dequeued(t, index).queues[index as u32];
    assert(after.consumed.drop_last() =~= before.consumed);
    assert(seq![before.ready[0]] + after.ready =~= before.ready);
}

/// Without a queue, a graph parameter stands for the value that was recorded for it,
/// and where none was for what it is bound to.
pub proof fn law_recorded_values_come_before_bindings(
    tables: ParameterTables,
    graphs: Map<u64, VxCGraphData>,
    graph: u64,
    index: usize,
)
    requires
        graphs.contains_key(graph),
        index < graphs[graph].parameters@.len(),
    ensures
        ({
            let id = graphs[graph].parameters@[index as int];
            &&& tables.params@.contains_key(id) && tables.params@[id].value is Some ==> settled(
                tables,
                graphs,
                graph,
                index,
            ) == tables.params@[id].value
            &&& !tables.params@.contains_key(id) && !tables.known@.contains_key(id)
                && tables.graph_bindings@.contains_key((graph, index as u64)) ==> settled(
                tables,
                graphs,
                graph,
                index,
            ) == Some(tables.graph_bindings@[(graph, index as u64)])
        }),
        settled(tables, graphs, graph, graphs[graph].parameters@.len() as usize) is None
            || graphs[graph].parameters@.len() > usize::MAX,
{
}

/// What a kernel may run without: any plane of a combination, the mask of a
/// suppression, the size of the parameters of features, and the third matrix of a
/// product; every other kernel needs all that it was given.
pub proof fn law_optional_parameters(name: Seq<char>, index: int)
    ensures
        crate::text::has_part(name, "channel_combine"@) ==> is_optional(name, index),
        !crate::text::has_part(name, "channel_combine"@) && !crate::text::has_part(
            name,
            "hog_features"@,
        ) && !crate::text::has_part(name, "tensor_matrix_multiply"@) ==> (is_optional(name, index)
            <==> crate::text::has_part(name, "non_max_suppression"@) && index == 1),
        !crate::text::has_part(name, "channel_combine"@) && !crate::text::has_part(
            name,
            "non_max_suppression"@,
        ) && !crate::text::has_part(name, "tensor_matrix_multiply"@) ==> (is_optional(name, index)
            <==> crate::text::has_part(name, "hog_features"@) && index == 4),
        !crate::text::has_part(name, "channel_combine"@) && !crate::text::has_part(
            name,
            "non_max_suppression"@,
        ) && !crate::text::has_part(name, "hog_features"@) ==> (is_optional(name, index)
            <==> crate::text::has_part(name, "tensor_matrix_multiply"@) && index == 2),
{
}

/// A node none of whose parameters is bound to a parameter of a graph runs with its
/// own references, each in its place, or with what stands for them; null stands for
/// one that was not set.
pub proof fn law_unbound_parameters_are_taken_as_they_are(
    traffic: Traffic,
    tables: ParameterTables,
    graphs: Map<u64, VxCGraphData>,
    graph: u64,
    node: u64,
    name: Seq<char>,
    params: Seq<Option<u64>>,
)
    requires
        params.len() <= u64::MAX,
        forall|i: int|
            0 <= i < params.len() ==> !tables.node_bindings@.contains_key(
                (node, #[trigger] (i as u64)),
            ),
        forall|i: int|
            0 <= i < params.len() && (#[trigger] params[i]) is Some ==> runs_with(
                traffic.substitutions,
                params[i],
            ) != 0,
    ensures
        ({
            let start = Collected { traffic, refs: Some(Seq::empty()) };
            let got = collected(start, tables, graphs, graph, node, name, params);
            &&& got.traffic == traffic
            &&& got.refs is Some
            &&& got.refs->0.len() == params.len()
            &&& forall|i: int|
                0 <= i < params.len() ==> #[trigger] got.refs->0[i] == runs_with(
                    traffic.substitutions,
                    params[i],
                )
        }),
    decreases params.len(),
{
    if params.len() > 0 {
        let rest = params.drop_last();
        let last = params.len() - 1;
        assert forall|i: int| 0 <= i < rest.len() && (#[trigger] rest[i]) is Some implies runs_with(
            traffic.substitutions,
            rest[i],
        ) != 0 by {
            assert(params[i] == rest[i]);
        }
        law_unbound_parameters_are_taken_as_they_are(
            traffic,
            tables,
            graphs,
            graph,
            node,
            name,
            rest,
        );
        assert(!tables.node_bindings@.contains_key((node, last as u64)));
        assert(params.last() == params[last]);
        let start = Collected { traffic, refs: Some(Seq::empty()) };
        let before = collected(start, tables, graphs, graph, node, name, rest).refs->0;
        let got = collected(start, tables, graphs, graph, node, name, params).refs->0;
        assert forall|i: int| 0 <= i < params.len() implies #[trigger] got[i] == runs_with(
            traffic.substitutions,
            params[i],
        ) by {
            if i < last {
                assert(got[i] == before[i]);
                assert(rest[i] == params[i]);
            }
        }
    }
}

/// The reference that a parameter which is bound to nothing runs with.
pub open spec fn runs_with(substitutions: Map<u64, u64>, param: Option<u64>) -> u64 {
    match param {
        Some(p) => if substitutions.contains_key(p) {
            substitutions[p]
        } else {
            p
        },
        None => 0,
    }
}

/// A parameter that is bound to a parameter of a graph runs with what the queue of
/// the graph parameter answers, and without one with what the graph parameter
/// stands for; whatever the node had there does not count.
pub proof fn law_bound_parameters_follow_the_graph(
    traffic: Traffic,
    list: Seq<u64>,
    tables: ParameterTables,
    graphs: Map<u64, VxCGraphData>,
    graph: u64,
    node: u64,
    name: Seq<char>,
    index: u64,
    at: usize,
    param: Option<u64>,
)
    requires
        tables.node_bindings@.contains_key((node, index)),
        tables.node_bindings@[(node, index)] == NodeParamBinding::GraphParam(at),
    ensures
        ({
            let got = collected_one(
                Collected { traffic, refs: Some(list) },
                tables,
                graphs,
                graph,
                node,
                name,
                index as int,
                param,
            );
            &&& got.traffic == dequeued(traffic, at)
            &&& queued(traffic, at) matches Some(r) ==> got.refs == Some(list.push(r))
            &&& queued(traffic, at) is None ==> match settled(tables, graphs, graph, at) {
                Some(r) => got.refs == Some(list.push(r)),
                None => got.refs is None,
            }
        }),
{
}

/// A node that is not replicated runs once, with its own references.
pub proof fn law_plain_nodes_run_once(c: Containers, types: Map<u64, vx_enum>, refs: Seq<u64>)
    ensures
        calls_of(c, types, None, refs).len() == 1,
        calls_of(c, types, None, refs)[0] == refs,
        forall|flags: Seq<vx_bool>|
            !crate::replicas::can_replicate(c, types, refs, flags) ==> #[trigger] calls_of(
                c,
                types,
                Some(flags),
                refs,
            ) == seq![refs],
{
}

/// Which nodes can run: one that is known, whose kernel has a name, and whose first
/// parameter is set; only where channels are combined it may be missing.
pub proof fn law_nodes_that_can_run(
    nodes: Map<u64, NodeData>,
    catalog: Map<u64, VxCKernel>,
    extra: Map<u64, VxCKernel>,
    user: Seq<VxCUserKernel>,
    node: u64,
)
    ensures
        !nodes.contains_key(node) ==> node_status(nodes, catalog, extra, user, node)
            == VX_ERROR_INVALID_NODE,
        nodes.contains_key(node) && (nodes[node].kernel_id == 0 || crate::naming::kernel_name(
            catalog,
            extra,
            user,
            nodes[node].kernel_id,
        ) is None) ==> node_status(nodes, catalog, extra, user, node) == VX_ERROR_INVALID_KERNEL,
        nodes.contains_key(node) && nodes[node].kernel_id != 0 && crate::naming::kernel_name(
            catalog,
            extra,
            user,
            nodes[node].kernel_id,
        ) is Some ==> {
            let name = crate::naming::kernel_name(catalog, extra, user, nodes[node].kernel_id)->0;
            let params = nodes[node].parameters@;
            let status = node_status(nodes, catalog, extra, user, node);
            &&& name.len() == 0 ==> status == VX_ERROR_INVALID_KERNEL
            &&& name.len() > 0 && params.len() == 0 ==> status == VX_ERROR_INVALID_PARAMETERS
            &&& name.len() > 0 && params.len() > 0 && params[0] is Some ==> status == VX_SUCCESS
            &&& name.len() > 0 && params.len() > 0 && params[0] is None ==> status
                == if crate::text::has_part(name, "channel_combine"@) {
                VX_SUCCESS
            } else {
                VX_ERROR_INVALID_PARAMETERS
            }
        },
{
}

/// From a queue that is not there, or has nothing ready, nothing is taken.
pub proof fn law_nothing_is_taken_from_empty_queues(t: Traffic, index: usize)
    requires
        index <= u32::MAX,
        !t.queues.contains_key(index as u32) || t.queues[index as u32].ready.len() == 0,
    ensures
        dequeued(t, index) == t,
{
}

} // verus!
