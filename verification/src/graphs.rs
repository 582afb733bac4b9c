//! Graphs: their attributes, their states and the requests to run them.
use vstd::prelude::*;
use crate::constants::{
    VX_GRAPH_ATTRIBUTE_NUM_NODES, VX_GRAPH_ATTRIBUTE_NUM_PARAMETERS,
    VX_GRAPH_ATTRIBUTE_PERFORMANCE, VX_GRAPH_ATTRIBUTE_STATE, VX_GRAPH_ATTRIBUTE_STATUS,
    VX_GRAPH_STATE_ABANDONED, VX_GRAPH_STATE_COMPLETED, VX_GRAPH_STATE_RUNNING,
    VX_GRAPH_STATE_UNVERIFIED, VX_GRAPH_STATE_VERIFIED,
};
use crate::records::{VxCGraphData, VxGraphState};
use crate::types::{
    VX_ERROR_GRAPH_ABANDONED, VX_ERROR_GRAPH_SCHEDULED, VX_ERROR_INVALID_GRAPH,
    VX_ERROR_INVALID_PARAMETERS, VX_ERROR_INVALID_REFERENCE, VX_ERROR_NOT_SUPPORTED, VX_SUCCESS,
    vx_bool, vx_enum, vx_perf_t, vx_status,
};
use crate::values::{ENUM_BYTES, NUMBER_BYTES, Value};
use std::collections::HashMap;

verus! {

broadcast use vstd::std_specs::hash::group_hash_axioms;

/// Hands out the number of the next graph.
pub fn generate_graph_id(next: &mut u64) -> (r: u64)
    ensures
        r == *old(next),
        *final(next) == if *old(next) == u64::MAX {
            0
        } else {
            (*old(next) + 1) as u64
        },
{
    let id = *next;
    *next = if id == u64::MAX {
        0
    } else {
        id + 1
    };
    id
}

/// The interface's number for a graph state.
pub open spec fn state_number(state: VxGraphState) -> vx_enum {
    match state {
        VxGraphState::VxGraphStateUnverified => VX_GRAPH_STATE_UNVERIFIED,
        VxGraphState::VxGraphStateVerified => VX_GRAPH_STATE_VERIFIED,
        VxGraphState::VxGraphStateRunning => VX_GRAPH_STATE_RUNNING,
        VxGraphState::VxGraphStateAbandoned => VX_GRAPH_STATE_ABANDONED,
        VxGraphState::VxGraphStateCompleted => VX_GRAPH_STATE_COMPLETED,
    }
}

/// Finds the interface's number for a graph state.
pub fn convert_graph_state_to_vx(state: VxGraphState) -> (r: vx_enum)
    ensures
        r == state_number(state),
{
    match state {
        VxGraphState::VxGraphStateUnverified => VX_GRAPH_STATE_UNVERIFIED,
        VxGraphState::VxGraphStateVerified => VX_GRAPH_STATE_VERIFIED,
        VxGraphState::VxGraphStateRunning => VX_GRAPH_STATE_RUNNING,
        VxGraphState::VxGraphStateAbandoned => VX_GRAPH_STATE_ABANDONED,
        VxGraphState::VxGraphStateCompleted => VX_GRAPH_STATE_COMPLETED,
    }
}

/// What a question about a graph is answered.
#[derive(Debug, Clone, Copy, PartialEq, Eq, Structural)]
pub enum GraphAnswer {
    One(Value),
    Performance(vx_perf_t),
}

/// The bytes that run times take.
pub const PERF_BYTES: usize = 64;

/// The run times of a graph: each run takes one tick and ends two ticks after the
/// one before.
pub open spec fn run_times(count: u64) -> vx_perf_t {
    if count > 0 {
        vx_perf_t {
            tmp: 0,
            beg: (2 * count - 1) as u64,
            end: (2 * count) as u64,
            sum: count,
            avg: 1,
            min: 1,
            num: count,
            max: count,
        }
    } else {
        vx_perf_t { tmp: 0, beg: 0, end: 0, sum: 0, avg: 0, min: 0, num: 0, max: 0 }
    }
}

/// The low half of a number.
pub open spec fn low_half(n: nat) -> u32 {
    (n % 0x1_0000_0000) as u32
}

/// The value of an attribute of a graph.
pub open spec fn graph_attribute(g: VxCGraphData, attribute: vx_enum, size: usize) -> Result<
    GraphAnswer,
    vx_status,
> {
    let (bytes, answer) = if attribute == VX_GRAPH_ATTRIBUTE_NUM_NODES {
        (NUMBER_BYTES, GraphAnswer::One(Value::Number(low_half(g.nodes@.len()))))
    } else if attribute == VX_GRAPH_ATTRIBUTE_NUM_PARAMETERS {
        (NUMBER_BYTES, GraphAnswer::One(Value::Number(low_half(g.parameters@.len()))))
    } else if attribute == VX_GRAPH_ATTRIBUTE_PERFORMANCE {
        (PERF_BYTES, GraphAnswer::Performance(run_times(g.run_count)))
    } else if attribute == VX_GRAPH_ATTRIBUTE_STATE {
        (ENUM_BYTES, GraphAnswer::One(Value::Enum(state_number(g.state))))
    } else {
        (ENUM_BYTES, GraphAnswer::One(Value::Int(VX_SUCCESS)))
    };
    if attribute != VX_GRAPH_ATTRIBUTE_NUM_NODES && attribute != VX_GRAPH_ATTRIBUTE_NUM_PARAMETERS
        && attribute != VX_GRAPH_ATTRIBUTE_PERFORMANCE && attribute != VX_GRAPH_ATTRIBUTE_STATE
        && attribute != VX_GRAPH_ATTRIBUTE_STATUS {
        Err(VX_ERROR_NOT_SUPPORTED)
    } else if size != bytes {
        Err(VX_ERROR_INVALID_PARAMETERS)
    } else {
        Ok(answer)
    }
}

fn to_low_half(n: usize) -> (r: u32)
    ensures
        r == low_half(n as nat),
{
    (n as u64 % 0x1_0000_0000) as u32
}

fn find_run_times(count: u64) -> (r: vx_perf_t)
    requires
        2 * count <= u64::MAX,
    ensures
        r == run_times(count),
{
    if count > 0 {
        vx_perf_t {
            tmp: 0,
            beg: 2 * count - 1,
            end: 2 * count,
            sum: count,
            avg: 1,
            min: 1,
            num: count,
            max: count,
        }
    } else {
        vx_perf_t { tmp: 0, beg: 0, end: 0, sum: 0, avg: 0, min: 0, num: 0, max: 0 }
    }
}

/// Reads an attribute of a graph.
pub fn vxQueryGraph(
    graphs: &HashMap<u64, VxCGraphData>,
    graph: u64,
    attribute: vx_enum,
    ptr: u64,
    size: usize,
) -> (r: Result<GraphAnswer, vx_status>)
    requires
        attribute == VX_GRAPH_ATTRIBUTE_PERFORMANCE && graphs@.contains_key(graph) ==> 2
            * graphs@[graph].run_count <= u64::MAX,
    ensures
        r == if graph == 0 {
            Err(VX_ERROR_INVALID_REFERENCE)
        } else if ptr == 0 {
            Err(VX_ERROR_INVALID_PARAMETERS)
        } else if !graphs@.contains_key(graph) {
            Err(VX_ERROR_INVALID_GRAPH)
        } else {
            graph_attribute(graphs@[graph], attribute, size)
        },
{
    if graph == 0 {
        return Err(VX_ERROR_INVALID_REFERENCE);
    }
    if ptr == 0 {
        return Err(VX_ERROR_INVALID_PARAMETERS);
    }
    let g = match graphs.get(&graph) {
        Some(g) => g,
        None => {
            return Err(VX_ERROR_INVALID_GRAPH);
        },
    };
    let bytes: usize;
    let answer: GraphAnswer;
    if attribute == VX_GRAPH_ATTRIBUTE_NUM_NODES {
        bytes = NUMBER_BYTES;
        answer = GraphAnswer::One(Value::Number(to_low_half(g.nodes.len())));
    } else if attribute == VX_GRAPH_ATTRIBUTE_NUM_PARAMETERS {
        bytes = NUMBER_BYTES;
        answer = GraphAnswer::One(Value::Number(to_low_half(g.parameters.len())));
    } else if attribute == VX_GRAPH_ATTRIBUTE_PERFORMANCE {
        bytes = PERF_BYTES;
        answer = GraphAnswer::Performance(find_run_times(g.run_count));
    } else if attribute == VX_GRAPH_ATTRIBUTE_STATE {
        bytes = ENUM_BYTES;
        answer = GraphAnswer::One(Value::Enum(convert_graph_state_to_vx(g.state)));
    } else if attribute == VX_GRAPH_ATTRIBUTE_STATUS {
        bytes = ENUM_BYTES;
        answer = GraphAnswer::One(Value::Int(VX_SUCCESS));
    } else {
        return Err(VX_ERROR_NOT_SUPPORTED);
    }
    if size != bytes {
        Err(VX_ERROR_INVALID_PARAMETERS)
    } else {
        Ok(answer)
    }
}

/// The graphs once one of them has another state.
pub open spec fn with_state(
    graphs: Map<u64, VxCGraphData>,
    graph: u64,
    state: VxGraphState,
) -> Map<u64, VxCGraphData> {
    if graphs.contains_key(graph) {
        graphs.insert(graph, VxCGraphData { state, ..graphs[graph] })
    } else {
        graphs
    }
}

/// Sets the state of a graph.
pub fn set_state(graphs: &mut HashMap<u64, VxCGraphData>, graph: u64, state: VxGraphState)
    ensures
        final(graphs)@ == with_state(old(graphs)@, graph, state),
{
    if let Some(mut g) = graphs.remove(&graph) {
        g.state = state;
        graphs.insert(graph, g);
    }
    assert(graphs@ =~= with_state(old(graphs)@, graph, state));
}

/// What waiting for a graph comes to.
#[derive(Debug, Clone, Copy, PartialEq, Eq, Structural)]
pub enum Waiting {
    /// Nothing to wait for: the status.
    Over(vx_status),
    /// Wait until no execution is active.
    ForExecutions,
    /// Ask again.
    Again,
}

/// What waiting for a graph in a state comes to, given whether it has been asked
/// before.
pub open spec fn waiting_for(state: VxGraphState, asked: bool) -> Waiting {
    match state {
        VxGraphState::VxGraphStateCompleted => Waiting::Over(VX_SUCCESS),
        VxGraphState::VxGraphStateAbandoned => Waiting::Over(VX_ERROR_GRAPH_ABANDONED),
        VxGraphState::VxGraphStateRunning => Waiting::Again,
        _ => if asked {
            Waiting::Again
        } else {
            Waiting::Over(VX_ERROR_INVALID_GRAPH)
        },
    }
}

/// Finds what waiting for a graph comes to.  `pipelining` says that the graph takes
/// its parameters from queues, `asked` that this is not the first question.
pub fn vxWaitGraph(
    graphs: &HashMap<u64, VxCGraphData>,
    graph: u64,
    pipelining: bool,
    asked: bool,
) -> (r: Waiting)
    ensures
        r == if graph == 0 {
            Waiting::Over(VX_ERROR_INVALID_REFERENCE)
        } else if pipelining {
            Waiting::ForExecutions
        } else if !graphs@.contains_key(graph) {
            Waiting::Over(VX_ERROR_INVALID_GRAPH)
        } else {
            waiting_for(graphs@[graph].state, asked)
        },
{
    if graph == 0 {
        return Waiting::Over(VX_ERROR_INVALID_REFERENCE);
    }
    if pipelining {
        return Waiting::ForExecutions;
    }
    match graphs.get(&graph) {
        Some(g) => match g.state {
            VxGraphState::VxGraphStateCompleted => Waiting::Over(VX_SUCCESS),
            VxGraphState::VxGraphStateAbandoned => Waiting::Over(VX_ERROR_GRAPH_ABANDONED),
            VxGraphState::VxGraphStateRunning => Waiting::Again,
            _ => if asked {
                Waiting::Again
            } else {
                Waiting::Over(VX_ERROR_INVALID_GRAPH)
            },
        },
        None => Waiting::Over(VX_ERROR_INVALID_GRAPH),
    }
}

/// Finds whether a graph has to be verified before it runs.
pub fn needs_verification(graphs: &HashMap<u64, VxCGraphData>, graph: u64) -> (r: Result<
    bool,
    vx_status,
>)
    ensures
        r == if graph == 0 {
            Err(VX_ERROR_INVALID_REFERENCE)
        } else if graphs@.contains_key(graph) {
            Ok(!graphs@[graph].verified)
        } else {
            Err(VX_ERROR_INVALID_GRAPH)
        },
{
    if graph == 0 {
        return Err(VX_ERROR_INVALID_REFERENCE);
    }
    match graphs.get(&graph) {
        Some(g) => Ok(!g.verified),
        None => Err(VX_ERROR_INVALID_GRAPH),
    }
}

/// Begins to run a graph at once, after it was verified where that was needed.
pub fn vxProcessGraph(
    graphs: &mut HashMap<u64, VxCGraphData>,
    graph: u64,
    verify_status: vx_status,
) -> (status: vx_status)
    ensures
        status == if graph == 0 {
            VX_ERROR_INVALID_REFERENCE
        } else if !old(graphs)@.contains_key(graph) {
            VX_ERROR_INVALID_GRAPH
        } else {
            verify_status
        },
        final(graphs)@ == if status == VX_SUCCESS {
            with_state(old(graphs)@, graph, VxGraphState::VxGraphStateRunning)
        } else {
            old(graphs)@
        },
{
    if graph == 0 {
        return VX_ERROR_INVALID_REFERENCE;
    }
    if !graphs.contains_key(&graph) {
        return VX_ERROR_INVALID_GRAPH;
    }
    if verify_status != VX_SUCCESS {
        return verify_status;
    }
    set_state(graphs, graph, VxGraphState::VxGraphStateRunning);
    VX_SUCCESS
}

/// What a request to run a graph in the background is answered, after it was verified
/// where that was needed.
pub open spec fn schedule_status(
    graphs: Map<u64, VxCGraphData>,
    graph: u64,
    verify_status: vx_status,
) -> vx_status {
    if graph == 0 {
        VX_ERROR_INVALID_REFERENCE
    } else if !graphs.contains_key(graph) {
        VX_ERROR_INVALID_GRAPH
    } else if verify_status != VX_SUCCESS {
        verify_status
    } else if graphs[graph].state == VxGraphState::VxGraphStateRunning {
        VX_ERROR_GRAPH_SCHEDULED
    } else {
        VX_SUCCESS
    }
}

/// Begins to run a graph in the background, after it was verified where that was
/// needed.  A graph that is running cannot be scheduled again.
pub fn vxScheduleGraph(
    graphs: &mut HashMap<u64, VxCGraphData>,
    graph: u64,
    verify_status: vx_status,
) -> (status: vx_status)
    ensures
        status == schedule_status(old(graphs)@, graph, verify_status),
        final(graphs)@ == if status == VX_SUCCESS {
            with_state(old(graphs)@, graph, VxGraphState::VxGraphStateRunning)
        } else {
            old(graphs)@
        },
{
    if graph == 0 {
        return VX_ERROR_INVALID_REFERENCE;
    }
    let running = match graphs.get(&graph) {
        Some(g) => g.state == VxGraphState::VxGraphStateRunning,
        None => {
            return VX_ERROR_INVALID_GRAPH;
        },
    };
    if verify_status != VX_SUCCESS {
        return verify_status;
    }
    if running {
        return VX_ERROR_GRAPH_SCHEDULED;
    }
    set_state(graphs, graph, VxGraphState::VxGraphStateRunning);
    VX_SUCCESS
}

/// Finds whether a graph is verified.
pub fn vxIsGraphVerified(graphs: &HashMap<u64, VxCGraphData>, graph: u64) -> (r: vx_bool)
    ensures
        r == if graph != 0 && graphs@.contains_key(graph) && graphs@[graph].verified {
            1
        } else {
            0i32
        },
{
    if graph == 0 {
        return 0;
    }
    match graphs.get(&graph) {
        Some(g) => if g.verified {
            1
        } else {
            0
        },
        None => 0,
    }
}

/// Records which parameters of a node are replicated when it runs.
pub fn vxReplicateNode(
    graphs: &mut HashMap<u64, VxCGraphData>,
    graph: u64,
    first_node: u64,
    replicate_ptr: u64,
    replicate: Vec<vx_bool>,
) -> (status: vx_status)
    ensures
        status == if graph == 0 || first_node == 0 {
            VX_ERROR_INVALID_REFERENCE
        } else if replicate_ptr == 0 || replicate@.len() == 0 {
            VX_ERROR_INVALID_PARAMETERS
        } else if !old(graphs)@.contains_key(graph) {
            VX_ERROR_INVALID_GRAPH
        } else {
            VX_SUCCESS
        },
        status != VX_SUCCESS ==> final(graphs)@ == old(graphs)@,
        status == VX_SUCCESS ==> {
            let before = old(graphs)@[graph];
            let after = final(graphs)@[graph];
            &&& final(graphs)@.dom() == old(graphs)@.dom()
            &&& final(graphs)@.remove(graph) == old(graphs)@.remove(graph)
            &&& after == (VxCGraphData { replicated_nodes: after.replicated_nodes, ..before })
            &&& after.replicated_nodes@ == before.replicated_nodes@.insert(first_node, replicate)
        },
{
    if graph == 0 || first_node == 0 {
        return VX_ERROR_INVALID_REFERENCE;
    }
    if replicate_ptr == 0 || replicate.len() == 0 {
        return VX_ERROR_INVALID_PARAMETERS;
    }
    match graphs.remove(&graph) {
        Some(mut g) => {
            g.replicated_nodes.insert(first_node, replicate);
            graphs.insert(graph, g);
            proof {
                assert(graphs@.dom() =~= old(graphs)@.dom());
                assert(graphs@.remove(graph) =~= old(graphs)@.remove(graph));
            }
            VX_SUCCESS
        },
        None => {
            assert(graphs@ =~= old(graphs)@);
            VX_ERROR_INVALID_GRAPH
        },
    }
}

/// Makes a graph hold a reference until it is released itself.
pub fn graph_add_owned_ref(graphs: &mut HashMap<u64, VxCGraphData>, graph: u64, reference: u64)
    ensures
        graph == 0 || reference == 0 || !old(graphs)@.contains_key(graph) ==> final(graphs)@ == old(
            graphs,
        )@,
        graph != 0 && reference != 0 && old(graphs)@.contains_key(graph) ==> {
            let before = old(graphs)@[graph];
            let after = final(graphs)@[graph];
            &&& final(graphs)@.dom() == old(graphs)@.dom()
            &&& final(graphs)@.remove(graph) == old(graphs)@.remove(graph)
            &&& after == (VxCGraphData { owned_refs: after.owned_refs, ..before })
            &&& after.owned_refs@ == before.owned_refs@.push(reference)
        },
{
    if graph == 0 || reference == 0 {
        return;
    }
    match graphs.remove(&graph) {
        Some(mut g) => {
            g.owned_refs.push(reference);
            graphs.insert(graph, g);
            proof {
                assert(graphs@.dom() =~= old(graphs)@.dom());
                assert(graphs@.remove(graph) =~= old(graphs)@.remove(graph));
            }
        },
        None => {
            assert(graphs@ =~= old(graphs)@);
        },
    }
}

/// A graph that was scheduled is running: it is waited for, and it cannot be scheduled
/// again.
pub proof fn law_scheduled_graph_is_running(graphs: Map<u64, VxCGraphData>, graph: u64)
    requires
        schedule_status(graphs, graph, VX_SUCCESS) == VX_SUCCESS,
    ensures
        ({
            let after = with_state(graphs, graph, VxGraphState::VxGraphStateRunning);
            &&& after[graph].state == VxGraphState::VxGraphStateRunning
            &&& waiting_for(after[graph].state, false) == Waiting::Again
            &&& schedule_status(after, graph, VX_SUCCESS) == VX_ERROR_GRAPH_SCHEDULED
        }),
{
}

/// No two graph states have the same number.
pub proof fn law_state_numbers_differ(a: VxGraphState, b: VxGraphState)
    requires
        state_number(a) == state_number(b),
    ensures
        a == b,
{
}

/// The run times of a graph: every run takes one tick, starts one tick after the
/// one before it ended, and counts once.
pub proof fn law_run_times(count: u64)
    requires
        2 * count + 2 <= u64::MAX,
    ensures
        run_times(count).num == count,
        run_times(count).sum == count,
        run_times(0).end == 0,
        run_times((count + 1) as u64).end == run_times(count).end + 2,
        run_times((count + 1) as u64).beg == run_times(count).end + 1,
        count > 0 ==> run_times(count).end - run_times(count).beg == 1,
        count > 0 ==> run_times(count).avg == 1 && run_times(count).min == 1,
        count > 0 ==> run_times(count).avg * run_times(count).num == run_times(count).sum,
        run_times(count).max == count,
        run_times(count).tmp == 0,
{
}

/// What can be asked of a graph, in exactly the room for the answer: how many nodes
/// and parameters it has, its run times, its state, and a status that is always
/// good.
pub proof fn law_graph_answers(g: VxCGraphData)
    requires
        g.nodes@.len() <= u32::MAX,
        g.parameters@.len() <= u32::MAX,
    ensures
        graph_attribute(g, VX_GRAPH_ATTRIBUTE_NUM_NODES, 4) == Ok::<GraphAnswer, vx_status>(
            GraphAnswer::One(Value::Number(g.nodes@.len() as u32)),
        ),
        graph_attribute(g, VX_GRAPH_ATTRIBUTE_NUM_PARAMETERS, 4) == Ok::<GraphAnswer, vx_status>(
            GraphAnswer::One(Value::Number(g.parameters@.len() as u32)),
        ),
        graph_attribute(g, VX_GRAPH_ATTRIBUTE_PERFORMANCE, 64) == Ok::<GraphAnswer, vx_status>(
            GraphAnswer::Performance(run_times(g.run_count)),
        ),
        graph_attribute(g, VX_GRAPH_ATTRIBUTE_STATE, 4) == Ok::<GraphAnswer, vx_status>(
            GraphAnswer::One(Value::Enum(state_number(g.state))),
        ),
        graph_attribute(g, VX_GRAPH_ATTRIBUTE_STATUS, 4) == Ok::<GraphAnswer, vx_status>(
            GraphAnswer::One(Value::Int(0)),
        ),
        forall|attribute: vx_enum, size: usize|
            size != 4 && size != 64 ==> !(#[trigger] graph_attribute(g, attribute, size) is Ok),
{
}

/// The numbers of the states count up from that of an unverified graph, in the order
/// in which a graph goes through them.
pub proof fn law_state_numbers()
    ensures
        state_number(VxGraphState::VxGraphStateUnverified) == VX_GRAPH_STATE_UNVERIFIED,
        state_number(VxGraphState::VxGraphStateVerified) == VX_GRAPH_STATE_VERIFIED,
        state_number(VxGraphState::VxGraphStateRunning) == VX_GRAPH_STATE_RUNNING,
        state_number(VxGraphState::VxGraphStateAbandoned) == VX_GRAPH_STATE_ABANDONED,
        state_number(VxGraphState::VxGraphStateCompleted) == VX_GRAPH_STATE_COMPLETED,
{
}

/// A change of state leaves all else of a graph and every other graph alone.
pub proof fn law_states_change_alone(
    graphs: Map<u64, VxCGraphData>,
    graph: u64,
    state: VxGraphState,
    other: u64,
)
    requires
        graphs.contains_key(graph),
    ensures
        ({
            let after = with_state(graphs, graph, state);
            &&& after.dom() == graphs.dom()
            &&& after[graph].state == state
            &&& after[graph].nodes == graphs[graph].nodes
            &&& after[graph].parameters == graphs[graph].parameters
            &&& after[graph].verified == graphs[graph].verified
            &&& after[graph].run_count == graphs[graph].run_count
            &&& other != graph && graphs.contains_key(other) ==> after[other] == graphs[other]
        }),
{
    assert(with_state(graphs, graph, state).dom() =~= graphs.dom());
}

/// Waiting for a graph ends well once it is completed and badly once it is
/// abandoned; a running graph is asked again, and one that never ran is not waited
/// for.
pub proof fn law_waiting(asked: bool)
    ensures
        waiting_for(VxGraphState::VxGraphStateCompleted, asked) == Waiting::Over(VX_SUCCESS),
        waiting_for(VxGraphState::VxGraphStateAbandoned, asked) == Waiting::Over(
            VX_ERROR_GRAPH_ABANDONED,
        ),
        waiting_for(VxGraphState::VxGraphStateRunning, asked) == Waiting::Again,
        waiting_for(VxGraphState::VxGraphStateVerified, false) == Waiting::Over(
            VX_ERROR_INVALID_GRAPH,
        ),
        waiting_for(VxGraphState::VxGraphStateUnverified, false) == Waiting::Over(
            VX_ERROR_INVALID_GRAPH,
        ),
        waiting_for(VxGraphState::VxGraphStateVerified, true) == Waiting::Again,
{
}

/// A graph is scheduled exactly where it is known, was verified and is not running,
/// and what verifying it came to is what is answered where that failed.
pub proof fn law_scheduling(graphs: Map<u64, VxCGraphData>, graph: u64, verify_status: vx_status)
    ensures
        schedule_status(graphs, graph, verify_status) == VX_SUCCESS <==> graph != 0
            && graphs.contains_key(graph) && verify_status == VX_SUCCESS && graphs[graph].state
            != VxGraphState::VxGraphStateRunning,
        graph != 0 && graphs.contains_key(graph) && verify_status != VX_SUCCESS
            ==> schedule_status(graphs, graph, verify_status) == verify_status,
{
}

/// A graph counts as verified exactly where it needs no verification; null and
/// unknown graphs do neither.
pub proof fn law_verified_or_to_be_verified(
    graphs: &HashMap<u64, VxCGraphData>,
    graph: u64,
    needed: Result<bool, vx_status>,
    verified: vx_bool,
)
    requires
        call_ensures(needs_verification, (graphs, graph), needed),
        call_ensures(vxIsGraphVerified, (graphs, graph), verified),
    ensures
        verified == 1 <==> needed == Ok::<bool, vx_status>(false),
        verified == 1 || verified == 0,
        graph != 0 && graphs@.contains_key(graph) ==> needed == Ok::<bool, vx_status>(
            !graphs@[graph].verified,
        ),
        graph == 0 ==> needed == Err::<bool, vx_status>(VX_ERROR_INVALID_REFERENCE),
        graph != 0 && !graphs@.contains_key(graph) ==> needed == Err::<bool, vx_status>(
            VX_ERROR_INVALID_GRAPH,
        ),
{
}

/// Who waits for a graph waits for its executions where it is fed from queues, and
/// else as its state says; for null and for an unknown graph there is nothing to
/// wait for.
pub proof fn law_waiting_for_graphs(
    graphs: &HashMap<u64, VxCGraphData>,
    graph: u64,
    pipelining: bool,
    asked: bool,
    r: Waiting,
)
    requires
        call_ensures(vxWaitGraph, (graphs, graph, pipelining, asked), r),
    ensures
        graph == 0 ==> r == Waiting::Over(VX_ERROR_INVALID_REFERENCE),
        graph != 0 && pipelining ==> r == Waiting::ForExecutions,
        graph != 0 && !pipelining && !graphs@.contains_key(graph) ==> r == Waiting::Over(
            VX_ERROR_INVALID_GRAPH,
        ),
        graph != 0 && !pipelining && graphs@.contains_key(graph) && graphs@[graph].state
            == VxGraphState::VxGraphStateCompleted ==> r == Waiting::Over(VX_SUCCESS),
        graph != 0 && !pipelining && graphs@.contains_key(graph) && graphs@[graph].state
            == VxGraphState::VxGraphStateRunning ==> r == Waiting::Again,
{
}

} // verus!
