//! Running a graph: which node runs next, when an iteration and the whole run are
//! over, and what is recorded on the way.
use vstd::prelude::*;
use crate::execution::{clear_ref_substitutions, has_ready};
use crate::graphs::set_state;
use crate::multimap::copied;
use crate::records::{NodeData, VxCGraphData, VxCUserKernel, VxGraphState};
use crate::types::{
    VX_ERROR_GRAPH_ABANDONED, VX_ERROR_INVALID_GRAPH, VX_ERROR_INVALID_NODE, VX_SUCCESS, vx_enum,
    vx_status,
};
use crate::user_kernels::UserKernels;
use std::collections::HashMap;

verus! {

broadcast use vstd::std_specs::hash::group_hash_axioms;

/// The answer of a node callback that abandons the graph.
pub const VX_ACTION_ABANDON: vx_enum = 0x1001;

/// The depth of a node's pipeline.
pub open spec fn depth_of(
    nodes: Map<u64, NodeData>,
    kernels: Seq<VxCUserKernel>,
    node: u64,
) -> u32 {
    crate::user_kernels::output_depth(kernels, nodes[node].kernel_id)
}

/// How often a node had run when a snapshot was taken.
pub open spec fn runs_in(snapshot: Map<u64, u32>, node: u64) -> u32 {
    if snapshot.contains_key(node) {
        snapshot[node]
    } else {
        0
    }
}

/// Whether a node is still filling its pipeline, according to a snapshot.
pub open spec fn in_pipeup(
    nodes: Map<u64, NodeData>,
    kernels: Seq<VxCUserKernel>,
    snapshot: Map<u64, u32>,
    node: u64,
) -> bool {
    nodes.contains_key(node) && crate::user_kernels::filling(
        runs_in(snapshot, node),
        depth_of(nodes, kernels, node),
    )
}

/// Finds whether a node is still filling its pipeline.
pub fn is_node_in_pipeup_state(
    nodes: &HashMap<u64, NodeData>,
    user_kernels: &UserKernels,
    node_id: u64,
    exec_snapshot: &HashMap<u64, u32>,
) -> (r: bool)
    ensures
        r == in_pipeup(nodes@, user_kernels.kernels@, exec_snapshot@, node_id),
{
    match nodes.get(&node_id) {
        Some(n) => {
            let depth = user_kernels.pipeup_output_depth(n.kernel_id);
            let runs: u32 = match exec_snapshot.get(&node_id) {
                Some(c) => *c,
                None => 0,
            };
            (runs as u64) + 1 < depth as u64
        },
        None => false,
    }
}

/// The nodes whose output a node of a graph reads.
pub open spec fn predecessors_of(
    graphs: Map<u64, VxCGraphData>,
    graph: u64,
    node: u64,
) -> Seq<u64> {
    if graphs.contains_key(graph) && graphs[graph].node_predecessors@.contains_key(node) {
        graphs[graph].node_predecessors@[node]@
    } else {
        Seq::empty()
    }
}

/// Whether a node is left out of an iteration: some node whose output it reads is
/// still filling its pipeline.
pub open spec fn is_skipped(
    graphs: Map<u64, VxCGraphData>,
    nodes: Map<u64, NodeData>,
    kernels: Seq<VxCUserKernel>,
    snapshot: Map<u64, u32>,
    graph: u64,
    node: u64,
) -> bool {
    exists|k: int|
        0 <= k < predecessors_of(graphs, graph, node).len() && in_pipeup(
            nodes,
            kernels,
            snapshot,
            #[trigger] predecessors_of(graphs, graph, node)[k],
        )
}

fn find_predecessors_of(
    graphs: &HashMap<u64, VxCGraphData>,
    graph: u64,
    node: u64,
) -> (r: Vec<u64>)
    ensures
        r@ == predecessors_of(graphs@, graph, node),
{
    match graphs.get(&graph) {
        Some(g) => match g.node_predecessors.get(&node) {
            Some(list) => copied(list),
            None => Vec::new(),
        },
        None => Vec::new(),
    }
}

/// Finds whether a node is left out of an iteration.
pub fn is_node_skipped_for_pipeup(
    graphs: &HashMap<u64, VxCGraphData>,
    nodes: &HashMap<u64, NodeData>,
    user_kernels: &UserKernels,
    graph_id: u64,
    node_id: u64,
    exec_snapshot: &HashMap<u64, u32>,
) -> (r: bool)
    ensures
        r == is_skipped(
            graphs@,
            nodes@,
            user_kernels.kernels@,
            exec_snapshot@,
            graph_id,
            node_id,
        ),
{
    let list = find_predecessors_of(graphs, graph_id, node_id);
    for k in 0..list.len()
        invariant
            list@ == predecessors_of(graphs@, graph_id, node_id),
            forall|j: int|
                0 <= j < k ==> !in_pipeup(
                    nodes@,
                    user_kernels.kernels@,
                    exec_snapshot@,
                    #[trigger] list@[j],
                ),
    {
        if is_node_in_pipeup_state(nodes, user_kernels, list[k], exec_snapshot) {
            assert(in_pipeup(
                nodes@,
                user_kernels.kernels@,
                exec_snapshot@,
                predecessors_of(graphs@, graph_id, node_id)[k as int],
            ));
            return true;
        }
    }
    false
}

/// A graph that is running.
pub struct GraphRun {
    pub graph: u64,
    /// Its nodes in run order.
    pub nodes: Vec<u64>,
    /// The position of the next node of this iteration.
    pub at: usize,
    /// Whether an iteration without any node filling its pipeline has begun.
    pub steady: bool,
    /// Whether the graph takes its parameters from queues.
    pub pipelining: bool,
    /// Whether the graph runs frame by frame.
    pub streaming: bool,
    /// How often each node had run when this iteration began.
    pub snapshot: HashMap<u64, u32>,
}

/// What beginning to run a graph comes to.
pub enum RunStart {
    /// There is no such graph.
    Fail(vx_status),
    /// The graph has no nodes and is complete.
    Empty,
    Go(GraphRun),
}

/// Begins to run a graph.
pub fn execute_graph_nodes(
    graphs: &mut HashMap<u64, VxCGraphData>,
    substitutions: &mut HashMap<u64, u64>,
    graph: u64,
) -> (r: RunStart)
    ensures
        final(substitutions)@ == Map::<u64, u64>::empty(),
        match r {
            RunStart::Fail(status) => status == VX_ERROR_INVALID_GRAPH && !old(
                graphs,
            )@.contains_key(graph) && final(graphs)@ == old(graphs)@,
            RunStart::Empty => old(graphs)@.contains_key(graph) && old(graphs)@[graph].nodes@.len()
                == 0 && final(graphs)@ == crate::graphs::with_state(
                old(graphs)@,
                graph,
                VxGraphState::VxGraphStateCompleted,
            ),
            RunStart::Go(run) => {
                &&& old(graphs)@.contains_key(graph)
                &&& old(graphs)@[graph].nodes@.len() > 0
                &&& final(graphs)@ == old(graphs)@
                &&& run.graph == graph
                &&& run.nodes@ == old(graphs)@[graph].nodes@
                &&& run.at == 0
                &&& !run.steady
                &&& !run.pipelining
                &&& !run.streaming
                &&& run.snapshot@ == Map::<u64, u32>::empty()
            },
        },
{
    clear_ref_substitutions(substitutions);
    let nodes: Vec<u64> = match graphs.get(&graph) {
        Some(g) => copied(&g.nodes),
        None => {
            return RunStart::Fail(VX_ERROR_INVALID_GRAPH);
        },
    };
    if nodes.len() == 0 {
        set_state(graphs, graph, VxGraphState::VxGraphStateCompleted);
        return RunStart::Empty;
    }
    RunStart::Go(
        GraphRun {
            graph,
            nodes,
            at: 0,
            steady: false,
            pipelining: false,
            streaming: false,
            snapshot: HashMap::new(),
        },
    )
}

/// The nodes that an iteration asks about: those of the graph and those whose output
/// they read.
pub open spec fn concerned(
    graphs: Map<u64, VxCGraphData>,
    graph: u64,
    nodes: Seq<u64>,
    node: u64,
) -> bool {
    exists|i: int|
        0 <= i < nodes.len() && ((#[trigger] nodes[i]) == node || predecessors_of(
            graphs,
            graph,
            nodes[i],
        ).contains(node))
}

/// How often the nodes that an iteration asks about have run.
pub open spec fn snapshot_of(
    graphs: Map<u64, VxCGraphData>,
    table: Map<u64, NodeData>,
    graph: u64,
    nodes: Seq<u64>,
) -> Map<u64, u32> {
    Map::new(
        |node: u64| table.contains_key(node) && concerned(graphs, graph, nodes, node),
        |node: u64| table[node].execution_count,
    )
}

fn note_count(table: &HashMap<u64, NodeData>, snapshot: &mut HashMap<u64, u32>, node: u64)
    ensures
        final(snapshot)@ == if table@.contains_key(node) {
            old(snapshot)@.insert(node, table@[node].execution_count)
        } else {
            old(snapshot)@
        },
{
    if let Some(n) = table.get(&node) {
        snapshot.insert(node, n.execution_count);
    }
}

fn take_snapshot(
    graphs: &HashMap<u64, VxCGraphData>,
    table: &HashMap<u64, NodeData>,
    graph: u64,
    nodes: &Vec<u64>,
) -> (r: HashMap<u64, u32>)
    ensures
        r@ == snapshot_of(graphs@, table@, graph, nodes@),
{
    let mut snapshot: HashMap<u64, u32> = HashMap::new();
    assert(snapshot@ =~= snapshot_of(graphs@, table@, graph, nodes@.take(0)));
    for i in 0..nodes.len()
        invariant
            snapshot@ == snapshot_of(graphs@, table@, graph, nodes@.take(i as int)),
    {
        let ghost before = snapshot@;
        let node = nodes[i];
        note_count(table, &mut snapshot, node);
        let list = find_predecessors_of(graphs, graph, node);
        for j in 0..list.len()
            invariant
                list@ == predecessors_of(graphs@, graph, node),
                forall|n: u64| #[trigger]
                    snapshot@.contains_key(n) <==> before.contains_key(n) || (
                    table@.contains_key(n) && (n == node || list@.take(j as int).contains(n))),
                forall|n: u64| #[trigger]
                    before.contains_key(n) ==> table@.contains_key(n) && before[n]
                        == table@[n].execution_count,
                forall|n: u64| #[trigger]
                    snapshot@.contains_key(n) ==> snapshot@[n] == table@[n].execution_count,
        {
            let ghost earlier = snapshot@;
            note_count(table, &mut snapshot, list[j]);
            proof {
                assert(list@.take(j + 1) =~= list@.take(j as int).push(list@[j as int]));
                assert forall|n: u64| #[trigger]
                    snapshot@.contains_key(n) <==> before.contains_key(n) || (
                    table@.contains_key(n) && (n == node || list@.take(j + 1).contains(n))) by {
                    let seen = list@.take(j as int);
                    if seen.contains(n) {
                        let k = seen.index_of(n);
                        assert(list@.take(j + 1)[k] == n);
                    }
                    if n == list@[j as int] {
                        assert(list@.take(j + 1)[j as int] == n);
                    }
                    if list@.take(j + 1).contains(n) && n != list@[j as int] {
                        let k = list@.take(j + 1).index_of(n);
                        assert(seen[k] == n);
                    }
                }
            }
        }
        proof {
            assert(list@.take(list@.len() as int) =~= list@);
            let all = nodes@.take(i + 1);
            let prior = nodes@.take(i as int);
            assert forall|n: u64| #[trigger]
                concerned(graphs@, graph, all, n) <==> concerned(graphs@, graph, prior, n) || n
                    == node || list@.contains(n) by {
                if concerned(graphs@, graph, prior, n) {
                    let k = choose|k: int|
                        0 <= k < prior.len() && ((#[trigger] prior[k]) == n || predecessors_of(
                            graphs@,
                            graph,
                            prior[k],
                        ).contains(n));
                    assert(all[k] == prior[k]);
                }
                if n == node || list@.contains(n) {
                    assert(all[i as int] == node);
                }
                if concerned(graphs@, graph, all, n) {
                    let k = choose|k: int|
                        0 <= k < all.len() && ((#[trigger] all[k]) == n || predecessors_of(
                            graphs@,
                            graph,
                            all[k],
                        ).contains(n));
                    if k < i {
                        assert(prior[k] == all[k]);
                    }
                }
            }
            let wanted = snapshot_of(graphs@, table@, graph, all);
            assert forall|n: u64| #[trigger]
                snapshot@.contains_key(n) <==> wanted.contains_key(n) by {
                assert(before.contains_key(n) <==> table@.contains_key(n) && concerned(
                    graphs@,
                    graph,
                    prior,
                    n,
                ));
                assert(concerned(graphs@, graph, all, n) <==> concerned(graphs@, graph, prior, n)
                    || n == node || list@.contains(n));
            }
            assert(snapshot@ =~= wanted);
        }
    }
    assert(nodes@.take(nodes@.len() as int) =~= nodes@);
    snapshot
}

/// Whether some node is still filling its pipeline.
pub open spec fn any_in_pipeup(
    table: Map<u64, NodeData>,
    kernels: Seq<VxCUserKernel>,
    snapshot: Map<u64, u32>,
    nodes: Seq<u64>,
) -> bool {
    exists|i: int| 0 <= i < nodes.len() && in_pipeup(table, kernels, snapshot, #[trigger] nodes[i])
}

fn find_any_in_pipeup(
    table: &HashMap<u64, NodeData>,
    user_kernels: &UserKernels,
    snapshot: &HashMap<u64, u32>,
    nodes: &Vec<u64>,
) -> (r: bool)
    ensures
        r == any_in_pipeup(table@, user_kernels.kernels@, snapshot@, nodes@),
{
    for i in 0..nodes.len()
        invariant
            forall|k: int|
                0 <= k < i ==> !in_pipeup(
                    table@,
                    user_kernels.kernels@,
                    snapshot@,
                    #[trigger] nodes@[k],
                ),
    {
        if is_node_in_pipeup_state(table, user_kernels, nodes[i], snapshot) {
            assert(in_pipeup(table@, user_kernels.kernels@, snapshot@, nodes@[i as int]));
            return true;
        }
    }
    false
}

/// Whether an iteration begins: with queues, only where a reference is ready; without
/// queues or frames, until one iteration has begun without any node filling its
/// pipeline.
pub open spec fn begins(
    steady: bool,
    pipelining: bool,
    streaming: bool,
    has_ready: bool,
    any_pipeup: bool,
) -> bool {
    if pipelining {
        has_ready
    } else {
        streaming || any_pipeup || !steady
    }
}

/// Begins an iteration of a run.  Answers whether there is one.
pub fn start_iteration(
    run: &mut GraphRun,
    graphs: &HashMap<u64, VxCGraphData>,
    table: &HashMap<u64, NodeData>,
    user_kernels: &UserKernels,
    pipelining: bool,
    streaming: bool,
    has_ready: bool,
) -> (go: bool)
    ensures
        ({
            let snapshot = snapshot_of(graphs@, table@, old(run).graph, old(run).nodes@);
            let any = any_in_pipeup(
                table@,
                user_kernels.kernels@,
                snapshot,
                old(run).nodes@,
            );
            &&& go == begins(old(run).steady, pipelining, streaming, has_ready, any)
            &&& final(run).graph == old(run).graph
            &&& final(run).nodes@ == old(run).nodes@
            &&& final(run).pipelining == pipelining
            &&& final(run).streaming == streaming
            &&& go ==> final(run).at == 0 && final(run).snapshot@ == snapshot
            &&& final(run).steady == (old(run).steady || (go && !pipelining && !streaming && !any))
        }),
{
    run.pipelining = pipelining;
    run.streaming = streaming;
    let snapshot = take_snapshot(graphs, table, run.graph, &run.nodes);
    let any = find_any_in_pipeup(table, user_kernels, &snapshot, &run.nodes);
    if pipelining && !has_ready {
        return false;
    }
    if !pipelining && !streaming && !any {
        if run.steady {
            return false;
        }
        run.steady = true;
    }
    run.at = 0;
    run.snapshot = snapshot;
    true
}

/// What comes next in an iteration.
#[derive(Debug, Clone, Copy, PartialEq, Eq, Structural)]
pub enum NextNode {
    Run(u64),
    /// The node is the null reference: the run fails.
    Invalid,
    /// Every node has had its turn.
    Over,
}

/// Whether the node at a position has its turn: it is not left out.
pub open spec fn has_turn(
    graphs: Map<u64, VxCGraphData>,
    table: Map<u64, NodeData>,
    kernels: Seq<VxCUserKernel>,
    snapshot: Map<u64, u32>,
    graph: u64,
    nodes: Seq<u64>,
    from: int,
) -> spec_fn(int) -> bool {
    |k: int|
        nodes[from + k] == 0 || !is_skipped(
            graphs,
            table,
            kernels,
            snapshot,
            graph,
            nodes[from + k],
        )
}

/// The position of the next node that has its turn, counted from `from`.
pub open spec fn next_turn(
    graphs: Map<u64, VxCGraphData>,
    table: Map<u64, NodeData>,
    kernels: Seq<VxCUserKernel>,
    snapshot: Map<u64, u32>,
    graph: u64,
    nodes: Seq<u64>,
    from: int,
) -> Option<nat> {
    crate::search::first_where(
        (nodes.len() - from) as nat,
        has_turn(graphs, table, kernels, snapshot, graph, nodes, from),
    )
}

/// Finds the next node of an iteration.
pub fn choose_node(
    run: &mut GraphRun,
    graphs: &HashMap<u64, VxCGraphData>,
    table: &HashMap<u64, NodeData>,
    user_kernels: &UserKernels,
) -> (r: NextNode)
    requires
        old(run).at <= old(run).nodes@.len(),
    ensures
        ({
            let from = old(run).at as int;
            let nodes = old(run).nodes@;
            let found = next_turn(
                graphs@,
                table@,
                user_kernels.kernels@,
                old(run).snapshot@,
                old(run).graph,
                nodes,
                from,
            );
            &&& *final(run) == (GraphRun { at: final(run).at, ..*old(run) })
            &&& match found {
                Some(k) => {
                    &&& final(run).at == from + k + 1
                    &&& r == if nodes[from + k] == 0 {
                        NextNode::Invalid
                    } else {
                        NextNode::Run(nodes[from + k])
                    }
                },
                None => final(run).at == nodes.len() && r == NextNode::Over,
            }
        }),
{
    let from: usize = run.at;
    let count: usize = run.nodes.len();
    let ghost run0 = *run;
    let ghost turn = has_turn(
        graphs@,
        table@,
        user_kernels.kernels@,
        run.snapshot@,
        run.graph,
        run.nodes@,
        from as int,
    );
    let ghost left = (count - from) as nat;
    while run.at < count
        invariant
            from <= run.at <= count,
            count == run0.nodes@.len(),
            *run == (GraphRun { at: run.at, ..run0 }),
            run0 == *old(run),
            from == run0.at,
            left == count - from,
            turn == has_turn(
                graphs@,
                table@,
                user_kernels.kernels@,
                run0.snapshot@,
                run0.graph,
                run0.nodes@,
                from as int,
            ),
            forall|k: int| 0 <= k < run.at - from ==> !#[trigger] turn(k),
        decreases count - run.at,
    {
        let at: usize = run.at;
        let node = run.nodes[at];
        run.at = at + 1;
        if node == 0 {
            proof {
                assert(turn(at - from));
                crate::search::lemma_is_first(left, turn, (at - from) as nat);
            }
            return NextNode::Invalid;
        }
        if !is_node_skipped_for_pipeup(
            graphs,
            table,
            user_kernels,
            run.graph,
            node,
            &run.snapshot,
        ) {
            proof {
                assert(turn(at - from));
                crate::search::lemma_is_first(left, turn, (at - from) as nat);
            }
            return NextNode::Run(node);
        }
        assert(!turn(at - from));
    }
    proof {
        crate::search::lemma_is_nowhere(left, turn);
    }
    NextNode::Over
}

/// One more; the count wraps round at the largest number.
pub open spec fn one_more_run(count: u64) -> u64 {
    if count == u64::MAX {
        0
    } else {
        (count + 1) as u64
    }
}

/// The nodes once one of them has run once more.
pub open spec fn with_run(table: Map<u64, NodeData>, node: u64) -> Map<u64, NodeData> {
    if table.contains_key(node) {
        table.insert(
            node,
            NodeData { run_count: one_more_run(table[node].run_count), ..table[node] },
        )
    } else {
        table
    }
}

/// What follows the run of a node.
#[derive(Debug, Clone, Copy, PartialEq, Eq, Structural)]
pub enum AfterNode {
    /// Call the node's callback.
    Callback(u64),
    /// Go on with the next node.
    GoOn,
    /// The run is over, with a status.
    Stop(vx_status),
}

/// Records that a node has run.  A failure abandons the graph.
pub fn node_finished(
    graphs: &mut HashMap<u64, VxCGraphData>,
    table: &mut HashMap<u64, NodeData>,
    graph: u64,
    node: u64,
    status: vx_status,
) -> (r: AfterNode)
    ensures
        status != VX_SUCCESS ==> {
            &&& r == AfterNode::Stop(status)
            &&& final(table)@ == old(table)@
            &&& final(graphs)@ == crate::graphs::with_state(
                old(graphs)@,
                graph,
                VxGraphState::VxGraphStateAbandoned,
            )
        },
        status == VX_SUCCESS ==> {
            &&& final(graphs)@ == old(graphs)@
            &&& final(table)@ == with_run(old(table)@, node)
            &&& r == if old(table)@.contains_key(node) && old(table)@[node].callback is Some {
                AfterNode::Callback(old(table)@[node].callback.unwrap())
            } else {
                AfterNode::GoOn
            }
        },
{
    if status != VX_SUCCESS {
        set_state(graphs, graph, VxGraphState::VxGraphStateAbandoned);
        return AfterNode::Stop(status);
    }
    let mut callback: Option<u64> = None;
    if let Some(mut n) = table.remove(&node) {
        n.run_count = if n.run_count == u64::MAX {
            0
        } else {
            n.run_count + 1
        };
        callback = n.callback;
        table.insert(node, n);
    }
    assert(table@ =~= with_run(old(table)@, node));
    match callback {
        Some(c) => AfterNode::Callback(c),
        None => AfterNode::GoOn,
    }
}

/// Records that a node could not be run at all.
pub fn node_invalid(graphs: &mut HashMap<u64, VxCGraphData>, graph: u64) -> (status: vx_status)
    ensures
        status == VX_ERROR_INVALID_NODE,
        final(graphs)@ == crate::graphs::with_state(
            old(graphs)@,
            graph,
            VxGraphState::VxGraphStateAbandoned,
        ),
{
    set_state(graphs, graph, VxGraphState::VxGraphStateAbandoned);
    VX_ERROR_INVALID_NODE
}

/// Records what a node's callback answered.  It may abandon the graph.
pub fn callback_finished(
    graphs: &mut HashMap<u64, VxCGraphData>,
    graph: u64,
    action: vx_enum,
) -> (r: AfterNode)
    ensures
        action == VX_ACTION_ABANDON ==> r == AfterNode::Stop(VX_ERROR_GRAPH_ABANDONED)
            && final(graphs)@ == crate::graphs::with_state(
            old(graphs)@,
            graph,
            VxGraphState::VxGraphStateAbandoned,
        ),
        action != VX_ACTION_ABANDON ==> r == AfterNode::GoOn && final(graphs)@ == old(graphs)@,
{
    if action == VX_ACTION_ABANDON {
        set_state(graphs, graph, VxGraphState::VxGraphStateAbandoned);
        AfterNode::Stop(VX_ERROR_GRAPH_ABANDONED)
    } else {
        AfterNode::GoOn
    }
}

/// Finds whether a run is over after an iteration: a frame is one iteration, and
/// without queues a steady iteration is the last.
pub fn is_last_iteration(run: &GraphRun) -> (r: bool)
    ensures
        r == (run.streaming || (!run.pipelining && run.steady)),
{
    run.streaming || (!run.pipelining && run.steady)
}

/// The graphs once one of them has run to its end.
pub open spec fn with_completion(
    graphs: Map<u64, VxCGraphData>,
    graph: u64,
) -> Map<u64, VxCGraphData> {
    if graphs.contains_key(graph) {
        graphs.insert(
            graph,
            VxCGraphData {
                state: VxGraphState::VxGraphStateCompleted,
                run_count: one_more_run(graphs[graph].run_count),
                ..graphs[graph]
            },
        )
    } else {
        graphs
    }
}

/// Records that a graph has run to its end.
pub fn run_finished(graphs: &mut HashMap<u64, VxCGraphData>, graph: u64)
    ensures
        final(graphs)@ == with_completion(old(graphs)@, graph),
{
    if let Some(mut g) = graphs.remove(&graph) {
        g.state = VxGraphState::VxGraphStateCompleted;
        g.run_count = if g.run_count == u64::MAX {
            0
        } else {
            g.run_count + 1
        };
        graphs.insert(graph, g);
    }
    assert(graphs@ =~= with_completion(old(graphs)@, graph));
}

/// Without queues and frames a run only ends once a steady iteration has begun, and a
/// steady iteration begins only where no node is filling its pipeline.
pub proof fn law_run_ends_steady(steady: bool, any_pipeup: bool, has_ready: bool)
    ensures
        !begins(steady, false, false, has_ready, any_pipeup) ==> steady && !any_pipeup,
        any_pipeup ==> begins(steady, false, false, has_ready, any_pipeup),
{
}

/// A node that reads only from nodes with pipelines of depth one is never left out.
pub proof fn law_plain_nodes_are_not_skipped(
    graphs: Map<u64, VxCGraphData>,
    table: Map<u64, NodeData>,
    kernels: Seq<VxCUserKernel>,
    snapshot: Map<u64, u32>,
    graph: u64,
    node: u64,
)
    requires
        forall|k: int|
            0 <= k < predecessors_of(graphs, graph, node).len() ==> depth_of(
                table,
                kernels,
                #[trigger] predecessors_of(graphs, graph, node)[k],
            ) <= 1,
    ensures
        !is_skipped(graphs, table, kernels, snapshot, graph, node),
{
}

/// Each completed run counts once.
pub proof fn law_completed_run_counts(graphs: Map<u64, VxCGraphData>, graph: u64)
    requires
        graphs.contains_key(graph),
        graphs[graph].run_count < u64::MAX,
    ensures
        with_completion(graphs, graph)[graph].run_count == graphs[graph].run_count + 1,
        with_completion(graphs, graph)[graph].state == VxGraphState::VxGraphStateCompleted,
{
}

/// When an iteration begins.  With queues it does exactly where a reference is
/// ready; frame by frame it always does; otherwise it does until one began with
/// every pipeline full.
pub proof fn law_iterations_begin(steady: bool, streaming: bool, has_ready: bool, any_pipeup: bool)
    ensures
        begins(steady, true, streaming, has_ready, any_pipeup) == has_ready,
        begins(steady, false, true, has_ready, any_pipeup),
        begins(false, false, false, has_ready, any_pipeup),
        begins(steady, false, false, has_ready, true),
        !begins(true, false, false, has_ready, false),
{
}

/// The node that has its turn is the first of those left that is not left out, or
/// the null reference; every node passed over is left out.
pub proof fn law_nodes_have_their_turn_in_order(
    graphs: Map<u64, VxCGraphData>,
    table: Map<u64, NodeData>,
    kernels: Seq<VxCUserKernel>,
    snapshot: Map<u64, u32>,
    graph: u64,
    nodes: Seq<u64>,
    from: int,
)
    requires
        0 <= from <= nodes.len(),
    ensures
        match next_turn(graphs, table, kernels, snapshot, graph, nodes, from) {
            Some(k) => {
                &&& from + k < nodes.len()
                &&& nodes[from + k] == 0 || !is_skipped(
                    graphs,
                    table,
                    kernels,
                    snapshot,
                    graph,
                    nodes[from + k],
                )
                &&& forall|j: int|
                    from <= j < from + k ==> #[trigger] nodes[j] != 0 && is_skipped(
                        graphs,
                        table,
                        kernels,
                        snapshot,
                        graph,
                        nodes[j],
                    )
            },
            None => forall|j: int|
                from <= j < nodes.len() ==> #[trigger] nodes[j] != 0 && is_skipped(
                    graphs,
                    table,
                    kernels,
                    snapshot,
                    graph,
                    nodes[j],
                ),
        },
{
    let turn = has_turn(graphs, table, kernels, snapshot, graph, nodes, from);
    let left = (nodes.len() - from) as nat;
    crate::search::lemma_first_where(left, turn);
    match next_turn(graphs, table, kernels, snapshot, graph, nodes, from) {
        Some(k) => {
            assert(turn(k as int));
            assert forall|j: int| from <= j < from + k implies #[trigger] nodes[j] != 0
                && is_skipped(graphs, table, kernels, snapshot, graph, nodes[j]) by {
                assert(!turn(j - from));
            }
        },
        None => {
            assert forall|j: int| from <= j < nodes.len() implies #[trigger] nodes[j] != 0
                && is_skipped(graphs, table, kernels, snapshot, graph, nodes[j]) by {
                assert(!turn(j - from));
            }
        },
    }
}

/// A node is left out exactly as long as some node before it has not run often
/// enough to give output: as often as its pipeline is deep, less one.
pub proof fn law_nodes_wait_for_full_pipelines(
    graphs: Map<u64, VxCGraphData>,
    table: Map<u64, NodeData>,
    kernels: Seq<VxCUserKernel>,
    snapshot: Map<u64, u32>,
    graph: u64,
    node: u64,
    before: u64,
)
    requires
        predecessors_of(graphs, graph, node) == seq![before],
        table.contains_key(before),
        snapshot.contains_key(before),
    ensures
        is_skipped(graphs, table, kernels, snapshot, graph, node) <==> snapshot[before] + 1
            < crate::user_kernels::output_depth(kernels, table[before].kernel_id),
{
    assert(predecessors_of(graphs, graph, node)[0] == before);
}

/// An iteration goes by how often each node had run when it began.
pub proof fn law_snapshots_hold_the_runs(
    graphs: Map<u64, VxCGraphData>,
    table: Map<u64, NodeData>,
    graph: u64,
    nodes: Seq<u64>,
    i: int,
)
    requires
        0 <= i < nodes.len(),
        table.contains_key(nodes[i]),
    ensures
        runs_in(snapshot_of(graphs, table, graph, nodes), nodes[i])
            == table[nodes[i]].execution_count,
        runs_in(Map::empty(), nodes[i]) == 0,
{
    assert(concerned(graphs, graph, nodes, nodes[i]));
}

/// A run of a node counts once for it, and for no other node.
pub proof fn law_runs_count_once(table: Map<u64, NodeData>, node: u64, other: u64)
    requires
        table.contains_key(node),
        table[node].run_count < u64::MAX,
        other != node,
    ensures
        with_run(table, node)[node].run_count == table[node].run_count + 1,
        with_run(table, node)[node].parameters == table[node].parameters,
        with_run(table, node)[node].execution_count == table[node].execution_count,
        with_run(table, node).dom() == table.dom(),
        table.contains_key(other) ==> with_run(table, node)[other] == table[other],
{
    assert(with_run(table, node).dom() =~= table.dom());
}

/// What a run comes to is recorded of its own graph alone.
pub proof fn law_completion_is_recorded_alone(
    graphs: Map<u64, VxCGraphData>,
    graph: u64,
    other: u64,
)
    requires
        graphs.contains_key(graph),
        other != graph,
    ensures
        with_completion(graphs, graph).dom() == graphs.dom(),
        graphs.contains_key(other) ==> with_completion(graphs, graph)[other] == graphs[other],
        with_completion(graphs, graph)[graph].nodes == graphs[graph].nodes,
        with_completion(graphs, graph)[graph].verified == graphs[graph].verified,
{
    assert(with_completion(graphs, graph).dom() =~= graphs.dom());
}

/// A graph is still filling while some node of it has run less often than its
/// outputs are deep, the run that is under way included.
pub proof fn law_graphs_fill_with_their_nodes(
    table: Map<u64, NodeData>,
    kernels: Seq<VxCUserKernel>,
    snapshot: Map<u64, u32>,
    nodes: Seq<u64>,
    k: int,
)
    ensures
        0 <= k < nodes.len() && table.contains_key(nodes[k]) && runs_in(snapshot, nodes[k]) + 1
            < crate::user_kernels::output_depth(kernels, table[nodes[k]].kernel_id)
            ==> any_in_pipeup(table, kernels, snapshot, nodes),
        (forall|i: int|
            0 <= i < nodes.len() ==> !table.contains_key(#[trigger] nodes[i]) || runs_in(
                snapshot,
                nodes[i],
            ) + 1 >= crate::user_kernels::output_depth(kernels, table[nodes[i]].kernel_id))
            ==> !any_in_pipeup(table, kernels, snapshot, nodes),
{
    if 0 <= k < nodes.len() && table.contains_key(nodes[k]) && runs_in(snapshot, nodes[k]) + 1
        < crate::user_kernels::output_depth(kernels, table[nodes[k]].kernel_id) {
        assert(in_pipeup(table, kernels, snapshot, nodes[k]));
    }
}

/// Who goes before a node is what its graph recorded, and nobody where it recorded
/// nothing.
pub proof fn law_predecessors(graphs: Map<u64, VxCGraphData>, graph: u64, node: u64)
    ensures
        graphs.contains_key(graph) && graphs[graph].node_predecessors@.contains_key(node)
            ==> predecessors_of(graphs, graph, node) == graphs[graph].node_predecessors@[node]@,
        !graphs.contains_key(graph) ==> predecessors_of(graphs, graph, node).len() == 0,
        graphs.contains_key(graph) && !graphs[graph].node_predecessors@.contains_key(node)
            ==> predecessors_of(graphs, graph, node).len() == 0,
{
}

} // verus!
