use openvx_core::execution::{
    clear_ref_substitutions, execute_node, get_substituted_ref, has_ready,
    resolve_graph_parameter, set_ref_substitution, NodeRun, ParameterQueue, ParameterTables,
};
use openvx_core::naming::KernelTables;
use openvx_core::pairs::PairMap;
use openvx_core::parameters::create_or_update_parameter_with_node;
use openvx_core::records::{
    NodeData, NodeParamBinding, VxCGraphData, VxCKernel, VxCObjectArray, VxCPyramid, VxCUserKernel,
    VxGraphState,
};
use openvx_core::refs::References;
use openvx_core::replicas::{
    build_node_replicas, get_node_graph_id, lookup_node_replication_flags, Containers,
};
use openvx_core::runs::{
    callback_finished, choose_node, execute_graph_nodes, is_last_iteration,
    is_node_in_pipeup_state, is_node_skipped_for_pipeup, node_finished, node_invalid, run_finished,
    start_iteration, AfterNode, NextNode, RunStart, VX_ACTION_ABANDON,
};
use openvx_core::types::{
    vx_border_t, vx_pixel_value_t, VX_DF_IMAGE_U8, VX_ERROR_GRAPH_ABANDONED,
    VX_ERROR_INVALID_GRAPH, VX_ERROR_INVALID_KERNEL, VX_ERROR_INVALID_NODE,
    VX_ERROR_INVALID_PARAMETERS, VX_SUCCESS, VX_TYPE_OBJECT_ARRAY, VX_TYPE_PYRAMID,
};
use openvx_core::user_kernels::{kernel_key, UserKernels};
use std::collections::HashMap;

fn node(kernel_id: u64, parameters: Vec<Option<u64>>) -> NodeData {
    NodeData {
        graph_id: 1,
        kernel_id,
        parameters,
        border_mode: vx_border_t {
            mode: 7,
            constant_value: vx_pixel_value_t {
                b0: 0,
                b1: 0,
                b2: 0,
                b3: 0,
                reserved_1: 0,
                reserved_2: 0,
                reserved_3: 0,
            },
        },
        callback: None,
        execution_count: 0,
        run_count: 0,
        node_state: 0,
        user_kernel_initialized: false,
        local_data_size: 0,
        local_data_ptr: 0,
        local_data_auto_alloc: false,
    }
}

fn graph(nodes: Vec<u64>) -> VxCGraphData {
    VxCGraphData {
        id: 1,
        context_id: 1,
        nodes,
        parameters: vec![],
        state: VxGraphState::VxGraphStateRunning,
        verified: true,
        ref_count: 1,
        run_count: 0,
        replicated_nodes: HashMap::new(),
        owned_refs: vec![],
        topo_waves: vec![],
        node_predecessors: HashMap::new(),
    }
}

fn containers() -> Containers {
    let mut c = Containers {
        item_parents: HashMap::new(),
        levels: HashMap::new(),
        object_arrays: HashMap::new(),
        pyramids: HashMap::new(),
    };
    c.object_arrays.insert(
        5,
        VxCObjectArray {
            exemplar_type: 1,
            count: 3,
            ref_count: 1,
            items: vec![11, 12, 13],
            is_virtual: false,
        },
    );
    c.item_parents.insert(11, (5, 0));
    c.pyramids.insert(
        6,
        VxCPyramid {
            context: 1,
            num_levels: 2,
            scale_bits: 0,
            width: 8,
            height: 8,
            format: VX_DF_IMAGE_U8,
            levels: vec![21, 22],
        },
    );
    c.levels.insert(21, (6, 0));
    c
}

fn live() -> References {
    let mut refs = References::new();
    refs.register(5, VX_TYPE_OBJECT_ARRAY);
    refs.register(6, VX_TYPE_PYRAMID);
    refs
}

#[test]
fn nodes_run_once_for_each_object() {
    let c = containers();
    let refs = live();
    let build = |params: Vec<u64>, flags: Vec<i32>| build_node_replicas(&c, &refs, &params, &flags);
    assert_eq!(
        build(vec![11, 99], vec![1, 0]),
        Some(vec![vec![11, 99], vec![12, 99], vec![13, 99]])
    );
    assert_eq!(
        build(vec![11, 21], vec![1, 1]),
        Some(vec![vec![11, 21], vec![12, 22]])
    );
    assert_eq!(build(vec![99], vec![1]), None);
    assert_eq!(build(vec![11], vec![0]), None);
    assert_eq!(build_node_replicas(&c, &References::new(), &vec![11], &vec![1]), None);
}

#[test]
fn replication_flags_are_found_by_node() {
    let mut graphs = HashMap::new();
    let mut g = graph(vec![3]);
    g.replicated_nodes.insert(3, vec![1, 0]);
    graphs.insert(1, g);
    let mut nodes = HashMap::new();
    nodes.insert(3, node(5, vec![]));
    nodes.insert(4, node(5, vec![]));
    assert_eq!(get_node_graph_id(&nodes, 3), Ok(1));
    assert_eq!(get_node_graph_id(&nodes, 9), Err(()));
    assert_eq!(lookup_node_replication_flags(&graphs, &nodes, 3), Some(vec![1, 0]));
    assert_eq!(lookup_node_replication_flags(&graphs, &nodes, 4), None);
    assert_eq!(lookup_node_replication_flags(&graphs, &nodes, 9), None);
}

#[test]
fn references_are_substituted() {
    let mut map = HashMap::new();
    set_ref_substitution(&mut map, 3, 4);
    assert_eq!(get_substituted_ref(&map, 3), Some(4));
    assert_eq!(get_substituted_ref(&map, 4), None);
    clear_ref_substitutions(&mut map);
    assert_eq!(get_substituted_ref(&map, 3), None);
}

fn parameter_tables() -> ParameterTables {
    ParameterTables {
        params: HashMap::new(),
        known: HashMap::new(),
        graph_bindings: PairMap::new(),
        node_bindings: PairMap::new(),
    }
}

#[test]
fn queues_are_first_come_first_served() {
    let tables = parameter_tables();
    let graphs = HashMap::new();
    let mut queues = HashMap::new();
    let mut subs = HashMap::new();
    queues.insert(
        0,
        ParameterQueue { ready: vec![51, 52], consumed: vec![], valid: vec![50, 51, 52] },
    );
    let mut next = |subs: &mut HashMap<u64, u64>, i: usize| {
        resolve_graph_parameter(&tables, &graphs, &mut queues, subs, 1, i)
    };
    assert_eq!(next(&mut subs, 0), Some(51));
    assert_eq!(get_substituted_ref(&subs, 50), Some(51));
    assert_eq!(next(&mut subs, 0), Some(52));
    assert_eq!(next(&mut subs, 0), Some(52));
    assert_eq!(get_substituted_ref(&subs, 50), Some(52));
    assert_eq!(next(&mut subs, 1), None);
    assert_eq!(queues[&0].consumed, vec![51, 52]);
}

#[test]
fn graph_parameters_settle_without_queues() {
    let mut tables = parameter_tables();
    let mut refs = References::new();
    let mut graphs = HashMap::new();
    let mut g = graph(vec![]);
    g.parameters = vec![70, 71, 72];
    graphs.insert(1, g);
    create_or_update_parameter_with_node(&mut tables.params, &mut refs, 70, 0, 33, 3);
    tables.graph_bindings.insert((1, 1), 44);
    tables.graph_bindings.insert((1, 2), 45);
    tables.known.insert(72, 0);
    let mut queues = HashMap::new();
    let mut subs = HashMap::new();
    let mut find =
        |i: usize| resolve_graph_parameter(&tables, &graphs, &mut queues, &mut subs, 1, i);
    assert_eq!(find(0), Some(33));
    assert_eq!(find(1), Some(44));
    assert_eq!(find(2), None);
    assert_eq!(find(3), None);
}

struct Stage {
    nodes: HashMap<u64, NodeData>,
    graphs: HashMap<u64, VxCGraphData>,
    kernels: KernelTables,
    tables: ParameterTables,
    queues: HashMap<u32, ParameterQueue>,
    subs: HashMap<u64, u64>,
}

fn stage() -> Stage {
    let mut s = Stage {
        nodes: HashMap::new(),
        graphs: HashMap::new(),
        kernels: KernelTables { catalog: HashMap::new(), extra: HashMap::new() },
        tables: parameter_tables(),
        queues: HashMap::new(),
        subs: HashMap::new(),
    };
    s.graphs.insert(1, graph(vec![3]));
    let name = |n: &str| format!("org.khronos.openvx.{}", n);
    s.kernels.catalog.insert(5, VxCKernel::new(5, name("box_3x3")));
    s.kernels.extra.insert(6, VxCKernel::new(6, name("channel_combine")));
    s.kernels.extra.insert(7, VxCKernel::new(7, String::new()));
    s.nodes.insert(3, node(5, vec![Some(11), Some(12)]));
    s
}

fn run(s: &mut Stage, id: u64) -> NodeRun {
    execute_node(
        id,
        &s.nodes,
        &s.graphs,
        &s.kernels,
        &UserKernels::new(),
        &s.tables,
        &containers(),
        &live(),
        &mut s.queues,
        &mut s.subs,
    )
}

fn calls(r: NodeRun) -> Vec<Vec<u64>> {
    match r {
        NodeRun::Run { calls, border, .. } => {
            assert_eq!(border.mode, 7);
            calls
        }
        NodeRun::Fail(status) => panic!("{}", status),
    }
}

fn failure(r: NodeRun) -> i32 {
    match r {
        NodeRun::Fail(status) => status,
        NodeRun::Run { .. } => VX_SUCCESS,
    }
}

#[test]
fn nodes_run_with_their_references() {
    let mut s = stage();
    assert_eq!(calls(run(&mut s, 3)), vec![vec![11, 12]]);
    set_ref_substitution(&mut s.subs, 12, 99);
    assert_eq!(calls(run(&mut s, 3)), vec![vec![11, 99]]);
    s.graphs.get_mut(&1).unwrap().replicated_nodes.insert(3, vec![1, 0]);
    assert_eq!(calls(run(&mut s, 3)), vec![vec![11, 99], vec![12, 99], vec![13, 99]]);
}

#[test]
fn bound_parameters_come_from_the_graph() {
    let mut s = stage();
    s.tables.node_bindings.insert((3, 0), NodeParamBinding::GraphParam(0));
    s.graphs.get_mut(&1).unwrap().parameters = vec![70];
    assert_eq!(failure(run(&mut s, 3)), VX_ERROR_INVALID_PARAMETERS);
    s.tables.graph_bindings.insert((1, 0), 44);
    assert_eq!(calls(run(&mut s, 3)), vec![vec![44, 12]]);
    s.queues.insert(0, ParameterQueue { ready: vec![51], consumed: vec![], valid: vec![12] });
    assert_eq!(calls(run(&mut s, 3)), vec![vec![51, 51]]);
}

#[test]
fn nodes_that_cannot_run() {
    let mut s = stage();
    assert_eq!(failure(run(&mut s, 9)), VX_ERROR_INVALID_NODE);
    s.nodes.insert(3, node(0, vec![Some(11)]));
    assert_eq!(failure(run(&mut s, 3)), VX_ERROR_INVALID_KERNEL);
    s.nodes.insert(3, node(88, vec![Some(11)]));
    assert_eq!(failure(run(&mut s, 3)), VX_ERROR_INVALID_KERNEL);
    s.nodes.insert(3, node(7, vec![Some(11)]));
    assert_eq!(failure(run(&mut s, 3)), VX_ERROR_INVALID_KERNEL);
    s.nodes.insert(3, node(5, vec![]));
    assert_eq!(failure(run(&mut s, 3)), VX_ERROR_INVALID_PARAMETERS);
    s.nodes.insert(3, node(5, vec![None, Some(12)]));
    assert_eq!(failure(run(&mut s, 3)), VX_ERROR_INVALID_PARAMETERS);
    s.nodes.insert(3, node(5, vec![Some(11), Some(0)]));
    assert_eq!(failure(run(&mut s, 3)), VX_ERROR_INVALID_PARAMETERS);
    s.nodes.insert(3, node(6, vec![None, Some(0), Some(12)]));
    assert_eq!(calls(run(&mut s, 3)), vec![vec![0, 0, 12]]);
}

fn deep_kernels() -> UserKernels {
    let mut kernels = UserKernels::new();
    kernels.kernels.push(VxCUserKernel {
        name: "deep".to_string(),
        enumeration: kernel_key(0xFFE0_0000),
        kernel: None,
        validate: None,
        init: None,
        deinit: None,
        num_params: 2,
        context_id: 1,
        local_data_size: 0,
        pipeup_output_depth: 3,
        pipeup_input_depth: 1,
    });
    kernels
}

#[test]
fn nodes_wait_for_pipelines_to_fill() {
    let kernels = deep_kernels();
    let mut nodes = HashMap::new();
    nodes.insert(3, node(0xFFE0_0000, vec![]));
    nodes.insert(4, node(5, vec![]));
    let mut g = graph(vec![3, 4]);
    g.node_predecessors.insert(4, vec![3]);
    let mut graphs = HashMap::new();
    graphs.insert(1, g);
    let mut snapshot = HashMap::new();
    assert!(is_node_in_pipeup_state(&nodes, &kernels, 3, &snapshot));
    assert!(!is_node_in_pipeup_state(&nodes, &kernels, 4, &snapshot));
    assert!(is_node_skipped_for_pipeup(&graphs, &nodes, &kernels, 1, 4, &snapshot));
    assert!(!is_node_skipped_for_pipeup(&graphs, &nodes, &kernels, 1, 3, &snapshot));
    snapshot.insert(3, 2);
    assert!(!is_node_skipped_for_pipeup(&graphs, &nodes, &kernels, 1, 4, &snapshot));
}

fn begin(graphs: &mut HashMap<u64, VxCGraphData>, id: u64) -> RunStart {
    let mut subs = HashMap::new();
    subs.insert(1, 2);
    let r = execute_graph_nodes(graphs, &mut subs, id);
    assert!(subs.is_empty());
    r
}

#[test]
fn runs_begin_and_end() {
    let kernels = UserKernels::new();
    let mut nodes = HashMap::new();
    nodes.insert(3, node(5, vec![]));
    nodes.insert(4, node(5, vec![]));
    let mut graphs = HashMap::new();
    graphs.insert(1, graph(vec![3, 4]));
    graphs.insert(2, graph(vec![]));
    assert!(matches!(begin(&mut graphs, 9), RunStart::Fail(VX_ERROR_INVALID_GRAPH)));
    assert!(matches!(begin(&mut graphs, 2), RunStart::Empty));
    assert_eq!(graphs[&2].state, VxGraphState::VxGraphStateCompleted);
    let mut r = match begin(&mut graphs, 1) {
        RunStart::Go(r) => r,
        _ => panic!("no run"),
    };
    assert!(start_iteration(&mut r, &graphs, &nodes, &kernels, false, false, false));
    assert_eq!(choose_node(&mut r, &graphs, &nodes, &kernels), NextNode::Run(3));
    assert_eq!(node_finished(&mut graphs, &mut nodes, 1, 3, VX_SUCCESS), AfterNode::GoOn);
    assert_eq!(nodes[&3].run_count, 1);
    assert_eq!(choose_node(&mut r, &graphs, &nodes, &kernels), NextNode::Run(4));
    assert_eq!(choose_node(&mut r, &graphs, &nodes, &kernels), NextNode::Over);
    assert!(is_last_iteration(&r));
    assert!(!start_iteration(&mut r, &graphs, &nodes, &kernels, false, false, false));
    run_finished(&mut graphs, 1);
    assert_eq!(graphs[&1].state, VxGraphState::VxGraphStateCompleted);
    assert_eq!(graphs[&1].run_count, 1);
}

#[test]
fn pipelines_are_filled_before_a_run_ends() {
    let kernels = deep_kernels();
    let mut nodes = HashMap::new();
    nodes.insert(3, node(0xFFE0_0000, vec![]));
    nodes.insert(4, node(5, vec![]));
    let mut g = graph(vec![3, 4]);
    g.node_predecessors.insert(4, vec![3]);
    let mut graphs = HashMap::new();
    graphs.insert(1, g);
    let mut r = match begin(&mut graphs, 1) {
        RunStart::Go(r) => r,
        _ => panic!("no run"),
    };
    assert!(start_iteration(&mut r, &graphs, &nodes, &kernels, false, false, false));
    assert_eq!(choose_node(&mut r, &graphs, &nodes, &kernels), NextNode::Run(3));
    assert_eq!(choose_node(&mut r, &graphs, &nodes, &kernels), NextNode::Over);
    assert!(!is_last_iteration(&r));
    nodes.get_mut(&3).unwrap().execution_count = 2;
    assert!(start_iteration(&mut r, &graphs, &nodes, &kernels, false, false, false));
    assert_eq!(choose_node(&mut r, &graphs, &nodes, &kernels), NextNode::Run(3));
    assert_eq!(choose_node(&mut r, &graphs, &nodes, &kernels), NextNode::Run(4));
    assert!(is_last_iteration(&r));
}

#[test]
fn queues_and_frames_decide_about_iterations() {
    let kernels = UserKernels::new();
    let mut nodes = HashMap::new();
    nodes.insert(3, node(5, vec![]));
    let mut graphs = HashMap::new();
    graphs.insert(1, graph(vec![3]));
    let mut r = match begin(&mut graphs, 1) {
        RunStart::Go(r) => r,
        _ => panic!("no run"),
    };
    assert!(!start_iteration(&mut r, &graphs, &nodes, &kernels, true, false, false));
    assert!(start_iteration(&mut r, &graphs, &nodes, &kernels, true, false, true));
    assert!(!is_last_iteration(&r));
    assert!(start_iteration(&mut r, &graphs, &nodes, &kernels, false, true, false));
    assert!(is_last_iteration(&r));
}

#[test]
fn failures_and_callbacks_abandon_graphs() {
    let mut nodes = HashMap::new();
    let mut n = node(5, vec![]);
    n.callback = Some(77);
    nodes.insert(3, n);
    let mut graphs = HashMap::new();
    graphs.insert(1, graph(vec![3]));
    assert_eq!(
        node_finished(&mut graphs, &mut nodes, 1, 3, VX_SUCCESS),
        AfterNode::Callback(77)
    );
    assert_eq!(callback_finished(&mut graphs, 1, 0), AfterNode::GoOn);
    assert_eq!(graphs[&1].state, VxGraphState::VxGraphStateRunning);
    assert_eq!(
        callback_finished(&mut graphs, 1, VX_ACTION_ABANDON),
        AfterNode::Stop(VX_ERROR_GRAPH_ABANDONED)
    );
    assert_eq!(graphs[&1].state, VxGraphState::VxGraphStateAbandoned);
    graphs.insert(1, graph(vec![3]));
    assert_eq!(node_finished(&mut graphs, &mut nodes, 1, 3, -4), AfterNode::Stop(-4));
    assert_eq!(graphs[&1].state, VxGraphState::VxGraphStateAbandoned);
    assert_eq!(nodes[&3].run_count, 1);
    graphs.insert(1, graph(vec![0]));
    assert_eq!(node_invalid(&mut graphs, 1), VX_ERROR_INVALID_NODE);
    assert_eq!(graphs[&1].state, VxGraphState::VxGraphStateAbandoned);
}

#[test]
fn a_ready_reference_is_seen_in_any_queue() {
    let mut queues: HashMap<u32, ParameterQueue> = HashMap::new();
    assert!(!has_ready(&queues));
    queues.insert(0, ParameterQueue { ready: vec![], consumed: vec![51], valid: vec![51] });
    assert!(!has_ready(&queues));
    queues.insert(3, ParameterQueue { ready: vec![52], consumed: vec![], valid: vec![52] });
    assert!(has_ready(&queues));
}
