use openvx_core::constants::{
    VX_GRAPH_ATTRIBUTE_NUM_NODES, VX_GRAPH_ATTRIBUTE_NUM_PARAMETERS,
    VX_GRAPH_ATTRIBUTE_PERFORMANCE, VX_GRAPH_ATTRIBUTE_STATE, VX_GRAPH_ATTRIBUTE_STATUS,
    VX_GRAPH_STATE_ABANDONED, VX_GRAPH_STATE_COMPLETED, VX_GRAPH_STATE_RUNNING,
    VX_GRAPH_STATE_UNVERIFIED, VX_GRAPH_STATE_VERIFIED,
};
use openvx_core::graphs::{
    convert_graph_state_to_vx, generate_graph_id, graph_add_owned_ref, needs_verification,
    set_state, vxIsGraphVerified, vxProcessGraph, vxQueryGraph, vxReplicateNode, vxScheduleGraph,
    vxWaitGraph, GraphAnswer, Waiting,
};
use openvx_core::image::VxCImage;
use openvx_core::lifecycle::{
    advance_hook, collect_hooks, deinit_user_kernel_node, find_hook, finish_deinit,
    is_user_kernel_in_init, pop_user_kernel_in_init, push_user_kernel_in_init, HookAction, HookRun,
    HookStage, UserKernelHook,
};
use openvx_core::pyramids::{infer_pyramid, resize_pyramid};
use openvx_core::records::{
    NodeData, VxCGraphData, VxCPyramid, VxCUserKernel, VxGraphState, VxMetaFormat,
};
use openvx_core::refs::References;
use openvx_core::types::{
    vx_border_t, vx_pixel_value_t, vx_rectangle_t, VX_DF_IMAGE_U8, VX_DF_IMAGE_VIRT,
    VX_ERROR_GRAPH_ABANDONED, VX_ERROR_GRAPH_SCHEDULED, VX_ERROR_INVALID_GRAPH,
    VX_ERROR_INVALID_PARAMETERS, VX_ERROR_INVALID_REFERENCE, VX_ERROR_NOT_SUPPORTED, VX_SUCCESS,
    VX_TYPE_IMAGE, VX_TYPE_PYRAMID,
};
use openvx_core::user_kernels::{kernel_handle, kernel_key, UserKernels};
use openvx_core::valid_rects::{
    apply_valid_rect_callbacks, collect_valid_rects, list_rect_callbacks, read_image_valid_rect,
    write_image_valid_rect, VX_VALID_RECT_CALLBACK,
};
use openvx_core::values::Value;
use std::collections::HashMap;

fn rect(a: u32, b: u32, c: u32, d: u32) -> vx_rectangle_t {
    vx_rectangle_t { start_x: a, start_y: b, end_x: c, end_y: d }
}

fn image(width: u32, height: u32, format: u32) -> VxCImage {
    VxCImage {
        width,
        height,
        format,
        is_virtual: false,
        context: 1,
        data: vec![],
        parent: None,
        is_external_memory: false,
        external_ptrs: vec![],
        external_strides: vec![],
        external_stride_x: vec![],
        external_dim_x: vec![],
        external_dim_y: vec![],
        roi_offsets: vec![],
        is_from_handle: false,
        channel_plane_offset: 0,
        parent_plane_index: None,
        valid_rect: rect(0, 0, 0, 0),
    }
}

fn graph(state: VxGraphState) -> VxCGraphData {
    VxCGraphData {
        id: 1,
        context_id: 1,
        nodes: vec![7, 8],
        parameters: vec![9],
        state,
        verified: false,
        ref_count: 1,
        run_count: 3,
        replicated_nodes: HashMap::new(),
        owned_refs: vec![],
        topo_waves: vec![],
        node_predecessors: HashMap::new(),
    }
}

fn node(kernel_id: u64) -> NodeData {
    NodeData {
        graph_id: 1,
        kernel_id,
        parameters: vec![Some(3), None],
        border_mode: vx_border_t {
            mode: 0,
            constant_value: vx_pixel_value_t {
                b0: 0,
                b1: 0,
                b2: 0,
                b3: 0,
                reserved_1: 0,
                reserved_2: 0,
                reserved_3: 0,
            },
        },
        callback: None,
        execution_count: 0,
        run_count: 0,
        node_state: 0,
        user_kernel_initialized: false,
        local_data_size: 0,
        local_data_ptr: 0,
        local_data_auto_alloc: false,
    }
}

#[test]
fn graph_numbers_count_up() {
    let mut next: u64 = 5;
    assert_eq!(generate_graph_id(&mut next), 5);
    assert_eq!(generate_graph_id(&mut next), 6);
    next = u64::MAX;
    assert_eq!(generate_graph_id(&mut next), u64::MAX);
    assert_eq!(next, 0);
}

#[test]
fn states_have_their_numbers() {
    let n = |s: VxGraphState| convert_graph_state_to_vx(s);
    assert_eq!(n(VxGraphState::VxGraphStateUnverified), VX_GRAPH_STATE_UNVERIFIED);
    assert_eq!(n(VxGraphState::VxGraphStateVerified), VX_GRAPH_STATE_VERIFIED);
    assert_eq!(n(VxGraphState::VxGraphStateRunning), VX_GRAPH_STATE_RUNNING);
    assert_eq!(n(VxGraphState::VxGraphStateAbandoned), VX_GRAPH_STATE_ABANDONED);
    assert_eq!(n(VxGraphState::VxGraphStateCompleted), VX_GRAPH_STATE_COMPLETED);
}

#[test]
fn graphs_answer_their_attributes() {
    let mut graphs = HashMap::new();
    graphs.insert(1, graph(VxGraphState::VxGraphStateVerified));
    let one = |a: i32, s: usize| match vxQueryGraph(&graphs, 1, a, 1, s) {
        Ok(GraphAnswer::One(v)) => v,
        _ => panic!("no answer"),
    };
    assert_eq!(one(VX_GRAPH_ATTRIBUTE_NUM_NODES, 4), Value::Number(2));
    assert_eq!(one(VX_GRAPH_ATTRIBUTE_NUM_PARAMETERS, 4), Value::Number(1));
    assert_eq!(one(VX_GRAPH_ATTRIBUTE_STATE, 4), Value::Enum(VX_GRAPH_STATE_VERIFIED));
    assert_eq!(one(VX_GRAPH_ATTRIBUTE_STATUS, 4), Value::Int(VX_SUCCESS));
    match vxQueryGraph(&graphs, 1, VX_GRAPH_ATTRIBUTE_PERFORMANCE, 1, 64) {
        Ok(GraphAnswer::Performance(p)) => {
            assert_eq!((p.beg, p.end, p.sum, p.avg), (5, 6, 3, 1));
            assert_eq!((p.min, p.max, p.num, p.tmp), (1, 3, 3, 0));
        }
        _ => panic!("no run times"),
    }
    let err = |g: u64, a: i32, p: u64, s: usize| vxQueryGraph(&graphs, g, a, p, s).err();
    assert_eq!(err(0, VX_GRAPH_ATTRIBUTE_STATE, 1, 4), Some(VX_ERROR_INVALID_REFERENCE));
    assert_eq!(err(1, VX_GRAPH_ATTRIBUTE_STATE, 0, 4), Some(VX_ERROR_INVALID_PARAMETERS));
    assert_eq!(err(2, VX_GRAPH_ATTRIBUTE_STATE, 1, 4), Some(VX_ERROR_INVALID_GRAPH));
    assert_eq!(err(1, VX_GRAPH_ATTRIBUTE_STATE, 1, 8), Some(VX_ERROR_INVALID_PARAMETERS));
    assert_eq!(err(1, 7, 1, 4), Some(VX_ERROR_NOT_SUPPORTED));
}

#[test]
fn graphs_are_waited_for() {
    let mut graphs = HashMap::new();
    graphs.insert(1, graph(VxGraphState::VxGraphStateVerified));
    assert_eq!(vxWaitGraph(&graphs, 0, false, false), Waiting::Over(VX_ERROR_INVALID_REFERENCE));
    assert_eq!(vxWaitGraph(&graphs, 2, false, false), Waiting::Over(VX_ERROR_INVALID_GRAPH));
    assert_eq!(vxWaitGraph(&graphs, 2, true, false), Waiting::ForExecutions);
    assert_eq!(vxWaitGraph(&graphs, 1, false, false), Waiting::Over(VX_ERROR_INVALID_GRAPH));
    assert_eq!(vxWaitGraph(&graphs, 1, false, true), Waiting::Again);
    set_state(&mut graphs, 1, VxGraphState::VxGraphStateRunning);
    assert_eq!(vxWaitGraph(&graphs, 1, false, false), Waiting::Again);
    set_state(&mut graphs, 1, VxGraphState::VxGraphStateCompleted);
    assert_eq!(vxWaitGraph(&graphs, 1, false, true), Waiting::Over(VX_SUCCESS));
    set_state(&mut graphs, 1, VxGraphState::VxGraphStateAbandoned);
    assert_eq!(vxWaitGraph(&graphs, 1, false, true), Waiting::Over(VX_ERROR_GRAPH_ABANDONED));
}

#[test]
fn graphs_begin_to_run() {
    let mut graphs = HashMap::new();
    graphs.insert(1, graph(VxGraphState::VxGraphStateVerified));
    assert_eq!(needs_verification(&graphs, 1), Ok(true));
    assert_eq!(needs_verification(&graphs, 0), Err(VX_ERROR_INVALID_REFERENCE));
    assert_eq!(needs_verification(&graphs, 2), Err(VX_ERROR_INVALID_GRAPH));
    assert_eq!(vxIsGraphVerified(&graphs, 1), 0);
    assert_eq!(vxProcessGraph(&mut graphs, 1, -5), -5);
    assert_eq!(graphs[&1].state, VxGraphState::VxGraphStateVerified);
    assert_eq!(vxScheduleGraph(&mut graphs, 1, -5), -5);
    assert_eq!(vxScheduleGraph(&mut graphs, 1, VX_SUCCESS), VX_SUCCESS);
    assert_eq!(graphs[&1].state, VxGraphState::VxGraphStateRunning);
    assert_eq!(vxScheduleGraph(&mut graphs, 1, VX_SUCCESS), VX_ERROR_GRAPH_SCHEDULED);
    assert_eq!(vxProcessGraph(&mut graphs, 1, VX_SUCCESS), VX_SUCCESS);
    assert_eq!(vxProcessGraph(&mut graphs, 2, VX_SUCCESS), VX_ERROR_INVALID_GRAPH);
    assert_eq!(vxScheduleGraph(&mut graphs, 0, VX_SUCCESS), VX_ERROR_INVALID_REFERENCE);
}

#[test]
fn replications_and_owned_references_are_recorded() {
    let mut graphs = HashMap::new();
    graphs.insert(1, graph(VxGraphState::VxGraphStateUnverified));
    assert_eq!(vxReplicateNode(&mut graphs, 1, 7, 1, vec![1, 0]), VX_SUCCESS);
    assert_eq!(graphs[&1].replicated_nodes[&7], vec![1, 0]);
    assert_eq!(vxReplicateNode(&mut graphs, 1, 0, 1, vec![1]), VX_ERROR_INVALID_REFERENCE);
    assert_eq!(vxReplicateNode(&mut graphs, 1, 7, 1, vec![]), VX_ERROR_INVALID_PARAMETERS);
    assert_eq!(vxReplicateNode(&mut graphs, 2, 7, 1, vec![1]), VX_ERROR_INVALID_GRAPH);
    graph_add_owned_ref(&mut graphs, 1, 50);
    graph_add_owned_ref(&mut graphs, 1, 0);
    graph_add_owned_ref(&mut graphs, 9, 51);
    assert_eq!(graphs[&1].owned_refs, vec![50]);
}

#[test]
fn nodes_inside_an_initializer_are_stacked() {
    let mut stack = vec![];
    assert!(!is_user_kernel_in_init(&stack, 5));
    push_user_kernel_in_init(&mut stack, 5);
    push_user_kernel_in_init(&mut stack, 6);
    assert!(is_user_kernel_in_init(&stack, 6));
    assert!(is_user_kernel_in_init(&stack, 5));
    assert!(!is_user_kernel_in_init(&stack, 7));
    pop_user_kernel_in_init(&mut stack);
    assert!(is_user_kernel_in_init(&stack, 5));
    pop_user_kernel_in_init(&mut stack);
    pop_user_kernel_in_init(&mut stack);
    assert!(stack.is_empty());
}

fn hook(local: usize) -> UserKernelHook {
    UserKernelHook {
        node_id: 7,
        param_refs: vec![3],
        validate: Some(100),
        init: Some(200),
        deinit: Some(300),
        auto_local_size: local,
    }
}

#[test]
fn hooks_validate_allocate_and_initialize() {
    let h = hook(16);
    let run = HookRun { node: Some(node(1)), stack: vec![], stage: HookStage::Begin };
    let (run, action) = advance_hook(run, &h, 0, 0);
    assert_eq!(action, HookAction::CallValidate(100));
    let (run, action) = advance_hook(run, &h, VX_SUCCESS, 0);
    assert_eq!(action, HookAction::ApplyValidRects);
    let (run, action) = advance_hook(run, &h, VX_SUCCESS, 0);
    assert_eq!(action, HookAction::Allocate(16));
    let (run, action) = advance_hook(run, &h, VX_SUCCESS, 0x1000);
    assert_eq!(action, HookAction::CallInit(200));
    assert_eq!(run.stack, vec![7]);
    let (run, action) = advance_hook(run, &h, VX_SUCCESS, 0);
    assert_eq!(action, HookAction::Done);
    assert!(run.stack.is_empty());
    let n = run.node.unwrap();
    assert!(n.user_kernel_initialized);
    assert!(n.local_data_auto_alloc);
    assert_eq!((n.local_data_ptr, n.local_data_size), (0x1000, 16));
}

#[test]
fn hooks_tear_down_what_was_there() {
    let h = hook(0);
    let mut before = node(1);
    before.user_kernel_initialized = true;
    before.local_data_auto_alloc = true;
    before.local_data_ptr = 0x1000;
    before.local_data_size = 16;
    let run = HookRun { node: Some(before), stack: vec![], stage: HookStage::Begin };
    let (run, action) = advance_hook(run, &h, 0, 0);
    assert_eq!(action, HookAction::CallDeinit(300));
    assert_eq!(run.stack, vec![7]);
    let (run, action) = advance_hook(run, &h, -1, 0);
    assert_eq!(action, HookAction::Free(0x1000, 16));
    assert!(run.stack.is_empty());
    let (run, action) = advance_hook(run, &h, 0, 0);
    assert_eq!(action, HookAction::CallValidate(100));
    let (run, action) = advance_hook(run, &h, -12, 0);
    assert_eq!(action, HookAction::Fail(-12));
    assert!(!run.node.unwrap().user_kernel_initialized);
}

#[test]
fn failing_initializers_leave_the_node_uninitialized() {
    let mut h = hook(0);
    h.validate = None;
    let run = HookRun { node: Some(node(1)), stack: vec![4], stage: HookStage::Begin };
    let (run, action) = advance_hook(run, &h, 0, 0);
    assert_eq!(action, HookAction::CallInit(200));
    let (run, action) = advance_hook(run, &h, -3, 0);
    assert_eq!(action, HookAction::Fail(-3));
    assert_eq!(run.stack, vec![4]);
    assert!(!run.node.unwrap().user_kernel_initialized);
}

fn user_kernels() -> UserKernels {
    let mut kernels = UserKernels::new();
    kernels.kernels.push(VxCUserKernel {
        name: "mine".to_string(),
        enumeration: kernel_key(0xFFE0_0000),
        kernel: None,
        validate: Some(100),
        init: None,
        deinit: Some(300),
        num_params: 2,
        context_id: 1,
        local_data_size: 8,
        pipeup_output_depth: 1,
        pipeup_input_depth: 1,
    });
    kernels
}

#[test]
fn hooks_are_collected_for_user_kernels_only() {
    let kernels = user_kernels();
    let mut nodes = HashMap::new();
    let handle = kernel_handle(kernel_key(0xFFE0_0000));
    assert_eq!(handle, 0xFFFF_FFFF_FFE0_0000);
    assert_eq!(kernel_key(handle), kernel_key(0xFFE0_0000));
    nodes.insert(7, node(handle));
    nodes.insert(8, node(5));
    nodes.insert(9, node(handle + 1));
    let hooks = collect_hooks(&nodes, &kernels, &vec![8, 7, 9, 10]);
    assert_eq!(hooks.len(), 1);
    assert_eq!(hooks[0].node_id, 7);
    assert_eq!(hooks[0].param_refs, vec![3, 0]);
    assert_eq!(hooks[0].auto_local_size, 8);
    assert!(find_hook(&nodes, &kernels, 8).is_none());
}

#[test]
fn nodes_are_taken_out_of_use_once() {
    let kernels = user_kernels();
    let mut nodes = HashMap::new();
    let mut n = node(0xFFE0_0000);
    n.user_kernel_initialized = true;
    n.local_data_auto_alloc = true;
    n.local_data_ptr = 0x1000;
    n.local_data_size = 8;
    nodes.insert(7, n);
    let t = deinit_user_kernel_node(&nodes, &kernels, 7).unwrap();
    assert_eq!(t.deinit, Some(300));
    assert_eq!(t.free, Some((0x1000, 8)));
    assert_eq!(t.param_refs, vec![3, 0]);
    finish_deinit(&mut nodes, 7);
    assert!(deinit_user_kernel_node(&nodes, &kernels, 7).is_none());
    finish_deinit(&mut nodes, 7);
    assert_eq!(nodes[&7].local_data_ptr, 0);
    assert!(deinit_user_kernel_node(&nodes, &kernels, 8).is_none());
}

#[test]
fn valid_rectangles_round_trip() {
    let mut images = HashMap::new();
    images.insert(5, image(4, 3, VX_DF_IMAGE_U8));
    assert_eq!(read_image_valid_rect(&images, 5), rect(0, 0, 4, 3));
    assert_eq!(read_image_valid_rect(&images, 6), rect(0, 0, 0, 0));
    write_image_valid_rect(&mut images, 5, &rect(1, 1, 3, 2));
    assert_eq!(read_image_valid_rect(&images, 5), rect(1, 1, 3, 2));
    apply_valid_rect_callbacks(&mut images, 5, -1, &rect(0, 0, 1, 1));
    assert_eq!(read_image_valid_rect(&images, 5), rect(1, 1, 3, 2));
    apply_valid_rect_callbacks(&mut images, 5, VX_SUCCESS, &rect(0, 0, 1, 1));
    assert_eq!(read_image_valid_rect(&images, 5), rect(0, 0, 1, 1));
}

#[test]
fn rectangle_callbacks_are_listed() {
    let mut images = HashMap::new();
    images.insert(5, image(4, 3, VX_DF_IMAGE_U8));
    let refs = References::new();
    assert_eq!(
        collect_valid_rects(&vec![5, 0, 9], &refs, &images),
        vec![rect(0, 0, 4, 3), rect(0, 0, 0, 0), rect(0, 0, 0, 0)]
    );
    let meta = |v: u64| {
        let mut m = VxMetaFormat { attributes: HashMap::new() };
        m.attributes.insert(VX_VALID_RECT_CALLBACK, v.to_le_bytes().to_vec());
        m
    };
    let metas = vec![meta(0), meta(77), meta(88)];
    assert_eq!(list_rect_callbacks(&vec![5, 5, 9], &metas, &refs, &images), vec![(1, 77)]);
    assert!(list_rect_callbacks(&vec![5, 5], &metas, &refs, &images).is_empty());
}

fn pyramid(width: u32, height: u32, format: u32) -> VxCPyramid {
    VxCPyramid {
        context: 1,
        num_levels: 2,
        scale_bits: 0.5f32.to_bits(),
        width,
        height,
        format,
        levels: vec![61, 62],
    }
}

#[test]
fn pyramids_take_their_shape_from_an_image() {
    let mut refs = References::new();
    refs.register(60, VX_TYPE_PYRAMID);
    refs.register(10, VX_TYPE_IMAGE);
    let mut images = HashMap::new();
    images.insert(10, image(8, 6, VX_DF_IMAGE_U8));
    images.insert(61, image(0, 0, VX_DF_IMAGE_VIRT));
    images.insert(62, image(4, 3, VX_DF_IMAGE_U8));
    let mut pyramids = HashMap::new();
    pyramids.insert(60, pyramid(0, 0, VX_DF_IMAGE_VIRT));
    let params = vec![10, 60];
    let found = infer_pyramid(&params, &refs, &images, &pyramids, 60);
    assert_eq!(found, Some((8, 6, VX_DF_IMAGE_U8)));
    assert_eq!(infer_pyramid(&params, &refs, &images, &pyramids, 10), None);
    assert_eq!(infer_pyramid(&vec![60], &refs, &images, &pyramids, 60), None);
    resize_pyramid(
        &mut images,
        &mut pyramids,
        60,
        8,
        6,
        VX_DF_IMAGE_U8,
        &vec![(8, 6), (4, 3)],
    );
    assert_eq!((pyramids[&60].width, pyramids[&60].height), (8, 6));
    assert_eq!(images[&61].data.len(), 48);
    assert_eq!((images[&61].width, images[&61].height), (8, 6));
    assert!(images[&62].data.is_empty());
    assert_eq!(infer_pyramid(&params, &refs, &images, &pyramids, 60), None);
}
