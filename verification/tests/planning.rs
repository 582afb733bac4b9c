use openvx_core::image::VxCImage;
use openvx_core::naming::KernelTables;
use openvx_core::order::{find_cycle, node_feeds};
use openvx_core::outputs::{builtin_outputs, parameter_is_output, OutputSpan};
use openvx_core::records::{
    NodeData, UserKernelParam, VirtualImageInfo, VxCGraphData, VxCKernel, VxGraphState,
};
use openvx_core::refs::References;
use openvx_core::schedule::{count_awaited, list_ids, run_order};
use openvx_core::types::{
    vx_border_t, vx_pixel_value_t, vx_rectangle_t, VX_DF_IMAGE_RGB, VX_DF_IMAGE_S16,
    VX_DF_IMAGE_U8, VX_DF_IMAGE_VIRT, VX_ERROR_INVALID_GRAPH, VX_ERROR_INVALID_PARAMETERS,
    VX_ERROR_INVALID_REFERENCE, VX_ERROR_NO_MEMORY, VX_INPUT, VX_OUTPUT, VX_SUCCESS, VX_TYPE_IMAGE,
    VX_TYPE_SCALAR,
};
use openvx_core::user_kernels::UserKernels;
use openvx_core::verify::{finish_verification, plan_graph, vxVerifyGraph};
use openvx_core::virtual_images::{
    allocate_virtual_image_storage, infer_output_format, is_virtual_image, resolve_virtual_images,
};
use openvx_core::waves::{find_predecessors, find_waves, group_waves};
use openvx_core::wiring::{connect, find_level_pyramid, find_region_parent, wire, Wire};
use std::collections::HashMap;

fn image(width: u32, height: u32, format: u32) -> VxCImage {
    VxCImage {
        width,
        height,
        format,
        is_virtual: false,
        context: 1,
        data: vec![],
        parent: None,
        is_external_memory: false,
        external_ptrs: vec![],
        external_strides: vec![],
        external_stride_x: vec![],
        external_dim_x: vec![],
        external_dim_y: vec![],
        roi_offsets: vec![],
        is_from_handle: false,
        channel_plane_offset: 0,
        parent_plane_index: None,
        valid_rect: vx_rectangle_t { start_x: 0, start_y: 0, end_x: 0, end_y: 0 },
    }
}

fn step(id: u64, reads: &[u64], writes: &[u64]) -> Wire {
    let mut refs = reads.to_vec();
    refs.extend_from_slice(writes);
    Wire { id, refs, reads: reads.to_vec(), writes: writes.to_vec() }
}

fn images_of(handles: &[u64]) -> References {
    let mut refs = References::new();
    for h in handles {
        refs.register(*h, VX_TYPE_IMAGE);
    }
    refs
}

/// 3 and 4 both read what 2 writes, and 1 reads what they write.
fn diamond() -> Vec<Wire> {
    vec![
        step(1, &[30, 40], &[50]),
        step(2, &[10], &[20]),
        step(3, &[20], &[30]),
        step(4, &[20], &[40]),
    ]
}

#[test]
fn built_in_kernels_know_their_outputs() {
    let span = |first: usize, last: usize| Some(OutputSpan { first, last });
    assert_eq!(builtin_outputs("org.khronos.openvx.box_3x3"), span(1, 1));
    assert_eq!(builtin_outputs("org.khronos.openvx.add"), span(3, 3));
    assert_eq!(builtin_outputs("org.khronos.openvx.sobel_3x3"), span(1, 2));
    assert_eq!(builtin_outputs("org.khronos.openvx.minmaxloc"), span(1, 6));
    assert_eq!(builtin_outputs("org.khronos.openvx.multiply"), span(5, 5));
    assert_eq!(builtin_outputs("mine"), None);
}

#[test]
fn other_kernels_declare_their_outputs() {
    let param = |direction: i32| UserKernelParam { direction, data_type: 1, state: 1 };
    let declared = vec![param(VX_OUTPUT), param(VX_INPUT)];
    assert!(parameter_is_output(None, Some(&declared), 0));
    assert!(!parameter_is_output(None, Some(&declared), 1));
    assert!(!parameter_is_output(None, Some(&declared), 2));
    assert!(!parameter_is_output(None, None, 0));
    assert!(parameter_is_output(None, None, 1));
    let span = Some(OutputSpan { first: 1, last: 1 });
    assert!(!parameter_is_output(span, Some(&declared), 0));
    assert!(parameter_is_output(span, Some(&declared), 1));
}

#[test]
fn parameters_are_read_or_written() {
    let mut refs = images_of(&[10, 20, 30]);
    refs.register(40, VX_TYPE_SCALAR);
    let params = vec![Some(10), None, Some(40), Some(20), Some(99)];
    let w = wire(7, &params, "org.khronos.openvx.add", None, &refs, &HashMap::new());
    assert_eq!(w.id, 7);
    assert_eq!(w.refs, vec![10, 40, 20, 99]);
    assert_eq!(w.reads, vec![10]);
    assert_eq!(w.writes, vec![20]);
}

#[test]
fn two_writers_are_refused() {
    assert!(connect(&vec![step(1, &[10], &[20]), step(2, &[11], &[20])]).is_none());
    let wiring = connect(&diamond()).unwrap();
    assert_eq!(wiring.producer[&20], 2);
    assert_eq!(wiring.consumers.list(20), vec![3, 4]);
    assert_eq!(wiring.outputs.list(1), vec![50]);
    assert!(wiring.consumers.list(50).is_empty());
}

#[test]
fn feeding_and_cycles() {
    let wires = diamond();
    let wiring = connect(&wires).unwrap();
    assert!(node_feeds(&wiring, 2, 3));
    assert!(node_feeds(&wiring, 3, 1));
    assert!(!node_feeds(&wiring, 2, 1));
    assert!(!find_cycle(&wiring, &list_ids(&wires)));
    let circle = vec![step(1, &[10], &[20]), step(2, &[20], &[10])];
    let wiring = connect(&circle).unwrap();
    assert!(find_cycle(&wiring, &list_ids(&circle)));
    let own = vec![step(1, &[10], &[10])];
    let wiring = connect(&own).unwrap();
    assert!(!find_cycle(&wiring, &list_ids(&own)));
}

#[test]
fn nodes_run_after_what_feeds_them() {
    let wires = diamond();
    let wiring = connect(&wires).unwrap();
    let ids = list_ids(&wires);
    assert_eq!(count_awaited(&wiring, &ids), vec![2, 0, 1, 1]);
    let order = run_order(&wiring, &ids);
    assert_eq!(order, vec![2, 4, 3, 1]);
    let waves = find_waves(&wiring, &order);
    assert_eq!(waves, vec![0, 1, 1, 2]);
    assert_eq!(group_waves(&order, &waves), vec![vec![2], vec![4, 3], vec![1]]);
    assert_eq!(group_waves(&vec![], &vec![]), vec![Vec::<u64>::new()]);
    assert_eq!(find_predecessors(&wiring, &ids, 1), vec![3, 4]);
    assert!(find_predecessors(&wiring, &ids, 2).is_empty());
}

#[test]
fn a_node_that_writes_a_datum_twice_counts_once() {
    let wires = vec![
        step(1, &[20, 40], &[50]),
        step(2, &[10], &[20, 20]),
        step(3, &[20], &[40]),
        step(4, &[30], &[30]),
    ];
    let wiring = connect(&wires).unwrap();
    let ids = list_ids(&wires);
    assert_eq!(count_awaited(&wiring, &ids), vec![2, 0, 1, 0]);
    let order = run_order(&wiring, &ids);
    let at = |node: u64| order.iter().position(|n| *n == node).unwrap();
    assert_eq!(order.len(), 4);
    assert!(at(2) < at(3) && at(3) < at(1));
}

#[test]
fn plans_hold_order_waves_and_predecessors() {
    let refs = images_of(&[10, 20, 30, 40, 50]);
    let plan = plan_graph(&diamond(), &refs, &HashMap::new(), &HashMap::new()).unwrap();
    assert_eq!(plan.order, vec![2, 4, 3, 1]);
    assert_eq!(plan.waves, vec![vec![2], vec![4, 3], vec![1]]);
    assert_eq!(plan.predecessors[&1], vec![3, 4]);
    assert_eq!(plan.predecessors[&3], vec![2]);
    let circle = vec![step(1, &[10], &[20]), step(2, &[20], &[10])];
    assert!(plan_graph(&circle, &refs, &HashMap::new(), &HashMap::new()).is_none());
}

#[test]
fn regions_stand_for_their_image() {
    let refs = images_of(&[10, 20, 21, 30]);
    let mut images = HashMap::new();
    let mut region = image(1, 1, VX_DF_IMAGE_U8);
    region.parent = Some(20);
    region.roi_offsets = vec![(0, 0)];
    images.insert(21, region);
    assert_eq!(find_region_parent(&refs, &images, 21), Some(20));
    assert_eq!(find_region_parent(&refs, &images, 20), None);
    let wires = vec![step(2, &[20], &[30]), step(1, &[10], &[21])];
    let plan = plan_graph(&wires, &refs, &images, &HashMap::new()).unwrap();
    assert_eq!(plan.order, vec![1, 2]);
    assert_eq!(plan.predecessors[&2], vec![1]);
    assert_eq!(plan.waves, vec![vec![1], vec![2]]);
}

#[test]
fn readers_of_a_region_run_in_a_later_wave() {
    let refs = images_of(&[10, 20, 21, 22, 30, 40]);
    let mut images = HashMap::new();
    for handle in [21, 22] {
        let mut region = image(1, 1, VX_DF_IMAGE_U8);
        region.parent = Some(20);
        region.roi_offsets = vec![(0, 0)];
        images.insert(handle, region);
    }
    let wires = vec![step(2, &[21], &[30]), step(1, &[10], &[20])];
    let plan = plan_graph(&wires, &refs, &images, &HashMap::new()).unwrap();
    assert_eq!(plan.order, vec![1, 2]);
    assert_eq!(plan.waves, vec![vec![1], vec![2]]);
    assert_eq!(plan.predecessors[&2], vec![1]);
    let wires = vec![step(3, &[22], &[40]), step(1, &[10], &[21])];
    let plan = plan_graph(&wires, &refs, &images, &HashMap::new()).unwrap();
    assert_eq!(plan.order, vec![1, 3]);
    assert_eq!(plan.waves, vec![vec![1], vec![3]]);
}

#[test]
fn levels_stand_for_their_pyramid() {
    let refs = images_of(&[10, 31, 50]);
    let mut levels = HashMap::new();
    levels.insert(31, (30, 1));
    assert_eq!(find_level_pyramid(&refs, &levels, 31), Some(30));
    assert_eq!(find_level_pyramid(&refs, &levels, 10), None);
    let wires = vec![step(2, &[31], &[50]), step(1, &[10], &[30])];
    let plan = plan_graph(&wires, &refs, &HashMap::new(), &levels).unwrap();
    assert_eq!(plan.order, vec![1, 2]);
    assert_eq!(plan.waves, vec![vec![1], vec![2]]);
}

#[test]
fn output_formats_are_inferred() {
    let u8s = vec![VX_DF_IMAGE_U8];
    let mixed = vec![VX_DF_IMAGE_U8, VX_DF_IMAGE_S16];
    assert_eq!(infer_output_format("org.khronos.openvx.add", &vec![]), VX_DF_IMAGE_U8);
    assert_eq!(infer_output_format("org.khronos.openvx.add", &u8s), VX_DF_IMAGE_S16);
    assert_eq!(infer_output_format("org.khronos.openvx.absdiff", &u8s), VX_DF_IMAGE_U8);
    assert_eq!(infer_output_format("org.khronos.openvx.absdiff", &mixed), VX_DF_IMAGE_S16);
    assert_eq!(infer_output_format("org.khronos.openvx.multiply", &u8s), VX_DF_IMAGE_S16);
    assert_eq!(infer_output_format("org.khronos.openvx.not", &u8s), VX_DF_IMAGE_U8);
    let rgb = vec![VX_DF_IMAGE_RGB];
    assert_eq!(infer_output_format("org.khronos.openvx.channel_extract", &rgb), VX_DF_IMAGE_U8);
    assert_eq!(infer_output_format("org.khronos.openvx.remap", &rgb), VX_DF_IMAGE_RGB);
    assert_eq!(infer_output_format("anything", &rgb), VX_DF_IMAGE_RGB);
}

fn virtual_info() -> VirtualImageInfo {
    VirtualImageInfo {
        width: 0,
        height: 0,
        format: VX_DF_IMAGE_VIRT,
        is_virtual: true,
        backing_image: None,
    }
}

#[test]
fn storage_of_virtual_images_is_allocated() {
    let mut images = HashMap::new();
    let mut infos = HashMap::new();
    images.insert(20, image(0, 0, VX_DF_IMAGE_VIRT));
    infos.insert(20, virtual_info());
    assert!(is_virtual_image(&infos, 20));
    assert!(!is_virtual_image(&infos, 21));
    let r = allocate_virtual_image_storage(&mut images, &mut infos, 20, 4, 2, VX_DF_IMAGE_S16);
    assert!(r.is_ok());
    assert_eq!(images[&20].data, vec![0; 16]);
    assert_eq!((infos[&20].width, infos[&20].height), (4, 2));
    let r = allocate_virtual_image_storage(&mut images, &mut infos, 20, 0, 2, VX_DF_IMAGE_S16);
    assert!(r.is_err());
    assert_eq!(images[&20].width, 0);
    assert_eq!(images[&20].data.len(), 16);
}

#[test]
fn virtual_images_take_their_shape_from_the_node_that_writes_them() {
    let refs = images_of(&[10, 20, 30]);
    let mut images = HashMap::new();
    let mut infos = HashMap::new();
    images.insert(10, image(4, 3, VX_DF_IMAGE_U8));
    images.insert(20, image(0, 0, VX_DF_IMAGE_VIRT));
    images.insert(30, image(4, 3, VX_DF_IMAGE_U8));
    infos.insert(20, virtual_info());
    let wires = vec![step(2, &[20], &[30]), step(1, &[10], &[20])];
    let names = vec![
        "org.khronos.openvx.box_3x3".to_string(),
        "org.khronos.openvx.box_3x3".to_string(),
    ];
    let wiring = connect(&wires).unwrap();
    let status = resolve_virtual_images(&wires, &names, &wiring, &refs, &mut images, &mut infos);
    assert_eq!(status, VX_SUCCESS);
    assert_eq!((images[&20].width, images[&20].height), (4, 3));
    assert_eq!(images[&20].format, VX_DF_IMAGE_U8);
    assert_eq!(images[&20].data.len(), 12);
    assert_eq!(infos[&20].format, VX_DF_IMAGE_U8);
}

#[test]
fn virtual_images_that_stay_unknown_stop_the_graph() {
    let refs = images_of(&[10, 20]);
    let mut images = HashMap::new();
    let mut infos = HashMap::new();
    images.insert(10, image(0, 0, VX_DF_IMAGE_U8));
    images.insert(20, image(0, 0, VX_DF_IMAGE_VIRT));
    infos.insert(20, virtual_info());
    let wires = vec![step(1, &[10], &[20])];
    let names = vec!["org.khronos.openvx.box_3x3".to_string()];
    let wiring = connect(&wires).unwrap();
    let status = resolve_virtual_images(&wires, &names, &wiring, &refs, &mut images, &mut infos);
    assert_eq!(status, VX_ERROR_INVALID_GRAPH);
    let mut large = virtual_info();
    large.width = u32::MAX;
    large.height = u32::MAX;
    large.format = VX_DF_IMAGE_S16;
    infos.insert(20, large);
    let status = resolve_virtual_images(&wires, &names, &wiring, &refs, &mut images, &mut infos);
    assert_eq!(status, VX_ERROR_NO_MEMORY);
}

fn graph(nodes: Vec<u64>) -> VxCGraphData {
    VxCGraphData {
        id: 1,
        context_id: 1,
        nodes,
        parameters: vec![],
        state: VxGraphState::VxGraphStateUnverified,
        verified: false,
        ref_count: 1,
        run_count: 0,
        replicated_nodes: HashMap::new(),
        owned_refs: vec![],
        topo_waves: vec![],
        node_predecessors: HashMap::new(),
    }
}

fn node(kernel_id: u64, parameters: Vec<Option<u64>>) -> NodeData {
    NodeData {
        graph_id: 1,
        kernel_id,
        parameters,
        border_mode: vx_border_t {
            mode: 0,
            constant_value: vx_pixel_value_t {
                b0: 0,
                b1: 0,
                b2: 0,
                b3: 0,
                reserved_1: 0,
                reserved_2: 0,
                reserved_3: 0,
            },
        },
        callback: None,
        execution_count: 0,
        run_count: 0,
        node_state: 0,
        user_kernel_initialized: false,
        local_data_size: 0,
        local_data_ptr: 0,
        local_data_auto_alloc: false,
    }
}

struct World {
    graphs: HashMap<u64, VxCGraphData>,
    nodes: HashMap<u64, NodeData>,
    tables: KernelTables,
    refs: References,
    images: HashMap<u64, VxCImage>,
    infos: HashMap<u64, VirtualImageInfo>,
}

/// Two filters in a row, the second one listed first, through a virtual image.
fn world() -> World {
    let mut w = World {
        graphs: HashMap::new(),
        nodes: HashMap::new(),
        tables: KernelTables { catalog: HashMap::new(), extra: HashMap::new() },
        refs: images_of(&[10, 20, 30]),
        images: HashMap::new(),
        infos: HashMap::new(),
    };
    let name = "org.khronos.openvx.box_3x3".to_string();
    w.tables.catalog.insert(5, VxCKernel::new(5, name));
    w.graphs.insert(1, graph(vec![102, 101, 999]));
    w.nodes.insert(101, node(5, vec![Some(10), Some(20)]));
    w.nodes.insert(102, node(5, vec![Some(20), Some(30)]));
    w.images.insert(10, image(4, 3, VX_DF_IMAGE_U8));
    w.images.insert(20, image(0, 0, VX_DF_IMAGE_VIRT));
    w.images.insert(30, image(4, 3, VX_DF_IMAGE_U8));
    w.infos.insert(20, virtual_info());
    w
}

fn verified(w: &mut World, graph: u64) -> i32 {
    let r = vxVerifyGraph(
        graph,
        &mut w.graphs,
        &w.nodes,
        &w.tables,
        &UserKernels::new(),
        &w.refs,
        &mut w.images,
        &mut w.infos,
        &HashMap::new(),
    );
    match r {
        Ok(_) => VX_SUCCESS,
        Err(e) => e,
    }
}

#[test]
fn verified_graphs_are_ordered_and_backed() {
    let mut w = world();
    assert_eq!(verified(&mut w, 1), VX_SUCCESS);
    assert_eq!(w.graphs[&1].nodes, vec![101, 102]);
    assert_eq!(w.graphs[&1].topo_waves, vec![vec![101], vec![102]]);
    assert_eq!(w.graphs[&1].node_predecessors[&102], vec![101]);
    assert_eq!(w.images[&20].data.len(), 12);
    assert!(!w.graphs[&1].verified);
    finish_verification(&mut w.graphs, 1);
    assert!(w.graphs[&1].verified);
    assert_eq!(w.graphs[&1].state, VxGraphState::VxGraphStateVerified);
}

#[test]
fn graphs_that_do_not_verify() {
    let mut w = world();
    assert_eq!(verified(&mut w, 0), VX_ERROR_INVALID_REFERENCE);
    assert_eq!(verified(&mut w, 2), VX_ERROR_INVALID_GRAPH);
    w.nodes.insert(101, node(5, vec![None, Some(20)]));
    assert_eq!(verified(&mut w, 1), VX_ERROR_INVALID_PARAMETERS);
    w.nodes.insert(101, node(5, vec![Some(10), Some(30)]));
    assert_eq!(verified(&mut w, 1), VX_ERROR_INVALID_GRAPH);
    w.nodes.insert(101, node(5, vec![Some(30), Some(20)]));
    assert_eq!(verified(&mut w, 1), VX_ERROR_INVALID_GRAPH);
    assert_eq!(w.graphs[&1].nodes, vec![102, 101, 999]);
}
