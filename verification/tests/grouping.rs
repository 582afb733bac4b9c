use openvx_core::constants::{
    VX_DELAY_SLOTS, VX_DELAY_TYPE, VX_OBJECT_ARRAY_ITEMTYPE, VX_OBJECT_ARRAY_NUMITEMS,
};
use openvx_core::delays::{
    auto_age_delays, resolve_delay_params_for_graph, vxAccessDelayElement, vxAgeDelay,
    vxCommitDelayElement, vxCreateDelay, vxGetReferenceFromDelay, vxQueryDelay,
    vxRegisterAutoAging, vxReleaseDelay, DelayTables, Followers,
};
use openvx_core::exemplars::{
    create_object_like_exemplar, create_virtual_object_like_exemplar, Blueprint, Objects, Owner,
    UserData,
};
use openvx_core::image::VxCImage;
use openvx_core::multimap::MultiMap;
use openvx_core::object_arrays::{
    all_exist, item_to_replace, list_existing, vxCreateImageObjectArrayFromTensor,
    vxCreateObjectArray, vxCreateVirtualObjectArray, vxGetObjectArrayItem, vxQueryObjectArray,
    vxReleaseObjectArray, vxSetObjectArrayItem,
};
use openvx_core::pairs::PairMap;
use openvx_core::parameters::{
    create_or_update_parameter, create_or_update_parameter_with_node,
    get_parameter_value, parameter_exists, remove_parameter, vxAddParameterToGraph,
    vxGetGraphParameterByIndex, vxGetParameterByIndex, vxSetGraphParameterByIndex,
};
use openvx_core::records::{
    NodeData, NodeParamBinding, VxCArray, VxCGraphData, VxCMatrix, VxCObjectArray, VxCPyramid,
    VxCTensor, VxCThreshold, VxGraphState,
};
use openvx_core::refs::References;
use openvx_core::scalar::VxCScalar;
use openvx_core::tensors::Tensors;
use openvx_core::types::{
    vx_border_t, vx_pixel_value_t, vx_rectangle_t, VX_DF_IMAGE_S16, VX_DF_IMAGE_U8,
    VX_ERROR_INVALID_PARAMETERS, VX_ERROR_INVALID_REFERENCE, VX_ERROR_NOT_SUPPORTED, VX_SUCCESS,
    VX_TYPE_ARRAY, VX_TYPE_DELAY, VX_TYPE_IMAGE, VX_TYPE_INT16, VX_TYPE_MATRIX,
    VX_TYPE_OBJECT_ARRAY, VX_TYPE_PARAMETER, VX_TYPE_PYRAMID, VX_TYPE_SCALAR, VX_TYPE_TENSOR,
    VX_TYPE_THRESHOLD, VX_TYPE_UINT8, VX_TYPE_USER_DATA_OBJECT,
};
use openvx_core::values::Value;
use std::collections::HashMap;

fn objects() -> Objects {
    Objects {
        images: HashMap::new(),
        arrays: HashMap::new(),
        pyramids: HashMap::new(),
        scalars: HashMap::new(),
        matrices: HashMap::new(),
        distributions: HashMap::new(),
        remaps: HashMap::new(),
        luts: HashMap::new(),
        thresholds: HashMap::new(),
        object_arrays: HashMap::new(),
        tensors: HashMap::new(),
        user_data: HashMap::new(),
    }
}

fn image(width: u32, height: u32, format: u32) -> VxCImage {
    VxCImage {
        width,
        height,
        format,
        is_virtual: false,
        context: 1,
        data: vec![],
        parent: None,
        is_external_memory: false,
        external_ptrs: vec![],
        external_strides: vec![],
        external_stride_x: vec![],
        external_dim_x: vec![],
        external_dim_y: vec![],
        roi_offsets: vec![],
        is_from_handle: false,
        channel_plane_offset: 0,
        parent_plane_index: None,
        valid_rect: vx_rectangle_t { start_x: 0, start_y: 0, end_x: 0, end_y: 0 },
    }
}

fn node(parameters: Vec<Option<u64>>) -> NodeData {
    NodeData {
        graph_id: 1,
        kernel_id: 5,
        parameters,
        border_mode: vx_border_t {
            mode: 0,
            constant_value: vx_pixel_value_t {
                b0: 0,
                b1: 0,
                b2: 0,
                b3: 0,
                reserved_1: 0,
                reserved_2: 0,
                reserved_3: 0,
            },
        },
        callback: None,
        execution_count: 0,
        run_count: 0,
        node_state: 0,
        user_kernel_initialized: false,
        local_data_size: 0,
        local_data_ptr: 0,
        local_data_auto_alloc: false,
    }
}

fn graph(nodes: Vec<u64>) -> VxCGraphData {
    VxCGraphData {
        id: 1,
        context_id: 1,
        nodes,
        parameters: vec![],
        state: VxGraphState::VxGraphStateUnverified,
        verified: false,
        ref_count: 1,
        run_count: 0,
        replicated_nodes: HashMap::new(),
        owned_refs: vec![],
        topo_waves: vec![],
        node_predecessors: HashMap::new(),
    }
}

#[test]
fn likenesses_keep_the_shape() {
    let mut o = objects();
    o.images.insert(1, image(4, 3, VX_DF_IMAGE_U8));
    o.arrays.insert(2, VxCArray { item_type: 9, capacity: 7, items: vec![], ref_count: 1 });
    o.scalars.insert(3, VxCScalar { data_type: 6, data: vec![0; 4], context: 1 });
    o.matrices.insert(
        4,
        VxCMatrix {
            data_type: 6,
            rows: 2,
            columns: 5,
            origin_x: 0,
            origin_y: 0,
            pattern: 0,
            data: vec![],
        },
    );
    o.thresholds.insert(5, VxCThreshold { thresh_type: 8, data_type: 3, ref_count: 1 });
    o.object_arrays.insert(
        6,
        VxCObjectArray {
            exemplar_type: 1,
            count: 2,
            ref_count: 1,
            items: vec![11, 12],
            is_virtual: false,
        },
    );
    o.user_data.insert(7, UserData { name: vec![1, 2], size: 16 });
    o.tensors.insert(8, VxCTensor::new(2, vec![4, 3], VX_TYPE_INT16, 5));
    o.pyramids.insert(
        9,
        VxCPyramid {
            context: 1,
            num_levels: 3,
            scale_bits: 0x3F57_44FD,
            width: 8,
            height: 6,
            format: VX_DF_IMAGE_U8,
            levels: vec![],
        },
    );
    let like = |x: u64, t: i32| create_object_like_exemplar(&o, x, t);
    assert!(matches!(
        like(9, VX_TYPE_PYRAMID),
        Some(Blueprint::Pyramid {
            levels: 3,
            scale_bits: 0x3F57_44FD,
            width: 8,
            height: 6,
            format: VX_DF_IMAGE_U8,
        })
    ));
    assert!(matches!(
        like(1, VX_TYPE_IMAGE),
        Some(Blueprint::Image { width: 4, height: 3, format: VX_DF_IMAGE_U8 })
    ));
    assert!(matches!(
        like(2, VX_TYPE_ARRAY),
        Some(Blueprint::Array { item_type: 9, capacity: 7 })
    ));
    assert!(matches!(like(3, VX_TYPE_SCALAR), Some(Blueprint::Scalar { data_type: 6 })));
    assert!(matches!(
        like(4, VX_TYPE_MATRIX),
        Some(Blueprint::Matrix { data_type: 6, columns: 5, rows: 2 })
    ));
    assert!(matches!(
        like(5, VX_TYPE_THRESHOLD),
        Some(Blueprint::Threshold { thresh_type: 8, data_type: 3 })
    ));
    assert!(matches!(
        like(6, VX_TYPE_OBJECT_ARRAY),
        Some(Blueprint::ObjectArray { item_type: 1, item: 11, count: 2 })
    ));
    match like(7, VX_TYPE_USER_DATA_OBJECT) {
        Some(Blueprint::UserDataObject { name, size }) => {
            assert_eq!(name, vec![1, 2]);
            assert_eq!(size, 16);
        }
        _ => panic!("no likeness"),
    }
    match like(8, VX_TYPE_TENSOR) {
        Some(Blueprint::Tensor { dims, data_type, fixed_point_position }) => {
            assert_eq!(dims, vec![4, 3]);
            assert_eq!((data_type, fixed_point_position), (VX_TYPE_INT16, 5));
        }
        _ => panic!("no likeness"),
    }
    assert!(like(1, VX_TYPE_ARRAY).is_none());
    assert!(like(1, VX_TYPE_DELAY).is_none());
    let in_graph = |x: u64, t: i32| create_virtual_object_like_exemplar(&o, x, t).map(|b| b.0);
    assert_eq!(in_graph(1, VX_TYPE_IMAGE), Some(Owner::Graph));
    assert_eq!(in_graph(2, VX_TYPE_ARRAY), Some(Owner::Graph));
    assert_eq!(in_graph(3, VX_TYPE_SCALAR), Some(Owner::Context));
    assert_eq!(in_graph(9, VX_TYPE_SCALAR), None);
}

#[test]
fn object_arrays_hold_their_items() {
    let mut arrays = HashMap::new();
    let mut refs = References::new();
    let mut parents = HashMap::new();
    for item in [11, 12, 13] {
        refs.register(item, VX_TYPE_IMAGE);
    }
    let t = Some(VX_TYPE_IMAGE);
    let r = vxCreateObjectArray(&mut arrays, &mut refs, 1, 10, t, 2, vec![11, 12], 5);
    assert_eq!(r, (5, vec![]));
    assert_eq!(refs.type_of(5), Some(VX_TYPE_OBJECT_ARRAY));
    assert_eq!(
        vxQueryObjectArray(&arrays, 5, VX_OBJECT_ARRAY_ITEMTYPE, 1, 4),
        Ok(Value::Enum(VX_TYPE_IMAGE))
    );
    assert_eq!(
        vxQueryObjectArray(&arrays, 5, VX_OBJECT_ARRAY_NUMITEMS, 1, 8),
        Ok(Value::Size(2))
    );
    assert_eq!(
        vxQueryObjectArray(&arrays, 5, VX_OBJECT_ARRAY_NUMITEMS, 1, 4),
        Err(VX_ERROR_INVALID_PARAMETERS)
    );
    assert_eq!(vxQueryObjectArray(&arrays, 5, 3, 1, 8), Err(VX_ERROR_NOT_SUPPORTED));
    assert_eq!(vxQueryObjectArray(&arrays, 6, 3, 1, 8), Err(VX_ERROR_INVALID_REFERENCE));
    assert_eq!(vxGetObjectArrayItem(&arrays, &mut refs, &mut parents, 5, 1), 12);
    assert_eq!(refs.counts[&12], 2);
    assert_eq!(parents[&12], (5, 1));
    assert_eq!(vxGetObjectArrayItem(&arrays, &mut refs, &mut parents, 5, 2), 0);
    assert_eq!(item_to_replace(&arrays, 5, 0, 13), Ok(11));
    assert_eq!(item_to_replace(&arrays, 5, 2, 13), Err(VX_ERROR_INVALID_PARAMETERS));
    assert_eq!(vxSetObjectArrayItem(&mut arrays, &mut refs, 5, 0, 13), VX_SUCCESS);
    assert_eq!(refs.counts[&13], 2);
    assert_eq!(arrays[&5].items, vec![13, 12]);
    assert_eq!(
        vxSetObjectArrayItem(&mut arrays, &mut refs, 5, 0, 0),
        VX_ERROR_INVALID_REFERENCE
    );
    assert_eq!(
        vxReleaseObjectArray(&mut arrays, &mut refs, 0, 5),
        Err(VX_ERROR_INVALID_REFERENCE)
    );
    assert_eq!(vxReleaseObjectArray(&mut arrays, &mut refs, 1, 5), Ok(vec![13, 12]));
    assert!(arrays.is_empty());
    assert_eq!(vxReleaseObjectArray(&mut arrays, &mut refs, 1, 5), Ok(vec![]));
}

#[test]
fn incomplete_object_arrays_are_given_up() {
    let mut arrays = HashMap::new();
    let mut refs = References::new();
    assert_eq!(list_existing(&vec![1, 0, 2]), vec![1, 2]);
    assert!(all_exist(&vec![1, 2], 2));
    assert!(!all_exist(&vec![1, 0], 2));
    assert!(!all_exist(&vec![1], 2));
    let t = Some(VX_TYPE_IMAGE);
    let r = vxCreateObjectArray(&mut arrays, &mut refs, 1, 10, t, 2, vec![11, 0], 5);
    assert_eq!(r, (0, vec![11]));
    let r = vxCreateVirtualObjectArray(&mut arrays, &mut refs, 0, 1, 10, t, 1, vec![11], 5);
    assert_eq!(r, (0, vec![11]));
    let r = vxCreateVirtualObjectArray(&mut arrays, &mut refs, 7, 1, 10, t, 1, vec![11], 5);
    assert_eq!(r.0, 5);
    assert!(arrays[&5].is_virtual);
}

#[test]
fn tensor_layers_become_images() {
    let mut ts = Tensors::new();
    ts.records.insert(5, VxCTensor::new(3, vec![3, 2, 2], VX_TYPE_UINT8, 0));
    ts.data.insert(5, (0..12).collect());
    ts.contexts.insert(5, 9);
    let r = vx_rectangle_t { start_x: 0, start_y: 0, end_x: 2, end_y: 2 };
    let made = vxCreateImageObjectArrayFromTensor(&ts, 5, 1, &r, 2, VX_DF_IMAGE_U8).unwrap();
    assert_eq!((made.context, made.width, made.height), (9, 2, 2));
    assert_eq!(made.pixels, vec![vec![0, 1, 3, 4], vec![6, 7, 9, 10]]);
    assert!(vxCreateImageObjectArrayFromTensor(&ts, 5, 1, &r, 3, VX_DF_IMAGE_U8).is_none());
    assert!(vxCreateImageObjectArrayFromTensor(&ts, 5, 1, &r, 2, VX_DF_IMAGE_S16).is_none());
    assert!(vxCreateImageObjectArrayFromTensor(&ts, 6, 1, &r, 2, VX_DF_IMAGE_U8).is_none());
}

#[test]
fn parameters_keep_their_values() {
    let mut params = HashMap::new();
    let mut refs = References::new();
    create_or_update_parameter_with_node(&mut params, &mut refs, 7, 2, 50, 3);
    create_or_update_parameter(&mut params, &mut refs, 8, 1, 60, 1, 1);
    assert_eq!(get_parameter_value(&params, 7), Some(50));
    assert_eq!(params[&7].node_id, 3);
    assert_eq!(params[&8].node_id, 0);
    assert_eq!(refs.type_of(7), Some(VX_TYPE_PARAMETER));
    create_or_update_parameter_with_node(&mut params, &mut refs, 7, 9, 51, 4);
    assert_eq!(get_parameter_value(&params, 7), Some(51));
    assert_eq!((params[&7].node_id, params[&7].index), (3, 2));
    remove_parameter(&mut params, &mut refs, 7);
    assert!(!parameter_exists(&params, 7));
    assert!(parameter_exists(&params, 8));
    assert_eq!(refs.type_of(7), None);
}

#[test]
fn parameters_of_nodes_are_fetched() {
    let mut params = HashMap::new();
    let mut refs = References::new();
    let mut nodes = HashMap::new();
    nodes.insert(3, node(vec![Some(50), None]));
    let id = (3 << 32) + 1;
    assert_eq!(vxGetParameterByIndex(&mut params, &mut refs, &nodes, 3, 1), id);
    assert_eq!(get_parameter_value(&params, id), None);
    assert_eq!(vxGetParameterByIndex(&mut params, &mut refs, &nodes, 3, 0), 3 << 32);
    assert_eq!(get_parameter_value(&params, 3 << 32), Some(50));
    assert_eq!(refs.counts[&id], 1);
    assert_eq!(vxGetParameterByIndex(&mut params, &mut refs, &nodes, 0, 0), 0);
}

#[test]
fn parameters_of_graphs_are_bound() {
    let mut graphs = HashMap::new();
    graphs.insert(1, graph(vec![3]));
    let mut nodes = HashMap::new();
    nodes.insert(3, node(vec![Some(50), None]));
    let mut params = HashMap::new();
    let mut refs = References::new();
    let mut node_bindings: PairMap<NodeParamBinding> = PairMap::new();
    let mut graph_bindings: PairMap<u64> = PairMap::new();
    let known: HashMap<u64, u32> = HashMap::new();
    let p = vxGetParameterByIndex(&mut params, &mut refs, &nodes, 3, 0);
    let mut bind = |refs: &mut References, g: u64, q: u64| {
        vxAddParameterToGraph(&mut graphs, &params, &known, refs, &mut node_bindings, g, q)
    };
    assert_eq!(bind(&mut refs, 1, p), VX_SUCCESS);
    assert_eq!(bind(&mut refs, 0, p), VX_ERROR_INVALID_REFERENCE);
    assert_eq!(bind(&mut refs, 1, 0), VX_ERROR_INVALID_PARAMETERS);
    assert_eq!(bind(&mut refs, 1, 99), VX_ERROR_INVALID_REFERENCE);
    assert_eq!(refs.counts[&p], 2);
    assert_eq!(graphs[&1].parameters, vec![p]);
    assert_eq!(node_bindings.get((3, 0)), Some(NodeParamBinding::GraphParam(0)));
    refs.register(60, VX_TYPE_IMAGE);
    refs.register(61, VX_TYPE_IMAGE);
    let mut set = |refs: &mut References, nodes: &mut HashMap<u64, NodeData>, i: u32, v: u64| {
        let bindings = &mut graph_bindings;
        let table = &node_bindings;
        vxSetGraphParameterByIndex(nodes, refs, bindings, table, &graphs, &params, &known, 1, i, v)
    };
    assert_eq!(set(&mut refs, &mut nodes, 0, 60), VX_SUCCESS);
    assert_eq!(nodes[&3].parameters, vec![Some(60), None]);
    assert_eq!(refs.counts[&60], 2);
    assert_eq!(set(&mut refs, &mut nodes, 0, 61), VX_SUCCESS);
    assert_eq!(refs.counts[&60], 1);
    assert_eq!(set(&mut refs, &mut nodes, 5, 60), VX_SUCCESS);
    assert_eq!(nodes[&3].parameters, vec![Some(61), None]);
    assert_eq!(set(&mut refs, &mut nodes, 0, 0), VX_ERROR_INVALID_REFERENCE);
    assert_eq!(graph_bindings.get((1, 5)), Some(60));
    let get = |refs: &mut References, i: u32| vxGetGraphParameterByIndex(&graphs, refs, 1, i);
    assert_eq!(get(&mut refs, 0), p);
    assert_eq!(refs.counts[&p], 3);
    assert_eq!(get(&mut refs, 5), 0);
    assert_eq!(get(&mut refs, 6), 0);
    assert_eq!(refs.counts[&60], 2);
}

#[test]
fn every_connected_node_parameter_is_bound() {
    let mut graphs = HashMap::new();
    graphs.insert(1, graph(vec![3, 4]));
    graphs.insert(2, graph(vec![5]));
    let mut nodes = HashMap::new();
    nodes.insert(3, node(vec![Some(50), None, Some(52)]));
    nodes.insert(4, node(vec![Some(53), Some(54)]));
    let mut other = node(vec![Some(55), Some(56)]);
    other.graph_id = 2;
    nodes.insert(5, other);
    let mut params = HashMap::new();
    let mut refs = References::new();
    let mut node_bindings: PairMap<NodeParamBinding> = PairMap::new();
    let mut graph_bindings: PairMap<u64> = PairMap::new();
    let known: HashMap<u64, u32> = HashMap::new();
    for (graph, node, index) in [(1, 3, 2), (1, 4, 1), (2, 5, 1)] {
        let p = vxGetParameterByIndex(&mut params, &mut refs, &nodes, node, index);
        assert_eq!(
            vxAddParameterToGraph(
                &mut graphs,
                &params,
                &known,
                &mut refs,
                &mut node_bindings,
                graph,
                p,
            ),
            VX_SUCCESS
        );
    }
    node_bindings.insert((4, 0), NodeParamBinding::GraphParam(0));
    let mut set = |index: u32, value: u64| {
        vxSetGraphParameterByIndex(
            &mut nodes,
            &mut refs,
            &mut graph_bindings,
            &node_bindings,
            &graphs,
            &params,
            &known,
            1,
            index,
            value,
        )
    };
    assert_eq!(set(0, 70), VX_SUCCESS);
    assert_eq!(set(1, 71), VX_SUCCESS);
    assert_eq!(nodes[&3].parameters, vec![Some(50), None, Some(70)]);
    assert_eq!(nodes[&4].parameters, vec![Some(70), Some(71)]);
    assert_eq!(nodes[&5].parameters, vec![Some(55), Some(56)]);
}

#[test]
fn a_listed_parameter_of_a_foreign_node_is_bound() {
    let mut graphs = HashMap::new();
    graphs.insert(1, graph(vec![]));
    let mut nodes = HashMap::new();
    let mut foreign = node(vec![Some(55), Some(56)]);
    foreign.graph_id = 2;
    nodes.insert(5, foreign);
    let mut params = HashMap::new();
    let mut refs = References::new();
    let mut node_bindings: PairMap<NodeParamBinding> = PairMap::new();
    let mut graph_bindings: PairMap<u64> = PairMap::new();
    let known: HashMap<u64, u32> = HashMap::new();
    let p = vxGetParameterByIndex(&mut params, &mut refs, &nodes, 5, 1);
    let table = &mut node_bindings;
    let status = vxAddParameterToGraph(&mut graphs, &params, &known, &mut refs, table, 1, p);
    assert_eq!(status, VX_SUCCESS);
    let bindings = &mut graph_bindings;
    let status = vxSetGraphParameterByIndex(
        &mut nodes,
        &mut refs,
        bindings,
        &node_bindings,
        &graphs,
        &params,
        &known,
        1,
        0,
        77,
    );
    assert_eq!(status, VX_SUCCESS);
    assert_eq!(nodes[&5].parameters, vec![Some(55), Some(77)]);
}

#[test]
fn pairs_are_looked_up() {
    let mut map: PairMap<u64> = PairMap::new();
    map.insert((1, 2), 3);
    map.insert((2, 1), 4);
    map.insert((1, 2), 5);
    assert_eq!(map.get((1, 2)), Some(5));
    assert_eq!(map.get((2, 1)), Some(4));
    assert_eq!(map.get((2, 2)), None);
    assert_eq!(map.entries.len(), 2);
}

fn tables() -> DelayTables {
    DelayTables {
        delays: HashMap::new(),
        pyramids: HashMap::new(),
        node_params: PairMap::new(),
        node_levels: PairMap::new(),
    }
}

#[test]
fn delays_are_rings() {
    let mut t = tables();
    let mut refs = References::new();
    let mut places = HashMap::new();
    let mut logical = HashMap::new();
    let kind = Some(VX_TYPE_IMAGE);
    let slots = vec![11, 12, 13];
    let r = vxCreateDelay(&mut t.delays, &mut refs, &mut places, 1, 10, kind, 3, slots, 5);
    assert_eq!(r, (5, vec![]));
    assert_eq!(refs.type_of(5), Some(VX_TYPE_DELAY));
    assert_eq!(places[&12], (5, 1));
    assert_eq!(vxQueryDelay(&t.delays, 5, VX_DELAY_TYPE, 1, 4), Ok(Value::Enum(VX_TYPE_IMAGE)));
    assert_eq!(vxQueryDelay(&t.delays, 5, VX_DELAY_SLOTS, 1, 8), Ok(Value::Size(3)));
    assert_eq!(
        vxQueryDelay(&t.delays, 5, VX_DELAY_SLOTS, 1, 4),
        Err(VX_ERROR_INVALID_PARAMETERS)
    );
    assert_eq!(vxQueryDelay(&t.delays, 5, 3, 1, 8), Err(VX_ERROR_NOT_SUPPORTED));
    assert_eq!(vxQueryDelay(&t.delays, 0, 3, 1, 8), Err(VX_ERROR_INVALID_REFERENCE));
    assert_eq!(vxGetReferenceFromDelay(&t.delays, &mut logical, 5, 0), 11);
    assert_eq!(vxGetReferenceFromDelay(&t.delays, &mut logical, 5, -1), 13);
    assert_eq!(vxAccessDelayElement(&t.delays, &mut logical, 5, 4), 12);
    assert_eq!(logical[&13], (5, -1));
    assert_eq!(vxGetReferenceFromDelay(&t.delays, &mut logical, 6, 0), 0);
    assert_eq!(vxCommitDelayElement(5, 11), VX_SUCCESS);
    assert_eq!(vxCommitDelayElement(0, 11), VX_ERROR_INVALID_REFERENCE);
    assert_eq!(vxCommitDelayElement(5, 0), VX_ERROR_INVALID_PARAMETERS);
    let r = vxCreateDelay(&mut t.delays, &mut refs, &mut places, 1, 10, kind, 2, vec![0, 9], 6);
    assert_eq!(r, (0, vec![9]));
}

fn followers() -> Followers {
    Followers {
        nodes: HashMap::new(),
        refs: References::new(),
        params: HashMap::new(),
        levels: HashMap::new(),
    }
}

#[test]
fn node_parameters_follow_delays() {
    let mut t = tables();
    let mut f = followers();
    let mut places = HashMap::new();
    for item in [11, 12] {
        f.refs.register(item, VX_TYPE_IMAGE);
    }
    let kind = Some(VX_TYPE_IMAGE);
    vxCreateDelay(&mut t.delays, &mut f.refs, &mut places, 1, 10, kind, 2, vec![11, 12], 5);
    t.node_params.insert((3, 0), (5, 0));
    t.node_params.insert((3, 1), (5, -1));
    f.nodes.insert(3, node(vec![Some(11), Some(12)]));
    create_or_update_parameter_with_node(&mut f.params, &mut f.refs, 70, 0, 11, 3);
    f.refs.retain(11);
    let mut graphs = HashMap::new();
    graphs.insert(1, graph(vec![3]));
    assert_eq!(vxAgeDelay(&mut t, &mut f, &graphs, &vec![1], 5), VX_SUCCESS);
    assert_eq!(f.nodes[&3].parameters, vec![Some(12), Some(11)]);
    assert_eq!(f.params[&70].value, Some(11));
    assert_eq!(vxAgeDelay(&mut t, &mut f, &graphs, &vec![1], 5), VX_SUCCESS);
    assert_eq!(f.nodes[&3].parameters, vec![Some(11), Some(12)]);
    assert_eq!(t.delays[&5].current_index, 0);
    assert_eq!(vxAgeDelay(&mut t, &mut f, &graphs, &vec![1], 6), VX_ERROR_INVALID_REFERENCE);
    f.nodes.insert(3, node(vec![Some(99), None]));
    resolve_delay_params_for_graph(&mut f, &t, &graphs, 1);
    assert_eq!(f.nodes[&3].parameters, vec![Some(11), Some(12)]);
    let counts = f.refs.counts.clone();
    resolve_delay_params_for_graph(&mut f, &t, &graphs, 1);
    assert_eq!(f.nodes[&3].parameters, vec![Some(11), Some(12)]);
    assert_eq!(f.refs.counts, counts);
}

#[test]
fn pyramid_levels_follow_delays() {
    let mut t = tables();
    let mut f = followers();
    let mut places = HashMap::new();
    let pyramid = |levels: Vec<u64>| VxCPyramid {
        context: 1,
        num_levels: 2,
        scale_bits: 0,
        width: 8,
        height: 8,
        format: VX_DF_IMAGE_U8,
        levels,
    };
    t.pyramids.insert(21, pyramid(vec![31, 32]));
    t.pyramids.insert(22, pyramid(vec![41, 42]));
    let kind = Some(VX_TYPE_PYRAMID);
    vxCreateDelay(&mut t.delays, &mut f.refs, &mut places, 1, 10, kind, 2, vec![21, 22], 5);
    t.node_levels.insert((3, 0), (5, 0, 1));
    f.levels.insert(32, (21, 1));
    f.nodes.insert(3, node(vec![Some(32)]));
    let mut graphs = HashMap::new();
    graphs.insert(1, graph(vec![3]));
    assert_eq!(vxAgeDelay(&mut t, &mut f, &graphs, &vec![1], 5), VX_SUCCESS);
    assert_eq!(f.nodes[&3].parameters, vec![Some(42)]);
    assert_eq!(f.levels[&42], (22, 1));
}

#[test]
fn delays_age_with_their_graph() {
    let mut t = tables();
    let mut f = followers();
    let mut places = HashMap::new();
    let mut aging = MultiMap::new();
    let kind = Some(VX_TYPE_IMAGE);
    vxCreateDelay(&mut t.delays, &mut f.refs, &mut places, 1, 10, kind, 3, vec![11, 12, 13], 5);
    assert_eq!(vxRegisterAutoAging(&mut aging, 1, 5), VX_SUCCESS);
    assert_eq!(vxRegisterAutoAging(&mut aging, 1, 5), VX_SUCCESS);
    assert_eq!(vxRegisterAutoAging(&mut aging, 0, 5), VX_ERROR_INVALID_REFERENCE);
    assert_eq!(aging.list(1), vec![5]);
    let graphs = HashMap::new();
    auto_age_delays(&mut t, &mut f, &graphs, &vec![], &aging, 1);
    assert_eq!(t.delays[&5].current_index, 1);
    auto_age_delays(&mut t, &mut f, &graphs, &vec![], &aging, 2);
    assert_eq!(t.delays[&5].current_index, 1);
    assert_eq!(
        vxReleaseDelay(&mut t.delays, &mut f.refs, 0, 5),
        Err(VX_ERROR_INVALID_REFERENCE)
    );
    assert_eq!(vxReleaseDelay(&mut t.delays, &mut f.refs, 1, 5), Ok(vec![11, 12, 13]));
    assert!(t.delays.is_empty());
}

#[test]
fn a_shared_delay_stays_until_its_last_release() {
    let mut t = tables();
    let mut refs = References::new();
    let mut places = HashMap::new();
    let mut logical = HashMap::new();
    let kind = Some(VX_TYPE_IMAGE);
    vxCreateDelay(&mut t.delays, &mut refs, &mut places, 1, 10, kind, 2, vec![11, 12], 5);
    refs.retain(5);
    assert_eq!(refs.counts[&5], 2);
    assert_eq!(vxReleaseDelay(&mut t.delays, &mut refs, 1, 5), Ok(vec![]));
    assert_eq!(refs.counts[&5], 1);
    assert_eq!(vxQueryDelay(&t.delays, 5, VX_DELAY_SLOTS, 1, 8), Ok(Value::Size(2)));
    assert_eq!(vxGetReferenceFromDelay(&t.delays, &mut logical, 5, 0), 11);
    let mut f = followers();
    assert_eq!(vxAgeDelay(&mut t, &mut f, &HashMap::new(), &vec![], 5), VX_SUCCESS);
    assert_eq!(vxGetReferenceFromDelay(&t.delays, &mut logical, 5, -1), 11);
    assert_eq!(vxReleaseDelay(&mut t.delays, &mut refs, 1, 5), Ok(vec![11, 12]));
    assert!(t.delays.is_empty());
    assert!(!refs.counts.contains_key(&5));
    assert_eq!(vxReleaseDelay(&mut t.delays, &mut refs, 1, 0), Ok(vec![]));
}

#[test]
fn registered_delays_age_once() {
    let mut t = tables();
    let mut f = followers();
    let mut places = HashMap::new();
    let mut aging = MultiMap::new();
    let kind = Some(VX_TYPE_IMAGE);
    for (handle, first) in [(5, 11), (6, 21), (7, 31)] {
        let slots = vec![first, first + 1, first + 2];
        vxCreateDelay(&mut t.delays, &mut f.refs, &mut places, 1, 10, kind, 3, slots, handle);
    }
    for (graph, delay) in [(1, 5), (1, 6), (1, 5), (2, 7), (1, 6)] {
        assert_eq!(vxRegisterAutoAging(&mut aging, graph, delay), VX_SUCCESS);
    }
    auto_age_delays(&mut t, &mut f, &HashMap::new(), &vec![], &aging, 1);
    assert_eq!(t.delays[&5].current_index, 1);
    assert_eq!(t.delays[&6].current_index, 1);
    assert_eq!(t.delays[&7].current_index, 0);
    assert_eq!(t.delays.len(), 3);
}
