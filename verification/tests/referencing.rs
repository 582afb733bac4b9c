use openvx_core::constants::{
    VX_CONTEXT_ATTRIBUTE_CONVOLUTION_MAX_DIMENSION, VX_CONTEXT_ATTRIBUTE_EXTENSIONS,
    VX_CONTEXT_ATTRIBUTE_EXTENSIONS_SIZE, VX_CONTEXT_ATTRIBUTE_IMMEDIATE_BORDER,
    VX_CONTEXT_ATTRIBUTE_IMMEDIATE_BORDER_POLICY, VX_CONTEXT_ATTRIBUTE_IMPLEMENTATION,
    VX_CONTEXT_ATTRIBUTE_MAX_TENSOR_DIMS, VX_CONTEXT_ATTRIBUTE_MODULES,
    VX_CONTEXT_ATTRIBUTE_OPTICAL_FLOW_MAX_WINDOW, VX_CONTEXT_ATTRIBUTE_REFERENCES,
    VX_CONTEXT_ATTRIBUTE_UNIQUE_KERNELS, VX_CONTEXT_ATTRIBUTE_VENDOR_ID,
    VX_CONTEXT_ATTRIBUTE_VERSION, VX_DIRECTIVE_DISABLE_LOGGING, VX_DIRECTIVE_ENABLE_LOGGING,
    VX_DIRECTIVE_ENABLE_PERFORMANCE, VX_META_FORMAT_IMAGE_FORMAT, VX_META_FORMAT_IMAGE_HEIGHT,
    VX_META_FORMAT_IMAGE_WIDTH, VX_REFERENCE_ATTRIBUTE_COUNT, VX_REFERENCE_ATTRIBUTE_NAME,
    VX_REFERENCE_ATTRIBUTE_TYPE, VX_TARGET_ANY, VX_TARGET_CPU, VX_VERSION_1_3_1,
};
use openvx_core::contexts::{
    register_context, unregister_context, vxAddLogEntry, vxDirective, vxQueryContext,
    vxRegisterLogCallback, vxSetContextAttribute, ContextAnswer, ContextTables, Log,
    LogCall,
};
use openvx_core::dispatch::VX_BORDER_CONSTANT;
use openvx_core::exemplars::{Objects, UserData};
use openvx_core::image::VxCImage;
use openvx_core::naming::KernelTables;
use openvx_core::records::{
    VxCArray, VxCContext, VxCDistribution, VxCKernel, VxCLut, VxCMatrix, VxCObjectArray,
    VxCPyramid, VxCRemap, VxCTensor, VxCThreshold, VxMetaFormat,
};
use openvx_core::refs::References;
use openvx_core::registry::{
    vxQueryReference, vxReleaseReference, vxSetReferenceName, LetGo, ReferenceAnswer, Registries,
};
use openvx_core::scalar::VxCScalar;
use openvx_core::settings::{
    register_image, register_threshold, unregister_image, unregister_threshold, vxEnumerateTargets,
    vxQueryMetaFormatAttribute, vxRegisterPyramidLevelImage, vxSetGraphAttribute,
    vxSetImmediateModeTarget, vxSetMetaFormatAttribute, vxSetMetaFormatFromReference,
    vxSetNodeTarget,
};
use openvx_core::types::{
    vx_border_t, vx_pixel_value_t, vx_rectangle_t, VX_DF_IMAGE_U8, VX_ERROR_INVALID_PARAMETERS,
    VX_ERROR_INVALID_REFERENCE, VX_ERROR_NOT_IMPLEMENTED, VX_ERROR_NOT_SUPPORTED, VX_SUCCESS,
    VX_TYPE_ARRAY, VX_TYPE_CONTEXT, VX_TYPE_DISTRIBUTION, VX_TYPE_GRAPH, VX_TYPE_IMAGE,
    VX_TYPE_LUT, VX_TYPE_MATRIX, VX_TYPE_OBJECT_ARRAY, VX_TYPE_PYRAMID, VX_TYPE_REFERENCE,
    VX_TYPE_REMAP, VX_TYPE_SCALAR, VX_TYPE_TARGET, VX_TYPE_TENSOR, VX_TYPE_THRESHOLD,
    VX_TYPE_USER_DATA_OBJECT,
};
use openvx_core::unsupported::{
    vxCopyPyramid, vxExportObjectsToMemory, vxMapPyramidLevel, vxQueryImport, vxReleaseExportedMemory,
    vxReleaseImport, ARGUMENT_MISSING, NOT_CARRIED_OUT,
};
use openvx_core::user_kernels::UserKernels;
use openvx_core::values::Value;
use std::collections::{HashMap, HashSet};

fn none() -> Registries {
    Registries {
        contexts: HashSet::new(),
        graphs: HashSet::new(),
        other_graphs: HashSet::new(),
        images: HashSet::new(),
        arrays: HashSet::new(),
        scalars: HashSet::new(),
        convolutions: HashSet::new(),
        matrices: HashSet::new(),
        thresholds: HashSet::new(),
        pyramids: HashSet::new(),
        nodes: HashSet::new(),
        other_nodes: HashSet::new(),
        distributions: HashSet::new(),
        remaps: HashSet::new(),
        object_arrays: HashSet::new(),
        delays: HashSet::new(),
        tensors: HashSet::new(),
        parameters: HashSet::new(),
        other_parameters: HashSet::new(),
        meta_formats: HashSet::new(),
        imports: HashSet::new(),
        kernels: HashSet::new(),
        other_kernels: HashSet::new(),
        targets: HashSet::new(),
        other_contexts: HashSet::new(),
    }
}

fn type_of(known: &Registries, refs: &References, r: u64) -> i32 {
    match vxQueryReference(known, refs, r, VX_REFERENCE_ATTRIBUTE_TYPE, 1, 4) {
        Ok(ReferenceAnswer::Type(t)) => t,
        _ => panic!("no type"),
    }
}

#[test]
fn the_first_registry_that_knows_a_reference_says_its_type() {
    let mut known = none();
    let mut refs = References::new();
    assert_eq!(type_of(&known, &refs, 7), VX_TYPE_REFERENCE);
    refs.register(7, VX_TYPE_LUT);
    assert_eq!(type_of(&known, &refs, 7), VX_TYPE_LUT);
    known.images.insert(7);
    assert_eq!(type_of(&known, &refs, 7), VX_TYPE_IMAGE);
    known.other_graphs.insert(7);
    assert_eq!(type_of(&known, &refs, 7), VX_TYPE_GRAPH);
    known.contexts.insert(7);
    assert_eq!(type_of(&known, &refs, 7), VX_TYPE_CONTEXT);
    known.targets.insert(8);
    known.other_contexts.insert(8);
    assert_eq!(type_of(&known, &refs, 8), VX_TYPE_TARGET);
}

#[test]
fn questions_about_references_are_checked() {
    let known = none();
    let refs = References::new();
    let ask = |r: u64, a: i32, p: u64, s: usize| match vxQueryReference(&known, &refs, r, a, p, s) {
        Ok(_) => VX_SUCCESS,
        Err(e) => e,
    };
    assert_eq!(ask(0, VX_REFERENCE_ATTRIBUTE_TYPE, 1, 4), VX_ERROR_INVALID_REFERENCE);
    assert_eq!(ask(1, VX_REFERENCE_ATTRIBUTE_TYPE, 0, 4), VX_ERROR_INVALID_PARAMETERS);
    assert_eq!(ask(1, VX_REFERENCE_ATTRIBUTE_TYPE, 1, 3), VX_ERROR_INVALID_PARAMETERS);
    assert_eq!(ask(1, VX_REFERENCE_ATTRIBUTE_COUNT, 1, 3), VX_ERROR_INVALID_PARAMETERS);
    assert_eq!(ask(1, VX_REFERENCE_ATTRIBUTE_NAME, 1, 9), VX_ERROR_INVALID_PARAMETERS);
    assert_eq!(ask(1, 5, 1, 9), VX_ERROR_NOT_SUPPORTED);
}

#[test]
fn counts_are_answered() {
    let known = none();
    let mut refs = References::new();
    refs.counts.insert(3, 5);
    match vxQueryReference(&known, &refs, 3, VX_REFERENCE_ATTRIBUTE_COUNT, 1, 4) {
        Ok(ReferenceAnswer::Count(c)) => assert_eq!(c, 5),
        _ => panic!("no count"),
    }
    match vxQueryReference(&known, &refs, 4, VX_REFERENCE_ATTRIBUTE_COUNT, 1, 4) {
        Ok(ReferenceAnswer::Count(c)) => assert_eq!(c, 1),
        _ => panic!("no count"),
    }
}

#[test]
fn names_round_trip() {
    let mut known = none();
    known.scalars.insert(3);
    let mut refs = References::new();
    assert_eq!(vxSetReferenceName(&known, &mut refs, 3, Some(b"gain".to_vec())), VX_SUCCESS);
    match vxQueryReference(&known, &refs, 3, VX_REFERENCE_ATTRIBUTE_NAME, 1, 8) {
        Ok(ReferenceAnswer::Name(n)) => assert_eq!(n, Some(b"gain".to_vec())),
        _ => panic!("no name"),
    }
    assert_eq!(
        vxSetReferenceName(&known, &mut refs, 4, Some(b"x".to_vec())),
        VX_ERROR_INVALID_REFERENCE
    );
    assert_eq!(vxSetReferenceName(&known, &mut refs, 3, None), VX_ERROR_INVALID_PARAMETERS);
    assert_eq!(vxSetReferenceName(&known, &mut refs, 0, None), VX_ERROR_INVALID_REFERENCE);
}

#[test]
fn references_are_let_go() {
    let mut known = none();
    let mut refs = References::new();
    let mut graphs = HashMap::new();
    refs.register(3, VX_TYPE_SCALAR);
    refs.retain(3);
    assert_eq!(vxReleaseReference(&known, &mut refs, &mut graphs, 1, 3), Ok(LetGo::Nothing));
    assert_eq!(refs.counts[&3], 1);
    assert_eq!(
        vxReleaseReference(&known, &mut refs, &mut graphs, 1, 3),
        Ok(LetGo::Release(VX_TYPE_SCALAR))
    );
    assert_eq!(refs.counts[&3], 1);
    refs.register(4, 0x12345);
    refs.names.insert(4, vec![1]);
    assert_eq!(vxReleaseReference(&known, &mut refs, &mut graphs, 1, 4), Ok(LetGo::Forgotten));
    assert!(!refs.counts.contains_key(&4));
    assert!(!refs.names.contains_key(&4));
    known.other_graphs.insert(5);
    refs.register(5, VX_TYPE_SCALAR);
    assert_eq!(
        vxReleaseReference(&known, &mut refs, &mut graphs, 1, 5),
        Ok(LetGo::Release(VX_TYPE_GRAPH))
    );
    assert_eq!(vxReleaseReference(&known, &mut refs, &mut graphs, 1, 99), Ok(LetGo::Nothing));
    assert_eq!(
        vxReleaseReference(&known, &mut refs, &mut graphs, 0, 3),
        Err(VX_ERROR_INVALID_REFERENCE)
    );
    assert_eq!(
        vxReleaseReference(&known, &mut refs, &mut graphs, 1, 0),
        Err(VX_ERROR_INVALID_REFERENCE)
    );
}

#[test]
fn holding_and_dropping_cancel_out() {
    let mut refs = References::new();
    refs.register(3, VX_TYPE_SCALAR);
    refs.retain(3);
    assert!(!refs.release(3));
    assert_eq!(refs.counts[&3], 1);
    assert!(refs.release(3));
    assert!(refs.release(3));
    refs.register(6, VX_TYPE_IMAGE);
    refs.loosen(6);
    assert_eq!(refs.counts[&6], 1);
    assert!(refs.is_reference_type(6, VX_TYPE_IMAGE));
    assert!(!refs.is_reference_type(0, VX_TYPE_IMAGE));
    assert!(refs.is_image_reference(&HashMap::new(), 6));
    assert!(refs.is_data_reference(&HashMap::new(), 6));
    assert!(!refs.is_data_reference(&HashMap::new(), 77));
    refs.register(8, VX_TYPE_SCALAR);
    assert!(!refs.is_data_reference(&HashMap::new(), 8));
}

fn tables() -> ContextTables {
    ContextTables {
        contexts: HashMap::new(),
        modules: HashMap::new(),
        kernels: KernelTables { catalog: HashMap::new(), extra: HashMap::new() },
        user_kernels: UserKernels::new(),
        refs: References::new(),
    }
}

fn value_of(t: &ContextTables, attribute: i32, size: usize) -> Value {
    match vxQueryContext(t, 9, attribute, 1, size) {
        Ok(ContextAnswer::One(v)) => v,
        _ => panic!("no value"),
    }
}

#[test]
fn contexts_answer_their_attributes() {
    let mut t = tables();
    register_context(&mut t.contexts, 1, 9);
    t.kernels.catalog.insert(1, VxCKernel::new(1, "a".to_string()));
    t.kernels.extra.insert(2, VxCKernel::new(2, "b".to_string()));
    t.refs.register(1, 1);
    t.refs.register(2, 1);
    t.modules.insert(9, vec!["m".to_string()]);
    assert_eq!(value_of(&t, VX_CONTEXT_ATTRIBUTE_VENDOR_ID, 4), Value::Number(0));
    assert_eq!(value_of(&t, VX_CONTEXT_ATTRIBUTE_VERSION, 4), Value::Number(VX_VERSION_1_3_1));
    assert_eq!(value_of(&t, VX_CONTEXT_ATTRIBUTE_UNIQUE_KERNELS, 4), Value::Number(2));
    assert_eq!(value_of(&t, VX_CONTEXT_ATTRIBUTE_MODULES, 4), Value::Number(1));
    assert_eq!(value_of(&t, VX_CONTEXT_ATTRIBUTE_REFERENCES, 4), Value::Number(2));
    assert_eq!(value_of(&t, VX_CONTEXT_ATTRIBUTE_EXTENSIONS_SIZE, 8), Value::Size(0));
    assert_eq!(value_of(&t, VX_CONTEXT_ATTRIBUTE_CONVOLUTION_MAX_DIMENSION, 8), Value::Size(15));
    assert_eq!(value_of(&t, VX_CONTEXT_ATTRIBUTE_OPTICAL_FLOW_MAX_WINDOW, 8), Value::Size(15));
    assert_eq!(value_of(&t, VX_CONTEXT_ATTRIBUTE_MAX_TENSOR_DIMS, 8), Value::Size(4));
    match value_of(&t, VX_CONTEXT_ATTRIBUTE_IMMEDIATE_BORDER, 20) {
        Value::Border(b) => assert_eq!(b.mode, 0xC000),
        _ => panic!("no border"),
    }
    assert_eq!(value_of(&t, VX_CONTEXT_ATTRIBUTE_IMMEDIATE_BORDER_POLICY, 4), Value::Enum(0x14000));
}

#[test]
fn the_implementation_is_named() {
    let t = tables();
    match vxQueryContext(&t, 9, VX_CONTEXT_ATTRIBUTE_IMPLEMENTATION, 1, 64) {
        Ok(ContextAnswer::Text(x)) => assert_eq!(x, b"RustVX OpenVX Implementation\0".to_vec()),
        _ => panic!("no text"),
    }
    match vxQueryContext(&t, 9, VX_CONTEXT_ATTRIBUTE_IMPLEMENTATION, 1, 6) {
        Ok(ContextAnswer::Text(x)) => assert_eq!(x, b"RustVX".to_vec()),
        _ => panic!("no text"),
    }
    match vxQueryContext(&t, 9, VX_CONTEXT_ATTRIBUTE_EXTENSIONS, 1, 6) {
        Ok(ContextAnswer::Text(x)) => assert_eq!(x, vec![0]),
        _ => panic!("no text"),
    }
}

#[test]
fn unknown_contexts_have_a_border_of_their_own() {
    let t = tables();
    match value_of(&t, VX_CONTEXT_ATTRIBUTE_IMMEDIATE_BORDER, 20) {
        Value::Border(b) => assert_eq!(b.mode, 0xC000),
        _ => panic!("no border"),
    }
}

#[test]
fn questions_about_contexts_are_checked() {
    let t = tables();
    let ask = |c: u64, a: i32, p: u64, s: usize| match vxQueryContext(&t, c, a, p, s) {
        Ok(_) => VX_SUCCESS,
        Err(e) => e,
    };
    assert_eq!(ask(0, VX_CONTEXT_ATTRIBUTE_VERSION, 1, 4), VX_ERROR_INVALID_REFERENCE);
    assert_eq!(ask(9, VX_CONTEXT_ATTRIBUTE_VERSION, 0, 4), VX_ERROR_INVALID_PARAMETERS);
    assert_eq!(ask(9, VX_CONTEXT_ATTRIBUTE_VERSION, 1, 8), VX_ERROR_INVALID_PARAMETERS);
    assert_eq!(ask(9, VX_CONTEXT_ATTRIBUTE_EXTENSIONS, 1, 0), VX_ERROR_INVALID_PARAMETERS);
    assert_eq!(ask(9, 5, 1, 4), VX_ERROR_NOT_IMPLEMENTED);
}

#[test]
fn settings_of_a_context_round_trip() {
    let mut t = tables();
    register_context(&mut t.contexts, 1, 9);
    let border = vx_border_t {
        mode: VX_BORDER_CONSTANT,
        constant_value: vx_pixel_value_t {
            b0: 1,
            b1: 2,
            b2: 3,
            b3: 4,
            reserved_1: 5,
            reserved_2: 6,
            reserved_3: 7,
        },
    };
    let set = |t: &mut ContextTables, c: u64, a: i32, p: u64, s: usize| {
        vxSetContextAttribute(&mut t.contexts, c, a, p, border, s)
    };
    assert_eq!(set(&mut t, 9, VX_CONTEXT_ATTRIBUTE_IMMEDIATE_BORDER, 1, 20), VX_SUCCESS);
    assert_eq!(
        value_of(&t, VX_CONTEXT_ATTRIBUTE_IMMEDIATE_BORDER, 20),
        Value::Border(border)
    );
    assert_eq!(value_of(&t, VX_CONTEXT_ATTRIBUTE_IMMEDIATE_BORDER_POLICY, 4), Value::Enum(0x14000));
    assert_eq!(set(&mut t, 9, VX_CONTEXT_ATTRIBUTE_IMMEDIATE_BORDER_POLICY, 1, 4), VX_SUCCESS);
    assert_eq!(value_of(&t, VX_CONTEXT_ATTRIBUTE_IMMEDIATE_BORDER_POLICY, 4), Value::Enum(0x14000));
    assert_eq!(
        set(&mut t, 8, VX_CONTEXT_ATTRIBUTE_IMMEDIATE_BORDER_POLICY, 1, 4),
        VX_ERROR_INVALID_REFERENCE
    );
    assert_eq!(
        set(&mut t, 8, VX_CONTEXT_ATTRIBUTE_IMMEDIATE_BORDER, 1, 20),
        VX_ERROR_INVALID_REFERENCE
    );
    assert_eq!(
        set(&mut t, 9, VX_CONTEXT_ATTRIBUTE_IMMEDIATE_BORDER, 1, 4),
        VX_ERROR_INVALID_PARAMETERS
    );
    assert_eq!(set(&mut t, 9, VX_CONTEXT_ATTRIBUTE_IMPLEMENTATION, 1, 4), VX_ERROR_NOT_SUPPORTED);
    assert_eq!(set(&mut t, 9, 5, 1, 4), VX_ERROR_NOT_IMPLEMENTED);
    assert_eq!(set(&mut t, 0, 5, 1, 4), VX_ERROR_INVALID_REFERENCE);
    assert_eq!(set(&mut t, 9, 5, 0, 4), VX_ERROR_INVALID_PARAMETERS);
}

#[test]
fn contexts_are_forgotten_by_number() {
    let mut contexts: HashMap<u64, VxCContext> = HashMap::new();
    register_context(&mut contexts, 1, 10);
    register_context(&mut contexts, 2, 20);
    register_context(&mut contexts, 1, 30);
    unregister_context(&mut contexts, 1);
    assert_eq!(contexts.len(), 1);
    assert_eq!(contexts[&20].id, 2);
}

#[test]
fn the_log_reaches_its_callback() {
    let mut log = Log { callback: None, reentrant: 0, silent: HashSet::new() };
    assert_eq!(vxAddLogEntry(&log, 5, -1, 1), None);
    assert_eq!(vxRegisterLogCallback(&mut log, 0, Some(7), 1), VX_ERROR_INVALID_REFERENCE);
    assert_eq!(vxRegisterLogCallback(&mut log, 1, Some(7), 1), VX_SUCCESS);
    assert_eq!(
        vxAddLogEntry(&log, 5, -1, 1),
        Some(LogCall { callback: 7, reference: 5, status: -1 })
    );
    assert_eq!(vxAddLogEntry(&log, 5, -1, 0), None);
    assert_eq!(vxDirective(&mut log, 5, VX_DIRECTIVE_DISABLE_LOGGING), VX_SUCCESS);
    assert_eq!(vxAddLogEntry(&log, 5, -1, 1), None);
    assert!(vxAddLogEntry(&log, 6, -1, 1).is_some());
    assert_eq!(vxDirective(&mut log, 5, VX_DIRECTIVE_ENABLE_LOGGING), VX_SUCCESS);
    assert!(vxAddLogEntry(&log, 5, -1, 1).is_some());
    assert_eq!(vxDirective(&mut log, 5, VX_DIRECTIVE_ENABLE_PERFORMANCE), VX_SUCCESS);
    assert_eq!(vxDirective(&mut log, 0, VX_DIRECTIVE_ENABLE_PERFORMANCE), VX_ERROR_INVALID_REFERENCE);
    assert_eq!(vxDirective(&mut log, 5, 1), VX_ERROR_NOT_IMPLEMENTED);
}

#[test]
fn targets_are_checked() {
    assert_eq!(vxSetNodeTarget(0, VX_TARGET_ANY, 0), VX_ERROR_INVALID_REFERENCE);
    assert_eq!(vxSetNodeTarget(1, VX_TARGET_CPU, 0), VX_SUCCESS);
    assert_eq!(vxSetNodeTarget(1, 99, 0), VX_ERROR_INVALID_PARAMETERS);
    assert_eq!(vxSetImmediateModeTarget(0, 0, 0), VX_ERROR_INVALID_REFERENCE);
    assert_eq!(vxSetImmediateModeTarget(1, 0, 0), VX_SUCCESS);
    assert_eq!(vxEnumerateTargets(1, 3, 1), Ok(3));
    assert_eq!(vxEnumerateTargets(1, 3, 0), Err(ARGUMENT_MISSING));
    assert_eq!(vxSetGraphAttribute(0, 1, 1, 1), VX_ERROR_INVALID_REFERENCE);
    assert_eq!(vxSetGraphAttribute(1, 0x80200, 1, 1), VX_ERROR_NOT_SUPPORTED);
}

#[test]
fn meta_formats_round_trip() {
    let mut meta = VxMetaFormat { attributes: HashMap::new() };
    let mut refs = References::new();
    refs.register(4, VX_TYPE_IMAGE);
    assert_eq!(vxSetMetaFormatAttribute(&mut meta, 9, Some(vec![1, 2, 3])), VX_SUCCESS);
    assert_eq!(vxSetMetaFormatAttribute(&mut meta, 9, None), VX_ERROR_INVALID_REFERENCE);
    assert_eq!(vxQueryMetaFormatAttribute(Some(&meta), 9, 1, 9), Ok(vec![1, 2, 3]));
    assert_eq!(vxQueryMetaFormatAttribute(Some(&meta), 9, 1, 2), Ok(vec![1, 2]));
    assert_eq!(
        vxQueryMetaFormatAttribute(Some(&meta), 8, 1, 2),
        Err(VX_ERROR_INVALID_PARAMETERS)
    );
    assert_eq!(
        vxQueryMetaFormatAttribute(Some(&meta), 9, 0, 2),
        Err(VX_ERROR_INVALID_REFERENCE)
    );
    assert_eq!(vxQueryMetaFormatAttribute(None, 9, 1, 2), Err(VX_ERROR_INVALID_REFERENCE));
    let mut o = objects();
    o.images.insert(4, image(640, 480, VX_DF_IMAGE_U8));
    assert_eq!(vxSetMetaFormatFromReference(&mut meta, &refs, &o, 4), VX_SUCCESS);
    let ask = |meta: &VxMetaFormat, attribute: i32, size: usize| {
        vxQueryMetaFormatAttribute(Some(meta), attribute, 1, size)
    };
    assert_eq!(ask(&meta, 0, 4), Ok(vec![0x0F, 0x08, 0, 0]));
    assert_eq!(
        ask(&meta, VX_META_FORMAT_IMAGE_FORMAT, 4),
        Ok(VX_DF_IMAGE_U8.to_le_bytes().to_vec())
    );
    assert_eq!(ask(&meta, VX_META_FORMAT_IMAGE_WIDTH, 4), Ok(vec![0x80, 2, 0, 0]));
    assert_eq!(ask(&meta, VX_META_FORMAT_IMAGE_HEIGHT, 4), Ok(vec![0xE0, 1, 0, 0]));
    assert_eq!(ask(&meta, 9, 9), Ok(vec![1, 2, 3]));
    assert_eq!(vxSetMetaFormatFromReference(&mut meta, &refs, &o, 5), VX_SUCCESS);
    assert_eq!(ask(&meta, 0, 4), Ok(vec![0, 0, 0, 0]));
    assert_eq!(vxSetMetaFormatFromReference(&mut meta, &refs, &o, 0), VX_ERROR_INVALID_REFERENCE);
}

#[test]
fn meta_formats_take_over_the_attributes_of_objects() {
    let mut refs = References::new();
    let kinds = [
        (2, VX_TYPE_ARRAY),
        (3, VX_TYPE_SCALAR),
        (4, VX_TYPE_MATRIX),
        (5, VX_TYPE_THRESHOLD),
        (6, VX_TYPE_OBJECT_ARRAY),
        (7, VX_TYPE_USER_DATA_OBJECT),
        (8, VX_TYPE_TENSOR),
        (9, VX_TYPE_PYRAMID),
        (10, VX_TYPE_LUT),
        (11, VX_TYPE_REMAP),
        (12, VX_TYPE_DISTRIBUTION),
    ];
    for (handle, kind) in kinds {
        refs.register(handle, kind);
    }
    let mut o = objects();
    o.arrays.insert(2, VxCArray { item_type: 9, capacity: 7, items: vec![], ref_count: 1 });
    o.scalars.insert(3, VxCScalar { data_type: 6, data: vec![0; 4], context: 1 });
    let matrix = VxCMatrix {
        data_type: 6,
        rows: 2,
        columns: 5,
        origin_x: 0,
        origin_y: 0,
        pattern: 0,
        data: vec![],
    };
    o.matrices.insert(4, matrix);
    o.thresholds.insert(5, VxCThreshold { thresh_type: 0xB001, data_type: 3, ref_count: 1 });
    let array = VxCObjectArray {
        exemplar_type: VX_TYPE_IMAGE,
        count: 2,
        ref_count: 1,
        items: vec![31, 32],
        is_virtual: false,
    };
    o.object_arrays.insert(6, array);
    o.user_data.insert(7, UserData { name: vec![65, 66], size: 16 });
    o.tensors.insert(8, VxCTensor::new(2, vec![4, 259], 7, -1));
    let pyramid = VxCPyramid {
        context: 1,
        num_levels: 3,
        scale_bits: 0x3F00_0000,
        width: 8,
        height: 6,
        format: VX_DF_IMAGE_U8,
        levels: vec![],
    };
    o.pyramids.insert(9, pyramid);
    o.luts.insert(10, VxCLut { data_type: 3, count: 256, offset: 0, data: vec![] });
    let remap = VxCRemap {
        src_width: 1,
        src_height: 2,
        dst_width: 3,
        dst_height: 4,
        map_data: vec![],
        ref_count: 1,
    };
    o.remaps.insert(11, remap);
    let distribution = VxCDistribution {
        bins: 16,
        offset: 1,
        range: 64,
        data: vec![],
        ref_count: 1,
        mapped_distributions: vec![],
    };
    o.distributions.insert(12, distribution);
    let taken = |handle: u64, attribute: i32| {
        let mut meta = VxMetaFormat { attributes: HashMap::new() };
        assert_eq!(vxSetMetaFormatFromReference(&mut meta, &refs, &o, handle), VX_SUCCESS);
        meta.attributes.remove(&attribute).unwrap()
    };
    let size = |n: u8| vec![n, 0, 0, 0, 0, 0, 0, 0];
    assert_eq!(taken(2, 0x80E00), vec![9, 0, 0, 0]);
    assert_eq!(taken(2, 0x80E02), size(7));
    assert_eq!(taken(3, 0x80D00), vec![6, 0, 0, 0]);
    assert_eq!(taken(4, 0x80B01), size(2));
    assert_eq!(taken(4, 0x80B02), size(5));
    assert_eq!(taken(5, 0x80A00), vec![1, 0xB0, 0, 0]);
    assert_eq!(taken(6, 0x81300), vec![0x0F, 8, 0, 0]);
    assert_eq!(taken(6, 0x81301), size(2));
    assert_eq!(taken(7, 0x81600), vec![65, 66]);
    assert_eq!(taken(7, 0x81601), size(16));
    assert_eq!(taken(8, 0x81500), size(2));
    assert_eq!(taken(8, 0x81501), vec![4, 0, 0, 0, 0, 0, 0, 0, 3, 1, 0, 0, 0, 0, 0, 0]);
    assert_eq!(taken(8, 0x81503), vec![255]);
    assert_eq!(taken(9, 0x80900), size(3));
    assert_eq!(taken(9, 0x80901), vec![0, 0, 0, 0x3F]);
    assert_eq!(taken(9, 0x80903), vec![6, 0, 0, 0]);
    assert_eq!(taken(10, 0x80701), vec![0, 1, 0, 0, 0, 0, 0, 0]);
    assert_eq!(taken(11, 0x81003), vec![4, 0, 0, 0]);
    assert_eq!(taken(12, 0x80803), size(16));
    assert_eq!(taken(12, 0x80802), vec![64, 0, 0, 0]);
}

fn objects() -> Objects {
    Objects {
        images: HashMap::new(),
        arrays: HashMap::new(),
        pyramids: HashMap::new(),
        scalars: HashMap::new(),
        matrices: HashMap::new(),
        distributions: HashMap::new(),
        remaps: HashMap::new(),
        luts: HashMap::new(),
        thresholds: HashMap::new(),
        object_arrays: HashMap::new(),
        tensors: HashMap::new(),
        user_data: HashMap::new(),
    }
}

fn image(width: u32, height: u32, format: u32) -> VxCImage {
    VxCImage {
        width,
        height,
        format,
        is_virtual: false,
        context: 1,
        data: vec![],
        parent: None,
        is_external_memory: false,
        external_ptrs: vec![],
        external_strides: vec![],
        external_stride_x: vec![],
        external_dim_x: vec![],
        external_dim_y: vec![],
        roi_offsets: vec![],
        is_from_handle: false,
        channel_plane_offset: 0,
        parent_plane_index: None,
        valid_rect: vx_rectangle_t { start_x: 0, start_y: 0, end_x: width, end_y: height },
    }
}

#[test]
fn images_thresholds_and_levels_are_registered() {
    let mut images = HashSet::new();
    register_image(&mut images, 5);
    assert!(images.contains(&5));
    unregister_image(&mut images, 5);
    assert!(images.is_empty());
    register_threshold(&mut images, 6);
    assert!(images.contains(&6));
    unregister_threshold(&mut images, 6);
    assert!(images.is_empty());
    let mut levels = HashMap::new();
    vxRegisterPyramidLevelImage(&mut levels, 5, 9, 2);
    vxRegisterPyramidLevelImage(&mut levels, 0, 9, 2);
    vxRegisterPyramidLevelImage(&mut levels, 5, 0, 3);
    assert_eq!(levels.len(), 1);
    assert_eq!(levels[&5], (9, 2));
}

#[test]
fn calls_that_are_not_carried_out() {
    assert_eq!(vxCopyPyramid(1, 1, 0, 0), NOT_CARRIED_OUT);
    assert_eq!(vxMapPyramidLevel(1, 0, 1, 1, 1, 0, 0, 0), NOT_CARRIED_OUT);
    assert_eq!(vxMapPyramidLevel(1, 0, 0, 1, 1, 0, 0, 0), ARGUMENT_MISSING);
    assert_eq!(vxExportObjectsToMemory(1, 0, 1, 0, 1, 1), NOT_CARRIED_OUT);
    assert_eq!(vxExportObjectsToMemory(1, 0, 0, 0, 1, 1), ARGUMENT_MISSING);
    assert_eq!(vxQueryImport(0, 0, 1, 0), ARGUMENT_MISSING);
    assert_eq!(vxReleaseImport(0), -1);
    assert_eq!(vxReleaseImport(1), 0);
    assert_eq!(vxReleaseExportedMemory(0, 1), VX_ERROR_INVALID_REFERENCE);
    assert_eq!(vxReleaseExportedMemory(1, 0), VX_ERROR_INVALID_PARAMETERS);
    assert_eq!(vxReleaseExportedMemory(1, 1), VX_SUCCESS);
}

#[test]
fn forgetting_a_new_context_gives_the_contexts_back() {
    let mut contexts = HashMap::new();
    register_context(&mut contexts, 1, 100);
    register_context(&mut contexts, 2, 200);
    unregister_context(&mut contexts, 2);
    assert_eq!(contexts.len(), 1);
    assert_eq!(contexts[&100].id, 1);
}
