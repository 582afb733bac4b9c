use openvx_core::constants::{
    VX_CONVOLUTION_COLUMNS, VX_CONVOLUTION_SCALE, VX_CONVOLUTION_SIZE, VX_DISTRIBUTION_BINS,
    VX_DISTRIBUTION_OFFSET, VX_DISTRIBUTION_SIZE, VX_DISTRIBUTION_WINDOW, VX_MATRIX_COLUMNS,
    VX_MATRIX_ELEMENT_SIZE, VX_MATRIX_ORIGIN, VX_MATRIX_PATTERN, VX_MATRIX_ROWS, VX_MATRIX_SIZE,
    VX_REMAP_DESTINATION_HEIGHT, VX_REMAP_SOURCE_WIDTH, VX_TENSOR_DATA_TYPE, VX_TENSOR_DIMS,
    VX_TENSOR_FIXED_POINT_POSITION, VX_TENSOR_NUMBER_OF_DIMS,
};
use openvx_core::distributions::{
    vxCopyDistribution, vxCreateDistribution, vxMapDistribution, vxQueryDistribution,
    vxReleaseDistribution, vxUnmapDistribution,
};
use openvx_core::matrices::{
    generate_pattern_data, vxCreateMatrixFromPattern, vxCreateMatrixFromPatternAndOrigin,
    vxQueryConvolution, vxQueryMatrix, vxSetConvolutionAttribute, vxSetMatrixAttribute,
    VX_PATTERN_BOX, VX_PATTERN_CROSS, VX_PATTERN_DISK,
};
use openvx_core::records::{VxCConvolution, VxCTensor};
use openvx_core::refs::References;
use openvx_core::remaps::{
    vxCopyRemapPatch, vxCreateRemap, vxCreateVirtualRemap, vxMapRemapPatch, vxQueryRemap,
    vxReleaseRemap, vxUnmapRemapPatch, MappedPatches,
};
use openvx_core::tensors::{
    copy_size, copy_tensor_data, element_size, vxCopyTensorPatch, vxCreateTensor,
    vxCreateTensorFromHandle, vxCreateVirtualTensor, vxMapTensorPatch, vxQueryTensor,
    vxReleaseTensor, vxSwapTensorHandle, TensorAnswer, Tensors,
};
use openvx_core::types::{
    vx_coordinates2d_t, vx_rectangle_t, VX_ERROR_INVALID_PARAMETERS, VX_ERROR_INVALID_REFERENCE,
    VX_ERROR_NOT_IMPLEMENTED, VX_ERROR_NOT_SUPPORTED, VX_FAILURE, VX_MEMORY_TYPE_HOST,
    VX_READ_AND_WRITE, VX_READ_ONLY, VX_SUCCESS, VX_TYPE_DISTRIBUTION, VX_TYPE_FLOAT64,
    VX_TYPE_INT16, VX_TYPE_INT32, VX_TYPE_REMAP, VX_TYPE_TENSOR, VX_TYPE_UINT8, VX_WRITE_ONLY,
};
use openvx_core::values::Value;
use std::collections::HashMap;

#[test]
fn patterns_make_masks() {
    let c = 255;
    assert_eq!(generate_pattern_data(VX_PATTERN_BOX, 3, 2), vec![c; 6]);
    assert_eq!(
        generate_pattern_data(VX_PATTERN_CROSS, 3, 3),
        vec![0, c, 0, c, c, c, 0, c, 0]
    );
    let disk = generate_pattern_data(VX_PATTERN_DISK, 5, 5);
    assert_eq!(
        disk,
        vec![
            0, c, c, c, 0, c, c, c, c, c, c, c, c, c, c, c, c, c, c, c, 0, c, c, c, 0
        ]
    );
    assert_eq!(generate_pattern_data(2, 3, 3), generate_pattern_data(VX_PATTERN_CROSS, 3, 3));
    assert_eq!(generate_pattern_data(99, 2, 2), vec![0; 4]);
}

#[test]
fn matrices_come_from_patterns() {
    let m = vxCreateMatrixFromPattern(1, VX_PATTERN_BOX, 4, 3).unwrap();
    assert_eq!((m.columns, m.rows, m.origin_x, m.origin_y), (4, 3, 2, 1));
    assert_eq!(m.data_type, VX_TYPE_UINT8);
    assert_eq!(m.data.len(), 12);
    assert!(vxCreateMatrixFromPattern(0, VX_PATTERN_BOX, 4, 3).is_none());
    assert!(vxCreateMatrixFromPattern(1, VX_PATTERN_BOX, 0, 3).is_none());
    let m = vxCreateMatrixFromPatternAndOrigin(1, VX_PATTERN_BOX, 4, 3, 7, 8).unwrap();
    assert_eq!((m.origin_x, m.origin_y), (7, 8));
    assert!(vxCreateMatrixFromPatternAndOrigin(0, VX_PATTERN_BOX, 4, 3, 7, 8).is_none());
}

#[test]
fn matrices_answer_their_attributes() {
    let mut matrices = HashMap::new();
    matrices.insert(5, vxCreateMatrixFromPattern(1, VX_PATTERN_CROSS, 4, 3).unwrap());
    let ask = |m: &HashMap<_, _>, a: i32, s: usize| vxQueryMatrix(m, 5, 1, a, 1, s);
    assert_eq!(ask(&matrices, VX_MATRIX_ROWS, 8), Ok(Value::Size(3)));
    assert_eq!(ask(&matrices, VX_MATRIX_COLUMNS, 8), Ok(Value::Size(4)));
    assert_eq!(ask(&matrices, VX_MATRIX_SIZE, 8), Ok(Value::Size(12)));
    assert_eq!(ask(&matrices, VX_MATRIX_ELEMENT_SIZE, 8), Ok(Value::Size(1)));
    assert_eq!(ask(&matrices, VX_MATRIX_PATTERN, 4), Ok(Value::Enum(VX_PATTERN_CROSS)));
    assert_eq!(ask(&matrices, VX_MATRIX_ROWS, 4), Err(VX_ERROR_INVALID_PARAMETERS));
    assert_eq!(ask(&matrices, 3, 8), Err(VX_ERROR_NOT_SUPPORTED));
    assert_eq!(
        vxQueryMatrix(&matrices, 6, 1, VX_MATRIX_ROWS, 1, 8),
        Err(VX_ERROR_INVALID_REFERENCE)
    );
    let origin = vx_coordinates2d_t { x: 9, y: 4 };
    let mut set = |a: i32, s: usize| vxSetMatrixAttribute(&mut matrices, 5, a, 1, s, origin);
    assert_eq!(set(VX_MATRIX_ORIGIN, 8), VX_SUCCESS);
    assert_eq!(set(VX_MATRIX_ORIGIN, 4), VX_ERROR_INVALID_PARAMETERS);
    assert_eq!(set(VX_MATRIX_ROWS, 8), VX_ERROR_NOT_SUPPORTED);
    assert_eq!(ask(&matrices, VX_MATRIX_ORIGIN, 8), Ok(Value::Point(origin)));
}

#[test]
fn convolutions_answer_their_attributes() {
    let mut convs = HashMap::new();
    convs.insert(
        5,
        VxCConvolution { rows: 3, columns: 5, scale: 1, data: vec![0; 15], ref_count: 1 },
    );
    let ask = |c: &HashMap<_, _>, a: i32, s: usize| vxQueryConvolution(c, 5, a, 1, s);
    assert_eq!(ask(&convs, VX_CONVOLUTION_COLUMNS, 8), Ok(Value::Size(5)));
    assert_eq!(ask(&convs, VX_CONVOLUTION_SIZE, 8), Ok(Value::Size(30)));
    let mut set = |a: i32, s: usize| vxSetConvolutionAttribute(&mut convs, 5, a, 1, s, 16);
    assert_eq!(set(VX_CONVOLUTION_SCALE, 4), VX_SUCCESS);
    assert_eq!(set(VX_CONVOLUTION_SCALE, 8), VX_ERROR_INVALID_PARAMETERS);
    assert_eq!(set(VX_CONVOLUTION_SIZE, 8), VX_ERROR_NOT_SUPPORTED);
    assert_eq!(ask(&convs, VX_CONVOLUTION_SCALE, 4), Ok(Value::Number(16)));
    assert_eq!(
        vxQueryConvolution(&convs, 0, VX_CONVOLUTION_SCALE, 1, 4),
        Err(VX_ERROR_INVALID_REFERENCE)
    );
}

#[test]
fn distributions_are_created_and_asked() {
    let mut refs = References::new();
    let mut ds = HashMap::new();
    assert_eq!(vxCreateDistribution(1, 4, 10, 20, 5, &mut refs, &mut ds), 5);
    assert_eq!(vxCreateDistribution(0, 4, 10, 20, 6, &mut refs, &mut ds), 0);
    assert_eq!(vxCreateDistribution(1, 0, 10, 20, 6, &mut refs, &mut ds), 0);
    assert_eq!(vxCreateDistribution(1, 4, 10, 0, 6, &mut refs, &mut ds), 0);
    assert_eq!(refs.type_of(5), Some(VX_TYPE_DISTRIBUTION));
    assert_eq!(ds[&5].data, vec![0; 4]);
    let ask = |a: i32, s: usize| vxQueryDistribution(&ds, 5, a, 1, s);
    assert_eq!(ask(VX_DISTRIBUTION_BINS, 8), Ok(Value::Size(4)));
    assert_eq!(ask(VX_DISTRIBUTION_OFFSET, 4), Ok(Value::Int(10)));
    assert_eq!(ask(VX_DISTRIBUTION_WINDOW, 4), Ok(Value::Number(5)));
    assert_eq!(ask(VX_DISTRIBUTION_SIZE, 8), Ok(Value::Size(16)));
    assert_eq!(ask(VX_DISTRIBUTION_SIZE, 4), Err(VX_ERROR_NOT_SUPPORTED));
    assert_eq!(ask(1, 4), Err(VX_ERROR_NOT_SUPPORTED));
    assert_eq!(vxReleaseDistribution(&mut refs, 0, 5), VX_FAILURE);
    assert_eq!(vxReleaseDistribution(&mut refs, 1, 5), VX_SUCCESS);
    assert_eq!(refs.type_of(5), None);
}

#[test]
fn distributions_are_copied() {
    let mut refs = References::new();
    let mut ds = HashMap::new();
    vxCreateDistribution(1, 3, 0, 9, 5, &mut refs, &mut ds);
    let mut user = vec![7, 8, 9, 10];
    assert_eq!(vxCopyDistribution(&mut ds, 5, 1, &mut user, VX_WRITE_ONLY), VX_SUCCESS);
    assert_eq!(ds[&5].data, vec![7, 8, 9]);
    let mut back = vec![1; 4];
    assert_eq!(vxCopyDistribution(&mut ds, 5, 1, &mut back, VX_READ_ONLY), VX_SUCCESS);
    assert_eq!(back, vec![7, 8, 9, 1]);
    assert_eq!(
        vxCopyDistribution(&mut ds, 5, 0, &mut back, VX_READ_ONLY),
        VX_ERROR_INVALID_REFERENCE
    );
}

#[test]
fn distributions_are_mapped() {
    let mut refs = References::new();
    let mut ds = HashMap::new();
    vxCreateDistribution(1, 2, 0, 9, 5, &mut refs, &mut ds);
    let host = VX_MEMORY_TYPE_HOST;
    assert_eq!(vxMapDistribution(&mut ds, 5, 1, 1, VX_READ_AND_WRITE, host), Ok(1));
    assert_eq!(vxMapDistribution(&mut ds, 5, 1, 1, VX_READ_ONLY, host), Ok(2));
    ds.get_mut(&5).unwrap().mapped_distributions[0].data = vec![3, 4];
    ds.get_mut(&5).unwrap().mapped_distributions[1].data = vec![5, 6];
    assert_eq!(vxUnmapDistribution(&mut ds, 5, 2), VX_SUCCESS);
    assert_eq!(ds[&5].data, vec![0, 0]);
    assert_eq!(vxUnmapDistribution(&mut ds, 5, 1), VX_SUCCESS);
    assert_eq!(ds[&5].data, vec![3, 4]);
    assert_eq!(vxUnmapDistribution(&mut ds, 5, 1), VX_ERROR_INVALID_REFERENCE);
    let map = |ds: &mut HashMap<_, _>, d: u64, p: u64, m: i32| {
        vxMapDistribution(ds, d, p, 1, VX_READ_ONLY, m).err()
    };
    assert_eq!(map(&mut ds, 0, 1, host), Some(VX_ERROR_INVALID_REFERENCE));
    assert_eq!(map(&mut ds, 5, 0, host), Some(VX_ERROR_INVALID_PARAMETERS));
    assert_eq!(map(&mut ds, 5, 1, 0), Some(VX_ERROR_NOT_IMPLEMENTED));
    assert_eq!(map(&mut ds, 6, 1, host), Some(VX_ERROR_INVALID_REFERENCE));
}

fn rect(a: u32, b: u32, c: u32, d: u32) -> vx_rectangle_t {
    vx_rectangle_t { start_x: a, start_y: b, end_x: c, end_y: d }
}

fn words(list: &[u32]) -> Vec<u8> {
    list.iter().flat_map(|w| w.to_le_bytes()).collect()
}

#[test]
fn remaps_are_created_and_asked() {
    let mut refs = References::new();
    let mut ms = HashMap::new();
    assert_eq!(vxCreateRemap(1, 10, 20, 3, 2, 5, &mut refs, &mut ms), 5);
    assert_eq!(vxCreateRemap(0, 10, 20, 3, 2, 6, &mut refs, &mut ms), 0);
    assert_eq!(vxCreateVirtualRemap(0, 1, 10, 20, 3, 2, 6, &mut refs, &mut ms), 0);
    assert_eq!(vxCreateVirtualRemap(1, 1, 10, 20, 3, 2, 6, &mut refs, &mut ms), 6);
    assert_eq!(refs.type_of(5), Some(VX_TYPE_REMAP));
    assert_eq!(ms[&5].map_data, vec![0; 12]);
    let ask = |a: i32, s: usize| vxQueryRemap(&ms, 5, a, 1, s);
    assert_eq!(ask(VX_REMAP_SOURCE_WIDTH, 4), Ok(Value::Number(10)));
    assert_eq!(ask(VX_REMAP_DESTINATION_HEIGHT, 4), Ok(Value::Number(2)));
    assert_eq!(ask(VX_REMAP_SOURCE_WIDTH, 3), Err(VX_ERROR_NOT_SUPPORTED));
    assert_eq!(vxReleaseRemap(&mut refs, 0, 5), VX_FAILURE);
    assert_eq!(vxReleaseRemap(&mut refs, 1, 5), VX_SUCCESS);
}

#[test]
fn patches_round_trip() {
    let mut refs = References::new();
    let mut ms = HashMap::new();
    vxCreateRemap(1, 10, 20, 3, 2, 5, &mut refs, &mut ms);
    let host = VX_MEMORY_TYPE_HOST;
    let r = rect(1, 0, 3, 2);
    let mut user = words(&[1, 2, 3, 4, 99, 5, 6, 7, 8]);
    assert_eq!(
        vxCopyRemapPatch(&mut ms, 5, 1, &r, 20, 1, &mut user, VX_WRITE_ONLY, host),
        VX_SUCCESS
    );
    assert_eq!(ms[&5].map_data, vec![0, 0, 1, 2, 3, 4, 0, 0, 5, 6, 7, 8]);
    let mut back = vec![0; 32];
    assert_eq!(
        vxCopyRemapPatch(&mut ms, 5, 1, &r, 0, 1, &mut back, VX_READ_ONLY, host),
        VX_SUCCESS
    );
    assert_eq!(back, words(&[1, 2, 3, 4, 5, 6, 7, 8]));
    let mut copy = |m: u64, u: i32, t: i32, r: vx_rectangle_t| {
        vxCopyRemapPatch(&mut ms, m, 1, &r, 0, 1, &mut back, u, t)
    };
    assert_eq!(copy(5, VX_READ_AND_WRITE, host, r), VX_ERROR_INVALID_PARAMETERS);
    assert_eq!(copy(0, VX_READ_ONLY, host, r), VX_ERROR_INVALID_PARAMETERS);
    assert_eq!(copy(6, VX_READ_ONLY, host, r), VX_ERROR_INVALID_REFERENCE);
    assert_eq!(copy(5, VX_READ_ONLY, 0, r), VX_ERROR_NOT_IMPLEMENTED);
    assert_eq!(copy(5, VX_READ_ONLY, host, rect(1, 0, 4, 2)), VX_ERROR_INVALID_PARAMETERS);
}

#[test]
fn patches_are_mapped() {
    let mut refs = References::new();
    let mut ms = HashMap::new();
    vxCreateRemap(1, 10, 20, 3, 1, 5, &mut refs, &mut ms);
    ms.get_mut(&5).unwrap().map_data = vec![1, 2, 3, 4, 5, 6];
    let mut patches = MappedPatches { buffers: HashMap::new(), next_id: 7 };
    let r = rect(1, 0, 3, 1);
    let host = VX_MEMORY_TYPE_HOST;
    assert_eq!(vxMapRemapPatch(&ms, &mut patches, 5, &r, true, host), Ok((7, 16)));
    assert_eq!(patches.buffers[&7], words(&[3, 4, 5, 6]));
    assert_eq!(patches.next_id, 8);
    assert_eq!(
        vxMapRemapPatch(&ms, &mut patches, 5, &r, false, host),
        Err(VX_ERROR_INVALID_PARAMETERS)
    );
    assert_eq!(vxUnmapRemapPatch(&mut patches, 0, 7), VX_ERROR_INVALID_REFERENCE);
    assert_eq!(vxUnmapRemapPatch(&mut patches, 5, 7), VX_SUCCESS);
    assert!(patches.buffers.is_empty());
}

#[test]
fn tensors_are_created() {
    let mut refs = References::new();
    let mut ts = Tensors::new();
    assert_eq!(element_size(VX_TYPE_INT16), 2);
    assert_eq!(element_size(VX_TYPE_FLOAT64), 8);
    assert_eq!(element_size(99), 1);
    let make = |ts: &mut Tensors, refs: &mut References, c: u64, dims: Vec<usize>, fresh: u64| {
        vxCreateTensor(ts, refs, c, 1, dims, VX_TYPE_INT16, 3, fresh)
    };
    assert_eq!(make(&mut ts, &mut refs, 9, vec![2, 3], 5), 5);
    assert_eq!(make(&mut ts, &mut refs, 9, vec![1, 3, 2], 6), 6);
    assert_eq!(make(&mut ts, &mut refs, 0, vec![2, 3], 7), 0);
    assert_eq!(make(&mut ts, &mut refs, 9, vec![], 7), 0);
    assert_eq!(ts.data[&5].len(), 12);
    assert_eq!(ts.data[&6].len(), 36);
    assert_eq!(ts.contexts[&5], 9);
    assert_eq!(refs.type_of(5), Some(VX_TYPE_TENSOR));
    assert_eq!(
        vxCreateVirtualTensor(&mut ts, &mut refs, 0, 9, 1, vec![2], VX_TYPE_INT16, 0, 8),
        0
    );
    let memory = Some(vec![1, 2, 3, 4]);
    assert_eq!(
        vxCreateTensorFromHandle(&mut ts, &mut refs, 9, 1, vec![2], VX_TYPE_INT16, 0, memory, 8),
        8
    );
    assert_eq!(ts.data[&8], vec![1, 2, 3, 4]);
    assert_eq!(vxReleaseTensor(&mut ts, &mut refs, 0, 8), VX_FAILURE);
    assert_eq!(vxReleaseTensor(&mut ts, &mut refs, 1, 8), VX_SUCCESS);
    assert!(!ts.records.contains_key(&8));
}

fn value(ts: &Tensors, attribute: i32, size: usize) -> Value {
    match vxQueryTensor(ts, 5, attribute, 1, size) {
        Ok(TensorAnswer::One(v)) => v,
        _ => panic!("no value"),
    }
}

#[test]
fn tensors_answer_their_attributes() {
    let mut refs = References::new();
    let mut ts = Tensors::new();
    vxCreateTensor(&mut ts, &mut refs, 9, 1, vec![2, 3], VX_TYPE_INT16, 3, 5);
    assert_eq!(value(&ts, VX_TENSOR_NUMBER_OF_DIMS, 8), Value::Size(2));
    assert_eq!(value(&ts, VX_TENSOR_DATA_TYPE, 4), Value::Enum(VX_TYPE_INT16));
    assert_eq!(value(&ts, VX_TENSOR_FIXED_POINT_POSITION, 1), Value::Small(3));
    match vxQueryTensor(&ts, 5, VX_TENSOR_DIMS, 1, 16) {
        Ok(TensorAnswer::Sizes(d)) => assert_eq!(d, vec![2, 3]),
        _ => panic!("no sizes"),
    }
    let err = |t: u64, a: i32, s: usize| vxQueryTensor(&ts, t, a, 1, s).err();
    assert_eq!(err(5, VX_TENSOR_DIMS, 15), Some(VX_ERROR_INVALID_PARAMETERS));
    assert_eq!(err(5, VX_TENSOR_DATA_TYPE, 8), Some(VX_ERROR_INVALID_PARAMETERS));
    assert_eq!(err(5, 1, 8), Some(VX_ERROR_NOT_SUPPORTED));
    assert_eq!(err(0, 1, 8), Some(VX_ERROR_INVALID_PARAMETERS));
    assert_eq!(err(6, 1, 8), Some(VX_ERROR_INVALID_REFERENCE));
}

#[test]
fn tensor_elements_are_copied() {
    let mut refs = References::new();
    let mut ts = Tensors::new();
    for fresh in [5, 6] {
        vxCreateTensor(&mut ts, &mut refs, 9, 1, vec![2], VX_TYPE_INT16, 3, fresh);
    }
    vxCreateTensor(&mut ts, &mut refs, 9, 1, vec![2], VX_TYPE_INT32, 3, 7);
    let mut user = vec![1, 2, 3, 4];
    assert_eq!(vxCopyTensorPatch(&mut ts, 5, 1, &mut user, VX_WRITE_ONLY), VX_SUCCESS);
    assert_eq!(copy_tensor_data(&mut ts, 5, 6), VX_SUCCESS);
    let mut back = vec![0; 4];
    assert_eq!(vxCopyTensorPatch(&mut ts, 6, 1, &mut back, VX_READ_ONLY), VX_SUCCESS);
    assert_eq!(back, vec![1, 2, 3, 4]);
    assert_eq!(copy_tensor_data(&mut ts, 5, 7), VX_ERROR_INVALID_PARAMETERS);
    assert_eq!(
        vxCopyTensorPatch(&mut ts, 8, 1, &mut back, VX_READ_ONLY),
        VX_ERROR_INVALID_REFERENCE
    );
    assert_eq!(vxSwapTensorHandle(&mut ts, 5, true, &vec![9, 9, 9, 9]), VX_SUCCESS);
    assert_eq!(ts.data[&5], vec![9; 4]);
    assert_eq!(
        vxSwapTensorHandle(&mut ts, 5, false, &vec![9, 9, 9, 9]),
        VX_ERROR_INVALID_PARAMETERS
    );
    assert_eq!(vxSwapTensorHandle(&mut ts, 8, true, &vec![]), VX_ERROR_INVALID_REFERENCE);
}

#[test]
fn tensor_patches_are_located() {
    let mut refs = References::new();
    let mut ts = Tensors::new();
    vxCreateTensor(&mut ts, &mut refs, 9, 1, vec![4, 3, 2], VX_TYPE_INT16, 0, 5);
    assert_eq!(
        vxMapTensorPatch(&ts, 5, true, &vec![1, 2, 1]),
        Ok((vec![2, 8, 24], 2 + 16 + 24))
    );
    assert_eq!(
        vxMapTensorPatch(&ts, 5, false, &vec![0, 0, 0]),
        Err(VX_ERROR_INVALID_PARAMETERS)
    );
    assert_eq!(
        vxMapTensorPatch(&ts, 6, true, &vec![0, 0, 0]),
        Err(VX_ERROR_INVALID_REFERENCE)
    );
    assert_eq!(copy_size(&VxCTensor::new(2, vec![4, 3], VX_TYPE_INT16, 0)), Some(24));
    assert_eq!(copy_size(&VxCTensor::new(2, vec![4, 3], VX_TYPE_FLOAT64, 0)), Some(12));
    assert_eq!(copy_size(&VxCTensor::new(2, vec![usize::MAX, 3], VX_TYPE_INT16, 0)), None);
}
