use openvx_core::dispatch::{
    border_from_vx, dispatch_builtin, read_scalar_enum, BorderArg, BorderMode, Dispatch, KernelArg,
    VX_BORDER_CONSTANT, VX_BORDER_REPLICATE, VX_BORDER_UNDEFINED, VX_NODE_STATE_PIPEUP,
    VX_NODE_STATE_STEADY,
};
use openvx_core::kernel_registry::{vxAddUserKernel, KernelFunctions};
use openvx_core::kernels::{kernel_from_name, Kernel};
use openvx_core::records::NodeData;
use openvx_core::refs::References;
use openvx_core::scalar::VxCScalar;
use openvx_core::types::{
    vx_border_t, vx_pixel_value_t, VX_ERROR_INVALID_KERNEL, VX_ERROR_INVALID_PARAMETERS,
    VX_ERROR_INVALID_REFERENCE, VX_SUCCESS,
};
use openvx_core::user_kernels::{
    dispatch_kernel_with_border, dispatch_kernel_with_border_ex, finish_user_kernel, kernel_handle,
    kernel_key, update_node_state_for_execution, UserKernels,
};
use std::collections::HashMap;

fn value(b0: u8) -> vx_pixel_value_t {
    vx_pixel_value_t { b0, b1: 0, b2: 0, b3: 0, reserved_1: 0, reserved_2: 0, reserved_3: 0 }
}

fn border(mode: i32, b0: u8) -> vx_border_t {
    vx_border_t { mode, constant_value: value(b0) }
}

fn scalar(data: Vec<u8>) -> VxCScalar {
    VxCScalar { data_type: 0xC, data, context: 1 }
}

fn node(kernel_id: u64) -> NodeData {
    NodeData {
        graph_id: 1,
        kernel_id,
        parameters: vec![],
        border_mode: border(VX_BORDER_UNDEFINED, 0),
        callback: None,
        execution_count: 0,
        run_count: 0,
        node_state: 0,
        user_kernel_initialized: false,
        local_data_size: 0,
        local_data_ptr: 0,
        local_data_auto_alloc: false,
    }
}

fn fail_of(d: Dispatch) -> Option<i32> {
    match d {
        Dispatch::Fail(s) => Some(s),
        _ => None,
    }
}

#[test]
fn borders_convert() {
    assert_eq!(border_from_vx(&None), BorderMode::Undefined);
    assert_eq!(border_from_vx(&Some(border(VX_BORDER_CONSTANT, 7))), BorderMode::Constant(7));
    assert_eq!(border_from_vx(&Some(border(VX_BORDER_REPLICATE, 7))), BorderMode::Replicate);
    assert_eq!(border_from_vx(&Some(border(99, 7))), BorderMode::Undefined);
}

#[test]
fn kernels_are_found_by_name() {
    assert_eq!(kernel_from_name("org.khronos.openvx.box_3x3"), Some(Kernel::Box3x3));
    assert_eq!(kernel_from_name("org.khronos.openvx.select"), Some(Kernel::Select));
    assert_eq!(kernel_from_name("org.khronos.openvx.box_4x4"), None);
}

#[test]
fn addition_is_dispatched_with_its_policy() {
    let mut scalars: HashMap<u64, VxCScalar> = HashMap::new();
    scalars.insert(30, scalar(vec![5, 0, 0, 0]));
    match dispatch_builtin(Kernel::Add, &vec![10, 20, 30, 40], &scalars, None) {
        Dispatch::Call(call) => {
            assert_eq!(call.kernel, Kernel::Add);
            assert_eq!(call.context_of, Some(10));
            assert_eq!(call.border, BorderArg::Unused);
            assert_eq!(
                call.args,
                vec![KernelArg::Ref(10), KernelArg::Ref(20), KernelArg::Int(5), KernelArg::Ref(40)]
            );
        }
        _ => panic!("no call"),
    }
}

#[test]
fn a_missing_policy_is_zero() {
    let scalars: HashMap<u64, VxCScalar> = HashMap::new();
    match dispatch_builtin(Kernel::Add, &vec![10, 20, 0, 40], &scalars, None) {
        Dispatch::Call(call) => assert_eq!(call.args[2], KernelArg::Int(0)),
        _ => panic!("no call"),
    }
}

#[test]
fn too_few_parameters_are_refused() {
    let scalars: HashMap<u64, VxCScalar> = HashMap::new();
    let d = dispatch_builtin(Kernel::Box3x3, &vec![1], &scalars, None);
    assert_eq!(fail_of(d), Some(VX_ERROR_INVALID_PARAMETERS));
}

#[test]
fn a_missing_image_is_an_invalid_reference() {
    let scalars: HashMap<u64, VxCScalar> = HashMap::new();
    let d = dispatch_builtin(Kernel::Box3x3, &vec![1, 0], &scalars, None);
    assert_eq!(fail_of(d), Some(VX_ERROR_INVALID_REFERENCE));
    let d = dispatch_builtin(Kernel::IntegralImage, &vec![1, 0], &scalars, None);
    assert_eq!(fail_of(d), Some(VX_ERROR_INVALID_PARAMETERS));
}

#[test]
fn a_scalar_that_is_too_short_is_refused() {
    let mut scalars: HashMap<u64, VxCScalar> = HashMap::new();
    scalars.insert(2, scalar(vec![3, 0, 0, 0]));
    scalars.insert(3, scalar(vec![3, 0]));
    scalars.insert(4, scalar(vec![9, 0, 0, 0]));
    let d = dispatch_builtin(Kernel::HogCells, &vec![1, 2, 3, 4, 5, 6], &scalars, None);
    assert_eq!(fail_of(d), Some(VX_ERROR_INVALID_PARAMETERS));
    scalars.insert(3, scalar(vec![7, 0, 0, 0]));
    match dispatch_builtin(Kernel::HogCells, &vec![1, 2, 3, 4, 5, 6], &scalars, None) {
        Dispatch::Call(call) => assert_eq!(
            call.args,
            vec![
                KernelArg::Ref(1),
                KernelArg::Int(3),
                KernelArg::Int(7),
                KernelArg::Int(9),
                KernelArg::Ref(5),
                KernelArg::Ref(6)
            ]
        ),
        _ => panic!("no call"),
    }
}

#[test]
fn defaults_of_the_optical_flow() {
    let scalars: HashMap<u64, VxCScalar> = HashMap::new();
    match dispatch_builtin(Kernel::OpticalFlowPyrLK, &vec![1, 2, 3, 0, 5], &scalars, None) {
        Dispatch::Call(call) => {
            assert_eq!(call.context_of, None);
            assert_eq!(call.args[5], KernelArg::Bits(0.001f32.to_bits()));
            assert_eq!(call.args[6], KernelArg::Size(10));
            assert_eq!(call.args[7], KernelArg::Flag(false));
            assert_eq!(call.args[8], KernelArg::Size(9));
        }
        _ => panic!("no call"),
    }
}

#[test]
fn channels_combine_with_three_or_four_planes() {
    let scalars: HashMap<u64, VxCScalar> = HashMap::new();
    match dispatch_builtin(Kernel::ChannelCombine, &vec![1, 2, 3, 4], &scalars, None) {
        Dispatch::Call(call) => assert_eq!(
            call.args,
            vec![
                KernelArg::Ref(1),
                KernelArg::Ref(2),
                KernelArg::Ref(3),
                KernelArg::Ref(0),
                KernelArg::Ref(4)
            ]
        ),
        _ => panic!("no call"),
    }
}

#[test]
fn the_border_goes_along_where_it_is_used() {
    let scalars: HashMap<u64, VxCScalar> = HashMap::new();
    let b = border(VX_BORDER_CONSTANT, 3);
    match dispatch_builtin(Kernel::Box3x3, &vec![1, 2], &scalars, Some(b)) {
        Dispatch::Call(call) => assert_eq!(call.border, BorderArg::AsGiven(Some(b))),
        _ => panic!("no call"),
    }
    match dispatch_builtin(Kernel::ScaleImage, &vec![1, 0, 2], &scalars, Some(b)) {
        Dispatch::Call(call) => {
            assert_eq!(call.border, BorderArg::Mode(BorderMode::Constant(3)));
            assert_eq!(call.args, vec![KernelArg::Ref(1), KernelArg::Ref(2), KernelArg::Int(0x4001)]);
        }
        _ => panic!("no call"),
    }
}

#[test]
fn scalar_enums_are_read() {
    let mut scalars: HashMap<u64, VxCScalar> = HashMap::new();
    scalars.insert(2, scalar(vec![0x01, 0x40, 0, 0]));
    assert_eq!(read_scalar_enum(&scalars, 2), Some(0x4001));
    assert_eq!(read_scalar_enum(&scalars, 3), None);
    assert_eq!(read_scalar_enum(&scalars, 0), None);
}

fn kernels_with(name: &str, enumeration: i32, function: Option<u64>) -> UserKernels {
    let mut kernels = UserKernels::new();
    let mut refs = References::new();
    let functions = KernelFunctions { kernel: function, validate: None, init: None, deinit: None };
    vxAddUserKernel(&mut kernels, &mut refs, 1, Some(name.to_string()), enumeration, functions, 2);
    kernels
}

#[test]
fn unknown_names_fall_back_to_user_kernels() {
    let kernels = kernels_with("mine", 77, Some(1234));
    let scalars: HashMap<u64, VxCScalar> = HashMap::new();
    match dispatch_kernel_with_border("mine", &vec![1], None, &scalars, &kernels) {
        Dispatch::User(f) => assert_eq!(f, Some(1234)),
        _ => panic!("no user kernel"),
    }
    let d = dispatch_kernel_with_border("other", &vec![1], None, &scalars, &kernels);
    assert_eq!(fail_of(d), Some(VX_ERROR_INVALID_KERNEL));
}

#[test]
fn a_pipeline_fills_before_it_is_steady() {
    let mut kernels = kernels_with("mine", 77, Some(1234));
    kernels.kernels[0].pipeup_output_depth = 2;
    let scalars: HashMap<u64, VxCScalar> = HashMap::new();
    let mut nodes: HashMap<u64, NodeData> = HashMap::new();
    nodes.insert(5, node(kernel_handle(77)));
    dispatch_kernel_with_border_ex("mine", &vec![], None, 5, &scalars, &kernels, &mut nodes);
    assert_eq!(nodes[&5].node_state, VX_NODE_STATE_PIPEUP);
    assert_eq!(finish_user_kernel(&mut nodes, 5, Some(VX_SUCCESS)), VX_SUCCESS);
    assert_eq!(nodes[&5].execution_count, 1);
    update_node_state_for_execution(&mut nodes, &kernels, 5);
    assert_eq!(nodes[&5].node_state, VX_NODE_STATE_STEADY);
}

#[test]
fn a_failed_user_kernel_does_not_count() {
    let mut nodes: HashMap<u64, NodeData> = HashMap::new();
    nodes.insert(5, node(1));
    assert_eq!(finish_user_kernel(&mut nodes, 5, Some(-5)), -5);
    assert_eq!(nodes[&5].execution_count, 0);
    assert_eq!(finish_user_kernel(&mut nodes, 5, None), VX_SUCCESS);
    assert_eq!(nodes[&5].execution_count, 1);
}

#[test]
fn handles_keep_their_number() {
    assert_eq!(kernel_handle(77), 77);
    assert_eq!(kernel_handle(-1), u64::MAX);
    assert_eq!(kernel_key(kernel_handle(-2097152)), -2097152);
    assert_eq!(kernel_handle(-2097152), 0xFFFF_FFFF_FFE0_0000);
}

#[test]
fn sizes_are_sign_extended() {
    let mut scalars: HashMap<u64, VxCScalar> = HashMap::new();
    scalars.insert(7, scalar(vec![0xFE, 0xFF, 0xFF, 0xFF]));
    scalars.insert(8, scalar(vec![2, 0, 0, 0]));
    match dispatch_builtin(Kernel::HalfScaleGaussian, &vec![1, 2, 7], &scalars, None) {
        Dispatch::Call(call) => assert_eq!(call.args[2], KernelArg::Size(u64::MAX - 1)),
        _ => panic!("no call"),
    }
    match dispatch_builtin(Kernel::HalfScaleGaussian, &vec![1, 2, 0], &scalars, None) {
        Dispatch::Call(call) => assert_eq!(call.args[2], KernelArg::Size(5)),
        _ => panic!("no call"),
    }
    match dispatch_builtin(Kernel::TensorTranspose, &vec![1, 8, 0, 4], &scalars, None) {
        Dispatch::Call(call) => assert_eq!(
            call.args,
            vec![
                KernelArg::Ref(1),
                KernelArg::Ref(4),
                KernelArg::Size(2),
                KernelArg::Size(0)
            ]
        ),
        _ => panic!("no call"),
    }
}
