use openvx_core::constants::{
    VX_KERNEL_LOCAL_DATA_SIZE, VX_KERNEL_PIPEUP_INPUT_DEPTH, VX_KERNEL_PIPEUP_OUTPUT_DEPTH,
};
use openvx_core::kernel_registry::{
    vxAddParameterToKernel, vxAddUserKernel, vxAllocateUserKernelId, vxAllocateUserKernelLibraryId,
    vxFinalizeKernel, vxRegisterKernelLibrary, vxRemoveKernel, vxSetKernelAttribute,
    KernelFunctions, KernelLibraries, KernelSetting,
};
use openvx_core::records::UserKernelParam;
use openvx_core::refs::References;
use openvx_core::types::{
    VX_ERROR_INVALID_PARAMETERS, VX_ERROR_INVALID_REFERENCE, VX_ERROR_NO_MEMORY, VX_FAILURE,
    VX_INPUT, VX_OUTPUT, VX_SUCCESS, VX_TYPE_DELAY, VX_TYPE_IMAGE, VX_TYPE_INVALID, VX_TYPE_KERNEL,
};
use openvx_core::user_kernels::{UserKernels, USER_KERNEL_BASE, USER_KERNEL_IDS};
use openvx_core::user_structs::{
    vxGetUserStructEnumByName, vxGetUserStructNameByEnum, vxRegisterUserStruct,
    vxRegisterUserStructWithName, UserStructs,
};
use std::collections::HashSet;

fn functions() -> KernelFunctions {
    KernelFunctions { kernel: Some(1), validate: Some(2), init: Some(3), deinit: Some(4) }
}

fn add(kernels: &mut UserKernels, refs: &mut References, name: &str, enumeration: i32) -> u64 {
    vxAddUserKernel(kernels, refs, 9, Some(name.to_string()), enumeration, functions(), 3)
}

#[test]
fn an_added_kernel_is_found() {
    let mut kernels = UserKernels::new();
    let mut refs = References::new();
    let handle = add(&mut kernels, &mut refs, "mine", 5);
    assert_eq!(handle, 5);
    assert_eq!(kernels.find(5), Some(0));
    assert_eq!(kernels.find_named("mine"), Some(0));
    assert_eq!(kernels.kernels[0].num_params, 3);
    assert_eq!(kernels.kernels[0].pipeup_output_depth, 1);
    assert_eq!(refs.type_of(5), Some(VX_TYPE_KERNEL));
    assert_eq!(refs.counts[&5], 1);
    assert_eq!(refs.names[&5], Vec::<u8>::new());
}

#[test]
fn a_kernel_needs_a_context_and_a_name() {
    let mut kernels = UserKernels::new();
    let mut refs = References::new();
    assert_eq!(vxAddUserKernel(&mut kernels, &mut refs, 0, Some("x".to_string()), 5, functions(), 1), 0);
    assert_eq!(vxAddUserKernel(&mut kernels, &mut refs, 9, None, 5, functions(), 1), 0);
    assert_eq!(kernels.kernels.len(), 0);
}

#[test]
fn a_kernel_with_the_same_number_is_replaced() {
    let mut kernels = UserKernels::new();
    let mut refs = References::new();
    add(&mut kernels, &mut refs, "first", 5);
    add(&mut kernels, &mut refs, "second", 5);
    assert_eq!(kernels.kernels.len(), 1);
    assert_eq!(kernels.find_named("first"), None);
    assert_eq!(kernels.find_named("second"), Some(0));
}

#[test]
fn a_removed_kernel_is_gone() {
    let mut kernels = UserKernels::new();
    let mut refs = References::new();
    let handle = add(&mut kernels, &mut refs, "mine", -3);
    assert_eq!(vxAddParameterToKernel(&mut kernels, handle, 0, VX_INPUT, VX_TYPE_IMAGE, 1), VX_SUCCESS);
    assert_eq!(vxRemoveKernel(&mut kernels, &mut refs, handle), VX_SUCCESS);
    assert_eq!(kernels.find(-3), None);
    assert!(kernels.params.is_empty());
    assert!(refs.counts.is_empty());
    assert!(refs.types.is_empty());
    assert!(refs.names.is_empty());
    assert_eq!(vxRemoveKernel(&mut kernels, &mut refs, handle), VX_ERROR_INVALID_PARAMETERS);
    assert_eq!(vxRemoveKernel(&mut kernels, &mut refs, 0), VX_ERROR_INVALID_REFERENCE);
}

#[test]
fn kernel_numbers_start_again_when_used_up() {
    let mut kernels = UserKernels::new();
    assert_eq!(vxAllocateUserKernelId(&mut kernels, 1, 1), Ok(-2097152));
    assert_eq!(vxAllocateUserKernelId(&mut kernels, 1, 1), Ok(-2097151));
    kernels.next_id = USER_KERNEL_BASE + USER_KERNEL_IDS;
    assert_eq!(vxAllocateUserKernelId(&mut kernels, 1, 1), Ok(-2097152));
    assert_eq!(vxAllocateUserKernelId(&mut kernels, 0, 1), Err(VX_ERROR_INVALID_REFERENCE));
    assert_eq!(vxAllocateUserKernelId(&mut kernels, 1, 0), Err(VX_ERROR_INVALID_PARAMETERS));
}

#[test]
fn kernel_numbers_are_unique() {
    let mut kernels = UserKernels::new();
    let mut seen = HashSet::new();
    for _ in 0..USER_KERNEL_IDS {
        let number = vxAllocateUserKernelId(&mut kernels, 1, 1).unwrap();
        assert!(seen.insert(number));
    }
    assert_eq!(vxAllocateUserKernelId(&mut kernels, 1, 1), Ok(-2097152));
}

#[test]
fn library_numbers_count_up() {
    let mut kernels = UserKernels::new();
    assert_eq!(vxAllocateUserKernelLibraryId(&mut kernels, 1, 1), Ok(1));
    assert_eq!(vxAllocateUserKernelLibraryId(&mut kernels, 1, 1), Ok(2));
    assert_eq!(vxAllocateUserKernelLibraryId(&mut kernels, 0, 1), Err(VX_ERROR_INVALID_REFERENCE));
    assert_eq!(vxAllocateUserKernelLibraryId(&mut kernels, 1, 0), Err(VX_ERROR_INVALID_PARAMETERS));
}

#[test]
fn parameters_are_declared_with_blanks_before_them() {
    let mut kernels = UserKernels::new();
    let blank = UserKernelParam { direction: 0, data_type: 0, state: 0 };
    assert_eq!(vxAddParameterToKernel(&mut kernels, 7, 2, VX_OUTPUT, VX_TYPE_IMAGE, 1), VX_SUCCESS);
    let list = &kernels.params[&7];
    assert_eq!(list.len(), 3);
    assert_eq!(list[0], blank);
    assert_eq!(list[2], UserKernelParam { direction: VX_OUTPUT, data_type: VX_TYPE_IMAGE, state: 1 });
}

#[test]
fn a_delay_is_never_written() {
    let mut kernels = UserKernels::new();
    assert_eq!(
        vxAddParameterToKernel(&mut kernels, 7, 0, VX_OUTPUT, VX_TYPE_DELAY, 1),
        VX_ERROR_INVALID_PARAMETERS
    );
    assert_eq!(
        vxAddParameterToKernel(&mut kernels, 7, 0, 2, VX_TYPE_DELAY, 1),
        VX_ERROR_INVALID_PARAMETERS
    );
    assert_eq!(vxAddParameterToKernel(&mut kernels, 7, 0, VX_INPUT, VX_TYPE_DELAY, 1), VX_SUCCESS);
    assert_eq!(
        vxAddParameterToKernel(&mut kernels, 0, 0, VX_INPUT, VX_TYPE_IMAGE, 1),
        VX_ERROR_INVALID_REFERENCE
    );
}

#[test]
fn kernel_attributes_are_kept() {
    let mut kernels = UserKernels::new();
    let mut refs = References::new();
    let handle = add(&mut kernels, &mut refs, "mine", 5);
    let setting = KernelSetting { size: 64, depth: 3 };
    assert_eq!(vxSetKernelAttribute(&mut kernels, handle, 0x80403, 1, setting, 8), VX_SUCCESS);
    assert_eq!(kernels.kernels[0].local_data_size, 64);
    assert_eq!(
        vxSetKernelAttribute(&mut kernels, handle, VX_KERNEL_PIPEUP_OUTPUT_DEPTH, 1, setting, 4),
        VX_SUCCESS
    );
    assert_eq!(kernels.kernels[0].pipeup_output_depth, 3);
    assert_eq!(kernels.kernels[0].pipeup_input_depth, 1);
    assert_eq!(
        vxSetKernelAttribute(&mut kernels, handle, VX_KERNEL_PIPEUP_INPUT_DEPTH, 1, setting, 4),
        VX_SUCCESS
    );
    assert_eq!(kernels.kernels[0].pipeup_input_depth, 3);
    assert_eq!(
        vxSetKernelAttribute(&mut kernels, handle, VX_KERNEL_LOCAL_DATA_SIZE, 1, setting, 4),
        VX_ERROR_INVALID_PARAMETERS
    );
    assert_eq!(
        vxSetKernelAttribute(&mut kernels, handle, VX_KERNEL_PIPEUP_INPUT_DEPTH, 0, setting, 4),
        VX_ERROR_INVALID_PARAMETERS
    );
    assert_eq!(vxSetKernelAttribute(&mut kernels, 0, 0x99, 1, setting, 4), VX_ERROR_INVALID_REFERENCE);
    assert_eq!(vxSetKernelAttribute(&mut kernels, 12, 0x99, 0, setting, 0), VX_SUCCESS);
}

#[test]
fn kernels_are_finalized() {
    assert_eq!(vxFinalizeKernel(0), VX_FAILURE);
    assert_eq!(vxFinalizeKernel(3), VX_SUCCESS);
}

#[test]
fn libraries_are_known_by_context_and_module() {
    let mut known = KernelLibraries { libraries: vec![] };
    assert_eq!(
        vxRegisterKernelLibrary(&mut known, 1, Some("lib".to_string()), Some(10), None),
        VX_SUCCESS
    );
    assert_eq!(
        vxRegisterKernelLibrary(&mut known, 2, Some("lib".to_string()), Some(20), None),
        VX_SUCCESS
    );
    assert_eq!(
        vxRegisterKernelLibrary(&mut known, 1, Some("lib".to_string()), Some(30), Some(31)),
        VX_SUCCESS
    );
    assert_eq!(known.libraries.len(), 2);
    let at = known.find(1, &"lib".to_string()).unwrap();
    assert_eq!(known.libraries[at].functions.publish, Some(30));
    assert_eq!(known.libraries[at].functions.unpublish, Some(31));
    let other = known.find(2, &"lib".to_string()).unwrap();
    assert_eq!(known.libraries[other].functions.publish, Some(20));
    assert_eq!(
        vxRegisterKernelLibrary(&mut known, 0, Some("lib".to_string()), None, None),
        VX_ERROR_INVALID_REFERENCE
    );
    assert_eq!(
        vxRegisterKernelLibrary(&mut known, 1, Some(String::new()), None, None),
        VX_ERROR_INVALID_PARAMETERS
    );
    assert_eq!(vxRegisterKernelLibrary(&mut known, 1, None, None, None), VX_ERROR_INVALID_PARAMETERS);
}

#[test]
fn user_structs_are_found_by_name_and_number() {
    let mut structs = UserStructs::new();
    let a = vxRegisterUserStructWithName(&mut structs, 1, 8, Some(b"point".to_vec()));
    assert_eq!(a, 0x100);
    let b = vxRegisterUserStructWithName(&mut structs, 1, 12, Some(b"line".to_vec()));
    assert_eq!(b, 0x101);
    assert_eq!(vxRegisterUserStructWithName(&mut structs, 1, 99, Some(b"point".to_vec())), a);
    assert_eq!(structs.structs.len(), 2);
    assert_eq!(vxGetUserStructEnumByName(&structs, 1, Some(b"line".to_vec()), 1), Ok(b));
    assert_eq!(vxGetUserStructNameByEnum(&structs, 1, b, 1, 64), Ok(b"line\0".to_vec()));
    assert_eq!(vxGetUserStructNameByEnum(&structs, 1, b, 1, 3), Ok(b"li\0".to_vec()));
}

#[test]
fn user_structs_refuse_what_is_missing() {
    let mut structs = UserStructs::new();
    assert_eq!(vxRegisterUserStructWithName(&mut structs, 1, 0, Some(b"p".to_vec())), VX_TYPE_INVALID);
    assert_eq!(vxRegisterUserStructWithName(&mut structs, 0, 8, Some(b"p".to_vec())), VX_TYPE_INVALID);
    assert_eq!(vxRegisterUserStructWithName(&mut structs, 1, 8, None), VX_TYPE_INVALID);
    let a = vxRegisterUserStructWithName(&mut structs, 1, 8, Some(b"p".to_vec()));
    assert_eq!(vxGetUserStructNameByEnum(&structs, 0, a, 1, 9), Err(VX_ERROR_INVALID_PARAMETERS));
    assert_eq!(vxGetUserStructNameByEnum(&structs, 1, a, 0, 9), Err(VX_ERROR_INVALID_PARAMETERS));
    assert_eq!(vxGetUserStructNameByEnum(&structs, 1, a, 1, 0), Err(VX_ERROR_NO_MEMORY));
    assert_eq!(vxGetUserStructNameByEnum(&structs, 1, 3, 1, 9), Err(VX_FAILURE));
    assert_eq!(
        vxGetUserStructEnumByName(&structs, 0, Some(b"p".to_vec()), 1),
        Err(VX_ERROR_INVALID_REFERENCE)
    );
    assert_eq!(vxGetUserStructEnumByName(&structs, 1, None, 0), Err(VX_FAILURE));
    assert_eq!(
        vxGetUserStructEnumByName(&structs, 1, Some(b"p".to_vec()), 0),
        Err(VX_ERROR_INVALID_PARAMETERS)
    );
    assert_eq!(vxGetUserStructEnumByName(&structs, 1, Some(b"q".to_vec()), 1), Err(VX_FAILURE));
}

#[test]
fn a_struct_without_a_name_gets_one() {
    let mut structs = UserStructs::new();
    let a = vxRegisterUserStruct(&mut structs, 1, 8);
    assert_eq!(a, 0x100);
    assert_eq!(vxGetUserStructNameByEnum(&structs, 1, a, 1, 64), Ok(b"user_struct_256\0".to_vec()));
    assert_eq!(vxRegisterUserStruct(&mut structs, 1, 0), VX_TYPE_INVALID);
}
