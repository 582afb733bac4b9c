//! Entry points that check their arguments and go no further.
use vstd::prelude::*;
use crate::types::{
    VX_ERROR_INVALID_PARAMETERS, VX_ERROR_INVALID_REFERENCE, VX_FAILURE, VX_SUCCESS, vx_status,
};

verus! {

/// The status of a call that is not carried out.
pub const NOT_CARRIED_OUT: vx_status = -30;

/// The status of a call that lacks an argument.
pub const ARGUMENT_MISSING: vx_status = -2;

/// Pyramids are not copied as a whole.
pub fn vxCopyPyramid(_pyr: u64, _ptr: u64, _usage: i32, _mem_type: i32) -> (status: vx_status)
    ensures
        status == NOT_CARRIED_OUT,
{
    NOT_CARRIED_OUT
}

/// Pyramid levels are not mapped.
pub fn vxMapPyramidLevel(
    pyr: u64,
    _index: u32,
    map_id: u64,
    addr: u64,
    ptr: u64,
    _usage: i32,
    _mem_type: i32,
    _flags: u32,
) -> (status: vx_status)
    ensures
        status == if pyr == 0 || map_id == 0 || addr == 0 || ptr == 0 {
            ARGUMENT_MISSING
        } else {
            NOT_CARRIED_OUT
        },
{
    if pyr == 0 || map_id == 0 || addr == 0 || ptr == 0 {
        return ARGUMENT_MISSING;
    }
    NOT_CARRIED_OUT
}

/// Nothing is mapped of a pyramid, so there is nothing to give back.
pub fn vxUnmapPyramidLevel(pyr: u64, _index: u32, _map_id: usize) -> (status: vx_status)
    ensures
        status == if pyr == 0 {
            VX_FAILURE
        } else {
            VX_SUCCESS
        },
{
    if pyr == 0 {
        return VX_FAILURE;
    }
    VX_SUCCESS
}

/// Accepts a copy of a whole array; no bytes move.
pub fn vxCopyArray(arr: u64, user_ptr: u64, _usage: i32, _user_mem_type: i32) -> (status: vx_status)
    ensures
        status == if arr == 0 || user_ptr == 0 {
            ARGUMENT_MISSING
        } else {
            VX_SUCCESS
        },
{
    if arr == 0 || user_ptr == 0 {
        return ARGUMENT_MISSING;
    }
    VX_SUCCESS
}

/// Accepts a copy of a range of an array; no bytes move.
pub fn vxMoveArrayRange(
    arr: u64,
    _start: usize,
    _end: usize,
    _stride: usize,
    user_ptr: u64,
    _user_mem_type: i32,
) -> (status: vx_status)
    ensures
        status == if arr == 0 || user_ptr == 0 {
            ARGUMENT_MISSING
        } else {
            VX_SUCCESS
        },
{
    if arr == 0 || user_ptr == 0 {
        return ARGUMENT_MISSING;
    }
    VX_SUCCESS
}

/// Accepts a copy of a whole coordinate map; no bytes move.
pub fn vxCopyRemap(remap: u64, user_ptr: u64, _usage: i32, _user_mem_type: i32) -> (status: vx_status)
    ensures
        status == if remap == 0 || user_ptr == 0 {
            ARGUMENT_MISSING
        } else {
            VX_SUCCESS
        },
{
    if remap == 0 || user_ptr == 0 {
        return ARGUMENT_MISSING;
    }
    VX_SUCCESS
}

/// Accepts a copy of a whole tensor; no bytes move.
pub fn vxCopyTensor(tensor: u64, user_ptr: u64, _usage: i32, _user_mem_type: i32) -> (status: vx_status)
    ensures
        status == if tensor == 0 || user_ptr == 0 {
            ARGUMENT_MISSING
        } else {
            VX_SUCCESS
        },
{
    if tensor == 0 || user_ptr == 0 {
        return ARGUMENT_MISSING;
    }
    VX_SUCCESS
}

/// Tensors are not made from a part of another: the handle is null.
pub fn vxCreateTensorFromView(
    _tensor: u64,
    _num_dims: usize,
    _roi_start: u64,
    _roi_end: u64,
) -> (tensor: u64)
    ensures
        tensor == 0,
{
    0
}

/// Gives a mapped tensor patch back.  A patch is the tensor's own storage, so
/// nothing is left to do.
pub fn vxUnmapTensorPatch(tensor: u64, _map_id: usize) -> (status: vx_status)
    ensures
        status == if tensor == 0 {
            VX_ERROR_INVALID_REFERENCE
        } else {
            VX_SUCCESS
        },
{
    if tensor == 0 {
        return VX_ERROR_INVALID_REFERENCE;
    }
    VX_SUCCESS
}

/// Attributes of graph parameters are not set.
pub fn vxSetGraphParameterAttribute(
    _graph_parameter: u64,
    _attribute: i32,
    _ptr: u64,
    _size: usize,
) -> (status: vx_status)
    ensures
        status == NOT_CARRIED_OUT,
{
    NOT_CARRIED_OUT
}

/// Attributes of graph parameters are not answered.
pub fn vxQueryGraphParameterAttribute(
    _graph_parameter: u64,
    _attribute: i32,
    _ptr: u64,
    _size: usize,
) -> (status: vx_status)
    ensures
        status == NOT_CARRIED_OUT,
{
    NOT_CARRIED_OUT
}

/// The full attributes of parameters are not answered.
pub fn vxQueryParameterFull(param: u64, _attribute: i32, ptr: u64, _size: usize) -> (status: vx_status)
    ensures
        status == if param == 0 || ptr == 0 {
            ARGUMENT_MISSING
        } else {
            NOT_CARRIED_OUT
        },
{
    if param == 0 || ptr == 0 {
        return ARGUMENT_MISSING;
    }
    NOT_CARRIED_OUT
}

/// Convolutions are not made from patterns: the handle is null.
pub fn vxCreateConvolutionFromPattern(
    _context: u64,
    _pattern: i32,
    _columns: usize,
    _rows: usize,
) -> (convolution: u64)
    ensures
        convolution == 0,
{
    0
}

/// Meta formats are made by the runtime alone: the handle is null.
pub fn vxCreateMetaFormat(_context: u64) -> (meta: u64)
    ensures
        meta == 0,
{
    0
}

/// Objects are not exported.
pub fn vxExportObjectsToMemory(
    context: u64,
    _num_refs: usize,
    refs: u64,
    _uses: u64,
    ptr: u64,
    length: u64,
) -> (status:
    vx_status)
    ensures
        status == if context == 0 || refs == 0 || ptr == 0 || length == 0 {
            ARGUMENT_MISSING
        } else {
            NOT_CARRIED_OUT
        },
{
    if context == 0 || refs == 0 || ptr == 0 || length == 0 {
        return ARGUMENT_MISSING;
    }
    NOT_CARRIED_OUT
}

/// Objects are not imported: the handle is null.
pub fn vxImportObjectsFromMemory(
    _context: u64,
    _length: usize,
    _ptr: u64,
    _num_refs: usize,
    _refs: u64,
) -> (import: u64)
    ensures
        import == 0,
{
    0
}

/// Lets an import go.  The place of its handle, `import`, is to hold null.
pub fn vxReleaseImport(import: u64) -> (status: vx_status)
    ensures
        status == if import == 0 {
            VX_FAILURE
        } else {
            VX_SUCCESS
        },
{
    if import == 0 {
        return VX_FAILURE;
    }
    VX_SUCCESS
}

/// Attributes of imports are not answered.
pub fn vxQueryImport(import: u64, _attribute: i32, ptr: u64, _size: usize) -> (status: vx_status)
    ensures
        status == if import == 0 || ptr == 0 {
            ARGUMENT_MISSING
        } else {
            NOT_CARRIED_OUT
        },
{
    if import == 0 || ptr == 0 {
        return ARGUMENT_MISSING;
    }
    NOT_CARRIED_OUT
}

/// No import holds a reference by name: the handle is null.
pub fn vxGetImportReferenceByName(_import: u64, _name: u64) -> (reference: u64)
    ensures
        reference == 0,
{
    0
}

/// Gives exported memory back.  The place of its address, `ptr`, is to hold
/// null.
pub fn vxReleaseExportedMemory(context: u64, ptr: u64) -> (status: vx_status)
    ensures
        status == if context == 0 {
            VX_ERROR_INVALID_REFERENCE
        } else if ptr == 0 {
            VX_ERROR_INVALID_PARAMETERS
        } else {
            VX_SUCCESS
        },
{
    if context == 0 {
        return VX_ERROR_INVALID_REFERENCE;
    }
    if ptr == 0 {
        return VX_ERROR_INVALID_PARAMETERS;
    }
    VX_SUCCESS
}

/// Attributes of targets are not answered.
pub fn vxQueryTarget(_target: u64, _attribute: i32, _ptr: u64, _size: usize) -> (status: vx_status)
    ensures
        status == NOT_CARRIED_OUT,
{
    NOT_CARRIED_OUT
}

/// Metrics of targets are not answered.
pub fn vxQueryTargetMetric(_target: u64, _metric: i32, _ptr: u64, _size: usize) -> (status: vx_status)
    ensures
        status == NOT_CARRIED_OUT,
{
    NOT_CARRIED_OUT
}

/// What is not carried out says so, where it does not lack an argument.
pub proof fn law_calls_that_are_not_carried_out(
    object: u64,
    place: u64,
    second: u64,
    third: u64,
    n: i32,
    k: u32,
    size: usize,
    pyramid: vx_status,
    level: vx_status,
    full: vx_status,
    exported: vx_status,
    imported: vx_status,
    set: vx_status,
    asked: vx_status,
    target: vx_status,
    metric: vx_status,
)
    requires
        call_ensures(vxCopyPyramid, (object, place, n, n), pyramid),
        call_ensures(vxMapPyramidLevel, (object, k, second, third, place, n, n, k), level),
        call_ensures(vxQueryParameterFull, (object, n, place, size), full),
        call_ensures(vxExportObjectsToMemory, (object, size, second, second, place, third), exported),
        call_ensures(vxQueryImport, (object, n, place, size), imported),
        call_ensures(vxSetGraphParameterAttribute, (object, n, place, size), set),
        call_ensures(vxQueryGraphParameterAttribute, (object, n, place, size), asked),
        call_ensures(vxQueryTarget, (object, n, place, size), target),
        call_ensures(vxQueryTargetMetric, (object, n, place, size), metric),
    ensures
        pyramid == -30 && set == -30 && asked == -30 && target == -30 && metric == -30,
        object != 0 && place != 0 && second != 0 && third != 0 ==> level == -30 && exported == -30,
        object == 0 || place == 0 || second == 0 || third == 0 ==> level == -2 && exported == -2,
        object != 0 && place != 0 ==> full == -30 && imported == -30,
        object == 0 || place == 0 ==> full == -2 && imported == -2,
{
}

/// What moves no bytes succeeds where it has its arguments.
pub proof fn law_calls_that_do_nothing(
    object: u64,
    place: u64,
    n: i32,
    k: u32,
    size: usize,
    array: vx_status,
    range: vx_status,
    remap: vx_status,
    tensor: vx_status,
    level: vx_status,
    patch: vx_status,
    import: vx_status,
    memory: vx_status,
)
    requires
        call_ensures(vxCopyArray, (object, place, n, n), array),
        call_ensures(vxMoveArrayRange, (object, size, size, size, place, n), range),
        call_ensures(vxCopyRemap, (object, place, n, n), remap),
        call_ensures(vxCopyTensor, (object, place, n, n), tensor),
        call_ensures(vxUnmapPyramidLevel, (object, k, size), level),
        call_ensures(vxUnmapTensorPatch, (object, size), patch),
        call_ensures(vxReleaseImport, (object,), import),
        call_ensures(vxReleaseExportedMemory, (object, place), memory),
    ensures
        object != 0 && place != 0 ==> array == VX_SUCCESS && range == VX_SUCCESS && remap
            == VX_SUCCESS && tensor == VX_SUCCESS && memory == VX_SUCCESS,
        object == 0 || place == 0 ==> array == -2 && range == -2 && remap == -2 && tensor == -2,
        object != 0 ==> level == VX_SUCCESS && patch == VX_SUCCESS && import == VX_SUCCESS,
        object == 0 ==> level == VX_FAILURE && import == VX_FAILURE && patch
            == VX_ERROR_INVALID_REFERENCE && memory == VX_ERROR_INVALID_REFERENCE,
        object != 0 && place == 0 ==> memory == VX_ERROR_INVALID_PARAMETERS,
{
}

/// What cannot be made has a null handle, whatever it was to be made of.
pub proof fn law_handles_that_are_null(
    owner: u64,
    second: u64,
    third: u64,
    n: i32,
    size: usize,
    view: u64,
    convolution: u64,
    meta: u64,
    import: u64,
    named: u64,
)
    requires
        call_ensures(vxCreateTensorFromView, (owner, size, second, third), view),
        call_ensures(vxCreateConvolutionFromPattern, (owner, n, size, size), convolution),
        call_ensures(vxCreateMetaFormat, (owner,), meta),
        call_ensures(vxImportObjectsFromMemory, (owner, size, second, size, third), import),
        call_ensures(vxGetImportReferenceByName, (owner, second), named),
    ensures
        view == 0 && convolution == 0 && meta == 0 && import == 0 && named == 0,
{
}

} // verus!
