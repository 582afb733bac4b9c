//! Tensors: their sizes, their strides and the copying of their elements.
use vstd::prelude::*;
use crate::arith::saturating_mul;
use crate::constants::{
    VX_TENSOR_DATA_TYPE, VX_TENSOR_DIMS, VX_TENSOR_FIXED_POINT_POSITION,
    VX_TENSOR_NUMBER_OF_DIMS,
};
use crate::records::VxCTensor;
use crate::refs::References;
use crate::scalar::overlay;
use crate::types::{
    VX_ERROR_INVALID_PARAMETERS, VX_ERROR_INVALID_REFERENCE, VX_ERROR_NOT_SUPPORTED, VX_FAILURE,
    VX_SUCCESS, VX_TYPE_FLOAT32, VX_TYPE_FLOAT64, VX_TYPE_INT16, VX_TYPE_INT32, VX_TYPE_INT64,
    VX_TYPE_INT8, VX_TYPE_TENSOR, VX_TYPE_UINT16, VX_TYPE_UINT32, VX_TYPE_UINT64, VX_TYPE_UINT8,
    VX_WRITE_ONLY, vx_enum, vx_status,
};
use crate::values::{ENUM_BYTES, SIZE_BYTES, Value, hand_out_exactly};
use crate::virtual_images::zeroed;
use std::collections::HashMap;

verus! {

broadcast use vstd::std_specs::hash::group_hash_axioms;

/// The tensors with their elements and the contexts they belong to.
pub struct Tensors {
    pub records: HashMap<u64, VxCTensor>,
    pub data: HashMap<u64, Vec<u8>>,
    pub contexts: HashMap<u64, u64>,
}

/// The bytes that an element takes.
pub open spec fn element_bytes(data_type: vx_enum) -> nat {
    if data_type == VX_TYPE_INT16 || data_type == VX_TYPE_UINT16 {
        2
    } else if data_type == VX_TYPE_INT32 || data_type == VX_TYPE_UINT32 || data_type
        == VX_TYPE_FLOAT32 {
        4
    } else if data_type == VX_TYPE_INT64 || data_type == VX_TYPE_UINT64 || data_type
        == VX_TYPE_FLOAT64 {
        8
    } else {
        1
    }
}

/// The bytes that an element counts for when elements are copied to or from the
/// application: as stored, but only one for elements of eight.
pub open spec fn copied_bytes(data_type: vx_enum) -> nat {
    if element_bytes(data_type) == 8 {
        1
    } else {
        element_bytes(data_type)
    }
}

/// The product of some numbers.
pub open spec fn product(dims: Seq<usize>) -> nat
    decreases dims.len(),
{
    if dims.len() == 0 {
        1
    } else {
        product(dims.drop_last()) * (dims.last() as nat)
    }
}

/// The product of some numbers, the largest number where it is exceeded on the way.
pub open spec fn clamped_product(dims: Seq<usize>) -> nat
    decreases dims.len(),
{
    if dims.len() == 0 {
        1
    } else {
        crate::arith::saturating_product(clamped_product(dims.drop_last()), dims.last() as nat)
    }
}

/// The bytes that a new tensor gets: three times as many for one channel of a
/// picture, whose first dimension is one.
pub open spec fn tensor_bytes(dims: Seq<usize>, data_type: vx_enum) -> nat {
    let elements = if dims.len() == 3 && dims[0] == 1 {
        clamped_product(dims) * 3
    } else {
        clamped_product(dims)
    };
    crate::arith::saturating_product(elements, element_bytes(data_type))
}

/// The bytes that a tensor over the application's memory gets.
pub open spec fn handle_bytes(dims: Seq<usize>, data_type: vx_enum) -> nat {
    crate::arith::saturating_product(clamped_product(dims), element_bytes(data_type))
}

/// The distance in bytes of neighbours along a dimension.
pub open spec fn stride_of(dims: Seq<usize>, element: nat, i: nat) -> nat
    decreases i,
{
    if i == 0 {
        element
    } else {
        stride_of(dims, element, (i - 1) as nat) * (dims[i - 1] as nat)
    }
}

/// The distances in bytes along each dimension.
pub open spec fn strides_of(dims: Seq<usize>, element: nat) -> Seq<nat> {
    Seq::new(dims.len(), |i: int| stride_of(dims, element, i as nat))
}

/// The offset of an element, counting the first `n` dimensions.
pub open spec fn offset_of(dims: Seq<usize>, element: nat, start: Seq<usize>, n: nat) -> nat
    decreases n,
{
    if n == 0 {
        0
    } else {
        offset_of(dims, element, start, (n - 1) as nat) + (start[n - 1] as nat) * stride_of(
            dims,
            element,
            (n - 1) as nat,
        )
    }
}

impl VxCTensor {
    /// Whether a tensor has as many sizes as dimensions, and at least one.
    pub open spec fn wf(&self) -> bool {
        self.dims@.len() == self.num_dims && self.num_dims > 0
    }
}

impl Tensors {
    /// Whether every tensor has as many sizes as dimensions.
    pub open spec fn wf(&self) -> bool {
        forall|t: u64| #[trigger] self.records@.contains_key(t) ==> self.records@[t].wf()
    }

    /// No tensors.
    pub fn new() -> (r: Self)
        ensures
            r.wf(),
            r.records@ == Map::<u64, VxCTensor>::empty(),
            r.data@ == Map::<u64, Vec<u8>>::empty(),
            r.contexts@ == Map::<u64, u64>::empty(),
    {
        Tensors { records: HashMap::new(), data: HashMap::new(), contexts: HashMap::new() }
    }
}

/// Finds the bytes that an element takes.
pub fn element_size(data_type: vx_enum) -> (r: usize)
    ensures
        r == element_bytes(data_type),
        r == 1 || r == 2 || r == 4 || r == 8,
{
    if data_type == VX_TYPE_INT16 || data_type == VX_TYPE_UINT16 {
        2
    } else if data_type == VX_TYPE_INT32 || data_type == VX_TYPE_UINT32 || data_type
        == VX_TYPE_FLOAT32 {
        4
    } else if data_type == VX_TYPE_INT64 || data_type == VX_TYPE_UINT64 || data_type
        == VX_TYPE_FLOAT64 {
        8
    } else {
        1
    }
}

fn multiply_clamped(dims: &Vec<usize>) -> (r: usize)
    ensures
        r == clamped_product(dims@),
{
    let mut total: usize = 1;
    for i in 0..dims.len()
        invariant
            total == clamped_product(dims@.take(i as int)),
    {
        assert(dims@.take(i + 1).drop_last() =~= dims@.take(i as int));
        total = saturating_mul(total, dims[i]);
    }
    assert(dims@.take(dims@.len() as int) =~= dims@);
    total
}

/// Whether some tensors are others with one more.
pub open spec fn with_tensor(
    before: Tensors,
    after: Tensors,
    tensor: u64,
    dims: Seq<usize>,
    data_type: vx_enum,
    fixed_point_position: i8,
    data: Seq<u8>,
    context: u64,
) -> bool {
    &&& after.records@.contains_key(tensor)
    &&& after.records@.remove(tensor) == before.records@.remove(tensor)
    &&& after.records@[tensor].num_dims == dims.len()
    &&& after.records@[tensor].dims@ == dims
    &&& after.records@[tensor].data_type == data_type
    &&& after.records@[tensor].fixed_point_position == fixed_point_position
    &&& after.records@[tensor].ref_count == 1
    &&& after.data@.contains_key(tensor)
    &&& after.data@.remove(tensor) == before.data@.remove(tensor)
    &&& after.data@[tensor]@ == data
    &&& after.contexts@ == before.contexts@.insert(tensor, context)
}

fn add_tensor(
    tensors: &mut Tensors,
    refs: &mut References,
    tensor: u64,
    dims: Vec<usize>,
    data_type: vx_enum,
    fixed_point_position: i8,
    data: Vec<u8>,
    context: u64,
)
    requires
        old(tensors).wf(),
        dims@.len() > 0,
    ensures
        final(tensors).wf(),
        with_tensor(
            *old(tensors),
            *final(tensors),
            tensor,
            dims@,
            data_type,
            fixed_point_position,
            data@,
            context,
        ),
        final(refs).counts@ == old(refs).counts@.insert(tensor, 1),
        final(refs).types@ == old(refs).types@.insert(tensor, VX_TYPE_TENSOR),
        final(refs).names@ == old(refs).names@,
{
    let num_dims = dims.len();
    tensors.records.insert(
        tensor,
        VxCTensor::new(num_dims, dims, data_type, fixed_point_position),
    );
    tensors.data.insert(tensor, data);
    tensors.contexts.insert(tensor, context);
    refs.register(tensor, VX_TYPE_TENSOR);
    proof {
        assert(tensors.records@.remove(tensor) =~= old(tensors).records@.remove(tensor));
        assert(tensors.data@.remove(tensor) =~= old(tensors).data@.remove(tensor));
        assert forall|t: u64| #[trigger]
            tensors.records@.contains_key(t) implies tensors.records@[t].wf() by {
            if t != tensor {
                assert(old(tensors).records@.contains_key(t));
                assert(tensors.records@[t] == old(tensors).records@[t]);
            }
        }
    }
}

/// Creates a tensor of zeros under a fresh handle.  Answers the handle, or `0` where
/// there is no context or no dimension.
pub fn vxCreateTensor(
    tensors: &mut Tensors,
    refs: &mut References,
    context: u64,
    dims_ptr: u64,
    dims: Vec<usize>,
    data_type: vx_enum,
    fixed_point_pos: i8,
    fresh: u64,
) -> (r: u64)
    requires
        old(tensors).wf(),
        fresh != 0,
        dims@.len() == 3 && dims@[0] == 1 ==> clamped_product(dims@) * 3 <= usize::MAX,
        tensor_bytes(dims@, data_type) <= isize::MAX,
    ensures
        final(tensors).wf(),
        r == if context == 0 || dims_ptr == 0 || dims@.len() == 0 {
            0
        } else {
            fresh
        },
        r == 0 ==> *final(tensors) == *old(tensors) && *final(refs) == *old(refs),
        r != 0 ==> {
            &&& with_tensor(
                *old(tensors),
                *final(tensors),
                fresh,
                dims@,
                data_type,
                fixed_point_pos,
                crate::virtual_images::zeros(tensor_bytes(dims@, data_type)),
                context,
            )
            &&& final(refs).counts@ == old(refs).counts@.insert(fresh, 1)
            &&& final(refs).types@ == old(refs).types@.insert(fresh, VX_TYPE_TENSOR)
            &&& final(refs).names@ == old(refs).names@
        },
{
    if context == 0 || dims_ptr == 0 || dims.len() == 0 {
        return 0;
    }
    let mut elements = multiply_clamped(&dims);
    if dims.len() == 3 && dims[0] == 1 {
        elements = elements * 3;
    }
    let bytes = saturating_mul(elements, element_size(data_type));
    let data = zeroed(bytes);
    add_tensor(tensors, refs, fresh, dims, data_type, fixed_point_pos, data, context);
    fresh
}

/// Creates a tensor for a graph: as for a context, the one the graph belongs to.
pub fn vxCreateVirtualTensor(
    tensors: &mut Tensors,
    refs: &mut References,
    graph: u64,
    context: u64,
    dims_ptr: u64,
    dims: Vec<usize>,
    data_type: vx_enum,
    fixed_point_position: i8,
    fresh: u64,
) -> (r: u64)
    requires
        old(tensors).wf(),
        fresh != 0,
        dims@.len() == 3 && dims@[0] == 1 ==> clamped_product(dims@) * 3 <= usize::MAX,
        tensor_bytes(dims@, data_type) <= isize::MAX,
    ensures
        final(tensors).wf(),
        r == if graph == 0 || context == 0 || dims_ptr == 0 || dims@.len() == 0 {
            0
        } else {
            fresh
        },
        r == 0 ==> *final(tensors) == *old(tensors) && *final(refs) == *old(refs),
        r != 0 ==> {
            &&& with_tensor(
                *old(tensors),
                *final(tensors),
                fresh,
                dims@,
                data_type,
                fixed_point_position,
                crate::virtual_images::zeros(tensor_bytes(dims@, data_type)),
                context,
            )
            &&& final(refs).counts@ == old(refs).counts@.insert(fresh, 1)
            &&& final(refs).types@ == old(refs).types@.insert(fresh, VX_TYPE_TENSOR)
            &&& final(refs).names@ == old(refs).names@
        },
{
    if graph == 0 {
        return 0;
    }
    vxCreateTensor(
        tensors,
        refs,
        context,
        dims_ptr,
        dims,
        data_type,
        fixed_point_position,
        fresh,
    )
}

/// Creates a tensor from the application's memory under a fresh handle; without
/// memory it holds zeros.
pub fn vxCreateTensorFromHandle(
    tensors: &mut Tensors,
    refs: &mut References,
    context: u64,
    dims_ptr: u64,
    dims: Vec<usize>,
    data_type: vx_enum,
    fixed_point_position: i8,
    memory: Option<Vec<u8>>,
    fresh: u64,
) -> (r: u64)
    requires
        old(tensors).wf(),
        fresh != 0,
        handle_bytes(dims@, data_type) <= isize::MAX,
        memory matches Some(m) ==> m@.len() == handle_bytes(dims@, data_type),
    ensures
        final(tensors).wf(),
        r == if context == 0 || dims_ptr == 0 || dims@.len() == 0 {
            0
        } else {
            fresh
        },
        r == 0 ==> *final(tensors) == *old(tensors) && *final(refs) == *old(refs),
        r != 0 ==> {
            &&& with_tensor(
                *old(tensors),
                *final(tensors),
                fresh,
                dims@,
                data_type,
                fixed_point_position,
                match memory {
                    Some(m) => m@,
                    None => crate::virtual_images::zeros(handle_bytes(dims@, data_type)),
                },
                context,
            )
            &&& final(refs).counts@ == old(refs).counts@.insert(fresh, 1)
            &&& final(refs).types@ == old(refs).types@.insert(fresh, VX_TYPE_TENSOR)
            &&& final(refs).names@ == old(refs).names@
        },
{
    if context == 0 || dims_ptr == 0 || dims.len() == 0 {
        return 0;
    }
    let data: Vec<u8> = match memory {
        Some(m) => m,
        None => zeroed(saturating_mul(multiply_clamped(&dims), element_size(data_type))),
    };
    add_tensor(tensors, refs, fresh, dims, data_type, fixed_point_position, data, context);
    fresh
}

/// What a question about a tensor is answered.
pub enum TensorAnswer {
    One(Value),
    /// The size of each dimension.
    Sizes(Vec<usize>),
}

/// Reads an attribute of a tensor.
pub fn vxQueryTensor(
    tensors: &Tensors,
    tensor: u64,
    attribute: vx_enum,
    ptr: u64,
    size: usize,
) -> (r: Result<TensorAnswer, vx_status>)
    ensures
        ({
            let t = tensors.records@[tensor];
            if tensor == 0 || ptr == 0 {
                r == Err::<TensorAnswer, vx_status>(VX_ERROR_INVALID_PARAMETERS)
            } else if !tensors.records@.contains_key(tensor) {
                r == Err::<TensorAnswer, vx_status>(VX_ERROR_INVALID_REFERENCE)
            } else if attribute == VX_TENSOR_DIMS {
                match r {
                    Ok(TensorAnswer::Sizes(list)) => list@ == t.dims@ && size >= t.num_dims * 8,
                    Ok(_) => false,
                    Err(e) => e == VX_ERROR_INVALID_PARAMETERS && size < t.num_dims * 8,
                }
            } else {
                let wanted = if attribute == VX_TENSOR_NUMBER_OF_DIMS {
                    crate::values::with_exact_room(
                        size,
                        SIZE_BYTES,
                        Value::Size(t.num_dims),
                        VX_ERROR_INVALID_PARAMETERS,
                    )
                } else if attribute == VX_TENSOR_DATA_TYPE {
                    crate::values::with_exact_room(
                        size,
                        ENUM_BYTES,
                        Value::Enum(t.data_type),
                        VX_ERROR_INVALID_PARAMETERS,
                    )
                } else if attribute == VX_TENSOR_FIXED_POINT_POSITION {
                    crate::values::with_exact_room(
                        size,
                        1,
                        Value::Small(t.fixed_point_position),
                        VX_ERROR_INVALID_PARAMETERS,
                    )
                } else {
                    Err(VX_ERROR_NOT_SUPPORTED)
                };
                match wanted {
                    Ok(v) => r == Ok::<TensorAnswer, vx_status>(TensorAnswer::One(v)),
                    Err(e) => r == Err::<TensorAnswer, vx_status>(e),
                }
            }
        }),
{
    if tensor == 0 || ptr == 0 {
        return Err(VX_ERROR_INVALID_PARAMETERS);
    }
    let t = match tensors.records.get(&tensor) {
        Some(t) => t,
        None => {
            return Err(VX_ERROR_INVALID_REFERENCE);
        },
    };
    let error: vx_status = VX_ERROR_INVALID_PARAMETERS;
    if attribute == VX_TENSOR_DIMS {
        if (size as u128) < (t.num_dims as u128) * 8 {
            return Err(error);
        }
        let list = t.dims.clone();
        assert(list@ =~= t.dims@);
        return Ok(TensorAnswer::Sizes(list));
    }
    let answer: Result<Value, vx_status> = if attribute == VX_TENSOR_NUMBER_OF_DIMS {
        hand_out_exactly(size, SIZE_BYTES, Value::Size(t.num_dims), error)
    } else if attribute == VX_TENSOR_DATA_TYPE {
        hand_out_exactly(size, ENUM_BYTES, Value::Enum(t.data_type), error)
    } else if attribute == VX_TENSOR_FIXED_POINT_POSITION {
        hand_out_exactly(size, 1, Value::Small(t.fixed_point_position), error)
    } else {
        Err(VX_ERROR_NOT_SUPPORTED)
    };
    match answer {
        Ok(v) => Ok(TensorAnswer::One(v)),
        Err(e) => Err(e),
    }
}

/// Whether the elements of one tensor can be copied to another.
pub open spec fn can_copy(t: Tensors, src: u64, dst: u64) -> bool {
    &&& t.records@.contains_key(src)
    &&& t.records@.contains_key(dst)
    &&& t.records@[src].data_type == t.records@[dst].data_type
    &&& t.records@[src].num_dims == t.records@[dst].num_dims
    &&& t.records@[src].dims@ == t.records@[dst].dims@
    &&& t.data@.contains_key(src)
    &&& t.data@.contains_key(dst)
    &&& t.data@[src]@.len() == t.data@[dst]@.len()
}

fn same_sizes(a: &Vec<usize>, b: &Vec<usize>) -> (r: bool)
    ensures
        r == (a@ == b@),
{
    if a.len() != b.len() {
        return false;
    }
    for i in 0..a.len()
        invariant
            a@.len() == b@.len(),
            forall|k: int| 0 <= k < i ==> a@[k] == b@[k],
    {
        if a[i] != b[i] {
            return false;
        }
    }
    assert(a@ =~= b@);
    true
}

/// Copies the elements of one tensor to another of the same type and sizes.
pub fn copy_tensor_data(tensors: &mut Tensors, src: u64, dst: u64) -> (status: vx_status)
    requires
        old(tensors).wf(),
    ensures
        final(tensors).wf(),
        status == if can_copy(*old(tensors), src, dst) {
            VX_SUCCESS
        } else {
            VX_ERROR_INVALID_PARAMETERS
        },
        final(tensors).records@ == old(tensors).records@,
        final(tensors).contexts@ == old(tensors).contexts@,
        final(tensors).data@.dom() == old(tensors).data@.dom(),
        final(tensors).data@.remove(dst) == old(tensors).data@.remove(dst),
        old(tensors).data@.contains_key(dst) ==> final(tensors).data@[dst]@ == if status
            == VX_SUCCESS {
            old(tensors).data@[src]@
        } else {
            old(tensors).data@[dst]@
        },
{
    let alike = match tensors.records.get(&src) {
        Some(a) => match tensors.records.get(&dst) {
            Some(b) => a.num_dims == b.num_dims && a.data_type == b.data_type && same_sizes(
                &a.dims,
                &b.dims,
            ),
            None => false,
        },
        None => false,
    };
    if !alike {
        return VX_ERROR_INVALID_PARAMETERS;
    }
    let copy: Option<Vec<u8>> = match tensors.data.get(&src) {
        Some(a) => match tensors.data.get(&dst) {
            Some(b) => if a.len() == b.len() {
                let c = a.clone();
                assert(c@ =~= a@);
                Some(c)
            } else {
                None
            },
            None => None,
        },
        None => None,
    };
    match copy {
        Some(c) => {
            tensors.data.insert(dst, c);
            proof {
                assert(tensors.data@.dom() =~= old(tensors).data@.dom());
                assert(tensors.data@.remove(dst) =~= old(tensors).data@.remove(dst));
            }
            VX_SUCCESS
        },
        None => VX_ERROR_INVALID_PARAMETERS,
    }
}

fn list_strides(dims: &Vec<usize>, element: usize) -> (r: Vec<usize>)
    requires
        forall|i: nat| i < dims@.len() ==> #[trigger] stride_of(dims@, element as nat, i)
            <= usize::MAX,
    ensures
        r@.map_values(|s: usize| s as nat) == strides_of(dims@, element as nat),
{
    let mut strides: Vec<usize> = Vec::new();
    for i in 0..dims.len()
        invariant
            strides@.len() == i,
            forall|k: nat| k < dims@.len() ==> #[trigger] stride_of(dims@, element as nat, k)
                <= usize::MAX,
            forall|k: int|
                0 <= k < i ==> #[trigger] strides@[k] == stride_of(
                    dims@,
                    element as nat,
                    k as nat,
                ),
    {
        if i == 0 {
            strides.push(element);
        } else {
            assert(stride_of(dims@, element as nat, i as nat) <= usize::MAX);
            assert(strides@[i - 1] == stride_of(dims@, element as nat, (i - 1) as nat));
            let s: usize = strides[i - 1] * dims[i - 1];
            strides.push(s);
        }
    }
    assert(strides@.map_values(|s: usize| s as nat) =~= strides_of(dims@, element as nat));
    strides
}

/// Finds where a patch of a tensor begins.  Answers the strides and the offset.
pub fn vxMapTensorPatch(
    tensors: &Tensors,
    tensor: u64,
    places_given: bool,
    start: &Vec<usize>,
) -> (r: Result<(Vec<usize>, usize), vx_status>)
    requires
        tensors.wf(),
        tensors.records@.contains_key(tensor) ==> {
            let t = tensors.records@[tensor];
            let element = element_bytes(t.data_type);
            &&& start@.len() >= t.num_dims
            &&& forall|i: nat|
                i < t.dims@.len() ==> #[trigger] stride_of(t.dims@, element, i) <= usize::MAX
            &&& offset_of(t.dims@, element, start@, t.num_dims as nat) <= usize::MAX
        },
    ensures
        ({
            let t = tensors.records@[tensor];
            let element = element_bytes(t.data_type);
            if tensor == 0 || !places_given {
                r == Err::<(Vec<usize>, usize), vx_status>(VX_ERROR_INVALID_PARAMETERS)
            } else if !tensors.records@.contains_key(tensor) || !tensors.data@.contains_key(
                tensor,
            ) {
                r == Err::<(Vec<usize>, usize), vx_status>(VX_ERROR_INVALID_REFERENCE)
            } else {
                r matches Ok(patch) && patch.0@.map_values(|s: usize| s as nat) == strides_of(
                    t.dims@,
                    element,
                ) && patch.1 == offset_of(t.dims@, element, start@, t.num_dims as nat)
            }
        }),
{
    if tensor == 0 || !places_given {
        return Err(VX_ERROR_INVALID_PARAMETERS);
    }
    let t = match tensors.records.get(&tensor) {
        Some(t) => t,
        None => {
            return Err(VX_ERROR_INVALID_REFERENCE);
        },
    };
    if !tensors.data.contains_key(&tensor) {
        return Err(VX_ERROR_INVALID_REFERENCE);
    }
    let element = element_size(t.data_type);
    let ghost e = element as nat;
    let strides = list_strides(&t.dims, element);
    let ghost all = strides_of(t.dims@, e);
    assert(strides@.len() == t.num_dims) by {
        assert(strides@.map_values(|s: usize| s as nat).len() == strides@.len());
    }
    let mut offset: usize = 0;
    for i in 0..t.num_dims
        invariant
            t.wf(),
            start@.len() >= t.num_dims,
            strides@.len() == t.num_dims,
            strides@.map_values(|s: usize| s as nat) == all,
            all == strides_of(t.dims@, e),
            offset_of(t.dims@, e, start@, t.num_dims as nat) <= usize::MAX,
            offset == offset_of(t.dims@, e, start@, i as nat),
    {
        proof {
            lemma_offset_grows(t.dims@, e, start@, (i + 1) as nat, t.num_dims as nat);
            assert(all[i as int] == strides@[i as int]) by {
                assert(strides@.map_values(|s: usize| s as nat)[i as int] == strides@[i as int]);
            }
        }
        offset = offset + start[i] * strides[i];
    }
    Ok((strides, offset))
}

proof fn lemma_offset_grows(dims: Seq<usize>, element: nat, start: Seq<usize>, n: nat, m: nat)
    requires
        n <= m,
    ensures
        offset_of(dims, element, start, n) <= offset_of(dims, element, start, m),
        n > 0 ==> (start[n - 1] as nat) * stride_of(dims, element, (n - 1) as nat) <= offset_of(
            dims,
            element,
            start,
            n,
        ),
    decreases m,
{
    if n < m {
        lemma_offset_grows(dims, element, start, n, (m - 1) as nat);
        assert((start[m - 1] as nat) * stride_of(dims, element, (m - 1) as nat) >= 0)
            by (nonlinear_arith);
    }
}

/// `base` made at least `data` long with zeros, its first bytes those of `data`.
pub open spec fn stored(base: Seq<u8>, data: Seq<u8>) -> Seq<u8> {
    if base.len() <= data.len() {
        data
    } else {
        crate::scalar::overlaid(base, data)
    }
}

/// Whether the products of the first sizes of a tensor are machine numbers, and the
/// bytes copied too.
pub open spec fn fits(t: VxCTensor) -> bool {
    &&& forall|n: int| 0 <= n <= t.dims@.len() ==> #[trigger] product(t.dims@.take(n)) <= usize::MAX
    &&& product(t.dims@) * copied_bytes(t.data_type) <= usize::MAX
}

/// Finds how many bytes copying a tensor takes.  `None` where that is no machine
/// number.
pub fn copy_size(t: &VxCTensor) -> (r: Option<usize>)
    ensures
        match r {
            Some(bytes) => fits(*t) && bytes == product(t.dims@) * copied_bytes(t.data_type),
            None => !fits(*t),
        },
{
    let mut total: usize = 1;
    for i in 0..t.dims.len()
        invariant
            total == product(t.dims@.take(i as int)),
            forall|n: int| 0 <= n <= i ==> #[trigger] product(t.dims@.take(n)) <= usize::MAX,
    {
        assert(t.dims@.take(i + 1).drop_last() =~= t.dims@.take(i as int));
        assert(t.dims@.take(i + 1).last() == t.dims@[i as int]);
        match total.checked_mul(t.dims[i]) {
            Some(v) => {
                total = v;
            },
            None => {
                assert(product(t.dims@.take(i + 1)) > usize::MAX);
                return None;
            },
        }
    }
    assert(t.dims@.take(t.dims@.len() as int) =~= t.dims@);
    let element = element_size(t.data_type);
    let counted: usize = if element == 8 {
        1
    } else {
        element
    };
    total.checked_mul(counted)
}

/// Copies all elements of a tensor to or from the application's memory.
pub fn vxCopyTensorPatch(
    tensors: &mut Tensors,
    tensor: u64,
    user_ptr: u64,
    user: &mut Vec<u8>,
    usage: vx_enum,
) -> (status: vx_status)
    requires
        old(tensors).wf(),
        old(tensors).records@.contains_key(tensor) ==> {
            let t = old(tensors).records@[tensor];
            fits(t) && old(user)@.len() == product(t.dims@) * copied_bytes(t.data_type)
        },
    ensures
        final(tensors).wf(),
        final(tensors).records@ == old(tensors).records@,
        final(tensors).contexts@ == old(tensors).contexts@,
        final(tensors).data@.remove(tensor) == old(tensors).data@.remove(tensor),
        status == if tensor == 0 || user_ptr == 0 || !old(tensors).records@.contains_key(tensor)
            || (usage != VX_WRITE_ONLY && !old(tensors).data@.contains_key(tensor)) {
            VX_ERROR_INVALID_REFERENCE
        } else {
            VX_SUCCESS
        },
        status == VX_SUCCESS && usage == VX_WRITE_ONLY ==> final(tensors).data@.contains_key(
            tensor,
        ) && final(tensors).data@[tensor]@ == stored(
            if old(tensors).data@.contains_key(tensor) {
                old(tensors).data@[tensor]@
            } else {
                Seq::empty()
            },
            old(user)@,
        ),
        status != VX_SUCCESS || usage != VX_WRITE_ONLY ==> final(tensors).data@ == old(
            tensors,
        ).data@,
        final(user)@ == if status == VX_SUCCESS && usage != VX_WRITE_ONLY {
            crate::scalar::overlaid(old(user)@, old(tensors).data@[tensor]@)
        } else {
            old(user)@
        },
{
    if tensor == 0 || user_ptr == 0 {
        return VX_ERROR_INVALID_REFERENCE;
    }
    if !tensors.records.contains_key(&tensor) {
        return VX_ERROR_INVALID_REFERENCE;
    }
    if usage == VX_WRITE_ONLY {
        let copy = user.clone();
        assert(copy@ =~= user@);
        let data: Vec<u8> = match tensors.data.remove(&tensor) {
            Some(base) => if base.len() <= copy.len() {
                copy
            } else {
                overlay(base, &copy)
            },
            None => copy,
        };
        tensors.data.insert(tensor, data);
        proof {
            assert(tensors.data@.remove(tensor) =~= old(tensors).data@.remove(tensor));
            assert(tensors.wf());
        }
        VX_SUCCESS
    } else {
        match tensors.data.get(&tensor) {
            Some(data) => {
                let base = user.clone();
                assert(base@ =~= user@);
                *user = overlay(base, data);
                VX_SUCCESS
            },
            None => VX_ERROR_INVALID_REFERENCE,
        }
    }
}

/// Forgets a tensor.  Answers `-1` where no place for the handle was given.
pub fn vxReleaseTensor(
    tensors: &mut Tensors,
    refs: &mut References,
    place: u64,
    tensor: u64,
) -> (status: vx_status)
    requires
        old(tensors).wf(),
    ensures
        final(tensors).wf(),
        status == if place == 0 {
            VX_FAILURE
        } else {
            VX_SUCCESS
        },
        final(refs).names@ == old(refs).names@,
        final(tensors).contexts@ == old(tensors).contexts@,
        place == 0 || tensor == 0 ==> *final(refs) == *old(refs) && *final(tensors) == *old(
            tensors,
        ),
        place != 0 && tensor != 0 ==> {
            &&& final(refs).counts@ == old(refs).counts@.remove(tensor)
            &&& final(refs).types@ == old(refs).types@.remove(tensor)
            &&& final(tensors).records@ == old(tensors).records@.remove(tensor)
            &&& final(tensors).data@ == old(tensors).data@.remove(tensor)
        },
{
    if place == 0 {
        return VX_FAILURE;
    }
    if tensor != 0 {
        refs.unregister(tensor);
        tensors.records.remove(&tensor);
        tensors.data.remove(&tensor);
        assert forall|t: u64| #[trigger]
            tensors.records@.contains_key(t) implies tensors.records@[t].wf() by {
            assert(old(tensors).records@.contains_key(t));
        }
    }
    VX_SUCCESS
}

/// Replaces the elements of a tensor by those in the application's memory.
pub fn vxSwapTensorHandle(
    tensors: &mut Tensors,
    tensor: u64,
    places_given: bool,
    memory: &Vec<u8>,
) -> (status: vx_status)
    requires
        old(tensors).wf(),
        old(tensors).data@.contains_key(tensor) ==> memory@.len() == old(
            tensors,
        ).data@[tensor]@.len(),
    ensures
        final(tensors).wf(),
        final(tensors).records@ == old(tensors).records@,
        final(tensors).contexts@ == old(tensors).contexts@,
        status == if tensor == 0 || !places_given {
            VX_ERROR_INVALID_PARAMETERS
        } else if old(tensors).records@.contains_key(tensor) && old(tensors).data@.contains_key(
            tensor,
        ) {
            VX_SUCCESS
        } else {
            VX_ERROR_INVALID_REFERENCE
        },
        final(tensors).data@.dom() == old(tensors).data@.dom(),
        final(tensors).data@.remove(tensor) == old(tensors).data@.remove(tensor),
        old(tensors).data@.contains_key(tensor) ==> final(tensors).data@[tensor]@ == if status
            == VX_SUCCESS {
            memory@
        } else {
            old(tensors).data@[tensor]@
        },
{
    if tensor == 0 || !places_given {
        return VX_ERROR_INVALID_PARAMETERS;
    }
    if !tensors.records.contains_key(&tensor) || !tensors.data.contains_key(&tensor) {
        return VX_ERROR_INVALID_REFERENCE;
    }
    let copy = memory.clone();
    assert(copy@ =~= memory@);
    tensors.data.insert(tensor, copy);
    proof {
        assert(tensors.data@.dom() =~= old(tensors).data@.dom());
        assert(tensors.data@.remove(tensor) =~= old(tensors).data@.remove(tensor));
    }
    VX_SUCCESS
}

/// Reading back all elements gives what was written.
pub proof fn law_tensor_round_trip(base: Seq<u8>, user: Seq<u8>, other: Seq<u8>)
    requires
        other.len() == user.len(),
    ensures
        crate::scalar::overlaid(other, stored(base, user)) == user,
{
    assert(crate::scalar::overlaid(other, stored(base, user)) =~= user);
}

/// An element inside a tensor lies inside its bytes.
pub proof fn law_elements_lie_inside(
    dims: Seq<usize>,
    element: nat,
    start: Seq<usize>,
    n: nat,
)
    requires
        n <= dims.len(),
        n <= start.len(),
        forall|i: int| 0 <= i < n ==> (#[trigger] start[i]) < dims[i],
    ensures
        offset_of(dims, element, start, n) + element <= stride_of(dims, element, n),
    decreases n,
{
    if n > 0 {
        law_elements_lie_inside(dims, element, start, (n - 1) as nat);
        let s = stride_of(dims, element, (n - 1) as nat);
        let a = start[n - 1] as nat;
        let d = dims[n - 1] as nat;
        assert(start[n - 1] < dims[n - 1]);
        assert(a * s + s <= s * d) by (nonlinear_arith)
            requires
                a + 1 <= d,
                0 <= s,
        ;
    }
}

/// The stride beyond the last dimension is the size of the whole tensor.
pub proof fn law_strides_cover_tensor(dims: Seq<usize>, element: nat, n: nat)
    requires
        n <= dims.len(),
    ensures
        stride_of(dims, element, n) == product(dims.take(n as int)) * element,
    decreases n,
{
    if n > 0 {
        law_strides_cover_tensor(dims, element, (n - 1) as nat);
        assert(dims.take(n as int).drop_last() =~= dims.take(n - 1));
        assert(dims.take(n as int).last() == dims[n - 1]);
        let p = product(dims.take(n - 1));
        let d = dims[n - 1] as nat;
        assert(product(dims.take(n as int)) == p * d);
        assert(stride_of(dims, element, n) == stride_of(dims, element, (n - 1) as nat) * d);
        assert(p * element * d == p * d * element) by (nonlinear_arith);
    } else {
        assert(dims.take(0) =~= Seq::<usize>::empty());
        assert(product(dims.take(n as int)) == 1);
        assert(1 * element == element);
    }
}

/// How many bytes an element takes by its type, and how many of them are copied.
pub proof fn law_element_sizes()
    ensures
        element_bytes(VX_TYPE_INT8) == 1 && element_bytes(VX_TYPE_UINT8) == 1,
        element_bytes(VX_TYPE_INT16) == 2 && element_bytes(VX_TYPE_UINT16) == 2,
        element_bytes(VX_TYPE_INT32) == 4 && element_bytes(VX_TYPE_UINT32) == 4 && element_bytes(
            VX_TYPE_FLOAT32,
        ) == 4,
        element_bytes(VX_TYPE_INT64) == 8 && element_bytes(VX_TYPE_UINT64) == 8 && element_bytes(
            VX_TYPE_FLOAT64,
        ) == 8,
        copied_bytes(VX_TYPE_UINT8) == 1 && copied_bytes(VX_TYPE_INT16) == 2 && copied_bytes(
            VX_TYPE_FLOAT32,
        ) == 4 && copied_bytes(VX_TYPE_INT64) == 1,
{
}

/// Along the first dimension neighbours lie one element apart, along each other one
/// whole run of the dimension before it.
pub proof fn law_strides_grow_by_sizes(dims: Seq<usize>, element: nat, i: int)
    requires
        0 <= i < dims.len(),
    ensures
        strides_of(dims, element).len() == dims.len(),
        strides_of(dims, element)[0] == element,
        i > 0 ==> strides_of(dims, element)[i] == strides_of(dims, element)[i - 1] * dims[i - 1],
{
}

/// One step along a dimension moves an offset by the stride of the dimension.
pub proof fn law_steps_move_by_strides(
    dims: Seq<usize>,
    element: nat,
    start: Seq<usize>,
    k: int,
    n: nat,
)
    requires
        0 <= k < start.len(),
        n <= dims.len(),
        n <= start.len(),
        start[k] < usize::MAX,
    ensures
        offset_of(dims, element, start.update(k, (start[k] + 1) as usize), n) == offset_of(
            dims,
            element,
            start,
            n,
        ) + if k < n {
            stride_of(dims, element, k as nat)
        } else {
            0
        },
        (forall|i: int| 0 <= i < n ==> #[trigger] start[i] == 0) ==> offset_of(
            dims,
            element,
            start,
            n,
        ) == 0,
    decreases n,
{
    if n > 0 {
        let m = (n - 1) as nat;
        law_steps_move_by_strides(dims, element, start, k, m);
        let s = stride_of(dims, element, m);
        let a = start[n - 1] as nat;
        assert((a + 1) * s == a * s + s) by (nonlinear_arith);
        assert(start[n - 1] == 0 ==> a * s == 0) by (nonlinear_arith)
            requires
                a == start[n - 1],
        ;
    }
}

/// Where nothing is too large, a new tensor gets the bytes of all its elements, and
/// three times as many where it is one channel of a picture.
pub proof fn law_tensor_sizes(dims: Seq<usize>, data_type: vx_enum)
    requires
        forall|n: int| 0 <= n <= dims.len() ==> #[trigger] product(dims.take(n)) <= usize::MAX,
        3 * product(dims) * element_bytes(data_type) <= usize::MAX,
    ensures
        handle_bytes(dims, data_type) == product(dims) * element_bytes(data_type),
        tensor_bytes(dims, data_type) == if dims.len() == 3 && dims[0] == 1 {
            3 * product(dims) * element_bytes(data_type)
        } else {
            product(dims) * element_bytes(data_type)
        },
{
    lemma_not_clamped(dims);
    let p = product(dims);
    let e = element_bytes(data_type);
    assert(p * 3 == 3 * p);
    assert(p * e <= 3 * p * e) by (nonlinear_arith);
}

proof fn lemma_not_clamped(dims: Seq<usize>)
    requires
        forall|n: int| 0 <= n <= dims.len() ==> #[trigger] product(dims.take(n)) <= usize::MAX,
    ensures
        clamped_product(dims) == product(dims),
    decreases dims.len(),
{
    assert(dims.take(dims.len() as int) =~= dims);
    if dims.len() > 0 {
        let rest = dims.drop_last();
        assert forall|n: int| 0 <= n <= rest.len() implies #[trigger] product(rest.take(n))
            <= usize::MAX by {
            assert(rest.take(n) =~= dims.take(n));
        }
        lemma_not_clamped(rest);
        assert(product(dims.take(dims.len() as int)) <= usize::MAX);
    }
}

/// The product of sizes takes in each of them: another last size multiplies it.
pub proof fn law_product_takes_in_every_size(dims: Seq<usize>, n: usize)
    ensures
        product(dims.push(n)) == product(dims) * n,
        product(seq![n]) == n,
{
    assert(dims.push(n).drop_last() =~= dims);
    assert(seq![n].drop_last() =~= Seq::<usize>::empty());
    assert(seq![n].last() == n);
    assert(product(seq![n]) == product(seq![n].drop_last()) * (n as nat));
    let one = product(seq![n].drop_last());
    assert(one * (n as nat) == n) by (nonlinear_arith)
        requires
            one == 1,
    ;
}

/// Storing keeps every byte that was written and, where there were more bytes
/// before, those behind.
pub proof fn law_stored_bytes(base: Seq<u8>, data: Seq<u8>, i: int)
    requires
        0 <= i,
    ensures
        stored(base, data).len() == if base.len() > data.len() {
            base.len()
        } else {
            data.len()
        },
        i < data.len() ==> stored(base, data)[i] == data[i],
        data.len() <= i < base.len() ==> stored(base, data)[i] == base[i],
{
}

/// A new tensor has the sizes and the storage that were asked for, is held once,
/// belongs to its context, and leaves every other tensor as it is.
pub proof fn law_new_tensors(
    before: Tensors,
    after: Tensors,
    tensor: u64,
    dims: Seq<usize>,
    data_type: vx_enum,
    fixed_point_position: i8,
    data: Seq<u8>,
    context: u64,
    other: u64,
)
    requires
        with_tensor(
            before,
            after,
            tensor,
            dims,
            data_type,
            fixed_point_position,
            data,
            context,
        ),
        other != tensor,
    ensures
        after.records@[tensor].dims@ == dims,
        after.records@[tensor].num_dims == dims.len(),
        after.records@[tensor].data_type == data_type,
        after.records@[tensor].fixed_point_position == fixed_point_position,
        after.records@[tensor].ref_count == 1,
        after.data@[tensor]@ == data,
        after.contexts@[tensor] == context,
        after.records@.contains_key(other) == before.records@.contains_key(other),
        before.records@.contains_key(other) ==> after.records@[other] == before.records@[other],
        after.data@.contains_key(other) == before.data@.contains_key(other),
        before.data@.contains_key(other) ==> after.data@[other] == before.data@[other],
        before.contexts@.contains_key(other) ==> after.contexts@[other] == before.contexts@[other],
{
    assert(after.records@.remove(tensor).contains_key(other) == before.records@.remove(
        tensor,
    ).contains_key(other));
    assert(after.data@.remove(tensor).contains_key(other) == before.data@.remove(
        tensor,
    ).contains_key(other));
    if before.records@.contains_key(other) {
        assert(after.records@.remove(tensor)[other] == before.records@.remove(tensor)[other]);
    }
    if before.data@.contains_key(other) {
        assert(after.data@.remove(tensor)[other] == before.data@.remove(tensor)[other]);
    }
}

/// A tensor can be copied to another of the same type, sizes and storage, and then
/// the other way round too.
pub proof fn law_copies_go_both_ways(t: Tensors, src: u64, dst: u64)
    ensures
        can_copy(t, src, dst) == can_copy(t, dst, src),
        can_copy(t, src, dst) ==> t.records@.contains_key(src) && t.records@.contains_key(dst)
            && t.records@[src].data_type == t.records@[dst].data_type && t.records@[src].num_dims
            == t.records@[dst].num_dims && t.records@[src].dims@ == t.records@[dst].dims@
            && t.data@.contains_key(src) && t.data@.contains_key(dst) && t.data@[src]@.len()
            == t.data@[dst]@.len(),
        t.records@.contains_key(src) && t.data@.contains_key(src) ==> can_copy(t, src, src),
{
}

/// What a tensor tells of itself: its sizes where there is room for eight bytes of
/// each, and its other attributes where the room is theirs exactly.
pub proof fn law_tensor_answers(
    tensors: &Tensors,
    tensor: u64,
    attribute: vx_enum,
    ptr: u64,
    size: usize,
    r: Result<TensorAnswer, vx_status>,
)
    requires
        call_ensures(vxQueryTensor, (tensors, tensor, attribute, ptr, size), r),
    ensures
        tensor == 0 || ptr == 0 ==> r == Err::<TensorAnswer, vx_status>(
            VX_ERROR_INVALID_PARAMETERS,
        ),
        tensor != 0 && ptr != 0 && !tensors.records@.contains_key(tensor) ==> r == Err::<
            TensorAnswer,
            vx_status,
        >(VX_ERROR_INVALID_REFERENCE),
        tensor != 0 && ptr != 0 && tensors.records@.contains_key(tensor) ==> {
            let t = tensors.records@[tensor];
            &&& attribute == VX_TENSOR_NUMBER_OF_DIMS && size == 8 ==> r == Ok::<
                TensorAnswer,
                vx_status,
            >(TensorAnswer::One(Value::Size(t.num_dims)))
            &&& attribute == VX_TENSOR_NUMBER_OF_DIMS && size != 8 ==> r is Err
            &&& attribute == VX_TENSOR_DATA_TYPE && size == 4 ==> r == Ok::<
                TensorAnswer,
                vx_status,
            >(TensorAnswer::One(Value::Enum(t.data_type)))
            &&& attribute == VX_TENSOR_DATA_TYPE && size != 4 ==> r is Err
            &&& attribute == VX_TENSOR_FIXED_POINT_POSITION && size == 1 ==> r == Ok::<
                TensorAnswer,
                vx_status,
            >(TensorAnswer::One(Value::Small(t.fixed_point_position)))
            &&& attribute == VX_TENSOR_FIXED_POINT_POSITION && size != 1 ==> r is Err
            &&& attribute == VX_TENSOR_DIMS && size >= 8 * t.num_dims ==> r is Ok && r->Ok_0
                is Sizes && r->Ok_0->Sizes_0@ == t.dims@
            &&& attribute == VX_TENSOR_DIMS && size < 8 * t.num_dims ==> r == Err::<
                TensorAnswer,
                vx_status,
            >(VX_ERROR_INVALID_PARAMETERS)
            &&& attribute != VX_TENSOR_NUMBER_OF_DIMS && attribute != VX_TENSOR_DATA_TYPE
                && attribute != VX_TENSOR_FIXED_POINT_POSITION && attribute != VX_TENSOR_DIMS
                ==> r == Err::<TensorAnswer, vx_status>(VX_ERROR_NOT_SUPPORTED)
        },
{
}

} // verus!
