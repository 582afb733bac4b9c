//! Arrays of objects of one kind.
use vstd::prelude::*;
use crate::constants::{VX_OBJECT_ARRAY_ITEMTYPE, VX_OBJECT_ARRAY_NUMITEMS};
use crate::records::VxCObjectArray;
use crate::refs::References;
use crate::tensors::{Tensors, element_size};
use crate::types::{
    VX_DF_IMAGE_S16, VX_DF_IMAGE_U8, VX_ERROR_INVALID_PARAMETERS, VX_ERROR_INVALID_REFERENCE,
    VX_ERROR_NOT_SUPPORTED, VX_SUCCESS, VX_TYPE_INT16, VX_TYPE_INT8, VX_TYPE_OBJECT_ARRAY,
    VX_TYPE_UINT16, VX_TYPE_UINT8, vx_df_image, vx_enum, vx_rectangle_t, vx_status,
};
use crate::values::{ENUM_BYTES, SIZE_BYTES, Value, hand_out};
use std::collections::HashMap;

verus! {

broadcast use vstd::std_specs::hash::group_hash_axioms;

/// Whether every object that was to be created exists.
pub open spec fn is_complete(items: Seq<u64>, count: usize) -> bool {
    items.len() == count && forall|i: int| 0 <= i < items.len() ==> #[trigger] items[i] != 0
}

/// The objects of a list that exist.
pub open spec fn existing(items: Seq<u64>) -> Seq<u64>
    decreases items.len(),
{
    if items.len() == 0 {
        Seq::empty()
    } else if items.last() != 0 {
        existing(items.drop_last()).push(items.last())
    } else {
        existing(items.drop_last())
    }
}

/// Every object of a list that exists is among those that exist.
pub proof fn lemma_existing_holds(items: Seq<u64>, item: u64)
    requires
        items.contains(item),
        item != 0,
    ensures
        existing(items).contains(item),
    decreases items.len(),
{
    let rest = items.drop_last();
    if items.last() == item {
        assert(existing(items)[existing(rest).len() as int] == item);
    } else {
        assert(rest[items.index_of(item)] == item);
        lemma_existing_holds(rest, item);
        let k = existing(rest).index_of(item);
        assert(existing(items)[k] == item);
    }
}

/// Lists the objects of a list that exist.
pub fn list_existing(items: &Vec<u64>) -> (r: Vec<u64>)
    ensures
        r@ == existing(items@),
{
    let mut list: Vec<u64> = Vec::new();
    for i in 0..items.len()
        invariant
            list@ == existing(items@.take(i as int)),
    {
        proof {
            assert(items@.take(i + 1).drop_last() =~= items@.take(i as int));
            assert(items@.take(i + 1).last() == items@[i as int]);
        }
        if items[i] != 0 {
            list.push(items[i]);
        }
    }
    assert(items@.take(items@.len() as int) =~= items@);
    list
}

/// Finds whether every object that was to be created exists.
pub fn all_exist(items: &Vec<u64>, count: usize) -> (r: bool)
    ensures
        r == is_complete(items@, count),
{
    if items.len() != count {
        return false;
    }
    for i in 0..items.len()
        invariant
            forall|k: int| 0 <= k < i ==> #[trigger] items@[k] != 0,
    {
        if items[i] == 0 {
            return false;
        }
    }
    true
}

/// Whether some arrays are others with one more.
pub open spec fn with_array(
    before: Map<u64, VxCObjectArray>,
    after: Map<u64, VxCObjectArray>,
    array: u64,
    exemplar_type: vx_enum,
    items: Seq<u64>,
    is_virtual: bool,
) -> bool {
    &&& after.contains_key(array)
    &&& after.remove(array) == before.remove(array)
    &&& after[array].exemplar_type == exemplar_type
    &&& after[array].count == items.len()
    &&& after[array].items@ == items
    &&& after[array].is_virtual == is_virtual
    &&& after[array].ref_count == 1
}

/// Records an array of objects under a fresh handle.
pub fn add_object_array(
    arrays: &mut HashMap<u64, VxCObjectArray>,
    refs: &mut References,
    array: u64,
    exemplar_type: vx_enum,
    items: Vec<u64>,
    is_virtual: bool,
)
    ensures
        with_array(old(arrays)@, final(arrays)@, array, exemplar_type, items@, is_virtual),
        final(refs).counts@ == old(refs).counts@.insert(array, 1),
        final(refs).types@ == old(refs).types@.insert(array, VX_TYPE_OBJECT_ARRAY),
        final(refs).names@ == old(refs).names@,
{
    let count = items.len();
    arrays.insert(
        array,
        VxCObjectArray { exemplar_type, count, ref_count: 1, items, is_virtual },
    );
    refs.register(array, VX_TYPE_OBJECT_ARRAY);
    assert(arrays@.remove(array) =~= old(arrays)@.remove(array));
}

/// Whether an array of objects can be asked for.
pub open spec fn is_sound_request(
    owner: u64,
    exemplar: u64,
    exemplar_type: Option<vx_enum>,
    count: usize,
) -> bool {
    owner != 0 && exemplar != 0 && count != 0 && exemplar_type is Some
}

/// Creates an array of objects like an exemplar, in a context.  `items` are the
/// objects that were created for it, `0` for one that could not be.  Answers the
/// handle, or `0` and the objects to release.
pub fn vxCreateObjectArray(
    arrays: &mut HashMap<u64, VxCObjectArray>,
    refs: &mut References,
    context: u64,
    exemplar: u64,
    exemplar_type: Option<vx_enum>,
    count: usize,
    items: Vec<u64>,
    fresh: u64,
) -> (r: (u64, Vec<u64>))
    requires
        fresh != 0,
    ensures
        ({
            let made = is_sound_request(context, exemplar, exemplar_type, count) && is_complete(
                items@,
                count,
            );
            &&& r.0 == if made {
                fresh
            } else {
                0
            }
            &&& r.1@ == if made {
                Seq::empty()
            } else {
                existing(items@)
            }
            &&& made ==> with_array(
                old(arrays)@,
                final(arrays)@,
                fresh,
                exemplar_type.unwrap(),
                items@,
                false,
            ) && final(refs).counts@ == old(refs).counts@.insert(fresh, 1)
                && final(refs).types@ == old(refs).types@.insert(fresh, VX_TYPE_OBJECT_ARRAY)
                && final(refs).names@ == old(refs).names@
            &&& !made ==> final(arrays)@ == old(arrays)@ && *final(refs) == *old(refs)
        }),
{
    create_array(arrays, refs, context, exemplar, exemplar_type, count, items, false, fresh)
}

/// Creates an array of virtual objects like an exemplar, in a graph of a context.
pub fn vxCreateVirtualObjectArray(
    arrays: &mut HashMap<u64, VxCObjectArray>,
    refs: &mut References,
    graph: u64,
    context: u64,
    exemplar: u64,
    exemplar_type: Option<vx_enum>,
    count: usize,
    items: Vec<u64>,
    fresh: u64,
) -> (r: (u64, Vec<u64>))
    requires
        fresh != 0,
    ensures
        ({
            let made = graph != 0 && is_sound_request(context, exemplar, exemplar_type, count)
                && is_complete(items@, count);
            &&& r.0 == if made {
                fresh
            } else {
                0
            }
            &&& r.1@ == if made {
                Seq::empty()
            } else {
                existing(items@)
            }
            &&& made ==> with_array(
                old(arrays)@,
                final(arrays)@,
                fresh,
                exemplar_type.unwrap(),
                items@,
                true,
            ) && final(refs).counts@ == old(refs).counts@.insert(fresh, 1)
                && final(refs).types@ == old(refs).types@.insert(fresh, VX_TYPE_OBJECT_ARRAY)
                && final(refs).names@ == old(refs).names@
            &&& !made ==> final(arrays)@ == old(arrays)@ && *final(refs) == *old(refs)
        }),
{
    let owner: u64 = if graph == 0 {
        0
    } else {
        context
    };
    create_array(arrays, refs, owner, exemplar, exemplar_type, count, items, true, fresh)
}

fn create_array(
    arrays: &mut HashMap<u64, VxCObjectArray>,
    refs: &mut References,
    owner: u64,
    exemplar: u64,
    exemplar_type: Option<vx_enum>,
    count: usize,
    items: Vec<u64>,
    is_virtual: bool,
    fresh: u64,
) -> (r: (u64, Vec<u64>))
    ensures
        ({
            let made = is_sound_request(owner, exemplar, exemplar_type, count) && is_complete(
                items@,
                count,
            );
            &&& r.0 == if made {
                fresh
            } else {
                0
            }
            &&& r.1@ == if made {
                Seq::empty()
            } else {
                existing(items@)
            }
            &&& made ==> with_array(
                old(arrays)@,
                final(arrays)@,
                fresh,
                exemplar_type.unwrap(),
                items@,
                is_virtual,
            ) && final(refs).counts@ == old(refs).counts@.insert(fresh, 1)
                && final(refs).types@ == old(refs).types@.insert(fresh, VX_TYPE_OBJECT_ARRAY)
                && final(refs).names@ == old(refs).names@
            &&& !made ==> final(arrays)@ == old(arrays)@ && *final(refs) == *old(refs)
        }),
{
    if owner != 0 && exemplar != 0 && count != 0 && all_exist(&items, count) {
        if let Some(t) = exemplar_type {
            add_object_array(arrays, refs, fresh, t, items, is_virtual);
            return (fresh, Vec::new());
        }
    }
    (0, list_existing(&items))
}

/// The value of an attribute of an array of objects.
pub open spec fn object_array_attribute(
    a: VxCObjectArray,
    attribute: vx_enum,
    size: usize,
) -> Result<Value, vx_status> {
    let error = VX_ERROR_INVALID_PARAMETERS;
    if attribute == VX_OBJECT_ARRAY_ITEMTYPE {
        crate::values::with_room(size, ENUM_BYTES, Value::Enum(a.exemplar_type), error)
    } else if attribute == VX_OBJECT_ARRAY_NUMITEMS {
        crate::values::with_room(size, SIZE_BYTES, Value::Size(a.count), error)
    } else {
        Err(VX_ERROR_NOT_SUPPORTED)
    }
}

/// Reads an attribute of an array of objects.
pub fn vxQueryObjectArray(
    arrays: &HashMap<u64, VxCObjectArray>,
    obj_arr: u64,
    attribute: vx_enum,
    ptr: u64,
    size: usize,
) -> (r: Result<Value, vx_status>)
    ensures
        r == if obj_arr == 0 || ptr == 0 || !arrays@.contains_key(obj_arr) {
            Err(VX_ERROR_INVALID_REFERENCE)
        } else {
            object_array_attribute(arrays@[obj_arr], attribute, size)
        },
{
    if obj_arr == 0 || ptr == 0 {
        return Err(VX_ERROR_INVALID_REFERENCE);
    }
    let a = match arrays.get(&obj_arr) {
        Some(a) => a,
        None => {
            return Err(VX_ERROR_INVALID_REFERENCE);
        },
    };
    let error: vx_status = VX_ERROR_INVALID_PARAMETERS;
    if attribute == VX_OBJECT_ARRAY_ITEMTYPE {
        hand_out(size, ENUM_BYTES, Value::Enum(a.exemplar_type), error)
    } else if attribute == VX_OBJECT_ARRAY_NUMITEMS {
        hand_out(size, SIZE_BYTES, Value::Size(a.count), error)
    } else {
        Err(VX_ERROR_NOT_SUPPORTED)
    }
}

/// The object at a position of an array, `0` where there is none.
pub open spec fn item_at(arrays: Map<u64, VxCObjectArray>, obj_arr: u64, index: u32) -> u64 {
    if obj_arr != 0 && arrays.contains_key(obj_arr) && index < arrays[obj_arr].items@.len() {
        arrays[obj_arr].items@[index as int]
    } else {
        0
    }
}

/// Fetches an object of an array.  It is held once more, and it is recorded where
/// it came from.
pub fn vxGetObjectArrayItem(
    arrays: &HashMap<u64, VxCObjectArray>,
    refs: &mut References,
    parents: &mut HashMap<u64, (u64, u32)>,
    obj_arr: u64,
    index: u32,
) -> (r: u64)
    ensures
        r == item_at(arrays@, obj_arr, index),
        final(refs).types@ == old(refs).types@,
        final(refs).names@ == old(refs).names@,
        final(refs).counts@ == if r != 0 {
            crate::refs::retained(old(refs).counts@, r)
        } else {
            old(refs).counts@
        },
        final(parents)@ == if r != 0 {
            old(parents)@.insert(r, (obj_arr, index))
        } else {
            old(parents)@
        },
{
    if obj_arr == 0 {
        return 0;
    }
    let item: u64 = match arrays.get(&obj_arr) {
        Some(a) => if (index as usize) < a.items.len() {
            a.items[index as usize]
        } else {
            0
        },
        None => 0,
    };
    if item == 0 {
        return 0;
    }
    refs.retain(item);
    parents.insert(item, (obj_arr, index));
    item
}

/// What is wrong with a request to replace an object of an array.
pub open spec fn replace_status(
    arrays: Map<u64, VxCObjectArray>,
    obj_arr: u64,
    index: u32,
    item: u64,
) -> vx_status {
    if obj_arr == 0 || item == 0 || !arrays.contains_key(obj_arr) {
        VX_ERROR_INVALID_REFERENCE
    } else if index >= arrays[obj_arr].items@.len() {
        VX_ERROR_INVALID_PARAMETERS
    } else {
        VX_SUCCESS
    }
}

/// Finds the object to release before another takes its place in an array, `0` for
/// none.
pub fn item_to_replace(
    arrays: &HashMap<u64, VxCObjectArray>,
    obj_arr: u64,
    index: u32,
    item: u64,
) -> (r: Result<u64, vx_status>)
    ensures
        r == if replace_status(arrays@, obj_arr, index, item) == VX_SUCCESS {
            Ok(arrays@[obj_arr].items@[index as int])
        } else {
            Err(replace_status(arrays@, obj_arr, index, item))
        },
{
    if obj_arr == 0 || item == 0 {
        return Err(VX_ERROR_INVALID_REFERENCE);
    }
    match arrays.get(&obj_arr) {
        Some(a) => if (index as usize) < a.items.len() {
            Ok(a.items[index as usize])
        } else {
            Err(VX_ERROR_INVALID_PARAMETERS)
        },
        None => Err(VX_ERROR_INVALID_REFERENCE),
    }
}

/// Puts an object in its place in an array, once the one before it is released.
/// The array holds the object.
pub fn vxSetObjectArrayItem(
    arrays: &mut HashMap<u64, VxCObjectArray>,
    refs: &mut References,
    obj_arr: u64,
    index: u32,
    item: u64,
) -> (status: vx_status)
    ensures
        status == replace_status(old(arrays)@, obj_arr, index, item),
        final(refs).types@ == old(refs).types@,
        final(refs).names@ == old(refs).names@,
        final(refs).counts@ == if status == VX_SUCCESS {
            crate::refs::retained(old(refs).counts@, item)
        } else {
            old(refs).counts@
        },
        status != VX_SUCCESS ==> final(arrays)@ == old(arrays)@,
        status == VX_SUCCESS ==> {
            let before = old(arrays)@[obj_arr];
            let after = final(arrays)@[obj_arr];
            &&& final(arrays)@.dom() == old(arrays)@.dom()
            &&& final(arrays)@.remove(obj_arr) == old(arrays)@.remove(obj_arr)
            &&& after == (VxCObjectArray { items: after.items, ..before })
            &&& after.items@ == before.items@.update(index as int, item)
        },
{
    match item_to_replace(arrays, obj_arr, index, item) {
        Ok(_) => {
            refs.retain(item);
            if let Some(mut a) = arrays.remove(&obj_arr) {
                a.items.set(index as usize, item);
                arrays.insert(obj_arr, a);
            }
            proof {
                assert(arrays@.dom() =~= old(arrays)@.dom());
                assert(arrays@.remove(obj_arr) =~= old(arrays)@.remove(obj_arr));
            }
            VX_SUCCESS
        },
        Err(e) => e,
    }
}

/// Forgets an array of objects.  Answers the objects to release.
pub fn vxReleaseObjectArray(
    arrays: &mut HashMap<u64, VxCObjectArray>,
    refs: &mut References,
    place: u64,
    obj_arr: u64,
) -> (r: Result<Vec<u64>, vx_status>)
    ensures
        match r {
            Ok(list) => place != 0 && list@ == if obj_arr != 0 && old(arrays)@.contains_key(
                obj_arr,
            ) {
                existing(old(arrays)@[obj_arr].items@)
            } else {
                Seq::empty()
            },
            Err(e) => place == 0 && e == VX_ERROR_INVALID_REFERENCE,
        },
        final(refs).names@ == old(refs).names@,
        place == 0 || obj_arr == 0 ==> *final(refs) == *old(refs) && final(arrays)@ == old(
            arrays,
        )@,
        place != 0 && obj_arr != 0 ==> {
            &&& final(arrays)@ == old(arrays)@.remove(obj_arr)
            &&& final(refs).counts@ == old(refs).counts@.remove(obj_arr)
            &&& final(refs).types@ == old(refs).types@.remove(obj_arr)
        },
{
    if place == 0 {
        return Err(VX_ERROR_INVALID_REFERENCE);
    }
    if obj_arr == 0 {
        return Ok(Vec::new());
    }
    let list: Vec<u64> = match arrays.remove(&obj_arr) {
        Some(a) => list_existing(&a.items),
        None => Vec::new(),
    };
    refs.unregister(obj_arr);
    assert(arrays@ =~= old(arrays)@.remove(obj_arr));
    Ok(list)
}

/// The pixels of one image of a tensor: the part of a layer that an image of the
/// given size covers, row after row.
pub open spec fn layer_pixels(
    data: Seq<u8>,
    row: int,
    layer: int,
    width_bytes: int,
    height: int,
    channel: int,
) -> Seq<u8> {
    Seq::new(
        (width_bytes * height) as nat,
        |i: int| data[channel * layer + (i / width_bytes) * row + i % width_bytes],
    )
}

/// The images that an array of images from a tensor consists of.
pub struct TensorImages {
    pub context: u64,
    pub width: u32,
    pub height: u32,
    pub format: vx_df_image,
    /// The pixels of each image, row after row.
    pub pixels: Vec<Vec<u8>>,
}

/// The image format for the elements of a tensor, where there is one.
pub open spec fn layer_format(data_type: vx_enum) -> Option<vx_df_image> {
    if data_type == VX_TYPE_UINT8 || data_type == VX_TYPE_INT8 {
        Some(VX_DF_IMAGE_U8)
    } else if data_type == VX_TYPE_INT16 || data_type == VX_TYPE_UINT16 {
        Some(VX_DF_IMAGE_S16)
    } else {
        None
    }
}

/// Whether images can be made from the layers of a tensor.
pub open spec fn has_layers(
    t: Tensors,
    tensor: u64,
    rect_ptr: u64,
    rect: vx_rectangle_t,
    array_size: usize,
    image_format: vx_df_image,
) -> bool {
    &&& tensor != 0
    &&& rect_ptr != 0
    &&& array_size != 0
    &&& t.records@.contains_key(tensor)
    &&& t.contexts@.contains_key(tensor)
    &&& t.data@.contains_key(tensor)
    &&& t.records@[tensor].num_dims == 3
    &&& rect.start_x != rect.end_x
    &&& rect.start_y != rect.end_y
    &&& array_size <= t.records@[tensor].dims@[2]
    &&& layer_format(t.records@[tensor].data_type) == Some(image_format)
}

/// Whether the images lie inside the elements of a tensor.
pub open spec fn layers_fit(t: Tensors, tensor: u64, rect: vx_rectangle_t, array_size: usize) -> bool {
    let record = t.records@[tensor];
    let element = crate::tensors::element_bytes(record.data_type) as int;
    let row = element * record.dims@[0];
    let layer = row * record.dims@[1];
    &&& rect.start_x <= rect.end_x
    &&& rect.start_y <= rect.end_y
    &&& row <= usize::MAX
    &&& layer <= usize::MAX
    &&& (rect.end_x - rect.start_x) * element * (rect.end_y - rect.start_y) <= usize::MAX
    &&& (array_size - 1) * layer + (rect.end_y - rect.start_y - 1) * row + (rect.end_x
        - rect.start_x) * element <= t.data@[tensor]@.len()
}

proof fn lemma_pixel_inside(
    channel: int,
    layer: int,
    y: int,
    row: int,
    x: int,
    last: int,
    rows: int,
    width: int,
    len: int,
)
    requires
        0 <= channel <= last,
        0 <= y < rows,
        0 <= x < width,
        0 <= layer,
        0 <= row,
        last * layer + (rows - 1) * row + width <= len,
    ensures
        0 <= channel * layer <= len,
        0 <= y * row,
        channel * layer + y * row <= len,
        channel * layer + y * row + x < len,
{
    assert(0 <= channel * layer <= last * layer) by (nonlinear_arith)
        requires
            0 <= channel <= last,
            0 <= layer,
    ;
    assert(0 <= y * row <= (rows - 1) * row) by (nonlinear_arith)
        requires
            0 <= y <= rows - 1,
            0 <= row,
    ;
}

fn copy_layer(
    data: &Vec<u8>,
    row: usize,
    layer: usize,
    width_bytes: usize,
    height: usize,
    channel: usize,
    last: Ghost<int>,
) -> (r: Vec<u8>)
    requires
        width_bytes > 0,
        width_bytes * height <= usize::MAX,
        channel <= last@,
        last@ * layer + (height - 1) * row + width_bytes <= data@.len(),
    ensures
        r@ == layer_pixels(
            data@,
            row as int,
            layer as int,
            width_bytes as int,
            height as int,
            channel as int,
        ),
{
    let ghost all = layer_pixels(
        data@,
        row as int,
        layer as int,
        width_bytes as int,
        height as int,
        channel as int,
    );
    let mut pixels: Vec<u8> = Vec::new();
    assert(0 * width_bytes == 0) by (nonlinear_arith);
    for y in 0..height
        invariant
            width_bytes > 0,
            width_bytes * height <= usize::MAX,
            channel <= last@,
            last@ * layer + (height - 1) * row + width_bytes <= data@.len(),
            all == layer_pixels(
                data@,
                row as int,
                layer as int,
                width_bytes as int,
                height as int,
                channel as int,
            ),
            pixels@.len() == y * width_bytes,
            forall|i: int| 0 <= i < pixels@.len() ==> pixels@[i] == all[i],
    {
        proof {
            assert((y + 1) * width_bytes == y * width_bytes + width_bytes) by (nonlinear_arith);
            assert((y + 1) * width_bytes <= width_bytes * height) by (nonlinear_arith)
                requires
                    y + 1 <= height,
            ;
        }
        for x in 0..width_bytes
            invariant
                y < height,
                width_bytes * height <= usize::MAX,
                channel <= last@,
                last@ * layer + (height - 1) * row + width_bytes <= data@.len(),
                y * width_bytes + width_bytes <= width_bytes * height,
                all == layer_pixels(
                    data@,
                    row as int,
                    layer as int,
                    width_bytes as int,
                    height as int,
                    channel as int,
                ),
                pixels@.len() == y * width_bytes + x,
                forall|i: int| 0 <= i < pixels@.len() ==> pixels@[i] == all[i],
        {
            proof {
                assert(data@.len() == data.len());
                lemma_pixel_inside(
                    channel as int,
                    layer as int,
                    y as int,
                    row as int,
                    x as int,
                    last@,
                    height as int,
                    width_bytes as int,
                    data@.len() as int,
                );
                vstd::arithmetic::div_mod::lemma_fundamental_div_mod_converse(
                    y * width_bytes + x,
                    width_bytes as int,
                    y as int,
                    x as int,
                );
            }
            pixels.push(data[channel * layer + y * row + x]);
        }
    }
    assert(height * width_bytes == width_bytes * height) by (nonlinear_arith);
    assert(pixels@ =~= all);
    pixels
}

/// Makes images from the layers of a tensor: the size and format they are to have,
/// and their pixels.  `None` where the tensor has no such layers.
pub fn vxCreateImageObjectArrayFromTensor(
    tensors: &Tensors,
    tensor: u64,
    rect_ptr: u64,
    rect: &vx_rectangle_t,
    array_size: usize,
    image_format: vx_df_image,
) -> (r: Option<TensorImages>)
    requires
        tensors.wf(),
        has_layers(*tensors, tensor, rect_ptr, *rect, array_size, image_format) ==> layers_fit(
            *tensors,
            tensor,
            *rect,
            array_size,
        ),
    ensures
        match r {
            Some(images) => {
                let record = tensors.records@[tensor];
                let element = crate::tensors::element_bytes(record.data_type) as int;
                let row = element * record.dims@[0];
                &&& has_layers(*tensors, tensor, rect_ptr, *rect, array_size, image_format)
                &&& images.context == tensors.contexts@[tensor]
                &&& images.width == rect.end_x - rect.start_x
                &&& images.height == rect.end_y - rect.start_y
                &&& images.format == image_format
                &&& images.pixels@.len() == array_size
                &&& forall|c: int|
                    0 <= c < array_size ==> (#[trigger] images.pixels@[c])@ == layer_pixels(
                        tensors.data@[tensor]@,
                        row,
                        row * record.dims@[1],
                        images.width * element,
                        images.height as int,
                        c,
                    )
            },
            None => !has_layers(*tensors, tensor, rect_ptr, *rect, array_size, image_format),
        },
{
    if tensor == 0 || rect_ptr == 0 || array_size == 0 {
        return None;
    }
    let t = match tensors.records.get(&tensor) {
        Some(t) => t,
        None => {
            return None;
        },
    };
    let context: u64 = match tensors.contexts.get(&tensor) {
        Some(c) => *c,
        None => {
            return None;
        },
    };
    if t.num_dims != 3 {
        return None;
    }
    if rect.start_x == rect.end_x || rect.start_y == rect.end_y {
        return None;
    }
    if array_size > t.dims[2] {
        return None;
    }
    let eight = t.data_type == VX_TYPE_UINT8 || t.data_type == VX_TYPE_INT8;
    let sixteen = t.data_type == VX_TYPE_INT16 || t.data_type == VX_TYPE_UINT16;
    if !((eight && image_format == VX_DF_IMAGE_U8) || (sixteen && image_format
        == VX_DF_IMAGE_S16)) {
        return None;
    }
    let data = match tensors.data.get(&tensor) {
        Some(d) => d,
        None => {
            return None;
        },
    };
    let element = element_size(t.data_type);
    let row: usize = element * t.dims[0];
    let layer: usize = row * t.dims[1];
    let width: u32 = rect.end_x - rect.start_x;
    let height: u32 = rect.end_y - rect.start_y;
    let ghost bytes = width * element;
    proof {
        assert(bytes <= bytes * height) by (nonlinear_arith)
            requires
                height >= 1,
                bytes == width * element,
        ;
        assert(width * element > 0) by (nonlinear_arith)
            requires
                width > 0,
                element > 0,
        ;
    }
    let width_bytes: usize = (width as usize) * element;
    let mut pixels: Vec<Vec<u8>> = Vec::new();
    for c in 0..array_size
        invariant
            width_bytes > 0,
            width_bytes * height <= usize::MAX,
            height > 0,
            (array_size - 1) * layer + (height - 1) * row + width_bytes <= data@.len(),
            pixels@.len() == c,
            forall|k: int|
                0 <= k < c ==> (#[trigger] pixels@[k])@ == layer_pixels(
                    data@,
                    row as int,
                    layer as int,
                    width_bytes as int,
                    height as int,
                    k,
                ),
    {
        pixels.push(
            copy_layer(
                data,
                row,
                layer,
                width_bytes,
                height as usize,
                c,
                Ghost(array_size - 1),
            ),
        );
    }
    Some(TensorImages { context, width, height, format: image_format, pixels })
}

/// An object put into an array is found there.
pub proof fn law_item_round_trip(
    before: Map<u64, VxCObjectArray>,
    after: Map<u64, VxCObjectArray>,
    obj_arr: u64,
    index: u32,
    item: u64,
)
    requires
        replace_status(before, obj_arr, index, item) == VX_SUCCESS,
        after.contains_key(obj_arr),
        after[obj_arr].items@ == before[obj_arr].items@.update(index as int, item),
    ensures
        item_at(after, obj_arr, index) == item,
{
}

/// What can be asked of an array of objects: the type of its objects and how many
/// there are.
pub proof fn law_object_array_answers(a: VxCObjectArray, size: usize)
    ensures
        size >= 4 ==> object_array_attribute(a, VX_OBJECT_ARRAY_ITEMTYPE, size) == Ok::<
            Value,
            vx_status,
        >(Value::Enum(a.exemplar_type)),
        size >= 8 ==> object_array_attribute(a, VX_OBJECT_ARRAY_NUMITEMS, size) == Ok::<
            Value,
            vx_status,
        >(Value::Size(a.count)),
        size < 4 ==> object_array_attribute(a, VX_OBJECT_ARRAY_ITEMTYPE, size) is Err,
        size < 8 ==> object_array_attribute(a, VX_OBJECT_ARRAY_NUMITEMS, size) is Err,
{
}

/// The object at a position is the one that stands there; behind the last there is
/// none.
pub proof fn law_items_stand_in_place(arrays: Map<u64, VxCObjectArray>, obj_arr: u64, index: u32)
    requires
        obj_arr != 0,
        arrays.contains_key(obj_arr),
    ensures
        index < arrays[obj_arr].items@.len() ==> item_at(arrays, obj_arr, index)
            == arrays[obj_arr].items@[index as int],
        index >= arrays[obj_arr].items@.len() ==> item_at(arrays, obj_arr, index) == 0,
        item_at(arrays, 0, index) == 0,
{
}

/// Of a list, exactly the objects that exist are kept, as often and in the order in
/// which they stand.
pub proof fn law_existing_objects_are_kept(items: Seq<u64>, item: u64)
    ensures
        item != 0 ==> existing(items.push(item)) == existing(items).push(item),
        existing(items.push(0)) == existing(items),
        existing(Seq::empty()).len() == 0,
        !existing(items).contains(0),
        (forall|i: int| 0 <= i < items.len() ==> #[trigger] items[i] != 0) ==> existing(items)
            == items,
    decreases items.len(),
{
    assert(items.push(item).drop_last() =~= items);
    assert(items.push(0).drop_last() =~= items);
    if items.len() > 0 {
        let rest = items.drop_last();
        law_existing_objects_are_kept(rest, item);
        if forall|i: int| 0 <= i < items.len() ==> #[trigger] items[i] != 0 {
            assert forall|i: int| 0 <= i < rest.len() implies #[trigger] rest[i] != 0 by {
                assert(items[i] != 0);
            }
            assert(items[items.len() - 1] != 0);
            assert(existing(items) =~= items);
        }
        if existing(items).contains(0) {
            let k = choose|k: int| 0 <= k < existing(items).len() && existing(items)[k] == 0;
            if k < existing(rest).len() {
                assert(existing(rest)[k] == 0);
            }
        }
    } else {
        assert(existing(items) =~= items);
    }
}

/// An object can be put in place exactly where the array and the object exist and
/// the position is inside.
pub proof fn law_objects_are_put_inside(
    arrays: Map<u64, VxCObjectArray>,
    obj_arr: u64,
    index: u32,
    item: u64,
)
    ensures
        replace_status(arrays, obj_arr, index, item) == VX_SUCCESS <==> obj_arr != 0 && item != 0
            && arrays.contains_key(obj_arr) && index < arrays[obj_arr].items@.len(),
        obj_arr != 0 && item != 0 && arrays.contains_key(obj_arr) && index
            >= arrays[obj_arr].items@.len() ==> replace_status(arrays, obj_arr, index, item)
            == VX_ERROR_INVALID_PARAMETERS,
{
}

/// A byte of an image from a tensor is the byte of the tensor at its layer, its row
/// and its column.
pub proof fn law_layer_pixels_lie_in_the_tensor(
    data: Seq<u8>,
    row: int,
    layer: int,
    width_bytes: int,
    height: int,
    channel: int,
    x: int,
    y: int,
)
    requires
        0 <= x < width_bytes,
        0 <= y < height,
    ensures
        layer_pixels(data, row, layer, width_bytes, height, channel).len() == width_bytes * height,
        layer_pixels(data, row, layer, width_bytes, height, channel)[y * width_bytes + x]
            == data[channel * layer + y * row + x],
{
    let i = y * width_bytes + x;
    vstd::arithmetic::div_mod::lemma_fundamental_div_mod_converse(i, width_bytes, y, x);
    assert(0 <= y * width_bytes && i < width_bytes * height) by (nonlinear_arith)
        requires
            0 <= x < width_bytes,
            0 <= y < height,
            i == y * width_bytes + x,
    ;
}

/// Elements of one byte make images of bytes, elements of two bytes images of
/// sixteen bits, and others none.
pub proof fn law_layer_formats(data_type: vx_enum)
    ensures
        layer_format(VX_TYPE_UINT8) == Some(VX_DF_IMAGE_U8) && layer_format(VX_TYPE_INT8) == Some(
            VX_DF_IMAGE_U8,
        ),
        layer_format(VX_TYPE_INT16) == Some(VX_DF_IMAGE_S16) && layer_format(VX_TYPE_UINT16)
            == Some(VX_DF_IMAGE_S16),
        layer_format(data_type) matches Some(f) ==> crate::image::pixel_bytes(f)
            == crate::tensors::element_bytes(data_type),
        crate::tensors::element_bytes(data_type) > 2 ==> layer_format(data_type) is None,
{
}

/// A new array holds the objects that were made for it, in their order, is held
/// once, and leaves every other array as it is.
pub proof fn law_new_arrays(
    before: Map<u64, VxCObjectArray>,
    after: Map<u64, VxCObjectArray>,
    array: u64,
    exemplar_type: vx_enum,
    items: Seq<u64>,
    is_virtual: bool,
    other: u64,
)
    requires
        with_array(before, after, array, exemplar_type, items, is_virtual),
        other != array,
    ensures
        after.contains_key(array),
        after[array].items@ == items,
        after[array].count == items.len(),
        after[array].exemplar_type == exemplar_type,
        after[array].is_virtual == is_virtual,
        after[array].ref_count == 1,
        after.contains_key(other) == before.contains_key(other),
        before.contains_key(other) ==> after[other] == before[other],
{
    assert(after.remove(array).contains_key(other) == before.remove(array).contains_key(other));
    if before.contains_key(other) {
        assert(after.remove(array)[other] == before.remove(array)[other]);
    }
}

/// An array is asked for with an owner, an exemplar of a known type and at least one
/// object; it is complete once it has as many objects and none of them is null.
pub proof fn law_array_requests(
    owner: u64,
    exemplar: u64,
    t: vx_enum,
    count: usize,
    items: Seq<u64>,
    k: int,
)
    ensures
        owner != 0 && exemplar != 0 && count != 0 ==> is_sound_request(
            owner,
            exemplar,
            Some(t),
            count,
        ),
        !is_sound_request(0, exemplar, Some(t), count),
        !is_sound_request(owner, 0, Some(t), count),
        !is_sound_request(owner, exemplar, Some(t), 0),
        !is_sound_request(owner, exemplar, None, count),
        is_complete(items, count) ==> items.len() == count,
        is_complete(items, count) && 0 <= k < items.len() ==> items[k] != 0,
        !items.contains(0) && items.len() == count ==> is_complete(items, count),
{
    if !items.contains(0) && items.len() == count {
        assert forall|i: int| 0 <= i < items.len() implies #[trigger] items[i] != 0 by {
            assert(items.contains(items[i]));
        }
    }
}

/// A tensor can be cut into layers where it has three dimensions, a layer for each
/// image and elements that a pixel of the format can hold.
pub proof fn law_layers_of_tensors(
    t: Tensors,
    tensor: u64,
    rect_ptr: u64,
    rect: vx_rectangle_t,
    array_size: usize,
    image_format: vx_df_image,
)
    requires
        has_layers(t, tensor, rect_ptr, rect, array_size, image_format),
    ensures
        tensor != 0 && rect_ptr != 0,
        t.records@.contains_key(tensor) && t.data@.contains_key(tensor)
            && t.contexts@.contains_key(tensor),
        t.records@[tensor].num_dims == 3,
        0 < array_size <= t.records@[tensor].dims@[2],
        rect.start_x != rect.end_x && rect.start_y != rect.end_y,
        layer_format(t.records@[tensor].data_type) == Some(image_format),
{
}

/// An object takes the place of another where the array is known and long enough and
/// neither is null.
pub proof fn law_objects_are_replaced(
    arrays: Map<u64, VxCObjectArray>,
    obj_arr: u64,
    index: u32,
    item: u64,
)
    ensures
        obj_arr == 0 || item == 0 || !arrays.contains_key(obj_arr) ==> replace_status(
            arrays,
            obj_arr,
            index,
            item,
        ) == VX_ERROR_INVALID_REFERENCE,
        obj_arr != 0 && item != 0 && arrays.contains_key(obj_arr) && index
            < arrays[obj_arr].items@.len() ==> replace_status(arrays, obj_arr, index, item)
            == VX_SUCCESS,
        obj_arr != 0 && item != 0 && arrays.contains_key(obj_arr) && index
            >= arrays[obj_arr].items@.len() ==> replace_status(arrays, obj_arr, index, item)
            == VX_ERROR_INVALID_PARAMETERS,
{
}

} // verus!
