//! Objects shaped like another object.
use vstd::prelude::*;
use crate::image::VxCImage;
use crate::records::{
    VxCArray, VxCDistribution, VxCLut, VxCMatrix, VxCObjectArray, VxCPyramid, VxCRemap,
    VxCTensor, VxCThreshold,
};
use crate::scalar::VxCScalar;
use crate::types::{
    VX_TYPE_ARRAY, VX_TYPE_DISTRIBUTION, VX_TYPE_IMAGE, VX_TYPE_LUT, VX_TYPE_MATRIX,
    VX_TYPE_OBJECT_ARRAY, VX_TYPE_PYRAMID, VX_TYPE_REMAP, VX_TYPE_SCALAR, VX_TYPE_TENSOR,
    VX_TYPE_THRESHOLD, VX_TYPE_USER_DATA_OBJECT, vx_df_image, vx_enum,
};
use std::collections::HashMap;

verus! {

broadcast use vstd::std_specs::hash::group_hash_axioms;

/// A piece of the application's own data.
pub struct UserData {
    pub name: Vec<u8>,
    pub size: usize,
}

/// The objects of the runtime, by handle.
pub struct Objects {
    pub images: HashMap<u64, VxCImage>,
    pub arrays: HashMap<u64, VxCArray>,
    pub pyramids: HashMap<u64, VxCPyramid>,
    pub scalars: HashMap<u64, VxCScalar>,
    pub matrices: HashMap<u64, VxCMatrix>,
    pub distributions: HashMap<u64, VxCDistribution>,
    pub remaps: HashMap<u64, VxCRemap>,
    pub luts: HashMap<u64, VxCLut>,
    pub thresholds: HashMap<u64, VxCThreshold>,
    pub object_arrays: HashMap<u64, VxCObjectArray>,
    pub tensors: HashMap<u64, VxCTensor>,
    pub user_data: HashMap<u64, UserData>,
}

/// What has to be created to get an object like another.
pub enum Blueprint {
    Image { width: u32, height: u32, format: vx_df_image },
    Array { item_type: vx_enum, capacity: usize },
    /// A pyramid.  The scale is held as its bit pattern.
    Pyramid {
        levels: usize,
        scale_bits: u32,
        width: u32,
        height: u32,
        format: vx_df_image,
    },
    Scalar { data_type: vx_enum },
    Matrix { data_type: vx_enum, columns: usize, rows: usize },
    Distribution { bins: usize, offset: u32, range: u32 },
    Remap { src_width: u32, src_height: u32, dst_width: u32, dst_height: u32 },
    Lut { data_type: vx_enum, count: usize },
    Threshold { thresh_type: vx_enum, data_type: vx_enum },
    /// An array of objects like `item`, which is `0` where the array is empty.
    ObjectArray { item_type: vx_enum, item: u64, count: usize },
    UserDataObject { name: Vec<u8>, size: usize },
    Tensor { dims: Vec<usize>, data_type: vx_enum, fixed_point_position: i8 },
}

/// The mathematical value of a [`Blueprint`].
pub enum BlueprintSpec {
    Image { width: u32, height: u32, format: vx_df_image },
    Array { item_type: vx_enum, capacity: usize },
    Pyramid {
        levels: usize,
        scale_bits: u32,
        width: u32,
        height: u32,
        format: vx_df_image,
    },
    Scalar { data_type: vx_enum },
    Matrix { data_type: vx_enum, columns: usize, rows: usize },
    Distribution { bins: usize, offset: u32, range: u32 },
    Remap { src_width: u32, src_height: u32, dst_width: u32, dst_height: u32 },
    Lut { data_type: vx_enum, count: usize },
    Threshold { thresh_type: vx_enum, data_type: vx_enum },
    ObjectArray { item_type: vx_enum, item: u64, count: usize },
    UserDataObject { name: Seq<u8>, size: usize },
    Tensor { dims: Seq<usize>, data_type: vx_enum, fixed_point_position: i8 },
}

impl View for Blueprint {
    type V = BlueprintSpec;

    open spec fn view(&self) -> BlueprintSpec {
        match *self {
            Blueprint::Image { width, height, format } => BlueprintSpec::Image {
                width,
                height,
                format,
            },
            Blueprint::Array { item_type, capacity } => BlueprintSpec::Array {
                item_type,
                capacity,
            },
            Blueprint::Pyramid {
                levels,
                scale_bits,
                width,
                height,
                format,
            } => BlueprintSpec::Pyramid {
                levels,
                scale_bits,
                width,
                height,
                format,
            },
            Blueprint::Scalar { data_type } => BlueprintSpec::Scalar { data_type },
            Blueprint::Matrix { data_type, columns, rows } => BlueprintSpec::Matrix {
                data_type,
                columns,
                rows,
            },
            Blueprint::Distribution { bins, offset, range } => BlueprintSpec::Distribution {
                bins,
                offset,
                range,
            },
            Blueprint::Remap { src_width, src_height, dst_width, dst_height } => BlueprintSpec::Remap {
                src_width,
                src_height,
                dst_width,
                dst_height,
            },
            Blueprint::Lut { data_type, count } => BlueprintSpec::Lut { data_type, count },
            Blueprint::Threshold { thresh_type, data_type } => BlueprintSpec::Threshold {
                thresh_type,
                data_type,
            },
            Blueprint::ObjectArray { item_type, item, count } => BlueprintSpec::ObjectArray {
                item_type,
                item,
                count,
            },
            Blueprint::UserDataObject { name, size } => BlueprintSpec::UserDataObject {
                name: name@,
                size,
            },
            Blueprint::Tensor { dims, data_type, fixed_point_position } => BlueprintSpec::Tensor {
                dims: dims@,
                data_type,
                fixed_point_position,
            },
        }
    }
}

/// The first object of an array, `0` where it is empty.
pub open spec fn first_item(items: Seq<u64>) -> u64 {
    if items.len() > 0 {
        items[0]
    } else {
        0
    }
}

/// What has to be created to get an object like `exemplar`, an object of a type.
pub open spec fn blueprint_of(o: Objects, exemplar: u64, t: vx_enum) -> Option<BlueprintSpec> {
    if t == VX_TYPE_IMAGE && o.images@.contains_key(exemplar) {
        let x = o.images@[exemplar];
        Some(BlueprintSpec::Image { width: x.width, height: x.height, format: x.format })
    } else if t == VX_TYPE_ARRAY && o.arrays@.contains_key(exemplar) {
        let x = o.arrays@[exemplar];
        Some(BlueprintSpec::Array { item_type: x.item_type, capacity: x.capacity })
    } else if t == VX_TYPE_PYRAMID && o.pyramids@.contains_key(exemplar) {
        let x = o.pyramids@[exemplar];
        Some(
            BlueprintSpec::Pyramid {
                levels: x.num_levels,
                scale_bits: x.scale_bits,
                width: x.width,
                height: x.height,
                format: x.format,
            },
        )
    } else if t == VX_TYPE_SCALAR && o.scalars@.contains_key(exemplar) {
        Some(BlueprintSpec::Scalar { data_type: o.scalars@[exemplar].data_type })
    } else if t == VX_TYPE_MATRIX && o.matrices@.contains_key(exemplar) {
        let x = o.matrices@[exemplar];
        Some(BlueprintSpec::Matrix { data_type: x.data_type, columns: x.columns, rows: x.rows })
    } else if t == VX_TYPE_DISTRIBUTION && o.distributions@.contains_key(exemplar) {
        let x = o.distributions@[exemplar];
        Some(BlueprintSpec::Distribution { bins: x.bins, offset: x.offset, range: x.range })
    } else if t == VX_TYPE_REMAP && o.remaps@.contains_key(exemplar) {
        let x = o.remaps@[exemplar];
        Some(
            BlueprintSpec::Remap {
                src_width: x.src_width,
                src_height: x.src_height,
                dst_width: x.dst_width,
                dst_height: x.dst_height,
            },
        )
    } else if t == VX_TYPE_LUT && o.luts@.contains_key(exemplar) {
        let x = o.luts@[exemplar];
        Some(BlueprintSpec::Lut { data_type: x.data_type, count: x.count })
    } else if t == VX_TYPE_THRESHOLD && o.thresholds@.contains_key(exemplar) {
        let x = o.thresholds@[exemplar];
        Some(BlueprintSpec::Threshold { thresh_type: x.thresh_type, data_type: x.data_type })
    } else if t == VX_TYPE_OBJECT_ARRAY && o.object_arrays@.contains_key(exemplar) {
        let x = o.object_arrays@[exemplar];
        Some(
            BlueprintSpec::ObjectArray {
                item_type: x.exemplar_type,
                item: first_item(x.items@),
                count: x.count,
            },
        )
    } else if t == VX_TYPE_USER_DATA_OBJECT && o.user_data@.contains_key(exemplar) {
        let x = o.user_data@[exemplar];
        Some(BlueprintSpec::UserDataObject { name: x.name@, size: x.size })
    } else if t == VX_TYPE_TENSOR && o.tensors@.contains_key(exemplar) {
        let x = o.tensors@[exemplar];
        Some(
            BlueprintSpec::Tensor {
                dims: x.dims@,
                data_type: x.data_type,
                fixed_point_position: x.fixed_point_position,
            },
        )
    } else {
        None
    }
}

/// Finds what has to be created to get an object like another.  `None` for what has
/// no likeness.
pub fn create_object_like_exemplar(
    o: &Objects,
    exemplar: u64,
    exemplar_type: vx_enum,
) -> (r: Option<Blueprint>)
    ensures
        match r {
            Some(b) => blueprint_of(*o, exemplar, exemplar_type) == Some(b@),
            None => blueprint_of(*o, exemplar, exemplar_type) is None,
        },
{
    if exemplar_type == VX_TYPE_IMAGE {
        match o.images.get(&exemplar) {
            Some(x) => Some(
                Blueprint::Image { width: x.width, height: x.height, format: x.format },
            ),
            None => None,
        }
    } else if exemplar_type == VX_TYPE_ARRAY {
        match o.arrays.get(&exemplar) {
            Some(x) => Some(Blueprint::Array { item_type: x.item_type, capacity: x.capacity }),
            None => None,
        }
    } else if exemplar_type == VX_TYPE_PYRAMID {
        match o.pyramids.get(&exemplar) {
            Some(x) => Some(
                Blueprint::Pyramid {
                    levels: x.num_levels,
                    scale_bits: x.scale_bits,
                    width: x.width,
                    height: x.height,
                    format: x.format,
                },
            ),
            None => None,
        }
    } else if exemplar_type == VX_TYPE_SCALAR {
        match o.scalars.get(&exemplar) {
            Some(x) => Some(Blueprint::Scalar { data_type: x.data_type }),
            None => None,
        }
    } else if exemplar_type == VX_TYPE_MATRIX {
        match o.matrices.get(&exemplar) {
            Some(x) => Some(
                Blueprint::Matrix { data_type: x.data_type, columns: x.columns, rows: x.rows },
            ),
            None => None,
        }
    } else if exemplar_type == VX_TYPE_DISTRIBUTION {
        match o.distributions.get(&exemplar) {
            Some(x) => Some(
                Blueprint::Distribution { bins: x.bins, offset: x.offset, range: x.range },
            ),
            None => None,
        }
    } else if exemplar_type == VX_TYPE_REMAP {
        match o.remaps.get(&exemplar) {
            Some(x) => Some(
                Blueprint::Remap {
                    src_width: x.src_width,
                    src_height: x.src_height,
                    dst_width: x.dst_width,
                    dst_height: x.dst_height,
                },
            ),
            None => None,
        }
    } else if exemplar_type == VX_TYPE_LUT {
        match o.luts.get(&exemplar) {
            Some(x) => Some(Blueprint::Lut { data_type: x.data_type, count: x.count }),
            None => None,
        }
    } else if exemplar_type == VX_TYPE_THRESHOLD {
        match o.thresholds.get(&exemplar) {
            Some(x) => Some(
                Blueprint::Threshold { thresh_type: x.thresh_type, data_type: x.data_type },
            ),
            None => None,
        }
    } else if exemplar_type == VX_TYPE_OBJECT_ARRAY {
        match o.object_arrays.get(&exemplar) {
            Some(x) => {
                let item: u64 = if x.items.len() > 0 {
                    x.items[0]
                } else {
                    0
                };
                Some(
                    Blueprint::ObjectArray { item_type: x.exemplar_type, item, count: x.count },
                )
            },
            None => None,
        }
    } else if exemplar_type == VX_TYPE_USER_DATA_OBJECT {
        match o.user_data.get(&exemplar) {
            Some(x) => {
                let name = x.name.clone();
                assert(name@ =~= x.name@);
                Some(Blueprint::UserDataObject { name, size: x.size })
            },
            None => None,
        }
    } else if exemplar_type == VX_TYPE_TENSOR {
        match o.tensors.get(&exemplar) {
            Some(x) => {
                let dims = x.dims.clone();
                assert(dims@ =~= x.dims@);
                Some(
                    Blueprint::Tensor {
                        dims,
                        data_type: x.data_type,
                        fixed_point_position: x.fixed_point_position,
                    },
                )
            },
            None => None,
        }
    } else {
        None
    }
}

/// Where an object has to be created.
#[derive(Debug, Clone, Copy, PartialEq, Eq, Structural)]
pub enum Owner {
    Context,
    /// In the graph, as a virtual object.
    Graph,
}

/// Finds what has to be created in a graph to get an object like another: images,
/// arrays and pyramids become virtual ones, everything else belongs to the context.
pub fn create_virtual_object_like_exemplar(
    o: &Objects,
    exemplar: u64,
    exemplar_type: vx_enum,
) -> (r: Option<(Owner, Blueprint)>)
    ensures
        match r {
            Some(b) => blueprint_of(*o, exemplar, exemplar_type) == Some(b.1@) && b.0 == (
            if exemplar_type == VX_TYPE_IMAGE || exemplar_type == VX_TYPE_ARRAY || exemplar_type
                == VX_TYPE_PYRAMID {
                Owner::Graph
            } else {
                Owner::Context
            }),
            None => blueprint_of(*o, exemplar, exemplar_type) is None,
        },
{
    let owner = if exemplar_type == VX_TYPE_IMAGE || exemplar_type == VX_TYPE_ARRAY
        || exemplar_type == VX_TYPE_PYRAMID {
        Owner::Graph
    } else {
        Owner::Context
    };
    match create_object_like_exemplar(o, exemplar, exemplar_type) {
        Some(b) => Some((owner, b)),
        None => None,
    }
}

/// A distribution created to be like another is like it.
pub proof fn law_new_distribution_is_alike(o: Objects, exemplar: u64, created: u64)
    requires
        o.distributions@.contains_key(exemplar),
        o.distributions@.contains_key(created),
        crate::distributions::is_empty_distribution(
            o.distributions@[created],
            o.distributions@[exemplar].bins,
            o.distributions@[exemplar].offset,
            o.distributions@[exemplar].range,
        ),
    ensures
        blueprint_of(o, created, VX_TYPE_DISTRIBUTION) == blueprint_of(
            o,
            exemplar,
            VX_TYPE_DISTRIBUTION,
        ),
{
}

/// A coordinate map created to be like another is like it.
pub proof fn law_new_remap_is_alike(o: Objects, exemplar: u64, created: u64)
    requires
        o.remaps@.contains_key(exemplar),
        o.remaps@.contains_key(created),
        crate::remaps::is_empty_remap(
            o.remaps@[created],
            o.remaps@[exemplar].src_width,
            o.remaps@[exemplar].src_height,
            o.remaps@[exemplar].dst_width,
            o.remaps@[exemplar].dst_height,
        ),
    ensures
        blueprint_of(o, created, VX_TYPE_REMAP) == blueprint_of(o, exemplar, VX_TYPE_REMAP),
{
}

/// An object like another has the same size, type and format, whatever kind of
/// object it is, and only an object of the type that was named has a likeness.
pub proof fn law_likeness_keeps_the_shape(o: Objects, exemplar: u64, t: vx_enum)
    ensures
        match blueprint_of(o, exemplar, t) {
            Some(BlueprintSpec::Image { width, height, format }) => {
                let x = o.images@[exemplar];
                t == VX_TYPE_IMAGE && width == x.width && height == x.height && format == x.format
            },
            Some(BlueprintSpec::Array { item_type, capacity }) => {
                let x = o.arrays@[exemplar];
                t == VX_TYPE_ARRAY && item_type == x.item_type && capacity == x.capacity
            },
            Some(BlueprintSpec::Pyramid { levels, scale_bits, width, height, format }) => {
                let x = o.pyramids@[exemplar];
                t == VX_TYPE_PYRAMID && levels == x.num_levels && scale_bits == x.scale_bits
                    && width == x.width && height == x.height && format == x.format
            },
            Some(BlueprintSpec::Scalar { data_type }) => t == VX_TYPE_SCALAR && data_type
                == o.scalars@[exemplar].data_type,
            Some(BlueprintSpec::Matrix { data_type, columns, rows }) => {
                let x = o.matrices@[exemplar];
                t == VX_TYPE_MATRIX && data_type == x.data_type && columns == x.columns && rows
                    == x.rows
            },
            Some(BlueprintSpec::Distribution { bins, offset, range }) => {
                let x = o.distributions@[exemplar];
                t == VX_TYPE_DISTRIBUTION && bins == x.bins && offset == x.offset && range
                    == x.range
            },
            Some(BlueprintSpec::Remap { src_width, src_height, dst_width, dst_height }) => {
                let x = o.remaps@[exemplar];
                t == VX_TYPE_REMAP && src_width == x.src_width && src_height == x.src_height
                    && dst_width == x.dst_width && dst_height == x.dst_height
            },
            Some(BlueprintSpec::Lut { data_type, count }) => {
                let x = o.luts@[exemplar];
                t == VX_TYPE_LUT && data_type == x.data_type && count == x.count
            },
            Some(BlueprintSpec::Threshold { thresh_type, data_type }) => {
                let x = o.thresholds@[exemplar];
                t == VX_TYPE_THRESHOLD && thresh_type == x.thresh_type && data_type == x.data_type
            },
            Some(BlueprintSpec::ObjectArray { item_type, item, count }) => {
                let x = o.object_arrays@[exemplar];
                &&& t == VX_TYPE_OBJECT_ARRAY
                &&& item_type == x.exemplar_type
                &&& count == x.count
                &&& x.items@.len() > 0 ==> item == x.items@[0]
                &&& x.items@.len() == 0 ==> item == 0
            },
            Some(BlueprintSpec::UserDataObject { name, size }) => {
                let x = o.user_data@[exemplar];
                t == VX_TYPE_USER_DATA_OBJECT && name == x.name@ && size == x.size
            },
            Some(BlueprintSpec::Tensor { dims, data_type, fixed_point_position }) => {
                let x = o.tensors@[exemplar];
                t == VX_TYPE_TENSOR && dims == x.dims@ && data_type == x.data_type
                    && fixed_point_position == x.fixed_point_position
            },
            None => true,
        },
{
}

/// Every object of a kind that can be copied has a likeness.
pub proof fn law_objects_have_a_likeness(o: Objects, exemplar: u64)
    ensures
        o.images@.contains_key(exemplar) ==> blueprint_of(o, exemplar, VX_TYPE_IMAGE) is Some,
        o.arrays@.contains_key(exemplar) ==> blueprint_of(o, exemplar, VX_TYPE_ARRAY) is Some,
        o.pyramids@.contains_key(exemplar) ==> blueprint_of(o, exemplar, VX_TYPE_PYRAMID) is Some,
        o.scalars@.contains_key(exemplar) ==> blueprint_of(o, exemplar, VX_TYPE_SCALAR) is Some,
        o.matrices@.contains_key(exemplar) ==> blueprint_of(o, exemplar, VX_TYPE_MATRIX) is Some,
        o.distributions@.contains_key(exemplar) ==> blueprint_of(o, exemplar, VX_TYPE_DISTRIBUTION)
            is Some,
        o.remaps@.contains_key(exemplar) ==> blueprint_of(o, exemplar, VX_TYPE_REMAP) is Some,
        o.luts@.contains_key(exemplar) ==> blueprint_of(o, exemplar, VX_TYPE_LUT) is Some,
        o.thresholds@.contains_key(exemplar) ==> blueprint_of(o, exemplar, VX_TYPE_THRESHOLD)
            is Some,
        o.object_arrays@.contains_key(exemplar) ==> blueprint_of(o, exemplar, VX_TYPE_OBJECT_ARRAY)
            is Some,
        o.user_data@.contains_key(exemplar) ==> blueprint_of(o, exemplar, VX_TYPE_USER_DATA_OBJECT)
            is Some,
        o.tensors@.contains_key(exemplar) ==> blueprint_of(o, exemplar, VX_TYPE_TENSOR) is Some,
{
}

/// A virtual likeness belongs to the graph where it is an image, an array or a
/// pyramid, and to the context else; it is the likeness that is made otherwise.
pub proof fn law_owners_of_virtual_likenesses(
    o: &Objects,
    exemplar: u64,
    exemplar_type: vx_enum,
    r: Option<(Owner, Blueprint)>,
)
    requires
        call_ensures(create_virtual_object_like_exemplar, (o, exemplar, exemplar_type), r),
    ensures
        r is Some <==> blueprint_of(*o, exemplar, exemplar_type) is Some,
        r is Some && (exemplar_type == VX_TYPE_IMAGE || exemplar_type == VX_TYPE_ARRAY
            || exemplar_type == VX_TYPE_PYRAMID) ==> (r->0).0 == Owner::Graph,
        r is Some && exemplar_type != VX_TYPE_IMAGE && exemplar_type != VX_TYPE_ARRAY
            && exemplar_type != VX_TYPE_PYRAMID ==> (r->0).0 == Owner::Context,
        r is Some ==> blueprint_of(*o, exemplar, exemplar_type) == Some((r->0).1@),
{
}

} // verus!
