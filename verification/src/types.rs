//! Constants and the small value types of the interface.
use vstd::prelude::*;

verus! {

/// Enumerations of the interface.
pub type vx_enum = i32;

/// Status codes of the interface.
pub type vx_status = i32;

/// Four-character image format codes.
pub type vx_df_image = u32;

/// Truth values of the interface (`0` is false).
pub type vx_bool = i32;

// Status codes.
pub const VX_SUCCESS: vx_status = 0;
pub const VX_FAILURE: vx_status = -1;
pub const VX_ERROR_NOT_SUPPORTED: vx_status = -3;
pub const VX_ERROR_NO_RESOURCES: vx_status = -7;
pub const VX_ERROR_NO_MEMORY: vx_status = -8;
pub const VX_ERROR_INVALID_PARAMETERS: vx_status = -10;
pub const VX_ERROR_INVALID_REFERENCE: vx_status = -12;
pub const VX_ERROR_INVALID_FORMAT: vx_status = -14;
pub const VX_ERROR_INVALID_GRAPH: vx_status = -18;
pub const VX_ERROR_INVALID_NODE: vx_status = -19;
pub const VX_ERROR_GRAPH_SCHEDULED: vx_status = -21;
pub const VX_ERROR_GRAPH_ABANDONED: vx_status = -22;
pub const VX_ERROR_INVALID_KERNEL: vx_status = -28;
pub const VX_ERROR_NOT_IMPLEMENTED: vx_status = -29;

// Image formats.
pub const VX_DF_IMAGE_VIRT: vx_df_image = 0x54524956;
pub const VX_DF_IMAGE_U8: vx_df_image = 0x38303055;
pub const VX_DF_IMAGE_S8: vx_df_image = 0x38303053;
pub const VX_DF_IMAGE_U16: vx_df_image = 0x36313055;
pub const VX_DF_IMAGE_S16: vx_df_image = 0x36313053;
pub const VX_DF_IMAGE_U32: vx_df_image = 0x32333055;
pub const VX_DF_IMAGE_S32: vx_df_image = 0x32333053;
pub const VX_DF_IMAGE_RGB: vx_df_image = 0x32424752;
pub const VX_DF_IMAGE_RGBX: vx_df_image = 0x41424752;
pub const VX_DF_IMAGE_NV12: vx_df_image = 0x3231564E;
pub const VX_DF_IMAGE_NV21: vx_df_image = 0x3132564E;
pub const VX_DF_IMAGE_IYUV: vx_df_image = 0x56555949;
pub const VX_DF_IMAGE_YUV4: vx_df_image = 0x34565559;
pub const VX_DF_IMAGE_UYVY: vx_df_image = 0x59565955;
pub const VX_DF_IMAGE_YUYV: vx_df_image = 0x56595559;

// Reference types.
pub const VX_TYPE_INVALID: vx_enum = 0x000;
pub const VX_TYPE_REFERENCE: vx_enum = 0x800;
pub const VX_TYPE_CONTEXT: vx_enum = 0x801;
pub const VX_TYPE_GRAPH: vx_enum = 0x802;
pub const VX_TYPE_NODE: vx_enum = 0x803;
pub const VX_TYPE_KERNEL: vx_enum = 0x804;
pub const VX_TYPE_PARAMETER: vx_enum = 0x805;
pub const VX_TYPE_DELAY: vx_enum = 0x806;
pub const VX_TYPE_LUT: vx_enum = 0x807;
pub const VX_TYPE_DISTRIBUTION: vx_enum = 0x808;
pub const VX_TYPE_PYRAMID: vx_enum = 0x809;
pub const VX_TYPE_THRESHOLD: vx_enum = 0x80A;
pub const VX_TYPE_MATRIX: vx_enum = 0x80B;
pub const VX_TYPE_CONVOLUTION: vx_enum = 0x80C;
pub const VX_TYPE_SCALAR: vx_enum = 0x80D;
pub const VX_TYPE_ARRAY: vx_enum = 0x80E;
pub const VX_TYPE_IMAGE: vx_enum = 0x80F;
pub const VX_TYPE_REMAP: vx_enum = 0x810;
pub const VX_TYPE_META_FORMAT: vx_enum = 0x812;
pub const VX_TYPE_OBJECT_ARRAY: vx_enum = 0x813;
pub const VX_TYPE_IMPORT: vx_enum = 0x814;
pub const VX_TYPE_TENSOR: vx_enum = 0x815;
pub const VX_TYPE_TARGET: vx_enum = 0x816;
pub const VX_TYPE_USER_DATA_OBJECT: vx_enum = 0x816;

// Scalar types.
pub const VX_TYPE_INT8: vx_enum = 0x002;
pub const VX_TYPE_UINT8: vx_enum = 0x003;
pub const VX_TYPE_INT16: vx_enum = 0x004;
pub const VX_TYPE_UINT16: vx_enum = 0x005;
pub const VX_TYPE_INT32: vx_enum = 0x006;
pub const VX_TYPE_UINT32: vx_enum = 0x007;
pub const VX_TYPE_INT64: vx_enum = 0x008;
pub const VX_TYPE_UINT64: vx_enum = 0x009;
pub const VX_TYPE_FLOAT32: vx_enum = 0x00A;
pub const VX_TYPE_FLOAT64: vx_enum = 0x00B;
pub const VX_TYPE_ENUM: vx_enum = 0x00C;
pub const VX_TYPE_SIZE: vx_enum = 0x00D;
pub const VX_TYPE_BOOL: vx_enum = 0x010;

// Directions, access modes and memory types.
pub const VX_INPUT: vx_enum = 0;
pub const VX_OUTPUT: vx_enum = 1;
pub const VX_BIDIRECTIONAL: vx_enum = 2;
pub const VX_READ_ONLY: vx_enum = 0x11001;
pub const VX_WRITE_ONLY: vx_enum = 0x11002;
pub const VX_READ_AND_WRITE: vx_enum = 0x11003;
pub const VX_MEMORY_TYPE_HOST: vx_enum = 0xE001;

/// A point with integer coordinates.
#[derive(Debug, Clone, Copy, PartialEq, Eq, Structural)]
pub struct vx_coordinates2d_t {
    pub x: u32,
    pub y: u32,
}

/// A rectangle: `start` is inside, `end` is just outside.
#[derive(Debug, Clone, Copy, PartialEq, Eq, Structural)]
pub struct vx_rectangle_t {
    pub start_x: u32,
    pub start_y: u32,
    pub end_x: u32,
    pub end_y: u32,
}

/// The value of one pixel: the first four bytes are read as the image format
/// asks, the words after them are reserved.
#[derive(Debug, Clone, Copy, PartialEq, Eq, Structural)]
pub struct vx_pixel_value_t {
    pub b0: u8,
    pub b1: u8,
    pub b2: u8,
    pub b3: u8,
    pub reserved_1: u32,
    pub reserved_2: u32,
    pub reserved_3: u32,
}

/// How the pixels of an image patch lie in memory.  Scales are in 1/1024.
#[derive(Debug, Clone, Copy, PartialEq, Eq, Structural)]
pub struct vx_imagepatch_addressing_t {
    pub dim_x: u32,
    pub dim_y: u32,
    pub stride_x: i32,
    pub stride_y: i32,
    pub scale_x: u32,
    pub scale_y: u32,
    pub step_x: u32,
    pub step_y: u32,
}

/// Run times of a graph, in ticks.
#[derive(Debug, Clone, Copy, PartialEq, Eq, Structural)]
pub struct vx_perf_t {
    pub tmp: u64,
    pub beg: u64,
    pub end: u64,
    pub sum: u64,
    pub avg: u64,
    pub min: u64,
    pub num: u64,
    pub max: u64,
}

/// How a filter treats the pixels outside an image.
#[derive(Debug, Clone, Copy, PartialEq, Eq, Structural)]
pub struct vx_border_t {
    pub mode: vx_enum,
    pub constant_value: vx_pixel_value_t,
}

} // verus!
