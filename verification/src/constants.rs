//! Attribute numbers and enumeration values of the interface.
use vstd::prelude::*;
use crate::types::vx_enum;

verus! {

// Graphs.
pub const VX_GRAPH_ATTRIBUTE_NUM_NODES: vx_enum = 0x00080200;
pub const VX_GRAPH_ATTRIBUTE_PERFORMANCE: vx_enum = 0x00080202;
pub const VX_GRAPH_ATTRIBUTE_NUM_PARAMETERS: vx_enum = 0x00080203;
pub const VX_GRAPH_ATTRIBUTE_STATE: vx_enum = 0x00080204;
pub const VX_GRAPH_ATTRIBUTE_STATUS: vx_enum = 0x00080205;
pub const VX_GRAPH_PERFORMANCE: vx_enum = VX_GRAPH_ATTRIBUTE_PERFORMANCE;
pub const VX_GRAPH_STATE_UNVERIFIED: vx_enum = 0x00015000;
pub const VX_GRAPH_STATE_VERIFIED: vx_enum = 0x00015001;
pub const VX_GRAPH_STATE_RUNNING: vx_enum = 0x00015002;
pub const VX_GRAPH_STATE_ABANDONED: vx_enum = 0x00015003;
pub const VX_GRAPH_STATE_COMPLETED: vx_enum = 0x00015004;

// Contexts.
pub const VX_CONTEXT_ATTRIBUTE_VENDOR_ID: vx_enum = 0x00080100;
pub const VX_CONTEXT_ATTRIBUTE_VERSION: vx_enum = 0x00080101;
pub const VX_CONTEXT_ATTRIBUTE_UNIQUE_KERNELS: vx_enum = 0x00080102;
pub const VX_CONTEXT_ATTRIBUTE_MODULES: vx_enum = 0x00080103;
pub const VX_CONTEXT_ATTRIBUTE_REFERENCES: vx_enum = 0x00080104;
pub const VX_CONTEXT_ATTRIBUTE_IMPLEMENTATION: vx_enum = 0x00080105;
pub const VX_CONTEXT_ATTRIBUTE_EXTENSIONS_SIZE: vx_enum = 0x00080106;
pub const VX_CONTEXT_ATTRIBUTE_EXTENSIONS: vx_enum = 0x00080107;
pub const VX_CONTEXT_ATTRIBUTE_CONVOLUTION_MAX_DIMENSION: vx_enum = 0x00080108;
pub const VX_CONTEXT_ATTRIBUTE_OPTICAL_FLOW_MAX_WINDOW: vx_enum = 0x00080109;
pub const VX_CONTEXT_ATTRIBUTE_IMMEDIATE_BORDER: vx_enum = 0x0008010A;
pub const VX_CONTEXT_ATTRIBUTE_UNIQUE_KERNEL_TABLE: vx_enum = 0x0008010B;
pub const VX_CONTEXT_ATTRIBUTE_IMMEDIATE_BORDER_POLICY: vx_enum = 0x0008010C;
pub const VX_CONTEXT_ATTRIBUTE_NONLINEAR_MAX_DIMENSION: vx_enum = 0x0008010D;
pub const VX_CONTEXT_ATTRIBUTE_MAX_TENSOR_DIMS: vx_enum = 0x0008010E;

// Versions.
pub const VX_VERSION_1_3_1: u32 = 0x00130100;
pub const VX_VERSION_1_3: u32 = 0x00130000;

// Vendors.
pub const VX_ID_KHRONOS: u32 = 0x00000000;

// References.
pub const VX_REFERENCE_ATTRIBUTE_TYPE: vx_enum = 0x00080001;
pub const VX_REFERENCE_ATTRIBUTE_COUNT: vx_enum = 0x00080000;
pub const VX_REFERENCE_ATTRIBUTE_NAME: vx_enum = 0x00080002;

// Borders.
pub const VX_BORDER_POLICY_DEFAULT_TO_UNDEFINED: vx_enum = 0x14000;
pub const VX_BORDER_POLICY_RETURN_ERROR: vx_enum = 0x14001;

// Directives.
pub const VX_DIRECTIVE_DISABLE_LOGGING: vx_enum = 0x00003000;
pub const VX_DIRECTIVE_ENABLE_LOGGING: vx_enum = 0x00003001;
pub const VX_DIRECTIVE_DISABLE_PERFORMANCE: vx_enum = 0x00003002;
pub const VX_DIRECTIVE_ENABLE_PERFORMANCE: vx_enum = 0x00003003;

// Targets.
pub const VX_TARGET_ANY: vx_enum = 0x13000;
pub const VX_TARGET_STRING: vx_enum = 0x13001;
pub const VX_TARGET_CPU: vx_enum = 0x01;
pub const VX_TARGET_GPU: vx_enum = 0x02;
pub const VX_TARGET_DSP: vx_enum = 0x03;
pub const VX_TARGET_ACCELERATOR: vx_enum = 0x04;

// Channels.
pub const VX_CHANNEL_0: vx_enum = 0x00009000;
pub const VX_CHANNEL_1: vx_enum = 0x00009001;
pub const VX_CHANNEL_2: vx_enum = 0x00009002;
pub const VX_CHANNEL_3: vx_enum = 0x00009003;
pub const VX_CHANNEL_R: vx_enum = 0x00009010;
pub const VX_CHANNEL_G: vx_enum = 0x00009011;
pub const VX_CHANNEL_B: vx_enum = 0x00009012;
pub const VX_CHANNEL_A: vx_enum = 0x00009013;
pub const VX_CHANNEL_Y: vx_enum = 0x00009014;
pub const VX_CHANNEL_U: vx_enum = 0x00009015;
pub const VX_CHANNEL_V: vx_enum = 0x00009016;

// Matrices.
pub const VX_MATRIX_PATTERN_OTHER: vx_enum = 94211;
pub const VX_MATRIX_PATTERN_BOX: vx_enum = 94208;
pub const VX_MATRIX_PATTERN_GAUSSIAN: vx_enum = 94212;
pub const VX_MATRIX_PATTERN_CUSTOM: vx_enum = 94213;
pub const VX_MATRIX_PATTERN_PYRAMID_SCALE: vx_enum = 94214;

// Pyramids.
pub const VX_PYRAMID_LEVELS: vx_enum = 0x00080900;
pub const VX_PYRAMID_SCALE: vx_enum = 0x00080901;
pub const VX_PYRAMID_FORMAT: vx_enum = 0x00080904;
pub const VX_PYRAMID_WIDTH: vx_enum = 0x00080902;
pub const VX_PYRAMID_HEIGHT: vx_enum = 0x00080903;

// Matrices.
pub const VX_MATRIX_TYPE: vx_enum = 0x80b00;
pub const VX_MATRIX_ROWS: vx_enum = 0x80b01;
pub const VX_MATRIX_COLUMNS: vx_enum = 0x80b02;
pub const VX_MATRIX_SIZE: vx_enum = 0x80b03;
pub const VX_MATRIX_ORIGIN: vx_enum = 0x80b04;
pub const VX_MATRIX_PATTERN: vx_enum = 0x80b05;
pub const VX_MATRIX_ELEMENT_SIZE: vx_enum = 0x80b06;

// Convolutions.
pub const VX_CONVOLUTION_ROWS: vx_enum = 0x80C00;
pub const VX_CONVOLUTION_COLUMNS: vx_enum = 0x80C01;
pub const VX_CONVOLUTION_SCALE: vx_enum = 0x80C02;
pub const VX_CONVOLUTION_SIZE: vx_enum = 0x80C03;

// Lookup tables.
pub const VX_LUT_TYPE: vx_enum = 0x80700;
pub const VX_LUT_COUNT: vx_enum = 0x80701;
pub const VX_LUT_SIZE: vx_enum = 0x80702;
pub const VX_LUT_OFFSET: vx_enum = 0x80703;

// Distributions.
pub const VX_DISTRIBUTION_BINS: vx_enum = 0x80803;
pub const VX_DISTRIBUTION_OFFSET: vx_enum = 0x80801;
pub const VX_DISTRIBUTION_RANGE: vx_enum = 0x80802;
pub const VX_DISTRIBUTION_DIMENSIONS: vx_enum = 0x80800;
pub const VX_DISTRIBUTION_WINDOW: vx_enum = 0x80804;
pub const VX_DISTRIBUTION_SIZE: vx_enum = 0x80805;

// Thresholds.
pub const VX_THRESHOLD_TYPE: vx_enum = 0x80A00;
pub const VX_THRESHOLD_DATA_TYPE: vx_enum = 0x01;
pub const VX_THRESHOLD_TYPE_BINARY: vx_enum = 0x0B000;
pub const VX_THRESHOLD_TYPE_RANGE: vx_enum = 0x0B001;

// Remaps.
pub const VX_REMAP_SOURCE_WIDTH: vx_enum = 0x81000;
pub const VX_REMAP_SOURCE_HEIGHT: vx_enum = 0x81001;
pub const VX_REMAP_DESTINATION_WIDTH: vx_enum = 0x81002;
pub const VX_REMAP_DESTINATION_HEIGHT: vx_enum = 0x81003;

// Object arrays.
pub const VX_OBJECT_ARRAY_ITEMTYPE: vx_enum = 0x81300;
pub const VX_OBJECT_ARRAY_NUMITEMS: vx_enum = 0x81301;

// Delays.
pub const VX_DELAY_TYPE: vx_enum = 0x80600;
pub const VX_DELAY_SLOTS: vx_enum = 0x80601;

// Tensors.
pub const VX_TENSOR_NUMBER_OF_DIMS: vx_enum = 0x81500;
pub const VX_TENSOR_DIMS: vx_enum = 0x81501;
pub const VX_TENSOR_DATA_TYPE: vx_enum = 0x81502;
pub const VX_TENSOR_FIXED_POINT_POSITION: vx_enum = 0x81503;
pub const VX_TENSOR_SIZE: vx_enum = 0x81504;

// Imports.
pub const VX_IMPORT_TYPE: vx_enum = 0x00;
pub const VX_IMPORT_COUNT: vx_enum = 0x01;
pub const VX_IMPORT_TYPE_XML: vx_enum = 0;
pub const VX_IMPORT_TYPE_BINARY: vx_enum = 1;

// Meta formats.
pub const VX_META_FORMAT_TYPE: vx_enum = 0x00;
pub const VX_META_FORMAT_IMAGE_FORMAT: vx_enum = 0x01;
pub const VX_META_FORMAT_IMAGE_WIDTH: vx_enum = 0x02;
pub const VX_META_FORMAT_IMAGE_HEIGHT: vx_enum = 0x03;

// Parameters.
pub const VX_PARAMETER_STATE_REQUIRED: vx_enum = 1;
pub const VX_PARAMETER_STATE_OPTIONAL: vx_enum = 2;
pub const VX_PARAMETER_INDEX: vx_enum = 0x80500;
pub const VX_PARAMETER_DIRECTION: vx_enum = 0x80501;
pub const VX_PARAMETER_TYPE: vx_enum = 0x80502;
pub const VX_PARAMETER_STATE: vx_enum = 0x80503;
pub const VX_PARAMETER_REF: vx_enum = 0x80504;

// Kernels.
pub const VX_KERNEL_LOCAL_DATA_SIZE: vx_enum = 0x03;
pub const VX_KERNEL_LOCAL_DATA_PTR: vx_enum = 0x04;
pub const VX_KERNEL_ATTRIBUTE_BORDER: vx_enum = 0x05;
pub const VX_KERNEL_PIPEUP_OUTPUT_DEPTH: vx_enum = 0x80404;
pub const VX_KERNEL_PIPEUP_INPUT_DEPTH: vx_enum = 0x80405;
pub const VX_KERNEL_COLOR_CONVERT: vx_enum = 0x01;
pub const VX_KERNEL_CHANNEL_EXTRACT: vx_enum = 0x02;
pub const VX_KERNEL_CHANNEL_COMBINE: vx_enum = 0x03;
pub const VX_KERNEL_SOBEL_3x3: vx_enum = 0x04;
pub const VX_KERNEL_MAGNITUDE: vx_enum = 0x05;
pub const VX_KERNEL_PHASE: vx_enum = 0x06;
pub const VX_KERNEL_SCALE_IMAGE: vx_enum = 0x07;
pub const VX_KERNEL_TABLE_LOOKUP: vx_enum = 0x08;
pub const VX_KERNEL_HISTOGRAM: vx_enum = 0x09;
pub const VX_KERNEL_EQUALIZE_HISTOGRAM: vx_enum = 0x0A;
pub const VX_KERNEL_ABSDIFF: vx_enum = 0x0B;
pub const VX_KERNEL_MEAN_STDDEV: vx_enum = 0x0C;
pub const VX_KERNEL_THRESHOLD: vx_enum = 0x0D;
pub const VX_KERNEL_INTEGRAL_IMAGE: vx_enum = 0x0E;
pub const VX_KERNEL_DILATE_3x3: vx_enum = 0x0F;
pub const VX_KERNEL_ERODE_3x3: vx_enum = 0x10;
pub const VX_KERNEL_MEDIAN_3x3: vx_enum = 0x11;
pub const VX_KERNEL_BOX_3x3: vx_enum = 0x12;
pub const VX_KERNEL_GAUSSIAN_3x3: vx_enum = 0x13;
pub const VX_KERNEL_CUSTOM_CONVOLUTION: vx_enum = 0x14;
pub const VX_KERNEL_GAUSSIAN_PYRAMID: vx_enum = 0x15;
pub const VX_KERNEL_MINMAXLOC: vx_enum = 0x19;
pub const VX_KERNEL_CONVERTDEPTH: vx_enum = 0x1A;
pub const VX_KERNEL_CANNY_EDGE_DETECTOR: vx_enum = 0x1B;
pub const VX_KERNEL_AND: vx_enum = 0x1C;
pub const VX_KERNEL_OR: vx_enum = 0x1D;
pub const VX_KERNEL_XOR: vx_enum = 0x1E;
pub const VX_KERNEL_NOT: vx_enum = 0x1F;
pub const VX_KERNEL_MULTIPLY: vx_enum = 0x20;
pub const VX_KERNEL_ADD: vx_enum = 0x21;
pub const VX_KERNEL_SUBTRACT: vx_enum = 0x22;
pub const VX_KERNEL_WARP_AFFINE: vx_enum = 0x23;
pub const VX_KERNEL_WARP_PERSPECTIVE: vx_enum = 0x24;
pub const VX_KERNEL_HARRIS_CORNERS: vx_enum = 0x25;
pub const VX_KERNEL_FAST_CORNERS: vx_enum = 0x26;
pub const VX_KERNEL_OPTICAL_FLOW_PYR_LK: vx_enum = 0x27;
pub const VX_KERNEL_REMAP: vx_enum = 0x28;
pub const VX_KERNEL_HALFSCALE_GAUSSIAN: vx_enum = 0x29;
pub const VX_KERNEL_LAPLACIAN_PYRAMID: vx_enum = 0x2A;
pub const VX_KERNEL_LAPLACIAN_RECONSTRUCT: vx_enum = 0x2B;
pub const VX_KERNEL_NON_LINEAR_FILTER: vx_enum = 0x2C;
pub const VX_KERNEL_WEIGHTED_AVERAGE: vx_enum = 0x40;

// Image formats.
pub const VX_DF_IMAGE_RGBA: vx_enum = 0x41424752i32;

} // verus!
