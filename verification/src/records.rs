//! The records the runtime keeps about contexts, graphs, nodes and objects.
//! A reference is a number and `0` is the null reference; a callback is the
//! number under which the host knows it.
use vstd::prelude::*;
use crate::types::{vx_bool, vx_border_t, vx_df_image, vx_enum};
use std::collections::HashMap;

verus! {

/// How far a graph has come.
#[derive(Debug, Clone, Copy, PartialEq, Eq, Structural)]
pub enum VxGraphState {
    VxGraphStateUnverified,
    VxGraphStateVerified,
    VxGraphStateRunning,
    VxGraphStateAbandoned,
    VxGraphStateCompleted,
}

/// A graph with its verification and execution state.
pub struct VxCGraphData {
    pub id: u64,
    pub context_id: u64,
    /// The nodes, in execution order once the graph is verified.
    pub nodes: Vec<u64>,
    /// The parameters exposed by the graph.
    pub parameters: Vec<u64>,
    pub state: VxGraphState,
    pub verified: bool,
    pub ref_count: usize,
    /// How often the graph has run.
    pub run_count: u64,
    /// For each replicated node, which parameters are replicated.
    pub replicated_nodes: HashMap<u64, Vec<vx_bool>>,
    /// References released together with the graph.
    pub owned_refs: Vec<u64>,
    /// Nodes grouped so that each group depends only on earlier groups.
    pub topo_waves: Vec<Vec<u64>>,
    /// For each node, the nodes whose output it reads.
    pub node_predecessors: HashMap<u64, Vec<u64>>,
}

/// A context.
pub struct VxCContext {
    pub id: u64,
    pub ref_count: usize,
    /// The border of immediate mode.
    pub border_mode: vx_border_t,
    /// What immediate mode does with an unsupported border.
    pub border_policy: u32,
    pub log_callback: Option<u64>,
    pub log_reentrant: bool,
    pub logging_enabled: bool,
    pub performance_enabled: bool,
}

/// A node of a graph.
pub struct NodeData {
    pub graph_id: u64,
    /// The kernel the node runs.
    pub kernel_id: u64,
    /// The parameters; `None` where none was set.
    pub parameters: Vec<Option<u64>>,
    pub border_mode: vx_border_t,
    /// Called when the node completes.
    pub callback: Option<u64>,
    /// How often a user kernel has run for this node.
    pub execution_count: u32,
    /// How often the node has run.
    pub run_count: u64,
    /// Whether the node is still filling its pipeline.
    pub node_state: u32,
    /// Whether the initializer of the user kernel has run.
    pub user_kernel_initialized: bool,
    pub local_data_size: usize,
    pub local_data_ptr: u64,
    /// Whether the runtime owns the local data.
    pub local_data_auto_alloc: bool,
}

/// An array of fixed-size items.
pub struct VxCArray {
    pub item_type: vx_enum,
    pub capacity: usize,
    pub items: Vec<u8>,
    pub ref_count: usize,
}

/// A convolution matrix.
pub struct VxCConvolution {
    pub rows: usize,
    pub columns: usize,
    pub scale: u32,
    pub data: Vec<i16>,
    pub ref_count: usize,
}

/// A matrix; the elements are held as bytes.
pub struct VxCMatrix {
    pub data_type: vx_enum,
    pub rows: usize,
    pub columns: usize,
    pub origin_x: usize,
    pub origin_y: usize,
    pub pattern: vx_enum,
    pub data: Vec<u8>,
}

/// A lookup table; the entries are held as bytes.
pub struct VxCLut {
    pub data_type: vx_enum,
    pub count: usize,
    /// What is added to a pixel to find its entry.
    pub offset: u32,
    pub data: Vec<u8>,
}

/// A histogram.
pub struct VxCDistribution {
    pub bins: usize,
    pub offset: u32,
    pub range: u32,
    pub data: Vec<i32>,
    pub ref_count: usize,
    /// The copies handed out for access.
    pub mapped_distributions: Vec<MappedDistribution>,
}

/// A copy of a histogram handed out for access.
pub struct MappedDistribution {
    pub id: usize,
    pub data: Vec<i32>,
    pub usage: vx_enum,
}

/// A threshold.
pub struct VxCThreshold {
    pub thresh_type: vx_enum,
    pub data_type: vx_enum,
    pub ref_count: usize,
}

/// A pyramid: images of falling size.  The scale is held as its bit pattern.
pub struct VxCPyramid {
    pub context: u64,
    pub num_levels: usize,
    pub scale_bits: u32,
    pub width: u32,
    pub height: u32,
    pub format: vx_df_image,
    pub levels: Vec<u64>,
}

/// A coordinate map.  Each coordinate is held as its bit pattern, `x` before
/// `y`, row after row.
pub struct VxCRemap {
    pub src_width: u32,
    pub src_height: u32,
    pub dst_width: u32,
    pub dst_height: u32,
    pub map_data: Vec<u32>,
    pub ref_count: usize,
}

/// An array of objects of one kind.
pub struct VxCObjectArray {
    pub exemplar_type: vx_enum,
    pub count: usize,
    pub ref_count: usize,
    pub items: Vec<u64>,
    pub is_virtual: bool,
}

/// A ring of objects.  Slot `0` is the current one, slot `-1` the one before.
pub struct VxCDelay {
    pub slots: Vec<u64>,
    pub slot_count: usize,
    /// The position of slot `0` in the ring.
    pub current_index: usize,
    pub ref_type: vx_enum,
    pub context_id: u64,
    pub ref_count: usize,
}

impl Clone for VxCDelay {
    fn clone(&self) -> (r: Self)
        ensures
            r.slots@ == self.slots@,
            r.slot_count == self.slot_count,
            r.current_index == self.current_index,
            r.ref_type == self.ref_type,
            r.context_id == self.context_id,
            r.ref_count == self.ref_count,
    {
        let slots = self.slots.clone();
        assert(slots@ =~= self.slots@);
        VxCDelay {
            slots,
            slot_count: self.slot_count,
            current_index: self.current_index,
            ref_type: self.ref_type,
            context_id: self.context_id,
            ref_count: self.ref_count,
        }
    }
}

/// An array of elements in any number of dimensions.
pub struct VxCTensor {
    pub num_dims: usize,
    pub dims: Vec<usize>,
    pub data_type: vx_enum,
    /// Where the point stands in fixed-point elements.
    pub fixed_point_position: i8,
    pub ref_count: usize,
}

impl VxCTensor {
    /// A tensor held once.
    pub fn new(
        num_dims: usize,
        dims: Vec<usize>,
        data_type: vx_enum,
        fixed_point_position: i8,
    ) -> (r: Self)
        ensures
            r == (VxCTensor { num_dims, dims, data_type, fixed_point_position, ref_count: 1 }),
    {
        VxCTensor { num_dims, dims, data_type, fixed_point_position, ref_count: 1 }
    }
}

/// The format a kernel validator gave to an output.
pub struct VxCMetaFormat {
    pub format_type: vx_enum,
    pub ref_count: usize,
}

/// An import of objects.
pub struct VxCImport {
    pub import_type: vx_enum,
    pub ref_count: usize,
}

/// A kernel.
pub struct VxCKernel {
    pub enumeration: vx_enum,
    pub name: String,
    pub ref_count: usize,
}

impl VxCKernel {
    /// A kernel held once.
    pub fn new(enumeration: vx_enum, name: String) -> (r: Self)
        ensures
            r.enumeration == enumeration,
            r.name == name,
            r.ref_count == 1,
    {
        VxCKernel { enumeration, name, ref_count: 1 }
    }
}

/// An execution target.
pub struct VxCTarget {
    pub id: u64,
    pub name: String,
    pub ref_count: usize,
}

/// A node known by its kernel alone.
pub struct VxCNode {
    pub id: u64,
    pub kernel: vx_enum,
    pub ref_count: usize,
}

/// A parameter of a node or a graph.
pub struct VxCParameter {
    pub id: u64,
    /// The node, `0` for a parameter of a graph.
    pub node_id: u64,
    pub index: u32,
    pub direction: vx_enum,
    pub data_type: vx_enum,
    pub ref_count: usize,
    /// The reference the parameter holds.
    pub value: Option<u64>,
}

/// What a node parameter is bound to.
#[derive(Debug, Clone, Copy, PartialEq, Eq, Structural)]
pub enum NodeParamBinding {
    /// A parameter of the graph, by index.
    GraphParam(usize),
    /// A reference.
    DirectValue(u64),
}

/// What is known of a virtual image.
#[derive(Debug, Clone, Copy, PartialEq, Eq, Structural)]
pub struct VirtualImageInfo {
    pub width: u32,
    pub height: u32,
    pub format: u32,
    pub is_virtual: bool,
    pub backing_image: Option<u64>,
}

/// A kernel library known to the runtime.
pub struct VxKernelLibraryRegistration {
    pub publish: Option<u64>,
    pub unpublish: Option<u64>,
}

/// A kernel supplied by the application.
pub struct VxCUserKernel {
    pub name: String,
    pub enumeration: vx_enum,
    pub kernel: Option<u64>,
    pub validate: Option<u64>,
    pub init: Option<u64>,
    pub deinit: Option<u64>,
    pub num_params: u32,
    pub context_id: u64,
    /// Bytes of local data the runtime provides to each node; none if `0`.
    pub local_data_size: usize,
    /// Runs before a node produces output, counting the run that does.
    pub pipeup_output_depth: u32,
    /// Runs before a node consumes input, counting the run that does.
    pub pipeup_input_depth: u32,
}

/// A declared parameter of a user kernel.
#[derive(Debug, Clone, Copy, PartialEq, Eq, Structural)]
pub struct UserKernelParam {
    pub direction: vx_enum,
    pub data_type: vx_enum,
    pub state: vx_enum,
}

/// The attributes a kernel validator gave to an output.
pub struct VxMetaFormat {
    pub attributes: HashMap<i32, Vec<u8>>,
}

} // verus!
