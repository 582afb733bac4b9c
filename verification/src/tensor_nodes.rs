//! Nodes that work on tensors.
//!
//! Each function looks at its references and writes the script of the node; no
//! plan stands for the null node.
use vstd::prelude::*;
use crate::construction::{
    NodePlan, Seed, Source, create_node_with_params, plan_with_scalars, seed_enum, seed_size,
    seed_word,
};
use crate::scalar::to_bits32;
use crate::types::{VX_TYPE_FLOAT32, VX_TYPE_INT32, vx_enum};

verus! {

/// Plans a node that smooths a tensor and keeps its edges.  The sigmas are given by
/// their bit patterns.
pub fn vxBilateralFilterNode(
    graph: u64,
    src: u64,
    diameter: i32,
    sigma_space: u32,
    sigma_values: u32,
    dst: u64,
) -> (r: Option<NodePlan>)
    ensures
        crate::construction::plan_value(r) == if graph == 0 || src == 0 || dst == 0 {
            None
        } else {
            Some(
                crate::construction::seeded_plan(
                    "org.khronos.openvx.bilateral_filter"@,
                    seq![
                        crate::construction::word_seed(VX_TYPE_INT32, crate::scalar::bits32(diameter)),
                        crate::construction::word_seed(VX_TYPE_FLOAT32, sigma_space),
                        crate::construction::word_seed(VX_TYPE_FLOAT32, sigma_values),
                    ],
                    seq![
                        Source::Given(src),
                        Source::Made(0),
                        Source::Made(1),
                        Source::Made(2),
                        Source::Given(dst),
                    ],
                ),
            )
        },
{
    if graph == 0 || src == 0 || dst == 0 {
        return None;
    }
    let seeds: Vec<Seed> = vec![
        seed_word(VX_TYPE_INT32, to_bits32(diameter)),
        seed_word(VX_TYPE_FLOAT32, sigma_space),
        seed_word(VX_TYPE_FLOAT32, sigma_values),
    ];
    let slots: Vec<Source> = vec![
        Source::Given(src),
        Source::Made(0),
        Source::Made(1),
        Source::Made(2),
        Source::Given(dst),
    ];
    assert(seeds@ =~= seq![
        crate::construction::word_seed(VX_TYPE_INT32, crate::scalar::bits32(diameter)),
        crate::construction::word_seed(VX_TYPE_FLOAT32, sigma_space),
        crate::construction::word_seed(VX_TYPE_FLOAT32, sigma_values),
    ]);
    assert(slots@ =~= seq![
        Source::Given(src),
        Source::Made(0),
        Source::Made(1),
        Source::Made(2),
        Source::Given(dst),
    ]);
    Some(plan_with_scalars("org.khronos.openvx.bilateral_filter", &seeds, &slots))
}

/// Plans a node that sums gradients up by cells.
pub fn vxHOGCellsNode(
    graph: u64,
    input: u64,
    cell_width: i32,
    cell_height: i32,
    num_bins: i32,
    magnitudes: u64,
    bins: u64,
) -> (r: Option<NodePlan>)
    ensures
        crate::construction::plan_value(r) == if graph == 0 || input == 0 || magnitudes == 0 || bins == 0 {
            None
        } else {
            Some(
                crate::construction::seeded_plan(
                    "org.khronos.openvx.hog_cells"@,
                    seq![
                        crate::construction::word_seed(VX_TYPE_INT32, crate::scalar::bits32(cell_width)),
                        crate::construction::word_seed(VX_TYPE_INT32, crate::scalar::bits32(cell_height)),
                        crate::construction::word_seed(VX_TYPE_INT32, crate::scalar::bits32(num_bins)),
                    ],
                    seq![
                        Source::Given(input),
                        Source::Made(0),
                        Source::Made(1),
                        Source::Made(2),
                        Source::Given(magnitudes),
                        Source::Given(bins),
                    ],
                ),
            )
        },
{
    if graph == 0 || input == 0 || magnitudes == 0 || bins == 0 {
        return None;
    }
    let seeds: Vec<Seed> = vec![
        seed_word(VX_TYPE_INT32, to_bits32(cell_width)),
        seed_word(VX_TYPE_INT32, to_bits32(cell_height)),
        seed_word(VX_TYPE_INT32, to_bits32(num_bins)),
    ];
    let slots: Vec<Source> = vec![
        Source::Given(input),
        Source::Made(0),
        Source::Made(1),
        Source::Made(2),
        Source::Given(magnitudes),
        Source::Given(bins),
    ];
    assert(seeds@ =~= seq![
        crate::construction::word_seed(VX_TYPE_INT32, crate::scalar::bits32(cell_width)),
        crate::construction::word_seed(VX_TYPE_INT32, crate::scalar::bits32(cell_height)),
        crate::construction::word_seed(VX_TYPE_INT32, crate::scalar::bits32(num_bins)),
    ]);
    assert(slots@ =~= seq![
        Source::Given(input),
        Source::Made(0),
        Source::Made(1),
        Source::Made(2),
        Source::Given(magnitudes),
        Source::Given(bins),
    ]);
    Some(plan_with_scalars("org.khronos.openvx.hog_cells", &seeds, &slots))
}

/// Plans a node that turns cells into features.  The size of the parameters is left
/// to the kernel.
pub fn vxHOGFeaturesNode(
    graph: u64,
    input: u64,
    magnitudes: u64,
    bins: u64,
    params: u64,
    _hog_param_size: usize,
    features: u64,
) -> (r: Option<NodePlan>)
    ensures
        crate::construction::plan_value(r) == if graph == 0 || input == 0 || magnitudes == 0 || bins == 0 || features == 0 {
            None
        } else {
            Some(
                crate::construction::plain_plan(
                    "org.khronos.openvx.hog_features"@,
                    seq![input, magnitudes, bins, params, 0, features],
                ),
            )
        },
{
    if graph == 0 || input == 0 || magnitudes == 0 || bins == 0 || features == 0 {
        return None;
    }
    let refs: Vec<u64> = vec![input, magnitudes, bins, params, 0, features];
    assert(refs@ =~= seq![input, magnitudes, bins, params, 0, features]);
    Some(create_node_with_params("org.khronos.openvx.hog_features", &refs))
}

/// Plans a node that adds tensors.
pub fn vxTensorAddNode(
    graph: u64,
    input1: u64,
    input2: u64,
    policy: vx_enum,
    output: u64,
) -> (r: Option<NodePlan>)
    ensures
        crate::construction::plan_value(r) == if graph == 0 || input1 == 0 || input2 == 0 || output == 0 {
            None
        } else {
            Some(
                crate::construction::seeded_plan(
                    "org.khronos.openvx.tensor_add"@,
                    seq![crate::construction::enum_seed(policy)],
                    seq![
                        Source::Given(input1),
                        Source::Given(input2),
                        Source::Made(0),
                        Source::Given(output),
                    ],
                ),
            )
        },
{
    if graph == 0 || input1 == 0 || input2 == 0 || output == 0 {
        return None;
    }
    let seeds: Vec<Seed> = vec![seed_enum(policy)];
    let slots: Vec<Source> = vec![Source::Given(input1), Source::Given(input2), Source::Made(0), Source::Given(output)];
    assert(seeds@ =~= seq![crate::construction::enum_seed(policy)]);
    assert(slots@ =~= seq![Source::Given(input1), Source::Given(input2), Source::Made(0), Source::Given(output)]);
    Some(plan_with_scalars("org.khronos.openvx.tensor_add", &seeds, &slots))
}

/// Plans a node that subtracts tensors.
pub fn vxTensorSubtractNode(
    graph: u64,
    input1: u64,
    input2: u64,
    policy: vx_enum,
    output: u64,
) -> (r: Option<NodePlan>)
    ensures
        crate::construction::plan_value(r) == if graph == 0 || input1 == 0 || input2 == 0 || output == 0 {
            None
        } else {
            Some(
                crate::construction::seeded_plan(
                    "org.khronos.openvx.tensor_subtract"@,
                    seq![crate::construction::enum_seed(policy)],
                    seq![
                        Source::Given(input1),
                        Source::Given(input2),
                        Source::Made(0),
                        Source::Given(output),
                    ],
                ),
            )
        },
{
    if graph == 0 || input1 == 0 || input2 == 0 || output == 0 {
        return None;
    }
    let seeds: Vec<Seed> = vec![seed_enum(policy)];
    let slots: Vec<Source> = vec![Source::Given(input1), Source::Given(input2), Source::Made(0), Source::Given(output)];
    assert(seeds@ =~= seq![crate::construction::enum_seed(policy)]);
    assert(slots@ =~= seq![Source::Given(input1), Source::Given(input2), Source::Made(0), Source::Given(output)]);
    Some(plan_with_scalars("org.khronos.openvx.tensor_subtract", &seeds, &slots))
}

/// Plans a node that multiplies tensors.
pub fn vxTensorMultiplyNode(
    graph: u64,
    input1: u64,
    input2: u64,
    scale: u64,
    overflow_policy: vx_enum,
    rounding_policy: vx_enum,
    output: u64,
) -> (r: Option<NodePlan>)
    ensures
        crate::construction::plan_value(r) == if graph == 0 || input1 == 0 || input2 == 0 || scale == 0 || output == 0 {
            None
        } else {
            Some(
                crate::construction::seeded_plan(
                    "org.khronos.openvx.tensor_multiply"@,
                    seq![
                        crate::construction::enum_seed(overflow_policy),
                        crate::construction::enum_seed(rounding_policy),
                    ],
                    seq![
                        Source::Given(input1),
                        Source::Given(input2),
                        Source::Given(scale),
                        Source::Made(0),
                        Source::Made(1),
                        Source::Given(output),
                    ],
                ),
            )
        },
{
    if graph == 0 || input1 == 0 || input2 == 0 || scale == 0 || output == 0 {
        return None;
    }
    let seeds: Vec<Seed> = vec![seed_enum(overflow_policy), seed_enum(rounding_policy)];
    let slots: Vec<Source> = vec![
        Source::Given(input1),
        Source::Given(input2),
        Source::Given(scale),
        Source::Made(0),
        Source::Made(1),
        Source::Given(output),
    ];
    assert(seeds@ =~= seq![
        crate::construction::enum_seed(overflow_policy),
        crate::construction::enum_seed(rounding_policy),
    ]);
    assert(slots@ =~= seq![
        Source::Given(input1),
        Source::Given(input2),
        Source::Given(scale),
        Source::Made(0),
        Source::Made(1),
        Source::Given(output),
    ]);
    Some(plan_with_scalars("org.khronos.openvx.tensor_multiply", &seeds, &slots))
}

/// Plans a node that multiplies matrices.  The third input and the parameters may be
/// missing.
pub fn vxTensorMatrixMultiplyNode(
    graph: u64,
    input1: u64,
    input2: u64,
    input3: u64,
    matrix_multiply_params: u64,
    output: u64,
) -> (r: Option<NodePlan>)
    ensures
        crate::construction::plan_value(r) == if graph == 0 || input1 == 0 || input2 == 0 || output == 0 {
            None
        } else {
            Some(
                crate::construction::plain_plan(
                    "org.khronos.openvx.tensor_matrix_multiply"@,
                    seq![input1, input2, input3, matrix_multiply_params, output],
                ),
            )
        },
{
    if graph == 0 || input1 == 0 || input2 == 0 || output == 0 {
        return None;
    }
    let refs: Vec<u64> = vec![input1, input2, input3, matrix_multiply_params, output];
    assert(refs@ =~= seq![input1, input2, input3, matrix_multiply_params, output]);
    Some(create_node_with_params("org.khronos.openvx.tensor_matrix_multiply", &refs))
}

/// Plans a node that looks the elements of a tensor up in a table.
pub fn vxTensorTableLookupNode(
    graph: u64,
    input1: u64,
    lut: u64,
    output: u64,
) -> (r: Option<NodePlan>)
    ensures
        crate::construction::plan_value(r) == if graph == 0 || input1 == 0 || lut == 0 || output == 0 {
            None
        } else {
            Some(
                crate::construction::plain_plan(
                    "org.khronos.openvx.tensor_table_lookup"@,
                    seq![input1, lut, output],
                ),
            )
        },
{
    if graph == 0 || input1 == 0 || lut == 0 || output == 0 {
        return None;
    }
    let refs: Vec<u64> = vec![input1, lut, output];
    assert(refs@ =~= seq![input1, lut, output]);
    Some(create_node_with_params("org.khronos.openvx.tensor_table_lookup", &refs))
}

/// Plans a node that swaps two dimensions of a tensor.
pub fn vxTensorTransposeNode(
    graph: u64,
    input: u64,
    output: u64,
    dimension1: usize,
    dimension2: usize,
) -> (r: Option<NodePlan>)
    ensures
        crate::construction::plan_value(r) == if graph == 0 || input == 0 || output == 0 {
            None
        } else {
            Some(
                crate::construction::seeded_plan(
                    "org.khronos.openvx.tensor_transpose"@,
                    seq![
                        crate::construction::size_seed(dimension1),
                        crate::construction::size_seed(dimension2),
                    ],
                    seq![
                        Source::Given(input),
                        Source::Made(0),
                        Source::Made(1),
                        Source::Given(output),
                    ],
                ),
            )
        },
{
    if graph == 0 || input == 0 || output == 0 {
        return None;
    }
    let seeds: Vec<Seed> = vec![seed_size(dimension1), seed_size(dimension2)];
    let slots: Vec<Source> = vec![Source::Given(input), Source::Made(0), Source::Made(1), Source::Given(output)];
    assert(seeds@ =~= seq![crate::construction::size_seed(dimension1), crate::construction::size_seed(dimension2)]);
    assert(slots@ =~= seq![Source::Given(input), Source::Made(0), Source::Made(1), Source::Given(output)]);
    Some(plan_with_scalars("org.khronos.openvx.tensor_transpose", &seeds, &slots))
}

/// Plans a node that converts the elements of a tensor.
pub fn vxTensorConvertDepthNode(
    graph: u64,
    input: u64,
    policy: vx_enum,
    norm: u64,
    offset: u64,
    output: u64,
) -> (r: Option<NodePlan>)
    ensures
        crate::construction::plan_value(r) == if graph == 0 || input == 0 || norm == 0 || offset == 0 || output == 0 {
            None
        } else {
            Some(
                crate::construction::seeded_plan(
                    "org.khronos.openvx.tensor_convert_depth"@,
                    seq![crate::construction::enum_seed(policy)],
                    seq![
                        Source::Given(input),
                        Source::Made(0),
                        Source::Given(norm),
                        Source::Given(offset),
                        Source::Given(output),
                    ],
                ),
            )
        },
{
    if graph == 0 || input == 0 || norm == 0 || offset == 0 || output == 0 {
        return None;
    }
    let seeds: Vec<Seed> = vec![seed_enum(policy)];
    let slots: Vec<Source> = vec![
        Source::Given(input),
        Source::Made(0),
        Source::Given(norm),
        Source::Given(offset),
        Source::Given(output),
    ];
    assert(seeds@ =~= seq![crate::construction::enum_seed(policy)]);
    assert(slots@ =~= seq![
        Source::Given(input),
        Source::Made(0),
        Source::Given(norm),
        Source::Given(offset),
        Source::Given(output),
    ]);
    Some(plan_with_scalars("org.khronos.openvx.tensor_convert_depth", &seeds, &slots))
}

} // verus!
