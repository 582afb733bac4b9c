//! Nodes that work on images.
//!
//! Each function looks at its references and writes the script of the node; no
//! plan stands for the null node.
use vstd::prelude::*;
use crate::construction::{
    NodePlan, Seed, Source, create_node_with_params, plan_with_options, plan_with_scalars,
    seed_enum, seed_size, seed_word,
};
use crate::scalar::to_bits32;
use crate::types::{VX_TYPE_INT32, VX_TYPE_INT8, vx_enum};

verus! {

/// A number of one byte as a scalar.
pub open spec fn small_seed(v: i8) -> Seed {
    Seed {
        data_type: VX_TYPE_INT8,
        size: 1,
        bits: if v < 0 {
            (v + 256) as u64
        } else {
            v as u64
        },
        kept: false,
    }
}

/// Makes a number of one byte a scalar.
pub fn seed_small(v: i8) -> (r: Seed)
    ensures
        r == small_seed(v),
{
    let bits: u64 = if v < 0 {
        (v as i16 + 256) as u64
    } else {
        v as u64
    };
    Seed { data_type: VX_TYPE_INT8, size: 1, bits, kept: false }
}

/// Plans a node that inverts the bits of pixels.  The references are not looked at.
pub fn vxNotNode(_graph: u64, input: u64, output: u64) -> (r: NodePlan)
    ensures
        r@ == crate::construction::plain_plan("org.khronos.openvx.not"@, seq![input, output]),
{
    let params: Vec<u64> = vec![input, output];
    assert(params@ =~= seq![input, output]);
    create_node_with_params("org.khronos.openvx.not", &params)
}

/// Plans a node that evens the histogram of an image.  The references are not
/// looked at.
pub fn vxEqualizeHistNode(_graph: u64, input: u64, output: u64) -> (r: NodePlan)
    ensures
        r@ == crate::construction::plain_plan(
            "org.khronos.openvx.equalize_histogram"@,
            seq![input, output],
        ),
{
    let params: Vec<u64> = vec![input, output];
    assert(params@ =~= seq![input, output]);
    create_node_with_params("org.khronos.openvx.equalize_histogram", &params)
}

/// Plans a node that copies an object.  The references are not looked at.
pub fn vxCopyNode(_graph: u64, input: u64, output: u64) -> (r: NodePlan)
    ensures
        r@ == crate::construction::plain_plan("org.khronos.openvx.copy"@, seq![input, output]),
{
    let params: Vec<u64> = vec![input, output];
    assert(params@ =~= seq![input, output]);
    create_node_with_params("org.khronos.openvx.copy", &params)
}

/// Plans a node that converts between colour formats.
pub fn vxColorConvertNode(graph: u64, input: u64, output: u64) -> (r: Option<NodePlan>)
    ensures
        crate::construction::plan_value(r) == if graph == 0 || input == 0 || output == 0 {
            None
        } else {
            Some(
                crate::construction::plain_plan(
                    "org.khronos.openvx.color_convert"@,
                    seq![input, output],
                ),
            )
        },
{
    if graph == 0 || input == 0 || output == 0 {
        return None;
    }
    let refs: Vec<u64> = vec![input, output];
    assert(refs@ =~= seq![input, output]);
    Some(create_node_with_params("org.khronos.openvx.color_convert", &refs))
}

/// Plans a node that extracts a channel.
pub fn vxChannelExtractNode(
    graph: u64,
    input: u64,
    channel: vx_enum,
    output: u64,
) -> (r: Option<NodePlan>)
    ensures
        crate::construction::plan_value(r) == if graph == 0 || input == 0 || output == 0 {
            None
        } else {
            Some(
                crate::construction::seeded_plan(
                    "org.khronos.openvx.channel_extract"@,
                    seq![crate::construction::enum_seed(channel)],
                    seq![Source::Given(input), Source::Made(0), Source::Given(output)],
                ),
            )
        },
{
    if graph == 0 || input == 0 || output == 0 {
        return None;
    }
    let seeds: Vec<Seed> = vec![seed_enum(channel)];
    let slots: Vec<Source> = vec![Source::Given(input), Source::Made(0), Source::Given(output)];
    assert(seeds@ =~= seq![crate::construction::enum_seed(channel)]);
    assert(slots@ =~= seq![Source::Given(input), Source::Made(0), Source::Given(output)]);
    Some(plan_with_scalars("org.khronos.openvx.channel_extract", &seeds, &slots))
}

/// Plans a node that combines channels.  A plane may be missing.
pub fn vxChannelCombineNode(
    graph: u64,
    plane0: u64,
    plane1: u64,
    plane2: u64,
    plane3: u64,
    output: u64,
) -> (r: Option<NodePlan>)
    ensures
        crate::construction::plan_value(r) == if graph == 0 || output == 0 {
            None
        } else {
            Some(
                crate::construction::plain_plan(
                    "org.khronos.openvx.channel_combine"@,
                    seq![plane0, plane1, plane2, plane3, output],
                ),
            )
        },
{
    if graph == 0 || output == 0 {
        return None;
    }
    let refs: Vec<u64> = vec![plane0, plane1, plane2, plane3, output];
    assert(refs@ =~= seq![plane0, plane1, plane2, plane3, output]);
    Some(create_node_with_params("org.khronos.openvx.channel_combine", &refs))
}

/// Plans a node that smooths an image with a Gaussian of three by three.
pub fn vxGaussian3x3Node(graph: u64, input: u64, output: u64) -> (r: Option<NodePlan>)
    ensures
        crate::construction::plan_value(r) == if graph == 0 || input == 0 || output == 0 {
            None
        } else {
            Some(
                crate::construction::plain_plan(
                    "org.khronos.openvx.gaussian_3x3"@,
                    seq![input, output],
                ),
            )
        },
{
    if graph == 0 || input == 0 || output == 0 {
        return None;
    }
    let refs: Vec<u64> = vec![input, output];
    assert(refs@ =~= seq![input, output]);
    Some(create_node_with_params("org.khronos.openvx.gaussian_3x3", &refs))
}

/// Plans a node that smooths an image with a Gaussian of five by five.
pub fn vxGaussian5x5Node(graph: u64, input: u64, output: u64) -> (r: Option<NodePlan>)
    ensures
        crate::construction::plan_value(r) == if graph == 0 || input == 0 || output == 0 {
            None
        } else {
            Some(
                crate::construction::plain_plan(
                    "org.khronos.openvx.gaussian_5x5"@,
                    seq![input, output],
                ),
            )
        },
{
    if graph == 0 || input == 0 || output == 0 {
        return None;
    }
    let refs: Vec<u64> = vec![input, output];
    assert(refs@ =~= seq![input, output]);
    Some(create_node_with_params("org.khronos.openvx.gaussian_5x5", &refs))
}

/// Plans a node that convolves an image.
pub fn vxConvolveNode(graph: u64, input: u64, conv: u64, output: u64) -> (r: Option<NodePlan>)
    ensures
        crate::construction::plan_value(r) == if graph == 0 || input == 0 || conv == 0 || output == 0 {
            None
        } else {
            Some(
                crate::construction::plain_plan(
                    "org.khronos.openvx.convolve"@,
                    seq![input, conv, output],
                ),
            )
        },
{
    if graph == 0 || input == 0 || conv == 0 || output == 0 {
        return None;
    }
    let refs: Vec<u64> = vec![input, conv, output];
    assert(refs@ =~= seq![input, conv, output]);
    Some(create_node_with_params("org.khronos.openvx.convolve", &refs))
}

/// Plans a node that averages over three by three pixels.
pub fn vxBox3x3Node(graph: u64, input: u64, output: u64) -> (r: Option<NodePlan>)
    ensures
        crate::construction::plan_value(r) == if graph == 0 || input == 0 || output == 0 {
            None
        } else {
            Some(
                crate::construction::plain_plan(
                    "org.khronos.openvx.box_3x3"@,
                    seq![input, output],
                ),
            )
        },
{
    if graph == 0 || input == 0 || output == 0 {
        return None;
    }
    let refs: Vec<u64> = vec![input, output];
    assert(refs@ =~= seq![input, output]);
    Some(create_node_with_params("org.khronos.openvx.box_3x3", &refs))
}

/// Plans a node that takes the median of three by three pixels.
pub fn vxMedian3x3Node(graph: u64, input: u64, output: u64) -> (r: Option<NodePlan>)
    ensures
        crate::construction::plan_value(r) == if graph == 0 || input == 0 || output == 0 {
            None
        } else {
            Some(
                crate::construction::plain_plan(
                    "org.khronos.openvx.median_3x3"@,
                    seq![input, output],
                ),
            )
        },
{
    if graph == 0 || input == 0 || output == 0 {
        return None;
    }
    let refs: Vec<u64> = vec![input, output];
    assert(refs@ =~= seq![input, output]);
    Some(create_node_with_params("org.khronos.openvx.median_3x3", &refs))
}

/// Plans a node that takes gradients over three by three pixels.  Either output may
/// be missing.
pub fn vxSobel3x3Node(graph: u64, input: u64, output_x: u64, output_y: u64) -> (r: Option<NodePlan>)
    ensures
        crate::construction::plan_value(r) == if graph == 0 || input == 0 {
            None
        } else {
            Some(
                crate::construction::sparse_plan(
                    "org.khronos.openvx.sobel_3x3"@,
                    seq![input, output_x, output_y],
                    1,
                ),
            )
        },
{
    if graph == 0 || input == 0 {
        return None;
    }
    let refs: Vec<u64> = vec![input, output_x, output_y];
    assert(refs@ =~= seq![input, output_x, output_y]);
    Some(plan_with_options("org.khronos.openvx.sobel_3x3", &refs, 1))
}

/// Plans a node that takes gradients over five by five pixels.  Either output may
/// be missing.
pub fn vxSobel5x5Node(graph: u64, input: u64, output_x: u64, output_y: u64) -> (r: Option<NodePlan>)
    ensures
        crate::construction::plan_value(r) == if graph == 0 || input == 0 {
            None
        } else {
            Some(
                crate::construction::sparse_plan(
                    "org.khronos.openvx.sobel_5x5"@,
                    seq![input, output_x, output_y],
                    1,
                ),
            )
        },
{
    if graph == 0 || input == 0 {
        return None;
    }
    let refs: Vec<u64> = vec![input, output_x, output_y];
    assert(refs@ =~= seq![input, output_x, output_y]);
    Some(plan_with_options("org.khronos.openvx.sobel_5x5", &refs, 1))
}

/// Plans a node that takes the magnitude of gradients.
pub fn vxMagnitudeNode(graph: u64, grad_x: u64, grad_y: u64, output: u64) -> (r: Option<NodePlan>)
    ensures
        crate::construction::plan_value(r) == if graph == 0 || grad_x == 0 || grad_y == 0 || output == 0 {
            None
        } else {
            Some(
                crate::construction::plain_plan(
                    "org.khronos.openvx.magnitude"@,
                    seq![grad_x, grad_y, output],
                ),
            )
        },
{
    if graph == 0 || grad_x == 0 || grad_y == 0 || output == 0 {
        return None;
    }
    let refs: Vec<u64> = vec![grad_x, grad_y, output];
    assert(refs@ =~= seq![grad_x, grad_y, output]);
    Some(create_node_with_params("org.khronos.openvx.magnitude", &refs))
}

/// Plans a node that takes the phase of gradients.
pub fn vxPhaseNode(graph: u64, grad_x: u64, grad_y: u64, output: u64) -> (r: Option<NodePlan>)
    ensures
        crate::construction::plan_value(r) == if graph == 0 || grad_x == 0 || grad_y == 0 || output == 0 {
            None
        } else {
            Some(
                crate::construction::plain_plan(
                    "org.khronos.openvx.phase"@,
                    seq![grad_x, grad_y, output],
                ),
            )
        },
{
    if graph == 0 || grad_x == 0 || grad_y == 0 || output == 0 {
        return None;
    }
    let refs: Vec<u64> = vec![grad_x, grad_y, output];
    assert(refs@ =~= seq![grad_x, grad_y, output]);
    Some(create_node_with_params("org.khronos.openvx.phase", &refs))
}

/// Plans a node that dilates over three by three pixels.
pub fn vxDilate3x3Node(graph: u64, input: u64, output: u64) -> (r: Option<NodePlan>)
    ensures
        crate::construction::plan_value(r) == if graph == 0 || input == 0 || output == 0 {
            None
        } else {
            Some(
                crate::construction::plain_plan(
                    "org.khronos.openvx.dilate_3x3"@,
                    seq![input, output],
                ),
            )
        },
{
    if graph == 0 || input == 0 || output == 0 {
        return None;
    }
    let refs: Vec<u64> = vec![input, output];
    assert(refs@ =~= seq![input, output]);
    Some(create_node_with_params("org.khronos.openvx.dilate_3x3", &refs))
}

/// Plans a node that erodes over three by three pixels.
pub fn vxErode3x3Node(graph: u64, input: u64, output: u64) -> (r: Option<NodePlan>)
    ensures
        crate::construction::plan_value(r) == if graph == 0 || input == 0 || output == 0 {
            None
        } else {
            Some(
                crate::construction::plain_plan(
                    "org.khronos.openvx.erode_3x3"@,
                    seq![input, output],
                ),
            )
        },
{
    if graph == 0 || input == 0 || output == 0 {
        return None;
    }
    let refs: Vec<u64> = vec![input, output];
    assert(refs@ =~= seq![input, output]);
    Some(create_node_with_params("org.khronos.openvx.erode_3x3", &refs))
}

/// Plans a node that dilates over five by five pixels.
pub fn vxDilate5x5Node(graph: u64, input: u64, output: u64) -> (r: Option<NodePlan>)
    ensures
        crate::construction::plan_value(r) == if graph == 0 || input == 0 || output == 0 {
            None
        } else {
            Some(
                crate::construction::plain_plan(
                    "org.khronos.openvx.dilate_5x5"@,
                    seq![input, output],
                ),
            )
        },
{
    if graph == 0 || input == 0 || output == 0 {
        return None;
    }
    let refs: Vec<u64> = vec![input, output];
    assert(refs@ =~= seq![input, output]);
    Some(create_node_with_params("org.khronos.openvx.dilate_5x5", &refs))
}

/// Plans a node that erodes over five by five pixels.
pub fn vxErode5x5Node(graph: u64, input: u64, output: u64) -> (r: Option<NodePlan>)
    ensures
        crate::construction::plan_value(r) == if graph == 0 || input == 0 || output == 0 {
            None
        } else {
            Some(
                crate::construction::plain_plan(
                    "org.khronos.openvx.erode_5x5"@,
                    seq![input, output],
                ),
            )
        },
{
    if graph == 0 || input == 0 || output == 0 {
        return None;
    }
    let refs: Vec<u64> = vec![input, output];
    assert(refs@ =~= seq![input, output]);
    Some(create_node_with_params("org.khronos.openvx.erode_5x5", &refs))
}

/// Plans a node that adds images.
pub fn vxAddNode(
    graph: u64,
    in1: u64,
    in2: u64,
    policy: vx_enum,
    output: u64,
) -> (r: Option<NodePlan>)
    ensures
        crate::construction::plan_value(r) == if graph == 0 || in1 == 0 || in2 == 0 || output == 0 {
            None
        } else {
            Some(
                crate::construction::seeded_plan(
                    "org.khronos.openvx.add"@,
                    seq![crate::construction::enum_seed(policy)],
                    seq![
                        Source::Given(in1),
                        Source::Given(in2),
                        Source::Made(0),
                        Source::Given(output),
                    ],
                ),
            )
        },
{
    if graph == 0 || in1 == 0 || in2 == 0 || output == 0 {
        return None;
    }
    let seeds: Vec<Seed> = vec![seed_enum(policy)];
    let slots: Vec<Source> = vec![Source::Given(in1), Source::Given(in2), Source::Made(0), Source::Given(output)];
    assert(seeds@ =~= seq![crate::construction::enum_seed(policy)]);
    assert(slots@ =~= seq![Source::Given(in1), Source::Given(in2), Source::Made(0), Source::Given(output)]);
    Some(plan_with_scalars("org.khronos.openvx.add", &seeds, &slots))
}

/// Plans a node that subtracts images.
pub fn vxSubtractNode(
    graph: u64,
    in1: u64,
    in2: u64,
    policy: vx_enum,
    output: u64,
) -> (r: Option<NodePlan>)
    ensures
        crate::construction::plan_value(r) == if graph == 0 || in1 == 0 || in2 == 0 || output == 0 {
            None
        } else {
            Some(
                crate::construction::seeded_plan(
                    "org.khronos.openvx.subtract"@,
                    seq![crate::construction::enum_seed(policy)],
                    seq![
                        Source::Given(in1),
                        Source::Given(in2),
                        Source::Made(0),
                        Source::Given(output),
                    ],
                ),
            )
        },
{
    if graph == 0 || in1 == 0 || in2 == 0 || output == 0 {
        return None;
    }
    let seeds: Vec<Seed> = vec![seed_enum(policy)];
    let slots: Vec<Source> = vec![Source::Given(in1), Source::Given(in2), Source::Made(0), Source::Given(output)];
    assert(seeds@ =~= seq![crate::construction::enum_seed(policy)]);
    assert(slots@ =~= seq![Source::Given(in1), Source::Given(in2), Source::Made(0), Source::Given(output)]);
    Some(plan_with_scalars("org.khronos.openvx.subtract", &seeds, &slots))
}

/// Plans a node that multiplies images.
pub fn vxMultiplyNode(
    graph: u64,
    in1: u64,
    in2: u64,
    scale: u64,
    overflow_policy: vx_enum,
    rounding_policy: vx_enum,
    output: u64,
) -> (r: Option<NodePlan>)
    ensures
        crate::construction::plan_value(r) == if graph == 0 || in1 == 0 || in2 == 0 || output == 0 {
            None
        } else {
            Some(
                crate::construction::seeded_plan(
                    "org.khronos.openvx.multiply"@,
                    seq![
                        crate::construction::enum_seed(overflow_policy),
                        crate::construction::enum_seed(rounding_policy),
                    ],
                    seq![
                        Source::Given(in1),
                        Source::Given(in2),
                        Source::Given(scale),
                        Source::Made(0),
                        Source::Made(1),
                        Source::Given(output),
                    ],
                ),
            )
        },
{
    if graph == 0 || in1 == 0 || in2 == 0 || output == 0 {
        return None;
    }
    let seeds: Vec<Seed> = vec![seed_enum(overflow_policy), seed_enum(rounding_policy)];
    let slots: Vec<Source> = vec![
        Source::Given(in1),
        Source::Given(in2),
        Source::Given(scale),
        Source::Made(0),
        Source::Made(1),
        Source::Given(output),
    ];
    assert(seeds@ =~= seq![
        crate::construction::enum_seed(overflow_policy),
        crate::construction::enum_seed(rounding_policy),
    ]);
    assert(slots@ =~= seq![
        Source::Given(in1),
        Source::Given(in2),
        Source::Given(scale),
        Source::Made(0),
        Source::Made(1),
        Source::Given(output),
    ]);
    Some(plan_with_scalars("org.khronos.openvx.multiply", &seeds, &slots))
}

/// Plans a node that takes the smaller of two pixels.
pub fn vxMinNode(graph: u64, in1: u64, in2: u64, out: u64) -> (r: Option<NodePlan>)
    ensures
        crate::construction::plan_value(r) == if graph == 0 || in1 == 0 || in2 == 0 || out == 0 {
            None
        } else {
            Some(
                crate::construction::plain_plan(
                    "org.khronos.openvx.min"@,
                    seq![in1, in2, out],
                ),
            )
        },
{
    if graph == 0 || in1 == 0 || in2 == 0 || out == 0 {
        return None;
    }
    let refs: Vec<u64> = vec![in1, in2, out];
    assert(refs@ =~= seq![in1, in2, out]);
    Some(create_node_with_params("org.khronos.openvx.min", &refs))
}

/// Plans a node that takes the larger of two pixels.
pub fn vxMaxNode(graph: u64, in1: u64, in2: u64, out: u64) -> (r: Option<NodePlan>)
    ensures
        crate::construction::plan_value(r) == if graph == 0 || in1 == 0 || in2 == 0 || out == 0 {
            None
        } else {
            Some(
                crate::construction::plain_plan(
                    "org.khronos.openvx.max"@,
                    seq![in1, in2, out],
                ),
            )
        },
{
    if graph == 0 || in1 == 0 || in2 == 0 || out == 0 {
        return None;
    }
    let refs: Vec<u64> = vec![in1, in2, out];
    assert(refs@ =~= seq![in1, in2, out]);
    Some(create_node_with_params("org.khronos.openvx.max", &refs))
}

/// Plans a node that finds the smallest and largest pixels.  Any result may be
/// missing.
pub fn vxMinMaxLocNode(
    graph: u64,
    input: u64,
    min_val: u64,
    max_val: u64,
    min_loc: u64,
    max_loc: u64,
    min_count: u64,
    max_count: u64,
) -> (r: Option<NodePlan>)
    ensures
        crate::construction::plan_value(r) == if graph == 0 || input == 0 {
            None
        } else {
            Some(
                crate::construction::sparse_plan(
                    "org.khronos.openvx.minmaxloc"@,
                    seq![input, min_val, max_val, min_loc, max_loc, min_count, max_count],
                    1,
                ),
            )
        },
{
    if graph == 0 || input == 0 {
        return None;
    }
    let refs: Vec<u64> = vec![input, min_val, max_val, min_loc, max_loc, min_count, max_count];
    assert(refs@ =~= seq![input, min_val, max_val, min_loc, max_loc, min_count, max_count]);
    Some(plan_with_options("org.khronos.openvx.minmaxloc", &refs, 1))
}

/// Plans a node that takes the mean and standard deviation.  Either may be missing.
pub fn vxMeanStdDevNode(graph: u64, input: u64, mean: u64, stddev: u64) -> (r: Option<NodePlan>)
    ensures
        crate::construction::plan_value(r) == if graph == 0 || input == 0 {
            None
        } else {
            Some(
                crate::construction::sparse_plan(
                    "org.khronos.openvx.mean_stddev"@,
                    seq![input, mean, stddev],
                    1,
                ),
            )
        },
{
    if graph == 0 || input == 0 {
        return None;
    }
    let refs: Vec<u64> = vec![input, mean, stddev];
    assert(refs@ =~= seq![input, mean, stddev]);
    Some(plan_with_options("org.khronos.openvx.mean_stddev", &refs, 1))
}

/// Plans a node that counts pixels.
pub fn vxHistogramNode(graph: u64, input: u64, distribution: u64) -> (r: Option<NodePlan>)
    ensures
        crate::construction::plan_value(r) == if graph == 0 || input == 0 || distribution == 0 {
            None
        } else {
            Some(
                crate::construction::plain_plan(
                    "org.khronos.openvx.histogram"@,
                    seq![input, distribution],
                ),
            )
        },
{
    if graph == 0 || input == 0 || distribution == 0 {
        return None;
    }
    let refs: Vec<u64> = vec![input, distribution];
    assert(refs@ =~= seq![input, distribution]);
    Some(create_node_with_params("org.khronos.openvx.histogram", &refs))
}

/// Plans a node that scales an image.
pub fn vxScaleImageNode(
    graph: u64,
    input: u64,
    output: u64,
    interpolation: vx_enum,
) -> (r: Option<NodePlan>)
    ensures
        crate::construction::plan_value(r) == if graph == 0 || input == 0 || output == 0 {
            None
        } else {
            Some(
                crate::construction::seeded_plan(
                    "org.khronos.openvx.scale_image"@,
                    seq![crate::construction::enum_seed(interpolation)],
                    seq![Source::Given(input), Source::Made(0), Source::Given(output)],
                ),
            )
        },
{
    if graph == 0 || input == 0 || output == 0 {
        return None;
    }
    let seeds: Vec<Seed> = vec![seed_enum(interpolation)];
    let slots: Vec<Source> = vec![Source::Given(input), Source::Made(0), Source::Given(output)];
    assert(seeds@ =~= seq![crate::construction::enum_seed(interpolation)]);
    assert(slots@ =~= seq![Source::Given(input), Source::Made(0), Source::Given(output)]);
    Some(plan_with_scalars("org.khronos.openvx.scale_image", &seeds, &slots))
}

/// Plans a node that warps an image by an affine map.
pub fn vxWarpAffineNode(
    graph: u64,
    input: u64,
    matrix: u64,
    interpolation: vx_enum,
    output: u64,
) -> (r: Option<NodePlan>)
    ensures
        crate::construction::plan_value(r) == if graph == 0 || input == 0 || matrix == 0 || output == 0 {
            None
        } else {
            Some(
                crate::construction::seeded_plan(
                    "org.khronos.openvx.warp_affine"@,
                    seq![crate::construction::enum_seed(interpolation)],
                    seq![
                        Source::Given(input),
                        Source::Given(matrix),
                        Source::Made(0),
                        Source::Given(output),
                    ],
                ),
            )
        },
{
    if graph == 0 || input == 0 || matrix == 0 || output == 0 {
        return None;
    }
    let seeds: Vec<Seed> = vec![seed_enum(interpolation)];
    let slots: Vec<Source> = vec![Source::Given(input), Source::Given(matrix), Source::Made(0), Source::Given(output)];
    assert(seeds@ =~= seq![crate::construction::enum_seed(interpolation)]);
    assert(slots@ =~= seq![Source::Given(input), Source::Given(matrix), Source::Made(0), Source::Given(output)]);
    Some(plan_with_scalars("org.khronos.openvx.warp_affine", &seeds, &slots))
}

/// Plans a node that warps an image by a perspective map.
pub fn vxWarpPerspectiveNode(
    graph: u64,
    input: u64,
    matrix: u64,
    interpolation: vx_enum,
    output: u64,
) -> (r: Option<NodePlan>)
    ensures
        crate::construction::plan_value(r) == if graph == 0 || input == 0 || matrix == 0 || output == 0 {
            None
        } else {
            Some(
                crate::construction::seeded_plan(
                    "org.khronos.openvx.warp_perspective"@,
                    seq![crate::construction::enum_seed(interpolation)],
                    seq![
                        Source::Given(input),
                        Source::Given(matrix),
                        Source::Made(0),
                        Source::Given(output),
                    ],
                ),
            )
        },
{
    if graph == 0 || input == 0 || matrix == 0 || output == 0 {
        return None;
    }
    let seeds: Vec<Seed> = vec![seed_enum(interpolation)];
    let slots: Vec<Source> = vec![Source::Given(input), Source::Given(matrix), Source::Made(0), Source::Given(output)];
    assert(seeds@ =~= seq![crate::construction::enum_seed(interpolation)]);
    assert(slots@ =~= seq![Source::Given(input), Source::Given(matrix), Source::Made(0), Source::Given(output)]);
    Some(plan_with_scalars("org.khronos.openvx.warp_perspective", &seeds, &slots))
}

/// Plans a node that moves pixels by a coordinate map.
pub fn vxRemapNode(
    graph: u64,
    input: u64,
    table: u64,
    policy: vx_enum,
    output: u64,
) -> (r: Option<NodePlan>)
    ensures
        crate::construction::plan_value(r) == if graph == 0 || input == 0 || table == 0 || output == 0 {
            None
        } else {
            Some(
                crate::construction::seeded_plan(
                    "org.khronos.openvx.remap"@,
                    seq![crate::construction::enum_seed(policy)],
                    seq![
                        Source::Given(input),
                        Source::Given(table),
                        Source::Made(0),
                        Source::Given(output),
                    ],
                ),
            )
        },
{
    if graph == 0 || input == 0 || table == 0 || output == 0 {
        return None;
    }
    let seeds: Vec<Seed> = vec![seed_enum(policy)];
    let slots: Vec<Source> = vec![Source::Given(input), Source::Given(table), Source::Made(0), Source::Given(output)];
    assert(seeds@ =~= seq![crate::construction::enum_seed(policy)]);
    assert(slots@ =~= seq![Source::Given(input), Source::Given(table), Source::Made(0), Source::Given(output)]);
    Some(plan_with_scalars("org.khronos.openvx.remap", &seeds, &slots))
}

/// Plans a node that finds edges.
pub fn vxCannyEdgeDetectorNode(
    graph: u64,
    input: u64,
    hyst_threshold: u64,
    gradient_size: vx_enum,
    norm_type: vx_enum,
    output: u64,
) -> (r: Option<NodePlan>)
    ensures
        crate::construction::plan_value(r) == if graph == 0 || input == 0 || hyst_threshold == 0 || output == 0 {
            None
        } else {
            Some(
                crate::construction::seeded_plan(
                    "org.khronos.openvx.canny_edge_detector"@,
                    seq![
                        crate::construction::enum_seed(gradient_size),
                        crate::construction::enum_seed(norm_type),
                    ],
                    seq![
                        Source::Given(input),
                        Source::Given(hyst_threshold),
                        Source::Made(0),
                        Source::Made(1),
                        Source::Given(output),
                    ],
                ),
            )
        },
{
    if graph == 0 || input == 0 || hyst_threshold == 0 || output == 0 {
        return None;
    }
    let seeds: Vec<Seed> = vec![seed_enum(gradient_size), seed_enum(norm_type)];
    let slots: Vec<Source> = vec![
        Source::Given(input),
        Source::Given(hyst_threshold),
        Source::Made(0),
        Source::Made(1),
        Source::Given(output),
    ];
    assert(seeds@ =~= seq![
        crate::construction::enum_seed(gradient_size),
        crate::construction::enum_seed(norm_type),
    ]);
    assert(slots@ =~= seq![
        Source::Given(input),
        Source::Given(hyst_threshold),
        Source::Made(0),
        Source::Made(1),
        Source::Given(output),
    ]);
    Some(plan_with_scalars("org.khronos.openvx.canny_edge_detector", &seeds, &slots))
}

/// Plans a node that sums pixels up from the origin.
pub fn vxIntegralImageNode(graph: u64, input: u64, output: u64) -> (r: Option<NodePlan>)
    ensures
        crate::construction::plan_value(r) == if graph == 0 || input == 0 || output == 0 {
            None
        } else {
            Some(
                crate::construction::plain_plan(
                    "org.khronos.openvx.integral_image"@,
                    seq![input, output],
                ),
            )
        },
{
    if graph == 0 || input == 0 || output == 0 {
        return None;
    }
    let refs: Vec<u64> = vec![input, output];
    assert(refs@ =~= seq![input, output]);
    Some(create_node_with_params("org.khronos.openvx.integral_image", &refs))
}

/// Plans a node that shifts windows to the mean.
pub fn vxMeanShiftNode(
    graph: u64,
    input: u64,
    window_width: usize,
    window_height: usize,
    criteria: vx_enum,
    output: u64,
) -> (r: Option<NodePlan>)
    ensures
        crate::construction::plan_value(r) == if graph == 0 || input == 0 || output == 0 {
            None
        } else {
            Some(
                crate::construction::seeded_plan(
                    "org.khronos.openvx.mean_shift"@,
                    seq![
                        crate::construction::size_seed(window_width),
                        crate::construction::size_seed(window_height),
                        crate::construction::enum_seed(criteria),
                    ],
                    seq![
                        Source::Given(input),
                        Source::Made(0),
                        Source::Made(1),
                        Source::Made(2),
                        Source::Given(output),
                    ],
                ),
            )
        },
{
    if graph == 0 || input == 0 || output == 0 {
        return None;
    }
    let seeds: Vec<Seed> = vec![seed_size(window_width), seed_size(window_height), seed_enum(criteria)];
    let slots: Vec<Source> = vec![
        Source::Given(input),
        Source::Made(0),
        Source::Made(1),
        Source::Made(2),
        Source::Given(output),
    ];
    assert(seeds@ =~= seq![
        crate::construction::size_seed(window_width),
        crate::construction::size_seed(window_height),
        crate::construction::enum_seed(criteria),
    ]);
    assert(slots@ =~= seq![
        Source::Given(input),
        Source::Made(0),
        Source::Made(1),
        Source::Made(2),
        Source::Given(output),
    ]);
    Some(plan_with_scalars("org.khronos.openvx.mean_shift", &seeds, &slots))
}

/// Plans a node that averages two images with weights.
pub fn vxWeightedAverageNode(
    graph: u64,
    img1: u64,
    alpha: u64,
    img2: u64,
    output: u64,
) -> (r: Option<NodePlan>)
    ensures
        crate::construction::plan_value(r) == if graph == 0 || img1 == 0 || alpha == 0 || img2 == 0 || output == 0 {
            None
        } else {
            Some(
                crate::construction::plain_plan(
                    "org.khronos.openvx.weighted_average"@,
                    seq![img1, alpha, img2, output],
                ),
            )
        },
{
    if graph == 0 || img1 == 0 || alpha == 0 || img2 == 0 || output == 0 {
        return None;
    }
    let refs: Vec<u64> = vec![img1, alpha, img2, output];
    assert(refs@ =~= seq![img1, alpha, img2, output]);
    Some(create_node_with_params("org.khronos.openvx.weighted_average", &refs))
}

/// Plans a node that takes the distance of pixels.
pub fn vxAbsDiffNode(graph: u64, in1: u64, in2: u64, output: u64) -> (r: Option<NodePlan>)
    ensures
        crate::construction::plan_value(r) == if graph == 0 || in1 == 0 || in2 == 0 || output == 0 {
            None
        } else {
            Some(
                crate::construction::plain_plan(
                    "org.khronos.openvx.absdiff"@,
                    seq![in1, in2, output],
                ),
            )
        },
{
    if graph == 0 || in1 == 0 || in2 == 0 || output == 0 {
        return None;
    }
    let refs: Vec<u64> = vec![in1, in2, output];
    assert(refs@ =~= seq![in1, in2, output]);
    Some(create_node_with_params("org.khronos.openvx.absdiff", &refs))
}

/// Plans a node that takes an image apart into a Laplacian pyramid.
pub fn vxLaplacianPyramidNode(
    graph: u64,
    input: u64,
    laplacian: u64,
    output: u64,
) -> (r: Option<NodePlan>)
    ensures
        crate::construction::plan_value(r) == if graph == 0 || input == 0 || laplacian == 0 || output == 0 {
            None
        } else {
            Some(
                crate::construction::plain_plan(
                    "org.khronos.openvx.laplacian_pyramid"@,
                    seq![input, laplacian, output],
                ),
            )
        },
{
    if graph == 0 || input == 0 || laplacian == 0 || output == 0 {
        return None;
    }
    let refs: Vec<u64> = vec![input, laplacian, output];
    assert(refs@ =~= seq![input, laplacian, output]);
    Some(create_node_with_params("org.khronos.openvx.laplacian_pyramid", &refs))
}

/// Plans a node that puts an image together from a Laplacian pyramid.
pub fn vxLaplacianReconstructNode(
    graph: u64,
    laplacian: u64,
    input: u64,
    output: u64,
) -> (r: Option<NodePlan>)
    ensures
        crate::construction::plan_value(r) == if graph == 0 || laplacian == 0 || input == 0 || output == 0 {
            None
        } else {
            Some(
                crate::construction::plain_plan(
                    "org.khronos.openvx.laplacian_reconstruct"@,
                    seq![laplacian, input, output],
                ),
            )
        },
{
    if graph == 0 || laplacian == 0 || input == 0 || output == 0 {
        return None;
    }
    let refs: Vec<u64> = vec![laplacian, input, output];
    assert(refs@ =~= seq![laplacian, input, output]);
    Some(create_node_with_params("org.khronos.openvx.laplacian_reconstruct", &refs))
}

/// Plans a node that evens the histogram of an image.
pub fn vxEqualizeHistogramNode(graph: u64, input: u64, output: u64) -> (r: Option<NodePlan>)
    ensures
        crate::construction::plan_value(r) == if graph == 0 || input == 0 || output == 0 {
            None
        } else {
            Some(
                crate::construction::plain_plan(
                    "org.khronos.openvx.equalize_histogram"@,
                    seq![input, output],
                ),
            )
        },
{
    if graph == 0 || input == 0 || output == 0 {
        return None;
    }
    let refs: Vec<u64> = vec![input, output];
    assert(refs@ =~= seq![input, output]);
    Some(create_node_with_params("org.khronos.openvx.equalize_histogram", &refs))
}

/// Plans a node that makes a Gaussian pyramid.
pub fn vxGaussianPyramidNode(graph: u64, input: u64, output: u64) -> (r: Option<NodePlan>)
    ensures
        crate::construction::plan_value(r) == if graph == 0 || input == 0 || output == 0 {
            None
        } else {
            Some(
                crate::construction::plain_plan(
                    "org.khronos.openvx.gaussian_pyramid"@,
                    seq![input, output],
                ),
            )
        },
{
    if graph == 0 || input == 0 || output == 0 {
        return None;
    }
    let refs: Vec<u64> = vec![input, output];
    assert(refs@ =~= seq![input, output]);
    Some(create_node_with_params("org.khronos.openvx.gaussian_pyramid", &refs))
}

/// Plans a node that filters an image with a mask.
pub fn vxNonLinearFilterNode(
    graph: u64,
    function: vx_enum,
    input: u64,
    matrix: u64,
    output: u64,
) -> (r: Option<NodePlan>)
    ensures
        crate::construction::plan_value(r) == if graph == 0 || input == 0 || matrix == 0 || output == 0 {
            None
        } else {
            Some(
                crate::construction::seeded_plan(
                    "org.khronos.openvx.non_linear_filter"@,
                    seq![crate::construction::enum_seed(function)],
                    seq![
                        Source::Made(0),
                        Source::Given(input),
                        Source::Given(matrix),
                        Source::Given(output),
                    ],
                ),
            )
        },
{
    if graph == 0 || input == 0 || matrix == 0 || output == 0 {
        return None;
    }
    let seeds: Vec<Seed> = vec![seed_enum(function)];
    let slots: Vec<Source> = vec![Source::Made(0), Source::Given(input), Source::Given(matrix), Source::Given(output)];
    assert(seeds@ =~= seq![crate::construction::enum_seed(function)]);
    assert(slots@ =~= seq![Source::Made(0), Source::Given(input), Source::Given(matrix), Source::Given(output)]);
    Some(plan_with_scalars("org.khronos.openvx.non_linear_filter", &seeds, &slots))
}

/// Plans a node that compares pixels with a threshold.
pub fn vxThresholdNode(graph: u64, input: u64, thresh: u64, output: u64) -> (r: Option<NodePlan>)
    ensures
        crate::construction::plan_value(r) == if graph == 0 || input == 0 || thresh == 0 || output == 0 {
            None
        } else {
            Some(
                crate::construction::plain_plan(
                    "org.khronos.openvx.threshold"@,
                    seq![input, thresh, output],
                ),
            )
        },
{
    if graph == 0 || input == 0 || thresh == 0 || output == 0 {
        return None;
    }
    let refs: Vec<u64> = vec![input, thresh, output];
    assert(refs@ =~= seq![input, thresh, output]);
    Some(create_node_with_params("org.khronos.openvx.threshold", &refs))
}

/// Plans a node that combines the bits of pixels with and.
pub fn vxAndNode(graph: u64, in1: u64, in2: u64, output: u64) -> (r: Option<NodePlan>)
    ensures
        crate::construction::plan_value(r) == if graph == 0 || in1 == 0 || in2 == 0 || output == 0 {
            None
        } else {
            Some(
                crate::construction::plain_plan(
                    "org.khronos.openvx.and"@,
                    seq![in1, in2, output],
                ),
            )
        },
{
    if graph == 0 || in1 == 0 || in2 == 0 || output == 0 {
        return None;
    }
    let refs: Vec<u64> = vec![in1, in2, output];
    assert(refs@ =~= seq![in1, in2, output]);
    Some(create_node_with_params("org.khronos.openvx.and", &refs))
}

/// Plans a node that combines the bits of pixels with or.
pub fn vxOrNode(graph: u64, in1: u64, in2: u64, output: u64) -> (r: Option<NodePlan>)
    ensures
        crate::construction::plan_value(r) == if graph == 0 || in1 == 0 || in2 == 0 || output == 0 {
            None
        } else {
            Some(
                crate::construction::plain_plan(
                    "org.khronos.openvx.or"@,
                    seq![in1, in2, output],
                ),
            )
        },
{
    if graph == 0 || in1 == 0 || in2 == 0 || output == 0 {
        return None;
    }
    let refs: Vec<u64> = vec![in1, in2, output];
    assert(refs@ =~= seq![in1, in2, output]);
    Some(create_node_with_params("org.khronos.openvx.or", &refs))
}

/// Plans a node that combines the bits of pixels with xor.
pub fn vxXorNode(graph: u64, in1: u64, in2: u64, output: u64) -> (r: Option<NodePlan>)
    ensures
        crate::construction::plan_value(r) == if graph == 0 || in1 == 0 || in2 == 0 || output == 0 {
            None
        } else {
            Some(
                crate::construction::plain_plan(
                    "org.khronos.openvx.xor"@,
                    seq![in1, in2, output],
                ),
            )
        },
{
    if graph == 0 || in1 == 0 || in2 == 0 || output == 0 {
        return None;
    }
    let refs: Vec<u64> = vec![in1, in2, output];
    assert(refs@ =~= seq![in1, in2, output]);
    Some(create_node_with_params("org.khronos.openvx.xor", &refs))
}

/// Plans a node that looks pixels up in a table.
pub fn vxTableLookupNode(graph: u64, input: u64, lut: u64, output: u64) -> (r: Option<NodePlan>)
    ensures
        crate::construction::plan_value(r) == if graph == 0 || input == 0 || lut == 0 || output == 0 {
            None
        } else {
            Some(
                crate::construction::plain_plan(
                    "org.khronos.openvx.table_lookup"@,
                    seq![input, lut, output],
                ),
            )
        },
{
    if graph == 0 || input == 0 || lut == 0 || output == 0 {
        return None;
    }
    let refs: Vec<u64> = vec![input, lut, output];
    assert(refs@ =~= seq![input, lut, output]);
    Some(create_node_with_params("org.khronos.openvx.table_lookup", &refs))
}

/// Plans a node that looks for a template.
pub fn vxMatchTemplateNode(
    graph: u64,
    src: u64,
    templ: u64,
    matching_method: vx_enum,
    output: u64,
) -> (r: Option<NodePlan>)
    ensures
        crate::construction::plan_value(r) == if graph == 0 || src == 0 || templ == 0 || output == 0 {
            None
        } else {
            Some(
                crate::construction::seeded_plan(
                    "org.khronos.openvx.match_template"@,
                    seq![crate::construction::enum_seed(matching_method)],
                    seq![
                        Source::Given(src),
                        Source::Given(templ),
                        Source::Made(0),
                        Source::Given(output),
                    ],
                ),
            )
        },
{
    if graph == 0 || src == 0 || templ == 0 || output == 0 {
        return None;
    }
    let seeds: Vec<Seed> = vec![seed_enum(matching_method)];
    let slots: Vec<Source> = vec![Source::Given(src), Source::Given(templ), Source::Made(0), Source::Given(output)];
    assert(seeds@ =~= seq![crate::construction::enum_seed(matching_method)]);
    assert(slots@ =~= seq![Source::Given(src), Source::Given(templ), Source::Made(0), Source::Given(output)]);
    Some(plan_with_scalars("org.khronos.openvx.match_template", &seeds, &slots))
}

/// Plans a node that keeps only the largest pixels of a window.  The mask may be
/// missing.
pub fn vxNonMaxSuppressionNode(
    graph: u64,
    input: u64,
    mask: u64,
    win_size: i32,
    output: u64,
) -> (r: Option<NodePlan>)
    ensures
        crate::construction::plan_value(r) == if graph == 0 || input == 0 || output == 0 {
            None
        } else {
            Some(
                crate::construction::seeded_plan(
                    "org.khronos.openvx.non_max_suppression"@,
                    seq![
                        crate::construction::word_seed(VX_TYPE_INT32, crate::scalar::bits32(win_size)),
                    ],
                    seq![
                        Source::Given(input),
                        Source::Given(mask),
                        Source::Made(0),
                        Source::Given(output),
                    ],
                ),
            )
        },
{
    if graph == 0 || input == 0 || output == 0 {
        return None;
    }
    let seeds: Vec<Seed> = vec![seed_word(VX_TYPE_INT32, to_bits32(win_size))];
    let slots: Vec<Source> = vec![Source::Given(input), Source::Given(mask), Source::Made(0), Source::Given(output)];
    assert(seeds@ =~= seq![crate::construction::word_seed(VX_TYPE_INT32, crate::scalar::bits32(win_size))]);
    assert(slots@ =~= seq![Source::Given(input), Source::Given(mask), Source::Made(0), Source::Given(output)]);
    Some(plan_with_scalars("org.khronos.openvx.non_max_suppression", &seeds, &slots))
}

/// Plans a node that combines two scalars.
pub fn vxScalarOperationNode(
    graph: u64,
    op: vx_enum,
    a: u64,
    b: u64,
    output: u64,
) -> (r: Option<NodePlan>)
    ensures
        crate::construction::plan_value(r) == if graph == 0 || a == 0 || b == 0 || output == 0 {
            None
        } else {
            Some(
                crate::construction::seeded_plan(
                    "org.khronos.openvx.scalar_operation"@,
                    seq![crate::construction::enum_seed(op)],
                    seq![
                        Source::Given(a),
                        Source::Given(b),
                        Source::Made(0),
                        Source::Given(output),
                    ],
                ),
            )
        },
{
    if graph == 0 || a == 0 || b == 0 || output == 0 {
        return None;
    }
    let seeds: Vec<Seed> = vec![seed_enum(op)];
    let slots: Vec<Source> = vec![Source::Given(a), Source::Given(b), Source::Made(0), Source::Given(output)];
    assert(seeds@ =~= seq![crate::construction::enum_seed(op)]);
    assert(slots@ =~= seq![Source::Given(a), Source::Given(b), Source::Made(0), Source::Given(output)]);
    Some(plan_with_scalars("org.khronos.openvx.scalar_operation", &seeds, &slots))
}

/// Plans a node that copies one of two objects.
pub fn vxSelectNode(
    graph: u64,
    condition: u64,
    true_value: u64,
    false_value: u64,
    output: u64,
) -> (r: Option<NodePlan>)
    ensures
        crate::construction::plan_value(r) == if graph == 0 || condition == 0 || true_value == 0 || false_value == 0
            || output == 0 {
            None
        } else {
            Some(
                crate::construction::plain_plan(
                    "org.khronos.openvx.select"@,
                    seq![condition, true_value, false_value, output],
                ),
            )
        },
{
    if graph == 0 || condition == 0 || true_value == 0 || false_value == 0 || output == 0 {
        return None;
    }
    let refs: Vec<u64> = vec![condition, true_value, false_value, output];
    assert(refs@ =~= seq![condition, true_value, false_value, output]);
    Some(create_node_with_params("org.khronos.openvx.select", &refs))
}

/// Plans a node that takes local binary patterns.
pub fn vxLBPNode(
    graph: u64,
    input: u64,
    format: vx_enum,
    kernel_size: i8,
    output: u64,
) -> (r: Option<NodePlan>)
    ensures
        crate::construction::plan_value(r) == if graph == 0 || input == 0 || output == 0 {
            None
        } else {
            Some(
                crate::construction::seeded_plan(
                    "org.khronos.openvx.lbp"@,
                    seq![crate::construction::enum_seed(format), small_seed(kernel_size)],
                    seq![
                        Source::Given(input),
                        Source::Made(0),
                        Source::Made(1),
                        Source::Given(output),
                    ],
                ),
            )
        },
{
    if graph == 0 || input == 0 || output == 0 {
        return None;
    }
    let seeds: Vec<Seed> = vec![seed_enum(format), seed_small(kernel_size)];
    let slots: Vec<Source> = vec![Source::Given(input), Source::Made(0), Source::Made(1), Source::Given(output)];
    assert(seeds@ =~= seq![crate::construction::enum_seed(format), small_seed(kernel_size)]);
    assert(slots@ =~= seq![Source::Given(input), Source::Made(0), Source::Made(1), Source::Given(output)]);
    Some(plan_with_scalars("org.khronos.openvx.lbp", &seeds, &slots))
}

} // verus!
