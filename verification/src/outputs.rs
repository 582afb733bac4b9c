//! Which parameters of a kernel are outputs.
use vstd::prelude::*;
use crate::records::UserKernelParam;
use crate::types::VX_OUTPUT;

verus! {

/// A run of output parameters.
#[derive(Debug, Clone, Copy, PartialEq, Eq, Structural)]
pub struct OutputSpan {
    pub first: usize,
    pub last: usize,
}

/// The output parameters of a built-in kernel, by its registered name.
pub open spec fn outputs_of(name: Seq<char>) -> Option<OutputSpan> {
    if name == "org.khronos.openvx.color_convert"@
        || name == "org.khronos.openvx.gaussian_3x3"@
        || name == "org.khronos.openvx.gaussian_5x5"@
        || name == "org.khronos.openvx.box_3x3"@
        || name == "org.khronos.openvx.median_3x3"@
        || name == "org.khronos.openvx.dilate_3x3"@
        || name == "org.khronos.openvx.erode_3x3"@
        || name == "org.khronos.openvx.dilate_5x5"@
        || name == "org.khronos.openvx.erode_5x5"@
        || name == "org.khronos.openvx.not"@
        || name == "org.khronos.openvx.integral_image"@
        || name == "org.khronos.openvx.histogram"@
        || name == "org.khronos.openvx.equalize_histogram"@
        || name == "org.khronos.openvx.gaussian_pyramid"@
        || name == "org.khronos.openvx.laplacian_pyramid"@
        || name == "org.khronos.openvx.copy"@
        || name == "org.khronos.openvx.convertdepth"@ {
        Some(OutputSpan { first: 1, last: 1 })
    } else if name == "org.khronos.openvx.channel_extract"@
        || name == "org.khronos.openvx.absdiff"@
        || name == "org.khronos.openvx.magnitude"@
        || name == "org.khronos.openvx.phase"@
        || name == "org.khronos.openvx.scale_image"@
        || name == "org.khronos.openvx.and"@
        || name == "org.khronos.openvx.or"@
        || name == "org.khronos.openvx.xor"@
        || name == "org.khronos.openvx.threshold"@
        || name == "org.khronos.openvx.table_lookup"@
        || name == "org.khronos.openvx.convolve"@
        || name == "org.khronos.openvx.custom_convolution"@
        || name == "org.khronos.openvx.laplacian_reconstruct"@
        || name == "org.khronos.openvx.min"@
        || name == "org.khronos.openvx.max"@
        || name == "org.khronos.openvx.halfscale_gaussian"@ {
        Some(OutputSpan { first: 2, last: 2 })
    } else if name == "org.khronos.openvx.sobel_3x3"@ {
        Some(OutputSpan { first: 1, last: 2 })
    } else if name == "org.khronos.openvx.non_linear_filter"@
        || name == "org.khronos.openvx.non_max_suppression"@
        || name == "org.khronos.openvx.match_template"@
        || name == "org.khronos.openvx.lbp"@
        || name == "org.khronos.openvx.add"@
        || name == "org.khronos.openvx.subtract"@
        || name == "org.khronos.openvx.warp_affine"@
        || name == "org.khronos.openvx.warp_perspective"@
        || name == "org.khronos.openvx.remap"@
        || name == "org.khronos.openvx.weighted_average"@ {
        Some(OutputSpan { first: 3, last: 3 })
    } else if name == "org.khronos.openvx.hough_lines_p"@
        || name == "org.khronos.openvx.harris_corners"@ {
        Some(OutputSpan { first: 6, last: 7 })
    } else if name == "org.khronos.openvx.hog_cells"@ {
        Some(OutputSpan { first: 4, last: 5 })
    } else if name == "org.khronos.openvx.hog_features"@
        || name == "org.khronos.openvx.multiply"@ {
        Some(OutputSpan { first: 5, last: 5 })
    } else if name == "org.khronos.openvx.bilateral_filter"@
        || name == "org.khronos.openvx.channel_combine"@
        || name == "org.khronos.openvx.canny_edge_detector"@
        || name == "org.khronos.openvx.optical_flow_pyr_lk"@ {
        Some(OutputSpan { first: 4, last: 4 })
    } else if name == "org.khronos.openvx.mean_stddev"@ {
        Some(OutputSpan { first: 2, last: 3 })
    } else if name == "org.khronos.openvx.fast_corners"@ {
        Some(OutputSpan { first: 3, last: 4 })
    } else if name == "org.khronos.openvx.minmaxloc"@ {
        Some(OutputSpan { first: 1, last: 6 })
    } else {
        None
    }
}

/// Whether a parameter of a kernel is an output: a built-in kernel says so by
/// its name, a user kernel by its declared parameters, and any other kernel
/// reads its first parameter and writes the others.
pub open spec fn is_output(
    name: Seq<char>,
    declared: Option<Seq<UserKernelParam>>,
    index: int,
) -> bool {
    match outputs_of(name) {
        Some(span) => span.first <= index <= span.last,
        None => match declared {
            Some(params) => 0 <= index < params.len() && params[index].direction == VX_OUTPUT,
            None => index > 0,
        },
    }
}

/// Finds the output parameters of a built-in kernel.
pub fn builtin_outputs(name: &str) -> (r: Option<OutputSpan>)
    ensures
        r == outputs_of(name@),
{
    let name = name.to_owned();
    if name == "org.khronos.openvx.color_convert".to_owned() {
        return Some(OutputSpan { first: 1, last: 1 });
    }
    if name == "org.khronos.openvx.gaussian_3x3".to_owned() {
        return Some(OutputSpan { first: 1, last: 1 });
    }
    if name == "org.khronos.openvx.gaussian_5x5".to_owned() {
        return Some(OutputSpan { first: 1, last: 1 });
    }
    if name == "org.khronos.openvx.box_3x3".to_owned() {
        return Some(OutputSpan { first: 1, last: 1 });
    }
    if name == "org.khronos.openvx.median_3x3".to_owned() {
        return Some(OutputSpan { first: 1, last: 1 });
    }
    if name == "org.khronos.openvx.dilate_3x3".to_owned() {
        return Some(OutputSpan { first: 1, last: 1 });
    }
    if name == "org.khronos.openvx.erode_3x3".to_owned() {
        return Some(OutputSpan { first: 1, last: 1 });
    }
    if name == "org.khronos.openvx.dilate_5x5".to_owned() {
        return Some(OutputSpan { first: 1, last: 1 });
    }
    if name == "org.khronos.openvx.erode_5x5".to_owned() {
        return Some(OutputSpan { first: 1, last: 1 });
    }
    if name == "org.khronos.openvx.not".to_owned() {
        return Some(OutputSpan { first: 1, last: 1 });
    }
    if name == "org.khronos.openvx.integral_image".to_owned() {
        return Some(OutputSpan { first: 1, last: 1 });
    }
    if name == "org.khronos.openvx.histogram".to_owned() {
        return Some(OutputSpan { first: 1, last: 1 });
    }
    if name == "org.khronos.openvx.equalize_histogram".to_owned() {
        return Some(OutputSpan { first: 1, last: 1 });
    }
    if name == "org.khronos.openvx.gaussian_pyramid".to_owned() {
        return Some(OutputSpan { first: 1, last: 1 });
    }
    if name == "org.khronos.openvx.laplacian_pyramid".to_owned() {
        return Some(OutputSpan { first: 1, last: 1 });
    }
    if name == "org.khronos.openvx.copy".to_owned() {
        return Some(OutputSpan { first: 1, last: 1 });
    }
    if name == "org.khronos.openvx.convertdepth".to_owned() {
        return Some(OutputSpan { first: 1, last: 1 });
    }
    if name == "org.khronos.openvx.channel_extract".to_owned() {
        return Some(OutputSpan { first: 2, last: 2 });
    }
    if name == "org.khronos.openvx.absdiff".to_owned() {
        return Some(OutputSpan { first: 2, last: 2 });
    }
    if name == "org.khronos.openvx.magnitude".to_owned() {
        return Some(OutputSpan { first: 2, last: 2 });
    }
    if name == "org.khronos.openvx.phase".to_owned() {
        return Some(OutputSpan { first: 2, last: 2 });
    }
    if name == "org.khronos.openvx.scale_image".to_owned() {
        return Some(OutputSpan { first: 2, last: 2 });
    }
    if name == "org.khronos.openvx.and".to_owned() {
        return Some(OutputSpan { first: 2, last: 2 });
    }
    if name == "org.khronos.openvx.or".to_owned() {
        return Some(OutputSpan { first: 2, last: 2 });
    }
    if name == "org.khronos.openvx.xor".to_owned() {
        return Some(OutputSpan { first: 2, last: 2 });
    }
    if name == "org.khronos.openvx.threshold".to_owned() {
        return Some(OutputSpan { first: 2, last: 2 });
    }
    if name == "org.khronos.openvx.table_lookup".to_owned() {
        return Some(OutputSpan { first: 2, last: 2 });
    }
    if name == "org.khronos.openvx.convolve".to_owned() {
        return Some(OutputSpan { first: 2, last: 2 });
    }
    if name == "org.khronos.openvx.custom_convolution".to_owned() {
        return Some(OutputSpan { first: 2, last: 2 });
    }
    if name == "org.khronos.openvx.laplacian_reconstruct".to_owned() {
        return Some(OutputSpan { first: 2, last: 2 });
    }
    if name == "org.khronos.openvx.min".to_owned() {
        return Some(OutputSpan { first: 2, last: 2 });
    }
    if name == "org.khronos.openvx.max".to_owned() {
        return Some(OutputSpan { first: 2, last: 2 });
    }
    if name == "org.khronos.openvx.halfscale_gaussian".to_owned() {
        return Some(OutputSpan { first: 2, last: 2 });
    }
    if name == "org.khronos.openvx.sobel_3x3".to_owned() {
        return Some(OutputSpan { first: 1, last: 2 });
    }
    if name == "org.khronos.openvx.non_linear_filter".to_owned() {
        return Some(OutputSpan { first: 3, last: 3 });
    }
    if name == "org.khronos.openvx.non_max_suppression".to_owned() {
        return Some(OutputSpan { first: 3, last: 3 });
    }
    if name == "org.khronos.openvx.match_template".to_owned() {
        return Some(OutputSpan { first: 3, last: 3 });
    }
    if name == "org.khronos.openvx.lbp".to_owned() {
        return Some(OutputSpan { first: 3, last: 3 });
    }
    if name == "org.khronos.openvx.add".to_owned() {
        return Some(OutputSpan { first: 3, last: 3 });
    }
    if name == "org.khronos.openvx.subtract".to_owned() {
        return Some(OutputSpan { first: 3, last: 3 });
    }
    if name == "org.khronos.openvx.warp_affine".to_owned() {
        return Some(OutputSpan { first: 3, last: 3 });
    }
    if name == "org.khronos.openvx.warp_perspective".to_owned() {
        return Some(OutputSpan { first: 3, last: 3 });
    }
    if name == "org.khronos.openvx.remap".to_owned() {
        return Some(OutputSpan { first: 3, last: 3 });
    }
    if name == "org.khronos.openvx.weighted_average".to_owned() {
        return Some(OutputSpan { first: 3, last: 3 });
    }
    if name == "org.khronos.openvx.hough_lines_p".to_owned() {
        return Some(OutputSpan { first: 6, last: 7 });
    }
    if name == "org.khronos.openvx.harris_corners".to_owned() {
        return Some(OutputSpan { first: 6, last: 7 });
    }
    if name == "org.khronos.openvx.hog_cells".to_owned() {
        return Some(OutputSpan { first: 4, last: 5 });
    }
    if name == "org.khronos.openvx.hog_features".to_owned() {
        return Some(OutputSpan { first: 5, last: 5 });
    }
    if name == "org.khronos.openvx.multiply".to_owned() {
        return Some(OutputSpan { first: 5, last: 5 });
    }
    if name == "org.khronos.openvx.bilateral_filter".to_owned() {
        return Some(OutputSpan { first: 4, last: 4 });
    }
    if name == "org.khronos.openvx.channel_combine".to_owned() {
        return Some(OutputSpan { first: 4, last: 4 });
    }
    if name == "org.khronos.openvx.canny_edge_detector".to_owned() {
        return Some(OutputSpan { first: 4, last: 4 });
    }
    if name == "org.khronos.openvx.optical_flow_pyr_lk".to_owned() {
        return Some(OutputSpan { first: 4, last: 4 });
    }
    if name == "org.khronos.openvx.mean_stddev".to_owned() {
        return Some(OutputSpan { first: 2, last: 3 });
    }
    if name == "org.khronos.openvx.fast_corners".to_owned() {
        return Some(OutputSpan { first: 3, last: 4 });
    }
    if name == "org.khronos.openvx.minmaxloc".to_owned() {
        return Some(OutputSpan { first: 1, last: 6 });
    }
    None
}

/// Whether a parameter is an output, given what is known of its kernel.
pub fn parameter_is_output(
    builtin: Option<OutputSpan>,
    declared: Option<&Vec<UserKernelParam>>,
    index: usize,
) -> (r: bool)
    ensures
        r == match builtin {
            Some(span) => span.first <= index <= span.last,
            None => match declared {
                Some(params) => index < params@.len() && params@[index as int].direction
                    == VX_OUTPUT,
                None => index > 0,
            },
        },
{
    match builtin {
        Some(span) => span.first <= index && index <= span.last,
        None => match declared {
            Some(params) => index < params.len() && params[index].direction == VX_OUTPUT,
            None => index > 0,
        },
    }
}

/// Where the results of each built-in kernel stand among its parameters,
/// whatever a user kernel of the same name would declare: a routine with one
/// input writes its second parameter, one with two inputs its third, and so on.
#[verifier::spinoff_prover]
#[verifier::rlimit(60)]
pub proof fn law_outputs_of_built_in_kernels(declared: Option<Seq<UserKernelParam>>, i: int)
    ensures
        is_output("org.khronos.openvx.color_convert"@, declared, i) <==> i == 1,
        is_output("org.khronos.openvx.gaussian_3x3"@, declared, i) <==> i == 1,
        is_output("org.khronos.openvx.gaussian_5x5"@, declared, i) <==> i == 1,
        is_output("org.khronos.openvx.box_3x3"@, declared, i) <==> i == 1,
        is_output("org.khronos.openvx.median_3x3"@, declared, i) <==> i == 1,
        is_output("org.khronos.openvx.dilate_3x3"@, declared, i) <==> i == 1,
        is_output("org.khronos.openvx.erode_3x3"@, declared, i) <==> i == 1,
        is_output("org.khronos.openvx.dilate_5x5"@, declared, i) <==> i == 1,
        is_output("org.khronos.openvx.erode_5x5"@, declared, i) <==> i == 1,
        is_output("org.khronos.openvx.not"@, declared, i) <==> i == 1,
        is_output("org.khronos.openvx.integral_image"@, declared, i) <==> i == 1,
        is_output("org.khronos.openvx.histogram"@, declared, i) <==> i == 1,
        is_output("org.khronos.openvx.equalize_histogram"@, declared, i) <==> i == 1,
        is_output("org.khronos.openvx.gaussian_pyramid"@, declared, i) <==> i == 1,
        is_output("org.khronos.openvx.laplacian_pyramid"@, declared, i) <==> i == 1,
        is_output("org.khronos.openvx.copy"@, declared, i) <==> i == 1,
        is_output("org.khronos.openvx.convertdepth"@, declared, i) <==> i == 1,
        is_output("org.khronos.openvx.channel_extract"@, declared, i) <==> i == 2,
        is_output("org.khronos.openvx.absdiff"@, declared, i) <==> i == 2,
        is_output("org.khronos.openvx.magnitude"@, declared, i) <==> i == 2,
        is_output("org.khronos.openvx.phase"@, declared, i) <==> i == 2,
        is_output("org.khronos.openvx.scale_image"@, declared, i) <==> i == 2,
        is_output("org.khronos.openvx.and"@, declared, i) <==> i == 2,
        is_output("org.khronos.openvx.or"@, declared, i) <==> i == 2,
        is_output("org.khronos.openvx.xor"@, declared, i) <==> i == 2,
        is_output("org.khronos.openvx.threshold"@, declared, i) <==> i == 2,
        is_output("org.khronos.openvx.table_lookup"@, declared, i) <==> i == 2,
        is_output("org.khronos.openvx.convolve"@, declared, i) <==> i == 2,
        is_output("org.khronos.openvx.custom_convolution"@, declared, i) <==> i == 2,
        is_output("org.khronos.openvx.laplacian_reconstruct"@, declared, i) <==> i == 2,
        is_output("org.khronos.openvx.min"@, declared, i) <==> i == 2,
        is_output("org.khronos.openvx.max"@, declared, i) <==> i == 2,
        is_output("org.khronos.openvx.halfscale_gaussian"@, declared, i) <==> i == 2,
        is_output("org.khronos.openvx.sobel_3x3"@, declared, i) <==> 1 <= i <= 2,
        is_output("org.khronos.openvx.non_linear_filter"@, declared, i) <==> i == 3,
        is_output("org.khronos.openvx.non_max_suppression"@, declared, i) <==> i == 3,
        is_output("org.khronos.openvx.match_template"@, declared, i) <==> i == 3,
        is_output("org.khronos.openvx.lbp"@, declared, i) <==> i == 3,
        is_output("org.khronos.openvx.add"@, declared, i) <==> i == 3,
        is_output("org.khronos.openvx.subtract"@, declared, i) <==> i == 3,
        is_output("org.khronos.openvx.warp_affine"@, declared, i) <==> i == 3,
        is_output("org.khronos.openvx.warp_perspective"@, declared, i) <==> i == 3,
        is_output("org.khronos.openvx.remap"@, declared, i) <==> i == 3,
        is_output("org.khronos.openvx.weighted_average"@, declared, i) <==> i == 3,
        is_output("org.khronos.openvx.hough_lines_p"@, declared, i) <==> 6 <= i <= 7,
        is_output("org.khronos.openvx.harris_corners"@, declared, i) <==> 6 <= i <= 7,
        is_output("org.khronos.openvx.hog_cells"@, declared, i) <==> 4 <= i <= 5,
        is_output("org.khronos.openvx.hog_features"@, declared, i) <==> i == 5,
        is_output("org.khronos.openvx.multiply"@, declared, i) <==> i == 5,
        is_output("org.khronos.openvx.bilateral_filter"@, declared, i) <==> i == 4,
        is_output("org.khronos.openvx.channel_combine"@, declared, i) <==> i == 4,
        is_output("org.khronos.openvx.canny_edge_detector"@, declared, i) <==> i == 4,
        is_output("org.khronos.openvx.optical_flow_pyr_lk"@, declared, i) <==> i == 4,
        is_output("org.khronos.openvx.mean_stddev"@, declared, i) <==> 2 <= i <= 3,
        is_output("org.khronos.openvx.fast_corners"@, declared, i) <==> 3 <= i <= 4,
        is_output("org.khronos.openvx.minmaxloc"@, declared, i) <==> 1 <= i <= 6,
{
    reveal_strlit("org.khronos.openvx.color_convert");
    assert("org.khronos.openvx.color_convert"@.len() == 32
        && "org.khronos.openvx.color_convert"@[19] == 'c'
        && "org.khronos.openvx.color_convert"@[20] == 'o'
        && "org.khronos.openvx.color_convert"@[28] == 'v');
    reveal_strlit("org.khronos.openvx.gaussian_3x3");
    assert("org.khronos.openvx.gaussian_3x3"@.len() == 31
        && "org.khronos.openvx.gaussian_3x3"@[19] == 'g'
        && "org.khronos.openvx.gaussian_3x3"@[20] == 'a'
        && "org.khronos.openvx.gaussian_3x3"@[28] == '3');
    reveal_strlit("org.khronos.openvx.gaussian_5x5");
    assert("org.khronos.openvx.gaussian_5x5"@.len() == 31
        && "org.khronos.openvx.gaussian_5x5"@[19] == 'g'
        && "org.khronos.openvx.gaussian_5x5"@[20] == 'a'
        && "org.khronos.openvx.gaussian_5x5"@[28] == '5');
    reveal_strlit("org.khronos.openvx.box_3x3");
    assert("org.khronos.openvx.box_3x3"@.len() == 26
        && "org.khronos.openvx.box_3x3"@[19] == 'b'
        && "org.khronos.openvx.box_3x3"@[20] == 'o');
    reveal_strlit("org.khronos.openvx.median_3x3");
    assert("org.khronos.openvx.median_3x3"@.len() == 29
        && "org.khronos.openvx.median_3x3"@[19] == 'm'
        && "org.khronos.openvx.median_3x3"@[20] == 'e'
        && "org.khronos.openvx.median_3x3"@[28] == '3');
    reveal_strlit("org.khronos.openvx.dilate_3x3");
    assert("org.khronos.openvx.dilate_3x3"@.len() == 29
        && "org.khronos.openvx.dilate_3x3"@[19] == 'd'
        && "org.khronos.openvx.dilate_3x3"@[20] == 'i'
        && "org.khronos.openvx.dilate_3x3"@[28] == '3');
    reveal_strlit("org.khronos.openvx.erode_3x3");
    assert("org.khronos.openvx.erode_3x3"@.len() == 28
        && "org.khronos.openvx.erode_3x3"@[19] == 'e'
        && "org.khronos.openvx.erode_3x3"@[20] == 'r');
    reveal_strlit("org.khronos.openvx.dilate_5x5");
    assert("org.khronos.openvx.dilate_5x5"@.len() == 29
        && "org.khronos.openvx.dilate_5x5"@[19] == 'd'
        && "org.khronos.openvx.dilate_5x5"@[20] == 'i'
        && "org.khronos.openvx.dilate_5x5"@[28] == '5');
    reveal_strlit("org.khronos.openvx.erode_5x5");
    assert("org.khronos.openvx.erode_5x5"@.len() == 28
        && "org.khronos.openvx.erode_5x5"@[19] == 'e'
        && "org.khronos.openvx.erode_5x5"@[20] == 'r');
    reveal_strlit("org.khronos.openvx.not");
    assert("org.khronos.openvx.not"@.len() == 22
        && "org.khronos.openvx.not"@[19] == 'n'
        && "org.khronos.openvx.not"@[20] == 'o');
    reveal_strlit("org.khronos.openvx.integral_image");
    assert("org.khronos.openvx.integral_image"@.len() == 33
        && "org.khronos.openvx.integral_image"@[19] == 'i'
        && "org.khronos.openvx.integral_image"@[20] == 'n'
        && "org.khronos.openvx.integral_image"@[28] == 'i');
    reveal_strlit("org.khronos.openvx.histogram");
    assert("org.khronos.openvx.histogram"@.len() == 28
        && "org.khronos.openvx.histogram"@[19] == 'h'
        && "org.khronos.openvx.histogram"@[20] == 'i');
    reveal_strlit("org.khronos.openvx.equalize_histogram");
    assert("org.khronos.openvx.equalize_histogram"@.len() == 37
        && "org.khronos.openvx.equalize_histogram"@[19] == 'e'
        && "org.khronos.openvx.equalize_histogram"@[20] == 'q'
        && "org.khronos.openvx.equalize_histogram"@[28] == 'h');
    reveal_strlit("org.khronos.openvx.gaussian_pyramid");
    assert("org.khronos.openvx.gaussian_pyramid"@.len() == 35
        && "org.khronos.openvx.gaussian_pyramid"@[19] == 'g'
        && "org.khronos.openvx.gaussian_pyramid"@[20] == 'a'
        && "org.khronos.openvx.gaussian_pyramid"@[28] == 'p');
    reveal_strlit("org.khronos.openvx.laplacian_pyramid");
    assert("org.khronos.openvx.laplacian_pyramid"@.len() == 36
        && "org.khronos.openvx.laplacian_pyramid"@[19] == 'l'
        && "org.khronos.openvx.laplacian_pyramid"@[20] == 'a'
        && "org.khronos.openvx.laplacian_pyramid"@[28] == '_');
    reveal_strlit("org.khronos.openvx.copy");
    assert("org.khronos.openvx.copy"@.len() == 23
        && "org.khronos.openvx.copy"@[19] == 'c'
        && "org.khronos.openvx.copy"@[20] == 'o');
    reveal_strlit("org.khronos.openvx.convertdepth");
    assert("org.khronos.openvx.convertdepth"@.len() == 31
        && "org.khronos.openvx.convertdepth"@[19] == 'c'
        && "org.khronos.openvx.convertdepth"@[20] == 'o'
        && "org.khronos.openvx.convertdepth"@[28] == 'p');
    reveal_strlit("org.khronos.openvx.channel_extract");
    assert("org.khronos.openvx.channel_extract"@.len() == 34
        && "org.khronos.openvx.channel_extract"@[19] == 'c'
        && "org.khronos.openvx.channel_extract"@[20] == 'h'
        && "org.khronos.openvx.channel_extract"@[28] == 'x');
    reveal_strlit("org.khronos.openvx.absdiff");
    assert("org.khronos.openvx.absdiff"@.len() == 26
        && "org.khronos.openvx.absdiff"@[19] == 'a'
        && "org.khronos.openvx.absdiff"@[20] == 'b');
    reveal_strlit("org.khronos.openvx.magnitude");
    assert("org.khronos.openvx.magnitude"@.len() == 28
        && "org.khronos.openvx.magnitude"@[19] == 'm'
        && "org.khronos.openvx.magnitude"@[20] == 'a');
    reveal_strlit("org.khronos.openvx.phase");
    assert("org.khronos.openvx.phase"@.len() == 24
        && "org.khronos.openvx.phase"@[19] == 'p'
        && "org.khronos.openvx.phase"@[20] == 'h');
    reveal_strlit("org.khronos.openvx.scale_image");
    assert("org.khronos.openvx.scale_image"@.len() == 30
        && "org.khronos.openvx.scale_image"@[19] == 's'
        && "org.khronos.openvx.scale_image"@[20] == 'c'
        && "org.khronos.openvx.scale_image"@[28] == 'g');
    reveal_strlit("org.khronos.openvx.and");
    assert("org.khronos.openvx.and"@.len() == 22
        && "org.khronos.openvx.and"@[19] == 'a'
        && "org.khronos.openvx.and"@[20] == 'n');
    reveal_strlit("org.khronos.openvx.or");
    assert("org.khronos.openvx.or"@.len() == 21
        && "org.khronos.openvx.or"@[19] == 'o'
        && "org.khronos.openvx.or"@[20] == 'r');
    reveal_strlit("org.khronos.openvx.xor");
    assert("org.khronos.openvx.xor"@.len() == 22
        && "org.khronos.openvx.xor"@[19] == 'x'
        && "org.khronos.openvx.xor"@[20] == 'o');
    reveal_strlit("org.khronos.openvx.threshold");
    assert("org.khronos.openvx.threshold"@.len() == 28
        && "org.khronos.openvx.threshold"@[19] == 't'
        && "org.khronos.openvx.threshold"@[20] == 'h');
    reveal_strlit("org.khronos.openvx.table_lookup");
    assert("org.khronos.openvx.table_lookup"@.len() == 31
        && "org.khronos.openvx.table_lookup"@[19] == 't'
        && "org.khronos.openvx.table_lookup"@[20] == 'a'
        && "org.khronos.openvx.table_lookup"@[28] == 'k');
    reveal_strlit("org.khronos.openvx.convolve");
    assert("org.khronos.openvx.convolve"@.len() == 27
        && "org.khronos.openvx.convolve"@[19] == 'c'
        && "org.khronos.openvx.convolve"@[20] == 'o');
    reveal_strlit("org.khronos.openvx.custom_convolution");
    assert("org.khronos.openvx.custom_convolution"@.len() == 37
        && "org.khronos.openvx.custom_convolution"@[19] == 'c'
        && "org.khronos.openvx.custom_convolution"@[20] == 'u'
        && "org.khronos.openvx.custom_convolution"@[28] == 'n');
    reveal_strlit("org.khronos.openvx.laplacian_reconstruct");
    assert("org.khronos.openvx.laplacian_reconstruct"@.len() == 40
        && "org.khronos.openvx.laplacian_reconstruct"@[19] == 'l'
        && "org.khronos.openvx.laplacian_reconstruct"@[20] == 'a'
        && "org.khronos.openvx.laplacian_reconstruct"@[28] == '_');
    reveal_strlit("org.khronos.openvx.min");
    assert("org.khronos.openvx.min"@.len() == 22
        && "org.khronos.openvx.min"@[19] == 'm'
        && "org.khronos.openvx.min"@[20] == 'i');
    reveal_strlit("org.khronos.openvx.max");
    assert("org.khronos.openvx.max"@.len() == 22
        && "org.khronos.openvx.max"@[19] == 'm'
        && "org.khronos.openvx.max"@[20] == 'a');
    reveal_strlit("org.khronos.openvx.halfscale_gaussian");
    assert("org.khronos.openvx.halfscale_gaussian"@.len() == 37
        && "org.khronos.openvx.halfscale_gaussian"@[19] == 'h'
        && "org.khronos.openvx.halfscale_gaussian"@[20] == 'a'
        && "org.khronos.openvx.halfscale_gaussian"@[28] == '_');
    reveal_strlit("org.khronos.openvx.sobel_3x3");
    assert("org.khronos.openvx.sobel_3x3"@.len() == 28
        && "org.khronos.openvx.sobel_3x3"@[19] == 's'
        && "org.khronos.openvx.sobel_3x3"@[20] == 'o');
    reveal_strlit("org.khronos.openvx.non_linear_filter");
    assert("org.khronos.openvx.non_linear_filter"@.len() == 36
        && "org.khronos.openvx.non_linear_filter"@[19] == 'n'
        && "org.khronos.openvx.non_linear_filter"@[20] == 'o'
        && "org.khronos.openvx.non_linear_filter"@[28] == 'r');
    reveal_strlit("org.khronos.openvx.non_max_suppression");
    assert("org.khronos.openvx.non_max_suppression"@.len() == 38
        && "org.khronos.openvx.non_max_suppression"@[19] == 'n'
        && "org.khronos.openvx.non_max_suppression"@[20] == 'o'
        && "org.khronos.openvx.non_max_suppression"@[28] == 'u');
    reveal_strlit("org.khronos.openvx.match_template");
    assert("org.khronos.openvx.match_template"@.len() == 33
        && "org.khronos.openvx.match_template"@[19] == 'm'
        && "org.khronos.openvx.match_template"@[20] == 'a'
        && "org.khronos.openvx.match_template"@[28] == 'p');
    reveal_strlit("org.khronos.openvx.lbp");
    assert("org.khronos.openvx.lbp"@.len() == 22
        && "org.khronos.openvx.lbp"@[19] == 'l'
        && "org.khronos.openvx.lbp"@[20] == 'b');
    reveal_strlit("org.khronos.openvx.add");
    assert("org.khronos.openvx.add"@.len() == 22
        && "org.khronos.openvx.add"@[19] == 'a'
        && "org.khronos.openvx.add"@[20] == 'd');
    reveal_strlit("org.khronos.openvx.subtract");
    assert("org.khronos.openvx.subtract"@.len() == 27
        && "org.khronos.openvx.subtract"@[19] == 's'
        && "org.khronos.openvx.subtract"@[20] == 'u');
    reveal_strlit("org.khronos.openvx.warp_affine");
    assert("org.khronos.openvx.warp_affine"@.len() == 30
        && "org.khronos.openvx.warp_affine"@[19] == 'w'
        && "org.khronos.openvx.warp_affine"@[20] == 'a'
        && "org.khronos.openvx.warp_affine"@[28] == 'n');
    reveal_strlit("org.khronos.openvx.warp_perspective");
    assert("org.khronos.openvx.warp_perspective"@.len() == 35
        && "org.khronos.openvx.warp_perspective"@[19] == 'w'
        && "org.khronos.openvx.warp_perspective"@[20] == 'a'
        && "org.khronos.openvx.warp_perspective"@[28] == 'p');
    reveal_strlit("org.khronos.openvx.remap");
    assert("org.khronos.openvx.remap"@.len() == 24
        && "org.khronos.openvx.remap"@[19] == 'r'
        && "org.khronos.openvx.remap"@[20] == 'e');
    reveal_strlit("org.khronos.openvx.weighted_average");
    assert("org.khronos.openvx.weighted_average"@.len() == 35
        && "org.khronos.openvx.weighted_average"@[19] == 'w'
        && "org.khronos.openvx.weighted_average"@[20] == 'e'
        && "org.khronos.openvx.weighted_average"@[28] == 'a');
    reveal_strlit("org.khronos.openvx.hough_lines_p");
    assert("org.khronos.openvx.hough_lines_p"@.len() == 32
        && "org.khronos.openvx.hough_lines_p"@[19] == 'h'
        && "org.khronos.openvx.hough_lines_p"@[20] == 'o'
        && "org.khronos.openvx.hough_lines_p"@[28] == 'e');
    reveal_strlit("org.khronos.openvx.harris_corners");
    assert("org.khronos.openvx.harris_corners"@.len() == 33
        && "org.khronos.openvx.harris_corners"@[19] == 'h'
        && "org.khronos.openvx.harris_corners"@[20] == 'a'
        && "org.khronos.openvx.harris_corners"@[28] == 'r');
    reveal_strlit("org.khronos.openvx.hog_cells");
    assert("org.khronos.openvx.hog_cells"@.len() == 28
        && "org.khronos.openvx.hog_cells"@[19] == 'h'
        && "org.khronos.openvx.hog_cells"@[20] == 'o');
    reveal_strlit("org.khronos.openvx.hog_features");
    assert("org.khronos.openvx.hog_features"@.len() == 31
        && "org.khronos.openvx.hog_features"@[19] == 'h'
        && "org.khronos.openvx.hog_features"@[20] == 'o'
        && "org.khronos.openvx.hog_features"@[28] == 'r');
    reveal_strlit("org.khronos.openvx.multiply");
    assert("org.khronos.openvx.multiply"@.len() == 27
        && "org.khronos.openvx.multiply"@[19] == 'm'
        && "org.khronos.openvx.multiply"@[20] == 'u');
    reveal_strlit("org.khronos.openvx.bilateral_filter");
    assert("org.khronos.openvx.bilateral_filter"@.len() == 35
        && "org.khronos.openvx.bilateral_filter"@[19] == 'b'
        && "org.khronos.openvx.bilateral_filter"@[20] == 'i'
        && "org.khronos.openvx.bilateral_filter"@[28] == '_');
    reveal_strlit("org.khronos.openvx.channel_combine");
    assert("org.khronos.openvx.channel_combine"@.len() == 34
        && "org.khronos.openvx.channel_combine"@[19] == 'c'
        && "org.khronos.openvx.channel_combine"@[20] == 'h'
        && "org.khronos.openvx.channel_combine"@[28] == 'o');
    reveal_strlit("org.khronos.openvx.canny_edge_detector");
    assert("org.khronos.openvx.canny_edge_detector"@.len() == 38
        && "org.khronos.openvx.canny_edge_detector"@[19] == 'c'
        && "org.khronos.openvx.canny_edge_detector"@[20] == 'a'
        && "org.khronos.openvx.canny_edge_detector"@[28] == 'e');
    reveal_strlit("org.khronos.openvx.optical_flow_pyr_lk");
    assert("org.khronos.openvx.optical_flow_pyr_lk"@.len() == 38
        && "org.khronos.openvx.optical_flow_pyr_lk"@[19] == 'o'
        && "org.khronos.openvx.optical_flow_pyr_lk"@[20] == 'p'
        && "org.khronos.openvx.optical_flow_pyr_lk"@[28] == 'l');
    reveal_strlit("org.khronos.openvx.mean_stddev");
    assert("org.khronos.openvx.mean_stddev"@.len() == 30
        && "org.khronos.openvx.mean_stddev"@[19] == 'm'
        && "org.khronos.openvx.mean_stddev"@[20] == 'e'
        && "org.khronos.openvx.mean_stddev"@[28] == 'e');
    reveal_strlit("org.khronos.openvx.fast_corners");
    assert("org.khronos.openvx.fast_corners"@.len() == 31
        && "org.khronos.openvx.fast_corners"@[19] == 'f'
        && "org.khronos.openvx.fast_corners"@[20] == 'a'
        && "org.khronos.openvx.fast_corners"@[28] == 'e');
    reveal_strlit("org.khronos.openvx.minmaxloc");
    assert("org.khronos.openvx.minmaxloc"@.len() == 28
        && "org.khronos.openvx.minmaxloc"@[19] == 'm'
        && "org.khronos.openvx.minmaxloc"@[20] == 'i');
}

/// The results of a user kernel are the parameters that it declares as outputs,
/// and a kernel of which nothing is known writes all parameters but its first.
pub proof fn law_outputs_of_other_kernels(
    name: Seq<char>,
    params: Seq<UserKernelParam>,
    i: int,
)
    requires
        outputs_of(name) is None,
    ensures
        0 <= i < params.len() ==> (is_output(name, Some(params), i) <==> params[i].direction
            == VX_OUTPUT),
        i >= params.len() ==> !is_output(name, Some(params), i),
        is_output(name, None, i) <==> i >= 1,
{
}

/// Whether a parameter is an output is found from the span of a built-in kernel
/// alone, where there is one, and else from the declared directions.
pub proof fn law_outputs_are_found(
    name: Seq<char>,
    builtin: Option<OutputSpan>,
    declared: Option<&Vec<UserKernelParam>>,
    index: usize,
    r: bool,
)
    requires
        call_ensures(parameter_is_output, (builtin, declared, index), r),
        builtin == outputs_of(name),
    ensures
        r == is_output(
            name,
            match declared {
                Some(params) => Some(params@),
                None => None,
            },
            index as int,
        ),
        builtin is Some ==> (r <==> (builtin->0).first <= index <= (builtin->0).last),
        builtin is None && declared is None ==> (r <==> index >= 1),
{
}

} // verus!
