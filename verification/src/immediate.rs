//! Immediate mode: functions that run a routine at once, without a graph.
//!
//! The routines themselves belong to the host.  Each function here looks at its
//! arguments and answers the routine to run with what it is handed, or the
//! status that refuses the call.
use vstd::prelude::*;
use crate::construction::{Reply, Seed, seed_enum, seed_word};
use crate::contexts::zero_value;
use crate::dispatch::{BorderArg, KernelArg, VX_BORDER_UNDEFINED, find_scalar, patch32};
use crate::feature_nodes::{HoughLines, seed_hough};
use crate::image::VxCImage;
use crate::image_nodes::seed_small;
use crate::kernels::Kernel;
use crate::lookups::table_lookup_impl;
use crate::records::{VxCContext, VxCLut, VxCMatrix};
use crate::registry::LetGo;
use crate::scalar::{VxCScalar, to_bits32};
use crate::types::{
    VX_ERROR_INVALID_FORMAT, VX_ERROR_INVALID_PARAMETERS, VX_ERROR_INVALID_REFERENCE,
    VX_ERROR_NOT_IMPLEMENTED, VX_SUCCESS, VX_TYPE_FLOAT32, VX_TYPE_INT16, VX_TYPE_INT32,
    VX_TYPE_UINT8, vx_border_t, vx_enum, vx_status,
};
use std::collections::HashMap;

verus! {

broadcast use vstd::std_specs::hash::group_hash_axioms;

/// A routine of the host.
#[derive(Debug, Clone, Copy, PartialEq, Eq, Structural)]
pub enum Routine {
    /// The routine of a kernel.
    Of(Kernel),
    /// A routine that no kernel has.
    Dilate5x5,
    /// A routine that no kernel has.
    Erode5x5,
}

/// The context that a routine is handed.
#[derive(Debug, Clone, Copy, PartialEq, Eq, Structural)]
pub enum ContextArg {
    /// The caller's.
    Given(u64),
    /// That of a reference.
    Of(u64),
    /// None.
    Nothing,
}

/// An argument of a routine.
#[derive(Debug, Clone, Copy, PartialEq, Eq, Structural)]
pub enum CallArg {
    Plain(KernelArg),
    /// A scalar made for the call, by its position among them.
    Made(usize),
}

/// A routine to run.  The scalars are made before it runs and released
/// afterwards; where it succeeds, the results are copied out first.
pub struct ImmediateCall {
    pub routine: Routine,
    pub context: ContextArg,
    pub border: BorderArg,
    pub seeds: Vec<Seed>,
    pub args: Vec<CallArg>,
    /// Scalars whose bytes are copied out, each with the place they go to.
    pub results: Vec<(usize, u64)>,
}

/// The mathematical value of [`ImmediateCall`].
#[verifier::ext_equal]
pub struct CallSpec {
    pub routine: Routine,
    pub context: ContextArg,
    pub border: BorderArg,
    pub seeds: Seq<Seed>,
    pub args: Seq<CallArg>,
    pub results: Seq<(usize, u64)>,
}

impl View for ImmediateCall {
    type V = CallSpec;

    open spec fn view(&self) -> CallSpec {
        CallSpec {
            routine: self.routine,
            context: self.context,
            border: self.border,
            seeds: self.seeds@,
            args: self.args@,
            results: self.results@,
        }
    }
}

/// The value of an answer.
pub open spec fn call_value(r: Result<ImmediateCall, vx_status>) -> Result<CallSpec, vx_status> {
    match r {
        Ok(c) => Ok(c@),
        Err(e) => Err(e),
    }
}

/// Arguments without scalars.
pub open spec fn plain_args(args: Seq<KernelArg>) -> Seq<CallArg> {
    args.map_values(|a: KernelArg| CallArg::Plain(a))
}

/// A call without scalars.
pub open spec fn plain_call(
    routine: Routine,
    context: ContextArg,
    border: BorderArg,
    args: Seq<KernelArg>,
) -> CallSpec {
    CallSpec {
        routine,
        context,
        border,
        seeds: Seq::empty(),
        args: plain_args(args),
        results: Seq::empty(),
    }
}

/// Makes a call without scalars.
fn call(routine: Routine, context: ContextArg, border: BorderArg, args: Vec<KernelArg>) -> (r:
    ImmediateCall)
    ensures
        r@ == plain_call(routine, context, border, args@),
{
    let mut handed: Vec<CallArg> = Vec::new();
    assert(handed@ =~= plain_args(args@.take(0)));
    for i in 0..args.len()
        invariant
            handed@ == plain_args(args@.take(i as int)),
    {
        handed.push(CallArg::Plain(args[i]));
        assert(handed@ =~= plain_args(args@.take(i + 1)));
    }
    assert(args@.take(args@.len() as int) =~= args@);
    ImmediateCall {
        routine,
        context,
        border,
        seeds: Vec::new(),
        args: handed,
        results: Vec::new(),
    }
}

/// Converts between colour formats at once.
pub fn vxuColorConvert(
    context: u64,
    input: u64,
    output: u64,
) -> (r: Result<ImmediateCall, vx_status>)
    ensures
        call_value(r) == Ok::<CallSpec, vx_status>(
            plain_call(
                Routine::Of(Kernel::ColorConvert),
                ContextArg::Given(context),
                BorderArg::Unused,
                seq![KernelArg::Ref(input), KernelArg::Ref(output)],
            ),
        ),
{
    let args: Vec<KernelArg> = vec![KernelArg::Ref(input), KernelArg::Ref(output)];
    assert(args@ =~= seq![KernelArg::Ref(input), KernelArg::Ref(output)]);
    Ok(call(Routine::Of(Kernel::ColorConvert), ContextArg::Given(context), BorderArg::Unused, args))
}

/// Smooths an image with a Gaussian of three by three at once.
pub fn vxuGaussian3x3(
    context: u64,
    input: u64,
    output: u64,
) -> (r: Result<ImmediateCall, vx_status>)
    ensures
        call_value(r) == Ok::<CallSpec, vx_status>(
            plain_call(
                Routine::Of(Kernel::Gaussian3x3),
                ContextArg::Given(context),
                BorderArg::Unused,
                seq![KernelArg::Ref(input), KernelArg::Ref(output)],
            ),
        ),
{
    let args: Vec<KernelArg> = vec![KernelArg::Ref(input), KernelArg::Ref(output)];
    assert(args@ =~= seq![KernelArg::Ref(input), KernelArg::Ref(output)]);
    Ok(call(Routine::Of(Kernel::Gaussian3x3), ContextArg::Given(context), BorderArg::Unused, args))
}

/// Takes gradients over three by three pixels at once.
pub fn vxuSobel3x3(
    context: u64,
    input: u64,
    output_x: u64,
    output_y: u64,
) -> (r: Result<ImmediateCall, vx_status>)
    ensures
        call_value(r) == Ok::<CallSpec, vx_status>(
            plain_call(
                Routine::Of(Kernel::Sobel3x3),
                ContextArg::Given(context),
                BorderArg::Unused,
                seq![
                    KernelArg::Ref(input),
                    KernelArg::Ref(output_x),
                    KernelArg::Ref(output_y),
                ],
            ),
        ),
{
    let args: Vec<KernelArg> = vec![KernelArg::Ref(input), KernelArg::Ref(output_x), KernelArg::Ref(output_y)];
    assert(args@ =~= seq![KernelArg::Ref(input), KernelArg::Ref(output_x), KernelArg::Ref(output_y)]);
    Ok(call(Routine::Of(Kernel::Sobel3x3), ContextArg::Given(context), BorderArg::Unused, args))
}

/// Adds images at once.
pub fn vxuAdd(
    context: u64,
    in1: u64,
    in2: u64,
    policy: i32,
    output: u64,
) -> (r: Result<ImmediateCall, vx_status>)
    ensures
        call_value(r) == Ok::<CallSpec, vx_status>(
            plain_call(
                Routine::Of(Kernel::Add),
                ContextArg::Given(context),
                BorderArg::Unused,
                seq![
                    KernelArg::Ref(in1),
                    KernelArg::Ref(in2),
                    KernelArg::Int(policy),
                    KernelArg::Ref(output),
                ],
            ),
        ),
{
    let args: Vec<KernelArg> = vec![
        KernelArg::Ref(in1),
        KernelArg::Ref(in2),
        KernelArg::Int(policy),
        KernelArg::Ref(output),
    ];
    assert(args@ =~= seq![
        KernelArg::Ref(in1),
        KernelArg::Ref(in2),
        KernelArg::Int(policy),
        KernelArg::Ref(output),
    ]);
    Ok(call(Routine::Of(Kernel::Add), ContextArg::Given(context), BorderArg::Unused, args))
}

/// Subtracts images at once.
pub fn vxuSubtract(
    context: u64,
    in1: u64,
    in2: u64,
    policy: i32,
    output: u64,
) -> (r: Result<ImmediateCall, vx_status>)
    ensures
        call_value(r) == Ok::<CallSpec, vx_status>(
            plain_call(
                Routine::Of(Kernel::Subtract),
                ContextArg::Given(context),
                BorderArg::Unused,
                seq![
                    KernelArg::Ref(in1),
                    KernelArg::Ref(in2),
                    KernelArg::Int(policy),
                    KernelArg::Ref(output),
                ],
            ),
        ),
{
    let args: Vec<KernelArg> = vec![
        KernelArg::Ref(in1),
        KernelArg::Ref(in2),
        KernelArg::Int(policy),
        KernelArg::Ref(output),
    ];
    assert(args@ =~= seq![
        KernelArg::Ref(in1),
        KernelArg::Ref(in2),
        KernelArg::Int(policy),
        KernelArg::Ref(output),
    ]);
    Ok(call(Routine::Of(Kernel::Subtract), ContextArg::Given(context), BorderArg::Unused, args))
}

/// Takes the smaller of two pixels at once.
pub fn vxuMin(context: u64, in1: u64, in2: u64, out: u64) -> (r: Result<ImmediateCall, vx_status>)
    ensures
        call_value(r) == Ok::<CallSpec, vx_status>(
            plain_call(
                Routine::Of(Kernel::Min),
                ContextArg::Given(context),
                BorderArg::Unused,
                seq![KernelArg::Ref(in1), KernelArg::Ref(in2), KernelArg::Ref(out)],
            ),
        ),
{
    let args: Vec<KernelArg> = vec![KernelArg::Ref(in1), KernelArg::Ref(in2), KernelArg::Ref(out)];
    assert(args@ =~= seq![KernelArg::Ref(in1), KernelArg::Ref(in2), KernelArg::Ref(out)]);
    Ok(call(Routine::Of(Kernel::Min), ContextArg::Given(context), BorderArg::Unused, args))
}

/// Takes the larger of two pixels at once.
pub fn vxuMax(context: u64, in1: u64, in2: u64, out: u64) -> (r: Result<ImmediateCall, vx_status>)
    ensures
        call_value(r) == Ok::<CallSpec, vx_status>(
            plain_call(
                Routine::Of(Kernel::Max),
                ContextArg::Given(context),
                BorderArg::Unused,
                seq![KernelArg::Ref(in1), KernelArg::Ref(in2), KernelArg::Ref(out)],
            ),
        ),
{
    let args: Vec<KernelArg> = vec![KernelArg::Ref(in1), KernelArg::Ref(in2), KernelArg::Ref(out)];
    assert(args@ =~= seq![KernelArg::Ref(in1), KernelArg::Ref(in2), KernelArg::Ref(out)]);
    Ok(call(Routine::Of(Kernel::Max), ContextArg::Given(context), BorderArg::Unused, args))
}

/// Multiplies images at once.  The scale is given by its bit pattern.
pub fn vxuMultiply(
    context: u64,
    in1: u64,
    in2: u64,
    scale: u32,
    overflow_policy: i32,
    rounding_policy: i32,
    output: u64,
) -> (r: Result<ImmediateCall, vx_status>)
    ensures
        call_value(r) == Ok::<CallSpec, vx_status>(
            plain_call(
                Routine::Of(Kernel::Multiply),
                ContextArg::Given(context),
                BorderArg::Unused,
                seq![
                    KernelArg::Ref(in1),
                    KernelArg::Ref(in2),
                    KernelArg::Bits(scale),
                    KernelArg::Int(overflow_policy),
                    KernelArg::Int(rounding_policy),
                    KernelArg::Ref(output),
                ],
            ),
        ),
{
    let args: Vec<KernelArg> = vec![
        KernelArg::Ref(in1),
        KernelArg::Ref(in2),
        KernelArg::Bits(scale),
        KernelArg::Int(overflow_policy),
        KernelArg::Int(rounding_policy),
        KernelArg::Ref(output),
    ];
    assert(args@ =~= seq![
        KernelArg::Ref(in1),
        KernelArg::Ref(in2),
        KernelArg::Bits(scale),
        KernelArg::Int(overflow_policy),
        KernelArg::Int(rounding_policy),
        KernelArg::Ref(output),
    ]);
    Ok(call(Routine::Of(Kernel::Multiply), ContextArg::Given(context), BorderArg::Unused, args))
}

/// Averages over three by three pixels at once.
pub fn vxuBox3x3(context: u64, input: u64, output: u64) -> (r: Result<ImmediateCall, vx_status>)
    ensures
        call_value(r) == Ok::<CallSpec, vx_status>(
            plain_call(
                Routine::Of(Kernel::Box3x3),
                ContextArg::Given(context),
                BorderArg::Unused,
                seq![KernelArg::Ref(input), KernelArg::Ref(output)],
            ),
        ),
{
    let args: Vec<KernelArg> = vec![KernelArg::Ref(input), KernelArg::Ref(output)];
    assert(args@ =~= seq![KernelArg::Ref(input), KernelArg::Ref(output)]);
    Ok(call(Routine::Of(Kernel::Box3x3), ContextArg::Given(context), BorderArg::Unused, args))
}

/// Takes the median of three by three pixels at once.
pub fn vxuMedian3x3(context: u64, input: u64, output: u64) -> (r: Result<ImmediateCall, vx_status>)
    ensures
        call_value(r) == Ok::<CallSpec, vx_status>(
            plain_call(
                Routine::Of(Kernel::Median3x3),
                ContextArg::Given(context),
                BorderArg::Unused,
                seq![KernelArg::Ref(input), KernelArg::Ref(output)],
            ),
        ),
{
    let args: Vec<KernelArg> = vec![KernelArg::Ref(input), KernelArg::Ref(output)];
    assert(args@ =~= seq![KernelArg::Ref(input), KernelArg::Ref(output)]);
    Ok(call(Routine::Of(Kernel::Median3x3), ContextArg::Given(context), BorderArg::Unused, args))
}

/// Dilates over three by three pixels at once.
pub fn vxuDilate3x3(context: u64, input: u64, output: u64) -> (r: Result<ImmediateCall, vx_status>)
    ensures
        call_value(r) == Ok::<CallSpec, vx_status>(
            plain_call(
                Routine::Of(Kernel::Dilate3x3),
                ContextArg::Given(context),
                BorderArg::Unused,
                seq![KernelArg::Ref(input), KernelArg::Ref(output)],
            ),
        ),
{
    let args: Vec<KernelArg> = vec![KernelArg::Ref(input), KernelArg::Ref(output)];
    assert(args@ =~= seq![KernelArg::Ref(input), KernelArg::Ref(output)]);
    Ok(call(Routine::Of(Kernel::Dilate3x3), ContextArg::Given(context), BorderArg::Unused, args))
}

/// Erodes over three by three pixels at once.
pub fn vxuErode3x3(context: u64, input: u64, output: u64) -> (r: Result<ImmediateCall, vx_status>)
    ensures
        call_value(r) == Ok::<CallSpec, vx_status>(
            plain_call(
                Routine::Of(Kernel::Erode3x3),
                ContextArg::Given(context),
                BorderArg::Unused,
                seq![KernelArg::Ref(input), KernelArg::Ref(output)],
            ),
        ),
{
    let args: Vec<KernelArg> = vec![KernelArg::Ref(input), KernelArg::Ref(output)];
    assert(args@ =~= seq![KernelArg::Ref(input), KernelArg::Ref(output)]);
    Ok(call(Routine::Of(Kernel::Erode3x3), ContextArg::Given(context), BorderArg::Unused, args))
}

/// Takes the magnitude of gradients at once.
pub fn vxuMagnitude(
    context: u64,
    grad_x: u64,
    grad_y: u64,
    output: u64,
) -> (r: Result<ImmediateCall, vx_status>)
    ensures
        call_value(r) == Ok::<CallSpec, vx_status>(
            plain_call(
                Routine::Of(Kernel::Magnitude),
                ContextArg::Given(context),
                BorderArg::Unused,
                seq![KernelArg::Ref(grad_x), KernelArg::Ref(grad_y), KernelArg::Ref(output)],
            ),
        ),
{
    let args: Vec<KernelArg> = vec![KernelArg::Ref(grad_x), KernelArg::Ref(grad_y), KernelArg::Ref(output)];
    assert(args@ =~= seq![KernelArg::Ref(grad_x), KernelArg::Ref(grad_y), KernelArg::Ref(output)]);
    Ok(call(Routine::Of(Kernel::Magnitude), ContextArg::Given(context), BorderArg::Unused, args))
}

/// Takes the phase of gradients at once.
pub fn vxuPhase(
    context: u64,
    grad_x: u64,
    grad_y: u64,
    output: u64,
) -> (r: Result<ImmediateCall, vx_status>)
    ensures
        call_value(r) == Ok::<CallSpec, vx_status>(
            plain_call(
                Routine::Of(Kernel::Phase),
                ContextArg::Given(context),
                BorderArg::Unused,
                seq![KernelArg::Ref(grad_x), KernelArg::Ref(grad_y), KernelArg::Ref(output)],
            ),
        ),
{
    let args: Vec<KernelArg> = vec![KernelArg::Ref(grad_x), KernelArg::Ref(grad_y), KernelArg::Ref(output)];
    assert(args@ =~= seq![KernelArg::Ref(grad_x), KernelArg::Ref(grad_y), KernelArg::Ref(output)]);
    Ok(call(Routine::Of(Kernel::Phase), ContextArg::Given(context), BorderArg::Unused, args))
}

/// Scales an image at once.
pub fn vxuScaleImage(
    context: u64,
    input: u64,
    output: u64,
    interpolation: i32,
) -> (r: Result<ImmediateCall, vx_status>)
    ensures
        call_value(r) == Ok::<CallSpec, vx_status>(
            plain_call(
                Routine::Of(Kernel::ScaleImage),
                ContextArg::Given(context),
                BorderArg::AsGiven(None),
                seq![
                    KernelArg::Ref(input),
                    KernelArg::Ref(output),
                    KernelArg::Int(interpolation),
                ],
            ),
        ),
{
    let args: Vec<KernelArg> = vec![KernelArg::Ref(input), KernelArg::Ref(output), KernelArg::Int(interpolation)];
    assert(args@ =~= seq![KernelArg::Ref(input), KernelArg::Ref(output), KernelArg::Int(interpolation)]);
    Ok(call(Routine::Of(Kernel::ScaleImage), ContextArg::Given(context), BorderArg::AsGiven(None), args))
}

/// Warps an image by an affine map at once.
pub fn vxuWarpAffine(
    context: u64,
    input: u64,
    matrix: u64,
    interpolation: i32,
    output: u64,
) -> (r: Result<ImmediateCall, vx_status>)
    ensures
        call_value(r) == Ok::<CallSpec, vx_status>(
            plain_call(
                Routine::Of(Kernel::WarpAffine),
                ContextArg::Given(context),
                BorderArg::AsGiven(None),
                seq![
                    KernelArg::Ref(input),
                    KernelArg::Ref(matrix),
                    KernelArg::Int(interpolation),
                    KernelArg::Ref(output),
                ],
            ),
        ),
{
    let args: Vec<KernelArg> = vec![
        KernelArg::Ref(input),
        KernelArg::Ref(matrix),
        KernelArg::Int(interpolation),
        KernelArg::Ref(output),
    ];
    assert(args@ =~= seq![
        KernelArg::Ref(input),
        KernelArg::Ref(matrix),
        KernelArg::Int(interpolation),
        KernelArg::Ref(output),
    ]);
    Ok(call(Routine::Of(Kernel::WarpAffine), ContextArg::Given(context), BorderArg::AsGiven(None), args))
}

/// Warps an image by a perspective map at once.
pub fn vxuWarpPerspective(
    context: u64,
    input: u64,
    matrix: u64,
    interpolation: i32,
    output: u64,
) -> (r: Result<ImmediateCall, vx_status>)
    ensures
        call_value(r) == Ok::<CallSpec, vx_status>(
            plain_call(
                Routine::Of(Kernel::WarpPerspective),
                ContextArg::Given(context),
                BorderArg::AsGiven(None),
                seq![
                    KernelArg::Ref(input),
                    KernelArg::Ref(matrix),
                    KernelArg::Int(interpolation),
                    KernelArg::Ref(output),
                ],
            ),
        ),
{
    let args: Vec<KernelArg> = vec![
        KernelArg::Ref(input),
        KernelArg::Ref(matrix),
        KernelArg::Int(interpolation),
        KernelArg::Ref(output),
    ];
    assert(args@ =~= seq![
        KernelArg::Ref(input),
        KernelArg::Ref(matrix),
        KernelArg::Int(interpolation),
        KernelArg::Ref(output),
    ]);
    Ok(call(Routine::Of(Kernel::WarpPerspective), ContextArg::Given(context), BorderArg::AsGiven(None), args))
}

/// Finds Harris corners at once.
pub fn vxuHarrisCorners(
    context: u64,
    input: u64,
    strength_thresh: u64,
    min_distance: u64,
    sensitivity: u64,
    gradient_size: i32,
    block_size: i32,
    corners: u64,
    num_corners: u64,
) -> (r: Result<ImmediateCall, vx_status>)
    ensures
        call_value(r) == Ok::<CallSpec, vx_status>(
            plain_call(
                Routine::Of(Kernel::HarrisCorners),
                ContextArg::Given(context),
                BorderArg::Unused,
                seq![
                    KernelArg::Ref(input),
                    KernelArg::Ref(strength_thresh),
                    KernelArg::Ref(min_distance),
                    KernelArg::Ref(sensitivity),
                    KernelArg::Int(gradient_size),
                    KernelArg::Int(block_size),
                    KernelArg::Ref(corners),
                    KernelArg::Ref(num_corners),
                ],
            ),
        ),
{
    let args: Vec<KernelArg> = vec![
        KernelArg::Ref(input),
        KernelArg::Ref(strength_thresh),
        KernelArg::Ref(min_distance),
        KernelArg::Ref(sensitivity),
        KernelArg::Int(gradient_size),
        KernelArg::Int(block_size),
        KernelArg::Ref(corners),
        KernelArg::Ref(num_corners),
    ];
    assert(args@ =~= seq![
        KernelArg::Ref(input),
        KernelArg::Ref(strength_thresh),
        KernelArg::Ref(min_distance),
        KernelArg::Ref(sensitivity),
        KernelArg::Int(gradient_size),
        KernelArg::Int(block_size),
        KernelArg::Ref(corners),
        KernelArg::Ref(num_corners),
    ]);
    Ok(call(Routine::Of(Kernel::HarrisCorners), ContextArg::Given(context), BorderArg::Unused, args))
}

/// Finds FAST corners at once.
pub fn vxuFASTCorners(
    context: u64,
    input: u64,
    strength_thresh: u64,
    nonmax_suppression: i32,
    corners: u64,
    num_corners: u64,
) -> (r: Result<ImmediateCall, vx_status>)
    ensures
        call_value(r) == Ok::<CallSpec, vx_status>(
            plain_call(
                Routine::Of(Kernel::FastCorners),
                ContextArg::Given(context),
                BorderArg::Unused,
                seq![
                    KernelArg::Ref(input),
                    KernelArg::Ref(strength_thresh),
                    KernelArg::Int(nonmax_suppression),
                    KernelArg::Ref(corners),
                    KernelArg::Ref(num_corners),
                ],
            ),
        ),
{
    let args: Vec<KernelArg> = vec![
        KernelArg::Ref(input),
        KernelArg::Ref(strength_thresh),
        KernelArg::Int(nonmax_suppression),
        KernelArg::Ref(corners),
        KernelArg::Ref(num_corners),
    ];
    assert(args@ =~= seq![
        KernelArg::Ref(input),
        KernelArg::Ref(strength_thresh),
        KernelArg::Int(nonmax_suppression),
        KernelArg::Ref(corners),
        KernelArg::Ref(num_corners),
    ]);
    Ok(call(Routine::Of(Kernel::FastCorners), ContextArg::Given(context), BorderArg::Unused, args))
}

/// Finds FAST corners at once.
pub fn vxuFastCorners(
    context: u64,
    input: u64,
    strength_thresh: u64,
    nonmax_suppression: i32,
    corners: u64,
    num_corners: u64,
) -> (r: Result<ImmediateCall, vx_status>)
    ensures
        call_value(r) == Ok::<CallSpec, vx_status>(
            plain_call(
                Routine::Of(Kernel::FastCorners),
                ContextArg::Given(context),
                BorderArg::Unused,
                seq![
                    KernelArg::Ref(input),
                    KernelArg::Ref(strength_thresh),
                    KernelArg::Int(nonmax_suppression),
                    KernelArg::Ref(corners),
                    KernelArg::Ref(num_corners),
                ],
            ),
        ),
{
    let args: Vec<KernelArg> = vec![
        KernelArg::Ref(input),
        KernelArg::Ref(strength_thresh),
        KernelArg::Int(nonmax_suppression),
        KernelArg::Ref(corners),
        KernelArg::Ref(num_corners),
    ];
    assert(args@ =~= seq![
        KernelArg::Ref(input),
        KernelArg::Ref(strength_thresh),
        KernelArg::Int(nonmax_suppression),
        KernelArg::Ref(corners),
        KernelArg::Ref(num_corners),
    ]);
    Ok(call(Routine::Of(Kernel::FastCorners), ContextArg::Given(context), BorderArg::Unused, args))
}

/// Sums pixels up from the origin at once.
pub fn vxuIntegralImage(
    context: u64,
    input: u64,
    output: u64,
) -> (r: Result<ImmediateCall, vx_status>)
    ensures
        call_value(r) == Ok::<CallSpec, vx_status>(
            plain_call(
                Routine::Of(Kernel::IntegralImage),
                ContextArg::Given(context),
                BorderArg::Unused,
                seq![KernelArg::Ref(input), KernelArg::Ref(output)],
            ),
        ),
{
    let args: Vec<KernelArg> = vec![KernelArg::Ref(input), KernelArg::Ref(output)];
    assert(args@ =~= seq![KernelArg::Ref(input), KernelArg::Ref(output)]);
    Ok(call(Routine::Of(Kernel::IntegralImage), ContextArg::Given(context), BorderArg::Unused, args))
}

/// Finds edges at once.
pub fn vxuCannyEdgeDetector(
    context: u64,
    input: u64,
    hyst_threshold: u64,
    gradient_size: i32,
    norm_type: i32,
    output: u64,
) -> (r: Result<ImmediateCall, vx_status>)
    ensures
        call_value(r) == Ok::<CallSpec, vx_status>(
            plain_call(
                Routine::Of(Kernel::CannyEdgeDetector),
                ContextArg::Given(context),
                BorderArg::Unused,
                seq![
                    KernelArg::Ref(input),
                    KernelArg::Ref(hyst_threshold),
                    KernelArg::Int(gradient_size),
                    KernelArg::Int(norm_type),
                    KernelArg::Ref(output),
                ],
            ),
        ),
{
    let args: Vec<KernelArg> = vec![
        KernelArg::Ref(input),
        KernelArg::Ref(hyst_threshold),
        KernelArg::Int(gradient_size),
        KernelArg::Int(norm_type),
        KernelArg::Ref(output),
    ];
    assert(args@ =~= seq![
        KernelArg::Ref(input),
        KernelArg::Ref(hyst_threshold),
        KernelArg::Int(gradient_size),
        KernelArg::Int(norm_type),
        KernelArg::Ref(output),
    ]);
    Ok(call(Routine::Of(Kernel::CannyEdgeDetector), ContextArg::Given(context), BorderArg::Unused, args))
}

/// Convolves an image at once.
pub fn vxuConvolve(
    context: u64,
    input: u64,
    conv: u64,
    output: u64,
) -> (r: Result<ImmediateCall, vx_status>)
    ensures
        call_value(r) == Ok::<CallSpec, vx_status>(
            plain_call(
                Routine::Of(Kernel::Convolve),
                ContextArg::Given(context),
                BorderArg::AsGiven(None),
                seq![KernelArg::Ref(input), KernelArg::Ref(conv), KernelArg::Ref(output)],
            ),
        ),
{
    let args: Vec<KernelArg> = vec![KernelArg::Ref(input), KernelArg::Ref(conv), KernelArg::Ref(output)];
    assert(args@ =~= seq![KernelArg::Ref(input), KernelArg::Ref(conv), KernelArg::Ref(output)]);
    Ok(call(Routine::Of(Kernel::Convolve), ContextArg::Given(context), BorderArg::AsGiven(None), args))
}

/// Smooths an image with a Gaussian of five by five at once.
pub fn vxuGaussian5x5(
    context: u64,
    input: u64,
    output: u64,
) -> (r: Result<ImmediateCall, vx_status>)
    ensures
        call_value(r) == Ok::<CallSpec, vx_status>(
            plain_call(
                Routine::Of(Kernel::Gaussian5x5),
                ContextArg::Given(context),
                BorderArg::Unused,
                seq![KernelArg::Ref(input), KernelArg::Ref(output)],
            ),
        ),
{
    let args: Vec<KernelArg> = vec![KernelArg::Ref(input), KernelArg::Ref(output)];
    assert(args@ =~= seq![KernelArg::Ref(input), KernelArg::Ref(output)]);
    Ok(call(Routine::Of(Kernel::Gaussian5x5), ContextArg::Given(context), BorderArg::Unused, args))
}

/// Dilates over five by five pixels at once.
pub fn vxuDilate5x5(context: u64, input: u64, output: u64) -> (r: Result<ImmediateCall, vx_status>)
    ensures
        call_value(r) == Ok::<CallSpec, vx_status>(
            plain_call(
                Routine::Dilate5x5,
                ContextArg::Given(context),
                BorderArg::Unused,
                seq![KernelArg::Ref(input), KernelArg::Ref(output)],
            ),
        ),
{
    let args: Vec<KernelArg> = vec![KernelArg::Ref(input), KernelArg::Ref(output)];
    assert(args@ =~= seq![KernelArg::Ref(input), KernelArg::Ref(output)]);
    Ok(call(Routine::Dilate5x5, ContextArg::Given(context), BorderArg::Unused, args))
}

/// Erodes over five by five pixels at once.
pub fn vxuErode5x5(context: u64, input: u64, output: u64) -> (r: Result<ImmediateCall, vx_status>)
    ensures
        call_value(r) == Ok::<CallSpec, vx_status>(
            plain_call(
                Routine::Erode5x5,
                ContextArg::Given(context),
                BorderArg::Unused,
                seq![KernelArg::Ref(input), KernelArg::Ref(output)],
            ),
        ),
{
    let args: Vec<KernelArg> = vec![KernelArg::Ref(input), KernelArg::Ref(output)];
    assert(args@ =~= seq![KernelArg::Ref(input), KernelArg::Ref(output)]);
    Ok(call(Routine::Erode5x5, ContextArg::Given(context), BorderArg::Unused, args))
}

/// Takes gradients at once, with the routine over three by three pixels.
pub fn vxuSobel5x5(
    context: u64,
    input: u64,
    output_x: u64,
    output_y: u64,
) -> (r: Result<ImmediateCall, vx_status>)
    ensures
        call_value(r) == Ok::<CallSpec, vx_status>(
            plain_call(
                Routine::Of(Kernel::Sobel3x3),
                ContextArg::Given(context),
                BorderArg::Unused,
                seq![
                    KernelArg::Ref(input),
                    KernelArg::Ref(output_x),
                    KernelArg::Ref(output_y),
                ],
            ),
        ),
{
    let args: Vec<KernelArg> = vec![KernelArg::Ref(input), KernelArg::Ref(output_x), KernelArg::Ref(output_y)];
    assert(args@ =~= seq![KernelArg::Ref(input), KernelArg::Ref(output_x), KernelArg::Ref(output_y)]);
    Ok(call(Routine::Of(Kernel::Sobel3x3), ContextArg::Given(context), BorderArg::Unused, args))
}

/// Finds the smallest and largest pixels at once.
pub fn vxuMinMaxLoc(
    context: u64,
    input: u64,
    min_val: u64,
    max_val: u64,
    min_loc: u64,
    max_loc: u64,
    min_count: u64,
    max_count: u64,
) -> (r: Result<ImmediateCall, vx_status>)
    ensures
        call_value(r) == Ok::<CallSpec, vx_status>(
            plain_call(
                Routine::Of(Kernel::MinMaxLoc),
                ContextArg::Given(context),
                BorderArg::Unused,
                seq![
                    KernelArg::Ref(input),
                    KernelArg::Ref(min_val),
                    KernelArg::Ref(max_val),
                    KernelArg::Ref(min_loc),
                    KernelArg::Ref(max_loc),
                    KernelArg::Ref(min_count),
                    KernelArg::Ref(max_count),
                ],
            ),
        ),
{
    let args: Vec<KernelArg> = vec![
        KernelArg::Ref(input),
        KernelArg::Ref(min_val),
        KernelArg::Ref(max_val),
        KernelArg::Ref(min_loc),
        KernelArg::Ref(max_loc),
        KernelArg::Ref(min_count),
        KernelArg::Ref(max_count),
    ];
    assert(args@ =~= seq![
        KernelArg::Ref(input),
        KernelArg::Ref(min_val),
        KernelArg::Ref(max_val),
        KernelArg::Ref(min_loc),
        KernelArg::Ref(max_loc),
        KernelArg::Ref(min_count),
        KernelArg::Ref(max_count),
    ]);
    Ok(call(Routine::Of(Kernel::MinMaxLoc), ContextArg::Given(context), BorderArg::Unused, args))
}

/// Counts pixels at once.
pub fn vxuHistogram(
    context: u64,
    input: u64,
    distribution: u64,
) -> (r: Result<ImmediateCall, vx_status>)
    ensures
        call_value(r) == Ok::<CallSpec, vx_status>(
            plain_call(
                Routine::Of(Kernel::Histogram),
                ContextArg::Given(context),
                BorderArg::Unused,
                seq![KernelArg::Ref(input), KernelArg::Ref(distribution)],
            ),
        ),
{
    let args: Vec<KernelArg> = vec![KernelArg::Ref(input), KernelArg::Ref(distribution)];
    assert(args@ =~= seq![KernelArg::Ref(input), KernelArg::Ref(distribution)]);
    Ok(call(Routine::Of(Kernel::Histogram), ContextArg::Given(context), BorderArg::Unused, args))
}

/// Moves pixels by a coordinate map at once.
pub fn vxuRemap(
    context: u64,
    input: u64,
    table: u64,
    policy: i32,
    output: u64,
) -> (r: Result<ImmediateCall, vx_status>)
    ensures
        call_value(r) == Ok::<CallSpec, vx_status>(
            plain_call(
                Routine::Of(Kernel::Remap),
                ContextArg::Given(context),
                BorderArg::AsGiven(None),
                seq![
                    KernelArg::Ref(input),
                    KernelArg::Ref(table),
                    KernelArg::Int(policy),
                    KernelArg::Ref(output),
                ],
            ),
        ),
{
    let args: Vec<KernelArg> = vec![
        KernelArg::Ref(input),
        KernelArg::Ref(table),
        KernelArg::Int(policy),
        KernelArg::Ref(output),
    ];
    assert(args@ =~= seq![
        KernelArg::Ref(input),
        KernelArg::Ref(table),
        KernelArg::Int(policy),
        KernelArg::Ref(output),
    ]);
    Ok(call(Routine::Of(Kernel::Remap), ContextArg::Given(context), BorderArg::AsGiven(None), args))
}

/// Extracts a channel at once.
pub fn vxuChannelExtract(
    context: u64,
    input: u64,
    channel: i32,
    output: u64,
) -> (r: Result<ImmediateCall, vx_status>)
    ensures
        call_value(r) == Ok::<CallSpec, vx_status>(
            plain_call(
                Routine::Of(Kernel::ChannelExtract),
                ContextArg::Given(context),
                BorderArg::Unused,
                seq![KernelArg::Ref(input), KernelArg::Int(channel), KernelArg::Ref(output)],
            ),
        ),
{
    let args: Vec<KernelArg> = vec![KernelArg::Ref(input), KernelArg::Int(channel), KernelArg::Ref(output)];
    assert(args@ =~= seq![KernelArg::Ref(input), KernelArg::Int(channel), KernelArg::Ref(output)]);
    Ok(call(Routine::Of(Kernel::ChannelExtract), ContextArg::Given(context), BorderArg::Unused, args))
}

/// Combines channels at once.
pub fn vxuChannelCombine(
    context: u64,
    plane0: u64,
    plane1: u64,
    plane2: u64,
    plane3: u64,
    output: u64,
) -> (r: Result<ImmediateCall, vx_status>)
    ensures
        call_value(r) == Ok::<CallSpec, vx_status>(
            plain_call(
                Routine::Of(Kernel::ChannelCombine),
                ContextArg::Given(context),
                BorderArg::Unused,
                seq![
                    KernelArg::Ref(plane0),
                    KernelArg::Ref(plane1),
                    KernelArg::Ref(plane2),
                    KernelArg::Ref(plane3),
                    KernelArg::Ref(output),
                ],
            ),
        ),
{
    let args: Vec<KernelArg> = vec![
        KernelArg::Ref(plane0),
        KernelArg::Ref(plane1),
        KernelArg::Ref(plane2),
        KernelArg::Ref(plane3),
        KernelArg::Ref(output),
    ];
    assert(args@ =~= seq![
        KernelArg::Ref(plane0),
        KernelArg::Ref(plane1),
        KernelArg::Ref(plane2),
        KernelArg::Ref(plane3),
        KernelArg::Ref(output),
    ]);
    Ok(call(Routine::Of(Kernel::ChannelCombine), ContextArg::Given(context), BorderArg::Unused, args))
}

/// Averages two images with weights at once.
pub fn vxuWeightedAverage(
    context: u64,
    img1: u64,
    alpha: u64,
    img2: u64,
    output: u64,
) -> (r: Result<ImmediateCall, vx_status>)
    ensures
        call_value(r) == Ok::<CallSpec, vx_status>(
            plain_call(
                Routine::Of(Kernel::WeightedAverage),
                ContextArg::Given(context),
                BorderArg::Unused,
                seq![
                    KernelArg::Ref(img1),
                    KernelArg::Ref(alpha),
                    KernelArg::Ref(img2),
                    KernelArg::Ref(output),
                ],
            ),
        ),
{
    let args: Vec<KernelArg> = vec![
        KernelArg::Ref(img1),
        KernelArg::Ref(alpha),
        KernelArg::Ref(img2),
        KernelArg::Ref(output),
    ];
    assert(args@ =~= seq![
        KernelArg::Ref(img1),
        KernelArg::Ref(alpha),
        KernelArg::Ref(img2),
        KernelArg::Ref(output),
    ]);
    Ok(call(Routine::Of(Kernel::WeightedAverage), ContextArg::Given(context), BorderArg::Unused, args))
}

/// Makes a Gaussian pyramid at once.
pub fn vxuGaussianPyramid(
    context: u64,
    input: u64,
    output: u64,
) -> (r: Result<ImmediateCall, vx_status>)
    ensures
        call_value(r) == Ok::<CallSpec, vx_status>(
            plain_call(
                Routine::Of(Kernel::GaussianPyramid),
                ContextArg::Given(context),
                BorderArg::Unused,
                seq![KernelArg::Ref(input), KernelArg::Ref(output)],
            ),
        ),
{
    let args: Vec<KernelArg> = vec![KernelArg::Ref(input), KernelArg::Ref(output)];
    assert(args@ =~= seq![KernelArg::Ref(input), KernelArg::Ref(output)]);
    Ok(call(Routine::Of(Kernel::GaussianPyramid), ContextArg::Given(context), BorderArg::Unused, args))
}

/// Takes an image apart into a Laplacian pyramid at once.
pub fn vxuLaplacianPyramid(
    context: u64,
    input: u64,
    laplacian: u64,
    output: u64,
) -> (r: Result<ImmediateCall, vx_status>)
    ensures
        call_value(r) == Ok::<CallSpec, vx_status>(
            plain_call(
                Routine::Of(Kernel::LaplacianPyramid),
                ContextArg::Given(context),
                BorderArg::Unused,
                seq![KernelArg::Ref(input), KernelArg::Ref(laplacian), KernelArg::Ref(output)],
            ),
        ),
{
    let args: Vec<KernelArg> = vec![KernelArg::Ref(input), KernelArg::Ref(laplacian), KernelArg::Ref(output)];
    assert(args@ =~= seq![KernelArg::Ref(input), KernelArg::Ref(laplacian), KernelArg::Ref(output)]);
    Ok(call(Routine::Of(Kernel::LaplacianPyramid), ContextArg::Given(context), BorderArg::Unused, args))
}

/// Puts an image together from a Laplacian pyramid at once.
pub fn vxuLaplacianReconstruct(
    context: u64,
    laplacian: u64,
    input: u64,
    output: u64,
) -> (r: Result<ImmediateCall, vx_status>)
    ensures
        call_value(r) == Ok::<CallSpec, vx_status>(
            plain_call(
                Routine::Of(Kernel::LaplacianReconstruct),
                ContextArg::Given(context),
                BorderArg::Unused,
                seq![KernelArg::Ref(laplacian), KernelArg::Ref(input), KernelArg::Ref(output)],
            ),
        ),
{
    let args: Vec<KernelArg> = vec![KernelArg::Ref(laplacian), KernelArg::Ref(input), KernelArg::Ref(output)];
    assert(args@ =~= seq![KernelArg::Ref(laplacian), KernelArg::Ref(input), KernelArg::Ref(output)]);
    Ok(call(Routine::Of(Kernel::LaplacianReconstruct), ContextArg::Given(context), BorderArg::Unused, args))
}

/// Compares pixels with a threshold at once.
pub fn vxuThreshold(
    context: u64,
    input: u64,
    thresh: u64,
    output: u64,
) -> (r: Result<ImmediateCall, vx_status>)
    ensures
        call_value(r) == Ok::<CallSpec, vx_status>(
            plain_call(
                Routine::Of(Kernel::Threshold),
                ContextArg::Given(context),
                BorderArg::Unused,
                seq![KernelArg::Ref(input), KernelArg::Ref(thresh), KernelArg::Ref(output)],
            ),
        ),
{
    let args: Vec<KernelArg> = vec![KernelArg::Ref(input), KernelArg::Ref(thresh), KernelArg::Ref(output)];
    assert(args@ =~= seq![KernelArg::Ref(input), KernelArg::Ref(thresh), KernelArg::Ref(output)]);
    Ok(call(Routine::Of(Kernel::Threshold), ContextArg::Given(context), BorderArg::Unused, args))
}

/// Combines the bits of pixels with and at once.
pub fn vxuAnd(
    context: u64,
    in1: u64,
    in2: u64,
    output: u64,
) -> (r: Result<ImmediateCall, vx_status>)
    ensures
        call_value(r) == Ok::<CallSpec, vx_status>(
            plain_call(
                Routine::Of(Kernel::And),
                ContextArg::Given(context),
                BorderArg::Unused,
                seq![KernelArg::Ref(in1), KernelArg::Ref(in2), KernelArg::Ref(output)],
            ),
        ),
{
    let args: Vec<KernelArg> = vec![KernelArg::Ref(in1), KernelArg::Ref(in2), KernelArg::Ref(output)];
    assert(args@ =~= seq![KernelArg::Ref(in1), KernelArg::Ref(in2), KernelArg::Ref(output)]);
    Ok(call(Routine::Of(Kernel::And), ContextArg::Given(context), BorderArg::Unused, args))
}

/// Combines the bits of pixels with or at once.
pub fn vxuOr(context: u64, in1: u64, in2: u64, output: u64) -> (r: Result<ImmediateCall, vx_status>)
    ensures
        call_value(r) == Ok::<CallSpec, vx_status>(
            plain_call(
                Routine::Of(Kernel::Or),
                ContextArg::Given(context),
                BorderArg::Unused,
                seq![KernelArg::Ref(in1), KernelArg::Ref(in2), KernelArg::Ref(output)],
            ),
        ),
{
    let args: Vec<KernelArg> = vec![KernelArg::Ref(in1), KernelArg::Ref(in2), KernelArg::Ref(output)];
    assert(args@ =~= seq![KernelArg::Ref(in1), KernelArg::Ref(in2), KernelArg::Ref(output)]);
    Ok(call(Routine::Of(Kernel::Or), ContextArg::Given(context), BorderArg::Unused, args))
}

/// Combines the bits of pixels with xor at once.
pub fn vxuXor(
    context: u64,
    in1: u64,
    in2: u64,
    output: u64,
) -> (r: Result<ImmediateCall, vx_status>)
    ensures
        call_value(r) == Ok::<CallSpec, vx_status>(
            plain_call(
                Routine::Of(Kernel::Xor),
                ContextArg::Given(context),
                BorderArg::Unused,
                seq![KernelArg::Ref(in1), KernelArg::Ref(in2), KernelArg::Ref(output)],
            ),
        ),
{
    let args: Vec<KernelArg> = vec![KernelArg::Ref(in1), KernelArg::Ref(in2), KernelArg::Ref(output)];
    assert(args@ =~= seq![KernelArg::Ref(in1), KernelArg::Ref(in2), KernelArg::Ref(output)]);
    Ok(call(Routine::Of(Kernel::Xor), ContextArg::Given(context), BorderArg::Unused, args))
}

/// Inverts the bits of pixels at once.
pub fn vxuNot(context: u64, input: u64, output: u64) -> (r: Result<ImmediateCall, vx_status>)
    ensures
        call_value(r) == Ok::<CallSpec, vx_status>(
            plain_call(
                Routine::Of(Kernel::Not),
                ContextArg::Given(context),
                BorderArg::Unused,
                seq![KernelArg::Ref(input), KernelArg::Ref(output)],
            ),
        ),
{
    let args: Vec<KernelArg> = vec![KernelArg::Ref(input), KernelArg::Ref(output)];
    assert(args@ =~= seq![KernelArg::Ref(input), KernelArg::Ref(output)]);
    Ok(call(Routine::Of(Kernel::Not), ContextArg::Given(context), BorderArg::Unused, args))
}

/// Smooths an image and halves it at once.
pub fn vxuHalfScaleGaussian(
    context: u64,
    input: u64,
    output: u64,
    kernel_size: u64,
) -> (r: Result<ImmediateCall, vx_status>)
    ensures
        call_value(r) == if context == 0 || input == 0 || output == 0 {
            Err::<CallSpec, vx_status>(VX_ERROR_INVALID_REFERENCE)
        } else {
            Ok::<CallSpec, vx_status>(
                plain_call(
                    Routine::Of(Kernel::HalfScaleGaussian),
                    ContextArg::Given(context),
                    BorderArg::Unused,
                    seq![
                        KernelArg::Ref(input),
                        KernelArg::Ref(output),
                        KernelArg::Size(kernel_size),
                    ],
                ),
            )
        },
{
    if context == 0 || input == 0 || output == 0 {
        return Err(VX_ERROR_INVALID_REFERENCE);
    }
    let args: Vec<KernelArg> = vec![KernelArg::Ref(input), KernelArg::Ref(output), KernelArg::Size(kernel_size)];
    assert(args@ =~= seq![KernelArg::Ref(input), KernelArg::Ref(output), KernelArg::Size(kernel_size)]);
    Ok(call(Routine::Of(Kernel::HalfScaleGaussian), ContextArg::Given(context), BorderArg::Unused, args))
}

/// Converts between depths at once.
pub fn vxuConvertDepth(
    context: u64,
    input: u64,
    output: u64,
    policy: i32,
    shift: i32,
) -> (r: Result<ImmediateCall, vx_status>)
    ensures
        call_value(r) == if context == 0 || input == 0 || output == 0 {
            Err::<CallSpec, vx_status>(VX_ERROR_INVALID_REFERENCE)
        } else {
            Ok::<CallSpec, vx_status>(
                plain_call(
                    Routine::Of(Kernel::ConvertDepth),
                    ContextArg::Given(context),
                    BorderArg::Unused,
                    seq![
                        KernelArg::Ref(input),
                        KernelArg::Ref(output),
                        KernelArg::Int(policy),
                        KernelArg::Int(shift),
                    ],
                ),
            )
        },
{
    if context == 0 || input == 0 || output == 0 {
        return Err(VX_ERROR_INVALID_REFERENCE);
    }
    let args: Vec<KernelArg> = vec![
        KernelArg::Ref(input),
        KernelArg::Ref(output),
        KernelArg::Int(policy),
        KernelArg::Int(shift),
    ];
    assert(args@ =~= seq![
        KernelArg::Ref(input),
        KernelArg::Ref(output),
        KernelArg::Int(policy),
        KernelArg::Int(shift),
    ]);
    Ok(call(Routine::Of(Kernel::ConvertDepth), ContextArg::Given(context), BorderArg::Unused, args))
}

/// Evens the histogram of an image at once.
pub fn vxuEqualizeHist(
    context: u64,
    input: u64,
    output: u64,
) -> (r: Result<ImmediateCall, vx_status>)
    ensures
        call_value(r) == if context == 0 || input == 0 || output == 0 {
            Err::<CallSpec, vx_status>(VX_ERROR_INVALID_REFERENCE)
        } else {
            Ok::<CallSpec, vx_status>(
                plain_call(
                    Routine::Of(Kernel::EqualizeHistogram),
                    ContextArg::Given(context),
                    BorderArg::Unused,
                    seq![KernelArg::Ref(input), KernelArg::Ref(output)],
                ),
            )
        },
{
    if context == 0 || input == 0 || output == 0 {
        return Err(VX_ERROR_INVALID_REFERENCE);
    }
    let args: Vec<KernelArg> = vec![KernelArg::Ref(input), KernelArg::Ref(output)];
    assert(args@ =~= seq![KernelArg::Ref(input), KernelArg::Ref(output)]);
    Ok(call(Routine::Of(Kernel::EqualizeHistogram), ContextArg::Given(context), BorderArg::Unused, args))
}

/// Sums gradients up by cells at once.
pub fn vxuHOGCells(
    context: u64,
    input: u64,
    cell_width: i32,
    cell_height: i32,
    num_bins: i32,
    magnitudes: u64,
    bins: u64,
) -> (r: Result<ImmediateCall, vx_status>)
    ensures
        call_value(r) == if context == 0 || input == 0 || magnitudes == 0 || bins == 0 {
            Err::<CallSpec, vx_status>(VX_ERROR_INVALID_PARAMETERS)
        } else {
            Ok::<CallSpec, vx_status>(
                plain_call(
                    Routine::Of(Kernel::HogCells),
                    ContextArg::Given(context),
                    BorderArg::Unused,
                    seq![
                        KernelArg::Ref(input),
                        KernelArg::Int(cell_width),
                        KernelArg::Int(cell_height),
                        KernelArg::Int(num_bins),
                        KernelArg::Ref(magnitudes),
                        KernelArg::Ref(bins),
                    ],
                ),
            )
        },
{
    if context == 0 || input == 0 || magnitudes == 0 || bins == 0 {
        return Err(VX_ERROR_INVALID_PARAMETERS);
    }
    let args: Vec<KernelArg> = vec![
        KernelArg::Ref(input),
        KernelArg::Int(cell_width),
        KernelArg::Int(cell_height),
        KernelArg::Int(num_bins),
        KernelArg::Ref(magnitudes),
        KernelArg::Ref(bins),
    ];
    assert(args@ =~= seq![
        KernelArg::Ref(input),
        KernelArg::Int(cell_width),
        KernelArg::Int(cell_height),
        KernelArg::Int(num_bins),
        KernelArg::Ref(magnitudes),
        KernelArg::Ref(bins),
    ]);
    Ok(call(Routine::Of(Kernel::HogCells), ContextArg::Given(context), BorderArg::Unused, args))
}

/// Turns cells into features at once.  The image may be missing.
pub fn vxuHOGFeatures(
    context: u64,
    input: u64,
    magnitudes: u64,
    bins: u64,
    params: u64,
    hog_param_size: u64,
    features: u64,
) -> (r: Result<ImmediateCall, vx_status>)
    ensures
        call_value(r) == if context == 0 || magnitudes == 0 || bins == 0 || params == 0 || features == 0 {
            Err::<CallSpec, vx_status>(VX_ERROR_INVALID_PARAMETERS)
        } else {
            Ok::<CallSpec, vx_status>(
                plain_call(
                    Routine::Of(Kernel::HogFeatures),
                    ContextArg::Given(context),
                    BorderArg::Unused,
                    seq![
                        KernelArg::Ref(input),
                        KernelArg::Ref(magnitudes),
                        KernelArg::Ref(bins),
                        KernelArg::Ref(params),
                        KernelArg::Size(hog_param_size),
                        KernelArg::Ref(features),
                    ],
                ),
            )
        },
{
    if context == 0 || magnitudes == 0 || bins == 0 || params == 0 || features == 0 {
        return Err(VX_ERROR_INVALID_PARAMETERS);
    }
    let args: Vec<KernelArg> = vec![
        KernelArg::Ref(input),
        KernelArg::Ref(magnitudes),
        KernelArg::Ref(bins),
        KernelArg::Ref(params),
        KernelArg::Size(hog_param_size),
        KernelArg::Ref(features),
    ];
    assert(args@ =~= seq![
        KernelArg::Ref(input),
        KernelArg::Ref(magnitudes),
        KernelArg::Ref(bins),
        KernelArg::Ref(params),
        KernelArg::Size(hog_param_size),
        KernelArg::Ref(features),
    ]);
    Ok(call(Routine::Of(Kernel::HogFeatures), ContextArg::Given(context), BorderArg::Unused, args))
}

/// Copies an object at once.
pub fn vxuCopy(_context: u64, input: u64, output: u64) -> (r: Result<ImmediateCall, vx_status>)
    ensures
        call_value(r) == Ok::<CallSpec, vx_status>(
            plain_call(
                Routine::Of(Kernel::Copy),
                ContextArg::Nothing,
                BorderArg::Unused,
                seq![KernelArg::Ref(input), KernelArg::Ref(output)],
            ),
        ),
{
    let args: Vec<KernelArg> = vec![KernelArg::Ref(input), KernelArg::Ref(output)];
    assert(args@ =~= seq![KernelArg::Ref(input), KernelArg::Ref(output)]);
    Ok(call(Routine::Of(Kernel::Copy), ContextArg::Nothing, BorderArg::Unused, args))
}

/// Adds tensors at once.
pub fn vxuTensorAdd(
    context: u64,
    input1: u64,
    input2: u64,
    policy: i32,
    output: u64,
) -> (r: Result<ImmediateCall, vx_status>)
    ensures
        call_value(r) == if context == 0 || input1 == 0 || input2 == 0 || output == 0 {
            Err::<CallSpec, vx_status>(VX_ERROR_INVALID_REFERENCE)
        } else {
            Ok::<CallSpec, vx_status>(
                plain_call(
                    Routine::Of(Kernel::TensorAdd),
                    ContextArg::Nothing,
                    BorderArg::Unused,
                    seq![
                        KernelArg::Ref(input1),
                        KernelArg::Ref(input2),
                        KernelArg::Int(policy),
                        KernelArg::Ref(output),
                    ],
                ),
            )
        },
{
    if context == 0 || input1 == 0 || input2 == 0 || output == 0 {
        return Err(VX_ERROR_INVALID_REFERENCE);
    }
    let args: Vec<KernelArg> = vec![
        KernelArg::Ref(input1),
        KernelArg::Ref(input2),
        KernelArg::Int(policy),
        KernelArg::Ref(output),
    ];
    assert(args@ =~= seq![
        KernelArg::Ref(input1),
        KernelArg::Ref(input2),
        KernelArg::Int(policy),
        KernelArg::Ref(output),
    ]);
    Ok(call(Routine::Of(Kernel::TensorAdd), ContextArg::Nothing, BorderArg::Unused, args))
}

/// Subtracts tensors at once.
pub fn vxuTensorSubtract(
    context: u64,
    input1: u64,
    input2: u64,
    policy: i32,
    output: u64,
) -> (r: Result<ImmediateCall, vx_status>)
    ensures
        call_value(r) == if context == 0 || input1 == 0 || input2 == 0 || output == 0 {
            Err::<CallSpec, vx_status>(VX_ERROR_INVALID_REFERENCE)
        } else {
            Ok::<CallSpec, vx_status>(
                plain_call(
                    Routine::Of(Kernel::TensorSubtract),
                    ContextArg::Nothing,
                    BorderArg::Unused,
                    seq![
                        KernelArg::Ref(input1),
                        KernelArg::Ref(input2),
                        KernelArg::Int(policy),
                        KernelArg::Ref(output),
                    ],
                ),
            )
        },
{
    if context == 0 || input1 == 0 || input2 == 0 || output == 0 {
        return Err(VX_ERROR_INVALID_REFERENCE);
    }
    let args: Vec<KernelArg> = vec![
        KernelArg::Ref(input1),
        KernelArg::Ref(input2),
        KernelArg::Int(policy),
        KernelArg::Ref(output),
    ];
    assert(args@ =~= seq![
        KernelArg::Ref(input1),
        KernelArg::Ref(input2),
        KernelArg::Int(policy),
        KernelArg::Ref(output),
    ]);
    Ok(call(Routine::Of(Kernel::TensorSubtract), ContextArg::Nothing, BorderArg::Unused, args))
}

/// Multiplies tensors at once.
pub fn vxuTensorMultiply(
    context: u64,
    input1: u64,
    input2: u64,
    scale: u64,
    overflow_policy: i32,
    rounding_policy: i32,
    output: u64,
) -> (r: Result<ImmediateCall, vx_status>)
    ensures
        call_value(r) == if context == 0 || input1 == 0 || input2 == 0 || scale == 0 || output == 0 {
            Err::<CallSpec, vx_status>(VX_ERROR_INVALID_REFERENCE)
        } else {
            Ok::<CallSpec, vx_status>(
                plain_call(
                    Routine::Of(Kernel::TensorMultiply),
                    ContextArg::Nothing,
                    BorderArg::Unused,
                    seq![
                        KernelArg::Ref(input1),
                        KernelArg::Ref(input2),
                        KernelArg::Ref(scale),
                        KernelArg::Int(overflow_policy),
                        KernelArg::Int(rounding_policy),
                        KernelArg::Ref(output),
                    ],
                ),
            )
        },
{
    if context == 0 || input1 == 0 || input2 == 0 || scale == 0 || output == 0 {
        return Err(VX_ERROR_INVALID_REFERENCE);
    }
    let args: Vec<KernelArg> = vec![
        KernelArg::Ref(input1),
        KernelArg::Ref(input2),
        KernelArg::Ref(scale),
        KernelArg::Int(overflow_policy),
        KernelArg::Int(rounding_policy),
        KernelArg::Ref(output),
    ];
    assert(args@ =~= seq![
        KernelArg::Ref(input1),
        KernelArg::Ref(input2),
        KernelArg::Ref(scale),
        KernelArg::Int(overflow_policy),
        KernelArg::Int(rounding_policy),
        KernelArg::Ref(output),
    ]);
    Ok(call(Routine::Of(Kernel::TensorMultiply), ContextArg::Nothing, BorderArg::Unused, args))
}

/// Multiplies matrices at once.  The third input and the parameters may be missing.
pub fn vxuTensorMatrixMultiply(
    context: u64,
    input1: u64,
    input2: u64,
    input3: u64,
    matrix_multiply_params: u64,
    output: u64,
) -> (r: Result<ImmediateCall, vx_status>)
    ensures
        call_value(r) == if context == 0 || input1 == 0 || input2 == 0 || output == 0 {
            Err::<CallSpec, vx_status>(VX_ERROR_INVALID_REFERENCE)
        } else {
            Ok::<CallSpec, vx_status>(
                plain_call(
                    Routine::Of(Kernel::TensorMatrixMultiply),
                    ContextArg::Nothing,
                    BorderArg::Unused,
                    seq![
                        KernelArg::Ref(input1),
                        KernelArg::Ref(input2),
                        KernelArg::Ref(input3),
                        KernelArg::Ref(matrix_multiply_params),
                        KernelArg::Ref(output),
                    ],
                ),
            )
        },
{
    if context == 0 || input1 == 0 || input2 == 0 || output == 0 {
        return Err(VX_ERROR_INVALID_REFERENCE);
    }
    let args: Vec<KernelArg> = vec![
        KernelArg::Ref(input1),
        KernelArg::Ref(input2),
        KernelArg::Ref(input3),
        KernelArg::Ref(matrix_multiply_params),
        KernelArg::Ref(output),
    ];
    assert(args@ =~= seq![
        KernelArg::Ref(input1),
        KernelArg::Ref(input2),
        KernelArg::Ref(input3),
        KernelArg::Ref(matrix_multiply_params),
        KernelArg::Ref(output),
    ]);
    Ok(call(Routine::Of(Kernel::TensorMatrixMultiply), ContextArg::Nothing, BorderArg::Unused, args))
}

/// Looks the elements of a tensor up in a table at once.
pub fn vxuTensorTableLookup(
    context: u64,
    input1: u64,
    lut: u64,
    output: u64,
) -> (r: Result<ImmediateCall, vx_status>)
    ensures
        call_value(r) == if context == 0 || input1 == 0 || lut == 0 || output == 0 {
            Err::<CallSpec, vx_status>(VX_ERROR_INVALID_REFERENCE)
        } else {
            Ok::<CallSpec, vx_status>(
                plain_call(
                    Routine::Of(Kernel::TensorTableLookup),
                    ContextArg::Nothing,
                    BorderArg::Unused,
                    seq![KernelArg::Ref(input1), KernelArg::Ref(lut), KernelArg::Ref(output)],
                ),
            )
        },
{
    if context == 0 || input1 == 0 || lut == 0 || output == 0 {
        return Err(VX_ERROR_INVALID_REFERENCE);
    }
    let args: Vec<KernelArg> = vec![KernelArg::Ref(input1), KernelArg::Ref(lut), KernelArg::Ref(output)];
    assert(args@ =~= seq![KernelArg::Ref(input1), KernelArg::Ref(lut), KernelArg::Ref(output)]);
    Ok(call(Routine::Of(Kernel::TensorTableLookup), ContextArg::Nothing, BorderArg::Unused, args))
}

/// Swaps two dimensions of a tensor at once.
pub fn vxuTensorTranspose(
    context: u64,
    input: u64,
    output: u64,
    dimension1: u64,
    dimension2: u64,
) -> (r: Result<ImmediateCall, vx_status>)
    ensures
        call_value(r) == if context == 0 || input == 0 || output == 0 {
            Err::<CallSpec, vx_status>(VX_ERROR_INVALID_REFERENCE)
        } else {
            Ok::<CallSpec, vx_status>(
                plain_call(
                    Routine::Of(Kernel::TensorTranspose),
                    ContextArg::Nothing,
                    BorderArg::Unused,
                    seq![
                        KernelArg::Ref(input),
                        KernelArg::Ref(output),
                        KernelArg::Size(dimension1),
                        KernelArg::Size(dimension2),
                    ],
                ),
            )
        },
{
    if context == 0 || input == 0 || output == 0 {
        return Err(VX_ERROR_INVALID_REFERENCE);
    }
    let args: Vec<KernelArg> = vec![
        KernelArg::Ref(input),
        KernelArg::Ref(output),
        KernelArg::Size(dimension1),
        KernelArg::Size(dimension2),
    ];
    assert(args@ =~= seq![
        KernelArg::Ref(input),
        KernelArg::Ref(output),
        KernelArg::Size(dimension1),
        KernelArg::Size(dimension2),
    ]);
    Ok(call(Routine::Of(Kernel::TensorTranspose), ContextArg::Nothing, BorderArg::Unused, args))
}

/// Converts the elements of a tensor at once.
pub fn vxuTensorConvertDepth(
    context: u64,
    input: u64,
    policy: i32,
    norm: u64,
    offset: u64,
    output: u64,
) -> (r: Result<ImmediateCall, vx_status>)
    ensures
        call_value(r) == if context == 0 || input == 0 || norm == 0 || offset == 0 || output == 0 {
            Err::<CallSpec, vx_status>(VX_ERROR_INVALID_REFERENCE)
        } else {
            Ok::<CallSpec, vx_status>(
                plain_call(
                    Routine::Of(Kernel::TensorConvertDepth),
                    ContextArg::Nothing,
                    BorderArg::Unused,
                    seq![
                        KernelArg::Ref(input),
                        KernelArg::Int(policy),
                        KernelArg::Ref(norm),
                        KernelArg::Ref(offset),
                        KernelArg::Ref(output),
                    ],
                ),
            )
        },
{
    if context == 0 || input == 0 || norm == 0 || offset == 0 || output == 0 {
        return Err(VX_ERROR_INVALID_REFERENCE);
    }
    let args: Vec<KernelArg> = vec![
        KernelArg::Ref(input),
        KernelArg::Int(policy),
        KernelArg::Ref(norm),
        KernelArg::Ref(offset),
        KernelArg::Ref(output),
    ];
    assert(args@ =~= seq![
        KernelArg::Ref(input),
        KernelArg::Int(policy),
        KernelArg::Ref(norm),
        KernelArg::Ref(offset),
        KernelArg::Ref(output),
    ]);
    Ok(call(Routine::Of(Kernel::TensorConvertDepth), ContextArg::Nothing, BorderArg::Unused, args))
}

/// The histogram of an image is not evened at once under this name.
pub fn vxuEqualizeHistogram(context: u64, input: u64, output: u64) -> (status: vx_status)
    ensures
        status == if context == 0 || input == 0 || output == 0 {
            VX_ERROR_INVALID_REFERENCE
        } else {
            VX_ERROR_NOT_IMPLEMENTED
        },
{
    if context == 0 || input == 0 || output == 0 {
        return VX_ERROR_INVALID_REFERENCE;
    }
    VX_ERROR_NOT_IMPLEMENTED
}

/// Whether a four-byte floating-point number, given by its bit pattern, is zero
/// or less.
pub open spec fn is_not_above_zero(bits: u32) -> bool {
    bits == 0 || 0x8000_0000 <= bits <= 0xFF80_0000
}

/// Smooths a tensor and keeps its edges at once.  The diameter must be odd, the
/// sigmas, given by their bit patterns, above zero.  The border is that of the
/// context.
pub fn vxuBilateralFilter(
    contexts: &HashMap<u64, VxCContext>,
    context: u64,
    src: u64,
    diameter: i32,
    sigma_space: u32,
    sigma_values: u32,
    dst: u64,
) -> (r: Result<ImmediateCall, vx_status>)
    ensures
        call_value(r) == if context == 0 || src == 0 || dst == 0 {
            Err::<CallSpec, vx_status>(VX_ERROR_INVALID_REFERENCE)
        } else if diameter <= 0 || diameter % 2 == 0 || is_not_above_zero(sigma_space)
            || is_not_above_zero(sigma_values) {
            Err::<CallSpec, vx_status>(VX_ERROR_INVALID_PARAMETERS)
        } else {
            Ok::<CallSpec, vx_status>(
                plain_call(
                    Routine::Of(Kernel::BilateralFilter),
                    ContextArg::Given(context),
                    BorderArg::AsGiven(Some(crate::contexts::border_of(contexts@, context))),
                    seq![
                        KernelArg::Ref(src),
                        KernelArg::Int(diameter),
                        KernelArg::Bits(sigma_space),
                        KernelArg::Bits(sigma_values),
                        KernelArg::Ref(dst),
                    ],
                ),
            )
        },
{
    if context == 0 || src == 0 || dst == 0 {
        return Err(VX_ERROR_INVALID_REFERENCE);
    }
    if diameter <= 0 {
        return Err(VX_ERROR_INVALID_PARAMETERS);
    }
    if (diameter as u32) % 2 == 0 {
        return Err(VX_ERROR_INVALID_PARAMETERS);
    }
    let flat_space = sigma_space == 0 || (sigma_space >= 0x8000_0000 && sigma_space
        <= 0xFF80_0000);
    let flat_values = sigma_values == 0 || (sigma_values >= 0x8000_0000 && sigma_values
        <= 0xFF80_0000);
    if flat_space || flat_values {
        return Err(VX_ERROR_INVALID_PARAMETERS);
    }
    let border = match contexts.get(&context) {
        Some(c) => c.border_mode,
        None => vx_border_t { mode: VX_BORDER_UNDEFINED, constant_value: zero_value() },
    };
    let args: Vec<KernelArg> = vec![
        KernelArg::Ref(src),
        KernelArg::Int(diameter),
        KernelArg::Bits(sigma_space),
        KernelArg::Bits(sigma_values),
        KernelArg::Ref(dst),
    ];
    assert(args@ =~= seq![
        KernelArg::Ref(src),
        KernelArg::Int(diameter),
        KernelArg::Bits(sigma_space),
        KernelArg::Bits(sigma_values),
        KernelArg::Ref(dst),
    ]);
    Ok(
        call(
            Routine::Of(Kernel::BilateralFilter),
            ContextArg::Given(context),
            BorderArg::AsGiven(Some(border)),
            args,
        ),
    )
}

/// The call of a routine for which scalars are made.
pub open spec fn seeded_call(
    routine: Kernel,
    context: ContextArg,
    seeds: Seq<Seed>,
    args: Seq<CallArg>,
    results: Seq<(usize, u64)>,
) -> CallSpec {
    CallSpec {
        routine: Routine::Of(routine),
        context,
        border: BorderArg::Unused,
        seeds,
        args,
        results,
    }
}

/// Takes local binary patterns at once, in the context of the image.
pub fn vxuLBP(_context: u64, input: u64, format: vx_enum, kernel_size: i8, output: u64) -> (r:
    ImmediateCall)
    ensures
        r@ == seeded_call(
            Kernel::Lbp,
            ContextArg::Of(input),
            seq![
                crate::construction::enum_seed(format),
                crate::image_nodes::small_seed(kernel_size),
            ],
            seq![
                CallArg::Plain(KernelArg::Ref(input)),
                CallArg::Made(0),
                CallArg::Made(1),
                CallArg::Plain(KernelArg::Ref(output)),
            ],
            Seq::empty(),
        ),
{
    let seeds: Vec<Seed> = vec![seed_enum(format), seed_small(kernel_size)];
    let args: Vec<CallArg> = vec![
        CallArg::Plain(KernelArg::Ref(input)),
        CallArg::Made(0),
        CallArg::Made(1),
        CallArg::Plain(KernelArg::Ref(output)),
    ];
    assert(seeds@ =~= seq![
        crate::construction::enum_seed(format),
        crate::image_nodes::small_seed(kernel_size),
    ]);
    assert(args@ =~= seq![
        CallArg::Plain(KernelArg::Ref(input)),
        CallArg::Made(0),
        CallArg::Made(1),
        CallArg::Plain(KernelArg::Ref(output)),
    ]);
    ImmediateCall {
        routine: Routine::Of(Kernel::Lbp),
        context: ContextArg::Of(input),
        border: BorderArg::Unused,
        seeds,
        args,
        results: Vec::new(),
    }
}

/// Looks for a template at once, in the context of the image.
pub fn vxuMatchTemplate(
    _context: u64,
    src: u64,
    templ: u64,
    matching_method: vx_enum,
    output: u64,
) -> (r: Result<ImmediateCall, vx_status>)
    ensures
        call_value(r) == if src == 0 || templ == 0 || output == 0 {
            Err::<CallSpec, vx_status>(VX_ERROR_INVALID_PARAMETERS)
        } else {
            Ok::<CallSpec, vx_status>(
                seeded_call(
                    Kernel::MatchTemplate,
                    ContextArg::Of(src),
                    seq![crate::construction::enum_seed(matching_method)],
                    seq![
                        CallArg::Plain(KernelArg::Ref(src)),
                        CallArg::Plain(KernelArg::Ref(templ)),
                        CallArg::Made(0),
                        CallArg::Plain(KernelArg::Ref(output)),
                    ],
                    Seq::empty(),
                ),
            )
        },
{
    if src == 0 || templ == 0 || output == 0 {
        return Err(VX_ERROR_INVALID_PARAMETERS);
    }
    let seeds: Vec<Seed> = vec![seed_enum(matching_method)];
    let args: Vec<CallArg> = vec![
        CallArg::Plain(KernelArg::Ref(src)),
        CallArg::Plain(KernelArg::Ref(templ)),
        CallArg::Made(0),
        CallArg::Plain(KernelArg::Ref(output)),
    ];
    assert(seeds@ =~= seq![crate::construction::enum_seed(matching_method)]);
    assert(args@ =~= seq![
        CallArg::Plain(KernelArg::Ref(src)),
        CallArg::Plain(KernelArg::Ref(templ)),
        CallArg::Made(0),
        CallArg::Plain(KernelArg::Ref(output)),
    ]);
    Ok(
        ImmediateCall {
            routine: Routine::Of(Kernel::MatchTemplate),
            context: ContextArg::Of(src),
            border: BorderArg::Unused,
            seeds,
            args,
            results: Vec::new(),
        },
    )
}

/// Keeps only the largest pixels of a window at once, in the context of the
/// image.
pub fn vxuNonMaxSuppression(_context: u64, input: u64, mask: u64, win_size: i32, output: u64) -> (r:
    ImmediateCall)
    ensures
        r@ == seeded_call(
            Kernel::NonMaxSuppression,
            ContextArg::Of(input),
            seq![
                crate::construction::word_seed(VX_TYPE_INT32, crate::scalar::bits32(win_size)),
            ],
            seq![
                CallArg::Plain(KernelArg::Ref(input)),
                CallArg::Plain(KernelArg::Ref(mask)),
                CallArg::Made(0),
                CallArg::Plain(KernelArg::Ref(output)),
            ],
            Seq::empty(),
        ),
{
    let seeds: Vec<Seed> = vec![seed_word(VX_TYPE_INT32, to_bits32(win_size))];
    let args: Vec<CallArg> = vec![
        CallArg::Plain(KernelArg::Ref(input)),
        CallArg::Plain(KernelArg::Ref(mask)),
        CallArg::Made(0),
        CallArg::Plain(KernelArg::Ref(output)),
    ];
    assert(seeds@ =~= seq![
        crate::construction::word_seed(VX_TYPE_INT32, crate::scalar::bits32(win_size)),
    ]);
    assert(args@ =~= seq![
        CallArg::Plain(KernelArg::Ref(input)),
        CallArg::Plain(KernelArg::Ref(mask)),
        CallArg::Made(0),
        CallArg::Plain(KernelArg::Ref(output)),
    ]);
    ImmediateCall {
        routine: Routine::Of(Kernel::NonMaxSuppression),
        context: ContextArg::Of(input),
        border: BorderArg::Unused,
        seeds,
        args,
        results: Vec::new(),
    }
}

/// Finds lines at once, in the context of the image.
pub fn vxuHoughLinesP(
    _context: u64,
    input: u64,
    params: HoughLines,
    lines_array: u64,
    _num_lines: u64,
) -> (r: ImmediateCall)
    ensures
        r@ == seeded_call(
            Kernel::HoughLinesP,
            ContextArg::Of(input),
            crate::feature_nodes::hough_seeds(params),
            seq![
                CallArg::Plain(KernelArg::Ref(input)),
                CallArg::Made(0),
                CallArg::Made(1),
                CallArg::Made(2),
                CallArg::Made(3),
                CallArg::Made(4),
                CallArg::Plain(KernelArg::Ref(lines_array)),
            ],
            Seq::empty(),
        ),
{
    let args: Vec<CallArg> = vec![
        CallArg::Plain(KernelArg::Ref(input)),
        CallArg::Made(0),
        CallArg::Made(1),
        CallArg::Made(2),
        CallArg::Made(3),
        CallArg::Made(4),
        CallArg::Plain(KernelArg::Ref(lines_array)),
    ];
    assert(args@ =~= seq![
        CallArg::Plain(KernelArg::Ref(input)),
        CallArg::Made(0),
        CallArg::Made(1),
        CallArg::Made(2),
        CallArg::Made(3),
        CallArg::Made(4),
        CallArg::Plain(KernelArg::Ref(lines_array)),
    ]);
    ImmediateCall {
        routine: Routine::Of(Kernel::HoughLinesP),
        context: ContextArg::Of(input),
        border: BorderArg::Unused,
        seeds: seed_hough(params),
        args,
        results: Vec::new(),
    }
}

/// Takes the mean and standard deviation at once.  Both are made as zeros and
/// copied to the places that were given.
pub fn vxuMeanStdDev(context: u64, input: u64, mean_ptr: u64, stddev_ptr: u64) -> (r: Result<
    ImmediateCall,
    vx_status,
>)
    ensures
        call_value(r) == if context == 0 || input == 0 {
            Err::<CallSpec, vx_status>(VX_ERROR_INVALID_REFERENCE)
        } else {
            Ok::<CallSpec, vx_status>(
                seeded_call(
                    Kernel::MeanStdDev,
                    ContextArg::Given(context),
                    seq![
                        crate::construction::word_seed(VX_TYPE_FLOAT32, 0),
                        crate::construction::word_seed(VX_TYPE_FLOAT32, 0),
                    ],
                    seq![
                        CallArg::Plain(KernelArg::Ref(input)),
                        CallArg::Made(0),
                        CallArg::Made(1),
                    ],
                    seq![(0usize, mean_ptr), (1usize, stddev_ptr)],
                ),
            )
        },
{
    if context == 0 || input == 0 {
        return Err(VX_ERROR_INVALID_REFERENCE);
    }
    let seeds: Vec<Seed> = vec![
        seed_word(VX_TYPE_FLOAT32, 0),
        seed_word(VX_TYPE_FLOAT32, 0),
    ];
    let args: Vec<CallArg> = vec![
        CallArg::Plain(KernelArg::Ref(input)),
        CallArg::Made(0),
        CallArg::Made(1),
    ];
    let results: Vec<(usize, u64)> = vec![(0, mean_ptr), (1, stddev_ptr)];
    assert(seeds@ =~= seq![
        crate::construction::word_seed(VX_TYPE_FLOAT32, 0),
        crate::construction::word_seed(VX_TYPE_FLOAT32, 0),
    ]);
    assert(args@ =~= seq![
        CallArg::Plain(KernelArg::Ref(input)),
        CallArg::Made(0),
        CallArg::Made(1),
    ]);
    assert(results@ =~= seq![(0usize, mean_ptr), (1usize, stddev_ptr)]);
    Ok(
        ImmediateCall {
            routine: Routine::Of(Kernel::MeanStdDev),
            context: ContextArg::Given(context),
            border: BorderArg::Unused,
            seeds,
            args,
            results,
        },
    )
}

/// What is left to do after a routine has run.
#[derive(Debug, Clone, Copy, PartialEq, Eq, Structural)]
pub enum Aftermath {
    /// The bytes of a scalar go to a place of the caller.
    CopyOut(u64, u64),
    Release(u64),
}

/// The handle of the scalar at a position, null where there is none.
pub open spec fn scalar_at(scalars: Seq<u64>, k: usize) -> u64 {
    if k < scalars.len() {
        scalars[k as int]
    } else {
        0
    }
}

/// The results that are copied out: those with a place to go to.
pub open spec fn copied_out(results: Seq<(usize, u64)>, scalars: Seq<u64>) -> Seq<Aftermath>
    decreases results.len(),
{
    if results.len() == 0 {
        Seq::empty()
    } else {
        let before = copied_out(results.drop_last(), scalars);
        if results.last().1 != 0 {
            before.push(Aftermath::CopyOut(scalar_at(scalars, results.last().0), results.last().1))
        } else {
            before
        }
    }
}

/// The scalars that are released: those that were made.
pub open spec fn released(scalars: Seq<u64>) -> Seq<Aftermath>
    decreases scalars.len(),
{
    if scalars.len() == 0 {
        Seq::empty()
    } else {
        let before = released(scalars.drop_last());
        if scalars.last() != 0 {
            before.push(Aftermath::Release(scalars.last()))
        } else {
            before
        }
    }
}

/// What is left to do after the routine of a call has run: where it succeeded
/// its results are copied out, and either way its scalars are released.
pub fn finish_call(results: &Vec<(usize, u64)>, scalars: &Vec<u64>, status: vx_status) -> (r: Vec<
    Aftermath,
>)
    ensures
        r@ == if status == VX_SUCCESS {
            copied_out(results@, scalars@) + released(scalars@)
        } else {
            released(scalars@)
        },
{
    let mut todo: Vec<Aftermath> = Vec::new();
    if status == VX_SUCCESS {
        assert(todo@ =~= copied_out(results@.take(0), scalars@));
        for i in 0..results.len()
            invariant
                todo@ == copied_out(results@.take(i as int), scalars@),
        {
            proof {
                assert(results@.take(i + 1).drop_last() =~= results@.take(i as int));
                assert(results@.take(i + 1).last() == results@[i as int]);
            }
            let (k, place) = results[i];
            if place != 0 {
                let handle: u64 = if k < scalars.len() {
                    scalars[k]
                } else {
                    0
                };
                todo.push(Aftermath::CopyOut(handle, place));
            }
        }
        assert(results@.take(results@.len() as int) =~= results@);
    }
    let ghost head = todo@;
    assert(todo@ =~= head + released(scalars@.take(0)));
    for i in 0..scalars.len()
        invariant
            todo@ == head + released(scalars@.take(i as int)),
    {
        proof {
            assert(scalars@.take(i + 1).drop_last() =~= scalars@.take(i as int));
            assert(scalars@.take(i + 1).last() == scalars@[i as int]);
        }
        if scalars[i] != 0 {
            todo.push(Aftermath::Release(scalars[i]));
        }
        assert(todo@ =~= head + released(scalars@.take(i + 1)));
    }
    assert(scalars@.take(scalars@.len() as int) =~= scalars@);
    if status != VX_SUCCESS {
        assert(head + released(scalars@) =~= released(scalars@));
    }
    todo
}

/// The four bytes of a scalar of the search, zero where it is missing.
pub open spec fn search_word(scalars: Map<u64, VxCScalar>, scalar: u64) -> u32 {
    crate::dispatch::patched32(0, crate::dispatch::scalar_bytes(scalars, scalar))
}

/// Follows points from one image to the next at once.  The parameters of the
/// search are read from their scalars.
pub fn vxuOpticalFlowPyrLK(
    scalars: &HashMap<u64, VxCScalar>,
    context: u64,
    old_images: u64,
    new_images: u64,
    old_points: u64,
    new_points_estimates: u64,
    new_points: u64,
    termination: vx_enum,
    epsilon_scalar: u64,
    num_iterations_scalar: u64,
    use_initial_estimate_scalar: u64,
    window_dimension: u64,
) -> (r: ImmediateCall)
    ensures
        r@ == plain_call(
            Routine::Of(Kernel::OpticalFlowPyrLK),
            ContextArg::Given(context),
            BorderArg::Unused,
            seq![
                KernelArg::Ref(old_images),
                KernelArg::Ref(new_images),
                KernelArg::Ref(old_points),
                KernelArg::Ref(new_points_estimates),
                KernelArg::Ref(new_points),
                KernelArg::Int(termination),
                KernelArg::Bits(search_word(scalars@, epsilon_scalar)),
                KernelArg::Bits(search_word(scalars@, num_iterations_scalar)),
                KernelArg::Bits(search_word(scalars@, use_initial_estimate_scalar)),
                KernelArg::Size(window_dimension),
            ],
        ),
{
    let epsilon: u32 = patch32(0, find_scalar(scalars, epsilon_scalar));
    let iterations: u32 = patch32(0, find_scalar(scalars, num_iterations_scalar));
    let initial: u32 = patch32(0, find_scalar(scalars, use_initial_estimate_scalar));
    let args: Vec<KernelArg> = vec![
        KernelArg::Ref(old_images),
        KernelArg::Ref(new_images),
        KernelArg::Ref(old_points),
        KernelArg::Ref(new_points_estimates),
        KernelArg::Ref(new_points),
        KernelArg::Int(termination),
        KernelArg::Bits(epsilon),
        KernelArg::Bits(iterations),
        KernelArg::Bits(initial),
        KernelArg::Size(window_dimension),
    ];
    assert(args@ =~= seq![
        KernelArg::Ref(old_images),
        KernelArg::Ref(new_images),
        KernelArg::Ref(old_points),
        KernelArg::Ref(new_points_estimates),
        KernelArg::Ref(new_points),
        KernelArg::Int(termination),
        KernelArg::Bits(search_word(scalars@, epsilon_scalar)),
        KernelArg::Bits(search_word(scalars@, num_iterations_scalar)),
        KernelArg::Bits(search_word(scalars@, use_initial_estimate_scalar)),
        KernelArg::Size(window_dimension),
    ]);
    call(
        Routine::Of(Kernel::OpticalFlowPyrLK),
        ContextArg::Given(context),
        BorderArg::Unused,
        args,
    )
}

/// A filter with a mask to run.
pub struct FilterCall {
    pub context: u64,
    pub input: u64,
    pub function: vx_enum,
    pub mask: Vec<u8>,
    pub columns: usize,
    pub rows: usize,
    pub origin_x: usize,
    pub origin_y: usize,
    pub output: u64,
    /// The border of the context, where the context is known.
    pub border: Option<vx_border_t>,
}

/// The border of a context that is known.
pub open spec fn known_border(contexts: Map<u64, VxCContext>, context: u64) -> Option<vx_border_t> {
    if contexts.contains_key(context) {
        Some(contexts[context].border_mode)
    } else {
        None
    }
}

/// Filters an image with a mask at once.
pub fn vxuNonLinearFilter(
    contexts: &HashMap<u64, VxCContext>,
    matrices: &HashMap<u64, VxCMatrix>,
    context: u64,
    function: vx_enum,
    input: u64,
    matrix: u64,
    output: u64,
) -> (r: Result<FilterCall, vx_status>)
    requires
        matrix != 0 ==> matrices@.contains_key(matrix),
    ensures
        if context == 0 || input == 0 || matrix == 0 || output == 0 {
            r == Err::<FilterCall, vx_status>(VX_ERROR_INVALID_REFERENCE)
        } else {
            let m = matrices@[matrix];
            r is Ok && r->Ok_0.context == context && r->Ok_0.input == input && r->Ok_0.function
                == function && r->Ok_0.mask@ == m.data@ && r->Ok_0.columns == m.columns
                && r->Ok_0.rows == m.rows && r->Ok_0.origin_x == m.origin_x && r->Ok_0.origin_y
                == m.origin_y && r->Ok_0.output == output && r->Ok_0.border == known_border(
                contexts@,
                context,
            )
        },
{
    if context == 0 || input == 0 || matrix == 0 || output == 0 {
        return Err(VX_ERROR_INVALID_REFERENCE);
    }
    let m = match matrices.get(&matrix) {
        Some(m) => m,
        None => return Err(VX_ERROR_INVALID_REFERENCE),
    };
    let border = match contexts.get(&context) {
        Some(c) => Some(c.border_mode),
        None => None,
    };
    let mask = m.data.clone();
    assert(mask@ =~= m.data@);
    Ok(
        FilterCall {
            context,
            input,
            function,
            mask,
            columns: m.columns,
            rows: m.rows,
            origin_x: m.origin_x,
            origin_y: m.origin_y,
            output,
            border,
        },
    )
}

/// Looks every pixel of an image up in a table at once.
pub fn vxuTableLookup(
    images: &mut HashMap<u64, VxCImage>,
    luts: &HashMap<u64, VxCLut>,
    context: u64,
    input: u64,
    lut: u64,
    output: u64,
) -> (status: vx_status)
    requires
        input != 0 && lut != 0 && output != 0 ==> {
            &&& input != output
            &&& old(images)@.contains_key(input)
            &&& old(images)@.contains_key(output)
            &&& luts@.contains_key(lut)
            &&& crate::lookups::lookup_fits(
                old(images)@[input],
                luts@[lut],
                old(images)@[output].format,
                old(images)@[output].data@,
            )
        },
    ensures
        status == if context == 0 || input == 0 || lut == 0 || output == 0 {
            VX_ERROR_INVALID_REFERENCE
        } else if luts@[lut].data_type != VX_TYPE_UINT8 && luts@[lut].data_type != VX_TYPE_INT16 {
            VX_ERROR_INVALID_FORMAT
        } else {
            VX_SUCCESS
        },
        if status == VX_SUCCESS {
            let img = old(images)@[output];
            &&& final(images)@.dom() == old(images)@.dom()
            &&& final(images)@.remove(output) == old(images)@.remove(output)
            &&& final(images)@[output] == (VxCImage { data: final(images)@[output].data, ..img })
            &&& final(images)@[output].data@ == crate::lookups::looked_up(
                old(images)@[input],
                luts@[lut],
                img.format,
                img.data@,
            )
        } else {
            final(images)@ == old(images)@
        },
{
    if context == 0 || input == 0 || lut == 0 || output == 0 {
        return VX_ERROR_INVALID_REFERENCE;
    }
    table_lookup_impl(images, luts, input, lut, output)
}

/// How far a graph of one node has come that is made, run and let go at once.
#[derive(Debug, Clone, Copy, PartialEq, Eq, Structural)]
pub enum OneShot {
    /// Nothing was asked for yet.
    Start,
    /// The graph is made.
    Graph,
    /// The node is made.
    Node,
    /// The graph is verified.
    Verify,
    /// The graph runs.
    Process,
    /// The graph is let go; the status is answered then.
    LetGo(vx_status),
    /// The status was answered.
    Done(vx_status),
}

/// What the host is to do for a graph of one node.
#[derive(Debug, Clone, Copy, PartialEq, Eq, Structural)]
pub enum OneShotAction {
    MakeGraph,
    MakeNode(u64),
    Verify(u64),
    Process(u64),
    Release(u64),
    Finished(vx_status),
}

/// What comes next for a graph of one node.
pub open spec fn one_shot_step(stage: OneShot, graph: u64, reply: Reply) -> (
    OneShot,
    u64,
    OneShotAction,
) {
    match stage {
        OneShot::Start => (OneShot::Graph, 0, OneShotAction::MakeGraph),
        OneShot::Graph => if reply.handle == 0 {
            (
                OneShot::Done(VX_ERROR_INVALID_REFERENCE),
                0,
                OneShotAction::Finished(VX_ERROR_INVALID_REFERENCE),
            )
        } else {
            (OneShot::Node, reply.handle, OneShotAction::MakeNode(reply.handle))
        },
        OneShot::Node => if reply.handle == 0 {
            (
                OneShot::LetGo(VX_ERROR_INVALID_REFERENCE),
                graph,
                OneShotAction::Release(graph),
            )
        } else {
            (OneShot::Verify, graph, OneShotAction::Verify(graph))
        },
        OneShot::Verify => if reply.status != VX_SUCCESS {
            (OneShot::LetGo(reply.status), graph, OneShotAction::Release(graph))
        } else {
            (OneShot::Process, graph, OneShotAction::Process(graph))
        },
        OneShot::Process => (
            OneShot::LetGo(reply.status),
            graph,
            OneShotAction::Release(graph),
        ),
        OneShot::LetGo(status) => (OneShot::Done(status), 0, OneShotAction::Finished(status)),
        OneShot::Done(status) => (OneShot::Done(status), graph, OneShotAction::Finished(status)),
    }
}

/// A graph of one node that is made, run and let go at once.
#[derive(Debug, Clone, Copy, PartialEq, Eq, Structural)]
pub struct OneShotRun {
    pub stage: OneShot,
    pub graph: u64,
}

/// Starts to take the distance of pixels at once: a graph with the node of
/// [`crate::image_nodes::vxAbsDiffNode`] is made, run and let go.
pub fn vxuAbsDiff(context: u64, in1: u64, in2: u64, out: u64) -> (r: Result<OneShotRun, vx_status>)
    ensures
        r == if context == 0 || in1 == 0 || in2 == 0 || out == 0 {
            Err::<OneShotRun, vx_status>(VX_ERROR_INVALID_REFERENCE)
        } else {
            Ok::<OneShotRun, vx_status>(OneShotRun { stage: OneShot::Start, graph: 0 })
        },
{
    if context == 0 || in1 == 0 || in2 == 0 || out == 0 {
        return Err(VX_ERROR_INVALID_REFERENCE);
    }
    Ok(OneShotRun { stage: OneShot::Start, graph: 0 })
}

/// Tells a graph of one node what came of the last action, and answers what the
/// host is to do next.
pub fn advance_one_shot(run: &mut OneShotRun, reply: Reply) -> (action: OneShotAction)
    ensures
        (final(run).stage, final(run).graph, action) == one_shot_step(
            old(run).stage,
            old(run).graph,
            reply,
        ),
{
    match run.stage {
        OneShot::Start => {
            run.stage = OneShot::Graph;
            run.graph = 0;
            OneShotAction::MakeGraph
        },
        OneShot::Graph => {
            if reply.handle == 0 {
                run.stage = OneShot::Done(VX_ERROR_INVALID_REFERENCE);
                run.graph = 0;
                return OneShotAction::Finished(VX_ERROR_INVALID_REFERENCE);
            }
            run.stage = OneShot::Node;
            run.graph = reply.handle;
            OneShotAction::MakeNode(reply.handle)
        },
        OneShot::Node => {
            if reply.handle == 0 {
                run.stage = OneShot::LetGo(VX_ERROR_INVALID_REFERENCE);
                return OneShotAction::Release(run.graph);
            }
            run.stage = OneShot::Verify;
            OneShotAction::Verify(run.graph)
        },
        OneShot::Verify => {
            if reply.status != VX_SUCCESS {
                run.stage = OneShot::LetGo(reply.status);
                return OneShotAction::Release(run.graph);
            }
            run.stage = OneShot::Process;
            OneShotAction::Process(run.graph)
        },
        OneShot::Process => {
            run.stage = OneShot::LetGo(reply.status);
            OneShotAction::Release(run.graph)
        },
        OneShot::LetGo(status) => {
            run.stage = OneShot::Done(status);
            run.graph = 0;
            OneShotAction::Finished(status)
        },
        OneShot::Done(status) => OneShotAction::Finished(status),
    }
}

/// A graph of one node that was made is let go before any status is answered.
pub proof fn law_one_shot_lets_go(stage: OneShot, graph: u64, reply: Reply)
    requires
        !(stage is Done),
    ensures
        one_shot_step(stage, graph, reply).2 is Finished ==> stage is LetGo || stage is Graph
            && reply.handle == 0,
        one_shot_step(stage, graph, reply).0 is LetGo ==> one_shot_step(stage, graph, reply).2
            == OneShotAction::Release(graph),
{
}

/// Every scalar that was made for a call is released, whatever came of it.
pub proof fn law_scalars_are_released(scalars: Seq<u64>, k: int)
    requires
        0 <= k < scalars.len(),
        scalars[k] != 0,
    ensures
        released(scalars).contains(Aftermath::Release(scalars[k])),
    decreases scalars.len(),
{
    let n = scalars.len() - 1;
    if k == n {
        let before = released(scalars.drop_last());
        assert(released(scalars)[before.len() as int] == Aftermath::Release(scalars[k]));
    } else {
        let rest = scalars.drop_last();
        law_scalars_are_released(rest, k);
        let before = released(rest);
        let j = choose|j: int| 0 <= j < before.len() && before[j] == Aftermath::Release(rest[k]);
        assert(released(scalars)[j] == before[j]);
    }
}

/// A graph of one node is made, gets its node, is verified, runs and is let go, in
/// that order, and what verifying or running came to is what is answered.
pub proof fn law_one_shot_steps(graph: u64, reply: Reply, failed: Reply)
    requires
        reply.handle != 0,
        reply.status == VX_SUCCESS,
        failed.status != VX_SUCCESS,
    ensures
        one_shot_step(OneShot::Start, graph, reply).2 == OneShotAction::MakeGraph,
        one_shot_step(OneShot::Start, graph, reply).0 is Graph,
        one_shot_step(OneShot::Graph, graph, reply).2 == OneShotAction::MakeNode(reply.handle),
        one_shot_step(OneShot::Graph, graph, reply).1 == reply.handle,
        one_shot_step(OneShot::Graph, graph, reply).0 is Node,
        one_shot_step(OneShot::Node, graph, reply).2 == OneShotAction::Verify(graph),
        one_shot_step(OneShot::Node, graph, reply).0 is Verify,
        one_shot_step(OneShot::Verify, graph, reply).2 == OneShotAction::Process(graph),
        one_shot_step(OneShot::Verify, graph, reply).0 is Process,
        one_shot_step(OneShot::Verify, graph, failed).0 == OneShot::LetGo(failed.status),
        one_shot_step(OneShot::Process, graph, reply).0 == OneShot::LetGo(VX_SUCCESS),
        one_shot_step(OneShot::Process, graph, failed).0 == OneShot::LetGo(failed.status),
        one_shot_step(OneShot::Process, graph, failed).2 == OneShotAction::Release(graph),
        one_shot_step(OneShot::LetGo(failed.status), graph, reply).2 == OneShotAction::Finished(
            failed.status,
        ),
{
}

/// Without its graph or its node, a graph of one node comes to nothing: the reference
/// is invalid.
pub proof fn law_one_shot_failures(graph: u64, reply: Reply)
    requires
        reply.handle == 0,
    ensures
        one_shot_step(OneShot::Graph, graph, reply).2 == OneShotAction::Finished(
            VX_ERROR_INVALID_REFERENCE,
        ),
        one_shot_step(OneShot::Node, graph, reply).0 == OneShot::LetGo(VX_ERROR_INVALID_REFERENCE),
        one_shot_step(OneShot::Node, graph, reply).2 == OneShotAction::Release(graph),
{
}

/// Each result with a place to go to is copied there from its own scalar, in order;
/// one without a place is not.
pub proof fn law_results_are_copied_out(
    results: Seq<(usize, u64)>,
    scalars: Seq<u64>,
    k: usize,
    place: u64,
)
    requires
        k < scalars.len(),
    ensures
        copied_out(Seq::empty(), scalars).len() == 0,
        place != 0 ==> copied_out(results.push((k, place)), scalars) == copied_out(
            results,
            scalars,
        ).push(Aftermath::CopyOut(scalars[k as int], place)),
        place == 0 ==> copied_out(results.push((k, place)), scalars) == copied_out(
            results,
            scalars,
        ),
{
    assert(results.push((k, place)).drop_last() =~= results);
}

/// Which bit patterns stand for a number of zero or less: those of zero and of the
/// numbers down to minus infinity, with or without a sign; a positive number, and
/// what is no number, is not among them.
pub proof fn law_signs_of_bit_patterns(bits: u32)
    ensures
        is_not_above_zero(0),
        is_not_above_zero(0x8000_0000),
        is_not_above_zero(0xFF80_0000),
        0 < bits < 0x8000_0000 ==> !is_not_above_zero(bits),
        bits > 0xFF80_0000 ==> !is_not_above_zero(bits),
        0x8000_0000 <= bits <= 0xFF80_0000 ==> is_not_above_zero(bits),
{
}

/// A result is read from the scalar at its position, from none beyond the last.
pub proof fn law_scalars_stand_at_their_position(scalars: Seq<u64>, k: usize)
    ensures
        k < scalars.len() ==> scalar_at(scalars, k) == scalars[k as int],
        k >= scalars.len() ==> scalar_at(scalars, k) == 0,
{
}

} // verus!
