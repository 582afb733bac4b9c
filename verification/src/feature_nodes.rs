//! Nodes that find features: their parameters are not all set, or scalars are
//! made while they are set.
use vstd::prelude::*;
use crate::construction::{
    NodePlan, ScriptSpec, Seed, Source, Step, plan_with_scalars, push_present, seed_enum,
    seed_size, seed_word,
};
use crate::scalar::to_bits32;
use crate::types::{VX_TYPE_BOOL, VX_TYPE_ENUM, VX_TYPE_FLOAT32, VX_TYPE_UINT32, vx_bool, vx_enum};

verus! {

/// The accuracy that the optical flow ends at where none is given: the bit
/// pattern of one thousandth.
pub const DEFAULT_EPSILON_BITS: u32 = 0x3A83126F;

/// The rounds of the optical flow where no number is given.
pub const DEFAULT_ITERATIONS: u32 = 10;

/// The window of the optical flow where none is given.
pub const DEFAULT_WINDOW: usize = 9;

/// A scalar that stays when the node is made.
pub open spec fn kept_seed(data_type: vx_enum, bits: u32) -> Seed {
    Seed { data_type, size: 4, bits: bits as u64, kept: true }
}

/// The scalars made for the optical flow after the first: one for each that was
/// not given, and the window.
pub open spec fn flow_seeds(epsilon: u64, iterations: u64, initial: u64, window: usize) -> Seq<Seed> {
    let a = if epsilon == 0 {
        seq![kept_seed(VX_TYPE_FLOAT32, DEFAULT_EPSILON_BITS)]
    } else {
        Seq::empty()
    };
    let b = if iterations == 0 {
        a.push(kept_seed(VX_TYPE_UINT32, DEFAULT_ITERATIONS))
    } else {
        a
    };
    let c = if initial == 0 {
        b.push(kept_seed(VX_TYPE_BOOL, 0))
    } else {
        b
    };
    c.push(
        crate::construction::size_seed(
            if window == 0 {
                DEFAULT_WINDOW
            } else {
                window
            },
        ),
    )
}

/// A reference that was given, or the scalar that was made in its place.
pub open spec fn given_or_made(reference: u64, k: int) -> Source {
    if reference != 0 {
        Source::Given(reference)
    } else {
        Source::Made(k as usize)
    }
}

/// One more where a reference is missing.
pub open spec fn count_missing(reference: u64) -> int {
    if reference == 0 {
        1
    } else {
        0
    }
}

/// The script of an optical flow node.
pub open spec fn flow_plan(
    objects: Seq<u64>,
    termination: vx_enum,
    epsilon: u64,
    iterations: u64,
    initial: u64,
    window: usize,
) -> ScriptSpec {
    let b = 1 + count_missing(epsilon);
    let c = b + count_missing(iterations);
    let d = c + count_missing(initial);
    ScriptSpec {
        kernel: "org.khronos.openvx.optical_flow_pyr_lk"@,
        steps: seq![
            Step::Make(crate::construction::enum_seed(termination)),
            Step::Gate(1),
        ] + crate::construction::makes(flow_seeds(epsilon, iterations, initial, window)) + seq![
            Step::Build,
        ] + crate::construction::sets(
            crate::construction::given(objects) + seq![
                Source::Made(0),
                given_or_made(epsilon, 1),
                given_or_made(iterations, b),
                given_or_made(initial, c),
                Source::Made(d as usize),
            ],
        ),
        releases_kernel: false,
    }
}

/// Plans a node that follows points from one image to the next.  Where a
/// parameter of the search is missing, a scalar with its default is made.
pub fn vxOpticalFlowPyrLKNode(
    graph: u64,
    old_images: u64,
    new_images: u64,
    old_points: u64,
    new_points_estimates: u64,
    new_points: u64,
    termination: vx_enum,
    epsilon: u64,
    num_iterations: u64,
    use_initial_estimate: u64,
    window_dimension: usize,
) -> (r: Option<NodePlan>)
    ensures
        crate::construction::plan_value(r) == if graph == 0 || old_images == 0 || new_images == 0
            || old_points == 0 || new_points == 0 {
            None
        } else {
            Some(
                flow_plan(
                    seq![old_images, new_images, old_points, new_points_estimates, new_points],
                    termination,
                    epsilon,
                    num_iterations,
                    use_initial_estimate,
                    window_dimension,
                ),
            )
        },
{
    if graph == 0 || old_images == 0 || new_images == 0 || old_points == 0 || new_points == 0 {
        return None;
    }
    let mut steps: Vec<Step> = vec![Step::Make(seed_enum(termination)), Step::Gate(1)];
    let mut slots: Vec<Source> = vec![
        Source::Given(old_images),
        Source::Given(new_images),
        Source::Given(old_points),
        Source::Given(new_points_estimates),
        Source::Given(new_points),
        Source::Made(0),
    ];
    let mut made: usize = 1;
    if epsilon != 0 {
        slots.push(Source::Given(epsilon));
    } else {
        steps.push(
            Step::Make(
                Seed {
                    data_type: VX_TYPE_FLOAT32,
                    size: 4,
                    bits: DEFAULT_EPSILON_BITS as u64,
                    kept: true,
                },
            ),
        );
        slots.push(Source::Made(made));
        made = made + 1;
    }
    if num_iterations != 0 {
        slots.push(Source::Given(num_iterations));
    } else {
        steps.push(
            Step::Make(
                Seed {
                    data_type: VX_TYPE_UINT32,
                    size: 4,
                    bits: DEFAULT_ITERATIONS as u64,
                    kept: true,
                },
            ),
        );
        slots.push(Source::Made(made));
        made = made + 1;
    }
    if use_initial_estimate != 0 {
        slots.push(Source::Given(use_initial_estimate));
    } else {
        steps.push(
            Step::Make(Seed { data_type: VX_TYPE_BOOL, size: 4, bits: 0, kept: true }),
        );
        slots.push(Source::Made(made));
        made = made + 1;
    }
    let window: usize = if window_dimension == 0 {
        DEFAULT_WINDOW
    } else {
        window_dimension
    };
    steps.push(Step::Make(seed_size(window)));
    slots.push(Source::Made(made));
    let ghost objects = seq![
        old_images,
        new_images,
        old_points,
        new_points_estimates,
        new_points,
    ];
    let ghost plan = flow_plan(
        objects,
        termination,
        epsilon,
        num_iterations,
        use_initial_estimate,
        window_dimension,
    );
    let ghost seeds = flow_seeds(epsilon, num_iterations, use_initial_estimate, window_dimension);
    let ghost head = seq![
        Step::Make(crate::construction::enum_seed(termination)),
        Step::Gate(1),
    ] + crate::construction::makes(seeds);
    assert(steps@ =~= head);
    steps.push(Step::Build);
    let ghost base = steps@;
    for i in 0..slots.len()
        invariant
            slots@.len() == 10,
            steps@ == base + crate::construction::sets(slots@.take(i as int)),
    {
        steps.push(Step::Fill(i as u32, slots[i]));
        assert(steps@ =~= base + crate::construction::sets(slots@.take(i + 1)));
    }
    proof {
        assert(slots@.take(slots@.len() as int) =~= slots@);
        let b = 1 + count_missing(epsilon);
        let c = b + count_missing(num_iterations);
        let d = c + count_missing(use_initial_estimate);
        assert(slots@ =~= crate::construction::given(objects) + seq![
            Source::Made(0),
            given_or_made(epsilon, 1),
            given_or_made(num_iterations, b),
            given_or_made(use_initial_estimate, c),
            Source::Made(d as usize),
        ]);
        assert(steps@ =~= plan.steps);
    }
    Some(
        NodePlan {
            kernel: "org.khronos.openvx.optical_flow_pyr_lk".to_owned(),
            steps,
            releases_kernel: false,
        },
    )
}

/// A scalar that is made, set as a parameter and let go.
pub open spec fn passing_scalar(seed: Seed, index: u32, k: usize) -> Seq<Step> {
    seq![
        Step::Make(seed),
        Step::Gate(1),
        Step::Fill(index, Source::Made(k)),
        Step::Drop(k),
    ]
}

/// The script of a Harris corner node.
pub open spec fn harris_plan(
    input: u64,
    strength_thresh: u64,
    min_distance: u64,
    sensitivity: u64,
    gradient_size: vx_enum,
    block_size: vx_enum,
    corners: u64,
    num_corners: u64,
) -> ScriptSpec {
    let last = if num_corners != 0 {
        seq![Step::Fill(7, Source::Given(num_corners))]
    } else {
        Seq::empty()
    };
    ScriptSpec {
        kernel: "org.khronos.openvx.harris_corners"@,
        steps: seq![Step::Build] + crate::construction::present(
            seq![input, strength_thresh, min_distance, sensitivity],
            1,
        ) + passing_scalar(
            crate::construction::word_seed(
                VX_TYPE_ENUM,
                crate::scalar::bits32(gradient_size),
            ),
            4,
            0,
        ) + passing_scalar(
            crate::construction::word_seed(VX_TYPE_ENUM, crate::scalar::bits32(block_size)),
            5,
            1,
        ) + seq![Step::Fill(6, Source::Given(corners))] + last,
        releases_kernel: false,
    }
}

/// Plans a node that finds Harris corners.  The sizes go to scalars that hold
/// enumerations.
pub fn vxHarrisCornersNode(
    graph: u64,
    input: u64,
    strength_thresh: u64,
    min_distance: u64,
    sensitivity: u64,
    gradient_size: vx_enum,
    block_size: vx_enum,
    corners: u64,
    num_corners: u64,
) -> (r: Option<NodePlan>)
    ensures
        crate::construction::plan_value(r) == if graph == 0 || input == 0 || corners == 0 {
            None
        } else {
            Some(
                harris_plan(
                    input,
                    strength_thresh,
                    min_distance,
                    sensitivity,
                    gradient_size,
                    block_size,
                    corners,
                    num_corners,
                ),
            )
        },
{
    if graph == 0 || input == 0 || corners == 0 {
        return None;
    }
    let mut steps: Vec<Step> = vec![Step::Build];
    let refs: Vec<u64> = vec![input, strength_thresh, min_distance, sensitivity];
    assert(refs@ =~= seq![input, strength_thresh, min_distance, sensitivity]);
    push_present(&mut steps, &refs, 1);
    let ghost head = seq![Step::Build] + crate::construction::present(refs@, 1);
    assert(steps@ =~= head);
    steps.push(Step::Make(seed_word(VX_TYPE_ENUM, to_bits32(gradient_size))));
    steps.push(Step::Gate(1));
    steps.push(Step::Fill(4, Source::Made(0)));
    steps.push(Step::Drop(0));
    steps.push(Step::Make(seed_word(VX_TYPE_ENUM, to_bits32(block_size))));
    steps.push(Step::Gate(1));
    steps.push(Step::Fill(5, Source::Made(1)));
    steps.push(Step::Drop(1));
    steps.push(Step::Fill(6, Source::Given(corners)));
    if num_corners != 0 {
        steps.push(Step::Fill(7, Source::Given(num_corners)));
    }
    assert(steps@ =~= harris_plan(
        input,
        strength_thresh,
        min_distance,
        sensitivity,
        gradient_size,
        block_size,
        corners,
        num_corners,
    ).steps);
    Some(
        NodePlan {
            kernel: "org.khronos.openvx.harris_corners".to_owned(),
            steps,
            releases_kernel: false,
        },
    )
}

/// A slot for a reference that is there, none for one that is missing.
pub open spec fn slot_if_there(reference: u64) -> Seq<Source> {
    if reference != 0 {
        seq![Source::Given(reference)]
    } else {
        Seq::empty()
    }
}

/// Adds a slot for a reference that is there.
fn push_if_there(slots: &mut Vec<Source>, reference: u64)
    ensures
        final(slots)@ == old(slots)@ + slot_if_there(reference),
{
    if reference != 0 {
        slots.push(Source::Given(reference));
    }
    assert(slots@ =~= old(slots)@ + slot_if_there(reference));
}

/// Plans a node that finds FAST corners.  A missing threshold or count is left
/// out, and the parameters after it move up.
pub fn vxFASTCornersNode(
    graph: u64,
    input: u64,
    strength_thresh: u64,
    nonmax_suppression: vx_bool,
    corners: u64,
    num_corners: u64,
) -> (r: Option<NodePlan>)
    ensures
        crate::construction::plan_value(r) == if graph == 0 || input == 0 || corners == 0 {
            None
        } else {
            Some(
                crate::construction::seeded_plan(
                    "org.khronos.openvx.fast_corners"@,
                    seq![
                        crate::construction::word_seed(
                            VX_TYPE_BOOL,
                            crate::scalar::bits32(nonmax_suppression),
                        ),
                    ],
                    seq![Source::Given(input)] + slot_if_there(strength_thresh) + seq![
                        Source::Made(0),
                        Source::Given(corners),
                    ] + slot_if_there(num_corners),
                ),
            )
        },
{
    if graph == 0 || input == 0 || corners == 0 {
        return None;
    }
    let seeds: Vec<Seed> = vec![seed_word(VX_TYPE_BOOL, to_bits32(nonmax_suppression))];
    assert(seeds@ =~= seq![
        crate::construction::word_seed(VX_TYPE_BOOL, crate::scalar::bits32(nonmax_suppression)),
    ]);
    let mut slots: Vec<Source> = vec![Source::Given(input)];
    push_if_there(&mut slots, strength_thresh);
    slots.push(Source::Made(0));
    slots.push(Source::Given(corners));
    push_if_there(&mut slots, num_corners);
    assert(slots@ =~= seq![Source::Given(input)] + slot_if_there(strength_thresh) + seq![
        Source::Made(0),
        Source::Given(corners),
    ] + slot_if_there(num_corners));
    Some(plan_with_scalars("org.khronos.openvx.fast_corners", &seeds, &slots))
}

/// Plans a node that finds corners by their smallest eigenvalue.  A missing
/// scalar is left out, and the parameters after it move up.
pub fn vxCornerMinEigenValNode(
    graph: u64,
    input: u64,
    min_distance: u64,
    sensitivity: u64,
    block_size: vx_enum,
    k: u64,
    corners: u64,
    num_corners: u64,
) -> (r: Option<NodePlan>)
    ensures
        crate::construction::plan_value(r) == if graph == 0 || input == 0 || corners == 0 {
            None
        } else {
            Some(
                crate::construction::seeded_plan(
                    "org.khronos.openvx.corner_min_eigen_val"@,
                    seq![crate::construction::enum_seed(block_size)],
                    seq![Source::Given(input)] + slot_if_there(min_distance) + slot_if_there(
                        sensitivity,
                    ) + seq![Source::Made(0)] + slot_if_there(k) + seq![Source::Given(corners)]
                        + slot_if_there(num_corners),
                ),
            )
        },
{
    if graph == 0 || input == 0 || corners == 0 {
        return None;
    }
    let seeds: Vec<Seed> = vec![seed_enum(block_size)];
    assert(seeds@ =~= seq![crate::construction::enum_seed(block_size)]);
    let mut slots: Vec<Source> = vec![Source::Given(input)];
    push_if_there(&mut slots, min_distance);
    push_if_there(&mut slots, sensitivity);
    slots.push(Source::Made(0));
    push_if_there(&mut slots, k);
    slots.push(Source::Given(corners));
    push_if_there(&mut slots, num_corners);
    assert(slots@ =~= seq![Source::Given(input)] + slot_if_there(min_distance) + slot_if_there(
        sensitivity,
    ) + seq![Source::Made(0)] + slot_if_there(k) + seq![Source::Given(corners)] + slot_if_there(
        num_corners,
    ));
    Some(plan_with_scalars("org.khronos.openvx.corner_min_eigen_val", &seeds, &slots))
}

/// The parameters of a search for lines.  Lengths and angles are held as their
/// bit patterns.
#[derive(Debug, Clone, Copy, PartialEq, Eq, Structural)]
pub struct HoughLines {
    pub rho: u32,
    pub theta: u32,
    pub threshold: u32,
    pub line_length: u32,
    pub line_gap: u32,
}

/// Plans a node that finds lines.
pub fn vxHoughLinesPNode(
    graph: u64,
    input: u64,
    hough_lines_params: Option<HoughLines>,
    lines_array: u64,
    num_lines: u64,
) -> (r: Option<NodePlan>)
    ensures
        crate::construction::plan_value(r) == match hough_lines_params {
            Some(p) if graph != 0 && input != 0 && lines_array != 0 && num_lines != 0 => Some(
                crate::construction::seeded_plan(
                    "org.khronos.openvx.hough_lines_p"@,
                    hough_seeds(p),
                    seq![
                        Source::Given(input),
                        Source::Made(0),
                        Source::Made(1),
                        Source::Made(2),
                        Source::Made(3),
                        Source::Made(4),
                        Source::Given(lines_array),
                    ],
                ),
            ),
            _ => None,
        },
{
    if graph == 0 || input == 0 || lines_array == 0 || num_lines == 0 {
        return None;
    }
    let p = match hough_lines_params {
        Some(p) => p,
        None => return None,
    };
    let seeds = seed_hough(p);
    let slots: Vec<Source> = vec![
        Source::Given(input),
        Source::Made(0),
        Source::Made(1),
        Source::Made(2),
        Source::Made(3),
        Source::Made(4),
        Source::Given(lines_array),
    ];
    assert(slots@ =~= seq![
        Source::Given(input),
        Source::Made(0),
        Source::Made(1),
        Source::Made(2),
        Source::Made(3),
        Source::Made(4),
        Source::Given(lines_array),
    ]);
    Some(plan_with_scalars("org.khronos.openvx.hough_lines_p", &seeds, &slots))
}

/// The scalars of a search for lines.
pub open spec fn hough_seeds(p: HoughLines) -> Seq<Seed> {
    seq![
        crate::construction::word_seed(VX_TYPE_FLOAT32, p.rho),
        crate::construction::word_seed(VX_TYPE_FLOAT32, p.theta),
        crate::construction::word_seed(VX_TYPE_UINT32, p.threshold),
        crate::construction::word_seed(VX_TYPE_UINT32, p.line_length),
        crate::construction::word_seed(VX_TYPE_UINT32, p.line_gap),
    ]
}

/// Makes the parameters of a search for lines scalars.
pub fn seed_hough(p: HoughLines) -> (r: Vec<Seed>)
    ensures
        r@ == hough_seeds(p),
{
    let seeds: Vec<Seed> = vec![
        seed_word(VX_TYPE_FLOAT32, p.rho),
        seed_word(VX_TYPE_FLOAT32, p.theta),
        seed_word(VX_TYPE_UINT32, p.threshold),
        seed_word(VX_TYPE_UINT32, p.line_length),
        seed_word(VX_TYPE_UINT32, p.line_gap),
    ];
    assert(seeds@ =~= hough_seeds(p));
    seeds
}

/// The script of a node that converts depths.
pub open spec fn depth_plan(input: u64, output: u64, policy: vx_enum, shift: u64) -> ScriptSpec {
    ScriptSpec {
        kernel: "org.khronos.openvx.convertdepth"@,
        steps: seq![
            Step::Build,
            Step::Fill(0, Source::Given(input)),
            Step::Fill(1, Source::Given(output)),
            Step::Make(
                crate::construction::word_seed(VX_TYPE_ENUM, crate::scalar::bits32(policy)),
            ),
            Step::Gate(1),
            Step::Fill(2, Source::Made(0)),
            if shift == 0 {
                Step::GiveUp
            } else {
                Step::Fill(3, Source::Given(shift))
            },
        ],
        releases_kernel: false,
    }
}

/// Plans a node that converts between depths.  Without a shift it is given up,
/// but only once everything else is set.
pub fn vxConvertDepthNode(graph: u64, input: u64, output: u64, policy: vx_enum, shift: u64) -> (r:
    Option<NodePlan>)
    ensures
        crate::construction::plan_value(r) == if graph == 0 || input == 0 || output == 0 {
            None
        } else {
            Some(depth_plan(input, output, policy, shift))
        },
{
    if graph == 0 || input == 0 || output == 0 {
        return None;
    }
    let last = if shift == 0 {
        Step::GiveUp
    } else {
        Step::Fill(3, Source::Given(shift))
    };
    let steps: Vec<Step> = vec![
        Step::Build,
        Step::Fill(0, Source::Given(input)),
        Step::Fill(1, Source::Given(output)),
        Step::Make(seed_word(VX_TYPE_ENUM, to_bits32(policy))),
        Step::Gate(1),
        Step::Fill(2, Source::Made(0)),
        last,
    ];
    assert(steps@ =~= depth_plan(input, output, policy, shift).steps);
    Some(
        NodePlan {
            kernel: "org.khronos.openvx.convertdepth".to_owned(),
            steps,
            releases_kernel: false,
        },
    )
}

/// The script of a node that halves an image.
pub open spec fn half_scale_plan(input: u64, output: u64, kernel_size: u64) -> ScriptSpec {
    ScriptSpec {
        kernel: "org.khronos.openvx.halfscale_gaussian"@,
        steps: seq![
            Step::Build,
            Step::Fill(0, Source::Given(input)),
            Step::Fill(1, Source::Given(output)),
        ] + passing_scalar(
            crate::construction::word_seed(
                VX_TYPE_ENUM,
                (kernel_size % 0x1_0000_0000) as u32,
            ),
            2,
            0,
        ),
        releases_kernel: false,
    }
}

/// Plans a node that smooths an image and halves it.  Only the low half of the
/// kernel size counts.
pub fn vxHalfScaleGaussianNode(graph: u64, input: u64, output: u64, kernel_size: u64) -> (r: Option<
    NodePlan,
>)
    ensures
        crate::construction::plan_value(r) == if graph == 0 || input == 0 || output == 0 {
            None
        } else {
            Some(half_scale_plan(input, output, kernel_size))
        },
{
    if graph == 0 || input == 0 || output == 0 {
        return None;
    }
    let steps: Vec<Step> = vec![
        Step::Build,
        Step::Fill(0, Source::Given(input)),
        Step::Fill(1, Source::Given(output)),
        Step::Make(seed_word(VX_TYPE_ENUM, (kernel_size % 0x1_0000_0000) as u32)),
        Step::Gate(1),
        Step::Fill(2, Source::Made(0)),
        Step::Drop(0),
    ];
    assert(steps@ =~= half_scale_plan(input, output, kernel_size).steps);
    Some(
        NodePlan {
            kernel: "org.khronos.openvx.halfscale_gaussian".to_owned(),
            steps,
            releases_kernel: false,
        },
    )
}

/// A step that sets a parameter that is there.
pub open spec fn try_if_there(index: u32, reference: u64) -> Seq<Step> {
    if reference != 0 {
        seq![Step::Try(index, Source::Given(reference))]
    } else {
        Seq::empty()
    }
}

/// The script of a FAST corner node whose parameters need not be set.
pub open spec fn fast_plan(
    input: u64,
    strength_thresh: u64,
    nonmax_suppression: vx_bool,
    corners: u64,
    num_corners: u64,
) -> ScriptSpec {
    ScriptSpec {
        kernel: "org.khronos.openvx.fast_corners"@,
        steps: seq![
            Step::Build,
            Step::Try(0, Source::Given(input)),
            Step::Try(1, Source::Given(strength_thresh)),
            Step::Make(
                crate::construction::word_seed(
                    VX_TYPE_BOOL,
                    if nonmax_suppression != 0 {
                        1
                    } else {
                        0
                    },
                ),
            ),
            Step::Try(2, Source::Made(0)),
            Step::Drop(0),
        ] + try_if_there(3, corners) + try_if_there(4, num_corners),
        releases_kernel: true,
    }
}

/// Plans a node that finds FAST corners and is made whether or not its
/// parameters can be set.
pub fn vxFastCornersNode(
    graph: u64,
    input: u64,
    strength_thresh: u64,
    nonmax_suppression: vx_bool,
    corners: u64,
    num_corners: u64,
) -> (r: Option<NodePlan>)
    ensures
        crate::construction::plan_value(r) == if graph == 0 || input == 0 {
            None
        } else {
            Some(fast_plan(input, strength_thresh, nonmax_suppression, corners, num_corners))
        },
{
    if graph == 0 || input == 0 {
        return None;
    }
    let flag: u32 = if nonmax_suppression != 0 {
        1
    } else {
        0
    };
    let mut steps: Vec<Step> = vec![
        Step::Build,
        Step::Try(0, Source::Given(input)),
        Step::Try(1, Source::Given(strength_thresh)),
        Step::Make(seed_word(VX_TYPE_BOOL, flag)),
        Step::Try(2, Source::Made(0)),
        Step::Drop(0),
    ];
    if corners != 0 {
        steps.push(Step::Try(3, Source::Given(corners)));
    }
    if num_corners != 0 {
        steps.push(Step::Try(4, Source::Given(num_corners)));
    }
    assert(steps@ =~= fast_plan(
        input,
        strength_thresh,
        nonmax_suppression,
        corners,
        num_corners,
    ).steps);
    Some(
        NodePlan {
            kernel: "org.khronos.openvx.fast_corners".to_owned(),
            steps,
            releases_kernel: true,
        },
    )
}

} // verus!
