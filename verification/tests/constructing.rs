use openvx_core::construction::{BuildAction, Builder, NodePlan, Reply, Seed, Source, Step};
use openvx_core::feature_nodes::{
    vxConvertDepthNode, vxCornerMinEigenValNode, vxFASTCornersNode, vxFastCornersNode,
    vxHalfScaleGaussianNode, vxHarrisCornersNode, vxHoughLinesPNode, vxOpticalFlowPyrLKNode,
    HoughLines,
};
use openvx_core::image_nodes::{
    vxAddNode, vxBox3x3Node, vxChannelCombineNode, vxLBPNode, vxMeanShiftNode, vxMultiplyNode,
    vxNotNode, vxSobel3x3Node,
};
use openvx_core::tensor_nodes::{
    vxBilateralFilterNode, vxHOGFeaturesNode, vxTensorMultiplyNode, vxTensorTransposeNode,
};
use openvx_core::types::{
    VX_SUCCESS, VX_TYPE_BOOL, VX_TYPE_ENUM, VX_TYPE_FLOAT32, VX_TYPE_INT32, VX_TYPE_INT8,
    VX_TYPE_SIZE, VX_TYPE_UINT32,
};

fn handle(h: u64) -> Reply {
    Reply { handle: h, status: VX_SUCCESS }
}

fn status(s: i32) -> Reply {
    Reply { handle: 0, status: s }
}

fn enum_seed(v: u64) -> Seed {
    Seed { data_type: VX_TYPE_ENUM, size: 4, bits: v, kept: false }
}

fn word(t: i32, v: u64) -> Seed {
    Seed { data_type: t, size: 4, bits: v, kept: false }
}

fn refs_of(plan: &NodePlan) -> Vec<Source> {
    plan.steps
        .iter()
        .filter_map(|s| match s {
            Step::Fill(_, v) => Some(*v),
            _ => None,
        })
        .collect()
}

#[test]
fn plain_nodes_get_their_parameters_in_order() {
    let plan = vxBox3x3Node(1, 10, 20).unwrap();
    assert_eq!(plan.kernel, "org.khronos.openvx.box_3x3");
    let mut b = Builder::new(1, plan);
    assert_eq!(b.advance(handle(0)), BuildAction::GetContext(1));
    assert_eq!(b.advance(handle(5)), BuildAction::GetKernel(5));
    assert_eq!(b.advance(handle(6)), BuildAction::MakeNode(1, 6));
    assert_eq!(b.advance(handle(7)), BuildAction::SetParameter(7, 0, 10));
    assert_eq!(b.advance(status(VX_SUCCESS)), BuildAction::SetParameter(7, 1, 20));
    assert_eq!(b.advance(status(VX_SUCCESS)), BuildAction::Finished(7));
    assert_eq!(b.advance(status(VX_SUCCESS)), BuildAction::Finished(7));
}

#[test]
fn missing_references_give_no_plan() {
    assert!(vxBox3x3Node(0, 10, 20).is_none());
    assert!(vxBox3x3Node(1, 0, 20).is_none());
    assert!(vxBox3x3Node(1, 10, 0).is_none());
    assert!(vxChannelCombineNode(1, 0, 0, 0, 0, 9).is_some());
    assert!(vxChannelCombineNode(1, 2, 3, 4, 5, 0).is_none());
    assert!(vxTensorMultiplyNode(1, 2, 3, 0, 4, 5, 6).is_none());
    assert!(vxMultiplyNode(1, 2, 3, 0, 4, 5, 6).is_some());
}

#[test]
fn a_graph_without_a_context_gives_no_node() {
    let mut b = Builder::new(0, vxNotNode(0, 1, 2));
    assert_eq!(b.advance(handle(0)), BuildAction::GetContext(0));
    assert_eq!(b.advance(handle(0)), BuildAction::Finished(0));
}

#[test]
fn scalars_are_made_first_and_released_last() {
    let mut b = Builder::new(1, vxAddNode(1, 10, 20, 3, 30).unwrap());
    b.advance(handle(0));
    assert_eq!(b.advance(handle(5)), BuildAction::MakeScalar(5, enum_seed(3)));
    assert_eq!(b.advance(handle(90)), BuildAction::GetKernel(5));
    assert_eq!(b.advance(handle(6)), BuildAction::MakeNode(1, 6));
    assert_eq!(b.advance(handle(7)), BuildAction::SetParameter(7, 0, 10));
    assert_eq!(b.advance(status(0)), BuildAction::SetParameter(7, 1, 20));
    assert_eq!(b.advance(status(0)), BuildAction::SetParameter(7, 2, 90));
    assert_eq!(b.advance(status(0)), BuildAction::SetParameter(7, 3, 30));
    assert_eq!(b.advance(status(0)), BuildAction::ReleaseScalar(90));
    assert_eq!(b.advance(status(0)), BuildAction::Finished(7));
}

#[test]
fn a_missing_scalar_gives_no_node() {
    let mut b = Builder::new(1, vxMultiplyNode(1, 10, 20, 25, 3, 4, 30).unwrap());
    b.advance(handle(0));
    assert_eq!(b.advance(handle(5)), BuildAction::MakeScalar(5, enum_seed(3)));
    assert_eq!(b.advance(handle(90)), BuildAction::MakeScalar(5, enum_seed(4)));
    assert_eq!(b.advance(handle(0)), BuildAction::ReleaseScalar(90));
    assert_eq!(b.advance(status(0)), BuildAction::Finished(0));
}

#[test]
fn a_failed_parameter_costs_the_node() {
    let mut b = Builder::new(1, vxAddNode(1, 10, 20, 3, 30).unwrap());
    b.advance(handle(0));
    b.advance(handle(5));
    b.advance(handle(90));
    b.advance(handle(6));
    b.advance(handle(7));
    assert_eq!(b.advance(status(-10)), BuildAction::ReleaseNode(7));
    assert_eq!(b.advance(status(0)), BuildAction::ReleaseScalar(90));
    assert_eq!(b.advance(status(0)), BuildAction::Finished(0));
}

#[test]
fn a_missing_kernel_or_node_gives_nothing() {
    let mut b = Builder::new(1, vxBox3x3Node(1, 10, 20).unwrap());
    b.advance(handle(0));
    b.advance(handle(5));
    assert_eq!(b.advance(handle(0)), BuildAction::Finished(0));
    let mut b = Builder::new(1, vxBox3x3Node(1, 10, 20).unwrap());
    b.advance(handle(0));
    b.advance(handle(5));
    b.advance(handle(6));
    assert_eq!(b.advance(handle(0)), BuildAction::Finished(0));
}

#[test]
fn missing_outputs_are_passed_over() {
    let plan = vxSobel3x3Node(1, 10, 0, 30).unwrap();
    assert_eq!(
        plan.steps,
        vec![
            Step::Build,
            Step::Fill(0, Source::Given(10)),
            Step::Fill(2, Source::Given(30))
        ]
    );
}

#[test]
fn seeds_hold_the_values_of_their_scalars() {
    let lbp = vxLBPNode(1, 10, 5, -1, 20).unwrap();
    assert_eq!(lbp.steps[0], Step::Make(enum_seed(5)));
    assert_eq!(
        lbp.steps[1],
        Step::Make(Seed { data_type: VX_TYPE_INT8, size: 1, bits: 255, kept: false })
    );
    let shift = vxMeanShiftNode(1, 10, 3, 4, 5, 20).unwrap();
    assert_eq!(
        shift.steps[0],
        Step::Make(Seed { data_type: VX_TYPE_SIZE, size: 8, bits: 3, kept: false })
    );
    let smooth = vxBilateralFilterNode(1, 10, -5, 1.5f32.to_bits(), 2.0f32.to_bits(), 20).unwrap();
    assert_eq!(smooth.steps[0], Step::Make(word(VX_TYPE_INT32, 0xFFFF_FFFB)));
    assert_eq!(smooth.steps[1], Step::Make(word(VX_TYPE_FLOAT32, 1.5f32.to_bits() as u64)));
    let turn = vxTensorTransposeNode(1, 10, 20, 0, 2).unwrap();
    assert_eq!(
        refs_of(&turn),
        vec![Source::Given(10), Source::Made(0), Source::Made(1), Source::Given(20)]
    );
}

#[test]
fn features_leave_the_parameter_size_open() {
    let plan = vxHOGFeaturesNode(1, 2, 3, 4, 5, 99, 6).unwrap();
    let g = |r: u64| Source::Given(r);
    assert_eq!(refs_of(&plan), vec![g(2), g(3), g(4), g(5), g(0), g(6)]);
}

#[test]
fn the_optical_flow_makes_its_defaults() {
    let plan = vxOpticalFlowPyrLKNode(1, 2, 3, 4, 5, 6, 7, 0, 88, 0, 0).unwrap();
    let kept = |t: i32, v: u64| Step::Make(Seed { data_type: t, size: 4, bits: v, kept: true });
    assert_eq!(plan.steps[0], Step::Make(enum_seed(7)));
    assert_eq!(plan.steps[1], Step::Gate(1));
    assert_eq!(plan.steps[2], kept(VX_TYPE_FLOAT32, 0.001f32.to_bits() as u64));
    assert_eq!(plan.steps[3], kept(VX_TYPE_BOOL, 0));
    assert_eq!(
        plan.steps[4],
        Step::Make(Seed { data_type: VX_TYPE_SIZE, size: 8, bits: 9, kept: false })
    );
    assert_eq!(
        refs_of(&plan),
        vec![
            Source::Given(2),
            Source::Given(3),
            Source::Given(4),
            Source::Given(5),
            Source::Given(6),
            Source::Made(0),
            Source::Made(1),
            Source::Given(88),
            Source::Made(2),
            Source::Made(3)
        ]
    );
    let full = vxOpticalFlowPyrLKNode(1, 2, 3, 4, 5, 6, 7, 8, 9, 10, 11).unwrap();
    assert_eq!(refs_of(&full)[9], Source::Made(1));
    assert!(vxOpticalFlowPyrLKNode(1, 2, 3, 4, 5, 0, 7, 8, 9, 10, 11).is_none());
}

#[test]
fn defaults_of_the_optical_flow_stay() {
    let mut b = Builder::new(1, vxOpticalFlowPyrLKNode(1, 2, 3, 4, 5, 6, 7, 0, 0, 0, 0).unwrap());
    b.advance(handle(0));
    b.advance(handle(5));
    for k in 0..4 {
        b.advance(handle(90 + k));
    }
    b.advance(handle(94));
    b.advance(handle(6));
    assert_eq!(b.advance(handle(7)), BuildAction::SetParameter(7, 0, 2));
    for k in 1..10 {
        match b.advance(status(0)) {
            BuildAction::SetParameter(7, i, _) => assert_eq!(i, k),
            _ => panic!("no parameter"),
        }
    }
    assert_eq!(b.advance(status(0)), BuildAction::ReleaseScalar(90));
    assert_eq!(b.advance(status(0)), BuildAction::ReleaseScalar(94));
    assert_eq!(b.advance(status(0)), BuildAction::Finished(7));
}

#[test]
fn harris_corners_make_scalars_on_the_way() {
    let plan = vxHarrisCornersNode(1, 10, 0, 12, 0, 3, 5, 20, 0).unwrap();
    assert_eq!(
        plan.steps,
        vec![
            Step::Build,
            Step::Fill(0, Source::Given(10)),
            Step::Fill(2, Source::Given(12)),
            Step::Make(word(VX_TYPE_ENUM, 3)),
            Step::Gate(1),
            Step::Fill(4, Source::Made(0)),
            Step::Drop(0),
            Step::Make(word(VX_TYPE_ENUM, 5)),
            Step::Gate(1),
            Step::Fill(5, Source::Made(1)),
            Step::Drop(1),
            Step::Fill(6, Source::Given(20))
        ]
    );
    let mut b = Builder::new(1, plan);
    b.advance(handle(0));
    b.advance(handle(5));
    b.advance(handle(6));
    b.advance(handle(7));
    b.advance(status(0));
    assert_eq!(b.advance(status(0)), BuildAction::MakeScalar(5, word(VX_TYPE_ENUM, 3)));
    assert_eq!(b.advance(handle(90)), BuildAction::SetParameter(7, 4, 90));
    assert_eq!(b.advance(status(0)), BuildAction::ReleaseScalar(90));
    assert_eq!(b.advance(status(0)), BuildAction::MakeScalar(5, word(VX_TYPE_ENUM, 5)));
    assert_eq!(b.advance(handle(0)), BuildAction::ReleaseNode(7));
    assert_eq!(b.advance(status(0)), BuildAction::Finished(0));
}

#[test]
fn missing_scalars_of_corners_move_the_rest_up() {
    let plan = vxFASTCornersNode(1, 10, 0, 1, 20, 30).unwrap();
    assert_eq!(
        refs_of(&plan),
        vec![Source::Given(10), Source::Made(0), Source::Given(20), Source::Given(30)]
    );
    let plan = vxCornerMinEigenValNode(1, 10, 11, 0, 3, 14, 20, 0).unwrap();
    assert_eq!(
        refs_of(&plan),
        vec![
            Source::Given(10),
            Source::Given(11),
            Source::Made(0),
            Source::Given(14),
            Source::Given(20)
        ]
    );
}

#[test]
fn lines_need_their_parameters() {
    let p = HoughLines { rho: 1, theta: 2, threshold: 3, line_length: 4, line_gap: 5 };
    let plan = vxHoughLinesPNode(1, 10, Some(p), 20, 30).unwrap();
    assert_eq!(plan.steps[2], Step::Make(word(VX_TYPE_UINT32, 3)));
    assert_eq!(plan.steps[5], Step::Gate(5));
    assert_eq!(refs_of(&plan).len(), 7);
    assert!(vxHoughLinesPNode(1, 10, None, 20, 30).is_none());
    assert!(vxHoughLinesPNode(1, 10, Some(p), 20, 0).is_none());
}

#[test]
fn a_depth_without_a_shift_is_given_up_late() {
    let mut b = Builder::new(1, vxConvertDepthNode(1, 10, 20, 5, 0).unwrap());
    b.advance(handle(0));
    b.advance(handle(5));
    b.advance(handle(6));
    b.advance(handle(7));
    b.advance(status(0));
    assert_eq!(b.advance(status(0)), BuildAction::MakeScalar(5, word(VX_TYPE_ENUM, 5)));
    assert_eq!(b.advance(handle(90)), BuildAction::SetParameter(7, 2, 90));
    assert_eq!(b.advance(status(0)), BuildAction::ReleaseNode(7));
    assert_eq!(b.advance(status(0)), BuildAction::ReleaseScalar(90));
    assert_eq!(b.advance(status(0)), BuildAction::Finished(0));
}

#[test]
fn halving_keeps_the_low_half_of_the_size() {
    let plan = vxHalfScaleGaussianNode(1, 10, 20, 0x1_0000_0005).unwrap();
    assert_eq!(plan.steps[3], Step::Make(word(VX_TYPE_ENUM, 5)));
}

#[test]
fn fast_corners_are_made_whatever_comes() {
    let mut b = Builder::new(1, vxFastCornersNode(1, 10, 0, 7, 20, 0).unwrap());
    b.advance(handle(0));
    b.advance(handle(5));
    b.advance(handle(6));
    assert_eq!(b.advance(handle(7)), BuildAction::SetParameter(7, 0, 10));
    assert_eq!(b.advance(status(-1)), BuildAction::SetParameter(7, 1, 0));
    assert_eq!(b.advance(status(-1)), BuildAction::MakeScalar(5, word(VX_TYPE_BOOL, 1)));
    assert_eq!(b.advance(handle(0)), BuildAction::SetParameter(7, 3, 20));
    assert_eq!(b.advance(status(-1)), BuildAction::ReleaseKernel(6));
    assert_eq!(b.advance(status(0)), BuildAction::Finished(7));
}
