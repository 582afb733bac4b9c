use openvx_core::construction::Reply;
use openvx_core::contexts::register_context;
use openvx_core::dispatch::{BorderArg, KernelArg};
use openvx_core::feature_nodes::HoughLines;
use openvx_core::immediate::{
    advance_one_shot, finish_call, vxuAbsDiff, vxuAdd, vxuBilateralFilter, vxuDilate5x5,
    vxuEqualizeHistogram, vxuHOGFeatures, vxuHoughLinesP, vxuLBP, vxuMatchTemplate, vxuMeanStdDev,
    vxuNonLinearFilter, vxuOpticalFlowPyrLK, vxuScaleImage, vxuSobel5x5, vxuTensorAdd, Aftermath,
    CallArg, ContextArg, OneShotAction, Routine,
};
use openvx_core::kernels::Kernel;
use openvx_core::records::{VxCContext, VxCMatrix};
use openvx_core::scalar::VxCScalar;
use openvx_core::types::{
    VX_ERROR_INVALID_GRAPH, VX_ERROR_INVALID_PARAMETERS, VX_ERROR_INVALID_REFERENCE,
    VX_ERROR_NOT_IMPLEMENTED, VX_SUCCESS,
};
use std::collections::HashMap;

fn plain(a: KernelArg) -> CallArg {
    CallArg::Plain(a)
}

#[test]
fn arguments_are_handed_to_the_routine() {
    let call = vxuAdd(1, 2, 3, 4, 5).unwrap();
    assert_eq!(call.routine, Routine::Of(Kernel::Add));
    assert_eq!(call.context, ContextArg::Given(1));
    assert_eq!(call.border, BorderArg::Unused);
    assert_eq!(
        call.args,
        vec![
            plain(KernelArg::Ref(2)),
            plain(KernelArg::Ref(3)),
            plain(KernelArg::Int(4)),
            plain(KernelArg::Ref(5))
        ]
    );
    assert!(call.seeds.is_empty());
    assert_eq!(vxuScaleImage(1, 2, 3, 4).unwrap().border, BorderArg::AsGiven(None));
    assert_eq!(vxuDilate5x5(1, 2, 3).unwrap().routine, Routine::Dilate5x5);
    assert_eq!(vxuSobel5x5(1, 2, 3, 4).unwrap().routine, Routine::Of(Kernel::Sobel3x3));
}

#[test]
fn missing_arguments_are_refused() {
    assert_eq!(vxuTensorAdd(0, 1, 2, 3, 4).err(), Some(VX_ERROR_INVALID_REFERENCE));
    assert_eq!(vxuTensorAdd(1, 1, 2, 3, 4).unwrap().context, ContextArg::Nothing);
    assert_eq!(vxuHOGFeatures(1, 0, 2, 3, 4, 5, 0).err(), Some(VX_ERROR_INVALID_PARAMETERS));
    assert!(vxuHOGFeatures(1, 0, 2, 3, 4, 5, 6).is_ok());
    assert_eq!(vxuMatchTemplate(0, 1, 0, 3, 4).err(), Some(VX_ERROR_INVALID_PARAMETERS));
    assert_eq!(vxuEqualizeHistogram(1, 2, 0), VX_ERROR_INVALID_REFERENCE);
    assert_eq!(vxuEqualizeHistogram(1, 2, 3), VX_ERROR_NOT_IMPLEMENTED);
}

#[test]
fn bilateral_filters_check_their_numbers() {
    let mut contexts: HashMap<u64, VxCContext> = HashMap::new();
    register_context(&mut contexts, 1, 9);
    let one = 1.0f32.to_bits();
    let run = |d: i32, a: f32, b: f32| {
        vxuBilateralFilter(&contexts, 9, 1, d, a.to_bits(), b.to_bits(), 2).err()
    };
    assert_eq!(run(5, 1.0, 1.0), None);
    assert_eq!(run(4, 1.0, 1.0), Some(VX_ERROR_INVALID_PARAMETERS));
    assert_eq!(run(-3, 1.0, 1.0), Some(VX_ERROR_INVALID_PARAMETERS));
    for bad in [0.0f32, -0.0, -1.0, f32::NEG_INFINITY] {
        assert_eq!(run(5, bad, 1.0), Some(VX_ERROR_INVALID_PARAMETERS));
        assert_eq!(run(5, 1.0, bad), Some(VX_ERROR_INVALID_PARAMETERS));
    }
    for good in [f32::NAN, -f32::NAN, f32::INFINITY, f32::MIN_POSITIVE] {
        assert_eq!(run(5, good, 1.0), None);
    }
    let none = vxuBilateralFilter(&contexts, 0, 1, 5, one, one, 2);
    assert_eq!(none.err(), Some(VX_ERROR_INVALID_REFERENCE));
    match vxuBilateralFilter(&contexts, 9, 1, 5, one, one, 2).unwrap().border {
        BorderArg::AsGiven(Some(b)) => assert_eq!(b.mode, 0xC000),
        _ => panic!("no border"),
    }
}

#[test]
fn scalars_are_made_for_a_call() {
    let call = vxuLBP(1, 2, 3, 4, 5);
    assert_eq!(call.context, ContextArg::Of(2));
    assert_eq!(call.seeds.len(), 2);
    assert_eq!(call.args[1], CallArg::Made(0));
    assert_eq!(call.args[2], CallArg::Made(1));
    let p = HoughLines { rho: 1, theta: 2, threshold: 3, line_length: 4, line_gap: 5 };
    let call = vxuHoughLinesP(1, 2, p, 3, 4);
    assert_eq!(call.seeds.len(), 5);
    assert_eq!(call.seeds[4].bits, 5);
    assert_eq!(call.args[6], plain(KernelArg::Ref(3)));
}

#[test]
fn results_are_copied_out_and_scalars_released() {
    let call = vxuMeanStdDev(1, 2, 100, 0).unwrap();
    assert_eq!(call.seeds[0].data_type, 0x0A);
    assert_eq!(
        finish_call(&call.results, &vec![50, 60], VX_SUCCESS),
        vec![Aftermath::CopyOut(50, 100), Aftermath::Release(50), Aftermath::Release(60)]
    );
    assert_eq!(
        finish_call(&call.results, &vec![50, 0], -3),
        vec![Aftermath::Release(50)]
    );
    assert_eq!(vxuMeanStdDev(1, 0, 100, 0).err(), Some(VX_ERROR_INVALID_REFERENCE));
}

#[test]
fn the_search_is_read_from_scalars() {
    let mut scalars: HashMap<u64, VxCScalar> = HashMap::new();
    scalars.insert(7, VxCScalar { data_type: 7, data: vec![5, 0, 0, 0], context: 1 });
    let call = vxuOpticalFlowPyrLK(&scalars, 1, 2, 3, 4, 5, 6, 9, 0, 7, 0, 11);
    assert_eq!(call.args[6], plain(KernelArg::Bits(0)));
    assert_eq!(call.args[7], plain(KernelArg::Bits(5)));
    assert_eq!(call.args[9], plain(KernelArg::Size(11)));
}

#[test]
fn filters_take_the_mask_and_the_border() {
    let mut contexts: HashMap<u64, VxCContext> = HashMap::new();
    let mut matrices: HashMap<u64, VxCMatrix> = HashMap::new();
    matrices.insert(
        4,
        VxCMatrix {
            data_type: 3,
            rows: 1,
            columns: 2,
            origin_x: 1,
            origin_y: 0,
            pattern: 0,
            data: vec![255, 0],
        },
    );
    let call = vxuNonLinearFilter(&contexts, &matrices, 9, 1, 2, 4, 5).ok().unwrap();
    assert_eq!(call.mask, vec![255, 0]);
    assert_eq!((call.columns, call.rows, call.origin_x, call.origin_y), (2, 1, 1, 0));
    assert_eq!(call.border, None);
    register_context(&mut contexts, 1, 9);
    let call = vxuNonLinearFilter(&contexts, &matrices, 9, 1, 2, 4, 5).ok().unwrap();
    assert_eq!(call.border.unwrap().mode, 0xC000);
    assert_eq!(
        vxuNonLinearFilter(&contexts, &matrices, 9, 1, 0, 4, 5).err(),
        Some(VX_ERROR_INVALID_REFERENCE)
    );
}

#[test]
fn one_shot_graphs_are_let_go() {
    let h = |handle: u64, status: i32| Reply { handle, status };
    let mut run = vxuAbsDiff(1, 2, 3, 4).unwrap();
    assert_eq!(advance_one_shot(&mut run, h(0, 0)), OneShotAction::MakeGraph);
    assert_eq!(advance_one_shot(&mut run, h(5, 0)), OneShotAction::MakeNode(5));
    assert_eq!(advance_one_shot(&mut run, h(6, 0)), OneShotAction::Verify(5));
    assert_eq!(advance_one_shot(&mut run, h(0, 0)), OneShotAction::Process(5));
    assert_eq!(advance_one_shot(&mut run, h(0, -4)), OneShotAction::Release(5));
    assert_eq!(advance_one_shot(&mut run, h(0, 0)), OneShotAction::Finished(-4));
    let mut run = vxuAbsDiff(1, 2, 3, 4).unwrap();
    advance_one_shot(&mut run, h(0, 0));
    assert_eq!(
        advance_one_shot(&mut run, h(0, 0)),
        OneShotAction::Finished(VX_ERROR_INVALID_REFERENCE)
    );
    let mut run = vxuAbsDiff(1, 2, 3, 4).unwrap();
    advance_one_shot(&mut run, h(0, 0));
    advance_one_shot(&mut run, h(5, 0));
    advance_one_shot(&mut run, h(6, 0));
    assert_eq!(
        advance_one_shot(&mut run, h(0, VX_ERROR_INVALID_GRAPH)),
        OneShotAction::Release(5)
    );
    assert_eq!(
        advance_one_shot(&mut run, h(0, 0)),
        OneShotAction::Finished(VX_ERROR_INVALID_GRAPH)
    );
    assert_eq!(vxuAbsDiff(1, 2, 3, 0).err(), Some(VX_ERROR_INVALID_REFERENCE));
}
