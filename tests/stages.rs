use gpu_correction::binding::{correction_signature, histogram_signature, signatures_match, Access, BindingSlot, ResourceKind};
use gpu_correction::chain::Pipeline;
use gpu_correction::dispatch::workgroup_count;
use gpu_correction::profiler::{ProfilerState, TimestampProfiler};
use gpu_correction::stage::{
    correction_stage, dark_correct, BoundResource, Command, ConfigError, CorrectionStage, DarkCorrectionCompute,
    GainCorrectionCompute, Surface,
};

fn surface(handle: u32, width: u32, height: u32) -> Surface {
    Surface { handle, width, height }
}

fn resources(w: u32, h: u32) -> Vec<BoundResource> {
    let sig = correction_signature();
    vec![
        BoundResource { binding: sig[0], handle: 1, width: w, height: h },
        BoundResource { binding: sig[1], handle: 2, width: w, height: h },
        BoundResource { binding: sig[2], handle: 3, width: w, height: h },
        BoundResource { binding: sig[3], handle: 4, width: 0, height: 0 },
    ]
}

#[test]
fn workgroup_count_boundaries() {
    assert_eq!(workgroup_count(0), 0);
    assert_eq!(workgroup_count(1), 1);
    assert_eq!(workgroup_count(256), 1);
    assert_eq!(workgroup_count(257), 2);
    assert_eq!(workgroup_count(2560 * 2560), 25600);
    assert_eq!(workgroup_count(u64::MAX), u64::MAX / 256 + 1);
}

#[test]
fn signatures_compare_slot_by_slot() {
    let a = correction_signature();
    assert!(signatures_match(&a, &correction_signature()));
    assert!(!signatures_match(&a, &histogram_signature()));
    let mut b = correction_signature();
    b[3].access = Access::ReadWrite;
    assert!(!signatures_match(&a, &b));
    let mut c = correction_signature();
    c.pop();
    assert!(!signatures_match(&a, &c));
}

#[test]
fn build_accepts_matching_resources() {
    let s = CorrectionStage::build(7, 9, correction_signature(), resources(2560, 2560), vec![0, 0, 0, 0]).unwrap();
    assert_eq!((s.width, s.height), (2560, 2560));
    assert_eq!(s.kernel, 7);
    assert_eq!(s.bind_group, 9);
}

#[test]
fn build_rejects_one_mismatched_slot() {
    for i in 0..4 {
        let mut rs = resources(4, 4);
        rs[i].binding.kind = ResourceKind::StorageBuffer;
        let r = CorrectionStage::build(1, 1, correction_signature(), rs, vec![]);
        assert_eq!(r.err(), Some(ConfigError::BindingMismatch));
    }
    let mut rs = resources(4, 4);
    rs[2].binding.access = Access::ReadOnly;
    let r = CorrectionStage::build(1, 1, correction_signature(), rs, vec![]);
    assert_eq!(r.err(), Some(ConfigError::BindingMismatch));
    let mut rs = resources(4, 4);
    rs[1].binding.slot = 5;
    let r = CorrectionStage::build(1, 1, correction_signature(), rs, vec![]);
    assert_eq!(r.err(), Some(ConfigError::BindingMismatch));
    let mut rs = resources(4, 4);
    rs.push(BoundResource {
        binding: BindingSlot { slot: 4, kind: ResourceKind::UniformBlock, access: Access::ReadOnly },
        handle: 5,
        width: 0,
        height: 0,
    });
    let r = CorrectionStage::build(1, 1, correction_signature(), rs, vec![]);
    assert_eq!(r.err(), Some(ConfigError::BindingMismatch));
}

#[test]
fn build_rejects_differing_shapes() {
    let mut rs = resources(4, 4);
    rs[2].height = 5;
    let r = CorrectionStage::build(1, 1, correction_signature(), rs, vec![]);
    assert_eq!(r.err(), Some(ConfigError::ShapeMismatch));
    // the parameter block's extent is not a shape
    let mut rs = resources(4, 4);
    rs[3].width = 99;
    assert!(CorrectionStage::build(1, 1, correction_signature(), rs, vec![]).is_ok());
}

#[test]
fn binding_mismatch_is_reported_before_shape() {
    let mut rs = resources(4, 4);
    rs[2].height = 5;
    rs[0].binding.access = Access::WriteOnly;
    let r = CorrectionStage::build(1, 1, correction_signature(), rs, vec![]);
    assert_eq!(r.err(), Some(ConfigError::BindingMismatch));
}

#[test]
fn correction_stage_over_surfaces() {
    let s = correction_stage(1, 2, surface(1, 8, 8), surface(2, 8, 8), surface(3, 8, 8), 4, vec![1]).unwrap();
    assert_eq!(s.resources.len(), 4);
    assert_eq!(s.params, vec![1]);
    let r = correction_stage(1, 2, surface(1, 8, 8), surface(2, 8, 9), surface(3, 8, 8), 4, vec![]);
    assert_eq!(r.err(), Some(ConfigError::ShapeMismatch));
    let r = correction_stage(1, 2, surface(1, 8, 8), surface(2, 8, 8), surface(3, 7, 8), 4, vec![]);
    assert_eq!(r.err(), Some(ConfigError::ShapeMismatch));
}

#[test]
fn record_appends_kernel_group_and_dispatch() {
    let d = DarkCorrectionCompute::new(5, 6, surface(1, 2560, 2560), surface(2, 2560, 2560), surface(3, 2560, 2560), 4, vec![0; 4])
        .unwrap();
    let mut rec = vec![Command::WriteTimestamp { query: 0 }];
    d.run(&mut rec);
    assert_eq!(
        rec,
        vec![
            Command::WriteTimestamp { query: 0 },
            Command::SetKernel { kernel: 5 },
            Command::SetBindGroup { index: 0, group: 6 },
            Command::Dispatch { x: 25600, y: 1, z: 1 },
        ]
    );
}

#[test]
fn gain_stage_dispatch_covers_partial_group() {
    let g = GainCorrectionCompute::new(1, 2, surface(1, 17, 17), surface(2, 17, 17), surface(3, 17, 17), 4, vec![0; 8]).unwrap();
    let mut rec = Vec::new();
    g.run(&mut rec);
    // 289 samples need two workgroups
    assert_eq!(rec[2], Command::Dispatch { x: 2, y: 1, z: 1 });
    let r = GainCorrectionCompute::new(1, 2, surface(1, 17, 17), surface(2, 16, 17), surface(3, 17, 17), 4, vec![]);
    assert!(matches!(r, Err(ConfigError::ShapeMismatch)));
}

#[test]
fn chain_runs_stages_in_order() {
    let a = correction_stage(1, 10, surface(1, 16, 16), surface(2, 16, 16), surface(3, 16, 16), 4, vec![]).unwrap();
    let b = correction_stage(2, 20, surface(3, 16, 16), surface(5, 16, 16), surface(6, 16, 16), 7, vec![]).unwrap();
    let p = Pipeline::chain(vec![a, b]);
    let rec = p.run();
    assert_eq!(
        rec,
        vec![
            Command::SetKernel { kernel: 1 },
            Command::SetBindGroup { index: 0, group: 10 },
            Command::Dispatch { x: 1, y: 1, z: 1 },
            Command::SetKernel { kernel: 2 },
            Command::SetBindGroup { index: 0, group: 20 },
            Command::Dispatch { x: 1, y: 1, z: 1 },
        ]
    );
    // running the same chain again records the same commands
    assert_eq!(p.run(), rec);
}

#[test]
fn empty_chain_records_nothing() {
    let p = Pipeline::chain(vec![]);
    assert!(p.run().is_empty());
    let mut prof = TimestampProfiler::new(0);
    assert_eq!(p.run_profiled(&mut prof), vec![Command::WriteTimestamp { query: 0 }, Command::WriteTimestamp { query: 1 }]);
}

#[test]
fn profiled_chain_brackets_stages_with_markers() {
    let a = correction_stage(1, 10, surface(1, 2560, 2560), surface(2, 2560, 2560), surface(3, 2560, 2560), 4, vec![]).unwrap();
    let p = Pipeline::chain(vec![a]);
    let mut prof = TimestampProfiler::new(1);
    let rec = p.run_profiled(&mut prof);
    assert_eq!(
        rec,
        vec![
            Command::WriteTimestamp { query: 2 },
            Command::SetKernel { kernel: 1 },
            Command::SetBindGroup { index: 0, group: 10 },
            Command::Dispatch { x: 25600, y: 1, z: 1 },
            Command::WriteTimestamp { query: 3 },
        ]
    );
    assert_eq!(prof.state, ProfilerState::Closed);
}

#[test]
fn dark_correction_of_constant_images() {
    let n = 2560 * 2560;
    let image = vec![10u16; n];
    let dark = vec![3u16; n];
    let out = dark_correct(&image, &dark, 0);
    assert_eq!(out.len(), n);
    assert_eq!(&out[0..10], &[7u16; 10]);
    assert!(out.iter().all(|&v| v == 7));
}

#[test]
fn dark_correction_saturates() {
    let out = dark_correct(&vec![2, 65535, 100], &vec![5, 0, 100], 4);
    assert_eq!(out, vec![1, 65535, 4]);
    let out = dark_correct(&vec![2], &vec![5], 0);
    assert_eq!(out, vec![0]);
}
