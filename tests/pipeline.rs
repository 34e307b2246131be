use destructible::dispatch::{collect_readback, plan_dispatch, DispatchShape, DispatchStep};
use destructible::error::{BuildStage, GpuError};
use destructible::pipeline::{plan_pipeline, BufferPlan, DeviceLimits, ElementLayout, ShaderData};

const LIMITS: DeviceLimits = DeviceLimits {
    max_storage_binding: 128 << 20,
    max_uniform_binding: 16 << 10,
    max_groups_per_dimension: 65535,
};

fn f32s(n: usize) -> ElementLayout {
    ElementLayout { size: 4, count: n }
}

fn bytes_of(values: &[f32]) -> Vec<u8> {
    values.iter().flat_map(|v| v.to_ne_bytes()).collect()
}

fn floats_of(bytes: &[u8]) -> Vec<f32> {
    bytes.chunks(4).map(|c| f32::from_ne_bytes([c[0], c[1], c[2], c[3]])).collect()
}

#[test]
fn shader_data_keeps_name_and_source() {
    let s = ShaderData::new("double", "@compute fn main() {}");
    assert_eq!(s.name, "double");
    assert_eq!(s.source, "@compute fn main() {}");
}

#[test]
fn doubling_scenario_sizes_and_readback() {
    let input = bytes_of(&[0.0, 1.0, 2.0, 3.0]);
    for aux in [f32s(1), f32s(4)] {
        let res = plan_pipeline(f32s(4), aux, LIMITS).unwrap();
        assert_eq!(res.storage_bytes, 16);
        assert_eq!(res.staging_bytes, 16);
        let plan = plan_dispatch(&res, &input, 4, 4, LIMITS.max_groups_per_dimension).unwrap();
        assert_eq!(plan.shape, DispatchShape { groups: 4, copy_bytes: 16, output_count: 4 });
        assert_eq!(plan.upload, input);
        assert!(plan.needs_gpu());
        // the staging buffer after the program doubled [0, 1, 2, 3]
        let staged = bytes_of(&[0.0, 2.0, 4.0, 6.0]);
        let out = collect_readback(&plan, Some(&staged)).unwrap();
        assert_eq!(floats_of(&out), vec![0.0, 2.0, 4.0, 6.0]);
    }
    let res = plan_pipeline(f32s(4), f32s(1), LIMITS).unwrap();
    assert_eq!(
        res,
        BufferPlan { element_count: 4, element_size: 4, storage_bytes: 16, staging_bytes: 16, aux_bytes: 4 }
    );
}

#[test]
fn empty_input_is_refused_at_build() {
    assert_eq!(
        plan_pipeline(f32s(0), f32s(1), LIMITS),
        Err(GpuError::PipelineBuildFailure { stage: BuildStage::StorageBuffer, size: 0 })
    );
}

#[test]
fn storage_over_limit_is_refused() {
    let big = ElementLayout { size: 4, count: (128 << 20) / 4 + 1 };
    assert_eq!(
        plan_pipeline(big, f32s(1), LIMITS),
        Err(GpuError::PipelineBuildFailure { stage: BuildStage::StorageBuffer, size: (128 << 20) + 4 })
    );
}

#[test]
fn overflowing_size_is_reported_saturated() {
    let huge = ElementLayout { size: usize::MAX, count: 2 };
    assert_eq!(
        plan_pipeline(huge, f32s(1), LIMITS),
        Err(GpuError::PipelineBuildFailure { stage: BuildStage::StorageBuffer, size: u64::MAX })
    );
}

#[test]
fn unaligned_storage_is_a_layout_mismatch() {
    let bytes3 = ElementLayout { size: 1, count: 3 };
    assert_eq!(plan_pipeline(bytes3, f32s(1), LIMITS), Err(GpuError::LayoutMismatch { bytes: 3, unit: 4 }));
}

#[test]
fn aux_empty_or_too_large_is_refused() {
    assert_eq!(
        plan_pipeline(f32s(4), f32s(0), LIMITS),
        Err(GpuError::PipelineBuildFailure { stage: BuildStage::AuxBuffer, size: 0 })
    );
    assert_eq!(
        plan_pipeline(f32s(4), f32s(4097), LIMITS),
        Err(GpuError::PipelineBuildFailure { stage: BuildStage::AuxBuffer, size: 16388 })
    );
}

#[test]
fn aux_need_not_be_copy_aligned() {
    let aux = ElementLayout { size: 1, count: 3 };
    assert_eq!(plan_pipeline(f32s(2), aux, LIMITS).unwrap().aux_bytes, 3);
}

#[test]
fn dispatch_steps_upload_first_and_map_after_submit() {
    let res = plan_pipeline(f32s(3), f32s(1), LIMITS).unwrap();
    let plan = plan_dispatch(&res, &bytes_of(&[1.0, 2.0, 3.0]), 3, 4, 65535).unwrap();
    assert_eq!(
        plan.steps,
        vec![
            DispatchStep::WriteStorage { bytes: 12 },
            DispatchStep::BeginPass,
            DispatchStep::SetPipeline,
            DispatchStep::SetBindGroup { index: 0 },
            DispatchStep::DebugMarker,
            DispatchStep::Dispatch { x: 3, y: 1, z: 1 },
            DispatchStep::EndPass,
            DispatchStep::CopyToStaging { bytes: 12 },
            DispatchStep::Submit,
            DispatchStep::MapStaging,
            DispatchStep::WaitForDevice,
        ]
    );
}

#[test]
fn empty_dispatch_needs_no_gpu_and_returns_nothing() {
    let res = plan_pipeline(f32s(4), f32s(1), LIMITS).unwrap();
    let plan = plan_dispatch(&res, &[], 0, 4, 65535).unwrap();
    assert_eq!(plan.shape, DispatchShape { groups: 0, copy_bytes: 0, output_count: 0 });
    assert!(plan.upload.is_empty());
    assert!(plan.steps.is_empty());
    assert!(!plan.needs_gpu());
    assert_eq!(collect_readback(&plan, None), Ok(vec![]));
}

#[test]
fn dispatch_count_must_match_resources() {
    let res = plan_pipeline(f32s(4), f32s(1), LIMITS).unwrap();
    let input = bytes_of(&[0.0; 5]);
    assert_eq!(
        plan_dispatch(&res, &input, 5, 4, 65535).err(),
        Some(GpuError::CountMismatch { built_for: 4, given: 5 })
    );
}

#[test]
fn dispatch_bytes_must_fill_the_storage_buffer() {
    let res = plan_pipeline(f32s(4), f32s(1), LIMITS).unwrap();
    let short = vec![0u8; 15];
    assert_eq!(
        plan_dispatch(&res, &short, 4, 4, 65535).err(),
        Some(GpuError::LayoutMismatch { bytes: 15, unit: 4 })
    );
}

#[test]
fn output_elements_must_divide_the_copy() {
    let res = plan_pipeline(f32s(4), f32s(1), LIMITS).unwrap();
    let input = bytes_of(&[0.0; 4]);
    assert_eq!(
        plan_dispatch(&res, &input, 4, 3, 65535).err(),
        Some(GpuError::LayoutMismatch { bytes: 16, unit: 3 })
    );
    assert_eq!(
        plan_dispatch(&res, &input, 4, 0, 65535).err(),
        Some(GpuError::LayoutMismatch { bytes: 16, unit: 0 })
    );
    // wider outputs read back fewer elements
    assert_eq!(plan_dispatch(&res, &input, 4, 8, 65535).unwrap().shape.output_count, 2);
}

#[test]
fn dispatch_over_group_limit_is_refused() {
    let res = plan_pipeline(f32s(8), f32s(1), LIMITS).unwrap();
    let input = bytes_of(&[0.0; 8]);
    assert_eq!(
        plan_dispatch(&res, &input, 8, 4, 7).err(),
        Some(GpuError::DispatchTooLarge { groups: 8, limit: 7 })
    );
    assert_eq!(plan_dispatch(&res, &input, 8, 4, 8).unwrap().shape.groups, 8);
}

#[test]
fn failed_or_short_mapping_is_a_map_failure() {
    let res = plan_pipeline(f32s(4), f32s(1), LIMITS).unwrap();
    let plan = plan_dispatch(&res, &bytes_of(&[0.0; 4]), 4, 4, 65535).unwrap();
    assert_eq!(collect_readback(&plan, None), Err(GpuError::BufferMapFailure));
    let short = vec![0u8; 15];
    assert_eq!(collect_readback(&plan, Some(&short)), Err(GpuError::BufferMapFailure));
}

#[test]
fn readback_takes_only_the_copied_range() {
    let res = plan_pipeline(ElementLayout { size: 4, count: 2 }, f32s(1), LIMITS).unwrap();
    let plan = plan_dispatch(&res, &[9u8; 8], 2, 4, 65535).unwrap();
    let mapped: Vec<u8> = (1..=12).collect();
    assert_eq!(collect_readback(&plan, Some(&mapped)), Ok(vec![1, 2, 3, 4, 5, 6, 7, 8]));
}

#[test]
fn sequential_dispatches_upload_their_own_inputs() {
    let res = plan_pipeline(f32s(4), f32s(1), LIMITS).unwrap();
    let d1 = bytes_of(&[1.0, 2.0, 3.0, 4.0]);
    let d2 = bytes_of(&[5.0, 6.0, 7.0, 8.0]);
    let first = plan_dispatch(&res, &d1, 4, 4, 65535).unwrap();
    let second = plan_dispatch(&res, &d2, 4, 4, 65535).unwrap();
    assert_eq!(first.shape, second.shape);
    assert_eq!(first.steps, second.steps);
    // each dispatch overwrites the whole storage buffer with its own input
    assert_eq!(first.upload, d1);
    assert_eq!(second.upload, d2);
    assert_eq!(second.steps[0], DispatchStep::WriteStorage { bytes: res.storage_bytes });
    let a = collect_readback(&first, Some(&bytes_of(&[2.0, 4.0, 6.0, 8.0]))).unwrap();
    let b = collect_readback(&second, Some(&bytes_of(&[10.0, 12.0, 14.0, 16.0]))).unwrap();
    assert_eq!(floats_of(&a), vec![2.0, 4.0, 6.0, 8.0]);
    assert_eq!(floats_of(&b), vec![10.0, 12.0, 14.0, 16.0]);
}

#[test]
fn every_element_gets_one_work_item() {
    for n in [1usize, 2, 3, 64, 1000] {
        let res = plan_pipeline(f32s(n), f32s(1), LIMITS).unwrap();
        let input = bytes_of(&vec![1.5; n]);
        let plan = plan_dispatch(&res, &input, n, 4, 65535).unwrap();
        assert_eq!(plan.shape.groups as usize, n);
        assert_eq!(plan.shape.copy_bytes, 4 * n as u64);
        assert_eq!(plan.shape.output_count, n);
        assert_eq!(plan.upload, input);
    }
}
