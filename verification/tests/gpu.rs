use auraw::ai_masks::source::{
    ai_mask_source_proxy_edge, mask_source_proxy, preview_source_prerequisites,
    source_pipeline_failure, source_prerequisites, source_readback_error, SourcePipelineFailure,
};
use auraw::gpu_errors::{
    first_scope_error, out_of_memory_notice, record_gpu_error, take_gpu_out_of_memory, GpuErrorKind,
    OomSignal,
};
use auraw::gpu_uploads::{check_inpaint_resize_rectangle, check_thumbnail_edge};
use auraw::gpu_uploads::{
    check_tile_dimensions, immutable_ai_source_matches, inpaint_upload_elements, project_inpaint_patch, MaskAtlas, PatchRect,
    TileSpace,
};
use auraw::render_graph::{
    creative_effects_source, expected_pass_count, explicit_render_graph_contracts_are_contiguous,
    gpu_preview_prewarm_cfa_kind, CfaKind,
};
use auraw::workgroup::{
    specialize_compute_workgroup_size, ComputeLimits, ComputeWorkgroupSize, WorkgroupError,
};
use auraw::pipeline_plan::{check_output_lut_write, check_template_reuse, ProgramTemplateInfo};
use auraw::render_graph::ProcessingQuality;
use auraw::pass_plan::{dispatch_passes, pass_layout, Dispatch, PassOptions};
use auraw::pipeline_plan::{plan_mask_atlas, profile_buffer_bytes, tone_extent, tone_histogram_bounds};
use auraw::pipeline_plan::{
    prewarm_cfa_layout, prewarm_error, prewarm_mask_atlas_edge_override, PrewarmFailure, PrewarmSlot,
    PREWARM_EDGE,
};

#[test]
fn out_of_memory_signal_is_edge_triggered() {
    let mut signal = OomSignal::new();
    assert!(!signal.take());
    signal.raise();
    assert!(signal.take());
    assert!(!signal.take());
}

#[test]
fn repeated_raises_are_observed_once() {
    let mut signal = OomSignal::new();
    signal.raise();
    signal.raise();
    assert!(take_gpu_out_of_memory(&mut signal));
    assert!(!take_gpu_out_of_memory(&mut signal));
}

#[test]
fn recording_an_out_of_memory_error_raises_the_signal() {
    let mut signal = OomSignal::new();
    let message = record_gpu_error(&mut signal, &GpuErrorKind::OutOfMemory, "preview render");
    assert_eq!(message, "preview render ran out of GPU memory; the operation was cancelled");
    assert!(signal.take());

    let message = record_gpu_error(
        &mut signal,
        &GpuErrorKind::Validation { description: "bad binding".to_string() },
        "export",
    );
    assert_eq!(message, "export failed GPU validation: bad binding");
    assert!(!signal.take());

    let message = record_gpu_error(
        &mut signal,
        &GpuErrorKind::Internal { description: "lost".to_string() },
        "upload",
    );
    assert_eq!(message, "upload hit an internal GPU error: lost");
    assert!(!signal.take());
}

#[test]
fn out_of_memory_outranks_other_scope_errors() {
    assert_eq!(first_scope_error(Some(1), Some(2), Some(3)), Some(1));
    assert_eq!(first_scope_error(None, Some(2), Some(3)), Some(2));
    assert_eq!(first_scope_error(None, None, Some(3)), Some(3));
    assert_eq!(first_scope_error::<u8>(None, None, None), None);
}

#[test]
fn workgroup_shapes_are_validated() {
    assert_eq!(ComputeWorkgroupSize::new(0, 8), Err(WorkgroupError::ZeroDimension));
    assert_eq!(ComputeWorkgroupSize::new(65_536, 65_536), Err(WorkgroupError::Overflow));
    assert_eq!(ComputeWorkgroupSize::new(16, 4), Ok(ComputeWorkgroupSize { x: 16, y: 4 }));
    assert_eq!(ComputeWorkgroupSize::default(), ComputeWorkgroupSize { x: 8, y: 8 });

    let limits = ComputeLimits {
        max_compute_workgroup_size_x: 16,
        max_compute_workgroup_size_y: 16,
        max_compute_invocations_per_workgroup: 128,
    };
    assert_eq!(ComputeWorkgroupSize { x: 8, y: 8 }.validate_for_limits(&limits), Ok(()));
    let too_big = ComputeWorkgroupSize { x: 16, y: 16 };
    let error = too_big.validate_for_limits(&limits).unwrap_err();
    assert_eq!(error, WorkgroupError::ExceedsLimits { x: 16, y: 16, limits });
    assert_eq!(error.message(), "compute workgroup 16x16 exceeds device limits (16x16, 128 invocations)");
    assert_eq!(WorkgroupError::ZeroDimension.message(), "compute workgroup dimensions must be non-zero");
    assert_eq!(WorkgroupError::Overflow.message(), "compute workgroup dimensions overflow");
}

#[test]
fn dispatch_covers_the_whole_extent() {
    let size = ComputeWorkgroupSize { x: 8, y: 8 };
    assert_eq!(size.dispatch_for_extent(64, 65), [8, 9, 1]);
    assert_eq!(size.dispatch_for_extent(0, 1), [0, 1, 1]);
    assert_eq!(ComputeWorkgroupSize { x: 16, y: 4 }.dispatch_for_extent(17, 4), [2, 1, 1]);
}

#[test]
fn shader_sources_are_specialized_to_the_workgroup() {
    let source = "@compute @workgroup_size(8, 8, 1)\nfn a() {}\n@compute @workgroup_size(8, 8, 1)\nfn b() {}";
    assert_eq!(specialize_compute_workgroup_size(source, ComputeWorkgroupSize::default()), source);
    let specialized = specialize_compute_workgroup_size(source, ComputeWorkgroupSize { x: 16, y: 4 });
    assert_eq!(
        specialized,
        "@compute @workgroup_size(16, 4, 1)\nfn a() {}\n@compute @workgroup_size(16, 4, 1)\nfn b() {}"
    );
    assert_eq!(specialize_compute_workgroup_size("fn c() {}", ComputeWorkgroupSize { x: 4, y: 4 }), "fn c() {}");
}

#[test]
fn render_graph_is_contiguous_and_pass_counts_differ_by_sensor() {
    assert!(explicit_render_graph_contracts_are_contiguous());
    assert_eq!(expected_pass_count(CfaKind::Bayer), 30);
    assert_eq!(expected_pass_count(CfaKind::XTrans), 34);
}

#[test]
fn preview_prewarm_uses_the_bayer_template_explicitly() {
    assert_eq!(gpu_preview_prewarm_cfa_kind(), CfaKind::Bayer);
}

#[test]
fn creative_effects_are_joined_line_by_line() {
    assert_eq!(creative_effects_source(&["stage", "blur", "glow"]), "stage\nblur\nglow");
    assert_eq!(creative_effects_source(&[]), "");
}

#[test]
fn canonical_source_keeps_4k_for_three_by_two_but_caps_square_pixel_count() {
    assert_eq!(ai_mask_source_proxy_edge(6000, 4000), 4096);
    assert_eq!(ai_mask_source_proxy_edge(6000, 6000), 3464);
    assert_eq!(ai_mask_source_proxy_edge(3000, 3000), 3000);
}

#[test]
fn small_raws_are_their_own_mask_source() {
    assert_eq!(mask_source_proxy(3000, 2000), None);
    assert_eq!(mask_source_proxy(6000, 4000), Some(4096));
    assert_eq!(ai_mask_source_proxy_edge(0, 0), 1);
}

#[test]
fn mask_atlas_uploads_are_checked() {
    let atlas = MaskAtlas { edge: 4, capacity: 2 };
    assert_eq!(atlas.check_layer_upload(1, 16), Ok(()));
    assert_eq!(
        atlas.check_layer_upload(2, 16),
        Err("local-mask layer 2 exceeds atlas capacity 2".to_string())
    );
    assert_eq!(
        atlas.check_layer_upload(0, 15),
        Err("local-mask layer has 15 samples, expected 16".to_string())
    );
    assert_eq!(atlas.check_region_upload(0, 2, 3, 6), Ok(()));
    assert_eq!(
        atlas.check_region_upload(0, 5, 3, 15),
        Err("local-mask region 5x3 exceeds 4x4 atlas".to_string())
    );
    assert_eq!(
        atlas.check_region_upload(0, 0, 3, 0),
        Err("local-mask region 0x3 exceeds 4x4 atlas".to_string())
    );
    assert_eq!(
        atlas.check_region_upload(1, 2, 2, 3),
        Err("local-mask region has 3 samples, expected 4".to_string())
    );
}

#[test]
fn ai_sources_must_match_the_document() {
    assert!(immutable_ai_source_matches(true, false, CfaKind::Bayer, true));
    assert!(!immutable_ai_source_matches(true, false, CfaKind::Bayer, false));
    assert!(immutable_ai_source_matches(false, false, CfaKind::XTrans, false));
    assert!(!immutable_ai_source_matches(false, false, CfaKind::XTrans, true));
    assert!(immutable_ai_source_matches(false, true, CfaKind::XTrans, true));
}

#[test]
fn inpaint_layer_size_is_four_halves_per_pixel() {
    assert_eq!(inpaint_upload_elements(10, 20), Ok(800));
    assert_eq!(inpaint_upload_elements(0, 20), Ok(0));
}

#[test]
fn inpaint_patches_project_into_the_tile() {
    let patch = PatchRect { x: 10, y: 20, width: 30, height: 40, source_width: 100, source_height: 100 };
    let full = TileSpace { origin_x: 0, origin_y: 0, width: 200, height: 200, full_width: 200, full_height: 200 };
    assert_eq!(project_inpaint_patch(patch, full, true), Ok((20, 40, 80, 120)));

    let tile = TileSpace { origin_x: 50, origin_y: -10, width: 20, height: 300, full_width: 200, full_height: 200 };
    assert_eq!(project_inpaint_patch(patch, tile, true), Ok((0, 50, 20, 130)));

    let odd = PatchRect { x: 1, y: 1, width: 1, height: 1, source_width: 3, source_height: 3 };
    let space = TileSpace { origin_x: 0, origin_y: 0, width: 10, height: 10, full_width: 10, full_height: 10 };
    assert_eq!(project_inpaint_patch(odd, space, true), Ok((3, 3, 7, 7)));

    let wide = PatchRect { x: u32::MAX, y: 0, width: 1, height: 1, source_width: 1, source_height: 1 };
    assert_eq!(
        project_inpaint_patch(wide, space, true),
        Err("inpaint patch horizontal extent overflows".to_string())
    );
    let tall = PatchRect { x: 0, y: u32::MAX, width: 1, height: 1, source_width: 1, source_height: 1 };
    assert_eq!(
        project_inpaint_patch(tall, space, true),
        Err("inpaint patch vertical extent overflows".to_string())
    );
}

#[test]
fn compiled_programs_are_reused_only_when_compatible() {
    let template = ProgramTemplateInfo {
        cfa_kind: CfaKind::Bayer,
        quality: ProcessingQuality::High,
        workgroup_size: ComputeWorkgroupSize::default(),
        pass_count: 30,
    };
    assert_eq!(check_template_reuse(template, CfaKind::Bayer, ProcessingQuality::High, ComputeWorkgroupSize::default()), Ok(()));
    let error = Err("cannot reuse GPU programs from an incompatible pipeline".to_string());
    assert_eq!(check_template_reuse(template, CfaKind::XTrans, ProcessingQuality::High, ComputeWorkgroupSize::default()), error);
    assert_eq!(check_template_reuse(template, CfaKind::Bayer, ProcessingQuality::Preview, ComputeWorkgroupSize::default()), error);
    assert_eq!(
        check_template_reuse(template, CfaKind::Bayer, ProcessingQuality::High, ComputeWorkgroupSize { x: 16, y: 16 }),
        error
    );
    let incomplete = ProgramTemplateInfo { pass_count: 29, ..template };
    assert_eq!(check_template_reuse(incomplete, CfaKind::Bayer, ProcessingQuality::High, ComputeWorkgroupSize::default()), error);
}

#[test]
fn pipeline_surfaces_are_sized_before_allocation() {
    assert_eq!(tone_extent(6000, 4001, 4), (1500, 1001));
    assert_eq!(tone_extent(u32::MAX, 0, 1), (u32::MAX, 0));
    assert_eq!(plan_mask_atlas(None, 800, 2048, 3, 32), MaskAtlas { edge: 800, capacity: 32 });
    assert_eq!(plan_mask_atlas(None, 10, 2048, 3, 32), MaskAtlas { edge: 64, capacity: 32 });
    assert_eq!(plan_mask_atlas(Some(4096), 800, 2048, 3, 32), MaskAtlas { edge: 2048, capacity: 3 });
    assert_eq!(plan_mask_atlas(Some(1024), 800, 2048, 0, 32), MaskAtlas { edge: 1024, capacity: 1 });
    assert_eq!(plan_mask_atlas(Some(1024), 800, 2048, 40, 32), MaskAtlas { edge: 1024, capacity: 32 });
    assert_eq!(tone_histogram_bounds(10, 20, 100, 100, 50, 500), [10, 20, 50, 120]);
    assert_eq!(tone_histogram_bounds(u32::MAX, 0, 5, 1, 7, 7), [u32::MAX, 0, 7, 1]);
    assert_eq!(profile_buffer_bytes(3), Ok(48));
    assert_eq!(profile_buffer_bytes(usize::MAX), Err("GPU profile buffer size overflows".to_string()));
}

#[test]
fn prewarm_layouts_repeat_one_sensor_period() {
    let bayer = prewarm_cfa_layout(CfaKind::Bayer);
    assert_eq!((bayer.period_width, bayer.period_height), (2, 2));
    assert_eq!(bayer.pattern, vec![0, 1, 1, 2]);
    let xtrans = prewarm_cfa_layout(CfaKind::XTrans);
    assert_eq!((xtrans.period_width, xtrans.period_height), (6, 6));
    assert_eq!(xtrans.pattern.len(), 36);
    assert_eq!(&xtrans.pattern[6..12], &[1, 2, 1, 2, 1, 2]);
    assert_eq!(xtrans.pattern.iter().filter(|&&c| c == 1).count(), 14);
    assert_eq!(PREWARM_EDGE, 16);
}

#[test]
fn export_prewarm_keeps_a_small_mask_atlas() {
    assert_eq!(prewarm_mask_atlas_edge_override(ProcessingQuality::High), Some(64));
    assert_eq!(prewarm_mask_atlas_edge_override(ProcessingQuality::Preview), None);
}

#[test]
fn first_published_prewarm_outcome_wins() {
    let mut slot: PrewarmSlot<u32> = PrewarmSlot::new();
    assert!(slot.ready().is_none());
    assert!(slot.publish(Ok(7)));
    assert!(!slot.publish(Err("late failure".to_owned())));
    assert_eq!(slot.ready(), Some(&Ok(7)));
}

#[test]
fn mask_source_capture_reports_the_first_missing_input() {
    assert_eq!(source_prerequisites(true, true, true), Ok(()));
    assert_eq!(
        source_prerequisites(false, false, false),
        Err("The GPU preview is not available.".to_owned())
    );
    assert_eq!(
        source_prerequisites(true, false, false),
        Err("Open an image before creating this mask.".to_owned())
    );
    assert_eq!(
        source_prerequisites(true, true, false),
        Err("The original RAW is not available.".to_owned())
    );
    assert_eq!(
        preview_source_prerequisites(true, false, true),
        Err("The preview image is not available yet.".to_owned())
    );
    assert_eq!(
        preview_source_prerequisites(true, true, false),
        Err("Open an image before creating this mask.".to_owned())
    );
    assert_eq!(preview_source_prerequisites(true, true, true), Ok(()));
}

#[test]
fn over_budget_source_pipeline_falls_back_to_the_preview() {
    assert_eq!(
        source_pipeline_failure("GPU pipelines already reserve 900 MB of 1024 MB"),
        SourcePipelineFailure::UseActivePreview
    );
    assert_eq!(
        source_pipeline_failure("device lost"),
        SourcePipelineFailure::Fail(
            "Could not prepare the original RAW for masking: device lost".to_owned()
        )
    );
    assert_eq!(
        source_readback_error("map failed"),
        "Could not read the original RAW for masking: map failed"
    );
}

#[test]
fn out_of_memory_notice_suggests_a_remedy() {
    assert_eq!(
        out_of_memory_notice(),
        "GPU memory was exhausted. AuRaw cancelled the operation and released optional preview textures. Close other GPU-heavy apps or lower Preview Quality before retrying."
    );
}

#[test]
fn output_lut_writes_stay_inside_the_profile_buffer() {
    assert_eq!(check_output_lut_write(33, 33, 1024, 4096, 5120), Ok(()));
    assert_eq!(
        check_output_lut_write(17, 33, 0, 16, 5120),
        Err("output ICC LUT edge does not match the GPU profile layout".to_owned())
    );
    assert_eq!(
        check_output_lut_write(33, 33, u64::MAX, 1, u64::MAX),
        Err("output ICC LUT buffer range overflows".to_owned())
    );
    assert_eq!(
        check_output_lut_write(33, 33, 1024, 4097, 5120),
        Err("output ICC LUT would write past the validated GPU profile buffer".to_owned())
    );
}

#[test]
fn export_tiles_must_match_the_reusable_pipeline() {
    assert_eq!(check_tile_dimensions((512, 512), (512, 512)), Ok(()));
    assert_eq!(
        check_tile_dimensions((512, 384), (512, 512)),
        Err("tile dimensions 512x384 do not match reusable pipeline 512x512".to_owned())
    );
}

fn pass_options(
    ai_scene: bool,
    dual_demosaic: bool,
    color_denoise: bool,
    intermediate_adjustments: bool,
    glow: bool,
) -> PassOptions {
    PassOptions { ai_scene, dual_demosaic, color_denoise, intermediate_adjustments, glow }
}

#[test]
fn bayer_program_layout_matches_its_pass_count() {
    let layout = pass_layout(CfaKind::Bayer);
    assert_eq!(layout.pass_count, expected_pass_count(CfaKind::Bayer));
    assert_eq!((layout.demosaic_start, layout.dual_start, layout.dual_end), (1, 4, 6));
    assert_eq!((layout.color_denoise_start, layout.color_denoise_end), (7, 13));
    assert_eq!((layout.tone_prepare, layout.tone_reduce, layout.tone_stage_end), (13, 16, 17));
    assert_eq!((layout.glow_blur_start, layout.glow_blur_end), (23, 28));
    assert_eq!((layout.adjustment_creative, layout.adjustment_render), (28, 29));
    let xtrans = pass_layout(CfaKind::XTrans);
    assert_eq!(xtrans.pass_count, expected_pass_count(CfaKind::XTrans));
    assert_eq!(xtrans.dual_start, 8);
}

#[test]
fn full_render_dispatches_every_pass_once() {
    let layout = pass_layout(CfaKind::XTrans);
    let all = dispatch_passes(layout, Dispatch::Complete, pass_options(false, true, true, true, true));
    assert_eq!(all, (0..layout.pass_count).collect::<Vec<_>>());
}

#[test]
fn neutral_edit_skips_the_optional_passes() {
    let layout = pass_layout(CfaKind::Bayer);
    let minimal = pass_options(false, false, false, false, false);
    assert_eq!(dispatch_passes(layout, Dispatch::RawStage, minimal), vec![0, 1, 2, 3, 6]);
    assert_eq!(dispatch_passes(layout, Dispatch::OutputStage, minimal), vec![17, 18, 29]);
    assert_eq!(dispatch_passes(layout, Dispatch::ToneStage, minimal), vec![13, 14, 15, 16]);
    let denoised = pass_options(true, true, true, false, false);
    assert!(dispatch_passes(layout, Dispatch::RawStage, denoised).is_empty());
    let effects = pass_options(false, false, true, true, false);
    assert_eq!(
        dispatch_passes(layout, Dispatch::OutputStage, effects),
        vec![17, 18, 19, 20, 21, 28, 29]
    );
}

#[test]
fn export_tiles_share_one_histogram_reduction() {
    let layout = pass_layout(CfaKind::Bayer);
    let options = pass_options(false, false, false, false, false);
    assert_eq!(
        dispatch_passes(layout, Dispatch::ExportToneTile, options),
        vec![0, 1, 2, 3, 6, 13]
    );
    assert_eq!(dispatch_passes(layout, Dispatch::ExportToneReduce, options), vec![16]);
    let tile = dispatch_passes(layout, Dispatch::ExportTile, options);
    assert!(!tile.contains(&16));
    assert_eq!(&tile[5..8], &[13, 14, 15]);
}

#[test]
fn prewarm_failures_name_the_failed_step() {
    assert_eq!(
        prewarm_error(PrewarmFailure::NoGpuBackend),
        "eframe is not running with the wgpu backend"
    );
    assert_eq!(
        prewarm_error(PrewarmFailure::Preview("shader".to_owned())),
        "GPU preview prewarm failed: shader"
    );
    assert_eq!(
        prewarm_error(PrewarmFailure::Export("oom".to_owned())),
        "GPU export program prewarm failed: oom"
    );
    assert_eq!(
        prewarm_error(PrewarmFailure::ThreadStart("limit".to_owned())),
        "GPU prewarm thread could not start: limit"
    );
}

#[test]
fn take_reports_out_of_memory_recorded_since_the_last_take() {
    let mut signal = OomSignal::new();
    record_gpu_error(&mut signal, &GpuErrorKind::Validation { description: "bad".to_owned() }, "a");
    record_gpu_error(&mut signal, &GpuErrorKind::Internal { description: "lost".to_owned() }, "b");
    assert!(!take_gpu_out_of_memory(&mut signal));
    record_gpu_error(&mut signal, &GpuErrorKind::OutOfMemory, "c");
    record_gpu_error(&mut signal, &GpuErrorKind::Validation { description: "bad".to_owned() }, "d");
    assert!(take_gpu_out_of_memory(&mut signal));
    assert!(!take_gpu_out_of_memory(&mut signal));
}

#[test]
fn inpaint_projection_refuses_empty_spaces_and_invalid_patches() {
    let patch = PatchRect { x: 10, y: 20, width: 30, height: 40, source_width: 100, source_height: 100 };
    let empty = TileSpace { origin_x: 0, origin_y: 0, width: 200, height: 200, full_width: 0, full_height: 200 };
    assert_eq!(
        project_inpaint_patch(patch, empty, false),
        Err("invalid inpaint coordinate space for GPU upload".to_string())
    );
    let space = TileSpace { origin_x: 0, origin_y: 0, width: 200, height: 200, full_width: 200, full_height: 200 };
    assert_eq!(
        project_inpaint_patch(patch, space, false),
        Err("invalid inpaint patch for GPU upload".to_string())
    );
}

#[test]
fn inpaint_projection_accepts_full_sizes_beyond_the_i32_range() {
    let patch = PatchRect { x: 1, y: 1, width: 1, height: 1, source_width: 2, source_height: 2 };
    let huge = TileSpace {
        origin_x: i32::MAX,
        origin_y: 0,
        width: 100,
        height: 100,
        full_width: u32::MAX,
        full_height: u32::MAX,
    };
    // x: 1 * 4294967295 / 2 = 2147483647 -> 0 in the tile; end 4294967295 -> clamped to 100.
    assert_eq!(project_inpaint_patch(patch, huge, true), Ok((0, 100, 100, 100)));
}

#[test]
fn inpaint_projection_wraps_edges_beyond_the_signed_64_bit_range() {
    let patch = PatchRect { x: u32::MAX - 1, y: 0, width: 1, height: 1, source_width: 1, source_height: 1 };
    let space = TileSpace { origin_x: 0, origin_y: 0, width: 100, height: 100, full_width: u32::MAX, full_height: 10 };
    // Both horizontal edges exceed i64::MAX and wrap to negative values, which clamp to 0.
    assert_eq!(project_inpaint_patch(patch, space, true), Ok((0, 0, 0, 10)));
}

#[test]
fn inpaint_resize_rectangles_must_lie_inside_the_scene() {
    assert_eq!(check_inpaint_resize_rectangle((100, 80), 10, 20, 90, 60, 32, 32), Ok(()));
    let refused = Err("invalid inpainting resize rectangle".to_owned());
    assert_eq!(check_inpaint_resize_rectangle((100, 80), 10, 20, 91, 60, 32, 32), refused);
    assert_eq!(check_inpaint_resize_rectangle((100, 80), 10, 20, 90, 61, 32, 32), refused);
    assert_eq!(check_inpaint_resize_rectangle((100, 80), 0, 0, 0, 10, 32, 32), refused);
    assert_eq!(check_inpaint_resize_rectangle((100, 80), 0, 0, 10, 10, 0, 32), refused);
    assert_eq!(check_inpaint_resize_rectangle((100, 80), 0, 0, 10, 10, 32, 0), refused);
    assert_eq!(check_inpaint_resize_rectangle((u32::MAX, 80), u32::MAX, 0, 1, 10, 32, 32), refused);
}

#[test]
fn thumbnail_readback_needs_a_non_zero_edge() {
    assert_eq!(check_thumbnail_edge(0), Err("thumbnail edge must be non-zero".to_owned()));
    assert_eq!(check_thumbnail_edge(256), Ok(()));
}
