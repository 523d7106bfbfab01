use auraw::ai_masks::completion::{
    landscape_completion, object_completion, object_inference_progress, result_error_message,
    subject_completion, worker_stopped_message, MaskJobKind, MaskJobResult,
};
use auraw::ai_masks::requests::{
    landscape_request_precheck, mask_task_schedule, object_mask_request, object_worker_slot,
    LandscapePrecheck, ModelJob, ObjectJobs, ObjectRequest, ObjectWorkerSlot, TaskSchedule,
};
use auraw::ai_masks::requests::{object_worker_start, ObjectWorkerStart};
use auraw::ai_masks::requests::{
    ai_masks_busy, landscape_worker_start, subject_source_missing_notice, task_owner_is_stale,
    JobActivity, LandscapeStart, TaskSnapshot,
};
use auraw::ai_masks::resolve::{
    capture_ai_mask_target, resolve_ai_mask_target_in_stack, AiMaskTarget, ComponentMatch,
};
use auraw::ai_masks::targets::{
    ai_mask_refresh_target_count, generated_ai_mask_targets, has_range_mask_targets,
    install_missing_range_sources, needs_canonical_mask_source, target_positions, GeometrySummary,
    MaskComponentSummary, MaskKind, TargetClass,
};
use auraw::ai_masks::update::{
    cancel_notice, finish_notice, AiMaskUpdate, NextAiMaskJob, UpdateAllPlan, UpdateAllStart,
};
use auraw::mask_gesture::{BrushMode, MaskDirtyLayers, MaskGesture, MaskTools};
use auraw::mask_interaction::{MaskInteraction, MaskRefresh, INTERACTIVE_MASK_INTERVAL_NANOS};
use std::collections::VecDeque;

fn component(kind: MaskKind, geometry: GeometrySummary) -> MaskComponentSummary {
    MaskComponentSummary { kind, geometry }
}

fn sample_stack() -> Vec<Vec<MaskComponentSummary>> {
    vec![
        vec![
            component(MaskKind::Subject, GeometrySummary::Ai),
            component(MaskKind::Brush, GeometrySummary::Other),
        ],
        vec![
            component(MaskKind::Object, GeometrySummary::Object { has_positive_stroke: true }),
            component(MaskKind::Object, GeometrySummary::Object { has_positive_stroke: false }),
            component(MaskKind::LuminanceRange, GeometrySummary::LuminanceRange { has_source: true }),
        ],
        vec![component(MaskKind::Landscape, GeometrySummary::Landscape)],
    ]
}

#[test]
fn ai_mask_result_target_survives_reordering_but_not_replacement() {
    let target = AiMaskTarget { mask_index: 0, component_index: 0, kind: MaskKind::Object };
    // The object was moved behind a newly added brush component.
    let reordered = vec![vec![
        ComponentMatch { kind: MaskKind::Brush, same_geometry: false },
        ComponentMatch { kind: MaskKind::Object, same_geometry: true },
    ]];
    assert_eq!(resolve_ai_mask_target_in_stack(&reordered, target), Ok((0, 1)));

    // The object was then replaced by a brush component.
    let replaced = vec![vec![
        ComponentMatch { kind: MaskKind::Brush, same_geometry: false },
        ComponentMatch { kind: MaskKind::Brush, same_geometry: false },
    ]];
    let error = resolve_ai_mask_target_in_stack(&replaced, target).unwrap_err();
    assert!(error.contains("changed type"));
}

#[test]
fn unresolvable_targets_say_what_happened() {
    let target = AiMaskTarget { mask_index: 1, component_index: 2, kind: MaskKind::Object };
    let stack = vec![vec![ComponentMatch { kind: MaskKind::Object, same_geometry: false }]];
    assert_eq!(
        resolve_ai_mask_target_in_stack(&stack, target),
        Err("The target mask was deleted before inference completed.".to_string())
    );
    let stack = vec![vec![], vec![ComponentMatch { kind: MaskKind::Object, same_geometry: false }]];
    assert_eq!(
        resolve_ai_mask_target_in_stack(&stack, target),
        Err("The target mask component was deleted before inference completed.".to_string())
    );
    let stack = vec![
        vec![],
        vec![
            ComponentMatch { kind: MaskKind::Brush, same_geometry: false },
            ComponentMatch { kind: MaskKind::Brush, same_geometry: false },
            ComponentMatch { kind: MaskKind::Object, same_geometry: false },
        ],
    ];
    assert_eq!(
        resolve_ai_mask_target_in_stack(&stack, target),
        Err("The target component changed before inference completed.".to_string())
    );
    let stack = vec![vec![
        ComponentMatch { kind: MaskKind::Object, same_geometry: true },
        ComponentMatch { kind: MaskKind::Object, same_geometry: true },
    ]];
    assert_eq!(
        resolve_ai_mask_target_in_stack(&stack, target),
        Err("The target component is ambiguous after editing; the stale result was discarded.".to_string())
    );
}

#[test]
fn mask_targets_are_found_in_stack_order() {
    let stack = sample_stack();
    assert!(needs_canonical_mask_source(&stack));
    assert!(has_range_mask_targets(&stack));
    assert_eq!(Vec::from(target_positions(&stack, TargetClass::Subject)), vec![(0, 0)]);
    assert_eq!(Vec::from(target_positions(&stack, TargetClass::Object)), vec![(1, 0)]);
    assert_eq!(Vec::from(target_positions(&stack, TargetClass::Landscape)), vec![(2, 0)]);
    let (subject, objects, landscapes) = generated_ai_mask_targets(&stack);
    assert!(subject);
    assert_eq!(objects.len(), 1);
    assert_eq!(landscapes.len(), 1);
    assert_eq!(ai_mask_refresh_target_count(&stack), 3);

    let plain = vec![vec![component(MaskKind::Brush, GeometrySummary::Other)]];
    assert!(!needs_canonical_mask_source(&plain));
    assert!(!has_range_mask_targets(&plain));
    assert_eq!(ai_mask_refresh_target_count(&plain), 0);
}

#[test]
fn range_masks_receive_the_canonical_source() {
    let mut stack = vec![vec![
        component(MaskKind::LuminanceRange, GeometrySummary::LuminanceRange { has_source: false }),
        component(MaskKind::ColorRange, GeometrySummary::ColorRange { has_source: false }),
        component(MaskKind::Brush, GeometrySummary::Other),
    ]];
    assert!(needs_canonical_mask_source(&stack));
    install_missing_range_sources(&mut stack);
    assert_eq!(stack[0][0].geometry, GeometrySummary::LuminanceRange { has_source: true });
    assert_eq!(stack[0][1].geometry, GeometrySummary::ColorRange { has_source: true });
    assert_eq!(stack[0][2].geometry, GeometrySummary::Other);
    assert!(!needs_canonical_mask_source(&stack));
}

#[test]
fn update_all_regenerates_targets_and_skips_stale_ones() {
    let stack = sample_stack();
    let mut update = AiMaskUpdate::new();
    assert_eq!(update.plan_update_all(true, &stack), UpdateAllPlan::Busy);
    let plan = update.plan_update_all(false, &stack);
    let UpdateAllPlan::Targets { subject, objects, landscapes, ranges } = plan else {
        panic!("expected targets");
    };
    assert!(subject && ranges);
    assert_eq!(update.start_update_all(subject, objects, landscapes), UpdateAllStart::Subject);
    assert!(update.is_active());
    assert_eq!(update.next_job(false, &stack), NextAiMaskJob::Idle);
    update.note_subject_finished(true);
    assert_eq!(update.next_job(true, &stack), NextAiMaskJob::Idle);
    assert_eq!(update.next_job(false, &stack), NextAiMaskJob::Object { mask_index: 1, component_index: 0 });
    update.note_object_finished(true);
    // The landscape component was removed meanwhile: the batch finishes.
    let edited = vec![stack[0].clone(), stack[1].clone()];
    assert_eq!(update.next_job(false, &edited), NextAiMaskJob::Finished { failed: false });
    assert!(!update.is_active());
    assert_eq!(update.finish(), None);
    assert!(!update.needs_update_visible(true));
}

#[test]
fn a_failed_item_keeps_the_update_offered() {
    let stack = sample_stack();
    let mut update = AiMaskUpdate::new();
    let mut objects = VecDeque::new();
    objects.push_back((1, 0));
    assert_eq!(update.start_update_all(false, objects, VecDeque::new()), UpdateAllStart::Continue);
    assert_eq!(update.next_job(false, &stack), NextAiMaskJob::Object { mask_index: 1, component_index: 0 });
    update.note_object_finished(false);
    assert_eq!(update.next_job(false, &stack), NextAiMaskJob::Finished { failed: true });
    assert_eq!(update.finish(), None);
    assert!(update.needs_update_visible(true));
    assert!(!update.needs_update_visible(false));
}

#[test]
fn finishing_a_running_batch_reports_its_failures() {
    let mut update = AiMaskUpdate::new();
    assert_eq!(update.start_update_all(true, VecDeque::new(), VecDeque::new()), UpdateAllStart::Subject);
    update.note_subject_finished(false);
    assert_eq!(update.finish(), Some(true));
    assert!(update.needs_update_visible(true));
}

#[test]
fn range_only_updates_complete_at_once() {
    let mut update = AiMaskUpdate::new();
    update.cancel();
    assert!(update.needs_update_visible(true));
    assert_eq!(update.start_update_all(false, VecDeque::new(), VecDeque::new()), UpdateAllStart::RangesRefreshed);
    assert!(!update.needs_update_visible(true));
    assert_eq!(update.plan_update_all(false, &Vec::new()), UpdateAllPlan::NoMasks);
}

#[test]
fn source_changes_offer_an_update_only_for_dependent_masks() {
    let mut update = AiMaskUpdate::new();
    update.note_source_changed(&sample_stack());
    assert!(update.needs_update_visible(true));
    update.note_source_changed(&vec![vec![component(MaskKind::Brush, GeometrySummary::Other)]]);
    assert!(!update.needs_update_visible(true));
}

#[test]
fn failed_inference_messages_name_the_selection() {
    assert_eq!(
        result_error_message(MaskJobKind::Object, &MaskJobResult::Failed("boom".to_string())),
        Some("Object selection failed: boom".to_string())
    );
    assert_eq!(result_error_message(MaskJobKind::Subject, &MaskJobResult::Applied), None);
    assert_eq!(
        result_error_message(MaskJobKind::Landscape, &MaskJobResult::Malformed),
        Some("Landscape selection returned malformed dimensions or pixel data.".to_string())
    );
    assert_eq!(
        result_error_message(MaskJobKind::Subject, &MaskJobResult::ChangedType),
        Some("The target component changed type before inference completed.".to_string())
    );
}

#[test]
fn stale_results_are_never_applied() {
    let failure = MaskJobResult::Failed("inference failed".to_string());
    let stale = subject_completion(false, false, false, true, &MaskJobResult::Applied);
    assert!(!stale.succeeded);
    let applied = subject_completion(false, false, false, false, &MaskJobResult::Applied);
    assert!(applied.succeeded);
    assert!(applied.finish_task);
    let failed = subject_completion(false, false, false, false, &failure);
    assert!(!failed.succeeded);
    assert!(failed.fail_task.is_some());
    let object = object_completion(false, false, false, false, false, None, &failure);
    assert!(!object.succeeded);
    let landscape = landscape_completion(false, false, false, true, &MaskJobResult::Applied);
    assert!(!landscape.succeeded);
}

#[test]
fn held_back_mask_edits_are_flushed() {
    let mut interaction: MaskInteraction<u64> = MaskInteraction::new(8);
    assert_eq!(interaction.note_geometry(2, 0, None), (None, Some(MaskRefresh::Layer(2))));
    assert_eq!(interaction.note_geometry(2, 10, Some(1_000_000)), (None, None));
    assert!(interaction.uncommitted);
    assert_eq!(
        interaction.note_geometry(2, 60, Some(INTERACTIVE_MASK_INTERVAL_NANOS)),
        (None, Some(MaskRefresh::Layer(2)))
    );
    assert_eq!(interaction.note_geometry(2, 61, Some(1)), (None, None));
    // Switching to the refinement flushes the held-back edit of layer 2.
    assert_eq!(
        interaction.note_refinement(62, Some(1)),
        (Some(MaskRefresh::Layer(2)), Some(MaskRefresh::AllLayers))
    );
    assert_eq!(interaction.note_refinement(63, Some(1)), (None, None));
    assert_eq!(interaction.finish(), Some(MaskRefresh::AllLayers));
    assert_eq!(interaction.finish(), None);
    interaction.note_geometry(1, 70, None);
    interaction.note_geometry(1, 71, Some(5));
    interaction.reset();
    assert_eq!(interaction.finish(), None);
}

#[test]
fn object_requests_are_admitted_in_order() {
    let object = Some(GeometrySummary::Object { has_positive_stroke: true });
    assert!(matches!(object_mask_request(false, object, true, true), ObjectRequest::Ignored));
    assert!(matches!(object_mask_request(true, None, true, true), ObjectRequest::Ignored));
    assert!(matches!(object_mask_request(true, Some(GeometrySummary::Landscape), true, true), ObjectRequest::Ignored));
    assert!(matches!(
        object_mask_request(true, Some(GeometrySummary::Object { has_positive_stroke: false }), true, true),
        ObjectRequest::Notice(text) if text == "Paint inside an object before generating its mask."
    ));
    assert!(matches!(
        object_mask_request(true, object, false, true),
        ObjectRequest::Error(text) if text.starts_with("The original image source is not ready")
    ));
    assert!(matches!(object_mask_request(true, object, true, true), ObjectRequest::Start));
    assert!(matches!(object_mask_request(true, object, true, false), ObjectRequest::AskConsent));
}

#[test]
fn running_object_jobs_make_new_ones_wait() {
    assert_eq!(object_worker_slot(false, true, true), ObjectWorkerSlot { cancel_existing: true, wait: true });
    assert_eq!(object_worker_slot(false, true, false), ObjectWorkerSlot { cancel_existing: true, wait: false });
    assert_eq!(object_worker_slot(false, false, true), ObjectWorkerSlot { cancel_existing: false, wait: false });
    assert_eq!(object_worker_slot(true, true, true), ObjectWorkerSlot { cancel_existing: false, wait: true });
    assert_eq!(object_worker_slot(true, false, false), ObjectWorkerSlot { cancel_existing: false, wait: false });
}

#[test]
fn model_jobs_are_scheduled_as_tasks() {
    assert!(matches!(mask_task_schedule(ModelJob::Subject, true, true), TaskSchedule::LibraryTask));
    match mask_task_schedule(ModelJob::Object, false, true) {
        TaskSchedule::Enqueue { title, progress } => {
            assert_eq!(title, "Downloading object-mask model");
            assert_eq!(progress, "Waiting for earlier background work…");
        }
        _ => panic!("a download is queued"),
    }
    match mask_task_schedule(ModelJob::Subject, false, false) {
        TaskSchedule::StartNow { title, progress } => {
            assert_eq!(title, "Generating subject mask");
            assert_eq!(progress, "Running local subject-mask inference…");
        }
        _ => panic!("inference starts at once"),
    }
}

#[test]
fn landscape_requests_need_a_landscape_component() {
    let landscape = Some((MaskKind::Landscape, GeometrySummary::Landscape));
    assert!(matches!(
        landscape_request_precheck(true, landscape, true),
        LandscapePrecheck::Notice(text) if text == "Finish or cancel the current editing operation first."
    ));
    assert!(matches!(
        landscape_request_precheck(false, Some((MaskKind::Brush, GeometrySummary::Other)), true),
        LandscapePrecheck::Notice(text) if text == "The selected landscape mask is no longer available."
    ));
    assert!(matches!(landscape_request_precheck(false, landscape, true), LandscapePrecheck::Proceed));
    assert!(matches!(landscape_request_precheck(false, landscape, false), LandscapePrecheck::Stop));
}

fn gesture_state(refinement_active: bool) -> MaskGesture<u32, String, Option<u64>, (i32, i32), u8, u64> {
    MaskGesture {
        components: vec![vec![10, 11], vec![20]],
        subject_refinement: "refined".to_owned(),
        subject_refinement_active: refinement_active,
        object_cache: Some(7),
        object_generation: u64::MAX,
        last_brush_point: Some((3, 4)),
        mask_drag: Some(1),
        interaction: MaskInteraction::new(2),
        dirty: MaskDirtyLayers::new(2),
        backup: None,
    }
}

#[test]
fn cancelled_touch_gesture_restores_the_geometry_and_marks_its_layer() {
    let mut state = gesture_state(false);
    state.begin_touch_gesture(0, 1);
    state.components[0][1] = 99;
    state.object_cache = None;
    assert_eq!(state.cancel_touch_gesture(), Some(MaskRefresh::Layer(0)));
    assert_eq!(state.components, vec![vec![10, 11], vec![20]]);
    assert_eq!(state.object_cache, Some(7));
    assert_eq!(state.object_generation, 0);
    assert_eq!(state.last_brush_point, None);
    assert_eq!(state.mask_drag, None);
    assert_eq!(state.dirty.main, vec![true, false]);
    assert_eq!(state.dirty.detail, vec![true, false]);
    assert_eq!(state.dirty.navigation, vec![true, false]);
    assert_eq!(state.dirty.overlay_revision, 1);
    assert!(state.backup.is_none());
}

#[test]
fn cancelled_refinement_gesture_marks_every_layer() {
    let mut state = gesture_state(true);
    state.begin_touch_gesture(1, 0);
    state.subject_refinement = "changed".to_owned();
    assert_eq!(state.cancel_touch_gesture(), Some(MaskRefresh::AllLayers));
    assert_eq!(state.subject_refinement, "refined");
    assert_eq!(state.dirty.main, vec![true, true]);
}

#[test]
fn touch_gesture_on_a_missing_component_keeps_no_backup() {
    let mut state = gesture_state(false);
    state.begin_touch_gesture(1, 1);
    assert!(state.backup.is_none());
    assert_eq!(state.cancel_touch_gesture(), None);
    assert_eq!(state.object_generation, u64::MAX);
    assert_eq!(state.last_brush_point, None);
    assert_eq!(state.dirty.overlay_revision, 0);
}

#[test]
fn second_touch_gesture_keeps_the_first_backup() {
    let mut state = gesture_state(false);
    state.begin_touch_gesture(0, 0);
    state.components[0][0] = 50;
    state.begin_touch_gesture(0, 0);
    state.components[0][0] = 60;
    assert_eq!(state.cancel_touch_gesture(), Some(MaskRefresh::Layer(0)));
    assert_eq!(state.components[0][0], 10);
}

#[test]
fn committed_touch_gesture_is_not_undone() {
    let mut state = gesture_state(false);
    state.begin_touch_gesture(0, 0);
    state.components[0][0] = 50;
    state.commit_touch_gesture();
    assert_eq!(state.cancel_touch_gesture(), None);
    assert_eq!(state.components[0][0], 50);
}

#[test]
fn mask_layer_marks_ignore_layers_past_the_end() {
    let mut dirty = MaskDirtyLayers::new(3);
    dirty.overlay_revision = u64::MAX;
    dirty.mark_layer(5);
    assert_eq!(dirty.main, vec![false, false, false]);
    assert_eq!(dirty.overlay_revision, 0);
    dirty.apply(MaskRefresh::Layer(2));
    assert_eq!(dirty.navigation, vec![false, false, true]);
    dirty.apply(MaskRefresh::AllLayers);
    assert_eq!(dirty.detail, vec![true, true, true]);
    assert_eq!(dirty.overlay_revision, 2);
}

#[test]
fn batch_notices_tell_success_from_failure() {
    assert_eq!(
        finish_notice(true),
        "Some AI masks could not be updated. The update button will remain available."
    );
    assert_eq!(finish_notice(false), "Masks were refreshed for the current image geometry.");
    assert_eq!(cancel_notice(), "AI-mask update canceled.");
}

#[test]
fn stopped_workers_fail_their_jobs_with_a_named_error() {
    let error = worker_stopped_message(MaskJobKind::Object);
    assert_eq!(error, "The object-mask worker stopped unexpectedly.");
    assert_eq!(
        result_error_message(MaskJobKind::Object, &MaskJobResult::Failed(error)),
        Some("Object selection failed: The object-mask worker stopped unexpectedly.".to_owned())
    );
    assert_eq!(
        worker_stopped_message(MaskJobKind::Landscape),
        "The landscape-mask worker stopped unexpectedly."
    );
    assert_eq!(
        worker_stopped_message(MaskJobKind::Subject),
        "The subject-mask worker stopped unexpectedly."
    );
}

#[test]
fn object_progress_names_the_work_left() {
    assert_eq!(object_inference_progress(true), "Updating the object mask…");
    assert_eq!(
        object_inference_progress(false),
        "Encoding the image and generating the object mask…"
    );
}

#[test]
fn refined_object_stroke_makes_its_pending_work_stale() {
    let mut jobs = ObjectJobs { generation: 4, pending_target: Some((1, 0)), cache_target: Some((1, 0)) };
    assert!(!jobs.restart_refined((1, 0), false));
    assert_eq!(jobs.generation, 4);
    assert!(jobs.restart_refined((1, 0), true));
    assert_eq!(jobs, ObjectJobs { generation: 5, pending_target: None, cache_target: None });

    let mut other = ObjectJobs { generation: u64::MAX, pending_target: Some((0, 2)), cache_target: Some((1, 1)) };
    assert!(other.restart_refined((1, 0), true));
    assert_eq!(other, ObjectJobs { generation: 0, pending_target: Some((0, 2)), cache_target: Some((1, 1)) });
}

#[test]
fn captured_target_records_the_component_kind() {
    let kinds = vec![vec![MaskKind::Brush, MaskKind::Object], vec![MaskKind::Subject]];
    assert_eq!(
        capture_ai_mask_target(&kinds, 0, 1),
        Some(AiMaskTarget { mask_index: 0, component_index: 1, kind: MaskKind::Object })
    );
    assert_eq!(capture_ai_mask_target(&kinds, 1, 1), None);
    assert_eq!(capture_ai_mask_target(&kinds, 2, 0), None);
}

#[test]
fn mask_tools_keep_refinement_only_for_subject_masks() {
    let mut tools = MaskTools {
        active_tool: None,
        subject_refinement_active: true,
        brush_mode: BrushMode::Erase,
    };
    tools.select(MaskKind::Background, true);
    assert_eq!(tools.active_tool, Some(MaskKind::Background));
    assert!(tools.subject_refinement_active);
    assert_eq!(tools.brush_mode, BrushMode::Erase);
    tools.select(MaskKind::Brush, true);
    assert!(!tools.subject_refinement_active);
    assert_eq!(tools.brush_mode, BrushMode::Erase);
    tools.activate(MaskKind::Object, true);
    assert_eq!(tools.brush_mode, BrushMode::Paint);
    tools.activate(MaskKind::Fullscreen, true);
    assert_eq!(tools.active_tool, None);
    tools.activate(MaskKind::Landscape, false);
    assert_eq!(tools.active_tool, None);
}

#[test]
fn remaining_targets_count_queued_and_running_jobs() {
    let mut update = AiMaskUpdate::new();
    assert_eq!(update.remaining_target_count(3, true, true), 0);
    let mut objects = VecDeque::new();
    objects.push_back((1, 0));
    objects.push_back((2, 0));
    let mut landscapes = VecDeque::new();
    landscapes.push_back((3, 0));
    assert_eq!(update.start_update_all(true, objects, landscapes), UpdateAllStart::Subject);
    assert_eq!(update.remaining_target_count(2, false, false), 2 + 2 + 1);
    update.note_subject_finished(true);
    assert_eq!(update.remaining_target_count(2, true, false), 2 + 1 + 1);
}

#[test]
fn failed_landscape_keeps_the_update_offered() {
    let mut update = AiMaskUpdate::new();
    let mut landscapes = VecDeque::new();
    landscapes.push_back((0, 0));
    assert_eq!(update.start_update_all(false, VecDeque::new(), landscapes), UpdateAllStart::Continue);
    update.note_landscape_finished(false);
    update.note_landscape_finished(true);
    assert_eq!(update.finish(), Some(true));
    assert!(update.needs_update_visible(true));
}

#[test]
fn landscape_worker_starts_only_with_its_inputs() {
    assert_eq!(landscape_worker_start(true, true, false, false, true), LandscapeStart::Ignored);
    assert_eq!(
        landscape_worker_start(false, false, false, false, true),
        LandscapeStart::Notice("The preview could not be prepared for landscape selection.".to_owned())
    );
    assert_eq!(landscape_worker_start(false, true, true, false, true), LandscapeStart::AskConsent);
    assert_eq!(
        landscape_worker_start(false, true, false, false, false),
        LandscapeStart::Notice("The selected landscape mask is no longer available.".to_owned())
    );
    assert_eq!(
        landscape_worker_start(false, true, true, true, true),
        LandscapeStart::Start { progress: "Preparing landscape-mask models…".to_owned() }
    );
    assert_eq!(
        landscape_worker_start(false, true, false, false, true),
        LandscapeStart::Start { progress: "Running local landscape-mask inference…".to_owned() }
    );
    assert_eq!(
        subject_source_missing_notice(),
        "The preview could not be prepared for subject selection."
    );
}

#[test]
fn only_ended_tasks_leave_stale_owners() {
    assert!(task_owner_is_stale(false, Some(TaskSnapshot::Missing)));
    assert!(task_owner_is_stale(false, Some(TaskSnapshot::Failed)));
    assert!(!task_owner_is_stale(false, Some(TaskSnapshot::Other)));
    assert!(!task_owner_is_stale(true, Some(TaskSnapshot::Failed)));
    assert!(!task_owner_is_stale(false, None));
}

#[test]
fn any_outstanding_mask_job_keeps_tools_busy() {
    let idle = JobActivity { task: false, receiver: false, consent_open: false };
    assert!(!ai_masks_busy(false, idle, idle, idle));
    assert!(ai_masks_busy(true, idle, idle, idle));
    let dialog = JobActivity { consent_open: true, ..idle };
    assert!(ai_masks_busy(false, idle, idle, dialog));
    let worker = JobActivity { receiver: true, ..idle };
    assert!(ai_masks_busy(false, idle, worker, idle));
}

#[test]
fn object_worker_start_needs_the_source_and_the_component() {
    let kinds = vec![vec![MaskKind::Brush, MaskKind::Object]];
    let object = Some(GeometrySummary::Object { has_positive_stroke: true });

    match object_worker_start(false, object, &kinds, 0, 1, 7) {
        (ObjectWorkerStart::SourceUnavailable(text), 7) => {
            assert_eq!(text, "The original image source is unavailable for object selection.")
        },
        _ => panic!("a missing source is reported"),
    }
    assert!(matches!(
        object_worker_start(true, Some(GeometrySummary::Other), &kinds, 0, 0, 7),
        (ObjectWorkerStart::Ignored, 7)
    ));
    assert!(matches!(object_worker_start(true, None, &kinds, 0, 1, 7), (ObjectWorkerStart::Ignored, 7)));
    match object_worker_start(true, object, &kinds, 0, 1, 7) {
        (ObjectWorkerStart::Start(target), 8) => assert_eq!(
            target,
            AiMaskTarget { mask_index: 0, component_index: 1, kind: MaskKind::Object }
        ),
        _ => panic!("the job starts with the next generation"),
    }
    match object_worker_start(true, object, &kinds, 0, 2, u64::MAX) {
        (ObjectWorkerStart::TargetLost(text), 0) => {
            assert_eq!(text, "The selected object mask is no longer available.")
        },
        _ => panic!("a lost target is reported after taking a generation"),
    }
}
