use auraw::display_profile::{DisplayInstall, InstallFollowUp};
use auraw::display_profile::{
    display_update_failed_notice, icc_failure_target, probe_due, probe_target, screen_point_changed, DisplayColorSettings,
    DisplayProfileRecord, DisplayTarget, ProbeSource, ProfileProbe,
};
use auraw::documents::{
    append_notice, raw_cache_key_for_source, startup_camera_profile_folder, CameraProfileFolder, RawSource,
};
use auraw::documents::{
    android_open_request, offline_open_notice, reset_reload_failure, reset_reload_request, AndroidOpen,
};
use auraw::documents::{
    check_open_request, load_failure_notice, loaded_status, loading_status, sidecar_warning,
    LoadFailure, SidecarLoad,
};
use auraw::preview_quality::PreviewQuality;
use auraw::inpaint::{
    check_remove_request, processing_label_text, InpaintState, RemoveOutcome, RemoveStart,
};
use auraw::lens::selection_list_from_keys;
use auraw::lens::{text_eq_ignore_ascii_case, LensCorrectionState, LensfunCatalog, LensfunLens, SavedLensSelection};
use auraw::lens::{correction_failed_notice, correction_status, saved_correction_unavailable_notice};
use auraw::library_export::AndroidLibraryExportTarget;
use auraw::platform::Platform;
use auraw::library_refresh::{
    check_refresh_start, refresh_task_title_text, LibraryAiMaskRefreshState, LoadFinishedAction, NextRefresh,
    RefreshImage, RefreshPhase, RefreshPollAction,
};
use auraw::onnx_runtime::{
    check_runtime_candidate, parse_runtime_selection, runtime_config_payload, runtime_notice,
    selection_notice, split_lines, vetting_error, RuntimeOs, RuntimeReadiness, RuntimeVetting,
};
use auraw::pickers::{
    batch_import_report, camera_profile_import_notice_text, cancelled_picker_route, failed_picker_route,
    open_setup_failure_route, picked_document_route, selected_picker_directory, PickerFailureRoute,
};
use auraw::pickers::{camera_profile_import_failure, camera_profile_import_status};
use auraw::pickers::{
    android_picker_request, drop_overlay_message, picker_filter_extensions, picker_status_text, PickerPurpose,
    PickerRequest,
};
use auraw::ui_state::AppTab;
use std::collections::VecDeque;
use auraw::camera_profiles::{decode_cache_key_text, decode_cache_usable, ProfileSelection};
use auraw::camera_profiles::{
    request_camera_profile, saved_profile_unusable, selected_camera_profile, SidecarProfile,
    };
use auraw::adjustment_paste::{plan_adjustment_paste, AdjustmentCopySettings};
use auraw::adjustment_paste::paste_order;
use auraw::adjustment_paste::{
    asset_failure_text, check_paste_destination, needs_profile_reload, paste_preflight_error,
    profile_reload_error, EditCount, PasteTally,
};

fn lens(maker: &str, model: &str) -> LensfunLens {
    LensfunLens { maker: maker.to_string(), model: model.to_string() }
}

fn catalog() -> LensfunCatalog {
    LensfunCatalog {
        available: true,
        auto_match: Some(lens("Canon", "EF 50mm")),
        lenses: vec![
            lens("sigma", "Art 35mm"),
            lens("Canon", "EF 50mm"),
            lens("SIGMA", "art 35mm"),
            lens("Canon", "EF 24mm"),
            lens("canon", "ef 24MM"),
            lens("Nikon", "AF-S 85mm"),
        ],
        status: String::new(),
    }
}

#[test]
fn lens_state_selects_the_automatic_match() {
    let state = LensCorrectionState::from_catalog(catalog());
    assert!(state.enabled);
    assert!(!state.applied);
    assert_eq!(state.selected_maker, "Canon");
    assert_eq!(state.selected_model, "EF 50mm");
    let selected = state.selected_lens().expect("a model is selected");
    assert_eq!(selected.maker, "Canon");
    assert_eq!(selected.model, "EF 50mm");

    let mut unmatched = catalog();
    unmatched.auto_match = None;
    let state = LensCorrectionState::from_catalog(unmatched);
    assert!(!state.enabled);
    assert_eq!(state.selected_model, "");
    assert!(state.selected_lens().is_none());
}

#[test]
fn blank_models_select_no_lens() {
    let mut state = LensCorrectionState::from_catalog(catalog());
    state.selected_model = "  \t".to_string();
    assert!(state.selected_lens().is_none());
    assert!(state.lens_to_apply().is_none());
    assert!(!state.enabled);
}

#[test]
fn makers_are_sorted_without_case_and_listed_once() {
    let state = LensCorrectionState::from_catalog(catalog());
    assert_eq!(state.makers(), vec!["Canon", "Nikon", "sigma"]);
    assert_eq!(state.models_for_maker("CANON"), vec!["EF 24mm", "EF 50mm"]);
    assert_eq!(state.models_for_maker("sigma"), vec!["Art 35mm"]);
    assert!(state.models_for_maker("Leica").is_empty());
}

#[test]
fn ascii_case_is_ignored_but_other_letters_are_not() {
    assert!(text_eq_ignore_ascii_case("SiGmA", "sigma"));
    assert!(!text_eq_ignore_ascii_case("sigma", "sigm"));
    assert!(!text_eq_ignore_ascii_case("É", "é"));
}

#[test]
fn saved_lens_choices_are_restored_and_applied() {
    let mut state = LensCorrectionState::from_catalog(catalog());
    let unavailable = state.restore_saved(SavedLensSelection {
        enabled: true,
        maker: "Nikon".to_string(),
        model: "AF-S 85mm".to_string(),
    });
    assert!(!unavailable);
    let chosen = state.lens_to_apply().expect("correction is enabled");
    assert_eq!(chosen.model, "AF-S 85mm");
    assert!(!state.record_correction(true));
    assert!(state.applied && state.enabled);
    assert!(state.record_correction(false));
    assert!(!state.applied && !state.enabled);

    let mut offline = catalog();
    offline.available = false;
    let mut state = LensCorrectionState::from_catalog(offline);
    assert!(state.restore_saved(SavedLensSelection {
        enabled: true,
        maker: "Canon".to_string(),
        model: "EF 50mm".to_string(),
    }));
    assert!(!state.enabled);
    assert!(state.lens_to_apply().is_none());
}

fn images(names: &[&str]) -> VecDeque<RefreshImage> {
    names
        .iter()
        .map(|name| RefreshImage { source: format!("/photos/{name}"), display_name: name.to_string() })
        .collect()
}

#[test]
fn library_refresh_walks_every_image() {
    let mut state = LibraryAiMaskRefreshState::new(images(&["a.raf", "b.raf"]));
    assert_eq!(state.total, 2);
    let NextRefresh::Open { source, display_name } = state.start_next() else {
        panic!("the first image opens");
    };
    assert_eq!(source, "/photos/a.raf");
    assert_eq!(display_name, "a.raf");
    assert!(matches!(state.start_next(), NextRefresh::Busy));
    assert_eq!(state.poll(false, false, None, false, false), RefreshPollAction::Wait);
    assert_eq!(state.load_finished(true, 3), LoadFinishedAction::UpdateAiMasks);
    assert_eq!(state.mask_total, 3);
    assert_eq!(state.phase, RefreshPhase::Updating);
    assert_eq!(state.status(true, true, 2), (1, 3, 0, Some("a.raf".to_string())));
    assert_eq!(state.poll(true, true, None, false, false), RefreshPollAction::Wait);
    assert_eq!(state.poll(false, false, None, false, false), RefreshPollAction::SaveEdits);
    assert_eq!(state.poll(false, false, None, true, false), RefreshPollAction::Wait);
    assert_eq!(state.poll(false, false, None, false, false), RefreshPollAction::StartNext);
    assert_eq!(state.completed, 1);
    assert_eq!(state.mask_completed, 3);

    assert!(matches!(state.start_next(), NextRefresh::Open { .. }));
    assert_eq!(state.load_finished(false, 0), LoadFinishedAction::StartNext);
    assert_eq!(state.failures, vec!["/photos/b.raf: RAW load failed".to_string()]);
    assert!(matches!(state.start_next(), NextRefresh::Finished));
    let (summary, failure) = state.summary(false);
    assert_eq!(summary, "Regenerated AI masks for 1 of 2 images. /photos/b.raf: RAW load failed");
    assert_eq!(failure, Some("1 AI-mask refresh item(s) failed: /photos/b.raf: RAW load failed".to_string()));
}

#[test]
fn library_refresh_reports_stale_masks_and_save_failures() {
    let mut state = LibraryAiMaskRefreshState::new(images(&["a.raf", "b.raf", "c.raf"]));
    state.start_next();
    state.load_finished(true, 1);
    assert_eq!(state.poll(false, true, Some("model missing"), false, false), RefreshPollAction::StartNext);
    state.start_next();
    state.load_finished(true, 2);
    assert_eq!(state.poll(false, false, None, false, false), RefreshPollAction::SaveEdits);
    assert_eq!(state.poll(false, false, None, false, true), RefreshPollAction::StartNext);
    state.start_next();
    state.open_failed_to_start();
    assert_eq!(
        state.failures,
        vec![
            "/photos/a.raf: model missing".to_string(),
            "/photos/b.raf: could not save regenerated AI masks".to_string(),
            "/photos/c.raf: could not start RAW load".to_string(),
        ]
    );
    assert_eq!(state.completed, 3);
    assert!(matches!(state.start_next(), NextRefresh::Finished));
    let (summary, _) = state.summary(false);
    assert!(summary.starts_with("Regenerated AI masks for 0 of 3 images. /photos/a.raf: model missing · "));
}

#[test]
fn a_cancelled_refresh_opens_no_further_image() {
    let mut state = LibraryAiMaskRefreshState::new(images(&["a.raf", "b.raf"]));
    state.start_next();
    state.request_cancel();
    assert_eq!(state.load_finished(true, 4), LoadFinishedAction::StartNext);
    assert!(state.current.is_none());
    assert!(matches!(state.start_next(), NextRefresh::Finished));
    assert!(state.pending.is_empty());
    assert_eq!(state.poll(false, false, None, false, false), RefreshPollAction::Finish);
    let (summary, failure) = state.summary(true);
    assert_eq!(summary, "AI-mask refresh cancelled after 0/2 images.");
    assert_eq!(failure, None);
}

#[test]
fn successful_refresh_summaries_count_images() {
    let mut state = LibraryAiMaskRefreshState::new(images(&["a.raf"]));
    state.start_next();
    state.load_finished(true, 0);
    state.poll(false, false, None, false, false);
    state.poll(false, false, None, false, false);
    state.start_next();
    assert_eq!(state.summary(false), ("Regenerated AI masks for 1 image.".to_string(), None));
    assert_eq!(refresh_task_title_text(1), "Refreshing AI masks for 1 image");
    assert_eq!(refresh_task_title_text(12), "Refreshing AI masks for 12 images");
    let mut android = LibraryAiMaskRefreshState::new(images(&["x.dng"]));
    android.start_next();
    android.open_failed("permission denied");
    assert_eq!(android.failures, vec!["/photos/x.dng: permission denied".to_string()]);
}

const SHA: &str = "0123456789abcdef0123456789abcdef0123456789abcdef0123456789abcdef";

#[test]
fn runtime_selection_round_trips_through_its_file() {
    let payload = runtime_config_payload("/opt/onnx/libonnxruntime.so", SHA).unwrap();
    assert_eq!(payload, format!("sha256={SHA}\npath=/opt/onnx/libonnxruntime.so\n"));
    assert_eq!(
        parse_runtime_selection(&payload),
        Some(("/opt/onnx/libonnxruntime.so".to_string(), SHA.to_string()))
    );
    assert_eq!(
        runtime_config_payload("/tmp/a\nb", SHA),
        Err("the ONNX Runtime path contains a line break".to_string())
    );
    assert_eq!(
        runtime_config_payload("C:\\r\r", SHA),
        Err("the ONNX Runtime path contains a line break".to_string())
    );
}

#[test]
fn malformed_runtime_selections_are_ignored() {
    assert_eq!(parse_runtime_selection(""), None);
    assert_eq!(parse_runtime_selection(&format!("sha256={SHA}\n")), None);
    assert_eq!(parse_runtime_selection(&format!("sha256={SHA}\npath=/a\nextra\n")), None);
    assert_eq!(parse_runtime_selection(&format!("path=/a\nsha256={SHA}\n")), None);
    assert_eq!(parse_runtime_selection(&format!("sha256={}\npath=/a\n", SHA.to_uppercase())), None);
    assert_eq!(parse_runtime_selection("sha256=abc\npath=/a\n"), None);
    assert_eq!(
        parse_runtime_selection(&format!("sha256={SHA}\r\npath=/a b\r\n")),
        Some(("/a b".to_string(), SHA.to_string()))
    );
    assert_eq!(
        parse_runtime_selection(&format!("sha256={SHA}\npath=/a")),
        Some(("/a".to_string(), SHA.to_string()))
    );
}

#[test]
fn text_splits_into_lines_like_str_lines() {
    for text in ["", "a", "a\n", "a\r\nb", "\n\n", "a\rb\r", "x\r\n\r\ny"] {
        let expected: Vec<String> = text.lines().map(str::to_string).collect();
        assert_eq!(split_lines(text), expected, "{text:?}");
    }
}

#[test]
fn runtime_libraries_are_recognised_by_name() {
    assert_eq!(check_runtime_candidate("/x/onnxruntime.dll", true, "ONNXRuntime.DLL", RuntimeOs::Windows), Ok(()));
    assert_eq!(
        check_runtime_candidate("/x/libonnxruntime.1.20.dylib", true, "libonnxruntime.1.20.dylib", RuntimeOs::MacOs),
        Ok(())
    );
    assert_eq!(check_runtime_candidate("/x/libonnxruntime.so.1", true, "libonnxruntime.so.1", RuntimeOs::Other), Ok(()));
    assert_eq!(check_runtime_candidate("/x/libonnxruntime.so", true, "libonnxruntime.so", RuntimeOs::Other), Ok(()));
    assert_eq!(
        check_runtime_candidate("/x/onnx.so", true, "onnx.so", RuntimeOs::Other),
        Err("Select the ONNX Runtime shared library (onnxruntime.dll, libonnxruntime.so, or libonnxruntime.dylib).".to_string())
    );
    assert_eq!(
        check_runtime_candidate("/x/missing", false, "missing", RuntimeOs::Other),
        Err("/x/missing is not a file.".to_string())
    );
    assert!(check_runtime_candidate("/x/libonnxruntime.so", true, "libonnxruntime.so", RuntimeOs::Windows).is_err());
}

#[test]
fn pickers_open_next_to_the_current_file() {
    assert_eq!(selected_picker_directory("/photos/a.raf", false), Some("/photos".to_string()));
    assert_eq!(selected_picker_directory("/photos", true), Some("/photos".to_string()));
    assert_eq!(selected_picker_directory("a.raf", false), None);
    assert_eq!(selected_picker_directory("/", false), None);
    assert_eq!(selected_picker_directory("", false), None);
}

#[test]
fn picked_documents_go_to_their_owner() {
    let batch = picked_document_route(true, false, false, true, AppTab::Develop);
    assert!(batch.batch_owned && !batch.refresh_owned);
    assert_eq!(batch.tab, AppTab::Library);
    let refresh = picked_document_route(false, false, false, true, AppTab::Develop);
    assert!(refresh.refresh_owned);
    assert_eq!(refresh.tab, AppTab::Library);
    let reload = picked_document_route(false, true, false, true, AppTab::Library);
    assert!(!reload.refresh_owned);
    assert_eq!(reload.tab, AppTab::Library);
    let reload_from_develop = picked_document_route(false, true, false, false, AppTab::Develop);
    assert_eq!(reload_from_develop.tab, AppTab::Develop);
    let user = picked_document_route(false, false, false, false, AppTab::Library);
    assert_eq!(user.tab, AppTab::Develop);

    match open_setup_failure_route(batch, None) {
        PickerFailureRoute::BatchExportItem(reason) => {
            assert_eq!(reason, "The RAW decode worker could not be started.")
        }
        _ => panic!("the batch export owns the failure"),
    }
    match open_setup_failure_route(refresh, Some("decoder busy")) {
        PickerFailureRoute::LibraryRefreshItem(reason) => assert_eq!(reason, "decoder busy"),
        _ => panic!("the refresh owns the failure"),
    }
    assert!(matches!(open_setup_failure_route(user, None), PickerFailureRoute::Nothing));
}

#[test]
fn cancelled_and_failed_pickers_are_reported_to_their_owner() {
    assert!(matches!(cancelled_picker_route(true, true, true), PickerFailureRoute::BatchExportItem(r) if r == "RAW open was canceled"));
    assert!(matches!(cancelled_picker_route(false, true, true), PickerFailureRoute::LibraryRefreshItem(r) if r == "RAW open was canceled"));
    assert!(matches!(cancelled_picker_route(false, false, true), PickerFailureRoute::Notice(r) if r.starts_with("The RAW could not be reloaded")));
    assert!(matches!(cancelled_picker_route(false, false, false), PickerFailureRoute::Notice(r) if r == "No RAW files selected."));

    assert!(matches!(failed_picker_route("io", true, true, false, false), PickerFailureRoute::BatchExportItem(r) if r == "io"));
    assert!(matches!(failed_picker_route("io", false, true, false, false), PickerFailureRoute::LibraryRefreshItem(r) if r == "io"));
    assert!(matches!(failed_picker_route("io", true, true, true, false), PickerFailureRoute::Notice(r) if r == "Could not reload RAW for camera profile: io"));
    assert!(matches!(failed_picker_route("io", true, false, false, true), PickerFailureRoute::Notice(r) if r == "Could not reload RAW after resetting adjustments: io"));
    assert!(matches!(failed_picker_route("io", false, false, false, false), PickerFailureRoute::Notice(r) if r == "Could not import the selected file: io"));
}

#[test]
fn batch_imports_are_summarised() {
    assert_eq!(batch_import_report(0, 0, ""), ("No RAW files were imported.".to_string(), None));
    assert_eq!(batch_import_report(1, 0, ""), ("Imported 1 RAW file.".to_string(), None));
    assert_eq!(
        batch_import_report(3, 2, ""),
        ("Imported 3 RAW files; 2 failed.".to_string(), Some("2 selected RAW imports failed.".to_string()))
    );
    assert_eq!(
        batch_import_report(0, 1, "a.raf: unreadable"),
        (
            "Imported 0 RAW files; 1 failed.".to_string(),
            Some("Some RAW files could not be imported:\na.raf: unreadable".to_string())
        )
    );
    assert_eq!(
        camera_profile_import_notice_text("Profiles", 1),
        "Camera profile folder 'Profiles' imported with 1 DCP profile. Reopen the RAW to apply the new profile selection."
    );
    assert_eq!(
        camera_profile_import_notice_text("Adobe", 12),
        "Camera profile folder 'Adobe' imported with 12 DCP profiles. Reopen the RAW to apply the new profile selection."
    );
}

#[test]
fn notices_accumulate_while_a_document_opens() {
    let mut notice = None;
    append_notice(&mut notice, "First.");
    assert_eq!(notice.as_deref(), Some("First."));
    append_notice(&mut notice, "Second.");
    assert_eq!(notice.as_deref(), Some("First. Second."));
}

#[test]
fn decoded_raws_are_keyed_by_identity() {
    let desktop = RawSource::Desktop { path: "/p/a.raf".to_string(), bytes: 1024, modified_nanos: 1_700_000_000_123_456_789 };
    assert_eq!(raw_cache_key_for_source(&desktop), "desktop:/p/a.raf:1024:1700000000123456789");
    let android = RawSource::Android { uri: "content://x/1".to_string() };
    assert_eq!(raw_cache_key_for_source(&android), "android:content://x/1");
}

#[test]
fn the_camera_profile_folder_is_detected_when_missing() {
    let saved = CameraProfileFolder { folder: Some("/profiles".to_string()), label: Some("Mine".to_string()) };
    let kept = startup_camera_profile_folder(true, CameraProfileFolder { folder: saved.folder.clone(), label: saved.label.clone() }, true, Some("/acr".to_string()));
    assert_eq!(kept.folder.as_deref(), Some("/profiles"));
    assert_eq!(kept.label.as_deref(), Some("Mine"));
    let detected = startup_camera_profile_folder(true, CameraProfileFolder { folder: saved.folder.clone(), label: saved.label.clone() }, false, Some("/acr".to_string()));
    assert_eq!(detected.folder.as_deref(), Some("/acr"));
    assert_eq!(detected.label.as_deref(), Some("Adobe Camera Raw (auto-detected)"));
    let none = startup_camera_profile_folder(true, CameraProfileFolder { folder: None, label: Some("Old".to_string()) }, false, None);
    assert!(none.folder.is_none() && none.label.is_none());
    let manual = startup_camera_profile_folder(false, CameraProfileFolder { folder: None, label: None }, false, Some("/acr".to_string()));
    assert!(manual.folder.is_none());
}

#[test]
fn remove_strokes_follow_the_worker() {
    let mut state: InpaintState<u32, &str, (u8, u8), u8, u16> = InpaintState::new();
    assert!(!state.processing());
    assert_eq!(state.brush_finished("stroke", true, true), RemoveStart::Ignored);
    assert_eq!(state.brush_finished("stroke", false, false), RemoveStart::AskConsent);
    assert!(state.processing());
    assert_eq!(state.brush_finished("other", false, true), RemoveStart::Ignored);
    assert_eq!(state.consent_given(), Some("stroke"));
    state.worker_started("stroke", 1, 99);
    assert!(state.processing());
    assert_eq!(state.processing_label.as_deref(), Some("Preparing local context…"));
    state.worker_progress(2, 5);
    assert_eq!(state.processing_label.as_deref(), Some("Applying Big-LaMa… 2/5 local crops"));
    assert_eq!(state.worker_finished(RemoveOutcome::Applied(7)), (Some("Remove applied.".to_string()), true));
    assert_eq!(state.strokes, vec![7]);
    assert!(!state.processing());

    state.worker_started("again", 2, 100);
    assert_eq!(
        state.worker_finished(RemoveOutcome::Failed("please consent to its download again".to_string())),
        (Some("Big-LaMa needs to be installed or re-verified before Remove can continue.".to_string()), false)
    );
    assert!(state.model_consent_open);
    assert_eq!(state.pending_brush, Some("again"));
    state.consent_declined();
    assert!(!state.processing());

    state.worker_started("third", 3, 101);
    assert_eq!(state.worker_finished(RemoveOutcome::Failed("job cancelled".to_string())), (None, false));
    state.worker_started("fourth", 4, 102);
    assert_eq!(
        state.worker_finished(RemoveOutcome::Failed("no GPU".to_string())),
        (Some("Remove failed: no GPU".to_string()), false)
    );
    state.worker_started("fifth", 5, 103);
    assert_eq!(state.delete_stroke(3), (Some(103), false));
    assert_eq!(state.delete_stroke(0), (None, true));
    assert!(state.strokes.is_empty());
    assert_eq!(state.clear_strokes(), (None, false));
    assert_eq!(state.install_strokes(vec![1, 2]), None);
    state.worker_started("sixth", 6, 104);
    assert_eq!(state.reset_for_document(), Some(104));
    assert!(state.strokes.is_empty());
    assert_eq!(processing_label_text(0, 1), "Applying Big-LaMa…");
}

#[test]
fn display_profiles_are_probed_when_due() {
    assert!(probe_due(None, false));
    assert!(!probe_due(Some(999), true));
    assert!(probe_due(Some(1_000), true));
    assert!(!probe_due(Some(9_999), false));
    assert!(probe_due(Some(10_000), false));
    assert!(screen_point_changed(Some((1, 2)), None));
    assert!(!screen_point_changed(Some((1, 2)), Some((1, 2))));
    assert!(screen_point_changed(Some((1, 2)), Some((1, 3))));
    assert!(!screen_point_changed(None, None));
}

#[test]
fn display_profile_changes_are_installed_once() {
    let mut settings: DisplayColorSettings<u64> = DisplayColorSettings {
        color_management: true,
        profile_override: None,
        last_probe: None,
        last_screen_point: None,
        record: DisplayProfileRecord { label: "sRGB fallback".to_string(), source: None, fingerprint: None },
    };
    assert!(settings.begin_probe(5, None, Some((10, 10))));
    assert!(matches!(settings.probe_source(), ProbeSource::Discover));
    let target = probe_target(
        &ProfileProbe::Found { label: "Studio".to_string(), source: "EDID".to_string(), fingerprint: 77 },
        true,
    );
    assert!(!settings.target_is_current(&target));
    settings.installed(target);
    let again = probe_target(
        &ProfileProbe::Found { label: "Studio".to_string(), source: "EDID".to_string(), fingerprint: 77 },
        true,
    );
    assert!(settings.target_is_current(&again));
    assert!(!settings.begin_probe(6, Some(500), Some((20, 20))));
    assert!(!settings.begin_probe(6, Some(5_000), Some((10, 10))));
    assert!(settings.begin_probe(6, Some(5_000), Some((20, 20))));
    assert_eq!(settings.last_probe, Some(6));

    let absent = probe_target(&ProfileProbe::Absent, false);
    assert_eq!(absent.label, "sRGB (color management disabled)");
    assert_eq!(absent.fingerprint, 0);
    let failed = probe_target(&ProfileProbe::Failed { error: "no display".to_string() }, true);
    assert_eq!(failed.label, "sRGB fallback");
    assert_eq!(failed.source.as_deref(), Some("Profile discovery error: no display"));
    let broken: DisplayTarget = icc_failure_target("bad tag");
    assert_eq!(broken.source.as_deref(), Some("ICC error: bad tag"));

    assert!(settings.set_color_management(false));
    assert!(settings.last_probe.is_none());
    assert!(matches!(settings.probe_source(), ProbeSource::Disabled));
    assert!(!settings.set_color_management(false));
    settings.set_color_management(true);
    settings.apply_override("/icc/screen.icc".to_string());
    assert!(matches!(settings.probe_source(), ProbeSource::Override(path) if path == "/icc/screen.icc"));
    assert!(settings.clear_override());
    assert!(!settings.clear_override());
}

#[test]
fn android_exports_are_named_by_their_document() {
    let local = AndroidLibraryExportTarget::Local { uri: "content://a".to_string(), display_name: "a.jpg".to_string() };
    let cloud = AndroidLibraryExportTarget::Cloud { path: "/cache/b.jpg".to_string(), display_name: "b.jpg".to_string() };
    assert_eq!(local.display_name(), "a.jpg");
    assert_eq!(cloud.display_name(), "b.jpg");
}

#[test]
fn decodes_are_cached_under_their_profile_choice() {
    assert_eq!(
        decode_cache_key_text("desktop:/a.raf:1:2", "dcp", Some("/profiles"), &ProfileSelection::FromSidecar),
        "desktop:/a.raf:1:2|profile:dcp|folder:/profiles|selection:sidecar"
    );
    assert_eq!(
        decode_cache_key_text("android:x", "matrix", None, &ProfileSelection::Automatic),
        "android:x|profile:matrix|folder:|selection:automatic"
    );
    assert_eq!(
        decode_cache_key_text("k", "dcp", Some("/p"), &ProfileSelection::Explicit("/p/a.dcp".to_string())),
        "k|profile:dcp|folder:/p|selection:/p/a.dcp"
    );
    assert!(!decode_cache_usable(&ProfileSelection::FromSidecar, false, true));
    assert!(decode_cache_usable(&ProfileSelection::FromSidecar, true, true));
    assert!(decode_cache_usable(&ProfileSelection::FromSidecar, false, false));
    assert!(decode_cache_usable(&ProfileSelection::Automatic, false, true));
}

#[test]
fn the_requested_camera_profile_follows_the_saved_edits() {
    let saved = request_camera_profile(
        ProfileSelection::FromSidecar,
        SidecarProfile::Saved(Some("canon/5d.dcp".to_string())),
        Some("/profiles"),
        Some("nikon/z6.dcp"),
    );
    assert_eq!(saved.profile.as_deref(), Some("/profiles/canon/5d.dcp"));
    assert!(saved.from_sidecar && !saved.embedded_matrix);
    assert_eq!(
        selected_camera_profile(&saved, Some("/profiles"), Some("/profiles/canon/5d.dcp")).as_deref(),
        Some("/profiles/canon/5d.dcp")
    );
    let unmatched = selected_camera_profile(&saved, Some("/profiles"), Some("/profiles/other.dcp"));
    assert_eq!(unmatched, None);
    assert_eq!(
        saved_profile_unusable(&saved, &unmatched).as_deref(),
        Some("The saved camera profile was not found or did not match this camera; automatic profile selection was used instead.")
    );

    let matrix = request_camera_profile(
        ProfileSelection::FromSidecar,
        SidecarProfile::Saved(Some(".".to_string())),
        Some("/profiles"),
        None,
    );
    assert_eq!(matrix.profile.as_deref(), Some("/profiles"));
    assert!(matrix.embedded_matrix);
    assert_eq!(selected_camera_profile(&matrix, Some("/profiles"), None).as_deref(), Some("/profiles"));

    let fresh = request_camera_profile(ProfileSelection::FromSidecar, SidecarProfile::Absent, Some("/profiles"), Some("nikon/z6.dcp"));
    assert_eq!(fresh.profile.as_deref(), Some("/profiles/nikon/z6.dcp"));
    assert!(!fresh.from_sidecar);
    assert_eq!(saved_profile_unusable(&fresh, &None), None);

    let unreadable = request_camera_profile(ProfileSelection::FromSidecar, SidecarProfile::Unreadable, Some("/p"), Some("x"));
    assert!(unreadable.profile.is_none());
    let chosen = request_camera_profile(
        ProfileSelection::Explicit("/elsewhere/a.dcp".to_string()),
        SidecarProfile::Saved(Some("b.dcp".to_string())),
        Some("/p"),
        None,
    );
    assert_eq!(chosen.profile.as_deref(), Some("/elsewhere/a.dcp"));
    assert!(!chosen.from_sidecar);
    let automatic = request_camera_profile(ProfileSelection::Automatic, SidecarProfile::Absent, Some("/p"), Some("x"));
    assert!(automatic.profile.is_none() && !automatic.embedded_matrix);
}

#[test]
fn pastes_apply_the_chosen_categories() {
    let only_masks = AdjustmentCopySettings {
        adjustments: false,
        geometry: false,
        camera_profile: false,
        masks: false,
        ai_masks: true,
        inpainting: false,
        lens_correction: false,
    };
    let plan = plan_adjustment_paste(only_masks, false, true, true);
    assert!(plan.masks && plan.preflight);
    assert!(!plan.adjustments && !plan.pipeline_adjustments && !plan.mark_pipeline_dirty);
    assert!(!plan.inpainting && !plan.inpainting_content && !plan.lens_changed);

    let replace = plan_adjustment_paste(only_masks, true, true, true);
    assert!(replace.adjustments && replace.geometry && replace.camera_profile && replace.inpainting);
    assert!(replace.inpainting_content && replace.lens_category && replace.lens_changed);
    assert!(!replace.mark_pipeline_dirty);

    let tone = AdjustmentCopySettings { adjustments: true, ..only_masks };
    let plan = plan_adjustment_paste(tone, false, false, true);
    assert!(plan.pipeline_adjustments && plan.mark_pipeline_dirty && !plan.lens_category);
}

#[test]
fn the_open_document_is_pasted_last() {
    assert_eq!(paste_order(&vec![false, true, false, false]), vec![0, 2, 3, 1]);
    assert_eq!(paste_order(&vec![true]), vec![0]);
    assert_eq!(paste_order(&Vec::new()), Vec::<usize>::new());
}

#[test]
fn runtime_notices_say_what_to_do() {
    assert_eq!(
        runtime_notice(RuntimeReadiness::NotChosen),
        "Choose an ONNX Runtime library under Settings before using desktop AI tools."
    );
    assert_eq!(
        runtime_notice(RuntimeReadiness::ProbeFailed("hash mismatch".to_owned())),
        "ONNX Runtime validation failed: hash mismatch. Select a different onnxruntime.dll in Settings."
    );
}

#[test]
fn paste_tally_counts_saved_images_and_lists_failures() {
    let mut tally = PasteTally::new();
    tally.record(2, "b.dng", Ok(true));
    tally.record(0, "a.dng", Err("read-only sidecar".to_owned()));
    tally.record(1, "c.dng", Ok(false));
    assert_eq!(tally.completed, 2);
    assert_eq!(tally.ai_refresh, vec![2]);
    assert_eq!(tally.failures, vec!["a.dng: read-only sidecar".to_owned()]);

    let empty = PasteTally::nothing_copied();
    assert_eq!(empty.completed, 0);
    assert_eq!(empty.failures, vec!["Copy adjustments from an image first.".to_owned()]);
    assert_eq!(asset_failure_text("x.nef", "gone"), "x.nef: gone");
}

#[test]
fn edit_count_counts_only_adjusted_images() {
    let mut count = EditCount::new();
    count.record("a.dng", Ok(true));
    count.record("b.dng", Ok(false));
    count.record("c.dng", Err("unreadable".to_owned()));
    assert_eq!(count.edited, 1);
    assert_eq!(count.failures, vec!["c.dng: unreadable".to_owned()]);
}

#[test]
fn paste_into_the_open_document_needs_it_loaded() {
    assert_eq!(check_paste_destination(true, true), Ok(()));
    assert_eq!(
        check_paste_destination(true, false),
        Err("The destination image is not loaded.".to_owned())
    );
    assert_eq!(
        check_paste_destination(false, true),
        Err("The destination image is not loaded.".to_owned())
    );
    assert_eq!(
        paste_preflight_error("too many masks"),
        "Paste was not applied because the resulting edit could not be saved: too many masks"
    );
    assert_eq!(
        profile_reload_error("document busy"),
        "Adjustments were pasted, but the camera profile could not be reloaded: document busy"
    );
}

#[test]
fn pasted_profile_reloads_only_when_it_changed() {
    let profile_only = AdjustmentCopySettings {
        adjustments: false,
        geometry: false,
        camera_profile: true,
        masks: false,
        ai_masks: false,
        inpainting: false,
        lens_correction: false,
    };
    let plan = plan_adjustment_paste(profile_only, false, false, false);
    assert!(needs_profile_reload(plan, false));
    assert!(!needs_profile_reload(plan, true));
    let mut no_profile = profile_only;
    no_profile.camera_profile = false;
    let plan = plan_adjustment_paste(no_profile, false, false, false);
    assert!(!needs_profile_reload(plan, false));
}

#[test]
fn library_refresh_waits_for_queued_work_and_saves() {
    let busy = Err("AI-mask refresh is already queued, or edits are still being saved.".to_owned());
    assert_eq!(check_refresh_start(false, false, true, Platform::Desktop), Ok(()));
    assert_eq!(check_refresh_start(false, false, true, Platform::Android), busy);
    assert_eq!(check_refresh_start(true, false, false, Platform::Desktop), busy);
    assert_eq!(check_refresh_start(false, true, false, Platform::Android), busy);
    assert_eq!(check_refresh_start(false, false, false, Platform::Android), Ok(()));
}

#[test]
fn runtime_vetting_errors_name_the_failed_step() {
    assert_eq!(
        vetting_error(RuntimeVetting::HashFailed("permission denied".to_owned())),
        "Could not hash selected ONNX Runtime: permission denied"
    );
    assert_eq!(
        vetting_error(RuntimeVetting::ProbeFailed("missing symbol".to_owned())),
        "This ONNX Runtime could not be loaded safely: missing symbol"
    );
    assert_eq!(
        selection_notice(true),
        "ONNX Runtime selection and SHA-256 pin saved. Restart AuRaw before generating another subject mask."
    );
    assert_eq!(
        selection_notice(false),
        "ONNX Runtime selection cleared. Restart AuRaw to apply the change."
    );
}

#[test]
fn android_pickers_wait_for_foreground_work() {
    assert_eq!(
        android_picker_request(PickerPurpose::RawFiles, true, false, false),
        PickerRequest::Refused(
            "Wait for the current foreground operation to finish before opening another RAW."
                .to_owned()
        )
    );
    assert_eq!(
        android_picker_request(PickerPurpose::CloudUpload, true, false, false),
        PickerRequest::Refused(
            "Wait for the current foreground operation before selecting cloud uploads.".to_owned()
        )
    );
    assert_eq!(
        android_picker_request(PickerPurpose::RawFiles, false, true, false),
        PickerRequest::Ignored
    );
    assert_eq!(
        android_picker_request(PickerPurpose::RawFiles, false, false, true),
        PickerRequest::Open
    );
    assert_eq!(
        android_picker_request(PickerPurpose::CloudUpload, false, false, true),
        PickerRequest::Ignored
    );
    assert_eq!(
        android_picker_request(PickerPurpose::CloudUpload, false, false, false),
        PickerRequest::Open
    );
    assert_eq!(picker_status_text(PickerPurpose::RawFiles), "Choose one or more RAW or TIFF files…");
    assert_eq!(
        picker_status_text(PickerPurpose::CloudUpload),
        "Choose one or more RAW or TIFF files for AuRaw Cloud…"
    );
}

#[test]
fn raw_picker_accepts_both_cases_of_each_extension() {
    let extensions = vec!["dng".to_owned(), "cr3".to_owned(), "TIF".to_owned()];
    assert_eq!(
        picker_filter_extensions(&extensions),
        vec!["dng", "DNG", "cr3", "CR3", "TIF", "TIF"]
    );
    assert!(picker_filter_extensions(&Vec::new()).is_empty());
}

#[test]
fn remove_needs_a_raw_and_the_gpu() {
    assert_eq!(check_remove_request(true, true), Ok(()));
    assert_eq!(
        check_remove_request(false, false),
        Err("Open a RAW image before using Remove.".to_owned())
    );
    assert_eq!(
        check_remove_request(true, false),
        Err("GPU rendering is unavailable for Remove.".to_owned())
    );
}

#[test]
fn opening_waits_for_the_previous_document() {
    assert_eq!(check_open_request(false, true), Ok(()));
    assert_eq!(
        check_open_request(true, true),
        Err("Wait for the current RAW to finish opening.".to_owned())
    );
    assert_eq!(
        check_open_request(false, false),
        Err("eframe is not running with the wgpu backend.".to_owned())
    );
    assert_eq!(loading_status("IMG_0001.CR3"), "Loading IMG_0001.CR3…");
}

#[test]
fn sidecar_reading_leaves_the_right_warning() {
    assert_eq!(
        sidecar_warning(SidecarLoad::Loaded { migrated: true }).as_deref(),
        Some("Loaded edits were migrated to the current sidecar format.")
    );
    assert_eq!(sidecar_warning(SidecarLoad::Loaded { migrated: false }), None);
    assert_eq!(sidecar_warning(SidecarLoad::Missing), None);
    assert_eq!(
        sidecar_warning(SidecarLoad::Failed("bad JSON".to_owned())).as_deref(),
        Some("Could not load this RAW's sidecar; using default edits: bad JSON")
    );
}

#[test]
fn lens_correction_notices_describe_the_outcome() {
    assert_eq!(
        saved_correction_unavailable_notice(),
        "The saved lens correction is unavailable in this build."
    );
    assert_eq!(
        correction_failed_notice(),
        "The saved lens correction failed; the original RAW geometry is shown."
    );
    assert_eq!(
        correction_status("Canon RF 50mm", None),
        "Automatically applied Canon RF 50mm from RAW metadata"
    );
    assert_eq!(
        correction_status("Canon RF 50mm", Some("no profile")),
        "Matched Canon RF 50mm, but correction failed: no profile"
    );
}

#[test]
fn drop_overlay_names_the_import_folder() {
    assert_eq!(
        drop_overlay_message(Some("/photos/2024")),
        "Drop RAW files to import them into\n/photos/2024\n\nFolders are copied here too"
    );
    assert_eq!(drop_overlay_message(None), "Open a library folder before dropping RAW files");
}

#[test]
fn failed_display_update_keeps_the_previous_transform() {
    assert_eq!(
        display_update_failed_notice(),
        "Could not update every preview color profile. The previous display transform remains active."
    );
}

#[test]
fn loaded_document_status_names_camera_sizes_and_profile() {
    assert_eq!(
        loaded_status("Canon", "EOS R5", (8192, 5464), (2048, 1366), PreviewQuality::High, Some("Adobe Standard")),
        "Canon EOS R5 — full 8192×5464, preview 2048×1366 (High, profile Adobe Standard)"
    );
    assert_eq!(
        loaded_status("Fujifilm", "X-T5", (7728, 5152), (1932, 1288), PreviewQuality::Low, None),
        "Fujifilm X-T5 — full 7728×5152, preview 1932×1288 (Low)"
    );
}

#[test]
fn failed_open_notices_say_what_failed() {
    assert_eq!(load_failure_notice(LoadFailure::WorkerStopped), "RAW decode worker stopped unexpectedly.");
    assert_eq!(
        load_failure_notice(LoadFailure::NoGpuBackend),
        "eframe is not running with the wgpu backend."
    );
    assert_eq!(
        load_failure_notice(LoadFailure::Failed("unsupported camera".to_owned())),
        "Failed to decode or render RAW: unsupported camera"
    );
}

#[test]
fn android_library_taps_respect_running_operations() {
    assert_eq!(
        android_open_request(true, false, false, "IMG_1.DNG"),
        AndroidOpen::Refused(
            "IMG_1.DNG cannot be opened while an export or another foreground operation is running. Wait for it to finish or cancel it first."
                .to_owned()
        )
    );
    assert_eq!(android_open_request(false, true, false, "IMG_1.DNG"), AndroidOpen::Ignored);
    assert_eq!(android_open_request(false, false, true, "IMG_1.DNG"), AndroidOpen::ShowLoaded);
    assert_eq!(
        android_open_request(false, false, false, "IMG_1.DNG"),
        AndroidOpen::Open { status: "Opening IMG_1.DNG…".to_owned() }
    );
}

#[test]
fn reset_reloads_wait_for_pending_documents() {
    assert_eq!(reset_reload_request(false, "a.dng"), Ok("Reloading a.dng after reset…".to_owned()));
    assert_eq!(
        reset_reload_request(true, "a.dng"),
        Err("Could not reload a.dng after resetting adjustments because another Android document operation is still pending.".to_owned())
    );
    assert_eq!(
        reset_reload_failure("a.dng", "denied"),
        "Could not reload a.dng after resetting adjustments: denied"
    );
    assert_eq!(
        offline_open_notice("Server unreachable."),
        "Opened the cached cloud RAW offline. Edits will sync when the server is reachable. Server unreachable."
    );
}

#[test]
fn camera_profile_import_reports_progress_and_failures() {
    assert_eq!(camera_profile_import_status("ACR"), "Importing DCP profiles from ACR…");
    assert_eq!(camera_profile_import_failure(None), "No camera profile folder selected.");
    assert_eq!(
        camera_profile_import_failure(Some("tree revoked")),
        "Could not import camera profiles: tree revoked"
    );
}

fn display_settings() -> DisplayColorSettings<u64> {
    DisplayColorSettings {
        color_management: true,
        profile_override: None,
        last_probe: Some(3),
        last_screen_point: Some((1, 2)),
        record: DisplayProfileRecord {
            label: "sRGB fallback".to_string(),
            source: None,
            fingerprint: Some(0),
        },
    }
}

fn studio_target() -> DisplayTarget {
    probe_target(
        &ProfileProbe::Found { label: "Studio".to_string(), source: "EDID".to_string(), fingerprint: 77 },
        true,
    )
}

#[test]
fn unchanged_display_profile_is_kept_as_is() {
    let mut settings = display_settings();
    let fallback = probe_target(&ProfileProbe::Absent, true);
    assert!(matches!(settings.settle_target(fallback, true), DisplayInstall::Keep));
    assert_eq!(settings.record.fingerprint, Some(0));
    assert_eq!(settings.record.label, "sRGB fallback");
}

#[test]
fn display_profile_without_gpu_is_only_recorded() {
    let mut settings = display_settings();
    assert!(matches!(settings.settle_target(studio_target(), false), DisplayInstall::Recorded));
    assert_eq!(settings.record.label, "Studio");
    assert_eq!(settings.record.source.as_deref(), Some("EDID"));
    assert_eq!(settings.record.fingerprint, Some(77));
    assert_eq!(settings.last_probe, Some(3));
}

#[test]
fn display_profile_install_records_only_after_every_preview_took_it() {
    let mut settings = display_settings();
    let target = match settings.settle_target(studio_target(), true) {
        DisplayInstall::Install(target) => target,
        _ => panic!("a changed profile with a GPU must be installed"),
    };
    assert_eq!(target.label, "Studio");
    assert_eq!(settings.record.fingerprint, Some(0));

    let InstallFollowUp { notice, pending_output_stage, queue_output_stage } =
        settings.finish_install(target, false, true);
    assert_eq!(
        notice.as_deref(),
        Some("Could not update every preview color profile. The previous display transform remains active.")
    );
    assert!(pending_output_stage);
    assert!(!queue_output_stage);
    assert_eq!(settings.record.label, "sRGB fallback");
    assert_eq!(settings.record.fingerprint, Some(0));

    let follow_up = settings.finish_install(studio_target(), true, true);
    assert!(follow_up.notice.is_none());
    assert!(!follow_up.pending_output_stage);
    assert!(follow_up.queue_output_stage);
    assert_eq!(settings.record.label, "Studio");
    assert_eq!(settings.record.fingerprint, Some(77));

    let mut without_main = display_settings();
    let follow_up = without_main.finish_install(studio_target(), true, false);
    assert!(!follow_up.queue_output_stage);
    assert_eq!(without_main.record.fingerprint, Some(77));
}

#[test]
fn selection_lists_sort_by_the_given_keys() {
    let entries = vec![
        ("b".to_string(), "Zeiss".to_string()),
        ("a".to_string(), "Voigtlander".to_string()),
        ("c".to_string(), "ZEISS".to_string()),
        ("a".to_string(), "voigtlander".to_string()),
        ("d".to_string(), "Leica".to_string()),
    ];
    assert_eq!(selection_list_from_keys(&entries), vec!["Voigtlander", "Zeiss", "Leica"]);
    assert!(selection_list_from_keys(&Vec::new()).is_empty());
}

#[test]
fn every_lens_maker_is_offered_once() {
    let mut state = LensCorrectionState::from_catalog(catalog());
    state.catalog.lenses.push(lens("NIKON", "Z 50mm"));
    state.catalog.lenses.push(lens("Ärger", "Test"));
    let makers = state.makers();
    assert_eq!(makers, vec!["Canon", "Nikon", "sigma", "Ärger"]);
    for lens in &state.catalog.lenses {
        assert!(makers.iter().any(|maker| maker.eq_ignore_ascii_case(&lens.maker)));
    }
}

#[test]
fn lens_models_are_trimmed_of_unicode_whitespace() {
    let mut state = LensCorrectionState::from_catalog(catalog());
    state.selected_model = "\u{3000}\u{a0} \t".to_string();
    assert!(state.selected_lens().is_none());
    state.selected_model = "\u{2003}EF 50mm\u{3000}".to_string();
    let chosen = state.selected_lens().expect("a model with text is selected");
    assert_eq!(chosen.model, "\u{2003}EF 50mm\u{3000}");
}
