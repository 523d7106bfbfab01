use auraw::retired_textures::{RetiredTextures, TextureKey};
use auraw::loading_thumbnail::{LoadingThumbnail, ThumbnailAction, ThumbnailAnswer, ThumbnailOutcome};
use auraw::discord_presence::{
    activity_payload, normalized_application_id, timestamp_from_elapsed, DiscordPresence,
    PresenceActivity, PresenceContext,
};
use auraw::pipeline_updates::collect_pipeline_update_results;
use auraw::platform::Platform;
use auraw::raw_cache::{default_raw_cache_limit, maximum_raw_cache_limit, RawDecodeCache};
use auraw::ui_state::{
    ai_model_cache_policy, back_action, tab_activation, AppTab, BackAction, HslMixerColor, SidebarTab,
};

#[test]
fn each_present_pipeline_failure_has_operation_context() {
    for failed in ["main", "detail", "navigation"] {
        let result = collect_pipeline_update_results(
            "install inpaint layer",
            ["main", "detail", "navigation"]
                .into_iter()
                .map(|name| {
                    let result = if name == failed {
                        Err("injected failure".to_string())
                    } else {
                        Ok(())
                    };
                    (name, result)
                })
                .collect(),
        );
        let message = result.unwrap_err();
        assert!(message.contains(failed));
        assert!(message.contains("install inpaint layer"));
    }
}

#[test]
fn absent_optional_pipelines_need_no_placeholder_update() {
    assert!(collect_pipeline_update_results("install output transform", vec![("main", Ok(()))]).is_ok());
}

#[test]
fn a_later_retry_can_succeed_after_partial_failure_without_advancing_revision() {
    let mut rendered_revision = Some(41_u64);
    let requested_revision = 42_u64;
    let first = collect_pipeline_update_results(
        "install output transform",
        vec![("main", Ok(())), ("detail", Err("injected failure".to_string()))],
    );
    if first.is_ok() {
        rendered_revision = Some(requested_revision);
    }
    assert!(first.is_err());
    assert_eq!(rendered_revision, Some(41));

    let retry = collect_pipeline_update_results(
        "install output transform",
        vec![("main", Ok(())), ("detail", Ok(()))],
    );
    if retry.is_ok() {
        rendered_revision = Some(requested_revision);
    }
    assert!(retry.is_ok());
    assert_eq!(rendered_revision, Some(requested_revision));
}

#[test]
fn pipeline_failures_are_listed_in_order() {
    let result = collect_pipeline_update_results(
        "install display ICC LUT",
        vec![
            ("main preview", Err("lost device".to_string())),
            ("detail preview", Ok(())),
            ("navigation preview", Err("out of memory".to_string())),
        ],
    );
    assert_eq!(
        result,
        Err("main preview: install display ICC LUT: lost device; navigation preview: install display ICC LUT: out of memory".to_string())
    );
    assert_eq!(collect_pipeline_update_results("noop", Vec::new()), Ok(()));
}

#[test]
fn settings_preserves_the_last_library_or_editing_context() {
    let mut presence = DiscordPresence::new(false, None);
    presence.sync(AppTab::Library, None);
    presence.sync(AppTab::Settings, None);
    assert_eq!(presence.last_non_settings_context(), Some(PresenceContext::Browsing));

    presence.sync(AppTab::Develop, Some(42));
    presence.sync(AppTab::Settings, None);
    assert_eq!(
        presence.last_non_settings_context(),
        Some(PresenceContext::Editing { document_id: 42 })
    );
    assert_ne!(
        presence.last_non_settings_context(),
        Some(PresenceContext::Editing { document_id: 43 })
    );
}

#[test]
fn payloads_do_not_expose_document_identity() {
    let url = "https://example.org/auraw";
    let browsing = activity_payload(PresenceActivity::Browsing, url);
    let editing = activity_payload(PresenceActivity::Editing { started_at: 123 }, url);
    assert!(browsing.details.contains("Browsing RAW Photos"));
    assert!(editing.details.contains("Editing a Picture"));
    assert_eq!(editing.start_timestamp, Some(123));
    assert_eq!(browsing.start_timestamp, None);
    assert_eq!(browsing.button_label, "Get AuRaw");
    assert_eq!(editing.button_label, "Get AuRaw");
    assert_eq!(browsing.button_url, url);
    assert_eq!(editing.button_url, url);
    for payload in [&browsing, &editing] {
        assert!(!payload.details.contains("document"));
        assert!(!payload.button_label.contains("document"));
        assert!(!payload.button_url.contains("document"));
    }
}

#[test]
fn presence_publishes_only_changed_contexts_while_enabled() {
    let mut presence = DiscordPresence::new(true, Some("1234".to_string()));
    assert!(presence.is_configured());
    assert!(presence.is_enabled());
    let delivery = presence.sync(AppTab::Library, None).expect("a first context is published");
    assert_eq!(delivery.context, PresenceContext::Browsing);
    assert_eq!(delivery.activity, PresenceActivity::Browsing);
    assert!(delivery.start_worker);
    assert!(presence.send(true, true));
    presence.note_delivery(delivery.context, true);
    assert!(presence.sync(AppTab::Library, None).is_none());
    assert!(presence.sync(AppTab::Settings, None).is_none());
    let editing = presence.sync(AppTab::Develop, Some(7)).expect("editing is published");
    assert!(!editing.start_worker);
    assert!(matches!(editing.activity, PresenceActivity::Editing { started_at } if started_at >= 0));
    assert_eq!(presence.set_enabled(false), Ok(true));
    assert!(presence.sync(AppTab::Library, None).is_none());
}

#[test]
fn unconfigured_presence_cannot_be_enabled() {
    let mut presence = DiscordPresence::new(true, None);
    assert!(!presence.is_enabled());
    assert_eq!(
        presence.set_enabled(true),
        Err("Discord Rich Presence is unavailable because this build has no AURAW_DISCORD_APPLICATION_ID.".to_string())
    );
    assert_eq!(presence.set_enabled(false), Ok(false));
    assert!(!presence.shutdown());
}

#[test]
fn failed_deliveries_stop_the_worker() {
    let mut presence = DiscordPresence::new(true, Some("1".to_string()));
    assert!(!presence.send(false, true));
    assert!(presence.send(true, false) == false);
    assert!(presence.send(true, true));
    assert!(presence.shutdown_worker());
    assert!(!presence.shutdown_worker());
}

#[test]
fn application_ids_are_positive_integers() {
    assert_eq!(normalized_application_id(Some(" 1234 ")), Some("1234".to_string()));
    assert_eq!(normalized_application_id(Some("0")), None);
    assert_eq!(normalized_application_id(Some("abc")), None);
    assert_eq!(normalized_application_id(None), None);
    assert_eq!(timestamp_from_elapsed(Some(5)), 5);
    assert_eq!(timestamp_from_elapsed(None), 0);
    assert_eq!(timestamp_from_elapsed(Some(u64::MAX)), 0);
}

#[test]
fn raw_cache_limits_depend_on_the_platform() {
    assert_eq!(default_raw_cache_limit(Platform::Desktop), 2);
    assert_eq!(default_raw_cache_limit(Platform::Android), 1);
    assert_eq!(maximum_raw_cache_limit(Platform::Desktop), 8);
    assert_eq!(maximum_raw_cache_limit(Platform::Android), 3);
}

#[test]
fn raw_cache_evicts_the_least_recently_used_decode() {
    let mut cache: RawDecodeCache<u32> = RawDecodeCache::new(2);
    cache.cache_raw_decode("a".to_string(), 1);
    cache.cache_raw_decode("b".to_string(), 2);
    assert_eq!(cache.cached_raw_decode("a"), Some(1));
    cache.cache_raw_decode("c".to_string(), 3);
    assert_eq!(cache.len(), 2);
    assert_eq!(cache.cached_raw_decode("b"), None);
    assert_eq!(cache.cached_raw_decode("a"), Some(1));
    assert_eq!(cache.cached_raw_decode("c"), Some(3));
    cache.cache_raw_decode("a".to_string(), 10);
    assert_eq!(cache.cached_raw_decode("a"), Some(10));
    assert_eq!(cache.len(), 2);
    assert!(cache.set_raw_cache_limit(1, Platform::Desktop));
    assert_eq!(cache.len(), 1);
    assert_eq!(cache.cached_raw_decode("a"), Some(10));
    assert!(cache.set_raw_cache_limit(100, Platform::Android));
    assert_eq!(cache.raw_cache_limit(), 3);
    assert!(!cache.set_raw_cache_limit(3, Platform::Android));
    cache.clear();
    assert_eq!(cache.len(), 0);
}

#[test]
fn tabs_switch_with_their_side_effects() {
    let same = tab_activation(AppTab::Develop, AppTab::Develop, Platform::Desktop, false);
    assert!(!same.changed);
    let leave = tab_activation(AppTab::Develop, AppTab::Library, Platform::Android, true);
    assert!(leave.changed && leave.stop_original_preview && leave.refresh_cloud_library);
    assert!(!leave.back_navigation_active);
    let settings = tab_activation(AppTab::Library, AppTab::Settings, Platform::Android, false);
    assert!(settings.close_folder_sidebar && settings.remeasure_thumbnail_cache);
    assert!(settings.prepare_library_for_develop && settings.back_navigation_active);
}

#[test]
fn system_back_closes_the_innermost_library_view() {
    assert_eq!(back_action(true, AppTab::Library, true, true), BackAction::Ignore);
    assert_eq!(back_action(false, AppTab::Library, true, true), BackAction::CloseFolderSidebar);
    assert_eq!(back_action(false, AppTab::Library, false, true), BackAction::ClearSelection);
    assert_eq!(back_action(false, AppTab::Develop, true, true), BackAction::ShowLibrary);
}

#[test]
fn model_sessions_stay_cached_only_where_they_are_used() {
    let masks = ai_model_cache_policy(AppTab::Develop, SidebarTab::Masks);
    assert!(masks.mask_models && !masks.inpainting_model);
    let library = ai_model_cache_policy(AppTab::Library, SidebarTab::Masks);
    assert!(!library.mask_models && !library.inpainting_model);
}

#[test]
fn hsl_colors_have_distinct_indices() {
    let colors = HslMixerColor::all();
    for (expected, color) in colors.iter().enumerate() {
        assert_eq!(color.index(), expected);
    }
}

#[test]
fn cached_loading_thumbnail_needs_no_worker() {
    let mut state: LoadingThumbnail<u32> = LoadingThumbnail::new();
    assert!(!state.prepare("/photos/a.dng".to_owned(), Some((7, [320, 200]))));
    assert_eq!(state.texture, Some(7));
    assert_eq!(state.texture_size, Some([320, 200]));
}

#[test]
fn decoded_thumbnail_is_installed_only_for_the_document_still_opening() {
    let mut state: LoadingThumbnail<u32> = LoadingThumbnail::new();
    assert!(state.prepare("/photos/a.dng".to_owned(), None));
    state.worker_started();
    assert_eq!(state.worker_answer(ThumbnailAnswer::Pending), ThumbnailAction::Wait);
    assert!(state.worker_running);
    let stale = ThumbnailAnswer::Loaded {
        source: "/photos/b.dng".to_owned(),
        outcome: ThumbnailOutcome::Found,
    };
    assert_eq!(state.worker_answer(stale), ThumbnailAction::Discard);
    assert!(!state.worker_running);

    state.worker_started();
    let current = ThumbnailAnswer::Loaded {
        source: "/photos/a.dng".to_owned(),
        outcome: ThumbnailOutcome::Found,
    };
    assert_eq!(state.worker_answer(current), ThumbnailAction::Install);
    state.install(9, [512, 341]);
    assert_eq!(state.texture, Some(9));
}

#[test]
fn library_texture_wins_over_a_late_decode() {
    let mut state: LoadingThumbnail<u32> = LoadingThumbnail::new();
    assert!(state.prepare("/photos/a.dng".to_owned(), None));
    state.worker_started();
    state.offer_cached(Some((3, [100, 100])));
    assert_eq!(state.texture, Some(3));
    let late = ThumbnailAnswer::Loaded {
        source: "/photos/a.dng".to_owned(),
        outcome: ThumbnailOutcome::Found,
    };
    assert_eq!(state.worker_answer(late), ThumbnailAction::Discard);
    assert_eq!(state.texture, Some(3));
}

#[test]
fn failed_or_missing_thumbnails_are_not_installed() {
    let mut state: LoadingThumbnail<u32> = LoadingThumbnail::new();
    state.prepare("/photos/a.dng".to_owned(), None);
    state.worker_started();
    let failed = ThumbnailAnswer::Loaded {
        source: "/photos/a.dng".to_owned(),
        outcome: ThumbnailOutcome::Failed,
    };
    assert_eq!(state.worker_answer(failed), ThumbnailAction::Report);
    state.worker_started();
    let missing = ThumbnailAnswer::Loaded {
        source: "/photos/a.dng".to_owned(),
        outcome: ThumbnailOutcome::NotFound,
    };
    assert_eq!(state.worker_answer(missing), ThumbnailAction::Discard);
    state.worker_started();
    assert_eq!(state.worker_answer(ThumbnailAnswer::Stopped), ThumbnailAction::Discard);
    state.clear();
    assert_eq!(state.worker_answer(ThumbnailAnswer::Stopped), ThumbnailAction::Wait);
    assert_eq!(state.source, None);
}

#[test]
fn retired_textures_are_freed_once_each() {
    let mut retired = RetiredTextures::new();
    retired.retire(TextureKey::User(4));
    retired.retire(TextureKey::Managed(4));
    retired.retire(TextureKey::User(4));
    assert_eq!(retired.ids, vec![TextureKey::User(4), TextureKey::Managed(4)]);
    let freed = retired.take_all();
    assert_eq!(freed, vec![TextureKey::User(4), TextureKey::Managed(4)]);
    assert!(retired.ids.is_empty());
    assert!(retired.take_all().is_empty());
}
