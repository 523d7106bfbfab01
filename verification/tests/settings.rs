use auraw::thumbnail_cache::{
    acceleration_notice, clear_failure_status, CacheSizeAnswer, CacheSizeLabel, ThumbnailCacheSize,
};

#[test]
fn cache_size_is_measured_once_by_one_worker() {
    let mut state = ThumbnailCacheSize::new();
    assert!(state.needs_worker());
    assert_eq!(state.label(), CacheSizeLabel::Calculating);
    assert_eq!(state.label().text().as_deref(), Some("Calculating size…"));
    state.worker_started();
    assert!(!state.needs_worker());
    state.poll(CacheSizeAnswer::Pending);
    assert!(state.measuring);
    state.poll(CacheSizeAnswer::Measured(Ok(2_500_000)));
    assert!(!state.measuring);
    assert!(!state.needs_worker());
    assert_eq!(state.label(), CacheSizeLabel::Megabytes(2_500_000));
    assert_eq!(state.label().text(), None);
}

#[test]
fn cache_size_labels_cover_each_range() {
    let mut state = ThumbnailCacheSize::new();
    state.size = Some(Ok(0));
    assert_eq!(state.label().text().as_deref(), Some("0 MB used"));
    state.size = Some(Ok(99_999));
    assert_eq!(state.label().text().as_deref(), Some("<0.1 MB used"));
    state.size = Some(Ok(100_000));
    assert_eq!(state.label(), CacheSizeLabel::Megabytes(100_000));
    state.size = Some(Err("denied".to_owned()));
    assert_eq!(state.label().text().as_deref(), Some("Size unavailable"));
}

#[test]
fn stopped_cache_size_worker_leaves_an_error() {
    let mut state = ThumbnailCacheSize::new();
    state.poll(CacheSizeAnswer::WorkerStopped);
    assert_eq!(state.size, None);
    state.worker_started();
    state.poll(CacheSizeAnswer::WorkerStopped);
    assert_eq!(
        state.size,
        Some(Err("thumbnail cache size worker stopped unexpectedly".to_owned()))
    );
    assert!(!state.measuring);
}

#[test]
fn failed_cache_size_worker_start_is_reported() {
    let mut state = ThumbnailCacheSize::new();
    state.worker_failed("no threads");
    assert_eq!(
        state.size,
        Some(Err("could not start cache size worker: no threads".to_owned()))
    );
    assert_eq!(state.label(), CacheSizeLabel::Unavailable);
}

#[test]
fn clearing_the_cache_reports_its_outcome() {
    let mut state = ThumbnailCacheSize::new();
    state.size = Some(Ok(5_000_000));
    state.worker_started();
    state.clearing();
    assert!(state.needs_worker());
    let notice = state.cleared(Ok(()));
    assert_eq!(notice, "Thumbnail cache cleared. Rebuilding previews…");
    assert_eq!(state.label(), CacheSizeLabel::Empty);

    let mut failed = ThumbnailCacheSize::new();
    failed.clearing();
    let notice = failed.cleared(Err("busy".to_owned()));
    assert_eq!(notice, "Could not clear thumbnail cache: busy");
    assert_eq!(failed.size, None);
    assert_eq!(clear_failure_status(), "Could not clear the thumbnail cache.");
}

#[test]
fn acceleration_notice_names_the_new_setting() {
    assert_eq!(
        acceleration_notice(true),
        "AI GPU acceleration enabled. New AI model sessions will use it when available."
    );
    assert_eq!(
        acceleration_notice(false),
        "AI GPU acceleration disabled. New AI model sessions will run on CPU."
    );
}
