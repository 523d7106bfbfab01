use auraw::preview_quality::PreviewQuality;

#[test]
fn preview_quality_levels_track_physical_viewport_density() {
    assert_eq!(PreviewQuality::Max.proxy_edge_for_viewport([3_000, 2_000]), 3_006);
    assert!(PreviewQuality::Max.detail_edge_for_viewport([3_200, 1_800]) >= 3_200 * 135 / 100);
    for quality in [
        PreviewQuality::Low,
        PreviewQuality::Medium,
        PreviewQuality::High,
        PreviewQuality::Max,
    ] {
        assert!(quality.proxy_edge_for_viewport([3_840, 2_160]) > quality.proxy_edge());
    }
}

#[test]
fn preview_quality_density_is_ordered_and_max_matches_physical_pixels() {
    let viewport = [2_400, 1_600];
    let edges = [
        PreviewQuality::Low.proxy_edge_for_viewport(viewport),
        PreviewQuality::Medium.proxy_edge_for_viewport(viewport),
        PreviewQuality::High.proxy_edge_for_viewport(viewport),
        PreviewQuality::Max.proxy_edge_for_viewport(viewport),
    ];
    assert!(edges.windows(2).all(|pair| pair[0] < pair[1]));
    assert_eq!(edges[3], 2_406);
}

#[test]
fn fitted_preview_density_excludes_phone_letterbox_space() {
    // The uncropped frame of a 7028x4688 RAW is the RAW itself; the crop to
    // [0.375, 0.0, 0.625, 1.0] keeps a 1757x4688 frame.
    let edge = PreviewQuality::Max.proxy_edge_for_fitted_source([720, 1_500], 7_028, 4_688, 7_028, 4_688);
    assert_eq!(edge, 1_280);

    assert!(
        PreviewQuality::Max.proxy_edge_for_fitted_source([720, 1_500], 7_028, 4_688, 1_757, 4_688)
            > edge
    );
}

#[test]
fn fitted_preview_never_exceeds_the_source() {
    assert_eq!(PreviewQuality::Max.proxy_edge_for_fitted_source([4_000, 4_000], 1_000, 800, 10, 10), 1_000);
}

#[test]
fn quality_levels_have_labels_and_floors() {
    assert_eq!(PreviewQuality::Low.label(), "Low");
    assert_eq!(PreviewQuality::Medium.label(), "Medium");
    assert_eq!(PreviewQuality::High.label(), "High");
    assert_eq!(PreviewQuality::Max.label(), "Max");
    assert_eq!(PreviewQuality::Low.proxy_edge(), 640);
    assert_eq!(PreviewQuality::Max.proxy_edge(), 1_280);
    assert_eq!(PreviewQuality::default(), PreviewQuality::Medium);
    assert_eq!(PreviewQuality::Low.proxy_edge_for_viewport([100, 100]), 640);
}
