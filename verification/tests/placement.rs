use std::collections::HashMap;
use std::collections::HashSet;

use leopardwm::cloak::apply_cloak_state;
use leopardwm::cloak::direct_cloaked_contains;
use leopardwm::cloak::drain_ghost_cloaked;
use leopardwm::cloak::dwm_cloak_window;
use leopardwm::cloak::dwm_uncloak_all;
use leopardwm::cloak::dwm_uncloak_window;
use leopardwm::cloak::is_placement_cloaked;
use leopardwm::cloak::is_placement_parked;
use leopardwm::cloak::mark_ghost_cloaked;
use leopardwm::cloak::mark_placement_parked;
use leopardwm::cloak::recover_placement_parked;
use leopardwm::cloak::unmark_ghost_cloaked;
use leopardwm::cloak::CloakCommand;
use leopardwm::cloak::CloakRegistry;
use leopardwm::entries::skip_visible_tiled_maximized;
use leopardwm::entries::DeferEntry;
use leopardwm::geometry::frame_insets_from_rects;
use leopardwm::geometry::frame_rect_to_visible_rect;
use leopardwm::geometry::get_window_frame_insets;
use leopardwm::geometry::get_window_invisible_insets;
use leopardwm::geometry::visible_rect_to_frame_rect;
use leopardwm::geometry::Rect;
use leopardwm::geometry::ScreenRect;
use leopardwm::geometry::MAX_INVISIBLE_FRAME_INSET;
use leopardwm::insets::cached_border_insets;
use leopardwm::insets::clear_inset_cache;
use leopardwm::insets::evict_cached_border_insets;
use leopardwm::insets::finalize_cached_border_insets;
use leopardwm::insets::inset_cache_generation;
use leopardwm::insets::inset_finalization;
use leopardwm::insets::InsetCache;
use leopardwm::insets::InsetFinalization;
use leopardwm::insets::InsetSource;
use leopardwm::insets::PlacementCache;
use leopardwm::nudge::needs_delayed_geometry_settle;
use leopardwm::nudge::needs_landing_nudge;
use leopardwm::nudge::rect_matches_nudge_target;
use leopardwm::nudge::NudgeTarget;
use leopardwm::sizing::classify_measurements_and_update_suspects;
use leopardwm::sizing::classify_oversize;
use leopardwm::sizing::classify_size_axis;
use leopardwm::sizing::clear_suspected_oversize;
use leopardwm::sizing::detect_size_violations_from_measurements;
use leopardwm::sizing::should_retry_landing_measurement;
use leopardwm::sizing::AxisSizeClassification;
use leopardwm::sizing::WindowSizeMeasurement;
use leopardwm::types::PositionFlags;
use leopardwm::types::Visibility;
use leopardwm::types::WindowId;
use leopardwm::types::WindowPlacement;

#[test]
fn landing_nudge_classes_cover_compositors_and_winui_geometry() {
    assert!(needs_landing_nudge("Chrome_WidgetWin_1"));
    assert!(needs_landing_nudge("ApplicationFrameWindow"));
    assert!(needs_landing_nudge("WinUIDesktopWin32WindowClass"));
    assert!(!needs_landing_nudge("Notepad"));

    assert!(needs_delayed_geometry_settle("ApplicationFrameWindow"));
    assert!(needs_delayed_geometry_settle(
        "WinUIDesktopWin32WindowClass"
    ));
    assert!(!needs_delayed_geometry_settle("Chrome_WidgetWin_1"));
}

#[test]
fn test_visible_and_frame_rects_round_trip_with_insets() {
    let visible = Rect::new(120, 100, 1000, 700);
    let insets = (7, 1, 7, 8);
    let frame = visible_rect_to_frame_rect(visible, insets, false);
    assert_eq!(frame, Rect::new(113, 99, 1014, 709));
    assert_eq!(frame_rect_to_visible_rect(frame, insets, false), visible);
}

#[test]
fn test_visible_and_frame_rects_ignore_insets_in_high_contrast() {
    let visible = Rect::new(120, 100, 1000, 700);
    let insets = (7, 1, 7, 8);
    assert_eq!(visible_rect_to_frame_rect(visible, insets, true), visible);
    assert_eq!(frame_rect_to_visible_rect(visible, insets, true), visible);
}

#[test]
fn test_frame_insets_accept_aligned_normal_sample() {
    assert_eq!(
        frame_insets_from_rects(Rect::new(100, 100, 914, 709), Rect::new(107, 101, 900, 700),),
        Some((7, 1, 7, 8))
    );
}

#[test]
fn test_frame_insets_reject_stale_or_misaligned_samples() {
    let frame = Rect::new(100, 100, 914, 709);
    for visible in [Rect::new(117, 101, 900, 700), Rect::new(93, 101, 900, 700)] {
        assert_eq!(frame_insets_from_rects(frame, visible), None);
    }
}

#[test]
fn test_frame_insets_reject_implausible_deltas() {
    assert_eq!(
        frame_insets_from_rects(
            Rect::new(100, 100, 1100, 900),
            Rect::new(200, 200, 900, 700),
        ),
        None
    );
}

#[test]
fn test_frame_insets_enforce_maximum_delta() {
    let maximum = MAX_INVISIBLE_FRAME_INSET as i32;
    let visible = Rect::new(100 + maximum, 100 + maximum, 800, 700);
    let frame = Rect::new(100, 100, 800 + maximum * 2, 700 + maximum * 2);
    assert_eq!(
        frame_insets_from_rects(frame, visible),
        Some((maximum, maximum, maximum, maximum))
    );

    let above_maximum = maximum + 1;
    let visible = Rect::new(100 + above_maximum, 100 + above_maximum, 800, 700);
    let frame = Rect::new(100, 100, 800 + above_maximum * 2, 700 + above_maximum * 2);
    assert_eq!(frame_insets_from_rects(frame, visible), None);
}

#[test]
fn test_classify_size_axis_distinguishes_insets_from_minimums() {
    let cases = [
        (
            1323,
            1337,
            1337,
            true,
            false,
            AxisSizeClassification::InsetArtifact,
        ),
        (
            1372,
            1379,
            1379,
            true,
            false,
            AxisSizeClassification::InsetArtifact,
        ),
        (400, 400, 400, true, false, AxisSizeClassification::Fits),
        (400, 400, 402, true, false, AxisSizeClassification::Fits),
        (
            400,
            400,
            403,
            true,
            false,
            AxisSizeClassification::Violation {
                record: true,
                suspect: false,
            },
        ),
        (
            400,
            400,
            700,
            true,
            false,
            AxisSizeClassification::Violation {
                record: false,
                suspect: true,
            },
        ),
        (
            400,
            400,
            700,
            true,
            true,
            AxisSizeClassification::Violation {
                record: true,
                suspect: false,
            },
        ),
        (
            400,
            400,
            1601,
            true,
            true,
            AxisSizeClassification::Violation {
                record: false,
                suspect: false,
            },
        ),
        (
            400,
            414,
            403,
            false,
            false,
            AxisSizeClassification::Violation {
                record: true,
                suspect: false,
            },
        ),
        // 605 > 1.5 * 400 (layout), but 605 < 1.5 * 414 (frame).
        (
            400,
            414,
            605,
            false,
            false,
            AxisSizeClassification::Violation {
                record: false,
                suspect: true,
            },
        ),
        (
            400,
            414,
            605,
            true,
            false,
            AxisSizeClassification::Violation {
                record: false,
                suspect: true,
            },
        ),
        // 1700 > 4 * 400 (layout), but 1700 < 4 * 500 (frame).
        (
            400,
            500,
            1700,
            false,
            true,
            AxisSizeClassification::Violation {
                record: false,
                suspect: false,
            },
        ),
    ];

    for (layout, frame, visible, allow_retry, was_suspected, expected) in cases {
        assert_eq!(
            classify_size_axis(layout, frame, visible, allow_retry, was_suspected),
            expected,
            "layout={layout}, frame={frame}, visible={visible}, allow_retry={allow_retry}"
        );
    }
}

fn width_measurement(
    window_id: WindowId,
    layout_w: i32,
    frame_w: i32,
    visible_w: i32,
) -> WindowSizeMeasurement {
    WindowSizeMeasurement {
        window_id,
        layout_w,
        layout_h: 400,
        frame_w,
        frame_h: 400,
        visible_w,
        visible_h: 400,
    }
}

#[test]
fn test_suspect_oversize_retries_and_confirms_stable_native_minimum() {
    let measurement = width_measurement(7, 1267, 1281, 3186);
    let mut suspects = HashMap::new();

    let first = detect_size_violations_from_measurements(&[measurement], true, &mut suspects);
    assert_eq!(first.suspect_confirmation_windows, HashSet::from([7]));
    assert!(should_retry_landing_measurement(true, &first));
    assert_eq!(suspects.get(&7), Some(&(true, false)));

    let second = detect_size_violations_from_measurements(&[measurement], false, &mut suspects);
    assert_eq!(second.width_violations.len(), 1);
    assert_eq!(second.width_violations[0].min_width, 3186);
    assert!(suspects.is_empty());
}

#[test]
fn test_suspect_oversize_drops_one_off_stale_second_measurement() {
    let first_measurement = width_measurement(7, 1267, 1281, 3186);
    let second_measurement = width_measurement(7, 1267, 1281, 1267);
    let mut suspects = HashMap::new();

    let first = detect_size_violations_from_measurements(&[first_measurement], true, &mut suspects);
    assert!(should_retry_landing_measurement(true, &first));

    let second =
        detect_size_violations_from_measurements(&[second_measurement], false, &mut suspects);
    assert!(second.width_violations.is_empty());
    assert!(suspects.is_empty());
}

#[test]
fn test_suspect_oversize_rejects_absurd_second_measurement() {
    let first_measurement = width_measurement(7, 1267, 1281, 3186);
    let second_measurement = width_measurement(7, 1267, 1281, 5069);
    let mut suspects = HashMap::new();

    detect_size_violations_from_measurements(&[first_measurement], true, &mut suspects);
    let second =
        detect_size_violations_from_measurements(&[second_measurement], false, &mut suspects);
    assert!(second.width_violations.is_empty());
    assert!(suspects.is_empty());
}

#[test]
fn test_mixed_measurements_share_one_retry_and_discard_first_pass_violations() {
    let mut height_violation = width_measurement(4, 400, 400, 400);
    height_violation.visible_h = 500;
    let measurements = [
        width_measurement(1, 400, 414, 403),
        width_measurement(2, 1267, 1281, 3186),
        width_measurement(3, 400, 400, 500),
        height_violation,
    ];
    let mut suspects = HashMap::new();

    let first = detect_size_violations_from_measurements(&measurements, true, &mut suspects);
    assert_eq!(first.inset_artifact_windows, HashSet::from([1]));
    assert_eq!(first.suspect_confirmation_windows, HashSet::from([2]));
    assert_eq!(first.width_violations.len(), 1);
    assert_eq!(first.width_violations[0].window_id, 3);
    assert_eq!(first.height_violations.len(), 1);
    assert_eq!(first.height_violations[0].window_id, 4);
    assert_eq!(first.height_violations[0].min_height, 500);
    assert!(should_retry_landing_measurement(true, &first));

    let second = detect_size_violations_from_measurements(&measurements, false, &mut suspects);
    assert_eq!(second.width_violations.len(), 3);
    assert_eq!(
        second
            .width_violations
            .iter()
            .map(|violation| violation.window_id)
            .collect::<HashSet<_>>(),
        HashSet::from([1, 2, 3])
    );
    assert_eq!(second.height_violations.len(), 1);
    assert_eq!(second.height_violations[0].window_id, 4);
    assert_eq!(second.height_violations[0].min_height, 500);
    assert!(suspects.is_empty());
    assert!(!should_retry_landing_measurement(false, &second));
}

#[test]
fn test_discarded_retry_preserves_existing_suspect_for_authoritative_confirmation() {
    let a = width_measurement(1, 1267, 1281, 3186);
    let b = width_measurement(2, 400, 414, 403);
    let mut suspects = HashMap::from([(1, (true, false))]);

    let first = detect_size_violations_from_measurements(&[a, b], true, &mut suspects);
    assert_eq!(first.inset_artifact_windows, HashSet::from([2]));
    assert_eq!(first.width_violations.len(), 1);
    assert_eq!(first.width_violations[0].window_id, 1);
    assert!(should_retry_landing_measurement(true, &first));
    assert_eq!(suspects.get(&1), Some(&(true, false)));

    let second = detect_size_violations_from_measurements(&[a, b], false, &mut suspects);
    assert!(second
        .width_violations
        .iter()
        .any(|violation| violation.window_id == 1 && violation.min_width == 3186));
    assert!(!should_retry_landing_measurement(false, &second));
    assert!(suspects.is_empty());
}

#[test]
fn test_retry_disabled_suspect_is_saved_without_recursing() {
    let measurement = width_measurement(7, 1267, 1281, 3186);
    let mut suspects = HashMap::new();

    let detection = detect_size_violations_from_measurements(&[measurement], false, &mut suspects);
    assert_eq!(detection.suspect_confirmation_windows, HashSet::from([7]));
    assert_eq!(suspects.get(&7), Some(&(true, false)));
    assert!(!should_retry_landing_measurement(false, &detection));
}

#[test]
fn test_inset_finalization_preserves_cache_provenance() {
    let insets = (7, 0, 7, 7);
    assert_eq!(
        inset_finalization(InsetSource::LocalCache, insets, false, true),
        InsetFinalization {
            local: false,
            global: false,
        },
        "a worker-local tuple cannot resurrect a globally-cleared DPI cache"
    );
    assert_eq!(
        inset_finalization(InsetSource::GlobalCache, insets, false, true),
        InsetFinalization {
            local: true,
            global: false,
        }
    );
    assert_eq!(
        inset_finalization(InsetSource::Fresh, insets, false, true),
        InsetFinalization {
            local: true,
            global: true,
        }
    );
    assert_eq!(
        inset_finalization(InsetSource::Fresh, insets, true, true),
        InsetFinalization {
            local: false,
            global: false,
        }
    );
}

#[test]
fn test_inset_finalization_requires_a_matching_generation() {
    let insets = (7, 0, 7, 7);
    for source in [
        InsetSource::Fresh,
        InsetSource::GlobalCache,
        InsetSource::LocalCache,
    ] {
        assert_eq!(
            inset_finalization(source, insets, false, false),
            InsetFinalization {
                local: false,
                global: false,
            },
            "a tuple resolved before an invalidation must not be published ({source:?})"
        );
    }
}

fn fresh_inset_entry(window_id: u64, generation: u64) -> DeferEntry {
    DeferEntry {
        window_id,
        x: 0,
        y: 0,
        w: 414,
        h: 400,
        layout_w: 400,
        layout_h: 400,
        insets: (7, 0, 7, 0),
        inset_source: InsetSource::Fresh,
        inset_generation: generation,
        visibility: Visibility::Visible,
        flags: PositionFlags {
            no_size: false,
            no_zorder: false,
            no_activate: false,
            frame_changed: false,
            async_position: false,
        },
        column_index: 0,
    }
}

#[test]
fn test_fresh_insets_publish_when_the_generation_still_matches() {
    let mut global = InsetCache::new();
    let wid: WindowId = 0x7FFF_FF11;
    let entry = fresh_inset_entry(wid, inset_cache_generation(&global));

    let mut local = PlacementCache::new();
    finalize_cached_border_insets(&[entry], &HashSet::new(), Some(&mut local), &mut global);

    assert_eq!(local.insets.get(&wid), Some(&(7, 0, 7, 0)));
    assert_eq!(global.insets.get(&wid), Some(&(7, 0, 7, 0)));
}

#[test]
fn test_clear_between_lookup_and_publication_blocks_the_stale_fresh_tuple() {
    let mut global = InsetCache::new();
    let wid: WindowId = 0x7FFF_FF12;
    let entry = fresh_inset_entry(wid, inset_cache_generation(&global));
    clear_inset_cache(&mut global);
    assert_ne!(entry.inset_generation, inset_cache_generation(&global));

    let mut local = PlacementCache::new();
    finalize_cached_border_insets(&[entry], &HashSet::new(), Some(&mut local), &mut global);

    assert_eq!(
        global.insets.get(&wid),
        None,
        "a pre-clear fresh tuple must not repopulate the cleared global cache"
    );
    assert_eq!(local.insets.get(&wid), None);
}

#[test]
fn test_suspect_updates_merge_current_state_per_measurement() {
    let mut suspects = HashMap::from([(8, (true, false))]);
    let measurement = WindowSizeMeasurement {
        window_id: 7,
        layout_w: 400,
        layout_h: 400,
        frame_w: 400,
        frame_h: 400,
        visible_w: 700,
        visible_h: 400,
    };
    let classified = classify_measurements_and_update_suspects(&[measurement], true, &mut suspects);
    assert_eq!(
        classified[0].width,
        AxisSizeClassification::Violation {
            record: false,
            suspect: true,
        }
    );
    assert_eq!(suspects.get(&7), Some(&(true, false)));
    assert_eq!(suspects.get(&8), Some(&(true, false)));
}

#[test]
fn test_classify_oversize_confirmation_and_absurd_guard() {
    let cases = [
        ((false, false, false, false), (false, false)),
        ((true, false, false, false), (true, false)),
        ((true, true, false, false), (false, true)),
        ((true, true, true, false), (true, false)),
        ((true, true, true, true), (false, false)),
        ((true, true, false, true), (false, false)),
    ];

    for ((over, looks_stale, was_suspected, absurd), expected) in cases {
        assert_eq!(
            classify_oversize(over, looks_stale, was_suspected, absurd),
            expected
        );
    }
}

#[test]
fn test_direct_cloak_is_tracked_for_recovery() {
    let mut cloaks = CloakRegistry::new();
    let wid: WindowId = 0x7FFF_FF01;
    assert_eq!(
        dwm_cloak_window(&mut cloaks, wid),
        CloakCommand {
            window_id: wid,
            cloaked: true
        }
    );
    assert!(
        direct_cloaked_contains(&cloaks, wid),
        "dwm_cloak_window must record the wid for recovery"
    );
    assert_eq!(
        dwm_uncloak_window(&mut cloaks, wid),
        CloakCommand {
            window_id: wid,
            cloaked: false
        }
    );
    assert!(
        !direct_cloaked_contains(&cloaks, wid),
        "dwm_uncloak_window must clear the recovery record"
    );
}

#[test]
fn test_or_cloak_invariant() {
    let wid: WindowId = 0xFFFF_FFFF_FFFF_FF00;
    let mut cloaks = CloakRegistry::new();

    assert!(
        !is_placement_cloaked(&cloaks, wid),
        "neither set should give false"
    );

    mark_placement_parked(&mut cloaks, wid);
    assert!(
        is_placement_cloaked(&cloaks, wid),
        "global only should give true"
    );

    mark_ghost_cloaked(&mut cloaks, wid);
    assert!(
        is_placement_cloaked(&cloaks, wid),
        "both sets should give true"
    );

    cloaks.placement.remove(&wid);
    assert!(
        is_placement_cloaked(&cloaks, wid),
        "ghost only should give true"
    );

    unmark_ghost_cloaked(&mut cloaks, wid);
    assert!(
        !is_placement_cloaked(&cloaks, wid),
        "neither again should give false"
    );
}

#[test]
fn test_skip_visible_tiled_maximized_recovers_only_after_position_succeeds() {
    let wid: WindowId = 0xFFFF_FFFF_FFFF_FF10;
    let visible_tiled = WindowPlacement {
        window_id: wid,
        rect: Rect::new(0, 0, 800, 600),
        visibility: Visibility::Visible,
        column_index: 0,
    };
    let landing_flags = PositionFlags {
        no_size: true,
        no_zorder: true,
        no_activate: true,
        frame_changed: false,
        async_position: false,
    };
    let mut cloaks = CloakRegistry::new();

    let mut cache = PlacementCache::new();
    assert!(!skip_visible_tiled_maximized(
        &visible_tiled,
        false,
        Some(&mut cache),
    ));
    let offscreen = WindowPlacement {
        visibility: Visibility::OffScreenLeft,
        ..visible_tiled
    };
    assert!(!skip_visible_tiled_maximized(&offscreen, true, None));

    cache
        .positions
        .insert(wid, (visible_tiled.rect, Visibility::Visible));
    mark_placement_parked(&mut cloaks, wid);
    assert!(skip_visible_tiled_maximized(
        &visible_tiled,
        true,
        Some(&mut cache),
    ));
    // The handle is invalid, so the recovery that follows a skip is refused.
    assert!(!recover_placement_parked(&mut cloaks, wid, false, |_| false));
    assert!(
        is_placement_parked(&cloaks, wid) && is_placement_cloaked(&cloaks, wid),
        "invalid recovery must retain placement ownership and its effective cloak"
    );
    assert!(
        !cache.positions.contains_key(&wid),
        "failed recovery may invalidate the position cache"
    );
    assert!(!recover_placement_parked(&mut cloaks, wid, false, |_| false));
    assert!(
        is_placement_parked(&cloaks, wid) && is_placement_cloaked(&cloaks, wid),
        "failed positioning must preserve placement ownership and its effective cloak"
    );

    assert!(recover_placement_parked(&mut cloaks, wid, false, |flags| {
        flags == landing_flags
    }));
    assert!(
        !is_placement_parked(&cloaks, wid),
        "successful landing recovery releases placement ownership exactly once"
    );
    assert!(!recover_placement_parked(&mut cloaks, wid, false, |_| true));

    mark_placement_parked(&mut cloaks, wid);
    mark_ghost_cloaked(&mut cloaks, wid);
    assert!(recover_placement_parked(&mut cloaks, wid, true, |flags| {
        flags
            == PositionFlags {
                async_position: true,
                ..landing_flags
            }
    }));
    assert!(!is_placement_parked(&cloaks, wid));
    assert!(
        is_placement_cloaked(&cloaks, wid),
        "successful recovery must retain a ghost-owned effective cloak"
    );
    unmark_ghost_cloaked(&mut cloaks, wid);
    assert!(!is_placement_cloaked(&cloaks, wid));
}

#[test]
fn only_live_windows_have_their_cloak_committed() {
    let mut cloaks = CloakRegistry::new();
    assert_eq!(apply_cloak_state(&cloaks, 5, true), Some(false));
    assert_eq!(apply_cloak_state(&cloaks, 5, false), None);
    mark_placement_parked(&mut cloaks, 5);
    assert_eq!(apply_cloak_state(&cloaks, 5, true), Some(true));
    assert_eq!(apply_cloak_state(&cloaks, 5, false), None);
    // A direct cloak is none of placement's business.
    dwm_cloak_window(&mut cloaks, 6);
    assert_eq!(apply_cloak_state(&cloaks, 6, true), Some(false));
}

#[test]
fn forced_uncloaking_reaches_every_owner_once() {
    let mut cloaks = CloakRegistry::new();
    mark_placement_parked(&mut cloaks, 1);
    mark_ghost_cloaked(&mut cloaks, 1);
    mark_ghost_cloaked(&mut cloaks, 2);
    dwm_cloak_window(&mut cloaks, 2);
    dwm_cloak_window(&mut cloaks, 3);
    let commands = dwm_uncloak_all(&mut cloaks);
    let mut ids: Vec<WindowId> = commands.iter().map(|c| c.window_id).collect();
    ids.sort();
    assert_eq!(ids, vec![1, 2, 3]);
    assert!(commands.iter().all(|c| !c.cloaked));
    assert!(cloaks.placement.is_empty() && cloaks.ghosted.is_empty() && cloaks.direct.is_empty());
    assert!(dwm_uncloak_all(&mut cloaks).is_empty());
}

#[test]
fn draining_ghost_cloaks_leaves_the_other_owners() {
    let mut cloaks = CloakRegistry::new();
    mark_placement_parked(&mut cloaks, 1);
    mark_ghost_cloaked(&mut cloaks, 1);
    mark_ghost_cloaked(&mut cloaks, 2);
    let mut ids = drain_ghost_cloaked(&mut cloaks);
    ids.sort();
    assert_eq!(ids, vec![1, 2]);
    assert!(is_placement_cloaked(&cloaks, 1));
    assert!(!is_placement_cloaked(&cloaks, 2));
    assert!(drain_ghost_cloaked(&mut cloaks).is_empty());
}

#[test]
fn frames_are_clamped_to_the_coordinate_range() {
    let insets = (7, 1, 7, 8);
    let frame = visible_rect_to_frame_rect(
        Rect::new(i32::MIN, i32::MIN + 1, i32::MAX, i32::MAX - 9),
        insets,
        false,
    );
    assert_eq!(frame, Rect::new(i32::MIN, i32::MIN, i32::MAX, i32::MAX));
    // Which is where the round trip ends.
    assert_ne!(
        frame_rect_to_visible_rect(frame, insets, false),
        Rect::new(i32::MIN, i32::MIN + 1, i32::MAX, i32::MAX - 9)
    );
}

#[test]
fn queried_bounds_give_insets() {
    let frame = ScreenRect {
        left: 100,
        top: 100,
        right: 1014,
        bottom: 809,
    };
    let visible = ScreenRect {
        left: 107,
        top: 101,
        right: 1007,
        bottom: 801,
    };
    assert_eq!(
        get_window_frame_insets(Some(frame), Some(visible)),
        Some((7, 1, 7, 8))
    );
    assert_eq!(
        get_window_invisible_insets(Some(frame), Some(visible)),
        (7, 1, 7, 8)
    );
    assert_eq!(get_window_frame_insets(None, Some(visible)), None);
    assert_eq!(get_window_frame_insets(Some(frame), None), None);
    assert_eq!(get_window_invisible_insets(Some(frame), None), (0, 0, 0, 0));
    assert_eq!(get_window_frame_insets(Some(visible), Some(frame)), None);
    // An empty rectangle has no insets.
    let empty = ScreenRect {
        left: 100,
        top: 100,
        right: 100,
        bottom: 809,
    };
    assert_eq!(get_window_frame_insets(Some(empty), Some(empty)), None);
}

#[test]
fn insets_come_from_the_nearest_cache() {
    let mut global = InsetCache::new();
    clear_inset_cache(&mut global);
    let generation = inset_cache_generation(&global);
    assert_eq!(generation, 1);
    global.insets.insert(1, (1, 1, 1, 1));
    let mut local = PlacementCache::new();
    local.insets.insert(1, (2, 2, 2, 2));
    let local = Some(local);

    let resolved = cached_border_insets(1, &local, &global).unwrap();
    assert_eq!(resolved.insets, (2, 2, 2, 2));
    assert_eq!(resolved.source, InsetSource::LocalCache);
    assert_eq!(resolved.generation, generation);
    let resolved = cached_border_insets(1, &None, &global).unwrap();
    assert_eq!(resolved.insets, (1, 1, 1, 1));
    assert_eq!(resolved.source, InsetSource::GlobalCache);
    assert!(cached_border_insets(2, &local, &global).is_none());
}

#[test]
fn eviction_reaches_both_caches() {
    let mut global = InsetCache::new();
    let mut local = PlacementCache::new();
    for id in [1, 2, 3] {
        global.insets.insert(id, (7, 0, 7, 7));
        local.insets.insert(id, (7, 0, 7, 7));
    }
    evict_cached_border_insets(&HashSet::from([1, 3]), Some(&mut local), &mut global);
    assert_eq!(global.insets.keys().copied().collect::<Vec<_>>(), vec![2]);
    assert_eq!(local.insets.keys().copied().collect::<Vec<_>>(), vec![2]);
    evict_cached_border_insets(&HashSet::from([2]), None, &mut global);
    assert!(global.insets.is_empty());
    assert_eq!(local.insets.len(), 1);
    assert_eq!(inset_cache_generation(&global), 0);
}

#[test]
fn generations_wrap_around() {
    let mut global = InsetCache::new();
    global.generation = u64::MAX;
    global.insets.insert(1, (1, 1, 1, 1));
    clear_inset_cache(&mut global);
    assert_eq!(inset_cache_generation(&global), 0);
    assert!(global.insets.is_empty());
}

#[test]
fn clearing_a_cache_keeps_the_other_half() {
    let mut cache = PlacementCache::default();
    cache
        .positions
        .insert(1, (Rect::new(0, 0, 1, 1), Visibility::Visible));
    cache.insets.insert(1, (7, 0, 7, 7));
    cache.clear();
    assert!(cache.positions.is_empty());
    assert_eq!(cache.insets.len(), 1);
    cache.clear_insets();
    assert!(cache.insets.is_empty());
}

#[test]
fn a_destroyed_window_is_no_longer_suspect() {
    let mut suspects = HashMap::from([(1, (true, false)), (2, (false, true))]);
    clear_suspected_oversize(&mut suspects, 1);
    clear_suspected_oversize(&mut suspects, 9);
    assert_eq!(suspects, HashMap::from([(2, (false, true))]));
}

#[test]
fn targets_are_matched_within_two_pixels() {
    let target = NudgeTarget {
        window_id: 1,
        x: 100,
        y: 200,
        w: 800,
        h: 600,
    };
    let exact = ScreenRect {
        left: 100,
        top: 200,
        right: 900,
        bottom: 800,
    };
    assert!(rect_matches_nudge_target(exact, &target));
    assert!(rect_matches_nudge_target(
        ScreenRect {
            left: 98,
            right: 898,
            ..exact
        },
        &target
    ));
    assert!(!rect_matches_nudge_target(
        ScreenRect { left: 97, ..exact },
        &target
    ));
    assert!(!rect_matches_nudge_target(
        ScreenRect {
            bottom: 803,
            ..exact
        },
        &target
    ));
    assert!(!rect_matches_nudge_target(
        ScreenRect {
            right: 903,
            ..exact
        },
        &target
    ));
}
