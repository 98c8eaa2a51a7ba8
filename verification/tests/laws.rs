use std::collections::HashSet;

use leopardwm::action::WindowAction;
use leopardwm::action::WindowEvent;
use leopardwm::batch::PositionBatch;
use leopardwm::cloak::mark_ghost_cloaked;
use leopardwm::cloak::mark_placement_parked;
use leopardwm::cloak::release_placement_parked;
use leopardwm::cloak::CloakRegistry;
use leopardwm::entries::build_defer_entry;
use leopardwm::entries::DeferEntry;
use leopardwm::geometry::frame_insets_from_rects;
use leopardwm::geometry::visible_rect_to_frame_rect;
use leopardwm::geometry::Rect;
use leopardwm::insets::InsetSource;
use leopardwm::insets::ResolvedInsets;
use leopardwm::nudge::NudgeRun;
use leopardwm::nudge::NudgeTarget;
use leopardwm::sync::sync_cloak_state;
use leopardwm::tray_menu::build_tray;
use leopardwm::tray_menu::menu_checks;
use leopardwm::tray_menu::MenuEntry;
use leopardwm::tray_settings::Language;
use leopardwm::tray_settings::QuickToggleState;
use leopardwm::types::PositionFlags;
use leopardwm::types::Visibility;
use leopardwm::types::WindowId;
use leopardwm::types::WindowPlacement;

fn placement(id: WindowId, visibility: Visibility) -> WindowPlacement {
    WindowPlacement {
        window_id: id,
        rect: Rect::new(0, 0, 400, 300),
        visibility,
        column_index: 0,
    }
}

fn entry(id: WindowId, visibility: Visibility) -> DeferEntry {
    let resolved = ResolvedInsets {
        insets: (7, 0, 7, 7),
        source: InsetSource::Fresh,
        generation: 0,
    };
    build_defer_entry(
        &placement(id, visibility),
        &resolved,
        false,
        false,
        false,
        -32000,
    )
}

#[test]
fn applied_insets_are_recovered() {
    for insets in [(0, 0, 0, 0), (7, 0, 7, 7), (64, 64, 64, 64), (1, 2, 3, 4)] {
        let visible = Rect::new(-500, 20, 800, 600);
        let frame = visible_rect_to_frame_rect(visible, insets, false);
        assert_eq!(frame_insets_from_rects(frame, visible), Some(insets));
    }
}

#[test]
fn requests_resize_visible_windows_only() {
    let visible = entry(1, Visibility::Visible);
    assert_eq!((visible.x, visible.y, visible.w, visible.h), (-7, 0, 414, 307));
    assert!(!visible.flags.no_size && visible.flags.frame_changed);
    let hidden = entry(1, Visibility::OffScreenLeft);
    assert_eq!(
        (hidden.x, hidden.y, hidden.w, hidden.h),
        (-32000, -32000, 414, 0)
    );
    assert!(hidden.flags.no_size && !hidden.flags.frame_changed);
}

#[test]
fn syncing_twice_changes_nothing() {
    let mut cloaks = CloakRegistry::new();
    mark_placement_parked(&mut cloaks, 9);
    mark_ghost_cloaked(&mut cloaks, 3);
    let entries = vec![
        entry(1, Visibility::Visible),
        entry(2, Visibility::OffScreenLeft),
        entry(3, Visibility::OffScreenRight),
        entry(2, Visibility::OffScreenLeft),
        entry(4, Visibility::OffScreenRight),
    ];
    let placements = vec![
        placement(1, Visibility::Visible),
        placement(2, Visibility::OffScreenLeft),
        placement(3, Visibility::OffScreenRight),
        placement(4, Visibility::OffScreenRight),
    ];
    let failed = HashSet::from([4]);
    let (to_cloak, to_uncloak) = sync_cloak_state(&entries, &placements, &failed, &mut cloaks);
    assert_eq!(to_cloak, vec![2, 3]);
    assert_eq!(to_uncloak, vec![9]);
    assert_eq!(cloaks.placement, HashSet::from([2, 3]));
    assert_eq!(cloaks.ghosted, HashSet::from([3]));

    let (to_cloak, to_uncloak) = sync_cloak_state(&entries, &placements, &failed, &mut cloaks);
    assert!(to_cloak.is_empty() && to_uncloak.is_empty());
    assert_eq!(cloaks.placement, HashSet::from([2, 3]));
}

#[test]
fn releasing_undoes_parking() {
    let mut cloaks = CloakRegistry::new();
    mark_placement_parked(&mut cloaks, 1);
    assert!(release_placement_parked(&mut cloaks, 1));
    assert!(!release_placement_parked(&mut cloaks, 1));
    assert!(cloaks.placement.is_empty());
}

#[test]
fn only_refusals_fail_a_batch() {
    let entries = vec![
        entry(1, Visibility::Visible),
        entry(2, Visibility::Visible),
        entry(3, Visibility::Visible),
    ];
    let mut batch = PositionBatch::new();
    batch.begin(&entries);
    assert_eq!(batch.pending(&entries), WindowAction::BeginBatch { count: 3 });
    batch.answer(&entries, &WindowEvent::Accepted(true));
    batch.answer(&entries, &WindowEvent::Accepted(true));
    batch.answer(&entries, &WindowEvent::Accepted(false));
    batch.answer(&entries, &WindowEvent::Moved);
    batch.answer(&entries, &WindowEvent::MoveRefused("no".to_string()));
    batch.answer(&entries, &WindowEvent::Moved);
    assert_eq!(batch.pending(&entries), WindowAction::Continue);
    assert_eq!(batch.failed, HashSet::from([2]));
    assert_eq!(batch.applied, 2);

    batch.begin(&entries);
    for _ in 0..5 {
        batch.answer(&entries, &WindowEvent::Accepted(true));
    }
    assert_eq!(batch.pending(&entries), WindowAction::Continue);
    assert!(batch.failed.is_empty());
    assert_eq!(batch.applied, 3);

    batch.begin(&Vec::new());
    assert_eq!(batch.pending(&Vec::new()), WindowAction::Continue);
    assert_eq!(batch.applied, 0);
}

#[test]
fn a_finished_batch_accounts_for_every_entry() {
    let entries = vec![
        entry(1, Visibility::Visible),
        entry(2, Visibility::OffScreenLeft),
        entry(3, Visibility::Visible),
        entry(4, Visibility::Visible),
    ];
    for refused in 0..16u32 {
        let mut batch = PositionBatch::new();
        batch.begin(&entries);
        batch.answer(&entries, &WindowEvent::Accepted(false));
        for i in 0..4 {
            let refuses = refused & (1 << i) != 0;
            batch.answer(
                &entries,
                &if refuses {
                    WindowEvent::MoveRefused("no".to_string())
                } else {
                    WindowEvent::Moved
                },
            );
        }
        assert_eq!(batch.pending(&entries), WindowAction::Continue);
        assert_eq!(batch.failed.len() as u32, refused.count_ones());
        assert_eq!(batch.applied + batch.failed.len() as u32, 4);
    }
}

#[test]
fn a_shrunk_window_is_restored_next() {
    let target = |id: WindowId, x: i32| NudgeTarget {
        window_id: id,
        x,
        y: 20,
        w: 400,
        h: 300,
    };
    let moved = |id: WindowId, x: i32, w: i32| WindowAction::SetPosition {
        window_id: id,
        x,
        y: 20,
        w,
        h: 300,
        flags: PositionFlags::quiet(),
    };
    let class = || WindowEvent::Class(Some("MozillaWindowClass".to_string()));
    let mut cloaks = CloakRegistry::new();
    let mut run = NudgeRun::nudge_sticky_compositor_windows(vec![target(1, 0), target(2, 400)]);
    let mut moves = Vec::new();
    while !run.is_finished() {
        let action = run.pending();
        let event = match action {
            WindowAction::ReadClass { .. } | WindowAction::Identify { .. } => class(),
            WindowAction::SetPosition { .. } => {
                moves.push(action);
                WindowEvent::Moved
            }
            WindowAction::QueryVisible { .. } | WindowAction::QueryRect { .. } => {
                WindowEvent::Bounds(None)
            }
            _ => WindowEvent::Done,
        };
        run.answer(&mut cloaks, event);
    }
    assert_eq!(
        moves[..4],
        [
            moved(1, 0, 399),
            moved(1, 0, 400),
            moved(2, 400, 399),
            moved(2, 400, 400),
        ]
    );
    assert_eq!(moves.len() % 2, 0);
    for pair in moves.chunks(2) {
        match (pair[0], pair[1]) {
            (
                WindowAction::SetPosition { window_id, w, .. },
                WindowAction::SetPosition {
                    window_id: restored,
                    w: full,
                    ..
                },
            ) => assert_eq!((restored, full), (window_id, w + 1)),
            _ => unreachable!(),
        }
    }
}

#[test]
fn a_recycled_handle_is_left_alone() {
    let mut cloaks = CloakRegistry::new();
    let mut run = NudgeRun::nudge_sticky_compositor_windows(vec![NudgeTarget {
        window_id: 1,
        x: 0,
        y: 0,
        w: 400,
        h: 300,
    }]);
    let class = |name: &str| WindowEvent::Class(Some(name.to_string()));
    assert_eq!(run.pending(), WindowAction::ReadClass { window_id: 1 });
    run.answer(&mut cloaks, class("MozillaWindowClass"));
    assert_eq!(run.pending(), WindowAction::Identify { window_id: 1 });
    run.answer(&mut cloaks, class("MozillaWindowClass"));
    assert!(matches!(
        run.pending(),
        WindowAction::SetPosition { w: 399, .. }
    ));
    run.answer(&mut cloaks, WindowEvent::Moved);
    assert_eq!(run.pending(), WindowAction::Identify { window_id: 1 });
    run.answer(&mut cloaks, class("Notepad"));
    assert!(run.is_finished());
}

#[test]
fn an_unknown_class_is_not_resized() {
    let mut cloaks = CloakRegistry::new();
    let mut run = NudgeRun::nudge_sticky_compositor_windows(vec![NudgeTarget {
        window_id: 1,
        x: 0,
        y: 0,
        w: 400,
        h: 300,
    }]);
    run.answer(&mut cloaks, WindowEvent::Class(Some("Notepad".to_string())));
    run.answer(&mut cloaks, WindowEvent::Class(Some("Notepad".to_string())));
    assert!(run.is_finished());
    assert!(NudgeRun::nudge_sticky_compositor_windows(Vec::new()).is_finished());
}

#[test]
fn check_marks_agree_with_the_menu() {
    let settings = QuickToggleState {
        language: Language::English,
        active_border: false,
        focus_new_windows: true,
        focus_follows_mouse: false,
        hide_offscreen_taskbar: true,
        auto_start: false,
        centering_mode: 7,
        placement_mode: 0,
    };
    let mut from_menu = Vec::new();
    for entry in build_tray(&settings, true, "") {
        match entry {
            MenuEntry::Leaf(leaf) => from_menu.push((leaf.id, leaf.checked)),
            MenuEntry::Separator => {}
            MenuEntry::Submenu { items, .. } => {
                for leaf in items {
                    from_menu.push((leaf.id, leaf.checked));
                }
            }
        }
    }
    assert_eq!(from_menu.len(), 20);
    let checks = menu_checks(&settings);
    assert_eq!(checks.len(), 10);
    for check in &checks {
        assert!(from_menu.contains(&(check.id, Some(check.checked))));
    }
    // An unknown centering mode checks none of the three.
    assert_eq!(checks.iter().filter(|c| c.checked).count(), 3);
}
