use std::collections::HashMap;
use std::collections::HashSet;

use leopardwm::action::WindowAction;
use leopardwm::action::WindowEvent;
use leopardwm::action::WindowProbe;
use leopardwm::apply::apply_placements;
use leopardwm::cloak::apply_cloak_state;
use leopardwm::cloak::is_placement_cloaked;
use leopardwm::cloak::is_placement_parked;
use leopardwm::cloak::mark_ghost_cloaked;
use leopardwm::cloak::mark_placement_parked;
use leopardwm::geometry::Insets;
use leopardwm::geometry::Rect;
use leopardwm::geometry::ScreenRect;
use leopardwm::insets::clear_inset_cache;
use leopardwm::insets::PlacementCache;
use leopardwm::park::park_window_for_placement;
use leopardwm::park::ParkRun;
use leopardwm::state::SharedState;
use leopardwm::types::ApplyPlacementsResult;
use leopardwm::types::PositionFlags;
use leopardwm::types::Visibility;
use leopardwm::types::Win32Error;
use leopardwm::types::WindowId;
use leopardwm::types::WindowPlacement;
use leopardwm::types::UNTILED_COLUMN;

const SENTINEL: i32 = -32000;

#[derive(Clone)]
struct Window {
    frame: Rect,
    insets: Insets,
    min: (i32, i32),
    zoomed: bool,
    minimized: bool,
    refuses: bool,
    stays: bool,
    class: &'static str,
}

fn window() -> Window {
    Window {
        frame: Rect::new(10, 10, 300, 300),
        insets: (7, 0, 7, 7),
        min: (0, 0),
        zoomed: false,
        minimized: false,
        refuses: false,
        stays: false,
        class: "Notepad",
    }
}

struct Desktop {
    windows: HashMap<WindowId, Window>,
    cloaked: HashSet<WindowId>,
    high_contrast: bool,
    batching: bool,
    batch: Vec<WindowAction>,
    log: Vec<WindowAction>,
    clear_insets_on_flush: bool,
}

fn edges(rect: Rect) -> ScreenRect {
    ScreenRect {
        left: rect.x,
        top: rect.y,
        right: rect.x + rect.width,
        bottom: rect.y + rect.height,
    }
}

impl Desktop {
    fn new(windows: &[(WindowId, Window)]) -> Desktop {
        Desktop {
            windows: windows.iter().cloned().collect(),
            cloaked: HashSet::new(),
            high_contrast: false,
            batching: true,
            batch: Vec::new(),
            log: Vec::new(),
            clear_insets_on_flush: false,
        }
    }

    fn visible(&self, id: WindowId) -> Rect {
        let w = &self.windows[&id];
        Rect::new(
            w.frame.x + w.insets.0,
            w.frame.y + w.insets.1,
            w.frame.width - w.insets.0 - w.insets.2,
            w.frame.height - w.insets.1 - w.insets.3,
        )
    }

    fn place(&mut self, id: WindowId, x: i32, y: i32, w: i32, h: i32, flags: PositionFlags) -> bool {
        match self.windows.get_mut(&id) {
            Some(window) if !window.refuses => {
                if !window.stays {
                    window.frame.x = x;
                    window.frame.y = y;
                    if !flags.no_size {
                        window.frame.width = w.max(window.min.0);
                        window.frame.height = h.max(window.min.1);
                    }
                }
                true
            }
            _ => false,
        }
    }

    fn moves(&self, id: WindowId) -> Vec<(i32, i32, i32, i32, PositionFlags)> {
        self.log
            .iter()
            .filter_map(|action| match action {
                WindowAction::SetPosition {
                    window_id,
                    x,
                    y,
                    w,
                    h,
                    flags,
                }
                | WindowAction::DeferPosition {
                    window_id,
                    x,
                    y,
                    w,
                    h,
                    flags,
                } if *window_id == id => Some((*x, *y, *w, *h, *flags)),
                _ => None,
            })
            .collect()
    }

    fn count(&self, wanted: WindowAction) -> usize {
        self.log.iter().filter(|action| **action == wanted).count()
    }

    fn perform(&mut self, action: WindowAction, state: &mut SharedState) -> WindowEvent {
        self.log.push(action);
        match action {
            WindowAction::Continue => WindowEvent::Done,
            WindowAction::QueryHighContrast => WindowEvent::HighContrast(self.high_contrast),
            WindowAction::Probe { window_id } => {
                WindowEvent::Probed(match self.windows.get(&window_id) {
                    Some(w) if !w.minimized => {
                        if w.zoomed {
                            WindowProbe::Zoomed
                        } else {
                            WindowProbe::Normal
                        }
                    }
                    _ => WindowProbe::Unmanageable,
                })
            }
            WindowAction::SetPosition {
                window_id,
                x,
                y,
                w,
                h,
                flags,
            } => {
                if self.place(window_id, x, y, w, h, flags) {
                    WindowEvent::Moved
                } else {
                    WindowEvent::MoveRefused("access denied".to_string())
                }
            }
            WindowAction::BeginBatch { .. } => {
                self.batch.clear();
                WindowEvent::Accepted(self.batching)
            }
            WindowAction::DeferPosition { window_id, .. } => {
                self.batch.push(action);
                WindowEvent::Accepted(!self.windows[&window_id].refuses)
            }
            WindowAction::EndBatch => {
                for deferred in std::mem::take(&mut self.batch) {
                    if let WindowAction::DeferPosition {
                        window_id,
                        x,
                        y,
                        w,
                        h,
                        flags,
                    } = deferred
                    {
                        self.place(window_id, x, y, w, h, flags);
                    }
                }
                WindowEvent::Accepted(true)
            }
            WindowAction::CommitCloak { window_id } => {
                let exists = self.windows.contains_key(&window_id);
                match apply_cloak_state(&state.cloaks, window_id, exists) {
                    Some(true) => {
                        self.cloaked.insert(window_id);
                    }
                    Some(false) => {
                        self.cloaked.remove(&window_id);
                    }
                    None => {}
                }
                WindowEvent::Done
            }
            WindowAction::Reveal { window_id } => {
                self.cloaked.remove(&window_id);
                WindowEvent::Done
            }
            WindowAction::QueryFrame { window_id } => WindowEvent::Frame {
                frame: self.windows.get(&window_id).map(|w| edges(w.frame)),
                visible: self
                    .windows
                    .get(&window_id)
                    .map(|_| edges(self.visible(window_id))),
            },
            WindowAction::QueryRect { window_id } => {
                WindowEvent::Bounds(self.windows.get(&window_id).map(|w| edges(w.frame)))
            }
            WindowAction::QueryVisible { window_id } => WindowEvent::Bounds(
                self.windows
                    .get(&window_id)
                    .map(|_| edges(self.visible(window_id))),
            ),
            WindowAction::Flush => {
                if self.clear_insets_on_flush {
                    clear_inset_cache(&mut state.insets);
                }
                WindowEvent::Done
            }
            WindowAction::Sleep { .. } => WindowEvent::Done,
            WindowAction::ReadClass { window_id } => WindowEvent::Class(Some(
                self.windows
                    .get(&window_id)
                    .map(|w| w.class)
                    .unwrap_or("")
                    .to_string(),
            )),
            WindowAction::Identify { window_id } => {
                WindowEvent::Class(self.windows.get(&window_id).map(|w| w.class.to_string()))
            }
            WindowAction::Finish => unreachable!(),
        }
    }

    fn apply(
        &mut self,
        placements: &[WindowPlacement],
        cache: Option<PlacementCache>,
        nudge: bool,
        state: &mut SharedState,
    ) -> (ApplyPlacementsResult, Option<PlacementCache>) {
        self.log.clear();
        let mut pass = apply_placements(placements.to_vec(), cache, nudge, SENTINEL, state);
        loop {
            let action = pass.pending();
            if action == WindowAction::Finish {
                break;
            }
            let event = self.perform(action, state);
            assert!(pass.admits(&event), "{:?} {:?}", action, event);
            pass.answer(state, event);
        }
        pass.finish()
    }

    fn park(&mut self, id: WindowId, state: &mut SharedState) -> Result<(), Win32Error> {
        self.log.clear();
        let mut run: ParkRun = park_window_for_placement(&mut state.cloaks, id, SENTINEL);
        loop {
            if let Some(outcome) = run.outcome() {
                return outcome;
            }
            let action = run.pending();
            let event = self.perform(action, state);
            assert!(run.admits(&event));
            run.answer(&mut state.cloaks, event);
        }
    }
}

fn tiled(id: WindowId, x: i32) -> WindowPlacement {
    WindowPlacement {
        window_id: id,
        rect: Rect::new(x, 0, 400, 600),
        visibility: Visibility::Visible,
        column_index: 0,
    }
}

fn hidden(id: WindowId) -> WindowPlacement {
    WindowPlacement {
        visibility: Visibility::OffScreenRight,
        ..tiled(id, 5000)
    }
}

#[test]
fn test_apply_placements_empty() {
    let mut desktop = Desktop::new(&[]);
    let mut state = SharedState::new();
    let (result, cache) = desktop.apply(&[], None, false, &mut state);
    assert!(result.width_violations.is_empty());
    assert!(result.height_violations.is_empty());
    assert!(result.maximized_skipped_window_ids.is_empty());
    assert!(cache.is_none());
    assert!(desktop.log.is_empty());
}

#[test]
fn test_apply_placements_skips_invalid_windows() {
    let placements = vec![WindowPlacement {
        window_id: 0,
        rect: Rect::new(0, 0, 800, 600),
        visibility: Visibility::OffScreenLeft,
        column_index: 0,
    }];
    let mut desktop = Desktop::new(&[]);
    let mut state = SharedState::new();
    let (result, _) = desktop.apply(&placements, None, false, &mut state);
    assert!(result.width_violations.is_empty());
    assert!(desktop.moves(0).is_empty());
    assert!(!is_placement_parked(&state.cloaks, 0));
}

#[test]
fn an_empty_layout_gives_up_every_parked_window() {
    let mut desktop = Desktop::new(&[(1, window()), (2, window())]);
    let mut state = SharedState::new();
    mark_placement_parked(&mut state.cloaks, 1);
    mark_placement_parked(&mut state.cloaks, 2);
    mark_ghost_cloaked(&mut state.cloaks, 2);
    desktop.cloaked = HashSet::from([1, 2]);
    let mut cache = PlacementCache::new();
    cache
        .positions
        .insert(1, (Rect::new(0, 0, 1, 1), Visibility::Visible));
    cache.insets.insert(1, (7, 0, 7, 7));
    let (_, cache) = desktop.apply(&[], Some(cache), false, &mut state);
    let cache = cache.unwrap();
    assert!(cache.positions.is_empty());
    assert_eq!(cache.insets.len(), 1);
    assert!(state.cloaks.placement.is_empty());
    assert_eq!(desktop.cloaked, HashSet::from([2]));
}

#[test]
fn a_landing_shows_the_layout_and_shares_the_insets() {
    let mut desktop = Desktop::new(&[(1, window()), (2, window())]);
    let mut state = SharedState::new();
    let (result, _) = desktop.apply(&[tiled(1, 0), tiled(2, 400)], None, false, &mut state);
    assert!(result.width_violations.is_empty());
    assert_eq!(desktop.visible(1), tiled(1, 0).rect);
    assert_eq!(desktop.visible(2), tiled(2, 400).rect);
    assert_eq!(state.insets.insets.get(&1), Some(&(7, 0, 7, 7)));
    let flags = PositionFlags {
        no_size: false,
        no_zorder: true,
        no_activate: true,
        frame_changed: true,
        async_position: false,
    };
    assert_eq!(desktop.moves(2), vec![(393, 0, 414, 607, flags)]);
    assert_eq!(desktop.count(WindowAction::Flush), 1);

    // The second landing does not ask for the bounds again.
    desktop.apply(&[tiled(1, 0), tiled(2, 400)], None, false, &mut state);
    assert_eq!(desktop.count(WindowAction::QueryFrame { window_id: 1 }), 0);
    assert_eq!(desktop.visible(1), tiled(1, 0).rect);
}

#[test]
fn high_contrast_asks_for_no_bounds_and_shares_nothing() {
    let mut desktop = Desktop::new(&[(1, window())]);
    desktop.high_contrast = true;
    let mut state = SharedState::new();
    desktop.apply(&[tiled(1, 0)], None, false, &mut state);
    assert_eq!(desktop.windows[&1].frame, tiled(1, 0).rect);
    assert_eq!(desktop.count(WindowAction::QueryFrame { window_id: 1 }), 0);
    assert!(state.insets.insets.is_empty());
}

#[test]
fn off_screen_windows_are_parked_and_return() {
    let mut desktop = Desktop::new(&[(1, window()), (2, window())]);
    let mut state = SharedState::new();
    desktop.apply(&[tiled(1, 0), hidden(2)], None, false, &mut state);
    assert!(is_placement_parked(&state.cloaks, 2));
    assert!(!is_placement_parked(&state.cloaks, 1));
    assert_eq!(desktop.cloaked, HashSet::from([2]));
    let moves = desktop.moves(2);
    assert_eq!(moves.len(), 1);
    assert!(moves[0].4.no_size && !moves[0].4.frame_changed);
    assert_eq!((moves[0].0, moves[0].1, moves[0].3), (SENTINEL, SENTINEL, 0));
    assert_eq!(
        desktop.windows[&2].frame,
        Rect::new(SENTINEL, SENTINEL, 300, 300)
    );

    desktop.apply(&[tiled(1, 0), tiled(2, 400)], None, false, &mut state);
    assert!(!is_placement_parked(&state.cloaks, 2));
    assert!(desktop.cloaked.is_empty());
    let reveal = desktop
        .log
        .iter()
        .position(|a| *a == WindowAction::Reveal { window_id: 2 })
        .unwrap();
    let batch = desktop
        .log
        .iter()
        .position(|a| matches!(a, WindowAction::BeginBatch { count: 2 }))
        .unwrap();
    assert!(reveal < batch, "revealed before it is moved");
}

#[test]
fn windows_that_left_the_layout_are_given_up() {
    let mut desktop = Desktop::new(&[(1, window()), (2, window())]);
    let mut state = SharedState::new();
    desktop.apply(&[tiled(1, 0), hidden(2)], None, false, &mut state);
    desktop.apply(&[tiled(1, 0)], None, false, &mut state);
    assert!(!is_placement_parked(&state.cloaks, 2));
    assert!(desktop.cloaked.is_empty());
}

#[test]
fn a_ghosted_window_is_not_revealed() {
    let mut desktop = Desktop::new(&[(1, window())]);
    let mut state = SharedState::new();
    desktop.apply(&[hidden(1)], None, false, &mut state);
    mark_ghost_cloaked(&mut state.cloaks, 1);
    desktop.apply(&[tiled(1, 0)], None, false, &mut state);
    assert_eq!(desktop.count(WindowAction::Reveal { window_id: 1 }), 0);
    assert!(!is_placement_parked(&state.cloaks, 1));
    assert!(is_placement_cloaked(&state.cloaks, 1));
    assert_eq!(desktop.cloaked, HashSet::from([1]));
}

#[test]
fn a_window_that_refuses_stays_parked_and_is_not_remembered() {
    let mut desktop = Desktop::new(&[(1, window()), (2, window())]);
    let mut state = SharedState::new();
    desktop.apply(&[tiled(1, 0), hidden(2)], None, false, &mut state);
    desktop.windows.get_mut(&2).unwrap().refuses = true;
    let (_, cache) = desktop.apply(
        &[tiled(1, 0), tiled(2, 400)],
        Some(PlacementCache::new()),
        false,
        &mut state,
    );
    // The batch broke at the second window, so both were asked on their own.
    assert_eq!(desktop.moves(1).len(), 2);
    assert!(is_placement_parked(&state.cloaks, 2));
    assert_eq!(desktop.cloaked, HashSet::from([2]));
    let cache = cache.unwrap();
    assert!(cache.positions.contains_key(&1));
    assert!(!cache.positions.contains_key(&2));
}

#[test]
fn a_window_that_did_not_arrive_stays_parked() {
    let mut desktop = Desktop::new(&[(1, window())]);
    let mut state = SharedState::new();
    desktop.apply(&[hidden(1)], None, false, &mut state);
    desktop.windows.get_mut(&1).unwrap().stays = true;
    let cache = Some(PlacementCache::new());
    let (_, cache) = desktop.apply(&[tiled(1, 0)], cache, false, &mut state);
    assert!(is_placement_parked(&state.cloaks, 1));
    assert_eq!(desktop.cloaked, HashSet::from([1]));

    // The next frame moves it again, though the worker remembers it there.
    desktop.windows.get_mut(&1).unwrap().stays = false;
    assert!(cache.as_ref().unwrap().positions.contains_key(&1));
    desktop.apply(&[tiled(1, 0)], cache, false, &mut state);
    assert_eq!(desktop.moves(1).len(), 1);
    assert!(!is_placement_parked(&state.cloaks, 1));
    assert!(desktop.cloaked.is_empty());
}

#[test]
fn animation_frames_skip_what_did_not_change() {
    let mut desktop = Desktop::new(&[(1, window()), (2, window())]);
    let mut state = SharedState::new();
    let cache = Some(PlacementCache::new());
    let (_, cache) = desktop.apply(&[tiled(1, 0), tiled(2, 400)], cache, true, &mut state);
    let first = desktop.moves(1);
    assert_eq!(first.len(), 1);
    assert!(first[0].4.async_position && first[0].4.frame_changed);
    assert_eq!(desktop.count(WindowAction::Flush), 0);

    let (_, cache) = desktop.apply(&[tiled(1, 0), tiled(2, 401)], cache, true, &mut state);
    assert!(desktop.moves(1).is_empty());
    let second = desktop.moves(2);
    assert_eq!(second.len(), 1);
    assert!(second[0].4.async_position && !second[0].4.frame_changed);

    // A window that left the layout is forgotten, insets included.
    let (_, cache) = desktop.apply(&[tiled(2, 401)], cache, true, &mut state);
    let cache = cache.unwrap();
    assert_eq!(cache.positions.len(), 1);
    assert_eq!(cache.insets.len(), 1);
    assert!(cache.insets.contains_key(&2));
}

#[test]
fn a_refused_batch_is_repeated_one_by_one() {
    let mut desktop = Desktop::new(&[(1, window()), (2, window())]);
    desktop.batching = false;
    let mut state = SharedState::new();
    desktop.apply(&[tiled(1, 0), tiled(2, 400)], None, false, &mut state);
    assert_eq!(desktop.visible(2), tiled(2, 400).rect);
    assert_eq!(desktop.count(WindowAction::EndBatch), 0);
}

#[test]
fn stale_insets_are_evicted_and_the_landing_repeated() {
    let mut desktop = Desktop::new(&[(1, window())]);
    desktop.windows.get_mut(&1).unwrap().insets = (0, 0, 0, 0);
    let mut state = SharedState::new();
    state.insets.insets.insert(1, (7, 0, 7, 7));
    let (result, _) = desktop.apply(&[tiled(1, 0)], None, false, &mut state);
    assert!(result.width_violations.is_empty());
    assert!(result.height_violations.is_empty());
    assert_eq!(desktop.count(WindowAction::QueryHighContrast), 2);
    assert_eq!(desktop.visible(1), tiled(1, 0).rect);
    // Empty insets are not worth sharing.
    assert!(!state.insets.insets.contains_key(&1));
}

#[test]
fn a_small_minimum_is_reported_at_once() {
    let mut desktop = Desktop::new(&[(1, window())]);
    desktop.windows.get_mut(&1).unwrap().min = (514, 0);
    let mut state = SharedState::new();
    let (result, _) = desktop.apply(&[tiled(1, 0)], None, false, &mut state);
    assert_eq!(desktop.count(WindowAction::QueryHighContrast), 1);
    assert_eq!(result.width_violations.len(), 1);
    assert_eq!(result.width_violations[0].window_id, 1);
    assert_eq!(result.width_violations[0].min_width, 500);
    assert!(result.height_violations.is_empty());
    assert!(
        !state.insets.insets.contains_key(&1),
        "insets of a violating window are not kept"
    );
}

#[test]
fn a_large_minimum_is_confirmed_by_a_second_landing() {
    let mut desktop = Desktop::new(&[(1, window())]);
    desktop.windows.get_mut(&1).unwrap().min = (0, 1007);
    let mut state = SharedState::new();
    let (result, _) = desktop.apply(&[tiled(1, 0)], None, false, &mut state);
    assert_eq!(desktop.count(WindowAction::QueryHighContrast), 2);
    assert_eq!(result.height_violations.len(), 1);
    assert_eq!(result.height_violations[0].min_height, 1000);
    assert!(state.suspects.is_empty());
}

#[test]
fn an_absurd_size_is_not_believed() {
    let mut desktop = Desktop::new(&[(1, window())]);
    desktop.windows.get_mut(&1).unwrap().min = (4014, 0);
    let mut state = SharedState::new();
    let (result, _) = desktop.apply(&[tiled(1, 0)], None, false, &mut state);
    assert!(result.width_violations.is_empty());
    assert!(state.suspects.is_empty());
}

#[test]
fn untiled_windows_are_not_measured() {
    let mut desktop = Desktop::new(&[(1, window())]);
    desktop.windows.get_mut(&1).unwrap().min = (514, 0);
    let mut state = SharedState::new();
    let floating = WindowPlacement {
        column_index: UNTILED_COLUMN,
        ..tiled(1, 0)
    };
    let (result, _) = desktop.apply(&[floating], None, false, &mut state);
    assert!(result.width_violations.is_empty());
    assert_eq!(desktop.count(WindowAction::QueryVisible { window_id: 1 }), 0);
}

#[test]
fn insets_measured_before_an_invalidation_are_not_shared_after_it() {
    let mut desktop = Desktop::new(&[(1, window())]);
    desktop.clear_insets_on_flush = true;
    let mut state = SharedState::new();
    desktop.apply(&[tiled(1, 0)], None, false, &mut state);
    assert_eq!(state.insets.generation, 1);
    assert!(state.insets.insets.is_empty());
}

#[test]
fn maximized_windows_are_reported_and_recovered() {
    let mut desktop = Desktop::new(&[(1, window()), (2, window())]);
    let mut state = SharedState::new();
    desktop.apply(&[tiled(1, 0), hidden(2)], None, false, &mut state);
    desktop.windows.get_mut(&1).unwrap().zoomed = true;
    desktop.windows.get_mut(&2).unwrap().zoomed = true;
    let (result, _) = desktop.apply(&[tiled(1, 0), tiled(2, 400)], None, false, &mut state);
    assert_eq!(result.maximized_skipped_window_ids, vec![1, 2]);
    assert!(desktop.moves(1).is_empty());
    let moves = desktop.moves(2);
    assert_eq!(moves.len(), 1);
    assert_eq!((moves[0].0, moves[0].1, moves[0].2, moves[0].3), (400, 0, 0, 0));
    assert!(moves[0].4.no_size);
    assert!(!is_placement_parked(&state.cloaks, 2));
    assert!(desktop.cloaked.is_empty());
}

#[test]
fn every_placement_falls_into_one_class() {
    let mut zoomed = window();
    zoomed.zoomed = true;
    let mut minimized = window();
    minimized.minimized = true;
    let mut desktop = Desktop::new(&[
        (1, window()),
        (2, zoomed.clone()),
        (3, zoomed),
        (4, window()),
        (5, minimized),
        (7, window()),
    ]);
    let mut state = SharedState::new();
    let cache = Some(PlacementCache::new());
    let (_, cache) = desktop.apply(&[tiled(7, 0)], cache, false, &mut state);

    let layout = vec![
        tiled(4, 100),
        tiled(9, 200),
        tiled(3, 300),
        tiled(7, 0),
        tiled(1, 400),
        tiled(5, 500),
        tiled(2, 600),
    ];
    desktop.log.clear();
    let mut pass = apply_placements(layout, cache, false, SENTINEL, &mut state);
    while pass.pending() != WindowAction::Finish {
        let action = pass.pending();
        let event = desktop.perform(action, &mut state);
        pass.answer(&mut state, event);
    }
    let deferred: Vec<WindowId> = desktop
        .log
        .iter()
        .filter_map(|action| match action {
            WindowAction::DeferPosition { window_id, .. } => Some(*window_id),
            _ => None,
        })
        .collect();
    assert_eq!(deferred, vec![4, 1]);
    assert_eq!((pass.applied(), pass.skipped()), (2, 1));
    let (result, _) = pass.finish();
    assert_eq!(result.maximized_skipped_window_ids, vec![3, 2]);
}

#[test]
fn a_maximized_window_that_refuses_keeps_its_owner() {
    let mut desktop = Desktop::new(&[(2, window())]);
    let mut state = SharedState::new();
    desktop.apply(&[hidden(2)], None, false, &mut state);
    desktop.windows.get_mut(&2).unwrap().zoomed = true;
    desktop.windows.get_mut(&2).unwrap().refuses = true;
    let (result, _) = desktop.apply(&[tiled(2, 400)], None, false, &mut state);
    assert_eq!(result.maximized_skipped_window_ids, vec![2]);
    assert!(is_placement_parked(&state.cloaks, 2));
    assert_eq!(desktop.cloaked, HashSet::from([2]));
}

#[test]
fn an_off_screen_maximized_window_is_moved() {
    let mut desktop = Desktop::new(&[(2, window())]);
    desktop.windows.get_mut(&2).unwrap().zoomed = true;
    let mut state = SharedState::new();
    let (result, _) = desktop.apply(&[hidden(2)], None, false, &mut state);
    assert!(result.maximized_skipped_window_ids.is_empty());
    let moves = desktop.moves(2);
    assert_eq!(moves.len(), 1);
    assert_eq!((moves[0].0, moves[0].1), (SENTINEL, SENTINEL));
}

#[test]
fn off_screen_windows_go_to_the_sentinel_wherever_the_layout_has_them() {
    for (high_contrast, batching, worker) in [
        (true, true, false),
        (false, true, true),
        (false, false, false),
        (true, false, true),
    ] {
        for visibility in [Visibility::OffScreenLeft, Visibility::OffScreenRight] {
            let mut desktop = Desktop::new(&[(1, window())]);
            desktop.high_contrast = high_contrast;
            desktop.batching = batching;
            let mut state = SharedState::new();
            let placement = WindowPlacement {
                window_id: 1,
                rect: Rect::new(10, 20, 400, 600),
                visibility,
                column_index: 0,
            };
            let cache = worker.then(PlacementCache::new);
            desktop.apply(&[placement], cache, false, &mut state);
            let moves = desktop.moves(1);
            assert_eq!(moves.len(), 1);
            assert_eq!((moves[0].0, moves[0].1), (SENTINEL, SENTINEL));
            assert!(moves[0].4.no_size);
            assert_eq!(moves[0].4.async_position, worker);
            assert_eq!(
                desktop.windows[&1].frame,
                Rect::new(SENTINEL, SENTINEL, 300, 300)
            );
            assert!(is_placement_parked(&state.cloaks, 1));
        }
    }
}

#[test]
fn minimized_windows_are_left_alone() {
    let mut desktop = Desktop::new(&[(1, window())]);
    desktop.windows.get_mut(&1).unwrap().minimized = true;
    let mut state = SharedState::new();
    desktop.apply(&[tiled(1, 0)], None, false, &mut state);
    assert!(desktop.moves(1).is_empty());
}

#[test]
fn sticky_compositors_are_nudged_twice() {
    let mut desktop = Desktop::new(&[(1, window()), (2, window())]);
    desktop.windows.get_mut(&1).unwrap().class = "Chrome_WidgetWin_1";
    let mut state = SharedState::new();
    desktop.apply(&[tiled(1, 0), tiled(2, 400)], None, true, &mut state);
    let widths: Vec<i32> = desktop.moves(1).iter().map(|m| m.2).collect();
    assert_eq!(widths, vec![414, 413, 414, 413, 414]);
    assert_eq!(desktop.moves(2).len(), 1);
    assert_eq!(desktop.count(WindowAction::Sleep { millis: 16 }), 1);
    assert_eq!(desktop.count(WindowAction::Sleep { millis: 48 }), 0);
    assert_eq!(desktop.visible(1), tiled(1, 0).rect);

    // Only where wanted, and only on a landing.
    desktop.apply(&[tiled(1, 0)], None, false, &mut state);
    assert_eq!(desktop.moves(1).len(), 1);
    desktop.apply(&[tiled(1, 0)], Some(PlacementCache::new()), true, &mut state);
    assert_eq!(desktop.moves(1).len(), 1);
}

#[test]
fn delayed_geometry_is_settled() {
    let mut desktop = Desktop::new(&[(1, window())]);
    desktop.windows.get_mut(&1).unwrap().class = "ApplicationFrameWindow";
    let mut state = SharedState::new();
    desktop.apply(&[tiled(1, 0)], None, true, &mut state);
    let widths: Vec<i32> = desktop.moves(1).iter().map(|m| m.2).collect();
    assert_eq!(widths, vec![414, 413, 414, 413, 414, 413, 414]);
    assert_eq!(desktop.count(WindowAction::Sleep { millis: 16 }), 1);
    assert_eq!(desktop.count(WindowAction::Sleep { millis: 48 }), 1);
    assert_eq!(desktop.count(WindowAction::Sleep { millis: 240 }), 1);
    assert_eq!(desktop.count(WindowAction::QueryRect { window_id: 1 }), 1);
}

#[test]
fn a_parked_window_that_never_settles_keeps_its_owner() {
    let mut desktop = Desktop::new(&[(1, window())]);
    desktop.windows.get_mut(&1).unwrap().class = "ApplicationFrameWindow";
    let mut state = SharedState::new();
    desktop.apply(&[hidden(1)], None, false, &mut state);
    desktop.windows.get_mut(&1).unwrap().stays = true;
    desktop.apply(&[tiled(1, 0)], None, true, &mut state);
    // One rest between the rounds, one after each of the three attempts.
    assert_eq!(desktop.count(WindowAction::Sleep { millis: 16 }), 4);
    assert!(is_placement_parked(&state.cloaks, 1));
    assert_eq!(desktop.cloaked, HashSet::from([1]));
}

#[test]
fn parking_reaches_the_sentinel() {
    let mut desktop = Desktop::new(&[(1, window())]);
    let mut state = SharedState::new();
    assert!(desktop.park(1, &mut state).is_ok());
    assert!(is_placement_parked(&state.cloaks, 1));
    assert_eq!(desktop.cloaked, HashSet::from([1]));
    assert_eq!(desktop.windows[&1].frame, Rect::new(SENTINEL, SENTINEL, 300, 300));
    assert_eq!(desktop.moves(1).len(), 1);
}

#[test]
fn parking_that_is_always_refused_is_rolled_back() {
    let mut desktop = Desktop::new(&[(77, window())]);
    desktop.windows.get_mut(&77).unwrap().refuses = true;
    let mut state = SharedState::new();
    match desktop.park(77, &mut state) {
        Err(Win32Error::SetPositionFailed(text)) => assert_eq!(
            text,
            "Failed to park window 77 for placement after 3 attempts: access denied"
        ),
        Ok(()) => panic!("parked"),
    }
    assert_eq!(desktop.moves(77).len(), 3);
    assert!(!is_placement_parked(&state.cloaks, 77));
    assert!(desktop.cloaked.is_empty());
}

#[test]
fn parking_that_was_accepted_once_keeps_the_window() {
    let mut desktop = Desktop::new(&[(5, window())]);
    desktop.windows.get_mut(&5).unwrap().stays = true;
    let mut state = SharedState::new();
    match desktop.park(5, &mut state) {
        Err(Win32Error::SetPositionFailed(text)) => assert_eq!(
            text,
            "Failed to park window 5 for placement after 3 attempts: \
             window rectangle did not reach the off-screen sentinel"
        ),
        Ok(()) => panic!("parked"),
    }
    assert!(is_placement_parked(&state.cloaks, 5));
    assert_eq!(desktop.count(WindowAction::Flush), 3);
}

#[test]
fn a_workspace_switch_returns_what_it_parked() {
    let mut desktop = Desktop::new(&[(1, window())]);
    let mut state = SharedState::new();
    let cache = Some(PlacementCache::new());
    let (_, cache) = desktop.apply(&[tiled(1, 0)], cache, false, &mut state);
    desktop.park(1, &mut state).unwrap();
    // The worker still remembers the window where it was, but placement owns it.
    desktop.apply(&[tiled(1, 0)], cache, false, &mut state);
    assert_eq!(desktop.visible(1), tiled(1, 0).rect);
    assert!(!is_placement_parked(&state.cloaks, 1));
    assert!(desktop.cloaked.is_empty());
}

#[test]
fn events_that_do_not_fit_are_not_admitted() {
    let mut state = SharedState::new();
    let pass = apply_placements(vec![tiled(1, 0)], None, false, SENTINEL, &mut state);
    assert!(pass.admits(&WindowEvent::HighContrast(true)));
    assert!(!pass.admits(&WindowEvent::Done));

    // A rectangle whose width cannot be represented.
    let mut pass = pass;
    pass.answer(&mut state, WindowEvent::HighContrast(false));
    pass.answer(&mut state, WindowEvent::Probed(WindowProbe::Normal));
    assert_eq!(pass.pending(), WindowAction::QueryFrame { window_id: 1 });
    let wide = ScreenRect {
        left: i32::MIN,
        top: 0,
        right: i32::MAX,
        bottom: 10,
    };
    assert!(!pass.admits(&WindowEvent::Frame {
        frame: Some(wide),
        visible: Some(wide)
    }));
    assert!(pass.admits(&WindowEvent::Frame {
        frame: Some(wide),
        visible: None
    }));
}
