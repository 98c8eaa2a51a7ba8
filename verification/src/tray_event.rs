//! What the user asks for through the tray.

use vstd::prelude::*;

use crate::menu_ids;
use crate::text::same_text;

verus! {

/// Events emitted by the tray icon.
#[derive(Debug, Clone, Copy, PartialEq, Eq, Structural)]
pub enum TrayEvent {
    /// "Refresh Windows" was clicked.
    Refresh,
    /// "Reload Config" was clicked.
    Reload,
    /// "Exit" was clicked.
    Exit,
    /// "Pause/Resume Tiling" was clicked.
    TogglePause,
    /// "Settings" was clicked.
    OpenConfig,
    /// The title was clicked.
    OpenAbout,
    /// "Edit Config" was clicked.
    EditConfig,
    /// "View Logs" was clicked.
    ViewLogs,
    /// "Release All Windows" was clicked.
    ReleaseAllWindows,
    /// "Active Border" was toggled.
    ToggleActiveBorder,
    /// "Focus New Windows" was toggled.
    ToggleFocusNewWindows,
    /// "Focus Follows Mouse" was toggled.
    ToggleFocusFollowsMouse,
    /// "Hide Off-Screen Taskbar Buttons" was toggled.
    ToggleHideOffscreenTaskbar,
    /// "Start with Windows" was toggled.
    ToggleAutoStart,
    /// The centering mode "Center" was selected.
    SetCenteringCenter,
    /// The centering mode "Just in View" was selected.
    SetCenteringJustInView,
    /// The centering mode "On Overflow" was selected.
    SetCenteringOnOverflow,
    /// The new-window placement "New Column" was selected.
    SetPlacementNewColumn,
    /// The new-window placement "In Focused Column" was selected.
    SetPlacementInColumn,
    /// "Check for Updates" or "Update available" was clicked.
    OpenReleasesPage,
}

/// The id of the menu item that emits an event.
pub open spec fn id_of(event: TrayEvent) -> Seq<char> {
    match event {
        TrayEvent::Refresh => menu_ids::REFRESH@,
        TrayEvent::Reload => menu_ids::RELOAD@,
        TrayEvent::Exit => menu_ids::EXIT@,
        TrayEvent::TogglePause => menu_ids::TOGGLE_PAUSE@,
        TrayEvent::OpenConfig => menu_ids::OPEN_CONFIG@,
        TrayEvent::OpenAbout => menu_ids::OPEN_ABOUT@,
        TrayEvent::EditConfig => menu_ids::EDIT_CONFIG@,
        TrayEvent::ViewLogs => menu_ids::VIEW_LOGS@,
        TrayEvent::ReleaseAllWindows => menu_ids::RELEASE_ALL_WINDOWS@,
        TrayEvent::ToggleActiveBorder => menu_ids::TOGGLE_ACTIVE_BORDER@,
        TrayEvent::ToggleFocusNewWindows => menu_ids::TOGGLE_FOCUS_NEW_WINDOWS@,
        TrayEvent::ToggleFocusFollowsMouse => menu_ids::TOGGLE_FOCUS_FOLLOWS_MOUSE@,
        TrayEvent::ToggleHideOffscreenTaskbar => menu_ids::TOGGLE_HIDE_OFFSCREEN_TASKBAR@,
        TrayEvent::ToggleAutoStart => menu_ids::TOGGLE_AUTO_START@,
        TrayEvent::SetCenteringCenter => menu_ids::CENTERING_CENTER@,
        TrayEvent::SetCenteringJustInView => menu_ids::CENTERING_JUST_IN_VIEW@,
        TrayEvent::SetCenteringOnOverflow => menu_ids::CENTERING_ON_OVERFLOW@,
        TrayEvent::SetPlacementNewColumn => menu_ids::PLACEMENT_NEW_COLUMN@,
        TrayEvent::SetPlacementInColumn => menu_ids::PLACEMENT_IN_COLUMN@,
        TrayEvent::OpenReleasesPage => menu_ids::CHECK_UPDATES@,
    }
}

/// The ids differ from one another.
proof fn lemma_ids_differ(a: TrayEvent, b: TrayEvent)
    ensures
        id_of(a) == id_of(b) ==> a == b,
{
    reveal_strlit("refresh");
    reveal_strlit("reload");
    reveal_strlit("exit");
    reveal_strlit("toggle_pause");
    reveal_strlit("open_config");
    reveal_strlit("open_about");
    reveal_strlit("edit_config");
    reveal_strlit("view_logs");
    reveal_strlit("release_all_windows");
    reveal_strlit("toggle_active_border");
    reveal_strlit("toggle_focus_new_windows");
    reveal_strlit("toggle_focus_follows_mouse");
    reveal_strlit("toggle_hide_offscreen_taskbar");
    reveal_strlit("toggle_auto_start");
    reveal_strlit("centering_center");
    reveal_strlit("centering_just_in_view");
    reveal_strlit("centering_on_overflow");
    reveal_strlit("placement_new_column");
    reveal_strlit("placement_in_column");
    reveal_strlit("check_updates");
    // Ids of one length begin with different characters.
    assert(id_of(a).len() == id_of(b).len() && a != b ==> id_of(a)[0] != id_of(b)[0]);
}

/// No two menu items share an id.
pub proof fn law_menu_ids_are_distinct(a: TrayEvent, b: TrayEvent)
    requires
        a != b,
    ensures
        id_of(a) != id_of(b),
{
    lemma_ids_differ(a, b);
}

/// The event for a menu item: the one that its id belongs to, or none for an
/// id of no item.
pub fn map_menu_id_to_event(menu_id: &str) -> (event: Option<TrayEvent>)
    ensures
        forall|e: TrayEvent| event == Some(e) <==> #[trigger] id_of(e) == menu_id@,
        event is None <==> forall|e: TrayEvent| #[trigger] id_of(e) != menu_id@,
{
    proof {
        assert forall|a: TrayEvent, b: TrayEvent| #[trigger] id_of(a) == #[trigger] id_of(b) implies a
            == b by {
            lemma_ids_differ(a, b);
        }
    }
    let event = if same_text(menu_id, menu_ids::REFRESH) {
        Some(TrayEvent::Refresh)
    } else if same_text(menu_id, menu_ids::RELOAD) {
        Some(TrayEvent::Reload)
    } else if same_text(menu_id, menu_ids::EXIT) {
        Some(TrayEvent::Exit)
    } else if same_text(menu_id, menu_ids::TOGGLE_PAUSE) {
        Some(TrayEvent::TogglePause)
    } else if same_text(menu_id, menu_ids::OPEN_CONFIG) {
        Some(TrayEvent::OpenConfig)
    } else if same_text(menu_id, menu_ids::OPEN_ABOUT) {
        Some(TrayEvent::OpenAbout)
    } else if same_text(menu_id, menu_ids::EDIT_CONFIG) {
        Some(TrayEvent::EditConfig)
    } else if same_text(menu_id, menu_ids::VIEW_LOGS) {
        Some(TrayEvent::ViewLogs)
    } else if same_text(menu_id, menu_ids::RELEASE_ALL_WINDOWS) {
        Some(TrayEvent::ReleaseAllWindows)
    } else if same_text(menu_id, menu_ids::TOGGLE_ACTIVE_BORDER) {
        Some(TrayEvent::ToggleActiveBorder)
    } else if same_text(menu_id, menu_ids::TOGGLE_FOCUS_NEW_WINDOWS) {
        Some(TrayEvent::ToggleFocusNewWindows)
    } else if same_text(menu_id, menu_ids::TOGGLE_FOCUS_FOLLOWS_MOUSE) {
        Some(TrayEvent::ToggleFocusFollowsMouse)
    } else if same_text(menu_id, menu_ids::TOGGLE_HIDE_OFFSCREEN_TASKBAR) {
        Some(TrayEvent::ToggleHideOffscreenTaskbar)
    } else if same_text(menu_id, menu_ids::TOGGLE_AUTO_START) {
        Some(TrayEvent::ToggleAutoStart)
    } else if same_text(menu_id, menu_ids::CENTERING_CENTER) {
        Some(TrayEvent::SetCenteringCenter)
    } else if same_text(menu_id, menu_ids::CENTERING_JUST_IN_VIEW) {
        Some(TrayEvent::SetCenteringJustInView)
    } else if same_text(menu_id, menu_ids::CENTERING_ON_OVERFLOW) {
        Some(TrayEvent::SetCenteringOnOverflow)
    } else if same_text(menu_id, menu_ids::PLACEMENT_NEW_COLUMN) {
        Some(TrayEvent::SetPlacementNewColumn)
    } else if same_text(menu_id, menu_ids::PLACEMENT_IN_COLUMN) {
        Some(TrayEvent::SetPlacementInColumn)
    } else if same_text(menu_id, menu_ids::CHECK_UPDATES) {
        Some(TrayEvent::OpenReleasesPage)
    } else {
        None
    };
    assert(event matches Some(e) ==> id_of(e) == menu_id@);
    event
}

} // verus!
