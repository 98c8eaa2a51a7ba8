//! Menu item ids of the tray context menu.

use vstd::prelude::*;

verus! {

pub const REFRESH: &'static str = "refresh";

pub const RELOAD: &'static str = "reload";

pub const EXIT: &'static str = "exit";

pub const TOGGLE_PAUSE: &'static str = "toggle_pause";

pub const OPEN_CONFIG: &'static str = "open_config";

pub const OPEN_ABOUT: &'static str = "open_about";

pub const EDIT_CONFIG: &'static str = "edit_config";

pub const VIEW_LOGS: &'static str = "view_logs";

pub const RELEASE_ALL_WINDOWS: &'static str = "release_all_windows";

pub const TOGGLE_ACTIVE_BORDER: &'static str = "toggle_active_border";

pub const TOGGLE_FOCUS_NEW_WINDOWS: &'static str = "toggle_focus_new_windows";

pub const TOGGLE_FOCUS_FOLLOWS_MOUSE: &'static str = "toggle_focus_follows_mouse";

pub const TOGGLE_HIDE_OFFSCREEN_TASKBAR: &'static str = "toggle_hide_offscreen_taskbar";

pub const TOGGLE_AUTO_START: &'static str = "toggle_auto_start";

pub const CENTERING_CENTER: &'static str = "centering_center";

pub const CENTERING_JUST_IN_VIEW: &'static str = "centering_just_in_view";

pub const CENTERING_ON_OVERFLOW: &'static str = "centering_on_overflow";

pub const PLACEMENT_NEW_COLUMN: &'static str = "placement_new_column";

pub const PLACEMENT_IN_COLUMN: &'static str = "placement_in_column";

pub const CHECK_UPDATES: &'static str = "check_updates";

} // verus!
