//! The state that the tray shows, and how its message loop follows it.
//!
//! The state is changed by one thread and shown by another. Every change
//! yields the message that tells the showing thread what to refresh.

use vstd::prelude::*;

use crate::text::text_of;
use crate::tooltip::chinese_tooltip;
use crate::tooltip::english_tooltip;
use crate::tooltip::format_tooltip_text;
use crate::tooltip::format_tooltip_text_zh;
use crate::tray_menu::checks_follow;
use crate::tray_menu::initial_tooltip;
use crate::tray_menu::initial_tooltip_text;
use crate::tray_menu::menu_checks;
use crate::tray_menu::pause_label;
use crate::tray_menu::pause_text;
use crate::tray_menu::update_label;
use crate::tray_menu::update_text;
use crate::tray_menu::MenuCheck;
use crate::tray_settings::speaks_chinese;
use crate::tray_settings::use_chinese;
use crate::tray_settings::QuickToggleState;

verus! {

/// Ends the message loop.
pub const WM_QUIT: u32 = 0x0012;

/// Tells the loop to show the tooltip.
pub const WM_APP_UPDATE_TOOLTIP: u32 = 0x8000;

/// Tells the loop to show the pause text.
pub const WM_APP_UPDATE_PAUSE: u32 = 0x8001;

/// Tells the loop to show the check marks.
pub const WM_APP_UPDATE_TOGGLES: u32 = 0x8002;

/// Tells the loop to show the update status.
pub const WM_APP_UPDATE_RELEASE_INFO: u32 = 0x8003;

/// The state that the tray shows.
#[derive(Debug)]
pub struct TrayManager {
    use_chinese: bool,
    active_workspace: u8,
    paused: bool,
    tooltip_text: String,
    toggles: QuickToggleState,
    available_update: Option<String>,
}

/// The mathematical content of a `TrayManager`.
#[verifier::ext_equal]
pub struct Tray {
    pub use_chinese: bool,
    pub active_workspace: u8,
    pub paused: bool,
    pub tooltip_text: Seq<char>,
    pub toggles: QuickToggleState,
    /// The tag of a newer release, if one was observed.
    pub available_update: Option<Seq<char>>,
}

impl View for TrayManager {
    type V = Tray;

    closed spec fn view(&self) -> Tray {
        Tray {
            use_chinese: self.use_chinese,
            active_workspace: self.active_workspace,
            paused: self.paused,
            tooltip_text: self.tooltip_text@,
            toggles: self.toggles,
            available_update: text_of(self.available_update),
        }
    }
}

/// The workspace closest to a number.
pub open spec fn clamped_workspace(workspace: u8) -> u8 {
    if workspace < 1 {
        1
    } else if workspace > 9 {
        9
    } else {
        workspace
    }
}

fn clamp_workspace(workspace: u8) -> (r: u8)
    ensures
        r == clamped_workspace(workspace),
{
    if workspace < 1 {
        1
    } else if workspace > 9 {
        9
    } else {
        workspace
    }
}

impl Tray {
    /// The state before anything is known of the windows.
    pub open spec fn initial(initial: QuickToggleState, workspace: u8, langid: u16) -> Tray {
        let zh = speaks_chinese(initial.language, langid);
        Tray {
            use_chinese: zh,
            active_workspace: clamped_workspace(workspace),
            paused: false,
            tooltip_text: initial_tooltip(zh),
            toggles: initial,
            available_update: None,
        }
    }

    /// There is an icon for the active workspace.
    pub open spec fn valid(self) -> bool {
        1 <= self.active_workspace <= 9
    }
}

impl TrayManager {
    /// The state before anything is known of the windows. `langid` is the
    /// language id of the system's user interface.
    pub fn new(initial: QuickToggleState, initial_workspace: u8, langid: u16) -> (tray: TrayManager)
        ensures
            tray@ == Tray::initial(initial, initial_workspace, langid),
            tray@.valid(),
    {
        let zh = use_chinese(initial.language, langid);
        TrayManager {
            use_chinese: zh,
            active_workspace: clamp_workspace(initial_workspace),
            paused: false,
            tooltip_text: initial_tooltip_text(zh).to_owned(),
            toggles: initial,
            available_update: None,
        }
    }

    /// The workspace that the icon is to show.
    pub fn active_workspace(&self) -> (workspace: u8)
        ensures
            workspace == self@.active_workspace,
    {
        self.active_workspace
    }

    /// Tiling was paused or resumed.
    pub fn update_pause_text(&mut self, paused: bool) -> (message: u32)
        ensures
            final(self)@ == (Tray { paused, ..old(self)@ }),
            message == WM_APP_UPDATE_PAUSE,
    {
        self.paused = paused;
        WM_APP_UPDATE_PAUSE
    }

    /// The settings changed.
    pub fn update_quick_toggles(&mut self, toggles: &QuickToggleState, langid: u16) -> (message:
        u32)
        ensures
            final(self)@ == (Tray {
                use_chinese: speaks_chinese(toggles.language, langid),
                toggles: *toggles,
                ..old(self)@
            }),
            message == WM_APP_UPDATE_TOGGLES,
    {
        self.use_chinese = use_chinese(toggles.language, langid);
        self.toggles = *toggles;
        WM_APP_UPDATE_TOGGLES
    }

    /// The windows, the monitors or the active workspace changed. If
    /// `hotkey_mismatch` is `Some((registered, requested))` and fewer hotkeys
    /// are registered than requested, the tooltip warns of it.
    pub fn update_tooltip(
        &mut self,
        window_count: usize,
        monitor_count: usize,
        paused: bool,
        hotkey_mismatch: Option<(usize, usize)>,
        active_workspace: u8,
    ) -> (message: u32)
        ensures
            final(self)@ == (Tray {
                tooltip_text: if old(self)@.use_chinese {
                    chinese_tooltip(
                        window_count,
                        monitor_count,
                        paused,
                        hotkey_mismatch,
                        active_workspace,
                    )
                } else {
                    english_tooltip(
                        window_count,
                        monitor_count,
                        paused,
                        hotkey_mismatch,
                        active_workspace,
                    )
                },
                active_workspace: clamped_workspace(active_workspace),
                ..old(self)@
            }),
            final(self)@.valid(),
            message == WM_APP_UPDATE_TOOLTIP,
    {
        self.tooltip_text =
        if self.use_chinese {
            format_tooltip_text_zh(
                window_count,
                monitor_count,
                paused,
                hotkey_mismatch,
                active_workspace,
            )
        } else {
            format_tooltip_text(
                window_count,
                monitor_count,
                paused,
                hotkey_mismatch,
                active_workspace,
            )
        };
        self.active_workspace = clamp_workspace(active_workspace);
        WM_APP_UPDATE_TOOLTIP
    }

    /// A newer release was observed, or none is known any more.
    pub fn set_available_update(&mut self, tag: Option<String>) -> (message: u32)
        ensures
            final(self)@ == (Tray { available_update: text_of(tag), ..old(self)@ }),
            message == WM_APP_UPDATE_RELEASE_INFO,
    {
        self.available_update = tag;
        WM_APP_UPDATE_RELEASE_INFO
    }
}

/// What the message loop does next.
#[allow(inconsistent_fields)]
#[derive(Debug)]
pub enum LoopStep {
    /// Leave the loop.
    Quit,
    /// Hand the message to its window.
    Dispatch,
    /// Show the tooltip, and the icon of a workspace if it changed.
    ShowTooltip { text: String, workspace: Option<u8> },
    /// Label the pause item.
    ShowPause { label: &'static str },
    /// Set the check marks.
    ShowChecks { checks: Vec<MenuCheck> },
    /// Label the update item.
    ShowUpdate { label: String },
}

/// The message loop. The language of its labels is fixed when it starts.
#[derive(Clone, Copy, Debug, PartialEq, Eq, Structural)]
pub struct TrayLoop {
    pub zh: bool,
    /// The workspace whose icon is shown.
    pub rendered_workspace: u8,
}

impl TrayLoop {
    /// The loop that shows a tray from the start.
    pub fn new(initial: &QuickToggleState, langid: u16, tray: &TrayManager) -> (tray_loop: TrayLoop)
        ensures
            tray_loop == (TrayLoop {
                zh: speaks_chinese(initial.language, langid),
                rendered_workspace: tray@.active_workspace,
            }),
    {
        TrayLoop {
            zh: use_chinese(initial.language, langid),
            rendered_workspace: tray.active_workspace,
        }
    }

    /// The step that follows a message. `received` is what taking the message
    /// returned: nothing positive means the end of the loop. `to_thread` says
    /// that the message was for no window; only such a message asks for a
    /// refresh.
    pub open spec fn follows(
        self,
        received: i32,
        to_thread: bool,
        message: u32,
        tray: Tray,
        step: LoopStep,
    ) -> bool {
        if received <= 0 {
            step is Quit
        } else if !to_thread {
            step is Dispatch
        } else if message == WM_APP_UPDATE_TOOLTIP {
            step matches LoopStep::ShowTooltip { text, workspace } && text@ == tray.tooltip_text
                && workspace == if tray.active_workspace != self.rendered_workspace {
                Some(tray.active_workspace)
            } else {
                None
            }
        } else if message == WM_APP_UPDATE_PAUSE {
            step matches LoopStep::ShowPause { label } && label@ == pause_label(
                tray.paused,
                self.zh,
            )
        } else if message == WM_APP_UPDATE_TOGGLES {
            step matches LoopStep::ShowChecks { checks } && checks_follow(checks@, tray.toggles)
        } else if message == WM_APP_UPDATE_RELEASE_INFO {
            step matches LoopStep::ShowUpdate { label } && label@ == update_label(
                tray.available_update,
                self.zh,
            )
        } else {
            step is Dispatch
        }
    }

    /// The step that follows a message.
    pub fn run_tray_thread(
        &self,
        received: i32,
        to_thread: bool,
        message: u32,
        tray: &TrayManager,
    ) -> (step: LoopStep)
        ensures
            self.follows(received, to_thread, message, tray@, step),
    {
        if received <= 0 {
            return LoopStep::Quit;
        }
        if !to_thread {
            return LoopStep::Dispatch;
        }
        if message == WM_APP_UPDATE_TOOLTIP {
            let workspace = if tray.active_workspace != self.rendered_workspace {
                Some(tray.active_workspace)
            } else {
                None
            };
            LoopStep::ShowTooltip { text: tray.tooltip_text.as_str().to_owned(), workspace }
        } else if message == WM_APP_UPDATE_PAUSE {
            LoopStep::ShowPause { label: pause_text(tray.paused, self.zh) }
        } else if message == WM_APP_UPDATE_TOGGLES {
            LoopStep::ShowChecks { checks: menu_checks(&tray.toggles) }
        } else if message == WM_APP_UPDATE_RELEASE_INFO {
            LoopStep::ShowUpdate { label: update_text(&tray.available_update, self.zh) }
        } else {
            LoopStep::Dispatch
        }
    }

    /// The icon of a workspace is now shown.
    pub fn icon_shown(&mut self, workspace: u8)
        ensures
            *final(self) == (TrayLoop { rendered_workspace: workspace, ..*old(self) }),
    {
        self.rendered_workspace = workspace;
    }
}

/// Once the icon of the active workspace is shown, it is not drawn again until
/// the workspace changes.
pub proof fn law_shown_icons_are_not_redrawn(tray_loop: TrayLoop, tray: Tray, step: LoopStep)
    requires
        tray_loop.rendered_workspace == tray.active_workspace,
        tray_loop.follows(1, true, WM_APP_UPDATE_TOOLTIP, tray, step),
    ensures
        step matches LoopStep::ShowTooltip { workspace, .. } && workspace is None,
{
}

/// Every workspace that the loop is asked to show has an icon.
pub proof fn law_shown_workspaces_have_icons(
    tray_loop: TrayLoop,
    received: i32,
    to_thread: bool,
    message: u32,
    tray: Tray,
    step: LoopStep,
)
    requires
        tray.valid(),
        tray_loop.follows(received, to_thread, message, tray, step),
    ensures
        step matches LoopStep::ShowTooltip { workspace: Some(workspace), .. } ==> 1 <= workspace
            <= 9,
{
}

/// A message for a window, and any message once the loop is over, changes
/// nothing that the tray shows.
pub proof fn law_window_messages_refresh_nothing(
    tray_loop: TrayLoop,
    received: i32,
    message: u32,
    tray: Tray,
    step: LoopStep,
)
    requires
        tray_loop.follows(received, false, message, tray, step),
    ensures
        step is Quit || step is Dispatch,
{
}

} // verus!
