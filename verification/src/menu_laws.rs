//! What the user reads in the tray menu, what a click on it asks for, and which
//! setting each check mark shows.

use vstd::prelude::*;

use crate::text::decimal;
use crate::tooltip::chinese_tooltip;
use crate::tooltip::english_tooltip;
use crate::tray_event::id_of;
use crate::tray_event::TrayEvent;
use crate::tray_manager::LoopStep;
use crate::tray_manager::Tray;
use crate::tray_manager::TrayLoop;
use crate::tray_menu::check_of;
use crate::tray_menu::checks_follow;
use crate::tray_menu::pause_label;
use crate::tray_menu::tray_menu;
use crate::tray_menu::update_label;
use crate::tray_menu::Entry;
use crate::tray_menu::Leaf;
use crate::tray_menu::MenuCheck;
use crate::tray_settings::speaks_chinese;
use crate::tray_settings::Language;
use crate::tray_settings::QuickToggleState;

verus! {

/// An item of the menu, by what is written on it.
pub open spec fn reads(
    item: Leaf,
    event: TrayEvent,
    label: Seq<char>,
    checked: Option<bool>,
) -> bool {
    item.id == id_of(event) && item.label == label && item.checked == checked
}

/// Every item has the id under which its clicks are known.
pub proof fn law_items_are_known_by_their_ids()
    ensures
        id_of(TrayEvent::Refresh) == "refresh"@,
        id_of(TrayEvent::Reload) == "reload"@,
        id_of(TrayEvent::Exit) == "exit"@,
        id_of(TrayEvent::TogglePause) == "toggle_pause"@,
        id_of(TrayEvent::OpenConfig) == "open_config"@,
        id_of(TrayEvent::OpenAbout) == "open_about"@,
        id_of(TrayEvent::EditConfig) == "edit_config"@,
        id_of(TrayEvent::ViewLogs) == "view_logs"@,
        id_of(TrayEvent::ReleaseAllWindows) == "release_all_windows"@,
        id_of(TrayEvent::ToggleActiveBorder) == "toggle_active_border"@,
        id_of(TrayEvent::ToggleFocusNewWindows) == "toggle_focus_new_windows"@,
        id_of(TrayEvent::ToggleFocusFollowsMouse) == "toggle_focus_follows_mouse"@,
        id_of(TrayEvent::ToggleHideOffscreenTaskbar) == "toggle_hide_offscreen_taskbar"@,
        id_of(TrayEvent::ToggleAutoStart) == "toggle_auto_start"@,
        id_of(TrayEvent::SetCenteringCenter) == "centering_center"@,
        id_of(TrayEvent::SetCenteringJustInView) == "centering_just_in_view"@,
        id_of(TrayEvent::SetCenteringOnOverflow) == "centering_on_overflow"@,
        id_of(TrayEvent::SetPlacementNewColumn) == "placement_new_column"@,
        id_of(TrayEvent::SetPlacementInColumn) == "placement_in_column"@,
        id_of(TrayEvent::OpenReleasesPage) == "check_updates"@,
{
}

/// The English menu, from top to bottom: what each item says, what a click on it
/// asks for, and which setting its check mark shows.
pub proof fn law_the_english_menu(initial: QuickToggleState, version: Seq<char>)
    ensures
        ({
            let menu = tray_menu(initial, false, version);
            &&& menu.len() == 21
            &&& menu[0] is Leaf && reads(
                menu[0]->Leaf_0,
                TrayEvent::OpenAbout,
                "LeopardWM v"@ + version,
                None,
            )
            &&& menu[1] == Entry::Separator
            &&& menu[2] is Leaf && reads(
                menu[2]->Leaf_0,
                TrayEvent::TogglePause,
                "Pause Tiling\tCtrl+Alt+P"@,
                None,
            )
            &&& menu[3] == Entry::Separator
            &&& menu[4] is Leaf && reads(
                menu[4]->Leaf_0,
                TrayEvent::ToggleActiveBorder,
                "Active Border"@,
                Some(initial.active_border),
            )
            &&& menu[5] is Leaf && reads(
                menu[5]->Leaf_0,
                TrayEvent::ToggleFocusNewWindows,
                "Focus New Windows"@,
                Some(initial.focus_new_windows),
            )
            &&& menu[6] is Leaf && reads(
                menu[6]->Leaf_0,
                TrayEvent::ToggleFocusFollowsMouse,
                "Focus Follows Mouse"@,
                Some(initial.focus_follows_mouse),
            )
            &&& menu[7] is Leaf && reads(
                menu[7]->Leaf_0,
                TrayEvent::ToggleHideOffscreenTaskbar,
                "Hide Off-Screen Taskbar Buttons"@,
                Some(initial.hide_offscreen_taskbar),
            )
            &&& menu[8] is Leaf && reads(
                menu[8]->Leaf_0,
                TrayEvent::ToggleAutoStart,
                "Start with Windows"@,
                Some(initial.auto_start),
            )
            &&& menu[9] is Submenu && menu[9]->Submenu_label == "Centering Mode"@
            &&& menu[9]->items.len() == 3
            &&& reads(
                menu[9]->items[0],
                TrayEvent::SetCenteringCenter,
                "Center"@,
                Some(initial.centering_mode == 0),
            )
            &&& reads(
                menu[9]->items[1],
                TrayEvent::SetCenteringJustInView,
                "Just in View"@,
                Some(initial.centering_mode == 1),
            )
            &&& reads(
                menu[9]->items[2],
                TrayEvent::SetCenteringOnOverflow,
                "On Overflow"@,
                Some(initial.centering_mode == 2),
            )
            &&& menu[10] is Submenu && menu[10]->Submenu_label == "New Window Placement"@
            &&& menu[10]->items.len() == 2
            &&& reads(
                menu[10]->items[0],
                TrayEvent::SetPlacementNewColumn,
                "New Column"@,
                Some(initial.placement_mode == 0),
            )
            &&& reads(
                menu[10]->items[1],
                TrayEvent::SetPlacementInColumn,
                "In Focused Column"@,
                Some(initial.placement_mode == 1),
            )
            &&& menu[11] == Entry::Separator
            &&& menu[12] is Leaf && reads(
                menu[12]->Leaf_0,
                TrayEvent::OpenReleasesPage,
                "Check for Updates"@,
                None,
            )
            &&& menu[13] == Entry::Separator
            &&& menu[14] is Leaf && reads(
                menu[14]->Leaf_0,
                TrayEvent::OpenConfig,
                "Settings..."@,
                None,
            )
            &&& menu[15] is Leaf && reads(
                menu[15]->Leaf_0,
                TrayEvent::EditConfig,
                "Edit Config"@,
                None,
            )
            &&& menu[16] is Leaf && reads(
                menu[16]->Leaf_0,
                TrayEvent::Reload,
                "Reload Config\tCtrl+Alt+Shift+R"@,
                None,
            )
            &&& menu[17] == Entry::Separator
            &&& menu[18] is Submenu && menu[18]->Submenu_label == "Troubleshooting"@
            &&& menu[18]->items.len() == 3
            &&& reads(
                menu[18]->items[0],
                TrayEvent::Refresh,
                "Refresh Windows\tCtrl+Alt+R"@,
                None,
            )
            &&& reads(
                menu[18]->items[1],
                TrayEvent::ViewLogs,
                "View Logs"@,
                None,
            )
            &&& reads(
                menu[18]->items[2],
                TrayEvent::ReleaseAllWindows,
                "Release All Windows"@,
                None,
            )
            &&& menu[19] == Entry::Separator
            &&& menu[20] is Leaf && reads(
                menu[20]->Leaf_0,
                TrayEvent::Exit,
                "Exit"@,
                None,
            )
        }),
{
}

/// The Chinese menu, from top to bottom: what each item says, what a click on it
/// asks for, and which setting its check mark shows.
pub proof fn law_the_chinese_menu(initial: QuickToggleState, version: Seq<char>)
    ensures
        ({
            let menu = tray_menu(initial, true, version);
            &&& menu.len() == 21
            &&& menu[0] is Leaf && reads(
                menu[0]->Leaf_0,
                TrayEvent::OpenAbout,
                "LeopardWM v"@ + version,
                None,
            )
            &&& menu[1] == Entry::Separator
            &&& menu[2] is Leaf && reads(
                menu[2]->Leaf_0,
                TrayEvent::TogglePause,
                "暂停平铺\tCtrl+Alt+P"@,
                None,
            )
            &&& menu[3] == Entry::Separator
            &&& menu[4] is Leaf && reads(
                menu[4]->Leaf_0,
                TrayEvent::ToggleActiveBorder,
                "活动窗口边框"@,
                Some(initial.active_border),
            )
            &&& menu[5] is Leaf && reads(
                menu[5]->Leaf_0,
                TrayEvent::ToggleFocusNewWindows,
                "聚焦新窗口"@,
                Some(initial.focus_new_windows),
            )
            &&& menu[6] is Leaf && reads(
                menu[6]->Leaf_0,
                TrayEvent::ToggleFocusFollowsMouse,
                "焦点跟随鼠标"@,
                Some(initial.focus_follows_mouse),
            )
            &&& menu[7] is Leaf && reads(
                menu[7]->Leaf_0,
                TrayEvent::ToggleHideOffscreenTaskbar,
                "隐藏屏幕外窗口的任务栏按钮"@,
                Some(initial.hide_offscreen_taskbar),
            )
            &&& menu[8] is Leaf && reads(
                menu[8]->Leaf_0,
                TrayEvent::ToggleAutoStart,
                "随 Windows 启动"@,
                Some(initial.auto_start),
            )
            &&& menu[9] is Submenu && menu[9]->Submenu_label == "居中模式"@
            &&& menu[9]->items.len() == 3
            &&& reads(
                menu[9]->items[0],
                TrayEvent::SetCenteringCenter,
                "居中"@,
                Some(initial.centering_mode == 0),
            )
            &&& reads(
                menu[9]->items[1],
                TrayEvent::SetCenteringJustInView,
                "仅保持可见"@,
                Some(initial.centering_mode == 1),
            )
            &&& reads(
                menu[9]->items[2],
                TrayEvent::SetCenteringOnOverflow,
                "溢出时居中"@,
                Some(initial.centering_mode == 2),
            )
            &&& menu[10] is Submenu && menu[10]->Submenu_label == "新窗口位置"@
            &&& menu[10]->items.len() == 2
            &&& reads(
                menu[10]->items[0],
                TrayEvent::SetPlacementNewColumn,
                "新列"@,
                Some(initial.placement_mode == 0),
            )
            &&& reads(
                menu[10]->items[1],
                TrayEvent::SetPlacementInColumn,
                "放入焦点列"@,
                Some(initial.placement_mode == 1),
            )
            &&& menu[11] == Entry::Separator
            &&& menu[12] is Leaf && reads(
                menu[12]->Leaf_0,
                TrayEvent::OpenReleasesPage,
                "检查更新"@,
                None,
            )
            &&& menu[13] == Entry::Separator
            &&& menu[14] is Leaf && reads(
                menu[14]->Leaf_0,
                TrayEvent::OpenConfig,
                "设置..."@,
                None,
            )
            &&& menu[15] is Leaf && reads(
                menu[15]->Leaf_0,
                TrayEvent::EditConfig,
                "编辑配置"@,
                None,
            )
            &&& menu[16] is Leaf && reads(
                menu[16]->Leaf_0,
                TrayEvent::Reload,
                "重新加载配置\tCtrl+Alt+Shift+R"@,
                None,
            )
            &&& menu[17] == Entry::Separator
            &&& menu[18] is Submenu && menu[18]->Submenu_label == "故障排除"@
            &&& menu[18]->items.len() == 3
            &&& reads(
                menu[18]->items[0],
                TrayEvent::Refresh,
                "刷新窗口\tCtrl+Alt+R"@,
                None,
            )
            &&& reads(
                menu[18]->items[1],
                TrayEvent::ViewLogs,
                "查看日志"@,
                None,
            )
            &&& reads(
                menu[18]->items[2],
                TrayEvent::ReleaseAllWindows,
                "释放所有窗口"@,
                None,
            )
            &&& menu[19] == Entry::Separator
            &&& menu[20] is Leaf && reads(
                menu[20]->Leaf_0,
                TrayEvent::Exit,
                "退出"@,
                None,
            )
        }),
{
}

/// The mark of each toggle is its own setting, whatever the others are. The mark
/// of a mode is set exactly while that mode is in force, so no two marks of a
/// group are set together. Nothing else has a mark.
pub proof fn law_check_marks_show_their_settings(
    settings: QuickToggleState,
    a: TrayEvent,
)
    ensures
        check_of(settings, TrayEvent::ToggleActiveBorder) == Some(settings.active_border),
        check_of(settings, TrayEvent::ToggleFocusNewWindows) == Some(settings.focus_new_windows),
        check_of(settings, TrayEvent::ToggleFocusFollowsMouse) == Some(
            settings.focus_follows_mouse,
        ),
        check_of(settings, TrayEvent::ToggleHideOffscreenTaskbar) == Some(
            settings.hide_offscreen_taskbar,
        ),
        check_of(settings, TrayEvent::ToggleAutoStart) == Some(settings.auto_start),
        check_of(settings, TrayEvent::SetCenteringCenter) == Some(true)
            <==> settings.centering_mode == 0,
        check_of(settings, TrayEvent::SetCenteringJustInView) == Some(true)
            <==> settings.centering_mode == 1,
        check_of(settings, TrayEvent::SetCenteringOnOverflow) == Some(true)
            <==> settings.centering_mode == 2,
        check_of(settings, TrayEvent::SetPlacementNewColumn) == Some(true)
            <==> settings.placement_mode == 0,
        check_of(settings, TrayEvent::SetPlacementInColumn) == Some(true)
            <==> settings.placement_mode == 1,
        check_of(settings, a) is Some <==> (a is ToggleActiveBorder || a is ToggleFocusNewWindows
            || a is ToggleFocusFollowsMouse || a is ToggleHideOffscreenTaskbar
            || a is ToggleAutoStart || a is SetCenteringCenter || a is SetCenteringJustInView
            || a is SetCenteringOnOverflow || a is SetPlacementNewColumn
            || a is SetPlacementInColumn),
{
}

/// Changing one setting changes the marks that show it and no other: a toggle
/// flips its own mark, a mode moves its mark within its group, and the language
/// touches none.
pub proof fn law_a_setting_changes_its_own_marks_only(
    settings: QuickToggleState,
    event: TrayEvent,
    language: Language,
    mode: u8,
)
    ensures
        ({
            let mark = |s: QuickToggleState| check_of(s, event);
            let now = mark(settings);
            &&& mark(QuickToggleState { active_border: !settings.active_border, ..settings }) != now
                <==> event == TrayEvent::ToggleActiveBorder
            &&& mark(QuickToggleState { focus_new_windows: !settings.focus_new_windows, ..settings }) != now
                <==> event == TrayEvent::ToggleFocusNewWindows
            &&& mark(QuickToggleState { focus_follows_mouse: !settings.focus_follows_mouse, ..settings }) != now
                <==> event == TrayEvent::ToggleFocusFollowsMouse
            &&& mark(QuickToggleState { hide_offscreen_taskbar: !settings.hide_offscreen_taskbar, ..settings }) != now
                <==> event == TrayEvent::ToggleHideOffscreenTaskbar
            &&& mark(QuickToggleState { auto_start: !settings.auto_start, ..settings }) != now
                <==> event == TrayEvent::ToggleAutoStart
            &&& mark(QuickToggleState { language, ..settings }) == now
            &&& mark(QuickToggleState { centering_mode: mode, ..settings }) != now ==> event
                == TrayEvent::SetCenteringCenter || event == TrayEvent::SetCenteringJustInView
                || event == TrayEvent::SetCenteringOnOverflow
            &&& mark(QuickToggleState { placement_mode: mode, ..settings }) != now ==> event
                == TrayEvent::SetPlacementNewColumn || event == TrayEvent::SetPlacementInColumn
        }),
{
}

/// The list of marks to set names every item that has one, with its setting.
pub proof fn law_the_marks_to_set(checks: Seq<MenuCheck>, settings: QuickToggleState)
    requires
        checks_follow(checks, settings),
    ensures
        checks.len() == 10,
        checks[0].id@ == "toggle_active_border"@ && checks[0].checked == settings.active_border,
        checks[1].id@ == "toggle_focus_new_windows"@ && checks[1].checked == settings.focus_new_windows,
        checks[2].id@ == "toggle_focus_follows_mouse"@ && checks[2].checked == settings.focus_follows_mouse,
        checks[3].id@ == "toggle_hide_offscreen_taskbar"@ && checks[3].checked == settings.hide_offscreen_taskbar,
        checks[4].id@ == "toggle_auto_start"@ && checks[4].checked == settings.auto_start,
        checks[5].id@ == "centering_center"@ && checks[5].checked == (settings.centering_mode == 0),
        checks[6].id@ == "centering_just_in_view"@ && checks[6].checked == (settings.centering_mode == 1),
        checks[7].id@ == "centering_on_overflow"@ && checks[7].checked == (settings.centering_mode == 2),
        checks[8].id@ == "placement_new_column"@ && checks[8].checked == (settings.placement_mode == 0),
        checks[9].id@ == "placement_in_column"@ && checks[9].checked == (settings.placement_mode == 1),
{
}
/// The pause item offers to resume exactly while tiling is paused.
pub proof fn law_the_pause_item_offers_the_other_state()
    ensures
        pause_label(true, false) == "Resume Tiling\tCtrl+Alt+P"@,
        pause_label(false, false) == "Pause Tiling\tCtrl+Alt+P"@,
        pause_label(true, true) == "恢复平铺\tCtrl+Alt+P"@,
        pause_label(false, true) == "暂停平铺\tCtrl+Alt+P"@,
{
}

/// The update item names a release that is available, and else offers to look
/// for one.
pub proof fn law_the_update_item_names_the_release(tag: Seq<char>)
    ensures
        update_label(Some(tag), false) == "Update available: "@ + tag,
        update_label(None, false) == "Check for Updates"@,
        update_label(Some(tag), true) == "有可用更新："@ + tag,
        update_label(None, true) == "检查更新"@,
{
}

/// Chinese is spoken exactly if it is configured, or if the system decides and
/// the low ten bits of its language id are four.
pub proof fn law_chinese_is_spoken_when_asked(language: Language, langid: u16)
    ensures
        speaks_chinese(language, langid) <==> language == Language::SimplifiedChinese || (language
            == Language::System && langid & 0x03ff == 4),
{
    assert(langid & 0x03ff == langid % 1024) by (bit_vector);
}

/// A tray starts unpaused, with the settings it was given and no release known,
/// in the language of the settings, and shows the workspace closest to the one
/// asked for among the first nine.
pub proof fn law_a_tray_starts_as_configured(
    initial: QuickToggleState,
    workspace: u8,
    langid: u16,
)
    ensures
        ({
            let tray = Tray::initial(initial, workspace, langid);
            &&& tray.toggles == initial
            &&& !tray.paused
            &&& tray.available_update is None
            &&& tray.use_chinese == speaks_chinese(initial.language, langid)
            &&& tray.tooltip_text == if tray.use_chinese {
                "LeopardWM - 平铺窗口管理器"@
            } else {
                "LeopardWM - Tiling Window Manager"@
            }
            &&& 1 <= tray.active_workspace <= 9
            &&& 1 <= workspace <= 9 ==> tray.active_workspace == workspace
            &&& workspace == 0 ==> tray.active_workspace == 1
            &&& workspace > 9 ==> tray.active_workspace == 9
        }),
{
}

/// The message loop ends when no message is left. A message for a window, or of
/// another kind, is handed on. The four messages of the tray show, in this
/// order, the tooltip, the pause item, the check marks and the update item, as
/// the state has them; the icon is drawn anew exactly if the workspace differs
/// from the one shown.
pub proof fn law_the_loop_shows_the_state(
    tray_loop: TrayLoop,
    received: i32,
    to_thread: bool,
    message: u32,
    tray: Tray,
    step: LoopStep,
)
    requires
        tray_loop.follows(received, to_thread, message, tray, step),
    ensures
        step is Quit <==> received <= 0,
        step is ShowTooltip <==> received > 0 && to_thread && message == 0x8000,
        step is ShowPause <==> received > 0 && to_thread && message == 0x8001,
        step is ShowChecks <==> received > 0 && to_thread && message == 0x8002,
        step is ShowUpdate <==> received > 0 && to_thread && message == 0x8003,
        step matches LoopStep::ShowTooltip { text, workspace } ==> {
            &&& text@ == tray.tooltip_text
            &&& tray.active_workspace == tray_loop.rendered_workspace ==> workspace is None
            &&& tray.active_workspace != tray_loop.rendered_workspace ==> workspace == Some(
                tray.active_workspace,
            )
        },
        step matches LoopStep::ShowPause { label } ==> {
            &&& tray.paused && !tray_loop.zh ==> label@ == "Resume Tiling\tCtrl+Alt+P"@
            &&& !tray.paused && !tray_loop.zh ==> label@ == "Pause Tiling\tCtrl+Alt+P"@
            &&& tray.paused && tray_loop.zh ==> label@ == "恢复平铺\tCtrl+Alt+P"@
            &&& !tray.paused && tray_loop.zh ==> label@ == "暂停平铺\tCtrl+Alt+P"@
        },
        step matches LoopStep::ShowChecks { checks } ==> checks_follow(checks@, tray.toggles),
        step matches LoopStep::ShowUpdate { label } ==> {
            &&& tray.available_update is None && !tray_loop.zh ==> label@ == "Check for Updates"@
            &&& tray.available_update is None && tray_loop.zh ==> label@ == "检查更新"@
            &&& tray.available_update matches Some(tag) ==> label@ == (if tray_loop.zh {
                "有可用更新："@
            } else {
                "Update available: "@
            }) + tag
        },
{
}

/// The English tooltip names the state, the workspace and the counts, and adds
/// a line exactly if fewer hotkeys are registered than requested: how many are,
/// of how many, and how many are missing.
pub proof fn law_the_english_tooltip(
    windows: usize,
    monitors: usize,
    paused: bool,
    hotkeys: Option<(usize, usize)>,
    workspace: u8,
)
    ensures
        ({
            let state = if paused {
                "LeopardWM - Paused (WS "@
            } else {
                "LeopardWM - Active (WS "@
            };
            let line = state + decimal(workspace as nat) + ", "@ + decimal(windows as nat)
                + " windows, "@ + decimal(monitors as nat) + " monitors)"@;
            english_tooltip(windows, monitors, paused, hotkeys, workspace) == match hotkeys {
                Some((registered, requested)) if registered < requested => line + "\nHotkeys: "@
                    + decimal(registered as nat) + "/"@ + decimal(requested as nat) + " ("@
                    + decimal((requested - registered) as nat) + " failed)"@,
                _ => line,
            }
        }),
{
    reveal_strlit("LeopardWM - ");
    reveal_strlit("Paused");
    reveal_strlit("Active");
    reveal_strlit(" (WS ");
    reveal_strlit("LeopardWM - Paused (WS ");
    reveal_strlit("LeopardWM - Active (WS ");
    assert("LeopardWM - "@ + "Paused"@ + " (WS "@ =~= "LeopardWM - Paused (WS "@);
    assert("LeopardWM - "@ + "Active"@ + " (WS "@ =~= "LeopardWM - Active (WS "@);
}

/// The Chinese tooltip says the same.
pub proof fn law_the_chinese_tooltip(
    windows: usize,
    monitors: usize,
    paused: bool,
    hotkeys: Option<(usize, usize)>,
    workspace: u8,
)
    ensures
        ({
            let state = if paused {
                "LeopardWM - 已暂停（工作区 "@
            } else {
                "LeopardWM - 运行中（工作区 "@
            };
            let line = state + decimal(workspace as nat) + "，"@ + decimal(windows as nat)
                + " 个窗口，"@ + decimal(monitors as nat) + " 台显示器）"@;
            chinese_tooltip(windows, monitors, paused, hotkeys, workspace) == match hotkeys {
                Some((registered, requested)) if registered < requested => line + "\n快捷键："@
                    + decimal(registered as nat) + "/"@ + decimal(requested as nat) + "（"@
                    + decimal((requested - registered) as nat) + " 个注册失败）"@,
                _ => line,
            }
        }),
{
    reveal_strlit("LeopardWM - ");
    reveal_strlit("已暂停");
    reveal_strlit("运行中");
    reveal_strlit("（工作区 ");
    reveal_strlit("LeopardWM - 已暂停（工作区 ");
    reveal_strlit("LeopardWM - 运行中（工作区 ");
    assert("LeopardWM - "@ + "已暂停"@ + "（工作区 "@ =~= "LeopardWM - 已暂停（工作区 "@);
    assert("LeopardWM - "@ + "运行中"@ + "（工作区 "@ =~= "LeopardWM - 运行中（工作区 "@);
}

} // verus!
