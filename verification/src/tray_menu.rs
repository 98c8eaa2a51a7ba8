//! The tray context menu: what it holds, and how its labels and check marks
//! follow the settings.

use vstd::prelude::*;

use crate::menu_ids;
use crate::text::text_of;
use crate::tray_event::id_of;
use crate::tray_event::TrayEvent;
use crate::tray_settings::tr;
use crate::tray_settings::translated;
use crate::tray_settings::QuickToggleState;
use crate::tray_settings::CENTERING_CENTER;
use crate::tray_settings::CENTERING_JUST_IN_VIEW;
use crate::tray_settings::CENTERING_ON_OVERFLOW;
use crate::tray_settings::PLACEMENT_IN_COLUMN;
use crate::tray_settings::PLACEMENT_NEW_COLUMN;

verus! {

/// An item that can be clicked.
#[derive(Debug)]
pub struct MenuLeaf {
    pub id: &'static str,
    pub label: String,
    /// Its check mark, if it has one.
    pub checked: Option<bool>,
}

/// One entry of the menu.
#[derive(Debug)]
pub enum MenuEntry {
    Leaf(MenuLeaf),
    Separator,
    Submenu { label: String, items: Vec<MenuLeaf> },
}

/// The mathematical content of a `MenuLeaf`.
#[verifier::ext_equal]
pub struct Leaf {
    pub id: Seq<char>,
    pub label: Seq<char>,
    pub checked: Option<bool>,
}

/// The mathematical content of a `MenuEntry`.
#[verifier::ext_equal]
pub enum Entry {
    Leaf(Leaf),
    Separator,
    Submenu { label: Seq<char>, items: Seq<Leaf> },
}

impl View for MenuLeaf {
    type V = Leaf;

    open spec fn view(&self) -> Leaf {
        Leaf { id: self.id@, label: self.label@, checked: self.checked }
    }
}

/// The contents of a list of leaves.
pub open spec fn leaves(items: Seq<MenuLeaf>) -> Seq<Leaf> {
    items.map_values(|leaf: MenuLeaf| leaf@)
}

impl View for MenuEntry {
    type V = Entry;

    open spec fn view(&self) -> Entry {
        match *self {
            MenuEntry::Leaf(leaf) => Entry::Leaf(leaf@),
            MenuEntry::Separator => Entry::Separator,
            MenuEntry::Submenu { label, items } => Entry::Submenu {
                label: label@,
                items: leaves(items@),
            },
        }
    }
}

/// The contents of a list of entries.
pub open spec fn entries_of(entries: Seq<MenuEntry>) -> Seq<Entry> {
    entries.map_values(|entry: MenuEntry| entry@)
}

/// The settings have the event's check mark set.
pub open spec fn check_of(settings: QuickToggleState, event: TrayEvent) -> Option<bool> {
    match event {
        TrayEvent::ToggleActiveBorder => Some(settings.active_border),
        TrayEvent::ToggleFocusNewWindows => Some(settings.focus_new_windows),
        TrayEvent::ToggleFocusFollowsMouse => Some(settings.focus_follows_mouse),
        TrayEvent::ToggleHideOffscreenTaskbar => Some(settings.hide_offscreen_taskbar),
        TrayEvent::ToggleAutoStart => Some(settings.auto_start),
        TrayEvent::SetCenteringCenter => Some(settings.centering_mode == CENTERING_CENTER),
        TrayEvent::SetCenteringJustInView => Some(
            settings.centering_mode == CENTERING_JUST_IN_VIEW,
        ),
        TrayEvent::SetCenteringOnOverflow => Some(
            settings.centering_mode == CENTERING_ON_OVERFLOW,
        ),
        TrayEvent::SetPlacementNewColumn => Some(settings.placement_mode == PLACEMENT_NEW_COLUMN),
        TrayEvent::SetPlacementInColumn => Some(settings.placement_mode == PLACEMENT_IN_COLUMN),
        _ => None,
    }
}

/// The label of the pause item.
pub open spec fn pause_label(paused: bool, zh: bool) -> Seq<char> {
    if paused {
        translated(zh, "Resume Tiling\tCtrl+Alt+P"@, "恢复平铺\tCtrl+Alt+P"@)
    } else {
        translated(zh, "Pause Tiling\tCtrl+Alt+P"@, "暂停平铺\tCtrl+Alt+P"@)
    }
}

/// The label of the pause item.
pub fn pause_text(paused: bool, zh: bool) -> (label: &'static str)
    ensures
        label@ == pause_label(paused, zh),
{
    if paused {
        tr(zh, "Resume Tiling\tCtrl+Alt+P", "恢复平铺\tCtrl+Alt+P")
    } else {
        tr(zh, "Pause Tiling\tCtrl+Alt+P", "暂停平铺\tCtrl+Alt+P")
    }
}

/// The label of the update item.
pub open spec fn update_label(available: Option<Seq<char>>, zh: bool) -> Seq<char> {
    match available {
        Some(tag) => translated(zh, "Update available: "@, "有可用更新："@) + tag,
        None => translated(zh, "Check for Updates"@, "检查更新"@),
    }
}

/// The label of the update item.
pub fn update_text(available: &Option<String>, zh: bool) -> (label: String)
    ensures
        label@ == update_label(text_of(*available), zh),
{
    match available {
        Some(tag) => {
            let mut label = tr(zh, "Update available: ", "有可用更新：").to_owned();
            label.append(tag.as_str());
            label
        },
        None => tr(zh, "Check for Updates", "检查更新").to_owned(),
    }
}

/// The tooltip before anything is known of the windows.
pub open spec fn initial_tooltip(zh: bool) -> Seq<char> {
    translated(zh, "LeopardWM - Tiling Window Manager"@, "LeopardWM - 平铺窗口管理器"@)
}

/// The tooltip before anything is known of the windows.
pub fn initial_tooltip_text(zh: bool) -> (text: &'static str)
    ensures
        text@ == initial_tooltip(zh),
{
    tr(zh, "LeopardWM - Tiling Window Manager", "LeopardWM - 平铺窗口管理器")
}

/// The label of the item that emits an event, as long as nothing is paused and
/// no update is known.
pub open spec fn label_of(event: TrayEvent, zh: bool, version: Seq<char>) -> Seq<char> {
    match event {
        TrayEvent::OpenAbout => "LeopardWM v"@ + version,
        TrayEvent::TogglePause => pause_label(false, zh),
        TrayEvent::ToggleActiveBorder => translated(zh, "Active Border"@, "活动窗口边框"@),
        TrayEvent::ToggleFocusNewWindows => translated(zh, "Focus New Windows"@, "聚焦新窗口"@),
        TrayEvent::ToggleFocusFollowsMouse => translated(
            zh,
            "Focus Follows Mouse"@,
            "焦点跟随鼠标"@,
        ),
        TrayEvent::ToggleHideOffscreenTaskbar => translated(
            zh,
            "Hide Off-Screen Taskbar Buttons"@,
            "隐藏屏幕外窗口的任务栏按钮"@,
        ),
        TrayEvent::ToggleAutoStart => translated(zh, "Start with Windows"@, "随 Windows 启动"@),
        TrayEvent::SetCenteringCenter => translated(zh, "Center"@, "居中"@),
        TrayEvent::SetCenteringJustInView => translated(zh, "Just in View"@, "仅保持可见"@),
        TrayEvent::SetCenteringOnOverflow => translated(zh, "On Overflow"@, "溢出时居中"@),
        TrayEvent::SetPlacementNewColumn => translated(zh, "New Column"@, "新列"@),
        TrayEvent::SetPlacementInColumn => translated(zh, "In Focused Column"@, "放入焦点列"@),
        TrayEvent::OpenReleasesPage => update_label(None, zh),
        TrayEvent::OpenConfig => translated(zh, "Settings..."@, "设置..."@),
        TrayEvent::EditConfig => translated(zh, "Edit Config"@, "编辑配置"@),
        TrayEvent::Reload => translated(
            zh,
            "Reload Config\tCtrl+Alt+Shift+R"@,
            "重新加载配置\tCtrl+Alt+Shift+R"@,
        ),
        TrayEvent::Refresh => translated(
            zh,
            "Refresh Windows\tCtrl+Alt+R"@,
            "刷新窗口\tCtrl+Alt+R"@,
        ),
        TrayEvent::ViewLogs => translated(zh, "View Logs"@, "查看日志"@),
        TrayEvent::ReleaseAllWindows => translated(zh, "Release All Windows"@, "释放所有窗口"@),
        TrayEvent::Exit => translated(zh, "Exit"@, "退出"@),
    }
}

/// The item that emits an event.
pub open spec fn leaf_of(
    event: TrayEvent,
    initial: QuickToggleState,
    zh: bool,
    version: Seq<char>,
) -> Leaf {
    Leaf {
        id: id_of(event),
        label: label_of(event, zh, version),
        checked: check_of(initial, event),
    }
}

/// Where the items of the menu stand.
pub enum Slot {
    Item(TrayEvent),
    Line,
    Group { label: Seq<char>, items: Seq<TrayEvent> },
}

/// The arrangement of the menu.
pub open spec fn arrangement(zh: bool) -> Seq<Slot> {
    seq![
        Slot::Item(TrayEvent::OpenAbout),
        Slot::Line,
        Slot::Item(TrayEvent::TogglePause),
        Slot::Line,
        Slot::Item(TrayEvent::ToggleActiveBorder),
        Slot::Item(TrayEvent::ToggleFocusNewWindows),
        Slot::Item(TrayEvent::ToggleFocusFollowsMouse),
        Slot::Item(TrayEvent::ToggleHideOffscreenTaskbar),
        Slot::Item(TrayEvent::ToggleAutoStart),
        Slot::Group {
            label: translated(zh, "Centering Mode"@, "居中模式"@),
            items: seq![
                TrayEvent::SetCenteringCenter,
                TrayEvent::SetCenteringJustInView,
                TrayEvent::SetCenteringOnOverflow,
            ],
        },
        Slot::Group {
            label: translated(zh, "New Window Placement"@, "新窗口位置"@),
            items: seq![TrayEvent::SetPlacementNewColumn, TrayEvent::SetPlacementInColumn],
        },
        Slot::Line,
        Slot::Item(TrayEvent::OpenReleasesPage),
        Slot::Line,
        Slot::Item(TrayEvent::OpenConfig),
        Slot::Item(TrayEvent::EditConfig),
        Slot::Item(TrayEvent::Reload),
        Slot::Line,
        Slot::Group {
            label: translated(zh, "Troubleshooting"@, "故障排除"@),
            items: seq![TrayEvent::Refresh, TrayEvent::ViewLogs, TrayEvent::ReleaseAllWindows],
        },
        Slot::Line,
        Slot::Item(TrayEvent::Exit),
    ]
}

/// The items of a group.
pub open spec fn group_leaves(
    items: Seq<TrayEvent>,
    initial: QuickToggleState,
    zh: bool,
    version: Seq<char>,
) -> Seq<Leaf> {
    items.map_values(|event: TrayEvent| leaf_of(event, initial, zh, version))
}

/// The entry in a place of the menu.
pub open spec fn entry_in(
    slot: Slot,
    initial: QuickToggleState,
    zh: bool,
    version: Seq<char>,
) -> Entry {
    match slot {
        Slot::Item(event) => Entry::Leaf(leaf_of(event, initial, zh, version)),
        Slot::Line => Entry::Separator,
        Slot::Group { label, items } => Entry::Submenu {
            label,
            items: group_leaves(items, initial, zh, version),
        },
    }
}

/// The whole menu.
pub open spec fn tray_menu(initial: QuickToggleState, zh: bool, version: Seq<char>) -> Seq<Entry> {
    arrangement(zh).map_values(|slot: Slot| entry_in(slot, initial, zh, version))
}

/// The id of the item that emits an event.
pub fn menu_id(event: TrayEvent) -> (id: &'static str)
    ensures
        id@ == id_of(event),
{
    match event {
        TrayEvent::Refresh => menu_ids::REFRESH,
        TrayEvent::Reload => menu_ids::RELOAD,
        TrayEvent::Exit => menu_ids::EXIT,
        TrayEvent::TogglePause => menu_ids::TOGGLE_PAUSE,
        TrayEvent::OpenConfig => menu_ids::OPEN_CONFIG,
        TrayEvent::OpenAbout => menu_ids::OPEN_ABOUT,
        TrayEvent::EditConfig => menu_ids::EDIT_CONFIG,
        TrayEvent::ViewLogs => menu_ids::VIEW_LOGS,
        TrayEvent::ReleaseAllWindows => menu_ids::RELEASE_ALL_WINDOWS,
        TrayEvent::ToggleActiveBorder => menu_ids::TOGGLE_ACTIVE_BORDER,
        TrayEvent::ToggleFocusNewWindows => menu_ids::TOGGLE_FOCUS_NEW_WINDOWS,
        TrayEvent::ToggleFocusFollowsMouse => menu_ids::TOGGLE_FOCUS_FOLLOWS_MOUSE,
        TrayEvent::ToggleHideOffscreenTaskbar => menu_ids::TOGGLE_HIDE_OFFSCREEN_TASKBAR,
        TrayEvent::ToggleAutoStart => menu_ids::TOGGLE_AUTO_START,
        TrayEvent::SetCenteringCenter => menu_ids::CENTERING_CENTER,
        TrayEvent::SetCenteringJustInView => menu_ids::CENTERING_JUST_IN_VIEW,
        TrayEvent::SetCenteringOnOverflow => menu_ids::CENTERING_ON_OVERFLOW,
        TrayEvent::SetPlacementNewColumn => menu_ids::PLACEMENT_NEW_COLUMN,
        TrayEvent::SetPlacementInColumn => menu_ids::PLACEMENT_IN_COLUMN,
        TrayEvent::OpenReleasesPage => menu_ids::CHECK_UPDATES,
    }
}

/// The check mark of the item that emits an event, if it has one.
pub fn menu_check(settings: &QuickToggleState, event: TrayEvent) -> (checked: Option<bool>)
    ensures
        checked == check_of(*settings, event),
{
    match event {
        TrayEvent::ToggleActiveBorder => Some(settings.active_border),
        TrayEvent::ToggleFocusNewWindows => Some(settings.focus_new_windows),
        TrayEvent::ToggleFocusFollowsMouse => Some(settings.focus_follows_mouse),
        TrayEvent::ToggleHideOffscreenTaskbar => Some(settings.hide_offscreen_taskbar),
        TrayEvent::ToggleAutoStart => Some(settings.auto_start),
        TrayEvent::SetCenteringCenter => Some(settings.centering_mode == CENTERING_CENTER),
        TrayEvent::SetCenteringJustInView => Some(
            settings.centering_mode == CENTERING_JUST_IN_VIEW,
        ),
        TrayEvent::SetCenteringOnOverflow => Some(
            settings.centering_mode == CENTERING_ON_OVERFLOW,
        ),
        TrayEvent::SetPlacementNewColumn => Some(settings.placement_mode == PLACEMENT_NEW_COLUMN),
        TrayEvent::SetPlacementInColumn => Some(settings.placement_mode == PLACEMENT_IN_COLUMN),
        _ => None,
    }
}

/// The label of the item that emits an event, as long as nothing is paused and
/// no update is known.
fn menu_label(event: TrayEvent, zh: bool, version: &str) -> (label: String)
    ensures
        label@ == label_of(event, zh, version@),
{
    match event {
        TrayEvent::OpenAbout => {
            let mut label = "LeopardWM v".to_owned();
            label.append(version);
            label
        },
        TrayEvent::TogglePause => pause_text(false, zh).to_owned(),
        TrayEvent::OpenReleasesPage => update_text(&None, zh),
        TrayEvent::ToggleActiveBorder => tr(zh, "Active Border", "活动窗口边框").to_owned(),
        TrayEvent::ToggleFocusNewWindows => tr(zh, "Focus New Windows", "聚焦新窗口").to_owned(),
        TrayEvent::ToggleFocusFollowsMouse => tr(
            zh,
            "Focus Follows Mouse",
            "焦点跟随鼠标",
        ).to_owned(),
        TrayEvent::ToggleHideOffscreenTaskbar => tr(
            zh,
            "Hide Off-Screen Taskbar Buttons",
            "隐藏屏幕外窗口的任务栏按钮",
        ).to_owned(),
        TrayEvent::ToggleAutoStart => tr(zh, "Start with Windows", "随 Windows 启动").to_owned(),
        TrayEvent::SetCenteringCenter => tr(zh, "Center", "居中").to_owned(),
        TrayEvent::SetCenteringJustInView => tr(zh, "Just in View", "仅保持可见").to_owned(),
        TrayEvent::SetCenteringOnOverflow => tr(zh, "On Overflow", "溢出时居中").to_owned(),
        TrayEvent::SetPlacementNewColumn => tr(zh, "New Column", "新列").to_owned(),
        TrayEvent::SetPlacementInColumn => tr(zh, "In Focused Column", "放入焦点列").to_owned(),
        TrayEvent::OpenConfig => tr(zh, "Settings...", "设置...").to_owned(),
        TrayEvent::EditConfig => tr(zh, "Edit Config", "编辑配置").to_owned(),
        TrayEvent::Reload => tr(
            zh,
            "Reload Config\tCtrl+Alt+Shift+R",
            "重新加载配置\tCtrl+Alt+Shift+R",
        ).to_owned(),
        TrayEvent::Refresh => tr(
            zh,
            "Refresh Windows\tCtrl+Alt+R",
            "刷新窗口\tCtrl+Alt+R",
        ).to_owned(),
        TrayEvent::ViewLogs => tr(zh, "View Logs", "查看日志").to_owned(),
        TrayEvent::ReleaseAllWindows => tr(zh, "Release All Windows", "释放所有窗口").to_owned(),
        TrayEvent::Exit => tr(zh, "Exit", "退出").to_owned(),
    }
}

fn menu_leaf(event: TrayEvent, initial: &QuickToggleState, zh: bool, version: &str) -> (leaf:
    MenuLeaf)
    ensures
        leaf@ == leaf_of(event, *initial, zh, version@),
{
    MenuLeaf {
        id: menu_id(event),
        label: menu_label(event, zh, version),
        checked: menu_check(initial, event),
    }
}

fn push_item(
    menu: &mut Vec<MenuEntry>,
    event: TrayEvent,
    initial: &QuickToggleState,
    zh: bool,
    version: &str,
)
    ensures
        entries_of(final(menu)@) == entries_of(old(menu)@).push(
            entry_in(Slot::Item(event), *initial, zh, version@),
        ),
{
    menu.push(MenuEntry::Leaf(menu_leaf(event, initial, zh, version)));
}

fn push_line(menu: &mut Vec<MenuEntry>)
    ensures
        entries_of(final(menu)@) == entries_of(old(menu)@).push(Entry::Separator),
{
    menu.push(MenuEntry::Separator);
}

fn push_group(
    menu: &mut Vec<MenuEntry>,
    label: &'static str,
    events: &[TrayEvent],
    initial: &QuickToggleState,
    zh: bool,
    version: &str,
)
    ensures
        entries_of(final(menu)@) == entries_of(old(menu)@).push(
            entry_in(Slot::Group { label: label@, items: events@ }, *initial, zh, version@),
        ),
{
    let mut items: Vec<MenuLeaf> = Vec::new();
    for i in 0..events.len()
        invariant
            leaves(items@) =~= group_leaves(events@.take(i as int), *initial, zh, version@),
    {
        let ghost before = leaves(items@);
        let leaf = menu_leaf(events[i], initial, zh, version);
        items.push(leaf);
        assert(leaves(items@) =~= before.push(leaf@));
    }
    assert(events@.take(events@.len() as int) == events@);
    menu.push(MenuEntry::Submenu { label: label.to_owned(), items });
}

/// The tray context menu for the initial settings.
pub fn build_tray(initial: &QuickToggleState, zh: bool, version: &str) -> (menu: Vec<MenuEntry>)
    ensures
        entries_of(menu@) == tray_menu(*initial, zh, version@),
{
    let mut menu: Vec<MenuEntry> = Vec::new();
    push_item(&mut menu, TrayEvent::OpenAbout, initial, zh, version);
    push_line(&mut menu);
    push_item(&mut menu, TrayEvent::TogglePause, initial, zh, version);
    push_line(&mut menu);
    push_item(&mut menu, TrayEvent::ToggleActiveBorder, initial, zh, version);
    push_item(&mut menu, TrayEvent::ToggleFocusNewWindows, initial, zh, version);
    push_item(&mut menu, TrayEvent::ToggleFocusFollowsMouse, initial, zh, version);
    push_item(&mut menu, TrayEvent::ToggleHideOffscreenTaskbar, initial, zh, version);
    push_item(&mut menu, TrayEvent::ToggleAutoStart, initial, zh, version);
    let centering = [
        TrayEvent::SetCenteringCenter,
        TrayEvent::SetCenteringJustInView,
        TrayEvent::SetCenteringOnOverflow,
    ];
    push_group(
        &mut menu,
        tr(zh, "Centering Mode", "居中模式"),
        &centering,
        initial,
        zh,
        version,
    );
    let placement = [TrayEvent::SetPlacementNewColumn, TrayEvent::SetPlacementInColumn];
    push_group(
        &mut menu,
        tr(zh, "New Window Placement", "新窗口位置"),
        &placement,
        initial,
        zh,
        version,
    );
    push_line(&mut menu);
    push_item(&mut menu, TrayEvent::OpenReleasesPage, initial, zh, version);
    push_line(&mut menu);
    push_item(&mut menu, TrayEvent::OpenConfig, initial, zh, version);
    push_item(&mut menu, TrayEvent::EditConfig, initial, zh, version);
    push_item(&mut menu, TrayEvent::Reload, initial, zh, version);
    push_line(&mut menu);
    let troubleshooting = [
        TrayEvent::Refresh,
        TrayEvent::ViewLogs,
        TrayEvent::ReleaseAllWindows,
    ];
    push_group(
        &mut menu,
        tr(zh, "Troubleshooting", "故障排除"),
        &troubleshooting,
        initial,
        zh,
        version,
    );
    push_line(&mut menu);
    push_item(&mut menu, TrayEvent::Exit, initial, zh, version);
    menu
}

/// A check mark to set.
#[derive(Clone, Copy, Debug, PartialEq, Eq)]
pub struct MenuCheck {
    pub id: &'static str,
    pub checked: bool,
}

/// The items that have a check mark.
pub open spec fn checked_events() -> Seq<TrayEvent> {
    seq![
        TrayEvent::ToggleActiveBorder,
        TrayEvent::ToggleFocusNewWindows,
        TrayEvent::ToggleFocusFollowsMouse,
        TrayEvent::ToggleHideOffscreenTaskbar,
        TrayEvent::ToggleAutoStart,
        TrayEvent::SetCenteringCenter,
        TrayEvent::SetCenteringJustInView,
        TrayEvent::SetCenteringOnOverflow,
        TrayEvent::SetPlacementNewColumn,
        TrayEvent::SetPlacementInColumn,
    ]
}

/// The check marks set every item that has one, in order, as the settings say.
pub open spec fn checks_follow(checks: Seq<MenuCheck>, settings: QuickToggleState) -> bool {
    &&& checks.len() == checked_events().len()
    &&& forall|i: int|
        0 <= i < checks.len() ==> {
            &&& (#[trigger] checks[i]).id@ == id_of(checked_events()[i])
            &&& check_of(settings, checked_events()[i]) == Some(checks[i].checked)
        }
}

/// Every check mark of the menu, as the settings say.
pub fn menu_checks(settings: &QuickToggleState) -> (checks: Vec<MenuCheck>)
    ensures
        checks_follow(checks@, *settings),
{
    let events = [
        TrayEvent::ToggleActiveBorder,
        TrayEvent::ToggleFocusNewWindows,
        TrayEvent::ToggleFocusFollowsMouse,
        TrayEvent::ToggleHideOffscreenTaskbar,
        TrayEvent::ToggleAutoStart,
        TrayEvent::SetCenteringCenter,
        TrayEvent::SetCenteringJustInView,
        TrayEvent::SetCenteringOnOverflow,
        TrayEvent::SetPlacementNewColumn,
        TrayEvent::SetPlacementInColumn,
    ];
    let mut checks: Vec<MenuCheck> = Vec::new();
    for i in 0..events.len()
        invariant
            events@ == checked_events(),
            checks@.len() == i,
            forall|k: int|
                0 <= k < i ==> {
                    &&& (#[trigger] checks@[k]).id@ == id_of(checked_events()[k])
                    &&& check_of(*settings, checked_events()[k]) == Some(checks@[k].checked)
                },
    {
        let event = events[i];
        if let Some(checked) = menu_check(settings, event) {
            checks.push(MenuCheck { id: menu_id(event), checked });
        }
    }
    checks
}

/// A place of the menu offers an event.
pub open spec fn offers(slot: Slot, event: TrayEvent) -> bool {
    match slot {
        Slot::Item(e) => e == event,
        Slot::Line => false,
        Slot::Group { items, .. } => items.contains(event),
    }
}

/// Where in the menu an event is offered.
pub open spec fn place_of(event: TrayEvent) -> int {
    match event {
        TrayEvent::OpenAbout => 0,
        TrayEvent::TogglePause => 2,
        TrayEvent::ToggleActiveBorder => 4,
        TrayEvent::ToggleFocusNewWindows => 5,
        TrayEvent::ToggleFocusFollowsMouse => 6,
        TrayEvent::ToggleHideOffscreenTaskbar => 7,
        TrayEvent::ToggleAutoStart => 8,
        TrayEvent::SetCenteringCenter => 9,
        TrayEvent::SetCenteringJustInView => 9,
        TrayEvent::SetCenteringOnOverflow => 9,
        TrayEvent::SetPlacementNewColumn => 10,
        TrayEvent::SetPlacementInColumn => 10,
        TrayEvent::OpenReleasesPage => 12,
        TrayEvent::OpenConfig => 14,
        TrayEvent::EditConfig => 15,
        TrayEvent::Reload => 16,
        TrayEvent::Refresh => 18,
        TrayEvent::ViewLogs => 18,
        TrayEvent::ReleaseAllWindows => 18,
        TrayEvent::Exit => 20,
    }
}

/// Every event has exactly one place in the menu.
pub proof fn law_menu_offers_every_event_once(event: TrayEvent, zh: bool, i: int)
    requires
        0 <= i < arrangement(zh).len(),
    ensures
        0 <= place_of(event) < arrangement(zh).len(),
        offers(arrangement(zh)[i], event) <==> i == place_of(event),
{
    let slot = arrangement(zh)[i];
    if let Slot::Group { items, .. } = slot {
        if i == place_of(event) {
            let k: int = match event {
                TrayEvent::SetCenteringJustInView => 1,
                TrayEvent::SetPlacementInColumn => 1,
                TrayEvent::ViewLogs => 1,
                TrayEvent::SetCenteringOnOverflow => 2,
                TrayEvent::ReleaseAllWindows => 2,
                _ => 0,
            };
            assert(items[k] == event);
        }
    }
}

/// The language changes labels only: every place holds the same items, with
/// the same check marks.
pub proof fn law_language_changes_labels_only(
    initial: QuickToggleState,
    version: Seq<char>,
    event: TrayEvent,
    i: int,
)
    requires
        0 <= i < arrangement(true).len(),
    ensures
        arrangement(true).len() == arrangement(false).len(),
        offers(arrangement(true)[i], event) == offers(arrangement(false)[i], event),
        leaf_of(event, initial, true, version).id == leaf_of(event, initial, false, version).id,
        leaf_of(event, initial, true, version).checked == leaf_of(
            event,
            initial,
            false,
            version,
        ).checked,
{
}

/// A known mode checks exactly one item of its group.
pub proof fn law_modes_are_exclusive(settings: QuickToggleState)
    ensures
        settings.centering_mode <= CENTERING_ON_OVERFLOW ==> {
            let center = check_of(settings, TrayEvent::SetCenteringCenter) == Some(true);
            let in_view = check_of(settings, TrayEvent::SetCenteringJustInView) == Some(true);
            let overflow = check_of(settings, TrayEvent::SetCenteringOnOverflow) == Some(true);
            (center || in_view || overflow) && !(center && in_view) && !(center && overflow) && !(
            in_view && overflow)
        },
        settings.placement_mode <= PLACEMENT_IN_COLUMN ==> {
            let own = check_of(settings, TrayEvent::SetPlacementNewColumn) == Some(true);
            let shared = check_of(settings, TrayEvent::SetPlacementInColumn) == Some(true);
            own != shared
        },
{
}

} // verus!
