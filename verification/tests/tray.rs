use leopardwm::class_name::window_class_name;
use leopardwm::default_icon::create_default_icon;
use leopardwm::default_icon::icon_from_frame;
use leopardwm::default_icon::initial_icon;
use leopardwm::default_icon::ColorKind;
use leopardwm::default_icon::PngFrame;
use leopardwm::icon::create_workspace_icon;
use leopardwm::icon::workspace_icon_rgba;
use leopardwm::icon::WORKSPACE_ICON_SIZE;
use leopardwm::menu_ids;
use leopardwm::tooltip::format_tooltip_text;
use leopardwm::tooltip::format_tooltip_text_zh;
use leopardwm::tray_error::TrayError;
use leopardwm::tray_event::map_menu_id_to_event;
use leopardwm::tray_event::TrayEvent;
use leopardwm::tray_manager::LoopStep;
use leopardwm::tray_manager::TrayLoop;
use leopardwm::tray_manager::TrayManager;
use leopardwm::tray_manager::WM_APP_UPDATE_PAUSE;
use leopardwm::tray_manager::WM_APP_UPDATE_RELEASE_INFO;
use leopardwm::tray_manager::WM_APP_UPDATE_TOGGLES;
use leopardwm::tray_manager::WM_APP_UPDATE_TOOLTIP;
use leopardwm::tray_menu::build_tray;
use leopardwm::tray_menu::menu_id;
use leopardwm::tray_menu::MenuEntry;
use leopardwm::tray_settings::system_uses_chinese;
use leopardwm::tray_settings::use_chinese;
use leopardwm::tray_settings::Language;
use leopardwm::tray_settings::QuickToggleState;
use leopardwm::tray_settings::CENTERING_JUST_IN_VIEW;
use leopardwm::tray_settings::CENTERING_ON_OVERFLOW;
use leopardwm::tray_settings::PLACEMENT_IN_COLUMN;
use leopardwm::tray_settings::PLACEMENT_NEW_COLUMN;

const ENGLISH: u16 = 0x0409;
const CHINESE: u16 = 0x0804;

fn settings() -> QuickToggleState {
    QuickToggleState {
        language: Language::System,
        active_border: true,
        focus_new_windows: false,
        focus_follows_mouse: true,
        hide_offscreen_taskbar: false,
        auto_start: true,
        centering_mode: CENTERING_JUST_IN_VIEW,
        placement_mode: PLACEMENT_IN_COLUMN,
    }
}

#[test]
fn workspace_icons_are_valid_distinct_rgba_images() {
    let icons: Vec<Vec<u8>> = (1..=9)
        .map(|workspace| workspace_icon_rgba(workspace).expect("valid workspace icon"))
        .collect();

    for icon in &icons {
        assert_eq!(icon.len(), WORKSPACE_ICON_SIZE * WORKSPACE_ICON_SIZE * 4);
        assert_eq!(icon[3], 0, "top-left corner must be transparent");
        let top_right_alpha = (WORKSPACE_ICON_SIZE - 1) * 4 + 3;
        assert_eq!(icon[top_right_alpha], 0, "top-right must be transparent");
        let center = (WORKSPACE_ICON_SIZE / 2 * WORKSPACE_ICON_SIZE + WORKSPACE_ICON_SIZE / 2) * 4;
        assert_eq!(icon[center + 3], 255, "icon center must be opaque");
    }

    for (index, icon) in icons.iter().enumerate() {
        assert!(
            icons.iter().skip(index + 1).all(|other| other != icon),
            "workspace digit images must be distinct"
        );
    }
    assert!(workspace_icon_rgba(0).is_err());
    assert!(workspace_icon_rgba(10).is_err());
}

fn rgb_png(width: u32, height: u32, pixels: &[u8]) -> Vec<u8> {
    let mut file = Vec::new();
    {
        let mut encoder = png::Encoder::new(&mut file, width, height);
        encoder.set_color(png::ColorType::Rgb);
        encoder.set_depth(png::BitDepth::Eight);
        let mut writer = encoder.write_header().unwrap();
        writer.write_image_data(pixels).unwrap();
    }
    file
}

fn rgba_png(width: u32, height: u32, pixels: &[u8]) -> Vec<u8> {
    let mut file = Vec::new();
    {
        let mut encoder = png::Encoder::new(&mut file, width, height);
        encoder.set_color(png::ColorType::Rgba);
        encoder.set_depth(png::BitDepth::Eight);
        let mut writer = encoder.write_header().unwrap();
        writer.write_image_data(pixels).unwrap();
    }
    file
}

#[test]
fn test_create_default_icon() {
    let pixels: Vec<u8> = (0..32 * 32 * 4).map(|i| (i % 251) as u8).collect();
    let icon = create_default_icon(&rgba_png(32, 32, &pixels));
    assert!(icon.is_ok(), "Should create default icon successfully");
    let icon = icon.unwrap();
    assert_eq!(icon.width, 32);
    assert_eq!(icon.height, 32);
    assert_eq!(icon.rgba, pixels);
}

#[test]
fn default_icon_gains_alpha_when_it_has_none() {
    let icon = create_default_icon(&rgb_png(2, 1, &[1, 2, 3, 40, 50, 60])).unwrap();
    assert_eq!(icon.rgba, vec![1, 2, 3, 255, 40, 50, 60, 255]);
    assert_eq!((icon.width, icon.height), (2, 1));
}

#[test]
fn default_icon_reports_a_bad_file() {
    match create_default_icon(b"not a png") {
        Err(TrayError::Icon(cause)) => assert!(cause.starts_with("PNG decode error: "), "{}", cause),
        other => panic!("{:?}", other),
    }
    match create_default_icon(&[]) {
        Err(TrayError::Icon(cause)) => assert!(cause.starts_with("PNG decode error: "), "{}", cause),
        other => panic!("{:?}", other),
    }
}

#[test]
fn default_icon_reports_a_truncated_frame() {
    let pixels: Vec<u8> = (0..64 * 64 * 3).map(|i| (i * 7 % 253) as u8).collect();
    let file = rgb_png(64, 64, &pixels);
    let truncated = &file[..file.len() / 2];
    match create_default_icon(truncated) {
        Err(TrayError::Icon(cause)) => assert!(cause.starts_with("PNG frame error: "), "{}", cause),
        other => panic!("{:?}", other),
    }
}

#[test]
fn the_initial_icon_falls_back_to_the_static_one() {
    let file = rgb_png(2, 1, &[1, 2, 3, 40, 50, 60]);
    for workspace in 1..=9 {
        let icon = initial_icon(workspace, &file).unwrap();
        assert_eq!(icon.rgba, workspace_icon_rgba(workspace).unwrap());
        assert_eq!((icon.width, icon.height), (32, 32));
        // The file is not looked at.
        assert!(initial_icon(workspace, b"not a png").is_ok());
    }
    for workspace in [0, 10, 255] {
        let icon = initial_icon(workspace, &file).unwrap();
        assert_eq!(icon.rgba, vec![1, 2, 3, 255, 40, 50, 60, 255]);
        assert_eq!((icon.width, icon.height), (2, 1));
        match initial_icon(workspace, b"not a png") {
            Err(TrayError::Icon(cause)) => {
                assert!(cause.starts_with("PNG decode error: "), "{}", cause)
            }
            other => panic!("{:?}", other),
        }
    }
}

#[test]
fn a_frame_is_cut_to_its_size() {
    let frame = PngFrame {
        buffer: vec![1, 2, 3, 4, 5, 6, 7, 8],
        buffer_size: 4,
        width: 1,
        height: 1,
        color: ColorKind::Rgba,
    };
    assert_eq!(icon_from_frame(frame).rgba, vec![1, 2, 3, 4]);

    let frame = PngFrame {
        buffer: vec![1, 2, 3, 4, 5, 6, 7, 8],
        buffer_size: 7,
        width: 2,
        height: 1,
        color: ColorKind::Rgb,
    };
    assert_eq!(
        icon_from_frame(frame).rgba,
        vec![1, 2, 3, 255, 4, 5, 6, 255, 7, 255]
    );

    let frame = PngFrame {
        buffer: vec![9, 8],
        buffer_size: 100,
        width: 2,
        height: 1,
        color: ColorKind::Grayscale,
    };
    assert_eq!(icon_from_frame(frame).rgba, vec![9, 8]);
}

#[test]
fn test_tray_event_toggle_pause_variant() {
    let event = TrayEvent::TogglePause;
    assert!(matches!(event, TrayEvent::TogglePause));
}

#[test]
fn test_tray_event_release_all_windows_variant() {
    let event = TrayEvent::ReleaseAllWindows;
    assert!(matches!(event, TrayEvent::ReleaseAllWindows));
}

#[test]
fn test_tray_event_quick_toggle_variants() {
    assert!(matches!(
        TrayEvent::ToggleActiveBorder,
        TrayEvent::ToggleActiveBorder
    ));
    assert!(matches!(
        TrayEvent::ToggleFocusNewWindows,
        TrayEvent::ToggleFocusNewWindows
    ));
    assert!(matches!(
        TrayEvent::ToggleFocusFollowsMouse,
        TrayEvent::ToggleFocusFollowsMouse
    ));
    assert!(matches!(
        TrayEvent::SetCenteringCenter,
        TrayEvent::SetCenteringCenter
    ));
    assert!(matches!(
        TrayEvent::SetCenteringJustInView,
        TrayEvent::SetCenteringJustInView
    ));
}

#[test]
fn test_map_menu_id_to_event() {
    assert!(matches!(
        map_menu_id_to_event(menu_ids::REFRESH),
        Some(TrayEvent::Refresh)
    ));
    assert!(matches!(
        map_menu_id_to_event(menu_ids::RELOAD),
        Some(TrayEvent::Reload)
    ));
    assert!(matches!(
        map_menu_id_to_event(menu_ids::EXIT),
        Some(TrayEvent::Exit)
    ));
    assert!(matches!(
        map_menu_id_to_event(menu_ids::TOGGLE_PAUSE),
        Some(TrayEvent::TogglePause)
    ));
    assert!(matches!(
        map_menu_id_to_event(menu_ids::OPEN_CONFIG),
        Some(TrayEvent::OpenConfig)
    ));
    assert!(matches!(
        map_menu_id_to_event(menu_ids::OPEN_ABOUT),
        Some(TrayEvent::OpenAbout)
    ));
    assert!(matches!(
        map_menu_id_to_event(menu_ids::EDIT_CONFIG),
        Some(TrayEvent::EditConfig)
    ));
    assert!(matches!(
        map_menu_id_to_event(menu_ids::VIEW_LOGS),
        Some(TrayEvent::ViewLogs)
    ));
    assert!(matches!(
        map_menu_id_to_event(menu_ids::RELEASE_ALL_WINDOWS),
        Some(TrayEvent::ReleaseAllWindows)
    ));
    assert!(matches!(
        map_menu_id_to_event(menu_ids::TOGGLE_ACTIVE_BORDER),
        Some(TrayEvent::ToggleActiveBorder)
    ));
    assert!(matches!(
        map_menu_id_to_event(menu_ids::TOGGLE_FOCUS_NEW_WINDOWS),
        Some(TrayEvent::ToggleFocusNewWindows)
    ));
    assert!(matches!(
        map_menu_id_to_event(menu_ids::TOGGLE_FOCUS_FOLLOWS_MOUSE),
        Some(TrayEvent::ToggleFocusFollowsMouse)
    ));
    assert!(matches!(
        map_menu_id_to_event(menu_ids::CENTERING_CENTER),
        Some(TrayEvent::SetCenteringCenter)
    ));
    assert!(matches!(
        map_menu_id_to_event(menu_ids::CENTERING_JUST_IN_VIEW),
        Some(TrayEvent::SetCenteringJustInView)
    ));
    assert!(map_menu_id_to_event("unknown").is_none());
}

#[test]
fn test_tooltip_format() {
    let active = format_tooltip_text(14, 2, false, None, 1);
    assert_eq!(active, "LeopardWM - Active (WS 1, 14 windows, 2 monitors)");

    let paused = format_tooltip_text(3, 1, true, None, 1);
    assert_eq!(paused, "LeopardWM - Paused (WS 1, 3 windows, 1 monitors)");
}

#[test]
fn test_tooltip_format_with_hotkey_mismatch() {
    let tooltip = format_tooltip_text(10, 2, false, Some((7, 10)), 1);
    assert_eq!(
        tooltip,
        "LeopardWM - Active (WS 1, 10 windows, 2 monitors)\nHotkeys: 7/10 (3 failed)"
    );
}

#[test]
fn test_tooltip_format_no_hotkey_mismatch() {
    let tooltip = format_tooltip_text(10, 2, false, Some((10, 10)), 1);
    assert_eq!(tooltip, "LeopardWM - Active (WS 1, 10 windows, 2 monitors)");
}

#[test]
fn test_tooltip_format_paused_with_mismatch() {
    let tooltip = format_tooltip_text(5, 1, true, Some((3, 8)), 1);
    assert!(tooltip.contains("Paused"));
    assert!(tooltip.contains("3/8 (5 failed)"));
}

#[test]
fn test_menu_ids_constants() {
    let ids = [
        menu_ids::REFRESH,
        menu_ids::RELOAD,
        menu_ids::EXIT,
        menu_ids::TOGGLE_PAUSE,
        menu_ids::OPEN_CONFIG,
        menu_ids::OPEN_ABOUT,
        menu_ids::EDIT_CONFIG,
        menu_ids::VIEW_LOGS,
        menu_ids::RELEASE_ALL_WINDOWS,
        menu_ids::TOGGLE_ACTIVE_BORDER,
        menu_ids::TOGGLE_FOCUS_NEW_WINDOWS,
        menu_ids::TOGGLE_FOCUS_FOLLOWS_MOUSE,
        menu_ids::CENTERING_CENTER,
        menu_ids::CENTERING_JUST_IN_VIEW,
    ];
    for (i, a) in ids.iter().enumerate() {
        for (j, b) in ids.iter().enumerate() {
            if i != j {
                assert_ne!(a, b, "Menu IDs must be distinct");
            }
        }
    }
}

#[test]
fn every_menu_item_leads_back_to_its_event() {
    let events = [
        TrayEvent::Refresh,
        TrayEvent::Reload,
        TrayEvent::Exit,
        TrayEvent::TogglePause,
        TrayEvent::OpenConfig,
        TrayEvent::OpenAbout,
        TrayEvent::EditConfig,
        TrayEvent::ViewLogs,
        TrayEvent::ReleaseAllWindows,
        TrayEvent::ToggleActiveBorder,
        TrayEvent::ToggleFocusNewWindows,
        TrayEvent::ToggleFocusFollowsMouse,
        TrayEvent::ToggleHideOffscreenTaskbar,
        TrayEvent::ToggleAutoStart,
        TrayEvent::SetCenteringCenter,
        TrayEvent::SetCenteringJustInView,
        TrayEvent::SetCenteringOnOverflow,
        TrayEvent::SetPlacementNewColumn,
        TrayEvent::SetPlacementInColumn,
        TrayEvent::OpenReleasesPage,
    ];
    for event in events {
        assert_eq!(map_menu_id_to_event(menu_id(event)), Some(event));
    }
    assert_eq!(map_menu_id_to_event(""), None);
    assert_eq!(map_menu_id_to_event("Refresh"), None);
}

#[test]
fn chinese_tooltip_has_the_same_content() {
    assert_eq!(
        format_tooltip_text_zh(14, 2, false, None, 3),
        "LeopardWM - 运行中（工作区 3，14 个窗口，2 台显示器）"
    );
    assert_eq!(
        format_tooltip_text_zh(5, 1, true, Some((3, 8)), 1),
        "LeopardWM - 已暂停（工作区 1，5 个窗口，1 台显示器）\n快捷键：3/8（5 个注册失败）"
    );
    assert_eq!(
        format_tooltip_text_zh(5, 1, true, Some((9, 8)), 1),
        format_tooltip_text_zh(5, 1, true, None, 1)
    );
}

#[test]
fn icons_have_the_colors_of_disk_ring_and_number() {
    let icon = create_workspace_icon(1).unwrap();
    assert_eq!((icon.width, icon.height), (32, 32));
    let pixel = |x: usize, y: usize| {
        let at = (y * 32 + x) * 4;
        [
            icon.rgba[at],
            icon.rgba[at + 1],
            icon.rgba[at + 2],
            icon.rgba[at + 3],
        ]
    };
    // Outside, ring, disk, number.
    assert_eq!(pixel(0, 0), [0, 0, 0, 0]);
    assert_eq!(pixel(2, 15), [225, 245, 255, 255]);
    assert_eq!(pixel(6, 15), [0, 120, 212, 255]);
    assert_eq!(pixel(14, 5), [255, 255, 255, 255]);
    // The top row of the disk is half covered, and all ring.
    assert_eq!(pixel(15, 1), [225, 245, 255, 128]);
    // Between ring and disk the colors mix.
    let mixed = pixel(15, 3);
    assert!(mixed[0] > 0 && mixed[0] < 225);
    assert_eq!(mixed[3], 255);
}

/// The disk and ring by single-precision distances and mixing.
fn disk_by_floats(x: usize, y: usize) -> [u8; 4] {
    let center = (WORKSPACE_ICON_SIZE as f32 - 1.0) / 2.0;
    let mut disk_samples = 0u16;
    let mut ring_samples = 0u16;
    for sy in 0..4 {
        for sx in 0..4 {
            let px = x as f32 + (sx as f32 + 0.5) / 4.0;
            let py = y as f32 + (sy as f32 + 0.5) / 4.0;
            let dx = px - (center + 0.5);
            let dy = py - (center + 0.5);
            let distance = (dx * dx + dy * dy).sqrt();
            if distance <= 14.5f32 {
                disk_samples += 1;
            }
            if distance > 12.3f32 && distance <= 14.5f32 {
                ring_samples += 1;
            }
        }
    }
    if disk_samples == 0 {
        return [0, 0, 0, 0];
    }
    let ring_mix = ring_samples as f32 / disk_samples as f32;
    [
        (0.0 * (1.0 - ring_mix) + 225.0 * ring_mix) as u8,
        (120.0 * (1.0 - ring_mix) + 245.0 * ring_mix) as u8,
        (212.0 * (1.0 - ring_mix) + 255.0 * ring_mix) as u8,
        ((disk_samples as f32 / 16.0) * 255.0).round() as u8,
    ]
}

#[test]
fn whole_numbers_draw_what_floats_would() {
    for workspace in 1..=9 {
        let rgba = workspace_icon_rgba(workspace).unwrap();
        for y in 0..WORKSPACE_ICON_SIZE {
            for x in 0..WORKSPACE_ICON_SIZE {
                let at = (y * WORKSPACE_ICON_SIZE + x) * 4;
                let pixel = [rgba[at], rgba[at + 1], rgba[at + 2], rgba[at + 3]];
                assert!(
                    pixel == [255, 255, 255, 255] || pixel == disk_by_floats(x, y),
                    "{} {} {}: {:?}",
                    workspace,
                    x,
                    y,
                    pixel
                );
            }
        }
    }
}

#[test]
fn icon_indices_are_reported() {
    for workspace in [0u8, 10, 255] {
        match workspace_icon_rgba(workspace) {
            Err(TrayError::Icon(cause)) => assert_eq!(
                cause,
                format!("workspace icon index must be 1-9, got {}", workspace)
            ),
            other => panic!("{:?}", other),
        }
    }
    assert!(create_workspace_icon(0).is_err());
    assert!(create_workspace_icon(9).is_ok());
}

#[test]
fn errors_say_what_failed() {
    assert_eq!(
        TrayError::Menu("a".to_string()).message(),
        "Failed to create menu: a"
    );
    assert_eq!(
        TrayError::Build("b".to_string()).message(),
        "Failed to build tray icon: b"
    );
    assert_eq!(
        TrayError::Icon("c".to_string()).message(),
        "Failed to create icon: c"
    );
}

#[test]
fn the_language_follows_the_setting_and_the_system() {
    assert!(system_uses_chinese(CHINESE));
    assert!(system_uses_chinese(0x0c04));
    assert!(!system_uses_chinese(ENGLISH));
    assert!(!system_uses_chinese(0x0000));
    assert!(use_chinese(Language::System, CHINESE));
    assert!(!use_chinese(Language::System, ENGLISH));
    assert!(!use_chinese(Language::English, CHINESE));
    assert!(use_chinese(Language::SimplifiedChinese, ENGLISH));
}

fn labels(menu: &[MenuEntry]) -> Vec<String> {
    let mut labels = Vec::new();
    for entry in menu {
        match entry {
            MenuEntry::Leaf(leaf) => labels.push(leaf.label.clone()),
            MenuEntry::Separator => labels.push("-".to_string()),
            MenuEntry::Submenu { label, items } => {
                labels.push(format!("> {}", label));
                for leaf in items {
                    labels.push(format!("  {}", leaf.label));
                }
            }
        }
    }
    labels
}

#[test]
fn the_menu_is_complete_in_english() {
    let menu = build_tray(&settings(), false, "1.2.3");
    assert_eq!(
        labels(&menu),
        vec![
            "LeopardWM v1.2.3",
            "-",
            "Pause Tiling\tCtrl+Alt+P",
            "-",
            "Active Border",
            "Focus New Windows",
            "Focus Follows Mouse",
            "Hide Off-Screen Taskbar Buttons",
            "Start with Windows",
            "> Centering Mode",
            "  Center",
            "  Just in View",
            "  On Overflow",
            "> New Window Placement",
            "  New Column",
            "  In Focused Column",
            "-",
            "Check for Updates",
            "-",
            "Settings...",
            "Edit Config",
            "Reload Config\tCtrl+Alt+Shift+R",
            "-",
            "> Troubleshooting",
            "  Refresh Windows\tCtrl+Alt+R",
            "  View Logs",
            "  Release All Windows",
            "-",
            "Exit",
        ]
    );
}

#[test]
fn the_menu_is_complete_in_chinese() {
    let menu = build_tray(&settings(), true, "1.2.3");
    assert_eq!(
        labels(&menu),
        vec![
            "LeopardWM v1.2.3",
            "-",
            "暂停平铺\tCtrl+Alt+P",
            "-",
            "活动窗口边框",
            "聚焦新窗口",
            "焦点跟随鼠标",
            "隐藏屏幕外窗口的任务栏按钮",
            "随 Windows 启动",
            "> 居中模式",
            "  居中",
            "  仅保持可见",
            "  溢出时居中",
            "> 新窗口位置",
            "  新列",
            "  放入焦点列",
            "-",
            "检查更新",
            "-",
            "设置...",
            "编辑配置",
            "重新加载配置\tCtrl+Alt+Shift+R",
            "-",
            "> 故障排除",
            "  刷新窗口\tCtrl+Alt+R",
            "  查看日志",
            "  释放所有窗口",
            "-",
            "退出",
        ]
    );
}

#[test]
fn the_menu_carries_the_initial_check_marks() {
    let menu = build_tray(&settings(), false, "0");
    let mut checks = Vec::new();
    for entry in &menu {
        match entry {
            MenuEntry::Leaf(leaf) => {
                if let Some(checked) = leaf.checked {
                    checks.push((leaf.id, checked));
                }
            }
            MenuEntry::Separator => {}
            MenuEntry::Submenu { items, .. } => {
                for leaf in items {
                    if let Some(checked) = leaf.checked {
                        checks.push((leaf.id, checked));
                    }
                }
            }
        }
    }
    assert_eq!(
        checks,
        vec![
            (menu_ids::TOGGLE_ACTIVE_BORDER, true),
            (menu_ids::TOGGLE_FOCUS_NEW_WINDOWS, false),
            (menu_ids::TOGGLE_FOCUS_FOLLOWS_MOUSE, true),
            (menu_ids::TOGGLE_HIDE_OFFSCREEN_TASKBAR, false),
            (menu_ids::TOGGLE_AUTO_START, true),
            (menu_ids::CENTERING_CENTER, false),
            (menu_ids::CENTERING_JUST_IN_VIEW, true),
            (menu_ids::CENTERING_ON_OVERFLOW, false),
            (menu_ids::PLACEMENT_NEW_COLUMN, false),
            (menu_ids::PLACEMENT_IN_COLUMN, true),
        ]
    );
}

#[test]
fn the_loop_follows_the_tooltip_and_the_workspace() {
    let mut tray = TrayManager::new(settings(), 42, ENGLISH);
    assert_eq!(tray.active_workspace(), 9);
    let mut tray_loop = TrayLoop::new(&settings(), ENGLISH, &tray);
    match tray_loop.run_tray_thread(1, true, WM_APP_UPDATE_TOOLTIP, &tray) {
        LoopStep::ShowTooltip { text, workspace } => {
            assert_eq!(text, "LeopardWM - Tiling Window Manager");
            assert_eq!(workspace, None);
        }
        other => panic!("{:?}", other),
    }

    assert_eq!(
        tray.update_tooltip(14, 2, false, None, 0),
        WM_APP_UPDATE_TOOLTIP
    );
    for expected in [Some(1), None] {
        match tray_loop.run_tray_thread(1, true, WM_APP_UPDATE_TOOLTIP, &tray) {
            LoopStep::ShowTooltip { text, workspace } => {
                assert_eq!(text, "LeopardWM - Active (WS 0, 14 windows, 2 monitors)");
                assert_eq!(workspace, expected);
            }
            other => panic!("{:?}", other),
        }
        tray_loop.icon_shown(1);
    }
}

#[test]
fn the_loop_follows_pause_and_updates_in_its_first_language() {
    let mut tray = TrayManager::new(settings(), 1, CHINESE);
    let tray_loop = TrayLoop::new(&settings(), CHINESE, &tray);
    assert_eq!(tray.update_pause_text(true), WM_APP_UPDATE_PAUSE);
    let mut english = settings();
    english.language = Language::English;
    assert_eq!(
        tray.update_quick_toggles(&english, CHINESE),
        WM_APP_UPDATE_TOGGLES
    );
    assert!(matches!(
        tray_loop.run_tray_thread(1, true, WM_APP_UPDATE_PAUSE, &tray),
        LoopStep::ShowPause {
            label: "恢复平铺\tCtrl+Alt+P"
        }
    ));
    tray.update_pause_text(false);
    assert!(matches!(
        tray_loop.run_tray_thread(1, true, WM_APP_UPDATE_PAUSE, &tray),
        LoopStep::ShowPause {
            label: "暂停平铺\tCtrl+Alt+P"
        }
    ));
    assert_eq!(
        tray.set_available_update(Some("v0.1.11".to_string())),
        WM_APP_UPDATE_RELEASE_INFO
    );
    match tray_loop.run_tray_thread(1, true, WM_APP_UPDATE_RELEASE_INFO, &tray) {
        LoopStep::ShowUpdate { label } => assert_eq!(label, "有可用更新：v0.1.11"),
        other => panic!("{:?}", other),
    }
    let english_loop = TrayLoop::new(&english, CHINESE, &tray);
    match english_loop.run_tray_thread(1, true, WM_APP_UPDATE_RELEASE_INFO, &tray) {
        LoopStep::ShowUpdate { label } => assert_eq!(label, "Update available: v0.1.11"),
        other => panic!("{:?}", other),
    }
    tray.set_available_update(None);
    match english_loop.run_tray_thread(1, true, WM_APP_UPDATE_RELEASE_INFO, &tray) {
        LoopStep::ShowUpdate { label } => assert_eq!(label, "Check for Updates"),
        other => panic!("{:?}", other),
    }
    // The tooltip changes its language with the setting.
    tray.update_tooltip(1, 1, false, None, 1);
    match tray_loop.run_tray_thread(1, true, WM_APP_UPDATE_TOOLTIP, &tray) {
        LoopStep::ShowTooltip { text, .. } => {
            assert_eq!(text, "LeopardWM - Active (WS 1, 1 windows, 1 monitors)")
        }
        other => panic!("{:?}", other),
    }
}

#[test]
fn the_loop_sets_every_check_mark() {
    let mut tray = TrayManager::new(settings(), 1, ENGLISH);
    let tray_loop = TrayLoop::new(&settings(), ENGLISH, &tray);
    let mut changed = settings();
    changed.active_border = false;
    changed.focus_new_windows = true;
    changed.centering_mode = CENTERING_ON_OVERFLOW;
    changed.placement_mode = PLACEMENT_NEW_COLUMN;
    tray.update_quick_toggles(&changed, ENGLISH);
    match tray_loop.run_tray_thread(1, true, WM_APP_UPDATE_TOGGLES, &tray) {
        LoopStep::ShowChecks { checks } => {
            let checks: Vec<(&str, bool)> = checks.iter().map(|c| (c.id, c.checked)).collect();
            assert_eq!(
                checks,
                vec![
                    (menu_ids::TOGGLE_ACTIVE_BORDER, false),
                    (menu_ids::TOGGLE_FOCUS_NEW_WINDOWS, true),
                    (menu_ids::TOGGLE_FOCUS_FOLLOWS_MOUSE, true),
                    (menu_ids::TOGGLE_HIDE_OFFSCREEN_TASKBAR, false),
                    (menu_ids::TOGGLE_AUTO_START, true),
                    (menu_ids::CENTERING_CENTER, false),
                    (menu_ids::CENTERING_JUST_IN_VIEW, false),
                    (menu_ids::CENTERING_ON_OVERFLOW, true),
                    (menu_ids::PLACEMENT_NEW_COLUMN, true),
                    (menu_ids::PLACEMENT_IN_COLUMN, false),
                ]
            );
        }
        other => panic!("{:?}", other),
    }
}

#[test]
fn the_loop_ends_and_dispatches() {
    let tray = TrayManager::new(settings(), 1, ENGLISH);
    let tray_loop = TrayLoop::new(&settings(), ENGLISH, &tray);
    assert!(matches!(
        tray_loop.run_tray_thread(0, true, WM_APP_UPDATE_PAUSE, &tray),
        LoopStep::Quit
    ));
    assert!(matches!(
        tray_loop.run_tray_thread(-1, false, 0, &tray),
        LoopStep::Quit
    ));
    assert!(matches!(
        tray_loop.run_tray_thread(1, false, WM_APP_UPDATE_PAUSE, &tray),
        LoopStep::Dispatch
    ));
    assert!(matches!(
        tray_loop.run_tray_thread(1, true, 0x8004, &tray),
        LoopStep::Dispatch
    ));
}

#[test]
fn class_names_are_decoded_up_to_what_was_written() {
    let mut buffer = [0u16; 16];
    for (i, unit) in "Chrome".encode_utf16().enumerate() {
        buffer[i] = unit;
    }
    assert_eq!(window_class_name(&buffer, 6), "Chrome");
    assert_eq!(window_class_name(&buffer, 3), "Chr");
    assert_eq!(window_class_name(&buffer, 0), "");
    assert_eq!(window_class_name(&buffer, -5), "");
    let units = [0xd834, 0xdd1e, 0x6d, 0xdd1e, 0x69, 0xd834];
    assert_eq!(window_class_name(&units, 6), "𝄞m\u{fffd}i\u{fffd}");
}
