//! The tray tooltip.

use vstd::prelude::*;

use crate::text::decimal;
use crate::text::decimal_text;

verus! {

/// Hotkeys that could not be registered, given those registered and those
/// requested; none when every one was.
pub open spec fn failed_hotkeys(hotkey_mismatch: Option<(usize, usize)>) -> nat {
    match hotkey_mismatch {
        Some((registered, requested)) => if registered < requested {
            (requested - registered) as nat
        } else {
            0
        },
        None => 0,
    }
}

/// The English tooltip: status, active workspace and counts, and a second line
/// when hotkeys failed to register.
pub open spec fn english_tooltip(
    window_count: usize,
    monitor_count: usize,
    paused: bool,
    hotkey_mismatch: Option<(usize, usize)>,
    active_workspace: u8,
) -> Seq<char> {
    let status = if paused {
        "Paused"@
    } else {
        "Active"@
    };
    let summary = "LeopardWM - "@ + status + " (WS "@ + decimal(active_workspace as nat) + ", "@
        + decimal(window_count as nat) + " windows, "@ + decimal(monitor_count as nat)
        + " monitors)"@;
    if failed_hotkeys(hotkey_mismatch) > 0 {
        summary + "\nHotkeys: "@ + decimal((hotkey_mismatch->0).0 as nat) + "/"@ + decimal(
            (hotkey_mismatch->0).1 as nat,
        ) + " ("@ + decimal(failed_hotkeys(hotkey_mismatch)) + " failed)"@
    } else {
        summary
    }
}

/// The Chinese tooltip, with the same content.
pub open spec fn chinese_tooltip(
    window_count: usize,
    monitor_count: usize,
    paused: bool,
    hotkey_mismatch: Option<(usize, usize)>,
    active_workspace: u8,
) -> Seq<char> {
    let status = if paused {
        "已暂停"@
    } else {
        "运行中"@
    };
    let summary = "LeopardWM - "@ + status + "（工作区 "@ + decimal(active_workspace as nat) + "，"@
        + decimal(window_count as nat) + " 个窗口，"@ + decimal(monitor_count as nat)
        + " 台显示器）"@;
    if failed_hotkeys(hotkey_mismatch) > 0 {
        summary + "\n快捷键："@ + decimal((hotkey_mismatch->0).0 as nat) + "/"@ + decimal(
            (hotkey_mismatch->0).1 as nat,
        ) + "（"@ + decimal(failed_hotkeys(hotkey_mismatch)) + " 个注册失败）"@
    } else {
        summary
    }
}

/// Format the English tray tooltip.
pub fn format_tooltip_text(
    window_count: usize,
    monitor_count: usize,
    paused: bool,
    hotkey_mismatch: Option<(usize, usize)>,
    active_workspace: u8,
) -> (tooltip: String)
    ensures
        tooltip@ == english_tooltip(
            window_count,
            monitor_count,
            paused,
            hotkey_mismatch,
            active_workspace,
        ),
{
    let status = if paused {
        "Paused"
    } else {
        "Active"
    };
    let mut tooltip = "LeopardWM - ".to_owned();
    tooltip.append(status);
    tooltip.append(" (WS ");
    tooltip.append(decimal_text(active_workspace as u64).as_str());
    tooltip.append(", ");
    tooltip.append(decimal_text(window_count as u64).as_str());
    tooltip.append(" windows, ");
    tooltip.append(decimal_text(monitor_count as u64).as_str());
    tooltip.append(" monitors)");
    if let Some((registered, requested)) = hotkey_mismatch {
        if registered < requested {
            tooltip.append("\nHotkeys: ");
            tooltip.append(decimal_text(registered as u64).as_str());
            tooltip.append("/");
            tooltip.append(decimal_text(requested as u64).as_str());
            tooltip.append(" (");
            tooltip.append(decimal_text((requested - registered) as u64).as_str());
            tooltip.append(" failed)");
        }
    }
    tooltip
}

/// Format the Chinese tray tooltip.
pub fn format_tooltip_text_zh(
    window_count: usize,
    monitor_count: usize,
    paused: bool,
    hotkey_mismatch: Option<(usize, usize)>,
    active_workspace: u8,
) -> (tooltip: String)
    ensures
        tooltip@ == chinese_tooltip(
            window_count,
            monitor_count,
            paused,
            hotkey_mismatch,
            active_workspace,
        ),
{
    let status = if paused {
        "已暂停"
    } else {
        "运行中"
    };
    let mut tooltip = "LeopardWM - ".to_owned();
    tooltip.append(status);
    tooltip.append("（工作区 ");
    tooltip.append(decimal_text(active_workspace as u64).as_str());
    tooltip.append("，");
    tooltip.append(decimal_text(window_count as u64).as_str());
    tooltip.append(" 个窗口，");
    tooltip.append(decimal_text(monitor_count as u64).as_str());
    tooltip.append(" 台显示器）");
    if let Some((registered, requested)) = hotkey_mismatch {
        if registered < requested {
            tooltip.append("\n快捷键：");
            tooltip.append(decimal_text(registered as u64).as_str());
            tooltip.append("/");
            tooltip.append(decimal_text(requested as u64).as_str());
            tooltip.append("（");
            tooltip.append(decimal_text((requested - registered) as u64).as_str());
            tooltip.append(" 个注册失败）");
        }
    }
    tooltip
}

/// The tooltip has no hotkey line when every requested hotkey was registered:
/// it is the one shown when nothing is known of the hotkeys.
pub proof fn law_no_warning_without_failures(
    window_count: usize,
    monitor_count: usize,
    paused: bool,
    registered: usize,
    requested: usize,
    active_workspace: u8,
)
    requires
        registered >= requested,
    ensures
        english_tooltip(
            window_count,
            monitor_count,
            paused,
            Some((registered, requested)),
            active_workspace,
        ) == english_tooltip(window_count, monitor_count, paused, None, active_workspace),
        chinese_tooltip(
            window_count,
            monitor_count,
            paused,
            Some((registered, requested)),
            active_workspace,
        ) == chinese_tooltip(window_count, monitor_count, paused, None, active_workspace),
{
}

} // verus!
