//! The settings that the tray shows, and the language it speaks.

use vstd::prelude::*;

verus! {

/// Centering mode: the focused column is centered.
pub const CENTERING_CENTER: u8 = 0;

/// Centering mode: the focused column is kept in view.
pub const CENTERING_JUST_IN_VIEW: u8 = 1;

/// Centering mode: the focused column is centered when it would overflow.
pub const CENTERING_ON_OVERFLOW: u8 = 2;

/// New windows open in a column of their own.
pub const PLACEMENT_NEW_COLUMN: u8 = 0;

/// New windows join the focused column.
pub const PLACEMENT_IN_COLUMN: u8 = 1;

/// The low bits of a language id that hold the primary language, counted.
pub const PRIMARY_LANGUAGES: u16 = 1024;

/// The primary language Chinese.
pub const LANG_CHINESE: u16 = 4;

/// The configured language.
#[derive(Clone, Copy, Debug, PartialEq, Eq, Structural)]
pub enum Language {
    /// Whatever the system uses.
    System,
    English,
    SimplifiedChinese,
}

/// The state of the quick toggles.
#[derive(Clone, Copy, Debug, PartialEq, Eq, Structural)]
pub struct QuickToggleState {
    pub language: Language,
    pub active_border: bool,
    pub focus_new_windows: bool,
    pub focus_follows_mouse: bool,
    pub hide_offscreen_taskbar: bool,
    pub auto_start: bool,
    /// One of the `CENTERING_` values.
    pub centering_mode: u8,
    /// One of the `PLACEMENT_` values.
    pub placement_mode: u8,
}

/// The primary language of a language id is Chinese.
pub open spec fn chinese_langid(langid: u16) -> bool {
    langid % PRIMARY_LANGUAGES == LANG_CHINESE
}

/// Whether a system with this user interface language id uses Chinese.
pub fn system_uses_chinese(langid: u16) -> (r: bool)
    ensures
        r == chinese_langid(langid),
{
    assert(langid & 0x03ff == langid % 1024) by (bit_vector);
    langid & 0x03ff == LANG_CHINESE
}

/// Chinese is in force.
pub open spec fn speaks_chinese(language: Language, langid: u16) -> bool {
    match language {
        Language::System => chinese_langid(langid),
        Language::English => false,
        Language::SimplifiedChinese => true,
    }
}

/// Whether Chinese is in force, given the configured language and the
/// language id of the system's user interface.
pub fn use_chinese(language: Language, langid: u16) -> (r: bool)
    ensures
        r == speaks_chinese(language, langid),
{
    match language {
        Language::System => system_uses_chinese(langid),
        Language::English => false,
        Language::SimplifiedChinese => true,
    }
}

/// The text in the language in force.
pub open spec fn translated(zh: bool, en: Seq<char>, cn: Seq<char>) -> Seq<char> {
    if zh {
        cn
    } else {
        en
    }
}

/// The text in the language in force.
pub fn tr(zh: bool, en: &'static str, cn: &'static str) -> (text: &'static str)
    ensures
        text@ == translated(zh, en@, cn@),
{
    if zh {
        cn
    } else {
        en
    }
}

} // verus!
