//! The native settings of the client (kept in `settings.json`).
use vstd::prelude::*;

verus! {

/// Native settings: tray behaviour, autostart, browser flags, updates, shortcut, language.
#[derive(Clone, Debug, PartialEq, Eq)]
pub struct Settings {
    pub minimize_to_tray: bool,
    pub autostart: bool,
    pub start_minimized: bool,
    pub disable_gpu: bool,
    pub stream_performance: bool,
    pub auto_update_check: bool,
    pub game_mode: bool,
    pub mute_shortcut: String,
    pub language: String,
}

/// The mathematical model of [`Settings`]: its flags, and its strings as characters.
pub struct SettingsModel {
    pub minimize_to_tray: bool,
    pub autostart: bool,
    pub start_minimized: bool,
    pub disable_gpu: bool,
    pub stream_performance: bool,
    pub auto_update_check: bool,
    pub game_mode: bool,
    pub mute_shortcut: Seq<char>,
    pub language: Seq<char>,
}

impl View for Settings {
    type V = SettingsModel;

    open spec fn view(&self) -> SettingsModel {
        SettingsModel {
            minimize_to_tray: self.minimize_to_tray,
            autostart: self.autostart,
            start_minimized: self.start_minimized,
            disable_gpu: self.disable_gpu,
            stream_performance: self.stream_performance,
            auto_update_check: self.auto_update_check,
            game_mode: self.game_mode,
            mute_shortcut: self.mute_shortcut@,
            language: self.language@,
        }
    }
}

/// The shortcut that toggles the microphone when none is configured.
pub const DEFAULT_MUTE_SHORTCUT: &'static str = "CommandOrControl+Shift+M";

/// The interface language when none is configured.
pub const DEFAULT_LANGUAGE: &'static str = "tr";

/// The default of a flag that is on unless configured off.
pub fn default_true() -> (r: bool)
    ensures
        r,
{
    true
}

/// The default interface language, Turkish.
pub fn default_language() -> (r: String)
    ensures
        r@ == DEFAULT_LANGUAGE@,
{
    DEFAULT_LANGUAGE.to_owned()
}

/// The default microphone shortcut.
pub fn default_mute_shortcut() -> (r: String)
    ensures
        r@ == DEFAULT_MUTE_SHORTCUT@,
{
    DEFAULT_MUTE_SHORTCUT.to_owned()
}

/// The settings of a fresh installation.
pub open spec fn default_model() -> SettingsModel {
    SettingsModel {
        minimize_to_tray: true,
        autostart: false,
        start_minimized: false,
        disable_gpu: false,
        stream_performance: false,
        auto_update_check: true,
        game_mode: false,
        mute_shortcut: DEFAULT_MUTE_SHORTCUT@,
        language: DEFAULT_LANGUAGE@,
    }
}

impl Default for Settings {
    fn default() -> (r: Self)
        ensures
            r@ == default_model(),
    {
        Settings {
            minimize_to_tray: true,
            autostart: false,
            start_minimized: false,
            disable_gpu: false,
            stream_performance: false,
            auto_update_check: default_true(),
            game_mode: false,
            mute_shortcut: default_mute_shortcut(),
            language: default_language(),
        }
    }
}

} // verus!
