//! The tray menu: its check items, its commands, and what each command does to the settings.
use vstd::prelude::*;
use crate::settings::{Settings, SettingsModel};
use crate::text::str_eq;

verus! {

/// The check items of the tray menu, one per native flag.
#[derive(Clone, Copy, Debug, PartialEq, Eq, Structural)]
pub enum CheckItem {
    MinimizeToTray,
    StartMinimized,
    Autostart,
    StreamPerformance,
    DisableGpu,
    GameMode,
    AutoUpdateCheck,
}

/// What the host must do after the settings changed.
pub struct Effects {
    /// Check marks to set, in this order.
    pub checks: Vec<(CheckItem, bool)>,
    /// Enable (`true`) or disable (`false`) launching at login.
    pub launcher: Option<bool>,
    /// Write the settings to disk.
    pub save: bool,
    /// Send the settings to the page.
    pub sync: bool,
    /// Start a quiet update check.
    pub quiet_update_check: bool,
}

/// The flag of `m` that the check item `item` shows.
pub open spec fn check_value(m: SettingsModel, item: CheckItem) -> bool {
    match item {
        CheckItem::MinimizeToTray => m.minimize_to_tray,
        CheckItem::StartMinimized => m.start_minimized,
        CheckItem::Autostart => m.autostart,
        CheckItem::StreamPerformance => m.stream_performance,
        CheckItem::DisableGpu => m.disable_gpu,
        CheckItem::GameMode => m.game_mode,
        CheckItem::AutoUpdateCheck => m.auto_update_check,
    }
}

/// The menu identifier of each check item.
pub open spec fn menu_id_text(item: CheckItem) -> Seq<char> {
    match item {
        CheckItem::MinimizeToTray => "t_tray"@,
        CheckItem::StartMinimized => "t_startmin"@,
        CheckItem::Autostart => "t_autostart"@,
        CheckItem::StreamPerformance => "t_stream"@,
        CheckItem::DisableGpu => "t_gpu"@,
        CheckItem::GameMode => "t_game"@,
        CheckItem::AutoUpdateCheck => "t_auto_update"@,
    }
}

/// The label key of each check item (see `tray_label`).
pub open spec fn label_key_text(item: CheckItem) -> Seq<char> {
    match item {
        CheckItem::MinimizeToTray => "tray"@,
        CheckItem::StartMinimized => "startmin"@,
        CheckItem::Autostart => "autostart"@,
        CheckItem::StreamPerformance => "stream"@,
        CheckItem::DisableGpu => "gpu"@,
        CheckItem::GameMode => "game"@,
        CheckItem::AutoUpdateCheck => "auto_update"@,
    }
}

impl CheckItem {
    /// The flag of `s` that this item shows.
    pub fn checked(self, s: &Settings) -> (r: bool)
        ensures
            r == check_value(s@, self),
    {
        match self {
            CheckItem::MinimizeToTray => s.minimize_to_tray,
            CheckItem::StartMinimized => s.start_minimized,
            CheckItem::Autostart => s.autostart,
            CheckItem::StreamPerformance => s.stream_performance,
            CheckItem::DisableGpu => s.disable_gpu,
            CheckItem::GameMode => s.game_mode,
            CheckItem::AutoUpdateCheck => s.auto_update_check,
        }
    }

    /// The menu identifier of this item.
    pub fn menu_id(self) -> (r: &'static str)
        ensures
            r@ == menu_id_text(self),
    {
        match self {
            CheckItem::MinimizeToTray => "t_tray",
            CheckItem::StartMinimized => "t_startmin",
            CheckItem::Autostart => "t_autostart",
            CheckItem::StreamPerformance => "t_stream",
            CheckItem::DisableGpu => "t_gpu",
            CheckItem::GameMode => "t_game",
            CheckItem::AutoUpdateCheck => "t_auto_update",
        }
    }

    /// The label key of this item.
    pub fn label_key(self) -> (r: &'static str)
        ensures
            r@ == label_key_text(self),
    {
        match self {
            CheckItem::MinimizeToTray => "tray",
            CheckItem::StartMinimized => "startmin",
            CheckItem::Autostart => "autostart",
            CheckItem::StreamPerformance => "stream",
            CheckItem::DisableGpu => "gpu",
            CheckItem::GameMode => "game",
            CheckItem::AutoUpdateCheck => "auto_update",
        }
    }
}

/// A command chosen in the tray menu.
#[derive(Clone, Copy, Debug, PartialEq, Eq, Structural)]
pub enum MenuCommand {
    Toggle(CheckItem),
    OpenSettings,
    ClearCache,
    Repair,
    CheckUpdate,
    Show,
    Quit,
    Ignore,
}

/// The command of the menu entry with identifier `id`.
pub open spec fn menu_command_of(id: Seq<char>) -> MenuCommand {
    if id == "t_tray"@ {
        MenuCommand::Toggle(CheckItem::MinimizeToTray)
    } else if id == "t_startmin"@ {
        MenuCommand::Toggle(CheckItem::StartMinimized)
    } else if id == "t_autostart"@ {
        MenuCommand::Toggle(CheckItem::Autostart)
    } else if id == "t_gpu"@ {
        MenuCommand::Toggle(CheckItem::DisableGpu)
    } else if id == "t_stream"@ {
        MenuCommand::Toggle(CheckItem::StreamPerformance)
    } else if id == "t_game"@ {
        MenuCommand::Toggle(CheckItem::GameMode)
    } else if id == "t_auto_update"@ {
        MenuCommand::Toggle(CheckItem::AutoUpdateCheck)
    } else if id == "settings"@ {
        MenuCommand::OpenSettings
    } else if id == "clear_cache"@ {
        MenuCommand::ClearCache
    } else if id == "repair"@ {
        MenuCommand::Repair
    } else if id == "check_update"@ {
        MenuCommand::CheckUpdate
    } else if id == "show"@ {
        MenuCommand::Show
    } else if id == "quit"@ {
        MenuCommand::Quit
    } else {
        MenuCommand::Ignore
    }
}

/// The command of the menu entry with identifier `id`.
pub fn menu_command(id: &str) -> (r: MenuCommand)
    ensures
        r == menu_command_of(id@),
{
    if str_eq(id, "t_tray") {
        MenuCommand::Toggle(CheckItem::MinimizeToTray)
    } else if str_eq(id, "t_startmin") {
        MenuCommand::Toggle(CheckItem::StartMinimized)
    } else if str_eq(id, "t_autostart") {
        MenuCommand::Toggle(CheckItem::Autostart)
    } else if str_eq(id, "t_gpu") {
        MenuCommand::Toggle(CheckItem::DisableGpu)
    } else if str_eq(id, "t_stream") {
        MenuCommand::Toggle(CheckItem::StreamPerformance)
    } else if str_eq(id, "t_game") {
        MenuCommand::Toggle(CheckItem::GameMode)
    } else if str_eq(id, "t_auto_update") {
        MenuCommand::Toggle(CheckItem::AutoUpdateCheck)
    } else if str_eq(id, "settings") {
        MenuCommand::OpenSettings
    } else if str_eq(id, "clear_cache") {
        MenuCommand::ClearCache
    } else if str_eq(id, "repair") {
        MenuCommand::Repair
    } else if str_eq(id, "check_update") {
        MenuCommand::CheckUpdate
    } else if str_eq(id, "show") {
        MenuCommand::Show
    } else if str_eq(id, "quit") {
        MenuCommand::Quit
    } else {
        MenuCommand::Ignore
    }
}

/// The settings after the check item `item` was clicked: its flag flips, and turning
/// hardware acceleration off and screen-share performance on exclude each other.
pub open spec fn toggled(m: SettingsModel, item: CheckItem) -> SettingsModel {
    match item {
        CheckItem::MinimizeToTray => SettingsModel { minimize_to_tray: !m.minimize_to_tray, ..m },
        CheckItem::StartMinimized => SettingsModel { start_minimized: !m.start_minimized, ..m },
        CheckItem::Autostart => SettingsModel { autostart: !m.autostart, ..m },
        CheckItem::StreamPerformance => SettingsModel {
            stream_performance: !m.stream_performance,
            disable_gpu: if !m.stream_performance { false } else { m.disable_gpu },
            ..m
        },
        CheckItem::DisableGpu => SettingsModel {
            disable_gpu: !m.disable_gpu,
            stream_performance: if !m.disable_gpu { false } else { m.stream_performance },
            ..m
        },
        CheckItem::GameMode => SettingsModel { game_mode: !m.game_mode, ..m },
        CheckItem::AutoUpdateCheck => SettingsModel { auto_update_check: !m.auto_update_check, ..m },
    }
}

/// The check marks set after `item` was clicked, given the new settings `m`.
pub open spec fn toggle_checks(m: SettingsModel, item: CheckItem) -> Seq<(CheckItem, bool)> {
    match item {
        CheckItem::DisableGpu => if m.disable_gpu {
            seq![(CheckItem::DisableGpu, true), (CheckItem::StreamPerformance, false)]
        } else {
            seq![(CheckItem::DisableGpu, false)]
        },
        CheckItem::StreamPerformance => if m.stream_performance {
            seq![(CheckItem::StreamPerformance, true), (CheckItem::DisableGpu, false)]
        } else {
            seq![(CheckItem::StreamPerformance, false)]
        },
        _ => seq![(item, check_value(m, item))],
    }
}

/// Clicks the check item `item`: flips its flag (see [`toggled`]) and says which check marks
/// to set; the settings are saved and sent to the page, the launcher follows the autostart
/// flag, and turning automatic update checks on starts a quiet check.
pub fn apply_toggle(s: &mut Settings, item: CheckItem) -> (fx: Effects)
    ensures
        final(s)@ == toggled(old(s)@, item),
        fx.checks@ == toggle_checks(final(s)@, item),
        fx.launcher == (if item == CheckItem::Autostart {
            Some(final(s).autostart)
        } else {
            None::<bool>
        }),
        fx.save,
        fx.sync,
        fx.quiet_update_check == (item == CheckItem::AutoUpdateCheck && final(s).auto_update_check),
{
    let mut launcher: Option<bool> = None;
    let mut quiet_update_check = false;
    let checks: Vec<(CheckItem, bool)> = match item {
        CheckItem::MinimizeToTray => {
            s.minimize_to_tray = !s.minimize_to_tray;
            vec![(item, s.minimize_to_tray)]
        },
        CheckItem::StartMinimized => {
            s.start_minimized = !s.start_minimized;
            vec![(item, s.start_minimized)]
        },
        CheckItem::Autostart => {
            s.autostart = !s.autostart;
            launcher = Some(s.autostart);
            vec![(item, s.autostart)]
        },
        CheckItem::DisableGpu => {
            s.disable_gpu = !s.disable_gpu;
            if s.disable_gpu {
                s.stream_performance = false;
                vec![(CheckItem::DisableGpu, true), (CheckItem::StreamPerformance, false)]
            } else {
                vec![(CheckItem::DisableGpu, false)]
            }
        },
        CheckItem::StreamPerformance => {
            s.stream_performance = !s.stream_performance;
            if s.stream_performance {
                s.disable_gpu = false;
                vec![(CheckItem::StreamPerformance, true), (CheckItem::DisableGpu, false)]
            } else {
                vec![(CheckItem::StreamPerformance, false)]
            }
        },
        CheckItem::GameMode => {
            s.game_mode = !s.game_mode;
            vec![(item, s.game_mode)]
        },
        CheckItem::AutoUpdateCheck => {
            s.auto_update_check = !s.auto_update_check;
            quiet_update_check = s.auto_update_check;
            vec![(item, s.auto_update_check)]
        },
    };
    Effects { checks, launcher, save: true, sync: true, quiet_update_check }
}

/// The settings after a safe restart was asked for: the browser flags and game mode are off.
pub open spec fn repaired(m: SettingsModel) -> SettingsModel {
    SettingsModel { stream_performance: false, disable_gpu: false, game_mode: false, ..m }
}

/// Prepares a safe restart: turns off the options that can leave the window blank, unchecks
/// them and saves; the page is not told (it is reset and the client restarts).
pub fn apply_repair(s: &mut Settings) -> (fx: Effects)
    ensures
        final(s)@ == repaired(old(s)@),
        fx.checks@ == seq![
            (CheckItem::StreamPerformance, false),
            (CheckItem::DisableGpu, false),
            (CheckItem::GameMode, false),
        ],
        fx.launcher == None::<bool>,
        fx.save,
        !fx.sync,
        !fx.quiet_update_check,
{
    s.stream_performance = false;
    s.disable_gpu = false;
    s.game_mode = false;
    Effects {
        checks: vec![
            (CheckItem::StreamPerformance, false),
            (CheckItem::DisableGpu, false),
            (CheckItem::GameMode, false),
        ],
        launcher: None,
        save: true,
        sync: false,
        quiet_update_check: false,
    }
}

} // verus!
