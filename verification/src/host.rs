//! Decisions of the host window: closing, reloading, start-up, and update checks.
use vstd::prelude::*;
use crate::settings::{default_mute_shortcut, Settings, SettingsModel, DEFAULT_MUTE_SHORTCUT};
use crate::text::{has_prefix, starts_with};

verus! {

/// The page that the client shows.
pub const DISCORD_URL: &'static str = "https://discord.com/app";

/// The page that a suspended window shows.
pub const BLANK_URL: &'static str = "about:blank";

/// The label of the main window.
pub const MAIN_WINDOW: &'static str = "main";

/// The file that holds the native settings, in the configuration directory.
pub const SETTINGS_FILE: &'static str = "settings.json";

/// A file next to the executable that makes the installation portable.
pub const PORTABLE_FLAG_FILE: &'static str = "portable.flag";

/// The configuration directory of a portable installation, next to the executable.
pub const PORTABLE_DATA_DIR: &'static str = "data";

/// How long a safe restart waits before restarting, in milliseconds.
pub const REPAIR_RESTART_DELAY_MS: u64 = 500;

/// How often automatic update checks run, in seconds (six hours).
pub const AUTO_UPDATE_INTERVAL_SECS: u64 = 21600;

/// Browser flags when hardware acceleration is off.
pub const GPU_OFF_BROWSER_ARGS: &'static str = "--disable-features=msWebOOUI,msPdfOOUI,msSmartScreenProtection --disable-gpu";

/// Browser flags for smooth screen sharing (background throttling off).
pub const STREAM_BROWSER_ARGS: &'static str = "--disable-features=msWebOOUI,msPdfOOUI,msSmartScreenProtection --disable-background-timer-throttling --disable-backgrounding-occluded-windows --disable-renderer-backgrounding --autoplay-policy=no-user-gesture-required";

/// What happens when the main window is asked to close.
#[derive(Clone, Copy, Debug, PartialEq, Eq, Structural)]
pub struct CloseDecision {
    /// Hide the window and keep running instead of closing.
    pub keep_running: bool,
    /// Also unload the page (game mode).
    pub suspend: bool,
}

/// What happens when the window is asked to close, given the stored preferences
/// `(minimize_to_tray, game_mode)`, or `None` when they cannot be read (then the window
/// goes to the tray without suspending).
pub fn close_decision(prefs: Option<(bool, bool)>) -> (r: CloseDecision)
    ensures
        ({
            let (minimize, game) = match prefs {
                Some(p) => p,
                None => (true, false),
            };
            r.keep_running == minimize && r.suspend == (minimize && game)
        }),
{
    let (minimize, game) = match prefs {
        Some(p) => p,
        None => (true, false),
    };
    CloseDecision { keep_running: minimize, suspend: minimize && game }
}

/// Whether the window shows a blank page (its URL is known and starts with `about:`), so
/// that Discord must be loaded again before the window is shown.
pub fn needs_reload(current_url: Option<&str>) -> (r: bool)
    ensures
        r == (match current_url {
            Some(u) => has_prefix(u@, "about:"@),
            None => false,
        }),
{
    match current_url {
        Some(u) => starts_with(u, "about:"),
        None => false,
    }
}

/// Records at start-up what the launcher reports about autostart; when it cannot tell,
/// the stored flag stays.
pub fn reconcile_autostart(s: &mut Settings, reported: Option<bool>)
    ensures
        final(s)@ == (SettingsModel {
            autostart: match reported {
                Some(b) => b,
                None => old(s).autostart,
            },
            ..old(s)@
        }),
{
    if let Some(b) = reported {
        s.autostart = b;
    }
}

/// The extra browser flags of the main window: hardware acceleration off wins over
/// screen-share performance, and neither gives none.
pub fn browser_args(s: &Settings) -> (r: Option<&'static str>)
    ensures
        r == (if s.disable_gpu {
            Some(GPU_OFF_BROWSER_ARGS)
        } else if s.stream_performance {
            Some(STREAM_BROWSER_ARGS)
        } else {
            None::<&'static str>
        }),
{
    if s.disable_gpu {
        Some(GPU_OFF_BROWSER_ARGS)
    } else if s.stream_performance {
        Some(STREAM_BROWSER_ARGS)
    } else {
        None
    }
}

/// The shortcut to register at start-up when the configured one was refused: the default.
pub fn startup_fallback_shortcut(configured_registered: bool) -> (r: Option<String>)
    ensures
        match r {
            Some(d) => !configured_registered && d@ == DEFAULT_MUTE_SHORTCUT@,
            None => configured_registered,
        },
{
    if configured_registered {
        None
    } else {
        Some(default_mute_shortcut())
    }
}

/// Whether the periodic update check runs: when the stored flag says so; when it cannot be
/// read, it does not.
pub fn auto_update_enabled(flag: Option<bool>) -> (r: bool)
    ensures
        r == (flag == Some(true)),
{
    match flag {
        Some(b) => b,
        None => false,
    }
}

/// A step of an update check.
#[derive(Clone, Copy, Debug, PartialEq, Eq, Structural)]
pub enum UpdateEvent {
    /// The check begins.
    Started,
    /// The updater could not be created.
    UpdaterUnavailable,
    /// Asking for a new version failed.
    CheckFailed,
    /// No newer version exists.
    UpToDate,
    /// A newer version exists and is being downloaded.
    Found,
    /// The new version is installed.
    Installed,
    /// Downloading or installing failed.
    InstallFailed,
}

/// The status shown for an update step: its message and whether it is a warning. A quiet
/// check shows only what happens once a new version was found.
pub open spec fn update_notice_of(e: UpdateEvent, quiet: bool) -> Option<(Seq<char>, bool)> {
    match e {
        UpdateEvent::Started => if quiet {
            None
        } else {
            Some(("Güncelleme kontrol ediliyor..."@, false))
        },
        UpdateEvent::UpdaterUnavailable => if quiet {
            None
        } else {
            Some(("Güncelleme sistemi başlatılamadı."@, true))
        },
        UpdateEvent::CheckFailed => if quiet {
            None
        } else {
            Some(("Güncelleme kontrolü başarısız."@, true))
        },
        UpdateEvent::UpToDate => if quiet {
            None
        } else {
            Some(("En güncel sürüm kullanılıyor."@, false))
        },
        UpdateEvent::Found => Some(("Yeni sürüm bulundu, indiriliyor..."@, false)),
        UpdateEvent::Installed => Some(("Güncelleme kuruldu, yeniden başlatılıyor..."@, false)),
        UpdateEvent::InstallFailed => Some(("Güncelleme indirilemedi."@, true)),
    }
}

/// The status shown for an update step (see [`update_notice_of`]).
pub fn update_notice(e: UpdateEvent, quiet: bool) -> (r: Option<(&'static str, bool)>)
    ensures
        match r {
            Some((msg, warn)) => update_notice_of(e, quiet) == Some((msg@, warn)),
            None => update_notice_of(e, quiet) is None,
        },
{
    match e {
        UpdateEvent::Started => if quiet {
            None
        } else {
            Some(("Güncelleme kontrol ediliyor...", false))
        },
        UpdateEvent::UpdaterUnavailable => if quiet {
            None
        } else {
            Some(("Güncelleme sistemi başlatılamadı.", true))
        },
        UpdateEvent::CheckFailed => if quiet {
            None
        } else {
            Some(("Güncelleme kontrolü başarısız.", true))
        },
        UpdateEvent::UpToDate => if quiet {
            None
        } else {
            Some(("En güncel sürüm kullanılıyor.", false))
        },
        UpdateEvent::Found => Some(("Yeni sürüm bulundu, indiriliyor...", false)),
        UpdateEvent::Installed => Some(("Güncelleme kuruldu, yeniden başlatılıyor...", false)),
        UpdateEvent::InstallFailed => Some(("Güncelleme indirilemedi.", true)),
    }
}

/// Whether the client restarts after this update step: only once the new version is installed.
pub fn restarts_after(e: UpdateEvent) -> (r: bool)
    ensures
        r == (e == UpdateEvent::Installed),
{
    match e {
        UpdateEvent::Installed => true,
        _ => false,
    }
}

} // verus!
