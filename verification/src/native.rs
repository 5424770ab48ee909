//! Requests that the page sends to the host by navigating to `idgafcord://native?...`.
use vstd::prelude::*;
use crate::settings::{Settings, SettingsModel};
use crate::text::{str_eq, trim, trimmed};
use crate::tray::{CheckItem, Effects};

verus! {

/// A request of the page: what to do, on which setting, with which value.
#[derive(Clone, Debug, PartialEq, Eq)]
pub struct NativeRequest {
    pub action: String,
    pub key: String,
    pub value: String,
}

/// The value of the last query pair named `name`, or nothing when there is none.
pub open spec fn last_value(pairs: Seq<(String, String)>, name: Seq<char>) -> Seq<char>
    decreases pairs.len(),
{
    if pairs.len() == 0 {
        Seq::empty()
    } else if pairs.last().0@ == name {
        pairs.last().1@
    } else {
        last_value(pairs.drop_last(), name)
    }
}

/// The query names of a request differ from each other.
proof fn query_names_distinct()
    ensures
        "action"@.len() == 6,
        "key"@.len() == 3,
        "value"@.len() == 5,
{
    reveal_strlit("action");
    reveal_strlit("key");
    reveal_strlit("value");
}

/// Whether a navigation to a URL with this scheme and host is a request of the page.
pub open spec fn is_native_target(scheme: Seq<char>, host: Option<Seq<char>>) -> bool {
    scheme == "idgafcord"@ && host == Some("native"@)
}

/// The request that a navigation carries: `None` when the URL is not `idgafcord://native`
/// (the navigation then goes ahead), otherwise the last `action`, `key` and `value` of its
/// decoded query pairs, each empty when absent.
pub fn native_request(scheme: &str, host: Option<&str>, pairs: &Vec<(String, String)>) -> (r:
    Option<NativeRequest>)
    ensures
        r is Some <==> is_native_target(
            scheme@,
            match host {
                Some(h) => Some(h@),
                None => None,
            },
        ),
        r matches Some(q) ==> q.action@ == last_value(pairs@, "action"@) && q.key@ == last_value(
            pairs@,
            "key"@,
        ) && q.value@ == last_value(pairs@, "value"@),
{
    let target = match host {
        Some(h) => str_eq(scheme, "idgafcord") && str_eq(h, "native"),
        None => false,
    };
    if !target {
        return None;
    }
    let mut action = String::new();
    let mut key = String::new();
    let mut value = String::new();
    let n = pairs.len();
    for i in 0..n
        invariant
            n == pairs@.len(),
            action@ == last_value(pairs@.take(i as int), "action"@),
            key@ == last_value(pairs@.take(i as int), "key"@),
            value@ == last_value(pairs@.take(i as int), "value"@),
    {
        proof {
            query_names_distinct();
        }
        assert(pairs@.take(i + 1).drop_last() =~= pairs@.take(i as int));
        let name = pairs[i].0.as_str();
        if str_eq(name, "action") {
            action = pairs[i].1.clone();
        } else if str_eq(name, "key") {
            key = pairs[i].1.clone();
        } else if str_eq(name, "value") {
            value = pairs[i].1.clone();
        }
    }
    assert(pairs@.take(n as int) =~= pairs@);
    Some(NativeRequest { action, key, value })
}

/// What a request of the page asks for.
#[derive(Clone, Copy, Debug, PartialEq, Eq, Structural)]
pub enum NativeAction {
    Sync,
    CheckUpdate,
    SetOption,
    Profile,
    SetShortcut,
    Ignore,
}

/// The action named `action`.
pub open spec fn native_action_of(action: Seq<char>) -> NativeAction {
    if action == "sync"@ {
        NativeAction::Sync
    } else if action == "check_update"@ {
        NativeAction::CheckUpdate
    } else if action == "set"@ {
        NativeAction::SetOption
    } else if action == "profile"@ {
        NativeAction::Profile
    } else if action == "set_shortcut"@ {
        NativeAction::SetShortcut
    } else {
        NativeAction::Ignore
    }
}

/// The action named `action`.
pub fn native_action(action: &str) -> (r: NativeAction)
    ensures
        r == native_action_of(action@),
{
    if str_eq(action, "sync") {
        NativeAction::Sync
    } else if str_eq(action, "check_update") {
        NativeAction::CheckUpdate
    } else if str_eq(action, "set") {
        NativeAction::SetOption
    } else if str_eq(action, "profile") {
        NativeAction::Profile
    } else if str_eq(action, "set_shortcut") {
        NativeAction::SetShortcut
    } else {
        NativeAction::Ignore
    }
}

/// Whether a `set` value turns a flag on: `1`, `true` or `on`.
pub open spec fn value_enables(value: Seq<char>) -> bool {
    value == "1"@ || value == "true"@ || value == "on"@
}

/// The language that a `set` of `language` stores: `en` for `en`, `tr` for anything else.
pub open spec fn stored_language(value: Seq<char>) -> Seq<char> {
    if value == "en"@ {
        "en"@
    } else {
        "tr"@
    }
}

/// The settings after the page set `key` to `value` (the autostart flag excepted, which
/// follows the launcher, see [`finish_launcher`]); an unknown key changes nothing.
pub open spec fn after_set(m: SettingsModel, key: Seq<char>, value: Seq<char>) -> SettingsModel {
    let on = value_enables(value);
    if key == "language"@ {
        SettingsModel { language: stored_language(value), ..m }
    } else if key == "minimize_to_tray"@ {
        SettingsModel { minimize_to_tray: on, ..m }
    } else if key == "start_minimized"@ {
        SettingsModel { start_minimized: on, ..m }
    } else if key == "disable_gpu"@ {
        SettingsModel {
            disable_gpu: on,
            stream_performance: if on { false } else { m.stream_performance },
            ..m
        }
    } else if key == "stream_performance"@ {
        SettingsModel {
            stream_performance: on,
            disable_gpu: if on { false } else { m.disable_gpu },
            ..m
        }
    } else if key == "game_mode"@ {
        SettingsModel { game_mode: on, ..m }
    } else if key == "auto_update_check"@ {
        SettingsModel { auto_update_check: on, ..m }
    } else {
        m
    }
}

/// The check marks set when the page set `key` to `value`.
pub open spec fn set_checks(key: Seq<char>, value: Seq<char>) -> Seq<(CheckItem, bool)> {
    let on = value_enables(value);
    if key == "minimize_to_tray"@ {
        seq![(CheckItem::MinimizeToTray, on)]
    } else if key == "start_minimized"@ {
        seq![(CheckItem::StartMinimized, on)]
    } else if key == "disable_gpu"@ {
        if on {
            seq![(CheckItem::DisableGpu, true), (CheckItem::StreamPerformance, false)]
        } else {
            seq![(CheckItem::DisableGpu, false)]
        }
    } else if key == "stream_performance"@ {
        if on {
            seq![(CheckItem::StreamPerformance, true), (CheckItem::DisableGpu, false)]
        } else {
            seq![(CheckItem::StreamPerformance, false)]
        }
    } else if key == "game_mode"@ {
        seq![(CheckItem::GameMode, on)]
    } else if key == "auto_update_check"@ {
        seq![(CheckItem::AutoUpdateCheck, on)]
    } else {
        Seq::empty()
    }
}

/// The option keys of `set` requests differ from each other: their lengths, and the first
/// characters of the two of equal length.
pub proof fn option_keys_distinct()
    ensures
        "autostart"@.len() == 9 && "autostart"@[0] == 'a',
        "language"@.len() == 8,
        "minimize_to_tray"@.len() == 16,
        "start_minimized"@.len() == 15,
        "disable_gpu"@.len() == 11,
        "stream_performance"@.len() == 18,
        "game_mode"@.len() == 9 && "game_mode"@[0] == 'g',
        "auto_update_check"@.len() == 17,
{
    reveal_strlit("autostart");
    reveal_strlit("language");
    reveal_strlit("minimize_to_tray");
    reveal_strlit("start_minimized");
    reveal_strlit("disable_gpu");
    reveal_strlit("stream_performance");
    reveal_strlit("game_mode");
    reveal_strlit("auto_update_check");
}

/// The outcome of a `set` request.
pub enum SetStep {
    /// The settings were changed; the host performs these effects.
    Applied(Effects),
    /// The launcher is to be enabled (`true`) or disabled (`false`); the host then reports
    /// whether it is enabled to [`finish_launcher`].
    Launcher(bool),
}

/// Applies a `set` request of the page. For `autostart` the settings stay as they are and
/// the launcher step is returned; otherwise the settings become [`after_set`], the check
/// marks of [`set_checks`] are set, the settings are saved and sent to the page, and turning
/// automatic update checks on starts a quiet check.
pub fn apply_set(s: &mut Settings, key: &str, value: &str) -> (r: SetStep)
    ensures
        key@ == "autostart"@ ==> final(s)@ == old(s)@ && r == SetStep::Launcher(
            value_enables(value@),
        ),
        key@ != "autostart"@ ==> final(s)@ == after_set(old(s)@, key@, value@) && (
        r matches SetStep::Applied(fx) && fx.checks@ == set_checks(key@, value@) && fx.launcher
            == None::<bool> && fx.save && fx.sync && fx.quiet_update_check == (key@
            == "auto_update_check"@ && value_enables(value@))),
{
    proof {
        option_keys_distinct();
    }
    let on = str_eq(value, "1") || str_eq(value, "true") || str_eq(value, "on");
    let mut quiet_update_check = false;
    if str_eq(key, "autostart") {
        return SetStep::Launcher(on);
    }
    let mut checks: Vec<(CheckItem, bool)> = Vec::new();
    if str_eq(key, "language") {
        let en = str_eq(value, "en");
        s.language = if en {
            "en".to_owned()
        } else {
            "tr".to_owned()
        };
    } else if str_eq(key, "minimize_to_tray") {
        s.minimize_to_tray = on;
        checks.push((CheckItem::MinimizeToTray, on));
    } else if str_eq(key, "start_minimized") {
        s.start_minimized = on;
        checks.push((CheckItem::StartMinimized, on));
    } else if str_eq(key, "disable_gpu") {
        s.disable_gpu = on;
        checks.push((CheckItem::DisableGpu, on));
        if on {
            s.stream_performance = false;
            checks.push((CheckItem::StreamPerformance, false));
        }
    } else if str_eq(key, "stream_performance") {
        s.stream_performance = on;
        checks.push((CheckItem::StreamPerformance, on));
        if on {
            s.disable_gpu = false;
            checks.push((CheckItem::DisableGpu, false));
        }
    } else if str_eq(key, "game_mode") {
        s.game_mode = on;
        checks.push((CheckItem::GameMode, on));
    } else if str_eq(key, "auto_update_check") {
        s.auto_update_check = on;
        quiet_update_check = on;
        checks.push((CheckItem::AutoUpdateCheck, on));
    }
    SetStep::Applied(Effects { checks, launcher: None, save: true, sync: true, quiet_update_check })
}

/// Records the autostart flag after the launcher was asked to become `requested`: the flag
/// is what the launcher reports, or `requested` when it could not tell; the check mark shows
/// it, and the settings are saved and sent to the page.
pub fn finish_launcher(s: &mut Settings, requested: bool, reported: Option<bool>) -> (fx: Effects)
    ensures
        final(s)@ == (SettingsModel {
            autostart: match reported {
                Some(b) => b,
                None => requested,
            },
            ..old(s)@
        }),
        fx.checks@ == seq![(CheckItem::Autostart, final(s).autostart)],
        fx.launcher == None::<bool>,
        fx.save,
        fx.sync,
        !fx.quiet_update_check,
{
    s.autostart = match reported {
        Some(b) => b,
        None => requested,
    };
    Effects {
        checks: vec![(CheckItem::Autostart, s.autostart)],
        launcher: None,
        save: true,
        sync: true,
        quiet_update_check: false,
    }
}

/// A performance profile chosen in the settings panel.
#[derive(Clone, Copy, Debug, PartialEq, Eq, Structural)]
pub enum Profile {
    /// Hardware acceleration off, to save resources.
    Save,
    /// Screen-share performance on.
    Stream,
    /// Screen-share performance and game mode on.
    Game,
    /// Every option off.
    Normal,
}

/// The profile named `name` (already trimmed).
pub open spec fn profile_of(name: Seq<char>) -> Profile {
    if name == "save"@ {
        Profile::Save
    } else if name == "stream"@ {
        Profile::Stream
    } else if name == "game"@ {
        Profile::Game
    } else {
        Profile::Normal
    }
}

/// The profile that a `profile` request with this value names, white space around it ignored.
pub fn profile_from(value: &str) -> (r: Profile)
    ensures
        r == profile_of(trimmed(value@)),
{
    let name = trim(value);
    if str_eq(name, "save") {
        Profile::Save
    } else if str_eq(name, "stream") {
        Profile::Stream
    } else if str_eq(name, "game") {
        Profile::Game
    } else {
        Profile::Normal
    }
}

/// The settings under profile `p`: it fixes hardware acceleration, screen-share performance
/// and game mode, and keeps the rest.
pub open spec fn profiled(m: SettingsModel, p: Profile) -> SettingsModel {
    match p {
        Profile::Save => SettingsModel {
            disable_gpu: true,
            stream_performance: false,
            game_mode: false,
            ..m
        },
        Profile::Stream => SettingsModel {
            disable_gpu: false,
            stream_performance: true,
            game_mode: false,
            ..m
        },
        Profile::Game => SettingsModel {
            disable_gpu: false,
            stream_performance: true,
            game_mode: true,
            ..m
        },
        Profile::Normal => SettingsModel {
            disable_gpu: false,
            stream_performance: false,
            game_mode: false,
            ..m
        },
    }
}

/// Applies profile `p`; the three check marks show the new flags, and the settings are saved
/// and sent to the page.
pub fn apply_profile(s: &mut Settings, p: Profile) -> (fx: Effects)
    ensures
        final(s)@ == profiled(old(s)@, p),
        fx.checks@ == seq![
            (CheckItem::DisableGpu, final(s).disable_gpu),
            (CheckItem::StreamPerformance, final(s).stream_performance),
            (CheckItem::GameMode, final(s).game_mode),
        ],
        fx.launcher == None::<bool>,
        fx.save,
        fx.sync,
        !fx.quiet_update_check,
{
    match p {
        Profile::Save => {
            s.disable_gpu = true;
            s.stream_performance = false;
            s.game_mode = false;
        },
        Profile::Stream => {
            s.disable_gpu = false;
            s.stream_performance = true;
            s.game_mode = false;
        },
        Profile::Game => {
            s.disable_gpu = false;
            s.stream_performance = true;
            s.game_mode = true;
        },
        Profile::Normal => {
            s.disable_gpu = false;
            s.stream_performance = false;
            s.game_mode = false;
        },
    }
    Effects {
        checks: vec![
            (CheckItem::DisableGpu, s.disable_gpu),
            (CheckItem::StreamPerformance, s.stream_performance),
            (CheckItem::GameMode, s.game_mode),
        ],
        launcher: None,
        save: true,
        sync: true,
        quiet_update_check: false,
    }
}

/// The shortcut that a `set_shortcut` request proposes: its value without surrounding white
/// space, or `None` when nothing is left.
pub fn shortcut_candidate(value: &str) -> (r: Option<String>)
    ensures
        match r {
            Some(c) => trimmed(value@).len() > 0 && c@ == trimmed(value@),
            None => trimmed(value@).len() == 0,
        },
{
    let t = trim(value);
    if t.is_empty() {
        None
    } else {
        Some(t.to_owned())
    }
}

/// Stores a microphone shortcut that was registered: the settings keep it and are saved.
pub fn apply_shortcut(s: &mut Settings, shortcut: String) -> (fx: Effects)
    ensures
        final(s)@ == (SettingsModel { mute_shortcut: shortcut@, ..old(s)@ }),
        fx.checks@ == Seq::<(CheckItem, bool)>::empty(),
        fx.launcher == None::<bool>,
        fx.save,
        !fx.sync,
        !fx.quiet_update_check,
{
    s.mute_shortcut = shortcut;
    Effects { checks: Vec::new(), launcher: None, save: true, sync: false, quiet_update_check: false }
}

} // verus!
