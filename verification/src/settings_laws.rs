//! What each change of the native settings does to every field, stated field by field.
use vstd::prelude::*;
use crate::native::{last_value, after_set, native_action_of, option_keys_distinct, profile_of, profiled, NativeAction, Profile};
use crate::settings::{default_model, SettingsModel, DEFAULT_LANGUAGE, DEFAULT_MUTE_SHORTCUT};
use crate::host::{update_notice_of, UpdateEvent};
use crate::tray::{check_value, menu_command_of, menu_id_text, repaired, toggled, CheckItem, MenuCommand};

verus! {

/// Whether `v` is one of the values that turn a flag on.
pub open spec fn turns_on(v: Seq<char>) -> bool {
    v == "1"@ || v == "true"@ || v == "on"@
}

/// Setting one of the plain flags from the page stores exactly whether the value is `1`,
/// `true` or `on` in that flag, and keeps every other setting.
pub proof fn set_plain_flag_stores_value(m: SettingsModel, v: Seq<char>)
    ensures
        after_set(m, "minimize_to_tray"@, v) == (SettingsModel { minimize_to_tray: turns_on(v), ..m }),
        after_set(m, "start_minimized"@, v) == (SettingsModel { start_minimized: turns_on(v), ..m }),
        after_set(m, "game_mode"@, v) == (SettingsModel { game_mode: turns_on(v), ..m }),
        after_set(m, "auto_update_check"@, v) == (SettingsModel { auto_update_check: turns_on(v), ..m }),
{
    option_keys_distinct();
}

/// Setting hardware acceleration off or screen-share performance on from the page stores the
/// value in that flag, clears the other one only when the value turns the flag on, and keeps
/// everything else.
pub proof fn set_exclusive_flag_stores_value(m: SettingsModel, v: Seq<char>)
    ensures
        after_set(m, "disable_gpu"@, v) == (SettingsModel {
            disable_gpu: turns_on(v),
            stream_performance: m.stream_performance && !turns_on(v),
            ..m
        }),
        after_set(m, "stream_performance"@, v) == (SettingsModel {
            stream_performance: turns_on(v),
            disable_gpu: m.disable_gpu && !turns_on(v),
            ..m
        }),
{
    option_keys_distinct();
}

/// Setting the language from the page stores `en` for `en` and `tr` for anything else, and
/// keeps every other setting; a key the page does not know changes nothing.
pub proof fn set_language_and_unknown_keys(m: SettingsModel, key: Seq<char>, v: Seq<char>)
    ensures
        after_set(m, "language"@, v) == (SettingsModel {
            language: if v == "en"@ {
                "en"@
            } else {
                "tr"@
            },
            ..m
        }),
        key != "language"@ && key != "minimize_to_tray"@ && key != "start_minimized"@ && key
            != "disable_gpu"@ && key != "stream_performance"@ && key != "game_mode"@ && key
            != "auto_update_check"@ ==> after_set(m, key, v) == m,
{
    option_keys_distinct();
}

/// The flag of `other` after the check item `item` was clicked: the clicked flag flips, the
/// opposite of hardware acceleration off / screen-share performance on goes off when the
/// click turned the other on, and every other flag stays.
pub open spec fn flag_after_click(m: SettingsModel, item: CheckItem, other: CheckItem) -> bool {
    if other == item {
        !check_value(m, item)
    } else if item == CheckItem::DisableGpu && other == CheckItem::StreamPerformance {
        m.stream_performance && m.disable_gpu
    } else if item == CheckItem::StreamPerformance && other == CheckItem::DisableGpu {
        m.disable_gpu && m.stream_performance
    } else {
        check_value(m, other)
    }
}

/// A click in the tray menu flips the clicked flag, changes no other flag (but for turning off
/// the excluded one of hardware acceleration off / screen-share performance on), and keeps
/// the shortcut and the language.
pub proof fn click_changes_only_clicked_flag(m: SettingsModel, item: CheckItem, other: CheckItem)
    ensures
        check_value(toggled(m, item), other) == flag_after_click(m, item, other),
        toggled(m, item).mute_shortcut == m.mute_shortcut,
        toggled(m, item).language == m.language,
{
}

/// Every setting is shown by one check item, so agreeing on all check items and on the two
/// strings is agreeing on everything.
pub proof fn settings_determined_by_checks(a: SettingsModel, b: SettingsModel)
    requires
        forall|i: CheckItem| check_value(a, i) == #[trigger] check_value(b, i),
        a.mute_shortcut == b.mute_shortcut,
        a.language == b.language,
    ensures
        a == b,
{
    assert(check_value(a, CheckItem::MinimizeToTray) == check_value(b, CheckItem::MinimizeToTray));
    assert(check_value(a, CheckItem::StartMinimized) == check_value(b, CheckItem::StartMinimized));
    assert(check_value(a, CheckItem::Autostart) == check_value(b, CheckItem::Autostart));
    assert(check_value(a, CheckItem::StreamPerformance) == check_value(
        b,
        CheckItem::StreamPerformance,
    ));
    assert(check_value(a, CheckItem::DisableGpu) == check_value(b, CheckItem::DisableGpu));
    assert(check_value(a, CheckItem::GameMode) == check_value(b, CheckItem::GameMode));
    assert(check_value(a, CheckItem::AutoUpdateCheck) == check_value(b, CheckItem::AutoUpdateCheck));
}

/// A profile sets hardware acceleration off, screen-share performance and game mode to its
/// own values (save: off/no/no, stream: on/yes/no, game: on/yes/yes, otherwise on/no/no) and
/// keeps every other setting.
pub proof fn profile_sets_only_its_flags(m: SettingsModel, p: Profile)
    ensures
        profiled(m, p).disable_gpu == (p == Profile::Save),
        profiled(m, p).stream_performance == (p == Profile::Stream || p == Profile::Game),
        profiled(m, p).game_mode == (p == Profile::Game),
        profiled(m, p).minimize_to_tray == m.minimize_to_tray,
        profiled(m, p).autostart == m.autostart,
        profiled(m, p).start_minimized == m.start_minimized,
        profiled(m, p).auto_update_check == m.auto_update_check,
        profiled(m, p).mute_shortcut == m.mute_shortcut,
        profiled(m, p).language == m.language,
{
}

/// The profile names: `save`, `stream` and `game` name their profiles, and every other name
/// the profile with everything off.
pub proof fn profile_names(name: Seq<char>)
    ensures
        (profile_of(name) == Profile::Save) == (name == "save"@),
        (profile_of(name) == Profile::Stream) == (name == "stream"@),
        (profile_of(name) == Profile::Game) == (name == "game"@),
{
    reveal_strlit("save");
    reveal_strlit("stream");
    reveal_strlit("game");
    assert("save"@.len() == 4 && "stream"@.len() == 6 && "game"@.len() == 4);
    assert("save"@[0] == 's' && "game"@[0] == 'g');
}

/// A safe restart turns hardware acceleration off, screen-share performance and game mode
/// off, whatever they were, and keeps every other setting.
pub proof fn repair_turns_risky_options_off(m: SettingsModel)
    ensures
        !repaired(m).disable_gpu,
        !repaired(m).stream_performance,
        !repaired(m).game_mode,
        repaired(m).minimize_to_tray == m.minimize_to_tray,
        repaired(m).autostart == m.autostart,
        repaired(m).start_minimized == m.start_minimized,
        repaired(m).auto_update_check == m.auto_update_check,
        repaired(m).mute_shortcut == m.mute_shortcut,
        repaired(m).language == m.language,
{
}

/// The menu identifier of every check item leads back to a click on that item.
pub proof fn menu_ids_lead_to_their_items(item: CheckItem)
    ensures
        menu_command_of(menu_id_text(item)) == MenuCommand::Toggle(item),
{
    reveal_strlit("t_tray");
    reveal_strlit("t_startmin");
    reveal_strlit("t_autostart");
    reveal_strlit("t_gpu");
    reveal_strlit("t_stream");
    reveal_strlit("t_game");
    reveal_strlit("t_auto_update");
    assert("t_tray"@.len() == 6 && "t_startmin"@.len() == 10 && "t_autostart"@.len() == 11);
    assert("t_gpu"@.len() == 5 && "t_stream"@.len() == 8 && "t_game"@.len() == 6);
    assert("t_auto_update"@.len() == 13);
    assert("t_tray"@[2] == 't' && "t_game"@[2] == 'g');
}

/// The page actions: each of the five action names leads to its action, and only it.
pub proof fn action_names(a: Seq<char>)
    ensures
        (native_action_of(a) == NativeAction::Sync) == (a == "sync"@),
        (native_action_of(a) == NativeAction::CheckUpdate) == (a == "check_update"@),
        (native_action_of(a) == NativeAction::SetOption) == (a == "set"@),
        (native_action_of(a) == NativeAction::Profile) == (a == "profile"@),
        (native_action_of(a) == NativeAction::SetShortcut) == (a == "set_shortcut"@),
{
    reveal_strlit("sync");
    reveal_strlit("check_update");
    reveal_strlit("set");
    reveal_strlit("profile");
    reveal_strlit("set_shortcut");
    assert("sync"@.len() == 4 && "check_update"@.len() == 12 && "set"@.len() == 3);
    assert("profile"@.len() == 7 && "set_shortcut"@.len() == 12);
    assert("check_update"@[0] == 'c' && "set_shortcut"@[0] == 's');
}

/// A fresh installation goes to the tray on close and checks for updates automatically;
/// every other flag is off, the shortcut is the default one and the language is Turkish.
pub proof fn fresh_installation_settings(item: CheckItem)
    ensures
        check_value(default_model(), item) == (item == CheckItem::MinimizeToTray || item
            == CheckItem::AutoUpdateCheck),
        default_model().mute_shortcut == DEFAULT_MUTE_SHORTCUT@,
        default_model().language == DEFAULT_LANGUAGE@,
{
}

/// Of the query pairs of a request, the last one with a given name decides its value: a
/// later pair with that name replaces it, a pair with another name leaves it, and without
/// such a pair the value is empty.
pub proof fn last_query_pair_wins(pairs: Seq<(String, String)>, p: (String, String), name: Seq<char>)
    ensures
        last_value(pairs.push(p), name) == (if p.0@ == name {
            p.1@
        } else {
            last_value(pairs, name)
        }),
        (forall|i: int| 0 <= i < pairs.len() ==> (#[trigger] pairs[i]).0@ != name) ==> last_value(
            pairs,
            name,
        ).len() == 0,
    decreases pairs.len(),
{
    assert(pairs.push(p).drop_last() =~= pairs);
    if pairs.len() > 0 {
        last_query_pair_wins(pairs.drop_last(), pairs.last(), name);
        if forall|i: int| 0 <= i < pairs.len() ==> (#[trigger] pairs[i]).0@ != name {
            assert(pairs.last() == pairs[pairs.len() - 1]);
            assert forall|i: int| 0 <= i < pairs.drop_last().len() implies (
            #[trigger] pairs.drop_last()[i]).0@ != name by {
                assert(pairs.drop_last()[i] == pairs[i]);
            }
        }
    }
}

/// An update check that is not quiet reports every step.
pub proof fn loud_update_checks_report_every_step(e: UpdateEvent)
    ensures
        update_notice_of(e, false) is Some,
{
}

/// The tray entries other than the check items: each identifier leads to its command.
pub proof fn menu_commands_of_plain_entries(id: Seq<char>)
    ensures
        (menu_command_of(id) == MenuCommand::OpenSettings) == (id == "settings"@),
        (menu_command_of(id) == MenuCommand::ClearCache) == (id == "clear_cache"@),
        (menu_command_of(id) == MenuCommand::Repair) == (id == "repair"@),
        (menu_command_of(id) == MenuCommand::CheckUpdate) == (id == "check_update"@),
        (menu_command_of(id) == MenuCommand::Show) == (id == "show"@),
        (menu_command_of(id) == MenuCommand::Quit) == (id == "quit"@),
{
    reveal_strlit("t_tray");
    reveal_strlit("t_startmin");
    reveal_strlit("t_autostart");
    reveal_strlit("t_gpu");
    reveal_strlit("t_stream");
    reveal_strlit("t_game");
    reveal_strlit("t_auto_update");
    reveal_strlit("settings");
    reveal_strlit("clear_cache");
    reveal_strlit("repair");
    reveal_strlit("check_update");
    reveal_strlit("show");
    reveal_strlit("quit");
    assert("t_tray"@.len() == 6 && "t_startmin"@.len() == 10 && "t_autostart"@.len() == 11);
    assert("t_gpu"@.len() == 5 && "t_stream"@.len() == 8 && "t_game"@.len() == 6);
    assert("t_auto_update"@.len() == 13 && "t_tray"@[0] == 't' && "t_stream"@[0] == 't');
    assert("t_startmin"@[0] == 't' && "t_game"@[0] == 't' && "t_autostart"@[0] == 't');
    assert("settings"@.len() == 8 && "clear_cache"@.len() == 11 && "repair"@.len() == 6);
    assert("check_update"@.len() == 12 && "show"@.len() == 4 && "quit"@.len() == 4);
    assert("settings"@[0] == 's' && "clear_cache"@[0] == 'c' && "repair"@[0] == 'r');
    assert("show"@[0] == 's' && "quit"@[0] == 'q');
}

} // verus!
