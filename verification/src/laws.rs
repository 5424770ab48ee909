//! Properties that hold across the operations of the library.
use vstd::prelude::*;
use crate::host::{update_notice_of, UpdateEvent};
use vstd::seq_lib::lemma_concat_associative;
use crate::json::{json_read_string, json_string_literal, json_string_round_trip};
use crate::scripts::{bool_text, message_call_text, native_settings_json};
use crate::native::{after_set, option_keys_distinct, profiled, set_checks, stored_language, value_enables, Profile};
use crate::settings::SettingsModel;
use crate::text::{
    has_prefix, is_white_space, occurs_at, replaced, trim_end_chars, trim_start_chars, trimmed,
};
use crate::tray::{check_value, repaired, toggle_checks, toggled, CheckItem};

verus! {

/// Hardware acceleration off and screen-share performance on never hold together.
pub open spec fn gpu_stream_exclusive(m: SettingsModel) -> bool {
    !(m.disable_gpu && m.stream_performance)
}

/// Every check mark in `checks` shows the flag of `m` that it stands for.
pub open spec fn checks_show(checks: Seq<(CheckItem, bool)>, m: SettingsModel) -> bool {
    forall|k: int| 0 <= k < checks.len() ==> #[trigger] checks[k].1 == check_value(m, checks[k].0)
}

/// Clicking a check item twice gives back the settings one started from, unless the click
/// turned off the other of hardware acceleration and screen-share performance (which the
/// second click does not turn back on).
pub proof fn toggle_twice_restores(m: SettingsModel, item: CheckItem)
    requires
        item == CheckItem::DisableGpu ==> !m.stream_performance,
        item == CheckItem::StreamPerformance ==> !m.disable_gpu,
    ensures
        toggled(toggled(m, item), item) == m,
{
}

/// A click flips exactly the flag of the clicked item (and at most turns off the flag that
/// excludes it).
pub proof fn toggle_flips_item(m: SettingsModel, item: CheckItem)
    ensures
        check_value(toggled(m, item), item) == !check_value(m, item),
        toggled(m, item).mute_shortcut == m.mute_shortcut,
        toggled(m, item).language == m.language,
{
}

/// Clicks keep hardware acceleration off and screen-share performance on apart, and a click
/// on either of them establishes it from any state.
pub proof fn toggle_keeps_exclusive(m: SettingsModel, item: CheckItem)
    requires
        gpu_stream_exclusive(m) || item == CheckItem::DisableGpu || item
            == CheckItem::StreamPerformance,
    ensures
        gpu_stream_exclusive(toggled(m, item)),
{
}

/// Requests of the page keep hardware acceleration off and screen-share performance on
/// apart, and a request on either of them establishes it from any state.
pub proof fn set_keeps_exclusive(m: SettingsModel, key: Seq<char>, value: Seq<char>)
    requires
        gpu_stream_exclusive(m) || key == "disable_gpu"@ || key == "stream_performance"@,
    ensures
        gpu_stream_exclusive(after_set(m, key, value)),
{
    option_keys_distinct();
}

/// Every profile and a safe restart leave hardware acceleration off and screen-share
/// performance on apart.
pub proof fn profiles_and_repair_exclusive(m: SettingsModel, p: Profile)
    ensures
        gpu_stream_exclusive(profiled(m, p)),
        gpu_stream_exclusive(repaired(m)),
{
}

/// Applying a profile again changes nothing, and the three flags it sets do not depend on
/// the settings it was applied to.
pub proof fn profile_idempotent(m1: SettingsModel, m2: SettingsModel, p: Profile)
    ensures
        profiled(profiled(m1, p), p) == profiled(m1, p),
        profiled(m1, p).disable_gpu == profiled(m2, p).disable_gpu,
        profiled(m1, p).stream_performance == profiled(m2, p).stream_performance,
        profiled(m1, p).game_mode == profiled(m2, p).game_mode,
{
}

/// The stored interface language is always `en` or `tr`, whatever the page sends.
pub proof fn language_is_en_or_tr(m: SettingsModel, value: Seq<char>)
    ensures
        after_set(m, "language"@, value).language == "en"@ || after_set(
            m,
            "language"@,
            value,
        ).language == "tr"@,
        after_set(m, "language"@, value).language == stored_language(value),
{
}

/// After a click, the check marks that are set show the new settings.
pub proof fn toggle_checks_show_settings(m: SettingsModel, item: CheckItem)
    ensures
        checks_show(toggle_checks(toggled(m, item), item), toggled(m, item)),
{
    let n = toggled(m, item);
    let c = toggle_checks(n, item);
    assert forall|k: int| 0 <= k < c.len() implies #[trigger] c[k].1 == check_value(n, c[k].0) by {
    }
}

/// After a request of the page, the check marks that are set show the new settings.
pub proof fn set_checks_show_settings(m: SettingsModel, key: Seq<char>, value: Seq<char>)
    requires
        key != "autostart"@,
    ensures
        checks_show(set_checks(key, value), after_set(m, key, value)),
{
    option_keys_distinct();
    let n = after_set(m, key, value);
    let c = set_checks(key, value);
    assert forall|k: int| 0 <= k < c.len() implies #[trigger] c[k].1 == check_value(n, c[k].0) by {
    }
}

/// A quiet update check shows nothing until a new version is found, and every status is a
/// warning exactly when a step failed.
pub proof fn quiet_update_checks(e: UpdateEvent, quiet: bool)
    ensures
        quiet && update_notice_of(e, quiet) is Some ==> (e == UpdateEvent::Found || e
            == UpdateEvent::Installed || e == UpdateEvent::InstallFailed),
        update_notice_of(e, quiet) matches Some((_, warn)) ==> warn == (e
            == UpdateEvent::UpdaterUnavailable || e == UpdateEvent::CheckFailed || e
            == UpdateEvent::InstallFailed),
{
}

/// `trim_start_chars` leaves a suffix that is empty or starts with a non-white-space character.
proof fn trim_start_shape(s: Seq<char>)
    ensures
        trim_start_chars(s).len() <= s.len(),
        trim_start_chars(s) == s.subrange(s.len() - trim_start_chars(s).len(), s.len() as int),
        trim_start_chars(s).len() > 0 ==> !is_white_space(trim_start_chars(s)[0]),
        forall|k: int| 0 <= k < s.len() - trim_start_chars(s).len() ==> is_white_space(#[trigger] s[k]),
    decreases s.len(),
{
    if s.len() > 0 && is_white_space(s[0]) {
        trim_start_shape(s.drop_first());
        let t = trim_start_chars(s.drop_first());
        assert(s.drop_first().subrange(s.len() - 1 - t.len(), s.len() - 1) =~= s.subrange(
            s.len() - t.len(),
            s.len() as int,
        ));
        assert forall|k: int| 0 <= k < s.len() - t.len() implies is_white_space(#[trigger] s[k]) by {
            if k > 0 {
                assert(s[k] == s.drop_first()[k - 1]);
            }
        }
    } else {
        assert(s.subrange(0, s.len() as int) =~= s);
    }
}

/// `trim_end_chars` leaves a prefix that is empty or ends with a non-white-space character.
proof fn trim_end_shape(s: Seq<char>)
    ensures
        trim_end_chars(s).len() <= s.len(),
        trim_end_chars(s) == s.subrange(0, trim_end_chars(s).len() as int),
        trim_end_chars(s).len() > 0 ==> !is_white_space(trim_end_chars(s).last()),
        forall|k: int| trim_end_chars(s).len() <= k < s.len() ==> is_white_space(#[trigger] s[k]),
    decreases s.len(),
{
    if s.len() > 0 && is_white_space(s.last()) {
        trim_end_shape(s.drop_last());
        let t = trim_end_chars(s.drop_last());
        assert(s.drop_last().subrange(0, t.len() as int) =~= s.subrange(0, t.len() as int));
        assert forall|k: int| t.len() <= k < s.len() implies is_white_space(#[trigger] s[k]) by {
            if k < s.len() - 1 {
                assert(s[k] == s.drop_last()[k]);
            }
        }
    } else {
        assert(s.subrange(0, s.len() as int) =~= s);
    }
}

/// Trimming twice is trimming once.
pub proof fn trim_idempotent(s: Seq<char>)
    ensures
        trimmed(trimmed(s)) == trimmed(s),
{
    let u = trim_start_chars(s);
    let t = trimmed(s);
    trim_start_shape(s);
    trim_end_shape(u);
    if t.len() > 0 {
        assert(t[0] == u[0]);
    }
    assert(trim_start_chars(t) == t);
    trim_end_shape(t);
    assert(trim_end_chars(t) == t);
}

/// Trimming removes white space at both ends and nothing else: the result is a contiguous
/// piece of the text, everything before and after it is white space, and it neither starts
/// nor ends with white space.
pub proof fn trim_removes_only_outer_white_space(s: Seq<char>)
    ensures
        exists|i: int, j: int|
            0 <= i <= j <= s.len() && trimmed(s) == s.subrange(i, j) && (forall|k: int|
                0 <= k < i ==> is_white_space(#[trigger] s[k])) && (forall|k: int|
                j <= k < s.len() ==> is_white_space(#[trigger] s[k])),
        trimmed(s).len() > 0 ==> !is_white_space(trimmed(s)[0]) && !is_white_space(
            trimmed(s).last(),
        ),
{
    let u = trim_start_chars(s);
    let t = trimmed(s);
    trim_start_shape(s);
    trim_end_shape(u);
    let i = s.len() - u.len();
    let j = i + t.len();
    assert(t =~= s.subrange(i, j));
    assert forall|k: int| j <= k < s.len() implies is_white_space(#[trigger] s[k]) by {
        assert(s[k] == u[k - i]);
    }
    if t.len() > 0 {
        assert(t[0] == u[0]);
    }
    assert(0 <= i <= j <= s.len() && trimmed(s) == s.subrange(i, j) && (forall|k: int|
        0 <= k < i ==> is_white_space(#[trigger] s[k])) && (forall|k: int|
        j <= k < s.len() ==> is_white_space(#[trigger] s[k])));
}

/// An occurrence of the pattern at the start is replaced, and the replacement goes on after it.
pub proof fn replace_leading_occurrence(s: Seq<char>, pat: Seq<char>, rep: Seq<char>)
    requires
        pat.len() > 0,
    ensures
        replaced(pat + s, pat, rep) == rep + replaced(s, pat, rep),
{
    let t = pat + s;
    assert(t.subrange(0, pat.len() as int) =~= pat);
    assert(t.subrange(pat.len() as int, t.len() as int) =~= s);
}

/// A character that does not start an occurrence of the pattern is kept as it is.
pub proof fn replace_keeps_other_characters(c: char, s: Seq<char>, pat: Seq<char>, rep: Seq<char>)
    requires
        pat.len() > 0,
        !occurs_at(seq![c] + s, pat, 0),
    ensures
        replaced(seq![c] + s, pat, rep) == seq![c] + replaced(s, pat, rep),
{
    let t = seq![c] + s;
    assert(t.drop_first() =~= s);
}

/// Replacing a pattern that does not occur gives the text back unchanged.
pub proof fn replace_without_occurrence(s: Seq<char>, pat: Seq<char>, rep: Seq<char>)
    requires
        forall|i: int| !occurs_at(s, pat, i),
    ensures
        replaced(s, pat, rep) == s,
    decreases s.len(),
{
    if pat.len() == 0 || s.len() < pat.len() {
    } else {
        assert(!occurs_at(s, pat, 0));
        assert forall|i: int| !occurs_at(s.drop_first(), pat, i) by {
            if occurs_at(s.drop_first(), pat, i) {
                assert(s.drop_first().subrange(i, i + pat.len()) =~= s.subrange(
                    i + 1,
                    i + 1 + pat.len(),
                ));
                assert(occurs_at(s, pat, i + 1));
            }
        }
        replace_without_occurrence(s.drop_first(), pat, rep);
        assert(seq![s[0]] + s.drop_first() =~= s);
    }
}

/// What follows the prefix `p` of `t`, or `None` when `t` does not start with `p`.
pub open spec fn strip_text(t: Seq<char>, p: Seq<char>) -> Option<Seq<char>> {
    if has_prefix(t, p) {
        Some(t.subrange(p.len() as int, t.len() as int))
    } else {
        None
    }
}

/// Reads a JSON `true` or `false` from the start of `t`: its value and what follows it.
pub open spec fn read_bool(t: Seq<char>) -> Option<(bool, Seq<char>)> {
    match strip_text(t, "true"@) {
        Some(r) => Some((true, r)),
        None => match strip_text(t, "false"@) {
            Some(r) => Some((false, r)),
            None => None,
        },
    }
}

/// Reads the text `key` and then a JSON `true` or `false` from the start of `t`.
pub open spec fn read_bool_after(t: Seq<char>, key: Seq<char>) -> Option<(bool, Seq<char>)> {
    match strip_text(t, key) {
        Some(r) => read_bool(r),
        None => None,
    }
}

/// The eight values that the page receives from the native settings.
pub struct NativeSettingsValues {
    pub auto_update_check: bool,
    pub autostart: bool,
    pub disable_gpu: bool,
    pub game_mode: bool,
    pub minimize_to_tray: bool,
    pub mute_shortcut: Seq<char>,
    pub start_minimized: bool,
    pub stream_performance: bool,
}

/// The eight values of `m` that are sent to the page.
pub open spec fn sent_values(m: SettingsModel) -> NativeSettingsValues {
    NativeSettingsValues {
        auto_update_check: m.auto_update_check,
        autostart: m.autostart,
        disable_gpu: m.disable_gpu,
        game_mode: m.game_mode,
        minimize_to_tray: m.minimize_to_tray,
        mute_shortcut: m.mute_shortcut,
        start_minimized: m.start_minimized,
        stream_performance: m.stream_performance,
    }
}

/// Reads the first five fields of the native settings object (up to the shortcut's key).
pub open spec fn read_settings_head(t: Seq<char>) -> Option<(bool, bool, bool, bool, bool, Seq<char>)> {
    match read_bool_after(t, "{\"auto_update_check\":"@) {
        Some((a, t1)) => match read_bool_after(t1, ",\"autostart\":"@) {
            Some((b, t2)) => match read_bool_after(t2, ",\"disable_gpu\":"@) {
                Some((c, t3)) => match read_bool_after(t3, ",\"game_mode\":"@) {
                    Some((d, t4)) => match read_bool_after(t4, ",\"minimize_to_tray\":"@) {
                        Some((e, t5)) => Some((a, b, c, d, e, t5)),
                        None => None,
                    },
                    None => None,
                },
                None => None,
            },
            None => None,
        },
        None => None,
    }
}

/// Reads the rest of the native settings object: the shortcut and the last two flags, with
/// nothing after the closing brace.
pub open spec fn read_settings_tail(t: Seq<char>) -> Option<(Seq<char>, bool, bool)> {
    match strip_text(t, ",\"mute_shortcut\":"@) {
        Some(t6) => match json_read_string(t6) {
            Some((ms, t7)) => match read_bool_after(t7, ",\"start_minimized\":"@) {
                Some((f, t8)) => match read_bool_after(t8, ",\"stream_performance\":"@) {
                    Some((g, t9)) => if t9 == "}"@ {
                        Some((ms, f, g))
                    } else {
                        None
                    },
                    None => None,
                },
                None => None,
            },
            None => None,
        },
        None => None,
    }
}

/// Reads the JSON object of the native settings, field by field in the order written: the
/// eight values, or `None` when `t` is not such an object (with nothing after it).
pub open spec fn read_native_settings(t: Seq<char>) -> Option<NativeSettingsValues> {
    match read_settings_head(t) {
        Some((a, b, c, d, e, t5)) => match read_settings_tail(t5) {
            Some((ms, f, g)) => Some(
                NativeSettingsValues {
                    auto_update_check: a,
                    autostart: b,
                    disable_gpu: c,
                    game_mode: d,
                    minimize_to_tray: e,
                    mute_shortcut: ms,
                    start_minimized: f,
                    stream_performance: g,
                },
            ),
            None => None,
        },
        None => None,
    }
}

/// Stripping a prefix that is there leaves exactly what follows it.
proof fn strip_concat(a: Seq<char>, b: Seq<char>)
    ensures
        strip_text(a + b, a) == Some(b),
{
    assert((a + b).subrange(0, a.len() as int) =~= a);
    assert((a + b).subrange(a.len() as int, (a + b).len() as int) =~= b);
}

/// A written flag reads back as that flag, leaving what follows it.
proof fn read_bool_concat(x: bool, rest: Seq<char>)
    ensures
        read_bool(bool_text(x) + rest) == Some((x, rest)),
{
    reveal_strlit("true");
    reveal_strlit("false");
    strip_concat(bool_text(x), rest);
    if !x {
        let t = "false"@ + rest;
        assert(t[0] == 'f');
        assert(!has_prefix(t, "true"@)) by {
            if has_prefix(t, "true"@) {
                assert(t.subrange(0, 4)[0] == 't');
            }
        }
    }
}

/// The key `key` followed by a written flag reads back as that flag.
proof fn read_bool_after_concat(key: Seq<char>, x: bool, rest: Seq<char>)
    ensures
        read_bool_after(key + (bool_text(x) + rest), key) == Some((x, rest)),
{
    strip_concat(key, bool_text(x) + rest);
    read_bool_concat(x, rest);
}

/// The native settings object from the shortcut's key on, grouped to the right.
spec fn settings_tail_grouped(m: SettingsModel) -> Seq<char> {
    ",\"mute_shortcut\":"@ + (json_string_literal(m.mute_shortcut) + (",\"start_minimized\":"@ + (bool_text(m.start_minimized) + (",\"stream_performance\":"@ + (bool_text(m.stream_performance) + ("}"@))))))
}

/// The native settings object grouped to the right.
spec fn settings_grouped(m: SettingsModel) -> Seq<char> {
    "{\"auto_update_check\":"@ + (bool_text(m.auto_update_check) + (",\"autostart\":"@ + (bool_text(m.autostart) + (",\"disable_gpu\":"@ + (bool_text(m.disable_gpu) + (",\"game_mode\":"@ + (bool_text(m.game_mode) + (",\"minimize_to_tray\":"@ + (bool_text(m.minimize_to_tray) + settings_tail_grouped(m))))))))))
}

/// The native settings object is its parts grouped to the right.
proof fn native_settings_grouped(m: SettingsModel)
    ensures
        native_settings_json(m) == settings_grouped(m),
{
    let p0 = "{\"auto_update_check\":"@;
    let p1 = bool_text(m.auto_update_check);
    let p2 = ",\"autostart\":"@;
    let p3 = bool_text(m.autostart);
    let p4 = ",\"disable_gpu\":"@;
    let p5 = bool_text(m.disable_gpu);
    let p6 = ",\"game_mode\":"@;
    let p7 = bool_text(m.game_mode);
    let p8 = ",\"minimize_to_tray\":"@;
    let p9 = bool_text(m.minimize_to_tray);
    let p10 = ",\"mute_shortcut\":"@;
    let p11 = json_string_literal(m.mute_shortcut);
    let p12 = ",\"start_minimized\":"@;
    let p13 = bool_text(m.start_minimized);
    let p14 = ",\"stream_performance\":"@;
    let p15 = bool_text(m.stream_performance);
    let p16 = "}"@;
    let x0 = p0;
    let x1 = x0 + p1;
    let x2 = x1 + p2;
    let x3 = x2 + p3;
    let x4 = x3 + p4;
    let x5 = x4 + p5;
    let x6 = x5 + p6;
    let x7 = x6 + p7;
    let x8 = x7 + p8;
    let x9 = x8 + p9;
    let x10 = x9 + p10;
    let x11 = x10 + p11;
    let x12 = x11 + p12;
    let x13 = x12 + p13;
    let x14 = x13 + p14;
    let x15 = x14 + p15;
    let x16 = x15 + p16;
    assert(native_settings_json(m) == x16);
    let r16 = p16;
    let r15 = p15 + r16;
    lemma_concat_associative(x14, p15, r16);
    let r14 = p14 + r15;
    lemma_concat_associative(x13, p14, r15);
    let r13 = p13 + r14;
    lemma_concat_associative(x12, p13, r14);
    let r12 = p12 + r13;
    lemma_concat_associative(x11, p12, r13);
    let r11 = p11 + r12;
    lemma_concat_associative(x10, p11, r12);
    let r10 = p10 + r11;
    lemma_concat_associative(x9, p10, r11);
    let r9 = p9 + r10;
    lemma_concat_associative(x8, p9, r10);
    let r8 = p8 + r9;
    lemma_concat_associative(x7, p8, r9);
    let r7 = p7 + r8;
    lemma_concat_associative(x6, p7, r8);
    let r6 = p6 + r7;
    lemma_concat_associative(x5, p6, r7);
    let r5 = p5 + r6;
    lemma_concat_associative(x4, p5, r6);
    let r4 = p4 + r5;
    lemma_concat_associative(x3, p4, r5);
    let r3 = p3 + r4;
    lemma_concat_associative(x2, p3, r4);
    let r2 = p2 + r3;
    lemma_concat_associative(x1, p2, r3);
    let r1 = p1 + r2;
    lemma_concat_associative(x0, p1, r2);
    assert(settings_tail_grouped(m) == r10);
    assert(settings_grouped(m) == p0 + r1);
}

/// The first five fields read back as the flags written, leaving the rest of the object.
proof fn settings_head_read_back(m: SettingsModel)
    ensures
        read_settings_head(settings_grouped(m)) == Some(
            (
                m.auto_update_check,
                m.autostart,
                m.disable_gpu,
                m.game_mode,
                m.minimize_to_tray,
                settings_tail_grouped(m),
            ),
        ),
{
    let t5 = settings_tail_grouped(m);
    let t4 = ",\"minimize_to_tray\":"@ + (bool_text(m.minimize_to_tray) + t5);
    let t3 = ",\"game_mode\":"@ + (bool_text(m.game_mode) + t4);
    let t2 = ",\"disable_gpu\":"@ + (bool_text(m.disable_gpu) + t3);
    let t1 = ",\"autostart\":"@ + (bool_text(m.autostart) + t2);
    read_bool_after_concat("{\"auto_update_check\":"@, m.auto_update_check, t1);
    read_bool_after_concat(",\"autostart\":"@, m.autostart, t2);
    read_bool_after_concat(",\"disable_gpu\":"@, m.disable_gpu, t3);
    read_bool_after_concat(",\"game_mode\":"@, m.game_mode, t4);
    read_bool_after_concat(",\"minimize_to_tray\":"@, m.minimize_to_tray, t5);
}

/// The shortcut and the last two flags read back as written, with nothing after the object.
proof fn settings_tail_read_back(m: SettingsModel)
    ensures
        read_settings_tail(settings_tail_grouped(m)) == Some(
            (m.mute_shortcut, m.start_minimized, m.stream_performance),
        ),
{
    let t9 = "}"@;
    let t8 = ",\"stream_performance\":"@ + (bool_text(m.stream_performance) + t9);
    let t7 = ",\"start_minimized\":"@ + (bool_text(m.start_minimized) + t8);
    let t6 = json_string_literal(m.mute_shortcut) + t7;
    strip_concat(",\"mute_shortcut\":"@, t6);
    json_string_round_trip(m.mute_shortcut, t7);
    read_bool_after_concat(",\"start_minimized\":"@, m.start_minimized, t8);
    read_bool_after_concat(",\"stream_performance\":"@, m.stream_performance, t9);
}

/// Reading the native settings that the page receives gives back exactly the eight values
/// that were sent, whatever the microphone shortcut holds (quotes, backslashes, line breaks):
/// the shortcut cannot end its string early or add anything to the object.
pub proof fn native_settings_read_back(m: SettingsModel)
    ensures
        read_native_settings(native_settings_json(m)) == Some(sent_values(m)),
{
    native_settings_grouped(m);
    settings_head_read_back(m);
    settings_tail_read_back(m);
}

/// In a notice or status script, the argument after the call's opening bracket is a JSON
/// string literal that reads back as exactly the message, and is followed only by the
/// warning flag and the end of the call: no part of the message runs as code.
pub proof fn message_read_back(function: Seq<char>, msg: Seq<char>, warn: bool)
    ensures
        ({
            let prefix = function + "&&"@ + function + "("@;
            let text = message_call_text(function, msg, warn);
            &&& text == prefix + json_string_literal(msg) + (","@ + bool_text(warn) + ");"@)
            &&& json_read_string(text.subrange(prefix.len() as int, text.len() as int)) == Some(
                (msg, ","@ + bool_text(warn) + ");"@),
            )
        }),
{
    let prefix = function + "&&"@ + function + "("@;
    let suffix = ","@ + bool_text(warn) + ");"@;
    let text = message_call_text(function, msg, warn);
    assert(text =~= prefix + (json_string_literal(msg) + suffix));
    assert(text.subrange(prefix.len() as int, text.len() as int) =~= json_string_literal(msg)
        + suffix);
    json_string_round_trip(msg, suffix);
}

} // verus!
