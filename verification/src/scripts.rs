//! Scripts that the host evaluates in the page, and the page script with its logo.
use vstd::prelude::*;
use vstd::string::StringExecFns;
use crate::json::{json_string, json_string_literal};
use crate::page_script::{page_script_template, page_script_text};
use crate::settings::{Settings, SettingsModel};
use crate::text::{concat, replace_all, replaced, trim, trimmed};

verus! {

/// Where the logo goes in the page script.
pub const LOGO_PLACEHOLDER: &'static str = "__LDC_LOGO_DATA_URI__";

/// What the base64 text of the logo is prefixed with to make a data URI.
pub const LOGO_DATA_URI_PREFIX: &'static str = "data:image/png;base64,";

/// Toggles the microphone in the page (bound to the global shortcut).
pub const MUTE_TOGGLE_SCRIPT: &'static str = "\n    window.__LDC_toggleMute&&window.__LDC_toggleMute();\n";

/// Opens the settings panel of the page.
pub const OPEN_SETTINGS_SCRIPT: &'static str = "window.__LDC_openSettings&&window.__LDC_openSettings();";

/// Resets the page options that can leave the window blank (theme, splash, custom CSS,
/// background) and leaves safe mode.
pub const SAFE_RESET_SCRIPT: &'static str = "try{localStorage.setItem('ldc_theme','off');localStorage.setItem('ldc_splash','0');localStorage.setItem('ldc_cssOn','0');localStorage.setItem('ldc_bgimg','');localStorage.removeItem('ldc_css');sessionStorage.removeItem('ldc_safe');}catch(e){}";

/// The page script with the logo `logo_base64` (base64 PNG text) in place: the placeholder is
/// replaced by the data URI made of the prefix and the logo, without surrounding white space.
pub fn bootstrap_script(logo_base64: &str) -> (r: String)
    ensures
        r@ == replaced(
            page_script_template(),
            LOGO_PLACEHOLDER@,
            trimmed(LOGO_DATA_URI_PREFIX@ + logo_base64@),
        ),
{
    proof {
        reveal_strlit("__LDC_LOGO_DATA_URI__");
    }
    let uri = concat(LOGO_DATA_URI_PREFIX, logo_base64);
    let uri_trimmed = trim(uri.as_str());
    let template = page_script_text();
    replace_all(template.as_str(), LOGO_PLACEHOLDER, uri_trimmed)
}

/// The JSON text of a flag.
pub open spec fn bool_text(b: bool) -> Seq<char> {
    if b {
        "true"@
    } else {
        "false"@
    }
}

/// The JSON text of a flag.
fn bool_str(b: bool) -> (r: &'static str)
    ensures
        r@ == bool_text(b),
{
    if b {
        "true"
    } else {
        "false"
    }
}

/// The native settings as the page receives them: a compact JSON object, keys in order.
pub open spec fn native_settings_json(m: SettingsModel) -> Seq<char> {
    "{\"auto_update_check\":"@ + bool_text(m.auto_update_check) + ",\"autostart\":"@ + bool_text(
        m.autostart,
    ) + ",\"disable_gpu\":"@ + bool_text(m.disable_gpu) + ",\"game_mode\":"@ + bool_text(
        m.game_mode,
    ) + ",\"minimize_to_tray\":"@ + bool_text(m.minimize_to_tray) + ",\"mute_shortcut\":"@
        + json_string_literal(m.mute_shortcut) + ",\"start_minimized\":"@ + bool_text(
        m.start_minimized,
    ) + ",\"stream_performance\":"@ + bool_text(m.stream_performance) + "}"@
}

/// The script that hands the native settings to the page.
pub open spec fn native_settings_script_text(m: SettingsModel) -> Seq<char> {
    "window.__LDC_setNativeSettings&&window.__LDC_setNativeSettings("@ + native_settings_json(m)
        + ");"@
}

/// The native settings `s` as the page receives them.
fn native_settings_json_string(s: &Settings) -> (r: String)
    ensures
        r@ == native_settings_json(s@),
{
    let mut r = String::new();
    r.append("{\"auto_update_check\":");
    r.append(bool_str(s.auto_update_check));
    r.append(",\"autostart\":");
    r.append(bool_str(s.autostart));
    r.append(",\"disable_gpu\":");
    r.append(bool_str(s.disable_gpu));
    r.append(",\"game_mode\":");
    r.append(bool_str(s.game_mode));
    r.append(",\"minimize_to_tray\":");
    r.append(bool_str(s.minimize_to_tray));
    r.append(",\"mute_shortcut\":");
    let shortcut = json_string(s.mute_shortcut.as_str());
    r.append(shortcut.as_str());
    r.append(",\"start_minimized\":");
    r.append(bool_str(s.start_minimized));
    r.append(",\"stream_performance\":");
    r.append(bool_str(s.stream_performance));
    r.append("}");
    r
}

/// The script that hands the native settings `s` to the page (the language stays out).
pub fn native_settings_script(s: &Settings) -> (r: String)
    ensures
        r@ == native_settings_script_text(s@),
{
    let json = native_settings_json_string(s);
    let mut r = String::new();
    r.append("window.__LDC_setNativeSettings&&window.__LDC_setNativeSettings(");
    r.append(json.as_str());
    r.append(");");
    r
}

/// A call of the page function `function` with the message `msg` and the warning flag `warn`.
pub open spec fn message_call_text(function: Seq<char>, msg: Seq<char>, warn: bool) -> Seq<char> {
    function + "&&"@ + function + "("@ + json_string_literal(msg) + ","@ + bool_text(warn) + ");"@
}

/// A call of the page function `function` with the message `msg` and the warning flag `warn`.
fn message_call(function: &str, msg: &str, warn: bool) -> (r: String)
    ensures
        r@ == message_call_text(function@, msg@, warn),
{
    let mut r = String::new();
    r.append(function);
    r.append("&&");
    r.append(function);
    r.append("(");
    let quoted = json_string(msg);
    r.append(quoted.as_str());
    r.append(",");
    r.append(bool_str(warn));
    r.append(");");
    r
}

/// The script that shows `msg` in the settings panel, as a warning when `warn`.
pub fn notice_script(msg: &str, warn: bool) -> (r: String)
    ensures
        r@ == message_call_text("window.__LDC_nativeNotice"@, msg@, warn),
{
    message_call("window.__LDC_nativeNotice", msg, warn)
}

/// The script that shows `msg` as the update status of the settings panel, as a warning
/// when `warn`.
pub fn update_status_script(msg: &str, warn: bool) -> (r: String)
    ensures
        r@ == message_call_text("window.__LDC_updateStatus"@, msg@, warn),
{
    message_call("window.__LDC_updateStatus", msg, warn)
}

/// The message shown after a new microphone shortcut was proposed.
pub open spec fn shortcut_message(saved: bool) -> Seq<char> {
    if saved {
        "Kısayol kaydedildi."@
    } else {
        "Bu kısayol Windows tarafından kabul edilmedi."@
    }
}

/// The notice after a new microphone shortcut was proposed: a confirmation when it was saved,
/// a warning that it was refused otherwise.
pub fn shortcut_notice_script(saved: bool) -> (r: String)
    ensures
        r@ == message_call_text("window.__LDC_nativeNotice"@, shortcut_message(saved), !saved),
{
    let msg = if saved {
        "Kısayol kaydedildi."
    } else {
        "Bu kısayol Windows tarafından kabul edilmedi."
    };
    notice_script(msg, !saved)
}

} // verus!
