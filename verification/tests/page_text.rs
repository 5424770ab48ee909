use idgafcord::bootstrap_script;
use idgafcord::page_script::page_script_text;
use idgafcord::scripts::{native_settings_script, notice_script, shortcut_notice_script, update_status_script};
use idgafcord::text::{replace_all, starts_with, str_eq, trim};
use idgafcord::Settings;

#[test]
fn notices_quote_their_message_as_json() {
    assert_eq!(
        notice_script("Kısayol \"x\"\n", true),
        "window.__LDC_nativeNotice&&window.__LDC_nativeNotice(\"Kısayol \\\"x\\\"\\n\",true);"
    );
    assert_eq!(
        update_status_script("a\\b\u{1}\t", false),
        "window.__LDC_updateStatus&&window.__LDC_updateStatus(\"a\\\\b\\u0001\\t\",false);"
    );
}

#[test]
fn shortcut_notices_confirm_or_warn() {
    assert_eq!(
        shortcut_notice_script(true),
        "window.__LDC_nativeNotice&&window.__LDC_nativeNotice(\"Kısayol kaydedildi.\",false);"
    );
    assert_eq!(
        shortcut_notice_script(false),
        "window.__LDC_nativeNotice&&window.__LDC_nativeNotice(\"Bu kısayol Windows tarafından kabul edilmedi.\",true);"
    );
}

#[test]
fn native_settings_reach_the_page() {
    let mut s = Settings::default();
    s.mute_shortcut = "Ctrl+\"Q\"".to_string();
    s.game_mode = true;
    assert_eq!(
        native_settings_script(&s),
        "window.__LDC_setNativeSettings&&window.__LDC_setNativeSettings({\"auto_update_check\":true,\"autostart\":false,\"disable_gpu\":false,\"game_mode\":true,\"minimize_to_tray\":true,\"mute_shortcut\":\"Ctrl+\\\"Q\\\"\",\"start_minimized\":false,\"stream_performance\":false});"
    );
}

#[test]
fn the_page_script_carries_the_logo() {
    let script = bootstrap_script("iVBORw0KGgo=\r\n");
    let template = page_script_text();
    assert!(template.starts_with("(function(){"));
    assert!(template.ends_with("})();"));
    assert_eq!(template.matches("__LDC_LOGO_DATA_URI__").count(), 1);
    assert!(!script.contains("__LDC_LOGO_DATA_URI__"));
    assert!(script.contains("var LDC_LOGO_DATA_URI='data:image/png;base64,iVBORw0KGgo=';"));
    assert_eq!(
        script,
        template.replace("__LDC_LOGO_DATA_URI__", "data:image/png;base64,iVBORw0KGgo=")
    );
}

#[test]
fn text_helpers_behave_like_std() {
    for s in ["", "  ", " a b ", "\u{3000}x\u{85}", "\r\nabc\t", "x"] {
        assert_eq!(trim(s), s.trim());
        assert_eq!(trim(trim(s)), trim(s));
    }
    assert!(str_eq("ağ", "ağ"));
    assert!(!str_eq("a", "ab"));
    assert!(starts_with("about:blank", "about:"));
    assert!(!starts_with("ab", "about:"));
    assert_eq!(replace_all("aaaa", "aa", "b"), "bb");
    assert_eq!(replace_all("abcabc", "bc", "XY"), "aXYaXY");
    assert_eq!(replace_all("xyz", "q", "r"), "xyz");
    assert_eq!(replace_all("aaa", "aa", "b"), "aaa".replace("aa", "b"));
}

#[test]
fn the_settings_payload_parses_back() {
    let mut s = Settings::default();
    s.mute_shortcut = "x\");alert(1);//'\\\n\u{7}".to_string();
    s.autostart = true;
    let script = native_settings_script(&s);
    let prefix = "window.__LDC_setNativeSettings&&window.__LDC_setNativeSettings(";
    assert!(script.starts_with(prefix) && script.ends_with(");"));
    let payload = &script[prefix.len()..script.len() - 2];
    let v: serde_json::Value = serde_json::from_str(payload).unwrap();
    let obj = v.as_object().unwrap();
    assert_eq!(obj.len(), 8);
    assert_eq!(obj["mute_shortcut"], serde_json::Value::String(s.mute_shortcut.clone()));
    assert_eq!(obj["autostart"], serde_json::Value::Bool(true));
    assert_eq!(obj["minimize_to_tray"], serde_json::Value::Bool(true));
    assert_eq!(obj["game_mode"], serde_json::Value::Bool(false));
}

#[test]
fn notice_messages_parse_back() {
    let msg = "x);alert(1);//\"'\\";
    let script = notice_script(msg, true);
    let prefix = "window.__LDC_nativeNotice&&window.__LDC_nativeNotice(";
    let suffix = ",true);";
    assert!(script.starts_with(prefix) && script.ends_with(suffix));
    let literal = &script[prefix.len()..script.len() - suffix.len()];
    let back: String = serde_json::from_str(literal).unwrap();
    assert_eq!(back, msg);
}
