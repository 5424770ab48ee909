//! Labels of the tray menu, in Turkish or English.
use vstd::prelude::*;
use crate::text::str_eq;

verus! {

/// The label of the tray menu entry `key`: English when `lang` is `en`, Turkish otherwise,
/// and empty for an unknown key.
pub open spec fn tray_label_text(lang: Seq<char>, key: Seq<char>) -> Seq<char> {
    let en = lang == "en"@;
    if key == "tray"@ {
        if en { "Minimize to tray on close"@ } else { "Kapatınca tepsiye küçült"@ }
    } else if key == "startmin"@ {
        if en { "Start silently in tray"@ } else { "Tepside sessiz başlat"@ }
    } else if key == "autostart"@ {
        if en { "Start with Windows"@ } else { "Windows ile başlat"@ }
    } else if key == "stream"@ {
        if en { "Screen-share performance (restart)"@ } else { "Ekran paylaşımı performansı (yeniden başlat)"@ }
    } else if key == "gpu"@ {
        if en { "Disable hardware acceleration (restart)"@ } else { "Donanım hızlandırmayı kapat (yeniden başlat)"@ }
    } else if key == "game"@ {
        if en { "Game mode: suspend in tray (notifications pause)"@ } else { "Oyun modu: tepsideyken askıya al (bildirimler durur)"@ }
    } else if key == "auto_update"@ {
        if en { "Check for updates automatically"@ } else { "Güncellemeleri otomatik denetle"@ }
    } else if key == "settings"@ {
        if en { "Settings (theme, privacy)"@ } else { "Ayarlar (tema, gizlilik)"@ }
    } else if key == "cache"@ {
        if en { "Clear cache"@ } else { "Önbelleği temizle"@ }
    } else if key == "repair"@ {
        if en { "Troubleshoot: safe restart"@ } else { "Sorun giderme: güvenli yeniden başlat"@ }
    } else if key == "update"@ {
        if en { "Check for updates"@ } else { "Güncellemeleri denetle"@ }
    } else if key == "show"@ {
        if en { "Show Discord"@ } else { "Discord'u Göster"@ }
    } else if key == "quit"@ {
        if en { "Quit"@ } else { "Çıkış"@ }
    } else {
        ""@
    }
}

/// The label of the tray menu entry `key` in the interface language `lang`.
pub fn tray_label(lang: &str, key: &str) -> (r: &'static str)
    ensures
        r@ == tray_label_text(lang@, key@),
{
    let en = str_eq(lang, "en");
    if str_eq(key, "tray") {
        if en { "Minimize to tray on close" } else { "Kapatınca tepsiye küçült" }
    } else if str_eq(key, "startmin") {
        if en { "Start silently in tray" } else { "Tepside sessiz başlat" }
    } else if str_eq(key, "autostart") {
        if en { "Start with Windows" } else { "Windows ile başlat" }
    } else if str_eq(key, "stream") {
        if en { "Screen-share performance (restart)" } else { "Ekran paylaşımı performansı (yeniden başlat)" }
    } else if str_eq(key, "gpu") {
        if en { "Disable hardware acceleration (restart)" } else { "Donanım hızlandırmayı kapat (yeniden başlat)" }
    } else if str_eq(key, "game") {
        if en { "Game mode: suspend in tray (notifications pause)" } else { "Oyun modu: tepsideyken askıya al (bildirimler durur)" }
    } else if str_eq(key, "auto_update") {
        if en { "Check for updates automatically" } else { "Güncellemeleri otomatik denetle" }
    } else if str_eq(key, "settings") {
        if en { "Settings (theme, privacy)" } else { "Ayarlar (tema, gizlilik)" }
    } else if str_eq(key, "cache") {
        if en { "Clear cache" } else { "Önbelleği temizle" }
    } else if str_eq(key, "repair") {
        if en { "Troubleshoot: safe restart" } else { "Sorun giderme: güvenli yeniden başlat" }
    } else if str_eq(key, "update") {
        if en { "Check for updates" } else { "Güncellemeleri denetle" }
    } else if str_eq(key, "show") {
        if en { "Show Discord" } else { "Discord'u Göster" }
    } else if str_eq(key, "quit") {
        if en { "Quit" } else { "Çıkış" }
    } else {
        ""
    }
}

/// The tray menu keys, the labels of which are known.
pub open spec fn known_label_key(key: Seq<char>) -> bool {
    key == "tray"@ || key == "startmin"@ || key == "autostart"@ || key == "stream"@ || key == "gpu"@ || key == "game"@ || key == "auto_update"@ || key == "settings"@ || key == "cache"@ || key == "repair"@ || key == "update"@ || key == "show"@ || key == "quit"@
}

/// Every known tray entry has a label in both languages, English when the language is
/// `en` and Turkish otherwise, the two different; an unknown entry has an empty label.
pub proof fn labels_follow_language(lang: Seq<char>, key: Seq<char>)
    ensures
        known_label_key(key) ==> tray_label_text("en"@, key).len() > 0 && tray_label_text(lang, key).len() > 0,
        known_label_key(key) && lang != "en"@ ==> tray_label_text(lang, key) != tray_label_text("en"@, key),
        lang != "en"@ ==> tray_label_text(lang, key) == tray_label_text("tr"@, key),
        !known_label_key(key) ==> tray_label_text(lang, key).len() == 0,
{
    reveal_strlit("en");
    reveal_strlit("tr");
    reveal_strlit("");
    assert("en"@.len() == 2 && "tr"@.len() == 2 && "en"@[0] == 'e' && "tr"@[0] == 't');
    reveal_strlit("tray");
    reveal_strlit("Minimize to tray on close");
    reveal_strlit("Kapatınca tepsiye küçült");
    assert("tray"@.len() == 4 && "tray"@[0] == 't');
    assert("Minimize to tray on close"@.len() == 25 && "Kapatınca tepsiye küçült"@.len() == 24);
    reveal_strlit("startmin");
    reveal_strlit("Start silently in tray");
    reveal_strlit("Tepside sessiz başlat");
    assert("startmin"@.len() == 8 && "startmin"@[0] == 's');
    assert("Start silently in tray"@.len() == 22 && "Tepside sessiz başlat"@.len() == 21);
    reveal_strlit("autostart");
    reveal_strlit("Start with Windows");
    reveal_strlit("Windows ile başlat");
    assert("autostart"@.len() == 9 && "autostart"@[0] == 'a');
    assert("Start with Windows"@.len() == 18 && "Windows ile başlat"@.len() == 18 && "Start with Windows"@[0] == 'S' && "Windows ile başlat"@[0] == 'W');
    reveal_strlit("stream");
    reveal_strlit("Screen-share performance (restart)");
    reveal_strlit("Ekran paylaşımı performansı (yeniden başlat)");
    assert("stream"@.len() == 6 && "stream"@[0] == 's');
    assert("Screen-share performance (restart)"@.len() == 34 && "Ekran paylaşımı performansı (yeniden başlat)"@.len() == 44);
    reveal_strlit("gpu");
    reveal_strlit("Disable hardware acceleration (restart)");
    reveal_strlit("Donanım hızlandırmayı kapat (yeniden başlat)");
    assert("gpu"@.len() == 3 && "gpu"@[0] == 'g');
    assert("Disable hardware acceleration (restart)"@.len() == 39 && "Donanım hızlandırmayı kapat (yeniden başlat)"@.len() == 44);
    reveal_strlit("game");
    reveal_strlit("Game mode: suspend in tray (notifications pause)");
    reveal_strlit("Oyun modu: tepsideyken askıya al (bildirimler durur)");
    assert("game"@.len() == 4 && "game"@[0] == 'g');
    assert("Game mode: suspend in tray (notifications pause)"@.len() == 48 && "Oyun modu: tepsideyken askıya al (bildirimler durur)"@.len() == 52);
    reveal_strlit("auto_update");
    reveal_strlit("Check for updates automatically");
    reveal_strlit("Güncellemeleri otomatik denetle");
    assert("auto_update"@.len() == 11 && "auto_update"@[0] == 'a');
    assert("Check for updates automatically"@.len() == 31 && "Güncellemeleri otomatik denetle"@.len() == 31 && "Check for updates automatically"@[0] == 'C' && "Güncellemeleri otomatik denetle"@[0] == 'G');
    reveal_strlit("settings");
    reveal_strlit("Settings (theme, privacy)");
    reveal_strlit("Ayarlar (tema, gizlilik)");
    assert("settings"@.len() == 8 && "settings"@[0] == 's');
    assert("Settings (theme, privacy)"@.len() == 25 && "Ayarlar (tema, gizlilik)"@.len() == 24);
    reveal_strlit("cache");
    reveal_strlit("Clear cache");
    reveal_strlit("Önbelleği temizle");
    assert("cache"@.len() == 5 && "cache"@[0] == 'c');
    assert("Clear cache"@.len() == 11 && "Önbelleği temizle"@.len() == 17);
    reveal_strlit("repair");
    reveal_strlit("Troubleshoot: safe restart");
    reveal_strlit("Sorun giderme: güvenli yeniden başlat");
    assert("repair"@.len() == 6 && "repair"@[0] == 'r');
    assert("Troubleshoot: safe restart"@.len() == 26 && "Sorun giderme: güvenli yeniden başlat"@.len() == 37);
    reveal_strlit("update");
    reveal_strlit("Check for updates");
    reveal_strlit("Güncellemeleri denetle");
    assert("update"@.len() == 6 && "update"@[0] == 'u');
    assert("Check for updates"@.len() == 17 && "Güncellemeleri denetle"@.len() == 22);
    reveal_strlit("show");
    reveal_strlit("Show Discord");
    reveal_strlit("Discord'u Göster");
    assert("show"@.len() == 4 && "show"@[0] == 's');
    assert("Show Discord"@.len() == 12 && "Discord'u Göster"@.len() == 16);
    reveal_strlit("quit");
    reveal_strlit("Quit");
    reveal_strlit("Çıkış");
    assert("quit"@.len() == 4 && "quit"@[0] == 'q');
    assert("Quit"@.len() == 4 && "Çıkış"@.len() == 5);
    assert("startmin"@[1] == 't' && "settings"@[1] == 'e');
}

} // verus!
