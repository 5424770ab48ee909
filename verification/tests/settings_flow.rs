use idgafcord::host::{
    auto_update_enabled, browser_args, close_decision, needs_reload, reconcile_autostart,
    restarts_after, startup_fallback_shortcut, update_notice, CloseDecision, UpdateEvent,
    GPU_OFF_BROWSER_ARGS, STREAM_BROWSER_ARGS,
};
use idgafcord::native::{
    apply_profile, apply_set, apply_shortcut, finish_launcher, native_action, native_request,
    profile_from, shortcut_candidate, NativeAction, Profile, SetStep,
};
use idgafcord::tray::{apply_repair, apply_toggle, menu_command, CheckItem, MenuCommand};
use idgafcord::{default_language, default_mute_shortcut, default_true, tray_label, Settings};

fn pairs(list: &[(&str, &str)]) -> Vec<(String, String)> {
    list.iter().map(|(k, v)| (k.to_string(), v.to_string())).collect()
}

#[test]
fn defaults_match_a_fresh_installation() {
    let s = Settings::default();
    assert!(s.minimize_to_tray);
    assert!(!s.autostart);
    assert!(!s.start_minimized);
    assert!(!s.disable_gpu);
    assert!(!s.stream_performance);
    assert!(s.auto_update_check);
    assert!(!s.game_mode);
    assert_eq!(s.mute_shortcut, "CommandOrControl+Shift+M");
    assert_eq!(s.language, "tr");
    assert!(default_true());
    assert_eq!(default_language(), "tr");
    assert_eq!(default_mute_shortcut(), "CommandOrControl+Shift+M");
}

#[test]
fn tray_labels_follow_the_language() {
    assert_eq!(tray_label("en", "tray"), "Minimize to tray on close");
    assert_eq!(tray_label("tr", "tray"), "Kapatınca tepsiye küçült");
    assert_eq!(tray_label("de", "quit"), "Çıkış");
    assert_eq!(tray_label("en", "quit"), "Quit");
    assert_eq!(tray_label("en", "show"), "Show Discord");
    assert_eq!(tray_label("tr", "show"), "Discord'u Göster");
    assert_eq!(tray_label("en", "auto_update"), "Check for updates automatically");
    assert_eq!(tray_label("en", "nothing"), "");
    assert_eq!(tray_label("EN", "cache"), "Önbelleği temizle");
}

#[test]
fn check_items_know_their_ids_and_labels() {
    assert_eq!(CheckItem::MinimizeToTray.menu_id(), "t_tray");
    assert_eq!(CheckItem::AutoUpdateCheck.menu_id(), "t_auto_update");
    assert_eq!(CheckItem::StartMinimized.label_key(), "startmin");
    assert_eq!(tray_label("en", CheckItem::DisableGpu.label_key()), "Disable hardware acceleration (restart)");
    let s = Settings::default();
    assert!(CheckItem::MinimizeToTray.checked(&s));
    assert!(!CheckItem::GameMode.checked(&s));
    for item in [
        CheckItem::MinimizeToTray,
        CheckItem::StartMinimized,
        CheckItem::Autostart,
        CheckItem::StreamPerformance,
        CheckItem::DisableGpu,
        CheckItem::GameMode,
        CheckItem::AutoUpdateCheck,
    ] {
        assert_eq!(menu_command(item.menu_id()), MenuCommand::Toggle(item));
    }
}

#[test]
fn menu_ids_map_to_commands() {
    assert_eq!(menu_command("t_gpu"), MenuCommand::Toggle(CheckItem::DisableGpu));
    assert_eq!(menu_command("settings"), MenuCommand::OpenSettings);
    assert_eq!(menu_command("clear_cache"), MenuCommand::ClearCache);
    assert_eq!(menu_command("repair"), MenuCommand::Repair);
    assert_eq!(menu_command("check_update"), MenuCommand::CheckUpdate);
    assert_eq!(menu_command("show"), MenuCommand::Show);
    assert_eq!(menu_command("quit"), MenuCommand::Quit);
    assert_eq!(menu_command("brand"), MenuCommand::Ignore);
}

#[test]
fn toggling_gpu_turns_stream_off() {
    let mut s = Settings::default();
    s.stream_performance = true;
    let fx = apply_toggle(&mut s, CheckItem::DisableGpu);
    assert!(s.disable_gpu);
    assert!(!s.stream_performance);
    assert_eq!(fx.checks, vec![(CheckItem::DisableGpu, true), (CheckItem::StreamPerformance, false)]);
    assert!(fx.save && fx.sync);
    assert_eq!(fx.launcher, None);
    assert!(!fx.quiet_update_check);
    let fx = apply_toggle(&mut s, CheckItem::DisableGpu);
    assert!(!s.disable_gpu);
    assert!(!s.stream_performance);
    assert_eq!(fx.checks, vec![(CheckItem::DisableGpu, false)]);
}

#[test]
fn toggling_stream_turns_gpu_off() {
    let mut s = Settings::default();
    s.disable_gpu = true;
    let fx = apply_toggle(&mut s, CheckItem::StreamPerformance);
    assert!(s.stream_performance && !s.disable_gpu);
    assert_eq!(fx.checks, vec![(CheckItem::StreamPerformance, true), (CheckItem::DisableGpu, false)]);
}

#[test]
fn toggling_twice_restores_plain_flags() {
    let start = Settings::default();
    for item in [
        CheckItem::MinimizeToTray,
        CheckItem::StartMinimized,
        CheckItem::Autostart,
        CheckItem::GameMode,
        CheckItem::AutoUpdateCheck,
        CheckItem::DisableGpu,
        CheckItem::StreamPerformance,
    ] {
        let mut s = start.clone();
        apply_toggle(&mut s, item);
        assert_ne!(s, start);
        apply_toggle(&mut s, item);
        assert_eq!(s, start);
    }
}

#[test]
fn toggling_autostart_and_updates_has_side_effects() {
    let mut s = Settings::default();
    let fx = apply_toggle(&mut s, CheckItem::Autostart);
    assert_eq!(fx.launcher, Some(true));
    assert_eq!(fx.checks, vec![(CheckItem::Autostart, true)]);
    let fx = apply_toggle(&mut s, CheckItem::AutoUpdateCheck);
    assert!(!s.auto_update_check);
    assert!(!fx.quiet_update_check);
    let fx = apply_toggle(&mut s, CheckItem::AutoUpdateCheck);
    assert!(s.auto_update_check);
    assert!(fx.quiet_update_check);
}

#[test]
fn repair_turns_risky_options_off() {
    let mut s = Settings::default();
    s.game_mode = true;
    s.stream_performance = true;
    s.minimize_to_tray = false;
    let fx = apply_repair(&mut s);
    assert!(!s.game_mode && !s.stream_performance && !s.disable_gpu);
    assert!(!s.minimize_to_tray);
    assert_eq!(
        fx.checks,
        vec![
            (CheckItem::StreamPerformance, false),
            (CheckItem::DisableGpu, false),
            (CheckItem::GameMode, false)
        ]
    );
    assert!(fx.save);
    assert!(!fx.sync);
}

#[test]
fn only_native_urls_are_requests() {
    let p = pairs(&[("action", "set")]);
    assert!(native_request("https", Some("discord.com"), &p).is_none());
    assert!(native_request("idgafcord", Some("other"), &p).is_none());
    assert!(native_request("idgafcord", None, &p).is_none());
    let r = native_request("idgafcord", Some("native"), &p).unwrap();
    assert_eq!(r.action, "set");
    assert_eq!(r.key, "");
    assert_eq!(r.value, "");
}

#[test]
fn the_last_query_pair_wins() {
    let p = pairs(&[
        ("key", "game_mode"),
        ("action", "sync"),
        ("value", "1"),
        ("other", "x"),
        ("action", "set"),
    ]);
    let r = native_request("idgafcord", Some("native"), &p).unwrap();
    assert_eq!(r.action, "set");
    assert_eq!(r.key, "game_mode");
    assert_eq!(r.value, "1");
}

#[test]
fn actions_are_recognised() {
    assert_eq!(native_action("sync"), NativeAction::Sync);
    assert_eq!(native_action("check_update"), NativeAction::CheckUpdate);
    assert_eq!(native_action("set"), NativeAction::SetOption);
    assert_eq!(native_action("profile"), NativeAction::Profile);
    assert_eq!(native_action("set_shortcut"), NativeAction::SetShortcut);
    assert_eq!(native_action("reboot"), NativeAction::Ignore);
}

fn applied(step: SetStep) -> idgafcord::tray::Effects {
    match step {
        SetStep::Applied(fx) => fx,
        SetStep::Launcher(_) => panic!("unexpected launcher step"),
    }
}

#[test]
fn set_flags_accept_one_true_on() {
    for v in ["1", "true", "on"] {
        let mut s = Settings::default();
        let fx = applied(apply_set(&mut s, "game_mode", v));
        assert!(s.game_mode);
        assert_eq!(fx.checks, vec![(CheckItem::GameMode, true)]);
        assert!(fx.save && fx.sync);
    }
    for v in ["0", "yes", "TRUE", " 1"] {
        let mut s = Settings::default();
        s.game_mode = true;
        applied(apply_set(&mut s, "game_mode", v));
        assert!(!s.game_mode);
    }
}

#[test]
fn set_language_stores_en_or_tr() {
    let mut s = Settings::default();
    let fx = applied(apply_set(&mut s, "language", "en"));
    assert_eq!(s.language, "en");
    assert!(fx.checks.is_empty());
    applied(apply_set(&mut s, "language", "fr"));
    assert_eq!(s.language, "tr");
}

#[test]
fn set_gpu_and_stream_exclude_each_other() {
    let mut s = Settings::default();
    let fx = applied(apply_set(&mut s, "stream_performance", "1"));
    assert!(s.stream_performance);
    assert_eq!(fx.checks, vec![(CheckItem::StreamPerformance, true), (CheckItem::DisableGpu, false)]);
    let fx = applied(apply_set(&mut s, "disable_gpu", "on"));
    assert!(s.disable_gpu && !s.stream_performance);
    assert_eq!(fx.checks, vec![(CheckItem::DisableGpu, true), (CheckItem::StreamPerformance, false)]);
    let fx = applied(apply_set(&mut s, "disable_gpu", "0"));
    assert!(!s.disable_gpu && !s.stream_performance);
    assert_eq!(fx.checks, vec![(CheckItem::DisableGpu, false)]);
}

#[test]
fn set_update_check_starts_a_quiet_check() {
    let mut s = Settings::default();
    let fx = applied(apply_set(&mut s, "auto_update_check", "0"));
    assert!(!s.auto_update_check);
    assert!(!fx.quiet_update_check);
    let fx = applied(apply_set(&mut s, "auto_update_check", "1"));
    assert!(s.auto_update_check);
    assert!(fx.quiet_update_check);
    assert_eq!(fx.checks, vec![(CheckItem::AutoUpdateCheck, true)]);
}

#[test]
fn set_unknown_key_only_saves() {
    let mut s = Settings::default();
    let fx = applied(apply_set(&mut s, "colour", "1"));
    assert_eq!(s, Settings::default());
    assert!(fx.checks.is_empty());
    assert!(fx.save && fx.sync);
}

#[test]
fn set_autostart_goes_through_the_launcher() {
    let mut s = Settings::default();
    match apply_set(&mut s, "autostart", "1") {
        SetStep::Launcher(b) => assert!(b),
        SetStep::Applied(_) => panic!("expected launcher step"),
    }
    assert_eq!(s, Settings::default());
    let fx = finish_launcher(&mut s, true, Some(false));
    assert!(!s.autostart);
    assert_eq!(fx.checks, vec![(CheckItem::Autostart, false)]);
    let fx = finish_launcher(&mut s, true, None);
    assert!(s.autostart);
    assert_eq!(fx.checks, vec![(CheckItem::Autostart, true)]);
    assert!(fx.save && fx.sync);
}

#[test]
fn profiles_fix_three_flags() {
    assert_eq!(profile_from(" save \n"), Profile::Save);
    assert_eq!(profile_from("stream"), Profile::Stream);
    assert_eq!(profile_from("\tgame"), Profile::Game);
    assert_eq!(profile_from("balanced"), Profile::Normal);
    assert_eq!(profile_from(""), Profile::Normal);
    let mut s = Settings::default();
    let fx = apply_profile(&mut s, Profile::Game);
    assert!(!s.disable_gpu && s.stream_performance && s.game_mode);
    assert_eq!(
        fx.checks,
        vec![
            (CheckItem::DisableGpu, false),
            (CheckItem::StreamPerformance, true),
            (CheckItem::GameMode, true)
        ]
    );
    apply_profile(&mut s, Profile::Save);
    assert!(s.disable_gpu && !s.stream_performance && !s.game_mode);
    apply_profile(&mut s, Profile::Stream);
    assert!(!s.disable_gpu && s.stream_performance && !s.game_mode);
    let fx = apply_profile(&mut s, Profile::Normal);
    assert!(!s.disable_gpu && !s.stream_performance && !s.game_mode);
    assert!(fx.save && fx.sync);
}

#[test]
fn shortcuts_are_trimmed_and_stored() {
    assert_eq!(shortcut_candidate("   "), None);
    assert_eq!(shortcut_candidate(""), None);
    assert_eq!(shortcut_candidate(" Ctrl+Alt+K \r\n"), Some("Ctrl+Alt+K".to_string()));
    let mut s = Settings::default();
    let fx = apply_shortcut(&mut s, "Ctrl+Alt+K".to_string());
    assert_eq!(s.mute_shortcut, "Ctrl+Alt+K");
    assert!(fx.save && !fx.sync);
    assert_eq!(startup_fallback_shortcut(true), None);
    assert_eq!(startup_fallback_shortcut(false), Some("CommandOrControl+Shift+M".to_string()));
}

#[test]
fn closing_goes_to_the_tray() {
    assert_eq!(close_decision(None), CloseDecision { keep_running: true, suspend: false });
    assert_eq!(close_decision(Some((true, true))), CloseDecision { keep_running: true, suspend: true });
    assert_eq!(close_decision(Some((false, true))), CloseDecision { keep_running: false, suspend: false });
    assert_eq!(close_decision(Some((true, false))), CloseDecision { keep_running: true, suspend: false });
}

#[test]
fn blank_pages_are_reloaded() {
    assert!(needs_reload(Some("about:blank")));
    assert!(needs_reload(Some("about:")));
    assert!(!needs_reload(Some("https://discord.com/app")));
    assert!(!needs_reload(Some("abou")));
    assert!(!needs_reload(None));
}

#[test]
fn startup_reconciles_autostart_and_browser_flags() {
    let mut s = Settings::default();
    reconcile_autostart(&mut s, Some(true));
    assert!(s.autostart);
    reconcile_autostart(&mut s, None);
    assert!(s.autostart);
    reconcile_autostart(&mut s, Some(false));
    assert!(!s.autostart);
    assert_eq!(browser_args(&s), None);
    s.stream_performance = true;
    assert_eq!(browser_args(&s), Some(STREAM_BROWSER_ARGS));
    s.disable_gpu = true;
    assert_eq!(browser_args(&s), Some(GPU_OFF_BROWSER_ARGS));
    assert!(GPU_OFF_BROWSER_ARGS.ends_with("--disable-gpu"));
}

#[test]
fn update_checks_report_their_steps() {
    assert!(auto_update_enabled(Some(true)));
    assert!(!auto_update_enabled(Some(false)));
    assert!(!auto_update_enabled(None));
    assert_eq!(update_notice(UpdateEvent::Started, false), Some(("Güncelleme kontrol ediliyor...", false)));
    assert_eq!(update_notice(UpdateEvent::Started, true), None);
    assert_eq!(update_notice(UpdateEvent::UpToDate, true), None);
    assert_eq!(update_notice(UpdateEvent::UpToDate, false), Some(("En güncel sürüm kullanılıyor.", false)));
    assert_eq!(update_notice(UpdateEvent::CheckFailed, false), Some(("Güncelleme kontrolü başarısız.", true)));
    assert_eq!(update_notice(UpdateEvent::UpdaterUnavailable, false), Some(("Güncelleme sistemi başlatılamadı.", true)));
    assert_eq!(update_notice(UpdateEvent::Found, true), Some(("Yeni sürüm bulundu, indiriliyor...", false)));
    assert_eq!(update_notice(UpdateEvent::Installed, true), Some(("Güncelleme kuruldu, yeniden başlatılıyor...", false)));
    assert_eq!(update_notice(UpdateEvent::InstallFailed, true), Some(("Güncelleme indirilemedi.", true)));
    assert!(restarts_after(UpdateEvent::Installed));
    assert!(!restarts_after(UpdateEvent::Found));
}

#[test]
fn profiles_are_idempotent_and_ignore_prior_flags() {
    for p in [Profile::Save, Profile::Stream, Profile::Game, Profile::Normal] {
        let mut a = Settings::default();
        let mut b = Settings::default();
        b.disable_gpu = true;
        b.stream_performance = true;
        b.game_mode = true;
        apply_profile(&mut a, p);
        apply_profile(&mut b, p);
        assert_eq!(a, b);
        assert!(!(a.disable_gpu && a.stream_performance));
        let once = a.clone();
        apply_profile(&mut a, p);
        assert_eq!(a, once);
    }
}
