use adguard_home_toggle::api::Status;
use adguard_home_toggle::icons::{rgba_to_argb, shield_off_svg, shield_on_svg};
use adguard_home_toggle::report::{
    osd_content, snooze_report, status_line, toggle_report, toggled_state,
};
use adguard_home_toggle::tray::{
    find_icon_dir, icon_dir_candidates, icon_dir_candidates_from, icon_probe_path, notify_status,
    AdGuardTray, MenuEntry, TrayAction,
};

#[test]
fn status_lines() {
    let on = Status { protection_enabled: true, protection_disabled_duration: 90_000 };
    assert_eq!(status_line(&on), "Protection: ENABLED");
    let snoozed = Status { protection_enabled: false, protection_disabled_duration: 125_000 };
    assert_eq!(status_line(&snoozed), "Protection: SNOOZED (2m 5s remaining)");
    let almost = Status { protection_enabled: false, protection_disabled_duration: 999 };
    assert_eq!(status_line(&almost), "Protection: SNOOZED (0m 0s remaining)");
    let long = Status { protection_enabled: false, protection_disabled_duration: 28_800_000 };
    assert_eq!(status_line(&long), "Protection: SNOOZED (480m 0s remaining)");
    let off = Status { protection_enabled: false, protection_disabled_duration: 0 };
    assert_eq!(status_line(&off), "Protection: DISABLED");
}

#[test]
fn command_reports() {
    let r = toggle_report(true);
    assert_eq!(r.line, "Protection: ENABLED");
    assert!(r.osd_enabled);
    assert_eq!(r.osd_subtitle, "DNS filtering is active");
    let r = toggle_report(false);
    assert_eq!(r.line, "Protection: DISABLED");
    assert!(!r.osd_enabled);
    assert_eq!(r.osd_subtitle, "DNS filtering is off");
    let r = snooze_report("10m");
    assert_eq!(r.line, "Protection snoozed for 10m");
    assert!(!r.osd_enabled);
    assert_eq!(r.osd_subtitle, "Snoozed for 10m");
}

#[test]
fn toggle_line_matches_status_line() {
    for b in [true, false] {
        let s = Status { protection_enabled: b, protection_disabled_duration: 0 };
        assert_eq!(toggle_report(b).line, status_line(&s));
    }
}

#[test]
fn osd() {
    let c = osd_content(true, "DNS filtering is active");
    assert_eq!(c.title, "Protection On");
    assert_eq!(c.svg, shield_on_svg());
    assert_eq!(c.subtitle, Some("DNS filtering is active".to_string()));
    let c = osd_content(false, "");
    assert_eq!(c.title, "Protection Off");
    assert_eq!(c.svg, shield_off_svg());
    assert_eq!(c.subtitle, None);
}

#[test]
fn icons() {
    assert!(shield_on_svg().starts_with("<svg"));
    assert!(shield_on_svg().contains("#4ade80"));
    assert!(shield_off_svg().contains("#64748b"));
    assert_ne!(shield_on_svg(), shield_off_svg());
}

#[test]
fn pixels_become_argb() {
    assert_eq!(rgba_to_argb(&[1, 2, 3, 4, 5, 6, 7, 8]), vec![4, 1, 2, 3, 8, 5, 6, 7]);
    assert_eq!(rgba_to_argb(&[1, 2, 3, 4, 9, 9]), vec![4, 1, 2, 3]);
    assert_eq!(rgba_to_argb(&[]), Vec::<u8>::new());
}

fn labels(t: &AdGuardTray) -> Vec<(String, Option<TrayAction>)> {
    t.menu()
        .into_iter()
        .map(|e| match e {
            MenuEntry::Standard { label, action } => (label, Some(action)),
            MenuEntry::Separator => (String::new(), None),
        })
        .collect()
}

#[test]
fn menu_follows_state() {
    let t = AdGuardTray::new(true, "icons".to_string());
    let m = labels(&t);
    assert_eq!(m.len(), 10);
    assert_eq!(m[0], ("Disable Protection".to_string(), Some(TrayAction::Toggle)));
    assert_eq!(m[1].1, None);
    assert_eq!(m[2], ("Snooze 1 minute".to_string(), Some(TrayAction::Snooze(60_000))));
    assert_eq!(m[3], ("Snooze 10 minutes".to_string(), Some(TrayAction::Snooze(600_000))));
    assert_eq!(m[4], ("Snooze 1 hour".to_string(), Some(TrayAction::Snooze(3_600_000))));
    assert_eq!(m[5], ("Snooze 8 hours".to_string(), Some(TrayAction::Snooze(28_800_000))));
    assert_eq!(m[6].1, None);
    assert_eq!(m[7], ("Open Web UI".to_string(), Some(TrayAction::OpenWebUi)));
    assert_eq!(m[8].1, None);
    assert_eq!(m[9], ("Quit".to_string(), Some(TrayAction::Quit)));
    let u = AdGuardTray::new(false, "icons".to_string());
    assert_eq!(labels(&u)[0].0, "Enable Protection");
}

#[test]
fn tray_texts() {
    let t = AdGuardTray::new(true, "/usr/share/x".to_string());
    assert_eq!(t.id(), "adguard-home-toggle");
    assert_eq!(t.title(), "AdGuard Home");
    assert_eq!(t.icon_theme_path(), "/usr/share/x");
    assert_eq!(t.icon_name(), "adguard-shield-on");
    assert_eq!(t.tool_tip(), "Protection: ON");
    let u = AdGuardTray::new(false, String::new());
    assert_eq!(u.icon_name(), "adguard-shield-off");
    assert_eq!(u.tool_tip(), "Protection: OFF");
}

#[test]
fn toggle_outcomes() {
    let mut t = AdGuardTray::new(true, "icons".to_string());
    let target = t.toggle_target();
    assert!(!target);
    assert!(t.apply_toggle(target, false).is_none());
    assert!(t.protected);
    let n = t.apply_toggle(target, true).unwrap();
    assert!(!t.protected);
    assert_eq!(n.summary, "AdGuard Protection Disabled");
    assert_eq!(n.body, "DNS filtering is off");
    assert_eq!(n.icon, "adguard-shield-off");
    assert_eq!(n.timeout_ms, 3000);
    let back = t.toggle_target();
    let n = t.apply_toggle(back, true).unwrap();
    assert!(t.protected);
    assert_eq!(n.summary, "AdGuard Protection Enabled");
    assert_eq!(n.body, "DNS filtering is active");
    assert_eq!(n.icon, "adguard-shield-on");
}

#[test]
fn snooze_outcomes() {
    let mut t = AdGuardTray::new(true, "icons".to_string());
    assert!(t.snooze_handler(600_000, false).is_none());
    assert!(t.protected);
    let n = t.snooze_handler(600_000, true).unwrap();
    assert!(!t.protected);
    assert_eq!(n.summary, "AdGuard Protection Snoozed");
    assert_eq!(n.body, "Disabled for 10m");
    assert_eq!(n.icon, "adguard-shield-off");
    let n = t.snooze_handler(28_800_000, true).unwrap();
    assert_eq!(n.body, "Disabled for 8h");
}

#[test]
fn notifications() {
    let n = notify_status(false, Some("1m"));
    assert_eq!(n.summary, "AdGuard Protection Snoozed");
    assert_eq!(n.body, "Disabled for 1m");
    let n = notify_status(true, Some("1m"));
    assert_eq!(n.summary, "AdGuard Protection Enabled");
    assert_eq!(n.body, "DNS filtering is active");
}

#[test]
fn polling() {
    let mut t = AdGuardTray::new(true, "icons".to_string());
    assert!(!t.poll(None));
    assert!(t.protected);
    assert!(!t.poll(Some(true)));
    assert!(t.poll(Some(false)));
    assert!(!t.protected);
    assert!(!t.poll(Some(false)));
}

#[test]
fn icon_directory_choice() {
    let c = icon_dir_candidates_from(
        Some(b"/home/u/.local/share".to_vec()),
        Some(b"/opt/app".to_vec()),
    );
    assert_eq!(
        c,
        vec![
            b"/home/u/.local/share/adguard-home-toggle/icons".to_vec(),
            b"/opt/app/icons".to_vec(),
            b"icons".to_vec()
        ]
    );
    let c = icon_dir_candidates_from(None, None);
    assert_eq!(c, vec![b"icons".to_vec()]);
    let c = icon_dir_candidates(Some(b"/opt/\xfeapp".to_vec()));
    assert!(c.len() >= 2);
    assert_eq!(c[c.len() - 2], b"/opt/\xfeapp/icons".to_vec());
    assert_eq!(c[c.len() - 1], b"icons".to_vec());
    assert_eq!(
        icon_probe_path(b"/opt/app/icons"),
        b"/opt/app/icons/hicolor/scalable/apps/adguard-shield-on.svg".to_vec()
    );
    let cands = vec![b"a".to_vec(), b"b".to_vec(), b"c".to_vec()];
    assert_eq!(find_icon_dir(&cands, &vec![false, true, true]), b"b".to_vec());
    assert_eq!(find_icon_dir(&cands, &vec![false, false, false]), b"icons".to_vec());
    assert_eq!(find_icon_dir(&cands, &vec![true, false, false]), b"a".to_vec());
}

#[test]
fn tray_has_builtin_shield() {
    let on = AdGuardTray::new(true, String::new());
    assert_eq!(on.icon_svg(), shield_on_svg());
    let off = AdGuardTray::new(false, String::new());
    assert_eq!(off.icon_svg(), shield_off_svg());
    assert_eq!(osd_content(true, "").svg, on.icon_svg());
    assert_eq!(osd_content(false, "").svg, off.icon_svg());
}

#[test]
fn toggle_asks_for_the_opposite() {
    let on = Status { protection_enabled: true, protection_disabled_duration: 0 };
    assert!(!toggled_state(&on));
    let off = Status { protection_enabled: false, protection_disabled_duration: 60_000 };
    assert!(toggled_state(&off));
}
