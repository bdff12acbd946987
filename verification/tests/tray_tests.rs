use mouse_jiggler_neo::ids::{IDM_TRAY_EXIT, IDM_TRAY_OPEN, IDM_TRAY_START, IDM_TRAY_STOP};
use mouse_jiggler_neo::tray::{
    classify_tray_event, context_menu, menu_label, tip_units, MenuEntry, ShellRequest, Tray,
    TrayEvent,
};
use mouse_jiggler_neo::util::to_wide;

#[test]
fn tray_events() {
    assert_eq!(classify_tray_event(0x0203), TrayEvent::Restore);
    assert_eq!(classify_tray_event(0x0205), TrayEvent::ContextMenu);
    assert_eq!(classify_tray_event(0x7_0205), TrayEvent::ContextMenu);
    assert_eq!(classify_tray_event(0x0200), TrayEvent::Other);
    assert_eq!(classify_tray_event(-1), TrayEvent::Other);
}

#[test]
fn menu_depends_on_jiggling() {
    let m = context_menu(false);
    assert_eq!(
        m,
        vec![
            MenuEntry::Item(IDM_TRAY_OPEN),
            MenuEntry::Separator,
            MenuEntry::Item(IDM_TRAY_START),
            MenuEntry::Separator,
            MenuEntry::Item(IDM_TRAY_EXIT),
        ]
    );
    assert_eq!(context_menu(true)[2], MenuEntry::Item(IDM_TRAY_STOP));
    assert_eq!(menu_label(IDM_TRAY_STOP), "S&top Jiggling");
    assert_eq!(menu_label(IDM_TRAY_OPEN), "&Open Mouse Jiggler Neo");
    assert_eq!(menu_label(1), "");
}

#[test]
fn tip_is_truncated_to_buffer() {
    assert_eq!(tip_units("ab"), vec![0x61, 0x62, 0]);
    let long = "x".repeat(300);
    let t = tip_units(&long);
    assert_eq!(t.len(), 128);
    assert_eq!(t[127], 0);
    assert_eq!(t[126], 0x78);
}

#[test]
fn registration_bookkeeping() {
    let mut t = Tray::new();
    assert_eq!(t.update_tip(), None);
    assert_eq!(t.remove(), None);
    assert_eq!(t.ensure_added(), ShellRequest::Add);
    assert!(!t.record(ShellRequest::Add, false));
    assert!(!t.registered);
    assert!(t.record(ShellRequest::Add, true));
    assert!(t.registered);
    assert_eq!(t.ensure_added(), ShellRequest::Modify);
    assert_eq!(t.update_tip(), Some(ShellRequest::Modify));
    assert!(!t.record(ShellRequest::Modify, false));
    assert!(!t.registered);
    t.record(ShellRequest::Add, true);
    assert_eq!(t.remove(), Some(ShellRequest::Delete));
    assert!(!t.registered);
    assert!(!t.record(ShellRequest::Delete, false));
    assert!(!t.registered);
}

#[test]
fn wide_strings() {
    assert_eq!(to_wide(""), vec![0]);
    assert_eq!(to_wide("Hi"), vec![0x48, 0x69, 0]);
    assert_eq!(to_wide("\u{394}\u{1F600}"), vec![0x394, 0xD83D, 0xDE00, 0]);
    let s = "Mouse Jiggler \u{394} \u{1F600}";
    let mut expected: Vec<u16> = s.encode_utf16().collect();
    expected.push(0);
    assert_eq!(to_wide(s), expected);
}
