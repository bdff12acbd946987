use mouse_jiggler_neo::ids::{IDC_CMB_MODE, IDC_JIGGLING, IDC_NUD_PERIOD, IDM_TRAY_EXIT, IDM_TRAY_START};
use mouse_jiggler_neo::jiggle::Mode;
use mouse_jiggler_neo::settings::Settings;
use mouse_jiggler_neo::tray::ShellRequest;
use mouse_jiggler_neo::ui_main::{
    classify_command, interval_ms, mode_index, period_display, reached, tray_command, Actions,
    AppState, Control, ControlChange, TickOutcome, TimerAction, TrayCommand, CBN_SELCHANGE,
    EN_CHANGE,
};

fn state(settings: Settings) -> AppState {
    AppState::new(settings, settings, 1, false, false, false)
}

fn jiggle(o: TickOutcome) -> mouse_jiggler_neo::ui_main::Tick {
    match o {
        TickOutcome::Jiggle(t) => t,
        _ => panic!("expected a jiggle"),
    }
}

#[test]
fn tooltip_not_jiggling() {
    let s = state(Settings::default());
    assert_eq!(s.tooltip_text(), "Not jiggling the mouse.");
}

#[test]
fn tooltip_jiggling() {
    let mut s = state(Settings { mode: Mode::Circle, distance: 7, ..Settings::default() });
    s.set_jiggling(true, None, 600);
    assert_eq!(s.tooltip_text(), "Jiggling mouse every 60 s, mode: Circle (\u{394} 7).");
}

#[test]
fn tooltip_is_shortened_to_63_chars() {
    let mut s = state(Settings { period_secs: 10800, distance: 120, random_timer: true, ..Settings::default() });
    s.set_jiggling(true, None, 600);
    let t = s.tooltip_text();
    assert_eq!(t, "Jiggling mouse every 10800 s, with random variation, mode: N...");
    assert_eq!(t.chars().count(), 63);
}

#[test]
fn timer_intervals() {
    assert_eq!(interval_ms(0), 1);
    assert_eq!(interval_ms(60), 60_000);
    assert_eq!(interval_ms(10800), 10_800_000);
    assert_eq!(interval_ms(5_000_000), u32::MAX);
}

#[test]
fn set_jiggling_starts_and_stops_timer() {
    let mut s = state(Settings { period_secs: 30, ..Settings::default() });
    assert_eq!(s.set_jiggling(true, Some((1, 2)), 100), TimerAction::Start(30_000));
    assert!(s.jiggling());
    assert_eq!(s.last_minute(), Some(100));
    assert_eq!(s.set_jiggling(false, None, 101), TimerAction::Stop);
    assert!(!s.jiggling());
    assert_eq!(s.step(), 0);
}

#[test]
fn ticks_walk_the_pattern_and_pause_on_movement() {
    let mut s = state(Settings { mode: Mode::Normal, distance: 2, period_secs: 5, ..Settings::default() });
    s.set_jiggling(true, None, 600);
    let t = jiggle(s.on_jiggle_tick(Some((100, 100)), 600));
    assert_eq!((t.dx, t.dy), (8, 8));
    assert_eq!(t.next_ms, 5000);
    assert_eq!(t.shown_secs, None);
    s.record_cursor_after_jiggle(Some((108, 108)));
    let t = jiggle(s.on_jiggle_tick(Some((108, 108)), 600));
    assert_eq!((t.dx, t.dy), (-8, -8));
    assert_eq!(s.step(), 0);
    // the user moved the mouse: tick skipped, pattern position kept
    assert_eq!(s.on_jiggle_tick(Some((300, 40)), 601), TickOutcome::Paused);
    assert_eq!(s.step(), 0);
    let t = jiggle(s.on_jiggle_tick(Some((300, 40)), 601));
    assert_eq!((t.dx, t.dy), (8, 8));
}

#[test]
fn random_ticks_draw_within_period() {
    let mut s = state(Settings { random_timer: true, period_secs: 60, ..Settings::default() });
    s.set_jiggling(true, None, 0);
    let t = jiggle(s.on_jiggle_tick(None, 0));
    assert_eq!(t.shown_secs, Some(29));
    assert_eq!(t.next_ms, 29_000);
    for _ in 0..50 {
        let t = jiggle(s.on_jiggle_tick(None, 0));
        let v = t.shown_secs.unwrap();
        assert!((1..=60).contains(&v));
        assert_eq!(t.next_ms, v * 1000);
    }
}

#[test]
fn auto_stop_stops_jiggling_at_the_configured_minute() {
    let settings = Settings { auto_stop_enabled: true, auto_stop_minutes_local: 17 * 60, ..Settings::default() };
    let mut s = state(settings);
    s.set_jiggling(true, None, 16 * 60 + 58);
    assert!(matches!(s.on_jiggle_tick(None, 16 * 60 + 59), TickOutcome::Jiggle(_)));
    let stop = s.on_jiggle_tick(None, 17 * 60);
    assert_eq!(
        stop,
        TickOutcome::AutoStop(Actions {
            jiggling_check: Some(false),
            timer: TimerAction::Stop,
            ..Actions::none()
        })
    );
    assert!(!s.jiggling());
    assert_eq!(s.tooltip_text(), "Not jiggling the mouse.");
}

#[test]
fn auto_stop_catches_a_minute_skipped_between_ticks() {
    let settings = Settings { auto_stop_enabled: true, auto_stop_minutes_local: 17 * 60, ..Settings::default() };
    let mut s = state(settings);
    s.set_jiggling(true, None, 16 * 60 + 55);
    assert!(matches!(s.on_jiggle_tick(None, 17 * 60 + 5), TickOutcome::AutoStop(_)));
}

#[test]
fn auto_stop_disabled_or_not_yet_due_keeps_jiggling() {
    let mut s = state(Settings { auto_stop_minutes_local: 17 * 60, ..Settings::default() });
    s.set_jiggling(true, None, 16 * 60 + 59);
    assert!(matches!(s.on_jiggle_tick(None, 17 * 60), TickOutcome::Jiggle(_)));
    let mut s = state(Settings { auto_stop_enabled: true, auto_stop_minutes_local: 17 * 60, ..Settings::default() });
    // started after the stop time: runs on until the next day's stop time
    s.set_jiggling(true, None, 18 * 60);
    assert!(matches!(s.on_jiggle_tick(None, 23 * 60 + 59), TickOutcome::Jiggle(_)));
    assert!(matches!(s.on_jiggle_tick(None, 3), TickOutcome::Jiggle(_)));
    assert!(matches!(s.on_jiggle_tick(None, 17 * 60 + 1), TickOutcome::AutoStop(_)));
}

#[test]
fn minute_reached_cases() {
    assert!(reached(Some(1439), 0, 0));
    assert!(reached(Some(1430), 5, 1439));
    assert!(!reached(Some(1430), 5, 6));
    assert!(!reached(Some(5), 5, 5));
    assert!(reached(None, 5, 5));
    assert!(!reached(None, 5, 4));
}

#[test]
fn control_changes_persist_stored_settings_only() {
    // the stored mode is Normal, the command line ran this session in Zen
    let stored = Settings::default();
    let effective = Settings { mode: Mode::Zen, period_secs: 30, ..stored };
    let mut s = AppState::new(effective, stored, 1, false, false, false);
    let r = s.apply_control(ControlChange::Distance(500), None, 0);
    assert_eq!(s.settings().distance, 120);
    assert_eq!(s.settings().mode, Mode::Zen);
    let persisted = r.persist.unwrap();
    assert_eq!(persisted.distance, 120);
    assert_eq!(persisted.mode, Mode::Normal);
    assert_eq!(persisted.period_secs, 60);

    let r = s.apply_control(ControlChange::Period(0), None, 0);
    assert_eq!(r.period_display, Some(1));
    assert_eq!(r.timer, TimerAction::Keep);
    assert_eq!(r.persist.unwrap().period_secs, 1);
    assert_eq!(r.persist.unwrap().mode, Mode::Normal);
}

#[test]
fn control_changes() {
    let mut s = state(Settings::default());
    s.set_jiggling(true, None, 0);
    s.on_jiggle_tick(None, 0);
    assert_eq!(s.step(), 1);
    let r = s.apply_control(ControlChange::Mode(2), None, 0);
    assert_eq!(r.persist.unwrap().mode, Mode::Circle);
    assert_eq!(s.settings().mode, Mode::Circle);
    assert_eq!(s.step(), 0);
    assert_eq!(s.apply_control(ControlChange::Mode(4), None, 0), Actions::none());
    let r = s.apply_control(ControlChange::Period(99999), None, 0);
    assert_eq!(r.timer, TimerAction::Restart(10_800_000));
    assert_eq!(s.settings().period_secs, 10800);
    s.apply_control(ControlChange::Period(45), None, 0);
    assert_eq!(s.settings().period_secs, 45);
    s.apply_control(ControlChange::Distance(0), None, 0);
    assert_eq!(s.settings().distance, 1);
    s.apply_control(ControlChange::Random(true), None, 0);
    assert!(s.settings().random_timer);
    let r = s.apply_control(ControlChange::MinimizeOnStartup(true), None, 0);
    assert!(r.persist.unwrap().minimize_on_startup);
    assert_eq!(s.timer_interval_ms(), 45_000);
    assert_eq!(s.apply_control(ControlChange::About, None, 0).show_about, true);
    let r = s.apply_control(ControlChange::SettingsPanel(true), None, 0);
    assert_eq!(r.settings_panel, Some(true));
    assert!(s.settings_panel_visible());
}

#[test]
fn tray_and_window_steps() {
    let mut s = state(Settings::default());
    let r = s.apply_control(ControlChange::Trayify, None, 0);
    assert_eq!(r.tray, Some(ShellRequest::Add));
    assert_eq!(r.window_visible, Some(false));
    s.record_tray(ShellRequest::Add, true);
    let r = s.on_tray_command(TrayCommand::Start, None, 0);
    assert_eq!(r.jiggling_check, Some(true));
    assert_eq!(r.timer, TimerAction::Start(60_000));
    assert_eq!(r.tray, Some(ShellRequest::Modify));
    assert!(s.jiggling());
    let r = s.on_tray_command(TrayCommand::Open, None, 0);
    assert_eq!(r.tray, Some(ShellRequest::Delete));
    assert_eq!(r.window_visible, Some(true));
    assert!(!s.tray_registered());
    assert!(s.on_tray_command(TrayCommand::Exit, None, 0).post_close);
    let r = s.on_close();
    assert!(r.destroy_window);
    assert_eq!(r.timer, TimerAction::Stop);
    assert_eq!(r.tray, None);
}

#[test]
fn start_up_flags_take_effect() {
    let mut s = AppState::new(Settings::default(), Settings::default(), 1, true, true, true);
    let r = s.on_init(Some((5, 5)), 0);
    assert!(s.jiggling());
    assert!(s.settings_panel_visible());
    assert_eq!(r.settings_panel, Some(true));
    assert_eq!(r.timer, TimerAction::Start(60_000));
    assert_eq!(s.last_minute(), Some(0));
    assert_eq!(r.tray, Some(ShellRequest::Add));
    assert_eq!(r.window_visible, Some(false));
    let mut s = state(Settings::default());
    assert_eq!(s.on_init(None, 0), Actions { settings_panel: Some(false), ..Actions::none() });
    assert!(!s.jiggling());
    assert!(!s.settings_panel_visible());
}

#[test]
fn period_label() {
    assert_eq!(period_display(0), "0 s");
    assert_eq!(period_display(10800), "10800 s");
}

#[test]
fn mode_positions() {
    assert_eq!(mode_index(Mode::Normal), 0);
    assert_eq!(mode_index(Mode::Linear), 3);
}

#[test]
fn command_decoding() {
    let w = |id: i32, notify: u32| ((notify as usize) << 16) | (id as usize);
    assert_eq!(classify_command(w(IDC_JIGGLING, 0), false), Some(Control::JigglingClicked));
    assert_eq!(classify_command(w(IDC_CMB_MODE, CBN_SELCHANGE), false), Some(Control::ModeChanged));
    assert_eq!(classify_command(w(IDC_CMB_MODE, CBN_SELCHANGE), true), None);
    assert_eq!(classify_command(w(IDC_NUD_PERIOD, EN_CHANGE), false), Some(Control::PeriodChanged));
    assert_eq!(classify_command(w(IDC_NUD_PERIOD, 0), false), None);
    assert_eq!(classify_command(w(IDC_JIGGLING, 0), true), Some(Control::JigglingClicked));
    assert_eq!(classify_command(w(9999, 0), false), None);
}

#[test]
fn tray_commands() {
    assert_eq!(tray_command(IDM_TRAY_START), Some(TrayCommand::Start));
    assert_eq!(tray_command(IDM_TRAY_EXIT), Some(TrayCommand::Exit));
    assert_eq!(tray_command(0), None);
}

#[test]
fn cursor_recorded_after_a_jiggle_is_the_new_reference() {
    let mut s = state(Settings::default());
    s.set_jiggling(true, Some((0, 0)), 0);
    assert!(matches!(s.on_jiggle_tick(Some((0, 0)), 0), TickOutcome::Jiggle(_)));
    // the jiggle itself moved the cursor by (4, 4)
    s.record_cursor_after_jiggle(Some((4, 4)));
    assert!(matches!(s.on_jiggle_tick(Some((4, 4)), 0), TickOutcome::Jiggle(_)));
    // without recording, the jiggle's own movement would count as the user's
    assert_eq!(s.on_jiggle_tick(Some((0, 0)), 0), TickOutcome::Paused);
    s.record_cursor_after_jiggle(None);
    assert!(matches!(s.on_jiggle_tick(Some((0, 0)), 0), TickOutcome::Jiggle(_)));
}

#[test]
fn initializing_flag() {
    let mut s = state(Settings::default());
    assert!(!s.initializing());
    s.set_initializing(true);
    assert!(s.initializing());
    assert_eq!(s.stored(), Settings::default());
}
