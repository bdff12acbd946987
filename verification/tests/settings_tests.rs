use mouse_jiggler_neo::ids::{DISTANCE_MIN, PERIOD_MAX};
use mouse_jiggler_neo::jiggle::Mode;
use mouse_jiggler_neo::settings::{
    load_from_paths, read_settings_file, ConfigFile, SavePlan, SaveTarget, Settings,
    AUTO_STOP_DEFAULT_MINUTES_LOCAL,
};

fn sample_settings() -> Settings {
    Settings {
        minimize_on_startup: true,
        random_timer: true,
        mode: Mode::Circle,
        period_secs: 42,
        distance: 7,
        auto_stop_enabled: true,
        auto_stop_minutes_local: 23 * 60 + 15,
    }
}

#[test]
fn load_clamps_out_of_range_values() {
    let raw = Settings {
        minimize_on_startup: true,
        random_timer: false,
        mode: Mode::Linear,
        period_secs: 999999,
        distance: 0,
        auto_stop_enabled: true,
        auto_stop_minutes_local: 9999,
    };
    let loaded = load_from_paths(Some(ConfigFile::Parsed(raw)), None);

    assert_eq!(loaded.period_secs, PERIOD_MAX);
    assert_eq!(loaded.distance, DISTANCE_MIN);
    assert_eq!(loaded.auto_stop_minutes_local, AUTO_STOP_DEFAULT_MINUTES_LOCAL);
}

#[test]
fn primary_path_takes_precedence_over_fallback() {
    let mut primary_settings = sample_settings();
    primary_settings.mode = Mode::Normal;
    let mut fallback_settings = sample_settings();
    fallback_settings.mode = Mode::Zen;

    let loaded = load_from_paths(
        Some(ConfigFile::Parsed(primary_settings)),
        Some(ConfigFile::Parsed(fallback_settings)),
    );
    assert_eq!(loaded, primary_settings);
}

#[test]
fn fallback_is_used_when_primary_is_absent() {
    let settings = sample_settings();
    let loaded = load_from_paths(None, Some(ConfigFile::Parsed(settings)));
    assert_eq!(loaded, settings);
}

#[test]
fn defaults_are_used_when_no_config_exists() {
    let loaded = load_from_paths(Some(ConfigFile::Missing), Some(ConfigFile::Missing));
    assert_eq!(loaded, Settings::default());
}

#[test]
fn save_prefers_primary_when_it_is_writable() {
    let settings = sample_settings();
    let plan = SavePlan::new(&settings, true, true);

    assert_eq!(plan.next_target(None), Some(SaveTarget::Primary));
    assert_eq!(plan.next_target(Some((SaveTarget::Primary, true))), None);
    let loaded = load_from_paths(Some(ConfigFile::Parsed(plan.contents)), Some(ConfigFile::Missing));
    assert_eq!(loaded, settings);
}

#[test]
fn save_falls_back_when_primary_write_fails() {
    let settings = sample_settings();
    let plan = SavePlan::new(&settings, true, true);

    assert_eq!(plan.next_target(Some((SaveTarget::Primary, false))), Some(SaveTarget::Fallback));
    assert_eq!(plan.next_target(Some((SaveTarget::Fallback, true))), None);
    let loaded = load_from_paths(None, Some(ConfigFile::Parsed(plan.contents)));
    assert_eq!(loaded, settings);
}

#[test]
fn save_without_primary_writes_fallback_and_without_paths_writes_nothing() {
    let settings = sample_settings();
    assert_eq!(SavePlan::new(&settings, false, true).next_target(None), Some(SaveTarget::Fallback));
    assert_eq!(SavePlan::new(&settings, false, false).next_target(None), None);
    assert_eq!(SavePlan::new(&settings, true, false).next_target(Some((SaveTarget::Primary, false))), None);
    assert_eq!(SavePlan::new(&settings, false, true).next_target(Some((SaveTarget::Fallback, false))), None);
}

#[test]
fn save_sanitises_what_it_writes() {
    let mut settings = sample_settings();
    settings.period_secs = 0;
    settings.distance = 500;
    settings.auto_stop_minutes_local = 24 * 60;
    let plan = SavePlan::new(&settings, true, false);
    assert_eq!(plan.contents.period_secs, 1);
    assert_eq!(plan.contents.distance, 120);
    assert_eq!(plan.contents.auto_stop_minutes_local, 17 * 60);
    assert!(plan.contents.is_valid());
    assert!(!settings.is_valid());
}

#[test]
fn unreadable_file_gives_defaults_and_blocks_fallback() {
    let loaded = load_from_paths(Some(ConfigFile::Unreadable), Some(ConfigFile::Parsed(sample_settings())));
    assert_eq!(loaded, Settings::default());
    let loaded = load_from_paths(Some(ConfigFile::Missing), Some(ConfigFile::Unreadable));
    assert_eq!(loaded, Settings::default());
}

#[test]
fn read_settings_file_sanitises_parsed_contents() {
    let mut raw = sample_settings();
    raw.period_secs = 20000;
    let read = read_settings_file(&ConfigFile::Parsed(raw)).unwrap();
    assert_eq!(read.period_secs, 10800);
    assert_eq!(read_settings_file(&ConfigFile::Unreadable), None);
    assert_eq!(read_settings_file(&ConfigFile::Missing), None);
}

#[test]
fn default_settings_values() {
    let d = Settings::default();
    assert!(!d.minimize_on_startup);
    assert!(!d.random_timer);
    assert_eq!(d.mode, Mode::Normal);
    assert_eq!(d.period_secs, 60);
    assert_eq!(d.distance, 1);
    assert!(!d.auto_stop_enabled);
    assert_eq!(d.auto_stop_minutes_local, 1020);
    assert!(d.is_valid());
}

#[test]
fn auto_stop_just_before_midnight_is_kept() {
    let mut raw = sample_settings();
    raw.auto_stop_minutes_local = 1439;
    let loaded = load_from_paths(Some(ConfigFile::Parsed(raw)), None);
    assert_eq!(loaded.auto_stop_minutes_local, 1439);
    raw.auto_stop_minutes_local = 1440;
    let loaded = load_from_paths(Some(ConfigFile::Parsed(raw)), None);
    assert_eq!(loaded.auto_stop_minutes_local, 1020);
}
