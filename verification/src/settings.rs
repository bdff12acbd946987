//! Settings: defaults, sanitising, and the decisions behind loading from and
//! saving to the primary and fallback configuration files.
//!
//! Reading and writing the files, and JSON (de)serialisation, happen in the
//! application; it reports here what it found at each path and carries out
//! the writes this module plans.
use vstd::prelude::*;

use crate::ids::{
    DISTANCE_DEFAULT, DISTANCE_MAX, DISTANCE_MIN, PERIOD_DEFAULT, PERIOD_MAX, PERIOD_MIN,
};
use crate::jiggle::Mode;

verus! {

pub const AUTO_STOP_DEFAULT_MINUTES_LOCAL: u16 = 17 * 60;

/// Minutes in a day: auto-stop times are minutes after local midnight.
pub const MINUTES_PER_DAY: u32 = 24 * 60;

/// The seven persisted values.
#[derive(Copy, Clone, Debug, PartialEq, Eq, Structural)]
pub struct Settings {
    pub minimize_on_startup: bool,
    pub random_timer: bool,
    pub mode: Mode,
    pub period_secs: u32,
    pub distance: u32,
    pub auto_stop_enabled: bool,
    pub auto_stop_minutes_local: u16,
}

pub open spec fn default_settings() -> Settings {
    Settings {
        minimize_on_startup: false,
        random_timer: false,
        mode: Mode::Normal,
        period_secs: PERIOD_DEFAULT,
        distance: DISTANCE_DEFAULT,
        auto_stop_enabled: false,
        auto_stop_minutes_local: AUTO_STOP_DEFAULT_MINUTES_LOCAL,
    }
}

impl Default for Settings {
    fn default() -> (r: Settings)
        ensures
            r == default_settings(),
    {
        Settings {
            minimize_on_startup: false,
            random_timer: false,
            mode: Mode::Normal,
            period_secs: PERIOD_DEFAULT,
            distance: DISTANCE_DEFAULT,
            auto_stop_enabled: false,
            auto_stop_minutes_local: AUTO_STOP_DEFAULT_MINUTES_LOCAL,
        }
    }
}

/// Every value lies in its accepted range: period 1..=10800 seconds,
/// distance 1..=120, auto-stop time before midnight.
pub open spec fn settings_valid(s: Settings) -> bool {
    &&& PERIOD_MIN <= s.period_secs <= PERIOD_MAX
    &&& DISTANCE_MIN <= s.distance <= DISTANCE_MAX
    &&& s.auto_stop_minutes_local < MINUTES_PER_DAY
}

pub open spec fn clamp_spec(v: u32, lo: u32, hi: u32) -> u32 {
    if v < lo {
        lo
    } else if v > hi {
        hi
    } else {
        v
    }
}

/// An auto-stop time outside the day is replaced by the default.
pub open spec fn auto_stop_minutes(value: u32) -> u16 {
    if value < MINUTES_PER_DAY {
        value as u16
    } else {
        AUTO_STOP_DEFAULT_MINUTES_LOCAL
    }
}

/// The settings with period and distance clamped into range and an
/// out-of-range auto-stop time reset to the default.
pub open spec fn sanitized(s: Settings) -> Settings {
    Settings {
        period_secs: clamp_spec(s.period_secs, PERIOD_MIN, PERIOD_MAX),
        distance: clamp_spec(s.distance, DISTANCE_MIN, DISTANCE_MAX),
        auto_stop_minutes_local: auto_stop_minutes(s.auto_stop_minutes_local as u32),
        ..s
    }
}

impl Settings {
    /// Whether every value lies in its accepted range.
    pub fn is_valid(&self) -> (r: bool)
        ensures
            r == settings_valid(*self),
    {
        PERIOD_MIN <= self.period_secs && self.period_secs <= PERIOD_MAX && DISTANCE_MIN
            <= self.distance && self.distance <= DISTANCE_MAX && (self.auto_stop_minutes_local
            as u32) < MINUTES_PER_DAY
    }
}

/// `v` restricted to `lo..=hi`, as `Ord::clamp` does.
pub fn clamp_u32(v: u32, lo: u32, hi: u32) -> (r: u32)
    requires
        lo <= hi,
    ensures
        r == clamp_spec(v, lo, hi),
{
    if v < lo {
        lo
    } else if v > hi {
        hi
    } else {
        v
    }
}

fn clamp_auto_stop_minutes(value: u32) -> (r: u16)
    ensures
        r == auto_stop_minutes(value),
{
    if value < MINUTES_PER_DAY {
        value as u16
    } else {
        AUTO_STOP_DEFAULT_MINUTES_LOCAL
    }
}

fn sanitize(settings: Settings) -> (r: Settings)
    ensures
        r == sanitized(settings),
{
    let mut settings = settings;
    settings.period_secs = clamp_u32(settings.period_secs, PERIOD_MIN, PERIOD_MAX);
    settings.distance = clamp_u32(settings.distance, DISTANCE_MIN, DISTANCE_MAX);
    settings.auto_stop_minutes_local = clamp_auto_stop_minutes(
        settings.auto_stop_minutes_local as u32,
    );
    settings
}


/// What the application found at a configuration path.
#[derive(Copy, Clone, Debug, PartialEq, Eq, Structural)]
pub enum ConfigFile {
    /// Nothing exists at the path.
    Missing,
    /// Something exists at the path but could not be read or parsed.
    Unreadable,
    /// The file parsed to these (not yet sanitised) settings.
    Parsed(Settings),
}

/// Whether something exists at the path.
pub open spec fn exists_at(f: ConfigFile) -> bool {
    !(f is Missing)
}

/// What loading an existing file yields: its sanitised settings, or the
/// defaults when it could not be read.
pub open spec fn settings_from(f: ConfigFile) -> Settings {
    match f {
        ConfigFile::Parsed(s) => sanitized(s),
        _ => default_settings(),
    }
}

/// Settings loaded from an optional primary and an optional fallback path:
/// the first path that exists decides; with neither, the defaults.
pub open spec fn loaded(primary: Option<ConfigFile>, fallback: Option<ConfigFile>) -> Settings {
    if primary matches Some(f) && exists_at(f) {
        settings_from(primary->0)
    } else if fallback matches Some(f) && exists_at(f) {
        settings_from(fallback->0)
    } else {
        default_settings()
    }
}

/// The sanitised settings held by a file, if it parsed.
pub fn read_settings_file(file: &ConfigFile) -> (r: Option<Settings>)
    ensures
        r == match *file {
            ConfigFile::Parsed(s) => Some(sanitized(s)),
            _ => None,
        },
{
    match file {
        ConfigFile::Parsed(s) => Some(sanitize(*s)),
        _ => None,
    }
}

/// Loads from the primary path if something exists there, otherwise from
/// the fallback path if something exists there, otherwise the defaults. A
/// file that exists but cannot be read or parsed gives the defaults.
pub fn load_from_paths(primary: Option<ConfigFile>, fallback: Option<ConfigFile>) -> (r: Settings)
    ensures
        r == loaded(primary, fallback),
        settings_valid(r),
{
    proof {
        lemma_default_settings_valid();
    }
    if let Some(f) = primary {
        if exists_at_exec(&f) {
            return match read_settings_file(&f) {
                Some(s) => s,
                None => Settings::default(),
            };
        }
    }
    if let Some(f) = fallback {
        if exists_at_exec(&f) {
            return match read_settings_file(&f) {
                Some(s) => s,
                None => Settings::default(),
            };
        }
    }
    Settings::default()
}

fn exists_at_exec(f: &ConfigFile) -> (r: bool)
    ensures
        r == exists_at(*f),
{
    !matches!(f, ConfigFile::Missing)
}

/// A configuration path that a save can write to.
#[derive(Copy, Clone, Debug, PartialEq, Eq, Structural)]
pub enum SaveTarget {
    Primary,
    Fallback,
}

/// A save in progress: the sanitised settings to write, and which of the
/// two paths are known.
pub struct SavePlan {
    pub contents: Settings,
    pub has_primary: bool,
    pub has_fallback: bool,
}

/// The path to try after the attempt `last` (`None` before any attempt):
/// the primary first; the fallback only when the primary is unknown or its
/// write failed; nothing after a successful write or after the fallback.
pub open spec fn next_target_spec(
    has_primary: bool,
    has_fallback: bool,
    last: Option<(SaveTarget, bool)>,
) -> Option<SaveTarget> {
    match last {
        None => if has_primary {
            Some(SaveTarget::Primary)
        } else if has_fallback {
            Some(SaveTarget::Fallback)
        } else {
            None
        },
        Some((SaveTarget::Primary, false)) => if has_fallback {
            Some(SaveTarget::Fallback)
        } else {
            None
        },
        Some(_) => None,
    }
}

impl SavePlan {
    /// Plans saving `settings`: the settings are sanitised first.
    pub fn new(settings: &Settings, has_primary: bool, has_fallback: bool) -> (r: SavePlan)
        ensures
            r.contents == sanitized(*settings),
            settings_valid(r.contents),
            r.has_primary == has_primary,
            r.has_fallback == has_fallback,
    {
        SavePlan { contents: sanitize(*settings), has_primary, has_fallback }
    }

    /// The path to write next, given the outcome of the previous write.
    pub fn next_target(&self, last: Option<(SaveTarget, bool)>) -> (r: Option<SaveTarget>)
        ensures
            r == next_target_spec(self.has_primary, self.has_fallback, last),
    {
        match last {
            None => if self.has_primary {
                Some(SaveTarget::Primary)
            } else if self.has_fallback {
                Some(SaveTarget::Fallback)
            } else {
                None
            },
            Some((SaveTarget::Primary, false)) => if self.has_fallback {
                Some(SaveTarget::Fallback)
            } else {
                None
            },
            Some(_) => None,
        }
    }
}

/// The default settings are valid.
pub proof fn lemma_default_settings_valid()
    ensures
        settings_valid(default_settings()),
{
}

/// The defaults: not minimized at start-up, no random variation, Normal
/// mode every 60 seconds at distance 1, auto-stop off with its time at
/// 17:00. They are what loading gives when no file exists, and when the
/// file that exists cannot be read.
pub proof fn lemma_default_settings_values(fallback: Option<ConfigFile>)
    ensures
        default_settings() == (Settings {
            minimize_on_startup: false,
            random_timer: false,
            mode: Mode::Normal,
            period_secs: 60,
            distance: 1,
            auto_stop_enabled: false,
            auto_stop_minutes_local: 1020,
        }),
        loaded(None, None) == default_settings(),
        loaded(Some(ConfigFile::Missing), Some(ConfigFile::Missing)) == default_settings(),
        loaded(Some(ConfigFile::Unreadable), fallback) == default_settings(),
{
}

/// Sanitising always gives valid settings.
pub proof fn lemma_sanitized_valid(s: Settings)
    ensures
        settings_valid(sanitized(s)),
{
}

/// Sanitising leaves valid settings unchanged, and so is idempotent.
pub proof fn lemma_sanitize_keeps_valid(s: Settings)
    ensures
        settings_valid(s) ==> sanitized(s) == s,
        sanitized(sanitized(s)) == sanitized(s),
{
}

/// Sanitising touches only out-of-range numbers: the mode, the start-up,
/// random-timer and auto-stop choices are kept, each number already in range
/// is kept, a period or distance out of range moves to the nearest end of
/// its range, and an auto-stop time outside the day becomes 17:00.
pub proof fn lemma_sanitize_keeps_user_choices(s: Settings)
    ensures
        sanitized(s).mode == s.mode,
        sanitized(s).minimize_on_startup == s.minimize_on_startup,
        sanitized(s).random_timer == s.random_timer,
        sanitized(s).auto_stop_enabled == s.auto_stop_enabled,
        1 <= s.period_secs <= 10800 ==> sanitized(s).period_secs == s.period_secs,
        s.period_secs < 1 ==> sanitized(s).period_secs == 1,
        s.period_secs > 10800 ==> sanitized(s).period_secs == 10800,
        1 <= s.distance <= 120 ==> sanitized(s).distance == s.distance,
        s.distance < 1 ==> sanitized(s).distance == 1,
        s.distance > 120 ==> sanitized(s).distance == 120,
        s.auto_stop_minutes_local < 1440 ==> sanitized(s).auto_stop_minutes_local
            == s.auto_stop_minutes_local,
        s.auto_stop_minutes_local >= 1440 ==> sanitized(s).auto_stop_minutes_local == 1020,
{
}

/// Loading a file that parsed keeps the user's choices from it, whatever
/// the fallback holds, with only out-of-range numbers brought into range.
pub proof fn lemma_load_keeps_user_choices(s: Settings, fallback: Option<ConfigFile>)
    ensures
        loaded(Some(ConfigFile::Parsed(s)), fallback) == sanitized(s),
        loaded(Some(ConfigFile::Parsed(s)), fallback).mode == s.mode,
        loaded(Some(ConfigFile::Parsed(s)), fallback).minimize_on_startup == s.minimize_on_startup,
        loaded(Some(ConfigFile::Parsed(s)), fallback).random_timer == s.random_timer,
        loaded(Some(ConfigFile::Parsed(s)), fallback).auto_stop_enabled == s.auto_stop_enabled,
        settings_valid(s) ==> loaded(Some(ConfigFile::Parsed(s)), fallback) == s,
{
    lemma_sanitize_keeps_user_choices(s);
}

/// Whatever the files hold, loading gives valid settings.
pub proof fn lemma_loaded_valid(primary: Option<ConfigFile>, fallback: Option<ConfigFile>)
    ensures
        settings_valid(loaded(primary, fallback)),
{
}

/// When something exists at the primary path, the fallback path plays no
/// part in loading.
pub proof fn lemma_primary_takes_precedence(
    primary: ConfigFile,
    fallback1: Option<ConfigFile>,
    fallback2: Option<ConfigFile>,
)
    requires
        exists_at(primary),
    ensures
        loaded(Some(primary), fallback1) == loaded(Some(primary), fallback2),
        loaded(Some(primary), fallback1) == settings_from(primary),
{
}

/// When nothing exists at the primary path (or there is none), loading
/// reads the fallback path exactly as if it were the only one.
pub proof fn lemma_fallback_when_primary_absent(
    primary: Option<ConfigFile>,
    fallback: Option<ConfigFile>,
)
    requires
        primary is None || primary == Some(ConfigFile::Missing),
    ensures
        loaded(primary, fallback) == loaded(fallback, None),
{
}

/// Reading back what a save wrote (`SavePlan::contents`, which is the
/// sanitised settings) gives the saved settings, sanitised;
/// settings that were already valid come back unchanged, whichever path
/// they were written to.
pub proof fn lemma_saved_settings_read_back(settings: Settings, other: Option<ConfigFile>)
    ensures
        ({
            let written = ConfigFile::Parsed(sanitized(settings));
            &&& loaded(Some(written), other) == sanitized(settings)
            &&& loaded(None, Some(written)) == sanitized(settings)
            &&& loaded(Some(ConfigFile::Missing), Some(written)) == sanitized(settings)
            &&& settings_valid(settings) ==> loaded(Some(written), other) == settings
        }),
{
}

} // verus!
