//! The effective start-up state: stored settings with command-line
//! overrides applied for this run only.
use vstd::prelude::*;

use crate::cli::{args_in_range, Args};
use crate::settings::{settings_valid, Settings};

verus! {

pub struct Effective {
    pub settings: Settings,
    pub minimize: bool,
}

/// The stored settings with each option given on the command line put in
/// place of the stored value.
pub open spec fn overridden(args: Args, stored: Settings) -> Settings {
    Settings {
        mode: match args.mode {
            Some(m) => m,
            None => stored.mode,
        },
        period_secs: match args.seconds {
            Some(p) => p,
            None => stored.period_secs,
        },
        distance: match args.distance {
            Some(d) => d,
            None => stored.distance,
        },
        random_timer: match args.random {
            Some(r) => r,
            None => stored.random_timer,
        },
        ..stored
    }
}

/// Merge stored settings with explicit CLI overrides. Start minimized when
/// asked to on the command line, else as the stored settings say.
pub fn resolve_initial(args: &Args, stored: Settings) -> (r: Effective)
    ensures
        r.settings == overridden(*args, stored),
        r.minimize == match args.minimized {
            Some(m) => m,
            None => stored.minimize_on_startup,
        },
{
    let mut s = stored;
    if let Some(m) = args.mode {
        s.mode = m;
    }
    if let Some(p) = args.seconds {
        s.period_secs = p;
    }
    if let Some(d) = args.distance {
        s.distance = d;
    }
    if let Some(r) = args.random {
        s.random_timer = r;
    }
    let minimize = match args.minimized {
        Some(m) => m,
        None => s.minimize_on_startup,
    };
    Effective { settings: s, minimize }
}

/// Valid stored settings stay valid under options that passed the parser's
/// range checks.
pub proof fn lemma_overrides_keep_valid(args: Args, stored: Settings)
    requires
        settings_valid(stored),
        args_in_range(args),
    ensures
        settings_valid(overridden(args, stored)),
{
}

/// Without command-line options the stored settings are used as they are;
/// whatever the options, the stored start-minimized preference and the
/// auto-stop values are kept (`--minimized` decides this run only).
pub proof fn lemma_overrides_keep_stored(args: Args, stored: Settings)
    ensures
        overridden(crate::cli::default_args(), stored) == stored,
        overridden(args, stored).minimize_on_startup == stored.minimize_on_startup,
        overridden(args, stored).auto_stop_enabled == stored.auto_stop_enabled,
        overridden(args, stored).auto_stop_minutes_local == stored.auto_stop_minutes_local,
{
}

/// Each option given on the command line decides its value for this run;
/// each option left out keeps the stored value.
pub proof fn lemma_given_options_win(args: Args, stored: Settings)
    ensures
        args.mode matches Some(m) ==> overridden(args, stored).mode == m,
        args.mode is None ==> overridden(args, stored).mode == stored.mode,
        args.seconds matches Some(p) ==> overridden(args, stored).period_secs == p,
        args.seconds is None ==> overridden(args, stored).period_secs == stored.period_secs,
        args.distance matches Some(d) ==> overridden(args, stored).distance == d,
        args.distance is None ==> overridden(args, stored).distance == stored.distance,
        args.random matches Some(r) ==> overridden(args, stored).random_timer == r,
        args.random is None ==> overridden(args, stored).random_timer == stored.random_timer,
{
}

} // verus!
