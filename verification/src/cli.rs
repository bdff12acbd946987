//! Hand-rolled CLI parser.
//!
//! Flags:
//!   -j --jiggle             Start with jiggling enabled.
//!   -m --minimized          Start minimized.
//!   -o --mode <m>           Jiggle mode: Normal | Zen | Circle | Linear.
//!   -r --random             Random timer variation.
//!   -s --seconds <n>        Jiggle interval (1..=10800).
//!   -d --distance <n>       Distance multiplier (1..=120).
//!   -g --settings           Start with settings panel displayed.
//!   -? -h --help            Show help.
//!   --version               Show version.
//!
//! The application collects the process arguments (without the program
//! name) and prints the help or version text when asked to.
use vstd::prelude::*;
use vstd::string::*;

use crate::ids::{DISTANCE_MAX, DISTANCE_MIN, PERIOD_MAX, PERIOD_MIN};
use crate::jiggle::{mode_from_name, Mode};
use crate::util::{parse_u32, parse_u32_spec, str_eq};

verus! {

/// Options given on the command line; `None` leaves the stored setting.
#[derive(Copy, Clone, Debug, PartialEq, Eq, Structural)]
pub struct Args {
    pub jiggle: bool,
    pub minimized: Option<bool>,
    pub mode: Option<Mode>,
    pub random: Option<bool>,
    pub seconds: Option<u32>,
    pub distance: Option<u32>,
    pub settings_panel: bool,
}

pub open spec fn default_args() -> Args {
    Args {
        jiggle: false,
        minimized: None,
        mode: None,
        random: None,
        seconds: None,
        distance: None,
        settings_panel: false,
    }
}

impl Default for Args {
    fn default() -> (r: Args)
        ensures
            r == default_args(),
    {
        Args {
            jiggle: false,
            minimized: None,
            mode: None,
            random: None,
            seconds: None,
            distance: None,
            settings_panel: false,
        }
    }
}

/// Which text the application prints before exiting.
#[derive(Copy, Clone, Debug, PartialEq, Eq, Structural)]
pub enum Info {
    Help,
    Version,
}

pub enum ParseOutcome {
    /// Start the application with these options.
    Run(Args),
    /// Print the given text and exit with the given code.
    PrintAndExit(Info, i32),
    /// Report this message and exit with an error.
    Error(String),
}

/// `ParseOutcome` with the error message as a character sequence.
pub enum CliOutcome {
    Run(Args),
    PrintAndExit(Info, i32),
    Error(Seq<char>),
}

impl View for ParseOutcome {
    type V = CliOutcome;

    open spec fn view(&self) -> CliOutcome {
        match self {
            ParseOutcome::Run(a) => CliOutcome::Run(*a),
            ParseOutcome::PrintAndExit(i, c) => CliOutcome::PrintAndExit(*i, *c),
            ParseOutcome::Error(m) => CliOutcome::Error(m@),
        }
    }
}

/// The number a value denotes, 0 when it is not a valid `u32`.
pub open spec fn number_or_zero(v: Seq<char>) -> u32 {
    match parse_u32_spec(v) {
        Some(n) => n,
        None => 0,
    }
}

pub open spec fn is_flag(arg: Seq<char>, short: Seq<char>, long: Seq<char>) -> bool {
    arg == short || arg == long
}

/// Parsing `raw` from position `i` on, with the options `a` gathered so far.
pub open spec fn parse_from(raw: Seq<Seq<char>>, i: nat, a: Args) -> CliOutcome
    decreases raw.len() - i,
{
    if i >= raw.len() {
        CliOutcome::Run(a)
    } else {
        let arg = raw[i as int];
        if is_flag(arg, "-j"@, "--jiggle"@) {
            parse_from(raw, i + 1, Args { jiggle: true, ..a })
        } else if is_flag(arg, "-m"@, "--minimized"@) {
            parse_from(raw, i + 1, Args { minimized: Some(true), ..a })
        } else if is_flag(arg, "-r"@, "--random"@) {
            parse_from(raw, i + 1, Args { random: Some(true), ..a })
        } else if is_flag(arg, "-g"@, "--settings"@) {
            parse_from(raw, i + 1, Args { settings_panel: true, ..a })
        } else if arg == "-?"@ || arg == "-h"@ || arg == "--help"@ {
            CliOutcome::PrintAndExit(Info::Help, 0)
        } else if arg == "--version"@ {
            CliOutcome::PrintAndExit(Info::Version, 0)
        } else if is_flag(arg, "-o"@, "--mode"@) {
            if i + 1 >= raw.len() {
                CliOutcome::Error(arg + " requires a value"@)
            } else {
                let v = raw[i + 1int];
                match mode_from_name(v) {
                    Some(m) => parse_from(raw, i + 2, Args { mode: Some(m), ..a }),
                    None => CliOutcome::Error("Invalid jiggle mode: "@ + v),
                }
            }
        } else if is_flag(arg, "-s"@, "--seconds"@) {
            if i + 1 >= raw.len() {
                CliOutcome::Error(arg + " requires a value"@)
            } else {
                let n = number_or_zero(raw[i + 1int]);
                if n < PERIOD_MIN {
                    CliOutcome::Error("Period cannot be shorter than 1 second."@)
                } else if n > PERIOD_MAX {
                    CliOutcome::Error("Period cannot be longer than 10800 seconds."@)
                } else {
                    parse_from(raw, i + 2, Args { seconds: Some(n), ..a })
                }
            }
        } else if is_flag(arg, "-d"@, "--distance"@) {
            if i + 1 >= raw.len() {
                CliOutcome::Error(arg + " requires a value"@)
            } else {
                let n = number_or_zero(raw[i + 1int]);
                if n < DISTANCE_MIN {
                    CliOutcome::Error("Distance multiplier cannot be less than 1."@)
                } else if n > DISTANCE_MAX {
                    CliOutcome::Error("Distance multiplier cannot be greater than 120."@)
                } else {
                    parse_from(raw, i + 2, Args { distance: Some(n), ..a })
                }
            }
        } else {
            CliOutcome::Error("Unknown argument: "@ + arg)
        }
    }
}

/// The arguments as character sequences.
pub open spec fn arg_views(raw: Seq<String>) -> Seq<Seq<char>> {
    raw.map_values(|s: String| s@)
}

/// Parses the command-line arguments (without the program name).
pub fn parse(raw: &Vec<String>) -> (r: ParseOutcome)
    ensures
        r@ == parse_from(arg_views(raw@), 0, default_args()),
{
    let ghost views = arg_views(raw@);
    let mut a = Args::default();
    let mut i: usize = 0;
    while i < raw.len()
        invariant
            views == arg_views(raw@),
            i <= raw.len(),
            parse_from(views, i as nat, a) == parse_from(views, 0, default_args()),
        decreases raw.len() - i,
    {
        let arg = raw[i].as_str();
        assert(views[i as int] == arg@);
        if str_eq(arg, "-j") || str_eq(arg, "--jiggle") {
            a.jiggle = true;
        } else if str_eq(arg, "-m") || str_eq(arg, "--minimized") {
            a.minimized = Some(true);
        } else if str_eq(arg, "-r") || str_eq(arg, "--random") {
            a.random = Some(true);
        } else if str_eq(arg, "-g") || str_eq(arg, "--settings") {
            a.settings_panel = true;
        } else if str_eq(arg, "-?") || str_eq(arg, "-h") || str_eq(arg, "--help") {
            return ParseOutcome::PrintAndExit(Info::Help, 0);
        } else if str_eq(arg, "--version") {
            return ParseOutcome::PrintAndExit(Info::Version, 0);
        } else if str_eq(arg, "-o") || str_eq(arg, "--mode") {
            if i + 1 >= raw.len() {
                return ParseOutcome::Error(requires_a_value(arg));
            }
            let v = raw[i + 1].as_str();
            assert(views[i + 1] == v@);
            match Mode::parse(v) {
                Some(m) => {
                    a.mode = Some(m);
                },
                None => {
                    let mut msg = String::from_str("Invalid jiggle mode: ");
                    msg.append(v);
                    return ParseOutcome::Error(msg);
                },
            }
            i += 1;
        } else if str_eq(arg, "-s") || str_eq(arg, "--seconds") {
            if i + 1 >= raw.len() {
                return ParseOutcome::Error(requires_a_value(arg));
            }
            let v = raw[i + 1].as_str();
            assert(views[i + 1] == v@);
            let n: u32 = match parse_u32(v) {
                Some(n) => n,
                None => 0,
            };
            if n < PERIOD_MIN {
                return ParseOutcome::Error(
                    String::from_str("Period cannot be shorter than 1 second."),
                );
            }
            if n > PERIOD_MAX {
                return ParseOutcome::Error(
                    String::from_str("Period cannot be longer than 10800 seconds."),
                );
            }
            a.seconds = Some(n);
            i += 1;
        } else if str_eq(arg, "-d") || str_eq(arg, "--distance") {
            if i + 1 >= raw.len() {
                return ParseOutcome::Error(requires_a_value(arg));
            }
            let v = raw[i + 1].as_str();
            assert(views[i + 1] == v@);
            let n: u32 = match parse_u32(v) {
                Some(n) => n,
                None => 0,
            };
            if n < DISTANCE_MIN {
                return ParseOutcome::Error(
                    String::from_str("Distance multiplier cannot be less than 1."),
                );
            }
            if n > DISTANCE_MAX {
                return ParseOutcome::Error(
                    String::from_str("Distance multiplier cannot be greater than 120."),
                );
            }
            a.distance = Some(n);
            i += 1;
        } else {
            let mut msg = String::from_str("Unknown argument: ");
            msg.append(arg);
            return ParseOutcome::Error(msg);
        }
        i += 1;
    }
    ParseOutcome::Run(a)
}

/// The interval and distance options, when given, lie in their accepted
/// ranges (1..=10800 seconds, 1..=120).
pub open spec fn args_in_range(a: Args) -> bool {
    &&& (a.seconds matches Some(n) ==> PERIOD_MIN <= n <= PERIOD_MAX)
    &&& (a.distance matches Some(d) ==> DISTANCE_MIN <= d <= DISTANCE_MAX)
}

proof fn lemma_parse_from_in_range(raw: Seq<Seq<char>>, i: nat, a: Args)
    requires
        args_in_range(a),
    ensures
        parse_from(raw, i, a) matches CliOutcome::Run(b) ==> args_in_range(b),
    decreases raw.len() - i,
{
    if i < raw.len() {
        let arg = raw[i as int];
        if is_flag(arg, "-j"@, "--jiggle"@) {
            lemma_parse_from_in_range(raw, i + 1, Args { jiggle: true, ..a });
        } else if is_flag(arg, "-m"@, "--minimized"@) {
            lemma_parse_from_in_range(raw, i + 1, Args { minimized: Some(true), ..a });
        } else if is_flag(arg, "-r"@, "--random"@) {
            lemma_parse_from_in_range(raw, i + 1, Args { random: Some(true), ..a });
        } else if is_flag(arg, "-g"@, "--settings"@) {
            lemma_parse_from_in_range(raw, i + 1, Args { settings_panel: true, ..a });
        } else if arg == "-?"@ || arg == "-h"@ || arg == "--help"@ || arg == "--version"@ {
        } else if i + 1 < raw.len() {
            let v = raw[i + 1int];
            if is_flag(arg, "-o"@, "--mode"@) {
                if let Some(m) = mode_from_name(v) {
                    lemma_parse_from_in_range(raw, i + 2, Args { mode: Some(m), ..a });
                }
            } else if is_flag(arg, "-s"@, "--seconds"@) {
                let n = number_or_zero(v);
                if PERIOD_MIN <= n <= PERIOD_MAX {
                    lemma_parse_from_in_range(raw, i + 2, Args { seconds: Some(n), ..a });
                }
            } else if is_flag(arg, "-d"@, "--distance"@) {
                let n = number_or_zero(v);
                if DISTANCE_MIN <= n <= DISTANCE_MAX {
                    lemma_parse_from_in_range(raw, i + 2, Args { distance: Some(n), ..a });
                }
            }
        }
    }
}

/// Options that parse successfully carry an interval and a distance within
/// their accepted ranges.
pub proof fn lemma_parsed_args_in_range(raw: Seq<Seq<char>>)
    ensures
        parse_from(raw, 0, default_args()) matches CliOutcome::Run(a) ==> args_in_range(a),
{
    lemma_parse_from_in_range(raw, 0, default_args());
}

proof fn reveal_flag_names()
    ensures
        "-j"@.len() == 2,
        "-m"@.len() == 2,
        "-r"@.len() == 2,
        "-g"@.len() == 2,
        "-?"@.len() == 2,
        "-h"@.len() == 2,
        "-o"@.len() == 2,
        "-s"@.len() == 2,
        "-d"@.len() == 2,
        "--jiggle"@.len() == 8,
        "--minimized"@.len() == 11,
        "--random"@.len() == 8,
        "--settings"@.len() == 10,
        "--help"@.len() == 6,
        "--version"@.len() == 9,
        "--mode"@.len() == 6,
        "--seconds"@.len() == 9,
        "--distance"@.len() == 10,
        "-j"@[1] == 'j',
        "-m"@[1] == 'm',
        "-r"@[1] == 'r',
        "-g"@[1] == 'g',
        "-?"@[1] == '?',
        "-h"@[1] == 'h',
        "-o"@[1] == 'o',
        "-s"@[1] == 's',
        "-d"@[1] == 'd',
        "--jiggle"@[2] == 'j',
        "--minimized"@[2] == 'm',
        "--random"@[2] == 'r',
        "--settings"@[2] == 's',
        "--help"@[2] == 'h',
        "--version"@[2] == 'v',
        "--mode"@[2] == 'm',
        "--seconds"@[2] == 's',
        "--distance"@[2] == 'd',
{
    reveal_strlit("-j");
    reveal_strlit("-m");
    reveal_strlit("-r");
    reveal_strlit("-g");
    reveal_strlit("-?");
    reveal_strlit("-h");
    reveal_strlit("-o");
    reveal_strlit("-s");
    reveal_strlit("-d");
    reveal_strlit("--jiggle");
    reveal_strlit("--minimized");
    reveal_strlit("--random");
    reveal_strlit("--settings");
    reveal_strlit("--help");
    reveal_strlit("--version");
    reveal_strlit("--mode");
    reveal_strlit("--seconds");
    reveal_strlit("--distance");
}

/// No arguments leave every option unset. Each documented switch, in its
/// short and its long form, alone on the command line: the four options set
/// what they name, help and version ask for their text to be printed.
pub proof fn lemma_documented_switches()
    ensures
        parse_from(Seq::<Seq<char>>::empty(), 0, default_args()) == CliOutcome::Run(default_args()),
        parse_from(seq!["-j"@], 0, default_args()) == CliOutcome::Run(Args { jiggle: true, ..default_args() }),
        parse_from(seq!["--jiggle"@], 0, default_args()) == CliOutcome::Run(Args { jiggle: true, ..default_args() }),
        parse_from(seq!["-m"@], 0, default_args()) == CliOutcome::Run(Args { minimized: Some(true), ..default_args() }),
        parse_from(seq!["--minimized"@], 0, default_args()) == CliOutcome::Run(Args { minimized: Some(true), ..default_args() }),
        parse_from(seq!["-r"@], 0, default_args()) == CliOutcome::Run(Args { random: Some(true), ..default_args() }),
        parse_from(seq!["--random"@], 0, default_args()) == CliOutcome::Run(Args { random: Some(true), ..default_args() }),
        parse_from(seq!["-g"@], 0, default_args()) == CliOutcome::Run(Args { settings_panel: true, ..default_args() }),
        parse_from(seq!["--settings"@], 0, default_args()) == CliOutcome::Run(Args { settings_panel: true, ..default_args() }),
        parse_from(seq!["-?"@], 0, default_args()) == CliOutcome::PrintAndExit(Info::Help, 0),
        parse_from(seq!["-h"@], 0, default_args()) == CliOutcome::PrintAndExit(Info::Help, 0),
        parse_from(seq!["--help"@], 0, default_args()) == CliOutcome::PrintAndExit(Info::Help, 0),
        parse_from(seq!["--version"@], 0, default_args()) == CliOutcome::PrintAndExit(Info::Version, 0),
{
    reveal_flag_names();
    reveal_with_fuel(parse_from, 2);
}

/// The options that take a value, in short and long form followed by a
/// value `v`: both forms mean the same; a valid value is taken as given, an
/// invalid one is an error, and a missing value is an error.
pub proof fn lemma_documented_value_options(v: Seq<char>)
    ensures
        parse_from(seq!["-o"@, v], 0, default_args()) == parse_from(seq!["--mode"@, v], 0, default_args()),
        parse_from(seq!["-s"@, v], 0, default_args()) == parse_from(seq!["--seconds"@, v], 0, default_args()),
        parse_from(seq!["-d"@, v], 0, default_args()) == parse_from(seq!["--distance"@, v], 0, default_args()),
        mode_from_name(v) matches Some(m) ==> parse_from(seq!["--mode"@, v], 0, default_args())
            == CliOutcome::Run(Args { mode: Some(m), ..default_args() }),
        mode_from_name(v) is None ==> parse_from(seq!["--mode"@, v], 0, default_args()) is Error,
        parse_u32_spec(v) matches Some(n) && 1 <= n <= 10800 ==> parse_from(
            seq!["--seconds"@, v],
            0,
            default_args(),
        ) == CliOutcome::Run(Args { seconds: Some(parse_u32_spec(v)->0), ..default_args() }),
        !(parse_u32_spec(v) matches Some(n) && 1 <= n <= 10800) ==> parse_from(
            seq!["--seconds"@, v],
            0,
            default_args(),
        ) is Error,
        parse_u32_spec(v) matches Some(n) && 1 <= n <= 120 ==> parse_from(
            seq!["--distance"@, v],
            0,
            default_args(),
        ) == CliOutcome::Run(Args { distance: Some(parse_u32_spec(v)->0), ..default_args() }),
        !(parse_u32_spec(v) matches Some(n) && 1 <= n <= 120) ==> parse_from(
            seq!["--distance"@, v],
            0,
            default_args(),
        ) is Error,
        parse_from(seq!["-o"@], 0, default_args()) is Error,
        parse_from(seq!["--mode"@], 0, default_args()) is Error,
        parse_from(seq!["-s"@], 0, default_args()) is Error,
        parse_from(seq!["--seconds"@], 0, default_args()) is Error,
        parse_from(seq!["-d"@], 0, default_args()) is Error,
        parse_from(seq!["--distance"@], 0, default_args()) is Error,
{
    reveal_flag_names();
    reveal_with_fuel(parse_from, 2);
}

fn requires_a_value(arg: &str) -> (r: String)
    ensures
        r@ == arg@ + " requires a value"@,
{
    let mut msg = String::from_str(arg);
    msg.append(" requires a value");
    msg
}

} // verus!
