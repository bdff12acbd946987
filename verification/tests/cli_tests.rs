use mouse_jiggler_neo::cli::{parse, Args, Info, ParseOutcome};
use mouse_jiggler_neo::jiggle::Mode;
use mouse_jiggler_neo::settings::Settings;
use mouse_jiggler_neo::startup::resolve_initial;

fn run(args: &[&str]) -> ParseOutcome {
    let raw: Vec<String> = args.iter().map(|s| s.to_string()).collect();
    parse(&raw)
}

fn run_ok(args: &[&str]) -> Args {
    match run(args) {
        ParseOutcome::Run(a) => a,
        _ => panic!("expected Run"),
    }
}

fn run_err(args: &[&str]) -> String {
    match run(args) {
        ParseOutcome::Error(m) => m,
        _ => panic!("expected Error"),
    }
}

#[test]
fn no_arguments_gives_defaults() {
    assert_eq!(run_ok(&[]), Args::default());
}

#[test]
fn readme_example_circle_thirty_seconds() {
    let a = run_ok(&["-j", "-m", "-o", "Circle", "-s", "30"]);
    assert!(a.jiggle);
    assert_eq!(a.minimized, Some(true));
    assert_eq!(a.mode, Some(Mode::Circle));
    assert_eq!(a.seconds, Some(30));
    assert_eq!(a.distance, None);
    assert_eq!(a.random, None);
    assert!(!a.settings_panel);
}

#[test]
fn long_flags() {
    let a = run_ok(&["--jiggle", "--minimized", "--random", "--settings", "--mode", "zen", "--seconds", "10800", "--distance", "120"]);
    assert!(a.jiggle);
    assert_eq!(a.minimized, Some(true));
    assert_eq!(a.random, Some(true));
    assert!(a.settings_panel);
    assert_eq!(a.mode, Some(Mode::Zen));
    assert_eq!(a.seconds, Some(10800));
    assert_eq!(a.distance, Some(120));
}

#[test]
fn help_and_version() {
    assert!(matches!(run(&["-?"]), ParseOutcome::PrintAndExit(Info::Help, 0)));
    assert!(matches!(run(&["-h"]), ParseOutcome::PrintAndExit(Info::Help, 0)));
    assert!(matches!(run(&["-j", "--help", "--bogus"]), ParseOutcome::PrintAndExit(Info::Help, 0)));
    assert!(matches!(run(&["--version"]), ParseOutcome::PrintAndExit(Info::Version, 0)));
}

#[test]
fn missing_values() {
    assert_eq!(run_err(&["-o"]), "-o requires a value");
    assert_eq!(run_err(&["--seconds"]), "--seconds requires a value");
    assert_eq!(run_err(&["-j", "-d"]), "-d requires a value");
}

#[test]
fn invalid_mode() {
    assert_eq!(run_err(&["--mode", "Square"]), "Invalid jiggle mode: Square");
}

#[test]
fn period_out_of_range() {
    assert_eq!(run_err(&["-s", "0"]), "Period cannot be shorter than 1 second.");
    assert_eq!(run_err(&["-s", "abc"]), "Period cannot be shorter than 1 second.");
    assert_eq!(run_err(&["-s", "10801"]), "Period cannot be longer than 10800 seconds.");
    assert_eq!(run_ok(&["-s", "1"]).seconds, Some(1));
    assert_eq!(run_ok(&["-s", "+5"]).seconds, Some(5));
}

#[test]
fn distance_out_of_range() {
    assert_eq!(run_err(&["-d", "0"]), "Distance multiplier cannot be less than 1.");
    assert_eq!(run_err(&["-d", "-3"]), "Distance multiplier cannot be less than 1.");
    assert_eq!(run_err(&["-d", "121"]), "Distance multiplier cannot be greater than 120.");
    assert_eq!(run_err(&["-d", "99999999999"]), "Distance multiplier cannot be less than 1.");
}

#[test]
fn unknown_argument() {
    assert_eq!(run_err(&["-x"]), "Unknown argument: -x");
    assert_eq!(run_err(&["-j", "Circle"]), "Unknown argument: Circle");
}

#[test]
fn cli_overrides_stored_settings_for_this_run() {
    let stored = Settings { minimize_on_startup: true, ..Settings::default() };
    let a = run_ok(&["-o", "Linear", "-s", "30", "-d", "5", "-r"]);
    let e = resolve_initial(&a, stored);
    assert_eq!(e.settings.mode, Mode::Linear);
    assert_eq!(e.settings.period_secs, 30);
    assert_eq!(e.settings.distance, 5);
    assert!(e.settings.random_timer);
    assert!(e.settings.minimize_on_startup);
    assert!(e.minimize);

    let e = resolve_initial(&Args::default(), stored);
    assert_eq!(e.settings, stored);
    assert!(e.minimize);

    let e = resolve_initial(&run_ok(&["-m"]), Settings::default());
    assert!(e.minimize);
    assert!(!e.settings.minimize_on_startup);
}
