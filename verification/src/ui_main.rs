//! The main window's state and the decisions behind its controls, its
//! jiggle timer and its tooltip. The application owns the window: it reads
//! the controls, makes the Win32 calls, and hands events to this module.
use vstd::prelude::*;
use vstd::string::*;

use crate::ids::{
    DISTANCE_MAX, DISTANCE_MIN, IDC_BTN_ABOUT, IDC_BTN_TRAYIFY, IDC_CB_MINIMIZE, IDC_CB_RANDOM,
    IDC_CMB_MODE, IDC_JIGGLING, IDC_NUD_DISTANCE, IDC_NUD_PERIOD, IDC_SETTINGS, IDM_TRAY_EXIT,
    IDM_TRAY_OPEN, IDM_TRAY_START, IDM_TRAY_STOP, PERIOD_MAX, PERIOD_MIN,
};
use crate::jiggle::{
    all_modes, delta, mode_name, pattern, pattern_len, step_delta, Mode, PauseDetector,
};
use crate::rng::{draw, lcg_next, Rng};
use crate::settings::{clamp_spec, clamp_u32, settings_valid, Settings};
use crate::tray::{context_menu_spec, MenuEntry, ShellRequest, Tray};
use crate::util::{decimal, push_decimal};

verus! {

broadcast use vstd::string::group_string_axioms;

/// Longest tooltip, in characters.
pub const MAX_TIP: usize = 63;

/// Win32 `BN_CLICKED`.
pub const BN_CLICKED: u32 = 0;

/// Win32 `CBN_SELCHANGE`.
pub const CBN_SELCHANGE: u32 = 1;

/// Win32 `EN_CHANGE`.
pub const EN_CHANGE: u32 = 0x0300;

/// The main window's state. Its fields are private: the methods below
/// keep it well formed (see `wf_view`), which its type invariant records.
pub struct AppState {
    /// The settings in effect: the stored ones with command-line overrides.
    settings: Settings,
    /// The settings as persisted; command-line overrides never reach them,
    /// only changes made in the window do.
    stored: Settings,
    jiggling: bool,
    step: usize,
    pause: PauseDetector,
    rng: Rng,
    tray: Tray,
    settings_panel_visible: bool,
    start_jiggling_on_load: bool,
    minimize_on_load: bool,
    show_settings_on_load: bool,
    /// Suppress EN_CHANGE / CBN_SELCHANGE writes during WM_INITDIALOG.
    initializing: bool,
    /// The local time of day, in minutes after midnight, when jiggling was
    /// last started or the last tick ran.
    last_minute: Option<u16>,
}

/// The abstract state of the main window.
#[derive(Copy, Clone, Debug)]
pub struct AppView {
    /// The settings in effect.
    pub settings: Settings,
    /// The settings as persisted.
    pub stored: Settings,
    pub jiggling: bool,
    /// The position in the current mode's pattern.
    pub step: usize,
    /// The last cursor position seen.
    pub pause: Option<(i32, i32)>,
    /// The random generator's state.
    pub rng: u64,
    /// Whether the tray icon is registered with the shell.
    pub registered: bool,
    pub settings_panel_visible: bool,
    pub start_jiggling_on_load: bool,
    pub minimize_on_load: bool,
    pub show_settings_on_load: bool,
    pub initializing: bool,
    pub last_minute: Option<u16>,
}

impl View for AppState {
    type V = AppView;

    closed spec fn view(&self) -> AppView {
        AppView {
            settings: self.settings,
            stored: self.stored,
            jiggling: self.jiggling,
            step: self.step,
            pause: self.pause@,
            rng: self.rng@,
            registered: self.tray.registered,
            settings_panel_visible: self.settings_panel_visible,
            start_jiggling_on_load: self.start_jiggling_on_load,
            minimize_on_load: self.minimize_on_load,
            show_settings_on_load: self.show_settings_on_load,
            initializing: self.initializing,
            last_minute: self.last_minute,
        }
    }
}

/// Well-formedness: both settings are valid, the pattern step lies within
/// the current mode's pattern, and the recorded minute is a time of day.
pub open spec fn wf_view(v: AppView) -> bool {
    &&& settings_valid(v.settings)
    &&& settings_valid(v.stored)
    &&& v.step < pattern(v.settings.mode).len()
    &&& (v.last_minute matches Some(m) ==> m < DAY_MINUTES)
}

/// What to do with the jiggle timer.
#[derive(Copy, Clone, Debug, PartialEq, Eq, Structural)]
pub enum TimerAction {
    Keep,
    /// Keep the system and display awake and start the timer with this
    /// interval in milliseconds.
    Start(u32),
    /// Restart the running timer with this interval in milliseconds.
    Restart(u32),
    /// Stop the timer and allow the system to sleep again.
    Stop,
}

/// What the window has to do after a state change.
#[derive(Copy, Clone, Debug, PartialEq, Eq, Structural)]
pub struct Actions {
    /// Write these settings to the configuration file.
    pub persist: Option<Settings>,
    pub timer: TimerAction,
    /// Show this many seconds in the period label.
    pub period_display: Option<u32>,
    /// Check or uncheck the jiggling checkbox.
    pub jiggling_check: Option<bool>,
    /// Show or hide the settings panel.
    pub settings_panel: Option<bool>,
    /// Make this tray call with the current tooltip, then report its
    /// outcome to `Tray::record`.
    pub tray: Option<ShellRequest>,
    /// Show or hide the main window.
    pub window_visible: Option<bool>,
    pub show_about: bool,
    /// Ask the window to close.
    pub post_close: bool,
    /// Destroy the window, which ends the application.
    pub destroy_window: bool,
}

pub open spec fn no_actions() -> Actions {
    Actions {
        persist: None,
        timer: TimerAction::Keep,
        period_display: None,
        jiggling_check: None,
        settings_panel: None,
        tray: None,
        window_visible: None,
        show_about: false,
        post_close: false,
        destroy_window: false,
    }
}

impl Actions {
    /// Nothing to do.
    pub fn none() -> (r: Actions)
        ensures
            r == no_actions(),
    {
        Actions {
            persist: None,
            timer: TimerAction::Keep,
            period_display: None,
            jiggling_check: None,
            settings_panel: None,
            tray: None,
            window_visible: None,
            show_about: false,
            post_close: false,
            destroy_window: false,
        }
    }
}

/// A control change, with the value the window read from the control.
#[derive(Copy, Clone, Debug, PartialEq, Eq, Structural)]
pub enum ControlChange {
    Jiggling(bool),
    SettingsPanel(bool),
    Trayify,
    About,
    /// A position in the mode selector.
    Mode(usize),
    /// The value typed into the period box.
    Period(u32),
    /// The value typed into the distance box.
    Distance(u32),
    Random(bool),
    MinimizeOnStartup(bool),
}

/// The outcome of a jiggle tick.
#[derive(Copy, Clone, Debug, PartialEq, Eq, Structural)]
pub enum TickOutcome {
    /// The user moved the mouse: nothing is sent.
    Paused,
    Jiggle(Tick),
    /// The daily auto-stop time was reached: jiggling stops.
    AutoStop(Actions),
}

/// What a jiggle tick does when it is not paused.
#[derive(Copy, Clone, Debug, PartialEq, Eq, Structural)]
pub struct Tick {
    /// Relative cursor movement to send.
    pub dx: i32,
    pub dy: i32,
    /// Interval until the next tick, in milliseconds.
    pub next_ms: u32,
    /// With random variation, the drawn interval in seconds, to display.
    pub shown_secs: Option<u32>,
}

/// Timer interval for a period in seconds: `secs * 1000` saturating at
/// `u32::MAX`, and at least 1.
pub open spec fn interval_ms_spec(secs: u32) -> u32 {
    let ms = if secs * 1000 > u32::MAX {
        u32::MAX as int
    } else {
        secs * 1000
    };
    if ms < 1 {
        1
    } else {
        ms as u32
    }
}

pub fn interval_ms(secs: u32) -> (r: u32)
    ensures
        r == interval_ms_spec(secs),
        r >= 1,
{
    let ms = if secs > u32::MAX / 1000 {
        u32::MAX
    } else {
        secs * 1000
    };
    if ms < 1 {
        1
    } else {
        ms
    }
}

/// For a period in the accepted range the timer runs exactly that many
/// seconds.
pub proof fn lemma_interval_of_valid_period(secs: u32)
    requires
        PERIOD_MIN <= secs <= PERIOD_MAX,
    ensures
        interval_ms_spec(secs) == secs * 1000,
{
}

/// A period too long for a `u32` count of milliseconds runs the longest
/// interval the timer takes, and a zero period the shortest.
pub proof fn lemma_interval_limits(secs: u32)
    ensures
        secs > 4294967 ==> interval_ms_spec(secs) == 0xFFFF_FFFFu32,
        secs == 0 ==> interval_ms_spec(secs) == 1,
        1 <= secs <= 4294967 ==> interval_ms_spec(secs) == secs * 1000,
{
}

/// The tooltip before shortening.
pub open spec fn tooltip_full(jiggling: bool, s: Settings) -> Seq<char> {
    if !jiggling {
        "Not jiggling the mouse."@
    } else {
        "Jiggling mouse every "@ + decimal(s.period_secs as nat) + " s,"@ + (if s.random_timer {
            " with random variation,"@
        } else {
            Seq::empty()
        }) + " mode: "@ + mode_name(s.mode) + " (\u{394} "@ + decimal(s.distance as nat) + ")."@
    }
}

/// The tooltip: texts longer than 63 characters keep their first 60
/// characters followed by "...".
pub open spec fn tooltip_spec(jiggling: bool, s: Settings) -> Seq<char> {
    let t = tooltip_full(jiggling, s);
    if t.len() > MAX_TIP {
        t.take(MAX_TIP - 3) + "..."@
    } else {
        t
    }
}

proof fn lemma_decimal_len(n: nat)
    ensures
        n < 100000 ==> decimal(n).len() <= 5,
        n < 10000 ==> decimal(n).len() <= 4,
        n < 1000 ==> decimal(n).len() <= 3,
        n < 100 ==> decimal(n).len() <= 2,
        n < 10 ==> decimal(n).len() == 1,
    decreases n,
{
    if n >= 10 {
        lemma_decimal_len(n / 10);
    }
}

/// The tooltip says "Not jiggling the mouse." while idle; while jiggling it
/// starts "Jiggling mouse every " followed by the period in seconds, and it
/// never exceeds 63 characters.
pub proof fn lemma_tooltip_text(s: Settings)
    requires
        settings_valid(s),
    ensures
        tooltip_spec(false, s) == "Not jiggling the mouse."@,
        tooltip_spec(true, s).take((21 + decimal(s.period_secs as nat).len()) as int) == "Jiggling mouse every "@
            + decimal(s.period_secs as nat),
        tooltip_spec(true, s).len() <= 63,
        tooltip_spec(false, s).len() <= 63,
{
    reveal_strlit("Not jiggling the mouse.");
    reveal_strlit("Jiggling mouse every ");
    reveal_strlit("...");
    lemma_decimal_len(s.period_secs as nat);
    let a = "Jiggling mouse every "@ + decimal(s.period_secs as nat);
    let t = tooltip_full(true, s);
    let n = a.len() as int;
    assert(n <= 26);
    let rest = " s,"@ + (if s.random_timer {
        " with random variation,"@
    } else {
        Seq::empty()
    }) + " mode: "@ + mode_name(s.mode) + " (\u{394} "@ + decimal(s.distance as nat) + ")."@;
    assert(t =~= a + rest);
    assert(t.take(n) =~= a);
    if t.len() > MAX_TIP {
        assert((t.take(MAX_TIP - 3) + "..."@).take(n) =~= a);
    }
}

/// The text of the period label: the seconds followed by " s".
pub open spec fn period_display_spec(secs: u32) -> Seq<char> {
    decimal(secs as nat) + " s"@
}

pub fn period_display(secs: u32) -> (r: String)
    ensures
        r@ == period_display_spec(secs),
{
    let mut t = String::new();
    push_decimal(&mut t, secs);
    t.append(" s");
    assert(t@ =~= period_display_spec(secs));
    t
}

/// The position of a mode in the mode selector.
pub fn mode_index(mode: Mode) -> (r: usize)
    ensures
        r < all_modes().len(),
        all_modes()[r as int] == mode,
{
    match mode {
        Mode::Normal => 0,
        Mode::Zen => 1,
        Mode::Circle => 2,
        Mode::Linear => 3,
    }
}

/// A control notification the main window acts on.
#[derive(Copy, Clone, Debug, PartialEq, Eq, Structural)]
pub enum Control {
    JigglingClicked,
    SettingsClicked,
    TrayifyClicked,
    AboutClicked,
    ModeChanged,
    PeriodChanged,
    DistanceChanged,
    RandomClicked,
    MinimizeClicked,
}

/// The control id in the low word of a `WM_COMMAND` wParam.
pub open spec fn command_id(wparam: usize) -> int {
    (wparam & 0xFFFFusize) as int
}

/// The notification code in the high word of a `WM_COMMAND` wParam.
pub open spec fn command_notify(wparam: usize) -> int {
    ((wparam >> 16usize) & 0xFFFFusize) as int
}

/// Which notification a `WM_COMMAND` carries. Selection and edit changes
/// are ignored while the controls are being initialised.
pub open spec fn control_of(id: int, notify: int, initializing: bool) -> Option<Control> {
    if id == IDC_JIGGLING && notify == BN_CLICKED {
        Some(Control::JigglingClicked)
    } else if id == IDC_SETTINGS && notify == BN_CLICKED {
        Some(Control::SettingsClicked)
    } else if id == IDC_BTN_TRAYIFY && notify == BN_CLICKED {
        Some(Control::TrayifyClicked)
    } else if id == IDC_BTN_ABOUT && notify == BN_CLICKED {
        Some(Control::AboutClicked)
    } else if id == IDC_CMB_MODE && notify == CBN_SELCHANGE && !initializing {
        Some(Control::ModeChanged)
    } else if id == IDC_NUD_PERIOD && notify == EN_CHANGE && !initializing {
        Some(Control::PeriodChanged)
    } else if id == IDC_NUD_DISTANCE && notify == EN_CHANGE && !initializing {
        Some(Control::DistanceChanged)
    } else if id == IDC_CB_RANDOM && notify == BN_CLICKED {
        Some(Control::RandomClicked)
    } else if id == IDC_CB_MINIMIZE && notify == BN_CLICKED {
        Some(Control::MinimizeClicked)
    } else {
        None
    }
}

pub fn classify_command(wparam: usize, initializing: bool) -> (r: Option<Control>)
    ensures
        r == control_of(command_id(wparam), command_notify(wparam), initializing),
{
    assert(0 <= (wparam & 0xFFFFusize) <= 0xFFFF) by (bit_vector);
    assert(0 <= ((wparam >> 16usize) & 0xFFFFusize) <= 0xFFFF) by (bit_vector);
    let id = (wparam & 0xFFFF) as i32;
    let notify = ((wparam >> 16) & 0xFFFF) as u32;
    if id == IDC_JIGGLING && notify == BN_CLICKED {
        Some(Control::JigglingClicked)
    } else if id == IDC_SETTINGS && notify == BN_CLICKED {
        Some(Control::SettingsClicked)
    } else if id == IDC_BTN_TRAYIFY && notify == BN_CLICKED {
        Some(Control::TrayifyClicked)
    } else if id == IDC_BTN_ABOUT && notify == BN_CLICKED {
        Some(Control::AboutClicked)
    } else if id == IDC_CMB_MODE && notify == CBN_SELCHANGE && !initializing {
        Some(Control::ModeChanged)
    } else if id == IDC_NUD_PERIOD && notify == EN_CHANGE && !initializing {
        Some(Control::PeriodChanged)
    } else if id == IDC_NUD_DISTANCE && notify == EN_CHANGE && !initializing {
        Some(Control::DistanceChanged)
    } else if id == IDC_CB_RANDOM && notify == BN_CLICKED {
        Some(Control::RandomClicked)
    } else if id == IDC_CB_MINIMIZE && notify == BN_CLICKED {
        Some(Control::MinimizeClicked)
    } else {
        None
    }
}

/// A command chosen from the tray's context menu.
#[derive(Copy, Clone, Debug, PartialEq, Eq, Structural)]
pub enum TrayCommand {
    Open,
    Start,
    Stop,
    Exit,
}

pub open spec fn tray_command_of(cmd: u32) -> Option<TrayCommand> {
    if cmd == IDM_TRAY_OPEN {
        Some(TrayCommand::Open)
    } else if cmd == IDM_TRAY_START {
        Some(TrayCommand::Start)
    } else if cmd == IDM_TRAY_STOP {
        Some(TrayCommand::Stop)
    } else if cmd == IDM_TRAY_EXIT {
        Some(TrayCommand::Exit)
    } else {
        None
    }
}

/// The command a context-menu id stands for (`None` when the menu was
/// dismissed or the id is unknown).
pub fn tray_command(cmd: u32) -> (r: Option<TrayCommand>)
    ensures
        r == tray_command_of(cmd),
{
    if cmd == IDM_TRAY_OPEN {
        Some(TrayCommand::Open)
    } else if cmd == IDM_TRAY_START {
        Some(TrayCommand::Start)
    } else if cmd == IDM_TRAY_STOP {
        Some(TrayCommand::Stop)
    } else if cmd == IDM_TRAY_EXIT {
        Some(TrayCommand::Exit)
    } else {
        None
    }
}

/// Minutes in a day.
pub const DAY_MINUTES: u16 = 24 * 60;

/// Whether the local time moving from `prev` to `now` (minutes after
/// midnight) reaches `target`: `target` lies after `prev` and at or before
/// `now`, going forward through midnight when `now` is earlier than `prev`.
/// With no previous time, only `now == target` reaches it.
pub open spec fn minute_reached(prev: Option<u16>, now: u16, target: u16) -> bool {
    match prev {
        None => target == now,
        Some(p) => if p <= now {
            p < target && target <= now
        } else {
            p < target || target <= now
        },
    }
}

/// The cursor position last seen after reading `cursor`.
pub open spec fn seen(last: Option<(i32, i32)>, cursor: Option<(i32, i32)>) -> Option<(i32, i32)> {
    match cursor {
        None => last,
        Some(p) => Some(p),
    }
}

/// The last cursor position seen is the newest one read; a failed read
/// keeps the one seen before.
pub proof fn lemma_seen(last: Option<(i32, i32)>, p: (i32, i32))
    ensures
        seen(last, Some(p)) == Some(p),
        seen(last, None) == last,
{
}

/// The tray call that refreshes the tooltip: only a registered icon is
/// modified.
pub open spec fn tooltip_request(registered: bool) -> Option<ShellRequest> {
    if registered {
        Some(ShellRequest::Modify)
    } else {
        None
    }
}

/// The tray call that shows the icon: add it, or modify the tip when it is
/// already registered.
pub open spec fn show_request(registered: bool) -> ShellRequest {
    if registered {
        ShellRequest::Modify
    } else {
        ShellRequest::Add
    }
}

/// The tray call that removes the icon, when it is registered.
pub open spec fn remove_request(registered: bool) -> Option<ShellRequest> {
    if registered {
        Some(ShellRequest::Delete)
    } else {
        None
    }
}

/// The timer action of switching jiggling on or off.
pub open spec fn switch_timer(s: Settings, on: bool) -> TimerAction {
    if on {
        TimerAction::Start(interval_ms_spec(s.period_secs))
    } else {
        TimerAction::Stop
    }
}

/// `new` is `old` with jiggling switched on or off at local minute `now`:
/// the pattern restarts, and switching on records the cursor position and
/// the minute.
pub open spec fn switched(
    old: AppView,
    new: AppView,
    on: bool,
    cursor: Option<(i32, i32)>,
    now: u16,
) -> bool {
    new == (AppView {
        jiggling: on,
        step: 0,
        pause: if on { seen(old.pause, cursor) } else { old.pause },
        last_minute: if on { Some(now) } else { old.last_minute },
        ..old
    })
}

/// `new` is `old` with the settings in effect and the stored settings both
/// changed by `f` and the pattern restarted when `restart`.
pub open spec fn changed_settings(
    old: AppView,
    new: AppView,
    effective: Settings,
    stored: Settings,
    restart: bool,
) -> bool {
    new == (AppView {
        settings: effective,
        stored: stored,
        step: if restart { 0 } else { old.step },
        ..old
    })
}

/// The state and actions after a control change.
pub open spec fn control_step(
    old: AppView,
    new: AppView,
    change: ControlChange,
    cursor: Option<(i32, i32)>,
    now: u16,
    r: Actions,
) -> bool {
    let tip = tooltip_request(old.registered);
    match change {
        ControlChange::Jiggling(on) => {
            &&& switched(old, new, on, cursor, now)
            &&& r == (Actions { timer: switch_timer(old.settings, on), tray: tip, ..no_actions() })
        },
        ControlChange::SettingsPanel(on) => {
            &&& new == (AppView { settings_panel_visible: on, ..old })
            &&& r == (Actions { settings_panel: Some(on), ..no_actions() })
        },
        ControlChange::Trayify => {
            &&& new == old
            &&& r == (Actions {
                tray: Some(show_request(old.registered)),
                window_visible: Some(false),
                ..no_actions()
            })
        },
        ControlChange::About => {
            &&& new == old
            &&& r == (Actions { show_about: true, ..no_actions() })
        },
        ControlChange::Mode(idx) => if idx < all_modes().len() {
            let m = all_modes()[idx as int];
            &&& changed_settings(
                old,
                new,
                Settings { mode: m, ..old.settings },
                Settings { mode: m, ..old.stored },
                true,
            )
            &&& r == (Actions { persist: Some(new.stored), tray: tip, ..no_actions() })
        } else {
            &&& new == old
            &&& r == no_actions()
        },
        ControlChange::Period(raw) => {
            let v = clamp_spec(raw, PERIOD_MIN, PERIOD_MAX);
            &&& changed_settings(
                old,
                new,
                Settings { period_secs: v, ..old.settings },
                Settings { period_secs: v, ..old.stored },
                false,
            )
            &&& r == (Actions {
                persist: Some(new.stored),
                period_display: Some(v),
                timer: if old.jiggling {
                    TimerAction::Restart(interval_ms_spec(v))
                } else {
                    TimerAction::Keep
                },
                tray: tip,
                ..no_actions()
            })
        },
        ControlChange::Distance(raw) => {
            let v = clamp_spec(raw, DISTANCE_MIN, DISTANCE_MAX);
            &&& changed_settings(
                old,
                new,
                Settings { distance: v, ..old.settings },
                Settings { distance: v, ..old.stored },
                true,
            )
            &&& r == (Actions { persist: Some(new.stored), tray: tip, ..no_actions() })
        },
        ControlChange::Random(on) => {
            &&& changed_settings(
                old,
                new,
                Settings { random_timer: on, ..old.settings },
                Settings { random_timer: on, ..old.stored },
                false,
            )
            &&& r == (Actions { persist: Some(new.stored), tray: tip, ..no_actions() })
        },
        ControlChange::MinimizeOnStartup(on) => {
            &&& changed_settings(
                old,
                new,
                Settings { minimize_on_startup: on, ..old.settings },
                Settings { minimize_on_startup: on, ..old.stored },
                false,
            )
            &&& r == (Actions { persist: Some(new.stored), ..no_actions() })
        },
    }
}

/// The state and actions after a command from the tray's context menu.
pub open spec fn tray_step(
    old: AppView,
    new: AppView,
    cmd: TrayCommand,
    cursor: Option<(i32, i32)>,
    now: u16,
    r: Actions,
) -> bool {
    match cmd {
        TrayCommand::Open => {
            &&& new == (AppView { registered: false, ..old })
            &&& r == (Actions {
                tray: remove_request(old.registered),
                window_visible: Some(true),
                ..no_actions()
            })
        },
        TrayCommand::Start | TrayCommand::Stop => {
            let on = cmd == TrayCommand::Start;
            &&& switched(old, new, on, cursor, now)
            &&& r == (Actions {
                jiggling_check: Some(on),
                timer: switch_timer(old.settings, on),
                tray: tooltip_request(old.registered),
                ..no_actions()
            })
        },
        TrayCommand::Exit => {
            &&& new == old
            &&& r == (Actions { post_close: true, ..no_actions() })
        },
    }
}

/// The state and actions once the window exists: the settings panel shown
/// exactly when asked for at start, and jiggling started and the window
/// minimized to the tray when asked for.
pub open spec fn init_step(
    old: AppView,
    new: AppView,
    cursor: Option<(i32, i32)>,
    now: u16,
    r: Actions,
) -> bool {
    let start = old.start_jiggling_on_load;
    let registered = old.registered;
    &&& new == (AppView {
        settings_panel_visible: old.show_settings_on_load,
        jiggling: start || old.jiggling,
        step: if start { 0 } else { old.step },
        pause: if start { seen(old.pause, cursor) } else { old.pause },
        last_minute: if start { Some(now) } else { old.last_minute },
        ..old
    })
    &&& r == (Actions {
        settings_panel: Some(old.show_settings_on_load),
        timer: if start { switch_timer(old.settings, true) } else { TimerAction::Keep },
        tray: if old.minimize_on_load {
            Some(show_request(registered))
        } else if start {
            tooltip_request(registered)
        } else {
            None
        },
        window_visible: if old.minimize_on_load { Some(false) } else { None },
        ..no_actions()
    })
}

/// Whether a tick at local minute `now` is the daily auto-stop.
pub open spec fn auto_stop_due(s: AppView, now: u16) -> bool {
    &&& s.jiggling
    &&& s.settings.auto_stop_enabled
    &&& minute_reached(s.last_minute, now, s.settings.auto_stop_minutes_local)
}

impl AppState {
    #[verifier::type_invariant]
    spec fn inv(self) -> bool {
        wf_view(self@)
    }

    /// The state the main window starts from: `settings` in effect,
    /// `stored` as persisted, not jiggling, at the first step of the
    /// pattern, the settings panel hidden, the tray icon not registered, the
    /// random generator seeded from `tick_count`.
    pub fn new(
        settings: Settings,
        stored: Settings,
        tick_count: u64,
        start_jiggling_on_load: bool,
        minimize_on_load: bool,
        show_settings_on_load: bool,
    ) -> (r: AppState)
        requires
            settings_valid(settings),
            settings_valid(stored),
        ensures
            wf_view(r@),
            r@ == (AppView {
                settings,
                stored,
                jiggling: false,
                step: 0,
                pause: None,
                rng: if tick_count == 0 { 1u64 } else { tick_count },
                registered: false,
                settings_panel_visible: false,
                start_jiggling_on_load,
                minimize_on_load,
                show_settings_on_load,
                initializing: false,
                last_minute: None,
            }),
    {
        AppState {
            settings,
            stored,
            jiggling: false,
            step: 0,
            pause: PauseDetector::default(),
            rng: Rng::new(tick_count),
            tray: Tray::new(),
            settings_panel_visible: false,
            start_jiggling_on_load,
            minimize_on_load,
            show_settings_on_load,
            initializing: false,
            last_minute: None,
        }
    }

    /// The settings in effect.
    pub fn settings(&self) -> (r: Settings)
        ensures
            r == self@.settings,
    {
        self.settings
    }

    /// The settings as persisted.
    pub fn stored(&self) -> (r: Settings)
        ensures
            r == self@.stored,
    {
        self.stored
    }

    pub fn jiggling(&self) -> (r: bool)
        ensures
            r == self@.jiggling,
    {
        self.jiggling
    }

    /// The position in the current mode's pattern.
    pub fn step(&self) -> (r: usize)
        ensures
            r == self@.step,
    {
        self.step
    }

    pub fn settings_panel_visible(&self) -> (r: bool)
        ensures
            r == self@.settings_panel_visible,
    {
        self.settings_panel_visible
    }

    /// Whether the tray icon is registered with the shell.
    pub fn tray_registered(&self) -> (r: bool)
        ensures
            r == self@.registered,
    {
        self.tray.registered
    }

    pub fn last_minute(&self) -> (r: Option<u16>)
        ensures
            r == self@.last_minute,
    {
        self.last_minute
    }

    pub fn initializing(&self) -> (r: bool)
        ensures
            r == self@.initializing,
    {
        self.initializing
    }

    /// Marks the controls as being filled in (control notifications are then
    /// ignored) or done.
    pub fn set_initializing(&mut self, on: bool)
        ensures
            final(self)@ == (AppView { initializing: on, ..old(self)@ }),
    {
        proof {
            use_type_invariant(&*self);
        }
        self.initializing = on;
    }

    /// Records the shell's answer `ok` to a tray call the library asked for
    /// and returns it.
    pub fn record_tray(&mut self, request: ShellRequest, ok: bool) -> (r: bool)
        ensures
            r == ok,
            final(self)@ == (AppView {
                registered: match request {
                    ShellRequest::Add => ok,
                    ShellRequest::Modify => old(self)@.registered && ok,
                    ShellRequest::Delete => false,
                },
                ..old(self)@
            }),
    {
        proof {
            use_type_invariant(&*self);
        }
        let mut t = self.tray;
        let r = t.record(request, ok);
        self.tray = t;
        r
    }

    /// Records the cursor position read after a jiggle was sent (`None` when
    /// it could not be read), so the next tick measures movement from there.
    pub fn record_cursor_after_jiggle(&mut self, cursor: Option<(i32, i32)>)
        ensures
            final(self)@ == (AppView { pause: seen(old(self)@.pause, cursor), ..old(self)@ }),
    {
        proof {
            use_type_invariant(&*self);
        }
        let mut p = self.pause;
        p.update_position(cursor);
        self.pause = p;
    }

    /// The jiggle timer's interval for the configured period.
    pub fn timer_interval_ms(&self) -> (r: u32)
        ensures
            r == interval_ms_spec(self@.settings.period_secs),
    {
        interval_ms(self.settings.period_secs)
    }

    /// Turns jiggling on or off at local minute `now` and restarts the
    /// pattern; switching on records the cursor position (`None` when it
    /// could not be read).
    pub fn set_jiggling(&mut self, on: bool, cursor: Option<(i32, i32)>, now: u16) -> (r:
        TimerAction)
        requires
            now < DAY_MINUTES,
        ensures
            switched(old(self)@, final(self)@, on, cursor, now),
            r == switch_timer(old(self)@.settings, on),
    {
        proof {
            use_type_invariant(&*self);
        }
        self.jiggling = on;
        self.step = 0;
        if on {
            let mut p = self.pause;
            p.update_position(cursor);
            self.pause = p;
            self.last_minute = Some(now);
            TimerAction::Start(self.timer_interval_ms())
        } else {
            TimerAction::Stop
        }
    }

    /// Once the window exists: shows the settings panel exactly when asked
    /// for at start, and starts jiggling and minimizes to the tray when
    /// asked for.
    pub fn on_init(&mut self, cursor: Option<(i32, i32)>, now: u16) -> (r: Actions)
        requires
            now < DAY_MINUTES,
        ensures
            init_step(old(self)@, final(self)@, cursor, now, r),
    {
        proof {
            use_type_invariant(&*self);
        }
        let mut r = Actions::none();
        self.settings_panel_visible = self.show_settings_on_load;
        r.settings_panel = Some(self.show_settings_on_load);
        if self.start_jiggling_on_load {
            r.timer = self.set_jiggling(true, cursor, now);
            r.tray = self.tray.update_tip();
        }
        if self.minimize_on_load {
            r.tray = Some(self.tray.ensure_added());
            r.window_visible = Some(false);
        }
        r
    }

    /// Selects the mode at position `idx` of the mode selector (nothing
    /// happens past the last mode), in effect and stored, and restarts the
    /// pattern.
    pub fn select_mode(&mut self, idx: usize) -> (r: Actions)
        ensures
            forall|cursor: Option<(i32, i32)>, now: u16|
                control_step(old(self)@, final(self)@, ControlChange::Mode(idx), cursor, now, r),
    {
        proof {
            use_type_invariant(&*self);
        }
        let mut r = Actions::none();
        let all = Mode::all();
        if idx < all.len() {
            let m = all[idx];
            assert(pattern(m).len() >= 1);
            self.step = 0;
            self.settings = Settings { mode: m, ..self.settings };
            self.stored = Settings { mode: m, ..self.stored };
            r.persist = Some(self.stored);
            r.tray = self.tray.update_tip();
        }
        r
    }

    /// Sets the period, in effect and stored, from the value typed into
    /// its box, clamped to 1..=10800 seconds.
    pub fn set_period(&mut self, raw: u32) -> (r: Actions)
        ensures
            forall|cursor: Option<(i32, i32)>, now: u16|
                control_step(old(self)@, final(self)@, ControlChange::Period(raw), cursor, now, r),
    {
        proof {
            use_type_invariant(&*self);
        }
        let mut r = Actions::none();
        let v = clamp_u32(raw, PERIOD_MIN, PERIOD_MAX);
        self.settings.period_secs = v;
        self.stored.period_secs = v;
        r.persist = Some(self.stored);
        r.period_display = Some(v);
        if self.jiggling {
            r.timer = TimerAction::Restart(interval_ms(v));
        }
        r.tray = self.tray.update_tip();
        r
    }

    /// Sets the distance, in effect and stored, from the value typed into
    /// its box, clamped to 1..=120, and restarts the pattern.
    pub fn set_distance(&mut self, raw: u32) -> (r: Actions)
        ensures
            forall|cursor: Option<(i32, i32)>, now: u16|
                control_step(old(self)@, final(self)@, ControlChange::Distance(raw), cursor, now, r),
    {
        proof {
            use_type_invariant(&*self);
        }
        let mut r = Actions::none();
        let v = clamp_u32(raw, DISTANCE_MIN, DISTANCE_MAX);
        self.step = 0;
        self.settings.distance = v;
        self.stored.distance = v;
        r.persist = Some(self.stored);
        r.tray = self.tray.update_tip();
        r
    }

    /// Turns random timer variation on or off, in effect and stored.
    pub fn set_random_timer(&mut self, on: bool) -> (r: Actions)
        ensures
            forall|cursor: Option<(i32, i32)>, now: u16|
                control_step(old(self)@, final(self)@, ControlChange::Random(on), cursor, now, r),
    {
        proof {
            use_type_invariant(&*self);
        }
        let mut r = Actions::none();
        self.settings.random_timer = on;
        self.stored.random_timer = on;
        r.persist = Some(self.stored);
        r.tray = self.tray.update_tip();
        r
    }

    /// Sets whether to start minimized next time, in effect and stored.
    pub fn set_minimize_on_startup(&mut self, on: bool) -> (r: Actions)
        ensures
            forall|cursor: Option<(i32, i32)>, now: u16|
                control_step(old(self)@, final(self)@, ControlChange::MinimizeOnStartup(on), cursor, now, r),
    {
        proof {
            use_type_invariant(&*self);
        }
        let mut r = Actions::none();
        self.settings.minimize_on_startup = on;
        self.stored.minimize_on_startup = on;
        r.persist = Some(self.stored);
        r
    }

    /// Applies a control change read from the window at local minute `now`.
    pub fn apply_control(
        &mut self,
        change: ControlChange,
        cursor: Option<(i32, i32)>,
        now: u16,
    ) -> (r: Actions)
        requires
            now < DAY_MINUTES,
        ensures
            control_step(old(self)@, final(self)@, change, cursor, now, r),
    {
        proof {
            use_type_invariant(&*self);
        }
        match change {
            ControlChange::Jiggling(on) => {
                let tip = self.tray.update_tip();
                let mut r = Actions::none();
                r.timer = self.set_jiggling(on, cursor, now);
                r.tray = tip;
                r
            },
            ControlChange::SettingsPanel(on) => {
                self.settings_panel_visible = on;
                let mut r = Actions::none();
                r.settings_panel = Some(on);
                r
            },
            ControlChange::Trayify => {
                let mut r = Actions::none();
                r.tray = Some(self.tray.ensure_added());
                r.window_visible = Some(false);
                r
            },
            ControlChange::About => {
                let mut r = Actions::none();
                r.show_about = true;
                r
            },
            ControlChange::Mode(idx) => self.select_mode(idx),
            ControlChange::Period(raw) => self.set_period(raw),
            ControlChange::Distance(raw) => self.set_distance(raw),
            ControlChange::Random(on) => self.set_random_timer(on),
            ControlChange::MinimizeOnStartup(on) => self.set_minimize_on_startup(on),
        }
    }

    /// Carries out a command chosen from the tray's context menu at local
    /// minute `now`.
    pub fn on_tray_command(
        &mut self,
        cmd: TrayCommand,
        cursor: Option<(i32, i32)>,
        now: u16,
    ) -> (r: Actions)
        requires
            now < DAY_MINUTES,
        ensures
            tray_step(old(self)@, final(self)@, cmd, cursor, now, r),
    {
        proof {
            use_type_invariant(&*self);
        }
        let mut r = Actions::none();
        match cmd {
            TrayCommand::Open => {
                let mut t = self.tray;
                r.tray = t.remove();
                self.tray = t;
                r.window_visible = Some(true);
            },
            TrayCommand::Start => {
                let tip = self.tray.update_tip();
                r.jiggling_check = Some(true);
                r.timer = self.set_jiggling(true, cursor, now);
                r.tray = tip;
            },
            TrayCommand::Stop => {
                let tip = self.tray.update_tip();
                r.jiggling_check = Some(false);
                r.timer = self.set_jiggling(false, cursor, now);
                r.tray = tip;
            },
            TrayCommand::Exit => {
                r.post_close = true;
            },
        }
        r
    }

    /// Closing the window: allow sleep again, remove the tray icon and
    /// destroy the window.
    pub fn on_close(&mut self) -> (r: Actions)
        ensures
            final(self)@ == (AppView { registered: false, ..old(self)@ }),
            r == (Actions {
                timer: TimerAction::Stop,
                tray: remove_request(old(self)@.registered),
                destroy_window: true,
                ..no_actions()
            }),
    {
        proof {
            use_type_invariant(&*self);
        }
        let mut r = Actions::none();
        r.timer = TimerAction::Stop;
        let mut t = self.tray;
        r.tray = t.remove();
        self.tray = t;
        r.destroy_window = true;
        r
    }

    /// One jiggle tick at local minute `now`, given the current cursor
    /// position (`None` when it could not be read).
    ///
    /// When auto-stop is enabled and the configured minute was reached since
    /// the previous tick, jiggling stops for the day. Otherwise, when the user
    /// moved the cursor since the last position seen, the tick is skipped;
    /// else the pattern's current offset is returned with the interval to the
    /// next tick, the pattern advances, and with random variation the
    /// interval is drawn from 1..=period seconds.
    pub fn on_jiggle_tick(&mut self, cursor: Option<(i32, i32)>, now: u16) -> (r: TickOutcome)
        requires
            now < DAY_MINUTES,
        ensures
            final(self)@.last_minute == Some(now),
            ({
                let s = old(self)@.settings;
                if auto_stop_due(old(self)@, now) {
                    &&& final(self)@ == (AppView {
                        jiggling: false,
                        step: 0,
                        last_minute: Some(now),
                        ..old(self)@
                    })
                    &&& r == TickOutcome::AutoStop(
                        Actions {
                            jiggling_check: Some(false),
                            timer: TimerAction::Stop,
                            tray: tooltip_request(old(self)@.registered),
                            ..no_actions()
                        },
                    )
                } else {
                    let moved = cursor matches Some(now_pos) && old(self)@.pause matches Some(prev)
                        && prev != now_pos;
                    &&& final(self)@ == (AppView {
                        step: final(self)@.step,
                        rng: final(self)@.rng,
                        pause: seen(old(self)@.pause, cursor),
                        last_minute: Some(now),
                        ..old(self)@
                    })
                    &&& if moved {
                        &&& r == TickOutcome::Paused
                        &&& final(self)@.step == old(self)@.step
                        &&& final(self)@.rng == old(self)@.rng
                    } else {
                        &&& r is Jiggle
                        &&& (r->Jiggle_0.dx as int, r->Jiggle_0.dy as int) == delta(
                            s.mode,
                            old(self)@.step as int,
                            s.distance as int,
                        )
                        &&& final(self)@.step == (old(self)@.step + 1) % (pattern(
                            s.mode,
                        ).len() as int)
                        &&& if s.random_timer {
                            let v = draw(final(self)@.rng, 1, s.period_secs);
                            &&& final(self)@.rng == lcg_next(old(self)@.rng)
                            &&& 1 <= v <= s.period_secs
                            &&& r->Jiggle_0.shown_secs == Some(v as u32)
                            &&& r->Jiggle_0.next_ms == interval_ms_spec(v as u32)
                        } else {
                            &&& final(self)@.rng == old(self)@.rng
                            &&& r->Jiggle_0.shown_secs is None
                            &&& r->Jiggle_0.next_ms == interval_ms_spec(s.period_secs)
                        }
                    }
                }
            }),
    {
        proof {
            use_type_invariant(&*self);
        }
        let due = self.jiggling && self.settings.auto_stop_enabled && reached(
            self.last_minute,
            now,
            self.settings.auto_stop_minutes_local,
        );
        self.last_minute = Some(now);
        if due {
            let tip = self.tray.update_tip();
            self.jiggling = false;
            self.step = 0;
            let mut r = Actions::none();
            r.jiggling_check = Some(false);
            r.timer = TimerAction::Stop;
            r.tray = tip;
            return TickOutcome::AutoStop(r);
        }
        let mut p = self.pause;
        let moved = p.has_mouse_moved(cursor);
        self.pause = p;
        if moved {
            return TickOutcome::Paused;
        }
        let mode = self.settings.mode;
        proof {
            crate::jiggle::lemma_pattern_fits(mode, self.settings.distance as int);
        }
        let (dx, dy) = step_delta(mode, self.step, self.settings.distance as i32);
        self.step = (self.step + 1) % pattern_len(mode);
        let (next_secs, shown_secs) = if self.settings.random_timer {
            let mut g = self.rng;
            let v = g.range_inclusive(1, self.settings.period_secs);
            self.rng = g;
            (v, Some(v))
        } else {
            (self.settings.period_secs, None)
        };
        TickOutcome::Jiggle(Tick { dx, dy, next_ms: interval_ms(next_secs), shown_secs })
    }

    /// The tray tooltip describing the current state.
    pub fn tooltip_text(&self) -> (r: String)
        ensures
            r@ == tooltip_spec(self@.jiggling, self@.settings),
            r@.len() <= MAX_TIP,
    {
        proof {
            reveal_strlit("...");
            reveal_strlit("Not jiggling the mouse.");
        }
        if !self.jiggling {
            return String::from_str("Not jiggling the mouse.");
        }
        let s = self.settings;
        let mut t = String::from_str("Jiggling mouse every ");
        push_decimal(&mut t, s.period_secs);
        t.append(" s,");
        if s.random_timer {
            t.append(" with random variation,");
        }
        t.append(" mode: ");
        t.append(s.mode.as_str());
        t.append(" (\u{394} ");
        push_decimal(&mut t, s.distance);
        t.append(").");
        assert(t@ =~= tooltip_full(self.jiggling, s));
        let n = t.as_str().unicode_len();
        if n > MAX_TIP {
            let mut r = String::from_str(t.as_str().substring_char(0, MAX_TIP - 3));
            r.append("...");
            r
        } else {
            t
        }
    }
}

/// Command-line overrides are for the current run only. What a control
/// change persists is always the stored settings, and the stored settings
/// take on only the value the user changed: every other stored value, an
/// overridden one included, stays as it was.
pub proof fn lemma_control_persists_only_user_changes(
    old: AppView,
    new: AppView,
    change: ControlChange,
    cursor: Option<(i32, i32)>,
    now: u16,
    r: Actions,
)
    requires
        control_step(old, new, change, cursor, now, r),
    ensures
        r.persist matches Some(p) ==> p == new.stored,
        !(change is Mode) ==> new.stored.mode == old.stored.mode,
        !(change is Period) ==> new.stored.period_secs == old.stored.period_secs,
        !(change is Distance) ==> new.stored.distance == old.stored.distance,
        !(change is Random) ==> new.stored.random_timer == old.stored.random_timer,
        !(change is MinimizeOnStartup) ==> new.stored.minimize_on_startup
            == old.stored.minimize_on_startup,
        new.stored.auto_stop_enabled == old.stored.auto_stop_enabled,
        new.stored.auto_stop_minutes_local == old.stored.auto_stop_minutes_local,
{
}

/// Start-up, tray commands and ticks never change the stored settings and
/// never persist anything.
pub proof fn lemma_other_steps_keep_stored(
    old: AppView,
    new: AppView,
    cmd: TrayCommand,
    cursor: Option<(i32, i32)>,
    now: u16,
    r: Actions,
)
    ensures
        init_step(old, new, cursor, now, r) ==> new.stored == old.stored && r.persist is None,
        tray_step(old, new, cmd, cursor, now, r) ==> new.stored == old.stored && r.persist
            is None,
{
}

/// Auto-stop fires on the tick whose minute first reaches the configured
/// time: a tick one minute after the previous one reaches exactly that
/// minute, also across midnight, and a tick at the same minute as the
/// previous one reaches nothing.
pub proof fn lemma_minute_reached_steps(prev: u16, target: u16)
    requires
        prev < DAY_MINUTES,
        target < DAY_MINUTES,
    ensures
        ({
            let next = if prev + 1 == DAY_MINUTES { 0u16 } else { (prev + 1) as u16 };
            minute_reached(Some(prev), next, target) <==> target == next
        }),
        !minute_reached(Some(prev), prev, target),
{
}

/// What start-up does, for every well-formed state: the settings panel is
/// shown exactly when asked for; when jiggling is asked for it starts from
/// the first step with the timer at the configured period; when starting
/// minimized the tray icon is shown (added, or its tip refreshed if already
/// there) and the window hidden, whether or not jiggling starts; nothing is
/// persisted and the settings are untouched.
pub proof fn lemma_start_up(
    old: AppView,
    new: AppView,
    cursor: Option<(i32, i32)>,
    now: u16,
    r: Actions,
)
    requires
        wf_view(old),
        init_step(old, new, cursor, now, r),
    ensures
        new.settings_panel_visible == old.show_settings_on_load,
        r.settings_panel == Some(old.show_settings_on_load),
        old.minimize_on_load ==> r.tray == Some(
            if old.registered {
                ShellRequest::Modify
            } else {
                ShellRequest::Add
            },
        ) && r.window_visible == Some(false),
        !old.minimize_on_load ==> r.window_visible is None,
        !old.minimize_on_load && !old.start_jiggling_on_load ==> r.tray is None,
        old.start_jiggling_on_load ==> new.jiggling && new.step == 0 && r.timer
            == TimerAction::Start((old.settings.period_secs * 1000) as u32),
        !old.start_jiggling_on_load ==> new.jiggling == old.jiggling && r.timer
            == TimerAction::Keep,
        new.settings == old.settings,
        new.stored == old.stored,
        r.persist is None,
{
}

/// What each control change does, for every well-formed state: jiggling
/// follows its checkbox and restarts the pattern; the panel follows its
/// checkbox; the tray button hides the window into the tray; a mode, period,
/// distance, random or minimize change sets that value (numbers clamped to
/// 1..=10800 seconds and 1..=120) both in effect and stored, persists the
/// stored settings and leaves jiggling as it was; the period label shows the
/// new period and a running timer restarts with it.
pub proof fn lemma_control_effects(
    old: AppView,
    new: AppView,
    change: ControlChange,
    cursor: Option<(i32, i32)>,
    now: u16,
    r: Actions,
)
    requires
        wf_view(old),
        control_step(old, new, change, cursor, now, r),
    ensures
        change matches ControlChange::Jiggling(on) ==> new.jiggling == on && new.step == 0
            && r.timer == if on {
            TimerAction::Start((old.settings.period_secs * 1000) as u32)
        } else {
            TimerAction::Stop
        },
        change matches ControlChange::SettingsPanel(on) ==> new.settings_panel_visible == on
            && r.settings_panel == Some(on),
        change is Trayify ==> r.window_visible == Some(false) && r.tray is Some && new == old,
        change is About ==> r.show_about && new == old,
        !(change is Jiggling) ==> new.jiggling == old.jiggling,
        change matches ControlChange::Mode(idx) ==> (idx == 0 ==> new.settings.mode
            == Mode::Normal) && (idx == 1 ==> new.settings.mode == Mode::Zen) && (idx == 2
            ==> new.settings.mode == Mode::Circle) && (idx == 3 ==> new.settings.mode
            == Mode::Linear) && (idx < 4 ==> new.stored.mode == new.settings.mode && new.step == 0
            && r.persist == Some(new.stored)) && (idx >= 4 ==> new == old && r.persist is None),
        change matches ControlChange::Period(raw) ==> 1 <= new.settings.period_secs <= 10800 && (1
            <= raw <= 10800 ==> new.settings.period_secs == raw) && new.stored.period_secs
            == new.settings.period_secs && r.persist == Some(new.stored) && r.period_display
            == Some(new.settings.period_secs) && r.timer == if old.jiggling {
            TimerAction::Restart((new.settings.period_secs * 1000) as u32)
        } else {
            TimerAction::Keep
        },
        change matches ControlChange::Distance(raw) ==> 1 <= new.settings.distance <= 120 && (1
            <= raw <= 120 ==> new.settings.distance == raw) && new.stored.distance
            == new.settings.distance && new.step == 0 && r.persist == Some(new.stored),
        change matches ControlChange::Random(on) ==> new.settings.random_timer == on
            && new.stored.random_timer == on && r.persist == Some(new.stored),
        change matches ControlChange::MinimizeOnStartup(on) ==> new.settings.minimize_on_startup
            == on && new.stored.minimize_on_startup == on && r.persist == Some(new.stored),
{
}

/// What each tray command does: Open removes the icon and shows the window,
/// Start and Stop switch jiggling (ticking its checkbox), Exit asks the
/// window to close; none of them changes or persists settings.
pub proof fn lemma_tray_command_effects(
    old: AppView,
    new: AppView,
    cmd: TrayCommand,
    cursor: Option<(i32, i32)>,
    now: u16,
    r: Actions,
)
    requires
        wf_view(old),
        tray_step(old, new, cmd, cursor, now, r),
    ensures
        cmd is Open ==> !new.registered && r.window_visible == Some(true) && new.jiggling
            == old.jiggling,
        cmd is Start ==> new.jiggling && new.step == 0 && r.jiggling_check == Some(true)
            && r.timer == TimerAction::Start((old.settings.period_secs * 1000) as u32),
        cmd is Stop ==> !new.jiggling && r.jiggling_check == Some(false) && r.timer
            == TimerAction::Stop,
        cmd is Exit ==> r.post_close && new == old,
        new.settings == old.settings,
        r.persist is None,
{
}

/// Auto-stop only ever stops a running jiggle that has auto-stop enabled,
/// and it does stop one when the tick falls on the configured minute right
/// after the previous tick's minute.
pub proof fn lemma_auto_stop_when(s: AppView, now: u16)
    requires
        wf_view(s),
        now < DAY_MINUTES,
    ensures
        !s.jiggling || !s.settings.auto_stop_enabled ==> !auto_stop_due(s, now),
        s.jiggling && s.settings.auto_stop_enabled && now == s.settings.auto_stop_minutes_local
            && now >= 1 && s.last_minute == Some((now - 1) as u16) ==> auto_stop_due(s, now),
        s.last_minute == Some(now) ==> !auto_stop_due(s, now),
{
}

/// The control table: each control's notification is recognised outside
/// initialisation; while initialising, only the combo-box selection and the
/// two edit boxes are ignored; the initialising flag only ever suppresses a
/// notification, never produces one; and only the nine controls produce any.
pub proof fn lemma_control_table(id: int, notify: int)
    ensures
        control_of(1001, 0, false) == Some(Control::JigglingClicked),
        control_of(1002, 0, false) == Some(Control::SettingsClicked),
        control_of(1050, 0, false) == Some(Control::TrayifyClicked),
        control_of(1051, 0, false) == Some(Control::AboutClicked),
        control_of(1011, 1, false) == Some(Control::ModeChanged),
        control_of(1021, 0x300, false) == Some(Control::PeriodChanged),
        control_of(1031, 0x300, false) == Some(Control::DistanceChanged),
        control_of(1040, 0, false) == Some(Control::RandomClicked),
        control_of(1041, 0, false) == Some(Control::MinimizeClicked),
        control_of(1011, 1, true) is None,
        control_of(1021, 0x300, true) is None,
        control_of(1031, 0x300, true) is None,
        notify == 0 ==> control_of(id, notify, true) == control_of(id, notify, false),
        control_of(id, notify, true) matches Some(c) ==> control_of(id, notify, false) == Some(c),
        control_of(id, notify, false) is Some ==> id == 1001 || id == 1002 || id == 1050 || id
            == 1051 || id == 1011 || id == 1021 || id == 1031 || id == 1040 || id == 1041,
{
}

/// A `WM_COMMAND` wParam carrying control `id` in its low word and
/// notification `notify` in its high word decodes to exactly those.
pub proof fn lemma_command_word(id: usize, notify: usize)
    requires
        id < 0x10000,
        notify < 0x10000,
    ensures
        command_id((notify << 16usize) | id) == id,
        command_notify((notify << 16usize) | id) == notify,
{
    assert(((notify << 16usize) | id) & 0xFFFFusize == id) by (bit_vector)
        requires
            id < 0x10000usize,
            notify < 0x10000usize,
    ;
    assert((((notify << 16usize) | id) >> 16usize) & 0xFFFFusize == notify) by (bit_vector)
        requires
            id < 0x10000usize,
            notify < 0x10000usize,
    ;
}

/// The tray menu ids stand for their commands and no other id does.
pub proof fn lemma_tray_command_table(cmd: u32)
    ensures
        tray_command_of(3001) == Some(TrayCommand::Open),
        tray_command_of(3002) == Some(TrayCommand::Start),
        tray_command_of(3003) == Some(TrayCommand::Stop),
        tray_command_of(3004) == Some(TrayCommand::Exit),
        !(3001 <= cmd <= 3004) ==> tray_command_of(cmd) is None,
{
}

/// The tray's context menu offers Open, then Stop while jiggling and Start
/// otherwise, then Exit, and each of its items is the command it shows.
pub proof fn lemma_context_menu_commands(jiggling: bool)
    ensures
        ({
            let m = context_menu_spec(jiggling);
            &&& m.len() == 5
            &&& m[1] == MenuEntry::Separator && m[3] == MenuEntry::Separator
            &&& m[0] matches MenuEntry::Item(id) && tray_command_of(id) == Some(TrayCommand::Open)
            &&& m[2] matches MenuEntry::Item(id) && tray_command_of(id) == Some(
                if jiggling {
                    TrayCommand::Stop
                } else {
                    TrayCommand::Start
                },
            )
            &&& m[4] matches MenuEntry::Item(id) && tray_command_of(id) == Some(TrayCommand::Exit)
        }),
{
}

/// Whether the local time moving from `prev` to `now` reaches `target`.
pub fn reached(prev: Option<u16>, now: u16, target: u16) -> (r: bool)
    ensures
        r == minute_reached(prev, now, target),
{
    match prev {
        None => target == now,
        Some(p) => if p <= now {
            p < target && target <= now
        } else {
            p < target || target <= now
        },
    }
}

} // verus!
