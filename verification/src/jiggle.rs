//! Jiggle modes and their movement patterns, and the smart-pause detector.
use vstd::prelude::*;

use crate::util::{ascii_lower_seq, str_eq, to_ascii_lowercase};

verus! {

/// The four jiggle patterns.
#[derive(Copy, Clone, Debug, PartialEq, Eq, Structural)]
pub enum Mode {
    Normal,
    Zen,
    Circle,
    Linear,
}

/// The display name of a mode.
pub open spec fn mode_name(mode: Mode) -> Seq<char> {
    match mode {
        Mode::Normal => "Normal"@,
        Mode::Zen => "Zen"@,
        Mode::Circle => "Circle"@,
        Mode::Linear => "Linear"@,
    }
}

/// The mode a name denotes, compared without regard to ASCII case.
pub open spec fn mode_from_name(s: Seq<char>) -> Option<Mode> {
    let l = ascii_lower_seq(s);
    if l == "normal"@ {
        Some(Mode::Normal)
    } else if l == "zen"@ {
        Some(Mode::Zen)
    } else if l == "circle"@ {
        Some(Mode::Circle)
    } else if l == "linear"@ {
        Some(Mode::Linear)
    } else {
        None
    }
}

/// Every mode, in the order the mode selector lists them.
pub open spec fn all_modes() -> Seq<Mode> {
    seq![Mode::Normal, Mode::Zen, Mode::Circle, Mode::Linear]
}

impl Mode {
    pub fn as_str(self) -> (r: &'static str)
        ensures
            r@ == mode_name(self),
    {
        match self {
            Mode::Normal => "Normal",
            Mode::Zen => "Zen",
            Mode::Circle => "Circle",
            Mode::Linear => "Linear",
        }
    }

    /// Parses a mode name, ignoring ASCII case.
    pub fn parse(s: &str) -> (r: Option<Mode>)
        ensures
            r == mode_from_name(s@),
    {
        let l = to_ascii_lowercase(s);
        let l = l.as_str();
        if str_eq(l, "normal") {
            Some(Mode::Normal)
        } else if str_eq(l, "zen") {
            Some(Mode::Zen)
        } else if str_eq(l, "circle") {
            Some(Mode::Circle)
        } else if str_eq(l, "linear") {
            Some(Mode::Linear)
        } else {
            None
        }
    }

    pub fn all() -> (r: &'static [Mode])
        ensures
            r@ == all_modes(),
    {
        &[Mode::Normal, Mode::Zen, Mode::Circle, Mode::Linear]
    }
}

/// The base movement pattern of a mode at distance 1.
pub open spec fn pattern(mode: Mode) -> Seq<(i32, i32)> {
    match mode {
        Mode::Normal => seq![(4i32, 4i32), (-4i32, -4i32)],
        Mode::Zen => seq![(0i32, 0i32)],
        Mode::Circle => seq![
            (3i32, 2i32),
            (2i32, 3i32),
            (-2i32, 3i32),
            (-3i32, 2i32),
            (-3i32, -2i32),
            (-2i32, -3i32),
            (2i32, -3i32),
            (3i32, -2i32),
        ],
        Mode::Linear => seq![(4i32, 0i32), (-4i32, 0i32)],
    }
}

pub fn base_pattern(mode: Mode) -> (r: &'static [(i32, i32)])
    ensures
        r@ == pattern(mode),
{
    match mode {
        Mode::Normal => &[(4, 4), (-4, -4)],
        Mode::Zen => &[(0, 0)],
        Mode::Circle => &[(3, 2), (2, 3), (-2, 3), (-3, 2), (-3, -2), (-2, -3), (2, -3), (3, -2)],
        Mode::Linear => &[(4, 0), (-4, 0)],
    }
}


/// The offset of step `step` of a mode's pattern, scaled by `distance`.
pub open spec fn delta(mode: Mode, step: int, distance: int) -> (int, int) {
    let p = pattern(mode);
    let e = p[step % (p.len() as int)];
    (e.0 * distance, e.1 * distance)
}

/// Whether every scaled offset of a mode's pattern fits in an `i32`.
pub open spec fn scaled_pattern_fits(mode: Mode, distance: int) -> bool {
    forall|k: int|
        0 <= k < pattern(mode).len() ==> {
            let e = #[trigger] pattern(mode)[k];
            &&& i32::MIN <= e.0 * distance <= i32::MAX
            &&& i32::MIN <= e.1 * distance <= i32::MAX
        }
}

/// Every offset of every pattern lies within -4..=4 on each axis.
pub proof fn lemma_pattern_bounded(mode: Mode, k: int)
    requires
        0 <= k < pattern(mode).len(),
    ensures
        -4 <= pattern(mode)[k].0 <= 4,
        -4 <= pattern(mode)[k].1 <= 4,
{
}

/// Scaled by any distance up to 120, every offset fits in an `i32`.
pub proof fn lemma_pattern_fits(mode: Mode, distance: int)
    requires
        0 <= distance <= 120,
    ensures
        scaled_pattern_fits(mode, distance),
{
    assert forall|k: int| 0 <= k < pattern(mode).len() implies {
        let e = #[trigger] pattern(mode)[k];
        &&& i32::MIN <= e.0 * distance <= i32::MAX
        &&& i32::MIN <= e.1 * distance <= i32::MAX
    } by {
        lemma_pattern_bounded(mode, k);
        let e = pattern(mode)[k];
        let x = e.0 as int;
        let y = e.1 as int;
        assert(-480 <= x * distance <= 480) by (nonlinear_arith)
            requires
                -4 <= x <= 4,
                0 <= distance <= 120,
        ;
        assert(-480 <= y * distance <= 480) by (nonlinear_arith)
            requires
                -4 <= y <= 4,
                0 <= distance <= 120,
        ;
    }
}

/// Returns the (dx, dy) for the given mode/step at the given distance multiplier.
pub fn step_delta(mode: Mode, step: usize, distance: i32) -> (r: (i32, i32))
    requires
        scaled_pattern_fits(mode, distance as int),
    ensures
        (r.0 as int, r.1 as int) == delta(mode, step as int, distance as int),
{
    let p = base_pattern(mode);
    let k = step % p.len();
    let (dx, dy) = p[k];
    assert(pattern(mode)[k as int] == (dx, dy));
    (dx * distance, dy * distance)
}

pub fn pattern_len(mode: Mode) -> (r: usize)
    ensures
        r == pattern(mode).len(),
        r >= 1,
{
    base_pattern(mode).len()
}

/// Smart-pause: detect user-initiated cursor movement between ticks.
#[derive(Copy, Clone)]
pub struct PauseDetector {
    last: Option<(i32, i32)>,
}

impl View for PauseDetector {
    /// The last cursor position seen, if any.
    type V = Option<(i32, i32)>;

    closed spec fn view(&self) -> Option<(i32, i32)> {
        self.last
    }
}

impl Default for PauseDetector {
    fn default() -> (r: PauseDetector)
        ensures
            r@ is None,
    {
        PauseDetector { last: None }
    }
}

impl PauseDetector {
    /// Takes the current cursor position (`None` when it could not be read)
    /// and reports whether the cursor moved since the last position seen.
    pub fn has_mouse_moved(&mut self, cursor: Option<(i32, i32)>) -> (moved: bool)
        ensures
            match cursor {
                None => !moved && final(self)@ == old(self)@,
                Some(now) => {
                    &&& moved == (old(self)@ matches Some(prev) && prev != now)
                    &&& final(self)@ == Some(now)
                },
            },
    {
        match cursor {
            None => false,
            Some(now) => {
                let moved = match self.last {
                    Some(prev) => prev.0 != now.0 || prev.1 != now.1,
                    None => false,
                };
                self.last = Some(now);
                moved
            },
        }
    }

    /// Records the current cursor position (`None` when it could not be read).
    pub fn update_position(&mut self, cursor: Option<(i32, i32)>)
        ensures
            final(self)@ == match cursor {
                None => old(self)@,
                Some(p) => Some(p),
            },
    {
        if let Some(p) = cursor {
            self.last = Some(p);
        }
    }
}


/// Parsing the display name of a mode gives back that mode.
pub proof fn lemma_parse_name_round_trip(mode: Mode)
    ensures
        mode_from_name(mode_name(mode)) == Some(mode),
{
    reveal_strlit("Normal");
    reveal_strlit("normal");
    reveal_strlit("Zen");
    reveal_strlit("zen");
    reveal_strlit("Circle");
    reveal_strlit("circle");
    reveal_strlit("Linear");
    reveal_strlit("linear");
    match mode {
        Mode::Normal => {
            assert(ascii_lower_seq("Normal"@) =~= "normal"@);
        },
        Mode::Zen => {
            assert(ascii_lower_seq("Zen"@) =~= "zen"@);
            assert("zen"@ != "normal"@);
        },
        Mode::Circle => {
            assert(ascii_lower_seq("Circle"@) =~= "circle"@);
            assert("circle"@[0] != "normal"@[0]);
            assert("circle"@ != "zen"@);
        },
        Mode::Linear => {
            assert(ascii_lower_seq("Linear"@) =~= "linear"@);
            assert("linear"@[0] != "normal"@[0]);
            assert("linear"@ != "zen"@);
            assert("linear"@[0] != "circle"@[0]);
        },
    }
}

/// Mode names are matched without regard to ASCII case: lower-casing a name
/// first does not change which mode it denotes.
pub proof fn lemma_parse_ignores_ascii_case(s: Seq<char>)
    ensures
        mode_from_name(ascii_lower_seq(s)) == mode_from_name(s),
{
    assert(ascii_lower_seq(ascii_lower_seq(s)) =~= ascii_lower_seq(s));
}

/// The pattern repeats: step `k` and step `k + len` move the cursor alike.
pub proof fn lemma_delta_periodic(mode: Mode, step: nat, distance: int)
    ensures
        delta(mode, (step + pattern(mode).len()) as int, distance) == delta(mode, step as int, distance),
{
    let n = pattern(mode).len() as int;
    vstd::arithmetic::div_mod::lemma_mod_add_multiples_vanish(step as int, n);
}

/// The sum of the first `n` offsets of a mode's pattern scaled by
/// `distance`: where the cursor stands after `n` ticks.
pub open spec fn travelled(mode: Mode, distance: int, n: nat) -> (int, int)
    decreases n,
{
    if n == 0 {
        (0, 0)
    } else {
        let prev = travelled(mode, distance, (n - 1) as nat);
        let d = delta(mode, n - 1, distance);
        (prev.0 + d.0, prev.1 + d.1)
    }
}

/// Within one cycle, tick `k` moves the cursor by entry `k` of the pattern,
/// scaled by the distance on both axes.
pub proof fn lemma_delta_in_cycle(mode: Mode, k: int, distance: int)
    requires
        0 <= k < pattern(mode).len(),
    ensures
        delta(mode, k, distance) == (
            pattern(mode)[k].0 * distance,
            pattern(mode)[k].1 * distance,
        ),
{
    vstd::arithmetic::div_mod::lemma_small_mod(k as nat, pattern(mode).len());
}

/// A full cycle of any pattern, at any distance, brings the cursor back to
/// where it started: jiggling never moves the cursor away for good.
pub proof fn lemma_cycle_returns_cursor(mode: Mode, distance: int)
    ensures
        travelled(mode, distance, pattern(mode).len()) == (0int, 0int),
{
    let d = distance;
    match mode {
        Mode::Normal => {
            lemma_delta_in_cycle(mode, 0, d);
            lemma_delta_in_cycle(mode, 1, d);
            assert(travelled(mode, d, 0) == (0int, 0int));
            assert(pattern(mode)[0] == (4i32, 4i32));
            assert(pattern(mode)[1] == (-4i32, -4i32));
            assert(travelled(mode, d, 1) == (4 * d, 4 * d));
            assert(travelled(mode, d, 2) == (0int, 0int));
        },
        Mode::Zen => {
            lemma_delta_in_cycle(mode, 0, d);
            assert(travelled(mode, d, 0) == (0int, 0int));
            assert(pattern(mode)[0] == (0i32, 0i32));
            assert(travelled(mode, d, 1) == (0int, 0int));
        },
        Mode::Circle => {
            lemma_delta_in_cycle(mode, 0, d);
            lemma_delta_in_cycle(mode, 1, d);
            lemma_delta_in_cycle(mode, 2, d);
            lemma_delta_in_cycle(mode, 3, d);
            lemma_delta_in_cycle(mode, 4, d);
            lemma_delta_in_cycle(mode, 5, d);
            lemma_delta_in_cycle(mode, 6, d);
            lemma_delta_in_cycle(mode, 7, d);
            assert(travelled(mode, d, 0) == (0int, 0int));
            let p = pattern(mode);
            assert(p[0] == (3i32, 2i32) && p[1] == (2i32, 3i32) && p[2] == (-2i32, 3i32) && p[3]
                == (-3i32, 2i32) && p[4] == (-3i32, -2i32) && p[5] == (-2i32, -3i32) && p[6] == (
            2i32, -3i32) && p[7] == (3i32, -2i32));
            assert(travelled(mode, d, 1) == (3 * d, 2 * d));
            assert(travelled(mode, d, 2) == (5 * d, 5 * d));
            assert(travelled(mode, d, 3) == (3 * d, 8 * d));
            assert(travelled(mode, d, 4) == (0 * d, 10 * d));
            assert(travelled(mode, d, 5) == (-3 * d, 8 * d));
            assert(travelled(mode, d, 6) == (-5 * d, 5 * d));
            assert(travelled(mode, d, 7) == (-3 * d, 2 * d));
            assert(travelled(mode, d, 8) == (0int, 0int));
        },
        Mode::Linear => {
            lemma_delta_in_cycle(mode, 0, d);
            lemma_delta_in_cycle(mode, 1, d);
            assert(travelled(mode, d, 0) == (0int, 0int));
            assert(pattern(mode)[0] == (4i32, 0i32));
            assert(pattern(mode)[1] == (-4i32, 0i32));
            assert(pattern(mode)[1].1 * d == 0) by (nonlinear_arith)
                requires
                    pattern(mode)[1].1 == 0,
            ;
            assert(pattern(mode)[0].1 * d == 0) by (nonlinear_arith)
                requires
                    pattern(mode)[0].1 == 0,
            ;
            assert(travelled(mode, d, 1) == (4 * d, 0int));
            assert(travelled(mode, d, 2) == (0int, 0int));
        },
    }
}

/// The offsets of each pattern at distance 1, in order: Normal moves
/// diagonally there and back, Zen stays still, Circle walks the eight
/// points around the start, Linear moves horizontally there and back.
pub proof fn lemma_patterns_at_distance_one()
    ensures
        pattern(Mode::Normal) == seq![(4i32, 4i32), (-4i32, -4i32)],
        pattern(Mode::Zen) == seq![(0i32, 0i32)],
        pattern(Mode::Circle) == seq![
            (3i32, 2i32),
            (2i32, 3i32),
            (-2i32, 3i32),
            (-3i32, 2i32),
            (-3i32, -2i32),
            (-2i32, -3i32),
            (2i32, -3i32),
            (3i32, -2i32),
        ],
        pattern(Mode::Linear) == seq![(4i32, 0i32), (-4i32, 0i32)],
        forall|k: int| 0 <= k < 8 ==> {
            let e = #[trigger] pattern(Mode::Circle)[k];
            &&& (e.0 == 3 || e.0 == -3) && (e.1 == 2 || e.1 == -2) || (e.0 == 2 || e.0 == -2) && (
            e.1 == 3 || e.1 == -3)
        },
{
}

/// Zen mode never moves the cursor.
pub proof fn lemma_zen_is_still(step: nat, distance: int)
    ensures
        delta(Mode::Zen, step as int, distance) == (0int, 0int),
{
}

} // verus!
