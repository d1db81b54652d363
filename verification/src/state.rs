//! The timer state machine: phases, time accounting, and completion ratio.

use vstd::prelude::*;

use crate::config::Config;
use crate::sat_add;
use crate::sat_add_spec;

verus! {

use vstd::string::*;

/// Which active phase a pause interrupted.
#[derive(Clone, Copy, Debug, PartialEq, Eq, Structural)]
pub enum PauseKind {
    Work,
    Break,
}

/// The timer's current operating mode.
#[derive(Clone, Copy, Debug, PartialEq, Eq, Structural)]
pub enum StateKind {
    Begin,
    Pause(PauseKind),
    Work,
    Break,
}

impl StateKind {
    /// An active phase accumulates time and therefore needs tick events.
    pub fn needs_tick(&self) -> (r: bool)
        ensures
            r == (*self == StateKind::Work || *self == StateKind::Break),
    {
        match self {
            StateKind::Begin | StateKind::Pause(_) => false,
            StateKind::Work | StateKind::Break => true,
        }
    }

    pub fn is_paused(&self) -> (r: bool)
        ensures
            r == (*self is Pause),
    {
        match self {
            StateKind::Pause(_) => true,
            _ => false,
        }
    }
}

/// The ratio scale: [`State::completed_ratio`] reports thousandths, so this
/// value stands for a fully completed phase.
pub const RATIO_FULL: u32 = 1000;

/// The timer state machine. All durations and instants are in milliseconds;
/// instants count from any fixed origin the host picks, as only their
/// differences matter.
pub struct State {
    /// The current phase.
    pub kind: StateKind,
    /// The instant of the last counted tick; present exactly while a phase
    /// is active, and cleared on pause and stop so that wall time spent
    /// paused is never counted.
    pub prev_tick: Option<u64>,
    /// Time accumulated in the current phase since it last started or
    /// resumed; finalized (banked or spent) and zeroed by [`State::stop`].
    pub elapsed: u64,
    /// Break time earned but not yet spent.
    pub saved_break_time: u64,
    /// Length of one work session.
    pub work_bound_duration: u64,
    /// Worked time divided by this yields the break time earned.
    pub break_divisor: u64,
    /// Whether finishing work flows straight into a break.
    pub auto_break: bool,
}

impl State {
    /// A tick instant is recorded exactly while a phase is active.
    pub open spec fn wf(self) -> bool {
        self.prev_tick is Some <==> (self.kind == StateKind::Work || self.kind
            == StateKind::Break)
    }

    /// What one tick at instant `now` does: while a tick instant is
    /// recorded, the time since it is added to `elapsed` (clamping at the
    /// integer bound, and counting nothing if the clock ran backwards) and
    /// `now` is recorded; otherwise nothing happens.
    pub open spec fn tick_spec(self, now: u64) -> State {
        match self.prev_tick {
            Option::None => self,
            Option::Some(prev) => State {
                elapsed: sat_add_spec(
                    self.elapsed,
                    if now >= prev {
                        (now - prev) as u64
                    } else {
                        0
                    },
                ),
                prev_tick: Option::Some(now),
                ..self
            },
        }
    }

    /// What starting or resuming at instant `now` does: an interrupted
    /// phase resumes, `Begin` starts working, an active phase only has its
    /// tick instant refreshed. `elapsed` and the banked break are kept.
    pub open spec fn start_spec(self, now: u64) -> State {
        State {
            prev_tick: Option::Some(now),
            kind: match self.kind {
                StateKind::Begin | StateKind::Pause(PauseKind::Work) => StateKind::Work,
                StateKind::Pause(PauseKind::Break) => StateKind::Break,
                StateKind::Work => StateKind::Work,
                StateKind::Break => StateKind::Break,
            },
            ..self
        }
    }

    /// The break time one stop of a work phase earns: the elapsed work time
    /// divided by the divisor, or nothing under a degenerate divisor of zero.
    pub open spec fn earned_break_spec(self) -> u64 {
        if self.break_divisor == 0 {
            0
        } else {
            (self.elapsed as int / self.break_divisor as int) as u64
        }
    }

    /// What skipping to the next phase at instant `now` does. From a work
    /// phase the earned break is banked and the timer moves on to breaking
    /// (straight away under `auto_break`, else paused); from a break phase
    /// the elapsed time is spent from the bank, floored at zero, and the
    /// timer parks at `Pause(Work)`. Either way the running phase's
    /// accounting is finalized: `elapsed` is zeroed. From `Begin` nothing
    /// happens.
    pub open spec fn stop_spec(self, now: u64) -> State {
        match self.kind {
            StateKind::Begin => State { prev_tick: Option::None, ..self },
            StateKind::Work | StateKind::Pause(PauseKind::Work) => State {
                kind: if self.auto_break {
                    StateKind::Break
                } else {
                    StateKind::Pause(PauseKind::Break)
                },
                prev_tick: if self.auto_break {
                    Option::Some(now)
                } else {
                    Option::None
                },
                elapsed: 0,
                saved_break_time: sat_add_spec(self.saved_break_time, self.earned_break_spec()),
                ..self
            },
            StateKind::Break | StateKind::Pause(PauseKind::Break) => State {
                kind: StateKind::Pause(PauseKind::Work),
                prev_tick: Option::None,
                elapsed: 0,
                saved_break_time: if self.elapsed <= self.saved_break_time {
                    (self.saved_break_time - self.elapsed) as u64
                } else {
                    0
                },
                ..self
            },
        }
    }

    /// What pausing does: an active phase is interrupted, remembering which
    /// one it was; other phases are left alone. Neither `elapsed` nor the
    /// banked break is touched.
    pub open spec fn pause_spec(self) -> State {
        State {
            prev_tick: Option::None,
            kind: match self.kind {
                StateKind::Work => StateKind::Pause(PauseKind::Work),
                StateKind::Break => StateKind::Pause(PauseKind::Break),
                k => k,
            },
            ..self
        }
    }

    /// How far along the current phase is, in thousandths clamped to
    /// [`RATIO_FULL`]: nothing in `Begin`, elapsed over the session length
    /// in work phases, elapsed over the banked break in break phases.
    pub open spec fn ratio_spec(self) -> int {
        match self.kind {
            StateKind::Begin => 0,
            StateKind::Work | StateKind::Pause(PauseKind::Work) => clamped_permille_spec(
                self.elapsed,
                self.work_bound_duration,
            ),
            StateKind::Break | StateKind::Pause(PauseKind::Break) => clamped_permille_spec(
                self.elapsed,
                self.saved_break_time,
            ),
        }
    }

    /// A fresh, idle timer configured from `config`.
    pub fn from_config(config: &Config) -> (s: State)
        ensures
            s.kind == StateKind::Begin,
            s.prev_tick is None,
            s.elapsed == 0,
            s.saved_break_time == 0,
            s.work_bound_duration == config.work_expected_duration,
            s.break_divisor == config.break_divisor,
            s.auto_break == config.auto_break,
            s.wf(),
    {
        let mut this = State {
            kind: StateKind::Begin,
            prev_tick: None,
            elapsed: 0,
            saved_break_time: 0,
            work_bound_duration: 0,
            break_divisor: DEFAULT_DIVISOR,
            auto_break: false,
        };
        this.update_config(config);
        this
    }

    /// Takes over the configurable bounds; the phase and all accumulated
    /// time are kept.
    pub fn update_config(&mut self, config: &Config)
        ensures
            *final(self) == (State {
                work_bound_duration: config.work_expected_duration,
                break_divisor: config.break_divisor,
                auto_break: config.auto_break,
                ..*old(self)
            }),
    {
        self.work_bound_duration = config.work_expected_duration;
        self.break_divisor = config.break_divisor;
        self.auto_break = config.auto_break;
    }

    pub fn kind(&self) -> (k: &StateKind)
        ensures
            *k == self.kind,
    {
        &self.kind
    }

    /// Counts the time since the previous tick and records this one;
    /// a no-op while no phase is active. See [`State::tick_spec`].
    pub fn on_tick_at(&mut self, now: u64)
        ensures
            *final(self) == old(self).tick_spec(now),
            final(self).kind == old(self).kind,
            final(self).elapsed >= old(self).elapsed,
            old(self).wf() ==> final(self).wf(),
    {
        let prev = match self.prev_tick {
            Option::None => {
                return ;
            },
            Option::Some(p) => p,
        };
        let delta = if now >= prev {
            now - prev
        } else {
            0
        };
        self.elapsed = sat_add(self.elapsed, delta);
        self.prev_tick = Some(now);
    }

    /// Starts or resumes at instant `now`. See [`State::start_spec`].
    pub fn start(&mut self, now: u64)
        ensures
            *final(self) == old(self).start_spec(now),
            final(self).elapsed == old(self).elapsed,
            final(self).saved_break_time == old(self).saved_break_time,
            final(self).wf(),
    {
        self.prev_tick = Some(now);
        self.kind = match self.kind {
            StateKind::Begin | StateKind::Pause(PauseKind::Work) => StateKind::Work,
            StateKind::Pause(PauseKind::Break) => StateKind::Break,
            StateKind::Work => StateKind::Work,
            StateKind::Break => StateKind::Break,
        };
    }

    /// Finalizes the running phase's accounting and skips to the next
    /// phase; `now` is recorded only when a break starts right away under
    /// `auto_break`. See [`State::stop_spec`].
    pub fn stop(&mut self, now: u64)
        ensures
            *final(self) == old(self).stop_spec(now),
            old(self).wf() ==> final(self).wf(),
    {
        match self.kind {
            StateKind::Begin => {
                self.prev_tick = None;
            },
            StateKind::Work | StateKind::Pause(PauseKind::Work) => {
                let earned = if self.break_divisor == 0 {
                    0
                } else {
                    self.elapsed / self.break_divisor
                };
                self.saved_break_time = sat_add(self.saved_break_time, earned);
                self.elapsed = 0;
                if self.auto_break {
                    self.prev_tick = Some(now);
                    self.kind = StateKind::Break;
                } else {
                    self.prev_tick = None;
                    self.kind = StateKind::Pause(PauseKind::Break);
                }
            },
            StateKind::Break | StateKind::Pause(PauseKind::Break) => {
                self.saved_break_time = if self.elapsed <= self.saved_break_time {
                    self.saved_break_time - self.elapsed
                } else {
                    0
                };
                self.elapsed = 0;
                self.prev_tick = None;
                self.kind = StateKind::Pause(PauseKind::Work);
            },
        }
    }

    /// Interrupts an active phase without touching any accounting.
    /// See [`State::pause_spec`].
    pub fn pause(&mut self)
        ensures
            *final(self) == old(self).pause_spec(),
            final(self).elapsed == old(self).elapsed,
            final(self).saved_break_time == old(self).saved_break_time,
            old(self).wf() ==> final(self).wf(),
    {
        self.prev_tick = None;
        self.kind = match self.kind {
            StateKind::Work => StateKind::Pause(PauseKind::Work),
            StateKind::Break => StateKind::Pause(PauseKind::Break),
            k => k,
        };
    }

    /// How far along the current phase is, in thousandths of its bound,
    /// clamped to [`RATIO_FULL`].
    pub fn completed_ratio(&self) -> (r: u32)
        ensures
            r == self.ratio_spec(),
            r <= RATIO_FULL,
    {
        match self.kind {
            StateKind::Begin => 0,
            StateKind::Work | StateKind::Pause(PauseKind::Work) => clamped_permille(
                self.elapsed,
                self.work_bound_duration,
            ),
            StateKind::Break | StateKind::Pause(PauseKind::Break) => clamped_permille(
                self.elapsed,
                self.saved_break_time,
            ),
        }
    }

    /// Whether the current phase has used up its whole bound.
    pub fn is_completed(&self) -> (r: bool)
        ensures
            r == (self.ratio_spec() == RATIO_FULL),
    {
        self.completed_ratio() == RATIO_FULL
    }
}

impl State {
    /// The human-readable name of the current phase.
    pub open spec fn name_spec(self) -> Seq<char> {
        match self.kind {
            StateKind::Begin => "Ready to start"@,
            StateKind::Pause(PauseKind::Work) => "Pause (Work)"@,
            StateKind::Pause(PauseKind::Break) => "Pause (Break)"@,
            StateKind::Work => "Working"@,
            StateKind::Break => "Breaking"@,
        }
    }

    /// The human-readable name of the current phase.
    pub fn name(&self) -> (r: String)
        ensures
            r@ == self.name_spec(),
    {
        match self.kind {
            StateKind::Begin => String::from_str("Ready to start"),
            StateKind::Pause(PauseKind::Work) => String::from_str("Pause (Work)"),
            StateKind::Pause(PauseKind::Break) => String::from_str("Pause (Break)"),
            StateKind::Work => String::from_str("Working"),
            StateKind::Break => String::from_str("Breaking"),
        }
    }

    /// The elapsed time and the bound it runs against, as the current phase
    /// shows them: zeros in `Begin`, the session length in work phases, the
    /// banked break in break phases.
    pub open spec fn shown_times_spec(self) -> (u64, u64) {
        match self.kind {
            StateKind::Begin => (0u64, 0u64),
            StateKind::Work | StateKind::Pause(PauseKind::Work) => (
                self.elapsed,
                self.work_bound_duration,
            ),
            StateKind::Break | StateKind::Pause(PauseKind::Break) => (
                self.elapsed,
                self.saved_break_time,
            ),
        }
    }

    /// The timer line: elapsed and bound, both as `H:MM:SS`, side by side.
    pub open spec fn time_spec(self) -> Seq<char> {
        duration_str_spec(self.shown_times_spec().0 as int) + "    / "@ + duration_str_spec(
            self.shown_times_spec().1 as int,
        )
    }

    /// The timer line: elapsed and bound, both as `H:MM:SS`, side by side.
    pub fn time(&self) -> (r: String)
        ensures
            r@ == self.time_spec(),
    {
        let (elapsed, limit) = match self.kind {
            StateKind::Begin => (0u64, 0u64),
            StateKind::Work | StateKind::Pause(PauseKind::Work) => (
                self.elapsed,
                self.work_bound_duration,
            ),
            StateKind::Break | StateKind::Pause(PauseKind::Break) => (
                self.elapsed,
                self.saved_break_time,
            ),
        };
        let mut out = duration_to_str(elapsed);
        out.append("    / ");
        let limit_str = duration_to_str(limit);
        out.append(limit_str.as_str());
        out
    }
}

/// The character of one decimal digit.
pub open spec fn digit_char_spec(d: int) -> char {
    if d == 0 {
        '0'
    } else if d == 1 {
        '1'
    } else if d == 2 {
        '2'
    } else if d == 3 {
        '3'
    } else if d == 4 {
        '4'
    } else if d == 5 {
        '5'
    } else if d == 6 {
        '6'
    } else if d == 7 {
        '7'
    } else if d == 8 {
        '8'
    } else {
        '9'
    }
}

/// The decimal digits of `n`, most significant first, without leading zeros
/// (a single zero for `n == 0`).
pub open spec fn dec_digits_spec(n: int) -> Seq<char>
    decreases n,
{
    if n < 10 {
        seq![digit_char_spec(n)]
    } else {
        dec_digits_spec(n / 10) + seq![digit_char_spec(n % 10)]
    }
}

/// `n` in decimal, zero-padded to at least two digits.
pub open spec fn two_digits_spec(n: int) -> Seq<char> {
    if n < 10 {
        seq!['0'] + dec_digits_spec(n)
    } else {
        dec_digits_spec(n)
    }
}

/// `n` in decimal, space-padded on the left to at least four columns.
pub open spec fn hours_field_spec(n: int) -> Seq<char> {
    if n < 10 {
        seq![' ', ' ', ' '] + dec_digits_spec(n)
    } else if n < 100 {
        seq![' ', ' '] + dec_digits_spec(n)
    } else if n < 1000 {
        seq![' '] + dec_digits_spec(n)
    } else {
        dec_digits_spec(n)
    }
}

/// `ms` milliseconds rendered as `H:MM:SS`: whole hours space-padded to four
/// columns, minutes and seconds zero-padded to two digits each.
pub open spec fn duration_str_spec(ms: int) -> Seq<char> {
    let secs = ms / 1000;
    hours_field_spec(secs / 3600) + seq![':'] + two_digits_spec(secs / 60 % 60) + seq![':']
        + two_digits_spec(secs % 60)
}

/// One decimal digit as a string slice.
fn digit_str(d: u64) -> (r: &'static str)
    requires
        d < 10,
    ensures
        r@ == seq![digit_char_spec(d as int)],
{
    proof {
        reveal_strlit("0");
        reveal_strlit("1");
        reveal_strlit("2");
        reveal_strlit("3");
        reveal_strlit("4");
        reveal_strlit("5");
        reveal_strlit("6");
        reveal_strlit("7");
        reveal_strlit("8");
        reveal_strlit("9");
    }
    let r = if d == 0 {
        "0"
    } else if d == 1 {
        "1"
    } else if d == 2 {
        "2"
    } else if d == 3 {
        "3"
    } else if d == 4 {
        "4"
    } else if d == 5 {
        "5"
    } else if d == 6 {
        "6"
    } else if d == 7 {
        "7"
    } else if d == 8 {
        "8"
    } else {
        "9"
    };
    proof {
        assert(r@ =~= seq![digit_char_spec(d as int)]);
    }
    r
}

/// `n` in decimal, without leading zeros.
fn u64_to_dec(n: u64) -> (r: String)
    ensures
        r@ == dec_digits_spec(n as int),
    decreases n,
{
    if n < 10 {
        String::from_str(digit_str(n))
    } else {
        let mut s = u64_to_dec(n / 10);
        s.append(digit_str(n % 10));
        s
    }
}

/// `ms` milliseconds rendered as `H:MM:SS`; see [`duration_str_spec`].
pub fn duration_to_str(ms: u64) -> (r: String)
    ensures
        r@ == duration_str_spec(ms as int),
{
    proof {
        reveal_strlit(" ");
        reveal_strlit("  ");
        reveal_strlit("   ");
        reveal_strlit(":");
        reveal_strlit("0");
    }
    let secs = ms / 1000;
    let hours = secs / 3600;
    let mins = (secs / 60) % 60;
    let s = secs % 60;

    let mut out = String::new();
    if hours < 10 {
        out.append("   ");
    } else if hours < 100 {
        out.append("  ");
    } else if hours < 1000 {
        out.append(" ");
    }
    let hours_str = u64_to_dec(hours);
    out.append(hours_str.as_str());
    out.append(":");
    if mins < 10 {
        out.append("0");
    }
    let mins_str = u64_to_dec(mins);
    out.append(mins_str.as_str());
    out.append(":");
    if s < 10 {
        out.append("0");
    }
    let s_str = u64_to_dec(s);
    out.append(s_str.as_str());
    proof {
        assert(out@ =~= duration_str_spec(ms as int));
    }
    out
}

/// The default break-earn divisor, repeated here so that a `State` can be
/// built before any configuration is read.
pub const DEFAULT_DIVISOR: u64 = 5;

/// A whole stretch of ticks, folded over the state in order.
pub open spec fn fold_ticks_spec(s: State, nows: Seq<u64>) -> State
    decreases nows.len(),
{
    if nows.len() == 0 {
        s
    } else {
        fold_ticks_spec(s.tick_spec(nows[0]), nows.drop_first())
    }
}

/// The deltas a tick stream delivers, summed: the tick at `nows[0]`
/// contributes the time since `prev`, and each later tick the time since
/// the tick before it.
pub open spec fn sum_deltas_spec(prev: u64, nows: Seq<u64>) -> int
    decreases nows.len(),
{
    if nows.len() == 0 {
        0
    } else {
        (nows[0] - prev) + sum_deltas_spec(nows[0], nows.drop_first())
    }
}

proof fn lemma_sum_deltas_nonneg(prev: u64, nows: Seq<u64>)
    requires
        nows.len() > 0 ==> prev <= nows[0],
        forall|i: int| 0 <= i < nows.len() - 1 ==> #[trigger] nows[i] <= nows[i + 1],
    ensures
        sum_deltas_spec(prev, nows) >= 0,
    decreases nows.len(),
{
    if nows.len() > 0 {
        let rest = nows.drop_first();
        assert forall|i: int| 0 <= i < rest.len() - 1 implies #[trigger] rest[i] <= rest[i
            + 1] by {
            assert(rest[i] == nows[i + 1]);
            assert(rest[i + 1] == nows[i + 2]);
        }
        lemma_sum_deltas_nonneg(nows[0], rest);
    }
}

/// Law: for any monotone stream of ticks during an active phase, `elapsed`
/// grows by exactly the sum of the per-tick deltas, while the phase and the
/// banked break time stay untouched.
pub proof fn lemma_ticks_accumulate_deltas(s: State, nows: Seq<u64>)
    requires
        s.prev_tick is Some,
        nows.len() > 0 ==> s.prev_tick.unwrap() <= nows[0],
        forall|i: int| 0 <= i < nows.len() - 1 ==> #[trigger] nows[i] <= nows[i + 1],
        s.elapsed + sum_deltas_spec(s.prev_tick.unwrap(), nows) <= u64::MAX,
    ensures
        fold_ticks_spec(s, nows).elapsed == s.elapsed + sum_deltas_spec(
            s.prev_tick.unwrap(),
            nows,
        ),
        fold_ticks_spec(s, nows).kind == s.kind,
        fold_ticks_spec(s, nows).saved_break_time == s.saved_break_time,
    decreases nows.len(),
{
    if nows.len() > 0 {
        let rest = nows.drop_first();
        let s1 = s.tick_spec(nows[0]);
        assert forall|i: int| 0 <= i < rest.len() - 1 implies #[trigger] rest[i] <= rest[i
            + 1] by {
            assert(rest[i] == nows[i + 1]);
            assert(rest[i + 1] == nows[i + 2]);
        }
        lemma_sum_deltas_nonneg(nows[0], rest);
        lemma_ticks_accumulate_deltas(s1, rest);
    }
}

/// Law: stopping twice in a row from `Working` first banks the earned
/// break and moves on toward the break phase, then spends nothing (the
/// break had no time to run) and parks at `Pause(Work)`.
pub proof fn lemma_stop_twice_banks_then_spends(s: State, now1: u64, now2: u64)
    requires
        s.kind == StateKind::Work,
    ensures
        s.stop_spec(now1).kind == if s.auto_break {
            StateKind::Break
        } else {
            StateKind::Pause(PauseKind::Break)
        },
        s.stop_spec(now1).elapsed == 0,
        s.stop_spec(now1).saved_break_time == sat_add_spec(
            s.saved_break_time,
            s.earned_break_spec(),
        ),
        s.stop_spec(now1).stop_spec(now2).kind == StateKind::Pause(PauseKind::Work),
        s.stop_spec(now1).stop_spec(now2).elapsed == 0,
        s.stop_spec(now1).stop_spec(now2).saved_break_time == s.stop_spec(now1).saved_break_time,
{
}

/// Law: the clamped ratio never decreases as elapsed time grows.
pub proof fn lemma_ratio_monotone(e1: u64, e2: u64, bound: u64)
    requires
        e1 <= e2,
    ensures
        clamped_permille_spec(e1, bound) <= clamped_permille_spec(e2, bound),
{
    if bound != 0 {
        vstd::arithmetic::div_mod::lemma_div_is_ordered(
            e1 as int * 1000,
            e2 as int * 1000,
            bound as int,
        );
    }
}

/// Law: one tick never lowers the completion ratio.
pub proof fn lemma_ratio_monotone_under_tick(s: State, now: u64)
    ensures
        s.tick_spec(now).ratio_spec() >= s.ratio_spec(),
{
    let s1 = s.tick_spec(now);
    match s.kind {
        StateKind::Begin => {},
        StateKind::Work | StateKind::Pause(PauseKind::Work) => {
            lemma_ratio_monotone(s.elapsed, s1.elapsed, s.work_bound_duration);
        },
        StateKind::Break | StateKind::Pause(PauseKind::Break) => {
            lemma_ratio_monotone(s.elapsed, s1.elapsed, s.saved_break_time);
        },
    }
}

/// Law: against a positive bound the clamped ratio stays at most 1000, and
/// hits 1000 exactly when the elapsed time reaches the bound.
pub proof fn lemma_ratio_full_exactly_at_bound(e: u64, bound: u64)
    requires
        bound > 0,
    ensures
        clamped_permille_spec(e, bound) <= 1000,
        (clamped_permille_spec(e, bound) == 1000) <==> e >= bound,
{
    if e >= bound {
        vstd::arithmetic::div_mod::lemma_div_is_ordered(
            bound as int * 1000,
            e as int * 1000,
            bound as int,
        );
        vstd::arithmetic::div_mod::lemma_div_multiples_vanish(1000, bound as int);
        assert(bound as int * 1000 == bound as int * 1000);
        assert((bound as int * 1000) / bound as int == 1000) by {
            assert(bound as int * 1000 == 1000 * bound as int) by (nonlinear_arith);
        }
    } else {
        assert(e as int * 1000 < bound as int * 1000) by (nonlinear_arith)
            requires
                e < bound,
        ;
        vstd::arithmetic::div_mod::lemma_multiply_divide_lt(
            e as int * 1000,
            bound as int,
            1000,
        );
    }
}

/// Law: in any phase that shows a positive bound, the state's ratio is at
/// most 1000 and is exactly 1000 just when `elapsed` has reached that bound.
pub proof fn lemma_state_ratio_full_at_bound(s: State)
    requires
        !(s.kind is Begin),
        s.shown_times_spec().1 > 0,
    ensures
        s.ratio_spec() <= 1000,
        (s.ratio_spec() == 1000) <==> s.elapsed >= s.shown_times_spec().1,
{
    lemma_ratio_full_exactly_at_bound(s.elapsed, s.shown_times_spec().1);
}

/// Law: pausing an active phase and then starting again resumes the very
/// same phase without resetting `elapsed` or the banked break time.
pub proof fn lemma_pause_then_start_resumes(s: State, now: u64)
    requires
        s.kind == StateKind::Work || s.kind == StateKind::Break,
    ensures
        s.pause_spec().start_spec(now).kind == s.kind,
        s.pause_spec().start_spec(now).elapsed == s.elapsed,
        s.pause_spec().start_spec(now).saved_break_time == s.saved_break_time,
{
}

/// `elapsed` over `bound` in thousandths, clamped to 1000. A zero bound
/// cannot be divided by: such a phase counts as fully completed as soon as
/// any time at all has elapsed, and as not begun otherwise.
pub open spec fn clamped_permille_spec(elapsed: u64, bound: u64) -> int {
    if bound == 0 {
        if elapsed == 0 {
            0
        } else {
            1000
        }
    } else if elapsed as int * 1000 / bound as int >= 1000 {
        1000
    } else {
        elapsed as int * 1000 / bound as int
    }
}

/// Executable counterpart of [`clamped_permille_spec`].
pub fn clamped_permille(elapsed: u64, bound: u64) -> (r: u32)
    ensures
        r == clamped_permille_spec(elapsed, bound),
        r <= 1000,
{
    if bound == 0 {
        if elapsed == 0 {
            0
        } else {
            1000
        }
    } else {
        let q = (elapsed as u128 * 1000) / (bound as u128);
        if q >= 1000 {
            1000
        } else {
            q as u32
        }
    }
}

} // verus!
