//! One round of the guessing game: a hidden number shown in binary, a row
//! of candidates, a cursor, a countdown and the way the round ended.

use crate::binary::{binary_digits, grouped, to_binary_string};
use crate::bits::Bits;
use crate::suggest::{
    all_distinct, all_within, draw_row, lemma_reordered_row, pick_and_shuffle, position, valid_row,
};
use vstd::prelude::*;

verus! {

/// No round is shorter than this, however long the streak: five seconds.
pub const MIN_ROUND_TIME: u64 = 5_000_000_000;

/// Each round of a running streak shortens the next one by half a second.
pub const STREAK_PENALTY: u64 = 500_000_000;

/// How a round ended.
#[derive(Clone, Copy, Debug, PartialEq, Eq, Structural)]
pub enum GuessResult {
    Correct,
    Incorrect,
    Timeout,
}

/// Which way the cursor moves along the row of candidates.
#[derive(Clone, Copy, Debug, PartialEq, Eq, Structural)]
pub enum Direction {
    Next,
    Previous,
}

/// The time a round lasts, in nanoseconds: the base time of the width, less
/// half a second for each round of the streak, but never under five seconds.
pub open spec fn round_nanos(bits: Bits, streak: nat) -> nat {
    let reduced = bits.base_nanos() - STREAK_PENALTY * streak;
    if reduced > MIN_ROUND_TIME {
        reduced as nat
    } else {
        MIN_ROUND_TIME as nat
    }
}

/// Whether `suggestions` can be the row of candidates of a round for
/// `bits` that hides `target`: a valid row with the target in it.
pub open spec fn valid_round(bits: Bits, suggestions: Seq<u32>, target: u32) -> bool {
    &&& valid_row(bits, suggestions)
    &&& suggestions.contains(target)
}

/// A round as a mathematical value. Times are in nanoseconds.
pub struct PuzzleState {
    pub bits: Bits,
    pub target: u32,
    pub suggestions: Seq<u32>,
    pub selected: Option<int>,
    pub time_total: nat,
    pub time_left: nat,
    pub outcome: Option<GuessResult>,
    pub hint_visible: bool,
}

impl PuzzleState {
    /// What holds of every round: the candidates are valid for the width
    /// and hold the target, the cursor points into the row, the countdown
    /// never exceeds its start, and an open round has time left.
    pub open spec fn wf(self) -> bool {
        &&& valid_round(self.bits, self.suggestions, self.target)
        &&& (self.selected matches Some(i) ==> 0 <= i < self.suggestions.len())
        &&& self.time_left <= self.time_total
        &&& (self.outcome is None ==> self.time_left > 0)
    }

    /// The round as it starts: the cursor on the first candidate, the full
    /// time on the clock, no outcome, the hint hidden.
    pub open spec fn fresh(bits: Bits, streak: nat, suggestions: Seq<u32>, target: u32) -> Self {
        PuzzleState {
            bits,
            target,
            suggestions,
            selected: Some(0),
            time_total: round_nanos(bits, streak),
            time_left: round_nanos(bits, streak),
            outcome: None,
            hint_visible: false,
        }
    }

    /// The round after `dt` nanoseconds have passed. A resolved round does
    /// not change. An open one loses `dt` from its clock, which stops at
    /// zero; on reaching zero the round times out.
    pub open spec fn advanced(self, dt: nat) -> Self {
        if self.outcome is Some {
            self
        } else if self.time_left > dt {
            PuzzleState { time_left: (self.time_left - dt) as nat, ..self }
        } else {
            PuzzleState { time_left: 0, outcome: Some(GuessResult::Timeout), ..self }
        }
    }

    /// The round after `n` steps of `dt` nanoseconds each.
    pub open spec fn advanced_times(self, dt: nat, n: nat) -> Self
        decreases n,
    {
        if n == 0 {
            self
        } else {
            self.advanced(dt).advanced_times(dt, (n - 1) as nat)
        }
    }

    /// The index the cursor moves to from `index` in a row of `len`
    /// candidates: one step in the given direction, wrapping round at
    /// either end.
    pub open spec fn step(index: int, len: int, direction: Direction) -> int {
        match direction {
            Direction::Next => if index + 1 >= len {
                0
            } else {
                index + 1
            },
            Direction::Previous => if index <= 0 {
                len - 1
            } else {
                index - 1
            },
        }
    }

    /// The round after the cursor has moved. A resolved round, or one with
    /// no candidates, does not change. Without a cursor the first candidate
    /// is selected, whatever the direction.
    pub open spec fn moved(self, direction: Direction) -> Self {
        if self.outcome is Some || self.suggestions.len() == 0 {
            self
        } else {
            match self.selected {
                None => PuzzleState { selected: Some(0), ..self },
                Some(i) => PuzzleState {
                    selected: Some(Self::step(i, self.suggestions.len() as int, direction)),
                    ..self
                },
            }
        }
    }

    /// The round after the player has confirmed the selection. A resolved
    /// round, or one without a cursor, does not change. Otherwise the round
    /// is won if the selected candidate is the target, and lost if not.
    pub open spec fn confirmed(self) -> Self {
        if self.outcome is Some {
            self
        } else {
            match self.selected {
                Some(i) if 0 <= i < self.suggestions.len() => PuzzleState {
                    outcome: Some(
                        if self.suggestions[i] == self.target {
                            GuessResult::Correct
                        } else {
                            GuessResult::Incorrect
                        },
                    ),
                    ..self
                },
                _ => self,
            }
        }
    }

    /// The round after it has been given up: an open round times out at
    /// once, with its clock as it stood; a resolved one does not change.
    pub open spec fn timed_out(self) -> Self {
        if self.outcome is Some {
            self
        } else {
            PuzzleState { outcome: Some(GuessResult::Timeout), ..self }
        }
    }

    /// The round with the hint shown if it was hidden, and hidden if it
    /// was shown. Nothing else changes, whether the round is resolved or not.
    pub open spec fn hint_toggled(self) -> Self {
        PuzzleState { hint_visible: !self.hint_visible, ..self }
    }

    /// The hidden number as the round shows it: in binary, padded with
    /// zeros to the width, in groups of four digits.
    pub open spec fn binary_text(self) -> Seq<char> {
        grouped(binary_digits(self.target as nat, self.bits.width()))
    }

    /// The candidate under the cursor, if there is one.
    pub open spec fn selected_value(self) -> Option<u32> {
        match self.selected {
            Some(i) if 0 <= i < self.suggestions.len() => Some(self.suggestions[i]),
            _ => None,
        }
    }
}

/// The time a round lasts for a width and a streak, in nanoseconds.
pub fn round_time(bits: Bits, streak: u32) -> (nanos: u64)
    ensures
        nanos == round_nanos(bits, streak as nat),
        nanos >= MIN_ROUND_TIME,
{
    let penalty: u64 = (streak as u64) * STREAK_PENALTY;
    let base: u64 = bits.base_time();
    if base > penalty && base - penalty > MIN_ROUND_TIME {
        base - penalty
    } else {
        MIN_ROUND_TIME
    }
}

/// The number of steps of `dt` that cover `span`: `span / dt`, rounded up.
pub open spec fn steps_to_cover(span: nat, dt: nat) -> nat {
    ((span + dt - 1) / dt as int) as nat
}

/// Every step of a round leaves it well formed.
pub proof fn lemma_steps_keep_wf(p: PuzzleState, dt: nat, direction: Direction)
    requires
        p.wf(),
    ensures
        p.advanced(dt).wf(),
        p.moved(direction).wf(),
        p.confirmed().wf(),
        p.timed_out().wf(),
        p.hint_toggled().wf(),
{
}

/// Whether `after` is the same round as `before`, whatever state it is in:
/// it has the same width, hidden number, candidates and starting time.
pub open spec fn same_round(before: PuzzleState, after: PuzzleState) -> bool {
    &&& after.bits == before.bits
    &&& after.target == before.target
    &&& after.suggestions == before.suggestions
    &&& after.time_total == before.time_total
}

/// No step of a round changes the width, the hidden number, the candidates
/// or the time the round started with.
pub proof fn lemma_round_is_fixed(p: PuzzleState, dt: nat, direction: Direction)
    ensures
        same_round(p, p.advanced(dt)),
        same_round(p, p.moved(direction)),
        same_round(p, p.confirmed()),
        same_round(p, p.timed_out()),
        same_round(p, p.hint_toggled()),
{
}

/// Once a round has an outcome, letting time pass, moving the cursor,
/// confirming and giving up all leave the round exactly as it is: the
/// outcome, the hidden number and the candidates in particular.
pub proof fn lemma_resolved_is_frozen(p: PuzzleState, dt: nat, direction: Direction)
    requires
        p.outcome is Some,
    ensures
        p.advanced(dt) == p,
        p.moved(direction) == p,
        p.confirmed() == p,
        p.timed_out() == p,
        p.hint_toggled().outcome == p.outcome,
        p.hint_toggled().target == p.target,
        p.hint_toggled().suggestions == p.suggestions,
{
}

/// Once a round has an outcome, no number of steps of the clock changes it.
pub proof fn lemma_resolved_stays(p: PuzzleState, dt: nat, n: nat)
    requires
        p.outcome is Some,
    ensures
        p.advanced_times(dt, n) == p,
    decreases n,
{
    if n > 0 {
        lemma_resolved_stays(p, dt, (n - 1) as nat);
    }
}

/// Where an open round stands after `n` steps of `dt` nanoseconds: while
/// the steps add up to less than the time left, the clock has lost their
/// sum and nothing else has changed; from then on the clock is at zero and
/// the round has timed out.
pub proof fn lemma_clock_after(p: PuzzleState, dt: nat, n: nat)
    requires
        p.outcome is None,
        p.time_left > 0,
    ensures
        n * dt < p.time_left ==> p.advanced_times(dt, n) == (PuzzleState {
            time_left: (p.time_left - n * dt) as nat,
            ..p
        }),
        n * dt >= p.time_left ==> p.advanced_times(dt, n) == (PuzzleState {
            time_left: 0,
            outcome: Some(GuessResult::Timeout),
            ..p
        }),
    decreases n,
{
    if n == 0 {
        assert(n * dt == 0) by (nonlinear_arith)
            requires
                n == 0,
        ;
    } else {
        let m = (n - 1) as nat;
        assert(n * dt == m * dt + dt && m * dt >= 0) by (nonlinear_arith)
            requires
                n == m + 1,
                m >= 0,
                dt >= 0,
        ;
        let q = p.advanced(dt);
        assert(p.advanced_times(dt, n) == q.advanced_times(dt, m));
        if q.outcome is Some {
            lemma_resolved_stays(q, dt, m);
        } else {
            lemma_clock_after(q, dt, m);
        }
    }
}

/// Steps of any length above zero end an open round: after as many steps
/// of `dt` as cover the time the round started with, and after any number
/// beyond that, the round has timed out with its clock at zero. The clock
/// is a natural number at every step, so it is never negative.
pub proof fn lemma_timeout_convergence(p: PuzzleState, dt: nat, n: nat)
    requires
        p.wf(),
        p.outcome is None,
        dt > 0,
        n >= steps_to_cover(p.time_total, dt),
    ensures
        p.advanced_times(dt, n).outcome == Some(GuessResult::Timeout),
        p.advanced_times(dt, n).time_left == 0,
{
    let q = steps_to_cover(p.time_total, dt);
    assert(q * dt >= p.time_total) by {
        let a = (p.time_total + dt - 1) as int;
        vstd::arithmetic::div_mod::lemma_fundamental_div_mod(a, dt as int);
        vstd::arithmetic::div_mod::lemma_mod_bound(a, dt as int);
        vstd::arithmetic::div_mod::lemma_div_pos_is_pos(a, dt as int);
        assert(dt * (a / dt as int) == q * dt) by (nonlinear_arith)
            requires
                q == a / dt as int,
        ;
    }
    assert(n * dt >= q * dt) by (nonlinear_arith)
        requires
            n >= q,
    ;
    lemma_clock_after(p, dt, n);
}

/// One round of the game.
pub struct BinaryNumbersPuzzle {
    bits: Bits,
    current_number: u32,
    suggestions: Vec<u32>,
    selected_index: Option<usize>,
    time_total: u64,
    time_left: u64,
    guess_result: Option<GuessResult>,
    show_hint: bool,
}

impl View for BinaryNumbersPuzzle {
    type V = PuzzleState;

    closed spec fn view(&self) -> PuzzleState {
        PuzzleState {
            bits: self.bits,
            target: self.current_number,
            suggestions: self.suggestions@,
            selected: match self.selected_index {
                Some(i) => Some(i as int),
                None => None,
            },
            time_total: self.time_total as nat,
            time_left: self.time_left as nat,
            outcome: self.guess_result,
            hint_visible: self.show_hint,
        }
    }
}

impl BinaryNumbersPuzzle {
    /// A round with candidates drawn at random: a valid row is drawn, one of
    /// its numbers is picked as the one to guess, and the row is shuffled.
    /// Which numbers come out depends on the generator; the round is well
    /// formed whatever they are, and starts as every round does.
    pub fn new(bits: Bits, streak: u32) -> (p: Self)
        ensures
            p@.wf(),
            p@ == PuzzleState::fresh(bits, streak as nat, p@.suggestions, p@.target),
    {
        let mut rng = rand::rng();
        let row: Vec<u32> = draw_row(bits, &mut rng);
        proof {
            bits.lemma_range();
        }
        let (suggestions, current_number) = pick_and_shuffle(row, &mut rng);
        proof {
            lemma_reordered_row(bits, row@, suggestions@);
        }
        Self::assemble(bits, streak, suggestions, current_number)
    }

    /// A round with the given candidates, in the order given, that hides
    /// `target`. The candidates are checked: the result is `None` unless
    /// they are valid for `bits` and hold the target.
    pub fn with_suggestions(bits: Bits, streak: u32, suggestions: Vec<u32>, target: u32) -> (puzzle:
        Option<Self>)
        ensures
            match puzzle {
                Some(p) => valid_round(bits, suggestions@, target) && p@ == PuzzleState::fresh(
                    bits,
                    streak as nat,
                    suggestions@,
                    target,
                ) && p@.wf(),
                None => !valid_round(bits, suggestions@, target),
            },
    {
        if suggestions.len() != bits.suggestion_count() {
            return None;
        }
        if !all_within(&suggestions, bits.upper_bound()) {
            return None;
        }
        if !all_distinct(&suggestions) {
            return None;
        }
        if position(&suggestions, target).is_none() {
            return None;
        }
        Some(Self::assemble(bits, streak, suggestions, target))
    }

    /// The round as it starts, from candidates known to be valid.
    fn assemble(bits: Bits, streak: u32, suggestions: Vec<u32>, target: u32) -> (p: Self)
        requires
            valid_round(bits, suggestions@, target),
        ensures
            p@ == PuzzleState::fresh(bits, streak as nat, suggestions@, target),
            p@.wf(),
    {
        let time_total: u64 = round_time(bits, streak);
        BinaryNumbersPuzzle {
            bits,
            current_number: target,
            suggestions,
            selected_index: Some(0),
            time_total,
            time_left: time_total,
            guess_result: None,
            show_hint: false,
        }
    }

    /// The candidates, in the order in which they are shown.
    pub fn suggestions(&self) -> (row: &[u32])
        ensures
            row@ == self@.suggestions,
    {
        self.suggestions.as_slice()
    }

    /// Whether `guess` is the hidden number.
    pub fn is_correct_guess(&self, guess: u32) -> (correct: bool)
        ensures
            correct == (guess == self@.target),
    {
        guess == self.current_number
    }

    /// The hidden number in binary: as many digits as the width has bits,
    /// in groups of four with a space between two groups.
    pub fn current_to_binary_string(&self) -> (text: String)
        ensures
            text@ == self@.binary_text(),
    {
        to_binary_string(self.current_number, self.bits.to_int())
    }

    /// The width the round is played with.
    pub fn bits(&self) -> (bits: Bits)
        ensures
            bits == self@.bits,
    {
        self.bits
    }

    /// The hidden number.
    pub fn current_number(&self) -> (number: u32)
        ensures
            number == self@.target,
    {
        self.current_number
    }

    /// The place of the cursor in the row, if there is a cursor.
    pub fn selected_index(&self) -> (index: Option<usize>)
        ensures
            match index {
                Some(i) => self@.selected == Some(i as int),
                None => self@.selected is None,
            },
    {
        self.selected_index
    }

    /// The candidate under the cursor, if there is one.
    pub fn selected_suggestion(&self) -> (value: Option<u32>)
        ensures
            value == self@.selected_value(),
    {
        match self.selected_index {
            Some(i) => if i < self.suggestions.len() {
                Some(self.suggestions[i])
            } else {
                None
            },
            None => None,
        }
    }

    /// The time the round started with, in nanoseconds.
    pub fn time_total(&self) -> (nanos: u64)
        ensures
            nanos == self@.time_total,
    {
        self.time_total
    }

    /// The time left on the clock, in nanoseconds.
    pub fn time_left(&self) -> (nanos: u64)
        ensures
            nanos == self@.time_left,
    {
        self.time_left
    }

    /// How the round ended, if it has.
    pub fn guess_result(&self) -> (outcome: Option<GuessResult>)
        ensures
            outcome == self@.outcome,
    {
        self.guess_result
    }

    /// Whether the hint is shown.
    pub fn show_hint(&self) -> (shown: bool)
        ensures
            shown == self@.hint_visible,
    {
        self.show_hint
    }

    /// Lets `dt` nanoseconds pass.
    pub fn run(&mut self, dt: u64)
        requires
            old(self)@.wf(),
        ensures
            final(self)@ == old(self)@.advanced(dt as nat),
            final(self)@.wf(),
    {
        if self.guess_result.is_some() {
            return ;
        }
        self.time_left = self.time_left.saturating_sub(dt);
        if self.time_left == 0 {
            self.guess_result = Some(GuessResult::Timeout);
        }
    }

    /// Moves the cursor one candidate along, wrapping round at the ends.
    pub fn move_selection(&mut self, direction: Direction)
        requires
            old(self)@.wf(),
        ensures
            final(self)@ == old(self)@.moved(direction),
            final(self)@.wf(),
    {
        let len: usize = self.suggestions.len();
        if self.guess_result.is_some() || len == 0 {
            return ;
        }
        let next: usize = match self.selected_index {
            None => 0,
            Some(i) => match direction {
                Direction::Next => if i + 1 >= len {
                    0
                } else {
                    i + 1
                },
                Direction::Previous => if i == 0 {
                    len - 1
                } else {
                    i - 1
                },
            },
        };
        self.selected_index = Some(next);
    }

    /// Settles the round on the selected candidate.
    pub fn confirm_guess(&mut self)
        requires
            old(self)@.wf(),
        ensures
            final(self)@ == old(self)@.confirmed(),
            final(self)@.wf(),
    {
        if self.guess_result.is_some() {
            return ;
        }
        if let Some(i) = self.selected_index {
            if i < self.suggestions.len() {
                if self.suggestions[i] == self.current_number {
                    self.guess_result = Some(GuessResult::Correct);
                } else {
                    self.guess_result = Some(GuessResult::Incorrect);
                }
            }
        }
    }

    /// Gives the round up: an open round times out at once.
    pub fn force_timeout(&mut self)
        requires
            old(self)@.wf(),
        ensures
            final(self)@ == old(self)@.timed_out(),
            final(self)@.wf(),
    {
        if self.guess_result.is_none() {
            self.guess_result = Some(GuessResult::Timeout);
        }
    }

    /// Shows the hint if it is hidden, hides it if it is shown.
    pub fn toggle_hint(&mut self)
        ensures
            final(self)@ == old(self)@.hint_toggled(),
            old(self)@.wf() ==> final(self)@.wf(),
    {
        self.show_hint = !self.show_hint;
    }
}

} // verus!
