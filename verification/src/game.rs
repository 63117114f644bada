//! A session of the guessing game: the current round and the score across
//! rounds, driven by the clock and by key presses.

use crate::bits::Bits;
use crate::input::{Key, KeyPress};
use crate::puzzle::{BinaryNumbersPuzzle, Direction, GuessResult, PuzzleState};
use crate::scoreboard::{Scoreboard, MAX_LIVES};
use vstd::prelude::*;
use vstd::string::*;

verus! {

/// Whether `puzzle` is a well-formed round for `bits` that has just been
/// started after a streak of `streak`: nothing but its candidates and its
/// hidden number is left open.
pub open spec fn round_start(bits: Bits, streak: nat, puzzle: PuzzleState) -> bool {
    &&& puzzle.wf()
    &&& puzzle == PuzzleState::fresh(bits, streak, puzzle.suggestions, puzzle.target)
}

/// The lives as a row of `MAX_LIVES` marks: a heart for each life that is
/// left, then a dot for each that is not.
pub open spec fn hearts(lives: nat) -> Seq<char> {
    Seq::new(MAX_LIVES as nat, |i: int| if i < lives { '♥' } else { '·' })
}

/// Whether `puzzle` can be put before the player in a session for `bits`:
/// it is a well-formed round for that width, and still open.
pub open spec fn playable(bits: Bits, puzzle: PuzzleState) -> bool {
    &&& puzzle.wf()
    &&& puzzle.bits == bits
    &&& puzzle.outcome is None
}

/// A session as a mathematical value.
pub struct GameState {
    pub bits: Bits,
    pub puzzle: PuzzleState,
    pub board: Scoreboard,
    /// Whether the outcome of the current round has been scored.
    pub round_finalized: bool,
    /// Whether the player has asked to leave the game.
    pub exit_intended: bool,
}

impl GameState {
    /// What holds of every session: the round and the board are well
    /// formed, the round is played with the width of the session, a round
    /// is scored as soon as it has an outcome, and the game is over only
    /// after a round that was lost.
    pub open spec fn wf(self) -> bool {
        &&& self.puzzle.wf()
        &&& self.puzzle.bits == self.bits
        &&& self.board.wf()
        &&& self.round_finalized == self.puzzle.outcome is Some
        &&& (self.board.game_over ==> self.puzzle.outcome is Some)
    }

    /// The session as it starts, with `puzzle` as its first round.
    pub open spec fn started(bits: Bits, puzzle: PuzzleState) -> GameState {
        GameState {
            bits,
            puzzle,
            board: Scoreboard::start(),
            round_finalized: false,
            exit_intended: false,
        }
    }

    /// The session after the outcome of the current round has been scored.
    /// A round without an outcome, or one already scored, changes nothing:
    /// no round is scored twice.
    pub open spec fn finalized(self) -> GameState {
        match self.puzzle.outcome {
            Some(outcome) if !self.round_finalized => GameState {
                board: self.board.scored(outcome),
                round_finalized: true,
                ..self
            },
            _ => self,
        }
    }

    /// The session after `dt` nanoseconds have passed: nothing changes once
    /// the game is over; otherwise the round's clock runs, and a round that
    /// times out is scored at once.
    pub open spec fn ticked(self, dt: nat) -> GameState {
        if self.board.game_over {
            self
        } else {
            GameState { puzzle: self.puzzle.advanced(dt), ..self }.finalized()
        }
    }

    /// The session after the cursor has been moved; nothing changes once the
    /// game is over.
    pub open spec fn selected(self, direction: Direction) -> GameState {
        if self.board.game_over {
            self
        } else {
            GameState { puzzle: self.puzzle.moved(direction), ..self }
        }
    }

    /// The session after the player has confirmed the selection: the round
    /// is settled and scored in one step. Nothing changes once the game is
    /// over.
    pub open spec fn confirmed(self) -> GameState {
        if self.board.game_over {
            self
        } else {
            GameState { puzzle: self.puzzle.confirmed(), ..self }.finalized()
        }
    }

    /// The session after the player has skipped the round: the round times
    /// out and is scored in one step. Nothing changes once the game is over.
    pub open spec fn skipped(self) -> GameState {
        if self.board.game_over {
            self
        } else {
            GameState { puzzle: self.puzzle.timed_out(), ..self }.finalized()
        }
    }

    /// The session with the hint of the current round toggled, whatever
    /// state the round and the game are in.
    pub open spec fn hint_toggled(self) -> GameState {
        GameState { puzzle: self.puzzle.hint_toggled(), ..self }
    }

    /// Whether a next round can be started: the current one has an outcome
    /// and the game is not over.
    pub open spec fn can_advance(self) -> bool {
        self.puzzle.outcome is Some && !self.board.game_over
    }

    /// The session with `next` as its new round, where one can be started;
    /// otherwise unchanged.
    pub open spec fn advanced_round(self, next: PuzzleState) -> GameState {
        if self.can_advance() {
            GameState { puzzle: next, round_finalized: false, ..self }
        } else {
            self
        }
    }

    /// The session started afresh with `next` as its first round, where the
    /// game is over; otherwise unchanged. The wish to leave is kept.
    pub open spec fn reset_to(self, next: PuzzleState) -> GameState {
        if self.board.game_over {
            GameState {
                puzzle: next,
                board: Scoreboard::start(),
                round_finalized: false,
                ..self
            }
        } else {
            self
        }
    }

    /// Whether `key` makes the session start a new round: it is Enter, and
    /// either the game is over or the current round has an outcome.
    pub open spec fn starts_round(self, key: Key) -> bool {
        key == Key::Enter && (self.board.game_over || self.puzzle.outcome is Some)
    }

    /// The streak that the round started by `key` is made for: none after
    /// a game that is over, else the current one.
    pub open spec fn next_streak(self) -> nat {
        if self.board.game_over {
            0
        } else {
            self.board.streak as nat
        }
    }

    /// The session after `key` has been pressed, where `next` is the round
    /// that is started if the key starts one.
    ///
    /// Esc asks to leave, and does nothing else. Once the game is over,
    /// Enter starts afresh and every other key is ignored. In an open
    /// round, Right and Left move the cursor, Enter confirms, `h` toggles
    /// the hint and `s` skips the round. After a round, Enter starts the
    /// next one and `h` toggles the hint.
    pub open spec fn keyed(self, key: Key, next: PuzzleState) -> GameState {
        if key == Key::Esc {
            GameState { exit_intended: true, ..self }
        } else if self.board.game_over {
            if key == Key::Enter {
                self.reset_to(next)
            } else {
                self
            }
        } else if self.puzzle.outcome is None {
            if key == Key::Right {
                self.selected(Direction::Next)
            } else if key == Key::Left {
                self.selected(Direction::Previous)
            } else if key == Key::Enter {
                self.confirmed()
            } else if key.is_hint() {
                self.hint_toggled()
            } else if key.is_skip() {
                self.skipped()
            } else {
                self
            }
        } else {
            if key == Key::Enter {
                self.advanced_round(next)
            } else if key.is_hint() {
                self.hint_toggled()
            } else {
                self
            }
        }
    }
}

/// No round is scored twice: scoring a round that has been scored changes
/// nothing.
pub proof fn lemma_scored_once(game: GameState)
    ensures
        game.finalized().finalized() == game.finalized(),
        game.round_finalized ==> game.finalized() == game,
{
}

/// Every step of a session leaves it well formed, whichever round is
/// started where one is.
pub proof fn lemma_steps_keep_wf(game: GameState, dt: nat, key: Key, next: PuzzleState)
    requires
        game.wf(),
        playable(game.bits, next),
    ensures
        game.ticked(dt).wf(),
        game.selected(Direction::Next).wf(),
        game.selected(Direction::Previous).wf(),
        game.confirmed().wf(),
        game.skipped().wf(),
        game.hint_toggled().wf(),
        game.advanced_round(next).wf(),
        game.reset_to(next).wf(),
        game.keyed(key, next).wf(),
{
}

/// Skipping an open round, in a game that is not over, counts as a
/// timeout: the streak ends, a life is lost, and the round is scored.
pub proof fn lemma_skip_is_timeout(game: GameState)
    requires
        game.wf(),
        !game.board.game_over,
        game.puzzle.outcome is None,
    ensures
        game.skipped().puzzle.outcome == Some(GuessResult::Timeout),
        game.skipped().board == game.board.scored(GuessResult::Timeout),
        game.skipped().board.streak == 0,
        game.skipped().board.lives == game.board.lives - 1,
        game.skipped().round_finalized,
{
}

/// Confirming the hidden number, in an open round of a game that is not
/// over, wins the round; confirming any other candidate loses it. Either
/// way the round is scored at once.
pub proof fn lemma_confirm_scores(game: GameState)
    requires
        game.wf(),
        !game.board.game_over,
        game.puzzle.outcome is None,
        game.puzzle.selected is Some,
    ensures
        game.confirmed().puzzle.outcome == Some(
            if game.puzzle.selected_value() == Some(game.puzzle.target) {
                GuessResult::Correct
            } else {
                GuessResult::Incorrect
            },
        ),
        game.confirmed().board == game.board.scored(game.confirmed().puzzle.outcome->0),
        game.confirmed().round_finalized,
{
}

/// A step of the clock that uses up the time left, in an open round of a
/// game that is not over, times the round out and scores it in the same
/// step; a shorter one scores nothing.
pub proof fn lemma_tick_times_out(game: GameState, dt: nat)
    requires
        game.wf(),
        !game.board.game_over,
        game.puzzle.outcome is None,
    ensures
        dt >= game.puzzle.time_left ==> game.ticked(dt).puzzle.outcome == Some(
            GuessResult::Timeout,
        ) && game.ticked(dt).board == game.board.scored(GuessResult::Timeout) && game.ticked(
            dt,
        ).round_finalized,
        dt < game.puzzle.time_left ==> game.ticked(dt).board == game.board && !game.ticked(
            dt,
        ).round_finalized && game.ticked(dt).puzzle.outcome is None,
{
}

/// Starting the next round keeps the score and opens the round for
/// scoring.
pub proof fn lemma_next_round_keeps_the_board(game: GameState, next: PuzzleState)
    requires
        game.wf(),
        playable(game.bits, next),
    ensures
        game.advanced_round(next).board == game.board,
        game.can_advance() ==> game.advanced_round(next).puzzle == next && !game.advanced_round(
            next,
        ).round_finalized,
        game.advanced_round(next).wf(),
{
}

/// From three lives, three rounds in a row that are given up end the
/// game, whatever rounds they are; a reset then starts afresh.
pub proof fn lemma_three_skips_end_the_game(
    game: GameState,
    second: PuzzleState,
    third: PuzzleState,
    fresh: PuzzleState,
)
    requires
        game.wf(),
        game.board.lives == 3,
        game.puzzle.outcome is None,
        playable(game.bits, second),
        playable(game.bits, third),
        playable(game.bits, fresh),
    ensures
        ({
            let end = game.skipped().advanced_round(second).skipped().advanced_round(
                third,
            ).skipped();
            &&& end.wf()
            &&& end.board.lives == 0
            &&& end.board.game_over
            &&& end.board.streak == 0
            &&& end.board.score == game.board.score
            &&& end.reset_to(fresh).board == Scoreboard::start()
            &&& end.reset_to(fresh).puzzle == fresh
            &&& end.reset_to(fresh).wf()
        }),
{
    let first_lost = game.skipped();
    assert(first_lost.board.lives == 2);
    let second_open = first_lost.advanced_round(second);
    assert(second_open.puzzle == second);
    let second_lost = second_open.skipped();
    assert(second_lost.board.lives == 1);
    let third_open = second_lost.advanced_round(third);
    assert(third_open.puzzle == third);
}

/// Once the game is over the session is frozen: the clock, the cursor,
/// confirming, skipping and starting a next round change nothing. Only a
/// reset does, and it restores the board of a new session: three lives, no
/// points, no streak, no rounds played, and a game that is not over.
pub proof fn lemma_game_over_then_reset(
    game: GameState,
    dt: nat,
    direction: Direction,
    next: PuzzleState,
)
    requires
        game.board.game_over,
    ensures
        game.ticked(dt) == game,
        game.selected(direction) == game,
        game.confirmed() == game,
        game.skipped() == game,
        game.advanced_round(next) == game,
        game.reset_to(next).board == Scoreboard::start(),
        game.reset_to(next).board.lives == 3,
        game.reset_to(next).board.score == 0,
        game.reset_to(next).board.streak == 0,
        game.reset_to(next).board.rounds == 0,
        !game.reset_to(next).board.game_over,
        !game.reset_to(next).round_finalized,
        game.reset_to(next).puzzle == next,
{
}

/// A session of the guessing game.
pub struct BinaryNumbersGame {
    puzzle: BinaryNumbersPuzzle,
    bits: Bits,
    exit_intended: bool,
    board: Scoreboard,
    puzzle_resolved: bool,
}

impl View for BinaryNumbersGame {
    type V = GameState;

    closed spec fn view(&self) -> GameState {
        GameState {
            bits: self.bits,
            puzzle: self.puzzle@,
            board: self.board,
            round_finalized: self.puzzle_resolved,
            exit_intended: self.exit_intended,
        }
    }
}

impl BinaryNumbersGame {
    /// A new session for `bits`, with a first round drawn at random.
    pub fn new(bits: Bits) -> (game: Self)
        ensures
            game@.wf(),
            game@ == GameState::started(bits, game@.puzzle),
            round_start(bits, 0, game@.puzzle),
    {
        Self::with_puzzle(Self::init_puzzle(bits, 0))
    }

    /// A new session whose first round is `puzzle`.
    pub fn with_puzzle(puzzle: BinaryNumbersPuzzle) -> (game: Self)
        requires
            playable(puzzle@.bits, puzzle@),
        ensures
            game@.wf(),
            game@ == GameState::started(puzzle@.bits, puzzle@),
    {
        let bits: Bits = puzzle.bits();
        BinaryNumbersGame {
            puzzle,
            bits,
            exit_intended: false,
            board: Scoreboard::new(),
            puzzle_resolved: false,
        }
    }

    /// A round for `bits` drawn at random, as it starts after a streak of
    /// `streak`.
    pub fn init_puzzle(bits: Bits, streak: u32) -> (puzzle: BinaryNumbersPuzzle)
        ensures
            round_start(bits, streak as nat, puzzle@),
    {
        BinaryNumbersPuzzle::new(bits, streak)
    }

    /// The current round.
    pub fn puzzle(&self) -> (puzzle: &BinaryNumbersPuzzle)
        ensures
            puzzle@ == self@.puzzle,
    {
        &self.puzzle
    }

    /// The width the session is played with.
    pub fn bits(&self) -> (bits: Bits)
        ensures
            bits == self@.bits,
    {
        self.bits
    }

    /// The score of the session.
    pub fn board(&self) -> (board: Scoreboard)
        ensures
            board == self@.board,
    {
        self.board
    }

    /// The points earned in the session.
    pub fn score(&self) -> (score: u32)
        ensures
            score == self@.board.score,
    {
        self.board.score
    }

    /// The correct rounds in a row, up to now.
    pub fn streak(&self) -> (streak: u32)
        ensures
            streak == self@.board.streak,
    {
        self.board.streak
    }

    /// The rounds that have been scored.
    pub fn rounds(&self) -> (rounds: u32)
        ensures
            rounds == self@.board.rounds,
    {
        self.board.rounds
    }

    /// The lives that are left.
    pub fn lives(&self) -> (lives: u32)
        ensures
            lives == self@.board.lives,
    {
        self.board.lives
    }

    /// Whether the last life is lost.
    pub fn is_game_over(&self) -> (over: bool)
        ensures
            over == self@.board.game_over,
    {
        self.board.game_over
    }

    /// Whether the outcome of the current round has been scored.
    pub fn is_round_finalized(&self) -> (finalized: bool)
        ensures
            finalized == self@.round_finalized,
    {
        self.puzzle_resolved
    }

    /// Whether the player has asked to leave the game.
    pub fn is_exit_intended(&self) -> (exit: bool)
        ensures
            exit == self@.exit_intended,
    {
        self.exit_intended
    }

    /// The lives as a row of marks: a heart for each life that is left,
    /// then a dot for each that is not, `MAX_LIVES` marks in all.
    pub fn lives_hearts(&self) -> (text: String)
        ensures
            text@ == hearts(self@.board.lives as nat),
    {
        let mut text: String = String::new();
        let mut i: u32 = 0;
        proof {
            reveal_strlit("♥");
            reveal_strlit("·");
        }
        while i < MAX_LIVES
            invariant
                i <= MAX_LIVES,
                text@ == hearts(self@.board.lives as nat).take(i as int),
                "♥"@ == seq!['♥'],
                "·"@ == seq!['·'],
            decreases MAX_LIVES - i,
        {
            if i < self.board.lives {
                text.append("♥");
            } else {
                text.append("·");
            }
            assert(text@ =~= hearts(self@.board.lives as nat).take(i + 1));
            i += 1;
        }
        assert(hearts(self@.board.lives as nat).take(MAX_LIVES as int) =~= hearts(
            self@.board.lives as nat,
        ));
        text
    }

    /// Scores the outcome of the current round, once.
    fn finalize_round(&mut self)
        requires
            old(self)@.puzzle.wf(),
            old(self)@.puzzle.bits == old(self)@.bits,
            old(self)@.board.wf(),
            !old(self)@.board.game_over,
            old(self)@.round_finalized ==> old(self)@.puzzle.outcome is Some,
        ensures
            final(self)@ == old(self)@.finalized(),
            final(self)@.wf(),
    {
        if self.puzzle_resolved {
            return ;
        }
        if let Some(result) = self.puzzle.guess_result() {
            self.board = self.board.record(result);
            self.puzzle_resolved = true;
        }
    }

    /// Lets `dt` nanoseconds pass.
    pub fn run(&mut self, dt: u64)
        requires
            old(self)@.wf(),
        ensures
            final(self)@ == old(self)@.ticked(dt as nat),
            final(self)@.wf(),
    {
        if self.board.game_over {
            return ;
        }
        self.puzzle.run(dt);
        self.finalize_round();
    }

    /// Moves the cursor to the next candidate.
    pub fn select_next(&mut self)
        requires
            old(self)@.wf(),
        ensures
            final(self)@ == old(self)@.selected(Direction::Next),
            final(self)@.wf(),
    {
        if !self.board.game_over {
            self.puzzle.move_selection(Direction::Next);
        }
    }

    /// Moves the cursor to the previous candidate.
    pub fn select_previous(&mut self)
        requires
            old(self)@.wf(),
        ensures
            final(self)@ == old(self)@.selected(Direction::Previous),
            final(self)@.wf(),
    {
        if !self.board.game_over {
            self.puzzle.move_selection(Direction::Previous);
        }
    }

    /// Settles the round on the selected candidate and scores it.
    pub fn confirm(&mut self)
        requires
            old(self)@.wf(),
        ensures
            final(self)@ == old(self)@.confirmed(),
            final(self)@.wf(),
    {
        if self.board.game_over {
            return ;
        }
        self.puzzle.confirm_guess();
        self.finalize_round();
    }

    /// Gives the round up: it counts as timed out, and is scored.
    pub fn skip(&mut self)
        requires
            old(self)@.wf(),
        ensures
            final(self)@ == old(self)@.skipped(),
            final(self)@.wf(),
    {
        if self.board.game_over {
            return ;
        }
        self.puzzle.force_timeout();
        self.finalize_round();
    }

    /// Shows or hides the hint of the current round.
    pub fn toggle_hint(&mut self)
        requires
            old(self)@.wf(),
        ensures
            final(self)@ == old(self)@.hint_toggled(),
            final(self)@.wf(),
    {
        self.puzzle.toggle_hint();
    }

    /// Starts the next round with `next`, where one can be started.
    pub fn advance_round_with(&mut self, next: BinaryNumbersPuzzle)
        requires
            old(self)@.wf(),
            playable(old(self)@.bits, next@),
        ensures
            final(self)@ == old(self)@.advanced_round(next@),
            final(self)@.wf(),
    {
        if self.puzzle.guess_result().is_some() && !self.board.game_over {
            self.puzzle = next;
            self.puzzle_resolved = false;
        }
    }

    /// Starts the next round, drawn at random and made harder by the
    /// current streak, where one can be started: after a round that has an
    /// outcome, in a game that is not over. Otherwise nothing changes.
    pub fn advance_round(&mut self)
        requires
            old(self)@.wf(),
        ensures
            final(self)@ == old(self)@.advanced_round(final(self)@.puzzle),
            old(self)@.can_advance() ==> round_start(
                old(self)@.bits,
                old(self)@.board.streak as nat,
                final(self)@.puzzle,
            ),
            final(self)@.wf(),
    {
        if self.puzzle.guess_result().is_some() && !self.board.game_over {
            let next: BinaryNumbersPuzzle = Self::init_puzzle(self.bits, self.board.streak);
            self.advance_round_with(next);
        }
    }

    /// Starts the session afresh with `next` as its first round, where the
    /// game is over.
    pub fn reset_with(&mut self, next: BinaryNumbersPuzzle)
        requires
            old(self)@.wf(),
            playable(old(self)@.bits, next@),
        ensures
            final(self)@ == old(self)@.reset_to(next@),
            final(self)@.wf(),
    {
        if self.board.game_over {
            self.board = Scoreboard::new();
            self.puzzle_resolved = false;
            self.puzzle = next;
        }
    }

    /// Starts the session afresh, with a first round drawn at random, where
    /// the game is over. Otherwise nothing changes.
    pub fn reset(&mut self)
        requires
            old(self)@.wf(),
        ensures
            final(self)@ == old(self)@.reset_to(final(self)@.puzzle),
            old(self)@.board.game_over ==> round_start(old(self)@.bits, 0, final(self)@.puzzle),
            final(self)@.wf(),
    {
        if self.board.game_over {
            let next: BinaryNumbersPuzzle = Self::init_puzzle(self.bits, 0);
            self.reset_with(next);
        }
    }

    /// Handles a key press.
    pub fn handle_game_input(&mut self, input: KeyPress)
        requires
            old(self)@.wf(),
        ensures
            final(self)@ == old(self)@.keyed(input.key, final(self)@.puzzle),
            old(self)@.starts_round(input.key) ==> round_start(
                old(self)@.bits,
                old(self)@.next_streak(),
                final(self)@.puzzle,
            ),
            final(self)@.wf(),
    {
        if input.key == Key::Esc {
            self.exit_intended = true;
            return ;
        }
        if self.board.game_over {
            self.handle_game_over_input(input);
            return ;
        }
        if self.puzzle.guess_result().is_none() {
            self.handle_no_result_yet(input);
        } else {
            self.handle_result_available(input);
        }
    }

    /// Handles a key press once the game is over: Enter starts afresh.
    fn handle_game_over_input(&mut self, input: KeyPress)
        requires
            old(self)@.wf(),
            old(self)@.board.game_over,
            input.key != Key::Esc,
        ensures
            final(self)@ == old(self)@.keyed(input.key, final(self)@.puzzle),
            input.key == Key::Enter ==> round_start(old(self)@.bits, 0, final(self)@.puzzle),
            final(self)@.wf(),
    {
        if input.key == Key::Enter {
            self.reset();
        }
    }

    /// Handles a key press in an open round.
    fn handle_no_result_yet(&mut self, input: KeyPress)
        requires
            old(self)@.wf(),
            !old(self)@.board.game_over,
            old(self)@.puzzle.outcome is None,
            input.key != Key::Esc,
        ensures
            final(self)@ == old(self)@.keyed(input.key, final(self)@.puzzle),
            final(self)@.wf(),
    {
        if input.key == Key::Right {
            self.select_next();
        } else if input.key == Key::Left {
            self.select_previous();
        } else if input.key == Key::Enter {
            self.confirm();
        } else if input.key.letter('h', 'H') {
            self.toggle_hint();
        } else if input.key.letter('s', 'S') {
            self.skip();
        }
    }

    /// Handles a key press after a round, in a game that is not over.
    fn handle_result_available(&mut self, input: KeyPress)
        requires
            old(self)@.wf(),
            !old(self)@.board.game_over,
            old(self)@.puzzle.outcome is Some,
            input.key != Key::Esc,
        ensures
            final(self)@ == old(self)@.keyed(input.key, final(self)@.puzzle),
            input.key == Key::Enter ==> round_start(
                old(self)@.bits,
                old(self)@.board.streak as nat,
                final(self)@.puzzle,
            ),
            final(self)@.wf(),
    {
        if input.key == Key::Enter {
            self.advance_round();
        } else if input.key.letter('h', 'H') {
            self.toggle_hint();
        }
    }
}

} // verus!
