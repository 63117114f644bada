//! The score across rounds: points, streak, rounds played and lives.

use crate::puzzle::GuessResult;
use vstd::prelude::*;

verus! {

/// No streak earns more lives than this.
pub const MAX_LIVES: u32 = 5;

/// The lives a session starts with.
pub const START_LIVES: u32 = 3;

/// The points a correct round earns before the streak bonus.
pub const BASE_POINTS: u32 = 10;

/// A streak earns a life each time its length reaches a multiple of this.
pub const LIFE_EVERY: u32 = 5;

/// `sum` as a `u32`, or the largest `u32` where it does not fit.
pub open spec fn capped(sum: int) -> u32 {
    if sum > u32::MAX {
        u32::MAX
    } else {
        sum as u32
    }
}

/// The score of a session. The counters stop at the largest `u32` rather
/// than wrap.
#[derive(Clone, Copy, Debug, PartialEq, Eq, Structural)]
pub struct Scoreboard {
    pub score: u32,
    /// Correct rounds in a row, up to now.
    pub streak: u32,
    /// Rounds that have been scored.
    pub rounds: u32,
    pub lives: u32,
    pub game_over: bool,
}

impl Scoreboard {
    /// The board of a new session: no points, no streak, no rounds played,
    /// three lives.
    pub open spec fn start() -> Scoreboard {
        Scoreboard { score: 0, streak: 0, rounds: 0, lives: START_LIVES, game_over: false }
    }

    /// What holds of the board of every session: the lives never exceed
    /// `MAX_LIVES`, and the game is over exactly when none is left.
    pub open spec fn wf(self) -> bool {
        &&& self.lives <= MAX_LIVES
        &&& (self.lives == 0 <==> self.game_over)
    }

    /// The points a correct round earns when it brings the streak to
    /// `streak`.
    pub open spec fn points(streak: int) -> int {
        BASE_POINTS + 2 * streak
    }

    /// The board after a round that ended with `outcome` has been scored.
    ///
    /// Once the game is over the board is frozen. Otherwise the round is
    /// counted. A correct round lengthens the streak by one, earns
    /// `points` of the new streak, and, where the new streak is a multiple
    /// of `LIFE_EVERY`, a life, unless the lives are at `MAX_LIVES`. Any
    /// other round ends the streak and costs a life; with the last life the
    /// game is over.
    pub open spec fn scored(self, outcome: GuessResult) -> Scoreboard {
        if self.game_over {
            self
        } else {
            match outcome {
                GuessResult::Correct => {
                    let streak = capped(self.streak + 1);
                    let lives = if streak % LIFE_EVERY == 0 && self.lives < MAX_LIVES {
                        (self.lives + 1) as u32
                    } else {
                        self.lives
                    };
                    Scoreboard {
                        score: capped(self.score + Self::points(streak as int)),
                        streak,
                        rounds: capped(self.rounds + 1),
                        lives,
                        game_over: lives == 0,
                    }
                },
                _ => {
                    let lives = if self.lives > 0 {
                        (self.lives - 1) as u32
                    } else {
                        0
                    };
                    Scoreboard {
                        score: self.score,
                        streak: 0,
                        rounds: capped(self.rounds + 1),
                        lives,
                        game_over: lives == 0,
                    }
                },
            }
        }
    }

    /// The board after the rounds in `outcomes` have been scored, first to
    /// last.
    pub open spec fn scored_all(self, outcomes: Seq<GuessResult>) -> Scoreboard
        decreases outcomes.len(),
    {
        if outcomes.len() == 0 {
            self
        } else {
            self.scored_all(outcomes.drop_last()).scored(outcomes.last())
        }
    }

    /// The board of a new session.
    pub fn new() -> (board: Scoreboard)
        ensures
            board == Scoreboard::start(),
            board.wf(),
    {
        Scoreboard { score: 0, streak: 0, rounds: 0, lives: START_LIVES, game_over: false }
    }

    /// Scores a round that ended with `outcome`.
    pub fn record(self, outcome: GuessResult) -> (board: Scoreboard)
        ensures
            board == self.scored(outcome),
            self.wf() ==> board.wf(),
    {
        if self.game_over {
            return self;
        }
        let rounds: u32 = self.rounds.saturating_add(1);
        match outcome {
            GuessResult::Correct => {
                let streak: u32 = self.streak.saturating_add(1);
                let total: u64 = self.score as u64 + BASE_POINTS as u64 + 2 * (streak as u64);
                let score: u32 = if total > u32::MAX as u64 {
                    u32::MAX
                } else {
                    total as u32
                };
                let lives: u32 = if streak % LIFE_EVERY == 0 && self.lives < MAX_LIVES {
                    self.lives + 1
                } else {
                    self.lives
                };
                Scoreboard { score, streak, rounds, lives, game_over: lives == 0 }
            },
            _ => {
                let lives: u32 = self.lives.saturating_sub(1);
                Scoreboard { score: self.score, streak: 0, rounds, lives, game_over: lives == 0 }
            },
        }
    }
}

/// `n` correct rounds in a row.
pub open spec fn all_correct(n: nat) -> Seq<GuessResult> {
    Seq::new(n, |i: int| GuessResult::Correct)
}

/// The lives a streak has earned when it has grown from `from` to `to`: one
/// for each multiple of `LIFE_EVERY` that it has reached on the way.
pub open spec fn lives_earned(from: int, to: int) -> int {
    to / (LIFE_EVERY as int) - from / (LIFE_EVERY as int)
}

/// The points that `n` correct rounds in a row earn after a streak of
/// `streak`: `points` of `streak + 1`, `streak + 2`, ... `streak + n`, added
/// up.
pub open spec fn run_points(streak: int, n: int) -> int {
    10 * n + 2 * streak * n + n * (n + 1)
}

/// The points of a run are those of the run without its last round, and
/// the points of that round.
pub proof fn lemma_run_points(streak: int, n: int)
    requires
        streak >= 0,
        n >= 0,
    ensures
        run_points(streak, 0) == 0,
        run_points(streak, n + 1) == run_points(streak, n) + Scoreboard::points(streak + n + 1),
        run_points(streak, n) >= 0,
{
    assert(run_points(streak, 0) == 0) by (nonlinear_arith);
    assert(run_points(streak, n + 1) == run_points(streak, n) + 10 + 2 * (streak + n + 1))
        by (nonlinear_arith);
    assert(run_points(streak, n) >= 0) by (nonlinear_arith)
        requires
            streak >= 0,
            n >= 0,
    ;
}

/// What a correct round does to a board whose counters have room, in a
/// game that is not over: the score grows, by `points` of the new streak;
/// the streak grows by one; a life is gained exactly where the new streak
/// is a multiple of `LIFE_EVERY` and the lives are under `MAX_LIVES`.
pub proof fn lemma_correct_round(board: Scoreboard)
    requires
        !board.game_over,
        board.streak < u32::MAX,
        board.score + Scoreboard::points(board.streak + 1) <= u32::MAX,
    ensures
        board.scored(GuessResult::Correct).score > board.score,
        board.scored(GuessResult::Correct).score == board.score + Scoreboard::points(
            board.streak + 1,
        ),
        board.scored(GuessResult::Correct).streak == board.streak + 1,
        board.scored(GuessResult::Correct).lives == if (board.streak + 1) % (LIFE_EVERY as int)
            == 0 && board.lives < MAX_LIVES {
            board.lives + 1
        } else {
            board.lives as int
        },
{
}

/// A run of `n` correct rounds, on a board whose counters have room for
/// it, in a game that is not over: the streak grows by `n`, so from zero
/// it becomes `n`; the score grows by ten points and twice the streak for
/// each round, which is more with every round; the lives grow by one for
/// each multiple of `LIFE_EVERY` that the streak reaches, up to
/// `MAX_LIVES`.
pub proof fn lemma_correct_run(board: Scoreboard, n: nat)
    requires
        board.wf(),
        !board.game_over,
        board.streak + n <= u32::MAX,
        board.rounds + n <= u32::MAX,
        board.score + run_points(board.streak as int, n as int) <= u32::MAX,
    ensures
        board.scored_all(all_correct(n)).streak == board.streak + n,
        board.scored_all(all_correct(n)).rounds == board.rounds + n,
        board.scored_all(all_correct(n)).score == board.score + run_points(
            board.streak as int,
            n as int,
        ),
        n > 0 ==> board.scored_all(all_correct(n)).score > board.scored_all(
            all_correct((n - 1) as nat),
        ).score,
        n > 0 ==> board.scored_all(all_correct(n)).score > board.score,
        board.scored_all(all_correct(n)).lives == if board.lives + lives_earned(
            board.streak as int,
            board.streak + n,
        ) > MAX_LIVES {
            MAX_LIVES as int
        } else {
            board.lives + lives_earned(board.streak as int, board.streak + n)
        },
        !board.scored_all(all_correct(n)).game_over,
        board.scored_all(all_correct(n)).wf(),
    decreases n,
{
    if n == 0 {
        assert(all_correct(0).len() == 0);
        lemma_run_points(board.streak as int, 0);
    } else {
        let m = (n - 1) as nat;
        let s = board.streak as int;
        assert(all_correct(n).drop_last() =~= all_correct(m));
        assert(all_correct(n).last() == GuessResult::Correct);
        lemma_run_points(s, m as int);
        lemma_correct_run(board, m);
        let before = board.scored_all(all_correct(m));
        assert(board.scored_all(all_correct(n)) == before.scored(GuessResult::Correct));
        lemma_correct_round(before);
    }
}

/// What a round that is not correct does, in a game that is not over: the
/// streak ends, the score stays, a life is lost, and with the last life
/// the game is over.
pub proof fn lemma_lost_round(board: Scoreboard, outcome: GuessResult)
    requires
        board.wf(),
        !board.game_over,
        outcome != GuessResult::Correct,
    ensures
        board.scored(outcome).streak == 0,
        board.scored(outcome).score == board.score,
        board.scored(outcome).lives == board.lives - 1,
        board.scored(outcome).game_over == (board.lives == 1),
        board.scored(outcome).wf(),
{
}

/// From three lives, three rounds in a row that are not correct end the
/// game: the lives are at zero, the game is over, and it was not over
/// before the third.
pub proof fn lemma_three_lost_rounds(
    board: Scoreboard,
    first: GuessResult,
    second: GuessResult,
    third: GuessResult,
)
    requires
        board.lives == START_LIVES,
        !board.game_over,
        first != GuessResult::Correct,
        second != GuessResult::Correct,
        third != GuessResult::Correct,
    ensures
        !board.scored(first).scored(second).game_over,
        board.scored(first).scored(second).scored(third).lives == 0,
        board.scored(first).scored(second).scored(third).game_over,
        board.scored(first).scored(second).scored(third).streak == 0,
        board.scored(first).scored(second).scored(third) == board.scored_all(
            seq![first, second, third],
        ),
{
    let outcomes = seq![first, second, third];
    assert(outcomes.drop_last() =~= seq![first, second]);
    assert(seq![first, second].drop_last() =~= seq![first]);
    assert(seq![first].drop_last() =~= Seq::<GuessResult>::empty());
    assert(board.scored_all(Seq::<GuessResult>::empty()) == board);
    assert(board.scored_all(seq![first]) == board.scored(first));
    assert(board.scored_all(seq![first, second]) == board.scored(first).scored(second));
}

/// Once the game is over, scoring changes nothing.
pub proof fn lemma_game_over_is_frozen(board: Scoreboard, outcome: GuessResult)
    requires
        board.game_over,
    ensures
        board.scored(outcome) == board,
{
}

} // verus!
