use binbreak::puzzle::GuessResult;
use binbreak::scoreboard::{Scoreboard, BASE_POINTS, LIFE_EVERY, MAX_LIVES, START_LIVES};

#[test]
fn new_board_has_three_lives_and_nothing_else() {
    let board = Scoreboard::new();
    assert_eq!(
        board,
        Scoreboard { score: 0, streak: 0, rounds: 0, lives: 3, game_over: false }
    );
    assert_eq!(START_LIVES, 3);
    assert_eq!(MAX_LIVES, 5);
    assert_eq!(BASE_POINTS, 10);
    assert_eq!(LIFE_EVERY, 5);
}

#[test]
fn correct_round_earns_ten_and_twice_the_streak() {
    let board = Scoreboard::new().record(GuessResult::Correct);
    assert_eq!(
        board,
        Scoreboard { score: 12, streak: 1, rounds: 1, lives: 3, game_over: false }
    );
    let board = board.record(GuessResult::Correct);
    assert_eq!(
        board,
        Scoreboard { score: 26, streak: 2, rounds: 2, lives: 3, game_over: false }
    );
}

#[test]
fn streak_of_correct_rounds_raises_the_score_each_time() {
    let mut board = Scoreboard::new();
    let mut expected_score = 0;
    for n in 1..=12u32 {
        let before = board.score;
        board = board.record(GuessResult::Correct);
        expected_score += 10 + 2 * n;
        assert!(board.score > before);
        assert_eq!(board.score, expected_score);
        assert_eq!(board.score, 10 * n + n * (n + 1));
        assert_eq!(board.streak, n);
        assert_eq!(board.rounds, n);
        assert!(!board.game_over);
    }
    assert_eq!(board.score, 276);
}

#[test]
fn life_is_earned_at_each_fifth_round_of_a_streak() {
    let mut board = Scoreboard::new();
    let mut lives = Vec::new();
    for _ in 0..16 {
        board = board.record(GuessResult::Correct);
        lives.push(board.lives);
    }
    assert_eq!(lives, vec![3, 3, 3, 3, 4, 4, 4, 4, 4, 5, 5, 5, 5, 5, 5, 5]);
}

#[test]
fn lives_are_capped_at_five() {
    let board = Scoreboard { score: 100, streak: 4, rounds: 9, lives: 5, game_over: false };
    let board = board.record(GuessResult::Correct);
    assert_eq!(
        board,
        Scoreboard { score: 120, streak: 5, rounds: 10, lives: 5, game_over: false }
    );
    let board = Scoreboard { score: 100, streak: 9, rounds: 9, lives: 4, game_over: false };
    let board = board.record(GuessResult::Correct);
    assert_eq!(board.lives, 5);
    assert_eq!(board.score, 130);
}

#[test]
fn lost_round_ends_the_streak_and_costs_a_life() {
    let board = Scoreboard { score: 26, streak: 2, rounds: 2, lives: 3, game_over: false };
    assert_eq!(
        board.record(GuessResult::Incorrect),
        Scoreboard { score: 26, streak: 0, rounds: 3, lives: 2, game_over: false }
    );
    assert_eq!(
        board.record(GuessResult::Timeout),
        Scoreboard { score: 26, streak: 0, rounds: 3, lives: 2, game_over: false }
    );
}

#[test]
fn three_lost_rounds_end_the_game() {
    let outcomes = [GuessResult::Incorrect, GuessResult::Timeout];
    for a in outcomes {
        for b in outcomes {
            for c in outcomes {
                let board = Scoreboard::new().record(a);
                assert_eq!(board.lives, 2);
                assert!(!board.game_over);
                let board = board.record(b);
                assert_eq!(board.lives, 1);
                assert!(!board.game_over);
                let board = board.record(c);
                assert_eq!(
                    board,
                    Scoreboard { score: 0, streak: 0, rounds: 3, lives: 0, game_over: true }
                );
            }
        }
    }
}

#[test]
fn correct_round_between_lost_rounds_does_not_give_a_life_back() {
    let board = Scoreboard::new()
        .record(GuessResult::Incorrect)
        .record(GuessResult::Correct)
        .record(GuessResult::Timeout)
        .record(GuessResult::Incorrect);
    assert_eq!(
        board,
        Scoreboard { score: 12, streak: 0, rounds: 4, lives: 0, game_over: true }
    );
}

#[test]
fn board_is_frozen_once_the_game_is_over() {
    let over = Scoreboard { score: 40, streak: 0, rounds: 7, lives: 0, game_over: true };
    assert_eq!(over.record(GuessResult::Correct), over);
    assert_eq!(over.record(GuessResult::Incorrect), over);
    assert_eq!(over.record(GuessResult::Timeout), over);
}

#[test]
fn counters_stop_at_the_largest_number() {
    let board =
        Scoreboard { score: u32::MAX - 5, streak: 7, rounds: u32::MAX, lives: 3, game_over: false };
    let board = board.record(GuessResult::Correct);
    assert_eq!(board.score, u32::MAX);
    assert_eq!(board.streak, 8);
    assert_eq!(board.rounds, u32::MAX);
    let board =
        Scoreboard { score: 0, streak: u32::MAX, rounds: 0, lives: 3, game_over: false };
    let board = board.record(GuessResult::Correct);
    assert_eq!(board.streak, u32::MAX);
    assert_eq!(board.score, u32::MAX);
    assert_eq!(board.lives, 4);
}
