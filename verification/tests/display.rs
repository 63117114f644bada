use binbreak::bits::Bits;
use binbreak::display::{result_text, result_tone, Border, SuggestionLook, Tone};
use binbreak::puzzle::{BinaryNumbersPuzzle, Direction, GuessResult};

const SECOND: u64 = 1_000_000_000;

fn round() -> BinaryNumbersPuzzle {
    BinaryNumbersPuzzle::with_suggestions(Bits::Eight, 0, vec![1, 170, 3, 4], 170).unwrap()
}

const PLAIN: SuggestionLook = SuggestionLook {
    border: Border::Plain,
    border_tone: Tone::DarkGray,
    text_tone: Tone::White,
    underlined: false,
};

#[test]
fn outcomes_have_their_colours() {
    assert_eq!(result_tone(GuessResult::Correct), Tone::Green);
    assert_eq!(result_tone(GuessResult::Incorrect), Tone::Red);
    assert_eq!(result_tone(GuessResult::Timeout), Tone::Yellow);
}

#[test]
fn outcomes_have_their_messages() {
    assert_eq!(result_text(GuessResult::Correct), ":) Correct Guess!");
    assert_eq!(result_text(GuessResult::Incorrect), ":( Incorrect Guess!");
    assert_eq!(result_text(GuessResult::Timeout), ":( Time's Up!");
}

#[test]
fn open_round_marks_only_the_cursor() {
    let puzzle = round();
    assert_eq!(
        puzzle.suggestion_look(0),
        SuggestionLook { border: Border::Double, border_tone: Tone::LightCyan, ..PLAIN }
    );
    assert_eq!(puzzle.suggestion_look(1), PLAIN);
    assert_eq!(puzzle.suggestion_look(2), PLAIN);
    assert_eq!(puzzle.suggestion_look(3), PLAIN);
}

#[test]
fn won_round_shows_the_target_under_a_green_cursor() {
    let mut puzzle = round();
    puzzle.move_selection(Direction::Next);
    puzzle.confirm_guess();
    assert_eq!(
        puzzle.suggestion_look(1),
        SuggestionLook {
            border: Border::Double,
            border_tone: Tone::Green,
            text_tone: Tone::LightGreen,
            underlined: true,
        }
    );
    assert_eq!(puzzle.suggestion_look(0), PLAIN);
    assert_eq!(puzzle.suggestion_look(3), PLAIN);
}

#[test]
fn lost_round_shows_the_target_beside_a_red_cursor() {
    let mut puzzle = round();
    puzzle.confirm_guess();
    assert_eq!(
        puzzle.suggestion_look(0),
        SuggestionLook { border: Border::Double, border_tone: Tone::Red, ..PLAIN }
    );
    assert_eq!(
        puzzle.suggestion_look(1),
        SuggestionLook { text_tone: Tone::LightGreen, underlined: true, ..PLAIN }
    );
    assert_eq!(puzzle.suggestion_look(2), PLAIN);
}

#[test]
fn timed_out_round_has_a_yellow_cursor() {
    let mut puzzle = round();
    puzzle.move_selection(Direction::Previous);
    puzzle.force_timeout();
    assert_eq!(
        puzzle.suggestion_look(3),
        SuggestionLook { border: Border::Double, border_tone: Tone::Yellow, ..PLAIN }
    );
    assert_eq!(
        puzzle.suggestion_look(1),
        SuggestionLook { text_tone: Tone::LightGreen, underlined: true, ..PLAIN }
    );
}

#[test]
fn clock_turns_yellow_at_six_tenths_and_red_at_three() {
    let mut puzzle = round();
    assert_eq!(puzzle.gauge_tone(), Tone::Green);
    // 12 s in all: 7.2 s is six tenths, 3.6 s is three tenths.
    puzzle.run(4_799_999_999);
    assert_eq!(puzzle.time_left(), 7_200_000_001);
    assert_eq!(puzzle.gauge_tone(), Tone::Green);
    puzzle.run(1);
    assert_eq!(puzzle.gauge_tone(), Tone::Yellow);
    puzzle.run(3_599_999_999);
    assert_eq!(puzzle.time_left(), 3_600_000_001);
    assert_eq!(puzzle.gauge_tone(), Tone::Yellow);
    puzzle.run(1);
    assert_eq!(puzzle.gauge_tone(), Tone::Red);
    puzzle.run(4 * SECOND);
    assert_eq!(puzzle.time_left(), 0);
    assert_eq!(puzzle.gauge_tone(), Tone::Red);
}
