//! How a round looks: which colours and borders stand for which state. The
//! library decides these; whoever draws the round turns them into cells.

use crate::puzzle::{BinaryNumbersPuzzle, GuessResult, PuzzleState};
use vstd::prelude::*;

verus! {

/// A colour, by its meaning on the screen.
#[derive(Clone, Copy, Debug, PartialEq, Eq, Structural)]
pub enum Tone {
    Green,
    LightGreen,
    Red,
    Yellow,
    LightCyan,
    DarkGray,
    White,
}

/// The line a box is drawn with.
#[derive(Clone, Copy, Debug, PartialEq, Eq, Structural)]
pub enum Border {
    Plain,
    Double,
}

/// How one candidate is drawn.
#[derive(Clone, Copy, Debug, PartialEq, Eq, Structural)]
pub struct SuggestionLook {
    pub border: Border,
    pub border_tone: Tone,
    pub text_tone: Tone,
    pub underlined: bool,
}

/// The colour of an outcome: green for a correct round, red for an
/// incorrect one, yellow for one that timed out.
pub open spec fn outcome_tone(outcome: GuessResult) -> Tone {
    match outcome {
        GuessResult::Correct => Tone::Green,
        GuessResult::Incorrect => Tone::Red,
        GuessResult::Timeout => Tone::Yellow,
    }
}

/// The colour of the clock: green while more than six tenths of the time
/// are left, yellow while more than three tenths are, red after that.
pub open spec fn clock_tone(time_left: nat, time_total: nat) -> Tone {
    if 10 * time_left > 6 * time_total {
        Tone::Green
    } else if 10 * time_left > 3 * time_total {
        Tone::Yellow
    } else {
        Tone::Red
    }
}

impl PuzzleState {
    /// How the candidate at `index` is drawn. The one under the cursor has
    /// a double border, in the colour of the outcome, or light cyan while
    /// the round is open; the others have a plain dark border. Once the
    /// round has an outcome the hidden number is shown up: light green and
    /// underlined. Every other number is white.
    pub open spec fn look(self, index: int) -> SuggestionLook {
        let under_cursor = self.selected == Some(index);
        let shown_up = self.outcome is Some && self.suggestions[index] == self.target;
        SuggestionLook {
            border: if under_cursor {
                Border::Double
            } else {
                Border::Plain
            },
            border_tone: if under_cursor {
                match self.outcome {
                    Some(outcome) => outcome_tone(outcome),
                    None => Tone::LightCyan,
                }
            } else {
                Tone::DarkGray
            },
            text_tone: if shown_up {
                Tone::LightGreen
            } else {
                Tone::White
            },
            underlined: shown_up,
        }
    }
}

/// The colour of an outcome.
pub fn result_tone(outcome: GuessResult) -> (tone: Tone)
    ensures
        tone == outcome_tone(outcome),
{
    match outcome {
        GuessResult::Correct => Tone::Green,
        GuessResult::Incorrect => Tone::Red,
        GuessResult::Timeout => Tone::Yellow,
    }
}

/// The message that tells the player how the round ended.
pub fn result_text(outcome: GuessResult) -> (text: &'static str)
    ensures
        text@ == match outcome {
            GuessResult::Correct => ":) Correct Guess!"@,
            GuessResult::Incorrect => ":( Incorrect Guess!"@,
            GuessResult::Timeout => ":( Time's Up!"@,
        },
{
    match outcome {
        GuessResult::Correct => ":) Correct Guess!",
        GuessResult::Incorrect => ":( Incorrect Guess!",
        GuessResult::Timeout => ":( Time's Up!",
    }
}

impl BinaryNumbersPuzzle {
    /// How the candidate at `index` is drawn.
    pub fn suggestion_look(&self, index: usize) -> (look: SuggestionLook)
        requires
            index < self@.suggestions.len(),
        ensures
            look == self@.look(index as int),
    {
        let under_cursor: bool = match self.selected_index() {
            Some(i) => i == index,
            None => false,
        };
        let outcome: Option<GuessResult> = self.guess_result();
        let shown_up: bool = outcome.is_some() && self.is_correct_guess(self.suggestions()[index]);
        SuggestionLook {
            border: if under_cursor {
                Border::Double
            } else {
                Border::Plain
            },
            border_tone: if under_cursor {
                match outcome {
                    Some(result) => result_tone(result),
                    None => Tone::LightCyan,
                }
            } else {
                Tone::DarkGray
            },
            text_tone: if shown_up {
                Tone::LightGreen
            } else {
                Tone::White
            },
            underlined: shown_up,
        }
    }

    /// The colour of the clock.
    pub fn gauge_tone(&self) -> (tone: Tone)
        ensures
            tone == clock_tone(self@.time_left, self@.time_total),
    {
        let left: u128 = self.time_left() as u128;
        let total: u128 = self.time_total() as u128;
        if 10 * left > 6 * total {
            Tone::Green
        } else if 10 * left > 3 * total {
            Tone::Yellow
        } else {
            Tone::Red
        }
    }
}

} // verus!
