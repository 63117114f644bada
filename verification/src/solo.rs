//! The guessing game run on its own: a start menu to pick the difficulty,
//! then the game, and back to the menu when the game is left.

use crate::bits::Bits;
use crate::frame::{frame_rest, poll_timeout, rest_of, smaller, TARGET_FRAME_GAME};
use crate::game::{round_start, BinaryNumbersGame, GameState};
use crate::input::{Key, KeyPress};
use crate::menu::{place_after, place_before, settled, MenuOrientation, StatefulMenu};
use vstd::prelude::*;

verus! {

/// The widths in the order of the start menu.
pub open spec fn difficulties() -> Seq<Bits> {
    seq![Bits::Four, Bits::Eight, Bits::Twelve, Bits::Sixteen]
}

/// The name of a difficulty in the start menu.
pub fn difficulty_label(bits: Bits) -> (label: &'static str)
    ensures
        label@ == match bits {
            Bits::Four => "easy (4 bits)"@,
            Bits::Eight => "normal (8 bits)"@,
            Bits::Twelve => "master (12 bits)"@,
            Bits::Sixteen => "insane (16 bits)"@,
        },
{
    match bits {
        Bits::Four => "easy (4 bits)",
        Bits::Eight => "normal (8 bits)",
        Bits::Twelve => "master (12 bits)",
        Bits::Sixteen => "insane (16 bits)",
    }
}

/// The start menu: the four difficulties and a cursor.
pub struct StartMenuState {
    menu: StatefulMenu<Bits>,
}

/// The width under a cursor at `selected` in the start menu: the cursor
/// counts as on the first entry where there is none, and as on the last
/// where it lies behind it.
pub open spec fn picked(selected: Option<usize>) -> Bits {
    match settled(selected, difficulties().len()) {
        Some(i) => difficulties()[i as int],
        None => difficulties()[0],
    }
}

impl StartMenuState {
    /// The place of the cursor, which may lie behind the last entry until
    /// the menu is settled.
    pub closed spec fn cursor(self) -> Option<usize> {
        self.menu@.selected
    }

    /// Whether the menu holds the four difficulties, in order.
    pub closed spec fn wf(self) -> bool {
        &&& self.menu@.items == difficulties()
        &&& self.menu@.orientation == MenuOrientation::Vertical
    }

    /// The start menu with the cursor on the second entry, eight bits.
    pub fn new() -> (state: Self)
        ensures
            state.wf(),
            state.cursor() == Some(1usize),
    {
        let mut items: Vec<Bits> = Vec::new();
        items.push(Bits::Four);
        items.push(Bits::Eight);
        items.push(Bits::Twelve);
        items.push(Bits::Sixteen);
        assert(items@ =~= difficulties());
        StartMenuState { menu: StatefulMenu::new(MenuOrientation::Vertical, items, Some(1)) }
    }

    /// The difficulties, in the order of the menu.
    pub fn items(&self) -> (items: &Vec<Bits>)
        requires
            self.wf(),
        ensures
            items@ == difficulties(),
    {
        self.menu.items()
    }

    /// The place of the cursor, if there is a cursor.
    pub fn selected(&self) -> (selected: Option<usize>)
        ensures
            selected == self.cursor(),
    {
        self.menu.selected()
    }

    /// The place of the cursor, or the first place where there is none.
    pub fn selected_index(&self) -> (index: usize)
        ensures
            index == match self.cursor() {
                Some(i) => i,
                None => 0,
            },
    {
        match self.menu.selected() {
            Some(i) => i,
            None => 0,
        }
    }

    /// The width under the cursor.
    pub fn selected_bits(&self) -> (bits: Bits)
        requires
            self.wf(),
        ensures
            bits == picked(self.cursor()),
    {
        let items: &Vec<Bits> = self.menu.items();
        let index: usize = self.selected_index();
        if index < items.len() {
            items[index]
        } else {
            items[items.len() - 1]
        }
    }

    /// Moves the cursor one place on.
    pub fn select_next(&mut self)
        requires
            old(self).wf(),
        ensures
            final(self).wf(),
            final(self).cursor() == place_after(old(self).cursor()),
    {
        self.menu.select_next();
    }

    /// Moves the cursor one place back.
    pub fn select_previous(&mut self)
        requires
            old(self).wf(),
        ensures
            final(self).wf(),
            final(self).cursor() == place_before(old(self).cursor()),
    {
        self.menu.select_previous();
    }

    /// Puts the cursor where the list shows it once it is drawn.
    pub fn settle(&mut self)
        requires
            old(self).wf(),
        ensures
            final(self).wf(),
            final(self).cursor() == settled(old(self).cursor(), 4),
    {
        self.menu.settle();
    }
}

/// What is on the screen.
pub enum AppState {
    Start(StartMenuState),
    Playing(BinaryNumbersGame),
    Exit,
}

/// What a key press in the start menu does.
#[derive(Clone, Copy, Debug, PartialEq, Eq, Structural)]
pub enum StartChoice {
    /// The cursor goes to this place, and the menu stays.
    Stay(Option<usize>),
    /// A game with this width starts.
    Play(Bits),
    /// The program ends.
    Leave,
}

/// What `input` does in a start menu with the cursor at `selected`: Up
/// and Down move the cursor, Enter starts a game with the width under the
/// cursor, Esc and control with `c` end the program, and any other key
/// does nothing.
pub open spec fn start_choice(selected: Option<usize>, input: KeyPress) -> StartChoice {
    if input.key == Key::Up {
        StartChoice::Stay(place_before(selected))
    } else if input.key == Key::Down {
        StartChoice::Stay(place_after(selected))
    } else if input.key == Key::Enter {
        StartChoice::Play(picked(selected))
    } else if input.key == Key::Esc || input.is_quit() {
        StartChoice::Leave
    } else {
        StartChoice::Stay(selected)
    }
}

/// The key that the game gets for `input`: control with `c` counts as
/// Esc, every other press as its key.
pub open spec fn game_key(input: KeyPress) -> Key {
    if input.is_quit() {
        Key::Esc
    } else {
        input.key
    }
}

impl AppState {
    /// Whether what is on the screen is well formed.
    pub open spec fn wf(self) -> bool {
        match self {
            AppState::Start(menu) => menu.wf(),
            AppState::Playing(game) => game@.wf(),
            AppState::Exit => true,
        }
    }

    /// Whether the program is to end.
    pub fn is_exit(&self) -> (exit: bool)
        ensures
            exit == (*self is Exit),
    {
        match self {
            AppState::Exit => true,
            _ => false,
        }
    }

    /// Lets `dt` nanoseconds pass. A game runs for that long; if it then
    /// wants to be left, the start menu comes back and the rest of the
    /// frame is to be skipped, which the result says. Nothing else
    /// changes.
    pub fn update(&mut self, dt: u64) -> (skip: bool)
        requires
            old(self).wf(),
        ensures
            final(self).wf(),
            match *old(self) {
                AppState::Playing(game) => if game@.ticked(dt as nat).exit_intended {
                    skip && (*final(self) matches AppState::Start(menu) && menu.cursor() == Some(
                        1usize,
                    ))
                } else {
                    !skip && (*final(self) matches AppState::Playing(then) && then@ == game@.ticked(
                        dt as nat,
                    ))
                },
                _ => !skip && *final(self) == *old(self),
            },
    {
        let mut leave: bool = false;
        match self {
            AppState::Playing(game) => {
                game.run(dt);
                leave = game.is_exit_intended();
            },
            _ => {},
        }
        if leave {
            *self = AppState::Start(StartMenuState::new());
        }
        leave
    }

    /// What a key press does to what is on the screen.
    pub fn on_key(self, input: KeyPress) -> (then: AppState)
        requires
            self.wf(),
        ensures
            then.wf(),
            match self {
                AppState::Start(menu) => match start_choice(menu.cursor(), input) {
                    StartChoice::Stay(cursor) => then matches AppState::Start(m) && m.cursor()
                        == cursor,
                    StartChoice::Play(bits) => then matches AppState::Playing(game) && game@
                        == GameState::started(bits, game@.puzzle) && round_start(
                        bits,
                        0,
                        game@.puzzle,
                    ),
                    StartChoice::Leave => then is Exit,
                },
                AppState::Playing(game) => then matches AppState::Playing(after) && after@
                    == game@.keyed(game_key(input), after@.puzzle) && (game@.starts_round(
                    game_key(input),
                ) ==> round_start(game@.bits, game@.next_streak(), after@.puzzle)),
                AppState::Exit => then is Exit,
            },
    {
        match self {
            AppState::Start(mut menu) => {
                match handle_start_input(&mut menu, input) {
                    Some(next) => next,
                    None => AppState::Start(menu),
                }
            },
            AppState::Playing(mut game) => {
                handle_game_key(&mut game, input);
                AppState::Playing(game)
            },
            AppState::Exit => AppState::Exit,
        }
    }
}

/// Handles a key press in the start menu. The result is what comes on the
/// screen instead of the menu, if anything does.
pub fn handle_start_input(state: &mut StartMenuState, input: KeyPress) -> (next: Option<AppState>)
    requires
        old(state).wf(),
    ensures
        final(state).wf(),
        match start_choice(old(state).cursor(), input) {
            StartChoice::Stay(cursor) => next is None && final(state).cursor() == cursor,
            StartChoice::Play(bits) => final(state).cursor() == old(state).cursor() && (next matches Some(
                AppState::Playing(game),
            ) && game@.wf() && game@ == GameState::started(bits, game@.puzzle) && round_start(
                bits,
                0,
                game@.puzzle,
            )),
            StartChoice::Leave => final(state).cursor() == old(state).cursor() && next == Some(
                AppState::Exit,
            ),
        },
{
    if input.key == Key::Up {
        state.select_previous();
    } else if input.key == Key::Down {
        state.select_next();
    } else if input.key == Key::Enter {
        let bits: Bits = state.selected_bits();
        return Some(AppState::Playing(BinaryNumbersGame::new(bits)));
    } else if input.key == Key::Esc {
        return Some(AppState::Exit);
    } else if input.quits() {
        return Some(AppState::Exit);
    }
    None
}

/// Handles a key press while the game is on the screen: control with `c`
/// reaches the game as Esc.
pub fn handle_game_key(game: &mut BinaryNumbersGame, input: KeyPress)
    requires
        old(game)@.wf(),
    ensures
        final(game)@ == old(game)@.keyed(game_key(input), final(game)@.puzzle),
        old(game)@.starts_round(game_key(input)) ==> round_start(
            old(game)@.bits,
            old(game)@.next_streak(),
            final(game)@.puzzle,
        ),
        final(game)@.wf(),
{
    if input.quits() {
        game.handle_game_input(KeyPress::plain(Key::Esc));
    } else {
        game.handle_game_input(input);
    }
}

/// How long the loop waits for input in a frame that started `dt` after
/// the one before: as long as that, but no longer than a frame is meant to
/// be.
pub fn input_timeout(dt: u64) -> (timeout: u64)
    ensures
        timeout == smaller(dt as int, TARGET_FRAME_GAME as int),
{
    poll_timeout(dt, TARGET_FRAME_GAME)
}

/// How long the loop rests at the end of a frame that has taken `elapsed`.
pub fn rest(elapsed: u64) -> (rest: u64)
    ensures
        rest == rest_of(elapsed as int, TARGET_FRAME_GAME as int),
{
    frame_rest(elapsed, TARGET_FRAME_GAME)
}

} // verus!
