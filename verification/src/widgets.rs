//! The screens the main menu leads to. Each can be run, fed key presses
//! and asked whether it wants to be left.

use crate::bits::Bits;
use crate::game::{round_start, BinaryNumbersGame, GameState};
use crate::input::{Key, KeyPress};
use crate::menu::MainMenuEntry;
use crate::puzzle::PuzzleState;
use vstd::prelude::*;

verus! {

/// The screen that shows a piece of ASCII art. It reacts to nothing.
pub struct AsciiArtMain {
    exit_intended: bool,
}

/// The settings screen. It reacts to nothing.
pub struct SettingsMain {
    exit_intended: bool,
}

/// The weather screen. It reacts to nothing.
pub struct WeatherMain {
    exit_intended: bool,
}

impl AsciiArtMain {
    /// Whether the screen wants to be left.
    pub closed spec fn exit(self) -> bool {
        self.exit_intended
    }

    /// The screen as it is opened.
    pub fn new() -> (screen: Self)
        ensures
            !screen.exit(),
    {
        Self { exit_intended: false }
    }

    /// Whether the screen wants to be left.
    pub fn is_exit_intended(&self) -> (exit: bool)
        ensures
            exit == self.exit(),
    {
        self.exit_intended
    }
}

impl SettingsMain {
    /// Whether the screen wants to be left.
    pub closed spec fn exit(self) -> bool {
        self.exit_intended
    }

    /// The screen as it is opened.
    pub fn new() -> (screen: Self)
        ensures
            !screen.exit(),
    {
        Self { exit_intended: false }
    }

    /// Whether the screen wants to be left.
    pub fn is_exit_intended(&self) -> (exit: bool)
        ensures
            exit == self.exit(),
    {
        self.exit_intended
    }
}

impl WeatherMain {
    /// Whether the screen wants to be left.
    pub closed spec fn exit(self) -> bool {
        self.exit_intended
    }

    /// The screen as it is opened.
    pub fn new() -> (screen: Self)
        ensures
            !screen.exit(),
    {
        Self { exit_intended: false }
    }

    /// Whether the screen wants to be left.
    pub fn is_exit_intended(&self) -> (exit: bool)
        ensures
            exit == self.exit(),
    {
        self.exit_intended
    }
}

/// The screen that is shown beside the main menu.
pub enum MainScreenWidget {
    Settings(SettingsMain),
    Weather(WeatherMain),
    AsciiArt(AsciiArtMain),
    BinaryNumbers(BinaryNumbersGame),
}

/// A screen as a mathematical value.
pub enum WidgetState {
    /// One of the screens that react to nothing, and whether it wants to
    /// be left.
    Still(MainMenuEntry, bool),
    /// The guessing game.
    Game(GameState),
}

impl WidgetState {
    /// Whether the screen is well formed: a game is if its session is.
    pub open spec fn wf(self) -> bool {
        match self {
            WidgetState::Still(entry, _) => entry == MainMenuEntry::Settings || entry
                == MainMenuEntry::Weather || entry == MainMenuEntry::AsciiArt,
            WidgetState::Game(game) => game.wf(),
        }
    }

    /// Whether the screen wants to be left.
    pub open spec fn exit_intended(self) -> bool {
        match self {
            WidgetState::Still(_, exit) => exit,
            WidgetState::Game(game) => game.exit_intended,
        }
    }

    /// The screen after `dt` nanoseconds: only a game changes.
    pub open spec fn ticked(self, dt: nat) -> WidgetState {
        match self {
            WidgetState::Game(game) => WidgetState::Game(game.ticked(dt)),
            _ => self,
        }
    }

    /// The screen after `key`, where `next` is the round a game starts if
    /// the key starts one: only a game changes.
    pub open spec fn keyed(self, key: Key, next: PuzzleState) -> WidgetState {
        match self {
            WidgetState::Game(game) => WidgetState::Game(game.keyed(key, next)),
            _ => self,
        }
    }

    /// The round that is being played, where the screen is a game.
    pub open spec fn round(self) -> PuzzleState {
        match self {
            WidgetState::Game(game) => game.puzzle,
            _ => arbitrary(),
        }
    }

    /// Whether `next` will do as the round that `key` starts: where the
    /// screen is a game and the key starts a round, it is a proper start of
    /// a round for the session; otherwise anything will do.
    pub open spec fn round_fits(self, key: Key, next: PuzzleState) -> bool {
        match self {
            WidgetState::Game(game) => game.starts_round(key) ==> round_start(
                game.bits,
                game.next_streak(),
                next,
            ),
            _ => true,
        }
    }

    /// The screen an entry of the main menu opens, where `first` is the
    /// first round of a game. Dino Jump has no screen yet, and Exit none
    /// at all.
    pub open spec fn opened(entry: MainMenuEntry, first: PuzzleState) -> Option<WidgetState> {
        match entry {
            MainMenuEntry::Settings | MainMenuEntry::Weather | MainMenuEntry::AsciiArt => Some(
                WidgetState::Still(entry, false),
            ),
            MainMenuEntry::BinaryNumbers => Some(
                WidgetState::Game(GameState::started(Bits::Eight, first)),
            ),
            MainMenuEntry::DinoJump | MainMenuEntry::Exit => None,
        }
    }
}

impl View for MainScreenWidget {
    type V = WidgetState;

    open spec fn view(&self) -> WidgetState {
        match self {
            MainScreenWidget::Settings(screen) => WidgetState::Still(
                MainMenuEntry::Settings,
                screen.exit(),
            ),
            MainScreenWidget::Weather(screen) => WidgetState::Still(
                MainMenuEntry::Weather,
                screen.exit(),
            ),
            MainScreenWidget::AsciiArt(screen) => WidgetState::Still(
                MainMenuEntry::AsciiArt,
                screen.exit(),
            ),
            MainScreenWidget::BinaryNumbers(game) => WidgetState::Game(game@),
        }
    }
}

impl MainScreenWidget {
    /// Lets `dt` nanoseconds pass on the screen.
    pub fn run(&mut self, dt: u64)
        requires
            old(self)@.wf(),
        ensures
            final(self)@ == old(self)@.ticked(dt as nat),
            final(self)@.wf(),
    {
        match self {
            MainScreenWidget::BinaryNumbers(game) => {
                game.run(dt);
            },
            _ => {},
        }
    }

    /// Hands a key press to the screen.
    pub fn handle_input(&mut self, input: KeyPress)
        requires
            old(self)@.wf(),
        ensures
            final(self)@ == old(self)@.keyed(input.key, final(self)@.round()),
            old(self)@.round_fits(input.key, final(self)@.round()),
            final(self)@.wf(),
    {
        match self {
            MainScreenWidget::BinaryNumbers(game) => {
                game.handle_game_input(input);
            },
            _ => {},
        }
    }

    /// Whether the screen wants to be left.
    pub fn is_exit_intended(&self) -> (exit: bool)
        ensures
            exit == self@.exit_intended(),
    {
        match self {
            MainScreenWidget::Settings(screen) => screen.is_exit_intended(),
            MainScreenWidget::Weather(screen) => screen.is_exit_intended(),
            MainScreenWidget::AsciiArt(screen) => screen.is_exit_intended(),
            MainScreenWidget::BinaryNumbers(game) => game.is_exit_intended(),
        }
    }
}

impl MainMenuEntry {
    /// The screen the entry opens, if it has one. The guessing game is
    /// started with eight bits.
    pub fn get_main_screen_widget(&self) -> (widget: Option<MainScreenWidget>)
        ensures
            match widget {
                Some(w) => WidgetState::opened(*self, w@.round()) == Some(w@) && w@.wf() && (w@ is Game
                    ==> round_start(Bits::Eight, 0, w@.round())),
                None => *self == MainMenuEntry::DinoJump || *self == MainMenuEntry::Exit,
            },
    {
        match self {
            MainMenuEntry::Settings => Some(MainScreenWidget::Settings(SettingsMain::new())),
            MainMenuEntry::Weather => Some(MainScreenWidget::Weather(WeatherMain::new())),
            MainMenuEntry::AsciiArt => Some(MainScreenWidget::AsciiArt(AsciiArtMain::new())),
            MainMenuEntry::BinaryNumbers => Some(
                MainScreenWidget::BinaryNumbers(BinaryNumbersGame::new(Bits::Eight)),
            ),
            MainMenuEntry::DinoJump => None,
            MainMenuEntry::Exit => None,
        }
    }
}

} // verus!
