use binbreak::bits::Bits;
use binbreak::game::BinaryNumbersGame;
use binbreak::input::{Key, KeyPress};
use binbreak::menu::MainMenuEntry;
use binbreak::puzzle::{BinaryNumbersPuzzle, GuessResult};
use binbreak::scoreboard::Scoreboard;
use binbreak::widgets::{AsciiArtMain, MainScreenWidget, SettingsMain, WeatherMain};

const SECOND: u64 = 1_000_000_000;

fn game_widget() -> MainScreenWidget {
    let puzzle =
        BinaryNumbersPuzzle::with_suggestions(Bits::Eight, 0, vec![1, 170, 3, 4], 170).unwrap();
    MainScreenWidget::BinaryNumbers(BinaryNumbersGame::with_puzzle(puzzle))
}

fn game_of(widget: &MainScreenWidget) -> &BinaryNumbersGame {
    match widget {
        MainScreenWidget::BinaryNumbers(game) => game,
        _ => panic!("not a game"),
    }
}

#[test]
fn still_screens_do_not_want_to_be_left() {
    assert!(!AsciiArtMain::new().is_exit_intended());
    assert!(!SettingsMain::new().is_exit_intended());
    assert!(!WeatherMain::new().is_exit_intended());
}

#[test]
fn still_screens_react_to_nothing() {
    let screens = [
        MainScreenWidget::Settings(SettingsMain::new()),
        MainScreenWidget::Weather(WeatherMain::new()),
        MainScreenWidget::AsciiArt(AsciiArtMain::new()),
    ];
    for mut screen in screens {
        screen.run(100 * SECOND);
        for key in [Key::Esc, Key::Enter, Key::Left, Key::Char('s'), Key::F(4)] {
            screen.handle_input(KeyPress::plain(key));
        }
        assert!(!screen.is_exit_intended());
    }
}

#[test]
fn game_screen_runs_its_clock() {
    let mut widget = game_widget();
    widget.run(2 * SECOND);
    assert_eq!(game_of(&widget).puzzle().time_left(), 10 * SECOND);
    widget.run(10 * SECOND);
    assert_eq!(game_of(&widget).puzzle().guess_result(), Some(GuessResult::Timeout));
    assert_eq!(game_of(&widget).lives(), 2);
}

#[test]
fn game_screen_gets_the_keys() {
    let mut widget = game_widget();
    widget.handle_input(KeyPress::plain(Key::Right));
    widget.handle_input(KeyPress::plain(Key::Enter));
    assert_eq!(game_of(&widget).score(), 12);
    assert!(!widget.is_exit_intended());
    widget.handle_input(KeyPress::plain(Key::Esc));
    assert!(widget.is_exit_intended());
}

#[test]
fn menu_entries_open_their_screens() {
    assert!(matches!(
        MainMenuEntry::Settings.get_main_screen_widget(),
        Some(MainScreenWidget::Settings(_))
    ));
    assert!(matches!(
        MainMenuEntry::Weather.get_main_screen_widget(),
        Some(MainScreenWidget::Weather(_))
    ));
    assert!(matches!(
        MainMenuEntry::AsciiArt.get_main_screen_widget(),
        Some(MainScreenWidget::AsciiArt(_))
    ));
    assert!(MainMenuEntry::DinoJump.get_main_screen_widget().is_none());
    assert!(MainMenuEntry::Exit.get_main_screen_widget().is_none());
}

#[test]
fn binary_numbers_opens_a_new_game_of_eight_bits() {
    let widget = MainMenuEntry::BinaryNumbers.get_main_screen_widget().unwrap();
    let game = game_of(&widget);
    assert_eq!(game.bits(), Bits::Eight);
    assert_eq!(game.board(), Scoreboard::new());
    assert_eq!(game.puzzle().suggestions().len(), 4);
    assert_eq!(game.puzzle().time_total(), 12 * SECOND);
    assert!(!widget.is_exit_intended());
}
