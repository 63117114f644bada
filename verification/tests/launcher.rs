use binbreak::bits::Bits;
use binbreak::frame::InputWait;
use binbreak::game::BinaryNumbersGame;
use binbreak::input::{Key, KeyPress};
use binbreak::launcher::{handle_input, App};
use binbreak::menu::MainMenuEntry;
use binbreak::puzzle::GuessResult;
use binbreak::widgets::MainScreenWidget;

const MILLI: u64 = 1_000_000;
const SECOND: u64 = 1_000_000_000;

fn press(app: &mut App, key: Key) {
    handle_input(app, KeyPress::plain(key));
}

fn open(entry: usize) -> App {
    let mut app = App::new();
    for _ in 0..entry {
        press(&mut app, Key::Down);
    }
    press(&mut app, Key::Enter);
    app
}

fn game_of(app: &App) -> &BinaryNumbersGame {
    match app.current_main_widget() {
        Some(MainScreenWidget::BinaryNumbers(game)) => game,
        _ => panic!("no game on the screen"),
    }
}

#[test]
fn launcher_starts_on_the_menu() {
    let app = App::new();
    assert!(app.is_running());
    assert!(app.is_debug_mode());
    assert!(app.refreshes_without_inputs());
    assert_eq!(app.frame_counter(), 0);
    assert!(app.current_main_widget().is_none());
    assert_eq!(app.main_menu().selected(), Some(0));
    assert_eq!(app.main_menu().items(), &MainMenuEntry::all());
    assert_eq!(app.get_fps(), 0);
}

#[test]
fn quit_stops_the_loop() {
    let mut app = App::new();
    app.quit();
    assert!(!app.is_running());
    assert_eq!(app.main_menu().selected(), Some(0));
}

#[test]
fn control_c_quits_from_anywhere() {
    let mut app = App::new();
    handle_input(&mut app, KeyPress { key: Key::Char('c'), control: true });
    assert!(!app.is_running());
    let mut app = open(3);
    handle_input(&mut app, KeyPress { key: Key::Char('C'), control: true });
    assert!(!app.is_running());
    assert!(app.current_main_widget().is_some());
    let mut app = App::new();
    press(&mut app, Key::Char('c'));
    assert!(app.is_running());
}

#[test]
fn space_switches_the_loop_mode() {
    let mut app = App::new();
    press(&mut app, Key::Char(' '));
    assert!(!app.refreshes_without_inputs());
    assert_eq!(app.input_wait(5 * MILLI), InputWait::Block);
    press(&mut app, Key::Char(' '));
    assert!(app.refreshes_without_inputs());
    assert_eq!(app.input_wait(5 * MILLI), InputWait::Poll(5 * MILLI));
}

#[test]
fn f4_shows_and_hides_the_debug_lines() {
    let mut app = App::new();
    press(&mut app, Key::F(4));
    assert!(!app.is_debug_mode());
    press(&mut app, Key::F(4));
    assert!(app.is_debug_mode());
    press(&mut app, Key::F(2));
    press(&mut app, Key::F(1));
    assert!(app.is_debug_mode());
    assert!(app.is_running());
}

#[test]
fn menu_cursor_moves_on_up_and_down() {
    let mut app = App::new();
    press(&mut app, Key::Down);
    press(&mut app, Key::Down);
    assert_eq!(app.main_menu().selected(), Some(2));
    press(&mut app, Key::Up);
    assert_eq!(app.main_menu().selected(), Some(1));
    press(&mut app, Key::Left);
    press(&mut app, Key::Right);
    assert_eq!(app.main_menu().selected(), Some(1));
    assert!(app.current_main_widget().is_none());
}

#[test]
fn enter_opens_the_screen_under_the_cursor() {
    assert!(matches!(open(0).current_main_widget(), Some(MainScreenWidget::Settings(_))));
    assert!(matches!(open(1).current_main_widget(), Some(MainScreenWidget::Weather(_))));
    assert!(matches!(open(2).current_main_widget(), Some(MainScreenWidget::AsciiArt(_))));
    assert!(matches!(open(3).current_main_widget(), Some(MainScreenWidget::BinaryNumbers(_))));
    assert!(open(3).is_running());
    assert_eq!(game_of(&open(3)).bits(), Bits::Eight);
}

#[test]
fn dino_jump_opens_nothing() {
    let app = open(4);
    assert!(app.current_main_widget().is_none());
    assert!(app.is_running());
    assert_eq!(app.main_menu().selected(), Some(4));
}

#[test]
fn enter_on_exit_stops_the_launcher() {
    let app = open(5);
    assert!(!app.is_running());
    assert!(app.current_main_widget().is_none());
}

#[test]
fn enter_behind_the_last_entry_opens_nothing() {
    let mut app = open(6);
    assert_eq!(app.main_menu().selected(), Some(6));
    assert!(app.current_main_widget().is_none());
    assert!(app.is_running());
    app.settle_menu();
    assert_eq!(app.main_menu().selected(), Some(5));
    press(&mut app, Key::Enter);
    assert!(!app.is_running());
}

#[test]
fn keys_go_to_the_open_screen_and_not_to_the_menu() {
    let mut app = open(3);
    press(&mut app, Key::Down);
    press(&mut app, Key::Up);
    press(&mut app, Key::Up);
    assert_eq!(app.main_menu().selected(), Some(3));
    press(&mut app, Key::Right);
    assert_eq!(game_of(&app).puzzle().selected_index(), Some(1));
    press(&mut app, Key::Char('s'));
    assert_eq!(game_of(&app).puzzle().guess_result(), Some(GuessResult::Timeout));
    assert_eq!(game_of(&app).lives(), 2);
    press(&mut app, Key::Enter);
    assert_eq!(game_of(&app).puzzle().guess_result(), None);
    assert_eq!(game_of(&app).rounds(), 1);
}

#[test]
fn escape_closes_the_open_screen() {
    for entry in 0..4 {
        let mut app = open(entry);
        assert!(app.current_main_widget().is_some());
        press(&mut app, Key::Esc);
        assert!(app.current_main_widget().is_none());
        assert!(app.is_running());
        assert_eq!(app.main_menu().selected(), Some(entry));
    }
    let mut app = App::new();
    press(&mut app, Key::Esc);
    assert!(app.is_running());
    assert!(app.current_main_widget().is_none());
}

#[test]
fn update_runs_the_screen_and_counts_the_frame() {
    let mut app = open(3);
    app.update(2 * SECOND);
    assert_eq!(app.frame_counter(), 1);
    assert_eq!(game_of(&app).puzzle().time_left(), 10 * SECOND);
    app.update(10 * SECOND);
    assert_eq!(app.frame_counter(), 2);
    assert_eq!(game_of(&app).puzzle().guess_result(), Some(GuessResult::Timeout));
    assert_eq!(game_of(&app).lives(), 2);
    let mut app = App::new();
    app.update(SECOND);
    app.update(SECOND);
    app.update(SECOND);
    assert_eq!(app.frame_counter(), 3);
    assert!(app.current_main_widget().is_none());
}

#[test]
fn wait_for_input_is_bounded_by_the_target_frame() {
    let app = App::new();
    assert_eq!(app.input_wait(0), InputWait::Poll(0));
    assert_eq!(app.input_wait(3 * MILLI), InputWait::Poll(3 * MILLI));
    assert_eq!(app.input_wait(16 * MILLI), InputWait::Poll(16 * MILLI));
    assert_eq!(app.input_wait(2 * SECOND), InputWait::Poll(16 * MILLI));
}

#[test]
fn rest_caps_the_frame_rate() {
    let app = App::new();
    assert_eq!(app.frame_rest(0), 16 * MILLI);
    assert_eq!(app.frame_rest(6 * MILLI), 10 * MILLI);
    assert_eq!(app.frame_rest(16 * MILLI), 0);
    assert_eq!(app.frame_rest(SECOND), 0);
}

#[test]
fn frame_rate_follows_the_frames_that_started_last() {
    let mut app = App::new();
    app.begin_frame(0);
    assert_eq!(app.get_fps(), 0);
    app.begin_frame(16 * MILLI);
    assert_eq!(app.get_fps(), 62_500);
    for i in 2..30u64 {
        app.begin_frame(i * 16 * MILLI);
    }
    assert_eq!(app.get_fps(), 62_500);
    for i in 0..11u64 {
        app.begin_frame(SECOND + i * 100 * MILLI);
    }
    assert_eq!(app.get_fps(), 10_000);
    assert_eq!(app.frame_counter(), 0);
}
