//! The launcher: the main menu, the screen beside it, and what each frame
//! and each key press does to them. The loop that draws, reads the clock
//! and the keyboard, and sleeps lives outside; it asks the launcher what
//! to do and tells it what happened.

use crate::bits::Bits;
use crate::frame::{
    frame_rest, poll_timeout, rate, recorded, rest_of, smaller, FrameTimes, InputWait, FRAME_WINDOW,
    TARGET_FRAME,
};
use crate::game::round_start;
use crate::input::{Key, KeyPress};
use crate::menu::{MainMenuEntry, MenuOrientation, MenuState, StatefulMenu};
use crate::puzzle::PuzzleState;
use crate::widgets::{MainScreenWidget, WidgetState};
use vstd::prelude::*;

verus! {

/// The launcher as a mathematical value.
pub struct LauncherState {
    pub running: bool,
    pub debug_mode: bool,
    pub frame_counter: u64,
    pub widget: Option<WidgetState>,
    pub menu: MenuState<MainMenuEntry>,
    /// Whether the loop goes on without input: if not, it waits for a key
    /// before each frame.
    pub refresh_without_inputs: bool,
    pub frame_times: Seq<u64>,
}

impl LauncherState {
    /// What holds of every launcher: the screen beside the menu, if there
    /// is one, is well formed, and no more frame times are held than the
    /// window and one.
    pub open spec fn wf(self) -> bool {
        &&& self.widget matches Some(w) ==> w.wf()
        &&& self.frame_times.len() <= FRAME_WINDOW + 1
    }

    /// The launcher as it starts: running, with the debug lines shown, the
    /// menu open with the cursor on its first entry, no screen beside it,
    /// and the loop going on without input.
    pub open spec fn start() -> LauncherState {
        LauncherState {
            running: true,
            debug_mode: true,
            frame_counter: 0,
            widget: None,
            menu: MenuState {
                orientation: MenuOrientation::Vertical,
                items: MainMenuEntry::listed(),
                selected: Some(0usize),
            },
            refresh_without_inputs: true,
            frame_times: Seq::empty(),
        }
    }

    /// The round that is being played, where the screen is a game.
    pub open spec fn round(self) -> PuzzleState {
        match self.widget {
            Some(w) => w.round(),
            None => arbitrary(),
        }
    }

    /// The launcher after a frame in which `dt` nanoseconds have passed:
    /// the screen has run for that long and, if it then wants to be left,
    /// is closed; the frame is counted.
    pub open spec fn updated(self, dt: nat) -> LauncherState {
        let widget = match self.widget {
            Some(w) => if w.ticked(dt).exit_intended() {
                None
            } else {
                Some(w.ticked(dt))
            },
            None => None,
        };
        LauncherState {
            widget,
            frame_counter: if self.frame_counter < u64::MAX {
                (self.frame_counter + 1) as u64
            } else {
                self.frame_counter
            },
            ..self
        }
    }

    /// How the loop waits for input in a frame that started `dt` after the
    /// one before: where it goes on without input, for that long but no
    /// longer than a frame is meant to be; else until input comes.
    pub open spec fn input_wait(self, dt: u64) -> InputWait {
        if self.refresh_without_inputs {
            InputWait::Poll(smaller(dt as int, TARGET_FRAME as int) as u64)
        } else {
            InputWait::Block
        }
    }

    /// The launcher after the keys that work everywhere: control with `c`
    /// stops it, space switches between going on without input and
    /// waiting for it, Esc closes the screen beside the menu, F4 shows or
    /// hides the debug lines. Other keys change nothing here.
    pub open spec fn after_shortcut(self, input: KeyPress) -> LauncherState {
        if input.is_quit() {
            LauncherState { running: false, ..self }
        } else if input.key == Key::Char(' ') {
            LauncherState { refresh_without_inputs: !self.refresh_without_inputs, ..self }
        } else if input.key == Key::Esc {
            LauncherState { widget: None, ..self }
        } else if input.key == Key::F(4) {
            LauncherState { debug_mode: !self.debug_mode, ..self }
        } else {
            self
        }
    }

    /// The launcher after `key` has gone to the main menu, where `first`
    /// is the first round of a game that is opened: the cursor moves where
    /// the key moves it; Enter on Exit stops the launcher, and on any
    /// other entry opens its screen, if it has one.
    pub open spec fn menu_keyed(self, key: Key, first: PuzzleState) -> LauncherState {
        let menu = self.menu.navigated(key);
        if key == Key::Enter {
            if menu.entry() == Some(MainMenuEntry::Exit) {
                LauncherState { running: false, menu, ..self }
            } else {
                LauncherState {
                    widget: match menu.entry() {
                        Some(entry) => WidgetState::opened(entry, first),
                        None => None,
                    },
                    menu,
                    ..self
                }
            }
        } else {
            LauncherState { menu, ..self }
        }
    }

    /// Whether `next` will do as the round that a key press starts: where
    /// the press goes to a game, it fits the game; where it opens a game
    /// from the menu, it is a proper first round of eight bits; otherwise
    /// anything will do.
    pub open spec fn round_fits(self, input: KeyPress, next: PuzzleState) -> bool {
        let app = self.after_shortcut(input);
        match app.widget {
            Some(w) => w.round_fits(input.key, next),
            None => app.menu_keyed(input.key, next).widget matches Some(WidgetState::Game(_))
                ==> round_start(Bits::Eight, 0, next),
        }
    }

    /// The launcher after a key press, where `next` is the round that
    /// starts if the press starts one: the keys that work everywhere come
    /// first; then the press goes to the screen beside the menu, or to the
    /// menu where there is none.
    pub open spec fn keyed(self, input: KeyPress, next: PuzzleState) -> LauncherState {
        let app = self.after_shortcut(input);
        match app.widget {
            Some(w) => LauncherState { widget: Some(w.keyed(input.key, next)), ..app },
            None => app.menu_keyed(input.key, next),
        }
    }
}

/// The launcher.
pub struct App {
    running: bool,
    debug_mode: bool,
    frame_counter: u64,
    current_main_widget: Option<MainScreenWidget>,
    main_menu: StatefulMenu<MainMenuEntry>,
    refresh_without_inputs: bool,
    frame_times: FrameTimes,
}

impl View for App {
    type V = LauncherState;

    closed spec fn view(&self) -> LauncherState {
        LauncherState {
            running: self.running,
            debug_mode: self.debug_mode,
            frame_counter: self.frame_counter,
            widget: match self.current_main_widget {
                Some(w) => Some(w@),
                None => None,
            },
            menu: self.main_menu@,
            refresh_without_inputs: self.refresh_without_inputs,
            frame_times: self.frame_times@,
        }
    }
}

impl App {
    /// The launcher as it starts.
    pub fn new() -> (app: Self)
        ensures
            app@ == LauncherState::start(),
            app@.wf(),
    {
        Self {
            running: true,
            debug_mode: true,
            frame_counter: 0,
            main_menu: StatefulMenu::new(MenuOrientation::Vertical, MainMenuEntry::all(), Some(0)),
            refresh_without_inputs: true,
            frame_times: FrameTimes::new(),
            current_main_widget: None,
        }
    }

    /// Whether the loop is to go on.
    pub fn is_running(&self) -> (running: bool)
        ensures
            running == self@.running,
    {
        self.running
    }

    /// Whether the debug lines are shown.
    pub fn is_debug_mode(&self) -> (debug: bool)
        ensures
            debug == self@.debug_mode,
    {
        self.debug_mode
    }

    /// Whether the loop goes on without input.
    pub fn refreshes_without_inputs(&self) -> (refresh: bool)
        ensures
            refresh == self@.refresh_without_inputs,
    {
        self.refresh_without_inputs
    }

    /// How many frames have been run.
    pub fn frame_counter(&self) -> (frames: u64)
        ensures
            frames == self@.frame_counter,
    {
        self.frame_counter
    }

    /// The main menu.
    pub fn main_menu(&self) -> (menu: &StatefulMenu<MainMenuEntry>)
        ensures
            menu@ == self@.menu,
    {
        &self.main_menu
    }

    /// The screen beside the menu, if there is one.
    pub fn current_main_widget(&self) -> (widget: Option<&MainScreenWidget>)
        ensures
            match widget {
                Some(w) => self@.widget == Some(w@),
                None => self@.widget is None,
            },
    {
        self.current_main_widget.as_ref()
    }

    /// Stops the loop after the current frame.
    pub fn quit(&mut self)
        ensures
            final(self)@ == (LauncherState { running: false, ..old(self)@ }),
    {
        self.running = false;
    }

    /// Notes that a frame has started at `now`.
    pub fn begin_frame(&mut self, now: u64)
        requires
            old(self)@.wf(),
        ensures
            final(self)@ == (LauncherState {
                frame_times: recorded(old(self)@.frame_times, now),
                ..old(self)@
            }),
            final(self)@.wf(),
    {
        self.frame_times.record(now);
    }

    /// Puts the cursor of the menu where the list shows it once drawn.
    pub fn settle_menu(&mut self)
        ensures
            final(self)@ == (LauncherState {
                menu: MenuState {
                    selected: crate::menu::settled(
                        old(self)@.menu.selected,
                        old(self)@.menu.items.len(),
                    ),
                    ..old(self)@.menu
                },
                ..old(self)@
            }),
    {
        self.main_menu.settle();
    }

    /// Runs the screen beside the menu for `dt` nanoseconds, closes it if
    /// it then wants to be left, and counts the frame.
    pub fn update(&mut self, dt: u64)
        requires
            old(self)@.wf(),
        ensures
            final(self)@ == old(self)@.updated(dt as nat),
            final(self)@.wf(),
    {
        let mut leave: bool = false;
        match &mut self.current_main_widget {
            Some(widget) => {
                widget.run(dt);
                leave = widget.is_exit_intended();
            },
            None => {},
        }
        if leave {
            self.current_main_widget = None;
        }
        self.frame_counter = self.frame_counter.saturating_add(1);
    }

    /// How the loop is to wait for input in a frame that started `dt`
    /// after the one before.
    pub fn input_wait(&self, dt: u64) -> (wait: InputWait)
        ensures
            wait == self@.input_wait(dt),
    {
        if self.refresh_without_inputs {
            InputWait::Poll(poll_timeout(dt, TARGET_FRAME))
        } else {
            InputWait::Block
        }
    }

    /// How long the loop is to rest at the end of a frame that has taken
    /// `elapsed`.
    pub fn frame_rest(&self, elapsed: u64) -> (rest: u64)
        ensures
            rest == rest_of(elapsed as int, TARGET_FRAME as int),
    {
        frame_rest(elapsed, TARGET_FRAME)
    }

    /// The frame rate over the last frames, in thousandths of a frame per
    /// second.
    pub fn get_fps(&self) -> (fps: u64)
        requires
            self@.wf(),
        ensures
            fps == rate(self@.frame_times),
    {
        self.frame_times.rate()
    }
}

/// Handles a key press in the launcher.
pub fn handle_input(app: &mut App, input: KeyPress)
    requires
        old(app)@.wf(),
    ensures
        final(app)@ == old(app)@.keyed(input, final(app)@.round()),
        old(app)@.round_fits(input, final(app)@.round()),
        final(app)@.wf(),
{
    if input.quits() {
        app.quit();
    } else if input.key == Key::Char(' ') {
        app.refresh_without_inputs = !app.refresh_without_inputs;
    } else if input.key == Key::Esc {
        app.current_main_widget = None;
    } else if input.key == Key::F(4) {
        app.debug_mode = !app.debug_mode;
    }
    match &mut app.current_main_widget {
        Some(widget) => {
            widget.handle_input(input);
        },
        None => {
            handle_main_menu_inputs(app, input);
        },
    }
}

/// Handles a key press that goes to the main menu.
fn handle_main_menu_inputs(app: &mut App, input: KeyPress)
    requires
        old(app)@.wf(),
        old(app)@.widget is None,
    ensures
        final(app)@ == old(app)@.menu_keyed(input.key, final(app)@.round()),
        final(app)@.widget matches Some(WidgetState::Game(_)) ==> round_start(
            Bits::Eight,
            0,
            final(app)@.round(),
        ),
        final(app)@.wf(),
{
    app.main_menu.handle_navigation(input.key);
    if input.key == Key::Enter {
        let entry: Option<MainMenuEntry> = match app.main_menu.get_selected_entry() {
            Some(entry) => Some(*entry),
            None => None,
        };
        match entry {
            Some(MainMenuEntry::Exit) => {
                app.quit();
            },
            Some(entry) => {
                app.current_main_widget = entry.get_main_screen_widget();
            },
            None => {
                app.current_main_widget = None;
            },
        }
    }
}

} // verus!
