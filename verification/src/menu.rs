//! The main menu: its entries and the cursor that moves over them.

use crate::input::Key;
use vstd::prelude::*;
use vstd::string::*;

verus! {

/// An entry of the main menu.
#[derive(Clone, Copy, Debug, PartialEq, Eq, Structural)]
pub enum MainMenuEntry {
    Settings,
    Weather,
    AsciiArt,
    BinaryNumbers,
    DinoJump,
    Exit,
}

/// Something that can stand in a menu under a name.
pub trait MenuEntry {
    /// The name the entry is listed under.
    fn name(&self) -> &str;
}

impl MenuEntry for MainMenuEntry {
    fn name(&self) -> (name: &str)
        ensures
            name@ == self.title(),
    {
        match self {
            MainMenuEntry::Settings => "Settings",
            MainMenuEntry::Weather => "Weather",
            MainMenuEntry::AsciiArt => "Ascii Art",
            MainMenuEntry::BinaryNumbers => "Binary Numbers",
            MainMenuEntry::DinoJump => "Dino Jump",
            MainMenuEntry::Exit => "Exit",
        }
    }
}

impl MainMenuEntry {
    /// The name the entry is listed under.
    pub open spec fn title(self) -> Seq<char> {
        match self {
            MainMenuEntry::Settings => "Settings"@,
            MainMenuEntry::Weather => "Weather"@,
            MainMenuEntry::AsciiArt => "Ascii Art"@,
            MainMenuEntry::BinaryNumbers => "Binary Numbers"@,
            MainMenuEntry::DinoJump => "Dino Jump"@,
            MainMenuEntry::Exit => "Exit"@,
        }
    }

    /// The entry written out: its own name, without spaces.
    pub open spec fn written(self) -> Seq<char> {
        match self {
            MainMenuEntry::Settings => "Settings"@,
            MainMenuEntry::Weather => "Weather"@,
            MainMenuEntry::AsciiArt => "AsciiArt"@,
            MainMenuEntry::BinaryNumbers => "BinaryNumbers"@,
            MainMenuEntry::DinoJump => "DinoJump"@,
            MainMenuEntry::Exit => "Exit"@,
        }
    }

    /// The entry written out: its own name, without spaces.
    pub fn to_string(&self) -> (text: String)
        ensures
            text@ == self.written(),
    {
        String::from_str(
            match self {
                MainMenuEntry::Settings => "Settings",
                MainMenuEntry::Weather => "Weather",
                MainMenuEntry::AsciiArt => "AsciiArt",
                MainMenuEntry::BinaryNumbers => "BinaryNumbers",
                MainMenuEntry::DinoJump => "DinoJump",
                MainMenuEntry::Exit => "Exit",
            },
        )
    }

    /// The entries in the order of the menu.
    pub open spec fn listed() -> Seq<MainMenuEntry> {
        seq![
            MainMenuEntry::Settings,
            MainMenuEntry::Weather,
            MainMenuEntry::AsciiArt,
            MainMenuEntry::BinaryNumbers,
            MainMenuEntry::DinoJump,
            MainMenuEntry::Exit,
        ]
    }

    /// The entries in the order of the menu.
    pub fn all() -> (entries: Vec<MainMenuEntry>)
        ensures
            entries@ == MainMenuEntry::listed(),
    {
        let mut entries: Vec<MainMenuEntry> = Vec::new();
        entries.push(MainMenuEntry::Settings);
        entries.push(MainMenuEntry::Weather);
        entries.push(MainMenuEntry::AsciiArt);
        entries.push(MainMenuEntry::BinaryNumbers);
        entries.push(MainMenuEntry::DinoJump);
        entries.push(MainMenuEntry::Exit);
        assert(entries@ =~= MainMenuEntry::listed());
        entries
    }
}

/// The way a menu is laid out, which decides the keys that move its cursor.
#[derive(Clone, Copy, Debug, PartialEq, Eq, Structural)]
pub enum MenuOrientation {
    Horizontal,
    Vertical,
}

/// The place after `selected`: the first place where nothing was selected,
/// else one further, stopping at the largest `usize`. It may lie behind the
/// last entry until the cursor is settled.
pub open spec fn place_after(selected: Option<usize>) -> Option<usize> {
    match selected {
        None => Some(0usize),
        Some(i) => Some(
            if i < usize::MAX {
                (i + 1) as usize
            } else {
                i
            },
        ),
    }
}

/// The place before `selected`: one back, stopping at the first place;
/// where nothing was selected, the largest `usize`, which settles on the
/// last entry.
pub open spec fn place_before(selected: Option<usize>) -> Option<usize> {
    match selected {
        None => Some(usize::MAX),
        Some(i) => Some(
            if i > 0 {
                (i - 1) as usize
            } else {
                i
            },
        ),
    }
}

/// The cursor as a list of `len` entries shows it: none on an empty list, a
/// cursor behind the last entry on the last entry, any other where it is.
pub open spec fn settled(selected: Option<usize>, len: nat) -> Option<usize> {
    match selected {
        None => None,
        Some(i) => if len == 0 {
            None
        } else if i >= len {
            Some((len - 1) as usize)
        } else {
            Some(i)
        },
    }
}

/// Which way `key` moves the cursor of a menu laid out as `orientation`,
/// if it moves it: Left and Right in a horizontal menu, Up and Down in a
/// vertical one. `Some(true)` is forward.
pub open spec fn cursor_move(orientation: MenuOrientation, key: Key) -> Option<bool> {
    match orientation {
        MenuOrientation::Horizontal => if key == Key::Right {
            Some(true)
        } else if key == Key::Left {
            Some(false)
        } else {
            None
        },
        MenuOrientation::Vertical => if key == Key::Down {
            Some(true)
        } else if key == Key::Up {
            Some(false)
        } else {
            None
        },
    }
}

/// A menu with a cursor.
pub struct StatefulMenu<T> {
    orientation: MenuOrientation,
    items: Vec<T>,
    selected: Option<usize>,
}

/// A menu as a mathematical value.
pub struct MenuState<T> {
    pub orientation: MenuOrientation,
    pub items: Seq<T>,
    pub selected: Option<usize>,
}

impl<T> MenuState<T> {
    /// The entry under the cursor, if the cursor is on one.
    pub open spec fn entry(self) -> Option<T> {
        match self.selected {
            Some(i) if i < self.items.len() => Some(self.items[i as int]),
            _ => None,
        }
    }

    /// The menu after `key`: the cursor moved where the key moves it.
    pub open spec fn navigated(self, key: Key) -> MenuState<T> {
        match cursor_move(self.orientation, key) {
            Some(true) => MenuState { selected: place_after(self.selected), ..self },
            Some(false) => MenuState { selected: place_before(self.selected), ..self },
            None => self,
        }
    }
}

impl<T> View for StatefulMenu<T> {
    type V = MenuState<T>;

    closed spec fn view(&self) -> MenuState<T> {
        MenuState { orientation: self.orientation, items: self.items@, selected: self.selected }
    }
}

impl<T> StatefulMenu<T> {
    /// A menu of `items` with the cursor at `selected`.
    pub fn new(orientation: MenuOrientation, items: Vec<T>, selected: Option<usize>) -> (menu:
        Self)
        ensures
            menu@ == (MenuState { orientation, items: items@, selected }),
    {
        StatefulMenu { orientation, items, selected }
    }

    /// The place of the cursor.
    pub fn selected(&self) -> (selected: Option<usize>)
        ensures
            selected == self@.selected,
    {
        self.selected
    }

    /// The entries.
    pub fn items(&self) -> (items: &Vec<T>)
        ensures
            items@ == self@.items,
    {
        &self.items
    }

    /// Moves the cursor one place back.
    pub fn select_previous(&mut self)
        ensures
            final(self)@ == (MenuState { selected: place_before(old(self)@.selected), ..old(self)@ }),
    {
        self.selected = Some(
            match self.selected {
                Some(i) => i.saturating_sub(1),
                None => usize::MAX,
            },
        );
    }

    /// Moves the cursor one place on.
    pub fn select_next(&mut self)
        ensures
            final(self)@ == (MenuState { selected: place_after(old(self)@.selected), ..old(self)@ }),
    {
        self.selected = Some(
            match self.selected {
                Some(i) => i.saturating_add(1),
                None => 0,
            },
        );
    }

    /// Puts the cursor where the list shows it once it is drawn.
    pub fn settle(&mut self)
        ensures
            final(self)@ == (MenuState {
                selected: settled(old(self)@.selected, old(self)@.items.len()),
                ..old(self)@
            }),
    {
        if let Some(i) = self.selected {
            if self.items.len() == 0 {
                self.selected = None;
            } else if i >= self.items.len() {
                self.selected = Some(self.items.len() - 1);
            }
        }
    }

    /// The entry under the cursor, if the cursor is on one.
    pub fn get_selected_entry(&self) -> (entry: Option<&T>)
        ensures
            match entry {
                Some(e) => self@.entry() == Some(*e),
                None => self@.entry() is None,
            },
    {
        match self.selected {
            Some(i) => if i < self.items.len() {
                Some(&self.items[i])
            } else {
                None
            },
            None => None,
        }
    }

    /// Moves the cursor if `key` is one of the two keys that move it.
    pub fn handle_navigation(&mut self, key: Key)
        ensures
            final(self)@ == old(self)@.navigated(key),
    {
        match self.orientation {
            MenuOrientation::Horizontal => {
                if key == Key::Left {
                    self.select_previous();
                } else if key == Key::Right {
                    self.select_next();
                }
            },
            MenuOrientation::Vertical => {
                if key == Key::Up {
                    self.select_previous();
                } else if key == Key::Down {
                    self.select_next();
                }
            },
        }
    }
}

} // verus!
