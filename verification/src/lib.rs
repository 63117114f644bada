//! A terminal minigame launcher, centred on a binary-number guessing game.
//!
//! The library holds the rules of the game and the decisions of the frame
//! loop as verified code over plain values. Drawing, key capture, the clock
//! and sleeping are left to the program that embeds it: each frame it tells
//! the library how much time has passed and which key was pressed, and
//! asks how long to wait for input and how long to rest.
//!
//! All durations are whole numbers of nanoseconds.
//!
//! - `bits`: the widths a session can be played with.
//! - `suggest`, `random`: rows of candidates, and the random source they
//!   are drawn from.
//! - `puzzle`: one round, from its start to its outcome.
//! - `scoreboard`: points, streak, rounds and lives.
//! - `game`: a session, driven by the clock and by key presses.
//! - `binary`, `display`: how a round is shown.
//! - `input`: key presses as plain values.
//! - `menu`, `widgets`, `launcher`: the main menu and the screens beside it.
//! - `solo`: the game run on its own behind a start menu.
//! - `frame`: the pace of the frame loop.
//! - `layout`, `text`, `ascii`: rectangles, blocks of text and pictures.

pub mod ascii;
pub mod binary;
pub mod bits;
pub mod display;
pub mod frame;
pub mod game;
pub mod input;
pub mod launcher;
pub mod layout;
pub mod menu;
pub mod puzzle;
pub mod random;
pub mod scoreboard;
pub mod solo;
pub mod suggest;
pub mod text;
pub mod widgets;
