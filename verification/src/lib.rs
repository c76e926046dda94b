//! The rules of a terminal snake game.
//!
//! - [`geometry`]: headings and cells.
//! - [`board`]: the playfield, its scoreboard panel, and what makes their
//!   measures valid.
//! - [`game`]: the snake, the food and the score, and the one transition that
//!   moves the game from tick to tick.
//! - [`input`]: keys, and the debouncer that turns down reversals and
//!   repeats.
//! - [`scheduler`]: when a tick is due, and how the game speeds up.
//! - [`session`]: what one turn of the outer loop decides.
//! - [`layout`]: where on the screen things go.
//! - [`config`]: the settings of a session and the JSON document they are
//!   read from.
//! - [`chance`] and [`json`]: the calls into `rand` and `serde_json`.
//!
//! The library never paints, waits or reads a key: the caller polls the
//! keyboard, keeps the time and draws what the session tells it to.

pub mod board;
pub mod chance;
pub mod config;
pub mod game;
pub mod geometry;
pub mod input;
pub mod json;
pub mod layout;
pub mod scheduler;
pub mod session;
