//! Keys, and the debouncer that turns a stream of them into heading changes.

use vstd::prelude::*;
use crate::geometry::Direction;

verus! {

/// A key as the game reads it: the four arrows, escape, a character, or
/// anything else.
#[derive(Clone, Copy, Debug, PartialEq, Eq, Structural)]
pub enum Key {
    Up,
    Down,
    Left,
    Right,
    Esc,
    Char(char),
    Other,
}

impl Key {
    /// The arrow key of a heading.
    pub open spec fn arrow(d: Direction) -> Key {
        match d {
            Direction::Up => Key::Up,
            Direction::Down => Key::Down,
            Direction::Left => Key::Left,
            Direction::Right => Key::Right,
        }
    }

    /// The heading an arrow key stands for; no other key stands for one.
    pub open spec fn heading(self) -> Option<Direction> {
        match self {
            Key::Up => Some(Direction::Up),
            Key::Down => Some(Direction::Down),
            Key::Left => Some(Direction::Left),
            Key::Right => Some(Direction::Right),
            _ => None,
        }
    }

    /// Whether this key ends the session: escape does.
    pub open spec fn quits(self) -> bool {
        self == Key::Esc
    }

    /// Whether this key starts the game from the welcome screen: `p` does, in
    /// either case.
    pub open spec fn starts(self) -> bool {
        self == Key::Char('p') || self == Key::Char('P')
    }

    /// Computes the heading this key stands for.
    pub fn direction(self) -> (r: Option<Direction>)
        ensures
            r == self.heading(),
    {
        match self {
            Key::Up => Some(Direction::Up),
            Key::Down => Some(Direction::Down),
            Key::Left => Some(Direction::Left),
            Key::Right => Some(Direction::Right),
            _ => None,
        }
    }

    /// Tells whether this key ends the session.
    pub fn is_quit(self) -> (b: bool)
        ensures
            b == self.quits(),
    {
        match self {
            Key::Esc => true,
            _ => false,
        }
    }

    /// Tells whether this key starts the game.
    pub fn is_start(self) -> (b: bool)
        ensures
            b == self.starts(),
    {
        match self {
            Key::Char(c) => c == 'p' || c == 'P',
            _ => false,
        }
    }
}

/// What the debouncer answers to `key` when `last` is the heading it accepted
/// last: the key's heading, unless the key has none, or its heading is `last`
/// again, or the reverse of `last`.
pub open spec fn debounced(last: Option<Direction>, key: Key) -> Option<Direction> {
    match key.heading() {
        None => None,
        Some(d) => if last == Some(d) || last == Some(d.reversed()) {
            None
        } else {
            Some(d)
        },
    }
}

/// Remembers the heading it accepted last and turns down a repeat of it and
/// a reversal. It starts out having accepted nothing, so the first arrow key
/// always passes.
#[derive(Clone, Copy, Debug)]
pub struct Debouncer {
    last: Option<Direction>,
}

impl View for Debouncer {
    type V = Option<Direction>;

    /// The heading accepted last.
    closed spec fn view(&self) -> Option<Direction> {
        self.last
    }
}

impl Debouncer {
    /// A debouncer that has accepted nothing yet.
    pub fn new() -> (d: Debouncer)
        ensures
            d@ is None,
    {
        Debouncer { last: None }
    }

    /// The heading accepted last, if any.
    pub fn last_accepted(&self) -> (r: Option<Direction>)
        ensures
            r == self@,
    {
        self.last
    }

    /// Looks at one key. An accepted heading is returned and remembered;
    /// on `None` nothing changes.
    pub fn accept(&mut self, key: Key) -> (r: Option<Direction>)
        ensures
            r == debounced(old(self)@, key),
            final(self)@ == (if r is Some { r } else { old(self)@ }),
    {
        match key.direction() {
            None => None,
            Some(d) => {
                let rejected = match self.last {
                    None => false,
                    Some(l) => l == d || l == d.opposite(),
                };
                if rejected {
                    None
                } else {
                    self.last = Some(d);
                    Some(d)
                }
            },
        }
    }
}

/// After heading `d` was accepted, the arrow for `d` and the arrow for its
/// reverse are turned down, and the arrow for either perpendicular heading is
/// accepted.
pub proof fn reversal_and_repeat_rejected(d: Direction, next: Direction)
    ensures
        debounced(Some(d), Key::arrow(d)) is None,
        debounced(Some(d), Key::arrow(d.reversed())) is None,
        next.perpendicular_to(d) ==> debounced(Some(d), Key::arrow(next)) == Some(next),
        !next.perpendicular_to(d) ==> debounced(Some(d), Key::arrow(next)) is None,
{
}

/// A key that is no arrow is never accepted, whatever was accepted before.
pub proof fn other_keys_pass_through(last: Option<Direction>, key: Key)
    requires
        key.heading() is None,
    ensures
        debounced(last, key) is None,
{
}

/// What is accepted is never the reverse of what was accepted just before.
pub proof fn accepted_is_no_reversal(last: Direction, key: Key)
    ensures
        debounced(Some(last), key) matches Some(d) ==> d.perpendicular_to(last),
{
}

} // verus!
