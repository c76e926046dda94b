//! The board: a playfield with a border around it and a scoreboard panel to
//! its right, measured in terminal cells.

use vstd::prelude::*;
use crate::geometry::Position;

verus! {

/// The smallest playfield width a board may have.
pub const MIN_BOARD_WIDTH: u16 = 10;

/// The smallest playfield height a board may have.
pub const MIN_BOARD_HEIGHT: u16 = 10;

/// The smallest width the scoreboard panel may have.
pub const MIN_SCOREBOARD_WIDTH: u16 = 5;

/// The setting that a configuration error is about.
#[derive(Clone, Copy, Debug, PartialEq, Eq, Structural)]
pub enum Setting {
    TickInterval,
    DynamicSpeed,
    BoardWidth,
    BoardHeight,
    ScoreboardWidth,
}

/// Why a configuration was turned down. Every one of these is fatal: no game
/// is built from a configuration that has one.
#[derive(Clone, Copy, Debug, PartialEq, Eq, Structural)]
pub enum ConfigurationError {
    /// The text is not a JSON document.
    Syntax,
    /// The document has no member for the setting, or one of the wrong kind.
    Missing(Setting),
    /// The setting's value lies outside its domain.
    OutOfDomain(Setting),
    /// Each measure is in its domain, but the playfield with its panel, or
    /// the row below the playfield, has no coordinate on a terminal grid.
    ExceedsGrid,
}

/// The board's measures as mathematical integers.
pub struct BoardView {
    pub width: int,
    pub height: int,
    pub score_width: int,
}

impl BoardView {
    /// The first reason, if any, for which these measures make no board:
    /// width, height and panel width, in that order, are held to their
    /// minimum and to the largest coordinate there is, and then the whole
    /// to the terminal's coordinate range.
    pub open spec fn defect(self) -> Option<ConfigurationError> {
        if self.width < MIN_BOARD_WIDTH || self.width > u16::MAX {
            Some(ConfigurationError::OutOfDomain(Setting::BoardWidth))
        } else if self.height < MIN_BOARD_HEIGHT || self.height > u16::MAX {
            Some(ConfigurationError::OutOfDomain(Setting::BoardHeight))
        } else if self.score_width < MIN_SCOREBOARD_WIDTH || self.score_width > u16::MAX {
            Some(ConfigurationError::OutOfDomain(Setting::ScoreboardWidth))
        } else if self.width + self.score_width > u16::MAX || self.height >= u16::MAX {
            Some(ConfigurationError::ExceedsGrid)
        } else {
            None
        }
    }

    /// The measures make a board.
    pub open spec fn wf(self) -> bool {
        &&& MIN_BOARD_WIDTH <= self.width
        &&& MIN_BOARD_HEIGHT <= self.height
        &&& MIN_SCOREBOARD_WIDTH <= self.score_width
        &&& self.width + self.score_width <= u16::MAX
        &&& self.height < u16::MAX
    }

    /// Whether `p` is a cell of the playfield's interior, where the snake
    /// lives: column 0 and row 0 are border, and so are column `width` and
    /// row `height`.
    pub open spec fn contains(self, p: Position) -> bool {
        1 <= p.x < self.width && 1 <= p.y < self.height
    }

    /// The cell in the middle of the playfield.
    pub open spec fn center(self) -> Position {
        Position { x: (self.width / 2) as u16, y: (self.height / 2) as u16 }
    }

    /// The cell a quarter of the way into the playfield from its top left.
    pub open spec fn quarter(self) -> Position {
        Position { x: (self.width / 4) as u16, y: (self.height / 4) as u16 }
    }
}

/// The fixed geometry of one session.
#[derive(Clone, Copy, Debug)]
pub struct Board {
    width: u16,
    height: u16,
    score_width: u16,
}

impl View for Board {
    type V = BoardView;

    closed spec fn view(&self) -> BoardView {
        BoardView {
            width: self.width as int,
            height: self.height as int,
            score_width: self.score_width as int,
        }
    }
}

impl Board {
    /// Builds a board from its three measures, or says what is wrong with
    /// them.
    pub fn new(width: u16, height: u16, score_width: u16) -> (r: Result<Board, ConfigurationError>)
        ensures
            match r {
                Ok(b) => b@ == (BoardView {
                    width: width as int,
                    height: height as int,
                    score_width: score_width as int,
                }) && b@.wf(),
                Err(e) => (BoardView {
                    width: width as int,
                    height: height as int,
                    score_width: score_width as int,
                }).defect() == Some(e),
            },
    {
        if width < MIN_BOARD_WIDTH {
            Err(ConfigurationError::OutOfDomain(Setting::BoardWidth))
        } else if height < MIN_BOARD_HEIGHT {
            Err(ConfigurationError::OutOfDomain(Setting::BoardHeight))
        } else if score_width < MIN_SCOREBOARD_WIDTH {
            Err(ConfigurationError::OutOfDomain(Setting::ScoreboardWidth))
        } else if score_width > u16::MAX - width || height == u16::MAX {
            Err(ConfigurationError::ExceedsGrid)
        } else {
            Ok(Board { width, height, score_width })
        }
    }

    /// The playfield's width.
    pub fn width(&self) -> (w: u16)
        ensures
            w == self@.width,
    {
        self.width
    }

    /// The playfield's height.
    pub fn height(&self) -> (h: u16)
        ensures
            h == self@.height,
    {
        self.height
    }

    /// The scoreboard panel's width.
    pub fn score_width(&self) -> (w: u16)
        ensures
            w == self@.score_width,
    {
        self.score_width
    }

    /// Tells whether `p` lies in the playfield's interior.
    pub fn contains(&self, p: Position) -> (b: bool)
        ensures
            b == self@.contains(p),
    {
        1 <= p.x && p.x < self.width && 1 <= p.y && p.y < self.height
    }

    /// The cell where the snake starts.
    pub fn center(&self) -> (p: Position)
        ensures
            p == self@.center(),
    {
        Position { x: self.width / 2, y: self.height / 2 }
    }

    /// The cell where the first food lies.
    pub fn quarter(&self) -> (p: Position)
        ensures
            p == self@.quarter(),
    {
        Position { x: self.width / 4, y: self.height / 4 }
    }
}

/// Validation accepts exactly the measures that make a board.
pub proof fn board_defect_iff_not_wf(b: BoardView)
    ensures
        b.defect() is None <==> b.wf(),
{
}

/// On a board, the center and the quarter cell are two different cells of the
/// interior.
pub proof fn board_start_cells(b: BoardView)
    requires
        b.wf(),
    ensures
        b.contains(b.center()),
        b.contains(b.quarter()),
        b.center() != b.quarter(),
{
}

} // verus!
