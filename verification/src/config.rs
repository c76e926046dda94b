//! The configuration of a session, and how it is read from a JSON document.
//!
//! The document is one object with these members:
//!
//! | member                  | kind    | domain      |
//! |-------------------------|---------|-------------|
//! | `tick_interval_ms`      | integer | above 0     |
//! | `dynamic_speed_enabled` | Boolean |             |
//! | `board_width`           | integer | at least 10 |
//! | `board_height`          | integer | at least 10 |
//! | `scoreboard_width`      | integer | at least 5  |
//!
//! Other members are ignored.

use vstd::prelude::*;
use crate::board::{
    Board, BoardView, ConfigurationError, Setting, MIN_BOARD_HEIGHT, MIN_BOARD_WIDTH,
    MIN_SCOREBOARD_WIDTH,
};
use crate::json::{json_bool, json_members, json_parse, json_u64, member, parse_document};

verus! {

/// A configuration as mathematics sees it.
pub struct ConfigView {
    /// The time between two ticks at the start, in milliseconds.
    pub tick_interval_ms: nat,
    /// Whether the game speeds up as it goes on.
    pub dynamic_speed_enabled: bool,
    /// The board's measures.
    pub board: BoardView,
}

impl ConfigView {
    /// The configuration is one a session can start from.
    pub open spec fn wf(self) -> bool {
        self.tick_interval_ms > 0 && self.board.wf()
    }
}

/// What five values make: a configuration, or the first thing wrong with
/// them. The tick interval is looked at first, then the board.
pub open spec fn config_of_values(
    tick_interval_ms: nat,
    dynamic_speed_enabled: bool,
    board_width: nat,
    board_height: nat,
    scoreboard_width: nat,
) -> Result<ConfigView, ConfigurationError> {
    let board = BoardView {
        width: board_width as int,
        height: board_height as int,
        score_width: scoreboard_width as int,
    };
    if tick_interval_ms == 0 {
        Err(ConfigurationError::OutOfDomain(Setting::TickInterval))
    } else if let Some(e) = board.defect() {
        Err(e)
    } else {
        Ok(ConfigView { tick_interval_ms, dynamic_speed_enabled, board })
    }
}

/// The number that member `key` of `doc` holds, if `doc` has such a member
/// and it holds one.
pub open spec fn u64_member(doc: serde_json::Value, key: Seq<char>) -> Option<u64> {
    if json_members(doc).contains_key(key) {
        json_u64(json_members(doc)[key])
    } else {
        None
    }
}

/// The truth value that member `key` of `doc` holds, if `doc` has such a
/// member and it holds one.
pub open spec fn bool_member(doc: serde_json::Value, key: Seq<char>) -> Option<bool> {
    if json_members(doc).contains_key(key) {
        json_bool(json_members(doc)[key])
    } else {
        None
    }
}

/// What a document makes: the first of its five members that is missing or
/// of the wrong kind is reported; with all five there, the values decide.
pub open spec fn config_of_document(doc: serde_json::Value) -> Result<ConfigView, ConfigurationError> {
    let tick = u64_member(doc, "tick_interval_ms"@);
    let dynamic = bool_member(doc, "dynamic_speed_enabled"@);
    let width = u64_member(doc, "board_width"@);
    let height = u64_member(doc, "board_height"@);
    let score_width = u64_member(doc, "scoreboard_width"@);
    if tick is None {
        Err(ConfigurationError::Missing(Setting::TickInterval))
    } else if dynamic is None {
        Err(ConfigurationError::Missing(Setting::DynamicSpeed))
    } else if width is None {
        Err(ConfigurationError::Missing(Setting::BoardWidth))
    } else if height is None {
        Err(ConfigurationError::Missing(Setting::BoardHeight))
    } else if score_width is None {
        Err(ConfigurationError::Missing(Setting::ScoreboardWidth))
    } else {
        config_of_values(
            tick->0 as nat,
            dynamic->0,
            width->0 as nat,
            height->0 as nat,
            score_width->0 as nat,
        )
    }
}

/// What a text makes: a text that is no JSON is a syntax error; any other is
/// read as a document.
pub open spec fn config_of_text(text: Seq<char>) -> Result<ConfigView, ConfigurationError> {
    match json_parse(text) {
        None => Err(ConfigurationError::Syntax),
        Some(doc) => config_of_document(doc),
    }
}

/// Whether an outcome in hand is the outcome that was specified.
pub open spec fn yields(r: Result<Config, ConfigurationError>, expected: Result<ConfigView, ConfigurationError>) -> bool {
    match r {
        Ok(c) => expected == Ok::<ConfigView, ConfigurationError>(c@),
        Err(e) => expected == Err::<ConfigView, ConfigurationError>(e),
    }
}

/// The settings of one session, each in its domain.
#[derive(Clone, Copy, Debug)]
pub struct Config {
    tick_interval_ms: u64,
    dynamic_speed_enabled: bool,
    board: Board,
}

impl View for Config {
    type V = ConfigView;

    closed spec fn view(&self) -> ConfigView {
        ConfigView {
            tick_interval_ms: self.tick_interval_ms as nat,
            dynamic_speed_enabled: self.dynamic_speed_enabled,
            board: self.board@,
        }
    }
}

impl Config {
    /// Builds a configuration from five values, or says which of them is
    /// outside its domain.
    pub fn new(
        tick_interval_ms: u64,
        dynamic_speed_enabled: bool,
        board_width: u64,
        board_height: u64,
        scoreboard_width: u64,
    ) -> (r: Result<Config, ConfigurationError>)
        ensures
            yields(
                r,
                config_of_values(
                    tick_interval_ms as nat,
                    dynamic_speed_enabled,
                    board_width as nat,
                    board_height as nat,
                    scoreboard_width as nat,
                ),
            ),
            r matches Ok(c) ==> c@.wf(),
    {
        if tick_interval_ms == 0 {
            return Err(ConfigurationError::OutOfDomain(Setting::TickInterval));
        }
        if board_width < MIN_BOARD_WIDTH as u64 || board_width > u16::MAX as u64 {
            return Err(ConfigurationError::OutOfDomain(Setting::BoardWidth));
        }
        if board_height < MIN_BOARD_HEIGHT as u64 || board_height > u16::MAX as u64 {
            return Err(ConfigurationError::OutOfDomain(Setting::BoardHeight));
        }
        if scoreboard_width < MIN_SCOREBOARD_WIDTH as u64 || scoreboard_width > u16::MAX as u64 {
            return Err(ConfigurationError::OutOfDomain(Setting::ScoreboardWidth));
        }
        match Board::new(board_width as u16, board_height as u16, scoreboard_width as u16) {
            Ok(board) => Ok(Config { tick_interval_ms, dynamic_speed_enabled, board }),
            Err(e) => Err(e),
        }
    }

    /// Reads a configuration from a parsed document.
    pub fn from_document(doc: &serde_json::Value) -> (r: Result<Config, ConfigurationError>)
        ensures
            yields(r, config_of_document(*doc)),
            r matches Ok(c) ==> c@.wf(),
    {
        let tick = match read_u64(doc, "tick_interval_ms") {
            Some(n) => n,
            None => return Err(ConfigurationError::Missing(Setting::TickInterval)),
        };
        let dynamic = match read_bool(doc, "dynamic_speed_enabled") {
            Some(b) => b,
            None => return Err(ConfigurationError::Missing(Setting::DynamicSpeed)),
        };
        let width = match read_u64(doc, "board_width") {
            Some(n) => n,
            None => return Err(ConfigurationError::Missing(Setting::BoardWidth)),
        };
        let height = match read_u64(doc, "board_height") {
            Some(n) => n,
            None => return Err(ConfigurationError::Missing(Setting::BoardHeight)),
        };
        let score_width = match read_u64(doc, "scoreboard_width") {
            Some(n) => n,
            None => return Err(ConfigurationError::Missing(Setting::ScoreboardWidth)),
        };
        Config::new(tick, dynamic, width, height, score_width)
    }

    /// Reads a configuration from the text of a JSON document.
    pub fn from_json(text: &str) -> (r: Result<Config, ConfigurationError>)
        ensures
            yields(r, config_of_text(text@)),
            r matches Ok(c) ==> c@.wf(),
    {
        match parse_document(text) {
            Ok(doc) => Config::from_document(&doc),
            Err(_) => Err(ConfigurationError::Syntax),
        }
    }

    /// The time between two ticks at the start, in milliseconds.
    pub fn tick_interval_ms(&self) -> (t: u64)
        ensures
            t == self@.tick_interval_ms,
    {
        self.tick_interval_ms
    }

    /// Whether the game speeds up as it goes on.
    pub fn dynamic_speed_enabled(&self) -> (b: bool)
        ensures
            b == self@.dynamic_speed_enabled,
    {
        self.dynamic_speed_enabled
    }

    /// The board.
    pub fn board(&self) -> (b: Board)
        ensures
            b@ == self@.board,
    {
        self.board
    }
}

/// Reads the number that member `key` of `doc` holds.
fn read_u64(doc: &serde_json::Value, key: &str) -> (r: Option<u64>)
    ensures
        r == u64_member(*doc, key@),
{
    match member(doc, key) {
        Some(m) => m.as_u64(),
        None => None,
    }
}

/// Reads the truth value that member `key` of `doc` holds.
fn read_bool(doc: &serde_json::Value, key: &str) -> (r: Option<bool>)
    ensures
        r == bool_member(*doc, key@),
{
    match member(doc, key) {
        Some(m) => m.as_bool(),
        None => None,
    }
}

/// A configuration is built from exactly the values that are in their
/// domains, and it then holds those values.
pub proof fn config_values_accepted_iff_in_domain(
    tick_interval_ms: nat,
    dynamic_speed_enabled: bool,
    board_width: nat,
    board_height: nat,
    scoreboard_width: nat,
)
    ensures
        config_of_values(
            tick_interval_ms,
            dynamic_speed_enabled,
            board_width,
            board_height,
            scoreboard_width,
        ) is Ok <==> {
            &&& tick_interval_ms > 0
            &&& (BoardView {
                width: board_width as int,
                height: board_height as int,
                score_width: scoreboard_width as int,
            }).wf()
        },
{
}

} // verus!
