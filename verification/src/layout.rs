//! Where things go on the screen.
//!
//! Nothing here paints. These functions say which cells hold the border, the
//! scoreboard panel and its two lines, and where the lines of the welcome
//! and end screens start; the caller moves the cursor there and prints.
//!
//! Column 0 and row 0 belong to the border, and so do column `width` and row
//! `height`. The panel sits to the right of the playfield and shares its
//! right border: it spans the columns `width ..= width + score_width`.

use vstd::prelude::*;
use vstd::arithmetic::power::{lemma_pow1, lemma_pow_adds, pow};
use crate::board::{Board, BoardView};
use crate::geometry::Position;

verus! {

/// How many decimal digits it takes to write `n`.
pub open spec fn decimal_digits(n: nat) -> nat
    decreases n,
{
    if n < 10 {
        1
    } else {
        1 + decimal_digits(n / 10)
    }
}

/// The column where a text of `len` cells starts when it is centered in the
/// columns before `width`: half of what is left over, rounded down, and
/// column 0 if the text is wider than that.
pub open spec fn centered(width: int, len: int) -> int {
    if len <= width {
        (width - len) / 2
    } else {
        0
    }
}

/// The `k`-th cell of a pair of rails: rails run along row 0 and row
/// `bottom`, and are listed column by column from `first` on, the upper cell
/// before the lower.
pub open spec fn rail_cell(first: int, bottom: int, k: int) -> Position {
    Position { x: (first + k / 2) as u16, y: if k % 2 == 0 { 0u16 } else { bottom as u16 } }
}

/// The cells of the two rails over the columns `first ..= last`.
pub open spec fn rails(first: int, last: int, bottom: int) -> Seq<Position> {
    Seq::new((2 * (last - first + 1)) as nat, |k: int| rail_cell(first, bottom, k))
}

/// The `k`-th cell of a pair of posts: posts run down column `left` and
/// column `right`, and are listed row by row from row 0 on, the left cell
/// before the right.
pub open spec fn post_cell(left: int, right: int, k: int) -> Position {
    Position { x: if k % 2 == 0 { left as u16 } else { right as u16 }, y: (k / 2) as u16 }
}

/// The cells of the two posts over the rows `0 ..= bottom`.
pub open spec fn posts(left: int, right: int, bottom: int) -> Seq<Position> {
    Seq::new((2 * (bottom + 1)) as nat, |k: int| post_cell(left, right, k))
}

/// The cells of column `column` over the rows `0 ..= bottom`, from the top.
pub open spec fn post(column: int, bottom: int) -> Seq<Position> {
    Seq::new((bottom + 1) as nat, |k: int| Position { x: column as u16, y: k as u16 })
}

impl BoardView {
    /// The cells of the playfield's border in the order they are painted:
    /// the top and bottom rails, then the left and right posts.
    pub open spec fn border(self) -> Seq<Position> {
        rails(0, self.width, self.height) + posts(0, self.width, self.height)
    }

    /// The cells of the scoreboard panel's border in the order they are
    /// painted: its top and bottom rails, then its right post.
    pub open spec fn panel(self) -> Seq<Position> {
        rails(self.width, self.width + self.score_width, self.height) + post(
            self.width + self.score_width,
            self.height,
        )
    }

    /// The column in the middle of the panel.
    pub open spec fn panel_middle(self) -> int {
        self.width + self.score_width / 2
    }

    /// Where the panel's caption starts: one row above the middle, two
    /// columns left of the panel's middle.
    pub open spec fn score_label_cell(self) -> Position {
        Position { x: (self.panel_middle() - 2) as u16, y: (self.height / 2 - 1) as u16 }
    }

    /// Where the score's digits start: in the middle row, left of the
    /// panel's middle by half their number, rounded down.
    pub open spec fn score_value_cell(self, score: nat) -> Position {
        Position {
            x: (self.panel_middle() - decimal_digits(score) / 2) as u16,
            y: (self.height / 2) as u16,
        }
    }

    /// Where the cursor is left when the program ends: the first cell below
    /// the board.
    pub open spec fn parking_cell(self) -> Position {
        Position { x: 0, y: (self.height + 1) as u16 }
    }

    /// Where a banner starts: centered over the playfield, in the row its
    /// kind puts it relative to the middle row.
    pub open spec fn banner_cell(self, banner: Banner, score: nat) -> Position {
        Position {
            x: centered(self.width, banner.cells(score) as int) as u16,
            y: (self.height / 2 + banner.row_offset()) as u16,
        }
    }
}

impl BoardView {
    /// Whether `p` lies on the rim of the playfield: in column 0 or column
    /// `width` and no lower than row `height`, or in row 0 or row `height`
    /// and no further right than column `width`.
    pub open spec fn on_rim(self, p: Position) -> bool {
        &&& p.x <= self.width
        &&& p.y <= self.height
        &&& (p.x == 0 || p.x == self.width || p.y == 0 || p.y == self.height)
    }
}

/// The border that is painted is the rim of the playfield, all of it and
/// nothing else.
pub proof fn border_is_the_rim(b: BoardView, p: Position)
    requires
        b.wf(),
    ensures
        b.border().contains(p) <==> b.on_rim(p),
{
    let r = rails(0, b.width, b.height);
    let q = posts(0, b.width, b.height);
    let s = b.border();
    if b.on_rim(p) {
        if p.y == 0 || p.y == b.height {
            let k: int = if p.y == 0 { 2 * p.x } else { 2 * p.x + 1 };
            assert(r[k] == p);
            assert(s[k] == p);
        } else {
            let k: int = if p.x == 0 { 2 * p.y } else { 2 * p.y + 1 };
            assert(q[k] == p);
            assert(s[r.len() + k] == p);
        }
    }
    if s.contains(p) {
        let i = choose|i: int| 0 <= i < s.len() && s[i] == p;
        if i < r.len() {
            assert(s[i] == r[i]);
        } else {
            assert(s[i] == q[i - r.len()]);
        }
    }
}

/// No cell of the border is a cell of the interior: a snake that is inside
/// the playfield never lies on the painted border.
pub proof fn border_and_interior_are_apart(b: BoardView, p: Position)
    requires
        b.wf(),
        b.contains(p),
    ensures
        !b.border().contains(p),
{
    border_is_the_rim(b, p);
}

/// A line of text on the welcome screen or on the end screen.
#[derive(Clone, Copy, Debug, PartialEq, Eq, Structural)]
pub enum Banner {
    /// Welcome screen, middle row.
    Welcome,
    /// Welcome screen, one row below the middle.
    StartHint,
    /// End screen, one row above the middle.
    GameOver,
    /// End screen, middle row.
    Thanks,
    /// End screen, one row below the middle: these words, then the score.
    FinalScore,
}

impl Banner {
    /// The banner's words.
    pub open spec fn words(self) -> Seq<char> {
        match self {
            Banner::Welcome => "Welcome to Snake Game!"@,
            Banner::StartHint => "Press 'P' to Play"@,
            Banner::GameOver => "Game Over!"@,
            Banner::Thanks => "Thanks for playing!"@,
            Banner::FinalScore => "Your score is "@,
        }
    }

    /// How many cells the banner takes: its words, and for the final score
    /// the digits of `score` after them.
    pub open spec fn cells(self, score: nat) -> nat {
        match self {
            Banner::FinalScore => self.words().len() + decimal_digits(score),
            _ => self.words().len(),
        }
    }

    /// The banner's row, counted from the middle row.
    pub open spec fn row_offset(self) -> int {
        match self {
            Banner::Welcome => 0,
            Banner::StartHint => 1,
            Banner::GameOver => -1,
            Banner::Thanks => 0,
            Banner::FinalScore => 1,
        }
    }

    /// The banner's words as text to print.
    pub fn text(self) -> (t: &'static str)
        ensures
            t@ == self.words(),
    {
        match self {
            Banner::Welcome => "Welcome to Snake Game!",
            Banner::StartHint => "Press 'P' to Play",
            Banner::GameOver => "Game Over!",
            Banner::Thanks => "Thanks for playing!",
            Banner::FinalScore => "Your score is ",
        }
    }

    /// Counts the cells the banner takes when it shows `score`.
    pub fn width(self, score: u64) -> (n: u16)
        ensures
            n == self.cells(score as nat),
    {
        proof {
            reveal_strlit("Welcome to Snake Game!");
            reveal_strlit("Press 'P' to Play");
            reveal_strlit("Game Over!");
            reveal_strlit("Thanks for playing!");
            reveal_strlit("Your score is ");
        }
        match self {
            Banner::Welcome => 22,
            Banner::StartHint => 17,
            Banner::GameOver => 10,
            Banner::Thanks => 19,
            Banner::FinalScore => 14 + decimal_width(score),
        }
    }
}

/// Counts the decimal digits of `n`.
pub fn decimal_width(n: u64) -> (d: u16)
    ensures
        d == decimal_digits(n as nat),
        1 <= d <= 20,
{
    let mut rest: u64 = n;
    let mut d: u16 = 1;
    proof {
        digits_of_u64(n as nat);
    }
    while rest >= 10
        invariant
            1 <= d,
            d + decimal_digits(rest as nat) == 1 + decimal_digits(n as nat),
            decimal_digits(n as nat) <= 20,
        decreases rest,
    {
        rest = rest / 10;
        d = d + 1;
    }
    d
}

/// What counting digits means: a number written with `d` digits is below the
/// `d`-th power of ten, and unless it is a single digit it is at least the
/// power before that.
pub proof fn digits_bracket_the_number(n: nat)
    ensures
        n < pow(10, decimal_digits(n)),
        n >= 10 ==> n >= pow(10, (decimal_digits(n) - 1) as nat),
    decreases n,
{
    lemma_pow1(10);
    if n >= 10 {
        let rest = n / 10;
        let d = decimal_digits(rest);
        digits_bracket_the_number(rest);
        assert(pow(10, d + 1) == 10 * pow(10, d)) by {
            lemma_pow_adds(10, 1, d);
        }
        if rest >= 10 {
            assert(pow(10, d) == 10 * pow(10, (d - 1) as nat)) by {
                lemma_pow_adds(10, 1, (d - 1) as nat);
            }
        }
    }
}

/// A number that fits 64 bits has at most twenty digits.
pub proof fn digits_of_u64(n: nat)
    requires
        n <= u64::MAX,
    ensures
        1 <= decimal_digits(n) <= 20,
{
    reveal_with_fuel(decimal_digits, 21);
}

/// Computes the column where a text of `len` cells starts when centered in
/// `width` columns.
pub fn centered_column(width: u16, len: u16) -> (x: u16)
    ensures
        x == centered(width as int, len as int),
{
    if len <= width {
        (width - len) / 2
    } else {
        0
    }
}

/// Appends the two rails over the columns `first ..= last`.
fn push_rails(cells: &mut Vec<Position>, first: u16, last: u16, bottom: u16)
    requires
        first <= last,
    ensures
        final(cells)@ == old(cells)@ + rails(first as int, last as int, bottom as int),
{
    let count: u32 = (last - first) as u32 + 1;
    let mut i: u32 = 0;
    while i < count
        invariant
            i <= count,
            count == last - first + 1,
            cells@ == old(cells)@ + Seq::new(
                (2 * i) as nat,
                |k: int| rail_cell(first as int, bottom as int, k),
            ),
        decreases count - i,
    {
        let x: u16 = first + i as u16;
        cells.push(Position { x, y: 0 });
        cells.push(Position { x, y: bottom });
        i = i + 1;
    }
}

/// Appends the two posts over the rows `0 ..= bottom`.
fn push_posts(cells: &mut Vec<Position>, left: u16, right: u16, bottom: u16)
    ensures
        final(cells)@ == old(cells)@ + posts(left as int, right as int, bottom as int),
{
    let count: u32 = bottom as u32 + 1;
    let mut i: u32 = 0;
    while i < count
        invariant
            i <= count,
            count == bottom + 1,
            cells@ == old(cells)@ + Seq::new(
                (2 * i) as nat,
                |k: int| post_cell(left as int, right as int, k),
            ),
        decreases count - i,
    {
        let y: u16 = i as u16;
        cells.push(Position { x: left, y });
        cells.push(Position { x: right, y });
        i = i + 1;
    }
}

/// Appends the cells of one column over the rows `0 ..= bottom`.
fn push_post(cells: &mut Vec<Position>, column: u16, bottom: u16)
    ensures
        final(cells)@ == old(cells)@ + post(column as int, bottom as int),
{
    let count: u32 = bottom as u32 + 1;
    let mut i: u32 = 0;
    while i < count
        invariant
            i <= count,
            count == bottom + 1,
            cells@ == old(cells)@ + Seq::new(
                i as nat,
                |k: int| Position { x: column, y: k as u16 },
            ),
        decreases count - i,
    {
        cells.push(Position { x: column, y: i as u16 });
        i = i + 1;
    }
}

/// Lists the cells of the playfield's border, in painting order.
pub fn border_cells(board: &Board) -> (cells: Vec<Position>)
    requires
        board@.wf(),
    ensures
        cells@ == board@.border(),
{
    let mut cells: Vec<Position> = Vec::new();
    push_rails(&mut cells, 0, board.width(), board.height());
    push_posts(&mut cells, 0, board.width(), board.height());
    cells
}

/// Lists the cells of the scoreboard panel's border, in painting order.
pub fn panel_cells(board: &Board) -> (cells: Vec<Position>)
    requires
        board@.wf(),
    ensures
        cells@ == board@.panel(),
{
    let right: u16 = board.width() + board.score_width();
    let mut cells: Vec<Position> = Vec::new();
    push_rails(&mut cells, board.width(), right, board.height());
    push_post(&mut cells, right, board.height());
    cells
}

/// Computes where the panel's caption starts.
pub fn score_label_cell(board: &Board) -> (p: Position)
    requires
        board@.wf(),
    ensures
        p == board@.score_label_cell(),
{
    Position { x: board.width() + board.score_width() / 2 - 2, y: board.height() / 2 - 1 }
}

/// Computes where the digits of `score` start on the panel.
pub fn score_value_cell(board: &Board, score: u64) -> (p: Position)
    requires
        board@.wf(),
    ensures
        p == board@.score_value_cell(score as nat),
{
    Position {
        x: board.width() + board.score_width() / 2 - decimal_width(score) / 2,
        y: board.height() / 2,
    }
}

/// Computes where the cursor is left when the program ends.
pub fn parking_cell(board: &Board) -> (p: Position)
    requires
        board@.wf(),
    ensures
        p == board@.parking_cell(),
{
    Position { x: 0, y: board.height() + 1 }
}

/// Computes where `banner` starts when it shows `score`. The score matters
/// to the final-score banner only.
pub fn banner_cell(board: &Board, banner: Banner, score: u64) -> (p: Position)
    requires
        board@.wf(),
    ensures
        p == board@.banner_cell(banner, score as nat),
{
    let x = centered_column(board.width(), banner.width(score));
    let middle = board.height() / 2;
    let y = match banner {
        Banner::Welcome => middle,
        Banner::StartHint => middle + 1,
        Banner::GameOver => middle - 1,
        Banner::Thanks => middle,
        Banner::FinalScore => middle + 1,
    };
    Position { x, y }
}

} // verus!
