//! The game state and its one transition.
//!
//! A snake is a sequence of cells, head first. Each tick the head moves one
//! cell in the current heading. If it lands on the food, the score goes up,
//! a new food is placed and the snake keeps its tail; otherwise the tail
//! follows. Leaving the playfield's interior ends the game. The snake may
//! cross its own body: only the border is fatal.

use vstd::prelude::*;
use crate::board::{Board, BoardView};
use crate::chance::random_interior_cell;
use crate::geometry::{Direction, Position};

verus! {

/// The signal that the snake has left the playfield.
#[derive(Clone, Copy, Debug, PartialEq, Eq, Structural)]
pub struct GameOver;

impl GameOver {
    /// The words to log or show for this signal.
    pub fn message(&self) -> (m: &'static str)
        ensures
            m@ == "Game Over"@,
    {
        "Game Over"
    }
}

/// A game state as mathematics sees it.
pub struct GameView {
    /// The snake's cells, head first.
    pub snake: Seq<Position>,
    /// The direction of the next move.
    pub heading: Direction,
    /// Where the food lies.
    pub food: Position,
    /// The fixed geometry.
    pub board: BoardView,
    /// How many foods have been eaten.
    pub score: nat,
}

impl GameView {
    /// The state a session starts from: a snake of one cell in the middle of
    /// the board, heading right, the food at the quarter cell, no score.
    pub open spec fn initial(board: BoardView) -> GameView {
        GameView {
            snake: seq![board.center()],
            heading: Direction::Right,
            food: board.quarter(),
            board,
            score: 0,
        }
    }

    /// The snake's first cell.
    pub open spec fn head(self) -> Position
        recommends
            self.snake.len() > 0,
    {
        self.snake[0]
    }

    /// Every cell of the snake lies in the playfield's interior.
    pub open spec fn in_bounds(self) -> bool {
        forall|i: int| 0 <= i < self.snake.len() ==> self.board.contains(#[trigger] self.snake[i])
    }

    /// What holds of every state of a running game: the board is a board, the
    /// snake is not empty and inside it, it has grown by one cell for each
    /// point scored, and the food lies in the interior.
    pub open spec fn wf(self) -> bool {
        &&& self.board.wf()
        &&& self.snake.len() == self.score + 1
        &&& self.in_bounds()
        &&& self.board.contains(self.food)
    }

    /// The heading of the next move: the requested one if there is one, else
    /// the current one. A request is taken as it comes, a reversal too.
    pub open spec fn next_heading(self, requested: Option<Direction>) -> Direction {
        match requested {
            Some(d) => d,
            None => self.heading,
        }
    }

    /// The cell the head moves to.
    pub open spec fn next_head(self, requested: Option<Direction>) -> Position {
        self.head().moved(self.next_heading(requested))
    }

    /// Whether the move lands on the food.
    pub open spec fn eats(self, requested: Option<Direction>) -> bool {
        self.next_head(requested) == self.food
    }

    /// Whether the move leaves the playfield's interior.
    pub open spec fn crashes(self, requested: Option<Direction>) -> bool {
        !self.board.contains(self.next_head(requested))
    }

    /// The state after one tick, where `fresh_food` is the cell that a new
    /// food would take. The new head goes in front. On a move that eats, the
    /// score grows by one and the food moves to `fresh_food`; on any other
    /// the last cell is dropped. The move is made even when it crashes.
    pub open spec fn advanced(self, requested: Option<Direction>, fresh_food: Position) -> GameView {
        let head = self.next_head(requested);
        if self.eats(requested) {
            GameView {
                snake: seq![head] + self.snake,
                heading: self.next_heading(requested),
                food: fresh_food,
                board: self.board,
                score: self.score + 1,
            }
        } else {
            GameView {
                snake: seq![head] + self.snake.drop_last(),
                heading: self.next_heading(requested),
                food: self.food,
                board: self.board,
                score: self.score,
            }
        }
    }
}

/// What one tick is fed: the heading asked for, if any, and the cell that a
/// new food would take.
pub struct Tick {
    pub requested: Option<Direction>,
    pub fresh_food: Position,
}

impl GameView {
    /// The state after the ticks of `ticks`, played in order.
    pub open spec fn after(self, ticks: Seq<Tick>) -> GameView
        decreases ticks.len(),
    {
        if ticks.len() == 0 {
            self
        } else {
            let t = ticks.last();
            self.after(ticks.drop_last()).advanced(t.requested, t.fresh_food)
        }
    }

    /// The game is still running after `ticks`: no tick of them crashed, and
    /// each was offered a food cell of the interior.
    pub open spec fn survives(self, ticks: Seq<Tick>) -> bool
        decreases ticks.len(),
    {
        if ticks.len() == 0 {
            true
        } else {
            let t = ticks.last();
            let before = self.after(ticks.drop_last());
            &&& self.survives(ticks.drop_last())
            &&& before.board.contains(t.fresh_food)
            &&& !before.crashes(t.requested)
        }
    }
}

impl GameView {
    /// How many ticks of the run land on the food.
    pub open spec fn meals(self, ticks: Seq<Tick>) -> nat
        decreases ticks.len(),
    {
        if ticks.len() == 0 {
            0
        } else {
            let before = self.after(ticks.drop_last());
            let meal: nat = if before.eats(ticks.last().requested) {
                1
            } else {
                0
            };
            self.meals(ticks.drop_last()) + meal
        }
    }
}

/// The score counts the meals: over any run of ticks it grows by the number
/// of ticks that landed on the food, so from the start of a session on it is
/// that number.
pub proof fn score_is_the_number_of_meals(g: GameView, ticks: Seq<Tick>)
    ensures
        g.after(ticks).score == g.score + g.meals(ticks),
        g.score == 0 ==> g.after(ticks).score == g.meals(ticks),
    decreases ticks.len(),
{
    if ticks.len() > 0 {
        score_is_the_number_of_meals(g, ticks.drop_last());
    }
}

/// No run of ticks changes the board.
pub proof fn board_is_fixed(g: GameView, ticks: Seq<Tick>)
    ensures
        g.after(ticks).board == g.board,
    decreases ticks.len(),
{
    if ticks.len() > 0 {
        board_is_fixed(g, ticks.drop_last());
    }
}

/// A tick that does not crash leaves a running game running: in particular
/// every cell of the snake is still inside the playfield.
pub proof fn tick_keeps_game_running(g: GameView, requested: Option<Direction>, fresh_food: Position)
    requires
        g.wf(),
        g.board.contains(fresh_food),
        !g.crashes(requested),
    ensures
        g.advanced(requested, fresh_food).wf(),
        g.advanced(requested, fresh_food).in_bounds(),
{
    let next = g.advanced(requested, fresh_food);
    assert forall|i: int| 0 <= i < next.snake.len() implies g.board.contains(#[trigger] next.snake[i]) by {
        if i > 0 {
            assert(next.snake[i] == g.snake[i - 1]);
        }
    }
}

/// A tick that crashes puts the head outside the playfield and leaves every
/// other cell of the snake inside.
pub proof fn crash_shows_in_head_only(g: GameView, requested: Option<Direction>, fresh_food: Position)
    requires
        g.wf(),
        g.crashes(requested),
    ensures
        !g.board.contains(g.advanced(requested, fresh_food).head()),
        forall|i: int| 1 <= i < g.advanced(requested, fresh_food).snake.len() ==> g.board.contains(
            #[trigger] g.advanced(requested, fresh_food).snake[i],
        ),
{
    let next = g.advanced(requested, fresh_food);
    assert forall|i: int| 1 <= i < next.snake.len() implies g.board.contains(#[trigger] next.snake[i]) by {
        assert(next.snake[i] == g.snake[i - 1]);
    }
}

/// From the start of a session on, as long as no tick has crashed, every cell
/// of the snake lies inside the playfield.
pub proof fn snake_in_bounds_while_running(board: BoardView, ticks: Seq<Tick>)
    requires
        board.wf(),
        GameView::initial(board).survives(ticks),
    ensures
        GameView::initial(board).after(ticks).wf(),
        GameView::initial(board).after(ticks).in_bounds(),
{
    crate::board::board_start_cells(board);
    running_game_stays_wf(GameView::initial(board), ticks);
}

/// A running game that survives a run of ticks is a running game after it.
pub proof fn running_game_stays_wf(g: GameView, ticks: Seq<Tick>)
    requires
        g.wf(),
        g.survives(ticks),
    ensures
        g.after(ticks).wf(),
        g.after(ticks).board == g.board,
    decreases ticks.len(),
{
    if ticks.len() > 0 {
        let t = ticks.last();
        running_game_stays_wf(g, ticks.drop_last());
        tick_keeps_game_running(g.after(ticks.drop_last()), t.requested, t.fresh_food);
    }
}

/// One tick adds one to the score if the move lands on the food, and leaves
/// the score alone if it does not.
pub proof fn score_counts_meals(g: GameView, requested: Option<Direction>, fresh_food: Position)
    ensures
        g.eats(requested) ==> g.advanced(requested, fresh_food).score == g.score + 1,
        !g.eats(requested) ==> g.advanced(requested, fresh_food).score == g.score,
{
}

/// Over any run of ticks the score does not go down.
pub proof fn score_never_decreases(g: GameView, ticks: Seq<Tick>)
    ensures
        g.after(ticks).score >= g.score,
    decreases ticks.len(),
{
    if ticks.len() > 0 {
        score_never_decreases(g, ticks.drop_last());
    }
}

/// One tick makes the snake one cell longer if the move lands on the food,
/// and leaves its length alone if it does not.
pub proof fn length_counts_meals(g: GameView, requested: Option<Direction>, fresh_food: Position)
    requires
        g.snake.len() > 0,
    ensures
        g.eats(requested) ==> g.advanced(requested, fresh_food).snake.len() == g.snake.len() + 1,
        !g.eats(requested) ==> g.advanced(requested, fresh_food).snake.len() == g.snake.len(),
{
}

/// Over any run of ticks the snake does not get shorter, and it grows by as
/// many cells as the score grows by points.
pub proof fn length_never_decreases(g: GameView, ticks: Seq<Tick>)
    requires
        g.snake.len() > 0,
    ensures
        g.after(ticks).snake.len() >= g.snake.len(),
        g.after(ticks).snake.len() - g.snake.len() == g.after(ticks).score - g.score,
    decreases ticks.len(),
{
    if ticks.len() > 0 {
        let t = ticks.last();
        length_never_decreases(g, ticks.drop_last());
        length_counts_meals(g.after(ticks.drop_last()), t.requested, t.fresh_food);
    }
}

/// The authoritative state of one game.
#[derive(Debug)]
pub struct GameState {
    snake: Vec<Position>,
    heading: Direction,
    food: Position,
    board: Board,
    score: u64,
}

impl View for GameState {
    type V = GameView;

    closed spec fn view(&self) -> GameView {
        GameView {
            snake: self.snake@,
            heading: self.heading,
            food: self.food,
            board: self.board@,
            score: self.score as nat,
        }
    }
}

impl GameState {
    /// Sets up a game on `board`.
    pub fn new(board: Board) -> (g: GameState)
        requires
            board@.wf(),
        ensures
            g@ == GameView::initial(board@),
            g@.wf(),
    {
        let mut snake: Vec<Position> = Vec::new();
        snake.push(board.center());
        let g = GameState {
            snake,
            heading: Direction::Right,
            food: board.quarter(),
            board,
            score: 0,
        };
        assert(g@.snake =~= seq![board@.center()]);
        g
    }

    /// The snake's cells, head first.
    pub fn snake(&self) -> (cells: &Vec<Position>)
        ensures
            cells@ == self@.snake,
    {
        &self.snake
    }

    /// The snake's first cell.
    pub fn head(&self) -> (p: Position)
        requires
            self@.snake.len() > 0,
        ensures
            p == self@.head(),
    {
        self.snake[0]
    }

    /// The direction of the next move.
    pub fn heading(&self) -> (d: Direction)
        ensures
            d == self@.heading,
    {
        self.heading
    }

    /// Where the food lies.
    pub fn food(&self) -> (p: Position)
        ensures
            p == self@.food,
    {
        self.food
    }

    /// The fixed geometry.
    pub fn board(&self) -> (b: Board)
        ensures
            b@ == self@.board,
    {
        self.board
    }

    /// How many foods have been eaten.
    pub fn score(&self) -> (n: u64)
        ensures
            n == self@.score,
    {
        self.score
    }

    /// Plays one tick with a food position chosen by the caller.
    ///
    /// `fresh_food` is where the food goes if this move eats the current one;
    /// otherwise it is not looked at. The game is over exactly when the new
    /// head is outside the playfield's interior; the state then holds that
    /// head and is good for nothing but reading.
    pub fn advance_with(&mut self, requested: Option<Direction>, fresh_food: Position) -> (res: Result<(), GameOver>)
        requires
            old(self)@.wf(),
            old(self)@.board.contains(fresh_food),
        ensures
            final(self)@ == old(self)@.advanced(requested, fresh_food),
            res is Err <==> old(self)@.crashes(requested),
            res is Ok ==> final(self)@.wf(),
    {
        if let Some(d) = requested {
            self.heading = d;
        }
        let head = self.snake[0];
        assert(old(self)@.board.contains(old(self)@.snake[0]));
        let new_head = head.step(self.heading);
        if new_head == self.food {
            // One point per cell beyond the first, and a vector's length
            // fits `usize`: the score has room to grow.
            assert(self.score + 1 == self.snake.len());
            self.score = self.score + 1;
            self.food = fresh_food;
        } else {
            self.snake.pop();
        }
        self.snake.insert(0, new_head);
        assert(self@.snake =~= old(self)@.advanced(requested, fresh_food).snake);
        if self.board.contains(new_head) {
            Ok(())
        } else {
            Err(GameOver)
        }
    }

    /// Plays one tick: the requested heading, if any, replaces the current
    /// one, the snake moves, and a food that was eaten is replaced by one at
    /// a cell of the interior drawn at random.
    ///
    /// The outcome is that of [`GameState::advance_with`] for the food
    /// position that the new state shows.
    pub fn advance(&mut self, requested: Option<Direction>) -> (res: Result<(), GameOver>)
        requires
            old(self)@.wf(),
        ensures
            final(self)@ == old(self)@.advanced(requested, final(self)@.food),
            final(self)@.board.contains(final(self)@.food),
            res is Err <==> old(self)@.crashes(requested),
            res is Ok ==> final(self)@.wf(),
    {
        if self.will_eat(requested) {
            let fresh_food = random_interior_cell(&self.board);
            self.advance_with(requested, fresh_food)
        } else {
            let food = self.food;
            self.advance_with(requested, food)
        }
    }

    /// Tells whether the next move, with this request, lands on the food.
    pub fn will_eat(&self, requested: Option<Direction>) -> (b: bool)
        requires
            self@.wf(),
        ensures
            b == self@.eats(requested),
    {
        let heading = match requested {
            Some(d) => d,
            None => self.heading,
        };
        let head = self.snake[0];
        assert(self@.board.contains(self@.snake[0]));
        head.step(heading) == self.food
    }
}

} // verus!
