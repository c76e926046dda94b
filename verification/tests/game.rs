use snake_game::board::Board;
use snake_game::game::{GameOver, GameState};
use snake_game::geometry::{Direction, Position};

fn at(x: u16, y: u16) -> Position {
    Position { x, y }
}

fn small_board() -> Board {
    Board::new(20, 10, 5).unwrap()
}

/// Plays `n` ticks that eat nothing and must not crash.
fn glide(game: &mut GameState, first: Option<Direction>, n: usize) {
    let spare = game.food();
    let mut request = first;
    for _ in 0..n {
        assert!(!game.will_eat(request));
        assert_eq!(game.advance_with(request, spare), Ok(()));
        request = None;
    }
}

/// Steers the head onto the food with random replacement food, and returns
/// once the food has been eaten.
fn hunt(game: &mut GameState) {
    let score = game.score();
    while game.score() == score {
        let head = game.head();
        let food = game.food();
        // A food that landed under the head is reached by stepping off it
        // and back, away from the nearer border.
        let toward = if head.x < food.x {
            Direction::Right
        } else if head.x > food.x {
            Direction::Left
        } else if head.y < food.y {
            Direction::Down
        } else if head.y > food.y || head.y > 1 {
            Direction::Up
        } else {
            Direction::Down
        };
        assert_eq!(game.advance(Some(toward)), Ok(()));
    }
}

#[test]
fn new_game_starts_in_the_middle() {
    let game = GameState::new(small_board());
    assert_eq!(game.snake().as_slice(), &[at(10, 5)]);
    assert_eq!(game.head(), at(10, 5));
    assert_eq!(game.heading(), Direction::Right);
    assert_eq!(game.food(), at(5, 2));
    assert_eq!(game.score(), 0);
    assert_eq!(game.board().width(), 20);
    assert_eq!(game.board().height(), 10);
    assert_eq!(game.board().score_width(), 5);
}

#[test]
fn first_tick_moves_the_head_right() {
    let mut game = GameState::new(small_board());
    assert_eq!(game.advance(None), Ok(()));
    assert_eq!(game.head(), at(11, 5));
    assert_eq!(game.snake().as_slice(), &[at(11, 5)]);
    assert_eq!(game.score(), 0);
    assert_eq!(game.food(), at(5, 2));
    assert_eq!(game.heading(), Direction::Right);
}

#[test]
fn tick_with_chosen_food_moves_the_head_right() {
    let mut game = GameState::new(small_board());
    assert_eq!(game.advance_with(None, at(7, 7)), Ok(()));
    assert_eq!(game.snake().as_slice(), &[at(11, 5)]);
    assert_eq!(game.food(), at(5, 2));
    assert_eq!(game.score(), 0);
}

#[test]
fn eating_the_food_scores_and_grows() {
    let mut game = GameState::new(Board::new(44, 20, 5).unwrap());
    assert_eq!(game.head(), at(22, 10));
    assert_eq!(game.food(), at(11, 5));
    glide(&mut game, Some(Direction::Up), 6);
    glide(&mut game, Some(Direction::Left), 13);
    glide(&mut game, Some(Direction::Down), 1);
    glide(&mut game, Some(Direction::Right), 1);
    assert_eq!(game.head(), at(10, 5));
    assert_eq!(game.heading(), Direction::Right);
    assert_eq!(game.snake().len(), 1);
    assert_eq!(game.score(), 0);

    assert!(game.will_eat(None));
    assert_eq!(game.advance_with(None, at(30, 15)), Ok(()));
    assert_eq!(game.head(), at(11, 5));
    assert_eq!(game.score(), 1);
    assert_eq!(game.snake().as_slice(), &[at(11, 5), at(10, 5)]);
    assert_eq!(game.food(), at(30, 15));
}

#[test]
fn eaten_food_is_replaced_inside_the_playfield() {
    let mut game = GameState::new(small_board());
    let mut seen: Vec<Position> = Vec::new();
    for round in 1..=40u64 {
        hunt(&mut game);
        assert_eq!(game.score(), round);
        assert_eq!(game.snake().len() as u64, round + 1);
        let food = game.food();
        assert!(1 <= food.x && food.x < 20, "food column {}", food.x);
        assert!(1 <= food.y && food.y < 10, "food row {}", food.y);
        assert!(game.board().contains(food));
        if !seen.contains(&food) {
            seen.push(food);
        }
    }
    assert!(seen.len() > 1);
}

#[test]
fn leaving_by_the_left_edge_ends_the_game() {
    let mut game = GameState::new(small_board());
    glide(&mut game, Some(Direction::Left), 9);
    assert_eq!(game.head(), at(1, 5));
    assert_eq!(game.heading(), Direction::Left);
    assert_eq!(game.advance(None), Err(GameOver));
    assert_eq!(game.head().x, 0);
    assert_eq!(game.head(), at(0, 5));
    assert_eq!(game.snake().len(), 1);
    assert_eq!(game.score(), 0);
}

#[test]
fn each_edge_ends_the_game() {
    let mut right = GameState::new(small_board());
    glide(&mut right, None, 9);
    assert_eq!(right.head(), at(19, 5));
    assert_eq!(right.advance_with(None, at(1, 1)), Err(GameOver));
    assert_eq!(right.head(), at(20, 5));

    let mut up = GameState::new(small_board());
    glide(&mut up, Some(Direction::Up), 4);
    assert_eq!(up.head(), at(10, 1));
    assert_eq!(up.advance_with(None, at(1, 1)), Err(GameOver));
    assert_eq!(up.head(), at(10, 0));

    let mut down = GameState::new(small_board());
    glide(&mut down, Some(Direction::Down), 4);
    assert_eq!(down.head(), at(10, 9));
    assert_eq!(down.advance_with(None, at(1, 1)), Err(GameOver));
    assert_eq!(down.head(), at(10, 10));
}

#[test]
fn game_over_has_its_message() {
    assert_eq!(GameOver.message(), "Game Over");
}

#[test]
fn a_requested_heading_replaces_the_current_one() {
    let mut game = GameState::new(small_board());
    assert_eq!(game.advance_with(Some(Direction::Down), at(1, 1)), Ok(()));
    assert_eq!(game.heading(), Direction::Down);
    assert_eq!(game.head(), at(10, 6));
    assert_eq!(game.advance_with(None, at(1, 1)), Ok(()));
    assert_eq!(game.heading(), Direction::Down);
    assert_eq!(game.head(), at(10, 7));
}

#[test]
fn the_game_does_not_refuse_a_reversal() {
    let mut game = GameState::new(small_board());
    assert_eq!(game.advance_with(Some(Direction::Left), at(1, 1)), Ok(()));
    assert_eq!(game.head(), at(9, 5));
    assert_eq!(game.heading(), Direction::Left);
}

/// Grows a snake of five cells along row 2, head at (2,2), heading left.
fn long_snake() -> GameState {
    let mut game = GameState::new(small_board());
    glide(&mut game, Some(Direction::Up), 3);
    glide(&mut game, Some(Direction::Left), 4);
    assert_eq!(game.head(), at(6, 2));
    assert_eq!(game.advance_with(None, at(4, 2)), Ok(()));
    assert_eq!(game.advance_with(None, at(3, 2)), Ok(()));
    assert_eq!(game.advance_with(None, at(2, 2)), Ok(()));
    assert_eq!(game.advance_with(None, at(15, 8)), Ok(()));
    assert_eq!(game.score(), 4);
    assert_eq!(
        game.snake().as_slice(),
        &[at(2, 2), at(3, 2), at(4, 2), at(5, 2), at(6, 2)]
    );
    game
}

#[test]
fn running_into_its_own_body_does_not_end_the_game() {
    let mut game = long_snake();
    glide(&mut game, Some(Direction::Down), 1);
    glide(&mut game, Some(Direction::Right), 1);
    assert_eq!(game.advance_with(Some(Direction::Up), at(15, 8)), Ok(()));
    assert_eq!(
        game.snake().as_slice(),
        &[at(3, 2), at(3, 3), at(2, 3), at(2, 2), at(3, 2)]
    );
    assert_eq!(game.score(), 4);
}

#[test]
fn reversing_into_the_body_does_not_end_the_game() {
    let mut game = long_snake();
    assert_eq!(game.advance_with(Some(Direction::Right), at(15, 8)), Ok(()));
    assert_eq!(
        game.snake().as_slice(),
        &[at(3, 2), at(2, 2), at(3, 2), at(4, 2), at(5, 2)]
    );
}

#[test]
fn the_tail_follows_when_nothing_is_eaten() {
    let mut game = long_snake();
    glide(&mut game, Some(Direction::Down), 2);
    assert_eq!(
        game.snake().as_slice(),
        &[at(2, 4), at(2, 3), at(2, 2), at(3, 2), at(4, 2)]
    );
    assert_eq!(game.score(), 4);
}

#[test]
fn score_and_length_move_together_and_never_down() {
    let mut game = GameState::new(small_board());
    let mut score = game.score();
    let mut len = game.snake().len();
    let route = [
        Direction::Up,
        Direction::Up,
        Direction::Up,
        Direction::Left,
        Direction::Left,
        Direction::Left,
        Direction::Left,
        Direction::Left,
        Direction::Down,
        Direction::Down,
        Direction::Right,
        Direction::Up,
    ];
    for d in route {
        let eats = game.will_eat(Some(d));
        assert_eq!(game.advance_with(Some(d), at(5, 4)), Ok(()));
        let grown = if eats { 1 } else { 0 };
        assert_eq!(game.score(), score + grown);
        assert_eq!(game.snake().len(), len + grown as usize);
        score = game.score();
        len = game.snake().len();
        for cell in game.snake() {
            assert!(game.board().contains(*cell));
        }
    }
    assert_eq!(score, 2);
    assert_eq!(len, 3);
}

#[test]
fn food_under_the_head_is_not_eaten_by_moving_on() {
    let mut game = GameState::new(small_board());
    glide(&mut game, Some(Direction::Up), 3);
    glide(&mut game, Some(Direction::Left), 4);
    // The new food lands on the cell the head has just reached.
    assert_eq!(game.advance_with(None, at(5, 2)), Ok(()));
    assert_eq!(game.head(), at(5, 2));
    assert_eq!(game.food(), at(5, 2));
    assert!(!game.will_eat(None));
    assert_eq!(game.advance_with(None, at(9, 9)), Ok(()));
    assert_eq!(game.score(), 1);
    assert_eq!(game.food(), at(5, 2));
}

#[test]
fn headings_and_their_opposites() {
    assert_eq!(Direction::Up.opposite(), Direction::Down);
    assert_eq!(Direction::Down.opposite(), Direction::Up);
    assert_eq!(Direction::Left.opposite(), Direction::Right);
    assert_eq!(Direction::Right.opposite(), Direction::Left);
}

#[test]
fn a_step_moves_one_cell() {
    assert_eq!(at(4, 4).step(Direction::Up), at(4, 3));
    assert_eq!(at(4, 4).step(Direction::Down), at(4, 5));
    assert_eq!(at(4, 4).step(Direction::Left), at(3, 4));
    assert_eq!(at(4, 4).step(Direction::Right), at(5, 4));
}
