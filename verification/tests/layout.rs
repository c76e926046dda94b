use snake_game::board::Board;
use snake_game::geometry::Position;
use snake_game::layout::{
    banner_cell, border_cells, centered_column, decimal_width, panel_cells, parking_cell,
    score_label_cell, score_value_cell, Banner,
};

fn at(x: u16, y: u16) -> Position {
    Position { x, y }
}

#[test]
fn decimal_width_counts_digits() {
    assert_eq!(decimal_width(0), 1);
    assert_eq!(decimal_width(9), 1);
    assert_eq!(decimal_width(10), 2);
    assert_eq!(decimal_width(99), 2);
    assert_eq!(decimal_width(100), 3);
    assert_eq!(decimal_width(65535), 5);
    assert_eq!(decimal_width(u64::MAX), 20);
    for n in [0u64, 7, 42, 1000, 123456789, u64::MAX] {
        assert_eq!(decimal_width(n) as usize, n.to_string().chars().count());
    }
}

#[test]
fn centered_column_halves_the_slack() {
    assert_eq!(centered_column(20, 10), 5);
    assert_eq!(centered_column(20, 19), 0);
    assert_eq!(centered_column(21, 10), 5);
    assert_eq!(centered_column(20, 20), 0);
    assert_eq!(centered_column(20, 22), 0);
    assert_eq!(centered_column(80, 22), 29);
    assert_eq!(centered_column(65535, 0), 32767);
}

#[test]
fn the_border_runs_around_the_playfield() {
    let board = Board::new(20, 10, 5).unwrap();
    let cells = border_cells(&board);
    assert_eq!(cells.len(), 2 * 21 + 2 * 11);
    assert_eq!(&cells[0..4], &[at(0, 0), at(0, 10), at(1, 0), at(1, 10)]);
    assert_eq!(&cells[40..42], &[at(20, 0), at(20, 10)]);
    assert_eq!(&cells[42..46], &[at(0, 0), at(20, 0), at(0, 1), at(20, 1)]);
    assert_eq!(&cells[62..64], &[at(0, 10), at(20, 10)]);
    for x in 0..=20u16 {
        for y in 0..=10u16 {
            let on_rim = x == 0 || x == 20 || y == 0 || y == 10;
            assert_eq!(cells.contains(&at(x, y)), on_rim);
            assert_eq!(board.contains(at(x, y)), !on_rim);
        }
    }
    for cell in &cells {
        assert!(cell.x <= 20 && cell.y <= 10);
    }
}

#[test]
fn the_panel_hangs_on_the_right_of_the_playfield() {
    let board = Board::new(20, 10, 5).unwrap();
    let cells = panel_cells(&board);
    assert_eq!(cells.len(), 2 * 6 + 11);
    assert_eq!(&cells[0..4], &[at(20, 0), at(20, 10), at(21, 0), at(21, 10)]);
    assert_eq!(&cells[10..12], &[at(25, 0), at(25, 10)]);
    assert_eq!(&cells[12..15], &[at(25, 0), at(25, 1), at(25, 2)]);
    assert_eq!(cells[22], at(25, 10));
}

#[test]
fn the_score_sits_in_the_middle_of_the_panel() {
    let board = Board::new(20, 10, 5).unwrap();
    assert_eq!(score_label_cell(&board), at(20, 4));
    assert_eq!(score_value_cell(&board, 0), at(22, 5));
    assert_eq!(score_value_cell(&board, 12), at(21, 5));
    assert_eq!(score_value_cell(&board, 123), at(21, 5));
    assert_eq!(score_value_cell(&board, 1234), at(20, 5));

    let wide = Board::new(40, 21, 12).unwrap();
    assert_eq!(score_label_cell(&wide), at(44, 9));
    assert_eq!(score_value_cell(&wide, 7), at(46, 10));
    assert_eq!(score_value_cell(&wide, u64::MAX), at(36, 10));
}

#[test]
fn banners_are_centered_over_the_playfield() {
    let board = Board::new(80, 24, 10).unwrap();
    assert_eq!(banner_cell(&board, Banner::Welcome, 0), at(29, 12));
    assert_eq!(banner_cell(&board, Banner::StartHint, 0), at(31, 13));
    assert_eq!(banner_cell(&board, Banner::GameOver, 0), at(35, 11));
    assert_eq!(banner_cell(&board, Banner::Thanks, 0), at(30, 12));
    assert_eq!(banner_cell(&board, Banner::FinalScore, 7), at(32, 13));
    assert_eq!(banner_cell(&board, Banner::FinalScore, 123), at(31, 13));
    // Only the final score depends on the score.
    assert_eq!(banner_cell(&board, Banner::GameOver, 123456), at(35, 11));
}

#[test]
fn a_banner_wider_than_the_playfield_starts_at_the_left() {
    let board = Board::new(20, 10, 5).unwrap();
    assert_eq!(banner_cell(&board, Banner::Welcome, 0), at(0, 5));
    assert_eq!(banner_cell(&board, Banner::StartHint, 0), at(1, 6));
    assert_eq!(banner_cell(&board, Banner::GameOver, 0), at(5, 4));
    assert_eq!(banner_cell(&board, Banner::Thanks, 0), at(0, 5));
    assert_eq!(banner_cell(&board, Banner::FinalScore, 7), at(2, 6));
    let narrow = Board::new(10, 10, 5).unwrap();
    assert_eq!(banner_cell(&narrow, Banner::Thanks, 0), at(0, 5));
    assert_eq!(banner_cell(&narrow, Banner::GameOver, 0), at(0, 4));
    assert_eq!(banner_cell(&narrow, Banner::FinalScore, 5), at(0, 6));
}

#[test]
fn banners_have_their_words() {
    assert_eq!(Banner::Welcome.text(), "Welcome to Snake Game!");
    assert_eq!(Banner::StartHint.text(), "Press 'P' to Play");
    assert_eq!(Banner::GameOver.text(), "Game Over!");
    assert_eq!(Banner::Thanks.text(), "Thanks for playing!");
    assert_eq!(Banner::FinalScore.text(), "Your score is ");
    for banner in [Banner::Welcome, Banner::StartHint, Banner::GameOver, Banner::Thanks] {
        assert_eq!(banner.width(0) as usize, banner.text().len());
        assert_eq!(banner.width(987654) as usize, banner.text().len());
    }
    assert_eq!(Banner::FinalScore.width(0), 15);
    assert_eq!(Banner::FinalScore.width(41), 16);
    assert_eq!(Banner::FinalScore.width(u64::MAX), 34);
}

#[test]
fn the_cursor_is_parked_below_the_board() {
    let board = Board::new(20, 10, 5).unwrap();
    assert_eq!(parking_cell(&board), at(0, 11));
    let tall = Board::new(20, 65534, 5).unwrap();
    assert_eq!(parking_cell(&tall), at(0, 65535));
}

#[test]
fn the_widest_board_is_laid_out_without_wrapping() {
    let board = Board::new(65530, 10, 5).unwrap();
    let cells = panel_cells(&board);
    assert_eq!(cells.len(), 2 * 6 + 11);
    assert_eq!(cells[0], at(65530, 0));
    assert_eq!(cells[11], at(65535, 10));
    assert_eq!(cells[22], at(65535, 10));
    assert_eq!(border_cells(&board).len(), 2 * 65531 + 2 * 11);
    assert_eq!(score_label_cell(&board), at(65530, 4));
}
