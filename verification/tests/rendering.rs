use snake_core::{Direction, Point, Snake};

fn at(x: i32, y: i32) -> Point {
    Point { x, y }
}

const GREY: [u8; 3] = [0x60, 0x60, 0x60];
const GREEN: [u8; 3] = [0, 200, 0];
const BLACK: [u8; 3] = [0, 0, 0];

fn true_cells(board: &[bool], width: usize) -> Vec<(usize, usize)> {
    let mut cells = Vec::new();
    for (i, taken) in board.iter().enumerate() {
        if *taken {
            cells.push((i % width, i / width));
        }
    }
    cells
}

#[test]
fn board_has_one_entry_for_each_cell() {
    let snake = Snake::with_fruit(7, 3, at(6, 2));
    assert_eq!(snake.get_board().len(), 21);
    let snake = Snake::new(1, 1);
    assert_eq!(snake.get_board(), vec![true]);
    let snake = Snake::new(12, 5);
    assert_eq!(snake.get_board().len(), 60);
}

#[test]
fn board_is_row_major() {
    let snake = Snake::with_fruit(4, 3, at(2, 1));
    let board = snake.get_board();
    let mut expected = vec![false; 12];
    expected[0] = true; // head at (0, 0)
    expected[6] = true; // fruit at (2, 1): 1 * 4 + 2
    assert_eq!(board, expected);
}

#[test]
fn board_counts_shared_cells_once() {
    // fruit under the head
    let snake = Snake::with_fruit(4, 3, at(0, 0));
    let board = snake.get_board();
    assert_eq!(true_cells(&board, 4), vec![(0, 0)]);

    // head on the body after a collision
    let mut snake = Snake::with_fruit(1, 2, at(0, 1));
    snake.step_with(0);
    assert!(!snake.is_running());
    assert_eq!(snake.head(), at(0, 0));
    assert_eq!(snake.body().to_vec(), vec![at(0, 0)]);
    assert_eq!(snake.get_board(), vec![true, true]);

    let mut snake = Snake::with_fruit(2, 2, at(1, 1));
    snake.step_with(0);
    snake.change_direction(Direction::Down);
    assert_eq!(true_cells(&snake.get_board(), 2), vec![(1, 0), (1, 1)]);
}

#[test]
fn board_shows_head_fruit_and_body() {
    let mut snake = Snake::with_fruit(10, 10, at(1, 0));
    snake.step_with(1);
    snake.step_with(1);
    snake.step_with(95);
    // body (0,0) (1,0) (2,0), head (3,0), fruit: draw 95 of 97 free cells
    assert_eq!(snake.body().to_vec(), vec![at(0, 0), at(1, 0), at(2, 0)]);
    assert_eq!(snake.head(), at(3, 0));
    assert_eq!(snake.fruit(), at(8, 9));
    let board = snake.get_board();
    assert_eq!(board.len(), 100);
    assert_eq!(
        true_cells(&board, 10),
        vec![(0, 0), (1, 0), (2, 0), (3, 0), (8, 9)]
    );
    assert_eq!(board.iter().filter(|taken| **taken).count(), 5);
}

#[test]
fn rgb_has_three_bytes_for_each_cell() {
    let snake = Snake::with_fruit(4, 3, at(2, 1));
    let board = snake.get_board();
    let rgb = snake.get_rgb();
    assert_eq!(rgb.len(), 3 * board.len());
    assert_eq!(rgb.len(), 36);
    for (i, taken) in board.iter().enumerate() {
        let expected = if *taken { GREEN } else { GREY };
        assert_eq!(rgb[3 * i..3 * i + 3], expected);
    }
}

#[test]
fn rgb_of_a_running_game_is_green_on_grey() {
    let snake = Snake::with_fruit(2, 2, at(1, 1));
    assert_eq!(
        snake.get_rgb(),
        vec![0, 200, 0, 0x60, 0x60, 0x60, 0x60, 0x60, 0x60, 0, 200, 0]
    );
}

#[test]
fn rgb_of_a_finished_game_is_black_on_grey() {
    let mut snake = Snake::with_fruit(1, 3, at(0, 2));
    snake.step_with(0);
    assert!(!snake.is_running());
    assert_eq!(snake.get_board(), vec![true, false, true]);
    let rgb = snake.get_rgb();
    assert_eq!(rgb[0..3], BLACK);
    assert_eq!(rgb[3..6], GREY);
    assert_eq!(rgb[6..9], BLACK);
    assert_eq!(rgb.len(), 9);

    snake.restart();
    let rgb = snake.get_rgb();
    assert_eq!(rgb[0..3], GREEN);
    assert_eq!(rgb[3..6], GREY);
    assert_eq!(rgb[6..9], GREEN);
}

#[test]
fn queries_do_not_change_the_game() {
    let mut snake = Snake::with_fruit(6, 4, at(1, 0));
    snake.step_with(3);
    let head = snake.head();
    let fruit = snake.fruit();
    let body = snake.body().to_vec();
    let first = snake.get_board();
    let _ = snake.get_rgb();
    let _ = snake.get_score();
    let _ = snake.is_running();
    assert_eq!(snake.get_board(), first);
    assert_eq!(snake.head(), head);
    assert_eq!(snake.fruit(), fruit);
    assert_eq!(snake.body().to_vec(), body);
}
