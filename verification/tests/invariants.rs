use snake_core::{Direction, Point, Snake};

fn at(x: i32, y: i32) -> Point {
    Point { x, y }
}

fn direction(n: u32) -> Direction {
    match n % 4 {
        0 => Direction::Up,
        1 => Direction::Down,
        2 => Direction::Left,
        _ => Direction::Right,
    }
}

/// A small generator of its own, so that a failing run can be repeated.
fn next(seed: &mut u64) -> u32 {
    *seed = seed
        .wrapping_mul(6364136223846793005)
        .wrapping_add(1442695040888963407);
    (*seed >> 33) as u32
}

fn distinct(cells: &[Point]) -> bool {
    for i in 0..cells.len() {
        for j in 0..i {
            if cells[i] == cells[j] {
                return false;
            }
        }
    }
    true
}

fn check_state(snake: &Snake) {
    let width = snake.width() as i32;
    let height = snake.height() as i32;
    let head = snake.head();
    let fruit = snake.fruit();
    assert!(0 <= head.x && head.x < width);
    assert!(0 <= head.y && head.y < height);
    assert!(0 <= fruit.x && fruit.x < width);
    assert!(0 <= fruit.y && fruit.y < height);
    for cell in snake.body() {
        assert!(0 <= cell.x && cell.x < width);
        assert!(0 <= cell.y && cell.y < height);
    }
    assert!(distinct(snake.body()));
    assert_eq!(snake.is_running(), !snake.body().contains(&head));
    let eaten = snake.body().len() as u64 - if snake.is_running() { 0 } else { 1 };
    assert_eq!(snake.get_score(), 10 * eaten);

    let board = snake.get_board();
    assert_eq!(board.len(), (width * height) as usize);
    let mut taken: Vec<Point> = snake.body().to_vec();
    taken.push(head);
    taken.push(fruit);
    let mut seen: Vec<Point> = Vec::new();
    for cell in taken {
        if !seen.contains(&cell) {
            seen.push(cell);
        }
    }
    assert_eq!(board.iter().filter(|b| **b).count(), seen.len());
    for y in 0..height {
        for x in 0..width {
            assert_eq!(board[(y * width + x) as usize], seen.contains(&at(x, y)));
        }
    }

    let rgb = snake.get_rgb();
    assert_eq!(rgb.len(), 3 * board.len());
    for (i, cell) in board.iter().enumerate() {
        let expected: [u8; 3] = if !*cell {
            [0x60, 0x60, 0x60]
        } else if snake.is_running() {
            [0, 200, 0]
        } else {
            [0, 0, 0]
        };
        assert_eq!(rgb[3 * i..3 * i + 3], expected);
    }
}

fn play(width: u32, height: u32, mut seed: u64, ticks: u32, random_fruit: bool) {
    let mut snake = Snake::new(width, height);
    check_state(&snake);
    for _ in 0..ticks {
        if next(&mut seed) % 3 == 0 {
            let before = snake.facing();
            let wanted = direction(next(&mut seed));
            let score = snake.get_score();
            snake.change_direction(wanted);
            let opposite = matches!(
                (before, wanted),
                (Direction::Left, Direction::Right)
                    | (Direction::Right, Direction::Left)
                    | (Direction::Up, Direction::Down)
                    | (Direction::Down, Direction::Up)
            );
            if score != 0 && opposite {
                assert_eq!(snake.facing(), before);
            } else {
                assert_eq!(snake.facing(), wanted);
            }
        }
        let was_running = snake.is_running();
        let head = snake.head();
        let fruit = snake.fruit();
        let body = snake.body().to_vec();
        let score = snake.get_score();
        if random_fruit {
            snake.step();
        } else {
            snake.step_with(next(&mut seed));
        }
        if was_running {
            let len = snake.body().len();
            assert!(len == body.len() || len == body.len() + 1);
            let mut pushed = body.clone();
            pushed.push(head);
            if len == body.len() + 1 {
                assert_eq!(snake.body().to_vec(), pushed);
                if snake.is_running() {
                    // a fruit was taken, and the new one is off the body
                    assert_eq!(snake.head(), fruit);
                    assert_eq!(snake.get_score(), score + 10);
                    assert!(!snake.body().contains(&snake.fruit()));
                } else {
                    assert_eq!(snake.get_score(), score);
                    assert_eq!(snake.fruit(), fruit);
                }
            } else {
                assert_eq!(snake.body().to_vec(), pushed[1..].to_vec());
                assert_eq!(snake.get_score(), score);
                assert_eq!(snake.fruit(), fruit);
                assert!(snake.is_running());
            }
        } else {
            assert!(!snake.is_running());
            assert_eq!(snake.head(), head);
            assert_eq!(snake.fruit(), fruit);
            assert_eq!(snake.body().to_vec(), body);
            assert_eq!(snake.get_score(), score);
            if next(&mut seed) % 2 == 0 {
                snake.restart();
                assert!(snake.is_running());
                assert_eq!(snake.get_score(), 0);
                assert!(snake.body().is_empty());
                assert_eq!(snake.head(), head);
                assert_eq!(snake.fruit(), fruit);
            }
        }
        check_state(&snake);
    }
}

#[test]
fn invariants_hold_along_games_with_given_draws() {
    play(5, 4, 1, 400, false);
    play(3, 3, 2, 400, false);
    play(2, 2, 3, 200, false);
    play(1, 6, 4, 100, false);
    play(6, 1, 5, 100, false);
    play(8, 8, 6, 600, false);
}

#[test]
fn invariants_hold_along_games_with_random_draws() {
    play(5, 4, 11, 400, true);
    play(3, 3, 12, 400, true);
    play(2, 1, 13, 100, true);
    play(7, 5, 14, 600, true);
}

#[test]
fn snake_can_fill_the_grid_but_for_the_head() {
    // along the one row of a 4 by 1 grid with a fruit always straight ahead
    let mut snake = Snake::with_fruit(4, 1, at(1, 0));
    snake.step_with(1);
    assert_eq!(snake.fruit(), at(2, 0));
    snake.step_with(1);
    assert_eq!(snake.fruit(), at(3, 0));
    snake.step_with(0);
    assert_eq!(snake.head(), at(3, 0));
    assert_eq!(snake.body().to_vec(), vec![at(0, 0), at(1, 0), at(2, 0)]);
    assert_eq!(snake.get_score(), 30);
    // the one cell off the body is under the head
    assert_eq!(snake.fruit(), at(3, 0));
    assert!(snake.is_running());
    snake.step_with(9);
    assert!(!snake.is_running());
    assert_eq!(snake.head(), at(0, 0));
    assert_eq!(
        snake.body().to_vec(),
        vec![at(0, 0), at(1, 0), at(2, 0), at(3, 0)]
    );
    assert_eq!(snake.get_score(), 30);
    check_state(&snake);
}
