//! The executable game.

use crate::geometry::{Direction, Point};
use crate::laws::{
    lemma_board_count, lemma_fruit_for, lemma_initial_wf, lemma_moved_wf,
    lemma_new_fruit_off_body, lemma_restart_wf, lemma_rgb_pixels,
    lemma_score_bound, lemma_turn_wf,
};
use crate::lemmas::{lemma_cell_number, lemma_cells};
use crate::model::{grid_fits, pixel, true_count, GameState, FRUIT_SCORE};
use crate::rng::random_u32;
use vstd::prelude::*;

verus! {

/// A game of Snake: the grid, the snake on it, the fruit, and the score.
///
/// Its view is the [`GameState`] that the fields stand for. Every game that
/// the constructors make is well-formed, and every operation keeps it so.
pub struct Snake {
    facing: Direction,
    head: Point,
    tail: Vec<Point>,
    fruit: Point,
    width: u32,
    height: u32,
    score: u64,
    running: bool,
}

impl View for Snake {
    type V = GameState;

    closed spec fn view(&self) -> GameState {
        GameState {
            facing: self.facing,
            head: self.head,
            body: self.tail@,
            fruit: self.fruit,
            width: self.width as int,
            height: self.height as int,
            score: self.score as int,
            running: self.running,
        }
    }
}

impl Snake {
    /// A new game with the fruit on a cell drawn at random.
    pub fn new(width: u32, height: u32) -> (snake: Snake)
        requires
            grid_fits(width as int, height as int),
        ensures
            snake@ == GameState::initial(width as int, height as int, snake@.fruit),
            snake@.wf(),
    {
        Snake::with_fruit(width, height, Point::random(width, height))
    }

    /// A new game like that of `new`, or nothing where the grid does not fit.
    pub fn try_new(width: u32, height: u32) -> (made: Option<Snake>)
        ensures
            made.is_some() == grid_fits(width as int, height as int),
            made matches Some(snake) ==> snake@ == GameState::initial(
                width as int,
                height as int,
                snake@.fruit,
            ) && snake@.wf(),
    {
        if width == 0 || width > i32::MAX as u32 || height == 0 || height > i32::MAX as u32 {
            return None;
        }
        assert(width * height <= 0x7fff_ffff * 0x7fff_ffff) by (nonlinear_arith)
            requires
                width <= 0x7fff_ffff,
                height <= 0x7fff_ffff,
        ;
        if width as u64 * height as u64 <= u32::MAX as u64 {
            Some(Snake::new(width, height))
        } else {
            None
        }
    }

    /// A new game with the fruit on a given cell of the grid.
    pub fn with_fruit(width: u32, height: u32, fruit: Point) -> (snake: Snake)
        requires
            grid_fits(width as int, height as int),
            0 <= fruit.x < width,
            0 <= fruit.y < height,
        ensures
            snake@ == GameState::initial(width as int, height as int, fruit),
            snake@.wf(),
    {
        proof {
            lemma_initial_wf(width as int, height as int, fruit);
        }
        Snake {
            facing: Direction::Right,
            head: Point { x: 0, y: 0 },
            tail: Vec::new(),
            fruit,
            width,
            height,
            score: 0,
            running: true,
        }
    }

    /// Starts over on the same grid: no score, no body, running again. Head,
    /// fruit and facing stay where they are.
    pub fn restart(&mut self)
        ensures
            final(self)@ == old(self)@.restart(),
            old(self)@.wf() ==> final(self)@.wf(),
    {
        proof {
            if self@.wf() {
                lemma_restart_wf(self@);
            }
        }
        self.score = 0;
        self.running = true;
        self.tail = Vec::new();
    }

    /// Asks the snake to face `direction`. Once something has been scored,
    /// a request for the direction opposite to the facing is passed over.
    pub fn change_direction(&mut self, direction: Direction)
        ensures
            final(self)@ == old(self)@.turn(direction),
            old(self)@.wf() ==> final(self)@.wf(),
    {
        proof {
            if self@.wf() {
                lemma_turn_wf(self@, direction);
            }
        }
        let horiz = Direction::is_horiz(&direction) && Direction::is_horiz(&self.facing);
        let vert = Direction::is_vert(&direction) && Direction::is_vert(&self.facing);

        if self.score == 0 || !horiz && !vert {
            self.facing = direction;
        }
    }

    /// Moves the game on by one tick. Where the snake takes the fruit, the
    /// number for the new one is drawn at random.
    pub fn step(&mut self)
        requires
            old(self)@.wf(),
        ensures
            exists|draw: u32| final(self)@ == #[trigger] old(self)@.step(draw as int),
            final(self)@.wf(),
            final(self)@ == (GameState { fruit: final(self)@.fruit, ..old(self)@.moved() }),
            old(self)@.running ==> final(self)@.body.len() == old(self)@.body.len()
                || final(self)@.body.len() == old(self)@.body.len() + 1,
            old(self)@.running && old(self)@.eats() ==> !final(self)@.body.contains(
                final(self)@.fruit,
            ),
            !(old(self)@.running && old(self)@.eats()) ==> final(self)@.fruit == old(self)@.fruit,
    {
        if self.move_on() {
            let draw = random_u32();
            self.place_fruit(draw);
            proof {
                lemma_new_fruit_off_body(old(self)@, draw as int);
            }
        } else {
            assert(self@ == old(self)@.step(0u32 as int));
        }
    }

    /// Moves the game on by one tick, with `draw` as the number drawn for
    /// the new fruit where the snake takes the fruit.
    pub fn step_with(&mut self, draw: u32)
        requires
            old(self)@.wf(),
        ensures
            final(self)@ == old(self)@.step(draw as int),
            final(self)@.wf(),
            old(self)@.running ==> final(self)@.body.len() == old(self)@.body.len()
                || final(self)@.body.len() == old(self)@.body.len() + 1,
            old(self)@.running && old(self)@.eats() ==> !final(self)@.body.contains(
                final(self)@.fruit,
            ),
            !(old(self)@.running && old(self)@.eats()) ==> final(self)@.fruit == old(self)@.fruit,
    {
        if self.move_on() {
            self.place_fruit(draw);
            proof {
                lemma_new_fruit_off_body(old(self)@, draw as int);
            }
        }
    }

    /// Moves the snake and settles what it ran into, but leaves the fruit
    /// where it is. Returns whether the snake took the fruit.
    fn move_on(&mut self) -> (ate: bool)
        requires
            old(self)@.wf(),
        ensures
            final(self)@ == old(self)@.moved(),
            final(self)@.wf(),
            ate == (old(self)@.running && old(self)@.eats()),
    {
        proof {
            lemma_moved_wf(self@);
        }
        if !self.running {
            return false;
        }
        proof {
            lemma_score_bound(self@);
        }
        // the cell that the head leaves joins the body
        self.tail.push(self.head.clone());

        // move head
        match self.facing {
            Direction::Right => {
                self.head.x = self.head.x + 1;
            },
            Direction::Down => {
                self.head.y = self.head.y + 1;
            },
            Direction::Up => {
                self.head.y = self.head.y - 1;
            },
            Direction::Left => {
                self.head.x = self.head.x - 1;
            },
        };

        // wrap
        if self.head.x >= self.width as i32 {
            self.head.x = 0;
        } else if self.head.x < 0 {
            self.head.x = self.width as i32 - 1;
        } else if self.head.y >= self.height as i32 {
            self.head.y = 0;
        } else if self.head.y < 0 {
            self.head.y = self.height as i32 - 1;
        }
        assert(self@ == old(self)@.advance());

        if contains(&self.tail, &self.head) {
            // the head ran into the body
            self.running = false;
            false
        } else if self.head == self.fruit {
            // the body keeps the cell it was given, and so grows by one
            self.score = self.score + FRUIT_SCORE;
            true
        } else {
            // the oldest cell of the body goes
            self.tail.remove(0);
            assert(self@.body =~= old(self)@.advance().body.drop_first());
            false
        }
    }

    /// Puts the fruit on the free cell that `draw` picks.
    fn place_fruit(&mut self, draw: u32)
        requires
            old(self)@.wf(),
            old(self)@.running,
        ensures
            final(self)@ == (GameState { fruit: old(self)@.fruit_for(draw as int), ..old(self)@ }),
            final(self)@.wf(),
    {
        proof {
            lemma_fruit_for(self@, draw as int, self@.head);
        }
        let free = self.free_cells();
        self.fruit = free[draw as usize % free.len()];
    }

    /// Every cell that no part of the body lies on, row by row from the top.
    fn free_cells(&self) -> (free: Vec<Point>)
        requires
            grid_fits(self@.width, self@.height),
        ensures
            free@ == self@.free_cells(),
    {
        let ghost cells = self@.cells();
        let ghost keep = self@.off_body();
        let mut free: Vec<Point> = Vec::new();
        proof {
            lemma_cells(self@);
            reveal(Seq::filter);
        }
        let mut y: i32 = 0;
        while y < self.height as i32
            invariant
                grid_fits(self@.width, self@.height),
                cells == self@.cells(),
                keep == self@.off_body(),
                cells.len() == self@.width * self@.height,
                0 <= y <= self@.height,
                free@ == cells.take(y * self@.width).filter(keep),
            decreases self@.height - y,
        {
            let mut x: i32 = 0;
            while x < self.width as i32
                invariant
                    grid_fits(self@.width, self@.height),
                    cells == self@.cells(),
                    keep == self@.off_body(),
                    cells.len() == self@.width * self@.height,
                    0 <= y < self@.height,
                    0 <= x <= self@.width,
                    free@ == cells.take(y * self@.width + x).filter(keep),
                decreases self@.width - x,
            {
                let cell = Point { x, y };
                proof {
                    lemma_cell_number(self@, cell);
                    let k = y * self@.width + x;
                    cells.lemma_take_succ_push(k);
                    cells.take(k).lemma_filter_push(cell, keep);
                }
                if !contains(&self.tail, &cell) {
                    free.push(cell);
                }
                x = x + 1;
            }
            y = y + 1;
            proof {
                assert(y * self@.width == (y - 1) * self@.width + self@.width)
                    by (nonlinear_arith);
            }
        }
        proof {
            assert(y * self@.width == self@.width * self@.height) by (nonlinear_arith)
                requires
                    y == self@.height,
            ;
            assert(cells.take(cells.len() as int) =~= cells);
        }
        free
    }

    /// How many cells the grid has.
    fn cell_qty(&self) -> (cells: usize)
        requires
            grid_fits(self@.width, self@.height),
        ensures
            cells == self@.width * self@.height,
    {
        (self.width * self.height) as usize
    }

    /// The score: ten for each fruit taken since the game began or began anew.
    pub fn get_score(&self) -> (score: u64)
        ensures
            score == self@.score,
    {
        self.score
    }

    /// Whether the game still runs: it is over once the head ran into the body.
    pub fn is_running(&self) -> (running: bool)
        ensures
            running == self@.running,
    {
        self.running
    }

    /// The board, row by row from the top: for each cell, whether head, fruit
    /// or body lies on it.
    pub fn get_board(&self) -> (board: Vec<bool>)
        requires
            self@.wf(),
        ensures
            board@ == self@.board(),
            board@.len() == self@.width * self@.height,
            true_count(board@) == self@.occupied_cells().len(),
    {
        let ghost full = self@.board();
        proof {
            lemma_board_count(self@);
        }
        let mut board: Vec<bool> = Vec::with_capacity(self.cell_qty());
        let mut y: i32 = 0;
        while y < self.height as i32
            invariant
                self@.wf(),
                full == self@.board(),
                0 <= y <= self@.height,
                board@ == full.take(y * self@.width),
            decreases self@.height - y,
        {
            let mut x: i32 = 0;
            while x < self.width as i32
                invariant
                    self@.wf(),
                    full == self@.board(),
                    0 <= y < self@.height,
                    0 <= x <= self@.width,
                    board@ == full.take(y * self@.width + x),
                decreases self@.width - x,
            {
                let cell = Point { x, y };
                let head_col = self.head.x == x && self.head.y == y;
                let fruit_col = self.fruit.x == x && self.fruit.y == y;
                let tail_col = contains(&self.tail, &cell);
                proof {
                    lemma_cell_number(self@, cell);
                    full.lemma_take_succ_push(y * self@.width + x);
                }
                board.push(head_col || fruit_col || tail_col);
                x = x + 1;
            }
            y = y + 1;
            proof {
                assert(y * self@.width == (y - 1) * self@.width + self@.width)
                    by (nonlinear_arith);
            }
        }
        proof {
            assert(y * self@.width == self@.width * self@.height) by (nonlinear_arith)
                requires
                    y == self@.height,
            ;
            assert(full.take(full.len() as int) =~= full);
        }
        board
    }

    /// The board as a picture: three bytes of red, green and blue for each
    /// cell, row by row from the top.
    pub fn get_rgb(&self) -> (rgb: Vec<u8>)
        requires
            self@.wf(),
        ensures
            rgb@ == self@.rgb(),
            rgb@.len() == 3 * self@.board().len(),
            forall|i: int|
                0 <= i < self@.board().len() ==> #[trigger] rgb@.subrange(3 * i, 3 * i + 3)
                    == pixel(self@.board()[i], self@.running),
    {
        let ghost full = self@.rgb();
        proof {
            lemma_rgb_pixels(self@);
        }
        let board = self.get_board();
        let mut rgb: Vec<u8> = Vec::new();
        let mut i: usize = 0;
        while i < board.len()
            invariant
                board@ == self@.board(),
                board@.len() == self@.width * self@.height,
                full == self@.rgb(),
                0 <= i <= board@.len(),
                rgb@ == full.take(3 * i),
            decreases board@.len() - i,
        {
            let cell = board[i];
            proof {
                let px = pixel(cell, self@.running);
                assert(full.take(3 * (i + 1)) =~= full.take(3 * i).push(px[0]).push(px[1]).push(
                    px[2],
                ));
            }
            if cell && self.running {
                rgb.push(0);
                rgb.push(200);
                rgb.push(0);
            } else if cell && !self.running {
                rgb.push(0);
                rgb.push(0);
                rgb.push(0);
            } else {
                rgb.push(0x60);
                rgb.push(0x60);
                rgb.push(0x60);
            }
            i = i + 1;
        }
        proof {
            assert(full.take(full.len() as int) =~= full);
        }
        rgb
    }

    /// The cell that the head is on.
    pub fn head(&self) -> (head: Point)
        ensures
            head == self@.head,
    {
        self.head
    }

    /// The cell that the fruit is on.
    pub fn fruit(&self) -> (fruit: Point)
        ensures
            fruit == self@.fruit,
    {
        self.fruit
    }

    /// The direction that the snake faces.
    pub fn facing(&self) -> (facing: Direction)
        ensures
            facing == self@.facing,
    {
        self.facing
    }

    /// The cells behind the head, the oldest first.
    pub fn body(&self) -> (body: &[Point])
        ensures
            body@ == self@.body,
    {
        self.tail.as_slice()
    }

    /// The number of columns of the grid.
    pub fn width(&self) -> (width: u32)
        ensures
            width == self@.width,
    {
        self.width
    }

    /// The number of rows of the grid.
    pub fn height(&self) -> (height: u32)
        ensures
            height == self@.height,
    {
        self.height
    }
}

/// Whether `cell` is among `cells`.
fn contains(cells: &Vec<Point>, cell: &Point) -> (found: bool)
    ensures
        found == cells@.contains(*cell),
{
    for i in 0..cells.len()
        invariant
            forall|j: int| 0 <= j < i ==> cells@[j] != *cell,
    {
        if cells[i] == *cell {
            return true;
        }
    }
    false
}

} // verus!
