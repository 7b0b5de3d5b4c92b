//! The game as mathematics: a state, and each operation as a function on it.

use crate::geometry::{Direction, Point};
use vstd::prelude::*;

verus! {

/// What one fruit adds to the score.
pub const FRUIT_SCORE: u64 = 10;

/// The whole of a game at one tick.
///
/// `body` holds the cells behind the head, the oldest first.
pub struct GameState {
    pub facing: Direction,
    pub head: Point,
    pub body: Seq<Point>,
    pub fruit: Point,
    pub width: int,
    pub height: int,
    pub score: int,
    pub running: bool,
}

/// One thing that can happen to a game.
pub enum Event {
    /// A tick, with the number drawn for a new fruit.
    Step { draw: int },
    /// A request to face a direction.
    Turn { direction: Direction },
    /// A restart.
    Restart,
}

/// The grids a game can be played on: both sides positive, every coordinate
/// an `i32`, and the number of cells a `u32`.
pub open spec fn grid_fits(width: int, height: int) -> bool {
    &&& 0 < width <= i32::MAX
    &&& 0 < height <= i32::MAX
    &&& width * height <= u32::MAX
}

/// The colour of one cell, as red, green and blue: grey where nothing is,
/// green where something is while the game runs, black once it is over.
pub open spec fn pixel(occupied: bool, running: bool) -> Seq<u8> {
    if !occupied {
        seq![0x60u8, 0x60u8, 0x60u8]
    } else if running {
        seq![0u8, 200u8, 0u8]
    } else {
        seq![0u8, 0u8, 0u8]
    }
}

/// Where a coordinate `v` comes to lie in `0..n`: one that has gone past the
/// last place comes back to the first, and one that has gone below the
/// first comes back to the last.
pub open spec fn wrap(v: int, n: int) -> int {
    if v >= n {
        0
    } else if v < 0 {
        n - 1
    } else {
        v
    }
}

/// Cell number `i` of a grid `width` cells wide, counting along the top row
/// first.
pub open spec fn cell_at(width: int, i: int) -> Point {
    Point { x: (i % width) as i32, y: (i / width) as i32 }
}

/// Every cell of a grid, row by row from the top.
pub open spec fn grid_cells(width: int, height: int) -> Seq<Point> {
    Seq::new((width * height) as nat, |i: int| cell_at(width, i))
}

/// The test for a cell that no part of `body` lies on.
pub open spec fn off(body: Seq<Point>) -> spec_fn(Point) -> bool {
    |p: Point| !body.contains(p)
}

/// How many entries of a board are `true`.
pub open spec fn true_count(board: Seq<bool>) -> nat {
    board.filter(|b: bool| b).len()
}

impl GameState {
    /// Whether `p` lies on the grid.
    pub open spec fn in_grid(self, p: Point) -> bool {
        0 <= p.x < self.width && 0 <= p.y < self.height
    }

    /// What holds of every state that a game can reach.
    ///
    /// Head, fruit and body lie on the grid, and no cell occurs twice in the
    /// body. The game runs exactly as long as the head is off the body. Each
    /// body cell but the one that ended the game stands for one fruit eaten.
    pub open spec fn wf(self) -> bool {
        &&& grid_fits(self.width, self.height)
        &&& self.in_grid(self.head)
        &&& self.in_grid(self.fruit)
        &&& forall|i: int| 0 <= i < self.body.len() ==> self.in_grid(#[trigger] self.body[i])
        &&& self.body.no_duplicates()
        &&& self.running <==> !self.body.contains(self.head)
        &&& self.score == FRUIT_SCORE * (self.body.len() - if self.running { 0int } else { 1int })
    }

    /// The state in which a game begins: the head alone at the origin, facing
    /// right, with the fruit where it was put.
    pub open spec fn initial(width: int, height: int, fruit: Point) -> GameState {
        GameState {
            facing: Direction::Right,
            head: Point { x: 0, y: 0 },
            body: Seq::empty(),
            fruit,
            width,
            height,
            score: 0,
            running: true,
        }
    }

    /// A new game on the same grid. Head, fruit and facing stay as they are.
    pub open spec fn restart(self) -> GameState {
        GameState { score: 0, running: true, body: Seq::empty(), ..self }
    }

    /// Whether a request to face `direction` is refused: only once something
    /// has been scored, and only for the direction opposite to the facing.
    pub open spec fn refuses(self, direction: Direction) -> bool {
        self.score != 0 && direction != self.facing && self.facing.same_axis(direction)
    }

    /// The state after a request to face `direction`.
    pub open spec fn turn(self, direction: Direction) -> GameState {
        if self.refuses(direction) {
            self
        } else {
            GameState { facing: direction, ..self }
        }
    }

    /// The cell that the head enters next: one cell on in the facing
    /// direction, and round to the opposite edge where it leaves the grid.
    pub open spec fn next_head(self) -> Point {
        Point {
            x: wrap(self.head.x + self.facing.dx(), self.width) as i32,
            y: wrap(self.head.y + self.facing.dy(), self.height) as i32,
        }
    }

    /// The state once the head has moved on and left its old cell to the body.
    pub open spec fn advance(self) -> GameState {
        GameState { head: self.next_head(), body: self.body.push(self.head), ..self }
    }

    /// Whether the next step runs the head into the body.
    pub open spec fn collides(self) -> bool {
        self.advance().body.contains(self.next_head())
    }

    /// Whether the next step takes the fruit.
    pub open spec fn eats(self) -> bool {
        !self.collides() && self.next_head() == self.fruit
    }

    /// Cell number `i`, counting along the top row first.
    pub open spec fn cell(self, i: int) -> Point {
        cell_at(self.width, i)
    }

    /// Every cell of the grid, row by row from the top.
    pub open spec fn cells(self) -> Seq<Point> {
        grid_cells(self.width, self.height)
    }

    /// The test that `free_cells` keeps a cell by.
    pub open spec fn off_body(self) -> spec_fn(Point) -> bool {
        off(self.body)
    }

    /// The cells that no part of the body lies on, in the order of `cells`.
    pub open spec fn free_cells(self) -> Seq<Point> {
        self.cells().filter(self.off_body())
    }

    /// Where a new fruit goes for a given draw: the draw counts through the
    /// free cells, and starts over at the first when it runs past the last.
    pub open spec fn fruit_for(self, draw: int) -> Point {
        self.free_cells()[draw % (self.free_cells().len() as int)]
    }

    /// The state one tick later with the fruit left where it was. A game
    /// that is over stays as it is. Else the head moves on; that ends the
    /// game where it runs into the body, scores where it takes the fruit,
    /// and otherwise lets the oldest cell of the body go.
    pub open spec fn moved(self) -> GameState {
        if !self.running {
            self
        } else if self.collides() {
            GameState { running: false, ..self.advance() }
        } else if self.eats() {
            GameState { score: self.score + FRUIT_SCORE, ..self.advance() }
        } else {
            GameState { body: self.advance().body.drop_first(), ..self.advance() }
        }
    }

    /// The state one tick later, where `draw` is the number drawn for a new
    /// fruit: the snake moves, and a fruit that it took is put down anew.
    pub open spec fn step(self, draw: int) -> GameState {
        if self.running && self.eats() {
            GameState { fruit: self.moved().fruit_for(draw), ..self.moved() }
        } else {
            self.moved()
        }
    }

    /// The state after one event.
    pub open spec fn apply(self, event: Event) -> GameState {
        match event {
            Event::Step { draw } => self.step(draw),
            Event::Turn { direction } => self.turn(direction),
            Event::Restart => self.restart(),
        }
    }

    /// The state after a run of events, the first of them first.
    pub open spec fn after(self, events: Seq<Event>) -> GameState
        decreases events.len(),
    {
        if events.len() == 0 {
            self
        } else {
            self.after(events.drop_last()).apply(events.last())
        }
    }

    /// Whether head, fruit or body lies on `p`.
    pub open spec fn occupied(self, p: Point) -> bool {
        p == self.head || p == self.fruit || self.body.contains(p)
    }

    /// The set of cells that head, fruit and body lie on.
    pub open spec fn occupied_cells(self) -> Set<Point> {
        self.body.to_set().insert(self.head).insert(self.fruit)
    }

    /// For each cell, in the order of `cells`, whether anything lies on it.
    pub open spec fn board(self) -> Seq<bool> {
        Seq::new((self.width * self.height) as nat, |i: int| self.occupied(self.cell(i)))
    }

    /// The board as colours: the three bytes of `pixel` for each cell.
    pub open spec fn rgb(self) -> Seq<u8> {
        Seq::new(
            (3 * (self.width * self.height)) as nat,
            |k: int| pixel(self.board()[k / 3], self.running)[k % 3],
        )
    }
}

} // verus!
