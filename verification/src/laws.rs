//! What holds of every game, whatever is drawn for the fruit.

use crate::geometry::{Direction, Point};
use crate::lemmas::{
    lemma_cells, lemma_distinct_cells_fit, lemma_filter_counts, lemma_filter_members,
    lemma_filter_no_duplicates, lemma_wrap,
};
use crate::model::{grid_fits, pixel, true_count, Event, GameState, FRUIT_SCORE};
use vstd::arithmetic::div_mod::lemma_mod_bound;
use vstd::prelude::*;

verus! {

/// A game begins in a well-formed state, with no body for the fruit to lie on.
pub proof fn lemma_initial_wf(width: int, height: int, fruit: Point)
    requires
        grid_fits(width, height),
        0 <= fruit.x < width,
        0 <= fruit.y < height,
    ensures
        GameState::initial(width, height, fruit).wf(),
        !GameState::initial(width, height, fruit).body.contains(fruit),
{
}

/// A restart leaves a well-formed state well-formed.
pub proof fn lemma_restart_wf(s: GameState)
    requires
        s.wf(),
    ensures
        s.restart().wf(),
{
}

/// A request to turn, granted or not, leaves a well-formed state well-formed
/// and changes nothing but the facing.
pub proof fn lemma_turn_wf(s: GameState, direction: Direction)
    requires
        s.wf(),
    ensures
        s.turn(direction).wf(),
        s.turn(direction) == (GameState { facing: s.turn(direction).facing, ..s }),
{
}

/// From a cell of the grid the head moves as on a torus: its next cell lies
/// on the grid, and each coordinate of it is the remainder, by the grid's
/// side, of the old coordinate moved by one.
pub proof fn lemma_next_head(s: GameState)
    requires
        grid_fits(s.width, s.height),
        s.in_grid(s.head),
    ensures
        s.in_grid(s.next_head()),
        s.next_head().x == (s.head.x + s.facing.dx()) % s.width,
        s.next_head().y == (s.head.y + s.facing.dy()) % s.height,
{
    lemma_wrap(s.head.x as int, s.width);
    lemma_wrap(s.head.y as int, s.height);
}

/// Where some cell `p` of the grid is free of the body, whatever is drawn
/// picks a cell of the grid that is free of the body.
pub proof fn lemma_fruit_for(s: GameState, draw: int, p: Point)
    requires
        grid_fits(s.width, s.height),
        s.in_grid(p),
        !s.body.contains(p),
    ensures
        s.free_cells().len() > 0,
        s.in_grid(s.fruit_for(draw)),
        !s.body.contains(s.fruit_for(draw)),
{
    let free = s.free_cells();
    lemma_cells(s);
    lemma_filter_members(s.cells(), s.off_body());
    assert(free.contains(p));
    lemma_mod_bound(draw, free.len() as int);
    assert(free.contains(s.fruit_for(draw)));
}

/// Moving on leaves a well-formed state well-formed: above all, the head
/// stays on the grid. Grid and fruit stay as they are.
pub proof fn lemma_moved_wf(s: GameState)
    requires
        s.wf(),
    ensures
        s.moved().wf(),
        s.moved().width == s.width,
        s.moved().height == s.height,
        s.moved().fruit == s.fruit,
{
    if s.running {
        let a = s.advance();
        lemma_next_head(s);
        assert forall|i: int| 0 <= i < a.body.len() implies a.in_grid(#[trigger] a.body[i]) by {}
        if !s.collides() && !s.eats() {
            let rest = a.body.drop_first();
            assert forall|i: int| 0 <= i < rest.len() implies a.in_grid(#[trigger] rest[i]) by {}
            assert(!rest.contains(a.head));
        }
    }
}

/// A step leaves a well-formed state well-formed: above all, the head stays
/// on the grid.
pub proof fn lemma_step_wf(s: GameState, draw: int)
    requires
        s.wf(),
    ensures
        s.step(draw).wf(),
{
    lemma_moved_wf(s);
    if s.running && s.eats() {
        lemma_fruit_for(s.moved(), draw, s.moved().head);
    }
}

/// Every state that a game reaches from its beginning is well-formed, so its
/// head lies on the grid.
pub proof fn lemma_reachable_wf(width: int, height: int, fruit: Point, events: Seq<Event>)
    requires
        grid_fits(width, height),
        0 <= fruit.x < width,
        0 <= fruit.y < height,
    ensures
        GameState::initial(width, height, fruit).after(events).wf(),
        0 <= GameState::initial(width, height, fruit).after(events).head.x < width,
        0 <= GameState::initial(width, height, fruit).after(events).head.y < height,
    decreases events.len(),
{
    let start = GameState::initial(width, height, fruit);
    if events.len() > 0 {
        lemma_reachable_wf(width, height, fruit, events.drop_last());
        let before = start.after(events.drop_last());
        lemma_grid_is_fixed(start, events.drop_last());
        match events.last() {
            Event::Step { draw } => lemma_step_wf(before, draw),
            Event::Turn { direction } => lemma_turn_wf(before, direction),
            Event::Restart => lemma_restart_wf(before),
        }
        lemma_grid_is_fixed(start, events);
    }
}

/// No event changes the size of the grid.
pub proof fn lemma_grid_is_fixed(s: GameState, events: Seq<Event>)
    ensures
        s.after(events).width == s.width,
        s.after(events).height == s.height,
    decreases events.len(),
{
    if events.len() > 0 {
        lemma_grid_is_fixed(s, events.drop_last());
    }
}

/// A step of a running game leaves the body as long as it was or longer by
/// one. It grows exactly when the head hits the body or takes the fruit;
/// otherwise the oldest cell goes and the head's old cell comes.
pub proof fn lemma_step_body_len(s: GameState, draw: int)
    requires
        s.running,
    ensures
        s.step(draw).body.len() == s.body.len() || s.step(draw).body.len() == s.body.len() + 1,
        s.step(draw).body.len() == s.body.len() + 1 <==> s.collides() || s.eats(),
        s.collides() || s.eats() ==> s.step(draw).body == s.body.push(s.head),
        !s.collides() && !s.eats() ==> s.step(draw).body == s.body.push(s.head).drop_first(),
{
}

/// A fruit that a step puts down lies on the grid and on no cell of the body.
pub proof fn lemma_new_fruit_off_body(s: GameState, draw: int)
    requires
        s.wf(),
        s.running,
        s.eats(),
    ensures
        s.step(draw).fruit == s.moved().fruit_for(draw),
        s.step(draw).in_grid(s.step(draw).fruit),
        !s.step(draw).body.contains(s.step(draw).fruit),
{
    lemma_moved_wf(s);
    lemma_fruit_for(s.moved(), draw, s.moved().head);
}

/// A step changes the fruit only by taking it, and the score with it. What
/// is drawn bears on nothing but the new fruit.
pub proof fn lemma_fruit_moves_when_eaten(s: GameState, draw: int)
    ensures
        s.step(draw) == (GameState { fruit: s.step(draw).fruit, ..s.moved() }),
        !(s.running && s.eats()) ==> s.step(draw).fruit == s.fruit && s.step(draw).score
            == s.score,
        s.running && s.eats() ==> s.step(draw).score == s.score + FRUIT_SCORE,
{
}

/// A game that is over does not move.
pub proof fn lemma_frozen(s: GameState, draw: int)
    requires
        !s.running,
    ensures
        s.step(draw) == s,
{
}

/// The body of a well-formed state has room on the grid, so the score can
/// still take another fruit.
pub proof fn lemma_score_bound(s: GameState)
    requires
        s.wf(),
    ensures
        s.body.len() <= s.width * s.height,
        0 <= s.score <= FRUIT_SCORE * u32::MAX,
{
    lemma_distinct_cells_fit(s, s.body);
}

/// The board has one entry for each cell, and as many of them are `true` as
/// there are different cells under head, fruit and body: two of these on one
/// cell count once.
pub proof fn lemma_board_count(s: GameState)
    requires
        s.wf(),
    ensures
        s.board().len() == s.width * s.height,
        s.occupied_cells().finite(),
        true_count(s.board()) == s.occupied_cells().len(),
{
    let cells = s.cells();
    let taken = |p: Point| s.occupied(p);
    lemma_cells(s);
    assert(s.board() =~= cells.map_values(taken));
    lemma_filter_counts(cells, taken);
    let seen = cells.filter(taken);
    lemma_filter_no_duplicates(cells, taken);
    lemma_filter_members(cells, taken);
    seen.unique_seq_to_set();
    assert(seen.to_set() =~= s.occupied_cells());
    vstd::seq_lib::seq_to_set_is_finite(seen);
}

/// The cells under head, fruit and body are one for each cell of the body,
/// one more while the head is off the body, and one more where the fruit
/// lies neither under the head nor on the body.
pub proof fn lemma_occupied_count(s: GameState)
    requires
        s.wf(),
    ensures
        s.occupied_cells().len() == s.body.len() + (if s.body.contains(s.head) {
            0int
        } else {
            1int
        }) + (if s.fruit == s.head || s.body.contains(s.fruit) {
            0int
        } else {
            1int
        }),
{
    s.body.unique_seq_to_set();
    vstd::seq_lib::seq_to_set_is_finite(s.body);
}

/// The colours are three bytes for each entry of the board, in the board's
/// order, and each three are the colour of their entry.
pub proof fn lemma_rgb_pixels(s: GameState)
    requires
        grid_fits(s.width, s.height),
    ensures
        s.rgb().len() == 3 * s.board().len(),
        forall|i: int|
            0 <= i < s.board().len() ==> #[trigger] s.rgb().subrange(3 * i, 3 * i + 3) == pixel(
                s.board()[i],
                s.running,
            ),
{
    assert(0 < s.width * s.height) by (nonlinear_arith)
        requires
            0 < s.width,
            0 < s.height,
    ;
    assert forall|i: int| 0 <= i < s.board().len() implies #[trigger] s.rgb().subrange(
        3 * i,
        3 * i + 3,
    ) == pixel(s.board()[i], s.running) by {
        let px = pixel(s.board()[i], s.running);
        let part = s.rgb().subrange(3 * i, 3 * i + 3);
        assert forall|j: int| 0 <= j < 3 implies part[j] == px[j] by {}
        assert(part =~= px);
    }
}

} // verus!
