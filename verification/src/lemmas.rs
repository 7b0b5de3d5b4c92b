//! Facts about cell numbering and about filtered sequences that the proofs
//! of the game's laws rest on.

use crate::geometry::Point;
use crate::model::{grid_fits, GameState};
use vstd::arithmetic::div_mod::{
    lemma_fundamental_div_mod, lemma_fundamental_div_mod_converse, lemma_mod_add_multiples_vanish,
    lemma_mod_bound, lemma_mod_self_0, lemma_small_mod,
};
use vstd::prelude::*;

verus! {

/// Within `0..n`, a step of one up or down and a remainder by `n` wrap round
/// the ends.
pub proof fn lemma_wrap(v: int, n: int)
    requires
        0 <= v < n,
    ensures
        v % n == v,
        (v + 1) % n == if v + 1 == n { 0 } else { v + 1 },
        (v - 1) % n == if v == 0 { n - 1 } else { v - 1 },
{
    lemma_small_mod(v as nat, n as nat);
    if v + 1 == n {
        lemma_mod_self_0(n);
    } else {
        lemma_small_mod((v + 1) as nat, n as nat);
    }
    if v == 0 {
        lemma_mod_add_multiples_vanish(-1, n);
        lemma_small_mod((n - 1) as nat, n as nat);
    } else {
        lemma_small_mod((v - 1) as nat, n as nat);
    }
}

/// A cell number below `width * height` names a cell on the grid.
pub proof fn lemma_cell_in_grid(s: GameState, i: int)
    requires
        grid_fits(s.width, s.height),
        0 <= i < s.width * s.height,
    ensures
        s.in_grid(s.cell(i)),
        s.cell(i).x == i % s.width,
        s.cell(i).y == i / s.width,
{
    let w = s.width;
    let h = s.height;
    lemma_mod_bound(i, w);
    lemma_fundamental_div_mod(i, w);
    let q = i / w;
    let r = i % w;
    assert(0 <= q < h) by (nonlinear_arith)
        requires
            i == w * q + r,
            0 <= r < w,
            0 <= i < w * h,
            0 < w,
    ;
}

/// A cell on the grid has the number `y * width + x`.
pub proof fn lemma_cell_number(s: GameState, p: Point)
    requires
        grid_fits(s.width, s.height),
        s.in_grid(p),
    ensures
        0 <= p.y * s.width + p.x < s.width * s.height,
        s.cell(p.y * s.width + p.x) == p,
{
    let w = s.width;
    let h = s.height;
    let y = p.y as int;
    let x = p.x as int;
    assert(0 <= y * w + x < w * h) by (nonlinear_arith)
        requires
            0 <= x < w,
            0 <= y < h,
    ;
    lemma_fundamental_div_mod_converse(y * w + x, w, y, x);
}

/// `cells` lists exactly the cells of the grid, each once.
pub proof fn lemma_cells(s: GameState)
    requires
        grid_fits(s.width, s.height),
    ensures
        s.cells().len() == s.width * s.height,
        s.cells().no_duplicates(),
        forall|p: Point| #[trigger] s.cells().contains(p) <==> s.in_grid(p),
{
    let w = s.width;
    let cells = s.cells();
    assert(0 < w * s.height) by (nonlinear_arith)
        requires
            0 < w,
            0 < s.height,
    ;
    assert forall|i: int, j: int| 0 <= i < cells.len() && 0 <= j < cells.len() && i != j implies cells[i]
        != cells[j] by {
        lemma_cell_in_grid(s, i);
        lemma_cell_in_grid(s, j);
        lemma_fundamental_div_mod(i, w);
        lemma_fundamental_div_mod(j, w);
    }
    assert forall|p: Point| #[trigger] cells.contains(p) <==> s.in_grid(p) by {
        if cells.contains(p) {
            let i = choose|i: int| 0 <= i < cells.len() && cells[i] == p;
            lemma_cell_in_grid(s, i);
        }
        if s.in_grid(p) {
            lemma_cell_number(s, p);
            assert(cells[p.y * w + p.x] == p);
        }
    }
}

/// Filtering keeps exactly the members that pass the test.
pub proof fn lemma_filter_members<A>(s: Seq<A>, keep: spec_fn(A) -> bool)
    ensures
        forall|a: A| #[trigger] s.filter(keep).contains(a) <==> s.contains(a) && keep(a),
{
    assert forall|a: A| #[trigger] s.filter(keep).contains(a) <==> s.contains(a) && keep(a) by {
        if s.filter(keep).contains(a) {
            s.lemma_filter_contains_rev(keep, a);
            let i = choose|i: int| 0 <= i < s.filter(keep).len() && s.filter(keep)[i] == a;
            s.lemma_filter_pred(keep, i);
        }
        if s.contains(a) && keep(a) {
            let i = choose|i: int| 0 <= i < s.len() && s[i] == a;
            s.lemma_filter_contains(keep, i);
        }
    }
}

/// Filtering a sequence without duplicates leaves one without duplicates.
pub proof fn lemma_filter_no_duplicates<A>(s: Seq<A>, keep: spec_fn(A) -> bool)
    requires
        s.no_duplicates(),
    ensures
        s.filter(keep).no_duplicates(),
    decreases s.len(),
{
    reveal(Seq::filter);
    if s.len() > 0 {
        let rest = s.drop_last();
        let kept = rest.filter(keep);
        lemma_filter_no_duplicates(rest, keep);
        lemma_filter_members(rest, keep);
        if keep(s.last()) {
            assert(!rest.contains(s.last()));
            assert forall|i: int, j: int|
                0 <= i < kept.len() + 1 && 0 <= j < kept.len() + 1 && i != j implies kept.push(
                s.last(),
            )[i] != kept.push(s.last())[j] by {
                if i < kept.len() {
                    assert(kept.contains(kept[i]));
                }
                if j < kept.len() {
                    assert(kept.contains(kept[j]));
                }
            }
        }
    }
}

/// As many members pass a test as there are `true` among the test's results.
pub proof fn lemma_filter_counts<A>(s: Seq<A>, keep: spec_fn(A) -> bool)
    ensures
        s.map_values(keep).filter(|b: bool| b).len() == s.filter(keep).len(),
    decreases s.len(),
{
    reveal(Seq::filter);
    if s.len() > 0 {
        let rest = s.drop_last();
        lemma_filter_counts(rest, keep);
        assert(s.map_values(keep).drop_last() =~= rest.map_values(keep));
    }
}

/// Cells on the grid, none of them twice, are no more than the grid has.
pub proof fn lemma_distinct_cells_fit(s: GameState, cells: Seq<Point>)
    requires
        grid_fits(s.width, s.height),
        cells.no_duplicates(),
        forall|i: int| 0 <= i < cells.len() ==> s.in_grid(#[trigger] cells[i]),
    ensures
        cells.len() <= s.width * s.height,
{
    lemma_cells(s);
    let grid = s.cells();
    cells.unique_seq_to_set();
    grid.lemma_cardinality_of_set();
    vstd::seq_lib::seq_to_set_is_finite(grid);
    assert(cells.to_set().subset_of(grid.to_set()));
    vstd::set_lib::lemma_len_subset(cells.to_set(), grid.to_set());
}

} // verus!
