//! What holds of every grid that is built.

use crate::zeit::cell::slot_letter;
use crate::zeit::construct::{
    build_grid, buildable, cols_upto, grid_cols, grid_of, grid_rows, has_size, last_cover,
    last_start, rows_upto, BuildError,
};
use crate::zeit::grid::{
    grid_letters, is_marked, is_matrix, lemma_lines_of_grid_letters, lines, Grid,
};
use crate::zeit::placement::{placements, Direction, Placement, Question};
use vstd::prelude::*;

verus! {

/// The size of the grid is the greatest extent: no placement asks for more
/// rows or columns than the grid has, and one asks for exactly that many.
pub proof fn lemma_size_is_greatest_extent(ps: Seq<Placement>)
    requires
        ps.len() > 0,
    ensures
        forall|i: int| 0 <= i < ps.len() ==> (#[trigger] ps[i]).row_extent() <= grid_rows(ps),
        forall|i: int| 0 <= i < ps.len() ==> (#[trigger] ps[i]).col_extent() <= grid_cols(ps),
        exists|i: int| 0 <= i < ps.len() && (#[trigger] ps[i]).row_extent() == grid_rows(ps),
        exists|i: int| 0 <= i < ps.len() && (#[trigger] ps[i]).col_extent() == grid_cols(ps),
{
    lemma_upto_is_greatest(ps, ps.len() as int);
}

/// The greatest extent among the first `n` placements bounds each of them
/// and is reached by one of them.
proof fn lemma_upto_is_greatest(ps: Seq<Placement>, n: int)
    requires
        1 <= n <= ps.len(),
    ensures
        forall|i: int| 0 <= i < n ==> (#[trigger] ps[i]).row_extent() <= rows_upto(ps, n),
        forall|i: int| 0 <= i < n ==> (#[trigger] ps[i]).col_extent() <= cols_upto(ps, n),
        exists|i: int| 0 <= i < n && (#[trigger] ps[i]).row_extent() == rows_upto(ps, n),
        exists|i: int| 0 <= i < n && (#[trigger] ps[i]).col_extent() == cols_upto(ps, n),
    decreases n,
{
    if n > 1 {
        lemma_upto_is_greatest(ps, n - 1);
    } else {
        assert(ps[0].row_extent() == rows_upto(ps, n));
        assert(ps[0].col_extent() == cols_upto(ps, n));
    }
}
/// What `last_cover` finds: it finds a placement exactly if one of the
/// first `n` runs in direction `d` and covers the cell, and what it finds
/// is such a placement with none after it.
pub proof fn lemma_last_cover(ps: Seq<Placement>, d: Direction, r: int, c: int, n: int)
    requires
        0 <= n <= ps.len(),
    ensures
        last_cover(ps, d, r, c, n) is Some <==> exists|i: int|
            0 <= i < n && (#[trigger] ps[i]).direction == d && ps[i].covers(r, c),
        last_cover(ps, d, r, c, n) matches Some(k) ==> {
            &&& 0 <= k < n
            &&& ps[k].direction == d
            &&& ps[k].covers(r, c)
            &&& forall|i: int|
                k < i < n ==> !((#[trigger] ps[i]).direction == d && ps[i].covers(r, c))
        },
    decreases n,
{
    if n > 0 {
        lemma_last_cover(ps, d, r, c, n - 1);
    }
}
/// What `last_start` finds: it finds a placement exactly if one of the
/// first `n` runs in direction `d` and starts at the cell, and what it finds
/// is such a placement with none after it.
pub proof fn lemma_last_start(ps: Seq<Placement>, d: Direction, r: int, c: int, n: int)
    requires
        0 <= n <= ps.len(),
    ensures
        last_start(ps, d, r, c, n) is Some <==> exists|i: int|
            0 <= i < n && (#[trigger] ps[i]).direction == d && ps[i].starts_at(r, c),
        last_start(ps, d, r, c, n) matches Some(k) ==> {
            &&& 0 <= k < n
            &&& ps[k].direction == d
            &&& ps[k].starts_at(r, c)
            &&& forall|i: int|
                k < i < n ==> !((#[trigger] ps[i]).direction == d && ps[i].starts_at(r, c))
        },
    decreases n,
{
    if n > 0 {
        lemma_last_start(ps, d, r, c, n - 1);
    }
}
/// The grid has the size that the placements ask for: as many rows as the
/// greatest row extent and as many columns as the greatest column extent
/// of a placement. A grid that can be built is a matrix.
pub proof fn lemma_grid_size(ps: Seq<Placement>)
    requires
        ps.len() > 0,
        0 <= grid_rows(ps),
        0 <= grid_cols(ps),
    ensures
        has_size(grid_of(ps), grid_rows(ps), grid_cols(ps)),
        forall|i: int| 0 <= i < ps.len() ==> (#[trigger] ps[i]).row_extent() <= grid_rows(ps),
        forall|i: int| 0 <= i < ps.len() ==> (#[trigger] ps[i]).col_extent() <= grid_cols(ps),
        exists|i: int| 0 <= i < ps.len() && (#[trigger] ps[i]).row_extent() == grid_rows(ps),
        exists|i: int| 0 <= i < ps.len() && (#[trigger] ps[i]).col_extent() == grid_cols(ps),
        buildable(ps) ==> is_matrix(grid_of(ps)) && grid_cols(ps) >= 1,
{
    lemma_size_is_greatest_extent(ps);
}
/// Membership: a cell of the grid lies in an answer, a blocked position in
/// none. A cell is marked as part of a horizontal answer exactly if a
/// horizontal placement covers it, and likewise for the vertical ones.
pub proof fn lemma_membership(ps: Seq<Placement>, r: int, c: int)
    requires
        0 <= r < grid_rows(ps),
        0 <= c < grid_cols(ps),
    ensures
        match grid_of(ps)[r][c] {
            Some(cell) => {
                &&& cell.in_horizontal || cell.in_vertical
                &&& cell.in_horizontal <==> exists|i: int|
                    0 <= i < ps.len() && (#[trigger] ps[i]).direction == Direction::Horizontal
                        && ps[i].covers(r, c)
                &&& cell.in_vertical <==> exists|i: int|
                    0 <= i < ps.len() && (#[trigger] ps[i]).direction == Direction::Vertical
                        && ps[i].covers(r, c)
            },
            None => forall|i: int| 0 <= i < ps.len() ==> !(#[trigger] ps[i]).covers(r, c),
        },
{
    let n = ps.len() as int;
    lemma_last_cover(ps, Direction::Horizontal, r, c, n);
    lemma_last_cover(ps, Direction::Vertical, r, c, n);
}
/// Walls: a cell in which only a horizontal answer runs has a thick upper
/// wall, one in which only a vertical answer runs a thick left wall. Where
/// both run, a wall is thick exactly if an answer across it starts there.
pub proof fn lemma_walls(ps: Seq<Placement>, r: int, c: int)
    requires
        0 <= r < grid_rows(ps),
        0 <= c < grid_cols(ps),
    ensures
        grid_of(ps)[r][c] matches Some(cell) ==> {
            &&& cell.in_horizontal && !cell.in_vertical ==> cell.thick_top
            &&& cell.in_vertical && !cell.in_horizontal ==> cell.thick_side
            &&& cell.in_horizontal && cell.in_vertical ==> (cell.thick_top <==> exists|i: int|
                0 <= i < ps.len() && (#[trigger] ps[i]).direction == Direction::Vertical
                    && ps[i].starts_at(r, c))
            &&& cell.in_horizontal && cell.in_vertical ==> (cell.thick_side <==> exists|i: int|
                0 <= i < ps.len() && (#[trigger] ps[i]).direction == Direction::Horizontal
                    && ps[i].starts_at(r, c))
        },
{
    let n = ps.len() as int;
    lemma_last_start(ps, Direction::Horizontal, r, c, n);
    lemma_last_start(ps, Direction::Vertical, r, c, n);
}

/// Numbers and letters: a cell shows a number exactly if a placement starts
/// there, and the number is that of such a placement; the letter of a cell
/// is the one that a placement covering the cell puts there.
pub proof fn lemma_number_and_letter(ps: Seq<Placement>, r: int, c: int)
    requires
        0 <= r < grid_rows(ps),
        0 <= c < grid_cols(ps),
    ensures
        grid_of(ps)[r][c] matches Some(cell) ==> {
            &&& cell.nr is Some <==> exists|i: int|
                0 <= i < ps.len() && (#[trigger] ps[i]).starts_at(r, c)
            &&& cell.nr matches Some(nr) ==> exists|i: int|
                0 <= i < ps.len() && (#[trigger] ps[i]).starts_at(r, c) && ps[i].nr == nr
            &&& exists|i: int|
                0 <= i < ps.len() && (#[trigger] ps[i]).covers(r, c) && ps[i].letter_at(r, c)
                    == cell.b.0
        },
{
    let n = ps.len() as int;
    lemma_last_start(ps, Direction::Horizontal, r, c, n);
    lemma_last_start(ps, Direction::Vertical, r, c, n);
    lemma_last_cover(ps, Direction::Horizontal, r, c, n);
    lemma_last_cover(ps, Direction::Vertical, r, c, n);
}
/// The cells of the grid are marked: each lies in an answer and has the
/// walls of its membership.
pub proof fn lemma_grid_is_marked(ps: Seq<Placement>)
    requires
        0 <= grid_rows(ps),
        0 <= grid_cols(ps),
    ensures
        is_marked(grid_of(ps)),
{
    let g = grid_of(ps);
    assert forall|r: int, c: int| 0 <= r < g.len() && 0 <= c < g[r].len() implies ((
    #[trigger] g[r][c]) matches Some(cell) ==> {
        &&& cell.in_horizontal || cell.in_vertical
        &&& cell.in_horizontal && !cell.in_vertical ==> cell.thick_top
        &&& cell.in_vertical && !cell.in_horizontal ==> cell.thick_side
    }) by {
        lemma_membership(ps, r, c);
        lemma_walls(ps, r, c);
    }
}

/// If no answer holds a line feed, the plain text of the grid that is built
/// has one line for each row of the grid, and each line is as long as the
/// grid is wide.
pub proof fn lemma_lines_of_built_grid(ps: Seq<Placement>)
    requires
        buildable(ps),
        forall|i: int, j: int|
            0 <= i < ps.len() && 0 <= j < ps[i].answer.len() ==> (#[trigger] ps[i].answer[j])
                != '\n',
    ensures
        lines(grid_letters(grid_of(ps))).len() == grid_rows(ps),
        forall|r: int|
            0 <= r < grid_rows(ps) ==> (#[trigger] lines(grid_letters(grid_of(ps)))[r]).len()
                == grid_cols(ps),
{
    let g = grid_of(ps);
    lemma_grid_size(ps);
    assert forall|r: int, c: int| 0 <= r < g.len() && 0 <= c < g[r].len() implies slot_letter(
        #[trigger] g[r][c],
    ) != '\n' by {
        lemma_number_and_letter(ps, r, c);
    }
    lemma_lines_of_grid_letters(g);
}
/// Building repeats: two builds from the same questions end alike, with
/// the same grid or with the same error.
pub proof fn lemma_build_repeats(
    qs: Vec<Question>,
    first: Result<Grid, BuildError>,
    qs_again: Vec<Question>,
    second: Result<Grid, BuildError>,
)
    requires
        placements(qs@) == placements(qs_again@),
        call_ensures(build_grid, (&qs,), first),
        call_ensures(build_grid, (&qs_again,), second),
    ensures
        match (first, second) {
            (Ok(a), Ok(b)) => a@ == b@,
            (Err(a), Err(b)) => a == b,
            _ => false,
        },
{
}

} // verus!
