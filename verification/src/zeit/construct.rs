//! Building the grid of a puzzle from its placements.
//!
//! The grid is as large as the placements ask: a vertical answer asks for
//! the rows of its span and for the columns left of it, a horizontal answer
//! for the columns of its span and for the rows above it. All horizontal
//! answers are written before the vertical ones, each group in the order of
//! the list, so where answers disagree on a cell the later writer wins.

use crate::zeit::cell::{GridCell, MyChar};
use crate::zeit::grid::Grid;
use crate::zeit::laws::{lemma_grid_is_marked, lemma_grid_size, lemma_size_is_greatest_extent};
use crate::zeit::placement::{placements, Direction, Placement, Question};
use vstd::prelude::*;
use vstd::string::{StrSliceExecFns, StringExecFns};

verus! {

/// Why no grid could be built.
#[derive(Debug, Clone, Copy, PartialEq, Eq, Structural)]
pub enum BuildError {
    /// There are no placements, so the grid has no size.
    EmptyInput,
    /// A placement does not fit the grid that the placements ask for: a
    /// coordinate is zero, its first cell or a cell of its span is no cell
    /// of the grid, or its answer has not the declared length. Or that grid
    /// is larger than the machine can address.
    OutOfBounds,
}

impl BuildError {
    /// What went wrong, in words.
    pub open spec fn message(self) -> Seq<char> {
        match self {
            BuildError::EmptyInput => "The puzzle has no questions, so its grid has no size"@,
            BuildError::OutOfBounds => "A question does not lie within the grid of the puzzle"@,
        }
    }

    /// Says in words what went wrong.
    pub fn to_string(&self) -> (s: String)
        ensures
            s@ == self.message(),
    {
        match self {
            BuildError::EmptyInput => String::from_str(
                "The puzzle has no questions, so its grid has no size",
            ),
            BuildError::OutOfBounds => String::from_str(
                "A question does not lie within the grid of the puzzle",
            ),
        }
    }
}

/// The greatest row extent among the first `n` placements, for `n >= 1`.
pub open spec fn rows_upto(ps: Seq<Placement>, n: int) -> int
    decreases n,
{
    if n <= 1 {
        ps[0].row_extent()
    } else if ps[n - 1].row_extent() > rows_upto(ps, n - 1) {
        ps[n - 1].row_extent()
    } else {
        rows_upto(ps, n - 1)
    }
}

/// The greatest column extent among the first `n` placements, for `n >= 1`.
pub open spec fn cols_upto(ps: Seq<Placement>, n: int) -> int
    decreases n,
{
    if n <= 1 {
        ps[0].col_extent()
    } else if ps[n - 1].col_extent() > cols_upto(ps, n - 1) {
        ps[n - 1].col_extent()
    } else {
        cols_upto(ps, n - 1)
    }
}

/// The number of rows of the grid: the greatest row extent of a placement.
pub open spec fn grid_rows(ps: Seq<Placement>) -> int {
    rows_upto(ps, ps.len() as int)
}

/// The number of columns of the grid: the greatest column extent of a
/// placement.
pub open spec fn grid_cols(ps: Seq<Placement>) -> int {
    cols_upto(ps, ps.len() as int)
}

/// The grid has `rows` rows of `cols` positions each.
pub open spec fn has_size(g: Seq<Seq<Option<GridCell>>>, rows: int, cols: int) -> bool {
    &&& g.len() == rows
    &&& forall|r: int| 0 <= r < rows ==> (#[trigger] g[r]).len() == cols
}

/// A grid can be built: there is a placement, the size that the placements
/// ask for is within the machine's range, and every placement fits a grid
/// of that size.
pub open spec fn buildable(ps: Seq<Placement>) -> bool {
    &&& ps.len() > 0
    &&& grid_rows(ps) <= usize::MAX
    &&& grid_cols(ps) <= usize::MAX
    &&& forall|i: int| 0 <= i < ps.len() ==> (#[trigger] ps[i]).fits(grid_rows(ps), grid_cols(ps))
}

/// The last of the first `n` placements that runs in direction `d` and
/// covers cell (`r`, `c`), if there is one.
pub open spec fn last_cover(ps: Seq<Placement>, d: Direction, r: int, c: int, n: int) -> Option<
    int,
>
    decreases n,
{
    if n <= 0 {
        None
    } else if ps[n - 1].direction == d && ps[n - 1].covers(r, c) {
        Some(n - 1)
    } else {
        last_cover(ps, d, r, c, n - 1)
    }
}

/// The last of the first `n` placements that runs in direction `d` and
/// starts at cell (`r`, `c`), if there is one.
pub open spec fn last_start(ps: Seq<Placement>, d: Direction, r: int, c: int, n: int) -> Option<
    int,
>
    decreases n,
{
    if n <= 0 {
        None
    } else if ps[n - 1].direction == d && ps[n - 1].starts_at(r, c) {
        Some(n - 1)
    } else {
        last_start(ps, d, r, c, n - 1)
    }
}

/// What the grid holds at position (`r`, `c`).
///
/// A position that no answer covers is blocked. Otherwise the cell says
/// which directions run through it, shows the number of the last vertical
/// answer that starts in it, or else of the last horizontal one, and the
/// letter of the last vertical answer that covers it, or else of the last
/// horizontal one. Its upper wall is thick where a vertical answer starts
/// or where only a horizontal answer runs; its left wall is thick where a
/// horizontal answer starts or where only a vertical answer runs.
pub open spec fn cell_of(ps: Seq<Placement>, r: int, c: int) -> Option<GridCell> {
    let n = ps.len() as int;
    let h = last_cover(ps, Direction::Horizontal, r, c, n);
    let v = last_cover(ps, Direction::Vertical, r, c, n);
    let hs = last_start(ps, Direction::Horizontal, r, c, n);
    let vs = last_start(ps, Direction::Vertical, r, c, n);
    if h is None && v is None {
        None
    } else {
        Some(
            GridCell {
                nr: if vs is Some {
                    Some(ps[vs.unwrap()].nr)
                } else if hs is Some {
                    Some(ps[hs.unwrap()].nr)
                } else {
                    None
                },
                in_horizontal: h is Some,
                in_vertical: v is Some,
                thick_top: vs is Some || (h is Some && v is None),
                thick_side: hs is Some || (v is Some && h is None),
                b: MyChar(
                    if v is Some {
                        ps[v.unwrap()].letter_at(r, c)
                    } else {
                        ps[h.unwrap()].letter_at(r, c)
                    },
                ),
            },
        )
    }
}

/// The grid of a list of placements.
pub open spec fn grid_of(ps: Seq<Placement>) -> Seq<Seq<Option<GridCell>>> {
    Seq::new(
        grid_rows(ps) as nat,
        |r: int| Seq::new(grid_cols(ps) as nat, |c: int| cell_of(ps, r, c)),
    )
}

/// The outcome of a build with the grid as the matrix of its positions.
pub open spec fn outcome_view(result: Result<Grid, BuildError>) -> Result<
    Seq<Seq<Option<GridCell>>>,
    BuildError,
> {
    match result {
        Ok(grid) => Ok(grid@),
        Err(e) => Err(e),
    }
}

/// What building yields: the grid, or the reason why there is none.
pub open spec fn build_result(ps: Seq<Placement>) -> Result<
    Seq<Seq<Option<GridCell>>>,
    BuildError,
> {
    if ps.len() == 0 {
        Err(BuildError::EmptyInput)
    } else if !buildable(ps) {
        Err(BuildError::OutOfBounds)
    } else {
        Ok(grid_of(ps))
    }
}

/// The cell at position (`r`, `c`) while the answers are being written: of
/// the horizontal answers, the starts of the first `h_starts` placements
/// and the letters of the first `h_letters` are written, and likewise of
/// the vertical answers.
spec fn painted(
    ps: Seq<Placement>,
    r: int,
    c: int,
    h_starts: int,
    h_letters: int,
    v_starts: int,
    v_letters: int,
) -> GridCell {
    let h = last_cover(ps, Direction::Horizontal, r, c, h_letters);
    let v = last_cover(ps, Direction::Vertical, r, c, v_letters);
    let hs = last_start(ps, Direction::Horizontal, r, c, h_starts);
    let vs = last_start(ps, Direction::Vertical, r, c, v_starts);
    GridCell {
        nr: if vs is Some {
            Some(ps[vs.unwrap()].nr)
        } else if hs is Some {
            Some(ps[hs.unwrap()].nr)
        } else {
            None
        },
        in_horizontal: h is Some,
        in_vertical: v is Some,
        thick_top: vs is Some,
        thick_side: hs is Some,
        b: MyChar(
            if v is Some {
                ps[v.unwrap()].letter_at(r, c)
            } else if h is Some {
                ps[h.unwrap()].letter_at(r, c)
            } else {
                '.'
            },
        ),
    }
}

/// A position once all answers are written: blocked if no answer runs
/// through the cell; else the cell, with the wall across its direction
/// drawn thick if only one answer runs through it.
spec fn finished(cell: GridCell) -> Option<GridCell> {
    if !cell.in_horizontal && !cell.in_vertical {
        None
    } else if cell.in_horizontal && !cell.in_vertical {
        Some(GridCell { thick_top: true, ..cell })
    } else if cell.in_vertical && !cell.in_horizontal {
        Some(GridCell { thick_side: true, ..cell })
    } else {
        Some(cell)
    }
}

/// Finishing the cell with all answers written gives the grid's position.
proof fn lemma_finished_painted(ps: Seq<Placement>, r: int, c: int)
    ensures
        finished(
            painted(ps, r, c, ps.len() as int, ps.len() as int, ps.len() as int, ps.len() as int),
        ) == cell_of(ps, r, c),
{
}

/// The size that the placements ask for, if every placement has positive
/// coordinates and the size is within the machine's range.
fn bounding_box(qs: &Vec<Question>) -> (r: Option<(usize, usize)>)
    requires
        qs@.len() > 0,
    ensures
        match r {
            Some((rows, cols)) => {
                &&& rows == grid_rows(placements(qs@))
                &&& cols == grid_cols(placements(qs@))
                &&& forall|i: int|
                    0 <= i < qs@.len() ==> (#[trigger] placements(qs@)[i]).yc >= 1
                        && placements(qs@)[i].xc >= 1
            },
            None => !buildable(placements(qs@)),
        },
{
    let ghost ps = placements(qs@);
    let mut rows: usize = 0;
    let mut cols: usize = 0;
    for k in 0..qs.len()
        invariant
            ps == placements(qs@),
            qs@.len() > 0,
            k > 0 ==> rows == rows_upto(ps, k as int) && cols == cols_upto(ps, k as int),
            k == 0 ==> rows == 0 && cols == 0,
            forall|i: int| 0 <= i < k ==> (#[trigger] ps[i]).yc >= 1 && ps[i].xc >= 1,
    {
        let q = &qs[k];
        if q.yc == 0 || q.xc == 0 {
            assert(!ps[k as int].fits(grid_rows(ps), grid_cols(ps)));
            return None;
        }
        let (row_extent, col_extent) = match q.direction {
            Direction::Vertical => ((q.yc - 1).checked_add(q.length), Some(q.xc - 1)),
            Direction::Horizontal => (Some(q.yc - 1), (q.xc - 1).checked_add(q.length)),
        };
        match (row_extent, col_extent) {
            (Some(re), Some(ce)) => {
                if re > rows {
                    rows = re;
                }
                if ce > cols {
                    cols = ce;
                }
            },
            _ => {
                proof {
                    lemma_size_is_greatest_extent(ps);
                }
                return None;
            },
        }
    }
    Some((rows, cols))
}

/// Whether every placement fits a grid of the size that the placements ask
/// for.
fn all_fit(qs: &Vec<Question>, rows: usize, cols: usize) -> (b: bool)
    requires
        qs@.len() > 0,
        rows == grid_rows(placements(qs@)),
        cols == grid_cols(placements(qs@)),
        forall|i: int|
            0 <= i < qs@.len() ==> (#[trigger] placements(qs@)[i]).yc >= 1
                && placements(qs@)[i].xc >= 1,
    ensures
        b == buildable(placements(qs@)),
{
    let ghost ps = placements(qs@);
    proof {
        lemma_size_is_greatest_extent(ps);
    }
    for k in 0..qs.len()
        invariant
            ps == placements(qs@),
            rows == grid_rows(ps),
            cols == grid_cols(ps),
            forall|i: int| 0 <= i < ps.len() ==> (#[trigger] ps[i]).row_extent() <= rows,
            forall|i: int| 0 <= i < ps.len() ==> (#[trigger] ps[i]).col_extent() <= cols,
            forall|i: int| 0 <= i < ps.len() ==> (#[trigger] ps[i]).yc >= 1 && ps[i].xc >= 1,
            forall|i: int| 0 <= i < k ==> (#[trigger] ps[i]).fits(rows as int, cols as int),
    {
        let q = &qs[k];
        if q.yc > rows || q.xc > cols || q.answer.as_str().unicode_len() != q.length {
            assert(!ps[k as int].fits(rows as int, cols as int));
            return false;
        }
    }
    true
}

/// A grid of `rows` by `cols` cells with nothing written into them.
fn blank_grid(rows: usize, cols: usize) -> (grid: Grid)
    ensures
        has_size(grid@, rows as int, cols as int),
        forall|r: int, c: int|
            0 <= r < rows && 0 <= c < cols ==> (#[trigger] grid@[r][c]) == Some(GridCell::blank()),
{
    let mut cells: Vec<Vec<Option<GridCell>>> = Vec::new();
    for r in 0..rows
        invariant
            cells@.len() == r,
            forall|i: int| 0 <= i < r ==> (#[trigger] cells@[i])@.len() == cols,
            forall|i: int, c: int|
                0 <= i < r && 0 <= c < cols ==> (#[trigger] cells@[i]@[c]) == Some(
                    GridCell::blank(),
                ),
    {
        let mut row: Vec<Option<GridCell>> = Vec::new();
        for c in 0..cols
            invariant
                row@.len() == c,
                forall|j: int| 0 <= j < c ==> (#[trigger] row@[j]) == Some(GridCell::blank()),
        {
            row.push(Some(GridCell::default()));
        }
        cells.push(row);
    }
    Grid(cells)
}

/// Puts `slot` at position (`r`, `c`) and leaves the rest as it is.
fn set_slot(grid: &mut Grid, r: usize, c: usize, slot: Option<GridCell>)
    requires
        r < old(grid)@.len(),
        c < old(grid)@[r as int].len(),
    ensures
        final(grid)@ == old(grid)@.update(r as int, old(grid)@[r as int].update(c as int, slot)),
{
    grid.0[r][c] = slot;
}

/// Writes the `k`-th placement, a horizontal one, into the grid: its number
/// and a thick left wall into its first cell, its letters along the row.
fn paint_horizontal(
    grid: &mut Grid,
    qs: &Vec<Question>,
    k: usize,
    Ghost(rows): Ghost<int>,
    Ghost(cols): Ghost<int>,
)
    requires
        k < qs@.len(),
        placements(qs@)[k as int].direction == Direction::Horizontal,
        placements(qs@)[k as int].fits(rows, cols),
        has_size(old(grid)@, rows, cols),
        forall|r: int, c: int|
            0 <= r < rows && 0 <= c < cols ==> (#[trigger] old(grid)@[r][c]) == Some(
                painted(placements(qs@), r, c, k as int, k as int, 0, 0),
            ),
    ensures
        has_size(final(grid)@, rows, cols),
        forall|r: int, c: int|
            0 <= r < rows && 0 <= c < cols ==> (#[trigger] final(grid)@[r][c]) == Some(
                painted(placements(qs@), r, c, k + 1, k + 1, 0, 0),
            ),
{
    let ghost ps = placements(qs@);
    let q = &qs[k];
    let row = q.yc - 1;
    let col = q.xc - 1;
    assert(grid@[row as int][col as int] is Some);
    if let Some(cell) = grid.0[row][col] {
        set_slot(grid, row, col, Some(GridCell { nr: Some(q.nr), thick_side: true, ..cell }));
    }
    for i in 0..q.length
        invariant
            ps == placements(qs@),
            k < qs@.len(),
            ps[k as int] == q@,
            q@.direction == Direction::Horizontal,
            q@.fits(rows, cols),
            row == q.yc - 1,
            col == q.xc - 1,
            has_size(grid@, rows, cols),
            forall|r: int, c: int|
                0 <= r < rows && 0 <= c < cols ==> (#[trigger] grid@[r][c]) == Some(
                    painted(
                        ps,
                        r,
                        c,
                        k + 1,
                        if r == row && col <= c < col + i {
                            k + 1
                        } else {
                            k as int
                        },
                        0,
                        0,
                    ),
                ),
    {
        let letter = q.answer.as_str().get_char(i);
        assert(grid.0[row as int].len() == cols);
        assert(grid@[row as int][col + i] is Some);
        if let Some(cell) = grid.0[row][col + i] {
            set_slot(
                grid,
                row,
                col + i,
                Some(GridCell { in_horizontal: true, b: MyChar(letter), ..cell }),
            );
        }
    }
}

/// Writes the `k`-th placement, a vertical one, into the grid: its number
/// and a thick upper wall into its first cell, its letters down the column.
fn paint_vertical(
    grid: &mut Grid,
    qs: &Vec<Question>,
    k: usize,
    Ghost(rows): Ghost<int>,
    Ghost(cols): Ghost<int>,
)
    requires
        k < qs@.len(),
        placements(qs@)[k as int].direction == Direction::Vertical,
        placements(qs@)[k as int].fits(rows, cols),
        has_size(old(grid)@, rows, cols),
        forall|r: int, c: int|
            0 <= r < rows && 0 <= c < cols ==> (#[trigger] old(grid)@[r][c]) == Some(
                painted(
                    placements(qs@),
                    r,
                    c,
                    qs@.len() as int,
                    qs@.len() as int,
                    k as int,
                    k as int,
                ),
            ),
    ensures
        has_size(final(grid)@, rows, cols),
        forall|r: int, c: int|
            0 <= r < rows && 0 <= c < cols ==> (#[trigger] final(grid)@[r][c]) == Some(
                painted(placements(qs@), r, c, qs@.len() as int, qs@.len() as int, k + 1, k + 1),
            ),
{
    let ghost ps = placements(qs@);
    let ghost n = qs@.len() as int;
    let q = &qs[k];
    let row = q.yc - 1;
    let col = q.xc - 1;
    assert(grid@[row as int][col as int] is Some);
    if let Some(cell) = grid.0[row][col] {
        set_slot(grid, row, col, Some(GridCell { nr: Some(q.nr), thick_top: true, ..cell }));
    }
    for i in 0..q.length
        invariant
            ps == placements(qs@),
            n == qs@.len(),
            k < qs@.len(),
            ps[k as int] == q@,
            q@.direction == Direction::Vertical,
            q@.fits(rows, cols),
            row == q.yc - 1,
            col == q.xc - 1,
            has_size(grid@, rows, cols),
            forall|r: int, c: int|
                0 <= r < rows && 0 <= c < cols ==> (#[trigger] grid@[r][c]) == Some(
                    painted(
                        ps,
                        r,
                        c,
                        n,
                        n,
                        k + 1,
                        if c == col && row <= r < row + i {
                            k + 1
                        } else {
                            k as int
                        },
                    ),
                ),
    {
        let letter = q.answer.as_str().get_char(i);
        assert(grid.0.len() == rows);
        assert(grid@[row + i][col as int] is Some);
        if let Some(cell) = grid.0[row + i][col] {
            set_slot(
                grid,
                row + i,
                col,
                Some(GridCell { in_vertical: true, b: MyChar(letter), ..cell }),
            );
        }
    }
}

/// Finishes a position once all answers are written.
fn finish(cell: GridCell) -> (slot: Option<GridCell>)
    ensures
        slot == finished(cell),
{
    if !cell.in_vertical && !cell.in_horizontal {
        None
    } else if cell.in_vertical ^ cell.in_horizontal {
        if cell.in_horizontal {
            Some(GridCell { thick_top: true, ..cell })
        } else {
            Some(GridCell { thick_side: true, ..cell })
        }
    } else {
        Some(cell)
    }
}

/// Builds the grid of a list of questions.
///
/// Fails with [`BuildError::EmptyInput`] on an empty list, and with
/// [`BuildError::OutOfBounds`] if a placement does not fit the grid that
/// the placements ask for, or if that grid is larger than the machine can
/// address. A grid that is returned is a matrix of the size asked for, and
/// each of its cells is marked with the answers that run through it.
pub fn build_grid(qs: &Vec<Question>) -> (result: Result<Grid, BuildError>)
    ensures
        outcome_view(result) == build_result(placements(qs@)),
        result matches Ok(grid) ==> {
            &&& grid.wf()
            &&& has_size(grid@, grid_rows(placements(qs@)), grid_cols(placements(qs@)))
        },
{
    let ghost ps = placements(qs@);
    let n = qs.len();
    if n == 0 {
        return Err(BuildError::EmptyInput);
    }
    let (rows, cols) = match bounding_box(qs) {
        Some(size) => size,
        None => {
            return Err(BuildError::OutOfBounds);
        },
    };
    if !all_fit(qs, rows, cols) {
        return Err(BuildError::OutOfBounds);
    }
    let mut grid = blank_grid(rows, cols);
    for k in 0..n
        invariant
            ps == placements(qs@),
            n == qs@.len(),
            buildable(ps),
            rows == grid_rows(ps),
            cols == grid_cols(ps),
            has_size(grid@, rows as int, cols as int),
            forall|r: int, c: int|
                0 <= r < rows && 0 <= c < cols ==> (#[trigger] grid@[r][c]) == Some(
                    painted(ps, r, c, k as int, k as int, 0, 0),
                ),
    {
        match qs[k].direction {
            Direction::Horizontal => {
                paint_horizontal(&mut grid, qs, k, Ghost(rows as int), Ghost(cols as int));
            },
            Direction::Vertical => {},
        }
    }
    for k in 0..n
        invariant
            ps == placements(qs@),
            n == qs@.len(),
            buildable(ps),
            rows == grid_rows(ps),
            cols == grid_cols(ps),
            has_size(grid@, rows as int, cols as int),
            forall|r: int, c: int|
                0 <= r < rows && 0 <= c < cols ==> (#[trigger] grid@[r][c]) == Some(
                    painted(ps, r, c, n as int, n as int, k as int, k as int),
                ),
    {
        match qs[k].direction {
            Direction::Vertical => {
                paint_vertical(&mut grid, qs, k, Ghost(rows as int), Ghost(cols as int));
            },
            Direction::Horizontal => {},
        }
    }
    let ghost written = grid@;
    for r in 0..rows
        invariant
            has_size(written, rows as int, cols as int),
            has_size(grid@, rows as int, cols as int),
            forall|i: int, c: int|
                0 <= i < rows && 0 <= c < cols ==> (#[trigger] written[i][c]) is Some,
            forall|i: int, c: int|
                0 <= i < r && 0 <= c < cols ==> (#[trigger] grid@[i][c]) == finished(
                    written[i][c].unwrap(),
                ),
            forall|i: int, c: int|
                r <= i < rows && 0 <= c < cols ==> (#[trigger] grid@[i][c]) == written[i][c],
    {
        for c in 0..cols
            invariant
                r < rows,
                has_size(written, rows as int, cols as int),
                has_size(grid@, rows as int, cols as int),
                forall|i: int, c: int|
                    0 <= i < rows && 0 <= c < cols ==> (#[trigger] written[i][c]) is Some,
                forall|i: int, j: int|
                    (0 <= i < r && 0 <= j < cols) || (i == r && 0 <= j < c) ==> (
                    #[trigger] grid@[i][j]) == finished(written[i][j].unwrap()),
                forall|i: int, j: int|
                    (r < i < rows && 0 <= j < cols) || (i == r && c <= j < cols) ==> (
                    #[trigger] grid@[i][j]) == written[i][j],
        {
            assert(grid@[r as int][c as int] == written[r as int][c as int]);
            if let Some(cell) = grid.0[r][c] {
                set_slot(&mut grid, r, c, finish(cell));
            }
        }
    }
    proof {
        assert forall|r: int, c: int| 0 <= r < rows && 0 <= c < cols implies (
        #[trigger] grid@[r][c]) == cell_of(ps, r, c) by {
            lemma_finished_painted(ps, r, c);
        }
        assert(grid@ =~~= grid_of(ps));
        lemma_grid_size(ps);
        lemma_grid_is_marked(ps);
    }
    Ok(grid)
}

} // verus!
