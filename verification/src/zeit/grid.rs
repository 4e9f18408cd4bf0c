//! The grid of a puzzle and its two renderings.

use crate::text::{decimal, push_decimal};
use crate::zeit::cell::{slot_letter, slot_token, GridCell};
use vstd::prelude::*;
use vstd::string::StringExecFns;

verus! {

/// A grid of cells, row by row; `None` is a blocked position that belongs
/// to no answer.
#[derive(Debug)]
pub struct Grid(pub Vec<Vec<Option<GridCell>>>);

impl Clone for Grid {
    /// A grid with the same cells.
    fn clone(&self) -> (copy: Self)
        ensures
            copy@ == self@,
    {
        let mut rows: Vec<Vec<Option<GridCell>>> = Vec::new();
        for r in 0..self.0.len()
            invariant
                rows@.len() == r,
                forall|i: int| 0 <= i < r ==> (#[trigger] rows@[i])@ == self.0@[i]@,
        {
            let cells = &self.0[r];
            let mut row: Vec<Option<GridCell>> = Vec::new();
            for c in 0..cells.len()
                invariant
                    row@.len() == c,
                    forall|j: int| 0 <= j < c ==> (#[trigger] row@[j]) == cells@[j],
            {
                row.push(cells[c]);
            }
            rows.push(row);
        }
        Grid(rows)
    }
}

impl View for Grid {
    type V = Seq<Seq<Option<GridCell>>>;

    open spec fn view(&self) -> Seq<Seq<Option<GridCell>>> {
        self.0@.map_values(|row: Vec<Option<GridCell>>| row@)
    }
}

/// The rows form a matrix: there is at least one, and all are equally long.
pub open spec fn is_matrix(g: Seq<Seq<Option<GridCell>>>) -> bool {
    &&& g.len() > 0
    &&& forall|r: int| 0 <= r < g.len() ==> (#[trigger] g[r]).len() == g[0].len()
}

/// Every cell lies in an answer, and a cell in which only one answer runs
/// has the wall across that answer drawn thick: the upper wall for a
/// horizontal answer, the left wall for a vertical one.
pub open spec fn is_marked(g: Seq<Seq<Option<GridCell>>>) -> bool {
    forall|r: int, c: int|
        0 <= r < g.len() && 0 <= c < g[r].len() ==> ((#[trigger] g[r][c]) matches Some(cell) ==> {
            &&& cell.in_horizontal || cell.in_vertical
            &&& cell.in_horizontal && !cell.in_vertical ==> cell.thick_top
            &&& cell.in_vertical && !cell.in_horizontal ==> cell.thick_side
        })
}

/// The tokens of the positions of a row, one after the other.
pub open spec fn row_tokens(row: Seq<Option<GridCell>>) -> Seq<char> {
    row.map_values(|slot: Option<GridCell>| slot_token(slot)).flatten()
}

/// The markup of one row: the tokens of its positions, then `|.` and a line
/// feed.
pub open spec fn row_markup(row: Seq<Option<GridCell>>) -> Seq<char> {
    row_tokens(row) + "|.\n"@
}

/// The markup of the rows of a grid, one after the other.
pub open spec fn rows_markup(g: Seq<Seq<Option<GridCell>>>) -> Seq<char> {
    g.map_values(|row: Seq<Option<GridCell>>| row_markup(row)).flatten()
}

/// The puzzle environment of a grid: the opening line with the number of
/// columns and of rows, the markup of each row, and the closing line.
pub open spec fn grid_markup(g: Seq<Seq<Option<GridCell>>>) -> Seq<char> {
    "\\begin{Puzzle}{"@ + decimal(g[0].len()) + "}{"@ + decimal(g.len()) + "}\n"@ + rows_markup(g)
        + "\\end{Puzzle}"@
}

/// The letters of the positions of a row.
pub open spec fn row_letters(row: Seq<Option<GridCell>>) -> Seq<char> {
    row.map_values(|slot: Option<GridCell>| slot_letter(slot))
}

/// The plain text of a grid: for each row a line of its letters, ended by a
/// line feed.
pub open spec fn grid_letters(g: Seq<Seq<Option<GridCell>>>) -> Seq<char> {
    g.map_values(|row: Seq<Option<GridCell>>| row_letters(row).push('\n')).flatten()
}

/// The tokens of one position more are appended to those before it.
proof fn lemma_row_tokens_step(row: Seq<Option<GridCell>>, c: int)
    requires
        0 <= c < row.len(),
    ensures
        row_tokens(row.take(c + 1)) == row_tokens(row.take(c)) + slot_token(row[c]),
{
    let token = |slot: Option<GridCell>| slot_token(slot);
    let done = row.take(c).map_values(token);
    assert(row.take(c + 1).map_values(token) =~= done.push(slot_token(row[c])));
    done.lemma_flatten_push(slot_token(row[c]));
}

/// The markup of one row more is appended to that of the rows before it.
proof fn lemma_rows_markup_step(g: Seq<Seq<Option<GridCell>>>, r: int)
    requires
        0 <= r < g.len(),
    ensures
        rows_markup(g.take(r + 1)) == rows_markup(g.take(r)) + row_markup(g[r]),
{
    let markup = |row: Seq<Option<GridCell>>| row_markup(row);
    let done = g.take(r).map_values(markup);
    assert(g.take(r + 1).map_values(markup) =~= done.push(row_markup(g[r])));
    done.lemma_flatten_push(row_markup(g[r]));
}

/// The line of one row more is appended to those of the rows before it.
proof fn lemma_grid_letters_step(g: Seq<Seq<Option<GridCell>>>, r: int)
    requires
        0 <= r < g.len(),
    ensures
        grid_letters(g.take(r + 1)) == grid_letters(g.take(r)) + row_letters(g[r]).push('\n'),
{
    let line = |row: Seq<Option<GridCell>>| row_letters(row).push('\n');
    let done = g.take(r).map_values(line);
    assert(g.take(r + 1).map_values(line) =~= done.push(row_letters(g[r]).push('\n')));
    done.lemma_flatten_push(row_letters(g[r]).push('\n'));
}

/// Where the first line of a text ends: the position of its first line
/// feed, or its length if it has none.
pub open spec fn line_end(t: Seq<char>) -> int
    decreases t.len(),
{
    if t.len() == 0 || t[0] == '\n' {
        0
    } else {
        1 + line_end(t.drop_first())
    }
}

/// The lines of a text: what stands before each of its line feeds, and what
/// stands after the last one unless that is empty.
pub open spec fn lines(t: Seq<char>) -> Seq<Seq<char>>
    decreases t.len(),
{
    if t.len() == 0 {
        Seq::empty()
    } else if 0 <= line_end(t) < t.len() {
        seq![t.take(line_end(t))] + lines(t.skip(line_end(t) + 1))
    } else {
        seq![t]
    }
}

/// A line without a line feed, followed by one, ends where the line feed
/// stands.
proof fn lemma_line_end(line: Seq<char>, rest: Seq<char>)
    requires
        forall|i: int| 0 <= i < line.len() ==> line[i] != '\n',
    ensures
        line_end(line.push('\n') + rest) == line.len(),
    decreases line.len(),
{
    let t = line.push('\n') + rest;
    if line.len() > 0 {
        assert(t.drop_first() =~= line.drop_first().push('\n') + rest);
        lemma_line_end(line.drop_first(), rest);
    }
}

/// The plain text of a grid, split into lines, gives the letters of each
/// row, as long as no letter is itself a line feed: there are as many lines
/// as rows, and each line is as long as its row.
pub proof fn lemma_lines_of_grid_letters(g: Seq<Seq<Option<GridCell>>>)
    requires
        forall|r: int, c: int|
            0 <= r < g.len() && 0 <= c < g[r].len() ==> slot_letter(#[trigger] g[r][c]) != '\n',
    ensures
        lines(grid_letters(g)) == g.map_values(|row: Seq<Option<GridCell>>| row_letters(row)),
        lines(grid_letters(g)).len() == g.len(),
        forall|r: int|
            0 <= r < g.len() ==> (#[trigger] lines(grid_letters(g))[r]).len() == g[r].len(),
    decreases g.len(),
{
    let line = |row: Seq<Option<GridCell>>| row_letters(row).push('\n');
    let letters = |row: Seq<Option<GridCell>>| row_letters(row);
    if g.len() == 0 {
        assert(grid_letters(g) =~= Seq::<char>::empty());
        assert(lines(grid_letters(g)) =~= g.map_values(letters));
    } else {
        let rest = g.drop_first();
        assert(g.map_values(line).drop_first() =~= rest.map_values(line));
        assert(grid_letters(g) == row_letters(g[0]).push('\n') + grid_letters(rest));
        assert forall|r: int, c: int|
            0 <= r < rest.len() && 0 <= c < rest[r].len() implies slot_letter(
            #[trigger] rest[r][c],
        ) != '\n' by {
            assert(rest[r][c] == g[r + 1][c]);
        }
        lemma_lines_of_grid_letters(rest);
        assert forall|i: int| 0 <= i < row_letters(g[0]).len() implies row_letters(g[0])[i]
            != '\n' by {
            assert(row_letters(g[0])[i] == slot_letter(g[0][i]));
        }
        lemma_line_end(row_letters(g[0]), grid_letters(rest));
        let t = grid_letters(g);
        let k = row_letters(g[0]).len() as int;
        assert(t.take(k) =~= row_letters(g[0]));
        assert(t.skip(k + 1) =~= grid_letters(rest));
        assert(lines(t) == seq![row_letters(g[0])] + lines(grid_letters(rest)));
        assert(lines(t) =~= g.map_values(letters));
    }
}

impl Grid {
    /// The grid is a matrix whose cells are marked as those of a built grid
    /// are.
    pub open spec fn wf(&self) -> bool {
        is_matrix(self@) && is_marked(self@)
    }

    /// Appends the markup of row `r`.
    fn push_row_markup(&self, r: usize, s: &mut String)
        requires
            r < self@.len(),
        ensures
            final(s)@ == old(s)@ + row_markup(self@[r as int]),
    {
        let row = &self.0[r];
        let ghost start = s@;
        for c in 0..row.len()
            invariant
                s@ == start + row_tokens(row@.take(c as int)),
        {
            proof {
                lemma_row_tokens_step(row@, c as int);
            }
            match &row[c] {
                None => {
                    s.push('|');
                    s.push('{');
                    s.push('}');
                    s.push(' ');
                },
                Some(cell) => {
                    let t = cell.to_string();
                    s.append(t.as_str());
                },
            }
        }
        assert(row@.take(row@.len() as int) =~= row@);
        s.append("|.\n");
    }

    /// Renders the grid as a puzzle environment.
    pub fn latex(&self) -> (s: String)
        requires
            self@.len() > 0,
        ensures
            s@ == grid_markup(self@),
    {
        let mut latex = String::new();
        latex.append("\\begin{Puzzle}{");
        push_decimal(&mut latex, self.0[0].len());
        latex.append("}{");
        push_decimal(&mut latex, self.0.len());
        latex.append("}\n");
        let ghost head = latex@;
        for r in 0..self.0.len()
            invariant
                latex@ == head + rows_markup(self@.take(r as int)),
        {
            proof {
                lemma_rows_markup_step(self@, r as int);
            }
            self.push_row_markup(r, &mut latex);
        }
        assert(self@.take(self@.len() as int) =~= self@);
        latex.append("\\end{Puzzle}");
        latex
    }

    /// Appends the letters of row `r` and a line feed.
    fn push_row_letters(&self, r: usize, s: &mut String)
        requires
            r < self@.len(),
        ensures
            final(s)@ == old(s)@ + row_letters(self@[r as int]).push('\n'),
    {
        let row = &self.0[r];
        let ghost start = s@;
        for c in 0..row.len()
            invariant
                s@ == start + row_letters(row@.take(c as int)),
        {
            match &row[c] {
                None => {
                    s.push('.');
                },
                Some(cell) => {
                    s.push(cell.b.into());
                },
            }
        }
        s.push('\n');
    }

    /// Renders the grid as plain text, one line for each row.
    pub fn to_string(&self) -> (s: String)
        ensures
            s@ == grid_letters(self@),
    {
        let mut s = String::new();
        for r in 0..self.0.len()
            invariant
                s@ == grid_letters(self@.take(r as int)),
        {
            proof {
                lemma_grid_letters_step(self@, r as int);
            }
            self.push_row_letters(r, &mut s);
        }
        assert(self@.take(self@.len() as int) =~= self@);
        s
    }
}

} // verus!
