//! The two renderings of a puzzle: the puzzle markup with its clue lists,
//! and the plain solution listing.

use crate::text::{decimal, push_decimal};
use crate::zeit::cell::{slot_letter, GridCell};
use crate::zeit::grid::{grid_letters, grid_markup, lemma_lines_of_grid_letters, lines, Grid};
use crate::zeit::placement::{placements, Direction, Placement, Question};
use vstd::prelude::*;
use vstd::string::StringExecFns;

verus! {

/// The clue entry of a placement: its number and its question.
pub open spec fn clue_markup(p: Placement) -> Seq<char> {
    "\\Clue{"@ + decimal(p.nr as nat) + "}{}{"@ + p.question + "}"@
}

/// The solution entry of a placement: its number and question, its answer,
/// and the explanation, on three lines.
pub open spec fn solution_entry(p: Placement) -> Seq<char> {
    "Question "@ + decimal(p.nr as nat) + ": "@ + p.question + "\nAnswer: "@ + p.answer
        + "\nExplanation: "@ + p.description
}

/// The placements that run in direction `d`, in the order of the list.
pub open spec fn of_direction(ps: Seq<Placement>, d: Direction) -> Seq<Placement> {
    ps.filter(|p: Placement| p.direction == d)
}

/// The clue entries of a list of placements, each on a line of its own.
pub open spec fn clue_lines(ps: Seq<Placement>) -> Seq<char> {
    ps.map_values(|p: Placement| clue_markup(p).push('\n')).flatten()
}

/// The solution entries of a list of placements, each followed by a line
/// feed.
pub open spec fn solution_entries(ps: Seq<Placement>) -> Seq<char> {
    ps.map_values(|p: Placement| solution_entry(p).push('\n')).flatten()
}

/// The puzzle markup: the puzzle environment of the grid, an empty line, the
/// list of the horizontal clues and the list of the vertical clues, each
/// clue list in the order of `ps`.
pub open spec fn puzzle_markup(g: Seq<Seq<Option<GridCell>>>, ps: Seq<Placement>) -> Seq<char> {
    grid_markup(g) + "\n\n"@ + "\\begin{PuzzleClues}{\\sffamily\\textbf{Waagerecht}}\n"@
        + clue_lines(of_direction(ps, Direction::Horizontal)) + "\\end{PuzzleClues}\n"@
        + "\\begin{PuzzleClues}{\\sffamily\\textbf{Senkrecht}}\n"@ + clue_lines(
        of_direction(ps, Direction::Vertical),
    ) + "\\end{PuzzleClues}\n"@
}

/// The solution listing: the grid as plain text, an empty line, and the
/// solution entries in the order of `ps`, separated by line feeds.
pub open spec fn solution_text(g: Seq<Seq<Option<GridCell>>>, ps: Seq<Placement>) -> Seq<char> {
    (grid_letters(g).push('\n') + solution_entries(ps)).drop_last()
}

/// A further placement is listed after those before it if it runs in the
/// direction asked for, and not at all otherwise: the placements of one
/// direction keep the order of the list.
pub proof fn lemma_of_direction_push(ps: Seq<Placement>, p: Placement, d: Direction)
    ensures
        of_direction(Seq::<Placement>::empty(), d) == Seq::<Placement>::empty(),
        of_direction(ps.push(p), d) == if p.direction == d {
            of_direction(ps, d).push(p)
        } else {
            of_direction(ps, d)
        },
{
    reveal(Seq::filter);
    assert(ps.push(p).drop_last() =~= ps);
}

/// The clue entry of one placement more is appended to those before it.
pub proof fn lemma_clue_lines_push(ps: Seq<Placement>, p: Placement)
    ensures
        clue_lines(Seq::<Placement>::empty()) == Seq::<char>::empty(),
        clue_lines(ps.push(p)) == clue_lines(ps) + clue_markup(p).push('\n'),
{
    let line = |p: Placement| clue_markup(p).push('\n');
    assert(ps.push(p).map_values(line) =~= ps.map_values(line).push(line(p)));
    ps.map_values(line).lemma_flatten_push(line(p));
}

/// The solution entry of one placement more is appended to those before it.
pub proof fn lemma_solution_entries_push(ps: Seq<Placement>, p: Placement)
    ensures
        solution_entries(Seq::<Placement>::empty()) == Seq::<char>::empty(),
        solution_entries(ps.push(p)) == solution_entries(ps) + solution_entry(p).push('\n'),
{
    let entry = |p: Placement| solution_entry(p).push('\n');
    assert(ps.push(p).map_values(entry) =~= ps.map_values(entry).push(entry(p)));
    ps.map_values(entry).lemma_flatten_push(entry(p));
}

/// Clue order: both renderings list the clues in the order of the list.
/// A placement added at the end of the list adds its entry at the end of
/// the solution entries and at the end of the clue list of its direction,
/// and leaves the clue list of the other direction as it is.
pub proof fn lemma_clue_order(ps: Seq<Placement>, p: Placement, d: Direction)
    ensures
        clue_lines(of_direction(ps.push(p), d)) == if p.direction == d {
            clue_lines(of_direction(ps, d)) + clue_markup(p).push('\n')
        } else {
            clue_lines(of_direction(ps, d))
        },
        solution_entries(ps.push(p)) == solution_entries(ps) + solution_entry(p).push('\n'),
{
    lemma_of_direction_push(ps, p, d);
    lemma_clue_lines_push(of_direction(ps, d), p);
    lemma_solution_entries_push(ps, p);
}

/// The grid block of the solution listing: the listing begins with the
/// plain text of the grid, and, as long as no letter is itself a line feed,
/// that text has one line for each row, as long as the row.
pub proof fn lemma_solution_grid_block(g: Seq<Seq<Option<GridCell>>>, ps: Seq<Placement>)
    requires
        forall|r: int, c: int|
            0 <= r < g.len() && 0 <= c < g[r].len() ==> slot_letter(#[trigger] g[r][c]) != '\n',
    ensures
        grid_letters(g).is_prefix_of(solution_text(g, ps)),
        lines(grid_letters(g)).len() == g.len(),
        forall|r: int|
            0 <= r < g.len() ==> (#[trigger] lines(grid_letters(g))[r]).len() == g[r].len(),
{
    lemma_lines_of_grid_letters(g);
}

/// Rendering the markup repeats: two renderings of the same grid and the
/// same questions are the same text, character for character.
pub proof fn lemma_markup_repeats(
    grid: Grid,
    qs: Vec<Question>,
    first: String,
    again: Grid,
    qs_again: Vec<Question>,
    second: String,
)
    requires
        grid@ == again@,
        placements(qs@) == placements(qs_again@),
        call_ensures(markup, (&grid, &qs), first),
        call_ensures(markup, (&again, &qs_again), second),
    ensures
        first@ == second@,
{
}

/// Rendering the solution listing repeats: two renderings of the same grid
/// and the same questions are the same text, character for character.
pub proof fn lemma_solution_repeats(
    grid: Grid,
    qs: Vec<Question>,
    first: String,
    again: Grid,
    qs_again: Vec<Question>,
    second: String,
)
    requires
        grid@ == again@,
        placements(qs@) == placements(qs_again@),
        call_ensures(solution, (&grid, &qs), first),
        call_ensures(solution, (&again, &qs_again), second),
    ensures
        first@ == second@,
{
}

impl Question {
    /// Renders the clue entry of the question.
    pub fn latex(&self) -> (s: String)
        ensures
            s@ == clue_markup(self@),
    {
        let mut s = String::new();
        s.append("\\Clue{");
        push_decimal(&mut s, self.nr);
        s.append("}{}{");
        s.append(self.question.as_str());
        s.append("}");
        s
    }

    /// Renders the solution entry of the question.
    pub fn to_string(&self) -> (s: String)
        ensures
            s@ == solution_entry(self@),
    {
        let mut s = String::new();
        s.append("Question ");
        push_decimal(&mut s, self.nr);
        s.append(": ");
        s.append(self.question.as_str());
        s.append("\nAnswer: ");
        s.append(self.answer.as_str());
        s.append("\nExplanation: ");
        s.append(self.description.as_str());
        s
    }
}

/// Appends the clue entries of the questions that run in direction `d`.
fn push_clue_lines(s: &mut String, qs: &Vec<Question>, d: Direction)
    ensures
        final(s)@ == old(s)@ + clue_lines(of_direction(placements(qs@), d)),
{
    let ghost ps = placements(qs@);
    let ghost start = s@;
    for k in 0..qs.len()
        invariant
            ps == placements(qs@),
            s@ == start + clue_lines(of_direction(ps.take(k as int), d)),
    {
        let q = &qs[k];
        proof {
            assert(ps.take(k + 1) =~= ps.take(k as int).push(q@));
            lemma_of_direction_push(ps.take(k as int), q@, d);
            lemma_clue_lines_push(of_direction(ps.take(k as int), d), q@);
        }
        if q.direction == d {
            let entry = q.latex();
            s.append(entry.as_str());
            s.push('\n');
        }
    }
    assert(ps.take(ps.len() as int) =~= ps);
}

/// Renders the puzzle markup of a grid and its questions.
pub fn markup(grid: &Grid, qs: &Vec<Question>) -> (s: String)
    requires
        grid@.len() > 0,
    ensures
        s@ == puzzle_markup(grid@, placements(qs@)),
{
    let mut s = grid.latex();
    s.append("\n\n");
    s.append("\\begin{PuzzleClues}{\\sffamily\\textbf{Waagerecht}}\n");
    push_clue_lines(&mut s, qs, Direction::Horizontal);
    s.append("\\end{PuzzleClues}\n");
    s.append("\\begin{PuzzleClues}{\\sffamily\\textbf{Senkrecht}}\n");
    push_clue_lines(&mut s, qs, Direction::Vertical);
    s.append("\\end{PuzzleClues}\n");
    s
}

/// Renders the solution listing of a grid and its questions.
pub fn solution(grid: &Grid, qs: &Vec<Question>) -> (s: String)
    ensures
        s@ == solution_text(grid@, placements(qs@)),
{
    let ghost ps = placements(qs@);
    let mut s = grid.to_string();
    s.push('\n');
    let ghost start = s@;
    for k in 0..qs.len()
        invariant
            ps == placements(qs@),
            s@ == start + solution_entries(ps.take(k as int)),
    {
        let q = &qs[k];
        proof {
            assert(ps.take(k + 1) =~= ps.take(k as int).push(q@));
            lemma_solution_entries_push(ps.take(k as int), q@);
        }
        let entry = q.to_string();
        s.append(entry.as_str());
        s.push('\n');
    }
    assert(ps.take(ps.len() as int) =~= ps);
    s.pop();
    s
}

} // verus!
