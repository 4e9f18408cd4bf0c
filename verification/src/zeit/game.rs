//! A puzzle as it is published, and the same puzzle with its grid built.

use crate::zeit::cell::GridCell;
use crate::zeit::construct::{
    build_grid, build_result, grid_cols, grid_rows, has_size, outcome_view, BuildError,
};
use crate::zeit::grid::{grid_letters, Grid};
use crate::zeit::placement::{placements, Placement, Question};
use crate::zeit::render::{markup, puzzle_markup, solution, solution_text};
use vstd::prelude::*;
use vstd::string::StringExecFns;

verus! {

/// What comes before the number of the puzzle in the document.
pub const PREAMBLE: &'static str =
    "\\documentclass[a4paper,12pt]{article}\n\\usepackage[T1]{fontenc}\n\\usepackage[utf8]{inputenc}\n\\usepackage[ngerman]{babel}\n\\usepackage[large,ngerman]{cwpuzzle}\n\\usepackage[margin=1cm, top = 2.5cm]{geometry}\n\\usepackage{fancyhdr}\n\\renewcommand{\\PuzzleUnitlength}{1cm}\n\n\\begin{document}\n\\pagestyle{fancy}\n\\fancyhead{}\n\\fancyfoot{}\n\\fancyhead[LO]{Um die Ecke Gedacht Nr. ";

/// A puzzle as it is published: its data and its questions, without a grid.
#[derive(Debug)]
pub struct ShadowGame {
    pub id: usize,
    pub name: String,
    pub game_nr: String,
    pub is_contest: bool,
    pub release_date: String,
    pub additional_info: String,
    pub questions: Vec<Question>,
}

/// A puzzle with its grid. The grid is always the one built from the
/// questions.
#[allow(dead_code)]
#[derive(Debug)]
pub struct Game {
    id: usize,
    name: String,
    game_nr: String,
    is_contest: bool,
    release_date: String,
    additional_info: String,
    questions: Vec<Question>,
    grid: Grid,
}

/// The mathematical content of a [`Game`].
pub struct GameView {
    pub id: usize,
    pub name: Seq<char>,
    pub game_nr: Seq<char>,
    pub is_contest: bool,
    pub release_date: Seq<char>,
    pub additional_info: Seq<char>,
    pub questions: Seq<Placement>,
    pub grid: Seq<Seq<Option<GridCell>>>,
}

impl View for Game {
    type V = GameView;

    closed spec fn view(&self) -> GameView {
        GameView {
            id: self.id,
            name: self.name@,
            game_nr: self.game_nr@,
            is_contest: self.is_contest,
            release_date: self.release_date@,
            additional_info: self.additional_info@,
            questions: placements(self.questions@),
            grid: self.grid@,
        }
    }
}

/// The whole document of a puzzle: the preamble with the number of the
/// puzzle in the page head, the puzzle markup, and the end of the document.
pub open spec fn document_text(
    game_nr: Seq<char>,
    g: Seq<Seq<Option<GridCell>>>,
    ps: Seq<Placement>,
) -> Seq<char> {
    PREAMBLE@ + game_nr + "}\n\n"@ + puzzle_markup(g, ps) + "\\end{document}"@
}

impl ShadowGame {
    /// Builds the grid of the puzzle from its questions.
    pub fn construct_grid(&self) -> (result: Result<Grid, BuildError>)
        ensures
            outcome_view(result) == build_result(placements(self.questions@)),
            result matches Ok(grid) ==> {
                &&& grid.wf()
                &&& has_size(
                    grid@,
                    grid_rows(placements(self.questions@)),
                    grid_cols(placements(self.questions@)),
                )
            },
    {
        build_grid(&self.questions)
    }
}

impl Game {
    #[verifier::type_invariant]
    spec fn grid_is_built(self) -> bool {
        build_result(placements(self.questions@)) == Ok::<_, BuildError>(self.grid@)
    }

    /// Builds the grid of a published puzzle and keeps it with the puzzle.
    /// Fails where no grid can be built.
    pub fn try_from(value: ShadowGame) -> (result: Result<Game, BuildError>)
        ensures
            match result {
                Ok(game) => {
                    &&& game@.id == value.id
                    &&& game@.name == value.name@
                    &&& game@.game_nr == value.game_nr@
                    &&& game@.is_contest == value.is_contest
                    &&& game@.release_date == value.release_date@
                    &&& game@.additional_info == value.additional_info@
                    &&& game@.questions == placements(value.questions@)
                    &&& build_result(game@.questions) == Ok::<_, BuildError>(game@.grid)
                },
                Err(e) => build_result(placements(value.questions@)) == Err::<
                    Seq<Seq<Option<GridCell>>>,
                    _,
                >(e),
            },
    {
        match value.construct_grid() {
            Ok(grid) => Ok(
                Game {
                    id: value.id,
                    name: value.name,
                    game_nr: value.game_nr,
                    is_contest: value.is_contest,
                    release_date: value.release_date,
                    additional_info: value.additional_info,
                    questions: value.questions,
                    grid,
                },
            ),
            Err(e) => Err(e),
        }
    }

    /// The questions of the puzzle.
    pub fn questions(&self) -> (qs: &Vec<Question>)
        ensures
            placements(qs@) == self@.questions,
    {
        &self.questions
    }

    /// The grid of the puzzle: the one built from its questions.
    pub fn grid(&self) -> (grid: &Grid)
        ensures
            grid@ == self@.grid,
            build_result(self@.questions) == Ok::<_, BuildError>(grid@),
    {
        proof {
            use_type_invariant(self);
        }
        &self.grid
    }

    /// The number under which the puzzle was published.
    pub fn game_nr(&self) -> (nr: &String)
        ensures
            nr@ == self@.game_nr,
    {
        &self.game_nr
    }

    /// Renders the grid of the puzzle as plain text.
    pub fn to_string(&self) -> (s: String)
        ensures
            s@ == grid_letters(self@.grid),
    {
        self.grid.to_string()
    }

    /// Renders the whole document of the puzzle: the puzzle markup set
    /// between the preamble, which names the puzzle in the page head, and
    /// the end of the document.
    pub fn document(&self) -> (s: String)
        ensures
            s@ == document_text(self@.game_nr, self@.grid, self@.questions),
    {
        let mut s = String::from_str(PREAMBLE);
        s.append(self.game_nr.as_str());
        s.append("}\n\n");
        let body = crate::Game::latex(self);
        s.append(body.as_str());
        s.append("\\end{document}");
        s
    }
}

impl crate::Game for Game {
    /// The puzzle markup: the puzzle environment of the grid, an empty
    /// line, and the two clue lists, nothing else.
    fn latex(&self) -> (s: String)
        ensures
            s@ == puzzle_markup(self@.grid, self@.questions),
    {
        proof {
            use_type_invariant(self);
        }
        markup(&self.grid, &self.questions)
    }

    /// The solution listing of the puzzle.
    fn solution(&self) -> (s: String)
        ensures
            s@ == solution_text(self@.grid, self@.questions),
    {
        solution(&self.grid, &self.questions)
    }
}

} // verus!
