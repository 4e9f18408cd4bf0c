//! Word placements: where an answer lies in the grid and what is asked for it.

use vstd::prelude::*;

verus! {

/// The direction in which an answer is written.
#[derive(Clone, Copy, Debug, PartialEq, Eq, Structural)]
pub enum Direction {
    Vertical,
    Horizontal,
}

/// One clue of a puzzle with the placement of its answer. Rows and columns
/// count from 1; `xc` is the column and `yc` the row of the first letter.
#[derive(Debug)]
pub struct Question {
    pub id: usize,
    pub game_id: usize,
    pub nr: usize,
    pub question: String,
    pub answer: String,
    pub xc: usize,
    pub yc: usize,
    pub direction: Direction,
    pub description: String,
    pub length: usize,
}

/// The mathematical content of a [`Question`]: its texts are sequences of
/// characters.
pub struct Placement {
    pub id: usize,
    pub game_id: usize,
    pub nr: usize,
    pub question: Seq<char>,
    pub answer: Seq<char>,
    pub xc: usize,
    pub yc: usize,
    pub direction: Direction,
    pub description: Seq<char>,
    pub length: usize,
}

impl View for Question {
    type V = Placement;

    open spec fn view(&self) -> Placement {
        Placement {
            id: self.id,
            game_id: self.game_id,
            nr: self.nr,
            question: self.question@,
            answer: self.answer@,
            xc: self.xc,
            yc: self.yc,
            direction: self.direction,
            description: self.description@,
            length: self.length,
        }
    }
}

/// The placements that a list of questions stands for, in the same order.
pub open spec fn placements(qs: Seq<Question>) -> Seq<Placement> {
    qs.map_values(|q: Question| q@)
}

impl Placement {
    /// Index of the row of the first letter, counting from 0.
    pub open spec fn row0(self) -> int {
        self.yc - 1
    }

    /// Index of the column of the first letter, counting from 0.
    pub open spec fn col0(self) -> int {
        self.xc - 1
    }

    /// The answer's first letter lies in cell (`r`, `c`).
    pub open spec fn starts_at(self, r: int, c: int) -> bool {
        self.row0() == r && self.col0() == c
    }

    /// One of the answer's letters lies in cell (`r`, `c`).
    pub open spec fn covers(self, r: int, c: int) -> bool {
        match self.direction {
            Direction::Horizontal => self.row0() == r && self.col0() <= c < self.col0()
                + self.length,
            Direction::Vertical => self.col0() == c && self.row0() <= r < self.row0()
                + self.length,
        }
    }

    /// The letter that the answer puts into cell (`r`, `c`), for a cell that
    /// it covers.
    pub open spec fn letter_at(self, r: int, c: int) -> char {
        match self.direction {
            Direction::Horizontal => self.answer[c - self.col0()],
            Direction::Vertical => self.answer[r - self.row0()],
        }
    }

    /// How many rows the placement asks of the grid: a vertical answer its
    /// full span, a horizontal one only the rows above it.
    pub open spec fn row_extent(self) -> int {
        match self.direction {
            Direction::Vertical => self.row0() + self.length,
            Direction::Horizontal => self.row0(),
        }
    }

    /// How many columns the placement asks of the grid: a horizontal answer
    /// its full span, a vertical one only the columns left of it.
    pub open spec fn col_extent(self) -> int {
        match self.direction {
            Direction::Horizontal => self.col0() + self.length,
            Direction::Vertical => self.col0(),
        }
    }

    /// The placement lies within a grid of `rows` by `cols` cells: its
    /// coordinates are positive, its answer has the declared length, and its
    /// first cell and every cell of its span are cells of the grid.
    pub open spec fn fits(self, rows: int, cols: int) -> bool {
        &&& 1 <= self.yc <= rows
        &&& 1 <= self.xc <= cols
        &&& self.answer.len() == self.length
        &&& match self.direction {
            Direction::Horizontal => self.col0() + self.length <= cols,
            Direction::Vertical => self.row0() + self.length <= rows,
        }
    }
}

} // verus!
