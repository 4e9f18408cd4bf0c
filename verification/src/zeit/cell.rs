//! The cells of a grid and the markup token of each.

use crate::text::{decimal, push_decimal};
use vstd::prelude::*;
use vstd::std_specs::convert::FromSpecImpl;

verus! {

/// The letter of a cell; a cell that no answer has written yet holds `'.'`.
#[derive(Debug, Clone, Copy, PartialEq, Eq)]
pub struct MyChar(pub char);

impl Default for MyChar {
    fn default() -> (r: Self)
        ensures
            r.0 == '.',
    {
        MyChar('.')
    }
}

impl From<char> for MyChar {
    fn from(c: char) -> (r: Self) {
        Self(c)
    }
}

impl FromSpecImpl<char> for MyChar {
    open spec fn obeys_from_spec() -> bool {
        true
    }

    open spec fn from_spec(c: char) -> Self {
        MyChar(c)
    }
}

impl From<MyChar> for char {
    fn from(value: MyChar) -> (r: Self) {
        value.0
    }
}

impl FromSpecImpl<MyChar> for char {
    open spec fn obeys_from_spec() -> bool {
        true
    }

    open spec fn from_spec(value: MyChar) -> Self {
        value.0
    }
}

/// One cell of the grid.
///
/// `nr` is the clue number shown in the cell, set where an answer starts.
/// `in_horizontal` and `in_vertical` say whether a horizontal or a vertical
/// answer runs through the cell, `thick_top` and `thick_side` whether its
/// upper or its left wall is drawn thick, and `b` is its letter.
#[derive(Debug, Clone, Copy, PartialEq, Eq)]
pub struct GridCell {
    pub nr: Option<usize>,
    pub in_horizontal: bool,
    pub in_vertical: bool,
    pub thick_top: bool,
    pub thick_side: bool,
    pub b: MyChar,
}

impl Default for GridCell {
    fn default() -> (r: Self)
        ensures
            r == GridCell::blank(),
    {
        GridCell {
            nr: None,
            in_horizontal: false,
            in_vertical: false,
            thick_top: false,
            thick_side: false,
            b: MyChar::default(),
        }
    }
}

impl GridCell {
    /// The cell before anything is written into it.
    pub open spec fn blank() -> GridCell {
        GridCell {
            nr: None,
            in_horizontal: false,
            in_vertical: false,
            thick_top: false,
            thick_side: false,
            b: MyChar('.'),
        }
    }

    /// The flag letters of the token: `t` for a thick upper wall, then `l`
    /// for a thick left wall.
    pub open spec fn flags(self) -> Seq<char> {
        (if self.thick_top {
            seq!['t']
        } else {
            Seq::<char>::empty()
        }) + (if self.thick_side {
            seq!['l']
        } else {
            Seq::<char>::empty()
        })
    }

    /// The clue number as it is written in the token: its numeral, or
    /// nothing.
    pub open spec fn number_text(self) -> Seq<char> {
        match self.nr {
            Some(n) => decimal(n as nat),
            None => Seq::<char>::empty(),
        }
    }

    /// The markup token of the cell: `|[<nr>][f<t><l>]<letter> `.
    pub open spec fn token(self) -> Seq<char> {
        seq!['|', '['] + self.number_text() + seq![']', '[', 'f'] + self.flags() + seq![
            ']',
            self.b.0,
            ' ',
        ]
    }

    /// Renders the cell as its markup token.
    pub fn to_string(&self) -> (s: String)
        ensures
            s@ == self.token(),
    {
        let mut s = String::new();
        s.push('|');
        s.push('[');
        if let Some(i) = self.nr {
            push_decimal(&mut s, i);
        }
        s.push(']');
        s.push('[');
        s.push('f');
        if self.thick_top {
            s.push('t');
        }
        if self.thick_side {
            s.push('l');
        }
        s.push(']');
        s.push(self.b.into());
        s.push(' ');
        s
    }
}

/// The markup token of a grid position: that of its cell, or `|{} ` where
/// the position is blocked.
pub open spec fn slot_token(slot: Option<GridCell>) -> Seq<char> {
    match slot {
        Some(cell) => cell.token(),
        None => seq!['|', '{', '}', ' '],
    }
}

/// The letter shown for a grid position in plain text: that of its cell, or
/// `'.'` where the position is blocked.
pub open spec fn slot_letter(slot: Option<GridCell>) -> char {
    match slot {
        Some(cell) => cell.b.0,
        None => '.',
    }
}

} // verus!
