use crsw::zeit::cell::{GridCell, MyChar};
use crsw::zeit::construct::{build_grid, BuildError};
use crsw::zeit::placement::{Direction, Question};

/// A small generator of numbers, the same on every run.
struct Numbers(u64);

impl Numbers {
    fn next(&mut self, below: u64) -> usize {
        self.0 = self
            .0
            .wrapping_mul(6364136223846793005)
            .wrapping_add(1442695040888963407);
        ((self.0 >> 33) % below) as usize
    }
}

fn word(nr: usize, row: usize, col: usize, direction: Direction, answer: String) -> Question {
    Question {
        id: nr,
        game_id: 1,
        nr,
        question: String::new(),
        length: answer.chars().count(),
        answer,
        xc: col,
        yc: row,
        direction,
        description: String::new(),
    }
}

fn letters(numbers: &mut Numbers, length: usize) -> String {
    (0..length)
        .map(|_| (b'A' + numbers.next(26) as u8) as char)
        .collect()
}

fn covers(q: &Question, r: usize, c: usize) -> bool {
    match q.direction {
        Direction::Horizontal => q.yc == r + 1 && q.xc <= c + 1 && c + 1 < q.xc + q.length,
        Direction::Vertical => q.xc == c + 1 && q.yc <= r + 1 && r + 1 < q.yc + q.length,
    }
}

fn letter(q: &Question, r: usize, c: usize) -> char {
    let at = match q.direction {
        Direction::Horizontal => c + 1 - q.xc,
        Direction::Vertical => r + 1 - q.yc,
    };
    q.answer.chars().nth(at).unwrap()
}

/// The grid as the rule for a single position gives it.
fn by_the_rule(qs: &Vec<Question>) -> Result<Vec<Vec<Option<GridCell>>>, BuildError> {
    if qs.is_empty() {
        return Err(BuildError::EmptyInput);
    }
    let rows = qs
        .iter()
        .map(|q| match q.direction {
            Direction::Vertical => q.yc as i128 - 1 + q.length as i128,
            Direction::Horizontal => q.yc as i128 - 1,
        })
        .max()
        .unwrap();
    let cols = qs
        .iter()
        .map(|q| match q.direction {
            Direction::Horizontal => q.xc as i128 - 1 + q.length as i128,
            Direction::Vertical => q.xc as i128 - 1,
        })
        .max()
        .unwrap();
    let fit = qs.iter().all(|q| {
        q.yc >= 1
            && q.xc >= 1
            && q.yc as i128 <= rows
            && q.xc as i128 <= cols
            && q.answer.chars().count() == q.length
    });
    if !fit {
        return Err(BuildError::OutOfBounds);
    }
    let mut grid = Vec::new();
    for r in 0..rows as usize {
        let mut row = Vec::new();
        for c in 0..cols as usize {
            let of = |d: Direction| qs.iter().filter(move |q| q.direction == d);
            let h = of(Direction::Horizontal).filter(|q| covers(q, r, c)).last();
            let v = of(Direction::Vertical).filter(|q| covers(q, r, c)).last();
            let starts = |q: &&Question| q.yc == r + 1 && q.xc == c + 1;
            let hs = of(Direction::Horizontal).filter(starts).last();
            let vs = of(Direction::Vertical).filter(starts).last();
            row.push(if h.is_none() && v.is_none() {
                None
            } else {
                Some(GridCell {
                    nr: vs.or(hs).map(|q| q.nr),
                    in_horizontal: h.is_some(),
                    in_vertical: v.is_some(),
                    thick_top: vs.is_some() || v.is_none(),
                    thick_side: hs.is_some() || h.is_none(),
                    b: MyChar(letter(v.or(h).unwrap(), r, c)),
                })
            });
        }
        grid.push(row);
    }
    Ok(grid)
}

#[test]
fn built_grids_follow_the_rule_for_each_position() {
    let mut numbers = Numbers(2023);
    let mut built = 0;
    let mut refused = 0;
    for round in 0..400 {
        let mut qs = Vec::new();
        if round % 4 != 0 {
            // A frame that makes room for what follows.
            let height = 3 + numbers.next(5);
            let width = 3 + numbers.next(5);
            qs.push(word(90, 1, 1, Direction::Vertical, letters(&mut numbers, height)));
            qs.push(word(91, 1, 1, Direction::Horizontal, letters(&mut numbers, width)));
        }
        for nr in 0..numbers.next(7) {
            let direction = if numbers.next(2) == 0 {
                Direction::Horizontal
            } else {
                Direction::Vertical
            };
            let row = numbers.next(8);
            let col = numbers.next(8);
            let length = numbers.next(5);
            qs.push(word(nr, row, col, direction, letters(&mut numbers, length)));
        }
        if round % 7 == 0 && !qs.is_empty() {
            let at = numbers.next(qs.len() as u64);
            qs[at].length += 1;
        }
        let expected = by_the_rule(&qs);
        match build_grid(&qs) {
            Ok(grid) => {
                assert_eq!(Ok(grid.0), expected, "round {}", round);
                built += 1;
            }
            Err(e) => {
                assert_eq!(Err(e), expected, "round {}", round);
                refused += 1;
            }
        }
    }
    assert!(built >= 40, "only {} grids were built", built);
    assert!(refused >= 40, "only {} lists were refused", refused);
}
