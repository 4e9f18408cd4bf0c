use crsw::zeit::cell::{GridCell, MyChar};
use crsw::zeit::construct::{build_grid, BuildError};
use crsw::zeit::game::ShadowGame;
use crsw::zeit::grid::Grid;
use crsw::zeit::placement::{Direction, Question};

fn word(nr: usize, row: usize, col: usize, direction: Direction, answer: &str) -> Question {
    Question {
        id: 100 + nr,
        game_id: 7,
        nr,
        question: format!("clue {}", nr),
        answer: answer.to_string(),
        xc: col,
        yc: row,
        direction,
        description: format!("because {}", nr),
        length: answer.chars().count(),
    }
}

fn across(nr: usize, row: usize, col: usize, answer: &str) -> Question {
    word(nr, row, col, Direction::Horizontal, answer)
}

fn down(nr: usize, row: usize, col: usize, answer: &str) -> Question {
    word(nr, row, col, Direction::Vertical, answer)
}

fn cell(nr: Option<usize>, h: bool, v: bool, top: bool, side: bool, b: char) -> Option<GridCell> {
    Some(GridCell {
        nr,
        in_horizontal: h,
        in_vertical: v,
        thick_top: top,
        thick_side: side,
        b: MyChar(b),
    })
}

/// Four words around a blocked centre.
fn square() -> Vec<Question> {
    vec![
        across(1, 1, 1, "CAT"),
        down(2, 1, 1, "CAR"),
        down(3, 1, 3, "TEN"),
        across(4, 3, 1, "RUN"),
    ]
}

/// Whether the word covers the position (`r`, `c`), both counted from 0.
fn covers(q: &Question, r: usize, c: usize) -> bool {
    match q.direction {
        Direction::Horizontal => q.yc - 1 == r && q.xc - 1 <= c && c < q.xc - 1 + q.length,
        Direction::Vertical => q.xc - 1 == c && q.yc - 1 <= r && r < q.yc - 1 + q.length,
    }
}

fn size(grid: &Grid) -> (usize, usize) {
    (grid.0.len(), grid.0[0].len())
}

#[test]
fn empty_list_is_empty_input() {
    let qs: Vec<Question> = Vec::new();
    assert_eq!(build_grid(&qs).unwrap_err(), BuildError::EmptyInput);
}

#[test]
fn empty_puzzle_has_no_grid() {
    let shadow = ShadowGame {
        id: 1,
        name: String::from("empty"),
        game_nr: String::from("0"),
        is_contest: false,
        release_date: String::new(),
        additional_info: String::new(),
        questions: Vec::new(),
    };
    assert_eq!(shadow.construct_grid().unwrap_err(), BuildError::EmptyInput);
}

#[test]
fn lone_horizontal_word_asks_for_no_row_of_its_own() {
    // A horizontal word asks only for the rows above it, so a single word
    // in row 1 asks for a grid without rows and does not fit it.
    let qs = vec![across(1, 1, 1, "CAT")];
    assert_eq!(build_grid(&qs).unwrap_err(), BuildError::OutOfBounds);
}

#[test]
fn lone_vertical_word_asks_for_no_column_of_its_own() {
    let qs = vec![down(1, 1, 1, "CAT")];
    assert_eq!(build_grid(&qs).unwrap_err(), BuildError::OutOfBounds);
}

#[test]
fn horizontal_word_with_a_one_letter_crossing() {
    let qs = vec![across(1, 1, 1, "CAT"), down(2, 1, 3, "T")];
    let grid = build_grid(&qs).unwrap();
    assert_eq!(size(&grid), (1, 3));
    assert_eq!(
        grid.0,
        vec![vec![
            cell(Some(1), true, false, true, true, 'C'),
            cell(None, true, false, true, false, 'A'),
            cell(Some(2), true, true, true, false, 'T'),
        ]]
    );
}

#[test]
fn crossing_words_share_the_first_cell() {
    let qs = vec![across(1, 1, 1, "CAT"), down(2, 1, 1, "CAR")];
    let grid = build_grid(&qs).unwrap();
    assert_eq!(size(&grid), (3, 3));
    let first = grid.0[0][0].unwrap();
    assert!(first.in_horizontal && first.in_vertical);
    assert_eq!(first.nr, Some(2));
    assert!(first.thick_top && first.thick_side);
    assert_eq!(first.b.0, 'C');
    assert_eq!(
        grid.0,
        vec![
            vec![
                cell(Some(2), true, true, true, true, 'C'),
                cell(None, true, false, true, false, 'A'),
                cell(None, true, false, true, false, 'T'),
            ],
            vec![cell(None, false, true, false, true, 'A'), None, None],
            vec![cell(None, false, true, false, true, 'R'), None, None],
        ]
    );
}

#[test]
fn vertical_number_wins_whatever_the_order_of_the_list() {
    let qs = vec![down(2, 1, 1, "CAR"), across(1, 1, 1, "CAT")];
    let grid = build_grid(&qs).unwrap();
    let first = grid.0[0][0].unwrap();
    assert_eq!(first.nr, Some(2));
    assert!(first.thick_top && first.thick_side);
}

#[test]
fn square_of_four_words() {
    let grid = build_grid(&square()).unwrap();
    assert_eq!(
        grid.0,
        vec![
            vec![
                cell(Some(2), true, true, true, true, 'C'),
                cell(None, true, false, true, false, 'A'),
                cell(Some(3), true, true, true, false, 'T'),
            ],
            vec![
                cell(None, false, true, false, true, 'A'),
                None,
                cell(None, false, true, false, true, 'E'),
            ],
            vec![
                cell(Some(4), true, true, false, true, 'R'),
                cell(None, true, false, true, false, 'U'),
                cell(None, true, true, false, false, 'N'),
            ],
        ]
    );
}

#[test]
fn size_is_the_greatest_extent() {
    // rows: vertical words span 2 - 1 + 4 = 5 and 1 - 1 + 2 = 2, the
    // horizontal word lies below 3 rows; columns: the horizontal word spans
    // 2 - 1 + 5 = 6, the vertical words lie right of 2 and of 5 columns.
    let qs = vec![
        down(1, 2, 3, "ABCD"),
        across(2, 4, 2, "EFCHI"),
        down(3, 1, 6, "XI"),
    ];
    let grid = build_grid(&qs).unwrap();
    assert_eq!(grid.0.len(), 5);
    for row in grid.0.iter() {
        assert_eq!(row.len(), 6);
    }
}

#[test]
fn wide_grid_has_the_columns_of_the_longest_span() {
    let qs = vec![across(1, 1, 1, "ABCDEFGHIJ"), down(2, 1, 10, "JK")];
    let grid = build_grid(&qs).unwrap();
    assert_eq!(size(&grid), (2, 10));
}

#[test]
fn building_twice_gives_the_same_grid() {
    let first = build_grid(&square()).unwrap();
    let second = build_grid(&square()).unwrap();
    assert_eq!(first.0, second.0);
    let qs = vec![across(1, 1, 1, "CAT")];
    assert_eq!(build_grid(&qs).unwrap_err(), build_grid(&qs).unwrap_err());
}

#[test]
fn cells_lie_in_answers_and_blocked_positions_in_none() {
    let qs = vec![
        across(1, 1, 1, "HOUSE"),
        down(2, 1, 1, "HAT"),
        down(3, 1, 5, "EEL"),
        across(4, 3, 1, "TOTAL"),
        down(5, 3, 3, "TIP"),
    ];
    let grid = build_grid(&qs).unwrap();
    assert_eq!(size(&grid), (5, 5));
    for (r, row) in grid.0.iter().enumerate() {
        for (c, slot) in row.iter().enumerate() {
            let h = qs
                .iter()
                .any(|q| q.direction == Direction::Horizontal && covers(q, r, c));
            let v = qs
                .iter()
                .any(|q| q.direction == Direction::Vertical && covers(q, r, c));
            match slot {
                Some(cell) => {
                    assert!(cell.in_horizontal || cell.in_vertical);
                    assert_eq!(cell.in_horizontal, h);
                    assert_eq!(cell.in_vertical, v);
                }
                None => assert!(!h && !v),
            }
        }
    }
}

#[test]
fn single_membership_draws_the_wall_across() {
    let qs = vec![
        across(1, 1, 1, "HOUSE"),
        down(2, 1, 1, "HAT"),
        down(3, 1, 5, "EEL"),
        across(4, 3, 1, "TOTAL"),
        down(5, 3, 3, "TIP"),
    ];
    let grid = build_grid(&qs).unwrap();
    let mut single = 0;
    for row in grid.0.iter() {
        for slot in row.iter() {
            if let Some(cell) = slot {
                if cell.in_horizontal && !cell.in_vertical {
                    assert!(cell.thick_top);
                    single += 1;
                }
                if cell.in_vertical && !cell.in_horizontal {
                    assert!(cell.thick_side);
                    single += 1;
                }
            }
        }
    }
    assert_eq!(single, 9);
    // (3, 3): both answers run through it, "TIP" starts there, "TOTAL" does not.
    let crossing = grid.0[2][2].unwrap();
    assert!(crossing.in_horizontal && crossing.in_vertical);
    assert!(crossing.thick_top && !crossing.thick_side);
    assert_eq!(crossing.nr, Some(5));
}

#[test]
fn later_writer_wins_where_answers_disagree() {
    let qs = vec![across(1, 1, 1, "CAT"), down(2, 1, 1, "XYZ")];
    let grid = build_grid(&qs).unwrap();
    assert_eq!(grid.0[0][0].unwrap().b.0, 'X');
    let qs = vec![down(2, 1, 1, "XYZ"), across(1, 1, 1, "CAT")];
    let grid = build_grid(&qs).unwrap();
    assert_eq!(grid.0[0][0].unwrap().b.0, 'X');
    // Among words of one direction, the later one of the list wins.
    let qs = vec![across(1, 1, 1, "CAT"), across(2, 1, 2, "OW"), down(3, 1, 3, "WE")];
    let grid = build_grid(&qs).unwrap();
    let row: String = grid.0[0].iter().map(|slot| slot.unwrap().b.0).collect();
    assert_eq!(row, "COW");
    assert_eq!(grid.0[0][1].unwrap().nr, Some(2));
}

#[test]
fn row_zero_is_out_of_bounds() {
    let qs = vec![across(1, 1, 1, "CAT"), down(2, 0, 1, "CAR")];
    assert_eq!(build_grid(&qs).unwrap_err(), BuildError::OutOfBounds);
}

#[test]
fn column_zero_is_out_of_bounds() {
    let qs = vec![across(1, 1, 0, "CAT"), down(2, 1, 1, "CAR")];
    assert_eq!(build_grid(&qs).unwrap_err(), BuildError::OutOfBounds);
}

#[test]
fn horizontal_word_in_the_lowest_row_is_out_of_bounds() {
    // The vertical word asks for 3 rows, the horizontal one in row 4 only
    // for the 3 rows above it.
    let qs = vec![down(1, 1, 1, "CAR"), across(2, 4, 1, "RAT")];
    assert_eq!(build_grid(&qs).unwrap_err(), BuildError::OutOfBounds);
}

#[test]
fn vertical_word_right_of_all_spans_is_out_of_bounds() {
    let qs = vec![across(1, 1, 1, "CAT"), down(2, 1, 4, "AT")];
    assert_eq!(build_grid(&qs).unwrap_err(), BuildError::OutOfBounds);
}

#[test]
fn answer_shorter_than_declared_is_out_of_bounds() {
    let mut short = down(2, 1, 1, "CA");
    short.length = 3;
    let qs = vec![across(1, 1, 1, "CAT"), short];
    assert_eq!(build_grid(&qs).unwrap_err(), BuildError::OutOfBounds);
}

#[test]
fn answer_longer_than_declared_is_out_of_bounds() {
    let mut long = down(2, 1, 1, "CARS");
    long.length = 3;
    let qs = vec![across(1, 1, 1, "CAT"), long];
    assert_eq!(build_grid(&qs).unwrap_err(), BuildError::OutOfBounds);
}

#[test]
fn extent_beyond_the_machine_is_out_of_bounds() {
    let mut huge = down(2, 2, 1, "CAR");
    huge.length = usize::MAX;
    let qs = vec![across(1, 1, 1, "CAT"), huge];
    assert_eq!(build_grid(&qs).unwrap_err(), BuildError::OutOfBounds);
    let mut huge = across(1, 1, 3, "CAT");
    huge.length = usize::MAX - 1;
    let qs = vec![huge, down(2, 1, 1, "CAR")];
    assert_eq!(build_grid(&qs).unwrap_err(), BuildError::OutOfBounds);
}

#[test]
fn length_counts_characters_not_bytes() {
    let qs = vec![across(1, 1, 1, "ÄÖÜ"), down(2, 1, 1, "ÄRA")];
    let grid = build_grid(&qs).unwrap();
    assert_eq!(size(&grid), (3, 3));
    assert_eq!(grid.0[0][1].unwrap().b.0, 'Ö');
    assert_eq!(grid.0[0][2].unwrap().b.0, 'Ü');
}

#[test]
fn word_without_letters_marks_no_cell() {
    let qs = vec![across(1, 1, 1, "CAT"), down(2, 1, 1, "CAR"), across(3, 2, 2, "")];
    let grid = build_grid(&qs).unwrap();
    assert_eq!(size(&grid), (3, 3));
    assert_eq!(grid.0[1][1], None);
    // Where another answer runs, the number of the empty word stays.
    let qs = vec![across(1, 1, 1, "CAT"), down(2, 1, 1, "CAR"), across(3, 2, 1, "")];
    let grid = build_grid(&qs).unwrap();
    assert_eq!(grid.0[1][0], cell(Some(3), false, true, false, true, 'A'));
}

#[test]
fn default_cell_is_blank() {
    let blank = GridCell::default();
    assert_eq!(blank.nr, None);
    assert!(!blank.in_horizontal && !blank.in_vertical);
    assert!(!blank.thick_top && !blank.thick_side);
    assert_eq!(blank.b, MyChar('.'));
    assert_eq!(MyChar::default(), MyChar('.'));
    assert_eq!(MyChar::from('x'), MyChar('x'));
    assert_eq!(char::from(MyChar('y')), 'y');
}

#[test]
fn errors_say_what_went_wrong() {
    assert_eq!(
        BuildError::EmptyInput.to_string(),
        "The puzzle has no questions, so its grid has no size"
    );
    assert_eq!(
        BuildError::OutOfBounds.to_string(),
        "A question does not lie within the grid of the puzzle"
    );
}

#[test]
fn copy_of_a_grid_has_the_same_cells() {
    let grid = build_grid(&square()).unwrap();
    let copy = grid.clone();
    assert_eq!(copy.0, grid.0);
    assert_eq!(Grid(Vec::new()).clone().0, Vec::<Vec<Option<GridCell>>>::new());
}
