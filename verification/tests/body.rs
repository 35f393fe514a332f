use rusty_snake::{Body, BodyError, Coords, Direction, MIN_LENGTH};

fn cells_of(pairs: &[(i16, i16)]) -> Vec<Coords> {
    pairs.iter().map(|p| Coords { x: p.0, y: p.1 }).collect()
}

fn body_of(pairs: &[(i16, i16)]) -> Body {
    match Body::from_cells(cells_of(pairs)) {
        Ok(b) => b,
        Err(e) => panic!("no body: {:?}", e),
    }
}

#[test]
fn a_body_has_at_least_three_cells() {
    assert_eq!(MIN_LENGTH, 3);
}

#[test]
fn from_cells_keeps_the_order() {
    let b = body_of(&[(2, 0), (1, 0), (0, 0)]);
    assert_eq!(b.length(), 3);
    assert_eq!(b.head(), Coords { x: 2, y: 0 });
    assert_eq!(b.cell(0), Coords { x: 2, y: 0 });
    assert_eq!(b.cell(1), Coords { x: 1, y: 0 });
    assert_eq!(b.cell(2), Coords { x: 0, y: 0 });
    assert_eq!(b.cells(), cells_of(&[(2, 0), (1, 0), (0, 0)]));
}

#[test]
fn from_cells_refuses_short_bodies() {
    assert_eq!(Body::from_cells(Vec::new()).err(), Some(BodyError::TooShort));
    assert_eq!(Body::from_cells(cells_of(&[(1, 1)])).err(), Some(BodyError::TooShort));
    assert_eq!(Body::from_cells(cells_of(&[(1, 1), (2, 1)])).err(), Some(BodyError::TooShort));
    assert_eq!(Body::from_cells(cells_of(&[(40, 1), (2, 1)])).err(), Some(BodyError::TooShort));
}

#[test]
fn from_cells_refuses_cells_outside_the_grid() {
    let cases: [[(i16, i16); 3]; 4] = [
        [(40, 0), (1, 0), (0, 0)],
        [(2, 0), (1, -1), (0, 0)],
        [(2, 0), (1, 0), (0, 40)],
        [(2, 0), (1, 0), (-1, 0)],
    ];
    for case in cases.iter() {
        assert_eq!(Body::from_cells(cells_of(case)).err(), Some(BodyError::OutOfGrid));
    }
}

#[test]
fn from_cells_accepts_a_cell_twice() {
    let b = body_of(&[(2, 0), (1, 0), (2, 0)]);
    assert_eq!(b.length(), 3);
    assert!(b.overlaps());
}

#[test]
fn seed_lays_three_cells_in_a_line() {
    let b = Body::seed(Coords { x: 10, y: 10 }, Direction::Right);
    assert_eq!(b.cells(), cells_of(&[(12, 10), (11, 10), (10, 10)]));
    let up = Body::seed(Coords { x: 10, y: 10 }, Direction::Up);
    assert_eq!(up.cells(), cells_of(&[(10, 12), (10, 11), (10, 10)]));
}

#[test]
fn seed_wraps_round_the_edge() {
    let b = Body::seed(Coords { x: 39, y: 0 }, Direction::Right);
    assert_eq!(b.cells(), cells_of(&[(1, 0), (0, 0), (39, 0)]));
    assert!(!b.overlaps());
    let down = Body::seed(Coords { x: 3, y: 0 }, Direction::Down);
    assert_eq!(down.cells(), cells_of(&[(3, 38), (3, 39), (3, 0)]));
}

#[test]
fn contains_finds_each_cell_and_no_other() {
    let b = body_of(&[(5, 5), (4, 5), (4, 4), (5, 4)]);
    assert!(b.contains(Coords { x: 5, y: 5 }));
    assert!(b.contains(Coords { x: 4, y: 5 }));
    assert!(b.contains(Coords { x: 4, y: 4 }));
    assert!(b.contains(Coords { x: 5, y: 4 }));
    assert!(!b.contains(Coords { x: 5, y: 6 }));
    assert!(!b.contains(Coords { x: 6, y: 5 }));
    assert!(!b.contains(Coords { x: 4, y: 3 }));
}

#[test]
fn overlaps_sees_a_repeated_cell() {
    assert!(!body_of(&[(5, 5), (4, 5), (4, 4), (5, 4)]).overlaps());
    assert!(body_of(&[(5, 5), (4, 5), (4, 4), (5, 5)]).overlaps());
    assert!(body_of(&[(5, 5), (4, 5), (4, 5), (5, 4)]).overlaps());
    assert!(body_of(&[(5, 5), (4, 5), (4, 4), (4, 4)]).overlaps());
}

#[test]
fn advance_without_growth_keeps_the_length() {
    let mut b = body_of(&[(2, 0), (1, 0), (0, 0)]);
    let old_head = b.head();
    b.advance(Direction::Up, false);
    assert_eq!(b.length(), 3);
    assert_eq!(b.head(), old_head.add(Direction::Up));
    assert_eq!(b.cells(), cells_of(&[(2, 1), (2, 0), (1, 0)]));
}

#[test]
fn advance_with_growth_adds_one_cell_and_keeps_the_tail() {
    let mut b = body_of(&[(2, 0), (1, 0), (0, 0)]);
    let old_head = b.head();
    b.advance(Direction::Right, true);
    assert_eq!(b.length(), 4);
    assert_eq!(b.head(), old_head.add(Direction::Right));
    assert_eq!(b.cell(3), Coords { x: 0, y: 0 });
    assert_eq!(b.cells(), cells_of(&[(3, 0), (2, 0), (1, 0), (0, 0)]));
}

#[test]
fn advance_wraps_the_head() {
    let mut b = body_of(&[(0, 0), (1, 0), (2, 0)]);
    b.advance(Direction::Left, false);
    assert_eq!(b.cells(), cells_of(&[(39, 0), (0, 0), (1, 0)]));
    b.advance(Direction::Down, true);
    assert_eq!(b.cells(), cells_of(&[(39, 39), (39, 0), (0, 0), (1, 0)]));
}

#[test]
fn advance_does_not_look_for_collisions() {
    let mut b = body_of(&[(1, 0), (0, 0), (39, 0)]);
    b.advance(Direction::Left, false);
    assert_eq!(b.length(), 3);
    assert_eq!(b.cells(), cells_of(&[(0, 0), (1, 0), (0, 0)]));
}

#[test]
fn many_steps_round_the_grid_come_back() {
    let mut b = body_of(&[(2, 7), (1, 7), (0, 7)]);
    for _ in 0..40 {
        b.advance(Direction::Right, false);
    }
    assert_eq!(b.cells(), cells_of(&[(2, 7), (1, 7), (0, 7)]));
}
