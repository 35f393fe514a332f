use rand::{SeedableRng, StdRng};
use rusty_snake::{free_cells, spawn, Body, Coords, GRID_CELLS, GRID_SIZE};

fn seeded(seed: usize) -> StdRng {
    let words = [seed, 5, 6, 7];
    SeedableRng::from_seed(&words[..])
}

/// The cells of the grid along a path that runs through the rows in turn, to and fro.
fn winding_path() -> Vec<Coords> {
    let mut path = Vec::new();
    for y in 0..GRID_SIZE {
        for k in 0..GRID_SIZE {
            let x = if y % 2 == 0 { k } else { GRID_SIZE - 1 - k };
            path.push(Coords { x, y });
        }
    }
    path
}

fn body_of(cells: Vec<Coords>) -> Body {
    match Body::from_cells(cells) {
        Ok(b) => b,
        Err(e) => panic!("no body: {:?}", e),
    }
}

#[test]
fn the_grid_has_1600_cells() {
    assert_eq!(GRID_CELLS, 1600);
    assert_eq!(winding_path().len(), GRID_CELLS);
}

#[test]
fn free_cells_are_all_the_others_row_by_row() {
    let body = body_of(vec![Coords { x: 2, y: 0 }, Coords { x: 1, y: 0 }, Coords { x: 0, y: 0 }]);
    let free = free_cells(&body);
    assert_eq!(free.len(), GRID_CELLS - 3);
    assert_eq!(free[0], Coords { x: 3, y: 0 });
    assert_eq!(free[36], Coords { x: 39, y: 0 });
    assert_eq!(free[37], Coords { x: 0, y: 1 });
    assert_eq!(free[GRID_CELLS - 4], Coords { x: 39, y: 39 });
    for c in free.iter() {
        assert!(c.is_in_grid());
        assert!(!body.contains(*c));
    }
}

#[test]
fn free_cells_count_a_repeated_cell_once() {
    let body = body_of(vec![Coords { x: 1, y: 1 }, Coords { x: 1, y: 1 }, Coords { x: 1, y: 1 }]);
    assert_eq!(free_cells(&body).len(), GRID_CELLS - 1);
}

#[test]
fn free_cells_of_a_nearly_full_grid() {
    let mut path = winding_path();
    let last = path.pop();
    let before_last = path.pop();
    let body = body_of(path);
    assert_eq!(last, Some(Coords { x: 0, y: 39 }));
    assert_eq!(before_last, Some(Coords { x: 1, y: 39 }));
    assert_eq!(free_cells(&body), vec![Coords { x: 0, y: 39 }, Coords { x: 1, y: 39 }]);
}

#[test]
fn spawn_avoids_the_body() {
    let body = body_of(vec![Coords { x: 2, y: 0 }, Coords { x: 1, y: 0 }, Coords { x: 0, y: 0 }]);
    let mut rng = seeded(3);
    for _ in 0..300 {
        match spawn(&body, &mut rng) {
            Some(c) => {
                assert!(c.is_in_grid());
                assert!(!body.contains(c));
            }
            None => panic!("a free cell was there"),
        }
    }
}

#[test]
fn spawn_reaches_more_than_one_cell() {
    let body = body_of(vec![Coords { x: 2, y: 0 }, Coords { x: 1, y: 0 }, Coords { x: 0, y: 0 }]);
    let mut rng = seeded(4);
    let first = spawn(&body, &mut rng);
    let mut other = false;
    for _ in 0..100 {
        other = other || spawn(&body, &mut rng) != first;
    }
    assert!(other);
}

#[test]
fn spawn_finds_the_two_free_cells() {
    let mut path = winding_path();
    path.truncate(GRID_CELLS - 2);
    let body = body_of(path);
    let mut rng = seeded(5);
    let mut seen_first = false;
    let mut seen_second = false;
    for _ in 0..200 {
        match spawn(&body, &mut rng) {
            Some(c) if c == (Coords { x: 0, y: 39 }) => seen_first = true,
            Some(c) if c == (Coords { x: 1, y: 39 }) => seen_second = true,
            other => panic!("not a free cell: {:?}", other),
        }
    }
    assert!(seen_first && seen_second);
}

#[test]
fn spawn_finds_the_last_free_cell() {
    let mut path = winding_path();
    path.truncate(GRID_CELLS - 1);
    let body = body_of(path);
    let mut rng = seeded(6);
    for _ in 0..20 {
        assert_eq!(spawn(&body, &mut rng), Some(Coords { x: 0, y: 39 }));
    }
}

#[test]
fn spawn_has_nothing_on_a_full_grid() {
    let body = body_of(winding_path());
    let mut rng = seeded(7);
    assert_eq!(free_cells(&body), Vec::new());
    assert_eq!(spawn(&body, &mut rng), None);
}
