use life_grid::compose::place;
use life_grid::engine::advance;
use life_grid::grid::create_empty;
use life_grid::grid::Error;
use life_grid::grid::Grid;
use life_grid::grid::ALIVE;
use life_grid::grid::DEAD;
use life_grid::pattern::named_pattern;
use life_grid::pattern::GUN_HEIGHT;
use life_grid::pattern::GUN_WIDTH;
use life_grid::random::create_random;

fn grid_from(rows: Vec<Vec<u8>>) -> Grid {
    Grid {
        width: rows[0].len(),
        height: rows.len(),
        cells: rows,
    }
}

fn population(g: &Grid) -> usize {
    g.cells
        .iter()
        .map(|r| r.iter().filter(|&&c| c == ALIVE).count())
        .sum()
}

#[test]
fn lone_center_cell_dies() {
    let g = grid_from(vec![vec![0, 0, 0], vec![0, 1, 0], vec![0, 0, 0]]);
    let next = advance(&g);
    for y in 0..3 {
        for x in 0..3 {
            assert_eq!(next.cell(y, x), DEAD);
        }
    }
}

#[test]
fn l_tromino_births_fourth_corner() {
    let g = grid_from(vec![
        vec![1, 1, 0, 0],
        vec![1, 0, 0, 0],
        vec![0, 0, 0, 0],
        vec![0, 0, 0, 0],
    ]);
    let next = advance(&g);
    assert_eq!(next.cell(1, 1), ALIVE);
    for y in 0..4 {
        for x in 0..4 {
            if y > 2 || x > 2 {
                assert_eq!(next.cell(y, x), DEAD);
            }
        }
    }
}

#[test]
fn block_is_still_life() {
    let g = grid_from(vec![
        vec![0, 0, 0, 0],
        vec![0, 1, 1, 0],
        vec![0, 1, 1, 0],
        vec![0, 0, 0, 0],
    ]);
    let mut current = g.clone();
    for _ in 0..5 {
        current = advance(&current);
        assert_eq!(current, g);
    }
}

#[test]
fn corner_cell_does_not_wrap_around() {
    let mut rows = vec![vec![0u8; 6]; 4];
    rows[0][0] = ALIVE;
    let g = grid_from(rows);
    let next = advance(&g);
    for y in 0..4 {
        for x in 0..6 {
            assert_eq!(next.cell(y, x), DEAD);
        }
    }
}

#[test]
fn place_does_not_mutate_inputs() {
    let pattern = grid_from(vec![vec![1, 0], vec![1, 1]]);
    let base = grid_from(vec![vec![0u8; 5]; 5]);
    let pattern_before = pattern.clone();
    let base_before = base.clone();
    let placed = place(&pattern, &base, 1, 2).unwrap();
    assert_eq!(pattern, pattern_before);
    assert_eq!(base, base_before);
    assert_eq!(placed.cell(1, 2), ALIVE);
    assert_eq!(placed.cell(1, 3), DEAD);
    assert_eq!(placed.cell(2, 2), ALIVE);
    assert_eq!(placed.cell(2, 3), ALIVE);
}

#[test]
fn place_axis_convention() {
    // offset_x shifts rows downward, offset_y shifts columns rightward:
    // a one-row, two-column pattern placed with offset_x = 2, offset_y = 0
    // lands in row 2, columns 0 and 1.
    let pattern = grid_from(vec![vec![1, 1]]);
    let base = grid_from(vec![vec![0u8; 4]; 4]);
    let placed = place(&pattern, &base, 2, 0).unwrap();
    assert_eq!(placed.cell(2, 0), ALIVE);
    assert_eq!(placed.cell(2, 1), ALIVE);
    assert_eq!(population(&placed), 2);
}

#[test]
fn place_ignores_base_contents() {
    let pattern = grid_from(vec![vec![1]]);
    let mut rows = vec![vec![0u8; 3]; 3];
    rows[2][2] = ALIVE;
    let base = grid_from(rows);
    let placed = place(&pattern, &base, 0, 0).unwrap();
    assert_eq!(placed.cell(0, 0), ALIVE);
    assert_eq!(placed.cell(2, 2), DEAD);
    assert_eq!(population(&placed), 1);
}

#[test]
fn place_rejects_out_of_bounds() {
    let pattern = grid_from(vec![vec![1, 1], vec![1, 1]]);
    let base = grid_from(vec![vec![0u8; 4]; 4]);
    assert_eq!(place(&pattern, &base, 3, 0), Err(Error::PlacementOutOfBounds));
    assert_eq!(place(&pattern, &base, 0, 3), Err(Error::PlacementOutOfBounds));
    // An exact fit is accepted.
    assert!(place(&pattern, &base, 2, 2).is_ok());
}

#[test]
fn create_empty_rejects_zero_dimensions() {
    assert_eq!(create_empty(0, 5).err(), Some(Error::ZeroDimension));
    assert_eq!(create_empty(5, 0).err(), Some(Error::ZeroDimension));
    assert_eq!(create_empty(0, 0).err(), Some(Error::ZeroDimension));
}

#[test]
fn create_empty_is_all_dead() {
    let g = create_empty(7, 3).unwrap();
    assert_eq!(g.width, 7);
    assert_eq!(g.height, 3);
    assert_eq!(g.cells.len(), 3);
    for row in &g.cells {
        assert_eq!(row.len(), 7);
    }
    assert_eq!(population(&g), 0);
}

#[test]
fn create_random_dimensions_and_cell_values() {
    let mut rng = rand::thread_rng();
    let g = create_random(20, 10, &mut rng).unwrap();
    assert_eq!(g.width, 20);
    assert_eq!(g.height, 10);
    assert_eq!(g.cells.len(), 10);
    for row in &g.cells {
        assert_eq!(row.len(), 20);
        for &c in row {
            assert!(c == DEAD || c == ALIVE);
        }
    }
    assert_eq!(create_random(0, 10, &mut rng).err(), Some(Error::ZeroDimension));
}

#[test]
fn unknown_pattern_is_rejected() {
    assert_eq!(named_pattern("blinker").err(), Some(Error::UnknownPattern));
    assert_eq!(named_pattern("").err(), Some(Error::UnknownPattern));
    assert_eq!(named_pattern("GLIDER_GUN").err(), Some(Error::UnknownPattern));
}

#[test]
fn gun_pattern_matches_coordinate_table() {
    let p = named_pattern("glider_gun").unwrap();
    assert_eq!(p.height, GUN_HEIGHT);
    assert_eq!(p.width, GUN_WIDTH);
    let coords: Vec<(usize, usize)> = vec![
        (1, 25),
        (2, 23),
        (2, 25),
        (3, 13),
        (3, 14),
        (3, 21),
        (3, 22),
        (3, 35),
        (3, 36),
        (4, 12),
        (4, 16),
        (4, 21),
        (4, 22),
        (4, 35),
        (4, 36),
        (5, 1),
        (5, 2),
        (5, 11),
        (5, 17),
        (5, 21),
        (5, 22),
        (6, 1),
        (6, 2),
        (6, 11),
        (6, 15),
        (6, 17),
        (6, 18),
        (6, 23),
        (6, 25),
        (7, 11),
        (7, 17),
        (7, 25),
        (8, 12),
        (8, 16),
        (9, 13),
        (9, 14),
    ];
    for &(y, x) in &coords {
        assert_eq!(p.cell(y, x), ALIVE, "expected alive at ({}, {})", y, x);
    }
    assert_eq!(population(&p), coords.len());
}

#[test]
fn gun_emits_a_detached_glider_after_thirty_generations() {
    let gun = named_pattern("glider_gun").unwrap();
    let base = create_empty(80, 60).unwrap();
    let seeded = place(&gun, &base, 20, 20).unwrap();
    assert_eq!(population(&seeded), 36);
    let mut current = seeded.clone();
    for _ in 0..30 {
        current = advance(&current);
    }
    // The gun has period 30: its own cells are back to the seeded state,
    // and exactly one five-cell glider has been emitted beyond them.
    for y in 0..GUN_HEIGHT {
        for x in 0..GUN_WIDTH {
            assert_eq!(
                current.cell(20 + y, 20 + x),
                seeded.cell(20 + y, 20 + x),
                "gun cell differs at ({}, {})",
                y,
                x
            );
        }
    }
    assert_eq!(population(&current), 36 + 5);
    let mut outside: usize = 0;
    for y in 0..60 {
        for x in 0..80 {
            let in_gun = (20..20 + GUN_HEIGHT).contains(&y) && (20..20 + GUN_WIDTH).contains(&x);
            if !in_gun && current.cell(y, x) == ALIVE {
                outside += 1;
            }
        }
    }
    assert_eq!(outside, 5);
}
