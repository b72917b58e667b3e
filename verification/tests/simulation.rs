use life3d::engine::apply_rule;
use life3d::lattice::live_neighbors;
use life3d::Cell;
use life3d::CellState;
use life3d::GameOfLife;
use life3d::Grid;
use life3d::LatticeError;
use life3d::Position;

fn all_states_equal(a: &Grid, b: &Grid, w: i32, h: i32, d: i32) -> bool {
    for x in 0..w {
        for y in 0..h {
            for z in 0..d {
                let p = Position::new(x, y, z);
                let sa = a.get_cell(&p).unwrap().state;
                let sb = b.get_cell(&p).unwrap().state;
                if sa != sb {
                    return false;
                }
            }
        }
    }
    true
}

fn copy_of(src: &Grid, w: i32, h: i32, d: i32) -> Grid {
    let mut dst = Grid::filled(w, h, d, CellState::Dead).unwrap();
    for x in 0..w {
        for y in 0..h {
            for z in 0..d {
                let p = Position::new(x, y, z);
                dst.get_cell_mut(&p).state = src.get_cell(&p).unwrap().state;
            }
        }
    }
    dst
}

#[test]
fn position_and_cell_accessors() {
    let p = Position::new(3, -2, 7);
    assert_eq!(p.x, 3);
    assert_eq!(p.y, -2);
    assert_eq!(p.z, 7);
    assert!(Cell::new(CellState::Alive).is_alive());
    assert!(!Cell::new(CellState::Dead).is_alive());
}

#[test]
fn create_covers_box_and_nothing_more() {
    let g = Grid::new(2, 3, 4).unwrap();
    for x in 0..2 {
        for y in 0..3 {
            for z in 0..4 {
                assert!(g.get_cell(&Position::new(x, y, z)).is_some());
            }
        }
    }
    assert!(g.get_cell(&Position::new(-1, 0, 0)).is_none());
    assert!(g.get_cell(&Position::new(2, 0, 0)).is_none());
    assert!(g.get_cell(&Position::new(0, 3, 0)).is_none());
    assert!(g.get_cell(&Position::new(0, 0, 4)).is_none());
    assert!(g.get_cell(&Position::new(100, 100, 100)).is_none());
}

#[test]
fn nonpositive_dimensions_are_rejected() {
    assert_eq!(Grid::new(0, 3, 3).unwrap_err(), LatticeError::NonPositiveDimension);
    assert_eq!(Grid::new(3, -1, 3).unwrap_err(), LatticeError::NonPositiveDimension);
    assert_eq!(Grid::new(3, 3, 0).unwrap_err(), LatticeError::NonPositiveDimension);
    assert_eq!(
        Grid::filled(-2, 1, 1, CellState::Alive).unwrap_err(),
        LatticeError::NonPositiveDimension
    );
}

#[test]
fn rule_literal_cases() {
    assert_eq!(apply_rule(CellState::Alive, 4), CellState::Alive);
    assert_eq!(apply_rule(CellState::Alive, 5), CellState::Alive);
    assert_eq!(apply_rule(CellState::Alive, 3), CellState::Dead);
    assert_eq!(apply_rule(CellState::Alive, 6), CellState::Dead);
    assert_eq!(apply_rule(CellState::Dead, 5), CellState::Alive);
    assert_eq!(apply_rule(CellState::Dead, 4), CellState::Dead);
    assert_eq!(apply_rule(CellState::Dead, 6), CellState::Dead);
    assert_eq!(apply_rule(CellState::Dead, 0), CellState::Dead);
}

#[test]
fn neighbor_count_stays_within_bounds() {
    let g = Grid::new(4, 4, 4).unwrap();
    for x in 0..4 {
        for y in 0..4 {
            for z in 0..4 {
                let n = live_neighbors(&g, &Position::new(x, y, z));
                assert!(0 <= n && n <= 26);
            }
        }
    }
    assert_eq!(live_neighbors(&g, &Position::new(-50, -50, -50)), 0);
}

#[test]
fn neighbor_count_ignores_center() {
    let mut g = Grid::filled(3, 3, 3, CellState::Dead).unwrap();
    let center = Position::new(1, 1, 1);
    assert_eq!(live_neighbors(&g, &center), 0);
    g.get_cell_mut(&center).state = CellState::Alive;
    assert_eq!(live_neighbors(&g, &center), 0);
}

#[test]
fn corner_has_at_most_seven_neighbors() {
    let g = Grid::filled(3, 3, 3, CellState::Alive).unwrap();
    assert_eq!(live_neighbors(&g, &Position::new(0, 0, 0)), 7);
    assert_eq!(live_neighbors(&g, &Position::new(2, 2, 2)), 7);
    assert_eq!(live_neighbors(&g, &Position::new(0, 2, 0)), 7);
}

#[test]
fn fully_alive_center_dies() {
    let mut g = Grid::filled(3, 3, 3, CellState::Alive).unwrap();
    assert_eq!(live_neighbors(&g, &Position::new(1, 1, 1)), 26);
    GameOfLife::advance(&mut g);
    assert_eq!(g.get_cell(&Position::new(1, 1, 1)).unwrap().state, CellState::Dead);
}

#[test]
fn all_dead_lattice_stays_dead() {
    let mut g = Grid::filled(4, 4, 4, CellState::Dead).unwrap();
    for _ in 0..5 {
        GameOfLife::advance(&mut g);
    }
    for x in 0..4 {
        for y in 0..4 {
            for z in 0..4 {
                assert_eq!(g.get_cell(&Position::new(x, y, z)).unwrap().state, CellState::Dead);
            }
        }
    }
}

#[test]
fn advance_is_deterministic() {
    let mut a = Grid::new(4, 4, 4).unwrap();
    let mut b = copy_of(&a, 4, 4, 4);
    assert!(all_states_equal(&a, &b, 4, 4, 4));
    GameOfLife::advance(&mut a);
    GameOfLife::advance(&mut b);
    assert!(all_states_equal(&a, &b, 4, 4, 4));
    GameOfLife::advance(&mut a);
    GameOfLife::advance(&mut b);
    assert!(all_states_equal(&a, &b, 4, 4, 4));
}

#[test]
fn lone_cell_dies_and_no_birth_from_one_neighbor() {
    let mut g = Grid::filled(3, 3, 3, CellState::Dead).unwrap();
    g.get_cell_mut(&Position::new(1, 1, 1)).state = CellState::Alive;
    assert_eq!(live_neighbors(&g, &Position::new(0, 0, 0)), 1);
    GameOfLife::advance(&mut g);
    for x in 0..3 {
        for y in 0..3 {
            for z in 0..3 {
                assert_eq!(g.get_cell(&Position::new(x, y, z)).unwrap().state, CellState::Dead);
            }
        }
    }
}

#[test]
fn birth_with_exactly_five_neighbors() {
    let mut g = Grid::filled(3, 3, 3, CellState::Dead).unwrap();
    g.get_cell_mut(&Position::new(0, 1, 1)).state = CellState::Alive;
    g.get_cell_mut(&Position::new(2, 1, 1)).state = CellState::Alive;
    g.get_cell_mut(&Position::new(1, 0, 1)).state = CellState::Alive;
    g.get_cell_mut(&Position::new(1, 2, 1)).state = CellState::Alive;
    g.get_cell_mut(&Position::new(1, 1, 0)).state = CellState::Alive;
    let center = Position::new(1, 1, 1);
    assert_eq!(live_neighbors(&g, &center), 5);
    GameOfLife::advance(&mut g);
    assert_eq!(g.get_cell(&center).unwrap().state, CellState::Alive);
}

#[test]
fn random_seeding_fills_every_cell() {
    let g = Grid::new(5, 5, 5).unwrap();
    let mut alive: i32 = 0;
    let mut dead: i32 = 0;
    for x in 0..5 {
        for y in 0..5 {
            for z in 0..5 {
                if g.get_cell(&Position::new(x, y, z)).unwrap().is_alive() {
                    alive += 1;
                } else {
                    dead += 1;
                }
            }
        }
    }
    assert_eq!(alive + dead, 125);
}
