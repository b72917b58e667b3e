//! The transition engine: advances every cell of a lattice by one
//! generation, applying the 5766 birth/survival rule against the neighbor
//! counts of the pre-tick state.

use vstd::prelude::*;

use crate::lattice::count_neighbors;
use crate::lattice::live_neighbors;
use crate::lattice::Cell;
use crate::lattice::CellState;
use crate::lattice::Grid;
use crate::lattice::Position;

verus! {

/// Survival lower threshold: an Alive cell stays Alive only with at least
/// this many live neighbors.
pub const EB: i32 = 4;

/// Birth lower threshold: a Dead cell becomes Alive only with at least this
/// many live neighbors.
pub const FB: i32 = 5;

/// Survival upper threshold.
pub const EH: i32 = 5;

/// Birth upper threshold.
pub const FH: i32 = 5;

/// The per-cell transition relation: an Alive cell survives iff its live
/// neighbor count lies in `[EB, EH]`; a Dead cell is born iff it lies in
/// `[FB, FH]`.
pub open spec fn next_state(current: CellState, live: int) -> CellState {
    match current {
        CellState::Alive => if EB as int <= live && live <= EH as int {
            CellState::Alive
        } else {
            CellState::Dead
        },
        CellState::Dead => if FB as int <= live && live <= FH as int {
            CellState::Alive
        } else {
            CellState::Dead
        },
    }
}

/// The state a cell of `g` takes after one generation: a pure function of
/// the pre-tick lattice alone.
pub open spec fn stepped(g: Grid, x: int, y: int, z: int) -> CellState {
    next_state(g.state_at(x, y, z), count_neighbors(g, x, y, z))
}

/// Applies the transition rule to one cell given its live neighbor count.
pub fn apply_rule(current: CellState, live: i32) -> (next: CellState)
    ensures
        next == next_state(current, live as int),
{
    match current {
        CellState::Alive => {
            if EB <= live && live <= EH {
                CellState::Alive
            } else {
                CellState::Dead
            }
        },
        CellState::Dead => {
            if FB <= live && live <= FH {
                CellState::Alive
            } else {
                CellState::Dead
            }
        },
    }
}

/// The simulation: owns no state of its own; it advances a lattice one
/// generation at a time.
pub struct GameOfLife;

impl GameOfLife {
    /// Advances the whole lattice by exactly one generation. Every neighbor
    /// count is taken against the pre-tick state: the next states are first
    /// computed in full into a fresh buffer, then applied, so no cell's
    /// transition can affect another's count within the same tick.
    pub fn advance(grid: &mut Grid)
        requires
            old(grid).wf(),
        ensures
            final(grid).wf(),
            final(grid).width == old(grid).width,
            final(grid).height == old(grid).height,
            final(grid).depth == old(grid).depth,
            forall|x: int, y: int, z: int|
                old(grid).in_box(x, y, z) ==> #[trigger] final(grid).state_at(x, y, z)
                    == stepped(*old(grid), x, y, z),
    {
        let mut next: Vec<Vec<Vec<Cell>>> = Vec::new();
        let mut x: i32 = 0;
        while x < grid.width
            invariant
                *grid == *old(grid),
                grid.wf(),
                0 <= x <= grid.width,
                next@.len() == x as int,
                forall|xi: int| 0 <= xi < x ==> (#[trigger] next@[xi])@.len() == grid.height,
                forall|xi: int, yi: int|
                    0 <= xi < x && 0 <= yi < grid.height ==> (#[trigger] next@[xi]@[yi])@.len()
                        == grid.depth,
                forall|xi: int, yi: int, zi: int|
                    0 <= xi < x && 0 <= yi < grid.height && 0 <= zi < grid.depth ==> (
                    #[trigger] next@[xi]@[yi]@[zi]).state == stepped(*grid, xi, yi, zi),
            decreases grid.width - x,
        {
            let mut plane: Vec<Vec<Cell>> = Vec::new();
            let mut y: i32 = 0;
            while y < grid.height
                invariant
                    *grid == *old(grid),
                    grid.wf(),
                    0 <= x < grid.width,
                    0 <= y <= grid.height,
                    plane@.len() == y as int,
                    forall|yi: int| 0 <= yi < y ==> (#[trigger] plane@[yi])@.len() == grid.depth,
                    forall|yi: int, zi: int|
                        0 <= yi < y && 0 <= zi < grid.depth ==> (#[trigger] plane@[yi]@[zi]).state
                            == stepped(*grid, x as int, yi, zi),
                decreases grid.height - y,
            {
                let mut row: Vec<Cell> = Vec::new();
                let mut z: i32 = 0;
                while z < grid.depth
                    invariant
                        *grid == *old(grid),
                        grid.wf(),
                        0 <= x < grid.width,
                        0 <= y < grid.height,
                        0 <= z <= grid.depth,
                        row@.len() == z as int,
                        forall|zi: int|
                            0 <= zi < z ==> (#[trigger] row@[zi]).state == stepped(
                                *grid,
                                x as int,
                                y as int,
                                zi,
                            ),
                    decreases grid.depth - z,
                {
                    let position = Position::new(x, y, z);
                    let live = live_neighbors(grid, &position);
                    let current = grid.cells[x as usize][y as usize][z as usize].state;
                    row.push(Cell::new(apply_rule(current, live)));
                    z = z + 1;
                }
                plane.push(row);
                y = y + 1;
            }
            next.push(plane);
            x = x + 1;
        }
        grid.cells = next;
    }
}

/// Determinism: the next generation is a pure function of the pre-tick
/// state. Two lattices of the same dimensions that agree on every in-box
/// coordinate step to the same state at every in-box coordinate.
pub proof fn lemma_step_deterministic(g1: Grid, g2: Grid)
    requires
        g1.width == g2.width,
        g1.height == g2.height,
        g1.depth == g2.depth,
        forall|x: int, y: int, z: int|
            g1.in_box(x, y, z) ==> #[trigger] g1.state_at(x, y, z) == g2.state_at(x, y, z),
    ensures
        forall|x: int, y: int, z: int|
            g1.in_box(x, y, z) ==> #[trigger] stepped(g1, x, y, z) == stepped(g2, x, y, z),
{
    assert forall|x: int, y: int, z: int|
        g1.in_box(x, y, z) implies #[trigger] stepped(g1, x, y, z) == stepped(g2, x, y, z) by {
        crate::lattice::lemma_count_ignores_center(g1, g2, x, y, z);
    }
}

/// All-Dead stability: a lattice in which every cell is Dead has zero live
/// neighbors everywhere, which never satisfies the birth thresholds, so one
/// generation leaves every cell Dead; hence so does any number of them.
pub proof fn lemma_all_dead_stable(g: Grid)
    requires
        forall|x: int, y: int, z: int|
            g.in_box(x, y, z) ==> #[trigger] g.state_at(x, y, z) == CellState::Dead,
    ensures
        forall|x: int, y: int, z: int|
            g.in_box(x, y, z) ==> #[trigger] stepped(g, x, y, z) == CellState::Dead,
{
}

} // verus!
