//! The lattice: cell state keyed by 3D coordinate over a fixed cuboid box,
//! with lookup and live-neighbor counting.

use vstd::prelude::*;

verus! {

/// The binary state of one cell.
#[derive(Clone, Copy, Debug, PartialEq, Eq, Structural)]
pub enum CellState {
    Alive,
    Dead,
}

/// The mutable state attached to one coordinate of the lattice.
#[derive(Clone, Copy, Debug)]
pub struct Cell {
    pub state: CellState,
}

/// An integer 3D coordinate identifying a lattice cell.
#[derive(Clone, Copy, Debug, PartialEq, Eq, Hash, Structural)]
pub struct Position {
    pub x: i32,
    pub y: i32,
    pub z: i32,
}

impl Position {
    pub fn new(x: i32, y: i32, z: i32) -> (p: Position)
        ensures
            p.x == x,
            p.y == y,
            p.z == z,
    {
        Position { x, y, z }
    }
}

impl Cell {
    pub fn new(state: CellState) -> (c: Cell)
        ensures
            c.state == state,
    {
        Cell { state }
    }

    pub fn is_alive(&self) -> (r: bool)
        ensures
            r == (self.state == CellState::Alive),
    {
        self.state == CellState::Alive
    }
}

/// The error returned when a lattice is asked for with a non-positive
/// dimension.
#[derive(Clone, Copy, Debug, PartialEq, Eq, Structural)]
pub enum LatticeError {
    NonPositiveDimension,
}

/// A dense axis-aligned box `[0,width) x [0,height) x [0,depth)` of cells,
/// stored as nested vectors indexed `cells[x][y][z]`.
#[derive(Debug)]
pub struct Grid {
    pub width: i32,
    pub height: i32,
    pub depth: i32,
    pub cells: Vec<Vec<Vec<Cell>>>,
}

impl Grid {
    /// Well-formedness: positive dimensions, and the storage covers exactly
    /// the box, one cell per in-box coordinate.
    pub open spec fn wf(self) -> bool {
        &&& 0 < self.width
        &&& 0 < self.height
        &&& 0 < self.depth
        &&& self.cells@.len() == self.width
        &&& forall|x: int|
            0 <= x < self.width ==> (#[trigger] self.cells@[x])@.len() == self.height
        &&& forall|x: int, y: int|
            0 <= x < self.width && 0 <= y < self.height ==> (#[trigger] self.cells@[x]@[y])@.len()
                == self.depth
    }

    /// Whether `(x, y, z)` lies inside the box.
    pub open spec fn in_box(self, x: int, y: int, z: int) -> bool {
        &&& 0 <= x < self.width
        &&& 0 <= y < self.height
        &&& 0 <= z < self.depth
    }

    /// Whether the coordinate `p` lies inside the box.
    pub open spec fn in_box_pos(self, p: Position) -> bool {
        self.in_box(p.x as int, p.y as int, p.z as int)
    }

    /// The state stored for an in-box coordinate.
    pub open spec fn state_at(self, x: int, y: int, z: int) -> CellState {
        self.cells@[x]@[y]@[z].state
    }

    /// Builds a lattice in which every in-box coordinate holds a cell in the
    /// given state. Non-positive dimensions are rejected.
    pub fn filled(width: i32, height: i32, depth: i32, state: CellState) -> (r: Result<
        Grid,
        LatticeError,
    >)
        ensures
            match r {
                Ok(g) => {
                    &&& 0 < width && 0 < height && 0 < depth
                    &&& g.wf()
                    &&& g.width == width
                    &&& g.height == height
                    &&& g.depth == depth
                    &&& forall|x: int, y: int, z: int|
                        g.in_box(x, y, z) ==> #[trigger] g.state_at(x, y, z) == state
                },
                Err(e) => {
                    &&& !(0 < width && 0 < height && 0 < depth)
                    &&& e == LatticeError::NonPositiveDimension
                },
            },
    {
        if width <= 0 || height <= 0 || depth <= 0 {
            return Err(LatticeError::NonPositiveDimension);
        }
        let mut cells: Vec<Vec<Vec<Cell>>> = Vec::new();
        let mut x: i32 = 0;
        while x < width
            invariant
                0 <= x <= width,
                0 < height,
                0 < depth,
                cells@.len() == x as int,
                forall|xi: int| 0 <= xi < x ==> (#[trigger] cells@[xi])@.len() == height,
                forall|xi: int, yi: int|
                    0 <= xi < x && 0 <= yi < height ==> (#[trigger] cells@[xi]@[yi])@.len()
                        == depth,
                forall|xi: int, yi: int, zi: int|
                    0 <= xi < x && 0 <= yi < height && 0 <= zi < depth ==> (#[trigger] cells@[xi]@[yi]@[zi]).state
                        == state,
            decreases width - x,
        {
            let mut plane: Vec<Vec<Cell>> = Vec::new();
            let mut y: i32 = 0;
            while y < height
                invariant
                    0 <= y <= height,
                    0 < depth,
                    plane@.len() == y as int,
                    forall|yi: int| 0 <= yi < y ==> (#[trigger] plane@[yi])@.len() == depth,
                    forall|yi: int, zi: int|
                        0 <= yi < y && 0 <= zi < depth ==> (#[trigger] plane@[yi]@[zi]).state
                            == state,
                decreases height - y,
            {
                let mut row: Vec<Cell> = Vec::new();
                let mut z: i32 = 0;
                while z < depth
                    invariant
                        0 <= z <= depth,
                        row@.len() == z as int,
                        forall|zi: int| 0 <= zi < z ==> (#[trigger] row@[zi]).state == state,
                    decreases depth - z,
                {
                    row.push(Cell::new(state));
                    z = z + 1;
                }
                plane.push(row);
                y = y + 1;
            }
            cells.push(plane);
            x = x + 1;
        }
        Ok(Grid { width, height, depth, cells })
    }

    /// Builds a lattice in which every in-box coordinate holds a cell set
    /// Alive or Dead independently by the random source. Non-positive
    /// dimensions are rejected; nothing is promised of the states drawn.
    pub fn new(width: i32, height: i32, depth: i32) -> (r: Result<Grid, LatticeError>)
        ensures
            match r {
                Ok(g) => {
                    &&& 0 < width && 0 < height && 0 < depth
                    &&& g.wf()
                    &&& g.width == width
                    &&& g.height == height
                    &&& g.depth == depth
                },
                Err(e) => {
                    &&& !(0 < width && 0 < height && 0 < depth)
                    &&& e == LatticeError::NonPositiveDimension
                },
            },
    {
        if width <= 0 || height <= 0 || depth <= 0 {
            return Err(LatticeError::NonPositiveDimension);
        }
        let mut cells: Vec<Vec<Vec<Cell>>> = Vec::new();
        let mut x: i32 = 0;
        while x < width
            invariant
                0 <= x <= width,
                0 < height,
                0 < depth,
                cells@.len() == x as int,
                forall|xi: int| 0 <= xi < x ==> (#[trigger] cells@[xi])@.len() == height,
                forall|xi: int, yi: int|
                    0 <= xi < x && 0 <= yi < height ==> (#[trigger] cells@[xi]@[yi])@.len()
                        == depth,
            decreases width - x,
        {
            let mut plane: Vec<Vec<Cell>> = Vec::new();
            let mut y: i32 = 0;
            while y < height
                invariant
                    0 <= y <= height,
                    0 < depth,
                    plane@.len() == y as int,
                    forall|yi: int| 0 <= yi < y ==> (#[trigger] plane@[yi])@.len() == depth,
                decreases height - y,
            {
                let mut row: Vec<Cell> = Vec::new();
                let mut z: i32 = 0;
                while z < depth
                    invariant
                        0 <= z <= depth,
                        row@.len() == z as int,
                    decreases depth - z,
                {
                    let state = if rand::random::<bool>() {
                        CellState::Alive
                    } else {
                        CellState::Dead
                    };
                    row.push(Cell::new(state));
                    z = z + 1;
                }
                plane.push(row);
                y = y + 1;
            }
            cells.push(plane);
            x = x + 1;
        }
        Ok(Grid { width, height, depth, cells })
    }

    /// Returns the cell at `position` if it is inside the box, and absent
    /// otherwise: coordinates outside the box have no cell.
    pub fn get_cell(&self, position: &Position) -> (r: Option<&Cell>)
        requires
            self.wf(),
        ensures
            match r {
                Some(c) => self.in_box_pos(*position) && c.state == self.state_at(
                    position.x as int,
                    position.y as int,
                    position.z as int,
                ),
                None => !self.in_box_pos(*position),
            },
    {
        if 0 <= position.x && position.x < self.width && 0 <= position.y && position.y
            < self.height && 0 <= position.z && position.z < self.depth {
            Some(&self.cells[position.x as usize][position.y as usize][position.z as usize])
        } else {
            None
        }
    }

    /// Mutable access to the cell at an in-box coordinate, used by the
    /// transition engine; callers must themselves guarantee the coordinate
    /// is present.
    pub fn get_cell_mut(&mut self, position: &Position) -> (ret: &mut Cell)
        requires
            old(self).wf(),
            old(self).in_box_pos(*position),
        ensures
            *ret == old(self).cells@[position.x as int]@[position.y as int]@[position.z as int],
            final(self).wf(),
            final(self).width == old(self).width,
            final(self).height == old(self).height,
            final(self).depth == old(self).depth,
            final(self).state_at(position.x as int, position.y as int, position.z as int)
                == final(ret).state,
            forall|x: int, y: int, z: int|
                old(self).in_box(x, y, z) && !(x == position.x as int && y == position.y as int
                    && z == position.z as int) ==> #[trigger] final(self).state_at(x, y, z)
                    == old(self).state_at(x, y, z),
    {
        &mut self.cells[position.x as usize][position.y as usize][position.z as usize]
    }
}

/// 1 if `(x, y, z)` holds a live cell, 0 if it is dead or outside the box:
/// absent coordinates contribute nothing to a neighbor count.
pub open spec fn live_contribution(g: Grid, x: int, y: int, z: int) -> int {
    if g.in_box(x, y, z) && g.state_at(x, y, z) == CellState::Alive {
        1
    } else {
        0
    }
}

/// The number of live cells among the 26 coordinates of the 3x3x3 cube
/// centered on `(x, y, z)`, the center itself excluded.
pub open spec fn count_neighbors(g: Grid, x: int, y: int, z: int) -> int {
    live_contribution(g, x - 1, y - 1, z - 1)
        + live_contribution(g, x - 1, y - 1, z)
        + live_contribution(g, x - 1, y - 1, z + 1)
        + live_contribution(g, x - 1, y, z - 1)
        + live_contribution(g, x - 1, y, z)
        + live_contribution(g, x - 1, y, z + 1)
        + live_contribution(g, x - 1, y + 1, z - 1)
        + live_contribution(g, x - 1, y + 1, z)
        + live_contribution(g, x - 1, y + 1, z + 1)
        + live_contribution(g, x, y - 1, z - 1)
        + live_contribution(g, x, y - 1, z)
        + live_contribution(g, x, y - 1, z + 1)
        + live_contribution(g, x, y, z - 1)
        + live_contribution(g, x, y, z + 1)
        + live_contribution(g, x, y + 1, z - 1)
        + live_contribution(g, x, y + 1, z)
        + live_contribution(g, x, y + 1, z + 1)
        + live_contribution(g, x + 1, y - 1, z - 1)
        + live_contribution(g, x + 1, y - 1, z)
        + live_contribution(g, x + 1, y - 1, z + 1)
        + live_contribution(g, x + 1, y, z - 1)
        + live_contribution(g, x + 1, y, z)
        + live_contribution(g, x + 1, y, z + 1)
        + live_contribution(g, x + 1, y + 1, z - 1)
        + live_contribution(g, x + 1, y + 1, z)
        + live_contribution(g, x + 1, y + 1, z + 1)
}

/// 1 if the widened coordinate holds a live cell, 0 otherwise.
fn neighbor_live(grid: &Grid, x: i64, y: i64, z: i64) -> (r: i32)
    requires
        grid.wf(),
    ensures
        r == live_contribution(*grid, x as int, y as int, z as int),
{
    if 0 <= x && x < grid.width as i64 && 0 <= y && y < grid.height as i64 && 0 <= z && z
        < grid.depth as i64 {
        if grid.cells[x as usize][y as usize][z as usize].is_alive() {
            1
        } else {
            0
        }
    } else {
        0
    }
}

/// Examines the 26 coordinates around `position`, never the center itself,
/// and counts those that hold a live cell; out-of-box coordinates are absent
/// and contribute zero.
pub fn live_neighbors(grid: &Grid, position: &Position) -> (n: i32)
    requires
        grid.wf(),
    ensures
        n == count_neighbors(*grid, position.x as int, position.y as int, position.z as int),
        0 <= n <= 26,
{
    let x: i64 = position.x as i64;
    let y: i64 = position.y as i64;
    let z: i64 = position.z as i64;
    let mut n: i32 = 0;
    n = n + neighbor_live(grid, x - 1, y - 1, z - 1);
    n = n + neighbor_live(grid, x - 1, y - 1, z);
    n = n + neighbor_live(grid, x - 1, y - 1, z + 1);
    n = n + neighbor_live(grid, x - 1, y, z - 1);
    n = n + neighbor_live(grid, x - 1, y, z);
    n = n + neighbor_live(grid, x - 1, y, z + 1);
    n = n + neighbor_live(grid, x - 1, y + 1, z - 1);
    n = n + neighbor_live(grid, x - 1, y + 1, z);
    n = n + neighbor_live(grid, x - 1, y + 1, z + 1);
    n = n + neighbor_live(grid, x, y - 1, z - 1);
    n = n + neighbor_live(grid, x, y - 1, z);
    n = n + neighbor_live(grid, x, y - 1, z + 1);
    n = n + neighbor_live(grid, x, y, z - 1);
    n = n + neighbor_live(grid, x, y, z + 1);
    n = n + neighbor_live(grid, x, y + 1, z - 1);
    n = n + neighbor_live(grid, x, y + 1, z);
    n = n + neighbor_live(grid, x, y + 1, z + 1);
    n = n + neighbor_live(grid, x + 1, y - 1, z - 1);
    n = n + neighbor_live(grid, x + 1, y - 1, z);
    n = n + neighbor_live(grid, x + 1, y - 1, z + 1);
    n = n + neighbor_live(grid, x + 1, y, z - 1);
    n = n + neighbor_live(grid, x + 1, y, z);
    n = n + neighbor_live(grid, x + 1, y, z + 1);
    n = n + neighbor_live(grid, x + 1, y + 1, z - 1);
    n = n + neighbor_live(grid, x + 1, y + 1, z);
    n = n + neighbor_live(grid, x + 1, y + 1, z + 1);
    n
}

/// The neighbor count never counts the center coordinate itself: two
/// lattices of the same dimensions that agree on every in-box coordinate
/// except possibly the center have the same count there.
pub proof fn lemma_count_ignores_center(g1: Grid, g2: Grid, x: int, y: int, z: int)
    requires
        g1.width == g2.width,
        g1.height == g2.height,
        g1.depth == g2.depth,
        forall|xi: int, yi: int, zi: int|
            g1.in_box(xi, yi, zi) && !(xi == x && yi == y && zi == z)
                ==> #[trigger] g1.state_at(xi, yi, zi) == g2.state_at(xi, yi, zi),
    ensures
        count_neighbors(g1, x, y, z) == count_neighbors(g2, x, y, z),
{
}

/// A coordinate at a box corner has at most 7 in-box neighbors, so its
/// neighbor count never exceeds 7, whatever the global state.
pub proof fn lemma_corner_at_most_seven(g: Grid, x: int, y: int, z: int)
    requires
        g.in_box(x, y, z),
        x == 0 || x == g.width - 1,
        y == 0 || y == g.height - 1,
        z == 0 || z == g.depth - 1,
    ensures
        count_neighbors(g, x, y, z) <= 7,
{
}

} // verus!
