//! The grid that maps a place on the surface to the control under it.

use vstd::prelude::*;

verus! {

/// Cell value of a place that no control covers.
pub const NONE_ID: u32 = 0;

/// A grid of slots, one cell for each place on the sensor surface.
///
/// A cell holds zero where no control lies, and otherwise the slot of a
/// control: one more than its position among the controls of the engine.
#[derive(Debug, Clone)]
pub struct RoutingTable {
    pub cells: Vec<Vec<u32>>,
}

/// The sequence of columns that `cells` holds.
pub open spec fn grid_of(cells: Seq<Vec<u32>>) -> Seq<Seq<u32>> {
    cells.map_values(|column: Vec<u32>| column@)
}

/// Every cell of `grid` holds at most `limit`.
pub open spec fn bounded(grid: Seq<Seq<u32>>, limit: int) -> bool {
    forall|x: int, y: int|
        0 <= x < grid.len() && 0 <= y < grid[x].len() ==> #[trigger] grid[x][y] <= limit
}

impl RoutingTable {
    /// The cells of the table: a sequence of columns.
    pub open spec fn grid(&self) -> Seq<Seq<u32>> {
        grid_of(self.cells@)
    }

    /// The table has a cell at column `x`, row `y`.
    pub open spec fn covers(&self, x: int, y: int) -> bool {
        0 <= x < self.grid().len() && 0 <= y < self.grid()[x].len()
    }

    /// The slot at column `x`, row `y`, if a control lies there.
    pub open spec fn slot(&self, x: int, y: int) -> Option<u32> {
        if self.grid()[x][y] == NONE_ID {
            None
        } else {
            Some(self.grid()[x][y])
        }
    }

    /// Every slot in the table is at most `limit`.
    pub open spec fn bounded_by(&self, limit: int) -> bool {
        bounded(self.grid(), limit)
    }

    pub fn new(cells: Vec<Vec<u32>>) -> (r: RoutingTable)
        ensures
            r.cells == cells,
    {
        RoutingTable { cells }
    }

    /// Tells whether the table has a cell at column `x`, row `y`.
    pub fn contains(&self, x: usize, y: usize) -> (r: bool)
        ensures
            r == self.covers(x as int, y as int),
    {
        x < self.cells.len() && y < self.cells[x].len()
    }

    /// The slot of the control at column `x`, row `y`, or `None` where no
    /// control lies. The place must be on the table.
    pub fn lookup(&self, x: usize, y: usize) -> (r: Option<u32>)
        requires
            self.covers(x as int, y as int),
        ensures
            r == self.slot(x as int, y as int),
    {
        let id = self.cells[x][y];
        if id == NONE_ID {
            None
        } else {
            Some(id)
        }
    }

    /// Tells whether every slot in the table is at most `limit`.
    pub fn within(&self, limit: usize) -> (r: bool)
        ensures
            r == self.bounded_by(limit as int),
    {
        let mut x: usize = 0;
        while x < self.cells.len()
            invariant
                x <= self.cells@.len(),
                forall|i: int, j: int|
                    0 <= i < x && 0 <= j < self.grid()[i].len() ==> #[trigger] self.grid()[i][j]
                        <= limit,
            decreases self.cells@.len() - x,
        {
            let column = &self.cells[x];
            let mut y: usize = 0;
            while y < column.len()
                invariant
                    x < self.cells@.len(),
                    column == self.cells@[x as int],
                    y <= column@.len(),
                    forall|j: int| 0 <= j < y ==> column@[j] <= limit,
                decreases column@.len() - y,
            {
                if column[y] as u64 > limit as u64 {
                    assert(self.grid()[x as int][y as int] > limit);
                    return false;
                }
                y += 1;
            }
            x += 1;
        }
        true
    }
}

} // verus!
