//! The pit: the bounded rectangle the snake moves within, and its
//! boundary queries.

use vstd::prelude::*;
use crate::geometry::Point;

verus! {

/// The pit's dimensions. The grid is the rectangle `[0, width) x [0, height)`;
/// its outer ring of cells is wall.
#[derive(Debug, PartialEq, Eq, Structural, Clone, Copy)]
pub struct SnakePit {
    pub height: u32,
    pub width: u32,
}

/// True iff `p` is on or beyond the wall ring of `pit`: at column or row 0,
/// or at or past the far edge. The low side counts the wall row and column
/// themselves (`x == 0`, `y == 0`), so the playable interior is strictly
/// `(0, width) x (0, height)`, one cell narrower than the drawn grid.
pub open spec fn out_of_bounds(p: Point, pit: SnakePit) -> bool {
    p.x == 0 || p.y == 0 || p.x >= pit.width || p.y >= pit.height
}

/// The top row of the perimeter: every cell of row 0.
pub open spec fn top_row(width: u32) -> Seq<Point> {
    Seq::new(width as nat, |i: int| (Point { x: i as u32, y: 0 }))
}

/// The side cells of rows `1..rows`: for each such row, its leftmost cell
/// followed by its rightmost cell.
pub open spec fn side_rows(width: u32, rows: int) -> Seq<Point>
    decreases rows,
{
    if rows <= 1 {
        Seq::empty()
    } else {
        side_rows(width, rows - 1)
            + seq![Point { x: 0, y: (rows - 1) as u32 }, Point { x: (width - 1) as u32, y: (rows - 1) as u32 }]
    }
}

/// The perimeter cells the pit reports: the full top row, then the two side
/// cells of every later row. The bottom row is deliberately not emitted as a
/// full row: only its two side cells appear, like any other interior row.
/// Collision logic does not read this; it uses [`out_of_bounds`], which
/// treats the whole outer ring as wall.
pub open spec fn perimeter_spec(height: u32, width: u32) -> Seq<Point> {
    if height == 0 {
        Seq::empty()
    } else {
        top_row(width) + side_rows(width, height as int)
    }
}

impl SnakePit {
    /// Enumerate the perimeter cells, as [`perimeter_spec`] lists them.
    /// Provided for rendering and occupancy queries, not for collision
    /// logic. A pit of zero width must have at most one row, else there is
    /// no rightmost cell to report.
    pub fn get_perimeter(&self) -> (perimeter: Vec<Point>)
        requires
            self.width >= 1 || self.height <= 1,
        ensures
            perimeter@ == perimeter_spec(self.height, self.width),
    {
        let mut perimeter = Vec::<Point>::new();
        let mut y: u32 = 0;
        while y < self.height
            invariant
                y <= self.height,
                self.width >= 1 || self.height <= 1,
                y == 0 ==> perimeter@ == Seq::<Point>::empty(),
                y >= 1 ==> perimeter@ == top_row(self.width) + side_rows(self.width, y as int),
            decreases self.height - y,
        {
            if y == 0 {
                let mut x: u32 = 0;
                while x < self.width
                    invariant
                        x <= self.width,
                        perimeter@.len() == x as nat,
                        forall|i: int| 0 <= i < x ==> perimeter@[i] == (Point { x: i as u32, y: 0u32 }),
                    decreases self.width - x,
                {
                    perimeter.push(Point { x, y: 0 });
                    x = x + 1;
                }
                proof {
                    assert(perimeter@ =~= top_row(self.width));
                    assert(side_rows(self.width, 1int) == Seq::<Point>::empty());
                    assert(perimeter@ =~= top_row(self.width) + side_rows(self.width, 1int));
                }
            } else {
                perimeter.push(Point { x: 0, y });
                perimeter.push(Point { x: self.width - 1, y });
                proof {
                    assert(perimeter@ =~= top_row(self.width) + side_rows(self.width, y + 1));
                }
            }
            y = y + 1;
        }
        perimeter
    }
}

} // verus!
