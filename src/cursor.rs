use vstd::prelude::*;

use crate::grid::{height, width};
use crate::input::Dir;
use crate::table::Table;

verus! {

/// A position in a grid: column `x`, row `y`.
#[derive(Clone, Copy, Debug, PartialEq, Eq, Structural)]
pub struct Cursor {
    pub x: usize,
    pub y: usize,
}

impl Cursor {
    /// Lies on a cell of a grid `w` cells wide and `h` rows high.
    pub open spec fn within(self, w: nat, h: nat) -> bool {
        self.x < w && self.y < h
    }

    pub fn new() -> (r: Self)
        ensures
            r.x == 0 && r.y == 0,
    {
        Self { x: 0, y: 0 }
    }

    /// Moves one step in `dir`, or to an edge, against the table's current
    /// dimensions; never past the first or the last row or column.
    pub fn move_dir(&mut self, dir: Dir, table: &Table)
        requires
            table.wf(),
        ensures
            *final(self) == moved(*old(self), dir, width(table@), height(table@)),
    {
        let (w, h) = table.dims();
        match dir {
            Dir::Up => if self.y > 0 {
                self.y = self.y - 1;
            },
            Dir::Down => if self.y < h - 1 {
                self.y = self.y + 1;
            },
            Dir::Left => if self.x > 0 {
                self.x = self.x - 1;
            },
            Dir::Right => if self.x < w - 1 {
                self.x = self.x + 1;
            },
            Dir::Top => {
                self.y = 0;
            },
            Dir::Bottom => {
                self.y = h - 1;
            },
            Dir::Start => {
                self.x = 0;
            },
            Dir::End => {
                self.x = w - 1;
            },
        }
    }
}

/// Where a cursor lands after a move in `dir` on a grid of `w` by `h` cells
/// (`w`, `h` at least 1).
pub open spec fn moved(c: Cursor, dir: Dir, w: nat, h: nat) -> Cursor {
    match dir {
        Dir::Up => if c.y > 0 { Cursor { y: (c.y - 1) as usize, ..c } } else { c },
        Dir::Down => if c.y < h - 1 { Cursor { y: (c.y + 1) as usize, ..c } } else { c },
        Dir::Left => if c.x > 0 { Cursor { x: (c.x - 1) as usize, ..c } } else { c },
        Dir::Right => if c.x < w - 1 { Cursor { x: (c.x + 1) as usize, ..c } } else { c },
        Dir::Top => Cursor { y: 0, ..c },
        Dir::Bottom => Cursor { y: (h - 1) as usize, ..c },
        Dir::Start => Cursor { x: 0, ..c },
        Dir::End => Cursor { x: (w - 1) as usize, ..c },
    }
}

/// A move keeps a cursor that lies on the grid on the grid.
pub proof fn lemma_moved_within(c: Cursor, dir: Dir, w: nat, h: nat)
    requires
        c.within(w, h),
    ensures
        moved(c, dir, w, h).within(w, h),
{
}

/// The first visible row once the view is scrolled so that row `cy` shows
/// among the `visible` rows that start at `ay`.
pub open spec fn aligned_anchor(ay: int, cy: int, visible: int) -> int {
    if cy < ay {
        cy
    } else if cy > ay + visible - 1 {
        cy - visible + 1
    } else {
        ay
    }
}

/// Scrolls the anchor (the first visible row) the least needed to show the
/// cursor's row among `visible` rows; the anchor's column is left alone.
pub fn align_anchor(anchor: &mut Cursor, c: Cursor, visible: usize)
    requires
        visible >= 1,
    ensures
        final(anchor).x == old(anchor).x,
        final(anchor).y == aligned_anchor(old(anchor).y as int, c.y as int, visible as int),
        final(anchor).y <= c.y < final(anchor).y + visible,
{
    if anchor.y > c.y {
        anchor.y = c.y;
    } else if c.y - anchor.y > visible - 1 {
        anchor.y = c.y - (visible - 1);
    }
}

/// Aligning the anchor a second time, with the cursor where it was, leaves it
/// where the first alignment put it.
pub proof fn lemma_align_idempotent(ay: int, cy: int, visible: int)
    requires
        visible >= 1,
    ensures
        aligned_anchor(aligned_anchor(ay, cy, visible), cy, visible) == aligned_anchor(ay, cy, visible),
{
}

} // verus!
