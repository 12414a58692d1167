use vstd::prelude::*;

verus! {

/// The mathematical model of a grid: rows of cells, each cell a text.
pub type Rows = Seq<Seq<Seq<char>>>;

/// An empty cell.
pub open spec fn empty_cell() -> Seq<char> {
    Seq::empty()
}

/// Every row has as many cells as the first, and the grid is at least 1 by 1.
pub open spec fn grid_wf(g: Rows) -> bool {
    &&& g.len() >= 1
    &&& g[0].len() >= 1
    &&& forall|i: int| 0 <= i < g.len() ==> #[trigger] g[i].len() == g[0].len()
}

pub open spec fn width(g: Rows) -> nat {
    g[0].len()
}

pub open spec fn height(g: Rows) -> nat {
    g.len()
}

/// A row of `w` empty cells.
pub open spec fn blank_row(w: nat) -> Seq<Seq<char>> {
    Seq::new(w, |j: int| empty_cell())
}

/// The grid with cell (`x`, `y`) set to `v`.
pub open spec fn set_cell(g: Rows, x: int, y: int, v: Seq<char>) -> Rows {
    g.update(y, g[y].update(x, v))
}

/// The grid with a blank row inserted at index `r`.
pub open spec fn insert_row(g: Rows, r: int) -> Rows {
    g.insert(r, blank_row(width(g)))
}

/// The grid with an empty cell inserted at index `c` of every row.
pub open spec fn insert_col(g: Rows, c: int) -> Rows {
    Seq::new(g.len(), |i: int| g[i].insert(c, empty_cell()))
}

/// The grid without row `r`.
pub open spec fn remove_row(g: Rows, r: int) -> Rows {
    g.remove(r)
}

/// The grid without the cell at index `c` of every row.
pub open spec fn remove_col(g: Rows, c: int) -> Rows {
    Seq::new(g.len(), |i: int| g[i].remove(c))
}

/// The number of bytes that a cell takes in UTF-8.
pub open spec fn byte_len(s: Seq<char>) -> nat {
    vstd::utf8::encode_utf8(s).len()
}

/// The widest cell of column `j` among the first `n` rows, in bytes.
pub open spec fn col_width(g: Rows, j: int, n: int) -> nat
    decreases n,
{
    if n <= 0 {
        0
    } else {
        let m = col_width(g, j, n - 1);
        let b = byte_len(g[n - 1][j]);
        if m >= b { m } else { b }
    }
}

/// No cell of column `j` among the first `n` rows is wider than
/// `col_width(g, j, n)`.
pub proof fn lemma_col_width_bound(g: Rows, j: int, n: int, i: int)
    requires
        0 <= i < n,
    ensures
        byte_len(g[i][j]) <= col_width(g, j, n),
    decreases n,
{
    if i < n - 1 {
        lemma_col_width_bound(g, j, n - 1, i);
    }
}

/// `s` followed by spaces up to `w` bytes.
pub open spec fn padded(s: Seq<char>, w: nat) -> Seq<char> {
    s + Seq::new((w - byte_len(s)) as nat, |k: int| ' ')
}

} // verus!
