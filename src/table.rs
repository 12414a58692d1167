use vstd::prelude::*;

use crate::cursor::Cursor;
use crate::grid::{
    blank_row, byte_len, col_width, empty_cell, grid_wf, height, insert_col, insert_row,
    lemma_col_width_bound, padded, remove_col, remove_row, set_cell, width, Rows,
};
use crate::csv_io::{csv_records, csv_text, read_records, write_records};
use crate::text::push_char;

verus! {

/// Why a file's content could not become a table.
#[derive(Debug, Clone)]
pub enum LoadError {
    /// The CSV reader reported an error; its message.
    Malformed(String),
    /// The records are not a grid: none at all, an empty first record, or
    /// records of different lengths.
    NotAGrid,
}

/// The grid that a file's bytes load as, if they load.
pub open spec fn loaded_grid(bytes: Seq<u8>) -> Option<Rows> {
    match csv_records(bytes) {
        Some(g) => if grid_wf(g) { Some(g) } else { None },
        None => None,
    }
}

/// A rectangular grid of text cells, at least one row by one column.
#[derive(Debug)]
pub struct Table {
    data: Vec<Vec<String>>,
}

impl View for Table {
    type V = Rows;

    closed spec fn view(&self) -> Rows {
        self.data.deep_view()
    }
}

impl Table {
    pub open spec fn wf(&self) -> bool {
        grid_wf(self@)
    }

    /// The model, row by row and cell by cell, in terms of the stored vectors.
    proof fn lemma_view(&self)
        ensures
            self@.len() == self.data@.len(),
            forall|i: int| 0 <= i < self@.len() ==> #[trigger] self@[i] == self.data@[i].deep_view(),
            forall|i: int, j: int|
                0 <= i < self@.len() && 0 <= j < self.data@[i]@.len() ==> #[trigger] self@[i][j]
                    == self.data@[i]@[j]@,
            forall|i: int| 0 <= i < self@.len() ==> #[trigger] self@[i].len() == self.data@[i]@.len(),
    {
    }

    /// A table of one empty cell.
    pub fn new() -> (r: Self)
        ensures
            r.wf(),
            r@ == seq![seq![empty_cell()]],
    {
        let mut row: Vec<String> = Vec::new();
        row.push(String::new());
        let mut data: Vec<Vec<String>> = Vec::new();
        data.push(row);
        let r = Table { data };
        assert(r@ =~~= seq![seq![empty_cell()]]);
        r
    }

    /// The table that holds `rows`, where they form a grid (same length,
    /// at least one row and one column).
    pub fn from_rows(rows: Vec<Vec<String>>) -> (r: Option<Self>)
        ensures
            r is Some <==> grid_wf(rows.deep_view()),
            r matches Some(t) ==> t@ == rows.deep_view() && t.wf(),
    {
        if rows.len() == 0 || rows[0].len() == 0 {
            return None;
        }
        let w = rows[0].len();
        let mut i: usize = 1;
        while i < rows.len()
            invariant
                1 <= i <= rows.len(),
                w == rows.deep_view()[0].len(),
                forall|k: int| 0 <= k < i ==> #[trigger] rows.deep_view()[k].len() == w,
            decreases rows.len() - i,
        {
            if rows[i].len() != w {
                assert(rows.deep_view()[i as int].len() != w);
                return None;
            }
            i = i + 1;
        }
        Some(Table { data: rows })
    }

    /// The table's (width, height).
    pub fn dims(&self) -> (r: (usize, usize))
        requires
            self.wf(),
        ensures
            r.0 == width(self@) && r.1 == height(self@),
    {
        (self.data[0].len(), self.data.len())
    }

    /// The cells, row by row.
    pub fn rows(&self) -> (r: Vec<Vec<String>>)
        ensures
            r.deep_view() == self@,
    {
        let mut out: Vec<Vec<String>> = Vec::new();
        let mut i: usize = 0;
        while i < self.data.len()
            invariant
                i <= self.data.len(),
                out.deep_view() =~= self@.subrange(0, i as int),
            decreases self.data.len() - i,
        {
            proof {
                self.lemma_view();
            }
            let src = &self.data[i];
            let mut row: Vec<String> = Vec::new();
            let mut j: usize = 0;
            while j < src.len()
                invariant
                    i < self.data.len(),
                    j <= src.len(),
                    src.deep_view() == self@[i as int],
                    row@.len() == j,
                    forall|k: int| 0 <= k < j ==> #[trigger] row@[k]@ == src@[k]@,
                decreases src.len() - j,
            {
                row.push(src[j].clone());
                j = j + 1;
            }
            assert(row.deep_view() =~= self@[i as int]);
            let ghost before_out = out.deep_view();
            out.push(row);
            assert(out.deep_view() =~= before_out.push(self@[i as int]));
            i = i + 1;
        }
        out
    }

    /// The value of the cell under the cursor.
    pub fn get(&self, c: Cursor) -> (r: String)
        requires
            self.wf(),
            c.within(width(self@), height(self@)),
        ensures
            r@ == self@[c.y as int][c.x as int],
    {
        proof {
            self.lemma_view();
            assert(self@[c.y as int].len() == width(self@));
        }
        self.data[c.y][c.x].clone()
    }

    /// Sets the cell under the cursor to `new`.
    pub fn update(&mut self, c: Cursor, new: String)
        requires
            old(self).wf(),
            c.within(width(old(self)@), height(old(self)@)),
        ensures
            final(self).wf(),
            final(self)@ == set_cell(old(self)@, c.x as int, c.y as int, new@),
    {
        let ghost g = self@;
        proof {
            self.lemma_view();
            assert(g[c.y as int].len() == width(g));
        }
        let mut row: Vec<String> = Vec::new();
        self.data.set_and_swap(c.y, &mut row);
        assert(row.deep_view() == g[c.y as int]);
        row.set(c.x, new);
        self.data.set_and_swap(c.y, &mut row);
        assert(self@ =~~= set_cell(g, c.x as int, c.y as int, new@));
    }

    /// Inserts a row of empty cells at index `r`, before the row there.
    fn add_row(&mut self, r: usize)
        requires
            old(self).wf(),
            r <= height(old(self)@),
        ensures
            final(self).wf(),
            final(self)@ == insert_row(old(self)@, r as int),
    {
        let ghost g = self@;
        let (w, _) = self.dims();
        let mut new_row: Vec<String> = Vec::new();
        let mut j: usize = 0;
        while j < w
            invariant
                j <= w,
                new_row@.len() == j,
                forall|k: int| 0 <= k < j ==> #[trigger] new_row@[k]@ == empty_cell(),
            decreases w - j,
        {
            new_row.push(String::new());
            j = j + 1;
        }
        assert(new_row.deep_view() =~= blank_row(width(g)));
        self.data.insert(r, new_row);
        assert(self@ =~~= insert_row(g, r as int));
        assert(self@[0].len() == width(g)) by {
            if r == 0 {
            } else {
                assert(self@[0] == g[0]);
            }
        }
        assert forall|i: int| 0 <= i < self@.len() implies #[trigger] self@[i].len() == self@[0].len() by {
            if i < r {
                assert(self@[i] == g[i]);
            } else if i > r {
                assert(self@[i] == g[i - 1]);
            }
        }
    }

    /// Inserts a row of empty cells before the cursor's row.
    pub fn add_row_before(&mut self, c: Cursor)
        requires
            old(self).wf(),
            c.y <= height(old(self)@),
        ensures
            final(self).wf(),
            final(self)@ == insert_row(old(self)@, c.y as int),
    {
        self.add_row(c.y);
    }

    /// Inserts a row of empty cells after the cursor's row.
    pub fn add_row_after(&mut self, c: Cursor)
        requires
            old(self).wf(),
            c.y < height(old(self)@),
        ensures
            final(self).wf(),
            final(self)@ == insert_row(old(self)@, c.y + 1),
    {
        let (_, h) = self.dims();
        assert(c.y + 1 <= h);
        self.add_row(c.y + 1);
    }

    /// Inserts an empty cell at index `c` of every row.
    fn add_col(&mut self, c: usize)
        requires
            old(self).wf(),
            c <= width(old(self)@),
        ensures
            final(self).wf(),
            final(self)@ == insert_col(old(self)@, c as int),
    {
        let ghost g = self@;
        let n = self.data.len();
        let mut i: usize = 0;
        while i < n
            invariant
                grid_wf(g),
                c <= width(g),
                n == g.len(),
                i <= n,
                self.data@.len() == n,
                forall|k: int| 0 <= k < i ==> #[trigger] self@[k] == g[k].insert(c as int, empty_cell()),
                forall|k: int| i <= k < n ==> #[trigger] self@[k] == g[k],
            decreases n - i,
        {
            proof {
                self.lemma_view();
            }
            assert(self@[i as int] == g[i as int]);
            let ghost before = self.data@;
            let ghost before_view = self@;
            let mut row: Vec<String> = Vec::new();
            self.data.set_and_swap(i, &mut row);
            assert(row.deep_view() == g[i as int]);
            assert(g[i as int].len() == width(g));
            row.insert(c, String::new());
            assert(row.deep_view() =~= g[i as int].insert(c as int, empty_cell()));
            self.data.set_and_swap(i, &mut row);
            proof {
                self.lemma_view();
                assert forall|k: int| 0 <= k < n && k != i implies #[trigger] self@[k] == before_view[k] by {
                    assert(self.data@[k] == before[k]);
                }
                assert(self@[i as int] == g[i as int].insert(c as int, empty_cell()));
            }
            i = i + 1;
        }
        assert(self@ =~~= insert_col(g, c as int));
    }

    /// Inserts a column of empty cells before the cursor's column.
    pub fn add_col_before(&mut self, c: Cursor)
        requires
            old(self).wf(),
            c.x <= width(old(self)@),
        ensures
            final(self).wf(),
            final(self)@ == insert_col(old(self)@, c.x as int),
    {
        self.add_col(c.x);
    }

    /// Inserts a column of empty cells after the cursor's column.
    pub fn add_col_after(&mut self, c: Cursor)
        requires
            old(self).wf(),
            c.x < width(old(self)@),
        ensures
            final(self).wf(),
            final(self)@ == insert_col(old(self)@, c.x + 1),
    {
        let (w, _) = self.dims();
        assert(c.x + 1 <= w);
        self.add_col(c.x + 1);
    }

    /// Empties the cell under the cursor.
    pub fn clear(&mut self, c: Cursor)
        requires
            old(self).wf(),
            c.within(width(old(self)@), height(old(self)@)),
        ensures
            final(self).wf(),
            final(self)@ == set_cell(old(self)@, c.x as int, c.y as int, empty_cell()),
    {
        self.update(c, String::new());
    }

    /// Removes the cursor's row, unless it is the only one; the cursor then
    /// moves up if its row is gone from the end.
    pub fn delete_row(&mut self, c: &mut Cursor)
        requires
            old(self).wf(),
            old(c).within(width(old(self)@), height(old(self)@)),
        ensures
            final(self).wf(),
            final(c).within(width(final(self)@), height(final(self)@)),
            height(old(self)@) == 1 ==> final(self)@ == old(self)@ && *final(c) == *old(c),
            height(old(self)@) > 1 ==> final(self)@ == remove_row(old(self)@, old(c).y as int),
            height(old(self)@) > 1 ==> final(c).x == old(c).x && final(c).y == (if old(c).y
                + 1 < height(old(self)@) { old(c).y as int } else { old(c).y - 1 }),
    {
        let ghost g = self@;
        proof {
            self.lemma_view();
        }
        if self.data.len() > 1 {
            self.data.remove(c.y);
            proof {
                self.lemma_view();
                assert(self@ =~= remove_row(g, c.y as int));
                assert(self@[0] == g[if c.y == 0 { 1int } else { 0int }]);
                assert forall|i: int| 0 <= i < self@.len() implies #[trigger] self@[i].len() == self@[0].len() by {
                    if i < c.y {
                        assert(self@[i] == g[i]);
                    } else {
                        assert(self@[i] == g[i + 1]);
                    }
                }
            }
            if c.y >= self.data.len() {
                c.y = self.data.len() - 1;
            }
        }
    }

    /// Removes the cursor's column, unless it is the only one; the cursor
    /// then moves left if its column is gone from the end.
    pub fn delete_col(&mut self, c: &mut Cursor)
        requires
            old(self).wf(),
            old(c).within(width(old(self)@), height(old(self)@)),
        ensures
            final(self).wf(),
            final(c).within(width(final(self)@), height(final(self)@)),
            width(old(self)@) == 1 ==> final(self)@ == old(self)@ && *final(c) == *old(c),
            width(old(self)@) > 1 ==> final(self)@ == remove_col(old(self)@, old(c).x as int),
            width(old(self)@) > 1 ==> final(c).y == old(c).y && final(c).x == (if old(c).x
                + 1 < width(old(self)@) { old(c).x as int } else { old(c).x - 1 }),
    {
        let ghost g = self@;
        let (w, n) = self.dims();
        if w == 1 {
            return;
        }
        let x = c.x;
        let mut i: usize = 0;
        while i < n
            invariant
                grid_wf(g),
                x < w,
                w == width(g),
                w > 1,
                n == g.len(),
                i <= n,
                self.data@.len() == n,
                forall|k: int| 0 <= k < i ==> #[trigger] self@[k] == g[k].remove(x as int),
                forall|k: int| i <= k < n ==> #[trigger] self@[k] == g[k],
            decreases n - i,
        {
            proof {
                self.lemma_view();
            }
            assert(self@[i as int] == g[i as int]);
            assert(g[i as int].len() == width(g));
            let ghost before = self.data@;
            let ghost before_view = self@;
            let mut row: Vec<String> = Vec::new();
            self.data.set_and_swap(i, &mut row);
            assert(row.deep_view() == g[i as int]);
            row.remove(x);
            assert(row.deep_view() =~= g[i as int].remove(x as int));
            self.data.set_and_swap(i, &mut row);
            proof {
                self.lemma_view();
                assert forall|k: int| 0 <= k < n && k != i implies #[trigger] self@[k] == before_view[k] by {
                    assert(self.data@[k] == before[k]);
                }
                assert(self@[i as int] == g[i as int].remove(x as int));
            }
            i = i + 1;
        }
        assert(self@ =~~= remove_col(g, x as int));
        if x + 1 >= w {
            c.x = w - 2;
        }
    }

    /// The width in bytes of each column: its widest cell.
    pub fn col_widths(&self) -> (r: Vec<usize>)
        requires
            self.wf(),
        ensures
            r@.len() == width(self@),
            forall|j: int| 0 <= j < width(self@) ==> #[trigger] r@[j] == col_width(self@, j, height(self@) as int),
    {
        let ghost g = self@;
        proof {
            self.lemma_view();
        }
        let (w, n) = self.dims();
        let mut widths: Vec<usize> = Vec::new();
        let mut j: usize = 0;
        while j < w
            invariant
                g == self@,
                grid_wf(g),
                w == width(g),
                n == height(g),
                j <= w,
                widths@.len() == j,
                forall|k: int| 0 <= k < j ==> #[trigger] widths@[k] == col_width(g, k, 1),
            decreases w - j,
        {
            proof {
                self.lemma_view();
            }
            widths.push(self.data[0][j].as_str().as_bytes().len());
            assert(col_width(g, j as int, 0) == 0);
            assert(widths@[j as int] == col_width(g, j as int, 1));
            j = j + 1;
        }
        let mut i: usize = 1;
        while i < n
            invariant
                g == self@,
                grid_wf(g),
                w == width(g),
                n == height(g),
                1 <= i <= n,
                widths@.len() == w,
                forall|k: int| 0 <= k < w ==> #[trigger] widths@[k] == col_width(g, k, i as int),
            decreases n - i,
        {
            proof {
                self.lemma_view();
                assert(g[i as int].len() == w);
            }
            let mut j: usize = 0;
            while j < w
                invariant
                    g == self@,
                    grid_wf(g),
                    w == width(g),
                    n == height(g),
                    1 <= i < n,
                    g[i as int].len() == w,
                    self.data@[i as int]@.len() == w,
                    j <= w,
                    widths@.len() == w,
                    forall|k: int| 0 <= k < j ==> #[trigger] widths@[k] == col_width(g, k, i + 1),
                    forall|k: int| j <= k < w ==> #[trigger] widths@[k] == col_width(g, k, i as int),
                decreases w - j,
            {
                proof {
                    self.lemma_view();
                }
                let b = self.data[i][j].as_str().as_bytes().len();
                assert(b == byte_len(g[i as int][j as int]));
                assert(widths@[j as int] == col_width(g, j as int, i as int));
                if b > widths[j] {
                    widths.set(j, b);
                }
                assert(widths@[j as int] == col_width(g, j as int, i + 1));
                j = j + 1;
            }
            i = i + 1;
        }
        widths
    }

    /// Each cell followed by spaces up to its column's width.
    pub fn fmt_iter(&self) -> (r: Vec<Vec<String>>)
        requires
            self.wf(),
        ensures
            r.deep_view().len() == height(self@),
            forall|i: int| 0 <= i < height(self@) ==> #[trigger] r.deep_view()[i].len() == width(self@),
            forall|i: int, j: int|
                0 <= i < height(self@) && 0 <= j < width(self@) ==> #[trigger] r.deep_view()[i][j]
                    == padded(self@[i][j], col_width(self@, j, height(self@) as int)),
    {
        let ghost g = self@;
        let widths = self.col_widths();
        let (w, n) = self.dims();
        let mut out: Vec<Vec<String>> = Vec::new();
        let mut i: usize = 0;
        while i < n
            invariant
                g == self@,
                grid_wf(g),
                w == width(g),
                n == height(g),
                i <= n,
                widths@.len() == w,
                forall|k: int| 0 <= k < w ==> #[trigger] widths@[k] == col_width(g, k, n as int),
                out@.len() == i,
                forall|a: int| 0 <= a < i ==> #[trigger] out@[a]@.len() == w,
                forall|a: int, b: int|
                    0 <= a < i && 0 <= b < w ==> #[trigger] out@[a]@[b]@ == padded(g[a][b], col_width(g, b, n as int)),
            decreases n - i,
        {
            proof {
                self.lemma_view();
                assert(g[i as int].len() == w);
            }
            let mut row: Vec<String> = Vec::new();
            let mut j: usize = 0;
            while j < w
                invariant
                    g == self@,
                    grid_wf(g),
                    w == width(g),
                    n == height(g),
                    i < n,
                    self.data@[i as int]@.len() == w,
                    widths@.len() == w,
                    forall|k: int| 0 <= k < w ==> #[trigger] widths@[k] == col_width(g, k, n as int),
                    j <= w,
                    row@.len() == j,
                    forall|b: int| 0 <= b < j ==> #[trigger] row@[b]@ == padded(g[i as int][b], col_width(g, b, n as int)),
                decreases w - j,
            {
                proof {
                    self.lemma_view();
                    lemma_col_width_bound(g, j as int, n as int, i as int);
                }
                let cell = &self.data[i][j];
                let width_j = widths[j];
                let mut p = cell.clone();
                let mut k: usize = cell.as_str().as_bytes().len();
                while k < width_j
                    invariant
                        byte_len(cell@) <= k <= width_j,
                        p@ == cell@ + Seq::new((k - byte_len(cell@)) as nat, |q: int| ' '),
                    decreases width_j - k,
                {
                    push_char(&mut p, ' ');
                    k = k + 1;
                    assert(p@ =~= cell@ + Seq::new((k - byte_len(cell@)) as nat, |q: int| ' '));
                }
                assert(p@ =~= padded(g[i as int][j as int], col_width(g, j as int, n as int)));
                row.push(p);
                j = j + 1;
            }
            out.push(row);
            i = i + 1;
        }
        out
    }

    /// The table held by a CSV text; its first record is the first row.
    pub fn from_csv(bytes: &[u8]) -> (r: Result<Self, LoadError>)
        ensures
            r is Ok <==> loaded_grid(bytes@) is Some,
            r matches Ok(t) ==> t.wf() && loaded_grid(bytes@) == Some(t@),
            r matches Err(LoadError::Malformed(_)) <==> csv_records(bytes@) is None,
            r matches Err(LoadError::NotAGrid) <==> (csv_records(bytes@) matches Some(g) && !grid_wf(g)),
    {
        match read_records(bytes) {
            Ok(rows) => match Table::from_rows(rows) {
                Some(t) => Ok(t),
                None => Err(LoadError::NotAGrid),
            },
            Err(msg) => Err(LoadError::Malformed(msg)),
        }
    }

    /// The table as CSV text, one record per row.
    pub fn to_csv(&self) -> (r: Option<Vec<u8>>)
        ensures
            r is Some <==> csv_text(self@) is Some,
            r matches Some(b) ==> csv_text(self@) == Some(b@),
    {
        write_records(&self.data)
    }
}

/// A table loaded from a file and saved again unchanged hands the writer the
/// very records that the reader found: same rows, same cells, same order.
pub proof fn lemma_load_save_round_trip(bytes: Seq<u8>, t: Table)
    requires
        loaded_grid(bytes) == Some(t@),
    ensures
        csv_records(bytes) == Some(t@),
        csv_text(t@) == csv_text(csv_records(bytes)->0),
{
}

} // verus!
