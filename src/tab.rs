//! What the render tracker reads of a live terminal session.
use crate::rows::{rows_add_span, rows_of, rows_remove_span, span};
use rangeset::set::RangeSet;
use vstd::prelude::*;

verus! {

/// Cursor position: `x` is the column, `y` the stable row index.
#[derive(Clone, Copy, Debug, PartialEq, Eq, Structural)]
pub struct CursorPosition {
    pub x: u64,
    pub y: i64,
}

/// Size of a session's screen and where its viewport sits among stable rows.
#[derive(Clone, Copy, Debug, PartialEq, Eq, Structural)]
pub struct Dimensions {
    pub cols: u64,
    pub viewport_rows: u64,
    pub scrollback_rows: u64,
    pub physical_top: i64,
    pub scrollback_top: i64,
}

/// A live terminal session as the handler sees it: its attributes, the stable
/// rows that it holds (`lines[i]` is row `first_row + i`) and the rows that it
/// reports dirty.
pub struct TabState {
    pub tab_id: u64,
    pub mouse_grabbed: bool,
    pub dimensions: Dimensions,
    pub cursor: CursorPosition,
    pub title: String,
    pub working_dir: Option<String>,
    pub dirty: RangeSet<i64>,
    pub first_row: i64,
    pub lines: Vec<String>,
}

/// The mathematical value of a `TabState`.
pub struct LiveTab {
    pub tab_id: u64,
    pub mouse_grabbed: bool,
    pub dimensions: Dimensions,
    pub cursor: CursorPosition,
    pub title: Seq<char>,
    pub working_dir: Option<Seq<char>>,
    pub dirty: Set<int>,
    pub first_row: int,
    pub lines: Seq<Seq<char>>,
}

pub open spec fn opt_view(o: Option<String>) -> Option<Seq<char>> {
    match o {
        Some(s) => Some(s@),
        None => None,
    }
}

impl View for TabState {
    type V = LiveTab;

    open spec fn view(&self) -> LiveTab {
        LiveTab {
            tab_id: self.tab_id,
            mouse_grabbed: self.mouse_grabbed,
            dimensions: self.dimensions,
            cursor: self.cursor,
            title: self.title@,
            working_dir: opt_view(self.working_dir),
            dirty: rows_of(self.dirty),
            first_row: self.first_row as int,
            lines: self.lines@.map_values(|l: String| l@),
        }
    }
}

pub open spec fn max_int(a: int, b: int) -> int {
    if a >= b { a } else { b }
}

pub open spec fn min_int(a: int, b: int) -> int {
    if a <= b { a } else { b }
}

impl LiveTab {
    /// First row past the rows held.
    pub open spec fn end_row(self) -> int {
        self.first_row + self.lines.len()
    }

    /// The rows the session holds.
    pub open spec fn held(self) -> Set<int> {
        span(self.first_row, self.end_row())
    }

    pub open spec fn viewport_lo(self) -> int {
        self.dimensions.physical_top as int
    }

    pub open spec fn viewport_hi(self) -> int {
        self.dimensions.physical_top + self.dimensions.viewport_rows
    }

    /// The rows of the viewport.
    pub open spec fn viewport(self) -> Set<int> {
        span(self.viewport_lo(), self.viewport_hi())
    }

    /// The dirty rows within the viewport.
    pub open spec fn viewport_dirty(self) -> Set<int> {
        self.dirty.intersect(self.viewport())
    }

    /// Content of a held row.
    pub open spec fn line_at(self, row: int) -> Seq<char> {
        self.lines[row - self.first_row]
    }

    /// The held rows of `lo..hi`, each with its content, in order.
    pub open spec fn rows_in(self, lo: int, hi: int) -> Seq<(int, Seq<char>)> {
        let a = max_int(lo, self.first_row);
        let b = min_int(hi, self.end_row());
        Seq::new(if a < b { (b - a) as nat } else { 0 }, |i: int| (a + i, self.line_at(a + i)))
    }

    /// The session after the rows `lo..hi` were read: reading a row clears its
    /// dirty flag.
    pub open spec fn after_read(self, lo: int, hi: int) -> LiveTab {
        LiveTab { dirty: self.dirty.difference(span(lo, hi).intersect(self.held())), ..self }
    }

    /// Row indices fit in `i64`, the viewport is expressible, and the cursor's
    /// row is held.
    pub open spec fn wf(self) -> bool {
        &&& self.lines.len() <= i64::MAX
        &&& self.end_row() <= i64::MAX
        &&& self.dimensions.viewport_rows <= i64::MAX
        &&& self.viewport_hi() <= i64::MAX
        &&& self.first_row <= self.cursor.y < self.end_row()
    }
}

impl TabState {
    /// Tests `wf` of the session's value.
    pub fn is_well_formed(&self) -> (r: bool)
        ensures
            r == self@.wf(),
    {
        let n: usize = self.lines.len();
        if n as u64 > i64::MAX as u64 || self.dimensions.viewport_rows > i64::MAX as u64 {
            return false;
        }
        let len: i64 = n as i64;
        let rows: i64 = self.dimensions.viewport_rows as i64;
        if self.first_row > i64::MAX - len || self.dimensions.physical_top > i64::MAX - rows {
            return false;
        }
        self.first_row <= self.cursor.y && self.cursor.y < self.first_row + len
    }

    /// Flags the rows `start..end` as dirty.
    pub fn mark_dirty(&mut self, start: i64, end: i64)
        ensures
            final(self)@ == (LiveTab {
                dirty: old(self)@.dirty.union(span(start as int, end as int)),
                ..old(self)@
            }),
    {
        rows_add_span(&mut self.dirty, start, end);
    }

    /// Reads the held rows of `lo..hi`. Returns the index of the first row
    /// read and the contents; the rows read are no longer dirty.
    pub fn get_lines(&mut self, lo: i64, hi: i64) -> (r: (i64, Vec<String>))
        requires
            old(self)@.wf(),
        ensures
            r.0 == max_int(lo as int, old(self)@.first_row),
            r.1@.map_values(|l: String| l@) =~= old(self)@.rows_in(lo as int, hi as int).map_values(
                |p: (int, Seq<char>)| p.1,
            ),
            final(self)@ == old(self)@.after_read(lo as int, hi as int),
    {
        let ghost v = self@;
        let end_held: i64 = self.first_row + self.lines.len() as i64;
        let a: i64 = if lo > self.first_row { lo } else { self.first_row };
        let b: i64 = if hi < end_held { hi } else { end_held };
        let n: usize = self.lines.len();
        assert(self.lines@.len() == v.lines.len());
        let mut out: Vec<String> = Vec::new();
        let mut row: i64 = a;
        while row < b
            invariant
                self@ == v,
                v.wf(),
                self.lines@.len() == v.lines.len(),
                n == self.lines@.len(),
                a >= v.first_row,
                end_held == v.end_row(),
                a == max_int(lo as int, v.first_row),
                b == min_int(hi as int, v.end_row()),
                a <= row,
                a < b ==> row <= b,
                b <= a ==> row == a,
                b <= a ==> out@.len() == 0,
                a < b ==> out@.len() == row - a,
                forall|i: int| 0 <= i < out@.len() ==> out@[i]@ == v.line_at(a + i),
            decreases b - row,
        {
            assert(self.first_row as int == v.first_row);
            assert(0 <= row - self.first_row < self.lines@.len());
            assert(0 <= (row - self.first_row) as int <= usize::MAX);
            let k: usize = (row - self.first_row) as usize;
            assert(k as int == row - v.first_row);
            let s = self.lines[k].clone();
            assert(s == self.lines@[k as int]);
            assert(v.lines[k as int] == self.lines@[k as int]@);
            assert(s@ == v.line_at(row as int));
            out.push(s);
            assert(forall|i: int| 0 <= i < out@.len() ==> out@[i]@ == v.line_at(a + i));
            row = row + 1;
        }
        rows_remove_span(&mut self.dirty, a, b);
        proof {
            assert(span(a as int, b as int) =~= span(lo as int, hi as int).intersect(v.held()));
        }
        (a, out)
    }
}

} // verus!
