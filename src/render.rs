//! The differential render tracker: what a client was last told about a tab,
//! and the smallest change set that brings it up to date.
use crate::rows::{
    rows_add_span, rows_contains, rows_difference, rows_is_empty, rows_new, rows_of,
    rows_remove_span, rows_spans, span, spans_ordered, spans_rows,
};
use crate::tab::{opt_view, CursorPosition, Dimensions, LiveTab, TabState};
use rangeset::set::RangeSet;
use vstd::prelude::*;

verus! {

/// What a client has last been told about one tab.
pub struct PerTab {
    cursor_position: CursorPosition,
    title: String,
    working_dir: Option<String>,
    dimensions: Dimensions,
    dirty_lines: RangeSet<i64>,
    mouse_grabbed: bool,
}

/// The mathematical value of a `PerTab`.
pub struct RenderState {
    pub cursor: CursorPosition,
    pub title: Seq<char>,
    pub working_dir: Option<Seq<char>>,
    pub dimensions: Dimensions,
    pub dirty: Set<int>,
    pub mouse_grabbed: bool,
}

/// A render-change notification for one tab.
pub struct RenderChanges {
    pub tab_id: u64,
    pub mouse_grabbed: bool,
    /// Rows newly dirty within the viewport, as half-open spans.
    pub dirty_lines: Vec<(i64, i64)>,
    pub dimensions: Dimensions,
    pub cursor_position: CursorPosition,
    pub title: String,
    /// Row contents sent along: the viewport's rows, then the cursor's row.
    pub bonus_lines: Vec<(i64, String)>,
    pub working_dir: Option<String>,
    pub input_serial: Option<u64>,
}

pub open spec fn lines_view(v: Seq<(i64, String)>) -> Seq<(int, Seq<char>)> {
    v.map_values(|p: (i64, String)| (p.0 as int, p.1@))
}

impl RenderState {
    /// The state of a tab that nothing has been sent about.
    pub open spec fn initial() -> RenderState {
        RenderState {
            cursor: CursorPosition { x: 0, y: 0 },
            title: Seq::empty(),
            working_dir: None,
            dimensions: Dimensions {
                cols: 0,
                viewport_rows: 0,
                scrollback_rows: 0,
                physical_top: 0,
                scrollback_top: 0,
            },
            dirty: Set::empty(),
            mouse_grabbed: false,
        }
    }

    /// Viewport rows that the session reports dirty and the client was not
    /// yet told about.
    pub open spec fn dirty_delta(self, t: LiveTab) -> Set<int> {
        t.viewport_dirty().difference(self.dirty)
    }

    /// The live session differs from what the client was told.
    pub open spec fn differs(self, t: LiveTab) -> bool {
        ||| t.mouse_grabbed != self.mouse_grabbed
        ||| t.dimensions != self.dimensions
        ||| t.cursor != self.cursor
        ||| t.title != self.title
        ||| t.working_dir != self.working_dir
        ||| self.dirty_delta(t) != Set::<int>::empty()
    }
}

/// What the client knows once a change set for `t` was sent: the viewport's
/// held rows went along, so only its dirty rows that are not held stay dirty.
pub open spec fn committed(t: LiveTab) -> RenderState {
    RenderState {
        cursor: t.cursor,
        title: t.title,
        working_dir: t.working_dir,
        dimensions: t.dimensions,
        dirty: t.viewport_dirty().difference(t.held()),
        mouse_grabbed: t.mouse_grabbed,
    }
}

/// The cursor's row is among the viewport's rows.
pub open spec fn cursor_in_viewport(t: LiveTab) -> bool {
    t.viewport().contains(t.cursor.y as int)
}

/// The session once its viewport rows, and its cursor's row when that lies
/// outside the viewport, were read.
pub open spec fn tab_after_push(t: LiveTab) -> LiveTab {
    let t1 = t.after_read(t.viewport_lo(), t.viewport_hi());
    if cursor_in_viewport(t) {
        t1
    } else {
        t1.after_read(t.cursor.y as int, t.cursor.y + 1)
    }
}

/// Rows sent with a change set for `t`: the viewport's held rows, then the
/// cursor's row unless it is one of them already.
pub open spec fn bonus_of(t: LiveTab) -> Seq<(int, Seq<char>)> {
    let vp = t.rows_in(t.viewport_lo(), t.viewport_hi());
    if cursor_in_viewport(t) {
        vp
    } else {
        vp.push((t.cursor.y as int, t.line_at(t.cursor.y as int)))
    }
}

impl RenderChanges {
    /// This change set brings a client that knew `s` up to date with `t`.
    pub open spec fn describes(self, s: RenderState, t: LiveTab, force: Option<u64>) -> bool {
        &&& self.tab_id == t.tab_id
        &&& self.mouse_grabbed == t.mouse_grabbed
        &&& spans_rows(self.dirty_lines@) == s.dirty_delta(t)
        &&& spans_ordered(self.dirty_lines@)
        &&& self.dimensions == t.dimensions
        &&& self.cursor_position == t.cursor
        &&& self.title@ == t.title
        &&& lines_view(self.bonus_lines@) == bonus_of(t)
        &&& opt_view(self.working_dir) == t.working_dir
        &&& self.input_serial == force
    }
}

fn same_dir(a: &Option<String>, b: &Option<String>) -> (r: bool)
    ensures
        r == (opt_view(*a) == opt_view(*b)),
{
    match (a, b) {
        (Some(x), Some(y)) => {
            let e = *x == *y;
            e
        },
        (None, None) => true,
        _ => false,
    }
}

impl View for PerTab {
    type V = RenderState;

    closed spec fn view(&self) -> RenderState {
        RenderState {
            cursor: self.cursor_position,
            title: self.title@,
            working_dir: opt_view(self.working_dir),
            dimensions: self.dimensions,
            dirty: rows_of(self.dirty_lines),
            mouse_grabbed: self.mouse_grabbed,
        }
    }
}

impl PerTab {
    /// The state of a tab that nothing has been sent about yet.
    pub fn new() -> (r: PerTab)
        ensures
            r@ == RenderState::initial(),
    {
        let r = PerTab {
            cursor_position: CursorPosition { x: 0, y: 0 },
            title: String::new(),
            working_dir: None,
            dimensions: Dimensions {
                cols: 0,
                viewport_rows: 0,
                scrollback_rows: 0,
                physical_top: 0,
                scrollback_top: 0,
            },
            dirty_lines: rows_new(),
            mouse_grabbed: false,
        };
        assert(r@.title =~= Seq::<char>::empty());
        r
    }

    /// Whether `row` is known to be dirty on the client's side.
    pub fn is_dirty(&self, row: i64) -> (r: bool)
        ensures
            r == self@.dirty.contains(row as int),
    {
        rows_contains(&self.dirty_lines, row)
    }

    /// Compares the live session with what the client was told. Returns
    /// nothing when both agree and no push is forced; otherwise reads the
    /// viewport's rows and the cursor's row, records the session's state as
    /// told, and returns the change set.
    pub fn compute_changes(&mut self, tab: &mut TabState, force_with_input_serial: Option<u64>) -> (r:
        Option<RenderChanges>)
        requires
            old(tab)@.wf(),
        ensures
            r is None <==> (!old(self)@.differs(old(tab)@) && force_with_input_serial is None),
            r is None ==> final(self)@ == old(self)@ && final(tab)@ == old(tab)@,
            r matches Some(c) ==> {
                &&& c.describes(old(self)@, old(tab)@, force_with_input_serial)
                &&& final(self)@ == committed(old(tab)@)
                &&& final(tab)@ == tab_after_push(old(tab)@)
            },
            force_with_input_serial is Some ==> {
                &&& r is Some
                &&& lines_view(r->Some_0.bonus_lines@).contains(
                    (old(tab)@.cursor.y as int, old(tab)@.line_at(old(tab)@.cursor.y as int)),
                )
            },
            final(tab)@.wf(),
    {
        let ghost s0 = self@;
        let ghost t0 = tab@;
        let mut changed = false;
        let mouse_grabbed = tab.mouse_grabbed;
        if mouse_grabbed != self.mouse_grabbed {
            changed = true;
        }
        let dims = tab.dimensions;
        if dims != self.dimensions {
            changed = true;
        }
        let cursor_position = tab.cursor;
        if cursor_position != self.cursor_position {
            changed = true;
        }
        let title = tab.title.clone();
        if !(title == self.title) {
            changed = true;
        }
        let working_dir = tab.working_dir.clone();
        if !same_dir(&working_dir, &self.working_dir) {
            changed = true;
        }
        let lo: i64 = dims.physical_top;
        let hi: i64 = lo + dims.viewport_rows as i64;
        let mut window = rows_new();
        rows_add_span(&mut window, lo, hi);
        let outside = rows_difference(&tab.dirty, &window);
        let mut all_dirty_lines = rows_difference(&tab.dirty, &outside);
        assert(rows_of(all_dirty_lines) =~= t0.viewport_dirty());
        let dirty_delta = rows_difference(&all_dirty_lines, &self.dirty_lines);
        if !rows_is_empty(&dirty_delta) {
            changed = true;
        }
        assert(changed == s0.differs(t0));
        if !changed && force_with_input_serial.is_none() {
            return None;
        }
        let (first_line, lines) = tab.get_lines(lo, hi);
        let ghost t1 = tab@;
        let ghost vp = t0.rows_in(lo as int, hi as int);
        assert(lines@.len() == vp.len());
        let mut bonus_lines: Vec<(i64, String)> = Vec::new();
        let mut idx: usize = 0;
        while idx < lines.len()
            invariant
                0 <= idx <= lines@.len(),
                lines@.len() == vp.len(),
                first_line + vp.len() <= i64::MAX,
                vp.len() <= i64::MAX,
                bonus_lines@.len() == idx,
                forall|j: int| 0 <= j < idx ==> lines_view(bonus_lines@)[j] == vp[j],
                lines@.map_values(|l: String| l@) == vp.map_values(|p: (int, Seq<char>)| p.1),
                forall|j: int| 0 <= j < vp.len() ==> #[trigger] vp[j].0 == first_line + j,
            decreases lines@.len() - idx,
        {
            let line = lines[idx].clone();
            assert(lines@.map_values(|l: String| l@)[idx as int] == line@);
            assert(vp[idx as int].0 == first_line + idx);
            let ghost before = bonus_lines@;
            bonus_lines.push((first_line + idx as i64, line));
            assert(forall|j: int| 0 <= j < idx ==> lines_view(bonus_lines@)[j] == lines_view(before)[j]);
            idx = idx + 1;
        }
        assert(lines_view(bonus_lines@) =~= vp);
        rows_remove_span(&mut all_dirty_lines, first_line, first_line + lines.len() as i64);
        assert(rows_of(all_dirty_lines) =~= t0.viewport_dirty().difference(t0.held()));
        if cursor_position.y < lo || cursor_position.y >= hi {
            let (cursor_line, cursor_lines) = tab.get_lines(cursor_position.y, cursor_position.y + 1);
            assert(t1.rows_in(cursor_position.y as int, cursor_position.y + 1)[0].1 == t0.line_at(
                cursor_position.y as int,
            ));
            assert(cursor_lines@.map_values(|l: String| l@)[0] == cursor_lines@[0]@);
            let cursor_text = cursor_lines[0].clone();
            bonus_lines.push((cursor_line, cursor_text));
            assert(lines_view(bonus_lines@).last() == (
                cursor_position.y as int,
                t0.line_at(cursor_position.y as int),
            ));
        } else {
            let ghost k = cursor_position.y - first_line;
            assert(lines_view(bonus_lines@)[k] == (
                cursor_position.y as int,
                t0.line_at(cursor_position.y as int),
            ));
        }
        assert(lines_view(bonus_lines@) =~= bonus_of(t0));
        self.cursor_position = cursor_position;
        self.title = title.clone();
        self.working_dir = working_dir.clone();
        self.dimensions = dims;
        self.dirty_lines = all_dirty_lines;
        self.mouse_grabbed = mouse_grabbed;
        assert(self@.title == t0.title);
        let dirty_lines = rows_spans(&dirty_delta);
        Some(
            RenderChanges {
                tab_id: tab.tab_id,
                mouse_grabbed,
                dirty_lines,
                dimensions: dims,
                cursor_position,
                title,
                bonus_lines,
                working_dir,
                input_serial: force_with_input_serial,
            },
        )
    }

    /// Forgets that `stable_row` is dirty: the client has just fetched it.
    pub fn mark_clean(&mut self, stable_row: i64)
        requires
            stable_row < i64::MAX,
        ensures
            final(self)@ == (RenderState { dirty: old(self)@.dirty.remove(stable_row as int), ..old(self)@ }),
    {
        rows_remove_span(&mut self.dirty_lines, stable_row, stable_row + 1);
        assert(rows_of(self.dirty_lines) =~= old(self)@.dirty.remove(stable_row as int));
    }
}

/// Two calls in a row on an unchanged session: whatever the first call did,
/// forced or not, the second, unforced, finds nothing to send.
pub proof fn lemma_second_call_quiet(s: RenderState, t: LiveTab, force: Option<u64>)
    requires
        t.wf(),
    ensures
        ({
            let pushed = s.differs(t) || force is Some;
            let s1 = if pushed { committed(t) } else { s };
            let t1 = if pushed { tab_after_push(t) } else { t };
            !s1.differs(t1)
        }),
{
    let t1 = tab_after_push(t);
    assert(committed(t).dirty_delta(t1) =~= Set::<int>::empty());
}

} // verus!
