use vstd::prelude::*;

use crate::cursor::{align_anchor, aligned_anchor, moved, Cursor};
use crate::grid::{
    empty_cell, grid_wf, height, insert_col, insert_row, remove_col, remove_row, set_cell, width,
    Rows,
};
use crate::input::{command_action, from_prompt, opt_seq, Action, Dir, PromptAction};
use crate::mode::{Mode, PromptType};
use crate::table::Table;
use crate::text::{first_word, lower_of, pop_char, push_char};

verus! {

/// The model of an editing session.
pub struct EditorView {
    pub grid: Rows,
    pub cursor: Cursor,
    pub anchor: Cursor,
    pub mode: Mode,
    pub buf: Seq<char>,
}

/// The grid is well formed and the cursor lies on it.
pub open spec fn view_wf(s: EditorView) -> bool {
    grid_wf(s.grid) && s.cursor.within(width(s.grid), height(s.grid))
}

/// The text of the cell under the cursor.
pub open spec fn current_cell(s: EditorView) -> Seq<char> {
    s.grid[s.cursor.y as int][s.cursor.x as int]
}

/// `s` with the cell under the cursor set to `v`.
pub open spec fn with_cell(s: EditorView, v: Seq<char>) -> EditorView {
    EditorView { grid: set_cell(s.grid, s.cursor.x as int, s.cursor.y as int, v), ..s }
}

/// A text without its last character, if it has one.
pub open spec fn drop_last_char(t: Seq<char>) -> Seq<char> {
    if t.len() > 0 { t.drop_last() } else { t }
}

/// Back to movement mode if a prompt was open.
pub open spec fn close_prompt(m: Mode) -> Mode {
    match m {
        Mode::Prompt(_) => Mode::Table,
        _ => m,
    }
}

/// Actions that the dispatcher carries out in one step, without handing
/// parts of the work to other actions.
pub open spec fn is_basic(a: Action) -> bool {
    match a {
        Action::CarriageReturn => false,
        Action::Prompt(PromptType::Command, PromptAction::Submit) => false,
        _ => true,
    }
}

/// The session after a basic action.
pub open spec fn apply_basic(s: EditorView, a: Action) -> EditorView {
    let w = width(s.grid);
    let h = height(s.grid);
    let c = s.cursor;
    match a {
        Action::MoveCursor(d) => EditorView { cursor: moved(c, d, w, h), ..s },
        Action::EnterPrompt(p) => EditorView {
            buf: if p == PromptType::EditAppend { current_cell(s) } else { empty_cell() },
            mode: Mode::Prompt(p),
            ..s
        },
        Action::Prompt(_, PromptAction::Push(ch)) => EditorView { buf: s.buf.push(ch), ..s },
        Action::Prompt(_, PromptAction::Backspace) => EditorView { buf: drop_last_char(s.buf), ..s },
        Action::Prompt(_, PromptAction::Submit) => EditorView {
            buf: empty_cell(),
            mode: close_prompt(s.mode),
            ..with_cell(s, s.buf)
        },
        Action::Prompt(_, PromptAction::Exit) => EditorView { buf: empty_cell(), mode: Mode::Table, ..s },
        Action::EnterMode(m) => EditorView { mode: m, ..s },
        Action::Append(ch) => with_cell(s, current_cell(s).push(ch)),
        Action::Pop => with_cell(s, drop_last_char(current_cell(s))),
        Action::ClearCell => with_cell(s, empty_cell()),
        Action::AddRowAbove => EditorView { grid: insert_row(s.grid, c.y as int), ..s },
        Action::AddRowBelow => EditorView {
            grid: insert_row(s.grid, c.y + 1),
            cursor: moved(c, Dir::Down, w, h + 1),
            ..s
        },
        Action::DeleteRow => if h > 1 {
            EditorView {
                grid: remove_row(s.grid, c.y as int),
                cursor: if c.y + 1 < h { c } else { Cursor { y: (c.y - 1) as usize, ..c } },
                ..s
            }
        } else {
            s
        },
        Action::AddColLeft => EditorView {
            grid: insert_col(s.grid, c.x as int),
            cursor: moved(c, Dir::Left, w + 1, h),
            ..s
        },
        Action::AddColRight => EditorView { grid: insert_col(s.grid, c.x + 1), ..s },
        Action::DeleteCol => if w > 1 {
            EditorView {
                grid: remove_col(s.grid, c.x as int),
                cursor: if c.x + 1 < w { c } else { Cursor { x: (c.x - 1) as usize, ..c } },
                ..s
            }
        } else {
            s
        },
        Action::Quit => EditorView { mode: Mode::Exit, ..s },
        _ => s,
    }
}

/// The session after basic actions, one after the other.
pub open spec fn apply_all(s: EditorView, acts: Seq<Action>) -> EditorView
    decreases acts.len(),
{
    if acts.len() == 0 {
        s
    } else {
        apply_basic(apply_all(s, acts.drop_last()), acts.last())
    }
}

/// The actions that a line command stands for.
pub open spec fn command_of(buf: Seq<char>) -> Seq<Action> {
    opt_seq(command_action(lower_of(first_word(buf))))
}

/// The session after any action.
pub open spec fn apply(s: EditorView, a: Action) -> EditorView {
    match a {
        Action::CarriageReturn => {
            let s1 = if s.cursor.y + 1 == height(s.grid) {
                apply_basic(s, Action::AddRowBelow)
            } else {
                s
            };
            apply_basic(apply_basic(s1, Action::MoveCursor(Dir::Start)), Action::MoveCursor(Dir::Down))
        },
        Action::Prompt(PromptType::Command, PromptAction::Submit) => {
            let s1 = apply_all(EditorView { buf: empty_cell(), ..s }, command_of(s.buf));
            EditorView { mode: close_prompt(s1.mode), ..s1 }
        },
        _ => apply_basic(s, a),
    }
}

/// Whether the action asks for the table to be saved.
pub open spec fn requests_save(s: EditorView, a: Action) -> bool {
    a == Action::Save || (a == Action::Prompt(PromptType::Command, PromptAction::Submit)
        && command_of(s.buf).contains(Action::Save))
}

/// An editing session: the table, the cursor, the first visible row, the
/// mode and the buffer of the prompt line.
pub struct Editor {
    table: Table,
    c: Cursor,
    anchor: Cursor,
    m: Mode,
    buf: String,
}

impl View for Editor {
    type V = EditorView;

    closed spec fn view(&self) -> EditorView {
        EditorView {
            grid: self.table@,
            cursor: self.c,
            anchor: self.anchor,
            mode: self.m,
            buf: self.buf@,
        }
    }
}

impl Editor {
    pub open spec fn wf(&self) -> bool {
        view_wf(self@)
    }

    /// A session on a table of one empty cell, in movement mode.
    pub fn new() -> (r: Self)
        ensures
            r.wf(),
            r@.grid == seq![seq![empty_cell()]],
            r@.cursor == (Cursor { x: 0, y: 0 }),
            r@.anchor == (Cursor { x: 0, y: 0 }),
            r@.mode == Mode::Table,
            r@.buf == empty_cell(),
    {
        Self::from_table(Table::new())
    }

    /// A session on `table`, cursor on the first cell, in movement mode.
    pub fn from_table(table: Table) -> (r: Self)
        requires
            table.wf(),
        ensures
            r.wf(),
            r@.grid == table@,
            r@.cursor == (Cursor { x: 0, y: 0 }),
            r@.anchor == (Cursor { x: 0, y: 0 }),
            r@.mode == Mode::Table,
            r@.buf == empty_cell(),
    {
        Editor { table, c: Cursor::new(), anchor: Cursor::new(), m: Mode::Table, buf: String::new() }
    }

    pub fn table(&self) -> (r: &Table)
        ensures
            r@ == self@.grid,
    {
        &self.table
    }

    pub fn cursor(&self) -> (r: Cursor)
        ensures
            r == self@.cursor,
    {
        self.c
    }

    pub fn anchor(&self) -> (r: Cursor)
        ensures
            r == self@.anchor,
    {
        self.anchor
    }

    pub fn mode(&self) -> (r: Mode)
        ensures
            r == self@.mode,
    {
        self.m
    }

    pub fn buf(&self) -> (r: &String)
        ensures
            r@ == self@.buf,
    {
        &self.buf
    }

    /// Hands out the prompt buffer and leaves it empty.
    fn take_buf(&mut self) -> (r: String)
        ensures
            r@ == old(self)@.buf,
            final(self)@ == (EditorView { buf: empty_cell(), ..old(self)@ }),
    {
        let mut out = String::new();
        std::mem::swap(&mut out, &mut self.buf);
        out
    }

    /// Replaces the prompt buffer with a copy of `s`.
    fn set_buf(&mut self, s: &String)
        ensures
            final(self)@ == (EditorView { buf: s@, ..old(self)@ }),
    {
        self.buf = s.clone();
    }

    /// Scrolls so that the cursor's row is among the `visible` rows shown.
    pub fn align_view(&mut self, visible: usize)
        requires
            visible >= 1,
        ensures
            final(self)@ == (EditorView {
                anchor: Cursor {
                    y: aligned_anchor(
                        old(self)@.anchor.y as int,
                        old(self)@.cursor.y as int,
                        visible as int,
                    ) as usize,
                    ..old(self)@.anchor
                },
                ..old(self)@
            }),
            final(self)@.anchor.y <= final(self)@.cursor.y < final(self)@.anchor.y + visible,
    {
        align_anchor(&mut self.anchor, self.c, visible);
    }

    /// Carries out a basic action; says whether it asks for a save.
    fn do_basic(&mut self, action: Action) -> (save: bool)
        requires
            old(self).wf(),
            is_basic(action),
        ensures
            final(self).wf(),
            final(self)@ == apply_basic(old(self)@, action),
            save == (action == Action::Save),
    {
        let ghost s = self@;
        match action {
            Action::MoveCursor(dir) => {
                self.c.move_dir(dir, &self.table);
            },
            Action::EnterPrompt(p) => {
                match p {
                    PromptType::EditAppend => {
                        let v = self.table.get(self.c);
                        self.set_buf(&v);
                    },
                    _ => {
                        self.set_buf(&String::new());
                    },
                }
                self.m = Mode::Prompt(p);
            },
            Action::Prompt(_, p_action) => match p_action {
                PromptAction::Push(ch) => {
                    push_char(&mut self.buf, ch);
                },
                PromptAction::Backspace => {
                    pop_char(&mut self.buf);
                },
                PromptAction::Submit => {
                    let b = self.take_buf();
                    self.table.update(self.c, b);
                    if let Mode::Prompt(_) = self.m {
                        self.m = Mode::Table;
                    }
                },
                PromptAction::Exit => {
                    self.take_buf();
                    self.m = Mode::Table;
                },
            },
            Action::EnterMode(m) => {
                self.m = m;
            },
            Action::Append(ch) => {
                let mut val = self.table.get(self.c);
                push_char(&mut val, ch);
                self.table.update(self.c, val);
            },
            Action::Pop => {
                let mut val = self.table.get(self.c);
                pop_char(&mut val);
                self.table.update(self.c, val);
            },
            Action::ClearCell => {
                self.table.clear(self.c);
            },
            Action::AddRowAbove => {
                self.table.add_row_before(self.c);
            },
            Action::AddRowBelow => {
                self.table.add_row_after(self.c);
                self.c.move_dir(Dir::Down, &self.table);
            },
            Action::DeleteRow => {
                self.table.delete_row(&mut self.c);
            },
            Action::AddColLeft => {
                self.table.add_col_before(self.c);
                self.c.move_dir(Dir::Left, &self.table);
            },
            Action::AddColRight => {
                self.table.add_col_after(self.c);
            },
            Action::DeleteCol => {
                self.table.delete_col(&mut self.c);
            },
            Action::Save => {
                return true;
            },
            Action::Quit => {
                self.m = Mode::Exit;
            },
            Action::CarriageReturn => {},
        }
        false
    }

    /// Applies one action to the session; says whether the action asks for
    /// the table to be saved, which is left to the caller.
    pub fn do_action(&mut self, action: Action) -> (save: bool)
        requires
            old(self).wf(),
        ensures
            final(self).wf(),
            final(self)@ == apply(old(self)@, action),
            save == requests_save(old(self)@, action),
    {
        match action {
            Action::CarriageReturn => {
                let (_, h) = self.table.dims();
                if self.c.y == h - 1 {
                    self.do_basic(Action::AddRowBelow);
                }
                self.do_basic(Action::MoveCursor(Dir::Start));
                self.do_basic(Action::MoveCursor(Dir::Down));
                false
            },
            Action::Prompt(PromptType::Command, PromptAction::Submit) => {
                let ghost s = self@;
                let b = self.take_buf();
                let ghost s1 = self@;
                let actions = from_prompt(b);
                let mut saved = false;
                let mut i: usize = 0;
                while i < actions.len()
                    invariant
                        self.wf(),
                        actions@ == command_of(s.buf),
                        i <= actions@.len(),
                        self@ == apply_all(s1, actions@.subrange(0, i as int)),
                        saved == actions@.subrange(0, i as int).contains(Action::Save),
                    decreases actions.len() - i,
                {
                    let a = actions[i];
                    assert(actions@.subrange(0, i + 1).drop_last() == actions@.subrange(0, i as int));
                    if self.do_basic(a) {
                        saved = true;
                    }
                    i = i + 1;
                }
                assert(actions@.subrange(0, actions@.len() as int) == actions@);
                if let Mode::Prompt(_) = self.m {
                    self.m = Mode::Table;
                }
                saved
            },
            _ => self.do_basic(action),
        }
    }
}


/// Every basic action keeps the grid rectangular and at least 1 by 1, and
/// the cursor on it.
pub proof fn lemma_apply_basic_wf(s: EditorView, a: Action)
    requires
        view_wf(s),
    ensures
        view_wf(apply_basic(s, a)),
{
    let g = s.grid;
    let c = s.cursor;
    let r = apply_basic(s, a);
    match a {
        Action::AddRowAbove | Action::AddRowBelow => {
            let at = if a == Action::AddRowAbove { c.y as int } else { c.y + 1 };
            assert(r.grid[0].len() == width(g)) by {
                if at != 0 {
                    assert(r.grid[0] == g[0]);
                }
            }
            assert forall|i: int| 0 <= i < r.grid.len() implies #[trigger] r.grid[i].len() == r.grid[0].len() by {
                if i < at {
                    assert(r.grid[i] == g[i]);
                } else if i > at {
                    assert(r.grid[i] == g[i - 1]);
                }
            }
        },
        Action::DeleteRow => {
            if height(g) > 1 {
                assert(r.grid[0] == g[if c.y == 0 { 1int } else { 0int }]);
                assert forall|i: int| 0 <= i < r.grid.len() implies #[trigger] r.grid[i].len() == r.grid[0].len() by {
                    if i < c.y {
                        assert(r.grid[i] == g[i]);
                    } else {
                        assert(r.grid[i] == g[i + 1]);
                    }
                }
            }
        },
        Action::AddColLeft | Action::AddColRight => {
            assert forall|i: int| 0 <= i < r.grid.len() implies #[trigger] r.grid[i].len() == r.grid[0].len() by {
                assert(g[i].len() == g[0].len());
            }
        },
        Action::DeleteCol => {
            if width(g) > 1 {
                assert forall|i: int| 0 <= i < r.grid.len() implies #[trigger] r.grid[i].len() == r.grid[0].len() by {
                    assert(g[i].len() == g[0].len());
                }
            }
        },
        Action::MoveCursor(d) => {
            crate::cursor::lemma_moved_within(c, d, width(g), height(g));
        },
        _ => {
            if r.grid != g {
                assert(g[c.y as int].len() == width(g));
                assert forall|i: int| 0 <= i < r.grid.len() implies #[trigger] r.grid[i].len() == r.grid[0].len() by {
                    assert(g[i].len() == g[0].len());
                }
            }
        },
    }
}

/// Basic actions one after the other keep the session well formed.
pub proof fn lemma_apply_all_wf(s: EditorView, acts: Seq<Action>)
    requires
        view_wf(s),
    ensures
        view_wf(apply_all(s, acts)),
    decreases acts.len(),
{
    if acts.len() > 0 {
        lemma_apply_all_wf(s, acts.drop_last());
        lemma_apply_basic_wf(apply_all(s, acts.drop_last()), acts.last());
    }
}

/// After any action the grid is still rectangular and at least 1 by 1, and
/// the cursor still lies on it.
pub proof fn lemma_apply_wf(s: EditorView, a: Action)
    requires
        view_wf(s),
    ensures
        view_wf(apply(s, a)),
        grid_wf(apply(s, a).grid),
        apply(s, a).cursor.within(width(apply(s, a).grid), height(apply(s, a).grid)),
{
    match a {
        Action::CarriageReturn => {
            let s1 = if s.cursor.y + 1 == height(s.grid) {
                lemma_apply_basic_wf(s, Action::AddRowBelow);
                apply_basic(s, Action::AddRowBelow)
            } else {
                s
            };
            lemma_apply_basic_wf(s1, Action::MoveCursor(Dir::Start));
            lemma_apply_basic_wf(apply_basic(s1, Action::MoveCursor(Dir::Start)), Action::MoveCursor(Dir::Down));
        },
        Action::Prompt(PromptType::Command, PromptAction::Submit) => {
            lemma_apply_all_wf(EditorView { buf: empty_cell(), ..s }, command_of(s.buf));
        },
        _ => {
            lemma_apply_basic_wf(s, a);
        },
    }
}

/// Deleting the only row, or the only column, changes nothing.
pub proof fn lemma_delete_last_is_noop(s: EditorView)
    requires
        view_wf(s),
    ensures
        height(s.grid) == 1 ==> apply(s, Action::DeleteRow) == s,
        width(s.grid) == 1 ==> apply(s, Action::DeleteCol) == s,
        height(apply(s, Action::DeleteRow).grid) >= 1,
        width(apply(s, Action::DeleteCol).grid) >= 1,
{
    lemma_apply_wf(s, Action::DeleteRow);
    lemma_apply_wf(s, Action::DeleteCol);
}

} // verus!
