//! File selection screen: a checkbox per structure file and a Confirm button
//! after the last file. More than five files are laid out in columns,
//! filled top to bottom and then left to right, like `ls`.

use vstd::prelude::*;
use vstd::pervasive::unreached;
use crate::state::AppState;
use crate::text::{byte_len, str_byte_len};
use super::{checked_indices, CheckboxList, Key, ScreenAction};

verus! {

/// Grid layout is used above this many files.
pub const GRID_THRESHOLD: usize = 5;

/// Usable width of the screen in columns.
pub const MAX_WIDTH: usize = 80;

/// The longest byte length among the names.
pub open spec fn longest_name(files: Seq<String>) -> nat
    decreases files.len(),
{
    if files.len() == 0 {
        0
    } else {
        let rest = longest_name(files.drop_last());
        let l = byte_len(files.last()@);
        if l > rest { l } else { rest }
    }
}

/// Columns, rows and column width of the file grid.
#[derive(Debug, Clone, Copy, PartialEq, Eq, Structural)]
pub struct GridLayout {
    pub cols: usize,
    pub rows: usize,
    pub col_width: usize,
}

/// A layout with at least one column that has a cell for each of `count`
/// items and no empty column.
pub open spec fn layout_fits(l: GridLayout, count: nat) -> bool {
    &&& 1 <= l.cols <= MAX_WIDTH
    &&& l.rows * l.cols >= count
    &&& l.rows * l.cols <= count + l.cols - 1
    &&& l.rows <= count
}

impl GridLayout {
    pub open spec fn compute_spec(files: Seq<String>) -> GridLayout {
        let col_width = (longest_name(files) + 10) as usize;
        let fit = (MAX_WIDTH - 2) / (col_width as int);
        let cols = (if fit >= 1 { fit } else { 1 }) as usize;
        GridLayout { cols, rows: ((files.len() + cols - 1) / (cols as int)) as usize, col_width }
    }

    /// Layout for the given names: each cell holds a 4-column prefix, a
    /// 4-column checkbox and the longest name, columns are 2 apart, and as
    /// many columns as fit in the screen width (at least one) are used.
    pub fn compute(files: &[String]) -> (r: GridLayout)
        requires
            files@.len() <= usize::MAX / 4,
            forall|i: int| 0 <= i < files@.len() ==> byte_len(#[trigger] files@[i]@) <= usize::MAX / 4,
        ensures
            r.col_width == longest_name(files@) + 10,
            r.cols == if (MAX_WIDTH - 2) / (r.col_width as int) >= 1 {
                (MAX_WIDTH - 2) / (r.col_width as int)
            } else {
                1
            },
            r.rows == (files@.len() + r.cols - 1) / (r.cols as int),
            layout_fits(r, files@.len()),
            r == Self::compute_spec(files@),
    {
        let mut longest: usize = 0;
        let n = files.len();
        for i in 0..n
            invariant
                n == files@.len(),
                forall|j: int| 0 <= j < n ==> byte_len(#[trigger] files@[j]@) <= usize::MAX / 4,
                longest == longest_name(files@.take(i as int)),
                longest <= usize::MAX / 4,
        {
            proof {
                assert(files@.take(i + 1).drop_last() =~= files@.take(i as int));
            }
            let l = str_byte_len(files[i].as_str());
            if l > longest {
                longest = l;
            }
        }
        assert(files@.take(n as int) =~= files@);
        let cell_width = 4 + 4 + longest;
        let col_width = cell_width + 2;
        let fit = (MAX_WIDTH - 2) / col_width;
        let cols = if fit >= 1 { fit } else { 1 };
        let rows = (n + cols - 1) / cols;
        proof {
            lemma_ceil_div(n as int, cols as int);
        }
        GridLayout { cols, rows, col_width }
    }

    /// Item at a grid position, columns filled first: `col * rows + row`,
    /// when that is below `count`.
    pub fn index(&self, row: usize, col: usize, count: usize) -> (r: Option<usize>)
        requires
            col * self.rows + row <= usize::MAX,
        ensures
            r == if col * self.rows + row < count {
                Some((col * self.rows + row) as usize)
            } else {
                None
            },
    {
        let idx = col * self.rows + row;
        if idx < count {
            Some(idx)
        } else {
            None
        }
    }

    /// Grid position `(row, col)` of an item.
    pub fn position(&self, index: usize) -> (r: (usize, usize))
        requires
            self.rows > 0,
        ensures
            r == ((index % self.rows) as usize, (index / self.rows) as usize),
    {
        (index % self.rows, index / self.rows)
    }
}

proof fn lemma_ceil_div(n: int, c: int)
    requires
        n >= 0,
        c >= 1,
    ensures
        ((n + c - 1) / c) * c >= n,
        ((n + c - 1) / c) * c <= n + c - 1,
        (n + c - 1) / c <= n || n == 0,
        n == 0 ==> (n + c - 1) / c == 0,
{
    vstd::arithmetic::div_mod::lemma_fundamental_div_mod(n + c - 1, c);
    vstd::arithmetic::div_mod::lemma_mod_bound(n + c - 1, c);
    let q = (n + c - 1) / c;
    assert(q * c == c * q) by (nonlinear_arith);
    if n > 0 {
        assert(q <= n) by (nonlinear_arith)
            requires
                q * c <= n + c - 1,
                c >= 1,
                n >= 1,
        ;
    } else {
        vstd::arithmetic::div_mod::lemma_basic_div(c - 1, c);
    }
}

/// Reading a grid position back from an item's position gives the item:
/// `index(position(i)) == Some(i)` for every item `i`.
pub proof fn lemma_position_index(l: GridLayout, i: usize, count: usize)
    requires
        l.rows > 0,
        i < count,
    ensures
        (i / l.rows) * l.rows + i % l.rows == i,
        (i / l.rows) * l.rows + i % l.rows < count,
{
    vstd::arithmetic::div_mod::lemma_fundamental_div_mod(i as int, l.rows as int);
    assert((i / l.rows) * l.rows == l.rows * (i / l.rows)) by (nonlinear_arith);
}


proof fn lemma_cell_bound(col: int, row: int, rows: int, cols: int)
    requires
        0 <= col < cols,
        0 <= row < rows,
    ensures
        col * rows + row < cols * rows,
        col * rows + rows <= cols * rows,
        (col + 1) * rows == col * rows + rows,
        col > 0 ==> (col - 1) * rows == col * rows - rows,
        col * rows >= 0,
{
    assert(col * rows + rows <= cols * rows) by (nonlinear_arith)
        requires
            col < cols,
            rows > 0,
    ;
    assert((col + 1) * rows == col * rows + rows) by (nonlinear_arith);
    assert((col - 1) * rows == col * rows - rows) by (nonlinear_arith);
    assert(col * rows >= 0) by (nonlinear_arith)
        requires
            col >= 0,
            rows >= 0,
    ;
}

/// Whether every entry is checked.
pub open spec fn all_checked(c: Seq<bool>) -> bool {
    forall|j: int| 0 <= j < c.len() ==> c[j]
}

/// The message shown when confirming with no file selected.
pub open spec fn no_file_message() -> Seq<char> {
    "Select at least one file"@
}

pub struct FilePickScreen {
    pub checkboxes: CheckboxList,
    /// `0..file_count` are files; `file_count` is the Confirm button.
    pub focus: usize,
    pub file_count: usize,
    /// Grid layout is used (more than five files).
    pub use_grid: bool,
    /// The grid layout, present exactly in grid mode.
    pub cached_layout: Option<GridLayout>,
    pub grid_col: usize,
    pub grid_row: usize,
    pub error: Option<String>,
}

impl FilePickScreen {
    /// Position of the grid cell under `(grid_row, grid_col)`.
    pub open spec fn grid_pos(self) -> int {
        self.grid_col * self.cached_layout->0.rows + self.grid_row
    }

    /// One checkbox per file; the focus on a file or on Confirm; in grid
    /// mode the remembered grid cell holds a file and, unless Confirm is
    /// focused, is the focused file.
    pub open spec fn wf(self) -> bool {
        &&& self.checkboxes.checked@.len() == self.file_count
        &&& self.focus <= self.file_count
        &&& self.file_count <= usize::MAX / 4
        &&& self.use_grid == (self.file_count > GRID_THRESHOLD)
        &&& self.use_grid == self.cached_layout is Some
        &&& self.use_grid ==> {
            let l = self.cached_layout->0;
            &&& layout_fits(l, self.file_count as nat)
            &&& self.grid_row < l.rows
            &&& self.grid_col < l.cols
            &&& self.grid_pos() < self.file_count
            &&& self.focus < self.file_count ==> self.focus == self.grid_pos()
        }
    }

    pub open spec fn on_confirm_spec(self) -> bool {
        self.focus == self.file_count
    }

    /// A screen for `file_count` files named `files`, nothing selected, the
    /// first file focused.
    pub fn new(file_count: usize, files: &[String]) -> (r: Self)
        requires
            file_count == files@.len(),
            files@.len() <= usize::MAX / 4,
            forall|i: int| 0 <= i < files@.len() ==> byte_len(#[trigger] files@[i]@) <= usize::MAX / 4,
        ensures
            r.wf(),
            r.focus == 0,
            r.file_count == file_count,
            r.error is None,
            r.checkboxes.cursor == 0,
            forall|i: int| 0 <= i < file_count ==> !(#[trigger] r.checkboxes.checked@[i]),
            r.use_grid ==> r.cached_layout == Some(GridLayout::compute_spec(files@)),
            r.grid_row == 0 && r.grid_col == 0,
    {
        let use_grid = file_count > GRID_THRESHOLD;
        let cached_layout = if use_grid {
            Some(GridLayout::compute(files))
        } else {
            None
        };
        proof {
            if use_grid {
                let l = cached_layout->0;
                assert(l.rows >= 1) by (nonlinear_arith)
                    requires
                        l.rows * l.cols >= file_count,
                        file_count > 5,
                ;
                assert(0 * l.rows == 0);
            }
        }
        FilePickScreen {
            checkboxes: CheckboxList::new(file_count),
            focus: 0,
            file_count,
            use_grid,
            cached_layout,
            grid_col: 0,
            grid_row: 0,
            error: None,
        }
    }

    /// The grid layout (grid mode only).
    pub fn layout(&self) -> (r: &GridLayout)
        requires
            self.cached_layout is Some,
        ensures
            *r == self.cached_layout->0,
    {
        match &self.cached_layout {
            Some(l) => l,
            None => {
                assert(false);
                unreached()
            },
        }
    }

    /// Whether the Confirm button is focused.
    pub fn on_confirm(&self) -> (r: bool)
        ensures
            r == self.on_confirm_spec(),
    {
        self.focus == self.file_count
    }

    /// Focuses the file at the remembered grid cell, if there is one there.
    pub fn sync_focus_from_grid(&mut self, layout: &GridLayout) -> (r: bool)
        requires
            old(self).grid_col * layout.rows + old(self).grid_row <= usize::MAX,
        ensures
            r == (old(self).grid_col * layout.rows + old(self).grid_row < old(self).file_count),
            r ==> *final(self) == (FilePickScreen {
                focus: (old(self).grid_col * layout.rows + old(self).grid_row) as usize,
                checkboxes: CheckboxList {
                    cursor: (old(self).grid_col * layout.rows + old(self).grid_row) as usize,
                    ..old(self).checkboxes
                },
                ..*old(self)
            }),
            !r ==> *final(self) == *old(self),
    {
        match layout.index(self.grid_row, self.grid_col, self.file_count) {
            Some(idx) => {
                self.focus = idx;
                self.checkboxes.cursor = idx;
                true
            },
            None => false,
        }
    }
}


/// Enter: on Confirm, records the checked files and advances when at least
/// one is checked, else shows an error; on a file, flips its checkbox.
pub open spec fn enter_post(
    o: FilePickScreen,
    n: FilePickScreen,
    so: AppState,
    sn: AppState,
    r: ScreenAction,
) -> bool {
    if o.on_confirm_spec() {
        if exists|i: int| 0 <= i < o.checkboxes.checked@.len() && o.checkboxes.checked@[i] {
            &&& r == ScreenAction::Advance
            &&& n == (FilePickScreen { error: None, ..o })
            &&& sn == (AppState { selected_files: sn.selected_files, ..so })
            &&& sn.selected_files@ == checked_indices(o.checkboxes.checked@)
        } else {
            &&& r == ScreenAction::Continue
            &&& sn == so
            &&& n == (FilePickScreen { error: n.error, ..o })
            &&& n.error is Some
            &&& n.error->0@ == no_file_message()
        }
    } else {
        &&& r == ScreenAction::Continue
        &&& sn == so
        &&& n == (FilePickScreen { checkboxes: n.checkboxes, error: None, ..o })
        &&& n.checkboxes.cursor == o.focus
        &&& n.checkboxes.checked@ == o.checkboxes.checked@.update(
            o.focus as int,
            !o.checkboxes.checked@[o.focus as int],
        )
    }
}

/// Keys handled alike in both layouts: `a` checks all (or unchecks all when
/// all are checked), Esc goes back, `q` quits, others do nothing.
pub open spec fn common_post(
    o: FilePickScreen,
    n: FilePickScreen,
    so: AppState,
    sn: AppState,
    key: Key,
    r: ScreenAction,
) -> bool {
    match key {
        Key::Char('a') | Key::Char('A') => {
            &&& r == ScreenAction::Continue
            &&& sn == so
            &&& n == (FilePickScreen { checkboxes: n.checkboxes, error: None, ..o })
            &&& n.checkboxes.cursor == o.checkboxes.cursor
            &&& n.checkboxes.checked@.len() == o.checkboxes.checked@.len()
            &&& forall|i: int|
                0 <= i < n.checkboxes.checked@.len() ==> #[trigger] n.checkboxes.checked@[i]
                    == !all_checked(o.checkboxes.checked@)
        },
        Key::Esc => r == ScreenAction::Back && n == o && sn == so,
        Key::Char('q') => r == ScreenAction::Quit && n == o && sn == so,
        _ => r == ScreenAction::Continue && n == o && sn == so,
    }
}

/// The focused file with the checkbox cursor on it.
pub open spec fn focused_at(o: FilePickScreen, focus: int) -> FilePickScreen {
    FilePickScreen {
        focus: focus as usize,
        checkboxes: CheckboxList { cursor: focus as usize, ..o.checkboxes },
        error: None,
        ..o
    }
}

/// List layout: Up and Down move between the files and Confirm, stopping at
/// either end.
pub open spec fn vertical_post(
    o: FilePickScreen,
    n: FilePickScreen,
    so: AppState,
    sn: AppState,
    key: Key,
    r: ScreenAction,
) -> bool {
    let last = if o.file_count == 0 { 0 } else { o.file_count - 1 };
    match key {
        Key::Up => r == ScreenAction::Continue && sn == so && if o.focus > 0 {
            let f = o.focus - 1;
            n == (FilePickScreen {
                focus: f as usize,
                checkboxes: CheckboxList {
                    cursor: (if f < last { f } else { last }) as usize,
                    ..o.checkboxes
                },
                error: None,
                ..o
            })
        } else {
            n == (FilePickScreen { error: None, ..o })
        },
        Key::Down => r == ScreenAction::Continue && sn == so && if o.focus < o.file_count {
            let f = o.focus + 1;
            n == (FilePickScreen {
                focus: f as usize,
                checkboxes: CheckboxList {
                    cursor: (if f < last { f } else { last }) as usize,
                    ..o.checkboxes
                },
                error: None,
                ..o
            })
        } else {
            n == (FilePickScreen { error: None, ..o })
        },
        Key::Enter => enter_post(o, n, so, sn, r),
        _ => common_post(o, n, so, sn, key, r),
    }
}

/// Grid layout: Up and Down move within a column, Down past the last file of
/// a column reaches Confirm, Up from Confirm returns to the lowest file of
/// the remembered column; Left and Right move between columns when a file
/// is there.
pub open spec fn grid_post(
    o: FilePickScreen,
    n: FilePickScreen,
    so: AppState,
    sn: AppState,
    key: Key,
    r: ScreenAction,
) -> bool {
    let l = o.cached_layout->0;
    let base = o.grid_col * l.rows;
    match key {
        Key::Up => r == ScreenAction::Continue && sn == so && if o.on_confirm_spec() {
            let row = if l.rows - 1 < o.file_count - 1 - base {
                l.rows - 1
            } else {
                o.file_count - 1 - base
            };
            n == (FilePickScreen { grid_row: row as usize, ..focused_at(o, base + row) })
        } else if o.grid_row > 0 {
            n == (FilePickScreen { grid_row: (o.grid_row - 1) as usize, ..focused_at(o, o.focus - 1) })
        } else {
            n == (FilePickScreen { error: None, ..o })
        },
        Key::Down => r == ScreenAction::Continue && sn == so && if o.on_confirm_spec() {
            n == (FilePickScreen { error: None, ..o })
        } else if o.grid_row + 1 < l.rows && o.focus + 1 < o.file_count {
            n == (FilePickScreen { grid_row: (o.grid_row + 1) as usize, ..focused_at(o, o.focus + 1) })
        } else {
            n == (FilePickScreen { focus: o.file_count, error: None, ..o })
        },
        Key::Left => r == ScreenAction::Continue && sn == so && if !o.on_confirm_spec() && o.grid_col > 0 {
            n == (FilePickScreen { grid_col: (o.grid_col - 1) as usize, ..focused_at(o, o.focus - l.rows) })
        } else {
            n == (FilePickScreen { error: None, ..o })
        },
        Key::Right => r == ScreenAction::Continue && sn == so && if !o.on_confirm_spec() && o.grid_col
            + 1 < l.cols && o.focus + l.rows < o.file_count {
            n == (FilePickScreen { grid_col: (o.grid_col + 1) as usize, ..focused_at(o, o.focus + l.rows) })
        } else {
            n == (FilePickScreen { error: None, ..o })
        },
        Key::Enter => enter_post(o, n, so, sn, r),
        _ => common_post(o, n, so, sn, key, r),
    }
}

/// In grid mode: the focus is on a file or on Confirm, the remembered cell
/// holds a file, and when a file is focused it is the one in that cell and
/// the checkbox cursor is on it.
pub open spec fn grid_invariant(s: FilePickScreen) -> bool {
    let l = s.cached_layout->0;
    &&& s.focus <= s.file_count
    &&& s.grid_col * l.rows + s.grid_row < s.file_count
    &&& (s.focus == s.file_count || (s.focus == s.grid_col * l.rows + s.grid_row
        && s.checkboxes.cursor == s.focus))
}

/// Every key keeps the grid invariant (see [`grid_invariant`]) and leaves
/// the layout, the number of files and the number of checkboxes as they
/// were.
pub proof fn lemma_grid_invariant_kept(
    o: FilePickScreen,
    n: FilePickScreen,
    so: AppState,
    sn: AppState,
    key: Key,
    r: ScreenAction,
)
    requires
        o.wf(),
        o.use_grid,
        grid_invariant(o),
        grid_post(o, n, so, sn, key, r),
    ensures
        grid_invariant(n),
        n.use_grid,
        n.cached_layout == o.cached_layout,
        n.file_count == o.file_count,
        n.checkboxes.checked@.len() == o.checkboxes.checked@.len(),
{
    let l = o.cached_layout->0;
    lemma_cell_bound(o.grid_col as int, o.grid_row as int, l.rows as int, l.cols as int);
}

impl FilePickScreen {
    /// Handles a key in the current layout (see [`vertical_post`] and
    /// [`grid_post`]).
    pub fn handle_input(&mut self, key: Key, state: &mut AppState) -> (r: ScreenAction)
        requires
            old(self).wf(),
        ensures
            final(self).wf(),
            !old(self).use_grid ==> vertical_post(*old(self), *final(self), *old(state), *final(state), key, r),
            old(self).use_grid ==> grid_post(*old(self), *final(self), *old(state), *final(state), key, r),
    {
        if self.use_grid {
            self.handle_grid_input(key, state)
        } else {
            self.handle_vertical_input(key, state)
        }
    }

    fn handle_common(&mut self, key: Key, state: &mut AppState) -> (r: ScreenAction)
        requires
            old(self).wf(),
            !(key is Up || key is Down || key is Enter),
        ensures
            final(self).wf(),
            common_post(*old(self), *final(self), *old(state), *final(state), key, r),
    {
        match key {
            Key::Char('a') | Key::Char('A') => {
                self.checkboxes.select_all();
                self.error = None;
                ScreenAction::Continue
            },
            Key::Esc => ScreenAction::Back,
            Key::Char('q') => ScreenAction::Quit,
            _ => ScreenAction::Continue,
        }
    }

    fn handle_vertical_input(&mut self, key: Key, state: &mut AppState) -> (r: ScreenAction)
        requires
            old(self).wf(),
            !old(self).use_grid,
        ensures
            final(self).wf(),
            vertical_post(*old(self), *final(self), *old(state), *final(state), key, r),
    {
        let last = if self.file_count == 0 { 0 } else { self.file_count - 1 };
        match key {
            Key::Up => {
                if self.focus > 0 {
                    self.focus = self.focus - 1;
                    self.checkboxes.cursor = if self.focus < last { self.focus } else { last };
                }
                self.error = None;
                ScreenAction::Continue
            },
            Key::Down => {
                if self.focus < self.file_count {
                    self.focus = self.focus + 1;
                    self.checkboxes.cursor = if self.focus < last { self.focus } else { last };
                }
                self.error = None;
                ScreenAction::Continue
            },
            Key::Enter => self.handle_enter(state),
            _ => self.handle_common(key, state),
        }
    }

    fn handle_grid_input(&mut self, key: Key, state: &mut AppState) -> (r: ScreenAction)
        requires
            old(self).wf(),
            old(self).use_grid,
        ensures
            final(self).wf(),
            grid_post(*old(self), *final(self), *old(state), *final(state), key, r),
    {
        let layout = *self.layout();
        let ghost base = self.grid_col * layout.rows;
        proof {
            lemma_cell_bound(self.grid_col as int, self.grid_row as int, layout.rows as int, layout.cols as int);
        }
        match key {
            Key::Up => {
                self.error = None;
                if self.on_confirm() {
                    let mut row = layout.rows - 1;
                    while row > 0 && self.grid_col * layout.rows + row >= self.file_count
                        invariant
                            row < layout.rows,
                            base == self.grid_col * layout.rows,
                            base < self.file_count,
                            base + layout.rows <= layout.cols * layout.rows,
                            layout.cols * layout.rows <= self.file_count + layout.cols - 1,
                            layout.cols <= MAX_WIDTH,
                            self.file_count <= usize::MAX / 4,
                            layout.rows - 1 < self.file_count - 1 - base ==> row == layout.rows - 1,
                            row >= (if layout.rows - 1 < self.file_count - 1 - base {
                                layout.rows - 1
                            } else {
                                self.file_count - 1 - base
                            }),
                        decreases row,
                    {
                        row = row - 1;
                    }
                    self.grid_row = row;
                    self.sync_focus_from_grid(&layout);
                } else if self.grid_row > 0 {
                    self.grid_row = self.grid_row - 1;
                    self.sync_focus_from_grid(&layout);
                }
                ScreenAction::Continue
            },
            Key::Down => {
                self.error = None;
                if self.on_confirm() {
                } else if self.grid_row + 1 < layout.rows {
                    let new_row = self.grid_row + 1;
                    if layout.index(new_row, self.grid_col, self.file_count).is_some() {
                        self.grid_row = new_row;
                        self.sync_focus_from_grid(&layout);
                    } else {
                        self.focus = self.file_count;
                    }
                } else {
                    self.focus = self.file_count;
                }
                ScreenAction::Continue
            },
            Key::Left => {
                self.error = None;
                if !self.on_confirm() && self.grid_col > 0 {
                    self.grid_col = self.grid_col - 1;
                    if !self.sync_focus_from_grid(&layout) {
                        self.grid_col = self.grid_col + 1;
                    }
                }
                ScreenAction::Continue
            },
            Key::Right => {
                self.error = None;
                if !self.on_confirm() && self.grid_col + 1 < layout.cols {
                    let new_col = self.grid_col + 1;
                    if layout.index(self.grid_row, new_col, self.file_count).is_some() {
                        self.grid_col = new_col;
                        self.sync_focus_from_grid(&layout);
                    }
                }
                ScreenAction::Continue
            },
            Key::Enter => self.handle_enter(state),
            _ => self.handle_common(key, state),
        }
    }

    fn handle_enter(&mut self, state: &mut AppState) -> (r: ScreenAction)
        requires
            old(self).wf(),
        ensures
            final(self).wf(),
            enter_post(*old(self), *final(self), *old(state), *final(state), r),
    {
        self.error = None;
        if self.on_confirm() {
            if self.checkboxes.any_selected() {
                state.selected_files = self.checkboxes.selected_indices();
                ScreenAction::Advance
            } else {
                self.error = Some(String::from_str("Select at least one file"));
                ScreenAction::Continue
            }
        } else {
            self.checkboxes.cursor = self.focus;
            self.checkboxes.toggle();
            ScreenAction::Continue
        }
    }
}

} // verus!
