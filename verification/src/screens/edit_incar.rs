//! INCAR parameter screen: every parameter as an editable line, sorted by
//! name, with a Confirm button after them. Enter edits a value, `d` deletes
//! a parameter, `+` adds one (name first, then value). More than ten
//! parameters are laid out in columns, filled top to bottom.

use vstd::prelude::*;
use crate::incar::{format_incar_value, format_spec, parse_incar_value, parse_spec, IncarParams};
use crate::order::{
    find_key, insert_sorted, keys_of, lemma_lookup_absent, lemma_lookup_at, lemma_lookup_contains,
    lemma_lookup_insert, lemma_seq_lt_irreflexive, lemma_sorted_remove, lemma_sorted_take, lookup, sorted_keys,
};
use crate::state::AppState;
use crate::text::{byte_len, str_byte_len, to_uppercase, trim, trim_str, uppercase_of};
use super::{key_edit, Key, ScreenAction, TextBuffer};

verus! {

/// Grid layout is used above this many parameters.
pub const GRID_THRESHOLD: usize = 10;

/// Usable width of the screen in columns.
pub const MAX_WIDTH: usize = 80;

/// Most parameters the screen holds.
pub const PARAM_LIMIT: usize = usize::MAX / 8;

/// `x`, or `usize::MAX` when it does not fit.
pub open spec fn sat(x: int) -> usize {
    if x > usize::MAX {
        usize::MAX
    } else if x < 0 {
        0
    } else {
        x as usize
    }
}

/// Columns taken by `KEY      = VALUE` (the name padded to 8).
pub open spec fn entry_width(k: Seq<char>, v: Seq<char>) -> usize {
    let kl = byte_len(k) as int;
    let padded: int = if kl > 8 { kl } else { 8 };
    sat(sat(padded + 3) + byte_len(v))
}

/// The widest entry.
pub open spec fn widest(p: Seq<(String, String)>) -> usize
    decreases p.len(),
{
    if p.len() == 0 {
        0
    } else {
        let rest = widest(p.drop_last());
        let w = entry_width(p.last().0@, p.last().1@);
        if w > rest { w } else { rest }
    }
}

/// Columns, rows and column width of the parameter grid.
#[derive(Debug, Clone, Copy, PartialEq, Eq, Structural)]
pub struct ParamGridLayout {
    pub cols: usize,
    pub rows: usize,
    pub col_width: usize,
}

pub open spec fn param_layout_fits(l: ParamGridLayout, count: nat) -> bool {
    &&& 1 <= l.cols <= MAX_WIDTH
    &&& l.rows * l.cols >= count
    &&& l.rows * l.cols <= count + l.cols - 1
    &&& l.rows <= count
}

impl ParamGridLayout {
    /// A cell holds a 4-column prefix, the widest entry and a 2-column gap
    /// (widths saturate at `usize::MAX`); as many columns as fit (at least
    /// one).
    pub open spec fn compute_spec(p: Seq<(String, String)>) -> ParamGridLayout {
        let cell = sat(sat(4 + widest(p)) + 2);
        let fit = (MAX_WIDTH - 2) / (cell as int);
        let cols = (if fit >= 1 { fit } else { 1 }) as usize;
        ParamGridLayout { cols, rows: ((p.len() + cols - 1) / (cols as int)) as usize, col_width: cell }
    }

    pub fn compute(params: &[(String, String)]) -> (r: ParamGridLayout)
        requires
            params@.len() <= PARAM_LIMIT,
        ensures
            r == Self::compute_spec(params@),
            param_layout_fits(r, params@.len()),
    {
        let mut longest: usize = 0;
        let n = params.len();
        for i in 0..n
            invariant
                n == params@.len(),
                longest == widest(params@.take(i as int)),
        {
            proof {
                assert(params@.take(i + 1).drop_last() =~= params@.take(i as int));
            }
            let kl = str_byte_len(params[i].0.as_str());
            let vl = str_byte_len(params[i].1.as_str());
            let padded = if kl > 8 { kl } else { 8 };
            let w = padded.saturating_add(3).saturating_add(vl);
            if w > longest {
                longest = w;
            }
        }
        assert(params@.take(n as int) =~= params@);
        let cell_width = 4usize.saturating_add(longest).saturating_add(2);
        let fit = (MAX_WIDTH - 2) / cell_width;
        let cols = if fit >= 1 { fit } else { 1 };
        let rows = (n + cols - 1) / cols;
        proof {
            lemma_ceil_div(n as int, cols as int);
        }
        ParamGridLayout { cols, rows, col_width: cell_width }
    }

    /// Parameter at a grid position, columns filled first.
    pub fn index(&self, row: usize, col: usize, count: usize) -> (r: Option<usize>)
        requires
            col * self.rows + row <= usize::MAX,
        ensures
            r == if col * self.rows + row < count {
                Some((col * self.rows + row) as usize)
            } else {
                None
            },
    {
        let idx = col * self.rows + row;
        if idx < count {
            Some(idx)
        } else {
            None
        }
    }
}

proof fn lemma_ceil_div(n: int, c: int)
    requires
        n >= 0,
        c >= 1,
    ensures
        ((n + c - 1) / c) * c >= n,
        ((n + c - 1) / c) * c <= n + c - 1,
        (n + c - 1) / c <= n || n == 0,
        n == 0 ==> (n + c - 1) / c == 0,
{
    vstd::arithmetic::div_mod::lemma_fundamental_div_mod(n + c - 1, c);
    vstd::arithmetic::div_mod::lemma_mod_bound(n + c - 1, c);
    let q = (n + c - 1) / c;
    assert(q * c == c * q) by (nonlinear_arith);
    if n > 0 {
        assert(q <= n) by (nonlinear_arith)
            requires
                q * c <= n + c - 1,
                c >= 1,
                n >= 1,
        ;
    } else {
        vstd::arithmetic::div_mod::lemma_basic_div(c - 1, c);
    }
}

proof fn lemma_cell_bound(col: int, row: int, rows: int, cols: int)
    requires
        0 <= col < cols,
        0 <= row < rows,
    ensures
        col * rows + row < cols * rows,
        col * rows + rows <= cols * rows,
        (col + 1) * rows == col * rows + rows,
        col > 0 ==> (col - 1) * rows == col * rows - rows,
        col * rows >= 0,
{
    assert(col * rows + rows <= cols * rows) by (nonlinear_arith)
        requires
            col < cols,
            rows > 0,
    ;
    assert((col + 1) * rows == col * rows + rows) by (nonlinear_arith);
    assert((col - 1) * rows == col * rows - rows) by (nonlinear_arith);
    assert(col * rows >= 0) by (nonlinear_arith)
        requires
            col >= 0,
            rows >= 0,
    ;
}

proof fn lemma_position(i: int, rows: int, cols: int, count: int)
    requires
        0 <= i < count,
        rows >= 1,
        rows * cols >= count,
        cols >= 1,
    ensures
        (i / rows) * rows + i % rows == i,
        0 <= i % rows < rows,
        0 <= i / rows < cols,
{
    vstd::arithmetic::div_mod::lemma_fundamental_div_mod(i, rows);
    vstd::arithmetic::div_mod::lemma_mod_bound(i, rows);
    assert((i / rows) * rows == rows * (i / rows)) by (nonlinear_arith);
    let q = i / rows;
    assert(q >= 0) by {
        vstd::arithmetic::div_mod::lemma_div_pos_is_pos(i, rows);
    }
    assert(q < cols) by (nonlinear_arith)
        requires
            q * rows <= i,
            i < count,
            rows * cols >= count,
            rows >= 1,
            q >= 0,
    ;
}

/// What the screen is doing.
#[derive(Debug, Clone, Copy, PartialEq, Eq, Structural)]
pub enum Mode {
    /// Moving between parameters and the Confirm button.
    Navigate,
    /// Editing the focused parameter's value.
    EditValue,
    /// Typing the name of a new parameter.
    AddKey,
    /// Typing the value of a new parameter.
    AddValue,
}

pub struct EditIncarScreen {
    /// `(name, shown value)` pairs, sorted by name, each name once.
    pub params: Vec<(String, String)>,
    /// `0..param_count` are parameters, `param_count` is Confirm.
    pub focus: usize,
    pub mode: Mode,
    pub input: TextBuffer,
    /// Name of the parameter being added.
    pub add_key: String,
    pub use_grid: bool,
    pub cached_layout: Option<ParamGridLayout>,
    pub grid_row: usize,
    pub grid_col: usize,
    pub error: Option<String>,
}

pub open spec fn no_params_message() -> Seq<char> {
    "No parameters to submit"@
}

pub open spec fn empty_value_message() -> Seq<char> {
    "Value cannot be empty"@
}

/// `"{KEY} already exists — edit it instead"`
pub open spec fn duplicate_message(k: Seq<char>) -> Seq<char> {
    k + " already exists — edit it instead"@
}

impl EditIncarScreen {
    pub open spec fn count(self) -> nat {
        self.params@.len()
    }

    pub open spec fn keys(self) -> Seq<Seq<char>> {
        keys_of(self.params@)
    }

    pub open spec fn grid_pos(self) -> int {
        self.grid_col * self.cached_layout->0.rows + self.grid_row
    }

    /// Sorted distinct names; the focus on a parameter or Confirm (on a
    /// parameter while editing it); a new name not taken; in grid mode the
    /// remembered cell holds a parameter and, unless Confirm is focused, is
    /// the focused one.
    pub open spec fn wf(self) -> bool {
        &&& sorted_keys(self.keys())
        &&& self.count() <= PARAM_LIMIT
        &&& self.focus <= self.count()
        &&& self.mode == Mode::EditValue ==> self.focus < self.count()
        &&& self.mode == Mode::AddValue ==> !self.keys().contains(self.add_key@)
        &&& self.input.wf()
        &&& self.use_grid == (self.count() > GRID_THRESHOLD)
        &&& self.use_grid == self.cached_layout is Some
        &&& self.use_grid ==> {
            let l = self.cached_layout->0;
            &&& param_layout_fits(l, self.count())
            &&& self.grid_row < l.rows
            &&& self.grid_col < l.cols
            &&& self.grid_pos() < self.count()
            &&& self.focus < self.count() ==> self.focus == self.grid_pos()
        }
    }

    pub open spec fn on_confirm_spec(self) -> bool {
        self.focus == self.count()
    }

    /// The grid state for a parameter list: layout and cell of `idx`.
    pub open spec fn regrid(self, params: Seq<(String, String)>, focus: int) -> EditIncarScreen {
        let grid = params.len() > GRID_THRESHOLD;
        let l = ParamGridLayout::compute_spec(params);
        EditIncarScreen {
            use_grid: grid,
            cached_layout: if grid { Some(l) } else { None },
            grid_col: if grid { (focus / (l.rows as int)) as usize } else { self.grid_col },
            grid_row: if grid { (focus % (l.rows as int)) as usize } else { self.grid_row },
            ..self
        }
    }
}

/// The pairs shown for a parameter table: each name with its value's text.
pub open spec fn shown_params(p: IncarParams) -> Seq<(Seq<char>, Seq<char>)> {
    p.entries().map_values(|e: (String, crate::incar::IncarValue)| (e.0@, format_spec(e.1@)))
}

pub open spec fn pair_views(p: Seq<(String, String)>) -> Seq<(Seq<char>, Seq<char>)> {
    p.map_values(|e: (String, String)| (e.0@, e.1@))
}

/// Parameter table built from the screen: each name with its text read
/// back as a value.
pub open spec fn written_value(params: Seq<(String, String)>, k: Seq<char>) -> Option<crate::incar::IncarVal> {
    match lookup(params, k) {
        Some(v) => Some(parse_spec(v@)),
        None => None,
    }
}


impl EditIncarScreen {
    /// The screen for the parameters of `state`, each shown as its text, the
    /// first one focused.
    pub fn new(state: &AppState) -> (r: Self)
        requires
            state.incar_params.entries().len() <= PARAM_LIMIT,
        ensures
            r.wf(),
            pair_views(r.params@) == shown_params(state.incar_params),
            r.focus == 0,
            r.mode == Mode::Navigate,
            r.input.content@.len() == 0,
            r.add_key@.len() == 0,
            r.use_grid == (r.count() > GRID_THRESHOLD),
            r.cached_layout == if r.use_grid {
                Some(ParamGridLayout::compute_spec(r.params@))
            } else {
                None
            },
            r.grid_row == 0,
            r.grid_col == 0,
            r.error is Some == state.error is Some,
            r.error is Some ==> r.error->0@ == state.error->0@,
    {
        let params = Self::params_from_state(state);
        let use_grid = params.len() > GRID_THRESHOLD;
        let cached_layout = if use_grid {
            Some(ParamGridLayout::compute(params.as_slice()))
        } else {
            None
        };
        let error = match &state.error {
            Some(e) => Some(e.clone()),
            None => None,
        };
        let r = EditIncarScreen {
            focus: 0,
            use_grid,
            cached_layout,
            params,
            mode: Mode::Navigate,
            input: TextBuffer::new(),
            add_key: String::new(),
            grid_row: 0,
            grid_col: 0,
            error,
        };
        proof {
            if use_grid {
                let l = cached_layout->0;
                assert(l.rows > 0) by (nonlinear_arith)
                    requires
                        l.rows * l.cols >= r.count(),
                        r.count() > 10,
                        l.cols >= 1,
                ;
                assert(r.grid_col * r.cached_layout->0.rows == 0) by (nonlinear_arith)
                    requires
                        r.grid_col == 0,
                ;
            }
        }
        r
    }

    /// The `(name, text)` pairs of the parameters of `state`, in name order.
    fn params_from_state(state: &AppState) -> (r: Vec<(String, String)>)
        ensures
            r@.len() == state.incar_params.entries().len(),
            pair_views(r@) == shown_params(state.incar_params),
            sorted_keys(keys_of(r@)),
    {
        let p = &state.incar_params;
        let n = p.len();
        let mut pairs: Vec<(String, String)> = Vec::new();
        for i in 0..n
            invariant
                n == p.entries().len(),
                sorted_keys(p.names()),
                pairs@.len() == i,
                forall|j: int| 0 <= j < i ==> #[trigger] pair_views(pairs@)[j] == shown_params(*p)[j],
        {
            let ghost before = pairs@;
            let k = p.name_at(i).clone();
            let v = format_incar_value(p.value_at(i));
            pairs.push((k, v));
            proof {
                assert forall|j: int| 0 <= j <= i implies #[trigger] pair_views(pairs@)[j]
                    == shown_params(*p)[j] by {
                    if j < i {
                        assert(pairs@[j] == before[j]);
                        assert(pair_views(before)[j] == shown_params(*p)[j]);
                    }
                }
            }
        }
        proof {
            assert(pair_views(pairs@) =~= shown_params(*p));
            assert(keys_of(pairs@) =~= p.names()) by {
                assert forall|j: int| 0 <= j < n implies keys_of(pairs@)[j] == p.names()[j] by {
                    assert(pair_views(pairs@)[j] == shown_params(*p)[j]);
                }
            }
        }
        pairs
    }

    /// Lays the parameters out again after one was added or deleted.
    fn recompute_layout(&mut self)
        requires
            old(self).params@.len() <= PARAM_LIMIT,
        ensures
            *final(self) == (EditIncarScreen {
                use_grid: final(self).use_grid,
                cached_layout: final(self).cached_layout,
                ..*old(self)
            }),
            final(self).use_grid == (old(self).count() > GRID_THRESHOLD),
            final(self).cached_layout == if final(self).use_grid {
                Some(ParamGridLayout::compute_spec(old(self).params@))
            } else {
                None
            },
            final(self).use_grid ==> param_layout_fits(final(self).cached_layout->0, old(self).count()),
    {
        self.use_grid = self.params.len() > GRID_THRESHOLD;
        self.cached_layout = if self.use_grid {
            Some(ParamGridLayout::compute(self.params.as_slice()))
        } else {
            None
        };
    }

    /// The grid layout (grid mode only).
    pub fn layout(&self) -> (r: &ParamGridLayout)
        requires
            self.cached_layout is Some,
        ensures
            *r == self.cached_layout->0,
    {
        match &self.cached_layout {
            Some(l) => l,
            None => {
                assert(false);
                unreached()
            },
        }
    }

    pub fn param_count(&self) -> (r: usize)
        ensures
            r == self.count(),
    {
        self.params.len()
    }

    /// Whether the Confirm button is focused.
    pub fn on_confirm(&self) -> (r: bool)
        ensures
            r == self.on_confirm_spec(),
    {
        self.focus == self.params.len()
    }

    /// Focuses the parameter at the remembered grid cell, if there is one.
    pub fn sync_focus_from_grid(&mut self, layout: &ParamGridLayout) -> (r: bool)
        requires
            old(self).grid_col * layout.rows + old(self).grid_row <= usize::MAX,
        ensures
            r == (old(self).grid_col * layout.rows + old(self).grid_row < old(self).count()),
            r ==> *final(self) == (EditIncarScreen {
                focus: (old(self).grid_col * layout.rows + old(self).grid_row) as usize,
                ..*old(self)
            }),
            !r ==> *final(self) == *old(self),
    {
        match layout.index(self.grid_row, self.grid_col, self.params.len()) {
            Some(idx) => {
                self.focus = idx;
                true
            },
            None => false,
        }
    }

    /// Replaces the parameters of `state` by the screen's, each text read
    /// back as a value.
    pub fn write_to_state(&self, state: &mut AppState)
        requires
            sorted_keys(self.keys()),
        ensures
            *final(state) == (AppState { incar_params: final(state).incar_params, ..*old(state) }),
            final(state).incar_params.entries().len() == self.count(),
            forall|k: Seq<char>| #[trigger] final(state).incar_params.get_spec(k)
                == written_value(self.params@, k),
    {
        let ghost p = self.params@;
        state.incar_params.clear();
        let n = self.params.len();
        for i in 0..n
            invariant
                n == p.len(),
                p == self.params@,
                sorted_keys(keys_of(p)),
                *state == (AppState { incar_params: state.incar_params, ..*old(state) }),
                state.incar_params.entries().len() == i,
                forall|k: Seq<char>| #[trigger] state.incar_params.get_spec(k)
                    == written_value(p.take(i as int), k),
        {
            let ghost before = state.incar_params;
            let key = self.params[i].0.clone();
            let val = parse_incar_value(self.params[i].1.as_str());
            proof {
                let t = p.take(i as int);
                lemma_sorted_take(p, i as int);
                lemma_sorted_take(p, i + 1);
                assert(p.take(i + 1) =~= t.insert(i as int, p[i as int]));
                assert(!keys_of(t).contains(key@)) by {
                    if keys_of(t).contains(key@) {
                        let j = choose|j: int| 0 <= j < keys_of(t).len() && keys_of(t)[j] == key@;
                        assert(keys_of(p)[j] == key@);
                        assert(keys_of(p)[i as int] == key@);
                        lemma_seq_lt_irreflexive(key@);
                    }
                }
                lemma_lookup_absent(t, key@);
                assert(before.get_spec(key@) is None);
                lemma_lookup_contains(before.entries(), key@);
            }
            state.incar_params.insert(key, val);
            proof {
                let t = p.take(i as int);
                let t1 = p.take(i + 1);
                lemma_lookup_at(t1, i as int);
                assert forall|k: Seq<char>| #[trigger] state.incar_params.get_spec(k)
                    == written_value(t1, k) by {
                    if k != p[i as int].0@ {
                        lemma_lookup_insert(t, i as int, p[i as int], k);
                    }
                }
            }
        }
        proof {
            assert(p.take(n as int) =~= p);
        }
    }
}


/// The parameter at `focus` focused, no error shown.
pub open spec fn focused_at(o: EditIncarScreen, focus: int) -> EditIncarScreen {
    EditIncarScreen { focus: focus as usize, error: None, ..o }
}

/// Enter while navigating: on Confirm, writes the parameters to the state
/// and advances, or shows an error when there are none; on a parameter,
/// starts editing its value with its text in the buffer.
pub open spec fn enter_post(
    o: EditIncarScreen,
    n: EditIncarScreen,
    so: AppState,
    sn: AppState,
    r: ScreenAction,
) -> bool {
    if o.on_confirm_spec() {
        if o.count() == 0 {
            &&& r == ScreenAction::Continue
            &&& sn == so
            &&& n == (EditIncarScreen { error: n.error, ..o })
            &&& n.error is Some
            &&& n.error->0@ == no_params_message()
        } else {
            &&& r == ScreenAction::Advance
            &&& n == (EditIncarScreen { error: None, ..o })
            &&& sn == (AppState { incar_params: sn.incar_params, ..so })
            &&& sn.incar_params.entries().len() == o.count()
            &&& forall|k: Seq<char>| #[trigger] sn.incar_params.get_spec(k) == written_value(o.params@, k)
        }
    } else {
        &&& r == ScreenAction::Continue
        &&& sn == so
        &&& n == (EditIncarScreen { input: n.input, mode: Mode::EditValue, error: None, ..o })
        &&& n.input.wf()
        &&& n.input.content@ == o.params@[o.focus as int].1@
        &&& n.input.cursor() == n.input.content@.len()
    }
}

/// `d`: deletes the focused parameter (nothing on Confirm or with none
/// left); the focus stays at its place, or moves to the new last parameter.
pub open spec fn delete_post(o: EditIncarScreen, n: EditIncarScreen, r: ScreenAction) -> bool {
    &&& r == ScreenAction::Continue
    &&& if o.on_confirm_spec() || o.count() == 0 {
        n == o
    } else {
        let rest = o.params@.remove(o.focus as int);
        let f = if o.focus >= rest.len() && o.focus > 0 {
            rest.len() - 1
        } else {
            o.focus as int
        };
        &&& n.params@ == rest
        &&& n == (EditIncarScreen { params: n.params, focus: f as usize, error: None, ..o.regrid(rest, f) })
    }
}

/// `+`: starts adding a parameter, with an empty name.
pub open spec fn start_add_post(o: EditIncarScreen, n: EditIncarScreen) -> bool {
    &&& n == (EditIncarScreen {
        input: n.input,
        add_key: n.add_key,
        mode: Mode::AddKey,
        error: None,
        ..o
    })
    &&& n.input.wf()
    &&& n.input.content@.len() == 0
    &&& n.input.cursor() == 0
    &&& n.add_key@.len() == 0
}

/// Keys handled alike in both layouts while navigating: Enter, `d`/`D`,
/// `+`, Esc goes back, `q` quits, others do nothing.
pub open spec fn nav_common_post(
    o: EditIncarScreen,
    n: EditIncarScreen,
    so: AppState,
    sn: AppState,
    key: Key,
    r: ScreenAction,
) -> bool {
    match key {
        Key::Enter => enter_post(o, n, so, sn, r),
        Key::Char('d') | Key::Char('D') => sn == so && delete_post(o, n, r),
        Key::Char('+') => sn == so && r == ScreenAction::Continue && start_add_post(o, n),
        Key::Esc => r == ScreenAction::Back && n == o && sn == so,
        Key::Char('q') => r == ScreenAction::Quit && n == o && sn == so,
        _ => r == ScreenAction::Continue && n == o && sn == so,
    }
}

/// List layout: Up and Down move between the parameters and Confirm,
/// stopping at either end.
pub open spec fn vertical_post(
    o: EditIncarScreen,
    n: EditIncarScreen,
    so: AppState,
    sn: AppState,
    key: Key,
    r: ScreenAction,
) -> bool {
    match key {
        Key::Up => r == ScreenAction::Continue && sn == so && n == if o.focus > 0 {
            focused_at(o, o.focus - 1)
        } else {
            EditIncarScreen { error: None, ..o }
        },
        Key::Down => r == ScreenAction::Continue && sn == so && n == if o.focus < o.count() {
            focused_at(o, o.focus + 1)
        } else {
            EditIncarScreen { error: None, ..o }
        },
        _ => nav_common_post(o, n, so, sn, key, r),
    }
}

/// Grid layout: Up and Down move within a column, Down past the last
/// parameter of a column reaches Confirm, Up from Confirm returns to the
/// lowest parameter of the remembered column; Left and Right move between
/// columns when a parameter is there.
pub open spec fn grid_post(
    o: EditIncarScreen,
    n: EditIncarScreen,
    so: AppState,
    sn: AppState,
    key: Key,
    r: ScreenAction,
) -> bool {
    let l = o.cached_layout->0;
    let base = o.grid_col * l.rows;
    match key {
        Key::Up => r == ScreenAction::Continue && sn == so && if o.on_confirm_spec() {
            let row = if l.rows - 1 < o.count() - 1 - base {
                l.rows - 1
            } else {
                o.count() - 1 - base
            };
            n == (EditIncarScreen { grid_row: row as usize, ..focused_at(o, base + row) })
        } else if o.grid_row > 0 {
            n == (EditIncarScreen { grid_row: (o.grid_row - 1) as usize, ..focused_at(o, o.focus - 1) })
        } else {
            n == (EditIncarScreen { error: None, ..o })
        },
        Key::Down => r == ScreenAction::Continue && sn == so && if o.on_confirm_spec() {
            n == (EditIncarScreen { error: None, ..o })
        } else if o.grid_row + 1 < l.rows && o.focus + 1 < o.count() {
            n == (EditIncarScreen { grid_row: (o.grid_row + 1) as usize, ..focused_at(o, o.focus + 1) })
        } else {
            n == (EditIncarScreen { focus: o.count() as usize, error: None, ..o })
        },
        Key::Left => r == ScreenAction::Continue && sn == so && if !o.on_confirm_spec() && o.grid_col > 0 {
            n == (EditIncarScreen { grid_col: (o.grid_col - 1) as usize, ..focused_at(o, o.focus - l.rows) })
        } else {
            n == (EditIncarScreen { error: None, ..o })
        },
        Key::Right => r == ScreenAction::Continue && sn == so && if !o.on_confirm_spec() && o.grid_col
            + 1 < l.cols && o.focus + l.rows < o.count() {
            n == (EditIncarScreen { grid_col: (o.grid_col + 1) as usize, ..focused_at(o, o.focus + l.rows) })
        } else {
            n == (EditIncarScreen { error: None, ..o })
        },
        _ => nav_common_post(o, n, so, sn, key, r),
    }
}

/// A key typed into the buffer: the buffer edits as [`key_edit`] says and
/// the error is cleared.
pub open spec fn typed_post(o: EditIncarScreen, n: EditIncarScreen, key: Key, r: ScreenAction) -> bool {
    &&& r == ScreenAction::Continue
    &&& n == (EditIncarScreen { input: n.input, error: None, ..o })
    &&& key_edit(o.input, n.input, key)
}

/// Editing a value: Esc or Enter stores the trimmed text when it is not
/// blank and ends the edit; other keys edit the text.
pub open spec fn edit_post(o: EditIncarScreen, n: EditIncarScreen, key: Key, r: ScreenAction) -> bool {
    match key {
        Key::Esc | Key::Enter => {
            let t = trim(o.input.content@);
            &&& r == ScreenAction::Continue
            &&& if t.len() > 0 {
                &&& n == (EditIncarScreen { params: n.params, mode: Mode::Navigate, ..o })
                &&& pair_views(n.params@) == pair_views(o.params@).update(
                    o.focus as int,
                    (o.params@[o.focus as int].0@, t),
                )
            } else {
                n == (EditIncarScreen { mode: Mode::Navigate, ..o })
            }
        },
        _ => typed_post(o, n, key, r),
    }
}

/// Typing a new name: Esc cancels; Enter takes the trimmed text in upper
/// case: blank cancels, a name already present is refused with an error,
/// another one moves on to its value with an empty buffer.
pub open spec fn add_key_post(o: EditIncarScreen, n: EditIncarScreen, key: Key, r: ScreenAction) -> bool {
    match key {
        Key::Esc => r == ScreenAction::Continue && n == (EditIncarScreen {
            mode: Mode::Navigate,
            error: None,
            ..o
        }),
        Key::Enter => {
            let k = uppercase_of(trim(o.input.content@));
            &&& r == ScreenAction::Continue
            &&& if k.len() == 0 {
                n == (EditIncarScreen { mode: Mode::Navigate, ..o })
            } else if o.keys().contains(k) {
                &&& n == (EditIncarScreen { error: n.error, ..o })
                &&& n.error is Some
                &&& n.error->0@ == duplicate_message(k)
            } else {
                &&& n == (EditIncarScreen {
                    input: n.input,
                    add_key: n.add_key,
                    mode: Mode::AddValue,
                    error: None,
                    ..o
                })
                &&& n.add_key@ == k
                &&& n.input.wf()
                &&& n.input.content@.len() == 0
                &&& n.input.cursor() == 0
            }
        },
        _ => typed_post(o, n, key, r),
    }
}

/// Typing the new value: Esc cancels; Enter refuses a blank value with an
/// error, else inserts the parameter at its sorted place, focuses it and
/// lays the parameters out again.
pub open spec fn add_value_post(o: EditIncarScreen, n: EditIncarScreen, key: Key, r: ScreenAction) -> bool {
    match key {
        Key::Esc => r == ScreenAction::Continue && n == (EditIncarScreen {
            mode: Mode::Navigate,
            error: None,
            ..o
        }),
        Key::Enter => {
            let v = trim(o.input.content@);
            &&& r == ScreenAction::Continue
            &&& if v.len() == 0 {
                &&& n == (EditIncarScreen { error: n.error, ..o })
                &&& n.error is Some
                &&& n.error->0@ == empty_value_message()
            } else {
                &&& n.focus <= o.count()
                &&& n == (EditIncarScreen {
                    params: n.params,
                    focus: n.focus,
                    mode: Mode::Navigate,
                    error: None,
                    ..o.regrid(n.params@, n.focus as int)
                })
                &&& pair_views(n.params@) == pair_views(o.params@).insert(
                    n.focus as int,
                    (o.add_key@, v),
                )
            }
        },
        _ => typed_post(o, n, key, r),
    }
}

/// Saving a new parameter: on a well-formed screen typing the value of a
/// name not yet in the table, Esc returns to navigation with the table
/// unchanged; Enter with a blank value keeps the table and mode and shows
/// an error; Enter with a value adds exactly that entry, the table staying
/// sorted by name with one entry more, focuses it, returns to navigation
/// and lays the table out for its new size.
pub proof fn lemma_add_value_saves(o: EditIncarScreen, n: EditIncarScreen, key: Key, r: ScreenAction)
    requires
        o.wf(),
        n.wf(),
        o.mode == Mode::AddValue,
        key == Key::Enter || key == Key::Esc,
        add_value_post(o, n, key, r),
    ensures
        r == ScreenAction::Continue,
        key == Key::Esc ==> n.params == o.params && n.mode == Mode::Navigate,
        key == Key::Enter && trim(o.input.content@).len() == 0 ==> {
            &&& n.params == o.params
            &&& n.mode == Mode::AddValue
            &&& n.error matches Some(e) && e@ == empty_value_message()
        },
        key == Key::Enter && trim(o.input.content@).len() > 0 ==> {
            let kv = (o.add_key@, trim(o.input.content@));
            &&& n.count() == o.count() + 1
            &&& sorted_keys(n.keys())
            &&& pair_views(n.params@)[n.focus as int] == kv
            &&& forall|e: (Seq<char>, Seq<char>)| #[trigger] pair_views(n.params@).contains(e)
                <==> (pair_views(o.params@).contains(e) || e == kv)
            &&& n.mode == Mode::Navigate
            &&& n.error is None
            &&& n.use_grid == (n.count() > GRID_THRESHOLD)
        },
{
    if key == Key::Enter && trim(o.input.content@).len() > 0 {
        let kv = (o.add_key@, trim(o.input.content@));
        let a = pair_views(o.params@);
        let b = pair_views(n.params@);
        assert(b == a.insert(n.focus as int, kv));
        assert forall|e: (Seq<char>, Seq<char>)| #[trigger] b.contains(e) <==> (a.contains(e) || e == kv) by {
            if b.contains(e) {
                let i = choose|i: int| 0 <= i < b.len() && b[i] == e;
                if i < n.focus {
                    assert(a[i] == e);
                } else if i > n.focus {
                    assert(a[i - 1] == e);
                }
            }
            if a.contains(e) {
                let i = choose|i: int| 0 <= i < a.len() && a[i] == e;
                if i < n.focus {
                    assert(b[i] == e);
                } else {
                    assert(b[i + 1] == e);
                }
            }
            if e == kv {
                assert(b[n.focus as int] == e);
            }
        }
    }
}

impl EditIncarScreen {
    /// Handles a key in the current mode and layout.
    pub fn handle_input(&mut self, key: Key, state: &mut AppState) -> (r: ScreenAction)
        requires
            old(self).wf(),
            old(self).count() < PARAM_LIMIT,
        ensures
            final(self).wf(),
            old(self).mode != Mode::Navigate ==> *final(state) == *old(state),
            match old(self).mode {
                Mode::Navigate => if old(self).use_grid {
                    grid_post(*old(self), *final(self), *old(state), *final(state), key, r)
                } else {
                    vertical_post(*old(self), *final(self), *old(state), *final(state), key, r)
                },
                Mode::EditValue => edit_post(*old(self), *final(self), key, r),
                Mode::AddKey => add_key_post(*old(self), *final(self), key, r),
                Mode::AddValue => add_value_post(*old(self), *final(self), key, r),
            },
    {
        match self.mode {
            Mode::Navigate => {
                if self.use_grid {
                    self.handle_grid_nav(key, state)
                } else {
                    self.handle_vertical_nav(key, state)
                }
            },
            Mode::EditValue => self.handle_edit(key),
            Mode::AddKey => self.handle_add_key(key),
            Mode::AddValue => self.handle_add_value(key),
        }
    }

    fn handle_nav_common(&mut self, key: Key, state: &mut AppState) -> (r: ScreenAction)
        requires
            old(self).wf(),
            old(self).mode == Mode::Navigate,
        ensures
            final(self).wf(),
            nav_common_post(*old(self), *final(self), *old(state), *final(state), key, r),
    {
        match key {
            Key::Enter => self.handle_enter(state),
            Key::Char('d') | Key::Char('D') => self.handle_delete(),
            Key::Char('+') => self.start_add(),
            Key::Esc => ScreenAction::Back,
            Key::Char('q') => ScreenAction::Quit,
            _ => ScreenAction::Continue,
        }
    }

    fn handle_vertical_nav(&mut self, key: Key, state: &mut AppState) -> (r: ScreenAction)
        requires
            old(self).wf(),
            old(self).mode == Mode::Navigate,
            !old(self).use_grid,
        ensures
            final(self).wf(),
            vertical_post(*old(self), *final(self), *old(state), *final(state), key, r),
    {
        match key {
            Key::Up => {
                if self.focus > 0 {
                    self.focus = self.focus - 1;
                }
                self.error = None;
                ScreenAction::Continue
            },
            Key::Down => {
                if self.focus < self.params.len() {
                    self.focus = self.focus + 1;
                }
                self.error = None;
                ScreenAction::Continue
            },
            _ => self.handle_nav_common(key, state),
        }
    }

    fn handle_grid_nav(&mut self, key: Key, state: &mut AppState) -> (r: ScreenAction)
        requires
            old(self).wf(),
            old(self).mode == Mode::Navigate,
            old(self).use_grid,
        ensures
            final(self).wf(),
            grid_post(*old(self), *final(self), *old(state), *final(state), key, r),
    {
        let layout = *self.layout();
        let count = self.params.len();
        let ghost base = self.grid_col * layout.rows;
        proof {
            lemma_cell_bound(self.grid_col as int, self.grid_row as int, layout.rows as int, layout.cols as int);
        }
        match key {
            Key::Up => {
                self.error = None;
                if self.on_confirm() {
                    let mut row = layout.rows - 1;
                    while row > 0 && self.grid_col * layout.rows + row >= count
                        invariant
                            row < layout.rows,
                            count == self.count(),
                            base == self.grid_col * layout.rows,
                            base < count,
                            base + layout.rows <= layout.cols * layout.rows,
                            layout.cols * layout.rows <= count + layout.cols - 1,
                            layout.cols <= MAX_WIDTH,
                            count <= PARAM_LIMIT,
                            layout.rows - 1 < count - 1 - base ==> row == layout.rows - 1,
                            row >= (if layout.rows - 1 < count - 1 - base {
                                layout.rows - 1
                            } else {
                                count - 1 - base
                            }),
                        decreases row,
                    {
                        row = row - 1;
                    }
                    self.grid_row = row;
                    self.sync_focus_from_grid(&layout);
                } else if self.grid_row > 0 {
                    self.grid_row = self.grid_row - 1;
                    self.sync_focus_from_grid(&layout);
                }
                ScreenAction::Continue
            },
            Key::Down => {
                self.error = None;
                if self.on_confirm() {
                } else if self.grid_row + 1 < layout.rows {
                    let new_row = self.grid_row + 1;
                    if layout.index(new_row, self.grid_col, count).is_some() {
                        self.grid_row = new_row;
                        self.sync_focus_from_grid(&layout);
                    } else {
                        self.focus = count;
                    }
                } else {
                    self.focus = count;
                }
                ScreenAction::Continue
            },
            Key::Left => {
                self.error = None;
                if !self.on_confirm() && self.grid_col > 0 {
                    self.grid_col = self.grid_col - 1;
                    if !self.sync_focus_from_grid(&layout) {
                        self.grid_col = self.grid_col + 1;
                    }
                }
                ScreenAction::Continue
            },
            Key::Right => {
                self.error = None;
                if !self.on_confirm() && self.grid_col + 1 < layout.cols {
                    let new_col = self.grid_col + 1;
                    if layout.index(self.grid_row, new_col, count).is_some() {
                        self.grid_col = new_col;
                        self.sync_focus_from_grid(&layout);
                    }
                }
                ScreenAction::Continue
            },
            _ => self.handle_nav_common(key, state),
        }
    }

    fn handle_enter(&mut self, state: &mut AppState) -> (r: ScreenAction)
        requires
            old(self).wf(),
            old(self).mode == Mode::Navigate,
        ensures
            final(self).wf(),
            enter_post(*old(self), *final(self), *old(state), *final(state), r),
    {
        self.error = None;
        if self.on_confirm() {
            if self.params.len() == 0 {
                self.error = Some(String::from_str("No parameters to submit"));
                ScreenAction::Continue
            } else {
                self.write_to_state(state);
                ScreenAction::Advance
            }
        } else {
            self.input = TextBuffer::with_content(self.params[self.focus].1.as_str());
            self.mode = Mode::EditValue;
            ScreenAction::Continue
        }
    }

    fn handle_delete(&mut self) -> (r: ScreenAction)
        requires
            old(self).wf(),
            old(self).mode == Mode::Navigate,
        ensures
            final(self).wf(),
            delete_post(*old(self), *final(self), r),
    {
        if self.on_confirm() || self.params.len() == 0 {
            return ScreenAction::Continue;
        }
        let ghost o = *self;
        proof {
            lemma_sorted_remove(self.params@, self.focus as int);
        }
        self.params.remove(self.focus);
        self.recompute_layout();
        if self.focus >= self.params.len() && self.focus > 0 {
            self.focus = self.params.len() - 1;
        }
        if self.use_grid && self.params.len() > 0 {
            let rows = self.layout().rows;
            proof {
                let l = self.cached_layout->0;
                assert(rows > 0) by (nonlinear_arith)
                    requires
                        l.rows * l.cols >= self.count(),
                        self.count() > 10,
                        l.cols >= 1,
                        rows == l.rows,
                ;
                lemma_position(self.focus as int, rows as int, l.cols as int, self.count() as int);
            }
            self.grid_col = self.focus / rows;
            self.grid_row = self.focus % rows;
        }
        self.error = None;
        proof {
            assert(*self == (EditIncarScreen {
                params: self.params,
                focus: self.focus,
                error: None,
                ..o.regrid(self.params@, self.focus as int)
            }));
        }
        ScreenAction::Continue
    }

    fn start_add(&mut self) -> (r: ScreenAction)
        requires
            old(self).wf(),
        ensures
            final(self).wf(),
            r == ScreenAction::Continue,
            start_add_post(*old(self), *final(self)),
    {
        self.input = TextBuffer::new();
        self.add_key = String::new();
        self.mode = Mode::AddKey;
        self.error = None;
        ScreenAction::Continue
    }

    fn handle_edit(&mut self, key: Key) -> (r: ScreenAction)
        requires
            old(self).wf(),
            old(self).mode == Mode::EditValue,
        ensures
            final(self).wf(),
            edit_post(*old(self), *final(self), key, r),
    {
        match key {
            Key::Esc | Key::Enter => {
                let new_val = trim_str(self.input.content.as_str());
                if new_val.as_str().unicode_len() > 0 {
                    let k = self.params[self.focus].0.clone();
                    let ghost o = self.params@;
                    self.params.set(self.focus, (k, new_val));
                    proof {
                        assert(pair_views(self.params@) =~= pair_views(o).update(
                            self.focus as int,
                            (o[self.focus as int].0@, new_val@),
                        ));
                        assert(keys_of(self.params@) =~= keys_of(o));
                    }
                }
                self.mode = Mode::Navigate;
                ScreenAction::Continue
            },
            _ => {
                self.input.handle_key(key);
                self.error = None;
                ScreenAction::Continue
            },
        }
    }

    fn handle_add_key(&mut self, key: Key) -> (r: ScreenAction)
        requires
            old(self).wf(),
            old(self).mode == Mode::AddKey,
        ensures
            final(self).wf(),
            add_key_post(*old(self), *final(self), key, r),
    {
        match key {
            Key::Esc => {
                self.mode = Mode::Navigate;
                self.error = None;
                ScreenAction::Continue
            },
            Key::Enter => {
                let t = trim_str(self.input.content.as_str());
                let name = to_uppercase(t.as_str());
                if name.as_str().unicode_len() == 0 {
                    self.mode = Mode::Navigate;
                    return ScreenAction::Continue;
                }
                let (at, found) = find_key(&self.params, name.as_str());
                if found {
                    proof {
                        assert(self.keys()[at as int] == name@);
                    }
                    let mut m = name.clone();
                    m.append(" already exists — edit it instead");
                    self.error = Some(m);
                    return ScreenAction::Continue;
                }
                self.add_key = name;
                self.input = TextBuffer::new();
                self.mode = Mode::AddValue;
                self.error = None;
                ScreenAction::Continue
            },
            _ => {
                self.input.handle_key(key);
                self.error = None;
                ScreenAction::Continue
            },
        }
    }

    fn handle_add_value(&mut self, key: Key) -> (r: ScreenAction)
        requires
            old(self).wf(),
            old(self).mode == Mode::AddValue,
            old(self).count() < PARAM_LIMIT,
        ensures
            final(self).wf(),
            add_value_post(*old(self), *final(self), key, r),
    {
        match key {
            Key::Esc => {
                self.mode = Mode::Navigate;
                self.error = None;
                ScreenAction::Continue
            },
            Key::Enter => {
                let val = trim_str(self.input.content.as_str());
                if val.as_str().unicode_len() == 0 {
                    self.error = Some(String::from_str("Value cannot be empty"));
                    return ScreenAction::Continue;
                }
                let ghost o = *self;
                let name = self.add_key.clone();
                let (pos, found) = insert_sorted(&mut self.params, name, val);
                proof {
                    if found {
                        assert(keys_of(o.params@)[pos as int] == o.add_key@);
                    }
                }
                self.recompute_layout();
                self.focus = pos;
                if self.use_grid && self.params.len() > 0 {
                    let rows = self.layout().rows;
                    proof {
                        let l = self.cached_layout->0;
                        assert(rows > 0) by (nonlinear_arith)
                            requires
                                l.rows * l.cols >= self.count(),
                                self.count() > 10,
                                l.cols >= 1,
                                rows == l.rows,
                        ;
                        lemma_position(self.focus as int, rows as int, l.cols as int, self.count() as int);
                    }
                    self.grid_col = self.focus / rows;
                    self.grid_row = self.focus % rows;
                }
                self.mode = Mode::Navigate;
                self.error = None;
                proof {
                    assert(pair_views(self.params@) =~= pair_views(o.params@).insert(
                        pos as int,
                        (o.add_key@, val@),
                    ));
                    assert(*self == (EditIncarScreen {
                        params: self.params,
                        focus: self.focus,
                        mode: Mode::Navigate,
                        error: None,
                        ..o.regrid(self.params@, self.focus as int)
                    }));
                }
                ScreenAction::Continue
            },
            _ => {
                self.input.handle_key(key);
                self.error = None;
                ScreenAction::Continue
            },
        }
    }
}

} // verus!
