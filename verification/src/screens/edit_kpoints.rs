//! K-point mesh screen: three editable fields K1, K2, K3 and a Confirm
//! button; confirming needs three positive integers.

use vstd::prelude::*;
use crate::number::{decimal, digit_char, parse_u32, parse_u32_spec, u64_to_string};
use crate::state::AppState;
use crate::text::{trim, trim_str};
use super::{buffers_wf, edit_buffer, key_edit, Key, ScreenAction, TextBuffer};

verus! {

pub struct EditKpointsScreen {
    /// K1, K2, K3.
    pub buffers: Vec<TextBuffer>,
    /// `0..3` are the fields, 3 is the Confirm button.
    pub focus: usize,
    pub editing: bool,
    pub error: Option<String>,
}

/// `K1`, `K2`, `K3`.
pub open spec fn kpoint_label(i: int) -> Seq<char> {
    seq!['K', digit_char((i + 1) as nat)]
}

/// The value typed in a field, read as a `u32` after trimming.
pub open spec fn field_value(b: TextBuffer) -> Option<u32> {
    parse_u32_spec(trim(b.content@))
}

pub open spec fn field_ok(b: TextBuffer) -> bool {
    field_value(b) is Some && field_value(b)->0 > 0
}

/// The first field that is not a positive integer, or 3 when all are.
pub open spec fn first_bad(b: Seq<TextBuffer>) -> int {
    if !field_ok(b[0]) {
        0
    } else if !field_ok(b[1]) {
        1
    } else if !field_ok(b[2]) {
        2
    } else {
        3
    }
}

/// `"{label} must be a positive number"`
pub open spec fn positive_message(i: int) -> Seq<char> {
    kpoint_label(i) + " must be a positive number"@
}

/// Confirming: with three positive integers the mesh is stored and the
/// screen advances; otherwise the first bad field is focused with an error.
pub open spec fn confirm_post(
    o: EditKpointsScreen,
    n: EditKpointsScreen,
    so: AppState,
    sn: AppState,
    r: ScreenAction,
) -> bool {
    let bad = first_bad(o.buffers@);
    if bad == 3 {
        &&& r == ScreenAction::Advance
        &&& n == o
        &&& sn == (AppState { kpoints: sn.kpoints, ..so })
        &&& sn.kpoints@ == seq![
            field_value(o.buffers@[0])->0,
            field_value(o.buffers@[1])->0,
            field_value(o.buffers@[2])->0,
        ]
    } else {
        &&& r == ScreenAction::Continue
        &&& sn == so
        &&& n == (EditKpointsScreen { focus: bad as usize, error: n.error, ..o })
        &&& n.error is Some
        &&& n.error->0@ == positive_message(bad)
    }
}

/// Confirming stores each field in its own place: when it advances, the
/// `i`-th stored mesh dimension is the positive integer field `K{i+1}`
/// reads as, for each of the three.
pub proof fn lemma_confirm_stores_fields(
    o: EditKpointsScreen,
    n: EditKpointsScreen,
    so: AppState,
    sn: AppState,
    r: ScreenAction,
)
    requires
        o.buffers@.len() == 3,
        confirm_post(o, n, so, sn, r),
        r == ScreenAction::Advance,
    ensures
        sn.kpoints@.len() == 3,
        forall|i: int|
            0 <= i < 3 ==> parse_u32_spec(trim(#[trigger] o.buffers@[i].content@)) == Some(sn.kpoints@[i])
                && sn.kpoints@[i] > 0,
{
    assert(first_bad(o.buffers@) == 3);
}

/// While editing, Esc and Enter stop editing, Up and Down stop editing and
/// move, other keys edit the field; otherwise Up/BackTab and Down/Tab move,
/// Enter edits the field or confirms, Esc goes back and `q` quits.
pub open spec fn kpoints_post(
    o: EditKpointsScreen,
    n: EditKpointsScreen,
    so: AppState,
    sn: AppState,
    key: Key,
    r: ScreenAction,
) -> bool {
    let up = if o.focus > 0 { (o.focus - 1) as usize } else { o.focus };
    let down = if o.focus < 3 { (o.focus + 1) as usize } else { o.focus };
    if o.editing {
        &&& r == ScreenAction::Continue
        &&& sn == so
        &&& match key {
            Key::Esc | Key::Enter => n == (EditKpointsScreen { editing: false, error: None, ..o }),
            Key::Up => n == (EditKpointsScreen { editing: false, focus: up, error: None, ..o }),
            Key::Down => n == (EditKpointsScreen { editing: false, focus: down, error: None, ..o }),
            _ => {
                &&& n == (EditKpointsScreen { buffers: n.buffers, error: None, ..o })
                &&& n.buffers@.len() == 3
                &&& key_edit(o.buffers@[o.focus as int], n.buffers@[o.focus as int], key)
                &&& forall|j: int| 0 <= j < 3 && j != o.focus ==> #[trigger] n.buffers@[j] == o.buffers@[j]
            },
        }
    } else {
        match key {
            Key::Up | Key::BackTab => r == ScreenAction::Continue && sn == so && n == (
            EditKpointsScreen { focus: up, error: None, ..o }),
            Key::Down | Key::Tab => r == ScreenAction::Continue && sn == so && n == (
            EditKpointsScreen { focus: down, error: None, ..o }),
            Key::Enter => if o.focus == 3 {
                confirm_post(o, n, so, sn, r)
            } else {
                r == ScreenAction::Continue && sn == so && n == (EditKpointsScreen {
                    editing: true,
                    ..o
                })
            },
            Key::Esc => r == ScreenAction::Back && n == o && sn == so,
            Key::Char('q') => r == ScreenAction::Quit && n == o && sn == so,
            _ => r == ScreenAction::Continue && n == o && sn == so,
        }
    }
}

impl EditKpointsScreen {
    /// Three fields, one per mesh dimension, the focus on the first.
    pub open spec fn wf(self) -> bool {
        &&& self.buffers@.len() == 3
        &&& buffers_wf(self.buffers@)
        &&& self.focus <= 3
        &&& self.editing ==> self.focus < 3
    }

    /// Fields filled with the current mesh.
    pub fn new(state: &AppState) -> (r: Self)
        ensures
            r.wf(),
            r.focus == 0,
            !r.editing,
            r.error is None,
            forall|i: int| 0 <= i < 3 ==> (#[trigger] r.buffers@[i]).content@ == decimal(state.kpoints@[i] as nat),
    {
        let k1 = u64_to_string(state.kpoints[0] as u64);
        let k2 = u64_to_string(state.kpoints[1] as u64);
        let k3 = u64_to_string(state.kpoints[2] as u64);
        let mut buffers: Vec<TextBuffer> = Vec::new();
        buffers.push(TextBuffer::with_content(k1.as_str()));
        buffers.push(TextBuffer::with_content(k2.as_str()));
        buffers.push(TextBuffer::with_content(k3.as_str()));
        EditKpointsScreen { buffers, focus: 0, editing: false, error: None }
    }

    pub fn on_confirm(&self) -> (r: bool)
        ensures
            r == (self.focus == 3),
    {
        self.focus == 3
    }

    /// Handles a key (see [`kpoints_post`]).
    pub fn handle_input(&mut self, key: Key, state: &mut AppState) -> (r: ScreenAction)
        requires
            old(self).wf(),
        ensures
            final(self).wf(),
            kpoints_post(*old(self), *final(self), *old(state), *final(state), key, r),
    {
        if self.editing {
            match key {
                Key::Esc | Key::Enter => {
                    self.editing = false;
                    self.error = None;
                },
                Key::Up => {
                    self.editing = false;
                    if self.focus > 0 {
                        self.focus = self.focus - 1;
                    }
                    self.error = None;
                },
                Key::Down => {
                    self.editing = false;
                    if self.focus < 3 {
                        self.focus = self.focus + 1;
                    }
                    self.error = None;
                },
                _ => {
                    edit_buffer(&mut self.buffers, self.focus, key);
                    self.error = None;
                },
            }
            ScreenAction::Continue
        } else {
            match key {
                Key::Up | Key::BackTab => {
                    if self.focus > 0 {
                        self.focus = self.focus - 1;
                    }
                    self.error = None;
                    ScreenAction::Continue
                },
                Key::Down | Key::Tab => {
                    if self.focus < 3 {
                        self.focus = self.focus + 1;
                    }
                    self.error = None;
                    ScreenAction::Continue
                },
                Key::Enter => {
                    if self.on_confirm() {
                        self.try_confirm(state)
                    } else {
                        self.editing = true;
                        ScreenAction::Continue
                    }
                },
                Key::Esc => ScreenAction::Back,
                Key::Char('q') => ScreenAction::Quit,
                _ => ScreenAction::Continue,
            }
        }
    }

    fn field(&self, i: usize) -> (r: Option<u32>)
        requires
            i < self.buffers@.len(),
        ensures
            r == (if field_ok(self.buffers@[i as int]) {
                field_value(self.buffers@[i as int])
            } else {
                None
            }),
    {
        let t = trim_str(self.buffers[i].content.as_str());
        match parse_u32(t.as_str()) {
            Some(v) => if v > 0 {
                Some(v)
            } else {
                None
            },
            None => None,
        }
    }

    fn fail(&mut self, i: usize) -> (r: ScreenAction)
        requires
            old(self).wf(),
            i < 3,
        ensures
            final(self).wf(),
            r == ScreenAction::Continue,
            *final(self) == (EditKpointsScreen { focus: i, error: final(self).error, ..*old(self) }),
            final(self).error is Some,
            final(self).error->0@ == positive_message(i as int),
    {
        let mut m = String::new();
        crate::text::push_char(&mut m, 'K');
        crate::number::push_decimal(&mut m, (i + 1) as u64);
        m.append(" must be a positive number");
        assert(decimal((i + 1) as nat) =~= seq![digit_char((i + 1) as nat)]);
        assert(m@ =~= positive_message(i as int));
        self.error = Some(m);
        self.focus = i;
        ScreenAction::Continue
    }

    fn try_confirm(&mut self, state: &mut AppState) -> (r: ScreenAction)
        requires
            old(self).wf(),
            old(self).focus == 3,
            !old(self).editing,
        ensures
            final(self).wf(),
            confirm_post(*old(self), *final(self), *old(state), *final(state), r),
    {
        let a = match self.field(0) {
            Some(v) => v,
            None => return self.fail(0),
        };
        let b = match self.field(1) {
            Some(v) => v,
            None => return self.fail(1),
        };
        let c = match self.field(2) {
            Some(v) => v,
            None => return self.fail(2),
        };
        state.kpoints = [a, b, c];
        assert(state.kpoints@ =~= seq![a, b, c]);
        ScreenAction::Advance
    }
}

} // verus!
