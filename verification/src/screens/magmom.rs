//! Magnetic moment screen: one editable value per species and a Confirm
//! slot after them.
//!
//! Reading a value as a floating-point number happens outside the library;
//! the screen takes, for each field, the number's decimal text when the
//! field reads as one and `None` when it does not.

use vstd::prelude::*;
use crate::state::{AppState, SpeciesInfo};
use crate::text::push_char;
use super::{buffers_wf, edit_buffer, key_edit, Key, ScreenAction, TextBuffer};

verus! {

pub struct MagmomScreen {
    /// One field per species.
    pub buffers: Vec<TextBuffer>,
    /// `0..buffers.len()` are fields, `buffers.len()` is Confirm.
    pub focus: usize,
    pub editing: bool,
    pub error: Option<String>,
}

/// `"No species found — cannot set MAGMOM"`
pub open spec fn no_species_message() -> Seq<char> {
    "No species found — cannot set MAGMOM"@
}

/// Symbol of the `i`-th species, or `?` when there is none.
pub open spec fn symbol_at(sp: Seq<SpeciesInfo>, i: int) -> Seq<char> {
    if 0 <= i < sp.len() {
        sp[i].symbol@
    } else {
        seq!['?']
    }
}

/// `"Invalid value for {symbol}: '{text}'"`
pub open spec fn invalid_message(symbol: Seq<char>, text: Seq<char>) -> Seq<char> {
    "Invalid value for "@ + symbol + ": '"@ + text + "'"@
}

/// The first field whose text does not read as a number, or the count.
pub open spec fn first_invalid(parsed: Seq<Option<String>>) -> int
    decreases parsed.len(),
{
    if parsed.len() == 0 {
        0
    } else if parsed[0] is None {
        0
    } else {
        1 + first_invalid(parsed.drop_first())
    }
}

proof fn lemma_first_invalid(parsed: Seq<Option<String>>, i: int)
    requires
        0 <= i <= parsed.len(),
        forall|j: int| 0 <= j < i ==> (#[trigger] parsed[j]) is Some,
    ensures
        first_invalid(parsed) == i + first_invalid(parsed.skip(i)),
    decreases i,
{
    if i > 0 {
        assert(parsed.skip(1).skip(i - 1) =~= parsed.skip(i));
        assert(parsed.drop_first() =~= parsed.skip(1));
        lemma_first_invalid(parsed.drop_first(), i - 1);
    } else {
        assert(parsed.skip(0) =~= parsed);
    }
}

/// Confirming: with no species an error; else the first field that is not a
/// number is focused with an error; else the moments are stored and the
/// screen advances.
pub open spec fn confirm_post(
    o: MagmomScreen,
    n: MagmomScreen,
    so: AppState,
    sn: AppState,
    parsed: Seq<Option<String>>,
    r: ScreenAction,
) -> bool {
    let bad = first_invalid(parsed);
    &&& if o.buffers@.len() == 0 {
        &&& r == ScreenAction::Continue && sn == so
        &&& n == (MagmomScreen { error: n.error, ..o })
        &&& n.error is Some && n.error->0@ == no_species_message()
    } else if bad < parsed.len() {
        &&& r == ScreenAction::Continue && sn == so
        &&& n == (MagmomScreen { focus: bad as usize, error: n.error, ..o })
        &&& n.error is Some
        &&& n.error->0@ == invalid_message(symbol_at(so.species@, bad), o.buffers@[bad].content@)
    } else {
        &&& r == ScreenAction::Advance && n == o
        &&& sn == (AppState { magmom_per_species: sn.magmom_per_species, ..so })
        &&& sn.magmom_per_species@.len() == parsed.len()
        &&& forall|i: int| 0 <= i < parsed.len() ==> #[trigger] sn.magmom_per_species@[i] == parsed[i]->0
    }
}

/// While editing: Esc and Enter stop editing, Up and Down stop editing and
/// move, other keys edit the field. Otherwise Up/BackTab and Down/Tab move,
/// Enter edits a field or confirms, Esc goes back, `q` quits.
pub open spec fn magmom_post(
    o: MagmomScreen,
    n: MagmomScreen,
    so: AppState,
    sn: AppState,
    key: Key,
    parsed: Seq<Option<String>>,
    r: ScreenAction,
) -> bool {
    let len = o.buffers@.len();
    let up = if o.focus > 0 { (o.focus - 1) as usize } else { o.focus };
    let down = if o.focus < len { (o.focus + 1) as usize } else { o.focus };
    if o.editing {
        &&& r == ScreenAction::Continue
        &&& sn == so
        &&& match key {
            Key::Esc | Key::Enter => n == (MagmomScreen { editing: false, ..o }),
            Key::Up => n == (MagmomScreen { editing: false, focus: up, error: None, ..o }),
            Key::Down => n == (MagmomScreen { editing: false, focus: down, error: None, ..o }),
            _ => {
                &&& n == (MagmomScreen { buffers: n.buffers, error: None, ..o })
                &&& n.buffers@.len() == len
                &&& key_edit(o.buffers@[o.focus as int], n.buffers@[o.focus as int], key)
                &&& forall|j: int| 0 <= j < len && j != o.focus ==> #[trigger] n.buffers@[j] == o.buffers@[j]
            },
        }
    } else {
        match key {
            Key::Up | Key::BackTab => r == ScreenAction::Continue && sn == so && n == (
            MagmomScreen { focus: up, error: None, ..o }),
            Key::Down | Key::Tab => r == ScreenAction::Continue && sn == so && n == (
            MagmomScreen { focus: down, error: None, ..o }),
            Key::Enter => if o.focus < len {
                r == ScreenAction::Continue && sn == so && n == (MagmomScreen { editing: true, ..o })
            } else {
                confirm_post(o, n, so, sn, parsed, r)
            },
            Key::Esc => r == ScreenAction::Back && n == o && sn == so,
            Key::Char('q') => r == ScreenAction::Quit && n == o && sn == so,
            _ => r == ScreenAction::Continue && n == o && sn == so,
        }
    }
}

fn append(s: &mut String, t: &str)
    ensures
        final(s)@ == old(s)@ + t@,
{
    s.append(t);
}

impl MagmomScreen {
    pub open spec fn wf(self) -> bool {
        &&& buffers_wf(self.buffers@)
        &&& self.focus <= self.buffers@.len()
        &&& self.editing ==> self.focus < self.buffers@.len()
    }

    /// One field holding `0.0` per species, the first focused.
    pub fn new(species_count: usize) -> (r: Self)
        ensures
            r.wf(),
            r.buffers@.len() == species_count,
            forall|i: int| 0 <= i < species_count ==> (#[trigger] r.buffers@[i]).content@ == "0.0"@,
            r.focus == 0,
            !r.editing,
            r.error is None,
    {
        let mut buffers: Vec<TextBuffer> = Vec::new();
        for i in 0..species_count
            invariant
                buffers@.len() == i,
                buffers_wf(buffers@),
                forall|j: int| 0 <= j < i ==> (#[trigger] buffers@[j]).content@ == "0.0"@,
        {
            buffers.push(TextBuffer::with_content("0.0"));
        }
        MagmomScreen { buffers, focus: 0, editing: false, error: None }
    }

    /// Handles a key (see [`magmom_post`]); `parsed[i]` is the number read
    /// from field `i`, used when confirming.
    pub fn handle_input(&mut self, key: Key, state: &mut AppState, parsed: &Vec<Option<String>>) -> (r: ScreenAction)
        requires
            old(self).wf(),
            parsed@.len() == old(self).buffers@.len(),
        ensures
            final(self).wf(),
            magmom_post(*old(self), *final(self), *old(state), *final(state), key, parsed@, r),
    {
        let len = self.buffers.len();
        if self.editing {
            match key {
                Key::Esc | Key::Enter => {
                    self.editing = false;
                },
                Key::Up => {
                    self.editing = false;
                    if self.focus > 0 {
                        self.focus = self.focus - 1;
                    }
                    self.error = None;
                },
                Key::Down => {
                    self.editing = false;
                    if self.focus < len {
                        self.focus = self.focus + 1;
                    }
                    self.error = None;
                },
                _ => {
                    if self.focus < len {
                        edit_buffer(&mut self.buffers, self.focus, key);
                    }
                    self.error = None;
                },
            }
            ScreenAction::Continue
        } else {
            match key {
                Key::Tab | Key::Down => {
                    if self.focus < len {
                        self.focus = self.focus + 1;
                    }
                    self.error = None;
                    ScreenAction::Continue
                },
                Key::BackTab | Key::Up => {
                    if self.focus > 0 {
                        self.focus = self.focus - 1;
                    }
                    self.error = None;
                    ScreenAction::Continue
                },
                Key::Enter => {
                    if self.focus < len {
                        self.editing = true;
                        ScreenAction::Continue
                    } else {
                        self.try_confirm(state, parsed)
                    }
                },
                Key::Esc => ScreenAction::Back,
                Key::Char('q') => ScreenAction::Quit,
                _ => ScreenAction::Continue,
            }
        }
    }

    fn try_confirm(&mut self, state: &mut AppState, parsed: &Vec<Option<String>>) -> (r: ScreenAction)
        requires
            old(self).wf(),
            !old(self).editing,
            parsed@.len() == old(self).buffers@.len(),
        ensures
            final(self).wf(),
            confirm_post(*old(self), *final(self), *old(state), *final(state), parsed@, r),
    {
        let n = self.buffers.len();
        if n == 0 {
            self.error = Some(String::from_str("No species found — cannot set MAGMOM"));
            return ScreenAction::Continue;
        }
        let mut values: Vec<String> = Vec::new();
        for i in 0..n
            invariant
                n == parsed@.len() == self.buffers@.len(),
                *self == *old(self),
                *state == *old(state),
                old(self).wf(),
                !old(self).editing,
                values@.len() == i,
                forall|j: int| 0 <= j < i ==> (#[trigger] parsed@[j]) is Some,
                forall|j: int| 0 <= j < i ==> #[trigger] values@[j] == parsed@[j]->0,
        {
            match &parsed[i] {
                Some(v) => {
                    values.push(v.clone());
                },
                None => {
                    proof {
                        lemma_first_invalid(parsed@, i as int);
                        assert(parsed@.skip(i as int)[0] is None);
                    }
                    let mut m = String::from_str("Invalid value for ");
                    if i < state.species.len() {
                        append(&mut m, state.species[i].symbol.as_str());
                    } else {
                        push_char(&mut m, '?');
                    }
                    append(&mut m, ": '");
                    append(&mut m, self.buffers[i].content.as_str());
                    push_char(&mut m, '\'');
                    proof {
                        assert("'"@ =~= seq!['\'']) by {
                            reveal_strlit("'");
                        }
                    }
                    assert(m@ =~= invalid_message(symbol_at(state.species@, i as int), self.buffers@[i as int].content@));
                    self.error = Some(m);
                    self.focus = i;
                    return ScreenAction::Continue;
                },
            }
        }
        proof {
            lemma_first_invalid(parsed@, n as int);
        }
        state.magmom_per_species = values;
        ScreenAction::Advance
    }
}

} // verus!
