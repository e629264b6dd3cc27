//! Screens of the assistant, one module per step, and the input helpers they
//! share: keys, list cursor, text buffer, checkbox list.

pub mod calc_type;
pub mod choose_path;
pub mod confirm;
pub mod edit_incar;
pub mod edit_kpoints;
pub mod file_pick;
pub mod magmom;
pub mod result;
pub mod spin_mode;
pub mod submit_setup;
pub mod tst_method;
pub mod welcome;

use vstd::prelude::*;
use crate::state::AppState;
use crate::text::{
    byte_len, char_width, lemma_byte_len_ge_len, chars_of, is_ascii_seq, lemma_byte_len_mono, lemma_byte_len_take,
    push_char, str_byte_len, string_from_range, trim, trim_bounds, utf8_width,
};

verus! {

/// A key press, as the screens see it.
#[derive(Debug, Clone, Copy, PartialEq, Eq, Structural)]
pub enum Key {
    Char(char),
    Up,
    Down,
    Left,
    Right,
    Enter,
    Esc,
    Backspace,
    Tab,
    BackTab,
    Other,
}

/// What the session should do after a screen handled a key.
#[derive(Debug, Clone, Copy, PartialEq, Eq, Structural)]
pub enum ScreenAction {
    /// Stay on the current screen.
    Continue,
    /// Go to the next screen of the flow.
    Advance,
    /// Go back to the previous screen.
    Back,
    /// Leave the application.
    Quit,
}

/// Which screen is shown.
#[derive(Debug, Clone, Copy, PartialEq, Eq, Structural)]
pub enum ActiveScreen {
    Welcome,
    ChoosePath,
    CalcType,
    TstMethod,
    SpinMode,
    Magmom,
    FilePick,
    EditIncar,
    EditKpoints,
    SubmitSetup,
    Confirm,
    Result,
}

impl ActiveScreen {
    pub open spec fn label_spec(self) -> Seq<char> {
        match self {
            ActiveScreen::Welcome => ""@,
            ActiveScreen::ChoosePath => "Choose Path"@,
            ActiveScreen::CalcType => "Calculation Type"@,
            ActiveScreen::TstMethod => "TST Method"@,
            ActiveScreen::SpinMode => "Spin Configuration"@,
            ActiveScreen::Magmom => "Magnetic Moments"@,
            ActiveScreen::FilePick => "Select Files"@,
            ActiveScreen::EditIncar => "INCAR Parameters"@,
            ActiveScreen::EditKpoints => "KPOINTS"@,
            ActiveScreen::SubmitSetup => "Job Setup"@,
            ActiveScreen::Confirm => "Summary"@,
            ActiveScreen::Result => "Complete"@,
        }
    }

    /// Title shown in the header badge.
    pub fn label(&self) -> (r: &'static str)
        ensures
            r@ == self.label_spec(),
    {
        match self {
            ActiveScreen::Welcome => "",
            ActiveScreen::ChoosePath => "Choose Path",
            ActiveScreen::CalcType => "Calculation Type",
            ActiveScreen::TstMethod => "TST Method",
            ActiveScreen::SpinMode => "Spin Configuration",
            ActiveScreen::Magmom => "Magnetic Moments",
            ActiveScreen::FilePick => "Select Files",
            ActiveScreen::EditIncar => "INCAR Parameters",
            ActiveScreen::EditKpoints => "KPOINTS",
            ActiveScreen::SubmitSetup => "Job Setup",
            ActiveScreen::Confirm => "Summary",
            ActiveScreen::Result => "Complete",
        }
    }
}

/// A cursor over a list of `count` items.
#[derive(Debug)]
pub struct ListCursor {
    pub index: usize,
    pub count: usize,
}

/// Index of the last item, or 0 for an empty list (`count.saturating_sub(1)`).
pub open spec fn last_index(count: usize) -> usize {
    if count == 0 { 0 } else { (count - 1) as usize }
}

impl ListCursor {
    pub fn new(count: usize) -> (r: Self)
        ensures
            r.index == 0,
            r.count == count,
    {
        ListCursor { index: 0, count }
    }

    /// One item up, stopping at the first.
    pub fn up(&mut self)
        ensures
            final(self).count == old(self).count,
            final(self).index == if old(self).index > 0 {
                (old(self).index - 1) as usize
            } else {
                old(self).index
            },
    {
        if self.index > 0 {
            self.index = self.index - 1;
        }
    }

    /// One item down, stopping at the last.
    pub fn down(&mut self)
        ensures
            final(self).count == old(self).count,
            final(self).index == if old(self).index < last_index(old(self).count) {
                (old(self).index + 1) as usize
            } else {
                old(self).index
            },
    {
        let last = if self.count == 0 { 0 } else { self.count - 1 };
        if self.index < last {
            self.index = self.index + 1;
        }
    }
}

/// A screen choosing from a list: Up and Down move the cursor (stopping at
/// either end), Enter makes the choice, giving state `chosen`, and advances,
/// Esc goes back, `q` quits, other keys do nothing.
pub open spec fn choice_post(
    o: ListCursor,
    n: ListCursor,
    so: AppState,
    sn: AppState,
    chosen: AppState,
    key: Key,
    r: ScreenAction,
) -> bool {
    &&& n.count == o.count
    &&& match key {
        Key::Up => r == ScreenAction::Continue && sn == so && n.index == if o.index > 0 {
            (o.index - 1) as usize
        } else {
            o.index
        },
        Key::Down => r == ScreenAction::Continue && sn == so && n.index == if o.index < last_index(
            o.count,
        ) {
            (o.index + 1) as usize
        } else {
            o.index
        },
        Key::Enter => r == ScreenAction::Advance && n == o && sn == chosen,
        Key::Esc => r == ScreenAction::Back && n == o && sn == so,
        Key::Char('q') => r == ScreenAction::Quit && n == o && sn == so,
        _ => r == ScreenAction::Continue && n == o && sn == so,
    }
}

/// A line of editable text with a cursor.
#[derive(Debug)]
pub struct TextBuffer {
    pub content: String,
    /// Cursor position in bytes; always at a character boundary.
    pub cursor_pos: usize,
    /// Cursor position in characters.
    pub cursor_char: usize,
}

impl TextBuffer {
    /// Cursor position in characters.
    pub open spec fn cursor(self) -> nat {
        self.cursor_char as nat
    }

    /// The cursor lies within the text, `cursor_pos` counting the bytes of the
    /// characters before it.
    pub open spec fn wf(self) -> bool {
        &&& self.cursor() <= self.content@.len()
        &&& self.cursor_pos == byte_len(self.content@.take(self.cursor() as int))
    }

    pub fn new() -> (r: Self)
        ensures
            r.wf(),
            r.content@.len() == 0,
            r.cursor() == 0,
    {
        let r = TextBuffer { content: String::new(), cursor_pos: 0, cursor_char: 0 };
        assert(r.content@.take(0) =~= Seq::<char>::empty());
        r
    }

    /// A buffer holding `s`, the cursor at its end.
    pub fn with_content(s: &str) -> (r: Self)
        ensures
            r.wf(),
            r.content@ == s@,
            r.cursor() == s@.len(),
            r.cursor_pos == byte_len(s@),
    {
        let n = s.unicode_len();
        let b = str_byte_len(s);
        let r = TextBuffer { content: String::from_str(s), cursor_pos: b, cursor_char: n };
        assert(s@.take(n as int) =~= s@);
        r
    }

    /// Characters before the cursor index.
    pub fn cursor_index(&self) -> (r: usize)
        ensures
            r == self.cursor(),
    {
        self.cursor_char
    }

    /// Edits the text or moves the cursor: a character is inserted at the
    /// cursor, Backspace deletes the character before it, Left and Right move
    /// it by one character; other keys change nothing.
    pub fn handle_key(&mut self, key: Key)
        requires
            old(self).wf(),
        ensures
            final(self).wf(),
            ({
                let s = old(self).content@;
                let k = old(self).cursor() as int;
                match key {
                    Key::Char(c) => final(self).content@ == s.take(k) + seq![c] + s.skip(k)
                        && final(self).cursor() == k + 1,
                    Key::Backspace => if k > 0 {
                        final(self).content@ == s.take(k - 1) + s.skip(k) && final(self).cursor()
                            == k - 1
                    } else {
                        final(self).content@ == s && final(self).cursor() == k
                    },
                    Key::Left => final(self).content@ == s && final(self).cursor() == if k > 0 {
                        k - 1
                    } else {
                        k
                    },
                    Key::Right => final(self).content@ == s && final(self).cursor() == if k
                        < s.len() {
                        k + 1
                    } else {
                        k
                    },
                    _ => final(self).content@ == s && final(self).cursor() == k,
                }
            }),
    {
        let ghost s = self.content@;
        let k = self.cursor_char;
        let v = chars_of(self.content.as_str());
        let n = v.len();
        proof {
            lemma_byte_len_mono(s, k as int);
        }
        match key {
            Key::Char(c) => {
                let mut t = string_from_range(v.as_slice(), 0, k);
                push_char(&mut t, c);
                let rest = string_from_range(v.as_slice(), k, n);
                t.append(rest.as_str());
                let total = str_byte_len(t.as_str());
                proof {
                    assert(v@.subrange(0, k as int) =~= s.take(k as int));
                    assert(v@.subrange(k as int, n as int) =~= s.skip(k as int));
                    let u = t@;
                    assert(u =~= s.take(k as int) + seq![c] + s.skip(k as int));
                    assert(u.take(k as int) =~= s.take(k as int));
                    assert(u[k as int] == c);
                    lemma_byte_len_take(u, k as int);
                    lemma_byte_len_mono(u, k + 1);
                    lemma_byte_len_ge_len(u.take(k + 1));
                }
                let w = char_width(c);
                self.content = t;
                self.cursor_pos = self.cursor_pos + w;
                self.cursor_char = k + 1;
            },
            Key::Backspace => {
                if k > 0 {
                    let w = char_width(v[k - 1]);
                    let mut t = string_from_range(v.as_slice(), 0, k - 1);
                    let rest = string_from_range(v.as_slice(), k, n);
                    t.append(rest.as_str());
                    proof {
                        lemma_byte_len_take(s, k - 1);
                        let u = t@;
                        assert(u =~= s.take(k - 1) + s.skip(k as int));
                        assert(u.take(k - 1) =~= s.take(k - 1));
                    }
                    self.content = t;
                    self.cursor_pos = self.cursor_pos - w;
                    self.cursor_char = k - 1;
                }
            },
            Key::Left => {
                if k > 0 {
                    let w = char_width(v[k - 1]);
                    proof {
                        lemma_byte_len_take(s, k - 1);
                    }
                    self.cursor_pos = self.cursor_pos - w;
                    self.cursor_char = k - 1;
                }
            },
            Key::Right => {
                if k < n {
                    let w = char_width(v[k]);
                    let total = str_byte_len(self.content.as_str());
                    proof {
                        lemma_byte_len_take(s, k as int);
                        lemma_byte_len_mono(s, k + 1);
                        lemma_byte_len_ge_len(s.take(k + 1));
                    }
                    self.cursor_pos = self.cursor_pos + w;
                    self.cursor_char = k + 1;
                }
            },
            _ => {},
        }
    }

    /// The text before the cursor, the character under it (none when the
    /// cursor is at the end) and the text after that character.
    pub fn cursor_parts(&self) -> (r: (String, Option<char>, String))
        requires
            self.wf(),
        ensures
            r.0@ == self.content@.take(self.cursor() as int),
            self.cursor() < self.content@.len() ==> r.1 == Some(self.content@[self.cursor() as int])
                && r.2@ == self.content@.skip(self.cursor() as int + 1),
            self.cursor() == self.content@.len() ==> r.1 is None && r.2@.len() == 0,
    {
        let v = chars_of(self.content.as_str());
        let n = v.len();
        let k = self.cursor_char;
        let before = string_from_range(v.as_slice(), 0, k);
        assert(v@.subrange(0, k as int) =~= self.content@.take(k as int));
        if k < n {
            let after = string_from_range(v.as_slice(), k + 1, n);
            assert(v@.subrange(k + 1, n as int) =~= self.content@.skip(k + 1));
            (before, Some(v[k]), after)
        } else {
            (before, None, String::new())
        }
    }

    /// Whether the text is blank (only whitespace).
    pub fn is_empty(&self) -> (r: bool)
        ensures
            r == (trim(self.content@).len() == 0),
    {
        let v = chars_of(self.content.as_str());
        let (lo, hi) = trim_bounds(v.as_slice());
        lo == hi
    }
}

/// Every buffer of a list well formed.
pub open spec fn buffers_wf(b: Seq<TextBuffer>) -> bool {
    forall|i: int| 0 <= i < b.len() ==> (#[trigger] b[i]).wf()
}

/// The effect of [`TextBuffer::handle_key`] on a buffer.
pub open spec fn key_edit(o: TextBuffer, n: TextBuffer, key: Key) -> bool {
    let s = o.content@;
    let k = o.cursor() as int;
    &&& n.wf()
    &&& match key {
        Key::Char(c) => n.content@ == s.take(k) + seq![c] + s.skip(k) && n.cursor() == k + 1,
        Key::Backspace => if k > 0 {
            n.content@ == s.take(k - 1) + s.skip(k) && n.cursor() == k - 1
        } else {
            n.content@ == s && n.cursor() == k
        },
        Key::Left => n.content@ == s && n.cursor() == if k > 0 {
            k - 1
        } else {
            k
        },
        Key::Right => n.content@ == s && n.cursor() == if k < s.len() {
            k + 1
        } else {
            k
        },
        _ => n.content@ == s && n.cursor() == k,
    }
}

/// Passes a key to the `i`-th buffer of a list.
pub fn edit_buffer(bufs: &mut Vec<TextBuffer>, i: usize, key: Key)
    requires
        i < old(bufs)@.len(),
        buffers_wf(old(bufs)@),
    ensures
        final(bufs)@.len() == old(bufs)@.len(),
        buffers_wf(final(bufs)@),
        key_edit(old(bufs)@[i as int], final(bufs)@[i as int], key),
        forall|j: int| 0 <= j < old(bufs)@.len() && j != i ==> #[trigger] final(bufs)@[j] == old(bufs)@[j],
{
    let mut b = bufs.remove(i);
    b.handle_key(key);
    bufs.insert(i, b);
}

/// Indices of the checked entries, in increasing order.
pub open spec fn checked_indices(c: Seq<bool>) -> Seq<usize>
    decreases c.len(),
{
    if c.len() == 0 {
        seq![]
    } else if c.last() {
        checked_indices(c.drop_last()).push((c.len() - 1) as usize)
    } else {
        checked_indices(c.drop_last())
    }
}

/// Checkbox state of a multi-select list.
#[derive(Debug)]
pub struct CheckboxList {
    pub cursor: usize,
    pub checked: Vec<bool>,
}

/// The entry at `i` flipped, when `i` is an entry.
pub open spec fn toggled(o: Seq<bool>, n: Seq<bool>, i: int) -> bool {
    if 0 <= i < o.len() {
        n == o.update(i, !o[i])
    } else {
        n == o
    }
}

/// Flipping the same entry twice leaves the checks as they were.
pub proof fn lemma_toggle_twice(a: Seq<bool>, b: Seq<bool>, c: Seq<bool>, i: int)
    requires
        toggled(a, b, i),
        toggled(b, c, i),
    ensures
        c == a,
{
    if 0 <= i < a.len() {
        assert(c =~= a);
    }
}

/// Typing a character and then Backspace leaves the text and the cursor as
/// they were.
pub proof fn lemma_type_then_backspace(o: TextBuffer, mid: TextBuffer, n: TextBuffer, c: char)
    requires
        o.wf(),
        key_edit(o, mid, Key::Char(c)),
        key_edit(mid, n, Key::Backspace),
    ensures
        n.content@ == o.content@,
        n.cursor() == o.cursor(),
{
    let s = o.content@;
    let k = o.cursor() as int;
    assert(mid.content@.take(k) =~= s.take(k));
    assert(mid.content@.skip(k + 1) =~= s.skip(k));
    assert(n.content@ =~= s);
}

impl CheckboxList {
    pub fn new(count: usize) -> (r: Self)
        ensures
            r.cursor == 0,
            r.checked@.len() == count,
            forall|i: int| 0 <= i < count ==> !(#[trigger] r.checked@[i]),
    {
        let mut checked: Vec<bool> = Vec::new();
        for i in 0..count
            invariant
                checked@.len() == i,
                forall|j: int| 0 <= j < i ==> !(#[trigger] checked@[j]),
        {
            checked.push(false);
        }
        CheckboxList { cursor: 0, checked }
    }

    /// Cursor one entry up, stopping at the first.
    pub fn up(&mut self)
        ensures
            final(self).checked == old(self).checked,
            final(self).cursor == if old(self).cursor > 0 {
                (old(self).cursor - 1) as usize
            } else {
                old(self).cursor
            },
    {
        if self.cursor > 0 {
            self.cursor = self.cursor - 1;
        }
    }

    /// Cursor one entry down, stopping at the last.
    pub fn down(&mut self)
        ensures
            final(self).checked == old(self).checked,
            final(self).cursor == if old(self).cursor < last_index(old(self).checked@.len() as usize) {
                (old(self).cursor + 1) as usize
            } else {
                old(self).cursor
            },
    {
        let n = self.checked.len();
        let last = if n == 0 { 0 } else { n - 1 };
        if self.cursor < last {
            self.cursor = self.cursor + 1;
        }
    }

    /// Flips the entry under the cursor, if the cursor is on an entry.
    pub fn toggle(&mut self)
        ensures
            final(self).cursor == old(self).cursor,
            toggled(old(self).checked@, final(self).checked@, old(self).cursor as int),
    {
        if self.cursor < self.checked.len() {
            let c = self.checked[self.cursor];
            self.checked.set(self.cursor, !c);
        }
    }

    /// Checks every entry, or unchecks every entry when all were checked.
    pub fn select_all(&mut self)
        ensures
            final(self).cursor == old(self).cursor,
            final(self).checked@.len() == old(self).checked@.len(),
            forall|i: int|
                0 <= i < final(self).checked@.len() ==> #[trigger] final(self).checked@[i] == !(
                forall|j: int| 0 <= j < old(self).checked@.len() ==> old(self).checked@[j]),
    {
        let n = self.checked.len();
        let mut all = true;
        for i in 0..n
            invariant
                n == self.checked@.len(),
                self.checked@ == old(self).checked@,
                all == forall|j: int| 0 <= j < i ==> self.checked@[j],
        {
            if !self.checked[i] {
                all = false;
            }
        }
        for i in 0..n
            invariant
                n == self.checked@.len(),
                self.cursor == old(self).cursor,
                forall|j: int| 0 <= j < i ==> #[trigger] self.checked@[j] == !all,
        {
            self.checked.set(i, !all);
        }
    }

    /// Indices of the checked entries.
    pub fn selected_indices(&self) -> (r: Vec<usize>)
        ensures
            r@ == checked_indices(self.checked@),
    {
        let mut r: Vec<usize> = Vec::new();
        let n = self.checked.len();
        for i in 0..n
            invariant
                n == self.checked@.len(),
                r@ == checked_indices(self.checked@.take(i as int)),
        {
            proof {
                let t = self.checked@.take(i + 1);
                assert(t.drop_last() =~= self.checked@.take(i as int));
            }
            if self.checked[i] {
                r.push(i);
            }
        }
        assert(self.checked@.take(n as int) =~= self.checked@);
        r
    }

    /// Whether any entry is checked.
    pub fn any_selected(&self) -> (r: bool)
        ensures
            r == exists|i: int| 0 <= i < self.checked@.len() && self.checked@[i],
    {
        let n = self.checked.len();
        for i in 0..n
            invariant
                n == self.checked@.len(),
                forall|j: int| 0 <= j < i ==> !self.checked@[j],
        {
            if self.checked[i] {
                return true;
            }
        }
        false
    }
}

} // verus!
