//! What each screen shows: lines of text pieces, each piece with a tone
//! (plain, header, muted, highlighted, success, error, action badge, or the
//! character under a text cursor). Drawing them on the terminal happens
//! outside the library.

use vstd::prelude::*;
use crate::file_list::{format_horizontal, horizontal_lines, line_views, name_views};
use crate::app::App;
use crate::screens::ActiveScreen;
use crate::number::{decimal, decimal2, push_decimal, push_decimal2};
use crate::report::success_count;
use crate::screens::calc_type::CalcTypeScreen;
use crate::screens::choose_path::ChoosePathScreen;
use crate::screens::confirm::ConfirmScreen;
use crate::screens::result::{JobResult, ResultScreen};
use crate::screens::spin_mode::SpinModeScreen;
use crate::screens::tst_method::TstMethodScreen;
use crate::screens::welcome::WelcomeScreen;
use crate::screens::{checked_indices, TextBuffer};
use crate::screens::edit_kpoints::EditKpointsScreen;
use crate::screens::edit_incar::{EditIncarScreen, Mode};
use crate::screens::file_pick::FilePickScreen;
use crate::screens::magmom::MagmomScreen;
use crate::screens::submit_setup::{confirm_post, job_names_spec, SubmitSetupScreen};
use crate::screens::ScreenAction;
use crate::shell::{sanitize_job_name, sanitize_spec};
use crate::state::{join_spaces, join_with_spaces, AppState, CalcType, FlowPath, SpeciesInfo, SpinMode, TstMethod};
use crate::text::{byte_len, chars_of, push_char, str_byte_len};

verus! {

/// How a piece of text is shown.
#[derive(Debug, Clone, Copy, PartialEq, Eq, Structural)]
pub enum Tone {
    Plain,
    Header,
    Muted,
    Highlight,
    Success,
    Error,
    /// The badge asking the user to act.
    Action,
    /// The character under a text cursor (highlighted, reversed).
    Cursor,
}

/// A piece of text with its tone.
pub struct Piece {
    pub text: String,
    pub tone: Tone,
}

/// The mathematical content of a line.
pub type LineView = Seq<(Seq<char>, Tone)>;

pub open spec fn piece_view(p: Piece) -> (Seq<char>, Tone) {
    (p.text@, p.tone)
}

pub open spec fn line_view(l: Vec<Piece>) -> LineView {
    l@.map_values(|p: Piece| piece_view(p))
}

pub open spec fn lines_view(ls: Seq<Vec<Piece>>) -> Seq<LineView> {
    ls.map_values(|l: Vec<Piece>| line_view(l))
}

/// A line of one piece.
pub open spec fn one(t: Seq<char>, tone: Tone) -> LineView {
    seq![(t, tone)]
}

/// The badge line asking the user to act.
pub open spec fn action_line() -> LineView {
    seq![("  "@, Tone::Plain), (" Action Required "@, Tone::Action)]
}

/// `n` spaces.
pub open spec fn spaces(n: nat) -> Seq<char> {
    Seq::new(n, |i: int| ' ')
}

/// `s` followed by spaces up to `width` characters (`{:<width}`).
pub open spec fn padded(s: Seq<char>, width: nat) -> Seq<char> {
    if s.len() >= width {
        s
    } else {
        s + spaces((width - s.len()) as nat)
    }
}

/// `c` repeated `n` times.
pub open spec fn repeated(c: char, n: nat) -> Seq<char> {
    Seq::new(n, |i: int| c)
}

/// The right-hand label of the header: the step counter (when there is a
/// total) and the screen's label, either one alone, or nothing.
pub open spec fn header_label_spec(step: u32, total: u32, label: Seq<char>) -> Seq<char> {
    if total > 0 && label.len() > 0 {
        "Step "@ + decimal(step as nat) + seq!['/'] + decimal(total as nat) + " · "@ + label
    } else if total > 0 {
        "Step "@ + decimal(step as nat) + seq!['/'] + decimal(total as nat)
    } else {
        label
    }
}

pub(crate) fn piece(text: String, tone: Tone) -> (r: Piece)
    ensures
        piece_view(r) == (text@, tone),
{
    Piece { text, tone }
}

pub(crate) fn piece_str(text: &str, tone: Tone) -> (r: Piece)
    ensures
        piece_view(r) == (text@, tone),
{
    Piece { text: String::from_str(text), tone }
}

/// Appends a piece to a line.
pub(crate) fn push_piece(line: &mut Vec<Piece>, p: Piece)
    ensures
        line_view(*final(line)) == line_view(*old(line)).push(piece_view(p)),
{
    let ghost o = line_view(*line);
    line.push(p);
    assert(line_view(*line) =~= o.push(piece_view(p)));
}

/// Appends a line.
pub(crate) fn add_line(lines: &mut Vec<Vec<Piece>>, l: Vec<Piece>)
    ensures
        lines_view(final(lines)@) == lines_view(old(lines)@).push(line_view(l)),
{
    let ghost o = lines_view(lines@);
    let ghost lv = line_view(l);
    lines.push(l);
    assert(lines_view(lines@) =~= o.push(lv));
}

/// A line of one piece.
pub(crate) fn text_line(text: &str, tone: Tone) -> (r: Vec<Piece>)
    ensures
        line_view(r) == one(text@, tone),
{
    let mut l: Vec<Piece> = Vec::new();
    push_piece(&mut l, piece_str(text, tone));
    assert(line_view(l) =~= one(text@, tone));
    l
}

/// A line of one piece holding `text`.
pub(crate) fn string_line(text: String, tone: Tone) -> (r: Vec<Piece>)
    ensures
        line_view(r) == one(text@, tone),
{
    let ghost t = text@;
    let mut l: Vec<Piece> = Vec::new();
    push_piece(&mut l, piece(text, tone));
    assert(line_view(l) =~= one(t, tone));
    l
}

pub(crate) fn blank_line() -> (r: Vec<Piece>)
    ensures
        line_view(r) == Seq::<(Seq<char>, Tone)>::empty(),
{
    let l: Vec<Piece> = Vec::new();
    assert(line_view(l) =~= Seq::<(Seq<char>, Tone)>::empty());
    l
}

pub(crate) fn action_required() -> (r: Vec<Piece>)
    ensures
        line_view(r) == action_line(),
{
    let mut l: Vec<Piece> = Vec::new();
    push_piece(&mut l, piece_str("  ", Tone::Plain));
    push_piece(&mut l, piece_str(" Action Required ", Tone::Action));
    assert(line_view(l) =~= action_line());
    l
}

/// `s` padded with spaces to `width` characters.
pub(crate) fn pad_right(s: &str, width: usize) -> (r: String)
    ensures
        r@ == padded(s@, width as nat),
{
    let n = s.unicode_len();
    let mut r = String::from_str(s);
    if n < width {
        let mut k = n;
        while k < width
            invariant
                n <= k <= width,
                n == s@.len(),
                r@ == s@ + spaces((k - n) as nat),
            decreases width - k,
        {
            push_char(&mut r, ' ');
            k = k + 1;
            assert(r@ =~= s@ + spaces((k - n) as nat));
        }
    } else {
        assert(r@ == s@);
    }
    r
}

/// `c` repeated `n` times.
pub(crate) fn repeat_char(c: char, n: usize) -> (r: String)
    ensures
        r@ == repeated(c, n as nat),
{
    let mut r = String::new();
    for i in 0..n
        invariant
            r@ == repeated(c, i as nat),
    {
        push_char(&mut r, c);
        assert(r@ =~= repeated(c, (i + 1) as nat));
    }
    assert(r@ =~= repeated(c, n as nat));
    r
}

/// The right-hand label of the header (see [`header_label_spec`]).
pub fn header_label(step: u32, total: u32, label: &str) -> (r: String)
    ensures
        r@ == header_label_spec(step, total, label@),
{
    let has_label = label.unicode_len() > 0;
    if total > 0 {
        let mut r = String::from_str("Step ");
        push_decimal(&mut r, step as u64);
        push_char(&mut r, '/');
        push_decimal(&mut r, total as u64);
        if has_label {
            r.append(" · ");
            r.append(label);
        }
        r
    } else {
        String::from_str(label)
    }
}

/// `a - b`, or 0 when `b` exceeds `a` (`saturating_sub`).
pub open spec fn sat_sub(a: int, b: int) -> nat {
    if a > b {
        (a - b) as nat
    } else {
        0
    }
}

/// The bottom line of the header: a rule, or, when there is a label, a
/// shorter rule, the label as a badge and a space, the rule leaving room
/// for the badge's bytes and the space.
pub open spec fn header_bottom(width: nat, label: Seq<char>) -> LineView {
    if label.len() == 0 {
        one(repeated('─', width), Tone::Muted)
    } else {
        let badge = seq![' '] + label + seq![' '];
        seq![
            (repeated('─', sat_sub(sat_sub(width as int, byte_len(badge) as int) as int, 1)), Tone::Muted),
            (badge, Tone::Action),
            (seq![' '], Tone::Plain),
        ]
    }
}

/// The four header lines: a rule, the title with the version, the
/// description, and the bottom line with the label (see
/// [`header_label_spec`]).
pub open spec fn header_view(width: nat, step: u32, total: u32, label: Seq<char>, version: Seq<char>) -> Seq<LineView> {
    seq![
        one(repeated('─', width), Tone::Muted),
        one("VASPsetup v"@ + version, Tone::Header),
        one("VASP calculation setup & submission"@, Tone::Muted),
        header_bottom(width, header_label_spec(step, total, label)),
    ]
}

fn rule_string(width: usize) -> (r: String)
    ensures
        r@ == repeated('─', width as nat),
{
    repeat_char('─', width)
}

fn header_bottom_line(width: usize, label: String) -> (r: Vec<Piece>)
    ensures
        line_view(r) == header_bottom(width as nat, label@),
{
    let mut l: Vec<Piece> = Vec::new();
    if label.unicode_len() == 0 {
        push_piece(&mut l, piece(rule_string(width), Tone::Muted));
        assert(line_view(l) =~= header_bottom(width as nat, label@));
        return l;
    }
    let mut badge = String::from_str(" ");
    proof {
        reveal_strlit(" ");
    }
    badge.append(label.as_str());
    push_char(&mut badge, ' ');
    assert(badge@ =~= seq![' '] + label@ + seq![' ']);
    let n = str_byte_len(badge.as_str());
    let room = width.saturating_sub(n).saturating_sub(1);
    assert(room == sat_sub(sat_sub(width as int, byte_len(badge@) as int) as int, 1));
    let rule = rule_string(room);
    push_piece(&mut l, piece(rule, Tone::Muted));
    let ghost b = badge@;
    push_piece(&mut l, piece(badge, Tone::Action));
    push_piece(&mut l, piece_str(" ", Tone::Plain));
    assert(label@.len() != 0);
    assert(line_view(l)[0] == (repeated('─', room as nat), Tone::Muted));
    assert(line_view(l)[1] == (b, Tone::Action));
    assert(line_view(l)[2] == (seq![' '], Tone::Plain));
    assert(line_view(l) =~= header_bottom(width as nat, label@));
    l
}

/// The header lines (see [`header_view`]).
pub fn header_lines(width: usize, step: u32, total: u32, label: &str, version: &str) -> (r: Vec<Vec<Piece>>)
    ensures
        lines_view(r@) == header_view(width as nat, step, total, label@, version@),
{
    let mut out: Vec<Vec<Piece>> = Vec::new();
    add_line(&mut out, string_line(rule_string(width), Tone::Muted));
    let mut title = String::from_str("VASPsetup v");
    title.append(version);
    add_line(&mut out, string_line(title, Tone::Header));
    add_line(&mut out, text_line("VASP calculation setup & submission", Tone::Muted));
    add_line(&mut out, header_bottom_line(width, header_label(step, total, label)));
    assert(lines_view(out@) =~= header_view(width as nat, step, total, label@, version@));
    out
}

/// The pieces of the key hints: each key highlighted, then `: ` and its
/// action muted, hints three spaces apart.
pub open spec fn key_hints(keys: Seq<(Seq<char>, Seq<char>)>) -> LineView
    decreases keys.len(),
{
    if keys.len() == 0 {
        seq![]
    } else {
        let rest = key_hints(keys.drop_last());
        let gap: LineView = if keys.len() > 1 { seq![("   "@, Tone::Plain)] } else { seq![] };
        rest + gap + seq![
            (keys.last().0, Tone::Highlight),
            (": "@, Tone::Muted),
            (keys.last().1, Tone::Muted),
        ]
    }
}

pub open spec fn key_views(keys: Seq<(&str, &str)>) -> Seq<(Seq<char>, Seq<char>)> {
    keys.map_values(|k: (&str, &str)| (k.0@, k.1@))
}

/// The two footer lines: a rule, then the key hints (see [`key_hints`]).
pub open spec fn footer_view(width: nat, keys: Seq<(Seq<char>, Seq<char>)>) -> Seq<LineView> {
    seq![one(repeated('─', width), Tone::Muted), key_hints(keys)]
}

/// The footer lines (see [`footer_view`]).
pub fn footer_lines(width: usize, keys: &[(&str, &str)]) -> (r: Vec<Vec<Piece>>)
    ensures
        lines_view(r@) == footer_view(width as nat, key_views(keys@)),
{
    let mut hints: Vec<Piece> = Vec::new();
    let n = keys.len();
    for i in 0..n
        invariant
            n == keys@.len(),
            line_view(hints) == key_hints(key_views(keys@).take(i as int)),
    {
        let ghost before = line_view(hints);
        let (key, action) = keys[i];
        if i > 0 {
            push_piece(&mut hints, piece_str("   ", Tone::Plain));
        }
        push_piece(&mut hints, piece_str(key, Tone::Highlight));
        push_piece(&mut hints, piece_str(": ", Tone::Muted));
        push_piece(&mut hints, piece_str(action, Tone::Muted));
        proof {
            let kv = key_views(keys@);
            assert(kv.take(i + 1).drop_last() =~= kv.take(i as int));
            assert(kv.take(i + 1).last() == (key@, action@));
            assert(line_view(hints) =~= key_hints(kv.take(i + 1)));
        }
    }
    assert(key_views(keys@).take(n as int) =~= key_views(keys@));
    let mut out: Vec<Vec<Piece>> = Vec::new();
    add_line(&mut out, string_line(rule_string(width), Tone::Muted));
    add_line(&mut out, hints);
    assert(lines_view(out@) =~= footer_view(width as nat, key_views(keys@)));
    out
}

/// The pieces of a line of file names: the indent, then the names two
/// columns apart.
pub open spec fn names_line(names: Seq<Seq<char>>) -> LineView
    decreases names.len(),
{
    if names.len() == 0 {
        seq![("  "@, Tone::Plain)]
    } else if names.len() == 1 {
        seq![("  "@, Tone::Plain), (names[0], Tone::Highlight)]
    } else {
        names_line(names.drop_last()).push(("  "@, Tone::Plain)).push((names.last(), Tone::Highlight))
    }
}

/// The lines showing file names side by side (see
/// [`horizontal_lines`]), or a note when there are none.
pub open spec fn file_lines_spec(files: Seq<Seq<char>>, width: nat) -> Seq<LineView> {
    let ls = horizontal_lines(files, width as int);
    if ls.len() == 0 {
        seq![one("  (no files found)"@, Tone::Plain)]
    } else {
        ls.map_values(|names: Seq<Seq<char>>| names_line(names))
    }
}

fn names_pieces(names: &Vec<String>) -> (r: Vec<Piece>)
    ensures
        line_view(r) == names_line(names@.map_values(|s: String| s@)),
{
    let ghost nv = names@.map_values(|s: String| s@);
    let mut l: Vec<Piece> = Vec::new();
    push_piece(&mut l, piece_str("  ", Tone::Plain));
    let n = names.len();
    for j in 0..n
        invariant
            n == names@.len(),
            nv == names@.map_values(|s: String| s@),
            line_view(l) == names_line(nv.take(j as int)),
    {
        proof {
            assert(nv.take(j + 1).drop_last() =~= nv.take(j as int));
            if j == 0 {
                assert(nv.take(0) =~= Seq::<Seq<char>>::empty());
            }
        }
        if j > 0 {
            push_piece(&mut l, piece_str("  ", Tone::Plain));
        }
        push_piece(&mut l, piece(names[j].clone(), Tone::Highlight));
        proof {
            if j == 0 {
                assert(line_view(l) =~= names_line(nv.take(1)));
            }
        }
    }
    assert(nv.take(n as int) =~= nv);
    l
}

/// File names side by side within `width` columns.
pub fn file_lines(files: &[String], width: usize) -> (r: Vec<Vec<Piece>>)
    requires
        width <= usize::MAX / 4,
        forall|i: int| 0 <= i < files@.len() ==> (#[trigger] files@[i])@.len() <= usize::MAX / 4,
    ensures
        lines_view(r@) == file_lines_spec(name_views(files@), width as nat),
{
    let list = format_horizontal(files, width);
    let mut out: Vec<Vec<Piece>> = Vec::new();
    let n = list.lines.len();
    if n == 0 {
        add_line(&mut out, text_line("  (no files found)", Tone::Plain));
        assert(lines_view(out@) =~= file_lines_spec(name_views(files@), width as nat));
        return out;
    }
    let ghost lv = line_views(list.lines@);
    for i in 0..n
        invariant
            n == list.lines@.len(),
            lv == line_views(list.lines@),
            lines_view(out@) == lv.take(i as int).map_values(|names: Seq<Seq<char>>| names_line(names)),
    {
        add_line(&mut out, names_pieces(&list.lines[i]));
        assert(lines_view(out@) =~= lv.take(i + 1).map_values(|names: Seq<Seq<char>>| names_line(names)));
    }
    assert(lv.take(n as int) =~= lv);
    out
}

/// The text of a buffer as pieces: the text before the cursor, the
/// character under it (a space when the cursor is at the end) in the cursor
/// tone, and the rest; empty pieces are left out.
pub open spec fn cursor_pieces_spec(b: TextBuffer) -> LineView {
    let s = b.content@;
    let k = b.cursor() as int;
    let before: LineView = if k > 0 {
        seq![(s.take(k), Tone::Highlight)]
    } else {
        seq![]
    };
    if k < s.len() {
        let after: LineView = if k + 1 < s.len() {
            seq![(s.skip(k + 1), Tone::Highlight)]
        } else {
            seq![]
        };
        before + seq![(seq![s[k]], Tone::Cursor)] + after
    } else {
        before + seq![(seq![' '], Tone::Cursor)]
    }
}

/// Appends the pieces of a buffer with its cursor.
pub(crate) fn add_cursor_pieces(line: &mut Vec<Piece>, b: &TextBuffer)
    requires
        b.wf(),
    ensures
        line_view(*final(line)) == line_view(*old(line)) + cursor_pieces_spec(*b),
{
    let ghost o = line_view(*line);
    let ghost sc = b.content@;
    let (before, at, after) = b.cursor_parts();
    let k = b.cursor_index();
    let ghost pre: LineView = if k > 0 {
        seq![(sc.take(k as int), Tone::Highlight)]
    } else {
        seq![]
    };
    if k > 0 {
        push_piece(line, piece(before, Tone::Highlight));
    }
    assert(line_view(*line) =~= o + pre);
    match at {
        Some(c) => {
            assert(k < sc.len());
            assert(c == sc[k as int]);
            let mut t = String::new();
            push_char(&mut t, c);
            assert(t@ =~= seq![c]);
            push_piece(line, piece(t, Tone::Cursor));
            let ghost mid = line_view(*line);
            assert(mid =~= o + pre + seq![(seq![sc[k as int]], Tone::Cursor)]);
            let ghost av = after@;
            assert(av == sc.skip(k + 1));
            let has_after = after.as_str().unicode_len() > 0;
            if has_after {
                push_piece(line, piece(after, Tone::Highlight));
                proof {
                    assert(k + 1 < sc.len());
                    assert(line_view(*line) =~= o + (pre + seq![(seq![sc[k as int]], Tone::Cursor)] + seq![(sc.skip(k + 1), Tone::Highlight)]));
                }
            } else {
                proof {
                    assert(!(k + 1 < sc.len()));
                    assert(line_view(*line) =~= o + (pre + seq![(seq![sc[k as int]], Tone::Cursor)] + Seq::<(Seq<char>, Tone)>::empty()));
                }
            }
        },
        None => {
            assert(k == sc.len());
            push_piece(line, piece_str(" ", Tone::Cursor));
            proof {
                reveal_strlit(" ");
                assert(" "@ =~= seq![' ']);
                assert(line_view(*line) =~= o + (pre + seq![(seq![' '], Tone::Cursor)]));
            }
        },
    }
}


/// The opening of a choice screen: the badge, the question and a hint.
pub open spec fn choice_intro(question: Seq<char>, hint: Seq<char>) -> Seq<LineView> {
    seq![seq![], action_line(), seq![], one(question, Tone::Plain), one(hint, Tone::Muted), seq![]]
}

/// A choice, marked and highlighted when the cursor is on it.
pub open spec fn choice_line_spec(selected: bool, label: Seq<char>) -> LineView {
    if selected {
        one("  > "@ + label, Tone::Highlight)
    } else {
        one("    "@ + label, Tone::Muted)
    }
}

fn choice_line(selected: bool, label: &str) -> (r: Vec<Piece>)
    ensures
        line_view(r) == choice_line_spec(selected, label@),
{
    let mut t = String::from_str(if selected { "  > " } else { "    " });
    t.append(label);
    string_line(t, if selected { Tone::Highlight } else { Tone::Muted })
}

fn choice_intro_lines(question: &str, hint: &str) -> (r: Vec<Vec<Piece>>)
    ensures
        lines_view(r@) == choice_intro(question@, hint@),
{
    let mut out: Vec<Vec<Piece>> = Vec::new();
    add_line(&mut out, blank_line());
    add_line(&mut out, action_required());
    add_line(&mut out, blank_line());
    add_line(&mut out, text_line(question, Tone::Plain));
    add_line(&mut out, text_line(hint, Tone::Muted));
    add_line(&mut out, blank_line());
    assert(lines_view(out@) =~= choice_intro(question@, hint@));
    out
}

/// The path screen.
pub open spec fn choose_path_view(cursor: usize) -> Seq<LineView> {
    choice_intro("  What would you like to do?"@, "  Quick Job submission"@) + seq![
        choice_line_spec(cursor == 0, "Quick Job Submission"@),
        one("    Submit an existing calculation to the cluster"@, Tone::Muted),
        seq![],
        choice_line_spec(cursor == 1, "Perform Calculation"@),
        one("    Set up a new VASP calculation and submit"@, Tone::Muted),
        seq![],
    ]
}

impl ChoosePathScreen {
    /// The lines of the path choice (see [`choose_path_view`]).
    pub fn render(&self) -> (r: Vec<Vec<Piece>>)
        ensures
            lines_view(r@) == choose_path_view(self.cursor.index),
    {
        let cursor = self.cursor.index;
        let mut out = choice_intro_lines("  What would you like to do?", "  Quick Job submission");
        let ghost o = lines_view(out@);
        add_line(&mut out, choice_line(cursor == 0, "Quick Job Submission"));
        add_line(&mut out, text_line("    Submit an existing calculation to the cluster", Tone::Muted));
        add_line(&mut out, blank_line());
        add_line(&mut out, choice_line(cursor == 1, "Perform Calculation"));
        add_line(&mut out, text_line("    Set up a new VASP calculation and submit", Tone::Muted));
        add_line(&mut out, blank_line());
        assert(lines_view(out@) =~= choose_path_view(cursor));
        out
    }
}

/// The calculation type screen: the eight types, the one under the cursor
/// marked.
pub open spec fn calc_type_view(cursor: usize) -> Seq<LineView> {
    choice_intro(
        "  Select calculation type:"@,
        "  This determines the INCAR preset loaded for the calculation."@,
    ) + Seq::new(8, |i: int| choice_line_spec(i == cursor, CalcType::all_spec()[i].display_name_spec()))
}

impl CalcTypeScreen {
    /// The lines of the calculation type choice (see [`calc_type_view`]).
    pub fn render(&self) -> (r: Vec<Vec<Piece>>)
        ensures
            lines_view(r@) == calc_type_view(self.cursor.index),
    {
        let cursor = self.cursor.index;
        let mut out = choice_intro_lines(
            "  Select calculation type:",
            "  This determines the INCAR preset loaded for the calculation.",
        );
        let ghost o = lines_view(out@);
        let all = CalcType::all();
        let ghost want = Seq::new(8, |i: int| choice_line_spec(i == cursor, CalcType::all_spec()[i].display_name_spec()));
        for i in 0..8
            invariant
                all@ == CalcType::all_spec(),
                o == choice_intro(
                    "  Select calculation type:"@,
                    "  This determines the INCAR preset loaded for the calculation."@,
                ),
                want == Seq::new(8, |i: int| choice_line_spec(i == cursor, CalcType::all_spec()[i].display_name_spec())),
                lines_view(out@) == o + want.take(i as int),
        {
            add_line(&mut out, choice_line(i == cursor, all[i].display_name()));
            assert(lines_view(out@) =~= o + want.take(i + 1));
        }
        assert(want.take(8) =~= want);
        out
    }
}

/// The transition-state method screen.
pub open spec fn tst_method_view(cursor: usize) -> Seq<LineView> {
    choice_intro(
        "  Select transition state method:"@,
        "  This determines the INCAR preset and calculation behavior."@,
    ) + Seq::new(3, |i: int| choice_line_spec(i == cursor, TstMethod::all_spec()[i].display_name_spec()))
}

impl TstMethodScreen {
    /// The lines of the transition state method choice (see [`tst_method_view`]).
    pub fn render(&self) -> (r: Vec<Vec<Piece>>)
        ensures
            lines_view(r@) == tst_method_view(self.cursor.index),
    {
        let cursor = self.cursor.index;
        let mut out = choice_intro_lines(
            "  Select transition state method:",
            "  This determines the INCAR preset and calculation behavior.",
        );
        let ghost o = lines_view(out@);
        let all = TstMethod::all();
        let ghost want = Seq::new(3, |i: int| choice_line_spec(i == cursor, TstMethod::all_spec()[i].display_name_spec()));
        for i in 0..3
            invariant
                all@ == TstMethod::all_spec(),
                o == choice_intro(
                    "  Select transition state method:"@,
                    "  This determines the INCAR preset and calculation behavior."@,
                ),
                want == Seq::new(3, |i: int| choice_line_spec(i == cursor, TstMethod::all_spec()[i].display_name_spec())),
                lines_view(out@) == o + want.take(i as int),
        {
            add_line(&mut out, choice_line(i == cursor, all[i].display_name()));
            assert(lines_view(out@) =~= o + want.take(i + 1));
        }
        assert(want.take(3) =~= want);
        out
    }
}

/// The spin screen.
pub open spec fn spin_mode_view(cursor: usize) -> Seq<LineView> {
    choice_intro("  Spin polarization:"@, "  Unrestricted enables ISPIN=2 and requires MAGMOM values."@)
        + seq![
        choice_line_spec(cursor == 0, "Spin Restricted"@),
        choice_line_spec(cursor == 1, "Spin Unrestricted"@),
    ]
}

impl SpinModeScreen {
    /// The lines of the spin choice (see [`spin_mode_view`]).
    pub fn render(&self) -> (r: Vec<Vec<Piece>>)
        ensures
            lines_view(r@) == spin_mode_view(self.cursor.index),
    {
        let cursor = self.cursor.index;
        let mut out = choice_intro_lines(
            "  Spin polarization:",
            "  Unrestricted enables ISPIN=2 and requires MAGMOM values.",
        );
        add_line(&mut out, choice_line(cursor == 0, "Spin Restricted"));
        add_line(&mut out, choice_line(cursor == 1, "Spin Unrestricted"));
        assert(lines_view(out@) =~= spin_mode_view(cursor));
        out
    }
}

/// The first screen: the working directory as shown (`dir`), its structure
/// files side by side, and the question.
pub open spec fn welcome_view(files: Seq<String>, dir: Seq<char>, width: nat) -> Seq<LineView> {
    seq![
        seq![],
        seq![("  Directory:  "@, Tone::Plain), (dir, Tone::Highlight)],
        one("  This is your current directory"@, Tone::Muted),
        seq![],
        one("  Detected files in "@ + dir + " directory:"@, Tone::Plain),
    ] + file_lines_spec(name_views(files), width) + seq![
        seq![],
        seq![],
        action_line(),
        seq![],
        one("  Is this the correct directory?"@, Tone::Plain),
        one("  Confirm this is where your structure files live."@, Tone::Muted),
    ]
}

/// Every name is short enough to lay out.
pub open spec fn names_fit(files: Seq<String>) -> bool {
    forall|i: int| 0 <= i < files.len() ==> (#[trigger] files[i])@.len() <= usize::MAX / 4
}

impl WelcomeScreen {
    /// The lines of the first screen for the directory shown as `dir` and its
    /// structure files laid out in `width` columns (see [`welcome_view`]).
    pub fn render(&self, files: &[String], dir: &str, width: usize) -> (r: Vec<Vec<Piece>>)
        requires
            width <= usize::MAX / 4,
            names_fit(files@),
        ensures
            lines_view(r@) == welcome_view(files@, dir@, width as nat),
    {
        let mut out: Vec<Vec<Piece>> = Vec::new();
        add_line(&mut out, blank_line());
        let mut l: Vec<Piece> = Vec::new();
        push_piece(&mut l, piece_str("  Directory:  ", Tone::Plain));
        push_piece(&mut l, piece_str(dir, Tone::Highlight));
        assert(line_view(l) =~= seq![("  Directory:  "@, Tone::Plain), (dir@, Tone::Highlight)]);
        add_line(&mut out, l);
        add_line(&mut out, text_line("  This is your current directory", Tone::Muted));
        add_line(&mut out, blank_line());
        let mut t = String::from_str("  Detected files in ");
        t.append(dir);
        t.append(" directory:");
        assert(t@ =~= "  Detected files in "@ + dir@ + " directory:"@);
        add_line(&mut out, string_line(t, Tone::Plain));
        let ghost head = lines_view(out@);
        let mut files_part = file_lines(files, width);
        let ghost fp = lines_view(files_part@);
        out.append(&mut files_part);
        assert(lines_view(out@) =~= head + fp);
        add_line(&mut out, blank_line());
        add_line(&mut out, blank_line());
        add_line(&mut out, action_required());
        add_line(&mut out, blank_line());
        add_line(&mut out, text_line("  Is this the correct directory?", Tone::Plain));
        add_line(&mut out, text_line("  Confirm this is where your structure files live.", Tone::Muted));
        assert(lines_view(out@) =~= welcome_view(files@, dir@, width as nat));
        out
    }
}

/// The line of one job's outcome.
pub open spec fn result_line_spec(r: JobResult) -> LineView {
    if r.success {
        seq![
            ("  + "@, Tone::Success),
            (r.job_name@, Tone::Highlight),
            ("  (Job ID: "@ + (match r.job_id {
                Some(id) => id@,
                None => "unknown"@,
            }) + ")"@, Tone::Muted),
        ]
    } else {
        seq![("  x "@, Tone::Error), (r.job_name@, Tone::Highlight), ("  "@ + r.message@, Tone::Error)]
    }
}

/// The result screen: a headline (all submitted, all failed, or how many
/// of how many), one line per job, and how to leave.
pub open spec fn headline_spec(ok: nat, total: nat) -> LineView {
    if ok == total && total > 0 {
        one("  "@ + decimal(total) + " job(s) submitted successfully"@, Tone::Success)
    } else if ok == 0 && total > 0 {
        one("  Submission failed"@, Tone::Error)
    } else {
        one("  "@ + decimal(ok) + seq!['/'] + decimal(total) + " job(s) submitted"@, Tone::Highlight)
    }
}

pub open spec fn result_view(results: Seq<JobResult>) -> Seq<LineView> {
    let total = results.len();
    seq![seq![], headline_spec(success_count(results), total), seq![]] + Seq::new(total, |i: int| result_line_spec(results[i])) + seq![
        seq![],
        one("  Press Enter to exit."@, Tone::Plain),
    ]
}

fn result_line(r: &JobResult) -> (l: Vec<Piece>)
    ensures
        line_view(l) == result_line_spec(*r),
{
    let mut l: Vec<Piece> = Vec::new();
    if r.success {
        push_piece(&mut l, piece_str("  + ", Tone::Success));
        push_piece(&mut l, piece(r.job_name.clone(), Tone::Highlight));
        let mut t = String::from_str("  (Job ID: ");
        match &r.job_id {
            Some(id) => t.append(id.as_str()),
            None => t.append("unknown"),
        }
        t.append(")");
        push_piece(&mut l, piece(t, Tone::Muted));
    } else {
        push_piece(&mut l, piece_str("  x ", Tone::Error));
        push_piece(&mut l, piece(r.job_name.clone(), Tone::Highlight));
        let mut t = String::from_str("  ");
        t.append(r.message.as_str());
        push_piece(&mut l, piece(t, Tone::Error));
    }
    assert(line_view(l) =~= result_line_spec(*r));
    l
}

fn headline(ok: usize, n: usize) -> (r: Vec<Piece>)
    ensures
        line_view(r) == headline_spec(ok as nat, n as nat),
{
    if ok == n && n > 0 {
        let mut t = String::from_str("  ");
        push_decimal(&mut t, n as u64);
        t.append(" job(s) submitted successfully");
        assert(t@ =~= "  "@ + decimal(n as nat) + " job(s) submitted successfully"@);
        string_line(t, Tone::Success)
    } else if ok == 0 && n > 0 {
        text_line("  Submission failed", Tone::Error)
    } else {
        let mut t = String::from_str("  ");
        push_decimal(&mut t, ok as u64);
        push_char(&mut t, '/');
        push_decimal(&mut t, n as u64);
        t.append(" job(s) submitted");
        assert(t@ =~= "  "@ + decimal(ok as nat) + seq!['/'] + decimal(n as nat) + " job(s) submitted"@);
        string_line(t, Tone::Highlight)
    }
}

impl ResultScreen {
    /// The lines of the result screen (see [`result_view`]).
    pub fn render(&self) -> (r: Vec<Vec<Piece>>)
        ensures
            lines_view(r@) == result_view(self.results@),
    {
        let results = &self.results;
        let n = results.len();
        let mut ok: usize = 0;
        for i in 0..n
            invariant
                n == results@.len(),
                ok == success_count(results@.take(i as int)),
                ok <= i,
        {
            proof {
                assert(results@.take(i + 1).drop_last() =~= results@.take(i as int));
            }
            if results[i].success {
                ok = ok + 1;
            }
        }
        assert(results@.take(n as int) =~= results@);
        let mut out: Vec<Vec<Piece>> = Vec::new();
        add_line(&mut out, blank_line());
        add_line(&mut out, headline(ok, n));
        add_line(&mut out, blank_line());
        let ghost head = lines_view(out@);
        let ghost rows = Seq::new(n as nat, |i: int| result_line_spec(results@[i]));
        for i in 0..n
            invariant
                n == results@.len(),
                rows == Seq::new(n as nat, |i: int| result_line_spec(results@[i])),
                lines_view(out@) == head + rows.take(i as int),
        {
            add_line(&mut out, result_line(&results[i]));
            assert(lines_view(out@) =~= head + rows.take(i + 1));
        }
        assert(rows.take(n as int) =~= rows);
        add_line(&mut out, blank_line());
        add_line(&mut out, text_line("  Press Enter to exit.", Tone::Plain));
        assert(lines_view(out@) =~= result_view(results@));
        out
    }
}


/// The error line under a form, when there is an error.
pub open spec fn error_view(e: Option<String>) -> Seq<LineView> {
    match e {
        Some(m) => seq![seq![], one("  "@ + m@, Tone::Error)],
        None => seq![],
    }
}

fn add_error(out: &mut Vec<Vec<Piece>>, e: &Option<String>)
    ensures
        lines_view(final(out)@) == lines_view(old(out)@) + error_view(*e),
{
    let ghost o = lines_view(out@);
    match e {
        Some(m) => {
            add_line(out, blank_line());
            let mut t = String::from_str("  ");
            t.append(m.as_str());
            add_line(out, string_line(t, Tone::Error));
        },
        None => {},
    }
    assert(lines_view(out@) =~= o + error_view(*e));
}

/// A Confirm slot: a blank line, then the label marked when focused.
pub open spec fn confirm_view(focused: bool, label: Seq<char>) -> Seq<LineView> {
    seq![
        seq![],
        if focused {
            one("  > "@ + label, Tone::Highlight)
        } else {
            one("    "@ + label, Tone::Muted)
        },
    ]
}

fn add_confirm(out: &mut Vec<Vec<Piece>>, focused: bool, label: &str)
    ensures
        lines_view(final(out)@) == lines_view(old(out)@) + confirm_view(focused, label@),
{
    let ghost o = lines_view(out@);
    add_line(out, blank_line());
    let mut t = String::from_str(if focused { "  > " } else { "    " });
    t.append(label);
    add_line(out, string_line(t, if focused { Tone::Highlight } else { Tone::Muted }));
    assert(lines_view(out@) =~= o + confirm_view(focused, label@));
}

/// The hint after a focused field.
pub open spec fn field_hint(focused: bool, editing: bool) -> Seq<char> {
    if focused {
        if editing {
            "  press Esc to exit editing"@
        } else {
            "  press Enter to edit"@
        }
    } else {
        ""@
    }
}

fn hint_text(focused: bool, editing: bool) -> (r: &'static str)
    ensures
        r@ == field_hint(focused, editing),
{
    if focused {
        if editing {
            "  press Esc to exit editing"
        } else {
            "  press Enter to edit"
        }
    } else {
        ""
    }
}

/// The row of species `i` on the magnetic moment screen: its symbol and
/// atom count, then its field (with the cursor while it is edited) and a
/// hint.
pub open spec fn magmom_row(m: MagmomScreen, sp: SpeciesInfo, i: int) -> LineView {
    let focused = i == m.focus;
    let label = "  "@ + (if focused {
        "> "@
    } else {
        "  "@
    }) + padded(sp.symbol@, 9) + seq![' '] + padded(decimal(sp.count as nat), 8) + seq![' '];
    let tone = if focused {
        Tone::Highlight
    } else {
        Tone::Muted
    };
    let hint = (field_hint(focused, m.editing), Tone::Muted);
    if focused && m.editing {
        seq![(label, tone)] + cursor_pieces_spec(m.buffers@[i]) + seq![hint]
    } else {
        let content = if i < m.buffers@.len() {
            m.buffers@[i].content@
        } else {
            "0.0"@
        };
        seq![(label, tone), (content, Tone::Highlight), hint]
    }
}

/// The MAGMOM text as the fields read: `{count}*{value}` per species and
/// field, `???` for a field that is not a number.
pub open spec fn magmom_preview(species: Seq<SpeciesInfo>, values: Seq<Option<String>>) -> Seq<char> {
    let n = if species.len() < values.len() {
        species.len()
    } else {
        values.len()
    };
    join_spaces(
        Seq::new(
            n,
            |i: int|
                decimal(species[i].count as nat) + seq!['*'] + match values[i] {
                    Some(v) => v@,
                    None => "???"@,
                },
        ),
    )
}

/// The magnetic moment screen; `values[i]` is the number field `i` reads as
/// (its decimal text), `None` when it is not a number.
pub open spec fn magmom_view(m: MagmomScreen, species: Seq<SpeciesInfo>, values: Seq<Option<String>>) -> Seq<LineView> {
    seq![
        seq![],
        action_line(),
        seq![],
        one("  Set MAGMOM values (per species):"@, Tone::Plain),
        one("  Press Enter on a field to edit. Use ↑↓ to navigate."@, Tone::Muted),
        seq![],
        one("  Species    Count    MAGMOM (per atom)"@, Tone::Muted),
        one("  ─────────────────────────────────────"@, Tone::Muted),
    ] + Seq::new(species.len(), |i: int| magmom_row(m, species[i], i)) + confirm_view(
        m.focus == m.buffers@.len(),
        "Confirm"@,
    ) + seq![seq![]] + (if species.len() > 0 {
        seq![seq![("  MAGMOM string: "@, Tone::Muted), (magmom_preview(species, values), Tone::Highlight)]]
    } else {
        seq![]
    }) + error_view(m.error)
}

fn magmom_row_line(m: &MagmomScreen, sp: &SpeciesInfo, i: usize) -> (r: Vec<Piece>)
    requires
        m.wf(),
    ensures
        line_view(r) == magmom_row(*m, *sp, i as int),
{
    let focused = i == m.focus;
    let mut label = String::from_str("  ");
    label.append(if focused { "> " } else { "  " });
    let sym = pad_right(sp.symbol.as_str(), 9);
    label.append(sym.as_str());
    push_char(&mut label, ' ');
    let mut count = String::new();
    push_decimal(&mut count, sp.count as u64);
    assert(count@ =~= decimal(sp.count as nat));
    let cnt = pad_right(count.as_str(), 8);
    label.append(cnt.as_str());
    push_char(&mut label, ' ');
    let ghost lv = label@;
    let ghost want_label = "  "@ + (if focused {
        "> "@
    } else {
        "  "@
    }) + padded(sp.symbol@, 9) + seq![' '] + padded(decimal(sp.count as nat), 8) + seq![' '];
    assert(lv =~= want_label);
    let tone = if focused { Tone::Highlight } else { Tone::Muted };
    let mut l: Vec<Piece> = Vec::new();
    push_piece(&mut l, piece(label, tone));
    let ghost first = seq![(want_label, tone)];
    assert(line_view(l) =~= first);
    if focused && m.editing {
        add_cursor_pieces(&mut l, &m.buffers[i]);
        push_piece(&mut l, piece_str(hint_text(focused, m.editing), Tone::Muted));
        assert(line_view(l) =~= first + cursor_pieces_spec(m.buffers@[i as int]) + seq![(field_hint(focused, m.editing), Tone::Muted)]);
    } else {
        let content = if i < m.buffers.len() {
            m.buffers[i].content.clone()
        } else {
            String::from_str("0.0")
        };
        push_piece(&mut l, piece(content, Tone::Highlight));
        push_piece(&mut l, piece_str(hint_text(focused, m.editing), Tone::Muted));
    }
    assert(line_view(l) =~= magmom_row(*m, *sp, i as int));
    l
}

fn preview_text(species: &Vec<SpeciesInfo>, values: &Vec<Option<String>>) -> (r: String)
    ensures
        r@ == magmom_preview(species@, values@),
{
    let n = if species.len() < values.len() { species.len() } else { values.len() };
    let mut parts: Vec<String> = Vec::new();
    let ghost want = Seq::new(
        n as nat,
        |i: int|
            decimal(species@[i].count as nat) + seq!['*'] + match values@[i] {
                Some(v) => v@,
                None => "???"@,
            },
    );
    for i in 0..n
        invariant
            n <= species@.len(),
            n <= values@.len(),
            want == Seq::new(
                n as nat,
                |i: int|
                    decimal(species@[i].count as nat) + seq!['*'] + match values@[i] {
                        Some(v) => v@,
                        None => "???"@,
                    },
            ),
            parts@.map_values(|p: String| p@) == want.take(i as int),
    {
        let mut p = String::new();
        push_decimal(&mut p, species[i].count as u64);
        push_char(&mut p, '*');
        match &values[i] {
            Some(v) => p.append(v.as_str()),
            None => p.append("???"),
        }
        assert(p@ =~= want[i as int]);
        let ghost before = parts@.map_values(|p: String| p@);
        let ghost pv = p@;
        parts.push(p);
        assert(parts@.map_values(|p: String| p@) =~= before.push(pv));
        assert(want.take(i + 1) =~= want.take(i as int).push(want[i as int]));
    }
    assert(want.take(n as int) =~= want);
    join_with_spaces(&parts)
}

impl MagmomScreen {
    /// The lines of the magnetic moment form; `values[i]` is the number field
    /// `i` reads as, `None` when it is not one (see [`magmom_view`]).
    pub fn render(&self, species: &Vec<SpeciesInfo>, values: &Vec<Option<String>>) -> (r: Vec<Vec<Piece>>)
        requires
            self.wf(),
        ensures
            lines_view(r@) == magmom_view(*self, species@, values@),
    {
        let m = self;
        let mut out: Vec<Vec<Piece>> = Vec::new();
        add_line(&mut out, blank_line());
        add_line(&mut out, action_required());
        add_line(&mut out, blank_line());
        add_line(&mut out, text_line("  Set MAGMOM values (per species):", Tone::Plain));
        add_line(&mut out, text_line("  Press Enter on a field to edit. Use ↑↓ to navigate.", Tone::Muted));
        add_line(&mut out, blank_line());
        add_line(&mut out, text_line("  Species    Count    MAGMOM (per atom)", Tone::Muted));
        add_line(&mut out, text_line("  ─────────────────────────────────────", Tone::Muted));
        let ghost head = lines_view(out@);
        let n = species.len();
        let ghost rows = Seq::new(n as nat, |i: int| magmom_row(*m, species@[i], i));
        for i in 0..n
            invariant
                n == species@.len(),
                m.wf(),
                rows == Seq::new(n as nat, |i: int| magmom_row(*m, species@[i], i)),
                lines_view(out@) == head + rows.take(i as int),
        {
            add_line(&mut out, magmom_row_line(m, &species[i], i));
            assert(lines_view(out@) =~= head + rows.take(i + 1));
        }
        assert(rows.take(n as int) =~= rows);
        add_confirm(&mut out, m.focus == m.buffers.len(), "Confirm");
        add_line(&mut out, blank_line());
        let ghost mid = lines_view(out@);
        let ghost pre: Seq<LineView> = if species@.len() > 0 {
            seq![seq![("  MAGMOM string: "@, Tone::Muted), (magmom_preview(species@, values@), Tone::Highlight)]]
        } else {
            seq![]
        };
        if n > 0 {
            let mut l: Vec<Piece> = Vec::new();
            push_piece(&mut l, piece_str("  MAGMOM string: ", Tone::Muted));
            push_piece(&mut l, piece(preview_text(species, values), Tone::Highlight));
            assert(line_view(l) =~= seq![("  MAGMOM string: "@, Tone::Muted), (magmom_preview(species@, values@), Tone::Highlight)]);
            add_line(&mut out, l);
        }
        assert(lines_view(out@) =~= mid + pre);
        add_error(&mut out, &m.error);
        assert(lines_view(out@) =~= magmom_view(*m, species@, values@));
        out
    }
}


/// The rule above and below a table: 76 `─`.
pub open spec fn table_rule() -> LineView {
    one("  "@ + repeated('─', 76), Tone::Muted)
}

fn rule_line() -> (r: Vec<Piece>)
    ensures
        line_view(r) == table_rule(),
{
    let mut t = String::from_str("  ");
    let d = repeat_char('─', 76);
    t.append(d.as_str());
    string_line(t, Tone::Muted)
}

/// `K1`, `K2`, `K3`.
pub open spec fn mesh_label(i: int) -> Seq<char> {
    seq!['K', if i == 0 { '1' } else if i == 1 { '2' } else { '3' }]
}

fn mesh_label_text(i: usize) -> (r: String)
    ensures
        r@ == mesh_label(i as int),
{
    let mut t = String::new();
    push_char(&mut t, 'K');
    push_char(&mut t, if i == 0 { '1' } else if i == 1 { '2' } else { '3' });
    assert(t@ =~= mesh_label(i as int));
    t
}

/// `"  > K1       = "`: the marker, the label padded to 8 and the sign.
pub open spec fn marked_label(label: Seq<char>) -> Seq<char> {
    "  > "@ + padded(label, 8) + " = "@
}

fn marked_label_text(label: &str) -> (r: String)
    ensures
        r@ == marked_label(label@),
{
    let mut t = String::from_str("  > ");
    let p = pad_right(label, 8);
    t.append(p.as_str());
    t.append(" = ");
    t
}

/// The line under a table for the focused field or parameter: while it is
/// edited, its label and the buffer with the cursor; otherwise its label and
/// value with a hint.
pub open spec fn detail_view(label: Seq<char>, value: Seq<char>, editing: bool, input: TextBuffer) -> LineView {
    if editing {
        seq![(marked_label(label), Tone::Highlight)] + cursor_pieces_spec(input) + seq![("  press Esc to finish"@, Tone::Muted)]
    } else {
        seq![(marked_label(label) + value, Tone::Highlight), ("  press Enter to edit"@, Tone::Muted)]
    }
}

fn detail_line(label: &str, value: &str, editing: bool, input: &TextBuffer) -> (r: Vec<Piece>)
    requires
        input.wf(),
    ensures
        line_view(r) == detail_view(label@, value@, editing, *input),
{
    let mut l: Vec<Piece> = Vec::new();
    let head = marked_label_text(label);
    if editing {
        push_piece(&mut l, piece(head, Tone::Highlight));
        add_cursor_pieces(&mut l, input);
        push_piece(&mut l, piece_str("  press Esc to finish", Tone::Muted));
    } else {
        let mut t = head;
        t.append(value);
        push_piece(&mut l, piece(t, Tone::Highlight));
        push_piece(&mut l, piece_str("  press Enter to edit", Tone::Muted));
    }
    assert(line_view(l) =~= detail_view(label@, value@, editing, *input));
    l
}

/// A field of the k-point table, marked when focused.
pub open spec fn mesh_row(k: EditKpointsScreen, i: int) -> LineView {
    let text = padded(mesh_label(i), 8) + " = "@ + k.buffers@[i].content@;
    if i == k.focus {
        one("  > "@ + text, Tone::Highlight)
    } else {
        one("    "@ + text, Tone::Muted)
    }
}

/// The k-point screen.
pub open spec fn kpoints_view(k: EditKpointsScreen) -> Seq<LineView> {
    let b = k.buffers@;
    seq![
        seq![],
        one("  KPOINTS:"@, Tone::Header),
        one("  Navigate fields. Enter: edit, Esc: back."@, Tone::Muted),
        seq![],
        table_rule(),
        mesh_row(k, 0),
        mesh_row(k, 1),
        mesh_row(k, 2),
        table_rule(),
        if k.focus < 3 {
            detail_view(mesh_label(k.focus as int), b[k.focus as int].content@, k.editing, b[k.focus as int])
        } else {
            seq![]
        },
        seq![],
        seq![
            ("  Mesh: "@, Tone::Muted),
            (b[0].content@ + " x "@ + b[1].content@ + " x "@ + b[2].content@ + "  (Gamma)"@, Tone::Highlight),
        ],
    ] + confirm_view(k.focus == 3 && !k.editing, "Confirm and proceed"@) + error_view(k.error)
}

fn mesh_row_line(k: &EditKpointsScreen, i: usize) -> (r: Vec<Piece>)
    requires
        k.wf(),
        i < 3,
    ensures
        line_view(r) == mesh_row(*k, i as int),
{
    let label = mesh_label_text(i);
    let mut t = String::from_str(if i == k.focus { "  > " } else { "    " });
    let p = pad_right(label.as_str(), 8);
    t.append(p.as_str());
    t.append(" = ");
    t.append(k.buffers[i].content.as_str());
    let ghost text = padded(mesh_label(i as int), 8) + " = "@ + k.buffers@[i as int].content@;
    assert(t@ =~= (if i == k.focus { "  > "@ } else { "    "@ }) + text);
    string_line(t, if i == k.focus { Tone::Highlight } else { Tone::Muted })
}

impl EditKpointsScreen {
    /// The lines of the k-point form (see [`kpoints_view`]).
    pub fn render(&self) -> (r: Vec<Vec<Piece>>)
        requires
            self.wf(),
        ensures
            lines_view(r@) == kpoints_view(*self),
    {
        let k = self;
        let mut out: Vec<Vec<Piece>> = Vec::new();
        add_line(&mut out, blank_line());
        add_line(&mut out, text_line("  KPOINTS:", Tone::Header));
        add_line(&mut out, text_line("  Navigate fields. Enter: edit, Esc: back.", Tone::Muted));
        add_line(&mut out, blank_line());
        add_line(&mut out, rule_line());
        add_line(&mut out, mesh_row_line(k, 0));
        add_line(&mut out, mesh_row_line(k, 1));
        add_line(&mut out, mesh_row_line(k, 2));
        add_line(&mut out, rule_line());
        if k.focus < 3 {
            let label = mesh_label_text(k.focus);
            add_line(&mut out, detail_line(label.as_str(), k.buffers[k.focus].content.as_str(), k.editing, &k.buffers[k.focus]));
        } else {
            add_line(&mut out, blank_line());
        }
        add_line(&mut out, blank_line());
        let mut mesh = k.buffers[0].content.clone();
        mesh.append(" x ");
        mesh.append(k.buffers[1].content.as_str());
        mesh.append(" x ");
        mesh.append(k.buffers[2].content.as_str());
        mesh.append("  (Gamma)");
        let ghost b = k.buffers@;
        assert(mesh@ =~= b[0].content@ + " x "@ + b[1].content@ + " x "@ + b[2].content@ + "  (Gamma)"@);
        let mut l: Vec<Piece> = Vec::new();
        push_piece(&mut l, piece_str("  Mesh: ", Tone::Muted));
        push_piece(&mut l, piece(mesh, Tone::Highlight));
        assert(line_view(l) =~= seq![
            ("  Mesh: "@, Tone::Muted),
            (b[0].content@ + " x "@ + b[1].content@ + " x "@ + b[2].content@ + "  (Gamma)"@, Tone::Highlight),
        ]);
        add_line(&mut out, l);
        add_confirm(&mut out, k.focus == 3 && !k.editing, "Confirm and proceed");
        add_error(&mut out, &k.error);
        assert(lines_view(out@) =~= kpoints_view(*k));
        out
    }
}


/// A field of the submission form: its label (marked when focused) padded
/// to 20 columns, then its text (with the cursor while it is edited) and a
/// hint.
pub open spec fn setup_row(m: SubmitSetupScreen, i: int) -> LineView {
    let focused = i == m.focus;
    let name = "  "@ + (if focused {
        "> "@
    } else {
        "  "@
    }) + padded(m.labels@[i]@ + seq![':'], 20);
    let tone = if focused {
        Tone::Highlight
    } else {
        Tone::Muted
    };
    let hint = (field_hint(focused, m.editing), Tone::Muted);
    if focused && m.editing {
        seq![(name, tone)] + cursor_pieces_spec(m.buffers@[i]) + seq![hint]
    } else {
        seq![(name, tone), (m.buffers@[i].content@, Tone::Highlight), hint]
    }
}

/// The job names shown under the form: one per selected file when there are
/// several (`{name}_{NN}  <- {file}`), else the name alone.
pub open spec fn setup_preview(name: Seq<char>, s: AppState) -> Seq<LineView> {
    let sel = s.selected_files@;
    if sel.len() > 1 {
        seq![one("  Preview:"@, Tone::Muted)] + Seq::new(
            sel.len(),
            |i: int|
                one(
                    "    "@ + name + seq!['_'] + decimal2((i + 1) as nat) + "  <- "@ + selected_file_label(s, i),
                    Tone::Muted,
                ),
        )
    } else {
        seq![seq![("  Job name: "@, Tone::Muted), (name, Tone::Highlight)]]
    }
}

/// The name of the `i`-th selected file, `?` when the index names no file.
pub open spec fn selected_file_label(s: AppState, i: int) -> Seq<char> {
    let sel = s.selected_files@;
    if (sel[i] as int) < s.files@.len() {
        s.files@[sel[i] as int]@
    } else {
        "?"@
    }
}

/// The job names the submission form previews are the ones confirming it
/// records: when confirming advances, the stored names are those made from
/// the sanitized name field for the selected files, and the preview shows
/// exactly those names, each beside its file, or the one name.
pub proof fn lemma_preview_names_stored(
    m: SubmitSetupScreen,
    n: SubmitSetupScreen,
    so: AppState,
    sn: AppState,
    r: ScreenAction,
)
    requires
        m.wf(),
        confirm_post(m, n, so, sn, r),
        r == ScreenAction::Advance,
    ensures
        ({
            let base = sanitize_spec(m.field(m.idx_calc_name));
            let k = so.selected_files@.len();
            let names = job_names_spec(base, k);
            let preview = setup_preview(base, so);
            &&& sn.job_names@.len() == names.len()
            &&& forall|i: int| 0 <= i < names.len() ==> (#[trigger] sn.job_names@[i])@ == names[i]
            &&& k > 1 ==> preview.len() == k + 1 && forall|i: int|
                0 <= i < k ==> #[trigger] preview[i + 1] == one(
                    "    "@ + names[i] + "  <- "@ + selected_file_label(so, i),
                    Tone::Muted,
                )
            &&& k <= 1 ==> preview == seq![seq![("  Job name: "@, Tone::Muted), (names[0], Tone::Highlight)]]
        }),
{
    let base = sanitize_spec(m.field(m.idx_calc_name));
    let k = so.selected_files@.len();
    let names = job_names_spec(base, k);
    let preview = setup_preview(base, so);
    assert(m.failure() is None);
    if k > 1 {
        assert forall|i: int| 0 <= i < k implies #[trigger] preview[i + 1] == one(
            "    "@ + names[i] + "  <- "@ + selected_file_label(so, i),
            Tone::Muted,
        ) by {
            assert(names[i] == base + seq!['_'] + decimal2((i + 1) as nat));
            assert("    "@ + names[i] + "  <- "@ + selected_file_label(so, i) =~= "    "@ + base + seq!['_']
                + decimal2((i + 1) as nat) + "  <- "@ + selected_file_label(so, i));
        }
    } else {
        assert(names[0] == base);
    }
}

/// The submission form: for a quick submission the directory and its
/// structure files first; the fields; the VASP executable chosen for a
/// calculation; the Confirm slot; the job names it will give.
pub open spec fn setup_view(m: SubmitSetupScreen, s: AppState, width: nat) -> Seq<LineView> {
    seq![seq![]] + setup_quick_part(m, s, width) + seq![
        action_line(),
        seq![],
        one("  Submission setup:"@, Tone::Header),
        one("  Press Enter on a field to edit. Use ↑↓ to navigate."@, Tone::Muted),
        seq![],
    ] + Seq::new(m.labels@.len(), |i: int| setup_row(m, i)) + setup_tail(m, s)
}

/// The directory and its files, for a quick submission.
pub open spec fn setup_quick_part(m: SubmitSetupScreen, s: AppState, width: nat) -> Seq<LineView> {
    if m.is_quick {
        seq![seq![("  Directory: "@, Tone::Muted), (m.work_dir_display@, Tone::Highlight)]]
            + file_lines_spec(name_views(s.files@), width) + seq![seq![]]
    } else {
        seq![]
    }
}

/// What follows the fields of the submission form.
pub open spec fn setup_tail(m: SubmitSetupScreen, s: AppState) -> Seq<LineView> {
    (if !m.is_quick {
        seq![seq![("    VASP binary:          "@, Tone::Muted), (s.vasp_binary_spec() + "  (auto-selected)"@, Tone::Muted)]]
    } else {
        seq![]
    }) + confirm_view(
        m.focus == m.buffers@.len(),
        if m.is_quick {
            "Confirm and submit to cluster"@
        } else {
            "Confirm"@
        },
    ) + seq![seq![]] + setup_preview(sanitize_spec(m.field(m.idx_calc_name)), s)
        + error_view(m.error)
}

fn setup_row_line(m: &SubmitSetupScreen, i: usize) -> (r: Vec<Piece>)
    requires
        m.wf(),
        i < m.labels@.len(),
    ensures
        line_view(r) == setup_row(*m, i as int),
{
    let focused = i == m.focus;
    let mut name = String::from_str("  ");
    name.append(if focused { "> " } else { "  " });
    let mut lab = String::from_str(m.labels[i]);
    push_char(&mut lab, ':');
    let p = pad_right(lab.as_str(), 20);
    name.append(p.as_str());
    let ghost nv = name@;
    assert(nv =~= "  "@ + (if focused { "> "@ } else { "  "@ }) + padded(m.labels@[i as int]@ + seq![':'], 20));
    let tone = if focused { Tone::Highlight } else { Tone::Muted };
    let mut l: Vec<Piece> = Vec::new();
    push_piece(&mut l, piece(name, tone));
    let ghost first = seq![(nv, tone)];
    assert(line_view(l) =~= first);
    if focused && m.editing {
        add_cursor_pieces(&mut l, &m.buffers[i]);
        push_piece(&mut l, piece_str(hint_text(focused, m.editing), Tone::Muted));
        assert(line_view(l) =~= first + cursor_pieces_spec(m.buffers@[i as int]) + seq![(field_hint(focused, m.editing), Tone::Muted)]);
    } else {
        push_piece(&mut l, piece(m.buffers[i].content.clone(), Tone::Highlight));
        push_piece(&mut l, piece_str(hint_text(focused, m.editing), Tone::Muted));
    }
    assert(line_view(l) =~= setup_row(*m, i as int));
    l
}

fn preview_lines(out: &mut Vec<Vec<Piece>>, name: &String, s: &AppState)
    requires
        s.selected_files@.len() < u64::MAX,
    ensures
        lines_view(final(out)@) == lines_view(old(out)@) + setup_preview(name@, *s),
{
    let ghost o = lines_view(out@);
    let sel = &s.selected_files;
    let n = sel.len();
    if n > 1 {
        add_line(out, text_line("  Preview:", Tone::Muted));
        let ghost head = lines_view(out@);
        let ghost rows = Seq::new(
            n as nat,
            |i: int|
                one(
                    "    "@ + name@ + seq!['_'] + decimal2((i + 1) as nat) + "  <- "@ + (if (sel@[i] as int)
                        < s.files@.len() {
                        s.files@[sel@[i] as int]@
                    } else {
                        "?"@
                    }),
                    Tone::Muted,
                ),
        );
        for i in 0..n
            invariant
                n == sel@.len(),
                n < u64::MAX,
                rows == Seq::new(
                    n as nat,
                    |i: int|
                        one(
                            "    "@ + name@ + seq!['_'] + decimal2((i + 1) as nat) + "  <- "@ + (if (sel@[i] as int)
                                < s.files@.len() {
                                s.files@[sel@[i] as int]@
                            } else {
                                "?"@
                            }),
                            Tone::Muted,
                        ),
                ),
                lines_view(out@) == head + rows.take(i as int),
        {
            let mut t = String::from_str("    ");
            t.append(name.as_str());
            push_char(&mut t, '_');
            push_decimal2(&mut t, (i as u64) + 1);
            t.append("  <- ");
            let idx = sel[i];
            let ghost fname = if (idx as int) < s.files@.len() {
                s.files@[idx as int]@
            } else {
                "?"@
            };
            if idx < s.files.len() {
                t.append(s.files[idx].as_str());
            } else {
                t.append("?");
            }
            assert(t@ =~= "    "@ + name@ + seq!['_'] + decimal2((i + 1) as nat) + "  <- "@ + fname);
            assert(one(t@, Tone::Muted) =~= rows[i as int]);
            add_line(out, string_line(t, Tone::Muted));
            assert(lines_view(out@) =~= head + rows.take(i + 1));
        }
        assert(rows.take(n as int) =~= rows);
    } else {
        let mut l: Vec<Piece> = Vec::new();
        push_piece(&mut l, piece_str("  Job name: ", Tone::Muted));
        push_piece(&mut l, piece(name.clone(), Tone::Highlight));
        assert(line_view(l) =~= seq![("  Job name: "@, Tone::Muted), (name@, Tone::Highlight)]);
        add_line(out, l);
    }
    assert(lines_view(out@) =~= o + setup_preview(name@, *s));
}

fn add_setup_quick_part(out: &mut Vec<Vec<Piece>>, m: &SubmitSetupScreen, s: &AppState, width: usize)
    requires
        width <= usize::MAX / 4,
        names_fit(s.files@),
    ensures
        lines_view(final(out)@) == lines_view(old(out)@) + setup_quick_part(*m, *s, width as nat),
{
    let ghost a = lines_view(out@);
    if m.is_quick {
        let mut l: Vec<Piece> = Vec::new();
        push_piece(&mut l, piece_str("  Directory: ", Tone::Muted));
        push_piece(&mut l, piece(m.work_dir_display.clone(), Tone::Highlight));
        assert(line_view(l) =~= seq![("  Directory: "@, Tone::Muted), (m.work_dir_display@, Tone::Highlight)]);
        add_line(out, l);
        let ghost b = lines_view(out@);
        let mut files_part = file_lines(s.files.as_slice(), width);
        let ghost fp = lines_view(files_part@);
        out.append(&mut files_part);
        assert(lines_view(out@) =~= b + fp);
        add_line(out, blank_line());
    }
    assert(lines_view(out@) =~= a + setup_quick_part(*m, *s, width as nat));
}

fn add_setup_tail(out: &mut Vec<Vec<Piece>>, m: &SubmitSetupScreen, s: &AppState)
    requires
        m.wf(),
        s.selected_files@.len() < u64::MAX,
    ensures
        lines_view(final(out)@) == lines_view(old(out)@) + setup_tail(*m, *s),
{
    let ghost c = lines_view(out@);
    if !m.is_quick {
        let mut t = String::from_str(s.vasp_binary());
        t.append("  (auto-selected)");
        let mut l: Vec<Piece> = Vec::new();
        push_piece(&mut l, piece_str("    VASP binary:          ", Tone::Muted));
        push_piece(&mut l, piece(t, Tone::Muted));
        assert(line_view(l) =~= seq![("    VASP binary:          "@, Tone::Muted), (s.vasp_binary_spec() + "  (auto-selected)"@, Tone::Muted)]);
        add_line(out, l);
    }
    let ghost bin_part: Seq<LineView> = if !m.is_quick {
        seq![seq![("    VASP binary:          "@, Tone::Muted), (s.vasp_binary_spec() + "  (auto-selected)"@, Tone::Muted)]]
    } else {
        seq![]
    };
    assert(lines_view(out@) =~= c + bin_part);
    add_confirm(
        out,
        m.focus == m.buffers.len(),
        if m.is_quick { "Confirm and submit to cluster" } else { "Confirm" },
    );
    add_line(out, blank_line());
    let name = sanitize_job_name(m.buffers[m.idx_calc_name].content.as_str());
    preview_lines(out, &name, s);
    add_error(out, &m.error);
    assert(lines_view(out@) =~= c + setup_tail(*m, *s));
}

impl SubmitSetupScreen {
    /// The lines of the submission form, file names laid out in `width`
    /// columns (see [`setup_view`]).
    pub fn render(&self, s: &AppState, width: usize) -> (r: Vec<Vec<Piece>>)
        requires
            self.wf(),
            width <= usize::MAX / 4,
            names_fit(s.files@),
            s.selected_files@.len() < u64::MAX,
        ensures
            lines_view(r@) == setup_view(*self, *s, width as nat),
    {
        let m = self;
        let mut out: Vec<Vec<Piece>> = Vec::new();
        add_line(&mut out, blank_line());
        add_setup_quick_part(&mut out, m, s, width);
        add_line(&mut out, action_required());
        add_line(&mut out, blank_line());
        add_line(&mut out, text_line("  Submission setup:", Tone::Header));
        add_line(&mut out, text_line("  Press Enter on a field to edit. Use ↑↓ to navigate.", Tone::Muted));
        add_line(&mut out, blank_line());
        let ghost head = lines_view(out@);
        let n = m.labels.len();
        let ghost rows = Seq::new(n as nat, |i: int| setup_row(*m, i));
        for i in 0..n
            invariant
                n == m.labels@.len(),
                m.wf(),
                rows == Seq::new(n as nat, |i: int| setup_row(*m, i)),
                lines_view(out@) == head + rows.take(i as int),
        {
            add_line(&mut out, setup_row_line(m, i));
            assert(lines_view(out@) =~= head + rows.take(i + 1));
        }
        assert(rows.take(n as int) =~= rows);
        add_setup_tail(&mut out, m, s);
        assert(lines_view(out@) =~= setup_view(*m, *s, width as nat));
        out
    }
}


/// A file of the file list: marker, check box and name.
pub open spec fn file_cell(m: FilePickScreen, i: int, name: Seq<char>) -> (Seq<char>, Tone) {
    let cursor = i == m.focus && !m.on_confirm_spec();
    let checked = i < m.checkboxes.checked@.len() && m.checkboxes.checked@[i];
    (
        (if cursor {
            "  > "@
        } else {
            "    "@
        }) + (if checked {
            "[x]"@
        } else {
            "[ ]"@
        }) + seq![' '] + name,
        if cursor {
            Tone::Highlight
        } else {
            Tone::Muted
        },
    )
}

/// The cells of grid row `row` in the columns before `c` that hold a file,
/// each padded to the column width.
pub open spec fn file_grid_cells(m: FilePickScreen, files: Seq<String>, row: int, c: int) -> LineView
    decreases c,
{
    if c <= 0 {
        seq![]
    } else {
        let l = m.cached_layout->0;
        let rest = file_grid_cells(m, files, row, c - 1);
        let idx = (c - 1) * l.rows + row;
        if idx < m.file_count {
            let cell = file_cell(m, idx, files[idx]@);
            rest.push((padded(cell.0, l.col_width as nat), cell.1))
        } else {
            rest
        }
    }
}

/// The file list: a row per file, or the grid rows; the count of checked
/// files; the Confirm slot.
pub open spec fn file_pick_view(m: FilePickScreen, files: Seq<String>) -> Seq<LineView> {
    choice_intro("  Select files to calculate:"@, "  Press Enter to select, ↑↓ to navigate."@) + (if m.use_grid {
        Seq::new(
            m.cached_layout->0.rows as nat,
            |row: int| file_grid_cells(m, files, row, m.cached_layout->0.cols as int),
        )
    } else {
        Seq::new(files.len(), |i: int| seq![file_cell(m, i, files[i]@)])
    }) + seq![
        seq![],
        one("  "@ + decimal(checked_indices(m.checkboxes.checked@).len()) + " file(s) selected"@, Tone::Muted),
    ] + confirm_view(m.on_confirm_spec(), "Confirm and proceed"@) + error_view(m.error)
}

fn file_cell_piece(m: &FilePickScreen, i: usize, name: &str) -> (r: (String, Tone))
    ensures
        (r.0@, r.1) == file_cell(*m, i as int, name@),
{
    let cursor = i == m.focus && !m.on_confirm();
    let checked = i < m.checkboxes.checked.len() && m.checkboxes.checked[i];
    let mut t = String::from_str(if cursor { "  > " } else { "    " });
    t.append(if checked { "[x]" } else { "[ ]" });
    push_char(&mut t, ' ');
    t.append(name);
    (t, if cursor { Tone::Highlight } else { Tone::Muted })
}

fn file_grid_row(m: &FilePickScreen, files: &[String], row: usize) -> (r: Vec<Piece>)
    requires
        m.wf(),
        m.use_grid,
        m.file_count == files@.len(),
        row < m.cached_layout->0.rows,
    ensures
        line_view(r) == file_grid_cells(*m, files@, row as int, m.cached_layout->0.cols as int),
{
    let l = *m.layout();
    let mut out: Vec<Piece> = Vec::new();
    for c in 0..l.cols
        invariant
            l == m.cached_layout->0,
            m.wf(),
            m.use_grid,
            m.file_count == files@.len(),
            row < l.rows,
            line_view(out) == file_grid_cells(*m, files@, row as int, c as int),
    {
        proof {
            assert(c * l.rows + row <= l.cols * l.rows) by (nonlinear_arith)
                requires
                    c < l.cols,
                    row < l.rows,
            ;
            assert(l.cols * l.rows <= m.file_count + l.cols - 1);
        }
        match l.index(row, c, m.file_count) {
            Some(idx) => {
                let (text, tone) = file_cell_piece(m, idx, files[idx].as_str());
                let cell = pad_right(text.as_str(), l.col_width);
                push_piece(&mut out, piece(cell, tone));
            },
            None => {},
        }
    }
    out
}

impl FilePickScreen {
    /// The lines of the file selection (see [`file_pick_view`]).
    pub fn render(&self, files: &[String]) -> (r: Vec<Vec<Piece>>)
        requires
            self.wf(),
            self.file_count == files@.len(),
        ensures
            lines_view(r@) == file_pick_view(*self, files@),
    {
        let m = self;
        let mut out = choice_intro_lines("  Select files to calculate:", "  Press Enter to select, ↑↓ to navigate.");
        let ghost head = lines_view(out@);
        if m.use_grid {
            let l = *m.layout();
            let ghost rows = Seq::new(
                l.rows as nat,
                |row: int| file_grid_cells(*m, files@, row, l.cols as int),
            );
            for row in 0..l.rows
                invariant
                    l == m.cached_layout->0,
                    m.wf(),
                    m.use_grid,
                    m.file_count == files@.len(),
                    rows == Seq::new(l.rows as nat, |row: int| file_grid_cells(*m, files@, row, l.cols as int)),
                    lines_view(out@) == head + rows.take(row as int),
            {
                add_line(&mut out, file_grid_row(m, files, row));
                assert(lines_view(out@) =~= head + rows.take(row + 1));
            }
            assert(rows.take(l.rows as int) =~= rows);
        } else {
            let n = files.len();
            let ghost rows = Seq::new(n as nat, |i: int| seq![file_cell(*m, i, files@[i]@)]);
            for i in 0..n
                invariant
                    n == files@.len(),
                    rows == Seq::new(n as nat, |i: int| seq![file_cell(*m, i, files@[i]@)]),
                    lines_view(out@) == head + rows.take(i as int),
            {
                let (text, tone) = file_cell_piece(m, i, files[i].as_str());
                let ghost cell = (text@, tone);
                let mut line: Vec<Piece> = Vec::new();
                push_piece(&mut line, piece(text, tone));
                assert(line_view(line) =~= seq![cell]);
                add_line(&mut out, line);
                assert(lines_view(out@) =~= head + rows.take(i + 1));
            }
            assert(rows.take(n as int) =~= rows);
        }
        let ghost body = lines_view(out@);
        add_line(&mut out, blank_line());
        let count = m.checkboxes.selected_indices().len();
        let mut t = String::from_str("  ");
        push_decimal(&mut t, count as u64);
        t.append(" file(s) selected");
        assert(t@ =~= "  "@ + decimal(checked_indices(m.checkboxes.checked@).len()) + " file(s) selected"@);
        add_line(&mut out, string_line(t, Tone::Muted));
        add_confirm(&mut out, m.on_confirm(), "Confirm and proceed");
        add_error(&mut out, &m.error);
        assert(lines_view(out@) =~= file_pick_view(*m, files@));
        out
    }
}


/// Whether parameter `i` is shown as focused (while navigating or editing
/// its value).
pub open spec fn param_active(e: EditIncarScreen, i: int) -> bool {
    i == e.focus && (e.mode == Mode::Navigate || e.mode == Mode::EditValue)
}

/// A parameter as `NAME     = value`, marked when focused.
pub open spec fn param_cell(e: EditIncarScreen, i: int) -> (Seq<char>, Tone) {
    let text = padded(e.params@[i].0@, 8) + " = "@ + e.params@[i].1@;
    if param_active(e, i) {
        ("  > "@ + text, Tone::Highlight)
    } else {
        ("    "@ + text, Tone::Muted)
    }
}

/// The cells of grid row `row` in the columns before `c` that hold a
/// parameter, each padded to the column width.
pub open spec fn param_grid_cells(e: EditIncarScreen, row: int, c: int) -> LineView
    decreases c,
{
    if c <= 0 {
        seq![]
    } else {
        let l = e.cached_layout->0;
        let rest = param_grid_cells(e, row, c - 1);
        let idx = (c - 1) * l.rows + row;
        if idx < e.params@.len() {
            let cell = param_cell(e, idx);
            rest.push((padded(cell.0, l.col_width as nat), cell.1))
        } else {
            rest
        }
    }
}

/// The row where a new parameter is typed: its name, then its value.
pub open spec fn add_row_view(e: EditIncarScreen) -> Seq<LineView> {
    match e.mode {
        Mode::AddKey => seq![
            seq![("  > "@, Tone::Highlight)] + cursor_pieces_spec(e.input) + seq![
                ("        = "@, Tone::Muted),
                ("  type key, Enter to set value"@, Tone::Muted),
            ],
        ],
        Mode::AddValue => seq![
            seq![(marked_label(e.add_key@), Tone::Highlight)] + cursor_pieces_spec(e.input) + seq![
                ("  type value, Enter to save"@, Tone::Muted),
            ],
        ],
        _ => seq![],
    }
}

/// The line for the focused parameter under the table.
pub open spec fn param_detail(e: EditIncarScreen) -> LineView {
    if !e.on_confirm_spec() && e.params@.len() > 0 {
        let p = e.params@[e.focus as int];
        match e.mode {
            Mode::EditValue => detail_view(p.0@, p.1@, true, e.input),
            Mode::Navigate => detail_view(p.0@, p.1@, false, e.input),
            _ => seq![],
        }
    } else {
        seq![]
    }
}

/// Name of the calculation type, or `Unknown`.
pub open spec fn calc_name(s: AppState) -> Seq<char> {
    match s.calc_type {
        Some(ct) => ct.display_name_spec(),
        None => "Unknown"@,
    }
}

/// The INCAR screen: the calculation and spin, the parameters as a list or
/// a grid, the row of a parameter being added, the focused parameter, how
/// many there are, and the Confirm slot.
pub open spec fn incar_view(e: EditIncarScreen, s: AppState) -> Seq<LineView> {
    seq![
        seq![],
        one(incar_title(s), Tone::Header),
        one("  Navigate parameters. Enter: edit, d: delete, +: add new."@, Tone::Muted),
        seq![],
        table_rule(),
    ] + param_rows(e) + add_row_view(e) + incar_tail(e)
}

/// `"  INCAR parameters ({calculation}, {spin}):"`
pub open spec fn incar_title(s: AppState) -> Seq<char> {
    let spin = match s.spin_mode {
        Some(SpinMode::Restricted) => "Spin Restricted"@,
        Some(SpinMode::Unrestricted) => "Spin Unrestricted"@,
        None => ""@,
    };
    "  INCAR parameters ("@ + calc_name(s) + ", "@ + spin + "):"@
}

/// The parameter rows, as a list or as grid rows.
pub open spec fn param_rows(e: EditIncarScreen) -> Seq<LineView> {
    if e.use_grid {
        Seq::new(e.cached_layout->0.rows as nat, |row: int| param_grid_cells(e, row, e.cached_layout->0.cols as int))
    } else {
        Seq::new(e.params@.len(), |i: int| seq![param_cell(e, i)])
    }
}

/// What follows the table on the INCAR screen.
pub open spec fn incar_tail(e: EditIncarScreen) -> Seq<LineView> {
    seq![
        table_rule(),
        param_detail(e),
        seq![],
        one("  "@ + decimal(e.params@.len()) + " parameter(s)"@, Tone::Muted),
    ] + confirm_view(e.on_confirm_spec() && e.mode == Mode::Navigate, "Confirm and proceed"@) + error_view(
        e.error,
    )
}

fn incar_title_line(s: &AppState) -> (r: Vec<Piece>)
    ensures
        line_view(r) == one(incar_title(*s), Tone::Header),
{
    let mut title = String::from_str("  INCAR parameters (");
    match &s.calc_type {
        Some(ct) => title.append(ct.display_name()),
        None => title.append("Unknown"),
    }
    title.append(", ");
    match &s.spin_mode {
        Some(SpinMode::Restricted) => title.append("Spin Restricted"),
        Some(SpinMode::Unrestricted) => title.append("Spin Unrestricted"),
        None => title.append(""),
    }
    title.append("):");
    assert(title@ =~= incar_title(*s));
    string_line(title, Tone::Header)
}

fn add_incar_tail(out: &mut Vec<Vec<Piece>>, e: &EditIncarScreen)
    requires
        e.wf(),
    ensures
        lines_view(final(out)@) == lines_view(old(out)@) + incar_tail(*e),
{
    let ghost o = lines_view(out@);
    add_line(out, rule_line());
    add_line(out, param_detail_line(e));
    add_line(out, blank_line());
    let mut t = String::from_str("  ");
    push_decimal(&mut t, e.params.len() as u64);
    t.append(" parameter(s)");
    assert(t@ =~= "  "@ + decimal(e.params@.len()) + " parameter(s)"@);
    add_line(out, string_line(t, Tone::Muted));
    add_confirm(out, e.on_confirm() && e.mode == Mode::Navigate, "Confirm and proceed");
    add_error(out, &e.error);
    assert(lines_view(out@) =~= o + incar_tail(*e));
}

fn param_cell_piece(e: &EditIncarScreen, i: usize) -> (r: (String, Tone))
    requires
        i < e.params@.len(),
    ensures
        (r.0@, r.1) == param_cell(*e, i as int),
{
    let active = i == e.focus && (e.mode == Mode::Navigate || e.mode == Mode::EditValue);
    let mut t = String::from_str(if active { "  > " } else { "    " });
    let k = pad_right(e.params[i].0.as_str(), 8);
    t.append(k.as_str());
    t.append(" = ");
    t.append(e.params[i].1.as_str());
    let ghost text = padded(e.params@[i as int].0@, 8) + " = "@ + e.params@[i as int].1@;
    assert(t@ =~= (if active { "  > "@ } else { "    "@ }) + text);
    (t, if active { Tone::Highlight } else { Tone::Muted })
}

fn param_grid_row(e: &EditIncarScreen, row: usize) -> (r: Vec<Piece>)
    requires
        e.wf(),
        e.use_grid,
        row < e.cached_layout->0.rows,
    ensures
        line_view(r) == param_grid_cells(*e, row as int, e.cached_layout->0.cols as int),
{
    let l = *e.layout();
    let count = e.params.len();
    let mut out: Vec<Piece> = Vec::new();
    for c in 0..l.cols
        invariant
            l == e.cached_layout->0,
            e.wf(),
            e.use_grid,
            count == e.params@.len(),
            row < l.rows,
            line_view(out) == param_grid_cells(*e, row as int, c as int),
    {
        proof {
            assert(c * l.rows + row <= l.cols * l.rows) by (nonlinear_arith)
                requires
                    c < l.cols,
                    row < l.rows,
            ;
            assert(l.cols * l.rows <= count + l.cols - 1);
        }
        match l.index(row, c, count) {
            Some(idx) => {
                let (text, tone) = param_cell_piece(e, idx);
                let cell = pad_right(text.as_str(), l.col_width);
                push_piece(&mut out, piece(cell, tone));
            },
            None => {},
        }
    }
    out
}

fn add_row_lines(out: &mut Vec<Vec<Piece>>, e: &EditIncarScreen)
    requires
        e.wf(),
    ensures
        lines_view(final(out)@) == lines_view(old(out)@) + add_row_view(*e),
{
    let ghost o = lines_view(out@);
    match e.mode {
        Mode::AddKey => {
            let mut l: Vec<Piece> = Vec::new();
            push_piece(&mut l, piece_str("  > ", Tone::Highlight));
            add_cursor_pieces(&mut l, &e.input);
            push_piece(&mut l, piece_str("        = ", Tone::Muted));
            push_piece(&mut l, piece_str("  type key, Enter to set value", Tone::Muted));
            assert(line_view(l) =~= seq![("  > "@, Tone::Highlight)] + cursor_pieces_spec(e.input) + seq![
                ("        = "@, Tone::Muted),
                ("  type key, Enter to set value"@, Tone::Muted),
            ]);
            add_line(out, l);
        },
        Mode::AddValue => {
            let mut l: Vec<Piece> = Vec::new();
            push_piece(&mut l, piece(marked_label_text(e.add_key.as_str()), Tone::Highlight));
            add_cursor_pieces(&mut l, &e.input);
            push_piece(&mut l, piece_str("  type value, Enter to save", Tone::Muted));
            assert(line_view(l) =~= seq![(marked_label(e.add_key@), Tone::Highlight)] + cursor_pieces_spec(e.input) + seq![
                ("  type value, Enter to save"@, Tone::Muted),
            ]);
            add_line(out, l);
        },
        _ => {},
    }
    assert(lines_view(out@) =~= o + add_row_view(*e));
}

fn param_detail_line(e: &EditIncarScreen) -> (r: Vec<Piece>)
    requires
        e.wf(),
    ensures
        line_view(r) == param_detail(*e),
{
    if !e.on_confirm() && e.params.len() > 0 {
        let i = e.focus;
        match e.mode {
            Mode::EditValue => detail_line(e.params[i].0.as_str(), e.params[i].1.as_str(), true, &e.input),
            Mode::Navigate => detail_line(e.params[i].0.as_str(), e.params[i].1.as_str(), false, &e.input),
            _ => blank_line(),
        }
    } else {
        blank_line()
    }
}

fn add_param_rows(out: &mut Vec<Vec<Piece>>, e: &EditIncarScreen)
    requires
        e.wf(),
    ensures
        lines_view(final(out)@) == lines_view(old(out)@) + param_rows(*e),
{
    let ghost head = lines_view(out@);
    if e.use_grid {
        let l = *e.layout();
        let ghost rows = Seq::new(l.rows as nat, |row: int| param_grid_cells(*e, row, l.cols as int));
        for row in 0..l.rows
            invariant
                l == e.cached_layout->0,
                e.wf(),
                e.use_grid,
                rows == Seq::new(l.rows as nat, |row: int| param_grid_cells(*e, row, l.cols as int)),
                lines_view(out@) == head + rows.take(row as int),
        {
            add_line(out, param_grid_row(e, row));
            assert(lines_view(out@) =~= head + rows.take(row + 1));
        }
        assert(rows.take(l.rows as int) =~= rows);
    } else {
        let n = e.params.len();
        let ghost rows = Seq::new(n as nat, |i: int| seq![param_cell(*e, i)]);
        for i in 0..n
            invariant
                n == e.params@.len(),
                rows == Seq::new(n as nat, |i: int| seq![param_cell(*e, i)]),
                lines_view(out@) == head + rows.take(i as int),
        {
            let (text, tone) = param_cell_piece(e, i);
            let ghost cell = (text@, tone);
            let mut line: Vec<Piece> = Vec::new();
            push_piece(&mut line, piece(text, tone));
            assert(line_view(line) =~= seq![cell]);
            add_line(out, line);
            assert(lines_view(out@) =~= head + rows.take(i + 1));
        }
        assert(rows.take(n as int) =~= rows);
    }
}

impl EditIncarScreen {
    /// The lines of the INCAR table (see [`incar_view`]).
    pub fn render(&self, s: &AppState) -> (r: Vec<Vec<Piece>>)
        requires
            self.wf(),
        ensures
            lines_view(r@) == incar_view(*self, *s),
    {
        let e = self;
        let mut out: Vec<Vec<Piece>> = Vec::new();
        add_line(&mut out, blank_line());
        add_line(&mut out, incar_title_line(s));
        add_line(&mut out, text_line("  Navigate parameters. Enter: edit, d: delete, +: add new.", Tone::Muted));
        add_line(&mut out, blank_line());
        add_line(&mut out, rule_line());
        add_param_rows(&mut out, e);
        add_row_lines(&mut out, e);
        add_incar_tail(&mut out, e);
        assert(lines_view(out@) =~= incar_view(*e, *s));
        out
    }
}


/// A row of the summary: the label padded to 10 columns, then the value.
pub open spec fn summary_row(label: Seq<char>, value: Seq<char>) -> LineView {
    seq![("    "@ + padded(label, 10) + seq![' '], Tone::Muted), (value, Tone::Highlight)]
}

fn summary_row_line(label: &str, value: &str) -> (r: Vec<Piece>)
    ensures
        line_view(r) == summary_row(label@, value@),
{
    let mut t = String::from_str("    ");
    proof {
        reveal_strlit("    ");
    }
    let p = pad_right(label, 10);
    t.append(p.as_str());
    push_char(&mut t, ' ');
    assert(t@ =~= "    "@ + padded(label@, 10) + seq![' ']);
    let mut l: Vec<Piece> = Vec::new();
    push_piece(&mut l, piece(t, Tone::Muted));
    push_piece(&mut l, piece_str(value, Tone::Highlight));
    assert(line_view(l) =~= summary_row(label@, value@));
    l
}

/// Names of the selected files (indices naming no file left out).
pub open spec fn selected_names(files: Seq<String>, sel: Seq<usize>) -> Seq<Seq<char>>
    decreases sel.len(),
{
    if sel.len() == 0 {
        seq![]
    } else {
        let rest = selected_names(files, sel.drop_last());
        if (sel.last() as int) < files.len() {
            rest.push(files[sel.last() as int]@)
        } else {
            rest
        }
    }
}

/// Parts separated by `, `.
pub open spec fn comma_joined(parts: Seq<Seq<char>>) -> Seq<char>
    decreases parts.len(),
{
    if parts.len() == 0 {
        seq![]
    } else if parts.len() == 1 {
        parts[0]
    } else {
        comma_joined(parts.drop_last()) + ", "@ + parts.last()
    }
}

/// The calculation part of the summary (for a new calculation only).
pub open spec fn calc_summary(s: AppState) -> Seq<LineView> {
    if s.flow_path == Some(FlowPath::PerformCalculation) {
        let spin = match s.spin_mode {
            Some(SpinMode::Restricted) => "Restricted"@,
            Some(SpinMode::Unrestricted) => "Unrestricted"@,
            None => "Unknown"@,
        };
        let k = s.kpoints@;
        seq![
            one("  ── Calculation ──────────────────────────────────────"@, Tone::Muted),
            summary_row("Type"@, calc_name(s)),
            summary_row("Spin"@, spin),
            summary_row("Files"@, comma_joined(selected_names(s.files@, s.selected_files@))),
            summary_row(
                "KPOINTS"@,
                decimal(k[0] as nat) + " x "@ + decimal(k[1] as nat) + " x "@ + decimal(k[2] as nat) + "  (Gamma)"@,
            ),
        ] + (match s.magmom_spec() {
            Some(m) => seq![summary_row("MAGMOM"@, m)],
            None => seq![],
        }) + seq![one("  ─────────────────────────────────────────────────────"@, Tone::Muted)]
    } else {
        seq![]
    }
}

/// The submission part of the summary.
/// The first job name, or nothing when there is none.
pub open spec fn first_name(names: Seq<String>) -> Seq<char> {
    if names.len() == 0 {
        seq![]
    } else {
        names[0]@
    }
}

pub open spec fn submission_summary(s: AppState) -> Seq<LineView> {
    let names = s.job_names@;
    seq![
        one("  ── Submission ───────────────────────────────────────"@, Tone::Muted),
        summary_row("Directory"@, s.output_dir@),
        if names.len() == 1 {
            summary_row("Job name"@, names[0]@)
        } else {
            summary_row("Jobs"@, decimal(names.len()) + " jobs ("@ + first_name(names) + "...)"@)
        },
        summary_row("Queue"@, s.queue@),
        summary_row("Cores"@, decimal(s.cores as nat)),
        summary_row("Binary"@, s.vasp_binary_spec()),
        one("  ─────────────────────────────────────────────────────"@, Tone::Muted),
    ]
}

/// The summary screen.
pub open spec fn confirm_screen_view(s: AppState) -> Seq<LineView> {
    seq![seq![]] + calc_summary(s) + submission_summary(s) + seq![
        seq![],
        action_line(),
        seq![],
        one("  Submit to cluster?"@, Tone::Plain),
    ]
}

fn files_text(s: &AppState) -> (r: String)
    ensures
        r@ == comma_joined(selected_names(s.files@, s.selected_files@)),
{
    let sel = &s.selected_files;
    let n = sel.len();
    let mut out = String::new();
    let mut count: usize = 0;
    for i in 0..n
        invariant
            n == sel@.len(),
            out@ == comma_joined(selected_names(s.files@, sel@.take(i as int))),
            count == selected_names(s.files@, sel@.take(i as int)).len(),
            count <= i,
    {
        let ghost before = selected_names(s.files@, sel@.take(i as int));
        proof {
            assert(sel@.take(i + 1).drop_last() =~= sel@.take(i as int));
        }
        let idx = sel[i];
        if idx < s.files.len() {
            if count > 0 {
                out.append(", ");
            }
            out.append(s.files[idx].as_str());
            count = count + 1;
            proof {
                let after = before.push(s.files@[idx as int]@);
                assert(after.drop_last() =~= before);
                if before.len() == 0 {
                    assert(out@ =~= comma_joined(after));
                }
            }
        }
    }
    assert(sel@.take(n as int) =~= sel@);
    out
}

fn add_calc_summary(out: &mut Vec<Vec<Piece>>, s: &AppState)
    ensures
        lines_view(final(out)@) == lines_view(old(out)@) + calc_summary(*s),
{
    let ghost o = lines_view(out@);
    match s.flow_path {
        Some(FlowPath::PerformCalculation) => {
            add_line(out, text_line("  ── Calculation ──────────────────────────────────────", Tone::Muted));
            let calc = match &s.calc_type {
                Some(ct) => ct.display_name(),
                None => "Unknown",
            };
            add_line(out, summary_row_line("Type", calc));
            let spin = match &s.spin_mode {
                Some(SpinMode::Restricted) => "Restricted",
                Some(SpinMode::Unrestricted) => "Unrestricted",
                None => "Unknown",
            };
            add_line(out, summary_row_line("Spin", spin));
            let files = files_text(s);
            add_line(out, summary_row_line("Files", files.as_str()));
            let mut k = String::new();
            push_decimal(&mut k, s.kpoints[0] as u64);
            k.append(" x ");
            push_decimal(&mut k, s.kpoints[1] as u64);
            k.append(" x ");
            push_decimal(&mut k, s.kpoints[2] as u64);
            k.append("  (Gamma)");
            let ghost kp = s.kpoints@;
            assert(k@ =~= decimal(kp[0] as nat) + " x "@ + decimal(kp[1] as nat) + " x "@ + decimal(kp[2] as nat) + "  (Gamma)"@);
            add_line(out, summary_row_line("KPOINTS", k.as_str()));
            let ghost mid = lines_view(out@);
            match s.magmom_string() {
                Some(m) => {
                    add_line(out, summary_row_line("MAGMOM", m.as_str()));
                },
                None => {},
            }
            let ghost mag: Seq<LineView> = match s.magmom_spec() {
                Some(m) => seq![summary_row("MAGMOM"@, m)],
                None => seq![],
            };
            assert(lines_view(out@) =~= mid + mag);
            add_line(out, text_line("  ─────────────────────────────────────────────────────", Tone::Muted));
        },
        _ => {},
    }
    assert(lines_view(out@) =~= o + calc_summary(*s));
}

fn add_submission_summary(out: &mut Vec<Vec<Piece>>, s: &AppState)
    ensures
        lines_view(final(out)@) == lines_view(old(out)@) + submission_summary(*s),
{
    let ghost o = lines_view(out@);
    add_line(out, text_line("  ── Submission ───────────────────────────────────────", Tone::Muted));
    add_line(out, summary_row_line("Directory", s.output_dir.as_str()));
    let n = s.job_names.len();
    if n == 1 {
        add_line(out, summary_row_line("Job name", s.job_names[0].as_str()));
    } else {
        let mut t = String::new();
        push_decimal(&mut t, n as u64);
        t.append(" jobs (");
        if n > 0 {
            t.append(s.job_names[0].as_str());
        }
        t.append("...)");
        assert(t@ =~= decimal(n as nat) + " jobs ("@ + first_name(s.job_names@) + "...)"@);
        add_line(out, summary_row_line("Jobs", t.as_str()));
    }
    add_line(out, summary_row_line("Queue", s.queue.as_str()));
    let mut c = String::new();
    push_decimal(&mut c, s.cores as u64);
    assert(c@ =~= decimal(s.cores as nat));
    add_line(out, summary_row_line("Cores", c.as_str()));
    add_line(out, summary_row_line("Binary", s.vasp_binary()));
    add_line(out, text_line("  ─────────────────────────────────────────────────────", Tone::Muted));
    assert(lines_view(out@) =~= o + submission_summary(*s));
}

impl ConfirmScreen {
    /// The summary screen's lines (see [`confirm_screen_view`]).
    pub fn render(&self, s: &AppState) -> (r: Vec<Vec<Piece>>)
        ensures
            lines_view(r@) == confirm_screen_view(*s),
    {
        let mut out: Vec<Vec<Piece>> = Vec::new();
        add_line(&mut out, blank_line());
        add_calc_summary(&mut out, s);
        add_submission_summary(&mut out, s);
        add_line(&mut out, blank_line());
        add_line(&mut out, action_required());
        add_line(&mut out, blank_line());
        add_line(&mut out, text_line("  Submit to cluster?", Tone::Plain));
        assert(lines_view(out@) =~= confirm_screen_view(*s));
        out
    }
}


/// Key hints: choosing from a list.
pub open spec fn keys_list() -> Seq<(Seq<char>, Seq<char>)> {
    seq![("↑↓"@, "Navigate"@), ("Enter"@, "Select"@), ("Esc"@, "Back"@), ("q"@, "Quit"@)]
}

fn keys_list_vec() -> (r: Vec<(&'static str, &'static str)>)
    ensures
        key_views(r@) == keys_list(),
{
    let mut v: Vec<(&'static str, &'static str)> = Vec::new();
    v.push(("↑↓", "Navigate"));
    v.push(("Enter", "Select"));
    v.push(("Esc", "Back"));
    v.push(("q", "Quit"));
    assert(key_views(v@) =~= keys_list());
    v
}

/// Key hints: checking files in a column.
pub open spec fn keys_checkbox() -> Seq<(Seq<char>, Seq<char>)> {
    seq![("↑↓"@, "Navigate"@), ("Enter"@, "Select / Confirm"@), ("a"@, "All"@), ("Esc"@, "Back"@), ("q"@, "Quit"@)]
}

fn keys_checkbox_vec() -> (r: Vec<(&'static str, &'static str)>)
    ensures
        key_views(r@) == keys_checkbox(),
{
    let mut v: Vec<(&'static str, &'static str)> = Vec::new();
    v.push(("↑↓", "Navigate"));
    v.push(("Enter", "Select / Confirm"));
    v.push(("a", "All"));
    v.push(("Esc", "Back"));
    v.push(("q", "Quit"));
    assert(key_views(v@) =~= keys_checkbox());
    v
}

/// Key hints: checking files in a grid.
pub open spec fn keys_checkbox_grid() -> Seq<(Seq<char>, Seq<char>)> {
    seq![("↑↓←→"@, "Navigate"@), ("Enter"@, "Select / Confirm"@), ("a"@, "All"@), ("Esc"@, "Back"@), ("q"@, "Quit"@)]
}

fn keys_checkbox_grid_vec() -> (r: Vec<(&'static str, &'static str)>)
    ensures
        key_views(r@) == keys_checkbox_grid(),
{
    let mut v: Vec<(&'static str, &'static str)> = Vec::new();
    v.push(("↑↓←→", "Navigate"));
    v.push(("Enter", "Select / Confirm"));
    v.push(("a", "All"));
    v.push(("Esc", "Back"));
    v.push(("q", "Quit"));
    assert(key_views(v@) =~= keys_checkbox_grid());
    v
}

/// Key hints: the INCAR table in a column.
pub open spec fn keys_incar() -> Seq<(Seq<char>, Seq<char>)> {
    seq![("↑↓"@, "Navigate"@), ("Enter"@, "Edit / Confirm"@), ("d"@, "Delete"@), ("+"@, "Add"@), ("Esc"@, "Back"@), ("q"@, "Quit"@)]
}

fn keys_incar_vec() -> (r: Vec<(&'static str, &'static str)>)
    ensures
        key_views(r@) == keys_incar(),
{
    let mut v: Vec<(&'static str, &'static str)> = Vec::new();
    v.push(("↑↓", "Navigate"));
    v.push(("Enter", "Edit / Confirm"));
    v.push(("d", "Delete"));
    v.push(("+", "Add"));
    v.push(("Esc", "Back"));
    v.push(("q", "Quit"));
    assert(key_views(v@) =~= keys_incar());
    v
}

/// Key hints: the INCAR table in a grid.
pub open spec fn keys_incar_grid() -> Seq<(Seq<char>, Seq<char>)> {
    seq![("↑↓←→"@, "Navigate"@), ("Enter"@, "Edit / Confirm"@), ("d"@, "Delete"@), ("+"@, "Add"@), ("Esc"@, "Back"@), ("q"@, "Quit"@)]
}

fn keys_incar_grid_vec() -> (r: Vec<(&'static str, &'static str)>)
    ensures
        key_views(r@) == keys_incar_grid(),
{
    let mut v: Vec<(&'static str, &'static str)> = Vec::new();
    v.push(("↑↓←→", "Navigate"));
    v.push(("Enter", "Edit / Confirm"));
    v.push(("d", "Delete"));
    v.push(("+", "Add"));
    v.push(("Esc", "Back"));
    v.push(("q", "Quit"));
    assert(key_views(v@) =~= keys_incar_grid());
    v
}

/// Key hints: the summary.
pub open spec fn keys_confirm() -> Seq<(Seq<char>, Seq<char>)> {
    seq![("Y"@, "Yes"@), ("N"@, "No"@), ("Esc"@, "Back"@), ("q"@, "Quit"@)]
}

fn keys_confirm_vec() -> (r: Vec<(&'static str, &'static str)>)
    ensures
        key_views(r@) == keys_confirm(),
{
    let mut v: Vec<(&'static str, &'static str)> = Vec::new();
    v.push(("Y", "Yes"));
    v.push(("N", "No"));
    v.push(("Esc", "Back"));
    v.push(("q", "Quit"));
    assert(key_views(v@) =~= keys_confirm());
    v
}

/// Key hints: a form.
pub open spec fn keys_form() -> Seq<(Seq<char>, Seq<char>)> {
    seq![("↑↓"@, "Navigate"@), ("Enter"@, "Edit / Confirm"@), ("Esc"@, "Back"@), ("q"@, "Quit"@)]
}

fn keys_form_vec() -> (r: Vec<(&'static str, &'static str)>)
    ensures
        key_views(r@) == keys_form(),
{
    let mut v: Vec<(&'static str, &'static str)> = Vec::new();
    v.push(("↑↓", "Navigate"));
    v.push(("Enter", "Edit / Confirm"));
    v.push(("Esc", "Back"));
    v.push(("q", "Quit"));
    assert(key_views(v@) =~= keys_form());
    v
}

/// Key hints: the quick submission form.
pub open spec fn keys_form_submit() -> Seq<(Seq<char>, Seq<char>)> {
    seq![("↑↓"@, "Navigate"@), ("Enter"@, "Edit / Submit"@), ("Esc"@, "Back"@), ("q"@, "Quit"@)]
}

fn keys_form_submit_vec() -> (r: Vec<(&'static str, &'static str)>)
    ensures
        key_views(r@) == keys_form_submit(),
{
    let mut v: Vec<(&'static str, &'static str)> = Vec::new();
    v.push(("↑↓", "Navigate"));
    v.push(("Enter", "Edit / Submit"));
    v.push(("Esc", "Back"));
    v.push(("q", "Quit"));
    assert(key_views(v@) =~= keys_form_submit());
    v
}

/// Key hints: typing in a field.
pub open spec fn keys_form_editing() -> Seq<(Seq<char>, Seq<char>)> {
    seq![("Bksp"@, "Delete"@), ("Esc"@, "Done editing"@)]
}

fn keys_form_editing_vec() -> (r: Vec<(&'static str, &'static str)>)
    ensures
        key_views(r@) == keys_form_editing(),
{
    let mut v: Vec<(&'static str, &'static str)> = Vec::new();
    v.push(("Bksp", "Delete"));
    v.push(("Esc", "Done editing"));
    assert(key_views(v@) =~= keys_form_editing());
    v
}

/// Key hints: the result screen.
pub open spec fn keys_exit() -> Seq<(Seq<char>, Seq<char>)> {
    seq![("Enter"@, "Exit"@)]
}

fn keys_exit_vec() -> (r: Vec<(&'static str, &'static str)>)
    ensures
        key_views(r@) == keys_exit(),
{
    let mut v: Vec<(&'static str, &'static str)> = Vec::new();
    v.push(("Enter", "Exit"));
    assert(key_views(v@) =~= keys_exit());
    v
}

/// Key hints: the first screen.
pub open spec fn keys_welcome() -> Seq<(Seq<char>, Seq<char>)> {
    seq![("Y"@, "Yes"@), ("N"@, "No / Exit"@)]
}

fn keys_welcome_vec() -> (r: Vec<(&'static str, &'static str)>)
    ensures
        key_views(r@) == keys_welcome(),
{
    let mut v: Vec<(&'static str, &'static str)> = Vec::new();
    v.push(("Y", "Yes"));
    v.push(("N", "No / Exit"));
    assert(key_views(v@) =~= keys_welcome());
    v
}

/// The key hints of the screen shown, by its mode.
pub open spec fn screen_keys(a: App) -> Seq<(Seq<char>, Seq<char>)> {
    match a.current_screen {
        ActiveScreen::Welcome => keys_welcome(),
        ActiveScreen::ChoosePath | ActiveScreen::CalcType | ActiveScreen::TstMethod
        | ActiveScreen::SpinMode => keys_list(),
        ActiveScreen::Magmom => if a.magmom matches Some(m) && m.editing {
            keys_form_editing()
        } else {
            keys_form()
        },
        ActiveScreen::FilePick => if a.file_pick matches Some(f) && f.use_grid {
            keys_checkbox_grid()
        } else {
            keys_checkbox()
        },
        ActiveScreen::EditIncar => if a.edit_incar.mode == Mode::Navigate {
            if a.edit_incar.use_grid {
                keys_incar_grid()
            } else {
                keys_incar()
            }
        } else {
            keys_form_editing()
        },
        ActiveScreen::EditKpoints => if a.edit_kpoints.editing {
            keys_form_editing()
        } else {
            keys_form()
        },
        ActiveScreen::SubmitSetup => match a.submit_setup {
            Some(m) => if m.editing {
                keys_form_editing()
            } else if m.is_quick {
                keys_form_submit()
            } else {
                keys_form()
            },
            None => keys_form(),
        },
        ActiveScreen::Confirm => keys_confirm(),
        ActiveScreen::Result => keys_exit(),
    }
}

/// The key hints of the screen shown (see [`screen_keys`]).
pub fn keys_for(a: &App) -> (r: Vec<(&'static str, &'static str)>)
    ensures
        key_views(r@) == screen_keys(*a),
{
    match a.current_screen {
        ActiveScreen::Welcome => keys_welcome_vec(),
        ActiveScreen::ChoosePath | ActiveScreen::CalcType | ActiveScreen::TstMethod
        | ActiveScreen::SpinMode => keys_list_vec(),
        ActiveScreen::Magmom => match &a.magmom {
            Some(m) => if m.editing {
                keys_form_editing_vec()
            } else {
                keys_form_vec()
            },
            None => keys_form_vec(),
        },
        ActiveScreen::FilePick => match &a.file_pick {
            Some(f) => if f.use_grid {
                keys_checkbox_grid_vec()
            } else {
                keys_checkbox_vec()
            },
            None => keys_checkbox_vec(),
        },
        ActiveScreen::EditIncar => match a.edit_incar.mode {
            Mode::Navigate => if a.edit_incar.use_grid {
                keys_incar_grid_vec()
            } else {
                keys_incar_vec()
            },
            _ => keys_form_editing_vec(),
        },
        ActiveScreen::EditKpoints => if a.edit_kpoints.editing {
            keys_form_editing_vec()
        } else {
            keys_form_vec()
        },
        ActiveScreen::SubmitSetup => match &a.submit_setup {
            Some(m) => if m.editing {
                keys_form_editing_vec()
            } else if m.is_quick {
                keys_form_submit_vec()
            } else {
                keys_form_vec()
            },
            None => keys_form_vec(),
        },
        ActiveScreen::Confirm => keys_confirm_vec(),
        ActiveScreen::Result => keys_exit_vec(),
    }
}

/// The step counter of the header: none on the first, summary and result
/// screens, else the session's step and total.
pub open spec fn header_numbers(a: App) -> (u32, u32) {
    match a.current_screen {
        ActiveScreen::Welcome | ActiveScreen::Confirm | ActiveScreen::Result => (0, 0),
        _ => (a.state.current_step, a.state.total_steps_spec()),
    }
}

/// The header lines of the screen shown: its step counter (see
/// [`header_numbers`]) and label.
pub fn screen_header(a: &App, width: usize, version: &str) -> (r: Vec<Vec<Piece>>)
    ensures
        lines_view(r@) == header_view(
            width as nat,
            header_numbers(*a).0,
            header_numbers(*a).1,
            a.current_screen.label_spec(),
            version@,
        ),
{
    let (step, total) = match a.current_screen {
        ActiveScreen::Welcome | ActiveScreen::Confirm | ActiveScreen::Result => (0, 0),
        _ => (a.state.current_step, a.state.total_steps()),
    };
    header_lines(width, step, total, a.current_screen.label(), version)
}

/// The footer lines of the screen shown (see [`screen_keys`]).
pub fn screen_footer(a: &App, width: usize) -> (r: Vec<Vec<Piece>>)
    ensures
        lines_view(r@) == footer_view(width as nat, screen_keys(*a)),
{
    let keys = keys_for(a);
    footer_lines(width, keys.as_slice())
}

} // verus!
