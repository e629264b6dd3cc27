//! File names laid out side by side as `ls` does: two columns of indent,
//! two between names, a new line when the next name would pass the width,
//! and names too long for a line cut short with `…`.

use vstd::prelude::*;
use crate::text::{chars_of, push_char, string_from_range};

verus! {

/// Columns before the first name of a line.
pub const INDENT: usize = 2;

/// Columns between two names.
pub const GAP: usize = 2;

/// A name as shown: cut to `usable - 1` characters and `…` when it is longer
/// than `usable` (and `usable` is more than one).
pub open spec fn display_name(f: Seq<char>, usable: int) -> Seq<char> {
    if f.len() > usable && usable > 1 {
        f.take(usable - 1).push('…')
    } else {
        f
    }
}

/// Columns left after the indent.
pub open spec fn usable_width(max_width: int) -> int {
    if max_width >= INDENT {
        max_width - INDENT
    } else {
        0
    }
}

/// The finished lines, the line being filled and its width after laying out
/// `files`: a name goes on the current line when it fits (with its gap) or
/// when the line is still empty, else it starts a new line.
pub open spec fn wrap_state(files: Seq<Seq<char>>, max_width: int) -> (Seq<Seq<Seq<char>>>, Seq<Seq<char>>, int)
    decreases files.len(),
{
    if files.len() == 0 {
        (seq![], seq![], INDENT as int)
    } else {
        let prev = wrap_state(files.drop_last(), max_width);
        let name = display_name(files.last(), usable_width(max_width));
        let len = name.len() as int;
        let w = prev.2;
        let needed = if w > INDENT {
            GAP + len
        } else {
            len
        };
        if w + needed > max_width && w > INDENT {
            (prev.0.push(prev.1), seq![name], INDENT + len)
        } else {
            (prev.0, prev.1.push(name), w + needed)
        }
    }
}

/// The lines of names for a list of files (none for no files).
pub open spec fn horizontal_lines(files: Seq<Seq<char>>, max_width: int) -> Seq<Seq<Seq<char>>> {
    if files.len() == 0 {
        seq![]
    } else {
        let s = wrap_state(files, max_width);
        s.0.push(s.1)
    }
}

/// Names laid out in lines.
pub struct HorizontalList {
    /// The names shown on each line, in order.
    pub lines: Vec<Vec<String>>,
}

pub open spec fn line_views(lines: Seq<Vec<String>>) -> Seq<Seq<Seq<char>>> {
    lines.map_values(|l: Vec<String>| l@.map_values(|s: String| s@))
}

pub open spec fn name_views(files: Seq<String>) -> Seq<Seq<char>> {
    files.map_values(|s: String| s@)
}

fn shown_name(file: &String, usable: usize) -> (r: (String, usize))
    ensures
        r.0@ == display_name(file@, usable as int),
        r.1 == r.0@.len(),
{
    let v = chars_of(file.as_str());
    let n = v.len();
    if n > usable && usable > 1 {
        let mut s = string_from_range(v.as_slice(), 0, usable - 1);
        push_char(&mut s, '…');
        assert(v@.subrange(0, usable - 1) =~= file@.take(usable - 1));
        (s, usable)
    } else {
        (file.clone(), n)
    }
}

/// Lays out file names in lines no wider than `max_width` (see
/// [`horizontal_lines`]).
pub fn format_horizontal(files: &[String], max_width: usize) -> (r: HorizontalList)
    requires
        max_width <= usize::MAX / 4,
        forall|i: int| 0 <= i < files@.len() ==> (#[trigger] files@[i])@.len() <= usize::MAX / 4,
    ensures
        line_views(r.lines@) == horizontal_lines(name_views(files@), max_width as int),
{
    let n = files.len();
    if n == 0 {
        let r = HorizontalList { lines: Vec::new() };
        assert(line_views(r.lines@) =~= horizontal_lines(name_views(files@), max_width as int));
        return r;
    }
    let usable = if max_width >= INDENT { max_width - INDENT } else { 0 };
    let mut lines: Vec<Vec<String>> = Vec::new();
    let mut current: Vec<String> = Vec::new();
    let mut width: usize = INDENT;
    let ghost names = name_views(files@);
    for i in 0..n
        invariant
            n == files@.len(),
            names == name_views(files@),
            usable as int == usable_width(max_width as int),
            max_width <= usize::MAX / 4,
            forall|k: int| 0 <= k < files@.len() ==> (#[trigger] files@[k])@.len() <= usize::MAX / 4,
            ({
                let s = wrap_state(names.take(i as int), max_width as int);
                &&& line_views(lines@) == s.0
                &&& current@.map_values(|x: String| x@) == s.1
                &&& width as int == s.2
            }),
            width <= usize::MAX / 2,
    {
        proof {
            assert(names.take(i + 1).drop_last() =~= names.take(i as int));
            assert(names.take(i + 1).last() == files@[i as int]@);
        }
        let (name, len) = shown_name(&files[i], usable);
        proof {
            if files@[i as int]@.len() > usable && usable > 1 {
                assert(len <= usable);
            }
        }
        let needed = if width > INDENT { GAP + len } else { len };
        if width + needed > max_width && width > INDENT {
            let mut fresh: Vec<String> = Vec::new();
            std::mem::swap(&mut fresh, &mut current);
            let ghost before = lines@;
            lines.push(fresh);
            proof {
                assert(line_views(lines@) =~= line_views(before).push(fresh@.map_values(|x: String| x@)));
            }
            let ghost nm = name@;
            current.push(name);
            proof {
                assert(current@.map_values(|x: String| x@) =~= seq![nm]);
            }
            width = INDENT + len;
        } else {
            let ghost before = current@;
            let ghost nm = name@;
            current.push(name);
            proof {
                assert(current@.map_values(|x: String| x@) =~= before.map_values(|x: String| x@).push(nm));
            }
            width = width + needed;
        }
    }
    let ghost before = lines@;
    lines.push(current);
    proof {
        assert(names.take(n as int) =~= names);
        assert(line_views(lines@) =~= horizontal_lines(names, max_width as int));
    }
    HorizontalList { lines }
}

/// Names two columns apart.
pub open spec fn joined_names(names: Seq<Seq<char>>) -> Seq<char>
    decreases names.len(),
{
    if names.len() == 0 {
        seq![]
    } else if names.len() == 1 {
        names[0]
    } else {
        joined_names(names.drop_last()) + "  "@ + names.last()
    }
}

/// Lines, each indented, separated by line breaks.
pub open spec fn lines_text(lines: Seq<Seq<Seq<char>>>) -> Seq<char>
    decreases lines.len(),
{
    if lines.len() == 0 {
        seq![]
    } else if lines.len() == 1 {
        "  "@ + joined_names(lines[0])
    } else {
        lines_text(lines.drop_last()) + seq!['\n'] + "  "@ + joined_names(lines.last())
    }
}

impl HorizontalList {
    /// The text shown: `(no files found)` when there are no lines, else each
    /// line indented with its names two columns apart.
    pub fn to_text(&self) -> (r: String)
        ensures
            r@ == if self.lines@.len() == 0 {
                "  (no files found)"@
            } else {
                lines_text(line_views(self.lines@))
            },
    {
        let n = self.lines.len();
        if n == 0 {
            return String::from_str("  (no files found)");
        }
        let ghost lv = line_views(self.lines@);
        let mut out = String::new();
        for i in 0..n
            invariant
                n == self.lines@.len(),
                lv == line_views(self.lines@),
                i > 0 ==> out@ == lines_text(lv.take(i as int)),
                i == 0 ==> out@.len() == 0,
        {
            proof {
                assert(lv.take(i + 1).drop_last() =~= lv.take(i as int));
            }
            let ghost start = out@;
            if i > 0 {
                push_char(&mut out, '\n');
            }
            out.append("  ");
            let ghost prefix = out@;
            let line = &self.lines[i];
            let m = line.len();
            let ghost names = line@.map_values(|x: String| x@);
            for j in 0..m
                invariant
                    m == line@.len(),
                    names == line@.map_values(|x: String| x@),
                    out@ == prefix + joined_names(names.take(j as int)),
            {
                proof {
                    assert(names.take(j + 1).drop_last() =~= names.take(j as int));
                    if j == 0 {
                        assert(names.take(0) =~= Seq::<Seq<char>>::empty());
                    }
                }
                let ghost mid = out@;
                if j > 0 {
                    out.append("  ");
                }
                out.append(line[j].as_str());
                proof {
                    if j == 0 {
                        assert(joined_names(names.take(1)) == names.take(1)[0]);
                        assert(out@ =~= prefix + joined_names(names.take(1)));
                    } else {
                        assert(out@ =~= prefix + joined_names(names.take(j + 1)));
                    }
                }
            }
            proof {
                assert(names.take(m as int) =~= names);
                assert(lv[i as int] == names);
                if i == 0 {
                    assert(lv.take(1)[0] == lv[0]);
                    assert(out@ =~= lines_text(lv.take(1)));
                } else {
                    assert(lv.take(i + 1).last() == lv[i as int]);
                    assert(out@ =~= lines_text(lv.take(i + 1)));
                }
            }
        }
        proof {
            assert(lv.take(n as int) =~= lv);
        }
        out
    }
}

} // verus!
