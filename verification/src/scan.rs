//! Which files of the working directory are structure files: `POSCAR` and
//! `CONTCAR` (with any suffix), and files ending in `.vasp`, `.cif`, `.xyz`,
//! `.xsd` or `.gen` in any letter case; hidden files and directories are
//! left out. The names come sorted.

use vstd::prelude::*;
use crate::order::{
    chars_lt, lemma_seq_lt_irreflexive, lemma_seq_lt_total, lemma_seq_lt_transitive, seq_lt,
};
use crate::text::{chars_of, lowercase_of, occurs_at, starts_with_str, str_eq, string_from_range, to_lowercase};

verus! {

/// The text after the last `.` (all of it when there is none).
pub open spec fn after_last_dot(s: Seq<char>) -> Seq<char>
    decreases s.len(),
{
    if s.len() == 0 {
        s
    } else if s.last() == '.' {
        seq![]
    } else {
        after_last_dot(s.drop_last()).push(s.last())
    }
}

/// Extensions of structure files, in lower case.
pub open spec fn is_structure_extension(e: Seq<char>) -> bool {
    ||| e == "vasp"@
    ||| e == "cif"@
    ||| e == "xyz"@
    ||| e == "xsd"@
    ||| e == "gen"@
}

/// Whether a directory entry is a structure file: not hidden, not a
/// directory, and either starting with `POSCAR` or `CONTCAR` or having a
/// structure extension after its last `.`.
pub open spec fn is_structure_file(name: Seq<char>, is_dir: bool) -> bool {
    &&& !(name.len() > 0 && name[0] == '.')
    &&& !is_dir
    &&& (occurs_at(name, "POSCAR"@, 0) || occurs_at(name, "CONTCAR"@, 0) || (name.contains('.')
        && is_structure_extension(lowercase_of(after_last_dot(name)))))
}

/// Names of the entries that are structure files, in directory order.
pub open spec fn structure_names(entries: Seq<(String, bool)>) -> Seq<Seq<char>>
    decreases entries.len(),
{
    if entries.len() == 0 {
        seq![]
    } else {
        let rest = structure_names(entries.drop_last());
        let e = entries.last();
        if is_structure_file(e.0@, e.1) {
            rest.push(e.0@)
        } else {
            rest
        }
    }
}

/// Names in non-decreasing order.
pub open spec fn sorted_names(s: Seq<Seq<char>>) -> bool {
    forall|i: int, j: int| 0 <= i < j < s.len() ==> !seq_lt(#[trigger] s[j], #[trigger] s[i])
}

pub open spec fn views(s: Seq<String>) -> Seq<Seq<char>> {
    s.map_values(|x: String| x@)
}

/// Start of the text after the last `.`.
fn last_dot_start(v: &Vec<char>) -> (r: usize)
    ensures
        r <= v@.len(),
        v@.skip(r as int) == after_last_dot(v@),
        (r > 0) == v@.contains('.'),
{
    let mut i = v.len();
    while i > 0 && v[i - 1] != '.'
        invariant
            i <= v@.len(),
            forall|k: int| i <= k < v@.len() ==> v@[k] != '.',
        decreases i,
    {
        i = i - 1;
    }
    proof {
        lemma_after_last_dot(v@, i as int);
        if i > 0 {
            assert(v@[i - 1] == '.');
        }
    }
    i
}

proof fn lemma_after_last_dot(s: Seq<char>, i: int)
    requires
        0 <= i <= s.len(),
        forall|k: int| i <= k < s.len() ==> s[k] != '.',
        i == 0 || s[i - 1] == '.',
    ensures
        s.skip(i) == after_last_dot(s),
    decreases s.len(),
{
    if s.len() == i {
        if s.len() > 0 {
            assert(s.last() == '.');
        }
        assert(s.skip(i) =~= Seq::<char>::empty());
    } else {
        lemma_after_last_dot(s.drop_last(), i);
        assert(s.skip(i) =~= s.drop_last().skip(i).push(s.last()));
    }
}

/// Whether a directory entry is a structure file (see [`is_structure_file`]).
pub fn structure_file(name: &str, is_dir: bool) -> (r: bool)
    ensures
        r == is_structure_file(name@, is_dir),
{
    let v = chars_of(name);
    if v.len() > 0 && v[0] == '.' {
        return false;
    }
    if is_dir {
        return false;
    }
    if starts_with_str(name, "POSCAR") || starts_with_str(name, "CONTCAR") {
        return true;
    }
    let start = last_dot_start(&v);
    if start == 0 {
        return false;
    }
    let ext = string_from_range(v.as_slice(), start, v.len());
    proof {
        assert(v@.subrange(start as int, v@.len() as int) =~= v@.skip(start as int));
    }
    let lower = to_lowercase(ext.as_str());
    let l = lower.as_str();
    str_eq(l, "vasp") || str_eq(l, "cif") || str_eq(l, "xyz") || str_eq(l, "xsd") || str_eq(l, "gen")
}

/// Whether `a` sorts strictly before `b`.
fn name_lt(a: &String, b: &String) -> (r: bool)
    ensures
        r == seq_lt(a@, b@),
{
    let va = chars_of(a.as_str());
    let vb = chars_of(b.as_str());
    chars_lt(va.as_slice(), vb.as_slice())
}

/// Inserts a name into a sorted list after the names that do not sort
/// after it.
fn insert_name(v: &mut Vec<String>, name: String)
    requires
        sorted_names(views(old(v)@)),
    ensures
        sorted_names(views(final(v)@)),
        views(final(v)@).to_multiset() == views(old(v)@).to_multiset().insert(name@),
{
    let ghost o = views(v@);
    let n = v.len();
    let mut p: usize = 0;
    while p < n && !name_lt(&name, &v[p])
        invariant
            n == v@.len(),
            p <= n,
            o == views(v@),
            forall|k: int| 0 <= k < p ==> !seq_lt(name@, #[trigger] o[k]),
        decreases n - p,
    {
        p = p + 1;
    }
    proof {
        if p < n {
            assert(seq_lt(name@, o[p as int]));
        }
    }
    let ghost nv = name@;
    v.insert(p, name);
    proof {
        let w = views(v@);
        assert(w =~= o.insert(p as int, nv));
        vstd::seq_lib::to_multiset_insert(o, p as int, nv);
        assert forall|i: int, j: int| 0 <= i < j < w.len() implies !seq_lt(#[trigger] w[j], #[trigger] w[i]) by {
            if j < p {
                assert(w[i] == o[i] && w[j] == o[j]);
            } else if j == p {
                assert(w[i] == o[i]);
                if seq_lt(nv, o[i]) {
                    assert(false);
                }
            } else if i < p {
                assert(w[i] == o[i] && w[j] == o[j - 1]);
                assert(seq_lt(nv, o[p as int]));
                if seq_lt(o[j - 1], o[i]) {
                    // o[i] <= nv < o[p] <= o[j-1]
                    lemma_seq_lt_total(nv, o[i]);
                    if j - 1 > p {
                        lemma_seq_lt_total(o[p as int], o[j - 1]);
                        if seq_lt(o[p as int], o[j - 1]) {
                            lemma_seq_lt_transitive(nv, o[p as int], o[j - 1]);
                        }
                    }
                    if o[i] == nv {
                        lemma_seq_lt_transitive(nv, o[j - 1], nv);
                        lemma_seq_lt_irreflexive(nv);
                    } else {
                        lemma_seq_lt_transitive(o[i], nv, o[j - 1]);
                        lemma_seq_lt_transitive(o[i], o[j - 1], o[i]);
                        lemma_seq_lt_irreflexive(o[i]);
                    }
                }
            } else if i == p {
                assert(w[j] == o[j - 1]);
                assert(seq_lt(nv, o[p as int]));
                if seq_lt(o[j - 1], nv) {
                    if j - 1 > p {
                        lemma_seq_lt_total(o[p as int], o[j - 1]);
                        if seq_lt(o[p as int], o[j - 1]) {
                            lemma_seq_lt_transitive(nv, o[p as int], o[j - 1]);
                        }
                    }
                    lemma_seq_lt_transitive(nv, o[j - 1], nv);
                    lemma_seq_lt_irreflexive(nv);
                }
            } else {
                assert(w[i] == o[i - 1] && w[j] == o[j - 1]);
            }
        }
    }
}

/// The structure files among the entries `(name, is a directory)` of the
/// working directory, sorted.
pub fn scan_structure_files(entries: &Vec<(String, bool)>) -> (r: Vec<String>)
    ensures
        sorted_names(views(r@)),
        views(r@).to_multiset() == structure_names(entries@).to_multiset(),
{
    let mut files: Vec<String> = Vec::new();
    let n = entries.len();
    assert(views(files@) =~= structure_names(entries@.take(0)));
    for i in 0..n
        invariant
            n == entries@.len(),
            sorted_names(views(files@)),
            views(files@).to_multiset() == structure_names(entries@.take(i as int)).to_multiset(),
    {
        proof {
            assert(entries@.take(i + 1).drop_last() =~= entries@.take(i as int));
        }
        if structure_file(entries[i].0.as_str(), entries[i].1) {
            let name = entries[i].0.clone();
            insert_name(&mut files, name);
            proof {
                vstd::seq_lib::to_multiset_build(structure_names(entries@.take(i as int)), entries@[i as int].0@);
            }
        }
    }
    proof {
        assert(entries@.take(n as int) =~= entries@);
    }
    files
}

} // verus!
