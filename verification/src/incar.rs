//! INCAR parameters: the values a parameter can take, how they are shown and
//! read back, and the table of parameters kept sorted by name.

use vstd::prelude::*;
use crate::number::{
    float_literal, is_float_literal, lemma_signed_decimal_reads_back, parse_i64, parse_i64_spec,
    push_signed_decimal, signed_decimal,
};
use crate::order::{
    find_key, insert_sorted, keys_of, lemma_lookup_absent, lemma_lookup_at, lemma_lookup_present, lookup,
    sorted_keys,
};
use crate::text::{ascii_upper_char, str_eq, string_from_chars, to_uppercase, uppercase_of};

verus! {

/// A parameter value as the calculation backend exchanges it.
#[derive(Debug, Clone, PartialEq)]
pub enum IncarValue {
    Bool(bool),
    Int(i64),
    /// A floating-point number, held as its decimal text.
    Real(String),
    Text(String),
    /// Any other backend value (lists, objects, null), held as its JSON text.
    Other(String),
}

/// The mathematical content of an [`IncarValue`].
pub enum IncarVal {
    Bool(bool),
    Int(i64),
    Real(Seq<char>),
    Text(Seq<char>),
    Other(Seq<char>),
}

impl View for IncarValue {
    type V = IncarVal;

    open spec fn view(&self) -> IncarVal {
        match self {
            IncarValue::Bool(b) => IncarVal::Bool(*b),
            IncarValue::Int(i) => IncarVal::Int(*i),
            IncarValue::Real(t) => IncarVal::Real(t@),
            IncarValue::Text(t) => IncarVal::Text(t@),
            IncarValue::Other(t) => IncarVal::Other(t@),
        }
    }
}

pub open spec fn true_text() -> Seq<char> {
    seq!['.', 'T', 'R', 'U', 'E', '.']
}

pub open spec fn false_text() -> Seq<char> {
    seq!['.', 'F', 'A', 'L', 'S', 'E', '.']
}

/// How a value is shown on the INCAR screen.
pub open spec fn format_spec(v: IncarVal) -> Seq<char> {
    match v {
        IncarVal::Bool(b) => if b {
            true_text()
        } else {
            false_text()
        },
        IncarVal::Int(i) => signed_decimal(i as int),
        IncarVal::Real(t) => t,
        IncarVal::Text(t) => t,
        IncarVal::Other(t) => t,
    }
}

/// Spellings read as true: `.TRUE.`, `TRUE`, `T`, in any letter case.
pub open spec fn is_true_word(u: Seq<char>) -> bool {
    u == true_text() || u == seq!['T', 'R', 'U', 'E'] || u == seq!['T']
}

/// Spellings read as false: `.FALSE.`, `FALSE`, `F`, in any letter case.
pub open spec fn is_false_word(u: Seq<char>) -> bool {
    u == false_text() || u == seq!['F', 'A', 'L', 'S', 'E'] || u == seq!['F']
}

/// How text typed for a parameter is read: a logical word, else an integer,
/// else a floating-point number, else the text itself.
pub open spec fn parse_spec(s: Seq<char>) -> IncarVal {
    let u = uppercase_of(s);
    if is_true_word(u) {
        IncarVal::Bool(true)
    } else if is_false_word(u) {
        IncarVal::Bool(false)
    } else if parse_i64_spec(s) is Some {
        IncarVal::Int(parse_i64_spec(s)->0)
    } else if is_float_literal(s) {
        IncarVal::Real(s)
    } else {
        IncarVal::Text(s)
    }
}

/// Logical words are read as logical values in any letter case: a text
/// whose upper-case form is `.TRUE.`, `TRUE` or `T` reads as true, one
/// whose upper-case form is `.FALSE.`, `FALSE` or `F` reads as false.
pub proof fn lemma_logical_words_read(s: Seq<char>)
    ensures
        uppercase_of(s) == seq!['.', 'T', 'R', 'U', 'E', '.'] || uppercase_of(s) == seq!['T', 'R', 'U', 'E']
            || uppercase_of(s) == seq!['T'] ==> parse_spec(s) == IncarVal::Bool(true),
        uppercase_of(s) == seq!['.', 'F', 'A', 'L', 'S', 'E', '.'] || uppercase_of(s) == seq![
            'F',
            'A',
            'L',
            'S',
            'E',
        ] || uppercase_of(s) == seq!['F'] ==> parse_spec(s) == IncarVal::Bool(false),
{
    let u = uppercase_of(s);
    if u == seq!['.', 'F', 'A', 'L', 'S', 'E', '.'] || u == seq!['F', 'A', 'L', 'S', 'E'] || u == seq!['F'] {
        assert(u != seq!['.', 'T', 'R', 'U', 'E', '.'] && u != seq!['T', 'R', 'U', 'E'] && u != seq!['T']) by {
            if u == seq!['.', 'F', 'A', 'L', 'S', 'E', '.'] {
                assert(u[1] == 'F');
            } else if u == seq!['F', 'A', 'L', 'S', 'E'] {
                assert(u[0] == 'F');
            } else {
                assert(u[0] == 'F');
            }
        }
    }
}

fn lit(s: &[char]) -> (r: String)
    ensures
        r@ == s@,
{
    string_from_chars(s)
}

/// The text shown for a parameter value.
pub fn format_incar_value(v: &IncarValue) -> (r: String)
    ensures
        r@ == format_spec(v@),
{
    match v {
        IncarValue::Bool(b) => {
            if *b {
                let r = lit(&['.', 'T', 'R', 'U', 'E', '.']);
                assert(r@ =~= true_text());
                r
            } else {
                let r = lit(&['.', 'F', 'A', 'L', 'S', 'E', '.']);
                assert(r@ =~= false_text());
                r
            }
        },
        IncarValue::Int(i) => {
            let mut r = String::new();
            push_signed_decimal(&mut r, *i);
            assert(r@ =~= signed_decimal(*i as int));
            r
        },
        IncarValue::Real(t) => t.clone(),
        IncarValue::Text(t) => t.clone(),
        IncarValue::Other(t) => t.clone(),
    }
}

fn eq_lit(u: &str, w: &[char]) -> (r: bool)
    ensures
        r == (u@ == w@),
{
    let s = string_from_chars(w);
    str_eq(u, s.as_str())
}

/// Reads the text of a parameter value back into a value.
pub fn parse_incar_value(s: &str) -> (r: IncarValue)
    ensures
        r@ == parse_spec(s@),
{
    let upper = to_uppercase(s);
    let u = upper.as_str();
    let t1: [char; 6] = ['.', 'T', 'R', 'U', 'E', '.'];
    let t2: [char; 4] = ['T', 'R', 'U', 'E'];
    let t3: [char; 1] = ['T'];
    let f1: [char; 7] = ['.', 'F', 'A', 'L', 'S', 'E', '.'];
    let f2: [char; 5] = ['F', 'A', 'L', 'S', 'E'];
    let f3: [char; 1] = ['F'];
    assert(t1@ =~= true_text());
    assert(t2@ =~= seq!['T', 'R', 'U', 'E']);
    assert(t3@ =~= seq!['T']);
    assert(f1@ =~= false_text());
    assert(f2@ =~= seq!['F', 'A', 'L', 'S', 'E']);
    assert(f3@ =~= seq!['F']);
    if eq_lit(u, &t1) || eq_lit(u, &t2) || eq_lit(u, &t3) {
        return IncarValue::Bool(true);
    }
    if eq_lit(u, &f1) || eq_lit(u, &f2) || eq_lit(u, &f3) {
        return IncarValue::Bool(false);
    }
    match parse_i64(s) {
        Some(i) => IncarValue::Int(i),
        None => {
            if float_literal(s) {
                IncarValue::Real(String::from_str(s))
            } else {
                IncarValue::Text(String::from_str(s))
            }
        },
    }
}

impl IncarValue {
    /// A copy of the value.
    pub fn duplicate(&self) -> (r: IncarValue)
        ensures
            r@ == self@,
    {
        match self {
            IncarValue::Bool(b) => IncarValue::Bool(*b),
            IncarValue::Int(i) => IncarValue::Int(*i),
            IncarValue::Real(t) => IncarValue::Real(t.clone()),
            IncarValue::Text(t) => IncarValue::Text(t.clone()),
            IncarValue::Other(t) => IncarValue::Other(t.clone()),
        }
    }
}

/// The view of the value stored under `k` in a table of entries.
pub open spec fn lookup_view(s: Seq<(String, IncarValue)>, k: Seq<char>) -> Option<IncarVal> {
    match lookup(s, k) {
        Some(v) => Some(v@),
        None => None,
    }
}

/// INCAR parameters keyed by name, kept sorted by name with each name once.
#[derive(Debug)]
pub struct IncarParams {
    entries: Vec<(String, IncarValue)>,
}

impl IncarParams {
    #[verifier::type_invariant]
    spec fn sorted(self) -> bool {
        sorted_keys(keys_of(self.entries@))
    }

    /// The entries in name order.
    pub closed spec fn entries(self) -> Seq<(String, IncarValue)> {
        self.entries@
    }

    /// Parameter names in order.
    pub open spec fn names(self) -> Seq<Seq<char>> {
        keys_of(self.entries())
    }

    /// The value stored under a name.
    pub open spec fn get_spec(self, k: Seq<char>) -> Option<IncarVal> {
        lookup_view(self.entries(), k)
    }

    pub fn new() -> (r: Self)
        ensures
            r.entries().len() == 0,
            forall|k: Seq<char>| r.get_spec(k) is None,
    {
        let r = IncarParams { entries: Vec::new() };
        proof {
            assert forall|k: Seq<char>| r.get_spec(k) is None by {
                lemma_lookup_absent(r.entries(), k);
            }
        }
        r
    }

    pub fn len(&self) -> (r: usize)
        ensures
            r == self.entries().len(),
            sorted_keys(self.names()),
    {
        proof {
            use_type_invariant(self);
        }
        self.entries.len()
    }

    pub fn is_empty(&self) -> (r: bool)
        ensures
            r == (self.entries().len() == 0),
    {
        self.entries.len() == 0
    }

    /// Name of the `i`-th parameter in order.
    pub fn name_at(&self, i: usize) -> (r: &String)
        requires
            i < self.entries().len(),
        ensures
            *r == self.entries()[i as int].0,
    {
        &self.entries[i].0
    }

    /// Value of the `i`-th parameter in order.
    pub fn value_at(&self, i: usize) -> (r: &IncarValue)
        requires
            i < self.entries().len(),
        ensures
            *r == self.entries()[i as int].1,
    {
        &self.entries[i].1
    }

    /// Whether a parameter of that name is present.
    pub fn contains_key(&self, key: &str) -> (r: bool)
        ensures
            r == self.names().contains(key@),
            r == (self.get_spec(key@) is Some),
    {
        proof {
            use_type_invariant(self);
        }
        let (p, found) = find_key(&self.entries, key);
        proof {
            if !found {
                lemma_lookup_absent(self.entries@, key@);
            } else {
                assert(self.names()[p as int] == key@);
                lemma_lookup_at(self.entries@, p as int);
            }
        }
        found
    }

    /// Stores a value under a name, replacing any previous value.
    pub fn insert(&mut self, key: String, value: IncarValue)
        ensures
            final(self).get_spec(key@) == Some(value@),
            forall|k: Seq<char>| k != key@ ==> #[trigger] final(self).get_spec(k) == old(self).get_spec(k),
            old(self).names().contains(key@) ==> final(self).entries().len() == old(self).entries().len(),
            !old(self).names().contains(key@) ==> final(self).entries().len() == old(self).entries().len() + 1,
    {
        proof {
            use_type_invariant(&*self);
        }
        let ghost ov = value;
        let mut entries = Vec::new();
        std::mem::swap(&mut entries, &mut self.entries);
        let (p, found) = insert_sorted(&mut entries, key, value);
        self.entries = entries;
        proof {
            if found {
                assert(old(self).names()[p as int] == key@);
            }
        }
    }

    /// A copy of the table.
    pub fn duplicate(&self) -> (r: IncarParams)
        ensures
            r.entries().len() == self.entries().len(),
            r.names() == self.names(),
            forall|k: Seq<char>| #[trigger] r.get_spec(k) == self.get_spec(k),
    {
        proof {
            use_type_invariant(self);
        }
        let n = self.entries.len();
        let mut entries: Vec<(String, IncarValue)> = Vec::new();
        for i in 0..n
            invariant
                n == self.entries@.len(),
                entries@.len() == i,
                forall|j: int| 0 <= j < i ==> (#[trigger] entries@[j]).0@ == self.entries@[j].0@
                    && entries@[j].1@ == self.entries@[j].1@,
        {
            let e = (self.entries[i].0.clone(), self.entries[i].1.duplicate());
            entries.push(e);
        }
        proof {
            let a = entries@;
            let b = self.entries@;
            assert(keys_of(a) =~= keys_of(b));
            assert forall|k: Seq<char>| #[trigger] lookup_view(a, k) == lookup_view(b, k) by {
                if keys_of(b).contains(k) {
                    let i = choose|i: int| 0 <= i < keys_of(b).len() && keys_of(b)[i] == k;
                    assert(b[i].0@ == k);
                    assert(a[i].0@ == k);
                    lemma_lookup_present(a, k, i);
                    lemma_lookup_present(b, k, i);
                } else {
                    lemma_lookup_absent(a, k);
                    lemma_lookup_absent(b, k);
                }
            }
        }
        IncarParams { entries }
    }

    /// Removes every parameter.
    pub fn clear(&mut self)
        ensures
            final(self).entries().len() == 0,
            forall|k: Seq<char>| final(self).get_spec(k) is None,
    {
        self.entries = Vec::new();
        proof {
            assert forall|k: Seq<char>| self.get_spec(k) is None by {
                lemma_lookup_absent(self.entries@, k);
            }
        }
    }
}


/// A logical or integer value, shown on the INCAR screen and read back,
/// is the same value. Reading upper-cases the text first; the law holds
/// given that upper-casing maps this ASCII text letter by letter, which is
/// what the contract of [`to_uppercase`] states for ASCII text.
pub proof fn lemma_shown_value_reads_back(v: IncarVal)
    requires
        v is Bool || v is Int,
        uppercase_of(format_spec(v)) == format_spec(v).map_values(|c: char| ascii_upper_char(c)),
    ensures
        parse_spec(format_spec(v)) == v,
{
    let t = format_spec(v);
    let u = uppercase_of(t);
    match v {
        IncarVal::Bool(b) => {
            if b {
                assert(u =~= true_text());
            } else {
                assert(u =~= false_text());
                assert(!is_true_word(u)) by {
                    assert(u[0] == '.' && u[1] == 'F');
                }
            }
        },
        IncarVal::Int(i) => {
            lemma_signed_decimal_reads_back(i as int);
            assert(u[0] == t[0]);
            assert(!is_true_word(u) && !is_false_word(u)) by {
                assert(u[0] != '.' && u[0] != 'T' && u[0] != 'F');
            }
        },
        _ => {},
    }
}

} // verus!
