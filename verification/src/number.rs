//! Decimal numbers: rendering unsigned and signed integers, and parsing them
//! with the rules of `str::parse` for `u32` and `i64`.

use vstd::prelude::*;
use crate::text::{ascii_lower_char, chars_of, push_char};

verus! {

pub open spec fn is_digit(c: char) -> bool {
    48 <= (c as u32) <= 57
}

pub open spec fn digit_value(c: char) -> nat {
    ((c as u32) - 48) as nat
}

pub open spec fn digit_char(d: nat) -> char {
    ((48 + d) as u32) as char
}

/// The decimal digits of `n`, without leading zeros (`n.to_string()`).
pub open spec fn decimal(n: nat) -> Seq<char>
    decreases n,
{
    if n < 10 {
        seq![digit_char(n)]
    } else {
        decimal(n / 10).push(digit_char(n % 10))
    }
}

/// `n` formatted with `{:02}`: at least two digits, zero-padded.
pub open spec fn decimal2(n: nat) -> Seq<char> {
    if n < 10 {
        seq!['0'] + decimal(n)
    } else {
        decimal(n)
    }
}

/// A signed integer in decimal, with a leading `-` when negative.
pub open spec fn signed_decimal(i: int) -> Seq<char> {
    if i < 0 {
        seq!['-'] + decimal((-i) as nat)
    } else {
        decimal(i as nat)
    }
}

pub open spec fn all_digits(s: Seq<char>) -> bool {
    forall|i: int| 0 <= i < s.len() ==> is_digit(#[trigger] s[i])
}

/// The value of a string of decimal digits.
pub open spec fn digits_value(s: Seq<char>) -> nat
    decreases s.len(),
{
    if s.len() == 0 {
        0
    } else {
        digits_value(s.drop_last()) * 10 + digit_value(s.last())
    }
}

/// The digits that follow an optional leading `+`.
pub open spec fn unsigned_digits(s: Seq<char>) -> Seq<char> {
    if s.len() > 0 && s[0] == '+' {
        s.drop_first()
    } else {
        s
    }
}

/// What `str::parse` yields for an unsigned type of unbounded width: an
/// optional `+` followed by at least one ASCII digit.
pub open spec fn parse_unsigned(s: Seq<char>) -> Option<nat> {
    let d = unsigned_digits(s);
    if d.len() > 0 && all_digits(d) {
        Some(digits_value(d))
    } else {
        None
    }
}

/// What `str::parse` yields for a signed type of unbounded width: an
/// optional `+` or `-` followed by at least one ASCII digit.
pub open spec fn parse_signed(s: Seq<char>) -> Option<int> {
    if s.len() > 0 && s[0] == '-' {
        let d = s.drop_first();
        if d.len() > 0 && all_digits(d) {
            Some(-(digits_value(d) as int))
        } else {
            None
        }
    } else {
        match parse_unsigned(s) {
            Some(v) => Some(v as int),
            None => None,
        }
    }
}

/// `s.parse::<u32>().ok()`.
pub open spec fn parse_u32_spec(s: Seq<char>) -> Option<u32> {
    match parse_unsigned(s) {
        Some(v) => if v <= u32::MAX {
            Some(v as u32)
        } else {
            None
        },
        None => None,
    }
}

/// `s.parse::<i64>().ok()`.
pub open spec fn parse_i64_spec(s: Seq<char>) -> Option<i64> {
    match parse_signed(s) {
        Some(v) => if i64::MIN <= v <= i64::MAX {
            Some(v as i64)
        } else {
            None
        },
        None => None,
    }
}

pub fn digit_to_char(d: u64) -> (c: char)
    requires
        d < 10,
    ensures
        c == digit_char(d as nat),
        is_digit(c),
{
    let r = (48 + d) as u8 as char;
    assert(r == digit_char(d as nat)) by {
        assert(((48 + d) as u8) as u32 == (48 + d) as u32);
    }
    r
}

/// Appends the decimal digits of `n`.
pub fn push_decimal(s: &mut String, n: u64)
    ensures
        final(s)@ == old(s)@ + decimal(n as nat),
    decreases n,
{
    if n >= 10 {
        push_decimal(s, n / 10);
        let c = digit_to_char(n % 10);
        let ghost mid = s@;
        push_char(s, c);
        assert(s@ =~= old(s)@ + decimal(n as nat));
    } else {
        let c = digit_to_char(n);
        push_char(s, c);
        assert(s@ =~= old(s)@ + decimal(n as nat));
    }
}

/// Appends `n` formatted with `{:02}`.
pub fn push_decimal2(s: &mut String, n: u64)
    ensures
        final(s)@ == old(s)@ + decimal2(n as nat),
{
    if n < 10 {
        push_char(s, '0');
        push_decimal(s, n);
        assert(s@ =~= old(s)@ + decimal2(n as nat));
    } else {
        push_decimal(s, n);
    }
}

/// Appends a signed integer in decimal.
pub fn push_signed_decimal(s: &mut String, i: i64)
    ensures
        final(s)@ == old(s)@ + signed_decimal(i as int),
{
    if i < 0 {
        push_char(s, '-');
        let m: u64 = (-(i as i128)) as u64;
        push_decimal(s, m);
        assert(s@ =~= old(s)@ + signed_decimal(i as int));
    } else {
        push_decimal(s, i as u64);
    }
}

/// `n.to_string()`.
pub fn u64_to_string(n: u64) -> (r: String)
    ensures
        r@ == decimal(n as nat),
{
    let mut r = String::new();
    push_decimal(&mut r, n);
    assert(r@ =~= decimal(n as nat));
    r
}

pub fn char_is_digit(c: char) -> (r: bool)
    ensures
        r == is_digit(c),
{
    let u = c as u32;
    48 <= u && u <= 57
}

proof fn lemma_digits_value_push(s: Seq<char>, k: int)
    requires
        0 <= k < s.len(),
    ensures
        digits_value(s.take(k + 1)) == digits_value(s.take(k)) * 10 + digit_value(s[k]),
{
    assert(s.take(k + 1).drop_last() =~= s.take(k));
}

proof fn lemma_digits_value_mono(s: Seq<char>, k: int)
    requires
        0 <= k < s.len(),
        all_digits(s),
    ensures
        digits_value(s.take(k)) <= digits_value(s.take(k + 1)),
        digits_value(s.take(k)) <= digits_value(s),
    decreases s.len() - k,
{
    lemma_digits_value_push(s, k);
    if k + 1 < s.len() {
        lemma_digits_value_mono(s, k + 1);
    } else {
        assert(s.take(k + 1) =~= s);
    }
}

/// A natural number written in decimal reads back as itself: its text is a
/// non-empty run of digits whose value is the number.
pub proof fn lemma_decimal_reads_back(n: nat)
    ensures
        decimal(n).len() > 0,
        all_digits(decimal(n)),
        digits_value(decimal(n)) == n,
        parse_unsigned(decimal(n)) == Some(n),
    decreases n,
{
    let d = decimal(n);
    if n < 10 {
        assert(digit_value(digit_char(n)) == n);
        assert(d.drop_last() =~= Seq::<char>::empty());
        assert(d.last() == digit_char(n));
        assert(digits_value(d) == digits_value(d.drop_last()) * 10 + digit_value(d.last()));
    } else {
        lemma_decimal_reads_back(n / 10);
        let p = decimal(n / 10);
        assert(d.drop_last() =~= p);
        assert(d.last() == digit_char(n % 10));
        assert(digit_value(digit_char(n % 10)) == n % 10);
        assert((n / 10) * 10 + n % 10 == n);
        assert(digits_value(d) == digits_value(p) * 10 + digit_value(d.last()));
        assert forall|i: int| 0 <= i < d.len() implies is_digit(#[trigger] d[i]) by {
            if i < p.len() {
                assert(d[i] == p[i]);
            }
        }
    }
    assert(unsigned_digits(d) == d);
}

/// A signed integer written in decimal reads back as itself.
pub proof fn lemma_signed_decimal_reads_back(i: int)
    ensures
        parse_signed(signed_decimal(i)) == Some(i),
        signed_decimal(i).len() > 0,
        signed_decimal(i)[0] == '-' || is_digit(signed_decimal(i)[0]),
{
    if i < 0 {
        lemma_decimal_reads_back((-i) as nat);
        let s = signed_decimal(i);
        assert(s.drop_first() =~= decimal((-i) as nat));
    } else {
        lemma_decimal_reads_back(i as nat);
    }
}

/// Scans `v[start..]` as a run of decimal digits. Returns whether every
/// character is a digit and, if so, the value when it is at most `limit`.
fn scan_digits(v: &[char], start: usize, limit: u64) -> (r: (bool, Option<u64>))
    requires
        start <= v@.len(),
    ensures
        r.0 == all_digits(v@.skip(start as int)),
        r.0 ==> (match r.1 {
            Some(x) => x as nat == digits_value(v@.skip(start as int)) && x <= limit,
            None => digits_value(v@.skip(start as int)) > limit,
        }),
{
    let n = v.len();
    let ghost d = v@.skip(start as int);
    let mut acc: u128 = 0;
    let mut over = false;
    let mut i = start;
    assert(d.take(0) =~= seq![]);
    while i < n
        invariant
            start <= i <= n == v@.len(),
            d == v@.skip(start as int),
            forall|j: int| 0 <= j < i - start ==> is_digit(#[trigger] d[j]),
            !over ==> acc as nat == digits_value(d.take(i - start)) && acc <= limit,
            over ==> digits_value(d.take(i - start)) > limit,
        decreases n - i,
    {
        let c = v[i];
        if !char_is_digit(c) {
            assert(d[i - start] == c);
            return (false, None);
        }
        let dv = (c as u32 - 48) as u128;
        proof {
            assert(d[i - start] == c);
            lemma_digits_value_push(d, i - start);
        }
        if !over {
            let next = acc * 10 + dv;
            if next > limit as u128 {
                over = true;
            } else {
                acc = next;
            }
        }
        i = i + 1;
    }
    assert(d.take(n - start) =~= d);
    assert(all_digits(d));
    if over {
        (true, None)
    } else {
        (true, Some(acc as u64))
    }
}

/// `s.parse::<u32>().ok()`.
pub fn parse_u32(s: &str) -> (r: Option<u32>)
    ensures
        r == parse_u32_spec(s@),
{
    let v = chars_of(s);
    let start: usize = if v.len() > 0 && v[0] == '+' { 1 } else { 0 };
    proof {
        if start == 1 {
            assert(v@.skip(1) =~= v@.drop_first());
        } else {
            assert(v@.skip(0) =~= v@);
        }
    }
    if start >= v.len() {
        return None;
    }
    let (ok, val) = scan_digits(v.as_slice(), start, 0xFFFF_FFFF);
    if !ok {
        return None;
    }
    match val {
        Some(x) => Some(x as u32),
        None => None,
    }
}

/// `s.parse::<i64>().ok()`.
pub fn parse_i64(s: &str) -> (r: Option<i64>)
    ensures
        r == parse_i64_spec(s@),
{
    let v = chars_of(s);
    let neg = v.len() > 0 && v[0] == '-';
    let start: usize = if v.len() > 0 && (v[0] == '+' || v[0] == '-') { 1 } else { 0 };
    proof {
        if start == 1 {
            assert(v@.skip(1) =~= v@.drop_first());
        } else {
            assert(v@.skip(0) =~= v@);
        }
    }
    if start >= v.len() {
        return None;
    }
    let limit: u64 = if neg { 0x8000_0000_0000_0000 } else { 0x7FFF_FFFF_FFFF_FFFF };
    let (ok, val) = scan_digits(v.as_slice(), start, limit);
    if !ok {
        return None;
    }
    match val {
        Some(x) => {
            if neg {
                Some((-(x as i128)) as i64)
            } else {
                Some(x as i64)
            }
        },
        None => None,
    }
}


/// Position of the first `a` or `b` in `t`, or its length when there is none.
pub open spec fn first_pos(t: Seq<char>, a: char, b: char) -> nat
    decreases t.len(),
{
    if t.len() == 0 {
        0
    } else if t[0] == a || t[0] == b {
        0
    } else {
        1 + first_pos(t.drop_first(), a, b)
    }
}

/// Digits with at most one `.`, and at least one digit.
pub open spec fn is_mantissa(x: Seq<char>) -> bool {
    let d = first_pos(x, '.', '.');
    &&& all_digits(x.take(d as int))
    &&& if d == x.len() {
        x.len() > 0
    } else {
        all_digits(x.skip(d + 1 as int)) && x.len() > 1
    }
}

/// `e` or `E`, an optional sign, at least one digit.
pub open spec fn is_exponent(y: Seq<char>) -> bool {
    &&& y.len() >= 2
    &&& (y[0] == 'e' || y[0] == 'E')
    &&& {
        let z = strip_sign(y.drop_first());
        z.len() > 0 && all_digits(z)
    }
}

/// The rest of `s` after an optional leading `+` or `-`.
pub open spec fn strip_sign(s: Seq<char>) -> Seq<char> {
    if s.len() > 0 && (s[0] == '+' || s[0] == '-') {
        s.drop_first()
    } else {
        s
    }
}

/// `inf`, `infinity` or `nan`, in any ASCII letter case.
pub open spec fn is_special_float(t: Seq<char>) -> bool {
    let l = t.map_values(|c: char| ascii_lower_char(c));
    l == seq!['i', 'n', 'f'] || l == seq!['i', 'n', 'f', 'i', 'n', 'i', 't', 'y'] || l == seq![
        'n',
        'a',
        'n',
    ]
}

/// The strings that `str::parse::<f64>` accepts: an optional sign, then
/// `inf`, `infinity`, `nan`, or a decimal number with an optional exponent.
pub open spec fn is_float_literal(s: Seq<char>) -> bool {
    let t = strip_sign(s);
    ||| is_special_float(t)
    ||| {
        let m = first_pos(t, 'e', 'E');
        is_mantissa(t.take(m as int)) && (m == t.len() || is_exponent(t.skip(m as int)))
    }
}

fn first_pos_exec(v: &[char], lo: usize, hi: usize, a: char, b: char) -> (r: usize)
    requires
        lo <= hi <= v@.len(),
    ensures
        r == lo + first_pos(v@.subrange(lo as int, hi as int), a, b),
        lo <= r <= hi,
{
    let mut i = lo;
    while i < hi && v[i] != a && v[i] != b
        invariant
            lo <= i <= hi <= v@.len(),
            first_pos(v@.subrange(lo as int, hi as int), a, b) == (i - lo) + first_pos(
                v@.subrange(i as int, hi as int),
                a,
                b,
            ),
        decreases hi - i,
    {
        proof {
            let t = v@.subrange(i as int, hi as int);
            assert(t.drop_first() =~= v@.subrange(i + 1, hi as int));
        }
        i = i + 1;
    }
    i
}

fn all_digits_exec(v: &[char], lo: usize, hi: usize) -> (r: bool)
    requires
        lo <= hi <= v@.len(),
    ensures
        r == all_digits(v@.subrange(lo as int, hi as int)),
{
    let mut i = lo;
    while i < hi
        invariant
            lo <= i <= hi <= v@.len(),
            forall|j: int| lo <= j < i ==> is_digit(#[trigger] v@[j]),
        decreases hi - i,
    {
        if !char_is_digit(v[i]) {
            assert(v@.subrange(lo as int, hi as int)[i - lo] == v@[i as int]);
            return false;
        }
        i = i + 1;
    }
    proof {
        let t = v@.subrange(lo as int, hi as int);
        assert forall|j: int| 0 <= j < t.len() implies is_digit(#[trigger] t[j]) by {
            assert(t[j] == v@[lo + j]);
        }
    }
    true
}

fn mantissa_exec(v: &[char], lo: usize, hi: usize) -> (r: bool)
    requires
        lo <= hi <= v@.len(),
    ensures
        r == is_mantissa(v@.subrange(lo as int, hi as int)),
{
    let ghost x = v@.subrange(lo as int, hi as int);
    let d = first_pos_exec(v, lo, hi, '.', '.');
    assert(x.take(d - lo) =~= v@.subrange(lo as int, d as int));
    let head = all_digits_exec(v, lo, d);
    if d == hi {
        head && hi > lo
    } else {
        assert(x.skip(d - lo + 1) =~= v@.subrange(d + 1, hi as int));
        head && all_digits_exec(v, d + 1, hi) && hi - lo > 1
    }
}

fn exponent_exec(v: &[char], lo: usize, hi: usize) -> (r: bool)
    requires
        lo <= hi <= v@.len(),
    ensures
        r == is_exponent(v@.subrange(lo as int, hi as int)),
{
    let ghost y = v@.subrange(lo as int, hi as int);
    if hi - lo < 2 {
        return false;
    }
    if v[lo] != 'e' && v[lo] != 'E' {
        return false;
    }
    let s = lo + 1;
    assert(y.drop_first() =~= v@.subrange(s as int, hi as int));
    let s2 = if v[s] == '+' || v[s] == '-' { s + 1 } else { s };
    proof {
        let z = v@.subrange(s as int, hi as int);
        if s2 == s + 1 {
            assert(z.drop_first() =~= v@.subrange(s2 as int, hi as int));
        }
    }
    s2 < hi && all_digits_exec(v, s2, hi)
}

fn lower_ascii_exec(c: char) -> (r: char)
    ensures
        r == ascii_lower_char(c),
{
    let u = c as u32;
    if 65 <= u && u <= 90 {
        let r = ((u + 32) as u8) as char;
        assert(((u + 32) as u8) as u32 == u + 32);
        r
    } else {
        c
    }
}

fn matches_lower(v: &[char], lo: usize, hi: usize, w: &[char]) -> (r: bool)
    requires
        lo <= hi <= v@.len(),
    ensures
        r == (v@.subrange(lo as int, hi as int).map_values(|c: char| ascii_lower_char(c)) == w@),
{
    let ghost l = v@.subrange(lo as int, hi as int).map_values(|c: char| ascii_lower_char(c));
    if hi - lo != w.len() {
        assert(l.len() != w@.len());
        return false;
    }
    let mut i: usize = 0;
    while i < w.len()
        invariant
            hi - lo == w@.len(),
            lo <= hi <= v@.len(),
            i <= w@.len(),
            l == v@.subrange(lo as int, hi as int).map_values(|c: char| ascii_lower_char(c)),
            forall|j: int| 0 <= j < i ==> l[j] == w@[j],
        decreases w@.len() - i,
    {
        if lower_ascii_exec(v[lo + i]) != w[i] {
            assert(l[i as int] == ascii_lower_char(v@[lo + i]));
            return false;
        }
        i = i + 1;
    }
    assert(l =~= w@);
    true
}

/// Whether `s.parse::<f64>()` succeeds.
pub fn float_literal(s: &str) -> (r: bool)
    ensures
        r == is_float_literal(s@),
{
    let v = chars_of(s);
    let n = v.len();
    let lo: usize = if n > 0 && (v[0] == '+' || v[0] == '-') { 1 } else { 0 };
    let ghost t = strip_sign(s@);
    proof {
        if lo == 1 {
            assert(t =~= v@.subrange(1, n as int));
        } else {
            assert(t =~= v@.subrange(0, n as int));
        }
    }
    let inf: [char; 3] = ['i', 'n', 'f'];
    let infinity: [char; 8] = ['i', 'n', 'f', 'i', 'n', 'i', 't', 'y'];
    let nan: [char; 3] = ['n', 'a', 'n'];
    assert(inf@ =~= seq!['i', 'n', 'f']);
    assert(infinity@ =~= seq!['i', 'n', 'f', 'i', 'n', 'i', 't', 'y']);
    assert(nan@ =~= seq!['n', 'a', 'n']);
    if matches_lower(v.as_slice(), lo, n, &inf) || matches_lower(v.as_slice(), lo, n, &infinity)
        || matches_lower(v.as_slice(), lo, n, &nan) {
        return true;
    }
    let m = first_pos_exec(v.as_slice(), lo, n, 'e', 'E');
    assert(t.take(m - lo) =~= v@.subrange(lo as int, m as int));
    if !mantissa_exec(v.as_slice(), lo, m) {
        return false;
    }
    if m == n {
        true
    } else {
        assert(t.skip(m - lo) =~= v@.subrange(m as int, n as int));
        exponent_exec(v.as_slice(), m, n)
    }
}

} // verus!
