//! Lexicographic order on strings (by Unicode scalar value, which is the
//! order `String::cmp` gives on UTF-8) and tables of string keys kept sorted.

use vstd::prelude::*;
use crate::text::chars_of;

verus! {

/// `a` sorts strictly before `b`.
pub open spec fn seq_lt(a: Seq<char>, b: Seq<char>) -> bool
    decreases a.len(),
{
    if a.len() == 0 {
        b.len() > 0
    } else if b.len() == 0 {
        false
    } else if a[0] != b[0] {
        (a[0] as u32) < (b[0] as u32)
    } else {
        seq_lt(a.drop_first(), b.drop_first())
    }
}

pub proof fn lemma_seq_lt_irreflexive(a: Seq<char>)
    ensures
        !seq_lt(a, a),
    decreases a.len(),
{
    if a.len() > 0 {
        lemma_seq_lt_irreflexive(a.drop_first());
    }
}

pub proof fn lemma_seq_lt_total(a: Seq<char>, b: Seq<char>)
    ensures
        a == b || seq_lt(a, b) || seq_lt(b, a),
        !(seq_lt(a, b) && seq_lt(b, a)),
    decreases a.len(),
{
    if a.len() > 0 && b.len() > 0 {
        if a[0] == b[0] {
            lemma_seq_lt_total(a.drop_first(), b.drop_first());
            if a.drop_first() == b.drop_first() {
                assert(a =~= seq![a[0]] + a.drop_first());
                assert(b =~= seq![b[0]] + b.drop_first());
            }
        } else {
            assert((a[0] as u32) != (b[0] as u32)) by {
                vstd::utf8::char_u32_cast(a[0], a[0] as u32);
                vstd::utf8::char_u32_cast(b[0], b[0] as u32);
            }
        }
    } else if a.len() == 0 && b.len() == 0 {
        assert(a =~= b);
    }
}

/// A proper prefix sorts strictly before the longer string, and never
/// after it.
pub proof fn lemma_seq_lt_prefix(a: Seq<char>, t: Seq<char>)
    requires
        t.len() > 0,
    ensures
        seq_lt(a, a + t),
        !seq_lt(a + t, a),
    decreases a.len(),
{
    if a.len() > 0 {
        assert((a + t).drop_first() =~= a.drop_first() + t);
        assert((a + t)[0] == a[0]);
        lemma_seq_lt_prefix(a.drop_first(), t);
    }
}

/// The first differing character decides: when `a` and `b` agree before
/// position `i` and differ there, `a` sorts first exactly when its
/// character there is the smaller one.
pub proof fn lemma_seq_lt_first_difference(a: Seq<char>, b: Seq<char>, i: int)
    requires
        0 <= i < a.len(),
        i < b.len(),
        a.take(i) == b.take(i),
        a[i] != b[i],
    ensures
        seq_lt(a, b) <==> (a[i] as u32) < (b[i] as u32),
    decreases i,
{
    if i > 0 {
        assert(a[0] == a.take(i)[0]);
        assert(b[0] == b.take(i)[0]);
        assert(a.drop_first().take(i - 1) =~= a.take(i).drop_first());
        assert(b.drop_first().take(i - 1) =~= b.take(i).drop_first());
        lemma_seq_lt_first_difference(a.drop_first(), b.drop_first(), i - 1);
    }
}

pub proof fn lemma_seq_lt_transitive(a: Seq<char>, b: Seq<char>, c: Seq<char>)
    requires
        seq_lt(a, b),
        seq_lt(b, c),
    ensures
        seq_lt(a, c),
    decreases a.len(),
{
    if a.len() > 0 && b.len() > 0 && c.len() > 0 {
        if a[0] == b[0] && b[0] == c[0] {
            lemma_seq_lt_transitive(a.drop_first(), b.drop_first(), c.drop_first());
        }
    }
}

/// The keys of a table of `(String, V)` entries.
pub open spec fn keys_of<V>(s: Seq<(String, V)>) -> Seq<Seq<char>> {
    s.map_values(|e: (String, V)| e.0@)
}

/// Keys strictly increasing, hence distinct.
pub open spec fn sorted_keys(k: Seq<Seq<char>>) -> bool {
    forall|i: int, j: int| 0 <= i < j < k.len() ==> seq_lt(#[trigger] k[i], #[trigger] k[j])
}

/// `a` sorts strictly before `b`.
pub fn chars_lt(a: &[char], b: &[char]) -> (r: bool)
    ensures
        r == seq_lt(a@, b@),
{
    let n = if a.len() < b.len() { a.len() } else { b.len() };
    let mut i: usize = 0;
    assert(a@.skip(0) =~= a@);
    assert(b@.skip(0) =~= b@);
    while i < n
        invariant
            n <= a@.len(),
            n <= b@.len(),
            n == a@.len() || n == b@.len(),
            i <= n,
            seq_lt(a@, b@) == seq_lt(a@.skip(i as int), b@.skip(i as int)),
        decreases n - i,
    {
        if a[i] != b[i] {
            proof {
                let sa = a@.skip(i as int);
                let sb = b@.skip(i as int);
                assert(sa[0] == a@[i as int]);
                assert(sb[0] == b@[i as int]);
            }
            return (a[i] as u32) < (b[i] as u32);
        }
        proof {
            let sa = a@.skip(i as int);
            let sb = b@.skip(i as int);
            assert(sa.drop_first() =~= a@.skip(i + 1));
            assert(sb.drop_first() =~= b@.skip(i + 1));
        }
        i = i + 1;
    }
    proof {
        let sa = a@.skip(i as int);
        let sb = b@.skip(i as int);
        if i == a@.len() {
            assert(sa.len() == 0);
        } else {
            assert(sb.len() == 0);
        }
    }
    a.len() < b.len()
}

/// Position of `key` in a sorted table, or the place where it belongs.
pub fn find_key<V>(v: &Vec<(String, V)>, key: &str) -> (r: (usize, bool))
    requires
        sorted_keys(keys_of(v@)),
    ensures
        r.0 <= v@.len(),
        r.1 ==> r.0 < v@.len() && v@[r.0 as int].0@ == key@,
        !r.1 ==> !keys_of(v@).contains(key@),
        forall|i: int| 0 <= i < r.0 ==> seq_lt(#[trigger] keys_of(v@)[i], key@),
        !r.1 ==> forall|i: int| r.0 <= i < v@.len() ==> seq_lt(key@, #[trigger] keys_of(v@)[i]),
{
    let ghost k = keys_of(v@);
    let kc = chars_of(key);
    let n = v.len();
    let mut i: usize = 0;
    while i < n
        invariant
            n == v@.len() == k.len(),
            k == keys_of(v@),
            kc@ == key@,
            sorted_keys(k),
            i <= n,
            forall|j: int| 0 <= j < i ==> seq_lt(#[trigger] k[j], key@),
        decreases n - i,
    {
        let ec = chars_of(v[i].0.as_str());
        assert(ec@ == k[i as int]);
        if !chars_lt(ec.as_slice(), kc.as_slice()) {
            proof {
                lemma_seq_lt_total(k[i as int], key@);
            }
            if k_eq(ec.as_slice(), kc.as_slice()) {
                return (i, true);
            }
            proof {
                assert forall|j: int| i <= j < n implies seq_lt(key@, #[trigger] k[j]) by {
                    if j > i {
                        lemma_seq_lt_transitive(key@, k[i as int], k[j]);
                    }
                }
                assert forall|j: int| 0 <= j < k.len() implies #[trigger] k[j] != key@ by {
                    if j >= i {
                        lemma_seq_lt_irreflexive(key@);
                    } else {
                        lemma_seq_lt_irreflexive(key@);
                    }
                }
            }
            return (i, false);
        }
        i = i + 1;
    }
    proof {
        assert forall|j: int| 0 <= j < k.len() implies #[trigger] k[j] != key@ by {
            lemma_seq_lt_irreflexive(key@);
        }
    }
    (n, false)
}

fn k_eq(a: &[char], b: &[char]) -> (r: bool)
    ensures
        r == (a@ == b@),
{
    if a.len() != b.len() {
        return false;
    }
    let n = a.len();
    for i in 0..n
        invariant
            n == a@.len() == b@.len(),
            forall|j: int| 0 <= j < i ==> a@[j] == b@[j],
    {
        if a[i] != b[i] {
            return false;
        }
    }
    assert(a@ =~= b@);
    true
}


/// Position of some entry with key `k` (meaningful when there is one).
pub open spec fn key_index<V>(s: Seq<(String, V)>, k: Seq<char>) -> int {
    choose|i: int| 0 <= i < s.len() && #[trigger] s[i].0@ == k
}

/// The value stored under `k`, if any.
pub open spec fn lookup<V>(s: Seq<(String, V)>, k: Seq<char>) -> Option<V> {
    if exists|i: int| 0 <= i < s.len() && #[trigger] s[i].0@ == k {
        Some(s[key_index(s, k)].1)
    } else {
        None
    }
}

/// In a table with distinct keys, the entry found under a key is the one at
/// its position.
pub proof fn lemma_lookup_at<V>(s: Seq<(String, V)>, i: int)
    requires
        sorted_keys(keys_of(s)),
        0 <= i < s.len(),
    ensures
        lookup(s, s[i].0@) == Some(s[i].1),
{
    let k = s[i].0@;
    let ks = keys_of(s);
    assert(ks[i] == k);
    assert(s[i].0@ == k);
    assert(exists|x: int| 0 <= x < s.len() && #[trigger] s[x].0@ == k);
    let j = key_index(s, k);
    assert(ks[j] == k);
    lemma_seq_lt_irreflexive(k);
    if j < i {
        assert(seq_lt(ks[j], ks[i]));
    } else if i < j {
        assert(seq_lt(ks[i], ks[j]));
    }
    assert(j == i);
}

pub proof fn lemma_lookup_absent<V>(s: Seq<(String, V)>, k: Seq<char>)
    requires
        !keys_of(s).contains(k),
    ensures
        lookup(s, k) is None,
{
    if exists|i: int| 0 <= i < s.len() && #[trigger] s[i].0@ == k {
        let i = choose|i: int| 0 <= i < s.len() && #[trigger] s[i].0@ == k;
        assert(keys_of(s)[i] == k);
    }
}

/// Stores `val` under `key`, replacing an entry with the same key or
/// inserting a new one at its sorted place. Returns the position and whether
/// an entry was replaced.
pub fn insert_sorted<V>(v: &mut Vec<(String, V)>, key: String, val: V) -> (r: (usize, bool))
    requires
        sorted_keys(keys_of(old(v)@)),
    ensures
        sorted_keys(keys_of(final(v)@)),
        r.1 ==> r.0 < old(v)@.len() && old(v)@[r.0 as int].0@ == key@
            && final(v)@ == old(v)@.update(r.0 as int, (key, val)),
        !r.1 ==> r.0 <= old(v)@.len() && !keys_of(old(v)@).contains(key@)
            && final(v)@ == old(v)@.insert(r.0 as int, (key, val)),
        lookup(final(v)@, key@) == Some(val),
        forall|k: Seq<char>| k != key@ ==> #[trigger] lookup(final(v)@, k) == lookup(old(v)@, k),
{
    let ghost old_v = v@;
    let (pos, found) = find_key(v, key.as_str());
    let ghost kv = key@;
    let ghost entry = (key, val);
    if found {
        v.set(pos, (key, val));
        proof {
            let n = v@;
            assert(keys_of(n) =~= keys_of(old_v));
            lemma_lookup_at(n, pos as int);
            assert forall|k: Seq<char>| k != kv implies #[trigger] lookup(n, k) == lookup(old_v, k) by {
                lemma_lookup_update(old_v, pos as int, entry, k);
            }
        }
        (pos, true)
    } else {
        v.insert(pos, (key, val));
        proof {
            let n = v@;
            let ko = keys_of(old_v);
            let kn = keys_of(n);
            assert forall|i: int, j: int| 0 <= i < j < kn.len() implies seq_lt(#[trigger] kn[i], #[trigger] kn[j]) by {
                if j < pos {
                    assert(kn[i] == ko[i] && kn[j] == ko[j]);
                } else if j == pos {
                    assert(kn[i] == ko[i]);
                } else if i < pos {
                    assert(kn[i] == ko[i] && kn[j] == ko[j - 1]);
                    lemma_seq_lt_transitive(ko[i], kv, ko[j - 1]);
                } else if i == pos {
                    assert(kn[j] == ko[j - 1]);
                } else {
                    assert(kn[i] == ko[i - 1] && kn[j] == ko[j - 1]);
                }
            }
            lemma_lookup_at(n, pos as int);
            assert forall|k: Seq<char>| k != kv implies #[trigger] lookup(n, k) == lookup(old_v, k) by {
                lemma_lookup_insert(old_v, pos as int, entry, k);
            }
        }
        (pos, false)
    }
}

pub proof fn lemma_lookup_present<V>(s: Seq<(String, V)>, k: Seq<char>, i: int)
    requires
        sorted_keys(keys_of(s)),
        0 <= i < s.len(),
        s[i].0@ == k,
    ensures
        lookup(s, k) == Some(s[i].1),
{
    lemma_lookup_at(s, i);
}

proof fn lemma_lookup_update<V>(s: Seq<(String, V)>, p: int, e: (String, V), k: Seq<char>)
    requires
        0 <= p < s.len(),
        sorted_keys(keys_of(s)),
        sorted_keys(keys_of(s.update(p, e))),
        s[p].0@ == e.0@,
        k != e.0@,
    ensures
        lookup(s.update(p, e), k) == lookup(s, k),
{
    let n = s.update(p, e);
    if exists|i: int| 0 <= i < s.len() && #[trigger] s[i].0@ == k {
        let i = choose|i: int| 0 <= i < s.len() && #[trigger] s[i].0@ == k;
        assert(i != p);
        assert(n[i] == s[i]);
        lemma_lookup_present(s, k, i);
        lemma_lookup_present(n, k, i);
    } else {
        if exists|j: int| 0 <= j < n.len() && #[trigger] n[j].0@ == k {
            let j = choose|j: int| 0 <= j < n.len() && #[trigger] n[j].0@ == k;
            assert(j != p);
            assert(s[j].0@ == k);
        }
    }
}

pub proof fn lemma_lookup_insert<V>(s: Seq<(String, V)>, p: int, e: (String, V), k: Seq<char>)
    requires
        0 <= p <= s.len(),
        sorted_keys(keys_of(s)),
        sorted_keys(keys_of(s.insert(p, e))),
        k != e.0@,
    ensures
        lookup(s.insert(p, e), k) == lookup(s, k),
{
    let n = s.insert(p, e);
    if exists|i: int| 0 <= i < s.len() && #[trigger] s[i].0@ == k {
        let i = choose|i: int| 0 <= i < s.len() && #[trigger] s[i].0@ == k;
        let ii = if i < p { i } else { i + 1 };
        assert(n[ii] == s[i]);
        lemma_lookup_present(s, k, i);
        lemma_lookup_present(n, k, ii);
    } else {
        if exists|j: int| 0 <= j < n.len() && #[trigger] n[j].0@ == k {
            let j = choose|j: int| 0 <= j < n.len() && #[trigger] n[j].0@ == k;
            let jj = if j < p { j } else { j - 1 };
            assert(s[jj].0@ == k);
        }
    }
}


/// A key has a value exactly when it is one of the keys.
pub proof fn lemma_lookup_contains<V>(s: Seq<(String, V)>, k: Seq<char>)
    ensures
        lookup(s, k) is Some <==> keys_of(s).contains(k),
{
    if keys_of(s).contains(k) {
        let i = choose|i: int| 0 <= i < keys_of(s).len() && keys_of(s)[i] == k;
        assert(s[i].0@ == k);
    }
    if lookup(s, k) is Some {
        let i = choose|i: int| 0 <= i < s.len() && #[trigger] s[i].0@ == k;
        assert(keys_of(s)[i] == k);
    }
}

/// A prefix of a sorted table is sorted.
pub proof fn lemma_sorted_take<V>(s: Seq<(String, V)>, i: int)
    requires
        sorted_keys(keys_of(s)),
        0 <= i <= s.len(),
    ensures
        sorted_keys(keys_of(s.take(i))),
{
    assert forall|a: int, b: int| 0 <= a < b < keys_of(s.take(i)).len() implies seq_lt(
        #[trigger] keys_of(s.take(i))[a],
        #[trigger] keys_of(s.take(i))[b],
    ) by {
        assert(keys_of(s.take(i))[a] == keys_of(s)[a]);
        assert(keys_of(s.take(i))[b] == keys_of(s)[b]);
    }
}

/// Removing an entry keeps a table sorted.
pub proof fn lemma_sorted_remove<V>(s: Seq<(String, V)>, i: int)
    requires
        sorted_keys(keys_of(s)),
        0 <= i < s.len(),
    ensures
        sorted_keys(keys_of(s.remove(i))),
{
    let t = s.remove(i);
    assert forall|a: int, b: int| 0 <= a < b < keys_of(t).len() implies seq_lt(
        #[trigger] keys_of(t)[a],
        #[trigger] keys_of(t)[b],
    ) by {
        let aa = if a < i { a } else { a + 1 };
        let bb = if b < i { b } else { b + 1 };
        assert(keys_of(t)[a] == keys_of(s)[aa]);
        assert(keys_of(t)[b] == keys_of(s)[bb]);
    }
}

} // verus!
