use vstd::prelude::*;
use vstd::string::*;

verus! {

/// Lexicographic order on names, compared character by character by code point.
/// This is the order in which `String`s compare, and so the order in which the
/// branches of a sum or a case-split are kept.
pub open spec fn str_less_from(a: Seq<char>, b: Seq<char>, i: nat) -> bool
    decreases a.len() - i,
{
    if i >= a.len() {
        i < b.len()
    } else if i >= b.len() {
        false
    } else if a[i as int] != b[i as int] {
        (a[i as int] as int) < (b[i as int] as int)
    } else {
        str_less_from(a, b, i + 1)
    }
}

pub open spec fn str_less(a: Seq<char>, b: Seq<char>) -> bool {
    str_less_from(a, b, 0)
}

/// Whether two string slices hold the same characters.
pub fn str_eq(a: &str, b: &str) -> (r: bool)
    ensures
        r == (a@ == b@),
{
    let n = a.unicode_len();
    let m = b.unicode_len();
    if n != m {
        return false;
    }
    let mut i: usize = 0;
    while i < n
        invariant
            n == a@.len(),
            m == b@.len(),
            n == m,
            i <= n,
            forall|j: int| 0 <= j < i ==> a@[j] == b@[j],
        decreases n - i,
    {
        if a.get_char(i) != b.get_char(i) {
            return false;
        }
        i = i + 1;
    }
    assert(a@ =~= b@);
    true
}

/// Whether `a` comes strictly before `b` in the order of names.
pub fn str_lt(a: &str, b: &str) -> (r: bool)
    ensures
        r == str_less(a@, b@),
{
    let n = a.unicode_len();
    let m = b.unicode_len();
    let mut i: usize = 0;
    while i < n && i < m
        invariant
            n == a@.len(),
            m == b@.len(),
            i <= n,
            i <= m,
            str_less(a@, b@) == str_less_from(a@, b@, i as nat),
        decreases n - i,
    {
        let x = a.get_char(i);
        let y = b.get_char(i);
        if x != y {
            return (x as u32) < (y as u32);
        }
        i = i + 1;
    }
    i < m
}

/// Appends the characters of `s` to `out`.
pub fn push_str(out: &mut String, s: &str)
    ensures
        final(out)@ == old(out)@ + s@,
{
    out.append(s);
}

} // verus!

verus! {

proof fn lemma_str_less_from_irreflexive(a: Seq<char>, i: nat)
    ensures
        !str_less_from(a, a, i),
    decreases a.len() - i,
{
    if i < a.len() {
        lemma_str_less_from_irreflexive(a, i + 1);
    }
}

proof fn lemma_str_less_from_transitive(a: Seq<char>, b: Seq<char>, c: Seq<char>, i: nat)
    requires
        str_less_from(a, b, i),
        str_less_from(b, c, i),
    ensures
        str_less_from(a, c, i),
    decreases a.len() - i,
{
    if i < a.len() && i < b.len() && i < c.len() && a[i as int] == b[i as int] && b[i as int] == c[i as int] {
        lemma_str_less_from_transitive(a, b, c, i + 1);
    }
}

proof fn lemma_str_less_from_total(a: Seq<char>, b: Seq<char>, i: nat)
    requires
        i <= a.len(),
        i <= b.len(),
        a.subrange(0, i as int) == b.subrange(0, i as int),
        a != b,
    ensures
        str_less_from(a, b, i) || str_less_from(b, a, i),
    decreases a.len() - i,
{
    if i < a.len() && i < b.len() {
        if a[i as int] == b[i as int] {
            assert(a.subrange(0, (i + 1) as int) =~= a.subrange(0, i as int).push(a[i as int]));
            assert(b.subrange(0, (i + 1) as int) =~= b.subrange(0, i as int).push(b[i as int]));
            lemma_str_less_from_total(a, b, i + 1);
        } else {
            assert((a[i as int] as int) != (b[i as int] as int));
        }
    } else if i >= a.len() && i >= b.len() {
        assert(a =~= a.subrange(0, i as int));
        assert(b =~= b.subrange(0, i as int));
    }
}

/// The order of names is a strict total order.
pub proof fn lemma_str_less_order(a: Seq<char>, b: Seq<char>, c: Seq<char>)
    ensures
        !str_less(a, a),
        str_less(a, b) && str_less(b, c) ==> str_less(a, c),
        a != b ==> str_less(a, b) || str_less(b, a),
{
    lemma_str_less_from_irreflexive(a, 0);
    if str_less(a, b) && str_less(b, c) {
        lemma_str_less_from_transitive(a, b, c, 0);
    }
    if a != b {
        assert(a.subrange(0, 0) =~= b.subrange(0, 0));
        lemma_str_less_from_total(a, b, 0);
    }
}

} // verus!
