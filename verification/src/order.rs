//! Lexicographic comparison of sequences, the order that derived `Ord`
//! gives vectors and strings (a string compares by its characters' code
//! points, which is the order of its UTF-8 bytes).
use vstd::prelude::*;

verus! {

/// Lexicographic comparison: -1, 0 or 1.
pub open spec fn seq_compare(a: Seq<int>, b: Seq<int>) -> int
    decreases a.len(),
{
    if a.len() == 0 && b.len() == 0 {
        0
    } else if a.len() == 0 {
        -1
    } else if b.len() == 0 {
        1
    } else if a[0] < b[0] {
        -1
    } else if a[0] > b[0] {
        1
    } else {
        seq_compare(a.drop_first(), b.drop_first())
    }
}

/// The code points of a string.
pub open spec fn char_codes(s: Seq<char>) -> Seq<int> {
    s.map_values(|c: char| c as int)
}

/// Comparison of strings by code points.
pub open spec fn text_compare(a: Seq<char>, b: Seq<char>) -> int {
    seq_compare(char_codes(a), char_codes(b))
}

pub proof fn lemma_seq_compare_range(a: Seq<int>, b: Seq<int>)
    ensures
        -1 <= seq_compare(a, b) <= 1,
    decreases a.len(),
{
    if a.len() > 0 && b.len() > 0 && a[0] == b[0] {
        lemma_seq_compare_range(a.drop_first(), b.drop_first());
    }
}

pub proof fn lemma_seq_compare_zero(a: Seq<int>, b: Seq<int>)
    ensures
        seq_compare(a, b) == 0 <==> a == b,
    decreases a.len(),
{
    if a.len() == 0 && b.len() == 0 {
        assert(a =~= b);
    }
    if a.len() > 0 && b.len() > 0 && a[0] == b[0] {
        lemma_seq_compare_zero(a.drop_first(), b.drop_first());
        if a.drop_first() == b.drop_first() {
            assert(a =~= seq![a[0]] + a.drop_first());
            assert(b =~= seq![b[0]] + b.drop_first());
        }
        if a == b {
            assert(a.drop_first() =~= b.drop_first());
        }
    }
}

pub proof fn lemma_seq_compare_antisym(a: Seq<int>, b: Seq<int>)
    ensures
        seq_compare(a, b) == -seq_compare(b, a),
    decreases a.len(),
{
    if a.len() > 0 && b.len() > 0 && a[0] == b[0] {
        lemma_seq_compare_antisym(a.drop_first(), b.drop_first());
    }
}

pub proof fn lemma_seq_compare_trans(a: Seq<int>, b: Seq<int>, c: Seq<int>)
    requires
        seq_compare(a, b) < 0,
        seq_compare(b, c) < 0,
    ensures
        seq_compare(a, c) < 0,
    decreases a.len(),
{
    if a.len() > 0 && b.len() > 0 && c.len() > 0 && a[0] == b[0] && b[0] == c[0] {
        lemma_seq_compare_trans(a.drop_first(), b.drop_first(), c.drop_first());
    }
}

/// One step of a left-to-right comparison: equal heads leave the result to
/// the tails.
pub proof fn lemma_seq_compare_step(a: Seq<int>, b: Seq<int>, i: int)
    requires
        0 <= i < a.len(),
        i < b.len(),
        a[i] == b[i],
    ensures
        seq_compare(a.skip(i), b.skip(i)) == seq_compare(a.skip(i + 1), b.skip(i + 1)),
{
    assert(a.skip(i).drop_first() =~= a.skip(i + 1));
    assert(b.skip(i).drop_first() =~= b.skip(i + 1));
}

pub proof fn lemma_char_codes_injective(a: Seq<char>, b: Seq<char>)
    ensures
        char_codes(a) == char_codes(b) <==> a == b,
{
    if char_codes(a) == char_codes(b) {
        assert(a.len() == char_codes(a).len());
        assert forall|i: int| 0 <= i < a.len() implies a[i] == b[i] by {
            assert(char_codes(a)[i] == char_codes(b)[i]);
        }
        assert(a =~= b);
    }
}

/// Compares two strings by code points.
pub fn compare_text(a: &str, b: &str) -> (r: i8)
    ensures
        r == text_compare(a@, b@),
{
    let ghost ca = char_codes(a@);
    let ghost cb = char_codes(b@);
    let n = a.unicode_len();
    let m = b.unicode_len();
    let mut i: usize = 0;
    assert(ca.skip(0) =~= ca);
    assert(cb.skip(0) =~= cb);
    while i < n && i < m
        invariant
            n == a@.len(),
            m == b@.len(),
            ca == char_codes(a@),
            cb == char_codes(b@),
            i <= n,
            i <= m,
            seq_compare(ca, cb) == seq_compare(ca.skip(i as int), cb.skip(i as int)),
        decreases n - i,
    {
        let x = a.get_char(i);
        let y = b.get_char(i);
        if (x as u32) < (y as u32) {
            return -1;
        }
        if (x as u32) > (y as u32) {
            return 1;
        }
        proof {
            lemma_seq_compare_step(ca, cb, i as int);
        }
        i = i + 1;
    }
    if i == n && i == m {
        0
    } else if i == n {
        -1
    } else {
        1
    }
}

} // verus!
