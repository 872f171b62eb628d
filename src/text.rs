//! Character-level helpers on request text: prefix tests and first-line
//! extraction.

use vstd::prelude::*;

verus! {

/// `p` is a prefix of `s`.
pub open spec fn has_prefix(s: Seq<char>, p: Seq<char>) -> bool {
    p.len() <= s.len() && s.subrange(0, p.len() as int) == p
}

/// `i` is the position of the first line feed in `s`, or `s.len()` when
/// `s` holds none.
pub open spec fn is_line_end(s: Seq<char>, i: int) -> bool {
    &&& 0 <= i <= s.len()
    &&& forall|j: int| 0 <= j < i ==> s[j] != '\n'
    &&& (i == s.len() || s[i] == '\n')
}

/// Drops one carriage return that ends `s`, if there is one.
pub open spec fn strip_cr(s: Seq<char>) -> Seq<char> {
    if s.len() > 0 && s.last() == '\r' {
        s.drop_last()
    } else {
        s
    }
}

/// The first line of `s`: the text before the first line feed (all of `s`
/// when there is none), without a carriage return that stood right before
/// that line feed. The empty text has the empty first line.
pub open spec fn first_line_of(s: Seq<char>) -> Seq<char> {
    let i = choose|i: int| is_line_end(s, i);
    if i < s.len() {
        strip_cr(s.take(i))
    } else {
        s
    }
}

proof fn lemma_line_end_unique(s: Seq<char>, i: int, k: int)
    requires
        is_line_end(s, i),
        is_line_end(s, k),
    ensures
        i == k,
{
    if i < k {
        assert(s[i] == '\n');
    } else if k < i {
        assert(s[k] == '\n');
    }
}

/// Whether `s` begins with `p`.
pub fn starts_with(s: &str, p: &str) -> (r: bool)
    ensures
        r == has_prefix(s@, p@),
{
    let n = s.unicode_len();
    let m = p.unicode_len();
    if m > n {
        return false;
    }
    let mut i: usize = 0;
    while i < m
        invariant
            m == p@.len(),
            n == s@.len(),
            m <= n,
            i <= m,
            forall|j: int| 0 <= j < i ==> s@[j] == p@[j],
        decreases m - i,
    {
        if s.get_char(i) != p.get_char(i) {
            assert(s@.subrange(0, m as int)[i as int] != p@[i as int]);
            return false;
        }
        i = i + 1;
    }
    assert(s@.subrange(0, m as int) =~= p@);
    true
}

/// The first line of `text`, as `str::lines` would give it; the empty line
/// when `text` is empty.
pub fn first_line(text: &str) -> (r: &str)
    ensures
        r@ == first_line_of(text@),
{
    let n = text.unicode_len();
    let mut i: usize = 0;
    while i < n && text.get_char(i) != '\n'
        invariant
            n == text@.len(),
            i <= n,
            forall|j: int| 0 <= j < i ==> text@[j] != '\n',
        decreases n - i,
    {
        i = i + 1;
    }
    proof {
        assert(is_line_end(text@, i as int));
        let k = choose|k: int| is_line_end(text@, k);
        lemma_line_end_unique(text@, i as int, k);
    }
    if i == n {
        return text;
    }
    if i > 0 && text.get_char(i - 1) == '\r' {
        text.substring_char(0, i - 1)
    } else {
        text.substring_char(0, i)
    }
}

} // verus!
