//! Small verified string utilities shared across the library: equality and
//! prefix tests on `&str`, and trimming of surrounding blank characters.

use vstd::prelude::*;

verus! {

/// Character-for-character equality of two string slices.
pub fn str_eq(a: &str, b: &str) -> (r: bool)
    ensures
        r == (a@ == b@),
{
    let sa: String = a.to_owned();
    let sb: String = b.to_owned();
    sa == sb
}

/// Whether `s` begins with `prefix`, by characters.
pub fn str_starts_with(s: &str, prefix: &str) -> (r: bool)
    ensures
        r == prefix@.is_prefix_of(s@),
{
    let n = prefix.unicode_len();
    if n > s.unicode_len() {
        return false;
    }
    let head = s.substring_char(0, n);
    let r = str_eq(head, prefix);
    proof {
        assert(prefix@.is_prefix_of(s@) == (prefix@ =~= s@.subrange(0, prefix@.len() as int)));
    }
    r
}

/// The blank characters stripped from either end of user input.
pub open spec fn is_blank(c: char) -> bool {
    c == ' ' || c == '\t' || c == '\n' || c == '\r'
}

/// `s` with every leading blank character removed.
pub open spec fn spec_trim_front(s: Seq<char>) -> Seq<char>
    decreases s.len(),
{
    if s.len() > 0 && is_blank(s[0]) {
        spec_trim_front(s.drop_first())
    } else {
        s
    }
}

/// `s` with every trailing blank character removed.
pub open spec fn spec_trim_back(s: Seq<char>) -> Seq<char>
    decreases s.len(),
{
    if s.len() > 0 && is_blank(s.last()) {
        spec_trim_back(s.drop_last())
    } else {
        s
    }
}

/// `s` with blank characters removed from both ends.
pub open spec fn spec_trim(s: Seq<char>) -> Seq<char> {
    spec_trim_back(spec_trim_front(s))
}

proof fn lemma_trim_front_skip(s: Seq<char>, i: int)
    requires
        0 <= i <= s.len(),
        forall|j: int| 0 <= j < i ==> is_blank(s[j]),
    ensures
        spec_trim_front(s) == spec_trim_front(s.skip(i)),
    decreases i,
{
    if i > 0 {
        assert(s.skip(0) =~= s);
        assert(s.len() > 0 && is_blank(s[0]));
        assert(s.drop_first() =~= s.skip(1));
        lemma_trim_front_skip(s.skip(1), i - 1);
        assert(s.skip(1).skip(i - 1) =~= s.skip(i));
    } else {
        assert(s.skip(0) =~= s);
    }
}

proof fn lemma_trim_back_take(s: Seq<char>, i: int)
    requires
        0 <= i <= s.len(),
        forall|j: int| i <= j < s.len() ==> is_blank(s[j]),
    ensures
        spec_trim_back(s) == spec_trim_back(s.take(i)),
    decreases s.len() - i,
{
    if i < s.len() {
        assert(is_blank(s.last()));
        assert(s.drop_last() =~= s.take(s.len() - 1));
        lemma_trim_back_take(s.take(s.len() - 1), i);
        assert(s.take(s.len() - 1).take(i) =~= s.take(i));
    } else {
        assert(s.take(s.len() as int) =~= s);
    }
}

/// Executable test for [`is_blank`].
fn is_blank_char(c: char) -> (r: bool)
    ensures
        r == is_blank(c),
{
    c == ' ' || c == '\t' || c == '\n' || c == '\r'
}

/// Whether the character of `s` at position `i` is blank.
fn blank_at(s: &str, i: usize) -> (r: bool)
    requires
        i < s@.len(),
    ensures
        r == is_blank(s@[i as int]),
{
    is_blank_char(s.get_char(i))
}

/// `s` with blank characters removed from both ends, as the original slice's
/// middle part.
pub fn trim_blank(s: &str) -> (r: String)
    ensures
        r@ == spec_trim(s@),
{
    let len = s.unicode_len();
    let mut start: usize = 0;
    while start < len && blank_at(s, start)
        invariant
            len == s@.len(),
            0 <= start <= len,
            forall|j: int| 0 <= j < start ==> is_blank(s@[j]),
        decreases len - start,
    {
        start = start + 1;
    }
    let mut end: usize = len;
    while end > start && blank_at(s, end - 1)
        invariant
            len == s@.len(),
            0 <= start <= end <= len,
            forall|j: int| 0 <= j < start ==> is_blank(s@[j]),
            forall|j: int| end <= j < len ==> is_blank(s@[j]),
        decreases end,
    {
        end = end - 1;
    }
    let mid = s.substring_char(start, end);
    proof {
        lemma_trim_front_skip(s@, start as int);
        let t = s@.skip(start as int);
        if start < len {
            assert(!is_blank(s@[start as int]));
            assert(t[0] == s@[start as int]);
            assert(spec_trim_front(t) == t);
        } else {
            assert(t.len() == 0);
            assert(spec_trim_front(t) == t);
        }
        lemma_trim_back_take(t, end - start);
        let u = t.take(end - start);
        if end > start {
            assert(!is_blank(s@[end - 1]));
            assert(u.last() == s@[end - 1]);
            assert(spec_trim_back(u) == u);
        } else {
            assert(u.len() == 0);
            assert(spec_trim_back(u) == u);
        }
        assert(u =~= s@.subrange(start as int, end as int));
    }
    mid.to_owned()
}

} // verus!
