use vstd::prelude::*;

verus! {

/// True when `s` begins with `prefix`.
pub open spec fn has_prefix(s: Seq<char>, prefix: Seq<char>) -> bool {
    prefix.len() <= s.len() && s.subrange(0, prefix.len() as int) == prefix
}

/// True when `needle` occurs in `s` at position `i`.
pub open spec fn occurs_at(s: Seq<char>, needle: Seq<char>, i: int) -> bool {
    0 <= i && i + needle.len() <= s.len() && s.subrange(i, i + needle.len()) == needle
}

/// True when `needle` occurs somewhere in `s`.
pub open spec fn has_infix(s: Seq<char>, needle: Seq<char>) -> bool {
    exists|i: int| occurs_at(s, needle, i)
}

/// Compares the characters of `a`, from position `start`, with those of `b`.
fn matches_from(a: &str, start: usize, a_len: usize, b: &str, b_len: usize) -> (r: bool)
    requires
        a_len == a@.len(),
        b_len == b@.len(),
        start + b_len <= a_len,
    ensures
        r == (a@.subrange(start as int, start + b_len) == b@),
{
    let mut i: usize = 0;
    while i < b_len
        invariant
            a_len == a@.len(),
            b_len == b@.len(),
            start + b_len <= a_len,
            i <= b_len,
            forall|j: int| 0 <= j < i ==> a@[start + j] == b@[j],
        decreases b_len - i,
    {
        if a.get_char(start + i) != b.get_char(i) {
            assert(a@.subrange(start as int, start + b_len)[i as int] != b@[i as int]);
            return false;
        }
        i = i + 1;
    }
    assert(a@.subrange(start as int, start + b_len) =~= b@);
    true
}

/// Character-wise equality of two strings.
pub fn str_eq(a: &str, b: &str) -> (r: bool)
    ensures
        r == (a@ == b@),
{
    let a_len = a.unicode_len();
    let b_len = b.unicode_len();
    if a_len != b_len {
        return false;
    }
    let r = matches_from(a, 0, a_len, b, b_len);
    assert(a@.subrange(0, a_len as int) =~= a@);
    r
}

/// Whether `s` begins with `prefix`.
pub fn starts_with(s: &str, prefix: &str) -> (r: bool)
    ensures
        r == has_prefix(s@, prefix@),
{
    let s_len = s.unicode_len();
    let p_len = prefix.unicode_len();
    if p_len > s_len {
        return false;
    }
    matches_from(s, 0, s_len, prefix, p_len)
}

/// Whether `needle` occurs somewhere in `s`.
pub fn contains(s: &str, needle: &str) -> (r: bool)
    ensures
        r == has_infix(s@, needle@),
{
    let s_len = s.unicode_len();
    let n_len = needle.unicode_len();
    if n_len > s_len {
        return false;
    }
    let last = s_len - n_len;
    let mut i: usize = 0;
    while i < last
        invariant
            s_len == s@.len(),
            n_len == needle@.len(),
            last == s_len - n_len,
            i <= last,
            forall|j: int| 0 <= j < i ==> !occurs_at(s@, needle@, j),
        decreases last - i,
    {
        if matches_from(s, i, s_len, needle, n_len) {
            assert(occurs_at(s@, needle@, i as int));
            return true;
        }
        i = i + 1;
    }
    if matches_from(s, last, s_len, needle, n_len) {
        assert(occurs_at(s@, needle@, last as int));
        return true;
    }
    assert forall|j: int| !occurs_at(s@, needle@, j) by {
        if 0 <= j < i {
        }
    }
    false
}

} // verus!
