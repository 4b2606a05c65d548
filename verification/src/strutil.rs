//! Verified helpers on strings: equality, ASCII-case-insensitive suffix
//! tests, and concatenation, stated over the `Seq<char>` views.

use vstd::prelude::*;

verus! {

/// True when `a` and `b` denote the same character sequence.
pub fn str_eq(a: &str, b: &str) -> (r: bool)
    ensures
        r == (a@ == b@),
{
    let n = a.unicode_len();
    if n != b.unicode_len() {
        return false;
    }
    let mut i: usize = 0;
    while i < n
        invariant
            n == a@.len(),
            n == b@.len(),
            i <= n,
            forall|j: int| 0 <= j < i ==> a@[j] == b@[j],
        decreases n - i,
    {
        if a.get_char(i) != b.get_char(i) {
            return false;
        }
        i += 1;
    }
    proof {
        assert(a@ =~= b@);
    }
    true
}

/// The ASCII-lowercased form of one character; characters outside `A..Z`
/// are unchanged.
pub open spec fn lower_ascii(c: char) -> char {
    if 'A' <= c && c <= 'Z' {
        ((c as u8) + 32) as char
    } else {
        c
    }
}

/// Executable twin of `lower_ascii`.
pub fn to_lower_ascii(c: char) -> (r: char)
    ensures
        r == lower_ascii(c),
{
    if 'A' <= c && c <= 'Z' {
        ((c as u8) + 32) as char
    } else {
        c
    }
}

/// `s` ends with `suffix`, comparing characters ASCII-case-insensitively.
pub open spec fn ends_with_ci(s: Seq<char>, suffix: Seq<char>) -> bool {
    suffix.len() <= s.len() && forall|i: int|
        0 <= i < suffix.len() ==> lower_ascii(s[s.len() - suffix.len() + i]) == lower_ascii(
            suffix[i],
        )
}

/// True when `s` ends with `suffix` up to ASCII case.
pub fn ends_with_ignore_ascii_case(s: &str, suffix: &str) -> (r: bool)
    ensures
        r == ends_with_ci(s@, suffix@),
{
    let n = s.unicode_len();
    let m = suffix.unicode_len();
    if m > n {
        return false;
    }
    let mut i: usize = 0;
    while i < m
        invariant
            n == s@.len(),
            m == suffix@.len(),
            m <= n,
            i <= m,
            forall|j: int|
                0 <= j < i ==> lower_ascii(s@[n - m + j]) == lower_ascii(suffix@[j]),
        decreases m - i,
    {
        let a = to_lower_ascii(s.get_char(n - m + i));
        let b = to_lower_ascii(suffix.get_char(i));
        if a != b {
            return false;
        }
        i += 1;
    }
    true
}

/// The concatenation of three strings, as one freshly built `String`.
pub fn concat3(a: &str, b: &str, c: &str) -> (r: String)
    ensures
        r@ == a@ + b@ + c@,
{
    let mut out = a.to_owned();
    out.append(b);
    out.append(c);
    out
}

} // verus!
