//! Character-level text primitives: decoding strings into characters and
//! matching them without regard to ASCII letter case.
//!
//! Letter case is folded for the ASCII letters only: `A`..`Z` are taken as
//! `a`..`z`, and every other character stands for itself.

use vstd::prelude::*;

verus! {

/// The code point of `c`, with an ASCII capital letter replaced by its small
/// form.
pub open spec fn fold(c: char) -> int {
    if 65 <= c as int <= 90 {
        c as int + 32
    } else {
        c as int
    }
}

/// `needle` occurs in `hay` at offset `at`, letter case aside.
pub open spec fn matches_at(hay: Seq<char>, needle: Seq<char>, at: int) -> bool {
    &&& 0 <= at
    &&& at + needle.len() <= hay.len()
    &&& forall|k: int| 0 <= k < needle.len() ==> fold(hay[at + k]) == fold(#[trigger] needle[k])
}

/// `needle` occurs somewhere in `hay`, letter case aside. The empty needle
/// occurs in every text.
pub open spec fn contains_fold(hay: Seq<char>, needle: Seq<char>) -> bool {
    exists|at: int| matches_at(hay, needle, at)
}

/// The two texts have the same length and agree character by character,
/// letter case aside.
pub open spec fn equal_fold(a: Seq<char>, b: Seq<char>) -> bool {
    a.len() == b.len() && matches_at(a, b, 0)
}

/// The characters of `s`, in order.
pub fn chars_of(s: &str) -> (out: Vec<char>)
    ensures
        out@ == s@,
{
    let mut out: Vec<char> = Vec::new();
    for c in it: s.chars()
        invariant
            it.seq() == s@,
            out@ == it.seq().take(it.index()),
    {
        out.push(c);
    }
    out
}

/// The folded code point of `c`.
pub fn fold_code(c: char) -> (code: u32)
    ensures
        code == fold(c),
{
    let x: u32 = c as u32;
    if 65 <= x && x <= 90 {
        x + 32
    } else {
        x
    }
}

/// Whether `needle` occurs in `hay` at offset `at`, letter case aside.
pub fn occurs_at(hay: &Vec<char>, needle: &Vec<char>, at: usize) -> (found: bool)
    ensures
        found == matches_at(hay@, needle@, at as int),
{
    if at > hay.len() || needle.len() > hay.len() - at {
        return false;
    }
    let mut k: usize = 0;
    while k < needle.len()
        invariant
            k <= needle.len(),
            at + needle.len() <= hay.len(),
            forall|j: int| 0 <= j < k ==> fold(hay@[at + j]) == fold(#[trigger] needle@[j]),
        decreases needle.len() - k,
    {
        if fold_code(hay[at + k]) != fold_code(needle[k]) {
            return false;
        }
        k += 1;
    }
    true
}

/// Whether `needle` occurs somewhere in `hay`, letter case aside.
pub fn contains_ignoring_case(hay: &Vec<char>, needle: &Vec<char>) -> (found: bool)
    ensures
        found == contains_fold(hay@, needle@),
{
    if needle.len() > hay.len() {
        return false;
    }
    let last: usize = hay.len() - needle.len();
    let mut at: usize = 0;
    loop
        invariant
            at <= last,
            last == hay.len() - needle.len(),
            forall|a: int| 0 <= a < at ==> !matches_at(hay@, needle@, a),
        decreases last - at,
    {
        if occurs_at(hay, needle, at) {
            return true;
        }
        if at == last {
            return false;
        }
        at += 1;
    }
}

/// Whether the text `hay` contains `needle`, letter case aside.
pub fn text_contains(hay: &str, needle: &Vec<char>) -> (found: bool)
    ensures
        found == contains_fold(hay@, needle@),
{
    let decoded = chars_of(hay);
    contains_ignoring_case(&decoded, needle)
}

/// Whether two character sequences are the same, letter case aside.
pub fn equal_ignoring_case(a: &Vec<char>, b: &Vec<char>) -> (same: bool)
    ensures
        same == equal_fold(a@, b@),
{
    a.len() == b.len() && occurs_at(a, b, 0)
}

/// Whether two texts consist of exactly the same characters.
pub fn same_text(a: &str, b: &str) -> (same: bool)
    ensures
        same == (a@ == b@),
{
    let x = chars_of(a);
    let y = chars_of(b);
    if x.len() != y.len() {
        return false;
    }
    let mut k: usize = 0;
    while k < x.len()
        invariant
            k <= x.len(),
            x.len() == y.len(),
            x@ == a@,
            y@ == b@,
            forall|j: int| 0 <= j < k ==> x@[j] == y@[j],
        decreases x.len() - k,
    {
        if x[k] != y[k] {
            assert(a@[k as int] != b@[k as int]);
            return false;
        }
        k += 1;
    }
    assert(x@ =~= y@);
    true
}

} // verus!
