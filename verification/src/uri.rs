//! Recognition of identifiers that address an object on another host.
//!
//! An identifier is read as `scheme "://" host [":" port] rest`, where the
//! scheme is `http` or `https` in any letter case, the host is a non-empty
//! run of letters, digits, `-` and `.`, the port is a non-empty run of
//! digits, and the rest is empty or begins with `/`, `?` or `#`.

use crate::text::{chars_of, equal_fold, equal_ignoring_case, matches_at, occurs_at};
use vstd::prelude::*;

verus! {

/// `c` may stand in a host name.
pub open spec fn is_host_char(c: char) -> bool {
    ||| 97 <= c as int <= 122
    ||| 65 <= c as int <= 90
    ||| 48 <= c as int <= 57
    ||| c == '-'
    ||| c == '.'
}

/// `c` is a decimal digit.
pub open spec fn is_digit(c: char) -> bool {
    48 <= c as int <= 57
}

/// `c` ends the authority part of an identifier.
pub open spec fn ends_authority(c: char) -> bool {
    c == '/' || c == '?' || c == '#'
}

/// `text[from..to]` is the longest run of host characters that starts at
/// `from`.
pub open spec fn host_run(text: Seq<char>, from: int, to: int) -> bool {
    &&& 0 <= from <= to <= text.len()
    &&& forall|i: int| from <= i < to ==> is_host_char(#[trigger] text[i])
    &&& to < text.len() ==> !is_host_char(text[to])
}

/// `text[from..to]` is the longest run of digits that starts at `from`.
pub open spec fn digit_run(text: Seq<char>, from: int, to: int) -> bool {
    &&& 0 <= from <= to <= text.len()
    &&& forall|i: int| from <= i < to ==> is_digit(#[trigger] text[i])
    &&& to < text.len() ==> !is_digit(text[to])
}

/// The length of the scheme and the `://` behind it, where `text` begins
/// with one of the two schemes.
pub open spec fn scheme_length(text: Seq<char>) -> Option<int> {
    if matches_at(text, "http://"@, 0) {
        Some("http://"@.len() as int)
    } else if matches_at(text, "https://"@, 0) {
        Some("https://"@.len() as int)
    } else {
        None
    }
}

/// What follows the host at `end` is well formed: nothing, the start of
/// the rest, or a port and then nothing or the start of the rest.
pub open spec fn host_is_closed(text: Seq<char>, end: int) -> bool {
    end < text.len() ==> {
        ||| ends_authority(text[end])
        ||| text[end] == ':' && exists|stop: int|
            {
                &&& end + 1 < stop
                &&& #[trigger] digit_run(text, end + 1, stop)
                &&& stop < text.len() ==> ends_authority(text[stop])
            }
    }
}

/// `text` is an identifier whose host is `text[start..end]`.
pub open spec fn names_host(text: Seq<char>, start: int, end: int) -> bool {
    &&& scheme_length(text) == Some(start)
    &&& start < end
    &&& host_run(text, start, end)
    &&& host_is_closed(text, end)
}

/// The host that `text` addresses, if `text` is an identifier.
pub open spec fn host_of(text: Seq<char>) -> Option<Seq<char>> {
    if exists|start: int, end: int| names_host(text, start, end) {
        let (start, end) = choose|start: int, end: int| names_host(text, start, end);
        Some(text.subrange(start, end))
    } else {
        None
    }
}

/// `text` is an identifier that addresses a host other than `local_host`.
/// Host names are compared without regard to letter case.
pub open spec fn is_remote(text: Seq<char>, local_host: Seq<char>) -> bool {
    host_of(text) matches Some(host) && !equal_fold(host, local_host)
}

/// An identifier has one host only.
pub proof fn lemma_host_is_unique(text: Seq<char>, s1: int, e1: int, s2: int, e2: int)
    requires
        names_host(text, s1, e1),
        names_host(text, s2, e2),
    ensures
        s1 == s2,
        e1 == e2,
{
    if e1 < e2 {
        assert(is_host_char(text[e1]));
    }
    if e2 < e1 {
        assert(is_host_char(text[e2]));
    }
}

/// Whether `c` may stand in a host name.
fn host_char(c: char) -> (yes: bool)
    ensures
        yes == is_host_char(c),
{
    let code: u32 = c as u32;
    (97 <= code && code <= 122) || (65 <= code && code <= 90) || (48 <= code && code <= 57) || c
        == '-' || c == '.'
}

/// Whether `c` is a decimal digit.
fn digit_char(c: char) -> (yes: bool)
    ensures
        yes == is_digit(c),
{
    let code: u32 = c as u32;
    48 <= code && code <= 57
}

/// Whether `c` ends the authority part of an identifier.
fn closes_authority(c: char) -> (yes: bool)
    ensures
        yes == ends_authority(c),
{
    c == '/' || c == '?' || c == '#'
}

/// Whether `text` begins with `prefix`, letter case aside.
fn starts_with(text: &Vec<char>, prefix: &Vec<char>) -> (yes: bool)
    ensures
        yes == matches_at(text@, prefix@, 0),
{
    occurs_at(text, prefix, 0)
}

/// The length of the scheme part of `text`.
fn scheme_end(text: &Vec<char>) -> (end: Option<usize>)
    ensures
        match end {
            Some(n) => scheme_length(text@) == Some(n as int) && n <= text.len(),
            None => scheme_length(text@) is None,
        },
{
    let http = chars_of("http://");
    let https = chars_of("https://");
    if starts_with(text, &http) {
        Some(http.len())
    } else if starts_with(text, &https) {
        Some(https.len())
    } else {
        None
    }
}

/// The end of the longest run of host characters that starts at `from`.
fn host_end(text: &Vec<char>, from: usize) -> (to: usize)
    requires
        from <= text.len(),
    ensures
        host_run(text@, from as int, to as int),
{
    let mut to: usize = from;
    while to < text.len() && host_char(text[to])
        invariant
            from <= to <= text.len(),
            forall|i: int| from <= i < to ==> is_host_char(#[trigger] text@[i]),
        decreases text.len() - to,
    {
        to += 1;
    }
    to
}

/// The end of the longest run of digits that starts at `from`.
fn digits_end(text: &Vec<char>, from: usize) -> (to: usize)
    requires
        from <= text.len(),
    ensures
        digit_run(text@, from as int, to as int),
{
    let mut to: usize = from;
    while to < text.len() && digit_char(text[to])
        invariant
            from <= to <= text.len(),
            forall|i: int| from <= i < to ==> is_digit(#[trigger] text@[i]),
        decreases text.len() - to,
    {
        to += 1;
    }
    to
}

/// Whether what follows the host at `end` is well formed.
fn closed_at(text: &Vec<char>, end: usize) -> (yes: bool)
    requires
        end <= text.len(),
    ensures
        yes == host_is_closed(text@, end as int),
{
    if end == text.len() {
        return true;
    }
    if closes_authority(text[end]) {
        return true;
    }
    if text[end] != ':' {
        return false;
    }
    let stop = digits_end(text, end + 1);
    let yes = end + 1 < stop && (stop == text.len() || closes_authority(text[stop]));
    proof {
        if !yes {
            assert forall|other: int|
                end + 1 < other && #[trigger] digit_run(text@, end + 1, other) implies !(other
                < text.len() ==> ends_authority(text@[other])) by {
                if other < stop {
                    assert(is_digit(text@[other]));
                }
                if stop < other {
                    assert(is_digit(text@[stop as int]));
                }
            }
        }
    }
    yes
}

/// The host that `text` addresses, if `text` is an identifier.
pub fn host_of_identifier(text: &Vec<char>) -> (host: Option<Vec<char>>)
    ensures
        match host {
            Some(h) => host_of(text@) == Some(h@),
            None => host_of(text@) is None,
        },
{
    let start = match scheme_end(text) {
        Some(n) => n,
        None => {
            return None;
        },
    };
    let end = host_end(text, start);
    if end == start || !closed_at(text, end) {
        proof {
            assert forall|s: int, e: int| !names_host(text@, s, e) by {
                if names_host(text@, s, e) {
                    if e < end {
                        assert(is_host_char(text@[e]));
                    }
                    if end < e {
                        assert(is_host_char(text@[end as int]));
                    }
                }
            }
        }
        return None;
    }
    let mut host: Vec<char> = Vec::new();
    let mut i: usize = start;
    while i < end
        invariant
            start <= i <= end <= text.len(),
            host@ == text@.subrange(start as int, i as int),
        decreases end - i,
    {
        host.push(text[i]);
        assert(text@.subrange(start as int, i as int).push(text@[i as int]) =~= text@.subrange(
            start as int,
            i + 1,
        ));
        i += 1;
    }
    proof {
        assert(names_host(text@, start as int, end as int));
        let (s, e) = choose|s: int, e: int| names_host(text@, s, e);
        lemma_host_is_unique(text@, start as int, end as int, s, e);
    }
    Some(host)
}

/// Whether `candidate` is an identifier that addresses a host other than
/// `local_host`.
pub fn addresses_remote_host(candidate: &str, local_host: &str) -> (remote: bool)
    ensures
        remote == is_remote(candidate@, local_host@),
{
    let text = chars_of(candidate);
    match host_of_identifier(&text) {
        Some(host) => {
            let local = chars_of(local_host);
            !equal_ignoring_case(&host, &local)
        },
        None => false,
    }
}

} // verus!
