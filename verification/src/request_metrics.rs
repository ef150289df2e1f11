//! What the request-metrics middleware records of a request: the provider a
//! path belongs to, whether the response was a cache hit, and its duration.
use vstd::prelude::*;
use crate::text::{chars_eq, chars_of, split_chars, split_on, string_of, views};

verus! {

/// Path segments that name no provider.
pub open spec fn is_reserved_segment(seg: Seq<char>) -> bool {
    seg == "api"@ || seg == "admin"@ || seg == "health"@ || seg == "login"@
}

/// The first segment at or after index `i` that is non-empty and not
/// reserved.
pub open spec fn first_provider_from(segs: Seq<Seq<char>>, i: int) -> Option<Seq<char>>
    decreases segs.len() - i,
{
    if i < 0 || i >= segs.len() {
        None
    } else if segs[i].len() > 0 && !is_reserved_segment(segs[i]) {
        Some(segs[i])
    } else {
        first_provider_from(segs, i + 1)
    }
}

/// The provider a request path belongs to: its first non-empty `/`-separated
/// segment other than `api`, `admin`, `health` and `login`.
pub open spec fn provider_of_path(path: Seq<char>) -> Option<Seq<char>> {
    first_provider_from(split_on(path, '/'), 0)
}

/// ASCII upper-casing of one character.
pub open spec fn ascii_upper(c: char) -> char {
    if 'a' <= c <= 'z' {
        ((c as u32) - 32) as char
    } else {
        c
    }
}

/// Whether a response's `x-cache` header value says `HIT`, ignoring ASCII case.
pub open spec fn is_hit_value(v: Seq<char>) -> bool {
    v.len() == 3 && ascii_upper(v[0]) == 'H' && ascii_upper(v[1]) == 'I' && ascii_upper(v[2]) == 'T'
}

/// ASCII upper-casing of one character.
pub fn upper(c: char) -> (res: char)
    ensures
        res == ascii_upper(c),
{
    if 'a' <= c && c <= 'z' {
        let b: u8 = (c as u8) - 32;
        b as char
    } else {
        c
    }
}

fn is_reserved(seg: &[char]) -> (res: bool)
    ensures
        res == is_reserved_segment(seg@),
{
    chars_eq(seg, &chars_of("api")) || chars_eq(seg, &chars_of("admin")) || chars_eq(
        seg,
        &chars_of("health"),
    ) || chars_eq(seg, &chars_of("login"))
}

/// The provider a request path belongs to, if any.
pub fn extract_provider(path: &str) -> (res: Option<String>)
    ensures
        match res {
            Some(p) => provider_of_path(path@) == Some(p@),
            None => provider_of_path(path@) is None,
        },
{
    let segs = split_chars(&chars_of(path), '/');
    let ghost sv = split_on(path@, '/');
    let mut i: usize = 0;
    while i < segs.len()
        invariant
            views(segs@) == sv,
            sv == split_on(path@, '/'),
            i <= segs.len(),
            first_provider_from(sv, 0) == first_provider_from(sv, i as int),
        decreases segs.len() - i,
    {
        assert(sv[i as int] == segs@[i as int]@);
        if segs[i].len() > 0 && !is_reserved(&segs[i]) {
            return Some(string_of(&segs[i]));
        }
        i = i + 1;
    }
    None
}

/// Whether the `x-cache` header value marks a cache hit (`HIT`, any ASCII
/// case); a missing header is a miss.
pub fn is_cache_hit(header: Option<&str>) -> (res: bool)
    ensures
        res == match header {
            Some(v) => is_hit_value(v@),
            None => false,
        },
{
    match header {
        Some(v) => {
            let c = chars_of(v);
            c.len() == 3 && upper(c[0]) == 'H' && upper(c[1]) == 'I' && upper(c[2]) == 'T'
        },
        None => false,
    }
}

/// A request's duration in milliseconds, saturated at `u32::MAX`.
pub fn duration_ms_from(elapsed_ms: u128) -> (res: u32)
    ensures
        res == (if elapsed_ms > u32::MAX { u32::MAX as int } else { elapsed_ms as int }),
{
    if elapsed_ms > u32::MAX as u128 {
        u32::MAX
    } else {
        elapsed_ms as u32
    }
}

} // verus!
