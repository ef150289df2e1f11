//! TMDB request keys and the CDN address of an image path.
use vstd::prelude::*;
use crate::numfmt::{signed_dec_chars, signed_dec_text};
use crate::text::{chars_of, chars_eq, concat_chars, eq_pred, skip_while, split_chars, split_on, string_of, suffix_from};

verus! {

/// An image path with a leading `/`.
pub open spec fn normalized_image_path(path: Seq<char>) -> Seq<char> {
    if path.len() > 0 && path[0] == '/' {
        path
    } else {
        seq!['/'] + path
    }
}

/// Gives an image path its leading `/`, so that cache keys are stable.
pub fn normalize_image_path(path: &str) -> (res: String)
    ensures
        res@ == normalized_image_path(path@),
{
    let p = chars_of(path);
    if p.len() > 0 && p[0] == '/' {
        string_of(&p)
    } else {
        let mut slash: Vec<char> = Vec::new();
        slash.push('/');
        string_of(&concat_chars(&slash, &p))
    }
}

/// Whether an image path names a size: its first segment (after the
/// leading slashes, and followed by another `/`) starts with `w` or is
/// `original`.
pub open spec fn names_size(path: Seq<char>) -> bool {
    let t = path.skip(skip_while(path, eq_pred('/'), 0));
    let segs = split_on(t, '/');
    segs.len() > 1 && ((segs[0].len() > 0 && segs[0][0] == 'w') || segs[0] == "original"@)
}

/// The CDN address of an image path: under `/t/p` when the path names a
/// size, else under `/t/p/original`.
pub open spec fn image_cdn_url_spec(path: Seq<char>) -> Seq<char> {
    if names_size(path) {
        "https://image.tmdb.org/t/p"@ + path
    } else {
        "https://image.tmdb.org/t/p/original"@ + path
    }
}

/// The CDN address an image path is fetched from.
pub fn image_cdn_url(path: &str) -> (res: String)
    ensures
        res@ == image_cdn_url_spec(path@),
{
    let p = chars_of(path);
    let ghost pred = eq_pred('/');
    let mut a: usize = 0;
    while a < p.len() && p[a] == '/'
        invariant
            a <= p@.len(),
            pred == eq_pred('/'),
            p@ == path@,
            skip_while(p@, pred, 0) == skip_while(p@, pred, a as int),
        decreases p@.len() - a,
    {
        assert(pred(p@[a as int]));
        a = a + 1;
    }
    let t = suffix_from(&p, a);
    let segs = split_chars(&t, '/');
    let sized = if segs.len() > 1 {
        assert(segs@[0]@ == split_on(t@, '/')[0]);
        (segs[0].len() > 0 && segs[0][0] == 'w') || chars_eq(&segs[0], &chars_of("original"))
    } else {
        false
    };
    let base = if sized {
        chars_of("https://image.tmdb.org/t/p")
    } else {
        chars_of("https://image.tmdb.org/t/p/original")
    };
    string_of(&concat_chars(&base, &p))
}

/// The single-flight key of an image download: `tmdb:image:<path>`.
pub fn image_flight_key(normalized: &str) -> (res: String)
    ensures
        res@ == "tmdb:image:"@ + normalized@,
{
    string_of(&concat_chars(&chars_of("tmdb:image:"), &chars_of(normalized)))
}

/// The single-flight key of a movie fetch: `movie:<id>`.
pub fn movie_flight_key(id: i32) -> (res: String)
    ensures
        res@ == "movie:"@ + signed_dec_text(id as int),
{
    string_of(&concat_chars(&chars_of("movie:"), &signed_dec_chars(id as i64)))
}

/// The single-flight key of a generic object fetch: `tmdb:<kind>:<key>`.
pub fn object_flight_key(kind: &str, key: &str) -> (res: String)
    ensures
        res@ == "tmdb:"@ + kind@ + ":"@ + key@,
{
    let a = concat_chars(&chars_of("tmdb:"), &chars_of(kind));
    let b = concat_chars(&a, &chars_of(":"));
    string_of(&concat_chars(&b, &chars_of(key)))
}

/// The stored key of a season: `<show id>:<season>`.
pub fn season_key(id: i32, n: i32) -> (res: String)
    ensures
        res@ == signed_dec_text(id as int) + ":"@ + signed_dec_text(n as int),
{
    let a = concat_chars(&signed_dec_chars(id as i64), &chars_of(":"));
    string_of(&concat_chars(&a, &signed_dec_chars(n as i64)))
}

/// The stored key of an episode: `<show id>:<season>:<episode>`.
pub fn episode_key(id: i32, s: i32, e: i32) -> (res: String)
    ensures
        res@ == signed_dec_text(id as int) + ":"@ + signed_dec_text(s as int) + ":"@ + signed_dec_text(e as int),
{
    let a = concat_chars(&signed_dec_chars(id as i64), &chars_of(":"));
    let b = concat_chars(&a, &signed_dec_chars(s as i64));
    let c = concat_chars(&b, &chars_of(":"));
    string_of(&concat_chars(&c, &signed_dec_chars(e as i64)))
}

} // verus!
