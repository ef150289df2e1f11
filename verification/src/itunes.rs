//! Album-cover lookups on iTunes search results.
use vstd::prelude::*;
use crate::error::AppError;
use crate::text::{chars_of, concat_chars, contains_chars, has_infix, has_prefix, starts_with, string_of, trim, trim_ws};

verus! {

/// The Unicode lower-casing of a string, as `str::to_lowercase` computes it.
pub uninterp spec fn lowercase_of(s: Seq<char>) -> Seq<char>;

/// `str::to_lowercase`. Trusted: the result is the named function
/// `lowercase_of` of the characters (the Unicode case mapping is not
/// restated here).
#[verifier::external_body]
fn to_lowercase(s: &str) -> (res: String)
    ensures
        res@ == lowercase_of(s@),
{
    s.to_lowercase()
}

/// `s` with every non-overlapping occurrence of `from`, scanning left to
/// right, replaced by `to` (as `str::replace` for a non-empty `from`).
pub open spec fn replace_spec(s: Seq<char>, from: Seq<char>, to: Seq<char>) -> Seq<char>
    decreases s.len(),
{
    if from.len() == 0 || s.len() < from.len() {
        s
    } else if s.take(from.len() as int) == from {
        to + replace_spec(s.skip(from.len() as int), from, to)
    } else {
        seq![s[0]] + replace_spec(s.skip(1), from, to)
    }
}

/// `str::replace` for a non-empty pattern, on characters.
pub fn replace_all(s: &[char], from: &[char], to: &[char]) -> (res: Vec<char>)
    requires
        from@.len() > 0,
    ensures
        res@ == replace_spec(s@, from@, to@),
{
    let mut out: Vec<char> = Vec::new();
    let mut i: usize = 0;
    assert(s@.skip(0) =~= s@);
    assert(out@ + replace_spec(s@.skip(0), from@, to@) =~= replace_spec(s@, from@, to@));
    while i < s.len()
        invariant
            i <= s@.len(),
            from@.len() > 0,
            out@ + replace_spec(s@.skip(i as int), from@, to@) == replace_spec(s@, from@, to@),
        decreases s@.len() - i,
    {
        let ghost rest = s@.skip(i as int);
        if s.len() - i >= from.len() && starts_with(&crate::text::suffix_from(s, i), from) {
            assert(rest.take(from@.len() as int) == from@);
            assert(rest.skip(from@.len() as int) =~= s@.skip(i + from@.len()));
            let ghost before = out@;
            out = concat_chars(&out, to);
            i = i + from.len();
            assert(out@ + replace_spec(s@.skip(i as int), from@, to@) =~= before + replace_spec(rest, from@, to@));
        } else {
            assert(rest.len() < from@.len() || rest.take(from@.len() as int) != from@);
            if s.len() - i < from.len() {
                assert(replace_spec(rest, from@, to@) == rest);
                out = concat_chars(&out, &crate::text::suffix_from(s, i));
                assert(out@ =~= replace_spec(s@, from@, to@));
                assert(s@.skip(s@.len() as int) =~= Seq::<char>::empty());
                assert(replace_spec(s@.skip(s@.len() as int), from@, to@) =~= Seq::<char>::empty());
                assert(out@ + replace_spec(s@.skip(s@.len() as int), from@, to@) =~= out@);
                return out;
            }
            assert(rest.skip(1) =~= s@.skip(i + 1));
            let ghost before = out@;
            out.push(s[i]);
            i = i + 1;
            assert(out@ + replace_spec(s@.skip(i as int), from@, to@) =~= before + replace_spec(rest, from@, to@));
        }
    }
    assert(s@.skip(i as int) =~= Seq::<char>::empty());
    assert(out@ + replace_spec(s@.skip(i as int), from@, to@) =~= out@);
    out
}

/// An album-cover request: the trimmed artist and album, and the cache key
/// `itunes:cover:<artist, lower-cased>|<album, lower-cased>`.
pub struct AlbumCoverRequest {
    pub artist: String,
    pub album: String,
    pub album_lower: String,
    pub cache_key: String,
}

/// The text of an optional parameter, empty when absent.
pub open spec fn param_or_empty(p: Option<&str>) -> Seq<char> {
    match p {
        Some(s) => s@,
        None => Seq::empty(),
    }
}

/// Validates an album-cover request: artist and album, trimmed, must both be
/// non-empty, else `artist and album required`.
pub fn album_cover_request(artist: Option<&str>, album: Option<&str>) -> (res: Result<AlbumCoverRequest, AppError>)
    ensures
        ({
            let a = trim(param_or_empty(artist));
            let b = trim(param_or_empty(album));
            if a.len() == 0 || b.len() == 0 {
                res matches Err(AppError::BadRequest(m)) && m@ == "artist and album required"@
            } else {
                res matches Ok(r) && r.artist@ == a && r.album@ == b && r.album_lower@ == lowercase_of(b)
                    && r.cache_key@ == "itunes:cover:"@ + lowercase_of(a) + "|"@ + lowercase_of(b)
            }
        }),
{
    let a_raw = match artist {
        Some(s) => chars_of(s),
        None => Vec::new(),
    };
    let b_raw = match album {
        Some(s) => chars_of(s),
        None => Vec::new(),
    };
    assert(a_raw@ == param_or_empty(artist));
    assert(b_raw@ == param_or_empty(album));
    let a = trim_ws(&a_raw);
    let b = trim_ws(&b_raw);
    if a.len() == 0 || b.len() == 0 {
        return Err(AppError::BadRequest(string_of(&chars_of("artist and album required"))));
    }
    let artist_s = string_of(&a);
    let album_s = string_of(&b);
    let artist_lower = to_lowercase(artist_s.as_str());
    let album_lower = to_lowercase(album_s.as_str());
    let k1 = concat_chars(&chars_of("itunes:cover:"), &chars_of(artist_lower.as_str()));
    let k2 = concat_chars(&k1, &chars_of("|"));
    let k3 = concat_chars(&k2, &chars_of(album_lower.as_str()));
    Ok(AlbumCoverRequest { artist: artist_s, album: album_s, album_lower, cache_key: string_of(&k3) })
}

/// One search result, as far as the cover choice reads it: its
/// `collectionName` and `artworkUrl100` when they are strings.
pub struct CoverCandidate {
    pub collection_name: Option<String>,
    pub artwork_url: Option<String>,
}

/// Whether a result's collection name and the album, both lower-cased,
/// contain one another.
pub open spec fn names_overlap(name: Seq<char>, album_lower: Seq<char>) -> bool {
    has_infix(lowercase_of(name), album_lower) || has_infix(album_lower, lowercase_of(name))
}

/// The high-resolution variant of a 100px artwork URL.
pub open spec fn high_res_spec(url: Seq<char>) -> Seq<char> {
    replace_spec(replace_spec(url, "100x100bb"@, "3000x3000bb"@), "/100x100"@, "/3000x3000"@)
}

/// The cover chosen among results `c` from index `i` on: the high-resolution
/// artwork of the first result whose collection name overlaps the album and
/// that has artwork.
pub open spec fn pick_from(c: Seq<CoverCandidate>, album_lower: Seq<char>, i: int) -> Option<Seq<char>>
    decreases c.len() - i,
{
    if i < 0 || i >= c.len() {
        None
    } else if c[i].collection_name matches Some(n) && names_overlap(n@, album_lower) && c[i].artwork_url is Some {
        Some(high_res_spec(c[i].artwork_url.unwrap()@))
    } else {
        pick_from(c, album_lower, i + 1)
    }
}

/// The URL of the 3000px cover for `album` among the search results
/// (`None` when the response had no result array).
pub fn pick_cover_url(results: &Option<Vec<CoverCandidate>>, album: &str) -> (res: Option<String>)
    ensures
        match results {
            None => res is None,
            Some(c) => match res {
                Some(u) => pick_from(c@, lowercase_of(album@), 0) == Some(u@),
                None => pick_from(c@, lowercase_of(album@), 0) is None,
            },
        },
{
    let c = match results {
        Some(c) => c,
        None => {
            return None;
        },
    };
    let album_lower = to_lowercase(album);
    let al = chars_of(album_lower.as_str());
    let from1 = chars_of("100x100bb");
    let to1 = chars_of("3000x3000bb");
    let from2 = chars_of("/100x100");
    let to2 = chars_of("/3000x3000");
    proof {
        reveal_strlit("100x100bb");
        reveal_strlit("/100x100");
    }
    let mut i: usize = 0;
    while i < c.len()
        invariant
            i <= c@.len(),
            *results == Some(*c),
            al@ == lowercase_of(album@),
            from1@ == "100x100bb"@,
            to1@ == "3000x3000bb"@,
            from2@ == "/100x100"@,
            to2@ == "/3000x3000"@,
            from1@.len() > 0,
            from2@.len() > 0,
            pick_from(c@, al@, 0) == pick_from(c@, al@, i as int),
        decreases c@.len() - i,
    {
        match &c[i].collection_name {
            Some(name) => {
                let nl = chars_of(to_lowercase(name.as_str()).as_str());
                if contains_chars(&nl, &al) || contains_chars(&al, &nl) {
                    match &c[i].artwork_url {
                        Some(url) => {
                            assert(pick_from(c@, al@, i as int) == Some(high_res_spec(url@)));
                            let r1 = replace_all(&chars_of(url.as_str()), &from1, &to1);
                            let r2 = replace_all(&r1, &from2, &to2);
                            return Some(string_of(&r2));
                        },
                        None => {},
                    }
                }
            },
            None => {},
        }
        i = i + 1;
    }
    None
}

} // verus!
