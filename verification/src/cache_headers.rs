//! Cache-Control / ETag decisions of the response middleware.
//!
//! The middleware adds `Cache-Control: public, max-age=<N>,
//! stale-while-revalidate=<N/2>` and an xxh3-based `ETag` to successful
//! GET/HEAD responses that have no `Cache-Control` yet, answers a matching
//! `If-None-Match` with `304 Not Modified`, and leaves internal and admin
//! routes alone. Reading the request and the body is the server's part; every
//! decision is made here.
use vstd::prelude::*;
use crate::hashing::{xxh3_64, xxh3_64_of};
use crate::numfmt::{dec_chars, dec_text, hex_chars, hex_text, parse_u64, parse_u64_spec};
use crate::text::{
    chars_eq, chars_of, has_prefix, is_ws, lemma_split_without_sep, lemma_trim_unchanged, split_chars, split_on, starts_with, string_of,
    strip_prefix_chars, strip_prefix_or_self, trim, trim_char, trim_char_chars, trim_ws, views,
};

verus! {

/// TTL used when the handler did not set `X-Cache-TTL`.
pub const DEFAULT_CACHE_TTL: u64 = 300;

/// Whether a request path is an internal or admin route that the middleware
/// leaves alone (`/health`, `/admin`, `/admin/*`, `/_internal`, `/_internal/*`,
/// each with or without a leading `/api`).
pub open spec fn skip_path_spec(path: Seq<char>) -> bool {
    let n = strip_prefix_or_self(path, "/api"@);
    ||| n == "/health"@
    ||| n == "/admin"@
    ||| has_prefix(n, "/admin/"@)
    ||| n == "/_internal"@
    ||| has_prefix(n, "/_internal/"@)
}

/// Whether one `If-None-Match` entry names `etag`: after trimming whitespace
/// and a weak `W/` marker, it equals `etag` either as is or once surrounding
/// quotes are removed from both.
pub open spec fn tag_matches(tag: Seq<char>, etag: Seq<char>) -> bool {
    let n = strip_prefix_or_self(trim(tag), "W/"@);
    n == etag || trim_char(n, '"') == trim_char(etag, '"')
}

/// Whether an `If-None-Match` header value matches `etag`: the wildcard `*`,
/// or any of its comma-separated entries.
pub open spec fn etag_matches_spec(if_none_match: Seq<char>, etag: Seq<char>) -> bool {
    ||| trim(if_none_match) == "*"@
    ||| exists|i: int|
        0 <= i < split_on(if_none_match, ',').len() && #[trigger] tag_matches(
            split_on(if_none_match, ',')[i],
            etag,
        )
}

/// The ETag of a body whose xxh3 hash is `hash`: the hash in lower-case hex,
/// in double quotes.
pub open spec fn etag_text(hash: u64) -> Seq<char> {
    seq!['"'] + hex_text(hash as nat) + seq!['"']
}

/// `public, max-age=<ttl>, stale-while-revalidate=<ttl / 2>`.
pub open spec fn cache_control_text(ttl: u64) -> Seq<char> {
    "public, max-age="@ + dec_text(ttl as nat) + ", stale-while-revalidate="@ + dec_text(
        (ttl / 2) as nat,
    )
}

/// The TTL a response asks for through its `X-Cache-TTL` header value, or the
/// default when the header is absent or not an unsigned integer.
pub open spec fn ttl_spec(header: Option<Seq<char>>) -> u64 {
    match header {
        Some(h) => match parse_u64_spec(h) {
            Some(v) => v,
            None => DEFAULT_CACHE_TTL,
        },
        None => DEFAULT_CACHE_TTL,
    }
}

/// What the middleware does with a successful, cacheable response.
pub enum CachePlan {
    /// The request's `If-None-Match` matched: answer `304 Not Modified` with an
    /// empty body, no `Content-Length`/`Content-Type`, and these headers.
    NotModified { etag: String, cache_control: String },
    /// Send the response with these headers added. For a HEAD request
    /// `head_content_length` is the body's length in decimal and the body is
    /// dropped; for GET it is `None` and the body is sent.
    Decorated { etag: String, cache_control: String, head_content_length: Option<String> },
}

/// Whether the request path is one the middleware leaves alone.
pub fn should_skip_path(path: &str) -> (res: bool)
    ensures
        res == skip_path_spec(path@),
{
    let p = chars_of(path);
    let n = strip_prefix_chars(&p, &chars_of("/api"));
    chars_eq(&n, &chars_of("/health")) || chars_eq(&n, &chars_of("/admin")) || starts_with(
        &n,
        &chars_of("/admin/"),
    ) || chars_eq(&n, &chars_of("/_internal")) || starts_with(&n, &chars_of("/_internal/"))
}

fn tag_matches_exec(tag: &[char], etag: &[char]) -> (res: bool)
    ensures
        res == tag_matches(tag@, etag@),
{
    let t = trim_ws(tag);
    let n = strip_prefix_chars(&t, &chars_of("W/"));
    if chars_eq(&n, etag) {
        return true;
    }
    let a = trim_char_chars(&n, '"');
    let b = trim_char_chars(etag, '"');
    chars_eq(&a, &b)
}

/// Whether the `If-None-Match` value matches the ETag: `*`, or one of its
/// comma-separated entries, exactly or ignoring a weak `W/` marker and
/// surrounding quotes.
pub fn etag_matches(if_none_match: &str, etag: &str) -> (res: bool)
    ensures
        res == etag_matches_spec(if_none_match@, etag@),
{
    let inm = chars_of(if_none_match);
    let e = chars_of(etag);
    if chars_eq(&trim_ws(&inm), &chars_of("*")) {
        return true;
    }
    let pieces = split_chars(&inm, ',');
    let mut i: usize = 0;
    while i < pieces.len()
        invariant
            i <= pieces.len(),
            views(pieces@) == split_on(inm@, ','),
            inm@ == if_none_match@,
            e@ == etag@,
            trim(if_none_match@) != "*"@,
            forall|k: int| 0 <= k < i ==> !#[trigger] tag_matches(split_on(inm@, ',')[k], e@),
        decreases pieces.len() - i,
    {
        assert(views(pieces@)[i as int] == pieces@[i as int]@);
        if tag_matches_exec(&pieces[i], &e) {
            return true;
        }
        i = i + 1;
    }
    false
}

/// The ETag of a response body: its xxh3 hash in lower-case hex, quoted.
pub fn etag_for_body(body: &[u8]) -> (res: String)
    ensures
        res@ == etag_text(xxh3_64_of(body@)),
{
    let h = xxh3_64(body);
    let mut v: Vec<char> = Vec::new();
    v.push('"');
    let mut hex = hex_chars(h);
    v.append(&mut hex);
    v.push('"');
    assert(v@ =~= etag_text(h));
    string_of(&v)
}

/// The `Cache-Control` value for a TTL.
pub fn cache_control_value(ttl: u64) -> (res: String)
    ensures
        res@ == cache_control_text(ttl),
{
    let mut v = chars_of("public, max-age=");
    let mut a = dec_chars(ttl);
    v.append(&mut a);
    let mut mid = chars_of(", stale-while-revalidate=");
    v.append(&mut mid);
    let mut b = dec_chars(ttl / 2);
    v.append(&mut b);
    assert(v@ =~= cache_control_text(ttl));
    string_of(&v)
}

/// The TTL from an `X-Cache-TTL` header value, defaulting to 300 seconds.
pub fn ttl_from_header(header: Option<&str>) -> (res: u64)
    ensures
        res == ttl_spec(
            match header {
                Some(h) => Some(h@),
                None => None,
            },
        ),
{
    match header {
        Some(h) => match parse_u64(&chars_of(h)) {
            Some(v) => v,
            None => DEFAULT_CACHE_TTL,
        },
        None => DEFAULT_CACHE_TTL,
    }
}

/// Whether the middleware handles a request at all: not a skipped path, and
/// a GET or HEAD.
pub fn request_is_cacheable(path: &str, is_get: bool, is_head: bool) -> (res: bool)
    ensures
        res == (!skip_path_spec(path@) && (is_get || is_head)),
{
    !should_skip_path(path) && (is_get || is_head)
}

/// Whether a response gets cache headers: a 2xx status without an existing
/// `Cache-Control` header.
pub fn response_is_cacheable(status: u16, has_cache_control: bool) -> (res: bool)
    ensures
        res == (200 <= status <= 299 && !has_cache_control),
{
    200 <= status && status <= 299 && !has_cache_control
}

/// The headers and status for a cacheable response with body `body`.
pub fn plan_cache_headers(
    ttl_header: Option<&str>,
    if_none_match: Option<&str>,
    is_head: bool,
    body: &[u8],
) -> (res: CachePlan)
    ensures
        ({
            let ttl = ttl_spec(
                match ttl_header {
                    Some(h) => Some(h@),
                    None => None,
                },
            );
            let etag = etag_text(xxh3_64_of(body@));
            let matched = match if_none_match {
                Some(inm) => etag_matches_spec(inm@, etag),
                None => false,
            };
            match res {
                CachePlan::NotModified { etag: e, cache_control: cc } => matched && e@ == etag
                    && cc@ == cache_control_text(ttl),
                CachePlan::Decorated { etag: e, cache_control: cc, head_content_length: l } => !matched
                    && e@ == etag && cc@ == cache_control_text(ttl) && (match l {
                    Some(len) => is_head && len@ == dec_text(body@.len()),
                    None => !is_head,
                }),
            }
        }),
{
    let ttl = ttl_from_header(ttl_header);
    let etag = etag_for_body(body);
    let matched = match if_none_match {
        Some(inm) => etag_matches(inm, etag.as_str()),
        None => false,
    };
    let cache_control = cache_control_value(ttl);
    if matched {
        return CachePlan::NotModified { etag, cache_control };
    }
    let head_content_length = if is_head {
        let len = body.len() as u64;
        Some(string_of(&dec_chars(len)))
    } else {
        None
    };
    CachePlan::Decorated { etag, cache_control, head_content_length }
}

// ------------------------------------------------------------------ laws

/// Whether `c` is a lower-case hexadecimal digit.
pub open spec fn is_hex_digit(c: char) -> bool {
    ('0' <= c <= '9') || ('a' <= c <= 'f')
}

proof fn lemma_hex_digits(n: nat)
    ensures
        hex_text(n).len() >= 1,
        forall|i: int| 0 <= i < hex_text(n).len() ==> #[trigger] is_hex_digit(hex_text(n)[i]),
    decreases n,
{
    if n >= 16 {
        lemma_hex_digits(n / 16);
    }
}

proof fn lemma_etag_shape(h: u64)
    ensures
        etag_text(h).len() >= 3,
        etag_text(h)[0] == '"',
        etag_text(h).last() == '"',
        forall|i: int| 0 <= i < etag_text(h).len() ==> #[trigger] etag_text(h)[i] != ',',
        trim(etag_text(h)) == etag_text(h),
        !has_prefix(etag_text(h), "W/"@),
{
    lemma_hex_digits(h as nat);
    let e = etag_text(h);
    let x = hex_text(h as nat);
    assert forall|i: int| 0 <= i < e.len() implies #[trigger] e[i] != ',' by {
        if 0 < i < e.len() - 1 {
            assert(e[i] == x[i - 1]);
            assert(is_hex_digit(x[i - 1]));
        }
    }
    assert(!is_ws('"'));
    lemma_trim_unchanged(e);
    reveal_strlit("W/");
    assert(e.take(2)[0] == '"');
}

/// A client that revalidates with the ETag it was given gets a match: the
/// ETag of a body matches an `If-None-Match` holding exactly that ETag.
pub proof fn law_etag_revalidates(h: u64)
    ensures
        etag_matches_spec(etag_text(h), etag_text(h)),
{
    let e = etag_text(h);
    lemma_etag_shape(h);
    lemma_split_without_sep(e, ',');
    assert(split_on(e, ',')[0] == e);
    assert(tag_matches(split_on(e, ',')[0], e));
}

/// The weak form `W/<etag>` of a body's ETag matches it too.
pub proof fn law_weak_etag_revalidates(h: u64)
    ensures
        etag_matches_spec("W/"@ + etag_text(h), etag_text(h)),
{
    let e = etag_text(h);
    lemma_etag_shape(h);
    reveal_strlit("W/");
    let w = "W/"@ + e;
    assert forall|i: int| 0 <= i < w.len() implies #[trigger] w[i] != ',' by {
        if i >= 2 {
            assert(w[i] == e[i - 2]);
        }
    }
    lemma_split_without_sep(w, ',');
    assert(!is_ws('W'));
    assert(w.last() == e.last());
    lemma_trim_unchanged(w);
    assert(w.take(2) =~= "W/"@);
    assert(w.skip(2) =~= e);
    assert(tag_matches(split_on(w, ',')[0], e));
}

/// The wildcard `If-None-Match: *` matches every ETag.
pub proof fn law_wildcard_matches_all(etag: Seq<char>)
    ensures
        etag_matches_spec("*"@, etag),
{
    reveal_strlit("*");
    assert(!is_ws('*'));
    lemma_trim_unchanged("*"@);
}

} // verus!
