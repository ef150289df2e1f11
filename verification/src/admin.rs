//! The logic of the admin API: dashboard query parameters, the browsable
//! cache tables, and how a cache row is addressed by a table name and an id.
use vstd::prelude::*;
use vstd::string::StringSliceAdditionalSpecFns;
use crate::error::AppError;
use crate::inventory::str_views;
use crate::lexorder::string_views;
use crate::numfmt::{dec_chars, dec_text, parse_i64, parse_i64_spec};
use crate::text::{chars_of, concat_chars, join_strings, join_with, split_chars, split_on, str_eq, string_of};

verus! {

// ------------------------------------------------------------ durations

/// The seconds a duration suffix stands for: minutes, hours or days.
pub open spec fn duration_multiplier(c: char) -> Option<i64> {
    if c == 'm' {
        Some(60)
    } else if c == 'h' {
        Some(3600)
    } else if c == 'd' {
        Some(86_400)
    } else {
        None
    }
}

/// A dashboard duration such as `15m`, `24h` or `7d` in seconds: the value
/// `v` of `byte_len` bytes is a positive `i64` followed by one of the
/// suffixes `m`, `h`, `d`. The error is the message the request is refused
/// with.
pub open spec fn parse_duration_spec(byte_len: int, v: Seq<char>) -> Result<i64, Seq<char>> {
    if byte_len < 2 {
        Err("Invalid duration: "@ + v)
    } else {
        match duration_multiplier(v.last()) {
            None => Err("Invalid duration suffix: "@ + v),
            Some(m) => match parse_i64_spec(v.drop_last()) {
                None => Err("Invalid duration: "@ + v),
                Some(a) => if a <= 0 {
                    Err("Duration must be positive: "@ + v)
                } else if a * m > i64::MAX {
                    Err("Duration is too large: "@ + v)
                } else {
                    Ok((a * m) as i64)
                },
            },
        }
    }
}

/// A positive amount written in decimal and followed by `m`, `h` or `d`
/// parses to the amount times 60, 3600 or 86400 seconds (when that fits).
pub proof fn law_duration_round_trip(n: i64, unit: char)
    requires
        n > 0,
        duration_multiplier(unit) is Some,
        n * duration_multiplier(unit).unwrap() <= i64::MAX,
    ensures
        parse_duration_spec(dec_text(n as nat).len() as int + 1, dec_text(n as nat).push(unit))
            == Ok::<i64, Seq<char>>((n * duration_multiplier(unit).unwrap()) as i64),
{
    crate::numfmt::law_parse_i64_of_dec(n);
    crate::numfmt::lemma_dec_round_trip(n as nat);
    let v = dec_text(n as nat).push(unit);
    assert(v.drop_last() =~= dec_text(n as nat));
    assert(v.last() == unit);
}

/// `AppError::BadRequest` with the message `prefix` followed by `v`.
fn bad_request(prefix: &str, v: &str) -> (res: AppError)
    ensures
        res matches AppError::BadRequest(m) && m@ == prefix@ + v@,
{
    AppError::BadRequest(string_of(&concat_chars(&chars_of(prefix), &chars_of(v))))
}

/// Parses a dashboard duration (`<positive integer><m|h|d>`) into seconds;
/// every other value is refused with a bad request.
pub fn parse_duration_secs(value: &str) -> (res: Result<i64, AppError>)
    ensures
        match res {
            Ok(n) => parse_duration_spec(value.spec_bytes().len() as int, value@) == Ok::<i64, Seq<char>>(n),
            Err(AppError::BadRequest(m)) => parse_duration_spec(value.spec_bytes().len() as int, value@)
                == Err::<i64, Seq<char>>(m@),
            Err(_) => false,
        },
{
    let byte_len: usize = value.as_bytes().len();
    if byte_len < 2 {
        return Err(bad_request("Invalid duration: ", value));
    }
    let v = chars_of(value);
    assert(v@.len() >= 1) by {
        if value@.len() == 0 {
            assert(value.spec_bytes() =~= Seq::<u8>::empty());
        }
    }
    let n = v.len();
    let suffix = v[n - 1];
    let multiplier: i64 = if suffix == 'm' {
        60
    } else if suffix == 'h' {
        3600
    } else if suffix == 'd' {
        86_400
    } else {
        return Err(bad_request("Invalid duration suffix: ", value));
    };
    let number = crate::text::slice_of(&v, 0, n - 1);
    assert(number@ =~= value@.drop_last());
    let amount = match parse_i64(&number) {
        Some(a) => a,
        None => {
            return Err(bad_request("Invalid duration: ", value));
        },
    };
    if amount <= 0 {
        return Err(bad_request("Duration must be positive: ", value));
    }
    match amount.checked_mul(multiplier) {
        Some(secs) => Ok(secs),
        None => Err(bad_request("Duration is too large: ", value)),
    }
}

/// The dashboard window: the `range` parameter, `24h` when absent.
pub fn dashboard_range_secs(range: Option<&str>) -> (res: Result<i64, AppError>)
    ensures
        range is None ==> res == Ok::<i64, AppError>(86_400),
        range matches Some(r) ==> match res {
            Ok(n) => parse_duration_spec(r.spec_bytes().len() as int, r@) == Ok::<i64, Seq<char>>(n),
            Err(AppError::BadRequest(m)) => parse_duration_spec(r.spec_bytes().len() as int, r@) == Err::<i64, Seq<char>>(m@),
            Err(_) => false,
        },
{
    match range {
        Some(r) => parse_duration_secs(r),
        None => Ok(86_400),
    }
}

/// The dashboard bucket width: the `bucket` parameter, `1h` when absent.
pub fn dashboard_bucket_secs(bucket: Option<&str>) -> (res: Result<i64, AppError>)
    ensures
        bucket is None ==> res == Ok::<i64, AppError>(3600),
        bucket matches Some(r) ==> match res {
            Ok(n) => parse_duration_spec(r.spec_bytes().len() as int, r@) == Ok::<i64, Seq<char>>(n),
            Err(AppError::BadRequest(m)) => parse_duration_spec(r.spec_bytes().len() as int, r@) == Err::<i64, Seq<char>>(m@),
            Err(_) => false,
        },
{
    match bucket {
        Some(r) => parse_duration_secs(r),
        None => Ok(3600),
    }
}

/// How many recent errors the dashboard lists: the `limit` parameter (20
/// when absent), at most 100.
pub fn recent_errors_limit(limit: Option<usize>) -> (res: usize)
    ensures
        res == match limit {
            Some(l) => if l < 100 { l } else { 100 },
            None => 20,
        },
{
    match limit {
        Some(l) => if l < 100 { l } else { 100 },
        None => 20,
    }
}

/// The page of a cache table listing: `limit` (50 when absent, at most 200)
/// and `offset` (0 when absent).
pub fn cache_list_window(limit: Option<u64>, offset: Option<u64>) -> (res: (u64, u64))
    ensures
        res.0 == match limit {
            Some(l) => if l < 200 { l } else { 200 },
            None => 50,
        },
        res.1 == match offset {
            Some(o) => o,
            None => 0,
        },
{
    let l = match limit {
        Some(l) => if l < 200 { l } else { 200 },
        None => 50,
    };
    let o = match offset {
        Some(o) => o,
        None => 0,
    };
    (l, o)
}

// ---------------------------------------------------------- cache tables

/// How a cache table's primary key is typed.
#[derive(Clone, Copy, Debug, PartialEq, Eq, Structural)]
pub enum KeyKind {
    /// One text column.
    Text,
    /// One `BIGINT` column.
    BigInt,
    /// One `INT` column.
    Int,
    /// A text column and a `BIGINT` column.
    TextBigInt,
    /// A text column and an `INT` column.
    TextInt,
    /// Two text columns.
    TextText,
}

/// A browsable cache table.
pub struct CacheTableInfo {
    pub name: &'static str,
    pub pk_cols: Vec<&'static str>,
    pub has_raw_json: bool,
    pub key_kind: KeyKind,
}

/// Names of the browsable cache tables, in listing order.
pub open spec fn admin_table_names() -> Seq<Seq<char>> {
    seq![
        "assrt_searches"@,
        "assrt_sub_details"@,
        "bangumi_subjects"@,
        "deezer_albums"@,
        "deezer_artists"@,
        "deezer_tracks"@,
        "douban_subjects"@,
        "fanart_assets"@,
        "geocoding_results"@,
        "github_releases"@,
        "holiday_years"@,
        "lrclib_lyrics"@,
        "musicbrainz_artists"@,
        "musicbrainz_recordings"@,
        "musicbrainz_releases"@,
        "nominatim_geocode"@,
        "omdb_titles"@,
        "openmeteo_forecasts"@,
        "qidian_books"@,
        "spotify_albums"@,
        "spotify_artists"@,
        "spotify_tracks"@,
        "thetvdb_episodes"@,
        "thetvdb_series"@,
        "tmdb_images"@,
        "tmdb_movies"@,
        "tmdb_objects"@,
        "wikipedia_summaries"@,
    ]
}

/// The primary-key columns of each browsable cache table.
pub open spec fn admin_table_pk_cols() -> Seq<Seq<Seq<char>>> {
    seq![
        seq!["cache_key"@],
        seq!["sub_id"@],
        seq!["id"@],
        seq!["deezer_id"@],
        seq!["deezer_id"@],
        seq!["deezer_id"@],
        seq!["douban_id"@],
        seq!["kind"@, "foreign_id"@],
        seq!["cache_key"@],
        seq!["cache_key"@],
        seq!["country"@, "year"@],
        seq!["cache_key"@],
        seq!["mbid"@],
        seq!["mbid"@],
        seq!["mbid"@],
        seq!["cache_key"@],
        seq!["imdb_id"@],
        seq!["cache_key"@],
        seq!["qidian_id"@],
        seq!["spotify_id"@],
        seq!["spotify_id"@],
        seq!["spotify_id"@],
        seq!["id"@],
        seq!["id"@],
        seq!["image_path"@],
        seq!["id"@],
        seq!["kind"@, "key"@],
        seq!["cache_key"@],
    ]
}

/// Whether each browsable cache table keeps the upstream JSON in `raw_json`.
pub open spec fn admin_table_has_raw_json() -> Seq<bool> {
    seq![true, true, true, true, true, true, true, true, true, true, true, true, true, true, true, true, true, true, true, true, true, true, true, true, false, true, true, true]
}

/// The key shape of each browsable cache table.
pub open spec fn admin_table_key_kinds() -> Seq<KeyKind> {
    seq![
        KeyKind::Text,
        KeyKind::Text,
        KeyKind::BigInt,
        KeyKind::BigInt,
        KeyKind::BigInt,
        KeyKind::BigInt,
        KeyKind::Text,
        KeyKind::TextBigInt,
        KeyKind::Text,
        KeyKind::Text,
        KeyKind::TextInt,
        KeyKind::Text,
        KeyKind::Text,
        KeyKind::Text,
        KeyKind::Text,
        KeyKind::Text,
        KeyKind::Text,
        KeyKind::Text,
        KeyKind::Text,
        KeyKind::Text,
        KeyKind::Text,
        KeyKind::Text,
        KeyKind::BigInt,
        KeyKind::BigInt,
        KeyKind::Text,
        KeyKind::Int,
        KeyKind::TextText,
        KeyKind::Text,
    ]
}

/// The browsable cache tables: name, primary-key columns, whether rows keep
/// the upstream JSON, and how their key is typed.
pub fn cache_table_list() -> (res: Vec<CacheTableInfo>)
    ensures
        res@.len() == admin_table_names().len(),
        forall|i: int| 0 <= i < res@.len() ==> {
            &&& (#[trigger] res@[i]).name@ == admin_table_names()[i]
            &&& str_views(res@[i].pk_cols@) == admin_table_pk_cols()[i]
            &&& res@[i].has_raw_json == admin_table_has_raw_json()[i]
            &&& res@[i].key_kind == admin_table_key_kinds()[i]
        },
{
    let mut v: Vec<CacheTableInfo> = Vec::new();
    let mut c: Vec<&'static str> = Vec::new();
    c.push("cache_key");
    assert(str_views(c@) =~= admin_table_pk_cols()[0]);
    v.push(CacheTableInfo { name: "assrt_searches", pk_cols: c, has_raw_json: true, key_kind: KeyKind::Text });
    let mut c: Vec<&'static str> = Vec::new();
    c.push("sub_id");
    assert(str_views(c@) =~= admin_table_pk_cols()[1]);
    v.push(CacheTableInfo { name: "assrt_sub_details", pk_cols: c, has_raw_json: true, key_kind: KeyKind::Text });
    let mut c: Vec<&'static str> = Vec::new();
    c.push("id");
    assert(str_views(c@) =~= admin_table_pk_cols()[2]);
    v.push(CacheTableInfo { name: "bangumi_subjects", pk_cols: c, has_raw_json: true, key_kind: KeyKind::BigInt });
    let mut c: Vec<&'static str> = Vec::new();
    c.push("deezer_id");
    assert(str_views(c@) =~= admin_table_pk_cols()[3]);
    v.push(CacheTableInfo { name: "deezer_albums", pk_cols: c, has_raw_json: true, key_kind: KeyKind::BigInt });
    let mut c: Vec<&'static str> = Vec::new();
    c.push("deezer_id");
    assert(str_views(c@) =~= admin_table_pk_cols()[4]);
    v.push(CacheTableInfo { name: "deezer_artists", pk_cols: c, has_raw_json: true, key_kind: KeyKind::BigInt });
    let mut c: Vec<&'static str> = Vec::new();
    c.push("deezer_id");
    assert(str_views(c@) =~= admin_table_pk_cols()[5]);
    v.push(CacheTableInfo { name: "deezer_tracks", pk_cols: c, has_raw_json: true, key_kind: KeyKind::BigInt });
    let mut c: Vec<&'static str> = Vec::new();
    c.push("douban_id");
    assert(str_views(c@) =~= admin_table_pk_cols()[6]);
    v.push(CacheTableInfo { name: "douban_subjects", pk_cols: c, has_raw_json: true, key_kind: KeyKind::Text });
    let mut c: Vec<&'static str> = Vec::new();
    c.push("kind");
    c.push("foreign_id");
    assert(str_views(c@) =~= admin_table_pk_cols()[7]);
    v.push(CacheTableInfo { name: "fanart_assets", pk_cols: c, has_raw_json: true, key_kind: KeyKind::TextBigInt });
    let mut c: Vec<&'static str> = Vec::new();
    c.push("cache_key");
    assert(str_views(c@) =~= admin_table_pk_cols()[8]);
    v.push(CacheTableInfo { name: "geocoding_results", pk_cols: c, has_raw_json: true, key_kind: KeyKind::Text });
    let mut c: Vec<&'static str> = Vec::new();
    c.push("cache_key");
    assert(str_views(c@) =~= admin_table_pk_cols()[9]);
    v.push(CacheTableInfo { name: "github_releases", pk_cols: c, has_raw_json: true, key_kind: KeyKind::Text });
    let mut c: Vec<&'static str> = Vec::new();
    c.push("country");
    c.push("year");
    assert(str_views(c@) =~= admin_table_pk_cols()[10]);
    v.push(CacheTableInfo { name: "holiday_years", pk_cols: c, has_raw_json: true, key_kind: KeyKind::TextInt });
    let mut c: Vec<&'static str> = Vec::new();
    c.push("cache_key");
    assert(str_views(c@) =~= admin_table_pk_cols()[11]);
    v.push(CacheTableInfo { name: "lrclib_lyrics", pk_cols: c, has_raw_json: true, key_kind: KeyKind::Text });
    let mut c: Vec<&'static str> = Vec::new();
    c.push("mbid");
    assert(str_views(c@) =~= admin_table_pk_cols()[12]);
    v.push(CacheTableInfo { name: "musicbrainz_artists", pk_cols: c, has_raw_json: true, key_kind: KeyKind::Text });
    let mut c: Vec<&'static str> = Vec::new();
    c.push("mbid");
    assert(str_views(c@) =~= admin_table_pk_cols()[13]);
    v.push(CacheTableInfo { name: "musicbrainz_recordings", pk_cols: c, has_raw_json: true, key_kind: KeyKind::Text });
    let mut c: Vec<&'static str> = Vec::new();
    c.push("mbid");
    assert(str_views(c@) =~= admin_table_pk_cols()[14]);
    v.push(CacheTableInfo { name: "musicbrainz_releases", pk_cols: c, has_raw_json: true, key_kind: KeyKind::Text });
    let mut c: Vec<&'static str> = Vec::new();
    c.push("cache_key");
    assert(str_views(c@) =~= admin_table_pk_cols()[15]);
    v.push(CacheTableInfo { name: "nominatim_geocode", pk_cols: c, has_raw_json: true, key_kind: KeyKind::Text });
    let mut c: Vec<&'static str> = Vec::new();
    c.push("imdb_id");
    assert(str_views(c@) =~= admin_table_pk_cols()[16]);
    v.push(CacheTableInfo { name: "omdb_titles", pk_cols: c, has_raw_json: true, key_kind: KeyKind::Text });
    let mut c: Vec<&'static str> = Vec::new();
    c.push("cache_key");
    assert(str_views(c@) =~= admin_table_pk_cols()[17]);
    v.push(CacheTableInfo { name: "openmeteo_forecasts", pk_cols: c, has_raw_json: true, key_kind: KeyKind::Text });
    let mut c: Vec<&'static str> = Vec::new();
    c.push("qidian_id");
    assert(str_views(c@) =~= admin_table_pk_cols()[18]);
    v.push(CacheTableInfo { name: "qidian_books", pk_cols: c, has_raw_json: true, key_kind: KeyKind::Text });
    let mut c: Vec<&'static str> = Vec::new();
    c.push("spotify_id");
    assert(str_views(c@) =~= admin_table_pk_cols()[19]);
    v.push(CacheTableInfo { name: "spotify_albums", pk_cols: c, has_raw_json: true, key_kind: KeyKind::Text });
    let mut c: Vec<&'static str> = Vec::new();
    c.push("spotify_id");
    assert(str_views(c@) =~= admin_table_pk_cols()[20]);
    v.push(CacheTableInfo { name: "spotify_artists", pk_cols: c, has_raw_json: true, key_kind: KeyKind::Text });
    let mut c: Vec<&'static str> = Vec::new();
    c.push("spotify_id");
    assert(str_views(c@) =~= admin_table_pk_cols()[21]);
    v.push(CacheTableInfo { name: "spotify_tracks", pk_cols: c, has_raw_json: true, key_kind: KeyKind::Text });
    let mut c: Vec<&'static str> = Vec::new();
    c.push("id");
    assert(str_views(c@) =~= admin_table_pk_cols()[22]);
    v.push(CacheTableInfo { name: "thetvdb_episodes", pk_cols: c, has_raw_json: true, key_kind: KeyKind::BigInt });
    let mut c: Vec<&'static str> = Vec::new();
    c.push("id");
    assert(str_views(c@) =~= admin_table_pk_cols()[23]);
    v.push(CacheTableInfo { name: "thetvdb_series", pk_cols: c, has_raw_json: true, key_kind: KeyKind::BigInt });
    let mut c: Vec<&'static str> = Vec::new();
    c.push("image_path");
    assert(str_views(c@) =~= admin_table_pk_cols()[24]);
    v.push(CacheTableInfo { name: "tmdb_images", pk_cols: c, has_raw_json: false, key_kind: KeyKind::Text });
    let mut c: Vec<&'static str> = Vec::new();
    c.push("id");
    assert(str_views(c@) =~= admin_table_pk_cols()[25]);
    v.push(CacheTableInfo { name: "tmdb_movies", pk_cols: c, has_raw_json: true, key_kind: KeyKind::Int });
    let mut c: Vec<&'static str> = Vec::new();
    c.push("kind");
    c.push("key");
    assert(str_views(c@) =~= admin_table_pk_cols()[26]);
    v.push(CacheTableInfo { name: "tmdb_objects", pk_cols: c, has_raw_json: true, key_kind: KeyKind::TextText });
    let mut c: Vec<&'static str> = Vec::new();
    c.push("cache_key");
    assert(str_views(c@) =~= admin_table_pk_cols()[27]);
    v.push(CacheTableInfo { name: "wikipedia_summaries", pk_cols: c, has_raw_json: true, key_kind: KeyKind::Text });
    v
}
/// The index of the first table named `name` among `names` from `i` on, or
/// -1 when there is none.
pub open spec fn name_index(names: Seq<Seq<char>>, name: Seq<char>, i: int) -> int
    decreases names.len() - i,
{
    if i < 0 || i >= names.len() {
        -1
    } else if names[i] == name {
        i
    } else {
        name_index(names, name, i + 1)
    }
}

/// Whether `t` is the `i`-th browsable cache table.
pub open spec fn is_admin_table(t: CacheTableInfo, i: int) -> bool {
    &&& 0 <= i < admin_table_names().len()
    &&& t.name@ == admin_table_names()[i]
    &&& str_views(t.pk_cols@) == admin_table_pk_cols()[i]
    &&& t.has_raw_json == admin_table_has_raw_json()[i]
    &&& t.key_kind == admin_table_key_kinds()[i]
}

/// The browsable cache table called `name`; an unknown name is refused with
/// `Unknown cache table: <name>`.
pub fn cache_table_info(name: &str) -> (res: Result<CacheTableInfo, AppError>)
    ensures
        match res {
            Ok(t) => is_admin_table(t, name_index(admin_table_names(), name@, 0)),
            Err(AppError::BadRequest(m)) => name_index(admin_table_names(), name@, 0) == -1 && m@
                == "Unknown cache table: "@ + name@,
            Err(_) => false,
        },
{
    let mut tables = cache_table_list();
    let mut i: usize = 0;
    while i < tables.len()
        invariant
            i <= tables@.len(),
            tables@.len() == admin_table_names().len(),
            forall|k: int| 0 <= k < tables@.len() ==> is_admin_table(#[trigger] tables@[k], k),
            name_index(admin_table_names(), name@, 0) == name_index(admin_table_names(), name@, i as int),
        decreases tables@.len() - i,
    {
        assert(is_admin_table(tables@[i as int], i as int));
        if str_eq(tables[i].name, name) {
            let t = tables.remove(i);
            return Ok(t);
        }
        i = i + 1;
    }
    Err(bad_request("Unknown cache table: ", name))
}

/// The message refusing an id whose number of `|`-separated parts is not
/// the table's number of key columns.
pub open spec fn pk_count_message(table: Seq<char>, n: nat) -> Seq<char> {
    "Invalid id for "@ + table + ": expected "@ + dec_text(n) + " part(s)"@
}

/// Splits a row id into its `|`-separated key parts, one per primary-key
/// column of `table`.
pub fn parse_pk_values(table: &CacheTableInfo, id: &str) -> (res: Result<Vec<String>, AppError>)
    ensures
        match res {
            Ok(v) => string_views(v@) == split_on(id@, '|') && v@.len() == table.pk_cols@.len(),
            Err(AppError::BadRequest(m)) => split_on(id@, '|').len() != table.pk_cols@.len() && m@
                == pk_count_message(table.name@, table.pk_cols@.len()),
            Err(_) => false,
        },
{
    let pieces = split_chars(&chars_of(id), '|');
    if pieces.len() != table.pk_cols.len() {
        let n = table.pk_cols.len();
        let a = concat_chars(&chars_of("Invalid id for "), &chars_of(table.name));
        let b = concat_chars(&a, &chars_of(": expected "));
        let c = concat_chars(&b, &dec_chars(n as u64));
        let d = concat_chars(&c, &chars_of(" part(s)"));
        return Err(AppError::BadRequest(string_of(&d)));
    }
    let mut out: Vec<String> = Vec::new();
    let mut i: usize = 0;
    while i < pieces.len()
        invariant
            i <= pieces@.len(),
            string_views(out@) == crate::text::views(pieces@).take(i as int),
        decreases pieces@.len() - i,
    {
        let ghost prev = out@;
        let piece = string_of(&pieces[i]);
        out.push(piece);
        proof {
            assert(out@ == prev.push(piece));
            assert(crate::text::views(pieces@).len() == pieces@.len());
            assert(crate::text::views(pieces@).take(i as int).len() == i);
            assert(string_views(prev).len() == prev.len());
            assert(prev.len() == i);
            assert(string_views(out@).len() == i + 1);
            assert forall|k: int| 0 <= k < i + 1 implies string_views(out@)[k] == crate::text::views(
                pieces@,
            ).take(i + 1)[k] by {
                if k < i {
                    assert(string_views(prev)[k] == crate::text::views(pieces@).take(i as int)[k]);
                }
            }
        }
        i = i + 1;
        assert(string_views(out@) =~= crate::text::views(pieces@).take(i as int));
    }
    assert(crate::text::views(pieces@).take(pieces@.len() as int) =~= crate::text::views(pieces@));
    Ok(out)
}

/// `str::parse::<i32>`: the `i64` reading of `s` when it lies in `i32`.
pub open spec fn parse_i32_spec(s: Seq<char>) -> Option<i32> {
    match parse_i64_spec(s) {
        Some(v) => if i32::MIN <= v <= i32::MAX {
            Some(v as i32)
        } else {
            None
        },
        None => None,
    }
}

/// The typed primary key of a cache row.
pub enum CacheRowKey {
    Text(String),
    BigInt(i64),
    Int(i32),
    TextBigInt(String, i64),
    TextInt(String, i32),
    TextText(String, String),
}

/// Whether `k` is the key of shape `kind` written by the parts `p`.
pub open spec fn key_matches(k: CacheRowKey, kind: KeyKind, p: Seq<Seq<char>>) -> bool {
    match kind {
        KeyKind::Text => k matches CacheRowKey::Text(a) && a@ == p[0],
        KeyKind::BigInt => k matches CacheRowKey::BigInt(n) && parse_i64_spec(p[0]) == Some(n),
        KeyKind::Int => k matches CacheRowKey::Int(n) && parse_i32_spec(p[0]) == Some(n),
        KeyKind::TextBigInt => k matches CacheRowKey::TextBigInt(a, n) && a@ == p[0] && parse_i64_spec(p[1])
            == Some(n),
        KeyKind::TextInt => k matches CacheRowKey::TextInt(a, n) && a@ == p[0] && parse_i32_spec(p[1]) == Some(
            n,
        ),
        KeyKind::TextText => k matches CacheRowKey::TextText(a, b) && a@ == p[0] && b@ == p[1],
    }
}

/// The part that fails to parse as the number its column holds, if any.
pub open spec fn bad_key_part(kind: KeyKind, p: Seq<Seq<char>>) -> Option<Seq<char>> {
    match kind {
        KeyKind::BigInt => if parse_i64_spec(p[0]) is None { Some(p[0]) } else { None },
        KeyKind::Int => if parse_i32_spec(p[0]) is None { Some(p[0]) } else { None },
        KeyKind::TextBigInt => if parse_i64_spec(p[1]) is None { Some(p[1]) } else { None },
        KeyKind::TextInt => if parse_i32_spec(p[1]) is None { Some(p[1]) } else { None },
        _ => None,
    }
}

/// The number of key parts a key shape has.
pub open spec fn kind_arity(kind: KeyKind) -> nat {
    match kind {
        KeyKind::Text | KeyKind::BigInt | KeyKind::Int => 1,
        _ => 2,
    }
}

/// Every browsable table's key shape has one part per primary-key column.
pub proof fn law_key_kinds_fit_pk_cols(i: int)
    requires
        0 <= i < admin_table_names().len(),
    ensures
        kind_arity(admin_table_key_kinds()[i]) == admin_table_pk_cols()[i].len(),
{
}

fn parse_i32_chars(s: &[char]) -> (res: Option<i32>)
    ensures
        res == parse_i32_spec(s@),
{
    match parse_i64(s) {
        Some(v) => if i32::MIN as i64 <= v && v <= i32::MAX as i64 {
            Some(v as i32)
        } else {
            None
        },
        None => None,
    }
}

/// An INT key accepts every `i32` written in decimal, and reads it back.
pub proof fn law_int_keys_read_every_i32(n: i32)
    ensures
        parse_i32_spec(crate::numfmt::signed_dec_text(n as int)) == Some(n),
{
    if n >= 0 {
        crate::numfmt::law_parse_i64_of_dec(n as i64);
    } else {
        let a = (-(n as int)) as nat;
        crate::numfmt::lemma_dec_round_trip(a);
        let s = crate::numfmt::signed_dec_text(n as int);
        assert(s[0] == '-');
        assert(s.drop_first() =~= crate::numfmt::dec_text(a));
    }
}

/// An INT key is the `i64` reading of its text whenever that lies in the
/// `i32` range, and nothing otherwise.
pub proof fn law_int_keys_are_i64_readings_in_range(s: Seq<char>, v: i64)
    ensures
        parse_i64_spec(s) == Some(v) && i32::MIN <= v <= i32::MAX ==> parse_i32_spec(s) == Some(v as i32),
        parse_i64_spec(s) == Some(v) && !(i32::MIN <= v <= i32::MAX) ==> parse_i32_spec(s) is None,
        parse_i64_spec(s) is None ==> parse_i32_spec(s) is None,
{
}

/// The typed key written by the parts `parts` of a row id of shape `kind`;
/// a part that does not parse as its column's number is refused with
/// `Invalid id: <part>`.
pub fn typed_key(kind: KeyKind, parts: &Vec<String>) -> (res: Result<CacheRowKey, AppError>)
    requires
        parts@.len() == kind_arity(kind),
    ensures
        match res {
            Ok(k) => bad_key_part(kind, string_views(parts@)) is None && key_matches(k, kind, string_views(parts@)),
            Err(AppError::BadRequest(m)) => bad_key_part(kind, string_views(parts@)) matches Some(b) && m@
                == "Invalid id: "@ + b,
            Err(_) => false,
        },
{
    proof {
        assert(string_views(parts@)[0] == parts@[0]@);
        if parts@.len() > 1 {
            assert(string_views(parts@)[1] == parts@[1]@);
        }
    }
    match kind {
        KeyKind::Text => Ok(CacheRowKey::Text(parts[0].clone())),
        KeyKind::BigInt => match parse_i64(&chars_of(parts[0].as_str())) {
            Some(n) => Ok(CacheRowKey::BigInt(n)),
            None => Err(bad_request("Invalid id: ", parts[0].as_str())),
        },
        KeyKind::Int => match parse_i32_chars(&chars_of(parts[0].as_str())) {
            Some(n) => Ok(CacheRowKey::Int(n)),
            None => Err(bad_request("Invalid id: ", parts[0].as_str())),
        },
        KeyKind::TextBigInt => match parse_i64(&chars_of(parts[1].as_str())) {
            Some(n) => Ok(CacheRowKey::TextBigInt(parts[0].clone(), n)),
            None => Err(bad_request("Invalid id: ", parts[1].as_str())),
        },
        KeyKind::TextInt => match parse_i32_chars(&chars_of(parts[1].as_str())) {
            Some(n) => Ok(CacheRowKey::TextInt(parts[0].clone(), n)),
            None => Err(bad_request("Invalid id: ", parts[1].as_str())),
        },
        KeyKind::TextText => Ok(CacheRowKey::TextText(parts[0].clone(), parts[1].clone())),
    }
}

/// The row of a cache table that a delete or refresh request addresses:
/// the table called `table` and the typed key written by `id`. Refused, in
/// this order, for an unknown table, an id with the wrong number of
/// `|`-separated parts, and a part that is not the number its column holds.
pub fn resolve_cache_row(table: &str, id: &str) -> (res: Result<(CacheTableInfo, CacheRowKey), AppError>)
    ensures
        ({
            let i = name_index(admin_table_names(), table@, 0);
            let parts = split_on(id@, '|');
            match res {
                Ok((t, k)) => {
                    &&& is_admin_table(t, i)
                    &&& parts.len() == admin_table_pk_cols()[i].len()
                    &&& bad_key_part(t.key_kind, parts) is None
                    &&& key_matches(k, t.key_kind, parts)
                },
                Err(AppError::BadRequest(m)) => if i == -1 {
                    m@ == "Unknown cache table: "@ + table@
                } else if parts.len() != admin_table_pk_cols()[i].len() {
                    m@ == pk_count_message(admin_table_names()[i], admin_table_pk_cols()[i].len())
                } else {
                    bad_key_part(admin_table_key_kinds()[i], parts) matches Some(b) && m@ == "Invalid id: "@ + b
                },
                Err(_) => false,
            }
        }),
{
    let info = match cache_table_info(table) {
        Ok(t) => t,
        Err(e) => {
            return Err(e);
        },
    };
    let ghost i = name_index(admin_table_names(), table@, 0);
    proof {
        assert(str_views(info.pk_cols@).len() == info.pk_cols@.len());
        law_key_kinds_fit_pk_cols(i);
    }
    let parts = match parse_pk_values(&info, id) {
        Ok(p) => p,
        Err(e) => {
            return Err(e);
        },
    };
    match typed_key(info.key_kind, &parts) {
        Ok(k) => Ok((info, k)),
        Err(e) => Err(e),
    }
}

/// The answer to a delete of a cache row, given the rows the delete
/// affected: `NotFound` when none was.
pub fn delete_outcome(rows_affected: u64) -> (res: Result<u64, AppError>)
    ensures
        rows_affected == 0 ==> res matches Err(AppError::NotFound),
        rows_affected > 0 ==> res == Ok::<u64, AppError>(rows_affected),
{
    if rows_affected == 0 {
        Err(AppError::NotFound)
    } else {
        Ok(rows_affected)
    }
}

/// The answer to a refresh of a cache row, given whether the row was found
/// (and its `fetched_at` reset to the epoch): one affected row, or
/// `NotFound`.
pub fn refresh_outcome(found: bool) -> (res: Result<u64, AppError>)
    ensures
        !found ==> res matches Err(AppError::NotFound),
        found ==> res == Ok::<u64, AppError>(1),
{
    if found {
        Ok(1)
    } else {
        Err(AppError::NotFound)
    }
}

// ------------------------------------------------------------- row views

/// Longest preview of a row, in bytes before truncation and characters
/// after.
pub const MAX_PREVIEW_LEN: usize = 200;

/// The preview of a row's JSON text `v` of `byte_len` bytes: unchanged up to
/// 200 bytes or 200 characters, else its first 200 characters and `...`.
pub open spec fn truncate_preview_spec(byte_len: int, v: Seq<char>) -> Seq<char> {
    if byte_len <= 200 || v.len() <= 200 {
        v
    } else {
        v.take(200) + "..."@
    }
}

/// Shortens a row's JSON text for the cache browser.
pub fn truncate_preview(value: &str) -> (res: String)
    ensures
        res@ == truncate_preview_spec(value.spec_bytes().len() as int, value@),
{
    let byte_len: usize = value.as_bytes().len();
    if byte_len <= MAX_PREVIEW_LEN {
        return value.to_owned();
    }
    let v = chars_of(value);
    if v.len() <= MAX_PREVIEW_LEN {
        return value.to_owned();
    }
    let head = crate::text::slice_of(&v, 0, MAX_PREVIEW_LEN);
    assert(head@ =~= value@.take(200));
    string_of(&concat_chars(&head, &chars_of("...")))
}

/// A row's id: the text of its primary-key columns joined by `|`.
pub fn join_key_parts(parts: &[String]) -> (res: String)
    ensures
        res@ == join_with(string_views(parts@), "|"@),
{
    join_strings(parts, "|")
}

/// A row id joined from key parts that contain no `|` splits back into
/// exactly those parts.
pub proof fn law_row_id_round_trip(parts: Seq<Seq<char>>)
    requires
        parts.len() >= 1,
        forall|k: int, c: int| 0 <= k < parts.len() && 0 <= c < parts[k].len() ==> parts[k][c] != '|',
    ensures
        split_on(join_with(parts, "|"@), '|') == parts,
{
    reveal_strlit("|");
    assert("|"@ =~= seq!['|']);
    crate::text::lemma_split_join(parts, '|');
}

// ------------------------------------------------------------ statements

/// The condition selecting a row by its one or two key columns, bound to
/// `$1` and `$2`.
pub open spec fn pk_filter_spec(cols: Seq<Seq<char>>) -> Seq<char> {
    if cols.len() == 1 {
        cols[0] + " = $1"@
    } else {
        cols[0] + " = $1 AND "@ + cols[1] + " = $2"@
    }
}

fn pk_filter(cols: &Vec<&'static str>) -> (res: Vec<char>)
    requires
        1 <= cols@.len() <= 2,
    ensures
        res@ == pk_filter_spec(str_views(cols@)),
{
    assert(str_views(cols@).len() == cols@.len());
    assert(str_views(cols@)[0] == cols@[0]@);
    assert(cols@.len() == 2 ==> str_views(cols@)[1] == cols@[1]@);
    if cols.len() == 1 {
        concat_chars(&chars_of(cols[0]), &chars_of(" = $1"))
    } else {
        let b = concat_chars(&chars_of(cols[0]), &chars_of(" = $1 AND "));
        let c = concat_chars(&b, &chars_of(cols[1]));
        concat_chars(&c, &chars_of(" = $2"))
    }
}

/// The statement deleting a table's row by key: `DELETE FROM <table> WHERE
/// <key columns bound to $1, $2>`.
pub fn row_delete_sql(t: &CacheTableInfo) -> (res: String)
    requires
        1 <= t.pk_cols@.len() <= 2,
    ensures
        res@ == "DELETE FROM "@ + t.name@ + " WHERE "@ + pk_filter_spec(str_views(t.pk_cols@)),
{
    let a = concat_chars(&chars_of("DELETE FROM "), &chars_of(t.name));
    let b = concat_chars(&a, &chars_of(" WHERE "));
    string_of(&concat_chars(&b, &pk_filter(&t.pk_cols)))
}

/// The statement that marks a table's row stale by moving its `fetched_at`
/// to the Unix epoch, so the next request refreshes it.
pub fn row_refresh_sql(t: &CacheTableInfo) -> (res: String)
    requires
        1 <= t.pk_cols@.len() <= 2,
    ensures
        res@ == "UPDATE "@ + t.name@ + " SET fetched_at = to_timestamp(0) WHERE "@ + pk_filter_spec(
            str_views(t.pk_cols@),
        ),
{
    let a = concat_chars(&chars_of("UPDATE "), &chars_of(t.name));
    let b = concat_chars(&a, &chars_of(" SET fetched_at = to_timestamp(0) WHERE "));
    string_of(&concat_chars(&b, &pk_filter(&t.pk_cols)))
}

/// The statement listing a page of a table's rows as JSON, newest first,
/// with the limit bound to `$1` and the offset to `$2`.
pub fn rows_page_sql(t: &CacheTableInfo) -> (res: String)
    ensures
        res@ == "SELECT to_jsonb(r) AS row FROM "@ + t.name@ + " r ORDER BY fetched_at DESC LIMIT $1 OFFSET $2"@,
{
    let a = concat_chars(&chars_of("SELECT to_jsonb(r) AS row FROM "), &chars_of(t.name));
    string_of(&concat_chars(&a, &chars_of(" r ORDER BY fetched_at DESC LIMIT $1 OFFSET $2")))
}

/// The statement counting a table's rows.
pub fn row_count_sql(t: &CacheTableInfo) -> (res: String)
    ensures
        res@ == "SELECT COUNT(*) AS n FROM "@ + t.name@,
{
    string_of(&concat_chars(&chars_of("SELECT COUNT(*) AS n FROM "), &chars_of(t.name)))
}

/// Every browsable table has one or two key columns, so its row statements
/// can be built.
pub proof fn law_tables_have_one_or_two_key_columns(t: CacheTableInfo, i: int)
    requires
        is_admin_table(t, i),
    ensures
        1 <= t.pk_cols@.len() <= 2,
{
    law_key_kinds_fit_pk_cols(i);
    let k = admin_table_key_kinds()[i];
    assert(kind_arity(k) == 1 || kind_arity(k) == 2);
    assert(str_views(t.pk_cols@).len() == t.pk_cols@.len());
    assert(str_views(t.pk_cols@) == admin_table_pk_cols()[i]);
}

/// The browsable tables have pairwise distinct names.
pub proof fn law_admin_tables_distinct()
    ensures
        forall|a: int, b: int| 0 <= a < b < admin_table_names().len() ==> admin_table_names()[a] != admin_table_names()[b],
{
    reveal_strlit("assrt_searches");
    reveal_strlit("assrt_sub_details");
    reveal_strlit("bangumi_subjects");
    reveal_strlit("deezer_albums");
    reveal_strlit("deezer_artists");
    reveal_strlit("deezer_tracks");
    reveal_strlit("douban_subjects");
    reveal_strlit("fanart_assets");
    reveal_strlit("geocoding_results");
    reveal_strlit("github_releases");
    reveal_strlit("holiday_years");
    reveal_strlit("lrclib_lyrics");
    reveal_strlit("musicbrainz_artists");
    reveal_strlit("musicbrainz_recordings");
    reveal_strlit("musicbrainz_releases");
    reveal_strlit("nominatim_geocode");
    reveal_strlit("omdb_titles");
    reveal_strlit("openmeteo_forecasts");
    reveal_strlit("qidian_books");
    reveal_strlit("spotify_albums");
    reveal_strlit("spotify_artists");
    reveal_strlit("spotify_tracks");
    reveal_strlit("thetvdb_episodes");
    reveal_strlit("thetvdb_series");
    reveal_strlit("tmdb_images");
    reveal_strlit("tmdb_movies");
    reveal_strlit("tmdb_objects");
    reveal_strlit("wikipedia_summaries");
    assert(admin_table_names()[0].len() != admin_table_names()[1].len());
    assert(admin_table_names()[0].len() != admin_table_names()[2].len());
    assert(admin_table_names()[0].len() != admin_table_names()[3].len());
    assert(admin_table_names()[0][0] != admin_table_names()[4][0]);
    assert(admin_table_names()[0].len() != admin_table_names()[5].len());
    assert(admin_table_names()[0].len() != admin_table_names()[6].len());
    assert(admin_table_names()[0].len() != admin_table_names()[7].len());
    assert(admin_table_names()[0].len() != admin_table_names()[8].len());
    assert(admin_table_names()[0].len() != admin_table_names()[9].len());
    assert(admin_table_names()[0].len() != admin_table_names()[10].len());
    assert(admin_table_names()[0].len() != admin_table_names()[11].len());
    assert(admin_table_names()[0].len() != admin_table_names()[12].len());
    assert(admin_table_names()[0].len() != admin_table_names()[13].len());
    assert(admin_table_names()[0].len() != admin_table_names()[14].len());
    assert(admin_table_names()[0].len() != admin_table_names()[15].len());
    assert(admin_table_names()[0].len() != admin_table_names()[16].len());
    assert(admin_table_names()[0].len() != admin_table_names()[17].len());
    assert(admin_table_names()[0].len() != admin_table_names()[18].len());
    assert(admin_table_names()[0][0] != admin_table_names()[19][0]);
    assert(admin_table_names()[0].len() != admin_table_names()[20].len());
    assert(admin_table_names()[0][0] != admin_table_names()[21][0]);
    assert(admin_table_names()[0].len() != admin_table_names()[22].len());
    assert(admin_table_names()[0][0] != admin_table_names()[23][0]);
    assert(admin_table_names()[0].len() != admin_table_names()[24].len());
    assert(admin_table_names()[0].len() != admin_table_names()[25].len());
    assert(admin_table_names()[0].len() != admin_table_names()[26].len());
    assert(admin_table_names()[0].len() != admin_table_names()[27].len());
    assert(admin_table_names()[1].len() != admin_table_names()[2].len());
    assert(admin_table_names()[1].len() != admin_table_names()[3].len());
    assert(admin_table_names()[1].len() != admin_table_names()[4].len());
    assert(admin_table_names()[1].len() != admin_table_names()[5].len());
    assert(admin_table_names()[1].len() != admin_table_names()[6].len());
    assert(admin_table_names()[1].len() != admin_table_names()[7].len());
    assert(admin_table_names()[1][0] != admin_table_names()[8][0]);
    assert(admin_table_names()[1].len() != admin_table_names()[9].len());
    assert(admin_table_names()[1].len() != admin_table_names()[10].len());
    assert(admin_table_names()[1].len() != admin_table_names()[11].len());
    assert(admin_table_names()[1].len() != admin_table_names()[12].len());
    assert(admin_table_names()[1].len() != admin_table_names()[13].len());
    assert(admin_table_names()[1].len() != admin_table_names()[14].len());
    assert(admin_table_names()[1][0] != admin_table_names()[15][0]);
    assert(admin_table_names()[1].len() != admin_table_names()[16].len());
    assert(admin_table_names()[1].len() != admin_table_names()[17].len());
    assert(admin_table_names()[1].len() != admin_table_names()[18].len());
    assert(admin_table_names()[1].len() != admin_table_names()[19].len());
    assert(admin_table_names()[1].len() != admin_table_names()[20].len());
    assert(admin_table_names()[1].len() != admin_table_names()[21].len());
    assert(admin_table_names()[1].len() != admin_table_names()[22].len());
    assert(admin_table_names()[1].len() != admin_table_names()[23].len());
    assert(admin_table_names()[1].len() != admin_table_names()[24].len());
    assert(admin_table_names()[1].len() != admin_table_names()[25].len());
    assert(admin_table_names()[1].len() != admin_table_names()[26].len());
    assert(admin_table_names()[1].len() != admin_table_names()[27].len());
    assert(admin_table_names()[2].len() != admin_table_names()[3].len());
    assert(admin_table_names()[2].len() != admin_table_names()[4].len());
    assert(admin_table_names()[2].len() != admin_table_names()[5].len());
    assert(admin_table_names()[2].len() != admin_table_names()[6].len());
    assert(admin_table_names()[2].len() != admin_table_names()[7].len());
    assert(admin_table_names()[2].len() != admin_table_names()[8].len());
    assert(admin_table_names()[2].len() != admin_table_names()[9].len());
    assert(admin_table_names()[2].len() != admin_table_names()[10].len());
    assert(admin_table_names()[2].len() != admin_table_names()[11].len());
    assert(admin_table_names()[2].len() != admin_table_names()[12].len());
    assert(admin_table_names()[2].len() != admin_table_names()[13].len());
    assert(admin_table_names()[2].len() != admin_table_names()[14].len());
    assert(admin_table_names()[2].len() != admin_table_names()[15].len());
    assert(admin_table_names()[2].len() != admin_table_names()[16].len());
    assert(admin_table_names()[2].len() != admin_table_names()[17].len());
    assert(admin_table_names()[2].len() != admin_table_names()[18].len());
    assert(admin_table_names()[2].len() != admin_table_names()[19].len());
    assert(admin_table_names()[2].len() != admin_table_names()[20].len());
    assert(admin_table_names()[2].len() != admin_table_names()[21].len());
    assert(admin_table_names()[2][0] != admin_table_names()[22][0]);
    assert(admin_table_names()[2].len() != admin_table_names()[23].len());
    assert(admin_table_names()[2].len() != admin_table_names()[24].len());
    assert(admin_table_names()[2].len() != admin_table_names()[25].len());
    assert(admin_table_names()[2].len() != admin_table_names()[26].len());
    assert(admin_table_names()[2].len() != admin_table_names()[27].len());
    assert(admin_table_names()[3].len() != admin_table_names()[4].len());
    assert(admin_table_names()[3][7] != admin_table_names()[5][7]);
    assert(admin_table_names()[3].len() != admin_table_names()[6].len());
    assert(admin_table_names()[3][0] != admin_table_names()[7][0]);
    assert(admin_table_names()[3].len() != admin_table_names()[8].len());
    assert(admin_table_names()[3].len() != admin_table_names()[9].len());
    assert(admin_table_names()[3][0] != admin_table_names()[10][0]);
    assert(admin_table_names()[3][0] != admin_table_names()[11][0]);
    assert(admin_table_names()[3].len() != admin_table_names()[12].len());
    assert(admin_table_names()[3].len() != admin_table_names()[13].len());
    assert(admin_table_names()[3].len() != admin_table_names()[14].len());
    assert(admin_table_names()[3].len() != admin_table_names()[15].len());
    assert(admin_table_names()[3].len() != admin_table_names()[16].len());
    assert(admin_table_names()[3].len() != admin_table_names()[17].len());
    assert(admin_table_names()[3].len() != admin_table_names()[18].len());
    assert(admin_table_names()[3].len() != admin_table_names()[19].len());
    assert(admin_table_names()[3].len() != admin_table_names()[20].len());
    assert(admin_table_names()[3].len() != admin_table_names()[21].len());
    assert(admin_table_names()[3].len() != admin_table_names()[22].len());
    assert(admin_table_names()[3].len() != admin_table_names()[23].len());
    assert(admin_table_names()[3].len() != admin_table_names()[24].len());
    assert(admin_table_names()[3].len() != admin_table_names()[25].len());
    assert(admin_table_names()[3].len() != admin_table_names()[26].len());
    assert(admin_table_names()[3].len() != admin_table_names()[27].len());
    assert(admin_table_names()[4].len() != admin_table_names()[5].len());
    assert(admin_table_names()[4].len() != admin_table_names()[6].len());
    assert(admin_table_names()[4].len() != admin_table_names()[7].len());
    assert(admin_table_names()[4].len() != admin_table_names()[8].len());
    assert(admin_table_names()[4].len() != admin_table_names()[9].len());
    assert(admin_table_names()[4].len() != admin_table_names()[10].len());
    assert(admin_table_names()[4].len() != admin_table_names()[11].len());
    assert(admin_table_names()[4].len() != admin_table_names()[12].len());
    assert(admin_table_names()[4].len() != admin_table_names()[13].len());
    assert(admin_table_names()[4].len() != admin_table_names()[14].len());
    assert(admin_table_names()[4].len() != admin_table_names()[15].len());
    assert(admin_table_names()[4].len() != admin_table_names()[16].len());
    assert(admin_table_names()[4].len() != admin_table_names()[17].len());
    assert(admin_table_names()[4].len() != admin_table_names()[18].len());
    assert(admin_table_names()[4][0] != admin_table_names()[19][0]);
    assert(admin_table_names()[4].len() != admin_table_names()[20].len());
    assert(admin_table_names()[4][0] != admin_table_names()[21][0]);
    assert(admin_table_names()[4].len() != admin_table_names()[22].len());
    assert(admin_table_names()[4][0] != admin_table_names()[23][0]);
    assert(admin_table_names()[4].len() != admin_table_names()[24].len());
    assert(admin_table_names()[4].len() != admin_table_names()[25].len());
    assert(admin_table_names()[4].len() != admin_table_names()[26].len());
    assert(admin_table_names()[4].len() != admin_table_names()[27].len());
    assert(admin_table_names()[5].len() != admin_table_names()[6].len());
    assert(admin_table_names()[5][0] != admin_table_names()[7][0]);
    assert(admin_table_names()[5].len() != admin_table_names()[8].len());
    assert(admin_table_names()[5].len() != admin_table_names()[9].len());
    assert(admin_table_names()[5][0] != admin_table_names()[10][0]);
    assert(admin_table_names()[5][0] != admin_table_names()[11][0]);
    assert(admin_table_names()[5].len() != admin_table_names()[12].len());
    assert(admin_table_names()[5].len() != admin_table_names()[13].len());
    assert(admin_table_names()[5].len() != admin_table_names()[14].len());
    assert(admin_table_names()[5].len() != admin_table_names()[15].len());
    assert(admin_table_names()[5].len() != admin_table_names()[16].len());
    assert(admin_table_names()[5].len() != admin_table_names()[17].len());
    assert(admin_table_names()[5].len() != admin_table_names()[18].len());
    assert(admin_table_names()[5].len() != admin_table_names()[19].len());
    assert(admin_table_names()[5].len() != admin_table_names()[20].len());
    assert(admin_table_names()[5].len() != admin_table_names()[21].len());
    assert(admin_table_names()[5].len() != admin_table_names()[22].len());
    assert(admin_table_names()[5].len() != admin_table_names()[23].len());
    assert(admin_table_names()[5].len() != admin_table_names()[24].len());
    assert(admin_table_names()[5].len() != admin_table_names()[25].len());
    assert(admin_table_names()[5].len() != admin_table_names()[26].len());
    assert(admin_table_names()[5].len() != admin_table_names()[27].len());
    assert(admin_table_names()[6].len() != admin_table_names()[7].len());
    assert(admin_table_names()[6].len() != admin_table_names()[8].len());
    assert(admin_table_names()[6][0] != admin_table_names()[9][0]);
    assert(admin_table_names()[6].len() != admin_table_names()[10].len());
    assert(admin_table_names()[6].len() != admin_table_names()[11].len());
    assert(admin_table_names()[6].len() != admin_table_names()[12].len());
    assert(admin_table_names()[6].len() != admin_table_names()[13].len());
    assert(admin_table_names()[6].len() != admin_table_names()[14].len());
    assert(admin_table_names()[6].len() != admin_table_names()[15].len());
    assert(admin_table_names()[6].len() != admin_table_names()[16].len());
    assert(admin_table_names()[6].len() != admin_table_names()[17].len());
    assert(admin_table_names()[6].len() != admin_table_names()[18].len());
    assert(admin_table_names()[6].len() != admin_table_names()[19].len());
    assert(admin_table_names()[6][0] != admin_table_names()[20][0]);
    assert(admin_table_names()[6].len() != admin_table_names()[21].len());
    assert(admin_table_names()[6].len() != admin_table_names()[22].len());
    assert(admin_table_names()[6].len() != admin_table_names()[23].len());
    assert(admin_table_names()[6].len() != admin_table_names()[24].len());
    assert(admin_table_names()[6].len() != admin_table_names()[25].len());
    assert(admin_table_names()[6].len() != admin_table_names()[26].len());
    assert(admin_table_names()[6].len() != admin_table_names()[27].len());
    assert(admin_table_names()[7].len() != admin_table_names()[8].len());
    assert(admin_table_names()[7].len() != admin_table_names()[9].len());
    assert(admin_table_names()[7][0] != admin_table_names()[10][0]);
    assert(admin_table_names()[7][0] != admin_table_names()[11][0]);
    assert(admin_table_names()[7].len() != admin_table_names()[12].len());
    assert(admin_table_names()[7].len() != admin_table_names()[13].len());
    assert(admin_table_names()[7].len() != admin_table_names()[14].len());
    assert(admin_table_names()[7].len() != admin_table_names()[15].len());
    assert(admin_table_names()[7].len() != admin_table_names()[16].len());
    assert(admin_table_names()[7].len() != admin_table_names()[17].len());
    assert(admin_table_names()[7].len() != admin_table_names()[18].len());
    assert(admin_table_names()[7].len() != admin_table_names()[19].len());
    assert(admin_table_names()[7].len() != admin_table_names()[20].len());
    assert(admin_table_names()[7].len() != admin_table_names()[21].len());
    assert(admin_table_names()[7].len() != admin_table_names()[22].len());
    assert(admin_table_names()[7].len() != admin_table_names()[23].len());
    assert(admin_table_names()[7].len() != admin_table_names()[24].len());
    assert(admin_table_names()[7].len() != admin_table_names()[25].len());
    assert(admin_table_names()[7].len() != admin_table_names()[26].len());
    assert(admin_table_names()[7].len() != admin_table_names()[27].len());
    assert(admin_table_names()[8].len() != admin_table_names()[9].len());
    assert(admin_table_names()[8].len() != admin_table_names()[10].len());
    assert(admin_table_names()[8].len() != admin_table_names()[11].len());
    assert(admin_table_names()[8].len() != admin_table_names()[12].len());
    assert(admin_table_names()[8].len() != admin_table_names()[13].len());
    assert(admin_table_names()[8].len() != admin_table_names()[14].len());
    assert(admin_table_names()[8][0] != admin_table_names()[15][0]);
    assert(admin_table_names()[8].len() != admin_table_names()[16].len());
    assert(admin_table_names()[8].len() != admin_table_names()[17].len());
    assert(admin_table_names()[8].len() != admin_table_names()[18].len());
    assert(admin_table_names()[8].len() != admin_table_names()[19].len());
    assert(admin_table_names()[8].len() != admin_table_names()[20].len());
    assert(admin_table_names()[8].len() != admin_table_names()[21].len());
    assert(admin_table_names()[8].len() != admin_table_names()[22].len());
    assert(admin_table_names()[8].len() != admin_table_names()[23].len());
    assert(admin_table_names()[8].len() != admin_table_names()[24].len());
    assert(admin_table_names()[8].len() != admin_table_names()[25].len());
    assert(admin_table_names()[8].len() != admin_table_names()[26].len());
    assert(admin_table_names()[8].len() != admin_table_names()[27].len());
    assert(admin_table_names()[9].len() != admin_table_names()[10].len());
    assert(admin_table_names()[9].len() != admin_table_names()[11].len());
    assert(admin_table_names()[9].len() != admin_table_names()[12].len());
    assert(admin_table_names()[9].len() != admin_table_names()[13].len());
    assert(admin_table_names()[9].len() != admin_table_names()[14].len());
    assert(admin_table_names()[9].len() != admin_table_names()[15].len());
    assert(admin_table_names()[9].len() != admin_table_names()[16].len());
    assert(admin_table_names()[9].len() != admin_table_names()[17].len());
    assert(admin_table_names()[9].len() != admin_table_names()[18].len());
    assert(admin_table_names()[9].len() != admin_table_names()[19].len());
    assert(admin_table_names()[9][0] != admin_table_names()[20][0]);
    assert(admin_table_names()[9].len() != admin_table_names()[21].len());
    assert(admin_table_names()[9].len() != admin_table_names()[22].len());
    assert(admin_table_names()[9].len() != admin_table_names()[23].len());
    assert(admin_table_names()[9].len() != admin_table_names()[24].len());
    assert(admin_table_names()[9].len() != admin_table_names()[25].len());
    assert(admin_table_names()[9].len() != admin_table_names()[26].len());
    assert(admin_table_names()[9].len() != admin_table_names()[27].len());
    assert(admin_table_names()[10][0] != admin_table_names()[11][0]);
    assert(admin_table_names()[10].len() != admin_table_names()[12].len());
    assert(admin_table_names()[10].len() != admin_table_names()[13].len());
    assert(admin_table_names()[10].len() != admin_table_names()[14].len());
    assert(admin_table_names()[10].len() != admin_table_names()[15].len());
    assert(admin_table_names()[10].len() != admin_table_names()[16].len());
    assert(admin_table_names()[10].len() != admin_table_names()[17].len());
    assert(admin_table_names()[10].len() != admin_table_names()[18].len());
    assert(admin_table_names()[10].len() != admin_table_names()[19].len());
    assert(admin_table_names()[10].len() != admin_table_names()[20].len());
    assert(admin_table_names()[10].len() != admin_table_names()[21].len());
    assert(admin_table_names()[10].len() != admin_table_names()[22].len());
    assert(admin_table_names()[10].len() != admin_table_names()[23].len());
    assert(admin_table_names()[10].len() != admin_table_names()[24].len());
    assert(admin_table_names()[10].len() != admin_table_names()[25].len());
    assert(admin_table_names()[10].len() != admin_table_names()[26].len());
    assert(admin_table_names()[10].len() != admin_table_names()[27].len());
    assert(admin_table_names()[11].len() != admin_table_names()[12].len());
    assert(admin_table_names()[11].len() != admin_table_names()[13].len());
    assert(admin_table_names()[11].len() != admin_table_names()[14].len());
    assert(admin_table_names()[11].len() != admin_table_names()[15].len());
    assert(admin_table_names()[11].len() != admin_table_names()[16].len());
    assert(admin_table_names()[11].len() != admin_table_names()[17].len());
    assert(admin_table_names()[11].len() != admin_table_names()[18].len());
    assert(admin_table_names()[11].len() != admin_table_names()[19].len());
    assert(admin_table_names()[11].len() != admin_table_names()[20].len());
    assert(admin_table_names()[11].len() != admin_table_names()[21].len());
    assert(admin_table_names()[11].len() != admin_table_names()[22].len());
    assert(admin_table_names()[11].len() != admin_table_names()[23].len());
    assert(admin_table_names()[11].len() != admin_table_names()[24].len());
    assert(admin_table_names()[11].len() != admin_table_names()[25].len());
    assert(admin_table_names()[11].len() != admin_table_names()[26].len());
    assert(admin_table_names()[11].len() != admin_table_names()[27].len());
    assert(admin_table_names()[12].len() != admin_table_names()[13].len());
    assert(admin_table_names()[12].len() != admin_table_names()[14].len());
    assert(admin_table_names()[12].len() != admin_table_names()[15].len());
    assert(admin_table_names()[12].len() != admin_table_names()[16].len());
    assert(admin_table_names()[12][0] != admin_table_names()[17][0]);
    assert(admin_table_names()[12].len() != admin_table_names()[18].len());
    assert(admin_table_names()[12].len() != admin_table_names()[19].len());
    assert(admin_table_names()[12].len() != admin_table_names()[20].len());
    assert(admin_table_names()[12].len() != admin_table_names()[21].len());
    assert(admin_table_names()[12].len() != admin_table_names()[22].len());
    assert(admin_table_names()[12].len() != admin_table_names()[23].len());
    assert(admin_table_names()[12].len() != admin_table_names()[24].len());
    assert(admin_table_names()[12].len() != admin_table_names()[25].len());
    assert(admin_table_names()[12].len() != admin_table_names()[26].len());
    assert(admin_table_names()[12][0] != admin_table_names()[27][0]);
    assert(admin_table_names()[13].len() != admin_table_names()[14].len());
    assert(admin_table_names()[13].len() != admin_table_names()[15].len());
    assert(admin_table_names()[13].len() != admin_table_names()[16].len());
    assert(admin_table_names()[13].len() != admin_table_names()[17].len());
    assert(admin_table_names()[13].len() != admin_table_names()[18].len());
    assert(admin_table_names()[13].len() != admin_table_names()[19].len());
    assert(admin_table_names()[13].len() != admin_table_names()[20].len());
    assert(admin_table_names()[13].len() != admin_table_names()[21].len());
    assert(admin_table_names()[13].len() != admin_table_names()[22].len());
    assert(admin_table_names()[13].len() != admin_table_names()[23].len());
    assert(admin_table_names()[13].len() != admin_table_names()[24].len());
    assert(admin_table_names()[13].len() != admin_table_names()[25].len());
    assert(admin_table_names()[13].len() != admin_table_names()[26].len());
    assert(admin_table_names()[13].len() != admin_table_names()[27].len());
    assert(admin_table_names()[14].len() != admin_table_names()[15].len());
    assert(admin_table_names()[14].len() != admin_table_names()[16].len());
    assert(admin_table_names()[14].len() != admin_table_names()[17].len());
    assert(admin_table_names()[14].len() != admin_table_names()[18].len());
    assert(admin_table_names()[14].len() != admin_table_names()[19].len());
    assert(admin_table_names()[14].len() != admin_table_names()[20].len());
    assert(admin_table_names()[14].len() != admin_table_names()[21].len());
    assert(admin_table_names()[14].len() != admin_table_names()[22].len());
    assert(admin_table_names()[14].len() != admin_table_names()[23].len());
    assert(admin_table_names()[14].len() != admin_table_names()[24].len());
    assert(admin_table_names()[14].len() != admin_table_names()[25].len());
    assert(admin_table_names()[14].len() != admin_table_names()[26].len());
    assert(admin_table_names()[14].len() != admin_table_names()[27].len());
    assert(admin_table_names()[15].len() != admin_table_names()[16].len());
    assert(admin_table_names()[15].len() != admin_table_names()[17].len());
    assert(admin_table_names()[15].len() != admin_table_names()[18].len());
    assert(admin_table_names()[15].len() != admin_table_names()[19].len());
    assert(admin_table_names()[15].len() != admin_table_names()[20].len());
    assert(admin_table_names()[15].len() != admin_table_names()[21].len());
    assert(admin_table_names()[15].len() != admin_table_names()[22].len());
    assert(admin_table_names()[15].len() != admin_table_names()[23].len());
    assert(admin_table_names()[15].len() != admin_table_names()[24].len());
    assert(admin_table_names()[15].len() != admin_table_names()[25].len());
    assert(admin_table_names()[15].len() != admin_table_names()[26].len());
    assert(admin_table_names()[15].len() != admin_table_names()[27].len());
    assert(admin_table_names()[16].len() != admin_table_names()[17].len());
    assert(admin_table_names()[16].len() != admin_table_names()[18].len());
    assert(admin_table_names()[16].len() != admin_table_names()[19].len());
    assert(admin_table_names()[16].len() != admin_table_names()[20].len());
    assert(admin_table_names()[16].len() != admin_table_names()[21].len());
    assert(admin_table_names()[16].len() != admin_table_names()[22].len());
    assert(admin_table_names()[16].len() != admin_table_names()[23].len());
    assert(admin_table_names()[16][0] != admin_table_names()[24][0]);
    assert(admin_table_names()[16][0] != admin_table_names()[25][0]);
    assert(admin_table_names()[16].len() != admin_table_names()[26].len());
    assert(admin_table_names()[16].len() != admin_table_names()[27].len());
    assert(admin_table_names()[17].len() != admin_table_names()[18].len());
    assert(admin_table_names()[17].len() != admin_table_names()[19].len());
    assert(admin_table_names()[17].len() != admin_table_names()[20].len());
    assert(admin_table_names()[17].len() != admin_table_names()[21].len());
    assert(admin_table_names()[17].len() != admin_table_names()[22].len());
    assert(admin_table_names()[17].len() != admin_table_names()[23].len());
    assert(admin_table_names()[17].len() != admin_table_names()[24].len());
    assert(admin_table_names()[17].len() != admin_table_names()[25].len());
    assert(admin_table_names()[17].len() != admin_table_names()[26].len());
    assert(admin_table_names()[17][0] != admin_table_names()[27][0]);
    assert(admin_table_names()[18].len() != admin_table_names()[19].len());
    assert(admin_table_names()[18].len() != admin_table_names()[20].len());
    assert(admin_table_names()[18].len() != admin_table_names()[21].len());
    assert(admin_table_names()[18].len() != admin_table_names()[22].len());
    assert(admin_table_names()[18].len() != admin_table_names()[23].len());
    assert(admin_table_names()[18].len() != admin_table_names()[24].len());
    assert(admin_table_names()[18].len() != admin_table_names()[25].len());
    assert(admin_table_names()[18][0] != admin_table_names()[26][0]);
    assert(admin_table_names()[18].len() != admin_table_names()[27].len());
    assert(admin_table_names()[19].len() != admin_table_names()[20].len());
    assert(admin_table_names()[19][8] != admin_table_names()[21][8]);
    assert(admin_table_names()[19].len() != admin_table_names()[22].len());
    assert(admin_table_names()[19][0] != admin_table_names()[23][0]);
    assert(admin_table_names()[19].len() != admin_table_names()[24].len());
    assert(admin_table_names()[19].len() != admin_table_names()[25].len());
    assert(admin_table_names()[19].len() != admin_table_names()[26].len());
    assert(admin_table_names()[19].len() != admin_table_names()[27].len());
    assert(admin_table_names()[20].len() != admin_table_names()[21].len());
    assert(admin_table_names()[20].len() != admin_table_names()[22].len());
    assert(admin_table_names()[20].len() != admin_table_names()[23].len());
    assert(admin_table_names()[20].len() != admin_table_names()[24].len());
    assert(admin_table_names()[20].len() != admin_table_names()[25].len());
    assert(admin_table_names()[20].len() != admin_table_names()[26].len());
    assert(admin_table_names()[20].len() != admin_table_names()[27].len());
    assert(admin_table_names()[21].len() != admin_table_names()[22].len());
    assert(admin_table_names()[21][0] != admin_table_names()[23][0]);
    assert(admin_table_names()[21].len() != admin_table_names()[24].len());
    assert(admin_table_names()[21].len() != admin_table_names()[25].len());
    assert(admin_table_names()[21].len() != admin_table_names()[26].len());
    assert(admin_table_names()[21].len() != admin_table_names()[27].len());
    assert(admin_table_names()[22].len() != admin_table_names()[23].len());
    assert(admin_table_names()[22].len() != admin_table_names()[24].len());
    assert(admin_table_names()[22].len() != admin_table_names()[25].len());
    assert(admin_table_names()[22].len() != admin_table_names()[26].len());
    assert(admin_table_names()[22].len() != admin_table_names()[27].len());
    assert(admin_table_names()[23].len() != admin_table_names()[24].len());
    assert(admin_table_names()[23].len() != admin_table_names()[25].len());
    assert(admin_table_names()[23].len() != admin_table_names()[26].len());
    assert(admin_table_names()[23].len() != admin_table_names()[27].len());
    assert(admin_table_names()[24][5] != admin_table_names()[25][5]);
    assert(admin_table_names()[24].len() != admin_table_names()[26].len());
    assert(admin_table_names()[24].len() != admin_table_names()[27].len());
    assert(admin_table_names()[25].len() != admin_table_names()[26].len());
    assert(admin_table_names()[25].len() != admin_table_names()[27].len());
    assert(admin_table_names()[26].len() != admin_table_names()[27].len());
}

proof fn lemma_name_index_finds(i: int, k: int)
    requires
        0 <= k <= i < admin_table_names().len(),
        forall|a: int, b: int| 0 <= a < b < admin_table_names().len() ==> admin_table_names()[a] != admin_table_names()[b],
    ensures
        name_index(admin_table_names(), admin_table_names()[i], k) == i,
    decreases i - k,
{
    if k < i {
        lemma_name_index_finds(i, k + 1);
    }
}

/// Every browsable table is found by its own name.
pub proof fn law_tables_found_by_name(i: int)
    requires
        0 <= i < admin_table_names().len(),
    ensures
        name_index(admin_table_names(), admin_table_names()[i], 0) == i,
{
    law_admin_tables_distinct();
    lemma_name_index_finds(i, 0);
}

} // verus!
