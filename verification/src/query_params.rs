//! Validation of the free-text query parameters of the provider routes.
use vstd::prelude::*;
use crate::error::AppError;
use crate::text::{chars_of, string_of, trim, trim_ws};

verus! {

/// The text of an optional parameter, empty when absent.
pub open spec fn given(p: Option<&str>) -> Seq<char> {
    match p {
        Some(s) => s@,
        None => Seq::empty(),
    }
}

fn trimmed(p: Option<&str>) -> (res: Vec<char>)
    ensures
        res@ == trim(given(p)),
{
    match p {
        Some(s) => trim_ws(&chars_of(s)),
        None => {
            let e: Vec<char> = Vec::new();
            assert(trim(Seq::<char>::empty()) =~= Seq::<char>::empty());
            e
        },
    }
}

/// A required parameter, trimmed; refused with `message` when nothing is
/// left.
pub fn required_trimmed(value: &str, message: &str) -> (res: Result<String, AppError>)
    ensures
        trim(value@).len() == 0 ==> (res matches Err(AppError::BadRequest(m)) && m@ == message@),
        trim(value@).len() > 0 ==> (res matches Ok(v) && v@ == trim(value@)),
{
    let t = trim_ws(&chars_of(value));
    if t.len() == 0 {
        Err(AppError::BadRequest(string_of(&chars_of(message))))
    } else {
        Ok(string_of(&t))
    }
}

/// Two required parameters, trimmed; refused with `message` when either is
/// left empty.
pub fn both_required(a: &str, b: &str, message: &str) -> (res: Result<(String, String), AppError>)
    ensures
        (trim(a@).len() == 0 || trim(b@).len() == 0) ==> (res matches Err(AppError::BadRequest(m)) && m@ == message@),
        (trim(a@).len() > 0 && trim(b@).len() > 0) ==> (res matches Ok((x, y)) && x@ == trim(a@) && y@ == trim(b@)),
{
    let x = trim_ws(&chars_of(a));
    let y = trim_ws(&chars_of(b));
    if x.len() == 0 || y.len() == 0 {
        Err(AppError::BadRequest(string_of(&chars_of(message))))
    } else {
        Ok((string_of(&x), string_of(&y)))
    }
}

/// An optional parameter, trimmed, or `default` when that leaves it empty.
pub fn trimmed_or(value: Option<&str>, default: &str) -> (res: String)
    ensures
        res@ == (if trim(given(value)).len() == 0 {
            default@
        } else {
            trim(given(value))
        }),
{
    let t = trimmed(value);
    if t.len() == 0 {
        string_of(&chars_of(default))
    } else {
        string_of(&t)
    }
}

/// An optional parameter, trimmed; `None` when absent or blank.
pub fn non_blank(value: Option<&str>) -> (res: Option<String>)
    ensures
        match res {
            Some(v) => trim(given(value)).len() > 0 && v@ == trim(given(value)),
            None => trim(given(value)).len() == 0,
        },
{
    let t = trimmed(value);
    if t.len() == 0 {
        None
    } else {
        Some(string_of(&t))
    }
}

/// A subtitle search: the trimmed `query`, `imdb_id`, `tmdb_id` and
/// `languages` (each empty when absent).
pub struct SubtitleSearch {
    pub query: String,
    pub imdb: String,
    pub tmdb: String,
    pub langs: String,
}

/// Validates a subtitle search: at least one of `query` and `imdb_id` must
/// be given.
pub fn subtitle_search(
    query: Option<&str>,
    imdb_id: Option<&str>,
    tmdb_id: Option<&str>,
    languages: Option<&str>,
) -> (res: Result<SubtitleSearch, AppError>)
    ensures
        (trim(given(query)).len() == 0 && trim(given(imdb_id)).len() == 0) ==> (res matches Err(
            AppError::BadRequest(m),
        ) && m@ == "at least one of query / imdb_id is required"@),
        !(trim(given(query)).len() == 0 && trim(given(imdb_id)).len() == 0) ==> (res matches Ok(s) && s.query@
            == trim(given(query)) && s.imdb@ == trim(given(imdb_id)) && s.tmdb@ == trim(given(tmdb_id)) && s.langs@
            == trim(given(languages))),
{
    let q = trimmed(query);
    let i = trimmed(imdb_id);
    if q.len() == 0 && i.len() == 0 {
        return Err(AppError::BadRequest(string_of(&chars_of("at least one of query / imdb_id is required"))));
    }
    Ok(SubtitleSearch {
        query: string_of(&q),
        imdb: string_of(&i),
        tmdb: string_of(&trimmed(tmdb_id)),
        langs: string_of(&trimmed(languages)),
    })
}

} // verus!
