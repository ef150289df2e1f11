use tokimo_server::error::AppError;
use tokimo_server::query_params::{both_required, non_blank, required_trimmed, subtitle_search, trimmed_or};

fn message<T>(r: Result<T, AppError>) -> String {
    match r {
        Err(AppError::BadRequest(m)) => m,
        _ => panic!("expected a bad request"),
    }
}

#[test]
fn required_parameters_are_trimmed() {
    assert_eq!(required_trimmed("  naruto ", "q must not be empty").ok(), Some("naruto".to_string()));
    assert_eq!(message(required_trimmed(" \t", "q must not be empty")), "q must not be empty");
    assert_eq!(message(required_trimmed("", "filehash must not be empty")), "filehash must not be empty");
}

#[test]
fn pairs_need_both_parts() {
    assert_eq!(
        both_required(" 12 ", "en ", "show_id and lang must not be empty").ok(),
        Some(("12".to_string(), "en".to_string()))
    );
    assert_eq!(message(both_required("12", " ", "show_id and lang must not be empty")), "show_id and lang must not be empty");
    assert_eq!(message(both_required("", "en", "show_id and lang must not be empty")), "show_id and lang must not be empty");
}

#[test]
fn defaults_replace_blank_values() {
    assert_eq!(trimmed_or(None, "chn"), "chn");
    assert_eq!(trimmed_or(Some("   "), "chn"), "chn");
    assert_eq!(trimmed_or(Some(" eng "), "chn"), "eng");
    assert_eq!(trimmed_or(None, ""), "");
    assert_eq!(non_blank(Some(" a ")), Some("a".to_string()));
    assert_eq!(non_blank(Some("  ")), None);
    assert_eq!(non_blank(None), None);
}

#[test]
fn subtitle_searches_need_a_query_or_an_imdb_id() {
    let s = subtitle_search(Some(" matrix "), None, Some(" 603"), None).ok().unwrap();
    assert_eq!((s.query.as_str(), s.imdb.as_str(), s.tmdb.as_str(), s.langs.as_str()), ("matrix", "", "603", ""));
    let t = subtitle_search(None, Some("tt0133093"), None, Some("en,fr")).ok().unwrap();
    assert_eq!((t.imdb.as_str(), t.langs.as_str()), ("tt0133093", "en,fr"));
    assert_eq!(
        message(subtitle_search(Some("  "), None, Some("603"), None)),
        "at least one of query / imdb_id is required"
    );
}
