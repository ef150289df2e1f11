//! Exchange-rate requests: validating and normalising the currency codes,
//! and the cache key of a request.
use vstd::prelude::*;
use crate::error::AppError;
use crate::lexorder::{lemma_lex_asymmetric, lemma_lex_irreflexive, lemma_lex_total, lemma_lex_transitive, lex_lt, str_lt, string_views};
use crate::numfmt::{dec_chars, dec_text, signed_dec_chars, signed_dec_text};
use crate::request_metrics::{ascii_upper, upper};
use crate::text::{chars_of, concat_chars, join_strings, join_with, split_chars, split_on, str_eq, string_of, trim, trim_ws, views};

verus! {

/// Whether `c` is an ASCII letter.
pub open spec fn is_ascii_alpha(c: char) -> bool {
    ('a' <= c <= 'z') || ('A' <= c <= 'Z')
}

/// ASCII upper-casing of a string.
pub open spec fn upper_all(s: Seq<char>) -> Seq<char> {
    s.map_values(|c: char| ascii_upper(c))
}

/// A currency code as given: trimmed and upper-cased, it must be three
/// ASCII letters.
pub open spec fn normalize_code_spec(v: Seq<char>) -> Option<Seq<char>> {
    let code = upper_all(trim(v));
    if code.len() == 3 && forall|i: int| 0 <= i < 3 ==> #[trigger] is_ascii_alpha(code[i]) {
        Some(code)
    } else {
        None
    }
}

/// Normalises a currency code: trimmed, upper-cased, three ASCII letters.
pub fn normalize_code(value: &str) -> (res: Option<String>)
    ensures
        match res {
            Some(c) => normalize_code_spec(value@) == Some(c@),
            None => normalize_code_spec(value@) is None,
        },
{
    let t = trim_ws(&chars_of(value));
    let mut code: Vec<char> = Vec::new();
    let mut i: usize = 0;
    while i < t.len()
        invariant
            i <= t@.len(),
            t@ == trim(value@),
            code@ == upper_all(t@).take(i as int),
        decreases t@.len() - i,
    {
        code.push(upper(t[i]));
        i = i + 1;
        assert(code@ =~= upper_all(t@).take(i as int));
    }
    assert(upper_all(t@).take(t@.len() as int) =~= upper_all(t@));
    assert(code@ == upper_all(trim(value@)));
    if code.len() != 3 {
        assert(normalize_code_spec(value@) is None);
        return None;
    }
    let mut k: usize = 0;
    while k < 3
        invariant
            k <= 3,
            code@.len() == 3,
            code@ == upper_all(trim(value@)),
            forall|j: int| 0 <= j < k ==> #[trigger] is_ascii_alpha(code@[j]),
        decreases 3 - k,
    {
        let c = code[k];
        if !(('a' <= c && c <= 'z') || ('A' <= c && c <= 'Z')) {
            assert(!is_ascii_alpha(code@[k as int]));
            assert(normalize_code_spec(value@) is None);
            return None;
        }
        k = k + 1;
    }
    Some(string_of(&code))
}

/// The first part, from index `i` on, that is not a currency code.
pub open spec fn first_invalid(parts: Seq<Seq<char>>, i: int) -> Option<Seq<char>>
    decreases parts.len() - i,
{
    if i < 0 || i >= parts.len() {
        None
    } else if normalize_code_spec(parts[i]) is None {
        Some(parts[i])
    } else {
        first_invalid(parts, i + 1)
    }
}

/// Whether `s` is the code of one of the first `n` parts and differs from
/// the base currency.
pub open spec fn wanted_code(parts: Seq<Seq<char>>, base: Seq<char>, n: int, s: Seq<char>) -> bool {
    exists|i: int| 0 <= i < n && normalize_code_spec(parts[i]) == Some(s) && s != base
}

/// Whether the strings are in strictly increasing lexicographic order.
pub open spec fn strictly_sorted(v: Seq<Seq<char>>) -> bool {
    forall|a: int, b: int| 0 <= a < b < v.len() ==> lex_lt(v[a], v[b])
}

/// Inserts `c` into the strictly sorted `out`, keeping it strictly sorted;
/// nothing changes when `c` is already there.
fn insert_sorted(out: &mut Vec<String>, c: String)
    requires
        strictly_sorted(string_views(old(out)@)),
    ensures
        strictly_sorted(string_views(final(out)@)),
        forall|s: Seq<char>| string_views(final(out)@).contains(s) <==> (string_views(old(out)@).contains(s) || s == c@),
{
    let ghost o = string_views(out@);
    let mut i: usize = 0;
    while i < out.len() && str_lt(out[i].as_str(), c.as_str())
        invariant
            i <= out@.len(),
            string_views(out@) == o,
            forall|k: int| 0 <= k < i ==> lex_lt(#[trigger] o[k], c@),
        decreases out@.len() - i,
    {
        assert(o[i as int] == out@[i as int]@);
        i = i + 1;
    }
    if i < out.len() && str_eq(out[i].as_str(), c.as_str()) {
        assert(o[i as int] == c@);
        assert(o.contains(c@));
        return;
    }
    proof {
        if i < out@.len() {
            assert(o[i as int] == out@[i as int]@);
            assert(!lex_lt(o[i as int], c@));
            assert(o[i as int] != c@);
            lemma_lex_total(o[i as int], c@);
        }
    }
    let ghost before = out@;
    out.insert(i, c);
    proof {
        let n = string_views(out@);
        assert(n =~= o.insert(i as int, c@));
        assert forall|a: int, b: int| 0 <= a < b < n.len() implies lex_lt(n[a], n[b]) by {
            if b < i {
            } else if b == i {
                assert(n[a] == o[a]);
            } else if a == i {
                assert(n[b] == o[b - 1]);
                if b - 1 > i {
                    lemma_lex_transitive(c@, o[i as int], o[b - 1]);
                }
            } else if a < i {
                assert(n[a] == o[a]);
                assert(n[b] == o[b - 1]);
                if b - 1 >= i as int {
                    assert(lex_lt(o[a], c@));
                    if b - 1 > i {
                        lemma_lex_transitive(c@, o[i as int], o[b - 1]);
                    }
                    lemma_lex_transitive(o[a], c@, o[b - 1]);
                }
            } else {
                assert(n[a] == o[a - 1]);
                assert(n[b] == o[b - 1]);
            }
        }
        assert forall|s: Seq<char>| n.contains(s) <==> (o.contains(s) || s == c@) by {
            if n.contains(s) {
                let j = choose|j: int| 0 <= j < n.len() && n[j] == s;
                if j < i {
                    assert(o[j] == s);
                } else if j > i {
                    assert(o[j - 1] == s);
                }
            }
            if o.contains(s) {
                let j = choose|j: int| 0 <= j < o.len() && o[j] == s;
                if j < i {
                    assert(n[j] == s);
                } else {
                    assert(n[j + 1] == s);
                }
            }
            if s == c@ {
                assert(n[i as int] == s);
            }
        }
    }
}

/// The message refusing a request whose targets are all the base currency.
pub open spec fn no_targets_message() -> Seq<char> {
    "targets must include at least one currency different from base"@
}

/// Whether `v` is the list of target currencies of `targets` for base
/// `base`: every part is a currency code, and `v` lists, sorted and without
/// repeats, the codes that differ from the base; there is at least one.
pub open spec fn targets_accepted(targets: Seq<char>, base: Seq<char>, v: Seq<Seq<char>>) -> bool {
    let parts = split_on(targets, ',');
    &&& first_invalid(parts, 0) is None
    &&& v.len() > 0
    &&& strictly_sorted(v)
    &&& forall|s: Seq<char>| v.contains(s) <==> wanted_code(parts, base, parts.len() as int, s)
}

/// Whether `m` is the message refusing the targets `targets` for base
/// `base`: the first part that is no currency code, trimmed, or else the
/// complaint that no code differs from the base.
pub open spec fn targets_refused(targets: Seq<char>, base: Seq<char>, m: Seq<char>) -> bool {
    let parts = split_on(targets, ',');
    match first_invalid(parts, 0) {
        Some(p) => m == "Invalid target currency: "@ + trim(p),
        None => m == no_targets_message() && forall|s: Seq<char>| !wanted_code(parts, base, parts.len() as int, s),
    }
}

/// The target currencies of a rates request: the comma-separated codes of
/// `targets`, normalised, without the base currency, sorted and without
/// repeats. The first part that is not a code is refused with
/// `Invalid target currency: <part, trimmed>`; a list left empty is refused
/// too.
pub fn normalize_targets(targets: &str, base: &str) -> (res: Result<Vec<String>, AppError>)
    ensures
        match res {
            Ok(v) => targets_accepted(targets@, base@, string_views(v@)),
            Err(AppError::BadRequest(m)) => targets_refused(targets@, base@, m@),
            Err(_) => false,
        },
{
    let pieces = split_chars(&chars_of(targets), ',');
    let ghost parts = split_on(targets@, ',');
    let mut values: Vec<String> = Vec::new();
    let mut i: usize = 0;
    while i < pieces.len()
        invariant
            i <= pieces@.len(),
            views(pieces@) == parts,
            parts == split_on(targets@, ','),
            first_invalid(parts, 0) == first_invalid(parts, i as int),
            strictly_sorted(string_views(values@)),
            forall|s: Seq<char>| string_views(values@).contains(s) <==> wanted_code(parts, base@, i as int, s),
        decreases pieces@.len() - i,
    {
        assert(parts[i as int] == pieces@[i as int]@);
        let piece = string_of(&pieces[i]);
        match normalize_code(piece.as_str()) {
            None => {
                assert(first_invalid(parts, i as int) == Some(parts[i as int]));
                let t = trim_ws(&pieces[i]);
                let m = concat_chars(&chars_of("Invalid target currency: "), &t);
                assert(m@ == "Invalid target currency: "@ + trim(parts[i as int]));
                assert(first_invalid(parts, 0) == Some(parts[i as int]));
                return Err(AppError::BadRequest(string_of(&m)));
            },
            Some(code) => {
                let ghost cv = code@;
                if !str_eq(code.as_str(), base) {
                    insert_sorted(&mut values, code);
                } 
                proof {
                    assert forall|s: Seq<char>| string_views(values@).contains(s) <==> wanted_code(parts, base@, i + 1, s) by {
                        if wanted_code(parts, base@, i + 1, s) {
                            let j = choose|j: int| 0 <= j < i + 1 && normalize_code_spec(parts[j]) == Some(s) && s != base@;
                            if j < i {
                                assert(wanted_code(parts, base@, i as int, s));
                            }
                        }
                        if wanted_code(parts, base@, i as int, s) {
                            let j = choose|j: int| 0 <= j < i && normalize_code_spec(parts[j]) == Some(s) && s != base@;
                            assert(0 <= j < i + 1 && normalize_code_spec(parts[j]) == Some(s) && s != base@);
                        }
                        if s == cv && cv != base@ {
                            assert(normalize_code_spec(parts[i as int]) == Some(s));
                        }
                    }
                }
            },
        }
        i = i + 1;
    }
    if values.len() == 0 {
        proof {
            assert forall|s: Seq<char>| !wanted_code(parts, base@, parts.len() as int, s) by {
                if wanted_code(parts, base@, parts.len() as int, s) {
                    assert(string_views(values@).contains(s));
                }
            }
        }
        return Err(AppError::BadRequest(string_of(&chars_of("targets must include at least one currency different from base"))));
    }
    Ok(values)
}

/// A validated exchange-rate request.
pub struct RatesRequest {
    pub base: String,
    pub targets: Vec<String>,
    /// The targets joined by `,`, as stored in the cache.
    pub targets_csv: String,
    pub days: u16,
}

/// The base currency as given, `USD` when absent.
pub open spec fn base_given(base: Option<&str>) -> Seq<char> {
    match base {
        Some(b) => b@,
        None => "USD"@,
    }
}

/// Validates an exchange-rate request: the base currency (`USD` when
/// absent) must be a currency code, `days` (7 when absent) must lie in
/// 1..=30, and the targets must pass [`normalize_targets`] for that base.
pub fn rates_request(base: Option<&str>, targets: &str, days: Option<u16>) -> (res: Result<RatesRequest, AppError>)
    ensures
        ({
            let d: u16 = match days {
                Some(x) => x,
                None => 7,
            };
            match normalize_code_spec(base_given(base)) {
                None => res matches Err(AppError::BadRequest(m)) && m@ == "Invalid base currency"@,
                Some(b) => if !(1 <= d <= 30) {
                    res matches Err(AppError::BadRequest(m)) && m@ == "days must be between 1 and 30"@
                } else {
                    match res {
                        Ok(r) => {
                            &&& r.base@ == b
                            &&& r.days == d
                            &&& targets_accepted(targets@, b, string_views(r.targets@))
                            &&& r.targets_csv@ == join_with(string_views(r.targets@), ","@)
                        },
                        Err(AppError::BadRequest(m)) => targets_refused(targets@, b, m@),
                        Err(_) => false,
                    }
                },
            }
        }),
{
    let given = match base {
        Some(b) => b,
        None => "USD",
    };
    let b = match normalize_code(given) {
        Some(b) => b,
        None => {
            return Err(AppError::BadRequest(string_of(&chars_of("Invalid base currency"))));
        },
    };
    let d: u16 = match days {
        Some(x) => x,
        None => 7,
    };
    if !(1 <= d && d <= 30) {
        return Err(AppError::BadRequest(string_of(&chars_of("days must be between 1 and 30"))));
    }
    let ts = match normalize_targets(targets, b.as_str()) {
        Ok(v) => v,
        Err(e) => {
            return Err(e);
        },
    };
    let csv = join_strings(&ts, ",");
    Ok(RatesRequest { base: b, targets: ts, targets_csv: csv, days: d })
}

/// The single-flight key of a rates refresh in window `bucket`:
/// `currency:<base>:<targets_csv>:<days>:<bucket>`.
pub fn rates_flight_key(req: &RatesRequest, bucket: i64) -> (res: String)
    ensures
        res@ == "currency:"@ + req.base@ + ":"@ + req.targets_csv@ + ":"@ + dec_text(req.days as nat) + ":"@
            + signed_dec_text(bucket as int),
{
    let a = concat_chars(&chars_of("currency:"), &chars_of(req.base.as_str()));
    let b = concat_chars(&a, &chars_of(":"));
    let c = concat_chars(&b, &chars_of(req.targets_csv.as_str()));
    let d = concat_chars(&c, &chars_of(":"));
    let e = concat_chars(&d, &dec_chars(req.days as u64));
    let f = concat_chars(&e, &chars_of(":"));
    let g = concat_chars(&f, &signed_dec_chars(bucket));
    string_of(&g)
}

/// An accepted target list never holds the base currency and holds no code
/// twice.
pub proof fn law_targets_exclude_base(targets: Seq<char>, base: Seq<char>, v: Seq<Seq<char>>)
    requires
        targets_accepted(targets, base, v),
    ensures
        !v.contains(base),
        forall|a: int, b: int| 0 <= a < b < v.len() ==> v[a] != v[b],
{
    let parts = split_on(targets, ',');
    if v.contains(base) {
        assert(wanted_code(parts, base, parts.len() as int, base));
    }
    assert forall|a: int, b: int| 0 <= a < b < v.len() implies v[a] != v[b] by {
        assert(lex_lt(v[a], v[b]));
        if v[a] == v[b] {
            lemma_lex_irreflexive(v[a]);
        }
    }
}

} // verus!
