//! Retention tiers of the cache tables and the periodic cleanup that deletes
//! rows older than their table's tier allows.
use vstd::prelude::*;
use crate::text::{chars_of, concat_chars, string_of};

verus! {

/// How long rows of a cache table are kept before cleanup may delete them.
#[derive(Clone, Copy, Debug, PartialEq, Eq, Structural)]
pub enum RetentionTier {
    /// One day.
    Volatile,
    /// Seven days.
    Short,
    /// Thirty days.
    Medium,
    /// Never cleaned.
    Permanent,
}

/// The retention of a tier in seconds; `None` for permanent tables.
pub open spec fn tier_secs(t: RetentionTier) -> Option<i64> {
    match t {
        RetentionTier::Volatile => Some(86_400i64),
        RetentionTier::Short => Some(604_800i64),
        RetentionTier::Medium => Some(2_592_000i64),
        RetentionTier::Permanent => None,
    }
}

impl RetentionTier {
    /// The retention of this tier in seconds; `None` for permanent tables.
    pub fn duration_secs(self) -> (res: Option<i64>)
        ensures
            res == tier_secs(self),
    {
        match self {
            RetentionTier::Volatile => Some(86_400),
            RetentionTier::Short => Some(7 * 86_400),
            RetentionTier::Medium => Some(30 * 86_400),
            RetentionTier::Permanent => None,
        }
    }
}

/// Longer-lived tiers keep rows longer: volatile < short < medium, and
/// permanent has no retention limit at all.
pub proof fn law_tiers_are_ordered()
    ensures
        tier_secs(RetentionTier::Volatile).unwrap() < tier_secs(RetentionTier::Short).unwrap(),
        tier_secs(RetentionTier::Short).unwrap() < tier_secs(RetentionTier::Medium).unwrap(),
        tier_secs(RetentionTier::Permanent) is None,
        tier_secs(RetentionTier::Volatile) is Some,
        tier_secs(RetentionTier::Short) is Some,
        tier_secs(RetentionTier::Medium) is Some,
{
}

/// A cache table, the timestamp column its age is read from, and its tier.
#[derive(Clone, Copy, Debug)]
pub struct CacheTableRetention {
    pub table: &'static str,
    pub timestamp_col: &'static str,
    pub tier: RetentionTier,
}

/// Names of the cleaned cache tables, in cleanup order.
pub open spec fn retention_table_names() -> Seq<Seq<char>> {
    seq![
        "hot_search_snapshots"@, "hot_search_items"@, "currency_rates"@, "openmeteo_forecasts"@,
        "zenquotes_cache"@, "hitokoto_cache"@, "bing_wallpaper_cache"@,
        "github_releases"@, "gestdown_cache"@, "regielive_cache"@, "shooter_cache"@,
        "animetosho_cache"@, "assrt_searches"@, "assrt_sub_details"@, "opensubtitles_cache"@,
        "lrclib_lyrics"@,
        "sport_matches"@, "holiday_years"@, "geocoding_results"@, "nominatim_geocode"@,
    ]
}

/// The tier of the `i`-th cleaned table: the first seven are volatile, the
/// next nine short, the last four medium.
pub open spec fn retention_tier_at(i: int) -> RetentionTier {
    if i < 7 {
        RetentionTier::Volatile
    } else if i < 16 {
        RetentionTier::Short
    } else {
        RetentionTier::Medium
    }
}

fn entry(table: &'static str, tier: RetentionTier) -> (res: CacheTableRetention)
    ensures
        res.table@ == table@,
        res.timestamp_col@ == "fetched_at"@,
        res.tier == tier,
{
    CacheTableRetention { table, timestamp_col: "fetched_at", tier }
}

/// The cache tables that cleanup visits. Permanent tables are left out:
/// they are never cleaned. Every listed table is timed by `fetched_at`.
pub fn cache_tables() -> (res: Vec<CacheTableRetention>)
    ensures
        res@.len() == retention_table_names().len(),
        forall|i: int| 0 <= i < res@.len() ==> {
            &&& (#[trigger] res@[i]).table@ == retention_table_names()[i]
            &&& res@[i].timestamp_col@ == "fetched_at"@
            &&& res@[i].tier == retention_tier_at(i)
        },
{
    let mut v: Vec<CacheTableRetention> = Vec::new();
    v.push(entry("hot_search_snapshots", RetentionTier::Volatile));
    v.push(entry("hot_search_items", RetentionTier::Volatile));
    v.push(entry("currency_rates", RetentionTier::Volatile));
    v.push(entry("openmeteo_forecasts", RetentionTier::Volatile));
    v.push(entry("zenquotes_cache", RetentionTier::Volatile));
    v.push(entry("hitokoto_cache", RetentionTier::Volatile));
    v.push(entry("bing_wallpaper_cache", RetentionTier::Volatile));
    v.push(entry("github_releases", RetentionTier::Short));
    v.push(entry("gestdown_cache", RetentionTier::Short));
    v.push(entry("regielive_cache", RetentionTier::Short));
    v.push(entry("shooter_cache", RetentionTier::Short));
    v.push(entry("animetosho_cache", RetentionTier::Short));
    v.push(entry("assrt_searches", RetentionTier::Short));
    v.push(entry("assrt_sub_details", RetentionTier::Short));
    v.push(entry("opensubtitles_cache", RetentionTier::Short));
    v.push(entry("lrclib_lyrics", RetentionTier::Short));
    v.push(entry("sport_matches", RetentionTier::Medium));
    v.push(entry("holiday_years", RetentionTier::Medium));
    v.push(entry("geocoding_results", RetentionTier::Medium));
    v.push(entry("nominatim_geocode", RetentionTier::Medium));
    v
}

/// No table that cleanup visits is permanent.
pub proof fn law_cleaned_tables_are_not_permanent(i: int)
    requires
        0 <= i < retention_table_names().len(),
    ensures
        retention_tier_at(i) != RetentionTier::Permanent,
        tier_secs(retention_tier_at(i)) is Some,
{
}

/// The label a tier is reported under.
pub open spec fn tier_label_spec(t: RetentionTier) -> Seq<char> {
    match t {
        RetentionTier::Volatile => "volatile"@,
        RetentionTier::Short => "short"@,
        RetentionTier::Medium => "medium"@,
        RetentionTier::Permanent => "permanent"@,
    }
}

/// The label of a table's tier in cleanup reports.
pub fn tier_label(entry: &CacheTableRetention) -> (res: &'static str)
    ensures
        res@ == tier_label_spec(entry.tier),
{
    match entry.tier {
        RetentionTier::Volatile => "volatile",
        RetentionTier::Short => "short",
        RetentionTier::Medium => "medium",
        RetentionTier::Permanent => "permanent",
    }
}

/// The statement that deletes a table's rows older than `$1` seconds.
pub open spec fn cleanup_sql_spec(table: Seq<char>, col: Seq<char>) -> Seq<char> {
    "DELETE FROM "@ + table + " WHERE "@ + col + " < now() - make_interval(secs => $1)"@
}

/// What cleanup runs for a table: the delete statement and the retention in
/// seconds bound to `$1`; `None` for a permanent table, which is skipped.
pub fn cleanup_statement(entry: &CacheTableRetention) -> (res: Option<(String, i64)>)
    ensures
        match res {
            Some((sql, secs)) => tier_secs(entry.tier) == Some(secs) && sql@ == cleanup_sql_spec(
                entry.table@,
                entry.timestamp_col@,
            ),
            None => tier_secs(entry.tier) is None,
        },
{
    match entry.tier.duration_secs() {
        None => None,
        Some(secs) => {
            let a = concat_chars(&chars_of("DELETE FROM "), &chars_of(entry.table));
            let b = concat_chars(&a, &chars_of(" WHERE "));
            let c = concat_chars(&b, &chars_of(entry.timestamp_col));
            let d = concat_chars(&c, &chars_of(" < now() - make_interval(secs => $1)"));
            Some((string_of(&d), secs))
        },
    }
}

/// The statement that sweeps the key-value cache of expired entries.
pub fn cache_entries_cleanup_sql() -> (res: &'static str)
    ensures
        res@ == "DELETE FROM cache_entries WHERE expires_at < now()"@,
{
    "DELETE FROM cache_entries WHERE expires_at < now()"
}

/// The outcome of cleaning one table.
pub struct TableCleanupResult {
    pub table: &'static str,
    pub tier: &'static str,
    pub rows_deleted: u64,
    pub duration_ms: u64,
    pub error: Option<String>,
}

/// The report for a table given what its delete statement returned: the
/// number of deleted rows, or the database's error (then 0 rows). A permanent
/// table, for which no statement runs, is reported with `outcome` `Ok(0)`.
pub fn table_cleanup_result(
    entry: &CacheTableRetention,
    outcome: Result<u64, String>,
    duration_ms: u64,
) -> (res: TableCleanupResult)
    ensures
        res.table@ == entry.table@,
        res.tier@ == tier_label_spec(entry.tier),
        res.duration_ms == duration_ms,
        match outcome {
            Ok(n) => res.rows_deleted == n && res.error is None,
            Err(e) => res.rows_deleted == 0 && res.error == Some(e),
        },
{
    let tier = tier_label(entry);
    match outcome {
        Ok(n) => TableCleanupResult { table: entry.table, tier, rows_deleted: n, duration_ms, error: None },
        Err(e) => TableCleanupResult { table: entry.table, tier, rows_deleted: 0, duration_ms, error: Some(e) },
    }
}

/// The report for the key-value cache sweep, labelled tier `ttl`.
pub fn cache_entries_cleanup_result(outcome: Result<u64, String>, duration_ms: u64) -> (res: TableCleanupResult)
    ensures
        res.table@ == "cache_entries"@,
        res.tier@ == "ttl"@,
        res.duration_ms == duration_ms,
        match outcome {
            Ok(n) => res.rows_deleted == n && res.error is None,
            Err(e) => res.rows_deleted == 0 && res.error == Some(e),
        },
{
    match outcome {
        Ok(n) => TableCleanupResult { table: "cache_entries", tier: "ttl", rows_deleted: n, duration_ms, error: None },
        Err(e) => TableCleanupResult { table: "cache_entries", tier: "ttl", rows_deleted: 0, duration_ms, error: Some(e) },
    }
}

/// The sum of the rows deleted over the first `n` reports.
pub open spec fn rows_deleted_sum(rs: Seq<TableCleanupResult>, n: int) -> int
    decreases n,
{
    if n <= 0 {
        0
    } else {
        rows_deleted_sum(rs, n - 1) + rs[n - 1].rows_deleted
    }
}

proof fn lemma_rows_deleted_sum_monotone(rs: Seq<TableCleanupResult>, i: int, j: int)
    requires
        0 <= i <= j <= rs.len(),
    ensures
        rows_deleted_sum(rs, i) <= rows_deleted_sum(rs, j),
    decreases j - i,
{
    if i < j {
        lemma_rows_deleted_sum_monotone(rs, i, j - 1);
    }
}

/// The total number of rows a cleanup run deleted, held at `u64::MAX` when
/// it does not fit.
pub fn total_rows_deleted(results: &[TableCleanupResult]) -> (res: u64)
    ensures
        res == (if rows_deleted_sum(results@, results@.len() as int) <= u64::MAX {
            rows_deleted_sum(results@, results@.len() as int)
        } else {
            u64::MAX as int
        }),
{
    let mut total: u64 = 0;
    let mut i: usize = 0;
    while i < results.len()
        invariant
            i <= results@.len(),
            total == (if rows_deleted_sum(results@, i as int) <= u64::MAX {
                rows_deleted_sum(results@, i as int)
            } else {
                u64::MAX as int
            }),
        decreases results@.len() - i,
    {
        proof {
            lemma_rows_deleted_sum_monotone(results@, i as int, i as int + 1);
        }
        total = match total.checked_add(results[i].rows_deleted) {
            Some(t) => t,
            None => u64::MAX,
        };
        i = i + 1;
    }
    total
}

/// No table is cleaned twice: the cleaned tables are pairwise distinct.
pub proof fn law_cleaned_tables_distinct()
    ensures
        forall|a: int, b: int| 0 <= a < b < retention_table_names().len() ==> retention_table_names()[a] != retention_table_names()[b],
{
    reveal_strlit("hot_search_snapshots");
    reveal_strlit("hot_search_items");
    reveal_strlit("currency_rates");
    reveal_strlit("openmeteo_forecasts");
    reveal_strlit("zenquotes_cache");
    reveal_strlit("hitokoto_cache");
    reveal_strlit("bing_wallpaper_cache");
    reveal_strlit("github_releases");
    reveal_strlit("gestdown_cache");
    reveal_strlit("regielive_cache");
    reveal_strlit("shooter_cache");
    reveal_strlit("animetosho_cache");
    reveal_strlit("assrt_searches");
    reveal_strlit("assrt_sub_details");
    reveal_strlit("opensubtitles_cache");
    reveal_strlit("lrclib_lyrics");
    reveal_strlit("sport_matches");
    reveal_strlit("holiday_years");
    reveal_strlit("geocoding_results");
    reveal_strlit("nominatim_geocode");
    assert(retention_table_names()[0].len() != retention_table_names()[1].len());
    assert(retention_table_names()[0].len() != retention_table_names()[2].len());
    assert(retention_table_names()[0].len() != retention_table_names()[3].len());
    assert(retention_table_names()[0].len() != retention_table_names()[4].len());
    assert(retention_table_names()[0].len() != retention_table_names()[5].len());
    assert(retention_table_names()[0][0] != retention_table_names()[6][0]);
    assert(retention_table_names()[0].len() != retention_table_names()[7].len());
    assert(retention_table_names()[0].len() != retention_table_names()[8].len());
    assert(retention_table_names()[0].len() != retention_table_names()[9].len());
    assert(retention_table_names()[0].len() != retention_table_names()[10].len());
    assert(retention_table_names()[0].len() != retention_table_names()[11].len());
    assert(retention_table_names()[0].len() != retention_table_names()[12].len());
    assert(retention_table_names()[0].len() != retention_table_names()[13].len());
    assert(retention_table_names()[0].len() != retention_table_names()[14].len());
    assert(retention_table_names()[0].len() != retention_table_names()[15].len());
    assert(retention_table_names()[0].len() != retention_table_names()[16].len());
    assert(retention_table_names()[0].len() != retention_table_names()[17].len());
    assert(retention_table_names()[0].len() != retention_table_names()[18].len());
    assert(retention_table_names()[0].len() != retention_table_names()[19].len());
    assert(retention_table_names()[1].len() != retention_table_names()[2].len());
    assert(retention_table_names()[1].len() != retention_table_names()[3].len());
    assert(retention_table_names()[1].len() != retention_table_names()[4].len());
    assert(retention_table_names()[1].len() != retention_table_names()[5].len());
    assert(retention_table_names()[1].len() != retention_table_names()[6].len());
    assert(retention_table_names()[1].len() != retention_table_names()[7].len());
    assert(retention_table_names()[1].len() != retention_table_names()[8].len());
    assert(retention_table_names()[1].len() != retention_table_names()[9].len());
    assert(retention_table_names()[1].len() != retention_table_names()[10].len());
    assert(retention_table_names()[1][0] != retention_table_names()[11][0]);
    assert(retention_table_names()[1].len() != retention_table_names()[12].len());
    assert(retention_table_names()[1].len() != retention_table_names()[13].len());
    assert(retention_table_names()[1].len() != retention_table_names()[14].len());
    assert(retention_table_names()[1].len() != retention_table_names()[15].len());
    assert(retention_table_names()[1].len() != retention_table_names()[16].len());
    assert(retention_table_names()[1].len() != retention_table_names()[17].len());
    assert(retention_table_names()[1].len() != retention_table_names()[18].len());
    assert(retention_table_names()[1].len() != retention_table_names()[19].len());
    assert(retention_table_names()[2].len() != retention_table_names()[3].len());
    assert(retention_table_names()[2].len() != retention_table_names()[4].len());
    assert(retention_table_names()[2][0] != retention_table_names()[5][0]);
    assert(retention_table_names()[2].len() != retention_table_names()[6].len());
    assert(retention_table_names()[2].len() != retention_table_names()[7].len());
    assert(retention_table_names()[2][0] != retention_table_names()[8][0]);
    assert(retention_table_names()[2].len() != retention_table_names()[9].len());
    assert(retention_table_names()[2].len() != retention_table_names()[10].len());
    assert(retention_table_names()[2].len() != retention_table_names()[11].len());
    assert(retention_table_names()[2][0] != retention_table_names()[12][0]);
    assert(retention_table_names()[2].len() != retention_table_names()[13].len());
    assert(retention_table_names()[2].len() != retention_table_names()[14].len());
    assert(retention_table_names()[2].len() != retention_table_names()[15].len());
    assert(retention_table_names()[2].len() != retention_table_names()[16].len());
    assert(retention_table_names()[2].len() != retention_table_names()[17].len());
    assert(retention_table_names()[2].len() != retention_table_names()[18].len());
    assert(retention_table_names()[2].len() != retention_table_names()[19].len());
    assert(retention_table_names()[3].len() != retention_table_names()[4].len());
    assert(retention_table_names()[3].len() != retention_table_names()[5].len());
    assert(retention_table_names()[3].len() != retention_table_names()[6].len());
    assert(retention_table_names()[3].len() != retention_table_names()[7].len());
    assert(retention_table_names()[3].len() != retention_table_names()[8].len());
    assert(retention_table_names()[3].len() != retention_table_names()[9].len());
    assert(retention_table_names()[3].len() != retention_table_names()[10].len());
    assert(retention_table_names()[3].len() != retention_table_names()[11].len());
    assert(retention_table_names()[3].len() != retention_table_names()[12].len());
    assert(retention_table_names()[3].len() != retention_table_names()[13].len());
    assert(retention_table_names()[3][4] != retention_table_names()[14][4]);
    assert(retention_table_names()[3].len() != retention_table_names()[15].len());
    assert(retention_table_names()[3].len() != retention_table_names()[16].len());
    assert(retention_table_names()[3].len() != retention_table_names()[17].len());
    assert(retention_table_names()[3].len() != retention_table_names()[18].len());
    assert(retention_table_names()[3].len() != retention_table_names()[19].len());
    assert(retention_table_names()[4].len() != retention_table_names()[5].len());
    assert(retention_table_names()[4].len() != retention_table_names()[6].len());
    assert(retention_table_names()[4][0] != retention_table_names()[7][0]);
    assert(retention_table_names()[4].len() != retention_table_names()[8].len());
    assert(retention_table_names()[4][0] != retention_table_names()[9][0]);
    assert(retention_table_names()[4].len() != retention_table_names()[10].len());
    assert(retention_table_names()[4].len() != retention_table_names()[11].len());
    assert(retention_table_names()[4].len() != retention_table_names()[12].len());
    assert(retention_table_names()[4].len() != retention_table_names()[13].len());
    assert(retention_table_names()[4].len() != retention_table_names()[14].len());
    assert(retention_table_names()[4].len() != retention_table_names()[15].len());
    assert(retention_table_names()[4].len() != retention_table_names()[16].len());
    assert(retention_table_names()[4].len() != retention_table_names()[17].len());
    assert(retention_table_names()[4].len() != retention_table_names()[18].len());
    assert(retention_table_names()[4].len() != retention_table_names()[19].len());
    assert(retention_table_names()[5].len() != retention_table_names()[6].len());
    assert(retention_table_names()[5].len() != retention_table_names()[7].len());
    assert(retention_table_names()[5][0] != retention_table_names()[8][0]);
    assert(retention_table_names()[5].len() != retention_table_names()[9].len());
    assert(retention_table_names()[5].len() != retention_table_names()[10].len());
    assert(retention_table_names()[5].len() != retention_table_names()[11].len());
    assert(retention_table_names()[5][0] != retention_table_names()[12][0]);
    assert(retention_table_names()[5].len() != retention_table_names()[13].len());
    assert(retention_table_names()[5].len() != retention_table_names()[14].len());
    assert(retention_table_names()[5].len() != retention_table_names()[15].len());
    assert(retention_table_names()[5].len() != retention_table_names()[16].len());
    assert(retention_table_names()[5].len() != retention_table_names()[17].len());
    assert(retention_table_names()[5].len() != retention_table_names()[18].len());
    assert(retention_table_names()[5].len() != retention_table_names()[19].len());
    assert(retention_table_names()[6].len() != retention_table_names()[7].len());
    assert(retention_table_names()[6].len() != retention_table_names()[8].len());
    assert(retention_table_names()[6].len() != retention_table_names()[9].len());
    assert(retention_table_names()[6].len() != retention_table_names()[10].len());
    assert(retention_table_names()[6].len() != retention_table_names()[11].len());
    assert(retention_table_names()[6].len() != retention_table_names()[12].len());
    assert(retention_table_names()[6].len() != retention_table_names()[13].len());
    assert(retention_table_names()[6].len() != retention_table_names()[14].len());
    assert(retention_table_names()[6].len() != retention_table_names()[15].len());
    assert(retention_table_names()[6].len() != retention_table_names()[16].len());
    assert(retention_table_names()[6].len() != retention_table_names()[17].len());
    assert(retention_table_names()[6].len() != retention_table_names()[18].len());
    assert(retention_table_names()[6].len() != retention_table_names()[19].len());
    assert(retention_table_names()[7].len() != retention_table_names()[8].len());
    assert(retention_table_names()[7][0] != retention_table_names()[9][0]);
    assert(retention_table_names()[7].len() != retention_table_names()[10].len());
    assert(retention_table_names()[7].len() != retention_table_names()[11].len());
    assert(retention_table_names()[7].len() != retention_table_names()[12].len());
    assert(retention_table_names()[7].len() != retention_table_names()[13].len());
    assert(retention_table_names()[7].len() != retention_table_names()[14].len());
    assert(retention_table_names()[7].len() != retention_table_names()[15].len());
    assert(retention_table_names()[7].len() != retention_table_names()[16].len());
    assert(retention_table_names()[7].len() != retention_table_names()[17].len());
    assert(retention_table_names()[7].len() != retention_table_names()[18].len());
    assert(retention_table_names()[7].len() != retention_table_names()[19].len());
    assert(retention_table_names()[8].len() != retention_table_names()[9].len());
    assert(retention_table_names()[8].len() != retention_table_names()[10].len());
    assert(retention_table_names()[8].len() != retention_table_names()[11].len());
    assert(retention_table_names()[8][0] != retention_table_names()[12][0]);
    assert(retention_table_names()[8].len() != retention_table_names()[13].len());
    assert(retention_table_names()[8].len() != retention_table_names()[14].len());
    assert(retention_table_names()[8].len() != retention_table_names()[15].len());
    assert(retention_table_names()[8].len() != retention_table_names()[16].len());
    assert(retention_table_names()[8].len() != retention_table_names()[17].len());
    assert(retention_table_names()[8].len() != retention_table_names()[18].len());
    assert(retention_table_names()[8].len() != retention_table_names()[19].len());
    assert(retention_table_names()[9].len() != retention_table_names()[10].len());
    assert(retention_table_names()[9].len() != retention_table_names()[11].len());
    assert(retention_table_names()[9].len() != retention_table_names()[12].len());
    assert(retention_table_names()[9].len() != retention_table_names()[13].len());
    assert(retention_table_names()[9].len() != retention_table_names()[14].len());
    assert(retention_table_names()[9].len() != retention_table_names()[15].len());
    assert(retention_table_names()[9].len() != retention_table_names()[16].len());
    assert(retention_table_names()[9].len() != retention_table_names()[17].len());
    assert(retention_table_names()[9].len() != retention_table_names()[18].len());
    assert(retention_table_names()[9].len() != retention_table_names()[19].len());
    assert(retention_table_names()[10].len() != retention_table_names()[11].len());
    assert(retention_table_names()[10].len() != retention_table_names()[12].len());
    assert(retention_table_names()[10].len() != retention_table_names()[13].len());
    assert(retention_table_names()[10].len() != retention_table_names()[14].len());
    assert(retention_table_names()[10][0] != retention_table_names()[15][0]);
    assert(retention_table_names()[10][1] != retention_table_names()[16][1]);
    assert(retention_table_names()[10][0] != retention_table_names()[17][0]);
    assert(retention_table_names()[10].len() != retention_table_names()[18].len());
    assert(retention_table_names()[10].len() != retention_table_names()[19].len());
    assert(retention_table_names()[11].len() != retention_table_names()[12].len());
    assert(retention_table_names()[11].len() != retention_table_names()[13].len());
    assert(retention_table_names()[11].len() != retention_table_names()[14].len());
    assert(retention_table_names()[11].len() != retention_table_names()[15].len());
    assert(retention_table_names()[11].len() != retention_table_names()[16].len());
    assert(retention_table_names()[11].len() != retention_table_names()[17].len());
    assert(retention_table_names()[11].len() != retention_table_names()[18].len());
    assert(retention_table_names()[11].len() != retention_table_names()[19].len());
    assert(retention_table_names()[12].len() != retention_table_names()[13].len());
    assert(retention_table_names()[12].len() != retention_table_names()[14].len());
    assert(retention_table_names()[12].len() != retention_table_names()[15].len());
    assert(retention_table_names()[12].len() != retention_table_names()[16].len());
    assert(retention_table_names()[12].len() != retention_table_names()[17].len());
    assert(retention_table_names()[12].len() != retention_table_names()[18].len());
    assert(retention_table_names()[12].len() != retention_table_names()[19].len());
    assert(retention_table_names()[13].len() != retention_table_names()[14].len());
    assert(retention_table_names()[13].len() != retention_table_names()[15].len());
    assert(retention_table_names()[13].len() != retention_table_names()[16].len());
    assert(retention_table_names()[13].len() != retention_table_names()[17].len());
    assert(retention_table_names()[13][0] != retention_table_names()[18][0]);
    assert(retention_table_names()[13][0] != retention_table_names()[19][0]);
    assert(retention_table_names()[14].len() != retention_table_names()[15].len());
    assert(retention_table_names()[14].len() != retention_table_names()[16].len());
    assert(retention_table_names()[14].len() != retention_table_names()[17].len());
    assert(retention_table_names()[14].len() != retention_table_names()[18].len());
    assert(retention_table_names()[14].len() != retention_table_names()[19].len());
    assert(retention_table_names()[15][0] != retention_table_names()[16][0]);
    assert(retention_table_names()[15][0] != retention_table_names()[17][0]);
    assert(retention_table_names()[15].len() != retention_table_names()[18].len());
    assert(retention_table_names()[15].len() != retention_table_names()[19].len());
    assert(retention_table_names()[16][0] != retention_table_names()[17][0]);
    assert(retention_table_names()[16].len() != retention_table_names()[18].len());
    assert(retention_table_names()[16].len() != retention_table_names()[19].len());
    assert(retention_table_names()[17].len() != retention_table_names()[18].len());
    assert(retention_table_names()[17].len() != retention_table_names()[19].len());
    assert(retention_table_names()[18][0] != retention_table_names()[19][0]);
}

} // verus!
