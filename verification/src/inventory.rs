//! The static inventory of upstream providers behind the public capability
//! listing: each provider's route prefix, category, summary, upstream host,
//! integration hint and most representative endpoints.
//!
//! Conventions: a provider's `id` is its route prefix (`/api/<id>/...`), its
//! `category` is one of the category ids, and each endpoint path starts with
//! `/api/<id>/`.
use vstd::prelude::*;
use crate::text::{has_prefix, str_eq};

verus! {

/// One endpoint a provider exposes.
pub struct EndpointInfo {
    pub method: &'static str,
    pub path: &'static str,
    pub example: &'static str,
    pub description: &'static str,
    /// Default cache TTL in seconds.
    pub cache_ttl_seconds: i64,
}

/// Per-provider static metadata; live stats are joined in at request time.
pub struct ProviderInfo {
    pub id: &'static str,
    pub category: &'static str,
    pub summary: &'static str,
    pub upstream: &'static str,
    pub ai_hint: &'static str,
    pub endpoints: Vec<EndpointInfo>,
    /// Only set for the `hot` aggregator: the accepted `?id=` values.
    pub available_ids: Option<Vec<&'static str>>,
}

/// A category and the ids of the providers grouped under it.
pub struct CategoryInfo {
    pub id: &'static str,
    pub providers: Vec<&'static str>,
}

pub const HALF_DAY: i64 = 43_200;
pub const ONE_DAY: i64 = 86_400;
pub const SIX_HOURS: i64 = 21_600;
pub const ONE_HOUR: i64 = 3_600;
pub const HALF_HOUR: i64 = 1_800;
pub const FIVE_MIN: i64 = 300;

/// The views of a sequence of string slices.
pub open spec fn str_views(v: Seq<&'static str>) -> Seq<Seq<char>> {
    v.map_values(|s: &'static str| s@)
}

/// The hot-search source ids accepted by `/api/hot/list?id=<source>`.
pub open spec fn hot_source_id_seq() -> Seq<Seq<char>> {
    seq![
        "weibo"@,
        "bilibili"@,
        "baidu"@,
        "github"@,
        "hackernews"@,
        "v2ex"@,
        "toutiao"@,
        "36kr"@,
        "juejin"@,
        "sspai"@,
        "zhihu"@,
        "douyin"@,
        "douban-movie"@,
        "thepaper"@,
        "hupu"@,
        "ithome"@,
        "tieba"@,
        "linuxdo"@,
        "netease-news"@,
    ]
}

/// Provider ids, in inventory order.
pub open spec fn provider_ids() -> Seq<Seq<char>> {
    seq![
        "tmdb"@,
        "omdb"@,
        "thetvdb"@,
        "douban"@,
        "fanart"@,
        "spotify"@,
        "musicbrainz"@,
        "deezer"@,
        "itunes"@,
        "lrclib"@,
        "hot"@,
        "opensubtitles"@,
        "assrt"@,
        "gestdown"@,
        "shooter"@,
        "regielive"@,
        "bangumi"@,
        "animetosho"@,
        "javbus"@,
        "javdb"@,
        "tpdb"@,
        "stashdb"@,
        "geocoding"@,
        "nominatim"@,
        "openmeteo"@,
        "holiday"@,
        "wikipedia"@,
        "qidian"@,
        "hitokoto"@,
        "zenquotes"@,
        "bing"@,
        "github"@,
        "currency"@,
        "sports"@,
    ]
}

/// The category of each provider, in inventory order.
pub open spec fn provider_categories() -> Seq<Seq<char>> {
    seq![
        "movie-metadata"@,
        "movie-metadata"@,
        "movie-metadata"@,
        "movie-metadata"@,
        "movie-metadata"@,
        "music-metadata"@,
        "music-metadata"@,
        "music-metadata"@,
        "music-metadata"@,
        "music-metadata"@,
        "hot-search-aggregator"@,
        "subtitles"@,
        "subtitles"@,
        "subtitles"@,
        "subtitles"@,
        "subtitles"@,
        "anime-metadata"@,
        "anime-metadata"@,
        "adult-metadata"@,
        "adult-metadata"@,
        "adult-metadata"@,
        "adult-metadata"@,
        "geo-weather"@,
        "geo-weather"@,
        "geo-weather"@,
        "geo-weather"@,
        "misc-content"@,
        "misc-content"@,
        "misc-content"@,
        "misc-content"@,
        "misc-content"@,
        "misc-content"@,
        "misc-content"@,
        "misc-content"@,
    ]
}

/// The cache TTL of each provider's first endpoint, in inventory order.
pub open spec fn provider_default_ttls() -> Seq<i64> {
    seq![
        HALF_DAY,
        HALF_DAY,
        HALF_DAY,
        HALF_DAY,
        ONE_DAY,
        HALF_DAY,
        ONE_DAY,
        HALF_DAY,
        ONE_DAY,
        ONE_DAY,
        0,
        SIX_HOURS,
        SIX_HOURS,
        SIX_HOURS,
        ONE_HOUR,
        SIX_HOURS,
        HALF_DAY,
        HALF_HOUR,
        HALF_DAY,
        HALF_DAY,
        HALF_DAY,
        HALF_DAY,
        ONE_DAY,
        ONE_DAY,
        HALF_HOUR,
        ONE_DAY,
        ONE_DAY,
        HALF_DAY,
        0,
        0,
        ONE_DAY,
        HALF_HOUR,
        ONE_HOUR,
        ONE_HOUR,
    ]
}

/// The endpoint paths of each provider, in inventory order.
pub open spec fn provider_endpoint_paths() -> Seq<Seq<Seq<char>>> {
    seq![
        seq!["/api/tmdb/movie/:id"@, "/api/tmdb/tv/:id"@, "/api/tmdb/image/*path"@],
        seq!["/api/omdb/title/:imdb_id"@, "/api/omdb/search"@],
        seq!["/api/thetvdb/series/:id"@, "/api/thetvdb/series/:id/episodes"@, "/api/thetvdb/episode/:id"@],
        seq!["/api/douban/subject/:id"@, "/api/douban/search"@],
        seq!["/api/fanart/movie/:tmdb_id"@, "/api/fanart/tv/:tvdb_id"@],
        seq!["/api/spotify/artist/:id"@, "/api/spotify/track/:id"@, "/api/spotify/search"@],
        seq!["/api/musicbrainz/artist/:mbid"@, "/api/musicbrainz/release/:mbid"@, "/api/musicbrainz/search"@],
        seq!["/api/deezer/track/:id"@, "/api/deezer/search"@],
        seq!["/api/itunes/album-cover"@],
        seq!["/api/lrclib/get"@, "/api/lrclib/search"@],
        seq!["/api/hot/sources"@, "/api/hot/list"@],
        seq!["/api/opensubtitles/search"@],
        seq!["/api/assrt/search"@, "/api/assrt/sub/:id/detail"@],
        seq!["/api/gestdown/shows/search"@, "/api/gestdown/subtitles"@],
        seq!["/api/shooter/search"@],
        seq!["/api/regielive/search"@],
        seq!["/api/bangumi/subject/:id"@, "/api/bangumi/search"@, "/api/bangumi/calendar"@],
        seq!["/api/animetosho/search"@, "/api/animetosho/torrent"@],
        seq!["/api/javbus/search"@],
        seq!["/api/javdb/search"@],
        seq!["/api/tpdb/search"@],
        seq!["/api/stashdb/search"@],
        seq!["/api/geocoding/forward"@, "/api/geocoding/reverse"@],
        seq!["/api/nominatim/search"@, "/api/nominatim/reverse"@],
        seq!["/api/openmeteo/forecast"@, "/api/openmeteo/air-quality"@],
        seq!["/api/holiday/:country/:year"@],
        seq!["/api/wikipedia/summary"@],
        seq!["/api/qidian/book/:id"@, "/api/qidian/search"@],
        seq!["/api/hitokoto/sentence"@],
        seq!["/api/zenquotes/random"@],
        seq!["/api/bing/wallpaper"@],
        seq!["/api/github/releases/:owner/:repo/latest"@, "/api/github/releases/:owner/:repo/list"@],
        seq!["/api/currency/rates"@],
        seq!["/api/sports/schedule"@],
    ]
}

/// The paths of some endpoints.
pub open spec fn endpoint_paths(v: Seq<EndpointInfo>) -> Seq<Seq<char>> {
    v.map_values(|e: EndpointInfo| e.path@)
}

/// Category ids, in listing order.
pub open spec fn category_ids() -> Seq<Seq<char>> {
    seq![
        "movie-metadata"@,
        "music-metadata"@,
        "hot-search-aggregator"@,
        "subtitles"@,
        "anime-metadata"@,
        "adult-metadata"@,
        "geo-weather"@,
        "misc-content"@,
    ]
}

/// The provider ids of each category, in listing order.
pub open spec fn category_members() -> Seq<Seq<Seq<char>>> {
    seq![
        seq!["tmdb"@, "omdb"@, "thetvdb"@, "douban"@, "fanart"@],
        seq!["spotify"@, "musicbrainz"@, "deezer"@, "itunes"@, "lrclib"@],
        seq!["hot"@],
        seq!["opensubtitles"@, "assrt"@, "gestdown"@, "shooter"@, "regielive"@],
        seq!["bangumi"@, "animetosho"@],
        seq!["javbus"@, "javdb"@, "tpdb"@, "stashdb"@],
        seq!["geocoding"@, "nominatim"@, "openmeteo"@, "holiday"@],
        seq!["wikipedia"@, "qidian"@, "hitokoto"@, "zenquotes"@, "bing"@, "github"@, "currency"@, "sports"@],
    ]
}

/// The hot-search source ids accepted by `/api/hot/list?id=<source>`.
pub fn hot_source_ids() -> (res: Vec<&'static str>)
    ensures
        str_views(res@) == hot_source_id_seq(),
{
    let mut v: Vec<&'static str> = Vec::new();

    v.push("weibo");
    v.push("bilibili");
    v.push("baidu");
    v.push("github");
    v.push("hackernews");
    v.push("v2ex");
    v.push("toutiao");
    v.push("36kr");
    v.push("juejin");
    v.push("sspai");
    v.push("zhihu");
    v.push("douyin");
    v.push("douban-movie");
    v.push("thepaper");
    v.push("hupu");
    v.push("ithome");
    v.push("tieba");
    v.push("linuxdo");
    v.push("netease-news");
    assert(str_views(v@) =~= hot_source_id_seq());
    v
}

fn ep(method: &'static str, path: &'static str, example: &'static str, description: &'static str, cache_ttl_seconds: i64) -> (res: EndpointInfo)
    ensures
        res.method == method,
        res.path == path,
        res.example == example,
        res.description == description,
        res.cache_ttl_seconds == cache_ttl_seconds,
{
    EndpointInfo { method, path, example, description, cache_ttl_seconds }
}

fn provider_tmdb() -> (res: ProviderInfo)
    ensures
        res.id@ == "tmdb"@,
        res.category@ == "movie-metadata"@,
        res.endpoints@.len() >= 1,
        res.endpoints@[0].cache_ttl_seconds == HALF_DAY,
        endpoint_paths(res.endpoints@) == provider_endpoint_paths()[0],
        res.available_ids is None,
{
    let mut endpoints: Vec<EndpointInfo> = Vec::new();
    endpoints.push(ep(
        "GET",
        "/api/tmdb/movie/:id",
        "/api/tmdb/movie/550",
        "Fetch movie detail by TMDB id",
        HALF_DAY,
    ));
    endpoints.push(ep(
        "GET",
        "/api/tmdb/tv/:id",
        "/api/tmdb/tv/1399",
        "Fetch TV show detail by TMDB id (also /season/:n and /season/:s/episode/:e)",
        HALF_DAY,
    ));
    endpoints.push(ep(
        "GET",
        "/api/tmdb/image/*path",
        "/api/tmdb/image/w500/abc.jpg",
        "Proxied TMDB image CDN (forwards to image.tmdb.org with caching)",
        HALF_DAY,
    ));
    assert(endpoint_paths(endpoints@) =~= provider_endpoint_paths()[0]);
    ProviderInfo {
        id: "tmdb",
        category: "movie-metadata",
        summary: "TMDB 电影/剧集元数据代理（图片、详情、搜索、人物）",
        upstream: "api.themoviedb.org",
        ai_hint: "Cached ~12h. Best for posters and Chinese metadata. Use IMDb id via OMDb cross-lookup; image paths route through /api/tmdb/image/*.",
        endpoints,
        available_ids: None,
    }
}

fn provider_omdb() -> (res: ProviderInfo)
    ensures
        res.id@ == "omdb"@,
        res.category@ == "movie-metadata"@,
        res.endpoints@.len() >= 1,
        res.endpoints@[0].cache_ttl_seconds == HALF_DAY,
        endpoint_paths(res.endpoints@) == provider_endpoint_paths()[1],
        res.available_ids is None,
{
    let mut endpoints: Vec<EndpointInfo> = Vec::new();
    endpoints.push(ep(
        "GET",
        "/api/omdb/title/:imdb_id",
        "/api/omdb/title/tt1375666",
        "Lookup by IMDb id",
        HALF_DAY,
    ));
    endpoints.push(ep(
        "GET",
        "/api/omdb/search",
        "/api/omdb/search?s=Inception",
        "Search by title (query param `s`)",
        HALF_DAY,
    ));
    assert(endpoint_paths(endpoints@) =~= provider_endpoint_paths()[1]);
    ProviderInfo {
        id: "omdb",
        category: "movie-metadata",
        summary: "OMDb 电影元数据代理（按 IMDb id 查询）",
        upstream: "www.omdbapi.com",
        ai_hint: "Use when you only have an IMDb id (ttXXXXXXX). Returns English-language metadata; combine with TMDB for posters/zh-CN titles.",
        endpoints,
        available_ids: None,
    }
}

fn provider_thetvdb() -> (res: ProviderInfo)
    ensures
        res.id@ == "thetvdb"@,
        res.category@ == "movie-metadata"@,
        res.endpoints@.len() >= 1,
        res.endpoints@[0].cache_ttl_seconds == HALF_DAY,
        endpoint_paths(res.endpoints@) == provider_endpoint_paths()[2],
        res.available_ids is None,
{
    let mut endpoints: Vec<EndpointInfo> = Vec::new();
    endpoints.push(ep(
        "GET",
        "/api/thetvdb/series/:id",
        "/api/thetvdb/series/121361",
        "Series detail by TheTVDB id",
        HALF_DAY,
    ));
    endpoints.push(ep(
        "GET",
        "/api/thetvdb/series/:id/episodes",
        "/api/thetvdb/series/121361/episodes",
        "Full episode list for a series",
        HALF_DAY,
    ));
    endpoints.push(ep(
        "GET",
        "/api/thetvdb/episode/:id",
        "/api/thetvdb/episode/3254641",
        "Single episode detail",
        HALF_DAY,
    ));
    assert(endpoint_paths(endpoints@) =~= provider_endpoint_paths()[2]);
    ProviderInfo {
        id: "thetvdb",
        category: "movie-metadata",
        summary: "TheTVDB 剧集/单集元数据代理",
        upstream: "api4.thetvdb.com",
        ai_hint: "Authoritative episode-level metadata for TV series. Prefer over TMDB when you need accurate per-episode air dates / numbering.",
        endpoints,
        available_ids: None,
    }
}

fn provider_douban() -> (res: ProviderInfo)
    ensures
        res.id@ == "douban"@,
        res.category@ == "movie-metadata"@,
        res.endpoints@.len() >= 1,
        res.endpoints@[0].cache_ttl_seconds == HALF_DAY,
        endpoint_paths(res.endpoints@) == provider_endpoint_paths()[3],
        res.available_ids is None,
{
    let mut endpoints: Vec<EndpointInfo> = Vec::new();
    endpoints.push(ep(
        "GET",
        "/api/douban/subject/:id",
        "/api/douban/subject/1292052",
        "豆瓣条目详情",
        HALF_DAY,
    ));
    endpoints.push(ep(
        "GET",
        "/api/douban/search",
        "/api/douban/search?q=肖申克",
        "豆瓣电影搜索",
        HALF_DAY,
    ));
    assert(endpoint_paths(endpoints@) =~= provider_endpoint_paths()[3]);
    ProviderInfo {
        id: "douban",
        category: "movie-metadata",
        summary: "豆瓣电影元数据 / 搜索代理",
        upstream: "movie.douban.com",
        ai_hint: "Best source for Chinese ratings, reviews and zh-CN titles. Geo-restricted upstream — always go through this proxy.",
        endpoints,
        available_ids: None,
    }
}

fn provider_fanart() -> (res: ProviderInfo)
    ensures
        res.id@ == "fanart"@,
        res.category@ == "movie-metadata"@,
        res.endpoints@.len() >= 1,
        res.endpoints@[0].cache_ttl_seconds == ONE_DAY,
        endpoint_paths(res.endpoints@) == provider_endpoint_paths()[4],
        res.available_ids is None,
{
    let mut endpoints: Vec<EndpointInfo> = Vec::new();
    endpoints.push(ep(
        "GET",
        "/api/fanart/movie/:tmdb_id",
        "/api/fanart/movie/550",
        "Movie artwork by TMDB id",
        ONE_DAY,
    ));
    endpoints.push(ep(
        "GET",
        "/api/fanart/tv/:tvdb_id",
        "/api/fanart/tv/121361",
        "TV artwork by TheTVDB id",
        ONE_DAY,
    ));
    assert(endpoint_paths(endpoints@) =~= provider_endpoint_paths()[4]);
    ProviderInfo {
        id: "fanart",
        category: "movie-metadata",
        summary: "Fanart.tv 海报 / 艺术图代理",
        upstream: "webservice.fanart.tv",
        ai_hint: "High-quality clearart/logos/backgrounds keyed by TMDB or TVDB id. Use to enrich UI after you've already resolved the main id elsewhere.",
        endpoints,
        available_ids: None,
    }
}

fn provider_spotify() -> (res: ProviderInfo)
    ensures
        res.id@ == "spotify"@,
        res.category@ == "music-metadata"@,
        res.endpoints@.len() >= 1,
        res.endpoints@[0].cache_ttl_seconds == HALF_DAY,
        endpoint_paths(res.endpoints@) == provider_endpoint_paths()[5],
        res.available_ids is None,
{
    let mut endpoints: Vec<EndpointInfo> = Vec::new();
    endpoints.push(ep(
        "GET",
        "/api/spotify/artist/:id",
        "/api/spotify/artist/4Z8W4fKeB5YxbusRsdQVPb",
        "Artist detail by Spotify id",
        HALF_DAY,
    ));
    endpoints.push(ep(
        "GET",
        "/api/spotify/track/:id",
        "/api/spotify/track/7ouMYWpwJ422jRcDASZB7P",
        "Track detail by Spotify id (album/* also available)",
        HALF_DAY,
    ));
    endpoints.push(ep(
        "GET",
        "/api/spotify/search",
        "/api/spotify/search?q=Radiohead&type=artist",
        "Full-text search; `type` ∈ {artist,album,track}",
        ONE_HOUR,
    ));
    assert(endpoint_paths(endpoints@) =~= provider_endpoint_paths()[5]);
    ProviderInfo {
        id: "spotify",
        category: "music-metadata",
        summary: "Spotify 元数据代理（艺人 / 专辑 / 单曲 / 搜索）",
        upstream: "api.spotify.com",
        ai_hint: "Read-only metadata. No playback streams. Use Spotify ids; for free-text lookups, prefer /search and then drill in.",
        endpoints,
        available_ids: None,
    }
}

fn provider_musicbrainz() -> (res: ProviderInfo)
    ensures
        res.id@ == "musicbrainz"@,
        res.category@ == "music-metadata"@,
        res.endpoints@.len() >= 1,
        res.endpoints@[0].cache_ttl_seconds == ONE_DAY,
        endpoint_paths(res.endpoints@) == provider_endpoint_paths()[6],
        res.available_ids is None,
{
    let mut endpoints: Vec<EndpointInfo> = Vec::new();
    endpoints.push(ep(
        "GET",
        "/api/musicbrainz/artist/:mbid",
        "/api/musicbrainz/artist/a74b1b7f-71a5-4011-9441-d0b5e4122711",
        "Artist by MBID",
        ONE_DAY,
    ));
    endpoints.push(ep(
        "GET",
        "/api/musicbrainz/release/:mbid",
        "/api/musicbrainz/release/0e8e8e8e-...",
        "Release by MBID (also /recording/:mbid)",
        ONE_DAY,
    ));
    endpoints.push(ep(
        "GET",
        "/api/musicbrainz/search",
        "/api/musicbrainz/search?type=artist&query=radiohead",
        "Search by entity type",
        ONE_HOUR,
    ));
    assert(endpoint_paths(endpoints@) =~= provider_endpoint_paths()[6]);
    ProviderInfo {
        id: "musicbrainz",
        category: "music-metadata",
        summary: "MusicBrainz 开放音乐元数据代理（MBID 查询）",
        upstream: "musicbrainz.org",
        ai_hint: "Use MBIDs (UUIDs). Best free source for cross-referenced artist/release/recording metadata when Spotify ids are unavailable.",
        endpoints,
        available_ids: None,
    }
}

fn provider_deezer() -> (res: ProviderInfo)
    ensures
        res.id@ == "deezer"@,
        res.category@ == "music-metadata"@,
        res.endpoints@.len() >= 1,
        res.endpoints@[0].cache_ttl_seconds == HALF_DAY,
        endpoint_paths(res.endpoints@) == provider_endpoint_paths()[7],
        res.available_ids is None,
{
    let mut endpoints: Vec<EndpointInfo> = Vec::new();
    endpoints.push(ep(
        "GET",
        "/api/deezer/track/:id",
        "/api/deezer/track/3135556",
        "Track detail (also /album/:id, /artist/:id)",
        HALF_DAY,
    ));
    endpoints.push(ep(
        "GET",
        "/api/deezer/search",
        "/api/deezer/search?q=Daft+Punk",
        "Full-text search",
        ONE_HOUR,
    ));
    assert(endpoint_paths(endpoints@) =~= provider_endpoint_paths()[7]);
    ProviderInfo {
        id: "deezer",
        category: "music-metadata",
        summary: "Deezer 元数据代理",
        upstream: "api.deezer.com",
        ai_hint: "Alternative to Spotify with looser auth. Useful when Spotify rate-limits or for cover art at different sizes.",
        endpoints,
        available_ids: None,
    }
}

fn provider_itunes() -> (res: ProviderInfo)
    ensures
        res.id@ == "itunes"@,
        res.category@ == "music-metadata"@,
        res.endpoints@.len() >= 1,
        res.endpoints@[0].cache_ttl_seconds == ONE_DAY,
        endpoint_paths(res.endpoints@) == provider_endpoint_paths()[8],
        res.available_ids is None,
{
    let mut endpoints: Vec<EndpointInfo> = Vec::new();
    endpoints.push(ep(
        "GET",
        "/api/itunes/album-cover",
        "/api/itunes/album-cover?artist=Daft+Punk&album=Discovery",
        "Resolve album cover URL by artist + album name",
        ONE_DAY,
    ));
    assert(endpoint_paths(endpoints@) =~= provider_endpoint_paths()[8]);
    ProviderInfo {
        id: "itunes",
        category: "music-metadata",
        summary: "iTunes 专辑封面查询代理",
        upstream: "itunes.apple.com",
        ai_hint: "Single-purpose: fetch high-res album covers by artist+album text. No auth required upstream.",
        endpoints,
        available_ids: None,
    }
}

fn provider_lrclib() -> (res: ProviderInfo)
    ensures
        res.id@ == "lrclib"@,
        res.category@ == "music-metadata"@,
        res.endpoints@.len() >= 1,
        res.endpoints@[0].cache_ttl_seconds == ONE_DAY,
        endpoint_paths(res.endpoints@) == provider_endpoint_paths()[9],
        res.available_ids is None,
{
    let mut endpoints: Vec<EndpointInfo> = Vec::new();
    endpoints.push(ep(
        "GET",
        "/api/lrclib/get",
        "/api/lrclib/get?track_name=Get+Lucky&artist_name=Daft+Punk",
        "Fetch synced lyrics by exact name",
        ONE_DAY,
    ));
    endpoints.push(ep(
        "GET",
        "/api/lrclib/search",
        "/api/lrclib/search?q=get+lucky",
        "Fuzzy search",
        ONE_HOUR,
    ));
    assert(endpoint_paths(endpoints@) =~= provider_endpoint_paths()[9]);
    ProviderInfo {
        id: "lrclib",
        category: "music-metadata",
        summary: "LRCLib 同步歌词查询代理",
        upstream: "lrclib.net",
        ai_hint: "Returns LRC-format synced lyrics. Use `/get` with exact track_name + artist_name; `/search` is fuzzy.",
        endpoints,
        available_ids: None,
    }
}

fn provider_hot() -> (res: ProviderInfo)
    ensures
        res.id@ == "hot"@,
        res.category@ == "hot-search-aggregator"@,
        res.endpoints@.len() >= 1,
        res.endpoints@[0].cache_ttl_seconds == 0,
        endpoint_paths(res.endpoints@) == provider_endpoint_paths()[10],
        res.available_ids matches Some(ids) && str_views(ids@) == hot_source_id_seq(),
{
    let mut endpoints: Vec<EndpointInfo> = Vec::new();
    endpoints.push(ep(
        "GET",
        "/api/hot/sources",
        "/api/hot/sources",
        "List all available hot-search source ids and display names",
        0,
    ));
    endpoints.push(ep(
        "GET",
        "/api/hot/list",
        "/api/hot/list?id=weibo",
        "Fetch hot items for a single source id (see available_ids field)",
        FIVE_MIN,
    ));
    assert(endpoint_paths(endpoints@) =~= provider_endpoint_paths()[10]);
    ProviderInfo {
        id: "hot",
        category: "hot-search-aggregator",
        summary: "19 个中文/技术站点的热榜聚合（微博/B站/知乎/V2EX/HN/...）",
        upstream: "mixed (per-source)",
        ai_hint: "Use /api/hot/list?id=<source>. 19 source ids accepted, see available_ids. Results pre-warmed every ~5 min server-side, so latency is cache-hit dominated.",
        endpoints,
        available_ids: Some(hot_source_ids()),
    }
}

fn provider_opensubtitles() -> (res: ProviderInfo)
    ensures
        res.id@ == "opensubtitles"@,
        res.category@ == "subtitles"@,
        res.endpoints@.len() >= 1,
        res.endpoints@[0].cache_ttl_seconds == SIX_HOURS,
        endpoint_paths(res.endpoints@) == provider_endpoint_paths()[11],
        res.available_ids is None,
{
    let mut endpoints: Vec<EndpointInfo> = Vec::new();
    endpoints.push(ep(
        "GET",
        "/api/opensubtitles/search",
        "/api/opensubtitles/search?imdb_id=tt1375666&languages=zh-cn",
        "Subtitle search (imdb_id / query / languages params)",
        SIX_HOURS,
    ));
    assert(endpoint_paths(endpoints@) =~= provider_endpoint_paths()[11]);
    ProviderInfo {
        id: "opensubtitles",
        category: "subtitles",
        summary: "OpenSubtitles 全球字幕搜索代理",
        upstream: "api.opensubtitles.com",
        ai_hint: "Largest cross-language subtitle DB. Use IMDb id as the most reliable key; falls back to text search.",
        endpoints,
        available_ids: None,
    }
}

fn provider_assrt() -> (res: ProviderInfo)
    ensures
        res.id@ == "assrt"@,
        res.category@ == "subtitles"@,
        res.endpoints@.len() >= 1,
        res.endpoints@[0].cache_ttl_seconds == SIX_HOURS,
        endpoint_paths(res.endpoints@) == provider_endpoint_paths()[12],
        res.available_ids is None,
{
    let mut endpoints: Vec<EndpointInfo> = Vec::new();
    endpoints.push(ep(
        "GET",
        "/api/assrt/search",
        "/api/assrt/search?q=肖申克",
        "Search subtitles by free-text query",
        SIX_HOURS,
    ));
    endpoints.push(ep(
        "GET",
        "/api/assrt/sub/:id/detail",
        "/api/assrt/sub/123456/detail",
        "Subtitle detail + download links by Assrt id",
        SIX_HOURS,
    ));
    assert(endpoint_paths(endpoints@) =~= provider_endpoint_paths()[12]);
    ProviderInfo {
        id: "assrt",
        category: "subtitles",
        summary: "射手网（Assrt）中文字幕搜索代理",
        upstream: "api.assrt.net",
        ai_hint: "Strong on zh-CN subtitles for movies and anime. Prefer over OpenSubtitles for Chinese content.",
        endpoints,
        available_ids: None,
    }
}

fn provider_gestdown() -> (res: ProviderInfo)
    ensures
        res.id@ == "gestdown"@,
        res.category@ == "subtitles"@,
        res.endpoints@.len() >= 1,
        res.endpoints@[0].cache_ttl_seconds == SIX_HOURS,
        endpoint_paths(res.endpoints@) == provider_endpoint_paths()[13],
        res.available_ids is None,
{
    let mut endpoints: Vec<EndpointInfo> = Vec::new();
    endpoints.push(ep(
        "GET",
        "/api/gestdown/shows/search",
        "/api/gestdown/shows/search?q=breaking+bad",
        "Resolve show id by name",
        SIX_HOURS,
    ));
    endpoints.push(ep(
        "GET",
        "/api/gestdown/subtitles",
        "/api/gestdown/subtitles?show_id=...&season=1&episode=1",
        "Subtitle list per episode",
        SIX_HOURS,
    ));
    assert(endpoint_paths(endpoints@) =~= provider_endpoint_paths()[13]);
    ProviderInfo {
        id: "gestdown",
        category: "subtitles",
        summary: "Gestdown (addic7ed 镜像) 字幕代理",
        upstream: "api.gestdown.info",
        ai_hint: "Best source for fan-translated TV-show subtitles. Resolve show id first via /shows/search.",
        endpoints,
        available_ids: None,
    }
}

fn provider_shooter() -> (res: ProviderInfo)
    ensures
        res.id@ == "shooter"@,
        res.category@ == "subtitles"@,
        res.endpoints@.len() >= 1,
        res.endpoints@[0].cache_ttl_seconds == ONE_HOUR,
        endpoint_paths(res.endpoints@) == provider_endpoint_paths()[14],
        res.available_ids is None,
{
    let mut endpoints: Vec<EndpointInfo> = Vec::new();
    endpoints.push(ep(
        "GET",
        "/api/shooter/search",
        "/api/shooter/search?filehash=...&filename=movie.mkv",
        "Match subtitles by filehash + filename",
        ONE_HOUR,
    ));
    assert(endpoint_paths(endpoints@) =~= provider_endpoint_paths()[14]);
    ProviderInfo {
        id: "shooter",
        category: "subtitles",
        summary: "射手 Shooter 字幕匹配代理",
        upstream: "www.shooter.cn",
        ai_hint: "Hash-based subtitle matching for local video files. Less coverage than assrt but no auth required.",
        endpoints,
        available_ids: None,
    }
}

fn provider_regielive() -> (res: ProviderInfo)
    ensures
        res.id@ == "regielive"@,
        res.category@ == "subtitles"@,
        res.endpoints@.len() >= 1,
        res.endpoints@[0].cache_ttl_seconds == SIX_HOURS,
        endpoint_paths(res.endpoints@) == provider_endpoint_paths()[15],
        res.available_ids is None,
{
    let mut endpoints: Vec<EndpointInfo> = Vec::new();
    endpoints.push(ep(
        "GET",
        "/api/regielive/search",
        "/api/regielive/search?q=inception",
        "Search Romanian subtitles by title",
        SIX_HOURS,
    ));
    assert(endpoint_paths(endpoints@) =~= provider_endpoint_paths()[15]);
    ProviderInfo {
        id: "regielive",
        category: "subtitles",
        summary: "RegieLive 罗马尼亚语字幕代理",
        upstream: "subtitrari.regielive.ro",
        ai_hint: "Niche source — only useful if you need Romanian subtitles. Fall back to opensubtitles otherwise.",
        endpoints,
        available_ids: None,
    }
}

fn provider_bangumi() -> (res: ProviderInfo)
    ensures
        res.id@ == "bangumi"@,
        res.category@ == "anime-metadata"@,
        res.endpoints@.len() >= 1,
        res.endpoints@[0].cache_ttl_seconds == HALF_DAY,
        endpoint_paths(res.endpoints@) == provider_endpoint_paths()[16],
        res.available_ids is None,
{
    let mut endpoints: Vec<EndpointInfo> = Vec::new();
    endpoints.push(ep(
        "GET",
        "/api/bangumi/subject/:id",
        "/api/bangumi/subject/253",
        "Subject detail by bgm id",
        HALF_DAY,
    ));
    endpoints.push(ep(
        "GET",
        "/api/bangumi/search",
        "/api/bangumi/search?q=进击的巨人",
        "Full-text search",
        ONE_HOUR,
    ));
    endpoints.push(ep(
        "GET",
        "/api/bangumi/calendar",
        "/api/bangumi/calendar",
        "Current-season airing schedule (also /browse)",
        ONE_HOUR,
    ));
    assert(endpoint_paths(endpoints@) =~= provider_endpoint_paths()[16]);
    ProviderInfo {
        id: "bangumi",
        category: "anime-metadata",
        summary: "Bangumi.tv 动画 / 漫画 / 游戏元数据代理",
        upstream: "api.bgm.tv",
        ai_hint: "Authoritative for Japanese anime metadata in Chinese. Use /subject/:id once you know the bgm id; /search for discovery.",
        endpoints,
        available_ids: None,
    }
}

fn provider_animetosho() -> (res: ProviderInfo)
    ensures
        res.id@ == "animetosho"@,
        res.category@ == "anime-metadata"@,
        res.endpoints@.len() >= 1,
        res.endpoints@[0].cache_ttl_seconds == HALF_HOUR,
        endpoint_paths(res.endpoints@) == provider_endpoint_paths()[17],
        res.available_ids is None,
{
    let mut endpoints: Vec<EndpointInfo> = Vec::new();
    endpoints.push(ep(
        "GET",
        "/api/animetosho/search",
        "/api/animetosho/search?q=frieren",
        "Search anime release entries",
        HALF_HOUR,
    ));
    endpoints.push(ep(
        "GET",
        "/api/animetosho/torrent",
        "/api/animetosho/torrent?id=12345",
        "Torrent / file detail by id",
        HALF_HOUR,
    ));
    assert(endpoint_paths(endpoints@) =~= provider_endpoint_paths()[17]);
    ProviderInfo {
        id: "animetosho",
        category: "anime-metadata",
        summary: "AnimeTosho 种子 / 资源索引代理",
        upstream: "feed.animetosho.org",
        ai_hint: "Discoverability for anime release files (NOT a metadata source). Pair with bangumi for titles.",
        endpoints,
        available_ids: None,
    }
}

fn provider_javbus() -> (res: ProviderInfo)
    ensures
        res.id@ == "javbus"@,
        res.category@ == "adult-metadata"@,
        res.endpoints@.len() >= 1,
        res.endpoints@[0].cache_ttl_seconds == HALF_DAY,
        endpoint_paths(res.endpoints@) == provider_endpoint_paths()[18],
        res.available_ids is None,
{
    let mut endpoints: Vec<EndpointInfo> = Vec::new();
    endpoints.push(ep(
        "GET",
        "/api/javbus/search",
        "/api/javbus/search?q=ABC-123",
        "Search by release code",
        HALF_DAY,
    ));
    assert(endpoint_paths(endpoints@) =~= provider_endpoint_paths()[18]);
    ProviderInfo {
        id: "javbus",
        category: "adult-metadata",
        summary: "JavBus 影片元数据代理（成人内容，需 ADULT_MODE_ENABLED）",
        upstream: "javbus.com",
        ai_hint: "Gated by server-side ADULT_MODE flag — calls return 404 when disabled. Search by code.",
        endpoints,
        available_ids: None,
    }
}

fn provider_javdb() -> (res: ProviderInfo)
    ensures
        res.id@ == "javdb"@,
        res.category@ == "adult-metadata"@,
        res.endpoints@.len() >= 1,
        res.endpoints@[0].cache_ttl_seconds == HALF_DAY,
        endpoint_paths(res.endpoints@) == provider_endpoint_paths()[19],
        res.available_ids is None,
{
    let mut endpoints: Vec<EndpointInfo> = Vec::new();
    endpoints.push(ep(
        "GET",
        "/api/javdb/search",
        "/api/javdb/search?q=ABC-123",
        "Search by release code",
        HALF_DAY,
    ));
    assert(endpoint_paths(endpoints@) =~= provider_endpoint_paths()[19]);
    ProviderInfo {
        id: "javdb",
        category: "adult-metadata",
        summary: "JavDB 影片元数据代理（成人内容，需 ADULT_MODE_ENABLED）",
        upstream: "javdb.com",
        ai_hint: "Gated by ADULT_MODE flag. Higher metadata quality than javbus but stricter rate limits upstream.",
        endpoints,
        available_ids: None,
    }
}

fn provider_tpdb() -> (res: ProviderInfo)
    ensures
        res.id@ == "tpdb"@,
        res.category@ == "adult-metadata"@,
        res.endpoints@.len() >= 1,
        res.endpoints@[0].cache_ttl_seconds == HALF_DAY,
        endpoint_paths(res.endpoints@) == provider_endpoint_paths()[20],
        res.available_ids is None,
{
    let mut endpoints: Vec<EndpointInfo> = Vec::new();
    endpoints.push(ep(
        "GET",
        "/api/tpdb/search",
        "/api/tpdb/search?q=keyword",
        "Search ThePornDB by free-text",
        HALF_DAY,
    ));
    assert(endpoint_paths(endpoints@) =~= provider_endpoint_paths()[20]);
    ProviderInfo {
        id: "tpdb",
        category: "adult-metadata",
        summary: "ThePornDB 元数据代理（成人内容，需 ADULT_MODE_ENABLED）",
        upstream: "api.theporndb.net",
        ai_hint: "Western-content counterpart to javdb. Gated by ADULT_MODE flag.",
        endpoints,
        available_ids: None,
    }
}

fn provider_stashdb() -> (res: ProviderInfo)
    ensures
        res.id@ == "stashdb"@,
        res.category@ == "adult-metadata"@,
        res.endpoints@.len() >= 1,
        res.endpoints@[0].cache_ttl_seconds == HALF_DAY,
        endpoint_paths(res.endpoints@) == provider_endpoint_paths()[21],
        res.available_ids is None,
{
    let mut endpoints: Vec<EndpointInfo> = Vec::new();
    endpoints.push(ep(
        "GET",
        "/api/stashdb/search",
        "/api/stashdb/search?q=keyword",
        "Search StashDB",
        HALF_DAY,
    ));
    assert(endpoint_paths(endpoints@) =~= provider_endpoint_paths()[21]);
    ProviderInfo {
        id: "stashdb",
        category: "adult-metadata",
        summary: "StashDB 元数据代理（成人内容，需 ADULT_MODE_ENABLED）",
        upstream: "stashdb.org",
        ai_hint: "Open metadata DB for adult scenes/performers. Gated by ADULT_MODE flag.",
        endpoints,
        available_ids: None,
    }
}

fn provider_geocoding() -> (res: ProviderInfo)
    ensures
        res.id@ == "geocoding"@,
        res.category@ == "geo-weather"@,
        res.endpoints@.len() >= 1,
        res.endpoints@[0].cache_ttl_seconds == ONE_DAY,
        endpoint_paths(res.endpoints@) == provider_endpoint_paths()[22],
        res.available_ids is None,
{
    let mut endpoints: Vec<EndpointInfo> = Vec::new();
    endpoints.push(ep(
        "GET",
        "/api/geocoding/forward",
        "/api/geocoding/forward?q=Tokyo",
        "Name → lat/lon",
        ONE_DAY,
    ));
    endpoints.push(ep(
        "GET",
        "/api/geocoding/reverse",
        "/api/geocoding/reverse?lat=35.68&lon=139.69",
        "lat/lon → place name",
        ONE_DAY,
    ));
    assert(endpoint_paths(endpoints@) =~= provider_endpoint_paths()[22]);
    ProviderInfo {
        id: "geocoding",
        category: "geo-weather",
        summary: "Open-Meteo 地名搜索 / 反查代理",
        upstream: "geocoding-api.open-meteo.com",
        ai_hint: "Lightweight geocoder. Forward = name→coords, reverse = coords→name. No auth.",
        endpoints,
        available_ids: None,
    }
}

fn provider_nominatim() -> (res: ProviderInfo)
    ensures
        res.id@ == "nominatim"@,
        res.category@ == "geo-weather"@,
        res.endpoints@.len() >= 1,
        res.endpoints@[0].cache_ttl_seconds == ONE_DAY,
        endpoint_paths(res.endpoints@) == provider_endpoint_paths()[23],
        res.available_ids is None,
{
    let mut endpoints: Vec<EndpointInfo> = Vec::new();
    endpoints.push(ep(
        "GET",
        "/api/nominatim/search",
        "/api/nominatim/search?q=Eiffel+Tower",
        "Free-text geocoder",
        ONE_DAY,
    ));
    endpoints.push(ep(
        "GET",
        "/api/nominatim/reverse",
        "/api/nominatim/reverse?lat=48.85&lon=2.29",
        "Reverse geocode",
        ONE_DAY,
    ));
    assert(endpoint_paths(endpoints@) =~= provider_endpoint_paths()[23]);
    ProviderInfo {
        id: "nominatim",
        category: "geo-weather",
        summary: "OSM Nominatim 地名搜索 / 反查代理",
        upstream: "nominatim.openstreetmap.org",
        ai_hint: "Higher-resolution OSM geocoder. Use when /geocoding misses small streets / POIs.",
        endpoints,
        available_ids: None,
    }
}

fn provider_openmeteo() -> (res: ProviderInfo)
    ensures
        res.id@ == "openmeteo"@,
        res.category@ == "geo-weather"@,
        res.endpoints@.len() >= 1,
        res.endpoints@[0].cache_ttl_seconds == HALF_HOUR,
        endpoint_paths(res.endpoints@) == provider_endpoint_paths()[24],
        res.available_ids is None,
{
    let mut endpoints: Vec<EndpointInfo> = Vec::new();
    endpoints.push(ep(
        "GET",
        "/api/openmeteo/forecast",
        "/api/openmeteo/forecast?latitude=35.68&longitude=139.69",
        "Weather forecast by coordinates",
        HALF_HOUR,
    ));
    endpoints.push(ep(
        "GET",
        "/api/openmeteo/air-quality",
        "/api/openmeteo/air-quality?latitude=35.68&longitude=139.69",
        "Air-quality data by coordinates",
        HALF_HOUR,
    ));
    assert(endpoint_paths(endpoints@) =~= provider_endpoint_paths()[24]);
    ProviderInfo {
        id: "openmeteo",
        category: "geo-weather",
        summary: "Open-Meteo 天气 / 空气质量代理",
        upstream: "api.open-meteo.com",
        ai_hint: "Resolve coordinates via /api/geocoding/forward first, then pass to /forecast. No auth required upstream.",
        endpoints,
        available_ids: None,
    }
}

fn provider_holiday() -> (res: ProviderInfo)
    ensures
        res.id@ == "holiday"@,
        res.category@ == "geo-weather"@,
        res.endpoints@.len() >= 1,
        res.endpoints@[0].cache_ttl_seconds == ONE_DAY,
        endpoint_paths(res.endpoints@) == provider_endpoint_paths()[25],
        res.available_ids is None,
{
    let mut endpoints: Vec<EndpointInfo> = Vec::new();
    endpoints.push(ep(
        "GET",
        "/api/holiday/:country/:year",
        "/api/holiday/CN/2025",
        "Public holidays for a country/year",
        ONE_DAY,
    ));
    assert(endpoint_paths(endpoints@) =~= provider_endpoint_paths()[25]);
    ProviderInfo {
        id: "holiday",
        category: "geo-weather",
        summary: "公共假期数据代理（按国家 + 年）",
        upstream: "date.nager.at",
        ai_hint: "Two-letter ISO country code + year. Stable, cache once per year.",
        endpoints,
        available_ids: None,
    }
}

fn provider_wikipedia() -> (res: ProviderInfo)
    ensures
        res.id@ == "wikipedia"@,
        res.category@ == "misc-content"@,
        res.endpoints@.len() >= 1,
        res.endpoints@[0].cache_ttl_seconds == ONE_DAY,
        endpoint_paths(res.endpoints@) == provider_endpoint_paths()[26],
        res.available_ids is None,
{
    let mut endpoints: Vec<EndpointInfo> = Vec::new();
    endpoints.push(ep(
        "GET",
        "/api/wikipedia/summary",
        "/api/wikipedia/summary?title=Albert_Einstein&lang=en",
        "Article summary by title",
        ONE_DAY,
    ));
    assert(endpoint_paths(endpoints@) =~= provider_endpoint_paths()[26]);
    ProviderInfo {
        id: "wikipedia",
        category: "misc-content",
        summary: "Wikipedia 摘要查询代理",
        upstream: "*.wikipedia.org",
        ai_hint: "Returns 1-paragraph summary + thumbnail. Use the `lang` param to switch language editions.",
        endpoints,
        available_ids: None,
    }
}

fn provider_qidian() -> (res: ProviderInfo)
    ensures
        res.id@ == "qidian"@,
        res.category@ == "misc-content"@,
        res.endpoints@.len() >= 1,
        res.endpoints@[0].cache_ttl_seconds == HALF_DAY,
        endpoint_paths(res.endpoints@) == provider_endpoint_paths()[27],
        res.available_ids is None,
{
    let mut endpoints: Vec<EndpointInfo> = Vec::new();
    endpoints.push(ep(
        "GET",
        "/api/qidian/book/:id",
        "/api/qidian/book/1010868264",
        "Book detail by qidian id",
        HALF_DAY,
    ));
    endpoints.push(ep(
        "GET",
        "/api/qidian/search",
        "/api/qidian/search?q=诡秘之主",
        "Full-text search",
        ONE_HOUR,
    ));
    assert(endpoint_paths(endpoints@) =~= provider_endpoint_paths()[27]);
    ProviderInfo {
        id: "qidian",
        category: "misc-content",
        summary: "起点中文网图书元数据代理",
        upstream: "book.qidian.com",
        ai_hint: "Chinese web-novel catalog. Resolve book id via /search, then fetch /book/:id.",
        endpoints,
        available_ids: None,
    }
}

fn provider_hitokoto() -> (res: ProviderInfo)
    ensures
        res.id@ == "hitokoto"@,
        res.category@ == "misc-content"@,
        res.endpoints@.len() >= 1,
        res.endpoints@[0].cache_ttl_seconds == 0,
        endpoint_paths(res.endpoints@) == provider_endpoint_paths()[28],
        res.available_ids is None,
{
    let mut endpoints: Vec<EndpointInfo> = Vec::new();
    endpoints.push(ep(
        "GET",
        "/api/hitokoto/sentence",
        "/api/hitokoto/sentence",
        "Random Chinese quote / line",
        0,
    ));
    assert(endpoint_paths(endpoints@) =~= provider_endpoint_paths()[28]);
    ProviderInfo {
        id: "hitokoto",
        category: "misc-content",
        summary: "一言（hitokoto）随机句子代理",
        upstream: "v1.hitokoto.cn",
        ai_hint: "Lightweight quote fountain. Output not cached aggressively — randomness expected.",
        endpoints,
        available_ids: None,
    }
}

fn provider_zenquotes() -> (res: ProviderInfo)
    ensures
        res.id@ == "zenquotes"@,
        res.category@ == "misc-content"@,
        res.endpoints@.len() >= 1,
        res.endpoints@[0].cache_ttl_seconds == 0,
        endpoint_paths(res.endpoints@) == provider_endpoint_paths()[29],
        res.available_ids is None,
{
    let mut endpoints: Vec<EndpointInfo> = Vec::new();
    endpoints.push(ep(
        "GET",
        "/api/zenquotes/random",
        "/api/zenquotes/random",
        "Random English quote",
        0,
    ));
    assert(endpoint_paths(endpoints@) =~= provider_endpoint_paths()[29]);
    ProviderInfo {
        id: "zenquotes",
        category: "misc-content",
        summary: "ZenQuotes 英文随机名言代理",
        upstream: "zenquotes.io",
        ai_hint: "English-language counterpart to hitokoto. One quote per call.",
        endpoints,
        available_ids: None,
    }
}

fn provider_bing() -> (res: ProviderInfo)
    ensures
        res.id@ == "bing"@,
        res.category@ == "misc-content"@,
        res.endpoints@.len() >= 1,
        res.endpoints@[0].cache_ttl_seconds == ONE_DAY,
        endpoint_paths(res.endpoints@) == provider_endpoint_paths()[30],
        res.available_ids is None,
{
    let mut endpoints: Vec<EndpointInfo> = Vec::new();
    endpoints.push(ep(
        "GET",
        "/api/bing/wallpaper",
        "/api/bing/wallpaper",
        "Today's Bing wallpaper",
        ONE_DAY,
    ));
    assert(endpoint_paths(endpoints@) =~= provider_endpoint_paths()[30]);
    ProviderInfo {
        id: "bing",
        category: "misc-content",
        summary: "Bing 每日壁纸代理",
        upstream: "www.bing.com",
        ai_hint: "Returns today's Bing wallpaper URL + metadata. Cached for ~1 day; safe to call from any client.",
        endpoints,
        available_ids: None,
    }
}

fn provider_github() -> (res: ProviderInfo)
    ensures
        res.id@ == "github"@,
        res.category@ == "misc-content"@,
        res.endpoints@.len() >= 1,
        res.endpoints@[0].cache_ttl_seconds == HALF_HOUR,
        endpoint_paths(res.endpoints@) == provider_endpoint_paths()[31],
        res.available_ids is None,
{
    let mut endpoints: Vec<EndpointInfo> = Vec::new();
    endpoints.push(ep(
        "GET",
        "/api/github/releases/:owner/:repo/latest",
        "/api/github/releases/cli/cli/latest",
        "Latest GitHub release",
        HALF_HOUR,
    ));
    endpoints.push(ep(
        "GET",
        "/api/github/releases/:owner/:repo/list",
        "/api/github/releases/cli/cli/list",
        "Full release history",
        HALF_HOUR,
    ));
    assert(endpoint_paths(endpoints@) =~= provider_endpoint_paths()[31]);
    ProviderInfo {
        id: "github",
        category: "misc-content",
        summary: "GitHub 仓库 releases 代理（按 owner/repo）",
        upstream: "api.github.com",
        ai_hint: "Use /latest for newest release, /list for full history. Counts against the server's GH token rate limit.",
        endpoints,
        available_ids: None,
    }
}

fn provider_currency() -> (res: ProviderInfo)
    ensures
        res.id@ == "currency"@,
        res.category@ == "misc-content"@,
        res.endpoints@.len() >= 1,
        res.endpoints@[0].cache_ttl_seconds == ONE_HOUR,
        endpoint_paths(res.endpoints@) == provider_endpoint_paths()[32],
        res.available_ids is None,
{
    let mut endpoints: Vec<EndpointInfo> = Vec::new();
    endpoints.push(ep(
        "GET",
        "/api/currency/rates",
        "/api/currency/rates?base=USD",
        "Exchange rates relative to `base`",
        ONE_HOUR,
    ));
    assert(endpoint_paths(endpoints@) =~= provider_endpoint_paths()[32]);
    ProviderInfo {
        id: "currency",
        category: "misc-content",
        summary: "汇率数据代理（多基础货币）",
        upstream: "open.er-api.com",
        ai_hint: "Daily-refreshed exchange rates. Returns rates relative to base currency in query.",
        endpoints,
        available_ids: None,
    }
}

fn provider_sports() -> (res: ProviderInfo)
    ensures
        res.id@ == "sports"@,
        res.category@ == "misc-content"@,
        res.endpoints@.len() >= 1,
        res.endpoints@[0].cache_ttl_seconds == ONE_HOUR,
        endpoint_paths(res.endpoints@) == provider_endpoint_paths()[33],
        res.available_ids is None,
{
    let mut endpoints: Vec<EndpointInfo> = Vec::new();
    endpoints.push(ep(
        "GET",
        "/api/sports/schedule",
        "/api/sports/schedule?date=2025-01-01",
        "Sport schedule for a given date / league",
        ONE_HOUR,
    ));
    assert(endpoint_paths(endpoints@) =~= provider_endpoint_paths()[33]);
    ProviderInfo {
        id: "sports",
        category: "misc-content",
        summary: "赛程数据代理（按联赛/日期）",
        upstream: "various",
        ai_hint: "Sport schedule lookup. Filter via query params (date / league); coverage varies upstream.",
        endpoints,
        available_ids: None,
    }
}

/// The full provider inventory, in listing order.
pub fn providers() -> (res: Vec<ProviderInfo>)
    ensures
        res@.len() == provider_ids().len(),
        forall|i: int| 0 <= i < res@.len() ==> {
            &&& (#[trigger] res@[i]).id@ == provider_ids()[i]
            &&& res@[i].category@ == provider_categories()[i]
            &&& res@[i].endpoints@.len() >= 1
            &&& res@[i].endpoints@[0].cache_ttl_seconds == provider_default_ttls()[i]
            &&& endpoint_paths(res@[i].endpoints@) == provider_endpoint_paths()[i]
            &&& (i == 10) == (res@[i].available_ids is Some)
        },
        res@[10].available_ids matches Some(ids) && str_views(ids@) == hot_source_id_seq(),
{
    let mut v: Vec<ProviderInfo> = Vec::new();
    v.push(provider_tmdb());
    v.push(provider_omdb());
    v.push(provider_thetvdb());
    v.push(provider_douban());
    v.push(provider_fanart());
    v.push(provider_spotify());
    v.push(provider_musicbrainz());
    v.push(provider_deezer());
    v.push(provider_itunes());
    v.push(provider_lrclib());
    v.push(provider_hot());
    v.push(provider_opensubtitles());
    v.push(provider_assrt());
    v.push(provider_gestdown());
    v.push(provider_shooter());
    v.push(provider_regielive());
    v.push(provider_bangumi());
    v.push(provider_animetosho());
    v.push(provider_javbus());
    v.push(provider_javdb());
    v.push(provider_tpdb());
    v.push(provider_stashdb());
    v.push(provider_geocoding());
    v.push(provider_nominatim());
    v.push(provider_openmeteo());
    v.push(provider_holiday());
    v.push(provider_wikipedia());
    v.push(provider_qidian());
    v.push(provider_hitokoto());
    v.push(provider_zenquotes());
    v.push(provider_bing());
    v.push(provider_github());
    v.push(provider_currency());
    v.push(provider_sports());
    v
}

/// The provider categories, in listing order.
pub fn categories() -> (res: Vec<CategoryInfo>)
    ensures
        res@.len() == category_ids().len(),
        forall|i: int| 0 <= i < res@.len() ==> {
            &&& (#[trigger] res@[i]).id@ == category_ids()[i]
            &&& str_views(res@[i].providers@) == category_members()[i]
        },
{
    let mut v: Vec<CategoryInfo> = Vec::new();
    let mut m: Vec<&'static str> = Vec::new();
    m.push("tmdb");
    m.push("omdb");
    m.push("thetvdb");
    m.push("douban");
    m.push("fanart");
    assert(str_views(m@) =~= category_members()[0]);
    v.push(CategoryInfo { id: "movie-metadata", providers: m });
    let mut m: Vec<&'static str> = Vec::new();
    m.push("spotify");
    m.push("musicbrainz");
    m.push("deezer");
    m.push("itunes");
    m.push("lrclib");
    assert(str_views(m@) =~= category_members()[1]);
    v.push(CategoryInfo { id: "music-metadata", providers: m });
    let mut m: Vec<&'static str> = Vec::new();
    m.push("hot");
    assert(str_views(m@) =~= category_members()[2]);
    v.push(CategoryInfo { id: "hot-search-aggregator", providers: m });
    let mut m: Vec<&'static str> = Vec::new();
    m.push("opensubtitles");
    m.push("assrt");
    m.push("gestdown");
    m.push("shooter");
    m.push("regielive");
    assert(str_views(m@) =~= category_members()[3]);
    v.push(CategoryInfo { id: "subtitles", providers: m });
    let mut m: Vec<&'static str> = Vec::new();
    m.push("bangumi");
    m.push("animetosho");
    assert(str_views(m@) =~= category_members()[4]);
    v.push(CategoryInfo { id: "anime-metadata", providers: m });
    let mut m: Vec<&'static str> = Vec::new();
    m.push("javbus");
    m.push("javdb");
    m.push("tpdb");
    m.push("stashdb");
    assert(str_views(m@) =~= category_members()[5]);
    v.push(CategoryInfo { id: "adult-metadata", providers: m });
    let mut m: Vec<&'static str> = Vec::new();
    m.push("geocoding");
    m.push("nominatim");
    m.push("openmeteo");
    m.push("holiday");
    assert(str_views(m@) =~= category_members()[6]);
    v.push(CategoryInfo { id: "geo-weather", providers: m });
    let mut m: Vec<&'static str> = Vec::new();
    m.push("wikipedia");
    m.push("qidian");
    m.push("hitokoto");
    m.push("zenquotes");
    m.push("bing");
    m.push("github");
    m.push("currency");
    m.push("sports");
    assert(str_views(m@) =~= category_members()[7]);
    v.push(CategoryInfo { id: "misc-content", providers: m });
    v
}

/// The category listed for the first provider with id `pid` among `ids`
/// from index `i` on.
pub open spec fn category_lookup(ids: Seq<Seq<char>>, cats: Seq<Seq<char>>, pid: Seq<char>, i: int) -> Option<Seq<char>>
    decreases ids.len() - i,
{
    if i < 0 || i >= ids.len() {
        None
    } else if ids[i] == pid {
        Some(cats[i])
    } else {
        category_lookup(ids, cats, pid, i + 1)
    }
}

/// The category of the provider `pid` in the inventory, if it is listed.
pub open spec fn category_for_spec(pid: Seq<char>) -> Option<Seq<char>> {
    category_lookup(provider_ids(), provider_categories(), pid, 0)
}

/// The default cache TTL of the provider `pid`: that of its first listed
/// endpoint, if the provider is listed.
pub open spec fn default_ttl_lookup(pid: Seq<char>, i: int) -> Option<i64>
    decreases provider_ids().len() - i,
{
    if i < 0 || i >= provider_ids().len() {
        None
    } else if provider_ids()[i] == pid {
        Some(provider_default_ttls()[i])
    } else {
        default_ttl_lookup(pid, i + 1)
    }
}

/// The default cache TTL of a provider: that of its first listed endpoint.
pub fn default_ttl_for(provider_id: &str) -> (res: Option<i64>)
    ensures
        res == default_ttl_lookup(provider_id@, 0),
{
    let ps = providers();
    let mut i: usize = 0;
    while i < ps.len()
        invariant
            i <= ps@.len(),
            ps@.len() == provider_ids().len(),
            forall|k: int| 0 <= k < ps@.len() ==> {
                &&& (#[trigger] ps@[k]).id@ == provider_ids()[k]
                &&& ps@[k].endpoints@.len() >= 1
                &&& ps@[k].endpoints@[0].cache_ttl_seconds == provider_default_ttls()[k]
            },
            default_ttl_lookup(provider_id@, 0) == default_ttl_lookup(provider_id@, i as int),
        decreases ps@.len() - i,
    {
        if str_eq(ps[i].id, provider_id) {
            return Some(ps[i].endpoints[0].cache_ttl_seconds);
        }
        i = i + 1;
    }
    None
}

/// The static category id of a provider id, if the provider is known.
pub fn category_for(provider_id: &str) -> (res: Option<&'static str>)
    ensures
        match res {
            Some(c) => category_for_spec(provider_id@) == Some(c@),
            None => category_for_spec(provider_id@) is None,
        },
{
    let ps = providers();
    let mut i: usize = 0;
    while i < ps.len()
        invariant
            i <= ps@.len(),
            ps@.len() == provider_ids().len(),
            forall|k: int| 0 <= k < ps@.len() ==> {
                &&& (#[trigger] ps@[k]).id@ == provider_ids()[k]
                &&& ps@[k].category@ == provider_categories()[k]
            },
            category_for_spec(provider_id@) == category_lookup(
                provider_ids(),
                provider_categories(),
                provider_id@,
                i as int,
            ),
        decreases ps@.len() - i,
    {
        if str_eq(ps[i].id, provider_id) {
            return Some(ps[i].category);
        }
        i = i + 1;
    }
    None
}

/// Whether provider id `p` is listed under some category.
pub open spec fn in_some_category(p: Seq<char>) -> bool {
    exists|c: int, j: int| 0 <= c < category_members().len() && 0 <= j < category_members()[c].len() && #[trigger] category_members()[c][j] == p
}

/// Whether `p` is the id of a listed provider.
pub open spec fn is_listed_provider(p: Seq<char>) -> bool {
    exists|i: int| 0 <= i < provider_ids().len() && #[trigger] provider_ids()[i] == p
}

/// The total number of provider ids over the categories.
pub open spec fn members_total(c: int) -> int
    decreases c,
{
    if c <= 0 {
        0
    } else {
        members_total(c - 1) + category_members()[c - 1].len()
    }
}

/// Every provider is listed under some category, the categories list
/// only known providers, and they list each provider once.
pub proof fn law_categories_cover_providers()
    ensures
        forall|i: int| 0 <= i < provider_ids().len() ==> #[trigger] in_some_category(provider_ids()[i]),
        forall|c: int, j: int|
            0 <= c < category_members().len() && 0 <= j < category_members()[c].len() ==> #[trigger] is_listed_provider(
                category_members()[c][j],
            ),
        members_total(category_members().len() as int) == provider_ids().len(),
{
    assert(category_members()[0][0] == provider_ids()[0]);
    assert(in_some_category(provider_ids()[0]));
    assert(category_members()[0][1] == provider_ids()[1]);
    assert(in_some_category(provider_ids()[1]));
    assert(category_members()[0][2] == provider_ids()[2]);
    assert(in_some_category(provider_ids()[2]));
    assert(category_members()[0][3] == provider_ids()[3]);
    assert(in_some_category(provider_ids()[3]));
    assert(category_members()[0][4] == provider_ids()[4]);
    assert(in_some_category(provider_ids()[4]));
    assert(category_members()[1][0] == provider_ids()[5]);
    assert(in_some_category(provider_ids()[5]));
    assert(category_members()[1][1] == provider_ids()[6]);
    assert(in_some_category(provider_ids()[6]));
    assert(category_members()[1][2] == provider_ids()[7]);
    assert(in_some_category(provider_ids()[7]));
    assert(category_members()[1][3] == provider_ids()[8]);
    assert(in_some_category(provider_ids()[8]));
    assert(category_members()[1][4] == provider_ids()[9]);
    assert(in_some_category(provider_ids()[9]));
    assert(category_members()[2][0] == provider_ids()[10]);
    assert(in_some_category(provider_ids()[10]));
    assert(category_members()[3][0] == provider_ids()[11]);
    assert(in_some_category(provider_ids()[11]));
    assert(category_members()[3][1] == provider_ids()[12]);
    assert(in_some_category(provider_ids()[12]));
    assert(category_members()[3][2] == provider_ids()[13]);
    assert(in_some_category(provider_ids()[13]));
    assert(category_members()[3][3] == provider_ids()[14]);
    assert(in_some_category(provider_ids()[14]));
    assert(category_members()[3][4] == provider_ids()[15]);
    assert(in_some_category(provider_ids()[15]));
    assert(category_members()[4][0] == provider_ids()[16]);
    assert(in_some_category(provider_ids()[16]));
    assert(category_members()[4][1] == provider_ids()[17]);
    assert(in_some_category(provider_ids()[17]));
    assert(category_members()[5][0] == provider_ids()[18]);
    assert(in_some_category(provider_ids()[18]));
    assert(category_members()[5][1] == provider_ids()[19]);
    assert(in_some_category(provider_ids()[19]));
    assert(category_members()[5][2] == provider_ids()[20]);
    assert(in_some_category(provider_ids()[20]));
    assert(category_members()[5][3] == provider_ids()[21]);
    assert(in_some_category(provider_ids()[21]));
    assert(category_members()[6][0] == provider_ids()[22]);
    assert(in_some_category(provider_ids()[22]));
    assert(category_members()[6][1] == provider_ids()[23]);
    assert(in_some_category(provider_ids()[23]));
    assert(category_members()[6][2] == provider_ids()[24]);
    assert(in_some_category(provider_ids()[24]));
    assert(category_members()[6][3] == provider_ids()[25]);
    assert(in_some_category(provider_ids()[25]));
    assert(category_members()[7][0] == provider_ids()[26]);
    assert(in_some_category(provider_ids()[26]));
    assert(category_members()[7][1] == provider_ids()[27]);
    assert(in_some_category(provider_ids()[27]));
    assert(category_members()[7][2] == provider_ids()[28]);
    assert(in_some_category(provider_ids()[28]));
    assert(category_members()[7][3] == provider_ids()[29]);
    assert(in_some_category(provider_ids()[29]));
    assert(category_members()[7][4] == provider_ids()[30]);
    assert(in_some_category(provider_ids()[30]));
    assert(category_members()[7][5] == provider_ids()[31]);
    assert(in_some_category(provider_ids()[31]));
    assert(category_members()[7][6] == provider_ids()[32]);
    assert(in_some_category(provider_ids()[32]));
    assert(category_members()[7][7] == provider_ids()[33]);
    assert(in_some_category(provider_ids()[33]));
    assert forall|i: int| 0 <= i < provider_ids().len() implies #[trigger] in_some_category(provider_ids()[i]) by {
        if i == 0 {} else if i == 1 {} else if i == 2 {} else if i == 3 {} else if i == 4 {} else if i == 5 {} else if i == 6 {} else if i == 7 {} else if i == 8 {} else if i == 9 {} else if i == 10 {} else if i == 11 {} else if i == 12 {} else if i == 13 {} else if i == 14 {} else if i == 15 {} else if i == 16 {} else if i == 17 {} else if i == 18 {} else if i == 19 {} else if i == 20 {} else if i == 21 {} else if i == 22 {} else if i == 23 {} else if i == 24 {} else if i == 25 {} else if i == 26 {} else if i == 27 {} else if i == 28 {} else if i == 29 {} else if i == 30 {} else if i == 31 {} else if i == 32 {} else if i == 33 {}
    }
    assert(provider_ids()[0] == category_members()[0][0]);
    assert(is_listed_provider(category_members()[0][0]));
    assert(provider_ids()[1] == category_members()[0][1]);
    assert(is_listed_provider(category_members()[0][1]));
    assert(provider_ids()[2] == category_members()[0][2]);
    assert(is_listed_provider(category_members()[0][2]));
    assert(provider_ids()[3] == category_members()[0][3]);
    assert(is_listed_provider(category_members()[0][3]));
    assert(provider_ids()[4] == category_members()[0][4]);
    assert(is_listed_provider(category_members()[0][4]));
    assert(provider_ids()[5] == category_members()[1][0]);
    assert(is_listed_provider(category_members()[1][0]));
    assert(provider_ids()[6] == category_members()[1][1]);
    assert(is_listed_provider(category_members()[1][1]));
    assert(provider_ids()[7] == category_members()[1][2]);
    assert(is_listed_provider(category_members()[1][2]));
    assert(provider_ids()[8] == category_members()[1][3]);
    assert(is_listed_provider(category_members()[1][3]));
    assert(provider_ids()[9] == category_members()[1][4]);
    assert(is_listed_provider(category_members()[1][4]));
    assert(provider_ids()[10] == category_members()[2][0]);
    assert(is_listed_provider(category_members()[2][0]));
    assert(provider_ids()[11] == category_members()[3][0]);
    assert(is_listed_provider(category_members()[3][0]));
    assert(provider_ids()[12] == category_members()[3][1]);
    assert(is_listed_provider(category_members()[3][1]));
    assert(provider_ids()[13] == category_members()[3][2]);
    assert(is_listed_provider(category_members()[3][2]));
    assert(provider_ids()[14] == category_members()[3][3]);
    assert(is_listed_provider(category_members()[3][3]));
    assert(provider_ids()[15] == category_members()[3][4]);
    assert(is_listed_provider(category_members()[3][4]));
    assert(provider_ids()[16] == category_members()[4][0]);
    assert(is_listed_provider(category_members()[4][0]));
    assert(provider_ids()[17] == category_members()[4][1]);
    assert(is_listed_provider(category_members()[4][1]));
    assert(provider_ids()[18] == category_members()[5][0]);
    assert(is_listed_provider(category_members()[5][0]));
    assert(provider_ids()[19] == category_members()[5][1]);
    assert(is_listed_provider(category_members()[5][1]));
    assert(provider_ids()[20] == category_members()[5][2]);
    assert(is_listed_provider(category_members()[5][2]));
    assert(provider_ids()[21] == category_members()[5][3]);
    assert(is_listed_provider(category_members()[5][3]));
    assert(provider_ids()[22] == category_members()[6][0]);
    assert(is_listed_provider(category_members()[6][0]));
    assert(provider_ids()[23] == category_members()[6][1]);
    assert(is_listed_provider(category_members()[6][1]));
    assert(provider_ids()[24] == category_members()[6][2]);
    assert(is_listed_provider(category_members()[6][2]));
    assert(provider_ids()[25] == category_members()[6][3]);
    assert(is_listed_provider(category_members()[6][3]));
    assert(provider_ids()[26] == category_members()[7][0]);
    assert(is_listed_provider(category_members()[7][0]));
    assert(provider_ids()[27] == category_members()[7][1]);
    assert(is_listed_provider(category_members()[7][1]));
    assert(provider_ids()[28] == category_members()[7][2]);
    assert(is_listed_provider(category_members()[7][2]));
    assert(provider_ids()[29] == category_members()[7][3]);
    assert(is_listed_provider(category_members()[7][3]));
    assert(provider_ids()[30] == category_members()[7][4]);
    assert(is_listed_provider(category_members()[7][4]));
    assert(provider_ids()[31] == category_members()[7][5]);
    assert(is_listed_provider(category_members()[7][5]));
    assert(provider_ids()[32] == category_members()[7][6]);
    assert(is_listed_provider(category_members()[7][6]));
    assert(provider_ids()[33] == category_members()[7][7]);
    assert(is_listed_provider(category_members()[7][7]));
    assert forall|c: int, j: int| 0 <= c < category_members().len() && 0 <= j < category_members()[c].len() implies #[trigger] is_listed_provider(category_members()[c][j]) by {
        if c == 0 { if j == 0 {} else if j == 1 {} else if j == 2 {} else if j == 3 {} else if j == 4 {} } else if c == 1 { if j == 0 {} else if j == 1 {} else if j == 2 {} else if j == 3 {} else if j == 4 {} } else if c == 2 { if j == 0 {} } else if c == 3 { if j == 0 {} else if j == 1 {} else if j == 2 {} else if j == 3 {} else if j == 4 {} } else if c == 4 { if j == 0 {} else if j == 1 {} } else if c == 5 { if j == 0 {} else if j == 1 {} else if j == 2 {} else if j == 3 {} } else if c == 6 { if j == 0 {} else if j == 1 {} else if j == 2 {} else if j == 3 {} } else if c == 7 { if j == 0 {} else if j == 1 {} else if j == 2 {} else if j == 3 {} else if j == 4 {} else if j == 5 {} else if j == 6 {} else if j == 7 {} }
    }
    reveal_with_fuel(members_total, 9);
}

/// The provider ids are pairwise distinct.
pub proof fn law_provider_ids_distinct()
    ensures
        forall|a: int, b: int| 0 <= a < b < provider_ids().len() ==> provider_ids()[a] != provider_ids()[b],
{
    reveal_strlit("tmdb");
    reveal_strlit("omdb");
    reveal_strlit("thetvdb");
    reveal_strlit("douban");
    reveal_strlit("fanart");
    reveal_strlit("spotify");
    reveal_strlit("musicbrainz");
    reveal_strlit("deezer");
    reveal_strlit("itunes");
    reveal_strlit("lrclib");
    reveal_strlit("hot");
    reveal_strlit("opensubtitles");
    reveal_strlit("assrt");
    reveal_strlit("gestdown");
    reveal_strlit("shooter");
    reveal_strlit("regielive");
    reveal_strlit("bangumi");
    reveal_strlit("animetosho");
    reveal_strlit("javbus");
    reveal_strlit("javdb");
    reveal_strlit("tpdb");
    reveal_strlit("stashdb");
    reveal_strlit("geocoding");
    reveal_strlit("nominatim");
    reveal_strlit("openmeteo");
    reveal_strlit("holiday");
    reveal_strlit("wikipedia");
    reveal_strlit("qidian");
    reveal_strlit("hitokoto");
    reveal_strlit("zenquotes");
    reveal_strlit("bing");
    reveal_strlit("github");
    reveal_strlit("currency");
    reveal_strlit("sports");
    assert(provider_ids()[0][0] != provider_ids()[1][0]);
    assert(provider_ids()[0].len() != provider_ids()[2].len());
    assert(provider_ids()[0].len() != provider_ids()[3].len());
    assert(provider_ids()[0].len() != provider_ids()[4].len());
    assert(provider_ids()[0].len() != provider_ids()[5].len());
    assert(provider_ids()[0].len() != provider_ids()[6].len());
    assert(provider_ids()[0].len() != provider_ids()[7].len());
    assert(provider_ids()[0].len() != provider_ids()[8].len());
    assert(provider_ids()[0].len() != provider_ids()[9].len());
    assert(provider_ids()[0].len() != provider_ids()[10].len());
    assert(provider_ids()[0].len() != provider_ids()[11].len());
    assert(provider_ids()[0].len() != provider_ids()[12].len());
    assert(provider_ids()[0].len() != provider_ids()[13].len());
    assert(provider_ids()[0].len() != provider_ids()[14].len());
    assert(provider_ids()[0].len() != provider_ids()[15].len());
    assert(provider_ids()[0].len() != provider_ids()[16].len());
    assert(provider_ids()[0].len() != provider_ids()[17].len());
    assert(provider_ids()[0].len() != provider_ids()[18].len());
    assert(provider_ids()[0].len() != provider_ids()[19].len());
    assert(provider_ids()[0][1] != provider_ids()[20][1]);
    assert(provider_ids()[0].len() != provider_ids()[21].len());
    assert(provider_ids()[0].len() != provider_ids()[22].len());
    assert(provider_ids()[0].len() != provider_ids()[23].len());
    assert(provider_ids()[0].len() != provider_ids()[24].len());
    assert(provider_ids()[0].len() != provider_ids()[25].len());
    assert(provider_ids()[0].len() != provider_ids()[26].len());
    assert(provider_ids()[0].len() != provider_ids()[27].len());
    assert(provider_ids()[0].len() != provider_ids()[28].len());
    assert(provider_ids()[0].len() != provider_ids()[29].len());
    assert(provider_ids()[0][0] != provider_ids()[30][0]);
    assert(provider_ids()[0].len() != provider_ids()[31].len());
    assert(provider_ids()[0].len() != provider_ids()[32].len());
    assert(provider_ids()[0].len() != provider_ids()[33].len());
    assert(provider_ids()[1].len() != provider_ids()[2].len());
    assert(provider_ids()[1].len() != provider_ids()[3].len());
    assert(provider_ids()[1].len() != provider_ids()[4].len());
    assert(provider_ids()[1].len() != provider_ids()[5].len());
    assert(provider_ids()[1].len() != provider_ids()[6].len());
    assert(provider_ids()[1].len() != provider_ids()[7].len());
    assert(provider_ids()[1].len() != provider_ids()[8].len());
    assert(provider_ids()[1].len() != provider_ids()[9].len());
    assert(provider_ids()[1].len() != provider_ids()[10].len());
    assert(provider_ids()[1].len() != provider_ids()[11].len());
    assert(provider_ids()[1].len() != provider_ids()[12].len());
    assert(provider_ids()[1].len() != provider_ids()[13].len());
    assert(provider_ids()[1].len() != provider_ids()[14].len());
    assert(provider_ids()[1].len() != provider_ids()[15].len());
    assert(provider_ids()[1].len() != provider_ids()[16].len());
    assert(provider_ids()[1].len() != provider_ids()[17].len());
    assert(provider_ids()[1].len() != provider_ids()[18].len());
    assert(provider_ids()[1].len() != provider_ids()[19].len());
    assert(provider_ids()[1][0] != provider_ids()[20][0]);
    assert(provider_ids()[1].len() != provider_ids()[21].len());
    assert(provider_ids()[1].len() != provider_ids()[22].len());
    assert(provider_ids()[1].len() != provider_ids()[23].len());
    assert(provider_ids()[1].len() != provider_ids()[24].len());
    assert(provider_ids()[1].len() != provider_ids()[25].len());
    assert(provider_ids()[1].len() != provider_ids()[26].len());
    assert(provider_ids()[1].len() != provider_ids()[27].len());
    assert(provider_ids()[1].len() != provider_ids()[28].len());
    assert(provider_ids()[1].len() != provider_ids()[29].len());
    assert(provider_ids()[1][0] != provider_ids()[30][0]);
    assert(provider_ids()[1].len() != provider_ids()[31].len());
    assert(provider_ids()[1].len() != provider_ids()[32].len());
    assert(provider_ids()[1].len() != provider_ids()[33].len());
    assert(provider_ids()[2].len() != provider_ids()[3].len());
    assert(provider_ids()[2].len() != provider_ids()[4].len());
    assert(provider_ids()[2][0] != provider_ids()[5][0]);
    assert(provider_ids()[2].len() != provider_ids()[6].len());
    assert(provider_ids()[2].len() != provider_ids()[7].len());
    assert(provider_ids()[2].len() != provider_ids()[8].len());
    assert(provider_ids()[2].len() != provider_ids()[9].len());
    assert(provider_ids()[2].len() != provider_ids()[10].len());
    assert(provider_ids()[2].len() != provider_ids()[11].len());
    assert(provider_ids()[2].len() != provider_ids()[12].len());
    assert(provider_ids()[2].len() != provider_ids()[13].len());
    assert(provider_ids()[2][0] != provider_ids()[14][0]);
    assert(provider_ids()[2].len() != provider_ids()[15].len());
    assert(provider_ids()[2][0] != provider_ids()[16][0]);
    assert(provider_ids()[2].len() != provider_ids()[17].len());
    assert(provider_ids()[2].len() != provider_ids()[18].len());
    assert(provider_ids()[2].len() != provider_ids()[19].len());
    assert(provider_ids()[2].len() != provider_ids()[20].len());
    assert(provider_ids()[2][0] != provider_ids()[21][0]);
    assert(provider_ids()[2].len() != provider_ids()[22].len());
    assert(provider_ids()[2].len() != provider_ids()[23].len());
    assert(provider_ids()[2].len() != provider_ids()[24].len());
    assert(provider_ids()[2][0] != provider_ids()[25][0]);
    assert(provider_ids()[2].len() != provider_ids()[26].len());
    assert(provider_ids()[2].len() != provider_ids()[27].len());
    assert(provider_ids()[2].len() != provider_ids()[28].len());
    assert(provider_ids()[2].len() != provider_ids()[29].len());
    assert(provider_ids()[2].len() != provider_ids()[30].len());
    assert(provider_ids()[2].len() != provider_ids()[31].len());
    assert(provider_ids()[2].len() != provider_ids()[32].len());
    assert(provider_ids()[2].len() != provider_ids()[33].len());
    assert(provider_ids()[3][0] != provider_ids()[4][0]);
    assert(provider_ids()[3].len() != provider_ids()[5].len());
    assert(provider_ids()[3].len() != provider_ids()[6].len());
    assert(provider_ids()[3][1] != provider_ids()[7][1]);
    assert(provider_ids()[3][0] != provider_ids()[8][0]);
    assert(provider_ids()[3][0] != provider_ids()[9][0]);
    assert(provider_ids()[3].len() != provider_ids()[10].len());
    assert(provider_ids()[3].len() != provider_ids()[11].len());
    assert(provider_ids()[3].len() != provider_ids()[12].len());
    assert(provider_ids()[3].len() != provider_ids()[13].len());
    assert(provider_ids()[3].len() != provider_ids()[14].len());
    assert(provider_ids()[3].len() != provider_ids()[15].len());
    assert(provider_ids()[3].len() != provider_ids()[16].len());
    assert(provider_ids()[3].len() != provider_ids()[17].len());
    assert(provider_ids()[3][0] != provider_ids()[18][0]);
    assert(provider_ids()[3].len() != provider_ids()[19].len());
    assert(provider_ids()[3].len() != provider_ids()[20].len());
    assert(provider_ids()[3].len() != provider_ids()[21].len());
    assert(provider_ids()[3].len() != provider_ids()[22].len());
    assert(provider_ids()[3].len() != provider_ids()[23].len());
    assert(provider_ids()[3].len() != provider_ids()[24].len());
    assert(provider_ids()[3].len() != provider_ids()[25].len());
    assert(provider_ids()[3].len() != provider_ids()[26].len());
    assert(provider_ids()[3][0] != provider_ids()[27][0]);
    assert(provider_ids()[3].len() != provider_ids()[28].len());
    assert(provider_ids()[3].len() != provider_ids()[29].len());
    assert(provider_ids()[3].len() != provider_ids()[30].len());
    assert(provider_ids()[3][0] != provider_ids()[31][0]);
    assert(provider_ids()[3].len() != provider_ids()[32].len());
    assert(provider_ids()[3][0] != provider_ids()[33][0]);
    assert(provider_ids()[4].len() != provider_ids()[5].len());
    assert(provider_ids()[4].len() != provider_ids()[6].len());
    assert(provider_ids()[4][0] != provider_ids()[7][0]);
    assert(provider_ids()[4][0] != provider_ids()[8][0]);
    assert(provider_ids()[4][0] != provider_ids()[9][0]);
    assert(provider_ids()[4].len() != provider_ids()[10].len());
    assert(provider_ids()[4].len() != provider_ids()[11].len());
    assert(provider_ids()[4].len() != provider_ids()[12].len());
    assert(provider_ids()[4].len() != provider_ids()[13].len());
    assert(provider_ids()[4].len() != provider_ids()[14].len());
    assert(provider_ids()[4].len() != provider_ids()[15].len());
    assert(provider_ids()[4].len() != provider_ids()[16].len());
    assert(provider_ids()[4].len() != provider_ids()[17].len());
    assert(provider_ids()[4][0] != provider_ids()[18][0]);
    assert(provider_ids()[4].len() != provider_ids()[19].len());
    assert(provider_ids()[4].len() != provider_ids()[20].len());
    assert(provider_ids()[4].len() != provider_ids()[21].len());
    assert(provider_ids()[4].len() != provider_ids()[22].len());
    assert(provider_ids()[4].len() != provider_ids()[23].len());
    assert(provider_ids()[4].len() != provider_ids()[24].len());
    assert(provider_ids()[4].len() != provider_ids()[25].len());
    assert(provider_ids()[4].len() != provider_ids()[26].len());
    assert(provider_ids()[4][0] != provider_ids()[27][0]);
    assert(provider_ids()[4].len() != provider_ids()[28].len());
    assert(provider_ids()[4].len() != provider_ids()[29].len());
    assert(provider_ids()[4].len() != provider_ids()[30].len());
    assert(provider_ids()[4][0] != provider_ids()[31][0]);
    assert(provider_ids()[4].len() != provider_ids()[32].len());
    assert(provider_ids()[4][0] != provider_ids()[33][0]);
    assert(provider_ids()[5].len() != provider_ids()[6].len());
    assert(provider_ids()[5].len() != provider_ids()[7].len());
    assert(provider_ids()[5].len() != provider_ids()[8].len());
    assert(provider_ids()[5].len() != provider_ids()[9].len());
    assert(provider_ids()[5].len() != provider_ids()[10].len());
    assert(provider_ids()[5].len() != provider_ids()[11].len());
    assert(provider_ids()[5].len() != provider_ids()[12].len());
    assert(provider_ids()[5].len() != provider_ids()[13].len());
    assert(provider_ids()[5][1] != provider_ids()[14][1]);
    assert(provider_ids()[5].len() != provider_ids()[15].len());
    assert(provider_ids()[5][0] != provider_ids()[16][0]);
    assert(provider_ids()[5].len() != provider_ids()[17].len());
    assert(provider_ids()[5].len() != provider_ids()[18].len());
    assert(provider_ids()[5].len() != provider_ids()[19].len());
    assert(provider_ids()[5].len() != provider_ids()[20].len());
    assert(provider_ids()[5][1] != provider_ids()[21][1]);
    assert(provider_ids()[5].len() != provider_ids()[22].len());
    assert(provider_ids()[5].len() != provider_ids()[23].len());
    assert(provider_ids()[5].len() != provider_ids()[24].len());
    assert(provider_ids()[5][0] != provider_ids()[25][0]);
    assert(provider_ids()[5].len() != provider_ids()[26].len());
    assert(provider_ids()[5].len() != provider_ids()[27].len());
    assert(provider_ids()[5].len() != provider_ids()[28].len());
    assert(provider_ids()[5].len() != provider_ids()[29].len());
    assert(provider_ids()[5].len() != provider_ids()[30].len());
    assert(provider_ids()[5].len() != provider_ids()[31].len());
    assert(provider_ids()[5].len() != provider_ids()[32].len());
    assert(provider_ids()[5].len() != provider_ids()[33].len());
    assert(provider_ids()[6].len() != provider_ids()[7].len());
    assert(provider_ids()[6].len() != provider_ids()[8].len());
    assert(provider_ids()[6].len() != provider_ids()[9].len());
    assert(provider_ids()[6].len() != provider_ids()[10].len());
    assert(provider_ids()[6].len() != provider_ids()[11].len());
    assert(provider_ids()[6].len() != provider_ids()[12].len());
    assert(provider_ids()[6].len() != provider_ids()[13].len());
    assert(provider_ids()[6].len() != provider_ids()[14].len());
    assert(provider_ids()[6].len() != provider_ids()[15].len());
    assert(provider_ids()[6].len() != provider_ids()[16].len());
    assert(provider_ids()[6].len() != provider_ids()[17].len());
    assert(provider_ids()[6].len() != provider_ids()[18].len());
    assert(provider_ids()[6].len() != provider_ids()[19].len());
    assert(provider_ids()[6].len() != provider_ids()[20].len());
    assert(provider_ids()[6].len() != provider_ids()[21].len());
    assert(provider_ids()[6].len() != provider_ids()[22].len());
    assert(provider_ids()[6].len() != provider_ids()[23].len());
    assert(provider_ids()[6].len() != provider_ids()[24].len());
    assert(provider_ids()[6].len() != provider_ids()[25].len());
    assert(provider_ids()[6].len() != provider_ids()[26].len());
    assert(provider_ids()[6].len() != provider_ids()[27].len());
    assert(provider_ids()[6].len() != provider_ids()[28].len());
    assert(provider_ids()[6].len() != provider_ids()[29].len());
    assert(provider_ids()[6].len() != provider_ids()[30].len());
    assert(provider_ids()[6].len() != provider_ids()[31].len());
    assert(provider_ids()[6].len() != provider_ids()[32].len());
    assert(provider_ids()[6].len() != provider_ids()[33].len());
    assert(provider_ids()[7][0] != provider_ids()[8][0]);
    assert(provider_ids()[7][0] != provider_ids()[9][0]);
    assert(provider_ids()[7].len() != provider_ids()[10].len());
    assert(provider_ids()[7].len() != provider_ids()[11].len());
    assert(provider_ids()[7].len() != provider_ids()[12].len());
    assert(provider_ids()[7].len() != provider_ids()[13].len());
    assert(provider_ids()[7].len() != provider_ids()[14].len());
    assert(provider_ids()[7].len() != provider_ids()[15].len());
    assert(provider_ids()[7].len() != provider_ids()[16].len());
    assert(provider_ids()[7].len() != provider_ids()[17].len());
    assert(provider_ids()[7][0] != provider_ids()[18][0]);
    assert(provider_ids()[7].len() != provider_ids()[19].len());
    assert(provider_ids()[7].len() != provider_ids()[20].len());
    assert(provider_ids()[7].len() != provider_ids()[21].len());
    assert(provider_ids()[7].len() != provider_ids()[22].len());
    assert(provider_ids()[7].len() != provider_ids()[23].len());
    assert(provider_ids()[7].len() != provider_ids()[24].len());
    assert(provider_ids()[7].len() != provider_ids()[25].len());
    assert(provider_ids()[7].len() != provider_ids()[26].len());
    assert(provider_ids()[7][0] != provider_ids()[27][0]);
    assert(provider_ids()[7].len() != provider_ids()[28].len());
    assert(provider_ids()[7].len() != provider_ids()[29].len());
    assert(provider_ids()[7].len() != provider_ids()[30].len());
    assert(provider_ids()[7][0] != provider_ids()[31][0]);
    assert(provider_ids()[7].len() != provider_ids()[32].len());
    assert(provider_ids()[7][0] != provider_ids()[33][0]);
    assert(provider_ids()[8][0] != provider_ids()[9][0]);
    assert(provider_ids()[8].len() != provider_ids()[10].len());
    assert(provider_ids()[8].len() != provider_ids()[11].len());
    assert(provider_ids()[8].len() != provider_ids()[12].len());
    assert(provider_ids()[8].len() != provider_ids()[13].len());
    assert(provider_ids()[8].len() != provider_ids()[14].len());
    assert(provider_ids()[8].len() != provider_ids()[15].len());
    assert(provider_ids()[8].len() != provider_ids()[16].len());
    assert(provider_ids()[8].len() != provider_ids()[17].len());
    assert(provider_ids()[8][0] != provider_ids()[18][0]);
    assert(provider_ids()[8].len() != provider_ids()[19].len());
    assert(provider_ids()[8].len() != provider_ids()[20].len());
    assert(provider_ids()[8].len() != provider_ids()[21].len());
    assert(provider_ids()[8].len() != provider_ids()[22].len());
    assert(provider_ids()[8].len() != provider_ids()[23].len());
    assert(provider_ids()[8].len() != provider_ids()[24].len());
    assert(provider_ids()[8].len() != provider_ids()[25].len());
    assert(provider_ids()[8].len() != provider_ids()[26].len());
    assert(provider_ids()[8][0] != provider_ids()[27][0]);
    assert(provider_ids()[8].len() != provider_ids()[28].len());
    assert(provider_ids()[8].len() != provider_ids()[29].len());
    assert(provider_ids()[8].len() != provider_ids()[30].len());
    assert(provider_ids()[8][0] != provider_ids()[31][0]);
    assert(provider_ids()[8].len() != provider_ids()[32].len());
    assert(provider_ids()[8][0] != provider_ids()[33][0]);
    assert(provider_ids()[9].len() != provider_ids()[10].len());
    assert(provider_ids()[9].len() != provider_ids()[11].len());
    assert(provider_ids()[9].len() != provider_ids()[12].len());
    assert(provider_ids()[9].len() != provider_ids()[13].len());
    assert(provider_ids()[9].len() != provider_ids()[14].len());
    assert(provider_ids()[9].len() != provider_ids()[15].len());
    assert(provider_ids()[9].len() != provider_ids()[16].len());
    assert(provider_ids()[9].len() != provider_ids()[17].len());
    assert(provider_ids()[9][0] != provider_ids()[18][0]);
    assert(provider_ids()[9].len() != provider_ids()[19].len());
    assert(provider_ids()[9].len() != provider_ids()[20].len());
    assert(provider_ids()[9].len() != provider_ids()[21].len());
    assert(provider_ids()[9].len() != provider_ids()[22].len());
    assert(provider_ids()[9].len() != provider_ids()[23].len());
    assert(provider_ids()[9].len() != provider_ids()[24].len());
    assert(provider_ids()[9].len() != provider_ids()[25].len());
    assert(provider_ids()[9].len() != provider_ids()[26].len());
    assert(provider_ids()[9][0] != provider_ids()[27][0]);
    assert(provider_ids()[9].len() != provider_ids()[28].len());
    assert(provider_ids()[9].len() != provider_ids()[29].len());
    assert(provider_ids()[9].len() != provider_ids()[30].len());
    assert(provider_ids()[9][0] != provider_ids()[31][0]);
    assert(provider_ids()[9].len() != provider_ids()[32].len());
    assert(provider_ids()[9][0] != provider_ids()[33][0]);
    assert(provider_ids()[10].len() != provider_ids()[11].len());
    assert(provider_ids()[10].len() != provider_ids()[12].len());
    assert(provider_ids()[10].len() != provider_ids()[13].len());
    assert(provider_ids()[10].len() != provider_ids()[14].len());
    assert(provider_ids()[10].len() != provider_ids()[15].len());
    assert(provider_ids()[10].len() != provider_ids()[16].len());
    assert(provider_ids()[10].len() != provider_ids()[17].len());
    assert(provider_ids()[10].len() != provider_ids()[18].len());
    assert(provider_ids()[10].len() != provider_ids()[19].len());
    assert(provider_ids()[10].len() != provider_ids()[20].len());
    assert(provider_ids()[10].len() != provider_ids()[21].len());
    assert(provider_ids()[10].len() != provider_ids()[22].len());
    assert(provider_ids()[10].len() != provider_ids()[23].len());
    assert(provider_ids()[10].len() != provider_ids()[24].len());
    assert(provider_ids()[10].len() != provider_ids()[25].len());
    assert(provider_ids()[10].len() != provider_ids()[26].len());
    assert(provider_ids()[10].len() != provider_ids()[27].len());
    assert(provider_ids()[10].len() != provider_ids()[28].len());
    assert(provider_ids()[10].len() != provider_ids()[29].len());
    assert(provider_ids()[10].len() != provider_ids()[30].len());
    assert(provider_ids()[10].len() != provider_ids()[31].len());
    assert(provider_ids()[10].len() != provider_ids()[32].len());
    assert(provider_ids()[10].len() != provider_ids()[33].len());
    assert(provider_ids()[11].len() != provider_ids()[12].len());
    assert(provider_ids()[11].len() != provider_ids()[13].len());
    assert(provider_ids()[11].len() != provider_ids()[14].len());
    assert(provider_ids()[11].len() != provider_ids()[15].len());
    assert(provider_ids()[11].len() != provider_ids()[16].len());
    assert(provider_ids()[11].len() != provider_ids()[17].len());
    assert(provider_ids()[11].len() != provider_ids()[18].len());
    assert(provider_ids()[11].len() != provider_ids()[19].len());
    assert(provider_ids()[11].len() != provider_ids()[20].len());
    assert(provider_ids()[11].len() != provider_ids()[21].len());
    assert(provider_ids()[11].len() != provider_ids()[22].len());
    assert(provider_ids()[11].len() != provider_ids()[23].len());
    assert(provider_ids()[11].len() != provider_ids()[24].len());
    assert(provider_ids()[11].len() != provider_ids()[25].len());
    assert(provider_ids()[11].len() != provider_ids()[26].len());
    assert(provider_ids()[11].len() != provider_ids()[27].len());
    assert(provider_ids()[11].len() != provider_ids()[28].len());
    assert(provider_ids()[11].len() != provider_ids()[29].len());
    assert(provider_ids()[11].len() != provider_ids()[30].len());
    assert(provider_ids()[11].len() != provider_ids()[31].len());
    assert(provider_ids()[11].len() != provider_ids()[32].len());
    assert(provider_ids()[11].len() != provider_ids()[33].len());
    assert(provider_ids()[12].len() != provider_ids()[13].len());
    assert(provider_ids()[12].len() != provider_ids()[14].len());
    assert(provider_ids()[12].len() != provider_ids()[15].len());
    assert(provider_ids()[12].len() != provider_ids()[16].len());
    assert(provider_ids()[12].len() != provider_ids()[17].len());
    assert(provider_ids()[12].len() != provider_ids()[18].len());
    assert(provider_ids()[12][0] != provider_ids()[19][0]);
    assert(provider_ids()[12].len() != provider_ids()[20].len());
    assert(provider_ids()[12].len() != provider_ids()[21].len());
    assert(provider_ids()[12].len() != provider_ids()[22].len());
    assert(provider_ids()[12].len() != provider_ids()[23].len());
    assert(provider_ids()[12].len() != provider_ids()[24].len());
    assert(provider_ids()[12].len() != provider_ids()[25].len());
    assert(provider_ids()[12].len() != provider_ids()[26].len());
    assert(provider_ids()[12].len() != provider_ids()[27].len());
    assert(provider_ids()[12].len() != provider_ids()[28].len());
    assert(provider_ids()[12].len() != provider_ids()[29].len());
    assert(provider_ids()[12].len() != provider_ids()[30].len());
    assert(provider_ids()[12].len() != provider_ids()[31].len());
    assert(provider_ids()[12].len() != provider_ids()[32].len());
    assert(provider_ids()[12].len() != provider_ids()[33].len());
    assert(provider_ids()[13].len() != provider_ids()[14].len());
    assert(provider_ids()[13].len() != provider_ids()[15].len());
    assert(provider_ids()[13].len() != provider_ids()[16].len());
    assert(provider_ids()[13].len() != provider_ids()[17].len());
    assert(provider_ids()[13].len() != provider_ids()[18].len());
    assert(provider_ids()[13].len() != provider_ids()[19].len());
    assert(provider_ids()[13].len() != provider_ids()[20].len());
    assert(provider_ids()[13].len() != provider_ids()[21].len());
    assert(provider_ids()[13].len() != provider_ids()[22].len());
    assert(provider_ids()[13].len() != provider_ids()[23].len());
    assert(provider_ids()[13].len() != provider_ids()[24].len());
    assert(provider_ids()[13].len() != provider_ids()[25].len());
    assert(provider_ids()[13].len() != provider_ids()[26].len());
    assert(provider_ids()[13].len() != provider_ids()[27].len());
    assert(provider_ids()[13][0] != provider_ids()[28][0]);
    assert(provider_ids()[13].len() != provider_ids()[29].len());
    assert(provider_ids()[13].len() != provider_ids()[30].len());
    assert(provider_ids()[13].len() != provider_ids()[31].len());
    assert(provider_ids()[13][0] != provider_ids()[32][0]);
    assert(provider_ids()[13].len() != provider_ids()[33].len());
    assert(provider_ids()[14].len() != provider_ids()[15].len());
    assert(provider_ids()[14][0] != provider_ids()[16][0]);
    assert(provider_ids()[14].len() != provider_ids()[17].len());
    assert(provider_ids()[14].len() != provider_ids()[18].len());
    assert(provider_ids()[14].len() != provider_ids()[19].len());
    assert(provider_ids()[14].len() != provider_ids()[20].len());
    assert(provider_ids()[14][1] != provider_ids()[21][1]);
    assert(provider_ids()[14].len() != provider_ids()[22].len());
    assert(provider_ids()[14].len() != provider_ids()[23].len());
    assert(provider_ids()[14].len() != provider_ids()[24].len());
    assert(provider_ids()[14][0] != provider_ids()[25][0]);
    assert(provider_ids()[14].len() != provider_ids()[26].len());
    assert(provider_ids()[14].len() != provider_ids()[27].len());
    assert(provider_ids()[14].len() != provider_ids()[28].len());
    assert(provider_ids()[14].len() != provider_ids()[29].len());
    assert(provider_ids()[14].len() != provider_ids()[30].len());
    assert(provider_ids()[14].len() != provider_ids()[31].len());
    assert(provider_ids()[14].len() != provider_ids()[32].len());
    assert(provider_ids()[14].len() != provider_ids()[33].len());
    assert(provider_ids()[15].len() != provider_ids()[16].len());
    assert(provider_ids()[15].len() != provider_ids()[17].len());
    assert(provider_ids()[15].len() != provider_ids()[18].len());
    assert(provider_ids()[15].len() != provider_ids()[19].len());
    assert(provider_ids()[15].len() != provider_ids()[20].len());
    assert(provider_ids()[15].len() != provider_ids()[21].len());
    assert(provider_ids()[15][0] != provider_ids()[22][0]);
    assert(provider_ids()[15][0] != provider_ids()[23][0]);
    assert(provider_ids()[15][0] != provider_ids()[24][0]);
    assert(provider_ids()[15].len() != provider_ids()[25].len());
    assert(provider_ids()[15][0] != provider_ids()[26][0]);
    assert(provider_ids()[15].len() != provider_ids()[27].len());
    assert(provider_ids()[15].len() != provider_ids()[28].len());
    assert(provider_ids()[15][0] != provider_ids()[29][0]);
    assert(provider_ids()[15].len() != provider_ids()[30].len());
    assert(provider_ids()[15].len() != provider_ids()[31].len());
    assert(provider_ids()[15].len() != provider_ids()[32].len());
    assert(provider_ids()[15].len() != provider_ids()[33].len());
    assert(provider_ids()[16].len() != provider_ids()[17].len());
    assert(provider_ids()[16].len() != provider_ids()[18].len());
    assert(provider_ids()[16].len() != provider_ids()[19].len());
    assert(provider_ids()[16].len() != provider_ids()[20].len());
    assert(provider_ids()[16][0] != provider_ids()[21][0]);
    assert(provider_ids()[16].len() != provider_ids()[22].len());
    assert(provider_ids()[16].len() != provider_ids()[23].len());
    assert(provider_ids()[16].len() != provider_ids()[24].len());
    assert(provider_ids()[16][0] != provider_ids()[25][0]);
    assert(provider_ids()[16].len() != provider_ids()[26].len());
    assert(provider_ids()[16].len() != provider_ids()[27].len());
    assert(provider_ids()[16].len() != provider_ids()[28].len());
    assert(provider_ids()[16].len() != provider_ids()[29].len());
    assert(provider_ids()[16].len() != provider_ids()[30].len());
    assert(provider_ids()[16].len() != provider_ids()[31].len());
    assert(provider_ids()[16].len() != provider_ids()[32].len());
    assert(provider_ids()[16].len() != provider_ids()[33].len());
    assert(provider_ids()[17].len() != provider_ids()[18].len());
    assert(provider_ids()[17].len() != provider_ids()[19].len());
    assert(provider_ids()[17].len() != provider_ids()[20].len());
    assert(provider_ids()[17].len() != provider_ids()[21].len());
    assert(provider_ids()[17].len() != provider_ids()[22].len());
    assert(provider_ids()[17].len() != provider_ids()[23].len());
    assert(provider_ids()[17].len() != provider_ids()[24].len());
    assert(provider_ids()[17].len() != provider_ids()[25].len());
    assert(provider_ids()[17].len() != provider_ids()[26].len());
    assert(provider_ids()[17].len() != provider_ids()[27].len());
    assert(provider_ids()[17].len() != provider_ids()[28].len());
    assert(provider_ids()[17].len() != provider_ids()[29].len());
    assert(provider_ids()[17].len() != provider_ids()[30].len());
    assert(provider_ids()[17].len() != provider_ids()[31].len());
    assert(provider_ids()[17].len() != provider_ids()[32].len());
    assert(provider_ids()[17].len() != provider_ids()[33].len());
    assert(provider_ids()[18].len() != provider_ids()[19].len());
    assert(provider_ids()[18].len() != provider_ids()[20].len());
    assert(provider_ids()[18].len() != provider_ids()[21].len());
    assert(provider_ids()[18].len() != provider_ids()[22].len());
    assert(provider_ids()[18].len() != provider_ids()[23].len());
    assert(provider_ids()[18].len() != provider_ids()[24].len());
    assert(provider_ids()[18].len() != provider_ids()[25].len());
    assert(provider_ids()[18].len() != provider_ids()[26].len());
    assert(provider_ids()[18][0] != provider_ids()[27][0]);
    assert(provider_ids()[18].len() != provider_ids()[28].len());
    assert(provider_ids()[18].len() != provider_ids()[29].len());
    assert(provider_ids()[18].len() != provider_ids()[30].len());
    assert(provider_ids()[18][0] != provider_ids()[31][0]);
    assert(provider_ids()[18].len() != provider_ids()[32].len());
    assert(provider_ids()[18][0] != provider_ids()[33][0]);
    assert(provider_ids()[19].len() != provider_ids()[20].len());
    assert(provider_ids()[19].len() != provider_ids()[21].len());
    assert(provider_ids()[19].len() != provider_ids()[22].len());
    assert(provider_ids()[19].len() != provider_ids()[23].len());
    assert(provider_ids()[19].len() != provider_ids()[24].len());
    assert(provider_ids()[19].len() != provider_ids()[25].len());
    assert(provider_ids()[19].len() != provider_ids()[26].len());
    assert(provider_ids()[19].len() != provider_ids()[27].len());
    assert(provider_ids()[19].len() != provider_ids()[28].len());
    assert(provider_ids()[19].len() != provider_ids()[29].len());
    assert(provider_ids()[19].len() != provider_ids()[30].len());
    assert(provider_ids()[19].len() != provider_ids()[31].len());
    assert(provider_ids()[19].len() != provider_ids()[32].len());
    assert(provider_ids()[19].len() != provider_ids()[33].len());
    assert(provider_ids()[20].len() != provider_ids()[21].len());
    assert(provider_ids()[20].len() != provider_ids()[22].len());
    assert(provider_ids()[20].len() != provider_ids()[23].len());
    assert(provider_ids()[20].len() != provider_ids()[24].len());
    assert(provider_ids()[20].len() != provider_ids()[25].len());
    assert(provider_ids()[20].len() != provider_ids()[26].len());
    assert(provider_ids()[20].len() != provider_ids()[27].len());
    assert(provider_ids()[20].len() != provider_ids()[28].len());
    assert(provider_ids()[20].len() != provider_ids()[29].len());
    assert(provider_ids()[20][0] != provider_ids()[30][0]);
    assert(provider_ids()[20].len() != provider_ids()[31].len());
    assert(provider_ids()[20].len() != provider_ids()[32].len());
    assert(provider_ids()[20].len() != provider_ids()[33].len());
    assert(provider_ids()[21].len() != provider_ids()[22].len());
    assert(provider_ids()[21].len() != provider_ids()[23].len());
    assert(provider_ids()[21].len() != provider_ids()[24].len());
    assert(provider_ids()[21][0] != provider_ids()[25][0]);
    assert(provider_ids()[21].len() != provider_ids()[26].len());
    assert(provider_ids()[21].len() != provider_ids()[27].len());
    assert(provider_ids()[21].len() != provider_ids()[28].len());
    assert(provider_ids()[21].len() != provider_ids()[29].len());
    assert(provider_ids()[21].len() != provider_ids()[30].len());
    assert(provider_ids()[21].len() != provider_ids()[31].len());
    assert(provider_ids()[21].len() != provider_ids()[32].len());
    assert(provider_ids()[21].len() != provider_ids()[33].len());
    assert(provider_ids()[22][0] != provider_ids()[23][0]);
    assert(provider_ids()[22][0] != provider_ids()[24][0]);
    assert(provider_ids()[22].len() != provider_ids()[25].len());
    assert(provider_ids()[22][0] != provider_ids()[26][0]);
    assert(provider_ids()[22].len() != provider_ids()[27].len());
    assert(provider_ids()[22].len() != provider_ids()[28].len());
    assert(provider_ids()[22][0] != provider_ids()[29][0]);
    assert(provider_ids()[22].len() != provider_ids()[30].len());
    assert(provider_ids()[22].len() != provider_ids()[31].len());
    assert(provider_ids()[22].len() != provider_ids()[32].len());
    assert(provider_ids()[22].len() != provider_ids()[33].len());
    assert(provider_ids()[23][0] != provider_ids()[24][0]);
    assert(provider_ids()[23].len() != provider_ids()[25].len());
    assert(provider_ids()[23][0] != provider_ids()[26][0]);
    assert(provider_ids()[23].len() != provider_ids()[27].len());
    assert(provider_ids()[23].len() != provider_ids()[28].len());
    assert(provider_ids()[23][0] != provider_ids()[29][0]);
    assert(provider_ids()[23].len() != provider_ids()[30].len());
    assert(provider_ids()[23].len() != provider_ids()[31].len());
    assert(provider_ids()[23].len() != provider_ids()[32].len());
    assert(provider_ids()[23].len() != provider_ids()[33].len());
    assert(provider_ids()[24].len() != provider_ids()[25].len());
    assert(provider_ids()[24][0] != provider_ids()[26][0]);
    assert(provider_ids()[24].len() != provider_ids()[27].len());
    assert(provider_ids()[24].len() != provider_ids()[28].len());
    assert(provider_ids()[24][0] != provider_ids()[29][0]);
    assert(provider_ids()[24].len() != provider_ids()[30].len());
    assert(provider_ids()[24].len() != provider_ids()[31].len());
    assert(provider_ids()[24].len() != provider_ids()[32].len());
    assert(provider_ids()[24].len() != provider_ids()[33].len());
    assert(provider_ids()[25].len() != provider_ids()[26].len());
    assert(provider_ids()[25].len() != provider_ids()[27].len());
    assert(provider_ids()[25].len() != provider_ids()[28].len());
    assert(provider_ids()[25].len() != provider_ids()[29].len());
    assert(provider_ids()[25].len() != provider_ids()[30].len());
    assert(provider_ids()[25].len() != provider_ids()[31].len());
    assert(provider_ids()[25].len() != provider_ids()[32].len());
    assert(provider_ids()[25].len() != provider_ids()[33].len());
    assert(provider_ids()[26].len() != provider_ids()[27].len());
    assert(provider_ids()[26].len() != provider_ids()[28].len());
    assert(provider_ids()[26][0] != provider_ids()[29][0]);
    assert(provider_ids()[26].len() != provider_ids()[30].len());
    assert(provider_ids()[26].len() != provider_ids()[31].len());
    assert(provider_ids()[26].len() != provider_ids()[32].len());
    assert(provider_ids()[26].len() != provider_ids()[33].len());
    assert(provider_ids()[27].len() != provider_ids()[28].len());
    assert(provider_ids()[27].len() != provider_ids()[29].len());
    assert(provider_ids()[27].len() != provider_ids()[30].len());
    assert(provider_ids()[27][0] != provider_ids()[31][0]);
    assert(provider_ids()[27].len() != provider_ids()[32].len());
    assert(provider_ids()[27][0] != provider_ids()[33][0]);
    assert(provider_ids()[28].len() != provider_ids()[29].len());
    assert(provider_ids()[28].len() != provider_ids()[30].len());
    assert(provider_ids()[28].len() != provider_ids()[31].len());
    assert(provider_ids()[28][0] != provider_ids()[32][0]);
    assert(provider_ids()[28].len() != provider_ids()[33].len());
    assert(provider_ids()[29].len() != provider_ids()[30].len());
    assert(provider_ids()[29].len() != provider_ids()[31].len());
    assert(provider_ids()[29].len() != provider_ids()[32].len());
    assert(provider_ids()[29].len() != provider_ids()[33].len());
    assert(provider_ids()[30].len() != provider_ids()[31].len());
    assert(provider_ids()[30].len() != provider_ids()[32].len());
    assert(provider_ids()[30].len() != provider_ids()[33].len());
    assert(provider_ids()[31].len() != provider_ids()[32].len());
    assert(provider_ids()[31][0] != provider_ids()[33][0]);
    assert(provider_ids()[32].len() != provider_ids()[33].len());
}

proof fn lemma_lookup_finds(i: int, k: int)
    requires
        0 <= k <= i < provider_ids().len(),
        forall|a: int, b: int| 0 <= a < b < provider_ids().len() ==> provider_ids()[a] != provider_ids()[b],
    ensures
        category_lookup(provider_ids(), provider_categories(), provider_ids()[i], k) == Some(provider_categories()[i]),
    decreases i - k,
{
    if k < i {
        lemma_lookup_finds(i, k + 1);
    }
}

/// Whether provider `p` is listed under the category with id `cat`.
pub open spec fn listed_under(cat: Seq<char>, p: Seq<char>) -> bool {
    exists|c: int, j: int|
        0 <= c < category_ids().len() && 0 <= j < category_members()[c].len() && category_ids()[c] == cat
            && #[trigger] category_members()[c][j] == p
}

/// Every provider is listed under the very category it names.
pub proof fn law_provider_listed_under_its_category()
    ensures
        forall|i: int|
            0 <= i < provider_ids().len() ==> #[trigger] listed_under(provider_categories()[i], provider_ids()[i]),
{
    assert forall|i: int| 0 <= i < provider_ids().len() implies #[trigger] listed_under(
        provider_categories()[i],
        provider_ids()[i],
    ) by {
        if i == 0 {
            assert(category_ids()[0] == provider_categories()[0] && category_members()[0][0] == provider_ids()[0]);
        } else if i == 1 {
            assert(category_ids()[0] == provider_categories()[1] && category_members()[0][1] == provider_ids()[1]);
        } else if i == 2 {
            assert(category_ids()[0] == provider_categories()[2] && category_members()[0][2] == provider_ids()[2]);
        } else if i == 3 {
            assert(category_ids()[0] == provider_categories()[3] && category_members()[0][3] == provider_ids()[3]);
        } else if i == 4 {
            assert(category_ids()[0] == provider_categories()[4] && category_members()[0][4] == provider_ids()[4]);
        } else if i == 5 {
            assert(category_ids()[1] == provider_categories()[5] && category_members()[1][0] == provider_ids()[5]);
        } else if i == 6 {
            assert(category_ids()[1] == provider_categories()[6] && category_members()[1][1] == provider_ids()[6]);
        } else if i == 7 {
            assert(category_ids()[1] == provider_categories()[7] && category_members()[1][2] == provider_ids()[7]);
        } else if i == 8 {
            assert(category_ids()[1] == provider_categories()[8] && category_members()[1][3] == provider_ids()[8]);
        } else if i == 9 {
            assert(category_ids()[1] == provider_categories()[9] && category_members()[1][4] == provider_ids()[9]);
        } else if i == 10 {
            assert(category_ids()[2] == provider_categories()[10] && category_members()[2][0] == provider_ids()[10]);
        } else if i == 11 {
            assert(category_ids()[3] == provider_categories()[11] && category_members()[3][0] == provider_ids()[11]);
        } else if i == 12 {
            assert(category_ids()[3] == provider_categories()[12] && category_members()[3][1] == provider_ids()[12]);
        } else if i == 13 {
            assert(category_ids()[3] == provider_categories()[13] && category_members()[3][2] == provider_ids()[13]);
        } else if i == 14 {
            assert(category_ids()[3] == provider_categories()[14] && category_members()[3][3] == provider_ids()[14]);
        } else if i == 15 {
            assert(category_ids()[3] == provider_categories()[15] && category_members()[3][4] == provider_ids()[15]);
        } else if i == 16 {
            assert(category_ids()[4] == provider_categories()[16] && category_members()[4][0] == provider_ids()[16]);
        } else if i == 17 {
            assert(category_ids()[4] == provider_categories()[17] && category_members()[4][1] == provider_ids()[17]);
        } else if i == 18 {
            assert(category_ids()[5] == provider_categories()[18] && category_members()[5][0] == provider_ids()[18]);
        } else if i == 19 {
            assert(category_ids()[5] == provider_categories()[19] && category_members()[5][1] == provider_ids()[19]);
        } else if i == 20 {
            assert(category_ids()[5] == provider_categories()[20] && category_members()[5][2] == provider_ids()[20]);
        } else if i == 21 {
            assert(category_ids()[5] == provider_categories()[21] && category_members()[5][3] == provider_ids()[21]);
        } else if i == 22 {
            assert(category_ids()[6] == provider_categories()[22] && category_members()[6][0] == provider_ids()[22]);
        } else if i == 23 {
            assert(category_ids()[6] == provider_categories()[23] && category_members()[6][1] == provider_ids()[23]);
        } else if i == 24 {
            assert(category_ids()[6] == provider_categories()[24] && category_members()[6][2] == provider_ids()[24]);
        } else if i == 25 {
            assert(category_ids()[6] == provider_categories()[25] && category_members()[6][3] == provider_ids()[25]);
        } else if i == 26 {
            assert(category_ids()[7] == provider_categories()[26] && category_members()[7][0] == provider_ids()[26]);
        } else if i == 27 {
            assert(category_ids()[7] == provider_categories()[27] && category_members()[7][1] == provider_ids()[27]);
        } else if i == 28 {
            assert(category_ids()[7] == provider_categories()[28] && category_members()[7][2] == provider_ids()[28]);
        } else if i == 29 {
            assert(category_ids()[7] == provider_categories()[29] && category_members()[7][3] == provider_ids()[29]);
        } else if i == 30 {
            assert(category_ids()[7] == provider_categories()[30] && category_members()[7][4] == provider_ids()[30]);
        } else if i == 31 {
            assert(category_ids()[7] == provider_categories()[31] && category_members()[7][5] == provider_ids()[31]);
        } else if i == 32 {
            assert(category_ids()[7] == provider_categories()[32] && category_members()[7][6] == provider_ids()[32]);
        } else if i == 33 {
            assert(category_ids()[7] == provider_categories()[33] && category_members()[7][7] == provider_ids()[33]);
        }
    }
}

/// Every listed provider's category is found by its id.
pub proof fn law_category_for_listed(i: int)
    requires
        0 <= i < provider_ids().len(),
    ensures
        category_for_spec(provider_ids()[i]) == Some(provider_categories()[i]),
{
    law_provider_ids_distinct();
    lemma_lookup_finds(i, 0);
}

/// The path prefix of a provider's endpoints: `/api/<id>/`.
pub open spec fn route_prefix(id: Seq<char>) -> Seq<char> {
    "/api/"@ + id + "/"@
}

/// Every endpoint of a provider lives under its route prefix.
pub proof fn law_endpoints_under_route_prefix(i: int, k: int)
    requires
        0 <= i < provider_ids().len(),
        0 <= k < provider_endpoint_paths()[i].len(),
    ensures
        has_prefix(provider_endpoint_paths()[i][k], route_prefix(provider_ids()[i])),
{
    reveal_strlit("/api/");
    reveal_strlit("/");
    if i == 0 && k == 0 {
        reveal_strlit("tmdb");
        reveal_strlit("/api/tmdb/movie/:id");
        assert(provider_endpoint_paths()[i][k].take(10) =~= route_prefix(provider_ids()[i]));
    } else if i == 0 && k == 1 {
        reveal_strlit("tmdb");
        reveal_strlit("/api/tmdb/tv/:id");
        assert(provider_endpoint_paths()[i][k].take(10) =~= route_prefix(provider_ids()[i]));
    } else if i == 0 && k == 2 {
        reveal_strlit("tmdb");
        reveal_strlit("/api/tmdb/image/*path");
        assert(provider_endpoint_paths()[i][k].take(10) =~= route_prefix(provider_ids()[i]));
    } else if i == 1 && k == 0 {
        reveal_strlit("omdb");
        reveal_strlit("/api/omdb/title/:imdb_id");
        assert(provider_endpoint_paths()[i][k].take(10) =~= route_prefix(provider_ids()[i]));
    } else if i == 1 && k == 1 {
        reveal_strlit("omdb");
        reveal_strlit("/api/omdb/search");
        assert(provider_endpoint_paths()[i][k].take(10) =~= route_prefix(provider_ids()[i]));
    } else if i == 2 && k == 0 {
        reveal_strlit("thetvdb");
        reveal_strlit("/api/thetvdb/series/:id");
        assert(provider_endpoint_paths()[i][k].take(13) =~= route_prefix(provider_ids()[i]));
    } else if i == 2 && k == 1 {
        reveal_strlit("thetvdb");
        reveal_strlit("/api/thetvdb/series/:id/episodes");
        assert(provider_endpoint_paths()[i][k].take(13) =~= route_prefix(provider_ids()[i]));
    } else if i == 2 && k == 2 {
        reveal_strlit("thetvdb");
        reveal_strlit("/api/thetvdb/episode/:id");
        assert(provider_endpoint_paths()[i][k].take(13) =~= route_prefix(provider_ids()[i]));
    } else if i == 3 && k == 0 {
        reveal_strlit("douban");
        reveal_strlit("/api/douban/subject/:id");
        assert(provider_endpoint_paths()[i][k].take(12) =~= route_prefix(provider_ids()[i]));
    } else if i == 3 && k == 1 {
        reveal_strlit("douban");
        reveal_strlit("/api/douban/search");
        assert(provider_endpoint_paths()[i][k].take(12) =~= route_prefix(provider_ids()[i]));
    } else if i == 4 && k == 0 {
        reveal_strlit("fanart");
        reveal_strlit("/api/fanart/movie/:tmdb_id");
        assert(provider_endpoint_paths()[i][k].take(12) =~= route_prefix(provider_ids()[i]));
    } else if i == 4 && k == 1 {
        reveal_strlit("fanart");
        reveal_strlit("/api/fanart/tv/:tvdb_id");
        assert(provider_endpoint_paths()[i][k].take(12) =~= route_prefix(provider_ids()[i]));
    } else if i == 5 && k == 0 {
        reveal_strlit("spotify");
        reveal_strlit("/api/spotify/artist/:id");
        assert(provider_endpoint_paths()[i][k].take(13) =~= route_prefix(provider_ids()[i]));
    } else if i == 5 && k == 1 {
        reveal_strlit("spotify");
        reveal_strlit("/api/spotify/track/:id");
        assert(provider_endpoint_paths()[i][k].take(13) =~= route_prefix(provider_ids()[i]));
    } else if i == 5 && k == 2 {
        reveal_strlit("spotify");
        reveal_strlit("/api/spotify/search");
        assert(provider_endpoint_paths()[i][k].take(13) =~= route_prefix(provider_ids()[i]));
    } else if i == 6 && k == 0 {
        reveal_strlit("musicbrainz");
        reveal_strlit("/api/musicbrainz/artist/:mbid");
        assert(provider_endpoint_paths()[i][k].take(17) =~= route_prefix(provider_ids()[i]));
    } else if i == 6 && k == 1 {
        reveal_strlit("musicbrainz");
        reveal_strlit("/api/musicbrainz/release/:mbid");
        assert(provider_endpoint_paths()[i][k].take(17) =~= route_prefix(provider_ids()[i]));
    } else if i == 6 && k == 2 {
        reveal_strlit("musicbrainz");
        reveal_strlit("/api/musicbrainz/search");
        assert(provider_endpoint_paths()[i][k].take(17) =~= route_prefix(provider_ids()[i]));
    } else if i == 7 && k == 0 {
        reveal_strlit("deezer");
        reveal_strlit("/api/deezer/track/:id");
        assert(provider_endpoint_paths()[i][k].take(12) =~= route_prefix(provider_ids()[i]));
    } else if i == 7 && k == 1 {
        reveal_strlit("deezer");
        reveal_strlit("/api/deezer/search");
        assert(provider_endpoint_paths()[i][k].take(12) =~= route_prefix(provider_ids()[i]));
    } else if i == 8 && k == 0 {
        reveal_strlit("itunes");
        reveal_strlit("/api/itunes/album-cover");
        assert(provider_endpoint_paths()[i][k].take(12) =~= route_prefix(provider_ids()[i]));
    } else if i == 9 && k == 0 {
        reveal_strlit("lrclib");
        reveal_strlit("/api/lrclib/get");
        assert(provider_endpoint_paths()[i][k].take(12) =~= route_prefix(provider_ids()[i]));
    } else if i == 9 && k == 1 {
        reveal_strlit("lrclib");
        reveal_strlit("/api/lrclib/search");
        assert(provider_endpoint_paths()[i][k].take(12) =~= route_prefix(provider_ids()[i]));
    } else if i == 10 && k == 0 {
        reveal_strlit("hot");
        reveal_strlit("/api/hot/sources");
        assert(provider_endpoint_paths()[i][k].take(9) =~= route_prefix(provider_ids()[i]));
    } else if i == 10 && k == 1 {
        reveal_strlit("hot");
        reveal_strlit("/api/hot/list");
        assert(provider_endpoint_paths()[i][k].take(9) =~= route_prefix(provider_ids()[i]));
    } else if i == 11 && k == 0 {
        reveal_strlit("opensubtitles");
        reveal_strlit("/api/opensubtitles/search");
        assert(provider_endpoint_paths()[i][k].take(19) =~= route_prefix(provider_ids()[i]));
    } else if i == 12 && k == 0 {
        reveal_strlit("assrt");
        reveal_strlit("/api/assrt/search");
        assert(provider_endpoint_paths()[i][k].take(11) =~= route_prefix(provider_ids()[i]));
    } else if i == 12 && k == 1 {
        reveal_strlit("assrt");
        reveal_strlit("/api/assrt/sub/:id/detail");
        assert(provider_endpoint_paths()[i][k].take(11) =~= route_prefix(provider_ids()[i]));
    } else if i == 13 && k == 0 {
        reveal_strlit("gestdown");
        reveal_strlit("/api/gestdown/shows/search");
        assert(provider_endpoint_paths()[i][k].take(14) =~= route_prefix(provider_ids()[i]));
    } else if i == 13 && k == 1 {
        reveal_strlit("gestdown");
        reveal_strlit("/api/gestdown/subtitles");
        assert(provider_endpoint_paths()[i][k].take(14) =~= route_prefix(provider_ids()[i]));
    } else if i == 14 && k == 0 {
        reveal_strlit("shooter");
        reveal_strlit("/api/shooter/search");
        assert(provider_endpoint_paths()[i][k].take(13) =~= route_prefix(provider_ids()[i]));
    } else if i == 15 && k == 0 {
        reveal_strlit("regielive");
        reveal_strlit("/api/regielive/search");
        assert(provider_endpoint_paths()[i][k].take(15) =~= route_prefix(provider_ids()[i]));
    } else if i == 16 && k == 0 {
        reveal_strlit("bangumi");
        reveal_strlit("/api/bangumi/subject/:id");
        assert(provider_endpoint_paths()[i][k].take(13) =~= route_prefix(provider_ids()[i]));
    } else if i == 16 && k == 1 {
        reveal_strlit("bangumi");
        reveal_strlit("/api/bangumi/search");
        assert(provider_endpoint_paths()[i][k].take(13) =~= route_prefix(provider_ids()[i]));
    } else if i == 16 && k == 2 {
        reveal_strlit("bangumi");
        reveal_strlit("/api/bangumi/calendar");
        assert(provider_endpoint_paths()[i][k].take(13) =~= route_prefix(provider_ids()[i]));
    } else if i == 17 && k == 0 {
        reveal_strlit("animetosho");
        reveal_strlit("/api/animetosho/search");
        assert(provider_endpoint_paths()[i][k].take(16) =~= route_prefix(provider_ids()[i]));
    } else if i == 17 && k == 1 {
        reveal_strlit("animetosho");
        reveal_strlit("/api/animetosho/torrent");
        assert(provider_endpoint_paths()[i][k].take(16) =~= route_prefix(provider_ids()[i]));
    } else if i == 18 && k == 0 {
        reveal_strlit("javbus");
        reveal_strlit("/api/javbus/search");
        assert(provider_endpoint_paths()[i][k].take(12) =~= route_prefix(provider_ids()[i]));
    } else if i == 19 && k == 0 {
        reveal_strlit("javdb");
        reveal_strlit("/api/javdb/search");
        assert(provider_endpoint_paths()[i][k].take(11) =~= route_prefix(provider_ids()[i]));
    } else if i == 20 && k == 0 {
        reveal_strlit("tpdb");
        reveal_strlit("/api/tpdb/search");
        assert(provider_endpoint_paths()[i][k].take(10) =~= route_prefix(provider_ids()[i]));
    } else if i == 21 && k == 0 {
        reveal_strlit("stashdb");
        reveal_strlit("/api/stashdb/search");
        assert(provider_endpoint_paths()[i][k].take(13) =~= route_prefix(provider_ids()[i]));
    } else if i == 22 && k == 0 {
        reveal_strlit("geocoding");
        reveal_strlit("/api/geocoding/forward");
        assert(provider_endpoint_paths()[i][k].take(15) =~= route_prefix(provider_ids()[i]));
    } else if i == 22 && k == 1 {
        reveal_strlit("geocoding");
        reveal_strlit("/api/geocoding/reverse");
        assert(provider_endpoint_paths()[i][k].take(15) =~= route_prefix(provider_ids()[i]));
    } else if i == 23 && k == 0 {
        reveal_strlit("nominatim");
        reveal_strlit("/api/nominatim/search");
        assert(provider_endpoint_paths()[i][k].take(15) =~= route_prefix(provider_ids()[i]));
    } else if i == 23 && k == 1 {
        reveal_strlit("nominatim");
        reveal_strlit("/api/nominatim/reverse");
        assert(provider_endpoint_paths()[i][k].take(15) =~= route_prefix(provider_ids()[i]));
    } else if i == 24 && k == 0 {
        reveal_strlit("openmeteo");
        reveal_strlit("/api/openmeteo/forecast");
        assert(provider_endpoint_paths()[i][k].take(15) =~= route_prefix(provider_ids()[i]));
    } else if i == 24 && k == 1 {
        reveal_strlit("openmeteo");
        reveal_strlit("/api/openmeteo/air-quality");
        assert(provider_endpoint_paths()[i][k].take(15) =~= route_prefix(provider_ids()[i]));
    } else if i == 25 && k == 0 {
        reveal_strlit("holiday");
        reveal_strlit("/api/holiday/:country/:year");
        assert(provider_endpoint_paths()[i][k].take(13) =~= route_prefix(provider_ids()[i]));
    } else if i == 26 && k == 0 {
        reveal_strlit("wikipedia");
        reveal_strlit("/api/wikipedia/summary");
        assert(provider_endpoint_paths()[i][k].take(15) =~= route_prefix(provider_ids()[i]));
    } else if i == 27 && k == 0 {
        reveal_strlit("qidian");
        reveal_strlit("/api/qidian/book/:id");
        assert(provider_endpoint_paths()[i][k].take(12) =~= route_prefix(provider_ids()[i]));
    } else if i == 27 && k == 1 {
        reveal_strlit("qidian");
        reveal_strlit("/api/qidian/search");
        assert(provider_endpoint_paths()[i][k].take(12) =~= route_prefix(provider_ids()[i]));
    } else if i == 28 && k == 0 {
        reveal_strlit("hitokoto");
        reveal_strlit("/api/hitokoto/sentence");
        assert(provider_endpoint_paths()[i][k].take(14) =~= route_prefix(provider_ids()[i]));
    } else if i == 29 && k == 0 {
        reveal_strlit("zenquotes");
        reveal_strlit("/api/zenquotes/random");
        assert(provider_endpoint_paths()[i][k].take(15) =~= route_prefix(provider_ids()[i]));
    } else if i == 30 && k == 0 {
        reveal_strlit("bing");
        reveal_strlit("/api/bing/wallpaper");
        assert(provider_endpoint_paths()[i][k].take(10) =~= route_prefix(provider_ids()[i]));
    } else if i == 31 && k == 0 {
        reveal_strlit("github");
        reveal_strlit("/api/github/releases/:owner/:repo/latest");
        assert(provider_endpoint_paths()[i][k].take(12) =~= route_prefix(provider_ids()[i]));
    } else if i == 31 && k == 1 {
        reveal_strlit("github");
        reveal_strlit("/api/github/releases/:owner/:repo/list");
        assert(provider_endpoint_paths()[i][k].take(12) =~= route_prefix(provider_ids()[i]));
    } else if i == 32 && k == 0 {
        reveal_strlit("currency");
        reveal_strlit("/api/currency/rates");
        assert(provider_endpoint_paths()[i][k].take(14) =~= route_prefix(provider_ids()[i]));
    } else if i == 33 && k == 0 {
        reveal_strlit("sports");
        reveal_strlit("/api/sports/schedule");
        assert(provider_endpoint_paths()[i][k].take(12) =~= route_prefix(provider_ids()[i]));
    }
}

} // verus!
