//! Server configuration, read from environment variables.
use vstd::prelude::*;
use crate::lexorder::string_views;
use crate::text::{chars_of, concat_chars, split_chars, split_on, str_eq, string_of};

verus! {

/// The server's configuration.
pub struct AppConfig {
    pub listen: String,
    pub public_base_url: String,
    pub admin_bootstrap_key: String,
    pub jwt_secret: String,
    pub tmdb_api_key: Option<String>,
    pub omdb_api_key: Option<String>,
    pub thetvdb_api_key: Option<String>,
    pub bangumi_user_agent: Option<String>,
    pub fanart_api_key: Option<String>,
    pub spotify_client_id: Option<String>,
    pub spotify_client_secret: Option<String>,
    pub musicbrainz_user_agent: Option<String>,
    pub nominatim_user_agent: Option<String>,
    pub assrt_api_key: Option<String>,
    pub opensubtitles_api_key: Option<String>,
    pub github_token: Option<String>,
    pub javbus_base_url: Option<String>,
    pub javbus_cookie: Option<String>,
    pub javdb_base_url: Option<String>,
    pub javdb_cookie: Option<String>,
    pub tpdb_api_key: Option<String>,
    pub tpdb_base_url: Option<String>,
    pub stashdb_api_key: Option<String>,
    pub stashdb_base_url: Option<String>,
    pub cors_allowed_origins: Vec<String>,
    pub storage_backend: String,
    pub storage_local_root: String,
    pub database_url: String,
}

/// The environment variables the configuration is read from.
pub open spec fn config_var_name_seq() -> Seq<Seq<char>> {
    seq![
        "SERVER_LISTEN"@,
        "SERVER_PUBLIC_BASE_URL"@,
        "SERVER_ADMIN_BOOTSTRAP_KEY"@,
        "SERVER_JWT_SECRET"@,
        "TMDB_API_KEY"@,
        "OMDB_API_KEY"@,
        "THETVDB_API_KEY"@,
        "BANGUMI_USER_AGENT"@,
        "FANART_API_KEY"@,
        "SPOTIFY_CLIENT_ID"@,
        "SPOTIFY_CLIENT_SECRET"@,
        "MUSICBRAINZ_USER_AGENT"@,
        "NOMINATIM_USER_AGENT"@,
        "ASSRT_API_KEY"@,
        "OPENSUBTITLES_API_KEY"@,
        "GITHUB_TOKEN"@,
        "JAVBUS_BASE_URL"@,
        "JAVBUS_COOKIE"@,
        "JAVDB_BASE_URL"@,
        "JAVDB_COOKIE"@,
        "TPDB_API_KEY"@,
        "TPDB_BASE_URL"@,
        "STASHDB_API_KEY"@,
        "STASHDB_BASE_URL"@,
        "SERVER_CORS_ALLOWED_ORIGINS"@,
        "STORAGE_BACKEND"@,
        "STORAGE_LOCAL_ROOT"@,
        "DATABASE_URL"@,
    ]
}

/// The environment variables the configuration is read from.
pub fn config_var_names() -> (res: Vec<&'static str>)
    ensures
        res@.map_values(|s: &'static str| s@) == config_var_name_seq(),
{
    let mut v: Vec<&'static str> = Vec::new();
    v.push("SERVER_LISTEN");
    v.push("SERVER_PUBLIC_BASE_URL");
    v.push("SERVER_ADMIN_BOOTSTRAP_KEY");
    v.push("SERVER_JWT_SECRET");
    v.push("TMDB_API_KEY");
    v.push("OMDB_API_KEY");
    v.push("THETVDB_API_KEY");
    v.push("BANGUMI_USER_AGENT");
    v.push("FANART_API_KEY");
    v.push("SPOTIFY_CLIENT_ID");
    v.push("SPOTIFY_CLIENT_SECRET");
    v.push("MUSICBRAINZ_USER_AGENT");
    v.push("NOMINATIM_USER_AGENT");
    v.push("ASSRT_API_KEY");
    v.push("OPENSUBTITLES_API_KEY");
    v.push("GITHUB_TOKEN");
    v.push("JAVBUS_BASE_URL");
    v.push("JAVBUS_COOKIE");
    v.push("JAVDB_BASE_URL");
    v.push("JAVDB_COOKIE");
    v.push("TPDB_API_KEY");
    v.push("TPDB_BASE_URL");
    v.push("STASHDB_API_KEY");
    v.push("STASHDB_BASE_URL");
    v.push("SERVER_CORS_ALLOWED_ORIGINS");
    v.push("STORAGE_BACKEND");
    v.push("STORAGE_LOCAL_ROOT");
    v.push("DATABASE_URL");
    assert(v@.map_values(|s: &'static str| s@) =~= config_var_name_seq());
    v
}

/// The value of the first variable called `name` among `vars` from index
/// `i` on.
pub open spec fn env_lookup(vars: Seq<(String, String)>, name: Seq<char>, i: int) -> Option<Seq<char>>
    decreases vars.len() - i,
{
    if i < 0 || i >= vars.len() {
        None
    } else if vars[i].0@ == name {
        Some(vars[i].1@)
    } else {
        env_lookup(vars, name, i + 1)
    }
}

/// The value of the variable `name` in `vars`, if set.
pub fn env_var(vars: &Vec<(String, String)>, name: &str) -> (res: Option<String>)
    ensures
        match res {
            Some(v) => env_lookup(vars@, name@, 0) == Some(v@),
            None => env_lookup(vars@, name@, 0) is None,
        },
{
    let mut i: usize = 0;
    while i < vars.len()
        invariant
            i <= vars@.len(),
            env_lookup(vars@, name@, 0) == env_lookup(vars@, name@, i as int),
        decreases vars@.len() - i,
    {
        if str_eq(vars[i].0.as_str(), name) {
            return Some(vars[i].1.clone());
        }
        i = i + 1;
    }
    None
}

/// The value of `name` in `vars`, or `default` when it is not set.
pub open spec fn env_or(vars: Seq<(String, String)>, name: Seq<char>, default: Seq<char>) -> Seq<char> {
    match env_lookup(vars, name, 0) {
        Some(v) => v,
        None => default,
    }
}

fn env_var_or(vars: &Vec<(String, String)>, name: &str, default: &str) -> (res: String)
    ensures
        res@ == env_or(vars@, name@, default@),
{
    match env_var(vars, name) {
        Some(v) => v,
        None => string_of(&chars_of(default)),
    }
}

/// The allowed CORS origins: the comma-separated entries of `raw` that are
/// not empty.
pub open spec fn cors_origins_spec(raw: Seq<char>) -> Seq<Seq<char>> {
    split_on(raw, ',').filter(non_empty())
}

/// Whether a string is not empty.
pub open spec fn non_empty() -> spec_fn(Seq<char>) -> bool {
    |s: Seq<char>| s.len() > 0
}

proof fn lemma_no_origins_when_unset()
    ensures
        cors_origins_spec(""@) == Seq::<Seq<char>>::empty(),
{
    reveal_strlit("");
    assert(""@ =~= Seq::<char>::empty());
    let e = Seq::<Seq<char>>::empty();
    assert(split_on(""@, ',') =~= e.push(Seq::<char>::empty()));
    e.lemma_filter_push(Seq::<char>::empty(), non_empty());
    reveal(Seq::filter);
    assert(e.filter(non_empty()) =~= e);
}

/// Parses the comma-separated CORS origin list, dropping empty entries.
pub fn parse_cors_origins(raw: &str) -> (res: Vec<String>)
    ensures
        string_views(res@) == cors_origins_spec(raw@),
{
    let pieces = split_chars(&chars_of(raw), ',');
    let ghost parts = split_on(raw@, ',');
    let mut out: Vec<String> = Vec::new();
    let mut i: usize = 0;
    while i < pieces.len()
        invariant
            i <= pieces@.len(),
            crate::text::views(pieces@) == parts,
            parts == split_on(raw@, ','),
            string_views(out@) == parts.take(i as int).filter(non_empty()),
        decreases pieces@.len() - i,
    {
        assert(parts[i as int] == pieces@[i as int]@);
        assert(parts.take(i + 1) =~= parts.take(i as int).push(parts[i as int]));
        proof {
            parts.take(i as int).lemma_filter_push(parts[i as int], non_empty());
        }
        if pieces[i].len() > 0 {
            let ghost prev = out@;
            let s = string_of(&pieces[i]);
            out.push(s);
            assert(string_views(out@) =~= string_views(prev).push(s@));
        }
        i = i + 1;
    }
    assert(parts.take(pieces@.len() as int) =~= parts);
    out
}

/// The message refusing a configuration without the required variable `name`.
pub open spec fn missing_message(name: Seq<char>) -> Seq<char> {
    name + " not set"@
}

fn required(vars: &Vec<(String, String)>, name: &str) -> (res: Result<String, String>)
    ensures
        match res {
            Ok(v) => env_lookup(vars@, name@, 0) == Some(v@),
            Err(m) => env_lookup(vars@, name@, 0) is None && m@ == missing_message(name@),
        },
{
    match env_var(vars, name) {
        Some(v) => Ok(v),
        None => Err(string_of(&concat_chars(&chars_of(name), &chars_of(" not set")))),
    }
}

/// The first required variable that `vars` lacks, in the order the
/// configuration reads them.
pub open spec fn first_missing(vars: Seq<(String, String)>) -> Option<Seq<char>> {
    if env_lookup(vars, "SERVER_ADMIN_BOOTSTRAP_KEY"@, 0) is None {
        Some("SERVER_ADMIN_BOOTSTRAP_KEY"@)
    }
    else if env_lookup(vars, "SERVER_JWT_SECRET"@, 0) is None {
        Some("SERVER_JWT_SECRET"@)
    }
    else if env_lookup(vars, "DATABASE_URL"@, 0) is None {
        Some("DATABASE_URL"@)
    }
    else {
        None
    }
}

impl AppConfig {
    /// The configuration given by the environment variables `vars` (name and
    /// value; the first entry of a name counts): optional settings are absent
    /// when unset, defaulted ones take their default, the CORS origins are
    /// the non-empty comma-separated entries, and a missing required variable
    /// is refused with `<NAME> not set`.
    pub fn from_vars(vars: &Vec<(String, String)>) -> (res: Result<AppConfig, String>)
        ensures
            match res {
                Ok(c) => first_missing(vars@) is None && c.matches_vars(vars@),
                Err(m) => first_missing(vars@) matches Some(n) && m@ == missing_message(n),
            },
    {
        let listen = env_var_or(vars, "SERVER_LISTEN", "0.0.0.0:5680");
        let public_base_url = env_var_or(vars, "SERVER_PUBLIC_BASE_URL", "http://localhost:5680");
        let admin_bootstrap_key = match required(vars, "SERVER_ADMIN_BOOTSTRAP_KEY") {
            Ok(v) => v,
            Err(m) => {
                return Err(m);
            },
        };
        let jwt_secret = match required(vars, "SERVER_JWT_SECRET") {
            Ok(v) => v,
            Err(m) => {
                return Err(m);
            },
        };
        let tmdb_api_key = env_var(vars, "TMDB_API_KEY");
        let omdb_api_key = env_var(vars, "OMDB_API_KEY");
        let thetvdb_api_key = env_var(vars, "THETVDB_API_KEY");
        let bangumi_user_agent = env_var(vars, "BANGUMI_USER_AGENT");
        let fanart_api_key = env_var(vars, "FANART_API_KEY");
        let spotify_client_id = env_var(vars, "SPOTIFY_CLIENT_ID");
        let spotify_client_secret = env_var(vars, "SPOTIFY_CLIENT_SECRET");
        let musicbrainz_user_agent = env_var(vars, "MUSICBRAINZ_USER_AGENT");
        let nominatim_user_agent = env_var(vars, "NOMINATIM_USER_AGENT");
        let assrt_api_key = env_var(vars, "ASSRT_API_KEY");
        let opensubtitles_api_key = env_var(vars, "OPENSUBTITLES_API_KEY");
        let github_token = env_var(vars, "GITHUB_TOKEN");
        let javbus_base_url = env_var(vars, "JAVBUS_BASE_URL");
        let javbus_cookie = env_var(vars, "JAVBUS_COOKIE");
        let javdb_base_url = env_var(vars, "JAVDB_BASE_URL");
        let javdb_cookie = env_var(vars, "JAVDB_COOKIE");
        let tpdb_api_key = env_var(vars, "TPDB_API_KEY");
        let tpdb_base_url = env_var(vars, "TPDB_BASE_URL");
        let stashdb_api_key = env_var(vars, "STASHDB_API_KEY");
        let stashdb_base_url = env_var(vars, "STASHDB_BASE_URL");
        let cors_allowed_origins = match env_var(vars, "SERVER_CORS_ALLOWED_ORIGINS") {
            Some(raw) => parse_cors_origins(raw.as_str()),
            None => Vec::new(),
        };
        proof {
            lemma_no_origins_when_unset();
        }
        assert(env_lookup(vars@, "SERVER_CORS_ALLOWED_ORIGINS"@, 0) is None ==> string_views(cors_allowed_origins@) =~= cors_origins_spec(""@));
        let storage_backend = env_var_or(vars, "STORAGE_BACKEND", "local");
        let storage_local_root = env_var_or(vars, "STORAGE_LOCAL_ROOT", "./storage");
        let database_url = match required(vars, "DATABASE_URL") {
            Ok(v) => v,
            Err(m) => {
                return Err(m);
            },
        };
        Ok(AppConfig {
            listen,
            public_base_url,
            admin_bootstrap_key,
            jwt_secret,
            tmdb_api_key,
            omdb_api_key,
            thetvdb_api_key,
            bangumi_user_agent,
            fanart_api_key,
            spotify_client_id,
            spotify_client_secret,
            musicbrainz_user_agent,
            nominatim_user_agent,
            assrt_api_key,
            opensubtitles_api_key,
            github_token,
            javbus_base_url,
            javbus_cookie,
            javdb_base_url,
            javdb_cookie,
            tpdb_api_key,
            tpdb_base_url,
            stashdb_api_key,
            stashdb_base_url,
            cors_allowed_origins,
            storage_backend,
            storage_local_root,
            database_url,
        })
    }

    /// Whether this configuration is the one the variables `vars` give.
    pub open spec fn matches_vars(self, vars: Seq<(String, String)>) -> bool {
        &&& self.listen@ == env_or(vars, "SERVER_LISTEN"@, "0.0.0.0:5680"@)
        &&& self.public_base_url@ == env_or(vars, "SERVER_PUBLIC_BASE_URL"@, "http://localhost:5680"@)
        &&& Some(self.admin_bootstrap_key@) == env_lookup(vars, "SERVER_ADMIN_BOOTSTRAP_KEY"@, 0)
        &&& Some(self.jwt_secret@) == env_lookup(vars, "SERVER_JWT_SECRET"@, 0)
        &&& opt_view(self.tmdb_api_key) == env_lookup(vars, "TMDB_API_KEY"@, 0)
        &&& opt_view(self.omdb_api_key) == env_lookup(vars, "OMDB_API_KEY"@, 0)
        &&& opt_view(self.thetvdb_api_key) == env_lookup(vars, "THETVDB_API_KEY"@, 0)
        &&& opt_view(self.bangumi_user_agent) == env_lookup(vars, "BANGUMI_USER_AGENT"@, 0)
        &&& opt_view(self.fanart_api_key) == env_lookup(vars, "FANART_API_KEY"@, 0)
        &&& opt_view(self.spotify_client_id) == env_lookup(vars, "SPOTIFY_CLIENT_ID"@, 0)
        &&& opt_view(self.spotify_client_secret) == env_lookup(vars, "SPOTIFY_CLIENT_SECRET"@, 0)
        &&& opt_view(self.musicbrainz_user_agent) == env_lookup(vars, "MUSICBRAINZ_USER_AGENT"@, 0)
        &&& opt_view(self.nominatim_user_agent) == env_lookup(vars, "NOMINATIM_USER_AGENT"@, 0)
        &&& opt_view(self.assrt_api_key) == env_lookup(vars, "ASSRT_API_KEY"@, 0)
        &&& opt_view(self.opensubtitles_api_key) == env_lookup(vars, "OPENSUBTITLES_API_KEY"@, 0)
        &&& opt_view(self.github_token) == env_lookup(vars, "GITHUB_TOKEN"@, 0)
        &&& opt_view(self.javbus_base_url) == env_lookup(vars, "JAVBUS_BASE_URL"@, 0)
        &&& opt_view(self.javbus_cookie) == env_lookup(vars, "JAVBUS_COOKIE"@, 0)
        &&& opt_view(self.javdb_base_url) == env_lookup(vars, "JAVDB_BASE_URL"@, 0)
        &&& opt_view(self.javdb_cookie) == env_lookup(vars, "JAVDB_COOKIE"@, 0)
        &&& opt_view(self.tpdb_api_key) == env_lookup(vars, "TPDB_API_KEY"@, 0)
        &&& opt_view(self.tpdb_base_url) == env_lookup(vars, "TPDB_BASE_URL"@, 0)
        &&& opt_view(self.stashdb_api_key) == env_lookup(vars, "STASHDB_API_KEY"@, 0)
        &&& opt_view(self.stashdb_base_url) == env_lookup(vars, "STASHDB_BASE_URL"@, 0)
        &&& string_views(self.cors_allowed_origins@) == cors_origins_spec(env_or(vars, "SERVER_CORS_ALLOWED_ORIGINS"@, ""@))
        &&& self.storage_backend@ == env_or(vars, "STORAGE_BACKEND"@, "local"@)
        &&& self.storage_local_root@ == env_or(vars, "STORAGE_LOCAL_ROOT"@, "./storage"@)
        &&& Some(self.database_url@) == env_lookup(vars, "DATABASE_URL"@, 0)
    }
}

/// The view of an optional string.
pub open spec fn opt_view(o: Option<String>) -> Option<Seq<char>> {
    match o {
        Some(s) => Some(s@),
        None => None,
    }
}

/// The runtime settings of a provider, loaded from the database.
#[derive(Clone, Copy, Debug)]
pub struct ProviderRuntimeConfig {
    pub ttl_seconds: i64,
    pub enabled: bool,
}

/// The map that inserting the entries of `s` in order builds: a later entry
/// of a key replaces an earlier one.
pub open spec fn map_of(s: Seq<(String, ProviderRuntimeConfig)>) -> Map<Seq<char>, ProviderRuntimeConfig>
    decreases s.len(),
{
    if s.len() == 0 {
        Map::empty()
    } else {
        map_of(s.drop_last()).insert(s.last().0@, s.last().1)
    }
}

/// The runtime provider settings, keyed by provider.
pub struct ProviderConfigs {
    entries: Vec<(String, ProviderRuntimeConfig)>,
}

impl View for ProviderConfigs {
    type V = Map<Seq<char>, ProviderRuntimeConfig>;

    closed spec fn view(&self) -> Map<Seq<char>, ProviderRuntimeConfig> {
        map_of(self.entries@)
    }
}

/// The TTL used for a provider without a runtime override or a registry
/// default: twelve hours.
pub const FALLBACK_TTL_SECS: i64 = 43_200;

/// The effective cache TTL of a provider: its runtime override, else its
/// registry default, else twelve hours.
pub open spec fn provider_ttl_spec(m: Map<Seq<char>, ProviderRuntimeConfig>, key: Seq<char>, registry_default: Option<i64>) -> i64 {
    if m.dom().contains(key) {
        m[key].ttl_seconds
    } else {
        match registry_default {
            Some(t) => t,
            None => FALLBACK_TTL_SECS,
        }
    }
}

proof fn lemma_map_of_take(s: Seq<(String, ProviderRuntimeConfig)>, n: int)
    requires
        0 < n <= s.len(),
    ensures
        map_of(s.take(n)) == map_of(s.take(n - 1)).insert(s[n - 1].0@, s[n - 1].1),
{
    assert(s.take(n).drop_last() =~= s.take(n - 1));
}

/// After a reload, a provider's settings are those of its last row, and a
/// provider without a row has none.
pub proof fn law_last_row_wins(rows: Seq<(String, ProviderRuntimeConfig)>, key: String, cfg: ProviderRuntimeConfig, other: Seq<char>)
    requires
        other != key@,
    ensures
        map_of(rows.push((key, cfg))).dom().contains(key@),
        map_of(rows.push((key, cfg)))[key@] == cfg,
        map_of(rows.push((key, cfg))).dom().contains(other) == map_of(rows).dom().contains(other),
        map_of(rows).dom().contains(other) ==> map_of(rows.push((key, cfg)))[other] == map_of(rows)[other],
{
    assert(rows.push((key, cfg)).drop_last() =~= rows);
}

impl ProviderConfigs {
    /// No runtime settings.
    pub fn new() -> (res: Self)
        ensures
            res@ == Map::<Seq<char>, ProviderRuntimeConfig>::empty(),
    {
        ProviderConfigs { entries: Vec::new() }
    }

    /// Replaces all settings by `rows`, inserted in order (a later row of a
    /// provider wins).
    pub fn reload(&mut self, rows: Vec<(String, ProviderRuntimeConfig)>)
        ensures
            final(self)@ == map_of(rows@),
    {
        self.entries = rows;
    }

    /// The settings of provider `key`, if any.
    pub fn get(&self, key: &str) -> (res: Option<ProviderRuntimeConfig>)
        ensures
            match res {
                Some(c) => self@.dom().contains(key@) && self@[key@] == c,
                None => !self@.dom().contains(key@),
            },
    {
        let mut n: usize = self.entries.len();
        assert(self.entries@.take(n as int) =~= self.entries@);
        while n > 0
            invariant
                n <= self.entries@.len(),
                forall|k: Seq<char>| #[trigger] map_of(self.entries@).dom().contains(k) && k == key@ ==> (
                    map_of(self.entries@.take(n as int)).dom().contains(k) && map_of(self.entries@)[k]
                        == map_of(self.entries@.take(n as int))[k]),
                !map_of(self.entries@).dom().contains(key@) ==> !map_of(self.entries@.take(n as int)).dom().contains(key@),
                map_of(self.entries@.take(n as int)).dom().contains(key@) ==> map_of(self.entries@).dom().contains(key@),
            decreases n,
        {
            proof {
                lemma_map_of_take(self.entries@, n as int);
            }
            if crate::text::str_eq(self.entries[n - 1].0.as_str(), key) {
                return Some(self.entries[n - 1].1);
            }
            n = n - 1;
        }
        assert(self.entries@.take(0) =~= Seq::<(String, ProviderRuntimeConfig)>::empty());
        None
    }

    /// The effective cache TTL of provider `key` given its registry default.
    pub fn provider_ttl(&self, key: &str, registry_default: Option<i64>) -> (res: i64)
        ensures
            res == provider_ttl_spec(self@, key@, registry_default),
    {
        match self.get(key) {
            Some(c) => c.ttl_seconds,
            None => match registry_default {
                Some(t) => t,
                None => FALLBACK_TTL_SECS,
            },
        }
    }
}

} // verus!