# tokimo_server

An API proxy and cache in front of public metadata providers (movies, music,
subtitles, weather, exchange rates, ...), with an admin dashboard.

The library under `src/` holds the server's logic, with every function
specified and proved by Verus:

- `metrics` – the bounded ring of request samples and the dashboard queries
  (time series with latency percentiles, status classes, per-provider
  statistics, the top-ten heatmap, recent errors);
- `cache_headers` – `Cache-Control` / `ETag` / `304` decisions;
- `read_through`, `freshness` – the read-through cache of the provider
  routes, with single-flight windows and stale fallback;
- `single_flight`, `hashing` – who leads a shared upstream call, and the
  advisory-lock id of a key;
- `auth`, `credentials` – bearer tokens, service keys (argon2), admin
  sessions, upstream tokens;
- `admin`, `retention` – the admin cache browser and the periodic cleanup;
- `capabilities`, `inventory` – the public capability listing;
- `currency`, `itunes`, `tmdb`, `bing`, `query_params` – request validation
  and keys of individual providers;
- `config`, `error` – configuration and error responses;
- `text`, `numfmt`, `lexorder`, `percentile` – string, number and ordering
  utilities the above are specified with.

`app/` is the server process around the library: configuration from the
environment, the database, the health, capability and admin routes and their
middleware, the rate limiter and the cleanup job. The provider routes
themselves call the provider client crates, which this build does not
include, so `app/` does not serve them; their request validation, keys and
read-through steps are in the library. `tests/` exercises the library.
