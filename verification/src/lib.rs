//! A caching API proxy for public metadata providers: request metrics,
//! cache headers, read-through caching, authentication and the admin API.
pub mod admin;
pub mod auth;
pub mod bing;
pub mod cache_headers;
pub mod capabilities;
pub mod config;
pub mod credentials;
pub mod currency;
pub mod error;
pub mod freshness;
pub mod hashing;
pub mod inventory;
pub mod itunes;
pub mod lexorder;
pub mod metrics;
pub mod numfmt;
pub mod percentile;
pub mod query_params;
pub mod read_through;
pub mod request_metrics;
pub mod retention;
pub mod single_flight;
pub mod text;
pub mod tmdb;
