use vstd::prelude::*;

verus! {

/// Environment variable that holds the API key.
pub const NEWS_API_KEY_ENV: &'static str = "NEWS_API_KEY";

/// Log level used when the environment names none.
pub const DEFAULT_LOG_LEVEL: &'static str = "INFO";

/// Value of the `User-Agent` header sent with every request.
pub const NEWS_API_CLIENT_USER_AGENT: &'static str = "newsapi-rs/0.1.0";

/// Base URL of the service.
pub const NEWS_API_URI: &'static str = "https://newsapi.org/";

/// Path of the top-headlines endpoint.
pub const TOP_HEADLINES_ENDPOINT: &'static str = "/v2/top-headlines";

/// Path of the full-text search endpoint.
pub const EVERYTHING_ENDPOINT: &'static str = "/v2/everything";

/// Path of the source-listing endpoint.
pub const SOURCES_ENDPOINT: &'static str = "/v2/sources";

} // verus!
