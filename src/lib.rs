//! A client library for a news-search HTTP API: request builders, query encoding,
//! error classification and a retry policy. The network exchange itself belongs to
//! whoever holds the transport: the client describes each attempt of a call and
//! decides, from what came back, whether to wait and try again or to stop.

pub mod client;
pub mod constant;
pub mod error;
pub mod model;
pub mod retry;
pub mod text;
pub mod trusted;

pub use client::{Attempt, CallStep, NewsApiClient, NewsApiClientBuilder, PendingCall};
pub use error::{ApiClientError, ApiClientErrorCode, ApiClientErrorResponse};
pub use model::{
    Article, GetEverythingRequest, GetEverythingResponse, GetSourcesRequest,
    GetSourcesResponse, GetTopHeadlinesRequest, NewsSource, Source, TopHeadlinesResponse,
};
pub use retry::{RetryDecision, RetryState, RetryStrategy};
