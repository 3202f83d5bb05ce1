//! The client: its configuration, request validation, query encoding, headers, and
//! the decisions of one logical call. Whoever owns a transport asks the client to
//! begin a call, performs each attempt it describes, and reports what came back; the
//! call answers with the wait before the next attempt or with its outcome.

use vstd::prelude::*;

use crate::constant::{
    EVERYTHING_ENDPOINT, NEWS_API_CLIENT_USER_AGENT, NEWS_API_URI, SOURCES_ENDPOINT,
    TOP_HEADLINES_ENDPOINT,
};
use crate::error::{
    classification, parse_error_response, parsed_error_body, ApiClientError,
    ApiClientErrorCode, ApiClientErrorResponse,
};
use crate::model::{
    conflicting_filters, EverythingFields, GetEverythingRequest, GetSourcesRequest,
    GetTopHeadlinesRequest, SourcesFields, TopHeadlinesFields, CONFLICTING_FILTERS_MESSAGE,
};
use crate::retry::{RetryDecision, RetryState, RetryStrategy};
use crate::text::{decimal, decimal_text};
use crate::trusted::{endpoint_url, endpoint_url_of, header_char_ok, url_parses};

verus! {

/// Query pairs as plain text values.
pub type QueryPairs = Seq<(Seq<char>, Seq<char>)>;

/// One pair when `present`, none otherwise.
pub open spec fn pair_if(present: bool, key: Seq<char>, value: Seq<char>) -> QueryPairs {
    if present {
        seq![(key, value)]
    } else {
        seq![]
    }
}

/// The query of a top-headlines request: `country`, `category`, `sources` when set,
/// `q` when not empty, `pageSize` and `page` when above 1; in that order.
pub open spec fn top_headlines_query(f: TopHeadlinesFields) -> QueryPairs {
    pair_if(f.country is Some, "country"@, f.country->0.wire())
        + pair_if(f.category is Some, "category"@, f.category->0.wire())
        + pair_if(f.sources is Some, "sources"@, f.sources->0)
        + pair_if(f.search_term.len() > 0, "q"@, f.search_term)
        + pair_if(f.page_size > 1, "pageSize"@, decimal(f.page_size as nat))
        + pair_if(f.page > 1, "page"@, decimal(f.page as nat))
}

/// The query of a search request: `q` always, `language`, `from` and `to` when set,
/// `pageSize` when above 0 and `page` when above 1; in that order.
pub open spec fn everything_query(f: EverythingFields) -> QueryPairs {
    seq![("q"@, f.search_term)]
        + pair_if(f.language is Some, "language"@, f.language->0.wire())
        + pair_if(f.start_date is Some, "from"@, f.start_date->0.rfc3339())
        + pair_if(f.end_date is Some, "to"@, f.end_date->0.rfc3339())
        + pair_if(f.page_size > 0, "pageSize"@, decimal(f.page_size as nat))
        + pair_if(f.page > 1, "page"@, decimal(f.page as nat))
}

/// The query of a source-listing request: `category`, `language`, `country` when set;
/// in that order.
pub open spec fn sources_query(f: SourcesFields) -> QueryPairs {
    pair_if(f.category is Some, "category"@, f.category->0.wire())
        + pair_if(f.language is Some, "language"@, f.language->0.wire())
        + pair_if(f.country is Some, "country"@, f.country->0.wire())
}

/// The value of the `Authorization` header for an API key.
pub open spec fn authorization_value(api_key: Seq<char>) -> Seq<char> {
    "Bearer "@ + api_key
}

/// Whether a text can stand as an HTTP header value.
pub open spec fn header_text_ok(text: Seq<char>) -> bool {
    forall|i: int| 0 <= i < text.len() ==> header_char_ok(#[trigger] text[i])
}

/// The headers of every request: the credentials and the client's identifier.
pub open spec fn request_headers(api_key: Seq<char>) -> QueryPairs {
    seq![
        ("authorization"@, authorization_value(api_key)),
        ("user-agent"@, NEWS_API_CLIENT_USER_AGENT@),
    ]
}

/// Page fields the service accepts: a page size from 1 to 100, a page from 1.
pub open spec fn paging_ok(page_size: i32, page: i32) -> bool {
    1 <= page_size <= 100 && page >= 1
}

/// Message with which a request with out-of-range page fields is refused.
pub const INVALID_PAGING_MESSAGE: &'static str =
    "pageSize must be between 1 and 100 and page must be at least 1";

/// Message given when no API key was provided.
pub const MISSING_API_KEY_MESSAGE: &'static str =
    "API key must be provided either explicitly or via NEWS_API_KEY environment variable";

/// What a top-headlines call puts before the decoder's message when a success body
/// cannot be decoded.
pub const TOP_HEADLINES_DECODE_PREFIX: &'static str = "Failed to parse response: ";

/// Message given when the default base URL does not parse.
pub const INVALID_DEFAULT_URL_MESSAGE: &'static str = "The default base URL could not be parsed";

/// Whether the keys of `q` strictly rise in `rank`: each key at most once, in a fixed
/// order.
pub open spec fn keys_in_order(q: QueryPairs, rank: spec_fn(Seq<char>) -> int) -> bool {
    forall|i: int, j: int| 0 <= i < j < q.len() ==> rank(#[trigger] q[i].0) < rank(#[trigger] q[j].0)
}

/// The place of a key in the top-headlines emission order.
pub open spec fn top_headlines_rank(key: Seq<char>) -> int {
    if key == "country"@ {
        0
    } else if key == "category"@ {
        1
    } else if key == "sources"@ {
        2
    } else if key == "q"@ {
        3
    } else if key == "pageSize"@ {
        4
    } else if key == "page"@ {
        5
    } else {
        6
    }
}

/// The place of a key in the search emission order.
pub open spec fn everything_rank(key: Seq<char>) -> int {
    if key == "q"@ {
        0
    } else if key == "language"@ {
        1
    } else if key == "from"@ {
        2
    } else if key == "to"@ {
        3
    } else if key == "pageSize"@ {
        4
    } else if key == "page"@ {
        5
    } else {
        6
    }
}

/// The place of a key in the source-listing emission order.
pub open spec fn sources_rank(key: Seq<char>) -> int {
    if key == "category"@ {
        0
    } else if key == "language"@ {
        1
    } else if key == "country"@ {
        2
    } else {
        3
    }
}

proof fn lemma_append_in_order(
    a: QueryPairs,
    present: bool,
    key: Seq<char>,
    value: Seq<char>,
    rank: spec_fn(Seq<char>) -> int,
)
    requires
        keys_in_order(a, rank),
        forall|i: int| 0 <= i < a.len() ==> rank(#[trigger] a[i].0) < rank(key),
    ensures
        keys_in_order(a + pair_if(present, key, value), rank),
        forall|i: int|
            0 <= i < (a + pair_if(present, key, value)).len() ==> rank(
                #[trigger] (a + pair_if(present, key, value))[i].0,
            ) <= rank(key),
{
    let b = a + pair_if(present, key, value);
    assert forall|i: int, j: int| 0 <= i < j < b.len() implies rank(#[trigger] b[i].0) < rank(
        #[trigger] b[j].0,
    ) by {
        if j < a.len() {
            assert(b[i] == a[i] && b[j] == a[j]);
        } else {
            assert(b[i] == a[i]);
        }
    }
    assert forall|i: int| 0 <= i < b.len() implies rank(#[trigger] b[i].0) <= rank(key) by {
        if i < a.len() {
            assert(b[i] == a[i]);
        }
    }
}

/// Encoding a top-headlines request is order-stable: its keys come in the order
/// country, category, sources, q, pageSize, page, each at most once. (It is a function
/// of the request alone, so encoding the same request twice gives the same pairs.)
pub proof fn top_headlines_query_in_order(f: TopHeadlinesFields)
    ensures
        keys_in_order(top_headlines_query(f), |k: Seq<char>| top_headlines_rank(k)),
{
    reveal_strlit("country");
    reveal_strlit("category");
    reveal_strlit("sources");
    reveal_strlit("q");
    reveal_strlit("pageSize");
    reveal_strlit("page");
    let rank = |k: Seq<char>| top_headlines_rank(k);
    assert("country"@.len() == 7 && "category"@.len() == 8 && "sources"@.len() == 7);
    assert("q"@.len() == 1 && "pageSize"@.len() == 8 && "page"@.len() == 4);
    assert("country"@[1] == 'o' && "category"@[1] == 'a' && "sources"@[0] == 's');
    assert("pageSize"@[0] == 'p' && "category"@[0] == 'c');
    let q0: QueryPairs = seq![];
    assert(rank("country"@) == 0 && rank("category"@) == 1 && rank("sources"@) == 2);
    assert(rank("q"@) == 3 && rank("pageSize"@) == 4 && rank("page"@) == 5);
    lemma_append_in_order(q0, f.country is Some, "country"@, f.country->0.wire(), rank);
    let q1 = q0 + pair_if(f.country is Some, "country"@, f.country->0.wire());
    lemma_append_in_order(q1, f.category is Some, "category"@, f.category->0.wire(), rank);
    let q2 = q1 + pair_if(f.category is Some, "category"@, f.category->0.wire());
    lemma_append_in_order(q2, f.sources is Some, "sources"@, f.sources->0, rank);
    let q3 = q2 + pair_if(f.sources is Some, "sources"@, f.sources->0);
    lemma_append_in_order(q3, f.search_term.len() > 0, "q"@, f.search_term, rank);
    let q4 = q3 + pair_if(f.search_term.len() > 0, "q"@, f.search_term);
    lemma_append_in_order(q4, f.page_size > 1, "pageSize"@, decimal(f.page_size as nat), rank);
    let q5 = q4 + pair_if(f.page_size > 1, "pageSize"@, decimal(f.page_size as nat));
    lemma_append_in_order(q5, f.page > 1, "page"@, decimal(f.page as nat), rank);
    let q6 = q5 + pair_if(f.page > 1, "page"@, decimal(f.page as nat));
    assert(q1 =~= pair_if(f.country is Some, "country"@, f.country->0.wire()));
    assert(q6 =~= top_headlines_query(f));
}

/// Encoding a search request is order-stable: its keys come in the order q, language,
/// from, to, pageSize, page, each at most once.
pub proof fn everything_query_in_order(f: EverythingFields)
    ensures
        keys_in_order(everything_query(f), |k: Seq<char>| everything_rank(k)),
{
    reveal_strlit("q");
    reveal_strlit("language");
    reveal_strlit("from");
    reveal_strlit("to");
    reveal_strlit("pageSize");
    reveal_strlit("page");
    let rank = |k: Seq<char>| everything_rank(k);
    assert("q"@.len() == 1 && "language"@.len() == 8 && "from"@.len() == 4);
    assert("to"@.len() == 2 && "pageSize"@.len() == 8 && "page"@.len() == 4);
    assert("language"@[0] == 'l' && "pageSize"@[0] == 'p' && "from"@[0] == 'f' && "page"@[0] == 'p');
    let q0: QueryPairs = seq![];
    assert(rank("q"@) == 0 && rank("language"@) == 1 && rank("from"@) == 2);
    assert(rank("to"@) == 3 && rank("pageSize"@) == 4 && rank("page"@) == 5);
    lemma_append_in_order(q0, true, "q"@, f.search_term, rank);
    let q1 = q0 + pair_if(true, "q"@, f.search_term);
    lemma_append_in_order(q1, f.language is Some, "language"@, f.language->0.wire(), rank);
    let q2 = q1 + pair_if(f.language is Some, "language"@, f.language->0.wire());
    lemma_append_in_order(q2, f.start_date is Some, "from"@, f.start_date->0.rfc3339(), rank);
    let q3 = q2 + pair_if(f.start_date is Some, "from"@, f.start_date->0.rfc3339());
    lemma_append_in_order(q3, f.end_date is Some, "to"@, f.end_date->0.rfc3339(), rank);
    let q4 = q3 + pair_if(f.end_date is Some, "to"@, f.end_date->0.rfc3339());
    lemma_append_in_order(q4, f.page_size > 0, "pageSize"@, decimal(f.page_size as nat), rank);
    let q5 = q4 + pair_if(f.page_size > 0, "pageSize"@, decimal(f.page_size as nat));
    lemma_append_in_order(q5, f.page > 1, "page"@, decimal(f.page as nat), rank);
    let q6 = q5 + pair_if(f.page > 1, "page"@, decimal(f.page as nat));
    assert(q1 =~= seq![("q"@, f.search_term)]);
    assert(q6 =~= everything_query(f));
}

/// Encoding a source-listing request is order-stable: its keys come in the order
/// category, language, country, each at most once.
pub proof fn sources_query_in_order(f: SourcesFields)
    ensures
        keys_in_order(sources_query(f), |k: Seq<char>| sources_rank(k)),
{
    reveal_strlit("category");
    reveal_strlit("language");
    reveal_strlit("country");
    let rank = |k: Seq<char>| sources_rank(k);
    assert("category"@.len() == 8 && "language"@.len() == 8 && "country"@.len() == 7);
    assert("category"@[0] == 'c' && "language"@[0] == 'l');
    let q0: QueryPairs = seq![];
    assert(rank("category"@) == 0 && rank("language"@) == 1 && rank("country"@) == 2);
    lemma_append_in_order(q0, f.category is Some, "category"@, f.category->0.wire(), rank);
    let q1 = q0 + pair_if(f.category is Some, "category"@, f.category->0.wire());
    lemma_append_in_order(q1, f.language is Some, "language"@, f.language->0.wire(), rank);
    let q2 = q1 + pair_if(f.language is Some, "language"@, f.language->0.wire());
    lemma_append_in_order(q2, f.country is Some, "country"@, f.country->0.wire(), rank);
    let q3 = q2 + pair_if(f.country is Some, "country"@, f.country->0.wire());
    assert(q1 =~= pair_if(f.category is Some, "category"@, f.category->0.wire()));
    assert(q3 =~= sources_query(f));
}

/// Whether a status code reports success (2xx).
pub fn is_success_status(status: u16) -> (r: bool)
    ensures
        r == (200 <= status <= 299),
{
    200 <= status && status <= 299
}

/// Refuses page fields that the service would refuse, as it would: with
/// `ParameterInvalid`.
pub fn validate_paging(page_size: i32, page: i32) -> (r: Result<(), ApiClientError>)
    ensures
        r is Ok <==> paging_ok(page_size, page),
        r matches Err(e) ==> e matches ApiClientError::InvalidResponse(resp) && resp.code
            == ApiClientErrorCode::ParameterInvalid && resp.status@ == "error"@
            && resp.message@ == INVALID_PAGING_MESSAGE@,
{
    if 1 <= page_size && page_size <= 100 && page >= 1 {
        Ok(())
    } else {
        Err(
            ApiClientError::InvalidResponse(
                ApiClientErrorResponse {
                    status: String::from_str("error"),
                    code: ApiClientErrorCode::ParameterInvalid,
                    message: String::from_str(INVALID_PAGING_MESSAGE),
                },
            ),
        )
    }
}

/// Appends one query pair.
fn push_pair(query: &mut Vec<(String, String)>, key: &str, value: String)
    ensures
        final(query).deep_view() == old(query).deep_view().push((key@, value@)),
{
    query.push((String::from_str(key), value));
    assert(final(query).deep_view() =~= old(query).deep_view().push((key@, value@)));
}

/// A client of the service over a transport of type `T`. Its credentials, base URL
/// and retry policy are fixed once it is made.
#[derive(Debug)]
pub struct NewsApiClient<T> {
    client: T,
    api_key: String,
    base_url: String,
    retry_strategy: RetryStrategy,
    max_retries: usize,
}

/// Builds a `NewsApiClient`; the API key may come from the environment instead.
pub struct NewsApiClientBuilder {
    api_key: Option<String>,
    base_url: Option<String>,
    retry_strategy: RetryStrategy,
    max_retries: usize,
}

/// The same builder serves blocking transports.
pub type BlockingNewsApiClientBuilder = NewsApiClientBuilder;

impl Default for NewsApiClientBuilder {
    fn default() -> (r: Self)
        ensures
            r.spec_api_key() is None,
            r.spec_base_url() is None,
            r.spec_retry_strategy() == RetryStrategy::NoRetry,
            r.spec_max_retries() == 0,
    {
        NewsApiClientBuilder {
            api_key: None,
            base_url: None,
            retry_strategy: RetryStrategy::NoRetry,
            max_retries: 0,
        }
    }
}

impl NewsApiClientBuilder {
    pub closed spec fn spec_api_key(&self) -> Option<Seq<char>> {
        self.api_key.deep_view()
    }

    /// The base URL's text, when one was set.
    pub closed spec fn spec_base_url(&self) -> Option<Seq<char>> {
        self.base_url.deep_view()
    }

    #[verifier::type_invariant]
    spec fn base_url_parses(self) -> bool {
        self.base_url matches Some(t) ==> url_parses(t@)
    }

    pub closed spec fn spec_retry_strategy(&self) -> RetryStrategy {
        self.retry_strategy
    }

    pub closed spec fn spec_max_retries(&self) -> usize {
        self.max_retries
    }

    /// No key, the default base URL, no retries.
    pub fn new() -> (r: Self)
        ensures
            r.spec_api_key() is None,
            r.spec_base_url() is None,
            r.spec_retry_strategy() == RetryStrategy::NoRetry,
            r.spec_max_retries() == 0,
    {
        Self::default()
    }

    pub fn api_key(self, api_key: &str) -> (r: Self)
        ensures
            r.spec_api_key() == Some(api_key@),
            r.spec_base_url() == self.spec_base_url(),
            r.spec_retry_strategy() == self.spec_retry_strategy(),
            r.spec_max_retries() == self.spec_max_retries(),
    {
        proof {
            use_type_invariant(&self);
        }
        NewsApiClientBuilder { api_key: Some(api_key.to_owned()), ..self }
    }

    /// Sets the base URL; refused when the text is not a URL.
    pub fn base_url(self, text: &str) -> (r: Result<Self, url::ParseError>)
        ensures
            r is Ok <==> url_parses(text@),
            r matches Ok(b) ==> b.spec_base_url() == Some(text@) && b.spec_api_key()
                == self.spec_api_key() && b.spec_retry_strategy() == self.spec_retry_strategy()
                && b.spec_max_retries() == self.spec_max_retries(),
    {
        match url::Url::parse(text) {
            Ok(_) => Ok(NewsApiClientBuilder { base_url: Some(text.to_owned()), ..self }),
            Err(e) => Err(e),
        }
    }

    pub fn retry(self, strategy: RetryStrategy, max_retries: usize) -> (r: Self)
        ensures
            r.spec_api_key() == self.spec_api_key(),
            r.spec_base_url() == self.spec_base_url(),
            r.spec_retry_strategy() == strategy,
            r.spec_max_retries() == max_retries,
    {
        proof {
            use_type_invariant(&self);
        }
        NewsApiClientBuilder { retry_strategy: strategy, max_retries, ..self }
    }

    /// The client over `client`. The key set on the builder wins over `env_api_key`,
    /// the key found in the environment; with neither, the build fails.
    pub fn build_with<T>(self, client: T, env_api_key: Option<String>) -> (r: Result<
        NewsApiClient<T>,
        String,
    >)
        ensures
            self.spec_api_key() is None && env_api_key is None ==> (r matches Err(m) && m@
                == MISSING_API_KEY_MESSAGE@),
            r is Ok <==> (self.spec_api_key() is Some || env_api_key is Some) && (
            self.spec_base_url() is Some || url_parses(NEWS_API_URI@)),
            r matches Ok(c) ==> c.spec_api_key() == (match self.spec_api_key() {
                Some(k) => k,
                None => env_api_key->0@,
            }) && c.spec_base_url() == (match self.spec_base_url() {
                Some(b) => b,
                None => NEWS_API_URI@,
            }) && c.spec_retry_strategy() == self.spec_retry_strategy() && c.spec_max_retries()
                == self.spec_max_retries(),
    {
        proof {
            use_type_invariant(&self);
        }
        let api_key = match self.api_key {
            Some(key) => key,
            None => match env_api_key {
                Some(key) => key,
                None => return Err(String::from_str(MISSING_API_KEY_MESSAGE)),
            },
        };
        let base_url = match self.base_url {
            Some(u) => u,
            None => match url::Url::parse(NEWS_API_URI) {
                Ok(_) => String::from_str(NEWS_API_URI),
                Err(_) => return Err(String::from_str(INVALID_DEFAULT_URL_MESSAGE)),
            },
        };
        Ok(
            NewsApiClient {
                client,
                api_key,
                base_url,
                retry_strategy: self.retry_strategy,
                max_retries: self.max_retries,
            },
        )
    }
}

impl<T> NewsApiClient<T> {
    pub closed spec fn spec_api_key(&self) -> Seq<char> {
        self.api_key@
    }

    pub closed spec fn spec_retry_strategy(&self) -> RetryStrategy {
        self.retry_strategy
    }

    pub closed spec fn spec_max_retries(&self) -> usize {
        self.max_retries
    }

    pub closed spec fn spec_client(&self) -> T {
        self.client
    }

    /// The base URL's text.
    pub closed spec fn spec_base_url(&self) -> Seq<char> {
        self.base_url@
    }

    #[verifier::type_invariant]
    spec fn base_url_parses(self) -> bool {
        url_parses(self.base_url@)
    }

    /// A client over `client` with the given key and base URL, and no retries; refused
    /// when the base URL's text is not a URL.
    pub fn with_client(client: T, api_key: &str, base_url: &str) -> (r: Result<
        Self,
        url::ParseError,
    >)
        ensures
            r is Ok <==> url_parses(base_url@),
            r matches Ok(c) ==> c.spec_api_key() == api_key@ && c.spec_client() == client
                && c.spec_base_url() == base_url@ && c.spec_retry_strategy()
                == RetryStrategy::NoRetry && c.spec_max_retries() == 0,
    {
        match url::Url::parse(base_url) {
            Ok(_) => Ok(
                NewsApiClient {
                    client,
                    api_key: api_key.to_owned(),
                    base_url: base_url.to_owned(),
                    retry_strategy: RetryStrategy::NoRetry,
                    max_retries: 0,
                },
            ),
            Err(e) => Err(e),
        }
    }

    /// A builder with no key, the default base URL and no retries.
    pub fn builder() -> (r: NewsApiClientBuilder)
        ensures
            r.spec_api_key() is None,
            r.spec_base_url() is None,
            r.spec_retry_strategy() == RetryStrategy::NoRetry,
            r.spec_max_retries() == 0,
    {
        NewsApiClientBuilder::new()
    }

    /// A builder for a client over a blocking transport.
    pub fn builder_blocking() -> (r: BlockingNewsApiClientBuilder)
        ensures
            r.spec_api_key() is None,
            r.spec_base_url() is None,
            r.spec_retry_strategy() == RetryStrategy::NoRetry,
            r.spec_max_retries() == 0,
    {
        BlockingNewsApiClientBuilder::new()
    }

    /// The same client with another retry policy.
    pub fn with_retry(self, strategy: RetryStrategy, max_retries: usize) -> (r: Self)
        ensures
            r.spec_api_key() == self.spec_api_key(),
            r.spec_client() == self.spec_client(),
            r.spec_base_url() == self.spec_base_url(),
            r.spec_retry_strategy() == strategy,
            r.spec_max_retries() == max_retries,
    {
        proof {
            use_type_invariant(&self);
        }
        NewsApiClient { retry_strategy: strategy, max_retries, ..self }
    }

    /// The transport.
    pub fn client(&self) -> (r: &T)
        ensures
            *r == self.spec_client(),
    {
        &self.client
    }

    pub fn api_key(&self) -> (r: &String)
        ensures
            r@ == self.spec_api_key(),
    {
        &self.api_key
    }

    /// The base URL's text.
    pub fn base_url(&self) -> (r: &String)
        ensures
            r@ == self.spec_base_url(),
    {
        &self.base_url
    }

    pub fn retry_strategy(&self) -> (r: RetryStrategy)
        ensures
            r == self.spec_retry_strategy(),
    {
        self.retry_strategy
    }

    pub fn max_retries(&self) -> (r: usize)
        ensures
            r == self.spec_max_retries(),
    {
        self.max_retries
    }

    /// Classifies a non-success response from its text and status code.
    pub fn parse_error_response_internal(response_text: String, status_code: u16) -> (r:
        ApiClientError)
        ensures
            r matches ApiClientError::InvalidResponse(e) && e.parts() == classification(
                status_code,
                response_text@,
                parsed_error_body(response_text@),
            ),
    {
        parse_error_response(response_text.as_str(), status_code)
    }

    /// The headers of every request: `authorization` with the bearer credentials and
    /// `user-agent` with the client's identifier. Fails when the key cannot stand in a
    /// header.
    pub fn get_request_headers(&self) -> (r: Result<Vec<(String, String)>, ApiClientError>)
        ensures
            r is Ok <==> header_text_ok(authorization_value(self.spec_api_key())),
            r matches Ok(h) ==> h.deep_view() == request_headers(self.spec_api_key()),
            r matches Err(e) ==> e is InvalidHeaderValue,
    {
        let mut value = String::from_str("Bearer ");
        value.append(self.api_key.as_str());
        match reqwest::header::HeaderValue::from_str(value.as_str()) {
            Ok(_) => {
                let mut headers: Vec<(String, String)> = Vec::new();
                headers.push((String::from_str("authorization"), value));
                headers.push(
                    (String::from_str("user-agent"), String::from_str(NEWS_API_CLIENT_USER_AGENT)),
                );
                assert(headers.deep_view() =~= request_headers(self.spec_api_key()));
                Ok(headers)
            },
            Err(e) => Err(ApiClientError::InvalidHeaderValue(e)),
        }
    }

    /// Refuses a top-headlines request that names both sources and a country or
    /// category.
    pub fn top_headlines_validate_request(request: &GetTopHeadlinesRequest) -> (r: Result<
        (),
        ApiClientError,
    >)
        ensures
            r is Ok <==> !conflicting_filters(request@),
            r matches Err(e) ==> e matches ApiClientError::InvalidRequest(m) && m@
                == CONFLICTING_FILTERS_MESSAGE@,
    {
        if request.get_sources().is_some() && (request.get_country().is_some()
            || request.get_category().is_some()) {
            return Err(ApiClientError::InvalidRequest(String::from_str(CONFLICTING_FILTERS_MESSAGE)));
        }
        Ok(())
    }

    /// The query pairs of a top-headlines request.
    pub fn get_top_headlines_query_params(request: &GetTopHeadlinesRequest) -> (r: Vec<
        (String, String),
    >)
        ensures
            r.deep_view() == top_headlines_query(request@),
    {
        let ghost f = request@;
        let mut q: Vec<(String, String)> = Vec::new();
        if let Some(country) = request.get_country() {
            push_pair(&mut q, "country", String::from_str(country.as_str()));
        }
        assert(q.deep_view() =~= pair_if(f.country is Some, "country"@, f.country->0.wire()));
        if let Some(category) = request.get_category() {
            push_pair(&mut q, "category", String::from_str(category.as_str()));
        }
        assert(q.deep_view() =~= pair_if(f.country is Some, "country"@, f.country->0.wire())
            + pair_if(f.category is Some, "category"@, f.category->0.wire()));
        if let Some(sources) = request.get_sources() {
            push_pair(&mut q, "sources", sources.clone());
        }
        assert(q.deep_view() =~= pair_if(f.country is Some, "country"@, f.country->0.wire())
            + pair_if(f.category is Some, "category"@, f.category->0.wire())
            + pair_if(f.sources is Some, "sources"@, f.sources->0));
        let term = request.get_search_term();
        if term.as_str().unicode_len() > 0 {
            push_pair(&mut q, "q", term.clone());
        }
        assert(q.deep_view() =~= pair_if(f.country is Some, "country"@, f.country->0.wire())
            + pair_if(f.category is Some, "category"@, f.category->0.wire())
            + pair_if(f.sources is Some, "sources"@, f.sources->0)
            + pair_if(f.search_term.len() > 0, "q"@, f.search_term));
        let page_size = *request.get_page_size();
        if page_size > 1 {
            push_pair(&mut q, "pageSize", decimal_text(page_size as u32));
        }
        assert(q.deep_view() =~= pair_if(f.country is Some, "country"@, f.country->0.wire())
            + pair_if(f.category is Some, "category"@, f.category->0.wire())
            + pair_if(f.sources is Some, "sources"@, f.sources->0)
            + pair_if(f.search_term.len() > 0, "q"@, f.search_term)
            + pair_if(f.page_size > 1, "pageSize"@, decimal(f.page_size as nat)));
        let page = *request.get_page();
        if page > 1 {
            push_pair(&mut q, "page", decimal_text(page as u32));
        }
        assert(q.deep_view() =~= top_headlines_query(f));
        q
    }

    /// The query pairs of a search request.
    pub fn get_everything_query_params(request: &GetEverythingRequest) -> (r: Vec<
        (String, String),
    >)
        ensures
            r.deep_view() == everything_query(request@),
    {
        let ghost f = request@;
        let mut q: Vec<(String, String)> = Vec::new();
        push_pair(&mut q, "q", request.get_search_term().clone());
        assert(q.deep_view() =~= seq![("q"@, f.search_term)]);
        if let Some(language) = request.get_language() {
            push_pair(&mut q, "language", String::from_str(language.as_str()));
        }
        assert(q.deep_view() =~= seq![("q"@, f.search_term)] + pair_if(
            f.language is Some,
            "language"@,
            f.language->0.wire(),
        ));
        if let Some(start) = request.get_start_date() {
            push_pair(&mut q, "from", start.to_rfc3339());
        }
        assert(q.deep_view() =~= seq![("q"@, f.search_term)] + pair_if(
            f.language is Some,
            "language"@,
            f.language->0.wire(),
        ) + pair_if(f.start_date is Some, "from"@, f.start_date->0.rfc3339()));
        if let Some(end) = request.get_end_date() {
            push_pair(&mut q, "to", end.to_rfc3339());
        }
        assert(q.deep_view() =~= seq![("q"@, f.search_term)] + pair_if(
            f.language is Some,
            "language"@,
            f.language->0.wire(),
        ) + pair_if(f.start_date is Some, "from"@, f.start_date->0.rfc3339()) + pair_if(
            f.end_date is Some,
            "to"@,
            f.end_date->0.rfc3339(),
        ));
        let page_size = *request.get_page_size();
        if page_size > 0 {
            push_pair(&mut q, "pageSize", decimal_text(page_size as u32));
        }
        assert(q.deep_view() =~= seq![("q"@, f.search_term)] + pair_if(
            f.language is Some,
            "language"@,
            f.language->0.wire(),
        ) + pair_if(f.start_date is Some, "from"@, f.start_date->0.rfc3339()) + pair_if(
            f.end_date is Some,
            "to"@,
            f.end_date->0.rfc3339(),
        ) + pair_if(f.page_size > 0, "pageSize"@, decimal(f.page_size as nat)));
        let page = *request.get_page();
        if page > 1 {
            push_pair(&mut q, "page", decimal_text(page as u32));
        }
        assert(q.deep_view() =~= everything_query(f));
        q
    }

    /// The query pairs of a source-listing request.
    pub fn get_sources_query_params(request: &GetSourcesRequest) -> (r: Vec<(String, String)>)
        ensures
            r.deep_view() == sources_query(request@),
    {
        let ghost f = request@;
        let mut q: Vec<(String, String)> = Vec::new();
        if let Some(category) = request.get_category() {
            push_pair(&mut q, "category", String::from_str(category.as_str()));
        }
        assert(q.deep_view() =~= pair_if(f.category is Some, "category"@, f.category->0.wire()));
        if let Some(language) = request.get_language() {
            push_pair(&mut q, "language", String::from_str(language.as_str()));
        }
        assert(q.deep_view() =~= pair_if(f.category is Some, "category"@, f.category->0.wire())
            + pair_if(f.language is Some, "language"@, f.language->0.wire()));
        if let Some(country) = request.get_country() {
            push_pair(&mut q, "country", String::from_str(country.as_str()));
        }
        assert(q.deep_view() =~= sources_query(f));
        q
    }

    /// The call for an endpoint path and query: the URL, the headers, a fresh retry
    /// state, and what goes before the decoder's message when a body cannot be decoded.
    fn begin_call(&self, path: &str, query: Vec<(String, String)>, decode_prefix: &str) -> (r:
        Result<PendingCall, ApiClientError>)
        ensures
            r is Ok <==> header_text_ok(authorization_value(self.spec_api_key())),
            r matches Err(e) ==> e is InvalidHeaderValue,
            r matches Ok(c) ==> c.spec_url() == endpoint_url_of(
                self.spec_base_url(),
                path@,
                query.deep_view(),
            ) && c.spec_path() == path@ && c.spec_query() == query.deep_view()
                && c.spec_headers() == request_headers(self.spec_api_key()) && c.spec_retry()
                == RetryState::spec_new(self.spec_retry_strategy(), self.spec_max_retries())
                && c.spec_decode_prefix() == decode_prefix@,
    {
        proof {
            use_type_invariant(self);
        }
        let headers = match self.get_request_headers() {
            Ok(h) => h,
            Err(e) => return Err(e),
        };
        let request_url = match endpoint_url(self.base_url.as_str(), path, &query) {
            Some(u) => u,
            None => {
                proof {
                    assert(false);
                }
                String::new()
            },
        };
        Ok(
            PendingCall {
                request_url,
                path: path.to_owned(),
                query,
                headers,
                retry: RetryState::new(self.retry_strategy, self.max_retries),
                decode_prefix: decode_prefix.to_owned(),
            },
        )
    }

    /// Begins a top-headlines call: the request is validated before any attempt.
    pub fn begin_top_headlines(&self, request: &GetTopHeadlinesRequest) -> (r: Result<
        PendingCall,
        ApiClientError,
    >)
        ensures
            conflicting_filters(request@) ==> (r matches Err(e) && e matches ApiClientError::InvalidRequest(m)
                && m@ == CONFLICTING_FILTERS_MESSAGE@),
            !conflicting_filters(request@) && !paging_ok(request@.page_size, request@.page)
                ==> (r matches Err(e) && e matches ApiClientError::InvalidResponse(resp)
                && resp.code == ApiClientErrorCode::ParameterInvalid && resp.status@ == "error"@
                && resp.message@ == INVALID_PAGING_MESSAGE@),
            !conflicting_filters(request@) && paging_ok(request@.page_size, request@.page)
                ==> (r is Ok <==> header_text_ok(authorization_value(self.spec_api_key()))),
            r matches Ok(c) ==> c.spec_url() == endpoint_url_of(
                self.spec_base_url(),
                TOP_HEADLINES_ENDPOINT@,
                top_headlines_query(request@),
            ) && c.spec_path() == TOP_HEADLINES_ENDPOINT@ && c.spec_query() == top_headlines_query(
                request@,
            ) && c.spec_headers() == request_headers(self.spec_api_key()) && c.spec_retry()
                == RetryState::spec_new(self.spec_retry_strategy(), self.spec_max_retries())
                && c.spec_decode_prefix() == TOP_HEADLINES_DECODE_PREFIX@,
    {
        match Self::top_headlines_validate_request(request) {
            Ok(()) => {},
            Err(e) => return Err(e),
        }
        match validate_paging(*request.get_page_size(), *request.get_page()) {
            Ok(()) => {},
            Err(e) => return Err(e),
        }
        let query = Self::get_top_headlines_query_params(request);
        self.begin_call(TOP_HEADLINES_ENDPOINT, query, TOP_HEADLINES_DECODE_PREFIX)
    }

    /// Begins a search call: the page fields are validated before any attempt.
    pub fn begin_everything(&self, request: &GetEverythingRequest) -> (r: Result<
        PendingCall,
        ApiClientError,
    >)
        ensures
            !paging_ok(request@.page_size, request@.page) ==> (r matches Err(e)
                && e matches ApiClientError::InvalidResponse(resp) && resp.code
                == ApiClientErrorCode::ParameterInvalid && resp.status@ == "error"@
                && resp.message@ == INVALID_PAGING_MESSAGE@),
            paging_ok(request@.page_size, request@.page) ==> (r is Ok <==> header_text_ok(
                authorization_value(self.spec_api_key()),
            )),
            r matches Ok(c) ==> c.spec_url() == endpoint_url_of(
                self.spec_base_url(),
                EVERYTHING_ENDPOINT@,
                everything_query(request@),
            ) && c.spec_path() == EVERYTHING_ENDPOINT@ && c.spec_query() == everything_query(
                request@,
            ) && c.spec_headers() == request_headers(self.spec_api_key()) && c.spec_retry()
                == RetryState::spec_new(self.spec_retry_strategy(), self.spec_max_retries())
                && c.spec_decode_prefix() == Seq::<char>::empty(),
    {
        match validate_paging(*request.get_page_size(), *request.get_page()) {
            Ok(()) => {},
            Err(e) => return Err(e),
        }
        let query = Self::get_everything_query_params(request);
        proof {
            reveal_strlit("");
        }
        self.begin_call(EVERYTHING_ENDPOINT, query, "")
    }

    /// Begins a source-listing call.
    pub fn begin_sources(&self, request: &GetSourcesRequest) -> (r: Result<
        PendingCall,
        ApiClientError,
    >)
        ensures
            r is Ok <==> header_text_ok(authorization_value(self.spec_api_key())),
            r matches Err(e) ==> e is InvalidHeaderValue,
            r matches Ok(c) ==> c.spec_url() == endpoint_url_of(
                self.spec_base_url(),
                SOURCES_ENDPOINT@,
                sources_query(request@),
            ) && c.spec_path() == SOURCES_ENDPOINT@ && c.spec_query() == sources_query(request@)
                && c.spec_headers() == request_headers(self.spec_api_key()) && c.spec_retry()
                == RetryState::spec_new(self.spec_retry_strategy(), self.spec_max_retries())
                && c.spec_decode_prefix() == Seq::<char>::empty(),
    {
        let query = Self::get_sources_query_params(request);
        proof {
            reveal_strlit("");
        }
        self.begin_call(SOURCES_ENDPOINT, query, "")
    }
}

/// What one attempt of a call came to, as reported by whoever performed it.
#[derive(Debug)]
pub enum Attempt<R> {
    /// A 2xx answer whose body was decoded.
    Decoded(R),
    /// A 2xx answer whose body could not be decoded; the decoder's message.
    Undecodable(String),
    /// An answer with another status code, and its body.
    Rejected { status: u16, body: String },
    /// The exchange failed.
    Failed(reqwest::Error),
}

/// What the caller does next.
#[derive(Debug)]
pub enum CallStep<R> {
    /// Wait this many milliseconds, then perform the same request again.
    Wait { delay_ms: u64 },
    /// The call is over, with this outcome.
    Done(Result<R, ApiClientError>),
}

/// One logical call in progress: the request to perform, and its retry state.
#[derive(Debug)]
pub struct PendingCall {
    request_url: String,
    path: String,
    query: Vec<(String, String)>,
    headers: Vec<(String, String)>,
    retry: RetryState,
    decode_prefix: String,
}

impl PendingCall {
    pub closed spec fn spec_path(&self) -> Seq<char> {
        self.path@
    }

    pub closed spec fn spec_query(&self) -> QueryPairs {
        self.query.deep_view()
    }

    pub closed spec fn spec_headers(&self) -> QueryPairs {
        self.headers.deep_view()
    }

    pub closed spec fn spec_url(&self) -> Seq<char> {
        self.request_url@
    }

    pub closed spec fn spec_retry(&self) -> RetryState {
        self.retry
    }

    /// What goes before the decoder's message when a success body cannot be decoded.
    pub closed spec fn spec_decode_prefix(&self) -> Seq<char> {
        self.decode_prefix@
    }

    /// The full URL to request: the base URL with the endpoint's path and query.
    pub fn request_url(&self) -> (r: &String)
        ensures
            r@ == self.spec_url(),
    {
        &self.request_url
    }

    /// The endpoint's path.
    pub fn path(&self) -> (r: &String)
        ensures
            r@ == self.spec_path(),
    {
        &self.path
    }

    /// The query pairs, in order.
    pub fn query(&self) -> (r: &Vec<(String, String)>)
        ensures
            r.deep_view() == self.spec_query(),
    {
        &self.query
    }

    /// The headers to send, as (name, value) pairs.
    pub fn headers(&self) -> (r: &Vec<(String, String)>)
        ensures
            r.deep_view() == self.spec_headers(),
    {
        &self.headers
    }

    /// Where the call stands in its retries.
    pub fn retry_state(&self) -> (r: RetryState)
        ensures
            r == self.spec_retry(),
    {
        self.retry
    }

    /// Reports a failure that the policy may retry: while retries are left the answer
    /// is to wait and attempt again; after that the call ends with this very error.
    fn after_failure<R>(&mut self, error: ApiClientError) -> (step: CallStep<R>)
        ensures
            final(self).spec_url() == old(self).spec_url(),
            final(self).spec_path() == old(self).spec_path(),
            final(self).spec_query() == old(self).spec_query(),
            final(self).spec_headers() == old(self).spec_headers(),
            final(self).spec_decode_prefix() == old(self).spec_decode_prefix(),
            old(self).spec_retry().decision() matches RetryDecision::Retry { delay_ms } ==> step
                == (CallStep::<R>::Wait { delay_ms }) && final(self).spec_retry() == old(
                self,
            ).spec_retry().after_retry(),
            old(self).spec_retry().decision() is GiveUp ==> step == CallStep::<R>::Done(
                Err(error),
            ) && final(self).spec_retry() == old(self).spec_retry(),
    {
        match self.retry.on_failure() {
            RetryDecision::Retry { delay_ms } => CallStep::Wait { delay_ms },
            RetryDecision::GiveUp => CallStep::Done(Err(error)),
        }
    }

    /// Reports what an attempt came to and says what to do next. A decoded body ends
    /// the call with it, and an undecodable one with `InvalidRequest`, both at once.
    /// A rejected request is classified, and it and a failed exchange are retried by
    /// the policy; when no retry is left the call ends with that failure.
    pub fn on_attempt<R>(&mut self, attempt: Attempt<R>) -> (step: CallStep<R>)
        ensures
            final(self).spec_url() == old(self).spec_url(),
            final(self).spec_path() == old(self).spec_path(),
            final(self).spec_query() == old(self).spec_query(),
            final(self).spec_headers() == old(self).spec_headers(),
            final(self).spec_decode_prefix() == old(self).spec_decode_prefix(),
            attempt matches Attempt::Decoded(v) ==> step == CallStep::Done(Ok::<
                R,
                ApiClientError,
            >(v)) && final(self).spec_retry() == old(self).spec_retry(),
            attempt matches Attempt::Undecodable(m) ==> step matches CallStep::Done(
                Err(ApiClientError::InvalidRequest(msg)),
            ) && msg@ == old(self).spec_decode_prefix() + m@ && final(self).spec_retry() == old(
                self,
            ).spec_retry(),
            (attempt is Rejected || attempt is Failed) ==> match old(self).spec_retry().decision() {
                RetryDecision::Retry { delay_ms } => step == (CallStep::<R>::Wait { delay_ms })
                    && final(self).spec_retry() == old(self).spec_retry().after_retry(),
                RetryDecision::GiveUp => final(self).spec_retry() == old(self).spec_retry()
                    && (step matches CallStep::Done(Err(e)) && match attempt {
                    Attempt::Rejected { status, body } => e matches ApiClientError::InvalidResponse(
                        resp,
                    ) && resp.parts() == classification(status, body@, parsed_error_body(body@)),
                    Attempt::Failed(x) => e == ApiClientError::Http(x),
                    _ => false,
                }),
            },
    {
        match attempt {
            Attempt::Decoded(v) => CallStep::Done(Ok(v)),
            Attempt::Undecodable(m) => {
                let mut msg = self.decode_prefix.clone();
                msg.append(m.as_str());
                CallStep::Done(Err(ApiClientError::InvalidRequest(msg)))
            },
            Attempt::Rejected { status, body } => {
                let error = parse_error_response(body.as_str(), status);
                self.after_failure(error)
            },
            Attempt::Failed(x) => self.after_failure(ApiClientError::Http(x)),
        }
    }
}

} // verus!
