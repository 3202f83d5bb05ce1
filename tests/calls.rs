use newsapi_rs::client::is_success_status;
use newsapi_rs::model::Country;
use newsapi_rs::{
    ApiClientError, ApiClientErrorCode, Article, Attempt, CallStep, GetEverythingRequest,
    GetEverythingResponse, GetTopHeadlinesRequest, NewsApiClient, PendingCall, RetryStrategy,
    Source, TopHeadlinesResponse,
};
use serde_json::Value;

/// A canned answer of the mock transport.
struct Canned {
    status: u16,
    body: &'static str,
}

fn text(v: &Value, key: &str) -> Option<String> {
    v.get(key).and_then(|x| x.as_str()).map(|s| s.to_string())
}

fn decode_articles(body: &str) -> Result<(String, i32, Vec<Article>), String> {
    let v: Value = serde_json::from_str(body).map_err(|e| e.to_string())?;
    let status = text(&v, "status").ok_or("missing status")?;
    let total = v.get("totalResults").and_then(|x| x.as_i64()).ok_or("missing totalResults")?;
    let mut articles = Vec::new();
    for a in v.get("articles").and_then(|x| x.as_array()).ok_or("missing articles")? {
        let source = a.get("source").ok_or("missing source")?;
        articles.push(Article {
            source: Source { id: text(source, "id"), name: text(source, "name").ok_or("name")? },
            author: text(a, "author"),
            title: text(a, "title").ok_or("title")?,
            description: text(a, "description"),
            url: text(a, "url").ok_or("url")?,
            url_to_image: text(a, "urlToImage"),
            published_at: text(a, "publishedAt").ok_or("publishedAt")?,
            content: text(a, "content"),
        });
    }
    Ok((status, total as i32, articles))
}

/// Performs a call against the mock: each attempt takes the next canned answer.
fn perform<R>(
    mut call: PendingCall,
    answers: &[Canned],
    decode: impl Fn(&str) -> Result<R, String>,
) -> (Result<R, ApiClientError>, usize) {
    let mut sent = 0;
    loop {
        let answer = &answers[sent.min(answers.len() - 1)];
        sent += 1;
        let attempt = if is_success_status(answer.status) {
            match decode(answer.body) {
                Ok(r) => Attempt::Decoded(r),
                Err(m) => Attempt::Undecodable(m),
            }
        } else {
            Attempt::Rejected { status: answer.status, body: answer.body.to_string() }
        };
        match call.on_attempt(attempt) {
            CallStep::Wait { .. } => continue,
            CallStep::Done(outcome) => return (outcome, sent),
        }
    }
}

fn decode_everything(body: &str) -> Result<GetEverythingResponse, String> {
    let (status, total_results, articles) = decode_articles(body)?;
    Ok(GetEverythingResponse { status, total_results, articles })
}

fn decode_top_headlines(body: &str) -> Result<TopHeadlinesResponse, String> {
    let (status, total_results, articles) = decode_articles(body)?;
    Ok(TopHeadlinesResponse { status, total_results, articles })
}

fn client() -> NewsApiClient<()> {
    NewsApiClient::with_client((), "test-api-key", "http://127.0.0.1:4321").unwrap()
}

const TWO_ARTICLES: &str = r#"{
    "status": "ok",
    "totalResults": 2,
    "articles": [
        {
            "source": {"id": "test-source", "name": "Test Source"},
            "author": "Test Author",
            "title": "Test Title",
            "description": "Test Description",
            "url": "https://example.com/article1",
            "urlToImage": "https://example.com/image1.jpg",
            "publishedAt": "2023-05-01T12:00:00Z",
            "content": "Test content"
        },
        {
            "source": {"id": "test-source-2", "name": "Test Source 2"},
            "author": "Test Author 2",
            "title": "Test Title 2",
            "description": "Test Description 2",
            "url": "https://example.com/article2",
            "urlToImage": "https://example.com/image2.jpg",
            "publishedAt": "2023-05-02T12:00:00Z",
            "content": "Test content 2"
        }
    ]
}"#;

#[test]
fn test_get_everything_async() {
    let request = GetEverythingRequest::builder().search_term(format!("test")).build();
    let call = client().begin_everything(&request).unwrap();
    assert_eq!(call.path(), "/v2/everything");

    let (response, sent) =
        perform(call, &[Canned { status: 200, body: TWO_ARTICLES }], decode_everything);
    let response = response.unwrap();

    assert_eq!(sent, 1);
    assert_eq!(response.get_status(), "ok");
    assert_eq!(*response.get_total_results(), 2);
    assert_eq!(response.get_articles().len(), 2);
    assert_eq!(response.get_articles()[0].get_title(), "Test Title");
    assert_eq!(response.get_articles()[1].get_title(), "Test Title 2");
}

#[test]
fn test_get_top_headlines_async() {
    let body = r#"{
        "status": "ok",
        "totalResults": 1,
        "articles": [
            {
                "source": {"id": "test-source", "name": "Test Source"},
                "author": "Test Author",
                "title": "Breaking News",
                "description": "Test Description",
                "url": "https://example.com/article1",
                "urlToImage": "https://example.com/image1.jpg",
                "publishedAt": "2023-05-01T12:00:00Z",
                "content": "Test content"
            }
        ]
    }"#;
    let request = GetTopHeadlinesRequest::builder()
        .country(Country::US)
        .search_term(String::new())
        .page_size(20)
        .page(1)
        .build()
        .unwrap();
    let call = client().begin_top_headlines(&request).unwrap();
    assert_eq!(call.path(), "/v2/top-headlines");

    let (response, _) = perform(call, &[Canned { status: 200, body }], decode_top_headlines);
    let response = response.unwrap();

    assert_eq!(response.get_status(), "ok");
    assert_eq!(*response.get_total_results(), 1);
    assert_eq!(response.get_articles().len(), 1);
    assert_eq!(response.get_articles()[0].get_title(), "Breaking News");
}

#[test]
fn test_error_responses_async() {
    let body = r#"{
        "status": "error",
        "code": "apiKeyInvalid",
        "message": "Your API key is invalid or incorrect"
    }"#;
    let request = GetEverythingRequest::builder().search_term(format!("test")).build();
    let call = client().begin_everything(&request).unwrap();

    let (result, _) = perform(call, &[Canned { status: 401, body }], decode_everything);
    assert!(result.is_err());

    match result.unwrap_err() {
        ApiClientError::InvalidResponse(response) => {
            assert_eq!(response.code, ApiClientErrorCode::ApiKeyInvalid);
        }
        _ => panic!("Expected InvalidResponse error"),
    }
}

#[test]
fn test_get_everything_blocking() {
    let body = r#"{
        "status": "ok",
        "totalResults": 1,
        "articles": [
            {
                "source": {"id": "test-source", "name": "Test Source"},
                "author": "Test Author",
                "title": "Test Title Blocking",
                "description": "Test Description",
                "url": "https://example.com/article1",
                "urlToImage": "https://example.com/image1.jpg",
                "publishedAt": "2023-05-01T12:00:00Z",
                "content": "Test content"
            }
        ]
    }"#;
    let request = GetEverythingRequest::builder().search_term("test".to_string()).build();
    let call = client().begin_everything(&request).unwrap();
    let (response, _) = perform(call, &[Canned { status: 200, body }], decode_everything);
    let response = response.unwrap();

    assert_eq!(response.get_status(), "ok");
    assert_eq!(*response.get_total_results(), 1);
    assert_eq!(response.get_articles()[0].get_title(), "Test Title Blocking");
}

#[test]
fn unauthorized_key_message_is_kept() {
    let body = r#"{"status":"error","code":"apiKeyInvalid","message":"Your API key is invalid"}"#;
    let request = GetEverythingRequest::builder().search_term("test".to_string()).build();
    let call = client().begin_everything(&request).unwrap();
    let (result, sent) = perform(call, &[Canned { status: 401, body }], decode_everything);
    assert_eq!(sent, 1);
    match result {
        Err(ApiClientError::InvalidResponse(e)) => {
            assert_eq!(e.code, ApiClientErrorCode::ApiKeyInvalid);
            assert_eq!(e.message, "Your API key is invalid");
        }
        other => panic!("unexpected {:?}", other.map(|_| ())),
    }
}

#[test]
fn rejected_attempts_are_retried_then_succeed() {
    let busy = r#"{"status":"error","code":"rateLimited","message":"slow down"}"#;
    let request = GetEverythingRequest::builder().search_term("x".to_string()).build();
    let client = client().with_retry(RetryStrategy::Constant(1), 2);
    let call = client.begin_everything(&request).unwrap();
    let answers = [
        Canned { status: 429, body: busy },
        Canned { status: 429, body: busy },
        Canned { status: 200, body: TWO_ARTICLES },
    ];
    let (result, sent) = perform(call, &answers, decode_everything);
    assert_eq!(sent, 3);
    assert_eq!(*result.unwrap().get_total_results(), 2);
}

#[test]
fn exhausted_retries_surface_the_last_error() {
    let request = GetEverythingRequest::builder().search_term("x".to_string()).build();
    let client = client().with_retry(RetryStrategy::Exponential(1), 2);
    let call = client.begin_everything(&request).unwrap();
    let (result, sent) =
        perform(call, &[Canned { status: 500, body: "gateway down" }], decode_everything);
    assert_eq!(sent, 3);
    match result {
        Err(ApiClientError::InvalidResponse(e)) => {
            assert_eq!(e.code, ApiClientErrorCode::UnexpectedError)
        }
        other => panic!("unexpected {:?}", other.map(|_| ())),
    }
}

#[test]
fn undecodable_success_body_is_not_retried() {
    let request = GetEverythingRequest::builder().search_term("x".to_string()).build();
    let client = client().with_retry(RetryStrategy::Constant(1), 5);
    let call = client.begin_everything(&request).unwrap();
    let (result, sent) = perform(call, &[Canned { status: 200, body: "{" }], decode_everything);
    assert_eq!(sent, 1);
    assert!(matches!(result, Err(ApiClientError::InvalidRequest(_))));
}

#[test]
fn conflicting_request_never_reaches_the_transport() {
    let request = GetTopHeadlinesRequest::builder()
        .country(Country::US)
        .build()
        .unwrap();
    assert!(client().begin_top_headlines(&request).is_ok());
    assert!(GetTopHeadlinesRequest::builder()
        .country(Country::US)
        .sources("cnn".to_string())
        .build()
        .is_err());
}

#[test]
fn undecodable_top_headlines_body_carries_prefix() {
    let request = GetTopHeadlinesRequest::builder().country(Country::US).build().unwrap();
    let call = client().begin_top_headlines(&request).unwrap();
    let (result, _) =
        perform(call, &[Canned { status: 200, body: "{" }], |_| Err::<TopHeadlinesResponse, _>("eof".to_string()));
    match result {
        Err(ApiClientError::InvalidRequest(m)) => assert_eq!(m, "Failed to parse response: eof"),
        other => panic!("unexpected {:?}", other.map(|_| ())),
    }

    let request = GetEverythingRequest::builder().search_term("x".to_string()).build();
    let call = client().begin_everything(&request).unwrap();
    let (result, _) =
        perform(call, &[Canned { status: 200, body: "{" }], |_| Err::<GetEverythingResponse, _>("eof".to_string()));
    match result {
        Err(ApiClientError::InvalidRequest(m)) => assert_eq!(m, "eof"),
        other => panic!("unexpected {:?}", other.map(|_| ())),
    }
}
