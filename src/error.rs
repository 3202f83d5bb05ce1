//! The error taxonomy and the classifier that turns a non-success response into one
//! of its kinds.

use vstd::prelude::*;

use crate::text::{contains_text, has_infix, same_text};
use crate::trusted::{header_error_text, json_object_members, read_json_object, reqwest_error_text};

verus! {

/// The kinds of error the service reports, plus `Unknown` for a code this library
/// does not recognise.
#[derive(Debug, Clone, Copy, PartialEq, Eq, Structural)]
pub enum ApiClientErrorCode {
    ApiKeyDisabled,
    ApiKeyExhausted,
    ApiKeyInvalid,
    ApiKeyMissing,
    ParameterInvalid,
    ParametersMissing,
    RateLimited,
    SourcesTooMany,
    SourceDoesNotExist,
    UnexpectedError,
    Unknown,
}

/// A classified error answer: the status tag, the kind, and a readable message.
#[derive(Debug)]
pub struct ApiClientErrorResponse {
    pub status: String,
    pub code: ApiClientErrorCode,
    pub message: String,
}

/// Every way a call can fail.
#[derive(Debug)]
pub enum ApiClientError {
    /// The exchange itself failed (connection, timeout, reading the body).
    Http(reqwest::Error),
    /// The request was refused locally, or a success body could not be decoded.
    InvalidRequest(String),
    /// The service answered with an error, classified.
    InvalidResponse(ApiClientErrorResponse),
    /// The API key cannot stand in an HTTP header.
    InvalidHeaderValue(reqwest::header::InvalidHeaderValue),
}

/// An error body as the service sends it: `{status, code?, message?}`.
#[derive(Debug)]
pub struct NewsApiErrorResponse {
    pub status: String,
    pub code: Option<String>,
    pub message: Option<String>,
}

/// An error body as plain text values: status, code, message.
pub type ErrorBodyView = (Seq<char>, Option<Seq<char>>, Option<Seq<char>>);

impl NewsApiErrorResponse {
    pub open spec fn body_view(&self) -> ErrorBodyView {
        (self.status@, self.code.deep_view(), self.message.deep_view())
    }
}

/// The body view of an optional error body.
pub open spec fn optional_body_view(b: Option<NewsApiErrorResponse>) -> Option<ErrorBodyView> {
    match b {
        Some(body) => Some(body.body_view()),
        None => None,
    }
}

/// Message given when a body could not be read but mentions rate limiting.
pub const RATE_LIMIT_MESSAGE: &'static str = "You have made too many requests. Rate limit exceeded.";

/// Message given when a body could not be read.
pub const UNPARSED_BODY_MESSAGE: &'static str = "Failed to parse error response";

/// Message given when a readable body carries no message.
pub const MISSING_MESSAGE: &'static str = "Unknown error";

impl ApiClientErrorCode {
    /// The wire form of each kind.
    pub open spec fn wire(self) -> Seq<char> {
        match self {
            ApiClientErrorCode::ApiKeyDisabled => "apiKeyDisabled"@,
            ApiClientErrorCode::ApiKeyExhausted => "apiKeyExhausted"@,
            ApiClientErrorCode::ApiKeyInvalid => "apiKeyInvalid"@,
            ApiClientErrorCode::ApiKeyMissing => "apiKeyMissing"@,
            ApiClientErrorCode::ParameterInvalid => "parameterInvalid"@,
            ApiClientErrorCode::ParametersMissing => "parametersMissing"@,
            ApiClientErrorCode::RateLimited => "rateLimited"@,
            ApiClientErrorCode::SourcesTooMany => "sourcesTooMany"@,
            ApiClientErrorCode::SourceDoesNotExist => "sourceDoesNotExist"@,
            ApiClientErrorCode::UnexpectedError => "unexpectedError"@,
            ApiClientErrorCode::Unknown => "unknown"@,
        }
    }

    /// The wire form of this kind, as the service writes it.
    pub fn as_str(&self) -> (r: &'static str)
        ensures
            r@ == self.wire(),
    {
        match self {
            ApiClientErrorCode::ApiKeyDisabled => "apiKeyDisabled",
            ApiClientErrorCode::ApiKeyExhausted => "apiKeyExhausted",
            ApiClientErrorCode::ApiKeyInvalid => "apiKeyInvalid",
            ApiClientErrorCode::ApiKeyMissing => "apiKeyMissing",
            ApiClientErrorCode::ParameterInvalid => "parameterInvalid",
            ApiClientErrorCode::ParametersMissing => "parametersMissing",
            ApiClientErrorCode::RateLimited => "rateLimited",
            ApiClientErrorCode::SourcesTooMany => "sourcesTooMany",
            ApiClientErrorCode::SourceDoesNotExist => "sourceDoesNotExist",
            ApiClientErrorCode::UnexpectedError => "unexpectedError",
            ApiClientErrorCode::Unknown => "unknown",
        }
    }
}

/// The nine codes the service sends, each mapped to its kind; `None` for anything else.
pub open spec fn known_code(code: Seq<char>) -> Option<ApiClientErrorCode> {
    if code == "apiKeyDisabled"@ {
        Some(ApiClientErrorCode::ApiKeyDisabled)
    } else if code == "apiKeyExhausted"@ {
        Some(ApiClientErrorCode::ApiKeyExhausted)
    } else if code == "apiKeyInvalid"@ {
        Some(ApiClientErrorCode::ApiKeyInvalid)
    } else if code == "apiKeyMissing"@ {
        Some(ApiClientErrorCode::ApiKeyMissing)
    } else if code == "parameterInvalid"@ {
        Some(ApiClientErrorCode::ParameterInvalid)
    } else if code == "parametersMissing"@ {
        Some(ApiClientErrorCode::ParametersMissing)
    } else if code == "rateLimited"@ {
        Some(ApiClientErrorCode::RateLimited)
    } else if code == "sourcesTooMany"@ {
        Some(ApiClientErrorCode::SourcesTooMany)
    } else if code == "sourceDoesNotExist"@ {
        Some(ApiClientErrorCode::SourceDoesNotExist)
    } else {
        None
    }
}

/// The kind given by the status code alone.
pub open spec fn status_fallback(status_code: u16) -> ApiClientErrorCode {
    if status_code == 429 {
        ApiClientErrorCode::RateLimited
    } else {
        ApiClientErrorCode::UnexpectedError
    }
}

/// The kind of a readable body: its code when known, else the status fallback.
pub open spec fn kind_of(code: Option<Seq<char>>, status_code: u16) -> ApiClientErrorCode {
    match code {
        Some(c) => match known_code(c) {
            Some(k) => k,
            None => status_fallback(status_code),
        },
        None => status_fallback(status_code),
    }
}

/// Whether an unreadable body speaks of rate limiting.
pub open spec fn mentions_rate_limit(text: Seq<char>) -> bool {
    has_infix(text, "too many requests"@) || has_infix(text, "rate limit"@)
}

/// The classification as plain values (status, kind, message) of a non-success
/// response, given its status code, its text, and what reading the text as an error
/// body gave.
pub open spec fn classification(
    status_code: u16,
    text: Seq<char>,
    body: Option<ErrorBodyView>,
) -> (Seq<char>, ApiClientErrorCode, Seq<char>) {
    match body {
        Some((status, code, message)) => (
            status,
            kind_of(code, status_code),
            match message {
                Some(m) => m,
                None => MISSING_MESSAGE@,
            },
        ),
        None => (
            "error"@,
            status_fallback(status_code),
            if mentions_rate_limit(text) {
                RATE_LIMIT_MESSAGE@
            } else {
                UNPARSED_BODY_MESSAGE@
            },
        ),
    }
}

impl ApiClientErrorResponse {
    pub open spec fn parts(&self) -> (Seq<char>, ApiClientErrorCode, Seq<char>) {
        (self.status@, self.code, self.message@)
    }
}

/// The kind of a code text that a readable body carried.
fn kind_for_code(code: &Option<String>, status_code: u16) -> (r: ApiClientErrorCode)
    ensures
        r == kind_of(code.deep_view(), status_code),
{
    let fallback = if status_code == 429 {
        ApiClientErrorCode::RateLimited
    } else {
        ApiClientErrorCode::UnexpectedError
    };
    match code {
        None => fallback,
        Some(c) => {
            let c = c.as_str();
            if same_text(c, "apiKeyDisabled") {
                ApiClientErrorCode::ApiKeyDisabled
            } else if same_text(c, "apiKeyExhausted") {
                ApiClientErrorCode::ApiKeyExhausted
            } else if same_text(c, "apiKeyInvalid") {
                ApiClientErrorCode::ApiKeyInvalid
            } else if same_text(c, "apiKeyMissing") {
                ApiClientErrorCode::ApiKeyMissing
            } else if same_text(c, "parameterInvalid") {
                ApiClientErrorCode::ParameterInvalid
            } else if same_text(c, "parametersMissing") {
                ApiClientErrorCode::ParametersMissing
            } else if same_text(c, "rateLimited") {
                ApiClientErrorCode::RateLimited
            } else if same_text(c, "sourcesTooMany") {
                ApiClientErrorCode::SourcesTooMany
            } else if same_text(c, "sourceDoesNotExist") {
                ApiClientErrorCode::SourceDoesNotExist
            } else {
                fallback
            }
        },
    }
}

/// Classifies a non-success response from its status code, its text, and what reading
/// the text as an error body gave (`None` when it could not be read). Never fails.
pub fn classify_error_response(
    status_code: u16,
    response_text: &str,
    body: Option<NewsApiErrorResponse>,
) -> (r: ApiClientErrorResponse)
    ensures
        r.parts() == classification(status_code, response_text@, optional_body_view(body)),
{
    match body {
        Some(body) => {
            let code = kind_for_code(&body.code, status_code);
            let message = match body.message {
                Some(m) => m,
                None => String::from_str(MISSING_MESSAGE),
            };
            ApiClientErrorResponse { status: body.status, code, message }
        },
        None => {
            let code = if status_code == 429 {
                ApiClientErrorCode::RateLimited
            } else {
                ApiClientErrorCode::UnexpectedError
            };
            let message = if contains_text(response_text, "too many requests") || contains_text(
                response_text,
                "rate limit",
            ) {
                String::from_str(RATE_LIMIT_MESSAGE)
            } else {
                String::from_str(UNPARSED_BODY_MESSAGE)
            };
            ApiClientErrorResponse { status: String::from_str("error"), code, message }
        },
    }
}

/// One member of a JSON object as read: name, text when a string, whether null.
pub type MemberView = (Seq<char>, Option<Seq<char>>, bool);

/// The first member with the given name: its text when a string, and whether it is null.
pub open spec fn member_named(members: Seq<MemberView>, name: Seq<char>) -> Option<(Option<Seq<char>>, bool)>
    decreases members.len(),
{
    if members.len() == 0 {
        None
    } else if members[0].0 == name {
        Some((members[0].1, members[0].2))
    } else {
        member_named(members.drop_first(), name)
    }
}

/// A member read as optional text: absent or null gives `Some(None)`, a string gives
/// `Some(Some(text))`, any other value cannot be read (`None`).
pub open spec fn optional_text(member: Option<(Option<Seq<char>>, bool)>) -> Option<Option<Seq<char>>> {
    match member {
        None => Some(None),
        Some((Some(t), _)) => Some(Some(t)),
        Some((None, true)) => Some(None),
        Some((None, false)) => None,
    }
}

/// The error body that an object's members make: a string `status`, and `code` and
/// `message` each absent, null or a string. `None` when they make none.
pub open spec fn error_body_of(members: Option<Seq<MemberView>>) -> Option<ErrorBodyView> {
    match members {
        None => None,
        Some(ms) => match (
            member_named(ms, "status"@),
            optional_text(member_named(ms, "code"@)),
            optional_text(member_named(ms, "message"@)),
        ) {
            (Some((Some(status), _)), Some(code), Some(message)) => Some((status, code, message)),
            _ => None,
        },
    }
}

/// Finds the first member with the given name.
fn find_member(members: &Vec<(String, Option<String>, bool)>, name: &str) -> (r: Option<
    (Option<String>, bool),
>)
    ensures
        r.deep_view() == member_named(members.deep_view(), name@),
{
    let mut i: usize = 0;
    assert(members.deep_view().subrange(0, members.len() as int) =~= members.deep_view());
    while i < members.len()
        invariant
            i <= members.len(),
            member_named(members.deep_view(), name@) == member_named(
                members.deep_view().subrange(i as int, members.len() as int),
                name@,
            ),
        decreases members.len() - i,
    {
        let ghost rest = members.deep_view().subrange(i as int, members.len() as int);
        assert(rest.drop_first() =~= members.deep_view().subrange(i + 1, members.len() as int));
        if same_text(members[i].0.as_str(), name) {
            let text = match &members[i].1 {
                Some(t) => Some(t.clone()),
                None => None,
            };
            return Some((text, members[i].2));
        }
        i = i + 1;
    }
    None
}

/// Reads an optional text member; `Err(())` when it is neither absent, null nor a string.
fn optional_member(member: Option<(Option<String>, bool)>) -> (r: Result<Option<String>, ()>)
    ensures
        r is Ok <==> optional_text(member.deep_view()) is Some,
        r is Ok ==> Some(r->Ok_0.deep_view()) == optional_text(member.deep_view()),
{
    match member {
        None => Ok(None),
        Some((Some(t), _)) => Ok(Some(t)),
        Some((None, true)) => Ok(None),
        Some((None, false)) => Err(()),
    }
}

/// Builds the error body from an object's members, as `error_body_of` describes.
pub fn error_body_from_members(members: Option<Vec<(String, Option<String>, bool)>>) -> (r: Option<
    NewsApiErrorResponse,
>)
    ensures
        optional_body_view(r) == error_body_of(members.deep_view()),
{
    let members = match members {
        Some(m) => m,
        None => return None,
    };
    let status = match find_member(&members, "status") {
        Some((Some(s), _)) => s,
        _ => return None,
    };
    let code = match optional_member(find_member(&members, "code")) {
        Ok(c) => c,
        Err(()) => return None,
    };
    let message = match optional_member(find_member(&members, "message")) {
        Ok(m) => m,
        Err(()) => return None,
    };
    Some(NewsApiErrorResponse { status, code, message })
}

/// The error body that serde_json reads from a response text, if it holds one.
pub open spec fn parsed_error_body(text: Seq<char>) -> Option<ErrorBodyView> {
    error_body_of(json_object_members(text))
}

/// Reads a response text as an error body.
pub fn read_error_body(response_text: &str) -> (r: Option<NewsApiErrorResponse>)
    ensures
        optional_body_view(r) == parsed_error_body(response_text@),
{
    error_body_from_members(read_json_object(response_text))
}

/// Classifies a non-success response from its text and status code.
pub fn parse_error_response(response_text: &str, status_code: u16) -> (r: ApiClientError)
    ensures
        r matches ApiClientError::InvalidResponse(e) && e.parts() == classification(
            status_code,
            response_text@,
            parsed_error_body(response_text@),
        ),
{
    let body = read_error_body(response_text);
    ApiClientError::InvalidResponse(classify_error_response(status_code, response_text, body))
}

impl ApiClientError {
    /// A readable account of the error, as `Display` would give it.
    pub fn describe(&self) -> (r: String)
        ensures
            self matches ApiClientError::InvalidRequest(m) ==> r@ == "Invalid request: "@ + m@,
            self matches ApiClientError::InvalidResponse(e) ==> r@ == "Invalid response: status="@
                + e.status@ + ", code="@ + e.code.wire() + ", message="@ + e.message@,
            self is InvalidHeaderValue ==> r@ == "Invalid header value: failed to parse header value"@,
            self is Http ==> "HTTP error: "@.is_prefix_of(r@),
    {
        match self {
            ApiClientError::Http(err) => {
                let mut r = String::from_str("HTTP error: ");
                r.append(reqwest_error_text(err).as_str());
                r
            },
            ApiClientError::InvalidRequest(msg) => {
                let mut r = String::from_str("Invalid request: ");
                r.append(msg.as_str());
                r
            },
            ApiClientError::InvalidResponse(e) => {
                let mut r = String::from_str("Invalid response: status=");
                r.append(e.status.as_str());
                r.append(", code=");
                r.append(e.code.as_str());
                r.append(", message=");
                r.append(e.message.as_str());
                r
            },
            ApiClientError::InvalidHeaderValue(err) => {
                let mut r = String::from_str("Invalid header value: ");
                r.append(header_error_text(err).as_str());
                proof {
                    reveal_strlit("Invalid header value: ");
                    reveal_strlit("failed to parse header value");
                    reveal_strlit("Invalid header value: failed to parse header value");
                }
                assert(r@ =~= "Invalid header value: failed to parse header value"@);
                r
            },
        }
    }
}

impl From<reqwest::Error> for ApiClientError {
    fn from(err: reqwest::Error) -> ApiClientError {
        ApiClientError::Http(err)
    }
}

impl vstd::std_specs::convert::FromSpecImpl<reqwest::Error> for ApiClientError {
    open spec fn obeys_from_spec() -> bool {
        true
    }

    open spec fn from_spec(v: reqwest::Error) -> ApiClientError {
        ApiClientError::Http(v)
    }
}

impl From<reqwest::header::InvalidHeaderValue> for ApiClientError {
    fn from(err: reqwest::header::InvalidHeaderValue) -> ApiClientError {
        ApiClientError::InvalidHeaderValue(err)
    }
}

impl vstd::std_specs::convert::FromSpecImpl<reqwest::header::InvalidHeaderValue> for ApiClientError {
    open spec fn obeys_from_spec() -> bool {
        true
    }

    open spec fn from_spec(v: reqwest::header::InvalidHeaderValue) -> ApiClientError {
        ApiClientError::InvalidHeaderValue(v)
    }
}

} // verus!
