//! What a REST response means: the class of its status code, the errors
//! that a 401, a 400 or a 429 body carries, and the API error of any other
//! failing status.

use vstd::prelude::*;
use vstd::string::StringExecFns;
use crate::auth::Authentication;
use crate::json::{
    json_bool_at, json_bool_field, json_i64_at, json_i64_field, json_is_valid, json_str_at,
    json_str_field, json_valid, lossy_utf8, opt_str_view, utf8_lossy,
};
use crate::routes::{is_search_indexing, should_retry_search_indexing};
use crate::text::{append_decimal, append_str, chars_of, copy_str, decimal, string_from_range};

verus! {

/// The number of characters of a non-JSON body quoted in an error.
pub const ERROR_PREVIEW_CHARS: usize = 200;

/// The delay after a 429 whose body is not JSON (an edge rate limit).
pub const EDGE_RATE_LIMIT_NANOS: u64 = 2_000_000_000;

/// The delay after a 429 whose body names none.
pub const DEFAULT_RETRY_AFTER_NANOS: u64 = 1_000_000_000;

/// The JSON error code of a 401 that asks for multi-factor verification.
pub const MFA_REQUIRED_CODE: i64 = 60003;

/// The class of a response status, which decides how its body is read.
#[derive(Clone, Copy, Debug, PartialEq, Eq, Structural)]
pub enum ResponseClass {
    /// 401: an invalid token, or a request for multi-factor verification.
    Unauthorized,
    /// 204: the empty (default) value.
    NoContent,
    /// 202 to a bot's message search: still indexing, retry later.
    SearchIndexing,
    /// Any other 2xx: the body is the value.
    Success,
    /// 429: rate limited.
    RateLimited,
    /// 400: a captcha request, or a bad request.
    BadRequest,
    /// Anything else: an API error.
    Failed,
}

/// How a user or bot client classifies a status.
pub open spec fn rest_class(auth: Authentication, status: u16, path: Seq<char>) -> ResponseClass {
    if status == 401 {
        ResponseClass::Unauthorized
    } else if status == 204 {
        ResponseClass::NoContent
    } else if status == 202 && is_search_indexing(auth, status, path) {
        ResponseClass::SearchIndexing
    } else if 200 <= status <= 299 {
        ResponseClass::Success
    } else if status == 429 {
        ResponseClass::RateLimited
    } else if status == 400 {
        ResponseClass::BadRequest
    } else {
        ResponseClass::Failed
    }
}

/// How a client without a session classifies a status.
pub open spec fn sessionless_class(status: u16) -> ResponseClass {
    if status == 204 {
        ResponseClass::NoContent
    } else if 200 <= status <= 299 {
        ResponseClass::Success
    } else if status == 429 {
        ResponseClass::RateLimited
    } else if status == 400 {
        ResponseClass::BadRequest
    } else {
        ResponseClass::Failed
    }
}

/// Only a bot's message search is told to retry while indexing: for a
/// user, or another path, a 202 is a plain success.
pub proof fn law_search_indexing_scope(auth: Authentication, status: u16, path: Seq<char>)
    ensures
        rest_class(auth, status, path) == ResponseClass::SearchIndexing <==> (auth
            == Authentication::Bot && status == 202 && crate::text::has_suffix(
            path,
            crate::routes::search_suffix(),
        )),
        status == 202 && !is_search_indexing(auth, status, path) ==> rest_class(auth, status, path)
            == ResponseClass::Success,
{
}

/// A user client and a client without a session agree on every status but
/// 401, which only the former reads as an authorization failure.
pub proof fn law_sessionless_agrees_with_user(status: u16, path: Seq<char>)
    ensures
        status != 401 ==> sessionless_class(status) == rest_class(
            Authentication::User,
            status,
            path,
        ),
        status == 401 ==> sessionless_class(status) == ResponseClass::Failed,
{
}

/// How each status is read by a user or bot client: 401 is an
/// authorization failure, 204 the empty value, a bot's 202 to a message
/// search a request to retry, every other 2xx a success whose body is the
/// value, 429 a rate limit, 400 a bad request, and anything else an API
/// error.
pub proof fn law_rest_status_classes(auth: Authentication, status: u16, path: Seq<char>)
    ensures
        status == 401 ==> rest_class(auth, status, path) == ResponseClass::Unauthorized,
        status == 204 ==> rest_class(auth, status, path) == ResponseClass::NoContent,
        (auth == Authentication::Bot && status == 202 && crate::text::has_suffix(
            path,
            "/messages/search"@,
        )) ==> rest_class(auth, status, path) == ResponseClass::SearchIndexing,
        (200 <= status <= 299 && status != 204 && !(auth == Authentication::Bot && status == 202
            && crate::text::has_suffix(path, "/messages/search"@))) ==> rest_class(
            auth,
            status,
            path,
        ) == ResponseClass::Success,
        status == 429 ==> rest_class(auth, status, path) == ResponseClass::RateLimited,
        status == 400 ==> rest_class(auth, status, path) == ResponseClass::BadRequest,
        (!(200 <= status <= 299) && status != 401 && status != 429 && status != 400) ==> rest_class(
            auth,
            status,
            path,
        ) == ResponseClass::Failed,
{
}

/// How each status is read by a client without a session: 204 is the
/// empty value, every other 2xx a success, 429 a rate limit, 400 a bad
/// request, and anything else (401 too) an API error.
pub proof fn law_sessionless_status_classes(status: u16)
    ensures
        status == 204 ==> sessionless_class(status) == ResponseClass::NoContent,
        (200 <= status <= 299 && status != 204) ==> sessionless_class(status)
            == ResponseClass::Success,
        status == 429 ==> sessionless_class(status) == ResponseClass::RateLimited,
        status == 400 ==> sessionless_class(status) == ResponseClass::BadRequest,
        (!(200 <= status <= 299) && status != 429 && status != 400) ==> sessionless_class(status)
            == ResponseClass::Failed,
{
}

/// The class of a response with `status` to a request for `path`.
pub fn classify_rest_status(authentication: Authentication, status: u16, path: &str) -> (c:
    ResponseClass)
    ensures
        c == rest_class(authentication, status, path@),
{
    if status == 401 {
        ResponseClass::Unauthorized
    } else if status == 204 {
        ResponseClass::NoContent
    } else if status == 202 && should_retry_search_indexing(authentication, status, path) {
        ResponseClass::SearchIndexing
    } else if 200 <= status && status <= 299 {
        ResponseClass::Success
    } else if status == 429 {
        ResponseClass::RateLimited
    } else if status == 400 {
        ResponseClass::BadRequest
    } else {
        ResponseClass::Failed
    }
}

/// The class of a response with `status`, for a client without a session.
pub fn classify_sessionless_status(status: u16) -> (c: ResponseClass)
    ensures
        c == sessionless_class(status),
{
    if status == 204 {
        ResponseClass::NoContent
    } else if 200 <= status && status <= 299 {
        ResponseClass::Success
    } else if status == 429 {
        ResponseClass::RateLimited
    } else if status == 400 {
        ResponseClass::BadRequest
    } else {
        ResponseClass::Failed
    }
}

/// An error response of the API, with the body as it came and the code and
/// message that its JSON holds.
#[derive(Debug)]
pub struct DiscordApiError {
    pub status: u16,
    pub code: Option<i64>,
    pub message: Option<String>,
    pub body: String,
    pub url: String,
}

impl DiscordApiError {
    /// The error for a response with `status` to `url` and body `bytes`.
    pub fn from_body(status: u16, url: &str, bytes: &[u8]) -> (e: DiscordApiError)
        ensures
            e.status == status,
            e.code == json_i64_at(bytes@, "code"@),
            opt_str_view(e.message) == json_str_at(bytes@, "message"@),
            e.body@ == lossy_utf8(bytes@),
            e.url@ == url@,
    {
        let body = utf8_lossy(bytes);
        let code = json_i64_field(bytes, "code");
        let message = json_str_field(bytes, "message");
        DiscordApiError { status, code, message, body, url: copy_str(url) }
    }

    /// The text of the error: `Request to <url> failed with code <status>: <body>`.
    pub fn to_message(&self) -> (s: String)
        ensures
            s@ == "Request to "@ + self.url@ + " failed with code "@ + decimal(self.status as nat)
                + ": "@ + self.body@,
    {
        let mut s = copy_str("Request to ");
        append_str(&mut s, self.url.as_str());
        append_str(&mut s, " failed with code ");
        append_decimal(&mut s, self.status as u64);
        append_str(&mut s, ": ");
        append_str(&mut s, self.body.as_str());
        s
    }
}

/// The first characters of `s`, at most `n` of them.
pub open spec fn prefix_upto(s: Seq<char>, n: nat) -> Seq<char> {
    if s.len() <= n {
        s
    } else {
        s.subrange(0, n as int)
    }
}

/// The error for a failing response whose body is not JSON.
pub open spec fn non_json_message(url: Seq<char>, status: u16, bytes: Seq<u8>) -> Seq<char> {
    "Request to "@ + url + " failed with code "@ + decimal(status as nat)
        + " and a non-JSON body (likely a Cloudflare block rather than a Discord API response): "@
        + prefix_upto(lossy_utf8(bytes), ERROR_PREVIEW_CHARS as nat)
}

/// Checks that an error body is JSON; if it is not, the error says so and
/// quotes the start of the body.
pub fn parse_error_body(bytes: &[u8], status: u16, url: &str) -> (r: Result<(), String>)
    ensures
        r is Ok <==> json_valid(bytes@),
        r matches Err(m) ==> m@ == non_json_message(url@, status, bytes@),
{
    if json_is_valid(bytes) {
        return Ok(());
    }
    let text = utf8_lossy(bytes);
    let chars = chars_of(text.as_str());
    let n = if chars.len() <= ERROR_PREVIEW_CHARS {
        chars.len()
    } else {
        ERROR_PREVIEW_CHARS
    };
    let preview = string_from_range(&chars, 0, n);
    proof {
        assert(chars@.subrange(0, chars@.len() as int) =~= chars@);
    }
    let mut m = copy_str("Request to ");
    append_str(&mut m, url);
    append_str(&mut m, " failed with code ");
    append_decimal(&mut m, status as u64);
    append_str(
        &mut m,
        " and a non-JSON body (likely a Cloudflare block rather than a Discord API response): ",
    );
    append_str(&mut m, preview.as_str());
    Err(m)
}

/// What a 401 means.
#[derive(Clone, Copy, Debug, PartialEq, Eq, Structural)]
pub enum UnauthorizedKind {
    /// The account asks for multi-factor verification (its body has `mfa`).
    MfaRequired,
    /// The token is not accepted.
    InvalidToken,
}

/// What a 401 whose JSON body holds `code` (as read) means: the code 60003
/// asks for multi-factor verification, anything else refuses the token.
pub fn unauthorized_kind(code: Option<i64>) -> (k: UnauthorizedKind)
    ensures
        k == (if code == Some(MFA_REQUIRED_CODE) {
            UnauthorizedKind::MfaRequired
        } else {
            UnauthorizedKind::InvalidToken
        }),
{
    match code {
        Some(c) => if c == MFA_REQUIRED_CODE {
            UnauthorizedKind::MfaRequired
        } else {
            UnauthorizedKind::InvalidToken
        },
        None => UnauthorizedKind::InvalidToken,
    }
}

/// Reads the body of a 401: not JSON is an error of its own; the code
/// 60003 asks for multi-factor verification; anything else means the
/// token is invalid.
pub fn classify_unauthorized(bytes: &[u8], url: &str) -> (r: Result<UnauthorizedKind, String>)
    ensures
        r is Err <==> !json_valid(bytes@),
        r matches Err(m) ==> m@ == non_json_message(url@, 401, bytes@),
        r matches Ok(k) ==> (k == UnauthorizedKind::MfaRequired <==> json_i64_at(bytes@, "code"@)
            == Some(MFA_REQUIRED_CODE)),
{
    match parse_error_body(bytes, 401, url) {
        Err(m) => Err(m),
        Ok(()) => Ok(unauthorized_kind(json_i64_field(bytes, "code"))),
    }
}

/// What a 400 means.
#[derive(Clone, Copy, Debug, PartialEq, Eq, Structural)]
pub enum BadRequestKind {
    /// The body asks for a captcha (it has a string `captcha_sitekey`).
    CaptchaRequired,
    /// A plain bad request.
    Other,
}

/// What a 400 whose JSON body holds `captcha_sitekey` (as read, a string
/// or nothing) means: a captcha request when there is one.
pub fn bad_request_kind(captcha_sitekey: &Option<String>) -> (k: BadRequestKind)
    ensures
        k == (if captcha_sitekey is Some {
            BadRequestKind::CaptchaRequired
        } else {
            BadRequestKind::Other
        }),
{
    if captcha_sitekey.is_some() {
        BadRequestKind::CaptchaRequired
    } else {
        BadRequestKind::Other
    }
}

/// Reads the body of a 400: not JSON is an error of its own; a string
/// `captcha_sitekey` asks for a captcha; anything else is a bad request.
pub fn classify_bad_request(bytes: &[u8], url: &str) -> (r: Result<BadRequestKind, String>)
    ensures
        r is Err <==> !json_valid(bytes@),
        r matches Err(m) ==> m@ == non_json_message(url@, 400, bytes@),
        r matches Ok(k) ==> (k == BadRequestKind::CaptchaRequired <==> json_str_at(
            bytes@,
            "captcha_sitekey"@,
        ) is Some),
{
    match parse_error_body(bytes, 400, url) {
        Err(m) => Err(m),
        Ok(()) => {
            let sitekey = json_str_field(bytes, "captcha_sitekey");
            Ok(bad_request_kind(&sitekey))
        },
    }
}

/// The error of a 400 that does not ask for a captcha.
pub fn bad_request_message() -> (s: String)
    ensures
        s@ == "Bad request"@,
{
    String::from_str("Bad request")
}

/// The error of a 401 that does not ask for multi-factor verification.
pub fn invalid_token_error() -> (s: String)
    ensures
        s@ == "Invalid token"@,
{
    String::from_str("Invalid token")
}

/// The error for a 400 body: a captcha request when the body is JSON with
/// a string `captcha_sitekey`, the API error otherwise.
pub enum BadRequestError {
    CaptchaRequired,
    Api(DiscordApiError),
}

/// The error for a 400 with body `bytes` from `url`.
pub fn bad_request_error(bytes: &[u8], url: &str) -> (e: BadRequestError)
    ensures
        e is CaptchaRequired <==> (json_valid(bytes@) && json_str_at(bytes@, "captcha_sitekey"@) is Some),
        e matches BadRequestError::Api(a) ==> a.status == 400 && a.url@ == url@ && a.body@
            == lossy_utf8(bytes@) && a.code == json_i64_at(bytes@, "code"@),
{
    if json_is_valid(bytes) {
        let sitekey = json_str_field(bytes, "captcha_sitekey");
        if bad_request_kind(&sitekey) == BadRequestKind::CaptchaRequired {
            return BadRequestError::CaptchaRequired;
        }
    }
    BadRequestError::Api(DiscordApiError::from_body(400, url, bytes))
}

/// A 429: how long to wait, and whether the limit is global.
#[derive(Clone, Copy, Debug, PartialEq, Eq, Structural)]
pub struct RateLimitError {
    /// Nanoseconds to wait.
    pub retry_after: u64,
    pub global: bool,
}

impl RateLimitError {
    /// A rate limit of `retry_after` nanoseconds.
    pub fn new(retry_after: u64, global: bool) -> (e: RateLimitError)
        ensures
            e.retry_after == retry_after,
            e.global == global,
    {
        RateLimitError { retry_after, global }
    }
}

/// The rate limit a 429 body gives, from what was read of it: whether it is
/// JSON, its `retry_after` in nanoseconds and its `global`. A JSON body
/// gives its delay (one second when it names none) and is global only when
/// it says `true`; any other body is an edge rate limit of two seconds on
/// the route.
pub fn rate_limit_decision(is_json: bool, retry_after: Option<u64>, global: Option<bool>) -> (e:
    RateLimitError)
    ensures
        e == (if is_json {
            RateLimitError::new_spec(
                match retry_after {
                    Some(d) => d,
                    None => DEFAULT_RETRY_AFTER_NANOS,
                },
                global == Some(true),
            )
        } else {
            RateLimitError::new_spec(EDGE_RATE_LIMIT_NANOS, false)
        }),
{
    if is_json {
        let delay = match retry_after {
            Some(d) => d,
            None => DEFAULT_RETRY_AFTER_NANOS,
        };
        let g = match global {
            Some(g) => g,
            None => false,
        };
        RateLimitError::new(delay, g)
    } else {
        RateLimitError::new(EDGE_RATE_LIMIT_NANOS, false)
    }
}

/// Reads a 429 body. A JSON body gives the delay in `retry_after` (one
/// second when it names none) and whether the limit is `global` (not when
/// it does not say); a body that is not JSON comes from an edge rate limit
/// and means two seconds on the route. `retry_after` is the body's
/// `retry_after` field in nanoseconds, where it holds a number.
pub fn rate_limit_from_body(bytes: &[u8], retry_after: Option<u64>) -> (e: RateLimitError)
    ensures
        json_valid(bytes@) ==> e.retry_after == (match retry_after {
            Some(d) => d,
            None => DEFAULT_RETRY_AFTER_NANOS,
        }) && e.global == (json_bool_at(bytes@, "global"@) == Some(true)),
        !json_valid(bytes@) ==> e == RateLimitError::new_spec(EDGE_RATE_LIMIT_NANOS, false),
{
    let is_json = json_is_valid(bytes);
    let global = if is_json {
        json_bool_field(bytes, "global")
    } else {
        None
    };
    rate_limit_decision(is_json, retry_after, global)
}

impl RateLimitError {
    /// The rate limit of `retry_after` nanoseconds.
    pub open spec fn new_spec(retry_after: u64, global: bool) -> RateLimitError {
        RateLimitError { retry_after, global }
    }
}

/// What a response comes to, for the caller of a request.
#[derive(Debug)]
pub enum ResponseOutcome {
    /// The default value: a 204, or a success with an empty body.
    DefaultValue,
    /// A success whose body is the value.
    Decode,
    /// A bot's message search is still indexing.
    SearchIndexing,
    /// A 401 asking for multi-factor verification.
    MfaRequired,
    /// A 401 refusing the token, with its message.
    InvalidToken(String),
    /// A 429.
    RateLimited(RateLimitError),
    /// A 400 asking for a captcha.
    CaptchaRequired,
    /// Another 400, with its message.
    BadRequest(String),
    /// A 400 or 401 whose body is not JSON, with its message.
    NonJsonError(String),
    /// Any other failure.
    Api(DiscordApiError),
}

/// The outcome of a 401, 400 or 429, or of another failure, as the
/// classes say; `retry_after` is the 429 body's delay in nanoseconds.
pub open spec fn failure_outcome_ok(
    class: ResponseClass,
    status: u16,
    url: Seq<char>,
    bytes: Seq<u8>,
    retry_after: Option<u64>,
    o: ResponseOutcome,
) -> bool {
    match class {
        ResponseClass::Unauthorized => if !json_valid(bytes) {
            o matches ResponseOutcome::NonJsonError(m) && m@ == non_json_message(url, 401, bytes)
        } else if json_i64_at(bytes, "code"@) == Some(MFA_REQUIRED_CODE) {
            o is MfaRequired
        } else {
            o matches ResponseOutcome::InvalidToken(m) && m@ == "Invalid token"@
        },
        ResponseClass::RateLimited => o matches ResponseOutcome::RateLimited(e) && (if json_valid(
            bytes,
        ) {
            e.retry_after == (match retry_after {
                Some(d) => d,
                None => DEFAULT_RETRY_AFTER_NANOS,
            }) && e.global == (json_bool_at(bytes, "global"@) == Some(true))
        } else {
            e == RateLimitError::new_spec(EDGE_RATE_LIMIT_NANOS, false)
        }),
        ResponseClass::BadRequest => if !json_valid(bytes) {
            o matches ResponseOutcome::NonJsonError(m) && m@ == non_json_message(url, 400, bytes)
        } else if json_str_at(bytes, "captcha_sitekey"@) is Some {
            o is CaptchaRequired
        } else {
            o matches ResponseOutcome::BadRequest(m) && m@ == "Bad request"@
        },
        ResponseClass::Failed => o matches ResponseOutcome::Api(e) && e.status == status && e.url@
            == url && e.body@ == lossy_utf8(bytes) && e.code == json_i64_at(bytes, "code"@)
            && opt_str_view(e.message) == json_str_at(bytes, "message"@),
        ResponseClass::SearchIndexing => o is SearchIndexing,
        ResponseClass::NoContent => o is DefaultValue,
        ResponseClass::Success => if bytes.len() == 0 {
            o is DefaultValue
        } else {
            o is Decode
        },
    }
}

/// What a response of a given class comes to.
fn outcome_of_class(
    class: ResponseClass,
    status: u16,
    url: &str,
    bytes: &[u8],
    retry_after: Option<u64>,
) -> (o: ResponseOutcome)
    ensures
        failure_outcome_ok(class, status, url@, bytes@, retry_after, o),
{
    match class {
        ResponseClass::Unauthorized => match classify_unauthorized(bytes, url) {
            Err(m) => ResponseOutcome::NonJsonError(m),
            Ok(UnauthorizedKind::MfaRequired) => ResponseOutcome::MfaRequired,
            Ok(UnauthorizedKind::InvalidToken) => ResponseOutcome::InvalidToken(invalid_token_error()),
        },
        ResponseClass::NoContent => ResponseOutcome::DefaultValue,
        ResponseClass::SearchIndexing => ResponseOutcome::SearchIndexing,
        ResponseClass::Success => if bytes.len() == 0 {
            ResponseOutcome::DefaultValue
        } else {
            ResponseOutcome::Decode
        },
        ResponseClass::RateLimited => ResponseOutcome::RateLimited(
            rate_limit_from_body(bytes, retry_after),
        ),
        ResponseClass::BadRequest => match classify_bad_request(bytes, url) {
            Err(m) => ResponseOutcome::NonJsonError(m),
            Ok(BadRequestKind::CaptchaRequired) => ResponseOutcome::CaptchaRequired,
            Ok(BadRequestKind::Other) => ResponseOutcome::BadRequest(bad_request_message()),
        },
        ResponseClass::Failed => ResponseOutcome::Api(DiscordApiError::from_body(status, url, bytes)),
    }
}

/// What a response with `status` and body `bytes` to a request of a user
/// or bot client for `path` (at `url`) comes to; `retry_after` is the
/// delay a 429 body names, in nanoseconds.
pub fn interpret_rest_response(
    authentication: Authentication,
    status: u16,
    path: &str,
    url: &str,
    bytes: &[u8],
    retry_after: Option<u64>,
) -> (o: ResponseOutcome)
    ensures
        failure_outcome_ok(rest_class(authentication, status, path@), status, url@, bytes@, retry_after, o),
{
    let class = classify_rest_status(authentication, status, path);
    outcome_of_class(class, status, url, bytes, retry_after)
}

/// What a response with `status` and body `bytes` to a request of a client
/// without a session (at `url`) comes to.
pub fn interpret_sessionless_response(
    status: u16,
    url: &str,
    bytes: &[u8],
    retry_after: Option<u64>,
) -> (o: ResponseOutcome)
    ensures
        failure_outcome_ok(sessionless_class(status), status, url@, bytes@, retry_after, o),
{
    let class = classify_sessionless_status(status);
    outcome_of_class(class, status, url, bytes, retry_after)
}

/// What each class of response comes to: a 204 or an empty success the
/// default value, another success its decoded body; a 401 asking with code
/// 60003 for multi-factor verification, another 401 an invalid token; a
/// 400 with a string `captcha_sitekey` a captcha request, another 400 a bad
/// request; a 429 the delay its body names (one second when none, and
/// global only when it says so), or two seconds on the route when the body
/// is not JSON; a 400 or 401 whose body is not JSON an error of its own;
/// anything else the API error with its status.
pub proof fn law_response_outcomes(
    class: ResponseClass,
    status: u16,
    url: Seq<char>,
    bytes: Seq<u8>,
    retry_after: Option<u64>,
    o: ResponseOutcome,
)
    requires
        failure_outcome_ok(class, status, url, bytes, retry_after, o),
    ensures
        class == ResponseClass::NoContent ==> o is DefaultValue,
        (class == ResponseClass::Success && bytes.len() == 0) ==> o is DefaultValue,
        (class == ResponseClass::Success && bytes.len() > 0) ==> o is Decode,
        class == ResponseClass::SearchIndexing ==> o is SearchIndexing,
        (class == ResponseClass::Unauthorized && json_valid(bytes) && json_i64_at(bytes, "code"@)
            == Some(60003i64)) ==> o is MfaRequired,
        (class == ResponseClass::Unauthorized && json_valid(bytes) && json_i64_at(bytes, "code"@)
            != Some(60003i64)) ==> (o matches ResponseOutcome::InvalidToken(m) && m@
            == "Invalid token"@),
        (class == ResponseClass::BadRequest && json_valid(bytes) && json_str_at(
            bytes,
            "captcha_sitekey"@,
        ) is Some) ==> o is CaptchaRequired,
        (class == ResponseClass::BadRequest && json_valid(bytes) && json_str_at(
            bytes,
            "captcha_sitekey"@,
        ) is None) ==> (o matches ResponseOutcome::BadRequest(m) && m@ == "Bad request"@),
        ((class == ResponseClass::BadRequest || class == ResponseClass::Unauthorized) && !json_valid(
            bytes,
        )) ==> o is NonJsonError,
        (class == ResponseClass::RateLimited && !json_valid(bytes)) ==> (o matches ResponseOutcome::RateLimited(e)
            && e.retry_after == 2_000_000_000 && !e.global),
        (class == ResponseClass::RateLimited && json_valid(bytes)) ==> (o matches ResponseOutcome::RateLimited(e)
            && e.retry_after == (match retry_after {
            Some(d) => d,
            None => 1_000_000_000,
        }) && e.global == (json_bool_at(bytes, "global"@) == Some(true))),
        class == ResponseClass::Failed ==> (o matches ResponseOutcome::Api(e) && e.status == status
            && e.url@ == url),
{
}

} // verus!
