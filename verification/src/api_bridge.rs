//! Mapping provider API errors onto the thread-level error taxonomy, and
//! picking the credential a request goes out with.
use vstd::prelude::*;
use vstd::string::StringExecFns;
use crate::client::ModelProviderInfo;
use crate::error::ModelCapError;
use crate::error::RetryLimitReachedError;
use crate::error::RuneErr;
use crate::error::UnexpectedResponseError;
use crate::error::UsageLimitReachedError;
use crate::protocol::RateLimitSnapshot;
use crate::protocol::RateLimitWindow;
use crate::text::parse_u64;
use crate::text::parse_u64_spec;
use crate::text::seq_contains_sub;
use crate::text::str_contains;
use crate::text::str_eq;

verus! {

/// One response header, name already lowercased as the transport delivers it.
#[derive(Clone, Debug, PartialEq, Eq)]
pub struct Header {
    pub name: String,
    pub value: String,
}

/// An error as the provider API transport reports it.
#[derive(Clone, Debug, PartialEq, Eq)]
pub enum TransportError {
    Http { status: u16, url: Option<String>, headers: Option<Vec<Header>>, body: Option<String> },
    RetryLimit,
    Timeout,
    Network(String),
    Build(String),
}

/// An error as the provider API surface reports it.
#[derive(Clone, Debug, PartialEq, Eq)]
pub enum ApiError {
    ContextWindowExceeded,
    QuotaExceeded,
    UsageNotIncluded,
    /// A retryable failure, with an optional delay in milliseconds.
    Retryable { message: String, delay_ms: Option<u64> },
    Stream(String),
    Api { status: u16, message: String },
    InvalidRequest { message: String },
    Transport(TransportError),
    RateLimit(String),
}

pub open spec fn str_view_opt(o: Option<String>) -> Option<Seq<char>> {
    match o {
        Some(s) => Some(s@),
        None => None,
    }
}

pub open spec fn body_text_view(body: Option<String>) -> Seq<char> {
    match body {
        Some(b) => b@,
        None => Seq::<char>::empty(),
    }
}

/// The value of the first header whose name is `name`.
pub open spec fn header_lookup(hs: Seq<Header>, name: Seq<char>) -> Option<Seq<char>>
    decreases hs.len(),
{
    if hs.len() == 0 {
        None
    } else if hs[0].name@ == name {
        Some(hs[0].value@)
    } else {
        header_lookup(hs.drop_first(), name)
    }
}

pub open spec fn extract_header_spec(hs: Option<Seq<Header>>, name: Seq<char>) -> Option<Seq<char>> {
    match hs {
        Some(hs) => header_lookup(hs, name),
        None => None,
    }
}

pub open spec fn opt_headers_view(hs: Option<&Vec<Header>>) -> Option<Seq<Header>> {
    match hs {
        Some(hs) => Some(hs@),
        None => None,
    }
}

proof fn lemma_header_lookup_at(hs: Seq<Header>, name: Seq<char>, i: int)
    requires
        0 <= i <= hs.len(),
        forall|j: int| 0 <= j < i ==> hs[j].name@ != name,
    ensures
        header_lookup(hs, name) == header_lookup(hs.skip(i), name),
    decreases i,
{
    if i > 0 {
        lemma_header_lookup_at(hs, name, i - 1);
        assert(hs.skip(i - 1).len() > 0);
        assert(hs.skip(i - 1)[0] == hs[i - 1]);
        assert(hs.skip(i - 1).drop_first() =~= hs.skip(i));
    } else {
        assert(hs.skip(0) =~= hs);
    }
}

/// The value of the first header named `name`, cloned out.
pub fn extract_header(headers: Option<&Vec<Header>>, name: &str) -> (r: Option<String>)
    ensures
        str_view_opt(r) == extract_header_spec(opt_headers_view(headers), name@),
{
    match headers {
        None => None,
        Some(hs) => {
            proof {
                assert(opt_headers_view(headers) == Some(hs@));
            }
            let n = hs.len();
            for i in 0..n
                invariant
                    n == hs@.len(),
                    opt_headers_view(headers) == Some(hs@),
                    forall|j: int| 0 <= j < i ==> hs@[j].name@ != name@,
            {
                if str_eq(hs[i].name.as_str(), name) {
                    proof {
                        lemma_header_lookup_at(hs@, name@, i as int);
                        assert(hs@.skip(i as int).len() > 0);
                        assert(hs@.skip(i as int)[0] == hs@[i as int]);
                        assert(header_lookup(hs@.skip(i as int), name@) == Some(
                            hs@[i as int].value@,
                        ));
                    }
                    return Some(hs[i].value.clone());
                }
            }
            proof {
                lemma_header_lookup_at(hs@, name@, n as int);
                assert(hs@.skip(n as int).len() == 0);
            }
            None
        },
    }
}

/// The request id the provider echoed back, from either of its two headers.
pub open spec fn request_id_spec(hs: Option<Seq<Header>>) -> Option<Seq<char>> {
    match extract_header_spec(hs, "x-request-id"@) {
        Some(v) => Some(v),
        None => extract_header_spec(hs, "x-oai-request-id"@),
    }
}

pub fn extract_request_id(headers: Option<&Vec<Header>>) -> (r: Option<String>)
    ensures
        str_view_opt(r) == request_id_spec(opt_headers_view(headers)),
{
    match extract_header(headers, "x-request-id") {
        Some(v) => Some(v),
        None => extract_header(headers, "x-oai-request-id"),
    }
}

/// A best-effort id for support requests: the request id, else the CDN ray.
pub open spec fn tracking_id_spec(hs: Option<Seq<Header>>) -> Option<Seq<char>> {
    match request_id_spec(hs) {
        Some(v) => Some(v),
        None => extract_header_spec(hs, "cf-ray"@),
    }
}

pub fn extract_request_tracking_id(headers: Option<&Vec<Header>>) -> (r: Option<String>)
    ensures
        str_view_opt(r) == tracking_id_spec(opt_headers_view(headers)),
{
    match extract_request_id(headers) {
        Some(v) => Some(v),
        None => extract_header(headers, "cf-ray"),
    }
}

/// The usage-error body a 429 response may carry.
#[derive(Clone, Debug, PartialEq, Eq)]
pub struct UsageError {
    pub error_type: Option<String>,
    pub plan_type: Option<String>,
    pub resets_at: Option<i64>,
}

/// The ghost shape of a parsed usage-error body.
pub ghost struct UsageErrorView {
    pub error_type: Option<Seq<char>>,
    pub plan_type: Option<Seq<char>>,
    pub resets_at: Option<i64>,
}

impl View for UsageError {
    type V = UsageErrorView;

    open spec fn view(&self) -> UsageErrorView {
        UsageErrorView {
            error_type: str_view_opt(self.error_type),
            plan_type: str_view_opt(self.plan_type),
            resets_at: self.resets_at,
        }
    }
}

/// What parsing a usage-error body yields: a function of the text alone.
pub uninterp spec fn usage_error_of(body: Seq<char>) -> Option<UsageErrorView>;

/// Relies on serde_json::from_str and serde_json::Value::{get, as_str,
/// as_i64}: reads `{"error": {"type", "plan_type", "resets_at"}}` out of a
/// response body; the result depends on the text alone.
#[verifier::external_body]
fn parse_usage_error(body: &str) -> (r: Option<UsageError>)
    ensures
        match r {
            Some(u) => usage_error_of(body@) == Some(u@),
            None => usage_error_of(body@) is None,
        },
{
    let v: serde_json::Value = match serde_json::from_str(body) {
        Ok(v) => v,
        Err(_) => return None,
    };
    let e = v.get("error")?;
    Some(UsageError {
        error_type: e.get("type").and_then(|t| t.as_str()).map(str::to_string),
        plan_type: e.get("plan_type").and_then(|t| t.as_str()).map(str::to_string),
        resets_at: e.get("resets_at").and_then(|t| t.as_i64()),
    })
}

/// Whether chrono can represent this many seconds since the epoch.
pub uninterp spec fn utc_timestamp_in_range(secs: i64) -> bool;

/// Relies on chrono::DateTime::<Utc>::from_timestamp: `Some` exactly on an
/// in-range number of seconds, determined by the argument alone.
#[verifier::external_body]
fn timestamp_in_range(secs: i64) -> (r: bool)
    ensures
        r == utc_timestamp_in_range(secs),
{
    chrono::DateTime::<chrono::Utc>::from_timestamp(secs, 0).is_some()
}

pub open spec fn reset_after_spec(hs: Option<Seq<Header>>) -> Option<u64> {
    match extract_header_spec(hs, "x-rune-model-cap-reset-after-seconds"@) {
        Some(v) => parse_u64_spec(v),
        None => None,
    }
}

/// A header parsed as a decimal number, when present.
pub open spec fn header_u64_spec(hs: Option<Seq<Header>>, name: Seq<char>) -> Option<u64> {
    match extract_header_spec(hs, name) {
        Some(v) => parse_u64_spec(v),
        None => None,
    }
}

fn header_u64(headers: Option<&Vec<Header>>, name: &str) -> (r: Option<u64>)
    ensures
        r == header_u64_spec(opt_headers_view(headers), name@),
{
    match extract_header(headers, name) {
        Some(v) => parse_u64(v.as_str()),
        None => None,
    }
}

/// One rate-limit window read from its pair of headers: present exactly when
/// the used-percent header carries a number.
pub open spec fn rate_limit_window_spec(
    hs: Option<Seq<Header>>,
    used_name: Seq<char>,
    reset_name: Seq<char>,
) -> Option<RateLimitWindow> {
    match header_u64_spec(hs, used_name) {
        Some(u) => Some(
            RateLimitWindow { used_percent: u, resets_in_seconds: header_u64_spec(hs, reset_name) },
        ),
        None => None,
    }
}

/// The rate-limit standing the response headers carry: a snapshot exactly
/// when at least one window is reported.
pub open spec fn rate_limits_spec(hs: Option<Seq<Header>>) -> Option<RateLimitSnapshot> {
    if rate_limit_window_spec(
        hs,
        "x-rune-primary-used-percent"@,
        "x-rune-primary-reset-after-seconds"@,
    ) is Some || rate_limit_window_spec(
        hs,
        "x-rune-secondary-used-percent"@,
        "x-rune-secondary-reset-after-seconds"@,
    ) is Some {
        Some(
            RateLimitSnapshot {
                primary: rate_limit_window_spec(
                    hs,
                    "x-rune-primary-used-percent"@,
                    "x-rune-primary-reset-after-seconds"@,
                ),
                secondary: rate_limit_window_spec(
                    hs,
                    "x-rune-secondary-used-percent"@,
                    "x-rune-secondary-reset-after-seconds"@,
                ),
            },
        )
    } else {
        None
    }
}

fn rate_limit_window(headers: Option<&Vec<Header>>, used_name: &str, reset_name: &str) -> (r:
    Option<RateLimitWindow>)
    ensures
        r == rate_limit_window_spec(opt_headers_view(headers), used_name@, reset_name@),
{
    match header_u64(headers, used_name) {
        Some(u) => Some(
            RateLimitWindow {
                used_percent: u,
                resets_in_seconds: header_u64(headers, reset_name),
            },
        ),
        None => None,
    }
}

/// Read the rate-limit standing out of the response headers.
pub fn parse_rate_limit(headers: Option<&Vec<Header>>) -> (r: Option<RateLimitSnapshot>)
    ensures
        r == rate_limits_spec(opt_headers_view(headers)),
{
    let primary = rate_limit_window(
        headers,
        "x-rune-primary-used-percent",
        "x-rune-primary-reset-after-seconds",
    );
    let secondary = rate_limit_window(
        headers,
        "x-rune-secondary-used-percent",
        "x-rune-secondary-reset-after-seconds",
    );
    if primary.is_some() || secondary.is_some() {
        Some(RateLimitSnapshot { primary, secondary })
    } else {
        None
    }
}

/// The promotional note the response headers carry, when one is set.
pub open spec fn promo_message_spec(hs: Option<Seq<Header>>) -> Option<Seq<char>> {
    extract_header_spec(hs, "x-rune-promo-message"@)
}

/// Read the promotional note out of the response headers.
pub fn parse_promo_message(headers: Option<&Vec<Header>>) -> (r: Option<String>)
    ensures
        str_view_opt(r) == promo_message_spec(opt_headers_view(headers)),
{
    extract_header(headers, "x-rune-promo-message")
}

/// A retry-limit error for `status`, with the tracking id from the headers.
pub open spec fn retry_limit_ok(status: u16, hs: Option<Seq<Header>>, r: RuneErr) -> bool {
    &&& r matches RuneErr::RetryLimit(rl)
    &&& rl.status == status
    &&& str_view_opt(rl.request_id) == tracking_id_spec(hs)
}

/// What an HTTP transport error maps to, branch by branch.
pub open spec fn http_error_maps_ok(
    status: u16,
    url: Option<String>,
    headers: Option<Vec<Header>>,
    body: Option<String>,
    r: RuneErr,
) -> bool {
    let bt = body_text_view(body);
    let hs = match headers {
        Some(h) => Some(h@),
        None => None,
    };
    if status == 400 {
        if seq_contains_sub(bt, "The image data you provided does not represent a valid image"@) {
            r == RuneErr::InvalidImageRequest
        } else {
            r matches RuneErr::InvalidRequest(b) && b@ == bt
        }
    } else if status == 500 {
        r == RuneErr::InternalServerError
    } else if status == 429 {
        match extract_header_spec(hs, "x-rune-model-cap-model"@) {
            Some(model) => {
                &&& r matches RuneErr::ModelCap(mc)
                &&& mc.model@ == model
                &&& mc.reset_after_seconds == reset_after_spec(hs)
            },
            None => match usage_error_of(bt) {
                Some(u) => if u.error_type == Some("usage_limit_reached"@) {
                    &&& r matches RuneErr::UsageLimitReached(ul)
                    &&& str_view_opt(ul.plan_type) == u.plan_type
                    &&& ul.resets_at == (match u.resets_at {
                        Some(s) => if utc_timestamp_in_range(s) {
                            Some(s)
                        } else {
                            None
                        },
                        None => None,
                    })
                    &&& ul.rate_limits == rate_limits_spec(hs)
                    &&& str_view_opt(ul.promo_message) == promo_message_spec(hs)
                } else if u.error_type == Some("usage_not_included"@) {
                    r == RuneErr::UsageNotIncluded
                } else {
                    retry_limit_ok(status, hs, r)
                },
                None => retry_limit_ok(status, hs, r),
            },
        }
    } else {
        &&& r matches RuneErr::UnexpectedStatus(ue)
        &&& ue.status == status
        &&& ue.body@ == bt
        &&& ue.url == url
        &&& str_view_opt(ue.cf_ray) == extract_header_spec(hs, "cf-ray"@)
        &&& str_view_opt(ue.request_id) == request_id_spec(hs)
    }
}

/// What each provider API error maps to.
pub open spec fn api_error_maps_ok(err: ApiError, r: RuneErr) -> bool {
    match err {
        ApiError::ContextWindowExceeded => r == RuneErr::ContextWindowExceeded,
        ApiError::QuotaExceeded => r == RuneErr::QuotaExceeded,
        ApiError::UsageNotIncluded => r == RuneErr::UsageNotIncluded,
        ApiError::Retryable { message, delay_ms } => r == RuneErr::Stream(message, delay_ms),
        ApiError::Stream(msg) => r == RuneErr::Stream(msg, None),
        ApiError::Api { status, message } => r == RuneErr::UnexpectedStatus(
            UnexpectedResponseError {
                status,
                body: message,
                url: None,
                cf_ray: None,
                request_id: None,
            },
        ),
        ApiError::InvalidRequest { message } => r == RuneErr::InvalidRequest(message),
        ApiError::RateLimit(msg) => r == RuneErr::Stream(msg, None),
        ApiError::Transport(t) => match t {
            TransportError::RetryLimit => r == RuneErr::RetryLimit(
                RetryLimitReachedError { status: 500, request_id: None },
            ),
            TransportError::Timeout => r == RuneErr::Timeout,
            TransportError::Network(msg) => r == RuneErr::Stream(msg, None),
            TransportError::Build(msg) => r == RuneErr::Stream(msg, None),
            TransportError::Http { status, url, headers, body } => http_error_maps_ok(
                status,
                url,
                headers,
                body,
                r,
            ),
        },
    }
}

fn opt_str_is(o: &Option<String>, lit: &str) -> (r: bool)
    ensures
        r == (str_view_opt(*o) == Some(lit@)),
{
    match o {
        Some(s) => str_eq(s.as_str(), lit),
        None => false,
    }
}

/// Map a provider API error onto the thread-level taxonomy.
pub fn map_api_error(err: ApiError) -> (r: RuneErr)
    ensures
        api_error_maps_ok(err, r),
{
    match err {
        ApiError::ContextWindowExceeded => RuneErr::ContextWindowExceeded,
        ApiError::QuotaExceeded => RuneErr::QuotaExceeded,
        ApiError::UsageNotIncluded => RuneErr::UsageNotIncluded,
        ApiError::Retryable { message, delay_ms } => RuneErr::Stream(message, delay_ms),
        ApiError::Stream(msg) => RuneErr::Stream(msg, None),
        ApiError::Api { status, message } => RuneErr::UnexpectedStatus(
            UnexpectedResponseError {
                status,
                body: message,
                url: None,
                cf_ray: None,
                request_id: None,
            },
        ),
        ApiError::InvalidRequest { message } => RuneErr::InvalidRequest(message),
        ApiError::RateLimit(msg) => RuneErr::Stream(msg, None),
        ApiError::Transport(t) => match t {
            TransportError::RetryLimit => RuneErr::RetryLimit(
                RetryLimitReachedError { status: 500, request_id: None },
            ),
            TransportError::Timeout => RuneErr::Timeout,
            TransportError::Network(msg) => RuneErr::Stream(msg, None),
            TransportError::Build(msg) => RuneErr::Stream(msg, None),
            TransportError::Http { status, url, headers, body } => map_http_error(
                status,
                url,
                headers,
                body,
            ),
        },
    }
}

fn map_http_error(
    status: u16,
    url: Option<String>,
    headers: Option<Vec<Header>>,
    body: Option<String>,
) -> (r: RuneErr)
    ensures
        http_error_maps_ok(status, url, headers, body, r),
{
    let body_text = match body {
        Some(b) => b,
        None => String::new(),
    };
    if status == 400 {
        if str_contains(
            body_text.as_str(),
            "The image data you provided does not represent a valid image",
        ) {
            RuneErr::InvalidImageRequest
        } else {
            RuneErr::InvalidRequest(body_text)
        }
    } else if status == 500 {
        RuneErr::InternalServerError
    } else if status == 429 {
        match extract_header(headers.as_ref(), "x-rune-model-cap-model") {
            Some(model) => {
                let reset_after_seconds = match extract_header(
                    headers.as_ref(),
                    "x-rune-model-cap-reset-after-seconds",
                ) {
                    Some(v) => parse_u64(v.as_str()),
                    None => None,
                };
                RuneErr::ModelCap(ModelCapError { model, reset_after_seconds })
            },
            None => match parse_usage_error(body_text.as_str()) {
                Some(u) => {
                    if opt_str_is(&u.error_type, "usage_limit_reached") {
                        let resets_at = match u.resets_at {
                            Some(s) => if timestamp_in_range(s) {
                                Some(s)
                            } else {
                                None
                            },
                            None => None,
                        };
                        RuneErr::UsageLimitReached(
                            UsageLimitReachedError {
                                plan_type: u.plan_type,
                                resets_at,
                                rate_limits: parse_rate_limit(headers.as_ref()),
                                promo_message: parse_promo_message(headers.as_ref()),
                            },
                        )
                    } else if opt_str_is(&u.error_type, "usage_not_included") {
                        RuneErr::UsageNotIncluded
                    } else {
                        RuneErr::RetryLimit(
                            RetryLimitReachedError {
                                status,
                                request_id: extract_request_tracking_id(headers.as_ref()),
                            },
                        )
                    }
                },
                None => RuneErr::RetryLimit(
                    RetryLimitReachedError {
                        status,
                        request_id: extract_request_tracking_id(headers.as_ref()),
                    },
                ),
            },
        }
    } else {
        RuneErr::UnexpectedStatus(
            UnexpectedResponseError {
                status,
                body: body_text,
                url,
                cf_ray: extract_header(headers.as_ref(), "cf-ray"),
                request_id: extract_request_id(headers.as_ref()),
            },
        )
    }
}

/// The resolved credential for outbound requests.
#[derive(Clone, Debug, PartialEq, Eq)]
pub struct CoreAuthProvider {
    pub token: Option<String>,
    pub account_id: Option<String>,
}

impl CoreAuthProvider {
    pub fn bearer_token(&self) -> (r: Option<String>)
        ensures
            r == self.token,
    {
        match &self.token {
            Some(t) => Some(t.clone()),
            None => None,
        }
    }

    pub fn account_id(&self) -> (r: Option<String>)
        ensures
            r == self.account_id,
    {
        match &self.account_id {
            Some(a) => Some(a.clone()),
            None => None,
        }
    }
}

/// A logged-in user's credentials; `token` is `None` when retrieval fails.
#[derive(Clone, Debug, PartialEq, Eq)]
pub struct RuneAuth {
    pub token: Option<String>,
    pub account_id: Option<String>,
}

/// Pick the credential for a request: a configured API key first, then a
/// provider bearer token, then the logged-in user's token; anonymous
/// otherwise. Fails only when user credentials exist but yield no token.
pub fn auth_provider_from_auth(auth: Option<RuneAuth>, provider: &ModelProviderInfo) -> (r: Result<
    CoreAuthProvider,
    RuneErr,
>)
    ensures
        provider.api_key matches Some(k) ==> r == Ok::<CoreAuthProvider, RuneErr>(
            CoreAuthProvider { token: Some(k), account_id: None },
        ),
        provider.api_key is None ==> match provider.experimental_bearer_token {
            Some(t) => r == Ok::<CoreAuthProvider, RuneErr>(
                CoreAuthProvider { token: Some(t), account_id: None },
            ),
            None => true,
        },
        provider.api_key is None && provider.experimental_bearer_token is None ==> match auth {
            Some(a) => match a.token {
                Some(t) => r == Ok::<CoreAuthProvider, RuneErr>(
                    CoreAuthProvider { token: Some(t), account_id: a.account_id },
                ),
                None => r is Err,
            },
            None => r == Ok::<CoreAuthProvider, RuneErr>(
                CoreAuthProvider { token: None, account_id: None },
            ),
        },
{
    if let Some(api_key) = provider.api_key() {
        return Ok(CoreAuthProvider { token: Some(api_key), account_id: None });
    }
    let bearer = match &provider.experimental_bearer_token {
        Some(t) => Some(t.clone()),
        None => None,
    };
    if let Some(token) = bearer {
        return Ok(CoreAuthProvider { token: Some(token), account_id: None });
    }
    if let Some(auth) = auth {
        match auth.token {
            Some(token) => Ok(CoreAuthProvider { token: Some(token), account_id: auth.account_id }),
            None => Err(RuneErr::Fatal(String::from_str("failed to retrieve auth token"))),
        }
    } else {
        Ok(CoreAuthProvider { token: None, account_id: None })
    }
}

} // verus!
