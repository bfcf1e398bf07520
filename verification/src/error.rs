//! The thread-level error taxonomy.
use vstd::prelude::*;
use crate::protocol::RateLimitSnapshot;

verus! {

/// A model cap reported by the provider on a 429 response.
#[derive(Clone, Debug, PartialEq, Eq)]
pub struct ModelCapError {
    pub model: String,
    pub reset_after_seconds: Option<u64>,
}

/// A usage limit reported by the provider on a 429 response: the plan and
/// reset time from the body, the rate-limit standing and promotional note
/// from the headers.
#[derive(Clone, Debug, PartialEq, Eq)]
pub struct UsageLimitReachedError {
    pub plan_type: Option<String>,
    pub resets_at: Option<i64>,
    pub rate_limits: Option<RateLimitSnapshot>,
    pub promo_message: Option<String>,
}

/// The provider kept failing and retries ran out.
#[derive(Clone, Debug, PartialEq, Eq)]
pub struct RetryLimitReachedError {
    pub status: u16,
    pub request_id: Option<String>,
}

/// A response status nothing else explains.
#[derive(Clone, Debug, PartialEq, Eq)]
pub struct UnexpectedResponseError {
    pub status: u16,
    pub body: String,
    pub url: Option<String>,
    pub cf_ray: Option<String>,
    pub request_id: Option<String>,
}

/// Everything that can go wrong for a thread.
#[derive(Clone, Debug, PartialEq, Eq)]
pub enum RuneErr {
    /// The thread cannot continue.
    Fatal(String),
    ContextWindowExceeded,
    QuotaExceeded,
    UsageNotIncluded,
    UsageLimitReached(UsageLimitReachedError),
    ModelCap(ModelCapError),
    RetryLimit(RetryLimitReachedError),
    /// A stream error, with an optional retry delay in milliseconds.
    Stream(String, Option<u64>),
    UnexpectedStatus(UnexpectedResponseError),
    InvalidRequest(String),
    InvalidImageRequest,
    Timeout,
    InternalServerError,
}

} // verus!
