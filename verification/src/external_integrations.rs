//! Rules of the calls to the external compliance services: their settings,
//! the retry policy with its back-off, which failures are retried, and how a
//! call that kept timing out ends for each service.
use vstd::prelude::*;
use crate::error::ApiError;
use crate::text::{parse_u32, parse_u64, parsed_u32, parsed_u64, strip_trailing, trim_end_char};

verus! {

// ── Retry policy ───────────────────────────────────────────────────────────

/// How a call to an external service is retried: at most `max_attempts`
/// attempts, the first wait `base_delay_ms`, each later wait
/// `backoff_factor` times the one before, never more than `max_delay_ms`.
#[derive(Debug, Clone, Copy, PartialEq, Eq, Structural)]
pub struct RetryConfig {
    pub max_attempts: u32,
    pub base_delay_ms: u64,
    pub max_delay_ms: u64,
    pub backoff_factor: u64,
}

/// The wait before retry number `k + 1` (counting from zero): the base delay,
/// multiplied by the factor once per earlier retry, capped at the maximum at
/// every step.
pub open spec fn backoff_delay(base: int, factor: int, max: int, k: nat) -> int
    decreases k,
{
    if k == 0 {
        if base <= max {
            base
        } else {
            max
        }
    } else {
        let p = backoff_delay(base, factor, max, (k - 1) as nat) * factor;
        if p <= max {
            p
        } else {
            max
        }
    }
}

/// The policy for calls that may time out: three attempts, waits of 300 ms
/// then 600 ms, doubling, capped at 5 s.
pub fn timeout_retry_config() -> (r: RetryConfig)
    ensures
        r.max_attempts == 3,
        r.base_delay_ms == 300,
        r.max_delay_ms == 5000,
        r.backoff_factor == 2,
{
    RetryConfig { max_attempts: 3, base_delay_ms: 300, max_delay_ms: 5000, backoff_factor: 2 }
}

impl RetryConfig {
    /// The wait after `delay_ms`: `backoff_factor` times longer, capped at the
    /// maximum.
    pub fn next_delay_ms(&self, delay_ms: u64) -> (r: u64)
        ensures
            r == (if delay_ms * self.backoff_factor <= self.max_delay_ms {
                delay_ms * self.backoff_factor
            } else {
                self.max_delay_ms as int
            }),
    {
        match delay_ms.checked_mul(self.backoff_factor) {
            Some(p) => if p <= self.max_delay_ms {
                p
            } else {
                self.max_delay_ms
            },
            None => self.max_delay_ms,
        }
    }

    /// The wait before retry number `k + 1`.
    pub fn delay_ms(&self, k: u32) -> (r: u64)
        ensures
            r == backoff_delay(
                self.base_delay_ms as int,
                self.backoff_factor as int,
                self.max_delay_ms as int,
                k as nat,
            ),
    {
        let mut d: u64 = if self.base_delay_ms <= self.max_delay_ms {
            self.base_delay_ms
        } else {
            self.max_delay_ms
        };
        let mut i: u32 = 0;
        while i < k
            invariant
                i <= k,
                d == backoff_delay(
                    self.base_delay_ms as int,
                    self.backoff_factor as int,
                    self.max_delay_ms as int,
                    i as nat,
                ),
            decreases k - i,
        {
            d = self.next_delay_ms(d);
            i = i + 1;
        }
        d
    }

    /// After `attempts_done` attempts, the last of which failed, the wait
    /// before the next attempt; `None` when the failure is not to be retried
    /// (it is not transient, or the attempts are used up).
    pub fn retry_after(&self, attempts_done: u32, transient: bool) -> (r: Option<u64>)
        requires
            attempts_done >= 1,
        ensures
            r is Some <==> transient && attempts_done < self.max_attempts,
            r matches Some(d) ==> d == backoff_delay(
                self.base_delay_ms as int,
                self.backoff_factor as int,
                self.max_delay_ms as int,
                (attempts_done - 1) as nat,
            ),
    {
        if transient && attempts_done < self.max_attempts {
            Some(self.delay_ms(attempts_done - 1))
        } else {
            None
        }
    }
}

/// With a factor of at least one, the waits never shrink, and none exceeds
/// the maximum.
pub proof fn lemma_backoff_grows_capped(base: int, factor: int, max: int, k: nat)
    requires
        base >= 0,
        max >= 0,
        factor >= 1,
    ensures
        0 <= backoff_delay(base, factor, max, k) <= max,
        backoff_delay(base, factor, max, k) <= backoff_delay(base, factor, max, k + 1),
    decreases k,
{
    let d = backoff_delay(base, factor, max, k);
    if k > 0 {
        lemma_backoff_grows_capped(base, factor, max, (k - 1) as nat);
    }
    assert(d * factor >= d) by (nonlinear_arith)
        requires
            d >= 0,
            factor >= 1,
    ;
}

/// With a factor of at least two and a base of at least one, every wait
/// below the maximum is followed by a strictly longer one.
pub proof fn lemma_backoff_strictly_grows(base: int, factor: int, max: int, k: nat)
    requires
        base >= 1,
        max >= 0,
        factor >= 2,
        backoff_delay(base, factor, max, k) < max,
    ensures
        backoff_delay(base, factor, max, k) < backoff_delay(base, factor, max, k + 1),
{
    lemma_backoff_positive(base, factor, max, k);
    let d = backoff_delay(base, factor, max, k);
    assert(d * factor > d) by (nonlinear_arith)
        requires
            d >= 1,
            factor >= 2,
    ;
}

proof fn lemma_backoff_positive(base: int, factor: int, max: int, k: nat)
    requires
        base >= 1,
        max >= 0,
        factor >= 1,
        backoff_delay(base, factor, max, k) < max,
    ensures
        backoff_delay(base, factor, max, k) >= 1,
    decreases k,
{
    if k > 0 {
        let prev = backoff_delay(base, factor, max, (k - 1) as nat);
        lemma_backoff_grows_capped(base, factor, max, (k - 1) as nat);
        if prev < max {
            lemma_backoff_positive(base, factor, max, (k - 1) as nat);
        }
        assert(prev * factor >= prev) by (nonlinear_arith)
            requires
                prev >= 0,
                factor >= 1,
        ;
    }
}

// ── Failures ───────────────────────────────────────────────────────────────

/// Timeouts and failures of the external service are transient: worth a
/// retry. Every other error is final.
pub open spec fn transient(e: ApiError) -> bool {
    e is Timeout || e is ExternalService
}

/// Whether `e` is worth a retry.
pub fn is_transient(e: &ApiError) -> (r: bool)
    ensures
        r == transient(*e),
{
    match e {
        ApiError::Timeout => true,
        ApiError::ExternalService(_) => true,
        _ => false,
    }
}

/// How a notification to a compliance service ends: a timeout that outlasted
/// every retry is swallowed, so that the flagging of a plan is not held up by
/// a service that only gets told about it; any other outcome is kept.
pub fn recover_notification_result(result: Result<(), ApiError>) -> (r: Result<(), ApiError>)
    ensures
        result matches Err(ApiError::Timeout) ==> r is Ok,
        !(result matches Err(ApiError::Timeout)) ==> r == result,
{
    match result {
        Ok(v) => Ok(v),
        Err(ApiError::Timeout) => Ok(()),
        Err(e) => Err(e),
    }
}

/// Message of a sanctions screening that kept timing out.
pub open spec fn screening_unavailable_text() -> Seq<char> {
    "Sanctions screening is temporarily unavailable. Please try again shortly."@
}

/// How a sanctions screening ends: screening gates what a user may do, so a
/// timeout that outlasted every retry never passes as "not flagged": it
/// becomes `ServiceUnavailable`. Any other outcome is kept.
pub fn recover_screening_result(result: Result<Option<String>, ApiError>) -> (r: Result<
    Option<String>,
    ApiError,
>)
    ensures
        result matches Err(ApiError::Timeout) ==> (r matches Err(ApiError::ServiceUnavailable(m))
            && m@ == screening_unavailable_text()),
        !(result matches Err(ApiError::Timeout)) ==> r == result,
{
    match result {
        Ok(v) => Ok(v),
        Err(ApiError::Timeout) => Err(
            ApiError::ServiceUnavailable(
                "Sanctions screening is temporarily unavailable. Please try again shortly.".to_owned(),
            ),
        ),
        Err(e) => Err(e),
    }
}

/// The reason given when the service flags a user without one.
pub open spec fn default_match_text() -> Seq<char> {
    "Sanctions list match detected"@
}

/// The answer of a screening: the match reason when the user is flagged
/// (the service's reason, or a default one), nothing when the user is clear.
pub fn screening_outcome(flagged: bool, reason: Option<String>) -> (r: Option<String>)
    ensures
        !flagged ==> r is None,
        flagged ==> r is Some,
        flagged && reason is Some ==> r == reason,
        flagged && reason is None ==> r->0@ == default_match_text(),
{
    if flagged {
        match reason {
            Some(m) => Some(m),
            None => Some("Sanctions list match detected".to_owned()),
        }
    } else {
        None
    }
}

/// An external service the compliance engine talks to.
#[derive(Debug, Clone, Copy, PartialEq, Eq, Structural)]
pub enum ExternalService {
    AnchorIntegration,
    ComplianceApi,
    SanctionsApi,
}

/// The name the service goes by in messages.
pub open spec fn service_label(s: ExternalService) -> Seq<char> {
    match s {
        ExternalService::AnchorIntegration => "Anchor integration"@,
        ExternalService::ComplianceApi => "Compliance API"@,
        ExternalService::SanctionsApi => "Sanctions API"@,
    }
}

/// The path of the service's endpoint.
pub open spec fn service_path(s: ExternalService) -> Seq<char> {
    match s {
        ExternalService::AnchorIntegration => "/v1/compliance/flags"@,
        ExternalService::ComplianceApi => "/v1/suspicious-activity"@,
        ExternalService::SanctionsApi => "/v1/sanctions/screen"@,
    }
}

fn label(s: ExternalService) -> (r: &'static str)
    ensures
        r@ == service_label(s),
{
    match s {
        ExternalService::AnchorIntegration => "Anchor integration",
        ExternalService::ComplianceApi => "Compliance API",
        ExternalService::SanctionsApi => "Sanctions API",
    }
}

/// The endpoint of the service under `base_url`: the base without its
/// trailing slashes, then the service's path.
pub fn endpoint_url(base_url: &str, service: ExternalService) -> (r: String)
    ensures
        r@ == strip_trailing(base_url@, '/') + service_path(service),
{
    let mut r = trim_end_char(base_url, '/').to_owned();
    let path = match service {
        ExternalService::AnchorIntegration => "/v1/compliance/flags",
        ExternalService::ComplianceApi => "/v1/suspicious-activity",
        ExternalService::SanctionsApi => "/v1/sanctions/screen",
    };
    r.append(path);
    r
}

/// The error a failed request ends with: a timeout is `Timeout`, anything
/// else `ExternalService` naming the service and the failure.
pub fn request_failure(service: ExternalService, timed_out: bool, detail: &str) -> (r: ApiError)
    ensures
        timed_out ==> r is Timeout,
        !timed_out ==> (r matches ApiError::ExternalService(m) && m@ == service_label(service)
            + " request failed: "@ + detail@),
{
    if timed_out {
        ApiError::Timeout
    } else {
        let mut m = label(service).to_owned();
        m.append(" request failed: ");
        m.append(detail);
        ApiError::ExternalService(m)
    }
}

/// The error for an answer whose status is not a success.
pub fn status_failure(service: ExternalService, status: &str) -> (r: ApiError)
    ensures
        r matches ApiError::ExternalService(m) && m@ == service_label(service) + " returned status "@
            + status@,
{
    let mut m = label(service).to_owned();
    m.append(" returned status ");
    m.append(status);
    ApiError::ExternalService(m)
}

/// The error for a screening answer that could not be read.
pub fn parse_failure(detail: &str) -> (r: ApiError)
    ensures
        r matches ApiError::ExternalService(m) && m@ == "Sanctions API response parse failed: "@
            + detail@,
{
    let mut m = "Sanctions API response parse failed: ".to_owned();
    m.append(detail);
    ApiError::ExternalService(m)
}

// ── Settings ───────────────────────────────────────────────────────────────

/// A number setting: the value when it reads as a `u32`, else the default.
pub fn read_u32(value: Option<&str>, default: u32) -> (r: u32)
    ensures
        r == (match value {
            Some(v) => match parsed_u32(v@) {
                Some(n) => n,
                None => default,
            },
            None => default,
        }),
{
    match value {
        Some(v) => match parse_u32(v) {
            Some(n) => n,
            None => default,
        },
        None => default,
    }
}

/// A number setting: the value when it reads as a `u64`, else the default.
pub fn read_u64(value: Option<&str>, default: u64) -> (r: u64)
    ensures
        r == (match value {
            Some(v) => match parsed_u64(v@) {
                Some(n) => n,
                None => default,
            },
            None => default,
        }),
{
    match value {
        Some(v) => match parse_u64(v) {
            Some(n) => n,
            None => default,
        },
        None => default,
    }
}

/// The default number of failures that opens a service's circuit.
pub const DEFAULT_FAILURE_THRESHOLD: u32 = 5;

/// The default time an open circuit waits before trying again, in seconds.
pub const DEFAULT_RECOVERY_TIMEOUT_SECS: u64 = 30;

/// Per-request timeout of the external calls, in seconds.
pub const REQUEST_TIMEOUT_SECS: u64 = 10;

/// Where a service lives and how its circuit breaker is set.
#[derive(Debug, Clone)]
pub struct ServiceSettings {
    pub base_url: String,
    pub api_key: Option<String>,
    pub failure_threshold: u32,
    pub recovery_timeout_secs: u64,
}

/// The settings of a service from its configuration values: none without a
/// base URL (nor, for the sanctions service, without an API key); the
/// circuit settings fall back to their defaults.
pub fn service_settings(
    service: ExternalService,
    base_url: Option<&str>,
    api_key: Option<&str>,
    failure_threshold: Option<&str>,
    recovery_timeout_secs: Option<&str>,
) -> (r: Option<ServiceSettings>)
    ensures
        r is Some <==> base_url is Some && (service == ExternalService::SanctionsApi ==> api_key
            is Some),
        r matches Some(s) ==> {
            &&& s.base_url@ == base_url->0@
            &&& (service == ExternalService::SanctionsApi ==> (s.api_key matches Some(k) && k@
                == api_key->0@))
            &&& (service != ExternalService::SanctionsApi ==> s.api_key is None)
            &&& s.failure_threshold == read_u32_spec(failure_threshold, DEFAULT_FAILURE_THRESHOLD)
            &&& s.recovery_timeout_secs == read_u64_spec(
                recovery_timeout_secs,
                DEFAULT_RECOVERY_TIMEOUT_SECS,
            )
        },
{
    let base = match base_url {
        Some(b) => b,
        None => return None,
    };
    let key = match service {
        ExternalService::SanctionsApi => match api_key {
            Some(k) => Some(k.to_owned()),
            None => return None,
        },
        _ => None,
    };
    Some(
        ServiceSettings {
            base_url: base.to_owned(),
            api_key: key,
            failure_threshold: read_u32(failure_threshold, DEFAULT_FAILURE_THRESHOLD),
            recovery_timeout_secs: read_u64(recovery_timeout_secs, DEFAULT_RECOVERY_TIMEOUT_SECS),
        },
    )
}

/// What `read_u32` gives.
pub open spec fn read_u32_spec(value: Option<&str>, default: u32) -> u32 {
    match value {
        Some(v) => match parsed_u32(v@) {
            Some(n) => n,
            None => default,
        },
        None => default,
    }
}

/// What `read_u64` gives.
pub open spec fn read_u64_spec(value: Option<&str>, default: u64) -> u64 {
    match value {
        Some(v) => match parsed_u64(v@) {
            Some(n) => n,
            None => default,
        },
        None => default,
    }
}

} // verus!
