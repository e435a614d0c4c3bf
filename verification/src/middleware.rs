//! Decisions of the HTTP middleware: the identity a request is rate limited
//! under, the answer to a refused request, the request id, which requests are
//! too large, and which responses must not be cached.
use vstd::prelude::*;
use crate::text::{
    before_first,
    occurs_at,
    parse_usize,
    parsed_usize,
    split_first,
    starts_with,
    str_eq,
    trim,
    trimmed,
    uuid_text,
    uuid_to_string,
};

verus! {

/// Name of the request id header.
pub const X_REQUEST_ID: &'static str = "x-request-id";

/// Request-scoped identifiers for error tracking and observability.
#[derive(Clone, Debug)]
pub struct RequestContext {
    /// Authenticated user UUID, when known.
    pub user_id: Option<String>,
    /// Plan UUID being acted upon, when determinable from the request.
    pub plan_id: Option<String>,
}

impl Default for RequestContext {
    fn default() -> (r: Self)
        ensures
            r.user_id is None,
            r.plan_id is None,
    {
        RequestContext { user_id: None, plan_id: None }
    }
}

// ── Rate-limit identity ────────────────────────────────────────────────────

/// Holds the internal tokens whose requests are not rate limited together.
pub struct RateLimitKeyExtractor {
    bypass_tokens: Vec<String>,
}

/// `t` is one of the bypass tokens configured in `input`: the trimmed form
/// of one of them, and not empty.
pub open spec fn configured_token(input: Seq<String>, t: Seq<char>) -> bool {
    t.len() > 0 && exists|i: int| 0 <= i < input.len() && trimmed(#[trigger] input[i]@) == t
}

/// `t` is one of the strings of `v`.
pub open spec fn holds_token(v: Seq<String>, t: Seq<char>) -> bool {
    exists|j: int| 0 <= j < v.len() && #[trigger] v[j]@ == t
}

impl View for RateLimitKeyExtractor {
    type V = Set<Seq<char>>;

    closed spec fn view(&self) -> Set<Seq<char>> {
        Set::new(|t: Seq<char>| holds_token(self.bypass_tokens@, t))
    }
}

/// The key a request is rate limited under when it bypasses the limit: each
/// such request gets a key of its own.
pub open spec fn bypass_key(token: Seq<char>, nonce: u128) -> Seq<char> {
    "bypass:"@ + token + ":"@ + uuid_text(nonce)
}

/// The client address of a request: the first entry of `x-forwarded-for`,
/// else `x-real-ip`, each trimmed and only when not empty; else the peer
/// address; else `unknown-client`.
pub open spec fn client_key(
    forwarded_for: Option<Seq<char>>,
    real_ip: Option<Seq<char>>,
    peer_ip: Option<Seq<char>>,
) -> Seq<char> {
    let fwd = match forwarded_for {
        Some(f) => trimmed(before_first(f, ',')),
        None => Seq::empty(),
    };
    let real_ip_text = match real_ip {
        Some(r) => trimmed(r),
        None => Seq::empty(),
    };
    if fwd.len() > 0 {
        fwd
    } else if real_ip_text.len() > 0 {
        real_ip_text
    } else {
        match peer_ip {
            Some(p) => p,
            None => "unknown-client"@,
        }
    }
}

/// The view of an optional text.
pub open spec fn opt_view(s: Option<&str>) -> Option<Seq<char>> {
    match s {
        Some(v) => Some(v@),
        None => None,
    }
}

impl RateLimitKeyExtractor {
    /// The tokens are trimmed, not empty, and each held once.
    pub closed spec fn wf(&self) -> bool {
        &&& forall|j: int|
            0 <= j < self.bypass_tokens@.len() ==> #[trigger] self.bypass_tokens@[j]@.len() > 0
        &&& forall|i: int, j: int|
            0 <= i < j < self.bypass_tokens@.len() ==> #[trigger] self.bypass_tokens@[i]@
                != #[trigger] self.bypass_tokens@[j]@
    }

    fn holds(&self, token: &str) -> (r: bool)
        ensures
            r == self@.contains(token@),
    {
        let n = self.bypass_tokens.len();
        let mut j: usize = 0;
        while j < n
            invariant
                n == self.bypass_tokens@.len(),
                j <= n,
                forall|k: int| 0 <= k < j ==> self.bypass_tokens@[k]@ != token@,
            decreases n - j,
        {
            if str_eq(self.bypass_tokens[j].as_str(), token) {
                assert(self@.contains(token@)) by {
                    assert(self.bypass_tokens@[j as int]@ == token@);
                }
                return true;
            }
            j = j + 1;
        }
        false
    }

    /// An extractor bypassing the given internal tokens, each trimmed, the
    /// empty ones dropped.
    pub fn new(bypass_tokens: Vec<String>) -> (r: Self)
        ensures
            r.wf(),
            forall|t: Seq<char>| r@.contains(t) <==> configured_token(bypass_tokens@, t),
    {
        let mut r = RateLimitKeyExtractor { bypass_tokens: Vec::new() };
        let n = bypass_tokens.len();
        let mut i: usize = 0;
        while i < n
            invariant
                n == bypass_tokens@.len(),
                i <= n,
                r.wf(),
                forall|t: Seq<char>|
                    r@.contains(t) <==> configured_token(bypass_tokens@.take(i as int), t),
            decreases n - i,
        {
            let t = trim(bypass_tokens[i].as_str());
            let ghost before = r.bypass_tokens@;
            assert(forall|u: Seq<char>| r@.contains(u) == holds_token(before, u));
            proof {
                assert forall|u: Seq<char>| configured_token(bypass_tokens@.take(i + 1), u)
                    <==> configured_token(bypass_tokens@.take(i as int), u) || (u.len() > 0 && u
                    == trimmed(bypass_tokens@[i as int]@)) by {
                    let next = bypass_tokens@.take(i + 1);
                    if configured_token(next, u) {
                        let k = choose|k: int| 0 <= k < next.len() && trimmed(#[trigger] next[k]@) == u;
                        if k < i {
                            assert(bypass_tokens@.take(i as int)[k] == next[k]);
                        }
                    }
                    if configured_token(bypass_tokens@.take(i as int), u) {
                        let k = choose|k: int|
                            0 <= k < i && trimmed(#[trigger] bypass_tokens@.take(i as int)[k]@) == u;
                        assert(next[k] == bypass_tokens@.take(i as int)[k]);
                    }
                    if u.len() > 0 && u == trimmed(bypass_tokens@[i as int]@) {
                        assert(next[i as int] == bypass_tokens@[i as int]);
                    }
                }
            }
            if t.unicode_len() > 0 && !r.holds(t) {
                r.bypass_tokens.push(t.to_owned());
                proof {
                    let after = r.bypass_tokens@;
                    assert(!holds_token(before, t@));
                    assert forall|j: int| 0 <= j < after.len() implies #[trigger] after[j]@.len()
                        > 0 by {
                        if j < before.len() {
                            assert(after[j] == before[j]);
                        }
                    }
                    assert forall|a: int, b: int|
                        0 <= a < b < after.len() implies #[trigger] after[a]@ != #[trigger] after[b]@ by {
                        assert(after[a] == before[a]);
                        if b < before.len() {
                            assert(after[b] == before[b]);
                        } else {
                            assert(after[b]@ == t@);
                        }
                    }
                    assert forall|u: Seq<char>| holds_token(after, u) <==> holds_token(before, u)
                        || u == t@ by {
                        if holds_token(after, u) {
                            let j = choose|j: int| 0 <= j < after.len() && #[trigger] after[j]@ == u;
                            if j < before.len() {
                                assert(after[j] == before[j]);
                            }
                        }
                        if holds_token(before, u) {
                            let j = choose|j: int| 0 <= j < before.len() && #[trigger] before[j]@ == u;
                            assert(after[j] == before[j]);
                        }
                        if u == t@ {
                            assert(after[before.len() as int]@ == u);
                        }
                    }
                }
            }
            i = i + 1;
        }
        assert(bypass_tokens@.take(n as int) =~= bypass_tokens@);
        r
    }

    /// The key a request is rate limited under. A request carrying one of
    /// the bypass tokens in `x-internal-token` gets a key of its own, with
    /// the fresh `nonce` in it; any other request is keyed by its client
    /// address.
    pub fn key_for(
        &self,
        internal_token: Option<&str>,
        forwarded_for: Option<&str>,
        real_ip: Option<&str>,
        peer_ip: Option<&str>,
        nonce: u128,
    ) -> (r: String)
        ensures
            (internal_token matches Some(t) && trimmed(t@).len() > 0 && self@.contains(trimmed(t@)))
                ==> r@ == bypass_key(trimmed(internal_token->0@), nonce),
            !(internal_token matches Some(t) && trimmed(t@).len() > 0 && self@.contains(
                trimmed(t@),
            )) ==> r@ == client_key(opt_view(forwarded_for), opt_view(real_ip), opt_view(peer_ip)),
    {
        if let Some(raw) = internal_token {
            let t = trim(raw);
            if t.unicode_len() > 0 && self.holds(t) {
                let mut key = "bypass:".to_owned();
                key.append(t);
                key.append(":");
                key.append(uuid_to_string(nonce).as_str());
                return key;
            }
        }
        if let Some(f) = forwarded_for {
            let first = trim(split_first(f, ','));
            if first.unicode_len() > 0 {
                return first.to_owned();
            }
        }
        if let Some(ip) = real_ip {
            let t = trim(ip);
            if t.unicode_len() > 0 {
                return t.to_owned();
            }
        }
        match peer_ip {
            Some(p) => p.to_owned(),
            None => "unknown-client".to_owned(),
        }
    }
}

// ── Refused requests ───────────────────────────────────────────────────────

/// Why the rate limiter refused a request.
#[derive(Debug, Clone)]
pub enum RateLimitFailure {
    /// Over the limit; the client may retry after `wait_time` seconds.
    TooManyRequests { wait_time: u64 },
    /// The request's identity could not be determined.
    UnableToExtractKey,
    /// Another failure, with its status code and message.
    Other { code: u16, msg: Option<String> },
}

/// The answer to a refused request.
#[derive(Debug, Clone)]
pub struct RateLimitReply {
    pub status: u16,
    pub error: String,
    pub error_code: &'static str,
    pub retry_after_seconds: Option<u64>,
}

/// The answer to a request the rate limiter refused: 429 with the wait for
/// a request over the limit, 400 when the identity is unknown, the failure's
/// own status otherwise.
pub fn rate_limit_reply(failure: RateLimitFailure) -> (r: RateLimitReply)
    ensures
        failure matches RateLimitFailure::TooManyRequests { wait_time } ==> {
            &&& r.status == 429
            &&& r.error@ == "Rate limit exceeded. Please retry later."@
            &&& r.error_code@ == "RATE_LIMITED"@
            &&& r.retry_after_seconds == Some(wait_time)
        },
        failure is UnableToExtractKey ==> {
            &&& r.status == 400
            &&& r.error@ == "Unable to determine request identity for rate limiting."@
            &&& r.error_code@ == "RATE_LIMIT_KEY_ERROR"@
            &&& r.retry_after_seconds is None
        },
        failure matches RateLimitFailure::Other { code, msg } ==> {
            &&& r.status == code
            &&& (msg matches Some(m) ==> r.error == m)
            &&& (msg is None ==> r.error@ == "Rate limiting error"@)
            &&& r.error_code@ == "RATE_LIMIT_ERROR"@
            &&& r.retry_after_seconds is None
        },
{
    match failure {
        RateLimitFailure::TooManyRequests { wait_time } => RateLimitReply {
            status: 429,
            error: "Rate limit exceeded. Please retry later.".to_owned(),
            error_code: "RATE_LIMITED",
            retry_after_seconds: Some(wait_time),
        },
        RateLimitFailure::UnableToExtractKey => RateLimitReply {
            status: 400,
            error: "Unable to determine request identity for rate limiting.".to_owned(),
            error_code: "RATE_LIMIT_KEY_ERROR",
            retry_after_seconds: None,
        },
        RateLimitFailure::Other { code, msg } => RateLimitReply {
            status: code,
            error: match msg {
                Some(m) => m,
                None => "Rate limiting error".to_owned(),
            },
            error_code: "RATE_LIMIT_ERROR",
            retry_after_seconds: None,
        },
    }
}

// ── Request ids, sizes and caching ─────────────────────────────────────────

/// The id of a request: its `x-request-id` header, trimmed, when that is not
/// empty; else the fresh id.
pub fn request_id(header: Option<&str>, fresh: u128) -> (r: String)
    ensures
        (header matches Some(h) && trimmed(h@).len() > 0) ==> r@ == trimmed(header->0@),
        !(header matches Some(h) && trimmed(h@).len() > 0) ==> r@ == uuid_text(fresh),
{
    if let Some(h) = header {
        let t = trim(h);
        if t.unicode_len() > 0 {
            return t.to_owned();
        }
    }
    uuid_to_string(fresh)
}

/// A request announcing a body longer than `max_bytes` in its
/// `Content-Length` is refused before its body is read. A header that does
/// not read as a number is ignored.
pub fn content_length_too_large(content_length: Option<&str>, max_bytes: usize) -> (r: bool)
    ensures
        r == (content_length matches Some(c) && parsed_usize(c@) matches Some(n) && n > max_bytes),
{
    match content_length {
        Some(c) => match parse_usize(c) {
            Some(n) => n > max_bytes,
            None => false,
        },
        None => false,
    }
}

/// The body of a request with this content type is read as JSON.
pub fn is_json_content_type(content_type: &str) -> (r: bool)
    ensures
        r == occurs_at(content_type@, "application/json"@, 0),
{
    starts_with(content_type, "application/json")
}

/// The methods whose responses must not be cached.
pub open spec fn write_method(method: Seq<char>) -> bool {
    method == "POST"@ || method == "PUT"@ || method == "PATCH"@ || method == "DELETE"@ || method
        == "OPTIONS"@
}

/// Whether a response to `method` gets `Cache-Control: no-store`: every
/// method that writes, and OPTIONS. GET and HEAD responses keep the caching
/// their handlers chose.
pub fn is_write_method(method: &str) -> (r: bool)
    ensures
        r == write_method(method@),
{
    str_eq(method, "POST") || str_eq(method, "PUT") || str_eq(method, "PATCH") || str_eq(
        method,
        "DELETE",
    ) || str_eq(method, "OPTIONS")
}

/// The security headers set on every response, as (name, value) pairs.
pub fn security_headers() -> (r: Vec<(&'static str, &'static str)>)
    ensures
        r@.len() == 5,
        r@[0].0@ == "strict-transport-security"@ && r@[0].1@
            == "max-age=63072000; includeSubDomains; preload"@,
        r@[1].0@ == "content-security-policy"@ && r@[1].1@ == "default-src 'self'"@,
        r@[2].0@ == "x-frame-options"@ && r@[2].1@ == "DENY"@,
        r@[3].0@ == "x-content-type-options"@ && r@[3].1@ == "nosniff"@,
        r@[4].0@ == "referrer-policy"@ && r@[4].1@ == "strict-origin-when-cross-origin"@,
{
    let mut r: Vec<(&'static str, &'static str)> = Vec::new();
    r.push(("strict-transport-security", "max-age=63072000; includeSubDomains; preload"));
    r.push(("content-security-policy", "default-src 'self'"));
    r.push(("x-frame-options", "DENY"));
    r.push(("x-content-type-options", "nosniff"));
    r.push(("referrer-policy", "strict-origin-when-cross-origin"));
    r
}

} // verus!
