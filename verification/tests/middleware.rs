use inheritx::middleware::{
    content_length_too_large, is_json_content_type, is_write_method, rate_limit_reply,
    request_id, security_headers, RateLimitFailure, RateLimitKeyExtractor, RequestContext,
};

#[test]
fn request_context_defaults_to_unknown() {
    let ctx = RequestContext::default();
    assert!(ctx.user_id.is_none());
    assert!(ctx.plan_id.is_none());
}

#[test]
fn bypass_tokens_get_their_own_key() {
    let extractor = RateLimitKeyExtractor::new(vec![" secret ".to_string(), "".to_string(), "  ".to_string()]);
    let key = extractor.key_for(Some("secret"), Some("1.2.3.4"), None, None, 1);
    assert_eq!(key, "bypass:secret:00000000-0000-0000-0000-000000000001");
    let other = extractor.key_for(Some(" secret "), None, None, None, 2);
    assert_eq!(other, "bypass:secret:00000000-0000-0000-0000-000000000002");
}

#[test]
fn unknown_tokens_are_keyed_by_address() {
    let extractor = RateLimitKeyExtractor::new(vec!["secret".to_string()]);
    assert_eq!(extractor.key_for(Some("guess"), Some(" 10.0.0.1 , 10.0.0.2"), None, None, 3), "10.0.0.1");
    assert_eq!(extractor.key_for(None, Some(" , x"), Some(" 9.9.9.9 "), None, 3), "9.9.9.9");
    assert_eq!(extractor.key_for(None, None, Some(""), Some("127.0.0.1"), 3), "127.0.0.1");
    assert_eq!(extractor.key_for(None, None, None, None, 3), "unknown-client");
    let empty = RateLimitKeyExtractor::new(vec!["".to_string()]);
    assert_eq!(empty.key_for(Some(""), None, None, None, 3), "unknown-client");
}

#[test]
fn refused_requests_are_answered() {
    let r = rate_limit_reply(RateLimitFailure::TooManyRequests { wait_time: 12 });
    assert_eq!(r.status, 429);
    assert_eq!(r.error, "Rate limit exceeded. Please retry later.");
    assert_eq!(r.error_code, "RATE_LIMITED");
    assert_eq!(r.retry_after_seconds, Some(12));
    let r = rate_limit_reply(RateLimitFailure::UnableToExtractKey);
    assert_eq!(r.status, 400);
    assert_eq!(r.error_code, "RATE_LIMIT_KEY_ERROR");
    let r = rate_limit_reply(RateLimitFailure::Other { code: 503, msg: None });
    assert_eq!(r.status, 503);
    assert_eq!(r.error, "Rate limiting error");
    assert_eq!(r.error_code, "RATE_LIMIT_ERROR");
    let r = rate_limit_reply(RateLimitFailure::Other { code: 500, msg: Some("boom".to_string()) });
    assert_eq!(r.error, "boom");
}

#[test]
fn request_id_is_kept_or_made() {
    assert_eq!(request_id(Some("  abc  "), 5), "abc");
    assert_eq!(request_id(Some("   "), 5), "00000000-0000-0000-0000-000000000005");
    assert_eq!(request_id(None, 5), "00000000-0000-0000-0000-000000000005");
}

#[test]
fn body_size_and_type() {
    assert!(content_length_too_large(Some("2048"), 1024));
    assert!(!content_length_too_large(Some("1024"), 1024));
    assert!(!content_length_too_large(Some("lots"), 1024));
    assert!(!content_length_too_large(None, 1024));
    assert!(is_json_content_type("application/json; charset=utf-8"));
    assert!(!is_json_content_type("text/plain"));
}

#[test]
fn write_methods_are_not_cached() {
    for m in ["POST", "PUT", "PATCH", "DELETE", "OPTIONS"] {
        assert!(is_write_method(m));
    }
    assert!(!is_write_method("GET"));
    assert!(!is_write_method("HEAD"));
    assert!(!is_write_method("post"));
}

#[test]
fn security_headers_are_listed() {
    let h = security_headers();
    assert_eq!(h.len(), 5);
    assert_eq!(h[0], ("strict-transport-security", "max-age=63072000; includeSubDomains; preload"));
    assert_eq!(h[2], ("x-frame-options", "DENY"));
}
