use inheritx::error::ApiError;
use inheritx::external_integrations::{
    endpoint_url, is_transient, read_u32, read_u64, recover_notification_result,
    recover_screening_result, request_failure, screening_outcome, service_settings,
    status_failure, timeout_retry_config, ExternalService, RetryConfig,
};
use std::time::Duration;

#[test]
fn retry_config_has_valid_bounds() {
    let cfg = timeout_retry_config();
    assert!(cfg.max_attempts >= 2, "need at least one retry");
    assert!(
        Duration::from_millis(cfg.base_delay_ms) < Duration::from_secs(2),
        "base delay should be short"
    );
    assert!(
        Duration::from_millis(cfg.max_delay_ms) <= Duration::from_secs(30),
        "max delay must be within request budget"
    );
    assert!(cfg.backoff_factor as f64 > 1.0, "backoff factor must grow delay");
}

#[test]
fn anchor_client_none_without_env() {
    assert!(service_settings(ExternalService::AnchorIntegration, None, None, None, None).is_none());
}

#[test]
fn compliance_client_none_without_env() {
    assert!(service_settings(ExternalService::ComplianceApi, None, None, None, None).is_none());
}

#[test]
fn sanctions_client_none_without_env() {
    assert!(service_settings(ExternalService::SanctionsApi, None, None, None, None).is_none());
    assert!(
        service_settings(ExternalService::SanctionsApi, Some("https://s"), None, None, None).is_none()
    );
}

#[test]
fn compliance_timeout_recovery_is_ok() {
    let timeout_result: Result<(), ApiError> = Err(ApiError::Timeout);
    let recovered = recover_notification_result(timeout_result);
    assert!(recovered.is_ok(), "compliance timeout should degrade to Ok(())");
}

#[test]
fn compliance_circuit_open_is_propagated() {
    let circuit_result: Result<(), ApiError> =
        Err(ApiError::CircuitOpen("anchor_integration".to_owned()));
    let recovered = recover_notification_result(circuit_result);
    assert!(
        recovered.is_err(),
        "CircuitOpen must not be swallowed by compliance degradation"
    );
    assert_eq!(recovered, Err(ApiError::CircuitOpen("anchor_integration".to_owned())));
}

#[test]
fn sanctions_timeout_is_service_unavailable() {
    let timeout_result: Result<Option<String>, ApiError> = Err(ApiError::Timeout);
    let recovered = recover_screening_result(timeout_result);
    assert!(
        matches!(recovered, Err(ApiError::ServiceUnavailable(_))),
        "sanctions timeout must fail safe with ServiceUnavailable, not Ok(None)"
    );
    assert_eq!(
        recovered,
        Err(ApiError::ServiceUnavailable(
            "Sanctions screening is temporarily unavailable. Please try again shortly.".to_owned()
        ))
    );
}

#[test]
fn sanctions_flagged_response_passes_through() {
    let flagged: Result<Option<String>, ApiError> = Ok(Some("OFAC match".to_owned()));
    let recovered = recover_screening_result(flagged);
    assert_eq!(recovered.unwrap(), Some("OFAC match".to_owned()));
}

#[test]
fn retry_predicate_classifies_errors_correctly() {
    assert!(is_transient(&ApiError::Timeout));
    assert!(is_transient(&ApiError::ExternalService("503".to_owned())));

    assert!(!is_transient(&ApiError::Unauthorized));
    assert!(!is_transient(&ApiError::NotFound("x".to_owned())));
    assert!(!is_transient(&ApiError::CircuitOpen("svc".to_owned())));
    assert!(!is_transient(&ApiError::ServiceUnavailable("x".to_owned())));
}

#[test]
fn retry_config_delays_grow_exponentially() {
    let cfg = timeout_retry_config();
    let d0 = cfg.base_delay_ms as f64;
    let d1 = (d0 * cfg.backoff_factor as f64).min(cfg.max_delay_ms as f64);
    let d2 = (d1 * cfg.backoff_factor as f64).min(cfg.max_delay_ms as f64);
    assert!(d1 > d0, "second delay must be larger than first");
    assert!(d2 >= d1, "third delay must be >= second (may be capped)");
    assert_eq!(cfg.delay_ms(0) as f64, d0);
    assert_eq!(cfg.delay_ms(1) as f64, d1);
    assert_eq!(cfg.delay_ms(2) as f64, d2);
}

#[test]
fn backoff_is_capped() {
    let cfg = RetryConfig { max_attempts: 10, base_delay_ms: 300, max_delay_ms: 5000, backoff_factor: 2 };
    assert_eq!(cfg.delay_ms(0), 300);
    assert_eq!(cfg.delay_ms(1), 600);
    assert_eq!(cfg.delay_ms(4), 4800);
    assert_eq!(cfg.delay_ms(5), 5000);
    assert_eq!(cfg.delay_ms(60), 5000);
    assert_eq!(cfg.next_delay_ms(u64::MAX), 5000);
}

#[test]
fn retries_only_transient_failures_within_attempts() {
    let cfg = timeout_retry_config();
    assert_eq!(cfg.retry_after(1, true), Some(300));
    assert_eq!(cfg.retry_after(2, true), Some(600));
    assert_eq!(cfg.retry_after(3, true), None);
    assert_eq!(cfg.retry_after(1, false), None);
}

#[test]
fn screening_answer_uses_default_reason() {
    assert_eq!(screening_outcome(false, Some("x".to_string())), None);
    assert_eq!(screening_outcome(true, Some("OFAC".to_string())), Some("OFAC".to_string()));
    assert_eq!(
        screening_outcome(true, None),
        Some("Sanctions list match detected".to_string())
    );
}

#[test]
fn endpoints_drop_trailing_slashes() {
    assert_eq!(
        endpoint_url("https://anchor.example//", ExternalService::AnchorIntegration),
        "https://anchor.example/v1/compliance/flags"
    );
    assert_eq!(
        endpoint_url("https://c.example", ExternalService::ComplianceApi),
        "https://c.example/v1/suspicious-activity"
    );
    assert_eq!(
        endpoint_url("https://s.example/", ExternalService::SanctionsApi),
        "https://s.example/v1/sanctions/screen"
    );
}

#[test]
fn request_failures_are_classified() {
    assert_eq!(request_failure(ExternalService::SanctionsApi, true, "t"), ApiError::Timeout);
    assert_eq!(
        request_failure(ExternalService::AnchorIntegration, false, "refused"),
        ApiError::ExternalService("Anchor integration request failed: refused".to_string())
    );
    assert_eq!(
        status_failure(ExternalService::ComplianceApi, "503 Service Unavailable"),
        ApiError::ExternalService("Compliance API returned status 503 Service Unavailable".to_string())
    );
}

#[test]
fn settings_fall_back_to_defaults() {
    let s = service_settings(ExternalService::ComplianceApi, Some("https://c"), None, Some("x"), None)
        .unwrap();
    assert_eq!(s.base_url, "https://c");
    assert_eq!(s.failure_threshold, 5);
    assert_eq!(s.recovery_timeout_secs, 30);
    let s = service_settings(ExternalService::SanctionsApi, Some("https://s"), Some("k"), Some("7"), Some("60"))
        .unwrap();
    assert_eq!(s.api_key.as_deref(), Some("k"));
    assert_eq!(s.failure_threshold, 7);
    assert_eq!(s.recovery_timeout_secs, 60);
    assert_eq!(read_u32(Some(" 9"), 5), 5);
    assert_eq!(read_u64(Some("+12"), 1), 12);
}
