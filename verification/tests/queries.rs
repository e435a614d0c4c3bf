use inheritx::graphql::{bearer_token, extract_user_claims, QueryRoot, UserClaims};

#[test]
fn bearer_token_follows_the_scheme() {
    assert_eq!(bearer_token("Bearer abc.def"), Some("abc.def"));
    assert_eq!(bearer_token("bearer abc"), None);
    assert_eq!(bearer_token("Basic xyz"), None);
}

#[test]
fn claims_fall_back_to_legacy_header() {
    let claims = UserClaims { user_id: 3, email: "u@x".to_string(), exp: 99 };
    let got = extract_user_claims(Some(claims.clone()), Some("67e55044-10b1-426f-9247-bb680e5fe0c8")).unwrap();
    assert_eq!(got.user_id, 3);
    let legacy = extract_user_claims(None, Some("67e55044-10b1-426f-9247-bb680e5fe0c8")).unwrap();
    assert_eq!(legacy.user_id, 0x67e5_5044_10b1_426f_9247_bb68_0e5f_e0c8);
    assert_eq!(legacy.email, "legacy-test@example.com");
    assert_eq!(legacy.exp, 0);
    assert!(extract_user_claims(None, Some("nope")).is_none());
    assert!(extract_user_claims(None, None).is_none());
}

#[test]
fn ids_must_be_uuids() {
    assert_eq!(QueryRoot::parse_id("00000000-0000-0000-0000-00000000000a"), Ok(10));
    assert_eq!(QueryRoot::parse_id("42"), Err("Invalid ID"));
}

#[test]
fn reputation_only_for_the_caller() {
    let caller = UserClaims { user_id: 8, email: "c@x".to_string(), exp: 0 };
    assert!(QueryRoot::reputation_visible(8, &caller));
    assert!(!QueryRoot::reputation_visible(9, &caller));
    let plan = QueryRoot::plan_from_row(1, 2, "active".to_string());
    assert_eq!(plan.id, "00000000-0000-0000-0000-000000000001");
    assert_eq!(plan.user_id, "00000000-0000-0000-0000-000000000002");
    assert_eq!(plan.status, "active");
    let rep = QueryRoot::reputation_from_row(2, 700, 3, 2);
    assert_eq!(rep.score, 700);
}
