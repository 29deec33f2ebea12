//! The full pipeline: resolve, admit, plan — in order, short-circuiting at
//! the first failing stage, with the registry mutated only after a
//! successful resolution.

use api_gateway::errors::GatewayError;
use api_gateway::pipeline::run_pipeline;
use api_gateway::pipeline::GatewayConfig;
use api_gateway::pipeline::PipelineDecision;
use api_gateway::registry::RateRegistry;

fn mint(secret: &[u8], sub: &str, exp: u64) -> String {
    let mut m = serde_json::Map::new();
    m.insert("sub".to_string(), serde_json::Value::String(sub.to_string()));
    m.insert("exp".to_string(), serde_json::Value::Number(serde_json::Number::from(exp)));
    jsonwebtoken::encode(
        &jsonwebtoken::Header::new(jsonwebtoken::Algorithm::HS256),
        &serde_json::Value::Object(m),
        &jsonwebtoken::EncodingKey::from_secret(secret),
    )
    .unwrap()
}

fn config() -> GatewayConfig {
    GatewayConfig {
        upstream_base: b"http://core-engine:8081".to_vec(),
        jwt_secret: b"SECRET-REDACTED".to_vec(),
    }
}

#[test]
fn authorized_request_is_planned_for_the_upstream() {
    let cfg = config();
    let token = mint(b"SECRET-REDACTED", "u1", 2_000_000_000);
    let headers = vec![
        (b"authorization".to_vec(), format!("Bearer {token}").into_bytes()),
        (b"host".to_vec(), b"gw".to_vec()),
        (b"x-custom".to_vec(), b"v".to_vec()),
    ];
    let mut registry = RateRegistry::new();
    let d = run_pipeline(
        &cfg,
        b"POST".to_vec(),
        &b"/api/v1/compute".to_vec(),
        &Some(b"k=1".to_vec()),
        &headers,
        b"body".to_vec(),
        1_000_000_000,
        0,
        &mut registry,
    );
    match d {
        PipelineDecision::Forward { identity, plan } => {
            assert_eq!(identity.subject, b"u1".to_vec());
            assert_eq!(plan.method, b"POST".to_vec());
            assert_eq!(plan.url, b"http://core-engine:8081/api/v1/compute?k=1".to_vec());
            assert_eq!(plan.body, b"body".to_vec());
            assert!(plan.headers.iter().all(|h| h.0 != b"host".to_vec()));
            assert!(plan.headers.contains(&(b"x-custom".to_vec(), b"v".to_vec())));
        }
        PipelineDecision::Reject { .. } => panic!("expected a forward decision"),
    }
}

#[test]
fn expired_token_is_rejected_before_the_registry_and_upstream() {
    let cfg = config();
    let token = mint(b"SECRET-REDACTED", "u1", 500);
    let headers = vec![(b"authorization".to_vec(), format!("Bearer {token}").into_bytes())];
    let mut registry = RateRegistry::new();
    let d = run_pipeline(
        &cfg,
        b"GET".to_vec(),
        &b"/api/v1/x".to_vec(),
        &None,
        &headers,
        Vec::new(),
        1_000,
        0,
        &mut registry,
    );
    match d {
        PipelineDecision::Reject { response } => {
            assert_eq!(response.status, 401);
            // After the rejection the untouched budget is still whole: a
            // fresh identity can draw its full 20000 requests.
            let sub = b"u1".to_vec();
            for _ in 0..20_000 {
                assert!(registry.grant(&sub, 0));
            }
            assert!(!registry.grant(&sub, 0));
        }
        PipelineDecision::Forward { .. } => panic!("expected a rejection"),
    }
}

#[test]
fn request_without_credentials_is_rejected_with_401() {
    let cfg = config();
    let headers: Vec<(Vec<u8>, Vec<u8>)> = Vec::new();
    let mut registry = RateRegistry::new();
    let d = run_pipeline(
        &cfg,
        b"GET".to_vec(),
        &b"/api/v1/x".to_vec(),
        &None,
        &headers,
        Vec::new(),
        1_000,
        0,
        &mut registry,
    );
    match d {
        PipelineDecision::Reject { response } => {
            assert_eq!(response.status, 401);
            assert_eq!(
                response.body,
                br#"{"error":"Auth required","details":"Provide Bearer token or X-API-Key"}"#
                    .to_vec()
            );
        }
        PipelineDecision::Forward { .. } => panic!("expected a rejection"),
    }
}

#[test]
fn api_key_request_is_forwarded_while_budget_allows() {
    let cfg = config();
    let headers = vec![(b"x-api-key".to_vec(), b"anything".to_vec())];
    let mut registry = RateRegistry::new();
    let d = run_pipeline(
        &cfg,
        b"GET".to_vec(),
        &b"/api/v1/x".to_vec(),
        &None,
        &headers,
        Vec::new(),
        1_000,
        0,
        &mut registry,
    );
    match d {
        PipelineDecision::Forward { identity, .. } => {
            assert_eq!(identity.subject, b"api-key-user".to_vec());
            assert_eq!(identity.role, Some(b"api".to_vec()));
        }
        PipelineDecision::Reject { .. } => panic!("expected a forward decision"),
    }
}

#[test]
fn the_20001st_pipeline_request_is_rejected_with_429() {
    let cfg = config();
    let headers = vec![(b"x-api-key".to_vec(), b"anything".to_vec())];
    let mut registry = RateRegistry::new();
    for _ in 0..20_000 {
        let d = run_pipeline(
            &cfg,
            b"GET".to_vec(),
            &b"/api/v1/x".to_vec(),
            &None,
            &headers,
            Vec::new(),
            1_000,
            0,
            &mut registry,
        );
        assert!(matches!(d, PipelineDecision::Forward { .. }));
    }
    let d = run_pipeline(
        &cfg,
        b"GET".to_vec(),
        &b"/api/v1/x".to_vec(),
        &None,
        &headers,
        Vec::new(),
        1_000,
        0,
        &mut registry,
    );
    match d {
        PipelineDecision::Reject { response } => {
            assert_eq!(response.status, 429);
            assert_eq!(response.body, br#"{"error":"Rate limit exceeded"}"#.to_vec());
        }
        PipelineDecision::Forward { .. } => panic!("expected a 429 rejection"),
    }
}

#[test]
fn denial_keeps_the_refill_already_applied() {
    // The spec charges a token at admission and never refunds it; denial
    // mutates nothing beyond the refill already applied.
    let mut registry = RateRegistry::new();
    let sub = b"s".to_vec();
    for _ in 0..20_000 {
        assert!(registry.grant(&sub, 0));
    }
    assert!(!registry.grant(&sub, 0));
    // A full recovery interval later exactly one token has accrued.
    assert!(registry.grant(&sub, api_gateway::bucket::ONE_TOKEN_RECOVERY_NS));
    assert!(!registry.grant(&sub, api_gateway::bucket::ONE_TOKEN_RECOVERY_NS));
}

#[test]
fn invalid_token_error_mentions_the_reason() {
    let headers = vec![(b"authorization".to_vec(), b"Bearer junk".to_vec())];
    let e = api_gateway::identity::resolve_identity(&headers, &b"SECRET-REDACTED".to_vec(), 1_000)
        .unwrap_err();
    match e {
        GatewayError::InvalidToken { details } => assert!(!details.is_empty()),
        _ => panic!("expected an invalid-token error"),
    }
}
