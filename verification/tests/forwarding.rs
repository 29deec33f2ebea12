//! Forwarding: target URL construction, the `Host`-only header exclusion,
//! byte-exact relay of upstream replies, and the gateway error responses.

use api_gateway::errors::error_body;
use api_gateway::errors::GatewayError;
use api_gateway::forward::plan_forward;
use api_gateway::response::finish_forward;
use api_gateway::response::relay_response;
use api_gateway::response::UpstreamOutcome;

#[test]
fn plan_preserves_method_path_query_and_body() {
    let base = b"http://core-engine:8081".to_vec();
    let headers: Vec<(Vec<u8>, Vec<u8>)> = Vec::new();
    let p = plan_forward(
        &base,
        b"POST".to_vec(),
        &b"/api/v1/compute".to_vec(),
        &Some(b"a=1&b=2".to_vec()),
        &headers,
        b"payload".to_vec(),
    );
    assert_eq!(p.method, b"POST".to_vec());
    assert_eq!(p.url, b"http://core-engine:8081/api/v1/compute?a=1&b=2".to_vec());
    assert_eq!(p.body, b"payload".to_vec());
}

#[test]
fn plan_without_query_appends_no_question_mark() {
    let base = b"http://up".to_vec();
    let headers: Vec<(Vec<u8>, Vec<u8>)> = Vec::new();
    let p = plan_forward(&base, b"GET".to_vec(), &b"/api/v1/x".to_vec(), &None, &headers, Vec::new());
    assert_eq!(p.url, b"http://up/api/v1/x".to_vec());
}

#[test]
fn only_the_host_header_is_excluded_case_insensitively() {
    let base = b"http://up".to_vec();
    let headers = vec![
        (b"Host".to_vec(), b"gateway.example".to_vec()),
        (b"content-type".to_vec(), b"application/json".to_vec()),
        (b"HOST".to_vec(), b"again".to_vec()),
        (b"x-custom".to_vec(), b"v".to_vec()),
        (b"hostname".to_vec(), b"kept".to_vec()),
    ];
    let p = plan_forward(&base, b"GET".to_vec(), &b"/p".to_vec(), &None, &headers, Vec::new());
    assert_eq!(
        p.headers,
        vec![
            (b"content-type".to_vec(), b"application/json".to_vec()),
            (b"x-custom".to_vec(), b"v".to_vec()),
            (b"hostname".to_vec(), b"kept".to_vec()),
        ]
    );
}

#[test]
fn upstream_reply_is_relayed_byte_for_byte() {
    let outcome = UpstreamOutcome::Replied {
        status: 201,
        headers: vec![(b"X-Custom".to_vec(), b"v".to_vec())],
        body: br#"{"x":1}"#.to_vec(),
    };
    let r = finish_forward(outcome);
    assert_eq!(r.status, 201);
    assert_eq!(r.headers, vec![(b"X-Custom".to_vec(), b"v".to_vec())]);
    assert_eq!(r.body, br#"{"x":1}"#.to_vec());
}

#[test]
fn out_of_range_upstream_status_degrades_to_500() {
    let r = relay_response(99, Vec::new(), Vec::new());
    assert_eq!(r.status, 500);
    let r2 = relay_response(1000, Vec::new(), Vec::new());
    assert_eq!(r2.status, 500);
    let r3 = relay_response(599, Vec::new(), Vec::new());
    assert_eq!(r3.status, 599);
}

#[test]
fn connection_refusal_yields_502_with_an_error_field() {
    let outcome = UpstreamOutcome::Unavailable { details: b"connection refused".to_vec() };
    let r = finish_forward(outcome);
    assert_eq!(r.status, 502);
    assert_eq!(r.headers, vec![(b"content-type".to_vec(), b"application/json".to_vec())]);
    assert_eq!(
        r.body,
        br#"{"error":"Upstream unavailable","details":"connection refused"}"#.to_vec()
    );
}

#[test]
fn upstream_read_failure_yields_502() {
    let outcome = UpstreamOutcome::ReadFailed { details: b"reset".to_vec() };
    let r = finish_forward(outcome);
    assert_eq!(r.status, 502);
    assert_eq!(r.body, br#"{"error":"Read fail","details":"reset"}"#.to_vec());
}

#[test]
fn error_details_are_json_escaped_exactly() {
    let e = GatewayError::BodyRead { details: b"bad \"quote\" back\\slash\nnewline".to_vec() };
    let b = error_body(&e);
    assert_eq!(
        b,
        br#"{"error":"Body read fail","details":"bad \"quote\" back\\slash\u000anewline"}"#.to_vec()
    );
}

#[test]
fn rate_limit_body_has_no_details_field() {
    let b = error_body(&GatewayError::RateLimited);
    assert_eq!(b, br#"{"error":"Rate limit exceeded"}"#.to_vec());
}

#[test]
fn response_build_failure_is_a_500() {
    let e = GatewayError::ResponseBuild { details: b"boom".to_vec() };
    let b = error_body(&e);
    assert_eq!(b, br#"{"error":"Build fail","details":"boom"}"#.to_vec());
    let r = api_gateway::response::error_response(&e);
    assert_eq!(r.status, 500);
}
