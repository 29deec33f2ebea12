//! The gateway's error taxonomy, the HTTP status each error maps to, and
//! the machine-readable JSON error body (`{"error": ..., "details": ...}`)
//! returned to the client, with exact JSON string escaping.

use crate::bytestr::append_bytes;
use vstd::prelude::*;

verus! {

/// A client-facing failure of one pipeline stage.
#[derive(Debug)]
pub enum GatewayError {
    /// Neither a bearer credential nor an API key was supplied.
    AuthRequired,
    /// The bearer credential was malformed, had a bad signature, or lacked
    /// required claims; `details` carries the human-readable reason.
    InvalidToken { details: Vec<u8> },
    /// The bearer credential's expiry lies in the past.
    TokenExpired,
    /// The identity's request budget is exhausted.
    RateLimited,
    /// The inbound request body could not be read or exceeded the bound.
    BodyRead { details: Vec<u8> },
    /// The upstream could not be reached.
    UpstreamUnavailable { details: Vec<u8> },
    /// The upstream's response body could not be read.
    UpstreamRead { details: Vec<u8> },
    /// The client-facing response could not be assembled.
    ResponseBuild { details: Vec<u8> },
}

/// The HTTP status code that each error is surfaced with.
pub open spec fn spec_status(e: GatewayError) -> u16 {
    match e {
        GatewayError::AuthRequired => 401,
        GatewayError::InvalidToken { .. } => 401,
        GatewayError::TokenExpired => 401,
        GatewayError::RateLimited => 429,
        GatewayError::BodyRead { .. } => 400,
        GatewayError::UpstreamUnavailable { .. } => 502,
        GatewayError::UpstreamRead { .. } => 502,
        GatewayError::ResponseBuild { .. } => 500,
    }
}

/// The HTTP status code for `e`.
pub fn status_code(e: &GatewayError) -> (s: u16)
    ensures
        s == spec_status(*e),
{
    match e {
        GatewayError::AuthRequired => 401,
        GatewayError::InvalidToken { .. } => 401,
        GatewayError::TokenExpired => 401,
        GatewayError::RateLimited => 429,
        GatewayError::BodyRead { .. } => 400,
        GatewayError::UpstreamUnavailable { .. } => 502,
        GatewayError::UpstreamRead { .. } => 502,
        GatewayError::ResponseBuild { .. } => 500,
    }
}

/// The short machine-readable label of `e`.
pub open spec fn spec_error_label(e: GatewayError) -> Seq<u8> {
    match e {
        GatewayError::AuthRequired => spec_auth_required_label(),
        GatewayError::InvalidToken { .. } => spec_invalid_token_label(),
        GatewayError::TokenExpired => spec_invalid_token_label(),
        GatewayError::RateLimited => spec_rate_limited_label(),
        GatewayError::BodyRead { .. } => spec_body_read_label(),
        GatewayError::UpstreamUnavailable { .. } => spec_upstream_unavailable_label(),
        GatewayError::UpstreamRead { .. } => spec_upstream_read_label(),
        GatewayError::ResponseBuild { .. } => spec_response_build_label(),
    }
}

/// The optional human-readable detail of `e`.
pub open spec fn spec_error_details(e: GatewayError) -> Option<Seq<u8>> {
    match e {
        GatewayError::AuthRequired => Option::Some(spec_auth_required_details()),
        GatewayError::InvalidToken { details } => Option::Some(details@),
        GatewayError::TokenExpired => Option::Some(spec_token_expired_details()),
        GatewayError::RateLimited => Option::None,
        GatewayError::BodyRead { details } => Option::Some(details@),
        GatewayError::UpstreamUnavailable { details } => Option::Some(details@),
        GatewayError::UpstreamRead { details } => Option::Some(details@),
        GatewayError::ResponseBuild { details } => Option::Some(details@),
    }
}

/// The hex digit (lowercase) for a value below 16.
pub open spec fn spec_hex_digit(n: u8) -> u8 {
    if n < 10 {
        (48 + n) as u8
    } else {
        (87 + n) as u8
    }
}

/// How one byte appears inside a JSON string: quote and backslash are
/// escaped, control bytes become `\u00XX`, everything else is verbatim.
pub open spec fn spec_escape_byte(b: u8) -> Seq<u8> {
    if b == 34 {
        seq![92u8, 34u8]
    } else if b == 92 {
        seq![92u8, 92u8]
    } else if b < 32 {
        seq![92u8, 117u8, 48u8, 48u8, spec_hex_digit(b / 16), spec_hex_digit(b % 16)]
    } else {
        seq![b]
    }
}

/// A byte string escaped for inclusion in a JSON string literal.
pub open spec fn spec_json_escaped(s: Seq<u8>) -> Seq<u8>
    decreases s.len(),
{
    if s.len() == 0 {
        Seq::empty()
    } else {
        spec_json_escaped(s.drop_last()) + spec_escape_byte(s.last())
    }
}

/// Escapes `s` for inclusion in a JSON string literal.
pub fn json_escape(s: &Vec<u8>) -> (r: Vec<u8>)
    ensures
        r@ == spec_json_escaped(s@),
{
    let mut out: Vec<u8> = Vec::new();
    let mut i: usize = 0;
    while i < s.len()
        invariant
            0 <= i <= s.len(),
            out@ == spec_json_escaped(s@.subrange(0, i as int)),
        decreases s.len() - i,
    {
        let b = s[i];
        if b == 34 {
            out.push(92);
            out.push(34);
        } else if b == 92 {
            out.push(92);
            out.push(92);
        } else if b < 32 {
            out.push(92);
            out.push(117);
            out.push(48);
            out.push(48);
            let hi = b / 16;
            let lo = b % 16;
            out.push(if hi < 10 { 48 + hi } else { 87 + hi });
            out.push(if lo < 10 { 48 + lo } else { 87 + lo });
        } else {
            out.push(b);
        }
        proof {
            let pre = s@.subrange(0, i as int);
            let pre1 = s@.subrange(0, i + 1 as int);
            assert(pre1.drop_last() =~= pre);
            assert(pre1.last() == s@[i as int]);
            assert(out@ =~= spec_json_escaped(pre) + spec_escape_byte(s@[i as int]));
        }
        i += 1;
    }
    proof {
        assert(s@.subrange(0, s@.len() as int) =~= s@);
    }
    out
}

/// The exact JSON error body for `e`: the label under `"error"`, and the
/// escaped detail text under `"details"` when there is one.
pub open spec fn spec_error_body(e: GatewayError) -> Seq<u8> {
    spec_json_obj_open() + spec_error_label(e) + (match spec_error_details(e) {
        Option::Some(d) => spec_json_details_mid() + spec_json_escaped(d) + spec_json_obj_close(),
        Option::None => spec_json_obj_close(),
    })
}

/// Assembles a JSON error body from a label and optional detail text.
fn assemble_body(label: &Vec<u8>, details: Option<&Vec<u8>>) -> (b: Vec<u8>)
    ensures
        b@ == spec_json_obj_open() + label@ + (match details {
            Option::Some(d) => spec_json_details_mid() + spec_json_escaped(d@) + spec_json_obj_close(),
            Option::None => spec_json_obj_close(),
        }),
{
    let mut b = json_obj_open();
    append_bytes(&mut b, label);
    match details {
        Option::Some(d) => {
            append_bytes(&mut b, &json_details_mid());
            append_bytes(&mut b, &json_escape(d));
            append_bytes(&mut b, &json_obj_close());
        }
        Option::None => {
            append_bytes(&mut b, &json_obj_close());
        }
    }
    b
}

/// The JSON error body for `e`, exactly `spec_error_body(e)`.
pub fn error_body(e: &GatewayError) -> (b: Vec<u8>)
    ensures
        b@ == spec_error_body(*e),
{
    match e {
        GatewayError::AuthRequired => assemble_body(&auth_required_label(), Some(&auth_required_details())),
        GatewayError::InvalidToken { details } => assemble_body(&invalid_token_label(), Some(details)),
        GatewayError::TokenExpired => assemble_body(&invalid_token_label(), Some(&token_expired_details())),
        GatewayError::RateLimited => assemble_body(&rate_limited_label(), None),
        GatewayError::BodyRead { details } => assemble_body(&body_read_label(), Some(details)),
        GatewayError::UpstreamUnavailable { details } => assemble_body(&upstream_unavailable_label(), Some(details)),
        GatewayError::UpstreamRead { details } => assemble_body(&upstream_read_label(), Some(details)),
        GatewayError::ResponseBuild { details } => assemble_body(&response_build_label(), Some(details)),
    }
}

/// `Auth required`: the error label for missing credentials.
pub open spec fn spec_auth_required_label() -> Seq<u8> {
    seq![65u8, 117u8, 116u8, 104u8, 32u8, 114u8, 101u8, 113u8, 117u8, 105u8, 114u8, 101u8, 100u8]
}

/// Builds the same bytes as a vector.
pub fn auth_required_label() -> (v: Vec<u8>)
    ensures
        v@ == spec_auth_required_label(),
{
    let v: Vec<u8> = vec![65u8, 117u8, 116u8, 104u8, 32u8, 114u8, 101u8, 113u8, 117u8, 105u8, 114u8, 101u8, 100u8];
    v
}

/// `Provide Bearer token or X-API-Key`: the detail text for missing credentials.
pub open spec fn spec_auth_required_details() -> Seq<u8> {
    seq![80u8, 114u8, 111u8, 118u8, 105u8, 100u8, 101u8, 32u8, 66u8, 101u8, 97u8, 114u8, 101u8, 114u8, 32u8, 116u8, 111u8, 107u8, 101u8, 110u8, 32u8, 111u8, 114u8, 32u8, 88u8, 45u8, 65u8, 80u8, 73u8, 45u8, 75u8, 101u8, 121u8]
}

/// Builds the same bytes as a vector.
pub fn auth_required_details() -> (v: Vec<u8>)
    ensures
        v@ == spec_auth_required_details(),
{
    let v: Vec<u8> = vec![80u8, 114u8, 111u8, 118u8, 105u8, 100u8, 101u8, 32u8, 66u8, 101u8, 97u8, 114u8, 101u8, 114u8, 32u8, 116u8, 111u8, 107u8, 101u8, 110u8, 32u8, 111u8, 114u8, 32u8, 88u8, 45u8, 65u8, 80u8, 73u8, 45u8, 75u8, 101u8, 121u8];
    v
}

/// `Invalid token`: the error label for a rejected bearer credential.
pub open spec fn spec_invalid_token_label() -> Seq<u8> {
    seq![73u8, 110u8, 118u8, 97u8, 108u8, 105u8, 100u8, 32u8, 116u8, 111u8, 107u8, 101u8, 110u8]
}

/// Builds the same bytes as a vector.
pub fn invalid_token_label() -> (v: Vec<u8>)
    ensures
        v@ == spec_invalid_token_label(),
{
    let v: Vec<u8> = vec![73u8, 110u8, 118u8, 97u8, 108u8, 105u8, 100u8, 32u8, 116u8, 111u8, 107u8, 101u8, 110u8];
    v
}

/// `token expired`: the detail text for an expired credential.
pub open spec fn spec_token_expired_details() -> Seq<u8> {
    seq![116u8, 111u8, 107u8, 101u8, 110u8, 32u8, 101u8, 120u8, 112u8, 105u8, 114u8, 101u8, 100u8]
}

/// Builds the same bytes as a vector.
pub fn token_expired_details() -> (v: Vec<u8>)
    ensures
        v@ == spec_token_expired_details(),
{
    let v: Vec<u8> = vec![116u8, 111u8, 107u8, 101u8, 110u8, 32u8, 101u8, 120u8, 112u8, 105u8, 114u8, 101u8, 100u8];
    v
}

/// `missing required claims`: the detail text for a credential without subject or expiry.
pub open spec fn spec_missing_claims_details() -> Seq<u8> {
    seq![109u8, 105u8, 115u8, 115u8, 105u8, 110u8, 103u8, 32u8, 114u8, 101u8, 113u8, 117u8, 105u8, 114u8, 101u8, 100u8, 32u8, 99u8, 108u8, 97u8, 105u8, 109u8, 115u8]
}

/// Builds the same bytes as a vector.
pub fn missing_claims_details() -> (v: Vec<u8>)
    ensures
        v@ == spec_missing_claims_details(),
{
    let v: Vec<u8> = vec![109u8, 105u8, 115u8, 115u8, 105u8, 110u8, 103u8, 32u8, 114u8, 101u8, 113u8, 117u8, 105u8, 114u8, 101u8, 100u8, 32u8, 99u8, 108u8, 97u8, 105u8, 109u8, 115u8];
    v
}

/// `Rate limit exceeded`: the error label for an exhausted budget.
pub open spec fn spec_rate_limited_label() -> Seq<u8> {
    seq![82u8, 97u8, 116u8, 101u8, 32u8, 108u8, 105u8, 109u8, 105u8, 116u8, 32u8, 101u8, 120u8, 99u8, 101u8, 101u8, 100u8, 101u8, 100u8]
}

/// Builds the same bytes as a vector.
pub fn rate_limited_label() -> (v: Vec<u8>)
    ensures
        v@ == spec_rate_limited_label(),
{
    let v: Vec<u8> = vec![82u8, 97u8, 116u8, 101u8, 32u8, 108u8, 105u8, 109u8, 105u8, 116u8, 32u8, 101u8, 120u8, 99u8, 101u8, 101u8, 100u8, 101u8, 100u8];
    v
}

/// `Body read fail`: the error label for an unreadable inbound body.
pub open spec fn spec_body_read_label() -> Seq<u8> {
    seq![66u8, 111u8, 100u8, 121u8, 32u8, 114u8, 101u8, 97u8, 100u8, 32u8, 102u8, 97u8, 105u8, 108u8]
}

/// Builds the same bytes as a vector.
pub fn body_read_label() -> (v: Vec<u8>)
    ensures
        v@ == spec_body_read_label(),
{
    let v: Vec<u8> = vec![66u8, 111u8, 100u8, 121u8, 32u8, 114u8, 101u8, 97u8, 100u8, 32u8, 102u8, 97u8, 105u8, 108u8];
    v
}

/// `Upstream unavailable`: the error label for an unreachable upstream.
pub open spec fn spec_upstream_unavailable_label() -> Seq<u8> {
    seq![85u8, 112u8, 115u8, 116u8, 114u8, 101u8, 97u8, 109u8, 32u8, 117u8, 110u8, 97u8, 118u8, 97u8, 105u8, 108u8, 97u8, 98u8, 108u8, 101u8]
}

/// Builds the same bytes as a vector.
pub fn upstream_unavailable_label() -> (v: Vec<u8>)
    ensures
        v@ == spec_upstream_unavailable_label(),
{
    let v: Vec<u8> = vec![85u8, 112u8, 115u8, 116u8, 114u8, 101u8, 97u8, 109u8, 32u8, 117u8, 110u8, 97u8, 118u8, 97u8, 105u8, 108u8, 97u8, 98u8, 108u8, 101u8];
    v
}

/// `Read fail`: the error label for an unreadable upstream response.
pub open spec fn spec_upstream_read_label() -> Seq<u8> {
    seq![82u8, 101u8, 97u8, 100u8, 32u8, 102u8, 97u8, 105u8, 108u8]
}

/// Builds the same bytes as a vector.
pub fn upstream_read_label() -> (v: Vec<u8>)
    ensures
        v@ == spec_upstream_read_label(),
{
    let v: Vec<u8> = vec![82u8, 101u8, 97u8, 100u8, 32u8, 102u8, 97u8, 105u8, 108u8];
    v
}

/// `Build fail`: the error label for a response-assembly failure.
pub open spec fn spec_response_build_label() -> Seq<u8> {
    seq![66u8, 117u8, 105u8, 108u8, 100u8, 32u8, 102u8, 97u8, 105u8, 108u8]
}

/// Builds the same bytes as a vector.
pub fn response_build_label() -> (v: Vec<u8>)
    ensures
        v@ == spec_response_build_label(),
{
    let v: Vec<u8> = vec![66u8, 117u8, 105u8, 108u8, 100u8, 32u8, 102u8, 97u8, 105u8, 108u8];
    v
}

/// `{"error":"`: the opening of the error body.
pub open spec fn spec_json_obj_open() -> Seq<u8> {
    seq![123u8, 34u8, 101u8, 114u8, 114u8, 111u8, 114u8, 34u8, 58u8, 34u8]
}

/// Builds the same bytes as a vector.
pub fn json_obj_open() -> (v: Vec<u8>)
    ensures
        v@ == spec_json_obj_open(),
{
    let v: Vec<u8> = vec![123u8, 34u8, 101u8, 114u8, 114u8, 111u8, 114u8, 34u8, 58u8, 34u8];
    v
}

/// `","details":"`: the separator before the detail text.
pub open spec fn spec_json_details_mid() -> Seq<u8> {
    seq![34u8, 44u8, 34u8, 100u8, 101u8, 116u8, 97u8, 105u8, 108u8, 115u8, 34u8, 58u8, 34u8]
}

/// Builds the same bytes as a vector.
pub fn json_details_mid() -> (v: Vec<u8>)
    ensures
        v@ == spec_json_details_mid(),
{
    let v: Vec<u8> = vec![34u8, 44u8, 34u8, 100u8, 101u8, 116u8, 97u8, 105u8, 108u8, 115u8, 34u8, 58u8, 34u8];
    v
}

/// `"}`: the close of the error body.
pub open spec fn spec_json_obj_close() -> Seq<u8> {
    seq![34u8, 125u8]
}

/// Builds the same bytes as a vector.
pub fn json_obj_close() -> (v: Vec<u8>)
    ensures
        v@ == spec_json_obj_close(),
{
    let v: Vec<u8> = vec![34u8, 125u8];
    v
}
} // verus!
