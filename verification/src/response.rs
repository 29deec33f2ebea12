//! The inbound half of the forwarder and the client-facing responses: the
//! upstream's status, headers and body are relayed byte-for-byte; failures
//! become structured JSON error responses with the status codes of the
//! error taxonomy.

use crate::bytestr::application_json;
use crate::bytestr::content_type;
use crate::bytestr::headers_view;
use crate::bytestr::spec_application_json;
use crate::bytestr::spec_content_type;
use crate::errors::error_body;
use crate::errors::spec_error_body;
use crate::errors::spec_status;
use crate::errors::status_code;
use crate::errors::GatewayError;
use vstd::prelude::*;

verus! {

/// The response handed back to the client: a status code, headers, and a
/// body, all plain bytes.
pub struct ClientResponse {
    /// The HTTP status code.
    pub status: u16,
    /// The response headers.
    pub headers: Vec<(Vec<u8>, Vec<u8>)>,
    /// The response body.
    pub body: Vec<u8>,
}

/// The status relayed to the client: the upstream's own, except that a
/// value outside the valid HTTP range degrades to 500.
pub open spec fn spec_relay_status(status: u16) -> u16 {
    if 100 <= status && status < 1000 {
        status
    } else {
        500
    }
}

/// The headers of a gateway-produced error response: JSON content only.
pub open spec fn spec_error_headers() -> Seq<(Seq<u8>, Seq<u8>)> {
    seq![(spec_content_type(), spec_application_json())]
}

/// Relays an upstream response verbatim: status (degraded to 500 only when
/// outside the valid range), headers and body are the upstream's own bytes.
pub fn relay_response(status: u16, headers: Vec<(Vec<u8>, Vec<u8>)>, body: Vec<u8>) -> (r: ClientResponse)
    ensures
        r.status == spec_relay_status(status),
        r.headers == headers,
        r.body == body,
{
    let st = if 100 <= status && status < 1000 {
        status
    } else {
        500
    };
    ClientResponse { status: st, headers, body }
}

/// The client-facing response for a pipeline failure: the error's status
/// code, a JSON content type, and the exact JSON error body.
pub fn error_response(e: &GatewayError) -> (r: ClientResponse)
    ensures
        r.status == spec_status(*e),
        headers_view(r.headers@) == spec_error_headers(),
        r.body@ == spec_error_body(*e),
{
    let mut headers: Vec<(Vec<u8>, Vec<u8>)> = Vec::new();
    headers.push((content_type(), application_json()));
    proof {
        assert(headers_view(headers@) =~= spec_error_headers());
    }
    ClientResponse { status: status_code(e), headers, body: error_body(e) }
}

/// What came of the upstream call, as the outbound client reports it.
pub enum UpstreamOutcome {
    /// The upstream replied and its body was read fully.
    Replied {
        /// The upstream's status code.
        status: u16,
        /// The upstream's response headers, verbatim.
        headers: Vec<(Vec<u8>, Vec<u8>)>,
        /// The upstream's response body, verbatim.
        body: Vec<u8>,
    },
    /// The upstream could not be reached (network failure, connection
    /// refusal, or timeout).
    Unavailable {
        /// The client library's failure message.
        details: Vec<u8>,
    },
    /// The upstream replied but its body could not be read fully.
    ReadFailed {
        /// The client library's failure message.
        details: Vec<u8>,
    },
}

/// Turns the upstream outcome into the client's response: a reply is
/// relayed byte-for-byte, and either failure becomes the 502 gateway error
/// with its structured body — never a partial or garbled reply.
pub fn finish_forward(outcome: UpstreamOutcome) -> (r: ClientResponse)
    ensures
        (match outcome {
            UpstreamOutcome::Replied { status, headers, body } => {
                &&& r.status == spec_relay_status(status)
                &&& r.headers == headers
                &&& r.body == body
            },
            UpstreamOutcome::Unavailable { details } => {
                &&& r.status == 502
                &&& headers_view(r.headers@) == spec_error_headers()
                &&& r.body@ == spec_error_body((GatewayError::UpstreamUnavailable { details }))
            },
            UpstreamOutcome::ReadFailed { details } => {
                &&& r.status == 502
                &&& headers_view(r.headers@) == spec_error_headers()
                &&& r.body@ == spec_error_body((GatewayError::UpstreamRead { details }))
            },
        }),
{
    match outcome {
        UpstreamOutcome::Replied { status, headers, body } => relay_response(status, headers, body),
        UpstreamOutcome::Unavailable { details } => error_response(
            &(GatewayError::UpstreamUnavailable { details }),
        ),
        UpstreamOutcome::ReadFailed { details } => error_response(
            &(GatewayError::UpstreamRead { details }),
        ),
    }
}

} // verus!
