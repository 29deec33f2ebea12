//! The pipeline orchestrator: per request, resolve identity, then check
//! and consume the rate-limit budget, then plan the upstream forward — in
//! that fixed order, short-circuiting into a client-facing error response
//! at the first failing stage. An unauthenticated request never touches
//! the registry, and only an admitted request yields an upstream plan.

use crate::bucket::spec_admits;
use crate::bucket::spec_after_consume;
use crate::bytestr::headers_view;
use crate::bytestr::opt_bytes_view;
use crate::errors::spec_error_body;
use crate::errors::GatewayError;
use crate::forward::plan_forward;
use crate::forward::spec_forward_headers;
use crate::forward::spec_target_url;
use crate::forward::UpstreamPlan;
use crate::identity::resolve_identity;
use crate::identity::spec_resolve;
use crate::identity::Identity;
use crate::identity::SpecResolution;
use crate::registry::spec_bucket_for;
use crate::registry::RateRegistry;
use crate::response::error_response;
use crate::response::spec_error_headers;
use crate::response::ClientResponse;
use vstd::prelude::*;

verus! {

/// Process-wide, read-only configuration the pipeline works against:
/// the upstream base URL and the shared signing secret, injected at
/// construction.
pub struct GatewayConfig {
    /// The upstream base URL, e.g. `http://core-engine:8081`.
    pub upstream_base: Vec<u8>,
    /// The shared secret that bearer credentials are validated against.
    pub jwt_secret: Vec<u8>,
}

/// What the pipeline decides for one request.
pub enum PipelineDecision {
    /// All stages passed: replay `plan` against the upstream on behalf of
    /// `identity`.
    Forward {
        /// The resolved caller.
        identity: Identity,
        /// The reconstructed upstream request.
        plan: UpstreamPlan,
    },
    /// A stage failed: answer the client with `response` and do not call
    /// the upstream.
    Reject {
        /// The client-facing error response.
        response: ClientResponse,
    },
}

/// Runs the request pipeline in fixed order — resolve, admit, plan — and
/// short-circuits at the first failing stage. The contract covers every
/// path: an unauthenticated or expired credential leaves the registry
/// untouched and yields the 401 response; a resolved identity consumes
/// from exactly its own bucket; denial yields the 429 response; and
/// admission yields the verbatim forwarding plan.
pub fn run_pipeline(
    config: &GatewayConfig,
    method: Vec<u8>,
    path: &Vec<u8>,
    query: &Option<Vec<u8>>,
    headers: &Vec<(Vec<u8>, Vec<u8>)>,
    body: Vec<u8>,
    now_unix_secs: u64,
    now_mono_ns: u64,
    registry: &mut RateRegistry,
) -> (d: PipelineDecision)
    ensures
        (match spec_resolve(headers@, config.jwt_secret@, now_unix_secs) {
            SpecResolution::Resolved { sub, email, role, expires_at } => {
                let prior = spec_bucket_for(old(registry).buckets(), sub, now_mono_ns);
                &&& final(registry).buckets() == old(registry).buckets().insert(
                    sub,
                    spec_after_consume(prior, now_mono_ns),
                )
                &&& if spec_admits(prior, now_mono_ns) {
                    &&& d matches PipelineDecision::Forward { identity, plan }
                    &&& identity.subject@ == sub
                    &&& opt_bytes_view(identity.email) == email
                    &&& opt_bytes_view(identity.role) == role
                    &&& identity.expires_at == expires_at
                    &&& plan.method == method
                    &&& plan.url@ == spec_target_url(
                        config.upstream_base@,
                        path@,
                        opt_bytes_view(*query),
                    )
                    &&& headers_view(plan.headers@) == spec_forward_headers(
                        headers_view(headers@),
                    )
                    &&& plan.body == body
                } else {
                    &&& d matches PipelineDecision::Reject { response }
                    &&& response.status == 429
                    &&& response.body@ == spec_error_body(GatewayError::RateLimited)
                    &&& headers_view(response.headers@) == spec_error_headers()
                }
            },
            SpecResolution::MissingCredentials => {
                &&& final(registry).buckets() == old(registry).buckets()
                &&& d matches PipelineDecision::Reject { response }
                &&& response.status == 401
                &&& response.body@ == spec_error_body(GatewayError::AuthRequired)
                &&& headers_view(response.headers@) == spec_error_headers()
            },
            SpecResolution::BadToken => {
                &&& final(registry).buckets() == old(registry).buckets()
                &&& d matches PipelineDecision::Reject { response }
                &&& response.status == 401
                &&& (exists|dt: Vec<u8>|
                    response.body@ == spec_error_body((GatewayError::InvalidToken { details: dt })))
                &&& headers_view(response.headers@) == spec_error_headers()
            },
            SpecResolution::Expired => {
                &&& final(registry).buckets() == old(registry).buckets()
                &&& d matches PipelineDecision::Reject { response }
                &&& response.status == 401
                &&& response.body@ == spec_error_body(GatewayError::TokenExpired)
                &&& headers_view(response.headers@) == spec_error_headers()
            },
        }),
{
    let identity = match resolve_identity(headers, &config.jwt_secret, now_unix_secs) {
        Ok(id) => id,
        Err(e) => {
            let response = error_response(&e);
            proof {
                let ge = e;
                match ge {
                    GatewayError::InvalidToken { details } => {
                        assert(response.body@ == spec_error_body(
                            (GatewayError::InvalidToken { details }),
                        ));
                    }
                    _ => {}
                }
            }
            return PipelineDecision::Reject { response };
        }
    };
    let admitted = registry.grant(&identity.subject, now_mono_ns);
    if !admitted {
        return PipelineDecision::Reject { response: error_response(&GatewayError::RateLimited) };
    }
    let plan = plan_forward(&config.upstream_base, method, path, query, headers, body);
    PipelineDecision::Forward { identity, plan }
}

} // verus!
