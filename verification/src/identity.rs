//! Identity resolution: extracts and validates the caller's identity from
//! the request headers. A bearer credential in `Authorization` takes
//! precedence and is validated by signature and expiry; a non-empty
//! `X-API-Key` header is a deliberate low-assurance fallback; with neither,
//! resolution fails.

use crate::bytestr::api_key_subject;
use crate::bytestr::api_role;
use crate::bytestr::authorization;
use crate::bytestr::header_lookup;
use crate::bytestr::opt_bytes_view;
use crate::bytestr::spec_api_key_subject;
use crate::bytestr::spec_api_role;
use crate::bytestr::spec_authorization;
use crate::bytestr::spec_bearer_prefix;
use crate::bytestr::spec_header_lookup;
use crate::bytestr::spec_x_api_key;
use crate::bytestr::suffix_bytes;
use crate::bytestr::x_api_key;
use crate::errors::missing_claims_details;
use crate::errors::GatewayError;
use vstd::prelude::*;

verus! {

/// The resolved caller principal for one request. Expiry is an absolute
/// time in seconds since the epoch; `u64::MAX` is the "never" sentinel used
/// for API-key-derived identities.
#[derive(Debug)]
pub struct Identity {
    /// The subject identifier; never empty.
    pub subject: Vec<u8>,
    /// Optional email claim.
    pub email: Option<Vec<u8>>,
    /// Optional role tag.
    pub role: Option<Vec<u8>>,
    /// Expiry, seconds since the epoch; `u64::MAX` means never.
    pub expires_at: u64,
}

/// A well-formed identity has a non-empty subject.
pub open spec fn identity_wf(id: Identity) -> bool {
    id.subject@.len() > 0
}

/// The claim fields a decoded credential carries; each may be absent from
/// the token's payload.
pub struct RawClaims {
    /// The `sub` claim, when present and a string.
    pub sub: Option<Vec<u8>>,
    /// The `email` claim, when present and a string.
    pub email: Option<Vec<u8>>,
    /// The `role` claim, when present and a string.
    pub role: Option<Vec<u8>>,
    /// The `exp` claim, when present and a non-negative integer.
    pub exp: Option<u64>,
}

/// The mathematical view of a decoded credential's claims.
pub struct ClaimsData {
    /// The `sub` claim.
    pub sub: Option<Seq<u8>>,
    /// The `email` claim.
    pub email: Option<Seq<u8>>,
    /// The `role` claim.
    pub role: Option<Seq<u8>>,
    /// The `exp` claim.
    pub exp: Option<u64>,
}

/// The view of decoded claims.
pub open spec fn spec_raw_view(c: RawClaims) -> ClaimsData {
    ClaimsData {
        sub: opt_bytes_view(c.sub),
        email: opt_bytes_view(c.email),
        role: opt_bytes_view(c.role),
        exp: c.exp,
    }
}

/// What decoding a bearer credential against a secret yields: `None` when
/// the token is malformed or its signature does not match the secret, and
/// the claim fields otherwise. Signature verification is a fixed symmetric
/// computation, so the outcome is a function of the two byte strings alone.
pub uninterp spec fn jwt_verify(token: Seq<u8>, secret: Seq<u8>) -> Option<ClaimsData>;

/// Relies on jsonwebtoken::decode over HS256, under the crate's default
/// pure-Rust crypto provider: it parses the token, checks its HMAC
/// signature against `secret`, and deserializes the payload. Expiry and
/// audience validation are disabled here (expiry is enforced by the caller
/// against the supplied clock), so the outcome depends on the token and
/// secret bytes alone. The error value carries jsonwebtoken's own message.
#[verifier::external_body]
fn jwt_decode(token: &Vec<u8>, secret: &Vec<u8>) -> (r: Result<RawClaims, Vec<u8>>)
    ensures
        r is Ok <==> jwt_verify(token@, secret@) is Some,
        (r matches Ok(c) ==> spec_raw_view(c) == jwt_verify(token@, secret@).unwrap()),
{
    let mut v = jsonwebtoken::Validation::new(jsonwebtoken::Algorithm::HS256);
    v.validate_exp = false;
    v.validate_aud = false;
    v.required_spec_claims = Default::default();
    let key = jsonwebtoken::DecodingKey::from_secret(secret.as_slice());
    match jsonwebtoken::decode::<serde_json::Value>(token.as_slice(), &key, &v) {
        Ok(d) => {
            let s = |k: &str| d.claims.get(k).and_then(|x| x.as_str()).map(|x| x.as_bytes().to_vec());
            let exp = d.claims.get("exp").and_then(|x| x.as_u64());
            Ok(RawClaims { sub: s("sub"), email: s("email"), role: s("role"), exp })
        }
        Err(e) => Err(e.to_string().into_bytes()),
    }
}

/// The bearer token of a header set: the `Authorization` value with its
/// `Bearer ` prefix stripped, when the value has that form.
pub open spec fn spec_bearer_token(hs: Seq<(Vec<u8>, Vec<u8>)>) -> Option<Seq<u8>> {
    match spec_header_lookup(hs, spec_authorization()) {
        Option::Some(v) => if v.len() >= 7 && v.subrange(0, 7) == spec_bearer_prefix() {
            Option::Some(v.skip(7))
        } else {
            Option::None
        },
        Option::None => Option::None,
    }
}

/// Decoded claims are accepted only with a fixed schema: a non-empty
/// subject and an expiry are required; email and role stay optional.
pub open spec fn spec_claims_ok(c: ClaimsData) -> bool {
    &&& c.sub matches Option::Some(s) && s.len() > 0
    &&& c.exp is Some
}

/// How one request's headers resolve at instant `now_unix_secs`.
pub enum SpecResolution {
    /// A principal was resolved.
    Resolved {
        /// The subject identifier.
        sub: Seq<u8>,
        /// Optional email claim.
        email: Option<Seq<u8>>,
        /// Optional role tag.
        role: Option<Seq<u8>>,
        /// Expiry, seconds since the epoch.
        expires_at: u64,
    },
    /// Neither credential form was supplied.
    MissingCredentials,
    /// A bearer credential was supplied but rejected.
    BadToken,
    /// A bearer credential was supplied whose expiry is not in the future.
    Expired,
}

/// The identity resolution rule: a bearer credential takes precedence and
/// must carry a valid signature, the required claims, and an expiry after
/// `now_unix_secs`; otherwise a non-empty `X-API-Key` value yields the
/// fixed API-key principal with unbounded expiry; with neither, resolution
/// fails.
pub open spec fn spec_resolve(hs: Seq<(Vec<u8>, Vec<u8>)>, secret: Seq<u8>, now_unix_secs: u64) -> SpecResolution {
    match spec_bearer_token(hs) {
        Option::Some(tok) => match jwt_verify(tok, secret) {
            Option::Some(c) => if !spec_claims_ok(c) {
                SpecResolution::BadToken
            } else if c.exp.unwrap() <= now_unix_secs {
                SpecResolution::Expired
            } else {
                SpecResolution::Resolved {
                    sub: c.sub.unwrap(),
                    email: c.email,
                    role: c.role,
                    expires_at: c.exp.unwrap(),
                }
            },
            Option::None => SpecResolution::BadToken,
        },
        Option::None => match spec_header_lookup(hs, spec_x_api_key()) {
            Option::Some(k) => if k.len() > 0 {
                SpecResolution::Resolved {
                    sub: spec_api_key_subject(),
                    email: Option::None,
                    role: Option::Some(spec_api_role()),
                    expires_at: u64::MAX,
                }
            } else {
                SpecResolution::MissingCredentials
            },
            Option::None => SpecResolution::MissingCredentials,
        },
    }
}

/// Whether `v` begins with `Bearer `.
fn has_bearer_prefix(v: &Vec<u8>) -> (r: bool)
    ensures
        r == (v@.len() >= 7 && v@.subrange(0, 7) == spec_bearer_prefix()),
{
    if v.len() < 7 {
        return false;
    }
    let r = v[0] == 66 && v[1] == 101 && v[2] == 97 && v[3] == 114 && v[4] == 101 && v[5] == 114
        && v[6] == 32;
    proof {
        if r {
            assert(v@.subrange(0, 7) =~= spec_bearer_prefix());
        } else {
            assert(v@.subrange(0, 7) != spec_bearer_prefix());
        }
    }
    r
}

/// Resolves the caller's identity from the request headers, exactly as
/// `spec_resolve` says: the resolved principal on success, and the matching
/// authentication error otherwise.
pub fn resolve_identity(headers: &Vec<(Vec<u8>, Vec<u8>)>, secret: &Vec<u8>, now_unix_secs: u64) -> (r:
    Result<Identity, GatewayError>)
    ensures
        (match spec_resolve(headers@, secret@, now_unix_secs) {
            SpecResolution::Resolved { sub, email, role, expires_at } => {
                &&& r matches Ok(id)
                &&& id.subject@ == sub
                &&& opt_bytes_view(id.email) == email
                &&& opt_bytes_view(id.role) == role
                &&& id.expires_at == expires_at
                &&& identity_wf(id)
            },
            SpecResolution::MissingCredentials => r matches Err(e) && e is AuthRequired,
            SpecResolution::BadToken => r matches Err(e) && e is InvalidToken,
            SpecResolution::Expired => r matches Err(e) && e is TokenExpired,
        }),
{
    let auth = header_lookup(headers, &authorization());
    let bearer: Option<Vec<u8>> = match auth {
        Option::Some(v) => if has_bearer_prefix(v) {
            Some(suffix_bytes(v, 7))
        } else {
            None
        },
        Option::None => None,
    };
    match bearer {
        Option::Some(tok) => match jwt_decode(&tok, secret) {
            Ok(raw) => {
                let sub_ok: Option<Vec<u8>> = match raw.sub {
                    Option::Some(s) => if s.len() > 0 {
                        Some(s)
                    } else {
                        None
                    },
                    Option::None => None,
                };
                match (sub_ok, raw.exp) {
                    (Option::Some(subject), Option::Some(exp)) => if exp > now_unix_secs {
                        Ok(Identity { subject, email: raw.email, role: raw.role, expires_at: exp })
                    } else {
                        Err(GatewayError::TokenExpired)
                    },
                    _ => Err(GatewayError::InvalidToken { details: missing_claims_details() }),
                }
            }
            Err(details) => Err(GatewayError::InvalidToken { details }),
        },
        Option::None => {
            let key = header_lookup(headers, &x_api_key());
            match key {
                Option::Some(k) => if k.len() > 0 {
                    Ok(Identity {
                        subject: api_key_subject(),
                        email: None,
                        role: Some(api_role()),
                        expires_at: u64::MAX,
                    })
                } else {
                    Err(GatewayError::AuthRequired)
                },
                Option::None => Err(GatewayError::AuthRequired),
            }
        }
    }
}

} // verus!
