//! The outbound half of the forwarder: from the buffered inbound request,
//! construct the upstream request — target URL `base + path + ('?' +
//! query)`, method and body verbatim, and every header verbatim except
//! `Host` (matched case-insensitively), which is omitted so the outbound
//! client sets it for the upstream itself.

use crate::bytestr::append_bytes;
use crate::bytestr::clone_bytes;
use crate::bytestr::eq_ignore_case;
use crate::bytestr::headers_view;
use crate::bytestr::host;
use crate::bytestr::hpair_view;
use crate::bytestr::opt_bytes_view;
use crate::bytestr::spec_eq_ignore_case;
use crate::bytestr::spec_host;
use vstd::prelude::*;

verus! {

/// The reconstructed upstream request: everything the outbound client
/// needs, ready to be replayed verbatim.
pub struct UpstreamPlan {
    /// The inbound method, verbatim.
    pub method: Vec<u8>,
    /// The absolute target URL.
    pub url: Vec<u8>,
    /// The inbound headers with `Host` omitted.
    pub headers: Vec<(Vec<u8>, Vec<u8>)>,
    /// The inbound body, verbatim.
    pub body: Vec<u8>,
}

/// The upstream target: the base URL, the inbound path, and the inbound
/// query behind a `?` when there is one.
pub open spec fn spec_target_url(base: Seq<u8>, path: Seq<u8>, query: Option<Seq<u8>>) -> Seq<u8> {
    base + path + (match query {
        Option::Some(q) => seq![63u8] + q,
        Option::None => Seq::empty(),
    })
}

/// Whether a header name is `Host`, case-insensitively.
pub open spec fn spec_is_host(name: Seq<u8>) -> bool {
    spec_eq_ignore_case(name, spec_host())
}

/// The headers that are forwarded: all of them, in order, except `Host`.
pub open spec fn spec_forward_headers(hs: Seq<(Seq<u8>, Seq<u8>)>) -> Seq<(Seq<u8>, Seq<u8>)> {
    hs.filter(|h: (Seq<u8>, Seq<u8>)| !spec_is_host(h.0))
}

proof fn lemma_headers_view_push(hs: Seq<(Vec<u8>, Vec<u8>)>, p: (Vec<u8>, Vec<u8>))
    ensures
        headers_view(hs.push(p)) == headers_view(hs).push(hpair_view(p)),
{
    assert(headers_view(hs.push(p)) =~= headers_view(hs).push(hpair_view(p)));
}

proof fn lemma_forward_headers_push(s: Seq<(Seq<u8>, Seq<u8>)>, x: (Seq<u8>, Seq<u8>))
    ensures
        !spec_is_host(x.0) ==> spec_forward_headers(s.push(x)) == spec_forward_headers(s).push(x),
        spec_is_host(x.0) ==> spec_forward_headers(s.push(x)) == spec_forward_headers(s),
{
    reveal_with_fuel(Seq::<(Seq<u8>, Seq<u8>)>::filter, 2);
    assert(s.push(x).drop_last() =~= s);
    assert(s.push(x).last() == x);
}

/// Builds the upstream target URL.
pub fn build_target_url(base: &Vec<u8>, path: &Vec<u8>, query: &Option<Vec<u8>>) -> (u: Vec<u8>)
    ensures
        u@ == spec_target_url(base@, path@, opt_bytes_view(*query)),
{
    let mut u = clone_bytes(base);
    append_bytes(&mut u, path);
    match query {
        Option::Some(q) => {
            u.push(63);
            append_bytes(&mut u, q);
            proof {
                assert(u@ =~= spec_target_url(base@, path@, opt_bytes_view(*query)));
            }
        }
        Option::None => {
            proof {
                assert(u@ =~= spec_target_url(base@, path@, opt_bytes_view(*query)));
            }
        }
    }
    u
}

/// Copies the inbound headers, dropping `Host` (case-insensitive) and
/// nothing else, order and bytes kept.
pub fn filter_forward_headers(headers: &Vec<(Vec<u8>, Vec<u8>)>) -> (kept: Vec<(Vec<u8>, Vec<u8>)>)
    ensures
        headers_view(kept@) == spec_forward_headers(headers_view(headers@)),
{
    let host_name = host();
    let mut kept: Vec<(Vec<u8>, Vec<u8>)> = Vec::new();
    let mut i: usize = 0;
    while i < headers.len()
        invariant
            0 <= i <= headers.len(),
            headers_view(kept@) == spec_forward_headers(headers_view(headers@.subrange(0, i as int))),
            host_name@ == spec_host(),
        decreases headers.len() - i,
    {
        let ghost pre = headers@.subrange(0, i as int);
        let ghost kept0 = kept@;
        let keep = !eq_ignore_case(&headers[i].0, &host_name);
        if keep {
            let pair = (clone_bytes(&headers[i].0), clone_bytes(&headers[i].1));
            let ghost gp = pair;
            kept.push(pair);
            proof {
                lemma_headers_view_push(kept0, gp);
                assert(hpair_view(gp) == hpair_view(headers@[i as int]));
            }
        }
        proof {
            assert(headers@.subrange(0, i + 1 as int) =~= pre.push(headers@[i as int]));
            lemma_headers_view_push(pre, headers@[i as int]);
            lemma_forward_headers_push(headers_view(pre), hpair_view(headers@[i as int]));
        }
        i += 1;
    }
    proof {
        assert(headers@.subrange(0, headers@.len() as int) =~= headers@);
    }
    kept
}

/// Reconstructs the upstream request from the buffered inbound one:
/// method and body verbatim, the target URL from base, path and query, and
/// the headers with only `Host` left out.
pub fn plan_forward(
    base: &Vec<u8>,
    method: Vec<u8>,
    path: &Vec<u8>,
    query: &Option<Vec<u8>>,
    headers: &Vec<(Vec<u8>, Vec<u8>)>,
    body: Vec<u8>,
) -> (p: UpstreamPlan)
    ensures
        p.method == method,
        p.url@ == spec_target_url(base@, path@, opt_bytes_view(*query)),
        headers_view(p.headers@) == spec_forward_headers(headers_view(headers@)),
        p.body == body,
{
    UpstreamPlan {
        url: build_target_url(base, path, query),
        headers: filter_forward_headers(headers),
        method,
        body,
    }
}

} // verus!
