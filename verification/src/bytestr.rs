//! Byte-string helpers and the fixed byte constants of the gateway's
//! protocol surface: header names, the bearer prefix, and the fixed
//! API-key identity values. Header and URL data is modeled as raw bytes.

use vstd::prelude::*;

verus! {

/// ASCII lowercase of one byte (`A`..`Z` is 65..90; lowercase is 32 above).
pub open spec fn spec_ascii_lower(b: u8) -> u8 {
    if 65 <= b && b <= 90 {
        (b + 32) as u8
    } else {
        b
    }
}

/// Case-insensitive equality of two ASCII byte strings.
pub open spec fn spec_eq_ignore_case(a: Seq<u8>, b: Seq<u8>) -> bool {
    a.len() == b.len() && (forall|i: int| 0 <= i < a.len() ==> spec_ascii_lower(a[i]) == spec_ascii_lower(b[i]))
}

/// Case-insensitive comparison of two byte vectors.
pub fn eq_ignore_case(a: &Vec<u8>, b: &Vec<u8>) -> (r: bool)
    ensures
        r == spec_eq_ignore_case(a@, b@),
{
    if a.len() != b.len() {
        return false;
    }
    let mut i: usize = 0;
    while i < a.len()
        invariant
            0 <= i <= a.len(),
            a@.len() == b@.len(),
            forall|j: int| 0 <= j < i ==> spec_ascii_lower(a@[j]) == spec_ascii_lower(b@[j]),
        decreases a.len() - i,
    {
        let x = a[i];
        let y = b[i];
        let lx = if 65 <= x && x <= 90 { x + 32 } else { x };
        let ly = if 65 <= y && y <= 90 { y + 32 } else { y };
        if lx != ly {
            return false;
        }
        i += 1;
    }
    true
}

/// The view of an optional byte vector.
pub open spec fn opt_bytes_view(o: Option<Vec<u8>>) -> Option<Seq<u8>> {
    match o {
        Option::Some(v) => Option::Some(v@),
        Option::None => Option::None,
    }
}

/// Copies a byte vector.
pub fn clone_bytes(v: &Vec<u8>) -> (r: Vec<u8>)
    ensures
        r@ == v@,
{
    let mut r: Vec<u8> = Vec::new();
    let mut i: usize = 0;
    while i < v.len()
        invariant
            0 <= i <= v.len(),
            r@ == v@.subrange(0, i as int),
        decreases v.len() - i,
    {
        r.push(v[i]);
        proof {
            assert(r@ =~= v@.subrange(0, i + 1 as int));
        }
        i += 1;
    }
    proof {
        assert(v@.subrange(0, v@.len() as int) =~= v@);
    }
    r
}

/// Appends `src` to `dst`.
pub fn append_bytes(dst: &mut Vec<u8>, src: &Vec<u8>)
    ensures
        final(dst)@ == old(dst)@ + src@,
{
    let mut i: usize = 0;
    while i < src.len()
        invariant
            0 <= i <= src.len(),
            dst@ == old(dst)@ + src@.subrange(0, i as int),
        decreases src.len() - i,
    {
        dst.push(src[i]);
        proof {
            assert(old(dst)@ + src@.subrange(0, i + 1 as int) =~= (old(dst)@ + src@.subrange(0, i as int)).push(src@[i as int]));
        }
        i += 1;
    }
    proof {
        assert(old(dst)@ + src@.subrange(0, src@.len() as int) =~= old(dst)@ + src@);
    }
}

/// The bytes of `v` from position `from` on.
pub fn suffix_bytes(v: &Vec<u8>, from: usize) -> (r: Vec<u8>)
    requires
        from <= v@.len(),
    ensures
        r@ == v@.skip(from as int),
{
    let mut r: Vec<u8> = Vec::new();
    let mut i: usize = from;
    while i < v.len()
        invariant
            from <= i <= v.len(),
            r@ == v@.subrange(from as int, i as int),
        decreases v.len() - i,
    {
        r.push(v[i]);
        proof {
            assert(r@ =~= v@.subrange(from as int, i + 1 as int));
        }
        i += 1;
    }
    proof {
        assert(v@.subrange(from as int, v@.len() as int) =~= v@.skip(from as int));
    }
    r
}

/// The view of one header pair.
pub open spec fn hpair_view(p: (Vec<u8>, Vec<u8>)) -> (Seq<u8>, Seq<u8>) {
    (p.0@, p.1@)
}

/// The view of a header list: each name and value as a byte sequence.
pub open spec fn headers_view(hs: Seq<(Vec<u8>, Vec<u8>)>) -> Seq<(Seq<u8>, Seq<u8>)> {
    hs.map_values(|p: (Vec<u8>, Vec<u8>)| hpair_view(p))
}

/// First value in `hs`, from position `i` on, whose name equals `name`
/// ASCII-case-insensitively.
pub open spec fn spec_header_lookup_from(hs: Seq<(Vec<u8>, Vec<u8>)>, name: Seq<u8>, i: int) -> Option<Seq<u8>>
    decreases hs.len() - i,
{
    if i < 0 || i >= hs.len() {
        Option::None
    } else if spec_eq_ignore_case(hs[i].0@, name) {
        Option::Some(hs[i].1@)
    } else {
        spec_header_lookup_from(hs, name, i + 1)
    }
}

/// First value in `hs` whose name equals `name` ASCII-case-insensitively,
/// as a request's header set is looked up.
pub open spec fn spec_header_lookup(hs: Seq<(Vec<u8>, Vec<u8>)>, name: Seq<u8>) -> Option<Seq<u8>> {
    spec_header_lookup_from(hs, name, 0)
}

/// Looks `name` up in a header list, first match first, names compared
/// ASCII-case-insensitively.
pub fn header_lookup<'a>(headers: &'a Vec<(Vec<u8>, Vec<u8>)>, name: &Vec<u8>) -> (r: Option<&'a Vec<u8>>)
    ensures
        (match r {
            Option::Some(v) => spec_header_lookup(headers@, name@) == Option::Some(v@),
            Option::None => spec_header_lookup(headers@, name@) is None,
        }),
{
    let mut i: usize = 0;
    while i < headers.len()
        invariant
            0 <= i <= headers.len(),
            spec_header_lookup_from(headers@, name@, 0) == spec_header_lookup_from(headers@, name@, i as int),
        decreases headers.len() - i,
    {
        if eq_ignore_case(&headers[i].0, name) {
            return Some(&headers[i].1);
        }
        i += 1;
    }
    None
}

/// `"authorization"`: the `Authorization` request header name.
pub open spec fn spec_authorization() -> Seq<u8> {
    seq![97u8, 117u8, 116u8, 104u8, 111u8, 114u8, 105u8, 122u8, 97u8, 116u8, 105u8, 111u8, 110u8]
}

/// Builds `"authorization"` as a byte vector.
pub fn authorization() -> (v: Vec<u8>)
    ensures
        v@ == spec_authorization(),
{
    let v: Vec<u8> = vec![97u8, 117u8, 116u8, 104u8, 111u8, 114u8, 105u8, 122u8, 97u8, 116u8, 105u8, 111u8, 110u8];
    v
}

/// `"x-api-key"`: the `X-API-Key` request header name.
pub open spec fn spec_x_api_key() -> Seq<u8> {
    seq![120u8, 45u8, 97u8, 112u8, 105u8, 45u8, 107u8, 101u8, 121u8]
}

/// Builds `"x-api-key"` as a byte vector.
pub fn x_api_key() -> (v: Vec<u8>)
    ensures
        v@ == spec_x_api_key(),
{
    let v: Vec<u8> = vec![120u8, 45u8, 97u8, 112u8, 105u8, 45u8, 107u8, 101u8, 121u8];
    v
}

/// `"host"`: the `Host` header name, excluded from forwarding.
pub open spec fn spec_host() -> Seq<u8> {
    seq![104u8, 111u8, 115u8, 116u8]
}

/// Builds `"host"` as a byte vector.
pub fn host() -> (v: Vec<u8>)
    ensures
        v@ == spec_host(),
{
    let v: Vec<u8> = vec![104u8, 111u8, 115u8, 116u8];
    v
}

/// `"Bearer "`: the bearer-credential prefix of the `Authorization` value.
pub open spec fn spec_bearer_prefix() -> Seq<u8> {
    seq![66u8, 101u8, 97u8, 114u8, 101u8, 114u8, 32u8]
}

/// Builds `"Bearer "` as a byte vector.
pub fn bearer_prefix() -> (v: Vec<u8>)
    ensures
        v@ == spec_bearer_prefix(),
{
    let v: Vec<u8> = vec![66u8, 101u8, 97u8, 114u8, 101u8, 114u8, 32u8];
    v
}

/// `"api-key-user"`: the fixed subject for API-key callers.
pub open spec fn spec_api_key_subject() -> Seq<u8> {
    seq![97u8, 112u8, 105u8, 45u8, 107u8, 101u8, 121u8, 45u8, 117u8, 115u8, 101u8, 114u8]
}

/// Builds `"api-key-user"` as a byte vector.
pub fn api_key_subject() -> (v: Vec<u8>)
    ensures
        v@ == spec_api_key_subject(),
{
    let v: Vec<u8> = vec![97u8, 112u8, 105u8, 45u8, 107u8, 101u8, 121u8, 45u8, 117u8, 115u8, 101u8, 114u8];
    v
}

/// `"api"`: the fixed role for API-key callers.
pub open spec fn spec_api_role() -> Seq<u8> {
    seq![97u8, 112u8, 105u8]
}

/// Builds `"api"` as a byte vector.
pub fn api_role() -> (v: Vec<u8>)
    ensures
        v@ == spec_api_role(),
{
    let v: Vec<u8> = vec![97u8, 112u8, 105u8];
    v
}

/// `"content-type"`: the `Content-Type` header name.
pub open spec fn spec_content_type() -> Seq<u8> {
    seq![99u8, 111u8, 110u8, 116u8, 101u8, 110u8, 116u8, 45u8, 116u8, 121u8, 112u8, 101u8]
}

/// Builds `"content-type"` as a byte vector.
pub fn content_type() -> (v: Vec<u8>)
    ensures
        v@ == spec_content_type(),
{
    let v: Vec<u8> = vec![99u8, 111u8, 110u8, 116u8, 101u8, 110u8, 116u8, 45u8, 116u8, 121u8, 112u8, 101u8];
    v
}

/// `"application/json"`: the JSON media type.
pub open spec fn spec_application_json() -> Seq<u8> {
    seq![97u8, 112u8, 112u8, 108u8, 105u8, 99u8, 97u8, 116u8, 105u8, 111u8, 110u8, 47u8, 106u8, 115u8, 111u8, 110u8]
}

/// Builds `"application/json"` as a byte vector.
pub fn application_json() -> (v: Vec<u8>)
    ensures
        v@ == spec_application_json(),
{
    let v: Vec<u8> = vec![97u8, 112u8, 112u8, 108u8, 105u8, 99u8, 97u8, 116u8, 105u8, 111u8, 110u8, 47u8, 106u8, 115u8, 111u8, 110u8];
    v
}
} // verus!
