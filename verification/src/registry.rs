//! The rate-limit registry: a concurrent mapping from subject identifier to
//! its token bucket. Buckets are created lazily with the default budget on
//! a subject's first request, and refill-then-consume runs as one critical
//! section per subject (per-key locking, no contention across identities).
//! The bucket arithmetic applied under the lock is the verified
//! `TokenBucket::try_consume`.

use crate::bucket::lemma_tokens_bounded;
use crate::bucket::spec_admits;
use crate::bucket::spec_after_consume;
use crate::bucket::spec_fresh_bucket;
use crate::bucket::TokenBucket;
use vstd::prelude::*;

verus! {

#[verifier::external_type_specification]
#[verifier::external_body]
#[verifier::reject_recursive_types(K)]
#[verifier::reject_recursive_types(V)]
#[verifier::reject_recursive_types(S)]
pub struct ExDashMap<K, V, S>(dashmap::DashMap<K, V, S>);

/// The token buckets a concurrent map holds, keyed by subject bytes.
pub uninterp spec fn dashmap_buckets(m: dashmap::DashMap<Vec<u8>, TokenBucket>) -> Map<Seq<u8>, TokenBucket>;

/// A registry content with no buckets at all.
pub open spec fn spec_no_buckets() -> Map<Seq<u8>, TokenBucket> {
    Map::empty()
}

/// The bucket that an admission for `subject` at instant `now_ns` starts
/// from: the stored one, or a fresh full bucket on the subject's first
/// request.
pub open spec fn spec_bucket_for(m: Map<Seq<u8>, TokenBucket>, subject: Seq<u8>, now_ns: u64) -> TokenBucket {
    if m.dom().contains(subject) {
        m[subject]
    } else {
        spec_fresh_bucket(now_ns)
    }
}

/// Law: one admission keeps every bucket within `0 <= tokens <= capacity`:
/// untouched buckets are unchanged, and the touched subject's bucket is a
/// refill-then-consume result, which is bounded — so any sequence of
/// admissions preserves the bound for all buckets in the registry.
pub proof fn lemma_grant_keeps_buckets_bounded(m: Map<Seq<u8>, TokenBucket>, subject: Seq<u8>, now_ns: u64)
    requires
        forall|s: Seq<u8>| #[trigger] m.dom().contains(s) ==> m[s].tokens <= m[s].capacity,
    ensures
        ({
            let m2 = m.insert(subject, spec_after_consume(spec_bucket_for(m, subject, now_ns), now_ns));
            forall|s: Seq<u8>| #[trigger] m2.dom().contains(s) ==> m2[s].tokens <= m2[s].capacity
        }),
{
    lemma_tokens_bounded(spec_bucket_for(m, subject, now_ns), now_ns);
}

/// Per-identity request budgets: at most one bucket per subject identifier,
/// mutated atomically per key.
pub struct RateRegistry {
    /// The underlying concurrent map; reached only through the methods
    /// below, whose contracts speak of `dashmap_buckets` of it.
    pub map: dashmap::DashMap<Vec<u8>, TokenBucket>,
}

impl RateRegistry {
    /// The buckets the registry holds, keyed by subject identifier.
    pub open spec fn buckets(self) -> Map<Seq<u8>, TokenBucket> {
        dashmap_buckets(self.map)
    }

    /// An empty registry.
    ///
    /// Relies on dashmap::DashMap::new: the new map holds no entries.
    #[verifier::external_body]
    pub fn new() -> (r: RateRegistry)
        ensures
            dashmap_buckets(r.map) == spec_no_buckets(),
    {
        RateRegistry { map: dashmap::DashMap::new() }
    }

    /// Looks up or lazily creates the bucket for `subject`, then performs
    /// refill-then-consume on it; returns whether the request is admitted.
    ///
    /// Relies on dashmap's entry API (DashMap::entry, Entry::and_modify,
    /// Entry::or_insert_with): an occupied entry has the first closure
    /// applied to its value under the key's shard write lock, a vacant one
    /// is created with the second closure's result, and the whole
    /// read-modify-write is serialized per key. The closures only call the
    /// verified `TokenBucket::fresh` and `TokenBucket::try_consume`, whose
    /// contracts this one restates over the map's contents.
    #[verifier::external_body]
    pub fn grant(&mut self, subject: &Vec<u8>, now_ns: u64) -> (admitted: bool)
        ensures
            admitted == spec_admits(spec_bucket_for(dashmap_buckets(old(self).map), subject@, now_ns), now_ns),
            dashmap_buckets(final(self).map) == dashmap_buckets(old(self).map).insert(
                subject@,
                spec_after_consume(
                    spec_bucket_for(dashmap_buckets(old(self).map), subject@, now_ns),
                    now_ns,
                ),
            ),
    {
        let mut admitted = false;
        self.map.entry(subject.clone()).and_modify(|b| {
            admitted = b.try_consume(now_ns);
        }).or_insert_with(|| {
            let mut b = TokenBucket::fresh(now_ns);
            admitted = b.try_consume(now_ns);
            b
        });
        admitted
    }
}

} // verus!
