//! Per-identity request-budget counter: a token bucket with continuous refill.
//!
//! Token amounts are held in fixed-point units so that the refill arithmetic
//! is exact: one request token is `TOKEN_UNIT` units, and the default refill
//! rate of 20000 tokens per hour comes out as a whole number of units per
//! nanosecond (50 units/ns = 20000/3600 tokens per second).

use vstd::arithmetic::mul::lemma_mul_inequality;
use vstd::arithmetic::mul::lemma_mul_nonnegative;
use vstd::arithmetic::mul::lemma_mul_upper_bound;
use vstd::prelude::*;

verus! {

/// One request token, in fixed-point units.
pub const TOKEN_UNIT: u64 = 9_000_000_000;

/// Default bucket capacity: a budget of 20000 requests.
pub const DEFAULT_CAPACITY_UNITS: u64 = 20000 * TOKEN_UNIT;

/// Default refill rate in units per nanosecond; equals 20000/3600 tokens
/// per second exactly.
pub const DEFAULT_REFILL_UNITS_PER_NS: u64 = 50;

/// Nanoseconds until one whole token has accrued at the default rate,
/// i.e. 1/rate seconds.
pub const ONE_TOKEN_RECOVERY_NS: u64 = 180_000_000;

/// A per-identity token bucket. All fields are in fixed-point units
/// (`TOKEN_UNIT` units per request token); times are monotonic-clock
/// nanoseconds.
#[derive(Clone, Copy)]
pub struct TokenBucket {
    /// Current token count, in units.
    pub tokens: u64,
    /// Maximum token count, in units.
    pub capacity: u64,
    /// Refill rate, in units per nanosecond.
    pub refill_rate: u64,
    /// Monotonic-clock timestamp (ns) of the last refill.
    pub last_refill_ns: u64,
}

/// Elapsed time used for a refill at instant `now_ns`: the monotonic clock
/// never runs backwards, so a reading earlier than the last refill counts
/// as no elapsed time.
pub open spec fn spec_elapsed_ns(b: TokenBucket, now_ns: u64) -> int {
    if now_ns >= b.last_refill_ns {
        now_ns - b.last_refill_ns
    } else {
        0
    }
}

/// Token count (in units) after refilling at instant `now_ns`: grows
/// linearly with elapsed time, clamped to the capacity.
pub open spec fn spec_refilled(b: TokenBucket, now_ns: u64) -> int {
    let grown = b.tokens + spec_elapsed_ns(b, now_ns) * b.refill_rate;
    if grown > b.capacity {
        b.capacity as int
    } else {
        grown
    }
}

/// Whether an admission at instant `now_ns` succeeds: at least one whole
/// token is available after the refill.
pub open spec fn spec_admits(b: TokenBucket, now_ns: u64) -> bool {
    spec_refilled(b, now_ns) >= TOKEN_UNIT
}

/// The bucket state after a refill-then-consume at instant `now_ns`:
/// the refill timestamp advances regardless of the admission outcome, and
/// exactly one token is consumed when admission succeeds.
pub open spec fn spec_after_consume(b: TokenBucket, now_ns: u64) -> TokenBucket {
    TokenBucket {
        tokens: if spec_admits(b, now_ns) {
            (spec_refilled(b, now_ns) - TOKEN_UNIT) as u64
        } else {
            spec_refilled(b, now_ns) as u64
        },
        last_refill_ns: now_ns,
        ..b
    }
}

/// A fresh bucket with the default budget, full at creation.
pub open spec fn spec_fresh_bucket(now_ns: u64) -> TokenBucket {
    TokenBucket {
        tokens: DEFAULT_CAPACITY_UNITS,
        capacity: DEFAULT_CAPACITY_UNITS,
        refill_rate: DEFAULT_REFILL_UNITS_PER_NS,
        last_refill_ns: now_ns,
    }
}

impl TokenBucket {
    /// A full bucket with the default capacity and refill rate.
    pub fn fresh(now_ns: u64) -> (b: TokenBucket)
        ensures
            b == spec_fresh_bucket(now_ns),
    {
        TokenBucket {
            tokens: DEFAULT_CAPACITY_UNITS,
            capacity: DEFAULT_CAPACITY_UNITS,
            refill_rate: DEFAULT_REFILL_UNITS_PER_NS,
            last_refill_ns: now_ns,
        }
    }

    /// Refill-then-consume: refill for the time elapsed since the last
    /// refill, clamp to capacity, stamp the refill time, and take one token
    /// if at least one whole token is available. The token count never
    /// exceeds the capacity afterwards.
    pub fn try_consume(&mut self, now_ns: u64) -> (admitted: bool)
        ensures
            admitted == spec_admits(*old(self), now_ns),
            *final(self) == spec_after_consume(*old(self), now_ns),
            final(self).tokens <= final(self).capacity,
    {
        let elapsed: u64 = if now_ns >= self.last_refill_ns {
            now_ns - self.last_refill_ns
        } else {
            0
        };
        proof {
            lemma_mul_upper_bound(
                elapsed as int,
                u64::MAX as int,
                self.refill_rate as int,
                u64::MAX as int,
            );
        }
        let grown: u128 = self.tokens as u128 + (elapsed as u128) * (self.refill_rate as u128);
        let capped: u128 = if grown > self.capacity as u128 {
            self.capacity as u128
        } else {
            grown
        };
        self.tokens = capped as u64;
        self.last_refill_ns = now_ns;
        if self.tokens >= TOKEN_UNIT {
            self.tokens = self.tokens - TOKEN_UNIT;
            true
        } else {
            false
        }
    }
}

/// Law: the token count stays within `0 <= tokens <= capacity` across any
/// sequence of admissions — a single refill-then-consume keeps the bound
/// whatever the prior count was, so any sequence does.
pub proof fn lemma_tokens_bounded(b: TokenBucket, now_ns: u64)
    ensures
        0 <= spec_after_consume(b, now_ns).tokens <= b.capacity,
{
    lemma_mul_upper_bound(
        spec_elapsed_ns(b, now_ns),
        u64::MAX as int,
        b.refill_rate as int,
        u64::MAX as int,
    );
}

/// Law: with exactly one token left in a default bucket and no time elapsed,
/// of two consecutive admissions exactly the first succeeds — no double
/// consumption of the last token.
pub proof fn lemma_no_double_consume(b: TokenBucket, now_ns: u64)
    requires
        b.tokens == TOKEN_UNIT,
        b.capacity == DEFAULT_CAPACITY_UNITS,
        b.refill_rate == DEFAULT_REFILL_UNITS_PER_NS,
        b.last_refill_ns == now_ns,
    ensures
        spec_admits(b, now_ns),
        !spec_admits(spec_after_consume(b, now_ns), now_ns),
        spec_after_consume(b, now_ns).tokens == 0,
{
}

/// Law: the refilled token count, and with it admission, is monotonic in
/// elapsed time — waiting longer never yields fewer tokens, and never
/// turns an admission into a denial.
pub proof fn lemma_refill_monotonic(b: TokenBucket, now1_ns: u64, now2_ns: u64)
    requires
        now1_ns <= now2_ns,
    ensures
        spec_refilled(b, now1_ns) <= spec_refilled(b, now2_ns),
        spec_admits(b, now1_ns) ==> spec_admits(b, now2_ns),
{
    lemma_mul_inequality(
        spec_elapsed_ns(b, now1_ns),
        spec_elapsed_ns(b, now2_ns),
        b.refill_rate as int,
    );
}

/// Law: after exhaustion, admission succeeds as soon as one whole token
/// has accrued: when the elapsed time times the refill rate reaches one
/// token — that is, at least `1/rate` seconds have passed — and the bucket
/// can hold a whole token (true of every bucket the gateway creates,
/// capacity 20000 tokens), the next admission succeeds.
pub proof fn lemma_recovery_reaches_one_token(b: TokenBucket, now_ns: u64)
    requires
        b.capacity >= TOKEN_UNIT,
        spec_elapsed_ns(b, now_ns) * b.refill_rate >= TOKEN_UNIT,
    ensures
        spec_admits(b, now_ns),
{
}

/// Law: while less than one whole token has accrued since the last refill,
/// admission fails and only the refill is applied: the count becomes
/// exactly the old count plus elapsed times rate (below one token the
/// clamp cannot bite, the capacity holding at least one token), nothing is
/// consumed, and the refill time is stamped regardless of the denial.
pub proof fn lemma_denial_below_one_token(b: TokenBucket, now_ns: u64)
    requires
        b.capacity >= TOKEN_UNIT,
        b.tokens + spec_elapsed_ns(b, now_ns) * b.refill_rate < TOKEN_UNIT,
    ensures
        !spec_admits(b, now_ns),
        spec_after_consume(b, now_ns).tokens == b.tokens + spec_elapsed_ns(b, now_ns)
            * b.refill_rate,
        spec_after_consume(b, now_ns).last_refill_ns == now_ns,
{
    lemma_mul_nonnegative(spec_elapsed_ns(b, now_ns), b.refill_rate as int);
}

/// Law: after exhaustion of a default bucket, waiting at least 1/rate
/// seconds (`ONE_TOKEN_RECOVERY_NS`) makes the next admission succeed,
/// while admitting again with no elapsed time fails.
pub proof fn lemma_recovery_after_exhaustion(b: TokenBucket, now_ns: u64)
    requires
        b.tokens == 0,
        b.capacity == DEFAULT_CAPACITY_UNITS,
        b.refill_rate == DEFAULT_REFILL_UNITS_PER_NS,
    ensures
        now_ns >= b.last_refill_ns + ONE_TOKEN_RECOVERY_NS ==> spec_admits(b, now_ns),
        now_ns == b.last_refill_ns ==> !spec_admits(b, now_ns),
{
    if now_ns >= b.last_refill_ns + ONE_TOKEN_RECOVERY_NS {
        lemma_mul_inequality(
            ONE_TOKEN_RECOVERY_NS as int,
            spec_elapsed_ns(b, now_ns),
            b.refill_rate as int,
        );
    }
}

} // verus!
