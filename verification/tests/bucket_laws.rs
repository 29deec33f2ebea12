//! Token-bucket behavior: bounds, no double consumption, refill timing,
//! and budget exhaustion through the registry.

use api_gateway::bucket::TokenBucket;
use api_gateway::bucket::DEFAULT_CAPACITY_UNITS;
use api_gateway::bucket::DEFAULT_REFILL_UNITS_PER_NS;
use api_gateway::bucket::ONE_TOKEN_RECOVERY_NS;
use api_gateway::bucket::TOKEN_UNIT;
use api_gateway::registry::RateRegistry;

#[test]
fn fresh_bucket_admits_and_consumes_one_token() {
    let mut b = TokenBucket::fresh(1_000);
    assert!(b.try_consume(1_000));
    assert_eq!(b.tokens, DEFAULT_CAPACITY_UNITS - TOKEN_UNIT);
    assert_eq!(b.last_refill_ns, 1_000);
}

#[test]
fn tokens_stay_within_bounds_across_any_sequence() {
    let mut b = TokenBucket::fresh(0);
    let steps: [u64; 12] = [0, 1, 0, 500, 0, 0, ONE_TOKEN_RECOVERY_NS, 3, 0, 7_000_000_000, 0, 2];
    let mut now: u64 = 0;
    for s in steps {
        now += s;
        b.try_consume(now);
        assert!(b.tokens <= b.capacity);
        assert!(b.capacity == DEFAULT_CAPACITY_UNITS);
    }
}

#[test]
fn exactly_one_of_two_immediate_admissions_takes_the_last_token() {
    let mut b = TokenBucket {
        tokens: TOKEN_UNIT,
        capacity: DEFAULT_CAPACITY_UNITS,
        refill_rate: DEFAULT_REFILL_UNITS_PER_NS,
        last_refill_ns: 42,
    };
    let first = b.try_consume(42);
    let second = b.try_consume(42);
    assert!(first);
    assert!(!second);
    assert_eq!(b.tokens, 0);
}

#[test]
fn refill_is_monotonic_in_elapsed_time() {
    let mut exhausted = TokenBucket {
        tokens: 0,
        capacity: DEFAULT_CAPACITY_UNITS,
        refill_rate: DEFAULT_REFILL_UNITS_PER_NS,
        last_refill_ns: 0,
    };
    // Immediately after exhaustion: denied.
    assert!(!exhausted.try_consume(0));
    // Waiting exactly 1/rate seconds accrues one whole token: admitted.
    let mut recovered = TokenBucket {
        tokens: 0,
        capacity: DEFAULT_CAPACITY_UNITS,
        refill_rate: DEFAULT_REFILL_UNITS_PER_NS,
        last_refill_ns: 0,
    };
    assert!(recovered.try_consume(ONE_TOKEN_RECOVERY_NS));
    // One nanosecond short of that: still denied.
    let mut short = TokenBucket {
        tokens: 0,
        capacity: DEFAULT_CAPACITY_UNITS,
        refill_rate: DEFAULT_REFILL_UNITS_PER_NS,
        last_refill_ns: 0,
    };
    assert!(!short.try_consume(ONE_TOKEN_RECOVERY_NS - 1));
}

#[test]
fn denial_applies_exactly_the_refill_and_consumes_nothing() {
    let mut b = TokenBucket {
        tokens: 0,
        capacity: DEFAULT_CAPACITY_UNITS,
        refill_rate: DEFAULT_REFILL_UNITS_PER_NS,
        last_refill_ns: 0,
    };
    // 100 ns at 50 units/ns accrue 5000 units, far below one token.
    assert!(!b.try_consume(100));
    assert_eq!(b.tokens, 100 * DEFAULT_REFILL_UNITS_PER_NS);
    assert_eq!(b.last_refill_ns, 100);
}

#[test]
fn clock_going_backwards_counts_as_no_elapsed_time() {
    let mut b = TokenBucket {
        tokens: 0,
        capacity: DEFAULT_CAPACITY_UNITS,
        refill_rate: DEFAULT_REFILL_UNITS_PER_NS,
        last_refill_ns: 1_000_000,
    };
    assert!(!b.try_consume(999_999));
    assert_eq!(b.tokens, 0);
    assert_eq!(b.last_refill_ns, 999_999);
}

#[test]
fn the_20001st_request_in_a_negligible_window_is_denied() {
    let mut registry = RateRegistry::new();
    let subject = b"heavy-user".to_vec();
    let now: u64 = 7;
    for _ in 0..20_000 {
        assert!(registry.grant(&subject, now));
    }
    assert!(!registry.grant(&subject, now));
}

#[test]
fn distinct_subjects_have_independent_budgets() {
    let mut registry = RateRegistry::new();
    let a = b"alpha".to_vec();
    let b = b"beta".to_vec();
    let now: u64 = 0;
    for _ in 0..20_000 {
        assert!(registry.grant(&a, now));
    }
    assert!(!registry.grant(&a, now));
    assert!(registry.grant(&b, now));
}
