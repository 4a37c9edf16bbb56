//! Renewal scheduling policy: the next fetch happens after 90% of the
//! certificate's remaining lifetime, or after a fixed backoff on failure.

use vstd::arithmetic::div_mod::lemma_div_is_ordered;
use vstd::prelude::*;

verus! {

/// Backoff before the next attempt after any fetch failure, in seconds,
/// unless the caller configured another value.
pub const DEFAULT_ERROR_BACKOFF_SECS: u64 = 60;

/// Seconds to wait before renewing a certificate that expires at `not_after`,
/// as seen at time `now`: 90% of the remaining lifetime, rounded down, and 0
/// when the certificate has already expired.
pub open spec fn renewal_delay(not_after: int, now: int) -> int {
    if not_after <= now {
        0
    } else {
        (not_after - now) * 90 / 100
    }
}

/// The renewal delay for an expiry given as a signed Unix timestamp.
pub fn renew_delay_secs(not_after: i64, now: i64) -> (r: u64)
    ensures
        r == renewal_delay(not_after as int, now as int),
{
    if not_after <= now {
        0
    } else {
        let diff: i128 = (not_after as i128) - (now as i128);
        let scaled: i128 = diff * 90 / 100;
        proof {
            lemma_scaled_delay_in_range(diff as int);
        }
        scaled as u64
    }
}

/// The renewal delay for an expiry given as an unsigned Unix timestamp, as an
/// OpenSSH certificate's validity window carries it.
pub fn renew_delay_secs_unsigned(not_after: u64, now: u64) -> (r: u64)
    ensures
        r == renewal_delay(not_after as int, now as int),
{
    if not_after <= now {
        0
    } else {
        let diff: u128 = (not_after as u128) - (now as u128);
        let scaled: u128 = diff * 90 / 100;
        proof {
            lemma_scaled_delay_in_range(diff as int);
        }
        scaled as u64
    }
}

/// 90% of a non-negative span of at most `u64::MAX` seconds fits in a `u64`.
proof fn lemma_scaled_delay_in_range(diff: int)
    requires
        0 < diff <= u64::MAX as int,
    ensures
        0 <= diff * 90 / 100 <= u64::MAX as int,
{
    let bound = u64::MAX as int;
    assert(diff * 90 <= bound * 90) by {
        lemma_mul_is_ordered(diff, bound, 90);
    }
    lemma_div_is_ordered(diff * 90, bound * 90, 100);
    assert(bound * 90 / 100 <= u64::MAX as int);
    assert(diff * 90 >= 0) by {
        lemma_mul_is_ordered(0, diff, 90);
    }
    lemma_div_is_ordered(0, diff * 90, 100);
}

/// Multiplying both sides of `a <= b` by a non-negative constant keeps the order.
proof fn lemma_mul_is_ordered(a: int, b: int, c: int)
    requires
        a <= b,
        c >= 0,
    ensures
        a * c <= b * c,
{
    vstd::arithmetic::mul::lemma_mul_inequality(a, b, c);
}

/// For a certificate issued with `lifetime` seconds left, the computed delay
/// is exactly 90% of that lifetime, rounded down; a certificate already
/// expired (or clock-skewed into the past) gives an immediate retry.
pub proof fn lemma_renewal_delay_is_ninety_percent(now: int, lifetime: int)
    ensures
        lifetime >= 0 ==> renewal_delay(now + lifetime, now) == lifetime * 90 / 100,
        lifetime < 0 ==> renewal_delay(now + lifetime, now) == 0,
{
    if lifetime > 0 {
        assert(now + lifetime - now == lifetime);
    } else if lifetime == 0 {
        assert(lifetime * 90 == 0);
        assert(0int / 100 == 0);
    }
}

} // verus!
