use vstd::prelude::*;

use crate::error::VaultError;

verus! {

/// Seconds in the fixed 365-day year over which interest is prorated.
pub const YEAR_SECONDS: u64 = 31_536_000;

/// Basis points in one whole (10_000 bps = 100%).
pub const BPS_DENOMINATOR: u64 = 10_000;

/// Divisor of the interest formula: basis points times seconds per year.
pub const YIELD_DIVISOR: u128 = 315_360_000_000;

/// Simple interest earned by `amount` at `apy_bps` over `[start_time, end_time]`,
/// floored; a window that has not advanced earns nothing.
pub open spec fn yield_amount(amount: int, apy_bps: int, start_time: int, end_time: int) -> int {
    if end_time <= start_time {
        0
    } else {
        (amount * apy_bps * (end_time - start_time)) / (YIELD_DIVISOR as int)
    }
}

/// `floor((q * e) / d) == (q / d) * e + floor(((q % d) * e) / d)`.
proof fn lemma_split_quotient(q: int, e: int, d: int)
    requires
        q >= 0,
        e >= 0,
        d > 0,
    ensures
        (q * e) / d == (q / d) * e + ((q % d) * e) / d,
        0 <= ((q % d) * e) / d <= e,
{
    let k = q / d;
    let m = q % d;
    vstd::arithmetic::div_mod::lemma_fundamental_div_mod(q, d);
    vstd::arithmetic::div_mod::lemma_mod_bound(q, d);
    assert(q * e == d * (k * e) + m * e) by (nonlinear_arith)
        requires
            q == d * k + m,
    ;
    let r = (m * e) % d;
    vstd::arithmetic::div_mod::lemma_fundamental_div_mod(m * e, d);
    vstd::arithmetic::div_mod::lemma_mod_bound(m * e, d);
    assert(q * e == (k * e + (m * e) / d) * d + r) by (nonlinear_arith)
        requires
            q * e == d * (k * e) + m * e,
            m * e == d * ((m * e) / d) + r,
    ;
    vstd::arithmetic::div_mod::lemma_fundamental_div_mod_converse(q * e, d, k * e + (m * e) / d, r);
    assert(0 <= m * e <= d * e) by (nonlinear_arith)
        requires
            0 <= m < d,
            e >= 0,
    ;
    vstd::arithmetic::div_mod::lemma_div_is_ordered(0, m * e, d);
    vstd::arithmetic::div_mod::lemma_div_is_ordered(m * e, d * e, d);
    vstd::arithmetic::div_mod::lemma_div_multiples_vanish(e, d);
}

/// A window that has not advanced earns nothing, whatever the principal and
/// the rate.
pub proof fn lemma_zero_elapsed_yield(amount: u64, apy_bps: u64, t: i64)
    ensures
        yield_amount(amount as int, apy_bps as int, t as int, t as int) == 0,
{
}

/// Yield only grows as a window lengthens: for a fixed principal, rate and
/// start, ending later never earns less.
pub proof fn lemma_yield_monotonic(amount: u64, apy_bps: u64, t0: i64, t1: i64, t2: i64)
    requires
        t1 <= t2,
    ensures
        yield_amount(amount as int, apy_bps as int, t0 as int, t1 as int) <= yield_amount(
            amount as int,
            apy_bps as int,
            t0 as int,
            t2 as int,
        ),
{
    let d = YIELD_DIVISOR as int;
    let base = amount as int * apy_bps as int;
    assert(base >= 0) by (nonlinear_arith)
        requires
            base == amount as int * apy_bps as int,
            amount >= 0,
            apy_bps >= 0,
    ;
    if t0 < t2 {
        let hi = base * (t2 - t0);
        assert(hi >= 0) by (nonlinear_arith)
            requires
                hi == base * (t2 - t0),
                base >= 0,
                t0 < t2,
        ;
        vstd::arithmetic::div_mod::lemma_div_is_ordered(0, hi, d);
        if t0 < t1 {
            let lo = base * (t1 - t0);
            assert(lo <= hi) by (nonlinear_arith)
                requires
                    lo == base * (t1 - t0),
                    hi == base * (t2 - t0),
                    base >= 0,
                    t1 <= t2,
            ;
            vstd::arithmetic::div_mod::lemma_div_is_ordered(lo, hi, d);
        }
    }
}

/// Simple interest on `amount` at `apy_bps` basis points a year, accrued from
/// `start_time` to `end_time` (seconds), floored.
///
/// A window with `end_time == start_time` earns `0`; one with `end_time <
/// start_time` is refused as `InvalidTimestamp`. The product of the three
/// factors is never formed in a fixed width, so the only overflow is that of a
/// result beyond `u64::MAX`, refused as `ArithmeticOverflow`.
pub fn calculate_yield(amount: u64, apy_bps: u64, start_time: i64, end_time: i64) -> (r: Result<
    u64,
    VaultError,
>)
    ensures
        end_time < start_time ==> r == Err::<u64, VaultError>(VaultError::InvalidTimestamp),
        start_time <= end_time && yield_amount(
            amount as int,
            apy_bps as int,
            start_time as int,
            end_time as int,
        ) > u64::MAX ==> r == Err::<u64, VaultError>(VaultError::ArithmeticOverflow),
        start_time <= end_time && yield_amount(
            amount as int,
            apy_bps as int,
            start_time as int,
            end_time as int,
        ) <= u64::MAX ==> r == Ok::<u64, VaultError>(
            yield_amount(amount as int, apy_bps as int, start_time as int, end_time as int) as u64,
        ),
{
    if end_time < start_time {
        return Err(VaultError::InvalidTimestamp);
    }
    if end_time == start_time {
        return Ok(0);
    }
    assert(YIELD_DIVISOR == BPS_DENOMINATOR as u128 * YEAR_SECONDS as u128) by (nonlinear_arith);
    let elapsed: u128 = (end_time as i128 - start_time as i128) as u128;
    proof {
        assert(amount as u128 * apy_bps as u128 <= u64::MAX as u128 * u64::MAX as u128)
            by (nonlinear_arith);
    }
    let rate: u128 = amount as u128 * apy_bps as u128;
    let whole: u128 = rate / YIELD_DIVISOR;
    let part: u128 = rate % YIELD_DIVISOR;
    proof {
        lemma_split_quotient(rate as int, elapsed as int, YIELD_DIVISOR as int);
        assert(elapsed < 0x1_0000_0000_0000_0000);
        assert(part * elapsed <= YIELD_DIVISOR * 0x1_0000_0000_0000_0000) by (nonlinear_arith)
            requires
                part < YIELD_DIVISOR,
                elapsed < 0x1_0000_0000_0000_0000,
        ;
        assert(rate * elapsed == amount * apy_bps * (end_time - start_time)) by (nonlinear_arith)
            requires
                rate == amount * apy_bps,
                elapsed == end_time - start_time,
        ;
    }
    let tail: u128 = part * elapsed / YIELD_DIVISOR;
    let head: u128 = match whole.checked_mul(elapsed) {
        Some(h) => h,
        None => {
            return Err(VaultError::ArithmeticOverflow);
        },
    };
    if head > u64::MAX as u128 {
        return Err(VaultError::ArithmeticOverflow);
    }
    let total: u128 = head + tail;
    if total > u64::MAX as u128 {
        return Err(VaultError::ArithmeticOverflow);
    }
    Ok(total as u64)
}

} // verus!
