use vstd::prelude::*;
use vstd::arithmetic::div_mod::*;
use vstd::arithmetic::mul::*;

verus! {

/// Price units per lamport-per-base-token.
pub const PRICE_SCALE: u128 = 1_000_000_000;

/// `a * b / d`, rounded down, or `u128::MAX` where that does not fit.
pub open spec fn mul_div_sat(a: int, b: int, d: int) -> int {
    if a * b / d > u128::MAX {
        u128::MAX as int
    } else {
        a * b / d
    }
}

proof fn lemma_split_product(a: int, b: int, d: int)
    requires
        a >= 0,
        b >= 0,
        d > 0,
    ensures
        a * b / d == (a / d) * b + (a % d) * b / d,
        (a / d) * b <= a * b / d,
{
    lemma_fundamental_div_mod(a, d);
    let q = a / d;
    let r = a % d;
    assert(a * b == (q * b) * d + r * b) by (nonlinear_arith)
        requires
            a == d * q + r,
    ;
    lemma_hoist_over_denominator(r * b, q * b, d as nat);
    lemma_mod_pos_bound(a, d);
    lemma_mul_nonnegative(r, b);
    lemma_div_pos_is_pos(r * b, d);
}

/// `a * b / d` rounded down, saturating at `u128::MAX`.
pub fn mul_div_floor(a: u128, b: u64, d: u64) -> (r: u128)
    requires
        d > 0,
    ensures
        r == mul_div_sat(a as int, b as int, d as int),
{
    let dd = d as u128;
    let q = a / dd;
    let rem = a % dd;
    proof {
        lemma_split_product(a as int, b as int, d as int);
        lemma_mul_upper_bound(rem as int, d as int, b as int, u64::MAX as int);
        assert((d as int) * (u64::MAX as int) <= u128::MAX) by (nonlinear_arith)
            requires
                d <= u64::MAX,
        ;
    }
    let low = rem * (b as u128) / dd;
    match q.checked_mul(b as u128) {
        Some(high) => {
            if high > u128::MAX - low {
                u128::MAX
            } else {
                high + low
            }
        },
        None => u128::MAX,
    }
}

} // verus!
verus! {

/// `r * b / d` rounded down, for `r < d`: directly when the product fits,
/// otherwise by adding `r` modulo `d` `b` times.
fn fraction_of(r: u128, b: u64, d: u128) -> (res: u128)
    requires
        r < d,
        b <= 10_000,
    ensures
        res == (r as int) * (b as int) / (d as int),
        res <= b,
{
    if b == 0 || r <= u128::MAX / (b as u128) {
        proof {
            if b > 0 {
                assert((r as int) * (b as int) <= u128::MAX) by (nonlinear_arith)
                    requires
                        (r as int) <= (u128::MAX as int) / (b as int),
                        b > 0,
                ;
            }
            assert((r as int) * (b as int) / (d as int) <= b) by (nonlinear_arith)
                requires
                    r < d,
                    b >= 0,
            ;
        }
        return r * (b as u128) / d;
    }
    let mut acc: u128 = 0;
    let mut cnt: u128 = 0;
    let mut k: u64 = 0;
    while k < b
        invariant
            r < d,
            k <= b <= 10_000,
            acc < d,
            cnt <= k,
            (k as int) * (r as int) == (cnt as int) * (d as int) + acc as int,
        decreases b - k,
    {
        if acc >= d - r {
            acc = acc - (d - r);
            cnt = cnt + 1;
        } else {
            acc = acc + r;
        }
        proof {
            assert(((k + 1) as int) * (r as int) == (k as int) * (r as int) + r as int) by (nonlinear_arith);
            assert((cnt as int) * (d as int) == ((cnt as int) - 1) * (d as int) + d as int) by (nonlinear_arith);
        }
        k = k + 1;
    }
    proof {
        lemma_fundamental_div_mod_converse((b as int) * (r as int), d as int, cnt as int, acc as int);
        assert((b as int) * (r as int) == (r as int) * (b as int)) by (nonlinear_arith);
    }
    cnt
}

/// `a * b / d` rounded down, saturating at `u128::MAX`, for a small `b`.
pub fn mul_div_floor_wide(a: u128, b: u64, d: u128) -> (r: u128)
    requires
        d > 0,
        b <= 10_000,
    ensures
        r == mul_div_sat(a as int, b as int, d as int),
{
    let q = a / d;
    let rem = a % d;
    proof {
        lemma_split_product(a as int, b as int, d as int);
    }
    let low = fraction_of(rem, b, d);
    match q.checked_mul(b as u128) {
        Some(high) => {
            if high > u128::MAX - low {
                u128::MAX
            } else {
                high + low
            }
        },
        None => u128::MAX,
    }
}

} // verus!
