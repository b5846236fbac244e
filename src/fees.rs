use vstd::prelude::*;

verus! {

/// Priority fee used when no samples are known, and the floor of the estimate.
pub const MIN_PRIORITY_FEE: u64 = 10_000;

/// Ceiling of the priority-fee estimate.
pub const MAX_PRIORITY_FEE: u64 = 100_000;

/// Sum of a sequence of fees.
pub open spec fn fee_sum(fees: Seq<u64>) -> int
    decreases fees.len(),
{
    if fees.len() == 0 {
        0
    } else {
        fee_sum(fees.drop_last()) + fees.last()
    }
}

/// The average of the samples kept within the floor and the ceiling, or the
/// floor when there are none.
pub open spec fn fee_estimate(fees: Seq<u64>) -> int {
    if fees.len() == 0 {
        MIN_PRIORITY_FEE as int
    } else {
        let avg = fee_sum(fees) / fees.len() as int;
        if avg < MIN_PRIORITY_FEE {
            MIN_PRIORITY_FEE as int
        } else if avg > MAX_PRIORITY_FEE {
            MAX_PRIORITY_FEE as int
        } else {
            avg
        }
    }
}

/// Priority fee, in micro-lamports per compute unit, from recent samples.
pub fn priority_fee_from_samples(fees: &Vec<u64>) -> (r: u64)
    ensures
        r == fee_estimate(fees@),
{
    if fees.len() == 0 {
        return MIN_PRIORITY_FEE;
    }
    let mut total: u128 = 0;
    let mut i: usize = 0;
    while i < fees.len()
        invariant
            i <= fees@.len(),
            total == fee_sum(fees@.subrange(0, i as int)),
            total <= i * (u64::MAX as int),
        decreases fees@.len() - i,
    {
        proof {
            assert(fees@.subrange(0, i + 1).drop_last() =~= fees@.subrange(0, i as int));
            assert((i + 1) * (u64::MAX as int) == i * (u64::MAX as int) + u64::MAX) by (nonlinear_arith);
            assert(i * (u64::MAX as int) <= (usize::MAX as int) * (u64::MAX as int)) by (nonlinear_arith)
                requires
                    i <= usize::MAX,
            ;
        }
        total = total + fees[i] as u128;
        i = i + 1;
    }
    proof {
        assert(fees@.subrange(0, fees@.len() as int) =~= fees@);
    }
    let avg = total / (fees.len() as u128);
    if avg < MIN_PRIORITY_FEE as u128 {
        MIN_PRIORITY_FEE
    } else if avg > MAX_PRIORITY_FEE as u128 {
        MAX_PRIORITY_FEE
    } else {
        avg as u64
    }
}

} // verus!
