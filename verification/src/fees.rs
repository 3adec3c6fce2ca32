//! Basis-point arithmetic of the platform fee and its discounts.
use vstd::prelude::*;
use crate::escrow_types::DiscountTier;

verus! {

/// The platform fee, in basis points of a job's amount.
pub const PLATFORM_FEE_BPS: u64 = 250;

/// The number of basis points in a whole.
pub const BPS_DENOMINATOR: i128 = 10_000;

/// The denominator of a service-level penalty, in basis points.
pub const SLA_PENALTY_DENOMINATOR: u32 = 10_000;

/// `amount * bps / 10_000`, the quotient truncated toward zero as integer division does.
pub open spec fn bps_share(amount: int, bps: int) -> int {
    let p = amount * bps;
    if p >= 0 {
        p / 10_000
    } else {
        -((-p) / 10_000)
    }
}

/// `amount * bps / 10_000` where the product fits in an `i128`, and `None` where it does not.
pub fn checked_bps_share(amount: i128, bps: u64) -> (r: Option<i128>)
    ensures
        r matches Some(x) ==> x == bps_share(amount as int, bps as int),
        r is None <==> (amount * bps > i128::MAX || amount * bps < i128::MIN),
{
    match amount.checked_mul(bps as i128) {
        Some(p) => {
            let q = p / BPS_DENOMINATOR;
            assert(p < 0 ==> q == -((-p) / 10_000));
            Some(q)
        },
        None => None,
    }
}

/// The discount of the last tier, in the order given, whose threshold `completed` reaches; 0 if none does.
pub open spec fn tier_discount(tiers: Seq<DiscountTier>, completed: u32) -> u32
    decreases tiers.len(),
{
    if tiers.len() == 0 {
        0
    } else if completed >= tiers.last().min_completed_jobs {
        tiers.last().discount_bps
    } else {
        tier_discount(tiers.drop_last(), completed)
    }
}

/// `base - discount`, or 0 where the discount exceeds the base.
pub open spec fn saturating_fee(base: u32, discount: u32) -> u32 {
    if discount <= base {
        (base - discount) as u32
    } else {
        0
    }
}

/// The discount that applies to a user with `completed` completed jobs.
pub fn discount_for(tiers: &Vec<DiscountTier>, completed: u32) -> (r: u32)
    ensures
        r == tier_discount(tiers@, completed),
{
    let mut discount: u32 = 0;
    let n = tiers.len();
    for i in 0..n
        invariant
            n == tiers@.len(),
            discount == tier_discount(tiers@.take(i as int), completed),
    {
        proof {
            assert(tiers@.take(i + 1).drop_last() =~= tiers@.take(i as int));
        }
        if completed >= tiers[i].min_completed_jobs {
            discount = tiers[i].discount_bps;
        }
    }
    proof {
        assert(tiers@.take(n as int) =~= tiers@);
    }
    discount
}

} // verus!
