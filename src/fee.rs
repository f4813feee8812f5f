use vstd::prelude::*;
use crate::error::ErrorCode;
use crate::ledger::{Account, Authority, Leg, FEE_RECEIVERS};

verus! {

/// Basis points that make one hundred percent.
pub const FEE_DENOMINATOR: u32 = 10000;

/// Rejects a payment whose expiry is earlier than `now`.
pub fn check_expiry(expiry: i64, now: i64) -> (r: Result<(), ErrorCode>)
    ensures
        now <= expiry ==> r is Ok,
        now > expiry ==> r == Err::<(), ErrorCode>(ErrorCode::PaymentExpired),
{
    if now > expiry {
        Err(ErrorCode::PaymentExpired)
    } else {
        Ok(())
    }
}

/// The skim-mode fee `pay_in - pay_out`; a pay-out above the pay-in is an
/// arithmetic error, never a wrapped value.
pub fn skim_fee(pay_in_amount: u64, pay_out_amount: u64) -> (r: Result<u64, ErrorCode>)
    ensures
        pay_in_amount >= pay_out_amount ==> r == Ok::<u64, ErrorCode>(
            (pay_in_amount - pay_out_amount) as u64,
        ),
        pay_in_amount < pay_out_amount ==> r == Err::<u64, ErrorCode>(ErrorCode::Overflow),
{
    match pay_in_amount.checked_sub(pay_out_amount) {
        Some(fee) => Ok(fee),
        None => Err(ErrorCode::Overflow),
    }
}

/// Sum of the weights.
pub open spec fn weight_sum(w: Seq<u32>) -> int
    decreases w.len(),
{
    if w.len() == 0 {
        0
    } else {
        weight_sum(w.drop_last()) + w.last()
    }
}

/// One receiver's share of the fee: `floor(total * weight / 10000)`.
pub open spec fn split_share(total: u64, weight: u32) -> int {
    total * weight / FEE_DENOMINATOR as int
}

/// The fee legs of split mode, one per receiver whose share is positive.
pub open spec fn split_fee_legs(total: u64, w: Seq<u32>) -> Seq<Leg>
    decreases w.len(),
{
    if w.len() == 0 {
        seq![]
    } else {
        let before = split_fee_legs(total, w.drop_last());
        let share = split_share(total, w.last());
        if w.last() > 0 && share > 0 {
            before.push(
                Leg {
                    from: Account::Source,
                    to: Account::FeeReceiver((w.len() - 1) as usize),
                    authority: Authority::Payer,
                    amount: share as u64,
                },
            )
        } else {
            before
        }
    }
}

/// Total amount carried by the legs.
pub open spec fn legs_total(legs: Seq<Leg>) -> int
    decreases legs.len(),
{
    if legs.len() == 0 {
        0
    } else {
        legs_total(legs.drop_last()) + legs.last().amount
    }
}

/// Sum of every receiver's share.
pub open spec fn shares_total(total: u64, w: Seq<u32>) -> int
    decreases w.len(),
{
    if w.len() == 0 {
        0
    } else {
        shares_total(total, w.drop_last()) + split_share(total, w.last())
    }
}

proof fn lemma_weight_bounds_each(w: Seq<u32>, i: int)
    requires
        0 <= i < w.len(),
    ensures
        w[i] <= weight_sum(w),
    decreases w.len(),
{
    if i < w.len() - 1 {
        lemma_weight_bounds_each(w.drop_last(), i);
        assert(w.drop_last()[i] == w[i]);
    }
    lemma_weight_sum_nonneg(w.drop_last());
}

proof fn lemma_weight_sum_nonneg(w: Seq<u32>)
    ensures
        weight_sum(w) >= 0,
    decreases w.len(),
{
    if w.len() > 0 {
        lemma_weight_sum_nonneg(w.drop_last());
    }
}

/// The fee legs carry exactly the sum of the shares, and the shares are
/// bounded by the weighted total: `10000 * shares <= total * weights`, and
/// each share loses less than one unit to rounding.
proof fn lemma_shares_bounds(total: u64, w: Seq<u32>)
    requires
        weight_sum(w) <= FEE_DENOMINATOR,
    ensures
        legs_total(split_fee_legs(total, w)) == shares_total(total, w),
        split_fee_legs(total, w).len() <= w.len(),
        FEE_DENOMINATOR * shares_total(total, w) <= total * weight_sum(w),
        total * weight_sum(w) < FEE_DENOMINATOR * (shares_total(total, w) + w.len()) || w.len() == 0,
    decreases w.len(),
{
    if w.len() > 0 {
        let prev = w.drop_last();
        lemma_shares_bounds(total, prev);
        let x = total * w.last();
        let s = split_share(total, w.last());
        lemma_weight_sum_nonneg(prev);
        assert(x >= 0 && x <= total * 10000) by (nonlinear_arith)
            requires total >= 0, 0 <= w.last() <= 10000, x == total * w.last();
        assert(s * 10000 <= x && x < s * 10000 + 10000 && s <= total) by (nonlinear_arith)
            requires s == x / 10000, x >= 0, x <= total * 10000;
        assert(total * weight_sum(w) == total * weight_sum(prev) + x) by (nonlinear_arith)
            requires weight_sum(w) == weight_sum(prev) + w.last(), x == total * w.last();
        let before = split_fee_legs(total, prev);
        if w.last() > 0 && s > 0 {
            let legs = split_fee_legs(total, w);
            assert(legs.drop_last() =~= before);
        }
    }
}

/// With weights summing to exactly the denominator, the fee legs never pay
/// out more than the fee, and what stays behind as rounding dust is less
/// than one unit per receiver.
pub proof fn lemma_split_dust(total: u64, w: Seq<u32>)
    requires
        w.len() == FEE_RECEIVERS,
        weight_sum(w) == FEE_DENOMINATOR,
    ensures
        legs_total(split_fee_legs(total, w)) == shares_total(total, w),
        shares_total(total, w) <= total,
        total - shares_total(total, w) < FEE_RECEIVERS,
{
    lemma_shares_bounds(total, w);
    let s = shares_total(total, w);
    assert(total * weight_sum(w) == total * 10000) by (nonlinear_arith)
        requires weight_sum(w) == 10000;
    assert(s <= total && total - s < 8) by (nonlinear_arith)
        requires 10000 * s <= total * 10000, total * 10000 < 10000 * (s + 8);
}

/// The fee legs of split mode, and what each receiver gets.
pub struct FeeSplit {
    pub legs: Vec<Leg>,
    pub received: Vec<u64>,
}

/// Sum of the weights, which cannot overflow 64 bits.
pub fn weights_total(w: &[u32; 8]) -> (r: u64)
    ensures
        r == weight_sum(w@),
{
    let mut sum: u64 = 0;
    let mut i: usize = 0;
    assert(w@.take(0) =~= Seq::<u32>::empty());
    while i < 8
        invariant
            0 <= i <= 8,
            w@.len() == 8,
            sum == weight_sum(w@.take(i as int)),
            sum <= i * 0xffff_ffff,
        decreases 8 - i,
    {
        assert(w@.take(i + 1).drop_last() =~= w@.take(i as int));
        sum = sum + w[i] as u64;
        i = i + 1;
    }
    assert(w@.take(8) =~= w@);
    sum
}

/// Splits `total` over the receivers by weight. The weights must sum to
/// exactly the denominator; each share is rounded down, receivers with a
/// zero share get no leg, and the rounding dust is not redistributed.
pub fn split_fee(total: u64, w: &[u32; 8]) -> (r: Result<FeeSplit, ErrorCode>)
    ensures
        r is Ok <==> weight_sum(w@) == FEE_DENOMINATOR,
        r is Err ==> r == Err::<FeeSplit, ErrorCode>(ErrorCode::InvalidPercentage),
        r matches Ok(s) ==> {
            &&& s.legs@ == split_fee_legs(total, w@)
            &&& s.received@.len() == FEE_RECEIVERS
            &&& forall|i: int| 0 <= i < FEE_RECEIVERS ==> s.received@[i] == split_share(total, w@[i])
        },
{
    if weights_total(w) != FEE_DENOMINATOR as u64 {
        return Err(ErrorCode::InvalidPercentage);
    }
    let mut legs: Vec<Leg> = Vec::new();
    let mut received: Vec<u64> = Vec::new();
    let mut i: usize = 0;
    assert(w@.take(0) =~= Seq::<u32>::empty());
    while i < FEE_RECEIVERS
        invariant
            0 <= i <= FEE_RECEIVERS,
            w@.len() == FEE_RECEIVERS,
            weight_sum(w@) == FEE_DENOMINATOR,
            legs@ == split_fee_legs(total, w@.take(i as int)),
            received@.len() == i,
            forall|j: int| 0 <= j < i ==> received@[j] == split_share(total, w@[j]),
        decreases FEE_RECEIVERS - i,
    {
        let wi = w[i];
        proof {
            lemma_weight_bounds_each(w@, i as int);
        }
        assert(total * wi <= 0xffff_ffff_ffff_ffff * 10000) by (nonlinear_arith)
            requires total <= 0xffff_ffff_ffff_ffff, 0 <= wi <= 10000;
        let product: u128 = total as u128 * wi as u128;
        let share_wide: u128 = product / FEE_DENOMINATOR as u128;
        assert(share_wide <= total) by (nonlinear_arith)
            requires share_wide == product / 10000, product == total * wi, wi <= 10000, total >= 0;
        let share = share_wide as u64;
        let ghost prefix = w@.take(i + 1);
        assert(prefix.drop_last() =~= w@.take(i as int));
        assert(prefix.last() == wi);
        if wi > 0 && share > 0 {
            legs.push(Leg { from: Account::Source, to: Account::FeeReceiver(i), authority: Authority::Payer, amount: share });
        }
        received.push(share);
        i = i + 1;
    }
    assert(w@.take(8) =~= w@);
    Ok(FeeSplit { legs, received })
}

} // verus!
