use vstd::prelude::*;
use crate::error::ErrorCode;
use crate::fee::{check_expiry, skim_fee, split_fee, split_fee_legs, split_share, weight_sum, FEE_DENOMINATOR};
use crate::ledger::{leg_step, run_legs, Account, Authority, Leg, Ledger, ACCOUNT_SLOTS, FEE_RECEIVERS};
use crate::types::Address;

verus! {

/// A payment instruction, supplied per call and never stored.
#[derive(Clone, Debug)]
pub struct Payment {
    pub order_id: String,
    pub pay_in_token: Address,
    pub pay_out_token: Address,
    pub pay_in_amount: u64,
    pub pay_out_amount: u64,
    pub merchant: Address,
    /// Unix timestamp after which the payment may not settle.
    pub expiry: i64,
}

/// Audit record of a direct settlement.
#[derive(Clone, Debug)]
pub struct PaymentCompleted {
    pub order_id: String,
    pub pay_in_token: Address,
    pub pay_out_token: Address,
    pub pay_in_amount: u64,
    pub pay_out_amount: u64,
    pub fee_collected: u64,
    pub treasury: Address,
    pub merchant: Address,
    pub payer: Address,
}

/// Audit record of a settlement whose fee was split over weighted receivers.
#[derive(Clone, Debug)]
pub struct PaymentCompletedAndFeeDistributed {
    pub order_id: String,
    pub pay_in_token: Address,
    pub pay_out_token: Address,
    pub pay_in_amount: u64,
    pub pay_out_amount: u64,
    pub fee_collected: u64,
    pub fee_receivers: [Address; 8],
    pub fee_received: Vec<u64>,
    pub merchant: Address,
    pub payer: Address,
}

/// Audit record of a swap-mediated settlement.
#[derive(Clone, Debug)]
pub struct SwapPaymentCompleted {
    pub order_id: String,
    pub pay_in_token: Address,
    pub pay_out_token: Address,
    pub pay_in_amount: u64,
    pub pay_out_amount: u64,
    pub fee_collected: u64,
    pub treasury: Address,
    pub merchant: Address,
    pub payer: Address,
}

/// The ordered transfer legs of one settlement, and the record that is
/// published once every leg has gone through.
pub struct Settlement<E> {
    pub legs: Vec<Leg>,
    pub event: E,
}

/// What the external exchange is asked to do: convert `amount_in` of the
/// pay-in asset, with no floor on what comes out.
#[derive(Clone, Copy, Debug, PartialEq, Eq, Structural)]
pub struct SwapOrder {
    pub amount_in: u64,
    pub minimum_amount_out: u64,
}

pub open spec fn payer_leg(from: Account, to: Account, amount: u64) -> Leg {
    Leg { from, to, authority: Authority::Payer, amount }
}

/// Legs of a direct payment: the fee to the treasury when there is one,
/// then the payout.
pub open spec fn direct_legs(p: Payment) -> Seq<Leg> {
    let payout = payer_leg(Account::Source, Account::Destination, p.pay_out_amount);
    if p.pay_in_amount > p.pay_out_amount {
        seq![
            payer_leg(Account::Source, Account::Treasury, (p.pay_in_amount - p.pay_out_amount) as u64),
            payout,
        ]
    } else {
        seq![payout]
    }
}

pub open spec fn direct_event(p: Payment, payer: Address, treasury: Address) -> PaymentCompleted {
    PaymentCompleted {
        order_id: p.order_id,
        pay_in_token: p.pay_in_token,
        pay_out_token: p.pay_out_token,
        pay_in_amount: p.pay_in_amount,
        pay_out_amount: p.pay_out_amount,
        fee_collected: (p.pay_in_amount - p.pay_out_amount) as u64,
        treasury,
        merchant: p.merchant,
        payer,
    }
}

/// Legs of a split-fee payment: one fee leg per receiver with a positive
/// share, then the payout.
pub open spec fn split_legs(p: Payment, w: Seq<u32>) -> Seq<Leg> {
    let payout = payer_leg(Account::Source, Account::Destination, p.pay_out_amount);
    if p.pay_in_amount > p.pay_out_amount {
        split_fee_legs((p.pay_in_amount - p.pay_out_amount) as u64, w).push(payout)
    } else {
        seq![payout]
    }
}

pub open spec fn split_event_matches(
    e: PaymentCompletedAndFeeDistributed,
    p: Payment,
    w: Seq<u32>,
    payer: Address,
    receivers: [Address; 8],
) -> bool {
    let fee = (p.pay_in_amount - p.pay_out_amount) as u64;
    &&& e.order_id == p.order_id
    &&& e.pay_in_token == p.pay_in_token
    &&& e.pay_out_token == p.pay_out_token
    &&& e.pay_in_amount == p.pay_in_amount
    &&& e.pay_out_amount == p.pay_out_amount
    &&& e.fee_collected == fee
    &&& e.fee_receivers == receivers
    &&& e.fee_received@.len() == FEE_RECEIVERS
    &&& forall|i: int| 0 <= i < FEE_RECEIVERS ==> e.fee_received@[i] == split_share(fee, w[i])
    &&& e.merchant == p.merchant
    &&& e.payer == payer
}

/// Legs after a swap: the realised fee to the treasury, then the payout to
/// the merchant, both drawn from the balance the swap filled.
pub open spec fn swap_legs(p: Payment, fee: u64) -> Seq<Leg> {
    seq![
        payer_leg(Account::Destination, Account::Treasury, fee),
        payer_leg(Account::Destination, Account::MerchantAccount, p.pay_out_amount),
    ]
}

pub open spec fn swap_event(
    p: Payment,
    fee: u64,
    payer: Address,
    treasury: Address,
    merchant: Address,
) -> SwapPaymentCompleted {
    SwapPaymentCompleted {
        order_id: p.order_id,
        pay_in_token: p.pay_in_token,
        pay_out_token: p.pay_out_token,
        pay_in_amount: p.pay_in_amount,
        pay_out_amount: p.pay_out_amount,
        fee_collected: fee,
        treasury,
        merchant,
        payer,
    }
}

fn payout(from: Account, to: Account, amount: u64) -> (r: Leg)
    ensures
        r == payer_leg(from, to, amount),
{
    Leg { from, to, authority: Authority::Payer, amount }
}

/// Plans a direct payment in skim mode: the fee `pay_in - pay_out` goes to
/// the treasury when positive, then `pay_out` goes to the destination.
pub fn complete_transfer_payment(payment: &Payment, payer: Address, treasury: Address, now: i64) -> (r: Result<
    Settlement<PaymentCompleted>,
    ErrorCode,
>)
    ensures
        now > payment.expiry ==> (r matches Err(e) && e == ErrorCode::PaymentExpired),
        now <= payment.expiry && payment.pay_in_amount < payment.pay_out_amount ==> (r matches Err(e)
            && e == ErrorCode::Overflow),
        now <= payment.expiry && payment.pay_in_amount >= payment.pay_out_amount ==> (r matches Ok(s)
            && s.legs@ == direct_legs(*payment) && s.event == direct_event(*payment, payer, treasury)),
        payment.pay_in_amount == payment.pay_out_amount ==> (r matches Ok(s) ==> s.legs@ == seq![
            payer_leg(Account::Source, Account::Destination, payment.pay_out_amount),
        ]),
{
    check_expiry(payment.expiry, now)?;
    let fee = skim_fee(payment.pay_in_amount, payment.pay_out_amount)?;
    let mut legs: Vec<Leg> = Vec::new();
    if fee > 0 {
        legs.push(payout(Account::Source, Account::Treasury, fee));
    }
    legs.push(payout(Account::Source, Account::Destination, payment.pay_out_amount));
    assert(legs@ =~= direct_legs(*payment));
    let event = PaymentCompleted {
        order_id: payment.order_id.clone(),
        pay_in_token: payment.pay_in_token,
        pay_out_token: payment.pay_out_token,
        pay_in_amount: payment.pay_in_amount,
        pay_out_amount: payment.pay_out_amount,
        fee_collected: fee,
        treasury,
        merchant: payment.merchant,
        payer,
    };
    Ok(Settlement { legs, event })
}

/// Plans a payment whose fee is split over eight weighted receivers. When
/// there is a fee, the weights must sum to exactly the denominator; each
/// receiver with a positive share gets a leg, then `pay_out` goes to the
/// destination. Rounding dust stays with the payer.
pub fn complete_transfer_payment_with_fee(
    payment: &Payment,
    percentages: [u32; 8],
    payer: Address,
    receivers: [Address; 8],
    now: i64,
) -> (r: Result<Settlement<PaymentCompletedAndFeeDistributed>, ErrorCode>)
    ensures
        now > payment.expiry ==> (r matches Err(e) && e == ErrorCode::PaymentExpired),
        now <= payment.expiry && payment.pay_in_amount < payment.pay_out_amount ==> (r matches Err(e)
            && e == ErrorCode::Overflow),
        now <= payment.expiry && payment.pay_in_amount > payment.pay_out_amount && weight_sum(percentages@)
            != FEE_DENOMINATOR ==> (r matches Err(e) && e == ErrorCode::InvalidPercentage),
        now <= payment.expiry && payment.pay_in_amount >= payment.pay_out_amount && (payment.pay_in_amount
            == payment.pay_out_amount || weight_sum(percentages@) == FEE_DENOMINATOR) ==> (r matches Ok(s)
            && s.legs@ == split_legs(*payment, percentages@)
            && split_event_matches(s.event, *payment, percentages@, payer, receivers)),
{
    check_expiry(payment.expiry, now)?;
    let fee = skim_fee(payment.pay_in_amount, payment.pay_out_amount)?;
    let mut legs: Vec<Leg>;
    let fee_received: Vec<u64>;
    if fee > 0 {
        let split = split_fee(fee, &percentages)?;
        legs = split.legs;
        fee_received = split.received;
    } else {
        legs = Vec::new();
        fee_received = vec![0, 0, 0, 0, 0, 0, 0, 0];
        assert forall|i: int| 0 <= i < FEE_RECEIVERS implies fee_received@[i] == split_share(
            fee,
            percentages@[i],
        ) by {
            assert(0 * percentages@[i] == 0);
        }
    }
    legs.push(payout(Account::Source, Account::Destination, payment.pay_out_amount));
    assert(legs@ =~= split_legs(*payment, percentages@));
    let event = PaymentCompletedAndFeeDistributed {
        order_id: payment.order_id.clone(),
        pay_in_token: payment.pay_in_token,
        pay_out_token: payment.pay_out_token,
        pay_in_amount: payment.pay_in_amount,
        pay_out_amount: payment.pay_out_amount,
        fee_collected: fee,
        fee_receivers: receivers,
        fee_received,
        merchant: payment.merchant,
        payer,
    };
    Ok(Settlement { legs, event })
}

/// Checks expiry before a swap and says what to ask of the exchange: all of
/// the pay-in amount, with a minimum output of zero.
pub fn swap_order(payment: &Payment, now: i64) -> (r: Result<SwapOrder, ErrorCode>)
    ensures
        now > payment.expiry ==> r == Err::<SwapOrder, ErrorCode>(ErrorCode::PaymentExpired),
        now <= payment.expiry ==> r == Ok::<SwapOrder, ErrorCode>(
            SwapOrder { amount_in: payment.pay_in_amount, minimum_amount_out: 0 },
        ),
{
    check_expiry(payment.expiry, now)?;
    Ok(SwapOrder { amount_in: payment.pay_in_amount, minimum_amount_out: 0 })
}

/// Plans the legs after a swap from the balance of the swap's output
/// account before (`balance_before`) and after (`balance_after`) it. The
/// swap produced `balance_after - balance_before`; what exceeds `pay_out`
/// is the realised fee. A shrinking balance, or a swap that produced less
/// than `pay_out`, is an arithmetic error.
pub fn complete_swap_payment(
    payment: &Payment,
    balance_before: u64,
    balance_after: u64,
    payer: Address,
    treasury: Address,
    merchant: Address,
) -> (r: Result<Settlement<SwapPaymentCompleted>, ErrorCode>)
    ensures
        balance_after < balance_before + payment.pay_out_amount ==> (r matches Err(e) && e
            == ErrorCode::Overflow),
        balance_after >= balance_before + payment.pay_out_amount ==> (r matches Ok(s) && {
            let fee = (balance_after - balance_before - payment.pay_out_amount) as u64;
            &&& s.legs@ == swap_legs(*payment, fee)
            &&& s.event == swap_event(*payment, fee, payer, treasury, merchant)
        }),
{
    let swap_out = match balance_after.checked_sub(balance_before) {
        Some(v) => v,
        None => {
            return Err(ErrorCode::Overflow);
        },
    };
    let fee = match swap_out.checked_sub(payment.pay_out_amount) {
        Some(v) => v,
        None => {
            return Err(ErrorCode::Overflow);
        },
    };
    let mut legs: Vec<Leg> = Vec::new();
    legs.push(payout(Account::Destination, Account::Treasury, fee));
    legs.push(payout(Account::Destination, Account::MerchantAccount, payment.pay_out_amount));
    assert(legs@ =~= swap_legs(*payment, fee));
    let event = SwapPaymentCompleted {
        order_id: payment.order_id.clone(),
        pay_in_token: payment.pay_in_token,
        pay_out_token: payment.pay_out_token,
        pay_in_amount: payment.pay_in_amount,
        pay_out_amount: payment.pay_out_amount,
        fee_collected: fee,
        treasury,
        merchant,
        payer,
    };
    Ok(Settlement { legs, event })
}

/// Settles a direct payment against `ledger`: plans it, then executes every
/// leg or none. A failed call leaves every balance as it was.
pub fn settle_direct(ledger: &mut Ledger, payment: &Payment, payer: Address, treasury: Address, now: i64) -> (r:
    Result<PaymentCompleted, ErrorCode>)
    requires
        old(ledger).wf(),
    ensures
        final(ledger).wf(),
        r is Err ==> final(ledger)@ == old(ledger)@,
        now > payment.expiry ==> (r matches Err(e) && e == ErrorCode::PaymentExpired),
        now <= payment.expiry && payment.pay_in_amount < payment.pay_out_amount ==> (r matches Err(e)
            && e == ErrorCode::Overflow),
        now <= payment.expiry && payment.pay_in_amount >= payment.pay_out_amount ==> match run_legs(
            old(ledger)@,
            direct_legs(*payment),
        ) {
            Some(after) => (r matches Ok(e) && e == direct_event(*payment, payer, treasury))
                && final(ledger)@ == after,
            None => r matches Err(e) && e == ErrorCode::ExternalCallFailure,
        },
{
    let plan = complete_transfer_payment(payment, payer, treasury, now)?;
    ledger.execute(&plan.legs)?;
    Ok(plan.event)
}

/// Settles a split-fee payment against `ledger`, all legs or none. A failed
/// call leaves every balance as it was.
pub fn settle_with_fee_split(
    ledger: &mut Ledger,
    payment: &Payment,
    percentages: [u32; 8],
    payer: Address,
    receivers: [Address; 8],
    now: i64,
) -> (r: Result<PaymentCompletedAndFeeDistributed, ErrorCode>)
    requires
        old(ledger).wf(),
    ensures
        final(ledger).wf(),
        r is Err ==> final(ledger)@ == old(ledger)@,
        now > payment.expiry ==> (r matches Err(e) && e == ErrorCode::PaymentExpired),
        now <= payment.expiry && payment.pay_in_amount < payment.pay_out_amount ==> (r matches Err(e)
            && e == ErrorCode::Overflow),
        now <= payment.expiry && payment.pay_in_amount > payment.pay_out_amount && weight_sum(percentages@)
            != FEE_DENOMINATOR ==> (r matches Err(e) && e == ErrorCode::InvalidPercentage),
        now <= payment.expiry && payment.pay_in_amount >= payment.pay_out_amount && (payment.pay_in_amount
            == payment.pay_out_amount || weight_sum(percentages@) == FEE_DENOMINATOR) ==> match run_legs(
            old(ledger)@,
            split_legs(*payment, percentages@),
        ) {
            Some(after) => (r matches Ok(e) && split_event_matches(e, *payment, percentages@, payer, receivers))
                && final(ledger)@ == after,
            None => r matches Err(e) && e == ErrorCode::ExternalCallFailure,
        },
{
    let plan = complete_transfer_payment_with_fee(payment, percentages, payer, receivers, now)?;
    ledger.execute(&plan.legs)?;
    Ok(plan.event)
}

/// In skim mode a direct payment that the ledger can carry takes exactly
/// `pay_in` from the payer, gives exactly `pay_out` to the destination and
/// the difference to the treasury.
pub proof fn lemma_direct_settlement_balances(p: Payment, b: Seq<u64>)
    requires
        p.pay_in_amount >= p.pay_out_amount,
        b.len() == ACCOUNT_SLOTS,
        b[Account::Source.slot_spec()] >= p.pay_in_amount,
        b[Account::Destination.slot_spec()] + p.pay_out_amount <= u64::MAX,
        b[Account::Treasury.slot_spec()] + (p.pay_in_amount - p.pay_out_amount) <= u64::MAX,
    ensures
        run_legs(b, direct_legs(p)) matches Some(a) && {
            &&& a.len() == ACCOUNT_SLOTS
            &&& a[Account::Source.slot_spec()] == b[Account::Source.slot_spec()] - p.pay_in_amount
            &&& a[Account::Destination.slot_spec()] == b[Account::Destination.slot_spec()] + p.pay_out_amount
            &&& a[Account::Treasury.slot_spec()] == b[Account::Treasury.slot_spec()] + (p.pay_in_amount
                - p.pay_out_amount)
            &&& forall|k: int| 3 <= k < ACCOUNT_SLOTS ==> a[k] == b[k]
        },
{
    let legs = direct_legs(p);
    let payout = payer_leg(Account::Source, Account::Destination, p.pay_out_amount);
    assert(seq![payout].drop_last() =~= Seq::<Leg>::empty());
    assert(run_legs(b, Seq::<Leg>::empty()) == Some(b));
    if p.pay_in_amount > p.pay_out_amount {
        let fee_leg = payer_leg(Account::Source, Account::Treasury, (p.pay_in_amount - p.pay_out_amount) as u64);
        assert(legs.drop_last() =~= seq![fee_leg]);
        assert(seq![fee_leg].drop_last() =~= Seq::<Leg>::empty());
        assert(run_legs(b, seq![fee_leg]) == leg_step(b, fee_leg));
        let m = leg_step(b, fee_leg)->Some_0;
        assert(run_legs(b, legs) == leg_step(m, payout));
    } else {
        assert(run_legs(b, legs) == leg_step(b, payout));
    }
}

/// Nothing stops the same payment instruction from settling twice: a replay
/// that the ledger can carry moves the value a second time.
pub proof fn lemma_replay_moves_value_twice(p: Payment, b: Seq<u64>)
    requires
        p.pay_in_amount >= p.pay_out_amount,
        b.len() == ACCOUNT_SLOTS,
        b[Account::Source.slot_spec()] >= 2 * p.pay_in_amount,
        b[Account::Destination.slot_spec()] + 2 * p.pay_out_amount <= u64::MAX,
        b[Account::Treasury.slot_spec()] + 2 * (p.pay_in_amount - p.pay_out_amount) <= u64::MAX,
    ensures
        run_legs(b, direct_legs(p)) matches Some(once) && run_legs(once, direct_legs(p)) matches Some(twice) && {
            &&& twice[Account::Source.slot_spec()] == b[Account::Source.slot_spec()] - 2 * p.pay_in_amount
            &&& twice[Account::Destination.slot_spec()] == b[Account::Destination.slot_spec()] + 2
                * p.pay_out_amount
        },
{
    lemma_direct_settlement_balances(p, b);
    let once = run_legs(b, direct_legs(p))->Some_0;
    lemma_direct_settlement_balances(p, once);
}

} // verus!
