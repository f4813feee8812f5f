use paydefi::error::ErrorCode;
use paydefi::ledger::{Account, Authority, Leg, Ledger};
use paydefi::settlement::{
    complete_swap_payment, complete_transfer_payment, complete_transfer_payment_with_fee, settle_direct,
    settle_with_fee_split, swap_order, Payment, SwapOrder,
};
use paydefi::types::Address;

fn addr(b: u8) -> Address {
    Address::new([b; 32])
}

fn payment(pay_in: u64, pay_out: u64, expiry: i64) -> Payment {
    Payment {
        order_id: String::from("order-1"),
        pay_in_token: addr(1),
        pay_out_token: addr(2),
        pay_in_amount: pay_in,
        pay_out_amount: pay_out,
        merchant: addr(3),
        expiry,
    }
}

fn ledger_with(source: u64) -> Ledger {
    let mut b = vec![0u64; 13];
    b[0] = source;
    Ledger::new(b).unwrap()
}

const WEIGHTS: [u32; 8] = [5000, 5000, 0, 0, 0, 0, 0, 0];

fn receivers() -> [Address; 8] {
    [addr(10), addr(11), addr(12), addr(13), addr(14), addr(15), addr(16), addr(17)]
}

#[test]
fn direct_payment_moves_exact_amounts() {
    let mut l = ledger_with(1000);
    let e = settle_direct(&mut l, &payment(110, 100, 50), addr(4), addr(5), 50).unwrap();
    assert_eq!(l.balance(Account::Source), 890);
    assert_eq!(l.balance(Account::Destination), 100);
    assert_eq!(l.balance(Account::Treasury), 10);
    assert_eq!(e.fee_collected, 10);
    assert_eq!(e.order_id, "order-1");
    assert!(e.payer.same_as(&addr(4)));
    assert!(e.treasury.same_as(&addr(5)));
    assert!(e.merchant.same_as(&addr(3)));
}

#[test]
fn direct_plan_puts_fee_leg_first() {
    let s = complete_transfer_payment(&payment(110, 100, 50), addr(4), addr(5), 0).unwrap();
    assert_eq!(s.legs.len(), 2);
    assert_eq!(s.legs[0], Leg { from: Account::Source, to: Account::Treasury, authority: Authority::Payer, amount: 10 });
    assert_eq!(s.legs[1], Leg { from: Account::Source, to: Account::Destination, authority: Authority::Payer, amount: 100 });
}

#[test]
fn zero_fee_gives_only_payout() {
    let s = complete_transfer_payment(&payment(100, 100, 50), addr(4), addr(5), 0).unwrap();
    assert_eq!(s.legs.len(), 1);
    assert_eq!(s.legs[0].to, Account::Destination);
    assert_eq!(s.legs[0].amount, 100);
    assert_eq!(s.event.fee_collected, 0);
}

#[test]
fn pay_out_above_pay_in_is_overflow() {
    let r = complete_transfer_payment(&payment(99, 100, 50), addr(4), addr(5), 0);
    assert_eq!(r.err(), Some(ErrorCode::Overflow));
    let mut l = ledger_with(1000);
    assert_eq!(settle_direct(&mut l, &payment(99, 100, 50), addr(4), addr(5), 0).err(), Some(ErrorCode::Overflow));
    assert_eq!(l.balance(Account::Source), 1000);
}

#[test]
fn expired_payment_is_rejected_everywhere() {
    let p = payment(99, 100, 50);
    let mut l = ledger_with(1000);
    assert_eq!(settle_direct(&mut l, &p, addr(4), addr(5), 51).err(), Some(ErrorCode::PaymentExpired));
    assert_eq!(
        settle_with_fee_split(&mut l, &payment(110, 100, 50), [1, 0, 0, 0, 0, 0, 0, 0], addr(4), receivers(), 51).err(),
        Some(ErrorCode::PaymentExpired)
    );
    assert_eq!(swap_order(&p, 51), Err(ErrorCode::PaymentExpired));
    for k in [Account::Source, Account::Destination, Account::Treasury] {
        assert_eq!(l.balance(k), if k == Account::Source { 1000 } else { 0 });
    }
}

#[test]
fn settlement_at_expiry_second_succeeds() {
    assert!(complete_transfer_payment(&payment(100, 100, 50), addr(4), addr(5), 50).is_ok());
}

#[test]
fn insufficient_balance_changes_nothing() {
    let mut l = ledger_with(105);
    let r = settle_direct(&mut l, &payment(110, 100, 50), addr(4), addr(5), 0);
    assert_eq!(r.err(), Some(ErrorCode::ExternalCallFailure));
    assert_eq!(l.balance(Account::Source), 105);
    assert_eq!(l.balance(Account::Treasury), 0);
    assert_eq!(l.balance(Account::Destination), 0);
}

#[test]
fn replay_moves_value_twice() {
    let mut l = ledger_with(1000);
    let p = payment(110, 100, 50);
    settle_direct(&mut l, &p, addr(4), addr(5), 0).unwrap();
    settle_direct(&mut l, &p, addr(4), addr(5), 0).unwrap();
    assert_eq!(l.balance(Account::Source), 780);
    assert_eq!(l.balance(Account::Destination), 200);
    assert_eq!(l.balance(Account::Treasury), 20);
}

#[test]
fn split_leaves_rounding_dust_with_payer() {
    let mut l = ledger_with(1000);
    let e = settle_with_fee_split(&mut l, &payment(107, 100, 50), WEIGHTS, addr(4), receivers(), 0).unwrap();
    assert_eq!(e.fee_received, vec![3, 3, 0, 0, 0, 0, 0, 0]);
    assert_eq!(e.fee_collected, 7);
    assert_eq!(l.balance(Account::FeeReceiver(0)), 3);
    assert_eq!(l.balance(Account::FeeReceiver(1)), 3);
    assert_eq!(l.balance(Account::Destination), 100);
    assert_eq!(l.balance(Account::Source), 1000 - 106);
    assert!(e.fee_receivers[7].same_as(&addr(17)));
}

#[test]
fn split_skips_zero_shares() {
    let s = complete_transfer_payment_with_fee(
        &payment(101, 100, 50),
        [9999, 1, 0, 0, 0, 0, 0, 0],
        addr(4),
        receivers(),
        0,
    )
    .unwrap();
    assert_eq!(s.legs.len(), 1);
    assert_eq!(s.legs[0].to, Account::Destination);
    assert_eq!(s.event.fee_received, vec![0; 8]);
}

#[test]
fn split_of_largest_fee_does_not_overflow() {
    let s = complete_transfer_payment_with_fee(
        &payment(u64::MAX, 0, 50),
        [2500, 2500, 2500, 2500, 0, 0, 0, 0],
        addr(4),
        receivers(),
        0,
    )
    .unwrap();
    assert_eq!(s.event.fee_received[0], u64::MAX / 4);
    assert_eq!(s.legs.len(), 5);
    assert_eq!(s.legs[3].to, Account::FeeReceiver(3));
}

#[test]
fn weights_not_summing_to_denominator_are_rejected() {
    let mut l = ledger_with(1000);
    for w in [[0u32; 8], [5000, 4999, 0, 0, 0, 0, 0, 0], [5000, 5000, 1, 0, 0, 0, 0, 0], [u32::MAX; 8]] {
        let r = settle_with_fee_split(&mut l, &payment(110, 100, 50), w, addr(4), receivers(), 0);
        assert_eq!(r.err(), Some(ErrorCode::InvalidPercentage));
    }
    assert_eq!(l.balance(Account::Source), 1000);
    assert_eq!(l.balance(Account::Destination), 0);
}

#[test]
fn zero_fee_split_skips_weight_check() {
    let s = complete_transfer_payment_with_fee(&payment(100, 100, 50), [0; 8], addr(4), receivers(), 0).unwrap();
    assert_eq!(s.legs.len(), 1);
    assert_eq!(s.event.fee_received, vec![0; 8]);
}

#[test]
fn swap_order_asks_for_whole_pay_in_without_floor() {
    assert_eq!(swap_order(&payment(110, 100, 50), 50), Ok(SwapOrder { amount_in: 110, minimum_amount_out: 0 }));
}

#[test]
fn swap_under_delivery_fails() {
    let r = complete_swap_payment(&payment(200, 150, 50), 100, 180, addr(4), addr(5), addr(6));
    assert_eq!(r.err(), Some(ErrorCode::Overflow));
}

#[test]
fn swap_shrinking_balance_fails() {
    let r = complete_swap_payment(&payment(200, 0, 50), 100, 99, addr(4), addr(5), addr(6));
    assert_eq!(r.err(), Some(ErrorCode::Overflow));
}

#[test]
fn swap_realised_fee_goes_to_treasury() {
    let s = complete_swap_payment(&payment(200, 150, 50), 100, 280, addr(4), addr(5), addr(6)).unwrap();
    assert_eq!(s.event.fee_collected, 30);
    assert_eq!(s.legs[0], Leg { from: Account::Destination, to: Account::Treasury, authority: Authority::Payer, amount: 30 });
    assert_eq!(
        s.legs[1],
        Leg { from: Account::Destination, to: Account::MerchantAccount, authority: Authority::Payer, amount: 150 }
    );
    assert!(s.event.merchant.same_as(&addr(6)));
}

#[test]
fn ledger_needs_every_slot() {
    assert!(Ledger::new(vec![0; 12]).is_none());
    assert!(Ledger::new(vec![0; 13]).is_some());
}

#[test]
fn ledger_rejects_credit_past_max() {
    let mut b = vec![0u64; 13];
    b[0] = 10;
    b[1] = u64::MAX;
    let mut l = Ledger::new(b).unwrap();
    let legs = vec![
        Leg { from: Account::Source, to: Account::Treasury, authority: Authority::Payer, amount: 5 },
        Leg { from: Account::Source, to: Account::Destination, authority: Authority::Payer, amount: 1 },
    ];
    assert_eq!(l.execute(&legs), Err(ErrorCode::ExternalCallFailure));
    assert_eq!(l.balance(Account::Source), 10);
    assert_eq!(l.balance(Account::Treasury), 0);
}

#[test]
fn ledger_rejects_unknown_receiver() {
    let mut l = ledger_with(10);
    let legs = vec![Leg { from: Account::Source, to: Account::FeeReceiver(8), authority: Authority::Payer, amount: 1 }];
    assert_eq!(l.execute(&legs), Err(ErrorCode::ExternalCallFailure));
    assert_eq!(l.balance(Account::Source), 10);
}
