use paydefi::error::ErrorCode;
use paydefi::ledger::{Account, Authority, Leg};
use paydefi::ownership::{change_owner, check_ownership, complete_transfer_payment, initialize, withdraw_funds};
use paydefi::types::Address;

fn addr(b: u8) -> Address {
    Address::new([b; 32])
}

#[test]
fn owner_checks() {
    let acct = initialize(addr(1));
    assert_eq!(check_ownership(&acct, addr(1)), Ok(()));
    assert_eq!(check_ownership(&acct, addr(2)), Err(ErrorCode::InvalidOwner));
}

#[test]
fn only_owner_changes_owner() {
    let mut acct = initialize(addr(1));
    assert_eq!(change_owner(&mut acct, addr(2), addr(2)), Err(ErrorCode::InvalidOwner));
    assert!(acct.owner.same_as(&addr(1)));
    assert_eq!(change_owner(&mut acct, addr(1), addr(2)), Ok(()));
    assert!(acct.owner.same_as(&addr(2)));
}

#[test]
fn only_owner_withdraws() {
    let acct = initialize(addr(1));
    assert_eq!(withdraw_funds(&acct, addr(2), addr(9), 5).err(), Some(ErrorCode::InvalidOwner));
    let t = withdraw_funds(&acct, addr(1), addr(9), 5).unwrap();
    assert!(t.from.same_as(&addr(9)));
    assert!(t.to.same_as(&addr(1)));
    assert_eq!(t.lamports, 5);
}

#[test]
fn addresses_differ_in_last_byte() {
    let mut b = [7u8; 32];
    b[31] = 8;
    assert!(!addr(7).same_as(&Address::new(b)));
    assert!(addr(7) == addr(7));
}

#[test]
fn escrow_keeps_fee_in_vault() {
    let s = complete_transfer_payment(42, addr(1), 110, 100, addr(3)).unwrap();
    assert_eq!(s.event.fee_collected, 10);
    assert_eq!(s.event.order_id, 42);
    assert_eq!(s.legs[0], Leg { from: Account::Source, to: Account::ProgramVault, authority: Authority::Payer, amount: 110 });
    assert_eq!(
        s.legs[1],
        Leg { from: Account::ProgramVault, to: Account::MerchantAccount, authority: Authority::Program, amount: 100 }
    );
}

#[test]
fn escrow_rejects_pay_out_above_pay_in() {
    assert_eq!(complete_transfer_payment(42, addr(1), 99, 100, addr(3)).err(), Some(ErrorCode::Overflow));
}
