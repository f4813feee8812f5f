use vstd::prelude::*;
use crate::error::ErrorCode;
use crate::ledger::{Account, Authority, Leg};
use crate::settlement::Settlement;
use crate::types::Address;

verus! {

/// Records which identity administers the settlement module.
#[derive(Clone, Copy, Debug)]
pub struct OwnershipAccount {
    pub owner: Address,
}

/// Audit record of an escrowed payment.
#[derive(Clone, Copy, Debug)]
pub struct PaymentCompleted {
    pub order_id: u64,
    pub pay_in_token: Address,
    pub pay_in_amount: u64,
    pub pay_out_amount: u64,
    pub fee_collected: u64,
    pub merchant: Address,
}

/// A native-currency transfer out of the module's own account.
#[derive(Clone, Copy, Debug)]
pub struct SystemTransfer {
    pub from: Address,
    pub to: Address,
    pub lamports: u64,
}

/// A registry owned by `owner`.
pub fn initialize(owner: Address) -> (r: OwnershipAccount)
    ensures
        r.owner == owner,
{
    OwnershipAccount { owner }
}

/// Succeeds exactly when `owner` is the registered owner.
pub fn check_ownership(account: &OwnershipAccount, owner: Address) -> (r: Result<(), ErrorCode>)
    ensures
        r is Ok <==> account.owner.bytes@ == owner.bytes@,
        r is Err ==> r == Err::<(), ErrorCode>(ErrorCode::InvalidOwner),
{
    if !account.owner.same_as(&owner) {
        return Err(ErrorCode::InvalidOwner);
    }
    Ok(())
}

/// Hands the registry to `new_owner` when `signer` is the current owner;
/// otherwise fails and changes nothing.
pub fn change_owner(account: &mut OwnershipAccount, signer: Address, new_owner: Address) -> (r: Result<
    (),
    ErrorCode,
>)
    ensures
        r is Ok <==> old(account).owner.bytes@ == signer.bytes@,
        r is Ok ==> final(account).owner == new_owner,
        r is Err ==> r == Err::<(), ErrorCode>(ErrorCode::InvalidOwner) && *final(account) == *old(account),
{
    if !signer.same_as(&account.owner) {
        return Err(ErrorCode::InvalidOwner);
    }
    account.owner = new_owner;
    Ok(())
}

/// Plans a withdrawal of `amount` from the module's account to `signer`,
/// which must be the registered owner.
pub fn withdraw_funds(account: &OwnershipAccount, signer: Address, program_account: Address, amount: u64) -> (r:
    Result<SystemTransfer, ErrorCode>)
    ensures
        r is Ok <==> account.owner.bytes@ == signer.bytes@,
        r is Err ==> r == Err::<SystemTransfer, ErrorCode>(ErrorCode::InvalidOwner),
        r matches Ok(t) ==> t.from == program_account && t.to == signer && t.lamports == amount,
{
    if !signer.same_as(&account.owner) {
        return Err(ErrorCode::InvalidOwner);
    }
    Ok(SystemTransfer { from: program_account, to: signer, lamports: amount })
}

/// Legs of an escrowed payment: all of `pay_in` into the module's vault,
/// then `pay_out` from the vault to the merchant under the module's own
/// authority. The fee stays in the vault.
pub open spec fn escrow_legs(pay_in_amount: u64, pay_out_amount: u64) -> Seq<Leg> {
    seq![
        Leg {
            from: Account::Source,
            to: Account::ProgramVault,
            authority: Authority::Payer,
            amount: pay_in_amount,
        },
        Leg {
            from: Account::ProgramVault,
            to: Account::MerchantAccount,
            authority: Authority::Program,
            amount: pay_out_amount,
        },
    ]
}

/// Plans an escrowed payment; a pay-out above the pay-in is an arithmetic
/// error.
pub fn complete_transfer_payment(
    order_id: u64,
    pay_in_token: Address,
    pay_in_amount: u64,
    pay_out_amount: u64,
    merchant: Address,
) -> (r: Result<Settlement<PaymentCompleted>, ErrorCode>)
    ensures
        pay_in_amount < pay_out_amount ==> (r matches Err(e) && e == ErrorCode::Overflow),
        pay_in_amount >= pay_out_amount ==> (r matches Ok(s) && {
            &&& s.legs@ == escrow_legs(pay_in_amount, pay_out_amount)
            &&& s.event == PaymentCompleted {
                order_id,
                pay_in_token,
                pay_in_amount,
                pay_out_amount,
                fee_collected: (pay_in_amount - pay_out_amount) as u64,
                merchant,
            }
        }),
{
    let fee_collected = match pay_in_amount.checked_sub(pay_out_amount) {
        Some(v) => v,
        None => {
            return Err(ErrorCode::Overflow);
        },
    };
    let mut legs: Vec<Leg> = Vec::new();
    legs.push(Leg { from: Account::Source, to: Account::ProgramVault, authority: Authority::Payer, amount: pay_in_amount });
    legs.push(
        Leg {
            from: Account::ProgramVault,
            to: Account::MerchantAccount,
            authority: Authority::Program,
            amount: pay_out_amount,
        },
    );
    assert(legs@ =~= escrow_legs(pay_in_amount, pay_out_amount));
    let event = PaymentCompleted { order_id, pay_in_token, pay_in_amount, pay_out_amount, fee_collected, merchant };
    Ok(Settlement { legs, event })
}

} // verus!
