use vstd::prelude::*;

verus! {

/// Every way a settlement call can fail. A failed call moves no value.
#[derive(Clone, Copy, Debug, PartialEq, Eq, Structural)]
pub enum ErrorCode {
    /// The current time is past the payment's expiry.
    PaymentExpired,
    /// The fee weights exceed one hundred percent.
    InvalidFeeDistribution,
    /// The fee percentage calculation overflowed.
    FeePercentageOverflow,
    /// The fee weights do not sum to exactly the fee denominator.
    InvalidPercentage,
    /// The requesting identity is not the registered owner.
    InvalidOwner,
    /// A checked subtraction or addition left the range of its type.
    Overflow,
    /// The token ledger rejected a transfer leg.
    ExternalCallFailure,
}

} // verus!
