use vstd::prelude::*;
use crate::error::ErrorCode;

verus! {

/// Number of weighted fee receivers in split mode.
pub const FEE_RECEIVERS: usize = 8;

/// Number of balances a settlement can touch: the five named accounts and
/// one per fee receiver.
pub const ACCOUNT_SLOTS: usize = 13;

/// A balance that a transfer leg draws from or pays into.
#[derive(Clone, Copy, Debug, PartialEq, Eq, Structural)]
pub enum Account {
    /// The payer's balance of the pay-in asset.
    Source,
    /// The balance credited by a direct payment, or filled by a swap.
    Destination,
    /// The platform's fee balance.
    Treasury,
    /// The merchant's balance credited after a swap.
    MerchantAccount,
    /// The balance held by the settlement module itself.
    ProgramVault,
    /// One of the weighted fee receivers, by position.
    FeeReceiver(usize),
}

/// The identity that authorises a leg.
#[derive(Clone, Copy, Debug, PartialEq, Eq, Structural)]
pub enum Authority {
    Payer,
    Program,
}

/// One balance-to-balance value transfer.
#[derive(Clone, Copy, Debug, PartialEq, Eq, Structural)]
pub struct Leg {
    pub from: Account,
    pub to: Account,
    pub authority: Authority,
    pub amount: u64,
}

impl Account {
    pub open spec fn is_valid(self) -> bool {
        match self {
            Account::FeeReceiver(i) => i < FEE_RECEIVERS,
            _ => true,
        }
    }

    /// Position of this balance in a ledger.
    pub open spec fn slot_spec(self) -> int {
        match self {
            Account::Source => 0,
            Account::Destination => 1,
            Account::Treasury => 2,
            Account::MerchantAccount => 3,
            Account::ProgramVault => 4,
            Account::FeeReceiver(i) => 5 + i,
        }
    }

    pub fn is_valid_exec(&self) -> (r: bool)
        ensures
            r == self.is_valid(),
    {
        match self {
            Account::FeeReceiver(i) => *i < FEE_RECEIVERS,
            _ => true,
        }
    }

    pub fn slot(&self) -> (r: usize)
        requires
            self.is_valid(),
        ensures
            r == self.slot_spec(),
            r < ACCOUNT_SLOTS,
    {
        match self {
            Account::Source => 0,
            Account::Destination => 1,
            Account::Treasury => 2,
            Account::MerchantAccount => 3,
            Account::ProgramVault => 4,
            Account::FeeReceiver(i) => 5 + *i,
        }
    }
}

/// The balances after one leg, or `None` where the ledger rejects it: an
/// unknown account, too little in the source, or a credit past `u64::MAX`.
pub open spec fn leg_step(b: Seq<u64>, leg: Leg) -> Option<Seq<u64>> {
    let f = leg.from.slot_spec();
    let t = leg.to.slot_spec();
    if b.len() != ACCOUNT_SLOTS || !leg.from.is_valid() || !leg.to.is_valid() || b[f] < leg.amount {
        None
    } else {
        let debited = b.update(f, (b[f] - leg.amount) as u64);
        if debited[t] + leg.amount > u64::MAX {
            None
        } else {
            Some(debited.update(t, (debited[t] + leg.amount) as u64))
        }
    }
}

/// The balances after every leg in order, or `None` where any leg is rejected.
pub open spec fn run_legs(b: Seq<u64>, legs: Seq<Leg>) -> Option<Seq<u64>>
    decreases legs.len(),
{
    if legs.len() == 0 {
        Some(b)
    } else {
        match run_legs(b, legs.drop_last()) {
            Some(m) => leg_step(m, legs.last()),
            None => None,
        }
    }
}

/// Once a prefix of the legs is rejected, the whole sequence is.
proof fn lemma_rejected_prefix(b: Seq<u64>, legs: Seq<Leg>, i: int)
    requires
        0 <= i <= legs.len(),
        run_legs(b, legs.take(i)) is None,
    ensures
        run_legs(b, legs) is None,
    decreases legs.len() - i,
{
    if i < legs.len() {
        assert(legs.take(i + 1).drop_last() =~= legs.take(i));
        lemma_rejected_prefix(b, legs, i + 1);
    } else {
        assert(legs.take(i) =~= legs);
    }
}

/// In-memory balances, one per account slot.
pub struct Ledger {
    balances: Vec<u64>,
}

impl View for Ledger {
    type V = Seq<u64>;

    closed spec fn view(&self) -> Seq<u64> {
        self.balances@
    }
}

impl Ledger {
    pub open spec fn wf(&self) -> bool {
        self@.len() == ACCOUNT_SLOTS
    }

    /// A ledger holding the given balances, in slot order.
    pub fn new(balances: Vec<u64>) -> (r: Option<Ledger>)
        ensures
            r is Some <==> balances@.len() == ACCOUNT_SLOTS,
            r matches Some(l) ==> l.wf() && l@ == balances@,
    {
        if balances.len() == ACCOUNT_SLOTS {
            Some(Ledger { balances })
        } else {
            None
        }
    }

    pub fn balance(&self, account: Account) -> (r: u64)
        requires
            self.wf(),
            account.is_valid(),
        ensures
            r == self@[account.slot_spec()],
    {
        self.balances[account.slot()]
    }

    /// Executes the legs in order, all or nothing: where any leg is rejected
    /// no balance changes.
    pub fn execute(&mut self, legs: &Vec<Leg>) -> (r: Result<(), ErrorCode>)
        requires
            old(self).wf(),
        ensures
            final(self).wf(),
            match run_legs(old(self)@, legs@) {
                Some(after) => r is Ok && final(self)@ == after,
                None => r == Err::<(), ErrorCode>(ErrorCode::ExternalCallFailure) && final(self)@ == old(self)@,
            },
    {
        let mut work: Vec<u64> = Vec::new();
        let mut k: usize = 0;
        while k < self.balances.len()
            invariant
                0 <= k <= self.balances@.len(),
                work@ =~= self.balances@.take(k as int),
            decreases self.balances@.len() - k,
        {
            work.push(self.balances[k]);
            k = k + 1;
        }
        assert(work@ =~= self@);
        assert(legs@.take(0) =~= Seq::<Leg>::empty());
        let mut i: usize = 0;
        while i < legs.len()
            invariant
                0 <= i <= legs@.len(),
                self.wf(),
                work@.len() == ACCOUNT_SLOTS,
                run_legs(self@, legs@.take(i as int)) == Some(work@),
            decreases legs@.len() - i,
        {
            let leg = legs[i];
            assert(legs@.take(i + 1).drop_last() =~= legs@.take(i as int));
            assert(legs@.take(i + 1).last() == leg);
            if !leg.from.is_valid_exec() || !leg.to.is_valid_exec() {
                proof { lemma_rejected_prefix(self@, legs@, i + 1); }
                return Err(ErrorCode::ExternalCallFailure);
            }
            let f = leg.from.slot();
            let t = leg.to.slot();
            if work[f] < leg.amount {
                proof { lemma_rejected_prefix(self@, legs@, i + 1); }
                return Err(ErrorCode::ExternalCallFailure);
            }
            let debited = work[f] - leg.amount;
            work.set(f, debited);
            if work[t] > u64::MAX - leg.amount {
                proof { lemma_rejected_prefix(self@, legs@, i + 1); }
                return Err(ErrorCode::ExternalCallFailure);
            }
            let credited = work[t] + leg.amount;
            work.set(t, credited);
            i = i + 1;
        }
        assert(legs@.take(legs@.len() as int) =~= legs@);
        self.balances = work;
        Ok(())
    }
}

} // verus!
