//! Domain types: transactions and account state.

use vstd::prelude::*;

verus! {

/// Whether an integer is representable as an `i128` amount.
pub open spec fn fits(x: int) -> bool {
    i128::MIN <= x <= i128::MAX
}

/// Ten to the power `n`.
pub open spec fn pow10(n: nat) -> int
    decreases n,
{
    if n == 0 {
        1
    } else {
        10 * pow10((n - 1) as nat)
    }
}

/// The fixed-point amount of the decimal `mantissa / 10^scale`, where it has
/// at most four decimal places and the amount is representable.
pub open spec fn spec_amount_from_decimal(mantissa: int, scale: nat) -> Option<int> {
    if scale <= 4 && fits(mantissa * pow10((4 - scale) as nat)) {
        Some(mantissa * pow10((4 - scale) as nat))
    } else {
        None
    }
}

/// Converts the decimal `mantissa / 10^scale` to ten-thousandths; `None` where
/// it has more than four decimal places or does not fit in an `i128`.
pub fn amount_from_decimal(mantissa: i128, scale: u32) -> (r: Option<i128>)
    ensures
        r == (match spec_amount_from_decimal(mantissa as int, scale as nat) {
            Some(v) => Some(v as i128),
            None => None::<i128>,
        }),
{
    proof {
        reveal_with_fuel(pow10, 5);
    }
    let factor: i128 = if scale == 0 {
        10000
    } else if scale == 1 {
        1000
    } else if scale == 2 {
        100
    } else if scale == 3 {
        10
    } else if scale == 4 {
        1
    } else {
        return None;
    };
    mantissa.checked_mul(factor)
}

/// All transaction kinds of the ledger.
#[derive(Clone, Copy, Debug, PartialEq, Eq, Structural)]
pub enum TxType {
    Deposit,
    Withdrawal,
    Dispute,
    Resolve,
    Chargeback,
}

/// A single input transaction.
///
/// `amount` (in ten-thousandths) is read only for deposits and withdrawals.
#[derive(Clone, Copy, Debug)]
pub struct Transaction {
    pub kind: TxType,
    pub client: u16,
    pub tx: u32,
    pub amount: Option<i128>,
}

/// Runtime state of a client account; balances are in ten-thousandths.
#[derive(Clone, Copy, Debug, PartialEq, Eq, Structural)]
pub struct Account {
    /// Funds free to withdraw or to dispute.
    pub available: i128,
    /// Funds frozen by open disputes.
    pub held: i128,
    /// Set for good by a successful chargeback.
    pub locked: bool,
}

impl Account {
    /// The account a client has before any accepted activity.
    pub open spec fn empty() -> Account {
        Account { available: 0, held: 0, locked: false }
    }

    /// The total of an account can be represented.
    pub open spec fn wf(self) -> bool {
        fits(self.available + self.held)
    }

    /// The spec total of an account.
    pub open spec fn spec_total(self) -> int {
        self.available + self.held
    }

    /// A fresh, unlocked account with zero balances.
    pub fn new() -> (r: Account)
        ensures
            r == Account::empty(),
    {
        Account { available: 0, held: 0, locked: false }
    }

    /// Total funds: `available + held`.
    pub fn total(&self) -> (r: i128)
        requires
            self.wf(),
        ensures
            r == self.spec_total(),
    {
        self.available + self.held
    }
}

} // verus!
