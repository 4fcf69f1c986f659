//! Requests to change an account.

use vstd::prelude::*;

verus! {

/// A request to change an account; it may be rejected. Amounts are in the
/// currency's smallest unit.
#[derive(Debug, Clone, PartialEq)]
pub enum BankAccountCommand {
    OpenAccount { account_id: String },
    DepositMoney { amount: i64 },
    WithdrawMoney { amount: i64 },
    WriteCheck { check_number: String, amount: i64 },
}

} // verus!
