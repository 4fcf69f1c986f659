//! Work outside the domain that a command may need before it can be accepted.

use vstd::prelude::*;

verus! {

/// The capabilities that command handling may call on: confirming a cash
/// withdrawal at an ATM and validating a check. Both accept every request.
pub struct BankAccountServices;

/// An ATM refused to pay out.
#[derive(Debug, PartialEq)]
pub struct AtmError;

/// A check did not validate.
#[derive(Debug, PartialEq)]
pub struct CheckingError;

impl BankAccountServices {
    /// Confirms that the given ATM may pay out `amount`.
    pub fn atm_withdrawal(&self, _atm_id: &str, _amount: i64) -> (r: Result<(), AtmError>)
        ensures
            r is Ok,
    {
        Ok(())
    }

    /// Confirms that `check` may be drawn on `account`.
    pub fn validate_check(&self, _account: &str, _check: &str) -> (r: Result<(), CheckingError>)
        ensures
            r is Ok,
    {
        Ok(())
    }
}

} // verus!
