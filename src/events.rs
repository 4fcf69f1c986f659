//! Domain events of a bank account, and the error that rejects a command.

use vstd::prelude::*;

verus! {

/// Something that has happened to an account. Every money movement carries
/// the balance that holds once it has happened.
#[derive(Debug, Clone, PartialEq)]
pub enum BankAccountEvent {
    AccountOpened { account_id: String },
    CustomerDepositedMoney { amount: i64, balance: i64 },
    CustomerWithdrewCash { amount: i64, balance: i64 },
    CustomerWroteCheck { check_number: String, amount: i64, balance: i64 },
}

/// The name under which an event of this kind is stored.
pub open spec fn event_type_name(e: BankAccountEvent) -> Seq<char> {
    match e {
        BankAccountEvent::AccountOpened { .. } => "AccountOpened"@,
        BankAccountEvent::CustomerDepositedMoney { .. } => "CustomerDepositedMoney"@,
        BankAccountEvent::CustomerWithdrewCash { .. } => "CustomerWithdrewCash"@,
        BankAccountEvent::CustomerWroteCheck { .. } => "CustomerWroteCheck"@,
    }
}

/// The schema version that every stored event carries.
pub open spec fn event_version_name() -> Seq<char> {
    "1.0"@
}

impl BankAccountEvent {
    /// The name of this event's kind, as the event log records it.
    pub fn event_type(&self) -> (r: String)
        ensures
            r@ == event_type_name(*self),
    {
        match self {
            BankAccountEvent::AccountOpened { .. } => "AccountOpened".to_string(),
            BankAccountEvent::CustomerDepositedMoney { .. } => "CustomerDepositedMoney".to_string(),
            BankAccountEvent::CustomerWithdrewCash { .. } => "CustomerWithdrewCash".to_string(),
            BankAccountEvent::CustomerWroteCheck { .. } => "CustomerWroteCheck".to_string(),
        }
    }

    /// The schema version of this event.
    pub fn event_version(&self) -> (r: String)
        ensures
            r@ == event_version_name(),
    {
        "1.0".to_string()
    }
}

/// The rejection of a command, with a message for whoever sent it.
#[derive(Debug, PartialEq)]
pub struct BankAccountError(pub String);

impl BankAccountError {
    /// A rejection that carries the given message.
    pub fn new(message: &str) -> (r: Self)
        ensures
            r.0@ == message@,
    {
        BankAccountError(message.to_string())
    }

    /// The message that explains the rejection.
    pub fn message(&self) -> (r: &str)
        ensures
            r@ == self.0@,
    {
        self.0.as_str()
    }

    /// The message, as an owned string.
    pub fn to_string(&self) -> (r: String)
        ensures
            r@ == self.0@,
    {
        self.0.clone()
    }
}

/// Converts a message into a rejection that carries that message.
impl From<&str> for BankAccountError {
    fn from(message: &str) -> (r: Self)
        ensures
            r.0@ == message@,
    {
        BankAccountError::new(message)
    }
}

impl vstd::std_specs::convert::FromSpecImpl<&str> for BankAccountError {
    open spec fn obeys_from_spec() -> bool {
        false
    }

    open spec fn from_spec(v: &str) -> Self {
        arbitrary()
    }
}

} // verus!
