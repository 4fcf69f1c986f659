//! An event-sourced bank account aggregate.
//!
//! Commands are validated against the current account state by
//! [`BankAccount::handle`], which proposes events without changing anything;
//! state changes only when an event is folded in through [`BankAccount::apply`].
//! Money is held as whole numbers of the currency's smallest unit.

pub mod aggregate;
pub mod commands;
pub mod events;
pub mod history;
pub mod services;

pub use aggregate::{BankAccount, AGGREGATE_TYPE};
pub use commands::BankAccountCommand;
pub use events::{BankAccountError, BankAccountEvent};
pub use services::BankAccountServices;
