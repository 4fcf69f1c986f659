//! The bank account aggregate: validates commands against the current state
//! and rebuilds that state from its history of events.

use vstd::prelude::*;

use crate::commands::BankAccountCommand;
use crate::events::{BankAccountError, BankAccountEvent};
use crate::services::BankAccountServices;

verus! {

/// The name under which the event log files the events of bank accounts.
pub open spec fn aggregate_type_name() -> Seq<char> {
    "bank_account"@
}

/// The name under which the event log files the events of bank accounts.
pub const AGGREGATE_TYPE: &'static str = "bank_account";

/// An account as a mathematical value.
pub struct AccountState {
    pub opened: bool,
    pub balance: int,
}

/// The state before any event: not opened, nothing on it.
pub open spec fn initial_state() -> AccountState {
    AccountState { opened: false, balance: 0 }
}

/// The state once `e` has happened in state `s`. Opening sets the flag;
/// every money movement sets the balance it carries, as recorded.
pub open spec fn applied(s: AccountState, e: BankAccountEvent) -> AccountState {
    match e {
        BankAccountEvent::AccountOpened { .. } => AccountState { opened: true, balance: s.balance },
        BankAccountEvent::CustomerDepositedMoney { balance, .. } => AccountState {
            opened: s.opened,
            balance: balance as int,
        },
        BankAccountEvent::CustomerWithdrewCash { balance, .. } => AccountState {
            opened: s.opened,
            balance: balance as int,
        },
        BankAccountEvent::CustomerWroteCheck { balance, .. } => AccountState {
            opened: s.opened,
            balance: balance as int,
        },
    }
}

/// The state reached from `s` once every event of `events` has happened, in order.
pub open spec fn replayed(s: AccountState, events: Seq<BankAccountEvent>) -> AccountState
    decreases events.len(),
{
    if events.len() == 0 {
        s
    } else {
        applied(replayed(s, events.drop_last()), events.last())
    }
}

/// The message of the rejection of a withdrawal that the balance does not cover.
pub open spec fn insufficient_funds_message() -> Seq<char> {
    "Insufficient funds"@
}

/// Whether the balance that command `c` would lead to from `s` fits the
/// account's integer width.
pub open spec fn fits_balance(s: AccountState, c: BankAccountCommand) -> bool {
    match c {
        BankAccountCommand::DepositMoney { amount } => i64::MIN <= s.balance + amount <= i64::MAX,
        BankAccountCommand::WithdrawMoney { amount } => i64::MIN <= s.balance - amount <= i64::MAX,
        _ => true,
    }
}

/// What handling command `c` in state `s` yields: the events to record, or
/// the message of the rejection. Deposits always succeed; a withdrawal
/// succeeds exactly when it leaves the balance non-negative; opening an
/// account and writing a check record nothing.
pub open spec fn handled(s: AccountState, c: BankAccountCommand) -> Result<
    Seq<BankAccountEvent>,
    Seq<char>,
> {
    match c {
        BankAccountCommand::DepositMoney { amount } => Ok(
            seq![
                BankAccountEvent::CustomerDepositedMoney {
                    amount,
                    balance: (s.balance + amount) as i64,
                },
            ],
        ),
        BankAccountCommand::WithdrawMoney { amount } => if s.balance - amount < 0 {
            Err(insufficient_funds_message())
        } else {
            Ok(
                seq![
                    BankAccountEvent::CustomerWithdrewCash {
                        amount,
                        balance: (s.balance - amount) as i64,
                    },
                ],
            )
        },
        _ => Ok(Seq::empty()),
    }
}

/// A bank account, as rebuilt from its events.
pub struct BankAccount {
    opened: bool,
    balance: i64,
}

impl View for BankAccount {
    type V = AccountState;

    closed spec fn view(&self) -> AccountState {
        AccountState { opened: self.opened, balance: self.balance as int }
    }
}

impl BankAccount {
    /// An account before any event.
    pub fn new() -> (r: Self)
        ensures
            r@ == initial_state(),
    {
        BankAccount { opened: false, balance: 0 }
    }

    /// An account in the given state, as reached earlier by applying events
    /// and kept since, for instance in serialised form.
    pub fn restore(opened: bool, balance: i64) -> (r: Self)
        ensures
            r@ == (AccountState { opened, balance: balance as int }),
    {
        BankAccount { opened, balance }
    }

    /// The name under which the event log files this aggregate's events.
    pub fn aggregate_type() -> (r: String)
        ensures
            r@ == aggregate_type_name(),
    {
        proof {
            reveal_strlit("bank_account");
        }
        AGGREGATE_TYPE.to_string()
    }

    /// Whether the account has been opened.
    pub fn opened(&self) -> (r: bool)
        ensures
            r == self@.opened,
    {
        self.opened
    }

    /// The current balance.
    pub fn balance(&self) -> (r: i64)
        ensures
            r as int == self@.balance,
    {
        self.balance
    }

    /// Whether the balance that `command` would lead to fits the account's
    /// integer width, so that it may be handled.
    pub fn balance_fits(&self, command: &BankAccountCommand) -> (r: bool)
        ensures
            r == fits_balance(self@, *command),
    {
        match command {
            BankAccountCommand::DepositMoney { amount } => self.balance.checked_add(*amount).is_some(),
            BankAccountCommand::WithdrawMoney { amount } => self.balance.checked_sub(*amount).is_some(),
            _ => true,
        }
    }

    /// Decides what `command` would change, without changing anything: the
    /// events to record, or the rejection.
    pub fn handle(&self, command: BankAccountCommand, _services: &BankAccountServices) -> (r: Result<
        Vec<BankAccountEvent>,
        BankAccountError,
    >)
        requires
            fits_balance(self@, command),
        ensures
            match handled(self@, command) {
                Ok(events) => r is Ok && r->Ok_0@ == events,
                Err(message) => r is Err && r->Err_0.0@ == message,
            },
    {
        match command {
            BankAccountCommand::WithdrawMoney { amount } => {
                let balance = self.balance - amount;
                if balance < 0 {
                    return Err(BankAccountError::new("Insufficient funds"));
                }
                let mut events = Vec::new();
                events.push(BankAccountEvent::CustomerWithdrewCash { amount, balance });
                Ok(events)
            },
            BankAccountCommand::DepositMoney { amount } => {
                let balance = self.balance + amount;
                let mut events = Vec::new();
                events.push(BankAccountEvent::CustomerDepositedMoney { amount, balance });
                Ok(events)
            },
            _ => Ok(Vec::new()),
        }
    }

    /// Records that `event` has happened.
    pub fn apply(&mut self, event: BankAccountEvent)
        ensures
            final(self)@ == applied(old(self)@, event),
    {
        self.take_in(&event);
    }

    fn take_in(&mut self, event: &BankAccountEvent)
        ensures
            final(self)@ == applied(old(self)@, *event),
    {
        match event {
            BankAccountEvent::AccountOpened { .. } => {
                self.opened = true;
            },
            BankAccountEvent::CustomerDepositedMoney { balance, .. }
            | BankAccountEvent::CustomerWithdrewCash { balance, .. }
            | BankAccountEvent::CustomerWroteCheck { balance, .. } => {
                self.balance = *balance;
            },
        }
    }

    /// The account that the given history of events, in order, leads to.
    pub fn from_events(events: &[BankAccountEvent]) -> (r: Self)
        ensures
            r@ == replayed(initial_state(), events@),
    {
        let mut account = BankAccount::new();
        let mut i: usize = 0;
        while i < events.len()
            invariant
                i <= events@.len(),
                account@ == replayed(initial_state(), events@.take(i as int)),
            decreases events@.len() - i,
        {
            proof {
                assert(events@.take(i + 1).drop_last() =~= events@.take(i as int));
            }
            account.take_in(&events[i]);
            i = i + 1;
        }
        proof {
            assert(events@.take(i as int) =~= events@);
        }
        account
    }
}

impl Default for BankAccount {
    fn default() -> (r: Self)
        ensures
            r@ == initial_state(),
    {
        BankAccount::new()
    }
}

} // verus!
