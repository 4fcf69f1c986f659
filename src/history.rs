//! Laws of command handling and of event histories: what deposits and
//! withdrawals yield, what replaying a history yields, and which histories
//! command handling produces.

use vstd::prelude::*;

use crate::aggregate::{
    AccountState,
    fits_balance,
    handled,
    initial_state,
    insufficient_funds_message,
    replayed,
};
use crate::commands::BankAccountCommand;
use crate::events::BankAccountEvent;

verus! {

/// A deposit of `amount` against any balance is accepted and yields exactly
/// one event, which carries the amount and the balance plus the amount.
pub proof fn lemma_deposit_accepted(s: AccountState, amount: i64)
    requires
        fits_balance(s, BankAccountCommand::DepositMoney { amount }),
    ensures
        handled(s, BankAccountCommand::DepositMoney { amount }) is Ok,
        handled(s, BankAccountCommand::DepositMoney { amount })->Ok_0.len() == 1,
        handled(s, BankAccountCommand::DepositMoney { amount })->Ok_0[0] == (
        BankAccountEvent::CustomerDepositedMoney { amount, balance: (s.balance + amount) as i64 }),
        carried_balance(handled(s, BankAccountCommand::DepositMoney { amount })->Ok_0[0])
            == s.balance + amount,
{
}

/// A withdrawal of `amount` is accepted exactly when the balance covers it;
/// then it yields exactly one event, which carries the amount and the balance
/// less the amount. Otherwise it is rejected as insufficient funds, with no
/// events.
pub proof fn lemma_withdrawal_outcome(s: AccountState, amount: i64)
    requires
        fits_balance(s, BankAccountCommand::WithdrawMoney { amount }),
    ensures
        handled(s, BankAccountCommand::WithdrawMoney { amount }) is Ok <==> s.balance - amount >= 0,
        s.balance - amount >= 0 ==> handled(s, BankAccountCommand::WithdrawMoney { amount })->Ok_0
            == seq![BankAccountEvent::CustomerWithdrewCash { amount, balance: (s.balance - amount) as i64 }],
        s.balance - amount >= 0 ==> carried_balance(
            handled(s, BankAccountCommand::WithdrawMoney { amount })->Ok_0[0],
        ) == s.balance - amount,
        s.balance - amount < 0 ==> handled(s, BankAccountCommand::WithdrawMoney { amount })
            == Err::<Seq<BankAccountEvent>, Seq<char>>(insufficient_funds_message()),
{
}

/// How much an event moves the balance: deposits add, withdrawals and checks
/// take away, opening moves nothing.
pub open spec fn signed_amount(e: BankAccountEvent) -> int {
    match e {
        BankAccountEvent::AccountOpened { .. } => 0,
        BankAccountEvent::CustomerDepositedMoney { amount, .. } => amount as int,
        BankAccountEvent::CustomerWithdrewCash { amount, .. } => -(amount as int),
        BankAccountEvent::CustomerWroteCheck { amount, .. } => -(amount as int),
    }
}

/// The sum of the signed amounts of `events`.
pub open spec fn running_total(events: Seq<BankAccountEvent>) -> int
    decreases events.len(),
{
    if events.len() == 0 {
        0
    } else {
        running_total(events.drop_last()) + signed_amount(events.last())
    }
}

/// The balance that a money movement carries.
pub open spec fn carried_balance(e: BankAccountEvent) -> int {
    match e {
        BankAccountEvent::AccountOpened { .. } => 0,
        BankAccountEvent::CustomerDepositedMoney { balance, .. } => balance as int,
        BankAccountEvent::CustomerWithdrewCash { balance, .. } => balance as int,
        BankAccountEvent::CustomerWroteCheck { balance, .. } => balance as int,
    }
}

/// Whether every money movement of `events` carries the sum of the signed
/// amounts up to and including itself.
pub open spec fn consistent_history(events: Seq<BankAccountEvent>) -> bool {
    forall|i: int|
        0 <= i < events.len() && !(#[trigger] events[i] is AccountOpened) ==> carried_balance(
            events[i],
        ) == running_total(events.take(i + 1))
}

/// Replaying a history in which every movement carries its running total,
/// from the initial state, gives the sum of the signed amounts as the balance.
pub proof fn lemma_replayed_balance_is_total(events: Seq<BankAccountEvent>)
    requires
        consistent_history(events),
    ensures
        replayed(initial_state(), events).balance == running_total(events),
    decreases events.len(),
{
    if events.len() > 0 {
        let prefix = events.drop_last();
        assert forall|i: int|
            0 <= i < prefix.len() && !(#[trigger] prefix[i] is AccountOpened) implies carried_balance(
                prefix[i],
            ) == running_total(prefix.take(i + 1)) by {
            assert(prefix[i] == events[i]);
            assert(prefix.take(i + 1) =~= events.take(i + 1));
        }
        lemma_replayed_balance_is_total(prefix);
        assert(events.take(events.len() as int) =~= events);
    }
}

/// Replaying `a` followed by `b` is replaying `b` from where `a` left off.
pub proof fn lemma_replayed_concat(s: AccountState, a: Seq<BankAccountEvent>, b: Seq<BankAccountEvent>)
    ensures
        replayed(s, a + b) == replayed(replayed(s, a), b),
    decreases b.len(),
{
    if b.len() == 0 {
        assert(a + b =~= a);
    } else {
        assert((a + b).drop_last() =~= a + b.drop_last());
        lemma_replayed_concat(s, a, b.drop_last());
    }
}

spec fn opens(events: Seq<BankAccountEvent>) -> bool
    decreases events.len(),
{
    if events.len() == 0 {
        false
    } else {
        opens(events.drop_last()) || events.last() is AccountOpened
    }
}

spec fn moves(events: Seq<BankAccountEvent>) -> bool
    decreases events.len(),
{
    if events.len() == 0 {
        false
    } else {
        moves(events.drop_last()) || !(events.last() is AccountOpened)
    }
}

spec fn last_balance(events: Seq<BankAccountEvent>) -> int
    decreases events.len(),
{
    if events.len() == 0 {
        0
    } else if events.last() is AccountOpened {
        last_balance(events.drop_last())
    } else {
        carried_balance(events.last())
    }
}

proof fn lemma_replayed_shape(s: AccountState, events: Seq<BankAccountEvent>)
    ensures
        replayed(s, events) == (AccountState {
            opened: s.opened || opens(events),
            balance: if moves(events) {
                last_balance(events)
            } else {
                s.balance
            },
        }),
    decreases events.len(),
{
    if events.len() > 0 {
        lemma_replayed_shape(s, events.drop_last());
    }
}

/// Replaying a history is idempotent: applying the same history again to the
/// state it produced, or replaying it twice in a row from the initial state,
/// gives that same state.
pub proof fn lemma_replay_twice(events: Seq<BankAccountEvent>)
    ensures
        replayed(replayed(initial_state(), events), events) == replayed(initial_state(), events),
        replayed(initial_state(), events + events) == replayed(initial_state(), events),
{
    let once = replayed(initial_state(), events);
    lemma_replayed_shape(initial_state(), events);
    lemma_replayed_shape(once, events);
    lemma_replayed_concat(initial_state(), events, events);
}

/// The events that handling a command accepts, appended to a history in which
/// every movement carries its running total, keep that property; so a history
/// built only by handling commands replays to the sum of its amounts.
pub proof fn lemma_handled_keeps_consistent(events: Seq<BankAccountEvent>, c: BankAccountCommand)
    requires
        consistent_history(events),
        fits_balance(replayed(initial_state(), events), c),
        handled(replayed(initial_state(), events), c) is Ok,
    ensures
        consistent_history(events + handled(replayed(initial_state(), events), c)->Ok_0),
{
    let added = handled(replayed(initial_state(), events), c)->Ok_0;
    let all = events + added;
    lemma_replayed_balance_is_total(events);
    if added.len() == 0 {
        assert(all =~= events);
    } else {
        assert(added.len() == 1);
        assert forall|i: int|
            0 <= i < all.len() && !(#[trigger] all[i] is AccountOpened) implies carried_balance(
                all[i],
            ) == running_total(all.take(i + 1)) by {
            if i < events.len() {
                assert(all[i] == events[i]);
                assert(all.take(i + 1) =~= events.take(i + 1));
            } else {
                assert(all.take(i + 1) =~= all);
                assert(all.drop_last() =~= events);
            }
        }
    }
}

} // verus!
