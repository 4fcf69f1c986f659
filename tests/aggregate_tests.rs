use bank_account::{
    BankAccount, BankAccountCommand, BankAccountError, BankAccountEvent, BankAccountServices,
};

// Given some past events, when a command is handled, then some result is expected.
fn given_when(
    previous: Vec<BankAccountEvent>,
    command: BankAccountCommand,
) -> Result<Vec<BankAccountEvent>, BankAccountError> {
    let account = BankAccount::from_events(&previous);
    account.handle(command, &BankAccountServices)
}

#[test]
fn test_deposit_money() {
    let expected = BankAccountEvent::CustomerDepositedMoney {
        amount: 100,
        balance: 100,
    };
    let command = BankAccountCommand::DepositMoney { amount: 100 };
    assert_eq!(given_when(vec![], command), Ok(vec![expected]));
}

#[test]
fn test_deposit_money_with_balance() {
    let previous = BankAccountEvent::CustomerDepositedMoney {
        amount: 200,
        balance: 200,
    };
    let expected = BankAccountEvent::CustomerDepositedMoney {
        amount: 100,
        balance: 300,
    };
    let command = BankAccountCommand::DepositMoney { amount: 100 };
    assert_eq!(given_when(vec![previous], command), Ok(vec![expected]));
}

#[test]
fn test_withdraw_money() {
    let previous = BankAccountEvent::CustomerDepositedMoney {
        amount: 200,
        balance: 200,
    };
    let expected = BankAccountEvent::CustomerWithdrewCash {
        amount: 100,
        balance: 100,
    };
    let command = BankAccountCommand::WithdrawMoney { amount: 100 };
    assert_eq!(given_when(vec![previous], command), Ok(vec![expected]));
}

#[test]
fn test_withdraw_money_funds_not_available() {
    let result = given_when(vec![], BankAccountCommand::WithdrawMoney { amount: 200 });
    assert_eq!(result, Err("Insufficient funds".into()));
}

#[test]
fn withdraw_whole_balance_leaves_zero() {
    let previous = vec![BankAccountEvent::CustomerDepositedMoney {
        amount: 50,
        balance: 50,
    }];
    let result = given_when(previous, BankAccountCommand::WithdrawMoney { amount: 50 });
    assert_eq!(
        result,
        Ok(vec![BankAccountEvent::CustomerWithdrewCash {
            amount: 50,
            balance: 0
        }])
    );
}

#[test]
fn withdraw_one_over_balance_is_rejected() {
    let previous = vec![BankAccountEvent::CustomerDepositedMoney {
        amount: 50,
        balance: 50,
    }];
    let result = given_when(previous, BankAccountCommand::WithdrawMoney { amount: 51 });
    let error = result.unwrap_err();
    assert_eq!(error.message(), "Insufficient funds");
    assert_eq!(error.to_string(), "Insufficient funds".to_string());
}

#[test]
fn deposit_on_negative_balance_adds() {
    let previous = vec![BankAccountEvent::CustomerWroteCheck {
        check_number: "1170".to_string(),
        amount: 80,
        balance: -30,
    }];
    let result = given_when(previous, BankAccountCommand::DepositMoney { amount: 45 });
    assert_eq!(
        result,
        Ok(vec![BankAccountEvent::CustomerDepositedMoney {
            amount: 45,
            balance: 15
        }])
    );
}

#[test]
fn open_account_and_write_check_record_nothing() {
    let open = BankAccountCommand::OpenAccount {
        account_id: "ACCT-1".to_string(),
    };
    assert_eq!(given_when(vec![], open), Ok(vec![]));
    let check = BankAccountCommand::WriteCheck {
        check_number: "1170".to_string(),
        amount: 10,
    };
    assert_eq!(given_when(vec![], check), Ok(vec![]));
}

#[test]
fn handle_leaves_state_unchanged() {
    let account = BankAccount::from_events(&[BankAccountEvent::CustomerDepositedMoney {
        amount: 70,
        balance: 70,
    }]);
    let _ = account.handle(
        BankAccountCommand::DepositMoney { amount: 5 },
        &BankAccountServices,
    );
    assert_eq!(account.balance(), 70);
}

#[test]
fn error_from_message_keeps_it() {
    let error = BankAccountError::from("Account closed");
    assert_eq!(error.message(), "Account closed");
    assert_eq!(error.to_string(), "Account closed".to_string());
    assert_eq!(error, BankAccountError::new("Account closed"));
}
