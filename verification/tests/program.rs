use programs::{initialize, invoke_initialize, program_id, AccountHandle, Initialize, ValidationError};

#[test]
fn initialize_returns_success() {
    assert!(initialize(Initialize {}).is_ok());
}

#[test]
fn initialize_twice_succeeds_both_times() {
    let first = initialize(Initialize {});
    let second = initialize(Initialize {});
    assert!(first.is_ok());
    assert!(second.is_ok());
    assert_eq!(first, second);
}

#[test]
fn program_id_is_constant_across_calls() {
    assert_eq!(program_id(), program_id());
    assert_eq!(program_id(), "HSniT6AQXSahCPwQGM85A6Jjk4rGQRg7bVcovboB4Gav");
}

#[test]
fn empty_account_set_is_accepted() {
    let accounts: Vec<AccountHandle> = Vec::new();
    assert!(matches!(Initialize::try_accounts(&accounts), Ok(Initialize {})));
    assert_eq!(invoke_initialize(&accounts), Ok(()));
}

#[test]
fn unexpected_account_is_rejected() {
    let accounts = vec![AccountHandle { address: vec![7u8; 32] }];
    assert!(matches!(
        Initialize::try_accounts(&accounts),
        Err(ValidationError::UnexpectedAccount)
    ));
    assert_eq!(
        invoke_initialize(&accounts),
        Err(ValidationError::UnexpectedAccount)
    );
}

#[test]
fn two_unexpected_accounts_are_rejected() {
    let accounts = vec![
        AccountHandle { address: vec![1u8; 32] },
        AccountHandle { address: vec![2u8; 32] },
    ];
    assert_eq!(
        invoke_initialize(&accounts),
        Err(ValidationError::UnexpectedAccount)
    );
}
