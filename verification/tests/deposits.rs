use zetachain_gateway::{
    deposit_and_call, deposit_spl_token_and_call, transfer, Config, ConfigAccount, DepositAndCall,
    DepositAndCallExecuted, DepositError, DepositSplTokenAndCall, DepositSplTokenAndCallExecuted,
    ErrorCode, Identity, LedgerError, Signer, TokenAccount,
};

fn id(n: u8) -> Identity {
    Identity::new([n; 32])
}

fn config_account(custody: u64) -> ConfigAccount {
    ConfigAccount {
        key: id(10),
        lamports: custody,
        data: Config { gateway_program_id: id(11), zetachain_chain_id: 7001, owner: id(12), bump: 254 },
    }
}

fn native(user: u64, custody: u64) -> DepositAndCall {
    DepositAndCall {
        user: Signer { key: id(1), lamports: user },
        config: config_account(custody),
        gateway_program: id(11),
    }
}

fn tokens(source: u64, custody: u64) -> DepositSplTokenAndCall {
    DepositSplTokenAndCall {
        user: Signer { key: id(1), lamports: 50 },
        config: config_account(0),
        mint: id(20),
        source_token_account: TokenAccount { key: id(21), mint: id(20), owner: id(1), amount: source },
        custody_token_account: TokenAccount {
            key: id(22),
            mint: id(20),
            owner: id(10),
            amount: custody,
        },
        gateway_program: id(11),
    }
}

#[test]
fn deposit_moves_the_amount_into_custody() {
    let mut ctx = native(5_000, 300);
    let r = deposit_and_call(&mut ctx, 7001, [3u8; 20], 1_000, vec![b'x']);
    assert_eq!(
        r,
        Ok(DepositAndCallExecuted {
            user: id(1),
            recipient_chain_id: 7001,
            recipient_address: [3u8; 20],
            amount: 1_000,
            message: vec![b'x'],
        })
    );
    let mut expected = native(4_000, 1_300);
    assert_eq!(ctx, expected);
    expected.config.lamports = 0;
    assert_ne!(ctx, expected);
}

#[test]
fn deposit_of_zero_is_an_invalid_amount() {
    for message in [vec![], vec![1u8]] {
        for chain in [7001u64, 1] {
            let mut ctx = native(5_000, 300);
            let r = deposit_and_call(&mut ctx, chain, [0u8; 20], 0, message.clone());
            assert_eq!(r, Err(DepositError::Rejected(ErrorCode::InvalidAmount)));
            assert_eq!(ctx, native(5_000, 300));
        }
    }
}

#[test]
fn deposit_without_message_is_rejected() {
    let mut ctx = native(5_000, 300);
    let r = deposit_and_call(&mut ctx, 1, [0u8; 20], 10, vec![]);
    assert_eq!(r, Err(DepositError::Rejected(ErrorCode::EmptyMessage)));
    assert_eq!(ctx, native(5_000, 300));
}

#[test]
fn deposit_to_another_network_is_rejected() {
    for chain in [0u64, 7000, 7002, u64::MAX] {
        let mut ctx = native(5_000, 300);
        let r = deposit_and_call(&mut ctx, chain, [0u8; 20], 10, vec![1, 2, 3]);
        assert_eq!(r, Err(DepositError::Rejected(ErrorCode::InvalidChainId)));
        assert_eq!(ctx, native(5_000, 300));
    }
}

#[test]
fn deposit_beyond_the_balance_moves_nothing() {
    let mut ctx = native(999, 300);
    let r = deposit_and_call(&mut ctx, 7001, [0u8; 20], 1_000, vec![1]);
    assert_eq!(r, Err(DepositError::Ledger(LedgerError::InsufficientFunds)));
    assert_eq!(ctx, native(999, 300));
}

#[test]
fn deposit_of_the_whole_balance_succeeds() {
    let mut ctx = native(1_000, 0);
    let r = deposit_and_call(&mut ctx, 7001, [0u8; 20], 1_000, vec![1]);
    assert!(r.is_ok());
    assert_eq!(ctx, native(0, 1_000));
}

#[test]
fn deposit_that_overflows_custody_moves_nothing() {
    let mut ctx = native(10, u64::MAX - 5);
    let r = deposit_and_call(&mut ctx, 7001, [0u8; 20], 6, vec![1]);
    assert_eq!(r, Err(DepositError::Ledger(LedgerError::BalanceOverflow)));
    assert_eq!(ctx, native(10, u64::MAX - 5));
    let r = deposit_and_call(&mut ctx, 7001, [0u8; 20], 5, vec![1]);
    assert!(r.is_ok());
    assert_eq!(ctx, native(5, u64::MAX));
}

#[test]
fn token_deposit_moves_the_amount_into_custody() {
    let mut ctx = tokens(800, 40);
    let r = deposit_spl_token_and_call(&mut ctx, id(20), 7001, [9u8; 20], 300, vec![1, 2]);
    assert_eq!(
        r,
        Ok(DepositSplTokenAndCallExecuted {
            user: id(1),
            mint: id(20),
            recipient_chain_id: 7001,
            recipient_address: [9u8; 20],
            amount: 300,
            message: vec![1, 2],
        })
    );
    assert_eq!(ctx, tokens(500, 340));
}

#[test]
fn token_deposit_checks_amount_message_and_network_first() {
    let mut ctx = tokens(800, 40);
    ctx.mint = id(99);
    ctx.source_token_account.owner = id(98);
    let before = ctx;
    let r = deposit_spl_token_and_call(&mut ctx, id(20), 1, [0u8; 20], 0, vec![]);
    assert_eq!(r, Err(DepositError::Rejected(ErrorCode::InvalidAmount)));
    let r = deposit_spl_token_and_call(&mut ctx, id(20), 1, [0u8; 20], 1, vec![]);
    assert_eq!(r, Err(DepositError::Rejected(ErrorCode::EmptyMessage)));
    let r = deposit_spl_token_and_call(&mut ctx, id(20), 1, [0u8; 20], 1, vec![1]);
    assert_eq!(r, Err(DepositError::Rejected(ErrorCode::InvalidChainId)));
    let r = deposit_spl_token_and_call(&mut ctx, id(20), 7001, [0u8; 20], 1, vec![1]);
    assert_eq!(r, Err(DepositError::Rejected(ErrorCode::InvalidMint)));
    assert_eq!(ctx, before);
}

#[test]
fn token_deposit_with_another_mint_is_rejected() {
    let mut ctx = tokens(800, 40);
    let r = deposit_spl_token_and_call(&mut ctx, id(23), 7001, [0u8; 20], 1, vec![1]);
    assert_eq!(r, Err(DepositError::Rejected(ErrorCode::InvalidMint)));
    assert_eq!(ctx, tokens(800, 40));

    let mut ctx = tokens(800, 40);
    ctx.source_token_account.mint = id(23);
    let before = ctx;
    let r = deposit_spl_token_and_call(&mut ctx, id(20), 7001, [0u8; 20], 1, vec![1]);
    assert_eq!(r, Err(DepositError::Rejected(ErrorCode::InvalidMint)));
    assert_eq!(ctx, before);

    let mut ctx = tokens(800, 40);
    ctx.custody_token_account.mint = id(23);
    let before = ctx;
    let r = deposit_spl_token_and_call(&mut ctx, id(20), 7001, [0u8; 20], 1, vec![1]);
    assert_eq!(r, Err(DepositError::Rejected(ErrorCode::InvalidMint)));
    assert_eq!(ctx, before);
}

#[test]
fn token_deposit_from_another_owner_is_unauthorized() {
    let mut ctx = tokens(800, 40);
    ctx.source_token_account.owner = id(2);
    let before = ctx;
    let r = deposit_spl_token_and_call(&mut ctx, id(20), 7001, [0u8; 20], 1, vec![1]);
    assert_eq!(r, Err(DepositError::Rejected(ErrorCode::Unauthorized)));
    assert_eq!(ctx, before);
}

#[test]
fn token_deposit_beyond_the_balance_moves_nothing() {
    let mut ctx = tokens(800, 40);
    let r = deposit_spl_token_and_call(&mut ctx, id(20), 7001, [0u8; 20], 801, vec![1]);
    assert_eq!(r, Err(DepositError::Ledger(LedgerError::InsufficientFunds)));
    assert_eq!(ctx, tokens(800, 40));
    let mut ctx = tokens(800, u64::MAX);
    let r = deposit_spl_token_and_call(&mut ctx, id(20), 7001, [0u8; 20], 1, vec![1]);
    assert_eq!(r, Err(DepositError::Ledger(LedgerError::BalanceOverflow)));
    assert_eq!(ctx, tokens(800, u64::MAX));
}

#[test]
fn transfer_moves_or_leaves_both_balances() {
    let mut from = 10u64;
    let mut to = 1u64;
    assert_eq!(transfer(&mut from, &mut to, 4), Ok(()));
    assert_eq!((from, to), (6, 5));
    assert_eq!(transfer(&mut from, &mut to, 7), Err(LedgerError::InsufficientFunds));
    assert_eq!((from, to), (6, 5));
    assert_eq!(transfer(&mut from, &mut to, 0), Ok(()));
    assert_eq!((from, to), (6, 5));
    let mut full = u64::MAX;
    assert_eq!(transfer(&mut from, &mut full, 1), Err(LedgerError::BalanceOverflow));
    assert_eq!((from, full), (6, u64::MAX));
}
