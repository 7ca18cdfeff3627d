use zetachain_gateway::{
    handle_custom_action, handle_nft_mint, handle_token_transfer, on_call, AccountInfo, Config,
    ConfigAccount, CrossChainAction, CrossChainMessage, Dispatch, ErrorCode, Identity, OnCall,
    OnCallExecuted, OnCallOutcome,
};

fn id(n: u8) -> Identity {
    Identity::new([n; 32])
}

fn ctx() -> OnCall {
    OnCall {
        user: AccountInfo { key: id(1), lamports: 77 },
        config: ConfigAccount {
            key: id(10),
            lamports: 1_000,
            data: Config {
                gateway_program_id: id(11),
                zetachain_chain_id: 7001,
                owner: id(12),
                bump: 255,
            },
        },
        gateway_program: id(11),
    }
}

fn message(action: CrossChainAction) -> CrossChainMessage {
    CrossChainMessage {
        action,
        recipient: [42u8; 32],
        metadata_uri: Some(String::from("https://example.org/1.json")),
        token_id: Some(17),
        data: vec![1, 2, 3, 4],
    }
}

fn event(bytes: Vec<u8>, amount: u64) -> OnCallExecuted {
    OnCallExecuted {
        sender_chain_id: 7001,
        sender_address: vec![0xaa; 20],
        recipient: id(1),
        message: bytes,
        amount,
    }
}

#[test]
fn mint_message_reaches_the_mint_handler() {
    let bytes = message(CrossChainAction::MintNft).try_to_vec().unwrap();
    let r = on_call(&ctx(), 7001, vec![0xaa; 20], bytes.clone(), 5);
    assert_eq!(
        r,
        Ok(OnCallOutcome {
            dispatch: Dispatch::MintNft { recipient: [42u8; 32], amount: 5 },
            event: event(bytes, 5),
        })
    );
}

#[test]
fn transfer_message_reaches_the_transfer_handler() {
    let bytes = message(CrossChainAction::TransferToken).try_to_vec().unwrap();
    let r = on_call(&ctx(), 7001, vec![0xaa; 20], bytes.clone(), 0);
    assert_eq!(
        r,
        Ok(OnCallOutcome {
            dispatch: Dispatch::TransferToken { recipient: [42u8; 32], amount: 0 },
            event: event(bytes, 0),
        })
    );
}

#[test]
fn custom_message_reaches_the_custom_handler_with_its_payload() {
    let bytes = message(CrossChainAction::Custom).try_to_vec().unwrap();
    let r = on_call(&ctx(), 7001, vec![0xaa; 20], bytes.clone(), u64::MAX);
    assert_eq!(
        r,
        Ok(OnCallOutcome {
            dispatch: Dispatch::Custom { data: vec![1, 2, 3, 4], amount: u64::MAX },
            event: event(bytes, u64::MAX),
        })
    );
}

#[test]
fn call_from_another_network_is_rejected_first() {
    let bytes = message(CrossChainAction::Custom).try_to_vec().unwrap();
    assert_eq!(on_call(&ctx(), 7002, vec![], bytes, 5), Err(ErrorCode::InvalidChainId));
    assert_eq!(on_call(&ctx(), 7002, vec![], vec![], 5), Err(ErrorCode::InvalidChainId));
    assert_eq!(on_call(&ctx(), 7002, vec![], vec![9], 5), Err(ErrorCode::InvalidChainId));
}

#[test]
fn call_without_message_is_rejected() {
    assert_eq!(on_call(&ctx(), 7001, vec![1], vec![], 5), Err(ErrorCode::EmptyMessage));
}

#[test]
fn call_with_malformed_message_is_rejected() {
    let mut bytes = message(CrossChainAction::Custom).try_to_vec().unwrap();
    assert_eq!(on_call(&ctx(), 7001, vec![1], vec![9], 5), Err(ErrorCode::MessageDecodingFailed));
    bytes.push(0);
    assert_eq!(
        on_call(&ctx(), 7001, vec![1], bytes.clone(), 5),
        Err(ErrorCode::MessageDecodingFailed)
    );
    bytes.pop();
    bytes[0] = 3;
    assert_eq!(on_call(&ctx(), 7001, vec![1], bytes, 5), Err(ErrorCode::MessageDecodingFailed));
}

#[test]
fn handlers_name_the_work_they_stand_for() {
    let c = ctx();
    assert_eq!(
        handle_nft_mint(&c, message(CrossChainAction::MintNft), 3),
        Ok(Dispatch::MintNft { recipient: [42u8; 32], amount: 3 })
    );
    assert_eq!(
        handle_token_transfer(&c, message(CrossChainAction::TransferToken), 4),
        Ok(Dispatch::TransferToken { recipient: [42u8; 32], amount: 4 })
    );
    assert_eq!(
        handle_custom_action(&c, message(CrossChainAction::Custom), 5),
        Ok(Dispatch::Custom { data: vec![1, 2, 3, 4], amount: 5 })
    );
}
