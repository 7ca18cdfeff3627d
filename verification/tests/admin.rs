use zetachain_gateway::{
    admin_update_gateway, initialize, initialize_with_seed, set_owner, AdminUpdateGateway, Config,
    ConfigAccount, ErrorCode, GatewayUpdated, Identity, Initialize, InitializeWithSeed,
    OwnerUpdated, ProgramInitialized, SetOwner, Signer, CONFIG_LEN,
};

fn id(n: u8) -> Identity {
    Identity::new([n; 32])
}

fn record() -> Config {
    Config { gateway_program_id: id(11), zetachain_chain_id: 7001, owner: id(12), bump: 254 }
}

fn config_account() -> ConfigAccount {
    ConfigAccount { key: id(10), lamports: 123, data: record() }
}

fn blank() -> ConfigAccount {
    ConfigAccount {
        key: id(10),
        lamports: 123,
        data: Config { gateway_program_id: id(0), zetachain_chain_id: 0, owner: id(0), bump: 0 },
    }
}

#[test]
fn initialize_fills_the_record() {
    let mut ctx = Initialize { config: blank(), payer: Signer { key: id(1), lamports: 9 }, bump: 254 };
    let r = initialize(&mut ctx, id(11), 7001, id(12));
    assert_eq!(
        r,
        Ok(ProgramInitialized { gateway_program_id: id(11), zetachain_chain_id: 7001, owner: id(12) })
    );
    assert_eq!(
        ctx,
        Initialize { config: config_account(), payer: Signer { key: id(1), lamports: 9 }, bump: 254 }
    );
}

#[test]
fn initialize_with_seed_fills_the_record() {
    let mut ctx = InitializeWithSeed {
        config: blank(),
        seed: id(77),
        payer: Signer { key: id(1), lamports: 9 },
        bump: 254,
    };
    let r = initialize_with_seed(&mut ctx, id(11), 7001, id(12));
    assert_eq!(
        r,
        Ok(ProgramInitialized { gateway_program_id: id(11), zetachain_chain_id: 7001, owner: id(12) })
    );
    assert_eq!(
        ctx,
        InitializeWithSeed {
            config: config_account(),
            seed: id(77),
            payer: Signer { key: id(1), lamports: 9 },
            bump: 254,
        }
    );
}

#[test]
fn owner_replaces_the_gateway() {
    let mut ctx =
        AdminUpdateGateway { config: config_account(), owner: Signer { key: id(12), lamports: 1 } };
    let r = admin_update_gateway(&mut ctx, id(33));
    assert_eq!(
        r,
        Ok(GatewayUpdated { old_gateway: id(11), new_gateway: id(33), updated_by: id(12) })
    );
    assert_eq!(ctx.config.data, Config { gateway_program_id: id(33), ..record() });
    assert_eq!(ctx.config.lamports, 123);
    assert_eq!(ctx.config.key, id(10));
}

#[test]
fn stranger_cannot_replace_the_gateway() {
    let mut ctx =
        AdminUpdateGateway { config: config_account(), owner: Signer { key: id(13), lamports: 1 } };
    let r = admin_update_gateway(&mut ctx, id(33));
    assert_eq!(r, Err(ErrorCode::Unauthorized));
    assert_eq!(ctx.config.data.gateway_program_id, id(11));
    assert_eq!(ctx.config, config_account());
}

#[test]
fn identity_that_differs_in_one_byte_is_a_stranger() {
    let mut bytes = [12u8; 32];
    bytes[31] = 13;
    let mut ctx = AdminUpdateGateway {
        config: config_account(),
        owner: Signer { key: Identity::new(bytes), lamports: 1 },
    };
    assert_eq!(admin_update_gateway(&mut ctx, id(33)), Err(ErrorCode::Unauthorized));
    assert_eq!(ctx.config, config_account());
}

#[test]
fn both_owners_hand_the_record_over() {
    let mut ctx = SetOwner {
        config: config_account(),
        current_owner: Signer { key: id(12), lamports: 1 },
        owner: Signer { key: id(50), lamports: 2 },
    };
    let r = set_owner(&mut ctx, id(50));
    assert_eq!(r, Ok(OwnerUpdated { old_owner: id(12), new_owner: id(50), updated_by: id(12) }));
    assert_eq!(ctx.config.data, Config { owner: id(50), ..record() });

    let mut next = AdminUpdateGateway { config: ctx.config, owner: Signer { key: id(12), lamports: 1 } };
    assert_eq!(admin_update_gateway(&mut next, id(33)), Err(ErrorCode::Unauthorized));
    let mut next = AdminUpdateGateway { config: ctx.config, owner: Signer { key: id(50), lamports: 1 } };
    assert!(admin_update_gateway(&mut next, id(33)).is_ok());
}

#[test]
fn owner_change_needs_the_present_owner() {
    let mut ctx = SetOwner {
        config: config_account(),
        current_owner: Signer { key: id(50), lamports: 1 },
        owner: Signer { key: id(50), lamports: 2 },
    };
    assert_eq!(set_owner(&mut ctx, id(50)), Err(ErrorCode::Unauthorized));
    assert_eq!(ctx.config, config_account());
}

#[test]
fn owner_change_needs_the_consent_of_the_new_owner() {
    let mut ctx = SetOwner {
        config: config_account(),
        current_owner: Signer { key: id(12), lamports: 1 },
        owner: Signer { key: id(12), lamports: 2 },
    };
    assert_eq!(set_owner(&mut ctx, id(50)), Err(ErrorCode::Unauthorized));
    assert_eq!(ctx.config, config_account());
}

#[test]
fn record_is_stored_in_seventy_three_bytes() {
    let config = Config {
        gateway_program_id: id(0xaa),
        zetachain_chain_id: 0x0102_0304_0506_0708,
        owner: id(0xbb),
        bump: 0xcc,
    };
    let mut expected: Vec<u8> = vec![0xaa; 32];
    expected.extend_from_slice(&[8, 7, 6, 5, 4, 3, 2, 1]);
    expected.extend_from_slice(&[0xbb; 32]);
    expected.push(0xcc);
    assert_eq!(CONFIG_LEN, 73);
    assert_eq!(config.to_bytes(), expected);
    assert_eq!(Config::from_bytes(&expected), Some(config));
    assert_eq!(
        config.to_bytes(),
        borsh::to_vec(&([0xaau8; 32], 0x0102_0304_0506_0708u64, [0xbbu8; 32], 0xccu8)).unwrap()
    );
}

#[test]
fn record_of_another_length_is_not_read() {
    let bytes = record().to_bytes();
    assert_eq!(Config::from_bytes(&bytes[..72]), None);
    assert_eq!(Config::from_bytes(&[]), None);
    let mut longer = bytes.clone();
    longer.push(0);
    assert_eq!(Config::from_bytes(&longer), None);
    assert_eq!(Config::from_bytes(&bytes), Some(record()));
}

#[test]
fn error_messages_name_the_failure() {
    assert_eq!(ErrorCode::InvalidAmount.message(), "Invalid amount provided");
    assert_eq!(ErrorCode::EmptyMessage.message(), "Message cannot be empty");
    assert_eq!(ErrorCode::InvalidChainId.message(), "Invalid chain ID");
    assert_eq!(ErrorCode::InvalidMint.message(), "Invalid mint address");
    assert_eq!(ErrorCode::Unauthorized.message(), "Unauthorized access");
    assert_eq!(
        ErrorCode::MessageDecodingFailed.message(),
        "Failed to decode cross-chain message"
    );
}

#[test]
fn identities_are_equal_when_all_bytes_agree() {
    let mut bytes = [0u8; 32];
    for i in 0..32 {
        bytes[i] = i as u8;
    }
    let a = Identity::new(bytes);
    assert_eq!(a, Identity::new(bytes));
    assert_eq!(a.to_bytes(), bytes);
    for i in 0..32 {
        let mut other = bytes;
        other[i] ^= 1;
        assert_ne!(a, Identity::new(other));
    }
}
