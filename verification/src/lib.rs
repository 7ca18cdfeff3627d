//! Transactional core of a cross-chain asset bridge.
//!
//! The crate holds the bridge's rules as verified functions on plain values:
//! the configuration record and its owner-gated mutations, the deposit,
//! revert and withdrawal flows with their effect on the custody balance,
//! the wire format of cross-chain messages, and the inbound dispatcher.
//! Every operation works on an in-memory snapshot of the accounts it touches
//! and either applies all of its effects or leaves the snapshot untouched.

pub mod accounts;
pub mod codec;
pub mod config;
pub mod error;
pub mod events;
pub mod identity;
pub mod instructions;
pub mod ledger;
pub mod message;

pub use accounts::{
    AccountInfo, AdminUpdateGateway, ConfigAccount, DepositAndCall, DepositAndCallCpi,
    DepositSplTokenAndCall, DepositSplTokenAndCallCpi, Initialize, InitializeWithSeed, OnCall,
    OnRevert, SetOwner, Signer, TokenAccount, WithdrawAndCall, WithdrawAndCallCpi,
};
pub use config::{Config, CONFIG_LEN};
pub use error::{DepositError, ErrorCode, LedgerError};
pub use events::{
    DepositAndCallExecuted, DepositSplTokenAndCallExecuted, GatewayUpdated, OnCallExecuted,
    OnRevertExecuted, OwnerUpdated, ProgramInitialized, WithdrawAndCallExecuted,
};
pub use identity::Identity;
pub use instructions::{
    admin_update_gateway, decode_cross_chain_message, deposit_and_call,
    deposit_spl_token_and_call, handle_custom_action, handle_nft_mint, handle_token_transfer,
    initialize, initialize_with_seed, on_call, on_revert, set_owner, withdraw_and_call, Dispatch,
    OnCallOutcome,
};
pub use ledger::transfer;
pub use message::{CrossChainAction, CrossChainMessage};
