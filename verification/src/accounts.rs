//! Snapshots of the accounts that an operation works on.
//!
//! An operation receives the accounts it touches as plain values: their
//! addresses, their balances and, for the configuration account, its record.
//! It changes the snapshot in memory; whoever holds the ledger writes the
//! changed balances back once the operation has succeeded.

use crate::config::Config;
use crate::identity::Identity;
use vstd::prelude::*;

verus! {

/// An account that takes part in an operation without authorizing it.
#[derive(Clone, Copy, Debug, PartialEq, Eq)]
pub struct AccountInfo {
    pub key: Identity,
    /// The native balance of the account.
    pub lamports: u64,
}

/// An account whose holder has authorized the operation. The ledger has
/// checked the authorization before the snapshot is made.
#[derive(Clone, Copy, Debug, PartialEq, Eq)]
pub struct Signer {
    pub key: Identity,
    /// The native balance of the account.
    pub lamports: u64,
}

/// The account that holds the configuration record. Its native balance is
/// the custody of deposited native funds.
#[derive(Clone, Copy, Debug, PartialEq, Eq)]
pub struct ConfigAccount {
    pub key: Identity,
    /// The native funds in custody.
    pub lamports: u64,
    pub data: Config,
}

/// An account that holds tokens of one kind for one owner.
#[derive(Clone, Copy, Debug, PartialEq, Eq)]
pub struct TokenAccount {
    pub key: Identity,
    /// The kind of token held.
    pub mint: Identity,
    /// The identity that may spend the tokens.
    pub owner: Identity,
    /// The number of tokens held.
    pub amount: u64,
}

/// Accounts for creating the configuration record at its canonical address.
#[derive(Clone, Copy, Debug, PartialEq, Eq)]
pub struct Initialize {
    /// The freshly created account that receives the record.
    pub config: ConfigAccount,
    pub payer: Signer,
    /// The byte found when the address of `config` was derived.
    pub bump: u8,
}

/// Accounts for creating a configuration record at an address derived from
/// a seed of the caller's choice, so that several records can live side by
/// side.
#[derive(Clone, Copy, Debug, PartialEq, Eq)]
pub struct InitializeWithSeed {
    /// The freshly created account that receives the record.
    pub config: ConfigAccount,
    /// The account whose address is the seed.
    pub seed: Identity,
    pub payer: Signer,
    /// The byte found when the address of `config` was derived.
    pub bump: u8,
}

/// Accounts for a deposit of native funds.
#[derive(Clone, Copy, Debug, PartialEq, Eq)]
pub struct DepositAndCall {
    /// The depositor.
    pub user: Signer,
    pub config: ConfigAccount,
    pub gateway_program: Identity,
}

/// Accounts for a deposit of tokens.
#[derive(Clone, Copy, Debug, PartialEq, Eq)]
pub struct DepositSplTokenAndCall {
    /// The depositor.
    pub user: Signer,
    pub config: ConfigAccount,
    /// The account that defines the kind of token.
    pub mint: Identity,
    /// The account that pays the tokens.
    pub source_token_account: TokenAccount,
    /// The account that holds the tokens of this kind in custody.
    pub custody_token_account: TokenAccount,
    pub gateway_program: Identity,
}

/// Accounts for a call that arrives from the remote network.
#[derive(Clone, Copy, Debug, PartialEq, Eq)]
pub struct OnCall {
    /// The account on whose behalf the call is made.
    pub user: AccountInfo,
    pub config: ConfigAccount,
    pub gateway_program: Identity,
}

/// Accounts for refunding a deposit whose remote leg failed.
#[derive(Clone, Copy, Debug, PartialEq, Eq)]
pub struct OnRevert {
    /// The original depositor, who receives the refund.
    pub user: AccountInfo,
    pub config: ConfigAccount,
}

/// Accounts for asking the remote network to release funds.
#[derive(Clone, Copy, Debug, PartialEq, Eq)]
pub struct WithdrawAndCall {
    pub user: Signer,
    pub config: ConfigAccount,
    pub gateway_program: Identity,
}

/// Accounts for replacing the gateway endpoint.
#[derive(Clone, Copy, Debug, PartialEq, Eq)]
pub struct AdminUpdateGateway {
    pub config: ConfigAccount,
    /// The identity that claims to own the record.
    pub owner: Signer,
}

/// Accounts for handing the record to a new owner. Both the present owner
/// and the new one authorize the same operation.
#[derive(Clone, Copy, Debug, PartialEq, Eq)]
pub struct SetOwner {
    pub config: ConfigAccount,
    /// The identity that claims to own the record now.
    pub current_owner: Signer,
    /// The identity that consents to own the record from now on.
    pub owner: Signer,
}

/// The accounts that the gateway needs for a deposit of native funds.
#[derive(Clone, Copy, Debug, PartialEq, Eq)]
pub struct DepositAndCallCpi {
    pub user: AccountInfo,
    pub config: AccountInfo,
}

/// The accounts that the gateway needs for a deposit of tokens.
#[derive(Clone, Copy, Debug, PartialEq, Eq)]
pub struct DepositSplTokenAndCallCpi {
    pub user: AccountInfo,
    pub config: AccountInfo,
    pub mint: AccountInfo,
    pub custody_token_account: AccountInfo,
}

/// The accounts that the gateway needs for a withdrawal.
#[derive(Clone, Copy, Debug, PartialEq, Eq)]
pub struct WithdrawAndCallCpi {
    pub user: AccountInfo,
    pub config: AccountInfo,
}

} // verus!
