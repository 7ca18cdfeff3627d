//! The facts that operations record for observers outside the ledger.
//!
//! A successful operation returns exactly one fact, after its effects are
//! applied. A failed operation returns none.

use crate::identity::Identity;
use vstd::prelude::*;

verus! {

#[derive(Clone, Copy, Debug, PartialEq, Eq)]
pub struct ProgramInitialized {
    pub gateway_program_id: Identity,
    pub zetachain_chain_id: u64,
    pub owner: Identity,
}

/// Native funds are in custody and a relay to the remote network is owed.
#[derive(Clone, Debug, PartialEq, Eq)]
pub struct DepositAndCallExecuted {
    pub user: Identity,
    pub recipient_chain_id: u64,
    pub recipient_address: [u8; 20],
    pub amount: u64,
    pub message: Vec<u8>,
}

/// Tokens are in custody and a relay to the remote network is owed.
#[derive(Clone, Debug, PartialEq, Eq)]
pub struct DepositSplTokenAndCallExecuted {
    pub user: Identity,
    pub mint: Identity,
    pub recipient_chain_id: u64,
    pub recipient_address: [u8; 20],
    pub amount: u64,
    pub message: Vec<u8>,
}

#[derive(Clone, Debug, PartialEq, Eq)]
pub struct OnCallExecuted {
    pub sender_chain_id: u64,
    pub sender_address: Vec<u8>,
    pub recipient: Identity,
    pub message: Vec<u8>,
    pub amount: u64,
}

#[derive(Clone, Debug, PartialEq, Eq)]
pub struct OnRevertExecuted {
    pub source_chain_id: u64,
    pub source_address: Vec<u8>,
    pub recipient: Identity,
    pub message: Vec<u8>,
    pub amount: u64,
}

#[derive(Clone, Debug, PartialEq, Eq)]
pub struct WithdrawAndCallExecuted {
    pub user: Identity,
    pub recipient: Identity,
    pub amount: u64,
    pub message: Vec<u8>,
}

#[derive(Clone, Copy, Debug, PartialEq, Eq)]
pub struct GatewayUpdated {
    pub old_gateway: Identity,
    pub new_gateway: Identity,
    pub updated_by: Identity,
}

#[derive(Clone, Copy, Debug, PartialEq, Eq)]
pub struct OwnerUpdated {
    pub old_owner: Identity,
    pub new_owner: Identity,
    pub updated_by: Identity,
}

} // verus!
