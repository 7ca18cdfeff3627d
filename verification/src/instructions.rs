//! The operations of the bridge.
//!
//! Each operation checks every rule before it changes anything. Where a rule
//! is broken it returns the first broken rule, in the order in which the
//! rules are listed with the operation, and leaves the accounts as they were.
//! Where all rules hold it applies its whole effect and returns the fact to
//! record.

use crate::accounts::{
    AdminUpdateGateway, ConfigAccount, DepositAndCall, DepositSplTokenAndCall, Initialize,
    InitializeWithSeed, OnCall, OnRevert, SetOwner, TokenAccount, WithdrawAndCall,
};
use crate::config::Config;
use crate::error::{DepositError, ErrorCode};
use crate::events::{
    DepositAndCallExecuted, DepositSplTokenAndCallExecuted, GatewayUpdated, OnCallExecuted,
    OnRevertExecuted, OwnerUpdated, ProgramInitialized, WithdrawAndCallExecuted,
};
use crate::identity::Identity;
use crate::ledger::{transfer, transfer_refusal, Operation};
use crate::message::{decoding, CrossChainAction, CrossChainMessage, MessageView};
use vstd::prelude::*;

verus! {

/// Fills a fresh configuration record.
///
/// Always succeeds: that no record exists yet at the address is settled when
/// the account is created, before the snapshot is made.
pub fn initialize(
    ctx: &mut Initialize,
    gateway_program_id: Identity,
    zetachain_chain_id: u64,
    owner: Identity,
) -> (r: Result<ProgramInitialized, ErrorCode>)
    ensures
        r == Ok::<ProgramInitialized, ErrorCode>(
            ProgramInitialized { gateway_program_id, zetachain_chain_id, owner },
        ),
        final(ctx).config.data == (Config {
            gateway_program_id,
            zetachain_chain_id,
            owner,
            bump: old(ctx).bump,
        }),
        final(ctx).config.key == old(ctx).config.key,
        final(ctx).config.lamports == old(ctx).config.lamports,
        final(ctx).payer == old(ctx).payer,
        final(ctx).bump == old(ctx).bump,
{
    ctx.config.data.gateway_program_id = gateway_program_id;
    ctx.config.data.zetachain_chain_id = zetachain_chain_id;
    ctx.config.data.owner = owner;
    ctx.config.data.bump = ctx.bump;
    Ok(ProgramInitialized { gateway_program_id, zetachain_chain_id, owner })
}

/// Fills a fresh configuration record whose address was derived from a seed
/// of the caller's choice. Always succeeds, as [`initialize`] does.
pub fn initialize_with_seed(
    ctx: &mut InitializeWithSeed,
    gateway_program_id: Identity,
    zetachain_chain_id: u64,
    owner: Identity,
) -> (r: Result<ProgramInitialized, ErrorCode>)
    ensures
        r == Ok::<ProgramInitialized, ErrorCode>(
            ProgramInitialized { gateway_program_id, zetachain_chain_id, owner },
        ),
        final(ctx).config.data == (Config {
            gateway_program_id,
            zetachain_chain_id,
            owner,
            bump: old(ctx).bump,
        }),
        final(ctx).config.key == old(ctx).config.key,
        final(ctx).config.lamports == old(ctx).config.lamports,
        final(ctx).seed == old(ctx).seed,
        final(ctx).payer == old(ctx).payer,
        final(ctx).bump == old(ctx).bump,
{
    ctx.config.data.gateway_program_id = gateway_program_id;
    ctx.config.data.zetachain_chain_id = zetachain_chain_id;
    ctx.config.data.owner = owner;
    ctx.config.data.bump = ctx.bump;
    Ok(ProgramInitialized { gateway_program_id, zetachain_chain_id, owner })
}

/// The first rule that a deposit request breaks, if it breaks one: the
/// amount is positive, the message has bytes, and the network is the one in
/// the configuration.
pub open spec fn deposit_rejection(
    config: Config,
    recipient_chain_id: u64,
    amount: u64,
    message: Seq<u8>,
) -> Option<ErrorCode> {
    if amount == 0 {
        Some(ErrorCode::InvalidAmount)
    } else if message.len() == 0 {
        Some(ErrorCode::EmptyMessage)
    } else if recipient_chain_id != config.zetachain_chain_id {
        Some(ErrorCode::InvalidChainId)
    } else {
        None
    }
}

/// Why a deposit of native funds fails, if it fails: the first broken rule,
/// or else the refusal of the ledger.
pub open spec fn deposit_failure(
    ctx: DepositAndCall,
    recipient_chain_id: u64,
    amount: u64,
    message: Seq<u8>,
) -> Option<DepositError> {
    match deposit_rejection(ctx.config.data, recipient_chain_id, amount, message) {
        Some(code) => Some(DepositError::Rejected(code)),
        None => match transfer_refusal(ctx.user.lamports, ctx.config.lamports, amount) {
            Some(e) => Some(DepositError::Ledger(e)),
            None => None,
        },
    }
}

fn check_deposit(config: &Config, recipient_chain_id: u64, amount: u64, message: &Vec<u8>) -> (r:
    Option<ErrorCode>)
    ensures
        r == deposit_rejection(*config, recipient_chain_id, amount, message@),
{
    if amount == 0 {
        Some(ErrorCode::InvalidAmount)
    } else if message.len() == 0 {
        Some(ErrorCode::EmptyMessage)
    } else if recipient_chain_id != config.zetachain_chain_id {
        Some(ErrorCode::InvalidChainId)
    } else {
        None
    }
}

/// Deposits native funds: moves exactly `amount` from the depositor into
/// custody and returns the fact that a relay is owed.
///
/// Fails, with nothing moved, exactly where [`deposit_failure`] says so.
pub fn deposit_and_call(
    ctx: &mut DepositAndCall,
    recipient_chain_id: u64,
    recipient_address: [u8; 20],
    amount: u64,
    message: Vec<u8>,
) -> (r: Result<DepositAndCallExecuted, DepositError>)
    ensures
        match r {
            Ok(event) => {
                &&& deposit_failure(*old(ctx), recipient_chain_id, amount, message@) is None
                &&& final(ctx).config.lamports == (Operation::Deposit {
                    amount: amount as nat,
                }).custody_after(old(ctx).config.lamports as int)
                &&& final(ctx).user.lamports == (Operation::Deposit {
                    amount: amount as nat,
                }).user_after(old(ctx).user.lamports as int)
                &&& final(ctx).user.key == old(ctx).user.key
                &&& final(ctx).config.key == old(ctx).config.key
                &&& final(ctx).config.data == old(ctx).config.data
                &&& final(ctx).gateway_program == old(ctx).gateway_program
                &&& event.user == old(ctx).user.key
                &&& event.recipient_chain_id == recipient_chain_id
                &&& event.recipient_address == recipient_address
                &&& event.amount == amount
                &&& event.message@ == message@
            },
            Err(e) => {
                &&& deposit_failure(*old(ctx), recipient_chain_id, amount, message@) == Some(e)
                &&& *final(ctx) == *old(ctx)
            },
        },
{
    match check_deposit(&ctx.config.data, recipient_chain_id, amount, &message) {
        Some(code) => {
            return Err(DepositError::Rejected(code));
        },
        None => {},
    }
    match transfer(&mut ctx.user.lamports, &mut ctx.config.lamports, amount) {
        Err(e) => {
            return Err(DepositError::Ledger(e));
        },
        Ok(()) => {},
    }
    Ok(
        DepositAndCallExecuted {
            user: ctx.user.key,
            recipient_chain_id,
            recipient_address,
            amount,
            message,
        },
    )
}

/// Why a deposit of tokens fails, if it fails: the first broken rule among
/// those of every deposit, then that the token kind named in the request is
/// the one of the mint account and of both token accounts, then that the
/// depositor owns the paying account; or else the refusal of the ledger.
pub open spec fn token_deposit_failure(
    ctx: DepositSplTokenAndCall,
    mint: Identity,
    recipient_chain_id: u64,
    amount: u64,
    message: Seq<u8>,
) -> Option<DepositError> {
    match deposit_rejection(ctx.config.data, recipient_chain_id, amount, message) {
        Some(code) => Some(DepositError::Rejected(code)),
        None => if ctx.mint != mint || ctx.source_token_account.mint != mint
            || ctx.custody_token_account.mint != mint {
            Some(DepositError::Rejected(ErrorCode::InvalidMint))
        } else if ctx.source_token_account.owner != ctx.user.key {
            Some(DepositError::Rejected(ErrorCode::Unauthorized))
        } else {
            match transfer_refusal(
                ctx.source_token_account.amount,
                ctx.custody_token_account.amount,
                amount,
            ) {
                Some(e) => Some(DepositError::Ledger(e)),
                None => None,
            }
        },
    }
}

/// Deposits tokens: moves exactly `amount` from the depositor's token
/// account into the custody account of that token kind and returns the fact
/// that a relay is owed.
///
/// Fails, with nothing moved, exactly where [`token_deposit_failure`] says so.
pub fn deposit_spl_token_and_call(
    ctx: &mut DepositSplTokenAndCall,
    mint: Identity,
    recipient_chain_id: u64,
    recipient_address: [u8; 20],
    amount: u64,
    message: Vec<u8>,
) -> (r: Result<DepositSplTokenAndCallExecuted, DepositError>)
    ensures
        match r {
            Ok(event) => {
                &&& token_deposit_failure(*old(ctx), mint, recipient_chain_id, amount, message@)
                    is None
                &&& final(ctx).custody_token_account.amount == (Operation::Deposit {
                    amount: amount as nat,
                }).custody_after(old(ctx).custody_token_account.amount as int)
                &&& final(ctx).source_token_account.amount == (Operation::Deposit {
                    amount: amount as nat,
                }).user_after(old(ctx).source_token_account.amount as int)
                &&& *final(ctx) == (DepositSplTokenAndCall {
                    source_token_account: TokenAccount {
                        amount: final(ctx).source_token_account.amount,
                        ..old(ctx).source_token_account
                    },
                    custody_token_account: TokenAccount {
                        amount: final(ctx).custody_token_account.amount,
                        ..old(ctx).custody_token_account
                    },
                    ..*old(ctx)
                })
                &&& event.user == old(ctx).user.key
                &&& event.mint == mint
                &&& event.recipient_chain_id == recipient_chain_id
                &&& event.recipient_address == recipient_address
                &&& event.amount == amount
                &&& event.message@ == message@
            },
            Err(e) => {
                &&& token_deposit_failure(*old(ctx), mint, recipient_chain_id, amount, message@)
                    == Some(e)
                &&& *final(ctx) == *old(ctx)
            },
        },
{
    match check_deposit(&ctx.config.data, recipient_chain_id, amount, &message) {
        Some(code) => {
            return Err(DepositError::Rejected(code));
        },
        None => {},
    }
    if ctx.mint != mint || ctx.source_token_account.mint != mint || ctx.custody_token_account.mint
        != mint {
        return Err(DepositError::Rejected(ErrorCode::InvalidMint));
    }
    if ctx.source_token_account.owner != ctx.user.key {
        return Err(DepositError::Rejected(ErrorCode::Unauthorized));
    }
    match transfer(
        &mut ctx.source_token_account.amount,
        &mut ctx.custody_token_account.amount,
        amount,
    ) {
        Err(e) => {
            return Err(DepositError::Ledger(e));
        },
        Ok(()) => {},
    }
    Ok(
        DepositSplTokenAndCallExecuted {
            user: ctx.user.key,
            mint,
            recipient_chain_id,
            recipient_address,
            amount,
            message,
        },
    )
}

/// A deposit of nothing is never accepted: whatever else the request says,
/// it fails with `InvalidAmount`, and so moves nothing and records nothing.
pub proof fn lemma_deposit_of_zero_is_rejected(
    ctx: DepositAndCall,
    token_ctx: DepositSplTokenAndCall,
    mint: Identity,
    recipient_chain_id: u64,
    message: Seq<u8>,
)
    ensures
        deposit_failure(ctx, recipient_chain_id, 0, message) == Some(
            DepositError::Rejected(ErrorCode::InvalidAmount),
        ),
        token_deposit_failure(token_ctx, mint, recipient_chain_id, 0, message) == Some(
            DepositError::Rejected(ErrorCode::InvalidAmount),
        ),
{
}

/// A deposit for a network other than the one in the configuration is never
/// accepted: a request with a positive amount and a message fails with
/// `InvalidChainId`, and so moves nothing and records nothing.
pub proof fn lemma_deposit_for_another_network_is_rejected(
    ctx: DepositAndCall,
    token_ctx: DepositSplTokenAndCall,
    mint: Identity,
    recipient_chain_id: u64,
    amount: u64,
    message: Seq<u8>,
)
    requires
        amount > 0,
        message.len() > 0,
    ensures
        recipient_chain_id != ctx.config.data.zetachain_chain_id ==> deposit_failure(
            ctx,
            recipient_chain_id,
            amount,
            message,
        ) == Some(DepositError::Rejected(ErrorCode::InvalidChainId)),
        recipient_chain_id != token_ctx.config.data.zetachain_chain_id ==> token_deposit_failure(
            token_ctx,
            mint,
            recipient_chain_id,
            amount,
            message,
        ) == Some(DepositError::Rejected(ErrorCode::InvalidChainId)),
{
}

/// Reads an inbound message from its bytes.
///
/// Succeeds exactly when the bytes are the format of a message, and then
/// returns that message.
pub fn decode_cross_chain_message(message: &[u8]) -> (r: Result<CrossChainMessage, ErrorCode>)
    ensures
        match r {
            Ok(m) => decoding(message@) == Some(m@),
            Err(e) => e == ErrorCode::MessageDecodingFailed && decoding(message@) is None,
        },
{
    match CrossChainMessage::try_from_slice(message) {
        Some(m) => Ok(m),
        None => Err(ErrorCode::MessageDecodingFailed),
    }
}

/// The local work that an inbound message asks for.
#[derive(Clone, Debug, PartialEq, Eq)]
pub enum Dispatch {
    /// Mint the local equivalent of a remote asset for `recipient`.
    MintNft { recipient: [u8; 32], amount: u64 },
    /// Transfer tokens to `recipient`.
    TransferToken { recipient: [u8; 32], amount: u64 },
    /// Work that only the payload describes.
    Custom { data: Vec<u8>, amount: u64 },
}

/// `dispatch` is the work that the message `m`, arriving with `amount`, asks
/// for: each action has its own handler, which gets the recipient or, for a
/// custom action, the raw payload.
pub open spec fn dispatched(dispatch: Dispatch, m: MessageView, amount: u64) -> bool {
    match m.action {
        CrossChainAction::MintNft => dispatch matches Dispatch::MintNft { recipient, amount: a }
            && recipient@ == m.recipient && a == amount,
        CrossChainAction::TransferToken => dispatch matches Dispatch::TransferToken {
            recipient,
            amount: a,
        } && recipient@ == m.recipient && a == amount,
        CrossChainAction::Custom => dispatch matches Dispatch::Custom { data, amount: a } && data@
            == m.data && a == amount,
    }
}

/// The handler for [`CrossChainAction::MintNft`]. It changes nothing on the
/// local side and names the work asked for.
pub fn handle_nft_mint(_ctx: &OnCall, message: CrossChainMessage, amount: u64) -> (r: Result<
    Dispatch,
    ErrorCode,
>)
    ensures
        r matches Ok(Dispatch::MintNft { recipient, amount: a }) && recipient == message.recipient
            && a == amount,
{
    Ok(Dispatch::MintNft { recipient: message.recipient, amount })
}

/// The handler for [`CrossChainAction::TransferToken`]. It changes nothing
/// on the local side and names the work asked for.
pub fn handle_token_transfer(_ctx: &OnCall, message: CrossChainMessage, amount: u64) -> (r: Result<
    Dispatch,
    ErrorCode,
>)
    ensures
        r matches Ok(Dispatch::TransferToken { recipient, amount: a }) && recipient
            == message.recipient && a == amount,
{
    Ok(Dispatch::TransferToken { recipient: message.recipient, amount })
}

/// The handler for [`CrossChainAction::Custom`]. It changes nothing on the
/// local side and names the work asked for.
pub fn handle_custom_action(_ctx: &OnCall, message: CrossChainMessage, amount: u64) -> (r: Result<
    Dispatch,
    ErrorCode,
>)
    ensures
        r matches Ok(Dispatch::Custom { data, amount: a }) && data == message.data && a == amount,
{
    Ok(Dispatch::Custom { data: message.data, amount })
}

/// What a call from the remote network leads to: the work that its message
/// asks for and the fact to record.
#[derive(Clone, Debug, PartialEq, Eq)]
pub struct OnCallOutcome {
    pub dispatch: Dispatch,
    pub event: OnCallExecuted,
}

/// The first rule that an inbound call breaks, if it breaks one: the sender
/// is the network in the configuration, the message has bytes, and the bytes
/// are the format of a message.
pub open spec fn on_call_rejection(config: Config, sender_chain_id: u64, message: Seq<u8>) -> Option<
    ErrorCode,
> {
    if sender_chain_id != config.zetachain_chain_id {
        Some(ErrorCode::InvalidChainId)
    } else if message.len() == 0 {
        Some(ErrorCode::EmptyMessage)
    } else if decoding(message) is None {
        Some(ErrorCode::MessageDecodingFailed)
    } else {
        None
    }
}

/// Handles a call from the remote network: decodes its message, hands it to
/// the handler of its action and returns the handler's answer with the fact
/// to record.
///
/// Fails, with no handler run, exactly where [`on_call_rejection`] says so.
pub fn on_call(
    ctx: &OnCall,
    sender_chain_id: u64,
    sender_address: Vec<u8>,
    message: Vec<u8>,
    amount: u64,
) -> (r: Result<OnCallOutcome, ErrorCode>)
    ensures
        match r {
            Ok(outcome) => {
                &&& on_call_rejection(ctx.config.data, sender_chain_id, message@) is None
                &&& dispatched(outcome.dispatch, decoding(message@).unwrap(), amount)
                &&& outcome.event.sender_chain_id == sender_chain_id
                &&& outcome.event.sender_address@ == sender_address@
                &&& outcome.event.recipient == ctx.user.key
                &&& outcome.event.message@ == message@
                &&& outcome.event.amount == amount
            },
            Err(e) => on_call_rejection(ctx.config.data, sender_chain_id, message@) == Some(e),
        },
{
    if sender_chain_id != ctx.config.data.zetachain_chain_id {
        return Err(ErrorCode::InvalidChainId);
    }
    if message.len() == 0 {
        return Err(ErrorCode::EmptyMessage);
    }
    let decoded_message = match decode_cross_chain_message(message.as_slice()) {
        Ok(m) => m,
        Err(e) => {
            return Err(e);
        },
    };
    let handled = match decoded_message.action {
        CrossChainAction::MintNft => handle_nft_mint(ctx, decoded_message, amount),
        CrossChainAction::TransferToken => handle_token_transfer(ctx, decoded_message, amount),
        CrossChainAction::Custom => handle_custom_action(ctx, decoded_message, amount),
    };
    match handled {
        Ok(dispatch) => Ok(
            OnCallOutcome {
                dispatch,
                event: OnCallExecuted {
                    sender_chain_id,
                    sender_address,
                    recipient: ctx.user.key,
                    message,
                    amount,
                },
            },
        ),
        Err(e) => Err(e),
    }
}

impl OnRevert {
    /// Custody holds at least `amount`, and the user's balance can take it.
    pub open spec fn refundable(self, amount: u64) -> bool {
        transfer_refusal(self.config.lamports, self.user.lamports, amount) is None
    }

    /// Tells whether a refund of `amount` can be paid out of custody.
    pub fn can_refund(&self, amount: u64) -> (r: bool)
        ensures
            r == self.refundable(amount),
    {
        amount <= self.config.lamports && amount <= u64::MAX - self.user.lamports
    }
}

/// A refund of all that custody holds empties custody and pays the user
/// exactly that much; a refund of any more than custody holds cannot be paid.
pub proof fn lemma_refund_of_all_custody(ctx: OnRevert, amount: u64)
    ensures
        (Operation::Revert { amount: ctx.config.lamports as nat }).custody_after(
            ctx.config.lamports as int,
        ) == 0,
        (Operation::Revert { amount: ctx.config.lamports as nat }).user_after(
            ctx.user.lamports as int,
        ) == ctx.user.lamports + ctx.config.lamports,
        amount > ctx.config.lamports ==> !ctx.refundable(amount),
{
}

/// Refunds a deposit whose remote leg failed: moves exactly `amount` from
/// custody back to the original depositor and returns the fact to record.
///
/// Custody must cover the refund. A refund that it does not cover is never
/// paid in part: the caller has to rule it out with [`OnRevert::can_refund`].
/// Fails with `InvalidAmount`, and nothing moved, exactly when `amount` is zero.
pub fn on_revert(
    ctx: &mut OnRevert,
    source_chain_id: u64,
    source_address: Vec<u8>,
    message: Vec<u8>,
    amount: u64,
) -> (r: Result<OnRevertExecuted, ErrorCode>)
    requires
        old(ctx).refundable(amount),
    ensures
        match r {
            Ok(event) => {
                &&& amount > 0
                &&& final(ctx).config.lamports == (Operation::Revert {
                    amount: amount as nat,
                }).custody_after(old(ctx).config.lamports as int)
                &&& final(ctx).user.lamports == (Operation::Revert {
                    amount: amount as nat,
                }).user_after(old(ctx).user.lamports as int)
                &&& final(ctx).user.key == old(ctx).user.key
                &&& final(ctx).config.key == old(ctx).config.key
                &&& final(ctx).config.data == old(ctx).config.data
                &&& event.source_chain_id == source_chain_id
                &&& event.source_address@ == source_address@
                &&& event.recipient == old(ctx).user.key
                &&& event.message@ == message@
                &&& event.amount == amount
            },
            Err(e) => {
                &&& amount == 0
                &&& e == ErrorCode::InvalidAmount
                &&& *final(ctx) == *old(ctx)
            },
        },
{
    if amount == 0 {
        return Err(ErrorCode::InvalidAmount);
    }
    ctx.config.lamports = ctx.config.lamports - amount;
    ctx.user.lamports = ctx.user.lamports + amount;
    Ok(
        OnRevertExecuted {
            source_chain_id,
            source_address,
            recipient: ctx.user.key,
            message,
            amount,
        },
    )
}

/// Asks the remote network to release `amount` to `recipient`. Nothing
/// moves on the local side: the operation checks the request and returns
/// the fact to record.
///
/// Fails with `InvalidAmount` exactly when `amount` is zero.
pub fn withdraw_and_call(
    ctx: &WithdrawAndCall,
    recipient: Identity,
    amount: u64,
    message: Vec<u8>,
) -> (r: Result<WithdrawAndCallExecuted, ErrorCode>)
    ensures
        match r {
            Ok(event) => {
                &&& amount > 0
                &&& event.user == ctx.user.key
                &&& event.recipient == recipient
                &&& event.amount == amount
                &&& event.message@ == message@
            },
            Err(e) => amount == 0 && e == ErrorCode::InvalidAmount,
        },
{
    if amount == 0 {
        return Err(ErrorCode::InvalidAmount);
    }
    Ok(WithdrawAndCallExecuted { user: ctx.user.key, recipient, amount, message })
}

/// Replaces the gateway endpoint in the configuration record.
///
/// Succeeds exactly when the authorizing identity is the owner in the
/// record. Otherwise fails with `Unauthorized` and leaves the record as it is.
pub fn admin_update_gateway(ctx: &mut AdminUpdateGateway, new_gateway: Identity) -> (r: Result<
    GatewayUpdated,
    ErrorCode,
>)
    ensures
        match r {
            Ok(event) => {
                &&& old(ctx).owner.key == old(ctx).config.data.owner
                &&& *final(ctx) == (AdminUpdateGateway {
                    config: ConfigAccount {
                        data: Config { gateway_program_id: new_gateway, ..old(ctx).config.data },
                        ..old(ctx).config
                    },
                    ..*old(ctx)
                })
                &&& event == (GatewayUpdated {
                    old_gateway: old(ctx).config.data.gateway_program_id,
                    new_gateway,
                    updated_by: old(ctx).owner.key,
                })
            },
            Err(e) => {
                &&& old(ctx).owner.key != old(ctx).config.data.owner
                &&& e == ErrorCode::Unauthorized
                &&& *final(ctx) == *old(ctx)
            },
        },
{
    if ctx.owner.key != ctx.config.data.owner {
        return Err(ErrorCode::Unauthorized);
    }
    let old_gateway = ctx.config.data.gateway_program_id;
    ctx.config.data.gateway_program_id = new_gateway;
    Ok(GatewayUpdated { old_gateway, new_gateway, updated_by: ctx.owner.key })
}

/// Both identities that a change of owner needs have authorized it: the
/// present owner is the one in the record, and the consenting identity is
/// the one that is to own the record.
pub open spec fn owner_change_authorized(ctx: SetOwner, new_owner: Identity) -> bool {
    ctx.current_owner.key == ctx.config.data.owner && ctx.owner.key == new_owner
}

/// Hands the configuration record to a new owner.
///
/// Succeeds exactly when [`owner_change_authorized`] holds. Otherwise fails
/// with `Unauthorized` and leaves the record as it is.
pub fn set_owner(ctx: &mut SetOwner, new_owner: Identity) -> (r: Result<OwnerUpdated, ErrorCode>)
    ensures
        match r {
            Ok(event) => {
                &&& owner_change_authorized(*old(ctx), new_owner)
                &&& *final(ctx) == (SetOwner {
                    config: ConfigAccount {
                        data: Config { owner: new_owner, ..old(ctx).config.data },
                        ..old(ctx).config
                    },
                    ..*old(ctx)
                })
                &&& event == (OwnerUpdated {
                    old_owner: old(ctx).config.data.owner,
                    new_owner,
                    updated_by: old(ctx).current_owner.key,
                })
            },
            Err(e) => {
                &&& !owner_change_authorized(*old(ctx), new_owner)
                &&& e == ErrorCode::Unauthorized
                &&& *final(ctx) == *old(ctx)
            },
        },
{
    if ctx.current_owner.key != ctx.config.data.owner || ctx.owner.key != new_owner {
        return Err(ErrorCode::Unauthorized);
    }
    let old_owner = ctx.config.data.owner;
    ctx.config.data.owner = new_owner;
    Ok(OwnerUpdated { old_owner, new_owner, updated_by: ctx.current_owner.key })
}

} // verus!
