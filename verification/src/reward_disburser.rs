//! Paying rewards out of the vault that the treasury's derived address
//! controls.
//!
//! The transfer itself is the token ledger's to make. The rules on either
//! side of it are here: what is asked of a request before any token moves,
//! who signs for the vault, and how a paid reward is counted.

use vstd::prelude::*;
use crate::derivation::{is_treasury_address, signer_seeds};
use crate::errors::{BriberyBusterError, Failure, TransferError};
use crate::signer::{TreasurySigner, TreasurySignerView};
use crate::state::{Account, Address, Treasury};
use crate::treasury_manager::{initialize_outcome, Initialize};

verus! {

/// The accounts of [`reward_user`].
#[derive(Clone, Copy, Debug, PartialEq, Eq)]
pub struct RewardUser {
    /// The address of the program, under which treasury addresses are derived.
    pub program_id: Address,
    /// The treasury that pays.
    pub treasury: Account<Treasury>,
    /// The token account that the treasury's address controls: the vault.
    pub treasury_token_account: Address,
    /// The token account that receives the reward.
    pub user_token_account: Address,
    /// The principal that is rewarded. Nothing ties it to the receiving
    /// token account.
    pub user: Address,
}

/// What the caller of [`reward_user`] reports.
#[derive(Clone, Copy, Debug, PartialEq, Eq)]
pub enum RewardEvent {
    /// A reward was asked for and nothing was done yet.
    Requested,
    /// The token ledger was asked for the transfer, and this is its answer.
    Transferred(Result<(), TransferError>),
}

/// What [`reward_user`] asks its caller to do next.
#[derive(Clone, Copy, Debug, PartialEq, Eq)]
pub enum RewardAction {
    /// Ask the token ledger for this transfer, then report its answer.
    Transfer(TransferInstruction),
    /// Nothing more: the reward is paid and counted.
    Done,
}

/// A transfer for the token ledger to make.
#[derive(Clone, Copy, Debug, PartialEq, Eq)]
pub struct TransferInstruction {
    /// The token account to debit.
    pub from: Address,
    /// The token account to credit.
    pub to: Address,
    /// Who authorizes the debit.
    pub signer: TreasurySigner,
    /// How many tokens to move.
    pub amount: u64,
}

/// Whether the treasury lives at the address that the authority and the bump
/// that it stores derive.
pub open spec fn treasury_is_derived(ctx: RewardUser) -> bool {
    is_treasury_address(
        ctx.treasury.address@,
        ctx.treasury.data.authority@,
        ctx.treasury.data.bump,
        ctx.program_id@,
    )
}

/// Why [`reward_user`] fails, where it does.
///
/// A reward of nothing is turned down before anything else is looked at, then
/// a treasury that does not live at its derived address. A refusal of the
/// token ledger is passed on as it came. A total that would leave the range
/// of the counter fails the reward after the transfer: the ledger then
/// undoes the transfer with the rest of the transaction.
pub open spec fn reward_user_failure(ctx: RewardUser, amount: u64, event: RewardEvent) -> Option<
    Failure,
> {
    if amount == 0 {
        Some(Failure::Program(BriberyBusterError::InvalidAmount))
    } else if !treasury_is_derived(ctx) {
        Some(Failure::AddressMismatch)
    } else {
        match event {
            RewardEvent::Requested => None,
            RewardEvent::Transferred(Err(refusal)) => Some(Failure::Transfer(refusal)),
            RewardEvent::Transferred(Ok(_)) => if ctx.treasury.data.total_rewards_distributed
                + amount > u64::MAX {
                Some(Failure::Program(BriberyBusterError::MathOverflow))
            } else {
                None
            },
        }
    }
}

/// The accounts after a reward of `amount` was counted.
pub open spec fn rewarded(ctx: RewardUser, amount: u64) -> RewardUser {
    RewardUser {
        treasury: Account {
            address: ctx.treasury.address,
            data: Treasury {
                total_rewards_distributed: (ctx.treasury.data.total_rewards_distributed
                    + amount) as u64,
                ..ctx.treasury.data
            },
        },
        ..ctx
    }
}

/// Pays `amount` tokens from the vault of the treasury to the receiving token
/// account, in two steps around the transfer that only the token ledger can
/// make.
///
/// Called with [`RewardEvent::Requested`], it checks the request and answers
/// with the transfer to make, authorized by the treasury's own signer. Called
/// again with the token ledger's answer, it counts the reward. The caller
/// makes the transfer in between, and aborts the whole transaction on any
/// failure. [`reward_user_failure`] says when it fails, and why.
///
/// Nothing ties the vault to the treasury or the receiving account to the
/// rewarded principal here, and the vault's balance is not looked at: the
/// token ledger refuses a transfer that the signer may not make or that the
/// vault cannot cover.
pub fn reward_user(ctx: &mut RewardUser, amount: u64, event: RewardEvent) -> (result: Result<
    RewardAction,
    Failure,
>)
    ensures
        match result {
            Err(failure) => {
                &&& reward_user_failure(*old(ctx), amount, event) == Some(failure)
                &&& *final(ctx) == *old(ctx)
            },
            Ok(RewardAction::Transfer(transfer)) => {
                &&& reward_user_failure(*old(ctx), amount, event) is None
                &&& event is Requested
                &&& *final(ctx) == *old(ctx)
                &&& transfer.from == old(ctx).treasury_token_account
                &&& transfer.to == old(ctx).user_token_account
                &&& transfer.amount == amount
                &&& transfer.signer@ == (TreasurySignerView {
                    address: old(ctx).treasury.address,
                    program_id: old(ctx).program_id,
                    seeds: signer_seeds(
                        old(ctx).treasury.data.authority@,
                        old(ctx).treasury.data.bump,
                    ),
                })
            },
            Ok(RewardAction::Done) => {
                &&& reward_user_failure(*old(ctx), amount, event) is None
                &&& event is Transferred
                &&& *final(ctx) == rewarded(*old(ctx), amount)
            },
        },
        amount == 0 ==> result == Err::<RewardAction, Failure>(
            Failure::Program(BriberyBusterError::InvalidAmount),
        ) && *final(ctx) == *old(ctx),
        result is Ok && event is Transferred ==> final(ctx).treasury.data.total_rewards_distributed
            == old(ctx).treasury.data.total_rewards_distributed + amount,
        final(ctx).treasury.address == old(ctx).treasury.address,
        old(ctx).treasury.data.evolves_to(final(ctx).treasury.data),
        final(ctx).treasury.data.total_reports == old(ctx).treasury.data.total_reports,
{
    if amount == 0 {
        return Err(Failure::Program(BriberyBusterError::InvalidAmount));
    }
    let signer = match TreasurySigner::for_treasury(&ctx.treasury, &ctx.program_id) {
        Some(signer) => signer,
        None => {
            return Err(Failure::AddressMismatch);
        },
    };
    match event {
        RewardEvent::Requested => Ok(
            RewardAction::Transfer(
                TransferInstruction {
                    from: ctx.treasury_token_account,
                    to: ctx.user_token_account,
                    signer,
                    amount,
                },
            ),
        ),
        RewardEvent::Transferred(Err(refusal)) => Err(Failure::Transfer(refusal)),
        RewardEvent::Transferred(Ok(_)) => {
            match ctx.treasury.data.total_rewards_distributed.checked_add(amount) {
                Some(total) => {
                    ctx.treasury.data.total_rewards_distributed = total;
                    Ok(RewardAction::Done)
                },
                None => Err(Failure::Program(BriberyBusterError::MathOverflow)),
            }
        },
    }
}

/// The treasury that [`initialize`] created can pay, and so can every later
/// state of it: its authority and bump derive the address it lives at, which
/// is what [`reward_user`] asks of a treasury.
pub proof fn created_treasury_can_pay(
    ctx: Initialize,
    created: Initialize,
    later: Treasury,
    accounts: RewardUser,
)
    requires
        initialize_outcome(ctx) == Ok::<Initialize, Failure>(created),
        created.treasury.data matches Some(treasury) && treasury.evolves_to(later),
        accounts.program_id == ctx.program_id,
        accounts.treasury == (Account { address: created.treasury.address, data: later }),
    ensures
        treasury_is_derived(accounts),
        forall|amount: u64|
            amount > 0 ==> #[trigger] reward_user_failure(accounts, amount, RewardEvent::Requested)
                is None,
{
}

} // verus!
