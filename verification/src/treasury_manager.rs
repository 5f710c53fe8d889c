//! Creating treasuries: one for each authority, at the address derived from
//! the authority's identity.

use vstd::prelude::*;
use crate::derivation::{canonical_is_unique, find_treasury_address, is_canonical};
use crate::errors::Failure;
use crate::state::{Account, Address, Treasury};

verus! {

/// The accounts of [`initialize`].
#[derive(Clone, Copy, Debug, PartialEq, Eq)]
pub struct Initialize {
    /// The address of the program, under which treasury addresses are derived.
    pub program_id: Address,
    /// The place of the treasury to be: its address, and what the ledger holds
    /// there so far.
    pub treasury: Account<Option<Treasury>>,
    /// The principal that signs the request and will control the treasury.
    pub authority: Address,
}

/// The canonical bump under which `authority` derives `address`, if
/// `address` is the canonical treasury address of `authority` at all.
pub open spec fn canonical_bump(address: Seq<u8>, authority: Seq<u8>, program_id: Seq<u8>)
    -> Option<u8> {
    if exists|bump: u8| is_canonical(address, authority, bump, program_id) {
        Some(choose|bump: u8| is_canonical(address, authority, bump, program_id))
    } else {
        None
    }
}

/// What [`initialize`] makes of its accounts.
///
/// The treasury must be placed at the canonical address of its authority, and
/// nothing may live there yet. Any other place is a mismatch, and so is every
/// place where the authority has no canonical address at all. The new
/// treasury belongs to the authority, stores the canonical bump and has
/// counted nothing.
pub open spec fn initialize_outcome(ctx: Initialize) -> Result<Initialize, Failure> {
    match canonical_bump(ctx.treasury.address@, ctx.authority@, ctx.program_id@) {
        None => Err(Failure::AddressMismatch),
        Some(bump) => if ctx.treasury.data is Some {
            Err(Failure::AlreadyExists)
        } else {
            Ok(
                Initialize {
                    treasury: Account {
                        address: ctx.treasury.address,
                        data: Some(
                            Treasury {
                                authority: ctx.authority,
                                bump,
                                total_reports: 0,
                                total_rewards_distributed: 0,
                            },
                        ),
                    },
                    ..ctx
                },
            )
        },
    }
}

/// Creates the treasury of `ctx.authority` and returns its address.
///
/// Fails with [`Failure::AddressMismatch`] where `ctx.treasury` is not at the
/// canonical address of the authority, and with [`Failure::AlreadyExists`]
/// where a record lives there already. Anybody may create a treasury for
/// themselves; that the authority has signed is for the ledger to check.
pub fn initialize(ctx: &mut Initialize) -> (result: Result<Address, Failure>)
    ensures
        match result {
            Ok(address) => {
                &&& initialize_outcome(*old(ctx)) matches Ok(after) && after == *final(ctx)
                &&& address == old(ctx).treasury.address
                &&& final(ctx).treasury.data matches Some(created) && is_canonical(
                    address@,
                    created.authority@,
                    created.bump,
                    old(ctx).program_id@,
                )
            },
            Err(failure) => {
                &&& initialize_outcome(*old(ctx)) matches Err(why) && why == failure
                &&& *final(ctx) == *old(ctx)
            },
        },
{
    let found = find_treasury_address(&ctx.authority, &ctx.program_id);
    let (address, bump) = match found {
        Some(pair) => pair,
        None => {
            return Err(Failure::AddressMismatch);
        },
    };
    if !address.same_as(&ctx.treasury.address) {
        proof {
            if let Some(other) = canonical_bump(
                ctx.treasury.address@,
                ctx.authority@,
                ctx.program_id@,
            ) {
                canonical_is_unique(
                    ctx.authority@,
                    ctx.program_id@,
                    address@,
                    bump,
                    ctx.treasury.address@,
                    other,
                );
                address.is_its_bytes(ctx.treasury.address);
            }
        }
        return Err(Failure::AddressMismatch);
    }
    proof {
        let chosen = canonical_bump(ctx.treasury.address@, ctx.authority@, ctx.program_id@);
        assert(chosen is Some);
        canonical_is_unique(
            ctx.authority@,
            ctx.program_id@,
            address@,
            bump,
            address@,
            chosen->0,
        );
    }
    if ctx.treasury.data.is_some() {
        return Err(Failure::AlreadyExists);
    }
    ctx.treasury.data = Some(
        Treasury {
            authority: ctx.authority,
            bump,
            total_reports: 0,
            total_rewards_distributed: 0,
        },
    );
    Ok(address)
}

/// Once a treasury was created for an authority, creating one again for the
/// same authority under the same program fails, wherever the caller places
/// it: at the derived address the ledger now holds the first treasury, and
/// any other address is not the derived one.
pub proof fn initialize_twice_fails(first: Initialize, created: Initialize, second: Initialize)
    requires
        initialize_outcome(first) == Ok::<Initialize, Failure>(created),
        second.authority == first.authority,
        second.program_id == first.program_id,
        second.treasury.address == created.treasury.address ==> second.treasury.data
            == created.treasury.data,
    ensures
        initialize_outcome(second) is Err,
        second.treasury.address == created.treasury.address ==> initialize_outcome(second) == Err::<
            Initialize,
            Failure,
        >(Failure::AlreadyExists),
        second.treasury.address != created.treasury.address ==> initialize_outcome(second) == Err::<
            Initialize,
            Failure,
        >(Failure::AddressMismatch),
{
    let bump = canonical_bump(first.treasury.address@, first.authority@, first.program_id@);
    assert(bump is Some);
    if second.treasury.address != created.treasury.address {
        if let Some(other) = canonical_bump(
            second.treasury.address@,
            second.authority@,
            second.program_id@,
        ) {
            canonical_is_unique(
                first.authority@,
                first.program_id@,
                first.treasury.address@,
                bump->0,
                second.treasury.address@,
                other,
            );
            first.treasury.address.is_its_bytes(second.treasury.address);
        }
    }
}

} // verus!
