//! The right to act as a treasury.

use vstd::prelude::*;
use crate::derivation::{
    build_signer_seeds, derive_address, is_treasury_address, program_address, signer_seeds,
};
use crate::state::{Account, Address, Treasury};

verus! {

/// Proof that its holder acts for a treasury: the seeds that reproduce the
/// treasury's address.
///
/// A signer is made only by [`TreasurySigner::for_treasury`], from what the
/// treasury stores, and only where that derives the treasury's own address.
#[derive(Clone, Copy, Debug, PartialEq, Eq)]
pub struct TreasurySigner {
    address: Address,
    program_id: Address,
    authority: Address,
    bump: u8,
}

/// What a [`TreasurySigner`] stands for.
pub struct TreasurySignerView {
    /// The address of the treasury that signs.
    pub address: Address,
    /// The program under which the address is derived.
    pub program_id: Address,
    /// The seeds that reproduce the address.
    pub seeds: Seq<Seq<u8>>,
}

impl View for TreasurySigner {
    type V = TreasurySignerView;

    closed spec fn view(&self) -> TreasurySignerView {
        TreasurySignerView {
            address: self.address,
            program_id: self.program_id,
            seeds: signer_seeds(self.authority@, self.bump),
        }
    }
}

impl TreasurySigner {
    /// Every signer holds seeds that derive the address it signs for.
    #[verifier::type_invariant]
    spec fn seeds_derive_address(self) -> bool {
        is_treasury_address(self.address@, self.authority@, self.bump, self.program_id@)
    }

    /// Makes the signer of `treasury`, if the authority and the bump that it
    /// stores derive the address it lives at.
    pub fn for_treasury(treasury: &Account<Treasury>, program_id: &Address) -> (signer: Option<
        TreasurySigner,
    >)
        ensures
            signer is Some <==> is_treasury_address(
                treasury.address@,
                treasury.data.authority@,
                treasury.data.bump,
                program_id@,
            ),
            signer matches Some(made) ==> made@ == (TreasurySignerView {
                address: treasury.address,
                program_id: *program_id,
                seeds: signer_seeds(treasury.data.authority@, treasury.data.bump),
            }),
    {
        let seeds = build_signer_seeds(&treasury.data.authority, treasury.data.bump);
        match derive_address(&seeds, program_id) {
            Some(address) => {
                if address.same_as(&treasury.address) {
                    Some(
                        TreasurySigner {
                            address: treasury.address,
                            program_id: *program_id,
                            authority: treasury.data.authority,
                            bump: treasury.data.bump,
                        },
                    )
                } else {
                    proof {
                        if address@ == treasury.address@ {
                            address.is_its_bytes(treasury.address);
                        }
                    }
                    None
                }
            },
            None => None,
        }
    }

    /// The address of the treasury that signs.
    pub fn address(&self) -> (address: Address)
        ensures
            address == self@.address,
    {
        self.address
    }

    /// The program under which the address is derived.
    pub fn program_id(&self) -> (program_id: Address)
        ensures
            program_id == self@.program_id,
    {
        self.program_id
    }

    /// The seeds to present to the token ledger. They derive the address
    /// that the signer signs for.
    pub fn seeds(&self) -> (seeds: Vec<Vec<u8>>)
        ensures
            seeds.deep_view() == self@.seeds,
            program_address(self@.seeds, self@.program_id@) == Some(self@.address@),
    {
        proof {
            use_type_invariant(self);
        }
        build_signer_seeds(&self.authority, self.bump)
    }
}

} // verus!
