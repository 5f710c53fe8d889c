//! The records that the ledger keeps.

use vstd::prelude::*;
use vstd::slice::slice_to_vec;

verus! {

/// The address of a record, or the identity of a principal: 32 bytes.
#[derive(Clone, Copy, Debug, PartialEq, Eq, Hash)]
pub struct Address {
    /// The bytes of the address.
    pub bytes: [u8; 32],
}

impl View for Address {
    type V = Seq<u8>;

    open spec fn view(&self) -> Seq<u8> {
        self.bytes@
    }
}

impl Address {
    /// Two addresses with the same bytes are one address.
    pub proof fn is_its_bytes(self, other: Address)
        requires
            self@ == other@,
        ensures
            self == other,
    {
        assert(self.bytes =~= other.bytes);
    }

    /// Whether two addresses hold the same bytes.
    pub fn same_as(&self, other: &Address) -> (same: bool)
        ensures
            same == (*self == *other),
    {
        let mut i: usize = 0;
        while i < 32
            invariant
                i <= 32,
                forall|j: int| 0 <= j < i ==> self.bytes[j] == other.bytes[j],
            decreases 32 - i,
        {
            if self.bytes[i] != other.bytes[i] {
                return false;
            }
            i += 1;
        }
        assert(self.bytes =~= other.bytes);
        true
    }

    /// The bytes of the address, as a seed of a derived address.
    pub fn to_seed(&self) -> (seed: Vec<u8>)
        ensures
            seed@ == self@,
    {
        slice_to_vec(self.bytes.as_slice())
    }
}

/// The accounting record of one authority.
#[derive(Clone, Copy, Debug, PartialEq, Eq)]
pub struct Treasury {
    /// The principal that controls the treasury.
    pub authority: Address,
    /// The byte that, with the authority, reproduces the treasury's address.
    pub bump: u8,
    /// How many reports were registered against the treasury.
    pub total_reports: u64,
    /// How many tokens the treasury has paid out.
    pub total_rewards_distributed: u64,
}

impl Treasury {
    /// Bytes that the fields of a treasury occupy in the ledger.
    pub const INIT_SPACE: usize = 32 + 1 + 8 + 8;

    /// Whether `later` can be this treasury at a later time: it has the same
    /// authority and bump, and neither counter has gone down.
    pub open spec fn evolves_to(self, later: Treasury) -> bool {
        &&& later.authority == self.authority
        &&& later.bump == self.bump
        &&& later.total_reports >= self.total_reports
        &&& later.total_rewards_distributed >= self.total_rewards_distributed
    }
}

/// One registered report.
#[derive(Clone, Copy, Debug, PartialEq, Eq)]
pub struct Report {
    /// The principal that submitted the report.
    pub reporter: Address,
    /// The digest of the report's material, computed by the submitter.
    pub hash: [u8; 32],
    /// Ledger time at submission, in seconds.
    pub timestamp: i64,
    /// Whether the report was verified. No operation sets it.
    pub verified: bool,
}

impl Report {
    /// Bytes that the fields of a report occupy in the ledger.
    pub const INIT_SPACE: usize = 32 + 32 + 8 + 1;
}

/// What the ledger holds at one address.
#[derive(Debug, PartialEq, Eq)]
pub struct Account<T> {
    /// Where the record lives.
    pub address: Address,
    /// The record itself.
    pub data: T,
}

impl<T: Copy> Clone for Account<T> {
    fn clone(&self) -> (copy: Self)
        ensures
            copy == *self,
    {
        *self
    }
}

impl<T: Copy> Copy for Account<T> {

}

} // verus!
