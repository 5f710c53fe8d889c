//! Addresses that the program derives for its own records.
//!
//! A treasury lives at the address that the ledger derives from a fixed tag,
//! the identity of the treasury's authority, the program's own address and a
//! one-byte bump. Nobody holds a private key for such an address: to present
//! the seeds that reproduce it is to act as the treasury.

use vstd::prelude::*;
use vstd::slice::slice_to_vec;
use anchor_lang::prelude::Pubkey;
use anchor_lang::solana_program::pubkey::PubkeyError;
use crate::state::Address;

verus! {

/// The address that `Pubkey::create_program_address` derives from `seeds`
/// for the program at `program_id`, or `None` where it reports an error: the
/// seeds are too many or too long, or the digest they give is a point of the
/// curve and so could be somebody's public key.
pub uninterp spec fn program_address(seeds: Seq<Seq<u8>>, program_id: Seq<u8>) -> Option<Seq<u8>>;

/// The most seeds that an address can be derived from.
pub const MAX_SEEDS: usize = 16;

/// The most bytes that one seed can hold.
pub const MAX_SEED_LEN: usize = 32;

/// Whether `seeds` are few and short enough to derive an address from.
pub open spec fn seeds_fit(seeds: Seq<Seq<u8>>) -> bool {
    &&& seeds.len() <= MAX_SEEDS
    &&& forall|i: int| 0 <= i < seeds.len() ==> (#[trigger] seeds[i]).len() <= MAX_SEED_LEN
}

/// Makes `PubkeyError`, the error of `Pubkey::create_program_address`, known
/// as a type. Nothing is known of its values.
#[verifier::external_type_specification]
#[verifier::external_body]
pub struct ExPubkeyError(PubkeyError);

/// Calls `Pubkey::create_program_address`.
///
/// Trusted: the result is a function of the seeds and the program's address
/// alone, named [`program_address`]; an error of any kind stands for `None`.
/// More than [`MAX_SEEDS`] seeds, or a seed of more than [`MAX_SEED_LEN`]
/// bytes, are an error.
#[verifier::external_body]
fn create_program_address(seeds: &Vec<Vec<u8>>, program_id: &Address) -> (derived: Result<
    Address,
    PubkeyError,
>)
    ensures
        match derived {
            Ok(address) => program_address(seeds.deep_view(), program_id@) == Some(address@),
            Err(_) => program_address(seeds.deep_view(), program_id@) is None,
        },
        !seeds_fit(seeds.deep_view()) ==> derived is Err,
{
    let parts: Vec<&[u8]> = seeds.iter().map(|seed| seed.as_slice()).collect();
    let program = Pubkey::new_from_array(program_id.bytes);
    match Pubkey::create_program_address(&parts, &program) {
        Ok(key) => Ok(Address { bytes: key.to_bytes() }),
        Err(error) => Err(error),
    }
}

/// Calls `Pubkey::try_find_program_address`.
///
/// Trusted: the search appends one byte to the seeds, tries the bytes from 255
/// down to 1 and stops at the first for which `Pubkey::create_program_address`
/// gives an address. It returns that address with the byte, or `None` where no
/// byte gives one.
#[verifier::external_body]
fn try_find_program_address(seeds: &Vec<Vec<u8>>, program_id: &Address) -> (found: Option<
    (Address, u8),
>)
    ensures
        match found {
            Some((address, bump)) => {
                &&& bump >= 1
                &&& program_address(seeds.deep_view().push(seq![bump]), program_id@) == Some(
                    address@,
                )
                &&& forall|higher: u8|
                    bump < higher ==> program_address(
                        #[trigger] seeds.deep_view().push(seq![higher]),
                        program_id@,
                    ) is None
            },
            None => forall|bump: u8|
                bump >= 1 ==> program_address(
                    #[trigger] seeds.deep_view().push(seq![bump]),
                    program_id@,
                ) is None,
        },
{
    let parts: Vec<&[u8]> = seeds.iter().map(|seed| seed.as_slice()).collect();
    let program = Pubkey::new_from_array(program_id.bytes);
    match Pubkey::try_find_program_address(&parts, &program) {
        Some((key, bump)) => Some((Address { bytes: key.to_bytes() }, bump)),
        None => None,
    }
}

/// The tag that sets treasury addresses apart: the ASCII bytes of `treasury`.
pub const TREASURY_TAG: [u8; 8] = [116, 114, 101, 97, 115, 117, 114, 121];

/// The tag as a seed.
pub open spec fn treasury_tag() -> Seq<u8> {
    TREASURY_TAG@
}

/// The seeds of a treasury's address before the bump is appended.
pub open spec fn treasury_seeds(authority: Seq<u8>) -> Seq<Seq<u8>> {
    seq![treasury_tag(), authority]
}

/// The seeds that reproduce a treasury's address and so sign for it.
pub open spec fn signer_seeds(authority: Seq<u8>, bump: u8) -> Seq<Seq<u8>> {
    seq![treasury_tag(), authority, seq![bump]]
}

/// Whether `address` is what `authority` and `bump` derive under the program
/// at `program_id`.
pub open spec fn is_treasury_address(
    address: Seq<u8>,
    authority: Seq<u8>,
    bump: u8,
    program_id: Seq<u8>,
) -> bool {
    program_address(signer_seeds(authority, bump), program_id) == Some(address)
}

/// Whether `bump` is the canonical bump of `authority`: the highest byte from
/// 255 down to 1 that derives an address at all, and `address` is what it
/// derives.
pub open spec fn is_canonical(
    address: Seq<u8>,
    authority: Seq<u8>,
    bump: u8,
    program_id: Seq<u8>,
) -> bool {
    &&& bump >= 1
    &&& is_treasury_address(address, authority, bump, program_id)
    &&& forall|higher: u8|
        bump < higher ==> program_address(#[trigger] signer_seeds(authority, higher), program_id)
            is None
}

/// Whether no bump derives a treasury address for `authority`.
pub open spec fn has_no_treasury_address(authority: Seq<u8>, program_id: Seq<u8>) -> bool {
    forall|bump: u8|
        bump >= 1 ==> program_address(#[trigger] signer_seeds(authority, bump), program_id)
            is None
}

/// An authority has at most one canonical bump, and that bump derives one
/// address.
pub proof fn canonical_is_unique(
    authority: Seq<u8>,
    program_id: Seq<u8>,
    address: Seq<u8>,
    bump: u8,
    other_address: Seq<u8>,
    other_bump: u8,
)
    requires
        is_canonical(address, authority, bump, program_id),
        is_canonical(other_address, authority, other_bump, program_id),
    ensures
        bump == other_bump,
        address == other_address,
{
    if bump < other_bump {
        assert(program_address(signer_seeds(authority, other_bump), program_id) is None);
    }
    if other_bump < bump {
        assert(program_address(signer_seeds(authority, bump), program_id) is None);
    }
}

proof fn bytes_are_their_own_deep_view(bytes: Vec<u8>)
    ensures
        bytes.deep_view() == bytes@,
{
    assert(bytes.deep_view() =~= bytes@);
}

fn tag_seed() -> (seed: Vec<u8>)
    ensures
        seed@ == treasury_tag(),
{
    slice_to_vec(TREASURY_TAG.as_slice())
}

/// Builds the seeds that sign for the treasury of `authority` with `bump`.
pub fn build_signer_seeds(authority: &Address, bump: u8) -> (seeds: Vec<Vec<u8>>)
    ensures
        seeds.deep_view() == signer_seeds(authority@, bump),
{
    let seeds: Vec<Vec<u8>> = vec![tag_seed(), authority.to_seed(), vec![bump]];
    proof {
        bytes_are_their_own_deep_view(seeds@[0]);
        bytes_are_their_own_deep_view(seeds@[1]);
        bytes_are_their_own_deep_view(seeds@[2]);
        assert(seeds@[2]@ =~= seq![bump]);
        assert(seeds.deep_view() =~= signer_seeds(authority@, bump));
    }
    seeds
}

/// Derives the address at `seeds` under the program at `program_id`. Seeds
/// that are too many or too long derive none, and of the others those whose
/// digest could be somebody's public key.
pub fn derive_address(seeds: &Vec<Vec<u8>>, program_id: &Address) -> (derived: Option<Address>)
    ensures
        match derived {
            Some(address) => program_address(seeds.deep_view(), program_id@) == Some(address@),
            None => program_address(seeds.deep_view(), program_id@) is None,
        },
        !seeds_fit(seeds.deep_view()) ==> derived is None,
{
    match create_program_address(seeds, program_id) {
        Ok(address) => Some(address),
        Err(_) => None,
    }
}

/// Finds the canonical address and bump of the treasury of `authority`: the
/// highest bump that derives an address, and that address.
pub fn find_treasury_address(authority: &Address, program_id: &Address) -> (found: Option<
    (Address, u8),
>)
    ensures
        match found {
            Some((address, bump)) => is_canonical(address@, authority@, bump, program_id@),
            None => has_no_treasury_address(authority@, program_id@),
        },
{
    let seeds: Vec<Vec<u8>> = vec![tag_seed(), authority.to_seed()];
    proof {
        bytes_are_their_own_deep_view(seeds@[0]);
        bytes_are_their_own_deep_view(seeds@[1]);
        assert(seeds.deep_view() =~= treasury_seeds(authority@));
    }
    let found = try_find_program_address(&seeds, program_id);
    proof {
        assert forall|bump: u8|
            #[trigger] signer_seeds(authority@, bump) == treasury_seeds(authority@).push(
                seq![bump],
            ) by {
            assert(signer_seeds(authority@, bump) =~= treasury_seeds(authority@).push(seq![bump]));
        }
    }
    found
}

} // verus!
