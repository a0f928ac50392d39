//! Where a user record lives.
//!
//! Each identity has one record, at the address that the ledger derives from
//! the word `user`, the identity's address and the requesting program's
//! address. The derivation also yields the salt that the record stores.

use vstd::prelude::*;

verus! {

/// The address derived from `seeds` under `program_id`, and the salt that was
/// found for it; `None` where the ledger's derivation finds no address.
pub uninterp spec fn program_address(seeds: Seq<Seq<u8>>, program_id: Seq<u8>) -> Option<
    (Seq<u8>, u8),
>;

/// The first seed of every user record: the ASCII bytes of `user`.
pub open spec fn user_seed() -> Seq<u8> {
    seq![0x75u8, 0x73u8, 0x65u8, 0x72u8]
}

/// The address of the record of `identity` under `program_id`, with its salt.
pub open spec fn user_address(identity: Seq<u8>, program_id: Seq<u8>) -> Option<(Seq<u8>, u8)> {
    program_address(seq![user_seed(), identity], program_id)
}

/// The salt of the record of `identity` under `program_id`; zero where no
/// address can be derived.
pub open spec fn user_bump(identity: Seq<u8>, program_id: Seq<u8>) -> u8 {
    match user_address(identity, program_id) {
        Some((_, bump)) => bump,
        None => 0,
    }
}

/// Calls `solana_program::pubkey::Pubkey::try_find_program_address` with the
/// two seeds, in this order, and hands address and salt back as plain bytes.
/// Trusted: the outcome is the ledger's derivation for these seeds and this
/// program, a function of the three byte strings alone; nothing is claimed
/// about when an address is found.
#[verifier::external_body]
fn find_program_address(first: &[u8], second: &[u8], program_id: &[u8; 32]) -> (found: Option<
    ([u8; 32], u8),
>)
    ensures
        match found {
            Some((address, bump)) => program_address(seq![first@, second@], program_id@) == Some(
                (address@, bump),
            ),
            None => program_address(seq![first@, second@], program_id@) is None,
        },
{
    let program = solana_program::pubkey::Pubkey::new_from_array(*program_id);
    match solana_program::pubkey::Pubkey::try_find_program_address(&[first, second], &program) {
        Some((address, bump)) => Some((address.to_bytes(), bump)),
        None => None,
    }
}

/// Derives the address and salt of the record of `identity` under
/// `program_id`.
pub fn find_user_address(identity: &[u8; 32], program_id: &[u8; 32]) -> (found: Option<
    ([u8; 32], u8),
>)
    ensures
        match found {
            Some((address, bump)) => user_address(identity@, program_id@) == Some(
                (address@, bump),
            ),
            None => user_address(identity@, program_id@) is None,
        },
{
    let seed: [u8; 4] = [0x75, 0x73, 0x65, 0x72];
    assert(seed@ =~= user_seed());
    find_program_address(seed.as_slice(), identity.as_slice(), program_id)
}

} // verus!
