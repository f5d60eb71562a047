//! The program-controlled authority address of a game record.
use vstd::prelude::*;

use crate::identity::Identity;

verus! {

/// The seed prefix from which each game's authority address is derived.
pub const AUTHORITY_SEED: &'static str = "metality_game_contract";

/// The program address derived from a seed prefix and an account key under a
/// program, with its bump seed; `None` when no bump seed yields one.
pub uninterp spec fn program_address_of(seed: Seq<char>, key: Seq<u8>, program: Seq<u8>) -> Option<(Seq<u8>, u8)>;

/// Relies on `Pubkey::try_find_program_address` of `solana_program`: the
/// result depends on the seeds and the program alone.
#[verifier::external_body]
pub(crate) fn find_program_address(seed: &str, key: &Identity, program_id: &Identity) -> (r: Option<(Identity, u8)>)
    ensures
        r is None <==> program_address_of(seed@, key@, program_id@) is None,
        r is Some ==> program_address_of(seed@, key@, program_id@) == Some((r->Some_0.0@, r->Some_0.1)),
{
    match solana_program::pubkey::Pubkey::try_find_program_address(
        &[seed.as_bytes(), key],
        &solana_program::pubkey::Pubkey::new_from_array(*program_id),
    ) {
        Some((address, bump)) => Some((address.to_bytes(), bump)),
        None => None,
    }
}

/// The authority address of the game record stored at `game_state`, as this
/// program derives it.
pub open spec fn authority_of(game_state: Seq<u8>, program_id: Seq<u8>) -> Option<(Seq<u8>, u8)> {
    program_address_of(AUTHORITY_SEED@, game_state, program_id)
}

} // verus!
