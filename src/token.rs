//! The custody records of the token program, as the game reads them.
use solana_program::program_error::ProgramError;
use solana_program::program_pack::Pack;
use vstd::bytes::spec_u64_from_le_bytes;
use vstd::prelude::*;

use crate::error::MetalityGameContractError;
use crate::identity::Identity;

verus! {

/// The address of the token program, the custody service whose records the game accepts.
pub const TOKEN_PROGRAM_ID: Identity = [
    6, 221, 246, 225, 215, 101, 161, 147, 217, 203, 225, 70, 206, 235, 121, 172,
    28, 180, 133, 237, 95, 91, 55, 145, 58, 140, 245, 133, 126, 255, 0, 169,
];

/// Encoded length of a custody record.
pub const TOKEN_ACCOUNT_LEN: usize = 165;

/// Encoded length of an asset (mint) record.
pub const MINT_LEN: usize = 82;

/// What the game reads from a custody record.
#[derive(Debug, Clone, Copy, PartialEq, Eq)]
pub struct CustodyRecord {
    /// The asset held.
    pub mint: Identity,
    /// The identity that may move the asset.
    pub owner: Identity,
    /// The quantity held.
    pub amount: u64,
}

/// A four-byte optional tag at `at`: little-endian 0 (absent) or 1 (present).
pub open spec fn is_option_tag(d: Seq<u8>, at: int) -> bool {
    &&& d[at] == 0 || d[at] == 1
    &&& d[at + 1] == 0
    &&& d[at + 2] == 0
    &&& d[at + 3] == 0
}

/// A custody record's bytes decode: right length, valid optional tags
/// (delegate, native reserve, close authority) and a known state byte.
pub open spec fn token_account_decodes(d: Seq<u8>) -> bool {
    &&& d.len() == TOKEN_ACCOUNT_LEN
    &&& is_option_tag(d, 72)
    &&& d[108] <= 2
    &&& is_option_tag(d, 109)
    &&& is_option_tag(d, 129)
}

/// A custody record decodes and is initialized (state byte not 0).
pub open spec fn token_account_unpacks(d: Seq<u8>) -> bool {
    token_account_decodes(d) && d[108] != 0
}

/// The error of a custody record that does not unpack.
pub open spec fn token_account_error(d: Seq<u8>) -> MetalityGameContractError {
    if token_account_decodes(d) {
        MetalityGameContractError::UninitializedAccount
    } else {
        MetalityGameContractError::InvalidAccountData
    }
}

pub open spec fn token_mint_of(d: Seq<u8>) -> Seq<u8> {
    d.subrange(0, 32)
}

pub open spec fn token_owner_of(d: Seq<u8>) -> Seq<u8> {
    d.subrange(32, 64)
}

pub open spec fn token_amount_of(d: Seq<u8>) -> u64 {
    spec_u64_from_le_bytes(d.subrange(64, 72))
}

/// An asset record's bytes decode: right length, valid optional tags (mint
/// and freeze authority) and a flag byte of 0 or 1.
pub open spec fn mint_decodes(d: Seq<u8>) -> bool {
    &&& d.len() == MINT_LEN
    &&& is_option_tag(d, 0)
    &&& d[45] == 0 || d[45] == 1
    &&& is_option_tag(d, 46)
}

/// An asset record decodes and is initialized.
pub open spec fn mint_unpacks(d: Seq<u8>) -> bool {
    mint_decodes(d) && d[45] == 1
}

/// The error of an asset record that does not unpack.
pub open spec fn mint_error(d: Seq<u8>) -> MetalityGameContractError {
    if mint_decodes(d) {
        MetalityGameContractError::UninitializedAccount
    } else {
        MetalityGameContractError::InvalidAccountData
    }
}

pub open spec fn mint_decimals_of(d: Seq<u8>) -> u8 {
    d[44]
}

/// Relies on `spl_token::state::Account::unpack`: a 165-byte record whose
/// optional tags and state byte are valid and whose state is not
/// uninitialized decodes to the mint at bytes 0..32, the owner at 32..64 and
/// the little-endian amount at 64..72; an uninitialized one fails with
/// `UninitializedAccount`, anything else with `InvalidAccountData`.
#[verifier::external_body]
pub(crate) fn unpack_token_account(data: &[u8]) -> (r: Result<CustodyRecord, MetalityGameContractError>)
    ensures
        r is Ok <==> token_account_unpacks(data@),
        r is Ok ==> r->Ok_0.mint@ == token_mint_of(data@) && r->Ok_0.owner@ == token_owner_of(data@)
            && r->Ok_0.amount == token_amount_of(data@),
        r is Err ==> r->Err_0 == token_account_error(data@),
{
    match spl_token::state::Account::unpack(data) {
        Ok(a) => Ok(CustodyRecord { mint: a.mint.to_bytes(), owner: a.owner.to_bytes(), amount: a.amount }),
        Err(ProgramError::UninitializedAccount) => Err(MetalityGameContractError::UninitializedAccount),
        Err(_) => Err(MetalityGameContractError::InvalidAccountData),
    }
}

/// Relies on `spl_token::state::Mint::unpack`: an 82-byte record whose
/// optional tags are valid and whose initialized byte is 1 decodes to the
/// decimals at byte 44; one whose initialized byte is 0 fails with
/// `UninitializedAccount`, anything else with `InvalidAccountData`.
#[verifier::external_body]
pub(crate) fn unpack_mint_decimals(data: &[u8]) -> (r: Result<u8, MetalityGameContractError>)
    ensures
        r is Ok <==> mint_unpacks(data@),
        r is Ok ==> r->Ok_0 == mint_decimals_of(data@),
        r is Err ==> r->Err_0 == mint_error(data@),
{
    match spl_token::state::Mint::unpack(data) {
        Ok(m) => Ok(m.decimals),
        Err(ProgramError::UninitializedAccount) => Err(MetalityGameContractError::UninitializedAccount),
        Err(_) => Err(MetalityGameContractError::InvalidAccountData),
    }
}

/// The associated custody record address of a wallet for an asset, or
/// `None` when no bump seed yields one.
pub uninterp spec fn associated_token_address_of(wallet: Seq<u8>, mint: Seq<u8>) -> Option<Seq<u8>>;

/// Relies on `Pubkey::try_find_program_address` of `solana_program`, called
/// with the seeds from which `spl_associated_token_account` derives an
/// associated custody record (wallet, token program, mint) under the
/// associated-token program: the result depends on the wallet and the asset
/// alone, and is `None`, not a panic, when no bump seed yields an address.
#[verifier::external_body]
pub(crate) fn associated_token_address(wallet: &Identity, mint: &Identity) -> (r: Option<Identity>)
    ensures
        r is None <==> associated_token_address_of(wallet@, mint@) is None,
        r is Some ==> associated_token_address_of(wallet@, mint@) == Some(r->Some_0@),
{
    match solana_program::pubkey::Pubkey::try_find_program_address(
        &[wallet, spl_token::id().as_ref(), mint],
        &spl_associated_token_account::id(),
    ) {
        Some((address, _bump)) => Some(address.to_bytes()),
        None => None,
    }
}

} // verus!
