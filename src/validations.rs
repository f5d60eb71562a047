//! The guard predicates that every transition is built from. Each returns
//! `Ok(())` or one specific error and has no effect.
use vstd::prelude::*;

use crate::account::AccountRef;
use crate::error::MetalityGameContractError;
use crate::identity::{identities_equal, Identity};
use crate::state::MetalityGameContractState;
use crate::token::{
    mint_decimals_of, mint_error, mint_unpacks, token_account_error, token_account_unpacks,
    token_amount_of, token_mint_of, token_owner_of, unpack_mint_decimals, unpack_token_account,
    TOKEN_PROGRAM_ID,
};

verus! {

/// The single arbiter permitted to bootstrap the counter, start, settle and
/// call off games.
pub const ADMIN_ID: Identity = [
    34, 95, 232, 111, 43, 38, 3, 111, 124, 153, 227, 222, 124, 79, 135, 124,
    48, 52, 244, 253, 119, 96, 91, 20, 6, 125, 245, 197, 122, 250, 31, 77,
];

/// `Ok(())` when `cond` holds, else the given error.
pub open spec fn require(cond: bool, e: MetalityGameContractError) -> Result<(), MetalityGameContractError> {
    if cond {
        Ok(())
    } else {
        Err(e)
    }
}

/// Runs `first`, and `second` only if `first` passed.
pub open spec fn chain(
    first: Result<(), MetalityGameContractError>,
    second: Result<(), MetalityGameContractError>,
) -> Result<(), MetalityGameContractError> {
    if first is Err {
        first
    } else {
        second
    }
}

pub open spec fn token_owner_check(ata_data: Seq<u8>, user: Seq<u8>) -> Result<(), MetalityGameContractError> {
    if !token_account_unpacks(ata_data) {
        Err(token_account_error(ata_data))
    } else {
        require(token_owner_of(ata_data) == user, MetalityGameContractError::IncorrectATAOwner)
    }
}

pub open spec fn token_ata_check(token_ata: AccountRef, token_mint: AccountRef) -> Result<(), MetalityGameContractError> {
    if !token_account_unpacks(token_ata.data@) {
        Err(token_account_error(token_ata.data@))
    } else if !mint_unpacks(token_mint.data@) {
        Err(mint_error(token_mint.data@))
    } else {
        require(
            token_amount_of(token_ata.data@) == 1 && mint_decimals_of(token_mint.data@) == 0
                && token_mint_of(token_ata.data@) == token_mint.key@ && token_ata.owner@
                == TOKEN_PROGRAM_ID@,
            MetalityGameContractError::InvalidTokenATA,
        )
    }
}

pub open spec fn signer_check(signer: AccountRef) -> Result<(), MetalityGameContractError> {
    require(signer.is_signer, MetalityGameContractError::UserNotSigner)
}

pub open spec fn admin_check(admin: AccountRef) -> Result<(), MetalityGameContractError> {
    require(admin.is_signer && admin.key@ == ADMIN_ID@, MetalityGameContractError::NotAdmin)
}

pub open spec fn equality_check(lt: Identity, rt: Identity) -> Result<(), MetalityGameContractError> {
    require(lt@ == rt@, MetalityGameContractError::EqualityMismatch)
}

pub open spec fn same_resource_check(lt: Identity, rt: Identity) -> Result<(), MetalityGameContractError> {
    require(lt@ != rt@, MetalityGameContractError::SameUserJoining)
}

pub open spec fn bool_check(lt: bool, rt: bool) -> Result<(), MetalityGameContractError> {
    require(lt == rt, MetalityGameContractError::EqualityMismatch)
}

pub open spec fn winner_check(state: MetalityGameContractState, winner: Identity) -> Result<(), MetalityGameContractError> {
    require(
        state.user_a@ == winner@ || state.user_b@ == winner@,
        MetalityGameContractError::InvalidWinner,
    )
}

pub open spec fn state_account_check(game_state_account: AccountRef, program_id: Identity) -> Result<(), MetalityGameContractError> {
    require(
        game_state_account.owner@ == program_id@ && game_state_account.data@.len() != 0,
        MetalityGameContractError::InvalidStateAccount,
    )
}

/// The validation engine.
pub struct Validator;

impl Validator {
    /// The custody record decodes and is owned by `user`.
    pub fn validate_token_owner(token_ata: &AccountRef, user: &AccountRef) -> (r: Result<(), MetalityGameContractError>)
        ensures
            r == token_owner_check(token_ata.data@, user.key@),
    {
        let record = unpack_token_account(token_ata.data.as_slice())?;
        if !identities_equal(&record.owner, &user.key) {
            return Err(MetalityGameContractError::IncorrectATAOwner);
        }
        Ok(())
    }

    /// The custody record holds exactly one unit of the zero-decimal asset
    /// `token_mint`, and is itself held by the token program.
    pub fn validate_token_ata(token_ata: &AccountRef, token_mint: &AccountRef) -> (r: Result<(), MetalityGameContractError>)
        ensures
            r == token_ata_check(*token_ata, *token_mint),
    {
        let record = unpack_token_account(token_ata.data.as_slice())?;
        let decimals = unpack_mint_decimals(token_mint.data.as_slice())?;
        let token_program = TOKEN_PROGRAM_ID;
        if record.amount != 1 || decimals != 0 || !identities_equal(&record.mint, &token_mint.key)
            || !identities_equal(&token_ata.owner, &token_program) {
            return Err(MetalityGameContractError::InvalidTokenATA);
        }
        Ok(())
    }

    pub fn validate_is_signer(signer: &AccountRef) -> (r: Result<(), MetalityGameContractError>)
        ensures
            r == signer_check(*signer),
    {
        if !signer.is_signer {
            return Err(MetalityGameContractError::UserNotSigner);
        }
        Ok(())
    }

    /// The account signed and is the arbiter.
    pub fn validate_admin(admin: &AccountRef) -> (r: Result<(), MetalityGameContractError>)
        ensures
            r == admin_check(*admin),
    {
        let admin_id = ADMIN_ID;
        if !admin.is_signer || !identities_equal(&admin.key, &admin_id) {
            return Err(MetalityGameContractError::NotAdmin);
        }
        Ok(())
    }

    pub fn validate_equality(lt: Identity, rt: Identity) -> (r: Result<(), MetalityGameContractError>)
        ensures
            r == equality_check(lt, rt),
    {
        if !identities_equal(&lt, &rt) {
            return Err(MetalityGameContractError::EqualityMismatch);
        }
        Ok(())
    }

    /// The two identities differ.
    pub fn validate_same_resource(lt: Identity, rt: Identity) -> (r: Result<(), MetalityGameContractError>)
        ensures
            r == same_resource_check(lt, rt),
    {
        if identities_equal(&lt, &rt) {
            return Err(MetalityGameContractError::SameUserJoining);
        }
        Ok(())
    }

    pub fn validate_bool(lt: bool, rt: bool) -> (r: Result<(), MetalityGameContractError>)
        ensures
            r == bool_check(lt, rt),
    {
        if lt != rt {
            return Err(MetalityGameContractError::EqualityMismatch);
        }
        Ok(())
    }

    /// The candidate is one of the two recorded parties.
    pub fn validate_winner(state: MetalityGameContractState, winner: Identity) -> (r: Result<(), MetalityGameContractError>)
        ensures
            r == winner_check(state, winner),
    {
        if !identities_equal(&state.user_a, &winner) && !identities_equal(&state.user_b, &winner) {
            return Err(MetalityGameContractError::InvalidWinner);
        }
        Ok(())
    }

    /// The game record's storage is owned by this program and is not empty.
    pub fn validate_state_account(game_state_account: &AccountRef, program_id: Identity) -> (r: Result<(), MetalityGameContractError>)
        ensures
            r == state_account_check(*game_state_account, program_id),
    {
        if !identities_equal(&game_state_account.owner, &program_id) || game_state_account.data_is_empty() {
            return Err(MetalityGameContractError::InvalidStateAccount);
        }
        Ok(())
    }
}

} // verus!
