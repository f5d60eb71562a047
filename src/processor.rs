//! The transitions of the game. Each reads its accounts by position, runs
//! its full list of checks, and on success returns the effects that the
//! runtime must perform, in order; on failure it returns the first failing
//! check's error and nothing is to be done.
use vstd::prelude::*;

use crate::account::AccountRef;
use crate::address::{authority_of, find_program_address, AUTHORITY_SEED};
use crate::effect::{AccountSeed, AuthoritySigner, Effect};
use crate::error::MetalityGameContractError;
use crate::identity::{identities_equal, zero_identity, Identity};
use crate::instruction::{decoded_instruction, MetalityGameContractInstruction};
use crate::state::{
    decode_game_state, decode_program_data, MetalityGameContractState,
    MetalityGameProgramDataState, GAME_STATE_LEN, PROGRAM_DATA_STATE_LEN,
};
use crate::token::{associated_token_address, associated_token_address_of};
use crate::validations::{
    admin_check, bool_check, chain, equality_check, require, same_resource_check, signer_check,
    state_account_check, token_ata_check, token_owner_check, winner_check, Validator,
};

verus! {

/// The outcome of a transition with its effects viewed as a sequence.
pub open spec fn effects_view(r: Result<Vec<Effect>, MetalityGameContractError>) -> Result<
    Seq<Effect>,
    MetalityGameContractError,
> {
    match r {
        Ok(v) => Ok(v@),
        Err(e) => Err(e),
    }
}

/// The checks of Join on B's signature, the record's phase, B's stake and
/// the authority, in order, on the decoded record `st` and the derived
/// authority `pda`.
pub open spec fn join_game_stake_checks(
    accounts: Seq<AccountRef>,
    program_id: Identity,
    st: MetalityGameContractState,
    pda: Seq<u8>,
) -> Result<(), MetalityGameContractError> {
    let user_b = accounts[0];
    let nft_ata = accounts[1];
    let nft_mint = accounts[2];
    let pda_account = accounts[3];
    let game_state = accounts[4];
    chain(signer_check(user_b),
    chain(state_account_check(game_state, program_id),
    chain(bool_check(st.is_initialized, true),
    chain(bool_check(st.user_b_joined, false),
    chain(bool_check(st.expired, false),
    chain(bool_check(st.game_started, false),
    chain(token_owner_check(nft_ata.data@, user_b.key@),
    chain(token_ata_check(nft_ata, nft_mint),
    chain(require(pda_account.key@ == pda, MetalityGameContractError::EqualityMismatch),
    equality_check(pda_account.key, st.pda_account))))))))))
}

/// The checks of Join that party B, B's custody record and B's asset all
/// differ from party A's.
pub open spec fn join_game_distinct_checks(accounts: Seq<AccountRef>, st: MetalityGameContractState) -> Result<
    (),
    MetalityGameContractError,
> {
    chain(same_resource_check(st.user_a, accounts[0].key),
    chain(same_resource_check(st.a_nft_ata, accounts[1].key),
    same_resource_check(st.a_nft_mint, accounts[2].key)))
}

/// All checks of Join, in order.
pub open spec fn join_game_checks(
    accounts: Seq<AccountRef>,
    program_id: Identity,
    st: MetalityGameContractState,
    pda: Seq<u8>,
) -> Result<(), MetalityGameContractError> {
    chain(join_game_stake_checks(accounts, program_id, st, pda), join_game_distinct_checks(accounts, st))
}

/// Join: accounts are party B, B's custody record, B's asset, the game's
/// authority, the game record, and the token program.
pub open spec fn join_game_outcome(accounts: Seq<AccountRef>, program_id: Identity) -> Result<
    Seq<Effect>,
    MetalityGameContractError,
> {
    if accounts.len() < 6 {
        Err(MetalityGameContractError::NotEnoughAccountKeys)
    } else {
        let user_b = accounts[0];
        let nft_ata = accounts[1];
        let nft_mint = accounts[2];
        let pda_account = accounts[3];
        let game_state = accounts[4];
        match authority_of(game_state.key@, program_id@) {
            None => Err(MetalityGameContractError::InvalidSeeds),
            Some((pda, _bump)) => match decode_game_state(game_state.data@) {
                Err(e) => Err(e),
                Ok(st) => match join_game_checks(accounts, program_id, st, pda) {
                    Err(e) => Err(e),
                    Ok(_) => Ok(
                        seq![
                            Effect::SetCustodyOwner {
                                custody: nft_ata.key,
                                owner: user_b.key,
                                new_owner: pda_account.key,
                            },
                            Effect::WriteGameState {
                                account: game_state.key,
                                record: MetalityGameContractState {
                                    user_b: user_b.key,
                                    b_nft_ata: nft_ata.key,
                                    b_nft_mint: nft_mint.key,
                                    user_b_joined: true,
                                    ..st
                                },
                            },
                        ],
                    ),
                },
            },
        }
    }
}

/// The record that initializing a game writes: party A's stake, blank party
/// B fields, and the authority address.
pub open spec fn new_game_record(user_a: Identity, nft_ata: Identity, nft_mint: Identity, pda_account: Identity) -> MetalityGameContractState {
    MetalityGameContractState {
        is_initialized: true,
        user_a,
        a_nft_ata: nft_ata,
        a_nft_mint: nft_mint,
        user_b: zero_identity(),
        user_b_joined: false,
        b_nft_ata: zero_identity(),
        b_nft_mint: zero_identity(),
        pda_account,
        expired: false,
        game_started: false,
    }
}

/// Bootstrap counter: accounts are the arbiter, the counter's slot, and the
/// system program.
pub open spec fn initialize_game_program_data_outcome(accounts: Seq<AccountRef>, program_id: Identity) -> Result<
    Seq<Effect>,
    MetalityGameContractError,
> {
    if accounts.len() < 3 {
        Err(MetalityGameContractError::NotEnoughAccountKeys)
    } else {
        let admin = accounts[0];
        let program_data = accounts[1];
        match chain(
            admin_check(admin),
            require(program_data.data@.len() == 0, MetalityGameContractError::AlreadyInitialized),
        ) {
            Err(e) => Err(e),
            Ok(_) => Ok(
                seq![
                    Effect::CreateAccountWithSeed {
                        payer: admin.key,
                        account: program_data.key,
                        seed: AccountSeed::ProgramData,
                        space: PROGRAM_DATA_STATE_LEN as u64,
                        owner: program_id,
                    },
                    Effect::WriteProgramData {
                        account: program_data.key,
                        counter: MetalityGameProgramDataState { is_initialized: true, index: 0 },
                    },
                ],
            ),
        }
    }
}

/// The checks of Initialize game, in order.
pub open spec fn initialize_game_checks(
    accounts: Seq<AccountRef>,
    program_id: Identity,
    counter: MetalityGameProgramDataState,
    pda: Seq<u8>,
) -> Result<(), MetalityGameContractError> {
    let user_a = accounts[0];
    let nft_ata = accounts[1];
    let nft_mint = accounts[2];
    let pda_account = accounts[3];
    let game_state = accounts[4];
    let program_data = accounts[5];
    chain(signer_check(user_a),
    chain(token_owner_check(nft_ata.data@, user_a.key@),
    chain(token_ata_check(nft_ata, nft_mint),
    chain(require(pda_account.key@ == pda, MetalityGameContractError::EqualityMismatch),
    chain(state_account_check(program_data, program_id),
    chain(require(game_state.data@.len() == 0, MetalityGameContractError::AlreadyInitialized),
    require(counter.index < u64::MAX, MetalityGameContractError::ArithmeticOverflow)))))))
}

/// Initialize game: accounts are party A, A's custody record, A's asset, the
/// game's authority, the new game record's slot, the counter, the token
/// program and the system program.
pub open spec fn initialize_game_outcome(accounts: Seq<AccountRef>, program_id: Identity) -> Result<
    Seq<Effect>,
    MetalityGameContractError,
> {
    if accounts.len() < 8 {
        Err(MetalityGameContractError::NotEnoughAccountKeys)
    } else {
        let user_a = accounts[0];
        let nft_ata = accounts[1];
        let nft_mint = accounts[2];
        let pda_account = accounts[3];
        let game_state = accounts[4];
        let program_data = accounts[5];
        match decode_program_data(program_data.data@) {
            Err(e) => Err(e),
            Ok(counter) => match authority_of(game_state.key@, program_id@) {
                None => Err(MetalityGameContractError::InvalidSeeds),
                Some((pda, _bump)) => match initialize_game_checks(accounts, program_id, counter, pda) {
                    Err(e) => Err(e),
                    Ok(_) => Ok(
                        seq![
                            Effect::CreateAccountWithSeed {
                                payer: user_a.key,
                                account: game_state.key,
                                seed: AccountSeed::GameState(counter.index),
                                space: GAME_STATE_LEN as u64,
                                owner: program_id,
                            },
                            Effect::SetCustodyOwner {
                                custody: nft_ata.key,
                                owner: user_a.key,
                                new_owner: pda_account.key,
                            },
                            Effect::WriteGameState {
                                account: game_state.key,
                                record: new_game_record(user_a.key, nft_ata.key, nft_mint.key, pda_account.key),
                            },
                            Effect::WriteProgramData {
                                account: program_data.key,
                                counter: MetalityGameProgramDataState {
                                    index: (counter.index + 1) as u64,
                                    ..counter
                                },
                            },
                        ],
                    ),
                },
            },
        }
    }
}

/// The checks of Cancel by party A, in order; party B's stake is checked
/// only when B has joined.
pub open spec fn cancel_game_checks(
    accounts: Seq<AccountRef>,
    program_id: Identity,
    st: MetalityGameContractState,
    pda: Seq<u8>,
) -> Result<(), MetalityGameContractError> {
    let user_a = accounts[0];
    let a_nft_ata = accounts[1];
    let a_nft_mint = accounts[2];
    let user_b = accounts[3];
    let b_nft_ata = accounts[4];
    let b_nft_mint = accounts[5];
    let pda_account = accounts[6];
    let game_state = accounts[7];
    chain(signer_check(user_a),
    chain(state_account_check(game_state, program_id),
    chain(bool_check(st.is_initialized, true),
    chain(bool_check(st.expired, false),
    chain(bool_check(st.game_started, false),
    chain(equality_check(st.user_a, user_a.key),
    chain(require(pda_account.key@ == pda, MetalityGameContractError::EqualityMismatch),
    chain(require(pda == st.pda_account@, MetalityGameContractError::EqualityMismatch),
    chain(equality_check(a_nft_ata.key, st.a_nft_ata),
    chain(equality_check(a_nft_mint.key, st.a_nft_mint),
    chain(token_ata_check(a_nft_ata, a_nft_mint),
    chain(token_owner_check(a_nft_ata.data@, pda_account.key@),
    if st.user_b_joined {
        chain(equality_check(st.user_b, user_b.key),
        chain(equality_check(b_nft_ata.key, st.b_nft_ata),
        chain(equality_check(b_nft_mint.key, st.b_nft_mint),
        chain(token_ata_check(b_nft_ata, b_nft_mint),
        token_owner_check(b_nft_ata.data@, pda_account.key@)))))
    } else {
        Ok(())
    }))))))))))))
}

/// The effects of calling off a game: each stake goes back to its owner and
/// the record expires.
pub open spec fn refund_effects(
    st: MetalityGameContractState,
    user_a: Identity,
    a_nft_ata: Identity,
    user_b: Identity,
    b_nft_ata: Identity,
    game_state: Identity,
    signer: AuthoritySigner,
) -> Seq<Effect> {
    let a = seq![Effect::ReleaseCustody { custody: a_nft_ata, new_owner: user_a, signer }];
    let b = if st.user_b_joined {
        seq![Effect::ReleaseCustody { custody: b_nft_ata, new_owner: user_b, signer }]
    } else {
        Seq::empty()
    };
    a + b + seq![
        Effect::WriteGameState { account: game_state, record: MetalityGameContractState { expired: true, ..st } },
    ]
}

/// Cancel: accounts are party A, A's custody record, A's asset, party B, B's
/// custody record, B's asset, the game's authority, the game record, and the
/// token program.
pub open spec fn cancel_game_outcome(accounts: Seq<AccountRef>, program_id: Identity) -> Result<
    Seq<Effect>,
    MetalityGameContractError,
> {
    if accounts.len() < 9 {
        Err(MetalityGameContractError::NotEnoughAccountKeys)
    } else {
        let pda_account = accounts[6];
        let game_state = accounts[7];
        match authority_of(game_state.key@, program_id@) {
            None => Err(MetalityGameContractError::InvalidSeeds),
            Some((pda, bump)) => match decode_game_state(game_state.data@) {
                Err(e) => Err(e),
                Ok(st) => match cancel_game_checks(accounts, program_id, st, pda) {
                    Err(e) => Err(e),
                    Ok(_) => Ok(
                        refund_effects(
                            st,
                            accounts[0].key,
                            accounts[1].key,
                            accounts[3].key,
                            accounts[4].key,
                            game_state.key,
                            AuthoritySigner { authority: pda_account.key, game_state: game_state.key, bump },
                        ),
                    ),
                },
            },
        }
    }
}

/// The checks of Draw or cancel by the arbiter, in order; party B's stake
/// is checked only when B has joined.
pub open spec fn draw_or_cancel_game_checks(
    accounts: Seq<AccountRef>,
    program_id: Identity,
    st: MetalityGameContractState,
    pda: Seq<u8>,
) -> Result<(), MetalityGameContractError> {
    let admin = accounts[0];
    let user_a = accounts[1];
    let user_b = accounts[2];
    let a_nft_ata = accounts[3];
    let a_nft_mint = accounts[4];
    let b_nft_ata = accounts[5];
    let b_nft_mint = accounts[6];
    let pda_account = accounts[7];
    let game_state = accounts[8];
    chain(admin_check(admin),
    chain(state_account_check(game_state, program_id),
    chain(bool_check(st.is_initialized, true),
    chain(bool_check(st.expired, false),
    chain(token_owner_check(a_nft_ata.data@, pda_account.key@),
    chain(token_ata_check(a_nft_ata, a_nft_mint),
    chain(equality_check(user_a.key, st.user_a),
    chain(equality_check(a_nft_ata.key, st.a_nft_ata),
    chain(equality_check(a_nft_mint.key, st.a_nft_mint),
    chain(require(pda_account.key@ == pda, MetalityGameContractError::EqualityMismatch),
    chain(equality_check(pda_account.key, st.pda_account),
    if st.user_b_joined {
        chain(token_owner_check(b_nft_ata.data@, pda_account.key@),
        chain(token_ata_check(b_nft_ata, b_nft_mint),
        chain(equality_check(user_b.key, st.user_b),
        chain(equality_check(b_nft_ata.key, st.b_nft_ata),
        equality_check(b_nft_mint.key, st.b_nft_mint)))))
    } else {
        Ok(())
    })))))))))))
}

/// Draw or cancel: accounts are the arbiter, party A, party B, A's custody
/// record, A's asset, B's custody record, B's asset, the game's authority,
/// the game record, and the token program.
pub open spec fn draw_or_cancel_game_outcome(accounts: Seq<AccountRef>, program_id: Identity) -> Result<
    Seq<Effect>,
    MetalityGameContractError,
> {
    if accounts.len() < 10 {
        Err(MetalityGameContractError::NotEnoughAccountKeys)
    } else {
        let pda_account = accounts[7];
        let game_state = accounts[8];
        match authority_of(game_state.key@, program_id@) {
            None => Err(MetalityGameContractError::InvalidSeeds),
            Some((pda, bump)) => match decode_game_state(game_state.data@) {
                Err(e) => Err(e),
                Ok(st) => match draw_or_cancel_game_checks(accounts, program_id, st, pda) {
                    Err(e) => Err(e),
                    Ok(_) => Ok(
                        refund_effects(
                            st,
                            accounts[1].key,
                            accounts[3].key,
                            accounts[2].key,
                            accounts[5].key,
                            game_state.key,
                            AuthoritySigner { authority: pda_account.key, game_state: game_state.key, bump },
                        ),
                    ),
                },
            },
        }
    }
}

/// The checks of Set started, in order.
pub open spec fn set_game_started_checks(
    accounts: Seq<AccountRef>,
    program_id: Identity,
    st: MetalityGameContractState,
    pda: Seq<u8>,
) -> Result<(), MetalityGameContractError> {
    let admin = accounts[0];
    let user_a = accounts[1];
    let user_b = accounts[2];
    let a_nft_ata = accounts[3];
    let a_nft_mint = accounts[4];
    let b_nft_ata = accounts[5];
    let b_nft_mint = accounts[6];
    let pda_account = accounts[7];
    let game_state = accounts[8];
    chain(admin_check(admin),
    chain(state_account_check(game_state, program_id),
    chain(bool_check(st.is_initialized, true),
    chain(bool_check(st.user_b_joined, true),
    chain(bool_check(st.expired, false),
    chain(bool_check(st.game_started, false),
    chain(equality_check(user_a.key, st.user_a),
    chain(equality_check(user_b.key, st.user_b),
    chain(equality_check(a_nft_ata.key, st.a_nft_ata),
    chain(equality_check(a_nft_mint.key, st.a_nft_mint),
    chain(equality_check(b_nft_ata.key, st.b_nft_ata),
    chain(equality_check(b_nft_mint.key, st.b_nft_mint),
    chain(require(pda_account.key@ == pda, MetalityGameContractError::EqualityMismatch),
    chain(token_owner_check(a_nft_ata.data@, pda_account.key@),
    chain(token_owner_check(b_nft_ata.data@, pda_account.key@),
    chain(token_ata_check(a_nft_ata, a_nft_mint),
    token_ata_check(b_nft_ata, b_nft_mint)))))))))))))))))
}

/// Set started: accounts are the arbiter, party A, party B, A's custody
/// record, A's asset, B's custody record, B's asset, the game's authority,
/// and the game record.
pub open spec fn set_game_started_outcome(accounts: Seq<AccountRef>, program_id: Identity) -> Result<
    Seq<Effect>,
    MetalityGameContractError,
> {
    if accounts.len() < 9 {
        Err(MetalityGameContractError::NotEnoughAccountKeys)
    } else {
        let game_state = accounts[8];
        match authority_of(game_state.key@, program_id@) {
            None => Err(MetalityGameContractError::InvalidSeeds),
            Some((pda, _bump)) => match decode_game_state(game_state.data@) {
                Err(e) => Err(e),
                Ok(st) => match set_game_started_checks(accounts, program_id, st, pda) {
                    Err(e) => Err(e),
                    Ok(_) => Ok(
                        seq![
                            Effect::WriteGameState {
                                account: game_state.key,
                                record: MetalityGameContractState { game_started: true, ..st },
                            },
                        ],
                    ),
                },
            },
        }
    }
}

/// The checks of Exit before start, in order.
pub open spec fn user_b_exit_game_checks(
    accounts: Seq<AccountRef>,
    program_id: Identity,
    st: MetalityGameContractState,
    pda: Seq<u8>,
) -> Result<(), MetalityGameContractError> {
    let user_b = accounts[0];
    let b_nft_ata = accounts[1];
    let b_nft_mint = accounts[2];
    let pda_account = accounts[3];
    let game_state = accounts[4];
    chain(signer_check(user_b),
    chain(state_account_check(game_state, program_id),
    chain(bool_check(st.is_initialized, true),
    chain(bool_check(st.user_b_joined, true),
    chain(bool_check(st.expired, false),
    chain(bool_check(st.game_started, false),
    chain(equality_check(user_b.key, st.user_b),
    chain(equality_check(b_nft_ata.key, st.b_nft_ata),
    chain(equality_check(b_nft_mint.key, st.b_nft_mint),
    chain(require(pda_account.key@ == pda, MetalityGameContractError::EqualityMismatch),
    chain(token_owner_check(b_nft_ata.data@, pda_account.key@),
    token_ata_check(b_nft_ata, b_nft_mint))))))))))))
}

/// Exit before start: accounts are party B, B's custody record, B's asset,
/// the game's authority, the game record, and the token program.
pub open spec fn user_b_exit_game_outcome(accounts: Seq<AccountRef>, program_id: Identity) -> Result<
    Seq<Effect>,
    MetalityGameContractError,
> {
    if accounts.len() < 6 {
        Err(MetalityGameContractError::NotEnoughAccountKeys)
    } else {
        let user_b = accounts[0];
        let b_nft_ata = accounts[1];
        let pda_account = accounts[3];
        let game_state = accounts[4];
        match authority_of(game_state.key@, program_id@) {
            None => Err(MetalityGameContractError::InvalidSeeds),
            Some((pda, bump)) => match decode_game_state(game_state.data@) {
                Err(e) => Err(e),
                Ok(st) => match user_b_exit_game_checks(accounts, program_id, st, pda) {
                    Err(e) => Err(e),
                    Ok(_) => Ok(
                        seq![
                            Effect::ReleaseCustody {
                                custody: b_nft_ata.key,
                                new_owner: user_b.key,
                                signer: AuthoritySigner {
                                    authority: pda_account.key,
                                    game_state: game_state.key,
                                    bump,
                                },
                            },
                            Effect::WriteGameState {
                                account: game_state.key,
                                record: MetalityGameContractState {
                                    user_b_joined: false,
                                    user_b: zero_identity(),
                                    b_nft_ata: zero_identity(),
                                    b_nft_mint: zero_identity(),
                                    ..st
                                },
                            },
                        ],
                    ),
                },
            },
        }
    }
}

/// The recorded party that is not the declared winner.
pub open spec fn loser_of(st: MetalityGameContractState, winner: Identity) -> Identity {
    if st.user_a@ == winner@ {
        st.user_b
    } else {
        st.user_a
    }
}

/// The recorded custody record of the declared winner's own stake.
pub open spec fn winner_stake_of(st: MetalityGameContractState, winner: Identity) -> Identity {
    if st.user_a@ == winner@ {
        st.a_nft_ata
    } else {
        st.b_nft_ata
    }
}

/// The recorded custody record of the loser's stake.
pub open spec fn loser_stake_of(st: MetalityGameContractState, winner: Identity) -> Identity {
    if st.user_a@ == winner@ {
        st.b_nft_ata
    } else {
        st.a_nft_ata
    }
}

/// The checks of Settle, in order. Beyond the state and custody checks, the
/// named loser and both custody records must be the ones the record holds
/// for the two sides.
pub open spec fn transfer_reward_checks(
    accounts: Seq<AccountRef>,
    program_id: Identity,
    st: MetalityGameContractState,
    pda: Seq<u8>,
) -> Result<(), MetalityGameContractError> {
    let admin = accounts[0];
    let winner = accounts[1];
    let loser = accounts[2];
    let won_nft = accounts[3];
    let won_nft_mint = accounts[4];
    let owned_nft = accounts[5];
    let owned_nft_mint = accounts[6];
    let winner_won_nft_ata = accounts[7];
    let pda_account = accounts[8];
    let game_state = accounts[9];
    chain(admin_check(admin),
    chain(state_account_check(game_state, program_id),
    chain(winner_check(st, winner.key),
    chain(bool_check(st.is_initialized, true),
    chain(bool_check(st.user_b_joined, true),
    chain(bool_check(st.expired, false),
    chain(bool_check(st.game_started, true),
    chain(token_owner_check(won_nft.data@, pda_account.key@),
    chain(token_owner_check(owned_nft.data@, pda_account.key@),
    chain(token_ata_check(won_nft, won_nft_mint),
    chain(token_ata_check(owned_nft, owned_nft_mint),
    chain(require(pda_account.key@ == pda, MetalityGameContractError::EqualityMismatch),
    chain(equality_check(pda_account.key, st.pda_account),
    chain(match associated_token_address_of(winner.key@, won_nft_mint.key@) {
        None => Err(MetalityGameContractError::InvalidSeeds),
        Some(ata) => require(ata == winner_won_nft_ata.key@, MetalityGameContractError::EqualityMismatch),
    },
    chain(equality_check(loser.key, loser_of(st, winner.key)),
    chain(equality_check(owned_nft.key, winner_stake_of(st, winner.key)),
    equality_check(won_nft.key, loser_stake_of(st, winner.key))))))))))))))))))
}

/// Settle: accounts are the arbiter, the winner, the loser, the loser's
/// custody record (`won_nft`), its asset, the winner's own custody record
/// (`owned_nft`), its asset, the winner's associated custody record for the
/// won asset, the game's authority, the game record, then the system, token,
/// rent and associated-account programs.
///
/// Reward rule (forfeiture swap): the unit held in the loser's custody
/// record moves to the winner's associated custody record (created first
/// when absent), the emptied record goes back to the loser, and custody of
/// the winner's own original stake passes to the loser.
pub open spec fn transfer_reward_outcome(accounts: Seq<AccountRef>, program_id: Identity) -> Result<
    Seq<Effect>,
    MetalityGameContractError,
> {
    if accounts.len() < 14 {
        Err(MetalityGameContractError::NotEnoughAccountKeys)
    } else {
        let admin = accounts[0];
        let winner = accounts[1];
        let loser = accounts[2];
        let won_nft = accounts[3];
        let won_nft_mint = accounts[4];
        let owned_nft = accounts[5];
        let winner_won_nft_ata = accounts[7];
        let pda_account = accounts[8];
        let game_state = accounts[9];
        match authority_of(game_state.key@, program_id@) {
            None => Err(MetalityGameContractError::InvalidSeeds),
            Some((pda, bump)) => match decode_game_state(game_state.data@) {
                Err(e) => Err(e),
                Ok(st) => match transfer_reward_checks(accounts, program_id, st, pda) {
                    Err(e) => Err(e),
                    Ok(_) => {
                        let signer = AuthoritySigner {
                            authority: pda_account.key,
                            game_state: game_state.key,
                            bump,
                        };
                        let create = if winner_won_nft_ata.data@.len() == 0 {
                            seq![
                                Effect::CreateAssociatedAccount {
                                    payer: admin.key,
                                    wallet: winner.key,
                                    mint: won_nft_mint.key,
                                },
                            ]
                        } else {
                            Seq::empty()
                        };
                        Ok(
                            create + seq![
                                Effect::ReleaseCustody { custody: owned_nft.key, new_owner: loser.key, signer },
                                Effect::TransferUnit { from: won_nft.key, to: winner_won_nft_ata.key, signer },
                                Effect::ReleaseCustody { custody: won_nft.key, new_owner: loser.key, signer },
                                Effect::WriteGameState {
                                    account: game_state.key,
                                    record: MetalityGameContractState { expired: true, ..st },
                                },
                            ],
                        )
                    },
                },
            },
        }
    }
}

/// The outcome of a decoded transition.
pub open spec fn transition_outcome(
    ins: MetalityGameContractInstruction,
    accounts: Seq<AccountRef>,
    program_id: Identity,
) -> Result<Seq<Effect>, MetalityGameContractError> {
    match ins {
        MetalityGameContractInstruction::InitializeGameProgramData => initialize_game_program_data_outcome(accounts, program_id),
        MetalityGameContractInstruction::InitializeGame => initialize_game_outcome(accounts, program_id),
        MetalityGameContractInstruction::CancelGame => cancel_game_outcome(accounts, program_id),
        MetalityGameContractInstruction::JoinGame => join_game_outcome(accounts, program_id),
        MetalityGameContractInstruction::TransferReward => transfer_reward_outcome(accounts, program_id),
        MetalityGameContractInstruction::DrawOrCancelGame => draw_or_cancel_game_outcome(accounts, program_id),
        MetalityGameContractInstruction::SetGameStarted => set_game_started_outcome(accounts, program_id),
        MetalityGameContractInstruction::UserBExitGame => user_b_exit_game_outcome(accounts, program_id),
    }
}

/// The outcome of an invocation: decode the opcode, then run its transition.
pub open spec fn invocation_outcome(program_id: Identity, accounts: Seq<AccountRef>, instruction_data: Seq<u8>) -> Result<
    Seq<Effect>,
    MetalityGameContractError,
> {
    match decoded_instruction(instruction_data) {
        Err(e) => Err(e),
        Ok(ins) => transition_outcome(ins, accounts, program_id),
    }
}

/// The transition processor.
pub struct Processor;

impl Processor {
    /// Party B stakes an asset on a game that awaits an opponent.
    pub fn process_join_game(accounts: &[AccountRef], program_id: &Identity) -> (r: Result<
        Vec<Effect>,
        MetalityGameContractError,
    >)
        ensures
            effects_view(r) == join_game_outcome(accounts@, *program_id),
    {
        if accounts.len() < 6 {
            return Err(MetalityGameContractError::NotEnoughAccountKeys);
        }
        let user_b = &accounts[0];
        let nft_ata = &accounts[1];
        let nft_mint = &accounts[2];
        let pda_account = &accounts[3];
        let game_state_account = &accounts[4];
        let pda = match find_program_address(AUTHORITY_SEED, &game_state_account.key, program_id) {
            Some((pda, _bump)) => pda,
            None => return Err(MetalityGameContractError::InvalidSeeds),
        };
        let mut st = MetalityGameContractState::unpack_unchecked(game_state_account.data.as_slice())?;
        Validator::validate_is_signer(user_b)?;
        Validator::validate_state_account(game_state_account, *program_id)?;
        Validator::validate_bool(st.is_initialized, true)?;
        Validator::validate_bool(st.user_b_joined, false)?;
        Validator::validate_bool(st.expired, false)?;
        Validator::validate_bool(st.game_started, false)?;
        Validator::validate_token_owner(nft_ata, user_b)?;
        Validator::validate_token_ata(nft_ata, nft_mint)?;
        Validator::validate_equality(pda_account.key, pda)?;
        Validator::validate_equality(pda_account.key, st.pda_account)?;
        Validator::validate_same_resource(st.user_a, user_b.key)?;
        Validator::validate_same_resource(st.a_nft_ata, nft_ata.key)?;
        Validator::validate_same_resource(st.a_nft_mint, nft_mint.key)?;

        let mut effects: Vec<Effect> = Vec::new();
        effects.push(
            Effect::SetCustodyOwner {
                custody: nft_ata.key,
                owner: user_b.key,
                new_owner: pda_account.key,
            },
        );
        let ghost old_st = st;
        st.user_b = user_b.key;
        st.b_nft_ata = nft_ata.key;
        st.b_nft_mint = nft_mint.key;
        st.user_b_joined = true;
        assert(st == MetalityGameContractState {
            user_b: user_b.key,
            b_nft_ata: nft_ata.key,
            b_nft_mint: nft_mint.key,
            user_b_joined: true,
            ..old_st
        });
        effects.push(Effect::WriteGameState { account: game_state_account.key, record: st });
        assert(effects@ =~= seq![effects@[0], effects@[1]]);
        Ok(effects)
    }

    /// The single entry point: decodes the opcode and runs the selected
    /// transition.
    pub fn unpack_and_process_instruction(
        program_id: &Identity,
        accounts: &[AccountRef],
        instruction_data: &[u8],
    ) -> (r: Result<Vec<Effect>, MetalityGameContractError>)
        ensures
            effects_view(r) == invocation_outcome(*program_id, accounts@, instruction_data@),
    {
        match MetalityGameContractInstruction::unpack_instruction_data(instruction_data)? {
            MetalityGameContractInstruction::InitializeGameProgramData => {
                Self::process_initialize_game_program_data(accounts, program_id)
            },
            MetalityGameContractInstruction::InitializeGame => {
                Self::process_initialize_game(accounts, program_id)
            },
            MetalityGameContractInstruction::CancelGame => Self::process_cancel_game(accounts, program_id),
            MetalityGameContractInstruction::JoinGame => Self::process_join_game(accounts, program_id),
            MetalityGameContractInstruction::TransferReward => {
                Self::process_transfer_reward(accounts, program_id)
            },
            MetalityGameContractInstruction::DrawOrCancelGame => {
                Self::process_draw_or_cancel_game(accounts, program_id)
            },
            MetalityGameContractInstruction::SetGameStarted => {
                Self::process_set_game_started(accounts, program_id)
            },
            MetalityGameContractInstruction::UserBExitGame => {
                Self::process_user_b_exit_game(accounts, program_id)
            },
        }
    }

    /// Bootstraps the sequence counter; arbiter only, and only once.
    pub fn process_initialize_game_program_data(accounts: &[AccountRef], program_id: &Identity) -> (r: Result<
        Vec<Effect>,
        MetalityGameContractError,
    >)
        ensures
            effects_view(r) == initialize_game_program_data_outcome(accounts@, *program_id),
    {
        if accounts.len() < 3 {
            return Err(MetalityGameContractError::NotEnoughAccountKeys);
        }
        let admin_account = &accounts[0];
        let game_program_data_account = &accounts[1];
        Validator::validate_admin(admin_account)?;
        if !game_program_data_account.data_is_empty() {
            return Err(MetalityGameContractError::AlreadyInitialized);
        }
        let mut effects: Vec<Effect> = Vec::new();
        effects.push(
            Effect::CreateAccountWithSeed {
                payer: admin_account.key,
                account: game_program_data_account.key,
                seed: AccountSeed::ProgramData,
                space: PROGRAM_DATA_STATE_LEN as u64,
                owner: *program_id,
            },
        );
        effects.push(
            Effect::WriteProgramData {
                account: game_program_data_account.key,
                counter: MetalityGameProgramDataState { is_initialized: true, index: 0 },
            },
        );
        assert(effects@ =~= seq![effects@[0], effects@[1]]);
        Ok(effects)
    }

    /// Party A opens a game, staking one asset; the counter advances by one.
    pub fn process_initialize_game(accounts: &[AccountRef], program_id: &Identity) -> (r: Result<
        Vec<Effect>,
        MetalityGameContractError,
    >)
        ensures
            effects_view(r) == initialize_game_outcome(accounts@, *program_id),
    {
        if accounts.len() < 8 {
            return Err(MetalityGameContractError::NotEnoughAccountKeys);
        }
        let user_a = &accounts[0];
        let nft_ata = &accounts[1];
        let nft_mint = &accounts[2];
        let pda_account = &accounts[3];
        let game_state_account = &accounts[4];
        let game_program_data_account = &accounts[5];
        let counter = MetalityGameProgramDataState::unpack_unchecked(
            game_program_data_account.data.as_slice(),
        )?;
        let pda = match find_program_address(AUTHORITY_SEED, &game_state_account.key, program_id) {
            Some((pda, _bump)) => pda,
            None => return Err(MetalityGameContractError::InvalidSeeds),
        };
        Validator::validate_is_signer(user_a)?;
        Validator::validate_token_owner(nft_ata, user_a)?;
        Validator::validate_token_ata(nft_ata, nft_mint)?;
        Validator::validate_equality(pda_account.key, pda)?;
        Validator::validate_state_account(game_program_data_account, *program_id)?;
        if !game_state_account.data_is_empty() {
            return Err(MetalityGameContractError::AlreadyInitialized);
        }
        if counter.index == u64::MAX {
            return Err(MetalityGameContractError::ArithmeticOverflow);
        }
        let zero: Identity = [0u8; 32];
        let record = MetalityGameContractState {
            is_initialized: true,
            user_a: user_a.key,
            a_nft_ata: nft_ata.key,
            a_nft_mint: nft_mint.key,
            user_b: zero,
            user_b_joined: false,
            b_nft_ata: zero,
            b_nft_mint: zero,
            pda_account: pda_account.key,
            expired: false,
            game_started: false,
        };
        let mut effects: Vec<Effect> = Vec::new();
        effects.push(
            Effect::CreateAccountWithSeed {
                payer: user_a.key,
                account: game_state_account.key,
                seed: AccountSeed::GameState(counter.index),
                space: GAME_STATE_LEN as u64,
                owner: *program_id,
            },
        );
        effects.push(
            Effect::SetCustodyOwner {
                custody: nft_ata.key,
                owner: user_a.key,
                new_owner: pda_account.key,
            },
        );
        effects.push(Effect::WriteGameState { account: game_state_account.key, record });
        effects.push(
            Effect::WriteProgramData {
                account: game_program_data_account.key,
                counter: MetalityGameProgramDataState {
                    is_initialized: counter.is_initialized,
                    index: counter.index + 1,
                },
            },
        );
        assert(effects@ =~= seq![effects@[0], effects@[1], effects@[2], effects@[3]]);
        Ok(effects)
    }

    /// Party A calls off a game that has not started; every stake goes back.
    pub fn process_cancel_game(accounts: &[AccountRef], program_id: &Identity) -> (r: Result<
        Vec<Effect>,
        MetalityGameContractError,
    >)
        ensures
            effects_view(r) == cancel_game_outcome(accounts@, *program_id),
    {
        if accounts.len() < 9 {
            return Err(MetalityGameContractError::NotEnoughAccountKeys);
        }
        let user_a = &accounts[0];
        let a_nft_ata = &accounts[1];
        let a_nft_mint = &accounts[2];
        let user_b = &accounts[3];
        let b_nft_ata = &accounts[4];
        let b_nft_mint = &accounts[5];
        let pda_account = &accounts[6];
        let game_state_account = &accounts[7];
        let (pda, bump) = match find_program_address(AUTHORITY_SEED, &game_state_account.key, program_id) {
            Some(found) => found,
            None => return Err(MetalityGameContractError::InvalidSeeds),
        };
        let st = MetalityGameContractState::unpack_unchecked(game_state_account.data.as_slice())?;
        Validator::validate_is_signer(user_a)?;
        Validator::validate_state_account(game_state_account, *program_id)?;
        Validator::validate_bool(st.is_initialized, true)?;
        Validator::validate_bool(st.expired, false)?;
        Validator::validate_bool(st.game_started, false)?;
        Validator::validate_equality(st.user_a, user_a.key)?;
        Validator::validate_equality(pda_account.key, pda)?;
        Validator::validate_equality(pda, st.pda_account)?;
        Validator::validate_equality(a_nft_ata.key, st.a_nft_ata)?;
        Validator::validate_equality(a_nft_mint.key, st.a_nft_mint)?;
        Validator::validate_token_ata(a_nft_ata, a_nft_mint)?;
        Validator::validate_token_owner(a_nft_ata, pda_account)?;
        if st.user_b_joined {
            Validator::validate_equality(st.user_b, user_b.key)?;
            Validator::validate_equality(b_nft_ata.key, st.b_nft_ata)?;
            Validator::validate_equality(b_nft_mint.key, st.b_nft_mint)?;
            Validator::validate_token_ata(b_nft_ata, b_nft_mint)?;
            Validator::validate_token_owner(b_nft_ata, pda_account)?;
        }
        let signer = AuthoritySigner {
            authority: pda_account.key,
            game_state: game_state_account.key,
            bump,
        };
        Ok(refund(&st, user_a.key, a_nft_ata.key, user_b.key, b_nft_ata.key, game_state_account.key, signer))
    }

    /// The arbiter calls off a game that has not expired, started or not;
    /// every stake goes back.
    pub fn process_draw_or_cancel_game(accounts: &[AccountRef], program_id: &Identity) -> (r: Result<
        Vec<Effect>,
        MetalityGameContractError,
    >)
        ensures
            effects_view(r) == draw_or_cancel_game_outcome(accounts@, *program_id),
    {
        if accounts.len() < 10 {
            return Err(MetalityGameContractError::NotEnoughAccountKeys);
        }
        let admin = &accounts[0];
        let user_a = &accounts[1];
        let user_b = &accounts[2];
        let a_nft_ata = &accounts[3];
        let a_nft_mint = &accounts[4];
        let b_nft_ata = &accounts[5];
        let b_nft_mint = &accounts[6];
        let pda_account = &accounts[7];
        let game_state_account = &accounts[8];
        let (pda, bump) = match find_program_address(AUTHORITY_SEED, &game_state_account.key, program_id) {
            Some(found) => found,
            None => return Err(MetalityGameContractError::InvalidSeeds),
        };
        let st = MetalityGameContractState::unpack_unchecked(game_state_account.data.as_slice())?;
        Validator::validate_admin(admin)?;
        Validator::validate_state_account(game_state_account, *program_id)?;
        Validator::validate_bool(st.is_initialized, true)?;
        Validator::validate_bool(st.expired, false)?;
        Validator::validate_token_owner(a_nft_ata, pda_account)?;
        Validator::validate_token_ata(a_nft_ata, a_nft_mint)?;
        Validator::validate_equality(user_a.key, st.user_a)?;
        Validator::validate_equality(a_nft_ata.key, st.a_nft_ata)?;
        Validator::validate_equality(a_nft_mint.key, st.a_nft_mint)?;
        Validator::validate_equality(pda_account.key, pda)?;
        Validator::validate_equality(pda_account.key, st.pda_account)?;
        if st.user_b_joined {
            Validator::validate_token_owner(b_nft_ata, pda_account)?;
            Validator::validate_token_ata(b_nft_ata, b_nft_mint)?;
            Validator::validate_equality(user_b.key, st.user_b)?;
            Validator::validate_equality(b_nft_ata.key, st.b_nft_ata)?;
            Validator::validate_equality(b_nft_mint.key, st.b_nft_mint)?;
        }
        let signer = AuthoritySigner {
            authority: pda_account.key,
            game_state: game_state_account.key,
            bump,
        };
        Ok(refund(&st, user_a.key, a_nft_ata.key, user_b.key, b_nft_ata.key, game_state_account.key, signer))
    }

    /// The arbiter starts a game whose two stakes are in custody.
    pub fn process_set_game_started(accounts: &[AccountRef], program_id: &Identity) -> (r: Result<
        Vec<Effect>,
        MetalityGameContractError,
    >)
        ensures
            effects_view(r) == set_game_started_outcome(accounts@, *program_id),
    {
        if accounts.len() < 9 {
            return Err(MetalityGameContractError::NotEnoughAccountKeys);
        }
        let admin = &accounts[0];
        let user_a = &accounts[1];
        let user_b = &accounts[2];
        let a_nft_ata = &accounts[3];
        let a_nft_mint = &accounts[4];
        let b_nft_ata = &accounts[5];
        let b_nft_mint = &accounts[6];
        let pda_account = &accounts[7];
        let game_state_account = &accounts[8];
        let pda = match find_program_address(AUTHORITY_SEED, &game_state_account.key, program_id) {
            Some((pda, _bump)) => pda,
            None => return Err(MetalityGameContractError::InvalidSeeds),
        };
        let mut st = MetalityGameContractState::unpack_unchecked(game_state_account.data.as_slice())?;
        Validator::validate_admin(admin)?;
        Validator::validate_state_account(game_state_account, *program_id)?;
        Validator::validate_bool(st.is_initialized, true)?;
        Validator::validate_bool(st.user_b_joined, true)?;
        Validator::validate_bool(st.expired, false)?;
        Validator::validate_bool(st.game_started, false)?;
        Validator::validate_equality(user_a.key, st.user_a)?;
        Validator::validate_equality(user_b.key, st.user_b)?;
        Validator::validate_equality(a_nft_ata.key, st.a_nft_ata)?;
        Validator::validate_equality(a_nft_mint.key, st.a_nft_mint)?;
        Validator::validate_equality(b_nft_ata.key, st.b_nft_ata)?;
        Validator::validate_equality(b_nft_mint.key, st.b_nft_mint)?;
        Validator::validate_equality(pda_account.key, pda)?;
        Validator::validate_token_owner(a_nft_ata, pda_account)?;
        Validator::validate_token_owner(b_nft_ata, pda_account)?;
        Validator::validate_token_ata(a_nft_ata, a_nft_mint)?;
        Validator::validate_token_ata(b_nft_ata, b_nft_mint)?;
        st.game_started = true;
        let mut effects: Vec<Effect> = Vec::new();
        effects.push(Effect::WriteGameState { account: game_state_account.key, record: st });
        assert(effects@ =~= seq![effects@[0]]);
        Ok(effects)
    }

    /// Party B leaves a game that has not started; B's stake goes back and
    /// the game awaits an opponent again.
    pub fn process_user_b_exit_game(accounts: &[AccountRef], program_id: &Identity) -> (r: Result<
        Vec<Effect>,
        MetalityGameContractError,
    >)
        ensures
            effects_view(r) == user_b_exit_game_outcome(accounts@, *program_id),
    {
        if accounts.len() < 6 {
            return Err(MetalityGameContractError::NotEnoughAccountKeys);
        }
        let user_b = &accounts[0];
        let b_nft_ata = &accounts[1];
        let b_nft_mint = &accounts[2];
        let pda_account = &accounts[3];
        let game_state_account = &accounts[4];
        let (pda, bump) = match find_program_address(AUTHORITY_SEED, &game_state_account.key, program_id) {
            Some(found) => found,
            None => return Err(MetalityGameContractError::InvalidSeeds),
        };
        let mut st = MetalityGameContractState::unpack_unchecked(game_state_account.data.as_slice())?;
        Validator::validate_is_signer(user_b)?;
        Validator::validate_state_account(game_state_account, *program_id)?;
        Validator::validate_bool(st.is_initialized, true)?;
        Validator::validate_bool(st.user_b_joined, true)?;
        Validator::validate_bool(st.expired, false)?;
        Validator::validate_bool(st.game_started, false)?;
        Validator::validate_equality(user_b.key, st.user_b)?;
        Validator::validate_equality(b_nft_ata.key, st.b_nft_ata)?;
        Validator::validate_equality(b_nft_mint.key, st.b_nft_mint)?;
        Validator::validate_equality(pda_account.key, pda)?;
        Validator::validate_token_owner(b_nft_ata, pda_account)?;
        Validator::validate_token_ata(b_nft_ata, b_nft_mint)?;
        let mut effects: Vec<Effect> = Vec::new();
        effects.push(
            Effect::ReleaseCustody {
                custody: b_nft_ata.key,
                new_owner: user_b.key,
                signer: AuthoritySigner {
                    authority: pda_account.key,
                    game_state: game_state_account.key,
                    bump,
                },
            },
        );
        let zero: Identity = [0u8; 32];
        st.user_b_joined = false;
        st.user_b = zero;
        st.b_nft_ata = zero;
        st.b_nft_mint = zero;
        effects.push(Effect::WriteGameState { account: game_state_account.key, record: st });
        assert(effects@ =~= seq![effects@[0], effects@[1]]);
        Ok(effects)
    }

    /// The arbiter settles a started game in favour of one recorded party.
    pub fn process_transfer_reward(accounts: &[AccountRef], program_id: &Identity) -> (r: Result<
        Vec<Effect>,
        MetalityGameContractError,
    >)
        ensures
            effects_view(r) == transfer_reward_outcome(accounts@, *program_id),
    {
        if accounts.len() < 14 {
            return Err(MetalityGameContractError::NotEnoughAccountKeys);
        }
        let admin = &accounts[0];
        let winner = &accounts[1];
        let loser = &accounts[2];
        let won_nft = &accounts[3];
        let won_nft_mint = &accounts[4];
        let owned_nft = &accounts[5];
        let owned_nft_mint = &accounts[6];
        let winner_won_nft_ata = &accounts[7];
        let pda_account = &accounts[8];
        let game_state_account = &accounts[9];
        let (pda, bump) = match find_program_address(AUTHORITY_SEED, &game_state_account.key, program_id) {
            Some(found) => found,
            None => return Err(MetalityGameContractError::InvalidSeeds),
        };
        let mut st = MetalityGameContractState::unpack_unchecked(game_state_account.data.as_slice())?;
        Validator::validate_admin(admin)?;
        Validator::validate_state_account(game_state_account, *program_id)?;
        Validator::validate_winner(st, winner.key)?;
        Validator::validate_bool(st.is_initialized, true)?;
        Validator::validate_bool(st.user_b_joined, true)?;
        Validator::validate_bool(st.expired, false)?;
        Validator::validate_bool(st.game_started, true)?;
        Validator::validate_token_owner(won_nft, pda_account)?;
        Validator::validate_token_owner(owned_nft, pda_account)?;
        Validator::validate_token_ata(won_nft, won_nft_mint)?;
        Validator::validate_token_ata(owned_nft, owned_nft_mint)?;
        Validator::validate_equality(pda_account.key, pda)?;
        Validator::validate_equality(pda_account.key, st.pda_account)?;
        match associated_token_address(&winner.key, &won_nft_mint.key) {
            Some(winner_won_nft_ata_key) => {
                Validator::validate_equality(winner_won_nft_ata_key, winner_won_nft_ata.key)?;
            },
            None => return Err(MetalityGameContractError::InvalidSeeds),
        }
        let winner_is_a = identities_equal(&st.user_a, &winner.key);
        let (loser_key, winner_stake, loser_stake) = if winner_is_a {
            (st.user_b, st.a_nft_ata, st.b_nft_ata)
        } else {
            (st.user_a, st.b_nft_ata, st.a_nft_ata)
        };
        Validator::validate_equality(loser.key, loser_key)?;
        Validator::validate_equality(owned_nft.key, winner_stake)?;
        Validator::validate_equality(won_nft.key, loser_stake)?;

        let signer = AuthoritySigner {
            authority: pda_account.key,
            game_state: game_state_account.key,
            bump,
        };
        let mut effects: Vec<Effect> = Vec::new();
        if winner_won_nft_ata.data_is_empty() {
            effects.push(
                Effect::CreateAssociatedAccount {
                    payer: admin.key,
                    wallet: winner.key,
                    mint: won_nft_mint.key,
                },
            );
        }
        let ghost created = effects@;
        effects.push(Effect::ReleaseCustody { custody: owned_nft.key, new_owner: loser.key, signer });
        effects.push(Effect::TransferUnit { from: won_nft.key, to: winner_won_nft_ata.key, signer });
        effects.push(Effect::ReleaseCustody { custody: won_nft.key, new_owner: loser.key, signer });
        let ghost old_st = st;
        st.expired = true;
        effects.push(Effect::WriteGameState { account: game_state_account.key, record: st });
        assert(effects@ =~= created + seq![
            Effect::ReleaseCustody { custody: owned_nft.key, new_owner: loser.key, signer },
            Effect::TransferUnit { from: won_nft.key, to: winner_won_nft_ata.key, signer },
            Effect::ReleaseCustody { custody: won_nft.key, new_owner: loser.key, signer },
            Effect::WriteGameState {
                account: game_state_account.key,
                record: MetalityGameContractState { expired: true, ..old_st },
            },
        ]);
        Ok(effects)
    }
}

/// The effects of calling off a game, built in order.
fn refund(
    st: &MetalityGameContractState,
    user_a: Identity,
    a_nft_ata: Identity,
    user_b: Identity,
    b_nft_ata: Identity,
    game_state: Identity,
    signer: AuthoritySigner,
) -> (r: Vec<Effect>)
    ensures
        r@ == refund_effects(*st, user_a, a_nft_ata, user_b, b_nft_ata, game_state, signer),
{
    let mut effects: Vec<Effect> = Vec::new();
    effects.push(Effect::ReleaseCustody { custody: a_nft_ata, new_owner: user_a, signer });
    if st.user_b_joined {
        effects.push(Effect::ReleaseCustody { custody: b_nft_ata, new_owner: user_b, signer });
    }
    let mut record = *st;
    record.expired = true;
    effects.push(Effect::WriteGameState { account: game_state, record });
    assert(effects@ =~= refund_effects(*st, user_a, a_nft_ata, user_b, b_nft_ata, game_state, signer));
    effects
}

} // verus!
