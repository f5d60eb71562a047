use metality_game_contract::account::AccountRef;
use metality_game_contract::effect::{AccountSeed, AuthoritySigner, Effect};
use metality_game_contract::error::MetalityGameContractError;
use metality_game_contract::identity::Identity;
use metality_game_contract::processor::Processor;
use metality_game_contract::state::{MetalityGameContractState, MetalityGameProgramDataState};
use metality_game_contract::validations::ADMIN_ID;
use solana_program::program_pack::Pack;
use solana_program::pubkey::Pubkey;
use spl_token::state::{Account as TokenAccount, AccountState, Mint};

const PROGRAM: Identity = [200; 32];
const USER_A: Identity = [1; 32];
const A_ATA: Identity = [2; 32];
const ASSET_X: Identity = [3; 32];
const USER_B: Identity = [4; 32];
const B_ATA: Identity = [5; 32];
const ASSET_Y: Identity = [6; 32];
const COUNTER: Identity = [8; 32];
const GAME: Identity = [9; 32];

fn authority(game: Identity) -> (Identity, u8) {
    let (pda, bump) = Pubkey::find_program_address(
        &[b"metality_game_contract", &game],
        &Pubkey::new_from_array(PROGRAM),
    );
    (pda.to_bytes(), bump)
}

fn custody(key: Identity, mint: Identity, owner: Identity) -> AccountRef {
    let mut account = TokenAccount::default();
    account.state = AccountState::Initialized;
    account.mint = Pubkey::new_from_array(mint);
    account.owner = Pubkey::new_from_array(owner);
    account.amount = 1;
    let mut data = vec![0u8; TokenAccount::LEN];
    TokenAccount::pack(account, &mut data).unwrap();
    AccountRef::new(key, false, spl_token::id().to_bytes(), data)
}

fn asset(key: Identity) -> AccountRef {
    let mut mint = Mint::default();
    mint.is_initialized = true;
    mint.decimals = 0;
    mint.supply = 1;
    let mut data = vec![0u8; Mint::LEN];
    Mint::pack(mint, &mut data).unwrap();
    AccountRef::new(key, false, spl_token::id().to_bytes(), data)
}

fn wallet(key: Identity, is_signer: bool) -> AccountRef {
    AccountRef::new(key, is_signer, solana_program::system_program::id().to_bytes(), vec![])
}

fn program_account(key: Identity) -> AccountRef {
    AccountRef::new(key, false, [0; 32], vec![])
}

fn counter_account(index: u64) -> AccountRef {
    let counter = MetalityGameProgramDataState { is_initialized: true, index };
    AccountRef::new(COUNTER, false, PROGRAM, counter.to_bytes())
}

fn game_account(record: &MetalityGameContractState) -> AccountRef {
    AccountRef::new(GAME, false, PROGRAM, record.to_bytes())
}

fn fresh_record() -> MetalityGameContractState {
    MetalityGameContractState {
        is_initialized: true,
        user_a: USER_A,
        a_nft_ata: A_ATA,
        a_nft_mint: ASSET_X,
        user_b: [0; 32],
        user_b_joined: false,
        b_nft_ata: [0; 32],
        b_nft_mint: [0; 32],
        pda_account: authority(GAME).0,
        expired: false,
        game_started: false,
    }
}

fn joined_record() -> MetalityGameContractState {
    MetalityGameContractState {
        user_b: USER_B,
        user_b_joined: true,
        b_nft_ata: B_ATA,
        b_nft_mint: ASSET_Y,
        ..fresh_record()
    }
}

fn started_record() -> MetalityGameContractState {
    MetalityGameContractState { game_started: true, ..joined_record() }
}

fn initialize_accounts(game: Identity, index: u64) -> Vec<AccountRef> {
    vec![
        wallet(USER_A, true),
        custody(A_ATA, ASSET_X, USER_A),
        asset(ASSET_X),
        wallet(authority(game).0, false),
        AccountRef::new(game, true, solana_program::system_program::id().to_bytes(), vec![]),
        counter_account(index),
        program_account(spl_token::id().to_bytes()),
        program_account(solana_program::system_program::id().to_bytes()),
    ]
}

fn join_accounts(record: &MetalityGameContractState, user_b: Identity, b_ata: Identity, asset_y: Identity) -> Vec<AccountRef> {
    vec![
        wallet(user_b, true),
        custody(b_ata, asset_y, user_b),
        asset(asset_y),
        wallet(authority(GAME).0, false),
        game_account(record),
        program_account(spl_token::id().to_bytes()),
    ]
}

fn cancel_accounts(record: &MetalityGameContractState) -> Vec<AccountRef> {
    let pda = authority(GAME).0;
    vec![
        wallet(USER_A, true),
        custody(A_ATA, ASSET_X, pda),
        asset(ASSET_X),
        wallet(USER_B, false),
        custody(B_ATA, ASSET_Y, pda),
        asset(ASSET_Y),
        wallet(pda, false),
        game_account(record),
        program_account(spl_token::id().to_bytes()),
    ]
}

fn arbiter_accounts(record: &MetalityGameContractState) -> Vec<AccountRef> {
    let pda = authority(GAME).0;
    vec![
        wallet(ADMIN_ID, true),
        wallet(USER_A, false),
        wallet(USER_B, false),
        custody(A_ATA, ASSET_X, pda),
        asset(ASSET_X),
        custody(B_ATA, ASSET_Y, pda),
        asset(ASSET_Y),
        wallet(pda, false),
        game_account(record),
        program_account(spl_token::id().to_bytes()),
    ]
}

fn exit_accounts(record: &MetalityGameContractState) -> Vec<AccountRef> {
    let pda = authority(GAME).0;
    vec![
        wallet(USER_B, true),
        custody(B_ATA, ASSET_Y, pda),
        asset(ASSET_Y),
        wallet(pda, false),
        game_account(record),
        program_account(spl_token::id().to_bytes()),
    ]
}

fn winner_ata(winner: Identity, mint: Identity) -> Identity {
    spl_associated_token_account::get_associated_token_address(
        &Pubkey::new_from_array(winner),
        &Pubkey::new_from_array(mint),
    )
    .to_bytes()
}

fn settle_accounts(record: &MetalityGameContractState, winner_is_a: bool) -> Vec<AccountRef> {
    let pda = authority(GAME).0;
    let (winner, loser, won, won_mint, owned, owned_mint) = if winner_is_a {
        (USER_A, USER_B, B_ATA, ASSET_Y, A_ATA, ASSET_X)
    } else {
        (USER_B, USER_A, A_ATA, ASSET_X, B_ATA, ASSET_Y)
    };
    vec![
        wallet(ADMIN_ID, true),
        wallet(winner, false),
        wallet(loser, false),
        custody(won, won_mint, pda),
        asset(won_mint),
        custody(owned, owned_mint, pda),
        asset(owned_mint),
        AccountRef::new(winner_ata(winner, won_mint), false, [0; 32], vec![]),
        wallet(pda, false),
        game_account(record),
        program_account(solana_program::system_program::id().to_bytes()),
        program_account(spl_token::id().to_bytes()),
        program_account(solana_program::sysvar::rent::id().to_bytes()),
        program_account(spl_associated_token_account::id().to_bytes()),
    ]
}

fn signer() -> AuthoritySigner {
    let (pda, bump) = authority(GAME);
    AuthoritySigner { authority: pda, game_state: GAME, bump }
}

fn written_record(effects: &[Effect]) -> MetalityGameContractState {
    match effects.last() {
        Some(Effect::WriteGameState { record, .. }) => *record,
        other => panic!("last effect is not a record write: {:?}", other),
    }
}

fn written_counter(effects: &[Effect]) -> MetalityGameProgramDataState {
    for effect in effects {
        if let Effect::WriteProgramData { counter, .. } = effect {
            return *counter;
        }
    }
    panic!("no counter write")
}

#[test]
fn bootstrap_creates_counter_at_zero() {
    let accounts = vec![
        wallet(ADMIN_ID, true),
        AccountRef::new(COUNTER, false, [0; 32], vec![]),
        program_account(solana_program::system_program::id().to_bytes()),
    ];
    let effects = Processor::process_initialize_game_program_data(&accounts, &PROGRAM).unwrap();
    assert_eq!(
        effects,
        vec![
            Effect::CreateAccountWithSeed {
                payer: ADMIN_ID,
                account: COUNTER,
                seed: AccountSeed::ProgramData,
                space: 9,
                owner: PROGRAM,
            },
            Effect::WriteProgramData {
                account: COUNTER,
                counter: MetalityGameProgramDataState { is_initialized: true, index: 0 },
            },
        ]
    );
}

#[test]
fn bootstrap_requires_arbiter_and_fresh_slot() {
    let mut accounts = vec![
        wallet([7; 32], true),
        AccountRef::new(COUNTER, false, [0; 32], vec![]),
        program_account(solana_program::system_program::id().to_bytes()),
    ];
    assert_eq!(
        Processor::process_initialize_game_program_data(&accounts, &PROGRAM),
        Err(MetalityGameContractError::NotAdmin)
    );
    accounts[0] = wallet(ADMIN_ID, true);
    accounts[1] = counter_account(3);
    assert_eq!(
        Processor::process_initialize_game_program_data(&accounts, &PROGRAM),
        Err(MetalityGameContractError::AlreadyInitialized)
    );
    assert_eq!(
        Processor::process_initialize_game_program_data(&accounts[..2], &PROGRAM),
        Err(MetalityGameContractError::NotEnoughAccountKeys)
    );
}

#[test]
fn initialize_game_records_party_a_and_advances_counter() {
    let accounts = initialize_accounts(GAME, 0);
    let effects = Processor::process_initialize_game(&accounts, &PROGRAM).unwrap();
    let pda = authority(GAME).0;
    assert_eq!(
        effects,
        vec![
            Effect::CreateAccountWithSeed {
                payer: USER_A,
                account: GAME,
                seed: AccountSeed::GameState(0),
                space: 228,
                owner: PROGRAM,
            },
            Effect::SetCustodyOwner { custody: A_ATA, owner: USER_A, new_owner: pda },
            Effect::WriteGameState { account: GAME, record: fresh_record() },
            Effect::WriteProgramData {
                account: COUNTER,
                counter: MetalityGameProgramDataState { is_initialized: true, index: 1 },
            },
        ]
    );
    let record = match effects[2] {
        Effect::WriteGameState { record, .. } => record,
        _ => unreachable!(),
    };
    assert!(record.is_initialized);
    assert_eq!(record.user_a, USER_A);
    assert_eq!(record.a_nft_mint, ASSET_X);
    assert!(!record.user_b_joined);
}

#[test]
fn initialize_game_rejects_bad_authority_and_owner() {
    let mut accounts = initialize_accounts(GAME, 0);
    accounts[3] = wallet([77; 32], false);
    assert_eq!(
        Processor::process_initialize_game(&accounts, &PROGRAM),
        Err(MetalityGameContractError::EqualityMismatch)
    );
    let mut accounts = initialize_accounts(GAME, 0);
    accounts[1] = custody(A_ATA, ASSET_X, USER_B);
    assert_eq!(
        Processor::process_initialize_game(&accounts, &PROGRAM),
        Err(MetalityGameContractError::IncorrectATAOwner)
    );
    let mut accounts = initialize_accounts(GAME, 0);
    accounts[0] = wallet(USER_A, false);
    assert_eq!(
        Processor::process_initialize_game(&accounts, &PROGRAM),
        Err(MetalityGameContractError::UserNotSigner)
    );
    let mut accounts = initialize_accounts(GAME, 0);
    accounts[4] = game_account(&fresh_record());
    assert_eq!(
        Processor::process_initialize_game(&accounts, &PROGRAM),
        Err(MetalityGameContractError::AlreadyInitialized)
    );
    let mut accounts = initialize_accounts(GAME, 0);
    accounts[5].owner = [13; 32];
    assert_eq!(
        Processor::process_initialize_game(&accounts, &PROGRAM),
        Err(MetalityGameContractError::InvalidStateAccount)
    );
}

#[test]
fn initialize_game_refuses_to_wrap_the_counter() {
    let accounts = initialize_accounts(GAME, u64::MAX);
    assert_eq!(
        Processor::process_initialize_game(&accounts, &PROGRAM),
        Err(MetalityGameContractError::ArithmeticOverflow)
    );
}

#[test]
fn counter_counts_initializations_across_cancellations() {
    let mut index = 0u64;
    for round in 0..3u8 {
        let game = [100 + round; 32];
        let effects = Processor::process_initialize_game(&initialize_accounts(game, index), &PROGRAM).unwrap();
        index = written_counter(&effects).index;
        let effects = Processor::process_cancel_game(&cancel_accounts(&fresh_record()), &PROGRAM).unwrap();
        assert!(effects.iter().all(|e| !matches!(e, Effect::WriteProgramData { .. })));
    }
    assert_eq!(index, 3);
}

#[test]
fn join_records_party_b_and_makes_game_ready() {
    let accounts = join_accounts(&fresh_record(), USER_B, B_ATA, ASSET_Y);
    let effects = Processor::process_join_game(&accounts, &PROGRAM).unwrap();
    assert_eq!(
        effects,
        vec![
            Effect::SetCustodyOwner { custody: B_ATA, owner: USER_B, new_owner: authority(GAME).0 },
            Effect::WriteGameState { account: GAME, record: joined_record() },
        ]
    );
    let record = written_record(&effects);
    assert!(record.user_b_joined);
    assert_eq!(record.user_b, USER_B);
    assert_eq!(record.b_nft_mint, ASSET_Y);
    assert!(record.is_initialized && !record.game_started && !record.expired);
}

#[test]
fn join_on_ready_started_or_expired_fails() {
    let expired = MetalityGameContractState { expired: true, ..fresh_record() };
    for record in [joined_record(), started_record(), expired] {
        let accounts = join_accounts(&record, [40; 32], [41; 32], [42; 32]);
        assert_eq!(
            Processor::process_join_game(&accounts, &PROGRAM),
            Err(MetalityGameContractError::EqualityMismatch)
        );
    }
}

#[test]
fn join_requires_distinct_parties() {
    let same_party = join_accounts(&fresh_record(), USER_A, B_ATA, ASSET_Y);
    assert_eq!(
        Processor::process_join_game(&same_party, &PROGRAM),
        Err(MetalityGameContractError::SameUserJoining)
    );
    let same_custody = join_accounts(&fresh_record(), USER_B, A_ATA, ASSET_Y);
    assert_eq!(
        Processor::process_join_game(&same_custody, &PROGRAM),
        Err(MetalityGameContractError::SameUserJoining)
    );
    let same_asset = join_accounts(&fresh_record(), USER_B, B_ATA, ASSET_X);
    assert_eq!(
        Processor::process_join_game(&same_asset, &PROGRAM),
        Err(MetalityGameContractError::SameUserJoining)
    );
}

#[test]
fn join_rejects_missing_accounts_and_foreign_records() {
    let accounts = join_accounts(&fresh_record(), USER_B, B_ATA, ASSET_Y);
    assert_eq!(
        Processor::process_join_game(&accounts[..5], &PROGRAM),
        Err(MetalityGameContractError::NotEnoughAccountKeys)
    );
    let mut foreign = join_accounts(&fresh_record(), USER_B, B_ATA, ASSET_Y);
    foreign[4].owner = [13; 32];
    assert_eq!(
        Processor::process_join_game(&foreign, &PROGRAM),
        Err(MetalityGameContractError::InvalidStateAccount)
    );
    let mut garbled = join_accounts(&fresh_record(), USER_B, B_ATA, ASSET_Y);
    garbled[4].data[129] = 5;
    assert_eq!(
        Processor::process_join_game(&garbled, &PROGRAM),
        Err(MetalityGameContractError::InvalidAccountData)
    );
}

#[test]
fn exit_returns_stake_and_clears_party_b() {
    let effects = Processor::process_user_b_exit_game(&exit_accounts(&joined_record()), &PROGRAM).unwrap();
    assert_eq!(
        effects,
        vec![
            Effect::ReleaseCustody { custody: B_ATA, new_owner: USER_B, signer: signer() },
            Effect::WriteGameState { account: GAME, record: fresh_record() },
        ]
    );
}

#[test]
fn set_started_by_arbiter() {
    let effects = Processor::process_set_game_started(&arbiter_accounts(&joined_record())[..9], &PROGRAM).unwrap();
    assert_eq!(effects, vec![Effect::WriteGameState { account: GAME, record: started_record() }]);
    let mut not_arbiter = arbiter_accounts(&joined_record());
    not_arbiter[0] = wallet(USER_A, true);
    assert_eq!(
        Processor::process_set_game_started(&not_arbiter, &PROGRAM),
        Err(MetalityGameContractError::NotAdmin)
    );
}

#[test]
fn cancel_returns_both_stakes() {
    let effects = Processor::process_cancel_game(&cancel_accounts(&joined_record()), &PROGRAM).unwrap();
    assert_eq!(
        effects,
        vec![
            Effect::ReleaseCustody { custody: A_ATA, new_owner: USER_A, signer: signer() },
            Effect::ReleaseCustody { custody: B_ATA, new_owner: USER_B, signer: signer() },
            Effect::WriteGameState {
                account: GAME,
                record: MetalityGameContractState { expired: true, ..joined_record() },
            },
        ]
    );
    let alone = Processor::process_cancel_game(&cancel_accounts(&fresh_record()), &PROGRAM).unwrap();
    assert_eq!(alone.len(), 2);
    assert!(written_record(&alone).expired);
    assert_eq!(
        Processor::process_cancel_game(&cancel_accounts(&started_record()), &PROGRAM),
        Err(MetalityGameContractError::EqualityMismatch)
    );
}

#[test]
fn arbiter_draw_returns_stakes_of_started_game() {
    let effects = Processor::process_draw_or_cancel_game(&arbiter_accounts(&started_record()), &PROGRAM).unwrap();
    assert_eq!(
        effects,
        vec![
            Effect::ReleaseCustody { custody: A_ATA, new_owner: USER_A, signer: signer() },
            Effect::ReleaseCustody { custody: B_ATA, new_owner: USER_B, signer: signer() },
            Effect::WriteGameState {
                account: GAME,
                record: MetalityGameContractState { expired: true, ..started_record() },
            },
        ]
    );
}

#[test]
fn settle_swaps_stakes_in_favour_of_a() {
    let accounts = settle_accounts(&started_record(), true);
    let ata = winner_ata(USER_A, ASSET_Y);
    let effects = Processor::process_transfer_reward(&accounts, &PROGRAM).unwrap();
    assert_eq!(
        effects,
        vec![
            Effect::CreateAssociatedAccount { payer: ADMIN_ID, wallet: USER_A, mint: ASSET_Y },
            Effect::ReleaseCustody { custody: A_ATA, new_owner: USER_B, signer: signer() },
            Effect::TransferUnit { from: B_ATA, to: ata, signer: signer() },
            Effect::ReleaseCustody { custody: B_ATA, new_owner: USER_B, signer: signer() },
            Effect::WriteGameState {
                account: GAME,
                record: MetalityGameContractState { expired: true, ..started_record() },
            },
        ]
    );
}

#[test]
fn settle_in_favour_of_b_with_existing_custody_record() {
    let mut accounts = settle_accounts(&started_record(), false);
    accounts[7] = custody(winner_ata(USER_B, ASSET_X), [0; 32], USER_B);
    let effects = Processor::process_transfer_reward(&accounts, &PROGRAM).unwrap();
    assert_eq!(effects.len(), 4);
    assert_eq!(
        effects[0],
        Effect::ReleaseCustody { custody: B_ATA, new_owner: USER_A, signer: signer() }
    );
    assert!(written_record(&effects).expired);
}

#[test]
fn settle_rejects_unknown_winner_and_wrong_loser() {
    let mut accounts = settle_accounts(&started_record(), true);
    accounts[1] = wallet([50; 32], false);
    assert_eq!(
        Processor::process_transfer_reward(&accounts, &PROGRAM),
        Err(MetalityGameContractError::InvalidWinner)
    );
    let mut accounts = settle_accounts(&started_record(), true);
    accounts[2] = wallet([51; 32], false);
    assert_eq!(
        Processor::process_transfer_reward(&accounts, &PROGRAM),
        Err(MetalityGameContractError::EqualityMismatch)
    );
    let accounts = settle_accounts(&joined_record(), true);
    assert_eq!(
        Processor::process_transfer_reward(&accounts, &PROGRAM),
        Err(MetalityGameContractError::EqualityMismatch)
    );
}

#[test]
fn expired_record_refuses_every_transition() {
    let expired = MetalityGameContractState { expired: true, ..started_record() };
    assert!(Processor::process_join_game(&join_accounts(&expired, [40; 32], [41; 32], [42; 32]), &PROGRAM).is_err());
    assert!(Processor::process_set_game_started(&arbiter_accounts(&expired), &PROGRAM).is_err());
    assert!(Processor::process_cancel_game(&cancel_accounts(&expired), &PROGRAM).is_err());
    assert!(Processor::process_draw_or_cancel_game(&arbiter_accounts(&expired), &PROGRAM).is_err());
    assert!(Processor::process_transfer_reward(&settle_accounts(&expired, true), &PROGRAM).is_err());
    assert!(Processor::process_user_b_exit_game(&exit_accounts(&expired), &PROGRAM).is_err());
}

#[test]
fn dispatcher_routes_by_opcode() {
    let accounts = join_accounts(&fresh_record(), USER_B, B_ATA, ASSET_Y);
    assert_eq!(
        Processor::unpack_and_process_instruction(&PROGRAM, &accounts, &[2]),
        Processor::process_join_game(&accounts, &PROGRAM)
    );
    assert_eq!(
        Processor::unpack_and_process_instruction(&PROGRAM, &accounts, &[9]),
        Err(MetalityGameContractError::InvalidInstruction)
    );
    assert_eq!(
        Processor::unpack_and_process_instruction(&PROGRAM, &accounts, &[]),
        Err(MetalityGameContractError::InvalidInstruction)
    );
}

#[test]
fn account_seeds_spell_their_names() {
    assert_eq!(AccountSeed::ProgramData.to_bytes(), b"Game Contract Main".to_vec());
    assert_eq!(AccountSeed::GameState(0).to_bytes(), b"Metality Game State 0".to_vec());
    assert_eq!(AccountSeed::GameState(1234).to_bytes(), b"Metality Game State 1234".to_vec());
}

#[test]
fn custom_codes_follow_declaration_order() {
    assert_eq!(MetalityGameContractError::InvalidInstruction.custom_code(), Some(0));
    assert_eq!(MetalityGameContractError::SameUserJoining.custom_code(), Some(8));
    assert_eq!(MetalityGameContractError::InvalidStateAccount.custom_code(), Some(10));
    assert_eq!(MetalityGameContractError::InvalidAccountData.custom_code(), None);
}
