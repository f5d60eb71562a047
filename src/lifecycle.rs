//! Laws of the game's lifecycle, stated over the transitions' outcomes.
use vstd::prelude::*;

use crate::account::AccountRef;
use crate::address::authority_of;
use crate::effect::Effect;
use crate::error::MetalityGameContractError;
use crate::identity::Identity;
use crate::instruction::MetalityGameContractInstruction;
use crate::processor::{
    cancel_game_outcome, draw_or_cancel_game_outcome, initialize_game_outcome,
    initialize_game_program_data_outcome, join_game_outcome, join_game_stake_checks,
    set_game_started_outcome, transfer_reward_outcome, transition_outcome,
    user_b_exit_game_outcome,
};
use crate::state::{
    decode_game_state, decode_program_data, lemma_program_data_round_trip, GamePhase,
    MetalityGameContractState, MetalityGameProgramDataState,
};
use crate::validations::{admin_check, state_account_check};

verus! {

/// No double join: Join on a record that is ready, started or expired fails,
/// so nothing is written and the record stays as it was.
pub proof fn lemma_no_double_join(accounts: Seq<AccountRef>, program_id: Identity, st: MetalityGameContractState)
    requires
        accounts.len() > 4,
        decode_game_state(accounts[4].data@) == Ok::<_, MetalityGameContractError>(st),
        st.phase() == GamePhase::Ready || st.phase() == GamePhase::Started || st.phase()
            == GamePhase::Expired,
    ensures
        join_game_outcome(accounts, program_id) is Err,
{
}

/// Distinctness: a successful Join has a party B, a custody record and an
/// asset that all differ from party A's; and when B's signature, the
/// record's phase, B's stake and the authority all check out but one of the
/// three equals A's, Join fails with `SameUserJoining`.
pub proof fn lemma_join_requires_distinct_parties(
    accounts: Seq<AccountRef>,
    program_id: Identity,
    st: MetalityGameContractState,
    pda: Seq<u8>,
    bump: u8,
)
    requires
        accounts.len() >= 6,
        decode_game_state(accounts[4].data@) == Ok::<_, MetalityGameContractError>(st),
        authority_of(accounts[4].key@, program_id@) == Some((pda, bump)),
    ensures
        join_game_outcome(accounts, program_id) is Ok ==> {
            &&& accounts[0].key@ != st.user_a@
            &&& accounts[1].key@ != st.a_nft_ata@
            &&& accounts[2].key@ != st.a_nft_mint@
        },
        join_game_stake_checks(accounts, program_id, st, pda) is Ok && (accounts[0].key@
            == st.user_a@ || accounts[1].key@ == st.a_nft_ata@ || accounts[2].key@
            == st.a_nft_mint@) ==> join_game_outcome(accounts, program_id) == Err::<
            Seq<Effect>,
            _,
        >(MetalityGameContractError::SameUserJoining),
{
}

/// Irreversible expiry: once a stored game record has expired, Join, Set
/// started, Cancel, Draw or cancel, Settle and Exit on it all fail, so it is
/// never written again; nor can a new game be initialized over it.
pub proof fn lemma_expired_is_terminal(accounts: Seq<AccountRef>, program_id: Identity, st: MetalityGameContractState)
    requires
        st.expired,
    ensures
        accounts.len() > 4 && decode_game_state(accounts[4].data@) == Ok::<_, MetalityGameContractError>(st)
            ==> {
            &&& join_game_outcome(accounts, program_id) is Err
            &&& user_b_exit_game_outcome(accounts, program_id) is Err
            &&& initialize_game_outcome(accounts, program_id) is Err
        },
        accounts.len() > 7 && decode_game_state(accounts[7].data@) == Ok::<_, MetalityGameContractError>(st)
            ==> cancel_game_outcome(accounts, program_id) is Err,
        accounts.len() > 8 && decode_game_state(accounts[8].data@) == Ok::<_, MetalityGameContractError>(st)
            ==> {
            &&& set_game_started_outcome(accounts, program_id) is Err
            &&& draw_or_cancel_game_outcome(accounts, program_id) is Err
        },
        accounts.len() > 9 && decode_game_state(accounts[9].data@) == Ok::<_, MetalityGameContractError>(st)
            ==> transfer_reward_outcome(accounts, program_id) is Err,
{
}

/// Winner validity: once the arbiter's signature and the record's storage
/// check out, Settle naming an identity that is neither recorded party fails
/// with `InvalidWinner`; a successful Settle names one of the two parties
/// and ends by writing the record back expired.
pub proof fn lemma_winner_validity(
    accounts: Seq<AccountRef>,
    program_id: Identity,
    st: MetalityGameContractState,
    pda: Seq<u8>,
    bump: u8,
)
    requires
        accounts.len() >= 14,
        decode_game_state(accounts[9].data@) == Ok::<_, MetalityGameContractError>(st),
        authority_of(accounts[9].key@, program_id@) == Some((pda, bump)),
    ensures
        admin_check(accounts[0]) is Ok && state_account_check(accounts[9], program_id) is Ok
            && accounts[1].key@ != st.user_a@ && accounts[1].key@ != st.user_b@
            ==> transfer_reward_outcome(accounts, program_id) == Err::<Seq<Effect>, _>(
            MetalityGameContractError::InvalidWinner,
        ),
        transfer_reward_outcome(accounts, program_id) is Ok ==> {
            let effects = transfer_reward_outcome(accounts, program_id)->Ok_0;
            &&& accounts[1].key@ == st.user_a@ || accounts[1].key@ == st.user_b@
            &&& effects.len() > 0
            &&& effects.last() == Effect::WriteGameState {
                account: accounts[9].key,
                record: MetalityGameContractState { expired: true, ..st },
            }
            &&& st.phase() == GamePhase::Started
        },
{
}

/// The effect stores a counter in the slot at `key`.
pub open spec fn is_counter_write(e: Effect, key: Identity) -> bool {
    match e {
        Effect::WriteProgramData { account, counter: _ } => account@ == key@,
        _ => false,
    }
}

/// The counter that a counter write stores.
pub open spec fn written_counter(e: Effect) -> MetalityGameProgramDataState {
    match e {
        Effect::WriteProgramData { account: _, counter } => counter,
        _ => MetalityGameProgramDataState { is_initialized: false, index: 0 },
    }
}

/// Storage of the counter slot at `key` goes from `before` to `after` under
/// the effects of one invocation: `after` is the counter an effect writes
/// there, if any effect does, and `before` otherwise.
pub open spec fn counter_step(
    before: MetalityGameProgramDataState,
    after: MetalityGameProgramDataState,
    key: Identity,
    effects: Seq<Effect>,
) -> bool {
    if exists|i: int| 0 <= i < effects.len() && is_counter_write(#[trigger] effects[i], key) {
        exists|i: int|
            0 <= i < effects.len() && is_counter_write(#[trigger] effects[i], key)
                && written_counter(effects[i]) == after
    } else {
        after == before
    }
}

/// The number of game initializations in a run of invocations that read
/// the counter at `key`.
pub open spec fn initializations(
    run: Seq<(MetalityGameContractInstruction, Seq<AccountRef>)>,
    key: Identity,
) -> nat
    decreases run.len(),
{
    if run.len() == 0 {
        0
    } else {
        initializations(run.drop_last(), key) + if run.last().0
            == MetalityGameContractInstruction::InitializeGame && run.last().1[5].key@ == key@ {
            1nat
        } else {
            0nat
        }
    }
}

/// A bootstrap stores a counter at index 0 in the slot it creates.
pub proof fn lemma_bootstrap_starts_at_zero(
    accounts: Seq<AccountRef>,
    program_id: Identity,
    before: MetalityGameProgramDataState,
    after: MetalityGameProgramDataState,
)
    requires
        initialize_game_program_data_outcome(accounts, program_id) is Ok,
        counter_step(
            before,
            after,
            accounts[1].key,
            initialize_game_program_data_outcome(accounts, program_id)->Ok_0,
        ),
    ensures
        after == (MetalityGameProgramDataState { is_initialized: true, index: 0 }),
{
    let es = initialize_game_program_data_outcome(accounts, program_id)->Ok_0;
    assert(is_counter_write(es[1], accounts[1].key));
}

/// How one successful invocation moves the counter at `key`: a game
/// initialization that reads it advances it by one; nothing else changes it.
proof fn lemma_counter_step(
    ins: MetalityGameContractInstruction,
    accounts: Seq<AccountRef>,
    program_id: Identity,
    key: Identity,
    before: MetalityGameProgramDataState,
    after: MetalityGameProgramDataState,
)
    requires
        transition_outcome(ins, accounts, program_id) is Ok,
        ins == MetalityGameContractInstruction::InitializeGame && accounts[5].key@ == key@
            ==> accounts[5].data@ == before.encoded(),
        ins == MetalityGameContractInstruction::InitializeGameProgramData ==> accounts[1].key@
            != key@,
        counter_step(before, after, key, transition_outcome(ins, accounts, program_id)->Ok_0),
    ensures
        after.index == before.index + if ins == MetalityGameContractInstruction::InitializeGame
            && accounts[5].key@ == key@ {
            1int
        } else {
            0int
        },
{
    let es = transition_outcome(ins, accounts, program_id)->Ok_0;
    if ins == MetalityGameContractInstruction::InitializeGame && accounts[5].key@ == key@ {
        lemma_program_data_round_trip(before);
        assert(decode_program_data(accounts[5].data@) == Ok::<_, MetalityGameContractError>(before));
        assert(is_counter_write(es[3], key));
        assert forall|i: int| 0 <= i < es.len() && is_counter_write(#[trigger] es[i], key) implies i
            == 3 by {}
    } else {
        assert forall|i: int| 0 <= i < es.len() implies !is_counter_write(#[trigger] es[i], key) by {}
    }
}

/// Monotonic counter: in a run of successful invocations that starts from
/// a counter at index 0 stored at `key`, in which each game initialization
/// that uses that slot reads the counter as currently stored, no invocation
/// bootstraps that slot again, and storage follows each invocation's
/// effects, the stored index equals the number of game initializations,
/// whatever other transitions (cancellations among them) come between.
pub proof fn lemma_counter_counts_initializations(
    program_id: Identity,
    key: Identity,
    run: Seq<(MetalityGameContractInstruction, Seq<AccountRef>)>,
    counters: Seq<MetalityGameProgramDataState>,
)
    requires
        counters.len() == run.len() + 1,
        counters[0].index == 0,
        forall|k: int|
            0 <= k < run.len() ==> (#[trigger] transition_outcome(run[k].0, run[k].1, program_id)) is Ok,
        forall|k: int|
            0 <= k < run.len() && (#[trigger] run[k]).0 == MetalityGameContractInstruction::InitializeGame
                && run[k].1[5].key@ == key@ ==> run[k].1[5].data@ == counters[k].encoded(),
        forall|k: int|
            0 <= k < run.len() && (#[trigger] run[k]).0
                == MetalityGameContractInstruction::InitializeGameProgramData ==> run[k].1[1].key@
                != key@,
        forall|k: int|
            0 <= k < run.len() ==> counter_step(
                counters[k],
                counters[k + 1],
                key,
                (#[trigger] transition_outcome(run[k].0, run[k].1, program_id))->Ok_0,
            ),
    ensures
        counters.last().index == initializations(run, key),
    decreases run.len(),
{
    if run.len() > 0 {
        let n = run.len() - 1;
        let prefix = run.drop_last();
        let earlier = counters.drop_last();
        assert forall|k: int| 0 <= k < prefix.len() implies #[trigger] prefix[k] == run[k] by {}
        assert forall|k: int| 0 <= k < earlier.len() implies #[trigger] earlier[k] == counters[k] by {}
        lemma_counter_counts_initializations(program_id, key, prefix, earlier);
        assert(transition_outcome(run[n].0, run[n].1, program_id) is Ok);
        lemma_counter_step(run[n].0, run[n].1, program_id, key, counters[n], counters[n + 1]);
    }
}

/// Where a transition finds the game record among its accounts.
pub open spec fn game_record_position(ins: MetalityGameContractInstruction) -> int {
    match ins {
        MetalityGameContractInstruction::InitializeGameProgramData => 1,
        MetalityGameContractInstruction::InitializeGame => 4,
        MetalityGameContractInstruction::CancelGame => 7,
        MetalityGameContractInstruction::JoinGame => 4,
        MetalityGameContractInstruction::TransferReward => 9,
        MetalityGameContractInstruction::DrawOrCancelGame => 8,
        MetalityGameContractInstruction::SetGameStarted => 8,
        MetalityGameContractInstruction::UserBExitGame => 4,
    }
}

/// The game record that an effect stores, if it stores one.
pub open spec fn stored_record(e: Effect) -> Option<MetalityGameContractState> {
    match e {
        Effect::WriteGameState { account: _, record } => Some(record),
        _ => None,
    }
}

/// A new game starts well formed and awaiting an opponent, held by the
/// authority derived from its own address.
pub proof fn lemma_initialize_game_writes_fresh_record(accounts: Seq<AccountRef>, program_id: Identity)
    requires
        initialize_game_outcome(accounts, program_id) is Ok,
    ensures
        ({
            let es = initialize_game_outcome(accounts, program_id)->Ok_0;
            forall|i: int|
                0 <= i < es.len() && (#[trigger] stored_record(es[i])) is Some ==> {
                    let r = stored_record(es[i])->Some_0;
                    &&& r.well_formed()
                    &&& r.phase() == GamePhase::AwaitingOpponent
                    &&& authority_of(accounts[4].key@, program_id@) is Some
                    &&& r.pda_account@ == authority_of(accounts[4].key@, program_id@)->Some_0.0
                }
        }),
{
}

/// The record invariant holds across every transition on an existing game,
/// and the authority address recorded at creation never changes.
pub proof fn lemma_record_invariant_preserved(
    ins: MetalityGameContractInstruction,
    accounts: Seq<AccountRef>,
    program_id: Identity,
    st: MetalityGameContractState,
)
    requires
        ins != MetalityGameContractInstruction::InitializeGameProgramData,
        ins != MetalityGameContractInstruction::InitializeGame,
        transition_outcome(ins, accounts, program_id) is Ok,
        decode_game_state(accounts[game_record_position(ins)].data@) == Ok::<_, MetalityGameContractError>(st),
        st.well_formed(),
    ensures
        ({
            let es = transition_outcome(ins, accounts, program_id)->Ok_0;
            forall|i: int|
                0 <= i < es.len() && (#[trigger] stored_record(es[i])) is Some ==> {
                    &&& stored_record(es[i])->Some_0.well_formed()
                    &&& stored_record(es[i])->Some_0.pda_account == st.pda_account
                }
        }),
{
}

} // verus!
