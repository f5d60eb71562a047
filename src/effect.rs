//! What a successful transition asks the runtime to do, in order.
use vstd::prelude::*;
use vstd::string::StringSliceAdditionalSpecFns;

use crate::identity::Identity;
use crate::state::{MetalityGameContractState, MetalityGameProgramDataState};

verus! {

/// Seed of the storage slot that holds the sequence counter.
pub const PROGRAM_DATA_SEED: &'static str = "Game Contract Main";

/// Prefix of the seed of each game record's storage slot; the counter's
/// index, in decimal, follows it.
pub const GAME_STATE_SEED_PREFIX: &'static str = "Metality Game State ";

/// The ASCII decimal digits of `n`, most significant first.
pub open spec fn decimal_digits(n: nat) -> Seq<u8>
    decreases n,
{
    if n < 10 {
        seq![(48 + n) as u8]
    } else {
        decimal_digits(n / 10).push((48 + n % 10) as u8)
    }
}

/// Which seed a new storage slot is derived from.
#[derive(Debug, Clone, Copy, PartialEq, Eq, Structural)]
pub enum AccountSeed {
    /// The counter's slot.
    ProgramData,
    /// The slot of the game record created at this counter index.
    GameState(u64),
}

impl AccountSeed {
    pub open spec fn spec_bytes(&self) -> Seq<u8> {
        match self {
            AccountSeed::ProgramData => PROGRAM_DATA_SEED.spec_bytes(),
            AccountSeed::GameState(index) => GAME_STATE_SEED_PREFIX.spec_bytes() + decimal_digits(
                *index as nat,
            ),
        }
    }

    /// The seed's bytes.
    pub fn to_bytes(&self) -> (r: Vec<u8>)
        ensures
            r@ == self.spec_bytes(),
    {
        let mut out: Vec<u8> = Vec::new();
        match self {
            AccountSeed::ProgramData => {
                push_bytes(&mut out, PROGRAM_DATA_SEED.as_bytes());
            },
            AccountSeed::GameState(index) => {
                push_bytes(&mut out, GAME_STATE_SEED_PREFIX.as_bytes());
                push_decimal(&mut out, *index);
            },
        }
        out
    }
}

fn push_bytes(out: &mut Vec<u8>, bytes: &[u8])
    ensures
        final(out)@ == old(out)@ + bytes@,
{
    let n = bytes.len();
    let mut i: usize = 0;
    while i < n
        invariant
            0 <= i <= n == bytes@.len(),
            out@ == old(out)@ + bytes@.subrange(0, i as int),
        decreases n - i,
    {
        out.push(bytes[i]);
        assert(bytes@.subrange(0, i + 1) =~= bytes@.subrange(0, i as int).push(bytes@[i as int]));
        i = i + 1;
    }
    assert(bytes@.subrange(0, n as int) =~= bytes@);
}

fn push_decimal(out: &mut Vec<u8>, n: u64)
    ensures
        final(out)@ == old(out)@ + decimal_digits(n as nat),
    decreases n,
{
    if n >= 10 {
        push_decimal(out, n / 10);
    }
    let digit: u8 = (n % 10) as u8;
    out.push(48u8 + digit);
    assert(old(out)@ + decimal_digits(n as nat) =~= if n >= 10 {
        (old(out)@ + decimal_digits((n / 10) as nat)).push((48 + n % 10) as u8)
    } else {
        old(out)@.push((48 + n) as u8)
    });
}

/// The capability with which the program authorizes custody calls on a
/// game's behalf: the game's authority address, the record it is derived
/// from, and the derivation's bump seed.
#[derive(Debug, Clone, Copy, PartialEq, Eq)]
pub struct AuthoritySigner {
    pub authority: Identity,
    pub game_state: Identity,
    pub bump: u8,
}

/// One step that the runtime performs for a successful transition.
#[derive(Debug, Clone, Copy, PartialEq)]
pub enum Effect {
    /// Allocate `space` bytes of storage owned by program `owner` at
    /// `account`, derived from `payer` and `seed`; `payer` funds the slot and
    /// signs.
    CreateAccountWithSeed {
        payer: Identity,
        account: Identity,
        seed: AccountSeed,
        space: u64,
        owner: Identity,
    },
    /// Hand custody record `custody` to `new_owner`; its current owner
    /// `owner` signs.
    SetCustodyOwner { custody: Identity, owner: Identity, new_owner: Identity },
    /// Hand custody record `custody`, held by the game's authority, to
    /// `new_owner`.
    ReleaseCustody { custody: Identity, new_owner: Identity, signer: AuthoritySigner },
    /// Create the associated custody record of `wallet` for asset `mint`,
    /// funded by `payer`.
    CreateAssociatedAccount { payer: Identity, wallet: Identity, mint: Identity },
    /// Move the single unit held by custody record `from`, held by the
    /// game's authority, into custody record `to`.
    TransferUnit { from: Identity, to: Identity, signer: AuthoritySigner },
    /// Store a game record at `account`.
    WriteGameState { account: Identity, record: MetalityGameContractState },
    /// Store the sequence counter at `account`.
    WriteProgramData { account: Identity, counter: MetalityGameProgramDataState },
}

} // verus!
