use vstd::prelude::*;

use crate::error::MetalityGameContractError;

verus! {

/// The eight transitions of the game, in opcode order: bootstrap the
/// counter (0), initialize a game (1), join (2), exit before start (3), set
/// started (4), cancel by party A (5), draw or cancel by the arbiter (6),
/// settle (7).
#[derive(Debug, Clone, Copy, PartialEq, Eq, Structural)]
pub enum MetalityGameContractInstruction {
    InitializeGameProgramData,
    InitializeGame,
    JoinGame,
    UserBExitGame,
    SetGameStarted,
    CancelGame,
    DrawOrCancelGame,
    TransferReward,
}

/// The transition that an opcode selects, if any.
pub open spec fn instruction_of(opcode: u8) -> Option<MetalityGameContractInstruction> {
    if opcode == 0 {
        Some(MetalityGameContractInstruction::InitializeGameProgramData)
    } else if opcode == 1 {
        Some(MetalityGameContractInstruction::InitializeGame)
    } else if opcode == 2 {
        Some(MetalityGameContractInstruction::JoinGame)
    } else if opcode == 3 {
        Some(MetalityGameContractInstruction::UserBExitGame)
    } else if opcode == 4 {
        Some(MetalityGameContractInstruction::SetGameStarted)
    } else if opcode == 5 {
        Some(MetalityGameContractInstruction::CancelGame)
    } else if opcode == 6 {
        Some(MetalityGameContractInstruction::DrawOrCancelGame)
    } else if opcode == 7 {
        Some(MetalityGameContractInstruction::TransferReward)
    } else {
        None
    }
}

/// What decoding an instruction buffer yields: the transition named by its
/// first byte; trailing bytes are ignored.
pub open spec fn decoded_instruction(data: Seq<u8>) -> Result<
    MetalityGameContractInstruction,
    MetalityGameContractError,
> {
    if data.len() == 0 {
        Err(MetalityGameContractError::InvalidInstruction)
    } else {
        match instruction_of(data[0]) {
            Some(ins) => Ok(ins),
            None => Err(MetalityGameContractError::InvalidInstruction),
        }
    }
}

/// Opcode coverage: opcodes 0 to 7 select eight distinct transitions, in
/// the order bootstrap, initialize, join, exit, set started, cancel, draw or
/// cancel, settle; any other opcode, and an empty buffer, fail with
/// `InvalidInstruction`.
pub proof fn lemma_opcode_coverage(data: Seq<u8>)
    ensures
        data.len() == 0 ==> decoded_instruction(data) == Err::<MetalityGameContractInstruction, _>(
            MetalityGameContractError::InvalidInstruction,
        ),
        data.len() > 0 && data[0] >= 8 ==> decoded_instruction(data) == Err::<
            MetalityGameContractInstruction,
            _,
        >(MetalityGameContractError::InvalidInstruction),
        data.len() > 0 && data[0] < 8 ==> decoded_instruction(data) is Ok,
        forall|a: u8, b: u8|
            a < 8 && b < 8 && a != b ==> #[trigger] instruction_of(a) != #[trigger] instruction_of(b),
{
}

impl MetalityGameContractInstruction {
    /// Decodes the leading opcode byte of an instruction buffer.
    pub fn unpack_instruction_data(ins_data: &[u8]) -> (r: Result<Self, MetalityGameContractError>)
        ensures
            r == decoded_instruction(ins_data@),
    {
        if ins_data.len() == 0 {
            return Err(MetalityGameContractError::InvalidInstruction);
        }
        let ins_no = ins_data[0];
        match ins_no {
            0 => Ok(MetalityGameContractInstruction::InitializeGameProgramData),
            1 => Ok(MetalityGameContractInstruction::InitializeGame),
            2 => Ok(MetalityGameContractInstruction::JoinGame),
            3 => Ok(MetalityGameContractInstruction::UserBExitGame),
            4 => Ok(MetalityGameContractInstruction::SetGameStarted),
            5 => Ok(MetalityGameContractInstruction::CancelGame),
            6 => Ok(MetalityGameContractInstruction::DrawOrCancelGame),
            7 => Ok(MetalityGameContractInstruction::TransferReward),
            _ => Err(MetalityGameContractError::InvalidInstruction),
        }
    }
}

} // verus!
