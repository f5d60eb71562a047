use metality_game_contract::error::MetalityGameContractError;
use metality_game_contract::instruction::MetalityGameContractInstruction;

#[test]
fn instruction_data_unpack_test() {
    let mut packed_ins_data = [0u8];

    let mut unpacked_ins_data =
        MetalityGameContractInstruction::unpack_instruction_data(&packed_ins_data).unwrap();

    assert_eq!(
        unpacked_ins_data,
        MetalityGameContractInstruction::InitializeGameProgramData
    );

    packed_ins_data = [1u8];

    unpacked_ins_data =
        MetalityGameContractInstruction::unpack_instruction_data(&packed_ins_data).unwrap();

    assert_eq!(
        unpacked_ins_data,
        MetalityGameContractInstruction::InitializeGame
    );

    packed_ins_data = [2u8];

    unpacked_ins_data =
        MetalityGameContractInstruction::unpack_instruction_data(&packed_ins_data).unwrap();

    assert_eq!(unpacked_ins_data, MetalityGameContractInstruction::JoinGame);

    packed_ins_data = [3u8];

    unpacked_ins_data =
        MetalityGameContractInstruction::unpack_instruction_data(&packed_ins_data).unwrap();

    assert_eq!(unpacked_ins_data, MetalityGameContractInstruction::UserBExitGame);

    packed_ins_data = [4u8];

    unpacked_ins_data =
        MetalityGameContractInstruction::unpack_instruction_data(&packed_ins_data).unwrap();

    assert_eq!(
        unpacked_ins_data,
        MetalityGameContractInstruction::SetGameStarted
    );

    packed_ins_data = [5u8];

    unpacked_ins_data =
        MetalityGameContractInstruction::unpack_instruction_data(&packed_ins_data).unwrap();

    assert_eq!(
        unpacked_ins_data,
        MetalityGameContractInstruction::CancelGame
    );

    packed_ins_data = [6u8];

    unpacked_ins_data =
        MetalityGameContractInstruction::unpack_instruction_data(&packed_ins_data).unwrap();

    assert_eq!(
        unpacked_ins_data,
        MetalityGameContractInstruction::DrawOrCancelGame
    );
}

#[test]
fn opcode_seven_selects_settlement() {
    assert_eq!(
        MetalityGameContractInstruction::unpack_instruction_data(&[7u8]),
        Ok(MetalityGameContractInstruction::TransferReward)
    );
}

#[test]
fn unknown_opcodes_are_rejected() {
    assert_eq!(
        MetalityGameContractInstruction::unpack_instruction_data(&[8u8]),
        Err(MetalityGameContractError::InvalidInstruction)
    );
    assert_eq!(
        MetalityGameContractInstruction::unpack_instruction_data(&[255u8]),
        Err(MetalityGameContractError::InvalidInstruction)
    );
}

#[test]
fn empty_instruction_is_rejected() {
    assert_eq!(
        MetalityGameContractInstruction::unpack_instruction_data(&[]),
        Err(MetalityGameContractError::InvalidInstruction)
    );
}

#[test]
fn trailing_instruction_bytes_are_ignored() {
    assert_eq!(
        MetalityGameContractInstruction::unpack_instruction_data(&[2u8, 9, 9, 9]),
        Ok(MetalityGameContractInstruction::JoinGame)
    );
}

#[test]
fn opcodes_select_distinct_transitions() {
    let mut seen = Vec::new();
    for op in 0u8..8 {
        let ins = MetalityGameContractInstruction::unpack_instruction_data(&[op]).unwrap();
        assert!(!seen.contains(&ins));
        seen.push(ins);
    }
}
