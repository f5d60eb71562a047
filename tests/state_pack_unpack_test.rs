use metality_game_contract::error::MetalityGameContractError;
use metality_game_contract::state::{MetalityGameContractState, MetalityGameProgramDataState};

fn sample_game_state() -> MetalityGameContractState {
    MetalityGameContractState {
        is_initialized: true,
        user_a: [1; 32],
        a_nft_ata: [2; 32],
        a_nft_mint: [3; 32],
        user_b: [4; 32],
        user_b_joined: true,
        b_nft_ata: [5; 32],
        b_nft_mint: [6; 32],
        pda_account: [7; 32],
        expired: false,
        game_started: true,
    }
}

#[test]
fn game_state_pack_unpack_test() {
    let game_state = sample_game_state();

    let mut packed = vec![0; MetalityGameContractState::get_packed_len()];

    MetalityGameContractState::pack(game_state, &mut packed).unwrap();

    let unpacked_data = MetalityGameContractState::unpack(&packed).unwrap();

    assert_eq!(game_state, unpacked_data);
}

#[test]
fn program_data_state_pack_unpack_test() {
    let program_data_state = MetalityGameProgramDataState {
        is_initialized: true,
        index: 1,
    };

    let mut packed = vec![0; MetalityGameProgramDataState::get_packed_len()];

    MetalityGameProgramDataState::pack(program_data_state, &mut packed).unwrap();

    let unpacked_data = MetalityGameProgramDataState::unpack(&packed).unwrap();

    assert_eq!(program_data_state, unpacked_data);
}

#[test]
fn game_state_layout_is_fixed() {
    let bytes = sample_game_state().to_bytes();
    assert_eq!(bytes.len(), 228);
    assert_eq!(bytes[0], 1);
    assert_eq!(&bytes[1..33], &[1u8; 32][..]);
    assert_eq!(&bytes[33..65], &[2u8; 32][..]);
    assert_eq!(&bytes[65..97], &[3u8; 32][..]);
    assert_eq!(&bytes[97..129], &[4u8; 32][..]);
    assert_eq!(bytes[129], 1);
    assert_eq!(&bytes[130..162], &[5u8; 32][..]);
    assert_eq!(&bytes[162..194], &[6u8; 32][..]);
    assert_eq!(&bytes[194..226], &[7u8; 32][..]);
    assert_eq!(bytes[226], 0);
    assert_eq!(bytes[227], 1);
}

#[test]
fn counter_index_is_little_endian() {
    let counter = MetalityGameProgramDataState {
        is_initialized: true,
        index: 0x0102_0304_0506_0708,
    };
    assert_eq!(counter.to_bytes(), vec![1, 8, 7, 6, 5, 4, 3, 2, 1]);
    let largest = MetalityGameProgramDataState {
        is_initialized: false,
        index: u64::MAX,
    };
    let mut packed = vec![0u8; 9];
    largest.pack_into_slice(&mut packed);
    assert_eq!(packed, vec![0, 255, 255, 255, 255, 255, 255, 255, 255]);
    assert_eq!(MetalityGameProgramDataState::unpack_unchecked(&packed), Ok(largest));
}

#[test]
fn game_state_flag_bytes_outside_zero_one_are_rejected() {
    for offset in [0usize, 129, 226, 227] {
        let mut bytes = sample_game_state().to_bytes();
        bytes[offset] = 2;
        assert_eq!(
            MetalityGameContractState::unpack_unchecked(&bytes),
            Err(MetalityGameContractError::InvalidAccountData)
        );
    }
}

#[test]
fn counter_flag_byte_outside_zero_one_is_rejected() {
    let mut bytes = MetalityGameProgramDataState { is_initialized: true, index: 5 }.to_bytes();
    bytes[0] = 7;
    assert_eq!(
        MetalityGameProgramDataState::unpack_unchecked(&bytes),
        Err(MetalityGameContractError::InvalidAccountData)
    );
}

#[test]
fn wrong_lengths_are_rejected() {
    let short = vec![0u8; 227];
    assert_eq!(
        MetalityGameContractState::unpack_unchecked(&short),
        Err(MetalityGameContractError::InvalidAccountData)
    );
    let mut long = vec![0u8; 229];
    assert_eq!(
        MetalityGameContractState::pack(sample_game_state(), &mut long),
        Err(MetalityGameContractError::InvalidAccountData)
    );
    assert_eq!(long, vec![0u8; 229]);
    assert_eq!(
        MetalityGameProgramDataState::unpack(&[1u8; 8]),
        Err(MetalityGameContractError::InvalidAccountData)
    );
}

#[test]
fn uninitialized_records_do_not_unpack() {
    let zeros = vec![0u8; 228];
    assert_eq!(
        MetalityGameContractState::unpack(&zeros),
        Err(MetalityGameContractError::UninitializedAccount)
    );
    let blank = MetalityGameContractState::unpack_unchecked(&zeros).unwrap();
    assert!(!blank.is_initialized());
    assert_eq!(
        MetalityGameProgramDataState::unpack(&[0u8; 9]),
        Err(MetalityGameContractError::UninitializedAccount)
    );
}

#[test]
fn raw_codec_uses_the_buffer_prefix() {
    let mut buffer = vec![9u8; 230];
    sample_game_state().pack_into_slice(&mut buffer);
    assert_eq!(&buffer[228..], &[9u8, 9][..]);
    assert_eq!(
        MetalityGameContractState::unpack_from_slice(&buffer),
        Ok(sample_game_state())
    );
    let mut counter_buffer = vec![9u8; 12];
    MetalityGameProgramDataState { is_initialized: true, index: 300 }.pack_into_slice(&mut counter_buffer);
    assert_eq!(counter_buffer, vec![1, 44, 1, 0, 0, 0, 0, 0, 0, 9, 9, 9]);
    assert_eq!(
        MetalityGameProgramDataState::unpack_from_slice(&counter_buffer),
        Ok(MetalityGameProgramDataState { is_initialized: true, index: 300 })
    );
}
