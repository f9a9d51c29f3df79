use ore_hq_client::ore_hq_api::{
    ClientMessage, ClientMessageBestSolution, ClientMessageReady, DecodeError, ServerMessage,
    ServerMessagePoolSubmissionResult, ServerStartMining, BEST_SOLUTION_MIN_LEN,
    POOL_SUBMISSION_RESULT_LEN, START_MINING_LEN,
};

fn start_mining_bytes(challenge: [u8; 32], cutoff: u64, start: u64, end: u64) -> Vec<u8> {
    let mut bytes = vec![0u8];
    bytes.extend_from_slice(&challenge);
    bytes.extend_from_slice(&cutoff.to_le_bytes());
    bytes.extend_from_slice(&start.to_le_bytes());
    bytes.extend_from_slice(&end.to_le_bytes());
    bytes
}

fn sample_challenge() -> [u8; 32] {
    let mut challenge = [0u8; 32];
    for (i, byte) in challenge.iter_mut().enumerate() {
        *byte = (i as u8).wrapping_mul(7).wrapping_add(3);
    }
    challenge
}

fn sample_pool_result() -> ServerMessagePoolSubmissionResult {
    ServerMessagePoolSubmissionResult::new(
        21,
        1234.5f64.to_bits(),
        0.000_001f64.to_bits(),
        f64::MAX.to_bits(),
        1.5f64.to_bits(),
        4096,
        sample_challenge(),
        0x0102_0304_0506_0708,
        19,
        (-2.25f64).to_bits(),
        f64::NAN.to_bits(),
    )
}

#[test]
fn start_mining_decodes_the_documented_frame() {
    let bytes = start_mining_bytes([0u8; 32], 60, 0, 1000);
    assert_eq!(bytes.len(), 57);
    let message = ServerStartMining::new_from_bytes(bytes.clone()).unwrap();
    assert_eq!(message.challenge(), [0u8; 32]);
    assert_eq!(message.cutoff(), 60);
    assert_eq!(message.nonce_start(), 0);
    assert_eq!(message.nonce_end(), 1000);
    assert_eq!(
        ServerMessage::new_from_bytes(bytes),
        Ok(ServerMessage::StartMining([0u8; 32], 0..1000, 60))
    );
}

#[test]
fn start_mining_layout_is_little_endian() {
    let message = ServerStartMining::new(sample_challenge(), 0x1122_3344_5566_7788, 5, u64::MAX);
    let bytes = message.to_message_binary();
    assert_eq!(bytes.len(), START_MINING_LEN);
    assert_eq!(bytes[0], 0);
    assert_eq!(&bytes[1..33], &sample_challenge()[..]);
    assert_eq!(&bytes[33..41], &[0x88, 0x77, 0x66, 0x55, 0x44, 0x33, 0x22, 0x11]);
    assert_eq!(&bytes[41..49], &[5, 0, 0, 0, 0, 0, 0, 0]);
    assert_eq!(&bytes[49..57], &[0xff; 8]);
}

#[test]
fn start_mining_round_trip() {
    let message = ServerStartMining::new(sample_challenge(), 60, 1_000_000, 2_000_000);
    let back = ServerStartMining::new_from_bytes(message.to_message_binary());
    assert_eq!(back, Ok(message));
}

#[test]
fn start_mining_ignores_trailing_bytes() {
    let mut bytes = start_mining_bytes(sample_challenge(), 9, 8, 7);
    bytes.extend_from_slice(&[0xaa, 0xbb]);
    let message = ServerStartMining::new_from_bytes(bytes).unwrap();
    assert_eq!(message, ServerStartMining::new(sample_challenge(), 9, 8, 7));
}

#[test]
fn start_mining_too_short() {
    let full = start_mining_bytes(sample_challenge(), 1, 2, 3);
    for len in [0usize, 1, 33, 48, 49, 56] {
        assert_eq!(
            ServerStartMining::new_from_bytes(full[..len].to_vec()),
            Err(DecodeError::TooShort),
            "length {len}"
        );
    }
}

#[test]
fn start_mining_unknown_tag() {
    let mut bytes = start_mining_bytes(sample_challenge(), 1, 2, 3);
    bytes[0] = 1;
    assert_eq!(ServerStartMining::new_from_bytes(bytes), Err(DecodeError::UnknownTag));
}

#[test]
fn pool_submission_result_round_trip_keeps_every_bit() {
    let message = sample_pool_result();
    let bytes = message.to_message_binary();
    assert_eq!(bytes.len(), POOL_SUBMISSION_RESULT_LEN);
    let back = ServerMessagePoolSubmissionResult::new_from_bytes(bytes).unwrap();
    assert_eq!(back, message);
    assert_eq!(f64::from_bits(back.total_balance()), 1234.5);
    assert_eq!(f64::from_bits(back.miner_earned_rewards()), -2.25);
    assert!(f64::from_bits(back.miner_percentage()).is_nan());
    assert_eq!(back.miner_percentage(), f64::NAN.to_bits());
}

#[test]
fn pool_submission_result_layout() {
    let bytes = sample_pool_result().to_message_binary();
    assert_eq!(bytes[0], 1);
    assert_eq!(&bytes[1..5], &21u32.to_le_bytes());
    assert_eq!(&bytes[5..13], &1234.5f64.to_le_bytes());
    assert_eq!(&bytes[13..21], &0.000_001f64.to_le_bytes());
    assert_eq!(&bytes[21..29], &f64::MAX.to_le_bytes());
    assert_eq!(&bytes[29..37], &1.5f64.to_le_bytes());
    assert_eq!(&bytes[37..41], &4096u32.to_le_bytes());
    assert_eq!(&bytes[41..73], &sample_challenge()[..]);
    assert_eq!(&bytes[73..81], &[8, 7, 6, 5, 4, 3, 2, 1]);
    assert_eq!(&bytes[81..85], &19u32.to_le_bytes());
    assert_eq!(&bytes[85..93], &(-2.25f64).to_le_bytes());
    assert_eq!(&bytes[93..101], &f64::NAN.to_le_bytes());
}

#[test]
fn pool_submission_result_reads_each_field_from_its_offset() {
    let message = ServerMessagePoolSubmissionResult::new_from_bytes(
        sample_pool_result().to_message_binary(),
    )
    .unwrap();
    assert_eq!(message.difficulty(), 21);
    assert_eq!(message.total_rewards(), 0.000_001f64.to_bits());
    assert_eq!(message.top_stake(), f64::MAX.to_bits());
    assert_eq!(message.multiplier(), 1.5f64.to_bits());
    assert_eq!(message.active_miners(), 4096);
    assert_eq!(message.challenge(), sample_challenge());
    assert_eq!(message.best_nonce(), 0x0102_0304_0506_0708);
    assert_eq!(message.miner_supplied_difficulty(), 19);
}

#[test]
fn pool_submission_result_too_short() {
    let full = sample_pool_result().to_message_binary();
    for len in [0usize, 1, 5, 100] {
        assert_eq!(
            ServerMessagePoolSubmissionResult::new_from_bytes(full[..len].to_vec()),
            Err(DecodeError::TooShort),
            "length {len}"
        );
    }
}

#[test]
fn pool_submission_result_unknown_tag() {
    let mut bytes = sample_pool_result().to_message_binary();
    bytes[0] = 0;
    assert_eq!(
        ServerMessagePoolSubmissionResult::new_from_bytes(bytes),
        Err(DecodeError::UnknownTag)
    );
}

#[test]
fn ready_is_one_byte() {
    assert_eq!(ClientMessageReady::new().to_message_binary(), vec![1u8]);
    assert_eq!(ClientMessageReady::new_from_bytes(vec![1u8]), Ok(ClientMessageReady));
    assert_eq!(ClientMessageReady::new_from_bytes(vec![1u8, 9, 9]), Ok(ClientMessageReady));
}

#[test]
fn ready_rejects_empty_and_foreign_input() {
    assert_eq!(ClientMessageReady::new_from_bytes(vec![]), Err(DecodeError::TooShort));
    assert_eq!(ClientMessageReady::new_from_bytes(vec![0u8]), Err(DecodeError::UnknownTag));
    assert_eq!(ClientMessageReady::new_from_bytes(vec![2u8]), Err(DecodeError::UnknownTag));
}

#[test]
fn best_solution_layout_and_nonce_byte_order() {
    let hash = [0xabu8; 16];
    let pubkey = sample_challenge();
    let message =
        ClientMessageBestSolution::new(hash, 0x0102_0304_0506_0708, pubkey, vec![9, 8, 7]);
    let bytes = message.to_message_binary();
    assert_eq!(bytes.len(), BEST_SOLUTION_MIN_LEN + 3);
    assert_eq!(bytes[0], 2);
    assert_eq!(&bytes[1..17], &hash[..]);
    assert_eq!(&bytes[17..25], &[8, 7, 6, 5, 4, 3, 2, 1]);
    assert_eq!(&bytes[25..57], &pubkey[..]);
    assert_eq!(&bytes[57..], &[9, 8, 7]);
}

#[test]
fn best_solution_round_trip() {
    let signature: Vec<u8> = (0u8..64).collect();
    let message =
        ClientMessageBestSolution::new([7u8; 16], 0xdead_beef_0000_0001, [3u8; 32], signature);
    let back = ClientMessageBestSolution::new_from_bytes(message.to_message_binary()).unwrap();
    assert_eq!(back, message);
    assert_eq!(back.best_hash(), [7u8; 16]);
    assert_eq!(back.best_nonce(), 0xdead_beef_0000_0001);
    assert_eq!(back.pubkey(), [3u8; 32]);
    assert_eq!(back.signature().len(), 64);
    assert_eq!(back.signature()[63], 63);
}

#[test]
fn best_solution_with_empty_signature() {
    let message = ClientMessageBestSolution::new([1u8; 16], 1, [2u8; 32], vec![]);
    let bytes = message.to_message_binary();
    assert_eq!(bytes.len(), 57);
    let back = ClientMessageBestSolution::new_from_bytes(bytes).unwrap();
    assert!(back.signature().is_empty());
    assert_eq!(back, message);
}

#[test]
fn best_solution_too_short_never_panics() {
    let full = ClientMessageBestSolution::new([1u8; 16], 1, [2u8; 32], vec![]).to_message_binary();
    for len in 0..57usize {
        assert_eq!(
            ClientMessageBestSolution::new_from_bytes(full[..len].to_vec()),
            Err(DecodeError::TooShort),
            "length {len}"
        );
    }
}

#[test]
fn best_solution_unknown_tag() {
    let mut bytes =
        ClientMessageBestSolution::new([1u8; 16], 1, [2u8; 32], vec![5]).to_message_binary();
    bytes[0] = 1;
    assert_eq!(ClientMessageBestSolution::new_from_bytes(bytes), Err(DecodeError::UnknownTag));
}

#[test]
fn server_message_round_trip() {
    let start = ServerMessage::StartMining(sample_challenge(), 10..20, 55);
    assert_eq!(ServerMessage::new_from_bytes(start.to_message_binary()), Ok(start));
    let backwards = ServerMessage::StartMining([0xffu8; 32], 20..10, 0);
    assert_eq!(ServerMessage::new_from_bytes(backwards.to_message_binary()), Ok(backwards));
    let result = ServerMessage::PoolSubmissionResult(sample_pool_result());
    assert_eq!(ServerMessage::new_from_bytes(result.to_message_binary()), Ok(result));
}

#[test]
fn server_message_errors() {
    assert_eq!(ServerMessage::new_from_bytes(vec![]), Err(DecodeError::TooShort));
    assert_eq!(ServerMessage::new_from_bytes(vec![0u8; 56]), Err(DecodeError::TooShort));
    let mut short_result = vec![0u8; 100];
    short_result[0] = 1;
    assert_eq!(ServerMessage::new_from_bytes(short_result), Err(DecodeError::TooShort));
    assert_eq!(ServerMessage::new_from_bytes(vec![2u8]), Err(DecodeError::UnknownTag));
    assert_eq!(ServerMessage::new_from_bytes(vec![0xffu8; 200]), Err(DecodeError::UnknownTag));
}

#[test]
fn client_message_round_trip() {
    let ready = ClientMessage::Ready();
    assert_eq!(ready.to_message_binary(), vec![1u8]);
    assert_eq!(ClientMessage::new_from_bytes(vec![1u8]), Ok(ClientMessage::Ready()));
    let solution = ClientMessage::BestSolution(ClientMessageBestSolution::new(
        [4u8; 16],
        77,
        [5u8; 32],
        vec![1, 2, 3, 4],
    ));
    assert_eq!(ClientMessage::new_from_bytes(solution.to_message_binary()), Ok(solution));
}

#[test]
fn client_message_errors() {
    assert_eq!(ClientMessage::new_from_bytes(vec![]), Err(DecodeError::TooShort));
    assert_eq!(ClientMessage::new_from_bytes(vec![2u8; 56]), Err(DecodeError::TooShort));
    assert_eq!(ClientMessage::new_from_bytes(vec![0u8]), Err(DecodeError::UnknownTag));
    assert_eq!(ClientMessage::new_from_bytes(vec![3u8; 80]), Err(DecodeError::UnknownTag));
}

#[test]
fn directions_number_their_tags_apart() {
    // Tag 1 is `Ready` to the server and a submission result from it.
    assert_eq!(ClientMessage::new_from_bytes(vec![1u8]), Ok(ClientMessage::Ready()));
    assert_eq!(ServerMessage::new_from_bytes(vec![1u8]), Err(DecodeError::TooShort));
    // Tag 0 is known to the server's direction only.
    let start = start_mining_bytes([0u8; 32], 1, 2, 3);
    assert!(ServerMessage::new_from_bytes(start.clone()).is_ok());
    assert_eq!(ClientMessage::new_from_bytes(start), Err(DecodeError::UnknownTag));
}
