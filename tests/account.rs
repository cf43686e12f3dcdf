use switchboard_feed::account::{
    AggregatorAccountData, AggregatorResolutionMode, ACCOUNT_LEN, DISCRIMINATOR_LEN,
};
use switchboard_feed::decimal::SwitchboardDecimal;
use switchboard_feed::error::SwitchboardError;

const TAG: usize = 8;
const LATEST_ROUND: usize = TAG + 333;
const CURRENT_ROUND: usize = TAG + 1430;

fn image() -> Vec<u8> {
    let mut data = vec![0u8; DISCRIMINATOR_LEN + ACCOUNT_LEN];
    data[..8].copy_from_slice(&AggregatorAccountData::discriminator());
    data
}

fn put(data: &mut [u8], off: usize, bytes: &[u8]) {
    data[off..off + bytes.len()].copy_from_slice(bytes);
}

fn put_decimal(data: &mut [u8], off: usize, mantissa: i128, scale: u32) {
    put(data, off, &mantissa.to_le_bytes());
    put(data, off + 16, &scale.to_le_bytes());
}

fn quorum_account(min_oracle_results: u32, num_success: u32, sliding: bool) -> AggregatorAccountData {
    let mut data = image();
    put(&mut data, TAG + 228, &min_oracle_results.to_le_bytes());
    put(&mut data, LATEST_ROUND, &num_success.to_le_bytes());
    put_decimal(&mut data, LATEST_ROUND + 25, 12345, 2);
    data[TAG + 3704] = sliding as u8;
    AggregatorAccountData::from_account_data(&data).unwrap()
}

#[test]
fn discriminator_is_hash_of_account_name() {
    let digest = anchor_lang::solana_program::hash::hash(b"account:AggregatorAccountData");
    assert_eq!(&digest.to_bytes()[..8], &AggregatorAccountData::discriminator()[..]);
}

#[test]
fn quorum_not_met_fails() {
    let a = quorum_account(3, 2, false);
    assert_eq!(a.get_result(), Err(SwitchboardError::InvalidAggregatorRound));
}

#[test]
fn quorum_met_returns_result() {
    let a = quorum_account(3, 3, false);
    assert_eq!(a.get_result(), Ok(SwitchboardDecimal::new(12345, 2)));
    let a = quorum_account(3, 4, false);
    assert_eq!(a.get_result(), Ok(SwitchboardDecimal::new(12345, 2)));
}

#[test]
fn sliding_mode_skips_quorum() {
    let a = quorum_account(3, 0, true);
    assert_eq!(a.resolution_mode, AggregatorResolutionMode::ModeSlidingResolution);
    assert_eq!(a.get_result(), Ok(SwitchboardDecimal::new(12345, 2)));
}

#[test]
fn zeroed_account_resolves_to_zero() {
    let a = AggregatorAccountData::default();
    assert_eq!(a.resolution_mode, AggregatorResolutionMode::ModeRoundResolution);
    assert_eq!(a.min_oracle_results, 0);
    assert_eq!(a.get_result(), Ok(SwitchboardDecimal::new(0, 0)));
    assert_eq!(a, AggregatorAccountData::zeroed());
    let mut b = a;
    b.min_oracle_results = 1;
    assert_eq!(b.get_result(), Err(SwitchboardError::InvalidAggregatorRound));
}

#[test]
fn zeroed_account_equals_all_zero_image() {
    let data = image();
    assert_eq!(AggregatorAccountData::from_account_data(&data), Ok(AggregatorAccountData::zeroed()));
}

#[test]
fn reads_fields_at_their_offsets() {
    let mut data = image();
    put(&mut data, TAG, b"SOL/USD");
    put(&mut data, TAG + 192, &[7u8; 32]);
    put(&mut data, TAG + 224, &16u32.to_le_bytes());
    put(&mut data, TAG + 240, &(-5i64).to_le_bytes());
    put_decimal(&mut data, TAG + 248, -25, 3);
    put(&mut data, TAG + 284, &u64::MAX.to_le_bytes());
    data[TAG + 300] = 1;
    put(&mut data, LATEST_ROUND + 4, &9u32.to_le_bytes());
    data[LATEST_ROUND + 8] = 1;
    put(&mut data, LATEST_ROUND + 9, &77u64.to_le_bytes());
    put(&mut data, LATEST_ROUND + 17, &1_700_000_000i64.to_le_bytes());
    put_decimal(&mut data, LATEST_ROUND + 85, i128::MIN, 28);
    put(&mut data, LATEST_ROUND + 105 + 32 * 15, &[9u8; 32]);
    put_decimal(&mut data, LATEST_ROUND + 617 + 20 * 15, 42, 1);
    put(&mut data, LATEST_ROUND + 937 + 8 * 3, &(-100i64).to_le_bytes());
    data[LATEST_ROUND + 1065 + 2] = 1;
    data[LATEST_ROUND + 1081 + 15] = 1;
    put(&mut data, CURRENT_ROUND, &5u32.to_le_bytes());
    put(&mut data, TAG + 2527 + 32 * 15, &[3u8; 32]);
    put(&mut data, TAG + 3039, &[4u8; 32]);
    put(&mut data, TAG + 3551, &2u32.to_le_bytes());
    put(&mut data, TAG + 3671, &88u64.to_le_bytes());
    data[TAG + 3679] = 1;
    data[TAG + 3695] = 6;
    put(&mut data, TAG + 3696, &(-1i64).to_le_bytes());
    data[TAG + 3842] = 0xee;
    data.extend([1u8, 2, 3]);

    let a = AggregatorAccountData::from_account_data(&data).unwrap();
    assert_eq!(&a.name[..7], b"SOL/USD");
    assert_eq!(a.queue_pubkey, [7u8; 32]);
    assert_eq!(a.oracle_request_batch_size, 16);
    assert_eq!(a.start_after, -5);
    assert_eq!(a.variance_threshold, SwitchboardDecimal::new(-25, 3));
    assert_eq!(a.consecutive_failure_count, u64::MAX);
    assert!(a.is_locked);
    let r = a.latest_confirmed_round;
    assert_eq!(r.num_success, 0);
    assert_eq!(r.num_error, 9);
    assert!(r.is_closed);
    assert_eq!(r.round_open_slot, 77);
    assert_eq!(r.round_open_timestamp, 1_700_000_000);
    assert_eq!(r.max_response, SwitchboardDecimal::new(i128::MIN, 28));
    assert_eq!(r.oracle_pubkeys_data[15], [9u8; 32]);
    assert_eq!(r.oracle_pubkeys_data[14], [0u8; 32]);
    assert_eq!(r.medians_data[15], SwitchboardDecimal::new(42, 1));
    assert_eq!(r.current_payout[3], -100);
    assert!(r.medians_fulfilled[2]);
    assert!(!r.medians_fulfilled[3]);
    assert!(r.errors_fulfilled[15]);
    assert_eq!(a.current_round.num_success, 5);
    assert_eq!(a.job_pubkeys_data[15], [3u8; 32]);
    assert_eq!(a.job_hashes[0].data, [4u8; 32]);
    assert_eq!(a.job_pubkeys_size, 2);
    assert_eq!(a.previous_confirmed_round_slot, 88);
    assert!(a.disable_crank);
    assert_eq!(a.job_weights[15], 6);
    assert_eq!(a.creation_timestamp, -1);
    assert_eq!(a._ebuf[137], 0xee);
}

#[test]
fn wrong_tag_is_a_discriminator_mismatch() {
    let mut data = image();
    data[0] ^= 1;
    assert_eq!(AggregatorAccountData::from_account_data(&data), Err(SwitchboardError::AccountDiscriminatorMismatch));
    assert_eq!(AggregatorAccountData::from_account_data(&[217, 230, 65]), Err(SwitchboardError::AccountDiscriminatorMismatch));
    assert_eq!(AggregatorAccountData::from_account_data(&[]), Err(SwitchboardError::AccountDiscriminatorMismatch));
}

#[test]
fn short_data_fails_to_deserialize() {
    let mut data = image();
    data.pop();
    assert_eq!(AggregatorAccountData::from_account_data(&data), Err(SwitchboardError::AccountDeserializationError));
    assert_eq!(AggregatorAccountData::from_account_data(&data[..8]), Err(SwitchboardError::AccountDeserializationError));
}

#[test]
fn invalid_flag_or_mode_fails_to_deserialize() {
    for off in [TAG + 300, TAG + 3679, TAG + 3704, LATEST_ROUND + 8, CURRENT_ROUND + 1065 + 15, LATEST_ROUND + 1081] {
        let mut data = image();
        data[off] = 2;
        assert_eq!(AggregatorAccountData::from_account_data(&data), Err(SwitchboardError::AccountDeserializationError));
    }
}

#[test]
fn error_codes_and_messages() {
    assert_eq!(SwitchboardError::InvalidAggregatorRound.code(), 6000);
    assert_eq!(SwitchboardError::IntegerOverflowError.code(), 6003);
    assert_eq!(SwitchboardError::AccountDeserializationError.code(), 6008);
    assert_eq!(SwitchboardError::DecimalConversionError.message(), "Decimal conversion method failed");
}
