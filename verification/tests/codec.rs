use gw_web3_indexer::error::{DecodeError, HexError};
use gw_web3_indexer::helper::{
    account_script_hash_to_eth_address, hex, parse_log, GwLog, PolyjuiceArgs,
    GW_L2TX_ARGS_MAX_SIZE, GW_LOG_POLYJUICE_SYSTEM, GW_LOG_POLYJUICE_USER, GW_LOG_SUDT_PAY_FEE,
    GW_LOG_SUDT_TRANSFER, GW_USER_LOG_DATA_MAX_SIZE,
};
use gw_web3_indexer::numbers::{push_le, read_le, read_u128_le, read_u32_le, read_u64_le};
use gw_web3_indexer::types::{LogItem, Script};

fn polyjuice_head(selector: u8, gas_limit: u64, gas_price: u128, value: u128, size: u32) -> Vec<u8> {
    let mut bytes = vec![0xff, 0xff, 0xff, b'P', b'O', b'L', b'Y', selector];
    bytes.extend_from_slice(&gas_limit.to_le_bytes());
    bytes.extend_from_slice(&gas_price.to_le_bytes());
    bytes.extend_from_slice(&value.to_le_bytes());
    bytes.extend_from_slice(&size.to_le_bytes());
    bytes
}

fn item(service_flag: u8, account_id: u32, data: Vec<u8>) -> LogItem {
    LogItem { account_id, service_flag, data }
}

fn user_payload(address: [u8; 20], data: &[u8], topics: &[[u8; 32]]) -> Vec<u8> {
    let mut bytes = address.to_vec();
    bytes.extend_from_slice(&(data.len() as u32).to_le_bytes());
    bytes.extend_from_slice(data);
    bytes.extend_from_slice(&(topics.len() as u32).to_le_bytes());
    for topic in topics {
        bytes.extend_from_slice(topic);
    }
    bytes
}

#[test]
fn little_endian_numbers_are_read_exactly() {
    let data = [0x78, 0x56, 0x34, 0x12, 0xef, 0xcd, 0xab, 0x90, 1, 0, 0, 0, 0, 0, 0, 0, 0xff];
    assert_eq!(read_u32_le(&data, 0), 0x1234_5678);
    assert_eq!(read_u64_le(&data, 0), 0x90ab_cdef_1234_5678);
    assert_eq!(read_u128_le(&data, 0), 0x0000_0000_0000_0001_90ab_cdef_1234_5678);
    assert_eq!(read_le(&data, 16, 1), 0xff);
    assert_eq!(read_le(&data, 3, 0), 0);
    assert_eq!(read_u32_le(&data, 13), 0xff00_0000);
}

#[test]
fn little_endian_numbers_are_written_exactly() {
    let mut out = vec![9u8];
    push_le(&mut out, 0x0102_0304, 4);
    assert_eq!(out, vec![9, 4, 3, 2, 1]);
    push_le(&mut out, 0x1_0000, 2);
    assert_eq!(out, vec![9, 4, 3, 2, 1, 0, 0]);
    push_le(&mut out, u128::MAX, 16);
    assert_eq!(out.len(), 23);
    assert_eq!(read_u128_le(&out, 7), u128::MAX);
}

#[test]
fn polyjuice_args_of_52_bytes_without_input_decode() {
    let bytes = polyjuice_head(0, 0, 0, 0, 0);
    assert_eq!(bytes.len(), 52);
    let args = PolyjuiceArgs::decode(&bytes).unwrap();
    assert!(!args.is_create);
    assert_eq!(args.gas_limit, 0);
    assert_eq!(args.gas_price, 0);
    assert_eq!(args.value, 0);
    assert_eq!(args.input, Some(vec![]));
}

#[test]
fn polyjuice_args_of_51_bytes_fail() {
    let mut bytes = polyjuice_head(0, 0, 0, 0, 0);
    bytes.pop();
    assert_eq!(PolyjuiceArgs::decode(&bytes).unwrap_err(), DecodeError::PolyjuiceArgsTooShort);
    assert_eq!(PolyjuiceArgs::decode(&[]).unwrap_err(), DecodeError::PolyjuiceArgsTooShort);
}

#[test]
fn polyjuice_args_fields_are_read_at_their_offsets() {
    let mut bytes = polyjuice_head(3, 21000, 20_000_000_000, 1_000_000_000_000_000_000, 3);
    bytes.extend_from_slice(&[0xaa, 0xbb, 0xcc, 0xdd]);
    let args = PolyjuiceArgs::decode(&bytes).unwrap();
    assert!(args.is_create);
    assert_eq!(args.gas_limit, 21000);
    assert_eq!(args.gas_price, 20_000_000_000);
    assert_eq!(args.value, 1_000_000_000_000_000_000);
    assert_eq!(args.input, Some(vec![0xaa, 0xbb, 0xcc]));
}

#[test]
fn polyjuice_selector_other_than_three_is_a_call() {
    for selector in [0u8, 1, 2, 4, 255] {
        let bytes = polyjuice_head(selector, 1, 2, 3, 0);
        assert!(!PolyjuiceArgs::decode(&bytes).unwrap().is_create);
    }
}

#[test]
fn polyjuice_input_at_the_limit_decodes_and_above_fails() {
    let mut bytes = polyjuice_head(0, 1, 1, 1, GW_L2TX_ARGS_MAX_SIZE);
    bytes.resize(52 + GW_L2TX_ARGS_MAX_SIZE as usize, 7);
    let args = PolyjuiceArgs::decode(&bytes).unwrap();
    assert_eq!(args.input.unwrap().len(), 128 * 1024);

    let mut bytes = polyjuice_head(0, 1, 1, 1, GW_L2TX_ARGS_MAX_SIZE + 1);
    bytes.resize(52 + GW_L2TX_ARGS_MAX_SIZE as usize + 1, 7);
    assert_eq!(PolyjuiceArgs::decode(&bytes).unwrap_err(), DecodeError::PolyjuiceInputTooLong);
}

#[test]
fn polyjuice_input_shorter_than_announced_fails() {
    let mut bytes = polyjuice_head(0, 1, 1, 1, 5);
    bytes.extend_from_slice(&[1, 2, 3, 4]);
    assert_eq!(PolyjuiceArgs::decode(&bytes).unwrap_err(), DecodeError::PolyjuiceInputTruncated);
}

#[test]
fn polyjuice_args_encode_then_decode_is_identity() {
    let cases = [
        PolyjuiceArgs { is_create: true, gas_limit: 21000, gas_price: 1, value: 0, input: Some(vec![0x60, 0x80]) },
        PolyjuiceArgs { is_create: false, gas_limit: u64::MAX, gas_price: u128::MAX, value: u128::MAX, input: Some(vec![]) },
        PolyjuiceArgs { is_create: false, gas_limit: 0, gas_price: 0, value: 7, input: Some(vec![0u8; 300]) },
    ];
    for args in cases {
        let bytes = args.encode().unwrap();
        assert_eq!(bytes.len(), 52 + args.input.as_ref().unwrap().len());
        let back = PolyjuiceArgs::decode(&bytes).unwrap();
        assert_eq!(back.is_create, args.is_create);
        assert_eq!(back.gas_limit, args.gas_limit);
        assert_eq!(back.gas_price, args.gas_price);
        assert_eq!(back.value, args.value);
        assert_eq!(back.input, args.input);
    }
}

#[test]
fn polyjuice_args_are_written_in_the_known_layout() {
    let args = PolyjuiceArgs { is_create: true, gas_limit: 0x0102, gas_price: 3, value: 4, input: Some(vec![9]) };
    let mut expected = polyjuice_head(3, 0x0102, 3, 4, 1);
    expected.push(9);
    assert_eq!(args.encode().unwrap(), expected);
}

#[test]
fn polyjuice_args_without_input_come_back_with_an_empty_one() {
    let args = PolyjuiceArgs::default();
    assert!(args.input.is_none());
    let back = PolyjuiceArgs::decode(&args.encode().unwrap()).unwrap();
    assert_eq!(back.input, Some(vec![]));
    assert!(!back.is_create);
}

#[test]
fn polyjuice_args_with_too_much_input_are_not_written() {
    let args = PolyjuiceArgs { is_create: false, gas_limit: 0, gas_price: 0, value: 0, input: Some(vec![0u8; 128 * 1024 + 1]) };
    assert!(args.encode().is_none());
}

fn sudt_payload(from: [u8; 20], to: [u8; 20], amount: u128) -> Vec<u8> {
    let mut bytes = vec![20u8];
    bytes.extend_from_slice(&from);
    bytes.extend_from_slice(&to);
    bytes.extend_from_slice(&amount.to_le_bytes());
    bytes
}

#[test]
fn sudt_transfer_log_decodes() {
    let log = parse_log(&item(GW_LOG_SUDT_TRANSFER, 5, sudt_payload([1; 20], [2; 20], 1234567))).unwrap();
    match log {
        GwLog::SudtTransfer { sudt_id, from_address, to_address, amount } => {
            assert_eq!(sudt_id, 5);
            assert_eq!(from_address, [1; 20]);
            assert_eq!(to_address, [2; 20]);
            assert_eq!(amount, 1234567);
        }
        other => panic!("unexpected log {:?}", other),
    }
}

#[test]
fn sudt_pay_fee_log_reads_the_second_address_as_the_producer() {
    let log = parse_log(&item(GW_LOG_SUDT_PAY_FEE, 1, sudt_payload([3; 20], [4; 20], u128::MAX))).unwrap();
    match log {
        GwLog::SudtPayFee { sudt_id, from_address, block_producer_address, amount } => {
            assert_eq!(sudt_id, 1);
            assert_eq!(from_address, [3; 20]);
            assert_eq!(block_producer_address, [4; 20]);
            assert_eq!(amount, u128::MAX);
        }
        other => panic!("unexpected log {:?}", other),
    }
}

#[test]
fn sudt_log_of_wrong_length_or_width_fails() {
    let mut short = sudt_payload([1; 20], [2; 20], 1);
    short.pop();
    assert_eq!(parse_log(&item(0, 1, short)).unwrap_err(), DecodeError::SudtLogLength);
    let mut long = sudt_payload([1; 20], [2; 20], 1);
    long.push(0);
    assert_eq!(parse_log(&item(1, 1, long)).unwrap_err(), DecodeError::SudtLogLength);
    let mut wide = sudt_payload([1; 20], [2; 20], 1);
    wide[0] = 21;
    assert_eq!(parse_log(&item(0, 1, wide)).unwrap_err(), DecodeError::SudtLogAddressWidth);
}

fn system_payload(gas_used: u64, cumulative: u64, created: [u8; 20], status: u32) -> Vec<u8> {
    let mut bytes = gas_used.to_le_bytes().to_vec();
    bytes.extend_from_slice(&cumulative.to_le_bytes());
    bytes.extend_from_slice(&created);
    bytes.extend_from_slice(&status.to_le_bytes());
    bytes
}

#[test]
fn polyjuice_system_log_decodes() {
    let log = parse_log(&item(GW_LOG_POLYJUICE_SYSTEM, 9, system_payload(21000, 42000, [0x11; 20], 2))).unwrap();
    match log {
        GwLog::PolyjuiceSystem { gas_used, cumulative_gas_used, created_address, status_code } => {
            assert_eq!(gas_used, 21000);
            assert_eq!(cumulative_gas_used, 42000);
            assert_eq!(created_address, [0x11; 20]);
            assert_eq!(status_code, 2);
        }
        other => panic!("unexpected log {:?}", other),
    }
}

#[test]
fn polyjuice_system_log_of_wrong_length_fails() {
    assert_eq!(parse_log(&item(2, 1, vec![0; 39])).unwrap_err(), DecodeError::SystemLogLength);
    assert_eq!(parse_log(&item(2, 1, vec![0; 41])).unwrap_err(), DecodeError::SystemLogLength);
}

#[test]
fn polyjuice_user_log_decodes() {
    let payload = user_payload([7; 20], &[1, 2, 3], &[[0xaa; 32], [0xbb; 32]]);
    let log = parse_log(&item(GW_LOG_POLYJUICE_USER, 1, payload)).unwrap();
    match log {
        GwLog::PolyjuiceUser { address, data, topics } => {
            assert_eq!(address, [7; 20]);
            assert_eq!(data, vec![1, 2, 3]);
            assert_eq!(topics, vec![[0xaa; 32], [0xbb; 32]]);
        }
        other => panic!("unexpected log {:?}", other),
    }
}

#[test]
fn polyjuice_user_log_with_4096_bytes_of_data_decodes() {
    let data = vec![5u8; GW_USER_LOG_DATA_MAX_SIZE as usize];
    let log = parse_log(&item(3, 1, user_payload([7; 20], &data, &[]))).unwrap();
    match log {
        GwLog::PolyjuiceUser { data: read, topics, .. } => {
            assert_eq!(read.len(), 4096);
            assert!(topics.is_empty());
        }
        other => panic!("unexpected log {:?}", other),
    }
}

#[test]
fn polyjuice_user_log_with_4097_bytes_of_data_fails() {
    let data = vec![5u8; 4097];
    assert_eq!(
        parse_log(&item(3, 1, user_payload([7; 20], &data, &[]))).unwrap_err(),
        DecodeError::UserLogDataTooLarge
    );
}

#[test]
fn polyjuice_user_log_shortfalls_fail() {
    assert_eq!(parse_log(&item(3, 1, vec![0; 23])).unwrap_err(), DecodeError::UserLogTooShort);
    let mut no_count = user_payload([7; 20], &[1, 2], &[]);
    no_count.truncate(26);
    assert_eq!(parse_log(&item(3, 1, no_count)).unwrap_err(), DecodeError::UserLogDataTruncated);
    let mut half_count = user_payload([7; 20], &[1, 2], &[]);
    half_count.truncate(28);
    assert_eq!(parse_log(&item(3, 1, half_count)).unwrap_err(), DecodeError::UserLogDataTruncated);
    let mut cut = user_payload([7; 20], &[1, 2], &[[1; 32], [2; 32]]);
    cut.pop();
    assert_eq!(parse_log(&item(3, 1, cut)).unwrap_err(), DecodeError::UserLogTopicsTruncated);
    let mut huge = user_payload([7; 20], &[], &[]);
    huge[24..28].copy_from_slice(&u32::MAX.to_le_bytes());
    assert_eq!(parse_log(&item(3, 1, huge)).unwrap_err(), DecodeError::UserLogTopicsTruncated);
}

#[test]
fn polyjuice_user_log_with_trailing_bytes_fails() {
    let mut payload = user_payload([7; 20], &[1, 2], &[[1; 32]]);
    payload.push(0);
    assert_eq!(parse_log(&item(3, 1, payload)).unwrap_err(), DecodeError::UserLogTrailingBytes);
}

#[test]
fn unknown_service_flag_fails() {
    assert_eq!(parse_log(&item(4, 1, vec![])).unwrap_err(), DecodeError::UnknownServiceFlag);
    assert_eq!(parse_log(&item(255, 1, vec![0; 57])).unwrap_err(), DecodeError::UnknownServiceFlag);
}

#[test]
fn each_log_variant_encodes_then_decodes_to_itself() {
    let logs = vec![
        GwLog::SudtTransfer { sudt_id: 3, from_address: [1; 20], to_address: [2; 20], amount: 99 },
        GwLog::SudtPayFee { sudt_id: 3, from_address: [1; 20], block_producer_address: [9; 20], amount: 1 << 100 },
        GwLog::PolyjuiceSystem { gas_used: 21000, cumulative_gas_used: 63000, created_address: [0; 20], status_code: 0 },
        GwLog::PolyjuiceUser { address: [4; 20], data: vec![1, 2, 3, 4, 5], topics: vec![[6; 32], [7; 32], [8; 32]] },
        GwLog::PolyjuiceUser { address: [4; 20], data: vec![], topics: vec![] },
    ];
    for log in logs {
        let again = parse_log(&item(log.service_flag(), 3, log.payload().unwrap())).unwrap();
        assert_eq!(format!("{:?}", again), format!("{:?}", log));
    }
}

#[test]
fn log_payloads_are_written_in_the_known_layout() {
    let transfer = GwLog::SudtTransfer { sudt_id: 3, from_address: [1; 20], to_address: [2; 20], amount: 99 };
    assert_eq!(transfer.service_flag(), 0);
    assert_eq!(transfer.payload().unwrap(), sudt_payload([1; 20], [2; 20], 99));
    let system = GwLog::PolyjuiceSystem { gas_used: 1, cumulative_gas_used: 2, created_address: [3; 20], status_code: 4 };
    assert_eq!(system.service_flag(), 2);
    assert_eq!(system.payload().unwrap(), system_payload(1, 2, [3; 20], 4));
    let user = GwLog::PolyjuiceUser { address: [4; 20], data: vec![1], topics: vec![[6; 32]] };
    assert_eq!(user.service_flag(), 3);
    assert_eq!(user.payload().unwrap(), user_payload([4; 20], &[1], &[[6; 32]]));
}

#[test]
fn user_log_with_too_much_data_is_not_written() {
    let user = GwLog::PolyjuiceUser { address: [4; 20], data: vec![0; 4097], topics: vec![] };
    assert!(user.payload().is_none());
}

#[test]
fn hex_writes_prefix_and_lowercase_digits() {
    assert_eq!(hex(&[0, 0xab, 0xff]), Ok("0x00abff".to_string()));
    assert_eq!(hex(&[]), Ok("0x".to_string()));
    assert_eq!(hex(&[0x12; 32]).unwrap().len(), 66);
    assert_eq!(hex(&[0x0f, 0xf0, 0x9a]), Ok("0x0ff09a".to_string()));
    assert_ne!(hex(&[1]), Err(HexError::TooLong));
}

#[test]
fn account_address_is_read_from_script_args() {
    let mut args = vec![0u8; 32];
    args.extend_from_slice(&[0x42; 20]);
    let script = Script { code_hash: [1; 32], hash_type: 1, args };
    assert_eq!(account_script_hash_to_eth_address(&Some(script)), [0x42; 20]);
}

#[test]
fn account_address_is_zero_for_short_args_or_no_script() {
    let script = Script { code_hash: [1; 32], hash_type: 1, args: vec![0xff; 51] };
    assert_eq!(account_script_hash_to_eth_address(&Some(script)), [0; 20]);
    assert_eq!(account_script_hash_to_eth_address(&None), [0; 20]);
}

#[test]
fn account_address_ignores_args_past_52_bytes() {
    let mut args = vec![0u8; 32];
    args.extend_from_slice(&[0x42; 20]);
    args.extend_from_slice(&[0x99; 8]);
    let script = Script { code_hash: [1; 32], hash_type: 1, args };
    assert_eq!(account_script_hash_to_eth_address(&Some(script)), [0x42; 20]);
}

#[test]
fn hex_of_long_input_has_two_digits_for_each_byte() {
    let raw: Vec<u8> = (0u8..=255).collect();
    let expected: String = raw.iter().map(|byte| format!("{:02x}", byte)).collect();
    assert_eq!(hex(&raw), Ok(format!("0x{}", expected)));
    let raw: Vec<u8> = (0u8..40).rev().collect();
    let expected: String = raw.iter().map(|byte| format!("{:02x}", byte)).collect();
    assert_eq!(hex(&raw), Ok(format!("0x{}", expected)));
}
