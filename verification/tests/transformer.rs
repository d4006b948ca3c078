use gw_web3_indexer::error::{DecodeError, TransformError};
use gw_web3_indexer::helper::{GwLog, PolyjuiceArgs};
use gw_web3_indexer::indexer::{
    split_signature, FilterRequest, Outcome, Pending, Web3Indexer, CKB_SUDT_ACCOUNT_ID,
};
use gw_web3_indexer::types::{
    L2Block, L2Transaction, LogItem, RegistryAddress, Script, SudtArgs, TxReceipt,
    Web3TransactionWithLogs, U256,
};
use std::collections::HashMap;

const SUDT_HASH: [u8; 32] = [0xa1; 32];
const POLYJUICE_HASH: [u8; 32] = [0xa2; 32];
const ROLLUP_HASH: [u8; 32] = [0xa3; 32];
const ETH_LOCK_HASH: [u8; 32] = [0xa4; 32];
const CHAIN_ID: u64 = 71394;

fn indexer() -> Web3Indexer {
    Web3Indexer::new(SUDT_HASH, POLYJUICE_HASH, ROLLUP_HASH, ETH_LOCK_HASH, CHAIN_ID)
}

fn eoa_script(address: [u8; 20]) -> Script {
    let mut args = ROLLUP_HASH.to_vec();
    args.extend_from_slice(&address);
    Script { code_hash: ETH_LOCK_HASH, hash_type: 1, args }
}

fn contract_script(address: [u8; 20]) -> Script {
    let mut args = ROLLUP_HASH.to_vec();
    args.extend_from_slice(&[1, 0, 0, 0]);
    args.extend_from_slice(&address);
    Script { code_hash: POLYJUICE_HASH, hash_type: 1, args }
}

fn sudt_script() -> Script {
    Script { code_hash: SUDT_HASH, hash_type: 1, args: vec![0; 32] }
}

fn polyjuice_tx(hash: u8, from_id: u32, to_id: u32, args: &PolyjuiceArgs) -> L2Transaction {
    L2Transaction {
        hash: [hash; 32],
        from_id,
        to_id,
        nonce: hash as u32,
        args: args.encode().unwrap(),
        signature: vec![],
        sudt_args: None,
    }
}

fn call_args(gas_limit: u64) -> PolyjuiceArgs {
    PolyjuiceArgs { is_create: false, gas_limit, gas_price: 2, value: 5, input: Some(vec![0xde, 0xad]) }
}

fn system_log(gas_used: u64, created: [u8; 20]) -> LogItem {
    let log = GwLog::PolyjuiceSystem { gas_used, cumulative_gas_used: 0, created_address: created, status_code: 0 };
    LogItem { account_id: 4, service_flag: log.service_flag(), data: log.payload().unwrap() }
}

fn user_log(address: [u8; 20], data: Vec<u8>, topics: Vec<[u8; 32]>) -> LogItem {
    let log = GwLog::PolyjuiceUser { address, data, topics };
    LogItem { account_id: 4, service_flag: log.service_flag(), data: log.payload().unwrap() }
}

fn transfer_log() -> LogItem {
    let log = GwLog::SudtTransfer { sudt_id: 1, from_address: [1; 20], to_address: [2; 20], amount: 3 };
    LogItem { account_id: 1, service_flag: log.service_flag(), data: log.payload().unwrap() }
}

fn block(number: u64, transactions: Vec<L2Transaction>) -> L2Block {
    L2Block {
        raw: vec![number as u8; 100],
        number,
        parent_block_hash: [0x77; 32],
        timestamp: 1_650_000_123_456,
        block_producer: Some(RegistryAddress { registry_id: 2, address: vec![0x99; 20] }),
        transactions,
    }
}

struct Rollup {
    scripts: HashMap<u32, Script>,
    receipts: HashMap<[u8; 32], TxReceipt>,
}

fn drive(
    indexer: &Web3Indexer,
    block: L2Block,
    rollup: &Rollup,
) -> (Result<Vec<Web3TransactionWithLogs>, TransformError>, Vec<FilterRequest>) {
    let mut asked = vec![];
    let mut filter = match indexer.filter_web3_transactions(block) {
        Ok(filter) => filter,
        Err(e) => return (Err(e), asked),
    };
    loop {
        let request = filter.request();
        asked.push(request);
        let next = match request {
            FilterRequest::Script { account_id } => {
                indexer.supply_script(filter, rollup.scripts.get(&account_id).cloned())
            }
            FilterRequest::Receipt { tx_hash } => {
                indexer.supply_receipt(filter, rollup.receipts.get(&tx_hash).cloned())
            }
            FilterRequest::Finished => {
                assert!(filter.is_finished());
                return (Ok(filter.into_transactions()), asked);
            }
        };
        filter = match next {
            Ok(filter) => filter,
            Err(e) => return (Err(e), asked),
        };
    }
}

fn two_account_rollup() -> Rollup {
    let mut scripts = HashMap::new();
    scripts.insert(10, eoa_script([0x10; 20]));
    scripts.insert(20, contract_script([0x20; 20]));
    scripts.insert(CKB_SUDT_ACCOUNT_ID, sudt_script());
    scripts.insert(30, Script { code_hash: [0xee; 32], hash_type: 1, args: eoa_script([0x30; 20]).args });
    scripts.insert(40, Script { code_hash: [0xdd; 32], hash_type: 1, args: vec![] });
    Rollup { scripts, receipts: HashMap::new() }
}

#[test]
fn empty_block_has_no_rows_and_no_gas() {
    let indexer = indexer();
    let l2_block = block(7, vec![]);
    let (rows, asked) = drive(&indexer, l2_block.clone(), &two_account_rollup());
    let rows = rows.unwrap();
    assert!(rows.is_empty());
    assert_eq!(asked, vec![FilterRequest::Finished]);
    let web3_block = indexer.build_web3_block(&l2_block, &rows).unwrap();
    assert_eq!(web3_block.number, 7);
    assert_eq!(web3_block.gas_used, 0);
    assert_eq!(web3_block.gas_limit, 0);
    assert_eq!(web3_block.size, 100);
    assert_eq!(web3_block.parent_hash, [0x77; 32]);
    assert_eq!(web3_block.miner, [0x99; 20]);
    assert_eq!(web3_block.timestamp, 1_650_000_123);
    assert!(Web3Indexer::insert_l2block(&rows).len() == 3);
}

#[test]
fn block_hash_is_the_blake2b_digest_of_the_raw_bytes() {
    let indexer = indexer();
    let mut l2_block = block(1, vec![]);
    l2_block.raw = vec![];
    let web3_block = indexer.build_web3_block(&l2_block, &vec![]).unwrap();
    assert_eq!(web3_block.hash, ckb_hash::BLANK_HASH);
    assert_eq!(web3_block.size, 0);
    l2_block.raw = b"ckb".to_vec();
    let web3_block = indexer.build_web3_block(&l2_block, &vec![]).unwrap();
    assert_eq!(web3_block.hash, ckb_hash::blake2b_256(b"ckb"));
    assert_ne!(web3_block.hash, ckb_hash::BLANK_HASH);
}

#[test]
fn contract_creation_names_the_created_address() {
    let indexer = indexer();
    let args = PolyjuiceArgs { is_create: true, gas_limit: 100_000, gas_price: 1, value: 0, input: Some(vec![0x60, 0x80, 0x60, 0x40]) };
    let tx = polyjuice_tx(1, 10, 20, &args);
    let mut rollup = two_account_rollup();
    rollup.receipts.insert([1; 32], TxReceipt { exit_code: 0, logs: vec![system_log(21000, [0x11; 20])] });
    let (rows, asked) = drive(&indexer, block(3, vec![tx]), &rollup);
    let rows = rows.unwrap();
    assert_eq!(rows.len(), 1);
    let row = &rows[0].tx;
    assert_eq!(row.to_address, None);
    assert_eq!(row.contract_address, Some([0x11; 20]));
    assert_eq!(row.gas_used, 21000);
    assert_eq!(row.cumulative_gas_used, 21000);
    assert_eq!(row.gas_limit, 100_000);
    assert_eq!(row.gas_price, 1);
    assert_eq!(row.from_address, [0x10; 20]);
    assert_eq!(row.input, vec![0x60, 0x80, 0x60, 0x40]);
    assert_eq!(row.chain_id, Some(CHAIN_ID));
    assert_eq!(row.block_number, 3);
    assert_eq!(row.block_hash, ckb_hash::blake2b_256(vec![3u8; 100]));
    assert_eq!(row.transaction_index, 0);
    assert_eq!(row.gw_tx_hash, [1; 32]);
    assert_eq!(row.nonce, 1);
    assert_eq!(row.value, U256 { hi: 0, lo: 0 });
    assert_eq!((row.v, row.r, row.s), (0, [0; 32], [0; 32]));
    assert!(rows[0].logs.is_empty());
    assert_eq!(
        asked,
        vec![
            FilterRequest::Script { account_id: 10 },
            FilterRequest::Script { account_id: 20 },
            FilterRequest::Receipt { tx_hash: [1; 32] },
            FilterRequest::Finished,
        ]
    );
}

#[test]
fn creation_that_deployed_nothing_names_no_contract() {
    let indexer = indexer();
    let args = PolyjuiceArgs { is_create: true, gas_limit: 100_000, gas_price: 1, value: 0, input: Some(vec![]) };
    let mut rollup = two_account_rollup();
    rollup.receipts.insert([1; 32], TxReceipt { exit_code: 2, logs: vec![system_log(500, [0; 20])] });
    let (rows, _) = drive(&indexer, block(3, vec![polyjuice_tx(1, 10, 20, &args)]), &rollup);
    let rows = rows.unwrap();
    assert_eq!(rows[0].tx.contract_address, None);
    assert_eq!(rows[0].tx.to_address, None);
    assert_eq!(rows[0].tx.exit_code, 2);
}

#[test]
fn call_never_names_a_contract_address() {
    let indexer = indexer();
    let mut rollup = two_account_rollup();
    rollup.receipts.insert([1; 32], TxReceipt { exit_code: 0, logs: vec![system_log(500, [0x11; 20])] });
    let (rows, _) = drive(&indexer, block(3, vec![polyjuice_tx(1, 10, 20, &call_args(900))]), &rollup);
    let rows = rows.unwrap();
    assert_eq!(rows[0].tx.contract_address, None);
    assert_eq!(rows[0].tx.to_address, Some([0x20; 20]));
    assert_eq!(rows[0].tx.value, U256 { hi: 0, lo: 5 });
}

#[test]
fn two_calls_with_one_user_log_each() {
    let indexer = indexer();
    let mut rollup = two_account_rollup();
    rollup.receipts.insert(
        [1; 32],
        TxReceipt {
            exit_code: 0,
            logs: vec![transfer_log(), system_log(30_000, [0; 20]), user_log([0x20; 20], vec![1], vec![[0xaa; 32]])],
        },
    );
    rollup.receipts.insert(
        [2; 32],
        TxReceipt {
            exit_code: 0,
            logs: vec![user_log([0x20; 20], vec![2, 2], vec![]), system_log(45_000, [0; 20]), system_log(1, [0; 20])],
        },
    );
    let l2_block = block(9, vec![polyjuice_tx(1, 10, 20, &call_args(50_000)), polyjuice_tx(2, 10, 20, &call_args(60_000))]);
    let (rows, _) = drive(&indexer, l2_block.clone(), &rollup);
    let rows = rows.unwrap();
    assert_eq!(rows.len(), 2);
    assert_eq!(rows[0].tx.transaction_index, 0);
    assert_eq!(rows[1].tx.transaction_index, 1);
    assert_eq!(rows[0].tx.cumulative_gas_used, 30_000);
    assert_eq!(rows[1].tx.cumulative_gas_used, 75_000);
    assert_eq!(rows[0].tx.gas_used, 30_000);
    assert_eq!(rows[1].tx.gas_used, 45_000);
    assert_eq!(rows[0].logs.len(), 1);
    assert_eq!(rows[1].logs.len(), 1);
    assert_eq!(rows[0].logs[0].log_index, 0);
    assert_eq!(rows[1].logs[0].log_index, 0);
    assert_eq!(rows[0].logs[0].transaction_index, 0);
    assert_eq!(rows[1].logs[0].transaction_index, 1);
    assert_eq!(rows[0].logs[0].transaction_hash, [1; 32]);
    assert_eq!(rows[1].logs[0].data, vec![2, 2]);
    assert_eq!(rows[0].logs[0].topics, vec![[0xaa; 32]]);
    assert_eq!(rows[0].logs[0].address, [0x20; 20]);
    assert_eq!(rows[1].logs[0].block_number, 9);
    assert_eq!(rows[1].logs[0].block_hash, rows[1].tx.block_hash);

    let web3_block = indexer.build_web3_block(&l2_block, &rows).unwrap();
    assert_eq!(web3_block.gas_used, 75_000);
    assert_eq!(web3_block.gas_limit, 110_000);
}

#[test]
fn user_logs_of_one_transaction_are_numbered_from_zero() {
    let indexer = indexer();
    let mut rollup = two_account_rollup();
    rollup.receipts.insert(
        [1; 32],
        TxReceipt {
            exit_code: 0,
            logs: vec![
                user_log([1; 20], vec![0], vec![]),
                transfer_log(),
                user_log([2; 20], vec![1], vec![]),
                system_log(10, [0; 20]),
                user_log([3; 20], vec![2], vec![]),
            ],
        },
    );
    let (rows, _) = drive(&indexer, block(9, vec![polyjuice_tx(1, 10, 20, &call_args(50))]), &rollup);
    let rows = rows.unwrap();
    let logs = &rows[0].logs;
    assert_eq!(logs.len(), 3);
    for (j, log) in logs.iter().enumerate() {
        assert_eq!(log.log_index as usize, j);
        assert_eq!(log.data, vec![j as u8]);
    }
    assert_eq!(logs[2].address, [3; 20]);
}

#[test]
fn sender_with_a_lock_that_is_not_allowed_is_left_out() {
    let indexer = indexer();
    let mut rollup = two_account_rollup();
    rollup.receipts.insert([2; 32], TxReceipt { exit_code: 0, logs: vec![system_log(700, [0; 20])] });
    let l2_block = block(9, vec![polyjuice_tx(1, 30, 20, &call_args(50)), polyjuice_tx(2, 10, 20, &call_args(60))]);
    let (rows, asked) = drive(&indexer, l2_block, &rollup);
    let rows = rows.unwrap();
    assert_eq!(rows.len(), 1);
    assert_eq!(rows[0].tx.gw_tx_hash, [2; 32]);
    assert_eq!(rows[0].tx.transaction_index, 0);
    assert_eq!(rows[0].tx.cumulative_gas_used, 700);
    assert_eq!(
        asked,
        vec![
            FilterRequest::Script { account_id: 30 },
            FilterRequest::Script { account_id: 10 },
            FilterRequest::Script { account_id: 20 },
            FilterRequest::Receipt { tx_hash: [2; 32] },
            FilterRequest::Finished,
        ]
    );
}

#[test]
fn destination_that_is_neither_polyjuice_nor_token_is_left_out() {
    let indexer = indexer();
    let rollup = two_account_rollup();
    let (rows, asked) = drive(&indexer, block(9, vec![polyjuice_tx(1, 10, 40, &call_args(50))]), &rollup);
    assert!(rows.unwrap().is_empty());
    assert_eq!(asked.len(), 3);
}

#[test]
fn missing_scripts_fail_the_block() {
    let indexer = indexer();
    let rollup = two_account_rollup();
    let (rows, _) = drive(&indexer, block(9, vec![polyjuice_tx(1, 11, 20, &call_args(50))]), &rollup);
    assert_eq!(rows.unwrap_err(), TransformError::ScriptNotFound { account_id: 11 });
    let (rows, _) = drive(&indexer, block(9, vec![polyjuice_tx(1, 10, 21, &call_args(50))]), &rollup);
    assert_eq!(rows.unwrap_err(), TransformError::ScriptNotFound { account_id: 21 });
}

#[test]
fn sender_args_must_be_52_bytes_under_the_rollup_hash() {
    let indexer = indexer();
    let mut rollup = two_account_rollup();
    let mut long = eoa_script([0x10; 20]);
    long.args.push(0);
    rollup.scripts.insert(12, long);
    let mut foreign = eoa_script([0x10; 20]);
    foreign.args[31] ^= 1;
    rollup.scripts.insert(13, foreign);
    let mut short = eoa_script([0x10; 20]);
    short.args.truncate(20);
    rollup.scripts.insert(14, short);
    for from_id in [12, 13, 14] {
        let (rows, asked) = drive(&indexer, block(9, vec![polyjuice_tx(1, from_id, 20, &call_args(50))]), &rollup);
        assert_eq!(rows.unwrap_err(), TransformError::WrongSenderArgs);
        assert_eq!(asked.len(), 1);
    }
}

#[test]
fn undecodable_polyjuice_args_fail_the_block() {
    let indexer = indexer();
    let rollup = two_account_rollup();
    let mut tx = polyjuice_tx(1, 10, 20, &call_args(50));
    tx.args.truncate(51);
    let (rows, _) = drive(&indexer, block(9, vec![tx]), &rollup);
    assert_eq!(rows.unwrap_err(), TransformError::Decode(DecodeError::PolyjuiceArgsTooShort));
}

#[test]
fn missing_receipt_fails_the_block() {
    let indexer = indexer();
    let rollup = two_account_rollup();
    let (rows, _) = drive(&indexer, block(9, vec![polyjuice_tx(1, 10, 20, &call_args(50))]), &rollup);
    assert_eq!(rows.unwrap_err(), TransformError::ReceiptNotFound);
}

#[test]
fn receipt_without_system_log_fails_the_block() {
    let indexer = indexer();
    let mut rollup = two_account_rollup();
    rollup.receipts.insert([1; 32], TxReceipt { exit_code: 0, logs: vec![user_log([1; 20], vec![], vec![]), transfer_log()] });
    let (rows, _) = drive(&indexer, block(9, vec![polyjuice_tx(1, 10, 20, &call_args(50))]), &rollup);
    assert_eq!(rows.unwrap_err(), TransformError::MissingSystemLog);
}

#[test]
fn undecodable_logs_fail_the_block() {
    let indexer = indexer();
    let mut rollup = two_account_rollup();
    let mut broken_system = system_log(1, [0; 20]);
    broken_system.data.pop();
    rollup.receipts.insert([1; 32], TxReceipt { exit_code: 0, logs: vec![broken_system] });
    let (rows, _) = drive(&indexer, block(9, vec![polyjuice_tx(1, 10, 20, &call_args(50))]), &rollup);
    assert_eq!(rows.unwrap_err(), TransformError::Decode(DecodeError::SystemLogLength));

    let mut broken_user = user_log([1; 20], vec![1], vec![]);
    broken_user.data.push(0);
    rollup.receipts.insert([1; 32], TxReceipt { exit_code: 0, logs: vec![system_log(1, [0; 20]), broken_user] });
    let (rows, _) = drive(&indexer, block(9, vec![polyjuice_tx(1, 10, 20, &call_args(50))]), &rollup);
    assert_eq!(rows.unwrap_err(), TransformError::Decode(DecodeError::UserLogTrailingBytes));

    let unknown = LogItem { account_id: 1, service_flag: 9, data: vec![] };
    rollup.receipts.insert([1; 32], TxReceipt { exit_code: 0, logs: vec![unknown, system_log(1, [0; 20])] });
    let (rows, _) = drive(&indexer, block(9, vec![polyjuice_tx(1, 10, 20, &call_args(50))]), &rollup);
    assert_eq!(rows.unwrap_err(), TransformError::Decode(DecodeError::UnknownServiceFlag));
}

fn sudt_tx(hash: u8, to_id: u32, sudt_args: Option<SudtArgs>) -> L2Transaction {
    L2Transaction { hash: [hash; 32], from_id: 10, to_id, nonce: 4, args: vec![1, 2, 3], signature: vec![], sudt_args }
}

fn transfer(to: Vec<u8>, amount: U256, fee: u128) -> SudtArgs {
    SudtArgs::Transfer { to_address: Some(RegistryAddress { registry_id: 2, address: to }), amount, fee }
}

#[test]
fn token_transfer_pays_its_fee_as_gas() {
    let indexer = indexer();
    let mut rollup = two_account_rollup();
    rollup.receipts.insert([5; 32], TxReceipt { exit_code: 0, logs: vec![transfer_log()] });
    rollup.receipts.insert([6; 32], TxReceipt { exit_code: 1, logs: vec![system_log(100, [0; 20])] });
    let l2_block = block(
        2,
        vec![
            sudt_tx(5, CKB_SUDT_ACCOUNT_ID, Some(transfer(vec![0x55; 20], U256 { hi: 1, lo: 2 }, 300))),
            polyjuice_tx(6, 10, 20, &call_args(1000)),
        ],
    );
    let (rows, _) = drive(&indexer, l2_block.clone(), &rollup);
    let rows = rows.unwrap();
    assert_eq!(rows.len(), 2);
    let row = &rows[0].tx;
    assert_eq!(row.to_address, Some([0x55; 20]));
    assert_eq!(row.value, U256 { hi: 1, lo: 2 });
    assert_eq!(row.gas_limit, 300);
    assert_eq!(row.gas_used, 300);
    assert_eq!(row.gas_price, 1);
    assert_eq!(row.cumulative_gas_used, 300);
    assert_eq!(row.contract_address, None);
    assert!(row.input.is_empty());
    assert_eq!(row.chain_id, None);
    assert_eq!(row.nonce, 4);
    assert!(rows[0].logs.is_empty());
    assert_eq!(rows[1].tx.transaction_index, 1);
    assert_eq!(rows[1].tx.cumulative_gas_used, 400);
    assert_eq!(rows[1].tx.exit_code, 1);
    let web3_block = indexer.build_web3_block(&l2_block, &rows).unwrap();
    assert_eq!(web3_block.gas_used, 400);
    assert_eq!(web3_block.gas_limit, 1300);
}

#[test]
fn token_query_and_transfer_to_odd_address_are_left_out() {
    let indexer = indexer();
    let mut rollup = two_account_rollup();
    rollup.receipts.insert([8; 32], TxReceipt { exit_code: 0, logs: vec![] });
    let l2_block = block(
        2,
        vec![
            sudt_tx(5, CKB_SUDT_ACCOUNT_ID, Some(SudtArgs::Query)),
            sudt_tx(6, CKB_SUDT_ACCOUNT_ID, Some(transfer(vec![0x55; 19], U256 { hi: 0, lo: 2 }, 300))),
            sudt_tx(7, CKB_SUDT_ACCOUNT_ID, Some(SudtArgs::Transfer { to_address: None, amount: U256 { hi: 0, lo: 2 }, fee: 1 })),
            sudt_tx(8, CKB_SUDT_ACCOUNT_ID, Some(transfer(vec![0x55; 20], U256 { hi: 0, lo: 2 }, 9))),
        ],
    );
    let (rows, _) = drive(&indexer, l2_block, &rollup);
    let rows = rows.unwrap();
    assert_eq!(rows.len(), 1);
    assert_eq!(rows[0].tx.gw_tx_hash, [8; 32]);
    assert_eq!(rows[0].tx.transaction_index, 0);
    assert_eq!(rows[0].tx.cumulative_gas_used, 9);
}

#[test]
fn token_script_under_another_account_id_is_left_out() {
    let indexer = indexer();
    let mut rollup = two_account_rollup();
    rollup.scripts.insert(50, sudt_script());
    let (rows, _) = drive(&indexer, block(2, vec![sudt_tx(5, 50, Some(transfer(vec![0x55; 20], U256 { hi: 0, lo: 2 }, 300)))]), &rollup);
    assert!(rows.unwrap().is_empty());
}

#[test]
fn unreadable_token_args_fail_the_block() {
    let indexer = indexer();
    let rollup = two_account_rollup();
    let (rows, _) = drive(&indexer, block(2, vec![sudt_tx(5, CKB_SUDT_ACCOUNT_ID, None)]), &rollup);
    assert_eq!(rows.unwrap_err(), TransformError::SudtArgsUnreadable);
}

#[test]
fn gas_that_does_not_add_up_fails_the_block() {
    let indexer = indexer();
    let mut rollup = two_account_rollup();
    rollup.receipts.insert([5; 32], TxReceipt { exit_code: 0, logs: vec![] });
    rollup.receipts.insert([6; 32], TxReceipt { exit_code: 0, logs: vec![] });
    let l2_block = block(
        2,
        vec![
            sudt_tx(5, CKB_SUDT_ACCOUNT_ID, Some(transfer(vec![0x55; 20], U256 { hi: 0, lo: 2 }, u128::MAX))),
            sudt_tx(6, CKB_SUDT_ACCOUNT_ID, Some(transfer(vec![0x55; 20], U256 { hi: 0, lo: 2 }, 1))),
        ],
    );
    let (rows, _) = drive(&indexer, l2_block, &rollup);
    assert_eq!(rows.unwrap_err(), TransformError::GasOverflow);
}

#[test]
fn answers_out_of_turn_are_refused() {
    let indexer = indexer();
    let filter = indexer.filter_web3_transactions(block(2, vec![polyjuice_tx(1, 10, 20, &call_args(1))])).unwrap();
    assert_eq!(filter.request(), FilterRequest::Script { account_id: 10 });
    let refused = indexer.supply_receipt(filter, None);
    assert!(matches!(refused, Err(TransformError::OutOfTurn)));

    let filter = indexer.filter_web3_transactions(block(2, vec![])).unwrap();
    assert!(matches!(indexer.supply_script(filter, None), Err(TransformError::OutOfTurn)));

    let rollup = two_account_rollup();
    let filter = indexer.filter_web3_transactions(block(2, vec![polyjuice_tx(1, 10, 20, &call_args(1))])).unwrap();
    let filter = indexer.supply_script(filter, rollup.scripts.get(&10).cloned()).unwrap();
    let filter = indexer.supply_script(filter, rollup.scripts.get(&20).cloned()).unwrap();
    assert_eq!(filter.request(), FilterRequest::Receipt { tx_hash: [1; 32] });
    assert!(!filter.is_finished());
    assert!(matches!(indexer.supply_script(filter, None), Err(TransformError::OutOfTurn)));
}

#[test]
fn signature_of_65_bytes_is_cut_into_r_s_v() {
    let mut signature = vec![0x0a; 32];
    signature.extend_from_slice(&[0x0b; 32]);
    signature.push(1);
    assert_eq!(split_signature(&signature), ([0x0a; 32], [0x0b; 32], 1));
}

#[test]
fn signature_of_another_length_gives_zeros() {
    for len in [0usize, 1, 64, 66, 130] {
        assert_eq!(split_signature(&vec![0xff; len]), ([0; 32], [0; 32], 0));
    }
}

#[test]
fn rows_carry_the_signature_of_the_transaction() {
    let indexer = indexer();
    let mut rollup = two_account_rollup();
    rollup.receipts.insert([1; 32], TxReceipt { exit_code: 0, logs: vec![system_log(1, [0; 20])] });
    let mut tx = polyjuice_tx(1, 10, 20, &call_args(50));
    tx.signature = (0u8..65).collect();
    let (rows, _) = drive(&indexer, block(9, vec![tx]), &rollup);
    let rows = rows.unwrap();
    assert_eq!(rows[0].tx.r.to_vec(), (0u8..32).collect::<Vec<u8>>());
    assert_eq!(rows[0].tx.s.to_vec(), (32u8..64).collect::<Vec<u8>>());
    assert_eq!(rows[0].tx.v, 64);
}

#[test]
fn miner_is_zero_without_a_20_byte_producer_address() {
    let indexer = indexer();
    let mut l2_block = block(1, vec![]);
    l2_block.block_producer = None;
    assert_eq!(indexer.build_web3_block(&l2_block, &vec![]).unwrap().miner, [0; 20]);
    l2_block.block_producer = Some(RegistryAddress { registry_id: 2, address: vec![] });
    assert_eq!(indexer.build_web3_block(&l2_block, &vec![]).unwrap().miner, [0; 20]);
    l2_block.block_producer = Some(RegistryAddress { registry_id: 2, address: vec![1; 32] });
    assert_eq!(indexer.build_web3_block(&l2_block, &vec![]).unwrap().miner, [0; 20]);
}

#[test]
fn timestamp_is_in_whole_seconds() {
    let indexer = indexer();
    let mut l2_block = block(1, vec![]);
    for (millis, seconds) in [(0u64, 0u64), (999, 0), (1000, 1), (1999, 1), (u64::MAX, u64::MAX / 1000)] {
        l2_block.timestamp = millis;
        assert_eq!(indexer.build_web3_block(&l2_block, &vec![]).unwrap().timestamp, seconds);
    }
}

#[test]
fn polyjuice_contract_with_short_args_gives_the_zero_address() {
    let indexer = indexer();
    let mut rollup = two_account_rollup();
    let mut script = contract_script([0x20; 20]);
    script.args.truncate(55);
    rollup.scripts.insert(20, script);
    rollup.receipts.insert([1; 32], TxReceipt { exit_code: 0, logs: vec![system_log(1, [0; 20])] });
    let (rows, _) = drive(&indexer, block(9, vec![polyjuice_tx(1, 10, 20, &call_args(50))]), &rollup);
    assert_eq!(rows.unwrap()[0].tx.to_address, Some([0; 20]));
}

#[test]
fn stages_decide_as_the_machine_does() {
    let indexer = indexer();
    assert!(indexer.allows(&ETH_LOCK_HASH));
    assert!(!indexer.allows(&POLYJUICE_HASH));
    assert!(matches!(indexer.check_sender(1, &Some(eoa_script([3; 20]))), Outcome::Proceed(a) if a == [3; 20]));
    assert!(matches!(indexer.check_sender(1, &Some(sudt_script())), Outcome::Skip));
    assert!(matches!(indexer.check_sender(1, &None), Outcome::Fail(TransformError::ScriptNotFound { account_id: 1 })));
    let tx = polyjuice_tx(1, 10, 20, &call_args(50));
    match indexer.check_destination(&tx, &Some(contract_script([8; 20]))) {
        Outcome::Proceed(Pending::Polyjuice { args, callee }) => {
            assert_eq!(args.gas_limit, 50);
            assert_eq!(callee, [8; 20]);
        }
        other => panic!("unexpected outcome {:?}", other),
    }
}

#[test]
fn block_is_stored_above_the_tip_or_where_it_is_not_held() {
    let indexer = indexer();
    assert!(indexer.store_l2_block(5, Some(4), false));
    assert!(indexer.store_l2_block(5, Some(4), true));
    assert!(!indexer.store_l2_block(4, Some(4), true));
    assert!(indexer.store_l2_block(3, Some(4), false));
    assert!(indexer.store_l2_block(0, None, false));
    assert!(!indexer.store_l2_block(0, None, true));
    assert!(indexer.store_l2_block(1, None, true));
}

#[test]
fn block_whose_gas_limits_do_not_add_up_has_no_row() {
    let indexer = indexer();
    let mut rollup = two_account_rollup();
    rollup.receipts.insert([5; 32], TxReceipt { exit_code: 0, logs: vec![] });
    let one = |fee: u128| {
        let l2_block = block(2, vec![sudt_tx(5, CKB_SUDT_ACCOUNT_ID, Some(transfer(vec![0x55; 20], U256 { hi: 0, lo: 2 }, fee)))]);
        drive(&indexer, l2_block, &rollup).0.unwrap().remove(0)
    };
    let rows = vec![one(u128::MAX), one(1)];
    assert_eq!(indexer.build_web3_block(&block(2, vec![]), &rows).unwrap_err(), TransformError::GasOverflow);
    let rows = vec![one(u128::MAX - 1), one(1)];
    let web3_block = indexer.build_web3_block(&block(2, vec![]), &rows).unwrap();
    assert_eq!(web3_block.gas_limit, u128::MAX);
    assert_eq!(web3_block.gas_used, u128::MAX);
}
