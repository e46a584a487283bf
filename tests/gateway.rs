use tenderly::executor::TransactionExecutorImpl;
use tenderly::gateway::{
    data_input_accepted, exec_new_tx_executor, exec_tx_complete, exec_tx_get_output_data,
    exec_tx_get_output_uint64, exec_tx_prepare, exec_tx_set_property_data,
    exec_tx_set_property_func, exec_tx_set_property_uint64, uint64_input_accepted,
    TransactionExecutor, TxExecImpl,
};
use tenderly::host::HostCallback;
use tenderly::property::{
    TX_OUTPUT_RETURN_DATA, TX_OUTPUT_USED_GAS, TX_PROPERTY_BATCH_PARENT_HASH,
    TX_PROPERTY_BLOCK_COINBASE, TX_PROPERTY_BLOCK_GAS_LIMIT, TX_PROPERTY_BLOCK_NUMBER,
    TX_PROPERTY_ENV_GET_STORAGE, TX_PROPERTY_OPT_CHECK_NONCE, TX_PROPERTY_TX_DATA,
    TX_PROPERTY_TX_FROM, TX_PROPERTY_TX_NONCE, TX_PROPERTY_TX_TO, TX_PROPERTY_TX_TYPE,
    TX_PROPERTY_TX_VALUE,
};
use tenderly::records::{EngineReport, ExecutionResult, ExecutionStatus, TransactionType};

/// A host storage that answers every read with one fixed word.
#[derive(Debug)]
struct FixedStorage {
    word: [u8; 32],
    reads: usize,
}

impl HostCallback for FixedStorage {
    fn call(&mut self, _subject: &[u8], _key: &[u8], output: &mut [u8]) -> u64 {
        self.reads += 1;
        output.copy_from_slice(&self.word);
        0
    }
}

type Handle = TxExecImpl<TransactionExecutorImpl<FixedStorage>>;

fn handle() -> Box<Handle> {
    exec_new_tx_executor()
}

fn snapshot(tx: &Handle) -> String {
    format!("{:?}", tx)
}

fn completed(gas_used: u64, output: Vec<u8>) -> EngineReport {
    EngineReport::Completed(ExecutionResult {
        status: ExecutionStatus::Success,
        output,
        gas_used,
    })
}

#[test]
fn new_handle_reports_nothing() {
    let tx = handle();
    assert_eq!(tx.0.get_used_gas(), 0);
    assert_eq!(tx.0.get_return_data(), Vec::<u8>::new());
    assert_eq!(exec_tx_get_output_uint64(&tx, TX_OUTPUT_USED_GAS), Some(0));
    assert_eq!(exec_tx_get_output_data(&tx, TX_OUTPUT_RETURN_DATA), Some(vec![]));
}

#[test]
fn unknown_uint64_id_changes_nothing() {
    let mut tx = handle();
    exec_tx_set_property_uint64(&mut tx, TX_PROPERTY_TX_NONCE, 9);
    let before = snapshot(&tx);
    assert!(!exec_tx_set_property_uint64(&mut tx, 0xdead, 42));
    // an identifier of another namespace is unknown here too
    assert!(!exec_tx_set_property_uint64(&mut tx, TX_PROPERTY_TX_DATA, 42));
    assert_eq!(snapshot(&tx), before);
}

#[test]
fn unknown_data_id_changes_nothing() {
    let mut tx = handle();
    let before = snapshot(&tx);
    assert!(!exec_tx_set_property_data(&mut tx, 0xbeef, &[1, 2, 3]));
    assert!(!exec_tx_set_property_data(&mut tx, TX_PROPERTY_TX_NONCE, &[1]));
    assert_eq!(snapshot(&tx), before);
}

#[test]
fn unknown_callback_id_changes_nothing() {
    let mut tx = handle();
    let before = snapshot(&tx);
    let cb = FixedStorage { word: [7; 32], reads: 0 };
    assert!(!exec_tx_set_property_func(&mut tx, 0x77, cb));
    assert_eq!(snapshot(&tx), before);
    assert!(tx.0.storage.get_storage.is_none());
}

#[test]
fn unknown_output_ids_read_nothing() {
    let tx = handle();
    assert_eq!(exec_tx_get_output_uint64(&tx, 0x1234), None);
    assert_eq!(exec_tx_get_output_data(&tx, TX_OUTPUT_USED_GAS), None);
}

#[test]
fn last_uint64_write_wins() {
    let mut tx = handle();
    assert!(exec_tx_set_property_uint64(&mut tx, TX_PROPERTY_TX_NONCE, 5));
    assert!(exec_tx_set_property_uint64(&mut tx, TX_PROPERTY_TX_NONCE, 7));
    assert!(exec_tx_set_property_uint64(&mut tx, TX_PROPERTY_BLOCK_NUMBER, 11));
    let env = exec_tx_prepare(&tx);
    assert_eq!(env.transaction.fields.nonce, 7);
    assert_eq!(env.batch.first_l2_block.number, 11);
}

#[test]
fn last_data_write_wins() {
    let mut tx = handle();
    assert!(exec_tx_set_property_data(&mut tx, TX_PROPERTY_TX_DATA, &[1, 2, 3]));
    assert!(exec_tx_set_property_data(&mut tx, TX_PROPERTY_TX_DATA, &[9]));
    let from_a = [0x11u8; 20];
    let from_b = [0x22u8; 20];
    assert!(exec_tx_set_property_data(&mut tx, TX_PROPERTY_TX_FROM, &from_a));
    assert!(exec_tx_set_property_data(&mut tx, TX_PROPERTY_TX_FROM, &from_b));
    let env = exec_tx_prepare(&tx);
    assert_eq!(env.transaction.calldata, vec![9]);
    assert_eq!(env.transaction.fields.initiator_address, from_b);
}

#[test]
fn amount_is_left_padded_big_endian() {
    let mut tx = handle();
    assert!(exec_tx_set_property_data(&mut tx, TX_PROPERTY_TX_VALUE, &[0x01, 0x02]));
    let env = exec_tx_prepare(&tx);
    let mut expected = [0u8; 32];
    expected[30] = 0x01;
    expected[31] = 0x02;
    assert_eq!(env.transaction.fields.value, expected);
}

#[test]
fn gas_limit_from_integer_is_big_endian_word() {
    let mut tx = handle();
    assert!(exec_tx_set_property_uint64(&mut tx, TX_PROPERTY_BLOCK_GAS_LIMIT, 0x0102_0304_0506_0708));
    let env = exec_tx_prepare(&tx);
    let mut expected = [0u8; 32];
    expected[24..].copy_from_slice(&[1, 2, 3, 4, 5, 6, 7, 8]);
    assert_eq!(env.transaction.fields.fee.gas_limit, expected);
}

#[test]
fn batch_parent_hash_becomes_present() {
    let mut tx = handle();
    assert!(exec_tx_prepare(&tx).batch.previous_batch_hash.is_none());
    assert!(exec_tx_set_property_data(&mut tx, TX_PROPERTY_BATCH_PARENT_HASH, &[0xab; 32]));
    assert_eq!(exec_tx_prepare(&tx).batch.previous_batch_hash, Some([0xab; 32]));
}

#[test]
fn unmodeled_inputs_leave_environment_alone() {
    let mut tx = handle();
    let before = format!("{:?}", exec_tx_prepare(&tx));
    assert!(exec_tx_set_property_uint64(&mut tx, TX_PROPERTY_OPT_CHECK_NONCE, 1));
    assert!(exec_tx_set_property_data(&mut tx, TX_PROPERTY_BLOCK_COINBASE, &[5; 20]));
    assert_eq!(format!("{:?}", exec_tx_prepare(&tx)), before);
}

#[test]
fn transaction_type_code_is_decoded() {
    let mut tx = handle();
    assert!(uint64_input_accepted(TX_PROPERTY_TX_TYPE, 113));
    assert!(exec_tx_set_property_uint64(&mut tx, TX_PROPERTY_TX_TYPE, 113));
    assert_eq!(exec_tx_prepare(&tx).transaction.fields.transaction_type, TransactionType::Eip712);
    assert!(exec_tx_set_property_uint64(&mut tx, TX_PROPERTY_TX_TYPE, 2));
    assert_eq!(exec_tx_prepare(&tx).transaction.fields.transaction_type, TransactionType::Eip1559);
}

#[test]
fn malformed_values_are_refused_before_writing() {
    assert!(!uint64_input_accepted(TX_PROPERTY_TX_TYPE, 5));
    assert!(uint64_input_accepted(TX_PROPERTY_TX_NONCE, u64::MAX));
    assert!(uint64_input_accepted(0xdead, 5));
    assert!(!data_input_accepted(TX_PROPERTY_TX_FROM, 19));
    assert!(data_input_accepted(TX_PROPERTY_TX_TO, 20));
    assert!(!data_input_accepted(TX_PROPERTY_BATCH_PARENT_HASH, 20));
    assert!(data_input_accepted(TX_PROPERTY_TX_VALUE, 32));
    assert!(!data_input_accepted(TX_PROPERTY_TX_VALUE, 33));
    assert!(data_input_accepted(TX_PROPERTY_TX_DATA, 100_000));
}

#[test]
fn nonce_keeps_its_low_32_bits() {
    let mut tx = handle();
    assert!(exec_tx_set_property_uint64(&mut tx, TX_PROPERTY_TX_NONCE, 0x1_0000_0005));
    assert_eq!(exec_tx_prepare(&tx).transaction.fields.nonce, 5);
}

#[test]
fn execute_twice_sees_same_environment() {
    let mut tx = handle();
    assert!(exec_tx_set_property_uint64(&mut tx, TX_PROPERTY_TX_NONCE, 3));
    let first_env = format!("{:?}", exec_tx_prepare(&tx));
    exec_tx_complete(&mut tx, completed(500, vec![1, 2]));
    let first = snapshot(&tx);
    let second_env = format!("{:?}", exec_tx_prepare(&tx));
    exec_tx_complete(&mut tx, completed(500, vec![1, 2]));
    assert_eq!(first_env, second_env);
    assert_eq!(snapshot(&tx), first);
    assert_eq!(exec_tx_get_output_uint64(&tx, TX_OUTPUT_USED_GAS), Some(500));
    assert_eq!(exec_tx_get_output_data(&tx, TX_OUTPUT_RETURN_DATA), Some(vec![1, 2]));
}

#[test]
fn fault_keeps_previous_result() {
    let mut tx = handle();
    exec_tx_complete(&mut tx, EngineReport::Faulted);
    assert_eq!(tx.0.get_used_gas(), 0);
    exec_tx_complete(&mut tx, completed(1234, vec![0xaa]));
    exec_tx_complete(&mut tx, EngineReport::Faulted);
    assert_eq!(tx.0.get_used_gas(), 1234);
    assert_eq!(tx.0.get_return_data(), vec![0xaa]);
}

#[test]
fn revert_returns_no_data() {
    let mut tx = handle();
    exec_tx_complete(
        &mut tx,
        EngineReport::Completed(ExecutionResult {
            status: ExecutionStatus::Revert,
            output: vec![1, 2, 3],
            gas_used: 77,
        }),
    );
    assert_eq!(tx.0.get_used_gas(), 77);
    assert_eq!(tx.0.get_return_data(), Vec::<u8>::new());
}

#[test]
fn installed_storage_callback_serves_reads() {
    let mut tx = handle();
    let cb = FixedStorage { word: [0x5a; 32], reads: 0 };
    assert!(exec_tx_set_property_func(&mut tx, TX_PROPERTY_ENV_GET_STORAGE, cb));
    let word = tx.0.storage.read_value(&[1; 20], &[2; 32]);
    assert_eq!(word, [0x5a; 32]);
    assert_eq!(tx.0.storage.get_storage.as_ref().unwrap().reads, 1);
}

#[test]
fn call_sequence_with_zero_storage() {
    let mut tx = handle();
    let to = [0x42u8; 20];
    let calldata = [0xde, 0xad, 0xbe, 0xef];
    assert!(exec_tx_set_property_data(&mut tx, TX_PROPERTY_TX_TO, &to));
    assert!(exec_tx_set_property_data(&mut tx, TX_PROPERTY_TX_DATA, &calldata));
    assert!(exec_tx_set_property_uint64(&mut tx, TX_PROPERTY_TX_NONCE, 0));
    assert!(exec_tx_set_property_data(&mut tx, TX_PROPERTY_TX_VALUE, &[0]));
    let cb = FixedStorage { word: [0; 32], reads: 0 };
    assert!(exec_tx_set_property_func(&mut tx, TX_PROPERTY_ENV_GET_STORAGE, cb));
    let env = exec_tx_prepare(&tx);
    assert_eq!(env.transaction.fields.contract_address, to);
    assert_eq!(env.transaction.calldata, calldata.to_vec());
    assert_eq!(env.transaction.fields.nonce, 0);
    assert_eq!(env.transaction.fields.value, [0; 32]);
    assert_eq!(env.system.chain_id, 324);
    assert_eq!(env.system.protocol_version, 22);
    assert_eq!(tx.0.storage.read_value(&to, &[3; 32]), [0; 32]);
}

#[test]
fn new_handle_environment_is_zero() {
    let tx = handle();
    let env = exec_tx_prepare(&tx);
    assert_eq!(env.transaction.fields.nonce, 0);
    assert_eq!(env.transaction.fields.initiator_address, [0; 20]);
    assert_eq!(env.transaction.fields.contract_address, [0; 20]);
    assert_eq!(env.transaction.fields.value, [0; 32]);
    assert_eq!(env.transaction.fields.fee.gas_limit, [0; 32]);
    assert_eq!(env.transaction.fields.transaction_type, TransactionType::Legacy);
    assert!(env.transaction.calldata.is_empty());
    assert_eq!(env.batch.number, 0);
    assert_eq!(env.batch.previous_batch_hash, None);
    assert_eq!(env.batch.first_l2_block.prev_block_hash, [0; 32]);
    assert!(tx.0.storage.get_storage.is_none());
}

#[test]
fn code_by_hash_result_has_encoded_length() {
    let mut tx = handle();
    let cb = FixedStorage { word: [1; 32], reads: 0 };
    assert!(exec_tx_set_property_func(&mut tx, tenderly::property::TX_PROPERTY_ENV_GET_CODE_BY_HASH, cb));
    let mut hash = [0u8; 32];
    hash[3] = 1;
    let code = tx.0.storage.load_factory_dep(&hash).unwrap();
    assert_eq!(code, vec![1; 32]);
}
