use tenderly::host::{factory_dep_buffer, factory_dep_length, DataProvider, HostCallback};
use tenderly::property::{CallbackProperty, Uint64Property, TX_PROPERTY_TX_NONCE};
use tenderly::records::{transaction_type_of_code, word_from_be_slice, word_from_u64};

/// A host that records the buffers it is handed and fills them with one byte.
#[derive(Debug)]
struct RecordingHost {
    fill: u8,
    lengths: Vec<usize>,
}

impl HostCallback for RecordingHost {
    fn call(&mut self, _subject: &[u8], _key: &[u8], output: &mut [u8]) -> u64 {
        self.lengths.push(output.len());
        for b in output.iter_mut() {
            *b = self.fill;
        }
        0
    }
}

fn hash_with_len_word(hi: u8, lo: u8) -> [u8; 32] {
    let mut h = [0x99u8; 32];
    h[2] = hi;
    h[3] = lo;
    h
}

#[test]
fn storage_without_callback_reads_zero() {
    let mut provider: DataProvider<RecordingHost> = DataProvider::new();
    assert_eq!(provider.read_value(&[1; 20], &[2; 32]), [0; 32]);
    assert_eq!(provider.read_value(&[0xff; 20], &[0xff; 32]), [0; 32]);
}

#[test]
fn storage_callback_fills_word() {
    let mut provider: DataProvider<RecordingHost> = DataProvider::default();
    provider.install(CallbackProperty::EnvGetStorage, RecordingHost { fill: 3, lengths: vec![] });
    assert_eq!(provider.read_value(&[1; 20], &[2; 32]), [3; 32]);
    assert_eq!(provider.get_storage.as_ref().unwrap().lengths, vec![32]);
}

#[test]
fn other_callbacks_do_not_serve_storage() {
    let mut provider: DataProvider<RecordingHost> = DataProvider::new();
    provider.install(CallbackProperty::EnvGetBalance, RecordingHost { fill: 3, lengths: vec![] });
    assert_eq!(provider.read_value(&[1; 20], &[2; 32]), [0; 32]);
}

#[test]
fn bytecode_length_from_hash() {
    assert_eq!(factory_dep_length(&hash_with_len_word(0, 3)), 96);
    assert_eq!(factory_dep_length(&hash_with_len_word(1, 0)), 32 * 256);
    assert_eq!(factory_dep_length(&hash_with_len_word(0, 0)), 0);
    assert_eq!(factory_dep_length(&hash_with_len_word(0xff, 0xff)), 32 * 65535);
}

#[test]
fn bytecode_buffer_is_zeroed() {
    let buf = factory_dep_buffer(&hash_with_len_word(0, 2));
    assert_eq!(buf, vec![0u8; 64]);
}

#[test]
fn code_by_hash_callback_gets_encoded_length() {
    let mut provider: DataProvider<RecordingHost> = DataProvider::new();
    provider.install(CallbackProperty::EnvGetCodeByHash, RecordingHost { fill: 0xc0, lengths: vec![] });
    let code = provider.load_factory_dep(&hash_with_len_word(0, 5)).unwrap();
    assert_eq!(code, vec![0xc0; 160]);
    assert_eq!(provider.get_code_by_hash.as_ref().unwrap().lengths, vec![160]);
    let big = provider.load_factory_dep(&hash_with_len_word(0x08, 0x00)).unwrap();
    assert_eq!(big.len(), 32 * 2048);
}

#[test]
fn code_without_callback_is_zeroed() {
    let mut provider: DataProvider<RecordingHost> = DataProvider::new();
    assert_eq!(provider.load_factory_dep(&hash_with_len_word(0, 1)), Some(vec![0; 32]));
}

#[test]
fn words_from_bytes() {
    let mut expected = [0u8; 32];
    expected[31] = 7;
    assert_eq!(word_from_be_slice(&[7]), expected);
    assert_eq!(word_from_be_slice(&[]), [0; 32]);
    assert_eq!(word_from_be_slice(&[0xee; 32]), [0xee; 32]);
    let mut expected = [0u8; 32];
    expected[24..].copy_from_slice(&u64::MAX.to_be_bytes());
    assert_eq!(word_from_u64(u64::MAX), expected);
}

#[test]
fn transaction_type_codes() {
    assert!(transaction_type_of_code(0).is_some());
    assert!(transaction_type_of_code(254).is_some());
    assert!(transaction_type_of_code(3).is_none());
}

#[test]
fn property_ids_resolve() {
    assert_eq!(Uint64Property::from_id(TX_PROPERTY_TX_NONCE), Some(Uint64Property::TxNonce));
    assert_eq!(Uint64Property::from_id(0), None);
}
