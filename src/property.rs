//! The property registry: stable integer identifiers for every input and
//! output of an executor handle, in five namespaces.
use vstd::prelude::*;

use crate::records::transaction_type_from_code;

verus! {

pub const TX_PROPERTY_BLOCK_NUMBER: u64 = 0x1001;
pub const TX_PROPERTY_BLOCK_GAS_LIMIT: u64 = 0x1002;
pub const TX_PROPERTY_BLOCK_TIMESTAMP: u64 = 0x1003;
pub const TX_PROPERTY_BLOCK_EXCESS_BLOB_GAS: u64 = 0x1004;
pub const TX_PROPERTY_TX_NONCE: u64 = 0x1101;
pub const TX_PROPERTY_TX_GAS_LIMIT: u64 = 0x1102;
pub const TX_PROPERTY_TX_V: u64 = 0x1103;
pub const TX_PROPERTY_TX_TYPE: u64 = 0x1104;
pub const TX_PROPERTY_OPT_CHECK_NONCE: u64 = 0x1201;
pub const TX_PROPERTY_OPT_NO_BASE_FEE: u64 = 0x1202;
pub const TX_PROPERTY_BATCH_NUMBER: u64 = 0x1301;
pub const TX_PROPERTY_BATCH_TIMESTAMP: u64 = 0x1302;
pub const TX_PROPERTY_BATCH_L1_GAS_PRICE: u64 = 0x1303;
pub const TX_PROPERTY_BATCH_L2_FAIR_GAS_PRICE: u64 = 0x1304;

pub const TX_PROPERTY_BLOCK_COINBASE: u64 = 0x2001;
pub const TX_PROPERTY_BLOCK_DIFFICULTY: u64 = 0x2002;
pub const TX_PROPERTY_BLOCK_BASE_FEE: u64 = 0x2003;
pub const TX_PROPERTY_BLOCK_PREVRANDAO: u64 = 0x2004;
pub const TX_PROPERTY_BLOCK_PARENT_HASH: u64 = 0x2005;
pub const TX_PROPERTY_TX_HASH: u64 = 0x2101;
pub const TX_PROPERTY_TX_FROM: u64 = 0x2102;
pub const TX_PROPERTY_TX_TO: u64 = 0x2103;
pub const TX_PROPERTY_TX_VALUE: u64 = 0x2104;
pub const TX_PROPERTY_TX_GAS_PRICE: u64 = 0x2105;
pub const TX_PROPERTY_TX_FEE_CAP: u64 = 0x2106;
pub const TX_PROPERTY_TX_TIP: u64 = 0x2107;
pub const TX_PROPERTY_TX_MAX_FEE_PER_BLOB_GAS: u64 = 0x2108;
pub const TX_PROPERTY_TX_DATA: u64 = 0x2109;
pub const TX_PROPERTY_TX_ACCESS_LIST: u64 = 0x210a;
pub const TX_PROPERTY_TX_BLOB_HASHES: u64 = 0x210b;
pub const TX_PROPERTY_TX_R: u64 = 0x210c;
pub const TX_PROPERTY_TX_S: u64 = 0x210d;
pub const TX_PROPERTY_TX_MAX_FEE_PER_GAS: u64 = 0x210e;
pub const TX_PROPERTY_TX_MAX_PRIORITY_FEE_PER_GAS: u64 = 0x210f;
pub const TX_PROPERTY_TX_GAS_PER_PUBDATA: u64 = 0x2110;
pub const TX_PROPERTY_BATCH_PARENT_HASH: u64 = 0x2301;

pub const TX_PROPERTY_ENV_GET_NONCE: u64 = 0x3001;
pub const TX_PROPERTY_ENV_GET_BALANCE: u64 = 0x3002;
pub const TX_PROPERTY_ENV_GET_CODE_HASH: u64 = 0x3003;
pub const TX_PROPERTY_ENV_GET_CODE_LENGTH: u64 = 0x3004;
pub const TX_PROPERTY_ENV_GET_CODE: u64 = 0x3005;
pub const TX_PROPERTY_ENV_GET_STORAGE: u64 = 0x3006;
pub const TX_PROPERTY_ENV_GET_CODE_BY_HASH: u64 = 0x3007;
pub const TX_PROPERTY_ENV_GET_CODE_LENGTH_BY_HASH: u64 = 0x3008;

pub const TX_OUTPUT_USED_GAS: u64 = 0x4001;
pub const TX_OUTPUT_RETURN_DATA: u64 = 0x5001;

/// Inputs set with a 64-bit integer.
#[derive(Clone, Copy, Debug, PartialEq, Eq, Structural)]
pub enum Uint64Property {
    BlockNumber,
    BlockGasLimit,
    BlockTimestamp,
    BlockExcessBlobGas,
    TxNonce,
    TxGasLimit,
    TxV,
    TxType,
    OptCheckNonce,
    OptNoBaseFee,
    BatchNumber,
    BatchTimestamp,
    BatchL1GasPrice,
    BatchL2FairGasPrice,
}

/// Inputs set with a byte buffer.
#[derive(Clone, Copy, Debug, PartialEq, Eq, Structural)]
pub enum DataProperty {
    BlockCoinbase,
    BlockDifficulty,
    BlockBaseFee,
    BlockPrevrandao,
    BlockParentHash,
    TxHash,
    TxFrom,
    TxTo,
    TxValue,
    TxGasPrice,
    TxFeeCap,
    TxTip,
    TxMaxFeePerBlobGas,
    TxData,
    TxAccessList,
    TxBlobHashes,
    TxR,
    TxS,
    TxMaxFeePerGas,
    TxMaxPriorityFeePerGas,
    TxGasPerPubdata,
    BatchParentHash,
}

/// Inputs set with a host callback.
#[derive(Clone, Copy, Debug, PartialEq, Eq, Structural)]
pub enum CallbackProperty {
    EnvGetNonce,
    EnvGetBalance,
    EnvGetCodeHash,
    EnvGetCodeLength,
    EnvGetCode,
    EnvGetStorage,
    EnvGetCodeByHash,
    EnvGetCodeLengthByHash,
}

/// Outputs read as a 64-bit integer.
#[derive(Clone, Copy, Debug, PartialEq, Eq, Structural)]
pub enum Uint64Output {
    UsedGas,
}

/// Outputs read as a byte buffer.
#[derive(Clone, Copy, Debug, PartialEq, Eq, Structural)]
pub enum DataOutput {
    ReturnData,
}

impl Uint64Property {
    pub open spec fn id(self) -> u64 {
        match self {
            Uint64Property::BlockNumber => TX_PROPERTY_BLOCK_NUMBER,
            Uint64Property::BlockGasLimit => TX_PROPERTY_BLOCK_GAS_LIMIT,
            Uint64Property::BlockTimestamp => TX_PROPERTY_BLOCK_TIMESTAMP,
            Uint64Property::BlockExcessBlobGas => TX_PROPERTY_BLOCK_EXCESS_BLOB_GAS,
            Uint64Property::TxNonce => TX_PROPERTY_TX_NONCE,
            Uint64Property::TxGasLimit => TX_PROPERTY_TX_GAS_LIMIT,
            Uint64Property::TxV => TX_PROPERTY_TX_V,
            Uint64Property::TxType => TX_PROPERTY_TX_TYPE,
            Uint64Property::OptCheckNonce => TX_PROPERTY_OPT_CHECK_NONCE,
            Uint64Property::OptNoBaseFee => TX_PROPERTY_OPT_NO_BASE_FEE,
            Uint64Property::BatchNumber => TX_PROPERTY_BATCH_NUMBER,
            Uint64Property::BatchTimestamp => TX_PROPERTY_BATCH_TIMESTAMP,
            Uint64Property::BatchL1GasPrice => TX_PROPERTY_BATCH_L1_GAS_PRICE,
            Uint64Property::BatchL2FairGasPrice => TX_PROPERTY_BATCH_L2_FAIR_GAS_PRICE,
        }
    }

    /// Resolves an identifier of the integer-input namespace.
    pub fn from_id(id: u64) -> (r: Option<Uint64Property>)
        ensures
            r == uint64_property(id),
    {
        let r = match id {
            TX_PROPERTY_BLOCK_NUMBER => Some(Uint64Property::BlockNumber),
            TX_PROPERTY_BLOCK_GAS_LIMIT => Some(Uint64Property::BlockGasLimit),
            TX_PROPERTY_BLOCK_TIMESTAMP => Some(Uint64Property::BlockTimestamp),
            TX_PROPERTY_BLOCK_EXCESS_BLOB_GAS => Some(Uint64Property::BlockExcessBlobGas),
            TX_PROPERTY_TX_NONCE => Some(Uint64Property::TxNonce),
            TX_PROPERTY_TX_GAS_LIMIT => Some(Uint64Property::TxGasLimit),
            TX_PROPERTY_TX_V => Some(Uint64Property::TxV),
            TX_PROPERTY_TX_TYPE => Some(Uint64Property::TxType),
            TX_PROPERTY_OPT_CHECK_NONCE => Some(Uint64Property::OptCheckNonce),
            TX_PROPERTY_OPT_NO_BASE_FEE => Some(Uint64Property::OptNoBaseFee),
            TX_PROPERTY_BATCH_NUMBER => Some(Uint64Property::BatchNumber),
            TX_PROPERTY_BATCH_TIMESTAMP => Some(Uint64Property::BatchTimestamp),
            TX_PROPERTY_BATCH_L1_GAS_PRICE => Some(Uint64Property::BatchL1GasPrice),
            TX_PROPERTY_BATCH_L2_FAIR_GAS_PRICE => Some(Uint64Property::BatchL2FairGasPrice),
            _ => None,
        };
        proof {
            lemma_uint64_ids_unique();
            if let Some(p) = r {
                assert(p.id() == id);
            }
        }
        r
    }
}

/// The integer input that an identifier names, if any.
pub open spec fn uint64_property(id: u64) -> Option<Uint64Property> {
    if exists|p: Uint64Property| p.id() == id {
        Some(choose|p: Uint64Property| p.id() == id)
    } else {
        None
    }
}

/// No two integer inputs share an identifier.
pub proof fn lemma_uint64_ids_unique()
    ensures
        forall|p: Uint64Property, q: Uint64Property| p.id() == q.id() ==> p == q,
{
}

impl DataProperty {
    pub open spec fn id(self) -> u64 {
        match self {
            DataProperty::BlockCoinbase => TX_PROPERTY_BLOCK_COINBASE,
            DataProperty::BlockDifficulty => TX_PROPERTY_BLOCK_DIFFICULTY,
            DataProperty::BlockBaseFee => TX_PROPERTY_BLOCK_BASE_FEE,
            DataProperty::BlockPrevrandao => TX_PROPERTY_BLOCK_PREVRANDAO,
            DataProperty::BlockParentHash => TX_PROPERTY_BLOCK_PARENT_HASH,
            DataProperty::TxHash => TX_PROPERTY_TX_HASH,
            DataProperty::TxFrom => TX_PROPERTY_TX_FROM,
            DataProperty::TxTo => TX_PROPERTY_TX_TO,
            DataProperty::TxValue => TX_PROPERTY_TX_VALUE,
            DataProperty::TxGasPrice => TX_PROPERTY_TX_GAS_PRICE,
            DataProperty::TxFeeCap => TX_PROPERTY_TX_FEE_CAP,
            DataProperty::TxTip => TX_PROPERTY_TX_TIP,
            DataProperty::TxMaxFeePerBlobGas => TX_PROPERTY_TX_MAX_FEE_PER_BLOB_GAS,
            DataProperty::TxData => TX_PROPERTY_TX_DATA,
            DataProperty::TxAccessList => TX_PROPERTY_TX_ACCESS_LIST,
            DataProperty::TxBlobHashes => TX_PROPERTY_TX_BLOB_HASHES,
            DataProperty::TxR => TX_PROPERTY_TX_R,
            DataProperty::TxS => TX_PROPERTY_TX_S,
            DataProperty::TxMaxFeePerGas => TX_PROPERTY_TX_MAX_FEE_PER_GAS,
            DataProperty::TxMaxPriorityFeePerGas => TX_PROPERTY_TX_MAX_PRIORITY_FEE_PER_GAS,
            DataProperty::TxGasPerPubdata => TX_PROPERTY_TX_GAS_PER_PUBDATA,
            DataProperty::BatchParentHash => TX_PROPERTY_BATCH_PARENT_HASH,
        }
    }

    /// Resolves an identifier of the byte-buffer input namespace.
    pub fn from_id(id: u64) -> (r: Option<DataProperty>)
        ensures
            r == data_property(id),
    {
        let r = match id {
            TX_PROPERTY_BLOCK_COINBASE => Some(DataProperty::BlockCoinbase),
            TX_PROPERTY_BLOCK_DIFFICULTY => Some(DataProperty::BlockDifficulty),
            TX_PROPERTY_BLOCK_BASE_FEE => Some(DataProperty::BlockBaseFee),
            TX_PROPERTY_BLOCK_PREVRANDAO => Some(DataProperty::BlockPrevrandao),
            TX_PROPERTY_BLOCK_PARENT_HASH => Some(DataProperty::BlockParentHash),
            TX_PROPERTY_TX_HASH => Some(DataProperty::TxHash),
            TX_PROPERTY_TX_FROM => Some(DataProperty::TxFrom),
            TX_PROPERTY_TX_TO => Some(DataProperty::TxTo),
            TX_PROPERTY_TX_VALUE => Some(DataProperty::TxValue),
            TX_PROPERTY_TX_GAS_PRICE => Some(DataProperty::TxGasPrice),
            TX_PROPERTY_TX_FEE_CAP => Some(DataProperty::TxFeeCap),
            TX_PROPERTY_TX_TIP => Some(DataProperty::TxTip),
            TX_PROPERTY_TX_MAX_FEE_PER_BLOB_GAS => Some(DataProperty::TxMaxFeePerBlobGas),
            TX_PROPERTY_TX_DATA => Some(DataProperty::TxData),
            TX_PROPERTY_TX_ACCESS_LIST => Some(DataProperty::TxAccessList),
            TX_PROPERTY_TX_BLOB_HASHES => Some(DataProperty::TxBlobHashes),
            TX_PROPERTY_TX_R => Some(DataProperty::TxR),
            TX_PROPERTY_TX_S => Some(DataProperty::TxS),
            TX_PROPERTY_TX_MAX_FEE_PER_GAS => Some(DataProperty::TxMaxFeePerGas),
            TX_PROPERTY_TX_MAX_PRIORITY_FEE_PER_GAS => Some(DataProperty::TxMaxPriorityFeePerGas),
            TX_PROPERTY_TX_GAS_PER_PUBDATA => Some(DataProperty::TxGasPerPubdata),
            TX_PROPERTY_BATCH_PARENT_HASH => Some(DataProperty::BatchParentHash),
            _ => None,
        };
        proof {
            lemma_data_ids_unique();
            if let Some(p) = r {
                assert(p.id() == id);
            }
        }
        r
    }
}

/// The byte-buffer input that an identifier names, if any.
pub open spec fn data_property(id: u64) -> Option<DataProperty> {
    if exists|p: DataProperty| p.id() == id {
        Some(choose|p: DataProperty| p.id() == id)
    } else {
        None
    }
}

/// No two byte-buffer inputs share an identifier.
pub proof fn lemma_data_ids_unique()
    ensures
        forall|p: DataProperty, q: DataProperty| p.id() == q.id() ==> p == q,
{
}

impl CallbackProperty {
    pub open spec fn id(self) -> u64 {
        match self {
            CallbackProperty::EnvGetNonce => TX_PROPERTY_ENV_GET_NONCE,
            CallbackProperty::EnvGetBalance => TX_PROPERTY_ENV_GET_BALANCE,
            CallbackProperty::EnvGetCodeHash => TX_PROPERTY_ENV_GET_CODE_HASH,
            CallbackProperty::EnvGetCodeLength => TX_PROPERTY_ENV_GET_CODE_LENGTH,
            CallbackProperty::EnvGetCode => TX_PROPERTY_ENV_GET_CODE,
            CallbackProperty::EnvGetStorage => TX_PROPERTY_ENV_GET_STORAGE,
            CallbackProperty::EnvGetCodeByHash => TX_PROPERTY_ENV_GET_CODE_BY_HASH,
            CallbackProperty::EnvGetCodeLengthByHash => TX_PROPERTY_ENV_GET_CODE_LENGTH_BY_HASH,
        }
    }

    /// Resolves an identifier of the callback input namespace.
    pub fn from_id(id: u64) -> (r: Option<CallbackProperty>)
        ensures
            r == callback_property(id),
    {
        let r = match id {
            TX_PROPERTY_ENV_GET_NONCE => Some(CallbackProperty::EnvGetNonce),
            TX_PROPERTY_ENV_GET_BALANCE => Some(CallbackProperty::EnvGetBalance),
            TX_PROPERTY_ENV_GET_CODE_HASH => Some(CallbackProperty::EnvGetCodeHash),
            TX_PROPERTY_ENV_GET_CODE_LENGTH => Some(CallbackProperty::EnvGetCodeLength),
            TX_PROPERTY_ENV_GET_CODE => Some(CallbackProperty::EnvGetCode),
            TX_PROPERTY_ENV_GET_STORAGE => Some(CallbackProperty::EnvGetStorage),
            TX_PROPERTY_ENV_GET_CODE_BY_HASH => Some(CallbackProperty::EnvGetCodeByHash),
            TX_PROPERTY_ENV_GET_CODE_LENGTH_BY_HASH => Some(CallbackProperty::EnvGetCodeLengthByHash),
            _ => None,
        };
        proof {
            lemma_callback_ids_unique();
            if let Some(p) = r {
                assert(p.id() == id);
            }
        }
        r
    }
}

/// The callback input that an identifier names, if any.
pub open spec fn callback_property(id: u64) -> Option<CallbackProperty> {
    if exists|p: CallbackProperty| p.id() == id {
        Some(choose|p: CallbackProperty| p.id() == id)
    } else {
        None
    }
}

/// No two callback inputs share an identifier.
pub proof fn lemma_callback_ids_unique()
    ensures
        forall|p: CallbackProperty, q: CallbackProperty| p.id() == q.id() ==> p == q,
{
}

impl Uint64Output {
    pub open spec fn id(self) -> u64 {
        match self {
            Uint64Output::UsedGas => TX_OUTPUT_USED_GAS,
        }
    }

    /// Resolves an identifier of the integer output namespace.
    pub fn from_id(id: u64) -> (r: Option<Uint64Output>)
        ensures
            r == uint64_output(id),
    {
        let r = match id {
            TX_OUTPUT_USED_GAS => Some(Uint64Output::UsedGas),
            _ => None,
        };
        proof {
            lemma_uint64_output_ids_unique();
            if let Some(p) = r {
                assert(p.id() == id);
            }
        }
        r
    }
}

/// The integer output that an identifier names, if any.
pub open spec fn uint64_output(id: u64) -> Option<Uint64Output> {
    if exists|p: Uint64Output| p.id() == id {
        Some(choose|p: Uint64Output| p.id() == id)
    } else {
        None
    }
}

/// No two integer outputs share an identifier.
pub proof fn lemma_uint64_output_ids_unique()
    ensures
        forall|p: Uint64Output, q: Uint64Output| p.id() == q.id() ==> p == q,
{
}

impl DataOutput {
    pub open spec fn id(self) -> u64 {
        match self {
            DataOutput::ReturnData => TX_OUTPUT_RETURN_DATA,
        }
    }

    /// Resolves an identifier of the byte-buffer output namespace.
    pub fn from_id(id: u64) -> (r: Option<DataOutput>)
        ensures
            r == data_output(id),
    {
        let r = match id {
            TX_OUTPUT_RETURN_DATA => Some(DataOutput::ReturnData),
            _ => None,
        };
        proof {
            lemma_data_output_ids_unique();
            if let Some(p) = r {
                assert(p.id() == id);
            }
        }
        r
    }
}

/// The byte-buffer output that an identifier names, if any.
pub open spec fn data_output(id: u64) -> Option<DataOutput> {
    if exists|p: DataOutput| p.id() == id {
        Some(choose|p: DataOutput| p.id() == id)
    } else {
        None
    }
}

/// No two byte-buffer outputs share an identifier.
pub proof fn lemma_data_output_ids_unique()
    ensures
        forall|p: DataOutput, q: DataOutput| p.id() == q.id() ==> p == q,
{
}

/// What an integer input accepts: the transaction kind must be one of the
/// engine's kinds; every other input takes any value.
pub open spec fn uint64_value_valid(p: Uint64Property, value: u64) -> bool {
    p == Uint64Property::TxType ==> transaction_type_from_code(value as u32).is_some()
}

/// What a byte-buffer input accepts: an address is 20 bytes, a hash or a
/// signature half 32 bytes, an amount at most 32 big-endian bytes; every
/// other input takes any buffer.
pub open spec fn data_value_valid(p: DataProperty, len: nat) -> bool {
    match p {
        DataProperty::TxFrom | DataProperty::TxTo => len == 20,
        DataProperty::BlockParentHash
        | DataProperty::TxR
        | DataProperty::TxS
        | DataProperty::BatchParentHash => len == 32,
        DataProperty::TxValue
        | DataProperty::TxFeeCap
        | DataProperty::TxMaxFeePerGas
        | DataProperty::TxMaxPriorityFeePerGas
        | DataProperty::TxGasPerPubdata => len <= 32,
        _ => true,
    }
}

impl Uint64Property {
    /// Whether this input accepts `value`.
    pub fn accepts(self, value: u64) -> (r: bool)
        ensures
            r == uint64_value_valid(self, value),
    {
        match self {
            Uint64Property::TxType => crate::records::transaction_type_of_code(value as u32).is_some(),
            _ => true,
        }
    }
}

impl DataProperty {
    /// Whether this input accepts a buffer of `len` bytes.
    pub fn accepts(self, len: usize) -> (r: bool)
        ensures
            r == data_value_valid(self, len as nat),
    {
        match self {
            DataProperty::TxFrom | DataProperty::TxTo => len == 20,
            DataProperty::BlockParentHash
            | DataProperty::TxR
            | DataProperty::TxS
            | DataProperty::BatchParentHash => len == 32,
            DataProperty::TxValue
            | DataProperty::TxFeeCap
            | DataProperty::TxMaxFeePerGas
            | DataProperty::TxMaxPriorityFeePerGas
            | DataProperty::TxGasPerPubdata => len <= 32,
            _ => true,
        }
    }
}

} // verus!
