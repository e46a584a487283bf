//! The execution environment handed to the engine, and what the engine
//! reports back.
use vstd::prelude::*;

use crate::host::{zero_word, Address, Bytes32};

verus! {

/// The kinds of transaction the engine distinguishes.
#[derive(Clone, Copy, Debug, PartialEq, Eq, Structural)]
pub enum TransactionType {
    Legacy,
    Eip2930,
    Eip1559,
    Eip712,
    PriorityOp,
    ProtocolUpgrade,
}

impl TransactionType {
    /// The wire code of each kind.
    pub open spec fn code(self) -> u32 {
        match self {
            TransactionType::Legacy => 0,
            TransactionType::Eip2930 => 1,
            TransactionType::Eip1559 => 2,
            TransactionType::Eip712 => 113,
            TransactionType::PriorityOp => 255,
            TransactionType::ProtocolUpgrade => 254,
        }
    }
}

/// The kind whose wire code is `code`, if any.
pub open spec fn transaction_type_from_code(code: u32) -> Option<TransactionType> {
    if exists|t: TransactionType| t.code() == code {
        Some(choose|t: TransactionType| t.code() == code)
    } else {
        None
    }
}

/// Decodes a wire code into a transaction kind.
pub fn transaction_type_of_code(code: u32) -> (r: Option<TransactionType>)
    ensures
        r == transaction_type_from_code(code),
{
    let r = match code {
        0 => Some(TransactionType::Legacy),
        1 => Some(TransactionType::Eip2930),
        2 => Some(TransactionType::Eip1559),
        113 => Some(TransactionType::Eip712),
        255 => Some(TransactionType::PriorityOp),
        254 => Some(TransactionType::ProtocolUpgrade),
        _ => None,
    };
    proof {
        if let Some(t) = r {
            assert(t.code() == code);
        }
    }
    r
}

/// A 256-bit amount as 32 big-endian bytes: `bytes` padded with zeros on
/// the left.
pub open spec fn be_word(bytes: Seq<u8>) -> Seq<u8> {
    Seq::new((32 - bytes.len()) as nat, |i: int| 0u8) + bytes
}

/// The 8 big-endian bytes of `v`.
pub open spec fn u64_be_bytes(v: u64) -> Seq<u8> {
    seq![
        (v >> 56u64) as u8,
        (v >> 48u64) as u8,
        (v >> 40u64) as u8,
        (v >> 32u64) as u8,
        (v >> 24u64) as u8,
        (v >> 16u64) as u8,
        (v >> 8u64) as u8,
        v as u8,
    ]
}

/// Reads a big-endian amount of at most 32 bytes into a 256-bit word.
pub fn word_from_be_slice(bytes: &[u8]) -> (r: Bytes32)
    requires
        bytes@.len() <= 32,
    ensures
        r@ == be_word(bytes@),
{
    let pad: usize = 32 - bytes.len();
    let mut r: Bytes32 = [0u8; 32];
    let mut i: usize = pad;
    while i < 32
        invariant
            pad == 32 - bytes@.len(),
            pad <= i <= 32,
            forall|j: int| 0 <= j < pad ==> r@[j] == 0u8,
            forall|j: int| pad <= j < i ==> r@[j] == bytes@[j - pad],
        decreases 32 - i,
    {
        r[i] = bytes[i - pad];
        i = i + 1;
    }
    assert(r@ =~= be_word(bytes@));
    r
}

/// The 256-bit word of a 64-bit amount.
pub fn word_from_u64(v: u64) -> (r: Bytes32)
    ensures
        r@ == be_word(u64_be_bytes(v)),
{
    let bytes: [u8; 8] = [
        (v >> 56u64) as u8,
        (v >> 48u64) as u8,
        (v >> 40u64) as u8,
        (v >> 32u64) as u8,
        (v >> 24u64) as u8,
        (v >> 16u64) as u8,
        (v >> 8u64) as u8,
        v as u8,
    ];
    assert(bytes@ =~= u64_be_bytes(v));
    word_from_be_slice(&bytes)
}

/// The fee fields of a transaction, each a 256-bit big-endian word.
#[derive(Clone, Copy, Debug)]
pub struct FeeRecord {
    pub gas_limit: Bytes32,
    pub max_fee_per_gas: Bytes32,
    pub max_priority_fee_per_gas: Bytes32,
    pub gas_per_pubdata_limit: Bytes32,
}

impl FeeRecord {
    /// All fees zero.
    pub fn zero() -> (r: FeeRecord)
        ensures
            r.gas_limit@ == zero_word(),
            r.max_fee_per_gas@ == zero_word(),
            r.max_priority_fee_per_gas@ == zero_word(),
            r.gas_per_pubdata_limit@ == zero_word(),
    {
        let r = FeeRecord {
            gas_limit: [0u8; 32],
            max_fee_per_gas: [0u8; 32],
            max_priority_fee_per_gas: [0u8; 32],
            gas_per_pubdata_limit: [0u8; 32],
        };
        assert(r.gas_limit@ =~= zero_word());
        r
    }
}

/// The block record of an execution.
#[derive(Clone, Copy, Debug)]
pub struct L2BlockRecord {
    pub number: u32,
    pub timestamp: u64,
    pub prev_block_hash: Bytes32,
    pub max_virtual_blocks_to_create: u32,
}

/// The batch record of an execution, with the block it opens.
#[derive(Clone, Copy, Debug)]
pub struct L1BatchRecord {
    pub previous_batch_hash: Option<Bytes32>,
    pub number: u32,
    pub timestamp: u64,
    pub fair_l2_gas_price: u64,
    pub l1_gas_price: u64,
    pub first_l2_block: L2BlockRecord,
}

/// The system settings of an execution; the engine's own constants (gas
/// limits, system contracts) are added where the engine is called.
#[derive(Clone, Copy, Debug, PartialEq, Eq, Structural)]
pub struct SystemRecord {
    pub zk_porter_available: bool,
    pub protocol_version: u16,
    pub chain_id: u64,
}

/// The fixed-size fields of a transaction record.
#[derive(Clone, Copy, Debug)]
pub struct TransactionFields {
    pub nonce: u32,
    pub fee: FeeRecord,
    pub initiator_address: Address,
    pub r: Bytes32,
    pub s: Bytes32,
    pub v: u8,
    pub transaction_type: TransactionType,
    pub contract_address: Address,
    pub value: Bytes32,
}

/// The transaction record of an execution.
#[derive(Clone, Debug)]
pub struct TransactionRecord {
    pub fields: TransactionFields,
    pub calldata: Vec<u8>,
}

/// What a transaction record holds.
pub struct TransactionView {
    pub fields: TransactionFields,
    pub calldata: Seq<u8>,
}

impl View for TransactionRecord {
    type V = TransactionView;

    open spec fn view(&self) -> TransactionView {
        TransactionView { fields: self.fields, calldata: self.calldata@ }
    }
}

/// The three records that one execution runs on.
#[derive(Clone, Debug)]
pub struct ExecutionEnvironment {
    pub batch: L1BatchRecord,
    pub system: SystemRecord,
    pub transaction: TransactionRecord,
}

/// What an execution environment holds.
pub struct EnvironmentView {
    pub batch: L1BatchRecord,
    pub system: SystemRecord,
    pub transaction: TransactionView,
}

impl View for ExecutionEnvironment {
    type V = EnvironmentView;

    open spec fn view(&self) -> EnvironmentView {
        EnvironmentView { batch: self.batch, system: self.system, transaction: self.transaction@ }
    }
}

/// How an execution ended.
#[derive(Clone, Copy, Debug, PartialEq, Eq, Structural)]
pub enum ExecutionStatus {
    Success,
    Revert,
    Halt,
}

/// The result of one execution: how it ended, the bytes it returned and
/// the gas it used.
#[derive(Clone, Debug)]
pub struct ExecutionResult {
    pub status: ExecutionStatus,
    pub output: Vec<u8>,
    pub gas_used: u64,
}

impl ExecutionResult {
    /// The result held before any execution: a success with no output and
    /// no gas used.
    pub fn empty() -> (r: ExecutionResult)
        ensures
            r.status == ExecutionStatus::Success,
            r.output@ == Seq::<u8>::empty(),
            r.gas_used == 0,
    {
        ExecutionResult { status: ExecutionStatus::Success, output: Vec::new(), gas_used: 0 }
    }

    /// The bytes that a successful execution returned; empty otherwise.
    pub open spec fn return_data(&self) -> Seq<u8> {
        if self.status == ExecutionStatus::Success {
            self.output@
        } else {
            Seq::empty()
        }
    }
}

/// What an engine invocation reports: a result, or a fault that ended it
/// before it produced one.
#[derive(Clone, Debug)]
pub enum EngineReport {
    Completed(ExecutionResult),
    Faulted,
}

} // verus!
