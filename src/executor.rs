//! The transaction executor: accumulates block, batch and transaction
//! inputs and host callbacks, derives the execution environment from them
//! and keeps the last result the engine reported.
use vstd::prelude::*;

use crate::gateway::TransactionExecutor;
use crate::host::{Address, Bytes32, DataProvider};
use crate::property::{
    data_value_valid, uint64_value_valid, CallbackProperty, DataProperty, Uint64Property,
};
use crate::records::{
    be_word, transaction_type_from_code, transaction_type_of_code, u64_be_bytes,
    word_from_be_slice, word_from_u64, EngineReport, EnvironmentView, ExecutionEnvironment,
    ExecutionResult, ExecutionStatus, FeeRecord, L1BatchRecord, L2BlockRecord, SystemRecord, TransactionFields,
    TransactionRecord, TransactionType, TransactionView,
};

verus! {

/// The protocol version the engine runs.
pub const PROTOCOL_VERSION: u16 = 22;

/// The chain the engine runs as.
pub const CHAIN_ID: u64 = 324;

/// Copies a buffer of exactly `N` bytes into an array.
pub fn array_from_slice<const N: usize>(bytes: &[u8]) -> (r: [u8; N])
    requires
        bytes@.len() == N,
    ensures
        r@ == bytes@,
{
    let mut r: [u8; N] = [0u8; N];
    let mut i: usize = 0;
    while i < N
        invariant
            bytes@.len() == N,
            i <= N,
            forall|j: int| 0 <= j < i ==> r@[j] == bytes@[j],
        decreases N - i,
    {
        r[i] = bytes[i];
        i = i + 1;
    }
    assert(r@ =~= bytes@);
    r
}

/// The inputs of one transaction execution, the callbacks that serve its
/// storage reads, and the last result the engine reported.
#[derive(Debug)]
pub struct TransactionExecutorImpl<C> {
    pub nonce: u32,
    pub fee: FeeRecord,
    pub from: Address,
    pub to: Address,
    pub r: Bytes32,
    pub s: Bytes32,
    pub v: u8,
    pub transaction_type: TransactionType,
    pub calldata: Vec<u8>,
    pub value: Bytes32,
    pub block_number: u32,
    pub block_timestamp: u64,
    pub block_parent_hash: Bytes32,
    pub batch_number: u32,
    pub batch_timestamp: u64,
    pub batch_l1_gas_price: u64,
    pub batch_l2_fair_gas_price: u64,
    pub batch_parent_hash: Option<Bytes32>,
    pub execution_result: ExecutionResult,
    pub storage: DataProvider<C>,
}

impl<C> TransactionExecutorImpl<C> {
    /// The batch record that the inputs derive.
    pub open spec fn batch_record(self) -> L1BatchRecord {
        L1BatchRecord {
            previous_batch_hash: self.batch_parent_hash,
            number: self.batch_number,
            timestamp: self.batch_timestamp,
            fair_l2_gas_price: self.batch_l2_fair_gas_price,
            l1_gas_price: self.batch_l1_gas_price,
            first_l2_block: L2BlockRecord {
                number: self.block_number,
                timestamp: self.block_timestamp,
                prev_block_hash: self.block_parent_hash,
                max_virtual_blocks_to_create: 0,
            },
        }
    }

    /// The system record: fixed for every execution.
    pub open spec fn system_record(self) -> SystemRecord {
        SystemRecord {
            zk_porter_available: false,
            protocol_version: PROTOCOL_VERSION,
            chain_id: CHAIN_ID,
        }
    }

    /// The transaction record that the inputs derive.
    pub open spec fn transaction_view(self) -> TransactionView {
        TransactionView {
            fields: TransactionFields {
                nonce: self.nonce,
                fee: self.fee,
                initiator_address: self.from,
                r: self.r,
                s: self.s,
                v: self.v,
                transaction_type: self.transaction_type,
                contract_address: self.to,
                value: self.value,
            },
            calldata: self.calldata@,
        }
    }

    /// The executor after the engine reported `report`: a completed result
    /// replaces the stored one, a fault changes nothing.
    pub open spec fn after_report(self, report: EngineReport) -> Self {
        match report {
            EngineReport::Completed(result) => Self { execution_result: result, ..self },
            EngineReport::Faulted => self,
        }
    }

    /// An executor with every input at its initial value.
    pub fn fresh() -> (r: Self)
        ensures
            r.is_fresh(),
    {
        let r = TransactionExecutorImpl {
            nonce: 0,
            fee: FeeRecord::zero(),
            from: [0u8; 20],
            to: [0u8; 20],
            r: [0u8; 32],
            s: [0u8; 32],
            v: 0,
            transaction_type: TransactionType::Legacy,
            calldata: Vec::new(),
            value: [0u8; 32],
            block_number: 0,
            block_timestamp: 0,
            block_parent_hash: [0u8; 32],
            batch_number: 0,
            batch_timestamp: 0,
            batch_l1_gas_price: 0,
            batch_l2_fair_gas_price: 0,
            batch_parent_hash: None,
            execution_result: ExecutionResult::empty(),
            storage: DataProvider::new(),
        };
        assert(r.from@ =~= Seq::new(20, |i: int| 0u8));
        assert(r.to@ =~= Seq::new(20, |i: int| 0u8));
        assert(r.r@ =~= crate::host::zero_word());
        assert(r.s@ =~= crate::host::zero_word());
        assert(r.value@ =~= crate::host::zero_word());
        assert(r.block_parent_hash@ =~= crate::host::zero_word());
        r
    }

    /// Derives the batch record, with the block it opens.
    pub fn l1_batch_env(&self) -> (r: L1BatchRecord)
        ensures
            r == self.batch_record(),
    {
        L1BatchRecord {
            previous_batch_hash: self.batch_parent_hash,
            number: self.batch_number,
            timestamp: self.batch_timestamp,
            fair_l2_gas_price: self.batch_l2_fair_gas_price,
            l1_gas_price: self.batch_l1_gas_price,
            first_l2_block: L2BlockRecord {
                number: self.block_number,
                timestamp: self.block_timestamp,
                prev_block_hash: self.block_parent_hash,
                max_virtual_blocks_to_create: 0,
            },
        }
    }

    /// Derives the system record.
    pub fn system_env(&self) -> (r: SystemRecord)
        ensures
            r == self.system_record(),
    {
        SystemRecord {
            zk_porter_available: false,
            protocol_version: PROTOCOL_VERSION,
            chain_id: CHAIN_ID,
        }
    }

    /// Derives the transaction record.
    pub fn transaction(&self) -> (r: TransactionRecord)
        ensures
            r@ == self.transaction_view(),
    {
        let calldata = self.calldata.clone();
        assert(calldata@ =~= self.calldata@);
        TransactionRecord {
            fields: TransactionFields {
                nonce: self.nonce,
                fee: self.fee,
                initiator_address: self.from,
                r: self.r,
                s: self.s,
                v: self.v,
                transaction_type: self.transaction_type,
                contract_address: self.to,
                value: self.value,
            },
            calldata,
        }
    }
}

impl<C> Default for TransactionExecutorImpl<C> {
    fn default() -> (r: Self)
        ensures
            r.is_fresh(),
    {
        Self::fresh()
    }
}

impl<C> TransactionExecutor for TransactionExecutorImpl<C> {
    type Callback = C;

    open spec fn uint64_applied(self, next: Self, property: Uint64Property, value: u64) -> bool {
        match property {
            Uint64Property::BlockNumber => next == Self { block_number: value as u32, ..self },
            Uint64Property::BlockTimestamp => next == Self { block_timestamp: value, ..self },
            Uint64Property::BlockGasLimit | Uint64Property::TxGasLimit => {
                &&& next.fee.gas_limit@ == be_word(u64_be_bytes(value))
                &&& next == Self {
                    fee: FeeRecord { gas_limit: next.fee.gas_limit, ..self.fee },
                    ..self
                }
            },
            Uint64Property::TxNonce => next == Self { nonce: value as u32, ..self },
            Uint64Property::TxV => next == Self { v: value as u8, ..self },
            Uint64Property::TxType => next == Self {
                transaction_type: transaction_type_from_code(value as u32).unwrap(),
                ..self
            },
            Uint64Property::BatchNumber => next == Self { batch_number: value as u32, ..self },
            Uint64Property::BatchTimestamp => next == Self { batch_timestamp: value, ..self },
            Uint64Property::BatchL1GasPrice => next == Self { batch_l1_gas_price: value, ..self },
            Uint64Property::BatchL2FairGasPrice => next == Self {
                batch_l2_fair_gas_price: value,
                ..self
            },
            Uint64Property::BlockExcessBlobGas
            | Uint64Property::OptCheckNonce
            | Uint64Property::OptNoBaseFee => next == self,
        }
    }

    open spec fn data_applied(self, next: Self, property: DataProperty, value: Seq<u8>) -> bool {
        match property {
            DataProperty::BlockParentHash => {
                &&& next.block_parent_hash@ == value
                &&& next == Self { block_parent_hash: next.block_parent_hash, ..self }
            },
            DataProperty::TxFrom => {
                &&& next.from@ == value
                &&& next == Self { from: next.from, ..self }
            },
            DataProperty::TxTo => {
                &&& next.to@ == value
                &&& next == Self { to: next.to, ..self }
            },
            DataProperty::TxValue => {
                &&& next.value@ == be_word(value)
                &&& next == Self { value: next.value, ..self }
            },
            DataProperty::TxFeeCap | DataProperty::TxMaxFeePerGas => {
                &&& next.fee.max_fee_per_gas@ == be_word(value)
                &&& next == Self {
                    fee: FeeRecord { max_fee_per_gas: next.fee.max_fee_per_gas, ..self.fee },
                    ..self
                }
            },
            DataProperty::TxMaxPriorityFeePerGas => {
                &&& next.fee.max_priority_fee_per_gas@ == be_word(value)
                &&& next == Self {
                    fee: FeeRecord {
                        max_priority_fee_per_gas: next.fee.max_priority_fee_per_gas,
                        ..self.fee
                    },
                    ..self
                }
            },
            DataProperty::TxGasPerPubdata => {
                &&& next.fee.gas_per_pubdata_limit@ == be_word(value)
                &&& next == Self {
                    fee: FeeRecord {
                        gas_per_pubdata_limit: next.fee.gas_per_pubdata_limit,
                        ..self.fee
                    },
                    ..self
                }
            },
            DataProperty::TxData => {
                &&& next.calldata@ == value
                &&& next == Self { calldata: next.calldata, ..self }
            },
            DataProperty::TxR => {
                &&& next.r@ == value
                &&& next == Self { r: next.r, ..self }
            },
            DataProperty::TxS => {
                &&& next.s@ == value
                &&& next == Self { s: next.s, ..self }
            },
            DataProperty::BatchParentHash => {
                &&& next.batch_parent_hash.is_some()
                &&& next.batch_parent_hash.unwrap()@ == value
                &&& next == Self { batch_parent_hash: next.batch_parent_hash, ..self }
            },
            DataProperty::BlockCoinbase
            | DataProperty::BlockDifficulty
            | DataProperty::BlockBaseFee
            | DataProperty::BlockPrevrandao
            | DataProperty::TxHash
            | DataProperty::TxGasPrice
            | DataProperty::TxTip
            | DataProperty::TxMaxFeePerBlobGas
            | DataProperty::TxAccessList
            | DataProperty::TxBlobHashes => next == self,
        }
    }

    open spec fn callback_applied(
        self,
        next: Self,
        property: CallbackProperty,
        callback: C,
    ) -> bool {
        next == Self { storage: self.storage.with_callback(property, callback), ..self }
    }

    open spec fn environment(&self) -> EnvironmentView {
        EnvironmentView {
            batch: self.batch_record(),
            system: self.system_record(),
            transaction: self.transaction_view(),
        }
    }

    open spec fn used_gas(&self) -> u64 {
        self.execution_result.gas_used
    }

    open spec fn return_data(&self) -> Seq<u8> {
        self.execution_result.return_data()
    }

    /// Whether every input holds its initial value: zero, empty, a legacy
    /// transaction, no callback and no execution recorded.
    open spec fn is_fresh(&self) -> bool {
        &&& self.nonce == 0
        &&& self.fee.gas_limit@ == crate::host::zero_word()
        &&& self.fee.max_fee_per_gas@ == crate::host::zero_word()
        &&& self.fee.max_priority_fee_per_gas@ == crate::host::zero_word()
        &&& self.fee.gas_per_pubdata_limit@ == crate::host::zero_word()
        &&& self.from@ == Seq::new(20, |i: int| 0u8)
        &&& self.to@ == Seq::new(20, |i: int| 0u8)
        &&& self.r@ == crate::host::zero_word()
        &&& self.s@ == crate::host::zero_word()
        &&& self.v == 0
        &&& self.transaction_type == TransactionType::Legacy
        &&& self.calldata@ == Seq::<u8>::empty()
        &&& self.value@ == crate::host::zero_word()
        &&& self.block_number == 0
        &&& self.block_timestamp == 0
        &&& self.block_parent_hash@ == crate::host::zero_word()
        &&& self.batch_number == 0
        &&& self.batch_timestamp == 0
        &&& self.batch_l1_gas_price == 0
        &&& self.batch_l2_fair_gas_price == 0
        &&& self.batch_parent_hash.is_none()
        &&& self.execution_result.gas_used == 0
        &&& self.execution_result.return_data() == Seq::<u8>::empty()
        &&& self.storage.is_empty()
    }

    open spec fn same_inputs(self, next: Self) -> bool {
        next == Self { execution_result: next.execution_result, ..self }
    }

    fn new() -> (r: Self) {
        Self::fresh()
    }

    fn set_uint64(&mut self, property: Uint64Property, value: u64) {
        match property {
            Uint64Property::BlockNumber => self.block_number = value as u32,
            Uint64Property::BlockTimestamp => self.block_timestamp = value,
            Uint64Property::BlockGasLimit | Uint64Property::TxGasLimit => {
                self.fee.gas_limit = word_from_u64(value);
            },
            Uint64Property::TxNonce => self.nonce = value as u32,
            Uint64Property::TxV => self.v = value as u8,
            Uint64Property::TxType => {
                self.transaction_type = transaction_type_of_code(value as u32).unwrap();
            },
            Uint64Property::BatchNumber => self.batch_number = value as u32,
            Uint64Property::BatchTimestamp => self.batch_timestamp = value,
            Uint64Property::BatchL1GasPrice => self.batch_l1_gas_price = value,
            Uint64Property::BatchL2FairGasPrice => self.batch_l2_fair_gas_price = value,
            Uint64Property::BlockExcessBlobGas
            | Uint64Property::OptCheckNonce
            | Uint64Property::OptNoBaseFee => {},
        }
    }

    fn set_data(&mut self, property: DataProperty, value: &[u8]) {
        match property {
            DataProperty::BlockParentHash => self.block_parent_hash = array_from_slice(value),
            DataProperty::TxFrom => self.from = array_from_slice(value),
            DataProperty::TxTo => self.to = array_from_slice(value),
            DataProperty::TxValue => self.value = word_from_be_slice(value),
            DataProperty::TxFeeCap | DataProperty::TxMaxFeePerGas => {
                self.fee.max_fee_per_gas = word_from_be_slice(value);
            },
            DataProperty::TxMaxPriorityFeePerGas => {
                self.fee.max_priority_fee_per_gas = word_from_be_slice(value);
            },
            DataProperty::TxGasPerPubdata => {
                self.fee.gas_per_pubdata_limit = word_from_be_slice(value);
            },
            DataProperty::TxData => self.calldata = vstd::slice::slice_to_vec(value),
            DataProperty::TxR => self.r = array_from_slice(value),
            DataProperty::TxS => self.s = array_from_slice(value),
            DataProperty::BatchParentHash => {
                self.batch_parent_hash = Some(array_from_slice(value));
            },
            DataProperty::BlockCoinbase
            | DataProperty::BlockDifficulty
            | DataProperty::BlockBaseFee
            | DataProperty::BlockPrevrandao
            | DataProperty::TxHash
            | DataProperty::TxGasPrice
            | DataProperty::TxTip
            | DataProperty::TxMaxFeePerBlobGas
            | DataProperty::TxAccessList
            | DataProperty::TxBlobHashes => {},
        }
    }

    fn set_callback(&mut self, property: CallbackProperty, callback: C) {
        self.storage.install(property, callback);
    }

    fn execution_environment(&self) -> (r: ExecutionEnvironment) {
        ExecutionEnvironment {
            batch: self.l1_batch_env(),
            system: self.system_env(),
            transaction: self.transaction(),
        }
    }

    fn record_report(&mut self, report: EngineReport)
        ensures
            *final(self) == old(self).after_report(report),
    {
        match report {
            EngineReport::Completed(result) => self.execution_result = result,
            EngineReport::Faulted => {},
        }
    }

    fn get_used_gas(&self) -> (r: u64) {
        self.execution_result.gas_used
    }

    fn get_return_data(&self) -> (r: Vec<u8>) {
        match self.execution_result.status {
            ExecutionStatus::Success => {
                let r = self.execution_result.output.clone();
                assert(r@ =~= self.execution_result.output@);
                r
            },
            _ => Vec::new(),
        }
    }
}

/// What the environment shows of integer input `property` once it holds
/// `value`.
pub open spec fn uint64_observed(env: EnvironmentView, property: Uint64Property, value: u64) -> bool {
    match property {
        Uint64Property::BlockNumber => env.batch.first_l2_block.number == value as u32,
        Uint64Property::BlockTimestamp => env.batch.first_l2_block.timestamp == value,
        Uint64Property::BlockGasLimit | Uint64Property::TxGasLimit => env.transaction.fields.fee.gas_limit@
            == be_word(u64_be_bytes(value)),
        Uint64Property::TxNonce => env.transaction.fields.nonce == value as u32,
        Uint64Property::TxV => env.transaction.fields.v == value as u8,
        Uint64Property::TxType => Some(env.transaction.fields.transaction_type)
            == transaction_type_from_code(value as u32),
        Uint64Property::BatchNumber => env.batch.number == value as u32,
        Uint64Property::BatchTimestamp => env.batch.timestamp == value,
        Uint64Property::BatchL1GasPrice => env.batch.l1_gas_price == value,
        Uint64Property::BatchL2FairGasPrice => env.batch.fair_l2_gas_price == value,
        Uint64Property::BlockExcessBlobGas
        | Uint64Property::OptCheckNonce
        | Uint64Property::OptNoBaseFee => true,
    }
}

/// What the environment shows of byte-buffer input `property` once it
/// holds `value`.
pub open spec fn data_observed(env: EnvironmentView, property: DataProperty, value: Seq<u8>) -> bool {
    match property {
        DataProperty::BlockParentHash => env.batch.first_l2_block.prev_block_hash@ == value,
        DataProperty::TxFrom => env.transaction.fields.initiator_address@ == value,
        DataProperty::TxTo => env.transaction.fields.contract_address@ == value,
        DataProperty::TxValue => env.transaction.fields.value@ == be_word(value),
        DataProperty::TxFeeCap | DataProperty::TxMaxFeePerGas => env.transaction.fields.fee.max_fee_per_gas@
            == be_word(value),
        DataProperty::TxMaxPriorityFeePerGas => env.transaction.fields.fee.max_priority_fee_per_gas@
            == be_word(value),
        DataProperty::TxGasPerPubdata => env.transaction.fields.fee.gas_per_pubdata_limit@
            == be_word(value),
        DataProperty::TxData => env.transaction.calldata == value,
        DataProperty::TxR => env.transaction.fields.r@ == value,
        DataProperty::TxS => env.transaction.fields.s@ == value,
        DataProperty::BatchParentHash => {
            &&& env.batch.previous_batch_hash.is_some()
            &&& env.batch.previous_batch_hash.unwrap()@ == value
        },
        DataProperty::BlockCoinbase
        | DataProperty::BlockDifficulty
        | DataProperty::BlockBaseFee
        | DataProperty::BlockPrevrandao
        | DataProperty::TxHash
        | DataProperty::TxGasPrice
        | DataProperty::TxTip
        | DataProperty::TxMaxFeePerBlobGas
        | DataProperty::TxAccessList
        | DataProperty::TxBlobHashes => true,
    }
}

/// Whether an integer input is carried into the environment; the others
/// are accepted and have no effect.
pub open spec fn uint64_modeled(property: Uint64Property) -> bool {
    !(property is BlockExcessBlobGas || property is OptCheckNonce || property is OptNoBaseFee)
}

/// Whether a byte-buffer input is carried into the environment; the others
/// are accepted and have no effect.
pub open spec fn data_modeled(property: DataProperty) -> bool {
    !(property is BlockCoinbase || property is BlockDifficulty || property is BlockBaseFee
        || property is BlockPrevrandao || property is TxHash || property is TxGasPrice
        || property is TxTip || property is TxMaxFeePerBlobGas || property is TxAccessList
        || property is TxBlobHashes)
}

/// An integer input read back from the environment holds the value last
/// written to it; an input the environment does not carry leaves it as it
/// was.
pub proof fn lemma_uint64_write_observed<C>(
    s: TransactionExecutorImpl<C>,
    t: TransactionExecutorImpl<C>,
    property: Uint64Property,
    value: u64,
)
    requires
        uint64_value_valid(property, value),
        s.uint64_applied(t, property, value),
    ensures
        uint64_observed(t.environment(), property, value),
        !uint64_modeled(property) ==> t.environment() == s.environment(),
{
}

/// Writing an integer input twice leaves the executor as writing only the
/// second value does: the last write wins.
pub proof fn lemma_uint64_last_write_wins<C>(
    s: TransactionExecutorImpl<C>,
    t: TransactionExecutorImpl<C>,
    u: TransactionExecutorImpl<C>,
    w: TransactionExecutorImpl<C>,
    property: Uint64Property,
    first: u64,
    second: u64,
)
    requires
        s.uint64_applied(t, property, first),
        t.uint64_applied(u, property, second),
        s.uint64_applied(w, property, second),
    ensures
        u == w,
{
    if property is BlockGasLimit || property is TxGasLimit {
        assert(u.fee.gas_limit =~= w.fee.gas_limit);
    }
}

/// A byte-buffer input read back from the environment holds the value
/// last written to it; an input the environment does not carry leaves it
/// as it was.
pub proof fn lemma_data_write_observed<C>(
    s: TransactionExecutorImpl<C>,
    t: TransactionExecutorImpl<C>,
    property: DataProperty,
    value: Seq<u8>,
)
    requires
        data_value_valid(property, value.len()),
        s.data_applied(t, property, value),
    ensures
        data_observed(t.environment(), property, value),
        !data_modeled(property) ==> t.environment() == s.environment(),
{
}

/// Writing a byte-buffer input twice derives the environment that writing
/// only the second value does: the last write wins.
pub proof fn lemma_data_last_write_wins<C>(
    s: TransactionExecutorImpl<C>,
    t: TransactionExecutorImpl<C>,
    u: TransactionExecutorImpl<C>,
    w: TransactionExecutorImpl<C>,
    property: DataProperty,
    first: Seq<u8>,
    second: Seq<u8>,
)
    requires
        s.data_applied(t, property, first),
        t.data_applied(u, property, second),
        s.data_applied(w, property, second),
    ensures
        u.environment() == w.environment(),
        u.execution_result == w.execution_result,
        u.storage == w.storage,
{
    assert(u.from =~= w.from);
    assert(u.to =~= w.to);
    assert(u.r =~= w.r);
    assert(u.s =~= w.s);
    assert(u.value =~= w.value);
    assert(u.block_parent_hash =~= w.block_parent_hash);
    assert(u.fee.max_fee_per_gas =~= w.fee.max_fee_per_gas);
    assert(u.fee.max_priority_fee_per_gas =~= w.fee.max_priority_fee_per_gas);
    assert(u.fee.gas_per_pubdata_limit =~= w.fee.gas_per_pubdata_limit);
    if property is BatchParentHash {
        assert(u.batch_parent_hash.unwrap() =~= w.batch_parent_hash.unwrap());
    }
}

/// An execution never changes the inputs, so executing again with no
/// write in between runs on the same environment; and where the engine
/// reports the same outcome again, the executor ends as it was after the
/// first execution.
pub proof fn lemma_execute_repeatable<C>(s: TransactionExecutorImpl<C>, report: EngineReport)
    ensures
        s.after_report(report).environment() == s.environment(),
        s.after_report(report).after_report(report) == s.after_report(report),
{
}

/// A faulted execution leaves the gas used and the returned bytes as they
/// were before it: zero and empty if nothing completed before.
pub proof fn lemma_fault_contained<C>(s: TransactionExecutorImpl<C>)
    ensures
        s.after_report(EngineReport::Faulted).used_gas() == s.used_gas(),
        s.after_report(EngineReport::Faulted).return_data() == s.return_data(),
        s.is_fresh() ==> s.after_report(EngineReport::Faulted).used_gas() == 0,
{
}

} // verus!
