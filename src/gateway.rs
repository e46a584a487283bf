//! The generic gateway: an executor handle that routes property writes,
//! executions and output reads by identifier to any executor.
use vstd::prelude::*;

use crate::property::{
    callback_property, data_output, data_property, data_value_valid, uint64_output,
    uint64_property, uint64_value_valid, CallbackProperty, DataOutput, DataProperty,
    Uint64Output, Uint64Property,
};
use crate::records::{EngineReport, EnvironmentView, ExecutionEnvironment};

verus! {

/// An executor that accumulates inputs, hands an execution environment to
/// the engine and keeps the last result the engine reported.
pub trait TransactionExecutor: Sized {
    /// The host callback this executor stores.
    type Callback;

    /// `next` is `self` after integer input `property` was set to `value`.
    spec fn uint64_applied(self, next: Self, property: Uint64Property, value: u64) -> bool;

    /// `next` is `self` after byte-buffer input `property` was set to `value`.
    spec fn data_applied(self, next: Self, property: DataProperty, value: Seq<u8>) -> bool;

    /// `next` is `self` after `callback` was installed under `property`.
    spec fn callback_applied(
        self,
        next: Self,
        property: CallbackProperty,
        callback: Self::Callback,
    ) -> bool;

    /// The environment that the current inputs derive.
    spec fn environment(&self) -> EnvironmentView;

    /// The gas that the last recorded execution used.
    spec fn used_gas(&self) -> u64;

    /// The bytes that the last recorded execution returned.
    spec fn return_data(&self) -> Seq<u8>;

    /// Whether every input holds its initial value, no callback is
    /// installed and no execution is recorded.
    spec fn is_fresh(&self) -> bool;

    /// `next` holds the inputs and the installed callbacks of `self`.
    spec fn same_inputs(self, next: Self) -> bool;

    /// A fresh executor.
    fn new() -> (r: Self)
        ensures
            r.is_fresh(),
            r.used_gas() == 0,
            r.return_data() == Seq::<u8>::empty(),
    ;

    /// Writes an integer input.
    fn set_uint64(&mut self, property: Uint64Property, value: u64)
        requires
            uint64_value_valid(property, value),
        ensures
            old(self).uint64_applied(*final(self), property, value),
    ;

    /// Writes a byte-buffer input; the buffer is only read during the call.
    fn set_data(&mut self, property: DataProperty, value: &[u8])
        requires
            data_value_valid(property, value@.len()),
        ensures
            old(self).data_applied(*final(self), property, value@),
    ;

    /// Installs a host callback, replacing the one of the same kind.
    fn set_callback(&mut self, property: CallbackProperty, callback: Self::Callback)
        ensures
            old(self).callback_applied(*final(self), property, callback),
    ;

    /// The environment the engine is to run on.
    fn execution_environment(&self) -> (r: ExecutionEnvironment)
        ensures
            r@ == self.environment(),
    ;

    /// Records what the engine reported: a completed result replaces the
    /// last one, a fault leaves it as it was; the inputs and the installed
    /// callbacks never change.
    fn record_report(&mut self, report: EngineReport)
        ensures
            old(self).same_inputs(*final(self)),
            final(self).environment() == old(self).environment(),
            match report {
                EngineReport::Completed(result) => {
                    &&& final(self).used_gas() == result.gas_used
                    &&& final(self).return_data() == result.return_data()
                },
                EngineReport::Faulted => {
                    &&& final(self).used_gas() == old(self).used_gas()
                    &&& final(self).return_data() == old(self).return_data()
                },
            },
    ;

    /// The gas that the last recorded execution used; 0 before any.
    fn get_used_gas(&self) -> (r: u64)
        ensures
            r == self.used_gas(),
    ;

    /// The bytes that the last recorded execution returned; empty before
    /// any, and after one that did not succeed.
    fn get_return_data(&self) -> (r: Vec<u8>)
        ensures
            r@ == self.return_data(),
    ;
}

/// The state behind one executor handle.
#[derive(Debug)]
pub struct TxExecImpl<T: TransactionExecutor>(pub T);

impl<T: TransactionExecutor> TxExecImpl<T> {
    /// A handle state around a fresh executor.
    pub fn new() -> (r: Self)
        ensures
            r.0.is_fresh(),
            r.0.used_gas() == 0,
            r.0.return_data() == Seq::<u8>::empty(),
    {
        TxExecImpl(T::new())
    }
}

/// Creates a handle around a fresh executor.
pub fn exec_new_tx_executor<T: TransactionExecutor>() -> (r: Box<TxExecImpl<T>>)
    ensures
        r.0.is_fresh(),
        r.0.used_gas() == 0,
        r.0.return_data() == Seq::<u8>::empty(),
{
    Box::new(TxExecImpl::new())
}

/// Whether `value` may be written to the integer input `id`; an unknown
/// identifier takes any value, since the write is then ignored.
pub open spec fn uint64_input_valid(id: u64, value: u64) -> bool {
    match uint64_property(id) {
        Some(p) => uint64_value_valid(p, value),
        None => true,
    }
}

/// Whether a buffer of `len` bytes may be written to the byte-buffer input
/// `id`; an unknown identifier takes any buffer.
pub open spec fn data_input_valid(id: u64, len: nat) -> bool {
    match data_property(id) {
        Some(p) => data_value_valid(p, len),
        None => true,
    }
}

/// Tests, before a write, what `exec_tx_set_property_uint64` requires.
pub fn uint64_input_accepted(id: u64, value: u64) -> (r: bool)
    ensures
        r == uint64_input_valid(id, value),
{
    match Uint64Property::from_id(id) {
        Some(p) => p.accepts(value),
        None => true,
    }
}

/// Tests, before a write, what `exec_tx_set_property_data` requires.
pub fn data_input_accepted(id: u64, len: usize) -> (r: bool)
    ensures
        r == data_input_valid(id, len as nat),
{
    match DataProperty::from_id(id) {
        Some(p) => p.accepts(len),
        None => true,
    }
}

/// Writes an integer input by identifier. Returns whether the identifier
/// is known; an unknown one leaves the handle untouched.
pub fn exec_tx_set_property_uint64<T: TransactionExecutor>(
    tx: &mut TxExecImpl<T>,
    property: u64,
    value: u64,
) -> (r: bool)
    requires
        uint64_input_valid(property, value),
    ensures
        r == uint64_property(property).is_some(),
        match uint64_property(property) {
            Some(p) => old(tx).0.uint64_applied(final(tx).0, p, value),
            None => *final(tx) == *old(tx),
        },
{
    match Uint64Property::from_id(property) {
        Some(p) => {
            tx.0.set_uint64(p, value);
            true
        },
        None => false,
    }
}

/// Writes a byte-buffer input by identifier. Returns whether the
/// identifier is known; an unknown one leaves the handle untouched.
pub fn exec_tx_set_property_data<T: TransactionExecutor>(
    tx: &mut TxExecImpl<T>,
    property: u64,
    value: &[u8],
) -> (r: bool)
    requires
        data_input_valid(property, value@.len()),
    ensures
        r == data_property(property).is_some(),
        match data_property(property) {
            Some(p) => old(tx).0.data_applied(final(tx).0, p, value@),
            None => *final(tx) == *old(tx),
        },
{
    match DataProperty::from_id(property) {
        Some(p) => {
            tx.0.set_data(p, value);
            true
        },
        None => false,
    }
}

/// Installs a host callback by identifier. Returns whether the identifier
/// is known; an unknown one leaves the handle untouched.
pub fn exec_tx_set_property_func<T: TransactionExecutor>(
    tx: &mut TxExecImpl<T>,
    property: u64,
    callback: T::Callback,
) -> (r: bool)
    ensures
        r == callback_property(property).is_some(),
        match callback_property(property) {
            Some(p) => old(tx).0.callback_applied(final(tx).0, p, callback),
            None => *final(tx) == *old(tx),
        },
{
    match CallbackProperty::from_id(property) {
        Some(p) => {
            tx.0.set_callback(p, callback);
            true
        },
        None => false,
    }
}

/// The first half of an execution: the environment the engine is to run on.
pub fn exec_tx_prepare<T: TransactionExecutor>(tx: &TxExecImpl<T>) -> (r: ExecutionEnvironment)
    ensures
        r@ == tx.0.environment(),
{
    tx.0.execution_environment()
}

/// The second half of an execution: records what the engine reported.
pub fn exec_tx_complete<T: TransactionExecutor>(tx: &mut TxExecImpl<T>, report: EngineReport)
    ensures
        old(tx).0.same_inputs(final(tx).0),
        final(tx).0.environment() == old(tx).0.environment(),
        match report {
            EngineReport::Completed(result) => {
                &&& final(tx).0.used_gas() == result.gas_used
                &&& final(tx).0.return_data() == result.return_data()
            },
            EngineReport::Faulted => {
                &&& final(tx).0.used_gas() == old(tx).0.used_gas()
                &&& final(tx).0.return_data() == old(tx).0.return_data()
            },
        },
{
    tx.0.record_report(report);
}

/// Reads an integer output by identifier; `None` for an unknown one.
pub fn exec_tx_get_output_uint64<T: TransactionExecutor>(tx: &TxExecImpl<T>, output: u64) -> (r:
    Option<u64>)
    ensures
        r == match uint64_output(output) {
            Some(Uint64Output::UsedGas) => Some(tx.0.used_gas()),
            None => None,
        },
{
    match Uint64Output::from_id(output) {
        Some(Uint64Output::UsedGas) => Some(tx.0.get_used_gas()),
        None => None,
    }
}

/// Reads a byte-buffer output by identifier; `None` for an unknown one.
pub fn exec_tx_get_output_data<T: TransactionExecutor>(tx: &TxExecImpl<T>, output: u64) -> (r:
    Option<Vec<u8>>)
    ensures
        r.is_some() == data_output(output).is_some(),
        data_output(output) == Some(DataOutput::ReturnData) ==> r.unwrap()@ == tx.0.return_data(),
{
    match DataOutput::from_id(output) {
        Some(DataOutput::ReturnData) => Some(tx.0.get_return_data()),
        None => None,
    }
}

} // verus!
