//! Host callbacks and the storage adapter that serves the engine's reads
//! through them.
use vstd::prelude::*;

use crate::property::CallbackProperty;

verus! {

/// A 20-byte account address.
pub type Address = [u8; 20];

/// A 32-byte hash, slot key, storage word or 256-bit amount.
pub type Bytes32 = [u8; 32];

/// A function of the host process, installed under one callback kind.
///
/// `subject` is the address, or the hash for the by-hash kinds; `key` is
/// the slot key of a storage read and empty otherwise; the host fills
/// `output` where its kind returns bytes, and returns an integer where its
/// kind returns one (nonce, code length), 0 otherwise.
///
/// The host supplies the implementations, so nothing in this library proves
/// them: `answered` is the impl's own account of one call, and the length
/// clause holds of every Rust function, since a slice cannot change length.
/// An impl that keeps the default `answered` states nothing of what its host
/// function does, which is all that can be said of a foreign function.
pub trait HostCallback: Sized {
    /// The host, in state `self`, asked with `subject` and `key` and handed
    /// a buffer holding `before`, ended in state `next` with the buffer
    /// holding `after`.
    open spec fn answered(
        self,
        next: Self,
        subject: Seq<u8>,
        key: Seq<u8>,
        before: Seq<u8>,
        after: Seq<u8>,
    ) -> bool {
        true
    }

    fn call(&mut self, subject: &[u8], key: &[u8], output: &mut [u8]) -> (r: u64)
        ensures
            final(output)@.len() == old(output)@.len(),
            old(self).answered(*final(self), subject@, key@, old(output)@, final(output)@),
    ;
}

/// The all-zero storage word.
pub open spec fn zero_word() -> Seq<u8> {
    Seq::new(32, |i: int| 0u8)
}

/// The length that a bytecode hash encodes: the big-endian 16-bit word at
/// bytes 2 and 3, in 32-byte words.
pub open spec fn encoded_bytecode_len(hash: Seq<u8>) -> nat {
    32 * (hash[2] as nat * 256 + hash[3] as nat)
}

/// The callbacks installed so far, one slot per kind; an empty slot was
/// never installed.
#[derive(Debug)]
pub struct DataProvider<C> {
    pub get_nonce: Option<C>,
    pub get_balance: Option<C>,
    pub get_code_hash: Option<C>,
    pub get_code_length: Option<C>,
    pub get_code: Option<C>,
    pub get_storage: Option<C>,
    pub get_code_by_hash: Option<C>,
    pub get_code_length_by_hash: Option<C>,
}

impl<C> DataProvider<C> {
    /// Whether no callback has been installed.
    pub open spec fn is_empty(self) -> bool {
        &&& self.get_nonce.is_none()
        &&& self.get_balance.is_none()
        &&& self.get_code_hash.is_none()
        &&& self.get_code_length.is_none()
        &&& self.get_code.is_none()
        &&& self.get_storage.is_none()
        &&& self.get_code_by_hash.is_none()
        &&& self.get_code_length_by_hash.is_none()
    }

    /// The provider with `callback` in the slot of `kind`, the other slots kept.
    pub open spec fn with_callback(self, kind: CallbackProperty, callback: C) -> Self {
        match kind {
            CallbackProperty::EnvGetNonce => DataProvider { get_nonce: Some(callback), ..self },
            CallbackProperty::EnvGetBalance => DataProvider { get_balance: Some(callback), ..self },
            CallbackProperty::EnvGetCodeHash => DataProvider { get_code_hash: Some(callback), ..self },
            CallbackProperty::EnvGetCodeLength => DataProvider { get_code_length: Some(callback), ..self },
            CallbackProperty::EnvGetCode => DataProvider { get_code: Some(callback), ..self },
            CallbackProperty::EnvGetStorage => DataProvider { get_storage: Some(callback), ..self },
            CallbackProperty::EnvGetCodeByHash => DataProvider { get_code_by_hash: Some(callback), ..self },
            CallbackProperty::EnvGetCodeLengthByHash => DataProvider {
                get_code_length_by_hash: Some(callback),
                ..self
            },
        }
    }

    /// A provider with no callback installed.
    pub fn new() -> (r: Self)
        ensures
            r.is_empty(),
    {
        DataProvider {
            get_nonce: None,
            get_balance: None,
            get_code_hash: None,
            get_code_length: None,
            get_code: None,
            get_storage: None,
            get_code_by_hash: None,
            get_code_length_by_hash: None,
        }
    }

    /// Installs `callback` under `kind`, replacing what was there.
    pub fn install(&mut self, kind: CallbackProperty, callback: C)
        ensures
            *final(self) == old(self).with_callback(kind, callback),
    {
        match kind {
            CallbackProperty::EnvGetNonce => self.get_nonce = Some(callback),
            CallbackProperty::EnvGetBalance => self.get_balance = Some(callback),
            CallbackProperty::EnvGetCodeHash => self.get_code_hash = Some(callback),
            CallbackProperty::EnvGetCodeLength => self.get_code_length = Some(callback),
            CallbackProperty::EnvGetCode => self.get_code = Some(callback),
            CallbackProperty::EnvGetStorage => self.get_storage = Some(callback),
            CallbackProperty::EnvGetCodeByHash => self.get_code_by_hash = Some(callback),
            CallbackProperty::EnvGetCodeLengthByHash => self.get_code_length_by_hash = Some(
                callback,
            ),
        }
    }
}

/// The number of bytes of the bytecode that `hash` names.
pub fn factory_dep_length(hash: &Bytes32) -> (r: usize)
    ensures
        r as nat == encoded_bytecode_len(hash@),
{
    let words: usize = (hash[2] as usize) * 256 + (hash[3] as usize);
    32 * words
}

/// The zeroed buffer in which the host is asked for the bytecode of `hash`.
pub fn factory_dep_buffer(hash: &Bytes32) -> (r: Vec<u8>)
    ensures
        r@ == Seq::new(encoded_bytecode_len(hash@), |i: int| 0u8),
{
    let len = factory_dep_length(hash);
    let mut buf: Vec<u8> = Vec::with_capacity(len);
    let mut i: usize = 0;
    while i < len
        invariant
            i <= len,
            buf@ == Seq::new(i as nat, |j: int| 0u8),
        decreases len - i,
    {
        buf.push(0u8);
        i = i + 1;
        assert(buf@ =~= Seq::new(i as nat, |j: int| 0u8));
    }
    buf
}

impl<C> Default for DataProvider<C> {
    fn default() -> (r: Self)
        ensures
            r.is_empty(),
    {
        Self::new()
    }
}

impl<C: HostCallback> DataProvider<C> {
    /// Reads a storage slot through the storage callback: the host is asked
    /// once, with the address, the key and a zeroed word, and the word it
    /// leaves is the result; the zero word where no storage callback is
    /// installed.
    pub fn read_value(&mut self, address: &Address, key: &Bytes32) -> (r: Bytes32)
        ensures
            old(self).get_storage.is_some() ==> old(self).get_storage.unwrap().answered(
                final(self).get_storage.unwrap(),
                address@,
                key@,
                zero_word(),
                r@,
            ),
            old(self).get_storage.is_none() ==> r@ == zero_word(),
            old(self).get_storage.is_none() ==> *final(self) == *old(self),
            final(self).get_storage.is_some() == old(self).get_storage.is_some(),
            *final(self) == (DataProvider { get_storage: final(self).get_storage, ..*old(self) }),
    {
        let mut value: Bytes32 = [0u8; 32];
        assert(value@ =~= zero_word());
        match &mut self.get_storage {
            Some(callback) => {
                let _ = callback.call(address.as_slice(), key.as_slice(), &mut value);
            },
            None => {},
        }
        value
    }

    /// Loads the bytecode that `hash` names: the host is asked once, with
    /// the hash and a zeroed buffer of the length the hash encodes, and the
    /// buffer it leaves is the result; it stays zero where no code-by-hash
    /// callback is installed.
    pub fn load_factory_dep(&mut self, hash: &Bytes32) -> (r: Option<Vec<u8>>)
        ensures
            r.is_some(),
            r.unwrap()@.len() == encoded_bytecode_len(hash@),
            old(self).get_code_by_hash.is_some() ==> old(self).get_code_by_hash.unwrap().answered(
                final(self).get_code_by_hash.unwrap(),
                hash@,
                Seq::<u8>::empty(),
                Seq::new(encoded_bytecode_len(hash@), |i: int| 0u8),
                r.unwrap()@,
            ),
            old(self).get_code_by_hash.is_none() ==> r.unwrap()@ == Seq::new(
                encoded_bytecode_len(hash@),
                |i: int| 0u8,
            ),
            old(self).get_code_by_hash.is_none() ==> *final(self) == *old(self),
            final(self).get_code_by_hash.is_some() == old(self).get_code_by_hash.is_some(),
            *final(self) == (DataProvider {
                get_code_by_hash: final(self).get_code_by_hash,
                ..*old(self)
            }),
    {
        let mut bytecode = factory_dep_buffer(hash);
        match &mut self.get_code_by_hash {
            Some(callback) => {
                let empty: [u8; 0] = [];
                assert(empty@ =~= Seq::<u8>::empty());
                let _ = callback.call(hash.as_slice(), empty.as_slice(), bytecode.as_mut_slice());
            },
            None => {},
        }
        Some(bytecode)
    }
}

} // verus!
