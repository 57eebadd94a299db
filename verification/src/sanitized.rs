//! The wire form of a sanitized transaction, and the mapping between it and
//! the in-memory form.
use vstd::prelude::*;
use crate::error::Error;
use crate::resolved;
use crate::resolved::{addresses_encoding, engine_addresses, HASH_BYTES};
use crate::transaction::{transaction_decoding, transaction_encoding, Transaction};

verus! {

/// A sanitized transaction on the wire: three binary-encoded parts.
#[derive(Clone, Debug, PartialEq, Eq)]
pub struct SanitizedTransaction {
    pub versioned_transaction: Vec<u8>,
    pub message_hash: Vec<u8>,
    pub loaded_addresses: Vec<u8>,
}

/// A list of sanitized transactions on the wire.
#[derive(Clone, Debug, PartialEq, Eq)]
pub struct SanitizedTransactionBatch {
    pub transactions: Vec<SanitizedTransaction>,
}

/// A wire sanitized transaction as a mathematical value.
pub struct SanitizedTransactionView {
    pub versioned_transaction: Seq<u8>,
    pub message_hash: Seq<u8>,
    pub loaded_addresses: Seq<u8>,
}

impl View for SanitizedTransaction {
    type V = SanitizedTransactionView;

    open spec fn view(&self) -> SanitizedTransactionView {
        SanitizedTransactionView {
            versioned_transaction: self.versioned_transaction@,
            message_hash: self.message_hash@,
            loaded_addresses: self.loaded_addresses@,
        }
    }
}

/// The wire form of a sanitized transaction: none where a part has no
/// encoding.
pub open spec fn wire_of(tx: resolved::SanitizedTransactionView) -> Option<SanitizedTransactionView> {
    match (
        transaction_encoding(tx.transaction.signatures, tx.transaction.message),
        addresses_encoding(tx.loaded_addresses.writable, tx.loaded_addresses.readonly),
    ) {
        (Some(versioned_transaction), Some(loaded_addresses)) => Some(
            SanitizedTransactionView {
                versioned_transaction,
                message_hash: tx.message_hash,
                loaded_addresses,
            },
        ),
        _ => None,
    }
}

/// What a wire sanitized transaction converts to. A hash of the wrong length
/// is refused before anything else is looked at. Then the transaction is
/// decoded, and the engine makes its own value of the three parts: the result
/// holds the decoded transaction, the hash, and the addresses that the engine
/// holds for it.
pub open spec fn native_of(w: SanitizedTransactionView) -> Result<resolved::SanitizedTransactionView, Error> {
    if w.message_hash.len() != HASH_BYTES {
        Err(Error::InvalidHashLength)
    } else {
        match (
            transaction_decoding(w.versioned_transaction),
            engine_addresses(w.versioned_transaction, w.message_hash, w.loaded_addresses),
        ) {
            (Some(tx), Some(a)) => Ok(
                resolved::SanitizedTransactionView {
                    transaction: tx,
                    message_hash: w.message_hash,
                    loaded_addresses: a,
                },
            ),
            _ => Err(Error::Conversion),
        }
    }
}

/// A copy of `bytes` as a message hash. Fails with `Error::InvalidHashLength`
/// exactly where `bytes` are not 32 bytes.
pub fn checked_hash(bytes: &Vec<u8>) -> (out: Result<Vec<u8>, Error>)
    ensures
        match out {
            Ok(hash) => bytes@.len() == HASH_BYTES && hash@ == bytes@,
            Err(e) => bytes@.len() != HASH_BYTES && e == Error::InvalidHashLength,
        },
{
    if bytes.len() != HASH_BYTES {
        return Err(Error::InvalidHashLength);
    }
    let mut hash: Vec<u8> = Vec::with_capacity(HASH_BYTES);
    let mut i: usize = 0;
    while i < HASH_BYTES
        invariant
            i <= HASH_BYTES,
            bytes@.len() == HASH_BYTES,
            hash@ == bytes@.take(i as int),
        decreases HASH_BYTES - i,
    {
        hash.push(bytes[i]);
        i = i + 1;
        assert(hash@ =~= bytes@.take(i as int));
    }
    assert(hash@ =~= bytes@);
    Ok(hash)
}

/// The sanitized transaction made of a decoded transaction and its hash,
/// given the engine's answer: with the addresses that the engine holds where
/// it accepted, `Error::Conversion` where it gave none.
pub fn validated(
    transaction: Transaction,
    message_hash: Vec<u8>,
    held: Option<resolved::LoadedAddresses>,
) -> (out: Result<resolved::SanitizedTransaction, Error>)
    ensures
        match out {
            Ok(tx) => tx.transaction == transaction && tx.message_hash == message_hash && held == Some(
                tx.loaded_addresses,
            ),
            Err(e) => held.is_none() && e == Error::Conversion,
        },
{
    match held {
        Some(loaded_addresses) => Ok(
            resolved::SanitizedTransaction { transaction, message_hash, loaded_addresses },
        ),
        None => Err(Error::Conversion),
    }
}

impl SanitizedTransaction {
    /// The wire form of a sanitized transaction. Fails with `Error::Encode`
    /// exactly where the transaction or the addresses have no encoding.
    pub fn try_from_native(tx: &resolved::SanitizedTransaction) -> (out: Result<SanitizedTransaction, Error>)
        ensures
            match out {
                Ok(w) => wire_of(tx@) == Some(w@),
                Err(e) => e == Error::Encode && wire_of(tx@).is_none(),
            },
    {
        let versioned_transaction = match tx.transaction.encode() {
            Ok(bytes) => bytes,
            Err(_) => {
                return Err(Error::Encode);
            },
        };
        let message_hash = tx.message_hash.clone();
        let loaded_addresses = match resolved::bincode_serialize_addresses(&tx.loaded_addresses) {
            Ok(bytes) => bytes,
            Err(_) => {
                return Err(Error::Encode);
            },
        };
        Ok(SanitizedTransaction { versioned_transaction, message_hash, loaded_addresses })
    }

    /// The sanitized transaction that this wire form stands for. Fails with
    /// `Error::InvalidHashLength` where the hash is not 32 bytes, whatever the
    /// other parts hold; else with `Error::Conversion` where a part does not
    /// decode or the engine's validation refuses the transaction. The
    /// addresses of the result are those that the engine holds: none for a
    /// message of the older form, whatever the wire form carried.
    pub fn to_native(&self) -> (out: Result<resolved::SanitizedTransaction, Error>)
        ensures
            match out {
                Ok(tx) => tx.wf() && native_of(self@) == Ok::<resolved::SanitizedTransactionView, Error>(tx@),
                Err(e) => native_of(self@) == Err::<resolved::SanitizedTransactionView, Error>(e),
            },
            self.message_hash@.len() != HASH_BYTES ==> out == Err::<resolved::SanitizedTransaction, Error>(
                Error::InvalidHashLength,
            ),
    {
        let message_hash = match checked_hash(&self.message_hash) {
            Ok(hash) => hash,
            Err(e) => {
                return Err(e);
            },
        };
        let transaction = match Transaction::decode(&self.versioned_transaction) {
            Ok(tx) => tx,
            Err(_) => {
                return Err(Error::Conversion);
            },
        };
        let held = resolved::create(&self.versioned_transaction, &message_hash, &self.loaded_addresses);
        validated(transaction, message_hash, held)
    }
}

} // verus!
