//! Conversions between the wire form of transactions, packets, bundles and
//! expiring batches and their in-memory form, with the identifier of a bundle.
use vstd::prelude::*;
use crate::convert::claimed_size;
use crate::error::Error;
use crate::hashing::{joined, sha256_hex, signature_text};
use crate::shared::Instant;
use crate::transaction::{packet_decoding, Transaction};

pub mod block_engine;
pub mod bundle;
pub mod convert;
pub mod error;
pub mod hashing;
pub mod native;
pub mod packet;
pub mod resolved;
pub mod sanitized;
pub mod shared;
pub mod transaction;

verus! {

/// The first signature of each transaction, in order.
pub open spec fn first_signatures(transactions: Seq<Transaction>) -> Seq<Seq<u8>> {
    Seq::new(transactions.len(), |i: int| transactions[i]@.signatures[0])
}

/// The identifier of the bundle whose transactions have these first
/// signatures: the digest of their texts, joined by commas.
pub open spec fn bundle_id_of(signatures: Seq<Seq<u8>>) -> Seq<char> {
    sha256_hex(joined(signatures.map_values(|s: Seq<u8>| signature_text(s)), ","@))
}

/// The identifier of a bundle of transactions: the SHA-256 digest, in
/// lowercase hexadecimal, of the base-58 texts of the transactions' first
/// signatures, in order and separated by commas. Every transaction must have
/// a signature.
pub fn derive_bundle_id(transactions: &[Transaction]) -> (id: String)
    requires
        forall|i: int| 0 <= i < transactions@.len() ==> (#[trigger] transactions@[i]).signatures@.len() > 0,
    ensures
        id@ == bundle_id_of(first_signatures(transactions@)),
        hashing::is_digest_text(id@),
{
    let mut texts: Vec<String> = Vec::new();
    let mut i: usize = 0;
    while i < transactions.len()
        invariant
            i <= transactions@.len(),
            texts@.len() == i,
            forall|j: int| 0 <= j < transactions@.len() ==> (#[trigger] transactions@[j]).signatures@.len() > 0,
            forall|j: int| 0 <= j < i ==> (#[trigger] texts@[j])@ == signature_text(
                first_signatures(transactions@)[j],
            ),
        decreases transactions@.len() - i,
    {
        let text = hashing::base58(&transactions[i].signatures[0]);
        texts.push(text);
        i = i + 1;
    }
    assert(texts@.map_values(|s: String| s@) =~= first_signatures(transactions@).map_values(
        |s: Seq<u8>| signature_text(s),
    ));
    let text = hashing::join(&texts, ",");
    hashing::sha256_hex_of(text.as_str())
}

/// Bundles whose transactions have the same first signatures in the same
/// order have the same identifier, whatever else the transactions hold.
pub proof fn lemma_bundle_id_by_first_signatures(a: Seq<Transaction>, b: Seq<Transaction>)
    requires
        first_signatures(a) == first_signatures(b),
    ensures
        bundle_id_of(first_signatures(a)) == bundle_id_of(first_signatures(b)),
{
}

/// The identifier of the empty bundle is the digest of the empty text.
pub proof fn lemma_bundle_id_of_nothing()
    ensures
        bundle_id_of(first_signatures(Seq::<Transaction>::empty())) == sha256_hex(Seq::<char>::empty()),
{
    let none = first_signatures(Seq::<Transaction>::empty()).map_values(|s: Seq<u8>| signature_text(s));
    assert(none.len() == 0);
    assert(joined(none, ","@) == Seq::<char>::empty());
}

/// A batch of sanitized transactions with the instant at which it expires.
#[derive(Clone, Debug, PartialEq, Eq)]
pub struct ExpiringSanitizedTransactionBatch {
    pub ts: Instant,
    pub expires_at: Instant,
    pub transactions: Vec<resolved::SanitizedTransaction>,
}

/// A batch of transactions with the instant at which it expires.
#[derive(Clone, Debug, PartialEq, Eq)]
pub struct ExpiringVersionedTransactionBatch {
    pub ts: Instant,
    pub expires_at: Instant,
    pub transactions: Vec<Transaction>,
}

/// For each wire transaction of a batch, why it does not convert, if it does not.
pub open spec fn sanitized_errors(batch: Option<sanitized::SanitizedTransactionBatch>) -> Seq<Option<Error>> {
    match batch {
        Some(b) => Seq::new(
            b.transactions@.len(),
            |i: int|
                match sanitized::native_of(b.transactions@[i]@) {
                    Ok(_) => None,
                    Err(e) => Some(e),
                },
        ),
        None => Seq::empty(),
    }
}

/// What a wire packet decodes to: the transaction in its data, cut to the
/// buffer's length and read up to the size that the metadata claims.
pub open spec fn packet_transaction(p: packet::PacketView) -> Option<transaction::TransactionView> {
    packet_decoding(native::bounded_copy(p.data), claimed_size(p.meta))
}

/// For each wire packet of a batch, why it does not convert, if it does not.
pub open spec fn packet_errors(batch: Option<packet::PacketBatch>) -> Seq<Option<Error>> {
    match batch {
        Some(b) => Seq::new(
            b.packets@.len(),
            |i: int|
                match packet_transaction(b.packets@[i]@) {
                    Some(_) => None,
                    None => Some(Error::Decode),
                },
        ),
        None => Seq::empty(),
    }
}

impl ExpiringSanitizedTransactionBatch {
    /// The expiry is not before the start, and both are proper instants.
    pub open spec fn wf(&self) -> bool {
        &&& self.ts.wf()
        &&& self.expires_at.wf()
        &&& self.expires_at.as_nanos() >= self.ts.as_nanos()
    }

    /// The batch that a wire batch stands for. A missing header or timestamp,
    /// a missing payload and an expiry that cannot be represented are
    /// refused, in this order. Then every transaction is converted in order;
    /// the first that does not convert fails the batch with its own error.
    pub fn try_from(value: block_engine::ExpiringSanitizedTransactionBatch) -> (out: Result<Self, Error>)
        ensures
            match out {
                Ok(b) => {
                    &&& b.wf()
                    &&& block_engine::window_of(value.header, value.batch.is_some(), value.expiry_ms) == Ok::<
                        (Instant, Instant),
                        Error,
                    >((b.ts, b.expires_at))
                    &&& b.expires_at.as_nanos() == b.ts.as_nanos() + value.expiry_ms * 1_000_000
                    &&& b.transactions@.len() == value.batch.unwrap().transactions@.len()
                    &&& forall|i: int|
                        0 <= i < b.transactions@.len() ==> sanitized::native_of(
                            value.batch.unwrap().transactions@[i]@,
                        ) == Ok::<resolved::SanitizedTransactionView, Error>((#[trigger] b.transactions@[i])@)
                },
                Err(e) => match block_engine::window_of(value.header, value.batch.is_some(), value.expiry_ms) {
                    Err(w) => e == w,
                    Ok(_) => exists|k: int|
                        block_engine::first_failure_at(sanitized_errors(value.batch), k, e),
                },
            },
            value.header.is_none() ==> out == Err::<Self, Error>(Error::MissingHeader),
            value.header matches Some(h) && h.ts.is_some() && value.batch.is_none() ==> out == Err::<
                Self,
                Error,
            >(Error::MissingBatch),
    {
        let (ts, expires_at) = match block_engine::expiry_window(
            &value.header,
            value.batch.is_some(),
            value.expiry_ms,
        ) {
            Ok(w) => w,
            Err(e) => {
                return Err(e);
            },
        };
        let ghost errors = sanitized_errors(value.batch);
        let wire = match &value.batch {
            Some(b) => &b.transactions,
            None => {
                return Err(Error::MissingBatch);
            },
        };
        let mut transactions: Vec<resolved::SanitizedTransaction> = Vec::new();
        let mut i: usize = 0;
        while i < wire.len()
            invariant
                i <= wire@.len(),
                transactions@.len() == i,
                value.batch.is_some(),
                block_engine::window_of(value.header, value.batch.is_some(), value.expiry_ms).is_ok(),
                *wire == value.batch.unwrap().transactions,
                errors == sanitized_errors(value.batch),
                forall|j: int| 0 <= j < i ==> (#[trigger] errors[j]).is_none(),
                forall|j: int|
                    0 <= j < i ==> sanitized::native_of(wire@[j]@) == Ok::<
                        resolved::SanitizedTransactionView,
                        Error,
                    >((#[trigger] transactions@[j])@),
            decreases wire@.len() - i,
        {
            match wire[i].to_native() {
                Ok(tx) => {
                    transactions.push(tx);
                },
                Err(e) => {
                    assert(block_engine::first_failure_at(errors, i as int, e));
                    return Err(e);
                },
            }
            i = i + 1;
        }
        Ok(ExpiringSanitizedTransactionBatch { ts, expires_at, transactions })
    }
}

impl ExpiringVersionedTransactionBatch {
    /// The expiry is not before the start, and both are proper instants.
    pub open spec fn wf(&self) -> bool {
        &&& self.ts.wf()
        &&& self.expires_at.wf()
        &&& self.expires_at.as_nanos() >= self.ts.as_nanos()
    }

    /// The batch that a wire batch of packets stands for. A missing header or
    /// timestamp, a missing payload and an expiry that cannot be represented
    /// are refused, in this order. Then every packet is decoded in order; the
    /// first that holds no transaction fails the batch with `Error::Decode`.
    pub fn try_from(value: block_engine::ExpiringPacketBatch) -> (out: Result<Self, Error>)
        ensures
            match out {
                Ok(b) => {
                    &&& b.wf()
                    &&& block_engine::window_of(value.header, value.batch.is_some(), value.expiry_ms) == Ok::<
                        (Instant, Instant),
                        Error,
                    >((b.ts, b.expires_at))
                    &&& b.expires_at.as_nanos() == b.ts.as_nanos() + value.expiry_ms * 1_000_000
                    &&& b.transactions@.len() == value.batch.unwrap().packets@.len()
                    &&& forall|i: int|
                        0 <= i < b.transactions@.len() ==> packet_transaction(
                            value.batch.unwrap().packets@[i]@,
                        ) == Some((#[trigger] b.transactions@[i])@)
                },
                Err(e) => match block_engine::window_of(value.header, value.batch.is_some(), value.expiry_ms) {
                    Err(w) => e == w,
                    Ok(_) => exists|k: int| block_engine::first_failure_at(packet_errors(value.batch), k, e),
                },
            },
            value.header.is_none() ==> out == Err::<Self, Error>(Error::MissingHeader),
            value.header matches Some(h) && h.ts.is_some() && value.batch.is_none() ==> out == Err::<
                Self,
                Error,
            >(Error::MissingBatch),
    {
        let (ts, expires_at) = match block_engine::expiry_window(
            &value.header,
            value.batch.is_some(),
            value.expiry_ms,
        ) {
            Ok(w) => w,
            Err(e) => {
                return Err(e);
            },
        };
        let ghost errors = packet_errors(value.batch);
        let wire = match &value.batch {
            Some(b) => &b.packets,
            None => {
                return Err(Error::MissingBatch);
            },
        };
        let mut transactions: Vec<Transaction> = Vec::new();
        let mut i: usize = 0;
        while i < wire.len()
            invariant
                i <= wire@.len(),
                transactions@.len() == i,
                value.batch.is_some(),
                block_engine::window_of(value.header, value.batch.is_some(), value.expiry_ms).is_ok(),
                *wire == value.batch.unwrap().packets,
                errors == packet_errors(value.batch),
                forall|j: int| 0 <= j < i ==> (#[trigger] errors[j]).is_none(),
                forall|j: int|
                    0 <= j < i ==> packet_transaction(wire@[j]@) == Some((#[trigger] transactions@[j])@),
            decreases wire@.len() - i,
        {
            match convert::versioned_tx_from_packet(&wire[i]) {
                Some(tx) => {
                    transactions.push(tx);
                },
                None => {
                    assert(block_engine::first_failure_at(errors, i as int, Error::Decode));
                    return Err(Error::Decode);
                },
            }
            i = i + 1;
        }
        Ok(ExpiringVersionedTransactionBatch { ts, expires_at, transactions })
    }
}

} // verus!
