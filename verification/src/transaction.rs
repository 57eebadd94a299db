//! A transaction as this layer sees it, and its binary encoding.
use vstd::prelude::*;
use crate::error::Error;
use crate::native::PACKET_DATA_SIZE;
use solana_sdk::transaction::VersionedTransaction;

verus! {

#[verifier::external_type_specification]
#[verifier::external_body]
pub struct ExBincodeErrorKind(bincode::ErrorKind);

/// A signature: 64 bytes.
#[derive(Clone, Copy, Debug, PartialEq, Eq)]
pub struct Signature {
    pub bytes: [u8; 64],
}

/// A transaction: its signatures in order, and its message in serialized form.
/// This layer reads the signatures and carries the message.
#[derive(Clone, Debug, PartialEq, Eq)]
pub struct Transaction {
    pub signatures: Vec<Signature>,
    pub message: Vec<u8>,
}

/// A transaction as a mathematical value.
pub struct TransactionView {
    pub signatures: Seq<Seq<u8>>,
    pub message: Seq<u8>,
}

impl View for Transaction {
    type V = TransactionView;

    open spec fn view(&self) -> TransactionView {
        TransactionView {
            signatures: self.signatures@.map_values(|s: Signature| s.bytes@),
            message: self.message@,
        }
    }
}

/// The binary encoding of the transaction with these signatures and this
/// serialized message; none where the message is no message or the
/// transaction cannot be encoded. The name is of the whole chain: reading the
/// message from its bytes, then serializing the transaction. Bytes after a
/// message are not read, so a message followed by more bytes has the encoding
/// of the message alone.
pub uninterp spec fn transaction_encoding(signatures: Seq<Seq<u8>>, message: Seq<u8>) -> Option<Seq<u8>>;

/// The transaction that `bytes` encode, bytes after it allowed; none where
/// they encode none. The name is of the whole chain: reading the transaction,
/// then serializing its message again.
pub uninterp spec fn transaction_decoding(bytes: Seq<u8>) -> Option<TransactionView>;

/// The transaction that the first `size` bytes of a packet's buffer encode,
/// with nothing after it; none where they encode none. The name is of the
/// whole chain: reading the transaction from the packet, then serializing its
/// message again.
pub uninterp spec fn packet_decoding(buffer: Seq<u8>, size: usize) -> Option<TransactionView>;

/// The bytes that a packet made from the transaction with these signatures and
/// this serialized message holds as its payload; none where the message is no
/// message or the transaction does not fit a packet. The name is of the whole
/// chain: reading the message from its bytes, then writing the transaction
/// into a packet.
pub uninterp spec fn packet_payload(signatures: Seq<Seq<u8>>, message: Seq<u8>) -> Option<Seq<u8>>;

/// Calls `solana_sdk::packet::Packet::from_data` without a destination on
/// the `VersionedTransaction` that has the given signatures and the message
/// that `bincode::deserialize` reads from `tx.message`, and hands back the
/// packet's buffer and its size. The contract names the payload, the first
/// `size` bytes of the buffer, and says that the buffer has its fixed length
/// and holds the payload: `from_data` sets the size to the number of bytes it
/// wrote into the buffer.
#[verifier::external_body]
fn packet_from_data(tx: &Transaction) -> (out: Result<(Vec<u8>, usize), Box<bincode::ErrorKind>>)
    ensures
        match out {
            Ok((buffer, size)) => {
                &&& buffer@.len() == PACKET_DATA_SIZE
                &&& size <= PACKET_DATA_SIZE
                &&& packet_payload(tx@.signatures, tx@.message) == Some(buffer@.take(size as int))
            },
            Err(_) => packet_payload(tx@.signatures, tx@.message).is_none(),
        },
{
    let message = bincode::deserialize(&tx.message)?;
    let signatures = tx.signatures.iter().map(|s| s.bytes.into()).collect();
    let mut packet = solana_sdk::packet::Packet::from_data(None, VersionedTransaction { signatures, message })?;
    let size = packet.meta().size;
    Ok((packet.buffer_mut().to_vec(), size))
}

/// Calls `bincode::serialize` on the `VersionedTransaction` that has the
/// given signatures and the message that `bincode::deserialize` reads from
/// `tx.message`. The contract only names the outcome: the bytes on success, an
/// error where either call fails.
#[verifier::external_body]
fn bincode_serialize(tx: &Transaction) -> (out: Result<Vec<u8>, Box<bincode::ErrorKind>>)
    ensures
        match out {
            Ok(bytes) => transaction_encoding(tx@.signatures, tx@.message) == Some(bytes@),
            Err(_) => transaction_encoding(tx@.signatures, tx@.message).is_none(),
        },
{
    let message = bincode::deserialize(&tx.message)?;
    let signatures = tx.signatures.iter().map(|s| s.bytes.into()).collect();
    bincode::serialize(&VersionedTransaction { signatures, message })
}

/// Calls `bincode::deserialize` for a `VersionedTransaction` and hands back
/// its signatures and, through `bincode::serialize`, its message. The contract
/// only names the outcome.
#[verifier::external_body]
fn bincode_deserialize(bytes: &Vec<u8>) -> (out: Result<Transaction, Box<bincode::ErrorKind>>)
    ensures
        match out {
            Ok(tx) => transaction_decoding(bytes@) == Some(tx@),
            Err(_) => transaction_decoding(bytes@).is_none(),
        },
{
    let tx: VersionedTransaction = bincode::deserialize(bytes)?;
    let signatures = tx.signatures.iter().map(|s| Signature { bytes: (*s).into() }).collect();
    Ok(Transaction { signatures, message: bincode::serialize(&tx.message)? })
}

/// Calls `solana_sdk::packet::Packet::deserialize_slice` with the full
/// range, on a packet with the given buffer, the given size and no flag, and
/// hands back the transaction's signatures and, through `bincode::serialize`,
/// its message. The contract names the outcome, and says that a size beyond
/// the buffer is an error: `deserialize_slice` reads through `Packet::data`,
/// which yields nothing then.
#[verifier::external_body]
fn packet_deserialize(buffer: &Vec<u8>, size: usize) -> (out: Result<Transaction, Box<bincode::ErrorKind>>)
    requires
        buffer@.len() == PACKET_DATA_SIZE,
    ensures
        match out {
            Ok(tx) => packet_decoding(buffer@, size) == Some(tx@),
            Err(_) => packet_decoding(buffer@, size).is_none(),
        },
        size > PACKET_DATA_SIZE ==> out.is_err(),
{
    let mut data = [0u8; solana_sdk::packet::PACKET_DATA_SIZE];
    data.copy_from_slice(buffer);
    let mut packet = solana_sdk::packet::Packet::new(data, Default::default());
    packet.meta_mut().size = size;
    let tx: VersionedTransaction = packet.deserialize_slice(..)?;
    let signatures = tx.signatures.iter().map(|s| Signature { bytes: (*s).into() }).collect();
    Ok(Transaction { signatures, message: bincode::serialize(&tx.message)? })
}

/// The outcome of an encoding step as this library reports it: the bytes, or
/// `Error::Encode`.
pub fn encode_outcome(result: Result<Vec<u8>, Box<bincode::ErrorKind>>) -> (out: Result<Vec<u8>, Error>)
    ensures
        match result {
            Ok(bytes) => out == Ok::<Vec<u8>, Error>(bytes),
            Err(_) => out == Err::<Vec<u8>, Error>(Error::Encode),
        },
{
    match result {
        Ok(bytes) => Ok(bytes),
        Err(_) => Err(Error::Encode),
    }
}

/// The outcome of a decoding step as this library reports it: the
/// transaction, or `Error::Decode`.
pub fn decode_outcome(result: Result<Transaction, Box<bincode::ErrorKind>>) -> (out: Result<Transaction, Error>)
    ensures
        match result {
            Ok(tx) => out == Ok::<Transaction, Error>(tx),
            Err(_) => out == Err::<Transaction, Error>(Error::Decode),
        },
{
    match result {
        Ok(tx) => Ok(tx),
        Err(_) => Err(Error::Decode),
    }
}

impl Transaction {
    /// The binary encoding of the transaction. Fails with `Error::Encode`
    /// exactly where the transaction has no encoding.
    pub fn encode(&self) -> (out: Result<Vec<u8>, Error>)
        ensures
            match out {
                Ok(bytes) => transaction_encoding(self@.signatures, self@.message) == Some(bytes@),
                Err(e) => e == Error::Encode
                    && transaction_encoding(self@.signatures, self@.message).is_none(),
            },
    {
        encode_outcome(bincode_serialize(self))
    }

    /// The buffer and the size of the packet made from the transaction. Fails
    /// with `Error::Encode` exactly where the transaction has no payload: its
    /// message is none, or it does not fit a packet.
    pub fn into_packet_buffer(&self) -> (out: Result<(Vec<u8>, usize), Error>)
        ensures
            match out {
                Ok((buffer, size)) => {
                    &&& buffer@.len() == PACKET_DATA_SIZE
                    &&& size <= PACKET_DATA_SIZE
                    &&& packet_payload(self@.signatures, self@.message) == Some(buffer@.take(size as int))
                },
                Err(e) => e == Error::Encode && packet_payload(self@.signatures, self@.message).is_none(),
            },
    {
        match packet_from_data(self) {
            Ok(filled) => Ok(filled),
            Err(_) => Err(Error::Encode),
        }
    }

    /// The transaction that `bytes` encode. Fails with `Error::Decode` exactly
    /// where they encode none.
    pub fn decode(bytes: &Vec<u8>) -> (out: Result<Transaction, Error>)
        ensures
            match out {
                Ok(tx) => transaction_decoding(bytes@) == Some(tx@),
                Err(e) => e == Error::Decode && transaction_decoding(bytes@).is_none(),
            },
    {
        decode_outcome(bincode_deserialize(bytes))
    }

    /// The transaction that the first `size` bytes of a packet's buffer
    /// encode. Fails with `Error::Decode` exactly where they encode none,
    /// as they do where `size` is beyond the buffer.
    pub fn decode_packet(buffer: &Vec<u8>, size: usize) -> (out: Result<Transaction, Error>)
        requires
            buffer@.len() == PACKET_DATA_SIZE,
        ensures
            match out {
                Ok(tx) => packet_decoding(buffer@, size) == Some(tx@),
                Err(e) => e == Error::Decode && packet_decoding(buffer@, size).is_none(),
            },
            size > PACKET_DATA_SIZE ==> out.is_err(),
    {
        decode_outcome(packet_deserialize(buffer, size))
    }
}

} // verus!
