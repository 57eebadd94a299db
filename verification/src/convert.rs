//! Conversions between packets, transactions and their wire forms.
use vstd::prelude::*;
use crate::error::Error;
use crate::native;
use crate::packet::{wire_of, MetaView, Packet as ProtoPacket, PacketView};
use crate::resolved::SanitizedTransaction;
use crate::sanitized;
use crate::sanitized::SanitizedTransaction as ProtoSanitizedTransaction;
use crate::transaction::{packet_decoding, packet_payload, Transaction};

verus! {

/// The size that a wire packet claims: that of its metadata, 0 without any.
pub open spec fn claimed_size(meta: Option<MetaView>) -> usize {
    match meta {
        Some(m) => m.size as usize,
        None => 0,
    }
}

/// The wire form of a native packet whose address reads `addr` as text; none
/// where the packet is discarded or its payload cannot be read.
pub fn packet_to_proto_packet(p: &native::Packet, addr: String) -> (wire: Option<ProtoPacket>)
    ensures
        match wire {
            Some(w) => wire_of(p@, addr@) == Some(w@),
            None => wire_of(p@, addr@).is_none(),
        },
{
    match ProtoPacket::try_from_native(p, addr) {
        Ok(w) => Some(w),
        Err(_) => None,
    }
}

/// The transaction that a wire packet carries: its data, cut to the buffer's
/// length, is read up to the size that the metadata claims. Fails with
/// `Error::Decode` exactly where those bytes encode no transaction, as they do
/// where the claimed size is beyond the buffer.
pub fn wire_to_transaction(p: &ProtoPacket) -> (tx: Result<Transaction, Error>)
    ensures
        match tx {
            Ok(t) => packet_decoding(native::bounded_copy(p@.data), claimed_size(p@.meta)) == Some(t@),
            Err(e) => e == Error::Decode && packet_decoding(
                native::bounded_copy(p@.data),
                claimed_size(p@.meta),
            ).is_none(),
        },
        claimed_size(p@.meta) > native::PACKET_DATA_SIZE ==> tx.is_err(),
{
    let packet = p.to_native(None);
    Transaction::decode_packet(&packet.buffer, packet.meta.size)
}

/// The text of the all-zero IPv4 address.
pub open spec fn unknown_address_text() -> Seq<char> {
    "0.0.0.0"@
}

/// The wire packet of a native packet that holds `payload` and default
/// metadata but for the size.
pub open spec fn packet_of_payload(payload: Seq<u8>) -> PacketView {
    PacketView {
        data: payload,
        meta: Some(
            MetaView {
                size: payload.len() as u64,
                addr: unknown_address_text(),
                port: 0,
                flags: Some(crate::packet::wire_flags(native::PacketFlags { bits: 0 })),
                sender_stake: 0,
            },
        ),
    }
}

/// The wire packet of a transaction: the transaction is written into a
/// native packet with default metadata, and that packet is mapped to the
/// wire. Fails with `Error::Encode` exactly where the transaction has no
/// payload.
pub fn transaction_to_wire(tx: &Transaction) -> (wire: Result<ProtoPacket, Error>)
    ensures
        match wire {
            Ok(w) => packet_payload(tx@.signatures, tx@.message) == Some(w@.data) && w@
                == packet_of_payload(w@.data),
            Err(e) => e == Error::Encode && packet_payload(tx@.signatures, tx@.message).is_none(),
        },
        wire matches Ok(w) ==> w@.data.len() <= native::PACKET_DATA_SIZE,
{
    let (buffer, size) = match tx.into_packet_buffer() {
        Ok(filled) => filled,
        Err(e) => {
            return Err(e);
        },
    };
    let mut meta = native::Meta::unknown();
    meta.size = size;
    let packet = native::Packet { buffer, meta };
    assert(!packet@.meta.flags.has(native::DISCARD)) by {
        assert(0u8 & 1u8 != 1u8) by (bit_vector);
    }
    match ProtoPacket::try_from_native(&packet, String::from_str("0.0.0.0")) {
        Ok(w) => Ok(w),
        Err(_) => Err(Error::Encode),
    }
}

/// The transaction that a wire packet carries; none where it carries none.
pub fn versioned_tx_from_packet(p: &ProtoPacket) -> (tx: Option<Transaction>)
    ensures
        match tx {
            Some(t) => packet_decoding(native::bounded_copy(p@.data), claimed_size(p@.meta)) == Some(t@),
            None => packet_decoding(native::bounded_copy(p@.data), claimed_size(p@.meta)).is_none(),
        },
        claimed_size(p@.meta) > native::PACKET_DATA_SIZE ==> tx.is_none(),
{
    match wire_to_transaction(p) {
        Ok(t) => Some(t),
        Err(_) => None,
    }
}

/// The wire packet of a transaction, made through a native packet with
/// default metadata; none where the transaction has no payload: its message
/// is none, or it does not fit a packet.
pub fn proto_packet_from_versioned_tx(tx: &Transaction) -> (wire: Option<ProtoPacket>)
    ensures
        match wire {
            Some(w) => packet_payload(tx@.signatures, tx@.message) == Some(w@.data) && w@
                == packet_of_payload(w@.data),
            None => packet_payload(tx@.signatures, tx@.message).is_none(),
        },
{
    match transaction_to_wire(tx) {
        Ok(w) => Some(w),
        Err(_) => None,
    }
}

/// The wire form of a sanitized transaction; none where a part has no
/// encoding.
pub fn sanitized_to_proto_sanitized(tx: SanitizedTransaction) -> (wire: Option<ProtoSanitizedTransaction>)
    ensures
        match wire {
            Some(w) => sanitized::wire_of(tx@) == Some(w@),
            None => sanitized::wire_of(tx@).is_none(),
        },
{
    match ProtoSanitizedTransaction::try_from_native(&tx) {
        Ok(w) => Some(w),
        Err(_) => None,
    }
}

} // verus!
