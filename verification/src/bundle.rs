//! Bundles: transactions as wire packets under one header, and their identifier.
use vstd::prelude::*;
use crate::convert::{packet_of_payload, transaction_to_wire};
use crate::error::Error;
use crate::packet::Packet;
use crate::shared::{Header, Timestamp};
use crate::native::PACKET_DATA_SIZE;
use crate::transaction::{packet_payload, Transaction};

verus! {

/// An ordered group of wire packets with the time at which it was made.
#[derive(Clone, Debug, PartialEq, Eq)]
pub struct Bundle {
    pub header: Option<Header>,
    pub packets: Vec<Packet>,
}

/// A bundle with its identifier.
#[derive(Clone, Debug, PartialEq, Eq)]
pub struct BundleUuid {
    pub bundle: Option<Bundle>,
    pub uuid: String,
}

/// Whether the packets carry the transactions, one each and in order: each
/// is the wire form of a native packet with default metadata that holds the
/// transaction as its payload.
pub open spec fn carries(packets: Seq<Packet>, transactions: Seq<Transaction>) -> bool {
    &&& packets.len() == transactions.len()
    &&& forall|i: int|
        0 <= i < packets.len() ==> packet_payload(transactions[i]@.signatures, transactions[i]@.message)
            == Some((#[trigger] packets[i])@.data) && packets[i]@ == packet_of_payload(packets[i]@.data)
            && packets[i]@.data.len() <= PACKET_DATA_SIZE
}

/// Whether some transaction has no payload: its message is none, or it does
/// not fit a packet.
pub open spec fn some_without_payload(transactions: Seq<Transaction>) -> bool {
    exists|i: int|
        0 <= i < transactions.len() && packet_payload(
            (#[trigger] transactions[i])@.signatures,
            transactions[i]@.message,
        ).is_none()
}

impl Bundle {
    /// The bundle of the transactions, made at `now`: one packet for each, in
    /// order. Fails with `Error::Encode` exactly where a transaction has no
    /// payload.
    pub fn from(transactions: &[Transaction], now: Timestamp) -> (out: Result<Bundle, Error>)
        ensures
            match out {
                Ok(b) => b.header == Some(Header { ts: Some(now) }) && carries(b.packets@, transactions@),
                Err(e) => e == Error::Encode && some_without_payload(transactions@),
            },
    {
        let mut packets: Vec<Packet> = Vec::new();
        let mut i: usize = 0;
        while i < transactions.len()
            invariant
                i <= transactions@.len(),
                carries(packets@, transactions@.take(i as int)),
            decreases transactions@.len() - i,
        {
            match transaction_to_wire(&transactions[i]) {
                Ok(p) => {
                    packets.push(p);
                },
                Err(e) => {
                    return Err(e);
                },
            }
            i = i + 1;
        }
        assert(transactions@.take(i as int) =~= transactions@);
        Ok(Bundle { header: Some(Header { ts: Some(now) }), packets })
    }
}

impl BundleUuid {
    /// The bundle of the transactions, made at `now`, with its identifier.
    /// Every transaction must have a signature. Fails with `Error::Encode`
    /// exactly where a transaction has no payload.
    pub fn from(transactions: &[Transaction], now: Timestamp) -> (out: Result<BundleUuid, Error>)
        requires
            forall|i: int|
                0 <= i < transactions@.len() ==> (#[trigger] transactions@[i]).signatures@.len() > 0,
        ensures
            match out {
                Ok(u) => {
                    &&& u.uuid@ == crate::bundle_id_of(crate::first_signatures(transactions@))
                    &&& u.bundle.is_some()
                    &&& u.bundle.unwrap().header == Some(Header { ts: Some(now) })
                    &&& carries(u.bundle.unwrap().packets@, transactions@)
                },
                Err(e) => e == Error::Encode && some_without_payload(transactions@),
            },
    {
        let uuid = crate::derive_bundle_id(transactions);
        match Bundle::from(transactions, now) {
            Ok(bundle) => Ok(BundleUuid { bundle: Some(bundle), uuid }),
            Err(e) => Err(e),
        }
    }
}

} // verus!
