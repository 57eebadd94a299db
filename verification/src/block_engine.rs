//! Batches of transactions on the wire, each with a header and a time to live.
use vstd::prelude::*;
use crate::error::Error;
use crate::packet::PacketBatch;
use crate::sanitized::SanitizedTransactionBatch;
use crate::shared::{Header, Instant};

verus! {

/// A batch of sanitized transactions that expires `expiry_ms` milliseconds
/// after the header's timestamp.
#[derive(Clone, Debug, PartialEq, Eq)]
pub struct ExpiringSanitizedTransactionBatch {
    pub header: Option<Header>,
    pub batch: Option<SanitizedTransactionBatch>,
    pub expiry_ms: u32,
}

/// A batch of packets that expires `expiry_ms` milliseconds after the
/// header's timestamp.
#[derive(Clone, Debug, PartialEq, Eq)]
pub struct ExpiringPacketBatch {
    pub header: Option<Header>,
    pub batch: Option<PacketBatch>,
    pub expiry_ms: u32,
}

/// The instants at which a batch was made and at which it expires. A batch
/// without a header, or whose header has no timestamp, is refused first; then
/// one without a payload; then one whose timestamp denotes no instant or whose
/// expiry cannot be represented.
pub open spec fn window_of(header: Option<Header>, has_batch: bool, expiry_ms: u32) -> Result<
    (Instant, Instant),
    Error,
> {
    match header {
        Some(Header { ts: Some(ts) }) => {
            if !has_batch {
                Err(Error::MissingBatch)
            } else {
                match Instant::of_timestamp(ts) {
                    Some(start) => if start.can_add_millis(expiry_ms) {
                        Ok((start, start.plus_millis(expiry_ms)))
                    } else {
                        Err(Error::Timestamp)
                    },
                    None => Err(Error::Timestamp),
                }
            }
        },
        _ => Err(Error::MissingHeader),
    }
}

/// The instants at which a batch was made and at which it expires, or why it
/// is refused.
pub fn expiry_window(header: &Option<Header>, has_batch: bool, expiry_ms: u32) -> (out: Result<
    (Instant, Instant),
    Error,
>)
    ensures
        out == window_of(*header, has_batch, expiry_ms),
        out matches Ok(w) ==> w.0.wf() && w.1.wf() && w.1.as_nanos() == w.0.as_nanos() + expiry_ms
            * 1_000_000,
        header.is_none() ==> out == Err::<(Instant, Instant), Error>(Error::MissingHeader),
        header matches Some(h) && h.ts.is_some() && !has_batch ==> out == Err::<
            (Instant, Instant),
            Error,
        >(Error::MissingBatch),
{
    let ts = match header {
        Some(Header { ts: Some(ts) }) => *ts,
        _ => {
            return Err(Error::MissingHeader);
        },
    };
    if !has_batch {
        return Err(Error::MissingBatch);
    }
    let start = match Instant::from_timestamp(ts) {
        Ok(start) => start,
        Err(e) => {
            return Err(e);
        },
    };
    match start.checked_add_millis(expiry_ms) {
        Ok(end) => Ok((start, end)),
        Err(e) => Err(e),
    }
}

/// Whether `e` is the error of the first element that has one, at index `k`.
pub open spec fn first_failure_at(errors: Seq<Option<Error>>, k: int, e: Error) -> bool {
    &&& 0 <= k < errors.len()
    &&& errors[k] == Some(e)
    &&& forall|j: int| 0 <= j < k ==> (#[trigger] errors[j]).is_none()
}

} // verus!
