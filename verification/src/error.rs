//! The failures that a conversion can report.
use vstd::prelude::*;

verus! {

/// Why a conversion failed.
#[derive(Clone, Copy, Debug, PartialEq, Eq, Structural)]
pub enum Error {
    /// A transaction or an address table could not be serialized.
    Encode,
    /// Bytes did not parse as a transaction or an address table.
    Decode,
    /// The packet is marked as discarded, or claims more bytes than its buffer holds.
    DiscardedPacket,
    /// The batch has no header, or its header has no timestamp.
    MissingHeader,
    /// The batch has no payload.
    MissingBatch,
    /// The message hash is not exactly 32 bytes long.
    InvalidHashLength,
    /// The expiry instant cannot be represented.
    Timestamp,
    /// The execution engine's validation rejected the transaction.
    Conversion,
}

impl Error {
    /// A short description of the failure.
    pub fn message(&self) -> (text: &'static str)
        ensures
            text@ == self.message_text(),
    {
        match self {
            Error::Encode => "failed to serialize",
            Error::Decode => "failed to deserialize",
            Error::DiscardedPacket => "discarded packet",
            Error::MissingHeader => "missing header",
            Error::MissingBatch => "missing transactions",
            Error::InvalidHashLength => "failed to deserialize message_hash",
            Error::Timestamp => "failed to convert timestamp",
            Error::Conversion => "failed to create SanitizedTransaction",
        }
    }

    /// The text that `message` returns.
    pub open spec fn message_text(self) -> Seq<char> {
        match self {
            Error::Encode => "failed to serialize"@,
            Error::Decode => "failed to deserialize"@,
            Error::DiscardedPacket => "discarded packet"@,
            Error::MissingHeader => "missing header"@,
            Error::MissingBatch => "missing transactions"@,
            Error::InvalidHashLength => "failed to deserialize message_hash"@,
            Error::Timestamp => "failed to convert timestamp"@,
            Error::Conversion => "failed to create SanitizedTransaction"@,
        }
    }
}

} // verus!
