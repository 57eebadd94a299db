//! A transaction with its resolved addresses and its precomputed message hash.
use vstd::prelude::*;
use crate::transaction::{Transaction, TransactionView};
use solana_sdk::message::v0::LoadedAddresses as EngineAddresses;
use solana_sdk::message::SimpleAddressLoader;
use solana_sdk::transaction::{SanitizedTransaction as EngineTransaction, VersionedTransaction};

verus! {

/// The length of a message hash in bytes.
pub const HASH_BYTES: usize = 32;

/// The address of an account: 32 bytes.
#[derive(Clone, Copy, Debug, PartialEq, Eq)]
pub struct Pubkey {
    pub bytes: [u8; 32],
}

/// The addresses that a transaction loads from lookup tables.
#[derive(Clone, Debug, PartialEq, Eq)]
pub struct LoadedAddresses {
    pub writable: Vec<Pubkey>,
    pub readonly: Vec<Pubkey>,
}

/// Loaded addresses as a mathematical value.
pub struct LoadedAddressesView {
    pub writable: Seq<Seq<u8>>,
    pub readonly: Seq<Seq<u8>>,
}

impl View for LoadedAddresses {
    type V = LoadedAddressesView;

    open spec fn view(&self) -> LoadedAddressesView {
        LoadedAddressesView {
            writable: self.writable@.map_values(|k: Pubkey| k.bytes@),
            readonly: self.readonly@.map_values(|k: Pubkey| k.bytes@),
        }
    }
}

/// A transaction that the execution engine's validation has accepted, with
/// its message hash and the addresses that the engine holds for it.
#[derive(Clone, Debug, PartialEq, Eq)]
pub struct SanitizedTransaction {
    pub transaction: Transaction,
    pub message_hash: Vec<u8>,
    pub loaded_addresses: LoadedAddresses,
}

/// A sanitized transaction as a mathematical value.
pub struct SanitizedTransactionView {
    pub transaction: TransactionView,
    pub message_hash: Seq<u8>,
    pub loaded_addresses: LoadedAddressesView,
}

impl View for SanitizedTransaction {
    type V = SanitizedTransactionView;

    open spec fn view(&self) -> SanitizedTransactionView {
        SanitizedTransactionView {
            transaction: self.transaction@,
            message_hash: self.message_hash@,
            loaded_addresses: self.loaded_addresses@,
        }
    }
}

impl SanitizedTransaction {
    /// The invariant: the hash has its length.
    pub open spec fn wf(&self) -> bool {
        self.message_hash@.len() == HASH_BYTES
    }
}

/// The binary encoding of these loaded addresses; none where they have none.
pub uninterp spec fn addresses_encoding(writable: Seq<Seq<u8>>, readonly: Seq<Seq<u8>>) -> Option<Seq<u8>>;

/// The loaded addresses of the sanitized transaction that the execution
/// engine makes of an encoded transaction, a message hash and encoded loaded
/// addresses; none where a part does not decode or the engine's validation
/// refuses the transaction. The name is of the whole chain: decoding both
/// parts, the engine's constructor, and reading the addresses of its result.
pub uninterp spec fn engine_addresses(
    versioned_transaction: Seq<u8>,
    message_hash: Seq<u8>,
    loaded_addresses: Seq<u8>,
) -> Option<LoadedAddressesView>;

/// Calls `bincode::serialize` on the `LoadedAddresses` with these keys. The
/// contract only names the outcome.
#[verifier::external_body]
pub(crate) fn bincode_serialize_addresses(addresses: &LoadedAddresses) -> (out: Result<Vec<u8>, Box<bincode::ErrorKind>>)
    ensures
        match out {
            Ok(bytes) => addresses_encoding(addresses@.writable, addresses@.readonly) == Some(bytes@),
            Err(_) => addresses_encoding(addresses@.writable, addresses@.readonly).is_none(),
        },
{
    let writable = addresses.writable.iter().map(|k| k.bytes.into()).collect();
    let readonly = addresses.readonly.iter().map(|k| k.bytes.into()).collect();
    bincode::serialize(&EngineAddresses { writable, readonly })
}

/// Reads a `VersionedTransaction` and a `LoadedAddresses` with
/// `bincode::deserialize`, calls `SanitizedTransaction::try_create` of the
/// execution engine with the hash as a precomputed one, no vote hint, the
/// addresses as the loader's answer and no reserved key, and hands back what
/// `get_loaded_addresses` reports of the result: the loader's addresses, or
/// none for a message of the older form. A part that does not decode and a
/// refusal by the engine both give `None`. The contract only names the
/// outcome.
#[verifier::external_body]
pub(crate) fn create(versioned_transaction: &Vec<u8>, message_hash: &Vec<u8>, loaded_addresses: &Vec<u8>) -> (held: Option<LoadedAddresses>)
    requires
        message_hash@.len() == HASH_BYTES,
    ensures
        match held {
            Some(a) => engine_addresses(versioned_transaction@, message_hash@, loaded_addresses@) == Some(a@),
            None => engine_addresses(versioned_transaction@, message_hash@, loaded_addresses@).is_none(),
        },
{
    let tx: VersionedTransaction = bincode::deserialize(versioned_transaction).ok()?;
    let loader = SimpleAddressLoader::Enabled(bincode::deserialize(loaded_addresses).ok()?);
    let hash = solana_sdk::hash::Hash::new(message_hash);
    let made = EngineTransaction::try_create(tx, hash, None, loader, &Default::default()).ok()?;
    let held = made.get_loaded_addresses();
    let writable = held.writable.iter().map(|k| Pubkey { bytes: k.to_bytes() }).collect();
    let readonly = held.readonly.iter().map(|k| Pubkey { bytes: k.to_bytes() }).collect();
    Some(LoadedAddresses { writable, readonly })
}

} // verus!
