use sha2::Digest;
use solana_sdk::message::{Message, VersionedMessage};
use solana_sdk::pubkey::Pubkey as EnginePubkey;
use solana_sdk::transaction::VersionedTransaction;
use wire_convert::block_engine;
use wire_convert::bundle::{Bundle, BundleUuid};
use wire_convert::convert::{
    packet_to_proto_packet, proto_packet_from_versioned_tx, sanitized_to_proto_sanitized,
    transaction_to_wire, versioned_tx_from_packet, wire_to_transaction,
};
use wire_convert::error::Error;
use wire_convert::native;
use wire_convert::packet;
use wire_convert::resolved;
use wire_convert::sanitized;
use wire_convert::shared::{Header, Instant, Timestamp};
use wire_convert::transaction::{decode_outcome, encode_outcome, Signature, Transaction};
use wire_convert::{
    derive_bundle_id, ExpiringSanitizedTransactionBatch, ExpiringVersionedTransactionBatch,
};

fn engine_transaction(seed: u8, signatures: usize) -> VersionedTransaction {
    let payer = EnginePubkey::new_from_array([seed; 32]);
    let to = EnginePubkey::new_from_array([seed.wrapping_add(1); 32]);
    let ix = solana_sdk::system_instruction::transfer(&payer, &to, 42);
    let message = Message::new(&[ix], Some(&payer));
    VersionedTransaction {
        signatures: (0..signatures)
            .map(|i| solana_sdk::signature::Signature::from([seed.wrapping_add(i as u8); 64]))
            .collect(),
        message: VersionedMessage::Legacy(message),
    }
}

fn plain(tx: &VersionedTransaction) -> Transaction {
    Transaction {
        signatures: tx.signatures.iter().map(|s| Signature { bytes: (*s).into() }).collect(),
        message: bincode::serialize(&tx.message).unwrap(),
    }
}

fn transaction(seed: u8) -> Transaction {
    plain(&engine_transaction(seed, 1))
}

fn wire_packet(data: Vec<u8>, size: u64) -> packet::Packet {
    packet::Packet {
        data,
        meta: Some(packet::Meta {
            size,
            addr: String::from("10.1.2.3"),
            port: 8001,
            flags: None,
            sender_stake: 0,
        }),
    }
}

fn header(seconds: i64, nanos: i32) -> Option<Header> {
    Some(Header { ts: Some(Timestamp { seconds, nanos }) })
}

fn sha256_hex(text: &str) -> String {
    let mut hasher = sha2::Sha256::new();
    hasher.update(text.as_bytes());
    hasher.finalize().iter().map(|b| format!("{:02x}", b)).collect()
}

#[test]
fn buffer_capacity_matches_the_engine() {
    assert_eq!(native::PACKET_DATA_SIZE, solana_sdk::packet::PACKET_DATA_SIZE);
    assert_eq!(native::PACKET_DATA_SIZE, 1232);
}

#[test]
fn flag_bits_match_the_engine() {
    assert_eq!(native::DISCARD, solana_sdk::packet::PacketFlags::DISCARD.bits());
    assert_eq!(native::FORWARDED, solana_sdk::packet::PacketFlags::FORWARDED.bits());
    assert_eq!(native::REPAIR, solana_sdk::packet::PacketFlags::REPAIR.bits());
    assert_eq!(native::SIMPLE_VOTE_TX, solana_sdk::packet::PacketFlags::SIMPLE_VOTE_TX.bits());
    assert_eq!(native::TRACER_PACKET, solana_sdk::packet::PacketFlags::TRACER_PACKET.bits());
    assert_eq!(native::FROM_STAKED_NODE, solana_sdk::packet::PacketFlags::FROM_STAKED_NODE.bits());
}

#[test]
fn encode_gives_the_bincode_bytes() {
    let engine = engine_transaction(3, 1);
    let bytes = plain(&engine).encode().unwrap();
    assert_eq!(bytes, bincode::serialize(&engine).unwrap());
    assert_ne!(bytes, plain(&engine).message);
}

#[test]
fn encode_refuses_a_message_that_is_none() {
    let tx = Transaction { signatures: vec![Signature { bytes: [1; 64] }], message: vec![1, 2, 3] };
    assert_eq!(tx.encode(), Err(Error::Encode));
}

#[test]
fn decode_inverts_encode() {
    for seed in [0u8, 1, 77, 200] {
        let tx = transaction(seed);
        let bytes = tx.encode().unwrap();
        assert_eq!(Transaction::decode(&bytes), Ok(tx));
    }
}

#[test]
fn decode_refuses_truncated_bytes() {
    let mut bytes = transaction(5).encode().unwrap();
    bytes.truncate(bytes.len() - 1);
    assert_eq!(Transaction::decode(&bytes), Err(Error::Decode));
    assert_eq!(Transaction::decode(&Vec::new()), Err(Error::Decode));
}

#[test]
fn decode_packet_reads_the_claimed_size() {
    let tx = transaction(9);
    let bytes = tx.encode().unwrap();
    let buffer = native::copy_bounded(&bytes);
    assert_eq!(Transaction::decode_packet(&buffer, bytes.len()), Ok(tx));
    assert_eq!(Transaction::decode_packet(&buffer, bytes.len() - 1), Err(Error::Decode));
    assert_eq!(Transaction::decode_packet(&buffer, bytes.len() + 1), Err(Error::Decode));
    assert_eq!(Transaction::decode_packet(&buffer, 1233), Err(Error::Decode));
}

#[test]
fn copy_bounded_pads_with_zeros() {
    let buffer = native::copy_bounded(&vec![7, 8, 9]);
    assert_eq!(buffer.len(), 1232);
    assert_eq!(&buffer[..3], &[7, 8, 9]);
    assert!(buffer[3..].iter().all(|b| *b == 0));
}

#[test]
fn copy_bounded_at_the_boundary() {
    let exact: Vec<u8> = (0..1232u32).map(|i| (i % 251) as u8 + 1).collect();
    assert_eq!(native::copy_bounded(&exact), exact);
    let mut longer = exact.clone();
    longer.push(99);
    assert_eq!(native::copy_bounded(&longer), exact);
    let shorter = exact[..1231].to_vec();
    let buffer = native::copy_bounded(&shorter);
    assert_eq!(&buffer[..1231], &shorter[..]);
    assert_eq!(buffer[1231], 0);
}

#[test]
fn oversized_wire_data_is_truncated() {
    let mut data = vec![0u8; 1600];
    data[1231] = 5;
    data[1232] = 6;
    let p = wire_packet(data.clone(), 1600).to_native(Some(native::IpAddress::V4(0x0a010203)));
    assert_eq!(p.buffer.len(), 1232);
    assert_eq!(p.buffer, data[..1232].to_vec());
    assert_eq!(p.meta.size, 1600);
    assert_eq!(p.data(), None);
}

#[test]
fn to_native_restores_metadata() {
    let mut w = wire_packet(vec![1, 2, 3], 3);
    w.meta.as_mut().unwrap().flags = Some(packet::PacketFlags {
        discard: true,
        forwarded: true,
        repair: false,
        simple_vote_tx: true,
        tracer_packet: false,
        from_staked_node: true,
    });
    let p = w.to_native(Some(native::IpAddress::V4(0x0a010203)));
    assert_eq!(p.meta.size, 3);
    assert_eq!(p.meta.addr, native::IpAddress::V4(0x0a010203));
    assert_eq!(p.meta.port, 8001);
    assert_eq!(p.meta.flags.bits, native::FORWARDED | native::SIMPLE_VOTE_TX);
    assert!(!p.meta.flags.contains(native::DISCARD));
    assert!(!p.meta.flags.contains(native::FROM_STAKED_NODE));
    assert_eq!(p.data(), Some(vec![1, 2, 3]));
}

#[test]
fn to_native_restores_each_flag() {
    let none = packet::PacketFlags {
        discard: false,
        forwarded: false,
        repair: false,
        simple_vote_tx: false,
        tracer_packet: false,
        from_staked_node: false,
    };
    assert_eq!(packet::restore_flags(&None).bits, 0);
    assert_eq!(packet::restore_flags(&Some(none)).bits, 0);
    assert_eq!(packet::restore_flags(&Some(packet::PacketFlags { repair: true, ..none })).bits, 4);
    assert_eq!(packet::restore_flags(&Some(packet::PacketFlags { forwarded: true, ..none })).bits, 2);
    assert_eq!(packet::restore_flags(&Some(packet::PacketFlags { simple_vote_tx: true, ..none })).bits, 8);
    assert_eq!(packet::restore_flags(&Some(packet::PacketFlags { tracer_packet: true, ..none })).bits, 16);
    assert_eq!(packet::restore_flags(&Some(packet::PacketFlags { discard: true, ..none })).bits, 0);
    assert_eq!(packet::restore_flags(&Some(packet::PacketFlags { from_staked_node: true, ..none })).bits, 0);
}

#[test]
fn unparsed_address_falls_back_to_unknown() {
    let p = wire_packet(vec![1], 1).to_native(None);
    assert_eq!(p.meta.addr, native::IpAddress::V4(0));
    let v6 = wire_packet(vec![1], 1).to_native(Some(native::IpAddress::V6(1)));
    assert_eq!(v6.meta.addr, native::IpAddress::V6(1));
}

#[test]
fn port_and_size_are_truncated_to_their_width() {
    let mut w = wire_packet(vec![1], 1);
    w.meta.as_mut().unwrap().port = 65536 + 80;
    assert_eq!(w.to_native(None).meta.port, 80);
}

#[test]
fn missing_meta_leaves_defaults() {
    let p = packet::Packet { data: vec![4, 5], meta: None }.to_native(None);
    assert_eq!(p.meta, native::Meta::unknown());
    assert_eq!(p.meta.size, 0);
    assert_eq!(&p.buffer[..2], &[4, 5]);
    assert_eq!(p.data(), Some(Vec::new()));
}

#[test]
fn to_wire_maps_every_flag() {
    let mut meta = native::Meta::unknown();
    meta.size = 2;
    meta.port = 9;
    meta.flags = native::PacketFlags { bits: native::REPAIR | native::FROM_STAKED_NODE | 0b0110_0000 };
    let p = native::Packet::new(&vec![1, 2, 3], meta);
    let w = packet::Packet::try_from_native(&p, String::from("0.0.0.0")).unwrap();
    assert_eq!(w.data, vec![1, 2]);
    let m = w.meta.unwrap();
    assert_eq!(m.size, 2);
    assert_eq!(m.addr, "0.0.0.0");
    assert_eq!(m.port, 9);
    assert_eq!(m.sender_stake, 0);
    assert_eq!(
        m.flags,
        Some(packet::PacketFlags {
            discard: false,
            forwarded: false,
            repair: true,
            simple_vote_tx: false,
            tracer_packet: false,
            from_staked_node: true,
        })
    );
}

#[test]
fn discarded_packet_has_no_wire_form() {
    let mut meta = native::Meta::unknown();
    meta.size = 2;
    meta.flags.insert(native::DISCARD);
    let p = native::Packet::new(&vec![1, 2, 3], meta);
    assert_eq!(p.data(), None);
    assert_eq!(packet::Packet::try_from_native(&p, String::new()), Err(Error::DiscardedPacket));
    assert_eq!(packet_to_proto_packet(&p, String::new()), None);
}

#[test]
fn packet_round_trip_keeps_payload_and_size() {
    let mut meta = native::Meta::unknown();
    meta.size = 5;
    meta.flags.insert(native::FORWARDED);
    let p = native::Packet::new(&vec![9, 8, 7, 6, 5, 4, 3], meta);
    let w = packet_to_proto_packet(&p, String::from("0.0.0.0")).unwrap();
    let q = w.to_native(Some(native::IpAddress::V4(0)));
    assert_eq!(q.meta.size, 5);
    assert_eq!(q.data(), p.data());
    assert_eq!(q.data(), Some(vec![9, 8, 7, 6, 5]));
    assert_eq!(q.meta.flags, p.meta.flags);
}

#[test]
fn flag_set_operations() {
    let mut flags = native::PacketFlags::empty();
    assert_eq!(flags.bits, 0);
    assert!(!flags.contains(native::REPAIR));
    flags.insert(native::REPAIR);
    flags.insert(native::TRACER_PACKET);
    assert_eq!(flags.bits, 0b0001_0100);
    assert!(flags.contains(native::REPAIR));
    assert!(!flags.contains(native::DISCARD));
    let wire = packet::PacketFlags::from_native(&flags);
    assert!(wire.repair && wire.tracer_packet && !wire.forwarded && !wire.discard);
}

#[test]
fn transaction_to_wire_packet() {
    let tx = transaction(11);
    let bytes = tx.encode().unwrap();
    let w = proto_packet_from_versioned_tx(&tx).unwrap();
    assert_eq!(w.data, bytes);
    let m = w.meta.clone().unwrap();
    assert_eq!(m.size, bytes.len() as u64);
    assert_eq!(m.addr, "0.0.0.0");
    assert_eq!(m.port, 0);
    assert_eq!(
        m.flags,
        Some(packet::PacketFlags {
            discard: false,
            forwarded: false,
            repair: false,
            simple_vote_tx: false,
            tracer_packet: false,
            from_staked_node: false,
        })
    );
    assert_eq!(m.sender_stake, 0);
    assert_eq!(Ok(w.clone()), transaction_to_wire(&tx));
    assert_eq!(versioned_tx_from_packet(&w), Some(tx));
}

#[test]
fn unencodable_transaction_has_no_packet() {
    let tx = Transaction { signatures: Vec::new(), message: vec![0xff] };
    assert_eq!(proto_packet_from_versioned_tx(&tx), None);
}

#[test]
fn wire_packet_without_transaction() {
    assert_eq!(versioned_tx_from_packet(&wire_packet(vec![0u8; 1600], 1600)), None);
    assert_eq!(versioned_tx_from_packet(&packet::Packet { data: Vec::new(), meta: None }), None);
    let bytes = transaction(2).encode().unwrap();
    assert_eq!(versioned_tx_from_packet(&packet::Packet { data: bytes, meta: None }), None);
}

#[test]
fn bundle_id_of_nothing_is_the_digest_of_the_empty_text() {
    assert_eq!(
        derive_bundle_id(&[]),
        "e3b0c44298fc1c149afbf4c8996fb92427ae41e4649b934ca495991b7852b855"
    );
}

#[test]
fn bundle_id_is_the_digest_of_the_joined_signatures() {
    let a = engine_transaction(1, 1);
    let b = engine_transaction(2, 1);
    let text = format!("{},{}", a.signatures[0], b.signatures[0]);
    let id = derive_bundle_id(&[plain(&a), plain(&b)]);
    assert_eq!(id, sha256_hex(&text));
    assert_eq!(id.len(), 64);
    assert!(id.chars().all(|c| c.is_ascii_digit() || ('a'..='f').contains(&c)));
    assert_eq!(derive_bundle_id(&[plain(&a)]), sha256_hex(&a.signatures[0].to_string()));
}

#[test]
fn bundle_id_is_stable_and_order_sensitive() {
    let a = transaction(1);
    let b = transaction(2);
    let ab = derive_bundle_id(&[a.clone(), b.clone()]);
    assert_eq!(ab, derive_bundle_id(&[a.clone(), b.clone()]));
    assert_ne!(ab, derive_bundle_id(&[b.clone(), a.clone()]));
    assert_ne!(ab, derive_bundle_id(&[a.clone(), transaction(3)]));
}

#[test]
fn bundle_id_reads_only_the_first_signature() {
    let one = plain(&engine_transaction(4, 1));
    let two = plain(&engine_transaction(4, 2));
    assert_eq!(one.signatures[0], two.signatures[0]);
    assert_eq!(derive_bundle_id(&[one]), derive_bundle_id(&[two]));
}

#[test]
fn bundle_holds_a_packet_for_each_transaction() {
    let txs = vec![transaction(1), transaction(2), transaction(3)];
    let now = Timestamp { seconds: 1_700_000_000, nanos: 5 };
    let bundle = Bundle::from(&txs, now).unwrap();
    assert_eq!(bundle.header, Some(Header { ts: Some(now) }));
    assert_eq!(bundle.packets.len(), 3);
    for (p, tx) in bundle.packets.iter().zip(txs.iter()) {
        assert_eq!(Some(p.clone()), proto_packet_from_versioned_tx(tx));
    }
    let with_id = BundleUuid::from(&txs, now).unwrap();
    assert_eq!(with_id.bundle, Some(bundle));
    assert_eq!(with_id.uuid, derive_bundle_id(&txs));
}

#[test]
fn bundle_fails_on_an_unencodable_transaction() {
    let bad = Transaction { signatures: vec![Signature { bytes: [0; 64] }], message: Vec::new() };
    let now = Timestamp { seconds: 0, nanos: 0 };
    assert_eq!(Bundle::from(&[transaction(1), bad.clone()], now), Err(Error::Encode));
    assert_eq!(BundleUuid::from(&[bad], now), Err(Error::Encode));
    let large = plain(&engine_transaction(1, 30));
    assert!(large.encode().is_ok());
    assert_eq!(Bundle::from(&[transaction(1), large.clone()], now), Err(Error::Encode));
    assert_eq!(BundleUuid::from(&[large, transaction(2)], now), Err(Error::Encode));
}

fn resolved_transaction(seed: u8) -> resolved::SanitizedTransaction {
    resolved::SanitizedTransaction {
        transaction: transaction(seed),
        message_hash: vec![seed; 32],
        loaded_addresses: resolved::LoadedAddresses { writable: Vec::new(), readonly: Vec::new() },
    }
}

#[test]
fn sanitized_round_trip() {
    let tx = resolved_transaction(21);
    let w = sanitized::SanitizedTransaction::try_from_native(&tx).unwrap();
    assert_eq!(w.versioned_transaction, tx.transaction.encode().unwrap());
    assert_eq!(w.message_hash, vec![21; 32]);
    assert_eq!(w.loaded_addresses, vec![0u8; 16]);
    assert_eq!(w.to_native(), Ok(tx.clone()));
    assert_eq!(sanitized_to_proto_sanitized(tx), Some(w));
}

#[test]
fn loaded_addresses_are_encoded_with_bincode() {
    let mut tx = resolved_transaction(1);
    tx.loaded_addresses.writable.push(resolved::Pubkey { bytes: [3; 32] });
    tx.loaded_addresses.readonly.push(resolved::Pubkey { bytes: [4; 32] });
    tx.loaded_addresses.readonly.push(resolved::Pubkey { bytes: [5; 32] });
    let w = sanitized::SanitizedTransaction::try_from_native(&tx).unwrap();
    let engine = solana_sdk::message::v0::LoadedAddresses {
        writable: vec![EnginePubkey::new_from_array([3; 32])],
        readonly: vec![EnginePubkey::new_from_array([4; 32]), EnginePubkey::new_from_array([5; 32])],
    };
    assert_eq!(w.loaded_addresses, bincode::serialize(&engine).unwrap());
    let back = w.to_native().unwrap();
    assert_eq!(back.transaction, tx.transaction);
    assert_eq!(back.loaded_addresses, resolved::LoadedAddresses { writable: Vec::new(), readonly: Vec::new() });
}

#[test]
fn hash_of_wrong_length_is_refused() {
    let good = sanitized::SanitizedTransaction::try_from_native(&resolved_transaction(1)).unwrap();
    for len in [0usize, 31, 33, 64] {
        let mut w = good.clone();
        w.message_hash = vec![1; len];
        assert_eq!(w.to_native(), Err(Error::InvalidHashLength));
        assert_eq!(sanitized::checked_hash(&w.message_hash), Err(Error::InvalidHashLength));
    }
    let garbage = sanitized::SanitizedTransaction {
        versioned_transaction: vec![9],
        message_hash: vec![0; 33],
        loaded_addresses: vec![9],
    };
    assert_eq!(garbage.to_native(), Err(Error::InvalidHashLength));
    assert_eq!(sanitized::checked_hash(&vec![6; 32]), Ok(vec![6; 32]));
}

#[test]
fn undecodable_parts_fail_the_conversion() {
    let good = sanitized::SanitizedTransaction::try_from_native(&resolved_transaction(1)).unwrap();
    let mut w = good.clone();
    w.versioned_transaction = vec![1, 2];
    assert_eq!(w.to_native(), Err(Error::Conversion));
    let mut w = good.clone();
    w.loaded_addresses = vec![1, 2];
    assert_eq!(w.to_native(), Err(Error::Conversion));
}

#[test]
fn engine_refusal_fails_the_conversion() {
    let mut tx = resolved_transaction(1);
    tx.transaction = plain(&engine_transaction(1, 2));
    let w = sanitized::SanitizedTransaction::try_from_native(&tx).unwrap();
    assert_eq!(w.to_native(), Err(Error::Conversion));
}

#[test]
fn validated_follows_the_engine_answer() {
    let tx = resolved_transaction(8);
    let again = sanitized::validated(
        tx.transaction.clone(),
        tx.message_hash.clone(),
        Some(tx.loaded_addresses.clone()),
    );
    assert_eq!(again, Ok(tx.clone()));
    let refused = sanitized::validated(tx.transaction, tx.message_hash, None);
    assert_eq!(refused, Err(Error::Conversion));
}

#[test]
fn instant_plus_milliseconds() {
    let t = Instant { secs: 10, nanos: 999_000_000 };
    assert_eq!(t.checked_add_millis(0), Ok(t));
    assert_eq!(t.checked_add_millis(1), Ok(Instant { secs: 11, nanos: 0 }));
    assert_eq!(t.checked_add_millis(5000), Ok(Instant { secs: 15, nanos: 999_000_000 }));
    assert_eq!(t.checked_add_millis(u32::MAX), Ok(Instant { secs: 10 + 4_294_968, nanos: 294_000_000 }));
    let before = Instant { secs: -1, nanos: 500_000_000 };
    assert_eq!(before.checked_add_millis(500), Ok(Instant { secs: 0, nanos: 0 }));
    let last = Instant { secs: i64::MAX, nanos: 999_000_000 };
    assert_eq!(last.checked_add_millis(0), Ok(last));
    assert_eq!(last.checked_add_millis(1), Err(Error::Timestamp));
}

#[test]
fn timestamps_are_normalized() {
    assert_eq!(Instant::from_timestamp(Timestamp { seconds: 5, nanos: 7 }), Ok(Instant { secs: 5, nanos: 7 }));
    assert_eq!(
        Instant::from_timestamp(Timestamp { seconds: 5, nanos: -1 }),
        Ok(Instant { secs: 4, nanos: 999_999_999 })
    );
    assert_eq!(
        Instant::from_timestamp(Timestamp { seconds: 5, nanos: 1_500_000_000 }),
        Ok(Instant { secs: 6, nanos: 500_000_000 })
    );
    assert_eq!(
        Instant::from_timestamp(Timestamp { seconds: i64::MIN + 1, nanos: 0 }),
        Ok(Instant { secs: i64::MIN + 1, nanos: 0 })
    );
    assert_eq!(Instant::from_timestamp(Timestamp { seconds: i64::MIN, nanos: 0 }), Err(Error::Timestamp));
    assert_eq!(Instant::from_timestamp(Timestamp { seconds: i64::MIN, nanos: 5 }), Err(Error::Timestamp));
    assert_eq!(Instant::from_timestamp(Timestamp { seconds: i64::MIN + 1, nanos: -1 }), Err(Error::Timestamp));
    assert_eq!(
        std::time::SystemTime::try_from(prost_types::Timestamp { seconds: i64::MIN, nanos: 0 }).is_err(),
        true
    );
    assert_eq!(Instant::from_normal(-3, 999_999_999), Instant { secs: -3, nanos: 999_999_999 });
}

#[test]
fn expiry_window_of_a_batch() {
    let h = header(1_700_000_000, 250_000_000);
    assert_eq!(
        block_engine::expiry_window(&h, true, 5000),
        Ok((
            Instant { secs: 1_700_000_000, nanos: 250_000_000 },
            Instant { secs: 1_700_000_005, nanos: 250_000_000 }
        ))
    );
    assert_eq!(block_engine::expiry_window(&None, true, 5000), Err(Error::MissingHeader));
    assert_eq!(block_engine::expiry_window(&None, false, 5000), Err(Error::MissingHeader));
    assert_eq!(block_engine::expiry_window(&Some(Header { ts: None }), true, 1), Err(Error::MissingHeader));
    assert_eq!(block_engine::expiry_window(&h, false, 5000), Err(Error::MissingBatch));
    assert_eq!(block_engine::expiry_window(&header(i64::MAX, 0), true, 1000), Err(Error::Timestamp));
    assert_eq!(block_engine::expiry_window(&header(i64::MAX, 0), false, 1000), Err(Error::MissingBatch));
    assert_eq!(block_engine::expiry_window(&header(i64::MIN, 0), true, 1000), Err(Error::Timestamp));
    assert_eq!(block_engine::expiry_window(&header(i64::MIN, 0), false, 1000), Err(Error::MissingBatch));
}

#[test]
fn packet_batch_expires_after_its_time_to_live() {
    let a = transaction(1);
    let b = transaction(2);
    let wire = block_engine::ExpiringPacketBatch {
        header: header(1_700_000_000, 0),
        batch: Some(packet::PacketBatch {
            packets: vec![
                proto_packet_from_versioned_tx(&a).unwrap(),
                proto_packet_from_versioned_tx(&b).unwrap(),
            ],
        }),
        expiry_ms: 5000,
    };
    let batch = ExpiringVersionedTransactionBatch::try_from(wire).unwrap();
    assert_eq!(batch.ts, Instant { secs: 1_700_000_000, nanos: 0 });
    assert_eq!(batch.expires_at, Instant { secs: 1_700_000_005, nanos: 0 });
    assert_eq!(batch.transactions, vec![a, b]);
}

#[test]
fn sanitized_batch_expires_after_its_time_to_live() {
    let a = resolved_transaction(1);
    let b = resolved_transaction(2);
    let wire = block_engine::ExpiringSanitizedTransactionBatch {
        header: header(100, 999_999_999),
        batch: Some(sanitized::SanitizedTransactionBatch {
            transactions: vec![
                sanitized::SanitizedTransaction::try_from_native(&a).unwrap(),
                sanitized::SanitizedTransaction::try_from_native(&b).unwrap(),
            ],
        }),
        expiry_ms: 5000,
    };
    let batch = ExpiringSanitizedTransactionBatch::try_from(wire).unwrap();
    assert_eq!(batch.ts, Instant { secs: 100, nanos: 999_999_999 });
    assert_eq!(batch.expires_at, Instant { secs: 105, nanos: 999_999_999 });
    assert_eq!(batch.transactions, vec![a, b]);
}

#[test]
fn batch_without_header_or_payload_is_refused() {
    let packets = Some(packet::PacketBatch { packets: Vec::new() });
    let no_header = block_engine::ExpiringPacketBatch { header: None, batch: packets.clone(), expiry_ms: 1 };
    assert_eq!(ExpiringVersionedTransactionBatch::try_from(no_header), Err(Error::MissingHeader));
    let no_ts = block_engine::ExpiringPacketBatch {
        header: Some(Header { ts: None }),
        batch: packets.clone(),
        expiry_ms: 1,
    };
    assert_eq!(ExpiringVersionedTransactionBatch::try_from(no_ts), Err(Error::MissingHeader));
    let no_batch = block_engine::ExpiringPacketBatch { header: header(1, 0), batch: None, expiry_ms: 1 };
    assert_eq!(ExpiringVersionedTransactionBatch::try_from(no_batch), Err(Error::MissingBatch));
    let empty = block_engine::ExpiringPacketBatch { header: header(1, 0), batch: packets, expiry_ms: 0 };
    let batch = ExpiringVersionedTransactionBatch::try_from(empty).unwrap();
    assert_eq!(batch.ts, batch.expires_at);
    assert!(batch.transactions.is_empty());

    let none = block_engine::ExpiringSanitizedTransactionBatch { header: None, batch: None, expiry_ms: 1 };
    assert_eq!(ExpiringSanitizedTransactionBatch::try_from(none), Err(Error::MissingHeader));
    let no_batch =
        block_engine::ExpiringSanitizedTransactionBatch { header: header(1, 0), batch: None, expiry_ms: 1 };
    assert_eq!(ExpiringSanitizedTransactionBatch::try_from(no_batch), Err(Error::MissingBatch));
}

#[test]
fn batch_with_unrepresentable_expiry_is_refused() {
    let wire = block_engine::ExpiringPacketBatch {
        header: header(i64::MAX, 999_999_999),
        batch: Some(packet::PacketBatch { packets: Vec::new() }),
        expiry_ms: 1,
    };
    assert_eq!(ExpiringVersionedTransactionBatch::try_from(wire), Err(Error::Timestamp));
}

#[test]
fn one_bad_element_fails_the_batch() {
    let good = proto_packet_from_versioned_tx(&transaction(1)).unwrap();
    let wire = block_engine::ExpiringPacketBatch {
        header: header(1, 0),
        batch: Some(packet::PacketBatch { packets: vec![good, wire_packet(vec![1, 2, 3], 3)] }),
        expiry_ms: 10,
    };
    assert_eq!(ExpiringVersionedTransactionBatch::try_from(wire), Err(Error::Decode));

    let ok = sanitized::SanitizedTransaction::try_from_native(&resolved_transaction(1)).unwrap();
    let mut short_hash = ok.clone();
    short_hash.message_hash = vec![0; 31];
    let mut undecodable = ok.clone();
    undecodable.versioned_transaction = Vec::new();
    let wire = block_engine::ExpiringSanitizedTransactionBatch {
        header: header(1, 0),
        batch: Some(sanitized::SanitizedTransactionBatch {
            transactions: vec![ok.clone(), short_hash, undecodable.clone()],
        }),
        expiry_ms: 10,
    };
    assert_eq!(ExpiringSanitizedTransactionBatch::try_from(wire), Err(Error::InvalidHashLength));
    let wire = block_engine::ExpiringSanitizedTransactionBatch {
        header: header(1, 0),
        batch: Some(sanitized::SanitizedTransactionBatch { transactions: vec![ok, undecodable] }),
        expiry_ms: 10,
    };
    assert_eq!(ExpiringSanitizedTransactionBatch::try_from(wire), Err(Error::Conversion));
}

#[test]
fn outcomes_of_codec_steps() {
    assert_eq!(encode_outcome(Ok(vec![1, 2])), Ok(vec![1, 2]));
    assert_eq!(encode_outcome(Err(Box::new(bincode::ErrorKind::SizeLimit))), Err(Error::Encode));
    let tx = transaction(1);
    assert_eq!(decode_outcome(Ok(tx.clone())), Ok(tx));
    assert_eq!(decode_outcome(Err(Box::new(bincode::ErrorKind::SizeLimit))), Err(Error::Decode));
}

#[test]
fn error_messages() {
    assert_eq!(Error::DiscardedPacket.message(), "discarded packet");
    assert_eq!(Error::MissingHeader.message(), "missing header");
    assert_eq!(Error::MissingBatch.message(), "missing transactions");
    assert_eq!(Error::InvalidHashLength.message(), "failed to deserialize message_hash");
    assert_eq!(Error::Timestamp.message(), "failed to convert timestamp");
    assert_eq!(Error::Conversion.message(), "failed to create SanitizedTransaction");
    assert_eq!(Error::Encode.message(), "failed to serialize");
    assert_eq!(Error::Decode.message(), "failed to deserialize");
}

#[test]
fn transaction_written_into_a_packet() {
    let engine = engine_transaction(6, 1);
    let tx = plain(&engine);
    let w = transaction_to_wire(&tx).unwrap();
    let real = solana_sdk::packet::Packet::from_data(None, &engine).unwrap();
    assert_eq!(w.data, real.data(..).unwrap().to_vec());
    assert_eq!(w.data, tx.encode().unwrap());
    let m = w.meta.clone().unwrap();
    assert_eq!(m.size, real.meta().size as u64);
    assert_eq!(m.addr, real.meta().addr.to_string());
    assert_eq!(m.addr, "0.0.0.0");
    assert_eq!(m.port, 0);
    assert_eq!(m.sender_stake, 0);
    assert_eq!(
        m.flags,
        Some(packet::PacketFlags {
            discard: false,
            forwarded: false,
            repair: false,
            simple_vote_tx: false,
            tracer_packet: false,
            from_staked_node: false,
        })
    );
    assert_eq!(wire_to_transaction(&w), Ok(tx));
}

#[test]
fn packet_buffer_of_a_transaction() {
    let tx = transaction(12);
    let bytes = tx.encode().unwrap();
    let (buffer, size) = tx.into_packet_buffer().unwrap();
    assert_eq!(buffer.len(), 1232);
    assert_eq!(size, bytes.len());
    assert_eq!(&buffer[..size], &bytes[..]);
    assert!(buffer[size..].iter().all(|b| *b == 0));
}

#[test]
fn transaction_too_large_for_a_packet() {
    let tx = plain(&engine_transaction(1, 30));
    assert!(tx.encode().unwrap().len() > 1232);
    assert_eq!(transaction_to_wire(&tx), Err(Error::Encode));
    assert_eq!(tx.into_packet_buffer(), Err(Error::Encode));
    assert_eq!(proto_packet_from_versioned_tx(&tx), None);
    let bytes = tx.encode().unwrap();
    let size = bytes.len() as u64;
    assert_eq!(wire_to_transaction(&wire_packet(bytes, size)), Err(Error::Decode));
    let bad = Transaction { signatures: Vec::new(), message: vec![0xff] };
    assert_eq!(transaction_to_wire(&bad), Err(Error::Encode));
}

#[test]
fn wire_to_transaction_reports_decode_errors() {
    assert_eq!(wire_to_transaction(&wire_packet(vec![1, 2, 3], 3)), Err(Error::Decode));
    let tx = transaction(4);
    let bytes = tx.encode().unwrap();
    let mut longer = bytes.clone();
    longer.push(0);
    assert_eq!(wire_to_transaction(&wire_packet(longer.clone(), bytes.len() as u64)), Ok(tx));
    assert_eq!(wire_to_transaction(&wire_packet(longer.clone(), longer.len() as u64)), Err(Error::Decode));
}

#[test]
fn engine_keeps_the_addresses_of_a_newer_message() {
    let payer = EnginePubkey::new_from_array([1; 32]);
    let program = EnginePubkey::new_from_array([2; 32]);
    let message = solana_sdk::message::v0::Message {
        header: solana_sdk::message::MessageHeader {
            num_required_signatures: 1,
            num_readonly_signed_accounts: 0,
            num_readonly_unsigned_accounts: 1,
        },
        account_keys: vec![payer, program],
        recent_blockhash: solana_sdk::hash::Hash::default(),
        instructions: vec![solana_sdk::instruction::CompiledInstruction {
            program_id_index: 1,
            accounts: vec![0, 2],
            data: Vec::new(),
        }],
        address_table_lookups: vec![solana_sdk::message::v0::MessageAddressTableLookup {
            account_key: EnginePubkey::new_from_array([9; 32]),
            writable_indexes: vec![0],
            readonly_indexes: Vec::new(),
        }],
    };
    let engine = VersionedTransaction {
        signatures: vec![solana_sdk::signature::Signature::from([5; 64])],
        message: VersionedMessage::V0(message),
    };
    let addresses = resolved::LoadedAddresses {
        writable: vec![resolved::Pubkey { bytes: [7; 32] }],
        readonly: Vec::new(),
    };
    let tx = resolved::SanitizedTransaction {
        transaction: plain(&engine),
        message_hash: vec![3; 32],
        loaded_addresses: addresses,
    };
    let w = sanitized::SanitizedTransaction::try_from_native(&tx).unwrap();
    assert_eq!(w.to_native(), Ok(tx));
}
