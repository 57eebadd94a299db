//! The wire form of a packet, and the mapping between it and the in-memory packet.
use vstd::prelude::*;
use crate::error::Error;
use crate::native;

verus! {

/// The flags of a packet on the wire, one field each.
#[derive(Clone, Copy, Debug, PartialEq, Eq, Structural)]
pub struct PacketFlags {
    pub discard: bool,
    pub forwarded: bool,
    pub repair: bool,
    pub simple_vote_tx: bool,
    pub tracer_packet: bool,
    pub from_staked_node: bool,
}

/// The metadata of a packet on the wire.
#[derive(Clone, Debug, PartialEq, Eq)]
pub struct Meta {
    pub size: u64,
    pub addr: String,
    pub port: u32,
    pub flags: Option<PacketFlags>,
    pub sender_stake: u64,
}

/// A packet on the wire.
#[derive(Clone, Debug, PartialEq, Eq)]
pub struct Packet {
    pub data: Vec<u8>,
    pub meta: Option<Meta>,
}

/// A list of packets on the wire.
#[derive(Clone, Debug, PartialEq, Eq)]
pub struct PacketBatch {
    pub packets: Vec<Packet>,
}

/// Wire metadata as a mathematical value.
pub struct MetaView {
    pub size: u64,
    pub addr: Seq<char>,
    pub port: u32,
    pub flags: Option<PacketFlags>,
    pub sender_stake: u64,
}

/// A wire packet as a mathematical value.
pub struct PacketView {
    pub data: Seq<u8>,
    pub meta: Option<MetaView>,
}

impl View for Meta {
    type V = MetaView;

    open spec fn view(&self) -> MetaView {
        MetaView {
            size: self.size,
            addr: self.addr@,
            port: self.port,
            flags: self.flags,
            sender_stake: self.sender_stake,
        }
    }
}

impl View for Packet {
    type V = PacketView;

    open spec fn view(&self) -> PacketView {
        PacketView {
            data: self.data@,
            meta: match self.meta {
                Some(m) => Some(m@),
                None => None,
            },
        }
    }
}

/// The wire flags that stand for a set of native flags. Bits that have no
/// field on the wire are left out.
pub open spec fn wire_flags(flags: native::PacketFlags) -> PacketFlags {
    PacketFlags {
        discard: flags.has(native::DISCARD),
        forwarded: flags.has(native::FORWARDED),
        repair: flags.has(native::REPAIR),
        simple_vote_tx: flags.has(native::SIMPLE_VOTE_TX),
        tracer_packet: flags.has(native::TRACER_PACKET),
        from_staked_node: flags.has(native::FROM_STAKED_NODE),
    }
}

/// The bit of `flag` if `set`, else nothing.
pub open spec fn bit_if(set: bool, flag: u8) -> u8 {
    if set { flag } else { 0u8 }
}

/// The native flags restored from wire flags: simple vote, forwarded, tracer
/// and repair. The fields `discard` and `from_staked_node` are not restored.
pub open spec fn restored_bits(flags: Option<PacketFlags>) -> u8 {
    match flags {
        None => 0u8,
        Some(f) => bit_if(f.simple_vote_tx, native::SIMPLE_VOTE_TX)
            | bit_if(f.forwarded, native::FORWARDED)
            | bit_if(f.tracer_packet, native::TRACER_PACKET)
            | bit_if(f.repair, native::REPAIR),
    }
}

/// The wire packet of a native packet whose address reads `addr` as text:
/// none where the payload cannot be read.
pub open spec fn wire_of(p: native::PacketView, addr: Seq<char>) -> Option<PacketView> {
    match p.payload() {
        None => None,
        Some(data) => Some(
            PacketView {
                data,
                meta: Some(
                    MetaView {
                        size: p.meta.size as u64,
                        addr,
                        port: p.meta.port as u32,
                        flags: Some(wire_flags(p.meta.flags)),
                        sender_stake: 0,
                    },
                ),
            },
        ),
    }
}

/// The native metadata of wire metadata whose address parsed as `addr`, or did
/// not parse.
pub open spec fn native_meta_of(meta: Option<MetaView>, addr: Option<native::IpAddress>) -> native::Meta {
    match meta {
        None => native::default_meta(),
        Some(m) => native::Meta {
            size: m.size as usize,
            addr: match addr {
                Some(a) => a,
                None => native::unknown_address(),
            },
            port: m.port as u16,
            flags: native::PacketFlags { bits: restored_bits(m.flags) },
        },
    }
}

/// The native packet of a wire packet whose address parsed as `addr`, or did
/// not parse.
pub open spec fn native_of(p: PacketView, addr: Option<native::IpAddress>) -> native::PacketView {
    native::PacketView { buffer: native::bounded_copy(p.data), meta: native_meta_of(p.meta, addr) }
}

impl PacketFlags {
    /// The wire flags of a set of native flags.
    pub fn from_native(flags: &native::PacketFlags) -> (wire: Self)
        ensures
            wire == wire_flags(*flags),
    {
        PacketFlags {
            discard: flags.contains(native::DISCARD),
            forwarded: flags.contains(native::FORWARDED),
            repair: flags.contains(native::REPAIR),
            simple_vote_tx: flags.contains(native::SIMPLE_VOTE_TX),
            tracer_packet: flags.contains(native::TRACER_PACKET),
            from_staked_node: flags.contains(native::FROM_STAKED_NODE),
        }
    }
}

/// The native flags restored from wire flags.
pub fn restore_flags(flags: &Option<PacketFlags>) -> (native_flags: native::PacketFlags)
    ensures
        native_flags.bits == restored_bits(*flags),
{
    let mut out = native::PacketFlags::empty();
    if let Some(f) = flags {
        if f.simple_vote_tx {
            out.insert(native::SIMPLE_VOTE_TX);
        }
        if f.forwarded {
            out.insert(native::FORWARDED);
        }
        if f.tracer_packet {
            out.insert(native::TRACER_PACKET);
        }
        if f.repair {
            out.insert(native::REPAIR);
        }
        let ghost a = bit_if(f.simple_vote_tx, native::SIMPLE_VOTE_TX);
        let ghost b = bit_if(f.forwarded, native::FORWARDED);
        let ghost c = bit_if(f.tracer_packet, native::TRACER_PACKET);
        let ghost d = bit_if(f.repair, native::REPAIR);
        assert(0u8 | a == a) by (bit_vector);
        assert(a | 0u8 == a) by (bit_vector);
        assert((a | b) | 0u8 == a | b) by (bit_vector);
        assert(((a | b) | c) | 0u8 == (a | b) | c) by (bit_vector);
        assert((((a | b) | c) | d) | 0u8 == ((a | b) | c) | d) by (bit_vector);
    }
    out
}

impl Packet {
    /// The wire form of a native packet whose address reads `addr` as text.
    /// Fails where the packet is discarded or its payload cannot be read.
    pub fn try_from_native(p: &native::Packet, addr: String) -> (wire: Result<Packet, Error>)
        ensures
            match wire {
                Ok(w) => wire_of(p@, addr@) == Some(w@),
                Err(e) => e == Error::DiscardedPacket && wire_of(p@, addr@).is_none(),
            },
    {
        match p.data() {
            None => Err(Error::DiscardedPacket),
            Some(data) => Ok(
                Packet {
                    data,
                    meta: Some(
                        Meta {
                            size: p.meta.size as u64,
                            addr,
                            port: p.meta.port as u32,
                            flags: Some(PacketFlags::from_native(&p.meta.flags)),
                            sender_stake: 0,
                        },
                    ),
                },
            ),
        }
    }

    /// The native packet of this wire packet. `addr` is the address that the
    /// metadata's text parsed as, or `None` where it is no IP address: the
    /// packet then gets the all-zero IPv4 address. Data beyond the buffer's
    /// length is cut off; the size is taken from the metadata as it is.
    pub fn to_native(&self, addr: Option<native::IpAddress>) -> (packet: native::Packet)
        ensures
            packet.wf(),
            packet@ == native_of(self@, addr),
    {
        let meta = match &self.meta {
            None => native::Meta::unknown(),
            Some(m) => native::Meta {
                size: #[verifier::truncate] (m.size as usize),
                addr: match addr {
                    Some(a) => a,
                    None => native::IpAddress::V4(0),
                },
                port: #[verifier::truncate] (m.port as u16),
                flags: restore_flags(&m.flags),
            },
        };
        native::Packet::new(&self.data, meta)
    }
}

/// Mapping a readable native packet to the wire and back keeps its payload
/// and its size, whatever the address is written and read as: the packet that
/// comes back is readable too, and the same bytes are read from it.
pub proof fn lemma_packet_round_trip(
    p: native::PacketView,
    addr_text: Seq<char>,
    addr: Option<native::IpAddress>,
)
    requires
        p.wf(),
        p.payload().is_some(),
    ensures
        wire_of(p, addr_text).is_some(),
        native_of(wire_of(p, addr_text).unwrap(), addr).wf(),
        native_of(wire_of(p, addr_text).unwrap(), addr).meta.size == p.meta.size,
        native_of(wire_of(p, addr_text).unwrap(), addr).buffer.take(p.meta.size as int)
            == p.buffer.take(p.meta.size as int),
        native_of(wire_of(p, addr_text).unwrap(), addr).payload() == p.payload(),
{
    let w = wire_of(p, addr_text).unwrap();
    let q = native_of(w, addr);
    assert(q.buffer.take(p.meta.size as int) =~= p.buffer.take(p.meta.size as int));
    let f = wire_flags(p.meta.flags);
    let a = bit_if(f.simple_vote_tx, native::SIMPLE_VOTE_TX);
    let b = bit_if(f.forwarded, native::FORWARDED);
    let c = bit_if(f.tracer_packet, native::TRACER_PACKET);
    let d = bit_if(f.repair, native::REPAIR);
    assert((a == 0 || a == 8) && (b == 0 || b == 2) && (c == 0 || c == 16) && (d == 0 || d == 4));
    assert((a == 0 || a == 8) && (b == 0 || b == 2) && (c == 0 || c == 16) && (d == 0 || d == 4)
        ==> (a | b | c | d) & 1u8 == 0) by (bit_vector);
    assert(!q.meta.flags.has(native::DISCARD)) by {
        let bits = q.meta.flags.bits;
        assert(bits & 1u8 == 0 ==> bits & 1u8 != 1u8) by (bit_vector);
    }
}

} // verus!
