//! The in-memory packet: a fixed-size buffer and its metadata.
use vstd::prelude::*;

verus! {

/// The number of bytes in a packet's buffer.
pub const PACKET_DATA_SIZE: usize = 1232;

/// The packet is to be dropped; its bytes are not retrievable.
pub const DISCARD: u8 = 0b0000_0001;

/// The packet was forwarded by another node.
pub const FORWARDED: u8 = 0b0000_0010;

/// The packet belongs to repair traffic.
pub const REPAIR: u8 = 0b0000_0100;

/// The packet holds a simple vote transaction.
pub const SIMPLE_VOTE_TX: u8 = 0b0000_1000;

/// The packet is traced through the pipeline.
pub const TRACER_PACKET: u8 = 0b0001_0000;

/// The packet came from a staked node.
pub const FROM_STAKED_NODE: u8 = 0b1000_0000;

/// An IP address as its bits, most significant byte first.
#[derive(Clone, Copy, Debug, PartialEq, Eq, Structural)]
pub enum IpAddress {
    V4(u32),
    V6(u128),
}

/// The address used where none is known: the all-zero IPv4 address.
pub open spec fn unknown_address() -> IpAddress {
    IpAddress::V4(0)
}

/// A set of packet flags, one bit each.
#[derive(Clone, Copy, Debug, PartialEq, Eq, Structural)]
pub struct PacketFlags {
    pub bits: u8,
}

impl PacketFlags {
    /// Whether every bit of `flag` is set.
    pub open spec fn has(self, flag: u8) -> bool {
        self.bits & flag == flag
    }

    /// The set with no flag.
    pub fn empty() -> (flags: Self)
        ensures
            flags.bits == 0,
    {
        PacketFlags { bits: 0 }
    }

    /// Whether every bit of `flag` is set.
    pub fn contains(&self, flag: u8) -> (found: bool)
        ensures
            found == self.has(flag),
    {
        self.bits & flag == flag
    }

    /// Sets the bits of `flag` and keeps the others.
    pub fn insert(&mut self, flag: u8)
        ensures
            final(self).bits == old(self).bits | flag,
    {
        self.bits = self.bits | flag;
    }
}

/// What is known of a packet besides its bytes.
#[derive(Clone, Copy, Debug, PartialEq, Eq, Structural)]
pub struct Meta {
    pub size: usize,
    pub addr: IpAddress,
    pub port: u16,
    pub flags: PacketFlags,
}

/// The metadata of a packet of which nothing is known.
pub open spec fn default_meta() -> Meta {
    Meta { size: 0, addr: unknown_address(), port: 0, flags: PacketFlags { bits: 0 } }
}

impl Meta {
    /// The metadata of a packet of which nothing is known.
    pub fn unknown() -> (meta: Self)
        ensures
            meta == default_meta(),
    {
        Meta { size: 0, addr: IpAddress::V4(0), port: 0, flags: PacketFlags::empty() }
    }
}

/// A packet: `PACKET_DATA_SIZE` bytes, of which the first `meta.size` are its payload.
#[derive(Clone, Debug)]
pub struct Packet {
    pub buffer: Vec<u8>,
    pub meta: Meta,
}

/// A packet as a mathematical value.
pub struct PacketView {
    pub buffer: Seq<u8>,
    pub meta: Meta,
}

impl PacketView {
    /// The buffer has its fixed length.
    pub open spec fn wf(self) -> bool {
        self.buffer.len() == PACKET_DATA_SIZE
    }

    /// The bytes that can be read from the packet: none where it is discarded
    /// or claims more bytes than the buffer has, else the first `meta.size`.
    pub open spec fn payload(self) -> Option<Seq<u8>> {
        if self.meta.flags.has(DISCARD) || self.meta.size > self.buffer.len() {
            None
        } else {
            Some(self.buffer.take(self.meta.size as int))
        }
    }
}

impl View for Packet {
    type V = PacketView;

    open spec fn view(&self) -> PacketView {
        PacketView { buffer: self.buffer@, meta: self.meta }
    }
}

/// `data` cut or zero-padded to `PACKET_DATA_SIZE` bytes.
pub open spec fn bounded_copy(data: Seq<u8>) -> Seq<u8> {
    Seq::new(PACKET_DATA_SIZE as nat, |i: int| if i < data.len() { data[i] } else { 0u8 })
}

/// What the bounded copy keeps: data at least as long as the buffer fills it
/// with its first `PACKET_DATA_SIZE` bytes and loses the rest; shorter data is
/// kept whole and followed by zeros.
pub proof fn lemma_bounded_copy(data: Seq<u8>)
    ensures
        bounded_copy(data).len() == PACKET_DATA_SIZE,
        data.len() >= PACKET_DATA_SIZE ==> bounded_copy(data) == data.take(PACKET_DATA_SIZE as int),
        data.len() <= PACKET_DATA_SIZE ==> bounded_copy(data).take(data.len() as int) == data,
        forall|i: int| data.len() <= i < PACKET_DATA_SIZE ==> bounded_copy(data)[i] == 0,
{
    if data.len() >= PACKET_DATA_SIZE {
        assert(bounded_copy(data) =~= data.take(PACKET_DATA_SIZE as int));
    }
    if data.len() <= PACKET_DATA_SIZE {
        assert(bounded_copy(data).take(data.len() as int) =~= data);
    }
}

/// A buffer of `PACKET_DATA_SIZE` bytes that starts with as many bytes of `data`
/// as fit; the rest is zero. Bytes of `data` beyond the buffer's length are left out.
pub fn copy_bounded(data: &Vec<u8>) -> (buffer: Vec<u8>)
    ensures
        buffer@ == bounded_copy(data@),
{
    let mut buffer: Vec<u8> = Vec::with_capacity(PACKET_DATA_SIZE);
    let mut i: usize = 0;
    while i < PACKET_DATA_SIZE
        invariant
            i <= PACKET_DATA_SIZE,
            buffer@.len() == i,
            forall|j: int| 0 <= j < i ==> buffer@[j] == bounded_copy(data@)[j],
        decreases PACKET_DATA_SIZE - i,
    {
        let byte: u8 = if i < data.len() { data[i] } else { 0 };
        buffer.push(byte);
        i = i + 1;
    }
    assert(buffer@ =~= bounded_copy(data@));
    buffer
}

impl Packet {
    /// The packet's invariant: the buffer has its fixed length.
    pub open spec fn wf(&self) -> bool {
        self@.wf()
    }

    /// A packet with the given buffer contents and metadata.
    pub fn new(data: &Vec<u8>, meta: Meta) -> (packet: Self)
        ensures
            packet.wf(),
            packet@.buffer == bounded_copy(data@),
            packet@.meta == meta,
    {
        Packet { buffer: copy_bounded(data), meta }
    }

    /// The payload, where it can be read.
    pub fn data(&self) -> (bytes: Option<Vec<u8>>)
        ensures
            bytes.is_some() == self@.payload().is_some(),
            bytes matches Some(b) ==> self@.payload() == Some(b@),
    {
        if self.meta.flags.contains(DISCARD) || self.meta.size > self.buffer.len() {
            return None;
        }
        let mut bytes: Vec<u8> = Vec::with_capacity(self.meta.size);
        let mut i: usize = 0;
        while i < self.meta.size
            invariant
                i <= self.meta.size <= self.buffer@.len(),
                bytes@ == self.buffer@.take(i as int),
            decreases self.meta.size - i,
        {
            bytes.push(self.buffer[i]);
            i = i + 1;
            assert(bytes@ =~= self.buffer@.take(i as int));
        }
        Some(bytes)
    }
}

} // verus!
