//! Packet kinds of the Steam UDP transport.

use vstd::prelude::*;

verus! {

#[derive(Debug, Clone, Copy, PartialEq, Eq, Structural, PartialOrd, Ord, Hash)]
pub struct EUdpPacketType(pub u8);

impl EUdpPacketType {
    pub const INVALID: u8 = 0;
    pub const CHALLENGE_REQ: u8 = 1;
    pub const CHALLENGE: u8 = 2;
    pub const CONNECT: u8 = 3;
    pub const ACCEPT: u8 = 4;
    pub const DISCONNECT: u8 = 5;
    pub const DATA: u8 = 6;
    pub const DATAGRAM: u8 = 7;
    pub const MAX: u8 = 8;
}

impl PartialEq<u8> for EUdpPacketType {
    fn eq(&self, other: &u8) -> (r: bool)
        ensures
            r == (self.0 == *other),
    {
        self.0 == *other
    }
}

impl vstd::std_specs::cmp::PartialEqSpecImpl<u8> for EUdpPacketType {
    open spec fn obeys_eq_spec() -> bool {
        true
    }

    open spec fn eq_spec(&self, other: &u8) -> bool {
        self.0 == *other
    }
}

impl PartialEq<EUdpPacketType> for u8 {
    fn eq(&self, other: &EUdpPacketType) -> (r: bool)
        ensures
            r == (*self == other.0),
    {
        *self == other.0
    }
}

impl vstd::std_specs::cmp::PartialEqSpecImpl<EUdpPacketType> for u8 {
    open spec fn obeys_eq_spec() -> bool {
        true
    }

    open spec fn eq_spec(&self, other: &EUdpPacketType) -> bool {
        *self == other.0
    }
}

impl Default for EUdpPacketType {
    fn default() -> (r: Self)
        ensures
            r.0 == EUdpPacketType::INVALID,
    {
        Self(Self::INVALID)
    }
}

/// The header of every UDP packet.
#[derive(Debug)]
pub struct UdpHeader {
    pub magic: u32,
    pub payload_size: u16,
    pub packet_type: EUdpPacketType,
    pub flags: u8,
    pub source_conn_id: u32,
    pub dest_conn_id: u32,
    pub seq_this: u32,
    pub seq_ack: u32,
    pub packets_in_msg: u32,
    pub msg_start_seq: u32,
    pub msg_size: u32,
}

impl UdpHeader {
    pub const MAGIC: u32 = 0x31305356;
}

/// The server's challenge to a connecting client.
#[derive(Debug)]
pub struct ChallengeData {
    pub challenge_value: u32,
    pub server_load: u32,
}

impl ChallengeData {
    pub const CHALLENGE_MASK: u32 = 0xA426DF2B;
}

/// The client's answer to a challenge.
#[derive(Debug)]
pub struct ConnectData {
    pub challenge_value: u32,
}

/// A connection was accepted.
#[derive(Debug, Default)]
pub struct Accept;

/// A datagram packet.
#[derive(Debug, Default)]
pub struct Datagram;

/// A connection is closed.
#[derive(Debug, Default)]
pub struct Disconnect;

} // verus!
