pub mod ringbuffer;

use vstd::prelude::*;

verus! {

/// Number of bits used to encode a single-player input offset in the
/// serialized wire form; the addressable bit-index space is two to this power.
pub const NIBBLE_SIZE: usize = 8;

pub const MAX_UDP_ENDPOINTS: u8 = 16;

pub const MAX_UDP_PACKET_SIZE: u16 = 4096;

/// Counters describing traffic on one transport endpoint.
pub struct UdpStats {
    pub bytes_sent: i32,
    pub packets_sent: i32,
    pub kbps_sent: i32,
}

/// Callback surface the transport invokes when a datagram arrives.
#[allow(non_snake_case)]
pub trait UdpChannel {
    fn OnMessage();
}

/// A transport endpoint together with its traffic counters.
pub struct Udp {
    pub stats: UdpStats,
}

} // verus!
