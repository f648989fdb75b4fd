//! Sequencer endpoint addresses: a (client, port) pair.

use vstd::prelude::*;

verus! {

/// Client number of the system client.
pub const CLIENT_SYSTEM: i32 = 0;
/// Port number of the system timer port.
pub const PORT_SYSTEM_TIMER: i32 = 0;
/// Port number of the system announce port.
pub const PORT_SYSTEM_ANNOUNCE: i32 = 1;
/// Client and port number used for broadcast addressing.
pub const ADDRESS_BROADCAST: i32 = 255;

/// A (client, port) pair identifying a sequencer endpoint.
#[derive(Debug, Clone, Copy, Eq, PartialEq, Ord, PartialOrd, Hash, Default, Structural)]
pub struct Addr {
    pub client: i32,
    pub port: i32,
}

impl Addr {
    /// The address of the system timer port.
    pub fn system_timer() -> (r: Addr)
        ensures
            r == (Addr { client: CLIENT_SYSTEM, port: PORT_SYSTEM_TIMER }),
    {
        Addr { client: CLIENT_SYSTEM, port: PORT_SYSTEM_TIMER }
    }

    /// The address of the system announce port.
    pub fn system_announce() -> (r: Addr)
        ensures
            r == (Addr { client: CLIENT_SYSTEM, port: PORT_SYSTEM_ANNOUNCE }),
    {
        Addr { client: CLIENT_SYSTEM, port: PORT_SYSTEM_ANNOUNCE }
    }

    /// The broadcast address.
    pub fn broadcast() -> (r: Addr)
        ensures
            r == (Addr { client: ADDRESS_BROADCAST, port: ADDRESS_BROADCAST }),
    {
        Addr { client: ADDRESS_BROADCAST, port: ADDRESS_BROADCAST }
    }
}

} // verus!
