use vstd::prelude::*;

verus! {

/// The identifier the transport library hands out for an invalid socket.
pub const INVALID_SOCK: i32 = -1;

/// The status a transport socket reports.
#[derive(Clone, Copy, Debug, PartialEq, Eq, Structural)]
pub enum UdtStatus {
    Init,
    Opened,
    Listening,
    Connecting,
    Connected,
    Broken,
    Closing,
    Closed,
    NonExist,
}

/// A handle on a transport socket: the identifier the native library gave it.
#[derive(Clone, Copy, Debug, PartialEq, Eq, Structural)]
pub struct UdtSocket {
    pub id: i32,
}

impl UdtSocket {
    /// The handle for a native socket identifier.
    pub fn from_id(id: i32) -> (r: UdtSocket)
        ensures
            r.id == id,
    {
        UdtSocket { id }
    }
}

/// Whether a linger time turns lingering on: only a positive time does.
pub fn linger_enabled(time: i32) -> (r: bool)
    ensures
        r == (time > 0),
{
    time > 0
}

/// The readiness a suspended operation waits for.
#[derive(Clone, Copy, Debug, PartialEq, Eq, Structural)]
pub enum Interest {
    /// Data to receive, or a connection to accept.
    Read,
    /// Room in the send buffer.
    Write,
}

} // verus!
