//! Network transports and encodings.

use vstd::prelude::*;

verus! {

/// Transport over which peers exchange messages.
#[derive(Debug, Clone, Copy, PartialEq, Eq, Structural)]
pub enum Transport {
    Tcp,
    FramedTcp,
    WebSocket,
    ZmqTcp,
}

/// Encoding of the messages exchanged by peers.
#[derive(Debug, Clone, Copy, PartialEq, Eq, Structural)]
pub enum Encoding {
    Bincode,
    MsgPack,
    Json,
}

} // verus!
