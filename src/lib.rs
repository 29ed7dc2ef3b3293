//! Tunnel dispatch core of a userspace Ethernet-over-IP multiplexer: EoIP
//! framing, per-tunnel liveness with idle timeouts, and the routing decision
//! made for each inbound datagram.

pub mod state;
pub mod codec;
pub mod dispatch;
