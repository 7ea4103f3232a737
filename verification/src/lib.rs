//! A mock link layer: point-to-point links simulated over a single
//! connectionless datagram socket.
//!
//! The verified core is the routing engine: an address-keyed dispatch
//! table mapping each peer address to an enabled flag and a handler, the
//! per-datagram routing decision taken by receive workers, and the
//! per-peer interface facade that gates sends and toggles delivery.
//! The socket itself, the worker threads and the lock that shares the
//! table among them live outside this crate and hand the routing engine
//! plain values: a sender address, a receive buffer and a payload length.

pub mod addr;
pub mod iface;
pub mod laws;
pub mod routing;
