//! Read-only view of the network for an actor: the invocation's snapshot of
//! the chain (epoch, protocol version), the scalar facts that the host serves
//! (base fee, circulating supply, tipset timestamp), and the resolution of a
//! past tipset's CID through a buffer of fixed capacity.
//!
//! The host transport itself is not part of this crate. Each operation that
//! needs it takes the transport's reply as a plain value and decides what it
//! means; a reply that breaks the host's contract comes back as a `HostFault`.
pub mod error;
pub mod host;
pub mod context;
pub mod network;
