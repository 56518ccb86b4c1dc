//! Driver-side protocol engine for a VirtIO block device on the legacy
//! memory-mapped transport.
//!
//! The crate performs no I/O. Every entry point works on owned state and
//! returns the register and memory accesses that the surrounding kernel has
//! to carry out, so that the device handshake, the descriptor-ring index
//! discipline and the request chains can be verified.

pub mod block;
pub mod setup;
pub mod virtio;
pub mod wire;
