//! Userspace control plane for a cgroup-egress packet filter.
//!
//! The kernel-resident filter and this process share two fixed-layout record
//! types, a keyed blocklist table consulted on every packet, and a bounded
//! ring channel of verdict records. This crate holds the verified core:
//! the record codec, the blocklist table semantics, the ring-channel drain
//! loop, and the startup state machine that orders load, attach and seeding.

pub mod blocklist;
pub mod channel;
pub mod codec;
pub mod drain;
pub mod render;
pub mod startup;
