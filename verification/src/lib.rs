//! Channel transfer engine for an STM32-style full-speed USB host controller.
//!
//! The crate verifies the host-side channel machinery of such a controller:
//! the packet-memory bump allocator, the buffer-descriptor length codec, the
//! byte/word packet codec, the channel-control register discipline (fields
//! with write-zero-to-clear and write-one-to-toggle semantics), the per-poll
//! transfer decisions of the read/write engines, and the interrupt dispatch.
//!
//! The peripheral's visible state is held in explicit models ([`hw::Registers`]
//! and [`hw::PacketMemory`]) whose write operations apply the hardware's
//! non-idempotent field semantics, so every register-level theorem is stated
//! against the same rules the silicon implements.

pub mod bits;
pub mod btable;
pub mod buffer;
pub mod channel;
pub mod driver;
pub mod epr;
pub mod hw;
pub mod irq;
pub mod transfer;
pub mod types;
