//! A VirtIO PCI transport for guests of a restrictive hypervisor that forbids
//! direct access to device register windows and instead relays every register
//! touch through an explicit I/O hypercall.
//!
//! The crate is organised around five pieces, leaves first:
//! - [`io`]: the trapped I/O primitive, modelled as a channel that logs every
//!   access it performs;
//! - [`region`]: bounds-checked typed reads and writes within one resolved
//!   BAR sub-region, built on the channel;
//! - [`cam`]: detection of the restrictive hypervisor and hypercall-relayed
//!   PCI configuration-space access;
//! - [`pci`]: the capability-list walk, classification of vendor-specific
//!   capabilities, and resolution of each into a register window;
//! - [`transport`]: the full transport protocol a device driver consumes.
//!
//! The instruction-level pieces (the CPU identification instruction and the
//! hypervisor-call instruction itself) cannot be verified and live outside
//! this crate; everything here is exercised against them through the channel
//! trait, or against a mock implementation of it.

pub mod cam;
pub mod io;
pub mod pci;
pub mod region;
pub mod transport;
