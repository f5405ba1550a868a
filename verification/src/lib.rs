//! A verified AHCI SATA host-controller driver core.
//!
//! The crate brings a memory-mapped AHCI controller from reset to a state
//! where one attached SATA disk services block reads and writes. It owns the
//! register-level bring-up sequence, the bit-exact DMA descriptor layouts
//! (command list, command table, scatter-gather entries, host-to-device FIS)
//! and the synchronous read/write pipeline that fragments a byte range into
//! hardware-sized transfers.
//!
//! All hardware access goes through the [`bus::AhciBus`] capability trait:
//! the host environment supplies volatile MMIO access, DMA-visible memory
//! and a millisecond clock, while every decision the driver takes — which
//! registers to program, with which values, how to lay out the descriptors —
//! is verified here.

pub mod ahci;
pub mod ata;
pub mod bus;
pub mod cmd;
pub mod hal;
pub mod mmio;
pub mod types;

pub use ahci::AhciDriver;
pub use hal::Hal;
