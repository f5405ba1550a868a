//! The hardware boundary: everything the driver cannot decide for itself —
//! volatile register access, the DMA-visible descriptor memory, the data
//! buffer staging and the clock — sits behind the [`AhciBus`] trait.
//!
//! The driver is generic over it and is verified for every implementation:
//! no contract here promises anything about what the hardware answers. A
//! production implementation wraps the real MMIO window and the [`Hal`]
//! primitives; a test implementation simulates a controller in memory.
//!
//! [`Hal`]: crate::hal::Hal

use vstd::prelude::*;

use crate::mmio::{HostReg, PortReg};
use crate::types::{ahci_cmd_hdr, ahci_sg, sata_fis_h2d, AHCI_MAX_SG};

verus! {

/// Access to one AHCI controller: its register file, the per-port DMA
/// descriptor structures (command list, received-FIS area, command table),
/// staging of data buffers for device access, and the timeout clock.
pub trait AhciBus {
    /// Milliseconds since an arbitrary origin; used only for timeouts.
    fn current_ms(&mut self) -> u64;

    /// Make prior stores to the DMA structures visible to the device and
    /// invalidate cached reads of device-written memory.
    fn flush_dcache(&mut self);

    /// Volatile read of a Generic Host Control register.
    fn host_read(&mut self, reg: HostReg) -> u32;

    /// Volatile write of a Generic Host Control register.
    fn host_write(&mut self, reg: HostReg, v: u32);

    /// Volatile read of a port register.
    fn port_read(&mut self, port: u8, reg: PortReg) -> u32
        requires
            port < 32,
    ;

    /// Volatile write of a port register.
    fn port_write(&mut self, port: u8, reg: PortReg, v: u32)
        requires
            port < 32,
    ;

    /// Physical address of the port's command list (1024 bytes,
    /// 1024-aligned, zero-initialized).
    fn cmd_list_phys(&mut self, port: u8) -> u64
        requires
            port < 32,
    ;

    /// Physical address of the port's received-FIS area (256 bytes,
    /// 256-aligned, zero-initialized).
    fn rx_fis_phys(&mut self, port: u8) -> u64
        requires
            port < 32,
    ;

    /// Physical address of the port's command table (128-aligned,
    /// zero-initialized).
    fn cmd_tbl_phys(&mut self, port: u8) -> u64
        requires
            port < 32,
    ;

    /// Store the command FIS at offset 0 of the port's command table.
    fn write_cmd_fis(&mut self, port: u8, fis: &sata_fis_h2d)
        requires
            port < 32,
    ;

    /// Store a scatter-gather entry at index `idx` of the port's command
    /// table PRDT (offset 0x80 + 16 * idx).
    fn write_prd(&mut self, port: u8, idx: usize, sg: &ahci_sg)
        requires
            port < 32,
            idx < AHCI_MAX_SG,
    ;

    /// Store a command header in slot `slot` of the port's command list.
    fn write_cmd_header(&mut self, port: u8, slot: usize, hdr: &ahci_cmd_hdr)
        requires
            port < 32,
            slot < 32,
    ;

    /// Stage `buf[offset .. offset + len]` for device access and return the
    /// physical address of its first byte. The staged region must be
    /// physically contiguous: the driver addresses segment `k` of the
    /// transfer at this base plus `k * 4 MiB`. An implementation whose
    /// memory is not contiguous there must stage through a bounce buffer.
    fn dma_prepare(&mut self, buf: &Vec<u8>, offset: usize, len: usize) -> u64
        requires
            offset + len <= buf@.len(),
    ;

    /// The first `len` bytes the device left in the staged region, read
    /// back after command completion.
    fn dma_retrieve(&mut self, len: usize) -> Vec<u8>;
}

} // verus!
