//! DMA-visible structure layouts: the command header, the scatter-gather
//! entry (PRD), the host-to-device register FIS and the command table.
//!
//! These mirror the on-wire layouts of the AHCI specification; the driver
//! fills them in host memory and hands their physical addresses to the
//! controller.

#![allow(non_camel_case_types)]

use vstd::prelude::*;

verus! {

/// Number of command slots in a command list.
pub const AHCI_MAX_CMDS: usize = 32;

/// Maximum number of scatter-gather entries per command.
pub const AHCI_MAX_SG: usize = 56;

/// Maximum byte count a single scatter-gather entry can carry (4 MiB).
pub const AHCI_MAX_BYTES_PER_SG: usize = 4 * 1024 * 1024;

/// Maximum byte count of one command: 56 entries of 4 MiB each (224 MiB).
pub const AHCI_MAX_BYTES_PER_CMD: usize = AHCI_MAX_SG * AHCI_MAX_BYTES_PER_SG;

/// Command header: one 32-byte slot of the command list.
#[derive(Clone, Copy, Debug, PartialEq, Eq)]
pub struct ahci_cmd_hdr {
    /// Bits 0..4: command FIS length in dwords; bit 6: write direction;
    /// bits 16..31: number of PRDT entries.
    pub opts: u32,
    /// Written back by the device.
    pub status: u32,
    /// Low 32 bits of the command table's physical address.
    pub tbl_addr_lo: u32,
    /// High 32 bits of the command table's physical address.
    pub tbl_addr_hi: u32,
    pub reserved: [u32; 4],
}

/// The command list: 32 command headers. The driver populates slot 0 only.
pub type ahci_cmd_list = [ahci_cmd_hdr; 32];

/// The received-FIS landing area of one port.
pub type ahci_rx_fis = [u8; 256];

/// Scatter-gather entry (physical region descriptor), 16 bytes.
#[derive(Clone, Copy, Debug, PartialEq, Eq, Structural)]
pub struct ahci_sg {
    /// Low 32 bits of the segment's physical address.
    pub addr_lo: u32,
    /// High 32 bits of the segment's physical address.
    pub addr_hi: u32,
    pub reserved: u32,
    /// `byte count - 1` in bits 0..21; all other bits zero.
    pub flags_size: u32,
}

/// Host-to-device register FIS, 20 bytes, layout fixed by the SATA
/// specification. Writing it to the device's task-file registers initiates
/// an ATA command.
#[derive(Clone, Copy, Debug, PartialEq, Eq)]
pub struct sata_fis_h2d {
    pub fis_type: u8,
    /// Bit 7 set means "command register update".
    pub pm_port_c: u8,
    pub command: u8,
    pub features: u8,
    pub lba_low: u8,
    pub lba_mid: u8,
    pub lba_high: u8,
    pub device: u8,
    pub lba_low_exp: u8,
    pub lba_mid_exp: u8,
    pub lba_high_exp: u8,
    pub features_exp: u8,
    pub sector_count: u8,
    pub sector_count_exp: u8,
    pub res1: u8,
    pub control: u8,
    pub res2: [u8; 4],
}

/// The all-zero FIS; builders start from it.
pub open spec fn spec_fis_zero() -> sata_fis_h2d {
    sata_fis_h2d {
        fis_type: 0,
        pm_port_c: 0,
        command: 0,
        features: 0,
        lba_low: 0,
        lba_mid: 0,
        lba_high: 0,
        device: 0,
        lba_low_exp: 0,
        lba_mid_exp: 0,
        lba_high_exp: 0,
        features_exp: 0,
        sector_count: 0,
        sector_count_exp: 0,
        res1: 0,
        control: 0,
        res2: [0, 0, 0, 0],
    }
}

impl Default for sata_fis_h2d {
    fn default() -> (r: Self)
        ensures
            r == spec_fis_zero(),
    {
        sata_fis_h2d {
            fis_type: 0,
            pm_port_c: 0,
            command: 0,
            features: 0,
            lba_low: 0,
            lba_mid: 0,
            lba_high: 0,
            device: 0,
            lba_low_exp: 0,
            lba_mid_exp: 0,
            lba_high_exp: 0,
            features_exp: 0,
            sector_count: 0,
            sector_count_exp: 0,
            res1: 0,
            control: 0,
            res2: [0, 0, 0, 0],
        }
    }
}

/// Command table: the command FIS at offset 0, reserved padding up to
/// offset 0x80, then the scatter-gather list.
#[derive(Clone, Copy, Debug)]
pub struct ahci_cmd_tbl {
    pub hdr: sata_fis_h2d,
    pub res: [u8; 0x6c],
    pub sgs: [ahci_sg; 56],
}

} // verus!
