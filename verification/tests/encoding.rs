//! The DMA descriptor encodings: scatter-gather tables, the command header
//! options word, the read/write FIS, and the transfer plan.

use ahci_driver::cmd::{build_prdt, build_rw_fis, cmd_hdr_opts, plan_rw};
use ahci_driver::types::{AHCI_MAX_BYTES_PER_CMD, AHCI_MAX_BYTES_PER_SG, AHCI_MAX_SG};

const MIB: usize = 1024 * 1024;

#[test]
fn prdt_single_sector() {
    // One 512-byte segment: one entry, byte count 512 stored as 0x1ff.
    let t = build_prdt(0x1000, 512);
    assert_eq!(t.len(), 1);
    assert_eq!(t[0].addr_lo, 0x1000);
    assert_eq!(t[0].addr_hi, 0);
    assert_eq!(t[0].reserved, 0);
    assert_eq!(t[0].flags_size, 0x1ff);
}

#[test]
fn prdt_ten_mib() {
    // 10 MiB: 4 MiB + 4 MiB + 2 MiB.
    let t = build_prdt(0x8000_0000, 10 * MIB);
    assert_eq!(t.len(), 3);
    assert_eq!(t[0].flags_size as usize, 4 * MIB - 1);
    assert_eq!(t[1].flags_size as usize, 4 * MIB - 1);
    assert_eq!(t[2].flags_size as usize, 2 * MIB - 1);
    assert_eq!(t[0].addr_lo, 0x8000_0000);
    assert_eq!(t[1].addr_lo as usize, 0x8000_0000 + 4 * MIB);
    assert_eq!(t[2].addr_lo as usize, 0x8000_0000 + 8 * MIB);
    let sum: usize = t.iter().map(|e| e.flags_size as usize + 1).sum();
    assert_eq!(sum, 10 * MIB);
}

#[test]
fn prdt_fills_all_slots_at_max() {
    let t = build_prdt(0, AHCI_MAX_BYTES_PER_CMD);
    assert_eq!(t.len(), AHCI_MAX_SG);
    for e in &t {
        assert_eq!(e.flags_size as usize, AHCI_MAX_BYTES_PER_SG - 1);
        // byte count - 1 in the low 22 bits, zero elsewhere
        assert_eq!(e.flags_size >> 22, 0);
    }
    let sum: usize = t.iter().map(|e| e.flags_size as usize + 1).sum();
    assert_eq!(sum, AHCI_MAX_BYTES_PER_CMD);
}

#[test]
fn prdt_partial_tail_segment() {
    // 4 MiB + 512: the tail entry carries ((len - 1) mod 4 MiB) + 1 bytes.
    let t = build_prdt(0x10_0000, 4 * MIB + 512);
    assert_eq!(t.len(), 2);
    assert_eq!(t[0].flags_size as usize, 4 * MIB - 1);
    assert_eq!(t[1].flags_size, 511);
}

#[test]
fn prdt_splits_addresses_across_4g() {
    let base: u64 = 0x1_2345_6000;
    let t = build_prdt(base, 8 * MIB);
    assert_eq!(t.len(), 2);
    assert_eq!(t[0].addr_lo, 0x2345_6000);
    assert_eq!(t[0].addr_hi, 0x1);
    assert_eq!(
        (t[1].addr_lo as u64) | ((t[1].addr_hi as u64) << 32),
        base + 4 * MIB as u64
    );
}

#[test]
fn opts_word_fields() {
    // Bits 0..4 carry the FIS length in dwords (5), bit 6 the direction,
    // bits 16..31 the PRDT length.
    let r = cmd_hdr_opts(3, false);
    assert_eq!(r & 0x1f, 5);
    assert_eq!((r >> 6) & 1, 0);
    assert_eq!(r >> 16, 3);
    assert_eq!(r, 0x0003_0005);
    let w = cmd_hdr_opts(56, true);
    assert_eq!(w & 0x1f, 5);
    assert_eq!((w >> 6) & 1, 1);
    assert_eq!(w >> 16, 56);
    assert_eq!(w, 0x0038_0045);
    assert_eq!(cmd_hdr_opts(0, false), 5);
}

#[test]
fn fis_lba48_single_sector() {
    // The FIS of a one-sector LBA48 read at sector 42.
    let f = build_rw_fis(42, 1, true, false);
    assert_eq!(f.fis_type, 0x27);
    assert_eq!(f.pm_port_c, 0x80);
    assert_eq!(f.command, 0x24);
    assert_eq!(f.lba_low, 42);
    assert_eq!(f.lba_mid, 0);
    assert_eq!(f.lba_high, 0);
    assert_eq!(f.lba_low_exp, 0);
    assert_eq!(f.lba_mid_exp, 0);
    assert_eq!(f.lba_high_exp, 0);
    assert_eq!(f.device, 0x40);
    assert_eq!(f.sector_count, 1);
    assert_eq!(f.sector_count_exp, 0);
    assert_eq!(f.features, 0);
    assert_eq!(f.control, 0);
}

#[test]
fn fis_lba48_spreads_lba_bytes() {
    let lba: u64 = 0x0000_8877_6655_4433;
    let f = build_rw_fis(lba, 0x1234, true, true);
    assert_eq!(f.command, 0x34);
    assert_eq!(f.lba_low, 0x33);
    assert_eq!(f.lba_mid, 0x44);
    assert_eq!(f.lba_high, 0x55);
    assert_eq!(f.lba_low_exp, 0x66);
    assert_eq!(f.lba_mid_exp, 0x77);
    assert_eq!(f.lba_high_exp, 0x88);
    assert_eq!(f.sector_count, 0x34);
    assert_eq!(f.sector_count_exp, 0x12);
    assert_eq!(f.device, 0x40);
}

#[test]
fn fis_lba28_device_nibble() {
    let f = build_rw_fis(0x0ABC_1234, 7, false, false);
    assert_eq!(f.command, 0x20);
    assert_eq!(f.lba_low, 0x34);
    assert_eq!(f.lba_mid, 0x12);
    assert_eq!(f.lba_high, 0xbc);
    assert_eq!(f.device, 0x40 | 0x0a);
    assert_eq!(f.sector_count, 7);
    assert_eq!(f.lba_low_exp, 0);
    assert_eq!(f.sector_count_exp, 0);
    let w = build_rw_fis(5, 1, false, true);
    assert_eq!(w.command, 0x30);
}

#[test]
fn fis_max_count_encodes_as_zero() {
    // 65536 sectors (LBA48) and 256 sectors (LBA28) encode as zero counts,
    // per the ATA convention.
    let f48 = build_rw_fis(0, 65536, true, false);
    assert_eq!(f48.sector_count, 0);
    assert_eq!(f48.sector_count_exp, 0);
    let f28 = build_rw_fis(0, 256, false, false);
    assert_eq!(f28.sector_count, 0);
}

#[test]
fn plan_small_read_is_one_command() {
    let p = plan_rw(42, 512, true);
    assert_eq!(p.len(), 1);
    assert_eq!(p[0].lba, 42);
    assert_eq!(p[0].sectors, 1);
    assert_eq!(p[0].bytes, 512);
}

#[test]
fn plan_ten_mib_lba48_is_one_command() {
    let p = plan_rw(0, 10 * MIB, true);
    assert_eq!(p.len(), 1);
    assert_eq!(p[0].sectors as usize, 10 * MIB / 512);
    assert_eq!(p[0].bytes, 10 * MIB);
}

#[test]
fn plan_splits_at_lba48_cap() {
    // 32 MiB + 512 bytes is 65537 sectors: 65536 + 1.
    let p = plan_rw(0, 32 * MIB + 512, true);
    assert_eq!(p.len(), 2);
    assert_eq!(p[0].lba, 0);
    assert_eq!(p[0].sectors, 65536);
    assert_eq!(p[0].bytes, 32 * MIB);
    assert_eq!(p[1].lba, 65536);
    assert_eq!(p[1].sectors, 1);
    assert_eq!(p[1].bytes, 512);
}

#[test]
fn plan_splits_at_lba28_cap() {
    // 200 KiB is 400 sectors: 256 + 144 under the LBA28 cap.
    let p = plan_rw(1000, 400 * 512, false);
    assert_eq!(p.len(), 2);
    assert_eq!(p[0].lba, 1000);
    assert_eq!(p[0].sectors, 256);
    assert_eq!(p[1].lba, 1256);
    assert_eq!(p[1].sectors, 144);
    let total: usize = p.iter().map(|c| c.bytes).sum();
    assert_eq!(total, 400 * 512);
}

#[test]
fn plan_empty_range_is_empty() {
    let p = plan_rw(7, 0, true);
    assert!(p.is_empty());
}
