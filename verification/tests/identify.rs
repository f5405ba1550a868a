//! IDENTIFY-page decoding: word assembly, the byte-swapped strings, the
//! LBA48 bit and the sector count fields.

use ahci_driver::ata::{
    ata_id_has_lba48, ata_id_n_sectors, ata_id_to_string, id_words, ATA_ID_PROD, ATA_ID_PROD_LEN,
    ATA_ID_SERNO, ATA_ID_SERNO_LEN,
};

/// An IDENTIFY page with the given string at a word offset, the LBA48 bit
/// and both sector count fields.
fn page(model: &[u8], lba48: bool, lba28_sectors: u32, lba48_sectors: u64) -> Vec<u16> {
    let mut id = vec![0u16; 256];
    let mut padded = model.to_vec();
    while padded.len() < ATA_ID_PROD_LEN {
        padded.push(b' ');
    }
    for k in 0..ATA_ID_PROD_LEN / 2 {
        id[ATA_ID_PROD + k] = ((padded[2 * k] as u16) << 8) | (padded[2 * k + 1] as u16);
    }
    if lba48 {
        id[83] = 1 << 10;
    }
    id[60] = lba28_sectors as u16;
    id[61] = (lba28_sectors >> 16) as u16;
    id[100] = lba48_sectors as u16;
    id[101] = (lba48_sectors >> 16) as u16;
    id[102] = (lba48_sectors >> 32) as u16;
    id[103] = (lba48_sectors >> 48) as u16;
    id
}

#[test]
fn words_are_little_endian() {
    let mut bytes = vec![0u8; 512];
    bytes[0] = 0x34;
    bytes[1] = 0x12;
    bytes[510] = 0xcd;
    bytes[511] = 0xab;
    let w = id_words(&bytes);
    assert_eq!(w.len(), 256);
    assert_eq!(w[0], 0x1234);
    assert_eq!(w[255], 0xabcd);
    assert_eq!(w[1], 0);
}

#[test]
fn model_string_swaps_and_trims() {
    let id = page(b"QEMU HARDDISK", true, 0, 0x100000);
    let s = ata_id_to_string(&id, ATA_ID_PROD, ATA_ID_PROD_LEN);
    assert_eq!(s, b"QEMU HARDDISK".to_vec());
}

#[test]
fn string_keeps_interior_spaces_only() {
    let mut id = vec![0u16; 256];
    // "AB  CD  " at words 10..13, big-endian pairs.
    id[ATA_ID_SERNO] = ((b'A' as u16) << 8) | b'B' as u16;
    id[ATA_ID_SERNO + 1] = ((b' ' as u16) << 8) | b' ' as u16;
    id[ATA_ID_SERNO + 2] = ((b'C' as u16) << 8) | b'D' as u16;
    id[ATA_ID_SERNO + 3] = ((b' ' as u16) << 8) | b' ' as u16;
    let s = ata_id_to_string(&id, ATA_ID_SERNO, 8);
    assert_eq!(s, b"AB  CD".to_vec());
    // An all-space field trims to nothing.
    for k in 0..6 {
        id[ATA_ID_SERNO + 4 + k] = ((b' ' as u16) << 8) | b' ' as u16;
    }
    let t = ata_id_to_string(&id, ATA_ID_SERNO + 4, ATA_ID_SERNO_LEN - 8);
    assert!(t.is_empty());
}

#[test]
fn lba48_bit_is_word_83_bit_10() {
    let with = page(b"X", true, 0, 0);
    let without = page(b"X", false, 0, 0);
    assert!(ata_id_has_lba48(&with));
    assert!(!ata_id_has_lba48(&without));
    let mut other_bits = vec![0u16; 256];
    other_bits[83] = !(1 << 10);
    assert!(!ata_id_has_lba48(&other_bits));
}

#[test]
fn sector_count_uses_lba48_field_when_supported() {
    let id = page(b"X", true, 0xdead, 0x0001_2345_6789_abcd);
    assert_eq!(ata_id_n_sectors(&id), 0x0001_2345_6789_abcd);
}

#[test]
fn sector_count_uses_lba28_field_otherwise() {
    let id = page(b"X", false, 0x00fe_dcba, 0x1_0000_0000);
    assert_eq!(ata_id_n_sectors(&id), 0x00fe_dcba);
}
