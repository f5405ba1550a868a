//! ATA command constants and IDENTIFY-page decoding: capacity, LBA48
//! support, and the byte-swapped ASCII identity strings.

use vstd::prelude::*;

verus! {

/// FIS type byte of a host-to-device register FIS.
pub const SATA_FIS_TYPE_REGISTER_H2D: u8 = 0x27;

/// READ SECTORS (LBA28).
pub const ATA_CMD_READ: u8 = 0x20;

/// WRITE SECTORS (LBA28).
pub const ATA_CMD_WRITE: u8 = 0x30;

/// READ SECTORS EXT (LBA48).
pub const ATA_CMD_READ_EXT: u8 = 0x24;

/// WRITE SECTORS EXT (LBA48).
pub const ATA_CMD_WRITE_EXT: u8 = 0x34;

/// IDENTIFY DEVICE.
pub const ATA_CMD_ID_ATA: u8 = 0xec;

/// Length of the IDENTIFY page in 16-bit words.
pub const ATA_ID_WORDS: usize = 256;

/// Word offset and byte length of the serial number string.
pub const ATA_ID_SERNO: usize = 10;

pub const ATA_ID_SERNO_LEN: usize = 20;

/// Word offset and byte length of the firmware revision string.
pub const ATA_ID_FW_REV: usize = 23;

pub const ATA_ID_FW_REV_LEN: usize = 8;

/// Word offset and byte length of the model (product) string.
pub const ATA_ID_PROD: usize = 27;

pub const ATA_ID_PROD_LEN: usize = 40;

/// Reassembles the 512-byte IDENTIFY page into its 256 little-endian
/// 16-bit words.
pub fn id_words(bytes: &Vec<u8>) -> (r: Vec<u16>)
    requires
        bytes@.len() == 512,
    ensures
        r@.len() == 256,
        forall|i: int| 0 <= i < 256 ==> #[trigger] r@[i] == bytes@[2 * i] + bytes@[2 * i + 1] * 0x100,
{
    let mut r: Vec<u16> = Vec::new();
    let mut i: usize = 0;
    while i < 256
        invariant
            bytes@.len() == 512,
            0 <= i <= 256,
            r@.len() == i,
            forall|j: int|
                0 <= j < i ==> #[trigger] r@[j] == bytes@[2 * j] + bytes@[2 * j + 1] * 0x100,
        decreases 256 - i,
    {
        let lo: u8 = bytes[2 * i];
        let hi: u8 = bytes[2 * i + 1];
        proof {
            lemma_u16_from_bytes(lo, hi);
        }
        r.push((lo as u16) | ((hi as u16) << 8));
        i = i + 1;
    }
    r
}

proof fn lemma_u16_from_bytes(lo: u8, hi: u8)
    by (bit_vector)
    ensures
        (lo as u16) | ((hi as u16) << 8) == lo + hi * 0x100,
{
}

/// Whether the IDENTIFY page advertises 48-bit addressing: word 83, bit 10.
pub fn ata_id_has_lba48(id: &Vec<u16>) -> (r: bool)
    requires
        id@.len() == ATA_ID_WORDS,
    ensures
        r == ((id@[83] >> 10) & 1 == 1),
{
    (id[83] >> 10) & 1 == 1
}

/// The addressable sector count: the 64-bit field at words 100..103 when
/// the device supports LBA48, else the 32-bit field at words 60..61.
pub fn ata_id_n_sectors(id: &Vec<u16>) -> (r: u64)
    requires
        id@.len() == ATA_ID_WORDS,
    ensures
        r == if (id@[83] >> 10) & 1 == 1 {
            id@[100] + id@[101] * 0x1_0000 + id@[102] * 0x1_0000_0000 + id@[103]
                * 0x1_0000_0000_0000
        } else {
            id@[60] + id@[61] * 0x1_0000
        },
{
    if ata_id_has_lba48(id) {
        let w0: u16 = id[100];
        let w1: u16 = id[101];
        let w2: u16 = id[102];
        let w3: u16 = id[103];
        proof {
            assert((w0 as u64) | ((w1 as u64) << 16) | ((w2 as u64) << 32) | ((w3 as u64) << 48)
                == w0 + w1 * 0x1_0000 + w2 * 0x1_0000_0000 + w3 * 0x1_0000_0000_0000)
                by (bit_vector);
        }
        (w0 as u64) | ((w1 as u64) << 16) | ((w2 as u64) << 32) | ((w3 as u64) << 48)
    } else {
        let w0: u16 = id[60];
        let w1: u16 = id[61];
        proof {
            assert((w0 as u64) | ((w1 as u64) << 16) == w0 + w1 * 0x1_0000) by (bit_vector);
        }
        (w0 as u64) | ((w1 as u64) << 16)
    }
}

/// The ASCII bytes of an IDENTIFY string field: each 16-bit word holds two
/// characters in big-endian order, so the high byte comes first.
pub open spec fn id_string_bytes(words: Seq<u16>, ofs: int, len: int) -> Seq<u8> {
    Seq::new(
        len as nat,
        |i: int|
            if i % 2 == 0 {
                (words[ofs + i / 2] >> 8) as u8
            } else {
                (words[ofs + i / 2] & 0xff) as u8
            },
    )
}

/// A byte sequence with its trailing spaces removed.
pub open spec fn trim_trailing_spaces(s: Seq<u8>) -> Seq<u8>
    decreases s.len(),
{
    if s.len() == 0 {
        s
    } else if s.last() == 0x20 {
        trim_trailing_spaces(s.drop_last())
    } else {
        s
    }
}

/// Extracts an ASCII string field of `len` bytes starting at word `ofs` of
/// the IDENTIFY page, swapping each word's bytes and trimming trailing
/// spaces.
pub fn ata_id_to_string(id: &Vec<u16>, ofs: usize, len: usize) -> (r: Vec<u8>)
    requires
        id@.len() == ATA_ID_WORDS,
        len % 2 == 0,
        ofs + len / 2 <= ATA_ID_WORDS,
    ensures
        r@ == trim_trailing_spaces(id_string_bytes(id@, ofs as int, len as int)),
{
    let mut bytes: Vec<u8> = Vec::new();
    let mut i: usize = 0;
    while i < len
        invariant
            id@.len() == ATA_ID_WORDS,
            len % 2 == 0,
            ofs + len / 2 <= ATA_ID_WORDS,
            0 <= i <= len,
            i % 2 == 0,
            bytes@.len() == i,
            forall|j: int|
                0 <= j < i ==> #[trigger] bytes@[j] == id_string_bytes(
                    id@,
                    ofs as int,
                    len as int,
                )[j],
        decreases len - i,
    {
        let w: u16 = id[ofs + i / 2];
        bytes.push(#[verifier::truncate] ((w >> 8) as u8));
        bytes.push(#[verifier::truncate] ((w & 0xff) as u8));
        i = i + 2;
    }
    proof {
        assert(bytes@ =~= id_string_bytes(id@, ofs as int, len as int));
    }
    let ghost full = id_string_bytes(id@, ofs as int, len as int);
    while bytes.len() > 0 && bytes[bytes.len() - 1] == 0x20
        invariant
            trim_trailing_spaces(bytes@) == trim_trailing_spaces(full),
        decreases bytes@.len(),
    {
        bytes.pop();
    }
    bytes
}

} // verus!
