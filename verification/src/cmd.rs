//! Command construction: the scatter-gather table, the command header
//! options word, the host-to-device register FIS for reads and writes, and
//! the plan that fragments a byte range into hardware-sized transfers.
//!
//! Everything here is pure: each builder's contract pins its result down
//! bit for bit, and the laws the descriptors obey are stated as proof
//! functions beside them.

use vstd::prelude::*;
use vstd::arithmetic::div_mod::{
    lemma_div_is_ordered, lemma_fundamental_div_mod, lemma_fundamental_div_mod_converse,
};

use crate::types::{
    ahci_sg, sata_fis_h2d, spec_fis_zero, AHCI_MAX_BYTES_PER_CMD, AHCI_MAX_BYTES_PER_SG,
    AHCI_MAX_SG,
};
use crate::ata::{
    ATA_CMD_READ, ATA_CMD_READ_EXT, ATA_CMD_WRITE, ATA_CMD_WRITE_EXT, SATA_FIS_TYPE_REGISTER_H2D,
};

verus! {

// ---------------------------------------------------------------------------
// Scatter-gather table
// ---------------------------------------------------------------------------

/// The 64-bit physical address a scatter-gather entry points at.
pub open spec fn sg_addr(e: ahci_sg) -> int {
    e.addr_lo + e.addr_hi * 0x1_0000_0000
}

/// Physical address of segment `k` of a transfer starting at `base`:
/// `base + k * 4 MiB`, wrapping at the end of the 64-bit address space as
/// pointer arithmetic does.
pub open spec fn seg_phys(base: u64, k: int) -> int {
    if base + k * (AHCI_MAX_BYTES_PER_SG as int) > u64::MAX {
        base + k * (AHCI_MAX_BYTES_PER_SG as int) - 0x1_0000_0000_0000_0000
    } else {
        base + k * (AHCI_MAX_BYTES_PER_SG as int)
    }
}

/// Number of scatter-gather entries a transfer of `len` bytes needs:
/// one per started 4 MiB segment.
pub open spec fn prd_count(len: int) -> int {
    (len - 1) / (AHCI_MAX_BYTES_PER_SG as int) + 1
}

/// Byte count of segment `k` of a transfer of `len` bytes: 4 MiB for every
/// segment but possibly the last, which carries the remainder.
pub open spec fn prd_byte_count(len: int, k: int) -> int {
    let sg = AHCI_MAX_BYTES_PER_SG as int;
    if len - k * sg < sg {
        len - k * sg
    } else {
        sg
    }
}

/// Sum of the byte counts a scatter-gather table encodes (each entry stores
/// its count minus one).
pub open spec fn prdt_total(s: Seq<ahci_sg>) -> int
    decreases s.len(),
{
    if s.len() == 0 {
        0
    } else {
        prdt_total(s.drop_last()) + s.last().flags_size + 1
    }
}

proof fn lemma_prdt_total_push(s: Seq<ahci_sg>, e: ahci_sg)
    ensures
        prdt_total(s.push(e)) == prdt_total(s) + e.flags_size + 1,
{
    assert(s.push(e).drop_last() =~= s);
}

/// Splitting a 64-bit address into its two 32-bit register halves loses
/// nothing.
pub proof fn lemma_u64_split(a: u64)
    by (bit_vector)
    ensures
        (a & 0xffff_ffff) + (a >> 32) * 0x1_0000_0000 == a,
        a & 0xffff_ffff < 0x1_0000_0000,
        a >> 32 < 0x1_0000_0000,
{
}

/// Law: a scatter-gather entry's `flags_size` word holds `byte count - 1`
/// in its low 22 bits and zero everywhere else. `build_prdt` ensures every
/// entry it emits satisfies the precondition here.
pub proof fn lemma_prd_flags_size_bits(fs: u32)
    by (bit_vector)
    requires
        fs < 0x40_0000,
    ensures
        fs & 0x3f_ffff == fs,
        fs >> 22 == 0,
{
}

/// Builds the scatter-gather table for a transfer of `len` bytes starting
/// at physical address `base`: one entry per started 4 MiB segment, each
/// carrying the segment's address and `byte count - 1`, 4 MiB everywhere
/// but the last entry, which carries `((len - 1) mod 4 MiB) + 1`. The byte
/// counts sum to exactly `len`.
pub fn build_prdt(base: u64, len: usize) -> (r: Vec<ahci_sg>)
    requires
        1 <= len <= AHCI_MAX_BYTES_PER_CMD,
    ensures
        r@.len() == prd_count(len as int),
        1 <= r@.len() <= AHCI_MAX_SG,
        forall|k: int|
            0 <= k < r@.len() ==> {
                &&& sg_addr(#[trigger] r@[k]) == seg_phys(base, k)
                &&& r@[k].reserved == 0
                &&& r@[k].flags_size == prd_byte_count(len as int, k) - 1
                &&& r@[k].flags_size < 0x40_0000
            },
        forall|k: int|
            0 <= k < r@.len() - 1 ==> #[trigger] r@[k].flags_size + 1 == AHCI_MAX_BYTES_PER_SG,
        r@.last().flags_size == (len - 1) as int % (AHCI_MAX_BYTES_PER_SG as int),
        prdt_total(r@) == len,
{
    proof {
        assert(AHCI_MAX_BYTES_PER_SG == 0x40_0000);
        assert(AHCI_MAX_BYTES_PER_CMD == 56 * 0x40_0000);
        // len <= 224 MiB bounds the entry count by 56.
        lemma_div_is_ordered(
            len - 1,
            AHCI_MAX_BYTES_PER_CMD - 1,
            AHCI_MAX_BYTES_PER_SG as int,
        );
        lemma_fundamental_div_mod_converse(
            (AHCI_MAX_BYTES_PER_CMD - 1) as int,
            AHCI_MAX_BYTES_PER_SG as int,
            (AHCI_MAX_SG - 1) as int,
            (AHCI_MAX_BYTES_PER_SG - 1) as int,
        );
        lemma_fundamental_div_mod((len - 1) as int, AHCI_MAX_BYTES_PER_SG as int);
    }
    let sg_cnt: usize = (len - 1) / AHCI_MAX_BYTES_PER_SG + 1;
    let mut r: Vec<ahci_sg> = Vec::new();
    let mut remaining: usize = len;
    let mut k: usize = 0;
    while k < sg_cnt
        invariant
            1 <= len <= AHCI_MAX_BYTES_PER_CMD,
            sg_cnt == prd_count(len as int),
            sg_cnt <= AHCI_MAX_SG,
            0 <= k <= sg_cnt,
            r@.len() == k,
            remaining == if len - k * (AHCI_MAX_BYTES_PER_SG as int) >= 0 {
                len - k * (AHCI_MAX_BYTES_PER_SG as int)
            } else {
                0
            },
            k < sg_cnt ==> remaining > 0,
            forall|j: int|
                0 <= j < k ==> {
                    &&& sg_addr(#[trigger] r@[j]) == seg_phys(base, j)
                    &&& r@[j].reserved == 0
                    &&& r@[j].flags_size == prd_byte_count(len as int, j) - 1
                    &&& r@[j].flags_size < 0x40_0000
                },
            prdt_total(r@) == len - remaining,
        decreases sg_cnt - k,
    {
        let seg_len: usize = if remaining < AHCI_MAX_BYTES_PER_SG {
            remaining
        } else {
            AHCI_MAX_BYTES_PER_SG
        };
        let offset: usize = k * AHCI_MAX_BYTES_PER_SG;
        let a: u64 = base.wrapping_add(offset as u64);
        proof {
            lemma_u64_split(a);
            let s = (seg_len - 1) as u32;
            assert(s & 0x3f_ffff == s) by (bit_vector)
                requires
                    s < 0x40_0000u32,
            ;
        }
        let entry = ahci_sg {
            addr_lo: (a & 0xffff_ffff) as u32,
            addr_hi: (a >> 32) as u32,
            reserved: 0,
            flags_size: ((seg_len - 1) as u32) & 0x3f_ffff,
        };
        proof {
            lemma_prdt_total_push(r@, entry);
            lemma_fundamental_div_mod((len - 1) as int, AHCI_MAX_BYTES_PER_SG as int);
            assert(AHCI_MAX_BYTES_PER_SG == 0x40_0000);
        }
        r.push(entry);
        remaining = remaining - seg_len;
        k = k + 1;
    }
    proof {
        // The last entry's stored count is the remainder of the division
        // that defines the entry count.
        lemma_fundamental_div_mod((len - 1) as int, AHCI_MAX_BYTES_PER_SG as int);
        assert(AHCI_MAX_BYTES_PER_SG == 0x40_0000);
        assert(remaining == 0);
    }
    r
}

// ---------------------------------------------------------------------------
// Command header options word
// ---------------------------------------------------------------------------

/// The command header options word: command FIS length in dwords (5, for
/// the 20-byte host-to-device register FIS) in bits 0..4, the write
/// direction in bit 6, and the scatter-gather entry count in bits 16..31.
pub open spec fn spec_cmd_hdr_opts(sg_cnt: int, is_write: bool) -> u32 {
    (5u32 | (if is_write {
        0x40u32
    } else {
        0u32
    })) | ((sg_cnt as u32) << 16)
}

/// Law (and builder) for the options word: the three fields read back
/// exactly as written.
pub fn cmd_hdr_opts(sg_cnt: usize, is_write: bool) -> (r: u32)
    requires
        sg_cnt <= AHCI_MAX_SG,
    ensures
        r == spec_cmd_hdr_opts(sg_cnt as int, is_write),
        r & 0x1f == 5,
        (r >> 6) & 1 == if is_write {
            1u32
        } else {
            0u32
        },
        r >> 16 == sg_cnt,
{
    let w: u32 = if is_write {
        0x40
    } else {
        0
    };
    let c: u32 = sg_cnt as u32;
    proof {
        assert(((5u32 | w) | (c << 16)) & 0x1f == 5 && (((5u32 | w) | (c << 16)) >> 6) & 1 == (
        if w == 0x40u32 {
            1u32
        } else {
            0u32
        }) && ((5u32 | w) | (c << 16)) >> 16 == c) by (bit_vector)
            requires
                (w == 0x40u32 || w == 0u32) && c <= 56u32,
        ;
    }
    (5u32 | w) | (c << 16)
}

// ---------------------------------------------------------------------------
// Read/write command FIS
// ---------------------------------------------------------------------------

/// The host-to-device register FIS for a read or write of `count` sectors
/// starting at `lba`, exactly as the driver issues it.
///
/// In LBA48 mode the six LBA bytes carry bits 0..47 of the LBA, the device
/// byte is 0x40 (LBA addressing), and the two count bytes carry the sector
/// count modulo 65536 (so the maximum of 65536 encodes as zero). In LBA28
/// mode the three low LBA bytes carry bits 0..23, bits 24..27 go into the
/// low nibble of the device byte, and the single count byte carries the
/// count modulo 256 (so 256 encodes as zero).
pub open spec fn spec_rw_fis(lba: u64, count: u32, is_lba48: bool, is_write: bool) -> sata_fis_h2d {
    if is_lba48 {
        sata_fis_h2d {
            fis_type: SATA_FIS_TYPE_REGISTER_H2D,
            pm_port_c: 0x80,
            command: if is_write {
                ATA_CMD_WRITE_EXT
            } else {
                ATA_CMD_READ_EXT
            },
            lba_low: lba as u8,
            lba_mid: (lba >> 8) as u8,
            lba_high: (lba >> 16) as u8,
            lba_low_exp: (lba >> 24) as u8,
            lba_mid_exp: (lba >> 32) as u8,
            lba_high_exp: (lba >> 40) as u8,
            device: 0x40,
            sector_count: count as u8,
            sector_count_exp: (count >> 8) as u8,
            ..spec_fis_zero()
        }
    } else {
        sata_fis_h2d {
            fis_type: SATA_FIS_TYPE_REGISTER_H2D,
            pm_port_c: 0x80,
            command: if is_write {
                ATA_CMD_WRITE
            } else {
                ATA_CMD_READ
            },
            lba_low: lba as u8,
            lba_mid: (lba >> 8) as u8,
            lba_high: (lba >> 16) as u8,
            device: 0x40u8 | (((lba >> 24) as u8) & 0x0f),
            sector_count: count as u8,
            ..spec_fis_zero()
        }
    }
}

/// Builds the command FIS for one read or write command.
pub fn build_rw_fis(lba: u64, count: u32, is_lba48: bool, is_write: bool) -> (r: sata_fis_h2d)
    requires
        1 <= count,
        is_lba48 ==> count <= 65536,
        !is_lba48 ==> count <= 256,
    ensures
        r == spec_rw_fis(lba, count, is_lba48, is_write),
{
    let mut fis = sata_fis_h2d::default();
    fis.fis_type = SATA_FIS_TYPE_REGISTER_H2D;
    fis.pm_port_c = 0x80;
    fis.lba_low = #[verifier::truncate] (lba as u8);
    fis.lba_mid = #[verifier::truncate] ((lba >> 8) as u8);
    fis.lba_high = #[verifier::truncate] ((lba >> 16) as u8);
    fis.sector_count = #[verifier::truncate] (count as u8);
    if is_lba48 {
        fis.command = if is_write {
            ATA_CMD_WRITE_EXT
        } else {
            ATA_CMD_READ_EXT
        };
        fis.lba_low_exp = #[verifier::truncate] ((lba >> 24) as u8);
        fis.lba_mid_exp = #[verifier::truncate] ((lba >> 32) as u8);
        fis.lba_high_exp = #[verifier::truncate] ((lba >> 40) as u8);
        fis.device = 0x40;
        fis.sector_count_exp = #[verifier::truncate] ((count >> 8) as u8);
    } else {
        fis.command = if is_write {
            ATA_CMD_WRITE
        } else {
            ATA_CMD_READ
        };
        fis.device = 0x40u8 | ((#[verifier::truncate] ((lba >> 24) as u8)) & 0x0f);
    }
    fis
}

/// Law: the LBA48 FIS encodes the low 48 bits of the LBA exactly — the six
/// LBA bytes reassemble to the LBA — and the two count bytes reassemble to
/// the sector count, with the maximum of 65536 encoding as zero.
pub proof fn lemma_fis_lba48_exact(lba: u64, count: u32, is_write: bool)
    requires
        lba < 0x1_0000_0000_0000,
        1 <= count <= 65536,
    ensures
        ({
            let f = spec_rw_fis(lba, count, true, is_write);
            &&& f.lba_low + f.lba_mid * 0x100 + f.lba_high * 0x1_0000 + f.lba_low_exp * 0x100_0000
                + f.lba_mid_exp * 0x1_0000_0000 + f.lba_high_exp * 0x100_0000_0000 == lba
            &&& f.sector_count + f.sector_count_exp * 0x100 == if count == 65536 {
                0int
            } else {
                count as int
            }
        }),
{
    assert((lba as u8) + ((lba >> 8) as u8) * 0x100 + ((lba >> 16) as u8) * 0x1_0000 + ((lba >> 24)
        as u8) * 0x100_0000 + ((lba >> 32) as u8) * 0x1_0000_0000 + ((lba >> 40) as u8)
        * 0x100_0000_0000 == lba) by (bit_vector)
        requires
            lba < 0x1_0000_0000_0000u64,
    ;
    assert((count as u8) + ((count >> 8) as u8) * 0x100 == (if count == 65536u32 {
        0int
    } else {
        count as int
    })) by (bit_vector)
        requires
            1u32 <= count <= 65536u32,
    ;
}

/// Law: the LBA28 FIS encodes the low 28 bits of the LBA exactly — the
/// three LBA bytes and the low nibble of the device byte reassemble to the
/// LBA — the device byte has the LBA-addressing bit set, and the count byte
/// carries the sector count, with the maximum of 256 encoding as zero.
pub proof fn lemma_fis_lba28_exact(lba: u64, count: u32, is_write: bool)
    requires
        lba < 0x1000_0000,
        1 <= count <= 256,
    ensures
        ({
            let f = spec_rw_fis(lba, count, false, is_write);
            &&& f.lba_low + f.lba_mid * 0x100 + f.lba_high * 0x1_0000 + (f.device & 0x0f)
                * 0x100_0000 == lba
            &&& f.device & 0x40 == 0x40
            &&& f.sector_count == if count == 256 {
                0int
            } else {
                count as int
            }
        }),
{
    assert((lba as u8) + ((lba >> 8) as u8) * 0x100 + ((lba >> 16) as u8) * 0x1_0000 + ((0x40u8 | (((
    lba >> 24) as u8) & 0x0f)) & 0x0f) * 0x100_0000 == lba && (0x40u8 | (((lba >> 24) as u8)
        & 0x0f)) & 0x40 == 0x40) by (bit_vector)
        requires
            lba < 0x1000_0000u64,
    ;
    assert((count as u8) == (if count == 256u32 {
        0int
    } else {
        count as int
    })) by (bit_vector)
        requires
            1u32 <= count <= 256u32,
    ;
}

// ---------------------------------------------------------------------------
// Transfer plan
// ---------------------------------------------------------------------------

/// One command of a fragmented read or write: `sectors` sectors starting at
/// `lba`, covering `bytes` bytes of the caller's buffer.
#[derive(Clone, Copy, Debug, PartialEq, Eq, Structural)]
pub struct RwChunk {
    pub lba: u64,
    pub sectors: u32,
    pub bytes: usize,
}

/// Sector count of command `k` of a transfer of `total` sectors under a cap
/// of `cap` sectors per command: the cap for every command but possibly the
/// last, which carries the remainder.
pub open spec fn chunk_sectors(total: int, cap: int, k: int) -> int {
    if total - k * cap < cap {
        total - k * cap
    } else {
        cap
    }
}

/// Number of commands a transfer of `total` sectors is split into.
pub open spec fn plan_len(total: int, cap: int) -> int {
    if total == 0 {
        0
    } else {
        (total - 1) / cap + 1
    }
}

/// Sum of the byte counts of a transfer plan.
pub open spec fn plan_total_bytes(s: Seq<RwChunk>) -> int
    decreases s.len(),
{
    if s.len() == 0 {
        0
    } else {
        plan_total_bytes(s.drop_last()) + s.last().bytes
    }
}

proof fn lemma_plan_push(s: Seq<RwChunk>, e: RwChunk)
    ensures
        plan_total_bytes(s.push(e)) == plan_total_bytes(s) + e.bytes,
{
    assert(s.push(e).drop_last() =~= s);
}

/// Taking one more chunk of a plan adds exactly that chunk's bytes to the
/// prefix sum.
pub proof fn lemma_plan_take_push(s: Seq<RwChunk>, i: int)
    requires
        0 <= i < s.len(),
    ensures
        plan_total_bytes(s.take(i + 1)) == plan_total_bytes(s.take(i)) + s[i].bytes,
{
    assert(s.take(i + 1).drop_last() =~= s.take(i));
}

/// No prefix of a plan covers more bytes than the whole plan.
pub proof fn lemma_plan_prefix_bound(s: Seq<RwChunk>, i: int)
    requires
        0 <= i <= s.len(),
    ensures
        plan_total_bytes(s.take(i)) <= plan_total_bytes(s),
    decreases s.len() - i,
{
    if i < s.len() {
        lemma_plan_take_push(s, i);
        lemma_plan_prefix_bound(s, i + 1);
    } else {
        assert(s.take(i) =~= s);
    }
}

/// Law: a transfer of more sectors than one command may carry is split into
/// at least two commands. Together with `plan_rw`'s bound that every
/// command stays at or below the cap, this is the fragmentation guarantee:
/// a byte range spanning the per-protocol limit issues two or more
/// commands, none oversized.
pub proof fn lemma_plan_splits_over_cap(total: int, cap: int)
    requires
        1 <= cap < total,
    ensures
        plan_len(total, cap) >= 2,
{
    lemma_div_is_ordered(cap, total - 1, cap);
    lemma_fundamental_div_mod_converse(cap, cap, 1, 0);
}

/// Fragments a read or write of `nbytes` bytes starting at sector `lba`
/// into commands of at most 65536 sectors (LBA48) or 256 sectors (LBA28):
/// command `k` starts at `lba + k * cap` and carries the cap, except the
/// last, which carries the remainder. The byte counts sum to `nbytes`.
pub fn plan_rw(lba: u64, nbytes: usize, is_lba48: bool) -> (r: Vec<RwChunk>)
    requires
        nbytes % 512 == 0,
        lba + nbytes / 512 <= u64::MAX,
    ensures
        ({
            let cap = if is_lba48 {
                65536int
            } else {
                256int
            };
            let total = nbytes as int / 512;
            &&& r@.len() == plan_len(total, cap)
            &&& forall|k: int|
                0 <= k < r@.len() ==> {
                    &&& (#[trigger] r@[k]).lba == lba + k * cap
                    &&& r@[k].sectors == chunk_sectors(total, cap, k)
                    &&& 1 <= r@[k].sectors <= cap
                    &&& r@[k].bytes == r@[k].sectors * 512
                }
            &&& plan_total_bytes(r@) == nbytes
        }),
{
    let ghost cap_g: int = if is_lba48 {
        65536int
    } else {
        256int
    };
    let cap: u32 = if is_lba48 {
        65536
    } else {
        256
    };
    let total: usize = nbytes / 512;
    proof {
        lemma_fundamental_div_mod(nbytes as int, 512);
    }
    let mut r: Vec<RwChunk> = Vec::new();
    let mut start: u64 = lba;
    let mut done: usize = 0;
    while done < total
        invariant
            cap_g == cap,
            cap == if is_lba48 {
                65536u32
            } else {
                256u32
            },
            total == nbytes as int / 512,
            nbytes == total * 512,
            lba + total <= u64::MAX,
            0 <= done <= total,
            start == lba + done,
            done == r@.len() * cap_g || done == total,
            done < total ==> done == r@.len() * cap_g,
            done == total ==> r@.len() == plan_len(total as int, cap_g),
            forall|k: int|
                0 <= k < r@.len() ==> {
                    &&& (#[trigger] r@[k]).lba == lba + k * cap_g
                    &&& r@[k].sectors == chunk_sectors(total as int, cap_g, k)
                    &&& 1 <= r@[k].sectors <= cap_g
                    &&& r@[k].bytes == r@[k].sectors * 512
                },
            plan_total_bytes(r@) == done * 512,
        decreases total - done,
    {
        let left: usize = total - done;
        let count: u32 = if left < cap as usize {
            left as u32
        } else {
            cap
        };
        let bytes: usize = (count as usize) * 512;
        let ghost k = r@.len() as int;
        let chunk = RwChunk { lba: start, sectors: count, bytes };
        proof {
            lemma_plan_push(r@, chunk);
            if done + count as int == total {
                // This is the last command: the quotient that defines the
                // plan length is exactly the number of commands emitted.
                lemma_fundamental_div_mod_converse(
                    total as int - 1,
                    cap_g,
                    k,
                    total as int - 1 - k * cap_g,
                );
            }
        }
        r.push(chunk);
        start = start + (count as u64);
        done = done + (count as usize);
    }
    proof {
        if total == 0 {
            assert(r@.len() == 0);
        }
    }
    r
}

} // verus!
