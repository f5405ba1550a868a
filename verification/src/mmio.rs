//! Bit-exact model of the AHCI MMIO register file: the Generic Host Control
//! block, the 32 per-port register blocks, and every bitfield the driver
//! uses, following the AHCI 1.3 layouts.
//!
//! Each register is a plain 32-bit word wrapped in a named type whose
//! accessors carry the exact mask-and-shift formula as their contract, so a
//! reader (and the verifier) can hold every access against the on-wire
//! layout. [`AhciMmio`] is a snapshot of the whole register file as plain
//! data; a simulated controller can use it directly as its register state.

#![allow(non_snake_case)]

use vstd::prelude::*;

verus! {

// ---------------------------------------------------------------------------
// Register addressing
// ---------------------------------------------------------------------------

/// A register of the Generic Host Control block.
#[derive(Clone, Copy, Debug, PartialEq, Eq, Structural)]
pub enum HostReg {
    Cap,
    Ghc,
    Is,
    Pi,
    Vs,
    CccCtl,
    CccPorts,
    EmLoc,
    EmCtl,
    Cap2,
}

impl HostReg {
    /// Byte offset of the register from the MMIO base.
    pub open spec fn spec_offset(self) -> u32 {
        match self {
            HostReg::Cap => 0x00,
            HostReg::Ghc => 0x04,
            HostReg::Is => 0x08,
            HostReg::Pi => 0x0c,
            HostReg::Vs => 0x10,
            HostReg::CccCtl => 0x14,
            HostReg::CccPorts => 0x18,
            HostReg::EmLoc => 0x1c,
            HostReg::EmCtl => 0x20,
            HostReg::Cap2 => 0x24,
        }
    }

    pub fn offset(&self) -> (r: u32)
        ensures
            r == self.spec_offset(),
    {
        match self {
            HostReg::Cap => 0x00,
            HostReg::Ghc => 0x04,
            HostReg::Is => 0x08,
            HostReg::Pi => 0x0c,
            HostReg::Vs => 0x10,
            HostReg::CccCtl => 0x14,
            HostReg::CccPorts => 0x18,
            HostReg::EmLoc => 0x1c,
            HostReg::EmCtl => 0x20,
            HostReg::Cap2 => 0x24,
        }
    }
}

/// A 32-bit register of one port register block.
///
/// `DEVSLP`, the sole byte-wide port register, is not addressed here: the
/// driver never touches it.
#[derive(Clone, Copy, Debug, PartialEq, Eq, Structural)]
pub enum PortReg {
    Clb,
    Clbu,
    Fb,
    Fbu,
    Is,
    Ie,
    Cmd,
    Tfd,
    Sig,
    Ssts,
    Sctl,
    Serr,
    Sact,
    Ci,
    Sntf,
    Fbs,
}

impl PortReg {
    /// Byte offset of the register within its port's 0x80-byte block.
    pub open spec fn spec_offset(self) -> u32 {
        match self {
            PortReg::Clb => 0x00,
            PortReg::Clbu => 0x04,
            PortReg::Fb => 0x08,
            PortReg::Fbu => 0x0c,
            PortReg::Is => 0x10,
            PortReg::Ie => 0x14,
            PortReg::Cmd => 0x18,
            PortReg::Tfd => 0x20,
            PortReg::Sig => 0x24,
            PortReg::Ssts => 0x28,
            PortReg::Sctl => 0x2c,
            PortReg::Serr => 0x30,
            PortReg::Sact => 0x34,
            PortReg::Ci => 0x38,
            PortReg::Sntf => 0x3c,
            PortReg::Fbs => 0x40,
        }
    }

    pub fn offset(&self) -> (r: u32)
        ensures
            r == self.spec_offset(),
    {
        match self {
            PortReg::Clb => 0x00,
            PortReg::Clbu => 0x04,
            PortReg::Fb => 0x08,
            PortReg::Fbu => 0x0c,
            PortReg::Is => 0x10,
            PortReg::Ie => 0x14,
            PortReg::Cmd => 0x18,
            PortReg::Tfd => 0x20,
            PortReg::Sig => 0x24,
            PortReg::Ssts => 0x28,
            PortReg::Sctl => 0x2c,
            PortReg::Serr => 0x30,
            PortReg::Sact => 0x34,
            PortReg::Ci => 0x38,
            PortReg::Sntf => 0x3c,
            PortReg::Fbs => 0x40,
        }
    }
}

/// Byte offset of port `port`'s register block from the MMIO base:
/// the Generic Host Control occupies offsets up to 0x100, and each port
/// block is 0x80 bytes.
pub fn port_block_offset(port: u8) -> (r: u32)
    requires
        port < 32,
    ensures
        r == 0x100 + 0x80 * (port as u32),
{
    0x100 + 0x80 * (port as u32)
}

// ---------------------------------------------------------------------------
// CAP - HBA Capabilities
// ---------------------------------------------------------------------------

/// CAP - HBA Capabilities. Indicates basic capabilities of the HBA.
#[derive(Clone, Copy, Debug, PartialEq, Eq, Structural)]
pub struct CAP(pub u32);

impl CAP {
    pub fn new() -> (r: Self)
        ensures
            r.0 == 0,
    {
        CAP(0)
    }

    /// Supports Mechanical Presence Switch (bit 28).
    pub open spec fn spec_smps(self) -> bool {
        self.0 & 0x1000_0000 != 0
    }

    pub fn smps(&self) -> (r: bool)
        ensures
            r == self.spec_smps(),
    {
        self.0 & 0x1000_0000 != 0
    }

    pub fn with_smps(self, v: bool) -> (r: Self)
        ensures
            r.0 == if v { self.0 | 0x1000_0000u32 } else { self.0 & 0xefff_ffffu32 },
    {
        if v {
            CAP(self.0 | 0x1000_0000)
        } else {
            CAP(self.0 & 0xefff_ffff)
        }
    }

    /// Supports Staggered Spin-up (bit 27).
    pub open spec fn spec_sss(self) -> bool {
        self.0 & 0x0800_0000 != 0
    }

    pub fn sss(&self) -> (r: bool)
        ensures
            r == self.spec_sss(),
    {
        self.0 & 0x0800_0000 != 0
    }

    pub fn with_sss(self, v: bool) -> (r: Self)
        ensures
            r.0 == if v { self.0 | 0x0800_0000u32 } else { self.0 & 0xf7ff_ffffu32 },
    {
        if v {
            CAP(self.0 | 0x0800_0000)
        } else {
            CAP(self.0 & 0xf7ff_ffff)
        }
    }

    /// Supports Command List Override (bit 24): whether `PxCMD.CLO` can be
    /// used to clear a stuck BSY/DRQ.
    pub open spec fn spec_sclo(self) -> bool {
        self.0 & 0x0100_0000 != 0
    }

    pub fn sclo(&self) -> (r: bool)
        ensures
            r == self.spec_sclo(),
    {
        self.0 & 0x0100_0000 != 0
    }

    /// Interface Speed Support (bits 23..20).
    pub fn iss(&self) -> (r: ISS)
        ensures
            r == spec_iss_from_bits(((self.0 >> 20) & 0xf) as u8),
    {
        ISS::from_bits(#[verifier::truncate] (((self.0 >> 20) & 0xf) as u8))
    }

    /// Number of Command Slots minus one (bits 12..8).
    pub fn ncs(&self) -> (r: u8)
        ensures
            r == ((self.0 >> 8) & 0x1f) as u8,
    {
        #[verifier::truncate] (((self.0 >> 8) & 0x1f) as u8)
    }

    /// Number of Ports minus one (bits 4..0); always below 32.
    pub fn np(&self) -> (r: u8)
        ensures
            r == (self.0 & 0x1f) as u8,
            r < 32,
    {
        proof {
            let w = self.0;
            assert((w & 0x1f) < 32) by (bit_vector);
        }
        (self.0 & 0x1f) as u8
    }
}

/// The maximum speed the HBA can support on its ports.
#[derive(Clone, Copy, Debug, PartialEq, Eq, Structural)]
pub enum ISS {
    /// Reserved encoding.
    Reserved,
    /// Gen 1 (1.5 Gbps).
    Gen1,
    /// Gen 2 (3 Gbps).
    Gen2,
    /// Gen 3 (6 Gbps).
    Gen3,
}

pub open spec fn spec_iss_bits(iss: ISS) -> u8 {
    match iss {
        ISS::Reserved => 0,
        ISS::Gen1 => 1,
        ISS::Gen2 => 2,
        ISS::Gen3 => 3,
    }
}

pub open spec fn spec_iss_from_bits(bits: u8) -> ISS {
    match bits {
        1 => ISS::Gen1,
        2 => ISS::Gen2,
        3 => ISS::Gen3,
        _ => ISS::Reserved,
    }
}

impl ISS {
    pub fn into_bits(self) -> (r: u8)
        ensures
            r == spec_iss_bits(self),
    {
        match self {
            ISS::Reserved => 0,
            ISS::Gen1 => 1,
            ISS::Gen2 => 2,
            ISS::Gen3 => 3,
        }
    }

    pub fn from_bits(bits: u8) -> (r: Self)
        ensures
            r == spec_iss_from_bits(bits),
    {
        match bits {
            1 => ISS::Gen1,
            2 => ISS::Gen2,
            3 => ISS::Gen3,
            _ => ISS::Reserved,
        }
    }
}

// ---------------------------------------------------------------------------
// GHC - Global HBA Control
// ---------------------------------------------------------------------------

/// GHC - Global HBA Control. Bit 0 is HBA Reset, bit 1 is global Interrupt
/// Enable, bit 31 is AHCI Enable.
#[derive(Clone, Copy, Debug, PartialEq, Eq, Structural)]
pub struct GHC(pub u32);

impl GHC {
    pub fn new() -> (r: Self)
        ensures
            r.0 == 0,
    {
        GHC(0)
    }

    /// HBA Reset (bit 0): set by software, cleared by hardware when the
    /// internal reset completes.
    pub open spec fn spec_hr(self) -> bool {
        self.0 & 0x1 != 0
    }

    pub fn hr(&self) -> (r: bool)
        ensures
            r == self.spec_hr(),
    {
        self.0 & 0x1 != 0
    }

    pub fn with_hr(self, v: bool) -> (r: Self)
        ensures
            r.0 == if v { self.0 | 0x1u32 } else { self.0 & 0xffff_fffeu32 },
    {
        if v {
            GHC(self.0 | 0x1)
        } else {
            GHC(self.0 & 0xffff_fffe)
        }
    }

    /// Interrupt Enable (bit 1).
    pub open spec fn spec_ie(self) -> bool {
        self.0 & 0x2 != 0
    }

    pub fn ie(&self) -> (r: bool)
        ensures
            r == self.spec_ie(),
    {
        self.0 & 0x2 != 0
    }

    pub fn with_ie(self, v: bool) -> (r: Self)
        ensures
            r.0 == if v { self.0 | 0x2u32 } else { self.0 & 0xffff_fffdu32 },
    {
        if v {
            GHC(self.0 | 0x2)
        } else {
            GHC(self.0 & 0xffff_fffd)
        }
    }

    /// AHCI Enable (bit 31).
    pub open spec fn spec_ae(self) -> bool {
        self.0 & 0x8000_0000 != 0
    }

    pub fn ae(&self) -> (r: bool)
        ensures
            r == self.spec_ae(),
    {
        self.0 & 0x8000_0000 != 0
    }

    pub fn with_ae(self, v: bool) -> (r: Self)
        ensures
            r.0 == if v { self.0 | 0x8000_0000u32 } else { self.0 & 0x7fff_ffffu32 },
    {
        if v {
            GHC(self.0 | 0x8000_0000)
        } else {
            GHC(self.0 & 0x7fff_ffff)
        }
    }
}

// ---------------------------------------------------------------------------
// VS - AHCI Version
// ---------------------------------------------------------------------------

/// VS - AHCI Version, in BCD: the upper two bytes are the major version and
/// the lower two the minor (0x00010300 is version 1.3).
#[derive(Clone, Copy, Debug, PartialEq, Eq, Structural)]
pub struct VS(pub u32);

impl VS {
    pub fn major_h(&self) -> (r: u8)
        ensures
            r == (self.0 >> 24) as u8,
    {
        #[verifier::truncate] ((self.0 >> 24) as u8)
    }

    pub fn major_l(&self) -> (r: u8)
        ensures
            r == ((self.0 >> 16) & 0xff) as u8,
    {
        #[verifier::truncate] (((self.0 >> 16) & 0xff) as u8)
    }

    pub fn minor_h(&self) -> (r: u8)
        ensures
            r == ((self.0 >> 8) & 0xff) as u8,
    {
        #[verifier::truncate] (((self.0 >> 8) & 0xff) as u8)
    }

    pub fn minor_l(&self) -> (r: u8)
        ensures
            r == (self.0 & 0xff) as u8,
    {
        #[verifier::truncate] ((self.0 & 0xff) as u8)
    }
}

// ---------------------------------------------------------------------------
// CAP2 - HBA Capabilities Extended
// ---------------------------------------------------------------------------

/// CAP2 - HBA Capabilities Extended.
#[derive(Clone, Copy, Debug, PartialEq, Eq, Structural)]
pub struct CAP2(pub u32);

impl CAP2 {
    /// DevSleep Entrance from Slumber Only (bit 5).
    pub fn deso(&self) -> (r: bool)
        ensures
            r == (self.0 & 0x20 != 0),
    {
        self.0 & 0x20 != 0
    }

    /// Supports Aggressive Device Sleep Management (bit 4).
    pub fn sadm(&self) -> (r: bool)
        ensures
            r == (self.0 & 0x10 != 0),
    {
        self.0 & 0x10 != 0
    }

    /// Supports Device Sleep (bit 3).
    pub fn sds(&self) -> (r: bool)
        ensures
            r == (self.0 & 0x8 != 0),
    {
        self.0 & 0x8 != 0
    }

    /// Automatic Partial to Slumber Transitions (bit 2).
    pub fn apst(&self) -> (r: bool)
        ensures
            r == (self.0 & 0x4 != 0),
    {
        self.0 & 0x4 != 0
    }

    /// NVMHCI Present (bit 1).
    pub fn nvmp(&self) -> (r: bool)
        ensures
            r == (self.0 & 0x2 != 0),
    {
        self.0 & 0x2 != 0
    }

    /// BIOS/OS Handoff (bit 0).
    pub fn boh(&self) -> (r: bool)
        ensures
            r == (self.0 & 0x1 != 0),
    {
        self.0 & 0x1 != 0
    }
}

// ---------------------------------------------------------------------------
// PxIS / PxIE - Port Interrupt Status / Enable
// ---------------------------------------------------------------------------

/// Port interrupt bits; the same layout serves the `IS` (status) and `IE`
/// (enable) registers of a port.
#[derive(Clone, Copy, Debug, PartialEq, Eq, Structural)]
pub struct PxI(pub u32);

impl PxI {
    pub fn new() -> (r: Self)
        ensures
            r.0 == 0,
    {
        PxI(0)
    }

    /// Task File Error (bit 30).
    pub fn tfe(&self) -> (r: bool)
        ensures
            r == (self.0 & 0x4000_0000 != 0),
    {
        self.0 & 0x4000_0000 != 0
    }

    pub fn with_tfe(self, v: bool) -> (r: Self)
        ensures
            r.0 == if v { self.0 | 0x4000_0000u32 } else { self.0 & 0xbfff_ffffu32 },
    {
        if v {
            PxI(self.0 | 0x4000_0000)
        } else {
            PxI(self.0 & 0xbfff_ffff)
        }
    }

    /// Host Bus Fatal Error (bit 29).
    pub fn hbf(&self) -> (r: bool)
        ensures
            r == (self.0 & 0x2000_0000 != 0),
    {
        self.0 & 0x2000_0000 != 0
    }

    pub fn with_hbf(self, v: bool) -> (r: Self)
        ensures
            r.0 == if v { self.0 | 0x2000_0000u32 } else { self.0 & 0xdfff_ffffu32 },
    {
        if v {
            PxI(self.0 | 0x2000_0000)
        } else {
            PxI(self.0 & 0xdfff_ffff)
        }
    }

    /// Host Bus Data Error (bit 28).
    pub fn hbd(&self) -> (r: bool)
        ensures
            r == (self.0 & 0x1000_0000 != 0),
    {
        self.0 & 0x1000_0000 != 0
    }

    pub fn with_hbd(self, v: bool) -> (r: Self)
        ensures
            r.0 == if v { self.0 | 0x1000_0000u32 } else { self.0 & 0xefff_ffffu32 },
    {
        if v {
            PxI(self.0 | 0x1000_0000)
        } else {
            PxI(self.0 & 0xefff_ffff)
        }
    }

    /// Interface Fatal Error (bit 27).
    pub fn ifs(&self) -> (r: bool)
        ensures
            r == (self.0 & 0x0800_0000 != 0),
    {
        self.0 & 0x0800_0000 != 0
    }

    pub fn with_ifs(self, v: bool) -> (r: Self)
        ensures
            r.0 == if v { self.0 | 0x0800_0000u32 } else { self.0 & 0xf7ff_ffffu32 },
    {
        if v {
            PxI(self.0 | 0x0800_0000)
        } else {
            PxI(self.0 & 0xf7ff_ffff)
        }
    }

    /// Incorrect Port Multiplier status (bit 23).
    pub fn ipm(&self) -> (r: bool)
        ensures
            r == (self.0 & 0x0080_0000 != 0),
    {
        self.0 & 0x0080_0000 != 0
    }

    pub fn with_ipm(self, v: bool) -> (r: Self)
        ensures
            r.0 == if v { self.0 | 0x0080_0000u32 } else { self.0 & 0xff7f_ffffu32 },
    {
        if v {
            PxI(self.0 | 0x0080_0000)
        } else {
            PxI(self.0 & 0xff7f_ffff)
        }
    }

    /// PhyRdy Change (bit 22).
    pub fn prc(&self) -> (r: bool)
        ensures
            r == (self.0 & 0x0040_0000 != 0),
    {
        self.0 & 0x0040_0000 != 0
    }

    pub fn with_prc(self, v: bool) -> (r: Self)
        ensures
            r.0 == if v { self.0 | 0x0040_0000u32 } else { self.0 & 0xffbf_ffffu32 },
    {
        if v {
            PxI(self.0 | 0x0040_0000)
        } else {
            PxI(self.0 & 0xffbf_ffff)
        }
    }

    /// Port Connect Change (bit 6).
    pub fn pc(&self) -> (r: bool)
        ensures
            r == (self.0 & 0x40 != 0),
    {
        self.0 & 0x40 != 0
    }

    pub fn with_pc(self, v: bool) -> (r: Self)
        ensures
            r.0 == if v { self.0 | 0x40u32 } else { self.0 & 0xffff_ffbfu32 },
    {
        if v {
            PxI(self.0 | 0x40)
        } else {
            PxI(self.0 & 0xffff_ffbf)
        }
    }

    /// Descriptor Processed (bit 5).
    pub fn dp(&self) -> (r: bool)
        ensures
            r == (self.0 & 0x20 != 0),
    {
        self.0 & 0x20 != 0
    }

    pub fn with_dp(self, v: bool) -> (r: Self)
        ensures
            r.0 == if v { self.0 | 0x20u32 } else { self.0 & 0xffff_ffdfu32 },
    {
        if v {
            PxI(self.0 | 0x20)
        } else {
            PxI(self.0 & 0xffff_ffdf)
        }
    }

    /// Unknown FIS (bit 4).
    pub fn uf(&self) -> (r: bool)
        ensures
            r == (self.0 & 0x10 != 0),
    {
        self.0 & 0x10 != 0
    }

    pub fn with_uf(self, v: bool) -> (r: Self)
        ensures
            r.0 == if v { self.0 | 0x10u32 } else { self.0 & 0xffff_ffefu32 },
    {
        if v {
            PxI(self.0 | 0x10)
        } else {
            PxI(self.0 & 0xffff_ffef)
        }
    }

    /// Set Device Bits FIS received (bit 3).
    pub fn sdb(&self) -> (r: bool)
        ensures
            r == (self.0 & 0x8 != 0),
    {
        self.0 & 0x8 != 0
    }

    pub fn with_sdb(self, v: bool) -> (r: Self)
        ensures
            r.0 == if v { self.0 | 0x8u32 } else { self.0 & 0xffff_fff7u32 },
    {
        if v {
            PxI(self.0 | 0x8)
        } else {
            PxI(self.0 & 0xffff_fff7)
        }
    }

    /// DMA Setup FIS received (bit 2).
    pub fn ds(&self) -> (r: bool)
        ensures
            r == (self.0 & 0x4 != 0),
    {
        self.0 & 0x4 != 0
    }

    pub fn with_ds(self, v: bool) -> (r: Self)
        ensures
            r.0 == if v { self.0 | 0x4u32 } else { self.0 & 0xffff_fffbu32 },
    {
        if v {
            PxI(self.0 | 0x4)
        } else {
            PxI(self.0 & 0xffff_fffb)
        }
    }

    /// PIO Setup FIS received (bit 1).
    pub fn ps(&self) -> (r: bool)
        ensures
            r == (self.0 & 0x2 != 0),
    {
        self.0 & 0x2 != 0
    }

    pub fn with_ps(self, v: bool) -> (r: Self)
        ensures
            r.0 == if v { self.0 | 0x2u32 } else { self.0 & 0xffff_fffdu32 },
    {
        if v {
            PxI(self.0 | 0x2)
        } else {
            PxI(self.0 & 0xffff_fffd)
        }
    }

    /// Device-to-Host Register FIS received (bit 0).
    pub fn dhr(&self) -> (r: bool)
        ensures
            r == (self.0 & 0x1 != 0),
    {
        self.0 & 0x1 != 0
    }

    pub fn with_dhr(self, v: bool) -> (r: Self)
        ensures
            r.0 == if v { self.0 | 0x1u32 } else { self.0 & 0xffff_fffeu32 },
    {
        if v {
            PxI(self.0 | 0x1)
        } else {
            PxI(self.0 & 0xffff_fffe)
        }
    }

    /// The "all errors plus device presence" interrupt mask the driver
    /// programs into `IE` during bring-up: task-file and host-bus errors,
    /// interface errors, PhyRdy and port-connect changes, unknown FIS, and
    /// the FIS-received bits.
    pub fn default_enable() -> (r: Self)
        ensures
            r.0 == 0x78c0_005f,
    {
        proof {
            assert(0u32 | 0x4000_0000 | 0x2000_0000 | 0x1000_0000 | 0x0800_0000 | 0x0080_0000
                | 0x0040_0000 | 0x40 | 0x10 | 0x8 | 0x4 | 0x2 | 0x1 == 0x78c0_005f) by (bit_vector);
        }
        Self::new()
            .with_tfe(true)
            .with_hbf(true)
            .with_hbd(true)
            .with_ifs(true)
            .with_ipm(true)
            .with_prc(true)
            .with_pc(true)
            .with_uf(true)
            .with_sdb(true)
            .with_ds(true)
            .with_ps(true)
            .with_dhr(true)
    }
}

// ---------------------------------------------------------------------------
// PxCMD - Port Command and Status
// ---------------------------------------------------------------------------

/// PxCMD - Port Command and Status.
#[derive(Clone, Copy, Debug, PartialEq, Eq, Structural)]
pub struct PxCMD(pub u32);

impl PxCMD {
    pub fn new() -> (r: Self)
        ensures
            r.0 == 0,
    {
        PxCMD(0)
    }

    /// Start (bit 0): process the command list.
    pub open spec fn spec_st(self) -> bool {
        self.0 & 0x1 != 0
    }

    pub fn st(&self) -> (r: bool)
        ensures
            r == self.spec_st(),
    {
        self.0 & 0x1 != 0
    }

    pub fn with_st(self, v: bool) -> (r: Self)
        ensures
            r.0 == if v { self.0 | 0x1u32 } else { self.0 & 0xffff_fffeu32 },
    {
        if v {
            PxCMD(self.0 | 0x1)
        } else {
            PxCMD(self.0 & 0xffff_fffe)
        }
    }

    /// Spin-Up Device (bit 1).
    pub open spec fn spec_sud(self) -> bool {
        self.0 & 0x2 != 0
    }

    pub fn sud(&self) -> (r: bool)
        ensures
            r == self.spec_sud(),
    {
        self.0 & 0x2 != 0
    }

    pub fn with_sud(self, v: bool) -> (r: Self)
        ensures
            r.0 == if v { self.0 | 0x2u32 } else { self.0 & 0xffff_fffdu32 },
    {
        if v {
            PxCMD(self.0 | 0x2)
        } else {
            PxCMD(self.0 & 0xffff_fffd)
        }
    }

    /// Power On Device (bit 2).
    pub open spec fn spec_pod(self) -> bool {
        self.0 & 0x4 != 0
    }

    pub fn pod(&self) -> (r: bool)
        ensures
            r == self.spec_pod(),
    {
        self.0 & 0x4 != 0
    }

    pub fn with_pod(self, v: bool) -> (r: Self)
        ensures
            r.0 == if v { self.0 | 0x4u32 } else { self.0 & 0xffff_fffbu32 },
    {
        if v {
            PxCMD(self.0 | 0x4)
        } else {
            PxCMD(self.0 & 0xffff_fffb)
        }
    }

    /// Command List Override (bit 3): clears a stuck BSY/DRQ; self-clearing.
    pub open spec fn spec_clo(self) -> bool {
        self.0 & 0x8 != 0
    }

    pub fn clo(&self) -> (r: bool)
        ensures
            r == self.spec_clo(),
    {
        self.0 & 0x8 != 0
    }

    pub fn with_clo(self, v: bool) -> (r: Self)
        ensures
            r.0 == if v { self.0 | 0x8u32 } else { self.0 & 0xffff_fff7u32 },
    {
        if v {
            PxCMD(self.0 | 0x8)
        } else {
            PxCMD(self.0 & 0xffff_fff7)
        }
    }

    /// FIS Receive Enable (bit 4).
    pub open spec fn spec_fre(self) -> bool {
        self.0 & 0x10 != 0
    }

    pub fn fre(&self) -> (r: bool)
        ensures
            r == self.spec_fre(),
    {
        self.0 & 0x10 != 0
    }

    pub fn with_fre(self, v: bool) -> (r: Self)
        ensures
            r.0 == if v { self.0 | 0x10u32 } else { self.0 & 0xffff_ffefu32 },
    {
        if v {
            PxCMD(self.0 | 0x10)
        } else {
            PxCMD(self.0 & 0xffff_ffef)
        }
    }

    /// FIS Receive Running (bit 14, read-only status).
    pub open spec fn spec_fr(self) -> bool {
        self.0 & 0x4000 != 0
    }

    pub fn fr(&self) -> (r: bool)
        ensures
            r == self.spec_fr(),
    {
        self.0 & 0x4000 != 0
    }

    /// Command List Running (bit 15, read-only status).
    pub open spec fn spec_cr(self) -> bool {
        self.0 & 0x8000 != 0
    }

    pub fn cr(&self) -> (r: bool)
        ensures
            r == self.spec_cr(),
    {
        self.0 & 0x8000 != 0
    }

    /// Interface Communication Control (bits 31..28).
    pub fn icc(&self) -> (r: ICC)
        ensures
            r == spec_icc_from_bits(((self.0 >> 28) & 0xf) as u8),
    {
        ICC::from_bits(#[verifier::truncate] (((self.0 >> 28) & 0xf) as u8))
    }

    pub fn with_icc(self, icc: ICC) -> (r: Self)
        ensures
            r.0 == (self.0 & 0x0fff_ffffu32) | ((spec_icc_bits(icc) as u32) << 28),
    {
        PxCMD((self.0 & 0x0fff_ffff) | ((icc.into_bits() as u32) << 28))
    }
}

/// Interface Communication Control states.
#[derive(Clone, Copy, Debug, PartialEq, Eq, Structural)]
pub enum ICC {
    Idle,
    Active,
    Partial,
    Slumber,
    DevSleep,
    Reserved,
}

pub open spec fn spec_icc_bits(icc: ICC) -> u8 {
    match icc {
        ICC::Idle => 0x0,
        ICC::Active => 0x1,
        ICC::Partial => 0x2,
        ICC::Slumber => 0x6,
        ICC::DevSleep => 0x8,
        ICC::Reserved => 0xf,
    }
}

pub open spec fn spec_icc_from_bits(bits: u8) -> ICC {
    match bits {
        0x0 => ICC::Idle,
        0x1 => ICC::Active,
        0x2 => ICC::Partial,
        0x6 => ICC::Slumber,
        0x8 => ICC::DevSleep,
        _ => ICC::Reserved,
    }
}

impl ICC {
    pub fn into_bits(self) -> (r: u8)
        ensures
            r == spec_icc_bits(self),
    {
        match self {
            ICC::Idle => 0x0,
            ICC::Active => 0x1,
            ICC::Partial => 0x2,
            ICC::Slumber => 0x6,
            ICC::DevSleep => 0x8,
            ICC::Reserved => 0xf,
        }
    }

    pub fn from_bits(bits: u8) -> (r: Self)
        ensures
            r == spec_icc_from_bits(bits),
    {
        match bits {
            0x0 => ICC::Idle,
            0x1 => ICC::Active,
            0x2 => ICC::Partial,
            0x6 => ICC::Slumber,
            0x8 => ICC::DevSleep,
            _ => ICC::Reserved,
        }
    }
}

// ---------------------------------------------------------------------------
// PxTFD - Port Task File Data
// ---------------------------------------------------------------------------

/// PxTFD - Port Task File Data: the device's latest status and error bytes.
#[derive(Clone, Copy, Debug, PartialEq, Eq, Structural)]
pub struct PxTFD(pub u32);

impl PxTFD {
    /// Status BSY (bit 7): the device is busy.
    pub open spec fn spec_sts_bsy(self) -> bool {
        self.0 & 0x80 != 0
    }

    pub fn sts_bsy(&self) -> (r: bool)
        ensures
            r == self.spec_sts_bsy(),
    {
        self.0 & 0x80 != 0
    }

    /// Status DRQ (bit 3): the device is requesting a data transfer.
    pub open spec fn spec_sts_drq(self) -> bool {
        self.0 & 0x8 != 0
    }

    pub fn sts_drq(&self) -> (r: bool)
        ensures
            r == self.spec_sts_drq(),
    {
        self.0 & 0x8 != 0
    }

    /// Status ERR (bit 0): the latest command ended in an error.
    pub open spec fn spec_sts_err(self) -> bool {
        self.0 & 0x1 != 0
    }

    pub fn sts_err(&self) -> (r: bool)
        ensures
            r == self.spec_sts_err(),
    {
        self.0 & 0x1 != 0
    }

    /// Error byte (bits 15..8).
    pub fn err(&self) -> (r: u8)
        ensures
            r == ((self.0 >> 8) & 0xff) as u8,
    {
        #[verifier::truncate] (((self.0 >> 8) & 0xff) as u8)
    }
}

// ---------------------------------------------------------------------------
// PxSIG - Port Signature
// ---------------------------------------------------------------------------

/// PxSIG - Port Signature: the task-file contents of the first
/// device-to-host FIS.
#[derive(Clone, Copy, Debug, PartialEq, Eq, Structural)]
pub struct PxSIG(pub u32);

impl PxSIG {
    pub fn high(&self) -> (r: u8)
        ensures
            r == (self.0 >> 24) as u8,
    {
        #[verifier::truncate] ((self.0 >> 24) as u8)
    }

    pub fn mid(&self) -> (r: u8)
        ensures
            r == ((self.0 >> 16) & 0xff) as u8,
    {
        #[verifier::truncate] (((self.0 >> 16) & 0xff) as u8)
    }

    pub fn low(&self) -> (r: u8)
        ensures
            r == ((self.0 >> 8) & 0xff) as u8,
    {
        #[verifier::truncate] (((self.0 >> 8) & 0xff) as u8)
    }

    pub fn count(&self) -> (r: u8)
        ensures
            r == (self.0 & 0xff) as u8,
    {
        #[verifier::truncate] ((self.0 & 0xff) as u8)
    }
}

// ---------------------------------------------------------------------------
// PxSSTS - Port Serial ATA Status
// ---------------------------------------------------------------------------

/// PxSSTS - Port Serial ATA Status (SStatus).
#[derive(Clone, Copy, Debug, PartialEq, Eq, Structural)]
pub struct PxSSTS(pub u32);

impl PxSSTS {
    /// Device Detection (bits 3..0): 0 none, 1 presence without
    /// communication, 3 presence with PHY communication established.
    pub open spec fn spec_det(self) -> u8 {
        (self.0 & 0xf) as u8
    }

    pub fn det(&self) -> (r: u8)
        ensures
            r == self.spec_det(),
    {
        #[verifier::truncate] ((self.0 & 0xf) as u8)
    }

    /// Current Interface Speed (bits 7..4).
    pub fn spd(&self) -> (r: u8)
        ensures
            r == ((self.0 >> 4) & 0xf) as u8,
    {
        #[verifier::truncate] (((self.0 >> 4) & 0xf) as u8)
    }

    /// Interface Power Management state (bits 11..8).
    pub fn ipm(&self) -> (r: u8)
        ensures
            r == ((self.0 >> 8) & 0xf) as u8,
    {
        #[verifier::truncate] (((self.0 >> 8) & 0xf) as u8)
    }
}

// ---------------------------------------------------------------------------
// PxSERR - Port Serial ATA Error
// ---------------------------------------------------------------------------

/// PxSERR - Port Serial ATA Error (SError). Write-1-to-clear: the driver
/// clears it by writing the read value back.
#[derive(Clone, Copy, Debug, PartialEq, Eq, Structural)]
pub struct PxSERR(pub u32);

// ---------------------------------------------------------------------------
// Register file snapshots
// ---------------------------------------------------------------------------

/// Snapshot of the Generic Host Control block as plain data.
#[derive(Clone, Copy, Debug, PartialEq, Eq, Structural)]
pub struct GenericHostControl {
    pub cap: CAP,
    pub ghc: GHC,
    /// Interrupt status: bit per port with a pending interrupt.
    pub is: u32,
    /// Ports implemented: bit per usable port slot.
    pub pi: u32,
    pub vs: VS,
    pub ccc_ctl: u32,
    pub ccc_ports: u32,
    pub em_loc: u32,
    pub em_ctl: u32,
    pub cap2: CAP2,
}

impl GenericHostControl {
    pub open spec fn spec_zeroed() -> GenericHostControl {
        GenericHostControl {
            cap: CAP(0),
            ghc: GHC(0),
            is: 0,
            pi: 0,
            vs: VS(0),
            ccc_ctl: 0,
            ccc_ports: 0,
            em_loc: 0,
            em_ctl: 0,
            cap2: CAP2(0),
        }
    }

    pub fn new() -> (r: Self)
        ensures
            r == Self::spec_zeroed(),
    {
        GenericHostControl {
            cap: CAP(0),
            ghc: GHC(0),
            is: 0,
            pi: 0,
            vs: VS(0),
            ccc_ctl: 0,
            ccc_ports: 0,
            em_loc: 0,
            em_ctl: 0,
            cap2: CAP2(0),
        }
    }

    /// The raw word a read of `reg` returns.
    pub open spec fn spec_read(self, reg: HostReg) -> u32 {
        match reg {
            HostReg::Cap => self.cap.0,
            HostReg::Ghc => self.ghc.0,
            HostReg::Is => self.is,
            HostReg::Pi => self.pi,
            HostReg::Vs => self.vs.0,
            HostReg::CccCtl => self.ccc_ctl,
            HostReg::CccPorts => self.ccc_ports,
            HostReg::EmLoc => self.em_loc,
            HostReg::EmCtl => self.em_ctl,
            HostReg::Cap2 => self.cap2.0,
        }
    }

    /// The snapshot after a raw write of `v` to `reg`.
    pub open spec fn spec_written(self, reg: HostReg, v: u32) -> GenericHostControl {
        match reg {
            HostReg::Cap => GenericHostControl { cap: CAP(v), ..self },
            HostReg::Ghc => GenericHostControl { ghc: GHC(v), ..self },
            HostReg::Is => GenericHostControl { is: v, ..self },
            HostReg::Pi => GenericHostControl { pi: v, ..self },
            HostReg::Vs => GenericHostControl { vs: VS(v), ..self },
            HostReg::CccCtl => GenericHostControl { ccc_ctl: v, ..self },
            HostReg::CccPorts => GenericHostControl { ccc_ports: v, ..self },
            HostReg::EmLoc => GenericHostControl { em_loc: v, ..self },
            HostReg::EmCtl => GenericHostControl { em_ctl: v, ..self },
            HostReg::Cap2 => GenericHostControl { cap2: CAP2(v), ..self },
        }
    }

    pub fn read_reg(&self, reg: HostReg) -> (r: u32)
        ensures
            r == self.spec_read(reg),
    {
        match reg {
            HostReg::Cap => self.cap.0,
            HostReg::Ghc => self.ghc.0,
            HostReg::Is => self.is,
            HostReg::Pi => self.pi,
            HostReg::Vs => self.vs.0,
            HostReg::CccCtl => self.ccc_ctl,
            HostReg::CccPorts => self.ccc_ports,
            HostReg::EmLoc => self.em_loc,
            HostReg::EmCtl => self.em_ctl,
            HostReg::Cap2 => self.cap2.0,
        }
    }

    pub fn write_reg(&mut self, reg: HostReg, v: u32)
        ensures
            *final(self) == old(self).spec_written(reg, v),
    {
        match reg {
            HostReg::Cap => self.cap = CAP(v),
            HostReg::Ghc => self.ghc = GHC(v),
            HostReg::Is => self.is = v,
            HostReg::Pi => self.pi = v,
            HostReg::Vs => self.vs = VS(v),
            HostReg::CccCtl => self.ccc_ctl = v,
            HostReg::CccPorts => self.ccc_ports = v,
            HostReg::EmLoc => self.em_loc = v,
            HostReg::EmCtl => self.em_ctl = v,
            HostReg::Cap2 => self.cap2 = CAP2(v),
        }
    }
}

/// Snapshot of one port's register block as plain data.
#[derive(Clone, Copy, Debug, PartialEq, Eq, Structural)]
pub struct PortRegisters {
    /// Command list base address, low 32 bits.
    pub CLB: u32,
    /// Command list base address, high 32 bits.
    pub CLBU: u32,
    /// Received-FIS base address, low 32 bits.
    pub FB: u32,
    /// Received-FIS base address, high 32 bits.
    pub FBU: u32,
    /// Interrupt status.
    pub IS: PxI,
    /// Interrupt enable.
    pub IE: PxI,
    /// Command and status.
    pub CMD: PxCMD,
    /// Task file data.
    pub TFD: PxTFD,
    /// Signature.
    pub SIG: PxSIG,
    /// Serial ATA status.
    pub SSTS: PxSSTS,
    /// Serial ATA control.
    pub SCTL: u32,
    /// Serial ATA error.
    pub SERR: PxSERR,
    /// Serial ATA active.
    pub SACT: u32,
    /// Command issue: bit n asks the controller to execute slot n.
    pub CI: u32,
    /// Serial ATA notification.
    pub SNTF: u32,
    /// FIS-based switching control.
    pub FBS: u32,
    /// Device sleep (the sole byte-wide register).
    pub DEVSLP: u8,
}

impl PortRegisters {
    pub open spec fn spec_zeroed() -> PortRegisters {
        PortRegisters {
            CLB: 0,
            CLBU: 0,
            FB: 0,
            FBU: 0,
            IS: PxI(0),
            IE: PxI(0),
            CMD: PxCMD(0),
            TFD: PxTFD(0),
            SIG: PxSIG(0),
            SSTS: PxSSTS(0),
            SCTL: 0,
            SERR: PxSERR(0),
            SACT: 0,
            CI: 0,
            SNTF: 0,
            FBS: 0,
            DEVSLP: 0,
        }
    }

    pub fn new() -> (r: Self)
        ensures
            r == Self::spec_zeroed(),
    {
        PortRegisters {
            CLB: 0,
            CLBU: 0,
            FB: 0,
            FBU: 0,
            IS: PxI(0),
            IE: PxI(0),
            CMD: PxCMD(0),
            TFD: PxTFD(0),
            SIG: PxSIG(0),
            SSTS: PxSSTS(0),
            SCTL: 0,
            SERR: PxSERR(0),
            SACT: 0,
            CI: 0,
            SNTF: 0,
            FBS: 0,
            DEVSLP: 0,
        }
    }

    /// The raw word a read of `reg` returns.
    pub open spec fn spec_read(self, reg: PortReg) -> u32 {
        match reg {
            PortReg::Clb => self.CLB,
            PortReg::Clbu => self.CLBU,
            PortReg::Fb => self.FB,
            PortReg::Fbu => self.FBU,
            PortReg::Is => self.IS.0,
            PortReg::Ie => self.IE.0,
            PortReg::Cmd => self.CMD.0,
            PortReg::Tfd => self.TFD.0,
            PortReg::Sig => self.SIG.0,
            PortReg::Ssts => self.SSTS.0,
            PortReg::Sctl => self.SCTL,
            PortReg::Serr => self.SERR.0,
            PortReg::Sact => self.SACT,
            PortReg::Ci => self.CI,
            PortReg::Sntf => self.SNTF,
            PortReg::Fbs => self.FBS,
        }
    }

    /// The snapshot after a raw write of `v` to `reg`.
    pub open spec fn spec_written(self, reg: PortReg, v: u32) -> PortRegisters {
        match reg {
            PortReg::Clb => PortRegisters { CLB: v, ..self },
            PortReg::Clbu => PortRegisters { CLBU: v, ..self },
            PortReg::Fb => PortRegisters { FB: v, ..self },
            PortReg::Fbu => PortRegisters { FBU: v, ..self },
            PortReg::Is => PortRegisters { IS: PxI(v), ..self },
            PortReg::Ie => PortRegisters { IE: PxI(v), ..self },
            PortReg::Cmd => PortRegisters { CMD: PxCMD(v), ..self },
            PortReg::Tfd => PortRegisters { TFD: PxTFD(v), ..self },
            PortReg::Sig => PortRegisters { SIG: PxSIG(v), ..self },
            PortReg::Ssts => PortRegisters { SSTS: PxSSTS(v), ..self },
            PortReg::Sctl => PortRegisters { SCTL: v, ..self },
            PortReg::Serr => PortRegisters { SERR: PxSERR(v), ..self },
            PortReg::Sact => PortRegisters { SACT: v, ..self },
            PortReg::Ci => PortRegisters { CI: v, ..self },
            PortReg::Sntf => PortRegisters { SNTF: v, ..self },
            PortReg::Fbs => PortRegisters { FBS: v, ..self },
        }
    }

    pub fn read_reg(&self, reg: PortReg) -> (r: u32)
        ensures
            r == self.spec_read(reg),
    {
        match reg {
            PortReg::Clb => self.CLB,
            PortReg::Clbu => self.CLBU,
            PortReg::Fb => self.FB,
            PortReg::Fbu => self.FBU,
            PortReg::Is => self.IS.0,
            PortReg::Ie => self.IE.0,
            PortReg::Cmd => self.CMD.0,
            PortReg::Tfd => self.TFD.0,
            PortReg::Sig => self.SIG.0,
            PortReg::Ssts => self.SSTS.0,
            PortReg::Sctl => self.SCTL,
            PortReg::Serr => self.SERR.0,
            PortReg::Sact => self.SACT,
            PortReg::Ci => self.CI,
            PortReg::Sntf => self.SNTF,
            PortReg::Fbs => self.FBS,
        }
    }

    pub fn write_reg(&mut self, reg: PortReg, v: u32)
        ensures
            *final(self) == old(self).spec_written(reg, v),
    {
        match reg {
            PortReg::Clb => self.CLB = v,
            PortReg::Clbu => self.CLBU = v,
            PortReg::Fb => self.FB = v,
            PortReg::Fbu => self.FBU = v,
            PortReg::Is => self.IS = PxI(v),
            PortReg::Ie => self.IE = PxI(v),
            PortReg::Cmd => self.CMD = PxCMD(v),
            PortReg::Tfd => self.TFD = PxTFD(v),
            PortReg::Sig => self.SIG = PxSIG(v),
            PortReg::Ssts => self.SSTS = PxSSTS(v),
            PortReg::Sctl => self.SCTL = v,
            PortReg::Serr => self.SERR = PxSERR(v),
            PortReg::Sact => self.SACT = v,
            PortReg::Ci => self.CI = v,
            PortReg::Sntf => self.SNTF = v,
            PortReg::Fbs => self.FBS = v,
        }
    }
}

/// Snapshot of the whole AHCI register window: the Generic Host Control
/// block followed by 32 port register blocks.
#[derive(Clone, Copy, Debug, PartialEq, Eq)]
pub struct AhciMmio {
    pub host: GenericHostControl,
    pub ports: [PortRegisters; 32],
}

impl AhciMmio {
    pub fn new() -> (r: Self)
        ensures
            r.host == GenericHostControl::spec_zeroed(),
            forall|i: int| 0 <= i < 32 ==> r.ports[i] == PortRegisters::spec_zeroed(),
    {
        AhciMmio { host: GenericHostControl::new(), ports: [PortRegisters::new();32] }
    }

    pub fn host_read(&self, reg: HostReg) -> (r: u32)
        ensures
            r == self.host.spec_read(reg),
    {
        self.host.read_reg(reg)
    }

    pub fn host_write(&mut self, reg: HostReg, v: u32)
        ensures
            final(self).host == old(self).host.spec_written(reg, v),
            final(self).ports == old(self).ports,
    {
        self.host.write_reg(reg, v);
    }

    pub fn port_read(&self, port: u8, reg: PortReg) -> (r: u32)
        requires
            port < 32,
        ensures
            r == self.ports[port as int].spec_read(reg),
    {
        self.ports[port as usize].read_reg(reg)
    }

    pub fn port_write(&mut self, port: u8, reg: PortReg, v: u32)
        requires
            port < 32,
        ensures
            final(self).host == old(self).host,
            final(self).ports[port as int] == old(self).ports[port as int].spec_written(reg, v),
            forall|i: int| 0 <= i < 32 && i != port as int ==> final(self).ports[i] == old(
                self,
            ).ports[i],
    {
        let mut regs = self.ports[port as usize];
        regs.write_reg(reg, v);
        self.ports[port as usize] = regs;
    }
}

} // verus!
