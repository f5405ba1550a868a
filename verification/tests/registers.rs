//! Each register accessor against the on-wire AHCI layout.

use ahci_driver::mmio::{
    port_block_offset, AhciMmio, GenericHostControl, HostReg, PortReg, PortRegisters, CAP, CAP2,
    GHC, ICC, ISS, PxCMD, PxI, PxSSTS, PxTFD, VS,
};

#[test]
fn host_register_offsets() {
    assert_eq!(HostReg::Cap.offset(), 0x00);
    assert_eq!(HostReg::Ghc.offset(), 0x04);
    assert_eq!(HostReg::Is.offset(), 0x08);
    assert_eq!(HostReg::Pi.offset(), 0x0c);
    assert_eq!(HostReg::Vs.offset(), 0x10);
    assert_eq!(HostReg::CccCtl.offset(), 0x14);
    assert_eq!(HostReg::CccPorts.offset(), 0x18);
    assert_eq!(HostReg::EmLoc.offset(), 0x1c);
    assert_eq!(HostReg::EmCtl.offset(), 0x20);
    assert_eq!(HostReg::Cap2.offset(), 0x24);
}

#[test]
fn port_register_offsets() {
    assert_eq!(PortReg::Clb.offset(), 0x00);
    assert_eq!(PortReg::Clbu.offset(), 0x04);
    assert_eq!(PortReg::Fb.offset(), 0x08);
    assert_eq!(PortReg::Fbu.offset(), 0x0c);
    assert_eq!(PortReg::Is.offset(), 0x10);
    assert_eq!(PortReg::Ie.offset(), 0x14);
    assert_eq!(PortReg::Cmd.offset(), 0x18);
    assert_eq!(PortReg::Tfd.offset(), 0x20);
    assert_eq!(PortReg::Sig.offset(), 0x24);
    assert_eq!(PortReg::Ssts.offset(), 0x28);
    assert_eq!(PortReg::Sctl.offset(), 0x2c);
    assert_eq!(PortReg::Serr.offset(), 0x30);
    assert_eq!(PortReg::Sact.offset(), 0x34);
    assert_eq!(PortReg::Ci.offset(), 0x38);
    assert_eq!(PortReg::Sntf.offset(), 0x3c);
    assert_eq!(PortReg::Fbs.offset(), 0x40);
}

#[test]
fn port_blocks_start_at_0x100() {
    assert_eq!(port_block_offset(0), 0x100);
    assert_eq!(port_block_offset(1), 0x180);
    assert_eq!(port_block_offset(15), 0x880);
    assert_eq!(port_block_offset(31), 0x1080);
}

#[test]
fn cap_bit_positions() {
    // NP is bits 4..0, NCS bits 12..8, SCLO bit 24, SSS bit 27, SMPS bit 28.
    let cap = CAP(0x1f);
    assert_eq!(cap.np(), 31);
    assert_eq!(CAP(0x05).np(), 5);
    assert_eq!(CAP(0x1f00).ncs(), 31);
    assert_eq!(CAP(0x0300).ncs(), 3);
    assert!(CAP(1 << 24).sclo());
    assert!(!CAP(!(1u32 << 24)).sclo());
    assert!(CAP(1 << 27).sss());
    assert!(CAP(1 << 28).smps());
    assert_eq!(CAP::new().with_smps(true).with_sss(true).0, 0x1800_0000);
    assert_eq!(CAP(0x1800_0000).with_smps(false).0, 0x0800_0000);
}

#[test]
fn cap_interface_speed() {
    assert_eq!(CAP(1 << 20).iss(), ISS::Gen1);
    assert_eq!(CAP(2 << 20).iss(), ISS::Gen2);
    assert_eq!(CAP(3 << 20).iss(), ISS::Gen3);
    assert_eq!(CAP(0).iss(), ISS::Reserved);
}

#[test]
fn iss_bit_conversions() {
    assert_eq!(ISS::Reserved.into_bits(), 0);
    assert_eq!(ISS::Gen1.into_bits(), 1);
    assert_eq!(ISS::Gen2.into_bits(), 2);
    assert_eq!(ISS::Gen3.into_bits(), 3);
    assert_eq!(ISS::from_bits(1), ISS::Gen1);
    assert_eq!(ISS::from_bits(2), ISS::Gen2);
    assert_eq!(ISS::from_bits(3), ISS::Gen3);
    assert_eq!(ISS::from_bits(0), ISS::Reserved);
    assert_eq!(ISS::from_bits(9), ISS::Reserved);
}

#[test]
fn ghc_bit_positions() {
    // HR is bit 0, IE bit 1, AE bit 31.
    assert_eq!(GHC::new().with_hr(true).0, 0x1);
    assert_eq!(GHC::new().with_ie(true).0, 0x2);
    assert_eq!(GHC::new().with_ae(true).0, 0x8000_0000);
    let g = GHC(0x8000_0003);
    assert!(g.hr() && g.ie() && g.ae());
    assert!(!g.with_hr(false).hr());
    assert_eq!(g.with_ae(false).0, 0x3);
}

#[test]
fn vs_bcd_bytes() {
    // Version 1.3 is 0x00010300.
    let v = VS(0x0001_0300);
    assert_eq!(v.major_h(), 0);
    assert_eq!(v.major_l(), 1);
    assert_eq!(v.minor_h(), 3);
    assert_eq!(v.minor_l(), 0);
}

#[test]
fn cap2_bit_positions() {
    assert!(CAP2(0x20).deso());
    assert!(CAP2(0x10).sadm());
    assert!(CAP2(0x08).sds());
    assert!(CAP2(0x04).apst());
    assert!(CAP2(0x02).nvmp());
    assert!(CAP2(0x01).boh());
    assert!(!CAP2(0x3e).boh());
}

#[test]
fn px_interrupt_bits() {
    assert_eq!(PxI::new().with_tfe(true).0, 1 << 30);
    assert_eq!(PxI::new().with_hbf(true).0, 1 << 29);
    assert_eq!(PxI::new().with_hbd(true).0, 1 << 28);
    assert_eq!(PxI::new().with_ifs(true).0, 1 << 27);
    assert_eq!(PxI::new().with_ipm(true).0, 1 << 23);
    assert_eq!(PxI::new().with_prc(true).0, 1 << 22);
    assert_eq!(PxI::new().with_pc(true).0, 1 << 6);
    assert_eq!(PxI::new().with_dp(true).0, 1 << 5);
    assert_eq!(PxI::new().with_uf(true).0, 1 << 4);
    assert_eq!(PxI::new().with_sdb(true).0, 1 << 3);
    assert_eq!(PxI::new().with_ds(true).0, 1 << 2);
    assert_eq!(PxI::new().with_ps(true).0, 1 << 1);
    assert_eq!(PxI::new().with_dhr(true).0, 1 << 0);
    let all = PxI(0xffff_ffff);
    assert!(all.tfe() && all.hbf() && all.hbd() && all.ifs());
    assert!(all.ipm() && all.prc() && all.pc() && all.dp());
    assert!(all.uf() && all.sdb() && all.ds() && all.ps() && all.dhr());
}

#[test]
fn px_interrupt_default_enable_mask() {
    // Everything fatal plus the FIS-received bits; DP comes separately.
    let mask = PxI::default_enable();
    assert_eq!(mask.0, 0x78c0_005f);
    assert!(mask.tfe() && mask.hbf() && mask.hbd() && mask.ifs());
    assert!(mask.ipm() && mask.prc() && mask.pc() && mask.uf());
    assert!(mask.sdb() && mask.ds() && mask.ps() && mask.dhr());
    assert!(!mask.dp());
    assert_eq!(mask.with_dp(true).0, 0x78c0_007f);
}

#[test]
fn px_cmd_bit_positions() {
    // ST bit 0, SUD bit 1, POD bit 2, CLO bit 3, FRE bit 4, FR bit 14,
    // CR bit 15, ICC bits 31..28.
    assert_eq!(PxCMD::new().with_st(true).0, 0x1);
    assert_eq!(PxCMD::new().with_sud(true).0, 0x2);
    assert_eq!(PxCMD::new().with_pod(true).0, 0x4);
    assert_eq!(PxCMD::new().with_clo(true).0, 0x8);
    assert_eq!(PxCMD::new().with_fre(true).0, 0x10);
    assert!(PxCMD(1 << 14).fr());
    assert!(PxCMD(1 << 15).cr());
    assert!(!PxCMD(0).fr() && !PxCMD(0).cr());
    let started = PxCMD::new()
        .with_icc(ICC::Active)
        .with_fre(true)
        .with_pod(true)
        .with_sud(true)
        .with_st(true);
    assert_eq!(started.0, 0x1000_0017);
    assert!(started.st() && started.sud() && started.pod() && started.fre());
    assert_eq!(started.icc(), ICC::Active);
    assert_eq!(PxCMD(0x1000_0017).with_st(false).0, 0x1000_0016);
}

#[test]
fn icc_bit_conversions() {
    assert_eq!(ICC::Idle.into_bits(), 0x0);
    assert_eq!(ICC::Active.into_bits(), 0x1);
    assert_eq!(ICC::Partial.into_bits(), 0x2);
    assert_eq!(ICC::Slumber.into_bits(), 0x6);
    assert_eq!(ICC::DevSleep.into_bits(), 0x8);
    assert_eq!(ICC::Reserved.into_bits(), 0xf);
    assert_eq!(ICC::from_bits(0x0), ICC::Idle);
    assert_eq!(ICC::from_bits(0x1), ICC::Active);
    assert_eq!(ICC::from_bits(0x2), ICC::Partial);
    assert_eq!(ICC::from_bits(0x6), ICC::Slumber);
    assert_eq!(ICC::from_bits(0x8), ICC::DevSleep);
    assert_eq!(ICC::from_bits(0xf), ICC::Reserved);
    assert_eq!(ICC::from_bits(0x5), ICC::Reserved);
}

#[test]
fn px_tfd_status_bits() {
    // BSY bit 7, DRQ bit 3, ERR bit 0, error byte bits 15..8.
    assert!(PxTFD(0x80).sts_bsy());
    assert!(PxTFD(0x08).sts_drq());
    assert!(PxTFD(0x01).sts_err());
    let t = PxTFD(0x76);
    assert!(!t.sts_bsy() && !t.sts_drq() && !t.sts_err());
    assert_eq!(PxTFD(0x4100).err(), 0x41);
}

#[test]
fn px_ssts_fields() {
    let s = PxSSTS(0x0123);
    assert_eq!(s.det(), 3);
    assert_eq!(s.spd(), 2);
    assert_eq!(s.ipm(), 1);
}

#[test]
fn register_file_dispatch() {
    let mut m = AhciMmio::new();
    assert_eq!(m.host_read(HostReg::Cap), 0);
    m.host_write(HostReg::Pi, 0xf);
    assert_eq!(m.host_read(HostReg::Pi), 0xf);
    m.host_write(HostReg::Ghc, 0x8000_0002);
    assert!(m.host.ghc.ae() && m.host.ghc.ie());
    m.port_write(2, PortReg::Ci, 0x1);
    assert_eq!(m.port_read(2, PortReg::Ci), 0x1);
    assert_eq!(m.port_read(1, PortReg::Ci), 0);
    assert_eq!(m.ports[2].CI, 1);
    m.port_write(0, PortReg::Cmd, 0x1000_0017);
    assert!(m.ports[0].CMD.st());
    assert_eq!(m.port_read(0, PortReg::Cmd), 0x1000_0017);
}

#[test]
fn register_file_snapshots_start_zeroed() {
    let h = GenericHostControl::new();
    assert_eq!(h.cap.0, 0);
    assert_eq!(h.ghc.0, 0);
    assert_eq!(h.pi, 0);
    let p = PortRegisters::new();
    assert_eq!(p.CLB, 0);
    assert_eq!(p.CI, 0);
    assert_eq!(p.TFD.0, 0);
}
