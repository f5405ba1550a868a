//! The driver: per-port bring-up, single-slot command execution, and the
//! read/write pipeline that fragments a byte range into hardware-sized
//! transfers.
//!
//! All hardware access goes through a caller-supplied [`AhciBus`]. The
//! driver decides what to write and when to give up waiting; the contracts
//! pin those decisions down, while whatever the hardware answers remains the
//! bus implementation's business.

use vstd::prelude::*;

use crate::ata::{
    ata_id_has_lba48, ata_id_n_sectors, ata_id_to_string, id_words, ATA_CMD_ID_ATA,
    ATA_ID_FW_REV, ATA_ID_FW_REV_LEN, ATA_ID_PROD, ATA_ID_PROD_LEN, ATA_ID_SERNO,
    ATA_ID_SERNO_LEN, SATA_FIS_TYPE_REGISTER_H2D,
};
use crate::bus::AhciBus;
use crate::cmd::{
    build_prdt, build_rw_fis, cmd_hdr_opts, lemma_plan_prefix_bound, lemma_plan_take_push,
    lemma_u64_split, plan_rw, plan_total_bytes,
};
use crate::mmio::{HostReg, PortReg, CAP, GHC, ICC, PxCMD, PxI, PxSSTS, PxTFD};
use crate::types::{ahci_cmd_hdr, sata_fis_h2d, AHCI_MAX_BYTES_PER_CMD};

verus! {

/// How a command failed. Bring-up failures surface as `None` from the
/// constructors instead.
#[derive(Clone, Copy, Debug, PartialEq, Eq, Structural)]
pub enum CmdError {
    /// Slot 0 did not become free, or the issued command did not complete,
    /// within one second. Carries a register snapshot for diagnosis.
    Timeout { ci: u32, is: u32, tfd: u32 },
    /// The command completed but the device flagged a task-file error.
    DeviceError { tfd: u32 },
    /// The buffer exceeds the 224 MiB one command can carry.
    TooLarge,
}

/// Polls port register `reg` until `cond` accepts its value or `timeout_ms`
/// milliseconds of the bus clock pass. A true result testifies that some
/// read register value satisfied the condition; false comes only once the
/// clock has moved past the budget with every read value refused (the
/// clock's meaning belongs to the bus, so only the true side is stated).
fn poll_port<B: AhciBus, F: Fn(u32) -> bool>(
    bus: &mut B,
    port: u8,
    reg: PortReg,
    timeout_ms: u64,
    cond: F,
) -> (r: bool)
    requires
        port < 32,
        forall|v: u32| #[trigger] cond.requires((v,)),
    ensures
        r ==> exists|v: u32| cond.ensures((v,), true),
{
    let start: u64 = bus.current_ms();
    let mut spins: u64 = 0;
    loop
        invariant
            port < 32,
            forall|v: u32| #[trigger] cond.requires((v,)),
        decreases u64::MAX - spins,
    {
        let v: u32 = bus.port_read(port, reg);
        if cond(v) {
            return true;
        }
        let now: u64 = bus.current_ms();
        let elapsed: u64 = if now >= start {
            now - start
        } else {
            0
        };
        if elapsed > timeout_ms {
            return false;
        }
        if spins == u64::MAX {
            return false;
        }
        spins = spins + 1;
    }
}

/// Polls Generic Host Control register `reg`, as [`poll_port`] does.
fn poll_host<B: AhciBus, F: Fn(u32) -> bool>(
    bus: &mut B,
    reg: HostReg,
    timeout_ms: u64,
    cond: F,
) -> (r: bool)
    requires
        forall|v: u32| #[trigger] cond.requires((v,)),
    ensures
        r ==> exists|v: u32| cond.ensures((v,), true),
{
    let start: u64 = bus.current_ms();
    let mut spins: u64 = 0;
    loop
        invariant
            forall|v: u32| #[trigger] cond.requires((v,)),
        decreases u64::MAX - spins,
    {
        let v: u32 = bus.host_read(reg);
        if cond(v) {
            return true;
        }
        let now: u64 = bus.current_ms();
        let elapsed: u64 = if now >= start {
            now - start
        } else {
            0
        };
        if elapsed > timeout_ms {
            return false;
        }
        if spins == u64::MAX {
            return false;
        }
        spins = spins + 1;
    }
}

/// Places the data a completed read left in the staged region into the
/// buffer window it was read for: byte `j` of `data` lands at
/// `buf[offset + j]`, for as much of the window as `data` covers. Nothing
/// outside the window changes, nor the buffer's length, nor the window
/// beyond `data`'s end.
pub fn place_read_data(buf: &mut Vec<u8>, offset: usize, len: usize, data: &Vec<u8>)
    requires
        offset + len <= old(buf)@.len(),
    ensures
        final(buf)@.len() == old(buf)@.len(),
        forall|j: int|
            0 <= j < len && j < data@.len() ==> final(buf)@[offset + j] == data@[j],
        forall|j: int|
            0 <= j < old(buf)@.len() && !(offset <= j < offset + len) ==> final(buf)@[j] == old(
                buf,
            )@[j],
        forall|j: int|
            data@.len() <= j < len ==> #[trigger] final(buf)@[offset + j] == old(buf)@[offset
                + j],
{
    let n: usize = if data.len() < len {
        data.len()
    } else {
        len
    };
    let buf_len: usize = buf.len();
    let mut j: usize = 0;
    while j < n
        invariant
            n <= len,
            n <= data@.len(),
            j <= n,
            offset + len <= buf_len,
            buf@.len() == buf_len,
            buf@.len() == old(buf)@.len(),
            forall|q: int| 0 <= q < j ==> buf@[offset + q] == data@[q],
            forall|q: int|
                0 <= q < old(buf)@.len() && !(offset <= q < offset + j) ==> buf@[q] == old(
                    buf,
                )@[q],
        decreases n - j,
    {
        buf.set(offset + j, data[j]);
        j = j + 1;
    }
}

/// One brought-up port. Only slot 0 of its command list is ever used.
pub struct AhciPort {
    index: u8,
}

impl AhciPort {
    /// The port's slot number in the controller.
    pub closed spec fn spec_index(&self) -> u8 {
        self.index
    }

    pub open spec fn wf(&self) -> bool {
        self.spec_index() < 32
    }

    /// The port's slot number, for diagnostics.
    pub fn index(&self) -> (r: u8)
        ensures
            r == self.spec_index(),
    {
        self.index
    }

    /// Brings up port `i`: stop the engines, clear a stuck device if the
    /// controller can, spin up, wait for the link, clear stale errors,
    /// program the DMA structure addresses, start, and wait for the device
    /// to go ready. Any decisive timeout skips the port.
    pub fn try_new<B: AhciBus>(bus: &mut B, i: u8) -> (r: Option<AhciPort>)
        requires
            i < 32,
        ensures
            r is Some ==> r.unwrap().wf() && r.unwrap().spec_index() == i,
    {
        // Stop the port: clear ST, then FRE, and give the engines half a
        // second each to wind down. A timeout here is tolerated - the port
        // may already be idle.
        let cmd = PxCMD(bus.port_read(i, PortReg::Cmd));
        bus.port_write(i, PortReg::Cmd, cmd.with_st(false).with_fre(false).0);
        let _ = poll_port(bus, i, PortReg::Cmd, 500, |v: u32| !PxCMD(v).cr());
        let _ = poll_port(bus, i, PortReg::Cmd, 500, |v: u32| !PxCMD(v).fr());

        // If the device still reports busy and the controller supports
        // command-list override, use it to clear BSY/DRQ.
        let tfd = PxTFD(bus.port_read(i, PortReg::Tfd));
        if tfd.sts_bsy() || tfd.sts_drq() {
            let cap = CAP(bus.host_read(HostReg::Cap));
            if cap.sclo() {
                let cmd = PxCMD(bus.port_read(i, PortReg::Cmd));
                bus.port_write(i, PortReg::Cmd, cmd.with_clo(true).0);
                let _ = poll_port(bus, i, PortReg::Cmd, 1000, |v: u32| !PxCMD(v).clo());
            }
        }

        // Spin up.
        let cmd = PxCMD(bus.port_read(i, PortReg::Cmd));
        bus.port_write(i, PortReg::Cmd, cmd.with_sud(true).0);
        if !poll_port(bus, i, PortReg::Cmd, 1000, |v: u32| PxCMD(v).sud()) {
            return None;
        }

        // Wait for the link: detection state 1 (presence) or 3 (presence
        // with PHY communication) counts as a link.
        if !poll_port(
            bus,
            i,
            PortReg::Ssts,
            1000,
            |v: u32|
                {
                    let det = PxSSTS(v).det();
                    det == 1 || det == 3
                },
        ) {
            return None;
        }

        // Clear stale errors: SERR and the port IS are write-1-to-clear, so
        // writing the read value back clears everything set; then clear this
        // port's bit in the global interrupt status.
        let serr = bus.port_read(i, PortReg::Serr);
        bus.port_write(i, PortReg::Serr, serr);
        let pis = bus.port_read(i, PortReg::Is);
        bus.port_write(i, PortReg::Is, pis);

        // Enable the all-errors-plus-device-presence interrupt mask. The
        // driver polls; the mask readies a future interrupt-driven layer.
        bus.port_write(i, PortReg::Ie, PxI::default_enable().with_dp(true).0);
        bus.host_write(HostReg::Is, 1u32 << i);

        // The PHY must reach detection state 3 before the port is usable.
        let det = PxSSTS(bus.port_read(i, PortReg::Ssts)).det();
        if det != 3 {
            if !poll_port(bus, i, PortReg::Ssts, 1000, |v: u32| PxSSTS(v).det() == 3) {
                return None;
            }
        }

        // Program the command list and received-FIS physical addresses,
        // split across the low/high register pairs.
        let clb = bus.cmd_list_phys(i);
        proof {
            lemma_u64_split(clb);
        }
        bus.port_write(i, PortReg::Clb, (clb & 0xffff_ffff) as u32);
        bus.port_write(i, PortReg::Clbu, (clb >> 32) as u32);
        let fb = bus.rx_fis_phys(i);
        proof {
            lemma_u64_split(fb);
        }
        bus.port_write(i, PortReg::Fb, (fb & 0xffff_ffff) as u32);
        bus.port_write(i, PortReg::Fbu, (fb >> 32) as u32);

        // Start the port in a single store. BSY is deliberately not checked
        // before this: some devices hold it briefly right after spin-up and
        // clear it only once started.
        bus.port_write(
            i,
            PortReg::Cmd,
            PxCMD::new()
                .with_icc(ICC::Active)
                .with_fre(true)
                .with_pod(true)
                .with_sud(true)
                .with_st(true)
                .0,
        );

        // Ready when BSY, DRQ and ERR are all clear.
        if !poll_port(
            bus,
            i,
            PortReg::Tfd,
            1000,
            |v: u32|
                {
                    let t = PxTFD(v);
                    !(t.sts_err() || t.sts_drq() || t.sts_bsy())
                },
        ) {
            return None;
        }

        Some(AhciPort { index: i })
    }

    /// Issues one ATA command on slot 0 and waits for it to complete: wait
    /// for the slot, write the command FIS, build the scatter-gather table
    /// over `buf[offset .. offset + len]`, install the command header, issue,
    /// and poll the command-issue bit. On a read, the device-written bytes
    /// are copied back into the buffer window; no byte outside the window
    /// changes, and on a write or any failure the buffer is untouched.
    pub fn exec_cmd<B: AhciBus>(
        &self,
        bus: &mut B,
        cfis: sata_fis_h2d,
        buf: &mut Vec<u8>,
        offset: usize,
        len: usize,
        is_write: bool,
    ) -> (r: Result<(), CmdError>)
        requires
            self.wf(),
            offset + len <= old(buf)@.len(),
        ensures
            final(buf)@.len() == old(buf)@.len(),
            forall|j: int|
                0 <= j < old(buf)@.len() && !(offset <= j < offset + len) ==> final(buf)@[j]
                    == old(buf)@[j],
            is_write ==> final(buf)@ == old(buf)@,
            !(r is Ok) ==> final(buf)@ == old(buf)@,
            r == Err::<(), CmdError>(CmdError::TooLarge) ==> len > AHCI_MAX_BYTES_PER_CMD,
            len > AHCI_MAX_BYTES_PER_CMD ==> r is Err,
    {
        // Wait for slot 0 to be free before touching the command table.
        if !poll_port(bus, self.index, PortReg::Ci, 1000, |v: u32| v & 1 == 0) {
            let ci = bus.port_read(self.index, PortReg::Ci);
            let is = bus.port_read(self.index, PortReg::Is);
            let tfd = bus.port_read(self.index, PortReg::Tfd);
            return Err(CmdError::Timeout { ci, is, tfd });
        }

        if len > AHCI_MAX_BYTES_PER_CMD {
            return Err(CmdError::TooLarge);
        }

        // The caller's FIS goes to offset 0 of the command table.
        bus.write_cmd_fis(self.index, &cfis);

        // Scatter-gather list: one entry per started 4 MiB segment. The
        // size check above bounds the entry count by the table's 56 slots.
        let mut sg_cnt: usize = 0;
        if len > 0 {
            let phys = bus.dma_prepare(buf, offset, len);
            let prdt = build_prdt(phys, len);
            sg_cnt = prdt.len();
            let mut k: usize = 0;
            while k < sg_cnt
                invariant
                    self.wf(),
                    sg_cnt == prdt@.len(),
                    sg_cnt <= 56,
                    k <= sg_cnt,
                decreases sg_cnt - k,
            {
                bus.write_prd(self.index, k, &prdt[k]);
                k = k + 1;
            }
        }

        // Install the command header in slot 0 and publish everything to
        // the device before issuing.
        let opts = cmd_hdr_opts(sg_cnt, is_write);
        let tbl = bus.cmd_tbl_phys(self.index);
        proof {
            lemma_u64_split(tbl);
        }
        let hdr = ahci_cmd_hdr {
            opts,
            status: 0,
            tbl_addr_lo: (tbl & 0xffff_ffff) as u32,
            tbl_addr_hi: (tbl >> 32) as u32,
            reserved: [0, 0, 0, 0],
        };
        bus.write_cmd_header(self.index, 0, &hdr);
        bus.flush_dcache();

        // Issue slot 0 and await completion.
        bus.port_write(self.index, PortReg::Ci, 0x1);
        if !poll_port(bus, self.index, PortReg::Ci, 1000, |v: u32| v & 1 == 0) {
            let ci = bus.port_read(self.index, PortReg::Ci);
            let is = bus.port_read(self.index, PortReg::Is);
            let tfd = bus.port_read(self.index, PortReg::Tfd);
            bus.flush_dcache();
            return Err(CmdError::Timeout { ci, is, tfd });
        }
        bus.flush_dcache();

        // Completion with a task-file error is a device error.
        let tfd = PxTFD(bus.port_read(self.index, PortReg::Tfd));
        if tfd.sts_err() {
            return Err(CmdError::DeviceError { tfd: tfd.0 });
        }

        // On a read, bring the device-written bytes back into the window;
        // `place_read_data`'s contract pins where each byte lands.
        if !is_write && len > 0 {
            let data = bus.dma_retrieve(len);
            place_read_data(buf, offset, len, &data);
        }

        Ok(())
    }
}

/// The driver: one controller, one bound port, and the identity the
/// device's IDENTIFY page reported.
pub struct AhciDriver<B: AhciBus> {
    bus: B,
    port: AhciPort,
    block_size: usize,
    max_lba: u64,
    is_lba48: bool,
    product: Vec<u8>,
    serial: Vec<u8>,
    firmware: Vec<u8>,
}

impl<B: AhciBus> AhciDriver<B> {
    pub closed spec fn spec_block_size(&self) -> usize {
        self.block_size
    }

    pub closed spec fn spec_max_lba(&self) -> u64 {
        self.max_lba
    }

    pub closed spec fn spec_is_lba48(&self) -> bool {
        self.is_lba48
    }

    pub closed spec fn spec_product(&self) -> Seq<u8> {
        self.product@
    }

    pub closed spec fn spec_serial(&self) -> Seq<u8> {
        self.serial@
    }

    pub closed spec fn spec_firmware(&self) -> Seq<u8> {
        self.firmware@
    }

    /// Well-formed: the sector size is 512 and the bound port index is a
    /// valid slot. Established by `try_new` and preserved by every method.
    pub closed spec fn wf(&self) -> bool {
        self.spec_block_size() == 512 && self.port.wf()
    }

    /// Brings up the controller on the given bus: reset, enable AHCI mode,
    /// seed the capability and port-implemented registers, probe every port
    /// the controller advertises and bind the last that comes up, then
    /// IDENTIFY the device and decode its capacity, addressing mode and
    /// identity strings. Returns nothing if the reset times out or no port
    /// produces a working device.
    pub fn try_new(bus: B) -> (r: Option<Self>)
        ensures
            r is Some ==> r.unwrap().wf() && r.unwrap().spec_block_size() == 512,
    {
        let mut bus = bus;

        // Reset the controller; hardware clears HR when the reset is done.
        let g = GHC(bus.host_read(HostReg::Ghc));
        bus.host_write(HostReg::Ghc, g.with_hr(true).0);
        if !poll_host(&mut bus, HostReg::Ghc, 1000, |v: u32| !GHC(v).hr()) {
            return None;
        }

        // Enable AHCI mode, then let the controller settle for a moment.
        let g = GHC(bus.host_read(HostReg::Ghc));
        bus.host_write(HostReg::Ghc, g.with_ae(true).0);
        let _ = poll_host(&mut bus, HostReg::Ghc, 1, |_v: u32| false);

        // Seed the capability register and the port bitmap: some emulated
        // controllers do not populate them from firmware.
        bus.host_write(HostReg::Cap, CAP::new().with_smps(true).with_sss(true).0);
        bus.host_write(HostReg::Pi, 0xf);

        // Global interrupt enable.
        let g = GHC(bus.host_read(HostReg::Ghc));
        bus.host_write(HostReg::Ghc, g.with_ie(true).0);

        // Probe every advertised port; the driver binds a single device, so
        // the last port that comes up wins.
        let cap = CAP(bus.host_read(HostReg::Cap));
        let np = cap.np();
        let mut port: Option<AhciPort> = None;
        let mut i: u8 = 0;
        while i < np + 1
            invariant
                np < 32,
                i <= np + 1,
                port is Some ==> port.unwrap().wf(),
            decreases np + 1 - i,
        {
            if let Some(p) = AhciPort::try_new(&mut bus, i) {
                port = Some(p);
            }
            i = i + 1;
        }
        let port = match port {
            Some(p) => p,
            None => {
                return None;
            },
        };

        // IDENTIFY DEVICE into a 512-byte buffer. A command failure leaves
        // the buffer zeroed, and with it an empty identity and capacity 0;
        // bring-up itself still succeeds.
        let mut id: Vec<u8> = Vec::new();
        while id.len() < 512
            invariant
                id@.len() <= 512,
            decreases 512 - id@.len(),
        {
            id.push(0);
        }
        let mut fis = sata_fis_h2d::default();
        fis.fis_type = SATA_FIS_TYPE_REGISTER_H2D;
        fis.pm_port_c = 0x80;
        fis.command = ATA_CMD_ID_ATA;
        let _ = port.exec_cmd(&mut bus, fis, &mut id, 0, 512, false);

        let words = id_words(&id);
        let product = ata_id_to_string(&words, ATA_ID_PROD, ATA_ID_PROD_LEN);
        let serial = ata_id_to_string(&words, ATA_ID_SERNO, ATA_ID_SERNO_LEN);
        let firmware = ata_id_to_string(&words, ATA_ID_FW_REV, ATA_ID_FW_REV_LEN);
        let max_lba = ata_id_n_sectors(&words);
        let is_lba48 = ata_id_has_lba48(&words);

        Some(
            AhciDriver {
                bus,
                port,
                block_size: 512,
                max_lba,
                is_lba48,
                product,
                serial,
                firmware,
            },
        )
    }

    /// The addressable sector count the device reported.
    pub fn capacity(&self) -> (r: u64)
        ensures
            r == self.spec_max_lba(),
    {
        self.max_lba
    }

    /// Bytes per sector.
    pub fn block_size(&self) -> (r: usize)
        ensures
            r == self.spec_block_size(),
    {
        self.block_size
    }

    /// Whether the device supports 48-bit addressing.
    pub fn is_lba48(&self) -> (r: bool)
        ensures
            r == self.spec_is_lba48(),
    {
        self.is_lba48
    }

    /// The model string from IDENTIFY, byte-swapped and trimmed.
    pub fn product(&self) -> (r: &Vec<u8>)
        ensures
            r@ == self.spec_product(),
    {
        &self.product
    }

    /// The serial number string from IDENTIFY, byte-swapped and trimmed.
    pub fn serial(&self) -> (r: &Vec<u8>)
        ensures
            r@ == self.spec_serial(),
    {
        &self.serial
    }

    /// The firmware revision string from IDENTIFY, byte-swapped and trimmed.
    pub fn firmware(&self) -> (r: &Vec<u8>)
        ensures
            r@ == self.spec_firmware(),
    {
        &self.firmware
    }

    /// Reads `buf.len()` bytes starting at sector `block_id` into `buf`.
    /// The transfer is fragmented per the sector cap of the device's
    /// addressing mode, so an oversized-buffer error cannot occur.
    pub fn read(&mut self, block_id: u64, buf: &mut Vec<u8>) -> (r: Result<(), CmdError>)
        requires
            old(self).wf(),
            old(buf)@.len() % 512 == 0,
            block_id + old(buf)@.len() / 512 <= u64::MAX,
        ensures
            final(self).wf(),
            final(self).spec_max_lba() == old(self).spec_max_lba(),
            final(self).spec_is_lba48() == old(self).spec_is_lba48(),
            final(buf)@.len() == old(buf)@.len(),
            r != Err::<(), CmdError>(CmdError::TooLarge),
            old(buf)@.len() == 0 ==> r is Ok && final(buf)@ == old(buf)@,
    {
        self.rw_common(block_id, buf, false)
    }

    /// Writes `buf` to the device starting at sector `block_id`, fragmented
    /// the same way reads are.
    pub fn write(&mut self, block_id: u64, buf: &Vec<u8>) -> (r: Result<(), CmdError>)
        requires
            old(self).wf(),
            buf@.len() % 512 == 0,
            block_id + buf@.len() / 512 <= u64::MAX,
        ensures
            final(self).wf(),
            final(self).spec_max_lba() == old(self).spec_max_lba(),
            final(self).spec_is_lba48() == old(self).spec_is_lba48(),
            r != Err::<(), CmdError>(CmdError::TooLarge),
            buf@.len() == 0 ==> r is Ok,
    {
        // The device only reads the data; work on a copy so the borrow
        // stays shared for the caller.
        let mut data: Vec<u8> = Vec::new();
        let mut i: usize = 0;
        while i < buf.len()
            invariant
                i <= buf@.len(),
                data@ == buf@.take(i as int),
            decreases buf@.len() - i,
        {
            data.push(buf[i]);
            i = i + 1;
        }
        proof {
            assert(data@ =~= buf@);
        }
        self.rw_common(block_id, &mut data, true)
    }

    /// Fragments the byte range into commands of at most 65536 (LBA48) or
    /// 256 (LBA28) sectors and executes them in order, stopping at the
    /// first failure.
    fn rw_common(&mut self, block_id: u64, buf: &mut Vec<u8>, is_write: bool) -> (r: Result<
        (),
        CmdError,
    >)
        requires
            old(self).wf(),
            old(buf)@.len() % 512 == 0,
            block_id + old(buf)@.len() / 512 <= u64::MAX,
        ensures
            final(self).wf(),
            final(self).spec_max_lba() == old(self).spec_max_lba(),
            final(self).spec_is_lba48() == old(self).spec_is_lba48(),
            final(buf)@.len() == old(buf)@.len(),
            is_write ==> final(buf)@ == old(buf)@,
            r != Err::<(), CmdError>(CmdError::TooLarge),
            old(buf)@.len() == 0 ==> r is Ok && final(buf)@ == old(buf)@,
    {
        let is_lba48 = self.is_lba48;
        let nbytes: usize = buf.len();
        let plan = plan_rw(block_id, nbytes, is_lba48);
        let ghost plan_seq = plan@;
        let ghost cap: int = if is_lba48 {
            65536int
        } else {
            256int
        };
        let n: usize = plan.len();
        let mut offset: usize = 0;
        let mut idx: usize = 0;
        while idx < n
            invariant
                self.wf(),
                self.spec_max_lba() == old(self).spec_max_lba(),
                self.spec_is_lba48() == old(self).spec_is_lba48(),
                is_lba48 == self.spec_is_lba48(),
                cap == if is_lba48 {
                    65536int
                } else {
                    256int
                },
                buf@.len() == old(buf)@.len(),
                buf@.len() == nbytes,
                is_write ==> buf@ == old(buf)@,
                plan@ == plan_seq,
                n == plan_seq.len(),
                idx <= n,
                offset == plan_total_bytes(plan_seq.take(idx as int)),
                plan_total_bytes(plan_seq) == nbytes,
                forall|k: int|
                    0 <= k < plan_seq.len() ==> {
                        &&& 1 <= (#[trigger] plan_seq[k]).sectors <= cap
                        &&& plan_seq[k].bytes == plan_seq[k].sectors * 512
                    },
            decreases n - idx,
        {
            proof {
                lemma_plan_take_push(plan_seq, idx as int);
                lemma_plan_prefix_bound(plan_seq, idx as int + 1);
                assert(1 <= plan_seq[idx as int].sectors <= cap);
                assert(plan_seq[idx as int].bytes == plan_seq[idx as int].sectors * 512);
                // A command of at most 65536 sectors is far below the
                // 224 MiB transfer cap, so it can never be rejected as
                // oversized.
                assert(AHCI_MAX_BYTES_PER_CMD == 56 * 0x40_0000);
            }
            let chunk = plan[idx];
            let fis = build_rw_fis(chunk.lba, chunk.sectors, is_lba48, is_write);
            let res = self.port.exec_cmd(&mut self.bus, fis, buf, offset, chunk.bytes, is_write);
            if let Err(e) = res {
                return Err(e);
            }
            offset = offset + chunk.bytes;
            idx = idx + 1;
        }
        Ok(())
    }
}

} // verus!
