//! DWC2 host controller driver: initialization, port control and the transfer API.
//!
//! The driver does not touch the controller itself: each operation yields the register
//! operations (`BusOp`) to perform, in order, and decisions that depend on what a
//! register reads are taken by functions that are handed the value read.
use vstd::prelude::*;
use crate::regs::{
    base_fits, modified, BusOp, HCCHAR_CHDIS, HCCHAR_CHEN, EPTYPE_CONTROL, EPTYPE_INTERRUPT, GAHBCFG, GAHBCFG_GLBLINTRMSK, GCCFG,
    GCCFG_BVALID, GCCFG_PWRDOWN, GCCFG_VBUSVLD, GINTMSK, GINTSTS, GNPTXFSIZ, GRSTCTL,
    GRSTCTL_AHBIDLE, GRSTCTL_CSRST, GRXFSIZ, GUSBCFG, GUSBCFG_FDMOD, GUSBCFG_FHMOD, HCCHAR, HCFG,
    HCTSIZ_PID_DATA0, HCTSIZ_PID_DATA1, HCTSIZ_PID_SETUP, HPRT0, HPRT0_PRTCONNSTS, HPRT0_PRTPWR,
    HPRT0_PRTRST, HPRT0_PRTSPD_MASK, HPRT0_W1C_MASK, REG_SPAN,
};
use crate::channel::{
    channel_interrupt_mask, configure_channel, do_transfer, hcchar_value, spec_ch_reg,
    transfer_ops, transfer_size_value, CH_CONTROL, CH_INTERRUPT,
};

verus! {

/// Port speed codes of HPRT0: high, full and low speed.
pub const SPEED_HIGH: u32 = 0;
pub const SPEED_FULL: u32 = 1;
pub const SPEED_LOW: u32 = 2;

/// Number of register reads each wait of a core reset gets.
pub const RESET_TRIES: u32 = 1_000_000;

/// A DWC2 host controller at a base address, with the speed of its root port.
pub struct Dwc2Hcd {
    base: usize,
    port_speed: u32,
}

/// One transfer phase on a host channel: perform `ops`, then wait for channel `ch` to
/// complete (see `wait_channel_complete`). A transfer made of several phases runs them in
/// order and fails at the first phase that fails (see `TransferRun`).
pub struct Stage {
    pub ops: Vec<BusOp>,
    pub ch: usize,
}

/// The operations of a control phase on channel 0: configure the channel for endpoint 0
/// of `dev_addr` in direction `dir_in`, then start a transfer.
pub open spec fn control_phase_ops(
    base: usize,
    dev_addr: u8,
    dir_in: bool,
    low_speed: bool,
    pid: u32,
    dma: Option<u32>,
    len: usize,
) -> Seq<BusOp> {
    seq![BusOp::Write {
        addr: spec_ch_reg(base, CH_CONTROL, HCCHAR) as usize,
        value: hcchar_value(dev_addr, 0, dir_in, EPTYPE_CONTROL, 64, low_speed),
    }] + transfer_ops(base, CH_CONTROL, pid, dma, len)
}

/// What a list of transfer phases does: the operations and channel of each phase.
pub open spec fn plan(stages: Seq<Stage>) -> Seq<(Seq<BusOp>, usize)> {
    stages.map_values(|s: Stage| (s.ops@, s.ch))
}

/// The phases of a control transfer with an optional DATA IN phase (see
/// `Dwc2Hcd::control_transfer_in`).
pub open spec fn control_in_plan(
    base: usize,
    dev_addr: u8,
    low_speed: bool,
    setup_dma: u32,
    data_dma: u32,
    data_len: usize,
) -> Seq<(Seq<BusOp>, usize)> {
    let setup = (control_phase_ops(base, dev_addr, false, low_speed, HCTSIZ_PID_SETUP, Some(setup_dma), 8), CH_CONTROL);
    let data = (control_phase_ops(base, dev_addr, true, low_speed, HCTSIZ_PID_DATA1, Some(data_dma), data_len), CH_CONTROL);
    let status = (control_phase_ops(base, dev_addr, false, low_speed, HCTSIZ_PID_DATA1, None, 0), CH_CONTROL);
    if data_len > 0 {
        seq![setup, data, status]
    } else {
        seq![setup, status]
    }
}

/// The phases of a control transfer without data (see
/// `Dwc2Hcd::control_transfer_out_nodata`).
pub open spec fn control_out_plan(base: usize, dev_addr: u8, low_speed: bool, setup_dma: u32) -> Seq<(Seq<BusOp>, usize)> {
    seq![
        (control_phase_ops(base, dev_addr, false, low_speed, HCTSIZ_PID_SETUP, Some(setup_dma), 8), CH_CONTROL),
        (control_phase_ops(base, dev_addr, true, low_speed, HCTSIZ_PID_DATA1, None, 0), CH_CONTROL),
    ]
}

/// The PID bits of a data phase with the given data toggle.
pub open spec fn data_pid(toggle: bool) -> u32 {
    if toggle { HCTSIZ_PID_DATA1 } else { HCTSIZ_PID_DATA0 }
}

/// Where a core reset stands.
#[derive(Debug, Clone, Copy, PartialEq, Eq, Structural)]
pub enum CoreResetPhase {
    /// Waiting for the AHB master to go idle, with `tries` reads left.
    WaitIdle { tries: u32 },
    /// Waiting for the soft reset to clear, with `tries` reads left.
    WaitReset { tries: u32 },
    /// The reset is over; it succeeded when `ok` holds.
    Over { ok: bool },
}

/// A core reset in progress. Its caller reads GRSTCTL (at `grstctl`) and hands the
/// value to `step` until the reset is over.
pub struct CoreReset {
    pub grstctl: usize,
    pub phase: CoreResetPhase,
}

/// What a core reset asks after a read of GRSTCTL.
pub enum CoreResetStep {
    /// Perform `ops`, then read GRSTCTL again.
    Continue { ops: Vec<BusOp> },
    /// Perform `ops`; the reset is over and succeeded when `ok` holds.
    Finish { ops: Vec<BusOp>, ok: bool },
}

/// The most register reads a core reset in this phase still takes.
pub open spec fn reset_reads_left(phase: CoreResetPhase) -> int {
    match phase {
        CoreResetPhase::WaitIdle { tries } => tries + RESET_TRIES + 1,
        CoreResetPhase::WaitReset { tries } => tries as int,
        CoreResetPhase::Over { .. } => 0,
    }
}

impl CoreReset {
    /// Takes in one read of GRSTCTL.
    ///
    /// While waiting for idle: once the AHB master is idle the soft reset bit is set and
    /// the wait for the reset begins, with a fresh count of tries; with no try left the
    /// reset fails. While waiting for the reset: once the soft reset bit has cleared the
    /// reset succeeds after a 100 ms settling delay; with no try left it fails.
    pub fn step(&mut self, grstctl: u32) -> (r: CoreResetStep)
        ensures
            final(self).grstctl == old(self).grstctl,
            match r {
                CoreResetStep::Continue { .. } => reset_reads_left(final(self).phase)
                    < reset_reads_left(old(self).phase),
                CoreResetStep::Finish { ok, .. } => final(self).phase == (CoreResetPhase::Over { ok }),
            },
            match old(self).phase {
                CoreResetPhase::WaitIdle { tries } => if grstctl & GRSTCTL_AHBIDLE != 0 {
                    &&& final(self).phase == (CoreResetPhase::WaitReset { tries: RESET_TRIES })
                    &&& r matches CoreResetStep::Continue { ops }
                    &&& ops@ == seq![BusOp::Modify { addr: old(self).grstctl, clear: 0, set: GRSTCTL_CSRST }]
                } else if tries <= 1 {
                    r matches CoreResetStep::Finish { ops, ok } && !ok && ops@.len() == 0
                } else {
                    &&& final(self).phase == (CoreResetPhase::WaitIdle { tries: (tries - 1) as u32 })
                    &&& r matches CoreResetStep::Continue { ops }
                    &&& ops@.len() == 0
                },
                CoreResetPhase::WaitReset { tries } => if grstctl & GRSTCTL_CSRST == 0 {
                    r matches CoreResetStep::Finish { ops, ok } && ok && ops@ == seq![BusOp::Delay { ms: 100 }]
                } else if tries <= 1 {
                    r matches CoreResetStep::Finish { ops, ok } && !ok && ops@.len() == 0
                } else {
                    &&& final(self).phase == (CoreResetPhase::WaitReset { tries: (tries - 1) as u32 })
                    &&& r matches CoreResetStep::Continue { ops }
                    &&& ops@.len() == 0
                },
                CoreResetPhase::Over { ok } => r matches CoreResetStep::Finish { ops, ok: ok2 } && ok2 == ok
                    && ops@.len() == 0,
            },
    {
        let mut ops: Vec<BusOp> = Vec::new();
        match self.phase {
            CoreResetPhase::WaitIdle { tries } => {
                if grstctl & GRSTCTL_AHBIDLE != 0 {
                    ops.push(BusOp::Modify { addr: self.grstctl, clear: 0, set: GRSTCTL_CSRST });
                    self.phase = CoreResetPhase::WaitReset { tries: RESET_TRIES };
                    CoreResetStep::Continue { ops }
                } else if tries <= 1 {
                    self.phase = CoreResetPhase::Over { ok: false };
                    CoreResetStep::Finish { ops, ok: false }
                } else {
                    self.phase = CoreResetPhase::WaitIdle { tries: tries - 1 };
                    CoreResetStep::Continue { ops }
                }
            },
            CoreResetPhase::WaitReset { tries } => {
                if grstctl & GRSTCTL_CSRST == 0 {
                    ops.push(BusOp::Delay { ms: 100 });
                    self.phase = CoreResetPhase::Over { ok: true };
                    CoreResetStep::Finish { ops, ok: true }
                } else if tries <= 1 {
                    self.phase = CoreResetPhase::Over { ok: false };
                    CoreResetStep::Finish { ops, ok: false }
                } else {
                    self.phase = CoreResetPhase::WaitReset { tries: tries - 1 };
                    CoreResetStep::Continue { ops }
                }
            },
            CoreResetPhase::Over { ok } => CoreResetStep::Finish { ops, ok },
        }
    }
}

/// The operations that power up the PHY.
pub open spec fn phy_init_ops(base: usize) -> Seq<BusOp> {
    seq![
        BusOp::Modify {
            addr: (base + GCCFG) as usize,
            clear: GCCFG_PWRDOWN,
            set: GCCFG_VBUSVLD | GCCFG_BVALID,
        },
        BusOp::Delay { ms: 50 },
    ]
}

/// The operations that put the core in host mode.
pub open spec fn host_init_ops(base: usize) -> Seq<BusOp> {
    seq![
        BusOp::Modify { addr: (base + GUSBCFG) as usize, clear: GUSBCFG_FDMOD, set: GUSBCFG_FHMOD },
        BusOp::Delay { ms: 50 },
        BusOp::Write { addr: (base + GRXFSIZ) as usize, value: 256 },
        BusOp::Write { addr: (base + GNPTXFSIZ) as usize, value: (256u32 << 16) | 256 },
        BusOp::Modify { addr: (base + HCFG) as usize, clear: 0x3, set: 0 },
        BusOp::Write { addr: (base + GINTSTS) as usize, value: 0xFFFF_FFFF },
        BusOp::Write { addr: (base + GINTMSK) as usize, value: (1u32 << 24) | (1u32 << 25) },
        BusOp::Modify { addr: (base + GAHBCFG) as usize, clear: 0, set: GAHBCFG_GLBLINTRMSK },
        BusOp::Modify { addr: (base + HPRT0) as usize, clear: HPRT0_W1C_MASK, set: HPRT0_PRTPWR },
        BusOp::Delay { ms: 50 },
    ]
}

/// The operations that reset the root port.
pub open spec fn port_reset_ops(base: usize) -> Seq<BusOp> {
    seq![
        BusOp::Modify { addr: (base + HPRT0) as usize, clear: HPRT0_W1C_MASK, set: HPRT0_PRTRST },
        BusOp::Delay { ms: 60 },
        BusOp::Modify { addr: (base + HPRT0) as usize, clear: HPRT0_W1C_MASK | HPRT0_PRTRST, set: 0 },
        BusOp::Delay { ms: 20 },
    ]
}

/// A read-modify-write of HPRT0 made while initializing the host or resetting the port
/// never writes a change bit (write-1-to-clear) back as 1, whatever the register held,
/// and neither sequence writes HPRT0 outright.
pub proof fn lemma_port_change_bits_kept(base: usize, v: u32)
    requires
        base_fits(base),
    ensures
        forall|k: int| 0 <= k < host_init_ops(base).len()
            && (#[trigger] host_init_ops(base)[k] matches BusOp::Modify { addr, clear, set } && addr == (base + HPRT0) as usize)
            ==> modified(v, host_init_ops(base)[k]->clear, host_init_ops(base)[k]->set) & HPRT0_W1C_MASK == 0,
        forall|k: int| 0 <= k < port_reset_ops(base).len()
            && (#[trigger] port_reset_ops(base)[k] matches BusOp::Modify { addr, clear, set } && addr == (base + HPRT0) as usize)
            ==> modified(v, port_reset_ops(base)[k]->clear, port_reset_ops(base)[k]->set) & HPRT0_W1C_MASK == 0,
        forall|k: int| 0 <= k < host_init_ops(base).len() ==> !(#[trigger] host_init_ops(base)[k] matches BusOp::Write { addr, .. } && addr == (base + HPRT0) as usize),
        forall|k: int| 0 <= k < port_reset_ops(base).len() ==> !(#[trigger] port_reset_ops(base)[k] matches BusOp::Write { addr, .. } && addr == (base + HPRT0) as usize),
{
    assert(forall|v: u32| #[trigger] modified(v, HPRT0_W1C_MASK, HPRT0_PRTPWR) & HPRT0_W1C_MASK == 0) by (bit_vector);
    assert(forall|v: u32| #[trigger] modified(v, HPRT0_W1C_MASK, HPRT0_PRTRST) & HPRT0_W1C_MASK == 0) by (bit_vector);
    assert(forall|v: u32| #[trigger] modified(v, HPRT0_W1C_MASK | HPRT0_PRTRST, 0) & HPRT0_W1C_MASK == 0) by (bit_vector);
}

/// Whether `ops` is a phase on host channel `ch` of the controller at `base` (channel
/// registers at base + 0x500 + 0x20 * ch): configure the channel (HCCHAR), acknowledge
/// all its interrupts (HCINT), unmask completion, halt, stall, NAK, ACK, transaction,
/// babble, toggle and bus errors (HCINTMSK = 0x5BF), write the transfer size `tsiz`
/// (HCTSIZ), point the DMA at the buffer when there is one (HCDMA), then enable the
/// channel (set CHEN, clear CHDIS).
pub open spec fn is_phase(ops: Seq<BusOp>, base: usize, ch: int, tsiz: u32, dma: Option<u32>) -> bool {
    let r = base + 0x500 + 0x20 * ch;
    &&& ops.len() == if dma is Some { 6int } else { 5int }
    &&& ops[0] matches BusOp::Write { addr, .. } && addr == r
    &&& ops[1] == (BusOp::Write { addr: (r + 0x08) as usize, value: 0xFFFF_FFFF })
    &&& ops[2] == (BusOp::Write { addr: (r + 0x0C) as usize, value: 0x5BF })
    &&& ops[3] == (BusOp::Write { addr: (r + 0x10) as usize, value: tsiz })
    &&& dma matches Some(a) ==> ops[4] == (BusOp::Write { addr: (r + 0x14) as usize, value: a })
    &&& ops[ops.len() - 1] == (BusOp::Modify { addr: r as usize, clear: 0x4000_0000, set: 0x8000_0000 })
}

/// Whether the HCCHAR value `v` configures endpoint `ep` of device `dev` of type
/// `ep_type` with packets of `mps` bytes, direction IN when `dir_in`, low speed when
/// `low_speed`, one transaction per frame, leaving the channel neither enabled nor
/// disabled.
pub open spec fn configures(v: u32, dev: u8, ep: u8, dir_in: bool, ep_type: u32, mps: u32, low_speed: bool) -> bool {
    &&& v & 0x7FF == mps
    &&& (v >> 11) & 0xF == ep
    &&& ((v >> 15) & 1 == 1) == dir_in
    &&& ((v >> 17) & 1 == 1) == low_speed
    &&& (v >> 18) & 3 == ep_type
    &&& (v >> 20) & 3 == 1
    &&& (v >> 22) & 0xFF == dev
    &&& v & 0xC000_0000 == 0
}

proof fn lemma_hcchar_configures(dev: u8, ep: u8, dir_in: bool, ep_type: u32, mps: u16, ls: bool)
    by (bit_vector)
    requires
        ep < 16,
        ep_type < 4,
        mps <= 0x7FF,
    ensures
        configures(hcchar_value(dev, ep, dir_in, ep_type, mps, ls), dev, ep, dir_in, ep_type, mps as u32, ls),
{
}

proof fn lemma_channel_constants()
    ensures
        channel_interrupt_mask() == 0x5BF,
        HCCHAR_CHDIS == 0x4000_0000,
        HCCHAR_CHEN == 0x8000_0000,
{
    assert(channel_interrupt_mask() == 0x5BF) by (bit_vector);
    assert(HCCHAR_CHDIS == 0x4000_0000u32) by (bit_vector);
    assert(HCCHAR_CHEN == 0x8000_0000u32) by (bit_vector);
}

proof fn lemma_size_values(len: usize)
    by (bit_vector)
    requires
        len <= 1023 * 64,
    ensures
        transfer_size_value(8, HCTSIZ_PID_SETUP) == 0x6008_0008,
        transfer_size_value(0, HCTSIZ_PID_DATA1) == 0x4008_0000,
        transfer_size_value(len, HCTSIZ_PID_DATA1) & 0x7FFFF == len,
        (transfer_size_value(len, HCTSIZ_PID_DATA1) >> 19) & 0x3FF == if len == 0 { 1 } else { (len + 63) / 64 },
        transfer_size_value(len, HCTSIZ_PID_DATA1) >> 29 == 2,
        transfer_size_value(len, HCTSIZ_PID_DATA0) & 0x7FFFF == len,
        (transfer_size_value(len, HCTSIZ_PID_DATA0) >> 19) & 0x3FF == if len == 0 { 1 } else { (len + 63) / 64 },
        transfer_size_value(len, HCTSIZ_PID_DATA0) >> 29 == 0,
{
}

/// A control transfer reading `data_len` bytes, on channel 0, addressed to endpoint 0
/// of `dev` with 64-byte packets: a SETUP phase that sends the 8 bytes at `setup_dma`
/// (HCTSIZ 0x6008_0008: 8 bytes, 1 packet, PID SETUP) in the OUT direction; where
/// `data_len` is not 0, a DATA IN phase receiving `data_len` bytes at `data_dma` with PID
/// DATA1; and a status phase in the OUT direction with no data and PID DATA1 (HCTSIZ
/// 0x4008_0000), whatever `data_len` is.
pub proof fn lemma_control_in_phases(base: usize, dev: u8, low_speed: bool, setup_dma: u32, data_dma: u32, data_len: usize)
    requires
        base_fits(base),
        data_len <= 1023 * 64,
    ensures
        ({
            let p = control_in_plan(base, dev, low_speed, setup_dma, data_dma, data_len);
            let last = p[p.len() - 1].0;
            &&& p.len() == if data_len > 0 { 3int } else { 2int }
            &&& forall|k: int| 0 <= k < p.len() ==> #[trigger] p[k].1 == 0
            &&& is_phase(p[0].0, base, 0, 0x6008_0008, Some(setup_dma))
            &&& p[0].0[0] matches BusOp::Write { value, .. } && configures(value, dev, 0, false, 0, 64, low_speed)
            &&& is_phase(last, base, 0, 0x4008_0000, None)
            &&& last[0] matches BusOp::Write { value, .. } && configures(value, dev, 0, false, 0, 64, low_speed)
            &&& data_len > 0 ==> {
                &&& p[1].0[0] matches BusOp::Write { value, .. } && configures(value, dev, 0, true, 0, 64, low_speed)
                &&& p[1].0.len() == 6
                &&& p[1].0[4] == (BusOp::Write { addr: (base + 0x514) as usize, value: data_dma })
                &&& p[1].0[3] matches BusOp::Write { addr, value } && addr == base + 0x510
                    && value & 0x7FFFF == data_len && (value >> 19) & 0x3FF == (data_len + 63) / 64
                    && value >> 29 == 2
            }
        }),
{
    lemma_hcchar_configures(dev, 0, false, EPTYPE_CONTROL, 64, low_speed);
    lemma_hcchar_configures(dev, 0, true, EPTYPE_CONTROL, 64, low_speed);
    lemma_size_values(data_len);
    lemma_channel_constants();
    let p = control_in_plan(base, dev, low_speed, setup_dma, data_dma, data_len);
    assert(p[p.len() - 1].0 == control_phase_ops(base, dev, false, low_speed, HCTSIZ_PID_DATA1, None, 0));
}

/// A control transfer without data, on channel 0: a SETUP phase that sends the 8 bytes
/// at `setup_dma` in the OUT direction, then a status phase in the IN direction with no
/// data and PID DATA1.
pub proof fn lemma_control_out_phases(base: usize, dev: u8, low_speed: bool, setup_dma: u32)
    requires
        base_fits(base),
    ensures
        ({
            let p = control_out_plan(base, dev, low_speed, setup_dma);
            &&& p.len() == 2 && p[0].1 == 0 && p[1].1 == 0
            &&& is_phase(p[0].0, base, 0, 0x6008_0008, Some(setup_dma))
            &&& p[0].0[0] matches BusOp::Write { value, .. } && configures(value, dev, 0, false, 0, 64, low_speed)
            &&& is_phase(p[1].0, base, 0, 0x4008_0000, None)
            &&& p[1].0[0] matches BusOp::Write { value, .. } && configures(value, dev, 0, true, 0, 64, low_speed)
        }),
{
    lemma_hcchar_configures(dev, 0, false, EPTYPE_CONTROL, 64, low_speed);
    lemma_hcchar_configures(dev, 0, true, EPTYPE_CONTROL, 64, low_speed);
    lemma_size_values(0);
    lemma_channel_constants();
}

/// An interrupt IN transfer on channel 1 (registers at base + 0x520): the channel is
/// configured for interrupt IN endpoint `ep` (below 16) of `dev` with 8-byte packets,
/// and `len` bytes are received at `dma` with PID DATA1 when the toggle is set and
/// DATA0 otherwise.
pub proof fn lemma_interrupt_phase(base: usize, dev: u8, ep: u8, low_speed: bool, dma: u32, len: usize, toggle: bool)
    requires
        base_fits(base),
        ep < 16,
        len <= 1023 * 64,
    ensures
        ({
            let ops = seq![BusOp::Write {
                addr: spec_ch_reg(base, CH_INTERRUPT, HCCHAR) as usize,
                value: hcchar_value(dev, ep, true, EPTYPE_INTERRUPT, 8, low_speed),
            }] + transfer_ops(base, CH_INTERRUPT, data_pid(toggle), Some(dma), len);
            &&& is_phase(ops, base, 1, transfer_size_value(len, data_pid(toggle)), Some(dma))
            &&& ops[0] matches BusOp::Write { value, .. } && configures(value, dev, ep, true, 3, 8, low_speed)
            &&& ops[3] matches BusOp::Write { value, .. } && value & 0x7FFFF == len
                && (value >> 19) & 0x3FF == (if len == 0 { 1 } else { (len + 63) / 64 })
                && value >> 29 == if toggle { 2u32 } else { 0u32 }
        }),
{
    lemma_hcchar_configures(dev, ep, true, EPTYPE_INTERRUPT, 8, low_speed);
    lemma_size_values(len);
    lemma_channel_constants();
}

/// Bring-up leaves the controller as the driver needs it, whatever the registers held
/// before (`v` for each read-modify-write): the PHY powered (GCCFG power-down, bit 16,
/// cleared; VBUS valid and B-session valid, bits 21 and 23, set) for 50 ms; the core
/// forced into host mode (GUSBCFG force-host, bit 29, set; force-device, bit 30, clear),
/// the receive FIFO 256 words and the non-periodic transmit FIFO 256 words at 256,
/// the PHY clock selection cleared, every pending interrupt cleared, the host channel and
/// port interrupts (bits 24 and 25) enabled and interrupts unmasked globally (GAHBCFG
/// bit 0), the port powered (HPRT0 bit 12); a port reset asserts reset (HPRT0 bit 8) for
/// 60 ms, then deasserts it and waits 20 ms.
pub proof fn lemma_bring_up(base: usize, v: u32)
    requires
        base_fits(base),
    ensures
        ({
            let p = phy_init_ops(base);
            &&& p.len() == 2 && p[1] == (BusOp::Delay { ms: 50 })
            &&& p[0] matches BusOp::Modify { addr, clear, set } && addr == base + 0x100
                && modified(v, clear, set) & 0x1_0000 == 0 && modified(v, clear, set) & 0x20_0000 != 0
                && modified(v, clear, set) & 0x80_0000 != 0
        }),
        ({
            let h = host_init_ops(base);
            &&& h.len() == 10
            &&& h[0] matches BusOp::Modify { addr, clear, set } && addr == base + 0x00C
                && modified(v, clear, set) & 0x2000_0000 != 0 && modified(v, clear, set) & 0x4000_0000 == 0
            &&& h[1] == (BusOp::Delay { ms: 50 })
            &&& h[2] == (BusOp::Write { addr: (base + 0x024) as usize, value: 256 })
            &&& h[3] == (BusOp::Write { addr: (base + 0x028) as usize, value: 0x0100_0100 })
            &&& h[4] matches BusOp::Modify { addr, clear, set } && addr == base + 0x400
                && modified(v, clear, set) & 0x3 == 0
            &&& h[5] == (BusOp::Write { addr: (base + 0x014) as usize, value: 0xFFFF_FFFF })
            &&& h[6] == (BusOp::Write { addr: (base + 0x018) as usize, value: 0x0300_0000 })
            &&& h[7] matches BusOp::Modify { addr, clear, set } && addr == base + 0x008
                && modified(v, clear, set) & 1 != 0
            &&& h[8] matches BusOp::Modify { addr, clear, set } && addr == base + 0x440
                && modified(v, clear, set) & 0x1000 != 0
            &&& h[9] == (BusOp::Delay { ms: 50 })
        }),
        ({
            let r = port_reset_ops(base);
            &&& r.len() == 4
            &&& r[0] matches BusOp::Modify { addr, clear, set } && addr == base + 0x440
                && modified(v, clear, set) & 0x100 != 0
            &&& r[1] == (BusOp::Delay { ms: 60 })
            &&& r[2] matches BusOp::Modify { addr, clear, set } && addr == base + 0x440
                && modified(v, clear, set) & 0x100 == 0
            &&& r[3] == (BusOp::Delay { ms: 20 })
        }),
{
    assert(modified(v, GCCFG_PWRDOWN, GCCFG_VBUSVLD | GCCFG_BVALID) & 0x1_0000 == 0
        && modified(v, GCCFG_PWRDOWN, GCCFG_VBUSVLD | GCCFG_BVALID) & 0x20_0000 != 0
        && modified(v, GCCFG_PWRDOWN, GCCFG_VBUSVLD | GCCFG_BVALID) & 0x80_0000 != 0) by (bit_vector);
    assert(modified(v, GUSBCFG_FDMOD, GUSBCFG_FHMOD) & 0x2000_0000 != 0
        && modified(v, GUSBCFG_FDMOD, GUSBCFG_FHMOD) & 0x4000_0000 == 0) by (bit_vector);
    assert(modified(v, 0x3, 0) & 0x3 == 0) by (bit_vector);
    assert(modified(v, 0, GAHBCFG_GLBLINTRMSK) & 1 != 0) by (bit_vector);
    assert(modified(v, HPRT0_W1C_MASK, HPRT0_PRTPWR) & 0x1000 != 0) by (bit_vector);
    assert(modified(v, HPRT0_W1C_MASK, HPRT0_PRTRST) & 0x100 != 0) by (bit_vector);
    assert(modified(v, HPRT0_W1C_MASK | HPRT0_PRTRST, 0) & 0x100 == 0) by (bit_vector);
    assert((256u32 << 16) | 256 == 0x0100_0100u32) by (bit_vector);
    assert((1u32 << 24) | (1u32 << 25) == 0x0300_0000u32) by (bit_vector);
}

/// The timing and bit constants of bring-up: each wait of a core reset gets a million
/// reads, a channel wait half a million; the soft reset is GRSTCTL bit 0 and AHB idle
/// bit 31; port speed codes are 0 high, 1 full, 2 low (HPRT0 bits 17-18).
pub proof fn lemma_bring_up_constants()
    ensures
        RESET_TRIES == 1_000_000,
        crate::channel::CHANNEL_TIMEOUT == 500_000,
        GRSTCTL_CSRST == 1,
        GRSTCTL_AHBIDLE == 0x8000_0000,
        SPEED_HIGH == 0 && SPEED_FULL == 1 && SPEED_LOW == 2,
        HPRT0_PRTSPD_MASK == 0x6_0000,
{
    assert(GRSTCTL_CSRST == 1u32 && GRSTCTL_AHBIDLE == 0x8000_0000u32 && HPRT0_PRTSPD_MASK == 0x6_0000u32) by (bit_vector);
}

impl Dwc2Hcd {
    /// The base address of the controller's registers.
    pub closed spec fn spec_base(&self) -> usize {
        self.base
    }

    /// The speed code of the root port (0 high, 1 full, 2 low speed).
    pub closed spec fn spec_port_speed(&self) -> u32 {
        self.port_speed
    }

    /// A controller at `base`, whose port is taken to run at full speed until a port reset.
    pub fn new(base: usize) -> (h: Self)
        ensures
            h.spec_base() == base,
            h.spec_port_speed() == SPEED_FULL,
    {
        Dwc2Hcd { base, port_speed: SPEED_FULL }
    }

    /// The address of the register at `offset`.
    pub fn reg(&self, offset: usize) -> (r: usize)
        requires
            self.spec_base() + offset <= usize::MAX,
        ensures
            r == self.spec_base() + offset,
    {
        self.base + offset
    }

    /// A core reset: wait for the AHB master to go idle, set the soft reset bit, wait
    /// for it to clear, then let the core settle.
    pub fn core_reset(&self) -> (r: CoreReset)
        requires
            base_fits(self.spec_base()),
        ensures
            r.grstctl == self.spec_base() + GRSTCTL,
            r.phase == (CoreResetPhase::WaitIdle { tries: RESET_TRIES }),
    {
        CoreReset { grstctl: self.base + GRSTCTL, phase: CoreResetPhase::WaitIdle { tries: RESET_TRIES } }
    }

    /// Powers up the PHY: clear power-down, signal a valid VBUS and B-session, wait 50 ms.
    pub fn phy_init(&self) -> (r: Vec<BusOp>)
        requires
            base_fits(self.spec_base()),
        ensures
            r@ == phy_init_ops(self.spec_base()),
    {
        let mut ops: Vec<BusOp> = Vec::new();
        ops.push(BusOp::Modify { addr: self.base + GCCFG, clear: GCCFG_PWRDOWN, set: GCCFG_VBUSVLD | GCCFG_BVALID });
        ops.push(BusOp::Delay { ms: 50 });
        ops
    }

    /// Puts the core in host mode: force host mode, size the FIFOs, select the PHY
    /// clock, clear and enable the host channel and port interrupts, unmask interrupts
    /// globally and power the port.
    pub fn host_init(&self) -> (r: Vec<BusOp>)
        requires
            base_fits(self.spec_base()),
        ensures
            r@ == host_init_ops(self.spec_base()),
    {
        let b = self.base;
        let mut ops: Vec<BusOp> = Vec::new();
        // Force host mode.
        ops.push(BusOp::Modify { addr: b + GUSBCFG, clear: GUSBCFG_FDMOD, set: GUSBCFG_FHMOD });
        ops.push(BusOp::Delay { ms: 50 });
        // FIFO sizes: 1024-byte RX FIFO; non-periodic TX FIFO of 256 words at offset 256.
        ops.push(BusOp::Write { addr: b + GRXFSIZ, value: 256 });
        ops.push(BusOp::Write { addr: b + GNPTXFSIZ, value: (256u32 << 16) | 256 });
        // Clock select: clear FSLSPCLKSEL.
        ops.push(BusOp::Modify { addr: b + HCFG, clear: 0x3, set: 0 });
        // Clear all pending interrupts, then enable the host channel and port interrupts.
        ops.push(BusOp::Write { addr: b + GINTSTS, value: 0xFFFF_FFFF });
        ops.push(BusOp::Write { addr: b + GINTMSK, value: (1u32 << 24) | (1u32 << 25) });
        ops.push(BusOp::Modify { addr: b + GAHBCFG, clear: 0, set: GAHBCFG_GLBLINTRMSK });
        // Power the port without acknowledging its change bits.
        ops.push(BusOp::Modify { addr: b + HPRT0, clear: HPRT0_W1C_MASK, set: HPRT0_PRTPWR });
        ops.push(BusOp::Delay { ms: 50 });
        ops
    }

    /// Resets the root port: assert reset for 60 ms, deassert it, wait 20 ms. The change
    /// bits of HPRT0 are never written back as 1. The caller then reads HPRT0 and hands
    /// the value to `record_port_speed`.
    pub fn port_reset(&self) -> (r: Vec<BusOp>)
        requires
            base_fits(self.spec_base()),
        ensures
            r@ == port_reset_ops(self.spec_base()),
    {
        let hprt = self.base + HPRT0;
        let mut ops: Vec<BusOp> = Vec::new();
        ops.push(BusOp::Modify { addr: hprt, clear: HPRT0_W1C_MASK, set: HPRT0_PRTRST });
        ops.push(BusOp::Delay { ms: 60 });
        ops.push(BusOp::Modify { addr: hprt, clear: HPRT0_W1C_MASK | HPRT0_PRTRST, set: 0 });
        ops.push(BusOp::Delay { ms: 20 });
        ops
    }

    /// Takes the port speed from a value of HPRT0 read after a port reset.
    pub fn record_port_speed(&mut self, hprt: u32)
        ensures
            final(self).spec_port_speed() == (hprt & HPRT0_PRTSPD_MASK) >> 17,
            final(self).spec_base() == old(self).spec_base(),
    {
        self.port_speed = (hprt & HPRT0_PRTSPD_MASK) >> 17;
    }

    /// Whether a value of HPRT0 shows a device connected to the port.
    pub fn port_connected(hprt: u32) -> (r: bool)
        ensures
            r == (hprt & HPRT0_PRTCONNSTS != 0),
    {
        hprt & HPRT0_PRTCONNSTS != 0
    }

    /// The speed code of the root port (0 high, 1 full, 2 low speed).
    pub fn port_speed(&self) -> (r: u32)
        ensures
            r == self.spec_port_speed(),
    {
        self.port_speed
    }

    /// Whether the port runs at low speed.
    pub fn is_low_speed(&self) -> (r: bool)
        ensures
            r == (self.spec_port_speed() == SPEED_LOW),
    {
        self.port_speed == SPEED_LOW
    }

    /// A control transfer with an optional DATA IN phase, on channel 0: a SETUP phase
    /// sending the 8-byte packet at `setup_dma`; where `data_len` is not 0, a DATA IN
    /// phase (DATA1) receiving `data_len` bytes at `data_dma`; then an OUT status phase
    /// with no data (DATA1).
    pub fn control_transfer_in(&self, dev_addr: u8, setup_dma: u32, data_dma: u32, data_len: usize) -> (r: Vec<Stage>)
        requires
            base_fits(self.spec_base()),
        ensures
            plan(r@) == control_in_plan(self.spec_base(), dev_addr, self.spec_port_speed() == SPEED_LOW,
                setup_dma, data_dma, data_len),
    {
        let ls = self.is_low_speed();
        let mut stages: Vec<Stage> = Vec::new();
        stages.push(self.control_phase(dev_addr, false, ls, HCTSIZ_PID_SETUP, Some(setup_dma), 8));
        if data_len > 0 {
            stages.push(self.control_phase(dev_addr, true, ls, HCTSIZ_PID_DATA1, Some(data_dma), data_len));
        }
        stages.push(self.control_phase(dev_addr, false, ls, HCTSIZ_PID_DATA1, None, 0));
        assert(plan(stages@) =~= control_in_plan(self.base, dev_addr, ls, setup_dma, data_dma, data_len));
        stages
    }

    /// A control transfer with no data phase, on channel 0: a SETUP phase sending the
    /// 8-byte packet at `setup_dma`, then an IN status phase with no data (DATA1).
    pub fn control_transfer_out_nodata(&self, dev_addr: u8, setup_dma: u32) -> (r: Vec<Stage>)
        requires
            base_fits(self.spec_base()),
        ensures
            plan(r@) == control_out_plan(self.spec_base(), dev_addr, self.spec_port_speed() == SPEED_LOW, setup_dma),
    {
        let ls = self.is_low_speed();
        let mut stages: Vec<Stage> = Vec::new();
        stages.push(self.control_phase(dev_addr, false, ls, HCTSIZ_PID_SETUP, Some(setup_dma), 8));
        stages.push(self.control_phase(dev_addr, true, ls, HCTSIZ_PID_DATA1, None, 0));
        assert(plan(stages@) =~= control_out_plan(self.base, dev_addr, ls, setup_dma));
        stages
    }

    fn control_phase(&self, dev_addr: u8, dir_in: bool, ls: bool, pid: u32, dma: Option<u32>, len: usize) -> (r: Stage)
        requires
            base_fits(self.spec_base()),
        ensures
            r.ch == CH_CONTROL,
            r.ops@ == control_phase_ops(self.spec_base(), dev_addr, dir_in, ls, pid, dma, len),
    {
        let mut ops: Vec<BusOp> = Vec::new();
        ops.push(configure_channel(self.base, CH_CONTROL, dev_addr, 0, dir_in, EPTYPE_CONTROL, 64, ls));
        let mut rest = do_transfer(self.base, CH_CONTROL, pid, dma, len);
        ops.append(&mut rest);
        Stage { ops, ch: CH_CONTROL }
    }

    /// An interrupt IN transfer on channel 1 (HID polling): configure the channel for
    /// interrupt endpoint `ep_num` of `dev_addr` with 8-byte packets, then receive
    /// `data_len` bytes at `data_dma` with the PID of the data toggle. The caller flips
    /// its toggle when the transfer succeeds.
    pub fn interrupt_transfer_in(&self, dev_addr: u8, ep_num: u8, data_dma: u32, data_len: usize, toggle: bool) -> (r: Stage)
        requires
            base_fits(self.spec_base()),
        ensures
            r.ch == CH_INTERRUPT,
            r.ops@ == seq![BusOp::Write {
                addr: spec_ch_reg(self.spec_base(), CH_INTERRUPT, HCCHAR) as usize,
                value: hcchar_value(dev_addr, ep_num, true, EPTYPE_INTERRUPT, 8, self.spec_port_speed() == SPEED_LOW),
            }] + transfer_ops(self.spec_base(), CH_INTERRUPT, data_pid(toggle), Some(data_dma), data_len),
    {
        let ls = self.is_low_speed();
        let mut ops: Vec<BusOp> = Vec::new();
        ops.push(configure_channel(self.base, CH_INTERRUPT, dev_addr, ep_num, true, EPTYPE_INTERRUPT, 8, ls));
        let pid = if toggle { HCTSIZ_PID_DATA1 } else { HCTSIZ_PID_DATA0 };
        let mut rest = do_transfer(self.base, CH_INTERRUPT, pid, Some(data_dma), data_len);
        ops.append(&mut rest);
        Stage { ops, ch: CH_INTERRUPT }
    }
}

} // verus!
