//! DWC2 host channel management.
//!
//! Each DWC2 has up to 16 host channels. Channel 0 carries control transfers and
//! channel 1 interrupt (HID) transfers.
use vstd::prelude::*;
use crate::regs::{
    BusOp, CHANNEL_STRIDE, HCCHAR, HCCHAR_CHDIS, HCCHAR_CHEN, HCCHAR_DEVADDR_SHIFT,
    HCCHAR_EPDIR_IN, HCCHAR_EPNUM_SHIFT, HCCHAR_EPTYPE_SHIFT, HCCHAR_LSDEV, HCCHAR_MC_SHIFT,
    HCCHAR_MPS_MASK, HCDMA, HCINT, HCINTMSK, HCINT_ACK, HCINT_AHBERR, HCINT_BBLERR,
    HCINT_CHHLTD, HCINT_DATATGLERR, HCINT_NAK, HCINT_STALL, HCINT_XACTERR, HCINT_XFERCOMP,
    HCTSIZ, HCTSIZ_PKTCNT_SHIFT, HCTSIZ_XFERSIZE_MASK,
};

verus! {

pub const CH_CONTROL: usize = 0;
pub const CH_INTERRUPT: usize = 1;
pub const MAX_CHANNELS: usize = 8;

/// Number of register reads a channel gets to complete a transfer.
pub const CHANNEL_TIMEOUT: u32 = 500_000;

/// Address of the register at `offset` (a host channel register offset of channel 0)
/// for host channel `ch` of the controller at `base`.
pub open spec fn spec_ch_reg(base: usize, ch: usize, offset: usize) -> int {
    base + HCCHAR + ch * CHANNEL_STRIDE + (offset - HCCHAR)
}

/// Whether the registers of host channel `ch` of the controller at `base` have addresses.
pub open spec fn channel_fits(base: usize, ch: usize) -> bool {
    base + HCDMA + ch * CHANNEL_STRIDE <= usize::MAX
}

pub fn ch_reg(base: usize, ch: usize, offset: usize) -> (r: usize)
    requires
        HCCHAR <= offset,
        spec_ch_reg(base, ch, offset) <= usize::MAX,
    ensures
        r == spec_ch_reg(base, ch, offset),
{
    proof {
        assert(0 <= ch * CHANNEL_STRIDE) by (nonlinear_arith);
    }
    base + HCCHAR + ch * CHANNEL_STRIDE + (offset - HCCHAR)
}

/// The HCCHAR value that configures a channel for an endpoint: maximum packet size,
/// endpoint number, direction, low-speed device, endpoint type, one transaction per
/// frame and device address, channel neither enabled nor disabled.
pub open spec fn hcchar_value(
    dev_addr: u8,
    ep_num: u8,
    ep_dir_in: bool,
    ep_type: u32,
    max_pkt_size: u16,
    low_speed: bool,
) -> u32 {
    ((max_pkt_size as u32) & HCCHAR_MPS_MASK)
        | ((ep_num as u32) << HCCHAR_EPNUM_SHIFT)
        | (if ep_dir_in { HCCHAR_EPDIR_IN } else { 0 })
        | (if low_speed { HCCHAR_LSDEV } else { 0 })
        | (ep_type << HCCHAR_EPTYPE_SHIFT)
        | (1u32 << HCCHAR_MC_SHIFT)
        | ((dev_addr as u32) << HCCHAR_DEVADDR_SHIFT)
}

/// The register write that configures host channel `ch` for an endpoint.
pub fn configure_channel(
    base: usize,
    ch: usize,
    dev_addr: u8,
    ep_num: u8,
    ep_dir_in: bool,
    ep_type: u32,
    max_pkt_size: u16,
    low_speed: bool,
) -> (r: BusOp)
    requires
        channel_fits(base, ch),
    ensures
        r == (BusOp::Write {
            addr: spec_ch_reg(base, ch, HCCHAR) as usize,
            value: hcchar_value(dev_addr, ep_num, ep_dir_in, ep_type, max_pkt_size, low_speed),
        }),
{
    let hcchar_addr = ch_reg(base, ch, HCCHAR);
    let hcchar: u32 = ((max_pkt_size as u32) & HCCHAR_MPS_MASK)
        | ((ep_num as u32) << HCCHAR_EPNUM_SHIFT)
        | (if ep_dir_in { HCCHAR_EPDIR_IN } else { 0 })
        | (if low_speed { HCCHAR_LSDEV } else { 0 })
        | (ep_type << HCCHAR_EPTYPE_SHIFT)
        | (1u32 << HCCHAR_MC_SHIFT)
        | ((dev_addr as u32) << HCCHAR_DEVADDR_SHIFT);
    BusOp::Write { addr: hcchar_addr, value: hcchar }
}

/// The fields of a channel configuration can be read back from the HCCHAR value,
/// for endpoint numbers below 16, endpoint types below 4, device addresses below 128
/// and packet sizes of at most 0x7FF; the channel is left neither enabled nor disabled.
pub proof fn lemma_hcchar_fields(
    dev_addr: u8,
    ep_num: u8,
    ep_dir_in: bool,
    ep_type: u32,
    max_pkt_size: u16,
    low_speed: bool,
)
    by (bit_vector)
    requires
        ep_num < 16,
        ep_type < 4,
        dev_addr < 128,
        max_pkt_size <= 0x7FF,
    ensures
        ({
            let v = hcchar_value(dev_addr, ep_num, ep_dir_in, ep_type, max_pkt_size, low_speed);
            &&& v & 0x7FF == max_pkt_size
            &&& (v >> 11) & 0xF == ep_num
            &&& ((v >> 15) & 1 == 1) == ep_dir_in
            &&& ((v >> 17) & 1 == 1) == low_speed
            &&& (v >> 18) & 3 == ep_type
            &&& (v >> 20) & 3 == 1
            &&& (v >> 22) & 0x7F == dev_addr
            &&& v & (HCCHAR_CHEN | HCCHAR_CHDIS) == 0
        }),
{
}

/// Number of packets a transfer of `len` bytes takes with 64-byte packets (at least one).
pub open spec fn packet_count(len: usize) -> int {
    if len == 0 {
        1
    } else {
        (len + 63) / 64
    }
}

/// The HCTSIZ value of a transfer of `len` bytes with the PID bits `pid`.
pub open spec fn transfer_size_value(len: usize, pid: u32) -> u32 {
    ((len as u32) & HCTSIZ_XFERSIZE_MASK) | ((packet_count(len) as u32) << HCTSIZ_PKTCNT_SHIFT) | pid
}

/// Interrupts a channel reports to the host.
pub open spec fn channel_interrupt_mask() -> u32 {
    HCINT_XFERCOMP | HCINT_CHHLTD | HCINT_STALL | HCINT_NAK | HCINT_ACK | HCINT_XACTERR
        | HCINT_BBLERR | HCINT_DATATGLERR | HCINT_AHBERR
}

/// The fields of a transfer size can be read back from the HCTSIZ value, for transfers
/// of at most 1023 packets and PIDs that only use the PID bits.
pub proof fn lemma_transfer_size_fields(len: usize, pid: u32)
    by (bit_vector)
    requires
        len <= 1023 * 64,
        pid & 0x1FFF_FFFF == 0,
    ensures
        transfer_size_value(len, pid) & 0x7FFFF == len,
        (transfer_size_value(len, pid) >> 19) & 0x3FF == packet_count(len),
        transfer_size_value(len, pid) & 0xE000_0000 == pid,
{
}

/// The register operations that start a transfer of `len` bytes with PID bits `pid` on
/// host channel `ch`, with DMA from or to `dma` where there is a data buffer.
pub open spec fn transfer_ops(base: usize, ch: usize, pid: u32, dma: Option<u32>, len: usize) -> Seq<BusOp> {
    let start = seq![
        BusOp::Write { addr: spec_ch_reg(base, ch, HCINT) as usize, value: 0xFFFF_FFFF },
        BusOp::Write { addr: spec_ch_reg(base, ch, HCINTMSK) as usize, value: channel_interrupt_mask() },
        BusOp::Write { addr: spec_ch_reg(base, ch, HCTSIZ) as usize, value: transfer_size_value(len, pid) },
    ];
    let with_dma = match dma {
        Some(a) => start.push(BusOp::Write { addr: spec_ch_reg(base, ch, HCDMA) as usize, value: a }),
        None => start,
    };
    with_dma.push(BusOp::Modify { addr: spec_ch_reg(base, ch, HCCHAR) as usize, clear: HCCHAR_CHDIS, set: HCCHAR_CHEN })
}

/// The register operations that start a transfer on host channel `ch`; the channel then
/// reports completion through `wait_channel_complete`.
pub fn do_transfer(base: usize, ch: usize, pid: u32, dma: Option<u32>, len: usize) -> (r: Vec<BusOp>)
    requires
        channel_fits(base, ch),
    ensures
        r@ == transfer_ops(base, ch, pid, dma, len),
{
    let hcint_addr = ch_reg(base, ch, HCINT);
    let hcintmsk_addr = ch_reg(base, ch, HCINTMSK);
    let hctsiz_addr = ch_reg(base, ch, HCTSIZ);
    let hcdma_addr = ch_reg(base, ch, HCDMA);
    let hcchar_addr = ch_reg(base, ch, HCCHAR);
    let mut ops: Vec<BusOp> = Vec::new();
    ops.push(BusOp::Write { addr: hcint_addr, value: 0xFFFF_FFFF });
    ops.push(
        BusOp::Write {
            addr: hcintmsk_addr,
            value: HCINT_XFERCOMP | HCINT_CHHLTD | HCINT_STALL | HCINT_NAK | HCINT_ACK | HCINT_XACTERR
                | HCINT_BBLERR | HCINT_DATATGLERR | HCINT_AHBERR,
        },
    );
    let pkt_cnt: usize = if len == 0 {
        1
    } else {
        len / 64 + if len % 64 != 0 { 1 } else { 0 }
    };
    assert(pkt_cnt == packet_count(len));
    let tsiz = ((len as u32) & HCTSIZ_XFERSIZE_MASK) | ((pkt_cnt as u32) << HCTSIZ_PKTCNT_SHIFT) | pid;
    ops.push(BusOp::Write { addr: hctsiz_addr, value: tsiz });
    match dma {
        Some(a) => ops.push(BusOp::Write { addr: hcdma_addr, value: a }),
        None => {},
    }
    ops.push(BusOp::Modify { addr: hcchar_addr, clear: HCCHAR_CHDIS, set: HCCHAR_CHEN });
    ops
}

/// What the channel wait does after a read of the channel's interrupt register.
pub enum WaitStep {
    /// Nothing decided yet: read the interrupt register again, with `timeout` reads left.
    Retry { timeout: u32 },
    /// The transfer is over: perform `ops`, and it succeeded when `ok` holds.
    Finish { ops: Vec<BusOp>, ok: bool },
}

/// The operations that acknowledge every interrupt of channel `ch`.
pub open spec fn clear_all_ops(base: usize, ch: usize) -> Seq<BusOp> {
    seq![BusOp::Write { addr: spec_ch_reg(base, ch, HCINT) as usize, value: 0xFFFF_FFFF }]
}

/// Whether an interrupt status means the transfer succeeded: transfer complete, or
/// channel halted with an ACK.
pub open spec fn transfer_succeeded(hcint: u32) -> bool {
    hcint & HCINT_XFERCOMP != 0 || (hcint & HCINT_CHHLTD != 0 && hcint & HCINT_ACK != 0)
}

/// Whether an interrupt status ends the wait: completion, halt, a stall, bus or
/// babble error, or a NAK.
pub open spec fn transfer_ended(hcint: u32) -> bool {
    hcint & HCINT_XFERCOMP != 0 || hcint & HCINT_CHHLTD != 0
        || hcint & (HCINT_STALL | HCINT_AHBERR | HCINT_BBLERR) != 0 || hcint & HCINT_NAK != 0
}

/// Whether an interrupt status shows only a NAK among the statuses that end the wait.
pub open spec fn nak_only(hcint: u32) -> bool {
    hcint & HCINT_XFERCOMP == 0 && hcint & HCINT_CHHLTD == 0
        && hcint & (HCINT_STALL | HCINT_AHBERR | HCINT_BBLERR) == 0 && hcint & HCINT_NAK != 0
}

/// The operations that end the wait for channel `ch` after reading `hcint`: acknowledge
/// a lone NAK, then all interrupts; when nothing ended the transfer (the last read),
/// disable the channel first.
pub open spec fn wait_end_ops(base: usize, ch: usize, hcint: u32) -> Seq<BusOp> {
    if !transfer_ended(hcint) {
        seq![BusOp::Modify { addr: spec_ch_reg(base, ch, HCCHAR) as usize, clear: 0, set: HCCHAR_CHDIS }]
            + clear_all_ops(base, ch)
    } else if nak_only(hcint) {
        seq![BusOp::Write { addr: spec_ch_reg(base, ch, HCINT) as usize, value: HCINT_NAK }] + clear_all_ops(base, ch)
    } else {
        clear_all_ops(base, ch)
    }
}

/// How a read of a channel's interrupt register (at base + 0x508 + 0x20 * ch) ends the
/// wait: a transfer is over on transfer complete (bit 0), channel halted (bit 1), bus
/// error (bit 2), stall (bit 3), NAK (bit 4) or babble (bit 8); it succeeded exactly on
/// transfer complete, or on a halt with ACK (bit 5). Every ending acknowledges all
/// interrupts (writes all ones), after acknowledging a NAK alone (writes bit 4) when the
/// NAK is the only ending status; a wait that runs out of reads first disables the
/// channel (sets HCCHAR bit 30, at base + 0x500 + 0x20 * ch).
pub proof fn lemma_wait_outcomes(base: usize, ch: usize, hcint: u32)
    requires
        channel_fits(base, ch),
    ensures
        transfer_ended(hcint) == (hcint & 0x11F != 0),
        transfer_succeeded(hcint) == (hcint & 0x1 != 0 || (hcint & 0x2 != 0 && hcint & 0x20 != 0)),
        ({
            let r = base + 0x500 + 0x20 * ch;
            let all = BusOp::Write { addr: (r + 0x08) as usize, value: 0xFFFF_FFFF };
            &&& hcint & 0x11F == 0 ==> wait_end_ops(base, ch, hcint)
                == seq![BusOp::Modify { addr: r as usize, clear: 0, set: 0x4000_0000 }, all]
            &&& hcint & 0x11F == 0x10 ==> wait_end_ops(base, ch, hcint)
                == seq![BusOp::Write { addr: (r + 0x08) as usize, value: 0x10 }, all]
            &&& hcint & 0x10F != 0 ==> wait_end_ops(base, ch, hcint) == seq![all]
        }),
{
    assert(((hcint & 1 != 0) || (hcint & 2 != 0) || (hcint & (8u32 | 4u32 | 0x100u32) != 0) || (hcint & 0x10 != 0))
        == (hcint & 0x11F != 0)) by (bit_vector);
    assert(HCINT_XFERCOMP == 1u32 && HCINT_CHHLTD == 2u32 && HCINT_AHBERR == 4u32 && HCINT_STALL == 8u32
        && HCINT_NAK == 0x10u32 && HCINT_ACK == 0x20u32 && HCINT_BBLERR == 0x100u32 && HCCHAR_CHDIS == 0x4000_0000u32) by (bit_vector);
    assert((hcint & 0x11F == 0x10) == (hcint & 1 == 0 && hcint & 2 == 0 && hcint & (8u32 | 4u32 | 0x100u32) == 0
        && hcint & 0x10 != 0)) by (bit_vector);
    assert((hcint & 0x10F != 0) == (hcint & 1 != 0 || hcint & 2 != 0 || hcint & (8u32 | 4u32 | 0x100u32) != 0)) by (bit_vector);
    let r = base + 0x500 + 0x20 * ch;
    assert(seq![BusOp::Modify { addr: r as usize, clear: 0, set: 0x4000_0000 }]
        + seq![BusOp::Write { addr: (r + 0x08) as usize, value: 0xFFFF_FFFF }]
        =~= seq![BusOp::Modify { addr: r as usize, clear: 0, set: 0x4000_0000 },
            BusOp::Write { addr: (r + 0x08) as usize, value: 0xFFFF_FFFF }]);
    assert(seq![BusOp::Write { addr: (r + 0x08) as usize, value: 0x10 }]
        + seq![BusOp::Write { addr: (r + 0x08) as usize, value: 0xFFFF_FFFF }]
        =~= seq![BusOp::Write { addr: (r + 0x08) as usize, value: 0x10 },
            BusOp::Write { addr: (r + 0x08) as usize, value: 0xFFFF_FFFF }]);
}

/// One read of the wait for host channel `ch` to finish its transfer: `hcint` is the
/// value read from the channel's interrupt register and `timeout` the number of reads
/// left, this one included.
///
/// A transfer-complete or halted status ends the wait, successfully where
/// `transfer_succeeded` says so; a stall, bus error or babble ends it in failure; a NAK
/// ends it in failure after acknowledging the NAK. With no such status the wait goes on
/// until the last read, after which the channel is disabled and the wait fails. Every
/// ending acknowledges all of the channel's interrupts.
pub fn wait_channel_complete(base: usize, ch: usize, hcint: u32, timeout: u32) -> (r: WaitStep)
    requires
        channel_fits(base, ch),
        timeout >= 1,
    ensures
        match r {
            WaitStep::Retry { timeout: t } => !transfer_ended(hcint) && timeout > 1 && t == timeout - 1,
            WaitStep::Finish { ops, ok } => {
                &&& transfer_ended(hcint) || timeout == 1
                &&& ok == (transfer_ended(hcint) && transfer_succeeded(hcint))
                &&& ops@ == wait_end_ops(base, ch, hcint)
            },
        },
{
    let hcint_addr = ch_reg(base, ch, HCINT);
    let mut ops: Vec<BusOp> = Vec::new();
    if hcint & HCINT_XFERCOMP != 0 {
        ops.push(BusOp::Write { addr: hcint_addr, value: 0xFFFF_FFFF });
        assert(ops@ =~= clear_all_ops(base, ch));
        return WaitStep::Finish { ops, ok: true };
    }
    if hcint & HCINT_CHHLTD != 0 {
        ops.push(BusOp::Write { addr: hcint_addr, value: 0xFFFF_FFFF });
        assert(ops@ =~= clear_all_ops(base, ch));
        if hcint & HCINT_ACK != 0 {
            return WaitStep::Finish { ops, ok: true };
        }
        return WaitStep::Finish { ops, ok: false };
    }
    if hcint & (HCINT_STALL | HCINT_AHBERR | HCINT_BBLERR) != 0 {
        ops.push(BusOp::Write { addr: hcint_addr, value: 0xFFFF_FFFF });
        assert(ops@ =~= clear_all_ops(base, ch));
        return WaitStep::Finish { ops, ok: false };
    }
    if hcint & HCINT_NAK != 0 {
        ops.push(BusOp::Write { addr: hcint_addr, value: HCINT_NAK });
        ops.push(BusOp::Write { addr: hcint_addr, value: 0xFFFF_FFFF });
        assert(ops@ =~= seq![BusOp::Write { addr: hcint_addr, value: HCINT_NAK }] + clear_all_ops(base, ch));
        return WaitStep::Finish { ops, ok: false };
    }
    let t = timeout - 1;
    if t == 0 {
        let hcchar_addr = ch_reg(base, ch, HCCHAR);
        ops.push(BusOp::Modify { addr: hcchar_addr, clear: 0, set: HCCHAR_CHDIS });
        ops.push(BusOp::Write { addr: hcint_addr, value: 0xFFFF_FFFF });
        assert(ops@ =~= seq![BusOp::Modify { addr: hcchar_addr, clear: 0, set: HCCHAR_CHDIS }]
            + clear_all_ops(base, ch));
        return WaitStep::Finish { ops, ok: false };
    }
    WaitStep::Retry { timeout: t }
}

} // verus!
