use rust_usb::channel::{ch_reg, configure_channel, do_transfer, wait_channel_complete, WaitStep};
use rust_usb::hcd::{CoreResetPhase, CoreResetStep, Dwc2Hcd, RESET_TRIES};
use rust_usb::regs::{
    BusOp, EPTYPE_CONTROL, EPTYPE_INTERRUPT, HCCHAR, HCINT, HCTSIZ_PID_DATA0, HCTSIZ_PID_DATA1,
    HCTSIZ_PID_SETUP,
};

const BASE: usize = 0x3F98_0000;

fn writes_value(ops: &[BusOp], addr: usize) -> Option<u32> {
    ops.iter().find_map(|op| match op {
        BusOp::Write { addr: a, value } if *a == addr => Some(*value),
        _ => None,
    })
}

#[test]
fn channel_register_addresses() {
    assert_eq!(ch_reg(BASE, 0, HCCHAR), BASE + 0x500);
    assert_eq!(ch_reg(BASE, 1, HCINT), BASE + 0x528);
    assert_eq!(ch_reg(BASE, 7, 0x514), BASE + 0x5F4);
}

#[test]
fn control_channel_configuration() {
    let op = configure_channel(BASE, 0, 1, 0, false, EPTYPE_CONTROL, 64, false);
    assert_eq!(op, BusOp::Write { addr: BASE + 0x500, value: 0x0050_0040 });
}

#[test]
fn interrupt_channel_configuration() {
    let op = configure_channel(BASE, 1, 2, 1, true, EPTYPE_INTERRUPT, 8, true);
    // MPS 8, EP 1, IN, LS, interrupt, MC 1, device 2
    let v = 8 | (1 << 11) | (1 << 15) | (1 << 17) | (3 << 18) | (1 << 20) | (2 << 22);
    assert_eq!(op, BusOp::Write { addr: BASE + 0x520, value: v });
}

#[test]
fn configuration_fields_read_back() {
    if let BusOp::Write { value, .. } = configure_channel(BASE, 0, 0x55, 0xA, true, 2, 0x3FF, false) {
        assert_eq!(value & 0x7FF, 0x3FF);
        assert_eq!((value >> 11) & 0xF, 0xA);
        assert_eq!((value >> 15) & 1, 1);
        assert_eq!((value >> 17) & 1, 0);
        assert_eq!((value >> 18) & 3, 2);
        assert_eq!((value >> 20) & 3, 1);
        assert_eq!((value >> 22) & 0x7F, 0x55);
        assert_eq!(value & 0xC000_0000, 0);
    } else {
        panic!("not a write");
    }
}

#[test]
fn transfer_start_sequence() {
    let ops = do_transfer(BASE, 0, HCTSIZ_PID_SETUP, Some(0x1000), 8);
    assert_eq!(
        ops,
        vec![
            BusOp::Write { addr: BASE + 0x508, value: 0xFFFF_FFFF },
            BusOp::Write { addr: BASE + 0x50C, value: 0x5BF },
            BusOp::Write { addr: BASE + 0x510, value: 8 | (1 << 19) | (3 << 29) },
            BusOp::Write { addr: BASE + 0x514, value: 0x1000 },
            BusOp::Modify { addr: BASE + 0x500, clear: 1 << 30, set: 1 << 31 },
        ]
    );
}

#[test]
fn transfer_without_buffer_skips_dma() {
    let ops = do_transfer(BASE, 0, HCTSIZ_PID_DATA1, None, 0);
    assert_eq!(ops.len(), 4);
    assert_eq!(writes_value(&ops, BASE + 0x510), Some((1 << 19) | (2 << 29)));
    assert_eq!(writes_value(&ops, BASE + 0x514), None);
}

#[test]
fn packet_counts() {
    let size = |len: usize| writes_value(&do_transfer(BASE, 1, HCTSIZ_PID_DATA0, Some(0), len), BASE + 0x530).unwrap();
    assert_eq!(size(64), 64 | (1 << 19));
    assert_eq!(size(65), 65 | (2 << 19));
    assert_eq!(size(128), 128 | (2 << 19));
    assert_eq!(size(18), 18 | (1 << 19));
    assert_eq!((size(1023 * 64) >> 19) & 0x3FF, 1023);
}

fn finish(step: WaitStep) -> (Vec<BusOp>, bool) {
    match step {
        WaitStep::Finish { ops, ok } => (ops, ok),
        WaitStep::Retry { .. } => panic!("expected the wait to end"),
    }
}

#[test]
fn wait_outcomes() {
    let clear = BusOp::Write { addr: BASE + 0x508, value: 0xFFFF_FFFF };
    assert_eq!(finish(wait_channel_complete(BASE, 0, 0x1, 10)), (vec![clear], true));
    assert_eq!(finish(wait_channel_complete(BASE, 0, 0x2 | 0x20, 10)), (vec![clear], true));
    assert_eq!(finish(wait_channel_complete(BASE, 0, 0x2, 10)), (vec![clear], false));
    assert_eq!(finish(wait_channel_complete(BASE, 0, 0x8, 10)), (vec![clear], false));
    assert_eq!(finish(wait_channel_complete(BASE, 0, 0x4, 10)), (vec![clear], false));
    assert_eq!(finish(wait_channel_complete(BASE, 0, 0x100, 10)), (vec![clear], false));
    assert_eq!(
        finish(wait_channel_complete(BASE, 0, 0x10, 10)),
        (vec![BusOp::Write { addr: BASE + 0x508, value: 0x10 }, clear], false)
    );
    // Completion wins over a NAK reported at the same time.
    assert_eq!(finish(wait_channel_complete(BASE, 0, 0x11, 10)), (vec![clear], true));
}

#[test]
fn wait_retries_then_times_out() {
    match wait_channel_complete(BASE, 1, 0x80, 500_000) {
        WaitStep::Retry { timeout } => assert_eq!(timeout, 499_999),
        _ => panic!("expected a retry"),
    }
    assert_eq!(
        finish(wait_channel_complete(BASE, 1, 0, 1)),
        (
            vec![
                BusOp::Modify { addr: BASE + 0x520, clear: 0, set: 1 << 30 },
                BusOp::Write { addr: BASE + 0x528, value: 0xFFFF_FFFF },
            ],
            false
        )
    );
}

#[test]
fn wait_ends_within_its_budget() {
    let mut t = 500_000u32;
    let mut reads = 0u32;
    loop {
        reads += 1;
        match wait_channel_complete(BASE, 0, 0, t) {
            WaitStep::Retry { timeout } => {
                assert!(timeout < t);
                t = timeout;
            }
            WaitStep::Finish { ok, .. } => {
                assert!(!ok);
                break;
            }
        }
    }
    assert_eq!(reads, 500_000);
}

#[test]
fn new_controller_runs_full_speed() {
    let mut h = Dwc2Hcd::new(BASE);
    assert!(!h.is_low_speed());
    h.record_port_speed(2 << 17);
    assert!(h.is_low_speed());
    h.record_port_speed(0xFFFF_FFFF & !(1 << 18));
    assert!(!h.is_low_speed());
    assert_eq!(h.reg(0x140), BASE + 0x140);
}

#[test]
fn port_connection_bit() {
    assert!(Dwc2Hcd::port_connected(0x1));
    assert!(Dwc2Hcd::port_connected(0x1001));
    assert!(!Dwc2Hcd::port_connected(0x1000));
}

#[test]
fn core_reset_sequence() {
    let h = Dwc2Hcd::new(BASE);
    let mut r = h.core_reset();
    assert_eq!(r.grstctl, BASE + 0x10);
    assert!(matches!(r.step(0), CoreResetStep::Continue { ref ops } if ops.is_empty()));
    match r.step(1 << 31) {
        CoreResetStep::Continue { ops } => assert_eq!(ops, vec![BusOp::Modify { addr: BASE + 0x10, clear: 0, set: 1 }]),
        _ => panic!("expected the soft reset"),
    }
    assert_eq!(r.phase, CoreResetPhase::WaitReset { tries: RESET_TRIES });
    assert!(matches!(r.step(1), CoreResetStep::Continue { .. }));
    match r.step(0) {
        CoreResetStep::Finish { ops, ok } => {
            assert!(ok);
            assert_eq!(ops, vec![BusOp::Delay { ms: 100 }]);
        }
        _ => panic!("expected the end"),
    }
    assert!(matches!(r.step(0), CoreResetStep::Finish { ok: true, .. }));
}

#[test]
fn core_reset_gives_up() {
    let h = Dwc2Hcd::new(BASE);
    let mut r = h.core_reset();
    let mut reads = 0u32;
    loop {
        reads += 1;
        if let CoreResetStep::Finish { ok, ops } = r.step(0) {
            assert!(!ok);
            assert!(ops.is_empty());
            break;
        }
    }
    assert_eq!(reads, RESET_TRIES);
}

#[test]
fn init_sequences() {
    let h = Dwc2Hcd::new(BASE);
    assert_eq!(
        h.phy_init(),
        vec![
            BusOp::Modify { addr: BASE + 0x100, clear: 1 << 16, set: (1 << 21) | (1 << 23) },
            BusOp::Delay { ms: 50 },
        ]
    );
    let ops = h.host_init();
    assert_eq!(ops.len(), 10);
    assert_eq!(writes_value(&ops, BASE + 0x24), Some(256));
    assert_eq!(writes_value(&ops, BASE + 0x28), Some(0x0100_0100));
    assert_eq!(writes_value(&ops, BASE + 0x18), Some(0x0300_0000));
    assert_eq!(ops[8], BusOp::Modify { addr: BASE + 0x440, clear: 0x2E, set: 1 << 12 });
    assert_eq!(
        h.port_reset(),
        vec![
            BusOp::Modify { addr: BASE + 0x440, clear: 0x2E, set: 1 << 8 },
            BusOp::Delay { ms: 60 },
            BusOp::Modify { addr: BASE + 0x440, clear: 0x12E, set: 0 },
            BusOp::Delay { ms: 20 },
        ]
    );
}

#[test]
fn port_modifies_never_write_change_bits() {
    let h = Dwc2Hcd::new(BASE);
    let mut ops = h.host_init();
    ops.extend(h.port_reset());
    for op in ops {
        if let BusOp::Modify { addr, clear, set } = op {
            if addr == BASE + 0x440 {
                for v in [0u32, 0xFFFF_FFFF, 0x2E, 0x1234_5678] {
                    assert_eq!(((v & !clear) | set) & 0x2E, 0);
                }
            }
        }
    }
}

#[test]
fn control_in_has_three_phases() {
    let h = Dwc2Hcd::new(BASE);
    let stages = h.control_transfer_in(1, 0x100, 0x200, 18);
    assert_eq!(stages.len(), 3);
    assert!(stages.iter().all(|s| s.ch == 0));
    assert_eq!(stages[0].ops[0], BusOp::Write { addr: BASE + 0x500, value: 0x0050_0040 });
    assert_eq!(writes_value(&stages[0].ops, BASE + 0x510), Some(8 | (1 << 19) | (3 << 29)));
    assert_eq!(stages[1].ops[0], BusOp::Write { addr: BASE + 0x500, value: 0x0050_8040 });
    assert_eq!(writes_value(&stages[1].ops, BASE + 0x514), Some(0x200));
    assert_eq!(writes_value(&stages[1].ops, BASE + 0x510), Some(18 | (1 << 19) | (2 << 29)));
    assert_eq!(stages[2].ops[0], BusOp::Write { addr: BASE + 0x500, value: 0x0050_0040 });
    assert_eq!(writes_value(&stages[2].ops, BASE + 0x514), None);
}

#[test]
fn control_in_without_data_and_out_without_data() {
    let h = Dwc2Hcd::new(BASE);
    let stages = h.control_transfer_in(1, 0x100, 0x200, 0);
    assert_eq!(stages.len(), 2);
    assert_eq!(stages[1].ops[0], BusOp::Write { addr: BASE + 0x500, value: 0x0050_0040 });
    let stages = h.control_transfer_out_nodata(0, 0x100);
    assert_eq!(stages.len(), 2);
    assert_eq!(stages[0].ops[0], BusOp::Write { addr: BASE + 0x500, value: 0x0010_0040 });
    assert_eq!(stages[1].ops[0], BusOp::Write { addr: BASE + 0x500, value: 0x0010_8040 });
}

#[test]
fn low_speed_device_is_marked() {
    let mut h = Dwc2Hcd::new(BASE);
    h.record_port_speed(2 << 17);
    let stages = h.control_transfer_out_nodata(0, 0x100);
    assert_eq!(stages[0].ops[0], BusOp::Write { addr: BASE + 0x500, value: 0x0012_0040 });
}

#[test]
fn interrupt_transfer_uses_toggle() {
    let h = Dwc2Hcd::new(BASE);
    let s = h.interrupt_transfer_in(1, 1, 0x300, 8, false);
    assert_eq!(s.ch, 1);
    assert_eq!(writes_value(&s.ops, BASE + 0x530), Some(8 | (1 << 19) | HCTSIZ_PID_DATA0));
    let s = h.interrupt_transfer_in(1, 1, 0x300, 8, true);
    assert_eq!(writes_value(&s.ops, BASE + 0x530), Some(8 | (1 << 19) | HCTSIZ_PID_DATA1));
    assert_eq!(s.ops[0], BusOp::Write { addr: BASE + 0x520, value: 8 | (1 << 11) | (1 << 15) | (3 << 18) | (1 << 20) | (1 << 22) });
}
