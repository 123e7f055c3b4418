use rust_usb::hcd::Dwc2Hcd;
use rust_usb::regs::BusOp;
use rust_usb::transfer::{RunStep, TransferRun};

const BASE: usize = 0x3F98_0000;
const CLEAR: BusOp = BusOp::Write { addr: BASE + 0x508, value: 0xFFFF_FFFF };

fn cont(s: RunStep) -> (Vec<BusOp>, usize) {
    match s {
        RunStep::Continue { ops, read } => (ops, read),
        RunStep::Done { .. } => panic!("expected the transfer to go on"),
    }
}

fn done(s: RunStep) -> (Vec<BusOp>, bool) {
    match s {
        RunStep::Done { ops, ok } => (ops, ok),
        RunStep::Continue { .. } => panic!("expected the transfer to end"),
    }
}

#[test]
fn phases_run_in_order() {
    let h = Dwc2Hcd::new(BASE);
    let stages = h.control_transfer_in(1, 0x100, 0x200, 18);
    let second: Vec<BusOp> = stages[1].ops.clone();
    let third: Vec<BusOp> = stages[2].ops.clone();
    let first: Vec<BusOp> = stages[0].ops.clone();
    let (mut run, s) = TransferRun::start(BASE, stages);
    assert_eq!(cont(s), (first, BASE + 0x508));
    // Nothing yet: read again.
    assert_eq!(cont(run.step(0)), (vec![], BASE + 0x508));
    let mut expect = vec![CLEAR];
    expect.extend(second);
    assert_eq!(cont(run.step(0x1)), (expect, BASE + 0x508));
    let mut expect = vec![CLEAR];
    expect.extend(third);
    assert_eq!(cont(run.step(0x2 | 0x20)), (expect, BASE + 0x508));
    assert_eq!(done(run.step(0x1)), (vec![CLEAR], true));
    assert_eq!(done(run.step(0)), (vec![], true));
}

#[test]
fn failed_phase_ends_the_transfer() {
    let h = Dwc2Hcd::new(BASE);
    let stages = h.control_transfer_out_nodata(0, 0x100);
    let (mut run, _) = TransferRun::start(BASE, stages);
    assert_eq!(done(run.step(0x8)), (vec![CLEAR], false));
    assert_eq!(done(run.step(0x1)), (vec![], false));
}

#[test]
fn interrupt_transfer_times_out() {
    let h = Dwc2Hcd::new(BASE);
    let stage = h.interrupt_transfer_in(1, 1, 0x300, 8, false);
    let (mut run, s) = TransferRun::start(BASE, vec![stage]);
    assert_eq!(cont(s).1, BASE + 0x528);
    let mut reads = 0u32;
    loop {
        reads += 1;
        match run.step(0) {
            RunStep::Continue { .. } => {}
            RunStep::Done { ops, ok } => {
                assert!(!ok);
                assert_eq!(
                    ops,
                    vec![
                        BusOp::Modify { addr: BASE + 0x520, clear: 0, set: 1 << 30 },
                        BusOp::Write { addr: BASE + 0x528, value: 0xFFFF_FFFF },
                    ]
                );
                break;
            }
        }
    }
    assert_eq!(reads, 500_000);
}

#[test]
fn nak_is_acknowledged() {
    let h = Dwc2Hcd::new(BASE);
    let stage = h.interrupt_transfer_in(1, 1, 0x300, 8, true);
    let (mut run, _) = TransferRun::start(BASE, vec![stage]);
    assert_eq!(
        done(run.step(0x10)),
        (
            vec![
                BusOp::Write { addr: BASE + 0x528, value: 0x10 },
                BusOp::Write { addr: BASE + 0x528, value: 0xFFFF_FFFF },
            ],
            false
        )
    );
}
