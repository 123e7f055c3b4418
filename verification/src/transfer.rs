//! Running a transfer: its phases in order, each started by its register operations and
//! finished by the wait for its channel; the first failing phase ends the transfer.
use vstd::prelude::*;
use crate::channel::{
    channel_fits, ch_reg, spec_ch_reg, transfer_ended, transfer_succeeded, wait_channel_complete,
    wait_end_ops, WaitStep, CHANNEL_TIMEOUT,
};
use crate::hcd::{plan, Stage};
use crate::regs::{BusOp, HCINT};

verus! {

/// A transfer in progress. Its caller performs the operations each step returns and,
/// while the transfer goes on, reads the channel interrupt register the step names and
/// hands the value to the next step.
pub struct TransferRun {
    base: usize,
    stages: Vec<Stage>,
    current: usize,
    timeout: u32,
    outcome: Option<bool>,
}

/// What a transfer asks of its caller.
pub enum RunStep {
    /// Perform `ops`, then read the register at `read` and step again with its value.
    Continue { ops: Vec<BusOp>, read: usize },
    /// Perform `ops`; the transfer is over and succeeded when `ok` holds.
    Done { ops: Vec<BusOp>, ok: bool },
}

/// The address of the interrupt register of channel `ch`.
pub open spec fn hcint_addr(base: usize, ch: usize) -> usize {
    spec_ch_reg(base, ch, HCINT) as usize
}

/// Whether every phase of `stages` runs on a channel whose registers have addresses.
pub open spec fn stages_fit(base: usize, stages: Seq<Stage>) -> bool {
    forall|k: int| 0 <= k < stages.len() ==> channel_fits(base, #[trigger] stages[k].ch)
}

fn copy_ops(ops: &Vec<BusOp>, into: &mut Vec<BusOp>)
    ensures
        final(into)@ == old(into)@ + ops@,
{
    let mut i: usize = 0;
    while i < ops.len()
        invariant
            i <= ops@.len(),
            into@ == old(into)@ + ops@.take(i as int),
        decreases ops@.len() - i,
    {
        into.push(ops[i]);
        assert(ops@.take(i + 1) =~= ops@.take(i as int).push(ops@[i as int]));
        i += 1;
    }
    assert(ops@.take(ops@.len() as int) =~= ops@);
}

impl TransferRun {
    #[verifier::type_invariant]
    spec fn inv(&self) -> bool {
        &&& self.current < self.stages@.len()
        &&& self.timeout >= 1
        &&& stages_fit(self.base, self.stages@)
    }

    /// The phases of the transfer: operations and channel of each.
    pub closed spec fn spec_plan(&self) -> Seq<(Seq<BusOp>, usize)> {
        plan(self.stages@)
    }

    /// The phase that runs.
    pub closed spec fn spec_current(&self) -> int {
        self.current as int
    }

    /// Reads left to the wait of the phase that runs.
    pub closed spec fn spec_timeout(&self) -> u32 {
        self.timeout
    }

    /// The outcome, once the transfer is over.
    pub closed spec fn spec_outcome(&self) -> Option<bool> {
        self.outcome
    }

    /// The most register reads the transfer still takes: the rest of the running
    /// phase's wait and a full wait for each phase after it.
    pub closed spec fn spec_reads_left(&self) -> int {
        match self.outcome {
            Some(_) => 0,
            None => (self.stages@.len() - 1 - self.current) * CHANNEL_TIMEOUT + self.timeout,
        }
    }

    /// The controller base the transfer runs on.
    pub closed spec fn spec_base(&self) -> usize {
        self.base
    }

    /// Starts a transfer made of `stages` on the controller at `base`: the first step
    /// is to perform the first phase's operations and read its channel's interrupt
    /// register.
    pub fn start(base: usize, stages: Vec<Stage>) -> (r: (Self, RunStep))
        requires
            stages@.len() > 0,
            stages_fit(base, stages@),
        ensures
            r.0.spec_plan() == plan(stages@),
            r.0.spec_base() == base,
            r.0.spec_current() == 0,
            r.0.spec_timeout() == CHANNEL_TIMEOUT,
            r.0.spec_outcome() is None,
            r.1 matches RunStep::Continue { ops, read } && ops@ == stages@[0].ops@
                && read == hcint_addr(base, stages@[0].ch),
    {
        let mut ops: Vec<BusOp> = Vec::new();
        copy_ops(&stages[0].ops, &mut ops);
        assert(channel_fits(base, stages@[0].ch));
        let read = ch_reg(base, stages[0].ch, HCINT);
        let run = TransferRun { base, stages, current: 0, timeout: CHANNEL_TIMEOUT, outcome: None };
        (run, RunStep::Continue { ops, read })
    }

    /// Takes in a read of the running phase's channel interrupt register.
    ///
    /// While the wait of the phase goes on, the register is to be read again. When the
    /// phase ends, the operations that end its wait are performed; a failed phase ends
    /// the transfer in failure, a successful one starts the next phase (its operations
    /// follow), and the last successful phase ends the transfer in success.
    pub fn step(&mut self, hcint: u32) -> (r: RunStep)
        ensures
            final(self).spec_plan() == old(self).spec_plan(),
            final(self).spec_base() == old(self).spec_base(),
            r is Continue ==> 0 <= final(self).spec_reads_left() < old(self).spec_reads_left(),
            match old(self).spec_outcome() {
                Some(ok) => {
                    &&& final(self).spec_outcome() == Some(ok)
                    &&& r matches RunStep::Done { ops, ok: ok2 } && ok2 == ok && ops@.len() == 0
                },
                None => {
                    let base = old(self).spec_base();
                    let i = old(self).spec_current();
                    let plan = old(self).spec_plan();
                    let ch = plan[i].1;
                    let ok = transfer_ended(hcint) && transfer_succeeded(hcint);
                    if !transfer_ended(hcint) && old(self).spec_timeout() > 1 {
                        &&& r matches RunStep::Continue { ops, read } && ops@.len() == 0 && read == hcint_addr(base, ch)
                        &&& final(self).spec_current() == i
                        &&& final(self).spec_timeout() == old(self).spec_timeout() - 1
                        &&& final(self).spec_outcome() is None
                    } else if ok && i + 1 < plan.len() {
                        &&& r matches RunStep::Continue { ops, read }
                            && ops@ == wait_end_ops(base, ch, hcint) + plan[i + 1].0
                            && read == hcint_addr(base, plan[i + 1].1)
                        &&& final(self).spec_current() == i + 1
                        &&& final(self).spec_timeout() == CHANNEL_TIMEOUT
                        &&& final(self).spec_outcome() is None
                    } else {
                        &&& r matches RunStep::Done { ops, ok: ok2 } && ok2 == ok && ops@ == wait_end_ops(base, ch, hcint)
                        &&& final(self).spec_outcome() == Some(ok)
                    }
                },
            },
    {
        proof {
            use_type_invariant(&*self);
        }
        match self.outcome {
            Some(ok) => RunStep::Done { ops: Vec::new(), ok },
            None => {
                let ghost ch = self.stages@[self.current as int].ch;
                assert(channel_fits(self.base, ch));
                let ch = self.stages[self.current].ch;
                match wait_channel_complete(self.base, ch, hcint, self.timeout) {
                    WaitStep::Retry { timeout } => {
                        self.timeout = timeout;
                        RunStep::Continue { ops: Vec::new(), read: ch_reg(self.base, ch, HCINT) }
                    },
                    WaitStep::Finish { ops, ok } => {
                        let mut ops = ops;
                        if ok && self.current < self.stages.len() - 1 {
                            let next = self.current + 1;
                            copy_ops(&self.stages[next].ops, &mut ops);
                            assert(channel_fits(self.base, self.stages@[next as int].ch));
                            let read = ch_reg(self.base, self.stages[next].ch, HCINT);
                            self.current = next;
                            self.timeout = CHANNEL_TIMEOUT;
                            RunStep::Continue { ops, read }
                        } else {
                            self.outcome = Some(ok);
                            RunStep::Done { ops, ok }
                        }
                    },
                }
            },
        }
    }
}

} // verus!
