use vstd::prelude::*;

use crate::control::{
    ControlledExecutionResult, ExecutionControl, InMemoryExecutionSnapshot, SuspendedExecution,
};
use crate::counters::{
    after_step, before_step, counters_wf, fresh_counters, requests_suspension,
    requests_suspension_before, ControlCounters,
};

verus! {

/// What the inspector asks of the interpreter once an opcode step has ended.
#[derive(Clone, Copy, Debug, PartialEq, Eq, Structural)]
pub enum StepAction {
    /// Go on with the next opcode.
    Continue,
    /// Suspend execution: the step limit of the segment has been reached.
    Suspend,
}

/// What a step that ends from counters `c` asks of the interpreter.
pub open spec fn step_end_action(c: ControlCounters) -> StepAction {
    if requests_suspension(c) {
        StepAction::Suspend
    } else {
        StepAction::Continue
    }
}

/// What the start of a step from counters `c` asks of the interpreter.
pub open spec fn step_start_action(c: ControlCounters) -> StepAction {
    if requests_suspension_before(c) {
        StepAction::Suspend
    } else {
        StepAction::Continue
    }
}

/// The start of a step asks for a suspension exactly when no limit is
/// recorded yet and the segment has already run at least as many steps as its
/// configured limit; the start of a step records a limit exactly when it asks
/// for a suspension; an unbounded segment is never stopped; and neither the
/// answer nor the counts depend on the carried total.
pub proof fn lemma_step_start_action(c: ControlCounters)
    ensures
        step_start_action(c) == StepAction::Suspend <==> ({
            &&& c.suspend_step_limit is None
            &&& c.max_steps is Some
            &&& c.steps_in_run >= c.max_steps.unwrap()
        }),
        step_start_action(c) == StepAction::Suspend <==> (c.suspend_step_limit is None
            && before_step(c).suspend_step_limit is Some),
        c.max_steps is None ==> step_start_action(c) == StepAction::Continue,
        step_start_action(c) == StepAction::Suspend ==> before_step(c).suspend_step_limit == c.max_steps,
        step_start_action(c) == StepAction::Continue ==> before_step(c).suspend_step_limit == c.suspend_step_limit,
        before_step(c).steps_in_run == c.steps_in_run,
        before_step(c).total_steps == c.total_steps,
        before_step(c).max_steps == c.max_steps,
        forall|t: u64|
            #[trigger] step_start_action((ControlCounters { total_steps: t, ..c })) == step_start_action(c),
{
}

/// The end of a step asks for a suspension exactly when no limit is recorded
/// yet and this step brings the segment to its configured limit; it records a
/// limit exactly when it asks for a suspension; an unbounded segment is never
/// stopped; the answer does not depend on the carried total; and both counts
/// grow by one unless already at `u64::MAX`.
pub proof fn lemma_step_end_action(c: ControlCounters)
    ensures
        step_end_action(c) == StepAction::Suspend <==> ({
            &&& c.suspend_step_limit is None
            &&& c.max_steps is Some
            &&& c.steps_in_run + 1 >= c.max_steps.unwrap()
        }),
        step_end_action(c) == StepAction::Suspend <==> (c.suspend_step_limit is None
            && after_step(c).suspend_step_limit is Some),
        c.max_steps is None ==> step_end_action(c) == StepAction::Continue,
        step_end_action(c) == StepAction::Suspend ==> after_step(c).suspend_step_limit == c.max_steps,
        step_end_action(c) == StepAction::Continue ==> after_step(c).suspend_step_limit == c.suspend_step_limit,
        after_step(c).max_steps == c.max_steps,
        c.steps_in_run < u64::MAX ==> after_step(c).steps_in_run == c.steps_in_run + 1,
        c.steps_in_run == u64::MAX ==> after_step(c).steps_in_run == u64::MAX,
        c.total_steps < u64::MAX ==> after_step(c).total_steps == c.total_steps + 1,
        c.total_steps == u64::MAX ==> after_step(c).total_steps == u64::MAX,
        forall|t: u64|
            #[trigger] step_end_action((ControlCounters { total_steps: t, ..c })) == step_end_action(c),
{
}

/// The step accounting of one run segment.
#[derive(Debug)]
struct StepCounter {
    control: ExecutionControl,
    steps_in_run: u64,
    total_steps: u64,
    suspend_step_limit: Option<u64>,
}

impl View for StepCounter {
    type V = ControlCounters;

    closed spec fn view(&self) -> ControlCounters {
        ControlCounters {
            max_steps: self.control.max_steps,
            steps_in_run: self.steps_in_run,
            total_steps: self.total_steps,
            suspend_step_limit: self.suspend_step_limit,
        }
    }
}

impl StepCounter {
    #[verifier::type_invariant]
    spec fn counters_are_wf(&self) -> bool {
        counters_wf(self@)
    }

    fn new(control: ExecutionControl, total_steps: u64) -> (counter: Self)
        ensures
            counter@ == fresh_counters(control.max_steps, total_steps),
            counter@.max_steps == control.max_steps,
            counter@.steps_in_run == 0,
            counter@.total_steps == total_steps,
            counter@.suspend_step_limit is None,
    {
        StepCounter { control, steps_in_run: 0, total_steps, suspend_step_limit: None }
    }

    fn parts(&self) -> (parts: (u64, u64, Option<u64>))
        ensures
            parts == (self@.steps_in_run, self@.total_steps, self@.suspend_step_limit),
            counters_wf(self@),
    {
        proof {
            use_type_invariant(self);
        }
        (self.steps_in_run, self.total_steps, self.suspend_step_limit)
    }

    fn copy(&self) -> (copy: Self)
        ensures
            copy@ == self@,
    {
        proof {
            use_type_invariant(self);
        }
        StepCounter {
            control: ExecutionControl { max_steps: self.control.max_steps },
            steps_in_run: self.steps_in_run,
            total_steps: self.total_steps,
            suspend_step_limit: self.suspend_step_limit,
        }
    }

    fn step(&mut self) -> (action: StepAction)
        ensures
            final(self)@ == before_step(old(self)@),
            action == step_start_action(old(self)@),
            action == StepAction::Suspend <==> ({
                &&& old(self)@.suspend_step_limit is None
                &&& old(self)@.max_steps is Some
                &&& old(self)@.steps_in_run >= old(self)@.max_steps.unwrap()
            }),
            action == StepAction::Suspend <==> (old(self)@.suspend_step_limit is None
                && final(self)@.suspend_step_limit is Some),
            action == StepAction::Suspend ==> final(self)@.suspend_step_limit
                == old(self)@.max_steps,
            action == StepAction::Continue ==> final(self)@.suspend_step_limit
                == old(self)@.suspend_step_limit,
            final(self)@.max_steps == old(self)@.max_steps,
            final(self)@.steps_in_run == old(self)@.steps_in_run,
            final(self)@.total_steps == old(self)@.total_steps,
    {
        proof {
            use_type_invariant(&*self);
        }
        if self.suspend_step_limit.is_some() {
            return StepAction::Continue;
        }
        match self.control.max_steps {
            Some(limit) => {
                if self.steps_in_run >= limit {
                    self.suspend_step_limit = Some(limit);
                    StepAction::Suspend
                } else {
                    StepAction::Continue
                }
            },
            None => StepAction::Continue,
        }
    }

    fn step_end(&mut self) -> (action: StepAction)
        ensures
            final(self)@ == after_step(old(self)@),
            action == step_end_action(old(self)@),
            action == StepAction::Suspend <==> ({
                &&& old(self)@.suspend_step_limit is None
                &&& old(self)@.max_steps is Some
                &&& old(self)@.steps_in_run + 1 >= old(self)@.max_steps.unwrap()
            }),
            action == StepAction::Suspend <==> (old(self)@.suspend_step_limit is None
                && final(self)@.suspend_step_limit is Some),
            action == StepAction::Suspend ==> final(self)@.suspend_step_limit
                == old(self)@.max_steps,
            action == StepAction::Continue ==> final(self)@.suspend_step_limit
                == old(self)@.suspend_step_limit,
            final(self)@.max_steps == old(self)@.max_steps,
            final(self)@.steps_in_run == (if old(self)@.steps_in_run == u64::MAX {
                u64::MAX as int
            } else {
                old(self)@.steps_in_run + 1
            }),
            final(self)@.total_steps == (if old(self)@.total_steps == u64::MAX {
                u64::MAX as int
            } else {
                old(self)@.total_steps + 1
            }),
    {
        proof {
            use_type_invariant(&*self);
        }
        let max_steps = self.control.max_steps;
        let steps_in_run = self.steps_in_run.saturating_add(1);
        let total_steps = self.total_steps.saturating_add(1);
        let (suspend_step_limit, action) = match (self.suspend_step_limit, max_steps) {
            (None, Some(limit)) => {
                if steps_in_run >= limit {
                    (Some(limit), StepAction::Suspend)
                } else {
                    (None, StepAction::Continue)
                }
            },
            (recorded, _) => (recorded, StepAction::Continue),
        };
        *self = StepCounter {
            control: ExecutionControl { max_steps },
            steps_in_run,
            total_steps,
            suspend_step_limit,
        };
        action
    }
}

/// Inspector wrapper that enforces execution controls.
#[derive(Debug)]
pub struct ControlledInspector<INSP> {
    inner: INSP,
    counters: StepCounter,
}

impl<INSP> View for ControlledInspector<INSP> {
    type V = ControlCounters;

    closed spec fn view(&self) -> ControlCounters {
        self.counters@
    }
}

impl<INSP> ControlledInspector<INSP> {
    /// The wrapped inspector.
    pub closed spec fn inner(&self) -> INSP {
        self.inner
    }

    /// Wraps `inner` for a new run segment under `control`, carrying
    /// `total_steps` steps from earlier segments.
    pub fn new(inner: INSP, control: ExecutionControl, total_steps: u64) -> (controlled: Self)
        ensures
            controlled@ == fresh_counters(control.max_steps, total_steps),
            controlled@.max_steps == control.max_steps,
            controlled@.steps_in_run == 0,
            controlled@.total_steps == total_steps,
            controlled@.suspend_step_limit is None,
            controlled.inner() == inner,
    {
        Self { inner, counters: StepCounter::new(control, total_steps) }
    }

    /// Splits the wrapper into the inner inspector, the steps of this segment,
    /// the cumulative steps, and the limit that suspended the segment, if any.
    pub fn into_parts(self) -> (parts: (INSP, u64, u64, Option<u64>))
        ensures
            parts == (self.inner(), self@.steps_in_run, self@.total_steps, self@.suspend_step_limit),
            counters_wf(self@),
    {
        let (steps_in_run, total_steps, suspend_step_limit) = self.counters.parts();
        (self.inner, steps_in_run, total_steps, suspend_step_limit)
    }

    /// The wrapped inspector, for forwarding the interpreter's hooks to it;
    /// the counters are left as they are.
    pub fn inner_mut(&mut self) -> (inner: &mut INSP)
        ensures
            *inner == old(self).inner(),
            final(self).inner() == *final(inner),
            final(self)@ == old(self)@,
    {
        &mut self.inner
    }

    /// Checks the limit before an opcode runs: a segment that has already run
    /// as many steps as its limit allows records the limit and asks for a
    /// suspension, so no opcode beyond the limit runs (with a limit of 0, not
    /// even the first one). Counts no step.
    pub fn step(&mut self) -> (action: StepAction)
        ensures
            final(self)@ == before_step(old(self)@),
            final(self).inner() == old(self).inner(),
            action == step_start_action(old(self)@),
            action == StepAction::Suspend <==> ({
                &&& old(self)@.suspend_step_limit is None
                &&& old(self)@.max_steps is Some
                &&& old(self)@.steps_in_run >= old(self)@.max_steps.unwrap()
            }),
            action == StepAction::Suspend <==> (old(self)@.suspend_step_limit is None
                && final(self)@.suspend_step_limit is Some),
            action == StepAction::Suspend ==> final(self)@.suspend_step_limit
                == old(self)@.max_steps,
            action == StepAction::Continue ==> final(self)@.suspend_step_limit
                == old(self)@.suspend_step_limit,
            final(self)@.max_steps == old(self)@.max_steps,
            final(self)@.steps_in_run == old(self)@.steps_in_run,
            final(self)@.total_steps == old(self)@.total_steps,
    {
        self.counters.step()
    }

    /// Accounts for an ended opcode step: both step counters grow by one
    /// (held at `u64::MAX`), and the first step that reaches the configured
    /// limit records it and asks for a suspension.
    pub fn step_end(&mut self) -> (action: StepAction)
        ensures
            final(self)@ == after_step(old(self)@),
            final(self).inner() == old(self).inner(),
            action == step_end_action(old(self)@),
            action == StepAction::Suspend <==> ({
                &&& old(self)@.suspend_step_limit is None
                &&& old(self)@.max_steps is Some
                &&& old(self)@.steps_in_run + 1 >= old(self)@.max_steps.unwrap()
            }),
            action == StepAction::Suspend <==> (old(self)@.suspend_step_limit is None
                && final(self)@.suspend_step_limit is Some),
            action == StepAction::Suspend ==> final(self)@.suspend_step_limit
                == old(self)@.max_steps,
            action == StepAction::Continue ==> final(self)@.suspend_step_limit
                == old(self)@.suspend_step_limit,
            final(self)@.max_steps == old(self)@.max_steps,
            final(self)@.steps_in_run == (if old(self)@.steps_in_run == u64::MAX {
                u64::MAX as int
            } else {
                old(self)@.steps_in_run + 1
            }),
            final(self)@.total_steps == (if old(self)@.total_steps == u64::MAX {
                u64::MAX as int
            } else {
                old(self)@.total_steps + 1
            }),
    {
        self.counters.step_end()
    }
}

impl<INSP: Clone> Clone for ControlledInspector<INSP> {
    /// A copy with the same counters and a clone of the wrapped inspector.
    fn clone(&self) -> (copy: Self)
        ensures
            copy@ == self@,
            cloned::<INSP>(self.inner(), copy.inner()),
    {
        ControlledInspector { inner: self.inner.clone(), counters: self.counters.copy() }
    }
}

/// The outcome of a segment that ran to its end: the wrapped inspector goes
/// back to the EVM, the step counters are dropped, and the result is reported
/// as completed.
pub fn completed_execution<INSP, R, S>(inspector: ControlledInspector<INSP>, result: R) -> (res: (
    INSP,
    ControlledExecutionResult<R, S>,
))
    ensures
        res.0 == inspector.inner(),
        res.1 == ControlledExecutionResult::<R, S>::Completed(result),
{
    let (inner, _, _, _) = inspector.into_parts();
    (inner, ControlledExecutionResult::Completed(result))
}

/// The payload of a segment that the controlled inspector suspended: the
/// resumable EVM with the counters that the inspector handed back.
pub fn suspended_execution<EVM>(
    evm: EVM,
    steps_executed: u64,
    total_steps_executed: u64,
    step_limit: Option<u64>,
) -> (suspended: SuspendedExecution<InMemoryExecutionSnapshot<EVM>>)
    requires
        step_limit is Some,
    ensures
        suspended == (SuspendedExecution {
            snapshot: InMemoryExecutionSnapshot { evm, total_steps_executed },
            step_limit: step_limit.unwrap(),
            steps_executed,
            total_steps_executed,
        }),
{
    let step_limit = step_limit.unwrap();
    SuspendedExecution {
        snapshot: InMemoryExecutionSnapshot { evm, total_steps_executed },
        step_limit,
        steps_executed,
        total_steps_executed,
    }
}

} // verus!
