use vstd::prelude::*;

verus! {

/// The step accounting of a controlled inspector, as a mathematical value.
///
/// `max_steps` is the configured limit of the run segment, `steps_in_run`
/// counts the opcode steps of this segment, `total_steps` counts them across
/// resumed segments, and `suspend_step_limit` holds the limit once it has
/// triggered a suspension.
pub struct ControlCounters {
    pub max_steps: Option<u64>,
    pub steps_in_run: u64,
    pub total_steps: u64,
    pub suspend_step_limit: Option<u64>,
}

/// `n + 1`, held at `u64::MAX`.
pub open spec fn saturating_inc(n: u64) -> u64 {
    if n == u64::MAX {
        n
    } else {
        (n + 1) as u64
    }
}

/// `n`, held at `u64::MAX`.
pub open spec fn clamp_u64(n: int) -> u64 {
    if n > u64::MAX {
        u64::MAX
    } else {
        n as u64
    }
}

/// The counters of a segment that has not run a step yet.
pub open spec fn fresh_counters(max_steps: Option<u64>, total_steps: u64) -> ControlCounters {
    ControlCounters { max_steps, steps_in_run: 0, total_steps, suspend_step_limit: None }
}

/// Whether the segment must stop before its next opcode runs: the limit is
/// already reached and no suspension has been asked for yet.
pub open spec fn requests_suspension_before(c: ControlCounters) -> bool {
    &&& c.suspend_step_limit is None
    &&& c.max_steps matches Some(limit)
    &&& c.steps_in_run >= limit
}

/// Whether the step that ends from `c` reaches the limit for the first time.
pub open spec fn requests_suspension(c: ControlCounters) -> bool {
    &&& c.suspend_step_limit is None
    &&& c.max_steps matches Some(limit)
    &&& saturating_inc(c.steps_in_run) >= limit
}

/// The counters once an opcode is about to run: no step is counted, and a
/// limit that is already reached is recorded.
pub open spec fn before_step(c: ControlCounters) -> ControlCounters {
    ControlCounters {
        suspend_step_limit: if requests_suspension_before(c) {
            c.max_steps
        } else {
            c.suspend_step_limit
        },
        ..c
    }
}

/// The counters after one more opcode step has ended.
pub open spec fn after_step(c: ControlCounters) -> ControlCounters {
    ControlCounters {
        max_steps: c.max_steps,
        steps_in_run: saturating_inc(c.steps_in_run),
        total_steps: saturating_inc(c.total_steps),
        suspend_step_limit: if requests_suspension(c) {
            c.max_steps
        } else {
            c.suspend_step_limit
        },
    }
}

/// One hook: `true` is the end of an opcode step, `false` the start of one.
pub open spec fn apply_hook(c: ControlCounters, step_ended: bool) -> ControlCounters {
    if step_ended {
        after_step(c)
    } else {
        before_step(c)
    }
}

/// Whether the hook asks for a suspension.
pub open spec fn hook_requests_suspension(c: ControlCounters, step_ended: bool) -> bool {
    if step_ended {
        requests_suspension(c)
    } else {
        requests_suspension_before(c)
    }
}

/// The counters after the hooks `hooks`, in order.
pub open spec fn counters_after(c: ControlCounters, hooks: Seq<bool>) -> ControlCounters
    decreases hooks.len(),
{
    if hooks.len() == 0 {
        c
    } else {
        apply_hook(counters_after(c, hooks.drop_last()), hooks.last())
    }
}

/// How many of the hooks are ends of opcode steps.
pub open spec fn ended_steps(hooks: Seq<bool>) -> nat
    decreases hooks.len(),
{
    if hooks.len() == 0 {
        0
    } else {
        ended_steps(hooks.drop_last()) + if hooks.last() {
            1nat
        } else {
            0nat
        }
    }
}

/// How many of the hooks, run in order from `c`, ask for a suspension.
pub open spec fn suspensions_in(c: ControlCounters, hooks: Seq<bool>) -> nat
    decreases hooks.len(),
{
    if hooks.len() == 0 {
        0
    } else {
        suspensions_in(c, hooks.drop_last()) + if hook_requests_suspension(
            counters_after(c, hooks.drop_last()),
            hooks.last(),
        ) {
            1nat
        } else {
            0nat
        }
    }
}

/// The total is never below the segment's steps; a recorded limit is the
/// configured one and has been reached; and while no suspension is recorded,
/// a bounded segment has run fewer steps than its limit, or none.
pub open spec fn counters_wf(c: ControlCounters) -> bool {
    &&& c.total_steps >= c.steps_in_run
    &&& c.suspend_step_limit matches Some(limit) ==> {
        &&& c.max_steps == Some(limit)
        &&& c.steps_in_run >= limit
    }
    &&& c.suspend_step_limit is None ==> (c.max_steps matches Some(limit) ==> c.steps_in_run
        < limit || c.steps_in_run == 0)
}

/// A fresh segment keeps the configured limit as given, has run no step,
/// carries the given total, and has recorded no limit.
pub proof fn lemma_fresh_counters(max_steps: Option<u64>, total_steps: u64)
    ensures
        fresh_counters(max_steps, total_steps).max_steps == max_steps,
        fresh_counters(max_steps, total_steps).steps_in_run == 0,
        fresh_counters(max_steps, total_steps).total_steps == total_steps,
        fresh_counters(max_steps, total_steps).suspend_step_limit is None,
{
}

/// A fresh unbounded segment asks for no suspension, and records no limit,
/// whatever hooks follow.
pub proof fn lemma_fresh_unbounded_never_suspends(total_steps: u64, hooks: Seq<bool>)
    ensures
        suspensions_in(fresh_counters(None, total_steps), hooks) == 0,
        counters_after(fresh_counters(None, total_steps), hooks).suspend_step_limit is None,
        forall|i: int|
            0 <= i < hooks.len() ==> !hook_requests_suspension(
                #[trigger] counters_after(fresh_counters(None, total_steps), hooks.take(i)),
                hooks[i],
            ),
{
    lemma_unbounded_never_suspends(fresh_counters(None, total_steps), hooks);
    assert forall|i: int| 0 <= i < hooks.len() implies !hook_requests_suspension(
        #[trigger] counters_after(fresh_counters(None, total_steps), hooks.take(i)),
        hooks[i],
    ) by {
        lemma_unbounded_never_suspends(fresh_counters(None, total_steps), hooks.take(i));
    }
}

/// A fresh segment is well formed.
pub proof fn lemma_fresh_wf(max_steps: Option<u64>, total_steps: u64)
    ensures
        counters_wf(fresh_counters(max_steps, total_steps)),
{
}

/// Both hooks keep the counters well formed.
pub proof fn lemma_hook_keeps_wf(c: ControlCounters, step_ended: bool)
    requires
        counters_wf(c),
    ensures
        counters_wf(apply_hook(c, step_ended)),
{
}

/// Every state reached by hooks from a well-formed state is well formed.
pub proof fn lemma_run_keeps_wf(c: ControlCounters, hooks: Seq<bool>)
    requires
        counters_wf(c),
    ensures
        counters_wf(counters_after(c, hooks)),
    decreases hooks.len(),
{
    if hooks.len() > 0 {
        lemma_run_keeps_wf(c, hooks.drop_last());
    }
}

/// A suspension is asked for exactly when the segment has run as many steps
/// as its limit allows: before an opcode once the limit is reached, or at the
/// end of the step that reaches a limit of at least one. So a segment with a
/// limit of 0 is stopped before its first opcode.
pub proof fn lemma_suspension_at_limit(c: ControlCounters)
    requires
        counters_wf(c),
    ensures
        requests_suspension_before(c) ==> c.steps_in_run == c.max_steps.unwrap(),
        requests_suspension(c) && c.max_steps != Some(0u64) ==> after_step(
            c,
        ).steps_in_run == c.max_steps.unwrap(),
        c.max_steps == Some(0u64) && c.suspend_step_limit is None ==> requests_suspension_before(
            c,
        ),
{
}

/// A hook that asks for a suspension records the configured limit, so a
/// suspended segment always carries its limit.
pub proof fn lemma_suspension_records_limit(c: ControlCounters, step_ended: bool)
    requires
        hook_requests_suspension(c, step_ended),
    ensures
        c.max_steps is Some,
        apply_hook(c, step_ended).suspend_step_limit == c.max_steps,
{
}

/// Ending `n` steps grows both counters by `n`, held at `u64::MAX`; starting
/// steps counts nothing; the configured limit is unchanged.
pub proof fn lemma_run_counts(c: ControlCounters, hooks: Seq<bool>)
    ensures
        counters_after(c, hooks).steps_in_run == clamp_u64(c.steps_in_run + ended_steps(hooks)),
        counters_after(c, hooks).total_steps == clamp_u64(c.total_steps + ended_steps(hooks)),
        counters_after(c, hooks).max_steps == c.max_steps,
    decreases hooks.len(),
{
    if hooks.len() > 0 {
        lemma_run_counts(c, hooks.drop_last());
    }
}

/// Once a limit is recorded, later hooks neither change it nor ask for
/// another suspension.
pub proof fn lemma_limit_recorded_once(c: ControlCounters, hooks: Seq<bool>)
    requires
        c.suspend_step_limit is Some,
    ensures
        counters_after(c, hooks).suspend_step_limit == c.suspend_step_limit,
        suspensions_in(c, hooks) == 0,
    decreases hooks.len(),
{
    if hooks.len() > 0 {
        lemma_limit_recorded_once(c, hooks.drop_last());
    }
}

/// An unbounded segment never asks for a suspension.
pub proof fn lemma_unbounded_never_suspends(c: ControlCounters, hooks: Seq<bool>)
    requires
        c.max_steps is None,
    ensures
        counters_after(c, hooks).suspend_step_limit == c.suspend_step_limit,
        counters_after(c, hooks).max_steps is None,
        suspensions_in(c, hooks) == 0,
    decreases hooks.len(),
{
    if hooks.len() > 0 {
        lemma_unbounded_never_suspends(c, hooks.drop_last());
    }
}

/// A fresh segment bounded by `limit` asks for exactly one suspension, at the
/// first hook from which it has ended `limit` steps, and records the limit
/// from then on.
pub proof fn lemma_bounded_segment(limit: u64, total_steps: u64, hooks: Seq<bool>)
    ensures
        ({
            let c = fresh_counters(Some(limit), total_steps);
            let reached = hooks.len() > 0 && ended_steps(hooks) >= limit;
            &&& counters_after(c, hooks).suspend_step_limit == (if reached {
                Some(limit)
            } else {
                None
            })
            &&& suspensions_in(c, hooks) == (if reached {
                1nat
            } else {
                0nat
            })
        }),
    decreases hooks.len(),
{
    let c = fresh_counters(Some(limit), total_steps);
    if hooks.len() > 0 {
        lemma_bounded_segment(limit, total_steps, hooks.drop_last());
        lemma_run_counts(c, hooks.drop_last());
    }
}

} // verus!
