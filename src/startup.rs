use vstd::prelude::*;

use crate::service::{hosting_of, service_order, Hosting, ServiceId};

verus! {

/// Pause before the first start, letting the shell initialise.
pub const INITIAL_DELAY_MS: u64 = 500;

/// Pause after a sidecar has started, before probing it.
pub const SETTLE_DELAY_MS: u64 = 2000;

/// One step of the automatic startup sequence, for the runner to perform.
#[derive(PartialEq, Eq, Structural, Clone, Copy, Debug)]
pub enum StartupStep {
    Wait(u64),
    Start(ServiceId),
    Probe(ServiceId),
    Done,
}

/// Where the startup sequence stands. Indices are positions in the declared
/// service order.
#[derive(PartialEq, Eq, Structural, Clone, Copy, Debug)]
pub enum StartupPhase {
    /// Nothing has run yet.
    Initial,
    /// Start the first sidecar at this position or later.
    Pick(usize),
    /// The sidecar at this position was just asked to start.
    AfterStart(usize),
    /// The sidecar at this position has settled and is to be probed.
    Settled(usize),
    /// Nothing is left to do.
    Finished,
}

/// Position of the first sidecar at `i` or later, or the number of services.
pub open spec fn first_sidecar_from(i: int) -> int
    decreases service_order().len() - i,
{
    if i >= service_order().len() {
        service_order().len() as int
    } else if hosting_of(service_order()[i]) == Hosting::Sidecar {
        i
    } else {
        first_sidecar_from(i + 1)
    }
}

/// Start the first sidecar at `i` or later, or finish when there is none.
pub open spec fn start_from(i: int) -> (StartupStep, StartupPhase) {
    let j = first_sidecar_from(i);
    if j >= service_order().len() {
        (StartupStep::Done, StartupPhase::Finished)
    } else {
        (StartupStep::Start(service_order()[j]), StartupPhase::AfterStart(j as usize))
    }
}

/// The next step and phase. `last_start_ok` is the result of the most recent
/// start and is read only right after one: a sidecar that started is given
/// time to settle and then probed; one that failed is left, and the sequence
/// moves on to the next sidecar.
pub open spec fn startup_transition(phase: StartupPhase, last_start_ok: bool) -> (
    StartupStep,
    StartupPhase,
) {
    match phase {
        StartupPhase::Initial => (StartupStep::Wait(INITIAL_DELAY_MS), StartupPhase::Pick(0)),
        StartupPhase::Pick(i) => start_from(i as int),
        StartupPhase::AfterStart(j) => if last_start_ok {
            (StartupStep::Wait(SETTLE_DELAY_MS), StartupPhase::Settled(j))
        } else {
            start_from(j + 1)
        },
        StartupPhase::Settled(j) => if j < service_order().len() {
            (StartupStep::Probe(service_order()[j as int]), StartupPhase::Pick((j + 1) as usize))
        } else {
            (StartupStep::Done, StartupPhase::Finished)
        },
        StartupPhase::Finished => (StartupStep::Done, StartupPhase::Finished),
    }
}

fn start_from_position(i: usize) -> (r: (StartupStep, StartupPhase))
    ensures
        r == start_from(i as int),
{
    let ids = ServiceId::all();
    let mut j: usize = i;
    while j < ids.len()
        invariant
            ids@ == service_order(),
            i <= j,
            first_sidecar_from(i as int) == first_sidecar_from(j as int),
        decreases ids@.len() - j,
    {
        if ids[j].hosting() == Hosting::Sidecar {
            return (StartupStep::Start(ids[j]), StartupPhase::AfterStart(j));
        }
        j = j + 1;
    }
    (StartupStep::Done, StartupPhase::Finished)
}

/// Decides the next step of the automatic startup sequence. The runner
/// performs the step, passes back whether a start succeeded, and stops at
/// `Done`. A failed start is never followed by a settling wait or a probe of
/// that service, and never ends the sequence while sidecars remain.
pub fn startup_step(phase: StartupPhase, last_start_ok: bool) -> (r: (StartupStep, StartupPhase))
    ensures
        r == startup_transition(phase, last_start_ok),
        phase matches StartupPhase::AfterStart(j) ==> if last_start_ok {
            r == (StartupStep::Wait(SETTLE_DELAY_MS), StartupPhase::Settled(j))
        } else {
            r == start_from(j + 1)
        },
        (phase matches StartupPhase::AfterStart(_) && !last_start_ok) ==> (r.0 matches StartupStep::Start(_)
            || r.0 == StartupStep::Done),
{
    let n = ServiceId::all().len();
    match phase {
        StartupPhase::Initial => (StartupStep::Wait(INITIAL_DELAY_MS), StartupPhase::Pick(0)),
        StartupPhase::Pick(i) => start_from_position(i),
        StartupPhase::AfterStart(j) => {
            if last_start_ok {
                (StartupStep::Wait(SETTLE_DELAY_MS), StartupPhase::Settled(j))
            } else if j < n {
                start_from_position(j + 1)
            } else {
                (StartupStep::Done, StartupPhase::Finished)
            }
        },
        StartupPhase::Settled(j) => {
            if j < n {
                let ids = ServiceId::all();
                (StartupStep::Probe(ids[j]), StartupPhase::Pick(j + 1))
            } else {
                (StartupStep::Done, StartupPhase::Finished)
            }
        },
        StartupPhase::Finished => (StartupStep::Done, StartupPhase::Finished),
    }
}

} // verus!
