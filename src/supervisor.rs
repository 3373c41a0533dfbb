use vstd::prelude::*;

use crate::service::{hosting_of, Hosting, ServiceId};
use crate::store::HandleStore;

verus! {

/// Why a sidecar could not be launched.
pub enum LaunchError {
    /// The bundled executable could not be found or prepared.
    CommandUnavailable(String),
    /// The operating system refused to spawn the process.
    SpawnFailed(String),
}

/// Successful result of a start request.
#[derive(PartialEq, Eq, Structural, Clone, Copy, Debug)]
pub enum StartOutcome {
    Started,
    AlreadyRunning,
    RemotelyHosted,
}

/// What a start request must do, decided under exclusive access to the store.
#[derive(PartialEq, Eq, Structural, Clone, Copy, Debug)]
pub enum StartPlan {
    /// Nothing to launch; the request succeeds with this outcome.
    Settled(StartOutcome),
    /// Launch the sidecar, then hand the result to `finish_start`.
    Launch,
}

/// A start never spawns a remote service, nor a second process for a
/// service whose handle is held.
pub open spec fn start_plan(id: ServiceId, held: bool) -> StartPlan {
    if hosting_of(id) == Hosting::Remote {
        StartPlan::Settled(StartOutcome::RemotelyHosted)
    } else if held {
        StartPlan::Settled(StartOutcome::AlreadyRunning)
    } else {
        StartPlan::Launch
    }
}

/// Whether a start, from the given holding, spawns a process.
pub open spec fn start_spawns(id: ServiceId, held: bool, launch_ok: bool) -> bool {
    start_plan(id, held) == StartPlan::Launch && launch_ok
}

/// Whether a handle is held for the service after a start.
pub open spec fn held_after_start(id: ServiceId, held: bool, launch_ok: bool) -> bool {
    held || start_spawns(id, held, launch_ok)
}

/// Processes spawned by start requests applied one after another, each
/// launch succeeding or failing as `launch_ok` says.
pub open spec fn spawns_over(id: ServiceId, held: bool, launch_ok: Seq<bool>) -> nat
    decreases launch_ok.len(),
{
    if launch_ok.len() == 0 {
        0
    } else {
        (if start_spawns(id, held, launch_ok[0]) { 1nat } else { 0nat }) + spawns_over(
            id,
            held_after_start(id, held, launch_ok[0]),
            launch_ok.drop_first(),
        )
    }
}

/// Decides a start request for `id` from the current store.
pub fn plan_start<H>(store: &HandleStore<H>, id: ServiceId) -> (r: StartPlan)
    ensures
        r == start_plan(id, store.slot(id).is_some()),
{
    match id.hosting() {
        Hosting::Remote => StartPlan::Settled(StartOutcome::RemotelyHosted),
        Hosting::Sidecar => {
            if store.is_held(id) {
                StartPlan::Settled(StartOutcome::AlreadyRunning)
            } else {
                StartPlan::Launch
            }
        },
    }
}

/// Completes a start that was planned as a launch: a new handle is stored,
/// a failure leaves the store as it was.
pub fn finish_start<H>(
    store: &mut HandleStore<H>,
    id: ServiceId,
    launched: Result<H, LaunchError>,
) -> (r: Result<StartOutcome, LaunchError>)
    requires
        start_plan(id, old(store).slot(id).is_some()) == StartPlan::Launch,
    ensures
        match launched {
            Ok(h) => final(store).slot(id) == Some(h) && r == Ok::<StartOutcome, LaunchError>(
                StartOutcome::Started,
            ),
            Err(e) => final(store).slot(id) == old(store).slot(id) && r == Err::<
                StartOutcome,
                LaunchError,
            >(e),
        },
        final(store).slot(id).is_some() == held_after_start(
            id,
            old(store).slot(id).is_some(),
            launched.is_ok(),
        ),
        forall|j: ServiceId| j != id ==> final(store).slot(j) == old(store).slot(j),
{
    match launched {
        Ok(h) => {
            store.set(id, h);
            Ok(StartOutcome::Started)
        },
        Err(e) => Err(e),
    }
}

/// Stops a service: removes its handle and returns it, for the caller to
/// signal termination. Without a handle nothing changes and nothing is
/// returned, so no process is signalled.
pub fn stop<H>(store: &mut HandleStore<H>, id: ServiceId) -> (r: Option<H>)
    ensures
        r == old(store).slot(id),
        final(store).slot(id).is_none(),
        forall|j: ServiceId| j != id ==> final(store).slot(j) == old(store).slot(j),
        old(store).slot(id).is_none() ==> forall|j: ServiceId|
            final(store).slot(j) == old(store).slot(j),
{
    store.take(id)
}

/// The handles a store holds, in the declared service order.
pub open spec fn held_in_order<H>(store: HandleStore<H>) -> Seq<H> {
    slot_seq(store.slot(ServiceId::Core)) + slot_seq(store.slot(ServiceId::Auth))
}

pub open spec fn slot_seq<H>(slot: Option<H>) -> Seq<H> {
    match slot {
        Some(h) => seq![h],
        None => Seq::empty(),
    }
}

/// Empties the store on shutdown and returns every handle it held, in the
/// declared service order, for the caller to terminate.
pub fn shutdown_all<H>(store: &mut HandleStore<H>) -> (r: Vec<H>)
    ensures
        r@ == held_in_order(*old(store)),
        forall|j: ServiceId| final(store).slot(j).is_none(),
        old(store).is_empty() ==> r@.len() == 0,
{
    let mut r: Vec<H> = Vec::new();
    if let Some(h) = store.take(ServiceId::Core) {
        r.push(h);
    }
    if let Some(h) = store.take(ServiceId::Auth) {
        r.push(h);
    }
    assert(r@ =~= held_in_order(*old(store)));
    r
}

/// Two starts of a sidecar service in a row, from a store without its
/// handle, spawn exactly one process: the first launches, the second finds
/// the handle and reports that the service is already running.
pub proof fn start_twice_spawns_once(id: ServiceId, second_launch_ok: bool)
    requires
        hosting_of(id) == Hosting::Sidecar,
    ensures
        start_plan(id, false) == StartPlan::Launch,
        start_plan(id, held_after_start(id, false, true)) == StartPlan::Settled(
            StartOutcome::AlreadyRunning,
        ),
        spawns_over(id, false, seq![true, second_launch_ok]) == 1,
{
    let s = seq![true, second_launch_ok];
    assert(s.drop_first() =~= seq![second_launch_ok]);
    assert(s.drop_first().drop_first() =~= Seq::<bool>::empty());
    assert(s[0]);
    assert(s.drop_first()[0] == second_launch_ok);
    assert(spawns_over(id, true, s.drop_first().drop_first()) == 0);
    assert(spawns_over(id, true, s.drop_first()) == 0);
    assert(spawns_over(id, false, s) == 1);
}

/// After a stop, which leaves no handle for the service, a start of a
/// sidecar service launches it again, and a successful launch is held.
pub proof fn stop_then_start_relaunches<H>(id: ServiceId, stopped: HandleStore<H>)
    requires
        hosting_of(id) == Hosting::Sidecar,
        stopped.slot(id).is_none(),
    ensures
        start_plan(id, stopped.slot(id).is_some()) == StartPlan::Launch,
        start_spawns(id, stopped.slot(id).is_some(), true),
        held_after_start(id, stopped.slot(id).is_some(), true),
{
}

/// Start requests for one service, linearised by exclusive access to the
/// store, spawn at most one process whatever their number and however each
/// launch turns out; none at all when a handle is already held.
pub proof fn starts_spawn_at_most_once(id: ServiceId, held: bool, launch_ok: Seq<bool>)
    ensures
        spawns_over(id, held, launch_ok) <= 1,
        held ==> spawns_over(id, held, launch_ok) == 0,
    decreases launch_ok.len(),
{
    if launch_ok.len() > 0 {
        starts_spawn_at_most_once(id, held_after_start(id, held, launch_ok[0]), launch_ok.drop_first());
    }
}

} // verus!
