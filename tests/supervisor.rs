use sidecar_supervisor::endpoint::{health_url, probe_target, resolve_endpoint};
use sidecar_supervisor::health::{
    health_verdict, is_success_status, probe_timeout_ms, DEFAULT_PROBE_TIMEOUT_MS,
};
use sidecar_supervisor::messages::{
    launch_error_message, outcome_message, status_report, stopped_message,
};
use sidecar_supervisor::service::{Hosting, ServiceId};
use sidecar_supervisor::startup::{
    startup_step, StartupPhase, StartupStep, INITIAL_DELAY_MS, SETTLE_DELAY_MS,
};
use sidecar_supervisor::store::HandleStore;
use sidecar_supervisor::supervisor::{
    finish_start, plan_start, shutdown_all, stop, LaunchError, StartOutcome, StartPlan,
};

/// Runs one start request the way the shell does, counting spawns.
fn start(store: &mut HandleStore<u32>, id: ServiceId, spawned: &mut u32) -> StartOutcome {
    match plan_start(store, id) {
        StartPlan::Settled(o) => o,
        StartPlan::Launch => {
            *spawned += 1;
            finish_start(store, id, Ok(*spawned)).ok().unwrap()
        }
    }
}

#[test]
fn start_twice_spawns_one_process() {
    let mut store = HandleStore::new();
    let mut spawned = 0;
    assert_eq!(start(&mut store, ServiceId::Core, &mut spawned), StartOutcome::Started);
    assert_eq!(start(&mut store, ServiceId::Core, &mut spawned), StartOutcome::AlreadyRunning);
    assert_eq!(spawned, 1);
    assert_eq!(store.get(ServiceId::Core), Some(&1));
}

#[test]
fn stop_without_handle_signals_nothing() {
    let mut store: HandleStore<u32> = HandleStore::new();
    assert_eq!(stop(&mut store, ServiceId::Core), None);
    assert!(!store.is_held(ServiceId::Core));
    assert!(!store.is_held(ServiceId::Auth));
    assert_eq!(stopped_message(), "Backends stopped");
}

#[test]
fn stop_then_start_spawns_again() {
    let mut store = HandleStore::new();
    let mut spawned = 0;
    start(&mut store, ServiceId::Core, &mut spawned);
    assert_eq!(stop(&mut store, ServiceId::Core), Some(1));
    assert!(!store.is_held(ServiceId::Core));
    assert_eq!(start(&mut store, ServiceId::Core, &mut spawned), StartOutcome::Started);
    assert_eq!(spawned, 2);
    assert_eq!(store.get(ServiceId::Core), Some(&2));
}

#[test]
fn many_starts_spawn_at_most_once() {
    let mut store = HandleStore::new();
    let mut spawned = 0;
    for _ in 0..16 {
        start(&mut store, ServiceId::Core, &mut spawned);
    }
    assert_eq!(spawned, 1);
}

#[test]
fn failed_launch_leaves_store_empty() {
    let mut store: HandleStore<u32> = HandleStore::new();
    assert_eq!(plan_start(&store, ServiceId::Core), StartPlan::Launch);
    let r = finish_start(
        &mut store,
        ServiceId::Core,
        Err(LaunchError::SpawnFailed("denied".to_string())),
    );
    assert!(matches!(r, Err(LaunchError::SpawnFailed(_))));
    assert!(!store.is_held(ServiceId::Core));
    assert_eq!(plan_start(&store, ServiceId::Core), StartPlan::Launch);
}

#[test]
fn remote_service_is_never_launched() {
    let store: HandleStore<u32> = HandleStore::new();
    assert_eq!(ServiceId::Auth.hosting(), Hosting::Remote);
    assert_eq!(
        plan_start(&store, ServiceId::Auth),
        StartPlan::Settled(StartOutcome::RemotelyHosted)
    );
    assert_eq!(ServiceId::Auth.sidecar_name(), None);
    assert_eq!(ServiceId::Core.sidecar_name(), Some("kika-backend-core"));
}

#[test]
fn shutdown_with_no_handles_returns_nothing() {
    let mut store: HandleStore<u32> = HandleStore::new();
    assert!(shutdown_all(&mut store).is_empty());
}

#[test]
fn shutdown_takes_every_handle() {
    let mut store = HandleStore::new();
    store.set(ServiceId::Auth, 7u32);
    store.set(ServiceId::Core, 3u32);
    assert_eq!(shutdown_all(&mut store), vec![3, 7]);
    assert!(!store.is_held(ServiceId::Core));
    assert!(!store.is_held(ServiceId::Auth));
}

#[test]
fn health_false_without_response_true_on_success() {
    assert!(!health_verdict(None));
    assert!(health_verdict(Some(200)));
    assert!(health_verdict(Some(204)));
    assert!(!health_verdict(Some(199)));
    assert!(!health_verdict(Some(300)));
    assert!(!health_verdict(Some(503)));
    assert!(is_success_status(299));
    assert!(!is_success_status(404));
}

#[test]
fn override_without_listener_probes_and_fails() {
    let target = probe_target(ServiceId::Core, Some("http://127.0.0.1:9999".to_string()));
    assert_eq!(target, "http://127.0.0.1:9999/healthz");
    let timeout = probe_timeout_ms(None);
    assert_eq!(timeout, DEFAULT_PROBE_TIMEOUT_MS);
    assert!(timeout > 0);
    assert!(!health_verdict(None));
}

#[test]
fn endpoints_fall_back_to_defaults() {
    assert_eq!(resolve_endpoint(ServiceId::Core, None), "http://127.0.0.1:8001");
    assert_eq!(
        resolve_endpoint(ServiceId::Auth, None),
        "https://kika-backend.onrender.com"
    );
    assert_eq!(
        probe_target(ServiceId::Auth, None),
        "https://kika-backend.onrender.com/healthz"
    );
    assert_eq!(health_url("http://x"), "http://x/healthz");
    assert_eq!(ServiceId::Core.override_variable(), "KIKA_CORE_URL");
    assert_eq!(ServiceId::Auth.override_variable(), "KIKA_AUTH_URL");
}

#[test]
fn probe_timeout_uses_positive_configuration() {
    assert_eq!(probe_timeout_ms(Some(4500)), 4500);
    assert_eq!(probe_timeout_ms(Some(0)), DEFAULT_PROBE_TIMEOUT_MS);
}

#[test]
fn messages_name_the_service() {
    assert_eq!(outcome_message(ServiceId::Core, StartOutcome::Started), "Core backend started");
    assert_eq!(
        outcome_message(ServiceId::Core, StartOutcome::AlreadyRunning),
        "Core backend already running"
    );
    assert_eq!(
        outcome_message(ServiceId::Auth, StartOutcome::RemotelyHosted),
        "Auth backend is cloud-hosted at Render"
    );
    assert_eq!(
        launch_error_message(ServiceId::Core, &LaunchError::SpawnFailed("no such file".to_string())),
        "Failed to start core backend: no such file. In development mode, start it manually."
    );
    assert_eq!(
        launch_error_message(
            ServiceId::Core,
            &LaunchError::CommandUnavailable("missing binary".to_string())
        ),
        "Failed to create sidecar command: missing binary"
    );
}

#[test]
fn status_report_combines_process_and_health() {
    assert_eq!(
        status_report(ServiceId::Core, true, true),
        "Core sidecar process: running, Health check: ok"
    );
    assert_eq!(
        status_report(ServiceId::Core, false, false),
        "Core sidecar process: not running, Health check: failed"
    );
}

/// Runs the startup sequence to its end, answering each start with `start_ok`.
fn run_startup(start_ok: bool) -> Vec<StartupStep> {
    let mut phase = StartupPhase::Initial;
    let mut last_ok = false;
    let mut steps = Vec::new();
    loop {
        let (step, next) = startup_step(phase, last_ok);
        steps.push(step);
        if step == StartupStep::Done {
            return steps;
        }
        if let StartupStep::Start(_) = step {
            last_ok = start_ok;
        }
        phase = next;
    }
}

#[test]
fn startup_starts_sidecars_in_order() {
    assert_eq!(ServiceId::all(), vec![ServiceId::Core, ServiceId::Auth]);
    assert_eq!(
        run_startup(true),
        vec![
            StartupStep::Wait(INITIAL_DELAY_MS),
            StartupStep::Start(ServiceId::Core),
            StartupStep::Wait(SETTLE_DELAY_MS),
            StartupStep::Probe(ServiceId::Core),
            StartupStep::Done,
        ]
    );
    assert_eq!(INITIAL_DELAY_MS, 500);
    assert_eq!(SETTLE_DELAY_MS, 2000);
}

#[test]
fn failed_startup_start_skips_settle_and_probe() {
    assert_eq!(
        run_startup(false),
        vec![
            StartupStep::Wait(INITIAL_DELAY_MS),
            StartupStep::Start(ServiceId::Core),
            StartupStep::Done,
        ]
    );
    assert_eq!(
        startup_step(StartupPhase::AfterStart(0), false),
        (StartupStep::Done, StartupPhase::Finished)
    );
    assert_eq!(
        startup_step(StartupPhase::AfterStart(0), true),
        (StartupStep::Wait(SETTLE_DELAY_MS), StartupPhase::Settled(0))
    );
}

#[test]
fn finished_startup_stays_done() {
    assert_eq!(
        startup_step(StartupPhase::Finished, true),
        (StartupStep::Done, StartupPhase::Finished)
    );
    assert_eq!(
        startup_step(StartupPhase::Pick(1), true),
        (StartupStep::Done, StartupPhase::Finished)
    );
}
