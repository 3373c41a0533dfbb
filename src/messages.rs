use vstd::prelude::*;
use vstd::string::*;

use crate::service::{label_of, name_of, ServiceId};
use crate::supervisor::{LaunchError, StartOutcome};

verus! {

pub open spec fn outcome_text(id: ServiceId, outcome: StartOutcome) -> Seq<char> {
    label_of(id)@ + match outcome {
        StartOutcome::Started => " backend started"@,
        StartOutcome::AlreadyRunning => " backend already running"@,
        StartOutcome::RemotelyHosted => " backend is cloud-hosted at Render"@,
    }
}

/// Message reported for a successful start request.
pub fn outcome_message(id: ServiceId, outcome: StartOutcome) -> (r: String)
    ensures
        r@ == outcome_text(id, outcome),
{
    let mut r = String::from_str(id.label());
    match outcome {
        StartOutcome::Started => r.append(" backend started"),
        StartOutcome::AlreadyRunning => r.append(" backend already running"),
        StartOutcome::RemotelyHosted => r.append(" backend is cloud-hosted at Render"),
    }
    r
}

pub open spec fn launch_error_text(id: ServiceId, e: LaunchError) -> Seq<char> {
    match e {
        LaunchError::CommandUnavailable(reason) => "Failed to create sidecar command: "@ + reason@,
        LaunchError::SpawnFailed(reason) => "Failed to start "@ + name_of(id)@ + " backend: "@
            + reason@ + ". In development mode, start it manually."@,
    }
}

/// Message reported when a sidecar could not be launched.
pub fn launch_error_message(id: ServiceId, e: &LaunchError) -> (r: String)
    ensures
        r@ == launch_error_text(id, *e),
{
    match e {
        LaunchError::CommandUnavailable(reason) => {
            let mut r = String::from_str("Failed to create sidecar command: ");
            r.append(reason.as_str());
            r
        },
        LaunchError::SpawnFailed(reason) => {
            let mut r = String::from_str("Failed to start ");
            r.append(id.name());
            r.append(" backend: ");
            r.append(reason.as_str());
            r.append(". In development mode, start it manually.");
            r
        },
    }
}

/// Message reported by a stop request, which always succeeds.
pub fn stopped_message() -> (r: &'static str)
    ensures
        r@ == "Backends stopped"@,
{
    "Backends stopped"
}

pub open spec fn status_text(id: ServiceId, held: bool, healthy: bool) -> Seq<char> {
    label_of(id)@ + " sidecar process: "@ + (if held {
        "running"@
    } else {
        "not running"@
    }) + ", Health check: "@ + (if healthy {
        "ok"@
    } else {
        "failed"@
    })
}

/// Diagnostic line combining whether a handle is held and the probe verdict.
pub fn status_report(id: ServiceId, held: bool, healthy: bool) -> (r: String)
    ensures
        r@ == status_text(id, held, healthy),
{
    let mut r = String::from_str(id.label());
    r.append(" sidecar process: ");
    if held {
        r.append("running");
    } else {
        r.append("not running");
    }
    r.append(", Health check: ");
    if healthy {
        r.append("ok");
    } else {
        r.append("failed");
    }
    r
}

} // verus!
