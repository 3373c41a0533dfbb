use vstd::prelude::*;
use vstd::string::*;

use crate::service::{default_url_of, ServiceId};

verus! {

/// The base URL of a service: the override when one is set, else its default.
pub open spec fn endpoint_of(id: ServiceId, override_value: Option<String>) -> Seq<char> {
    match override_value {
        Some(v) => v@,
        None => default_url_of(id)@,
    }
}

/// Resolves the base URL of a service from its override value, if any.
pub fn resolve_endpoint(id: ServiceId, override_value: Option<String>) -> (r: String)
    ensures
        r@ == endpoint_of(id, override_value),
{
    match override_value {
        Some(v) => v,
        None => String::from_str(id.default_url()),
    }
}

/// URL of the health probe under a base URL: the base followed by `/healthz`.
pub fn health_url(endpoint: &str) -> (r: String)
    ensures
        r@ == endpoint@ + "/healthz"@,
{
    let mut r = String::from_str(endpoint);
    r.append("/healthz");
    r
}

/// URL probed to judge the health of a service, given its override value.
pub fn probe_target(id: ServiceId, override_value: Option<String>) -> (r: String)
    ensures
        r@ == endpoint_of(id, override_value) + "/healthz"@,
{
    let base = resolve_endpoint(id, override_value);
    health_url(base.as_str())
}

} // verus!
