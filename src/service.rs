use vstd::prelude::*;

verus! {

/// A backend service managed by the supervisor. The set is fixed.
#[derive(PartialEq, Eq, Structural, Clone, Copy, Debug)]
pub enum ServiceId {
    Core,
    Auth,
}

/// Where a service runs: spawned beside the shell, or hosted elsewhere.
#[derive(PartialEq, Eq, Structural, Clone, Copy, Debug)]
pub enum Hosting {
    Sidecar,
    Remote,
}

/// How a service runs.
pub open spec fn hosting_of(id: ServiceId) -> Hosting {
    match id {
        ServiceId::Core => Hosting::Sidecar,
        ServiceId::Auth => Hosting::Remote,
    }
}

/// Every managed service, in the declared start order.
pub open spec fn service_order() -> Seq<ServiceId> {
    seq![ServiceId::Core, ServiceId::Auth]
}

impl ServiceId {
    /// Every managed service, in the declared start order.
    pub fn all() -> (r: Vec<ServiceId>)
        ensures
            r@ == service_order(),
    {
        let r = vec![ServiceId::Core, ServiceId::Auth];
        assert(r@ =~= service_order());
        r
    }

    pub fn hosting(&self) -> (r: Hosting)
        ensures
            r == hosting_of(*self),
    {
        match self {
            ServiceId::Core => Hosting::Sidecar,
            ServiceId::Auth => Hosting::Remote,
        }
    }

    /// Name of the bundled executable that runs a sidecar service.
    pub fn sidecar_name(&self) -> (r: Option<&'static str>)
        ensures
            r.is_some() == (hosting_of(*self) == Hosting::Sidecar),
            *self == ServiceId::Core ==> (r matches Some(n) && n@ == "kika-backend-core"@),
    {
        match self {
            ServiceId::Core => Some("kika-backend-core"),
            ServiceId::Auth => None,
        }
    }

    /// Environment variable that overrides the service's base URL.
    pub fn override_variable(&self) -> (r: &'static str)
        ensures
            r@ == override_variable_of(*self)@,
    {
        match self {
            ServiceId::Core => "KIKA_CORE_URL",
            ServiceId::Auth => "KIKA_AUTH_URL",
        }
    }

    /// Base URL used when no override is set.
    pub fn default_url(&self) -> (r: &'static str)
        ensures
            r@ == default_url_of(*self)@,
    {
        match self {
            ServiceId::Core => "http://127.0.0.1:8001",
            ServiceId::Auth => "https://kika-backend.onrender.com",
        }
    }

    /// Lower-case name of the service.
    pub fn name(&self) -> (r: &'static str)
        ensures
            r@ == name_of(*self)@,
    {
        match self {
            ServiceId::Core => "core",
            ServiceId::Auth => "auth",
        }
    }

    /// Name used at the start of messages about the service.
    pub fn label(&self) -> (r: &'static str)
        ensures
            r@ == label_of(*self)@,
    {
        match self {
            ServiceId::Core => "Core",
            ServiceId::Auth => "Auth",
        }
    }
}

pub open spec fn override_variable_of(id: ServiceId) -> &'static str {
    match id {
        ServiceId::Core => "KIKA_CORE_URL",
        ServiceId::Auth => "KIKA_AUTH_URL",
    }
}

pub open spec fn default_url_of(id: ServiceId) -> &'static str {
    match id {
        ServiceId::Core => "http://127.0.0.1:8001",
        ServiceId::Auth => "https://kika-backend.onrender.com",
    }
}

pub open spec fn name_of(id: ServiceId) -> &'static str {
    match id {
        ServiceId::Core => "core",
        ServiceId::Auth => "auth",
    }
}

pub open spec fn label_of(id: ServiceId) -> &'static str {
    match id {
        ServiceId::Core => "Core",
        ServiceId::Auth => "Auth",
    }
}

} // verus!
