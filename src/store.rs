use vstd::prelude::*;

use crate::service::ServiceId;

verus! {

/// Holds at most one live process handle per service. Callers guard it
/// with exclusive access, so a read-modify-write on one service never
/// interleaves with another on the same service.
pub struct HandleStore<H> {
    core: Option<H>,
    auth: Option<H>,
}

impl<H> HandleStore<H> {
    /// The handle held for a service, if any.
    pub closed spec fn slot(&self, id: ServiceId) -> Option<H> {
        match id {
            ServiceId::Core => self.core,
            ServiceId::Auth => self.auth,
        }
    }

    /// Whether the store holds no handle at all.
    pub open spec fn is_empty(&self) -> bool {
        &&& self.slot(ServiceId::Core).is_none()
        &&& self.slot(ServiceId::Auth).is_none()
    }

    pub fn new() -> (r: Self)
        ensures
            forall|j: ServiceId| r.slot(j).is_none(),
    {
        HandleStore { core: None, auth: None }
    }

    /// Whether a handle is held for the service.
    pub fn is_held(&self, id: ServiceId) -> (r: bool)
        ensures
            r == self.slot(id).is_some(),
    {
        match id {
            ServiceId::Core => self.core.is_some(),
            ServiceId::Auth => self.auth.is_some(),
        }
    }

    /// Reads the handle held for the service without removing it.
    pub fn get(&self, id: ServiceId) -> (r: Option<&H>)
        ensures
            r.is_some() == self.slot(id).is_some(),
            r matches Some(h) ==> self.slot(id) == Some(*h),
    {
        match id {
            ServiceId::Core => self.core.as_ref(),
            ServiceId::Auth => self.auth.as_ref(),
        }
    }

    /// Stores a handle for the service, replacing any previous one.
    pub fn set(&mut self, id: ServiceId, handle: H)
        ensures
            final(self).slot(id) == Some(handle),
            forall|j: ServiceId| j != id ==> final(self).slot(j) == old(self).slot(j),
    {
        match id {
            ServiceId::Core => self.core = Some(handle),
            ServiceId::Auth => self.auth = Some(handle),
        }
    }

    /// Removes and returns the handle held for the service.
    pub fn take(&mut self, id: ServiceId) -> (r: Option<H>)
        ensures
            r == old(self).slot(id),
            final(self).slot(id).is_none(),
            forall|j: ServiceId| j != id ==> final(self).slot(j) == old(self).slot(j),
    {
        match id {
            ServiceId::Core => self.core.take(),
            ServiceId::Auth => self.auth.take(),
        }
    }
}

} // verus!
