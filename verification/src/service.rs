//! What is kept of an advertised service.
use vstd::prelude::*;

verus! {

/// Internal tracking of a service that was advertised.
pub struct Service {
    /// The type that the service was advertised with.
    pub service_type: String,
    /// The number of the callback that answers its calls.
    pub callback: u64,
}

/// What a [`Service`] holds.
pub struct ServiceView {
    pub service_type: Seq<char>,
    pub callback: u64,
}

impl View for Service {
    type V = ServiceView;

    open spec fn view(&self) -> ServiceView {
        ServiceView { service_type: self.service_type@, callback: self.callback }
    }
}

/// The callback of a service, if there is one.
pub open spec fn callback_of(service: Option<ServiceView>) -> Option<u64> {
    match service {
        Some(service) => Some(service.callback),
        None => None,
    }
}

} // verus!
