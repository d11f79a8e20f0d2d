//! Hooks through which a server reports request metrics.
use std::time::Instant;
use vstd::prelude::*;

pub mod metrics;

verus! {

/// `std::time::Instant`, carried through the metrics hooks unchanged.
#[verifier::external_type_specification]
#[verifier::external_body]
pub struct ExInstant(Instant);

/// The trait to be implemented when want to be notified about
/// a new request and related metrics around it. When a request
/// is performed (up to the point that a response is created) the
/// on_request method is called with the corresponding metrics
/// details.
///
/// Code that copies a provider bounds it by `Clone` where it does so.
pub trait MetricsCallbackProvider: Send + Sync + 'static {
    /// Method to be called from the server when a request is performed.
    /// `path`: the endpoint uri path
    /// `start_time`: the time when the request was received
    /// `status`: the http status code of the response
    fn on_request(&self, path: String, start_time: Instant, status: u16);
}

impl MetricsCallbackProvider for () {
    fn on_request(&self, _path: String, _start_time: Instant, _status: u16) {
    }
}

} // verus!
