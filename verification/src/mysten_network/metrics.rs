//! Hooks called when a request arrives and when its response is ready.
use std::time::Duration;
use vstd::prelude::*;

verus! {

/// The trait to be implemented when want to be notified about
/// a new request and related metrics around it. When a request
/// is performed (up to the point that a response is created) the
/// on_response method is called with the corresponding metrics
/// details. The on_request method will be called when the request
/// is received, but not further processing has happened at this
/// point.
///
/// Code that copies a provider bounds it by `Clone` where it does so.
pub trait MetricsCallbackProvider: Send + Sync + 'static {
    /// The provider has been told of a request for `path`. A provider that
    /// keeps no record of what it was told leaves this `true`.
    open spec fn requested(&self, path: Seq<char>) -> bool {
        true
    }

    /// The provider has been told of a response for `path`, ready after
    /// `latency`, with status `status`. A provider that keeps no record of
    /// what it was told leaves this `true`.
    open spec fn responded(&self, path: Seq<char>, latency: Duration, status: u16) -> bool {
        true
    }

    /// Method will be called when a request has been received.
    /// `path`: the endpoint uri path
    fn on_request(&self, path: String)
        ensures
            self.requested(path@),
    ;

    /// Method to be called from the server when a request is performed.
    /// `path`: the endpoint uri path
    /// `latency`: the time when the request was received and when the response was created
    /// `status`: the http status code of the response
    fn on_response(&self, path: String, latency: Duration, status: u16)
        ensures
            self.responded(path@, latency, status),
    ;
}

impl MetricsCallbackProvider for () {
    /// The unit provider keeps nothing: every request counts as told.
    open spec fn requested(&self, path: Seq<char>) -> bool {
        true
    }

    /// The unit provider keeps nothing: every response counts as told.
    open spec fn responded(&self, path: Seq<char>, latency: Duration, status: u16) -> bool {
        true
    }

    fn on_request(&self, _path: String) {
    }

    fn on_response(&self, _path: String, _latency: Duration, _status: u16) {
    }
}

/// The request header that carries the path of a gRPC endpoint.
pub const GRPC_ENDPOINT_PATH_HEADER: &'static str = "grpc-path-req";

/// Hands request and response events to a metrics provider, when one is set.
#[derive(Clone)]
pub struct MetricsHandler<M: MetricsCallbackProvider> {
    pub metrics_provider: Option<M>,
}

impl<M: MetricsCallbackProvider> MetricsHandler<M> {
    /// What the provider is told of a request for `uri`: the uri, when a
    /// provider is set; nothing otherwise.
    pub fn request_report(&self, uri: String) -> (report: Option<String>)
        ensures
            match report {
                Some(path) => self.metrics_provider is Some && path@ == uri@,
                None => self.metrics_provider is None,
            },
    {
        match &self.metrics_provider {
            Some(_) => Some(uri),
            None => None,
        }
    }

    /// A request for `uri` was received: the provider, when one is set, is
    /// handed the [`request_report`](Self::request_report), which is returned.
    pub fn on_request(&self, uri: String) -> (report: Option<String>)
        ensures
            match report {
                Some(path) => self.metrics_provider is Some && path@ == uri@,
                None => self.metrics_provider is None,
            },
            self.metrics_provider matches Some(p) ==> p.requested(uri@),
    {
        let report = self.request_report(uri);
        if let Some(path) = &report {
            if let Some(provider) = &self.metrics_provider {
                provider.on_request(path.clone());
            }
        }
        report
    }

    /// What the provider is told of the response to a request for the
    /// endpoint `path` (the value of its [`GRPC_ENDPOINT_PATH_HEADER`]), ready
    /// `latency` after the request arrived, with HTTP status `status`: those
    /// three values, when a provider is set; nothing otherwise.
    pub fn response_report(&self, path: String, latency: Duration, status: u16) -> (report: Option<(String, Duration, u16)>)
        ensures
            match report {
                Some(r) => self.metrics_provider is Some && r.0@ == path@ && r.1 == latency && r.2 == status,
                None => self.metrics_provider is None,
            },
    {
        match &self.metrics_provider {
            Some(_) => Some((path, latency, status)),
            None => None,
        }
    }

    /// The response to a request for the endpoint `path` is ready: the
    /// provider, when one is set, is handed the
    /// [`response_report`](Self::response_report), which is returned.
    pub fn on_response(&self, path: String, latency: Duration, status: u16) -> (report: Option<(String, Duration, u16)>)
        ensures
            match report {
                Some(r) => self.metrics_provider is Some && r.0@ == path@ && r.1 == latency && r.2 == status,
                None => self.metrics_provider is None,
            },
            self.metrics_provider matches Some(p) ==> p.responded(path@, latency, status),
    {
        let report = self.response_report(path, latency, status);
        if let Some((path, latency, status)) = &report {
            if let Some(provider) = &self.metrics_provider {
                provider.on_response(path.clone(), *latency, *status);
            }
        }
        report
    }
}

} // verus!
