//! Values exchanged by the HTTP service: bind options, errors, health and verify payloads.
use vstd::prelude::*;

use crate::cli::input::{ClaimFile, EvidenceFile};
use crate::text::IntoText;

verus! {

/// Service version reported by the health endpoint.
pub const SERVICE_VERSION: &'static str = "platform-1.3-dev";

/// HTTP server bind options.
#[derive(Debug, Clone, PartialEq, Eq)]
pub struct ServeOptions {
    host: String,
    port: u16,
}

impl ServeOptions {
    pub fn new<T: IntoText>(host: T, port: u16) -> (r: Self)
        ensures
            r.host_view() == host.text_view(),
            r.port_value() == port,
    {
        ServeOptions { host: host.into_text(), port }
    }

    pub closed spec fn host_view(&self) -> Seq<char> {
        self.host@
    }

    pub closed spec fn port_value(&self) -> u16 {
        self.port
    }

    pub fn host(&self) -> (r: &str)
        ensures
            r@ == self.host_view(),
    {
        self.host.as_str()
    }

    pub fn port(&self) -> (r: u16)
        ensures
            r == self.port_value(),
    {
        self.port
    }
}

/// Server startup failure.
#[derive(Debug, Clone, PartialEq, Eq)]
pub struct ServeError {
    message: String,
}

impl View for ServeError {
    type V = Seq<char>;

    closed spec fn view(&self) -> Seq<char> {
        self.message@
    }
}

impl ServeError {
    /// The listen address could not be used.
    pub fn bind<T: IntoText>(message: T) -> (r: Self)
        ensures
            r@ == message.text_view(),
    {
        ServeError { message: message.into_text() }
    }

    /// The server stopped with an error.
    pub fn internal<T: IntoText>(message: T) -> (r: Self)
        ensures
            r@ == message.text_view(),
    {
        ServeError { message: message.into_text() }
    }

    pub fn message(&self) -> (r: &str)
        ensures
            r@ == self@,
    {
        self.message.as_str()
    }
}

/// Payload of the health endpoint.
#[derive(Debug, Clone, PartialEq, Eq)]
pub struct HealthResponse {
    pub status: &'static str,
    pub service: &'static str,
    pub version: &'static str,
}

impl HealthResponse {
    /// The service is up: status `ok`, service `vp-reference`, the service version.
    pub fn current() -> (r: Self)
        ensures
            r.status@ == "ok"@,
            r.service@ == "vp-reference"@,
            r.version == SERVICE_VERSION,
    {
        HealthResponse { status: "ok", service: "vp-reference", version: SERVICE_VERSION }
    }
}

/// Body of a verify request: one claim document, one evidence document.
#[derive(Debug, Clone, PartialEq, Eq)]
pub struct VerifyRequest {
    pub claim: ClaimFile,
    pub evidence: EvidenceFile,
    pub explain: bool,
}

} // verus!
