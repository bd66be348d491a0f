//! Starting telemetry. Installing the tracer and its exporters is I/O done by
//! the service around this library; what is decided here is that a setup
//! which failed does not stop the service.

use vstd::prelude::*;

verus! {

/// Why the tracer could not be installed.
pub struct TraceSetupError {
    pub message: String,
}

/// The handle of the tracing setup, held for as long as the service runs.
pub struct Telemetry {}

impl Telemetry {
    /// The handle after the tracer was installed, whether or not that worked:
    /// a failed setup leaves the service running without exported traces.
    pub fn new(setup: Result<(), TraceSetupError>) -> (res: Telemetry) {
        let _ = setup;
        Telemetry {}
    }
}

/// Goes on after installing the tracer, whether or not that worked.
pub fn init_telemetry(setup: Result<(), TraceSetupError>) {
    let _ = setup;
}

} // verus!
