//! Which logging backends the process sets up, decided from the caller's
//! configuration; the setup itself is done once, at startup, by the caller.
use vstd::prelude::*;

verus! {

/// The service name under which logs are exported.
pub const DEFAULT_LOG_SERVICE_NAME: &'static str = "valence-coordinator";

/// The logging backends to set up.
#[derive(Clone, Debug)]
pub enum LoggingPlan {
    /// Standard output only, filtered by the environment.
    Stdout,
    /// Standard output and an OTLP endpoint over HTTP, every level from
    /// trace up, under `service_name`.
    StdoutAndOtlp { endpoint: String, service_name: String },
}

/// Exports to `otlp_endpoint` as well as to standard output when one is
/// given; otherwise logs to standard output only.
pub fn logging_plan(otlp_endpoint: Option<String>) -> (r: LoggingPlan)
    ensures
        match otlp_endpoint {
            Some(e) => r matches LoggingPlan::StdoutAndOtlp { endpoint, service_name } && endpoint
                == e && service_name@ == DEFAULT_LOG_SERVICE_NAME@,
            None => r is Stdout,
        },
{
    match otlp_endpoint {
        Some(endpoint) => LoggingPlan::StdoutAndOtlp {
            endpoint,
            service_name: DEFAULT_LOG_SERVICE_NAME.to_owned(),
        },
        None => LoggingPlan::Stdout,
    }
}

} // verus!
