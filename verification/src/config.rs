//! Process configuration values, as the environment loader hands them to
//! the program. Loading itself (environment access, defaulting of unset
//! variables) happens outside the library.

use vstd::prelude::*;

verus! {

/// The service's configuration: where to bind, where the bundled front end
/// lives, how the service identifies itself, and the optional telemetry
/// and IP-lookup settings.
pub struct Config {
    pub service_name: String,
    pub bind_address: String,
    pub public_dir: String,
    pub stage: String,
    pub otlp_endpoint: Option<String>,
    pub otlp_authorization_header: Option<String>,
    pub ipinfo_token: Option<String>,
}

/// What the telemetry exporter is set up with.
pub struct TracingConfig<'a> {
    pub service_name: &'a str,
    pub stage: &'a str,
    pub otlp_endpoint: Option<&'a str>,
    pub otlp_authorization_header: Option<&'a str>,
}

} // verus!
