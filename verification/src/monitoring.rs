//! Status-reporting support for the monitoring front-end: the uniform
//! response envelope its endpoints answer with, the event-query parameters,
//! and the service configuration. The HTTP plumbing itself lives outside the
//! library; these are the values it serves.

use vstd::prelude::*;

verus! {

/// The envelope every monitoring endpoint answers with: either data or an
/// error, never both.
#[derive(Debug, Clone)]
pub struct ApiResponse<T> {
    pub success: bool,
    pub data: Option<T>,
    pub error: Option<String>,
}

impl<T> ApiResponse<T> {
    /// A successful answer carrying its data and no error.
    pub fn success(data: T) -> (r: Self)
        ensures
            r.success,
            r.data matches Some(d) && d == data,
            r.error is None,
    {
        ApiResponse { success: true, data: Some(data), error: None }
    }

    /// A failed answer carrying its message and no data.
    pub fn error(message: String) -> (r: Self)
        ensures
            !r.success,
            r.data is None,
            r.error matches Some(m) && m@ == message@,
    {
        ApiResponse { success: false, data: None, error: Some(message) }
    }
}

/// Filtering parameters of an event query.
#[derive(Debug, Clone)]
pub struct EventQuery {
    pub limit: Option<usize>,
    pub severity: Option<String>,
    pub agent_id: Option<String>,
}

/// How the monitoring service is exposed.
#[derive(Debug, Clone, Copy, PartialEq, Eq, Structural)]
pub struct MonitoringConfig {
    pub port: u16,
    pub use_http: bool,
}

impl Default for MonitoringConfig {
    fn default() -> (r: Self)
        ensures
            r.port == 8080,
            r.use_http,
    {
        MonitoringConfig { port: 8080, use_http: true }
    }
}

} // verus!
