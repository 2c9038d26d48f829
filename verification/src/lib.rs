//! Liveness/readiness probe logic for a node service: maps the observed
//! sync status (or the failure to observe it) to a process exit code and
//! an optional diagnostic message.

mod encoding;
mod probe;

pub use encoding::encode_credential;
pub use probe::HealthCheckRes;
pub use probe::HealthCheckResult;
pub use probe::LndGetInfoRes;
pub use probe::decide_sync;
pub use probe::run_health_checks;
