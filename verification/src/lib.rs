//! Health check endpoints for Rust services: liveness, readiness and startup
//! probes with dependency checking.
pub mod axum;
pub mod checks;
pub mod duration;
pub mod error;
pub mod metrics;
pub mod registry;
pub mod types;

pub use checks::redis::RedisCheck;
pub use checks::sqlx::SqlxCheck;
pub use duration::Duration;
pub use error::HealthCheckError;
pub use metrics::{metrics_handler, render_prometheus, MetricsState};
pub use registry::{HealthRegistry, RegistryHandle};
pub use types::{CheckResult, HealthResponse, HealthStatus, LivenessResponse, ReadinessResponse};
