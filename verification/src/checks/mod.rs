//! Production dependency checks for common backends.
//!
//! Each check says how long its probe may take, and turns what the probe came
//! to into a status or an error.
pub mod redis;
pub mod sqlx;

use vstd::prelude::*;

use crate::types::HealthStatus;

verus! {

/// The status of a probe that succeeded after `elapsed` nanoseconds: `Degraded`
/// if it took longer than `warn_above`.
pub open spec fn latency_status(elapsed: nat, warn_above: nat) -> HealthStatus {
    if elapsed > warn_above {
        HealthStatus::Degraded
    } else {
        HealthStatus::Healthy
    }
}

/// A latency at or below the threshold is `Healthy`, one above it `Degraded`;
/// a slower probe is never reported healthier.
pub proof fn law_threshold_is_sharp(faster: nat, slower: nat, warn_above: nat)
    requires
        faster <= slower,
    ensures
        faster <= warn_above <==> latency_status(faster, warn_above) == HealthStatus::Healthy,
        faster > warn_above <==> latency_status(faster, warn_above) == HealthStatus::Degraded,
        latency_status(faster, warn_above).severity() <= latency_status(
            slower,
            warn_above,
        ).severity(),
{
}

} // verus!
