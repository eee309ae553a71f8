use vstd::prelude::*;
use crate::lifecycle::LifecycleController;

verus! {

/// Point-in-time snapshot of the live operational numbers; recomputed on
/// demand, never persisted.
#[derive(Clone, Debug)]
pub struct ServerStats {
    pub active_connections: usize,
    pub uptime_seconds: u64,
}

/// Seconds since the last transition into Running: zero when no run ever
/// reached Running (or the clock appears to have gone backwards).
pub open spec fn spec_uptime(started_at: Option<u64>, now: nat) -> nat {
    match started_at {
        Some(t) => if now >= t { (now - t) as nat } else { 0 },
        None => 0,
    }
}

/// Snapshot the current server stats. Non-blocking and callable whatever
/// the lifecycle state: when the run is fully stopped the tally reads 0
/// and, with the start timestamp cleared, so does the uptime.
pub fn get_server_stats(controller: &LifecycleController, now_seconds: u64) -> (s: ServerStats)
    ensures
        s.active_connections == controller@.active,
        s.uptime_seconds == spec_uptime(controller@.started_at, now_seconds as nat),
{
    let uptime: u64 = match controller.started_at() {
        Some(t) => if now_seconds >= t {
            now_seconds - t
        } else {
            0
        },
        None => 0,
    };
    ServerStats { active_connections: controller.active_connections(), uptime_seconds: uptime }
}

} // verus!
