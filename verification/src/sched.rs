use vstd::prelude::*;

use crate::config::{scaled, Intensity};
use crate::mem::at_least;
use crate::text::{decimal, decimal_string, join2};
use vstd::string::StringExecFns;

verus! {

/// Most worker threads the scheduler stress spawns per cycle.
pub const MAX_THREADS: usize = 256;

/// Parameters of the scheduler stress.
#[derive(Debug, Clone, Copy, PartialEq, Eq, Structural)]
pub struct SchedPlan {
    /// Threads spawned and joined per cycle.
    pub workers: usize,
    /// Counter increments per thread.
    pub iterations: usize,
}

/// Refusal of a scheduler stress request.
#[derive(Debug, Clone, Copy, PartialEq, Eq, Structural)]
pub struct SchedError {
    pub requested: usize,
}

impl SchedError {
    /// The text that describes the refusal.
    pub fn message(&self) -> (r: String)
        ensures
            r@ == "sched-stress capped at 256 threads (requested "@ + decimal(self.requested as nat) + ")"@,
    {
        let d = decimal_string(self.requested as u64);
        join2("sched-stress capped at 256 threads (requested ", d.as_str()).concat(")")
    }
}

/// The scheduler stress parameters: more than 256 threads is refused; otherwise the
/// requested count (at least 1) and `max(scale(200), 20)` increments per thread.
pub fn sched_plan(intensity: Intensity, threads: usize) -> (r: Result<SchedPlan, SchedError>)
    ensures
        threads > MAX_THREADS <==> r is Err,
        r matches Err(e) ==> e.requested == threads,
        r matches Ok(p) ==> p.workers == (if threads < 1 { 1 } else { threads }) && p.iterations as nat
            == at_least(scaled(200, intensity.0 as nat), 20) && 1 <= p.workers <= MAX_THREADS,
{
    if threads > MAX_THREADS {
        return Err(SchedError { requested: threads });
    }
    let iters = intensity.scale_usize(200);
    Ok(
        SchedPlan {
            workers: if threads < 1 { 1 } else { threads },
            iterations: if iters < 20 { 20 } else { iters },
        },
    )
}

} // verus!
