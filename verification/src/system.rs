use vstd::prelude::*;

verus! {

/// Point-in-time host metrics used for safety checks and reporting.
#[derive(Debug, Clone, Copy, PartialEq, Eq, Structural)]
pub struct SystemSnapshot {
    pub total_memory: u64,
    pub available_memory: u64,
    pub cpu_count: usize,
}

} // verus!
