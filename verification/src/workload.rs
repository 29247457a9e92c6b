use vstd::prelude::*;

use std::sync::atomic::AtomicBool;
use std::sync::atomic::Ordering;
use std::sync::Arc;

verus! {

/// Cooperative stop flag checked by long-running loops; clones share one flag.
///
/// Nothing is stated of what `should_stop` returns: any thread holding a clone may
/// fire the signal at any time.
#[derive(Clone)]
pub struct StopSignal(Arc<AtomicBool>);

impl StopSignal {
    /// A signal that has not fired. The flag is a std `AtomicBool`, whose contents
    /// Verus gives no view of, so no clause states that it starts unset.
    pub fn new() -> Self {
        StopSignal(Arc::new(AtomicBool::new(false)))
    }

    /// Fires the signal for every clone.
    pub fn stop(&self) {
        self.0.store(true, Ordering::Relaxed)
    }

    /// Whether any clone has fired the signal.
    pub fn should_stop(&self) -> bool {
        self.0.load(Ordering::Relaxed)
    }
}

} // verus!
