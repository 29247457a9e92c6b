use vstd::prelude::*;

use crate::config::Duration;
use crate::text::owned;

verus! {

/// The refusal given when a GPU run is asked of a build without GPU support.
pub open spec fn gpu_unavailable_text() -> Seq<char> {
    "GPU stress requires building with `--features gpu` (cargo build -p libstress --features gpu)"@
}

/// The optional GPU probe. This build carries no GPU backend, so every request is
/// refused with the same message, whatever the intensity and duration.
pub fn run_optional(intensity: u8, duration: Duration) -> (r: Result<(), String>)
    ensures
        r matches Err(m) && m@ == gpu_unavailable_text(),
{
    let _ = (intensity, duration);
    Err(owned("GPU stress requires building with `--features gpu` (cargo build -p libstress --features gpu)"))
}

} // verus!
