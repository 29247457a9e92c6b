use vstd::prelude::*;

verus! {

/// Lowest load level.
pub const INTENSITY_MIN: u8 = 1;
/// Highest load level.
pub const INTENSITY_MAX: u8 = 10;
/// Level at which a base value is used unscaled.
pub const INTENSITY_NEUTRAL: u8 = 5;

/// Normalized load level (1 = light, 10 = extreme).
#[derive(Debug, Clone, Copy, PartialEq, Eq, Structural)]
pub struct Intensity(pub u8);

/// `raw` clamped into `[INTENSITY_MIN, INTENSITY_MAX]`.
pub open spec fn clamp_level(raw: u8) -> u8 {
    if raw < INTENSITY_MIN {
        INTENSITY_MIN
    } else if raw > INTENSITY_MAX {
        INTENSITY_MAX
    } else {
        raw
    }
}

/// `base` scaled by the factor `level / 5` (1.0 at level 5, 2.0 at level 10),
/// rounded to the nearest integer, at least 1 and at most `usize::MAX`.
pub open spec fn scaled(base: nat, level: nat) -> nat {
    let v = (2 * (base * level) + 5) / 10;
    if v < 1 {
        1
    } else if v > usize::MAX {
        usize::MAX as nat
    } else {
        v
    }
}

impl Intensity {
    /// Builds a level, clamping `raw` into `1..=10`.
    pub fn new(raw: u8) -> (r: Self)
        ensures
            r.0 == clamp_level(raw),
    {
        if raw < INTENSITY_MIN {
            Intensity(INTENSITY_MIN)
        } else if raw > INTENSITY_MAX {
            Intensity(INTENSITY_MAX)
        } else {
            Intensity(raw)
        }
    }

    /// Scale a base value by intensity (1.0 at level 5, up to 2.0 at 10), never below 1.
    pub fn scale_usize(&self, base: usize) -> (r: usize)
        ensures
            r as nat == scaled(base as nat, self.0 as nat),
    {
        let b: u128 = base as u128;
        let l: u128 = self.0 as u128;
        assert(b * l <= 0xffff_ffff_ffff_ffff * 255) by (nonlinear_arith)
            requires
                b <= 0xffff_ffff_ffff_ffff,
                l <= 255,
        ;
        let p: u128 = b * l;
        let v: u128 = (2 * p + 5) / 10;
        if v < 1 {
            1
        } else if v > usize::MAX as u128 {
            usize::MAX
        } else {
            v as usize
        }
    }
}

/// A kind of stress workload.
#[derive(Debug, Clone, Copy, PartialEq, Eq, Hash, Structural)]
pub enum WorkloadKind {
    Cpu,
    Memory,
    Io,
    Compile,
    Gpu,
    Net,
    Sched,
    All,
}

/// How the compiler stress drives `cargo`.
#[derive(Debug, Clone, Copy, PartialEq, Eq, Structural)]
pub enum CompileMode {
    BuildRelease,
    Check,
    Incremental,
}

impl Default for CompileMode {
    fn default() -> (r: Self)
        ensures
            r == CompileMode::BuildRelease,
    {
        CompileMode::BuildRelease
    }
}

/// A span of time: whole seconds plus a sub-second part in nanoseconds.
#[derive(Debug, Clone, Copy, PartialEq, Eq, Structural)]
pub struct Duration {
    pub secs: u64,
    pub nanos: u32,
}

impl Duration {
    /// A span of exactly `secs` seconds.
    pub fn from_secs(secs: u64) -> (r: Self)
        ensures
            r.secs == secs,
            r.nanos == 0,
    {
        Duration { secs, nanos: 0 }
    }
}

/// Common runner configuration shared across stress modules.
#[derive(Debug, Clone)]
pub struct StressConfig {
    pub intensity: Intensity,
    pub duration: Duration,
    /// `0` means auto-detect logical CPUs.
    pub threads: usize,
    pub workloads: Vec<WorkloadKind>,
    pub io_dir: String,
    pub memory_target: Option<u64>,
    pub memory_cap_override: bool,
    pub compile_modules: usize,
    pub compile_mode: CompileMode,
    pub gpu_enabled: bool,
}

/// Worker count used when none was configured and detection failed.
pub const FALLBACK_THREADS: usize = 4;

/// Threads to use: the configured count, else the detected parallelism, else 4.
pub open spec fn resolved_threads(configured: usize, detected: Option<usize>) -> usize {
    if configured > 0 {
        configured
    } else {
        match detected {
            Some(n) => n,
            None => FALLBACK_THREADS,
        }
    }
}

impl StressConfig {
    /// The default configuration, with I/O under `io_dir`
    /// (the temp directory joined with `libstress-io` in the shipped defaults).
    pub fn with_io_dir(io_dir: String) -> (r: Self)
        ensures
            r.intensity == Intensity(5),
            r.duration == (Duration { secs: 30, nanos: 0 }),
            r.threads == 0,
            r.workloads@ == seq![WorkloadKind::All],
            r.io_dir@ == io_dir@,
            r.memory_target is None,
            !r.memory_cap_override,
            r.compile_modules == 50,
            r.compile_mode == CompileMode::BuildRelease,
            !r.gpu_enabled,
    {
        let mut workloads: Vec<WorkloadKind> = Vec::new();
        workloads.push(WorkloadKind::All);
        StressConfig {
            intensity: Intensity(5),
            duration: Duration::from_secs(30),
            threads: 0,
            workloads,
            io_dir,
            memory_target: None,
            memory_cap_override: false,
            compile_modules: 50,
            compile_mode: CompileMode::BuildRelease,
            gpu_enabled: false,
        }
    }

    /// Worker threads: `threads` when positive, else the detected parallelism
    /// (`detected`), else 4.
    pub fn effective_threads(&self, detected: Option<usize>) -> (r: usize)
        ensures
            r == resolved_threads(self.threads, detected),
    {
        if self.threads > 0 {
            self.threads
        } else {
            match detected {
                Some(n) => n,
                None => FALLBACK_THREADS,
            }
        }
    }
}

/// Law: at the neutral level 5 a base value is used as it is.
pub proof fn law_scale_neutral(base: nat)
    requires
        1 <= base <= usize::MAX,
    ensures
        scaled(base, INTENSITY_NEUTRAL as nat) == base,
{
    assert((2 * (base * 5) + 5) / 10 == base) by (nonlinear_arith);
}

/// Law: at the highest level 10 a base value is doubled (when the double fits).
pub proof fn law_scale_double(base: nat)
    requires
        1 <= base,
        2 * base <= usize::MAX,
    ensures
        scaled(base, INTENSITY_MAX as nat) == 2 * base,
{
    assert((2 * (base * 10) + 5) / 10 == 2 * base) by (nonlinear_arith);
}

/// Law: a higher level never gives a smaller value.
pub proof fn law_scale_monotone(base: nat, low: nat, high: nat)
    requires
        low <= high,
    ensures
        scaled(base, low) <= scaled(base, high),
{
    assert(base * low <= base * high) by (nonlinear_arith)
        requires
            low <= high,
    ;
    assert((2 * (base * low) + 5) / 10 <= (2 * (base * high) + 5) / 10) by (nonlinear_arith)
        requires
            base * low <= base * high,
    ;
}

} // verus!
