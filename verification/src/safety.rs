use vstd::prelude::*;

use crate::text::{
    chars_of, contained_relative, decimal, decimal_string, dot_component_at, join2, join_path, owned, path_join,
    path_sep, string_from_chars, to_uppercase, trim, trimmed, uppercased, verbatim_prefix,
};
use vstd::string::StringExecFns;

verus! {

/// Default ceiling, in percent of system RAM, that allocation targets may reach.
pub const DEFAULT_RAM_PERCENT: u64 = 70;
/// Smallest target chosen when none is requested (64 MiB).
pub const MIN_DEFAULT_TARGET: u64 = 67108864;
/// RAM left free for the operating system (512 MiB).
pub const MIN_HEADROOM: u64 = 536870912;

/// Enforces safe memory ceilings before allocation-heavy workloads run.
///
/// The ceiling is `max_percent` percent of total RAM (70 by default).
#[derive(Debug, Clone, Copy, PartialEq, Eq, Structural)]
pub struct MemorySafetyCap {
    pub max_percent: u64,
    pub override_cap: bool,
}

impl Default for MemorySafetyCap {
    fn default() -> (r: Self)
        ensures
            r.max_percent == DEFAULT_RAM_PERCENT,
            !r.override_cap,
    {
        MemorySafetyCap { max_percent: DEFAULT_RAM_PERCENT, override_cap: false }
    }
}

/// Refusals of the memory safety checks.
#[derive(Debug, Clone, Copy, PartialEq, Eq, Structural)]
pub enum SafetyError {
    /// The requested amount is above the cap and the cap was not overridden.
    ExceedsCap { requested: u64, cap: u64, percent: u64, total: u64 },
    /// The target came out as zero bytes.
    ZeroTarget,
    /// Too little RAM would be left for the operating system.
    InsufficientHeadroom { available: u64 },
}

/// The byte ceiling: all of RAM when overridden, else `percent` percent of it
/// (rounded down, at most `u64::MAX`).
pub open spec fn cap_bytes(total: u64, percent: u64, override_cap: bool) -> u64 {
    if override_cap {
        total
    } else if total * percent / 100 > u64::MAX {
        u64::MAX
    } else {
        (total * percent / 100) as u64
    }
}

/// The target chosen when none is requested: half the cap, at least 64 MiB, but never
/// more than the cap itself.
pub open spec fn default_target(cap: u64) -> u64 {
    if cap / 2 > MIN_DEFAULT_TARGET {
        (cap / 2) as u64
    } else if MIN_DEFAULT_TARGET <= cap {
        MIN_DEFAULT_TARGET
    } else {
        cap
    }
}

/// The outcome of resolving a memory target.
pub open spec fn target_outcome(
    percent: u64,
    override_cap: bool,
    requested: Option<u64>,
    total: u64,
) -> Result<u64, SafetyError> {
    let cap = cap_bytes(total, percent, override_cap);
    match requested {
        Some(bytes) => if bytes > cap && !override_cap {
            Err(SafetyError::ExceedsCap { requested: bytes, cap, percent, total })
        } else if bytes == 0 {
            Err(SafetyError::ZeroTarget)
        } else {
            Ok(bytes)
        },
        None => if default_target(cap) == 0 {
            Err(SafetyError::ZeroTarget)
        } else {
            Ok(default_target(cap))
        },
    }
}

/// Whether `available` bytes leave at least 512 MiB once `target` is taken.
pub open spec fn headroom_ok(available: u64, target: u64) -> bool {
    available >= target && available - target >= MIN_HEADROOM
}

/// The unit a (trimmed, upper-cased) size text ends in, as a multiplier and a suffix length.
pub open spec fn size_unit(t: Seq<char>) -> (u64, nat) {
    if t.len() >= 2 && t.subrange(t.len() - 2, t.len() as int) == "GB"@ {
        (1073741824, 2)
    } else if t.len() >= 2 && t.subrange(t.len() - 2, t.len() as int) == "MB"@ {
        (1048576, 2)
    } else if t.len() >= 2 && t.subrange(t.len() - 2, t.len() as int) == "KB"@ {
        (1024, 2)
    } else if t.len() >= 1 && t[t.len() - 1] == 'B' {
        (1, 1)
    } else {
        (1, 0)
    }
}

/// A memory size text taken apart: the normalized (trimmed, upper-cased) text,
/// the number part and the unit it is counted in.
#[derive(Debug)]
pub struct MemorySizeText {
    pub normalized: String,
    pub number: String,
    pub unit: u64,
}

impl SafetyError {
    /// The text that describes the refusal.
    pub fn message(&self) -> (r: String)
        ensures
            match *self {
                SafetyError::ExceedsCap { requested, cap, percent, total } => r@ == "requested "@ + decimal(
                    requested as nat,
                ) + " bytes exceeds safety cap of "@ + decimal(cap as nat) + " bytes ("@ + decimal(
                    percent as nat,
                ) + "% of "@ + decimal(total as nat)
                    + " total). Pass --memory-cap-override to acknowledge risk."@,
                SafetyError::ZeroTarget => r@ == "memory target resolved to zero bytes"@,
                SafetyError::InsufficientHeadroom { available } => r@ == "only "@ + decimal(
                    available as nat,
                ) + " bytes available; need headroom for OS stability"@,
            },
    {
        match *self {
            SafetyError::ExceedsCap { requested, cap, percent, total } => {
                let a = decimal_string(requested);
                let b = decimal_string(cap);
                let c = decimal_string(percent);
                let d = decimal_string(total);
                let r = join2("requested ", a.as_str()).concat(" bytes exceeds safety cap of ").concat(
                    b.as_str(),
                ).concat(" bytes (").concat(c.as_str()).concat("% of ").concat(d.as_str()).concat(
                    " total). Pass --memory-cap-override to acknowledge risk.",
                );
                assert(r@ =~= "requested "@ + decimal(requested as nat) + " bytes exceeds safety cap of "@
                    + decimal(cap as nat) + " bytes ("@ + decimal(percent as nat) + "% of "@
                    + decimal(total as nat) + " total). Pass --memory-cap-override to acknowledge risk."@);
                r
            },
            SafetyError::ZeroTarget => owned("memory target resolved to zero bytes"),
            SafetyError::InsufficientHeadroom { available } => {
                let a = decimal_string(available);
                let r = join2("only ", a.as_str()).concat(" bytes available; need headroom for OS stability");
                assert(r@ =~= "only "@ + decimal(available as nat) + " bytes available; need headroom for OS stability"@);
                r
            },
        }
    }
}

impl MemorySafetyCap {
    /// The byte ceiling for a machine with `total_system_ram` bytes.
    pub fn cap_for(&self, total_system_ram: u64) -> (r: u64)
        ensures
            r == cap_bytes(total_system_ram, self.max_percent, self.override_cap),
    {
        if self.override_cap {
            total_system_ram
        } else {
            let t: u128 = total_system_ram as u128;
            let p: u128 = self.max_percent as u128;
            assert(t * p <= 0xffff_ffff_ffff_ffff * 0xffff_ffff_ffff_ffff) by (nonlinear_arith)
                requires
                    t <= 0xffff_ffff_ffff_ffff,
                    p <= 0xffff_ffff_ffff_ffff,
            ;
            let v: u128 = t * p / 100;
            if v > u64::MAX as u128 {
                u64::MAX
            } else {
                v as u64
            }
        }
    }

    /// The number of bytes a memory workload should target: the request if it is within
    /// the cap (or the cap is overridden); when nothing was requested, half the cap but at
    /// least 64 MiB, and never above the cap. A request over the cap, or a target of zero
    /// bytes, is refused.
    pub fn resolve_target_bytes(&self, requested: Option<u64>, total_system_ram: u64) -> (r: Result<
        u64,
        SafetyError,
    >)
        ensures
            r == target_outcome(self.max_percent, self.override_cap, requested, total_system_ram),
    {
        let cap = self.cap_for(total_system_ram);
        let target = match requested {
            Some(bytes) => {
                if bytes > cap && !self.override_cap {
                    return Err(
                        SafetyError::ExceedsCap {
                            requested: bytes,
                            cap,
                            percent: self.max_percent,
                            total: total_system_ram,
                        },
                    );
                }
                bytes
            },
            None => {
                let half = cap / 2;
                if half > MIN_DEFAULT_TARGET {
                    half
                } else if MIN_DEFAULT_TARGET <= cap {
                    MIN_DEFAULT_TARGET
                } else {
                    cap
                }
            },
        };
        if target == 0 {
            return Err(SafetyError::ZeroTarget);
        }
        Ok(target)
    }

    /// Refuses a target that would leave less than 512 MiB of the available RAM.
    pub fn check_available_headroom(available_ram: u64, target: u64) -> (r: Result<(), SafetyError>)
        ensures
            r is Ok <==> headroom_ok(available_ram, target),
            r is Err ==> r == Err::<(), SafetyError>(SafetyError::InsufficientHeadroom { available: available_ram }),
    {
        if available_ram.saturating_sub(target) < MIN_HEADROOM {
            return Err(SafetyError::InsufficientHeadroom { available: available_ram });
        }
        Ok(())
    }

    /// Takes a memory size text (`"2GB"`, `"512 mb"`, `"4096"`) apart: trims and
    /// upper-cases it, then splits off a `GB`, `MB`, `KB` or `B` suffix; the number
    /// part is trimmed again.
    pub fn split_memory_size(s: &str) -> (r: MemorySizeText)
        ensures
            r.normalized@ == uppercased(trimmed(s@)),
            r.unit == size_unit(r.normalized@).0,
            r.number@ == trimmed(
                r.normalized@.subrange(0, r.normalized@.len() - size_unit(r.normalized@).1),
            ),
    {
        let normalized = to_uppercase(trim(s));
        let c = chars_of(normalized.as_str());
        let n = c.len();
        let (unit, cut): (u64, usize) = if n >= 2 && c[n - 2] == 'G' && c[n - 1] == 'B' {
            (1073741824, 2)
        } else if n >= 2 && c[n - 2] == 'M' && c[n - 1] == 'B' {
            (1048576, 2)
        } else if n >= 2 && c[n - 2] == 'K' && c[n - 1] == 'B' {
            (1024, 2)
        } else if n >= 1 && c[n - 1] == 'B' {
            (1, 1)
        } else {
            (1, 0)
        };
        proof {
            let t = c@;
            reveal_strlit("GB");
            reveal_strlit("MB");
            reveal_strlit("KB");
            assert("GB"@ =~= seq!['G', 'B']);
            assert("MB"@ =~= seq!['M', 'B']);
            assert("KB"@ =~= seq!['K', 'B']);
            if n >= 2 {
                assert(t.subrange(n - 2, n as int) =~= seq![t[n - 2], t[n - 1]]);
            }
        }
        let mut head: Vec<char> = Vec::new();
        let mut i: usize = 0;
        while i < n - cut
            invariant
                i <= n - cut,
                cut <= n,
                n == c@.len(),
                head@ == c@.subrange(0, i as int),
            decreases n - cut - i,
        {
            head.push(c[i]);
            i = i + 1;
            assert(head@ =~= c@.subrange(0, i as int));
        }
        let head_text = string_from_chars(&head);
        let number = trim(head_text.as_str()).to_owned();
        MemorySizeText { normalized, number, unit }
    }
}

fn is_sep(c: char) -> (r: bool)
    ensures
        r == path_sep(c),
{
    c == '/' || c == '\\'
}

fn contained(rel: &str) -> (r: bool)
    ensures
        r == contained_relative(rel@),
{
    let c = chars_of(rel);
    let n = c.len();
    if n == 0 || is_sep(c[0]) {
        return false;
    }
    let mut i: usize = 0;
    while i < n
        invariant
            i <= n,
            n == c@.len(),
            c@ == rel@,
            n > 0 && !path_sep(c@[0]),
            forall|j: int| 0 <= j < i ==> c@[j] != ':' && !dot_component_at(c@, j),
        decreases n - i,
    {
        if c[i] == ':' {
            return false;
        }
        let starts = i == 0 || is_sep(c[i - 1]);
        if starts && c[i] == '.' {
            if i + 1 == n || is_sep(c[i + 1]) {
                assert(dot_component_at(c@, i as int));
                return false;
            }
            if c[i + 1] == '.' && (i + 2 == n || is_sep(c[i + 2])) {
                assert(dot_component_at(c@, i as int));
                return false;
            }
        }
        assert(!dot_component_at(c@, i as int));
        i = i + 1;
    }
    assert forall|j: int| !dot_component_at(c@, j) by {
        if 0 <= j < n {
        }
    }
    true
}

/// The working directory of a disk-writing workload: `rel` joined to the temp directory
/// `temp`, refused unless `rel` stays inside it (see `contained_relative`), so that the
/// workload writes, and later removes, only under the temp directory: the result is
/// the temp directory's text followed by more. (For a Windows verbatim temp directory,
/// `\\?\...`, `Path::join` rewrites the base from its components, so only the join
/// itself is stated there.)
pub fn scratch_dir(temp: &str, rel: &str) -> (r: Result<String, String>)
    ensures
        r is Ok <==> contained_relative(rel@),
        r matches Ok(p) ==> p@ == path_join(temp@, rel@),
        r matches Ok(p) ==> (!verbatim_prefix(temp@) ==> p@.len() > temp@.len() && p@.subrange(
            0,
            temp@.len() as int,
        ) == temp@),
        r matches Err(m) ==> m@ == "the directory must be a relative path inside the temp directory: "@ + rel@,
{
    if contained(rel) {
        Ok(join_path(temp, rel))
    } else {
        Err(join2("the directory must be a relative path inside the temp directory: ", rel))
    }
}

/// Law: without an override, an accepted explicit request never exceeds the cap.
pub proof fn law_request_within_cap(percent: u64, requested: u64, total: u64)
    ensures
        target_outcome(percent, false, Some(requested), total) is Ok ==> target_outcome(
            percent,
            false,
            Some(requested),
            total,
        )->Ok_0 <= cap_bytes(total, percent, false),
{
}

/// Law: whatever is requested, an accepted target never exceeds the cap (without an
/// override, the 70% ceiling).
pub proof fn law_target_within_cap(percent: u64, override_cap: bool, requested: Option<u64>, total: u64)
    ensures
        target_outcome(percent, override_cap, requested, total) matches Ok(t) ==> (!override_cap ==> t
            <= cap_bytes(total, percent, false)),
        requested is None ==> (target_outcome(percent, override_cap, requested, total) matches Ok(t) ==> t
            <= cap_bytes(total, percent, override_cap)),
{
}

/// Law: with nothing requested a target is always found (unless the cap is zero bytes),
/// and it is at least 64 MiB whenever the cap allows that much.
pub proof fn law_default_target(percent: u64, override_cap: bool, total: u64)
    ensures
        cap_bytes(total, percent, override_cap) > 0 ==> target_outcome(percent, override_cap, None, total) is Ok,
        cap_bytes(total, percent, override_cap) >= MIN_DEFAULT_TARGET ==> (target_outcome(
            percent,
            override_cap,
            None,
            total,
        ) matches Ok(t) && t >= MIN_DEFAULT_TARGET),
{
}

/// Law: a target that passes the headroom check leaves at least 512 MiB available.
pub proof fn law_headroom_kept(available: u64, target: u64)
    requires
        headroom_ok(available, target),
    ensures
        available - target >= MIN_HEADROOM,
{
}

/// Law: the cap refuses only what is above it. Without an override every request of
/// 1 to `cap` bytes is kept as it is, a request is refused as too large only when it
/// exceeds the cap, and with the override every non-zero request is kept.
pub proof fn law_requests_up_to_cap_kept(percent: u64, bytes: u64, total: u64)
    ensures
        0 < bytes <= cap_bytes(total, percent, false) ==> target_outcome(percent, false, Some(bytes), total)
            == Ok::<u64, SafetyError>(bytes),
        target_outcome(percent, false, Some(bytes), total) matches Err(SafetyError::ExceedsCap { .. })
            ==> bytes > cap_bytes(total, percent, false),
        bytes > cap_bytes(total, percent, false) ==> target_outcome(percent, false, Some(bytes), total)
            == Err::<u64, SafetyError>(SafetyError::ExceedsCap {
            requested: bytes,
            cap: cap_bytes(total, percent, false),
            percent,
            total,
        }),
        bytes > 0 ==> target_outcome(percent, true, Some(bytes), total) == Ok::<u64, SafetyError>(bytes),
{
}

} // verus!
