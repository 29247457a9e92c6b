use vstd::prelude::*;

use crate::safety::{cap_bytes, DEFAULT_RAM_PERCENT, MIN_HEADROOM};
use crate::system::SystemSnapshot;
use crate::text::{decimal, decimal_string, join2, owned, trim, trimmed};
use vstd::string::StringExecFns;

verus! {

/// One preflight check and its outcome.
#[derive(Debug, Clone)]
pub struct CheckResult {
    pub name: String,
    pub passed: bool,
    pub detail: String,
}

/// The outcome of all preflight checks.
#[derive(Debug, Clone)]
pub struct DoctorReport {
    pub ok: bool,
    pub checks: Vec<CheckResult>,
}

/// What running `<tool> --version` gave.
#[derive(Debug, Clone)]
pub enum ToolProbe {
    /// The tool ran: whether it exited successfully, its standard output and its exit status text.
    Ran { success: bool, stdout: String, status: String },
    /// The tool could not be started: the error text.
    Failed { error: String },
}

/// What the preflight checks observe on the host.
#[derive(Debug, Clone)]
pub struct HostProbe {
    pub cargo: ToolProbe,
    pub rustc: ToolProbe,
    pub snapshot: SystemSnapshot,
    /// The temp directory, as displayed.
    pub temp_dir: String,
    /// Whether a probe file could be created there.
    pub temp_dir_writable: bool,
    /// The detected number of logical CPUs, if detection worked.
    pub parallelism: Option<usize>,
}

/// Whether a tool check passes: the tool ran and exited successfully.
pub open spec fn tool_passed(p: ToolProbe) -> bool {
    p matches ToolProbe::Ran { success: true, .. }
}

/// The detail of a tool check: the trimmed version text, `exit <status>`, or the error.
pub open spec fn tool_detail(p: ToolProbe) -> Seq<char> {
    match p {
        ToolProbe::Ran { success, stdout, status } => if success {
            trimmed(stdout@)
        } else {
            "exit "@ + status@
        },
        ToolProbe::Failed { error } => error@,
    }
}

/// The detail of the memory check.
pub open spec fn memory_detail(s: SystemSnapshot) -> Seq<char> {
    "available "@ + decimal((s.available_memory / 1048576) as nat) + " MiB, stress cap ~"@ + decimal(
        (cap_bytes(s.total_memory, DEFAULT_RAM_PERCENT, false) / 1048576) as nat,
    ) + " MiB (70%)"@
}

/// The detected CPU count, 1 when detection failed.
pub open spec fn cpu_threads(p: Option<usize>) -> usize {
    match p {
        Some(n) => n,
        None => 1,
    }
}

/// Whether a check has the given name, outcome and detail.
pub open spec fn check_is(c: CheckResult, name: Seq<char>, passed: bool, detail: Seq<char>) -> bool {
    c.name@ == name && c.passed == passed && c.detail@ == detail
}

fn check_tool(name: &str, probe: &ToolProbe) -> (r: CheckResult)
    ensures
        check_is(r, name@, tool_passed(*probe), tool_detail(*probe)),
{
    match probe {
        ToolProbe::Ran { success, stdout, status } => {
            if *success {
                CheckResult { name: owned(name), passed: true, detail: owned(trim(stdout.as_str())) }
            } else {
                CheckResult { name: owned(name), passed: false, detail: join2("exit ", status.as_str()) }
            }
        },
        ToolProbe::Failed { error } => CheckResult { name: owned(name), passed: false, detail: error.clone() },
    }
}

fn check_memory(snapshot: &SystemSnapshot) -> (r: CheckResult)
    ensures
        check_is(r, "memory"@, snapshot.available_memory >= MIN_HEADROOM, memory_detail(*snapshot)),
{
    let cap = crate::safety::MemorySafetyCap { max_percent: DEFAULT_RAM_PERCENT, override_cap: false };
    let max = cap.cap_for(snapshot.total_memory);
    let ok = snapshot.available_memory >= MIN_HEADROOM;
    let a = decimal_string(snapshot.available_memory / 1048576);
    let b = decimal_string(max / 1048576);
    let detail = join2("available ", a.as_str()).concat(" MiB, stress cap ~").concat(b.as_str()).concat(
        " MiB (70%)",
    );
    assert(detail@ =~= memory_detail(*snapshot));
    CheckResult { name: owned("memory"), passed: ok, detail }
}

fn check_temp_dir(dir: &str, writable: bool) -> (r: CheckResult)
    ensures
        check_is(r, "temp_dir"@, writable, dir@),
{
    CheckResult { name: owned("temp_dir"), passed: writable, detail: owned(dir) }
}

fn check_parallelism(detected: Option<usize>) -> (r: CheckResult)
    ensures
        check_is(
            r,
            "cpu_threads"@,
            cpu_threads(detected) >= 1,
            decimal(cpu_threads(detected) as nat) + " logical CPUs"@,
        ),
{
    let n = match detected {
        Some(n) => n,
        None => 1,
    };
    let d = decimal_string(n as u64);
    CheckResult { name: owned("cpu_threads"), passed: n >= 1, detail: d.concat(" logical CPUs") }
}

/// Runs the preflight checks on what was observed of the host: cargo, rustc, memory
/// (passes with at least 512 MiB available), temp dir (passes when writable) and
/// CPU threads (passes with at least one); the report is ok when every check passes.
pub fn run_checks(probe: &HostProbe) -> (r: DoctorReport)
    ensures
        r.checks@.len() == 5,
        check_is(r.checks@[0], "cargo"@, tool_passed(probe.cargo), tool_detail(probe.cargo)),
        check_is(r.checks@[1], "rustc"@, tool_passed(probe.rustc), tool_detail(probe.rustc)),
        check_is(
            r.checks@[2],
            "memory"@,
            probe.snapshot.available_memory >= MIN_HEADROOM,
            memory_detail(probe.snapshot),
        ),
        check_is(r.checks@[3], "temp_dir"@, probe.temp_dir_writable, probe.temp_dir@),
        check_is(
            r.checks@[4],
            "cpu_threads"@,
            cpu_threads(probe.parallelism) >= 1,
            decimal(cpu_threads(probe.parallelism) as nat) + " logical CPUs"@,
        ),
        r.ok == (forall|i: int| 0 <= i < r.checks@.len() ==> (#[trigger] r.checks@[i]).passed),
{
    let mut checks: Vec<CheckResult> = Vec::new();
    checks.push(check_tool("cargo", &probe.cargo));
    checks.push(check_tool("rustc", &probe.rustc));
    checks.push(check_memory(&probe.snapshot));
    checks.push(check_temp_dir(probe.temp_dir.as_str(), probe.temp_dir_writable));
    checks.push(check_parallelism(probe.parallelism));
    let mut ok = true;
    let mut i: usize = 0;
    while i < checks.len()
        invariant
            i <= checks@.len(),
            ok == (forall|j: int| 0 <= j < i ==> (#[trigger] checks@[j]).passed),
        decreases checks.len() - i,
    {
        ok = ok && checks[i].passed;
        i = i + 1;
    }
    DoctorReport { ok, checks }
}

/// The outcome of a doctor run: success when every check passed, else the
/// error `doctor checks failed`.
pub fn outcome(report: &DoctorReport) -> (r: Result<(), String>)
    ensures
        r is Ok <==> report.ok,
        r matches Err(m) ==> m@ == "doctor checks failed"@,
{
    if report.ok {
        Ok(())
    } else {
        Err(owned("doctor checks failed"))
    }
}

} // verus!
