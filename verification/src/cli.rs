use vstd::prelude::*;

use crate::config::{CompileMode, Duration};
use crate::text::owned;

verus! {

/// Options that apply to every command.
#[derive(Debug, Clone)]
pub struct GlobalOpts {
    /// Path to `libstress.toml` (default: `./libstress.toml` or the built-in profiles).
    pub config: Option<String>,
    /// Named profile from the configuration.
    pub profile: Option<String>,
    /// Report to emit after a run.
    pub report: Option<ReportOpt>,
    /// Print the planned workloads without executing them.
    pub dry_run: bool,
    /// Sample CPU and RAM every second during runs.
    pub live_stats: bool,
}

impl Default for GlobalOpts {
    fn default() -> (r: Self)
        ensures
            r.config is None,
            r.profile is None,
            r.report is None,
            !r.dry_run,
            !r.live_stats,
    {
        GlobalOpts { config: None, profile: None, report: None, dry_run: false, live_stats: false }
    }
}

/// Report format chosen on the command line.
#[derive(Debug, Clone, Copy, PartialEq, Eq, Structural)]
pub enum ReportOpt {
    Json,
    Text,
}

/// A parsed command line: global options and one command.
#[derive(Debug, Clone)]
pub struct Cli {
    pub global: GlobalOpts,
    pub command: Commands,
}

/// The commands of the `libstress` tool.
#[derive(Debug, Clone)]
pub enum Commands {
    /// Run workloads (see `--profile` or the module flags).
    Run(RunArgs),
    /// CPU-only stress.
    Cpu(CommonArgs),
    /// Memory-only stress.
    Mem(MemArgs),
    /// Disk I/O stress.
    Io(IoArgs),
    /// Compiler / Cargo stress.
    Compile(CompileArgs),
    /// Loopback network stress.
    Net(NetArgs),
    /// Thread scheduler stress.
    Sched(CommonArgs),
    /// Optional GPU probe.
    Gpu(CommonArgs),
    /// Extra workloads (alias for net/sched).
    Extras { command: ExtrasCommands },
    /// Preflight checks (cargo, RAM, temp dir).
    Doctor { report: Option<ReportOpt> },
    /// List available profiles.
    Profiles,
    /// Repeat a profile N times and summarize.
    Bench { profile: String, rounds: u32 },
    /// Print a host snapshot.
    Info,
}

/// The commands under `extras`.
#[derive(Debug, Clone)]
pub enum ExtrasCommands {
    Net(NetArgs),
    Sched(CommonArgs),
}

/// Options shared by the workload commands.
#[derive(Debug, Clone, Copy, PartialEq, Eq, Structural)]
pub struct CommonArgs {
    /// 1-10 (5 when not given).
    pub intensity: u8,
    /// 30 s when not given.
    pub duration: Duration,
    /// Worker threads; 0 = auto.
    pub threads: usize,
}

/// Options of the network command.
#[derive(Debug, Clone, Copy, PartialEq, Eq, Structural)]
pub struct NetArgs {
    pub common: CommonArgs,
    pub port: Option<u16>,
}

/// Options of the `run` command.
#[derive(Debug, Clone)]
pub struct RunArgs {
    pub cpu: bool,
    pub mem: bool,
    pub io: bool,
    pub compile: bool,
    pub gpu: bool,
    pub net: bool,
    pub sched: bool,
    pub common: CommonArgs,
    pub mem_opts: MemArgsInner,
    pub io_opts: IoArgsInner,
    pub compile_opts: CompileArgsInner,
}

/// Options of the memory command.
#[derive(Debug, Clone)]
pub struct MemArgs {
    pub common: CommonArgs,
    pub inner: MemArgsInner,
}

/// Memory options.
#[derive(Debug, Clone)]
pub struct MemArgsInner {
    /// Target size such as `2GB`.
    pub memory: Option<String>,
    pub memory_cap_override: bool,
}

impl Default for MemArgsInner {
    fn default() -> (r: Self)
        ensures
            r.memory is None,
            !r.memory_cap_override,
    {
        MemArgsInner { memory: None, memory_cap_override: false }
    }
}

/// Options of the I/O command.
#[derive(Debug, Clone)]
pub struct IoArgs {
    pub common: CommonArgs,
    pub inner: IoArgsInner,
}

/// I/O options.
#[derive(Debug, Clone)]
pub struct IoArgsInner {
    /// `libstress-io` when not given.
    pub io_dir: String,
}

impl Default for IoArgsInner {
    fn default() -> (r: Self)
        ensures
            r.io_dir@ == "libstress-io"@,
    {
        IoArgsInner { io_dir: owned("libstress-io") }
    }
}

/// Options of the compile command.
#[derive(Debug, Clone)]
pub struct CompileArgs {
    pub common: CommonArgs,
    pub inner: CompileArgsInner,
}

/// Compile options.
#[derive(Debug, Clone)]
pub struct CompileArgsInner {
    /// 50 when not given.
    pub modules: usize,
    /// The compile mode, when one was given (a profile's mode stays otherwise).
    pub mode: Option<CliCompileMode>,
    pub ecs: bool,
    /// `libstress-compile` when not given.
    pub compile_dir: String,
}

impl Default for CompileArgsInner {
    fn default() -> (r: Self)
        ensures
            r.modules == 50,
            r.mode is None,
            !r.ecs,
            r.compile_dir@ == "libstress-compile"@,
    {
        CompileArgsInner {
            modules: 50,
            mode: None,
            ecs: false,
            compile_dir: owned("libstress-compile"),
        }
    }
}

/// Compile mode as spelled on the command line.
#[derive(Debug, Clone, Copy, PartialEq, Eq, Structural)]
pub enum CliCompileMode {
    BuildRelease,
    Check,
    Incremental,
}

impl Default for CliCompileMode {
    fn default() -> (r: Self)
        ensures
            r == CliCompileMode::BuildRelease,
    {
        CliCompileMode::BuildRelease
    }
}

/// The compile mode a command-line mode stands for.
pub open spec fn compile_mode_of(m: CliCompileMode) -> CompileMode {
    match m {
        CliCompileMode::BuildRelease => CompileMode::BuildRelease,
        CliCompileMode::Check => CompileMode::Check,
        CliCompileMode::Incremental => CompileMode::Incremental,
    }
}

/// The command-line mode that stands for a compile mode.
pub open spec fn cli_mode_of(m: CompileMode) -> CliCompileMode {
    match m {
        CompileMode::BuildRelease => CliCompileMode::BuildRelease,
        CompileMode::Check => CliCompileMode::Check,
        CompileMode::Incremental => CliCompileMode::Incremental,
    }
}

impl vstd::std_specs::convert::FromSpecImpl<CliCompileMode> for CompileMode {
    open spec fn obeys_from_spec() -> bool {
        true
    }

    open spec fn from_spec(m: CliCompileMode) -> CompileMode {
        compile_mode_of(m)
    }
}

impl From<CliCompileMode> for CompileMode {
    fn from(m: CliCompileMode) -> (r: CompileMode) {
        match m {
            CliCompileMode::BuildRelease => CompileMode::BuildRelease,
            CliCompileMode::Check => CompileMode::Check,
            CliCompileMode::Incremental => CompileMode::Incremental,
        }
    }
}

impl CliCompileMode {
    /// The command-line spelling of a compile mode.
    pub fn from_mode(m: CompileMode) -> (r: CliCompileMode)
        ensures
            r == cli_mode_of(m),
    {
        match m {
            CompileMode::BuildRelease => CliCompileMode::BuildRelease,
            CompileMode::Check => CliCompileMode::Check,
            CompileMode::Incremental => CliCompileMode::Incremental,
        }
    }
}

/// Whether a string is one or more ASCII digits.
pub open spec fn ascii_digits(t: Seq<char>) -> bool {
    t.len() > 0 && forall|i: int| 0 <= i < t.len() ==> 48 <= #[trigger] (t[i] as int) <= 57
}

/// The value of a string of ASCII digits.
pub open spec fn digits_value(t: Seq<char>) -> nat
    decreases t.len(),
{
    if t.len() == 0 {
        0
    } else {
        digits_value(t.drop_last()) * 10 + ((t.last() as int) - 48) as nat
    }
}

/// What parsing a string as a `u8` gives: an optional `+` followed by decimal digits
/// whose value fits in a byte; anything else is rejected.
pub open spec fn u8_text(s: Seq<char>) -> Option<u8> {
    let t = if s.len() > 0 && s[0] == '+' {
        s.drop_first()
    } else {
        s
    };
    if ascii_digits(t) && digits_value(t) <= 255 {
        Some(digits_value(t) as u8)
    } else {
        None
    }
}

/// The message of the error (`ParseIntError`, displayed) that `str::parse::<u8>` gives
/// for a text it refuses.
pub uninterp spec fn u8_parse_error(s: Seq<char>) -> Seq<char>;

/// Calls `str::parse::<u8>`, which accepts an optional `+` followed by decimal digits
/// whose value fits in a byte; a refusal is turned into its message, named
/// `u8_parse_error` of the text.
#[verifier::external_body]
fn parse_u8(s: &str) -> (r: Result<u8, String>)
    ensures
        match r {
            Ok(v) => u8_text(s@) == Some(v),
            Err(e) => u8_text(s@) is None && e@ == u8_parse_error(s@),
        },
{
    match s.parse::<u8>() {
        Ok(v) => Ok(v),
        Err(e) => Err(e.to_string()),
    }
}

/// Parses an intensity given on the command line: a byte value between 1 and 10. A
/// value outside that range is refused with `intensity must be between 1 and 10`;
/// a text that is no byte value, with the parse error's message.
pub fn parse_intensity(s: &str) -> (r: Result<u8, String>)
    ensures
        match r {
            Ok(v) => u8_text(s@) == Some(v) && 1 <= v <= 10,
            Err(msg) => match u8_text(s@) {
                Some(v) => !(1 <= v <= 10) && msg@ == "intensity must be between 1 and 10"@,
                None => msg@ == u8_parse_error(s@),
            },
        },
{
    let v = parse_u8(s)?;
    if 1 <= v && v <= 10 {
        Ok(v)
    } else {
        Err(owned("intensity must be between 1 and 10"))
    }
}

impl RunArgs {
    /// Whether any module flag was given.
    pub fn any_selected(&self) -> (r: bool)
        ensures
            r == (self.cpu || self.mem || self.io || self.compile || self.gpu || self.net || self.sched),
    {
        self.cpu || self.mem || self.io || self.compile || self.gpu || self.net || self.sched
    }
}

} // verus!
