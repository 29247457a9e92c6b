use vstd::prelude::*;

use crate::cli::{
    cli_mode_of, compile_mode_of, Cli, CliCompileMode, Commands, CommonArgs, CompileArgsInner, ExtrasCommands, GlobalOpts,
    IoArgsInner, MemArgsInner, NetArgs, ReportOpt, RunArgs,
};
use crate::config::{resolved_threads, CompileMode, Duration, WorkloadKind, FALLBACK_THREADS};
use crate::metrics::ReportFormat;
use crate::net::DEFAULT_PORT;
use crate::profile::{
    base_profile, clone_text_opt, merged, profile_compile_mode, profile_opt, profile_workloads, text_opt,
    ConfigError, FileConfig, ProfileSettings, ProfileView,
};
use crate::text::owned;

verus! {

/// Whether two path texts name the same path, as `Path`'s `==` decides it
/// (component by component).
pub uninterp spec fn same_path(a: Seq<char>, b: Seq<char>) -> bool;

/// Compares two paths with `std::path::Path`'s `==`, which compares their components:
/// the result is named `same_path`, and two equal texts are the same path.
#[verifier::external_body]
fn paths_equal(a: &str, b: &str) -> (r: bool)
    ensures
        r == same_path(a@, b@),
        a@ == b@ ==> r,
{
    std::path::Path::new(a) == std::path::Path::new(b)
}

/// Resolved execution plan after merging config file, profile, and CLI flags.
#[derive(Debug, Clone)]
pub struct RunPlan {
    pub profile_name: Option<String>,
    pub intensity: u8,
    pub duration: Duration,
    pub threads: usize,
    pub workloads: Vec<WorkloadKind>,
    pub mem: MemArgsInner,
    pub io_dir: String,
    pub compile: CompileArgsInner,
    pub net_port: u16,
    pub dry_run: bool,
    pub live_stats: bool,
}

/// The content of a `RunPlan`, strings taken by their characters.
pub struct PlanView {
    pub profile_name: Option<Seq<char>>,
    pub intensity: u8,
    pub duration: Duration,
    pub threads: usize,
    pub workloads: Seq<WorkloadKind>,
    pub memory: Option<Seq<char>>,
    pub memory_cap_override: bool,
    pub io_dir: Seq<char>,
    pub compile_modules: usize,
    pub compile_mode: CliCompileMode,
    pub ecs: bool,
    pub compile_dir: Seq<char>,
    pub net_port: u16,
    pub dry_run: bool,
    pub live_stats: bool,
}

impl View for RunPlan {
    type V = PlanView;

    open spec fn view(&self) -> PlanView {
        PlanView {
            profile_name: text_opt(self.profile_name),
            intensity: self.intensity,
            duration: self.duration,
            threads: self.threads,
            workloads: self.workloads@,
            memory: text_opt(self.mem.memory),
            memory_cap_override: self.mem.memory_cap_override,
            io_dir: self.io_dir@,
            compile_modules: self.compile.modules,
            compile_mode: match self.compile.mode {
                Some(m) => m,
                None => CliCompileMode::BuildRelease,
            },
            ecs: self.compile.ecs,
            compile_dir: self.compile.compile_dir@,
            net_port: self.net_port,
            dry_run: self.dry_run,
            live_stats: self.live_stats,
        }
    }
}

/// The plan a profile gives before any command-line option is applied.
pub open spec fn plan_of_profile(name: Option<Seq<char>>, p: ProfileView) -> PlanView {
    PlanView {
        profile_name: name,
        intensity: p.intensity,
        duration: Duration { secs: p.duration_secs, nanos: 0 },
        threads: p.threads,
        workloads: profile_workloads(p.workloads),
        memory: p.memory,
        memory_cap_override: p.memory_cap_override,
        io_dir: p.io_dir,
        compile_modules: p.compile_modules,
        compile_mode: cli_mode_of(profile_compile_mode(p.compile_mode)),
        ecs: p.ecs,
        compile_dir: match p.compile_dir {
            Some(d) => d,
            None => "libstress-compile"@,
        },
        net_port: match p.net_port {
            Some(port) => port,
            None => DEFAULT_PORT,
        },
        dry_run: false,
        live_stats: false,
    }
}

/// Intensity and duration from the command line replace the plan's when they differ
/// from the command-line defaults (5 and 30 s) or when no profile was chosen; a
/// non-zero thread count always replaces it.
pub open spec fn with_common(p: PlanView, c: CommonArgs) -> PlanView {
    PlanView {
        intensity: if c.intensity != 5 || p.profile_name is None {
            c.intensity
        } else {
            p.intensity
        },
        duration: if c.duration != (Duration { secs: 30, nanos: 0 }) || p.profile_name is None {
            c.duration
        } else {
            p.duration
        },
        threads: if c.threads != 0 {
            c.threads
        } else {
            p.threads
        },
        ..p
    }
}

/// A given memory size replaces the plan's; the cap override can only be switched on.
pub open spec fn with_mem(p: PlanView, m: MemArgsInner) -> PlanView {
    PlanView {
        memory: if m.memory is Some {
            text_opt(m.memory)
        } else {
            p.memory
        },
        memory_cap_override: p.memory_cap_override || m.memory_cap_override,
        ..p
    }
}

/// Whether a directory given on the command line names the flag's default directory
/// (the same text, or the same path as `Path`'s `==` decides it).
pub open spec fn names_default_dir(given: Seq<char>, default: Seq<char>) -> bool {
    given == default || same_path(given, default)
}

/// Compile options: a module count other than 50, a given mode and a directory other
/// than `libstress-compile` replace the plan's; ECS can only be switched on.
pub open spec fn with_compile(p: PlanView, c: CompileArgsInner) -> PlanView {
    PlanView {
        compile_modules: if c.modules != 50 {
            c.modules
        } else {
            p.compile_modules
        },
        compile_mode: match c.mode {
            Some(m) => m,
            None => p.compile_mode,
        },
        ecs: p.ecs || c.ecs,
        compile_dir: if !names_default_dir(c.compile_dir@, "libstress-compile"@) {
            c.compile_dir@
        } else {
            p.compile_dir
        },
        ..p
    }
}

/// The modules selected by `run`'s flags, in the order cpu, mem, io, compile, gpu, net, sched.
pub open spec fn selected_workloads(a: RunArgs) -> Seq<WorkloadKind> {
    let s0 = Seq::<WorkloadKind>::empty();
    let s1 = if a.cpu { s0.push(WorkloadKind::Cpu) } else { s0 };
    let s2 = if a.mem { s1.push(WorkloadKind::Memory) } else { s1 };
    let s3 = if a.io { s2.push(WorkloadKind::Io) } else { s2 };
    let s4 = if a.compile { s3.push(WorkloadKind::Compile) } else { s3 };
    let s5 = if a.gpu { s4.push(WorkloadKind::Gpu) } else { s4 };
    let s6 = if a.net { s5.push(WorkloadKind::Net) } else { s5 };
    if a.sched { s6.push(WorkloadKind::Sched) } else { s6 }
}

/// Whether any of `run`'s module flags is set.
pub open spec fn any_flag(a: RunArgs) -> bool {
    a.cpu || a.mem || a.io || a.compile || a.gpu || a.net || a.sched
}

/// The `run` command applied to a plan.
pub open spec fn with_run(p: PlanView, a: RunArgs) -> PlanView {
    let q1 = with_common(p, a.common);
    let q2 = if any_flag(a) { PlanView { workloads: selected_workloads(a), ..q1 } } else { q1 };
    let q3 = with_mem(q2, a.mem_opts);
    let q4 = if !names_default_dir(a.io_opts.io_dir@, "libstress-io"@) {
        PlanView { io_dir: a.io_opts.io_dir@, ..q3 }
    } else {
        q3
    };
    with_compile(q4, a.compile_opts)
}

/// The network command applied to a plan.
pub open spec fn with_net(p: PlanView, a: NetArgs) -> PlanView {
    PlanView {
        workloads: seq![WorkloadKind::Net],
        net_port: match a.port {
            Some(port) => port,
            None => p.net_port,
        },
        ..with_common(p, a.common)
    }
}

/// A single-module command applied to a plan.
pub open spec fn with_single(p: PlanView, c: CommonArgs, k: WorkloadKind) -> PlanView {
    PlanView { workloads: seq![k], ..with_common(p, c) }
}

/// The options of the active command applied to a plan (the last step of merging);
/// commands that run no workload leave it as it is.
pub open spec fn with_command(p: PlanView, cmd: Commands) -> PlanView {
    match cmd {
        Commands::Run(a) => with_run(p, a),
        Commands::Cpu(c) => with_single(p, c, WorkloadKind::Cpu),
        Commands::Mem(a) => with_mem(with_single(p, a.common, WorkloadKind::Memory), a.inner),
        Commands::Io(a) => PlanView { io_dir: a.inner.io_dir@, ..with_single(p, a.common, WorkloadKind::Io) },
        Commands::Compile(a) => with_compile(with_single(p, a.common, WorkloadKind::Compile), a.inner),
        Commands::Gpu(c) => with_single(p, c, WorkloadKind::Gpu),
        Commands::Net(a) => with_net(p, a),
        Commands::Sched(c) => with_single(p, c, WorkloadKind::Sched),
        Commands::Extras { command } => match command {
            ExtrasCommands::Net(a) => with_net(p, a),
            ExtrasCommands::Sched(c) => with_single(p, c, WorkloadKind::Sched),
        },
        _ => p,
    }
}

/// The global `--dry-run` and `--live-stats` flags applied to a plan.
pub open spec fn with_global(p: PlanView, g: GlobalOpts) -> PlanView {
    PlanView { dry_run: g.dry_run, live_stats: g.live_stats, ..p }
}

/// The plan for a command line over a configuration, when the chosen profile exists.
pub open spec fn cli_plan(cli: Cli, profiles: Map<Seq<char>, ProfileView>, defaults: Option<ProfileView>) -> PlanView {
    let start = match cli.global.profile {
        Some(name) => plan_of_profile(Some(name@), merged(base_profile(defaults), profiles[name@])),
        None => plan_of_profile(None, base_profile(defaults)),
    };
    with_global(with_command(start, cli.command), cli.global)
}

fn copy_mem(m: &MemArgsInner) -> (r: MemArgsInner)
    ensures
        text_opt(r.memory) == text_opt(m.memory),
        r.memory_cap_override == m.memory_cap_override,
{
    MemArgsInner { memory: clone_text_opt(&m.memory), memory_cap_override: m.memory_cap_override }
}

fn copy_compile(c: &CompileArgsInner) -> (r: CompileArgsInner)
    ensures
        r.modules == c.modules,
        r.mode == c.mode,
        r.ecs == c.ecs,
        r.compile_dir@ == c.compile_dir@,
{
    CompileArgsInner { modules: c.modules, mode: c.mode, ecs: c.ecs, compile_dir: c.compile_dir.clone() }
}

/// The plan a (resolved) profile gives before any command-line option is applied.
pub fn plan_from_profile(name: Option<String>, p: ProfileSettings) -> (r: RunPlan)
    ensures
        r@ == plan_of_profile(text_opt(name), p@),
{
    let workloads = p.parse_workloads();
    let mode = CliCompileMode::from_mode(p.compile_mode());
    let compile_dir = match &p.compile_dir {
        Some(d) => d.clone(),
        None => owned("libstress-compile"),
    };
    let net_port = match p.net_port {
        Some(port) => port,
        None => DEFAULT_PORT,
    };
    RunPlan {
        profile_name: name,
        intensity: p.intensity,
        duration: p.duration(),
        threads: p.threads,
        workloads,
        mem: MemArgsInner { memory: clone_text_opt(&p.memory), memory_cap_override: p.memory_cap_override },
        io_dir: p.io_dir.clone(),
        compile: CompileArgsInner { modules: p.compile_modules, mode: Some(mode), ecs: p.ecs, compile_dir },
        net_port,
        dry_run: false,
        live_stats: false,
    }
}

fn apply_common(plan: &mut RunPlan, common: &CommonArgs)
    ensures
        final(plan)@ == with_common(old(plan)@, *common),
{
    if common.intensity != 5 || plan.profile_name.is_none() {
        plan.intensity = common.intensity;
    }
    if common.duration.secs != 30 || common.duration.nanos != 0 || plan.profile_name.is_none() {
        plan.duration = common.duration;
    }
    if common.threads != 0 {
        plan.threads = common.threads;
    }
}

fn merge_mem(plan: &mut RunPlan, inner: &MemArgsInner)
    ensures
        final(plan)@ == with_mem(old(plan)@, *inner),
{
    if inner.memory.is_some() {
        plan.mem.memory = clone_text_opt(&inner.memory);
    }
    if inner.memory_cap_override {
        plan.mem.memory_cap_override = true;
    }
}

fn merge_compile(plan: &mut RunPlan, inner: &CompileArgsInner)
    ensures
        final(plan)@ == with_compile(old(plan)@, *inner),
{
    if inner.modules != 50 {
        plan.compile.modules = inner.modules;
    }
    if let Some(m) = inner.mode {
        plan.compile.mode = Some(m);
    }
    if inner.ecs {
        plan.compile.ecs = true;
    }
    if !paths_equal(inner.compile_dir.as_str(), "libstress-compile") {
        plan.compile.compile_dir = inner.compile_dir.clone();
    }
}

fn single(k: WorkloadKind) -> (r: Vec<WorkloadKind>)
    ensures
        r@ == seq![k],
{
    let mut v: Vec<WorkloadKind> = Vec::new();
    v.push(k);
    assert(v@ =~= seq![k]);
    v
}

fn apply_single(plan: &mut RunPlan, common: &CommonArgs, k: WorkloadKind)
    ensures
        final(plan)@ == with_single(old(plan)@, *common, k),
{
    apply_common(plan, common);
    plan.workloads = single(k);
}

fn apply_net(plan: &mut RunPlan, args: &NetArgs)
    ensures
        final(plan)@ == with_net(old(plan)@, *args),
{
    apply_single(plan, &args.common, WorkloadKind::Net);
    if let Some(p) = args.port {
        plan.net_port = p;
    }
}

fn selected(args: &RunArgs) -> (r: Vec<WorkloadKind>)
    ensures
        r@ == selected_workloads(*args),
{
    let mut v: Vec<WorkloadKind> = Vec::new();
    if args.cpu {
        v.push(WorkloadKind::Cpu);
    }
    if args.mem {
        v.push(WorkloadKind::Memory);
    }
    if args.io {
        v.push(WorkloadKind::Io);
    }
    if args.compile {
        v.push(WorkloadKind::Compile);
    }
    if args.gpu {
        v.push(WorkloadKind::Gpu);
    }
    if args.net {
        v.push(WorkloadKind::Net);
    }
    if args.sched {
        v.push(WorkloadKind::Sched);
    }
    v
}

fn apply_command(plan: &mut RunPlan, cmd: &Commands)
    ensures
        final(plan)@ == with_command(old(plan)@, *cmd),
{
    match cmd {
        Commands::Run(args) => {
            apply_common(plan, &args.common);
            if args.any_selected() {
                plan.workloads = selected(args);
            }
            merge_mem(plan, &args.mem_opts);
            if !paths_equal(args.io_opts.io_dir.as_str(), "libstress-io") {
                plan.io_dir = args.io_opts.io_dir.clone();
            }
            merge_compile(plan, &args.compile_opts);
        },
        Commands::Cpu(args) => apply_single(plan, args, WorkloadKind::Cpu),
        Commands::Mem(args) => {
            apply_single(plan, &args.common, WorkloadKind::Memory);
            merge_mem(plan, &args.inner);
        },
        Commands::Io(args) => {
            apply_single(plan, &args.common, WorkloadKind::Io);
            plan.io_dir = args.inner.io_dir.clone();
        },
        Commands::Compile(args) => {
            apply_single(plan, &args.common, WorkloadKind::Compile);
            merge_compile(plan, &args.inner);
        },
        Commands::Gpu(args) => apply_single(plan, args, WorkloadKind::Gpu),
        Commands::Net(args) => apply_net(plan, args),
        Commands::Sched(args) => apply_single(plan, args, WorkloadKind::Sched),
        Commands::Extras { command } => match command {
            ExtrasCommands::Net(args) => apply_net(plan, args),
            ExtrasCommands::Sched(args) => apply_single(plan, args, WorkloadKind::Sched),
        },
        Commands::Doctor { .. } | Commands::Profiles | Commands::Info | Commands::Bench { .. } => {},
    }
}

impl RunPlan {
    /// The plan for a command line over a configuration (the built-in profiles merged
    /// with any user file): the chosen profile laid over the defaults, or the defaults
    /// alone, then the active command's options, then the global flags. An unknown
    /// profile is an error.
    pub fn from_cli(cli: &Cli, file: &FileConfig) -> (r: Result<RunPlan, ConfigError>)
        ensures
            match cli.global.profile {
                Some(name) => match r {
                    Ok(plan) => file.profile_map().dom().contains(name@) && plan@ == cli_plan(
                        *cli,
                        file.profile_map(),
                        file.defaults_view(),
                    ),
                    Err(e) => !file.profile_map().dom().contains(name@) && (e matches ConfigError::UnknownProfile(n) && n@ == name@),
                },
                None => r matches Ok(plan) && plan@ == cli_plan(*cli, file.profile_map(), file.defaults_view()),
            },
    {
        let mut plan = match &cli.global.profile {
            Some(name) => {
                let p = file.resolve_profile(name.as_str())?;
                plan_from_profile(Some(name.clone()), p)
            },
            None => {
                let base = match file.defaults() {
                    Some(d) => d.clone(),
                    None => ProfileSettings::default(),
                };
                plan_from_profile(None, base)
            },
        };
        apply_command(&mut plan, &cli.command);
        plan.dry_run = cli.global.dry_run;
        plan.live_stats = cli.global.live_stats;
        Ok(plan)
    }

    /// The compile mode the plan builds with.
    pub fn compile_mode(&self) -> (r: CompileMode)
        ensures
            r == compile_mode_of(self@.compile_mode),
    {
        match self.compile.mode {
            Some(m) => CompileMode::from(m),
            None => CompileMode::BuildRelease,
        }
    }

    /// Worker threads: the plan's count when positive, else the detected parallelism
    /// (`detected`), else 4.
    pub fn effective_threads(&self, detected: Option<usize>) -> (r: usize)
        ensures
            r == resolved_threads(self.threads, detected),
    {
        if self.threads > 0 {
            self.threads
        } else {
            match detected {
                Some(n) => n,
                None => FALLBACK_THREADS,
            }
        }
    }
}

/// The workloads a plan runs: `all` stands for cpu, memory and io.
pub open spec fn expanded(ws: Seq<WorkloadKind>) -> Seq<WorkloadKind> {
    if ws.contains(WorkloadKind::All) {
        seq![WorkloadKind::Cpu, WorkloadKind::Memory, WorkloadKind::Io]
    } else {
        ws
    }
}

/// The workloads to execute, in order, with `all` expanded to cpu, memory and io.
pub fn expand_workloads(ws: &Vec<WorkloadKind>) -> (r: Vec<WorkloadKind>)
    ensures
        r@ == expanded(ws@),
{
    let mut i: usize = 0;
    let mut out: Vec<WorkloadKind> = Vec::new();
    while i < ws.len()
        invariant
            i <= ws@.len(),
            out@ == ws@.take(i as int),
            !ws@.take(i as int).contains(WorkloadKind::All),
        decreases ws.len() - i,
    {
        if ws[i] == WorkloadKind::All {
            assert(ws@.contains(WorkloadKind::All));
            let mut v: Vec<WorkloadKind> = Vec::new();
            v.push(WorkloadKind::Cpu);
            v.push(WorkloadKind::Memory);
            v.push(WorkloadKind::Io);
            assert(v@ =~= seq![WorkloadKind::Cpu, WorkloadKind::Memory, WorkloadKind::Io]);
            return v;
        }
        out.push(ws[i]);
        i = i + 1;
        assert(ws@.take(i as int) =~= ws@.take(i - 1).push(ws@[i - 1]));
        assert(!ws@.take(i as int).contains(WorkloadKind::All)) by {
            if ws@.take(i as int).contains(WorkloadKind::All) {
                let k = choose|k: int| 0 <= k < i && ws@.take(i as int)[k] == WorkloadKind::All;
                if k < i - 1 {
                    assert(ws@.take(i - 1)[k] == WorkloadKind::All);
                }
            }
        }
    }
    assert(ws@.take(ws@.len() as int) =~= ws@);
    out
}

/// The report format a command-line choice stands for.
pub open spec fn report_format_of(r: ReportOpt) -> ReportFormat {
    match r {
        ReportOpt::Json => ReportFormat::Json,
        ReportOpt::Text => ReportFormat::Text,
    }
}

/// The report format a command-line choice stands for.
pub fn map_report(r: ReportOpt) -> (f: ReportFormat)
    ensures
        f == report_format_of(r),
{
    match r {
        ReportOpt::Json => ReportFormat::Json,
        ReportOpt::Text => ReportFormat::Text,
    }
}

/// Whether a run samples CPU and RAM: with `--live-stats` or when a report is wanted.
pub fn collects_metrics(plan: &RunPlan, report: Option<ReportOpt>) -> (r: bool)
    ensures
        r == (plan.live_stats || report is Some),
{
    plan.live_stats || report.is_some()
}

/// The report printed after a run: the requested format, else a text report when
/// live statistics were sampled, else none.
pub fn report_after_run(plan: &RunPlan, report: Option<ReportOpt>) -> (r: Option<ReportFormat>)
    ensures
        r == match report {
            Some(f) => Some(report_format_of(f)),
            None => if plan.live_stats {
                Some(ReportFormat::Text)
            } else {
                None
            },
        },
{
    match report {
        Some(f) => Some(map_report(f)),
        None => if plan.live_stats {
            Some(ReportFormat::Text)
        } else {
            None
        },
    }
}

/// The command line that one round of `bench` runs: `run` with the resolved profile's
/// settings and no module flags, under that profile.
pub fn bench_cli(profile: &str, plan: &RunPlan) -> (r: Cli)
    ensures
        r.global.profile matches Some(p) && p@ == profile@,
        r.global.config is None,
        r.global.report is None,
        !r.global.dry_run,
        !r.global.live_stats,
        r.command matches Commands::Run(a) && !any_flag(a) && a.common == (CommonArgs {
            intensity: plan.intensity,
            duration: plan.duration,
            threads: plan.threads,
        }) && text_opt(a.mem_opts.memory) == text_opt(plan.mem.memory)
            && a.mem_opts.memory_cap_override == plan.mem.memory_cap_override
            && a.io_opts.io_dir@ == plan.io_dir@ && a.compile_opts.modules == plan.compile.modules
            && a.compile_opts.mode == plan.compile.mode && a.compile_opts.ecs == plan.compile.ecs
            && a.compile_opts.compile_dir@ == plan.compile.compile_dir@,
{
    let global = GlobalOpts {
        config: None,
        profile: Some(owned(profile)),
        report: None,
        dry_run: false,
        live_stats: false,
    };
    let args = RunArgs {
        cpu: false,
        mem: false,
        io: false,
        compile: false,
        gpu: false,
        net: false,
        sched: false,
        common: CommonArgs { intensity: plan.intensity, duration: plan.duration, threads: plan.threads },
        mem_opts: copy_mem(&plan.mem),
        io_opts: IoArgsInner { io_dir: plan.io_dir.clone() },
        compile_opts: copy_compile(&plan.compile),
    };
    Cli { global, command: Commands::Run(args) }
}

/// Law: the command's module selection is final — a single-module command always
/// runs exactly that module, whatever the profile said.
pub proof fn law_single_command_selects(p: PlanView, c: CommonArgs, k: WorkloadKind)
    ensures
        with_single(p, c, k).workloads == seq![k],
{
}

/// Law: an intensity other than the command-line default always replaces the profile's,
/// and without a profile the command line's intensity and duration are used as given.
pub proof fn law_explicit_intensity_wins(p: PlanView, c: CommonArgs)
    ensures
        c.intensity != 5 ==> with_common(p, c).intensity == c.intensity,
        p.profile_name is None ==> with_common(p, c).intensity == c.intensity && with_common(
            p,
            c,
        ).duration == c.duration,
{
}

/// Law: `run` without module flags keeps the profile's workloads; with flags it runs
/// exactly the flagged modules.
pub proof fn law_run_flags(p: PlanView, a: RunArgs)
    ensures
        !any_flag(a) ==> with_run(p, a).workloads == p.workloads,
        any_flag(a) ==> with_run(p, a).workloads == selected_workloads(a),
{
}

/// Law: the expanded workload list never contains `all`.
pub proof fn law_expanded_has_no_all(ws: Seq<WorkloadKind>)
    ensures
        !expanded(ws).contains(WorkloadKind::All),
{
    if !ws.contains(WorkloadKind::All) {
    } else {
        let e = expanded(ws);
        assert(e =~= seq![WorkloadKind::Cpu, WorkloadKind::Memory, WorkloadKind::Io]);
        if e.contains(WorkloadKind::All) {
            let k = choose|k: int| 0 <= k < e.len() && e[k] == WorkloadKind::All;
        }
    }
}

/// Law: compile options left at their command-line defaults (50 modules, no mode, no
/// ECS, `libstress-compile`) keep the plan's compile settings, such as a profile's
/// incremental or `check` mode.
pub proof fn law_compile_defaults_keep_plan(p: PlanView, c: CompileArgsInner)
    requires
        c.modules == 50,
        c.mode is None,
        !c.ecs,
        c.compile_dir@ == "libstress-compile"@,
    ensures
        with_compile(p, c) == p,
{
}

/// Law: under a profile, `run` with every flag left at its default runs exactly the
/// plan the profile gives.
pub proof fn law_default_run_keeps_profile(p: PlanView, a: RunArgs)
    requires
        p.profile_name is Some,
        !any_flag(a),
        a.common == (CommonArgs { intensity: 5, duration: Duration { secs: 30, nanos: 0 }, threads: 0 }),
        a.mem_opts.memory is None,
        !a.mem_opts.memory_cap_override,
        a.io_opts.io_dir@ == "libstress-io"@,
        a.compile_opts.modules == 50,
        a.compile_opts.mode is None,
        !a.compile_opts.ecs,
        a.compile_opts.compile_dir@ == "libstress-compile"@,
    ensures
        with_run(p, a) == p,
{
    assert(with_run(p, a) =~= p);
}

/// Law: `extras net` and `extras sched` plan exactly what `net` and `sched` do.
pub proof fn law_extras_alias(p: PlanView, a: NetArgs, c: CommonArgs)
    ensures
        with_command(p, Commands::Extras { command: ExtrasCommands::Net(a) }) == with_command(p, Commands::Net(a)),
        with_command(p, Commands::Extras { command: ExtrasCommands::Sched(c) }) == with_command(
            p,
            Commands::Sched(c),
        ),
{
}

/// The position of a module in `run`'s flag order: cpu, mem, io, compile, gpu, net, sched.
pub open spec fn flag_rank(k: WorkloadKind) -> int {
    match k {
        WorkloadKind::Cpu => 0,
        WorkloadKind::Memory => 1,
        WorkloadKind::Io => 2,
        WorkloadKind::Compile => 3,
        WorkloadKind::Gpu => 4,
        WorkloadKind::Net => 5,
        WorkloadKind::Sched => 6,
        WorkloadKind::All => 7,
    }
}

/// Whether `s` lists modules in strictly increasing flag order, each below `bound`.
pub open spec fn ranked_below(s: Seq<WorkloadKind>, bound: int) -> bool {
    &&& forall|i: int, j: int| 0 <= i < j < s.len() ==> flag_rank(s[i]) < flag_rank(s[j])
    &&& forall|i: int| 0 <= i < s.len() ==> flag_rank(#[trigger] s[i]) < bound
}

proof fn lemma_push_ranked(s: Seq<WorkloadKind>, bound: int, k: WorkloadKind, take: bool, next: int, t: Seq<WorkloadKind>)
    requires
        ranked_below(s, bound),
        bound <= flag_rank(k),
        flag_rank(k) < next,
        t == (if take { s.push(k) } else { s }),
    ensures
        ranked_below(t, next),
        forall|x: WorkloadKind| #[trigger] t.contains(x) <==> (s.contains(x) || (take && x == k)),
{
    if take {
        assert forall|x: WorkloadKind| #[trigger] t.contains(x) <==> (s.contains(x) || x == k) by {
            if t.contains(x) {
                let i = choose|i: int| 0 <= i < t.len() && t[i] == x;
                if i < s.len() {
                    assert(s[i] == x);
                }
            }
            if s.contains(x) {
                let i = choose|i: int| 0 <= i < s.len() && s[i] == x;
                assert(t[i] == x);
            }
            if x == k {
                assert(t[s.len() as int] == x);
            }
        }
    }
}

/// Law: `run`'s module flags select exactly the flagged modules, each once, in the
/// order cpu, mem, io, compile, gpu, net, sched, and never `all`.
pub proof fn law_run_flags_select_exactly(a: RunArgs)
    ensures
        selected_workloads(a).contains(WorkloadKind::Cpu) <==> a.cpu,
        selected_workloads(a).contains(WorkloadKind::Memory) <==> a.mem,
        selected_workloads(a).contains(WorkloadKind::Io) <==> a.io,
        selected_workloads(a).contains(WorkloadKind::Compile) <==> a.compile,
        selected_workloads(a).contains(WorkloadKind::Gpu) <==> a.gpu,
        selected_workloads(a).contains(WorkloadKind::Net) <==> a.net,
        selected_workloads(a).contains(WorkloadKind::Sched) <==> a.sched,
        !selected_workloads(a).contains(WorkloadKind::All),
        forall|i: int, j: int|
            0 <= i < j < selected_workloads(a).len() ==> flag_rank(selected_workloads(a)[i]) < flag_rank(
                selected_workloads(a)[j],
            ),
{
    let s0 = Seq::<WorkloadKind>::empty();
    let s1 = if a.cpu { s0.push(WorkloadKind::Cpu) } else { s0 };
    let s2 = if a.mem { s1.push(WorkloadKind::Memory) } else { s1 };
    let s3 = if a.io { s2.push(WorkloadKind::Io) } else { s2 };
    let s4 = if a.compile { s3.push(WorkloadKind::Compile) } else { s3 };
    let s5 = if a.gpu { s4.push(WorkloadKind::Gpu) } else { s4 };
    let s6 = if a.net { s5.push(WorkloadKind::Net) } else { s5 };
    let s7 = if a.sched { s6.push(WorkloadKind::Sched) } else { s6 };
    assert(ranked_below(s0, 0));
    assert forall|x: WorkloadKind| !s0.contains(x) by {}
    lemma_push_ranked(s0, 0, WorkloadKind::Cpu, a.cpu, 1, s1);
    lemma_push_ranked(s1, 1, WorkloadKind::Memory, a.mem, 2, s2);
    lemma_push_ranked(s2, 2, WorkloadKind::Io, a.io, 3, s3);
    lemma_push_ranked(s3, 3, WorkloadKind::Compile, a.compile, 4, s4);
    lemma_push_ranked(s4, 4, WorkloadKind::Gpu, a.gpu, 5, s5);
    lemma_push_ranked(s5, 5, WorkloadKind::Net, a.net, 6, s6);
    lemma_push_ranked(s6, 6, WorkloadKind::Sched, a.sched, 7, s7);
    assert(selected_workloads(a) == s7);
    assert(s7.contains(WorkloadKind::Cpu) <==> a.cpu);
    assert(s7.contains(WorkloadKind::Memory) <==> a.mem);
    assert(s7.contains(WorkloadKind::Io) <==> a.io);
    assert(s7.contains(WorkloadKind::Compile) <==> a.compile);
    assert(s7.contains(WorkloadKind::Gpu) <==> a.gpu);
    assert(s7.contains(WorkloadKind::Net) <==> a.net);
    assert(s7.contains(WorkloadKind::Sched) <==> a.sched);
    assert(!s7.contains(WorkloadKind::All));
}

} // verus!
