use libstress::cli::{
    parse_intensity, Cli, CliCompileMode, Commands, CommonArgs, CompileArgs, CompileArgsInner,
    ExtrasCommands, GlobalOpts, IoArgs, IoArgsInner, MemArgs, MemArgsInner, NetArgs, ReportOpt,
    RunArgs,
};
use libstress::config::{CompileMode, Duration, WorkloadKind};
use libstress::execution::{bench_round_line, BenchRun, Execution, RunStep};
use libstress::metrics::ReportFormat;
use libstress::plan::{bench_cli, expand_workloads, map_report, report_after_run, RunPlan};
use libstress::profile::{ConfigError, FileConfig, ProfileSettings};

fn common(intensity: u8, secs: u64, threads: usize) -> CommonArgs {
    CommonArgs { intensity, duration: Duration { secs, nanos: 0 }, threads }
}

fn cli(profile: Option<&str>, command: Commands) -> Cli {
    Cli {
        global: GlobalOpts { profile: profile.map(|s| s.to_string()), ..GlobalOpts::default() },
        command,
    }
}

fn run_args(common: CommonArgs) -> RunArgs {
    RunArgs {
        cpu: false,
        mem: false,
        io: false,
        compile: false,
        gpu: false,
        net: false,
        sched: false,
        common,
        mem_opts: MemArgsInner::default(),
        io_opts: IoArgsInner::default(),
        compile_opts: CompileArgsInner::default(),
    }
}

#[test]
fn intensity_flag_parsing() {
    assert_eq!(parse_intensity("5"), Ok(5));
    assert_eq!(parse_intensity("+7"), Ok(7));
    assert_eq!(parse_intensity("10"), Ok(10));
    assert_eq!(parse_intensity("0"), Err("intensity must be between 1 and 10".to_string()));
    assert_eq!(parse_intensity("11"), Err("intensity must be between 1 and 10".to_string()));
    assert!(parse_intensity("abc").is_err());
    assert_eq!(parse_intensity("abc"), Err("abc".parse::<u8>().unwrap_err().to_string()));
    assert_eq!(parse_intensity("300"), Err("300".parse::<u8>().unwrap_err().to_string()));
    assert!(parse_intensity("300").is_err());
    assert!(parse_intensity("").is_err());
    assert!(parse_intensity(" 5").is_err());
}

#[test]
fn any_selected_flags() {
    let mut a = run_args(common(5, 30, 0));
    assert!(!a.any_selected());
    a.sched = true;
    assert!(a.any_selected());
}

#[test]
fn profile_then_cpu_command() {
    let file = FileConfig::embedded();
    let plan = RunPlan::from_cli(&cli(Some("ci-quick"), Commands::Cpu(common(5, 30, 0))), &file).unwrap();
    assert_eq!(plan.profile_name.as_deref(), Some("ci-quick"));
    assert_eq!(plan.intensity, 4);
    assert_eq!(plan.duration, Duration { secs: 15, nanos: 0 });
    assert_eq!(plan.workloads, vec![WorkloadKind::Cpu]);
    assert_eq!(plan.net_port, 19456);
    assert_eq!(plan.compile.compile_dir, "libstress-compile");
}

#[test]
fn explicit_flags_override_profile() {
    let file = FileConfig::embedded();
    let plan = RunPlan::from_cli(&cli(Some("ci-quick"), Commands::Cpu(common(9, 10, 3))), &file).unwrap();
    assert_eq!(plan.intensity, 9);
    assert_eq!(plan.duration, Duration { secs: 10, nanos: 0 });
    assert_eq!(plan.threads, 3);
}

#[test]
fn no_profile_uses_command_line_values() {
    let file = FileConfig::embedded();
    let plan = RunPlan::from_cli(&cli(None, Commands::Run(run_args(common(5, 30, 0)))), &file).unwrap();
    assert_eq!(plan.profile_name, None);
    assert_eq!(plan.intensity, 5);
    assert_eq!(plan.duration, Duration { secs: 30, nanos: 0 });
    assert_eq!(plan.workloads, vec![WorkloadKind::Cpu, WorkloadKind::Memory, WorkloadKind::Io]);
    assert_eq!(plan.io_dir, "libstress-io");
}

#[test]
fn run_flags_select_modules_in_order() {
    let file = FileConfig::embedded();
    let mut a = run_args(common(5, 30, 0));
    a.sched = true;
    a.io = true;
    a.cpu = true;
    a.mem_opts = MemArgsInner { memory: Some("1GB".to_string()), memory_cap_override: true };
    a.io_opts = IoArgsInner { io_dir: "custom-io".to_string() };
    a.compile_opts = CompileArgsInner {
        modules: 80,
        mode: Some(CliCompileMode::Check),
        ecs: true,
        compile_dir: "gen".to_string(),
    };
    let plan = RunPlan::from_cli(&cli(Some("dev"), Commands::Run(a)), &file).unwrap();
    assert_eq!(plan.workloads, vec![WorkloadKind::Cpu, WorkloadKind::Io, WorkloadKind::Sched]);
    assert_eq!(plan.mem.memory.as_deref(), Some("1GB"));
    assert!(plan.mem.memory_cap_override);
    assert_eq!(plan.io_dir, "custom-io");
    assert_eq!(plan.compile.modules, 80);
    assert_eq!(plan.compile.mode, Some(CliCompileMode::Check));
    assert_eq!(plan.compile_mode(), CompileMode::Check);
    assert!(plan.compile.ecs);
    assert_eq!(plan.compile.compile_dir, "gen");
    assert_eq!(plan.duration, Duration { secs: 60, nanos: 0 });
}

#[test]
fn profile_compile_mode_reaches_plan() {
    let file = FileConfig::embedded();
    let plan = RunPlan::from_cli(&cli(Some("compiler-torture"), Commands::Info), &file).unwrap();
    assert_eq!(plan.compile.mode, Some(CliCompileMode::Incremental));
    assert_eq!(plan.compile.modules, 200);
    assert_eq!(plan.workloads, vec![WorkloadKind::Compile]);
    assert_eq!(plan.compile_mode(), CompileMode::Incremental);
    // `run` with its compile options left at their defaults keeps the profile's mode.
    let plan = RunPlan::from_cli(&cli(Some("compiler-torture"), Commands::Run(run_args(common(5, 30, 0)))), &file)
        .unwrap();
    assert_eq!(plan.compile_mode(), CompileMode::Incremental);
    assert_eq!(plan.compile.modules, 200);
    assert_eq!(plan.workloads, vec![WorkloadKind::Compile]);
    assert_eq!(plan.duration, Duration { secs: 1800, nanos: 0 });
}

#[test]
fn single_module_commands() {
    let file = FileConfig::embedded();
    let mem = Commands::Mem(MemArgs {
        common: common(5, 30, 0),
        inner: MemArgsInner { memory: Some("3GB".to_string()), memory_cap_override: false },
    });
    let p = RunPlan::from_cli(&cli(Some("full"), mem), &file).unwrap();
    assert_eq!(p.workloads, vec![WorkloadKind::Memory]);
    assert_eq!(p.mem.memory.as_deref(), Some("3GB"));

    let io = Commands::Io(IoArgs { common: common(5, 30, 0), inner: IoArgsInner { io_dir: "libstress-io".to_string() } });
    let p = RunPlan::from_cli(&cli(None, io), &file).unwrap();
    assert_eq!(p.workloads, vec![WorkloadKind::Io]);

    let compile = Commands::Compile(CompileArgs { common: common(5, 30, 0), inner: CompileArgsInner::default() });
    let p = RunPlan::from_cli(&cli(Some("ci-full"), compile), &file).unwrap();
    assert_eq!(p.workloads, vec![WorkloadKind::Compile]);
    assert_eq!(p.compile_mode(), CompileMode::Check);

    let net = Commands::Extras { command: ExtrasCommands::Net(NetArgs { common: common(5, 30, 0), port: Some(20000) }) };
    let p = RunPlan::from_cli(&cli(Some("net-loopback"), net), &file).unwrap();
    assert_eq!(p.workloads, vec![WorkloadKind::Net]);
    assert_eq!(p.net_port, 20000);

    let p = RunPlan::from_cli(&cli(None, Commands::Sched(common(5, 30, 0))), &file).unwrap();
    assert_eq!(p.workloads, vec![WorkloadKind::Sched]);
    let p = RunPlan::from_cli(&cli(None, Commands::Gpu(common(5, 30, 0))), &file).unwrap();
    assert_eq!(p.workloads, vec![WorkloadKind::Gpu]);
}

#[test]
fn unknown_profile_fails_plan() {
    let file = FileConfig::embedded();
    match RunPlan::from_cli(&cli(Some("missing"), Commands::Profiles), &file) {
        Err(ConfigError::UnknownProfile(n)) => assert_eq!(n, "missing"),
        Ok(_) => panic!("planned with an unknown profile"),
    }
}

#[test]
fn global_flags_reach_plan() {
    let file = FileConfig::embedded();
    let mut c = cli(None, Commands::Cpu(common(5, 30, 0)));
    c.global.dry_run = true;
    c.global.live_stats = true;
    let plan = RunPlan::from_cli(&c, &file).unwrap();
    assert!(plan.dry_run);
    assert!(plan.live_stats);
    assert_eq!(plan.effective_threads(Some(6)), 6);
    assert_eq!(plan.effective_threads(None), 4);
}

#[test]
fn all_expands_to_cpu_mem_io() {
    assert_eq!(
        expand_workloads(&vec![WorkloadKind::Net, WorkloadKind::All]),
        vec![WorkloadKind::Cpu, WorkloadKind::Memory, WorkloadKind::Io]
    );
    assert_eq!(
        expand_workloads(&vec![WorkloadKind::Net, WorkloadKind::Sched]),
        vec![WorkloadKind::Net, WorkloadKind::Sched]
    );
}

#[test]
fn report_choice() {
    let file = FileConfig::embedded();
    let mut plan = RunPlan::from_cli(&cli(None, Commands::Cpu(common(5, 30, 0))), &file).unwrap();
    assert_eq!(report_after_run(&plan, None), None);
    assert_eq!(report_after_run(&plan, Some(ReportOpt::Json)), Some(ReportFormat::Json));
    plan.live_stats = true;
    assert_eq!(report_after_run(&plan, None), Some(ReportFormat::Text));
    assert_eq!(map_report(ReportOpt::Text), ReportFormat::Text);
}

#[test]
fn bench_round_command_line() {
    let file = FileConfig::embedded();
    let plan = RunPlan::from_cli(&cli(Some("ci-quick"), Commands::Profiles), &file).unwrap();
    let c = bench_cli("ci-quick", &plan);
    assert_eq!(c.global.profile.as_deref(), Some("ci-quick"));
    match &c.command {
        Commands::Run(a) => {
            assert!(!a.any_selected());
            assert_eq!(a.common.intensity, 4);
            assert_eq!(a.common.duration, Duration { secs: 15, nanos: 0 });
        }
        _ => panic!("bench must run"),
    }
    let again = RunPlan::from_cli(&c, &file).unwrap();
    assert_eq!(again.workloads, plan.workloads);
    assert_eq!(again.intensity, plan.intensity);
}

fn plan_with(workloads: Vec<WorkloadKind>) -> RunPlan {
    let file = FileConfig::embedded();
    let mut plan = RunPlan::from_cli(&cli(None, Commands::Info), &file).unwrap();
    plan.workloads = workloads;
    plan
}

#[test]
fn execution_runs_in_order_until_done() {
    let plan = plan_with(vec![WorkloadKind::Cpu, WorkloadKind::Net]);
    let mut run = Execution::new(&plan);
    assert_eq!(run.next_step(), RunStep::Run(WorkloadKind::Cpu));
    run.record(true);
    assert_eq!(run.next_step(), RunStep::Run(WorkloadKind::Net));
    run.record(true);
    assert_eq!(run.next_step(), RunStep::Stop);
    assert!(!run.failed());
}

#[test]
fn execution_stops_at_first_failure() {
    let plan = plan_with(vec![WorkloadKind::All, WorkloadKind::Sched]);
    let mut run = Execution::new(&plan);
    assert_eq!(
        run.queue(),
        &vec![WorkloadKind::Cpu, WorkloadKind::Memory, WorkloadKind::Io]
    );
    assert_eq!(run.next_step(), RunStep::Run(WorkloadKind::Cpu));
    run.record(false);
    assert!(run.failed());
    assert_eq!(run.next_step(), RunStep::Stop);
}

#[test]
fn io_dir_flag_compared_as_path() {
    let mut file = FileConfig::new();
    let mut custom = ProfileSettings::default();
    custom.io_dir = "custom-io".to_string();
    file.insert_profile("custom".to_string(), custom);

    // `libstress-io/` is the same path as the flag's default, so the profile's directory stays.
    let mut a = run_args(common(5, 30, 0));
    a.io_opts.io_dir = "libstress-io/".to_string();
    let plan = RunPlan::from_cli(&cli(Some("custom"), Commands::Run(a)), &file).unwrap();
    assert_eq!(plan.io_dir, "custom-io");

    let mut b = run_args(common(5, 30, 0));
    b.io_opts.io_dir = "elsewhere".to_string();
    let plan = RunPlan::from_cli(&cli(Some("custom"), Commands::Run(b)), &file).unwrap();
    assert_eq!(plan.io_dir, "elsewhere");
}

#[test]
fn bench_counts_rounds_and_successes() {
    let mut b = BenchRun::new(3);
    assert_eq!(b.next_round(), Some(1));
    b.record(true);
    assert_eq!(b.next_round(), Some(2));
    b.record(false);
    assert_eq!(b.next_round(), Some(3));
    b.record(true);
    assert_eq!(b.next_round(), None);
    assert_eq!(b.summary(), "bench complete: 2/3 succeeded");
    assert_eq!(BenchRun::new(0).next_round(), None);
    assert_eq!(BenchRun::new(0).summary(), "bench complete: 0/0 succeeded");
    assert_eq!(bench_round_line(2, 3, "ci-quick"), "bench round 2/3 (profile=ci-quick)");
}
