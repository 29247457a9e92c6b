use libstress::config::{CompileMode, WorkloadKind};
use libstress::profile::{layered_config, merge_configs, merge_profile, ConfigError, FileConfig, ProfileSettings};

#[test]
fn embedded_profiles_parse() {
    let cfg = FileConfig::embedded();
    assert!(cfg.contains_profile("ci-quick"));
}

#[test]
fn resolve_ci_quick() {
    let cfg = FileConfig::embedded();
    let p = cfg.resolve_profile("ci-quick").unwrap();
    assert_eq!(p.duration_secs, 15);
    assert_eq!(p.intensity, 4);
}

fn with_workloads(names: &[&str]) -> ProfileSettings {
    let mut p = ProfileSettings::default();
    p.workloads = names.iter().map(|s| s.to_string()).collect();
    p
}

#[test]
fn empty_workloads_default_to_cpu_mem_io() {
    let p = ProfileSettings::default();
    assert_eq!(
        p.parse_workloads(),
        vec![WorkloadKind::Cpu, WorkloadKind::Memory, WorkloadKind::Io]
    );
}

#[test]
fn workload_names_from_the_table() {
    let p = with_workloads(&[
        "cpu", "mem", "memory", "io", "disk", "compile", "compiler", "net", "network", "sched",
        "threads", "gpu", "all",
    ]);
    assert_eq!(
        p.parse_workloads(),
        vec![
            WorkloadKind::Cpu,
            WorkloadKind::Memory,
            WorkloadKind::Memory,
            WorkloadKind::Io,
            WorkloadKind::Io,
            WorkloadKind::Compile,
            WorkloadKind::Compile,
            WorkloadKind::Net,
            WorkloadKind::Net,
            WorkloadKind::Sched,
            WorkloadKind::Sched,
            WorkloadKind::Gpu,
            WorkloadKind::All,
        ]
    );
}

#[test]
fn workload_names_ignore_case_and_skip_unknown() {
    let p = with_workloads(&["CPU", "bogus", "Disk", "THREADS"]);
    assert_eq!(
        p.parse_workloads(),
        vec![WorkloadKind::Cpu, WorkloadKind::Io, WorkloadKind::Sched]
    );
    let q = with_workloads(&["nothing"]);
    assert!(q.parse_workloads().is_empty());
}

#[test]
fn compile_mode_names() {
    let mut p = ProfileSettings::default();
    assert_eq!(p.compile_mode(), CompileMode::BuildRelease);
    p.compile_mode = Some("Check".to_string());
    assert_eq!(p.compile_mode(), CompileMode::Check);
    p.compile_mode = Some("INCREMENTAL".to_string());
    assert_eq!(p.compile_mode(), CompileMode::Incremental);
    p.compile_mode = Some("fast".to_string());
    assert_eq!(p.compile_mode(), CompileMode::BuildRelease);
}

#[test]
fn duration_and_intensity_accessors() {
    let mut p = ProfileSettings::default();
    p.duration_secs = 90;
    p.intensity = 42;
    assert_eq!(p.duration().secs, 90);
    assert_eq!(p.duration().nanos, 0);
    assert_eq!(p.intensity().0, 10);
}

#[test]
fn merge_profile_overlays_set_fields_only() {
    let mut base = ProfileSettings::default();
    base.threads = 4;
    base.workloads = vec!["cpu".to_string()];
    base.memory = Some("1GB".to_string());
    base.io_dir = "base-io".to_string();
    base.compile_dir = Some("base-compile".to_string());
    base.net_port = Some(1000);
    let mut overlay = ProfileSettings::default();
    overlay.duration_secs = 99;
    overlay.intensity = 9;
    overlay.compile_modules = 7;
    overlay.ecs = true;
    overlay.compile_mode = Some("check".to_string());
    merge_profile(&mut base, &overlay);
    assert_eq!(base.duration_secs, 99);
    assert_eq!(base.intensity, 9);
    assert_eq!(base.threads, 4);
    assert_eq!(base.workloads, vec!["cpu".to_string()]);
    assert_eq!(base.memory.as_deref(), Some("1GB"));
    assert_eq!(base.io_dir, "base-io");
    assert_eq!(base.compile_modules, 7);
    assert_eq!(base.compile_mode.as_deref(), Some("check"));
    assert_eq!(base.compile_dir.as_deref(), Some("base-compile"));
    assert!(base.ecs);
    assert_eq!(base.net_port, Some(1000));

    let mut other = ProfileSettings::default();
    other.io_dir = "elsewhere".to_string();
    other.threads = 2;
    other.net_port = Some(2000);
    other.max_disk_gb_bits = Some(1.5f64.to_bits());
    merge_profile(&mut base, &other);
    assert_eq!(base.io_dir, "elsewhere");
    assert_eq!(base.threads, 2);
    assert_eq!(base.net_port, Some(2000));
    assert_eq!(base.max_disk_gb_bits.map(f64::from_bits), Some(1.5));
}

#[test]
fn merge_twice_changes_nothing_more() {
    let mut base = ProfileSettings::default();
    base.threads = 3;
    let mut overlay = ProfileSettings::default();
    overlay.memory = Some("2GB".to_string());
    overlay.duration_secs = 5;
    merge_profile(&mut base, &overlay);
    let once = base.clone();
    merge_profile(&mut base, &overlay);
    assert_eq!(format!("{:?}", once), format!("{:?}", base));
}

#[test]
fn unknown_profile_is_refused() {
    let cfg = FileConfig::embedded();
    match cfg.resolve_profile("nope") {
        Err(e @ ConfigError::UnknownProfile(_)) => {
            assert_eq!(e.message(), "unknown profile 'nope'");
        }
        Ok(_) => panic!("resolved an unknown profile"),
    }
}

#[test]
fn embedded_profile_names_are_sorted() {
    let cfg = FileConfig::embedded();
    assert_eq!(
        cfg.profile_names(),
        vec![
            "ci-full",
            "ci-quick",
            "compiler-torture",
            "dev",
            "full",
            "net-loopback",
            "overnight"
        ]
    );
}

#[test]
fn profile_names_sort_by_code_point() {
    let mut cfg = FileConfig::new();
    for name in ["zeta", "Alpha", "alpha", "beta", "ä"] {
        cfg.insert_profile(name.to_string(), ProfileSettings::default());
    }
    assert_eq!(cfg.profile_names(), vec!["Alpha", "alpha", "beta", "zeta", "ä"]);
}

#[test]
fn resolve_lays_profile_over_defaults() {
    let mut cfg = FileConfig::new();
    let mut defaults = ProfileSettings::default();
    defaults.threads = 6;
    defaults.workloads = vec!["io".to_string()];
    cfg.set_defaults(Some(defaults));
    let mut p = ProfileSettings::default();
    p.duration_secs = 12;
    cfg.insert_profile("mine".to_string(), p);
    let r = cfg.resolve_profile("mine").unwrap();
    assert_eq!(r.duration_secs, 12);
    assert_eq!(r.threads, 6);
    assert_eq!(r.workloads, vec!["io".to_string()]);
}

#[test]
fn insert_replaces_same_name() {
    let mut cfg = FileConfig::new();
    let mut a = ProfileSettings::default();
    a.intensity = 2;
    cfg.insert_profile("x".to_string(), a);
    let mut b = ProfileSettings::default();
    b.intensity = 8;
    cfg.insert_profile("x".to_string(), b);
    assert_eq!(cfg.profile_names(), vec!["x"]);
    assert_eq!(cfg.get_profile("x").unwrap().intensity, 8);
    assert!(cfg.get_profile("y").is_none());
}

#[test]
fn later_config_wins() {
    let base = FileConfig::embedded();
    let mut overlay = FileConfig::new();
    let mut quick = ProfileSettings::default();
    quick.duration_secs = 1;
    overlay.insert_profile("ci-quick".to_string(), quick);
    overlay.insert_profile("extra".to_string(), ProfileSettings::default());
    let mut d = ProfileSettings::default();
    d.threads = 2;
    overlay.set_defaults(Some(d));
    let merged = merge_configs(base, overlay);
    assert_eq!(merged.get_profile("ci-quick").unwrap().duration_secs, 1);
    assert_eq!(merged.get_profile("dev").unwrap().duration_secs, 60);
    assert!(merged.contains_profile("extra"));
    assert_eq!(merged.defaults().as_ref().unwrap().threads, 2);
    assert_eq!(merged.profile_names().len(), 8);
}

#[test]
fn workload_labels_round_trip() {
    let kinds = vec![WorkloadKind::Net, WorkloadKind::Cpu, WorkloadKind::Memory, WorkloadKind::Sched, WorkloadKind::Compile];
    let mut p = ProfileSettings::default();
    p.workloads = kinds.iter().map(|k| libstress::metrics::workload_label(*k).to_string()).collect();
    assert_eq!(p.parse_workloads(), kinds);
    p.workloads = vec!["MEM".to_string(), "Disk".to_string()];
    assert_eq!(p.parse_workloads(), vec![WorkloadKind::Memory, WorkloadKind::Io]);
}

fn one_profile(name: &str, secs: u64) -> FileConfig {
    let mut cfg = FileConfig::new();
    let mut p = ProfileSettings::default();
    p.duration_secs = secs;
    cfg.insert_profile(name.to_string(), p);
    cfg
}

#[test]
fn config_layers_explicit_over_discovered_over_builtin() {
    let mut discovered = one_profile("dev", 11);
    discovered.insert_profile("local".to_string(), ProfileSettings::default());
    let explicit = one_profile("dev", 22);
    let cfg = layered_config(FileConfig::embedded(), Some(discovered), Some(explicit));
    assert_eq!(cfg.resolve_profile("dev").unwrap().duration_secs, 22);
    assert!(cfg.contains_profile("local"));
    assert_eq!(cfg.resolve_profile("ci-quick").unwrap().duration_secs, 15);
    let cfg = layered_config(FileConfig::embedded(), Some(one_profile("dev", 11)), None);
    assert_eq!(cfg.resolve_profile("dev").unwrap().duration_secs, 11);
    let cfg = layered_config(FileConfig::embedded(), None, None);
    assert_eq!(cfg.resolve_profile("dev").unwrap().duration_secs, 60);
}
