use libstress::doctor::{outcome, run_checks, HostProbe, ToolProbe};
use libstress::system::SystemSnapshot;

fn sample_probe() -> HostProbe {
    HostProbe {
        cargo: ToolProbe::Ran {
            success: true,
            stdout: "cargo 1.80.0 (376290515 2024-07-16)\n".to_string(),
            status: "exit status: 0".to_string(),
        },
        rustc: ToolProbe::Failed { error: "No such file or directory (os error 2)".to_string() },
        snapshot: SystemSnapshot {
            total_memory: 16 * 1024 * 1024 * 1024,
            available_memory: 8 * 1024 * 1024 * 1024,
            cpu_count: 8,
        },
        temp_dir: "/tmp".to_string(),
        temp_dir_writable: true,
        parallelism: Some(8),
    }
}

#[test]
fn doctor_runs() {
    let report = run_checks(&sample_probe());
    assert!(!report.checks.is_empty());
}

#[test]
fn doctor_check_details() {
    let report = run_checks(&sample_probe());
    let names: Vec<&str> = report.checks.iter().map(|c| c.name.as_str()).collect();
    assert_eq!(names, vec!["cargo", "rustc", "memory", "temp_dir", "cpu_threads"]);
    assert!(report.checks[0].passed);
    assert_eq!(report.checks[0].detail, "cargo 1.80.0 (376290515 2024-07-16)");
    assert!(!report.checks[1].passed);
    assert_eq!(report.checks[1].detail, "No such file or directory (os error 2)");
    assert!(report.checks[2].passed);
    assert_eq!(report.checks[2].detail, "available 8192 MiB, stress cap ~11468 MiB (70%)");
    assert_eq!(report.checks[3].detail, "/tmp");
    assert_eq!(report.checks[4].detail, "8 logical CPUs");
    assert!(!report.ok);
    assert_eq!(outcome(&report), Err("doctor checks failed".to_string()));
}

#[test]
fn doctor_all_passing() {
    let mut probe = sample_probe();
    probe.rustc = ToolProbe::Ran { success: true, stdout: " rustc 1.80.0 \n".to_string(), status: String::new() };
    let report = run_checks(&probe);
    assert!(report.ok);
    assert_eq!(report.checks[1].detail, "rustc 1.80.0");
    assert_eq!(outcome(&report), Ok(()));
    probe.cargo = ToolProbe::Ran { success: false, stdout: String::new(), status: "exit status: 101".to_string() };
    probe.snapshot.available_memory = 100;
    probe.parallelism = None;
    let report = run_checks(&probe);
    assert_eq!(report.checks[0].detail, "exit exit status: 101");
    assert!(!report.checks[2].passed);
    assert_eq!(report.checks[4].detail, "1 logical CPUs");
}

#[test]
fn memory_check_threshold_is_512_mib() {
    let mut probe = sample_probe();
    probe.snapshot.available_memory = 512 * 1024 * 1024;
    assert!(run_checks(&probe).checks[2].passed);
    probe.snapshot.available_memory = 512 * 1024 * 1024 - 1;
    assert!(!run_checks(&probe).checks[2].passed);
}
