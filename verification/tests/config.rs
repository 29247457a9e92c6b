use libstress::config::{CompileMode, Duration, Intensity, StressConfig, WorkloadKind};

#[test]
fn intensity_is_clamped() {
    assert_eq!(Intensity::new(0), Intensity(1));
    assert_eq!(Intensity::new(1), Intensity(1));
    assert_eq!(Intensity::new(7), Intensity(7));
    assert_eq!(Intensity::new(10), Intensity(10));
    assert_eq!(Intensity::new(200), Intensity(10));
}

#[test]
fn scale_is_one_at_five_and_two_at_ten() {
    assert_eq!(Intensity(5).scale_usize(50_000), 50_000);
    assert_eq!(Intensity(10).scale_usize(50_000), 100_000);
    assert_eq!(Intensity(1).scale_usize(100), 20);
    assert_eq!(Intensity(3).scale_usize(7), 4);
    assert_eq!(Intensity(7).scale_usize(3), 4);
}

#[test]
fn scale_never_below_one() {
    assert_eq!(Intensity(1).scale_usize(0), 1);
    assert_eq!(Intensity(1).scale_usize(2), 1);
    assert_eq!(Intensity(0).scale_usize(1000), 1);
}

#[test]
fn scale_saturates() {
    assert_eq!(Intensity(10).scale_usize(usize::MAX), usize::MAX);
}

#[test]
fn default_config() {
    let c = StressConfig::with_io_dir("/tmp/libstress-io".to_string());
    assert_eq!(c.intensity, Intensity(5));
    assert_eq!(c.duration, Duration { secs: 30, nanos: 0 });
    assert_eq!(c.threads, 0);
    assert_eq!(c.workloads, vec![WorkloadKind::All]);
    assert_eq!(c.io_dir, "/tmp/libstress-io");
    assert_eq!(c.memory_target, None);
    assert_eq!(c.compile_modules, 50);
    assert_eq!(c.compile_mode, CompileMode::BuildRelease);
    assert_eq!(CompileMode::default(), CompileMode::BuildRelease);
}

#[test]
fn effective_threads_prefers_configured() {
    let mut c = StressConfig::with_io_dir("io".to_string());
    assert_eq!(c.effective_threads(Some(12)), 12);
    assert_eq!(c.effective_threads(None), 4);
    c.threads = 3;
    assert_eq!(c.effective_threads(Some(12)), 3);
}
