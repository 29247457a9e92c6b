use libstress::safety::{scratch_dir, MemorySafetyCap, SafetyError};

const MIB: u64 = 1024 * 1024;
const GIB: u64 = 1024 * MIB;

#[test]
fn default_cap_is_seventy_percent() {
    let cap = MemorySafetyCap::default();
    assert_eq!(cap.max_percent, 70);
    assert!(!cap.override_cap);
    assert_eq!(cap.cap_for(10 * GIB), 7 * GIB);
    assert_eq!(cap.cap_for(100), 70);
}

#[test]
fn request_within_cap_is_kept() {
    let cap = MemorySafetyCap::default();
    assert_eq!(cap.resolve_target_bytes(Some(2 * GIB), 16 * GIB), Ok(2 * GIB));
}

#[test]
fn request_over_cap_is_refused() {
    let cap = MemorySafetyCap::default();
    let r = cap.resolve_target_bytes(Some(8 * GIB), 10 * GIB);
    assert_eq!(
        r,
        Err(SafetyError::ExceedsCap { requested: 8 * GIB, cap: 7 * GIB, percent: 70, total: 10 * GIB })
    );
    assert_eq!(
        r.unwrap_err().message(),
        "requested 8589934592 bytes exceeds safety cap of 7516192768 bytes (70% of 10737418240 total). Pass --memory-cap-override to acknowledge risk."
    );
}

#[test]
fn override_allows_large_requests() {
    let cap = MemorySafetyCap { max_percent: 70, override_cap: true };
    assert_eq!(cap.resolve_target_bytes(Some(20 * GIB), 10 * GIB), Ok(20 * GIB));
    assert_eq!(cap.resolve_target_bytes(None, 10 * GIB), Ok(5 * GIB));
}

#[test]
fn default_target_is_half_cap_at_least_64_mib() {
    let cap = MemorySafetyCap::default();
    assert_eq!(cap.resolve_target_bytes(None, 10 * GIB), Ok(7 * GIB / 2));
    assert_eq!(cap.resolve_target_bytes(None, 100 * MIB), Ok(64 * MIB));
}

#[test]
fn default_target_never_exceeds_cap() {
    let cap = MemorySafetyCap::default();
    // 64 MiB of RAM: the cap is 70% of it, below the 64 MiB floor, so the cap is the target.
    assert_eq!(cap.resolve_target_bytes(None, 64 * MIB), Ok(64 * MIB * 70 / 100));
    assert_eq!(cap.resolve_target_bytes(None, 1), Err(SafetyError::ZeroTarget));
}

#[test]
fn zero_request_is_refused() {
    let cap = MemorySafetyCap::default();
    let r = cap.resolve_target_bytes(Some(0), 10 * GIB);
    assert_eq!(r, Err(SafetyError::ZeroTarget));
    assert_eq!(r.unwrap_err().message(), "memory target resolved to zero bytes");
}

#[test]
fn headroom_check() {
    assert_eq!(MemorySafetyCap::check_available_headroom(4 * GIB, 2 * GIB), Ok(()));
    assert_eq!(MemorySafetyCap::check_available_headroom(4 * GIB, 4 * GIB - 512 * MIB), Ok(()));
    let r = MemorySafetyCap::check_available_headroom(4 * GIB, 4 * GIB - 512 * MIB + 1);
    assert_eq!(r, Err(SafetyError::InsufficientHeadroom { available: 4 * GIB }));
    assert_eq!(
        r.unwrap_err().message(),
        "only 4294967296 bytes available; need headroom for OS stability"
    );
    assert!(MemorySafetyCap::check_available_headroom(GIB, 2 * GIB).is_err());
}

#[test]
fn split_memory_sizes() {
    let t = MemorySafetyCap::split_memory_size("2GB");
    assert_eq!((t.normalized.as_str(), t.number.as_str(), t.unit), ("2GB", "2", GIB));
    let t = MemorySafetyCap::split_memory_size(" 512 mb ");
    assert_eq!((t.normalized.as_str(), t.number.as_str(), t.unit), ("512 MB", "512", MIB));
    let t = MemorySafetyCap::split_memory_size("64kb");
    assert_eq!((t.number.as_str(), t.unit), ("64", 1024));
    let t = MemorySafetyCap::split_memory_size("100b");
    assert_eq!((t.number.as_str(), t.unit), ("100", 1));
    let t = MemorySafetyCap::split_memory_size("4096");
    assert_eq!((t.number.as_str(), t.unit), ("4096", 1));
    let t = MemorySafetyCap::split_memory_size("1.5 gb");
    assert_eq!((t.number.as_str(), t.unit), ("1.5", GIB));
}

#[test]
fn scratch_dirs_stay_under_temp() {
    assert_eq!(scratch_dir("/tmp", "libstress-io"), Ok("/tmp/libstress-io".to_string()));
    assert_eq!(scratch_dir("/tmp", "a/b.c/..d"), Ok("/tmp/a/b.c/..d".to_string()));
    for bad in ["", "/var/data", "\\share", "C:data", "..", "../up", "a/../b", ".", "a/./b", "a/.."] {
        assert_eq!(
            scratch_dir("/tmp", bad),
            Err(format!("the directory must be a relative path inside the temp directory: {bad}"))
        );
    }
}
