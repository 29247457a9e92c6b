use libstress::compile::{
    cargo_invocation, default_generated_dir, generate_options, module_declarations, module_file_name,
    module_name, touch_after_round, Stressgen,
};
use libstress::codegen::{chain_depth, pressure_fn_name, wrapper_name};
use libstress::compile::{ecs_stress_module, generated_module, root_lib, workspace_manifest};
use libstress::config::{CompileMode, Intensity};
use libstress::io::{
    default_artifact_path, deleted_in_round, file_digest, io_plan, library_name, object_name,
    stress_file_name, tiny_name,
};
use libstress::gpu::run_optional;
use libstress::net::{net_plan, LOOPBACK};
use libstress::sched::{sched_plan, SchedError};
use sha2::{Digest, Sha256};

#[test]
fn module_names_are_zero_padded() {
    assert_eq!(module_name(0), "mod_00000");
    assert_eq!(module_name(42), "mod_00042");
    assert_eq!(module_name(123456), "mod_123456");
    assert_eq!(module_file_name(7), "mod_00007.rs");
}

#[test]
fn module_tree_declares_each_module() {
    assert_eq!(module_declarations(0), "//! Auto-generated module tree.\n\n");
    assert_eq!(
        module_declarations(2),
        "//! Auto-generated module tree.\n\npub mod mod_00000;\npub mod mod_00001;\n"
    );
}

#[test]
fn cargo_arguments_per_mode() {
    let r = cargo_invocation(CompileMode::BuildRelease, Intensity(8));
    assert_eq!(r.args, vec!["build", "--release"]);
    assert!(r.debuginfo);
    let r = cargo_invocation(CompileMode::Check, Intensity(7));
    assert_eq!(r.args, vec!["check"]);
    assert!(!r.debuginfo);
    assert_eq!(cargo_invocation(CompileMode::Incremental, Intensity(1)).args, vec!["build"]);
}

#[test]
fn incremental_touches_every_second_build() {
    assert_eq!(touch_after_round(CompileMode::Incremental, 1, Intensity(5)), None);
    assert_eq!(touch_after_round(CompileMode::Incremental, 2, Intensity(5)), Some(10));
    assert_eq!(touch_after_round(CompileMode::Incremental, 4, Intensity(10)), Some(20));
    assert_eq!(touch_after_round(CompileMode::Check, 2, Intensity(5)), None);
}

#[test]
fn generator_options() {
    let o = generate_options(Intensity(5), 0, "out".to_string(), true);
    assert_eq!(o.modules, 1);
    assert!(o.ecs_stress);
    let g = Stressgen::new(o.clone());
    assert_eq!(g.opts().out_dir, "out");
    assert!(default_generated_dir("/tmp/x").ends_with("compile-stress-gen"));
    assert_eq!(default_generated_dir("/tmp/x"), "/tmp/x/compile-stress-gen");
}

#[test]
fn io_round_sizes() {
    let p = io_plan(Intensity(5));
    assert_eq!(p.file_count, 8);
    assert_eq!(p.buffer_bytes, 256 * 1024);
    assert_eq!(p.small_count, 200);
    assert_eq!(p.large_count, 4);
    assert_eq!(p.large_size, 512 * 1024);
    assert!(p.use_blake3);
    let q = io_plan(Intensity(1));
    assert_eq!(q.file_count, 2);
    assert_eq!(q.buffer_bytes, 64 * 1024);
    assert_eq!(q.small_count, 40);
    assert_eq!(q.large_count, 1);
    assert_eq!(q.large_size, 104858);
    assert!(!q.use_blake3);
}

#[test]
fn io_file_names() {
    assert_eq!(stress_file_name(3, 14), "stress-3-14.bin");
    assert_eq!(object_name(0), "obj-0.o");
    assert_eq!(library_name(12), "lib-12.rlib");
    assert_eq!(tiny_name(5), "tiny-5.tmp");
    assert!(deleted_in_round(0));
    assert!(!deleted_in_round(1));
    assert!(deleted_in_round(6));
    assert_eq!(default_artifact_path("/tmp/io"), "/tmp/io/artifacts");
}

#[test]
fn file_digests() {
    let data = b"libstress file contents".to_vec();
    let sha = Sha256::digest(&data);
    assert_eq!(file_digest(&data, false), u64::from_le_bytes(sha[0..8].try_into().unwrap()));
    let b3 = blake3::hash(&data);
    assert_eq!(file_digest(&data, true), u64::from_le_bytes(b3.as_bytes()[0..8].try_into().unwrap()));
    assert_ne!(file_digest(&data, true), file_digest(&data, false));
    assert_ne!(file_digest(b"", true), 0);
}

#[test]
fn net_parameters() {
    let p = net_plan(Intensity(5), 0, 64);
    assert_eq!(p.host, LOOPBACK);
    assert_eq!(p.host.to_be_bytes(), [127, 0, 0, 1]);
    assert_eq!(p.port, 19456);
    assert_eq!(p.payload_size, 32 * 1024);
    assert_eq!(p.clients, 32);
    let q = net_plan(Intensity(1), 8080, 0);
    assert_eq!(q.port, 8080);
    assert_eq!(q.payload_size, 6554);
    assert_eq!(q.clients, 1);
}

#[test]
fn sched_cap() {
    let p = sched_plan(Intensity(5), 0).unwrap();
    assert_eq!(p.workers, 1);
    assert_eq!(p.iterations, 200);
    assert_eq!(sched_plan(Intensity(5), 256).unwrap().workers, 256);
    let e = sched_plan(Intensity(5), 257).unwrap_err();
    assert_eq!(e, SchedError { requested: 257 });
    assert_eq!(e.message(), "sched-stress capped at 256 threads (requested 257)");
    assert_eq!(sched_plan(Intensity(1), 4).unwrap().iterations, 40);
}

#[test]
fn gpu_is_refused_without_backend() {
    let e = run_optional(7, libstress::config::Duration::from_secs(10)).unwrap_err();
    assert_eq!(
        e,
        "GPU stress requires building with `--features gpu` (cargo build -p libstress --features gpu)"
    );
}

#[test]
fn chain_depth_parses_and_clamps() {
    assert_eq!(chain_depth("12"), 12);
    assert_eq!(chain_depth("+3"), 3);
    assert_eq!(chain_depth("0"), 1);
    assert_eq!(chain_depth("1000"), 64);
    assert_eq!(chain_depth("deep"), 8);
    assert_eq!(chain_depth(""), 8);
    assert_eq!(chain_depth("99999999999999999999999999"), 8);
    assert_eq!(wrapper_name(3), "Wrap3");
    assert_eq!(pressure_fn_name("work"), "work_const_pressure");
}

fn options(level: u8, ecs: bool) -> libstress::compile::GenerateOptions {
    generate_options(Intensity(level), 3, "out".to_string(), ecs)
}

#[test]
fn generated_sources() {
    assert!(workspace_manifest().starts_with("[package]\nname = \"stressgen-out\""));
    assert_eq!(root_lib(&options(5, false)), "//! Generated compile-stress workspace.\n\npub mod modules;\n");
    assert!(root_lib(&options(5, true)).ends_with("pub mod modules;\npub mod ecs_stress;\n"));
    // Level 1: max(round(8 / 5), 1) = 2 layers.
    let m = generated_module(4, &options(1, false));
    assert!(m.starts_with("//! Generated module 4.\n"));
    assert!(m.contains("x.wrapping_mul(31).wrapping_add(4)"));
    assert!(m.contains("pub fn layer_1(x: u64) -> u64 {\n    Node(layer_0(x)).get().rotate_left(1) ^ 4\n}\n"));
    assert!(!m.contains("layer_2"));
    assert!(m.ends_with("pub fn entry(x: u64) -> u64 {\n    layer_1(x)\n}\n"));
    // Level 5: 8 layers.
    let m = generated_module(0, &options(5, false));
    assert!(m.contains("pub fn layer_7("));
    assert!(!m.contains("pub fn layer_8("));
    assert!(ecs_stress_module().contains("pub struct World"));
}
