use vstd::prelude::*;

use crate::config::{scaled, CompileMode, Intensity};
use crate::mem::at_least;
use crate::profile::texts;
use crate::text::{
    decimal, decimal_string, ends_with, join2, join_path, owned, path_join, zero_padded, zero_padded_decimal,
};
use vstd::string::StringExecFns;

verus! {

/// What to generate for the compiler stress.
#[derive(Debug, Clone)]
pub struct GenerateOptions {
    pub modules: usize,
    pub intensity: Intensity,
    pub ecs_stress: bool,
    pub out_dir: String,
}

/// Generator of synthetic Cargo workspaces.
#[derive(Debug)]
pub struct Stressgen {
    opts: GenerateOptions,
}

impl Stressgen {
    /// A generator for these options.
    pub fn new(opts: GenerateOptions) -> (r: Self)
        ensures
            r.options() == opts,
    {
        Stressgen { opts }
    }

    /// The options this generator was made with.
    pub closed spec fn options(&self) -> GenerateOptions {
        self.opts
    }

    /// The options this generator was made with.
    pub fn opts(&self) -> (r: &GenerateOptions)
        ensures
            *r == self.options(),
    {
        &self.opts
    }
}

/// The options the compiler stress generates with: at least one module.
pub fn generate_options(intensity: Intensity, modules: usize, out_dir: String, ecs: bool) -> (r: GenerateOptions)
    ensures
        r.modules as nat == at_least(modules as nat, 1),
        r.intensity == intensity,
        r.ecs_stress == ecs,
        r.out_dir@ == out_dir@,
{
    GenerateOptions { modules: if modules < 1 { 1 } else { modules }, intensity, ecs_stress: ecs, out_dir }
}

/// The default output directory under `base`: `base` joined with `compile-stress-gen`.
pub fn default_generated_dir(base: &str) -> (r: String)
    ensures
        r@ == path_join(base@, "compile-stress-gen"@),
        ends_with(r@, "compile-stress-gen"@),
{
    proof {
        reveal_strlit("compile-stress-gen");
        reveal_strlit(".");
        reveal_strlit("..");
    }
    join_path(base, "compile-stress-gen")
}

/// The name of generated module `i`: `mod_` and `i` in at least five digits.
pub open spec fn module_name_text(i: nat) -> Seq<char> {
    "mod_"@ + zero_padded(decimal(i), 5)
}

/// The name of generated module `i` (`mod_00042`).
pub fn module_name(i: usize) -> (r: String)
    ensures
        r@ == module_name_text(i as nat),
{
    let d = zero_padded_decimal(i as u64, 5);
    join2("mod_", d.as_str())
}

/// The file of generated module `i` (`mod_00042.rs`).
pub fn module_file_name(i: usize) -> (r: String)
    ensures
        r@ == module_name_text(i as nat) + ".rs"@,
{
    module_name(i).concat(".rs")
}

/// The module tree file declaring the first `n` generated modules.
pub open spec fn declarations(n: nat) -> Seq<char>
    decreases n,
{
    if n == 0 {
        "//! Auto-generated module tree.\n\n"@
    } else {
        declarations((n - 1) as nat) + "pub mod "@ + module_name_text((n - 1) as nat) + ";\n"@
    }
}

/// The module tree file (`mod.rs`) declaring `count` generated modules.
pub fn module_declarations(count: usize) -> (r: String)
    ensures
        r@ == declarations(count as nat),
{
    let mut text = owned("//! Auto-generated module tree.\n\n");
    let mut i: usize = 0;
    while i < count
        invariant
            i <= count,
            text@ == declarations(i as nat),
        decreases count - i,
    {
        let name = module_name(i);
        text.append("pub mod ");
        text.append(name.as_str());
        text.append(";\n");
        i = i + 1;
        assert(text@ =~= declarations(i as nat));
    }
    text
}

/// How `cargo` is invoked for one compiler-stress build.
#[derive(Debug)]
pub struct CargoInvocation {
    /// Arguments after `cargo`.
    pub args: Vec<String>,
    /// Whether full debug info is requested through `RUSTFLAGS`.
    pub debuginfo: bool,
}

/// The `cargo` arguments for a compile mode.
pub open spec fn cargo_args(mode: CompileMode) -> Seq<Seq<char>> {
    match mode {
        CompileMode::BuildRelease => seq!["build"@, "--release"@],
        CompileMode::Check => seq!["check"@],
        CompileMode::Incremental => seq!["build"@],
    }
}

/// The `cargo` invocation of one build: `build --release`, `check` or `build`, with
/// full debug info from intensity 8 on.
pub fn cargo_invocation(mode: CompileMode, intensity: Intensity) -> (r: CargoInvocation)
    ensures
        texts(r.args@) == cargo_args(mode),
        r.debuginfo == (intensity.0 >= 8),
{
    let mut args: Vec<String> = Vec::new();
    match mode {
        CompileMode::BuildRelease => {
            args.push(owned("build"));
            args.push(owned("--release"));
        },
        CompileMode::Check => {
            args.push(owned("check"));
        },
        CompileMode::Incremental => {
            args.push(owned("build"));
        },
    }
    assert(texts(args@) =~= cargo_args(mode));
    CargoInvocation { args, debuginfo: intensity.0 >= 8 }
}

/// After build number `round` (counting from 1): in incremental mode, every second
/// build touches `max(scale(10), 1)` modules; otherwise none.
pub open spec fn touched_after(mode: CompileMode, round: u64, level: nat) -> Option<usize> {
    if mode == CompileMode::Incremental && round % 2 == 0 {
        Some(at_least(scaled(10, level), 1) as usize)
    } else {
        None
    }
}

/// How many modules to touch after build number `round` (see `touched_after`).
pub fn touch_after_round(mode: CompileMode, round: u64, intensity: Intensity) -> (r: Option<usize>)
    ensures
        r == touched_after(mode, round, intensity.0 as nat),
{
    if mode == CompileMode::Incremental && round % 2 == 0 {
        let n = intensity.scale_usize(10);
        Some(if n < 1 { 1 } else { n })
    } else {
        None
    }
}


/// The manifest of a generated workspace.
pub open spec fn manifest_text() -> Seq<char> {
    "[package]\nname = \"stressgen-out\"\nversion = \"0.1.0\"\nedition = \"2021\"\npublish = false\n\n[dependencies]\n"@
}

/// The manifest (`Cargo.toml`) of a generated workspace.
pub fn workspace_manifest() -> (r: String)
    ensures
        r@ == manifest_text(),
{
    owned("[package]\nname = \"stressgen-out\"\nversion = \"0.1.0\"\nedition = \"2021\"\npublish = false\n\n[dependencies]\n")
}

/// The crate root of a generated workspace: the module tree, and the ECS module when asked for.
pub open spec fn root_lib_text(ecs: bool) -> Seq<char> {
    let base = "//! Generated compile-stress workspace.\n\npub mod modules;\n"@;
    if ecs {
        base + "pub mod ecs_stress;\n"@
    } else {
        base
    }
}

/// The crate root (`src/lib.rs`) of a generated workspace.
pub fn root_lib(opts: &GenerateOptions) -> (r: String)
    ensures
        r@ == root_lib_text(opts.ecs_stress),
{
    let base = owned("//! Generated compile-stress workspace.\n\npub mod modules;\n");
    if opts.ecs_stress {
        base.concat("pub mod ecs_stress;\n")
    } else {
        base
    }
}

/// How many layers each generated module chains: `max(scale(8), 1)`.
pub open spec fn layer_count(level: nat) -> nat {
    at_least(scaled(8, level), 1)
}

/// The start of generated module `i`: a generic wrapper and its first layer.
pub open spec fn module_head(i: nat) -> Seq<char> {
    "//! Generated module "@ + decimal(i)
        + ".\n\npub struct Node<T>(pub T);\n\nimpl<T: Clone> Node<T> {\n    pub fn get(&self) -> T {\n        self.0.clone()\n    }\n}\n\npub fn layer_0(x: u64) -> u64 {\n    x.wrapping_mul(31).wrapping_add("@
        + decimal(i) + ")\n}\n"@
}

/// Layer `k` (from 1 on) of generated module `i`, built on layer `k - 1`.
pub open spec fn module_layer(i: nat, k: nat) -> Seq<char> {
    "\npub fn layer_"@ + decimal(k) + "(x: u64) -> u64 {\n    Node(layer_"@ + decimal((k - 1) as nat)
        + "(x)).get().rotate_left("@ + decimal(k) + ") ^ "@ + decimal(i) + "\n}\n"@
}

/// Generated module `i` up to and including layer `k`.
pub open spec fn module_layers(i: nat, k: nat) -> Seq<char>
    decreases k,
{
    if k == 0 {
        module_head(i)
    } else {
        module_layers(i, (k - 1) as nat) + module_layer(i, k)
    }
}

/// Generated module `i` at `level`: its layers and an entry point on the last one.
pub open spec fn module_text(i: nat, level: nat) -> Seq<char> {
    let last = (layer_count(level) - 1) as nat;
    module_layers(i, last) + "\npub fn entry(x: u64) -> u64 {\n    layer_"@ + decimal(last) + "(x)\n}\n"@
}

/// The source of generated module `i` (`src/modules/mod_<i>.rs`); the intensity sets
/// how many layers it chains.
pub fn generated_module(i: usize, opts: &GenerateOptions) -> (r: String)
    ensures
        r@ == module_text(i as nat, opts.intensity.0 as nat),
{
    let n = opts.intensity.scale_usize(8);
    let layers: usize = if n < 1 { 1 } else { n };
    let idx = decimal_string(i as u64);
    let mut text = join2("//! Generated module ", idx.as_str());
    text.append(
        ".\n\npub struct Node<T>(pub T);\n\nimpl<T: Clone> Node<T> {\n    pub fn get(&self) -> T {\n        self.0.clone()\n    }\n}\n\npub fn layer_0(x: u64) -> u64 {\n    x.wrapping_mul(31).wrapping_add(",
    );
    text.append(idx.as_str());
    text.append(")\n}\n");
    assert(text@ =~= module_layers(i as nat, 0));
    let mut k: usize = 1;
    while k < layers
        invariant
            1 <= k <= layers,
            idx@ == decimal(i as nat),
            text@ == module_layers(i as nat, (k - 1) as nat),
        decreases layers - k,
    {
        let ks = decimal_string(k as u64);
        let prev = decimal_string((k - 1) as u64);
        text.append("\npub fn layer_");
        text.append(ks.as_str());
        text.append("(x: u64) -> u64 {\n    Node(layer_");
        text.append(prev.as_str());
        text.append("(x)).get().rotate_left(");
        text.append(ks.as_str());
        text.append(") ^ ");
        text.append(idx.as_str());
        text.append("\n}\n");
        assert(text@ =~= module_layers(i as nat, k as nat));
        k = k + 1;
    }
    let last = decimal_string((layers - 1) as u64);
    text.append("\npub fn entry(x: u64) -> u64 {\n    layer_");
    text.append(last.as_str());
    text.append("(x)\n}\n");
    assert(text@ =~= module_text(i as nat, opts.intensity.0 as nat));
    text
}

/// The ECS-style stress module of a generated workspace.
pub open spec fn ecs_text() -> Seq<char> {
    "//! ECS-style stress: component storages and systems over them.\n\npub struct Position(pub i64, pub i64);\npub struct Velocity(pub i64, pub i64);\n\n#[derive(Default)]\npub struct World {\n    pub positions: Vec<Position>,\n    pub velocities: Vec<Velocity>,\n}\n\nimpl World {\n    pub fn spawn(&mut self, p: Position, v: Velocity) {\n        self.positions.push(p);\n        self.velocities.push(v);\n    }\n\n    pub fn step(&mut self, dt: i64) {\n        for (p, v) in self.positions.iter_mut().zip(self.velocities.iter()) {\n            p.0 = p.0.wrapping_add(v.0.wrapping_mul(dt));\n            p.1 = p.1.wrapping_add(v.1.wrapping_mul(dt));\n        }\n    }\n}\n"@
}

/// The ECS-style stress module (`src/ecs_stress.rs`) of a generated workspace.
pub fn ecs_stress_module() -> (r: String)
    ensures
        r@ == ecs_text(),
{
    owned(
        "//! ECS-style stress: component storages and systems over them.\n\npub struct Position(pub i64, pub i64);\npub struct Velocity(pub i64, pub i64);\n\n#[derive(Default)]\npub struct World {\n    pub positions: Vec<Position>,\n    pub velocities: Vec<Velocity>,\n}\n\nimpl World {\n    pub fn spawn(&mut self, p: Position, v: Velocity) {\n        self.positions.push(p);\n        self.velocities.push(v);\n    }\n\n    pub fn step(&mut self, dt: i64) {\n        for (p, v) in self.positions.iter_mut().zip(self.velocities.iter()) {\n            p.0 = p.0.wrapping_add(v.0.wrapping_mul(dt));\n            p.1 = p.1.wrapping_add(v.1.wrapping_mul(dt));\n        }\n    }\n}\n",
    )
}

/// Law: only incremental builds touch modules, after every second build, and then at
/// least one module, as many as the intensity scales 10 to.
pub proof fn law_only_incremental_touches(mode: CompileMode, round: u64, level: nat)
    ensures
        mode != CompileMode::Incremental ==> touched_after(mode, round, level) is None,
        round % 2 == 1 ==> touched_after(mode, round, level) is None,
        mode == CompileMode::Incremental && round % 2 == 0 ==> touched_after(mode, round, level) == Some(
            at_least(scaled(10, level), 1) as usize,
        ),
        touched_after(mode, round, level) matches Some(n) ==> n >= 1,
{
}

} // verus!
