# libstress

A safe-but-heavy system stress toolkit (CPU, RAM, disk I/O, the Rust compiler,
loopback networking and the thread scheduler) whose planning, safety limits and
compute kernels are verified with Verus.

## Layout

- `src/` — the verified library. Its functions carry `requires`/`ensures`
  contracts that Verus proves (the stop signal's methods state nothing, since its
  shared atomic flag has no view); the `law_*` proof functions state properties
  that span several functions (profile merging, memory caps, run order, ...).
  - `config`, `profile`, `cli`, `plan`, `execution`: intensity scaling, profiles
    and their merging, command-line options and the resolved run plan, the order
    in which workloads run.
  - `safety`, `system`, `doctor`: the 70% RAM cap, OS headroom, preflight checks.
  - `cpu`, `mem`, `io`, `net`, `sched`, `compile`, `codegen`, `gpu`: the
    per-workload kernels and parameters.
  - `digest`, `text`: the calls into `sha2`, `blake3` and `std` string/path
    functions, each behind a small trusted wrapper with its contract.
- `app/` — the `libstress` command-line program: argument parsing (clap),
  configuration files (serde/toml), host probing (sysinfo), threads, files,
  sockets and `cargo` processes, and reports with floating-point figures.
- `tests/` — tests of the library on concrete values.
