//! Planning, safety limits and verified kernels for the libstress stress-testing toolkit.

pub mod cli;
pub mod codegen;
pub mod compile;
pub mod config;
pub mod cpu;
pub mod digest;
pub mod doctor;
pub mod execution;
pub mod gpu;
pub mod io;
pub mod mem;
pub mod metrics;
pub mod net;
pub mod plan;
pub mod profile;
pub mod safety;
pub mod sched;
pub mod system;
pub mod text;
pub mod workload;
