//! Synthesis of minimal seccomp allow-list profiles for containers.
//!
//! - `oci`: the container state, runtime spec and seccomp profile model.
//! - `profile_util`: merge and diff of profiles.
//! - `arch`: the x86_64 syscall table.
//! - `lang`: the static analyzers for C and Go binaries.
//! - `tracer`: the dynamic tracer's event decoding, name accumulation and
//!   session state machine.
//! - `ociutil`, `process`: the container context and the PID-file protocol.
//! - `podman`, `hooks`, `testing`: what the end-to-end harness builds.

pub mod arch;
pub mod hooks;
pub mod lang;
pub mod names;
pub mod oci;
pub mod ociutil;
pub mod podman;
pub mod process;
pub mod profile_util;
pub mod testing;
pub mod tracer;
