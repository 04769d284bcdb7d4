//! The container context: where a container's profile goes, which runtime
//! runs it, and the control group the tracer filters on.

use vstd::prelude::*;

use crate::names::str_eq;
use crate::oci::{lookup, State};

verus! {

/// The annotation that names the profile's output path.
pub const SPROFILER_PROFILE_PATH: &'static str = "io.sprofiler.output_seccomp_profile_path";

/// The annotation that names the container runtime.
pub const SPROFILER_RUNTIME_CLASS: &'static str = "io.sprofiler.runtime_class";

/// The control-group hierarchy of libpod containers under the systemd cgroup
/// driver (cgroup v2); the container id goes between these two parts.
pub const CGROUP_PATH_PREFIX: &'static str = "/sys/fs/cgroup/machine.slice/libpod-";

pub const CGROUP_PATH_SUFFIX: &'static str = ".scope/container";

/// The value of an annotation of the state, if the state has it.
pub open spec fn annotation_of(state: State, key: Seq<char>) -> Option<Seq<char>> {
    match state.annotations {
        Some(a) => lookup(a@, key),
        None => None,
    }
}

/// The path that the container's profile is to be written to; `None` when
/// no profile was requested.
pub fn get_trace_target_path(state: &State) -> (r: Option<String>)
    ensures
        match r {
            Some(p) => annotation_of(*state, SPROFILER_PROFILE_PATH@) == Some(p@),
            None => annotation_of(*state, SPROFILER_PROFILE_PATH@) is None,
        },
{
    match &state.annotations {
        Some(annotations) => match annotations.get(SPROFILER_PROFILE_PATH) {
            Some(p) => Some(p.clone()),
            None => None,
        },
        None => None,
    }
}

/// A container runtime.
#[derive(Clone, Copy, Debug, PartialEq, Eq, Structural)]
pub enum RuntimeClass {
    Runc,
    Crun,
    Youki,
}

/// The runtime that a name stands for.
pub open spec fn runtime_class_of(kind: Seq<char>) -> Option<RuntimeClass> {
    if kind == "crun"@ {
        Some(RuntimeClass::Crun)
    } else if kind == "runc"@ {
        Some(RuntimeClass::Runc)
    } else if kind == "youki"@ {
        Some(RuntimeClass::Youki)
    } else {
        None
    }
}

impl RuntimeClass {
    /// The runtime named `kind`: `crun`, `runc` or `youki`.
    pub fn parse(kind: &str) -> (r: Option<RuntimeClass>)
        ensures
            r == runtime_class_of(kind@),
    {
        if str_eq(kind, "crun") {
            Some(RuntimeClass::Crun)
        } else if str_eq(kind, "runc") {
            Some(RuntimeClass::Runc)
        } else if str_eq(kind, "youki") {
            Some(RuntimeClass::Youki)
        } else {
            None
        }
    }
}

impl std::str::FromStr for RuntimeClass {
    type Err = ();

    fn from_str(kind: &str) -> Result<RuntimeClass, ()> {
        match RuntimeClass::parse(kind) {
            Some(c) => Ok(c),
            None => Err(()),
        }
    }
}

/// The container's runtime: the one its annotation names, crun without the
/// annotation, `None` for a name that is no known runtime.
pub fn get_runtime_class(state: &State) -> (r: Option<RuntimeClass>)
    requires
        state.annotations is Some,
    ensures
        r == match annotation_of(*state, SPROFILER_RUNTIME_CLASS@) {
            Some(kind) => runtime_class_of(kind),
            None => Some(RuntimeClass::Crun),
        },
{
    match &state.annotations {
        Some(annotations) => match annotations.get(SPROFILER_RUNTIME_CLASS) {
            Some(kind) => RuntimeClass::parse(kind.as_str()),
            None => Some(RuntimeClass::Crun),
        },
        None => Some(RuntimeClass::Crun),
    }
}

/// The control-group directory of a container, whose inode number the probe
/// filters on. Only valid for podman with the systemd driver on cgroup v2.
pub fn container_cgroup_path(container_id: &str) -> (r: String)
    ensures
        r@ == CGROUP_PATH_PREFIX@ + container_id@ + CGROUP_PATH_SUFFIX@,
{
    let mut path = String::from_str(CGROUP_PATH_PREFIX);
    path.append(container_id);
    path.append(CGROUP_PATH_SUFFIX);
    path
}

} // verus!
