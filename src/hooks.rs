//! The container runtime hook descriptors that start and stop the tracer.

use vstd::prelude::*;

use crate::names::{seq_view, to_strings};
use crate::oci::{lookup, StringMap};

verus! {

/// A hook descriptor: what to run, when, and at which stages.
#[derive(Clone, Debug)]
pub struct HookConf {
    pub version: String,
    pub hook: Hook,
    pub when: When,
    pub stages: Vec<Stages>,
}

/// The command a hook runs.
#[derive(Clone, Debug)]
pub struct Hook {
    pub path: String,
    pub args: Vec<String>,
}

/// The annotations (key pattern to value pattern) a container must carry for
/// the hook to run.
#[derive(Clone, Debug)]
pub struct When {
    pub annotations: StringMap,
}

#[derive(Clone, Copy, Debug, PartialEq, Eq, Structural)]
pub enum Stages {
    Prestart,
    Poststop,
    CreateRuntime,
    StartRuntime,
    PostStop,
}

/// The version of the hook descriptor format.
pub const HOOK_VERSION: &'static str = "1.0.0";

/// The key pattern that selects containers asking for a profile.
pub const PROFILE_ANNOTATION_PATTERN: &'static str = "^io\\.sprofiler\\.output_seccomp_profile_path$";

/// The hook that starts the tracer before a container starts (`start`), or
/// stops it after the container stopped.
pub fn lifecycle_hook_conf(sprofiler_path: String, start: bool) -> (r: HookConf)
    ensures
        r.version@ == HOOK_VERSION@,
        r.hook.path@ == sprofiler_path@,
        seq_view(r.hook.args@) == seq!["sprofiler"@, "dynamic"@, if start { "start"@ } else { "stop"@ }],
        r.when.annotations@ == seq![(PROFILE_ANNOTATION_PATTERN@, ".*"@)],
        r.stages@ == seq![if start { Stages::Prestart } else { Stages::Poststop }],
{
    let args = if start {
        to_strings(&["sprofiler", "dynamic", "start"])
    } else {
        to_strings(&["sprofiler", "dynamic", "stop"])
    };
    assert(seq_view(args@) =~= seq!["sprofiler"@, "dynamic"@, if start { "start"@ } else { "stop"@ }]);
    let mut annotations = StringMap::new();
    annotations.insert(String::from_str(PROFILE_ANNOTATION_PATTERN), String::from_str(".*"));
    assert(annotations@ =~= seq![(PROFILE_ANNOTATION_PATTERN@, ".*"@)]);
    let mut stages: Vec<Stages> = Vec::new();
    stages.push(if start { Stages::Prestart } else { Stages::Poststop });
    assert(stages@ =~= seq![if start { Stages::Prestart } else { Stages::Poststop }]);
    HookConf {
        version: String::from_str(HOOK_VERSION),
        hook: Hook { path: sprofiler_path, args },
        when: When { annotations },
        stages,
    }
}

} // verus!
