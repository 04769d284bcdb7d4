//! The end-to-end harness's test descriptions and its check of a produced
//! profile.

use vstd::prelude::*;

use crate::oci::{LinuxSeccomp, LinuxSeccompAction};

verus! {

/// A suite of end-to-end tests.
#[derive(Clone, Debug)]
pub struct Testing {
    pub name: String,
    pub config: Config,
    pub tests: Vec<Test>,
}

/// Where the profiler and podman are installed.
#[derive(Clone, Debug)]
pub struct Config {
    pub sprofiler: String,
    pub podman: String,
}

/// One container run.
#[derive(Clone, Debug)]
pub struct Test {
    pub name: String,
    pub no_new_priv: bool,
    pub runtime: String,
    pub should_success: bool,
    pub image: String,
}

/// What a produced profile must look like: default action errno, and at
/// least one rule, each an allow rule with at least one name.
pub open spec fn is_plausible_profile(p: LinuxSeccomp) -> bool {
    &&& p.default_action == LinuxSeccompAction::SCMP_ACT_ERRNO
    &&& p.syscalls matches Some(rules) && rules@.len() > 0 && forall|i: int|
        0 <= i < rules@.len() ==> (#[trigger] rules@[i]).names@.len() > 0 && rules@[i].action
            == LinuxSeccompAction::SCMP_ACT_ALLOW
}

/// Whether a produced profile looks like the tracer's output.
pub fn assert_seccomp_profile(seccomp: &LinuxSeccomp) -> (r: bool)
    ensures
        r == is_plausible_profile(*seccomp),
{
    if !(seccomp.default_action == LinuxSeccompAction::SCMP_ACT_ERRNO) {
        return false;
    }
    match &seccomp.syscalls {
        None => false,
        Some(rules) => {
            if rules.len() == 0 {
                return false;
            }
            let mut i: usize = 0;
            while i < rules.len()
                invariant
                    seccomp.syscalls == Some(*rules),
                    i <= rules@.len(),
                    forall|k: int| 0 <= k < i ==> (#[trigger] rules@[k]).names@.len() > 0 && rules@[k].action
                        == LinuxSeccompAction::SCMP_ACT_ALLOW,
                decreases rules@.len() - i,
            {
                if rules[i].names.len() == 0 || !(rules[i].action == LinuxSeccompAction::SCMP_ACT_ALLOW) {
                    assert(!((rules@[i as int]).names@.len() > 0 && rules@[i as int].action
                        == LinuxSeccompAction::SCMP_ACT_ALLOW));
                    return false;
                }
                i = i + 1;
            }
            true
        },
    }
}

} // verus!
