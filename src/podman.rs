//! The command line of a podman run that asks for a profile, used by the
//! end-to-end harness.

use vstd::prelude::*;

use crate::names::seq_view;
use crate::ociutil::SPROFILER_PROFILE_PATH;

verus! {

/// A container run under podman with the profiler's hooks.
#[derive(Clone, Debug)]
pub struct PodmanRunner {
    pub podman_path: String,
    pub hooks_dir: String,
    pub runtime: String,
    pub image: String,
    pub sprofiler_output: Option<String>,
    pub debug: bool,
    pub no_new_priv: bool,
}

pub open spec fn runtime_arg_of(runtime: Seq<char>) -> Seq<char> {
    "--runtime="@ + runtime
}

pub open spec fn log_level_arg_of(level: Seq<char>) -> Seq<char> {
    "--log-level="@ + level
}

pub open spec fn hooks_dir_arg_of(dir: Seq<char>) -> Seq<char> {
    "--hooks-dir="@ + dir
}

pub open spec fn annotation_arg_of(output: Option<Seq<char>>) -> Seq<char> {
    match output {
        Some(p) => "--annotation=\""@ + SPROFILER_PROFILE_PATH@ + "="@ + p + "\""@,
        None => Seq::empty(),
    }
}

/// The arguments of the run, the podman executable first.
pub open spec fn podman_args(r: PodmanRunner) -> Seq<Seq<char>> {
    seq![r.podman_path@]
        + (if r.debug { seq![log_level_arg_of("debug"@)] } else { Seq::empty() })
        + seq![runtime_arg_of(r.runtime@), "run"@, "--rm"@]
        + (if r.no_new_priv { seq!["--security-opt=no-new-privileges"@] } else { Seq::empty() })
        + seq![
            hooks_dir_arg_of(r.hooks_dir@),
            annotation_arg_of(
                match r.sprofiler_output {
                    Some(p) => Some(p@),
                    None => None,
                },
            ),
            r.image@,
        ]
}

impl PodmanRunner {
    /// The command line: podman, its options, and the image.
    pub fn args(&self) -> (r: Vec<String>)
        ensures
            seq_view(r@) == podman_args(*self),
    {
        let mut args: Vec<String> = Vec::new();
        args.push(self.podman_path.clone());
        if self.debug {
            args.push(self.log_level_arg("debug"));
        }
        args.push(self.runtime_arg());
        args.push(String::from_str("run"));
        args.push(String::from_str("--rm"));
        if self.no_new_priv {
            args.push(self.no_new_priv_arg());
        }
        args.push(self.hooks_dir_arg());
        args.push(self.sprofiler_annotation());
        args.push(self.image.clone());
        assert(seq_view(args@) =~= podman_args(*self));
        args
    }

    fn runtime_arg(&self) -> (r: String)
        ensures
            r@ == runtime_arg_of(self.runtime@),
    {
        String::from_str("--runtime=").concat(self.runtime.as_str())
    }

    fn log_level_arg(&self, level: &str) -> (r: String)
        ensures
            r@ == log_level_arg_of(level@),
    {
        String::from_str("--log-level=").concat(level)
    }

    fn hooks_dir_arg(&self) -> (r: String)
        ensures
            r@ == hooks_dir_arg_of(self.hooks_dir@),
    {
        String::from_str("--hooks-dir=").concat(self.hooks_dir.as_str())
    }

    fn no_new_priv_arg(&self) -> (r: String)
        ensures
            r@ == "--security-opt=no-new-privileges"@,
    {
        String::from_str("--security-opt=no-new-privileges")
    }

    fn sprofiler_annotation(&self) -> (r: String)
        ensures
            r@ == annotation_arg_of(
                match self.sprofiler_output {
                    Some(p) => Some(p@),
                    None => None,
                },
            ),
    {
        match &self.sprofiler_output {
            Some(out) => {
                let arg = String::from_str("--annotation=\"").concat(SPROFILER_PROFILE_PATH).concat("=").concat(
                    out.as_str(),
                ).concat("\"");
                arg
            },
            None => {
                let r = String::new();
                r
            },
        }
    }
}

} // verus!
