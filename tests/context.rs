use sprofiler::hooks::{lifecycle_hook_conf, Stages, PROFILE_ANNOTATION_PATTERN};
use sprofiler::oci::{LinuxNamespaceType, LinuxSeccomp, LinuxSeccompAction, LinuxSyscall, Spec, State, Status, StringMap};
use sprofiler::ociutil::{container_cgroup_path, get_runtime_class, RuntimeClass, SPROFILER_RUNTIME_CLASS};
use sprofiler::podman::PodmanRunner;
use sprofiler::process::{parse_pid, pid_file_path};
use sprofiler::testing::assert_seccomp_profile;

fn runner(debug: bool, no_new_priv: bool, output: Option<&str>) -> PodmanRunner {
    PodmanRunner {
        podman_path: "/usr/bin/podman".to_string(),
        hooks_dir: "/tmp/hooks.d".to_string(),
        runtime: "crun".to_string(),
        image: "alpine".to_string(),
        sprofiler_output: output.map(String::from),
        debug,
        no_new_priv,
    }
}

#[test]
fn default_spec_values() {
    let spec = Spec::new(false);
    assert_eq!(spec.oci_version, "1.0.1-dev");
    assert_eq!(spec.root.path, "rootfs");
    let process = spec.process.unwrap();
    assert_eq!(process.args, vec!["echo".to_string(), "hello".to_string()]);
    assert_eq!(spec.mounts.len(), 5);
    assert_eq!(spec.mounts[2].destination, "/dev/pts");
    let namespaces = spec.linux.unwrap().namespaces.unwrap();
    assert_eq!(namespaces.len(), 5);
    assert!(namespaces.iter().all(|n| n.type_ != LinuxNamespaceType::User));
}

#[test]
fn rootless_spec_has_user_namespace() {
    let namespaces = Spec::new(true).linux.unwrap().namespaces.unwrap();
    assert_eq!(namespaces.len(), 6);
    assert_eq!(namespaces[5].type_, LinuxNamespaceType::User);
}

#[test]
fn cgroup_path_embeds_container_id() {
    assert_eq!(container_cgroup_path("f00d"), "/sys/fs/cgroup/machine.slice/libpod-f00d.scope/container");
}

#[test]
fn runtime_class_from_annotation() {
    let mut annotations = StringMap::new();
    annotations.insert(SPROFILER_RUNTIME_CLASS.to_string(), "youki".to_string());
    let mut state = State {
        oci_version: "1.0.2".to_string(),
        id: "abc".to_string(),
        status: Status::Running,
        pid: None,
        bundle: "/b".to_string(),
        annotations: Some(annotations),
        created: None,
    };
    assert_eq!(get_runtime_class(&state), Some(RuntimeClass::Youki));
    state.annotations = Some(StringMap::new());
    assert_eq!(get_runtime_class(&state), Some(RuntimeClass::Crun));
    let mut bad = StringMap::new();
    bad.insert(SPROFILER_RUNTIME_CLASS.to_string(), "kata".to_string());
    state.annotations = Some(bad);
    assert_eq!(get_runtime_class(&state), None);
    assert_eq!("runc".parse::<RuntimeClass>(), Ok(RuntimeClass::Runc));
}

#[test]
fn pid_file_lives_in_bundle() {
    assert_eq!(pid_file_path("/run/bundle"), "/run/bundle/sprofiler.pid");
    assert_eq!(pid_file_path("/run/bundle/"), "/run/bundle/sprofiler.pid");
    assert_eq!(pid_file_path(""), "sprofiler.pid");
}

#[test]
fn pid_text_parses_as_decimal_i32() {
    assert_eq!(parse_pid("4242"), Some(4242));
    assert_eq!(parse_pid("+7"), Some(7));
    assert_eq!(parse_pid("-12"), Some(-12));
    assert_eq!(parse_pid("2147483647"), Some(2147483647));
    assert_eq!(parse_pid("-2147483648"), Some(-2147483648));
    assert_eq!(parse_pid("2147483648"), None);
    assert_eq!(parse_pid("99999999999999999999"), None);
    assert_eq!(parse_pid(""), None);
    assert_eq!(parse_pid("-"), None);
    assert_eq!(parse_pid("12\n"), None);
    assert_eq!(parse_pid("1a"), None);
}

#[test]
fn podman_args_minimal() {
    assert_eq!(
        runner(false, false, None).args(),
        vec!["/usr/bin/podman", "--runtime=crun", "run", "--rm", "--hooks-dir=/tmp/hooks.d", "", "alpine"]
    );
}

#[test]
fn podman_args_full() {
    assert_eq!(
        runner(true, true, Some("/tmp/out.json")).args(),
        vec![
            "/usr/bin/podman",
            "--log-level=debug",
            "--runtime=crun",
            "run",
            "--rm",
            "--security-opt=no-new-privileges",
            "--hooks-dir=/tmp/hooks.d",
            "--annotation=\"io.sprofiler.output_seccomp_profile_path=/tmp/out.json\"",
            "alpine",
        ]
    );
}

#[test]
fn hook_conf_for_start_and_stop() {
    let start = lifecycle_hook_conf("/usr/bin/sprofiler".to_string(), true);
    assert_eq!(start.version, "1.0.0");
    assert_eq!(start.hook.path, "/usr/bin/sprofiler");
    assert_eq!(start.hook.args, vec!["sprofiler", "dynamic", "start"]);
    assert_eq!(start.when.annotations.get(PROFILE_ANNOTATION_PATTERN), Some(&".*".to_string()));
    assert_eq!(start.stages, vec![Stages::Prestart]);
    let stop = lifecycle_hook_conf("/usr/bin/sprofiler".to_string(), false);
    assert_eq!(stop.hook.args, vec!["sprofiler", "dynamic", "stop"]);
    assert_eq!(stop.stages, vec![Stages::Poststop]);
}

#[test]
fn produced_profile_check() {
    let good = LinuxSeccomp {
        default_action: LinuxSeccompAction::SCMP_ACT_ERRNO,
        architectures: None,
        syscalls: Some(vec![LinuxSyscall {
            names: vec!["read".to_string()],
            action: LinuxSeccompAction::SCMP_ACT_ALLOW,
            args: None,
        }]),
    };
    assert!(assert_seccomp_profile(&good));
    assert!(!assert_seccomp_profile(&LinuxSeccomp::default()));
    let mut empty_rule = good.clone();
    empty_rule.syscalls = Some(vec![LinuxSyscall {
        names: vec![],
        action: LinuxSeccompAction::SCMP_ACT_ALLOW,
        args: None,
    }]);
    assert!(!assert_seccomp_profile(&empty_rule));
}
