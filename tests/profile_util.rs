use sprofiler::oci::{Arch, LinuxSeccomp, LinuxSeccompAction, LinuxSyscall};
use sprofiler::profile_util::{diff, extract_syscall_names, merge, DiffStatus};

fn gen_seccomp_profile(allow_syscalls: Vec<&str>) -> LinuxSeccomp {
    let mut names: Vec<String> = allow_syscalls.into_iter().map(String::from).collect();
    names.sort();

    LinuxSeccomp {
        default_action: LinuxSeccompAction::SCMP_ACT_ERRNO,
        architectures: Some(vec![Arch::SCMP_ARCH_X86, Arch::SCMP_ARCH_X86_64]),
        syscalls: Some(vec![LinuxSyscall {
            names,
            action: LinuxSeccompAction::SCMP_ACT_ALLOW,
            args: None,
        }]),
    }
}

fn gen_duplicate_syscalls_profile(allow_syscalls: Vec<&str>) -> LinuxSeccomp {
    let mut names: Vec<String> = allow_syscalls.into_iter().map(String::from).collect();
    names.sort();

    let syscalls = LinuxSyscall {
        names,
        action: LinuxSeccompAction::SCMP_ACT_ALLOW,
        args: None,
    };

    LinuxSeccomp {
        default_action: LinuxSeccompAction::SCMP_ACT_ERRNO,
        architectures: Some(vec![Arch::SCMP_ARCH_X86, Arch::SCMP_ARCH_X86_64]),
        syscalls: Some(vec![syscalls.clone(), syscalls.clone()]),
    }
}

fn strings(v: &[&str]) -> Vec<String> {
    v.iter().map(|s| s.to_string()).collect()
}

#[test]
fn extract_syscall_names_give_single_syscall_name() {
    let profile = gen_seccomp_profile(vec!["mkdir"]);
    let syscall_names = extract_syscall_names(profile);

    assert_eq!(syscall_names, vec!["mkdir".to_string()])
}

#[test]
fn extract_syscall_names_give_2_syscall_name() {
    let profile = gen_seccomp_profile(vec!["mkdir", "chdir"]);
    let syscall_names = extract_syscall_names(profile);

    assert_eq!(
        syscall_names,
        vec!["chdir".to_string(), "mkdir".to_string()]
    )
}

#[test]
fn extract_syscall_names_of_profile_without_rules() {
    let profile = LinuxSeccomp::default();
    assert!(extract_syscall_names(profile).is_empty());
}

#[test]
fn extract_syscall_names_ignores_rule_action() {
    let profile = LinuxSeccomp {
        default_action: LinuxSeccompAction::SCMP_ACT_ALLOW,
        architectures: None,
        syscalls: Some(vec![
            LinuxSyscall { names: strings(&["ptrace", "bpf"]), action: LinuxSeccompAction::SCMP_ACT_KILL, args: None },
            LinuxSyscall { names: strings(&["bpf", "acct"]), action: LinuxSeccompAction::SCMP_ACT_ALLOW, args: None },
        ]),
    };
    assert_eq!(extract_syscall_names(profile), strings(&["acct", "bpf", "ptrace"]));
}

#[test]
fn merge_profile_from_empty_data() {
    let profile = merge(Vec::new());

    assert_eq!(profile.default_action, LinuxSeccompAction::SCMP_ACT_ALLOW);
    assert_eq!(profile.syscalls, None);
    assert_eq!(profile.architectures, None);
}

#[test]
fn merge_profile_from_2_profiles() {
    let profile1 = gen_seccomp_profile(vec!["mkdir"]);
    let profile2 = gen_seccomp_profile(vec!["chdir"]);

    let act = merge(vec![profile1, profile2]);

    let expect = gen_seccomp_profile(vec!["chdir", "mkdir"]);

    assert_eq!(act.default_action, LinuxSeccompAction::SCMP_ACT_ERRNO);
    assert_eq!(act.architectures, expect.architectures);
    assert_eq!(act.syscalls, expect.syscalls);
}

#[test]
fn merge_profile_from_duplicated_syscalls() {
    let profile1 = gen_duplicate_syscalls_profile(vec!["ptrace"]);
    let profile2 = gen_duplicate_syscalls_profile(vec!["chroot"]);

    let act = merge(vec![profile1, profile2]);

    let expect = gen_seccomp_profile(vec!["chroot", "ptrace"]);

    assert_eq!(act.default_action, LinuxSeccompAction::SCMP_ACT_ERRNO);
    assert_eq!(act.architectures, expect.architectures);
    assert_eq!(act.syscalls, expect.syscalls);
}

#[test]
fn merge_profile_from_3_profiles() {
    let profile1 = gen_seccomp_profile(vec!["mkdir", "chdir"]);
    let profile2 = gen_seccomp_profile(vec!["accept", "bind"]);
    let profile3 = gen_seccomp_profile(vec!["getuid", "getgid"]);

    let act = merge(vec![profile1, profile2, profile3]);

    let expect =
        gen_seccomp_profile(vec!["accept", "bind", "chdir", "getgid", "getuid", "mkdir"]);

    assert_eq!(act.default_action, LinuxSeccompAction::SCMP_ACT_ERRNO);
    assert_eq!(act.architectures, expect.architectures);
    assert_eq!(act.syscalls, expect.syscalls);
}

#[test]
fn merge_profile_duplicated_syscall() {
    let profile1 = gen_seccomp_profile(vec!["mkdir", "chdir"]);
    let profile2 = gen_seccomp_profile(vec!["chdir", "getpid"]);

    let act = merge(vec![profile1, profile2]);

    let expect = gen_seccomp_profile(vec!["chdir", "getpid", "mkdir"]);

    assert_eq!(act.default_action, LinuxSeccompAction::SCMP_ACT_ERRNO);
    assert_eq!(act.architectures, expect.architectures);
    assert_eq!(act.syscalls, expect.syscalls);
}

#[test]
fn merge_of_merged_profile_is_unchanged() {
    let once = merge(vec![
        gen_seccomp_profile(vec!["mkdir", "chdir"]),
        gen_seccomp_profile(vec!["chdir", "getpid"]),
    ]);
    let twice = merge(vec![once.clone()]);
    assert_eq!(twice, once);
}

#[test]
fn merge_in_either_order_gives_same_profile() {
    let a = gen_seccomp_profile(vec!["read", "openat"]);
    let b = gen_duplicate_syscalls_profile(vec!["close", "read"]);
    assert_eq!(merge(vec![a.clone(), b.clone()]), merge(vec![b, a]));
}

#[test]
fn merge_sorts_by_character_code() {
    let act = merge(vec![gen_seccomp_profile(vec!["b", "B", "_x", "a1", "a"])]);
    let names = act.syscalls.unwrap()[0].names.clone();
    assert_eq!(names, strings(&["B", "_x", "a", "a1", "b"]));
}

#[test]
fn diff_equal_profile() {
    let profile1 = gen_seccomp_profile(vec!["mkdir"]);
    let profile2 = gen_seccomp_profile(vec!["mkdir"]);
    let map = diff(profile1, profile2);

    assert_eq!(map.len(), 1);
    assert_eq!(map.get(&"mkdir".to_string()), Some(&DiffStatus::Both));
}

#[test]
fn diff_equal_profile_3_syscalls() {
    let profile1 = gen_seccomp_profile(vec!["getpid", "mkdir", "unshare"]);
    let profile2 = gen_seccomp_profile(vec!["getpid", "mkdir", "unshare"]);
    let map = diff(profile1, profile2);

    assert_eq!(map.len(), 3);
    assert_eq!(map.get(&"getpid".to_string()), Some(&DiffStatus::Both));
    assert_eq!(map.get(&"mkdir".to_string()), Some(&DiffStatus::Both));
    assert_eq!(map.get(&"unshare".to_string()), Some(&DiffStatus::Both));
}

#[test]
fn diff_only_profile1_syscalls() {
    let profile1 = gen_seccomp_profile(vec!["getpid", "mkdir", "unshare"]);
    let profile2 = gen_seccomp_profile(vec!["getuid"]);
    let map = diff(profile1, profile2);

    assert_eq!(map.len(), 4);
    assert_eq!(map.get(&"getpid".to_string()), Some(&DiffStatus::OnlyPath1));
    assert_eq!(map.get(&"mkdir".to_string()), Some(&DiffStatus::OnlyPath1));
    assert_eq!(
        map.get(&"unshare".to_string()),
        Some(&DiffStatus::OnlyPath1)
    );
    assert_eq!(map.get(&"getuid".to_string()), Some(&DiffStatus::OnlyPath2));
}

#[test]
fn diff_only_profile2_syscalls() {
    let profile1 = gen_seccomp_profile(vec!["getuid"]);
    let profile2 = gen_seccomp_profile(vec!["getpid", "mkdir", "unshare"]);
    let map = diff(profile1, profile2);

    assert_eq!(map.len(), 4);
    assert_eq!(map.get(&"getpid".to_string()), Some(&DiffStatus::OnlyPath2));
    assert_eq!(map.get(&"mkdir".to_string()), Some(&DiffStatus::OnlyPath2));
    assert_eq!(
        map.get(&"unshare".to_string()),
        Some(&DiffStatus::OnlyPath2)
    );
    assert_eq!(map.get(&"getuid".to_string()), Some(&DiffStatus::OnlyPath1));
}

#[test]
fn diff_swapped_exchanges_sides() {
    let a = gen_seccomp_profile(vec!["getpid", "mkdir", "read"]);
    let b = gen_seccomp_profile(vec!["read", "getuid"]);
    let ab = diff(a.clone(), b.clone());
    let ba = diff(b, a);
    assert_eq!(ab.len(), ba.len());
    for name in ["getpid", "mkdir", "read", "getuid"] {
        let name = name.to_string();
        let swapped = match ab.get(&name) {
            Some(DiffStatus::OnlyPath1) => Some(&DiffStatus::OnlyPath2),
            Some(DiffStatus::OnlyPath2) => Some(&DiffStatus::OnlyPath1),
            Some(DiffStatus::Both) => Some(&DiffStatus::Both),
            None => None,
        };
        assert_eq!(ba.get(&name), swapped);
    }
}

#[test]
fn diff_against_empty_profile() {
    let a = gen_seccomp_profile(vec!["getpid", "mkdir"]);
    let map = diff(a, LinuxSeccomp::default());
    assert_eq!(map.len(), 2);
    assert_eq!(map.names_with(DiffStatus::OnlyPath1), strings(&["getpid", "mkdir"]));
    assert!(map.names_with(DiffStatus::OnlyPath2).is_empty());
    assert!(map.names_with(DiffStatus::Both).is_empty());
    assert_eq!(map.get(&"read".to_string()), None);
}

#[test]
fn diff_report_partitions_names() {
    let a = gen_seccomp_profile(vec!["unshare", "getpid", "mkdir"]);
    let b = gen_seccomp_profile(vec!["mkdir", "getuid"]);
    let map = diff(a, b);
    assert_eq!(map.names_with(DiffStatus::OnlyPath1), strings(&["getpid", "unshare"]));
    assert_eq!(map.names_with(DiffStatus::OnlyPath2), strings(&["getuid"]));
    assert_eq!(map.names_with(DiffStatus::Both), strings(&["mkdir"]));
}
