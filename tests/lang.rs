use sprofiler::lang::{
    allow_syscall_list_from_symbols, c_profile_from_symbols, go_syscalls_from_symbols, is_syscalls, known_syscall_names, parse_syscall_map,
    strip_syscall_namespace, syscall_candidate, AnalyzeError, BuildError, CSeccompProfiler, GoSeccompProfiler,
    Language, SeccompProfiler, SeccompProfilerBuilder, SyscallMap,
};
use sprofiler::oci::{Arch, LinuxSeccompAction};

fn strings(v: &[&str]) -> Vec<String> {
    v.iter().map(|s| s.to_string()).collect()
}

/// A 64-byte ELF64 x86_64 header with no sections and no program headers.
fn empty_elf() -> Vec<u8> {
    let mut h = vec![0x7f, b'E', b'L', b'F', 2, 1, 1, 0];
    h.extend_from_slice(&[0; 8]);
    h.extend_from_slice(&2u16.to_le_bytes());
    h.extend_from_slice(&0x3eu16.to_le_bytes());
    h.extend_from_slice(&1u32.to_le_bytes());
    h.extend_from_slice(&0u64.to_le_bytes());
    h.extend_from_slice(&0u64.to_le_bytes());
    h.extend_from_slice(&0u64.to_le_bytes());
    h.extend_from_slice(&0u32.to_le_bytes());
    h.extend_from_slice(&64u16.to_le_bytes());
    h.extend_from_slice(&56u16.to_le_bytes());
    h.extend_from_slice(&0u16.to_le_bytes());
    h.extend_from_slice(&64u16.to_le_bytes());
    h.extend_from_slice(&0u16.to_le_bytes());
    h.extend_from_slice(&0u16.to_le_bytes());
    h
}

#[test]
fn test_allow_syscall_list_from_symbols() {
    let mut fn_to_syscall = SyscallMap::new();
    fn_to_syscall.insert("puts".to_string(), vec!["write".to_string()]);
    let symbols = vec!["puts".to_string()];

    let syscalls = allow_syscall_list_from_symbols(symbols, fn_to_syscall);
    assert_eq!(syscalls, vec!["write".to_string()])
}

#[test]
fn c_profile_for_puts_allows_write() {
    let mut table = SyscallMap::new();
    table.insert("puts".to_string(), strings(&["write"]));
    let profile = c_profile_from_symbols(strings(&["puts"]), table);
    assert_eq!(profile.default_action, LinuxSeccompAction::SCMP_ACT_ERRNO);
    let rules = profile.syscalls.unwrap();
    assert_eq!(rules.len(), 1);
    assert_eq!(rules[0].names, strings(&["write"]));
    assert_eq!(rules[0].action, LinuxSeccompAction::SCMP_ACT_ALLOW);
}

#[test]
fn c_profile_sorts_and_dedups_syscalls() {
    let mut table = SyscallMap::new();
    table.insert("puts".to_string(), strings(&["write"]));
    table.insert("fopen".to_string(), strings(&["openat", "fstat"]));
    let profile = c_profile_from_symbols(strings(&["puts", "fopen", "puts"]), table);
    assert_eq!(profile.syscalls.unwrap()[0].names, strings(&["fstat", "openat", "write"]));
}

#[test]
fn allow_syscall_list_keeps_symbol_order_and_skips_unknown() {
    let mut table = SyscallMap::new();
    table.insert("puts".to_string(), strings(&["write"]));
    table.insert("fopen".to_string(), strings(&["openat", "fstat"]));
    let syscalls = allow_syscall_list_from_symbols(strings(&["fopen", "main", "puts", "fopen"]), table);
    assert_eq!(syscalls, strings(&["openat", "fstat", "write", "openat", "fstat"]));
}

#[test]
fn syscall_map_later_entry_wins() {
    let mut table = SyscallMap::new();
    table.insert("puts".to_string(), strings(&["write"]));
    table.insert("puts".to_string(), strings(&["writev"]));
    assert_eq!(table.get("puts"), Some(&strings(&["writev"])));
    assert_eq!(table.get("printf"), None);
}

#[test]
fn parse_syscall_map_reads_json_document() {
    let table = parse_syscall_map(br#"{"puts": ["write"], "fopen": ["openat", "fstat"]}"#).unwrap();
    assert_eq!(table.get("puts"), Some(&strings(&["write"])));
    assert_eq!(table.get("fopen"), Some(&strings(&["openat", "fstat"])));
    assert_eq!(table.get("exit"), None);
}

#[test]
fn parse_syscall_map_rejects_other_documents() {
    assert!(parse_syscall_map(b"[1, 2]").is_none());
    assert!(parse_syscall_map(b"{\"puts\": ").is_none());
}

#[test]
fn build_c_seccomp_profiler() {
    let built = SeccompProfilerBuilder::new(String::new(), String::new(), Language::C)
        .set_syscall_map(String::new())
        .build();
    assert!(matches!(built, Ok(SeccompProfiler::C(_))));
}

#[test]
fn build_c_profiler_without_syscall_map_fails() {
    let built = SeccompProfilerBuilder::new(String::new(), String::new(), Language::C).build();
    assert!(matches!(built, Err(BuildError::MissingSyscallMap)));
}

#[test]
fn build_go_seccomp_profiler() {
    let built = SeccompProfilerBuilder::new(String::new(), String::new(), Language::Go).build();
    assert!(matches!(built, Ok(SeccompProfiler::Go(_))));
}

#[test]
fn builder_passes_paths_to_profiler() {
    let mut builder = SeccompProfilerBuilder::new("bin/app".to_string(), "out.json".to_string(), Language::C);
    builder.set_syscall_map("map.json".to_string());
    match builder.build() {
        Ok(SeccompProfiler::C(p)) => {
            assert_eq!(p.target_bin, "bin/app");
            assert_eq!(p.destination, "out.json");
            assert_eq!(p.syscall_map, "map.json");
        }
        _ => panic!("expected the C analyzer"),
    }
}

#[test]
fn language_tags_ignore_case() {
    assert_eq!(Language::parse("C"), Some(Language::C));
    assert_eq!(Language::parse("go"), Some(Language::Go));
    assert_eq!(Language::parse("GoLang"), Some(Language::Go));
    assert_eq!(Language::parse("rust"), None);
    assert_eq!("GO".parse::<Language>(), Ok(Language::Go));
    assert_eq!(Language::from_lowercase("Go"), None);
}

#[test]
fn go_wrapper_names_become_syscalls() {
    assert_eq!(strip_syscall_namespace("syscall.Getpid"), "Getpid");
    assert_eq!(strip_syscall_namespace("syscall_Getpid"), "syscall_Getpid");
    assert_eq!(syscall_candidate("syscall.Getpid"), "getpid");
    assert_eq!(syscall_candidate("syscall.RawSyscall"), "rawsyscall");
}

#[test]
fn known_syscall_names_filters_sorts_and_dedups() {
    let names = known_syscall_names(strings(&["write", "getpid", "notasyscallxyz", "getpid", "read"]));
    assert_eq!(names, strings(&["getpid", "read", "write"]));
}

#[test]
fn go_symbols_yield_known_syscalls_only() {
    let symbols = strings(&["main.main", "syscall.Getpid", "syscall.notasyscallxyz", "runtime.write"]);
    assert_eq!(go_syscalls_from_symbols(&symbols), Ok(strings(&["getpid"])));
}

#[test]
fn go_symbols_match_inside_longer_names() {
    let symbols = strings(&["syscall.Close", "internal/syscall/unix.Openat", "syscall.Getpid.abi0", "syscall.Read"]);
    assert_eq!(go_syscalls_from_symbols(&symbols), Ok(strings(&["close", "getpid", "read"])));
}

#[test]
fn is_syscalls_checks_x86_64_table() {
    assert!(is_syscalls("getpid"));
    assert!(is_syscalls("read"));
    assert!(is_syscalls("set_mempolicy_home_node"));
    assert!(!is_syscalls("notasyscallxyz"));
    assert!(!is_syscalls("Getpid"));
    assert!(!is_syscalls(""));
}

#[test]
fn analyzers_reject_non_object_files() {
    let c = CSeccompProfiler { destination: String::new(), target_bin: String::new(), syscall_map: String::new() };
    assert_eq!(c.analyze(b"not a binary", br#"{"puts": ["write"]}"#), Err(AnalyzeError::InvalidBinary));
    let go = GoSeccompProfiler { destination: String::new(), target_bin: String::new() };
    assert_eq!(go.analyze(b"not a binary"), Err(AnalyzeError::InvalidBinary));
}

#[test]
fn c_analyzer_requires_valid_syscall_map() {
    let c = CSeccompProfiler { destination: String::new(), target_bin: String::new(), syscall_map: String::new() };
    assert_eq!(c.analyze(&empty_elf(), b"not json"), Err(AnalyzeError::InvalidSyscallMap));
}

#[test]
fn analyzers_on_binary_without_symbols() {
    let c = CSeccompProfiler { destination: String::new(), target_bin: String::new(), syscall_map: String::new() };
    let profile = c.analyze(&empty_elf(), br#"{"puts": ["write"]}"#).unwrap();
    assert_eq!(profile.default_action, LinuxSeccompAction::SCMP_ACT_ERRNO);
    assert_eq!(profile.architectures, Some(vec![Arch::SCMP_ARCH_X86_64]));
    let rules = profile.syscalls.unwrap();
    assert_eq!(rules.len(), 1);
    assert!(rules[0].names.is_empty());
    assert_eq!(rules[0].action, LinuxSeccompAction::SCMP_ACT_ALLOW);

    let go = GoSeccompProfiler { destination: String::new(), target_bin: String::new() };
    let profile = go.analyze(&empty_elf()).unwrap();
    assert!(profile.syscalls.unwrap()[0].names.is_empty());
}
