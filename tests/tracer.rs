use sprofiler::arch::syscall_name;
use sprofiler::oci::{Arch, LinuxSeccompAction, State, Status, StringMap};
use sprofiler::ociutil::{get_trace_target_path, SPROFILER_PROFILE_PATH};
use sprofiler::tracer::{
    is_stop_signal, poll_continues, SysEnterEvent, TraceError, TraceSession, TracerAction, TracerEvent, TracerState,
    SYS_ENTER_EVENT_SIZE,
};

fn raw_event(uid: u32, cgid: u64, nr: i64) -> Vec<u8> {
    let mut data = Vec::new();
    data.extend_from_slice(&uid.to_le_bytes());
    data.extend_from_slice(&[0; 4]);
    data.extend_from_slice(&cgid.to_le_bytes());
    data.extend_from_slice(&nr.to_le_bytes());
    let mut comm = [0u8; 32];
    comm[..4].copy_from_slice(b"sh\0\0");
    data.extend_from_slice(&comm);
    data
}

fn state_with(annotations: Option<StringMap>) -> State {
    State {
        oci_version: "1.0.2".to_string(),
        id: "abc".to_string(),
        status: Status::Created,
        pid: Some(42),
        bundle: "/run/bundle".to_string(),
        annotations,
        created: None,
    }
}

#[test]
fn decode_raw_event() {
    let data = raw_event(1000, 0x1122334455667788, 39);
    assert_eq!(data.len(), SYS_ENTER_EVENT_SIZE);
    let event = SysEnterEvent::from_bytes(&data).unwrap();
    assert_eq!(event.uid, 1000);
    assert_eq!(event.cgid, 0x1122334455667788);
    assert_eq!(event.syscall_nr, 39);
    assert_eq!(&event.comm[..2], b"sh");
    assert!(SysEnterEvent::from_bytes(&data[..55]).is_none());
}

#[test]
fn decode_negative_syscall_number() {
    let event = SysEnterEvent::from_bytes(&raw_event(0, 0, -1)).unwrap();
    assert_eq!(event.syscall_nr, -1);
}

#[test]
fn session_collects_read_and_write_once_each() {
    let mut session = TraceSession::new();
    for nr in [0i64, 1, 0, 1, 1, 0] {
        assert_eq!(session.handle_event(&raw_event(0, 7, nr)), Ok(()));
    }
    let profile = session.gen_seccomp_rule();
    assert_eq!(profile.default_action, LinuxSeccompAction::SCMP_ACT_ERRNO);
    assert_eq!(profile.architectures, Some(vec![Arch::SCMP_ARCH_X86_64]));
    let rules = profile.syscalls.unwrap();
    assert_eq!(rules.len(), 1);
    assert_eq!(rules[0].names, vec!["read".to_string(), "write".to_string()]);
    assert_eq!(rules[0].action, LinuxSeccompAction::SCMP_ACT_ALLOW);
    assert_eq!(rules[0].args, None);
}

#[test]
fn session_ignores_unknown_numbers_and_short_records() {
    let mut session = TraceSession::new();
    session.record_syscall(-1);
    session.record_syscall(400);
    session.record_syscall(39);
    assert_eq!(session.handle_event(&[0u8; 10]), Err(TraceError::ShortEvent));
    let profile = session.gen_seccomp_rule();
    assert_eq!(profile.syscalls.unwrap()[0].names, vec!["getpid".to_string()]);
}

#[test]
fn empty_session_gives_empty_allow_rule() {
    let profile = TraceSession::new().gen_seccomp_rule();
    assert!(profile.syscalls.unwrap()[0].names.is_empty());
}

#[test]
fn syscall_table_entries() {
    assert_eq!(syscall_name(0), Some("read"));
    assert_eq!(syscall_name(1), Some("write"));
    assert_eq!(syscall_name(39), Some("getpid"));
    assert_eq!(syscall_name(59), Some("execve"));
    assert_eq!(syscall_name(450), Some("set_mempolicy_home_node"));
    assert_eq!(syscall_name(335), None);
    assert_eq!(syscall_name(451), None);
}

#[test]
fn poll_retries_only_interrupted_calls() {
    assert!(poll_continues(None));
    assert!(poll_continues(Some(4)));
    assert!(!poll_continues(Some(5)));
    assert!(!poll_continues(Some(-1)));
}

#[test]
fn only_usr1_stops() {
    assert!(is_stop_signal(10));
    assert!(!is_stop_signal(15));
    assert!(!is_stop_signal(12));
}

#[test]
fn session_lifecycle_with_output_path() {
    let s = TracerState::Created;
    let (s, a) = s.step(TracerEvent::ProbeAttached);
    assert_eq!((s, a), (TracerState::Attached, TracerAction::Poll));
    let (s, a) = s.step(TracerEvent::PollReturned(None));
    assert_eq!((s, a), (TracerState::Polling, TracerAction::Poll));
    let (s, a) = s.step(TracerEvent::PollReturned(Some(4)));
    assert_eq!((s, a), (TracerState::Polling, TracerAction::Poll));
    let (s, a) = s.step(TracerEvent::StopObserved);
    assert_eq!((s, a), (TracerState::Stopping, TracerAction::ResolveOutput));
    let (s, a) = s.step(TracerEvent::OutputResolved(true));
    assert_eq!((s, a), (TracerState::Stopping, TracerAction::WriteProfile));
    let (s, a) = s.step(TracerEvent::ProfileEmitted);
    assert_eq!((s, a), (TracerState::ProfileWritten, TracerAction::JoinListener));
    let (s, a) = s.step(TracerEvent::ListenerJoined);
    assert_eq!((s, a), (TracerState::Exited, TracerAction::Finish));
}

#[test]
fn no_output_annotation_means_no_profile() {
    let mut annotations = StringMap::new();
    annotations.insert("io.example.other".to_string(), "/tmp/x.json".to_string());
    let state = state_with(Some(annotations));
    assert_eq!(get_trace_target_path(&state), None);
    assert_eq!(get_trace_target_path(&state_with(None)), None);
    let (s, a) = TracerState::Stopping.step(TracerEvent::OutputResolved(false));
    assert_eq!((s, a), (TracerState::ProfileWritten, TracerAction::JoinListener));
    let (s, a) = s.step(TracerEvent::ListenerJoined);
    assert_eq!((s, a), (TracerState::Exited, TracerAction::Finish));
}

#[test]
fn output_annotation_gives_path() {
    let mut annotations = StringMap::new();
    annotations.insert(SPROFILER_PROFILE_PATH.to_string(), "/tmp/a.json".to_string());
    annotations.insert(SPROFILER_PROFILE_PATH.to_string(), "/tmp/b.json".to_string());
    assert_eq!(get_trace_target_path(&state_with(Some(annotations))), Some("/tmp/b.json".to_string()));
}

#[test]
fn transport_error_fails_session() {
    let (s, a) = TracerState::Polling.step(TracerEvent::PollReturned(Some(22)));
    assert_eq!((s, a), (TracerState::Failed, TracerAction::Abort));
    let (s, a) = s.step(TracerEvent::StopObserved);
    assert_eq!((s, a), (TracerState::Failed, TracerAction::Ignore));
    let (s, a) = TracerState::Created.step(TracerEvent::ProbeFailed);
    assert_eq!((s, a), (TracerState::Failed, TracerAction::Abort));
}
