//! The dynamic tracer's decisions: decoding raw syscall-entry events,
//! accumulating the names they resolve to, and the session's state machine.
//!
//! The caller owns the kernel probe, the event transport, the signal
//! listener and the output file; it reports what happened as a
//! `TracerEvent` and performs the `TracerAction` that `step` returns.

use vstd::prelude::*;

use crate::arch::{syscall_name, syscall_name_spec};
use crate::lang::target_archs;
use crate::names::{sorted_strict, SyscallNameSet};
use crate::oci::LinuxSeccomp;
use crate::profile_util::{allow_list_profile, is_allow_list};

verus! {

/// The size in bytes of a raw syscall-entry record.
pub const SYS_ENTER_EVENT_SIZE: usize = 56;

/// The errno of an interrupted system call, which a poll retries.
pub const EINTR: i32 = 4;

/// The signal that stops a tracing session (SIGUSR1 on Linux).
pub const STOP_SIGNAL: i32 = 10;

/// One syscall entry, as the kernel probe reports it.
#[derive(Clone, Copy, Debug)]
pub struct SysEnterEvent {
    pub uid: u32,
    pub cgid: u64,
    pub syscall_nr: i64,
    pub comm: [u8; 32],
}

/// The little-endian `u32` at `off`.
pub open spec fn le_u32(s: Seq<u8>, off: int) -> u32 {
    (s[off] as u32) | ((s[off + 1] as u32) << 8u32) | ((s[off + 2] as u32) << 16u32) | ((s[off + 3] as u32) << 24u32)
}

/// The little-endian `u64` at `off`.
pub open spec fn le_u64(s: Seq<u8>, off: int) -> u64 {
    (s[off] as u64) | ((s[off + 1] as u64) << 8u64) | ((s[off + 2] as u64) << 16u64) | ((s[off + 3] as u64) << 24u64)
        | ((s[off + 4] as u64) << 32u64) | ((s[off + 5] as u64) << 40u64) | ((s[off + 6] as u64) << 48u64)
        | ((s[off + 7] as u64) << 56u64)
}

fn read_u32(data: &[u8], off: usize) -> (r: u32)
    requires
        off + 4 <= data@.len(),
    ensures
        r == le_u32(data@, off as int),
{
    (data[off] as u32) | ((data[off + 1] as u32) << 8u32) | ((data[off + 2] as u32) << 16u32) | ((data[off + 3] as u32) << 24u32)
}

fn read_u64(data: &[u8], off: usize) -> (r: u64)
    requires
        off + 8 <= data@.len(),
    ensures
        r == le_u64(data@, off as int),
{
    (data[off] as u64) | ((data[off + 1] as u64) << 8u64) | ((data[off + 2] as u64) << 16u64) | ((data[off + 3] as u64) << 24u64)
        | ((data[off + 4] as u64) << 32u64) | ((data[off + 5] as u64) << 40u64) | ((data[off + 6] as u64) << 48u64)
        | ((data[off + 7] as u64) << 56u64)
}

impl SysEnterEvent {
    /// Decodes a raw record: `uid` at byte 0, `cgid` at 8, `syscall_nr` at 16
    /// and `comm` at 24, little-endian, in `SYS_ENTER_EVENT_SIZE` bytes; bytes
    /// past those are ignored. `None` if the buffer is shorter.
    pub fn from_bytes(data: &[u8]) -> (r: Option<SysEnterEvent>)
        ensures
            data@.len() < SYS_ENTER_EVENT_SIZE ==> r is None,
            data@.len() >= SYS_ENTER_EVENT_SIZE ==> (r matches Some(e) && e.uid == le_u32(data@, 0)
                && e.cgid == le_u64(data@, 8) && e.syscall_nr == le_u64(data@, 16) as i64
                && forall|i: int| 0 <= i < 32 ==> e.comm@[i] == data@[24 + i]),
    {
        if data.len() < SYS_ENTER_EVENT_SIZE {
            return None;
        }
        let mut comm = [0u8; 32];
        let mut i: usize = 0;
        while i < 32
            invariant
                data@.len() >= SYS_ENTER_EVENT_SIZE,
                i <= 32,
                forall|k: int| 0 <= k < i ==> comm@[k] == data@[24 + k],
            decreases 32 - i,
        {
            comm.set(i, data[24 + i]);
            i = i + 1;
        }
        let nr = read_u64(data, 16);
        Some(SysEnterEvent {
            uid: read_u32(data, 0),
            cgid: read_u64(data, 8),
            syscall_nr: nr as i64,
            comm,
        })
    }
}

/// The name that a probe's syscall number resolves to; the number is taken
/// modulo 2^32, as the probe's table lookup does.
pub open spec fn event_syscall_name(nr: i64) -> Option<Seq<char>> {
    syscall_name_spec(nr as u32)
}

/// Why an event was not recorded.
#[derive(Clone, Copy, Debug, PartialEq, Eq, Structural)]
pub enum TraceError {
    /// The record is shorter than a syscall-entry record.
    ShortEvent,
}

/// The syscall names seen during one tracing session.
pub struct TraceSession {
    syscalls: SyscallNameSet,
}

impl TraceSession {
    /// The names recorded so far.
    pub closed spec fn names(&self) -> Set<Seq<char>> {
        self.syscalls@.to_set()
    }

    pub closed spec fn wf(&self) -> bool {
        sorted_strict(self.syscalls@)
    }

    pub fn new() -> (r: TraceSession)
        ensures
            r.wf(),
            r.names() == Set::<Seq<char>>::empty(),
    {
        let r = TraceSession { syscalls: SyscallNameSet::new() };
        assert(r.syscalls@.to_set() =~= Set::<Seq<char>>::empty());
        r
    }

    /// Records the syscall with entry number `nr`; a number without a name is
    /// ignored.
    pub fn record_syscall(&mut self, nr: i64)
        requires
            old(self).wf(),
        ensures
            final(self).wf(),
            final(self).names() == match event_syscall_name(nr) {
                Some(n) => old(self).names().insert(n),
                None => old(self).names(),
            },
    {
        #[verifier::truncate]
        let key = nr as u32;
        match syscall_name(key) {
            Some(name) => self.syscalls.insert(String::from_str(name)),
            None => {},
        }
    }

    /// Decodes a raw record and records its syscall.
    pub fn handle_event(&mut self, data: &[u8]) -> (r: Result<(), TraceError>)
        requires
            old(self).wf(),
        ensures
            final(self).wf(),
            data@.len() < SYS_ENTER_EVENT_SIZE ==> r == Err::<(), TraceError>(TraceError::ShortEvent)
                && final(self).names() == old(self).names(),
            data@.len() >= SYS_ENTER_EVENT_SIZE ==> r is Ok && final(self).names() == match event_syscall_name(
                le_u64(data@, 16) as i64,
            ) {
                Some(n) => old(self).names().insert(n),
                None => old(self).names(),
            },
    {
        match SysEnterEvent::from_bytes(data) {
            Some(event) => {
                self.record_syscall(event.syscall_nr);
                Ok(())
            },
            None => Err(TraceError::ShortEvent),
        }
    }

    /// The profile for what was recorded: default action errno, the x86_64
    /// architecture, one allow rule with the names, sorted, once each.
    pub fn gen_seccomp_rule(&self) -> (r: LinuxSeccomp)
        requires
            self.wf(),
        ensures
            is_allow_list(r, self.names(), target_archs()),
    {
        let names = self.syscalls.to_vec();
        let mut archs = Vec::new();
        archs.push(crate::oci::Arch::SCMP_ARCH_X86_64);
        assert(archs@ =~= target_archs());
        allow_list_profile(names, archs)
    }
}

/// Whether the poll loop goes on after a poll that returned `error` (`None`
/// for success): an interrupted call is retried, any other error ends the
/// session.
pub fn poll_continues(error: Option<i32>) -> (r: bool)
    ensures
        r == (error is None || error == Some(EINTR)),
{
    match error {
        None => true,
        Some(e) => e == EINTR,
    }
}

/// Whether a received signal stops the session.
pub fn is_stop_signal(signal: i32) -> (r: bool)
    ensures
        r == (signal == STOP_SIGNAL),
{
    signal == STOP_SIGNAL
}

/// Where a tracing session stands.
#[derive(Clone, Copy, Debug, PartialEq, Eq, Structural)]
pub enum TracerState {
    Created,
    Attached,
    Polling,
    Stopping,
    ProfileWritten,
    Exited,
    /// A fatal error ended the session; no profile is written.
    Failed,
}

/// What the caller observed.
#[derive(Clone, Copy, Debug, PartialEq, Eq, Structural)]
pub enum TracerEvent {
    /// The probe was opened, loaded and attached.
    ProbeAttached,
    /// Opening, loading or attaching the probe failed.
    ProbeFailed,
    /// A poll returned, with the errno of its error if it failed.
    PollReturned(Option<i32>),
    /// The stop flag was found cleared.
    StopObserved,
    /// The output path was resolved; whether a path is present.
    OutputResolved(bool),
    /// The profile file was written.
    ProfileEmitted,
    /// Writing the profile file failed.
    EmitFailed,
    /// The signal listener finished.
    ListenerJoined,
}

/// What the caller does next.
#[derive(Clone, Copy, Debug, PartialEq, Eq, Structural)]
pub enum TracerAction {
    /// Poll the event transport once more.
    Poll,
    /// Resolve the output path from the container state.
    ResolveOutput,
    /// Write the session's profile to the resolved path.
    WriteProfile,
    /// Wait for the signal listener to finish.
    JoinListener,
    /// End the session with an error, writing nothing.
    Abort,
    /// End the session successfully.
    Finish,
    /// The event does not apply in this state; nothing to do.
    Ignore,
}

/// The session's transition table.
pub open spec fn tracer_step(state: TracerState, event: TracerEvent) -> (TracerState, TracerAction) {
    match (state, event) {
        (TracerState::Created, TracerEvent::ProbeAttached) => (TracerState::Attached, TracerAction::Poll),
        (TracerState::Created, TracerEvent::ProbeFailed) => (TracerState::Failed, TracerAction::Abort),
        (TracerState::Attached, TracerEvent::PollReturned(e)) | (TracerState::Polling, TracerEvent::PollReturned(e)) =>
            if e is None || e == Some(EINTR) {
                (TracerState::Polling, TracerAction::Poll)
            } else {
                (TracerState::Failed, TracerAction::Abort)
            },
        (TracerState::Attached, TracerEvent::StopObserved) | (TracerState::Polling, TracerEvent::StopObserved) =>
            (TracerState::Stopping, TracerAction::ResolveOutput),
        (TracerState::Stopping, TracerEvent::OutputResolved(present)) =>
            if present {
                (TracerState::Stopping, TracerAction::WriteProfile)
            } else {
                (TracerState::ProfileWritten, TracerAction::JoinListener)
            },
        (TracerState::Stopping, TracerEvent::ProfileEmitted) => (TracerState::ProfileWritten, TracerAction::JoinListener),
        (TracerState::Stopping, TracerEvent::EmitFailed) => (TracerState::Failed, TracerAction::Abort),
        (TracerState::ProfileWritten, TracerEvent::ListenerJoined) => (TracerState::Exited, TracerAction::Finish),
        _ => (state, TracerAction::Ignore),
    }
}

impl TracerState {
    /// The next state and the action for `event`.
    pub fn step(self, event: TracerEvent) -> (r: (TracerState, TracerAction))
        ensures
            r == tracer_step(self, event),
    {
        match (self, event) {
            (TracerState::Created, TracerEvent::ProbeAttached) => (TracerState::Attached, TracerAction::Poll),
            (TracerState::Created, TracerEvent::ProbeFailed) => (TracerState::Failed, TracerAction::Abort),
            (TracerState::Attached, TracerEvent::PollReturned(e)) | (TracerState::Polling, TracerEvent::PollReturned(e)) => {
                if poll_continues(e) {
                    (TracerState::Polling, TracerAction::Poll)
                } else {
                    (TracerState::Failed, TracerAction::Abort)
                }
            },
            (TracerState::Attached, TracerEvent::StopObserved) | (TracerState::Polling, TracerEvent::StopObserved) => {
                (TracerState::Stopping, TracerAction::ResolveOutput)
            },
            (TracerState::Stopping, TracerEvent::OutputResolved(present)) => {
                if present {
                    (TracerState::Stopping, TracerAction::WriteProfile)
                } else {
                    (TracerState::ProfileWritten, TracerAction::JoinListener)
                }
            },
            (TracerState::Stopping, TracerEvent::ProfileEmitted) => (TracerState::ProfileWritten, TracerAction::JoinListener),
            (TracerState::Stopping, TracerEvent::EmitFailed) => (TracerState::Failed, TracerAction::Abort),
            (TracerState::ProfileWritten, TracerEvent::ListenerJoined) => (TracerState::Exited, TracerAction::Finish),
            _ => (self, TracerAction::Ignore),
        }
    }
}

/// A profile is written only once a stop has been observed and an output
/// path resolved; a failed session stays failed and writes nothing.
pub proof fn lemma_write_only_after_stop(state: TracerState, event: TracerEvent)
    ensures
        tracer_step(state, event).1 == TracerAction::WriteProfile ==> state == TracerState::Stopping
            && event == TracerEvent::OutputResolved(true),
        state == TracerState::Failed ==> tracer_step(state, event) == (TracerState::Failed, TracerAction::Ignore),
{
}

/// With no output path the session goes on to finish without writing.
pub proof fn lemma_no_path_no_write(event: TracerEvent)
    ensures
        tracer_step(TracerState::Stopping, TracerEvent::OutputResolved(false)) == (
            TracerState::ProfileWritten,
            TracerAction::JoinListener,
        ),
        tracer_step(TracerState::ProfileWritten, event).1 != TracerAction::WriteProfile,
        tracer_step(TracerState::Exited, event).1 != TracerAction::WriteProfile,
{
}

} // verus!
