//! The OCI runtime data model: the container state, the runtime spec and the
//! seccomp profile document.

use vstd::prelude::*;

use crate::names::{str_eq, to_strings, seq_view};

verus! {

pub const OCI_VERSION: &'static str = "1.0.1-dev";

/// A string-keyed map of strings (annotations, sysctl settings).
///
/// Entries are kept in insertion order; a later entry for a key overrides an
/// earlier one.
#[derive(Clone, Debug, PartialEq)]
pub struct StringMap {
    entries: Vec<(String, String)>,
}

/// The value stored last under `key`, if any.
pub open spec fn lookup(entries: Seq<(Seq<char>, Seq<char>)>, key: Seq<char>) -> Option<Seq<char>>
    decreases entries.len(),
{
    if entries.len() == 0 {
        None
    } else if entries.last().0 == key {
        Some(entries.last().1)
    } else {
        lookup(entries.drop_last(), key)
    }
}

impl View for StringMap {
    type V = Seq<(Seq<char>, Seq<char>)>;

    closed spec fn view(&self) -> Seq<(Seq<char>, Seq<char>)> {
        self.entries@.map_values(|e: (String, String)| (e.0@, e.1@))
    }
}

impl StringMap {
    pub fn new() -> (r: StringMap)
        ensures
            r@ == Seq::<(Seq<char>, Seq<char>)>::empty(),
    {
        StringMap { entries: Vec::new() }
    }

    /// Stores `value` under `key`, replacing what `key` held.
    pub fn insert(&mut self, key: String, value: String)
        ensures
            final(self)@ == old(self)@.push((key@, value@)),
            lookup(final(self)@, key@) == Some(value@),
    {
        let ghost k = key@;
        let ghost v = value@;
        self.entries.push((key, value));
        assert(self@ =~= old(self)@.push((k, v)));
        assert(self@.drop_last() =~= old(self)@);
    }

    /// The value stored under `key`.
    pub fn get(&self, key: &str) -> (r: Option<&String>)
        ensures
            match r {
                Some(v) => lookup(self@, key@) == Some(v@),
                None => lookup(self@, key@) is None,
            },
    {
        let mut i: usize = self.entries.len();
        assert(self@.subrange(0, i as int) =~= self@);
        while i > 0
            invariant
                i <= self.entries@.len(),
                self@.len() == self.entries@.len(),
                lookup(self@, key@) == lookup(self@.subrange(0, i as int), key@),
            decreases i,
        {
            let ghost prefix = self@.subrange(0, i as int);
            assert(prefix.drop_last() =~= self@.subrange(0, i - 1));
            if str_eq(self.entries[i - 1].0.as_str(), key) {
                return Some(&self.entries[i - 1].1);
            }
            i = i - 1;
        }
        assert(self@.subrange(0, 0).len() == 0);
        None
    }

    /// The entries, oldest first.
    pub fn entries(&self) -> (r: &Vec<(String, String)>)
        ensures
            r@.map_values(|e: (String, String)| (e.0@, e.1@)) == self@,
    {
        &self.entries
    }
}

#[derive(Clone, Copy, Debug, PartialEq, Eq, Structural)]
pub enum Status {
    Creating,
    Created,
    Running,
    Stopped,
}

/// The state of a container, as the runtime reports it.
#[derive(Clone, Debug)]
pub struct State {
    pub oci_version: String,
    pub id: String,
    pub status: Status,
    pub pid: Option<i32>,
    pub bundle: String,
    pub annotations: Option<StringMap>,
    pub created: Option<String>,
}

#[derive(Clone, Debug)]
pub struct Spec {
    pub oci_version: String,
    pub process: Option<Process>,
    pub root: Root,
    pub hostname: Option<String>,
    pub mounts: Vec<Mount>,
    pub hooks: Option<Hooks>,
    pub annotations: Option<StringMap>,
    pub linux: Option<Linux>,
    pub solaris: Option<Solaris>,
    pub windows: Option<Windows>,
    pub vm: Option<VM>,
}

#[derive(Clone, Debug)]
pub struct Process {
    pub terminal: Option<bool>,
    pub console_size: Option<Box>,
    pub user: User,
    pub args: Vec<String>,
    pub env: Option<Vec<String>>,
    pub command_line: Option<String>,
    pub cwd: String,
    pub capabilities: Option<LinuxCapabilities>,
    pub rlimits: Option<Vec<POSIXRlimit>>,
    pub no_new_privileges: Option<bool>,
    pub apparmor_profile: Option<String>,
    pub oom_score_adj: Option<i32>,
    pub selinux_label: Option<String>,
}

#[derive(Clone, Debug)]
pub struct LinuxCapabilities {
    pub bounding: Option<Vec<String>>,
    pub effective: Option<Vec<String>>,
    pub inheritable: Option<Vec<String>>,
    pub permitted: Option<Vec<String>>,
    pub ambient: Option<Vec<String>>,
}

/// The size of a console, in characters.
#[derive(Clone, Copy, Debug)]
pub struct Box {
    pub height: u64,
    pub width: u64,
}

#[derive(Clone, Debug)]
pub struct Root {
    pub path: String,
    pub readonly: Option<bool>,
}

#[derive(Clone, Debug)]
pub struct Mount {
    pub destination: String,
    pub type_: String,
    pub source: String,
    pub options: Option<Vec<String>>,
}

#[derive(Clone, Debug)]
pub struct Hook {
    pub path: String,
    pub args: Option<Vec<String>>,
    pub env: Option<Vec<String>>,
    pub timeout: Option<u32>,
}

#[derive(Clone, Debug)]
pub struct Hooks {
    pub prestart: Option<Vec<Hook>>,
    pub create_runtime: Option<Vec<Hook>>,
    pub create_container: Option<Vec<Hook>>,
    pub start_container: Option<Vec<Hook>>,
    pub poststart: Option<Vec<Hook>>,
    pub poststop: Option<Vec<Hook>>,
}

#[derive(Clone, Debug)]
pub struct Linux {
    pub uid_mappings: Option<Vec<LinuxIDMapping>>,
    pub gid_mappings: Option<Vec<LinuxIDMapping>>,
    pub sysctl: Option<StringMap>,
    pub resources: Option<LinuxResources>,
    pub cgroups_path: Option<String>,
    pub namespaces: Option<Vec<LinuxNamespace>>,
    pub devices: Option<Vec<LinuxDevice>>,
    pub seccomp: Option<LinuxSeccomp>,
    pub rootfs_propagation: Option<String>,
    pub masked_paths: Option<Vec<String>>,
    pub readonly_paths: Option<Vec<String>>,
    pub mount_label: Option<String>,
    pub intel_rdt: Option<LinuxIntelRdt>,
}

#[derive(Clone, Copy, Debug)]
pub struct LinuxIDMapping {
    pub container_id: u32,
    pub host_id: u32,
    pub size: u32,
}

#[derive(Clone, Debug)]
pub struct LinuxResources {
    pub devices: Option<Vec<LinuxDeviceCgroup>>,
    pub memory: Option<LinuxMemory>,
    pub cpu: Option<LinuxCPU>,
    pub pids: Option<LinuxPids>,
    pub block_io: Option<LinuxBlockIO>,
    pub hugepage_limits: Option<Vec<LinuxHugepageLimit>>,
    pub network: Option<LinuxNetwork>,
    /// RDMA limits by device name.
    pub rdma: Option<Vec<(String, LinuxRdma)>>,
}

#[derive(Clone, Debug)]
pub struct LinuxDevice {
    pub path: String,
    pub type_: String,
    pub major: i64,
    pub minor: i64,
    pub uid: Option<u32>,
    pub gid: Option<u32>,
}

#[derive(Clone, Debug)]
pub struct LinuxDeviceCgroup {
    pub allow: bool,
    pub type_: Option<String>,
    pub major: Option<i64>,
    pub minor: Option<i64>,
    pub access: Option<String>,
}

#[allow(non_camel_case_types)]
#[derive(Clone, Copy, Debug, PartialEq, Eq, Structural)]
pub enum Arch {
    SCMP_ARCH_X86,
    SCMP_ARCH_X86_64,
    SCMP_ARCH_X86_X32,
    SCMP_ARCH_ARM,
    SCMP_ARCH_AARCH64,
    SCMP_ARCH_MIPS,
    SCMP_ARCH_MIPS64,
    SCMP_ARCH_MIPS64N32,
    SCMP_ARCH_MIPSEL,
    SCMP_ARCH_MIPSEL64,
    SCMP_ARCH_MIPSEL64N32,
    SCMP_ARCH_PPC,
    SCMP_ARCH_PPC64,
    SCMP_ARCH_PPC64LE,
    SCMP_ARCH_S390,
    SCMP_ARCH_S390X,
    SCMP_ARCH_PARISC,
    SCMP_ARCH_PARISC64,
}

#[allow(non_camel_case_types)]
#[derive(Clone, Copy, Debug, PartialEq, Eq, Structural)]
pub enum LinuxSeccompAction {
    SCMP_ACT_KILL,
    SCMP_ACT_TRAP,
    SCMP_ACT_ERRNO,
    SCMP_ACT_TRACE,
    SCMP_ACT_ALLOW,
    SCMP_ACT_LOG,
}

/// A seccomp profile: a default action and rules that override it by name.
#[derive(Clone, Debug, PartialEq)]
pub struct LinuxSeccomp {
    pub default_action: LinuxSeccompAction,
    pub architectures: Option<Vec<Arch>>,
    pub syscalls: Option<Vec<LinuxSyscall>>,
}

/// One rule of a seccomp profile.
#[derive(Clone, Debug, PartialEq)]
pub struct LinuxSyscall {
    pub names: Vec<String>,
    pub action: LinuxSeccompAction,
    pub args: Option<Vec<LinuxSeccompArg>>,
}

/// A constraint on one syscall argument; carried through, never interpreted.
#[derive(Clone, Debug, PartialEq)]
pub struct LinuxSeccompArg {
    pub index: u64,
    pub value: u64,
    pub value_two: Option<u64>,
    pub op: String,
}

impl Default for LinuxSeccomp {
    /// The profile that allows everything: no rules, no architectures.
    fn default() -> (r: LinuxSeccomp)
        ensures
            r.default_action == LinuxSeccompAction::SCMP_ACT_ALLOW,
            r.architectures is None,
            r.syscalls is None,
    {
        LinuxSeccomp {
            default_action: LinuxSeccompAction::SCMP_ACT_ALLOW,
            architectures: None,
            syscalls: None,
        }
    }
}

#[derive(Clone, Copy, Debug)]
pub struct LinuxMemory {
    pub limit: Option<i64>,
    pub reservation: Option<i64>,
    pub kernel: Option<i64>,
    pub kernel_tcp: Option<i64>,
    pub swappiness: Option<u64>,
    pub disable_oom_killer: Option<bool>,
}

#[derive(Clone, Debug)]
pub struct LinuxCPU {
    pub shares: Option<u64>,
    pub quota: Option<i64>,
    pub period: Option<u64>,
    pub realtime_runtime: Option<i64>,
    pub realtime_period: Option<u64>,
    pub cpus: Option<String>,
    pub mems: Option<String>,
}

#[derive(Clone, Copy, Debug)]
pub struct LinuxPids {
    pub limit: i64,
}

#[derive(Clone, Debug)]
pub struct LinuxBlockIO {
    pub weight: Option<u16>,
    pub leaf_weight: Option<u16>,
    pub weight_device: Option<Vec<LinuxWeightDevice>>,
    pub throttle_read_bps_device: Option<Vec<LinuxThrottleDevice>>,
    pub throttle_write_bps_device: Option<Vec<LinuxThrottleDevice>>,
    pub throttle_read_iops_device: Option<Vec<LinuxThrottleDevice>>,
    pub throttle_write_iops_device: Option<Vec<LinuxThrottleDevice>>,
}

#[derive(Clone, Copy, Debug)]
pub struct LinuxWeightDevice {
    pub major: i64,
    pub minor: i64,
    pub weight: Option<u16>,
    pub leaf_weight: Option<u16>,
}

#[derive(Clone, Copy, Debug)]
pub struct LinuxThrottleDevice {
    pub major: i64,
    pub minor: i64,
    pub rate: u64,
}

#[derive(Clone, Debug)]
pub struct LinuxNetwork {
    pub class_id: Option<u32>,
    pub priorities: Option<Vec<LinuxInterfacePriority>>,
}

#[derive(Clone, Debug)]
pub struct LinuxInterfacePriority {
    pub name: String,
    pub priority: u32,
}

#[derive(Clone, Copy, Debug)]
pub struct LinuxRdma {
    pub hca_handles: Option<u32>,
    pub hca_objects: Option<u32>,
}

#[derive(Clone, Debug)]
pub struct LinuxIntelRdt {
    pub clos_id: Option<String>,
    pub l3_cache_schema: Option<String>,
    pub mem_bw_schema: Option<String>,
}

#[derive(Clone, Debug)]
pub struct User {
    pub uid: u32,
    pub gid: u32,
    pub additional_gids: Option<Vec<u32>>,
    pub username: Option<String>,
}

#[derive(Clone, Debug)]
pub struct POSIXRlimit {
    pub type_: String,
    pub hard: u64,
    pub soft: u64,
}

#[derive(Clone, Debug)]
pub struct LinuxHugepageLimit {
    pub page_size: String,
    pub limit: u64,
}

#[derive(Clone, Debug)]
pub struct LinuxNamespace {
    pub type_: LinuxNamespaceType,
    pub path: Option<String>,
}

#[derive(Clone, Copy, Debug, PartialEq, Eq, Structural)]
pub enum LinuxNamespaceType {
    Mount,
    Cgroup,
    Uts,
    Ipc,
    User,
    Pid,
    Network,
}

#[derive(Clone, Copy, Debug)]
pub struct Solaris {}

#[derive(Clone, Copy, Debug)]
pub struct Windows {}

#[derive(Clone, Copy, Debug)]
pub struct VM {}


/// The namespaces of the default spec: ipc, mount, uts, pid and network, and
/// user for a rootless container.
pub open spec fn default_namespace_types(is_rootless: bool) -> Seq<LinuxNamespaceType> {
    let base = seq![
        LinuxNamespaceType::Ipc,
        LinuxNamespaceType::Mount,
        LinuxNamespaceType::Uts,
        LinuxNamespaceType::Pid,
        LinuxNamespaceType::Network,
    ];
    if is_rootless {
        base.push(LinuxNamespaceType::User)
    } else {
        base
    }
}

fn capability_set() -> (r: Option<Vec<String>>)
    ensures
        r matches Some(v) && seq_view(v@) == seq!["CAP_AUDIT_WRITE"@, "CAP_KILL"@, "CAP_NET_BIND_SERVICE"@],
{
    let v = to_strings(&["CAP_AUDIT_WRITE", "CAP_KILL", "CAP_NET_BIND_SERVICE"]);
    assert(seq_view(v@) =~= seq!["CAP_AUDIT_WRITE"@, "CAP_KILL"@, "CAP_NET_BIND_SERVICE"@]);
    Some(v)
}

fn mount(destination: &str, type_: &str, source: &str, options: Option<Vec<String>>) -> (r: Mount)
    ensures
        r.destination@ == destination@,
        r.type_@ == type_@,
        r.source@ == source@,
        r.options == options,
{
    Mount {
        destination: String::from_str(destination),
        type_: String::from_str(type_),
        source: String::from_str(source),
        options,
    }
}

/// The default runtime spec: `echo hello` as root in `rootfs` (read only),
/// the standard mounts, and the default namespaces.
pub open spec fn is_default_spec(r: Spec, is_rootless: bool) -> bool {
    &&& r.oci_version@ == OCI_VERSION@
    &&& r.root.path@ == "rootfs"@
    &&& r.root.readonly == Some(true)
    &&& r.hostname is None
    &&& r.hooks is None
    &&& r.annotations is None
    &&& r.process matches Some(p) && seq_view(p.args@) == seq!["echo"@, "hello"@] && p.cwd@ == "/"@
        && p.user.uid == 0 && p.user.gid == 0 && p.no_new_privileges == Some(true)
    &&& r.mounts@.map_values(|m: Mount| m.destination@) == seq![
        "/proc"@,
        "/dev"@,
        "/dev/pts"@,
        "/dev/shm"@,
        "/dev/mqueue"@,
    ]
    &&& r.linux matches Some(l) && l.namespaces matches Some(ns)
        && ns@.map_values(|n: LinuxNamespace| n.type_) == default_namespace_types(is_rootless)
        && l.seccomp is None
}

impl Spec {
    /// The default runtime spec: `echo hello` as root in `rootfs` (read
    /// only), the standard mounts, and the default namespaces, with a user
    /// namespace when rootless.
    pub fn new(is_rootless: bool) -> (r: Spec)
        ensures
            is_default_spec(r, is_rootless),
    {
        let process = Process {
            terminal: Some(false),
            console_size: None,
            user: User { uid: 0, gid: 0, additional_gids: None, username: None },
            args: to_strings(&["echo", "hello"]),
            env: Some(to_strings(&["PATH=/usr/local/sbin:/usr/local/bin:/usr/sbin:/usr/bin:/sbin:/bin", "TERM=xterm"])),
            cwd: String::from_str("/"),
            command_line: None,
            no_new_privileges: Some(true),
            capabilities: Some(LinuxCapabilities {
                bounding: capability_set(),
                permitted: capability_set(),
                inheritable: capability_set(),
                ambient: capability_set(),
                effective: capability_set(),
            }),
            rlimits: Some(vec![POSIXRlimit { type_: String::from_str("RLIMIT_NOFILE"), hard: 1024, soft: 1024 }]),
            apparmor_profile: None,
            oom_score_adj: None,
            selinux_label: None,
        };
        assert(seq_view(process.args@) =~= seq!["echo"@, "hello"@]);
        let mut mounts: Vec<Mount> = Vec::new();
        mounts.push(mount("/proc", "proc", "proc", None));
        mounts.push(mount("/dev", "tmpfs", "tmpfs", Some(to_strings(&["nosuid", "strictatime", "mode=755", "size=65536k"]))));
        mounts.push(mount(
            "/dev/pts",
            "devpts",
            "devpts",
            Some(to_strings(&["nosuid", "noexec", "newinstance", "ptmxmode=0666", "mode=0620", "gid=5"])),
        ));
        mounts.push(mount("/dev/shm", "tmpfs", "shm", Some(to_strings(&["nosuid", "noexec", "nodev", "mode=1777", "size=65536k"]))));
        mounts.push(mount("/dev/mqueue", "mqueue", "mqueue", Some(to_strings(&["nosuid", "noexec", "nodev", "ro"]))));
        assert(mounts@.map_values(|m: Mount| m.destination@) =~= seq![
            "/proc"@,
            "/dev"@,
            "/dev/pts"@,
            "/dev/shm"@,
            "/dev/mqueue"@,
        ]);
        Spec {
            oci_version: String::from_str(OCI_VERSION),
            root: Root { path: String::from_str("rootfs"), readonly: Some(true) },
            process: Some(process),
            hostname: None,
            mounts,
            linux: Some(Spec::linux(is_rootless)),
            hooks: None,
            annotations: None,
            solaris: None,
            windows: None,
            vm: None,
        }
    }

    /// The Linux part of the default spec.
    fn linux(is_rootless: bool) -> (r: Linux)
        ensures
            r.namespaces matches Some(ns) && ns@.map_values(|n: LinuxNamespace| n.type_) == default_namespace_types(is_rootless),
            r.seccomp is None,
    {
        let mut namespace_types: Vec<LinuxNamespaceType> = Vec::new();
        namespace_types.push(LinuxNamespaceType::Ipc);
        namespace_types.push(LinuxNamespaceType::Mount);
        namespace_types.push(LinuxNamespaceType::Uts);
        namespace_types.push(LinuxNamespaceType::Pid);
        namespace_types.push(LinuxNamespaceType::Network);
        if is_rootless {
            namespace_types.push(LinuxNamespaceType::User);
        }
        assert(namespace_types@ =~= default_namespace_types(is_rootless));
        let mut namespaces: Vec<LinuxNamespace> = Vec::new();
        let mut i: usize = 0;
        while i < namespace_types.len()
            invariant
                i <= namespace_types@.len(),
                namespaces@.len() == i,
                forall|k: int| 0 <= k < i ==> #[trigger] namespaces@[k].type_ == namespace_types@[k],
            decreases namespace_types@.len() - i,
        {
            namespaces.push(LinuxNamespace { type_: namespace_types[i], path: None });
            i = i + 1;
        }
        assert(namespaces@.map_values(|n: LinuxNamespace| n.type_) =~= namespace_types@);
        Linux {
            masked_paths: Some(to_strings(&[
                "/proc/kcore",
                "/proc/latency_stats",
                "/proc/timer_list",
                "/proc/timer_stats",
                "/proc/sched_debug",
                "/sys/firmware",
                "/proc/scsi",
            ])),
            readonly_paths: Some(to_strings(&[
                "/proc/asound",
                "/proc/bus",
                "/proc/fs",
                "/proc/irq",
                "/proc/sys",
                "/proc/sysrq-trigger",
            ])),
            resources: Some(LinuxResources {
                devices: Some(vec![LinuxDeviceCgroup {
                    allow: false,
                    access: Some(String::from_str("rwm")),
                    type_: None,
                    major: None,
                    minor: None,
                }]),
                block_io: None,
                cpu: None,
                memory: None,
                network: None,
                hugepage_limits: None,
                pids: None,
                rdma: None,
            }),
            namespaces: Some(namespaces),
            cgroups_path: None,
            devices: None,
            uid_mappings: None,
            gid_mappings: None,
            intel_rdt: None,
            mount_label: None,
            seccomp: None,
            rootfs_propagation: None,
            sysctl: None,
        }
    }
}

impl Default for Spec {
    /// The default spec for a container that is not rootless.
    fn default() -> (r: Spec)
        ensures
            is_default_spec(r, false),
    {
        Spec::new(false)
    }
}

} // verus!
