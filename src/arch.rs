//! The x86_64 syscall table: entry numbers and canonical names.

use vstd::prelude::*;

use crate::names::str_eq;

verus! {

/// The largest entry number that the table maps.
pub const MAX_SYSCALL_NR: u32 = 450;

/// The canonical name of the x86_64 syscall with entry number `nr`.
pub open spec fn syscall_name_spec(nr: u32) -> Option<Seq<char>> {
    match nr {
        0u32 => Some("read"@),
        1u32 => Some("write"@),
        2u32 => Some("open"@),
        3u32 => Some("close"@),
        4u32 => Some("stat"@),
        5u32 => Some("fstat"@),
        6u32 => Some("lstat"@),
        7u32 => Some("poll"@),
        8u32 => Some("lseek"@),
        9u32 => Some("mmap"@),
        10u32 => Some("mprotect"@),
        11u32 => Some("munmap"@),
        12u32 => Some("brk"@),
        13u32 => Some("rt_sigaction"@),
        14u32 => Some("rt_sigprocmask"@),
        15u32 => Some("rt_sigreturn"@),
        16u32 => Some("ioctl"@),
        17u32 => Some("pread64"@),
        18u32 => Some("pwrite64"@),
        19u32 => Some("readv"@),
        20u32 => Some("writev"@),
        21u32 => Some("access"@),
        22u32 => Some("pipe"@),
        23u32 => Some("select"@),
        24u32 => Some("sched_yield"@),
        25u32 => Some("mremap"@),
        26u32 => Some("msync"@),
        27u32 => Some("mincore"@),
        28u32 => Some("madvise"@),
        29u32 => Some("shmget"@),
        30u32 => Some("shmat"@),
        31u32 => Some("shmctl"@),
        32u32 => Some("dup"@),
        33u32 => Some("dup2"@),
        34u32 => Some("pause"@),
        35u32 => Some("nanosleep"@),
        36u32 => Some("getitimer"@),
        37u32 => Some("alarm"@),
        38u32 => Some("setitimer"@),
        39u32 => Some("getpid"@),
        40u32 => Some("sendfile"@),
        41u32 => Some("socket"@),
        42u32 => Some("connect"@),
        43u32 => Some("accept"@),
        44u32 => Some("sendto"@),
        45u32 => Some("recvfrom"@),
        46u32 => Some("sendmsg"@),
        47u32 => Some("recvmsg"@),
        48u32 => Some("shutdown"@),
        49u32 => Some("bind"@),
        50u32 => Some("listen"@),
        51u32 => Some("getsockname"@),
        52u32 => Some("getpeername"@),
        53u32 => Some("socketpair"@),
        54u32 => Some("setsockopt"@),
        55u32 => Some("getsockopt"@),
        56u32 => Some("clone"@),
        57u32 => Some("fork"@),
        58u32 => Some("vfork"@),
        59u32 => Some("execve"@),
        60u32 => Some("exit"@),
        61u32 => Some("wait4"@),
        62u32 => Some("kill"@),
        63u32 => Some("uname"@),
        64u32 => Some("semget"@),
        65u32 => Some("semop"@),
        66u32 => Some("semctl"@),
        67u32 => Some("shmdt"@),
        68u32 => Some("msgget"@),
        69u32 => Some("msgsnd"@),
        70u32 => Some("msgrcv"@),
        71u32 => Some("msgctl"@),
        72u32 => Some("fcntl"@),
        73u32 => Some("flock"@),
        74u32 => Some("fsync"@),
        75u32 => Some("fdatasync"@),
        76u32 => Some("truncate"@),
        77u32 => Some("ftruncate"@),
        78u32 => Some("getdents"@),
        79u32 => Some("getcwd"@),
        80u32 => Some("chdir"@),
        81u32 => Some("fchdir"@),
        82u32 => Some("rename"@),
        83u32 => Some("mkdir"@),
        84u32 => Some("rmdir"@),
        85u32 => Some("creat"@),
        86u32 => Some("link"@),
        87u32 => Some("unlink"@),
        88u32 => Some("symlink"@),
        89u32 => Some("readlink"@),
        90u32 => Some("chmod"@),
        91u32 => Some("fchmod"@),
        92u32 => Some("chown"@),
        93u32 => Some("fchown"@),
        94u32 => Some("lchown"@),
        95u32 => Some("umask"@),
        96u32 => Some("gettimeofday"@),
        97u32 => Some("getrlimit"@),
        98u32 => Some("getrusage"@),
        99u32 => Some("sysinfo"@),
        100u32 => Some("times"@),
        101u32 => Some("ptrace"@),
        102u32 => Some("getuid"@),
        103u32 => Some("syslog"@),
        104u32 => Some("getgid"@),
        105u32 => Some("setuid"@),
        106u32 => Some("setgid"@),
        107u32 => Some("geteuid"@),
        108u32 => Some("getegid"@),
        109u32 => Some("setpgid"@),
        110u32 => Some("getppid"@),
        111u32 => Some("getpgrp"@),
        112u32 => Some("setsid"@),
        113u32 => Some("setreuid"@),
        114u32 => Some("setregid"@),
        115u32 => Some("getgroups"@),
        116u32 => Some("setgroups"@),
        117u32 => Some("setresuid"@),
        118u32 => Some("getresuid"@),
        119u32 => Some("setresgid"@),
        120u32 => Some("getresgid"@),
        121u32 => Some("getpgid"@),
        122u32 => Some("setfsuid"@),
        123u32 => Some("setfsgid"@),
        124u32 => Some("getsid"@),
        125u32 => Some("capget"@),
        126u32 => Some("capset"@),
        127u32 => Some("rt_sigpending"@),
        128u32 => Some("rt_sigtimedwait"@),
        129u32 => Some("rt_sigqueueinfo"@),
        130u32 => Some("rt_sigsuspend"@),
        131u32 => Some("sigaltstack"@),
        132u32 => Some("utime"@),
        133u32 => Some("mknod"@),
        134u32 => Some("uselib"@),
        135u32 => Some("personality"@),
        136u32 => Some("ustat"@),
        137u32 => Some("statfs"@),
        138u32 => Some("fstatfs"@),
        139u32 => Some("sysfs"@),
        140u32 => Some("getpriority"@),
        141u32 => Some("setpriority"@),
        142u32 => Some("sched_setparam"@),
        143u32 => Some("sched_getparam"@),
        144u32 => Some("sched_setscheduler"@),
        145u32 => Some("sched_getscheduler"@),
        146u32 => Some("sched_get_priority_max"@),
        147u32 => Some("sched_get_priority_min"@),
        148u32 => Some("sched_rr_get_interval"@),
        149u32 => Some("mlock"@),
        150u32 => Some("munlock"@),
        151u32 => Some("mlockall"@),
        152u32 => Some("munlockall"@),
        153u32 => Some("vhangup"@),
        154u32 => Some("modify_ldt"@),
        155u32 => Some("pivot_root"@),
        156u32 => Some("_sysctl"@),
        157u32 => Some("prctl"@),
        158u32 => Some("arch_prctl"@),
        159u32 => Some("adjtimex"@),
        160u32 => Some("setrlimit"@),
        161u32 => Some("chroot"@),
        162u32 => Some("sync"@),
        163u32 => Some("acct"@),
        164u32 => Some("settimeofday"@),
        165u32 => Some("mount"@),
        166u32 => Some("umount2"@),
        167u32 => Some("swapon"@),
        168u32 => Some("swapoff"@),
        169u32 => Some("reboot"@),
        170u32 => Some("sethostname"@),
        171u32 => Some("setdomainname"@),
        172u32 => Some("iopl"@),
        173u32 => Some("ioperm"@),
        174u32 => Some("create_module"@),
        175u32 => Some("init_module"@),
        176u32 => Some("delete_module"@),
        177u32 => Some("get_kernel_syms"@),
        178u32 => Some("query_module"@),
        179u32 => Some("quotactl"@),
        180u32 => Some("nfsservctl"@),
        181u32 => Some("getpmsg"@),
        182u32 => Some("putpmsg"@),
        183u32 => Some("afs_syscall"@),
        184u32 => Some("tuxcall"@),
        185u32 => Some("security"@),
        186u32 => Some("gettid"@),
        187u32 => Some("readahead"@),
        188u32 => Some("setxattr"@),
        189u32 => Some("lsetxattr"@),
        190u32 => Some("fsetxattr"@),
        191u32 => Some("getxattr"@),
        192u32 => Some("lgetxattr"@),
        193u32 => Some("fgetxattr"@),
        194u32 => Some("listxattr"@),
        195u32 => Some("llistxattr"@),
        196u32 => Some("flistxattr"@),
        197u32 => Some("removexattr"@),
        198u32 => Some("lremovexattr"@),
        199u32 => Some("fremovexattr"@),
        200u32 => Some("tkill"@),
        201u32 => Some("time"@),
        202u32 => Some("futex"@),
        203u32 => Some("sched_setaffinity"@),
        204u32 => Some("sched_getaffinity"@),
        205u32 => Some("set_thread_area"@),
        206u32 => Some("io_setup"@),
        207u32 => Some("io_destroy"@),
        208u32 => Some("io_getevents"@),
        209u32 => Some("io_submit"@),
        210u32 => Some("io_cancel"@),
        211u32 => Some("get_thread_area"@),
        212u32 => Some("lookup_dcookie"@),
        213u32 => Some("epoll_create"@),
        214u32 => Some("epoll_ctl_old"@),
        215u32 => Some("epoll_wait_old"@),
        216u32 => Some("remap_file_pages"@),
        217u32 => Some("getdents64"@),
        218u32 => Some("set_tid_address"@),
        219u32 => Some("restart_syscall"@),
        220u32 => Some("semtimedop"@),
        221u32 => Some("fadvise64"@),
        222u32 => Some("timer_create"@),
        223u32 => Some("timer_settime"@),
        224u32 => Some("timer_gettime"@),
        225u32 => Some("timer_getoverrun"@),
        226u32 => Some("timer_delete"@),
        227u32 => Some("clock_settime"@),
        228u32 => Some("clock_gettime"@),
        229u32 => Some("clock_getres"@),
        230u32 => Some("clock_nanosleep"@),
        231u32 => Some("exit_group"@),
        232u32 => Some("epoll_wait"@),
        233u32 => Some("epoll_ctl"@),
        234u32 => Some("tgkill"@),
        235u32 => Some("utimes"@),
        236u32 => Some("vserver"@),
        237u32 => Some("mbind"@),
        238u32 => Some("set_mempolicy"@),
        239u32 => Some("get_mempolicy"@),
        240u32 => Some("mq_open"@),
        241u32 => Some("mq_unlink"@),
        242u32 => Some("mq_timedsend"@),
        243u32 => Some("mq_timedreceive"@),
        244u32 => Some("mq_notify"@),
        245u32 => Some("mq_getsetattr"@),
        246u32 => Some("kexec_load"@),
        247u32 => Some("waitid"@),
        248u32 => Some("add_key"@),
        249u32 => Some("request_key"@),
        250u32 => Some("keyctl"@),
        251u32 => Some("ioprio_set"@),
        252u32 => Some("ioprio_get"@),
        253u32 => Some("inotify_init"@),
        254u32 => Some("inotify_add_watch"@),
        255u32 => Some("inotify_rm_watch"@),
        256u32 => Some("migrate_pages"@),
        257u32 => Some("openat"@),
        258u32 => Some("mkdirat"@),
        259u32 => Some("mknodat"@),
        260u32 => Some("fchownat"@),
        261u32 => Some("futimesat"@),
        262u32 => Some("newfstatat"@),
        263u32 => Some("unlinkat"@),
        264u32 => Some("renameat"@),
        265u32 => Some("linkat"@),
        266u32 => Some("symlinkat"@),
        267u32 => Some("readlinkat"@),
        268u32 => Some("fchmodat"@),
        269u32 => Some("faccessat"@),
        270u32 => Some("pselect6"@),
        271u32 => Some("ppoll"@),
        272u32 => Some("unshare"@),
        273u32 => Some("set_robust_list"@),
        274u32 => Some("get_robust_list"@),
        275u32 => Some("splice"@),
        276u32 => Some("tee"@),
        277u32 => Some("sync_file_range"@),
        278u32 => Some("vmsplice"@),
        279u32 => Some("move_pages"@),
        280u32 => Some("utimensat"@),
        281u32 => Some("epoll_pwait"@),
        282u32 => Some("signalfd"@),
        283u32 => Some("timerfd_create"@),
        284u32 => Some("eventfd"@),
        285u32 => Some("fallocate"@),
        286u32 => Some("timerfd_settime"@),
        287u32 => Some("timerfd_gettime"@),
        288u32 => Some("accept4"@),
        289u32 => Some("signalfd4"@),
        290u32 => Some("eventfd2"@),
        291u32 => Some("epoll_create1"@),
        292u32 => Some("dup3"@),
        293u32 => Some("pipe2"@),
        294u32 => Some("inotify_init1"@),
        295u32 => Some("preadv"@),
        296u32 => Some("pwritev"@),
        297u32 => Some("rt_tgsigqueueinfo"@),
        298u32 => Some("perf_event_open"@),
        299u32 => Some("recvmmsg"@),
        300u32 => Some("fanotify_init"@),
        301u32 => Some("fanotify_mark"@),
        302u32 => Some("prlimit64"@),
        303u32 => Some("name_to_handle_at"@),
        304u32 => Some("open_by_handle_at"@),
        305u32 => Some("clock_adjtime"@),
        306u32 => Some("syncfs"@),
        307u32 => Some("sendmmsg"@),
        308u32 => Some("setns"@),
        309u32 => Some("getcpu"@),
        310u32 => Some("process_vm_readv"@),
        311u32 => Some("process_vm_writev"@),
        312u32 => Some("kcmp"@),
        313u32 => Some("finit_module"@),
        314u32 => Some("sched_setattr"@),
        315u32 => Some("sched_getattr"@),
        316u32 => Some("renameat2"@),
        317u32 => Some("seccomp"@),
        318u32 => Some("getrandom"@),
        319u32 => Some("memfd_create"@),
        320u32 => Some("kexec_file_load"@),
        321u32 => Some("bpf"@),
        322u32 => Some("execveat"@),
        323u32 => Some("userfaultfd"@),
        324u32 => Some("membarrier"@),
        325u32 => Some("mlock2"@),
        326u32 => Some("copy_file_range"@),
        327u32 => Some("preadv2"@),
        328u32 => Some("pwritev2"@),
        329u32 => Some("pkey_mprotect"@),
        330u32 => Some("pkey_alloc"@),
        331u32 => Some("pkey_free"@),
        332u32 => Some("statx"@),
        333u32 => Some("io_pgetevents"@),
        334u32 => Some("rseq"@),
        424u32 => Some("pidfd_send_signal"@),
        425u32 => Some("io_uring_setup"@),
        426u32 => Some("io_uring_enter"@),
        427u32 => Some("io_uring_register"@),
        428u32 => Some("open_tree"@),
        429u32 => Some("move_mount"@),
        430u32 => Some("fsopen"@),
        431u32 => Some("fsconfig"@),
        432u32 => Some("fsmount"@),
        433u32 => Some("fspick"@),
        434u32 => Some("pidfd_open"@),
        435u32 => Some("clone3"@),
        436u32 => Some("close_range"@),
        437u32 => Some("openat2"@),
        438u32 => Some("pidfd_getfd"@),
        439u32 => Some("faccessat2"@),
        440u32 => Some("process_madvise"@),
        441u32 => Some("epoll_pwait2"@),
        442u32 => Some("mount_setattr"@),
        443u32 => Some("quotactl_fd"@),
        444u32 => Some("landlock_create_ruleset"@),
        445u32 => Some("landlock_add_rule"@),
        446u32 => Some("landlock_restrict_self"@),
        447u32 => Some("memfd_secret"@),
        448u32 => Some("process_mrelease"@),
        449u32 => Some("futex_waitv"@),
        450u32 => Some("set_mempolicy_home_node"@),
        _ => None,
    }
}

/// Whether `name` is the canonical name of some x86_64 syscall.
pub open spec fn is_syscall_spec(name: Seq<char>) -> bool {
    exists|nr: u32| #[trigger] syscall_name_spec(nr) == Some(name)
}

/// The canonical name of the syscall with entry number `nr`.
pub fn syscall_name(nr: u32) -> (r: Option<&'static str>)
    ensures
        match r {
            Some(s) => syscall_name_spec(nr) == Some(s@),
            None => syscall_name_spec(nr) is None,
        },
{
    match nr {
        0u32 => Some("read"),
        1u32 => Some("write"),
        2u32 => Some("open"),
        3u32 => Some("close"),
        4u32 => Some("stat"),
        5u32 => Some("fstat"),
        6u32 => Some("lstat"),
        7u32 => Some("poll"),
        8u32 => Some("lseek"),
        9u32 => Some("mmap"),
        10u32 => Some("mprotect"),
        11u32 => Some("munmap"),
        12u32 => Some("brk"),
        13u32 => Some("rt_sigaction"),
        14u32 => Some("rt_sigprocmask"),
        15u32 => Some("rt_sigreturn"),
        16u32 => Some("ioctl"),
        17u32 => Some("pread64"),
        18u32 => Some("pwrite64"),
        19u32 => Some("readv"),
        20u32 => Some("writev"),
        21u32 => Some("access"),
        22u32 => Some("pipe"),
        23u32 => Some("select"),
        24u32 => Some("sched_yield"),
        25u32 => Some("mremap"),
        26u32 => Some("msync"),
        27u32 => Some("mincore"),
        28u32 => Some("madvise"),
        29u32 => Some("shmget"),
        30u32 => Some("shmat"),
        31u32 => Some("shmctl"),
        32u32 => Some("dup"),
        33u32 => Some("dup2"),
        34u32 => Some("pause"),
        35u32 => Some("nanosleep"),
        36u32 => Some("getitimer"),
        37u32 => Some("alarm"),
        38u32 => Some("setitimer"),
        39u32 => Some("getpid"),
        40u32 => Some("sendfile"),
        41u32 => Some("socket"),
        42u32 => Some("connect"),
        43u32 => Some("accept"),
        44u32 => Some("sendto"),
        45u32 => Some("recvfrom"),
        46u32 => Some("sendmsg"),
        47u32 => Some("recvmsg"),
        48u32 => Some("shutdown"),
        49u32 => Some("bind"),
        50u32 => Some("listen"),
        51u32 => Some("getsockname"),
        52u32 => Some("getpeername"),
        53u32 => Some("socketpair"),
        54u32 => Some("setsockopt"),
        55u32 => Some("getsockopt"),
        56u32 => Some("clone"),
        57u32 => Some("fork"),
        58u32 => Some("vfork"),
        59u32 => Some("execve"),
        60u32 => Some("exit"),
        61u32 => Some("wait4"),
        62u32 => Some("kill"),
        63u32 => Some("uname"),
        64u32 => Some("semget"),
        65u32 => Some("semop"),
        66u32 => Some("semctl"),
        67u32 => Some("shmdt"),
        68u32 => Some("msgget"),
        69u32 => Some("msgsnd"),
        70u32 => Some("msgrcv"),
        71u32 => Some("msgctl"),
        72u32 => Some("fcntl"),
        73u32 => Some("flock"),
        74u32 => Some("fsync"),
        75u32 => Some("fdatasync"),
        76u32 => Some("truncate"),
        77u32 => Some("ftruncate"),
        78u32 => Some("getdents"),
        79u32 => Some("getcwd"),
        80u32 => Some("chdir"),
        81u32 => Some("fchdir"),
        82u32 => Some("rename"),
        83u32 => Some("mkdir"),
        84u32 => Some("rmdir"),
        85u32 => Some("creat"),
        86u32 => Some("link"),
        87u32 => Some("unlink"),
        88u32 => Some("symlink"),
        89u32 => Some("readlink"),
        90u32 => Some("chmod"),
        91u32 => Some("fchmod"),
        92u32 => Some("chown"),
        93u32 => Some("fchown"),
        94u32 => Some("lchown"),
        95u32 => Some("umask"),
        96u32 => Some("gettimeofday"),
        97u32 => Some("getrlimit"),
        98u32 => Some("getrusage"),
        99u32 => Some("sysinfo"),
        100u32 => Some("times"),
        101u32 => Some("ptrace"),
        102u32 => Some("getuid"),
        103u32 => Some("syslog"),
        104u32 => Some("getgid"),
        105u32 => Some("setuid"),
        106u32 => Some("setgid"),
        107u32 => Some("geteuid"),
        108u32 => Some("getegid"),
        109u32 => Some("setpgid"),
        110u32 => Some("getppid"),
        111u32 => Some("getpgrp"),
        112u32 => Some("setsid"),
        113u32 => Some("setreuid"),
        114u32 => Some("setregid"),
        115u32 => Some("getgroups"),
        116u32 => Some("setgroups"),
        117u32 => Some("setresuid"),
        118u32 => Some("getresuid"),
        119u32 => Some("setresgid"),
        120u32 => Some("getresgid"),
        121u32 => Some("getpgid"),
        122u32 => Some("setfsuid"),
        123u32 => Some("setfsgid"),
        124u32 => Some("getsid"),
        125u32 => Some("capget"),
        126u32 => Some("capset"),
        127u32 => Some("rt_sigpending"),
        128u32 => Some("rt_sigtimedwait"),
        129u32 => Some("rt_sigqueueinfo"),
        130u32 => Some("rt_sigsuspend"),
        131u32 => Some("sigaltstack"),
        132u32 => Some("utime"),
        133u32 => Some("mknod"),
        134u32 => Some("uselib"),
        135u32 => Some("personality"),
        136u32 => Some("ustat"),
        137u32 => Some("statfs"),
        138u32 => Some("fstatfs"),
        139u32 => Some("sysfs"),
        140u32 => Some("getpriority"),
        141u32 => Some("setpriority"),
        142u32 => Some("sched_setparam"),
        143u32 => Some("sched_getparam"),
        144u32 => Some("sched_setscheduler"),
        145u32 => Some("sched_getscheduler"),
        146u32 => Some("sched_get_priority_max"),
        147u32 => Some("sched_get_priority_min"),
        148u32 => Some("sched_rr_get_interval"),
        149u32 => Some("mlock"),
        150u32 => Some("munlock"),
        151u32 => Some("mlockall"),
        152u32 => Some("munlockall"),
        153u32 => Some("vhangup"),
        154u32 => Some("modify_ldt"),
        155u32 => Some("pivot_root"),
        156u32 => Some("_sysctl"),
        157u32 => Some("prctl"),
        158u32 => Some("arch_prctl"),
        159u32 => Some("adjtimex"),
        160u32 => Some("setrlimit"),
        161u32 => Some("chroot"),
        162u32 => Some("sync"),
        163u32 => Some("acct"),
        164u32 => Some("settimeofday"),
        165u32 => Some("mount"),
        166u32 => Some("umount2"),
        167u32 => Some("swapon"),
        168u32 => Some("swapoff"),
        169u32 => Some("reboot"),
        170u32 => Some("sethostname"),
        171u32 => Some("setdomainname"),
        172u32 => Some("iopl"),
        173u32 => Some("ioperm"),
        174u32 => Some("create_module"),
        175u32 => Some("init_module"),
        176u32 => Some("delete_module"),
        177u32 => Some("get_kernel_syms"),
        178u32 => Some("query_module"),
        179u32 => Some("quotactl"),
        180u32 => Some("nfsservctl"),
        181u32 => Some("getpmsg"),
        182u32 => Some("putpmsg"),
        183u32 => Some("afs_syscall"),
        184u32 => Some("tuxcall"),
        185u32 => Some("security"),
        186u32 => Some("gettid"),
        187u32 => Some("readahead"),
        188u32 => Some("setxattr"),
        189u32 => Some("lsetxattr"),
        190u32 => Some("fsetxattr"),
        191u32 => Some("getxattr"),
        192u32 => Some("lgetxattr"),
        193u32 => Some("fgetxattr"),
        194u32 => Some("listxattr"),
        195u32 => Some("llistxattr"),
        196u32 => Some("flistxattr"),
        197u32 => Some("removexattr"),
        198u32 => Some("lremovexattr"),
        199u32 => Some("fremovexattr"),
        200u32 => Some("tkill"),
        201u32 => Some("time"),
        202u32 => Some("futex"),
        203u32 => Some("sched_setaffinity"),
        204u32 => Some("sched_getaffinity"),
        205u32 => Some("set_thread_area"),
        206u32 => Some("io_setup"),
        207u32 => Some("io_destroy"),
        208u32 => Some("io_getevents"),
        209u32 => Some("io_submit"),
        210u32 => Some("io_cancel"),
        211u32 => Some("get_thread_area"),
        212u32 => Some("lookup_dcookie"),
        213u32 => Some("epoll_create"),
        214u32 => Some("epoll_ctl_old"),
        215u32 => Some("epoll_wait_old"),
        216u32 => Some("remap_file_pages"),
        217u32 => Some("getdents64"),
        218u32 => Some("set_tid_address"),
        219u32 => Some("restart_syscall"),
        220u32 => Some("semtimedop"),
        221u32 => Some("fadvise64"),
        222u32 => Some("timer_create"),
        223u32 => Some("timer_settime"),
        224u32 => Some("timer_gettime"),
        225u32 => Some("timer_getoverrun"),
        226u32 => Some("timer_delete"),
        227u32 => Some("clock_settime"),
        228u32 => Some("clock_gettime"),
        229u32 => Some("clock_getres"),
        230u32 => Some("clock_nanosleep"),
        231u32 => Some("exit_group"),
        232u32 => Some("epoll_wait"),
        233u32 => Some("epoll_ctl"),
        234u32 => Some("tgkill"),
        235u32 => Some("utimes"),
        236u32 => Some("vserver"),
        237u32 => Some("mbind"),
        238u32 => Some("set_mempolicy"),
        239u32 => Some("get_mempolicy"),
        240u32 => Some("mq_open"),
        241u32 => Some("mq_unlink"),
        242u32 => Some("mq_timedsend"),
        243u32 => Some("mq_timedreceive"),
        244u32 => Some("mq_notify"),
        245u32 => Some("mq_getsetattr"),
        246u32 => Some("kexec_load"),
        247u32 => Some("waitid"),
        248u32 => Some("add_key"),
        249u32 => Some("request_key"),
        250u32 => Some("keyctl"),
        251u32 => Some("ioprio_set"),
        252u32 => Some("ioprio_get"),
        253u32 => Some("inotify_init"),
        254u32 => Some("inotify_add_watch"),
        255u32 => Some("inotify_rm_watch"),
        256u32 => Some("migrate_pages"),
        257u32 => Some("openat"),
        258u32 => Some("mkdirat"),
        259u32 => Some("mknodat"),
        260u32 => Some("fchownat"),
        261u32 => Some("futimesat"),
        262u32 => Some("newfstatat"),
        263u32 => Some("unlinkat"),
        264u32 => Some("renameat"),
        265u32 => Some("linkat"),
        266u32 => Some("symlinkat"),
        267u32 => Some("readlinkat"),
        268u32 => Some("fchmodat"),
        269u32 => Some("faccessat"),
        270u32 => Some("pselect6"),
        271u32 => Some("ppoll"),
        272u32 => Some("unshare"),
        273u32 => Some("set_robust_list"),
        274u32 => Some("get_robust_list"),
        275u32 => Some("splice"),
        276u32 => Some("tee"),
        277u32 => Some("sync_file_range"),
        278u32 => Some("vmsplice"),
        279u32 => Some("move_pages"),
        280u32 => Some("utimensat"),
        281u32 => Some("epoll_pwait"),
        282u32 => Some("signalfd"),
        283u32 => Some("timerfd_create"),
        284u32 => Some("eventfd"),
        285u32 => Some("fallocate"),
        286u32 => Some("timerfd_settime"),
        287u32 => Some("timerfd_gettime"),
        288u32 => Some("accept4"),
        289u32 => Some("signalfd4"),
        290u32 => Some("eventfd2"),
        291u32 => Some("epoll_create1"),
        292u32 => Some("dup3"),
        293u32 => Some("pipe2"),
        294u32 => Some("inotify_init1"),
        295u32 => Some("preadv"),
        296u32 => Some("pwritev"),
        297u32 => Some("rt_tgsigqueueinfo"),
        298u32 => Some("perf_event_open"),
        299u32 => Some("recvmmsg"),
        300u32 => Some("fanotify_init"),
        301u32 => Some("fanotify_mark"),
        302u32 => Some("prlimit64"),
        303u32 => Some("name_to_handle_at"),
        304u32 => Some("open_by_handle_at"),
        305u32 => Some("clock_adjtime"),
        306u32 => Some("syncfs"),
        307u32 => Some("sendmmsg"),
        308u32 => Some("setns"),
        309u32 => Some("getcpu"),
        310u32 => Some("process_vm_readv"),
        311u32 => Some("process_vm_writev"),
        312u32 => Some("kcmp"),
        313u32 => Some("finit_module"),
        314u32 => Some("sched_setattr"),
        315u32 => Some("sched_getattr"),
        316u32 => Some("renameat2"),
        317u32 => Some("seccomp"),
        318u32 => Some("getrandom"),
        319u32 => Some("memfd_create"),
        320u32 => Some("kexec_file_load"),
        321u32 => Some("bpf"),
        322u32 => Some("execveat"),
        323u32 => Some("userfaultfd"),
        324u32 => Some("membarrier"),
        325u32 => Some("mlock2"),
        326u32 => Some("copy_file_range"),
        327u32 => Some("preadv2"),
        328u32 => Some("pwritev2"),
        329u32 => Some("pkey_mprotect"),
        330u32 => Some("pkey_alloc"),
        331u32 => Some("pkey_free"),
        332u32 => Some("statx"),
        333u32 => Some("io_pgetevents"),
        334u32 => Some("rseq"),
        424u32 => Some("pidfd_send_signal"),
        425u32 => Some("io_uring_setup"),
        426u32 => Some("io_uring_enter"),
        427u32 => Some("io_uring_register"),
        428u32 => Some("open_tree"),
        429u32 => Some("move_mount"),
        430u32 => Some("fsopen"),
        431u32 => Some("fsconfig"),
        432u32 => Some("fsmount"),
        433u32 => Some("fspick"),
        434u32 => Some("pidfd_open"),
        435u32 => Some("clone3"),
        436u32 => Some("close_range"),
        437u32 => Some("openat2"),
        438u32 => Some("pidfd_getfd"),
        439u32 => Some("faccessat2"),
        440u32 => Some("process_madvise"),
        441u32 => Some("epoll_pwait2"),
        442u32 => Some("mount_setattr"),
        443u32 => Some("quotactl_fd"),
        444u32 => Some("landlock_create_ruleset"),
        445u32 => Some("landlock_add_rule"),
        446u32 => Some("landlock_restrict_self"),
        447u32 => Some("memfd_secret"),
        448u32 => Some("process_mrelease"),
        449u32 => Some("futex_waitv"),
        450u32 => Some("set_mempolicy_home_node"),
        _ => None,
    }
}

proof fn lemma_no_name_above_max(nr: u32)
    requires
        nr > MAX_SYSCALL_NR,
    ensures
        syscall_name_spec(nr) is None,
{
}

/// Whether `name` is the canonical name of some x86_64 syscall.
pub fn is_syscall(name: &str) -> (r: bool)
    ensures
        r == is_syscall_spec(name@),
{
    let mut nr: u32 = 0;
    while nr <= MAX_SYSCALL_NR
        invariant
            nr <= MAX_SYSCALL_NR + 1,
            forall|k: u32| k < nr ==> #[trigger] syscall_name_spec(k) != Some(name@),
        decreases MAX_SYSCALL_NR + 1 - nr,
    {
        match syscall_name(nr) {
            Some(s) => {
                if str_eq(s, name) {
                    return true;
                }
            },
            None => {},
        }
        nr = nr + 1;
    }
    proof {
        assert forall|k: u32| #[trigger] syscall_name_spec(k) != Some(name@) by {
            if k > MAX_SYSCALL_NR {
                lemma_no_name_above_max(k);
            }
        }
    }
    false
}

} // verus!
