//! The command line that starts a loader in its sandbox, the memory that
//! the loader may use, and the system calls that it may make.

use vstd::prelude::*;
use crate::api::SandboxMechanism;
use crate::text::{
    decimal,
    find_char,
    has_prefix,
    i32_to_string,
    lemma_views_concat,
    parse_u64,
    parsed_u64,
    position_not,
    position_of,
    push_str,
    push_string,
    signed_decimal,
    skip_char,
    starts_with,
    to_chars,
    u64_to_string,
    views,
};

verus! {

/// What happens to a system call that the filter meets.
#[derive(Debug, Clone, Copy, PartialEq, Eq, Structural)]
pub enum FilterAction {
    /// The call goes through.
    Allow,
    /// The process gets the signal for a bad system call.
    Trap,
}

/// The names of the system calls that a loader may make, in four parts:
/// what it takes to map memory, to read files and sockets that are open,
/// and to start threads. No call is on the list that reaches into another
/// process, makes or enters a namespace, or handles keys of the kernel.
pub open spec fn allow_list() -> Seq<Seq<char>> {
    allow_list_first() + allow_list_second() + allow_list_third() + allow_list_fourth()
}

/// The first quarter of the list: access to fadvise64_64.
pub open spec fn allow_list_first() -> Seq<Seq<char>> {
    seq![
        "access"@,
        "arch_prctl"@,
        "brk"@,
        "capget"@,
        "capset"@,
        "chdir"@,
        "clock_getres"@,
        "clock_gettime"@,
        "clock_gettime64"@,
        "clone"@,
        "clone3"@,
        "close"@,
        "connect"@,
        "creat"@,
        "dup"@,
        "epoll_create"@,
        "epoll_create1"@,
        "epoll_ctl"@,
        "epoll_pwait"@,
        "epoll_wait"@,
        "eventfd"@,
        "eventfd2"@,
        "execve"@,
        "exit"@,
        "faccessat"@,
        "fadvise64"@,
        "fadvise64_64"@,
    ]
}

fn allowed_syscalls_first(names: &mut Vec<String>)
    ensures
        views(final(names)@) == views(old(names)@) + allow_list_first(),
{
    let ghost before = views(names@);
    let mut part: Vec<String> = Vec::new();
    assert(views(part@) =~= Seq::<Seq<char>>::empty());
    push_str(&mut part, "access");
    push_str(&mut part, "arch_prctl");
    push_str(&mut part, "brk");
    push_str(&mut part, "capget");
    push_str(&mut part, "capset");
    push_str(&mut part, "chdir");
    push_str(&mut part, "clock_getres");
    push_str(&mut part, "clock_gettime");
    push_str(&mut part, "clock_gettime64");
    push_str(&mut part, "clone");
    push_str(&mut part, "clone3");
    push_str(&mut part, "close");
    push_str(&mut part, "connect");
    push_str(&mut part, "creat");
    push_str(&mut part, "dup");
    push_str(&mut part, "epoll_create");
    push_str(&mut part, "epoll_create1");
    push_str(&mut part, "epoll_ctl");
    push_str(&mut part, "epoll_pwait");
    push_str(&mut part, "epoll_wait");
    push_str(&mut part, "eventfd");
    push_str(&mut part, "eventfd2");
    push_str(&mut part, "execve");
    push_str(&mut part, "exit");
    push_str(&mut part, "faccessat");
    push_str(&mut part, "fadvise64");
    push_str(&mut part, "fadvise64_64");
    assert(views(part@) == allow_list_first());
    proof {
        lemma_views_concat(names@, part@);
    }
    names.append(&mut part);
}

/// The second quarter of the list: fchdir to ioctl.
pub open spec fn allow_list_second() -> Seq<Seq<char>> {
    seq![
        "fchdir"@,
        "fcntl"@,
        "fcntl"@,
        "fcntl64"@,
        "fstat"@,
        "fstatfs"@,
        "fstatfs64"@,
        "ftruncate"@,
        "futex"@,
        "futex_time64"@,
        "get_mempolicy"@,
        "getcwd"@,
        "getdents64"@,
        "getegid"@,
        "getegid32"@,
        "geteuid"@,
        "geteuid32"@,
        "getgid"@,
        "getgid32"@,
        "getpid"@,
        "getppid"@,
        "getrandom"@,
        "gettid"@,
        "gettimeofday"@,
        "getuid"@,
        "getuid32"@,
        "ioctl"@,
    ]
}

fn allowed_syscalls_second(names: &mut Vec<String>)
    ensures
        views(final(names)@) == views(old(names)@) + allow_list_second(),
{
    let ghost before = views(names@);
    let mut part: Vec<String> = Vec::new();
    assert(views(part@) =~= Seq::<Seq<char>>::empty());
    push_str(&mut part, "fchdir");
    push_str(&mut part, "fcntl");
    push_str(&mut part, "fcntl");
    push_str(&mut part, "fcntl64");
    push_str(&mut part, "fstat");
    push_str(&mut part, "fstatfs");
    push_str(&mut part, "fstatfs64");
    push_str(&mut part, "ftruncate");
    push_str(&mut part, "futex");
    push_str(&mut part, "futex_time64");
    push_str(&mut part, "get_mempolicy");
    push_str(&mut part, "getcwd");
    push_str(&mut part, "getdents64");
    push_str(&mut part, "getegid");
    push_str(&mut part, "getegid32");
    push_str(&mut part, "geteuid");
    push_str(&mut part, "geteuid32");
    push_str(&mut part, "getgid");
    push_str(&mut part, "getgid32");
    push_str(&mut part, "getpid");
    push_str(&mut part, "getppid");
    push_str(&mut part, "getrandom");
    push_str(&mut part, "gettid");
    push_str(&mut part, "gettimeofday");
    push_str(&mut part, "getuid");
    push_str(&mut part, "getuid32");
    push_str(&mut part, "ioctl");
    assert(views(part@) == allow_list_second());
    proof {
        lemma_views_concat(names@, part@);
    }
    names.append(&mut part);
}

/// The third quarter of the list: madvise to rt_sigaction.
pub open spec fn allow_list_third() -> Seq<Seq<char>> {
    seq![
        "madvise"@,
        "membarrier"@,
        "memfd_create"@,
        "mmap"@,
        "mmap2"@,
        "mprotect"@,
        "mremap"@,
        "munmap"@,
        "newfstatat"@,
        "open"@,
        "openat"@,
        "pipe"@,
        "pipe2"@,
        "pivot_root"@,
        "poll"@,
        "ppoll"@,
        "ppoll_time64"@,
        "prctl"@,
        "pread64"@,
        "prlimit64"@,
        "read"@,
        "readlink"@,
        "readlinkat"@,
        "recvfrom"@,
        "recvmsg"@,
        "rseq"@,
        "rt_sigaction"@,
    ]
}

fn allowed_syscalls_third(names: &mut Vec<String>)
    ensures
        views(final(names)@) == views(old(names)@) + allow_list_third(),
{
    let ghost before = views(names@);
    let mut part: Vec<String> = Vec::new();
    assert(views(part@) =~= Seq::<Seq<char>>::empty());
    push_str(&mut part, "madvise");
    push_str(&mut part, "membarrier");
    push_str(&mut part, "memfd_create");
    push_str(&mut part, "mmap");
    push_str(&mut part, "mmap2");
    push_str(&mut part, "mprotect");
    push_str(&mut part, "mremap");
    push_str(&mut part, "munmap");
    push_str(&mut part, "newfstatat");
    push_str(&mut part, "open");
    push_str(&mut part, "openat");
    push_str(&mut part, "pipe");
    push_str(&mut part, "pipe2");
    push_str(&mut part, "pivot_root");
    push_str(&mut part, "poll");
    push_str(&mut part, "ppoll");
    push_str(&mut part, "ppoll_time64");
    push_str(&mut part, "prctl");
    push_str(&mut part, "pread64");
    push_str(&mut part, "prlimit64");
    push_str(&mut part, "read");
    push_str(&mut part, "readlink");
    push_str(&mut part, "readlinkat");
    push_str(&mut part, "recvfrom");
    push_str(&mut part, "recvmsg");
    push_str(&mut part, "rseq");
    push_str(&mut part, "rt_sigaction");
    assert(views(part@) == allow_list_third());
    proof {
        lemma_views_concat(names@, part@);
    }
    names.append(&mut part);
}

/// The fourth quarter of the list: rt_sigprocmask to write.
pub open spec fn allow_list_fourth() -> Seq<Seq<char>> {
    seq![
        "rt_sigprocmask"@,
        "rt_sigreturn"@,
        "sched_getaffinity"@,
        "sched_yield"@,
        "sendmsg"@,
        "sendto"@,
        "set_mempolicy"@,
        "set_mempolicy"@,
        "set_robust_list"@,
        "set_thread_area"@,
        "set_tid_address"@,
        "sigaltstack"@,
        "signalfd4"@,
        "socket"@,
        "socketcall"@,
        "stat"@,
        "statfs"@,
        "statfs64"@,
        "statx"@,
        "sysinfo"@,
        "timerfd_create"@,
        "timerfd_settime"@,
        "timerfd_settime64"@,
        "ugetrlimit"@,
        "wait4"@,
        "write"@,
    ]
}

fn allowed_syscalls_fourth(names: &mut Vec<String>)
    ensures
        views(final(names)@) == views(old(names)@) + allow_list_fourth(),
{
    let ghost before = views(names@);
    let mut part: Vec<String> = Vec::new();
    assert(views(part@) =~= Seq::<Seq<char>>::empty());
    push_str(&mut part, "rt_sigprocmask");
    push_str(&mut part, "rt_sigreturn");
    push_str(&mut part, "sched_getaffinity");
    push_str(&mut part, "sched_yield");
    push_str(&mut part, "sendmsg");
    push_str(&mut part, "sendto");
    push_str(&mut part, "set_mempolicy");
    push_str(&mut part, "set_mempolicy");
    push_str(&mut part, "set_robust_list");
    push_str(&mut part, "set_thread_area");
    push_str(&mut part, "set_tid_address");
    push_str(&mut part, "sigaltstack");
    push_str(&mut part, "signalfd4");
    push_str(&mut part, "socket");
    push_str(&mut part, "socketcall");
    push_str(&mut part, "stat");
    push_str(&mut part, "statfs");
    push_str(&mut part, "statfs64");
    push_str(&mut part, "statx");
    push_str(&mut part, "sysinfo");
    push_str(&mut part, "timerfd_create");
    push_str(&mut part, "timerfd_settime");
    push_str(&mut part, "timerfd_settime64");
    push_str(&mut part, "ugetrlimit");
    push_str(&mut part, "wait4");
    push_str(&mut part, "write");
    assert(views(part@) == allow_list_fourth());
    proof {
        lemma_views_concat(names@, part@);
    }
    names.append(&mut part);
}

/// System calls that no loader may make: those that reach into another
/// process, that make or enter a namespace, and that handle keys of the
/// kernel.
pub open spec fn refused_calls() -> Seq<Seq<char>> {
    seq![
        "ptrace"@,
        "process_vm_readv"@,
        "process_vm_writev"@,
        "setns"@,
        "unshare"@,
        "keyctl"@,
        "add_key"@,
        "request_key"@,
    ]
}

/// The length of a name and its first three characters.
pub open spec fn name_key(name: Seq<char>) -> (nat, char, char, char) {
    (name.len(), name[0], name[1], name[2])
}

/// Whether the key is the key of a refused call.
pub open spec fn is_refused_key(key: (nat, char, char, char)) -> bool {
    key == (6nat, 'p', 't', 'r')
        || key == (16nat, 'p', 'r', 'o')
        || key == (17nat, 'p', 'r', 'o')
        || key == (5nat, 's', 'e', 't')
        || key == (7nat, 'u', 'n', 's')
        || key == (6nat, 'k', 'e', 'y')
        || key == (7nat, 'a', 'd', 'd')
        || key == (11nat, 'r', 'e', 'q')
}

proof fn lemma_refused_keys()
    ensures
        forall|j: int|
            0 <= j < refused_calls().len() ==> is_refused_key(name_key(#[trigger] refused_calls()[j])),
{
    reveal_strlit("ptrace");
    reveal_strlit("process_vm_readv");
    reveal_strlit("process_vm_writev");
    reveal_strlit("setns");
    reveal_strlit("unshare");
    reveal_strlit("keyctl");
    reveal_strlit("add_key");
    reveal_strlit("request_key");
    assert(name_key("ptrace"@) == (6nat, 'p', 't', 'r'));
    assert(name_key("process_vm_readv"@) == (16nat, 'p', 'r', 'o'));
    assert(name_key("process_vm_writev"@) == (17nat, 'p', 'r', 'o'));
    assert(name_key("setns"@) == (5nat, 's', 'e', 't'));
    assert(name_key("unshare"@) == (7nat, 'u', 'n', 's'));
    assert(name_key("keyctl"@) == (6nat, 'k', 'e', 'y'));
    assert(name_key("add_key"@) == (7nat, 'a', 'd', 'd'));
    assert(name_key("request_key"@) == (11nat, 'r', 'e', 'q'));
}

proof fn lemma_first_keys()
    ensures
        forall|i: int|
            0 <= i < allow_list_first().len() ==> !is_refused_key(
                name_key(#[trigger] allow_list_first()[i]),
            ),
{
    reveal_strlit("access");
    reveal_strlit("arch_prctl");
    reveal_strlit("brk");
    reveal_strlit("capget");
    reveal_strlit("capset");
    reveal_strlit("chdir");
    reveal_strlit("clock_getres");
    reveal_strlit("clock_gettime");
    reveal_strlit("clock_gettime64");
    reveal_strlit("clone");
    reveal_strlit("clone3");
    reveal_strlit("close");
    reveal_strlit("connect");
    reveal_strlit("creat");
    reveal_strlit("dup");
    reveal_strlit("epoll_create");
    reveal_strlit("epoll_create1");
    reveal_strlit("epoll_ctl");
    reveal_strlit("epoll_pwait");
    reveal_strlit("epoll_wait");
    reveal_strlit("eventfd");
    reveal_strlit("eventfd2");
    reveal_strlit("execve");
    reveal_strlit("exit");
    reveal_strlit("faccessat");
    reveal_strlit("fadvise64");
    reveal_strlit("fadvise64_64");
    assert(name_key("access"@) == (6nat, 'a', 'c', 'c'));
    assert(name_key("arch_prctl"@) == (10nat, 'a', 'r', 'c'));
    assert(name_key("brk"@) == (3nat, 'b', 'r', 'k'));
    assert(name_key("capget"@) == (6nat, 'c', 'a', 'p'));
    assert(name_key("capset"@) == (6nat, 'c', 'a', 'p'));
    assert(name_key("chdir"@) == (5nat, 'c', 'h', 'd'));
    assert(name_key("clock_getres"@) == (12nat, 'c', 'l', 'o'));
    assert(name_key("clock_gettime"@) == (13nat, 'c', 'l', 'o'));
    assert(name_key("clock_gettime64"@) == (15nat, 'c', 'l', 'o'));
    assert(name_key("clone"@) == (5nat, 'c', 'l', 'o'));
    assert(name_key("clone3"@) == (6nat, 'c', 'l', 'o'));
    assert(name_key("close"@) == (5nat, 'c', 'l', 'o'));
    assert(name_key("connect"@) == (7nat, 'c', 'o', 'n'));
    assert(name_key("creat"@) == (5nat, 'c', 'r', 'e'));
    assert(name_key("dup"@) == (3nat, 'd', 'u', 'p'));
    assert(name_key("epoll_create"@) == (12nat, 'e', 'p', 'o'));
    assert(name_key("epoll_create1"@) == (13nat, 'e', 'p', 'o'));
    assert(name_key("epoll_ctl"@) == (9nat, 'e', 'p', 'o'));
    assert(name_key("epoll_pwait"@) == (11nat, 'e', 'p', 'o'));
    assert(name_key("epoll_wait"@) == (10nat, 'e', 'p', 'o'));
    assert(name_key("eventfd"@) == (7nat, 'e', 'v', 'e'));
    assert(name_key("eventfd2"@) == (8nat, 'e', 'v', 'e'));
    assert(name_key("execve"@) == (6nat, 'e', 'x', 'e'));
    assert(name_key("exit"@) == (4nat, 'e', 'x', 'i'));
    assert(name_key("faccessat"@) == (9nat, 'f', 'a', 'c'));
    assert(name_key("fadvise64"@) == (9nat, 'f', 'a', 'd'));
    assert(name_key("fadvise64_64"@) == (12nat, 'f', 'a', 'd'));
}

proof fn lemma_second_keys()
    ensures
        forall|i: int|
            0 <= i < allow_list_second().len() ==> !is_refused_key(
                name_key(#[trigger] allow_list_second()[i]),
            ),
{
    reveal_strlit("fchdir");
    reveal_strlit("fcntl");
    reveal_strlit("fcntl64");
    reveal_strlit("fstat");
    reveal_strlit("fstatfs");
    reveal_strlit("fstatfs64");
    reveal_strlit("ftruncate");
    reveal_strlit("futex");
    reveal_strlit("futex_time64");
    reveal_strlit("get_mempolicy");
    reveal_strlit("getcwd");
    reveal_strlit("getdents64");
    reveal_strlit("getegid");
    reveal_strlit("getegid32");
    reveal_strlit("geteuid");
    reveal_strlit("geteuid32");
    reveal_strlit("getgid");
    reveal_strlit("getgid32");
    reveal_strlit("getpid");
    reveal_strlit("getppid");
    reveal_strlit("getrandom");
    reveal_strlit("gettid");
    reveal_strlit("gettimeofday");
    reveal_strlit("getuid");
    reveal_strlit("getuid32");
    reveal_strlit("ioctl");
    assert(name_key("fchdir"@) == (6nat, 'f', 'c', 'h'));
    assert(name_key("fcntl"@) == (5nat, 'f', 'c', 'n'));
    assert(name_key("fcntl64"@) == (7nat, 'f', 'c', 'n'));
    assert(name_key("fstat"@) == (5nat, 'f', 's', 't'));
    assert(name_key("fstatfs"@) == (7nat, 'f', 's', 't'));
    assert(name_key("fstatfs64"@) == (9nat, 'f', 's', 't'));
    assert(name_key("ftruncate"@) == (9nat, 'f', 't', 'r'));
    assert(name_key("futex"@) == (5nat, 'f', 'u', 't'));
    assert(name_key("futex_time64"@) == (12nat, 'f', 'u', 't'));
    assert(name_key("get_mempolicy"@) == (13nat, 'g', 'e', 't'));
    assert(name_key("getcwd"@) == (6nat, 'g', 'e', 't'));
    assert(name_key("getdents64"@) == (10nat, 'g', 'e', 't'));
    assert(name_key("getegid"@) == (7nat, 'g', 'e', 't'));
    assert(name_key("getegid32"@) == (9nat, 'g', 'e', 't'));
    assert(name_key("geteuid"@) == (7nat, 'g', 'e', 't'));
    assert(name_key("geteuid32"@) == (9nat, 'g', 'e', 't'));
    assert(name_key("getgid"@) == (6nat, 'g', 'e', 't'));
    assert(name_key("getgid32"@) == (8nat, 'g', 'e', 't'));
    assert(name_key("getpid"@) == (6nat, 'g', 'e', 't'));
    assert(name_key("getppid"@) == (7nat, 'g', 'e', 't'));
    assert(name_key("getrandom"@) == (9nat, 'g', 'e', 't'));
    assert(name_key("gettid"@) == (6nat, 'g', 'e', 't'));
    assert(name_key("gettimeofday"@) == (12nat, 'g', 'e', 't'));
    assert(name_key("getuid"@) == (6nat, 'g', 'e', 't'));
    assert(name_key("getuid32"@) == (8nat, 'g', 'e', 't'));
    assert(name_key("ioctl"@) == (5nat, 'i', 'o', 'c'));
}

proof fn lemma_third_keys()
    ensures
        forall|i: int|
            0 <= i < allow_list_third().len() ==> !is_refused_key(
                name_key(#[trigger] allow_list_third()[i]),
            ),
{
    reveal_strlit("madvise");
    reveal_strlit("membarrier");
    reveal_strlit("memfd_create");
    reveal_strlit("mmap");
    reveal_strlit("mmap2");
    reveal_strlit("mprotect");
    reveal_strlit("mremap");
    reveal_strlit("munmap");
    reveal_strlit("newfstatat");
    reveal_strlit("open");
    reveal_strlit("openat");
    reveal_strlit("pipe");
    reveal_strlit("pipe2");
    reveal_strlit("pivot_root");
    reveal_strlit("poll");
    reveal_strlit("ppoll");
    reveal_strlit("ppoll_time64");
    reveal_strlit("prctl");
    reveal_strlit("pread64");
    reveal_strlit("prlimit64");
    reveal_strlit("read");
    reveal_strlit("readlink");
    reveal_strlit("readlinkat");
    reveal_strlit("recvfrom");
    reveal_strlit("recvmsg");
    reveal_strlit("rseq");
    reveal_strlit("rt_sigaction");
    assert(name_key("madvise"@) == (7nat, 'm', 'a', 'd'));
    assert(name_key("membarrier"@) == (10nat, 'm', 'e', 'm'));
    assert(name_key("memfd_create"@) == (12nat, 'm', 'e', 'm'));
    assert(name_key("mmap"@) == (4nat, 'm', 'm', 'a'));
    assert(name_key("mmap2"@) == (5nat, 'm', 'm', 'a'));
    assert(name_key("mprotect"@) == (8nat, 'm', 'p', 'r'));
    assert(name_key("mremap"@) == (6nat, 'm', 'r', 'e'));
    assert(name_key("munmap"@) == (6nat, 'm', 'u', 'n'));
    assert(name_key("newfstatat"@) == (10nat, 'n', 'e', 'w'));
    assert(name_key("open"@) == (4nat, 'o', 'p', 'e'));
    assert(name_key("openat"@) == (6nat, 'o', 'p', 'e'));
    assert(name_key("pipe"@) == (4nat, 'p', 'i', 'p'));
    assert(name_key("pipe2"@) == (5nat, 'p', 'i', 'p'));
    assert(name_key("pivot_root"@) == (10nat, 'p', 'i', 'v'));
    assert(name_key("poll"@) == (4nat, 'p', 'o', 'l'));
    assert(name_key("ppoll"@) == (5nat, 'p', 'p', 'o'));
    assert(name_key("ppoll_time64"@) == (12nat, 'p', 'p', 'o'));
    assert(name_key("prctl"@) == (5nat, 'p', 'r', 'c'));
    assert(name_key("pread64"@) == (7nat, 'p', 'r', 'e'));
    assert(name_key("prlimit64"@) == (9nat, 'p', 'r', 'l'));
    assert(name_key("read"@) == (4nat, 'r', 'e', 'a'));
    assert(name_key("readlink"@) == (8nat, 'r', 'e', 'a'));
    assert(name_key("readlinkat"@) == (10nat, 'r', 'e', 'a'));
    assert(name_key("recvfrom"@) == (8nat, 'r', 'e', 'c'));
    assert(name_key("recvmsg"@) == (7nat, 'r', 'e', 'c'));
    assert(name_key("rseq"@) == (4nat, 'r', 's', 'e'));
    assert(name_key("rt_sigaction"@) == (12nat, 'r', 't', '_'));
}

proof fn lemma_fourth_keys()
    ensures
        forall|i: int|
            0 <= i < allow_list_fourth().len() ==> !is_refused_key(
                name_key(#[trigger] allow_list_fourth()[i]),
            ),
{
    reveal_strlit("rt_sigprocmask");
    reveal_strlit("rt_sigreturn");
    reveal_strlit("sched_getaffinity");
    reveal_strlit("sched_yield");
    reveal_strlit("sendmsg");
    reveal_strlit("sendto");
    reveal_strlit("set_mempolicy");
    reveal_strlit("set_robust_list");
    reveal_strlit("set_thread_area");
    reveal_strlit("set_tid_address");
    reveal_strlit("sigaltstack");
    reveal_strlit("signalfd4");
    reveal_strlit("socket");
    reveal_strlit("socketcall");
    reveal_strlit("stat");
    reveal_strlit("statfs");
    reveal_strlit("statfs64");
    reveal_strlit("statx");
    reveal_strlit("sysinfo");
    reveal_strlit("timerfd_create");
    reveal_strlit("timerfd_settime");
    reveal_strlit("timerfd_settime64");
    reveal_strlit("ugetrlimit");
    reveal_strlit("wait4");
    reveal_strlit("write");
    assert(name_key("rt_sigprocmask"@) == (14nat, 'r', 't', '_'));
    assert(name_key("rt_sigreturn"@) == (12nat, 'r', 't', '_'));
    assert(name_key("sched_getaffinity"@) == (17nat, 's', 'c', 'h'));
    assert(name_key("sched_yield"@) == (11nat, 's', 'c', 'h'));
    assert(name_key("sendmsg"@) == (7nat, 's', 'e', 'n'));
    assert(name_key("sendto"@) == (6nat, 's', 'e', 'n'));
    assert(name_key("set_mempolicy"@) == (13nat, 's', 'e', 't'));
    assert(name_key("set_robust_list"@) == (15nat, 's', 'e', 't'));
    assert(name_key("set_thread_area"@) == (15nat, 's', 'e', 't'));
    assert(name_key("set_tid_address"@) == (15nat, 's', 'e', 't'));
    assert(name_key("sigaltstack"@) == (11nat, 's', 'i', 'g'));
    assert(name_key("signalfd4"@) == (9nat, 's', 'i', 'g'));
    assert(name_key("socket"@) == (6nat, 's', 'o', 'c'));
    assert(name_key("socketcall"@) == (10nat, 's', 'o', 'c'));
    assert(name_key("stat"@) == (4nat, 's', 't', 'a'));
    assert(name_key("statfs"@) == (6nat, 's', 't', 'a'));
    assert(name_key("statfs64"@) == (8nat, 's', 't', 'a'));
    assert(name_key("statx"@) == (5nat, 's', 't', 'a'));
    assert(name_key("sysinfo"@) == (7nat, 's', 'y', 's'));
    assert(name_key("timerfd_create"@) == (14nat, 't', 'i', 'm'));
    assert(name_key("timerfd_settime"@) == (15nat, 't', 'i', 'm'));
    assert(name_key("timerfd_settime64"@) == (17nat, 't', 'i', 'm'));
    assert(name_key("ugetrlimit"@) == (10nat, 'u', 'g', 'e'));
    assert(name_key("wait4"@) == (5nat, 'w', 'a', 'i'));
    assert(name_key("write"@) == (5nat, 'w', 'r', 'i'));
}

/// No call of the list is one of the refused calls: a loader that makes one
/// of those is trapped.
pub proof fn lemma_allow_list_excludes()
    ensures
        forall|i: int, j: int|
            0 <= i < allow_list().len() && 0 <= j < refused_calls().len() ==> #[trigger] allow_list()[i]
                != #[trigger] refused_calls()[j],
        forall|name: Seq<char>| refused_calls().contains(name) ==> !allow_list().contains(name),
{
    lemma_refused_keys();
    lemma_first_keys();
    lemma_second_keys();
    lemma_third_keys();
    lemma_fourth_keys();
    let a = allow_list_first();
    let b = allow_list_second();
    let c = allow_list_third();
    let d = allow_list_fourth();
    assert forall|i: int| 0 <= i < allow_list().len() implies !is_refused_key(
        name_key(#[trigger] allow_list()[i]),
    ) by {
        if i < a.len() {
            assert(allow_list()[i] == a[i]);
        } else if i < a.len() + b.len() {
            assert(allow_list()[i] == b[i - a.len()]);
        } else if i < a.len() + b.len() + c.len() {
            assert(allow_list()[i] == c[i - a.len() - b.len()]);
        } else {
            assert(allow_list()[i] == d[i - a.len() - b.len() - c.len()]);
        }
    }
    assert forall|i: int, j: int|
        0 <= i < allow_list().len() && 0 <= j < refused_calls().len() implies #[trigger] allow_list()[i]
        != #[trigger] refused_calls()[j] by {
        assert(!is_refused_key(name_key(allow_list()[i])));
        assert(is_refused_key(name_key(refused_calls()[j])));
    }
}

/// The system calls that a loader may make. A name may stand twice.
pub fn allowed_syscalls() -> (names: Vec<String>)
    ensures
        views(names@) == allow_list(),
{
    let mut names: Vec<String> = Vec::new();
    assert(views(names@) =~= Seq::<Seq<char>>::empty());
    allowed_syscalls_first(&mut names);
    allowed_syscalls_second(&mut names);
    allowed_syscalls_third(&mut names);
    allowed_syscalls_fourth(&mut names);
    assert(views(names@) =~= allow_list());
    names
}

/// What the filter does with a call that no rule names.
pub fn default_filter_action() -> (action: FilterAction)
    ensures
        action == FilterAction::Trap,
{
    FilterAction::Trap
}

/// What the filter does with the calls of the list.
pub fn listed_filter_action() -> (action: FilterAction)
    ensures
        action == FilterAction::Allow,
{
    FilterAction::Allow
}

/// The line that a loader writes when the filter has trapped a system call
/// of this number; `name` is the name of the call where it is known.
pub open spec fn blocked_syscall_text(name: Option<Seq<char>>, number: int) -> Seq<char> {
    "glycin sandbox: Blocked syscall used: '"@ + (match name {
        Some(name) => name,
        None => "Unknown Syscall"@,
    }) + "' ("@ + signed_decimal(number) + ")"@
}

pub fn blocked_syscall_message(name: Option<String>, number: i32) -> (message: String)
    ensures
        message@ == blocked_syscall_text(
            match name {
                Some(name) => Some(name@),
                None => None,
            },
            number as int,
        ),
{
    let mut message = String::from_str("glycin sandbox: Blocked syscall used: '");
    match name {
        Some(name) => message.append(name.as_str()),
        None => message.append("Unknown Syscall"),
    }
    message.append("' (");
    let digits = i32_to_string(number);
    message.append(digits.as_str());
    message.append(")");
    message
}

/// 1 GiB, the limit where the available memory is not known.
pub const DEFAULT_MEMORY_LIMIT: u64 = 1073741824;

/// 10 GiB, the most memory that is considered.
pub const MAX_MEMORY_CONSIDERED: u64 = 10737418240;

/// 200 MiB, the memory that is left to others.
pub const MEMORY_HEADROOM: u64 = 209715200;

/// The memory limit for a loader when `mem_available` bytes are available:
/// at most 10 GiB are considered, 200 MiB of these are left alone, and the
/// loader may use 80% of the rest.
pub open spec fn memory_limit_for(mem_available: int) -> int {
    let considered = if mem_available < MAX_MEMORY_CONSIDERED {
        mem_available
    } else {
        MAX_MEMORY_CONSIDERED as int
    };
    let usable = if considered > MEMORY_HEADROOM {
        considered - MEMORY_HEADROOM
    } else {
        0
    };
    usable * 4 / 5
}

/// The text of the second field of a line whose fields are separated by
/// spaces; `None` where the line has one field or none.
pub open spec fn second_field(line: Seq<char>) -> Option<Seq<char>> {
    let first = position_not(line, ' ', 0);
    let first_end = position_of(line, ' ', first);
    let second = position_not(line, ' ', first_end);
    let second_end = position_of(line, ' ', second);
    if second < line.len() {
        Some(line.subrange(second, second_end))
    } else {
        None
    }
}

/// The available memory in bytes that a line of the kernel's memory
/// information gives: the line begins with `MemAvailable:` and its second
/// field is a number of KiB. A product above `u64::MAX` counts as that.
pub open spec fn line_mem_available(line: Seq<char>) -> Option<u64> {
    if has_prefix(line, "MemAvailable:"@) {
        match second_field(line) {
            Some(field) => match parsed_u64(field) {
                Some(kib) => Some(
                    if kib * 1024 <= u64::MAX {
                        (kib * 1024) as u64
                    } else {
                        u64::MAX
                    },
                ),
                None => None,
            },
            None => None,
        }
    } else {
        None
    }
}

/// The available memory that the first line gives that gives one.
pub open spec fn mem_available_in(lines: Seq<Seq<char>>) -> Option<u64>
    decreases lines.len(),
{
    if lines.len() == 0 {
        None
    } else {
        match line_mem_available(lines[0]) {
            Some(bytes) => Some(bytes),
            None => mem_available_in(lines.drop_first()),
        }
    }
}

/// The names of the root directory's entries that matter for the sandbox
/// begin with `lib`.
pub open spec fn is_lib_name(file_name: Seq<char>) -> bool {
    has_prefix(file_name, "lib"@)
}

/// Whether the path `path` begins with the path `base`, component by
/// component, as `std::path::Path::starts_with` says.
pub uninterp spec fn path_starts_with(path: Seq<char>, base: Seq<char>) -> bool;

/// Calls `std::path::Path::starts_with`, which compares whole components
/// of two paths. Not proved: that the result is the one named here.
#[verifier::external_body]
fn path_has_base(path: &str, base: &str) -> (b: bool)
    ensures
        b == path_starts_with(path@, base@),
{
    std::path::Path::new(path).starts_with(base)
}

/// What an entry of the root directory is.
#[derive(Debug, Clone)]
pub enum RootEntryKind {
    Directory,
    /// A symbolic link; `target` is the path that it leads to in the end.
    Symlink { target: String },
    Other,
}

/// The library directories of the system, which a loader needs to start.
#[derive(Debug, Default)]
pub struct SystemSetup {
    /// Links in the root directory that lead into `/usr`: the path of the
    /// link and its target.
    pub lib_symlinks: Vec<(String, String)>,
    /// Library directories in the root directory itself.
    pub lib_dirs: Vec<String>,
}

/// The views of a list of pairs of strings.
pub open spec fn pair_views(list: Seq<(String, String)>) -> Seq<(Seq<char>, Seq<char>)> {
    list.map_values(|pair: (String, String)| (pair.0@, pair.1@))
}

impl SystemSetup {
    pub fn new() -> (setup: Self)
        ensures
            setup.lib_symlinks@.len() == 0,
            setup.lib_dirs@.len() == 0,
    {
        SystemSetup { lib_symlinks: Vec::new(), lib_dirs: Vec::new() }
    }

    /// Whether an entry of the root directory with this name is looked at.
    pub fn is_lib_entry(file_name: &str) -> (b: bool)
        ensures
            b == is_lib_name(file_name@),
    {
        starts_with(file_name, "lib")
    }

    /// Takes note of an entry of the root directory. A directory whose name
    /// begins with `lib` is a library directory; a link with such a name
    /// whose target lies in `/usr/` is a link to one. Nothing else is kept.
    pub fn add_dir(&mut self, path: String, file_name: &str, kind: RootEntryKind)
        ensures
            views(final(self).lib_dirs@) == if is_lib_name(file_name@) && kind is Directory {
                views(old(self).lib_dirs@).push(path@)
            } else {
                views(old(self).lib_dirs@)
            },
            pair_views(final(self).lib_symlinks@) == if is_lib_name(file_name@) && kind is Symlink
                && path_starts_with(kind->target@, "/usr/"@) {
                pair_views(old(self).lib_symlinks@).push((path@, kind->target@))
            } else {
                pair_views(old(self).lib_symlinks@)
            },
    {
        if Self::is_lib_entry(file_name) {
            match kind {
                RootEntryKind::Directory => {
                    self.lib_dirs.push(path);
                    assert(views(self.lib_dirs@) =~= views(old(self).lib_dirs@).push(path@));
                },
                RootEntryKind::Symlink { target } => {
                    if path_has_base(target.as_str(), "/usr/") {
                        self.lib_symlinks.push((path, target));
                        assert(pair_views(self.lib_symlinks@) =~= pair_views(
                            old(self).lib_symlinks@,
                        ).push((path@, target@)));
                    }
                },
                RootEntryKind::Other => {},
            }
        }
    }
}

/// The arguments that are the same for every loader: no namespace is
/// shared, the environment is empty, the loader ends with the host and
/// starts in `/`; `/usr` is there to read, `/dev` is a new one, the cache of
/// the dynamic linker and the font configuration are there to read where
/// they exist, and the home and runtime directories are empty ones.
pub open spec fn fixed_bwrap_args() -> Seq<Seq<char>> {
    seq![
        "--unshare-all"@,
        "--clearenv"@,
        "--die-with-parent"@,
        "--chdir"@,
        "/"@,
        "--ro-bind"@,
        "/usr"@,
        "/usr"@,
        "--dev"@,
        "/dev"@,
        "--ro-bind-try"@,
        "/etc/ld.so.cache"@,
        "/etc/ld.so.cache"@,
        "--tmpfs"@,
        "/tmp-home"@,
        "--setenv"@,
        "HOME"@,
        "/tmp-home"@,
        "--tmpfs"@,
        "/tmp-run"@,
        "--setenv"@,
        "XDG_RUNTIME_DIR"@,
        "/tmp-run"@,
        "--ro-bind-try"@,
        "/etc/fonts"@,
        "/etc/fonts"@,
        "--ro-bind-try"@,
        "/var/cache/fontconfig"@,
        "/var/cache/fontconfig"@,
    ]
}

/// For each link, the arguments that make it: `--symlink`, the target and
/// the path of the link.
pub open spec fn symlink_args(links: Seq<(Seq<char>, Seq<char>)>) -> Seq<Seq<char>>
    decreases links.len(),
{
    if links.len() == 0 {
        Seq::empty()
    } else {
        symlink_args(links.drop_last()) + seq!["--symlink"@, links.last().1, links.last().0]
    }
}

/// For each directory, the arguments that show it to the loader to read, at
/// its own path: `--ro-bind` and the path twice.
pub open spec fn ro_bind_args(dirs: Seq<Seq<char>>) -> Seq<Seq<char>>
    decreases dirs.len(),
{
    if dirs.len() == 0 {
        Seq::empty()
    } else {
        ro_bind_args(dirs.drop_last()) + seq!["--ro-bind"@, dirs.last(), dirs.last()]
    }
}

/// The arguments that show the loader binary to the loader, where it does
/// not lie in `/usr`.
pub open spec fn command_bind_args(command: Seq<char>) -> Seq<Seq<char>> {
    if path_starts_with(command, "/usr"@) {
        Seq::empty()
    } else {
        seq!["--ro-bind"@, command, command]
    }
}

/// The arguments of the namespace sandbox for a loader, without the filter
/// and the command: the fixed ones, the links and directories of the
/// system's libraries, the directories that the caller added, and the
/// loader binary.
pub open spec fn bwrap_arguments(
    command: Seq<char>,
    ro_bind_extra: Seq<Seq<char>>,
    lib_symlinks: Seq<(Seq<char>, Seq<char>)>,
    lib_dirs: Seq<Seq<char>>,
) -> Seq<Seq<char>> {
    fixed_bwrap_args() + symlink_args(lib_symlinks) + ro_bind_args(lib_dirs) + ro_bind_args(
        ro_bind_extra,
    ) + command_bind_args(command)
}

/// The program to start and its arguments.
pub open spec fn command_line_for(
    mechanism: SandboxMechanism,
    command: Seq<char>,
    ro_bind_extra: Seq<Seq<char>>,
    lib_symlinks: Seq<(Seq<char>, Seq<char>)>,
    lib_dirs: Seq<Seq<char>>,
    seccomp_fd: int,
    memory_limit: nat,
) -> (Seq<char>, Seq<Seq<char>>) {
    match mechanism {
        SandboxMechanism::Bwrap => (
            "bwrap"@,
            bwrap_arguments(command, ro_bind_extra, lib_symlinks, lib_dirs) + seq![
                "--seccomp"@,
                signed_decimal(seccomp_fd),
                command,
            ],
        ),
        SandboxMechanism::FlatpakSpawn => (
            "flatpak-spawn"@,
            seq![
                "--sandbox"@,
                "--watch-bus"@,
                "--directory=/"@,
                "prlimit"@,
                "--as="@ + decimal(memory_limit),
                command,
            ],
        ),
        SandboxMechanism::NotSandboxed => (command, Seq::empty()),
    }
}

/// What it takes to start a loader.
#[derive(Debug, Clone)]
pub struct Sandbox {
    sandbox_mechanism: SandboxMechanism,
    command: String,
    ro_bind_extra: Vec<String>,
}

/// The program to start, its arguments, and whether the memory limit is to
/// be set in the new process before the program starts.
#[derive(Debug)]
pub struct CommandLine {
    pub bin: String,
    pub args: Vec<String>,
    pub set_memory_limit: bool,
}

impl Sandbox {
    pub closed spec fn mechanism(self) -> SandboxMechanism {
        self.sandbox_mechanism
    }

    /// The path of the loader binary.
    pub closed spec fn command_view(self) -> Seq<char> {
        self.command@
    }

    /// The directories that the caller added, in the order of the calls.
    pub closed spec fn extra_binds(self) -> Seq<Seq<char>> {
        views(self.ro_bind_extra@)
    }

    pub fn new(sandbox_mechanism: SandboxMechanism, command: String) -> (sandbox: Self)
        ensures
            sandbox.mechanism() == sandbox_mechanism,
            sandbox.command_view() == command@,
            sandbox.extra_binds() == Seq::<Seq<char>>::empty(),
    {
        let sandbox = Sandbox { sandbox_mechanism, command, ro_bind_extra: Vec::new() };
        assert(views(sandbox.ro_bind_extra@) =~= Seq::<Seq<char>>::empty());
        sandbox
    }

    /// Adds a directory that the loader gets to read.
    pub fn add_ro_bind(&mut self, path: String)
        ensures
            final(self).mechanism() == old(self).mechanism(),
            final(self).command_view() == old(self).command_view(),
            final(self).extra_binds() == old(self).extra_binds().push(path@),
    {
        push_string(&mut self.ro_bind_extra, path);
    }

    /// Whether the loader is started with the system call filter, whose
    /// descriptor then has to be at hand.
    pub fn needs_seccomp(&self) -> (needed: bool)
        ensures
            needed == (self.mechanism() == SandboxMechanism::Bwrap),
    {
        match self.sandbox_mechanism {
            SandboxMechanism::Bwrap => true,
            _ => false,
        }
    }

    /// The arguments of the namespace sandbox, without filter and command.
    pub fn bwrap_args(&self, system: &SystemSetup) -> (args: Vec<String>)
        ensures
            views(args@) == bwrap_arguments(
                self.command_view(),
                self.extra_binds(),
                pair_views(system.lib_symlinks@),
                views(system.lib_dirs@),
            ),
    {
        let mut args = fixed_args();

        // Links like /lib64 to /usr/lib64
        let mut i: usize = 0;
        while i < system.lib_symlinks.len()
            invariant
                0 <= i <= system.lib_symlinks@.len(),
                views(args@) == fixed_bwrap_args() + symlink_args(
                    pair_views(system.lib_symlinks@).subrange(0, i as int),
                ),
            decreases system.lib_symlinks@.len() - i,
        {
            let ghost links = pair_views(system.lib_symlinks@);
            let ghost before = views(args@);
            push_str(&mut args, "--symlink");
            push_str(&mut args, system.lib_symlinks[i].1.as_str());
            push_str(&mut args, system.lib_symlinks[i].0.as_str());
            proof {
                assert(links.subrange(0, i + 1).drop_last() =~= links.subrange(0, i as int));
                assert(views(args@) =~= before + seq![
                    "--symlink"@,
                    links[i as int].1,
                    links[i as int].0,
                ]);
                assert(views(args@) =~= fixed_bwrap_args() + symlink_args(links.subrange(0, i + 1)));
            }
            i += 1;
        }
        proof {
            let links = pair_views(system.lib_symlinks@);
            assert(links.subrange(0, links.len() as int) =~= links);
        }

        // Directories like /lib64, where they are no links
        let ghost head = views(args@);
        push_binds(&mut args, &system.lib_dirs);
        // Directories that the caller asked for
        push_binds(&mut args, &self.ro_bind_extra);

        // The loader binary, where it is not in /usr
        if !path_has_base(self.command.as_str(), "/usr") {
            let ghost before = views(args@);
            push_str(&mut args, "--ro-bind");
            push_str(&mut args, self.command.as_str());
            push_str(&mut args, self.command.as_str());
            assert(views(args@) =~= before + command_bind_args(self.command@));
        } else {
            assert(views(args@) =~= views(args@) + command_bind_args(self.command@));
        }
        args
    }

    /// The program to start and its arguments. `seccomp_fd` is the
    /// descriptor of the compiled filter, which the namespace sandbox needs;
    /// `memory_limit` is the limit in bytes.
    pub fn command_line(
        &self,
        system: &SystemSetup,
        seccomp_fd: Option<i32>,
        memory_limit: u64,
    ) -> (line: CommandLine)
        requires
            self.mechanism() == SandboxMechanism::Bwrap ==> seccomp_fd is Some,
        ensures
            (line.bin@, views(line.args@)) == command_line_for(
                self.mechanism(),
                self.command_view(),
                self.extra_binds(),
                pair_views(system.lib_symlinks@),
                views(system.lib_dirs@),
                match seccomp_fd {
                    Some(fd) => fd as int,
                    None => 0,
                },
                memory_limit as nat,
            ),
            line.set_memory_limit == (self.mechanism() == SandboxMechanism::Bwrap),
    {
        match self.sandbox_mechanism {
            SandboxMechanism::Bwrap => {
                let mut args = self.bwrap_args(system);
                let ghost before = views(args@);
                push_str(&mut args, "--seccomp");
                push_string(&mut args, i32_to_string(seccomp_fd.unwrap()));
                push_str(&mut args, self.command.as_str());
                assert(views(args@) =~= before + seq![
                    "--seccomp"@,
                    signed_decimal(seccomp_fd->0 as int),
                    self.command@,
                ]);
                CommandLine { bin: String::from_str("bwrap"), args, set_memory_limit: true }
            },
            SandboxMechanism::FlatpakSpawn => {
                let mut limit = String::from_str("--as=");
                let digits = u64_to_string(memory_limit);
                limit.append(digits.as_str());
                let mut args: Vec<String> = Vec::new();
                push_str(&mut args, "--sandbox");
                // The loader ends with the host
                push_str(&mut args, "--watch-bus");
                // A working directory that exists
                push_str(&mut args, "--directory=/");
                // The loader starts with the memory limit
                push_str(&mut args, "prlimit");
                push_string(&mut args, limit);
                push_str(&mut args, self.command.as_str());
                assert(views(args@) =~= seq![
                    "--sandbox"@,
                    "--watch-bus"@,
                    "--directory=/"@,
                    "prlimit"@,
                    "--as="@ + decimal(memory_limit as nat),
                    self.command@,
                ]);
                CommandLine {
                    bin: String::from_str("flatpak-spawn"),
                    args,
                    set_memory_limit: false,
                }
            },
            SandboxMechanism::NotSandboxed => {
                let args: Vec<String> = Vec::new();
                assert(views(args@) =~= Seq::<Seq<char>>::empty());
                CommandLine { bin: self.command.clone(), args, set_memory_limit: false }
            },
        }
    }

    /// The memory limit in bytes for `mem_available` bytes of available
    /// memory.
    pub fn calculate_memory_limit(mem_available: u64) -> (limit: u64)
        ensures
            limit == memory_limit_for(mem_available as int),
    {
        let considered = if mem_available < MAX_MEMORY_CONSIDERED {
            mem_available
        } else {
            MAX_MEMORY_CONSIDERED
        };
        let usable = if considered > MEMORY_HEADROOM {
            considered - MEMORY_HEADROOM
        } else {
            0
        };
        usable * 4 / 5
    }

    /// The available memory in bytes that the lines of the kernel's memory
    /// information give.
    pub fn mem_available(lines: &Vec<String>) -> (available: Option<u64>)
        ensures
            available == mem_available_in(views(lines@)),
    {
        let mut i: usize = 0;
        assert(views(lines@).subrange(0, lines@.len() as int) =~= views(lines@));
        while i < lines.len()
            invariant
                0 <= i <= lines@.len(),
                mem_available_in(views(lines@)) == mem_available_in(
                    views(lines@).subrange(i as int, lines@.len() as int),
                ),
            decreases lines@.len() - i,
        {
            let ghost rest = views(lines@).subrange(i as int, lines@.len() as int);
            proof {
                assert(rest[0] == lines@[i as int]@);
                assert(rest.drop_first() =~= views(lines@).subrange(i + 1, lines@.len() as int));
            }
            if let Some(bytes) = line_memory(lines[i].as_str()) {
                return Some(bytes);
            }
            i += 1;
        }
        None
    }

    /// The memory limit in bytes for a loader. `meminfo` holds the lines of
    /// the kernel's memory information, where they could be read; without
    /// them, or without the line for the available memory, the limit is
    /// 1 GiB.
    pub fn memory_limit(meminfo: Option<&Vec<String>>) -> (limit: u64)
        ensures
            limit == match meminfo {
                Some(lines) => match mem_available_in(views(lines@)) {
                    Some(available) => memory_limit_for(available as int),
                    None => DEFAULT_MEMORY_LIMIT as int,
                },
                None => DEFAULT_MEMORY_LIMIT as int,
            },
    {
        if let Some(lines) = meminfo {
            if let Some(available) = Self::mem_available(lines) {
                return Self::calculate_memory_limit(available);
            }
        }
        DEFAULT_MEMORY_LIMIT
    }
}

/// The arguments that are the same for every loader.
fn fixed_args() -> (args: Vec<String>)
    ensures
        views(args@) == fixed_bwrap_args(),
{
    let mut args: Vec<String> = Vec::new();
    assert(views(args@) =~= Seq::<Seq<char>>::empty());
    push_str(&mut args, "--unshare-all");
    push_str(&mut args, "--clearenv");
    push_str(&mut args, "--die-with-parent");
    push_str(&mut args, "--chdir");
    push_str(&mut args, "/");
    push_str(&mut args, "--ro-bind");
    push_str(&mut args, "/usr");
    push_str(&mut args, "/usr");
    push_str(&mut args, "--dev");
    push_str(&mut args, "/dev");
    push_str(&mut args, "--ro-bind-try");
    push_str(&mut args, "/etc/ld.so.cache");
    push_str(&mut args, "/etc/ld.so.cache");
    push_str(&mut args, "--tmpfs");
    push_str(&mut args, "/tmp-home");
    push_str(&mut args, "--setenv");
    push_str(&mut args, "HOME");
    push_str(&mut args, "/tmp-home");
    push_str(&mut args, "--tmpfs");
    push_str(&mut args, "/tmp-run");
    push_str(&mut args, "--setenv");
    push_str(&mut args, "XDG_RUNTIME_DIR");
    push_str(&mut args, "/tmp-run");
    push_str(&mut args, "--ro-bind-try");
    push_str(&mut args, "/etc/fonts");
    push_str(&mut args, "/etc/fonts");
    push_str(&mut args, "--ro-bind-try");
    push_str(&mut args, "/var/cache/fontconfig");
    push_str(&mut args, "/var/cache/fontconfig");
    args
}

/// Appends the arguments that show each directory to the loader.
fn push_binds(args: &mut Vec<String>, dirs: &Vec<String>)
    ensures
        views(final(args)@) == views(old(args)@) + ro_bind_args(views(dirs@)),
{
    let mut i: usize = 0;
    assert(views(args@) =~= views(old(args)@) + ro_bind_args(views(dirs@).subrange(0, 0)));
    while i < dirs.len()
        invariant
            0 <= i <= dirs@.len(),
            views(args@) == views(old(args)@) + ro_bind_args(views(dirs@).subrange(0, i as int)),
        decreases dirs@.len() - i,
    {
        let ghost before = views(args@);
        let ghost all = views(dirs@);
        push_str(args, "--ro-bind");
        push_str(args, dirs[i].as_str());
        push_str(args, dirs[i].as_str());
        proof {
            assert(all.subrange(0, i + 1).drop_last() =~= all.subrange(0, i as int));
            assert(views(args@) =~= before + seq!["--ro-bind"@, all[i as int], all[i as int]]);
            assert(views(args@) =~= views(old(args)@) + ro_bind_args(all.subrange(0, i + 1)));
        }
        i += 1;
    }
    assert(views(dirs@).subrange(0, dirs@.len() as int) =~= views(dirs@));
}

/// The available memory in bytes that one line gives.
fn line_memory(line: &str) -> (bytes: Option<u64>)
    ensures
        bytes == line_mem_available(line@),
{
    if !starts_with(line, "MemAvailable:") {
        return None;
    }
    let chars = to_chars(line);
    let first = skip_char(&chars, ' ', 0);
    let first_end = find_char(&chars, ' ', first);
    let second = skip_char(&chars, ' ', first_end);
    let second_end = find_char(&chars, ' ', second);
    if second >= chars.len() {
        return None;
    }
    match parse_u64(&chars, second, second_end) {
        Some(kib) => match kib.checked_mul(1024) {
            Some(bytes) => Some(bytes),
            None => Some(u64::MAX),
        },
        None => None,
    }
}

} // verus!
