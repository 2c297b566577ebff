use vstd::prelude::*;

use crate::syscall_table::Syscall;

verus! {

/// A caller register that a handler receives: `X(i)` is `xi` as an
/// unsigned value, `XSigned(i)` is `xi` reinterpreted as a signed value.
#[derive(Clone, Copy, Debug, PartialEq, Eq, Structural)]
pub enum ArgRegister {
    X(u8),
    XSigned(u8),
}

/// An argument as a handler receives it.
#[derive(Clone, Copy, Debug, PartialEq, Eq, Structural)]
pub enum HandlerArg {
    Unsigned(u64),
    Signed(i64),
}

/// The registers handed to the handler of `s`, in parameter order. Most
/// handlers take `x0`, `x1`, ... in order; `clone` takes its fourth and fifth
/// parameters from `x4` and `x3`, and `wait4` reads its pid from `x0` as a
/// signed value. Calls answered without a handler, and `rt_sigreturn`, take none.
pub open spec fn handler_registers(s: Syscall) -> Seq<ArgRegister> {
    match s {
        Syscall::Setxattr
        | Syscall::Lsetxattr
        | Syscall::Fsetxattr
        | Syscall::Linkat
        | Syscall::Fchownat
        | Syscall::Ppoll
        | Syscall::Waitid
        | Syscall::Renameat2
        | Syscall::Preadv2
        | Syscall::Pwritev2
        | Syscall::Statx => seq![
            ArgRegister::X(0),
            ArgRegister::X(1),
            ArgRegister::X(2),
            ArgRegister::X(3),
            ArgRegister::X(4),
        ],
        Syscall::Getxattr
        | Syscall::Lgetxattr
        | Syscall::Fgetxattr
        | Syscall::Renameat
        | Syscall::Fchmodat
        | Syscall::Openat
        | Syscall::Pread64
        | Syscall::Pwrite64
        | Syscall::Preadv
        | Syscall::Pwritev
        | Syscall::Sendfile
        | Syscall::Readlinkat
        | Syscall::Newfstatat
        | Syscall::Utimensat
        | Syscall::ClockNanosleep
        | Syscall::Ptrace
        | Syscall::RtSigaction
        | Syscall::RtSigprocmask
        | Syscall::Reboot
        | Syscall::Prlimit64
        | Syscall::Faccessat2 => seq![
            ArgRegister::X(0),
            ArgRegister::X(1),
            ArgRegister::X(2),
            ArgRegister::X(3),
        ],
        Syscall::Listxattr
        | Syscall::Llistxattr
        | Syscall::Flistxattr
        | Syscall::Dup3
        | Syscall::Fcntl
        | Syscall::Ioctl
        | Syscall::Mkdirat
        | Syscall::Unlinkat
        | Syscall::Symlinkat
        | Syscall::Faccessat
        | Syscall::Fchown
        | Syscall::Getdents64
        | Syscall::Lseek
        | Syscall::Read
        | Syscall::Write
        | Syscall::Readv
        | Syscall::Writev
        | Syscall::Syslog
        | Syscall::Getresuid
        | Syscall::Getresgid
        | Syscall::Prctl
        | Syscall::Execve
        | Syscall::Mprotect
        | Syscall::Mincore
        | Syscall::Getrandom
        | Syscall::CloseRange => seq![
            ArgRegister::X(0),
            ArgRegister::X(1),
            ArgRegister::X(2),
        ],
        Syscall::Removexattr
        | Syscall::Lremovexattr
        | Syscall::Fremovexattr
        | Syscall::Getcwd
        | Syscall::Statfs
        | Syscall::Fstatfs
        | Syscall::Truncate
        | Syscall::Ftruncate
        | Syscall::Fchmod
        | Syscall::Pipe2
        | Syscall::Fstat
        | Syscall::Capget
        | Syscall::Capset
        | Syscall::SetRobustList
        | Syscall::Nanosleep
        | Syscall::ClockSettime
        | Syscall::ClockGettime
        | Syscall::Kill
        | Syscall::Tkill
        | Syscall::Sigaltstack
        | Syscall::Setpgid
        | Syscall::Sethostname
        | Syscall::Gettimeofday
        | Syscall::Settimeofday
        | Syscall::Munmap => seq![
            ArgRegister::X(0),
            ArgRegister::X(1),
        ],
        Syscall::Dup
        | Syscall::Chdir
        | Syscall::Fchdir
        | Syscall::Chroot
        | Syscall::Close
        | Syscall::Fsync
        | Syscall::Fdatasync
        | Syscall::Exit
        | Syscall::ExitGroup
        | Syscall::SetTidAddress
        | Syscall::Setfsuid
        | Syscall::Setfsgid
        | Syscall::Getpgid
        | Syscall::Uname
        | Syscall::Umask
        | Syscall::Sysinfo
        | Syscall::Brk
        | Syscall::Syncfs => seq![
            ArgRegister::X(0),
        ],
        Syscall::Flock
        | Syscall::Sync
        | Syscall::SchedGetaffinity
        | Syscall::SchedYield
        | Syscall::RtSigreturn
        | Syscall::Getsid
        | Syscall::Setsid
        | Syscall::Getrlimit
        | Syscall::Getpid
        | Syscall::Getppid
        | Syscall::Getuid
        | Syscall::Geteuid
        | Syscall::Getgid
        | Syscall::Getegid
        | Syscall::Gettid
        | Syscall::Socket
        | Syscall::Fadvise64
        | Syscall::Madvise
        | Syscall::NameToHandleAt
        | Syscall::OpenByHandleAt
        | Syscall::Rseq
        | Syscall::ProcessMadvise => Seq::<ArgRegister>::empty(),
        Syscall::Pselect6
        | Syscall::Futex
        | Syscall::Mmap
        | Syscall::ProcessVmReadv
        | Syscall::CopyFileRange => seq![
            ArgRegister::X(0),
            ArgRegister::X(1),
            ArgRegister::X(2),
            ArgRegister::X(3),
            ArgRegister::X(4),
            ArgRegister::X(5),
        ],
        Syscall::Clone => seq![
            ArgRegister::X(0),
            ArgRegister::X(1),
            ArgRegister::X(2),
            ArgRegister::X(4),
            ArgRegister::X(3),
        ],
        Syscall::Wait4 => seq![
            ArgRegister::XSigned(0),
            ArgRegister::X(1),
            ArgRegister::X(2),
            ArgRegister::X(3),
        ],
    }
}

/// The value of an argument register, given the caller's registers `x0` to `x5`.
pub open spec fn register_value(r: ArgRegister, regs: Seq<u64>) -> HandlerArg {
    match r {
        ArgRegister::X(i) => HandlerArg::Unsigned(regs[i as int]),
        ArgRegister::XSigned(i) => HandlerArg::Signed(regs[i as int] as i64),
    }
}

/// The registers handed to the handler of `s`.
pub fn handler_register_list(s: Syscall) -> (r: Vec<ArgRegister>)
    ensures
        r@ == handler_registers(s),
        forall|k: int| 0 <= k < r@.len() ==> #[trigger] register_index(r@[k]) < 6,
{
    let r = match s {
        Syscall::Setxattr
        | Syscall::Lsetxattr
        | Syscall::Fsetxattr
        | Syscall::Linkat
        | Syscall::Fchownat
        | Syscall::Ppoll
        | Syscall::Waitid
        | Syscall::Renameat2
        | Syscall::Preadv2
        | Syscall::Pwritev2
        | Syscall::Statx => vec![
            ArgRegister::X(0),
            ArgRegister::X(1),
            ArgRegister::X(2),
            ArgRegister::X(3),
            ArgRegister::X(4),
        ],
        Syscall::Getxattr
        | Syscall::Lgetxattr
        | Syscall::Fgetxattr
        | Syscall::Renameat
        | Syscall::Fchmodat
        | Syscall::Openat
        | Syscall::Pread64
        | Syscall::Pwrite64
        | Syscall::Preadv
        | Syscall::Pwritev
        | Syscall::Sendfile
        | Syscall::Readlinkat
        | Syscall::Newfstatat
        | Syscall::Utimensat
        | Syscall::ClockNanosleep
        | Syscall::Ptrace
        | Syscall::RtSigaction
        | Syscall::RtSigprocmask
        | Syscall::Reboot
        | Syscall::Prlimit64
        | Syscall::Faccessat2 => vec![
            ArgRegister::X(0),
            ArgRegister::X(1),
            ArgRegister::X(2),
            ArgRegister::X(3),
        ],
        Syscall::Listxattr
        | Syscall::Llistxattr
        | Syscall::Flistxattr
        | Syscall::Dup3
        | Syscall::Fcntl
        | Syscall::Ioctl
        | Syscall::Mkdirat
        | Syscall::Unlinkat
        | Syscall::Symlinkat
        | Syscall::Faccessat
        | Syscall::Fchown
        | Syscall::Getdents64
        | Syscall::Lseek
        | Syscall::Read
        | Syscall::Write
        | Syscall::Readv
        | Syscall::Writev
        | Syscall::Syslog
        | Syscall::Getresuid
        | Syscall::Getresgid
        | Syscall::Prctl
        | Syscall::Execve
        | Syscall::Mprotect
        | Syscall::Mincore
        | Syscall::Getrandom
        | Syscall::CloseRange => vec![
            ArgRegister::X(0),
            ArgRegister::X(1),
            ArgRegister::X(2),
        ],
        Syscall::Removexattr
        | Syscall::Lremovexattr
        | Syscall::Fremovexattr
        | Syscall::Getcwd
        | Syscall::Statfs
        | Syscall::Fstatfs
        | Syscall::Truncate
        | Syscall::Ftruncate
        | Syscall::Fchmod
        | Syscall::Pipe2
        | Syscall::Fstat
        | Syscall::Capget
        | Syscall::Capset
        | Syscall::SetRobustList
        | Syscall::Nanosleep
        | Syscall::ClockSettime
        | Syscall::ClockGettime
        | Syscall::Kill
        | Syscall::Tkill
        | Syscall::Sigaltstack
        | Syscall::Setpgid
        | Syscall::Sethostname
        | Syscall::Gettimeofday
        | Syscall::Settimeofday
        | Syscall::Munmap => vec![
            ArgRegister::X(0),
            ArgRegister::X(1),
        ],
        Syscall::Dup
        | Syscall::Chdir
        | Syscall::Fchdir
        | Syscall::Chroot
        | Syscall::Close
        | Syscall::Fsync
        | Syscall::Fdatasync
        | Syscall::Exit
        | Syscall::ExitGroup
        | Syscall::SetTidAddress
        | Syscall::Setfsuid
        | Syscall::Setfsgid
        | Syscall::Getpgid
        | Syscall::Uname
        | Syscall::Umask
        | Syscall::Sysinfo
        | Syscall::Brk
        | Syscall::Syncfs => vec![
            ArgRegister::X(0),
        ],
        Syscall::Flock
        | Syscall::Sync
        | Syscall::SchedGetaffinity
        | Syscall::SchedYield
        | Syscall::RtSigreturn
        | Syscall::Getsid
        | Syscall::Setsid
        | Syscall::Getrlimit
        | Syscall::Getpid
        | Syscall::Getppid
        | Syscall::Getuid
        | Syscall::Geteuid
        | Syscall::Getgid
        | Syscall::Getegid
        | Syscall::Gettid
        | Syscall::Socket
        | Syscall::Fadvise64
        | Syscall::Madvise
        | Syscall::NameToHandleAt
        | Syscall::OpenByHandleAt
        | Syscall::Rseq
        | Syscall::ProcessMadvise => Vec::new(),
        Syscall::Pselect6
        | Syscall::Futex
        | Syscall::Mmap
        | Syscall::ProcessVmReadv
        | Syscall::CopyFileRange => vec![
            ArgRegister::X(0),
            ArgRegister::X(1),
            ArgRegister::X(2),
            ArgRegister::X(3),
            ArgRegister::X(4),
            ArgRegister::X(5),
        ],
        Syscall::Clone => vec![
            ArgRegister::X(0),
            ArgRegister::X(1),
            ArgRegister::X(2),
            ArgRegister::X(4),
            ArgRegister::X(3),
        ],
        Syscall::Wait4 => vec![
            ArgRegister::XSigned(0),
            ArgRegister::X(1),
            ArgRegister::X(2),
            ArgRegister::X(3),
        ],
    };
    assert(r@ =~= handler_registers(s));
    r
}

/// The register number an argument register names.
pub open spec fn register_index(r: ArgRegister) -> u8 {
    match r {
        ArgRegister::X(i) => i,
        ArgRegister::XSigned(i) => i,
    }
}

/// The arguments for the handler of `s`, taken from the caller's registers
/// `x0` to `x5`.
pub fn handler_arguments(s: Syscall, regs: [u64; 6]) -> (args: Vec<HandlerArg>)
    ensures
        args@ == handler_registers(s).map_values(|r: ArgRegister| register_value(r, regs@)),
{
    let list = handler_register_list(s);
    let mut args: Vec<HandlerArg> = Vec::new();
    let mut k: usize = 0;
    while k < list.len()
        invariant
            0 <= k <= list@.len(),
            list@ == handler_registers(s),
            forall|j: int| 0 <= j < list@.len() ==> #[trigger] register_index(list@[j]) < 6,
            args@ == list@.take(k as int).map_values(|r: ArgRegister| register_value(r, regs@)),
        decreases list@.len() - k,
    {
        assert(register_index(list@[k as int]) < 6);
        let a = match list[k] {
            ArgRegister::X(i) => HandlerArg::Unsigned(regs[i as usize]),
            ArgRegister::XSigned(i) => HandlerArg::Signed(regs[i as usize] as i64),
        };
        args.push(a);
        assert(list@.take(k + 1) =~= list@.take(k as int).push(list@[k as int]));
        assert(args@ =~= list@.take(k + 1).map_values(|r: ArgRegister| register_value(r, regs@)));
        k += 1;
    }
    assert(list@.take(k as int) =~= list@);
    args
}

} // verus!
