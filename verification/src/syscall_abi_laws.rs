use vstd::prelude::*;

use crate::syscall_args::{handler_registers, ArgRegister};
use crate::syscall_table::{
    fixed_outcome, lemma_decode_number, syscall_number, syscall_of, writes_return_value, Syscall,
    SyscallError,
};

verus! {

/// The AArch64 Linux system call numbers of the calls the dispatcher knows;
/// decoding any of these numbers gives back its call.
pub proof fn lemma_abi_numbers(s: Syscall)
    ensures
        syscall_number(Syscall::Setxattr) == 0x5,
        syscall_number(Syscall::Lsetxattr) == 0x6,
        syscall_number(Syscall::Fsetxattr) == 0x7,
        syscall_number(Syscall::Getxattr) == 0x8,
        syscall_number(Syscall::Lgetxattr) == 0x9,
        syscall_number(Syscall::Fgetxattr) == 0xa,
        syscall_number(Syscall::Listxattr) == 0xb,
        syscall_number(Syscall::Llistxattr) == 0xc,
        syscall_number(Syscall::Flistxattr) == 0xd,
        syscall_number(Syscall::Removexattr) == 0xe,
        syscall_number(Syscall::Lremovexattr) == 0xf,
        syscall_number(Syscall::Fremovexattr) == 0x10,
        syscall_number(Syscall::Getcwd) == 0x11,
        syscall_number(Syscall::Dup) == 0x17,
        syscall_number(Syscall::Dup3) == 0x18,
        syscall_number(Syscall::Fcntl) == 0x19,
        syscall_number(Syscall::Ioctl) == 0x1d,
        syscall_number(Syscall::Flock) == 0x20,
        syscall_number(Syscall::Mkdirat) == 0x22,
        syscall_number(Syscall::Unlinkat) == 0x23,
        syscall_number(Syscall::Symlinkat) == 0x24,
        syscall_number(Syscall::Linkat) == 0x25,
        syscall_number(Syscall::Renameat) == 0x26,
        syscall_number(Syscall::Statfs) == 0x2b,
        syscall_number(Syscall::Fstatfs) == 0x2c,
        syscall_number(Syscall::Truncate) == 0x2d,
        syscall_number(Syscall::Ftruncate) == 0x2e,
        syscall_number(Syscall::Faccessat) == 0x30,
        syscall_number(Syscall::Chdir) == 0x31,
        syscall_number(Syscall::Fchdir) == 0x32,
        syscall_number(Syscall::Chroot) == 0x33,
        syscall_number(Syscall::Fchmod) == 0x34,
        syscall_number(Syscall::Fchmodat) == 0x35,
        syscall_number(Syscall::Fchownat) == 0x36,
        syscall_number(Syscall::Fchown) == 0x37,
        syscall_number(Syscall::Openat) == 0x38,
        syscall_number(Syscall::Close) == 0x39,
        syscall_number(Syscall::Pipe2) == 0x3b,
        syscall_number(Syscall::Getdents64) == 0x3d,
        syscall_number(Syscall::Lseek) == 0x3e,
        syscall_number(Syscall::Read) == 0x3f,
        syscall_number(Syscall::Write) == 0x40,
        syscall_number(Syscall::Readv) == 0x41,
        syscall_number(Syscall::Writev) == 0x42,
        syscall_number(Syscall::Pread64) == 0x43,
        syscall_number(Syscall::Pwrite64) == 0x44,
        syscall_number(Syscall::Preadv) == 0x45,
        syscall_number(Syscall::Pwritev) == 0x46,
        syscall_number(Syscall::Sendfile) == 0x47,
        syscall_number(Syscall::Pselect6) == 0x48,
        syscall_number(Syscall::Ppoll) == 0x49,
        syscall_number(Syscall::Readlinkat) == 0x4e,
        syscall_number(Syscall::Newfstatat) == 0x4f,
        syscall_number(Syscall::Fstat) == 0x50,
        syscall_number(Syscall::Sync) == 0x51,
        syscall_number(Syscall::Fsync) == 0x52,
        syscall_number(Syscall::Fdatasync) == 0x53,
        syscall_number(Syscall::Utimensat) == 0x58,
        syscall_number(Syscall::Capget) == 0x5a,
        syscall_number(Syscall::Capset) == 0x5b,
        syscall_number(Syscall::Exit) == 0x5d,
        syscall_number(Syscall::ExitGroup) == 0x5e,
        syscall_number(Syscall::Waitid) == 0x5f,
        syscall_number(Syscall::SetTidAddress) == 0x60,
        syscall_number(Syscall::Futex) == 0x62,
        syscall_number(Syscall::SetRobustList) == 0x63,
        syscall_number(Syscall::Nanosleep) == 0x65,
        syscall_number(Syscall::ClockSettime) == 0x70,
        syscall_number(Syscall::ClockGettime) == 0x71,
        syscall_number(Syscall::ClockNanosleep) == 0x73,
        syscall_number(Syscall::Syslog) == 0x74,
        syscall_number(Syscall::Ptrace) == 0x75,
        syscall_number(Syscall::SchedGetaffinity) == 0x7b,
        syscall_number(Syscall::SchedYield) == 0x7c,
        syscall_number(Syscall::Kill) == 0x81,
        syscall_number(Syscall::Tkill) == 0x82,
        syscall_number(Syscall::Sigaltstack) == 0x84,
        syscall_number(Syscall::RtSigaction) == 0x86,
        syscall_number(Syscall::RtSigprocmask) == 0x87,
        syscall_number(Syscall::RtSigreturn) == 0x8b,
        syscall_number(Syscall::Reboot) == 0x8e,
        syscall_number(Syscall::Getresuid) == 0x94,
        syscall_number(Syscall::Getresgid) == 0x96,
        syscall_number(Syscall::Setfsuid) == 0x97,
        syscall_number(Syscall::Setfsgid) == 0x98,
        syscall_number(Syscall::Setpgid) == 0x9a,
        syscall_number(Syscall::Getpgid) == 0x9b,
        syscall_number(Syscall::Getsid) == 0x9c,
        syscall_number(Syscall::Setsid) == 0x9d,
        syscall_number(Syscall::Uname) == 0xa0,
        syscall_number(Syscall::Sethostname) == 0xa1,
        syscall_number(Syscall::Getrlimit) == 0xa3,
        syscall_number(Syscall::Umask) == 0xa6,
        syscall_number(Syscall::Prctl) == 0xa7,
        syscall_number(Syscall::Gettimeofday) == 0xa9,
        syscall_number(Syscall::Settimeofday) == 0xaa,
        syscall_number(Syscall::Getpid) == 0xac,
        syscall_number(Syscall::Getppid) == 0xad,
        syscall_number(Syscall::Getuid) == 0xae,
        syscall_number(Syscall::Geteuid) == 0xaf,
        syscall_number(Syscall::Getgid) == 0xb0,
        syscall_number(Syscall::Getegid) == 0xb1,
        syscall_number(Syscall::Gettid) == 0xb2,
        syscall_number(Syscall::Sysinfo) == 0xb3,
        syscall_number(Syscall::Socket) == 0xc6,
        syscall_number(Syscall::Brk) == 0xd6,
        syscall_number(Syscall::Munmap) == 0xd7,
        syscall_number(Syscall::Clone) == 0xdc,
        syscall_number(Syscall::Execve) == 0xdd,
        syscall_number(Syscall::Mmap) == 0xde,
        syscall_number(Syscall::Fadvise64) == 0xdf,
        syscall_number(Syscall::Mprotect) == 0xe2,
        syscall_number(Syscall::Mincore) == 0xe8,
        syscall_number(Syscall::Madvise) == 0xe9,
        syscall_number(Syscall::Wait4) == 0x104,
        syscall_number(Syscall::Prlimit64) == 0x105,
        syscall_number(Syscall::NameToHandleAt) == 0x108,
        syscall_number(Syscall::OpenByHandleAt) == 0x109,
        syscall_number(Syscall::Syncfs) == 0x10b,
        syscall_number(Syscall::ProcessVmReadv) == 0x10e,
        syscall_number(Syscall::Renameat2) == 0x114,
        syscall_number(Syscall::Getrandom) == 0x116,
        syscall_number(Syscall::CopyFileRange) == 0x11d,
        syscall_number(Syscall::Preadv2) == 0x11e,
        syscall_number(Syscall::Pwritev2) == 0x11f,
        syscall_number(Syscall::Statx) == 0x123,
        syscall_number(Syscall::Rseq) == 0x125,
        syscall_number(Syscall::CloseRange) == 0x1b4,
        syscall_number(Syscall::Faccessat2) == 0x1b7,
        syscall_number(Syscall::ProcessMadvise) == 0x1b8,
        syscall_of(syscall_number(s)) == Some(s),
{
    lemma_decode_number(s);
}

/// The dispatcher answers by number without a handler only for `flock`
/// (0x20), `fadvise64` (0xdf), `madvise` (0xe9) and `process_madvise` (0x1b8),
/// which succeed with 0, for `sched_getaffinity` (0x7b), `socket` (0xc6),
/// `open_by_handle_at` (0x109) and `rseq` (0x125), which are not supported,
/// and for `getrlimit` (0xa3), which is refused as invalid; every other call
/// runs its handler.
pub proof fn lemma_fixed_outcomes(s: Syscall)
    ensures
        ({
            let n = syscall_number(s);
            fixed_outcome(s) == if n == 0x20 || n == 0xdf || n == 0xe9 || n == 0x1b8 {
                Some(Ok::<usize, SyscallError>(0))
            } else if n == 0x7b || n == 0xc6 || n == 0x109 || n == 0x125 {
                Some(Err::<usize, SyscallError>(SyscallError::NotSupported))
            } else if n == 0xa3 {
                Some(Err::<usize, SyscallError>(SyscallError::InvalidValue))
            } else {
                None
            }
        }),
{
}

/// Only `exit` (0x5d), `exit_group` (0x5e) and `rt_sigreturn` (0x8b) leave
/// the caller's return register alone; every other call writes its result.
pub proof fn lemma_return_register_calls(s: Syscall)
    ensures
        !writes_return_value(s) <==> (syscall_number(s) == 0x5d || syscall_number(s) == 0x5e
            || syscall_number(s) == 0x8b),
{
}

/// Handlers take the caller's registers in order: the `k`-th parameter is
/// `xk`, read unsigned. The two exceptions are `clone`, whose fourth and
/// fifth parameters come from `x4` and `x3`, and `wait4`, whose pid is `x0`
/// read as a signed value.
pub proof fn lemma_handler_register_order(s: Syscall, k: int)
    ensures
        s != Syscall::Clone && s != Syscall::Wait4 && 0 <= k < handler_registers(s).len()
            ==> handler_registers(s)[k] == ArgRegister::X(k as u8),
        handler_registers(Syscall::Clone) == seq![
            ArgRegister::X(0),
            ArgRegister::X(1),
            ArgRegister::X(2),
            ArgRegister::X(4),
            ArgRegister::X(3),
        ],
        handler_registers(Syscall::Wait4) == seq![
            ArgRegister::XSigned(0),
            ArgRegister::X(1),
            ArgRegister::X(2),
            ArgRegister::X(3),
        ],
{
}

/// How many caller registers each handler takes: its number of parameters
/// (none for the calls answered without a handler and for `rt_sigreturn`).
pub proof fn lemma_handler_arity()
    ensures
        handler_registers(Syscall::Setxattr).len() == 5,
        handler_registers(Syscall::Lsetxattr).len() == 5,
        handler_registers(Syscall::Fsetxattr).len() == 5,
        handler_registers(Syscall::Getxattr).len() == 4,
        handler_registers(Syscall::Lgetxattr).len() == 4,
        handler_registers(Syscall::Fgetxattr).len() == 4,
        handler_registers(Syscall::Listxattr).len() == 3,
        handler_registers(Syscall::Llistxattr).len() == 3,
        handler_registers(Syscall::Flistxattr).len() == 3,
        handler_registers(Syscall::Removexattr).len() == 2,
        handler_registers(Syscall::Lremovexattr).len() == 2,
        handler_registers(Syscall::Fremovexattr).len() == 2,
        handler_registers(Syscall::Getcwd).len() == 2,
        handler_registers(Syscall::Dup).len() == 1,
        handler_registers(Syscall::Dup3).len() == 3,
        handler_registers(Syscall::Fcntl).len() == 3,
        handler_registers(Syscall::Ioctl).len() == 3,
        handler_registers(Syscall::Flock).len() == 0,
        handler_registers(Syscall::Mkdirat).len() == 3,
        handler_registers(Syscall::Unlinkat).len() == 3,
        handler_registers(Syscall::Symlinkat).len() == 3,
        handler_registers(Syscall::Linkat).len() == 5,
        handler_registers(Syscall::Renameat).len() == 4,
        handler_registers(Syscall::Statfs).len() == 2,
        handler_registers(Syscall::Fstatfs).len() == 2,
        handler_registers(Syscall::Truncate).len() == 2,
        handler_registers(Syscall::Ftruncate).len() == 2,
        handler_registers(Syscall::Faccessat).len() == 3,
        handler_registers(Syscall::Chdir).len() == 1,
        handler_registers(Syscall::Fchdir).len() == 1,
        handler_registers(Syscall::Chroot).len() == 1,
        handler_registers(Syscall::Fchmod).len() == 2,
        handler_registers(Syscall::Fchmodat).len() == 4,
        handler_registers(Syscall::Fchownat).len() == 5,
        handler_registers(Syscall::Fchown).len() == 3,
        handler_registers(Syscall::Openat).len() == 4,
        handler_registers(Syscall::Close).len() == 1,
        handler_registers(Syscall::Pipe2).len() == 2,
        handler_registers(Syscall::Getdents64).len() == 3,
        handler_registers(Syscall::Lseek).len() == 3,
        handler_registers(Syscall::Read).len() == 3,
        handler_registers(Syscall::Write).len() == 3,
        handler_registers(Syscall::Readv).len() == 3,
        handler_registers(Syscall::Writev).len() == 3,
        handler_registers(Syscall::Pread64).len() == 4,
        handler_registers(Syscall::Pwrite64).len() == 4,
        handler_registers(Syscall::Preadv).len() == 4,
        handler_registers(Syscall::Pwritev).len() == 4,
        handler_registers(Syscall::Sendfile).len() == 4,
        handler_registers(Syscall::Pselect6).len() == 6,
        handler_registers(Syscall::Ppoll).len() == 5,
        handler_registers(Syscall::Readlinkat).len() == 4,
        handler_registers(Syscall::Newfstatat).len() == 4,
        handler_registers(Syscall::Fstat).len() == 2,
        handler_registers(Syscall::Sync).len() == 0,
        handler_registers(Syscall::Fsync).len() == 1,
        handler_registers(Syscall::Fdatasync).len() == 1,
        handler_registers(Syscall::Utimensat).len() == 4,
        handler_registers(Syscall::Capget).len() == 2,
        handler_registers(Syscall::Capset).len() == 2,
        handler_registers(Syscall::Exit).len() == 1,
        handler_registers(Syscall::ExitGroup).len() == 1,
        handler_registers(Syscall::Waitid).len() == 5,
        handler_registers(Syscall::SetTidAddress).len() == 1,
        handler_registers(Syscall::Futex).len() == 6,
        handler_registers(Syscall::SetRobustList).len() == 2,
        handler_registers(Syscall::Nanosleep).len() == 2,
        handler_registers(Syscall::ClockSettime).len() == 2,
        handler_registers(Syscall::ClockGettime).len() == 2,
        handler_registers(Syscall::ClockNanosleep).len() == 4,
        handler_registers(Syscall::Syslog).len() == 3,
        handler_registers(Syscall::Ptrace).len() == 4,
        handler_registers(Syscall::SchedGetaffinity).len() == 0,
        handler_registers(Syscall::SchedYield).len() == 0,
        handler_registers(Syscall::Kill).len() == 2,
        handler_registers(Syscall::Tkill).len() == 2,
        handler_registers(Syscall::Sigaltstack).len() == 2,
        handler_registers(Syscall::RtSigaction).len() == 4,
        handler_registers(Syscall::RtSigprocmask).len() == 4,
        handler_registers(Syscall::RtSigreturn).len() == 0,
        handler_registers(Syscall::Reboot).len() == 4,
        handler_registers(Syscall::Getresuid).len() == 3,
        handler_registers(Syscall::Getresgid).len() == 3,
        handler_registers(Syscall::Setfsuid).len() == 1,
        handler_registers(Syscall::Setfsgid).len() == 1,
        handler_registers(Syscall::Setpgid).len() == 2,
        handler_registers(Syscall::Getpgid).len() == 1,
        handler_registers(Syscall::Getsid).len() == 0,
        handler_registers(Syscall::Setsid).len() == 0,
        handler_registers(Syscall::Uname).len() == 1,
        handler_registers(Syscall::Sethostname).len() == 2,
        handler_registers(Syscall::Getrlimit).len() == 0,
        handler_registers(Syscall::Umask).len() == 1,
        handler_registers(Syscall::Prctl).len() == 3,
        handler_registers(Syscall::Gettimeofday).len() == 2,
        handler_registers(Syscall::Settimeofday).len() == 2,
        handler_registers(Syscall::Getpid).len() == 0,
        handler_registers(Syscall::Getppid).len() == 0,
        handler_registers(Syscall::Getuid).len() == 0,
        handler_registers(Syscall::Geteuid).len() == 0,
        handler_registers(Syscall::Getgid).len() == 0,
        handler_registers(Syscall::Getegid).len() == 0,
        handler_registers(Syscall::Gettid).len() == 0,
        handler_registers(Syscall::Sysinfo).len() == 1,
        handler_registers(Syscall::Socket).len() == 0,
        handler_registers(Syscall::Brk).len() == 1,
        handler_registers(Syscall::Munmap).len() == 2,
        handler_registers(Syscall::Clone).len() == 5,
        handler_registers(Syscall::Execve).len() == 3,
        handler_registers(Syscall::Mmap).len() == 6,
        handler_registers(Syscall::Fadvise64).len() == 0,
        handler_registers(Syscall::Mprotect).len() == 3,
        handler_registers(Syscall::Mincore).len() == 3,
        handler_registers(Syscall::Madvise).len() == 0,
        handler_registers(Syscall::Wait4).len() == 4,
        handler_registers(Syscall::Prlimit64).len() == 4,
        handler_registers(Syscall::NameToHandleAt).len() == 0,
        handler_registers(Syscall::OpenByHandleAt).len() == 0,
        handler_registers(Syscall::Syncfs).len() == 1,
        handler_registers(Syscall::ProcessVmReadv).len() == 6,
        handler_registers(Syscall::Renameat2).len() == 5,
        handler_registers(Syscall::Getrandom).len() == 3,
        handler_registers(Syscall::CopyFileRange).len() == 6,
        handler_registers(Syscall::Preadv2).len() == 5,
        handler_registers(Syscall::Pwritev2).len() == 5,
        handler_registers(Syscall::Statx).len() == 5,
        handler_registers(Syscall::Rseq).len() == 0,
        handler_registers(Syscall::CloseRange).len() == 3,
        handler_registers(Syscall::Faccessat2).len() == 4,
        handler_registers(Syscall::ProcessMadvise).len() == 0,
{
}

} // verus!
