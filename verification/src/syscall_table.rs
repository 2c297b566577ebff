use vstd::prelude::*;

verus! {

/// The system calls that the kernel's dispatcher knows, by their AArch64
/// numbers.
#[derive(Clone, Copy, Debug, PartialEq, Eq, Structural)]
pub enum Syscall {
    /// `setxattr`, number 0x5.
    Setxattr,
    /// `lsetxattr`, number 0x6.
    Lsetxattr,
    /// `fsetxattr`, number 0x7.
    Fsetxattr,
    /// `getxattr`, number 0x8.
    Getxattr,
    /// `lgetxattr`, number 0x9.
    Lgetxattr,
    /// `fgetxattr`, number 0xa.
    Fgetxattr,
    /// `listxattr`, number 0xb.
    Listxattr,
    /// `llistxattr`, number 0xc.
    Llistxattr,
    /// `flistxattr`, number 0xd.
    Flistxattr,
    /// `removexattr`, number 0xe.
    Removexattr,
    /// `lremovexattr`, number 0xf.
    Lremovexattr,
    /// `fremovexattr`, number 0x10.
    Fremovexattr,
    /// `getcwd`, number 0x11.
    Getcwd,
    /// `dup`, number 0x17.
    Dup,
    /// `dup3`, number 0x18.
    Dup3,
    /// `fcntl`, number 0x19.
    Fcntl,
    /// `ioctl`, number 0x1d.
    Ioctl,
    /// `flock`, number 0x20.
    Flock,
    /// `mkdirat`, number 0x22.
    Mkdirat,
    /// `unlinkat`, number 0x23.
    Unlinkat,
    /// `symlinkat`, number 0x24.
    Symlinkat,
    /// `linkat`, number 0x25.
    Linkat,
    /// `renameat`, number 0x26.
    Renameat,
    /// `statfs`, number 0x2b.
    Statfs,
    /// `fstatfs`, number 0x2c.
    Fstatfs,
    /// `truncate`, number 0x2d.
    Truncate,
    /// `ftruncate`, number 0x2e.
    Ftruncate,
    /// `faccessat`, number 0x30.
    Faccessat,
    /// `chdir`, number 0x31.
    Chdir,
    /// `fchdir`, number 0x32.
    Fchdir,
    /// `chroot`, number 0x33.
    Chroot,
    /// `fchmod`, number 0x34.
    Fchmod,
    /// `fchmodat`, number 0x35.
    Fchmodat,
    /// `fchownat`, number 0x36.
    Fchownat,
    /// `fchown`, number 0x37.
    Fchown,
    /// `openat`, number 0x38.
    Openat,
    /// `close`, number 0x39.
    Close,
    /// `pipe2`, number 0x3b.
    Pipe2,
    /// `getdents64`, number 0x3d.
    Getdents64,
    /// `lseek`, number 0x3e.
    Lseek,
    /// `read`, number 0x3f.
    Read,
    /// `write`, number 0x40.
    Write,
    /// `readv`, number 0x41.
    Readv,
    /// `writev`, number 0x42.
    Writev,
    /// `pread64`, number 0x43.
    Pread64,
    /// `pwrite64`, number 0x44.
    Pwrite64,
    /// `preadv`, number 0x45.
    Preadv,
    /// `pwritev`, number 0x46.
    Pwritev,
    /// `sendfile`, number 0x47.
    Sendfile,
    /// `pselect6`, number 0x48.
    Pselect6,
    /// `ppoll`, number 0x49.
    Ppoll,
    /// `readlinkat`, number 0x4e.
    Readlinkat,
    /// `newfstatat`, number 0x4f.
    Newfstatat,
    /// `fstat`, number 0x50.
    Fstat,
    /// `sync`, number 0x51.
    Sync,
    /// `fsync`, number 0x52.
    Fsync,
    /// `fdatasync`, number 0x53.
    Fdatasync,
    /// `utimensat`, number 0x58.
    Utimensat,
    /// `capget`, number 0x5a.
    Capget,
    /// `capset`, number 0x5b.
    Capset,
    /// `exit`, number 0x5d.
    Exit,
    /// `exit_group`, number 0x5e.
    ExitGroup,
    /// `waitid`, number 0x5f.
    Waitid,
    /// `set_tid_address`, number 0x60.
    SetTidAddress,
    /// `futex`, number 0x62.
    Futex,
    /// `set_robust_list`, number 0x63.
    SetRobustList,
    /// `nanosleep`, number 0x65.
    Nanosleep,
    /// `clock_settime`, number 0x70.
    ClockSettime,
    /// `clock_gettime`, number 0x71.
    ClockGettime,
    /// `clock_nanosleep`, number 0x73.
    ClockNanosleep,
    /// `syslog`, number 0x74.
    Syslog,
    /// `ptrace`, number 0x75.
    Ptrace,
    /// `sched_getaffinity`, number 0x7b.
    SchedGetaffinity,
    /// `sched_yield`, number 0x7c.
    SchedYield,
    /// `kill`, number 0x81.
    Kill,
    /// `tkill`, number 0x82.
    Tkill,
    /// `sigaltstack`, number 0x84.
    Sigaltstack,
    /// `rt_sigaction`, number 0x86.
    RtSigaction,
    /// `rt_sigprocmask`, number 0x87.
    RtSigprocmask,
    /// `rt_sigreturn`, number 0x8b.
    RtSigreturn,
    /// `reboot`, number 0x8e.
    Reboot,
    /// `getresuid`, number 0x94.
    Getresuid,
    /// `getresgid`, number 0x96.
    Getresgid,
    /// `setfsuid`, number 0x97.
    Setfsuid,
    /// `setfsgid`, number 0x98.
    Setfsgid,
    /// `setpgid`, number 0x9a.
    Setpgid,
    /// `getpgid`, number 0x9b.
    Getpgid,
    /// `getsid`, number 0x9c.
    Getsid,
    /// `setsid`, number 0x9d.
    Setsid,
    /// `uname`, number 0xa0.
    Uname,
    /// `sethostname`, number 0xa1.
    Sethostname,
    /// `getrlimit`, number 0xa3.
    Getrlimit,
    /// `umask`, number 0xa6.
    Umask,
    /// `prctl`, number 0xa7.
    Prctl,
    /// `gettimeofday`, number 0xa9.
    Gettimeofday,
    /// `settimeofday`, number 0xaa.
    Settimeofday,
    /// `getpid`, number 0xac.
    Getpid,
    /// `getppid`, number 0xad.
    Getppid,
    /// `getuid`, number 0xae.
    Getuid,
    /// `geteuid`, number 0xaf.
    Geteuid,
    /// `getgid`, number 0xb0.
    Getgid,
    /// `getegid`, number 0xb1.
    Getegid,
    /// `gettid`, number 0xb2.
    Gettid,
    /// `sysinfo`, number 0xb3.
    Sysinfo,
    /// `socket`, number 0xc6.
    Socket,
    /// `brk`, number 0xd6.
    Brk,
    /// `munmap`, number 0xd7.
    Munmap,
    /// `clone`, number 0xdc.
    Clone,
    /// `execve`, number 0xdd.
    Execve,
    /// `mmap`, number 0xde.
    Mmap,
    /// `fadvise64`, number 0xdf.
    Fadvise64,
    /// `mprotect`, number 0xe2.
    Mprotect,
    /// `mincore`, number 0xe8.
    Mincore,
    /// `madvise`, number 0xe9.
    Madvise,
    /// `wait4`, number 0x104.
    Wait4,
    /// `prlimit64`, number 0x105.
    Prlimit64,
    /// `name_to_handle_at`, number 0x108.
    NameToHandleAt,
    /// `open_by_handle_at`, number 0x109.
    OpenByHandleAt,
    /// `syncfs`, number 0x10b.
    Syncfs,
    /// `process_vm_readv`, number 0x10e.
    ProcessVmReadv,
    /// `renameat2`, number 0x114.
    Renameat2,
    /// `getrandom`, number 0x116.
    Getrandom,
    /// `copy_file_range`, number 0x11d.
    CopyFileRange,
    /// `preadv2`, number 0x11e.
    Preadv2,
    /// `pwritev2`, number 0x11f.
    Pwritev2,
    /// `statx`, number 0x123.
    Statx,
    /// `rseq`, number 0x125.
    Rseq,
    /// `close_range`, number 0x1b4.
    CloseRange,
    /// `faccessat2`, number 0x1b7.
    Faccessat2,
    /// `process_madvise`, number 0x1b8.
    ProcessMadvise,
}

/// The AArch64 number of each known system call.
pub open spec fn syscall_number(s: Syscall) -> u32 {
    match s {
        Syscall::Setxattr => 0x5,
        Syscall::Lsetxattr => 0x6,
        Syscall::Fsetxattr => 0x7,
        Syscall::Getxattr => 0x8,
        Syscall::Lgetxattr => 0x9,
        Syscall::Fgetxattr => 0xa,
        Syscall::Listxattr => 0xb,
        Syscall::Llistxattr => 0xc,
        Syscall::Flistxattr => 0xd,
        Syscall::Removexattr => 0xe,
        Syscall::Lremovexattr => 0xf,
        Syscall::Fremovexattr => 0x10,
        Syscall::Getcwd => 0x11,
        Syscall::Dup => 0x17,
        Syscall::Dup3 => 0x18,
        Syscall::Fcntl => 0x19,
        Syscall::Ioctl => 0x1d,
        Syscall::Flock => 0x20,
        Syscall::Mkdirat => 0x22,
        Syscall::Unlinkat => 0x23,
        Syscall::Symlinkat => 0x24,
        Syscall::Linkat => 0x25,
        Syscall::Renameat => 0x26,
        Syscall::Statfs => 0x2b,
        Syscall::Fstatfs => 0x2c,
        Syscall::Truncate => 0x2d,
        Syscall::Ftruncate => 0x2e,
        Syscall::Faccessat => 0x30,
        Syscall::Chdir => 0x31,
        Syscall::Fchdir => 0x32,
        Syscall::Chroot => 0x33,
        Syscall::Fchmod => 0x34,
        Syscall::Fchmodat => 0x35,
        Syscall::Fchownat => 0x36,
        Syscall::Fchown => 0x37,
        Syscall::Openat => 0x38,
        Syscall::Close => 0x39,
        Syscall::Pipe2 => 0x3b,
        Syscall::Getdents64 => 0x3d,
        Syscall::Lseek => 0x3e,
        Syscall::Read => 0x3f,
        Syscall::Write => 0x40,
        Syscall::Readv => 0x41,
        Syscall::Writev => 0x42,
        Syscall::Pread64 => 0x43,
        Syscall::Pwrite64 => 0x44,
        Syscall::Preadv => 0x45,
        Syscall::Pwritev => 0x46,
        Syscall::Sendfile => 0x47,
        Syscall::Pselect6 => 0x48,
        Syscall::Ppoll => 0x49,
        Syscall::Readlinkat => 0x4e,
        Syscall::Newfstatat => 0x4f,
        Syscall::Fstat => 0x50,
        Syscall::Sync => 0x51,
        Syscall::Fsync => 0x52,
        Syscall::Fdatasync => 0x53,
        Syscall::Utimensat => 0x58,
        Syscall::Capget => 0x5a,
        Syscall::Capset => 0x5b,
        Syscall::Exit => 0x5d,
        Syscall::ExitGroup => 0x5e,
        Syscall::Waitid => 0x5f,
        Syscall::SetTidAddress => 0x60,
        Syscall::Futex => 0x62,
        Syscall::SetRobustList => 0x63,
        Syscall::Nanosleep => 0x65,
        Syscall::ClockSettime => 0x70,
        Syscall::ClockGettime => 0x71,
        Syscall::ClockNanosleep => 0x73,
        Syscall::Syslog => 0x74,
        Syscall::Ptrace => 0x75,
        Syscall::SchedGetaffinity => 0x7b,
        Syscall::SchedYield => 0x7c,
        Syscall::Kill => 0x81,
        Syscall::Tkill => 0x82,
        Syscall::Sigaltstack => 0x84,
        Syscall::RtSigaction => 0x86,
        Syscall::RtSigprocmask => 0x87,
        Syscall::RtSigreturn => 0x8b,
        Syscall::Reboot => 0x8e,
        Syscall::Getresuid => 0x94,
        Syscall::Getresgid => 0x96,
        Syscall::Setfsuid => 0x97,
        Syscall::Setfsgid => 0x98,
        Syscall::Setpgid => 0x9a,
        Syscall::Getpgid => 0x9b,
        Syscall::Getsid => 0x9c,
        Syscall::Setsid => 0x9d,
        Syscall::Uname => 0xa0,
        Syscall::Sethostname => 0xa1,
        Syscall::Getrlimit => 0xa3,
        Syscall::Umask => 0xa6,
        Syscall::Prctl => 0xa7,
        Syscall::Gettimeofday => 0xa9,
        Syscall::Settimeofday => 0xaa,
        Syscall::Getpid => 0xac,
        Syscall::Getppid => 0xad,
        Syscall::Getuid => 0xae,
        Syscall::Geteuid => 0xaf,
        Syscall::Getgid => 0xb0,
        Syscall::Getegid => 0xb1,
        Syscall::Gettid => 0xb2,
        Syscall::Sysinfo => 0xb3,
        Syscall::Socket => 0xc6,
        Syscall::Brk => 0xd6,
        Syscall::Munmap => 0xd7,
        Syscall::Clone => 0xdc,
        Syscall::Execve => 0xdd,
        Syscall::Mmap => 0xde,
        Syscall::Fadvise64 => 0xdf,
        Syscall::Mprotect => 0xe2,
        Syscall::Mincore => 0xe8,
        Syscall::Madvise => 0xe9,
        Syscall::Wait4 => 0x104,
        Syscall::Prlimit64 => 0x105,
        Syscall::NameToHandleAt => 0x108,
        Syscall::OpenByHandleAt => 0x109,
        Syscall::Syncfs => 0x10b,
        Syscall::ProcessVmReadv => 0x10e,
        Syscall::Renameat2 => 0x114,
        Syscall::Getrandom => 0x116,
        Syscall::CopyFileRange => 0x11d,
        Syscall::Preadv2 => 0x11e,
        Syscall::Pwritev2 => 0x11f,
        Syscall::Statx => 0x123,
        Syscall::Rseq => 0x125,
        Syscall::CloseRange => 0x1b4,
        Syscall::Faccessat2 => 0x1b7,
        Syscall::ProcessMadvise => 0x1b8,
    }
}

/// The known system call with number `nr`, if any: the inverse of
/// `syscall_number`.
pub open spec fn syscall_of(nr: u32) -> Option<Syscall> {
    if exists|s: Syscall| #[trigger] syscall_number(s) == nr {
        Some(choose|s: Syscall| #[trigger] syscall_number(s) == nr)
    } else {
        None
    }
}

/// No two known system calls share a number.
pub proof fn lemma_numbers_distinct(a: Syscall, b: Syscall)
    ensures
        syscall_number(a) == syscall_number(b) ==> a == b,
{
}

/// Decoding a call's number gives back that call.
pub proof fn lemma_decode_number(a: Syscall)
    ensures
        syscall_of(syscall_number(a)) == Some(a),
{
    let c = choose|s: Syscall| #[trigger] syscall_number(s) == syscall_number(a);
    lemma_numbers_distinct(c, a);
}

/// Decoding only yields calls with the decoded number, and yields one for
/// every number that a known call has.
pub proof fn lemma_decode_sound(nr: u32)
    ensures
        match syscall_of(nr) {
            Some(s) => syscall_number(s) == nr,
            None => forall|s: Syscall| #[trigger] syscall_number(s) != nr,
        },
{
}

/// Decodes a system call number: the known call with that number, or `None`
/// for a number no known call has (the dispatcher panics on those).
pub fn decode_syscall(nr: u32) -> (r: Option<Syscall>)
    ensures
        r == syscall_of(nr),
        match r {
            Some(s) => syscall_number(s) == nr,
            None => forall|s: Syscall| #[trigger] syscall_number(s) != nr,
        },
{
    let r = match nr {
        0x5 => Some(Syscall::Setxattr),
        0x6 => Some(Syscall::Lsetxattr),
        0x7 => Some(Syscall::Fsetxattr),
        0x8 => Some(Syscall::Getxattr),
        0x9 => Some(Syscall::Lgetxattr),
        0xa => Some(Syscall::Fgetxattr),
        0xb => Some(Syscall::Listxattr),
        0xc => Some(Syscall::Llistxattr),
        0xd => Some(Syscall::Flistxattr),
        0xe => Some(Syscall::Removexattr),
        0xf => Some(Syscall::Lremovexattr),
        0x10 => Some(Syscall::Fremovexattr),
        0x11 => Some(Syscall::Getcwd),
        0x17 => Some(Syscall::Dup),
        0x18 => Some(Syscall::Dup3),
        0x19 => Some(Syscall::Fcntl),
        0x1d => Some(Syscall::Ioctl),
        0x20 => Some(Syscall::Flock),
        0x22 => Some(Syscall::Mkdirat),
        0x23 => Some(Syscall::Unlinkat),
        0x24 => Some(Syscall::Symlinkat),
        0x25 => Some(Syscall::Linkat),
        0x26 => Some(Syscall::Renameat),
        0x2b => Some(Syscall::Statfs),
        0x2c => Some(Syscall::Fstatfs),
        0x2d => Some(Syscall::Truncate),
        0x2e => Some(Syscall::Ftruncate),
        0x30 => Some(Syscall::Faccessat),
        0x31 => Some(Syscall::Chdir),
        0x32 => Some(Syscall::Fchdir),
        0x33 => Some(Syscall::Chroot),
        0x34 => Some(Syscall::Fchmod),
        0x35 => Some(Syscall::Fchmodat),
        0x36 => Some(Syscall::Fchownat),
        0x37 => Some(Syscall::Fchown),
        0x38 => Some(Syscall::Openat),
        0x39 => Some(Syscall::Close),
        0x3b => Some(Syscall::Pipe2),
        0x3d => Some(Syscall::Getdents64),
        0x3e => Some(Syscall::Lseek),
        0x3f => Some(Syscall::Read),
        0x40 => Some(Syscall::Write),
        0x41 => Some(Syscall::Readv),
        0x42 => Some(Syscall::Writev),
        0x43 => Some(Syscall::Pread64),
        0x44 => Some(Syscall::Pwrite64),
        0x45 => Some(Syscall::Preadv),
        0x46 => Some(Syscall::Pwritev),
        0x47 => Some(Syscall::Sendfile),
        0x48 => Some(Syscall::Pselect6),
        0x49 => Some(Syscall::Ppoll),
        0x4e => Some(Syscall::Readlinkat),
        0x4f => Some(Syscall::Newfstatat),
        0x50 => Some(Syscall::Fstat),
        0x51 => Some(Syscall::Sync),
        0x52 => Some(Syscall::Fsync),
        0x53 => Some(Syscall::Fdatasync),
        0x58 => Some(Syscall::Utimensat),
        0x5a => Some(Syscall::Capget),
        0x5b => Some(Syscall::Capset),
        0x5d => Some(Syscall::Exit),
        0x5e => Some(Syscall::ExitGroup),
        0x5f => Some(Syscall::Waitid),
        0x60 => Some(Syscall::SetTidAddress),
        0x62 => Some(Syscall::Futex),
        0x63 => Some(Syscall::SetRobustList),
        0x65 => Some(Syscall::Nanosleep),
        0x70 => Some(Syscall::ClockSettime),
        0x71 => Some(Syscall::ClockGettime),
        0x73 => Some(Syscall::ClockNanosleep),
        0x74 => Some(Syscall::Syslog),
        0x75 => Some(Syscall::Ptrace),
        0x7b => Some(Syscall::SchedGetaffinity),
        0x7c => Some(Syscall::SchedYield),
        0x81 => Some(Syscall::Kill),
        0x82 => Some(Syscall::Tkill),
        0x84 => Some(Syscall::Sigaltstack),
        0x86 => Some(Syscall::RtSigaction),
        0x87 => Some(Syscall::RtSigprocmask),
        0x8b => Some(Syscall::RtSigreturn),
        0x8e => Some(Syscall::Reboot),
        0x94 => Some(Syscall::Getresuid),
        0x96 => Some(Syscall::Getresgid),
        0x97 => Some(Syscall::Setfsuid),
        0x98 => Some(Syscall::Setfsgid),
        0x9a => Some(Syscall::Setpgid),
        0x9b => Some(Syscall::Getpgid),
        0x9c => Some(Syscall::Getsid),
        0x9d => Some(Syscall::Setsid),
        0xa0 => Some(Syscall::Uname),
        0xa1 => Some(Syscall::Sethostname),
        0xa3 => Some(Syscall::Getrlimit),
        0xa6 => Some(Syscall::Umask),
        0xa7 => Some(Syscall::Prctl),
        0xa9 => Some(Syscall::Gettimeofday),
        0xaa => Some(Syscall::Settimeofday),
        0xac => Some(Syscall::Getpid),
        0xad => Some(Syscall::Getppid),
        0xae => Some(Syscall::Getuid),
        0xaf => Some(Syscall::Geteuid),
        0xb0 => Some(Syscall::Getgid),
        0xb1 => Some(Syscall::Getegid),
        0xb2 => Some(Syscall::Gettid),
        0xb3 => Some(Syscall::Sysinfo),
        0xc6 => Some(Syscall::Socket),
        0xd6 => Some(Syscall::Brk),
        0xd7 => Some(Syscall::Munmap),
        0xdc => Some(Syscall::Clone),
        0xdd => Some(Syscall::Execve),
        0xde => Some(Syscall::Mmap),
        0xdf => Some(Syscall::Fadvise64),
        0xe2 => Some(Syscall::Mprotect),
        0xe8 => Some(Syscall::Mincore),
        0xe9 => Some(Syscall::Madvise),
        0x104 => Some(Syscall::Wait4),
        0x105 => Some(Syscall::Prlimit64),
        0x108 => Some(Syscall::NameToHandleAt),
        0x109 => Some(Syscall::OpenByHandleAt),
        0x10b => Some(Syscall::Syncfs),
        0x10e => Some(Syscall::ProcessVmReadv),
        0x114 => Some(Syscall::Renameat2),
        0x116 => Some(Syscall::Getrandom),
        0x11d => Some(Syscall::CopyFileRange),
        0x11e => Some(Syscall::Preadv2),
        0x11f => Some(Syscall::Pwritev2),
        0x123 => Some(Syscall::Statx),
        0x125 => Some(Syscall::Rseq),
        0x1b4 => Some(Syscall::CloseRange),
        0x1b7 => Some(Syscall::Faccessat2),
        0x1b8 => Some(Syscall::ProcessMadvise),
        _ => None,
    };
    proof {
        if let Some(x) = r {
            lemma_decode_number(x);
        }
    }
    r
}

/// Why a system call failed without reaching a handler.
#[derive(Clone, Copy, Debug, PartialEq, Eq, Structural)]
pub enum SyscallError {
    /// The call is known but not supported.
    NotSupported,
    /// The call's arguments are rejected.
    InvalidValue,
}

/// The result of the calls that the dispatcher answers without a handler:
/// the no-ops succeed with 0, a few calls are refused.
pub open spec fn fixed_outcome(s: Syscall) -> Option<Result<usize, SyscallError>> {
    match s {
        Syscall::Flock | Syscall::Fadvise64 | Syscall::Madvise | Syscall::ProcessMadvise => Some(
            Ok(0),
        ),
        Syscall::SchedGetaffinity | Syscall::Socket | Syscall::OpenByHandleAt | Syscall::Rseq => Some(
            Err(SyscallError::NotSupported),
        ),
        Syscall::Getrlimit => Some(Err(SyscallError::InvalidValue)),
        _ => None,
    }
}

/// The fixed result of `s`, or `None` when a handler must run.
pub fn fixed_result(s: Syscall) -> (r: Option<Result<usize, SyscallError>>)
    ensures
        r == fixed_outcome(s),
{
    match s {
        Syscall::Flock | Syscall::Fadvise64 | Syscall::Madvise | Syscall::ProcessMadvise => Some(
            Ok(0),
        ),
        Syscall::SchedGetaffinity | Syscall::Socket | Syscall::OpenByHandleAt | Syscall::Rseq => Some(
            Err(SyscallError::NotSupported),
        ),
        Syscall::Getrlimit => Some(Err(SyscallError::InvalidValue)),
        _ => None,
    }
}

/// Whether the dispatcher writes the call's result into the caller's return
/// register: every call does but `exit`, `exit_group` and `rt_sigreturn`,
/// which never return to the caller's frame.
pub open spec fn writes_return_value(s: Syscall) -> bool {
    !(s is Exit || s is ExitGroup || s is RtSigreturn)
}

/// Whether the result of `s` goes to the caller's return register.
pub fn sets_return_value(s: Syscall) -> (r: bool)
    ensures
        r == writes_return_value(s),
{
    match s {
        Syscall::Exit | Syscall::ExitGroup | Syscall::RtSigreturn => false,
        _ => true,
    }
}

} // verus!
