use rr_sched::syscall_table::{decode_syscall, fixed_result, sets_return_value, Syscall, SyscallError};

#[test]
fn decodes_known_numbers() {
    assert_eq!(decode_syscall(0x5), Some(Syscall::Setxattr));
    assert_eq!(decode_syscall(0x3f), Some(Syscall::Read));
    assert_eq!(decode_syscall(0x40), Some(Syscall::Write));
    assert_eq!(decode_syscall(0x74), Some(Syscall::Syslog));
    assert_eq!(decode_syscall(0x8b), Some(Syscall::RtSigreturn));
    assert_eq!(decode_syscall(0x1b8), Some(Syscall::ProcessMadvise));
}

#[test]
fn unknown_numbers_decode_to_none() {
    for nr in [0u32, 1, 4, 0x12, 0x21, 0x7a, 0x1b9, u32::MAX] {
        assert_eq!(decode_syscall(nr), None, "nr {nr:#x}");
    }
}

#[test]
fn known_set_has_expected_size() {
    let n = (0..0x200u32).filter(|&nr| decode_syscall(nr).is_some()).count();
    assert_eq!(n, 130);
}

#[test]
fn fixed_results() {
    assert_eq!(fixed_result(Syscall::Flock), Some(Ok(0)));
    assert_eq!(fixed_result(Syscall::Fadvise64), Some(Ok(0)));
    assert_eq!(fixed_result(Syscall::Madvise), Some(Ok(0)));
    assert_eq!(fixed_result(Syscall::ProcessMadvise), Some(Ok(0)));
    assert_eq!(fixed_result(Syscall::SchedGetaffinity), Some(Err(SyscallError::NotSupported)));
    assert_eq!(fixed_result(Syscall::Socket), Some(Err(SyscallError::NotSupported)));
    assert_eq!(fixed_result(Syscall::OpenByHandleAt), Some(Err(SyscallError::NotSupported)));
    assert_eq!(fixed_result(Syscall::Rseq), Some(Err(SyscallError::NotSupported)));
    assert_eq!(fixed_result(Syscall::Getrlimit), Some(Err(SyscallError::InvalidValue)));
    assert_eq!(fixed_result(Syscall::Read), None);
    assert_eq!(fixed_result(Syscall::Exit), None);
}

#[test]
fn return_register_written_except_for_exits_and_sigreturn() {
    assert!(!sets_return_value(Syscall::Exit));
    assert!(!sets_return_value(Syscall::ExitGroup));
    assert!(!sets_return_value(Syscall::RtSigreturn));
    assert!(sets_return_value(Syscall::Read));
    assert!(sets_return_value(Syscall::Syslog));
}
