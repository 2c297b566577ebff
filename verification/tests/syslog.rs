use rr_sched::syscall_log::SyscallLog;
use rr_sched::syslog::{syslog_step, SyslogError, SyslogStep};

fn log_with(bytes: &[u8]) -> SyscallLog {
    let mut log = SyscallLog::new();
    log.push(bytes.to_vec());
    log
}

#[test]
fn read_all_copies_prefix() {
    let log = log_with(b"0123456789");
    match syslog_step(&log, 3, 4) {
        Ok(SyslogStep::Read { bytes, clear }) => {
            assert_eq!(bytes, b"0123".to_vec());
            assert!(!clear);
        }
        _ => panic!("expected a read"),
    }
}

#[test]
fn read_clear_copies_everything_and_clears() {
    let log = log_with(b"abc");
    match syslog_step(&log, 4, 100) {
        Ok(SyslogStep::Read { bytes, clear }) => {
            assert_eq!(bytes, b"abc".to_vec());
            assert!(clear);
        }
        _ => panic!("expected a read"),
    }
}

#[test]
fn zero_length_read_replies_zero() {
    let log = log_with(b"abc");
    assert!(matches!(syslog_step(&log, 3, 0), Ok(SyslogStep::Reply(0))));
    assert!(matches!(syslog_step(&log, 4, 0), Ok(SyslogStep::Reply(0))));
}

#[test]
fn read_of_empty_log_copies_nothing() {
    let log = SyscallLog::new();
    match syslog_step(&log, 3, 10) {
        Ok(SyslogStep::Read { bytes, .. }) => assert!(bytes.is_empty()),
        _ => panic!("expected a read"),
    }
}

#[test]
fn size_actions_report_bytes_held() {
    let log = log_with(b"hello");
    assert!(matches!(syslog_step(&log, 9, 0), Ok(SyslogStep::Reply(5))));
    assert!(matches!(syslog_step(&log, 10, 0), Ok(SyslogStep::Reply(5))));
}

#[test]
fn other_actions_reply_zero() {
    let log = log_with(b"hello");
    for action in [0u64, 1, 2, 5, 8, 11, u64::MAX] {
        assert!(matches!(syslog_step(&log, action, 10), Ok(SyslogStep::Reply(0))));
    }
}

#[test]
fn huge_length_on_this_target() {
    let log = log_with(b"hi");
    let r = syslog_step(&log, 3, u64::MAX);
    if usize::BITS < 64 {
        assert!(matches!(r, Err(SyslogError::InvalidValue)));
    } else {
        assert!(matches!(r, Ok(SyslogStep::Read { .. })));
    }
}

use rr_sched::syslog::syslog_finish_read;

#[test]
fn read_clear_clears_only_after_successful_copy() {
    let mut log = log_with(b"abc");
    assert_eq!(syslog_finish_read(&mut log, 3, true, false), None);
    assert_eq!(log.snapshot_bytes(), b"abc".to_vec());
    assert_eq!(syslog_finish_read(&mut log, 3, true, true), Some(3));
    assert!(log.snapshot_bytes().is_empty());
}

#[test]
fn read_all_never_clears() {
    let mut log = log_with(b"abc");
    assert_eq!(syslog_finish_read(&mut log, 2, false, true), Some(2));
    assert_eq!(log.snapshot_bytes(), b"abc".to_vec());
}
