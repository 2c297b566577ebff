use rr_sched::syscall_log::{SyscallLog, SYSCALL_LOG_MAX_BYTES};
use rr_sched::syscall_record::{format_syscall_entry, record_syscall};
use rr_sched::time::Instant;

#[test]
fn empty_log() {
    let log = SyscallLog::new();
    assert_eq!(log.total_bytes(), 0);
    assert!(log.snapshot_bytes().is_empty());
}

#[test]
fn push_appends_in_order() {
    let mut log = SyscallLog::new();
    log.push(b"abc".to_vec());
    log.push(b"de".to_vec());
    assert_eq!(log.snapshot_bytes(), b"abcde".to_vec());
    assert_eq!(log.total_bytes(), 5);
}

#[test]
fn oversized_entry_keeps_its_tail() {
    let mut log = SyscallLog::new();
    log.push(b"old".to_vec());
    let mut big = vec![b'x'; SYSCALL_LOG_MAX_BYTES + 10];
    for (i, b) in big.iter_mut().enumerate().take(10) {
        *b = b'0' + i as u8;
    }
    big[SYSCALL_LOG_MAX_BYTES + 9] = b'!';
    log.push(big.clone());
    let snap = log.snapshot_bytes();
    assert_eq!(snap.len(), SYSCALL_LOG_MAX_BYTES);
    assert_eq!(snap, big[10..].to_vec());
    assert_eq!(log.total_bytes(), SYSCALL_LOG_MAX_BYTES);
}

#[test]
fn oldest_entries_are_evicted_until_it_fits() {
    let mut log = SyscallLog::new();
    let a = vec![b'a'; 3000];
    let b = vec![b'b'; 3000];
    let c = vec![b'c'; 2000];
    log.push(a);
    log.push(b.clone());
    log.push(c.clone());
    assert_eq!(log.total_bytes(), 8000);
    let d = vec![b'd'; 1000];
    log.push(d.clone());
    let mut expected = b.clone();
    expected.extend_from_slice(&c);
    expected.extend_from_slice(&d);
    assert_eq!(log.snapshot_bytes(), expected);
    assert_eq!(log.total_bytes(), 6000);
}

#[test]
fn exact_fit_evicts_nothing() {
    let mut log = SyscallLog::new();
    log.push(vec![1; 8000]);
    log.push(vec![2; 192]);
    assert_eq!(log.total_bytes(), 8192);
    let snap = log.snapshot_bytes();
    assert_eq!(snap[0], 1);
    assert_eq!(snap[8191], 2);
}

#[test]
fn full_size_entry_evicts_everything() {
    let mut log = SyscallLog::new();
    log.push(vec![1; 10]);
    log.push(vec![2; 20]);
    log.push(vec![3; SYSCALL_LOG_MAX_BYTES]);
    assert_eq!(log.snapshot_bytes(), vec![3; SYSCALL_LOG_MAX_BYTES]);
}

#[test]
fn clear_empties() {
    let mut log = SyscallLog::new();
    log.push(b"hello".to_vec());
    log.clear();
    assert_eq!(log.total_bytes(), 0);
    assert!(log.snapshot_bytes().is_empty());
    log.push(b"x".to_vec());
    assert_eq!(log.snapshot_bytes(), b"x".to_vec());
}

#[test]
fn entry_format_matches_std_formatting() {
    for &(nr, pid, ts) in &[
        (0u32, 0u32, 0u64),
        (0x40, 1, 123_456),
        (0x1b8, 42, u64::MAX),
        (u32::MAX, u32::MAX, 10),
        (0xa, 10, 9),
    ] {
        let expected = format!("syscall=0x{nr:x} pid={pid} ts={ts}\n");
        assert_eq!(format_syscall_entry(nr, pid, ts), expected.into_bytes());
    }
}

#[test]
fn record_syscall_appends_line() {
    let mut log = SyscallLog::new();
    record_syscall(&mut log, 0x3f, 7, Some(Instant::from_ticks(99)));
    record_syscall(&mut log, 0x40, 8, None);
    assert_eq!(
        String::from_utf8(log.snapshot_bytes()).unwrap(),
        "syscall=0x3f pid=7 ts=99\nsyscall=0x40 pid=8 ts=0\n"
    );
}

#[test]
fn many_records_stay_within_budget() {
    let mut log = SyscallLog::new();
    for i in 0..2000u32 {
        record_syscall(&mut log, i, i, Some(Instant::from_ticks(i as u64 * 1000)));
        assert!(log.total_bytes() <= SYSCALL_LOG_MAX_BYTES);
    }
    let text = String::from_utf8(log.snapshot_bytes()).unwrap();
    assert!(text.ends_with("syscall=0x7cf pid=1999 ts=1999000\n"));
    assert!(text.starts_with("syscall=0x"));
    assert_eq!(text.len(), log.total_bytes());
}
