use rr_sched::syscall_args::{handler_arguments, HandlerArg};
use rr_sched::syscall_table::Syscall;

const REGS: [u64; 6] = [10, 11, 12, 13, 14, 15];

fn unsigned(v: &[u64]) -> Vec<HandlerArg> {
    v.iter().map(|&x| HandlerArg::Unsigned(x)).collect()
}

#[test]
fn ordinary_handlers_take_registers_in_order() {
    assert_eq!(handler_arguments(Syscall::Read, REGS), unsigned(&[10, 11, 12]));
    assert_eq!(handler_arguments(Syscall::Mmap, REGS), unsigned(&[10, 11, 12, 13, 14, 15]));
    assert_eq!(handler_arguments(Syscall::Exit, REGS), unsigned(&[10]));
    assert_eq!(handler_arguments(Syscall::Getpid, REGS), Vec::new());
}

#[test]
fn clone_swaps_fourth_and_fifth() {
    assert_eq!(handler_arguments(Syscall::Clone, REGS), unsigned(&[10, 11, 12, 14, 13]));
}

#[test]
fn wait4_reads_pid_as_signed() {
    let regs = [u64::MAX, 1, 2, 3, 4, 5];
    assert_eq!(
        handler_arguments(Syscall::Wait4, regs),
        vec![
            HandlerArg::Signed(-1),
            HandlerArg::Unsigned(1),
            HandlerArg::Unsigned(2),
            HandlerArg::Unsigned(3),
        ]
    );
}

#[test]
fn answered_calls_and_sigreturn_take_nothing() {
    assert!(handler_arguments(Syscall::RtSigreturn, REGS).is_empty());
    assert!(handler_arguments(Syscall::Flock, REGS).is_empty());
}
