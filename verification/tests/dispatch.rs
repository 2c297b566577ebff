use rr_sched::dispatch::{dispatch_plan, DispatchStep};
use rr_sched::syscall_table::{Syscall, SyscallError};

#[test]
fn ordinary_call_plan() {
    assert_eq!(
        dispatch_plan(0x3f),
        vec![
            DispatchStep::Enter,
            DispatchStep::Record,
            DispatchStep::Handle(Syscall::Read),
            DispatchStep::WriteBack,
            DispatchStep::StorePrevious,
        ]
    );
}

#[test]
fn fixed_answer_plan() {
    assert_eq!(
        dispatch_plan(0xc6),
        vec![
            DispatchStep::Enter,
            DispatchStep::Record,
            DispatchStep::Answer(Err(SyscallError::NotSupported)),
            DispatchStep::WriteBack,
            DispatchStep::StorePrevious,
        ]
    );
    assert_eq!(dispatch_plan(0x20)[2], DispatchStep::Answer(Ok(0)));
}

#[test]
fn exit_and_sigreturn_skip_write_back() {
    for (nr, call) in [(0x5du32, Syscall::Exit), (0x5e, Syscall::ExitGroup), (0x8b, Syscall::RtSigreturn)] {
        assert_eq!(
            dispatch_plan(nr),
            vec![
                DispatchStep::Enter,
                DispatchStep::Record,
                DispatchStep::Handle(call),
                DispatchStep::StorePrevious,
            ]
        );
    }
}

#[test]
fn unknown_call_records_then_panics() {
    assert_eq!(
        dispatch_plan(0x12),
        vec![DispatchStep::Enter, DispatchStep::Record, DispatchStep::Unhandled]
    );
}
