use vstd::prelude::*;

use crate::syscall_table::{
    decode_syscall, fixed_outcome, fixed_result, sets_return_value, syscall_of, writes_return_value,
    Syscall, SyscallError,
};

verus! {

/// One step of the syscall dispatcher, in the order the kernel performs them.
#[derive(Clone, Copy, Debug, PartialEq, Eq)]
pub enum DispatchStep {
    /// Update the task's accounting, mark it in a syscall, stop a tracer at entry.
    Enter,
    /// Record the syscall number in the history.
    Record,
    /// The number is unknown: panic.
    Unhandled,
    /// The call's result is fixed, without a handler.
    Answer(Result<usize, SyscallError>),
    /// Run the kernel's handler for the call.
    Handle(Syscall),
    /// Write the result to the return register, stop a tracer at exit,
    /// update the accounting and leave the syscall.
    WriteBack,
    /// Remember the number as the most recently completed syscall.
    StorePrevious,
}

/// The steps that answer `s` once it is decoded.
pub open spec fn completion_steps(s: Syscall) -> Seq<DispatchStep> {
    seq![
        match fixed_outcome(s) {
            Some(r) => DispatchStep::Answer(r),
            None => DispatchStep::Handle(s),
        },
    ] + if writes_return_value(s) {
        seq![DispatchStep::WriteBack]
    } else {
        Seq::<DispatchStep>::empty()
    } + seq![DispatchStep::StorePrevious]
}

/// The dispatcher's steps for syscall number `nr`: enter, record the call,
/// then either panic on an unknown number or answer it, write the result
/// back unless the call leaves the caller's frame, and remember it as the
/// previous syscall.
pub open spec fn dispatch_steps(nr: u32) -> Seq<DispatchStep> {
    seq![DispatchStep::Enter, DispatchStep::Record] + match syscall_of(nr) {
        None => seq![DispatchStep::Unhandled],
        Some(s) => completion_steps(s),
    }
}

/// The plan the dispatcher carries out for syscall number `nr`.
pub fn dispatch_plan(nr: u32) -> (plan: Vec<DispatchStep>)
    ensures
        plan@ == dispatch_steps(nr),
{
    let mut plan: Vec<DispatchStep> = Vec::new();
    plan.push(DispatchStep::Enter);
    plan.push(DispatchStep::Record);
    match decode_syscall(nr) {
        None => {
            plan.push(DispatchStep::Unhandled);
        },
        Some(call) => {
            match fixed_result(call) {
                Some(r) => plan.push(DispatchStep::Answer(r)),
                None => plan.push(DispatchStep::Handle(call)),
            }
            if sets_return_value(call) {
                plan.push(DispatchStep::WriteBack);
            }
            plan.push(DispatchStep::StorePrevious);
        },
    }
    assert(plan@ =~= dispatch_steps(nr));
    plan
}

/// Every call is recorded exactly once, right after entry and before any
/// handler runs or any answer is given; every call that does not panic ends
/// by remembering its number, exactly once; and the result is written back
/// exactly for the calls that return to the caller's frame.
pub proof fn lemma_dispatch_order(nr: u32)
    ensures
        dispatch_steps(nr)[0] == DispatchStep::Enter,
        dispatch_steps(nr)[1] == DispatchStep::Record,
        forall|k: int|
            0 <= k < dispatch_steps(nr).len() && k != 1 ==> #[trigger] dispatch_steps(nr)[k]
                != DispatchStep::Record,
        syscall_of(nr) is None <==> dispatch_steps(nr).last() == DispatchStep::Unhandled,
        syscall_of(nr) is Some ==> dispatch_steps(nr).last() == DispatchStep::StorePrevious,
        forall|k: int|
            0 <= k < dispatch_steps(nr).len() - 1 ==> #[trigger] dispatch_steps(nr)[k]
                != DispatchStep::StorePrevious,
        forall|s: Syscall|
            syscall_of(nr) == Some(s) ==> (dispatch_steps(nr).contains(DispatchStep::WriteBack)
                <==> #[trigger] writes_return_value(s)),
{
    let d = dispatch_steps(nr);
    match syscall_of(nr) {
        None => {
            assert(d =~= seq![DispatchStep::Enter, DispatchStep::Record, DispatchStep::Unhandled]);
        },
        Some(s) => {
            let first = match fixed_outcome(s) {
                Some(r) => DispatchStep::Answer(r),
                None => DispatchStep::Handle(s),
            };
            if writes_return_value(s) {
                assert(d =~= seq![
                    DispatchStep::Enter,
                    DispatchStep::Record,
                    first,
                    DispatchStep::WriteBack,
                    DispatchStep::StorePrevious,
                ]);
                assert(d[3] == DispatchStep::WriteBack);
            } else {
                assert(d =~= seq![
                    DispatchStep::Enter,
                    DispatchStep::Record,
                    first,
                    DispatchStep::StorePrevious,
                ]);
            }
        },
    }
}

} // verus!
