use vstd::prelude::*;

use crate::syscall_log::SyscallLog;

verus! {

/// `syslog` action: read the whole history.
pub const SYSLOG_ACTION_READ_ALL: u64 = 3;

/// `syslog` action: read the whole history, then clear it.
pub const SYSLOG_ACTION_READ_CLEAR: u64 = 4;

/// `syslog` action: number of bytes held.
pub const SYSLOG_ACTION_SIZE_UNREAD: u64 = 9;

/// `syslog` action: size of the history buffer in use.
pub const SYSLOG_ACTION_SIZE_BUFFER: u64 = 10;

/// Why a `syslog` request is refused.
#[derive(Clone, Copy, Debug, PartialEq, Eq, Structural)]
pub enum SyslogError {
    /// The requested length does not fit in a `usize`.
    InvalidValue,
}

/// What the `syslog` handler does for a request.
pub enum SyslogStep {
    /// Return this value to the caller, with nothing to copy.
    Reply(usize),
    /// Copy `bytes` to the caller's buffer (nothing when it is empty); on
    /// success, clear the history if `clear`, and return `bytes.len()`.
    Read { bytes: Vec<u8>, clear: bool },
}

/// `true` for the two read actions.
pub open spec fn is_read_action(action: u64) -> bool {
    action == SYSLOG_ACTION_READ_ALL || action == SYSLOG_ACTION_READ_CLEAR
}

/// `true` for the two size actions.
pub open spec fn is_size_action(action: u64) -> bool {
    action == SYSLOG_ACTION_SIZE_UNREAD || action == SYSLOG_ACTION_SIZE_BUFFER
}

/// Decides a `syslog(action, buf, len)` request against the history `log`.
///
/// A read with a `len` beyond `usize` is refused; a read of length 0 returns
/// 0; any other read copies the first `min(len, size)` bytes of the history
/// and clears it afterwards for `SYSLOG_ACTION_READ_CLEAR`. The size actions
/// report the number of bytes held; every other action returns 0.
pub fn syslog_step(log: &SyscallLog, action: u64, len: u64) -> (r: Result<SyslogStep, SyslogError>)
    ensures
        is_read_action(action) && len > usize::MAX ==> r == Err::<SyslogStep, SyslogError>(
            SyslogError::InvalidValue,
        ),
        is_read_action(action) && len == 0 ==> r == Ok::<SyslogStep, SyslogError>(
            SyslogStep::Reply(0),
        ),
        is_read_action(action) && 0 < len <= usize::MAX ==> ({
            let all = log@.flatten();
            let n = if len < all.len() {
                len as int
            } else {
                all.len() as int
            };
            &&& r matches Ok(SyslogStep::Read { bytes, clear })
            &&& r->Ok_0->bytes@ == all.take(n)
            &&& r->Ok_0->clear == (action == SYSLOG_ACTION_READ_CLEAR)
        }),
        is_size_action(action) ==> r == Ok::<SyslogStep, SyslogError>(
            SyslogStep::Reply(log@.flatten().len() as usize),
        ),
        !is_read_action(action) && !is_size_action(action) ==> r == Ok::<SyslogStep, SyslogError>(
            SyslogStep::Reply(0),
        ),
{
    if action == SYSLOG_ACTION_READ_ALL || action == SYSLOG_ACTION_READ_CLEAR {
        if len > usize::MAX as u64 {
            return Err(SyslogError::InvalidValue);
        }
        let len = len as usize;
        if len == 0 {
            return Ok(SyslogStep::Reply(0));
        }
        let mut snapshot = log.snapshot_bytes();
        let copy_len = if snapshot.len() < len {
            snapshot.len()
        } else {
            len
        };
        snapshot.truncate(copy_len);
        assert(snapshot@ =~= log@.flatten().take(copy_len as int));
        Ok(SyslogStep::Read { bytes: snapshot, clear: action == SYSLOG_ACTION_READ_CLEAR })
    } else if action == SYSLOG_ACTION_SIZE_UNREAD || action == SYSLOG_ACTION_SIZE_BUFFER {
        Ok(SyslogStep::Reply(log.total_bytes()))
    } else {
        Ok(SyslogStep::Reply(0))
    }
}

/// Finishes a read request once the copy to the caller is over: `copied`
/// says whether it succeeded (an empty read copies nothing and succeeds).
/// Only after a successful copy is the history cleared, when `clear` asks
/// for it, and the number of bytes read returned; after a failed copy the
/// history is left as it was and `None` tells the caller to return the
/// copy's error.
pub fn syslog_finish_read(log: &mut SyscallLog, read_len: usize, clear: bool, copied: bool) -> (r:
    Option<usize>)
    ensures
        copied ==> r == Some(read_len),
        copied && clear ==> final(log)@ == Seq::<Seq<u8>>::empty(),
        !(copied && clear) ==> final(log)@ == old(log)@,
        !copied ==> r is None,
{
    if !copied {
        return None;
    }
    if clear {
        log.clear();
    }
    Some(read_len)
}

/// The `syslog` actions follow the Linux `klogctl` numbering: 3 reads the
/// history, 4 reads and clears it, 9 and 10 ask for its size.
pub proof fn lemma_klogctl_actions()
    ensures
        is_read_action(3),
        is_read_action(4),
        is_size_action(9),
        is_size_action(10),
        forall|a: u64| #[trigger] is_read_action(a) ==> a == 3 || a == 4,
        forall|a: u64| #[trigger] is_size_action(a) ==> a == 9 || a == 10,
        SYSLOG_ACTION_READ_CLEAR == 4,
{
}

} // verus!
