use vstd::prelude::*;

use std::collections::VecDeque;

verus! {

/// Maximum number of bytes kept in the syscall ring buffer.
pub const SYSCALL_LOG_MAX_BYTES: usize = 8192;

/// The entries as byte sequences, oldest first.
pub open spec fn entries_view(q: Seq<Vec<u8>>) -> Seq<Seq<u8>> {
    q.map_values(|e: Vec<u8>| e@)
}

/// The part of an entry that the log keeps: its last
/// `SYSCALL_LOG_MAX_BYTES` bytes.
pub open spec fn kept_bytes(entry: Seq<u8>) -> Seq<u8> {
    if entry.len() > SYSCALL_LOG_MAX_BYTES {
        entry.subrange(entry.len() - SYSCALL_LOG_MAX_BYTES, entry.len() as int)
    } else {
        entry
    }
}

/// How many of the oldest entries of `s` must leave so that an entry of
/// `incoming` bytes fits within the byte budget: the fewest that suffice.
pub open spec fn evict_count(s: Seq<Seq<u8>>, incoming: nat) -> nat
    decreases s.len(),
{
    if s.len() == 0 || s.flatten().len() + incoming <= SYSCALL_LOG_MAX_BYTES {
        0
    } else {
        1 + evict_count(s.drop_first(), incoming)
    }
}

/// The entries after pushing `entry` onto a log holding `s`: the oldest
/// entries are evicted as needed, and the kept part of `entry` comes last.
pub open spec fn after_push(s: Seq<Seq<u8>>, entry: Seq<u8>) -> Seq<Seq<u8>> {
    let e = kept_bytes(entry);
    s.skip(evict_count(s, e.len()) as int).push(e)
}

/// Heap-backed ring buffer of formatted syscall history entries, bounded by
/// `SYSCALL_LOG_MAX_BYTES` bytes in all.
pub struct SyscallLog {
    entries: VecDeque<Vec<u8>>,
    total_bytes: usize,
}

impl View for SyscallLog {
    type V = Seq<Seq<u8>>;

    closed spec fn view(&self) -> Seq<Seq<u8>> {
        entries_view(self.entries@)
    }
}

impl SyscallLog {
    /// `total_bytes` counts the bytes of all entries, and stays within budget.
    #[verifier::type_invariant]
    spec fn inv(self) -> bool {
        &&& self.total_bytes == entries_view(self.entries@).flatten().len()
        &&& self.total_bytes <= SYSCALL_LOG_MAX_BYTES
    }

    /// An empty log.
    pub fn new() -> (r: SyscallLog)
        ensures
            r@ == Seq::<Seq<u8>>::empty(),
    {
        let r = SyscallLog { entries: VecDeque::new(), total_bytes: 0 };
        assert(entries_view(r.entries@) =~= Seq::<Seq<u8>>::empty());
        r
    }

    /// Appends an entry. An entry longer than the budget keeps only its last
    /// `SYSCALL_LOG_MAX_BYTES` bytes; then the oldest entries are evicted
    /// until the new one fits.
    pub fn push(&mut self, entry: Vec<u8>)
        ensures
            final(self)@ == after_push(old(self)@, entry@),
    {
        let mut cur = SyscallLog::new();
        std::mem::swap(&mut cur, self);
        proof {
            use_type_invariant(&cur);
        }
        let ghost s = cur@;
        let SyscallLog { mut entries, mut total_bytes } = cur;

        let ghost old_entry = entry@;
        let mut entry = entry;
        if entry.len() > SYSCALL_LOG_MAX_BYTES {
            entry = entry.split_off(entry.len() - SYSCALL_LOG_MAX_BYTES);
        }
        let ghost n: nat = entry@.len();
        assert(entry@ =~= kept_bytes(old_entry));
        let ghost mut i: int = 0;
        assert(s.skip(0) =~= s);
        while total_bytes + entry.len() > SYSCALL_LOG_MAX_BYTES
            invariant_except_break
                0 <= i <= s.len(),
                entries_view(entries@) == s.skip(i),
                total_bytes == s.skip(i).flatten().len(),
                total_bytes <= SYSCALL_LOG_MAX_BYTES,
                entry.len() <= SYSCALL_LOG_MAX_BYTES,
                n == entry@.len(),
                evict_count(s, n) == i + evict_count(s.skip(i), n),
            ensures
                0 <= i <= s.len(),
                entries_view(entries@) == s.skip(i),
                total_bytes == s.skip(i).flatten().len(),
                total_bytes + entry.len() <= SYSCALL_LOG_MAX_BYTES,
                evict_count(s, n) == i,
            decreases entries@.len(),
        {
            let ghost before = entries@;
            match entries.pop_front() {
                Some(oldest) => {
                    proof {
                        assert(s.skip(i).drop_first() =~= s.skip(i + 1));
                        assert(entries_view(entries@) =~= entries_view(before).drop_first());
                        i = i + 1;
                    }
                    total_bytes = total_bytes.saturating_sub(oldest.len());
                },
                None => {
                    break ;
                },
            }
        }
        total_bytes += entry.len();
        let ghost kept = entry@;
        entries.push_back(entry);
        proof {
            assert(entries_view(entries@) =~= s.skip(i).push(kept));
            s.skip(i).lemma_flatten_push(kept);
        }
        *self = SyscallLog { entries, total_bytes };
    }

    /// All entries' bytes, oldest first.
    pub fn snapshot_bytes(&self) -> (out: Vec<u8>)
        ensures
            out@ == self@.flatten(),
            out@.len() <= SYSCALL_LOG_MAX_BYTES,
    {
        proof {
            use_type_invariant(self);
        }
        let mut out: Vec<u8> = Vec::with_capacity(self.total_bytes);
        let n = self.entries.len();
        let mut i: usize = 0;
        assert(self@.take(0) =~= Seq::<Seq<u8>>::empty());
        while i < n
            invariant
                n == self.entries@.len(),
                n == self@.len(),
                0 <= i <= n,
                out@ == self@.take(i as int).flatten(),
            decreases n - i,
        {
            let e: &Vec<u8> = &self.entries[i];
            let ghost prev = out@;
            out.extend_from_slice(e.as_slice());
            proof {
                assert(out@ =~= prev + e@);
                assert(self@.take(i + 1) =~= self@.take(i as int).push(e@));
                self@.take(i as int).lemma_flatten_push(e@);
            }
            i += 1;
        }
        assert(self@.take(n as int) =~= self@);
        out
    }

    /// Number of bytes currently held.
    pub fn total_bytes(&self) -> (r: usize)
        ensures
            r == self@.flatten().len(),
            r <= SYSCALL_LOG_MAX_BYTES,
    {
        proof {
            use_type_invariant(self);
        }
        self.total_bytes
    }

    /// Drops every entry.
    pub fn clear(&mut self)
        ensures
            final(self)@ == Seq::<Seq<u8>>::empty(),
    {
        let mut cur = SyscallLog::new();
        std::mem::swap(&mut cur, self);
        let SyscallLog { mut entries, total_bytes: _ } = cur;
        entries.clear();
        assert(entries_view(entries@) =~= Seq::<Seq<u8>>::empty());
        *self = SyscallLog { entries, total_bytes: 0 };
    }
}

} // verus!
