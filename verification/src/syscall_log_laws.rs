use vstd::prelude::*;

use crate::syscall_log::{after_push, evict_count, kept_bytes, SYSCALL_LOG_MAX_BYTES};

verus! {

/// Evicting the counted entries leaves room for the incoming entry, never
/// evicts more entries than the log holds, and every smaller count would
/// leave too little room.
pub proof fn lemma_evict_count_minimal(s: Seq<Seq<u8>>, n: nat, j: int)
    requires
        n <= SYSCALL_LOG_MAX_BYTES,
    ensures
        evict_count(s, n) <= s.len(),
        s.skip(evict_count(s, n) as int).flatten().len() + n <= SYSCALL_LOG_MAX_BYTES,
        0 <= j < evict_count(s, n) ==> s.skip(j).flatten().len() + n > SYSCALL_LOG_MAX_BYTES,
    decreases s.len(),
{
    assert(s.skip(0) =~= s);
    if s.len() == 0 || s.flatten().len() + n <= SYSCALL_LOG_MAX_BYTES {
        assert(s.len() == 0 ==> s.flatten() =~= Seq::<u8>::empty());
    } else {
        let t = s.drop_first();
        lemma_evict_count_minimal(t, n, j - 1);
        assert(s.skip(1 + evict_count(t, n) as int) =~= t.skip(evict_count(t, n) as int));
        if 0 < j < evict_count(s, n) {
            assert(s.skip(j) =~= t.skip(j - 1));
        }
    }
}

/// The kept part of an entry is its suffix of at most
/// `SYSCALL_LOG_MAX_BYTES` bytes; an entry within budget is kept whole.
pub proof fn lemma_kept_bytes(entry: Seq<u8>)
    ensures
        kept_bytes(entry).len() <= SYSCALL_LOG_MAX_BYTES,
        kept_bytes(entry) == entry.skip(entry.len() - kept_bytes(entry).len()),
        entry.len() <= SYSCALL_LOG_MAX_BYTES ==> kept_bytes(entry) == entry,
        entry.len() > SYSCALL_LOG_MAX_BYTES ==> kept_bytes(entry).len() == SYSCALL_LOG_MAX_BYTES,
{
    assert(entry.skip(0) =~= entry);
    if entry.len() > SYSCALL_LOG_MAX_BYTES {
        assert(kept_bytes(entry) =~= entry.skip(entry.len() - SYSCALL_LOG_MAX_BYTES));
    }
}

/// Whatever is pushed, the log's bytes stay within budget, 8192 bytes.
pub proof fn lemma_push_within_budget(s: Seq<Seq<u8>>, entry: Seq<u8>)
    ensures
        after_push(s, entry).flatten().len() <= SYSCALL_LOG_MAX_BYTES,
        after_push(s, entry).flatten().len() <= 8192,
{
    let e = kept_bytes(entry);
    lemma_kept_bytes(entry);
    lemma_evict_count_minimal(s, e.len(), 0);
    s.skip(evict_count(s, e.len()) as int).lemma_flatten_push(e);
}

/// What a push wrote is read back last: the log's bytes after a push are the
/// bytes of the entries that stayed, followed by the kept part of the entry.
/// The entries that stayed are the newest ones, in their order.
pub proof fn lemma_push_reads_back(s: Seq<Seq<u8>>, entry: Seq<u8>)
    ensures
        ({
            let k = evict_count(s, kept_bytes(entry).len()) as int;
            &&& after_push(s, entry).flatten() == s.skip(k).flatten() + kept_bytes(entry)
            &&& after_push(s, entry).last() == kept_bytes(entry)
            &&& after_push(s, entry).drop_last() == s.skip(k)
        }),
{
    let e = kept_bytes(entry);
    let k = evict_count(s, e.len()) as int;
    s.skip(k).lemma_flatten_push(e);
    assert(after_push(s, entry).drop_last() =~= s.skip(k));
}

/// Nothing is evicted while the new entry fits beside the old ones.
pub proof fn lemma_push_without_eviction(s: Seq<Seq<u8>>, entry: Seq<u8>)
    requires
        s.flatten().len() + kept_bytes(entry).len() <= SYSCALL_LOG_MAX_BYTES,
    ensures
        after_push(s, entry) == s.push(kept_bytes(entry)),
        after_push(s, entry).flatten() == s.flatten() + kept_bytes(entry),
{
    assert(s.skip(0) =~= s);
    s.lemma_flatten_push(kept_bytes(entry));
}

/// After a clear, a push leaves exactly the kept part of the entry.
pub proof fn lemma_push_after_clear(entry: Seq<u8>)
    ensures
        after_push(Seq::<Seq<u8>>::empty(), entry) == seq![kept_bytes(entry)],
        after_push(Seq::<Seq<u8>>::empty(), entry).flatten() == kept_bytes(entry),
{
    let s = Seq::<Seq<u8>>::empty();
    assert(s.skip(0) =~= s);
    assert(s.push(kept_bytes(entry)) =~= seq![kept_bytes(entry)]);
    s.lemma_flatten_push(kept_bytes(entry));
    assert(s.flatten() =~= Seq::<u8>::empty());
    assert(Seq::<u8>::empty() + kept_bytes(entry) =~= kept_bytes(entry));
}

} // verus!
