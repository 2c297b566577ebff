use vstd::prelude::*;

use crate::syscall_log::{after_push, evict_count, SyscallLog, SYSCALL_LOG_MAX_BYTES};
use crate::syscall_log_laws::{lemma_kept_bytes, lemma_push_reads_back};
use crate::time::Instant;

verus! {

/// The ASCII digit for a value below 16 (lowercase for 10 to 15).
pub open spec fn digit_byte(d: nat) -> u8 {
    if d < 10 {
        (48 + d) as u8
    } else {
        (97 + d - 10) as u8
    }
}

/// The digits of `n` in base `radix`, most significant first, without
/// leading zeros (zero is written as a single digit).
pub open spec fn radix_digits(n: nat, radix: nat) -> Seq<u8>
    recommends
        2 <= radix <= 16,
    decreases n,
{
    if radix < 2 || n < radix {
        seq![digit_byte(n)]
    } else {
        proof {
            vstd::arithmetic::div_mod::lemma_div_decreases(n as int, radix as int);
        }
        radix_digits(n / radix, radix).push(digit_byte(n % radix))
    }
}

/// `radix` to the power `k`.
pub open spec fn radix_pow(radix: nat, k: nat) -> nat
    decreases k,
{
    if k == 0 {
        1
    } else {
        radix * radix_pow(radix, (k - 1) as nat)
    }
}

/// One line of syscall history, in ASCII:
/// `syscall=0x<nr in hex> pid=<pid> ts=<timestamp>` and a newline
/// (the byte values below spell `syscall=0x`, ` pid=`, ` ts=` and `\n`).
pub open spec fn syscall_entry(nr: u32, pid: u32, timestamp: u64) -> Seq<u8> {
    seq![115, 121, 115, 99, 97, 108, 108, 61, 48, 120]
        + radix_digits(nr as nat, 16)
        + seq![32, 112, 105, 100, 61]
        + radix_digits(pid as nat, 10)
        + seq![32, 116, 115, 61]
        + radix_digits(timestamp as nat, 10)
        + seq![10]
}

/// The timestamp recorded for a clock reading: its ticks, or 0 without a clock.
pub open spec fn timestamp_of(now: Option<Instant>) -> u64 {
    match now {
        Some(t) => t.ticks,
        None => 0,
    }
}

fn digit(d: u64) -> (b: u8)
    requires
        d < 16,
    ensures
        b == digit_byte(d as nat),
{
    if d < 10 {
        48 + d as u8
    } else {
        97 + (d - 10) as u8
    }
}

/// Appends the digits of `n` in base `radix`.
fn push_digits(out: &mut Vec<u8>, n: u64, radix: u64)
    requires
        2 <= radix <= 16,
    ensures
        final(out)@ == old(out)@ + radix_digits(n as nat, radix as nat),
    decreases n,
{
    if n >= radix {
        proof {
            vstd::arithmetic::div_mod::lemma_div_decreases(n as int, radix as int);
        }
        push_digits(out, n / radix, radix);
    }
    let ghost mid = out@;
    out.push(digit(n % radix));
    proof {
        if n >= radix {
            assert(out@ =~= old(out)@ + radix_digits(n as nat, radix as nat));
        } else {
            vstd::arithmetic::div_mod::lemma_small_mod(n as nat, radix as nat);
            assert(out@ =~= old(out)@ + radix_digits(n as nat, radix as nat));
        }
    }
}

/// Appends every byte of `bytes`.
fn push_all(out: &mut Vec<u8>, bytes: &[u8])
    ensures
        final(out)@ == old(out)@ + bytes@,
{
    let mut i: usize = 0;
    while i < bytes.len()
        invariant
            0 <= i <= bytes@.len(),
            out@ == old(out)@ + bytes@.take(i as int),
        decreases bytes@.len() - i,
    {
        out.push(bytes[i]);
        assert(bytes@.take(i + 1) =~= bytes@.take(i as int).push(bytes@[i as int]));
        i += 1;
    }
    assert(bytes@.take(i as int) =~= bytes@);
}

/// The history line for syscall `nr` made by process `pid` at `timestamp`.
pub fn format_syscall_entry(nr: u32, pid: u32, timestamp: u64) -> (r: Vec<u8>)
    ensures
        r@ == syscall_entry(nr, pid, timestamp),
{
    let mut out: Vec<u8> = Vec::new();
    let head: [u8; 10] = [115, 121, 115, 99, 97, 108, 108, 61, 48, 120];
    let pid_tag: [u8; 5] = [32, 112, 105, 100, 61];
    let ts_tag: [u8; 4] = [32, 116, 115, 61];
    let newline: [u8; 1] = [10];
    assert(head@ =~= seq![115, 121, 115, 99, 97, 108, 108, 61, 48, 120]);
    assert(pid_tag@ =~= seq![32, 112, 105, 100, 61]);
    assert(ts_tag@ =~= seq![32, 116, 115, 61]);
    assert(newline@ =~= seq![10]);
    push_all(&mut out, head.as_slice());
    push_digits(&mut out, nr as u64, 16);
    push_all(&mut out, pid_tag.as_slice());
    push_digits(&mut out, pid as u64, 10);
    push_all(&mut out, ts_tag.as_slice());
    push_digits(&mut out, timestamp, 10);
    push_all(&mut out, newline.as_slice());
    assert(out@ =~= syscall_entry(nr, pid, timestamp));
    out
}

/// Records syscall `nr`, made by process `pid`, in the history log, stamped
/// with the clock reading `now` (0 when the clock is not up).
pub fn record_syscall(log: &mut SyscallLog, nr: u32, pid: u32, now: Option<Instant>)
    ensures
        final(log)@ == after_push(old(log)@, syscall_entry(nr, pid, timestamp_of(now))),
{
    let timestamp = match now {
        Some(instant) => instant.ticks(),
        None => 0,
    };
    log.push(format_syscall_entry(nr, pid, timestamp));
}

/// A number below `radix` to the power `k` (`k >= 1`) has at most `k` digits.
pub proof fn lemma_digits_len(n: nat, radix: nat, k: nat)
    requires
        2 <= radix <= 16,
        1 <= k,
        n < radix_pow(radix, k),
    ensures
        radix_digits(n, radix).len() <= k,
    decreases k,
{
    if n >= radix {
        if k == 1 {
            assert(radix_pow(radix, 1) == radix * radix_pow(radix, 0));
            assert(radix_pow(radix, 1) == radix) by (nonlinear_arith)
                requires
                    radix_pow(radix, 1) == radix * radix_pow(radix, 0),
                    radix_pow(radix, 0) == 1,
            ;
        } else {
            assert(radix_pow(radix, k) == radix * radix_pow(radix, (k - 1) as nat));
            vstd::arithmetic::div_mod::lemma_multiply_divide_lt(
                n as int,
                radix as int,
                radix_pow(radix, (k - 1) as nat) as int,
            );
            lemma_digits_len(n / radix, radix, (k - 1) as nat);
            assert(radix_digits(n, radix) == radix_digits(n / radix, radix).push(
                digit_byte(n % radix),
            ));
            assert(radix_digits(n, radix).len() <= k);
        }
    } else {
        assert(radix_digits(n, radix).len() == 1);
    }
}

/// Every history line fits in the log whole: it is never truncated.
pub proof fn lemma_entry_fits(nr: u32, pid: u32, timestamp: u64)
    ensures
        syscall_entry(nr, pid, timestamp).len() <= 58,
        syscall_entry(nr, pid, timestamp).len() <= SYSCALL_LOG_MAX_BYTES,
{
    reveal_with_fuel(radix_pow, 21);
    assert(radix_pow(16, 8) == 0x1_0000_0000);
    assert(radix_pow(10, 10) == 10_000_000_000);
    assert(radix_pow(10, 20) == 100_000_000_000_000_000_000);
    lemma_digits_len(nr as nat, 16, 8);
    lemma_digits_len(pid as nat, 10, 10);
    lemma_digits_len(timestamp as nat, 10, 20);
}

/// Recording a syscall appends its whole line: the line is the newest entry,
/// and the log's bytes end with it.
pub proof fn lemma_record_reads_back(s: Seq<Seq<u8>>, nr: u32, pid: u32, timestamp: u64)
    ensures
        ({
            let e = syscall_entry(nr, pid, timestamp);
            let k = evict_count(s, e.len()) as int;
            &&& after_push(s, e).last() == e
            &&& after_push(s, e).flatten() == s.skip(k).flatten() + e
        }),
{
    let e = syscall_entry(nr, pid, timestamp);
    lemma_entry_fits(nr, pid, timestamp);
    lemma_kept_bytes(e);
    lemma_push_reads_back(s, e);
}

/// The value an ASCII digit stands for: `0`-`9` are 0 to 9 and `a`-`f` are
/// 10 to 15; any other byte stands for none (-1).
pub open spec fn ascii_digit_value(b: u8) -> int {
    if 48 <= b <= 57 {
        b - 48
    } else if 97 <= b <= 102 {
        b - 97 + 10
    } else {
        -1
    }
}

/// The number that a string of digits in base `radix` reads as, most
/// significant digit first.
pub open spec fn digits_value(ds: Seq<u8>, radix: nat) -> int
    decreases ds.len(),
{
    if ds.len() == 0 {
        0
    } else {
        digits_value(ds.drop_last(), radix) * radix + ascii_digit_value(ds.last())
    }
}

/// The digits of `n` read back as `n`: every digit is a lowercase ASCII
/// digit below `radix`, the leading digit is `0` only for zero, and the
/// digits' value in base `radix` is `n`.
pub proof fn lemma_digits_read_back(n: nat, radix: nat)
    requires
        2 <= radix <= 16,
    ensures
        radix_digits(n, radix).len() >= 1,
        forall|i: int|
            0 <= i < radix_digits(n, radix).len() ==> 0 <= #[trigger] ascii_digit_value(
                radix_digits(n, radix)[i],
            ) < radix,
        radix_digits(n, radix)[0] == 48 ==> n == 0,
        digits_value(radix_digits(n, radix), radix) == n,
    decreases n,
{
    let ds = radix_digits(n, radix);
    if n < radix {
        assert(ds.drop_last() =~= Seq::<u8>::empty());
        assert(digits_value(ds.drop_last(), radix) == 0);
    } else {
        vstd::arithmetic::div_mod::lemma_div_decreases(n as int, radix as int);
        lemma_digits_read_back(n / radix, radix);
        let q = radix_digits(n / radix, radix);
        assert(ds == q.push(digit_byte(n % radix)));
        assert(ds.drop_last() =~= q);
        vstd::arithmetic::div_mod::lemma_fundamental_div_mod(n as int, radix as int);
        assert(n / radix > 0) by {
            vstd::arithmetic::div_mod::lemma_div_non_zero(n as int, radix as int);
        }
        assert forall|i: int| 0 <= i < ds.len() implies 0 <= #[trigger] ascii_digit_value(ds[i])
            < radix by {
            if i < q.len() {
                assert(ds[i] == q[i]);
            }
        }
        assert(ds[0] == q[0]);
        assert(digits_value(ds, radix) == digits_value(q, radix) * radix + (n % radix));
        assert((n / radix) * radix == radix * (n / radix)) by (nonlinear_arith);
    }
}

/// The ASCII bytes of a string of ASCII characters.
pub open spec fn ascii_bytes(text: Seq<char>) -> Seq<u8> {
    text.map_values(|c: char| c as u8)
}

/// A history line reads `syscall=0x`, the number in lowercase hex, ` pid=`,
/// the pid in decimal, ` ts=`, the timestamp in decimal, and a newline.
pub proof fn lemma_entry_layout(nr: u32, pid: u32, timestamp: u64)
    ensures
        syscall_entry(nr, pid, timestamp) == ascii_bytes("syscall=0x"@) + radix_digits(
            nr as nat,
            16,
        ) + ascii_bytes(" pid="@) + radix_digits(pid as nat, 10) + ascii_bytes(" ts="@)
            + radix_digits(timestamp as nat, 10) + ascii_bytes("\n"@),
{
    reveal_strlit("syscall=0x");
    reveal_strlit(" pid=");
    reveal_strlit(" ts=");
    reveal_strlit("\n");
    assert(ascii_bytes("syscall=0x"@) =~= seq![115u8, 121, 115, 99, 97, 108, 108, 61, 48, 120]);
    assert(ascii_bytes(" pid="@) =~= seq![32u8, 112, 105, 100, 61]);
    assert(ascii_bytes(" ts="@) =~= seq![32u8, 116, 115, 61]);
    assert(ascii_bytes("\n"@) =~= seq![10u8]);
}

} // verus!
