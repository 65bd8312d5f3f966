//! The guest module: its one entry point and the contract it honors.

use vstd::prelude::*;

verus! {

use crate::host::HostLog;

/// `x` reduced modulo `2^32` and read back as a 32-bit two's-complement
/// value: the numeric contract of the 32-bit integer width. Overflow wraps
/// silently; it is not an error condition.
pub open spec fn as_wrapped_i32(x: int) -> int {
    let m = x % 0x1_0000_0000;
    if m >= 0x8000_0000 {
        m - 0x1_0000_0000
    } else {
        m
    }
}

/// The value `operation(a, b)` returns: `(a + b) mod 2^32`, as a 32-bit
/// two's-complement value.
pub open spec fn op_result(a: i32, b: i32) -> int {
    as_wrapped_i32(a + b)
}

/// The calls `operation(a, b)` makes into the host, in order: first `a`,
/// then `b`. The segment depends on the arguments alone.
pub open spec fn op_calls(a: i32, b: i32) -> Seq<i32> {
    seq![a, b]
}

/// The guest's entry point. It notifies the host of `a`, then of `b` — both
/// notifications complete before the sum is computed — and returns the
/// wrapping 32-bit sum of the two. Any pair of arguments is valid; the guest
/// keeps no state of its own, so everything it does is a function of the
/// arguments and shows up in the contract: the result, and the two entries
/// appended to the host's log.
pub fn operation<H: HostLog>(host: &mut H, a: i32, b: i32) -> (r: i32)
    ensures
        r == op_result(a, b),
        final(host).log() == old(host).log() + op_calls(a, b),
{
    host.host_log(a);
    host.host_log(b);
    proof {
        assert(host.log() =~= old(host).log() + op_calls(a, b));
        lemma_wrapping_add_is_mod(a, b);
    }
    a.wrapping_add(b)
}

/// The wrapping addition the guest executes agrees with the modular
/// description `op_result` gives of it.
proof fn lemma_wrapping_add_is_mod(a: i32, b: i32)
    ensures
        vstd::wrapping::i32_specs::wrapping_add(a, b) == op_result(a, b),
{
    let s = a + b;
    assert(-0x1_0000_0000 <= s < 0x1_0000_0000);
    if s >= 0 {
        assert(s % 0x1_0000_0000 == s);
    } else {
        assert(s % 0x1_0000_0000 == s + 0x1_0000_0000);
    }
}

/// Invoking `operation` repeatedly with identical arguments yields identical
/// results and identical call sequences every time. The result `op_result(a, b)`
/// and the call segment `op_calls(a, b)` are functions of the arguments alone,
/// so what an invocation appends to a host's log is the same whatever the log
/// already held — in particular, the same after any number of earlier
/// identical invocations.
pub proof fn lemma_operation_idempotent(a: i32, b: i32, log1: Seq<i32>, log2: Seq<i32>)
    ensures
        (log1 + op_calls(a, b)).skip(log1.len() as int) == (log2 + op_calls(a, b)).skip(
            log2.len() as int,
        ),
{
    assert((log1 + op_calls(a, b)).skip(log1.len() as int) =~= op_calls(a, b));
    assert((log2 + op_calls(a, b)).skip(log2.len() as int) =~= op_calls(a, b));
}

} // verus!
