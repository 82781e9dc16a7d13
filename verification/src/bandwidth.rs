//! The bandwidth estimator: the throughput that one timed transfer realised,
//! and the mean over a run of them.
//!
//! A throughput is kept in billionths of a bit per second, so that a slow
//! transfer does not count as none.

use crate::text::BILLION;
use crate::text::NANOS_PER_SECOND;
use crate::transfer::ideal_nanos;
use crate::transfer::lemma_delay_reaches_target;
use vstd::prelude::*;

verus! {

/// The bits of an object of `object_size` bytes, times the nanoseconds of a
/// second and the billionths of a bit per second: what is divided by a time
/// in nanoseconds to give a throughput.
pub open spec fn scaled_bits(object_size: nat) -> int {
    object_size * 8 * NANOS_PER_SECOND * BILLION
}

/// The throughput, in billionths of a bit per second and rounded down, of a
/// transfer of `object_size` bytes that took `elapsed_nanos` nanoseconds. A
/// transfer that the clock saw take no time counts as having taken one
/// nanosecond.
pub open spec fn throughput(object_size: nat, elapsed_nanos: nat) -> nat {
    let ticks: int = if elapsed_nanos == 0 {
        1
    } else {
        elapsed_nanos as int
    };
    (scaled_bits(object_size) / ticks) as nat
}

/// The sum of the throughputs of transfers of `object_size` bytes that took
/// the times in `elapsed`, in nanoseconds.
pub open spec fn total_throughput(object_size: nat, elapsed: Seq<u128>) -> nat
    decreases elapsed.len(),
{
    if elapsed.len() == 0 {
        0
    } else {
        total_throughput(object_size, elapsed.drop_last()) + throughput(
            object_size,
            elapsed.last() as nat,
        )
    }
}

/// The arithmetic mean, rounded down, of the throughputs of transfers of
/// `object_size` bytes that took the times in `elapsed`.
pub open spec fn mean_throughput(object_size: nat, elapsed: Seq<u128>) -> nat {
    total_throughput(object_size, elapsed) / elapsed.len()
}

/// No transfer of `object_size` bytes is faster than one that takes a
/// nanosecond.
pub proof fn lemma_throughput_bound(object_size: nat, elapsed_nanos: nat)
    ensures
        throughput(object_size, elapsed_nanos) <= scaled_bits(object_size),
{
    let bits = scaled_bits(object_size);
    let ticks: int = if elapsed_nanos == 0 {
        1
    } else {
        elapsed_nanos as int
    };
    vstd::arithmetic::div_mod::lemma_div_is_ordered_by_denominator(bits, 1, ticks);
}

/// A sum of throughputs that all lie between `low` and `high` lies between
/// as many times `low` and as many times `high`.
pub proof fn lemma_total_between(object_size: nat, elapsed: Seq<u128>, low: nat, high: nat)
    requires
        forall|i: int|
            0 <= i < elapsed.len() ==> low <= throughput(
                object_size,
                (#[trigger] elapsed[i]) as nat,
            ) <= high,
    ensures
        elapsed.len() * low <= total_throughput(object_size, elapsed) <= elapsed.len() * high,
    decreases elapsed.len(),
{
    let count = elapsed.len() as int;
    if count > 0 {
        let front = elapsed.drop_last();
        assert forall|i: int| 0 <= i < front.len() implies low <= throughput(
            object_size,
            (#[trigger] front[i]) as nat,
        ) <= high by {
            assert(front[i] == elapsed[i]);
        }
        lemma_total_between(object_size, front, low, high);
        assert(low <= throughput(object_size, elapsed[count - 1] as nat) <= high);
        assert(count * low == (count - 1) * low + low) by (nonlinear_arith);
        assert(count * high == (count - 1) * high + high) by (nonlinear_arith);
    } else {
        assert(count * low == 0 && count * high == 0) by (nonlinear_arith)
            requires
                count == 0,
        ;
    }
}

/// A mean of throughputs that all lie between `low` and `high` lies between
/// `low` and `high`.
pub proof fn lemma_mean_between(object_size: nat, elapsed: Seq<u128>, low: nat, high: nat)
    requires
        elapsed.len() > 0,
        forall|i: int|
            0 <= i < elapsed.len() ==> low <= throughput(
                object_size,
                (#[trigger] elapsed[i]) as nat,
            ) <= high,
    ensures
        low <= mean_throughput(object_size, elapsed) <= high,
{
    let count = elapsed.len() as int;
    let total = total_throughput(object_size, elapsed) as int;
    lemma_total_between(object_size, elapsed, low, high);
    vstd::arithmetic::div_mod::lemma_div_is_ordered(count * low, total, count);
    vstd::arithmetic::div_mod::lemma_div_is_ordered(total, count * high, count);
    vstd::arithmetic::div_mod::lemma_div_multiples_vanish(low as int, count);
    vstd::arithmetic::div_mod::lemma_div_multiples_vanish(high as int, count);
}

/// The average bandwidth is zero for an empty object and for no other,
/// where no transfer was so slow that its throughput is below a billionth
/// of a bit per second.
pub proof fn lemma_mean_is_zero_for_nothing_alone(object_size: nat, elapsed: Seq<u128>)
    requires
        elapsed.len() > 0,
        object_size > 0 ==> forall|i: int|
            0 <= i < elapsed.len() ==> (#[trigger] elapsed[i]) <= scaled_bits(object_size),
    ensures
        mean_throughput(object_size, elapsed) == 0 <==> object_size == 0,
{
    let bits = scaled_bits(object_size);
    if object_size == 0 {
        assert(bits == 0) by (nonlinear_arith)
            requires
                bits == object_size * 8 * NANOS_PER_SECOND * BILLION,
                object_size == 0,
        ;
        lemma_mean_between(object_size, elapsed, 0, 0);
    } else {
        assert(bits >= 1) by (nonlinear_arith)
            requires
                bits == object_size * 8 * NANOS_PER_SECOND * BILLION,
                object_size >= 1,
                NANOS_PER_SECOND == 1_000_000_000,
                BILLION == 1_000_000_000,
        ;
        assert forall|i: int| 0 <= i < elapsed.len() implies 1 <= throughput(
            object_size,
            (#[trigger] elapsed[i]) as nat,
        ) <= bits by {
            let ticks: int = if elapsed[i] == 0 {
                1
            } else {
                elapsed[i] as int
            };
            lemma_throughput_bound(object_size, elapsed[i] as nat);
            vstd::arithmetic::div_mod::lemma_div_is_ordered(ticks, bits, ticks);
            vstd::arithmetic::div_mod::lemma_div_basics(ticks);
        }
        lemma_mean_between(object_size, elapsed, 1, bits as nat);
    }
}

/// The average bandwidth does not exceed the target bandwidth, where every
/// transfer took at least as long as its payload needs at that bandwidth.
pub proof fn lemma_mean_within_target(object_size: nat, bandwidth: usize, elapsed: Seq<u128>)
    requires
        bandwidth > 0,
        elapsed.len() > 0,
        forall|i: int|
            0 <= i < elapsed.len() ==> (#[trigger] elapsed[i]) >= ideal_nanos(
                object_size,
                bandwidth as nat,
            ),
    ensures
        mean_throughput(object_size, elapsed) <= bandwidth * BILLION,
{
    let bits = scaled_bits(object_size);
    let ideal = ideal_nanos(object_size, bandwidth as nat) as int;
    let top = bandwidth * BILLION;
    lemma_delay_reaches_target(object_size, bandwidth, 0);
    assert(ideal * bandwidth >= object_size * 8 * NANOS_PER_SECOND);
    assert forall|i: int| 0 <= i < elapsed.len() implies 0 <= throughput(
        object_size,
        (#[trigger] elapsed[i]) as nat,
    ) <= top by {
        let spent = elapsed[i] as int;
        if object_size == 0 {
            assert(bits == 0) by (nonlinear_arith)
                requires
                    bits == object_size * 8 * NANOS_PER_SECOND * BILLION,
                    object_size == 0,
            ;
        } else {
            assert(ideal >= 1) by (nonlinear_arith)
                requires
                    ideal * bandwidth >= object_size * 8 * NANOS_PER_SECOND,
                    object_size >= 1,
                    NANOS_PER_SECOND == 1_000_000_000,
                    bandwidth > 0,
            ;
            assert(bits <= spent * top) by (nonlinear_arith)
                requires
                    bits == object_size * 8 * NANOS_PER_SECOND * BILLION,
                    ideal * bandwidth >= object_size * 8 * NANOS_PER_SECOND,
                    spent >= ideal,
                    top == bandwidth * BILLION,
                    bandwidth > 0,
                    BILLION == 1_000_000_000,
            ;
            vstd::arithmetic::div_mod::lemma_div_is_ordered(bits, spent * top, spent);
            vstd::arithmetic::div_mod::lemma_div_multiples_vanish(top, spent);
        }
    }
    lemma_mean_between(object_size, elapsed, 0, top as nat);
}

/// The throughput that one transfer of `object_size` bytes realised in
/// `elapsed_nanos` nanoseconds, in billionths of a bit per second.
pub fn measured_bandwidth(object_size: usize, elapsed_nanos: u128) -> (rate: u128)
    ensures
        rate == throughput(object_size as nat, elapsed_nanos as nat),
{
    let bits: u128 = object_size as u128 * 8 * NANOS_PER_SECOND * BILLION;
    let ticks: u128 = if elapsed_nanos == 0 {
        1
    } else {
        elapsed_nanos
    };
    bits / ticks
}

/// The average bandwidth over a run of transfers of `object_size` bytes each,
/// of which `elapsed` holds the times in nanoseconds: the mean of the
/// throughputs that the transfers realised one by one, in billionths of a
/// bit per second.
///
/// There must be at least one transfer.
pub fn get_avg_bandwidth(object_size: usize, elapsed: &Vec<u128>) -> (avg_bandwidth: u128)
    requires
        elapsed.len() > 0,
    ensures
        avg_bandwidth == mean_throughput(object_size as nat, elapsed@),
{
    let count: u128 = elapsed.len() as u128;
    let ghost cap: int = scaled_bits(object_size as nat);
    let ghost step: int = cap / (count as int) + 1;
    let mut whole: u128 = 0;
    let mut rest: u128 = 0;
    let mut at: usize = 0;
    proof {
        vstd::arithmetic::div_mod::lemma_fundamental_div_mod(cap, count as int);
        vstd::arithmetic::div_mod::lemma_mod_bound(cap, count as int);
    }
    while at < elapsed.len()
        invariant
            at <= elapsed.len(),
            count == elapsed.len(),
            count > 0,
            cap == scaled_bits(object_size as nat),
            step == cap / (count as int) + 1,
            (count as int) * (cap / (count as int)) <= cap,
            rest < count,
            whole <= at * step,
            whole * count + rest == total_throughput(object_size as nat, elapsed@.take(at as int)),
        decreases elapsed.len() - at,
    {
        let sample = measured_bandwidth(object_size, elapsed[at]);
        proof {
            lemma_throughput_bound(object_size as nat, elapsed[at as int] as nat);
            assert(elapsed@.take(at + 1).drop_last() =~= elapsed@.take(at as int));
            vstd::arithmetic::div_mod::lemma_fundamental_div_mod(sample as int, count as int);
            vstd::arithmetic::div_mod::lemma_mod_bound(sample as int, count as int);
            vstd::arithmetic::div_mod::lemma_div_is_ordered(sample as int, cap, count as int);
            assert((at + 1) * step == at * step + step) by (nonlinear_arith);
            assert(at * step + step <= count * step) by (nonlinear_arith)
                requires
                    at + 1 <= count,
                    step >= 0,
            ;
            assert(count * step == count * (cap / (count as int)) + count) by (nonlinear_arith)
                requires
                    step == cap / (count as int) + 1,
            ;
            assert((whole + sample / count) * count == whole * count + count * (sample / count))
                by (nonlinear_arith);
            assert((whole + sample / count + 1) * count == whole * count + count * (sample / count)
                + count) by (nonlinear_arith);
        }
        whole = whole + sample / count;
        rest = rest + sample % count;
        if rest >= count {
            rest = rest - count;
            whole = whole + 1;
        }
        at = at + 1;
    }
    proof {
        assert(elapsed@.take(at as int) =~= elapsed@);
        let total = total_throughput(object_size as nat, elapsed@) as int;
        assert(total == count * whole + rest) by (nonlinear_arith)
            requires
                whole * count + rest == total,
        ;
        vstd::arithmetic::div_mod::lemma_fundamental_div_mod_converse(
            total,
            count as int,
            whole as int,
            rest as int,
        );
    }
    whole
}

} // verus!
