//! The bandwidth-limited transfer: how long the sending of a payload has to
//! take at a target bandwidth, and how long the sender still has to wait once
//! the real work is done.

use crate::text::NANOS_PER_SECOND;
use vstd::prelude::*;
use vstd::string::StringExecFns;

verus! {

/// What a simulated transfer leaves behind: the file that stands for the
/// payload sent.
#[derive(Clone, Copy, Debug, PartialEq, Eq, Structural)]
pub enum Artifact {
    /// The payload of a bandwidth measurement.
    BandwidthTest,
    /// The payload of a shard or of a replica.
    Benchmark,
}

impl Artifact {
    /// The name of the artifact's file.
    pub open spec fn spec_file_name(self) -> Seq<char> {
        match self {
            Artifact::BandwidthTest => "bw_test.temp"@,
            Artifact::Benchmark => "benchmark.temp"@,
        }
    }

    /// The name of the artifact's file, in the working directory.
    pub fn file_name(&self) -> (name: String)
        ensures
            name@ == self.spec_file_name(),
    {
        match self {
            Artifact::BandwidthTest => String::from_str("bw_test.temp"),
            Artifact::Benchmark => String::from_str("benchmark.temp"),
        }
    }
}

/// The nanoseconds that sending `payload_size` bytes takes at `bandwidth`
/// bits per second, rounded up to a whole nanosecond. Nothing takes no time,
/// at any bandwidth.
pub open spec fn ideal_nanos(payload_size: nat, bandwidth: nat) -> nat {
    if payload_size == 0 || bandwidth == 0 {
        0
    } else {
        ((payload_size * 8 * NANOS_PER_SECOND + bandwidth - 1) / (bandwidth as int)) as nat
    }
}

/// The nanoseconds that a transfer of `payload_size` bytes has still to wait
/// after `elapsed_nanos` of real work: what is missing to the ideal duration
/// where a target bandwidth is set, and nothing where none is.
pub open spec fn delay(payload_size: nat, target_bandwidth: Option<usize>, elapsed_nanos: nat) -> nat {
    match target_bandwidth {
        None => 0,
        Some(bandwidth) => if ideal_nanos(payload_size, bandwidth as nat) > elapsed_nanos {
            (ideal_nanos(payload_size, bandwidth as nat) - elapsed_nanos) as nat
        } else {
            0
        },
    }
}

/// With the delay added, a transfer takes at least as long as its payload
/// needs at the target bandwidth; and where there is a delay, one nanosecond
/// less would be too short.
pub proof fn lemma_delay_reaches_target(payload_size: nat, bandwidth: usize, elapsed_nanos: nat)
    requires
        bandwidth > 0,
    ensures
        (elapsed_nanos + delay(payload_size, Some(bandwidth), elapsed_nanos)) * bandwidth
            >= payload_size * 8 * NANOS_PER_SECOND,
        delay(payload_size, Some(bandwidth), elapsed_nanos) > 0 ==> (elapsed_nanos + delay(
            payload_size,
            Some(bandwidth),
            elapsed_nanos,
        ) - 1) * bandwidth < payload_size * 8 * NANOS_PER_SECOND,
{
    let bits = payload_size * 8 * NANOS_PER_SECOND;
    let b = bandwidth as int;
    let ideal = ideal_nanos(payload_size, bandwidth as nat) as int;
    if payload_size == 0 {
        assert((elapsed_nanos + 0) * b >= 0) by (nonlinear_arith)
            requires
                elapsed_nanos >= 0,
                b > 0,
        ;
    } else {
        let top = bits + b - 1;
        vstd::arithmetic::div_mod::lemma_fundamental_div_mod(top, b);
        vstd::arithmetic::div_mod::lemma_mod_bound(top, b);
        assert(b * (ideal - 1) < bits) by (nonlinear_arith)
            requires
                top == b * ideal + top % b,
                top == bits + b - 1,
                0 <= top % b,
        ;
        let total = (elapsed_nanos + delay(payload_size, Some(bandwidth), elapsed_nanos)) as int;
        assert(total * b >= bits) by (nonlinear_arith)
            requires
                total >= ideal,
                b * ideal >= bits,
                b > 0,
        ;
        if delay(payload_size, Some(bandwidth), elapsed_nanos) > 0 {
            assert((total - 1) * b < bits) by (nonlinear_arith)
                requires
                    total == ideal,
                    b * (ideal - 1) < bits,
            ;
        }
    }
}

/// Tells how long a transfer of `payload_size` bytes has still to wait, in
/// nanoseconds, once `elapsed_nanos` have gone by with the real work.
///
/// A target bandwidth of zero admits no payload but the empty one.
pub fn transfer_delay(payload_size: usize, target_bandwidth: Option<usize>, elapsed_nanos: u128) -> (wait:
    u128)
    requires
        target_bandwidth matches Some(bandwidth) ==> bandwidth > 0 || payload_size == 0,
    ensures
        wait == delay(payload_size as nat, target_bandwidth, elapsed_nanos as nat),
{
    match target_bandwidth {
        None => 0,
        Some(bandwidth) => {
            if payload_size == 0 {
                return 0;
            }
            let bits: u128 = payload_size as u128 * 8 * NANOS_PER_SECOND;
            let ideal: u128 = (bits + (bandwidth as u128 - 1)) / (bandwidth as u128);
            if ideal > elapsed_nanos {
                ideal - elapsed_nanos
            } else {
                0
            }
        },
    }
}

} // verus!
