//! The measurement record: one row of results, the resource figures that are
//! derived for it from the configuration, and its rendering as a line of
//! comma-separated values.

use crate::text::decimal;
use crate::text::push_decimal;
use crate::text::billionths;
use crate::text::push_billionths;
use vstd::prelude::*;
use vstd::string::StringExecFns;

verus! {

/// The size of one shard of an object of `object_size` bytes that is cut
/// into `data_shards` data shards. What does not divide evenly is dropped.
pub open spec fn shard_size_of(object_size: nat, data_shards: nat) -> nat {
    object_size / data_shards
}

/// The resource figures of the erasure-coding strategy.
#[derive(Clone, Copy, Debug, PartialEq, Eq, Structural)]
pub struct ErasureUsage {
    /// The number of shards, data and parity together.
    pub shards: usize,
    /// The bytes that all shards hold together.
    pub memory: usize,
    /// The bytes sent to set the shards up: all shards but the first.
    pub bandwidth_setup: usize,
    /// The bytes sent to recover: as many shards as there are parity shards.
    pub bandwidth_recovery: usize,
}

/// The resource figures of the replication strategy.
#[derive(Clone, Copy, Debug, PartialEq, Eq, Structural)]
pub struct ReplicationUsage {
    /// The number of copies, the primary included.
    pub nodes: usize,
    /// The bytes that all copies hold together.
    pub memory: usize,
    /// The bytes sent to set the replicas up: one object for each replica.
    pub bandwidth_setup: usize,
    /// The bytes sent to recover: one object for each replica.
    pub bandwidth_recovery: usize,
}

impl ErasureUsage {
    /// The figures are those of erasure coding for these shard counts and
    /// this object size: the products of the shard counts and the shard size.
    pub open spec fn derived_from(self, data_shards: nat, parity_shards: nat, object_size: nat) -> bool {
        &&& self.shards == data_shards + parity_shards
        &&& self.memory == (data_shards + parity_shards) * shard_size_of(object_size, data_shards)
        &&& self.bandwidth_setup == (data_shards + parity_shards - 1) * shard_size_of(
            object_size,
            data_shards,
        )
        &&& self.bandwidth_recovery == parity_shards * shard_size_of(object_size, data_shards)
    }
}

impl ReplicationUsage {
    /// The figures are those of replication for this number of replicas and
    /// this object size: the products of the counts and the object size.
    pub open spec fn derived_from(self, parity_count: nat, object_size: nat) -> bool {
        &&& self.nodes == parity_count + 1
        &&& self.memory == (parity_count + 1) * object_size
        &&& self.bandwidth_setup == parity_count * object_size
        &&& self.bandwidth_recovery == parity_count * object_size
    }
}

/// The figures of erasure coding and of replication both fit the machine's
/// integers where `parity_count + 1` objects do.
pub proof fn lemma_usage_fits(data_shards: nat, parity_count: nat, object_size: nat)
    requires
        data_shards > 0,
    ensures
        (data_shards + parity_count) * shard_size_of(object_size, data_shards) <= (parity_count
            + 1) * object_size,
        parity_count * shard_size_of(object_size, data_shards) <= parity_count * object_size,
        parity_count * object_size <= (parity_count + 1) * object_size,
        shard_size_of(object_size, data_shards) <= object_size,
{
    let size = shard_size_of(object_size, data_shards) as int;
    let d = data_shards as int;
    let p = parity_count as int;
    let o = object_size as int;
    vstd::arithmetic::div_mod::lemma_fundamental_div_mod(o, d);
    vstd::arithmetic::div_mod::lemma_mod_bound(o, d);
    assert(size <= o) by (nonlinear_arith)
        requires
            d * size <= o,
            d >= 1,
            size >= 0,
    ;
    assert(p * size <= p * o) by (nonlinear_arith)
        requires
            size <= o,
            p >= 0,
    ;
    assert((d + p) * size == d * size + p * size) by (nonlinear_arith);
    assert((p + 1) * o == p * o + o) by (nonlinear_arith);
}

/// Derives the figures of erasure coding from the configuration.
pub fn erasure_usage(data_shards: usize, parity_shards: usize, object_size: usize) -> (usage:
    ErasureUsage)
    requires
        data_shards > 0,
        data_shards + parity_shards <= usize::MAX,
        (data_shards + parity_shards) * shard_size_of(object_size as nat, data_shards as nat)
            <= usize::MAX,
    ensures
        usage.derived_from(data_shards as nat, parity_shards as nat, object_size as nat),
{
    let total = data_shards + parity_shards;
    let size = object_size / data_shards;
    proof {
        assert((total - 1) * size <= total * size) by (nonlinear_arith)
            requires
                total >= 1,
                size >= 0,
        ;
        assert(parity_shards * size <= total * size) by (nonlinear_arith)
            requires
                parity_shards <= total,
                size >= 0,
        ;
    }
    ErasureUsage {
        shards: total,
        memory: total * size,
        bandwidth_setup: (total - 1) * size,
        bandwidth_recovery: parity_shards * size,
    }
}

/// Derives the figures of replication from the configuration.
pub fn replication_usage(parity_count: usize, object_size: usize) -> (usage: ReplicationUsage)
    requires
        parity_count + 1 <= usize::MAX,
        (parity_count + 1) * object_size <= usize::MAX,
    ensures
        usage.derived_from(parity_count as nat, object_size as nat),
{
    proof {
        lemma_usage_fits(1, parity_count as nat, object_size as nat);
    }
    ReplicationUsage {
        nodes: parity_count + 1,
        memory: (parity_count + 1) * object_size,
        bandwidth_setup: parity_count * object_size,
        bandwidth_recovery: parity_count * object_size,
    }
}

/// One row of results: what one iteration of the benchmark measured and
/// what is derived for it from the configuration.
///
/// Times are in nanoseconds, the average bandwidth in billionths of a bit
/// per second.
#[derive(Clone, Copy, Debug, PartialEq, Eq, Structural)]
pub struct BenchmarkData {
    /// The number of the iteration within its round, from one.
    pub iteration: usize,
    /// The size of the object, in bytes.
    pub object_size: usize,
    /// How many shards, or replicas, may be lost at once.
    pub fail_tolerance: usize,
    /// The average bandwidth that the round's estimate observed, in
    /// billionths of a bit per second.
    pub avg_bandwidth: u128,
    /// The time that erasure coding took to set up.
    pub ec_setup_time: u128,
    /// The time that erasure coding took to recover.
    pub ec_recovery_time: u128,
    /// The number of shards, data and parity together.
    pub ec_shard: usize,
    /// The bytes that all shards hold together.
    pub ec_memory_usage: usize,
    /// The bytes that erasure coding sent to set up.
    pub ec_bandwidth_setup_usage: usize,
    /// The bytes that erasure coding sent to recover.
    pub ec_bandwidth_recovery_usage: usize,
    /// The time that replication took to set up.
    pub r_setup_time: u128,
    /// The time that replication took to recover.
    pub r_recovery_time: u128,
    /// The number of copies, the primary included.
    pub r_node_count: usize,
    /// The bytes that all copies hold together.
    pub r_memory_usage: usize,
    /// The bytes that replication sent to set up.
    pub r_bandwidth_setup_usage: usize,
    /// The bytes that replication sent to recover.
    pub r_bandwidth_recovery_usage: usize,
}

/// The header line, with its line feed.
pub open spec fn csv_header() -> Seq<char> {
    "iteration,object_size(byte),fail_tolerance,avg_bandwidth(bit/s),ec_setup_time(s),ec_recovery_time(s),ec_shard,ec_memory_usage(byte),ec_bandwidth_setup_usage(byte),ec_bandwidth_recovery_usage(byte),r_setup_time(s),r_recovery_time(s),r_node_count,r_memory_usage(byte),r_bandwidth_setup_usage(byte),r_bandwidth_recovery_usage(byte)\n"@
}

/// A count or a size as a field of a data line that another field follows:
/// the number in decimal and the comma that separates the two.
pub open spec fn count_field(n: nat) -> Seq<char> {
    decimal(n).push(',')
}

/// A time as a field of a data line that another field follows: the
/// nanoseconds in seconds and the comma that separates the two.
pub open spec fn time_field(nanos: nat) -> Seq<char> {
    billionths(nanos).push(',')
}

/// A bandwidth as a field of a data line that another field follows: the
/// billionths of a bit per second in bits per second and the comma that
/// separates the two.
pub open spec fn rate_field(rate: nat) -> Seq<char> {
    billionths(rate).push(',')
}

impl BenchmarkData {
    /// The figures of erasure coding that the record holds.
    pub open spec fn erasure(self) -> ErasureUsage {
        ErasureUsage {
            shards: self.ec_shard,
            memory: self.ec_memory_usage,
            bandwidth_setup: self.ec_bandwidth_setup_usage,
            bandwidth_recovery: self.ec_bandwidth_recovery_usage,
        }
    }

    /// The figures of replication that the record holds.
    pub open spec fn replication(self) -> ReplicationUsage {
        ReplicationUsage {
            nodes: self.r_node_count,
            memory: self.r_memory_usage,
            bandwidth_setup: self.r_bandwidth_setup_usage,
            bandwidth_recovery: self.r_bandwidth_recovery_usage,
        }
    }

    /// The record is the one of an iteration that ran under this
    /// configuration: its identity fields name the configuration, and its
    /// resource figures are the products derived from it.
    pub open spec fn describes(self, data_shards: nat, parity_count: nat, object_size: nat) -> bool {
        &&& self.object_size == object_size
        &&& self.fail_tolerance == parity_count
        &&& self.erasure().derived_from(data_shards, parity_count, object_size)
        &&& self.replication().derived_from(parity_count, object_size)
    }

    /// The record's data line: its sixteen fields in order, separated by
    /// commas, and a line feed.
    pub open spec fn csv_line(self) -> Seq<char> {
        count_field(self.iteration as nat) + count_field(self.object_size as nat) + count_field(
            self.fail_tolerance as nat,
        ) + rate_field(self.avg_bandwidth as nat) + time_field(self.ec_setup_time as nat)
            + time_field(self.ec_recovery_time as nat) + count_field(self.ec_shard as nat)
            + count_field(self.ec_memory_usage as nat) + count_field(
            self.ec_bandwidth_setup_usage as nat,
        ) + count_field(self.ec_bandwidth_recovery_usage as nat) + time_field(
            self.r_setup_time as nat,
        ) + time_field(self.r_recovery_time as nat) + count_field(self.r_node_count as nat)
            + count_field(self.r_memory_usage as nat) + count_field(
            self.r_bandwidth_setup_usage as nat,
        ) + decimal(self.r_bandwidth_recovery_usage as nat) + seq!['\n']
    }

    /// A record with every field at zero.
    pub fn new() -> (record: BenchmarkData)
        ensures
            record == (BenchmarkData {
                iteration: 0,
                object_size: 0,
                fail_tolerance: 0,
                avg_bandwidth: 0,
                ec_setup_time: 0,
                ec_recovery_time: 0,
                ec_shard: 0,
                ec_memory_usage: 0,
                ec_bandwidth_setup_usage: 0,
                ec_bandwidth_recovery_usage: 0,
                r_setup_time: 0,
                r_recovery_time: 0,
                r_node_count: 0,
                r_memory_usage: 0,
                r_bandwidth_setup_usage: 0,
                r_bandwidth_recovery_usage: 0,
            }),
    {
        BenchmarkData {
            iteration: 0,
            object_size: 0,
            fail_tolerance: 0,
            avg_bandwidth: 0,
            ec_setup_time: 0,
            ec_recovery_time: 0,
            ec_shard: 0,
            ec_memory_usage: 0,
            ec_bandwidth_setup_usage: 0,
            ec_bandwidth_recovery_usage: 0,
            r_setup_time: 0,
            r_recovery_time: 0,
            r_node_count: 0,
            r_memory_usage: 0,
            r_bandwidth_setup_usage: 0,
            r_bandwidth_recovery_usage: 0,
        }
    }

    /// Renders the header line as it is to be printed: the names of the
    /// sixteen fields, separated by commas, and a line feed.
    pub fn print_csv_header(&self) -> (line: String)
        ensures
            line@ == csv_header(),
    {
        String::from_str(
            "iteration,object_size(byte),fail_tolerance,avg_bandwidth(bit/s),ec_setup_time(s),ec_recovery_time(s),ec_shard,ec_memory_usage(byte),ec_bandwidth_setup_usage(byte),ec_bandwidth_recovery_usage(byte),r_setup_time(s),r_recovery_time(s),r_node_count,r_memory_usage(byte),r_bandwidth_setup_usage(byte),r_bandwidth_recovery_usage(byte)\n",
        )
    }

    /// Renders the record's data line as it is to be printed.
    pub fn print_csv_contents(&self) -> (line: String)
        ensures
            line@ == self.csv_line(),
    {
        let mut line = String::new();
        push_count(&mut line, self.iteration as u128);
        push_count(&mut line, self.object_size as u128);
        push_count(&mut line, self.fail_tolerance as u128);
        push_rate(&mut line, self.avg_bandwidth);
        push_time(&mut line, self.ec_setup_time);
        push_time(&mut line, self.ec_recovery_time);
        push_count(&mut line, self.ec_shard as u128);
        push_count(&mut line, self.ec_memory_usage as u128);
        push_count(&mut line, self.ec_bandwidth_setup_usage as u128);
        push_count(&mut line, self.ec_bandwidth_recovery_usage as u128);
        push_time(&mut line, self.r_setup_time);
        push_time(&mut line, self.r_recovery_time);
        push_count(&mut line, self.r_node_count as u128);
        push_count(&mut line, self.r_memory_usage as u128);
        push_count(&mut line, self.r_bandwidth_setup_usage as u128);
        push_decimal(&mut line, self.r_bandwidth_recovery_usage as u128);
        proof {
            reveal_strlit("\n");
        }
        line.append("\n");
        assert(line@ =~= self.csv_line());
        line
    }
}

/// Appends a count or a size and the comma that follows it.
pub fn push_count(out: &mut String, n: u128)
    ensures
        final(out)@ == old(out)@ + count_field(n as nat),
{
    push_decimal(out, n);
    proof {
        reveal_strlit(",");
    }
    out.append(",");
    assert(out@ =~= old(out)@ + count_field(n as nat));
}

/// Appends a time and the comma that follows it.
pub fn push_time(out: &mut String, nanos: u128)
    ensures
        final(out)@ == old(out)@ + time_field(nanos as nat),
{
    push_billionths(out, nanos);
    proof {
        reveal_strlit(",");
    }
    out.append(",");
    assert(out@ =~= old(out)@ + time_field(nanos as nat));
}

/// Appends a bandwidth and the comma that follows it.
pub fn push_rate(out: &mut String, rate: u128)
    ensures
        final(out)@ == old(out)@ + rate_field(rate as nat),
{
    push_billionths(out, rate);
    proof {
        reveal_strlit(",");
    }
    out.append(",");
    assert(out@ =~= old(out)@ + rate_field(rate as nat));
}

} // verus!
