//! The sweep driver: rounds of measurement under a rising bandwidth ceiling,
//! as a machine that tells its caller what to do next. The caller sends the
//! transfers and prints the lines; the machine decides, measures and keeps
//! the record.

use crate::bandwidth::get_avg_bandwidth;
use crate::bandwidth::mean_throughput;
use crate::clock::nanos_since;
use crate::codec::all_present;
use crate::codec::keeps_present;
use crate::codec::rs_reconstructed;
use crate::codec::FIELD_ORDER;
use crate::erasure::encode_fault;
use crate::erasure::encoded;
use crate::erasure::drawn;
use crate::erasure::erased;
use crate::erasure::lemma_erased;
use crate::erasure::lemma_present_count_wrapped;
use crate::erasure::wrapped;
use crate::erasure::zero_set;
use crate::erasure::zero_shards;
use crate::erasure::CodecFault;
use crate::erasure::ErasureRun;
use crate::record::csv_header;
use crate::record::erasure_usage;
use crate::record::lemma_usage_fits;
use crate::record::replication_usage;
use crate::record::shard_size_of;
use crate::record::BenchmarkData;
use crate::replication::ReplicaSet;
use crate::transfer::Artifact;
use rand::rngs::ThreadRng;
use std::time::Instant;
use vstd::prelude::*;

verus! {

/// Where a sweep stands: what it has asked its caller to do and waits to
/// hear of.
#[derive(Clone, Copy, Debug, PartialEq, Eq, Structural)]
pub enum Phase {
    /// Nothing was asked yet.
    Idle,
    /// The header line is being printed.
    Header,
    /// A transfer of the round's bandwidth estimate is under way.
    Probe,
    /// A shard is being sent to set erasure coding up.
    EcSetup,
    /// A rebuilt shard is being sent again.
    EcRecovery,
    /// A replica is being sent to set replication up.
    ReplicaSetup,
    /// A replica that was made again is being sent.
    ReplicaRecovery,
    /// The data line of an iteration is being printed.
    Record,
    /// The sweep is over.
    Finished,
    /// The sweep was given up.
    Failed,
}

/// Why a sweep was given up.
#[derive(Clone, Copy, Debug, PartialEq, Eq, Structural)]
pub enum Failure {
    /// A transfer, or the printing of a line, could not be carried out.
    Transfer,
    /// The codec turned an operation down.
    Codec(CodecFault),
    /// The shards that were rebuilt are not the shards that were encoded.
    Integrity,
}

/// What became of the last thing that the sweep asked for.
#[derive(Clone, Copy, Debug, PartialEq, Eq, Structural)]
pub enum Outcome {
    /// It was carried out.
    Done,
    /// It could not be carried out.
    Failed,
}

/// What a sweep asks its caller to do next.
#[derive(Debug)]
pub enum Action {
    /// Print the header line.
    PrintHeader(String),
    /// Send a payload of `size` bytes over the channel, at no more than the
    /// target bandwidth.
    Transfer { artifact: Artifact, size: usize, target_bandwidth: Option<usize> },
    /// Print the data line of the iteration that has ended.
    PrintRecord(String),
    /// Nothing more: the sweep is over.
    Finish,
    /// Nothing more: the sweep was given up.
    Abort(Failure),
}

/// The configuration of a sweep.
pub struct Plan {
    /// The iterations of each round, and the transfers of each estimate.
    pub iteration_count: nat,
    /// The rounds that follow the first one.
    pub round_count: nat,
    /// By how much the bandwidth ceiling rises after each round.
    pub bandwidth_step: nat,
    /// The number of data shards.
    pub data_shards: nat,
    /// The number of parity shards, and of replicas.
    pub parity_count: nat,
    /// The size of the object, in bytes.
    pub object_size: nat,
    /// The bandwidth ceiling of the first round, in bits per second.
    pub initial_bandwidth: nat,
}

/// The position of a sweep.
pub struct Control {
    /// What the sweep waits to hear of.
    pub phase: Phase,
    /// The round, from zero.
    pub round: nat,
    /// The iteration within the round, from one.
    pub iteration: nat,
    /// How many transfers of the phase are done.
    pub sent: nat,
    /// The bandwidth ceiling, in bits per second.
    pub bandwidth: nat,
}

/// The configuration is one that a sweep can run under: there is at least
/// one iteration and one data shard, a bandwidth ceiling is set, and the
/// figures to come fit the machine's integers.
pub open spec fn valid_configuration(
    iteration_count: usize,
    round_count: usize,
    bandwidth_step: usize,
    data_shards: usize,
    parity_count: usize,
    object_size: usize,
    target_bandwidth: Option<usize>,
) -> bool {
    &&& iteration_count > 0
    &&& data_shards > 0
    &&& data_shards + parity_count <= usize::MAX
    &&& (parity_count + 1) * object_size <= usize::MAX
    &&& target_bandwidth matches Some(bandwidth) && bandwidth + (round_count + 1) * bandwidth_step
        <= usize::MAX
}

/// The fault with which the codec turns the configuration down when the
/// shards of an object are encoded, if any: there is no parity shard, there
/// are more shards than the field has elements, or the shards are empty.
pub open spec fn configuration_fault(plan: Plan) -> Option<CodecFault> {
    if plan.data_shards == 0 {
        Some(CodecFault::TooFewDataShards)
    } else if plan.parity_count == 0 {
        Some(CodecFault::TooFewParityShards)
    } else if plan.data_shards + plan.parity_count > FIELD_ORDER {
        Some(CodecFault::TooManyShards)
    } else if shard_size_of(plan.object_size, plan.data_shards) == 0 {
        Some(CodecFault::EmptyShard)
    } else {
        None
    }
}

/// The bandwidth ceiling of a round.
pub open spec fn ceiling(plan: Plan, round: nat) -> nat {
    plan.initial_bandwidth + round * plan.bandwidth_step
}

/// The transfers that a phase asks for.
pub open spec fn transfers_in(plan: Plan, phase: Phase) -> nat {
    match phase {
        Phase::Probe => plan.iteration_count,
        Phase::EcSetup => (plan.data_shards + plan.parity_count - 1) as nat,
        Phase::EcRecovery => plan.parity_count,
        Phase::ReplicaSetup => plan.parity_count,
        Phase::ReplicaRecovery => plan.parity_count,
        _ => 0,
    }
}

/// The phase is one of an iteration of the two strategies.
pub open spec fn in_iteration(phase: Phase) -> bool {
    phase is EcSetup || phase is EcRecovery || phase is ReplicaSetup || phase is ReplicaRecovery
        || phase is Record
}

/// The position is one that a sweep under `plan` can be in.
pub open spec fn control_wf(plan: Plan, c: Control) -> bool {
    &&& c.round <= plan.round_count
    &&& c.phase is Idle || c.phase is Header ==> c.round == 0
    &&& c.phase is Failed || c.phase is Finished || c.bandwidth == ceiling(plan, c.round)
    &&& c.phase is Finished ==> c.bandwidth == ceiling(plan, plan.round_count + 1)
    &&& in_iteration(c.phase) ==> 1 <= c.iteration <= plan.iteration_count
    &&& transfers_in(plan, c.phase) > 0 ==> c.sent < transfers_in(plan, c.phase)
}

/// The phase that follows the last transfer of a phase.
pub open spec fn phase_after(phase: Phase) -> Phase {
    match phase {
        Phase::Probe => Phase::EcSetup,
        Phase::EcSetup => Phase::EcRecovery,
        Phase::EcRecovery => Phase::ReplicaSetup,
        Phase::ReplicaSetup => Phase::ReplicaRecovery,
        _ => Phase::Record,
    }
}

/// The sweep at `c` starts an iteration when it goes on: it has made the
/// last transfer of an estimate, or printed the data line of an iteration
/// that is not the last of its round.
pub open spec fn begins_iteration(plan: Plan, c: Control) -> bool {
    ||| c.phase is Probe && c.sent + 1 >= plan.iteration_count
    ||| c.phase is Record && c.iteration < plan.iteration_count
}

/// A step from `c` with this outcome hears of the last transfer of `phase`:
/// the time of that phase is then complete.
pub open spec fn closes(plan: Plan, c: Control, outcome: Outcome, phase: Phase) -> bool {
    outcome is Done && c.phase == phase && c.sent + 1 >= transfers_in(plan, phase)
}

/// The position that follows `c` once what the sweep asked for is done and
/// the sweep goes on.
pub open spec fn advance(plan: Plan, c: Control) -> Control {
    match c.phase {
        Phase::Idle => Control { phase: Phase::Header, ..c },
        Phase::Header => Control { phase: Phase::Probe, sent: 0, ..c },
        Phase::Record => if c.iteration < plan.iteration_count {
            Control { phase: Phase::EcSetup, iteration: c.iteration + 1, sent: 0, ..c }
        } else if c.round < plan.round_count {
            Control {
                phase: Phase::Probe,
                round: c.round + 1,
                sent: 0,
                bandwidth: c.bandwidth + plan.bandwidth_step,
                ..c
            }
        } else {
            Control { phase: Phase::Finished, bandwidth: c.bandwidth + plan.bandwidth_step, ..c }
        },
        Phase::Finished => c,
        Phase::Failed => c,
        _ => if c.sent + 1 < transfers_in(plan, c.phase) {
            Control { sent: c.sent + 1, ..c }
        } else {
            Control {
                phase: phase_after(c.phase),
                iteration: if c.phase is Probe {
                    1
                } else {
                    c.iteration
                },
                sent: 0,
                ..c
            }
        },
    }
}

/// The data lines that a sweep at `c` has asked to be printed.
pub open spec fn records_emitted(plan: Plan, c: Control) -> nat {
    match c.phase {
        Phase::Idle => 0,
        Phase::Header => 0,
        Phase::Probe => c.round * plan.iteration_count,
        Phase::Record => c.round * plan.iteration_count + c.iteration,
        Phase::Finished => (plan.round_count + 1) * plan.iteration_count,
        Phase::Failed => 0,
        _ => (c.round * plan.iteration_count + c.iteration - 1) as nat,
    }
}

/// The action asks for the header line to be printed.
pub open spec fn is_header(action: Action) -> bool {
    match action {
        Action::PrintHeader(line) => line@ == csv_header(),
        _ => false,
    }
}

/// The action asks for a transfer of `size` bytes that leaves `artifact`
/// behind, at no more than `bandwidth` bits per second.
pub open spec fn is_transfer(action: Action, artifact: Artifact, size: nat, bandwidth: nat) -> bool {
    match action {
        Action::Transfer { artifact: a, size: s, target_bandwidth: Some(b) } => a == artifact && s
            == size && b == bandwidth,
        _ => false,
    }
}

/// The action asks for the data line of `record` to be printed.
pub open spec fn is_record(action: Action, record: BenchmarkData) -> bool {
    match action {
        Action::PrintRecord(line) => line@ == record.csv_line(),
        _ => false,
    }
}

/// The action tells that the sweep was given up, for the reason `failure`.
pub open spec fn is_abort(action: Action, failure: Option<Failure>) -> bool {
    match action {
        Action::Abort(f) => Some(f) == failure,
        _ => false,
    }
}

/// Going on keeps a sweep in a position that it can be in.
pub proof fn lemma_advance_wf(plan: Plan, c: Control)
    requires
        control_wf(plan, c),
        plan.iteration_count > 0,
    ensures
        control_wf(plan, advance(plan, c)),
{
    if c.phase is Record && c.iteration >= plan.iteration_count {
        assert((c.round + 1) * plan.bandwidth_step == c.round * plan.bandwidth_step
            + plan.bandwidth_step) by (nonlinear_arith);
    }
}

/// A sweep asks for one data line each time it comes to the end of an
/// iteration, and for none otherwise; when it is over it has asked for
/// `(round_count + 1) * iteration_count` of them.
pub proof fn lemma_records_counted(plan: Plan, c: Control)
    requires
        control_wf(plan, c),
        plan.iteration_count > 0,
        !(c.phase is Failed),
    ensures
        records_emitted(plan, advance(plan, c)) == records_emitted(plan, c) + if advance(
            plan,
            c,
        ).phase is Record && !(c.phase is Record) {
            1nat
        } else {
            0nat
        },
        advance(plan, c).phase is Finished ==> records_emitted(plan, advance(plan, c)) == (
        plan.round_count + 1) * plan.iteration_count,
{
    let n = plan.iteration_count;
    assert((c.round + 1) * n == c.round * n + n) by (nonlinear_arith);
    assert(c.round * n >= 0) by (nonlinear_arith);
    if c.phase is Header {
        assert(c.round * n == 0) by (nonlinear_arith)
            requires
                c.round == 0,
        ;
    }
}

/// The header is asked for once, before anything else: a sweep comes to the
/// header from its start alone, and never comes back to its start.
pub proof fn lemma_header_once(plan: Plan, c: Control)
    ensures
        advance(plan, c).phase is Header <==> c.phase is Idle,
        !(advance(plan, c).phase is Idle),
{
}

/// The bandwidth ceiling rises from round to round, strictly where the step
/// is not zero.
pub proof fn lemma_ceiling_rises(plan: Plan, earlier: nat, later: nat)
    requires
        earlier < later,
    ensures
        ceiling(plan, earlier) <= ceiling(plan, later),
        plan.bandwidth_step > 0 ==> ceiling(plan, earlier) < ceiling(plan, later),
{
    let step = plan.bandwidth_step;
    assert(earlier * step <= later * step) by (nonlinear_arith)
        requires
            earlier < later,
            step >= 0,
    ;
    if step > 0 {
        assert(earlier * step < later * step) by (nonlinear_arith)
            requires
                earlier < later,
                step > 0,
        ;
    }
}

/// Tells whether a configuration is one that a sweep can run under.
pub fn is_valid_configuration(
    iteration_count: usize,
    round_count: usize,
    bandwidth_step: usize,
    data_shards: usize,
    parity_count: usize,
    object_size: usize,
    target_bandwidth: Option<usize>,
) -> (valid: bool)
    ensures
        valid == valid_configuration(
            iteration_count,
            round_count,
            bandwidth_step,
            data_shards,
            parity_count,
            object_size,
            target_bandwidth,
        ),
{
    if iteration_count == 0 || data_shards == 0 {
        return false;
    }
    if parity_count > usize::MAX - data_shards {
        return false;
    }
    if (parity_count + 1).checked_mul(object_size).is_none() {
        return false;
    }
    let bandwidth = match target_bandwidth {
        None => {
            return false;
        },
        Some(bandwidth) => bandwidth,
    };
    let rounds = match round_count.checked_add(1) {
        None => {
            assert((round_count + 1) * bandwidth_step >= 0) by (nonlinear_arith);
            if bandwidth_step == 0 {
                assert((round_count + 1) * bandwidth_step == 0) by (nonlinear_arith)
                    requires
                        bandwidth_step == 0,
                ;
                return true;
            }
            assert((round_count + 1) * bandwidth_step > usize::MAX) by (nonlinear_arith)
                requires
                    round_count + 1 > usize::MAX,
                    bandwidth_step >= 1,
            ;
            return false;
        },
        Some(rounds) => rounds,
    };
    let rise = match rounds.checked_mul(bandwidth_step) {
        None => {
            return false;
        },
        Some(rise) => rise,
    };
    bandwidth.checked_add(rise).is_some()
}

/// A sweep: the configuration, the position, the measurements of the round
/// and of the iteration under way, and the data of the two strategies.
pub struct Sweep {
    iteration_count: usize,
    round_count: usize,
    bandwidth_step: usize,
    data_shards: usize,
    parity_count: usize,
    object_size: usize,
    initial_bandwidth: usize,
    shard_size: usize,
    phase: Phase,
    round: usize,
    iteration: usize,
    sent: usize,
    bandwidth: usize,
    failure: Option<Failure>,
    timer: Instant,
    samples: Vec<u128>,
    record: BenchmarkData,
    rng: ThreadRng,
    run: Option<ErasureRun>,
    draws: Vec<usize>,
    replicas: Option<ReplicaSet>,
}

impl Sweep {
    /// The configuration.
    pub closed spec fn plan(&self) -> Plan {
        Plan {
            iteration_count: self.iteration_count as nat,
            round_count: self.round_count as nat,
            bandwidth_step: self.bandwidth_step as nat,
            data_shards: self.data_shards as nat,
            parity_count: self.parity_count as nat,
            object_size: self.object_size as nat,
            initial_bandwidth: self.initial_bandwidth as nat,
        }
    }

    /// The position.
    pub closed spec fn control(&self) -> Control {
        Control {
            phase: self.phase,
            round: self.round as nat,
            iteration: self.iteration as nat,
            sent: self.sent as nat,
            bandwidth: self.bandwidth as nat,
        }
    }

    /// Why the sweep was given up, if it was.
    pub closed spec fn failure(&self) -> Option<Failure> {
        self.failure
    }

    /// The record of the iteration under way.
    pub closed spec fn record(&self) -> BenchmarkData {
        self.record
    }

    /// The times, in nanoseconds, of the transfers of the estimate that are
    /// done.
    pub closed spec fn samples(&self) -> Seq<u128> {
        self.samples@
    }

    /// The object under erasure coding, in the phases of erasure coding.
    pub closed spec fn run(&self) -> Option<ErasureRun> {
        self.run
    }

    /// The slots that were drawn for loss in the iteration under way.
    pub closed spec fn draws(&self) -> Seq<usize> {
        self.draws@
    }

    /// The object under replication, in the phases of replication.
    pub closed spec fn replicas(&self) -> Option<ReplicaSet> {
        self.replicas
    }

    /// The shard set that every iteration encodes: zero-filled data shards
    /// and their parity.
    pub open spec fn encoded_object(&self) -> Seq<Seq<u8>> {
        let plan = self.plan();
        encoded(
            plan.data_shards,
            plan.parity_count,
            zero_set(
                plan.data_shards + plan.parity_count,
                shard_size_of(plan.object_size, plan.data_shards),
            ),
        )
    }

    /// Every shard of the erasure-coding run is present and is the shard
    /// that was encoded.
    pub open spec fn intact(&self) -> bool {
        self.run() is Some && all_present(self.run()->0.shards(), self.run()->0.original())
    }

    /// The data are those of the phase. While erasure coding is set up, every
    /// shard of the encoded object is present. While it recovers, the shards
    /// are what the codec rebuilt after the slots drawn were lost, and what
    /// was not lost is unchanged. Under replication the copies are those of
    /// the object's data shards: two and one more for each transfer done
    /// while replicas are sent, all of them when the data line is printed.
    pub open spec fn holds_data(&self) -> bool {
        let plan = self.plan();
        let c = self.control();
        let lost = erased(wrapped(self.encoded_object()), self.draws());
        &&& c.phase is EcSetup || c.phase is EcRecovery ==> {
            &&& self.run() is Some
            &&& self.run()->0.wf()
            &&& self.run()->0.data_shards() == plan.data_shards
            &&& self.run()->0.parity_shards() == plan.parity_count
            &&& self.run()->0.original() == self.encoded_object()
        }
        &&& c.phase is EcSetup ==> self.run()->0.shards() == wrapped(self.encoded_object())
        &&& c.phase is EcRecovery ==> {
            &&& self.draws().len() == plan.parity_count
            &&& forall|k: int|
                0 <= k < self.draws().len() ==> (#[trigger] self.draws()[k]) < plan.data_shards
                    + plan.parity_count
            &&& all_present(
                self.run()->0.shards(),
                rs_reconstructed(plan.data_shards, plan.parity_count, lost),
            )
            &&& keeps_present(lost, self.run()->0.shards())
        }
        &&& c.phase is ReplicaSetup || c.phase is ReplicaRecovery || c.phase is Record ==> {
            &&& self.replicas() is Some
            &&& self.replicas()->0.wf()
            &&& self.replicas()->0.primary() == self.encoded_object().take(plan.data_shards as int)
        }
        &&& c.phase is ReplicaSetup || c.phase is ReplicaRecovery
            ==> self.replicas()->0.copies().len() == c.sent + 2
        &&& c.phase is Record ==> self.replicas()->0.copies().len() == plan.parity_count + 1
    }

    /// The configuration is valid and the round is one of the sweep.
    pub closed spec fn settled(&self) -> bool {
        &&& valid_configuration(
            self.iteration_count,
            self.round_count,
            self.bandwidth_step,
            self.data_shards,
            self.parity_count,
            self.object_size,
            Some(self.initial_bandwidth),
        )
        &&& self.shard_size == self.object_size / self.data_shards
        &&& self.round <= self.round_count
    }

    /// The estimate of the round is made: there is a sample for each of its
    /// transfers, and the record holds their mean throughput.
    pub closed spec fn estimated(&self) -> bool {
        &&& self.samples@.len() == self.iteration_count
        &&& self.record.avg_bandwidth == mean_throughput(self.object_size as nat, self.samples@)
    }

    /// The sweep is well formed: its configuration is valid, its position is
    /// one that it can be in, and its data are those of its phase.
    pub closed spec fn wf(&self) -> bool {
        &&& self.settled()
        &&& control_wf(self.plan(), self.control())
        &&& self.phase is Failed <==> self.failure is Some
        &&& self.phase is Probe ==> self.samples@.len() == self.sent
        &&& in_iteration(self.phase) ==> configuration_fault(self.plan()) is None
        &&& in_iteration(self.phase) ==> self.estimated() && self.record.describes(
            self.data_shards as nat,
            self.parity_count as nat,
            self.object_size as nat,
        ) && self.record.iteration == self.iteration
        &&& self.holds_data()
    }

    /// What the sweep asks for in the position it is in.
    pub open spec fn asks(&self, action: Action) -> bool {
        let plan = self.plan();
        let c = self.control();
        let shard_size = shard_size_of(plan.object_size, plan.data_shards);
        match c.phase {
            Phase::Idle => false,
            Phase::Header => is_header(action),
            Phase::Probe => is_transfer(
                action,
                Artifact::BandwidthTest,
                plan.object_size,
                c.bandwidth,
            ),
            Phase::EcSetup => is_transfer(action, Artifact::Benchmark, shard_size, c.bandwidth),
            Phase::EcRecovery => is_transfer(action, Artifact::Benchmark, shard_size, c.bandwidth),
            Phase::ReplicaSetup => is_transfer(
                action,
                Artifact::Benchmark,
                plan.object_size,
                c.bandwidth,
            ),
            Phase::ReplicaRecovery => is_transfer(
                action,
                Artifact::Benchmark,
                plan.object_size,
                c.bandwidth,
            ),
            Phase::Record => is_record(action, self.record()),
            Phase::Finished => action is Finish,
            Phase::Failed => is_abort(action, self.failure()),
        }
    }

    /// Whether a step from this position with this outcome gives the sweep
    /// up, and why: a transfer or a line that could not be carried out, a
    /// configuration that the codec turns down when an iteration starts, or
    /// rebuilt shards that are not the encoded ones at the end of recovery.
    pub open spec fn gives_up(&self, outcome: Outcome) -> Option<Failure> {
        let c = self.control();
        if c.phase is Idle || c.phase is Finished || c.phase is Failed {
            None
        } else if outcome is Failed {
            Some(Failure::Transfer)
        } else if begins_iteration(self.plan(), c) && configuration_fault(self.plan()) is Some {
            Some(Failure::Codec(configuration_fault(self.plan())->0))
        } else if c.phase is EcRecovery && c.sent + 1 == self.plan().parity_count
            && !self.intact() {
            Some(Failure::Integrity)
        } else {
            None
        }
    }

    /// What a step from `before` with this outcome leaves behind, and what it
    /// asks for. The configuration stays. The sweep is given up where
    /// [`Sweep::gives_up`] says so, for the reason it gives; otherwise it
    /// stands at the position that follows. The action is the one that the
    /// new position asks for. In the phases of an iteration the record
    /// describes the configuration and the iteration, and its average
    /// bandwidth is the mean throughput of the samples of the round's
    /// estimate, one for each of its transfers. The data are those of the
    /// phase.
    pub open spec fn follows(&self, before: Sweep, outcome: Outcome, action: Action) -> bool {
        let plan = self.plan();
        let c = self.control();
        &&& plan == before.plan()
        &&& control_wf(plan, c)
        &&& self.asks(action)
        &&& before.gives_up(outcome) is Some ==> c.phase is Failed && self.failure()
            == before.gives_up(outcome)
        &&& before.gives_up(outcome) is None ==> c == advance(before.plan(), before.control())
            && self.failure() == before.failure()
        &&& in_iteration(c.phase) ==> self.record().describes(
            plan.data_shards,
            plan.parity_count,
            plan.object_size,
        ) && self.record().iteration == c.iteration
        &&& self.holds_data()
        &&& c.phase is Probe ==> self.samples().len() == c.sent
        &&& in_iteration(c.phase) ==> self.samples().len() == plan.iteration_count
        &&& in_iteration(c.phase) ==> self.record().avg_bandwidth == mean_throughput(
            plan.object_size,
            self.samples(),
        )
    }

    /// What becomes of the time `elapsed_nanos` that a step from `before` with
    /// this outcome was handed. Where a transfer of the estimate is done, the
    /// time is added to the samples. Where the last transfer of a phase of a
    /// strategy is done, it is the setup or the recovery time of that
    /// strategy in the record. No other time of the record changes, and the
    /// samples change otherwise only where an estimate starts, with none.
    pub open spec fn takes_time(&self, before: Sweep, outcome: Outcome, elapsed_nanos: u128) -> bool {
        let plan = before.plan();
        let c = before.control();
        let was = before.record();
        let now = self.record();
        &&& now.ec_setup_time == if closes(plan, c, outcome, Phase::EcSetup) {
            elapsed_nanos
        } else {
            was.ec_setup_time
        }
        &&& now.ec_recovery_time == if closes(plan, c, outcome, Phase::EcRecovery) {
            elapsed_nanos
        } else {
            was.ec_recovery_time
        }
        &&& now.r_setup_time == if closes(plan, c, outcome, Phase::ReplicaSetup) {
            elapsed_nanos
        } else {
            was.r_setup_time
        }
        &&& now.r_recovery_time == if closes(plan, c, outcome, Phase::ReplicaRecovery) {
            elapsed_nanos
        } else {
            was.r_recovery_time
        }
        &&& self.samples() == if c.phase is Probe && outcome is Done {
            before.samples().push(elapsed_nanos)
        } else if self.control().phase is Probe {
            Seq::empty()
        } else {
            before.samples()
        }
    }

    /// While erasure coding recovers, every slot holds a shard, and each slot
    /// that was not drawn for loss holds the shard that was encoded.
    pub proof fn lemma_survivors_are_kept(&self, slot: int)
        requires
            self.holds_data(),
            self.control().phase is EcRecovery,
            0 <= slot < self.plan().data_shards + self.plan().parity_count,
        ensures
            self.run()->0.shards()[slot] is Some,
            !drawn(self.draws(), slot) ==> self.run()->0.shards()[slot] == Some(
                self.encoded_object()[slot],
            ),
    {
        let full = self.encoded_object();
        let lost = erased(wrapped(full), self.draws());
        assert(full.len() == self.plan().data_shards + self.plan().parity_count);
        lemma_erased(wrapped(full), self.draws());
        if !drawn(self.draws(), slot) {
            assert(wrapped(full)[slot] == Some(full[slot]));
            assert(lost[slot] == Some(full[slot]));
        }
    }

    /// A sweep under this configuration, about to start.
    pub fn new(
        iteration_count: usize,
        round_count: usize,
        bandwidth_step: usize,
        data_shards: usize,
        parity_count: usize,
        object_size: usize,
        target_bandwidth: Option<usize>,
    ) -> (sweep: Sweep)
        requires
            valid_configuration(
                iteration_count,
                round_count,
                bandwidth_step,
                data_shards,
                parity_count,
                object_size,
                target_bandwidth,
            ),
        ensures
            sweep.wf(),
            sweep.plan() == (Plan {
                iteration_count: iteration_count as nat,
                round_count: round_count as nat,
                bandwidth_step: bandwidth_step as nat,
                data_shards: data_shards as nat,
                parity_count: parity_count as nat,
                object_size: object_size as nat,
                initial_bandwidth: target_bandwidth->0 as nat,
            }),
            sweep.control() == (Control {
                phase: Phase::Idle,
                round: 0,
                iteration: 0,
                sent: 0,
                bandwidth: target_bandwidth->0 as nat,
            }),
            sweep.failure() is None,
    {
        let bandwidth = match target_bandwidth {
            Some(bandwidth) => bandwidth,
            None => 0,
        };
        assert(0 * bandwidth_step == 0) by (nonlinear_arith);
        Sweep {
            iteration_count,
            round_count,
            bandwidth_step,
            data_shards,
            parity_count,
            object_size,
            initial_bandwidth: bandwidth,
            shard_size: object_size / data_shards,
            phase: Phase::Idle,
            round: 0,
            iteration: 0,
            sent: 0,
            bandwidth,
            failure: None,
            timer: Instant::now(),
            samples: Vec::new(),
            record: BenchmarkData::new(),
            rng: rand::thread_rng(),
            run: None,
            draws: Vec::new(),
            replicas: None,
        }
    }

    /// The phase that the sweep is in.
    pub fn phase(&self) -> (phase: Phase)
        ensures
            phase == self.control().phase,
    {
        self.phase
    }

    /// The bandwidth ceiling that the sweep stands at, in bits per second.
    pub fn bandwidth(&self) -> (bandwidth: usize)
        ensures
            bandwidth == self.control().bandwidth,
    {
        self.bandwidth
    }

    /// The record as it stands: complete for the iteration that has ended
    /// when the sweep asks for its data line.
    pub fn row(&self) -> (record: BenchmarkData)
        ensures
            record == self.record(),
    {
        self.record
    }

    /// Takes the outcome of what the sweep asked for last and tells what to
    /// do next, reading from the clock how long what was asked for took.
    ///
    /// A sweep that is over, or given up, stays so. A sweep that has not
    /// started asks for the header, whatever the outcome given. Otherwise a
    /// failed outcome gives the sweep up; so does a configuration that the
    /// codec turns down, when the first iteration is to start, and so do
    /// rebuilt shards that are not the encoded ones, at the end of the
    /// recovery of erasure coding. In all other cases the sweep goes on to
    /// the next position and asks for what belongs to it.
    pub fn step(&mut self, outcome: Outcome) -> (action: Action)
        requires
            old(self).wf(),
        ensures
            final(self).wf(),
            final(self).follows(*old(self), outcome, action),
            exists|elapsed_nanos: u128| #[trigger]
                final(self).takes_time(*old(self), outcome, elapsed_nanos),
    {
        let elapsed_nanos = nanos_since(&self.timer);
        self.step_at(outcome, elapsed_nanos)
    }

    /// Does what [`Sweep::step`] does, with the time that has gone by since
    /// the sweep last began to measure, in nanoseconds, given by the caller.
    ///
    /// The time becomes a sample of the estimate where a transfer of the
    /// estimate is done, and the setup or the recovery time of a strategy
    /// where the last transfer of that phase is done. In every other step
    /// it is not used.
    pub fn step_at(&mut self, outcome: Outcome, elapsed_nanos: u128) -> (action: Action)
        requires
            old(self).wf(),
        ensures
            final(self).wf(),
            final(self).follows(*old(self), outcome, action),
            final(self).takes_time(*old(self), outcome, elapsed_nanos),
    {
        match self.phase {
            Phase::Finished => {
                return Action::Finish;
            },
            Phase::Failed => {
                return self.report();
            },
            Phase::Idle => {
                self.phase = Phase::Header;
                return Action::PrintHeader(self.record.print_csv_header());
            },
            _ => {},
        }
        match outcome {
            Outcome::Failed => {
                return self.fail(Failure::Transfer);
            },
            Outcome::Done => {},
        }
        match self.phase {
            Phase::Header => self.begin_probe(),
            Phase::Probe => self.after_probe(elapsed_nanos),
            Phase::EcSetup => self.after_ec_setup(elapsed_nanos),
            Phase::EcRecovery => self.after_ec_recovery(elapsed_nanos),
            Phase::ReplicaSetup => self.after_replica_setup(elapsed_nanos),
            Phase::ReplicaRecovery => self.after_replica_recovery(elapsed_nanos),
            _ => self.after_record(),
        }
    }

    /// The action of a sweep that was given up.
    fn report(&self) -> (action: Action)
        requires
            self.wf(),
            self.phase is Failed,
        ensures
            self.asks(action),
    {
        match self.failure {
            Some(failure) => Action::Abort(failure),
            None => Action::Finish,
        }
    }

    /// Gives the sweep up.
    fn fail(&mut self, failure: Failure) -> (action: Action)
        requires
            old(self).settled(),
        ensures
            final(self).wf(),
            final(self).plan() == old(self).plan(),
            final(self).phase is Failed,
            final(self).failure == Some(failure),
            final(self).samples@ == old(self).samples@,
            final(self).asks(action),
            final(self).record == old(self).record,
    {
        self.phase = Phase::Failed;
        self.failure = Some(failure);
        Action::Abort(failure)
    }

    /// The transfer that the sweep asks for at its bandwidth ceiling.
    fn transfer(&self, artifact: Artifact, size: usize) -> (action: Action)
        ensures
            is_transfer(action, artifact, size as nat, self.bandwidth as nat),
    {
        Action::Transfer { artifact, size, target_bandwidth: Some(self.bandwidth) }
    }

    /// Starts the bandwidth estimate of the round.
    fn begin_probe(&mut self) -> (action: Action)
        requires
            old(self).settled(),
            old(self).failure is None,
            old(self).bandwidth == ceiling(old(self).plan(), old(self).round as nat),
        ensures
            final(self).wf(),
            final(self).plan() == old(self).plan(),
            final(self).control() == (Control {
                phase: Phase::Probe,
                sent: 0,
                ..old(self).control()
            }),
            final(self).failure == old(self).failure,
            final(self).asks(action),
            final(self).samples@ == Seq::<u128>::empty(),
            final(self).record.ec_setup_time == old(self).record.ec_setup_time,
            final(self).record.ec_recovery_time == old(self).record.ec_recovery_time,
            final(self).record.r_setup_time == old(self).record.r_setup_time,
            final(self).record.r_recovery_time == old(self).record.r_recovery_time,
    {
        self.samples = Vec::new();
        self.phase = Phase::Probe;
        self.sent = 0;
        self.timer = Instant::now();
        self.transfer(Artifact::BandwidthTest, self.object_size)
    }

    /// Takes the time of a transfer of the estimate, and goes on to the next
    /// one or, after the last, to the first iteration.
    fn after_probe(&mut self, elapsed_nanos: u128) -> (action: Action)
        requires
            old(self).wf(),
            old(self).phase is Probe,
        ensures
            final(self).wf(),
            final(self).plan() == old(self).plan(),
            old(self).gives_up(Outcome::Done) matches Some(failure) ==> final(self).phase
                is Failed && final(self).failure == Some(failure),
            old(self).gives_up(Outcome::Done) is None ==> final(self).control() == advance(
                old(self).plan(),
                old(self).control(),
            ) && final(self).failure == old(self).failure,
            final(self).asks(action),
            final(self).takes_time(*old(self), Outcome::Done, elapsed_nanos),
    {
        self.samples.push(elapsed_nanos);
        if self.sent + 1 < self.iteration_count {
            self.sent = self.sent + 1;
            self.timer = Instant::now();
            self.transfer(Artifact::BandwidthTest, self.object_size)
        } else {
            let average = get_avg_bandwidth(self.object_size, &self.samples);
            self.record.avg_bandwidth = average;
            self.begin_iteration(1)
        }
    }

    /// Starts an iteration: fills in what is known of its record, builds the
    /// shards of the object and encodes them.
    fn begin_iteration(&mut self, iteration: usize) -> (action: Action)
        requires
            old(self).settled(),
            old(self).estimated(),
            old(self).failure is None,
            1 <= iteration <= old(self).iteration_count,
            old(self).bandwidth == ceiling(old(self).plan(), old(self).round as nat),
        ensures
            final(self).wf(),
            final(self).plan() == old(self).plan(),
            configuration_fault(old(self).plan()) matches Some(fault) ==> final(self).phase
                is Failed && final(self).failure == Some(Failure::Codec(fault)),
            configuration_fault(old(self).plan()) is None ==> final(self).control() == (Control {
                phase: Phase::EcSetup,
                iteration: iteration as nat,
                sent: 0,
                ..old(self).control()
            }) && final(self).failure == old(self).failure,
            final(self).samples@ == old(self).samples@,
            final(self).asks(action),
            final(self).record.ec_setup_time == old(self).record.ec_setup_time,
            final(self).record.ec_recovery_time == old(self).record.ec_recovery_time,
            final(self).record.r_setup_time == old(self).record.r_setup_time,
            final(self).record.r_recovery_time == old(self).record.r_recovery_time,
    {
        proof {
            lemma_usage_fits(
                self.data_shards as nat,
                self.parity_count as nat,
                self.object_size as nat,
            );
        }
        let erasure = erasure_usage(self.data_shards, self.parity_count, self.object_size);
        let replication = replication_usage(self.parity_count, self.object_size);
        self.record.iteration = iteration;
        self.record.object_size = self.object_size;
        self.record.fail_tolerance = self.parity_count;
        self.record.ec_shard = erasure.shards;
        self.record.ec_memory_usage = erasure.memory;
        self.record.ec_bandwidth_setup_usage = erasure.bandwidth_setup;
        self.record.ec_bandwidth_recovery_usage = erasure.bandwidth_recovery;
        self.record.r_node_count = replication.nodes;
        self.record.r_memory_usage = replication.memory;
        self.record.r_bandwidth_setup_usage = replication.bandwidth_setup;
        self.record.r_bandwidth_recovery_usage = replication.bandwidth_recovery;
        let total = self.data_shards + self.parity_count;
        let shards = zero_shards(total, self.shard_size);
        proof {
            assert(encode_fault(
                self.data_shards as nat,
                self.parity_count as nat,
                shards.deep_view(),
            ) == configuration_fault(self.plan()));
        }
        self.timer = Instant::now();
        match ErasureRun::encode(self.data_shards, self.parity_count, shards) {
            Ok(run) => {
                self.run = Some(run);
                self.replicas = None;
                self.phase = Phase::EcSetup;
                self.iteration = iteration;
                self.sent = 0;
                self.transfer(Artifact::Benchmark, self.shard_size)
            },
            Err(fault) => self.fail(Failure::Codec(fault)),
        }
    }

    /// After a transfer of the setup of erasure coding: the next one or,
    /// after the last, the loss of shards and their recovery.
    fn after_ec_setup(&mut self, elapsed_nanos: u128) -> (action: Action)
        requires
            old(self).wf(),
            old(self).phase is EcSetup,
        ensures
            final(self).wf(),
            final(self).plan() == old(self).plan(),
            final(self).control() == advance(old(self).plan(), old(self).control()),
            final(self).failure == old(self).failure,
            final(self).asks(action),
            final(self).takes_time(*old(self), Outcome::Done, elapsed_nanos),
    {
        if self.sent + 1 < self.data_shards + self.parity_count - 1 {
            self.sent = self.sent + 1;
            return self.transfer(Artifact::Benchmark, self.shard_size);
        }
        self.record.ec_setup_time = elapsed_nanos;
        let mut run = match self.run.take() {
            Some(run) => run,
            None => {
                return self.fail(Failure::Integrity);
            },
        };
        proof {
            lemma_present_count_wrapped(run.original());
        }
        self.draws = run.lose(&mut self.rng);
        self.timer = Instant::now();
        match run.recover() {
            Ok(()) => {
                self.run = Some(run);
                self.phase = Phase::EcRecovery;
                self.sent = 0;
                self.transfer(Artifact::Benchmark, self.shard_size)
            },
            Err(fault) => self.fail(Failure::Codec(fault)),
        }
    }

    /// After a transfer of the recovery of erasure coding: the next one or,
    /// after the last, the check of what was rebuilt and the setup of
    /// replication.
    fn after_ec_recovery(&mut self, elapsed_nanos: u128) -> (action: Action)
        requires
            old(self).wf(),
            old(self).phase is EcRecovery,
        ensures
            final(self).wf(),
            final(self).plan() == old(self).plan(),
            final(self).asks(action),
            final(self).takes_time(*old(self), Outcome::Done, elapsed_nanos),
            old(self).gives_up(Outcome::Done) matches Some(failure) ==> final(self).phase
                is Failed && final(self).failure == Some(failure),
            old(self).gives_up(Outcome::Done) is None ==> final(self).control() == advance(
                old(self).plan(),
                old(self).control(),
            ) && final(self).failure == old(self).failure,
    {
        if self.sent + 1 < self.parity_count {
            self.sent = self.sent + 1;
            return self.transfer(Artifact::Benchmark, self.shard_size);
        }
        self.record.ec_recovery_time = elapsed_nanos;
        let run = match self.run.take() {
            Some(run) => run,
            None => {
                return self.fail(Failure::Integrity);
            },
        };
        if !run.intact() {
            return self.fail(Failure::Integrity);
        }
        let mut replicas = ReplicaSet::new(run.into_object());
        self.timer = Instant::now();
        replicas.replicate();
        self.replicas = Some(replicas);
        self.phase = Phase::ReplicaSetup;
        self.sent = 0;
        self.transfer(Artifact::Benchmark, self.object_size)
    }

    /// After a transfer of the setup of replication: the next replica or,
    /// after the last, the loss of the replicas and the first of their
    /// recovery.
    fn after_replica_setup(&mut self, elapsed_nanos: u128) -> (action: Action)
        requires
            old(self).wf(),
            old(self).phase is ReplicaSetup,
        ensures
            final(self).wf(),
            final(self).plan() == old(self).plan(),
            final(self).control() == advance(old(self).plan(), old(self).control()),
            final(self).failure == old(self).failure,
            final(self).asks(action),
            final(self).takes_time(*old(self), Outcome::Done, elapsed_nanos),
    {
        let mut replicas = match self.replicas.take() {
            Some(replicas) => replicas,
            None => {
                return self.fail(Failure::Integrity);
            },
        };
        if self.sent + 1 < self.parity_count {
            replicas.replicate();
            self.replicas = Some(replicas);
            self.sent = self.sent + 1;
            return self.transfer(Artifact::Benchmark, self.object_size);
        }
        self.record.r_setup_time = elapsed_nanos;
        replicas.lose(self.parity_count);
        self.timer = Instant::now();
        replicas.replicate();
        self.replicas = Some(replicas);
        self.phase = Phase::ReplicaRecovery;
        self.sent = 0;
        self.transfer(Artifact::Benchmark, self.object_size)
    }

    /// After a transfer of the recovery of replication: the next replica
    /// or, after the last, the data line of the iteration.
    fn after_replica_recovery(&mut self, elapsed_nanos: u128) -> (action: Action)
        requires
            old(self).wf(),
            old(self).phase is ReplicaRecovery,
        ensures
            final(self).wf(),
            final(self).plan() == old(self).plan(),
            final(self).control() == advance(old(self).plan(), old(self).control()),
            final(self).failure == old(self).failure,
            final(self).asks(action),
            final(self).takes_time(*old(self), Outcome::Done, elapsed_nanos),
    {
        if self.sent + 1 < self.parity_count {
            let mut replicas = match self.replicas.take() {
                Some(replicas) => replicas,
                None => {
                    return self.fail(Failure::Integrity);
                },
            };
            replicas.replicate();
            self.replicas = Some(replicas);
            self.sent = self.sent + 1;
            return self.transfer(Artifact::Benchmark, self.object_size);
        }
        self.record.r_recovery_time = elapsed_nanos;
        self.phase = Phase::Record;
        self.sent = 0;
        Action::PrintRecord(self.record.print_csv_contents())
    }

    /// After the data line of an iteration: the next iteration or, after the
    /// last of the round, a higher bandwidth ceiling and the next round, or
    /// the end.
    fn after_record(&mut self) -> (action: Action)
        requires
            old(self).wf(),
            old(self).phase is Record,
        ensures
            final(self).wf(),
            final(self).plan() == old(self).plan(),
            final(self).control() == advance(old(self).plan(), old(self).control()),
            final(self).failure == old(self).failure,
            final(self).asks(action),
            final(self).samples@ == if final(self).phase is Probe {
                Seq::<u128>::empty()
            } else {
                old(self).samples@
            },
            final(self).record.ec_setup_time == old(self).record.ec_setup_time,
            final(self).record.ec_recovery_time == old(self).record.ec_recovery_time,
            final(self).record.r_setup_time == old(self).record.r_setup_time,
            final(self).record.r_recovery_time == old(self).record.r_recovery_time,
    {
        if self.iteration < self.iteration_count {
            let next = self.iteration + 1;
            return self.begin_iteration(next);
        }
        proof {
            let round = self.round as int;
            let rounds = self.round_count as int;
            let step = self.bandwidth_step as int;
            assert(round * step + step <= (rounds + 1) * step) by (nonlinear_arith)
                requires
                    0 <= round <= rounds,
                    step >= 0,
            ;
            assert((round + 1) * step == round * step + step) by (nonlinear_arith);
        }
        self.bandwidth = self.bandwidth + self.bandwidth_step;
        if self.round < self.round_count {
            self.round = self.round + 1;
            self.begin_probe()
        } else {
            self.phase = Phase::Finished;
            self.run = None;
            self.replicas = None;
            Action::Finish
        }
    }
}

} // verus!
