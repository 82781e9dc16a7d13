use resilience_bench::erasure::CodecFault;
use resilience_bench::record::BenchmarkData;
use resilience_bench::sweep::is_valid_configuration;
use resilience_bench::sweep::Action;
use resilience_bench::sweep::Failure;
use resilience_bench::sweep::Outcome;
use resilience_bench::sweep::Phase;
use resilience_bench::sweep::Sweep;
use resilience_bench::transfer::Artifact;

struct Trace {
    headers: Vec<String>,
    lines: Vec<String>,
    rows: Vec<BenchmarkData>,
    transfers: Vec<(Phase, Artifact, usize, Option<usize>)>,
    order: Vec<char>,
    last: Action,
}

fn run(mut sweep: Sweep) -> Trace {
    let mut trace = Trace {
        headers: Vec::new(),
        lines: Vec::new(),
        rows: Vec::new(),
        transfers: Vec::new(),
        order: Vec::new(),
        last: Action::Finish,
    };
    for _ in 0..1_000_000 {
        let action = sweep.step(Outcome::Done);
        match action {
            Action::PrintHeader(line) => {
                trace.headers.push(line);
                trace.order.push('h');
            },
            Action::PrintRecord(line) => {
                trace.lines.push(line);
                trace.rows.push(sweep.row());
                trace.order.push('r');
            },
            Action::Transfer { artifact, size, target_bandwidth } => {
                trace.transfers.push((sweep.phase(), artifact, size, target_bandwidth));
                trace.order.push('t');
            },
            other => {
                trace.last = other;
                return trace;
            },
        }
    }
    panic!("the sweep does not come to an end");
}

#[test]
fn a_sweep_prints_one_header_and_a_line_for_each_iteration() {
    let trace = run(Sweep::new(3, 2, 10, 4, 2, 1048576, Some(1000)));
    assert!(matches!(trace.last, Action::Finish));
    assert_eq!(trace.headers.len(), 1);
    assert_eq!(trace.lines.len(), 9);
    assert_eq!(trace.order[0], 'h');
    assert_eq!(trace.order[trace.order.len() - 1], 'r');
    assert_eq!(trace.headers[0], BenchmarkData::new().print_csv_header());
}

#[test]
fn the_bandwidth_ceiling_rises_from_round_to_round() {
    let trace = run(Sweep::new(3, 2, 10, 4, 2, 1048576, Some(1000)));
    let mut ceilings: Vec<usize> = Vec::new();
    for (_, _, _, target) in trace.transfers.iter() {
        let ceiling = target.expect("a sweep always sets a target");
        if ceilings.last() != Some(&ceiling) {
            ceilings.push(ceiling);
        }
    }
    assert_eq!(ceilings, vec![1000, 1010, 1020]);
}

#[test]
fn an_iteration_sends_what_the_strategies_ask_for() {
    let trace = run(Sweep::new(1, 0, 0, 4, 2, 1048576, Some(5000)));
    let count = |phase: Phase| trace.transfers.iter().filter(|t| t.0 == phase).count();
    assert_eq!(count(Phase::Probe), 1);
    assert_eq!(count(Phase::EcSetup), 5);
    assert_eq!(count(Phase::EcRecovery), 2);
    assert_eq!(count(Phase::ReplicaSetup), 2);
    assert_eq!(count(Phase::ReplicaRecovery), 2);
    for (phase, artifact, size, target) in trace.transfers.iter() {
        assert_eq!(*target, Some(5000));
        match phase {
            Phase::Probe => {
                assert_eq!(*artifact, Artifact::BandwidthTest);
                assert_eq!(*size, 1048576);
            },
            Phase::EcSetup | Phase::EcRecovery => {
                assert_eq!(*artifact, Artifact::Benchmark);
                assert_eq!(*size, 262144);
            },
            _ => {
                assert_eq!(*artifact, Artifact::Benchmark);
                assert_eq!(*size, 1048576);
            },
        }
    }
}

#[test]
fn the_record_of_an_iteration_holds_the_derived_figures() {
    let trace = run(Sweep::new(2, 1, 100, 4, 2, 1048576, Some(5000)));
    assert_eq!(trace.rows.len(), 4);
    let mut expected_iteration = 1;
    for row in trace.rows.iter() {
        assert_eq!(row.iteration, expected_iteration);
        expected_iteration = if expected_iteration == 2 { 1 } else { 2 };
        assert_eq!(row.object_size, 1048576);
        assert_eq!(row.fail_tolerance, 2);
        assert_eq!(row.ec_shard, 6);
        assert_eq!(row.ec_memory_usage, 1572864);
        assert_eq!(row.ec_bandwidth_setup_usage, 1310720);
        assert_eq!(row.ec_bandwidth_recovery_usage, 524288);
        assert_eq!(row.r_node_count, 3);
        assert_eq!(row.r_memory_usage, 3145728);
        assert_eq!(row.r_bandwidth_setup_usage, 2097152);
        assert_eq!(row.r_bandwidth_recovery_usage, 2097152);
    }
}

#[test]
fn a_data_line_is_the_record_as_text() {
    let trace = run(Sweep::new(2, 0, 0, 3, 2, 3000, Some(5000)));
    assert_eq!(trace.lines.len(), 2);
    for (line, row) in trace.lines.iter().zip(trace.rows.iter()) {
        assert_eq!(*line, row.print_csv_contents());
        assert!(line.ends_with("\n"));
        assert!(!line.ends_with(",\n"));
        let fields: Vec<&str> = line.trim_end().split(',').collect();
        assert_eq!(fields.len(), 16);
        assert_eq!(fields[1], "3000");
        assert_eq!(fields[2], "2");
        assert_eq!(fields[6], "5");
        assert_eq!(fields[7], "5000");
        assert_eq!(fields[8], "4000");
        assert_eq!(fields[9], "2000");
        assert_eq!(fields[12], "3");
        assert_eq!(fields[13], "9000");
        assert_eq!(fields[14], "6000");
        assert_eq!(fields[15], "6000");
        for field in fields.iter() {
            assert!(field.parse::<f64>().is_ok());
        }
    }
}

#[test]
fn a_round_begins_with_its_estimate() {
    let trace = run(Sweep::new(2, 1, 1, 2, 1, 64, Some(7)));
    // header, then per round: 2 probes, then per iteration 2 + 1 + 1 + 1
    // transfers and a line.
    let round = "tt".to_string() + "tttttr" + "tttttr";
    let expected = "h".to_string() + &round + &round;
    let order: String = trace.order.iter().collect();
    assert_eq!(order, expected);
}

#[test]
fn a_finished_sweep_stays_finished() {
    let mut sweep = Sweep::new(1, 0, 0, 2, 1, 64, Some(7));
    for _ in 0..100 {
        sweep.step(Outcome::Done);
    }
    assert_eq!(sweep.phase(), Phase::Finished);
    assert!(matches!(sweep.step(Outcome::Done), Action::Finish));
    assert!(matches!(sweep.step(Outcome::Failed), Action::Finish));
    assert_eq!(sweep.phase(), Phase::Finished);
    // The ceiling has risen once more after the last round.
    assert_eq!(sweep.bandwidth(), 7);
}

#[test]
fn the_ceiling_rises_after_the_last_round_too() {
    let mut sweep = Sweep::new(1, 2, 5, 2, 1, 64, Some(7));
    for _ in 0..1000 {
        sweep.step(Outcome::Done);
    }
    assert_eq!(sweep.phase(), Phase::Finished);
    assert_eq!(sweep.bandwidth(), 7 + 3 * 5);
}

#[test]
fn a_failed_transfer_gives_the_sweep_up() {
    let mut sweep = Sweep::new(3, 2, 10, 4, 2, 1024, Some(1000));
    assert!(matches!(sweep.step(Outcome::Done), Action::PrintHeader(_)));
    assert!(matches!(sweep.step(Outcome::Done), Action::Transfer { .. }));
    assert!(matches!(sweep.step(Outcome::Failed), Action::Abort(Failure::Transfer)));
    assert_eq!(sweep.phase(), Phase::Failed);
    assert!(matches!(sweep.step(Outcome::Done), Action::Abort(Failure::Transfer)));
    assert_eq!(sweep.phase(), Phase::Failed);
}

#[test]
fn a_sweep_that_has_not_started_asks_for_the_header_whatever_it_is_told() {
    let mut sweep = Sweep::new(1, 0, 0, 2, 1, 64, Some(7));
    assert_eq!(sweep.phase(), Phase::Idle);
    assert!(matches!(sweep.step(Outcome::Failed), Action::PrintHeader(_)));
    assert_eq!(sweep.phase(), Phase::Header);
}

#[test]
fn the_average_bandwidth_is_in_the_record() {
    let trace = run(Sweep::new(2, 0, 0, 2, 1, 1024, Some(7)));
    for row in trace.rows.iter() {
        assert!(row.avg_bandwidth > 0);
    }
    assert_eq!(trace.rows[0].avg_bandwidth, trace.rows[1].avg_bandwidth);
}

#[test]
fn configurations_are_judged() {
    assert!(is_valid_configuration(100, 10, 10485760, 4, 2, 10485760, Some(100000000)));
    assert!(is_valid_configuration(1, 0, 0, 1, 1, 1, Some(0)));
    assert!(is_valid_configuration(1, 0, 0, 200, 56, 200, Some(0)));
    // What the codec will turn down is still a configuration.
    assert!(is_valid_configuration(1, 10, 1, 4, 0, 1024, Some(1)));
    assert!(is_valid_configuration(1, 10, 1, 200, 57, 1024, Some(1)));
    assert!(is_valid_configuration(1, 10, 1, 4, 2, 3, Some(1)));
    assert!(is_valid_configuration(1, 10, 1, 4, 2, 0, Some(1)));
    // No iteration.
    assert!(!is_valid_configuration(0, 10, 1, 4, 2, 1024, Some(1)));
    // No data shard.
    assert!(!is_valid_configuration(1, 10, 1, 0, 2, 1024, Some(1)));
    // No bandwidth ceiling.
    assert!(!is_valid_configuration(1, 10, 1, 4, 2, 1024, None));
    // Figures that do not fit.
    assert!(!is_valid_configuration(1, 10, 1, 4, usize::MAX - 3, 0, Some(1)));
    assert!(is_valid_configuration(1, 10, 1, 4, usize::MAX - 4, 0, Some(1)));
    assert!(!is_valid_configuration(1, 10, 1, 4, 2, usize::MAX / 2, Some(1)));
    assert!(is_valid_configuration(1, 10, 1, 4, 2, usize::MAX / 3, Some(1)));
    assert!(!is_valid_configuration(1, 10, usize::MAX / 4, 4, 2, 1024, Some(1)));
    assert!(!is_valid_configuration(1, 0, 2, 4, 2, 1024, Some(usize::MAX - 1)));
    assert!(is_valid_configuration(1, 0, 1, 4, 2, 1024, Some(usize::MAX - 1)));
    assert!(is_valid_configuration(1, usize::MAX, 0, 4, 2, 1024, Some(5)));
    assert!(!is_valid_configuration(1, usize::MAX, 1, 4, 2, 1024, Some(5)));
}

fn first_abort(mut sweep: Sweep) -> (Failure, usize, usize) {
    let mut headers = 0;
    let mut probes = 0;
    for _ in 0..1000 {
        match sweep.step(Outcome::Done) {
            Action::PrintHeader(_) => headers += 1,
            Action::Transfer { artifact, .. } => {
                assert_eq!(artifact, Artifact::BandwidthTest);
                probes += 1;
            },
            Action::Abort(failure) => {
                assert_eq!(sweep.phase(), Phase::Failed);
                return (failure, headers, probes);
            },
            other => panic!("the sweep went on: {:?}", other),
        }
    }
    panic!("the sweep was not given up");
}

#[test]
fn a_sweep_without_parity_is_given_up_when_the_first_iteration_starts() {
    let (failure, headers, probes) = first_abort(Sweep::new(3, 2, 10, 4, 0, 1024, Some(1000)));
    assert_eq!(failure, Failure::Codec(CodecFault::TooFewParityShards));
    assert_eq!(headers, 1);
    assert_eq!(probes, 3);
}

#[test]
fn a_sweep_with_too_many_shards_is_given_up() {
    let (failure, headers, probes) = first_abort(Sweep::new(2, 0, 0, 200, 57, 1024, Some(1000)));
    assert_eq!(failure, Failure::Codec(CodecFault::TooManyShards));
    assert_eq!(headers, 1);
    assert_eq!(probes, 2);
}

#[test]
fn a_sweep_with_empty_shards_is_given_up() {
    let (failure, _, probes) = first_abort(Sweep::new(1, 0, 0, 4, 2, 3, Some(1000)));
    assert_eq!(failure, Failure::Codec(CodecFault::EmptyShard));
    assert_eq!(probes, 1);
    let (failure, _, _) = first_abort(Sweep::new(1, 0, 0, 4, 2, 0, Some(1000)));
    assert_eq!(failure, Failure::Codec(CodecFault::EmptyShard));
}

#[test]
fn the_codec_judges_the_counts_before_the_shards() {
    let (failure, _, _) = first_abort(Sweep::new(1, 0, 0, 4, 0, 0, Some(1000)));
    assert_eq!(failure, Failure::Codec(CodecFault::TooFewParityShards));
    let (failure, _, _) = first_abort(Sweep::new(1, 0, 0, 300, 1, 0, Some(1000)));
    assert_eq!(failure, Failure::Codec(CodecFault::TooManyShards));
}

#[test]
fn a_sweep_with_the_most_shards_that_the_field_allows_runs() {
    let trace = run(Sweep::new(1, 0, 0, 200, 56, 400, Some(1000)));
    assert!(matches!(trace.last, Action::Finish));
    assert_eq!(trace.lines.len(), 1);
    assert_eq!(trace.rows[0].ec_shard, 256);
    assert_eq!(trace.rows[0].ec_memory_usage, 512);
}

#[test]
fn the_times_handed_to_the_sweep_are_the_times_of_the_record() {
    let mut sweep = Sweep::new(1, 0, 0, 2, 1, 64, Some(7));
    let mut lines: Vec<String> = Vec::new();
    let mut count: u128 = 0;
    loop {
        count += 1;
        match sweep.step_at(Outcome::Done, count * 1000) {
            Action::PrintRecord(line) => lines.push(line),
            Action::Finish => break,
            Action::Abort(failure) => panic!("the sweep was given up: {:?}", failure),
            _ => {},
        }
    }
    // Header, estimate started, one sample, two transfers of setup, then one
    // transfer for each of the three phases that follow, then the end.
    assert_eq!(count, 9);
    let row = sweep.row();
    assert_eq!(row.avg_bandwidth, 64 * 8 * 1_000_000_000_000_000_000 / 3000);
    assert_eq!(row.ec_setup_time, 5000);
    assert_eq!(row.ec_recovery_time, 6000);
    assert_eq!(row.r_setup_time, 7000);
    assert_eq!(row.r_recovery_time, 8000);
    assert_eq!(
        lines,
        vec!["1,64,1,170666666.666666666,0.000005,0.000006,3,96,64,32,0.000007,0.000008,2,128,64,64\n"]
    );
}

fn time_of(phase: Phase) -> u128 {
    match phase {
        Phase::Probe => 83_886_080,
        Phase::EcSetup => 1_500_000_000,
        Phase::EcRecovery => 500_000_000,
        Phase::ReplicaSetup => 2_000_000_000,
        Phase::ReplicaRecovery => 250_000_000,
        _ => 42,
    }
}

#[test]
fn a_sweep_on_given_times_prints_the_lines_to_the_letter() {
    let mut sweep = Sweep::new(2, 1, 10, 4, 2, 1048576, Some(100_000_000));
    let mut printed = String::new();
    loop {
        let elapsed = time_of(sweep.phase());
        match sweep.step_at(Outcome::Done, elapsed) {
            Action::PrintHeader(line) | Action::PrintRecord(line) => printed.push_str(&line),
            Action::Finish => break,
            Action::Abort(failure) => panic!("the sweep was given up: {:?}", failure),
            Action::Transfer { .. } => {},
        }
    }
    let header = BenchmarkData::new().print_csv_header();
    let first = "1,1048576,2,100000000,1.5,0.5,6,1572864,1310720,524288,2,0.25,3,3145728,2097152,2097152\n";
    let second = "2,1048576,2,100000000,1.5,0.5,6,1572864,1310720,524288,2,0.25,3,3145728,2097152,2097152\n";
    assert_eq!(printed, header + first + second + first + second);
}

#[test]
fn a_time_is_not_used_where_nothing_was_measured() {
    let mut sweep = Sweep::new(1, 0, 0, 2, 1, 64, Some(7));
    sweep.step_at(Outcome::Done, 111);
    sweep.step_at(Outcome::Done, 222);
    let row = sweep.row();
    assert_eq!(row, BenchmarkData::new());
    // A transfer that failed is not measured either.
    sweep.step_at(Outcome::Failed, 333);
    assert_eq!(sweep.phase(), Phase::Failed);
    assert_eq!(sweep.row(), BenchmarkData::new());
}

#[test]
fn only_the_last_transfer_of_a_phase_gives_its_time() {
    let mut sweep = Sweep::new(1, 0, 0, 4, 2, 1024, Some(7));
    sweep.step_at(Outcome::Done, 0);
    sweep.step_at(Outcome::Done, 0);
    sweep.step_at(Outcome::Done, 10);
    assert_eq!(sweep.phase(), Phase::EcSetup);
    for elapsed in 1..5u128 {
        sweep.step_at(Outcome::Done, elapsed);
        assert_eq!(sweep.phase(), Phase::EcSetup);
        assert_eq!(sweep.row().ec_setup_time, 0);
    }
    sweep.step_at(Outcome::Done, 5);
    assert_eq!(sweep.phase(), Phase::EcRecovery);
    assert_eq!(sweep.row().ec_setup_time, 5);
    assert_eq!(sweep.row().ec_recovery_time, 0);
}
