use resilience_bench::transfer::transfer_delay;
use resilience_bench::transfer::Artifact;

#[test]
fn delay_fills_up_to_the_ideal_duration() {
    // 1000 bytes at 8000 bit/s take one second.
    assert_eq!(transfer_delay(1000, Some(8000), 0), 1_000_000_000);
    assert_eq!(transfer_delay(1000, Some(8000), 250_000_000), 750_000_000);
}

#[test]
fn delay_is_zero_once_the_ideal_duration_has_passed() {
    assert_eq!(transfer_delay(1000, Some(8000), 1_000_000_000), 0);
    assert_eq!(transfer_delay(1000, Some(8000), 5_000_000_000), 0);
}

#[test]
fn delay_is_zero_without_a_target() {
    assert_eq!(transfer_delay(1000, None, 0), 0);
    assert_eq!(transfer_delay(usize::MAX, None, 17), 0);
}

#[test]
fn delay_rounds_up_to_a_whole_nanosecond() {
    // One byte at 3 bit/s: 8/3 s = 2.666... s.
    assert_eq!(transfer_delay(1, Some(3), 0), 2_666_666_667);
    // One byte at 7 bit/s: 8/7 s = 1.142857142857... s.
    assert_eq!(transfer_delay(1, Some(7), 0), 1_142_857_143);
}

#[test]
fn empty_payload_needs_no_delay_at_any_bandwidth() {
    assert_eq!(transfer_delay(0, Some(1), 0), 0);
    assert_eq!(transfer_delay(0, Some(0), 0), 0);
}

#[test]
fn delay_reaches_the_target_for_many_sizes_and_bandwidths() {
    let sizes: Vec<usize> = vec![1, 7, 1000, 262144, 1048576, 10 * 1024 * 1024];
    let bandwidths: Vec<usize> = vec![1, 3, 1000, 1_000_000, 100_000_000];
    let elapsed: Vec<u128> = vec![0, 1, 999, 1_000_000, 60_000_000_000];
    for size in sizes.iter() {
        for bandwidth in bandwidths.iter() {
            for spent in elapsed.iter() {
                let wait = transfer_delay(*size, Some(*bandwidth), *spent);
                let total = *spent + wait;
                let bits = (*size as u128) * 8 * 1_000_000_000;
                assert!(total * (*bandwidth as u128) >= bits);
                if wait > 0 {
                    assert!((total - 1) * (*bandwidth as u128) < bits);
                }
            }
        }
    }
}

#[test]
fn delay_handles_the_largest_payload() {
    let wait = transfer_delay(usize::MAX, Some(1), 0);
    assert_eq!(wait, (usize::MAX as u128) * 8 * 1_000_000_000);
}

#[test]
fn artifacts_have_their_file_names() {
    assert_eq!(Artifact::BandwidthTest.file_name(), "bw_test.temp");
    assert_eq!(Artifact::Benchmark.file_name(), "benchmark.temp");
}
