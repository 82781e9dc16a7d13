use reed_solomon_erasure::Error;
use resilience_bench::erasure::same_bytes;
use resilience_bench::erasure::same_shards;
use resilience_bench::erasure::to_fault;
use resilience_bench::erasure::zero_shards;
use resilience_bench::erasure::CodecFault;
use resilience_bench::erasure::ErasureRun;

fn sample_shards() -> Vec<Vec<u8>> {
    vec![
        vec![0, 1, 2, 3],
        vec![4, 5, 6, 7],
        vec![8, 9, 10, 11],
        vec![0, 0, 0, 0],
        vec![0, 0, 0, 0],
    ]
}

fn fault_of(result: Result<ErasureRun, CodecFault>) -> CodecFault {
    match result {
        Ok(_) => panic!("the codec accepted what it should turn down"),
        Err(fault) => fault,
    }
}

fn encoded(data: usize, parity: usize, shards: Vec<Vec<u8>>) -> ErasureRun {
    match ErasureRun::encode(data, parity, shards) {
        Ok(run) => run,
        Err(fault) => panic!("the codec turned the shards down: {:?}", fault),
    }
}

#[test]
fn zero_shards_are_all_zero() {
    let shards = zero_shards(6, 16);
    assert_eq!(shards.len(), 6);
    for shard in shards.iter() {
        assert_eq!(shard.len(), 16);
        assert!(shard.iter().all(|byte| *byte == 0));
    }
}

#[test]
fn zero_shards_may_be_none_or_empty() {
    assert_eq!(zero_shards(0, 8).len(), 0);
    let shards = zero_shards(3, 0);
    assert_eq!(shards.len(), 3);
    assert!(shards.iter().all(|shard| shard.is_empty()));
}

#[test]
fn bytes_and_shards_are_compared() {
    assert!(same_bytes(&vec![1, 2, 3], &vec![1, 2, 3]));
    assert!(!same_bytes(&vec![1, 2, 3], &vec![1, 2, 4]));
    assert!(!same_bytes(&vec![1, 2, 3], &vec![1, 2]));
    assert!(same_shards(&sample_shards(), &sample_shards()));
    let mut other = sample_shards();
    other[2][1] = 99;
    assert!(!same_shards(&sample_shards(), &other));
    other.pop();
    assert!(!same_shards(&sample_shards(), &other));
}

#[test]
fn encoding_keeps_the_data_and_fills_the_parity() {
    let run = encoded(3, 2, sample_shards());
    let given = sample_shards();
    for index in 0..3 {
        assert_eq!(run.original_shard(index), given[index]);
        assert_eq!(run.shard(index), Some(given[index].clone()));
    }
    // The parity of data that is not zero is not zero.
    assert_ne!(run.original_shard(3), vec![0, 0, 0, 0]);
    assert_ne!(run.original_shard(4), vec![0, 0, 0, 0]);
    assert_eq!(run.original_shard(3).len(), 4);
    assert!(run.intact());
}

#[test]
fn encoding_zero_data_gives_zero_parity() {
    let run = encoded(4, 2, zero_shards(6, 32));
    for index in 0..6 {
        assert_eq!(run.original_shard(index), vec![0u8; 32]);
    }
    assert!(run.intact());
}

#[test]
fn encoding_overwrites_what_the_parity_shards_held() {
    let mut dirty = sample_shards();
    dirty[3] = vec![9, 9, 9, 9];
    dirty[4] = vec![7, 7, 7, 7];
    let clean = encoded(3, 2, sample_shards());
    let run = encoded(3, 2, dirty);
    assert_eq!(run.original_shard(3), clean.original_shard(3));
    assert_eq!(run.original_shard(4), clean.original_shard(4));
}

#[test]
fn erased_shards_are_rebuilt_as_they_were() {
    let mut run = encoded(3, 2, sample_shards());
    run.erase(0);
    run.erase(4);
    assert_eq!(run.shard(0), None);
    assert_eq!(run.shard(4), None);
    assert!(!run.intact());
    assert_eq!(run.recover(), Ok(()));
    assert_eq!(run.shard(0), Some(vec![0, 1, 2, 3]));
    assert_eq!(run.shard(4), Some(run.original_shard(4)));
    assert!(run.intact());
}

#[test]
fn every_pair_of_losses_is_recovered() {
    for first in 0..6 {
        for second in 0..6 {
            let mut shards = zero_shards(6, 8);
            for index in 0..4usize {
                for at in 0..8usize {
                    shards[index][at] = (index * 8 + at + 1) as u8;
                }
            }
            let mut run = encoded(4, 2, shards);
            run.erase(first);
            run.erase(second);
            assert_eq!(run.recover(), Ok(()));
            assert!(run.intact());
        }
    }
}

#[test]
fn erasing_a_shard_twice_loses_it_once() {
    let mut run = encoded(3, 2, sample_shards());
    run.erase(1);
    run.erase(1);
    assert_eq!(run.shard(1), None);
    assert_eq!(run.shard(0), Some(vec![0, 1, 2, 3]));
    assert_eq!(run.recover(), Ok(()));
    assert!(run.intact());
}

#[test]
fn recovery_with_nothing_lost_changes_nothing() {
    let mut run = encoded(3, 2, sample_shards());
    assert_eq!(run.recover(), Ok(()));
    assert!(run.intact());
}

#[test]
fn too_many_losses_cannot_be_recovered() {
    let mut run = encoded(3, 2, sample_shards());
    run.erase(0);
    run.erase(1);
    run.erase(2);
    assert_eq!(run.recover(), Err(CodecFault::TooFewShardsPresent));
    assert_eq!(run.shard(0), None);
    assert_eq!(run.shard(3), Some(run.original_shard(3)));
    assert!(!run.intact());
}

#[test]
fn random_losses_never_exceed_the_parity_count() {
    let mut rng = rand::thread_rng();
    for _ in 0..200 {
        let mut run = encoded(4, 2, zero_shards(6, 4));
        run.lose(&mut rng);
        let mut present = 0;
        for index in 0..6 {
            if run.shard(index).is_some() {
                present += 1;
            }
        }
        assert!(present >= 4);
        assert!(present <= 5);
        assert_eq!(run.recover(), Ok(()));
        assert!(run.intact());
    }
}

#[test]
fn the_slots_drawn_are_the_slots_lost() {
    let mut rng = rand::thread_rng();
    for _ in 0..200 {
        let mut run = encoded(4, 3, zero_shards(7, 2));
        let draws = run.lose(&mut rng);
        assert_eq!(draws.len(), 3);
        for index in 0..7 {
            assert!(draws.iter().all(|slot| *slot < 7));
            assert_eq!(run.shard(index).is_none(), draws.contains(&index));
        }
    }
}

#[test]
fn random_losses_hit_every_slot_in_time() {
    let mut rng = rand::thread_rng();
    let mut hit = vec![false; 6];
    for _ in 0..2000 {
        let mut run = encoded(4, 2, zero_shards(6, 1));
        run.lose(&mut rng);
        for index in 0..6 {
            if run.shard(index).is_none() {
                hit[index] = true;
            }
        }
    }
    assert!(hit.iter().all(|slot| *slot));
}

#[test]
fn the_object_is_the_data_shards() {
    let run = encoded(3, 2, sample_shards());
    let object = run.into_object();
    assert_eq!(object, vec![vec![0, 1, 2, 3], vec![4, 5, 6, 7], vec![8, 9, 10, 11]]);
}

#[test]
fn encoding_needs_a_data_shard() {
    assert_eq!(fault_of(ErasureRun::encode(0, 2, zero_shards(2, 4))), CodecFault::TooFewDataShards);
}

#[test]
fn encoding_needs_a_parity_shard() {
    assert_eq!(fault_of(ErasureRun::encode(3, 0, zero_shards(3, 4))), CodecFault::TooFewParityShards);
}

#[test]
fn encoding_takes_no_more_shards_than_the_field_has_elements() {
    assert_eq!(fault_of(ErasureRun::encode(200, 57, zero_shards(257, 1))), CodecFault::TooManyShards);
    let run = encoded(200, 56, zero_shards(256, 1));
    assert!(run.intact());
}

#[test]
fn encoding_needs_the_codec_s_number_of_shards() {
    assert_eq!(fault_of(ErasureRun::encode(3, 2, zero_shards(4, 4))), CodecFault::TooFewShards);
    assert_eq!(fault_of(ErasureRun::encode(3, 2, zero_shards(6, 4))), CodecFault::TooManyShards);
}

#[test]
fn encoding_needs_shards_that_are_not_empty() {
    assert_eq!(fault_of(ErasureRun::encode(3, 2, zero_shards(5, 0))), CodecFault::EmptyShard);
}

#[test]
fn encoding_needs_shards_of_one_length() {
    let mut shards = sample_shards();
    shards[2] = vec![1, 2, 3];
    assert_eq!(fault_of(ErasureRun::encode(3, 2, shards)), CodecFault::IncorrectShardSize);
}

#[test]
fn the_counts_are_judged_before_the_shards() {
    assert_eq!(fault_of(ErasureRun::encode(0, 0, zero_shards(1, 0))), CodecFault::TooFewDataShards);
    assert_eq!(fault_of(ErasureRun::encode(2, 0, zero_shards(1, 0))), CodecFault::TooFewParityShards);
}

#[test]
fn every_error_of_the_codec_has_its_fault() {
    assert_eq!(to_fault(Error::TooFewShards), CodecFault::TooFewShards);
    assert_eq!(to_fault(Error::TooManyShards), CodecFault::TooManyShards);
    assert_eq!(to_fault(Error::TooFewDataShards), CodecFault::TooFewDataShards);
    assert_eq!(to_fault(Error::TooManyDataShards), CodecFault::TooManyDataShards);
    assert_eq!(to_fault(Error::TooFewParityShards), CodecFault::TooFewParityShards);
    assert_eq!(to_fault(Error::TooManyParityShards), CodecFault::TooManyParityShards);
    assert_eq!(to_fault(Error::TooFewBufferShards), CodecFault::TooFewBufferShards);
    assert_eq!(to_fault(Error::TooManyBufferShards), CodecFault::TooManyBufferShards);
    assert_eq!(to_fault(Error::IncorrectShardSize), CodecFault::IncorrectShardSize);
    assert_eq!(to_fault(Error::TooFewShardsPresent), CodecFault::TooFewShardsPresent);
    assert_eq!(to_fault(Error::EmptyShard), CodecFault::EmptyShard);
    assert_eq!(to_fault(Error::InvalidShardFlags), CodecFault::InvalidShardFlags);
    assert_eq!(to_fault(Error::InvalidIndex), CodecFault::InvalidIndex);
}
