use rand::SeedableRng;
use rand_xoshiro::Xoshiro256Plus;
use tiered_workloads::keys::{checkpoint_key, counter_key, push_decimal, research_key};
use tiered_workloads::random_bytes::{fill, RandomBytes, CHUNK_BYTES};

fn chunk_lengths(total: u64, max_chunk: usize, seed: u64) -> Vec<usize> {
    let mut rng = Xoshiro256Plus::seed_from_u64(seed);
    let mut producer = RandomBytes::new(total, max_chunk);
    let mut lengths = Vec::new();
    while let Some(chunk) = producer.next_chunk(&mut rng) {
        lengths.push(chunk.len());
    }
    assert!(producer.is_finished());
    assert!(producer.next_chunk(&mut rng).is_none());
    lengths
}

#[test]
fn chunks_add_up_to_the_total() {
    for total in [0u64, 1, 7, 8, 9, 15, 16, 17, 64, 1000] {
        for max_chunk in [1usize, 2, 8, 16, 1024] {
            let lengths = chunk_lengths(total, max_chunk, total);
            assert_eq!(lengths.iter().map(|l| *l as u64).sum::<u64>(), total);
            assert!(!lengths.is_empty());
            assert!(lengths.iter().all(|l| *l <= max_chunk));
            let (last, full) = lengths.split_last().unwrap();
            assert!(full.iter().all(|l| *l == max_chunk));
            assert!(*last > 0 || total == 0);
        }
    }
}

#[test]
fn chunk_lengths_are_the_bound_then_the_rest() {
    assert_eq!(chunk_lengths(20, 8, 1), vec![8, 8, 4]);
    assert_eq!(chunk_lengths(16, 8, 1), vec![8, 8]);
    assert_eq!(chunk_lengths(5, 8, 1), vec![5]);
}

#[test]
fn an_empty_total_is_one_empty_chunk() {
    assert_eq!(chunk_lengths(0, 8, 1), vec![0]);
}

#[test]
fn a_mebibyte_object_fits_one_chunk() {
    assert_eq!(CHUNK_BYTES, 8 * 1024 * 1024);
    assert_eq!(chunk_lengths(1024 * 1024, CHUNK_BYTES, 3), vec![1024 * 1024]);
}

#[test]
fn large_objects_split_at_eight_mebibytes() {
    let lengths = chunk_lengths(20 * 1024 * 1024 + 5, CHUNK_BYTES, 4);
    assert_eq!(lengths, vec![CHUNK_BYTES, CHUNK_BYTES, 4 * 1024 * 1024 + 5]);
}

#[test]
fn chunks_are_randomized_afresh() {
    let mut rng = Xoshiro256Plus::seed_from_u64(42);
    let mut producer = RandomBytes::new(192, 64);
    let first = producer.next_chunk(&mut rng).unwrap().to_vec();
    let second = producer.next_chunk(&mut rng).unwrap().to_vec();
    let third = producer.next_chunk(&mut rng).unwrap().to_vec();
    assert_eq!(first.len(), 64);
    assert!(first.iter().any(|b| *b != 0));
    assert_ne!(first, second);
    assert_ne!(second, third);
    assert!(producer.next_chunk(&mut rng).is_none());
}

#[test]
fn chunks_follow_the_seed() {
    let mut a = Xoshiro256Plus::seed_from_u64(7);
    let mut b = Xoshiro256Plus::seed_from_u64(7);
    let mut pa = RandomBytes::new(100, 32);
    let mut pb = RandomBytes::new(100, 32);
    for _ in 0..4 {
        assert_eq!(pa.next_chunk(&mut a).unwrap(), pb.next_chunk(&mut b).unwrap());
    }
}

#[test]
fn fill_hands_the_sink_exactly_the_total() {
    for total in [0u64, 1, 8, 9, 20, 64, 1000] {
        let mut rng = Xoshiro256Plus::seed_from_u64(total);
        let mut lengths = Vec::new();
        let result = fill(&mut rng, total, 8, |chunk| {
            lengths.push(chunk.len());
            Ok::<(), String>(())
        });
        assert_eq!(result, Ok(()));
        assert_eq!(lengths.iter().map(|l| *l as u64).sum::<u64>(), total);
        assert_eq!(lengths, chunk_lengths(total, 8, total));
    }
}

#[test]
fn fill_streams_the_bytes_of_the_producer() {
    let mut a = Xoshiro256Plus::seed_from_u64(21);
    let mut b = Xoshiro256Plus::seed_from_u64(21);
    let mut streamed = Vec::new();
    let result = fill(&mut a, 100, 32, |chunk| {
        streamed.extend_from_slice(chunk);
        Ok::<(), String>(())
    });
    assert_eq!(result, Ok(()));
    let mut produced = Vec::new();
    let mut producer = RandomBytes::new(100, 32);
    while let Some(chunk) = producer.next_chunk(&mut b) {
        produced.extend_from_slice(chunk);
    }
    assert_eq!(streamed.len(), 100);
    assert_eq!(streamed, produced);
    assert!(streamed.iter().any(|byte| *byte != 0));
}

#[test]
fn fill_stops_at_the_first_failure_of_the_sink() {
    let mut rng = Xoshiro256Plus::seed_from_u64(22);
    let mut calls = 0;
    let result = fill(&mut rng, 100, 8, |_chunk| {
        calls += 1;
        if calls == 3 {
            Err(format!("sink failed at call {calls}"))
        } else {
            Ok(())
        }
    });
    assert_eq!(result, Err("sink failed at call 3".to_string()));
    assert_eq!(calls, 3);
}

#[test]
fn decimal_spelling() {
    for n in [0u64, 1, 9, 10, 11, 99, 100, 101, 4728, 1_000_000, u64::MAX] {
        let mut out = b"n=".to_vec();
        push_decimal(&mut out, n);
        assert_eq!(out, format!("n={n}").into_bytes());
    }
}

#[test]
fn counter_keys_are_spelled_key_and_number() {
    assert_eq!(counter_key(1), b"key1".to_vec());
    assert_eq!(counter_key(10), b"key10".to_vec());
    assert_eq!(counter_key(4728), b"key4728".to_vec());
    assert_eq!(counter_key(0), b"key0".to_vec());
    assert_eq!(counter_key(u64::MAX), b"key18446744073709551615".to_vec());
}

#[test]
fn checkpoint_keys_are_spelled_generation_and_slot() {
    assert_eq!(checkpoint_key(0, 0), b"0_0".to_vec());
    assert_eq!(checkpoint_key(19, 4), b"19_4".to_vec());
    assert_eq!(checkpoint_key(1, 11), b"1_11".to_vec());
    assert_eq!(checkpoint_key(11, 1), b"11_1".to_vec());
    assert_ne!(checkpoint_key(1, 11), checkpoint_key(11, 1));
}

#[test]
fn research_key_spelling() {
    assert_eq!(research_key(), b"important_research".to_vec());
}

#[test]
fn keys_are_unique() {
    let mut seen = std::collections::HashSet::new();
    for n in 0..5000u64 {
        assert!(seen.insert(counter_key(n)));
    }
    for generation in 0..30u64 {
        for object in 0..30u64 {
            assert!(seen.insert(checkpoint_key(generation, object)));
        }
    }
}
