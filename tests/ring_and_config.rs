use crave_engine::{AudioBufferConfig, SampleRing, HEADROOM};

#[test]
fn ring_starts_empty() {
    let ring = SampleRing::new(8);
    assert_eq!(ring.capacity(), 8);
    assert_eq!(ring.occupied_len(), 0);
    assert!(ring.is_empty());
}

#[test]
fn ring_is_first_in_first_out() {
    let mut ring = SampleRing::new(8);
    assert_eq!(ring.push_slice(&[1, 2, 3]), 3);
    assert_eq!(ring.push_slice(&[4]), 1);
    assert_eq!(ring.occupied_len(), 4);
    assert!(!ring.is_empty());
    assert_eq!(ring.try_pop(), Some(1));
    assert_eq!(ring.try_pop(), Some(2));
    assert_eq!(ring.push_slice(&[5, 6]), 2);
    assert_eq!(ring.try_pop(), Some(3));
    assert_eq!(ring.try_pop(), Some(4));
    assert_eq!(ring.try_pop(), Some(5));
    assert_eq!(ring.try_pop(), Some(6));
    assert_eq!(ring.try_pop(), None);
    assert!(ring.is_empty());
}

#[test]
fn ring_push_is_partial_when_nearly_full() {
    let mut ring = SampleRing::new(4);
    assert_eq!(ring.push_slice(&[10, 11, 12]), 3);
    assert_eq!(ring.push_slice(&[13, 14, 15]), 1);
    assert_eq!(ring.occupied_len(), 4);
    assert_eq!(ring.push_slice(&[16]), 0);
    assert_eq!(ring.try_pop(), Some(10));
    assert_eq!(ring.try_pop(), Some(11));
    assert_eq!(ring.try_pop(), Some(12));
    assert_eq!(ring.try_pop(), Some(13));
    assert_eq!(ring.try_pop(), None);
}

#[test]
fn ring_occupancy_stays_within_capacity() {
    let mut ring = SampleRing::new(5);
    let mut next: u32 = 0;
    for round in 0..50u32 {
        let block: Vec<u32> = (0..(round % 4)).map(|i| next + i).collect();
        let written = ring.push_slice(&block);
        next += written as u32;
        assert!(ring.occupied_len() <= ring.capacity());
        if round % 3 == 0 {
            ring.try_pop();
        }
        assert!(ring.occupied_len() <= ring.capacity());
    }
}

#[test]
fn ring_wraps_around_in_order() {
    let mut ring = SampleRing::new(3);
    let mut expected: u32 = 0;
    let mut pushed: u32 = 0;
    for _ in 0..20 {
        let n = ring.push_slice(&[pushed, pushed + 1]);
        pushed += n as u32;
        if let Some(v) = ring.try_pop() {
            assert_eq!(v, expected);
            expected += 1;
        }
    }
}

#[test]
fn default_config_values() {
    let c = AudioBufferConfig::default();
    assert_eq!(c.sample_rate, 44100);
    assert_eq!(c.lookahead, 30);
    assert_eq!(c.capacity, 2_646_000);
    assert_eq!(c.threshold, 2_646_000 - 1024);
    assert_eq!(c.tolerance, 1_323_000);
}

#[test]
fn config_from_rate_and_lookahead() {
    let c = AudioBufferConfig::new(48000, 2);
    assert_eq!(c.capacity, 192_000);
    assert_eq!(c.threshold, 190_976);
    assert_eq!(c.tolerance, 96_000);
    let small = AudioBufferConfig::new(256, 2);
    assert_eq!(small.capacity, 1024);
    assert_eq!(small.threshold, 0);
    assert_eq!(small.tolerance, 512);
    assert_eq!(HEADROOM, 1024);
}

#[test]
fn config_creates_ring_of_its_capacity() {
    let c = AudioBufferConfig::new(1000, 1);
    let ring = c.create_ring_buffer();
    assert_eq!(ring.capacity(), 2000);
    assert!(ring.is_empty());
}
