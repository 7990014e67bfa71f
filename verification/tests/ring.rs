use music_player::ring::{SampleRing, MAX_RING_CAPACITY};

#[test]
fn a_new_ring_is_empty() {
    let mut ring = SampleRing::new(4096);
    assert_eq!(ring.capacity(), 4096);
    assert_eq!(ring.len(), 0);
    assert_eq!(ring.drain(), Vec::<u32>::new());
    assert!(MAX_RING_CAPACITY >= 4096);
}

#[test]
fn what_is_written_is_drained_in_order() {
    let mut ring = SampleRing::new(8);
    ring.write(&[1, 2, 3]);
    ring.write(&[]);
    ring.write(&[4]);
    assert_eq!(ring.len(), 4);
    assert_eq!(ring.drain(), vec![1, 2, 3, 4]);
    assert_eq!(ring.len(), 0);
    assert_eq!(ring.capacity(), 8);
}

#[test]
fn a_full_ring_drops_the_oldest() {
    let mut ring = SampleRing::new(4);
    ring.write(&[1, 2, 3]);
    ring.write(&[4, 5, 6]);
    assert_eq!(ring.len(), 4);
    assert_eq!(ring.drain(), vec![3, 4, 5, 6]);
}

#[test]
fn a_write_longer_than_the_ring_keeps_its_end() {
    for capacity in [1usize, 2, 3, 7, 8, 64] {
        let mut ring = SampleRing::new(capacity);
        let samples: Vec<u32> = (0..(3 * capacity as u32 + 1)).collect();
        ring.write(&[9, 9]);
        ring.write(&samples);
        assert_eq!(ring.drain(), samples[samples.len() - capacity..].to_vec());
    }
}

#[test]
fn a_write_as_long_as_the_ring_replaces_everything() {
    let mut ring = SampleRing::new(3);
    ring.write(&[1, 2]);
    ring.write(&[7, 8, 9]);
    assert_eq!(ring.drain(), vec![7, 8, 9]);
}

#[test]
fn the_ring_does_not_care_how_the_writes_were_cut() {
    let samples: Vec<u32> = (0..1000).collect();
    let mut at_once = SampleRing::new(64);
    at_once.write(&samples);
    let mut one_by_one = SampleRing::new(64);
    for s in &samples {
        one_by_one.write(&[*s]);
    }
    let mut in_batches = SampleRing::new(64);
    for batch in samples.chunks(37) {
        in_batches.write(batch);
    }
    let expected = samples[1000 - 64..].to_vec();
    assert_eq!(at_once.drain(), expected);
    assert_eq!(one_by_one.drain(), expected);
    assert_eq!(in_batches.drain(), expected);
}

#[test]
fn a_ring_of_no_capacity_holds_nothing() {
    let mut ring = SampleRing::new(0);
    ring.write(&[1, 2, 3]);
    assert_eq!(ring.len(), 0);
    assert_eq!(ring.drain(), Vec::<u32>::new());
    let mut data = vec![5, 5];
    assert_eq!(ring.read(&mut data), 0);
    assert_eq!(data, vec![5, 5]);
}

#[test]
fn read_takes_what_fits_and_leaves_the_rest() {
    let mut ring = SampleRing::new(8);
    ring.write(&[1, 2, 3, 4, 5]);
    let mut data = vec![0, 0, 0];
    assert_eq!(ring.read(&mut data), 3);
    assert_eq!(data, vec![1, 2, 3]);
    assert_eq!(ring.len(), 2);
    let mut data = vec![0, 0, 0];
    assert_eq!(ring.read(&mut data), 2);
    assert_eq!(data, vec![4, 5, 0]);
    assert_eq!(ring.read(&mut data), 0);
    assert_eq!(data, vec![4, 5, 0]);
    let mut none: Vec<u32> = vec![];
    ring.write(&[6]);
    assert_eq!(ring.read(&mut none), 0);
    assert_eq!(ring.len(), 1);
}

#[test]
fn the_ring_wraps_round_its_storage() {
    let mut ring = SampleRing::new(5);
    let mut next = 0u32;
    for round in 0..20 {
        let batch: Vec<u32> = (next..next + 3).collect();
        next += 3;
        ring.write(&batch);
        if round % 2 == 1 {
            let got = ring.drain();
            assert_eq!(got, ((next - 5)..next).collect::<Vec<u32>>());
        }
    }
}

#[test]
fn silence_in_is_silence_out() {
    let mut ring = SampleRing::new(16);
    let block = [0.25f32, -0.5, 1.0];
    let muted: Vec<u32> = block.iter().map(|s| (s * 0.0f32).abs().to_bits()).collect();
    ring.write(&muted);
    assert!(ring.drain().iter().all(|s| f32::from_bits(*s) == 0.0));
    let plain: Vec<u32> = block.iter().map(|s| (s * 1.0f32).to_bits()).collect();
    ring.write(&plain);
    let out: Vec<f32> = ring.drain().iter().map(|s| f32::from_bits(*s)).collect();
    assert_eq!(out, block.to_vec());
}
