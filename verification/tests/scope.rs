use music_player::scope::{Scope, SCOPE_LEN};

fn bits(x: f32) -> u32 {
    x.to_bits()
}

#[test]
fn a_new_scope_is_silent() {
    let scope = Scope::new();
    assert_eq!(scope.write_idx(), 0);
    assert_eq!(scope.buffer().len(), SCOPE_LEN);
    assert_eq!(SCOPE_LEN, 48000);
    assert!(scope.buffer().iter().all(|s| *s == bits(0.0)));
}

#[test]
fn write_sample_moves_the_write_index() {
    let mut scope = Scope::new();
    scope.write_sample(bits(0.5));
    scope.write_sample(bits(-0.5));
    assert_eq!(scope.write_idx(), 2);
    assert_eq!(scope.buffer()[0], bits(0.5));
    assert_eq!(scope.buffer()[1], bits(-0.5));
    assert_eq!(scope.buffer()[2], bits(0.0));
}

#[test]
fn the_write_index_wraps_at_the_next_write() {
    let mut scope = Scope::new();
    let samples: Vec<u32> = (0..SCOPE_LEN as u32).collect();
    scope.write_samples(&samples);
    assert_eq!(scope.write_idx(), SCOPE_LEN);
    scope.write_sample(77_000);
    assert_eq!(scope.write_idx(), 1);
    assert_eq!(scope.buffer()[0], 77_000);
    assert_eq!(scope.buffer()[1], 1);
    assert_eq!(scope.buffer()[SCOPE_LEN - 1], SCOPE_LEN as u32 - 1);
}

#[test]
fn write_samples_is_write_sample_for_each() {
    let samples: Vec<u32> = (1..=50_000u32).collect();
    let mut one_by_one = Scope::new();
    for s in &samples {
        one_by_one.write_sample(*s);
    }
    let mut at_once = Scope::new();
    at_once.write_samples(&samples);
    let mut in_batches = Scope::new();
    in_batches.write_samples(&samples[..47_999]);
    in_batches.write_samples(&samples[47_999..]);
    in_batches.write_samples(&[]);
    assert_eq!(one_by_one.write_idx(), 2000);
    assert_eq!(at_once.write_idx(), 2000);
    assert_eq!(in_batches.write_idx(), 2000);
    assert_eq!(one_by_one.buffer(), at_once.buffer());
    assert_eq!(one_by_one.buffer(), in_batches.buffer());
}

#[test]
fn the_scope_holds_the_most_recent_samples() {
    let mut scope = Scope::new();
    let samples: Vec<u32> = (1..=100_000u32).collect();
    scope.write_samples(&samples);
    let newest = scope.write_idx() - 1;
    for age in [0usize, 1, 4_000, 47_999] {
        let place = (newest + SCOPE_LEN - age) % SCOPE_LEN;
        assert_eq!(scope.buffer()[place], 100_000 - age as u32);
    }
}

#[test]
fn the_reader_starts_after_the_write_index() {
    let mut scope = Scope::new();
    let samples: Vec<u32> = (1..=48_010u32).collect();
    scope.write_samples(&samples);
    assert_eq!(scope.write_idx(), 10);
    let shown = scope.samples();
    assert_eq!(shown.len(), SCOPE_LEN - 1);
    assert_eq!(shown[0], scope.buffer()[11]);
    assert_eq!(shown[0], 12);
    assert_eq!(*shown.last().unwrap(), 48_010);
    assert_eq!(*shown.last().unwrap(), scope.buffer()[9]);
    assert!(shown.windows(2).all(|w| w[1] == w[0] + 1));
}

#[test]
fn the_reader_goes_from_old_to_new_when_the_write_index_is_at_the_end() {
    let mut scope = Scope::new();
    let samples: Vec<u32> = (0..SCOPE_LEN as u32).collect();
    scope.write_samples(&samples);
    assert_eq!(scope.write_idx(), SCOPE_LEN);
    let shown = scope.samples();
    assert_eq!(shown.len(), SCOPE_LEN - 1);
    assert_eq!(shown[0], 1);
    assert_eq!(shown[SCOPE_LEN - 2], SCOPE_LEN as u32 - 1);
    assert!(shown.windows(2).all(|w| w[1] == w[0] + 1));
}

#[test]
fn next_reads_what_samples_collects_and_stays_ended() {
    let mut scope = Scope::new();
    scope.write_samples(&[5, 6, 7]);
    let mut reader = scope.into_iter();
    let mut read = Vec::new();
    while let Some(sample) = reader.next() {
        read.push(sample);
    }
    assert_eq!(read, scope.samples());
    assert_eq!(read.len(), SCOPE_LEN - 1);
    assert_eq!(&read[SCOPE_LEN - 4..], &[5, 6, 7]);
    assert!(read[..SCOPE_LEN - 4].iter().all(|s| *s == 0));
    for _ in 0..5 {
        assert_eq!(reader.next(), None);
    }
}

#[test]
fn the_first_sample_is_the_one_after_the_write_index() {
    let mut scope = Scope::new();
    let samples: Vec<u32> = (1..=SCOPE_LEN as u32 + 3).collect();
    scope.write_samples(&samples);
    assert_eq!(scope.write_idx(), 3);
    assert_eq!(scope.buffer()[3], 4);
    assert_eq!(scope.buffer()[4], 5);
    let mut reader = scope.into_iter();
    assert_eq!(reader.next(), Some(5));
    assert_eq!(reader.next(), Some(6));
}

#[test]
fn a_fresh_scope_shows_everything_but_one() {
    let scope = Scope::new();
    assert_eq!(scope.samples().len(), SCOPE_LEN - 1);
    let mut reader = scope.into_iter();
    let mut count = 0;
    while reader.next().is_some() {
        count += 1;
    }
    assert_eq!(count, SCOPE_LEN - 1);
    assert_eq!(reader.next(), None);
}
