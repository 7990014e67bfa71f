//! A windowed root-mean-square meter with a running sum: each sample costs
//! one addition and, once the window is full, one subtraction.
//!
//! Samples are signed fixed-point numbers. The sum of their squares is kept
//! exactly, so the meter never drifts.

use crate::recent::{fed, kept_last, lemma_fed_composes, lemma_fed_keeps_last};
use std::collections::VecDeque;
use vstd::prelude::*;

verus! {

/// The square of a sample.
pub open spec fn squared(sample: i32) -> u64 {
    (sample * sample) as u64
}

/// The squares of a sequence of samples.
pub open spec fn squares(samples: Seq<i32>) -> Seq<u64> {
    samples.map_values(|s: i32| squared(s))
}

/// The sum of a sequence of squares.
pub open spec fn sum_of(values: Seq<u64>) -> int
    decreases values.len(),
{
    if values.len() == 0 {
        0
    } else {
        sum_of(values.drop_last()) + values.last()
    }
}

/// Whether `root` is the square root of `value`, rounded down.
pub open spec fn is_floor_sqrt(root: int, value: int) -> bool {
    0 <= root && root * root <= value < (root + 1) * (root + 1)
}

/// The largest square a sample can have.
pub const MAX_SQUARE: u64 = 0x4000_0000_0000_0000;

/// Every square of a sample is a square that a sample can have.
pub proof fn lemma_square_bound(sample: i32)
    ensures
        sample * sample <= MAX_SQUARE,
        squared(sample) == sample * sample,
{
    assert(sample * sample <= 0x4000_0000_0000_0000 && sample * sample >= 0) by (nonlinear_arith)
        requires
            -0x8000_0000 <= sample <= 0x7fff_ffff,
    ;
}

/// The sum after the oldest value has left.
proof fn lemma_sum_drop_first(values: Seq<u64>)
    requires
        values.len() > 0,
    ensures
        sum_of(values.drop_first()) == sum_of(values) - values.first(),
    decreases values.len(),
{
    if values.len() == 1 {
        assert(sum_of(values.drop_first()) == 0);
        assert(sum_of(values.drop_last()) == 0);
        assert(values.last() == values.first());
    } else {
        lemma_sum_drop_first(values.drop_last());
        assert(values.drop_first().drop_last() == values.drop_last().drop_first());
        assert(values.drop_first().last() == values.last());
        assert(values.drop_last().first() == values.first());
    }
}

/// A sum of squares is at most the number of squares times the largest.
proof fn lemma_sum_bound(values: Seq<u64>)
    requires
        forall|k: int| 0 <= k < values.len() ==> #[trigger] values[k] <= MAX_SQUARE,
    ensures
        0 <= sum_of(values) <= values.len() * MAX_SQUARE,
    decreases values.len(),
{
    if values.len() > 0 {
        lemma_sum_bound(values.drop_last());
        assert((values.len() - 1) * MAX_SQUARE + MAX_SQUARE == values.len() * MAX_SQUARE)
            by (nonlinear_arith);
    }
}

/// The square root of `value`, rounded down.
pub fn floor_sqrt(value: u128) -> (root: u64)
    ensures
        is_floor_sqrt(root as int, value as int),
{
    let mut low: u128 = 0;
    let mut high: u128 = 0x1_0000_0000_0000_0000;
    assert(high * high > value) by (nonlinear_arith)
        requires
            high == 0x1_0000_0000_0000_0000,
            value <= u128::MAX,
    ;
    while high - low > 1
        invariant
            low < high <= 0x1_0000_0000_0000_0000,
            low * low <= value < high * high,
        decreases high - low,
    {
        let middle: u128 = low + (high - low) / 2;
        assert(middle * middle <= u128::MAX) by (nonlinear_arith)
            requires
                middle <= 0xffff_ffff_ffff_ffff,
        ;
        if middle * middle <= value {
            low = middle;
        } else {
            high = middle;
        }
    }
    low as u64
}

/// The meter as plain values.
pub struct RmsView {
    /// The squares of the samples in the window, oldest first.
    pub window: Seq<u64>,
    /// The size of the window in samples.
    pub capacity: nat,
}

/// A running-sum windowed root-mean-square meter.
#[derive(Debug)]
pub struct RmsCalculator {
    squared_samples: VecDeque<u64>,
    sum: u128,
    capacity: usize,
    index: usize,
}

impl View for RmsCalculator {
    type V = RmsView;

    closed spec fn view(&self) -> RmsView {
        RmsView { window: self.squared_samples@, capacity: self.capacity as nat }
    }
}

impl Default for RmsCalculator {
    /// An empty meter whose window has no size yet.
    fn default() -> (r: Self)
        ensures
            r.wf(),
            r@.window == Seq::<u64>::empty(),
            r@.capacity == 0,
    {
        Self { squared_samples: VecDeque::new(), sum: 0, capacity: 0, index: 0 }
    }
}

impl RmsCalculator {
    /// The running sum is the sum of the squares in the window, and the
    /// count is their number.
    pub closed spec fn wf(&self) -> bool {
        &&& self.sum == sum_of(self.squared_samples@)
        &&& self.index == self.squared_samples@.len()
        &&& forall|k: int|
            0 <= k < self.squared_samples@.len() ==> #[trigger] self.squared_samples@[k]
                <= MAX_SQUARE
    }

    /// The sum of the squares in the window.
    pub closed spec fn sum_spec(&self) -> int {
        self.sum as int
    }

    /// The running sum of a well-formed meter is the sum of its window.
    pub proof fn lemma_sum(&self)
        requires
            self.wf(),
        ensures
            self.sum_spec() == sum_of(self@.window),
    {
    }

    /// An empty meter with a window of `size` samples.
    pub fn new(size: usize) -> (r: Self)
        ensures
            r.wf(),
            r@.window == Seq::<u64>::empty(),
            r@.capacity == size,
    {
        Self { squared_samples: VecDeque::new(), sum: 0, capacity: size, index: 0 }
    }

    /// Forgets every sample. The size of the window stays.
    pub fn reset(&mut self)
        ensures
            final(self).wf(),
            final(self)@.window == Seq::<u64>::empty(),
            final(self)@.capacity == old(self)@.capacity,
    {
        self.squared_samples.clear();
        self.sum = 0;
        self.index = 0;
    }

    /// Changes the size of the window. The samples stay: a window that has
    /// become too long is cut by the next write.
    pub fn set_window_size(&mut self, capacity: usize)
        ensures
            final(self).wf() == old(self).wf(),
            final(self)@.window == old(self)@.window,
            final(self)@.capacity == capacity,
    {
        self.capacity = capacity;
    }

    /// Takes a sample into the window; the oldest samples leave so that the
    /// window holds no more than its size.
    pub fn write_sample(&mut self, sample: i32)
        requires
            old(self).wf(),
            old(self)@.capacity > 0,
        ensures
            final(self).wf(),
            final(self)@.capacity == old(self)@.capacity,
            final(self)@.window == kept_last(
                old(self)@.window.push(squared(sample)),
                old(self)@.capacity as int,
            ),
    {
        let ghost start = self.squared_samples@;
        while self.index >= self.capacity
            invariant
                self.wf(),
                self.capacity == old(self).capacity,
                self.capacity > 0,
                self.squared_samples@.len() <= start.len(),
                self.squared_samples@.len() == start.len() || self.squared_samples@.len() + 1
                    >= self.capacity,
                self.squared_samples@ == start.subrange(
                    start.len() - self.squared_samples@.len(),
                    start.len() as int,
                ),
            decreases self.index,
        {
            let ghost before = self.squared_samples@;
            if let Some(oldest_squared_sample) = self.squared_samples.pop_front() {
                proof {
                    lemma_sum_drop_first(before);
                    lemma_sum_bound(before.drop_first());
                    assert(self.squared_samples@ == before.drop_first());
                }
                self.sum -= oldest_squared_sample as u128;
                self.index -= 1;
            }
        }
        proof {
            lemma_square_bound(sample);
            lemma_sum_bound(self.squared_samples@);
            assert(self.squared_samples@.len() * MAX_SQUARE <= usize::MAX * MAX_SQUARE)
                by (nonlinear_arith)
                requires
                    self.squared_samples@.len() <= usize::MAX,
            ;
            assert(self.squared_samples@.push(squared(sample)).drop_last()
                == self.squared_samples@);
        }
        let wide = sample as i64;
        assert(wide * wide == sample * sample && 0 <= wide * wide <= i64::MAX) by (nonlinear_arith)
            requires
                wide == sample,
                -0x8000_0000 <= sample <= 0x7fff_ffff,
        ;
        let square = (wide * wide) as u64;
        self.squared_samples.push_back(square);
        self.sum += square as u128;
        self.index += 1;
        assert(self.squared_samples@ =~= kept_last(
            start.push(squared(sample)),
            self.capacity as int,
        ));
    }

    /// The root mean square of the window, rounded down: the square root of
    /// the sum of the squares divided by the size of the window.
    pub fn get_rms_value(&self) -> (r: u64)
        requires
            self.wf(),
            self@.capacity > 0,
        ensures
            is_floor_sqrt(r as int, sum_of(self@.window) / (self@.capacity as int)),
    {
        floor_sqrt(self.sum / (self.capacity as u128))
    }
}

/// The window of a meter that started empty and then took `samples` one by
/// one holds the squares of the last samples, as many as its size; so the
/// value of the meter is the root of the mean of exactly those squares once
/// as many samples as the window is long have come.
pub proof fn lemma_window_holds_latest(samples: Seq<i32>, capacity: int)
    requires
        1 <= capacity,
    ensures
        fed(Seq::<u64>::empty(), squares(samples), capacity) == kept_last(
            squares(samples),
            capacity,
        ),
        samples.len() >= capacity ==> fed(Seq::<u64>::empty(), squares(samples), capacity)
            == squares(samples.subrange(samples.len() - capacity, samples.len() as int)),
{
    lemma_fed_keeps_last(Seq::<u64>::empty(), squares(samples), capacity);
    assert(Seq::<u64>::empty() + squares(samples) == squares(samples));
    if samples.len() >= capacity {
        assert(kept_last(squares(samples), capacity) =~= squares(
            samples.subrange(samples.len() - capacity, samples.len() as int),
        ));
    }
}

/// The window does not depend on how the samples were cut into batches.
pub proof fn lemma_window_ignores_batches(
    window: Seq<u64>,
    first: Seq<i32>,
    second: Seq<i32>,
    capacity: int,
)
    ensures
        fed(fed(window, squares(first), capacity), squares(second), capacity) == fed(
            window,
            squares(first + second),
            capacity,
        ),
{
    lemma_fed_composes(window, squares(first), squares(second), capacity);
    assert(squares(first) + squares(second) =~= squares(first + second));
}

} // verus!
