//! The history behind the oscilloscope: a ring of the most recent samples of
//! one channel, written one sample at a time and read back in the order of
//! writing.
//!
//! A sample is a single-precision number, carried as its bit pattern.

use vstd::prelude::*;

verus! {

/// The number of samples the scope remembers.
pub const SCOPE_LEN: usize = 48000;

/// A position that ran past the end of a ring of `len` places, brought back
/// in by one turn.
pub open spec fn wrapped(position: int, len: int) -> int {
    if position >= len {
        position - len
    } else {
        position
    }
}

/// The scope as plain values.
pub struct ScopeView {
    /// One past the place that was written last. It may stand at the length
    /// of the ring: the next write then starts over at 0.
    pub write_idx: int,
    pub buffer: Seq<u32>,
}

impl ScopeView {
    pub open spec fn wf(self) -> bool {
        self.buffer.len() >= 2 && 0 <= self.write_idx <= self.buffer.len()
    }

    /// The place the next sample is written to.
    pub open spec fn slot(self) -> int {
        wrapped(self.write_idx, self.buffer.len() as int)
    }

    /// The scope after `sample` has been written.
    pub open spec fn written(self, sample: u32) -> ScopeView {
        ScopeView {
            write_idx: self.slot() + 1,
            buffer: self.buffer.update(self.slot(), sample),
        }
    }

    /// The scope after `samples` have been written, first one first.
    pub open spec fn written_all(self, samples: Seq<u32>) -> ScopeView
        decreases samples.len(),
    {
        if samples.len() == 0 {
            self
        } else {
            self.written_all(samples.drop_last()).written(samples.last())
        }
    }

    /// The place of the sample that was written `age` writes ago.
    pub open spec fn place_of(self, age: int) -> int {
        if self.write_idx - 1 - age >= 0 {
            self.write_idx - 1 - age
        } else {
            self.write_idx - 1 - age + self.buffer.len()
        }
    }

    /// Where a reader starts: the place after the write index, round the
    /// ring.
    pub open spec fn lead(self) -> int {
        wrapped(self.slot() + 1, self.buffer.len() as int)
    }

    /// How many samples a reader gets: it starts after the write index and
    /// ends when it comes round to it, so it gets every sample but the one
    /// that is written over next.
    pub open spec fn shown_len(self) -> int {
        self.buffer.len() - 1
    }

    /// What a reader gets, oldest sample first: the samples of the places
    /// after the write index, in their order round the ring.
    pub open spec fn shown(self) -> Seq<u32> {
        Seq::new(
            self.shown_len() as nat,
            |k: int| self.buffer[wrapped(self.write_idx + 1 + k, self.buffer.len() as int)],
        )
    }
}

/// Writing keeps the length of the ring and keeps the write index in it.
pub proof fn lemma_written_wf(scope: ScopeView, samples: Seq<u32>)
    requires
        scope.wf(),
    ensures
        scope.written_all(samples).wf(),
        scope.written_all(samples).buffer.len() == scope.buffer.len(),
        samples.len() > 0 ==> scope.written_all(samples).write_idx >= 1,
    decreases samples.len(),
{
    if samples.len() > 0 {
        lemma_written_wf(scope, samples.drop_last());
    }
}

/// Writing samples in two batches comes to the same as writing them in one.
pub proof fn lemma_written_in_batches(scope: ScopeView, first: Seq<u32>, second: Seq<u32>)
    ensures
        scope.written_all(first).written_all(second) == scope.written_all(first + second),
    decreases second.len(),
{
    if second.len() == 0 {
        assert(first + second == first);
    } else {
        lemma_written_in_batches(scope, first, second.drop_last());
        assert((first + second).drop_last() == first + second.drop_last());
        assert((first + second).last() == second.last());
    }
}

/// The ring holds the most recent samples: the sample written `age` writes
/// ago, if it is among the last as many as the ring has places, stands `age`
/// places behind the one written last, round the ring.
pub proof fn lemma_scope_history(scope: ScopeView, samples: Seq<u32>, age: int)
    requires
        scope.wf(),
        0 <= age < samples.len(),
        age < scope.buffer.len(),
    ensures
        ({
            let after = scope.written_all(samples);
            &&& 0 <= after.place_of(age) < after.buffer.len()
            &&& after.buffer[after.place_of(age)] == samples[samples.len() - 1 - age]
        }),
    decreases samples.len(),
{
    let before = scope.written_all(samples.drop_last());
    lemma_written_wf(scope, samples.drop_last());
    lemma_written_wf(scope, samples);
    if age > 0 {
        lemma_scope_history(scope, samples.drop_last(), age - 1);
        assert(before.place_of(age - 1) == before.written(samples.last()).place_of(age));
    }
}

/// A reader goes from old to new: once the ring has been written round,
/// what it shows is the most recent samples, one fewer than the ring has
/// places, in the order in which they were written.
pub proof fn lemma_shown_is_recent(scope: ScopeView, samples: Seq<u32>, k: int)
    requires
        scope.wf(),
        samples.len() >= scope.buffer.len(),
        0 <= k < scope.buffer.len() - 1,
    ensures
        ({
            let after = scope.written_all(samples);
            &&& after.shown().len() == scope.buffer.len() - 1
            &&& after.shown()[k] == samples[samples.len() - scope.buffer.len() + 1 + k]
        }),
{
    lemma_written_wf(scope, samples);
    lemma_scope_history(scope, samples, scope.buffer.len() - 2 - k);
}

/// The ring of the oscilloscope.
#[derive(Debug)]
pub struct Scope {
    write_idx: usize,
    buffer: Vec<u32>,
}

impl View for Scope {
    type V = ScopeView;

    closed spec fn view(&self) -> ScopeView {
        ScopeView { write_idx: self.write_idx as int, buffer: self.buffer@ }
    }
}

impl Scope {
    #[verifier::type_invariant]
    spec fn inv(self) -> bool {
        self.buffer@.len() == SCOPE_LEN && self.write_idx <= SCOPE_LEN
    }

    /// A scope that remembers [`SCOPE_LEN`] samples, all of them zero.
    pub fn new() -> (r: Self)
        ensures
            r@.write_idx == 0,
            r@.buffer == Seq::new(SCOPE_LEN as nat, |k: int| 0u32),
            r@.wf(),
    {
        let mut buffer: Vec<u32> = Vec::new();
        let mut i: usize = 0;
        while i < SCOPE_LEN
            invariant
                i <= SCOPE_LEN,
                buffer@ == Seq::new(i as nat, |k: int| 0u32),
            decreases SCOPE_LEN - i,
        {
            buffer.push(0);
            i += 1;
            assert(buffer@ =~= Seq::new(i as nat, |k: int| 0u32));
        }
        Self { write_idx: 0, buffer }
    }

    /// One past the place that was written last.
    pub fn write_idx(&self) -> (r: usize)
        ensures
            r == self@.write_idx,
            r <= SCOPE_LEN,
    {
        proof {
            use_type_invariant(self);
        }
        self.write_idx
    }

    /// The ring as it lies in memory.
    pub fn buffer(&self) -> (r: &Vec<u32>)
        ensures
            r@ == self@.buffer,
            r@.len() == SCOPE_LEN,
    {
        proof {
            use_type_invariant(self);
        }
        &self.buffer
    }

    /// Writes one sample over the oldest one.
    pub fn write_sample(&mut self, sample: u32)
        ensures
            final(self)@ == old(self)@.written(sample),
    {
        proof {
            use_type_invariant(&*self);
        }
        let mut at = self.write_idx;
        if at >= self.buffer.len() {
            at -= self.buffer.len();
        }
        self.buffer[at] = sample;
        self.write_idx = at + 1;
    }

    /// Writes the samples in their order, each over the oldest one.
    pub fn write_samples(&mut self, samples: &[u32])
        ensures
            final(self)@ == old(self)@.written_all(samples@),
    {
        let mut i: usize = 0;
        while i < samples.len()
            invariant
                i <= samples.len(),
                self@ == old(self)@.written_all(samples@.take(i as int)),
            decreases samples.len() - i,
        {
            self.write_sample(samples[i]);
            assert(samples@.take(i + 1).drop_last() == samples@.take(i as int));
            i += 1;
        }
        assert(samples@.take(samples.len() as int) == samples@);
    }

    /// A reader of the ring that starts at the place after the write index.
    pub fn into_iter(&self) -> (r: ScopeIterator<'_>)
        ensures
            r.scope_view() == self@,
            r.index() == self@.lead(),
            r.counter() == 0,
    {
        proof {
            use_type_invariant(self);
        }
        let len = self.buffer.len();
        let mut index = self.write_idx;
        if index >= len {
            index -= len;
        }
        index += 1;
        if index >= len {
            index -= len;
        }
        ScopeIterator { scope: self, index, counter: 0 }
    }

    /// Everything a reader gets.
    pub fn samples(&self) -> (r: Vec<u32>)
        ensures
            r@ == self@.shown(),
    {
        proof {
            use_type_invariant(self);
        }
        let mut out: Vec<u32> = Vec::new();
        let mut reader = self.into_iter();
        loop
            invariant_except_break
                reader.scope_view() == self@,
                self@.wf(),
                self@.buffer.len() == SCOPE_LEN,
                0 <= reader.counter() <= self@.shown_len(),
                reader.counter() == out@.len(),
                reader.index() == wrapped(self@.lead() + reader.counter(), SCOPE_LEN as int),
                out@ == self@.shown().take(reader.counter()),
            ensures
                out@ == self@.shown(),
            decreases self@.shown_len() - reader.counter(),
        {
            match reader.next() {
                Some(sample) => {
                    out.push(sample);
                    assert(out@ =~= self@.shown().take(reader.counter()));
                },
                None => {
                    assert(self@.shown().take(self@.shown_len()) == self@.shown());
                    break ;
                },
            }
        }
        out
    }
}

/// A reader of the ring of a [`Scope`].
#[derive(Debug)]
pub struct ScopeIterator<'a> {
    scope: &'a Scope,
    index: usize,
    counter: usize,
}

impl<'a> ScopeIterator<'a> {
    #[verifier::type_invariant]
    spec fn inv(self) -> bool {
        self.index < SCOPE_LEN && self.counter <= SCOPE_LEN
    }

    /// The scope that is read.
    pub closed spec fn scope_view(&self) -> ScopeView {
        self.scope@
    }

    /// The place that is read next.
    pub closed spec fn index(&self) -> int {
        self.index as int
    }

    /// How many samples the reader has read.
    pub closed spec fn counter(&self) -> int {
        self.counter as int
    }

    /// Whether the reader has come to its end: it has come round to the
    /// write index, or it has read as many samples as the ring has places.
    pub open spec fn at_end(&self) -> bool {
        self.index() == self.scope_view().slot() || self.counter()
            >= self.scope_view().buffer.len()
    }

    /// Reads the sample at the place of the reader and moves on by one
    /// place, round the ring. At its end the reader reads nothing and stays
    /// where it is.
    pub fn next(&mut self) -> (r: Option<u32>)
        ensures
            final(self).scope_view() == old(self).scope_view(),
            old(self).at_end() ==> r is None && final(self).at_end() && final(self).index()
                == old(self).index() && final(self).counter() == old(self).counter(),
            !old(self).at_end() ==> r == Some(old(self).scope_view().buffer[old(self).index()])
                && final(self).index() == wrapped(
                old(self).index() + 1,
                old(self).scope_view().buffer.len() as int,
            ) && final(self).counter() == old(self).counter() + 1,
    {
        proof {
            use_type_invariant(&*self);
            use_type_invariant(self.scope);
        }
        let len = self.scope.buffer.len();
        let mut slot = self.scope.write_idx;
        if slot >= len {
            slot -= len;
        }
        if self.index == slot || self.counter >= len {
            return None;
        }
        let sample = self.scope.buffer[self.index];
        let mut index = self.index + 1;
        if index >= len {
            index -= len;
        }
        self.index = index;
        self.counter = self.counter + 1;
        Some(sample)
    }
}

} // verus!
