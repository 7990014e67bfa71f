//! The tap between the audio engine and the interface: a bounded ring of the
//! samples that were played, which the interface drains at its own pace.
//!
//! The ring is a monitor, not the audio path. A write never waits and never
//! fails: where the ring is full, the oldest samples make room.
//!
//! A sample is a single-precision number, carried as its bit pattern. The
//! storage is the ring buffer of the `rb` crate.

use crate::recent::kept_last;
use rb::{RbConsumer, RbError, RbInspector, RbProducer, SpscRb, RB};
use vstd::prelude::*;
use vstd::slice::slice_subrange;

verus! {

/// `rb::SpscRb`, the ring buffer. Nothing is known of what is inside one but
/// what the functions below say.
#[verifier::external_type_specification]
#[verifier::external_body]
#[verifier::reject_recursive_types(T)]
pub struct ExSpscRb<T>(SpscRb<T>);

/// `rb::RbError`, the reason a call on the ring buffer failed. It is passed
/// on unread.
#[verifier::external_type_specification]
#[verifier::external_body]
pub struct ExRbError(RbError);

/// The samples that wait in a ring buffer, oldest first.
pub uninterp spec fn ring_contents(ring: SpscRb<u32>) -> Seq<u32>;

/// The number of samples that a ring buffer was made to hold.
pub uninterp spec fn ring_capacity(ring: SpscRb<u32>) -> nat;

/// The largest capacity a ring can be made with.
pub const MAX_RING_CAPACITY: usize = 0x1000_0000;

/// `SpscRb::new`: an empty ring buffer that holds up to `capacity` values.
/// It allocates one place more than that.
#[verifier::external_body]
fn ring_new(capacity: usize) -> (ring: SpscRb<u32>)
    requires
        capacity <= MAX_RING_CAPACITY,
    ensures
        ring_contents(ring) == Seq::<u32>::empty(),
        ring_capacity(ring) == capacity,
{
    SpscRb::new(capacity)
}

/// `RbInspector::capacity`: the size the buffer was made with.
#[verifier::external_body]
fn ring_capacity_of(ring: &SpscRb<u32>) -> (capacity: usize)
    ensures
        capacity == ring_capacity(*ring),
{
    ring.capacity()
}

/// `RbInspector::count`: the number of values that wait to be read.
#[verifier::external_body]
fn ring_count(ring: &SpscRb<u32>) -> (count: usize)
    ensures
        count == ring_contents(*ring).len(),
{
    ring.count()
}

/// The lesser of two numbers.
pub open spec fn lesser(a: int, b: int) -> int {
    if a <= b {
        a
    } else {
        b
    }
}

/// The number that a successful call returned.
pub open spec fn returned(result: Result<usize, RbError>) -> int {
    match result {
        Ok(count) => count as int,
        Err(_) => 0,
    }
}

/// `RbProducer::write`, which does not wait. It appends as many of the first
/// values of `data` as there is room for and returns their number. It fails,
/// and writes nothing, where there is data and no room at all.
#[verifier::external_body]
fn ring_write(ring: &mut SpscRb<u32>, data: &[u32]) -> (written: Result<usize, RbError>)
    requires
        ring_contents(*old(ring)).len() <= ring_capacity(*old(ring)),
    ensures
        ring_capacity(*final(ring)) == ring_capacity(*old(ring)),
        written is Err <==> data@.len() > 0 && ring_contents(*old(ring)).len() == ring_capacity(
            *old(ring),
        ),
        written is Ok ==> returned(written) == lesser(
            data@.len() as int,
            ring_capacity(*old(ring)) - ring_contents(*old(ring)).len(),
        ),
        ring_contents(*final(ring)) == ring_contents(*old(ring)) + data@.take(
            lesser(
                data@.len() as int,
                ring_capacity(*old(ring)) - ring_contents(*old(ring)).len(),
            ),
        ),
{
    ring.producer().write(data)
}

/// `RbConsumer::skip`. It drops as many of the oldest values as are asked
/// for and there, and returns their number. It fails where the buffer is
/// empty.
#[verifier::external_body]
fn ring_skip(ring: &mut SpscRb<u32>, cnt: usize) -> (skipped: Result<usize, RbError>)
    requires
        ring_contents(*old(ring)).len() <= ring_capacity(*old(ring)),
    ensures
        ring_capacity(*final(ring)) == ring_capacity(*old(ring)),
        skipped is Err <==> ring_contents(*old(ring)).len() == 0,
        skipped is Ok ==> returned(skipped) == lesser(
            cnt as int,
            ring_contents(*old(ring)).len() as int,
        ),
        ring_contents(*final(ring)) == ring_contents(*old(ring)).skip(
            lesser(cnt as int, ring_contents(*old(ring)).len() as int),
        ),
{
    ring.consumer().skip(cnt)
}

/// `RbConsumer::read`, which does not wait. It moves as many of the oldest
/// values as fit to the front of `data` and returns their number. It fails,
/// and reads nothing, where there is room and the buffer is empty.
#[verifier::external_body]
fn ring_read(ring: &mut SpscRb<u32>, data: &mut Vec<u32>) -> (read: Result<usize, RbError>)
    requires
        ring_contents(*old(ring)).len() <= ring_capacity(*old(ring)),
    ensures
        ring_capacity(*final(ring)) == ring_capacity(*old(ring)),
        read is Err <==> old(data)@.len() > 0 && ring_contents(*old(ring)).len() == 0,
        read is Ok ==> returned(read) == lesser(
            old(data)@.len() as int,
            ring_contents(*old(ring)).len() as int,
        ),
        final(data)@ == ring_contents(*old(ring)).take(
            lesser(old(data)@.len() as int, ring_contents(*old(ring)).len() as int),
        ) + old(data)@.skip(
            lesser(old(data)@.len() as int, ring_contents(*old(ring)).len() as int),
        ),
        ring_contents(*final(ring)) == ring_contents(*old(ring)).skip(
            lesser(old(data)@.len() as int, ring_contents(*old(ring)).len() as int),
        ),
{
    ring.consumer().read(&mut data[..])
}

/// A ring that overflows keeps the most recent samples: after more samples
/// than it holds have been written to an empty ring, it holds exactly the
/// last as many as its capacity.
pub proof fn lemma_overflow_keeps_latest(samples: Seq<u32>, capacity: int)
    requires
        0 <= capacity < samples.len(),
    ensures
        kept_last(Seq::<u32>::empty() + samples, capacity) == samples.subrange(
            samples.len() - capacity,
            samples.len() as int,
        ),
        kept_last(Seq::<u32>::empty() + samples, capacity).len() == capacity,
{
    assert(Seq::<u32>::empty() + samples == samples);
}

/// The ring between the audio engine and the interface.
pub struct SampleRing {
    ring: SpscRb<u32>,
}

impl View for SampleRing {
    type V = Seq<u32>;

    /// The samples that wait to be read, oldest first.
    closed spec fn view(&self) -> Seq<u32> {
        ring_contents(self.ring)
    }
}

impl SampleRing {
    /// The number of samples the ring was made to hold.
    pub closed spec fn capacity_spec(&self) -> nat {
        ring_capacity(self.ring)
    }

    /// A ring never holds more than its capacity.
    pub closed spec fn wf(&self) -> bool {
        ring_contents(self.ring).len() <= ring_capacity(self.ring)
    }

    /// The bound that a well-formed ring keeps.
    pub proof fn lemma_bounded(&self)
        requires
            self.wf(),
        ensures
            self@.len() <= self.capacity_spec(),
    {
    }

    /// An empty ring that holds up to `capacity` samples.
    pub fn new(capacity: usize) -> (r: Self)
        requires
            capacity <= MAX_RING_CAPACITY,
        ensures
            r.wf(),
            r@ == Seq::<u32>::empty(),
            r.capacity_spec() == capacity,
    {
        Self { ring: ring_new(capacity) }
    }

    /// The number of samples the ring holds at most.
    pub fn capacity(&self) -> (r: usize)
        ensures
            r == self.capacity_spec(),
    {
        ring_capacity_of(&self.ring)
    }

    /// The number of samples that wait to be read.
    pub fn len(&self) -> (r: usize)
        ensures
            r == self@.len(),
    {
        ring_count(&self.ring)
    }

    /// Writes the samples behind those that wait. Where they do not all fit,
    /// the oldest samples leave to make room, waiting ones first.
    pub fn write(&mut self, samples: &[u32])
        requires
            old(self).wf(),
        ensures
            final(self).wf(),
            final(self).capacity_spec() == old(self).capacity_spec(),
            final(self)@ == kept_last(old(self)@ + samples@, old(self).capacity_spec() as int),
    {
        let capacity = ring_capacity_of(&self.ring);
        let count = ring_count(&self.ring);
        let n = samples.len();
        if n == 0 || capacity == 0 {
            assert(self@ =~= kept_last(self@ + samples@, capacity as int));
            return ;
        }
        if n >= capacity {
            if count > 0 {
                let _ = ring_skip(&mut self.ring, count);
            }
            let latest = slice_subrange(samples, n - capacity, n);
            let _ = ring_write(&mut self.ring, latest);
            assert(self@ =~= kept_last(old(self)@ + samples@, capacity as int));
        } else {
            let room = capacity - count;
            if n > room {
                let _ = ring_skip(&mut self.ring, n - room);
            }
            let _ = ring_write(&mut self.ring, samples);
            assert(self@ =~= kept_last(old(self)@ + samples@, capacity as int));
        }
    }

    /// Moves the oldest samples to the front of `data`, as many as wait and
    /// fit, and returns their number. It never waits: of an empty ring it
    /// reads nothing.
    pub fn read(&mut self, data: &mut Vec<u32>) -> (count: usize)
        requires
            old(self).wf(),
        ensures
            final(self).wf(),
            final(self).capacity_spec() == old(self).capacity_spec(),
            count == if old(data)@.len() <= old(self)@.len() {
                old(data)@.len()
            } else {
                old(self)@.len()
            },
            final(data)@ == old(self)@.take(count as int) + old(data)@.skip(count as int),
            final(self)@ == old(self)@.skip(count as int),
    {
        let read = ring_read(&mut self.ring, data);
        let count = match read {
            Ok(count) => count,
            Err(_) => 0,
        };
        assert(data@ =~= old(self)@.take(count as int) + old(data)@.skip(count as int));
        assert(self@ =~= old(self)@.skip(count as int));
        count
    }

    /// Takes out everything that waits, oldest sample first.
    pub fn drain(&mut self) -> (samples: Vec<u32>)
        requires
            old(self).wf(),
        ensures
            final(self).wf(),
            final(self).capacity_spec() == old(self).capacity_spec(),
            samples@ == old(self)@,
            final(self)@ == Seq::<u32>::empty(),
    {
        let count = ring_count(&self.ring);
        let mut samples: Vec<u32> = Vec::new();
        let mut i: usize = 0;
        while i < count
            invariant
                i <= count,
                samples@.len() == i,
            decreases count - i,
        {
            samples.push(0);
            i += 1;
        }
        let _ = ring_read(&mut self.ring, &mut samples);
        assert(samples@ =~= old(self)@);
        assert(self@ =~= Seq::<u32>::empty());
        samples
    }
}

} // verus!
