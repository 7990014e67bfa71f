//! The step that the interface takes on each repaint: it drains the ring of
//! played samples and feeds the scope with one channel of them.

use crate::ring::SampleRing;
use crate::scope::Scope;
use vstd::prelude::*;

verus! {

/// Every `step`th sample of `samples`, the first one first.
pub open spec fn every_nth(samples: Seq<u32>, step: int) -> Seq<u32>
    decreases samples.len(),
{
    if samples.len() == 0 || step <= 0 {
        Seq::empty()
    } else if samples.len() <= step {
        seq![samples[0]]
    } else {
        seq![samples[0]] + every_nth(samples.skip(step), step)
    }
}

/// The samples of one channel of interleaved frames of `channels` samples
/// each.
pub open spec fn channel_of(samples: Seq<u32>, channels: int, channel: int) -> Seq<u32> {
    if 0 <= channel < samples.len() {
        every_nth(samples.skip(channel), channels)
    } else {
        Seq::empty()
    }
}

/// Picks the samples of one channel out of interleaved frames.
pub fn channel_samples(samples: &[u32], channels: usize, channel: usize) -> (picked: Vec<u32>)
    requires
        channels > 0,
    ensures
        picked@ == channel_of(samples@, channels as int, channel as int),
{
    let mut picked: Vec<u32> = Vec::new();
    if channel >= samples.len() {
        return picked;
    }
    let mut at: usize = channel;
    loop
        invariant_except_break
            channels > 0,
            channel <= at < samples.len(),
            picked@ + every_nth(samples@.skip(at as int), channels as int) == every_nth(
                samples@.skip(channel as int),
                channels as int,
            ),
        ensures
            picked@ == every_nth(samples@.skip(channel as int), channels as int),
        decreases samples.len() - at,
    {
        let ghost rest = samples@.skip(at as int);
        let ghost before = picked@;
        picked.push(samples[at]);
        assert(rest[0] == samples@[at as int]);
        if samples.len() - at <= channels {
            assert(before + seq![rest[0]] =~= picked@);
            break ;
        }
        proof {
            assert(rest.skip(channels as int) == samples@.skip(at + channels));
            assert(picked@ + every_nth(samples@.skip(at + channels), channels as int) =~= before
                + (seq![rest[0]] + every_nth(samples@.skip(at + channels), channels as int)));
        }
        at += channels;
    }
    picked
}

/// Drains the ring and writes the first channel of what it held to the
/// scope. Returns everything that was drained, for the meters.
pub fn feed_scope(ring: &mut SampleRing, scope: &mut Scope, channels: usize) -> (drained: Vec<u32>)
    requires
        old(ring).wf(),
        channels > 0,
    ensures
        final(ring).wf(),
        final(ring).capacity_spec() == old(ring).capacity_spec(),
        final(ring)@ == Seq::<u32>::empty(),
        drained@ == old(ring)@,
        final(scope)@ == old(scope)@.written_all(channel_of(old(ring)@, channels as int, 0)),
{
    let drained = ring.drain();
    let mono = channel_samples(drained.as_slice(), channels, 0);
    scope.write_samples(mono.as_slice());
    drained
}

} // verus!
