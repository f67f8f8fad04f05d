//! Linear cross-fade ramp between an outgoing and an incoming processor.

use vstd::prelude::*;

verus! {

/// Position inside a linear fade of `fade_time_samples` samples.
///
/// The fade runs from `remaining == total` (only the outgoing source is heard)
/// down to `remaining == 0` (only the incoming source is heard).
pub struct CrossFader {
    remaining_fade_time_samples: u32,
    fade_time_samples: u32,
}

/// Weight of the outgoing source, in units of `1 / total`, for the sample that
/// lies `sample_index` samples after a position with `remaining` samples left.
pub open spec fn ramp_down(remaining: nat, sample_index: nat) -> nat {
    if sample_index >= remaining {
        0
    } else {
        (remaining - sample_index) as nat
    }
}

/// Length of the cross-fade after a swap, in milliseconds.
pub const CROSSFADE_TIME_MILLIS: u32 = 250;

/// Number of whole samples in `fade_time_millis` at `sample_rate_hz`, or the
/// largest number there is where that is too large.
pub open spec fn samples_in(sample_rate_hz: u32, fade_time_millis: u32) -> u32 {
    let samples = (sample_rate_hz as int * fade_time_millis as int) / 1000;
    if samples <= u32::MAX {
        samples as u32
    } else {
        u32::MAX
    }
}

/// Number of whole samples in `fade_time_millis` at `sample_rate_hz`.
pub fn fade_time_in_samples(sample_rate_hz: u32, fade_time_millis: u32) -> (samples: u32)
    ensures
        samples == samples_in(sample_rate_hz, fade_time_millis),
{
    let rate: u64 = sample_rate_hz as u64;
    let millis: u64 = fade_time_millis as u64;
    assert(rate * millis <= 0xffff_ffff * 0xffff_ffff) by (nonlinear_arith)
        requires
            rate <= 0xffff_ffff,
            millis <= 0xffff_ffff,
    ;
    let samples: u64 = rate * millis / 1000;
    if samples <= u32::MAX as u64 {
        samples as u32
    } else {
        u32::MAX
    }
}

impl CrossFader {
    #[verifier::type_invariant]
    spec fn within_window(self) -> bool {
        self.remaining_fade_time_samples <= self.fade_time_samples
    }

    /// Samples left until the fade is complete.
    pub closed spec fn remaining(&self) -> nat {
        self.remaining_fade_time_samples as nat
    }

    /// Length of the whole fade window in samples.
    pub closed spec fn total(&self) -> nat {
        self.fade_time_samples as nat
    }

    /// A fader at the start of a window of `fade_time_samples` samples.
    pub fn new(fade_time_samples: u32) -> (fader: Self)
        ensures
            fader.total() == fade_time_samples,
            fader.remaining() == fade_time_samples,
    {
        CrossFader { remaining_fade_time_samples: fade_time_samples, fade_time_samples }
    }

    /// Rewinds to the start of the window.
    pub fn reset(&mut self)
        ensures
            final(self).total() == old(self).total(),
            final(self).remaining() == old(self).total(),
    {
        self.remaining_fade_time_samples = self.fade_time_samples;
    }

    /// Moves the position forward by `sample_count` samples, stopping at the end.
    pub fn advance(&mut self, sample_count: u32)
        ensures
            final(self).total() == old(self).total(),
            final(self).remaining() == ramp_down(old(self).remaining(), sample_count as nat),
    {
        proof {
            use_type_invariant(&*self);
        }
        self.remaining_fade_time_samples = self.remaining_fade_time_samples.saturating_sub(
            sample_count,
        );
    }

    /// Samples left until the fade is complete.
    pub fn remaining_samples(&self) -> (remaining: u32)
        ensures
            remaining == self.remaining(),
    {
        self.remaining_fade_time_samples
    }

    /// Length of the whole fade window in samples: the unit of the weights.
    pub fn fade_time_samples(&self) -> (total: u32)
        ensures
            total == self.total(),
    {
        self.fade_time_samples
    }

    /// Weight of the outgoing source for the sample `sample_index` samples
    /// ahead of the current position, in units of `1 / total`.
    pub fn fade_out_weight(&self, sample_index: u32) -> (weight: u32)
        ensures
            weight == ramp_down(self.remaining(), sample_index as nat),
            weight <= self.total(),
    {
        proof {
            use_type_invariant(self);
        }
        self.remaining_fade_time_samples.saturating_sub(sample_index)
    }

    /// Weight of the incoming source for the sample `sample_index` samples
    /// ahead of the current position, in units of `1 / total`. The two weights
    /// of a sample add up to `total`.
    pub fn fade_in_weight(&self, sample_index: u32) -> (weight: u32)
        ensures
            weight == self.total() - ramp_down(self.remaining(), sample_index as nat),
    {
        proof {
            use_type_invariant(self);
        }
        self.fade_time_samples - self.remaining_fade_time_samples.saturating_sub(sample_index)
    }

    /// Whether the incoming source has fully taken over.
    pub fn is_done(&self) -> (done: bool)
        ensures
            done == (self.remaining() == 0),
    {
        self.remaining_fade_time_samples == 0
    }
}

/// Sum of the lengths of a run of blocks.
pub open spec fn total_frames(blocks: Seq<u32>) -> nat
    decreases blocks.len(),
{
    if blocks.len() == 0 {
        0
    } else {
        total_frames(blocks.drop_last()) + blocks.last() as nat
    }
}

/// Samples left after advancing block by block from `remaining`.
pub open spec fn remaining_after(remaining: nat, blocks: Seq<u32>) -> nat
    decreases blocks.len(),
{
    if blocks.len() == 0 {
        remaining
    } else {
        ramp_down(remaining_after(remaining, blocks.drop_last()), blocks.last() as nat)
    }
}

/// At the first sample of a fresh window of `total` samples only the outgoing
/// source is heard; at the last sample the incoming source has all but one
/// part in `total`.
pub proof fn lemma_fade_endpoints(total: nat)
    requires
        total > 0,
    ensures
        ramp_down(total, 0) == total,
        total - ramp_down(total, 0) == 0,
        ramp_down(total, (total - 1) as nat) == 1,
        ramp_down(total, total) == 0,
{
}

/// Within a window the outgoing weight never rises and the incoming weight
/// never falls, and neither leaves the range from nothing to `remaining`.
pub proof fn lemma_fade_monotone(remaining: nat, earlier: nat, later: nat)
    requires
        earlier <= later,
    ensures
        ramp_down(remaining, later) <= ramp_down(remaining, earlier) <= remaining,
        earlier < later && later <= remaining ==> ramp_down(remaining, later) < ramp_down(
            remaining,
            earlier,
        ),
{
}

/// A fade carries on across blocks: the sample `index` of the block that
/// follows `advanced` samples has the weight of sample `advanced + index`.
pub proof fn lemma_fade_continues(remaining: nat, advanced: nat, index: nat)
    ensures
        ramp_down(ramp_down(remaining, advanced), index) == ramp_down(remaining, advanced + index),
{
}

/// Advancing block by block comes to the same as advancing once by the sum:
/// the fade is complete exactly when the blocks add up to what remained.
pub proof fn lemma_fade_completes(remaining: nat, blocks: Seq<u32>)
    ensures
        remaining_after(remaining, blocks) == ramp_down(remaining, total_frames(blocks)),
        remaining_after(remaining, blocks) == 0 <==> total_frames(blocks) >= remaining,
    decreases blocks.len(),
{
    if blocks.len() > 0 {
        lemma_fade_completes(remaining, blocks.drop_last());
    }
}

} // verus!
