use crate::ring::SampleRing;
use vstd::prelude::*;

verus! {

/// Samples kept free above the high-water mark.
pub const HEADROOM: usize = 1024;

/// Playback rate used when none is given, in hertz.
pub const DEFAULT_SAMPLE_RATE: u32 = 44100;

/// Lookahead used when none is given, in seconds.
pub const DEFAULT_LOOKAHEAD: usize = 30;

/// Interleaved channels carried through the ring.
pub const CHANNELS: usize = 2;

/// Sizing of the sample ring and its two thresholds.
#[derive(Debug, Clone, Copy, PartialEq, Eq, Structural)]
pub struct AudioBufferConfig {
    /// Playback sample rate, in hertz.
    pub sample_rate: u32,
    /// Lookahead time, in seconds.
    pub lookahead: usize,
    /// Slots of the ring: `sample_rate * 2 * lookahead`.
    pub capacity: usize,
    /// High-water mark: above it the producer stops pushing.
    pub threshold: usize,
    /// Low-water mark: below it the output callback asks for more.
    pub tolerance: usize,
}

/// The ring size for a rate and a lookahead.
pub open spec fn capacity_for(sample_rate: int, lookahead: int) -> int {
    sample_rate * CHANNELS * lookahead
}

impl AudioBufferConfig {
    /// The fields are derived from the rate and the lookahead as documented.
    pub open spec fn wf(&self) -> bool {
        &&& self.capacity as int == capacity_for(self.sample_rate as int, self.lookahead as int)
        &&& self.capacity >= HEADROOM
        &&& self.threshold == self.capacity - HEADROOM
        &&& self.tolerance == self.capacity / 2
    }

    /// Derives capacity, high-water and low-water marks from the rate and
    /// the lookahead; the ring must hold at least the headroom.
    pub fn new(sample_rate: u32, lookahead: usize) -> (r: Self)
        requires
            HEADROOM <= capacity_for(sample_rate as int, lookahead as int) <= usize::MAX,
        ensures
            r.wf(),
            r.sample_rate == sample_rate,
            r.lookahead == lookahead,
    {
        assert(lookahead >= 1 && sample_rate as int * 2 <= capacity_for(sample_rate as int, lookahead as int)) by (nonlinear_arith)
            requires
                HEADROOM <= capacity_for(sample_rate as int, lookahead as int),
        {
        }
        let per_second: usize = sample_rate as usize * CHANNELS;
        let capacity: usize = per_second * lookahead;
        let threshold: usize = capacity - HEADROOM;
        let tolerance: usize = capacity / 2;
        AudioBufferConfig { sample_rate, lookahead, capacity, threshold, tolerance }
    }

    /// An empty ring of `capacity` slots.
    pub fn create_ring_buffer(&self) -> (r: SampleRing)
        requires
            self.wf(),
        ensures
            r.wf(),
            r@ == Seq::<u32>::empty(),
            r.spec_capacity() == self.capacity,
    {
        SampleRing::new(self.capacity)
    }
}

impl Default for AudioBufferConfig {
    /// 44.1 kHz with thirty seconds of lookahead.
    fn default() -> (r: Self)
        ensures
            r.wf(),
            r.sample_rate == DEFAULT_SAMPLE_RATE,
            r.lookahead == DEFAULT_LOOKAHEAD,
    {
        assert(capacity_for(DEFAULT_SAMPLE_RATE as int, DEFAULT_LOOKAHEAD as int) == 2646000);
        AudioBufferConfig::new(DEFAULT_SAMPLE_RATE, DEFAULT_LOOKAHEAD)
    }
}

} // verus!
