use vstd::prelude::*;

verus! {

/// Why a decoder produced no block.
#[derive(Debug, Clone, Copy, PartialEq, Eq, Structural)]
pub enum DecodeErrorKind {
    /// The stream asked for a resynchronisation; a later call may succeed.
    ResetRequired,
    /// The clip is exhausted.
    EndOfStream,
    /// The stream cannot be decoded any further.
    Fatal,
}

/// An error reported by a [`Decoder`].
#[derive(Debug, Clone, Copy, PartialEq, Eq, Structural)]
pub struct DecoderError {
    pub kind: DecodeErrorKind,
}

/// A pull-based source of decoded audio.
///
/// A block is a run of interleaved samples in canonical channel order (for
/// stereo: L0, R0, L1, R1, ...), each sample given by the bit pattern of its
/// single-precision value.
pub trait Decoder {
    /// The position, in milliseconds, that the last successful seek
    /// moved the stream to; `None` before any seek.
    spec fn sought_ms(&self) -> Option<u64>;

    /// The next block of the stream; the position sought stays recorded.
    fn decode(&mut self) -> (r: Result<Vec<u32>, DecoderError>)
        ensures
            final(self).sought_ms() == old(self).sought_ms(),
    ;

    /// Positions the stream at `to_ms` milliseconds, in accurate mode.
    fn seek(&mut self, to_ms: u64) -> (r: Result<(), DecoderError>)
        ensures
            r is Ok ==> final(self).sought_ms() == Some(to_ms),
    ;
}

} // verus!
