use crate::decoder::{Decoder, DecoderError};
use vstd::prelude::*;

verus! {

/// Why a clip could not be built.
#[derive(Debug, Clone, Copy, PartialEq, Eq, Structural)]
pub enum ClipError {
    /// A non-zero end offset lies before the start offset.
    InvalidWindow,
    /// The decoder refused to seek to the start offset.
    Seek(DecoderError),
}

/// The window is valid: no end (zero) or an end at or after the start.
pub open spec fn window_ok(start_ms: u64, end_ms: u64) -> bool {
    end_ms == 0 || start_ms <= end_ms
}

/// A decoder with its window on the timeline, in milliseconds; an end
/// offset of zero plays to the natural end.
pub struct AudioClip<T: Decoder> {
    start_offset: u64,
    end_offset: u64,
    decoder: T,
}

impl<T: Decoder> AudioClip<T> {
    /// The start offset, in milliseconds.
    pub closed spec fn spec_start_offset(&self) -> u64 {
        self.start_offset
    }

    /// The end offset, in milliseconds (zero: the natural end).
    pub closed spec fn spec_end_offset(&self) -> u64 {
        self.end_offset
    }

    /// The decoder the clip reads from.
    pub closed spec fn spec_decoder(&self) -> T {
        self.decoder
    }

    /// Start and end offsets form a valid window.
    pub open spec fn wf(&self) -> bool {
        window_ok(self.spec_start_offset(), self.spec_end_offset())
    }

    /// Builds a clip over `decoder`, seeking it to the start offset (zero
    /// when absent); the clip's decoder has been sought there. An absent end offset means the natural end. Fails with
    /// `InvalidWindow` (before any seek) when the window is invalid, and
    /// with `Seek` when the decoder refuses the seek.
    pub fn new(decoder: T, start_offset: Option<u64>, end_offset: Option<u64>) -> (r: Result<Self, ClipError>)
        ensures
            !window_ok(start_offset.unwrap_or(0), end_offset.unwrap_or(0)) ==> r == Err::<Self, ClipError>(
                ClipError::InvalidWindow,
            ),
            window_ok(start_offset.unwrap_or(0), end_offset.unwrap_or(0)) ==> match r {
                Ok(clip) => clip.wf() && clip.spec_start_offset() == start_offset.unwrap_or(0)
                    && clip.spec_end_offset() == end_offset.unwrap_or(0) && clip.spec_decoder().sought_ms() == Some(
                    start_offset.unwrap_or(0),
                ),
                Err(e) => e is Seek,
            },
    {
        let start: u64 = match start_offset {
            Some(t) => t,
            None => 0,
        };
        let end: u64 = match end_offset {
            Some(t) => t,
            None => 0,
        };
        if end != 0 && start > end {
            return Err(ClipError::InvalidWindow);
        }
        let mut decoder = decoder;
        match decoder.seek(start) {
            Ok(()) => Ok(AudioClip { start_offset: start, end_offset: end, decoder }),
            Err(e) => Err(ClipError::Seek(e)),
        }
    }

    /// The next block of the clip's decoder.
    pub fn decode(&mut self) -> (r: Result<Vec<u32>, DecoderError>)
        ensures
            final(self).spec_start_offset() == old(self).spec_start_offset(),
            final(self).spec_end_offset() == old(self).spec_end_offset(),
            final(self).spec_decoder().sought_ms() == old(self).spec_decoder().sought_ms(),
    {
        self.decoder.decode()
    }

    /// The start offset, in milliseconds.
    pub fn start_offset(&self) -> (r: u64)
        ensures
            r == self.spec_start_offset(),
    {
        self.start_offset
    }

    /// The end offset, in milliseconds (zero: the natural end).
    pub fn end_offset(&self) -> (r: u64)
        ensures
            r == self.spec_end_offset(),
    {
        self.end_offset
    }
}

} // verus!
