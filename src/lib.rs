//! A realtime multi-clip playback engine: clips are decoded and mixed into a
//! bounded sample ring, which the output callback drains under a deadline.
//!
//! Samples travel through the engine as the bit patterns of IEEE-754 single
//! precision values (`u32`); the all-zero pattern is silence.
//!
//! The ring is a plain owned value here. A program that shares it between
//! the producer thread and the output callback puts it behind a lock that
//! the producer takes only to read the level and to push a block, never
//! while decoding, and that the callback takes for one fill.
mod buffer_config;
mod clip;
mod decoder;
mod messages;
mod playback;
mod producer;
mod ring;
mod supervisor;
mod transport;

pub use buffer_config::{AudioBufferConfig, CHANNELS, DEFAULT_LOOKAHEAD, DEFAULT_SAMPLE_RATE, HEADROOM};
pub use clip::{window_ok, AudioClip, ClipError};
pub use decoder::{DecodeErrorKind, Decoder, DecoderError};
pub use messages::{PlayerCommand, ProducerCommand, ProducerStatus};
pub use playback::{
    fill_output, fill_silence, lemma_fills_continue, lemma_pushed_read_in_order, output_callback, FillReport,
    SILENCE_SAMPLE,
};
pub use producer::{
    commit_block, commit_mixed, lemma_no_block_empty_mix, lemma_single_block_unchanged, mix_block, mix_decoded,
    mix_outcomes, AudioProducer, MixFlow, RefillNext,
};
pub use ring::{lemma_occupancy_bounded, SampleRing};
pub use supervisor::{command_of_token, on_end_check, on_input, parse_input_line, InputCommand, SupervisorStep};
pub use transport::{lemma_play_pause_idempotent, lemma_toggle_twice, next_paused, TransportState};
