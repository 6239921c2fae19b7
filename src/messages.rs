use vstd::prelude::*;

verus! {

/// Requests sent to the producer.
#[derive(Debug, Clone, Copy, PartialEq, Eq, Structural)]
pub enum ProducerCommand {
    RequestData,
}

/// Status reports sent from the producer to the supervisor.
#[derive(Debug, Clone, Copy, PartialEq, Eq, Structural)]
pub enum ProducerStatus {
    RequestData,
    DecodingDone,
    BufferFull,
    BufferRecharge,
    BufferUnderrun,
}

/// Transport commands for the player.
#[derive(Debug, Clone, Copy, PartialEq, Eq, Structural)]
pub enum PlayerCommand {
    Play,
    Pause,
    TogglePlayPause,
}

} // verus!
