use crate::messages::PlayerCommand;
use vstd::prelude::*;

verus! {

/// The `paused` flag after `command`: `Play` clears it, `Pause` sets it,
/// `TogglePlayPause` flips it.
pub open spec fn paused_after(paused: bool, command: PlayerCommand) -> bool {
    match command {
        PlayerCommand::Play => false,
        PlayerCommand::Pause => true,
        PlayerCommand::TogglePlayPause => !paused,
    }
}

/// Applies a transport command to the `paused` flag.
pub fn next_paused(paused: bool, command: PlayerCommand) -> (r: bool)
    ensures
        r == paused_after(paused, command),
{
    match command {
        PlayerCommand::Play => false,
        PlayerCommand::Pause => true,
        PlayerCommand::TogglePlayPause => !paused,
    }
}

/// Toggling twice returns to the state before.
pub proof fn lemma_toggle_twice(paused: bool)
    ensures
        paused_after(paused_after(paused, PlayerCommand::TogglePlayPause), PlayerCommand::TogglePlayPause)
            == paused,
{
}

/// `Play` on a playing stream and `Pause` on a paused one change nothing;
/// both are idempotent.
pub proof fn lemma_play_pause_idempotent(paused: bool)
    ensures
        !paused ==> paused_after(paused, PlayerCommand::Play) == paused,
        paused ==> paused_after(paused, PlayerCommand::Pause) == paused,
        paused_after(paused_after(paused, PlayerCommand::Play), PlayerCommand::Play) == paused_after(
            paused,
            PlayerCommand::Play,
        ),
        paused_after(paused_after(paused, PlayerCommand::Pause), PlayerCommand::Pause)
            == paused_after(paused, PlayerCommand::Pause),
{
}

/// The transport of the player: playing or paused, and ended once the
/// stream has ended, whatever comes after.
#[derive(Debug, Clone, Copy, PartialEq, Eq, Structural)]
pub enum TransportState {
    Playing,
    Paused,
    Ended,
}

/// The transport state after `command`.
pub open spec fn state_after(state: TransportState, command: PlayerCommand) -> TransportState {
    match state {
        TransportState::Ended => TransportState::Ended,
        TransportState::Playing => if paused_after(false, command) {
            TransportState::Paused
        } else {
            TransportState::Playing
        },
        TransportState::Paused => if paused_after(true, command) {
            TransportState::Paused
        } else {
            TransportState::Playing
        },
    }
}

impl TransportState {
    /// The state in which playback starts: audio flows on the first callback.
    pub fn initial() -> (r: Self)
        ensures
            r == TransportState::Playing,
    {
        TransportState::Playing
    }

    /// Applies a transport command; an ended transport stays ended.
    pub fn apply(self, command: PlayerCommand) -> (r: Self)
        ensures
            r == state_after(self, command),
    {
        match self {
            TransportState::Ended => TransportState::Ended,
            TransportState::Playing => if next_paused(false, command) {
                TransportState::Paused
            } else {
                TransportState::Playing
            },
            TransportState::Paused => if next_paused(true, command) {
                TransportState::Paused
            } else {
                TransportState::Playing
            },
        }
    }

    /// The stream has ended: the terminal state, from any state.
    pub fn end(self) -> (r: Self)
        ensures
            r == TransportState::Ended,
    {
        TransportState::Ended
    }

    /// Whether the output callback must write silence.
    pub fn is_paused(&self) -> (r: bool)
        ensures
            r == (*self == TransportState::Paused),
    {
        match self {
            TransportState::Paused => true,
            _ => false,
        }
    }
}

} // verus!
