use crate::messages::PlayerCommand;
use crate::transport::{state_after, TransportState};
use vstd::prelude::*;
use vstd::string::{axiom_spec_iter, next_postcondition};

verus! {

/// What a line of user input asks for.
#[derive(Debug, Clone, Copy, PartialEq, Eq, Structural)]
pub enum InputCommand {
    /// `p`: toggle play/pause.
    TogglePlayPause,
    /// `q`: begin shutdown.
    Quit,
    /// Anything else.
    Unknown,
}

/// `s` with its leading and trailing whitespace removed.
pub uninterp spec fn trim_of(s: Seq<char>) -> Seq<char>;

/// Relies on `str::trim`: the result depends on the characters alone, and
/// an empty string stays empty.
#[verifier::external_body]
fn trimmed(s: &str) -> (r: &str)
    ensures
        r@ == trim_of(s@),
        s@.len() == 0 ==> r@.len() == 0,
{
    s.trim()
}

/// The command named by an already trimmed line.
pub open spec fn command_for(token: Seq<char>) -> InputCommand {
    if token == seq!['p'] {
        InputCommand::TogglePlayPause
    } else if token == seq!['q'] {
        InputCommand::Quit
    } else {
        InputCommand::Unknown
    }
}

/// Recognises the tokens of a trimmed line: `p` toggles, `q` quits.
pub fn command_of_token(token: &str) -> (r: InputCommand)
    ensures
        r == command_for(token@),
{
    broadcast use axiom_spec_iter, next_postcondition;

    let mut chars = token.chars();
    let first = chars.next();
    let second = chars.next();
    match (first, second) {
        (Some('p'), None) => {
            assert(token@ =~= seq!['p']);
            InputCommand::TogglePlayPause
        },
        (Some('q'), None) => {
            assert(token@ =~= seq!['q']);
            InputCommand::Quit
        },
        _ => {
            assert(token@ != seq!['p'] && token@ != seq!['q']) by {
                if token@ == seq!['p'] || token@ == seq!['q'] {
                    assert(token@.len() == 1);
                }
            }
            InputCommand::Unknown
        },
    }
}

/// The command named by a line of input, once trimmed.
pub fn parse_input_line(line: &str) -> (r: InputCommand)
    ensures
        r == command_for(trim_of(line@)),
{
    command_of_token(trimmed(line))
}

/// What the supervisor does next.
#[derive(Debug, Clone, Copy, PartialEq, Eq, Structural)]
pub struct SupervisorStep {
    /// The transport state it now tracks.
    pub state: TransportState,
    /// A command to forward to the player.
    pub command: Option<PlayerCommand>,
    /// Whether the main loop goes on.
    pub running: bool,
}

/// Handles one line of input: `p` forwards a toggle, `q` begins shutdown,
/// anything else changes nothing.
pub fn on_input(state: TransportState, input: InputCommand) -> (r: SupervisorStep)
    ensures
        input == InputCommand::TogglePlayPause ==> r == (SupervisorStep {
            state: state_after(state, PlayerCommand::TogglePlayPause),
            command: Some(PlayerCommand::TogglePlayPause),
            running: true,
        }),
        input == InputCommand::Quit ==> r == (SupervisorStep { state, command: None, running: false }),
        input == InputCommand::Unknown ==> r == (SupervisorStep { state, command: None, running: true }),
{
    match input {
        InputCommand::TogglePlayPause => SupervisorStep {
            state: state.apply(PlayerCommand::TogglePlayPause),
            command: Some(PlayerCommand::TogglePlayPause),
            running: true,
        },
        InputCommand::Quit => SupervisorStep { state, command: None, running: false },
        InputCommand::Unknown => SupervisorStep { state, command: None, running: true },
    }
}

/// Checks the end-of-stream flag: once it is raised the transport is
/// `Ended`, from any state, and the main loop exits.
pub fn on_end_check(state: TransportState, end_of_stream: bool) -> (r: SupervisorStep)
    ensures
        end_of_stream ==> r == (SupervisorStep { state: TransportState::Ended, command: None, running: false }),
        !end_of_stream ==> r == (SupervisorStep { state, command: None, running: true }),
{
    if end_of_stream {
        SupervisorStep { state: state.end(), command: None, running: false }
    } else {
        SupervisorStep { state, command: None, running: true }
    }
}

} // verus!
