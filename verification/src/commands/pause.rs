//! `/pause`: pause the current track.

use vstd::prelude::*;

use crate::commands::{
    CommandRegistration,
    CommandRegistrationView,
    Step,
    begin,
    begin_view,
    finish,
    finish_registry,
    finish_view,
};
use crate::session::controller::{ControlCommand, StreamAction, StreamState};
use crate::session::registry::SessionRegistry;
use crate::utils::response::CommandOutput;

verus! {

/// Said where the guild has no session.
pub const NOT_CONNECTED: &'static str =
    "Error pausing song! Ensure Poor Jimmy is in a voice channel with **/join**";

/// Said where the queue has no current track.
pub const NO_SONG: &'static str = "There is no song to pause!";

/// Said where the current track is gone by the time the transport answers.
pub const NOTHING: &'static str = "There is nothing to pause!";

/// Said where the stream's state cannot be read, or the transport rejects
/// the action.
pub const FAILED: &'static str = "Error pausing song!";

/// Said where the stream already is in the state asked for.
pub const ALREADY: &'static str = "The song is currently paused!";

/// Said once the transport did what was asked.
pub const DONE: &'static str = "Song **paused!** Use **/resume** to continue playback";

/// The first step of the command. `observed` is what was read of the
/// current stream, `None` where nothing could be read. Nothing changes
/// here.
pub fn run(registry: &SessionRegistry, guild_id: u64, observed: Option<StreamState>) -> (step: Step)
    ensures
        step@ == begin_view(
            registry@,
            guild_id,
            ControlCommand::Pause,
            observed,
            NOT_CONNECTED@,
            NO_SONG@,
            FAILED@,
            ALREADY@,
        ),
{
    begin(
        registry,
        guild_id,
        ControlCommand::Pause,
        observed,
        NOT_CONNECTED,
        NO_SONG,
        FAILED,
        ALREADY,
    )
}

/// The first step of the command where a button was pressed for it.
pub fn handle_button(registry: &SessionRegistry, guild_id: u64, observed: Option<StreamState>) -> (step:
    Step)
    ensures
        step@ == begin_view(
            registry@,
            guild_id,
            ControlCommand::Pause,
            observed,
            NOT_CONNECTED@,
            NO_SONG@,
            FAILED@,
            ALREADY@,
        ),
{
    begin(
        registry,
        guild_id,
        ControlCommand::Pause,
        observed,
        NOT_CONNECTED,
        NO_SONG,
        FAILED,
        ALREADY,
    )
}

/// The second step of the command: `accepted` is whether the transport did
/// what the first step asked for.
pub fn complete(registry: &mut SessionRegistry, guild_id: u64, accepted: bool) -> (output: CommandOutput)
    requires
        old(registry).wf(),
    ensures
        final(registry).wf(),
        final(registry)@ == finish_registry(old(registry)@, guild_id, StreamAction::Pause, accepted),
        output@ == finish_view(
            old(registry)@,
            guild_id,
            StreamAction::Pause,
            accepted,
            NOT_CONNECTED@,
            NOTHING@,
            FAILED@,
            DONE@,
            true,
        ),
{
    finish(
        registry,
        guild_id,
        StreamAction::Pause,
        accepted,
        NOT_CONNECTED,
        NOTHING,
        FAILED,
        DONE,
        true,
    )
}

/// The command as it is registered.
pub fn register() -> (command: CommandRegistration)
    ensures
        command@ == CommandRegistrationView::bare("pause"@, "Pause the currently playing song"@),
{
    CommandRegistration::bare("pause", "Pause the currently playing song")
}

} // verus!
