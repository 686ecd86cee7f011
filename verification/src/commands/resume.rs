//! `/resume`: resume the paused track.

use vstd::prelude::*;

use crate::commands::{
    CommandRegistration,
    CommandRegistrationView,
    Step,
    begin,
    begin_view,
    finish,
    finish_registry,
    finish_view,
};
use crate::session::controller::{ControlCommand, StreamAction, StreamState};
use crate::session::registry::SessionRegistry;
use crate::utils::response::CommandOutput;

verus! {

/// Said where the guild has no session.
pub const NOT_CONNECTED: &'static str =
    "Error resuming song! Ensure Poor Jimmy is in a voice channel with **/join**";

/// Said where the queue has no current track.
pub const NO_SONG: &'static str = "There is no song to resume!";

/// Said where the current track is gone by the time the transport answers.
pub const NOTHING: &'static str = "There is nothing to resume!";

/// Said where the stream's state cannot be read, or the transport rejects
/// the action.
pub const FAILED: &'static str = "Error resuming song!";

/// Said where the stream already is in the state asked for.
pub const ALREADY: &'static str = "The song is currently playing!";

/// Said once the transport did what was asked.
pub const DONE: &'static str = "Song **resumed!**";

/// The first step of the command. `observed` is what was read of the
/// current stream, `None` where nothing could be read. Nothing changes
/// here.
pub fn run(registry: &SessionRegistry, guild_id: u64, observed: Option<StreamState>) -> (step: Step)
    ensures
        step@ == begin_view(
            registry@,
            guild_id,
            ControlCommand::Resume,
            observed,
            NOT_CONNECTED@,
            NO_SONG@,
            FAILED@,
            ALREADY@,
        ),
{
    begin(
        registry,
        guild_id,
        ControlCommand::Resume,
        observed,
        NOT_CONNECTED,
        NO_SONG,
        FAILED,
        ALREADY,
    )
}

/// The first step of the command where a button was pressed for it.
pub fn handle_button(registry: &SessionRegistry, guild_id: u64, observed: Option<StreamState>) -> (step:
    Step)
    ensures
        step@ == begin_view(
            registry@,
            guild_id,
            ControlCommand::Resume,
            observed,
            NOT_CONNECTED@,
            NO_SONG@,
            FAILED@,
            ALREADY@,
        ),
{
    begin(
        registry,
        guild_id,
        ControlCommand::Resume,
        observed,
        NOT_CONNECTED,
        NO_SONG,
        FAILED,
        ALREADY,
    )
}

/// The second step of the command: `accepted` is whether the transport did
/// what the first step asked for.
pub fn complete(registry: &mut SessionRegistry, guild_id: u64, accepted: bool) -> (output: CommandOutput)
    requires
        old(registry).wf(),
    ensures
        final(registry).wf(),
        final(registry)@ == finish_registry(old(registry)@, guild_id, StreamAction::Resume, accepted),
        output@ == finish_view(
            old(registry)@,
            guild_id,
            StreamAction::Resume,
            accepted,
            NOT_CONNECTED@,
            NOTHING@,
            FAILED@,
            DONE@,
            true,
        ),
{
    finish(
        registry,
        guild_id,
        StreamAction::Resume,
        accepted,
        NOT_CONNECTED,
        NOTHING,
        FAILED,
        DONE,
        true,
    )
}

/// The command as it is registered.
pub fn register() -> (command: CommandRegistration)
    ensures
        command@ == CommandRegistrationView::bare("resume"@, "Resume the currently paused song"@),
{
    CommandRegistration::bare("resume", "Resume the currently paused song")
}

} // verus!
