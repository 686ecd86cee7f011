//! `/skip`: skip the current track.

use vstd::prelude::*;

use crate::commands::{
    CommandRegistration,
    CommandRegistrationView,
    Step,
    begin,
    begin_view,
    finish,
    finish_registry,
    finish_view,
};
use crate::session::controller::{ControlCommand, StreamAction};
use crate::session::registry::SessionRegistry;
use crate::utils::response::CommandOutput;

verus! {

/// Said where the guild has no session.
pub const NOT_CONNECTED: &'static str =
    "Error skipping song! Ensure Poor Jimmy is in a voice channel with **/join**";

/// Said where the queue has no current track.
pub const NO_SONG: &'static str = "There is no song currently playing!";

/// Said where the current track is gone by the time the transport answers.
pub const NOTHING: &'static str = "There is no song currently playing!";

/// Said where the transport rejects the stop.
pub const FAILED: &'static str = "Error skipping song!";

/// Said once the transport did what was asked.
pub const DONE: &'static str = "Song **skipped!**";

/// The first step of the command: with a current track, the transport is
/// asked to force-stop its stream. Nothing changes here, and nothing is
/// read of the stream.
pub fn run(registry: &SessionRegistry, guild_id: u64) -> (step: Step)
    ensures
        step@ == begin_view(
            registry@,
            guild_id,
            ControlCommand::Skip,
            None,
            NOT_CONNECTED@,
            NO_SONG@,
            FAILED@,
            NO_SONG@,
        ),
{
    begin(
        registry,
        guild_id,
        ControlCommand::Skip,
        None,
        NOT_CONNECTED,
        NO_SONG,
        FAILED,
        NO_SONG,
    )
}

/// The first step of the command where a button was pressed for it.
pub fn handle_button(registry: &SessionRegistry, guild_id: u64) -> (step: Step)
    ensures
        step@ == begin_view(
            registry@,
            guild_id,
            ControlCommand::Skip,
            None,
            NOT_CONNECTED@,
            NO_SONG@,
            FAILED@,
            NO_SONG@,
        ),
{
    begin(
        registry,
        guild_id,
        ControlCommand::Skip,
        None,
        NOT_CONNECTED,
        NO_SONG,
        FAILED,
        NO_SONG,
    )
}

/// The second step of the command: `accepted` is whether the transport
/// stopped the stream. A stopped track no longer loops; it leaves the queue
/// when the completion signal of the stopped stream arrives.
pub fn complete(registry: &mut SessionRegistry, guild_id: u64, accepted: bool) -> (output: CommandOutput)
    requires
        old(registry).wf(),
    ensures
        final(registry).wf(),
        final(registry)@ == finish_registry(old(registry)@, guild_id, StreamAction::Stop, accepted),
        output@ == finish_view(
            old(registry)@,
            guild_id,
            StreamAction::Stop,
            accepted,
            NOT_CONNECTED@,
            NOTHING@,
            FAILED@,
            DONE@,
            false,
        ),
{
    finish(
        registry,
        guild_id,
        StreamAction::Stop,
        accepted,
        NOT_CONNECTED,
        NOTHING,
        FAILED,
        DONE,
        false,
    )
}

/// The command as it is registered.
pub fn register() -> (command: CommandRegistration)
    ensures
        command@ == CommandRegistrationView::bare("skip"@, "Skip the currently playing song"@),
{
    CommandRegistration::bare("skip", "Skip the currently playing song")
}

} // verus!
