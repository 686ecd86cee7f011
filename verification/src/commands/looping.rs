//! `/loop`: switch looping of the current track on or off.

use vstd::prelude::*;

use crate::commands::{
    CommandRegistration,
    CommandRegistrationView,
    Step,
    begin,
    begin_view,
    finish,
    finish_registry,
    finish_view,
};
use crate::session::controller::{ControlCommand, StreamAction, StreamState};
use crate::session::registry::SessionRegistry;
use crate::utils::response::CommandOutput;

verus! {

/// Said where the guild has no session.
pub const NOT_CONNECTED: &'static str =
    "Error looping song! Ensure Poor Jimmy is in a voice channel with **/join**";

/// Said where the queue has no current track.
pub const NO_SONG: &'static str = "There is no song to loop!";

/// Said where the stream's state cannot be read, or the transport rejects
/// the action.
pub const FAILED: &'static str = "Error looping song!";

/// Said once looping is on.
pub const ENABLED: &'static str =
    "Enabled **looping!** Use **/loop** again to disable or **/skip** to skip";

/// Said once looping is off.
pub const DISABLED: &'static str = "Disabled **looping!**";

/// The action that switches looping on or off.
pub open spec fn loop_action(enable: bool) -> StreamAction {
    if enable {
        StreamAction::EnableLoop
    } else {
        StreamAction::DisableLoop
    }
}

/// What is said once looping was switched.
pub open spec fn done_text(enable: bool) -> Seq<char> {
    if enable {
        ENABLED@
    } else {
        DISABLED@
    }
}

/// The first step of the command. `observed` is what was read of the
/// current stream, `None` where nothing could be read: a stream that loops
/// is asked to stop looping, any other to start. Nothing changes here.
pub fn run(registry: &SessionRegistry, guild_id: u64, observed: Option<StreamState>) -> (step: Step)
    ensures
        step@ == begin_view(
            registry@,
            guild_id,
            ControlCommand::ToggleLoop,
            observed,
            NOT_CONNECTED@,
            NO_SONG@,
            FAILED@,
            NO_SONG@,
        ),
{
    begin(
        registry,
        guild_id,
        ControlCommand::ToggleLoop,
        observed,
        NOT_CONNECTED,
        NO_SONG,
        FAILED,
        NO_SONG,
    )
}

/// The first step of the command where a button was pressed for it.
pub fn handle_button(registry: &SessionRegistry, guild_id: u64, observed: Option<StreamState>) -> (step:
    Step)
    ensures
        step@ == begin_view(
            registry@,
            guild_id,
            ControlCommand::ToggleLoop,
            observed,
            NOT_CONNECTED@,
            NO_SONG@,
            FAILED@,
            NO_SONG@,
        ),
{
    run(registry, guild_id, observed)
}

/// The second step of the command: `enable` is which way the first step
/// asked to switch, `accepted` whether the transport did so.
pub fn complete(registry: &mut SessionRegistry, guild_id: u64, enable: bool, accepted: bool) -> (output:
    CommandOutput)
    requires
        old(registry).wf(),
    ensures
        final(registry).wf(),
        final(registry)@ == finish_registry(old(registry)@, guild_id, loop_action(enable), accepted),
        output@ == finish_view(
            old(registry)@,
            guild_id,
            loop_action(enable),
            accepted,
            NOT_CONNECTED@,
            NO_SONG@,
            FAILED@,
            done_text(enable),
            true,
        ),
{
    if enable {
        finish(
            registry,
            guild_id,
            StreamAction::EnableLoop,
            accepted,
            NOT_CONNECTED,
            NO_SONG,
            FAILED,
            ENABLED,
            true,
        )
    } else {
        finish(
            registry,
            guild_id,
            StreamAction::DisableLoop,
            accepted,
            NOT_CONNECTED,
            NO_SONG,
            FAILED,
            DISABLED,
            true,
        )
    }
}

/// The command as it is registered.
pub fn register() -> (command: CommandRegistration)
    ensures
        command@ == CommandRegistrationView::bare(
            "loop"@,
            "Enable/disable looping for the current song"@,
        ),
{
    CommandRegistration::bare("loop", "Enable/disable looping for the current song")
}

} // verus!
