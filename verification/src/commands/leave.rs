//! `/leave`: tear the guild's session down.

use vstd::prelude::*;

use crate::commands::{CommandRegistration, CommandRegistrationView};
use crate::session::registry::{RegistryView, SessionRegistry};
use crate::utils::response::{CommandOutput, CommandOutputView};
use crate::utils::result::Outcome;

verus! {

/// Said where the guild has no session.
pub const NOT_CONNECTED: &'static str =
    "Error leaving voice channel! Ensure Poor Jimmy is in a voice channel with **/join**";

/// Said once the session is gone.
pub const LEFT: &'static str = "Poor Jimmy **left** the voice channel!";

/// What leaving says.
pub open spec fn leave_view(registry: RegistryView, guild_id: u64) -> CommandOutputView {
    if registry.sessions.contains_key(guild_id) {
        CommandOutputView::plain(Outcome::Success, LEFT@, false)
    } else {
        CommandOutputView::plain(Outcome::NotConnected, NOT_CONNECTED@, false)
    }
}

/// Removes the session of `guild_id`. On success the transport must
/// disconnect from the guild.
pub fn run(registry: &mut SessionRegistry, guild_id: u64) -> (output: CommandOutput)
    requires
        old(registry).wf(),
    ensures
        final(registry).wf(),
        final(registry)@ == old(registry)@.leave(guild_id),
        output@ == leave_view(old(registry)@, guild_id),
{
    match registry.leave(guild_id) {
        Ok(_) => CommandOutput::plain(Outcome::Success, LEFT, false),
        Err(_) => CommandOutput::plain(Outcome::NotConnected, NOT_CONNECTED, false),
    }
}

/// The command as it is registered.
pub fn register() -> (command: CommandRegistration)
    ensures
        command@ == CommandRegistrationView::bare(
            "leave"@,
            "Remove Poor Jimmy from the voice channel"@,
        ),
{
    CommandRegistration::bare("leave", "Remove Poor Jimmy from the voice channel")
}

} // verus!
