//! `/clear`: stop the current track and empty the queue.

use vstd::prelude::*;

use crate::commands::{CommandRegistration, CommandRegistrationView};
use crate::session::queue::Cleared;
use crate::session::registry::{RegistryView, SessionRegistry, SessionView};
use crate::utils::response::{CommandOutput, CommandOutputView};
use crate::utils::result::Outcome;

verus! {

/// Said where the guild has no session.
pub const NOT_CONNECTED: &'static str =
    "Error clearing queue! Ensure Poor Jimmy is in a voice channel with **/join**";

/// Said where the queue holds nothing.
pub const NOTHING: &'static str = "There is nothing to clear!";

/// Said once the queue is empty.
pub const CLEARED: &'static str = "Queue **cleared!**";

/// What clearing says: clearing an empty queue is no error, and says that
/// there was nothing to clear.
pub open spec fn clear_view(registry: RegistryView, guild_id: u64) -> CommandOutputView {
    match registry.get(guild_id) {
        None => CommandOutputView::plain(Outcome::NotConnected, NOT_CONNECTED@, false),
        Some(session) => if session.queue.tracks.len() == 0 {
            CommandOutputView::plain(Outcome::Empty, NOTHING@, false)
        } else {
            CommandOutputView::plain(Outcome::Success, CLEARED@, false)
        },
    }
}

/// What clearing asks of the transport: to stop playback, where there was
/// anything to clear.
pub open spec fn clear_request(registry: RegistryView, guild_id: u64) -> Cleared {
    match registry.get(guild_id) {
        Some(session) if session.queue.tracks.len() > 0 => Cleared::Stopped,
        _ => Cleared::Nothing,
    }
}

/// Clears the queue of `guild_id`, the current track included. The second
/// part of the result tells whether the transport must stop playback.
pub fn run(registry: &mut SessionRegistry, guild_id: u64) -> (r: (CommandOutput, Cleared))
    requires
        old(registry).wf(),
    ensures
        final(registry).wf(),
        final(registry)@ == old(registry)@.update(guild_id, |s: SessionView| s.clear()),
        r.0@ == clear_view(old(registry)@, guild_id),
        r.1 == clear_request(old(registry)@, guild_id),
{
    match registry.clear(guild_id) {
        Err(_) => (
            CommandOutput::plain(Outcome::NotConnected, NOT_CONNECTED, false),
            Cleared::Nothing,
        ),
        Ok(Cleared::Nothing) => (
            CommandOutput::plain(Outcome::Empty, NOTHING, false),
            Cleared::Nothing,
        ),
        Ok(Cleared::Stopped) => (
            CommandOutput::plain(Outcome::Success, CLEARED, false),
            Cleared::Stopped,
        ),
    }
}

/// Clears the queue of `guild_id` where the button was pressed for it.
pub fn handle_button(registry: &mut SessionRegistry, guild_id: u64) -> (r: (CommandOutput, Cleared))
    requires
        old(registry).wf(),
    ensures
        final(registry).wf(),
        final(registry)@ == old(registry)@.update(guild_id, |s: SessionView| s.clear()),
        r.0@ == clear_view(old(registry)@, guild_id),
        r.1 == clear_request(old(registry)@, guild_id),
{
    run(registry, guild_id)
}

/// Clearing twice is clearing once: the second clear finds nothing, says
/// so, and is no error.
pub proof fn lemma_clear_is_idempotent(registry: RegistryView, guild_id: u64)
    requires
        registry.sessions.contains_key(guild_id),
    ensures
        ({
            let once = registry.update(guild_id, |s: SessionView| s.clear());
            let twice = once.update(guild_id, |s: SessionView| s.clear());
            &&& twice == once
            &&& clear_view(once, guild_id) == CommandOutputView::plain(
                Outcome::Empty,
                NOTHING@,
                false,
            )
            &&& clear_request(once, guild_id) == Cleared::Nothing
            &&& !clear_view(once, guild_id).result.outcome.is_failure()
        }),
{
    let once = registry.update(guild_id, |s: SessionView| s.clear());
    let twice = once.update(guild_id, |s: SessionView| s.clear());
    assert(twice.sessions =~= once.sessions);
}

/// The command as it is registered.
pub fn register() -> (command: CommandRegistration)
    ensures
        command@ == CommandRegistrationView::bare(
            "clear"@,
            "Stop the current song and clear the queue"@,
        ),
{
    CommandRegistration::bare("clear", "Stop the current song and clear the queue")
}

} // verus!
