//! `/join`: summon the bot to the voice channel of the one who asks.

use vstd::prelude::*;

use crate::commands::{CommandRegistration, CommandRegistrationView};
use crate::session::registry::{JoinError, RegistryView, SessionRegistry};
use crate::utils::result::{Color, CommandResponse, CommandResponseView, DARK_GREEN, DARK_RED};

verus! {

/// Said where the guild is unknown or the transport cannot connect.
pub const FAILED: &'static str = "Error joining voice channel";

/// Said where the one who asks is in no voice channel.
pub const NO_CHANNEL: &'static str = "You're not in a voice channel!";

/// Said once the session stands.
pub const JOINED: &'static str = "Poor Jimmy joined the voice channel";

/// What joining says: a guild that is not known fails before anything else
/// is looked at; then the join speaks.
pub open spec fn join_view(guild_known: bool, voice_channel: Option<u64>, connected: bool) -> CommandResponseView {
    if !guild_known {
        CommandResponseView { description: FAILED@, color: Color(DARK_RED) }
    } else {
        match RegistryView::join_result(voice_channel, connected) {
            Ok(_) => CommandResponseView { description: JOINED@, color: Color(DARK_GREEN) },
            Err(JoinError::NoSuchChannel) => CommandResponseView {
                description: NO_CHANNEL@,
                color: Color(DARK_RED),
            },
            Err(JoinError::ConnectionError) => CommandResponseView {
                description: FAILED@,
                color: Color(DARK_RED),
            },
        }
    }
}

/// The registry after joining.
pub open spec fn join_registry(
    registry: RegistryView,
    guild_id: u64,
    guild_known: bool,
    voice_channel: Option<u64>,
    connected: bool,
    text_channel: u64,
) -> RegistryView {
    if guild_known {
        registry.join(guild_id, voice_channel, connected, text_channel)
    } else {
        registry
    }
}

/// Joins a voice channel.
///
/// 1. `guild_known` is whether the guild was found; without it nothing can
///    be joined.
/// 2. `voice_channel` is the voice channel of the one who asks, if any.
/// 3. `connected` is whether the transport connected to that channel.
/// 4. On success the guild has a session whose one subscription to track
///    completions reports to `text_channel`; an older subscription is gone.
pub fn run(
    registry: &mut SessionRegistry,
    guild_id: u64,
    guild_known: bool,
    voice_channel: Option<u64>,
    connected: bool,
    text_channel: u64,
) -> (response: CommandResponse)
    requires
        old(registry).wf(),
    ensures
        final(registry).wf(),
        final(registry)@ == join_registry(
            old(registry)@,
            guild_id,
            guild_known,
            voice_channel,
            connected,
            text_channel,
        ),
        response@ == join_view(guild_known, voice_channel, connected),
{
    if !guild_known {
        return CommandResponse::new().description(FAILED.to_owned()).color(
            Color::dark_red(),
        ).clone();
    }
    match registry.join(guild_id, voice_channel, connected, text_channel) {
        Ok(_) => CommandResponse::new().description(JOINED.to_owned()).color(
            Color::dark_green(),
        ).clone(),
        Err(JoinError::NoSuchChannel) => CommandResponse::new().description(
            NO_CHANNEL.to_owned(),
        ).color(Color::dark_red()).clone(),
        Err(JoinError::ConnectionError) => CommandResponse::new().description(
            FAILED.to_owned(),
        ).color(Color::dark_red()).clone(),
    }
}

/// The command as it is registered.
pub fn register() -> (command: CommandRegistration)
    ensures
        command@ == CommandRegistrationView::bare(
            "join"@,
            "Summon Poor Jimmy to your voice channel"@,
        ),
{
    CommandRegistration::bare("join", "Summon Poor Jimmy to your voice channel")
}

} // verus!
