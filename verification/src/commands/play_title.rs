//! `/play-title`: play or queue the video that best matches a title.
//!
//! The command is deferred, so its responses are follow-ups. It takes three
//! steps: `run` reads the title, `play_title` decides whether a search is
//! worth making, and `track_resolved` takes what the transport found.

use vstd::prelude::*;

use crate::commands::{
    CommandOption,
    CommandOptionView,
    CommandRegistration,
    CommandRegistrationView,
    OptionKind,
    OptionValue,
    option_track_view,
    option_value_text,
    resolved_position,
    resolved_registry,
    resolved_view,
    take_resolved,
    text_option,
    text_option_view,
    text_or_output_view,
};
use crate::commands::play_url::option_output_view;
use crate::session::queue::Position;
use crate::session::registry::{RegistryView, SessionRegistry};
use crate::session::track::Track;
use crate::utils::response::{CommandOutput, CommandOutputView};
use crate::utils::result::Outcome;

verus! {

/// Said where no title was given.
pub const MISSING: &'static str = "Please provide a title to search!";

/// Said where the value given is no text.
pub const INVALID: &'static str = "Please provide a valid title!";

/// Said where the search finds no stream.
pub const FAILED: &'static str = "Error playing song!";

/// Said where the guild has no session.
pub const NOT_CONNECTED: &'static str =
    "Error playing song! Ensure Poor Jimmy is in a voice channel with **/join**";

/// Reads the title that came with the command.
pub fn run(value: Option<&OptionValue>) -> (r: Result<String, CommandOutput>)
    ensures
        text_or_output_view(r) == text_option_view(option_value_text(value), MISSING@, INVALID@),
{
    text_option(value, MISSING, INVALID)
}

/// The command as it is registered: with its one option, which is
/// required.
pub open spec fn registration() -> CommandRegistrationView {
    CommandRegistrationView::with_option(
        "play-title"@,
        "Play the audio from a Youtube video searching by title"@,
        CommandOptionView {
            name: "title"@,
            description: "A Youtube video title"@,
            kind: OptionKind::String,
            required: true,
        },
    )
}

/// The command as it is registered.
pub fn register() -> (command: CommandRegistration)
    ensures
        command@ == registration(),
{
    CommandRegistration::with_option(
        "play-title",
        "Play the audio from a Youtube video searching by title",
        CommandOption {
            name: "title",
            description: "A Youtube video title",
            kind: OptionKind::String,
            required: true,
        },
    )
}

/// What stands in the way of a search, if anything: a guild without a
/// session.
pub open spec fn play_title_view(registry: RegistryView, guild_id: u64) -> Option<CommandOutputView> {
    if !registry.sessions.contains_key(guild_id) {
        Some(CommandOutputView::plain(Outcome::NotConnected, NOT_CONNECTED@, false))
    } else {
        None
    }
}

/// Decides whether the search is made: `None` says that it is, an output
/// says why it is not.
pub fn play_title(registry: &SessionRegistry, guild_id: u64) -> (refusal: Option<CommandOutput>)
    ensures
        option_output_view(refusal) == play_title_view(registry@, guild_id),
{
    if !registry.contains(guild_id) {
        return Some(CommandOutput::plain(Outcome::NotConnected, NOT_CONNECTED, false));
    }
    None
}

/// Takes what the search found: a track, or `None` where it found none. A
/// track that plays at once shows its thumbnail. The second part of the
/// result is where the track landed, if it was taken.
pub fn track_resolved(registry: &mut SessionRegistry, guild_id: u64, resolved: Option<Track>) -> (r: (
    CommandOutput,
    Option<Position>,
))
    requires
        old(registry).wf(),
    ensures
        final(registry).wf(),
        final(registry)@ == resolved_registry(old(registry)@, guild_id, option_track_view(resolved)),
        r.1 == resolved_position(old(registry)@, guild_id, option_track_view(resolved)),
        r.0@ == resolved_view(
            old(registry)@,
            guild_id,
            option_track_view(resolved),
            NOT_CONNECTED@,
            FAILED@,
            true,
        ),
{
    take_resolved(registry, guild_id, resolved, NOT_CONNECTED, FAILED, true)
}

} // verus!
