//! `/play-url`: play or queue the audio of a video address.
//!
//! The command is deferred, so its responses are follow-ups. It takes three
//! steps: `run` reads the address, `play_url` decides whether it is worth
//! resolving, and `track_resolved` takes what the transport made of it.

use vstd::prelude::*;
use vstd::string::StringExecFns;

use crate::commands::{
    CommandOption,
    CommandOptionView,
    CommandRegistration,
    CommandRegistrationView,
    OptionKind,
    OptionValue,
    option_track_view,
    option_value_text,
    resolved_position,
    resolved_registry,
    resolved_view,
    take_resolved,
    text_option,
    text_option_view,
    text_or_output_view,
};
use crate::session::queue::Position;
use crate::session::registry::{RegistryView, SessionRegistry};
use crate::session::track::Track;
use crate::utils::response::{CommandOutput, CommandOutputView};
use crate::utils::result::Outcome;
use crate::utils::text::{contains, contains_text};

verus! {

/// Said where no address was given.
pub const MISSING: &'static str = "Please provide a URL to play!";

/// Said where the value given is no text.
pub const INVALID: &'static str = "Please provide a valid URL!";

/// Said where the address names no single video.
pub const NOT_A_VIDEO: &'static str = "Please provide a valid **/watch** Youtube URL";

/// Said where the address does not resolve to a stream.
pub const FAILED: &'static str = "Error playing song";

/// Said where the guild has no session.
pub const NOT_CONNECTED: &'static str =
    "Error playing song! Ensure Poor Jimmy is in a voice channel with **/join**";

/// Reads the address that came with the command.
pub fn run(value: Option<&OptionValue>) -> (r: Result<String, CommandOutput>)
    ensures
        text_or_output_view(r) == text_option_view(option_value_text(value), MISSING@, INVALID@),
{
    text_option(value, MISSING, INVALID)
}

/// The command as it is registered: with its one option, which is
/// required.
pub open spec fn registration() -> CommandRegistrationView {
    CommandRegistrationView::with_option(
        "play-url"@,
        "Play the audio from a Youtube video or playlist URL"@,
        CommandOptionView {
            name: "url"@,
            description: "A Youtube video/playlist URL"@,
            kind: OptionKind::String,
            required: true,
        },
    )
}

/// The command as it is registered.
pub fn register() -> (command: CommandRegistration)
    ensures
        command@ == registration(),
{
    CommandRegistration::with_option(
        "play-url",
        "Play the audio from a Youtube video or playlist URL",
        CommandOption {
            name: "url",
            description: "A Youtube video/playlist URL",
            kind: OptionKind::String,
            required: true,
        },
    )
}

/// What stands in the way of resolving `url`, if anything: an address that
/// names no single video, then a guild without a session.
pub open spec fn play_url_view(registry: RegistryView, guild_id: u64, url: Seq<char>) -> Option<
    CommandOutputView,
> {
    if !valid_youtube_url(url) {
        Some(CommandOutputView::plain(Outcome::Error, NOT_A_VIDEO@, false))
    } else if !registry.sessions.contains_key(guild_id) {
        Some(CommandOutputView::plain(Outcome::NotConnected, NOT_CONNECTED@, false))
    } else {
        None
    }
}

/// The view of an optional output.
pub open spec fn option_output_view(output: Option<CommandOutput>) -> Option<CommandOutputView> {
    match output {
        Some(o) => Some(o@),
        None => None,
    }
}

/// Decides whether `url` is sent to be resolved: `None` says that it is,
/// an output says why it is not.
pub fn play_url(registry: &SessionRegistry, guild_id: u64, url: &String) -> (refusal: Option<
    CommandOutput,
>)
    ensures
        option_output_view(refusal) == play_url_view(registry@, guild_id, url@),
{
    // Validate it is a valid video address
    if !is_valid_youtube_url(url) {
        return Some(CommandOutput::plain(Outcome::Error, NOT_A_VIDEO, false));
    }
    // Look for the session of the command's guild
    if !registry.contains(guild_id) {
        return Some(CommandOutput::plain(Outcome::NotConnected, NOT_CONNECTED, false));
    }
    None
}

/// Takes what the transport made of the address: a track, or `None` where
/// it did not resolve. A track that plays at once shows its thumbnail. The
/// second part of the result is where the track landed, if it was taken.
pub fn track_resolved(registry: &mut SessionRegistry, guild_id: u64, resolved: Option<Track>) -> (r: (
    CommandOutput,
    Option<Position>,
))
    requires
        old(registry).wf(),
    ensures
        final(registry).wf(),
        final(registry)@ == resolved_registry(old(registry)@, guild_id, option_track_view(resolved)),
        r.1 == resolved_position(old(registry)@, guild_id, option_track_view(resolved)),
        r.0@ == resolved_view(
            old(registry)@,
            guild_id,
            option_track_view(resolved),
            NOT_CONNECTED@,
            FAILED@,
            true,
        ),
{
    take_resolved(registry, guild_id, resolved, NOT_CONNECTED, FAILED, true)
}

/// The response to a track that was taken: queued behind the current track,
/// or playing at once.
pub open spec fn description_of(source_title: Seq<char>, should_enqueue: bool) -> Seq<char> {
    if should_enqueue {
        "**Queued** "@ + source_title + "!"@
    } else {
        "**Playing** "@ + source_title + "!"@
    }
}

/// Words the response to a track that was taken.
pub fn format_description(source_title: String, should_enqueue: bool) -> (description: String)
    ensures
        description@ == description_of(source_title@, should_enqueue),
{
    if should_enqueue {
        String::from_str("**Queued** ").concat(source_title.as_str()).concat("!")
    } else {
        String::from_str("**Playing** ").concat(source_title.as_str()).concat("!")
    }
}

/// An address that names a single video: a watch page of the video site,
/// or a link of its share domain.
pub open spec fn valid_youtube_url(url: Seq<char>) -> bool {
    (contains_text(url, "youtube.com"@) && contains_text(url, "/watch"@)) || contains_text(
        url,
        "youtu.be"@,
    )
}

/// Whether `url` names a single video.
pub fn is_valid_youtube_url(url: &String) -> (valid: bool)
    ensures
        valid == valid_youtube_url(url@),
{
    (contains(url.as_str(), "youtube.com") && contains(url.as_str(), "/watch")) || contains(
        url.as_str(),
        "youtu.be",
    )
}

} // verus!
