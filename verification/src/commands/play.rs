//! `/play`: play or queue a video, a playlist, or the best match of a
//! search.
//!
//! `run` reads the option and tells the two forms of the command apart.
//! A search goes through `play_search` and `track_resolved`. An address
//! goes through `play_url`, which tells a playlist from a single video; a
//! single video ends in `track_resolved`, a playlist in `queue_playlist`,
//! the pipeline that it starts, and `playlist_queued`.

use vstd::prelude::*;

use crate::commands::{
    CommandOption,
    CommandOptionView,
    CommandRegistration,
    CommandRegistrationView,
    OptionKind,
    OptionValue,
    option_track_view,
    resolved_position,
    resolved_registry,
    resolved_view,
    take_resolved,
};
use crate::commands::play_url::option_output_view;
use crate::session::ingestion::{
    PLAYLIST_ENTRY_PATTERN,
    PipelineView,
    PlaylistIngestionPipeline,
    ResolutionError,
    references_of,
    regex_group_matches,
    started,
};
use crate::session::notification::{Notification, NotificationView};
use crate::session::queue::Position;
use crate::session::registry::{RegistryView, SessionRegistry};
use crate::session::track::Track;
use crate::utils::response::{CommandOutput, CommandOutputView};
use crate::utils::result::{CommandResult, CommandResultView, Outcome};
use crate::utils::text::{contains, contains_text, same_text};

verus! {

/// Said where no option came with the command, or an option without value.
pub const MISSING: &'static str = "Provide a valid value to the **url** or **search** option!";

/// Said where the value given is no text.
pub const INVALID: &'static str = "Please provide a valid Youtube URL or search!";

/// Said where the address is none of the video site.
pub const NOT_A_VIDEO: &'static str = "Please provide a valid Youtube URL";

/// Said where the playlist cannot be expanded.
pub const PLAYLIST_FAILED: &'static str = "Error queueing playlist";

/// Said where the address or the search does not resolve to a stream.
pub const FAILED: &'static str = "Error playing song";

/// Said where the guild has no session.
pub const NOT_CONNECTED: &'static str =
    "Error playing song! Ensure Poor Jimmy is in a voice channel with **/join**";

/// The option that came with a command.
#[derive(Debug, PartialEq, Eq)]
pub struct CommandOptionInput {
    pub name: String,
    /// The value, once it is resolved.
    pub resolved: Option<OptionValue>,
}

/// Which form of the command was issued.
#[derive(Debug, PartialEq, Eq)]
pub enum PlayRoute {
    /// The command ends here, with this output.
    Respond(CommandOutput),
    /// Play what the address names.
    Url(String),
    /// Play the best match of the search.
    Search(String),
    /// The option has a name that the command does not know. Nothing is
    /// said; the name is worth a line in the error log.
    Unknown(String),
}

/// The mathematical value of a [`PlayRoute`].
pub enum PlayRouteView {
    Respond(CommandOutputView),
    Url(Seq<char>),
    Search(Seq<char>),
    Unknown(Seq<char>),
}

impl View for PlayRoute {
    type V = PlayRouteView;

    open spec fn view(&self) -> PlayRouteView {
        match self {
            PlayRoute::Respond(output) => PlayRouteView::Respond(output@),
            PlayRoute::Url(url) => PlayRouteView::Url(url@),
            PlayRoute::Search(search) => PlayRouteView::Search(search@),
            PlayRoute::Unknown(name) => PlayRouteView::Unknown(name@),
        }
    }
}

/// The route that an option stands for.
pub open spec fn route_of(option: Option<&CommandOptionInput>) -> PlayRouteView {
    match option {
        None => PlayRouteView::Respond(CommandOutputView::plain(Outcome::Error, MISSING@, false)),
        Some(given) => match given.resolved {
            None => PlayRouteView::Respond(
                CommandOutputView::plain(Outcome::Error, MISSING@, false),
            ),
            Some(OptionValue::Other) => PlayRouteView::Respond(
                CommandOutputView::plain(Outcome::Error, INVALID@, false),
            ),
            Some(OptionValue::String(text)) => if given.name@ == "url"@ {
                PlayRouteView::Url(text@)
            } else if given.name@ == "search"@ {
                PlayRouteView::Search(text@)
            } else {
                PlayRouteView::Unknown(given.name@)
            },
        },
    }
}

/// Reads the first option of the command and branches on its name.
pub fn run(command_option: Option<&CommandOptionInput>) -> (route: PlayRoute)
    ensures
        route@ == route_of(command_option),
{
    // Grab the option
    let option = match command_option {
        Some(option) => option,
        None => {
            return PlayRoute::Respond(CommandOutput::plain(Outcome::Error, MISSING, false));
        },
    };
    // Grab the option value and validate that it is a string
    let string_option = match &option.resolved {
        Some(OptionValue::String(text)) => text.clone(),
        Some(OptionValue::Other) => {
            return PlayRoute::Respond(CommandOutput::plain(Outcome::Error, INVALID, false));
        },
        None => {
            return PlayRoute::Respond(CommandOutput::plain(Outcome::Error, MISSING, false));
        },
    };
    // Branch depending on the option's name
    if same_text(option.name.as_str(), "url") {
        PlayRoute::Url(string_option)
    } else if same_text(option.name.as_str(), "search") {
        PlayRoute::Search(string_option)
    } else {
        PlayRoute::Unknown(option.name.clone())
    }
}

/// The command as it is registered: one option for each of its two forms.
pub open spec fn registration() -> CommandRegistrationView {
    CommandRegistrationView {
        name: "play"@,
        description: "Play the audio from a Youtube video or playlist"@,
        options: seq![
            CommandOptionView {
                name: "url"@,
                description: "A Youtube URL"@,
                kind: OptionKind::String,
                required: false,
            },
            CommandOptionView {
                name: "search"@,
                description: "Search for a Youtube video by matching its title"@,
                kind: OptionKind::String,
                required: false,
            },
        ],
    }
}

/// The command as it is registered.
pub fn register() -> (command: CommandRegistration)
    ensures
        command@ == registration(),
{
    let mut options: Vec<CommandOption> = Vec::new();
    options.push(
        CommandOption {
            name: "url",
            description: "A Youtube URL",
            kind: OptionKind::String,
            required: false,
        },
    );
    options.push(
        CommandOption {
            name: "search",
            description: "Search for a Youtube video by matching its title",
            kind: OptionKind::String,
            required: false,
        },
    );
    let command = CommandRegistration {
        name: "play",
        description: "Play the audio from a Youtube video or playlist",
        options,
    };
    assert(command@.options =~= registration().options);
    command
}

/// What to do about an address.
#[derive(Debug, PartialEq, Eq)]
pub enum UrlPlan {
    /// The command ends here, with this output.
    Respond(CommandOutput),
    /// The address names a playlist: have it listed, and hand the listing
    /// to `queue_playlist`.
    ExpandPlaylist,
    /// The address names one video: have it resolved, and hand the outcome
    /// to `track_resolved`.
    ResolveTrack,
}

/// The mathematical value of a [`UrlPlan`].
pub enum UrlPlanView {
    Respond(CommandOutputView),
    ExpandPlaylist,
    ResolveTrack,
}

impl View for UrlPlan {
    type V = UrlPlanView;

    open spec fn view(&self) -> UrlPlanView {
        match self {
            UrlPlan::Respond(output) => UrlPlanView::Respond(output@),
            UrlPlan::ExpandPlaylist => UrlPlanView::ExpandPlaylist,
            UrlPlan::ResolveTrack => UrlPlanView::ResolveTrack,
        }
    }
}

/// An address of the video site or of its share domain.
pub open spec fn youtube_url(url: Seq<char>) -> bool {
    contains_text(url, "youtube.com"@) || contains_text(url, "youtu.be"@)
}

/// The plan for an address: an address of another site is refused, then a
/// guild without a session; after that a playlist is told from a video.
pub open spec fn url_plan(registry: RegistryView, guild_id: u64, url: Seq<char>) -> UrlPlanView {
    if !youtube_url(url) {
        UrlPlanView::Respond(CommandOutputView::plain(Outcome::Error, NOT_A_VIDEO@, false))
    } else if !registry.sessions.contains_key(guild_id) {
        UrlPlanView::Respond(
            CommandOutputView::plain(Outcome::NotConnected, NOT_CONNECTED@, false),
        )
    } else if contains_text(url, "/playlist"@) {
        UrlPlanView::ExpandPlaylist
    } else {
        UrlPlanView::ResolveTrack
    }
}

/// Decides what to do about `url`.
pub fn play_url(registry: &SessionRegistry, guild_id: u64, url: &str) -> (plan: UrlPlan)
    ensures
        plan@ == url_plan(registry@, guild_id, url@),
{
    // Validate it is an address of the video site
    if !contains(url, "youtube.com") && !contains(url, "youtu.be") {
        return UrlPlan::Respond(CommandOutput::plain(Outcome::Error, NOT_A_VIDEO, false));
    }
    // Look for the session of the command's guild
    if !registry.contains(guild_id) {
        return UrlPlan::Respond(
            CommandOutput::plain(Outcome::NotConnected, NOT_CONNECTED, false),
        );
    }
    if contains(url, "/playlist") {
        UrlPlan::ExpandPlaylist
    } else {
        UrlPlan::ResolveTrack
    }
}

/// The view of the start of a playlist.
pub open spec fn playlist_start_view(r: Result<(PlaylistIngestionPipeline, Notification), CommandOutput>) -> Result<
    (PipelineView, NotificationView),
    CommandOutputView,
> {
    match r {
        Ok((pipeline, notification)) => Ok((pipeline@, notification@)),
        Err(output) => Err(output@),
    }
}

/// What the start of a playlist gives, for what the expansion gave.
pub open spec fn playlist_started(started: Result<(PipelineView, NotificationView), ResolutionError>) -> Result<
    (PipelineView, NotificationView),
    CommandOutputView,
> {
    match started {
        Ok(pair) => Ok(pair),
        Err(_) => Err(CommandOutputView::plain(Outcome::Error, PLAYLIST_FAILED@, false)),
    }
}

/// Starts the ingestion of a playlist from its listing; `None` stands for
/// a listing that could not be had. Where the listing cannot be expanded
/// the command fails and nothing is queued. Otherwise the notice that comes
/// with the pipeline is to be sent at once, before any entry is resolved.
pub fn queue_playlist(guild_id: u64, listing: Option<&str>) -> (r: Result<
    (PlaylistIngestionPipeline, Notification),
    CommandOutput,
>)
    ensures
        playlist_start_view(r) == playlist_started(
            started(
                guild_id,
                match listing {
                    None => Err(ResolutionError),
                    Some(text) => references_of(
                        regex_group_matches(PLAYLIST_ENTRY_PATTERN@, 1, text@),
                    ),
                },
            ),
        ),
        r matches Ok((pipeline, _)) ==> pipeline.wf(),
{
    match PlaylistIngestionPipeline::start(guild_id, listing) {
        Ok(pair) => Ok(pair),
        Err(_) => Err(CommandOutput::plain(Outcome::Error, PLAYLIST_FAILED, false)),
    }
}

/// The result of a playlist that was worked through: a success that counts
/// the tracks queued, and says so in the words of the summary.
pub fn playlist_queued(pipeline: &PlaylistIngestionPipeline) -> (result: CommandResult)
    ensures
        result@ == (CommandResultView {
            outcome: Outcome::Success,
            message: NotificationView::QueueingSummary(pipeline@.queued as u64).message(),
            queued_count: Some(pipeline@.queued as u64),
        }),
{
    CommandResult {
        outcome: Outcome::Success,
        message: pipeline.summary().message(),
        queued_count: Some(pipeline.queued()),
    }
}

/// What stands in the way of a search, if anything: a guild without a
/// session.
pub open spec fn play_search_view(registry: RegistryView, guild_id: u64) -> Option<CommandOutputView> {
    if !registry.sessions.contains_key(guild_id) {
        Some(CommandOutputView::plain(Outcome::NotConnected, NOT_CONNECTED@, false))
    } else {
        None
    }
}

/// Decides whether the search is made: `None` says that it is, an output
/// says why it is not.
pub fn play_search(registry: &SessionRegistry, guild_id: u64) -> (refusal: Option<CommandOutput>)
    ensures
        option_output_view(refusal) == play_search_view(registry@, guild_id),
{
    if !registry.contains(guild_id) {
        return Some(CommandOutput::plain(Outcome::NotConnected, NOT_CONNECTED, false));
    }
    None
}

/// Takes what the transport made of an address or a search: a track, or
/// `None` where nothing resolved. The second part of the result is where
/// the track landed, if it was taken.
pub fn track_resolved(registry: &mut SessionRegistry, guild_id: u64, resolved: Option<Track>) -> (r: (
    CommandOutput,
    Option<Position>,
))
    requires
        old(registry).wf(),
    ensures
        final(registry).wf(),
        final(registry)@ == resolved_registry(old(registry)@, guild_id, option_track_view(resolved)),
        r.1 == resolved_position(old(registry)@, guild_id, option_track_view(resolved)),
        r.0@ == resolved_view(
            old(registry)@,
            guild_id,
            option_track_view(resolved),
            NOT_CONNECTED@,
            FAILED@,
            false,
        ),
{
    take_resolved(registry, guild_id, resolved, NOT_CONNECTED, FAILED, false)
}

} // verus!
