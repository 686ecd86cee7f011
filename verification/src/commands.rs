//! The commands that a guild can issue, one module each, and what they
//! share.
//!
//! A command that only reads or changes the registry answers in one call.
//! A command that needs the transport answers in two: the first call says
//! what the transport must do, the second takes the transport's answer.

pub mod clear;
pub mod help;
pub mod join;
pub mod leave;
pub mod list;
pub mod looping;
pub mod pause;
pub mod ping;
pub mod play;
pub mod play_title;
pub mod play_url;
pub mod resume;
pub mod skip;

use vstd::prelude::*;

use crate::session::controller::{
    ControlCommand,
    ControlOutcome,
    Decision,
    StreamAction,
    StreamState,
};
use crate::commands::play_url::{description_of, format_description};
use crate::session::queue::Position;
use crate::session::registry::{EnqueueError, RegistryView, SessionRegistry, SessionView};
use crate::session::track::{Track, TrackView, clone_option_text};
use crate::utils::response::{CommandOutput, CommandOutputView};
use crate::utils::result::{CommandResult, CommandResultView, Outcome};

verus! {

/// The type of a command option.
#[derive(Clone, Copy, Debug, PartialEq, Eq, Structural)]
pub enum OptionKind {
    String,
}

/// One option of a slash command, as it is registered.
#[derive(Clone, Copy, Debug, PartialEq, Eq)]
pub struct CommandOption {
    pub name: &'static str,
    pub description: &'static str,
    pub kind: OptionKind,
    pub required: bool,
}

/// The mathematical value of a [`CommandOption`].
pub struct CommandOptionView {
    pub name: Seq<char>,
    pub description: Seq<char>,
    pub kind: OptionKind,
    pub required: bool,
}

impl View for CommandOption {
    type V = CommandOptionView;

    open spec fn view(&self) -> CommandOptionView {
        CommandOptionView {
            name: self.name@,
            description: self.description@,
            kind: self.kind,
            required: self.required,
        }
    }
}

/// A slash command, as it is registered.
#[derive(Debug, PartialEq, Eq)]
pub struct CommandRegistration {
    pub name: &'static str,
    pub description: &'static str,
    pub options: Vec<CommandOption>,
}

/// The mathematical value of a [`CommandRegistration`].
pub struct CommandRegistrationView {
    pub name: Seq<char>,
    pub description: Seq<char>,
    pub options: Seq<CommandOptionView>,
}

impl View for CommandRegistration {
    type V = CommandRegistrationView;

    open spec fn view(&self) -> CommandRegistrationView {
        CommandRegistrationView {
            name: self.name@,
            description: self.description@,
            options: self.options@.map_values(|o: CommandOption| o@),
        }
    }
}

impl CommandRegistrationView {
    /// A command without options.
    pub open spec fn bare(name: Seq<char>, description: Seq<char>) -> CommandRegistrationView {
        CommandRegistrationView { name, description, options: Seq::empty() }
    }

    /// A command with one string option.
    pub open spec fn with_option(
        name: Seq<char>,
        description: Seq<char>,
        option: CommandOptionView,
    ) -> CommandRegistrationView {
        CommandRegistrationView { name, description, options: seq![option] }
    }
}

impl CommandRegistration {
    /// A command without options.
    pub fn bare(name: &'static str, description: &'static str) -> (r: CommandRegistration)
        ensures
            r@ == CommandRegistrationView::bare(name@, description@),
    {
        let r = CommandRegistration { name, description, options: Vec::new() };
        assert(r@.options =~= Seq::<CommandOptionView>::empty());
        r
    }

    /// A command with one option.
    pub fn with_option(name: &'static str, description: &'static str, option: CommandOption) -> (r:
        CommandRegistration)
        ensures
            r@ == CommandRegistrationView::with_option(name@, description@, option@),
    {
        let mut options: Vec<CommandOption> = Vec::new();
        options.push(option);
        let r = CommandRegistration { name, description, options };
        assert(r@.options =~= seq![option@]);
        r
    }
}

/// The value that came with a command option.
#[derive(Debug, PartialEq, Eq)]
pub enum OptionValue {
    String(String),
    /// A value of any other type.
    Other,
}

/// The first step of a command that needs the transport.
#[derive(Debug, PartialEq, Eq)]
pub enum Step {
    /// The command ends here, with this output.
    Respond(CommandOutput),
    /// The transport must do this to the current stream; the command's
    /// second step takes its answer.
    Ask(StreamAction),
}

/// The mathematical value of a [`Step`].
pub enum StepView {
    Respond(CommandOutputView),
    Ask(StreamAction),
}

impl View for Step {
    type V = StepView;

    open spec fn view(&self) -> StepView {
        match self {
            Step::Respond(output) => StepView::Respond(output@),
            Step::Ask(action) => StepView::Ask(*action),
        }
    }
}

/// The first step of a control command: without a session the command
/// fails; without a current track there is nothing to act on; a stream
/// whose state cannot be read fails the command; a stream that is already
/// in the state asked for is reported as such; anything else is asked of
/// the transport.
pub open spec fn begin_view(
    registry: RegistryView,
    guild_id: u64,
    command: ControlCommand,
    observed: Option<StreamState>,
    not_connected: Seq<char>,
    nothing: Seq<char>,
    failed: Seq<char>,
    already: Seq<char>,
) -> StepView {
    match registry.get(guild_id) {
        None => StepView::Respond(
            CommandOutputView::plain(Outcome::NotConnected, not_connected, false),
        ),
        Some(session) => match session.queue.decide(command, observed) {
            Decision::Done(ControlOutcome::NothingToActOn) => StepView::Respond(
                CommandOutputView::plain(Outcome::Empty, nothing, false),
            ),
            Decision::Done(_) => StepView::Respond(
                CommandOutputView::plain(Outcome::Success, already, true),
            ),
            Decision::Act(action) => StepView::Ask(action),
            Decision::Failed(_) => StepView::Respond(
                CommandOutputView::plain(Outcome::Error, failed, false),
            ),
        },
    }
}

/// Takes the first step of a control command and words what it finds.
pub fn begin(
    registry: &SessionRegistry,
    guild_id: u64,
    command: ControlCommand,
    observed: Option<StreamState>,
    not_connected: &str,
    nothing: &str,
    failed: &str,
    already: &str,
) -> (step: Step)
    ensures
        step@ == begin_view(
            registry@,
            guild_id,
            command,
            observed,
            not_connected@,
            nothing@,
            failed@,
            already@,
        ),
{
    match registry.decide(guild_id, command, observed) {
        Err(_) => Step::Respond(CommandOutput::plain(Outcome::NotConnected, not_connected, false)),
        Ok(Decision::Done(ControlOutcome::NothingToActOn)) => Step::Respond(
            CommandOutput::plain(Outcome::Empty, nothing, false),
        ),
        Ok(Decision::Done(_)) => Step::Respond(
            CommandOutput::plain(Outcome::Success, already, true),
        ),
        Ok(Decision::Act(action)) => Step::Ask(action),
        Ok(Decision::Failed(_)) => Step::Respond(
            CommandOutput::plain(Outcome::Error, failed, false),
        ),
    }
}

/// The output of the second step of a control command: an action that the
/// transport rejected fails the command, an accepted one is reported as
/// done.
pub open spec fn finish_view(
    registry: RegistryView,
    guild_id: u64,
    action: StreamAction,
    accepted: bool,
    not_connected: Seq<char>,
    nothing: Seq<char>,
    failed: Seq<char>,
    done: Seq<char>,
    done_buttons: bool,
) -> CommandOutputView {
    match registry.get(guild_id) {
        None => CommandOutputView::plain(Outcome::NotConnected, not_connected, false),
        Some(session) => match session.queue.settle_result(action, accepted) {
            Ok(ControlOutcome::NothingToActOn) => CommandOutputView::plain(
                Outcome::Empty,
                nothing,
                false,
            ),
            Ok(_) => CommandOutputView::plain(Outcome::Success, done, done_buttons),
            Err(_) => CommandOutputView::plain(Outcome::Error, failed, false),
        },
    }
}

/// The registry after the second step of a control command.
pub open spec fn finish_registry(registry: RegistryView, guild_id: u64, action: StreamAction, accepted: bool) -> RegistryView {
    registry.update(guild_id, |s: SessionView| s.settle(action, accepted))
}

/// Takes the second step of a control command: records the transport's
/// answer and words the result.
pub fn finish(
    registry: &mut SessionRegistry,
    guild_id: u64,
    action: StreamAction,
    accepted: bool,
    not_connected: &str,
    nothing: &str,
    failed: &str,
    done: &str,
    done_buttons: bool,
) -> (output: CommandOutput)
    requires
        old(registry).wf(),
    ensures
        final(registry).wf(),
        final(registry)@ == finish_registry(old(registry)@, guild_id, action, accepted),
        output@ == finish_view(
            old(registry)@,
            guild_id,
            action,
            accepted,
            not_connected@,
            nothing@,
            failed@,
            done@,
            done_buttons,
        ),
{
    match registry.settle(guild_id, action, accepted) {
        Err(_) => CommandOutput::plain(Outcome::NotConnected, not_connected, false),
        Ok(Ok(ControlOutcome::NothingToActOn)) => CommandOutput::plain(
            Outcome::Empty,
            nothing,
            false,
        ),
        Ok(Ok(_)) => CommandOutput::plain(Outcome::Success, done, done_buttons),
        Ok(Err(_)) => CommandOutput::plain(Outcome::Error, failed, false),
    }
}

/// What is said when the pending tracks already fill the queue.
pub open spec fn queue_full_text() -> Seq<char> {
    "The queue is **full!**"@
}

/// The output for a reference that was sent to be resolved. A reference
/// that did not resolve fails the command, as does a guild without a
/// session and a queue without room. A track that is taken is announced as
/// playing or as queued; a deferred command shows the playback buttons, and
/// the thumbnail of a track that plays at once.
pub open spec fn resolved_view(
    registry: RegistryView,
    guild_id: u64,
    resolved: Option<TrackView>,
    not_connected: Seq<char>,
    failed: Seq<char>,
    deferred: bool,
) -> CommandOutputView {
    match resolved {
        None => CommandOutputView::plain(Outcome::Error, failed, false),
        Some(track) => match registry.get(guild_id) {
            None => CommandOutputView::plain(Outcome::NotConnected, not_connected, false),
            Some(session) => match session.queue.enqueue_result() {
                Err(_) => CommandOutputView::plain(Outcome::Error, queue_full_text(), false),
                Ok(position) => CommandOutputView {
                    result: CommandResultView::plain(
                        Outcome::Success,
                        description_of(track.display_title(), position == Position::Queued),
                    ),
                    include_buttons: deferred,
                    image: if deferred && position == Position::Current {
                        track.thumbnail
                    } else {
                        None
                    },
                },
            },
        },
    }
}

/// Where the track of a reference that was sent to be resolved landed, if
/// it was taken. Only a track that was taken is handed to the transport.
pub open spec fn resolved_position(registry: RegistryView, guild_id: u64, resolved: Option<TrackView>) -> Option<
    Position,
> {
    match (resolved, registry.get(guild_id)) {
        (Some(_), Some(session)) => match session.queue.enqueue_result() {
            Ok(position) => Some(position),
            Err(_) => None,
        },
        _ => None,
    }
}

/// The registry after a reference was sent to be resolved.
pub open spec fn resolved_registry(registry: RegistryView, guild_id: u64, resolved: Option<TrackView>) -> RegistryView {
    match resolved {
        None => registry,
        Some(track) => registry.update(guild_id, |s: SessionView| s.enqueue(track)),
    }
}

/// The view of an optional track.
pub open spec fn option_track_view(track: Option<Track>) -> Option<TrackView> {
    match track {
        Some(t) => Some(t@),
        None => None,
    }
}

/// Takes the outcome of resolving a reference: a track, or `None` where
/// the reference did not resolve. The track is enqueued for `guild_id`, and
/// the output says whether it plays at once or waits. The second part of
/// the result is where the track landed; the transport gets the stream of a
/// track that landed, and of no other.
pub fn take_resolved(
    registry: &mut SessionRegistry,
    guild_id: u64,
    resolved: Option<Track>,
    not_connected: &str,
    failed: &str,
    deferred: bool,
) -> (r: (CommandOutput, Option<Position>))
    requires
        old(registry).wf(),
    ensures
        final(registry).wf(),
        final(registry)@ == resolved_registry(old(registry)@, guild_id, option_track_view(resolved)),
        r.1 == resolved_position(old(registry)@, guild_id, option_track_view(resolved)),
        r.0@ == resolved_view(
            old(registry)@,
            guild_id,
            option_track_view(resolved),
            not_connected@,
            failed@,
            deferred,
        ),
{
    let track = match resolved {
        None => {
            return (CommandOutput::plain(Outcome::Error, failed, false), None);
        },
        Some(track) => track,
    };
    let title = track.display_title();
    let thumbnail = clone_option_text(&track.thumbnail);
    match registry.enqueue(guild_id, track) {
        Err(EnqueueError::NotConnected) => (
            CommandOutput::plain(Outcome::NotConnected, not_connected, false),
            None,
        ),
        Err(EnqueueError::QueueFull) => (
            CommandOutput::plain(Outcome::Error, "The queue is **full!**", false),
            None,
        ),
        Ok(position) => {
            let should_enqueue = matches!(position, Position::Queued);
            let image = if deferred && !should_enqueue {
                thumbnail
            } else {
                None
            };
            (
                CommandOutput {
                    result: CommandResult {
                        outcome: Outcome::Success,
                        message: format_description(title, should_enqueue),
                        queued_count: None,
                    },
                    include_buttons: deferred,
                    image,
                },
                Some(position),
            )
        },
    }
}

/// The view of an optional option value.
pub open spec fn option_value_text(value: Option<&OptionValue>) -> Option<Option<Seq<char>>> {
    match value {
        None => None,
        Some(OptionValue::String(text)) => Some(Some(text@)),
        Some(OptionValue::Other) => Some(None),
    }
}

/// What a command makes of the value of its one option: the text, or the
/// output that says what is wrong.
pub open spec fn text_option_view(value: Option<Option<Seq<char>>>, missing: Seq<char>, invalid: Seq<char>) -> Result<
    Seq<char>,
    CommandOutputView,
> {
    match value {
        None => Err(CommandOutputView::plain(Outcome::Error, missing, false)),
        Some(None) => Err(CommandOutputView::plain(Outcome::Error, invalid, false)),
        Some(Some(text)) => Ok(text),
    }
}

/// The view of a text or an output.
pub open spec fn text_or_output_view(r: Result<String, CommandOutput>) -> Result<Seq<char>, CommandOutputView> {
    match r {
        Ok(text) => Ok(text@),
        Err(output) => Err(output@),
    }
}

/// Reads the text of a command's one option. An option that was not given
/// and a value that is no text each end the command with their own
/// message.
pub fn text_option(value: Option<&OptionValue>, missing: &str, invalid: &str) -> (r: Result<
    String,
    CommandOutput,
>)
    ensures
        text_or_output_view(r) == text_option_view(option_value_text(value), missing@, invalid@),
{
    match value {
        None => Err(CommandOutput::plain(Outcome::Error, missing, false)),
        Some(OptionValue::String(text)) => Ok(text.clone()),
        Some(OptionValue::Other) => Err(CommandOutput::plain(Outcome::Error, invalid, false)),
    }
}

} // verus!
