//! The primary handler of the bot: which command an interaction is for, and
//! what the bot registers once it is connected.

use vstd::prelude::*;

use crate::commands;
use crate::commands::{CommandRegistration, CommandRegistrationView};
use crate::utils::result::{Color, CommandResponse, CommandResponseView, DARK_RED};
use crate::utils::text::same_text;

verus! {

/// Said to a command that the bot does not know.
pub const UNKNOWN_COMMAND: &'static str = "Unknown command!";

/// What the bot shows itself listening to.
pub const ACTIVITY: &'static str = "/play";

/// A slash command that the bot serves.
#[derive(Clone, Copy, Debug, PartialEq, Eq, Structural)]
pub enum SlashCommand {
    Clear,
    Help,
    Join,
    Leave,
    List,
    Loop,
    Pause,
    Ping,
    Play,
    PlayTitle,
    PlayUrl,
    Skip,
    Resume,
}

impl SlashCommand {
    /// Whether the command answers the interaction itself. Queueing a
    /// playlist may take long, so `play` answers on its own, and more than
    /// once; the other two play commands defer their answer until the
    /// track is resolved.
    pub open spec fn responds_itself(self) -> bool {
        self == SlashCommand::Play || self == SlashCommand::PlayTitle || self
            == SlashCommand::PlayUrl
    }

    /// Whether the command answers the interaction itself.
    pub fn answers_itself(self) -> (own: bool)
        ensures
            own == self.responds_itself(),
    {
        matches!(self, SlashCommand::Play | SlashCommand::PlayTitle | SlashCommand::PlayUrl)
    }
}

/// A press of one of the playback buttons.
#[derive(Clone, Copy, Debug, PartialEq, Eq, Structural)]
pub enum ButtonPress {
    Clear,
    Resume,
    Pause,
    Skip,
    Loop,
}

/// The command that goes by `name`.
pub open spec fn command_named(name: Seq<char>) -> Option<SlashCommand> {
    if name == "clear"@ {
        Some(SlashCommand::Clear)
    } else if name == "help"@ {
        Some(SlashCommand::Help)
    } else if name == "join"@ {
        Some(SlashCommand::Join)
    } else if name == "leave"@ {
        Some(SlashCommand::Leave)
    } else if name == "list"@ {
        Some(SlashCommand::List)
    } else if name == "loop"@ {
        Some(SlashCommand::Loop)
    } else if name == "pause"@ {
        Some(SlashCommand::Pause)
    } else if name == "ping"@ {
        Some(SlashCommand::Ping)
    } else if name == "play"@ {
        Some(SlashCommand::Play)
    } else if name == "play-title"@ {
        Some(SlashCommand::PlayTitle)
    } else if name == "play-url"@ {
        Some(SlashCommand::PlayUrl)
    } else if name == "skip"@ {
        Some(SlashCommand::Skip)
    } else if name == "resume"@ {
        Some(SlashCommand::Resume)
    } else {
        None
    }
}

/// The button that carries `custom_id`.
pub open spec fn button_named(custom_id: Seq<char>) -> Option<ButtonPress> {
    if custom_id == "clear"@ {
        Some(ButtonPress::Clear)
    } else if custom_id == "resume"@ {
        Some(ButtonPress::Resume)
    } else if custom_id == "pause"@ {
        Some(ButtonPress::Pause)
    } else if custom_id == "skip"@ {
        Some(ButtonPress::Skip)
    } else if custom_id == "loop"@ {
        Some(ButtonPress::Loop)
    } else {
        None
    }
}

/// What an interaction by a command's name leads to: the command, or the
/// response to a name that the bot does not know.
pub open spec fn routed(name: Seq<char>) -> Result<SlashCommand, CommandResponseView> {
    match command_named(name) {
        Some(command) => Ok(command),
        None => Err(CommandResponseView { description: UNKNOWN_COMMAND@, color: Color(DARK_RED) }),
    }
}

/// The view of a routing.
pub open spec fn routing_view(r: Result<SlashCommand, CommandResponse>) -> Result<
    SlashCommand,
    CommandResponseView,
> {
    match r {
        Ok(command) => Ok(command),
        Err(response) => Err(response@),
    }
}

/// The views of registrations.
pub open spec fn registration_views(registrations: Seq<CommandRegistration>) -> Seq<
    CommandRegistrationView,
> {
    registrations.map_values(|r: CommandRegistration| r@)
}

/// The commands that the bot registers, in the order of registration.
pub open spec fn registered_commands() -> Seq<CommandRegistrationView> {
    seq![
        CommandRegistrationView::bare("clear"@, "Stop the current song and clear the queue"@),
        CommandRegistrationView::bare(
            "help"@,
            "Display directions on how to use Poor Jimmy's commands"@,
        ),
        CommandRegistrationView::bare("join"@, "Summon Poor Jimmy to your voice channel"@),
        CommandRegistrationView::bare("leave"@, "Remove Poor Jimmy from the voice channel"@),
        CommandRegistrationView::bare("list"@, "Display the current queue of songs"@),
        CommandRegistrationView::bare("loop"@, "Enable/disable looping for the current song"@),
        CommandRegistrationView::bare("pause"@, "Pause the currently playing song"@),
        CommandRegistrationView::bare("ping"@, "Respond with Pong!"@),
        commands::play::registration(),
        commands::play_title::registration(),
        commands::play_url::registration(),
        CommandRegistrationView::bare("resume"@, "Resume the currently paused song"@),
        CommandRegistrationView::bare("skip"@, "Skip the currently playing song"@),
    ]
}

/// The primary handler for the bot that handles all the events for the
/// client.
#[derive(Clone, Copy, Debug)]
pub struct BotEventHandler;

impl BotEventHandler {
    /// Routes a slash command by its name. A name that the bot does not
    /// know gets its response at once.
    pub fn interaction_create(&self, command_name: &str) -> (r: Result<SlashCommand, CommandResponse>)
        ensures
            routing_view(r) == routed(command_name@),
    {
        if same_text(command_name, "clear") {
            Ok(SlashCommand::Clear)
        } else if same_text(command_name, "help") {
            Ok(SlashCommand::Help)
        } else if same_text(command_name, "join") {
            Ok(SlashCommand::Join)
        } else if same_text(command_name, "leave") {
            Ok(SlashCommand::Leave)
        } else if same_text(command_name, "list") {
            Ok(SlashCommand::List)
        } else if same_text(command_name, "loop") {
            Ok(SlashCommand::Loop)
        } else if same_text(command_name, "pause") {
            Ok(SlashCommand::Pause)
        } else if same_text(command_name, "ping") {
            Ok(SlashCommand::Ping)
        } else if same_text(command_name, "play") {
            Ok(SlashCommand::Play)
        } else if same_text(command_name, "play-title") {
            Ok(SlashCommand::PlayTitle)
        } else if same_text(command_name, "play-url") {
            Ok(SlashCommand::PlayUrl)
        } else if same_text(command_name, "skip") {
            Ok(SlashCommand::Skip)
        } else if same_text(command_name, "resume") {
            Ok(SlashCommand::Resume)
        } else {
            let response = CommandResponse::new().description(UNKNOWN_COMMAND.to_owned()).color(
                Color::dark_red(),
            ).clone();
            Err(response)
        }
    }

    /// Routes the press of a playback button by the button's identifier.
    pub fn button_pressed(&self, custom_id: &str) -> (r: Option<ButtonPress>)
        ensures
            r == button_named(custom_id@),
    {
        if same_text(custom_id, "clear") {
            Some(ButtonPress::Clear)
        } else if same_text(custom_id, "resume") {
            Some(ButtonPress::Resume)
        } else if same_text(custom_id, "pause") {
            Some(ButtonPress::Pause)
        } else if same_text(custom_id, "skip") {
            Some(ButtonPress::Skip)
        } else if same_text(custom_id, "loop") {
            Some(ButtonPress::Loop)
        } else {
            None
        }
    }

    /// The slash commands to register once the bot is connected, in the
    /// order of registration.
    pub fn ready(&self) -> (registrations: Vec<CommandRegistration>)
        ensures
            registration_views(registrations@) == registered_commands(),
    {
        let mut registrations: Vec<CommandRegistration> = Vec::new();
        registrations.push(commands::clear::register());
        registrations.push(commands::help::register());
        registrations.push(commands::join::register());
        registrations.push(commands::leave::register());
        registrations.push(commands::list::register());
        registrations.push(commands::looping::register());
        registrations.push(commands::pause::register());
        registrations.push(commands::ping::register());
        registrations.push(commands::play::register());
        registrations.push(commands::play_title::register());
        registrations.push(commands::play_url::register());
        registrations.push(commands::resume::register());
        registrations.push(commands::skip::register());
        assert(registration_views(registrations@) =~= registered_commands());
        registrations
    }
}

} // verus!
