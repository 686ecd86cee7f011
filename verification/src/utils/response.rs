//! How a response is put together before it is sent: the embed, its
//! colour, and the row of playback buttons where one belongs.

use vstd::prelude::*;

use crate::components::music_buttons::{
    MusicButton,
    MusicButtonView,
    button_views,
    create_music_buttons,
    music_buttons,
};
use crate::session::track::{clone_option_text, option_text};
use crate::utils::result::{
    Color,
    CommandResult,
    CommandResultView,
    DARK_GREEN,
    DARK_RED,
};

verus! {

/// The framed part of a message.
#[derive(Debug, PartialEq, Eq)]
pub struct Embed {
    pub description: String,
    pub color: Color,
    /// The address of an image to show, if any.
    pub image: Option<String>,
}

/// The mathematical value of an [`Embed`].
pub struct EmbedView {
    pub description: Seq<char>,
    pub color: Color,
    pub image: Option<Seq<char>>,
}

impl View for Embed {
    type V = EmbedView;

    open spec fn view(&self) -> EmbedView {
        EmbedView {
            description: self.description@,
            color: self.color,
            image: option_text(self.image),
        }
    }
}

/// What a reply answers, and by which route.
#[derive(Clone, Copy, Debug, PartialEq, Eq, Structural)]
pub enum ReplyTarget {
    /// A slash command that was neither deferred nor answered yet.
    Command,
    /// A press of one of the playback buttons.
    Button,
    /// A slash command that was deferred.
    Followup,
}

/// A reply, ready to be sent.
#[derive(Debug, PartialEq, Eq)]
pub struct InteractionReply {
    pub target: ReplyTarget,
    pub embed: Embed,
    /// The buttons under the embed: none, or the row of playback buttons.
    pub components: Vec<MusicButton>,
}

/// The mathematical value of an [`InteractionReply`].
pub struct InteractionReplyView {
    pub target: ReplyTarget,
    pub embed: EmbedView,
    pub components: Seq<MusicButtonView>,
}

impl View for InteractionReply {
    type V = InteractionReplyView;

    open spec fn view(&self) -> InteractionReplyView {
        InteractionReplyView {
            target: self.target,
            embed: self.embed@,
            components: button_views(self.components@),
        }
    }
}

/// The buttons under a reply.
pub open spec fn components_for(include_buttons: bool) -> Seq<MusicButtonView> {
    if include_buttons {
        music_buttons()
    } else {
        Seq::empty()
    }
}

/// A reply that shows `content` in `color`, without an image.
pub open spec fn text_reply(target: ReplyTarget, content: Seq<char>, color: Color, include_buttons: bool) -> InteractionReplyView {
    InteractionReplyView {
        target,
        embed: EmbedView { description: content, color, image: None },
        components: components_for(include_buttons),
    }
}

fn components(include_buttons: bool) -> (row: Vec<MusicButton>)
    ensures
        button_views(row@) == components_for(include_buttons),
{
    if include_buttons {
        create_music_buttons()
    } else {
        let row: Vec<MusicButton> = Vec::new();
        assert(button_views(row@) =~= Seq::<MusicButtonView>::empty());
        row
    }
}

/// The reply to a slash command that was not deferred: `content` in green,
/// with the playback buttons where asked for. For a deferred command use
/// `respond_to_followup`.
pub fn respond_to_command(content: String, include_buttons: bool) -> (reply: InteractionReply)
    ensures
        reply@ == text_reply(ReplyTarget::Command, content@, Color(DARK_GREEN), include_buttons),
{
    InteractionReply {
        target: ReplyTarget::Command,
        embed: Embed { description: content, color: Color::dark_green(), image: None },
        components: components(include_buttons),
    }
}

/// The reply to a slash command that failed: `content` in red, without
/// buttons.
pub fn respond_to_error(content: String) -> (reply: InteractionReply)
    ensures
        reply@ == text_reply(ReplyTarget::Command, content@, Color(DARK_RED), false),
{
    InteractionReply {
        target: ReplyTarget::Command,
        embed: Embed { description: content, color: Color::dark_red(), image: None },
        components: components(false),
    }
}

/// The reply to a button press: `content` in green, with the playback
/// buttons where asked for.
pub fn respond_to_button(content: String, include_buttons: bool) -> (reply: InteractionReply)
    ensures
        reply@ == text_reply(ReplyTarget::Button, content@, Color(DARK_GREEN), include_buttons),
{
    InteractionReply {
        target: ReplyTarget::Button,
        embed: Embed { description: content, color: Color::dark_green(), image: None },
        components: components(include_buttons),
    }
}

/// The reply to a button press that failed: `content` in red, without
/// buttons.
pub fn respond_to_error_button(content: String) -> (reply: InteractionReply)
    ensures
        reply@ == text_reply(ReplyTarget::Button, content@, Color(DARK_RED), false),
{
    InteractionReply {
        target: ReplyTarget::Button,
        embed: Embed { description: content, color: Color::dark_red(), image: None },
        components: components(false),
    }
}

/// The reply to a deferred slash command: the embed as it was handed over,
/// with the playback buttons where asked for. For a command that was not
/// deferred use `respond_to_command`.
pub fn respond_to_followup(content: Embed, include_buttons: bool) -> (reply: InteractionReply)
    ensures
        reply@ == (InteractionReplyView {
            target: ReplyTarget::Followup,
            embed: content@,
            components: components_for(include_buttons),
        }),
{
    InteractionReply {
        target: ReplyTarget::Followup,
        embed: content,
        components: components(include_buttons),
    }
}

/// What a command hands to the surface that renders it.
#[derive(Debug, PartialEq, Eq)]
pub struct CommandOutput {
    pub result: CommandResult,
    /// Whether the playback buttons belong under the response.
    pub include_buttons: bool,
    /// The address of an image to show, if any.
    pub image: Option<String>,
}

/// The mathematical value of a [`CommandOutput`].
pub struct CommandOutputView {
    pub result: CommandResultView,
    pub include_buttons: bool,
    pub image: Option<Seq<char>>,
}

impl View for CommandOutput {
    type V = CommandOutputView;

    open spec fn view(&self) -> CommandOutputView {
        CommandOutputView {
            result: self.result@,
            include_buttons: self.include_buttons,
            image: option_text(self.image),
        }
    }
}

impl CommandOutputView {
    /// An output without count or image.
    pub open spec fn plain(
        outcome: crate::utils::result::Outcome,
        message: Seq<char>,
        include_buttons: bool,
    ) -> CommandOutputView {
        CommandOutputView {
            result: CommandResultView::plain(outcome, message),
            include_buttons,
            image: None,
        }
    }

    /// The reply that renders the output. A failure is shown in red and
    /// without buttons; only a follow-up shows an image.
    pub open spec fn reply(self, target: ReplyTarget) -> InteractionReplyView {
        let failed = self.result.outcome.is_failure();
        InteractionReplyView {
            target,
            embed: EmbedView {
                description: self.result.message,
                color: self.result.outcome.color(),
                image: if target == ReplyTarget::Followup {
                    self.image
                } else {
                    None
                },
            },
            components: components_for(self.include_buttons && !failed),
        }
    }
}

impl CommandOutput {
    /// An output without count or image.
    pub fn plain(outcome: crate::utils::result::Outcome, message: &str, include_buttons: bool) -> (o:
        CommandOutput)
        ensures
            o@ == CommandOutputView::plain(outcome, message@, include_buttons),
    {
        CommandOutput { result: CommandResult::plain(outcome, message), include_buttons, image: None }
    }

    /// Renders the output as the reply to `target`.
    pub fn respond(&self, target: ReplyTarget) -> (reply: InteractionReply)
        ensures
            reply@ == self@.reply(target),
    {
        let content = self.result.message.clone();
        let failed = match self.result.outcome {
            crate::utils::result::Outcome::NotConnected | crate::utils::result::Outcome::Error => true,
            _ => false,
        };
        match target {
            ReplyTarget::Command => if failed {
                respond_to_error(content)
            } else {
                respond_to_command(content, self.include_buttons)
            },
            ReplyTarget::Button => if failed {
                respond_to_error_button(content)
            } else {
                respond_to_button(content, self.include_buttons)
            },
            ReplyTarget::Followup => {
                let embed = Embed {
                    description: content,
                    color: self.result.outcome.report_color(),
                    image: clone_option_text(&self.image),
                };
                respond_to_followup(embed, self.include_buttons && !failed)
            },
        }
    }
}

} // verus!
