//! The response to a command: what it says, and in which colour.

use vstd::prelude::*;

verus! {

/// An RGB colour, one byte per channel.
#[derive(Clone, Copy, Debug, PartialEq, Eq, Structural)]
pub struct Color(pub u32);

/// The colour of good news.
pub const DARK_GREEN: u32 = 0x1F8B4C;

/// The colour of bad news.
pub const DARK_RED: u32 = 0x992D22;

impl Color {
    pub fn dark_green() -> (c: Color)
        ensures
            c == Color(DARK_GREEN),
    {
        Color(DARK_GREEN)
    }

    pub fn dark_red() -> (c: Color)
        ensures
            c == Color(DARK_RED),
    {
        Color(DARK_RED)
    }
}

/// The result of executing a command: the content that the bot responds
/// with, and the colour that tells success from failure.
#[derive(Debug, PartialEq, Eq)]
pub struct CommandResponse {
    description: String,
    color: Color,
}

/// The mathematical value of a [`CommandResponse`].
pub struct CommandResponseView {
    pub description: Seq<char>,
    pub color: Color,
}

impl View for CommandResponse {
    type V = CommandResponseView;

    closed spec fn view(&self) -> CommandResponseView {
        CommandResponseView { description: self.description@, color: self.color }
    }
}

impl Clone for CommandResponse {
    fn clone(&self) -> (r: CommandResponse)
        ensures
            r@ == self@,
    {
        CommandResponse { description: self.description.clone(), color: self.color }
    }
}

impl Default for CommandResponse {
    fn default() -> (r: CommandResponse)
        ensures
            r@ == (CommandResponseView { description: Seq::empty(), color: Color(0) }),
    {
        CommandResponse { description: String::new(), color: Color(0) }
    }
}

impl CommandResponse {
    /// An empty response in black.
    pub fn new() -> (r: CommandResponse)
        ensures
            r@ == (CommandResponseView { description: Seq::empty(), color: Color(0) }),
    {
        CommandResponse { description: String::new(), color: Color(0) }
    }

    /// Sets what the response says.
    pub fn description(&mut self, description: String) -> (r: &mut Self)
        ensures
            (*r)@ == (CommandResponseView { description: description@, color: old(self)@.color }),
            *final(self) == *final(r),
    {
        self.description = description;
        self
    }

    /// Sets the colour of the response.
    pub fn color(&mut self, color: Color) -> (r: &mut Self)
        ensures
            (*r)@ == (CommandResponseView { description: old(self)@.description, color }),
            *final(self) == *final(r),
    {
        self.color = color;
        self
    }

    pub fn get_color(&self) -> (c: Color)
        ensures
            c == self@.color,
    {
        self.color
    }

    pub fn get_description(&self) -> (d: String)
        ensures
            d@ == self@.description,
    {
        self.description.clone()
    }
}

/// How a command ended, as far as the one who issued it is concerned.
#[derive(Clone, Copy, Debug, PartialEq, Eq, Structural)]
pub enum Outcome {
    /// The command did what it was issued for.
    Success,
    /// There was nothing to act on.
    Empty,
    /// The guild has no session.
    NotConnected,
    /// The command failed.
    Error,
}

impl Outcome {
    /// Whether the outcome is reported as a failure.
    pub open spec fn is_failure(self) -> bool {
        self == Outcome::NotConnected || self == Outcome::Error
    }

    /// The colour in which the outcome is reported.
    pub open spec fn color(self) -> Color {
        if self.is_failure() {
            Color(DARK_RED)
        } else {
            Color(DARK_GREEN)
        }
    }

    /// The colour in which the outcome is reported: red for a failure,
    /// green for anything else.
    pub fn report_color(self) -> (c: Color)
        ensures
            c == self.color(),
    {
        match self {
            Outcome::NotConnected | Outcome::Error => Color::dark_red(),
            _ => Color::dark_green(),
        }
    }
}

/// The structured result of a command.
#[derive(Debug, PartialEq, Eq)]
pub struct CommandResult {
    pub outcome: Outcome,
    /// What the one who issued the command reads.
    pub message: String,
    /// How many tracks a batch queued; absent for any other command.
    pub queued_count: Option<u64>,
}

/// The mathematical value of a [`CommandResult`].
pub struct CommandResultView {
    pub outcome: Outcome,
    pub message: Seq<char>,
    pub queued_count: Option<u64>,
}

impl View for CommandResult {
    type V = CommandResultView;

    open spec fn view(&self) -> CommandResultView {
        CommandResultView {
            outcome: self.outcome,
            message: self.message@,
            queued_count: self.queued_count,
        }
    }
}

impl CommandResultView {
    /// A result without a count.
    pub open spec fn plain(outcome: Outcome, message: Seq<char>) -> CommandResultView {
        CommandResultView { outcome, message, queued_count: None }
    }

    /// The response that shows the result.
    pub open spec fn response(self) -> CommandResponseView {
        CommandResponseView { description: self.message, color: self.outcome.color() }
    }
}

impl CommandResult {
    /// A result without a count.
    pub fn plain(outcome: Outcome, message: &str) -> (r: CommandResult)
        ensures
            r@ == CommandResultView::plain(outcome, message@),
    {
        CommandResult { outcome, message: message.to_owned(), queued_count: None }
    }

    /// The response that shows the result: its message, in the colour of
    /// its outcome.
    pub fn response(&self) -> (r: CommandResponse)
        ensures
            r@ == self@.response(),
    {
        CommandResponse { description: self.message.clone(), color: self.outcome.report_color() }
    }
}

} // verus!
