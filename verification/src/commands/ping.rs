//! `/ping`: a sign of life.

use vstd::prelude::*;

use crate::commands::{CommandRegistration, CommandRegistrationView};
use crate::utils::response::{CommandOutput, CommandOutputView};
use crate::utils::result::Outcome;

verus! {

/// The answer to a ping.
pub const PONG: &'static str = "Pong!";

/// Answers a ping.
pub fn run() -> (output: CommandOutput)
    ensures
        output@ == CommandOutputView::plain(Outcome::Success, PONG@, false),
{
    CommandOutput::plain(Outcome::Success, PONG, false)
}

/// The command as it is registered.
pub fn register() -> (command: CommandRegistration)
    ensures
        command@ == CommandRegistrationView::bare("ping"@, "Respond with Pong!"@),
{
    CommandRegistration::bare("ping", "Respond with Pong!")
}

} // verus!
