//! `/help`: how to use the commands.

use vstd::prelude::*;

use crate::commands::{CommandRegistration, CommandRegistrationView};
use crate::utils::response::{CommandOutput, CommandOutputView};
use crate::utils::result::Outcome;

verus! {

/// The help message.
pub const HELP: &'static str =
    "
    ## 🎶 Poor Jimmy Commands 🎶
    \nUse these commands to control the music playback in your server. Enjoy the tunes! 🎵
    \n**1. /clear**Stop the current song and clear the queue
    \n**2. /help**Displays this help message, providing information on available commands
    \n**3. /join**Summon Poor Jimmy to your voice channel
    \n**4. /leave**Remove Poor Jimmy from the voice channel
    \n**5. /list**Display the current queue of songs
    \n**6. /loop**Enable/disable looping of the current song
    \n**7. /pause**Pause the currently playing song
    \n**8. /ping**Respond with Pong!
    \n**9. /play-url**Play the audio from a Youtube video or playlist URL
    \n**10. /play-title**Play the audio from a Youtube video best matching the given title
    \n**11. /resume**Resume the currently paused song
    \n**12. /skip**Skip the currently playing song";

/// Answers with the help message.
pub fn run() -> (output: CommandOutput)
    ensures
        output@ == CommandOutputView::plain(Outcome::Success, HELP@, false),
{
    CommandOutput::plain(Outcome::Success, HELP, false)
}

/// The command as it is registered.
pub fn register() -> (command: CommandRegistration)
    ensures
        command@ == CommandRegistrationView::bare(
            "help"@,
            "Display directions on how to use Poor Jimmy's commands"@,
        ),
{
    CommandRegistration::bare("help", "Display directions on how to use Poor Jimmy's commands")
}

} // verus!
