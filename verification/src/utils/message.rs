//! The reply that carries an embed prepared by the command itself.

use vstd::prelude::*;

use crate::components::music_buttons::{MusicButton, MusicButtonView, button_views};
use crate::utils::response::{Embed, InteractionReply, InteractionReplyView, ReplyTarget};

verus! {

/// The reply to a slash command that was not deferred: the embed as it was
/// handed over, without buttons.
pub fn respond_to_command(content: Embed) -> (reply: InteractionReply)
    ensures
        reply@ == (InteractionReplyView {
            target: ReplyTarget::Command,
            embed: content@,
            components: Seq::empty(),
        }),
{
    let components: Vec<MusicButton> = Vec::new();
    assert(button_views(components@) =~= Seq::<MusicButtonView>::empty());
    InteractionReply { target: ReplyTarget::Command, embed: content, components }
}

} // verus!
