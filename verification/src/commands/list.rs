//! `/list`: show the queue.

use vstd::prelude::*;
use vstd::string::StringExecFns;

use crate::commands::{CommandRegistration, CommandRegistrationView};
use crate::session::queue::{QueueView, listing_view};
use crate::session::registry::{RegistryView, SessionRegistry};
use crate::utils::response::{CommandOutput, CommandOutputView};
use crate::utils::result::{CommandResult, Outcome};
use crate::utils::text::{decimal, render_decimal};

verus! {

/// Said where the guild has no session.
pub const NOT_CONNECTED: &'static str =
    "Error listing queue! Ensure Poor Jimmy is in a voice channel with **/join**";

/// Said where the queue holds nothing.
pub const EMPTY: &'static str = "The queue is **empty!**";

/// One line of the listing: the place in bold, then the title.
pub open spec fn queue_line(place: nat, title: Seq<char>) -> Seq<char> {
    "**"@ + decimal(place) + ":** "@ + title + "\n"@
}

/// The listing of `titles`: one line each, numbered from one.
pub open spec fn queue_description(titles: Seq<Seq<char>>) -> Seq<char>
    decreases titles.len(),
{
    if titles.len() == 0 {
        Seq::empty()
    } else {
        queue_description(titles.drop_last()) + queue_line(titles.len(), titles.last())
    }
}

/// The display titles of a queue, in play order.
pub open spec fn queue_titles(queue: QueueView) -> Seq<Seq<char>> {
    Seq::new(queue.tracks.len(), |i: int| queue.tracks[i].display_title())
}

/// The views of titles.
pub open spec fn title_views(titles: Seq<String>) -> Seq<Seq<char>> {
    titles.map_values(|t: String| t@)
}

/// Builds the description of the queue: a numbered line for every title.
pub fn format_queue_description(list_of_titles: Vec<String>) -> (description: String)
    ensures
        description@ == queue_description(title_views(list_of_titles@)),
{
    let mut description = String::new();
    let ghost titles = title_views(list_of_titles@);
    let mut index: usize = 0;
    while index < list_of_titles.len()
        invariant
            index <= list_of_titles.len(),
            titles == title_views(list_of_titles@),
            description@ == queue_description(titles.take(index as int)),
        decreases list_of_titles.len() - index,
    {
        let ghost upto = titles.take(index + 1);
        assert(upto.drop_last() =~= titles.take(index as int));
        assert(upto.last() == list_of_titles@[index as int]@);
        let ghost before = description@;
        description.append("**");
        description.append(render_decimal(index as u64 + 1).as_str());
        description.append(":** ");
        description.append(list_of_titles[index].as_str());
        description.append("\n");
        assert(description@ =~= before + queue_line((index + 1) as nat, upto.last()));
        index = index + 1;
    }
    assert(titles.take(list_of_titles.len() as int) =~= titles);
    description
}

/// What listing says: an empty queue is no error and is reported as such;
/// any other queue is shown line by line, with the playback buttons.
pub open spec fn list_view(registry: RegistryView, guild_id: u64) -> CommandOutputView {
    match registry.get(guild_id) {
        None => CommandOutputView::plain(Outcome::NotConnected, NOT_CONNECTED@, false),
        Some(session) => if session.queue.tracks.len() == 0 {
            CommandOutputView::plain(Outcome::Empty, EMPTY@, false)
        } else {
            CommandOutputView::plain(
                Outcome::Success,
                queue_description(queue_titles(session.queue)),
                true,
            )
        },
    }
}

/// Lists the queue of `guild_id`.
pub fn run(registry: &SessionRegistry, guild_id: u64) -> (output: CommandOutput)
    requires
        registry.wf(),
    ensures
        output@ == list_view(registry@, guild_id),
{
    let session = match registry.get(guild_id) {
        None => {
            return CommandOutput::plain(Outcome::NotConnected, NOT_CONNECTED, false);
        },
        Some(session) => session,
    };
    // Grab the queue and make sure it is not empty
    let queue = session.queue();
    if queue.is_empty() {
        return CommandOutput::plain(Outcome::Empty, EMPTY, false);
    }
    // Keep the titles of the listing
    let entries = queue.list();
    let mut queue_titles_found: Vec<String> = Vec::new();
    let mut i: usize = 0;
    assert(listing_view(entries@).len() == entries@.len());
    while i < entries.len()
        invariant
            i <= entries.len(),
            queue_titles_found@.len() == i,
            forall|k: int| 0 <= k < i ==> #[trigger] queue_titles_found@[k]@ == entries@[k].1@,
        decreases entries.len() - i,
    {
        queue_titles_found.push(entries[i].1.clone());
        i = i + 1;
    }
    proof {
        assert forall|k: int| 0 <= k < entries@.len() implies entries@[k].1@
            == queue@.tracks[k].display_title() by {
            assert(listing_view(entries@)[k] == queue@.listing()[k]);
        }
        assert(title_views(queue_titles_found@) =~= queue_titles(queue@));
    }
    CommandOutput {
        result: CommandResult {
            outcome: Outcome::Success,
            message: format_queue_description(queue_titles_found),
            queued_count: None,
        },
        include_buttons: true,
        image: None,
    }
}

/// The command as it is registered.
pub fn register() -> (command: CommandRegistration)
    ensures
        command@ == CommandRegistrationView::bare("list"@, "Display the current queue of songs"@),
{
    CommandRegistration::bare("list", "Display the current queue of songs")
}

} // verus!
