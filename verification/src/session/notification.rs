//! What a session tells its channel without being asked.

use vstd::prelude::*;
use vstd::string::StringExecFns;

use crate::utils::text::{decimal, render_decimal};

verus! {

/// An outbound notification.
#[derive(Debug, PartialEq, Eq)]
pub enum Notification {
    /// A track became current; the payload is its display title.
    NowPlaying(String),
    /// The last track completed and nothing is left to play.
    QueueEnded,
    /// A batch is about to be queued, which may take a while.
    QueueingStarted,
    /// A batch was worked through; the payload counts the tracks queued. A
    /// batch that queued nothing is worded on its own.
    QueueingSummary(u64),
}

/// The mathematical value of a [`Notification`].
pub enum NotificationView {
    NowPlaying(Seq<char>),
    QueueEnded,
    QueueingStarted,
    QueueingSummary(u64),
}

impl View for Notification {
    type V = NotificationView;

    open spec fn view(&self) -> NotificationView {
        match self {
            Notification::NowPlaying(title) => NotificationView::NowPlaying(title@),
            Notification::QueueEnded => NotificationView::QueueEnded,
            Notification::QueueingStarted => NotificationView::QueueingStarted,
            Notification::QueueingSummary(count) => NotificationView::QueueingSummary(*count),
        }
    }
}

/// The view of an optional notification.
pub open spec fn option_notification_view(n: Option<Notification>) -> Option<NotificationView> {
    match n {
        Some(notification) => Some(notification@),
        None => None,
    }
}

impl NotificationView {
    /// The text that the channel reads.
    pub open spec fn message(self) -> Seq<char> {
        match self {
            NotificationView::NowPlaying(title) => "**Now playing:** "@ + title + "!"@,
            NotificationView::QueueEnded => "Queue has **ended!**"@,
            NotificationView::QueueingStarted =>
                "**Queueing** playlist. This may take some time. Some commands will be unavailable until completed."@,
            NotificationView::QueueingSummary(count) => if count == 0 {
                "No songs **queued!**"@
            } else {
                decimal(count as nat) + " songs **queued!** Use **/list** to view them"@
            },
        }
    }
}

impl Notification {
    /// The text that the channel reads.
    pub fn message(&self) -> (text: String)
        ensures
            text@ == self@.message(),
    {
        match self {
            Notification::NowPlaying(title) => {
                String::from_str("**Now playing:** ").concat(title.as_str()).concat("!")
            },
            Notification::QueueEnded => String::from_str("Queue has **ended!**"),
            Notification::QueueingStarted => String::from_str(
                "**Queueing** playlist. This may take some time. Some commands will be unavailable until completed.",
            ),
            Notification::QueueingSummary(count) => if *count == 0 {
                String::from_str("No songs **queued!**")
            } else {
                render_decimal(*count).concat(" songs **queued!** Use **/list** to view them")
            },
        }
    }
}

} // verus!
