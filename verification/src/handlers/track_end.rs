//! What follows the completion of a track.

use vstd::prelude::*;

use crate::session::notification::{Notification, NotificationView, option_notification_view};
use crate::session::queue::{PlaybackQueue, QueueView};

verus! {

/// Seconds to wait before a notification is sent, so that it does not
/// overtake the response to the command that caused it.
pub const NOTIFICATION_DELAY_SECS: u64 = 2;

/// An event of the voice transport, as far as the notifier tells events
/// apart.
#[derive(Clone, Copy, Debug, PartialEq, Eq, Structural)]
pub enum VoiceEvent {
    /// A track completed.
    Track,
    /// Anything else.
    Other,
}

/// The subscription of one session to its track completions.
#[derive(Clone, Copy, Debug, PartialEq, Eq, Structural)]
pub struct TrackEndNotifier {
    /// The channel that reads the notifications.
    pub channel_id: u64,
    /// Whether the end of the queue is still to be announced. Set while
    /// there is a current track, cleared by the announcement.
    pub armed: bool,
}

/// Whether the end of the queue is still to be announced: the notifier is
/// armed, or the queue has a current track and so has not ended yet.
pub open spec fn end_pending(before: QueueView, armed: bool) -> bool {
    armed || before.tracks.len() > 0
}

/// What a completion signal makes known, given the queue as the signal
/// finds it and whether the notifier is armed. The queue advances; a track
/// that is current after that is announced by its display title, and a
/// queue that is empty after that is announced as ended, if its end is
/// still to be announced.
pub open spec fn announcement(before: QueueView, armed: bool) -> Option<NotificationView> {
    match before.advance().current() {
        Some(head) => Some(NotificationView::NowPlaying(head.display_title())),
        None => if end_pending(before, armed) {
            Some(NotificationView::QueueEnded)
        } else {
            None
        },
    }
}

impl TrackEndNotifier {
    /// A subscription for a queue that is about to be watched: armed exactly
    /// when the queue has a current track.
    pub fn new(channel_id: u64, queue: &PlaybackQueue) -> (n: TrackEndNotifier)
        ensures
            n.channel_id == channel_id,
            n.armed == (queue@.tracks.len() > 0),
    {
        TrackEndNotifier { channel_id, armed: !queue.is_empty() }
    }

    /// Handles an event of the transport. Anything but a track completion
    /// is ignored. On a completion the queue advances; a new current track
    /// is announced by its display title, and an emptied queue is announced
    /// once: whenever the signal finds a current track that then leaves the
    /// queue empty, and, for a queue that was emptied by other means, on
    /// the first signal after that. Further signals on an empty queue say
    /// nothing.
    pub fn act(&mut self, event: VoiceEvent, queue: &mut PlaybackQueue) -> (n: Option<Notification>)
        requires
            old(queue).wf(),
        ensures
            final(queue).wf(),
            final(self).channel_id == old(self).channel_id,
            event == VoiceEvent::Other ==> {
                &&& n is None
                &&& final(queue)@ == old(queue)@
                &&& final(self).armed == old(self).armed
            },
            event == VoiceEvent::Track ==> {
                &&& final(queue)@ == old(queue)@.advance()
                &&& final(self).armed == (final(queue)@.tracks.len() > 0)
                &&& option_notification_view(n) == announcement(old(queue)@, old(self).armed)
            },
    {
        if event == VoiceEvent::Other {
            return None;
        }
        let end_pending = self.armed || !queue.is_empty();
        let _ = queue.advance();
        match queue.current() {
            Some(head) => {
                self.armed = true;
                Some(Notification::NowPlaying(head.display_title()))
            },
            None => {
                self.armed = false;
                if end_pending {
                    Some(Notification::QueueEnded)
                } else {
                    None
                }
            },
        }
    }
}

/// The completion of the last track is announced as the end of the queue,
/// whatever the notifier made of the queue before: a queue whose one track
/// does not loop is empty after the signal, and `QueueEnded` comes.
pub proof fn lemma_last_track_ends_queue(q: QueueView, armed: bool)
    requires
        q.tracks.len() == 1,
        !q.head_loops(),
    ensures
        q.advance().tracks.len() == 0,
        announcement(q, armed) == Some(NotificationView::QueueEnded),
{
}

/// The end of a queue is announced once: of two completion signals of
/// which the first leaves the queue empty, the first announces the end if
/// it is still to be announced, and the second says nothing.
pub proof fn lemma_queue_end_announced_once(q: QueueView, armed: bool)
    requires
        q.advance().tracks.len() == 0,
    ensures
        ({
            let after_first = q.advance();
            let armed_after_first = after_first.tracks.len() > 0;
            &&& announcement(q, armed) == if end_pending(q, armed) {
                Some(NotificationView::QueueEnded)
            } else {
                None
            }
            &&& after_first.advance() == after_first
            &&& !armed_after_first
            &&& announcement(after_first, armed_after_first) is None
        }),
{
}

} // verus!
