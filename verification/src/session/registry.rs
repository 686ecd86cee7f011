//! Sessions, and the registry that maps guilds to them.
//!
//! A session is created by a successful join and removed by leave; looking a
//! guild up never creates one. Every guild's queue is bounded by the one
//! maximum queue size that the registry was built with.

use std::collections::HashMap;
use vstd::prelude::*;

use crate::handlers::track_end::{TrackEndNotifier, VoiceEvent, announcement};
use crate::session::controller::{
    ControlCommand,
    ControlError,
    ControlOutcome,
    Decision,
    PlaybackController,
    StreamAction,
    StreamState,
};
use crate::session::notification::{Notification, NotificationView, option_notification_view};
use crate::session::queue::{Cleared, PlaybackQueue, Position, QueueFull, QueueView};
use crate::session::track::{Track, TrackView};

verus! {

broadcast use vstd::std_specs::hash::group_hash_axioms;

/// One guild's live playback context.
pub struct Session {
    guild_id: u64,
    channel_id: u64,
    queue: PlaybackQueue,
    notifier: TrackEndNotifier,
}

/// The mathematical value of a [`Session`].
pub struct SessionView {
    /// The guild that owns the session.
    pub guild_id: u64,
    /// The voice channel that the session's connection serves.
    pub channel_id: u64,
    pub queue: QueueView,
    pub notifier: TrackEndNotifier,
}

impl SessionView {
    /// The queue respects its bound, and while it has a current track the
    /// end of the queue is still to be announced.
    pub open spec fn wf(self) -> bool {
        &&& self.queue.wf()
        &&& self.queue.tracks.len() > 0 ==> self.notifier.armed
    }

    /// A session that was just joined.
    pub open spec fn fresh(guild_id: u64, channel_id: u64, notify_channel: u64, capacity: u32) -> SessionView {
        SessionView {
            guild_id,
            channel_id,
            queue: QueueView { tracks: Seq::empty(), capacity: capacity as nat },
            notifier: TrackEndNotifier { channel_id: notify_channel, armed: false },
        }
    }

    /// The session after it was joined again: the queue stays, the
    /// connection serves `channel_id`, and one new subscription replaces the
    /// old one.
    pub open spec fn rejoin(self, channel_id: u64, notify_channel: u64) -> SessionView {
        SessionView {
            channel_id,
            notifier: TrackEndNotifier {
                channel_id: notify_channel,
                armed: self.queue.tracks.len() > 0,
            },
            ..self
        }
    }

    /// The session after an attempt to enqueue `track`.
    pub open spec fn enqueue(self, track: TrackView) -> SessionView {
        SessionView {
            queue: self.queue.enqueue(track),
            notifier: TrackEndNotifier {
                armed: self.notifier.armed || self.queue.has_room(),
                ..self.notifier
            },
            ..self
        }
    }

    /// The session after its queue was cleared.
    pub open spec fn clear(self) -> SessionView {
        SessionView { queue: self.queue.clear(), ..self }
    }

    /// The session after an event of the transport.
    pub open spec fn track_ended(self, event: VoiceEvent) -> SessionView {
        if event == VoiceEvent::Track {
            SessionView {
                queue: self.queue.advance(),
                notifier: TrackEndNotifier {
                    armed: self.queue.advance().tracks.len() > 0,
                    ..self.notifier
                },
                ..self
            }
        } else {
            self
        }
    }

    /// What an event of the transport makes known.
    pub open spec fn track_ended_notice(self, event: VoiceEvent) -> Option<NotificationView> {
        if event == VoiceEvent::Track {
            announcement(self.queue, self.notifier.armed)
        } else {
            None
        }
    }

    /// The session after the transport answered to `action`.
    pub open spec fn settle(self, action: StreamAction, accepted: bool) -> SessionView {
        SessionView { queue: self.queue.settle(action, accepted), ..self }
    }
}

impl View for Session {
    type V = SessionView;

    closed spec fn view(&self) -> SessionView {
        SessionView {
            guild_id: self.guild_id,
            channel_id: self.channel_id,
            queue: self.queue@,
            notifier: self.notifier,
        }
    }
}

impl Session {
    /// The invariant of every session.
    pub open spec fn wf(&self) -> bool {
        self@.wf()
    }

    /// A session with an empty queue that lets `capacity` tracks wait.
    pub fn new(guild_id: u64, channel_id: u64, notify_channel: u64, capacity: u32) -> (s: Session)
        ensures
            s.wf(),
            s@ == SessionView::fresh(guild_id, channel_id, notify_channel, capacity),
    {
        let queue = PlaybackQueue::new(capacity);
        let notifier = TrackEndNotifier::new(notify_channel, &queue);
        let s = Session { guild_id, channel_id, queue, notifier };
        assert(s@.queue.tracks =~= Seq::<TrackView>::empty());
        s
    }

    pub fn guild_id(&self) -> (g: u64)
        ensures
            g == self@.guild_id,
    {
        self.guild_id
    }

    /// The voice channel that the session's connection serves.
    pub fn channel_id(&self) -> (c: u64)
        ensures
            c == self@.channel_id,
    {
        self.channel_id
    }

    pub fn queue(&self) -> (q: &PlaybackQueue)
        ensures
            q@ == self@.queue,
            self.wf() ==> q.wf(),
    {
        &self.queue
    }

    /// The session's subscription to its track completions.
    pub fn notifier(&self) -> (n: TrackEndNotifier)
        ensures
            n == self@.notifier,
    {
        self.notifier
    }

    /// Joins again: the queue stays, and one new subscription replaces the
    /// old one, so that no completion is ever announced twice.
    pub fn rejoin(&mut self, channel_id: u64, notify_channel: u64)
        requires
            old(self).wf(),
        ensures
            final(self).wf(),
            final(self)@ == old(self)@.rejoin(channel_id, notify_channel),
    {
        self.channel_id = channel_id;
        self.notifier = TrackEndNotifier::new(notify_channel, &self.queue);
    }

    /// Enqueues `track`, as [`PlaybackQueue::enqueue`] does.
    pub fn enqueue(&mut self, track: Track) -> (r: Result<Position, QueueFull>)
        requires
            old(self).wf(),
        ensures
            final(self).wf(),
            final(self)@ == old(self)@.enqueue(track@),
            r == old(self)@.queue.enqueue_result(),
    {
        let r = self.queue.enqueue(track);
        if r.is_ok() {
            self.notifier.armed = true;
        }
        r
    }

    /// Clears the queue, as [`PlaybackQueue::clear`] does. The completion
    /// signal of the stopped stream will still announce the end.
    pub fn clear(&mut self) -> (c: Cleared)
        requires
            old(self).wf(),
        ensures
            final(self).wf(),
            final(self)@ == old(self)@.clear(),
            c == if old(self)@.queue.tracks.len() == 0 {
                Cleared::Nothing
            } else {
                Cleared::Stopped
            },
    {
        self.queue.clear()
    }

    /// Hands an event of the transport to the session's notifier.
    pub fn track_ended(&mut self, event: VoiceEvent) -> (n: Option<Notification>)
        requires
            old(self).wf(),
        ensures
            final(self).wf(),
            final(self)@ == old(self)@.track_ended(event),
            option_notification_view(n) == old(self)@.track_ended_notice(event),
    {
        self.notifier.act(event, &mut self.queue)
    }

    /// Decides a control command, as [`PlaybackController::decide`] does.
    pub fn decide(&self, command: ControlCommand, observed: Option<StreamState>) -> (d: Decision)
        ensures
            d == self@.queue.decide(command, observed),
    {
        PlaybackController::decide(&self.queue, command, observed)
    }

    /// Records the transport's answer, as [`PlaybackController::settle`]
    /// does.
    pub fn settle(&mut self, action: StreamAction, accepted: bool) -> (r: Result<
        ControlOutcome,
        ControlError,
    >)
        requires
            old(self).wf(),
        ensures
            final(self).wf(),
            final(self)@ == old(self)@.settle(action, accepted),
            r == old(self)@.queue.settle_result(action, accepted),
    {
        PlaybackController::settle(&mut self.queue, action, accepted)
    }
}

/// Why a join failed.
#[derive(Clone, Copy, Debug, PartialEq, Eq, Structural)]
pub enum JoinError {
    /// The user who asked is in no voice channel.
    NoSuchChannel,
    /// The transport could not connect.
    ConnectionError,
}

/// The guild has no session: the bot is in none of its voice channels.
#[derive(Clone, Copy, Debug, PartialEq, Eq, Structural)]
pub struct NotConnected;

/// Why a track was not enqueued.
#[derive(Clone, Copy, Debug, PartialEq, Eq, Structural)]
pub enum EnqueueError {
    NotConnected,
    QueueFull,
}

/// The mathematical value of a [`SessionRegistry`].
pub struct RegistryView {
    pub sessions: Map<u64, SessionView>,
    /// The bound that every newly joined session gives its queue.
    pub max_queue_size: u32,
}

impl RegistryView {
    /// Every session is well-formed and filed under its own guild.
    pub open spec fn wf(self) -> bool {
        forall|guild_id: u64| #[trigger]
            self.sessions.contains_key(guild_id) ==> {
                &&& self.sessions[guild_id].wf()
                &&& self.sessions[guild_id].guild_id == guild_id
            }
    }

    /// The session of `guild_id`, if it has one.
    pub open spec fn get(self, guild_id: u64) -> Option<SessionView> {
        if self.sessions.contains_key(guild_id) {
            Some(self.sessions[guild_id])
        } else {
            None
        }
    }

    /// The registry with `session` filed under its guild.
    pub open spec fn with_session(self, session: SessionView) -> RegistryView {
        RegistryView { sessions: self.sessions.insert(session.guild_id, session), ..self }
    }

    /// What a join reports. No channel to join is `NoSuchChannel`, whatever
    /// the transport said; a transport that failed is `ConnectionError`.
    pub open spec fn join_result(channel: Option<u64>, connected: bool) -> Result<(), JoinError> {
        match channel {
            None => Err(JoinError::NoSuchChannel),
            Some(_) => if connected {
                Ok(())
            } else {
                Err(JoinError::ConnectionError)
            },
        }
    }

    /// The registry after a join. A failed join changes nothing. A guild
    /// without a session gets a fresh one; a guild with one has it joined
    /// again.
    pub open spec fn join(
        self,
        guild_id: u64,
        channel: Option<u64>,
        connected: bool,
        notify_channel: u64,
    ) -> RegistryView {
        match channel {
            Some(channel_id) if connected => match self.get(guild_id) {
                Some(session) => self.with_session(session.rejoin(channel_id, notify_channel)),
                None => self.with_session(
                    SessionView::fresh(guild_id, channel_id, notify_channel, self.max_queue_size),
                ),
            },
            _ => self,
        }
    }

    /// The registry after `guild_id` left.
    pub open spec fn leave(self, guild_id: u64) -> RegistryView {
        RegistryView { sessions: self.sessions.remove(guild_id), ..self }
    }

    /// The registry with the session of `guild_id`, if there is one,
    /// replaced by what `change` makes of it.
    pub open spec fn update(self, guild_id: u64, change: spec_fn(SessionView) -> SessionView) -> RegistryView {
        match self.get(guild_id) {
            Some(session) => RegistryView {
                sessions: self.sessions.insert(guild_id, change(session)),
                ..self
            },
            None => self,
        }
    }
}

/// The views of the sessions of a map.
pub open spec fn session_views(sessions: Map<u64, Session>) -> Map<u64, SessionView> {
    sessions.map_values(|s: Session| s@)
}

/// The sessions of all guilds.
pub struct SessionRegistry {
    sessions: HashMap<u64, Session>,
    max_queue_size: u32,
}

impl View for SessionRegistry {
    type V = RegistryView;

    closed spec fn view(&self) -> RegistryView {
        RegistryView {
            sessions: session_views(self.sessions@),
            max_queue_size: self.max_queue_size,
        }
    }
}

impl SessionRegistry {
    /// The invariant of every registry.
    pub open spec fn wf(&self) -> bool {
        self@.wf()
    }

    /// A registry without sessions, whose queues will let `max_queue_size`
    /// tracks wait.
    pub fn new(max_queue_size: u32) -> (r: SessionRegistry)
        ensures
            r.wf(),
            r@.sessions == Map::<u64, SessionView>::empty(),
            r@.max_queue_size == max_queue_size,
    {
        let r = SessionRegistry { sessions: HashMap::new(), max_queue_size };
        assert(r@.sessions =~= Map::<u64, SessionView>::empty());
        r
    }

    /// The bound that every newly joined session gives its queue.
    pub fn max_queue_size(&self) -> (m: u32)
        ensures
            m == self@.max_queue_size,
    {
        self.max_queue_size
    }

    /// Looks up the session of `guild_id`. Never creates one.
    pub fn get(&self, guild_id: u64) -> (found: Option<&Session>)
        ensures
            match found {
                Some(session) => self@.get(guild_id) == Some(session@) && (self.wf()
                    ==> session.wf()),
                None => self@.get(guild_id) is None,
            },
    {
        self.sessions.get(&guild_id)
    }

    /// Whether `guild_id` has a session.
    pub fn contains(&self, guild_id: u64) -> (found: bool)
        ensures
            found == self@.sessions.contains_key(guild_id),
    {
        self.sessions.contains_key(&guild_id)
    }

    /// Takes the session of `guild_id` out, to put it back with `put`.
    fn take(&mut self, guild_id: u64) -> (taken: Option<Session>)
        requires
            old(self).wf(),
        ensures
            final(self).wf(),
            final(self)@ == old(self)@.leave(guild_id),
            match taken {
                Some(session) => old(self)@.get(guild_id) == Some(session@) && session.wf()
                    && session@.guild_id == guild_id,
                None => old(self)@.get(guild_id) is None,
            },
    {
        let taken = self.sessions.remove(&guild_id);
        assert(self@.sessions =~= old(self)@.sessions.remove(guild_id));
        proof {
            if taken is Some {
                assert(old(self)@.sessions.contains_key(guild_id));
            }
        }
        taken
    }

    /// Files `session` under its guild.
    fn put(&mut self, session: Session)
        requires
            old(self).wf(),
            session.wf(),
        ensures
            final(self).wf(),
            final(self)@ == old(self)@.with_session(session@),
    {
        let guild_id = session.guild_id();
        let _ = self.sessions.insert(guild_id, session);
        assert(self@.sessions =~= old(self)@.sessions.insert(guild_id, session@));
    }

    /// Joins the voice channel of the user who asked, and hands out the
    /// session that the guild then has. `channel` is that channel, if the
    /// user is in one; `connected` is whether the transport connected to it
    /// (of no account where there is no channel); `notify_channel` is where
    /// the session's notifications will go.
    pub fn join(&mut self, guild_id: u64, channel: Option<u64>, connected: bool, notify_channel: u64) -> (r:
        Result<&Session, JoinError>)
        requires
            old(self).wf(),
        ensures
            final(self).wf(),
            final(self)@ == old(self)@.join(guild_id, channel, connected, notify_channel),
            match r {
                Ok(session) => {
                    &&& RegistryView::join_result(channel, connected) is Ok
                    &&& final(self)@.get(guild_id) == Some(session@)
                    &&& session.wf()
                },
                Err(e) => RegistryView::join_result(channel, connected) == Err::<(), JoinError>(e),
            },
    {
        let channel_id = match channel {
            None => {
                return Err(JoinError::NoSuchChannel);
            },
            Some(channel_id) => channel_id,
        };
        if !connected {
            return Err(JoinError::ConnectionError);
        }
        let session = match self.take(guild_id) {
            Some(mut session) => {
                session.rejoin(channel_id, notify_channel);
                session
            },
            None => Session::new(guild_id, channel_id, notify_channel, self.max_queue_size),
        };
        self.put(session);
        assert(self@.sessions =~= old(self)@.join(
            guild_id,
            channel,
            connected,
            notify_channel,
        ).sessions);
        match self.get(guild_id) {
            Some(session) => Ok(session),
            None => unreached(),
        }
    }

    /// Tears the session of `guild_id` down. The transport must then
    /// disconnect.
    pub fn leave(&mut self, guild_id: u64) -> (r: Result<(), NotConnected>)
        requires
            old(self).wf(),
        ensures
            final(self).wf(),
            final(self)@ == old(self)@.leave(guild_id),
            r is Ok <==> old(self)@.sessions.contains_key(guild_id),
    {
        match self.take(guild_id) {
            Some(_) => Ok(()),
            None => Err(NotConnected),
        }
    }

    /// Enqueues `track` in the session of `guild_id`.
    pub fn enqueue(&mut self, guild_id: u64, track: Track) -> (r: Result<Position, EnqueueError>)
        requires
            old(self).wf(),
        ensures
            final(self).wf(),
            final(self)@ == old(self)@.update(guild_id, |s: SessionView| s.enqueue(track@)),
            r == match old(self)@.get(guild_id) {
                None => Err(EnqueueError::NotConnected),
                Some(session) => match session.queue.enqueue_result() {
                    Ok(position) => Ok(position),
                    Err(_) => Err(EnqueueError::QueueFull),
                },
            },
    {
        match self.take(guild_id) {
            None => {
                assert(self@.sessions =~= old(self)@.sessions);
                Err(EnqueueError::NotConnected)
            },
            Some(mut session) => {
                let r = session.enqueue(track);
                self.put(session);
                assert(self@.sessions =~= old(self)@.sessions.insert(guild_id, session@));
                match r {
                    Ok(position) => Ok(position),
                    Err(_) => Err(EnqueueError::QueueFull),
                }
            },
        }
    }

    /// Clears the queue of `guild_id`.
    pub fn clear(&mut self, guild_id: u64) -> (r: Result<Cleared, NotConnected>)
        requires
            old(self).wf(),
        ensures
            final(self).wf(),
            final(self)@ == old(self)@.update(guild_id, |s: SessionView| s.clear()),
            r == match old(self)@.get(guild_id) {
                None => Err(NotConnected),
                Some(session) => Ok(
                    if session.queue.tracks.len() == 0 {
                        Cleared::Nothing
                    } else {
                        Cleared::Stopped
                    },
                ),
            },
    {
        match self.take(guild_id) {
            None => {
                assert(self@.sessions =~= old(self)@.sessions);
                Err(NotConnected)
            },
            Some(mut session) => {
                let c = session.clear();
                self.put(session);
                assert(self@.sessions =~= old(self)@.sessions.insert(guild_id, session@));
                Ok(c)
            },
        }
    }

    /// Hands an event of the transport to the session of `guild_id`. A
    /// guild without a session hears nothing.
    pub fn track_ended(&mut self, guild_id: u64, event: VoiceEvent) -> (n: Option<Notification>)
        requires
            old(self).wf(),
        ensures
            final(self).wf(),
            final(self)@ == old(self)@.update(guild_id, |s: SessionView| s.track_ended(event)),
            option_notification_view(n) == match old(self)@.get(guild_id) {
                None => None,
                Some(session) => session.track_ended_notice(event),
            },
    {
        match self.take(guild_id) {
            None => {
                assert(self@.sessions =~= old(self)@.sessions);
                None
            },
            Some(mut session) => {
                let n = session.track_ended(event);
                self.put(session);
                assert(self@.sessions =~= old(self)@.sessions.insert(guild_id, session@));
                n
            },
        }
    }

    /// Decides a control command for `guild_id`. Nothing changes.
    pub fn decide(&self, guild_id: u64, command: ControlCommand, observed: Option<StreamState>) -> (r:
        Result<Decision, NotConnected>)
        ensures
            r == match self@.get(guild_id) {
                None => Err::<Decision, NotConnected>(NotConnected),
                Some(session) => Ok(session.queue.decide(command, observed)),
            },
    {
        match self.get(guild_id) {
            None => Err(NotConnected),
            Some(session) => Ok(session.decide(command, observed)),
        }
    }

    /// Records the transport's answer to `action` for `guild_id`.
    pub fn settle(&mut self, guild_id: u64, action: StreamAction, accepted: bool) -> (r: Result<
        Result<ControlOutcome, ControlError>,
        NotConnected,
    >)
        requires
            old(self).wf(),
        ensures
            final(self).wf(),
            final(self)@ == old(self)@.update(guild_id, |s: SessionView| s.settle(action, accepted)),
            r == match old(self)@.get(guild_id) {
                None => Err::<Result<ControlOutcome, ControlError>, NotConnected>(NotConnected),
                Some(session) => Ok(session.queue.settle_result(action, accepted)),
            },
    {
        match self.take(guild_id) {
            None => {
                assert(self@.sessions =~= old(self)@.sessions);
                Err(NotConnected)
            },
            Some(mut session) => {
                let r = session.settle(action, accepted);
                self.put(session);
                assert(self@.sessions =~= old(self)@.sessions.insert(guild_id, session@));
                Ok(r)
            },
        }
    }
}

/// Joining and leaving are the only ways in and out: a successful join
/// leaves the guild with a session, a leave leaves it with none, and neither
/// touches the session of any other guild.
pub proof fn lemma_join_and_leave(
    registry: RegistryView,
    guild_id: u64,
    other: u64,
    channel_id: u64,
    notify_channel: u64,
)
    requires
        registry.wf(),
        other != guild_id,
    ensures
        registry.join(guild_id, Some(channel_id), true, notify_channel).sessions.contains_key(
            guild_id,
        ),
        registry.join(guild_id, Some(channel_id), true, notify_channel).get(other) == registry.get(
            other,
        ),
        !registry.leave(guild_id).sessions.contains_key(guild_id),
        registry.leave(guild_id).get(other) == registry.get(other),
{
}

/// Joining again replaces the subscription and keeps the queue: whatever
/// the guild had queued is still queued, in the same order, and exactly one
/// notifier watches it.
pub proof fn lemma_rejoin_keeps_queue(
    registry: RegistryView,
    guild_id: u64,
    channel_id: u64,
    notify_channel: u64,
)
    requires
        registry.wf(),
        registry.sessions.contains_key(guild_id),
    ensures
        ({
            let after = registry.join(guild_id, Some(channel_id), true, notify_channel);
            &&& after.wf()
            &&& after.sessions[guild_id].queue == registry.sessions[guild_id].queue
            &&& after.sessions[guild_id].notifier.channel_id == notify_channel
            &&& after.sessions[guild_id].channel_id == channel_id
        }),
{
}

} // verus!
