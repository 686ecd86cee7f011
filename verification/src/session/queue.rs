//! The ordered, bounded queue of one guild's tracks.
//!
//! The head of the queue is the *current* track; the tracks behind it are
//! *pending*. The capacity bounds the pending tracks only, and only `enqueue`
//! enforces it.

use std::collections::VecDeque;
use vstd::prelude::*;

use crate::session::track::{LoopMode, PlayState, Track, TrackView};
use crate::utils::queue::is_gte_max_queue_size;

verus! {

/// Where an enqueued track landed.
#[derive(Clone, Copy, Debug, PartialEq, Eq, Structural)]
pub enum Position {
    /// The queue was empty: the track is the current one.
    Current,
    /// The track waits behind the current one.
    Queued,
}

/// The pending tracks already fill the capacity.
#[derive(Clone, Copy, Debug, PartialEq, Eq, Structural)]
pub struct QueueFull;

/// What `clear` found.
#[derive(Clone, Copy, Debug, PartialEq, Eq, Structural)]
pub enum Cleared {
    /// The queue held nothing.
    Nothing,
    /// Every track left the queue; the transport must stop playback.
    Stopped,
}

/// The mathematical value of a [`PlaybackQueue`].
pub struct QueueView {
    /// Play order: the current track first, then the pending ones.
    pub tracks: Seq<TrackView>,
    /// The most tracks that may be pending.
    pub capacity: nat,
}

impl QueueView {
    /// How many tracks wait behind the current one.
    pub open spec fn pending_len(self) -> nat {
        if self.tracks.len() == 0 {
            0
        } else {
            (self.tracks.len() - 1) as nat
        }
    }

    /// The pending tracks respect the capacity.
    pub open spec fn wf(self) -> bool {
        self.pending_len() <= self.capacity
    }

    /// The track at the head, if any.
    pub open spec fn current(self) -> Option<TrackView> {
        if self.tracks.len() == 0 {
            None
        } else {
            Some(self.tracks[0])
        }
    }

    /// Whether one more track can be taken: it would become current, or the
    /// pending tracks leave room for it.
    pub open spec fn has_room(self) -> bool {
        self.tracks.len() == 0 || self.pending_len() < self.capacity
    }

    /// The queue after an attempt to enqueue `track`.
    pub open spec fn enqueue(self, track: TrackView) -> QueueView {
        if self.has_room() {
            QueueView { tracks: self.tracks.push(track), ..self }
        } else {
            self
        }
    }

    /// What an attempt to enqueue reports.
    pub open spec fn enqueue_result(self) -> Result<Position, QueueFull> {
        if self.tracks.len() == 0 {
            Ok(Position::Current)
        } else if self.has_room() {
            Ok(Position::Queued)
        } else {
            Err(QueueFull)
        }
    }

    /// Whether the current track restarts when it completes.
    pub open spec fn head_loops(self) -> bool {
        self.tracks.len() > 0 && self.tracks[0].loop_mode == LoopMode::Infinite
    }

    /// The queue after its current track completed: a looping head stays,
    /// any other head leaves and the next pending track becomes current.
    pub open spec fn advance(self) -> QueueView {
        if self.tracks.len() == 0 || self.head_loops() {
            self
        } else {
            QueueView { tracks: self.tracks.skip(1), ..self }
        }
    }

    /// The queue with no track left.
    pub open spec fn clear(self) -> QueueView {
        QueueView { tracks: Seq::empty(), ..self }
    }

    /// The queue with the head replaced by `head`; an empty queue stays
    /// empty.
    pub open spec fn with_head(self, head: TrackView) -> QueueView {
        if self.tracks.len() == 0 {
            self
        } else {
            QueueView { tracks: self.tracks.update(0, head), ..self }
        }
    }

    /// The positional listing: one-based index and display title of every
    /// track, in play order.
    pub open spec fn listing(self) -> Seq<(u64, Seq<char>)> {
        Seq::new(self.tracks.len(), |i: int| ((i + 1) as u64, self.tracks[i].display_title()))
    }
}

/// The views of a run of tracks.
pub open spec fn track_views(tracks: Seq<Track>) -> Seq<TrackView> {
    tracks.map_values(|t: Track| t@)
}

/// The views of the entries of a listing.
pub open spec fn listing_view(entries: Seq<(u64, String)>) -> Seq<(u64, Seq<char>)> {
    entries.map_values(|e: (u64, String)| (e.0, e.1@))
}

/// One guild's tracks in play order, with a bound on the pending ones.
pub struct PlaybackQueue {
    tracks: VecDeque<Track>,
    capacity: u32,
}

impl View for PlaybackQueue {
    type V = QueueView;

    closed spec fn view(&self) -> QueueView {
        QueueView { tracks: track_views(self.tracks@), capacity: self.capacity as nat }
    }
}

impl PlaybackQueue {
    /// The invariant of every queue: the pending tracks respect the capacity.
    pub open spec fn wf(&self) -> bool {
        self@.wf()
    }

    /// An empty queue that lets `capacity` tracks wait.
    pub fn new(capacity: u32) -> (q: PlaybackQueue)
        ensures
            q@.tracks.len() == 0,
            q@.capacity == capacity,
            q.wf(),
    {
        PlaybackQueue { tracks: VecDeque::new(), capacity }
    }

    /// The most tracks that may be pending.
    pub fn capacity(&self) -> (c: u32)
        ensures
            c == self@.capacity,
    {
        self.capacity
    }

    /// Whether the queue holds no track at all.
    pub fn is_empty(&self) -> (e: bool)
        ensures
            e == (self@.tracks.len() == 0),
    {
        self.tracks.len() == 0
    }

    /// How many tracks the queue holds, the current one included.
    pub fn len(&self) -> (n: usize)
        ensures
            n == self@.tracks.len(),
    {
        self.tracks.len()
    }

    /// How many tracks wait behind the current one.
    pub fn pending_len(&self) -> (n: usize)
        ensures
            n == self@.pending_len(),
    {
        if self.tracks.len() == 0 {
            0
        } else {
            self.tracks.len() - 1
        }
    }

    /// The current track, if any.
    pub fn current(&self) -> (head: Option<&Track>)
        ensures
            match head {
                Some(t) => self@.current() == Some(t@),
                None => self@.current() is None,
            },
    {
        if self.tracks.len() == 0 {
            None
        } else {
            Some(&self.tracks[0])
        }
    }

    /// Appends `track`. An empty queue makes it the current track; otherwise
    /// it waits, unless the pending tracks already fill the capacity: then
    /// the queue stays as it was and the track is dropped.
    pub fn enqueue(&mut self, track: Track) -> (r: Result<Position, QueueFull>)
        requires
            old(self).wf(),
        ensures
            final(self)@ == old(self)@.enqueue(track@),
            r == old(self)@.enqueue_result(),
            final(self).wf(),
    {
        let held = self.tracks.len();
        if held == 0 {
            self.tracks.push_back(track);
            assert(self@.tracks =~= old(self)@.tracks.push(track@));
            Ok(Position::Current)
        } else if is_gte_max_queue_size((held - 1) as u32, self.capacity) {
            Err(QueueFull)
        } else {
            self.tracks.push_back(track);
            assert(self@.tracks =~= old(self)@.tracks.push(track@));
            Ok(Position::Queued)
        }
    }

    /// Called when the current track completed. A looping head stays where
    /// it is; any other head leaves, and the next pending track becomes
    /// current. Returns the track that left.
    pub fn advance(&mut self) -> (left: Option<Track>)
        requires
            old(self).wf(),
        ensures
            final(self)@ == old(self)@.advance(),
            final(self).wf(),
            match left {
                Some(t) => old(self)@.tracks.len() > 0 && !old(self)@.head_loops() && t@
                    == old(self)@.tracks[0],
                None => old(self)@.tracks.len() == 0 || old(self)@.head_loops(),
            },
    {
        if self.tracks.len() == 0 {
            return None;
        }
        if self.tracks[0].loop_mode == LoopMode::Infinite {
            return None;
        }
        let left = self.tracks.pop_front();
        assert(self@.tracks =~= old(self)@.tracks.skip(1));
        left
    }

    /// Removes every track, the current one included. Clearing an empty
    /// queue changes nothing and says so.
    pub fn clear(&mut self) -> (c: Cleared)
        ensures
            final(self)@ == old(self)@.clear(),
            final(self).wf(),
            c == if old(self)@.tracks.len() == 0 {
                Cleared::Nothing
            } else {
                Cleared::Stopped
            },
    {
        let held = self.tracks.len();
        self.tracks.clear();
        assert(self@.tracks =~= Seq::<TrackView>::empty());
        if held == 0 {
            Cleared::Nothing
        } else {
            Cleared::Stopped
        }
    }

    /// The positional listing for display: the one-based index and the
    /// display title of every track, in play order.
    pub fn list(&self) -> (entries: Vec<(u64, String)>)
        requires
            self.wf(),
        ensures
            listing_view(entries@) == self@.listing(),
    {
        let mut entries: Vec<(u64, String)> = Vec::new();
        let mut i: usize = 0;
        while i < self.tracks.len()
            invariant
                self.wf(),
                i <= self.tracks.len(),
                entries@.len() == i,
                forall|k: int|
                    0 <= k < i ==> #[trigger] entries@[k].0 == k + 1 && entries@[k].1@
                        == self@.tracks[k].display_title(),
            decreases self.tracks.len() - i,
        {
            let title = self.tracks[i].display_title();
            entries.push((i as u64 + 1, title));
            i = i + 1;
        }
        assert(listing_view(entries@) =~= self@.listing());
        entries
    }

    /// One entry of the positional listing, for those who walk the queue
    /// entry by entry: the one-based index and the display title of the
    /// track at `index` in play order, counted from zero.
    pub fn entry(&self, index: usize) -> (e: Option<(u64, String)>)
        requires
            self.wf(),
        ensures
            match e {
                Some(entry) => index < self@.tracks.len() && (entry.0, entry.1@)
                    == self@.listing()[index as int],
                None => index >= self@.tracks.len(),
            },
    {
        if index < self.tracks.len() {
            Some((index as u64 + 1, self.tracks[index].display_title()))
        } else {
            None
        }
    }

    /// Replaces the play state of the current track; an empty queue stays
    /// empty.
    pub(crate) fn set_play_state(&mut self, play_state: PlayState)
        requires
            old(self).wf(),
        ensures
            final(self).wf(),
            final(self)@ == match old(self)@.current() {
                Some(head) => old(self)@.with_head(head.with_play_state(play_state)),
                None => old(self)@,
            },
    {
        match self.tracks.pop_front() {
            Some(mut head) => {
                head.play_state = play_state;
                self.tracks.push_front(head);
                assert(self@.tracks =~= old(self)@.tracks.update(
                    0,
                    old(self)@.tracks[0].with_play_state(play_state),
                ));
            },
            None => {},
        }
    }

    /// Replaces the loop mode of the current track; an empty queue stays
    /// empty.
    pub(crate) fn set_loop_mode(&mut self, loop_mode: LoopMode)
        requires
            old(self).wf(),
        ensures
            final(self).wf(),
            final(self)@ == match old(self)@.current() {
                Some(head) => old(self)@.with_head(head.with_loop_mode(loop_mode)),
                None => old(self)@,
            },
    {
        match self.tracks.pop_front() {
            Some(mut head) => {
                head.loop_mode = loop_mode;
                self.tracks.push_front(head);
                assert(self@.tracks =~= old(self)@.tracks.update(
                    0,
                    old(self)@.tracks[0].with_loop_mode(loop_mode),
                ));
            },
            None => {},
        }
    }
}

/// The queue after an attempt to enqueue each of `tracks`, in order.
pub open spec fn enqueue_all(q: QueueView, tracks: Seq<TrackView>) -> QueueView
    decreases tracks.len(),
{
    if tracks.len() == 0 {
        q
    } else {
        enqueue_all(q, tracks.drop_last()).enqueue(tracks.last())
    }
}

/// The queue after `n` completions of its current track.
pub open spec fn advance_n(q: QueueView, n: nat) -> QueueView
    decreases n,
{
    if n == 0 {
        q
    } else {
        advance_n(q, (n - 1) as nat).advance()
    }
}

/// No track of `tracks` loops.
pub open spec fn all_finite(tracks: Seq<TrackView>) -> bool {
    forall|i: int| 0 <= i < tracks.len() ==> (#[trigger] tracks[i]).loop_mode == LoopMode::Finite
}

/// Whatever tracks are offered to a well-formed queue, in whatever number,
/// the pending tracks never exceed the capacity, and the capacity itself
/// never changes.
pub proof fn lemma_enqueue_keeps_bound(q: QueueView, tracks: Seq<TrackView>)
    requires
        q.wf(),
    ensures
        enqueue_all(q, tracks).wf(),
        enqueue_all(q, tracks).pending_len() <= q.capacity,
        enqueue_all(q, tracks).capacity == q.capacity,
    decreases tracks.len(),
{
    if tracks.len() > 0 {
        lemma_enqueue_keeps_bound(q, tracks.drop_last());
    }
}

/// Once the pending tracks fill the capacity, one more enqueue fails with
/// `QueueFull` and leaves the queue as it was.
pub proof fn lemma_enqueue_when_full(q: QueueView, track: TrackView)
    requires
        q.tracks.len() > 0,
        q.pending_len() >= q.capacity,
    ensures
        q.enqueue_result() == Err::<Position, QueueFull>(QueueFull),
        q.enqueue(track) == q,
        q.enqueue(track).tracks.len() == q.tracks.len(),
{
}

/// While every offered track finds room, the queue grows by exactly the
/// offered tracks, in the order in which they were offered.
pub proof fn lemma_enqueue_all_appends(q: QueueView, tracks: Seq<TrackView>)
    requires
        q.tracks.len() + tracks.len() <= q.capacity + 1,
    ensures
        enqueue_all(q, tracks).tracks == q.tracks + tracks,
        enqueue_all(q, tracks).capacity == q.capacity,
    decreases tracks.len(),
{
    if tracks.len() == 0 {
        assert(q.tracks + tracks =~= q.tracks);
    } else {
        lemma_enqueue_all_appends(q, tracks.drop_last());
        assert((q.tracks + tracks.drop_last()).push(tracks.last()) =~= q.tracks + tracks);
    }
}

/// A queue that starts empty takes one current track and `capacity` pending
/// ones; the enqueue after those fails and changes nothing.
pub proof fn lemma_fill_from_empty(capacity: nat, tracks: Seq<TrackView>, extra: TrackView)
    requires
        tracks.len() == capacity + 1,
    ensures
        ({
            let empty = QueueView { tracks: Seq::empty(), capacity };
            let filled = enqueue_all(empty, tracks);
            &&& filled.tracks == tracks
            &&& filled.pending_len() == capacity
            &&& filled.enqueue_result() == Err::<Position, QueueFull>(QueueFull)
            &&& filled.enqueue(extra) == filled
        }),
{
    let empty = QueueView { tracks: Seq::empty(), capacity };
    lemma_enqueue_all_appends(empty, tracks);
    assert(empty.tracks + tracks =~= tracks);
}

/// Clearing empties the queue and keeps its capacity; clearing what is
/// already empty changes nothing.
pub proof fn lemma_clear_empties(q: QueueView)
    ensures
        q.clear().tracks.len() == 0,
        q.clear().capacity == q.capacity,
        q.clear().wf(),
        q.clear().clear() == q.clear(),
        q.tracks.len() == 0 ==> q.clear() == q,
{
    if q.tracks.len() == 0 {
        assert(q.tracks =~= Seq::<TrackView>::empty());
    }
}

/// Tracks surface in the order in which they were enqueued: after `k`
/// completions the queue holds what it held before, less its first `k`
/// tracks. Looping tracks are left aside, since a looping head stays.
pub proof fn lemma_advance_is_fifo(q: QueueView, k: nat)
    requires
        all_finite(q.tracks),
        k <= q.tracks.len(),
    ensures
        advance_n(q, k).tracks == q.tracks.skip(k as int),
        advance_n(q, k).capacity == q.capacity,
        k < q.tracks.len() ==> advance_n(q, k).current() == Some(q.tracks[k as int]),
    decreases k,
{
    if k == 0 {
        assert(q.tracks.skip(0) =~= q.tracks);
    } else {
        lemma_advance_is_fifo(q, (k - 1) as nat);
        let before = advance_n(q, (k - 1) as nat);
        assert(before.tracks[0] == q.tracks[k - 1]);
        assert(before.tracks.skip(1) =~= q.tracks.skip(k as int));
    }
}

/// First in, first out: when every one of `tracks` is enqueued with success
/// and none loops, the `k`-th completion makes the `k`-th track current.
pub proof fn lemma_fifo_order(q: QueueView, tracks: Seq<TrackView>, k: nat)
    requires
        q.tracks.len() + tracks.len() <= q.capacity + 1,
        all_finite(q.tracks),
        all_finite(tracks),
        k < q.tracks.len() + tracks.len(),
    ensures
        advance_n(enqueue_all(q, tracks), k).current() == Some((q.tracks + tracks)[k as int]),
        advance_n(enqueue_all(q, tracks), k).tracks == (q.tracks + tracks).skip(k as int),
{
    lemma_enqueue_all_appends(q, tracks);
    lemma_advance_is_fifo(enqueue_all(q, tracks), k);
}

} // verus!
