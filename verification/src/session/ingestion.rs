//! Playlist ingestion: from a playlist listing to queued tracks, with
//! tolerance for the entries that fail on the way.
//!
//! A listing is expanded once into an ordered list of track references.
//! Failure there aborts the whole ingestion. After that every reference is
//! on its own: one that does not resolve, or that the queue has no room for,
//! is skipped, and the ones that follow are still tried. What is reported at
//! the end is the number of tracks that were queued.

use vstd::prelude::*;

use crate::session::notification::{Notification, NotificationView};
use crate::session::queue::enqueue_all;
use crate::session::registry::{RegistryView, SessionRegistry, SessionView};
use crate::session::track::{Track, TrackView};

verus! {

/// The error of the `regex` crate, `regex::Error`: why a pattern did not
/// compile. Nothing is claimed of what it holds; it is only told from
/// success.
#[verifier::external_type_specification]
#[verifier::external_body]
pub struct ExRegexError(regex::Error);

/// What the `regex` crate finds: `None` where `pattern` does not compile,
/// else, for each successive non-overlapping match of `pattern` in
/// `haystack`, what capture group `group` matched, if it took part.
pub uninterp spec fn regex_group_matches(pattern: Seq<char>, group: usize, haystack: Seq<char>) -> Option<
    Seq<Option<Seq<char>>>,
>;

/// The views of optional strings.
pub open spec fn option_texts(items: Seq<Option<String>>) -> Seq<Option<Seq<char>>> {
    items.map_values(
        |item: Option<String>|
            match item {
                Some(text) => Some(text@),
                None => None,
            },
    )
}

/// The views of strings.
pub open spec fn texts(items: Seq<String>) -> Seq<Seq<char>> {
    items.map_values(|item: String| item@)
}

/// Compiles `pattern` with `regex::Regex::new` and walks
/// `Regex::captures_iter` over `haystack`, keeping of every match what
/// `Captures::get(group)` holds. Trusted: the result is the one that
/// `regex_group_matches` names, and an error comes back exactly where that
/// is `None`.
#[verifier::external_body]
fn group_matches(pattern: &str, group: usize, haystack: &str) -> (r: Result<
    Vec<Option<String>>,
    regex::Error,
>)
    ensures
        match r {
            Ok(found) => regex_group_matches(pattern@, group, haystack@) == Some(
                option_texts(found@),
            ),
            Err(_) => regex_group_matches(pattern@, group, haystack@) is None,
        },
{
    let re = regex::Regex::new(pattern)?;
    Ok(re.captures_iter(haystack).map(|c| c.get(group).map(|m| m.as_str().to_string())).collect())
}

/// One entry of a flat playlist listing: the quoted `url` field of a video,
/// with the video's address as its first capture group.
pub const PLAYLIST_ENTRY_PATTERN: &'static str =
    "\"url\": \"(https://www.youtube.com/watch\\?v=[A-Za-z0-9]{11})\"";

/// The playlist could not be expanded into track references.
#[derive(Clone, Copy, Debug, PartialEq, Eq, Structural)]
pub struct ResolutionError;

/// The items that are there, in order.
pub open spec fn present<T>(items: Seq<Option<T>>) -> Seq<T>
    decreases items.len(),
{
    if items.len() == 0 {
        Seq::empty()
    } else {
        match items.last() {
            Some(item) => present(items.drop_last()).push(item),
            None => present(items.drop_last()),
        }
    }
}

/// The references that a search result stands for: none where the search
/// itself failed, else the groups that took part, in match order.
pub open spec fn references_of(matches: Option<Seq<Option<Seq<char>>>>) -> Result<
    Seq<Seq<char>>,
    ResolutionError,
> {
    match matches {
        None => Err(ResolutionError),
        Some(groups) => Ok(present(groups)),
    }
}

/// The view of an expansion.
pub open spec fn expansion_view(r: Result<Vec<String>, ResolutionError>) -> Result<
    Seq<Seq<char>>,
    ResolutionError,
> {
    match r {
        Ok(references) => Ok(texts(references@)),
        Err(e) => Err(e),
    }
}

/// The view of a search result.
pub open spec fn matches_view(r: Result<Vec<Option<String>>, regex::Error>) -> Option<
    Seq<Option<Seq<char>>>,
> {
    match r {
        Ok(found) => Some(option_texts(found@)),
        Err(_) => None,
    }
}

/// Turns the result of a search into track references: a failed search is a
/// `ResolutionError`, and of a successful one the groups that took part are
/// kept, in order.
pub fn collect_references(matches: Result<Vec<Option<String>>, regex::Error>) -> (r: Result<
    Vec<String>,
    ResolutionError,
>)
    ensures
        expansion_view(r) == references_of(matches_view(matches)),
{
    let found = match matches {
        Err(_) => {
            return Err(ResolutionError);
        },
        Ok(found) => found,
    };
    let mut references: Vec<String> = Vec::new();
    let mut i: usize = 0;
    while i < found.len()
        invariant
            i <= found.len(),
            texts(references@) == present(option_texts(found@).take(i as int)),
        decreases found.len() - i,
    {
        let ghost before = option_texts(found@).take(i as int);
        let ghost upto = option_texts(found@).take(i + 1);
        assert(upto.drop_last() =~= before);
        match &found[i] {
            Some(text) => {
                references.push(text.clone());
                assert(texts(references@) =~= present(before).push(text@));
            },
            None => {},
        }
        i = i + 1;
    }
    assert(option_texts(found@).take(found.len() as int) =~= option_texts(found@));
    Ok(references)
}

/// Expands a flat playlist listing into the references of its videos, in
/// listing order.
pub fn expand_playlist(listing: &str) -> (r: Result<Vec<String>, ResolutionError>)
    ensures
        expansion_view(r) == references_of(
            regex_group_matches(PLAYLIST_ENTRY_PATTERN@, 1, listing@),
        ),
{
    collect_references(group_matches(PLAYLIST_ENTRY_PATTERN, 1, listing))
}

/// The views of resolution outcomes: a track where the reference resolved,
/// nothing where it did not.
pub open spec fn outcome_views(outcomes: Seq<Option<Track>>) -> Seq<Option<TrackView>> {
    outcomes.map_values(
        |outcome: Option<Track>|
            match outcome {
                Some(track) => Some(track@),
                None => None,
            },
    )
}

/// How many items are missing.
pub open spec fn missing<T>(items: Seq<Option<T>>) -> nat
    decreases items.len(),
{
    if items.len() == 0 {
        0
    } else if items.last() is None {
        missing(items.drop_last()) + 1
    } else {
        missing(items.drop_last())
    }
}

impl SessionView {
    /// The session after one reference of a batch was dealt with: a track
    /// that resolved is offered to the queue, a failure changes nothing.
    pub open spec fn ingest_one(self, outcome: Option<TrackView>) -> SessionView {
        match outcome {
            Some(track) => self.enqueue(track),
            None => self,
        }
    }

    /// Whether one reference of a batch ends up queued: it resolved, and
    /// the queue has room.
    pub open spec fn takes(self, outcome: Option<TrackView>) -> bool {
        outcome is Some && self.queue.has_room()
    }
}

/// The session after a batch was worked through, in order.
pub open spec fn ingest(session: SessionView, outcomes: Seq<Option<TrackView>>) -> SessionView
    decreases outcomes.len(),
{
    if outcomes.len() == 0 {
        session
    } else {
        ingest(session, outcomes.drop_last()).ingest_one(outcomes.last())
    }
}

/// How many tracks of a batch end up queued.
pub open spec fn ingest_count(session: SessionView, outcomes: Seq<Option<TrackView>>) -> nat
    decreases outcomes.len(),
{
    if outcomes.len() == 0 {
        0
    } else if ingest(session, outcomes.drop_last()).takes(outcomes.last()) {
        ingest_count(session, outcomes.drop_last()) + 1
    } else {
        ingest_count(session, outcomes.drop_last())
    }
}

fn clone_outcome(outcome: &Option<Track>) -> (copy: Option<Track>)
    ensures
        match copy {
            Some(track) => *outcome matches Some(given) && track@ == given@,
            None => *outcome is None,
        },
{
    match outcome {
        Some(track) => Some(track.clone()),
        None => None,
    }
}

/// Works a batch of resolution outcomes through the queue of `guild_id`,
/// in order: every track that resolved is offered to the queue, and one
/// that finds no room is skipped like one that did not resolve. Returns the
/// number of tracks queued. A guild without a session queues nothing.
pub fn enqueue_batch(registry: &mut SessionRegistry, guild_id: u64, resolved: Vec<Option<Track>>) -> (queued:
    u64)
    requires
        old(registry).wf(),
    ensures
        final(registry).wf(),
        final(registry)@ == old(registry)@.update(
            guild_id,
            |s: SessionView| ingest(s, outcome_views(resolved@)),
        ),
        queued == match old(registry)@.get(guild_id) {
            None => 0,
            Some(session) => ingest_count(session, outcome_views(resolved@)),
        },
{
    let ghost outcomes = outcome_views(resolved@);
    let ghost before = registry@;
    if !registry.contains(guild_id) {
        return 0;
    }
    let ghost session = before.sessions[guild_id];
    let mut queued: u64 = 0;
    let mut i: usize = 0;
    assert(before.sessions.insert(guild_id, session) =~= before.sessions);
    while i < resolved.len()
        invariant
            registry.wf(),
            i <= resolved.len(),
            outcomes == outcome_views(resolved@),
            before.sessions.contains_key(guild_id),
            session == before.sessions[guild_id],
            registry@.max_queue_size == before.max_queue_size,
            registry@.sessions == before.sessions.insert(
                guild_id,
                ingest(session, outcomes.take(i as int)),
            ),
            queued == ingest_count(session, outcomes.take(i as int)),
            queued <= i,
        decreases resolved.len() - i,
    {
        let ghost upto = outcomes.take(i + 1);
        assert(upto.drop_last() =~= outcomes.take(i as int));
        assert(upto.last() == outcomes[i as int]);
        let ghost current = ingest(session, outcomes.take(i as int));
        match clone_outcome(&resolved[i]) {
            Some(track) => {
                let r = registry.enqueue(guild_id, track);
                assert(registry@.sessions =~= before.sessions.insert(
                    guild_id,
                    current.enqueue(track@),
                ));
                if r.is_ok() {
                    queued = queued + 1;
                }
            },
            None => {},
        }
        i = i + 1;
    }
    assert(outcomes.take(resolved.len() as int) =~= outcomes);
    queued
}

/// A batch counts at most the tracks that resolved, and the queue ends up
/// as if exactly the resolved tracks had been offered to it one by one, in
/// their order.
pub proof fn lemma_ingest_offers_resolved(session: SessionView, outcomes: Seq<Option<TrackView>>)
    ensures
        ingest(session, outcomes).queue == enqueue_all(session.queue, present(outcomes)),
        ingest(session, outcomes).guild_id == session.guild_id,
        ingest_count(session, outcomes) <= present(outcomes).len(),
        present(outcomes).len() + missing(outcomes) == outcomes.len(),
    decreases outcomes.len(),
{
    if outcomes.len() > 0 {
        lemma_ingest_offers_resolved(session, outcomes.drop_last());
        if outcomes.last() is Some {
            assert(present(outcomes).drop_last() =~= present(outcomes.drop_last()));
        }
    }
}

/// Partial-batch tolerance: of `N` references of which `M` fail to resolve,
/// a queue with room for the rest takes exactly `N - M`, and then holds what
/// it held before followed by exactly those tracks, in their relative order.
pub proof fn lemma_partial_batch(session: SessionView, outcomes: Seq<Option<TrackView>>)
    requires
        session.queue.tracks.len() + present(outcomes).len() <= session.queue.capacity + 1,
    ensures
        ingest_count(session, outcomes) == outcomes.len() - missing(outcomes),
        ingest_count(session, outcomes) == present(outcomes).len(),
        ingest(session, outcomes).queue.tracks == session.queue.tracks + present(outcomes),
        ingest(session, outcomes).queue.capacity == session.queue.capacity,
    decreases outcomes.len(),
{
    lemma_ingest_offers_resolved(session, outcomes);
    crate::session::queue::lemma_enqueue_all_appends(session.queue, present(outcomes));
    if outcomes.len() > 0 {
        let rest = outcomes.drop_last();
        lemma_partial_batch(session, rest);
        lemma_ingest_offers_resolved(session, rest);
        crate::session::queue::lemma_enqueue_all_appends(session.queue, present(rest));
    }
}

/// A batch without references queues nothing and changes nothing.
pub proof fn lemma_empty_batch(session: SessionView)
    ensures
        ingest(session, Seq::empty()) == session,
        ingest_count(session, Seq::empty()) == 0,
{
}

/// The ingestion of one batch into the queue of one guild, reference by
/// reference. Whoever drives it resolves `next_reference`, hands the
/// outcome to `accept`, and goes on until no reference is left; `summary`
/// then tells how many tracks were queued.
pub struct PlaylistIngestionPipeline {
    guild_id: u64,
    references: Vec<String>,
    next: usize,
    queued: u64,
}

/// The mathematical value of a [`PlaylistIngestionPipeline`].
pub struct PipelineView {
    pub guild_id: u64,
    /// The references of the batch, in order.
    pub references: Seq<Seq<char>>,
    /// How many references were dealt with.
    pub next: nat,
    /// How many of them ended up queued.
    pub queued: nat,
}

impl PipelineView {
    /// No more references were dealt with than there are, and no more
    /// tracks queued than references dealt with.
    pub open spec fn wf(self) -> bool {
        self.queued <= self.next <= self.references.len()
    }

    /// A pipeline that has not dealt with any reference yet.
    pub open spec fn fresh(guild_id: u64, references: Seq<Seq<char>>) -> PipelineView {
        PipelineView { guild_id, references, next: 0, queued: 0 }
    }

    /// Whether every reference was dealt with.
    pub open spec fn done(self) -> bool {
        self.next >= self.references.len()
    }

    /// Whether the outcome of the next reference ends up queued.
    pub open spec fn takes(self, registry: RegistryView, outcome: Option<TrackView>) -> bool {
        &&& !self.done()
        &&& registry.get(self.guild_id) matches Some(session)
        &&& session.takes(outcome)
    }

    /// The pipeline after the outcome of the next reference.
    pub open spec fn accept(self, registry: RegistryView, outcome: Option<TrackView>) -> PipelineView {
        if self.done() {
            self
        } else {
            PipelineView {
                next: self.next + 1,
                queued: if self.takes(registry, outcome) {
                    self.queued + 1
                } else {
                    self.queued
                },
                ..self
            }
        }
    }

    /// The registry after the outcome of the next reference.
    pub open spec fn accept_into(self, registry: RegistryView, outcome: Option<TrackView>) -> RegistryView {
        if self.done() {
            registry
        } else {
            registry.update(self.guild_id, |s: SessionView| s.ingest_one(outcome))
        }
    }
}

impl View for PlaylistIngestionPipeline {
    type V = PipelineView;

    closed spec fn view(&self) -> PipelineView {
        PipelineView {
            guild_id: self.guild_id,
            references: texts(self.references@),
            next: self.next as nat,
            queued: self.queued as nat,
        }
    }
}

/// The view of what starting a pipeline gives.
pub open spec fn start_view(r: Result<(PlaylistIngestionPipeline, Notification), ResolutionError>) -> Result<
    (PipelineView, NotificationView),
    ResolutionError,
> {
    match r {
        Ok((pipeline, notification)) => Ok((pipeline@, notification@)),
        Err(e) => Err(e),
    }
}

/// What starting a pipeline on an expansion gives: the failure of the
/// expansion, or a fresh pipeline and the notice that queueing started.
pub open spec fn started(guild_id: u64, expansion: Result<Seq<Seq<char>>, ResolutionError>) -> Result<
    (PipelineView, NotificationView),
    ResolutionError,
> {
    match expansion {
        Ok(references) => Ok(
            (PipelineView::fresh(guild_id, references), NotificationView::QueueingStarted),
        ),
        Err(e) => Err(e),
    }
}

impl PlaylistIngestionPipeline {
    /// The invariant of every pipeline.
    pub open spec fn wf(&self) -> bool {
        self@.wf()
    }

    /// A pipeline over references that are already expanded.
    pub fn from_references(guild_id: u64, references: Vec<String>) -> (p: PlaylistIngestionPipeline)
        ensures
            p.wf(),
            p@ == PipelineView::fresh(guild_id, texts(references@)),
    {
        PlaylistIngestionPipeline { guild_id, references, next: 0, queued: 0 }
    }

    /// Starts a pipeline on the expansion of a playlist. A failed expansion
    /// aborts: nothing will be queued. Otherwise the pipeline comes with the
    /// notice that queueing started, to be sent before the first reference
    /// is resolved.
    pub fn from_expansion(guild_id: u64, expansion: Result<Vec<String>, ResolutionError>) -> (r: Result<
        (PlaylistIngestionPipeline, Notification),
        ResolutionError,
    >)
        ensures
            start_view(r) == started(guild_id, expansion_view(expansion)),
            r matches Ok((pipeline, _)) ==> pipeline.wf(),
    {
        match expansion {
            Err(e) => Err(e),
            Ok(references) => Ok(
                (
                    PlaylistIngestionPipeline::from_references(guild_id, references),
                    Notification::QueueingStarted,
                ),
            ),
        }
    }

    /// Starts a pipeline on a playlist listing, as the resolver printed it;
    /// `None` stands for a resolver that failed. The listing is expanded
    /// once, and the pipeline starts on the expansion.
    pub fn start(guild_id: u64, listing: Option<&str>) -> (r: Result<
        (PlaylistIngestionPipeline, Notification),
        ResolutionError,
    >)
        ensures
            start_view(r) == started(
                guild_id,
                match listing {
                    None => Err(ResolutionError),
                    Some(text) => references_of(
                        regex_group_matches(PLAYLIST_ENTRY_PATTERN@, 1, text@),
                    ),
                },
            ),
            r matches Ok((pipeline, _)) ==> pipeline.wf(),
    {
        match listing {
            None => Err(ResolutionError),
            Some(text) => PlaylistIngestionPipeline::from_expansion(guild_id, expand_playlist(text)),
        }
    }

    /// The guild whose queue the pipeline feeds.
    pub fn guild_id(&self) -> (g: u64)
        ensures
            g == self@.guild_id,
    {
        self.guild_id
    }

    /// Whether every reference was dealt with.
    pub fn is_done(&self) -> (done: bool)
        ensures
            done == self@.done(),
    {
        self.next >= self.references.len()
    }

    /// The reference to resolve next, if one is left.
    pub fn next_reference(&self) -> (reference: Option<&String>)
        ensures
            match reference {
                Some(text) => !self@.done() && text@ == self@.references[self@.next as int],
                None => self@.done(),
            },
    {
        if self.next < self.references.len() {
            Some(&self.references[self.next])
        } else {
            None
        }
    }

    /// How many tracks were queued so far.
    pub fn queued(&self) -> (n: u64)
        ensures
            n == self@.queued,
    {
        self.queued
    }

    /// Takes the outcome of resolving the next reference: a track, or
    /// `None` where the reference did not resolve. The track is offered to
    /// the queue of the pipeline's guild; no session, no room and no track
    /// all skip the reference without stopping the batch. Returns whether
    /// the track was queued. Once every reference was dealt with, further
    /// outcomes are ignored.
    pub fn accept(&mut self, registry: &mut SessionRegistry, resolved: Option<Track>) -> (taken: bool)
        requires
            old(self).wf(),
            old(registry).wf(),
        ensures
            final(self).wf(),
            final(registry).wf(),
            taken == old(self)@.takes(
                old(registry)@,
                match resolved {
                    Some(track) => Some(track@),
                    None => None,
                },
            ),
            final(self)@ == old(self)@.accept(
                old(registry)@,
                match resolved {
                    Some(track) => Some(track@),
                    None => None,
                },
            ),
            final(registry)@ == old(self)@.accept_into(
                old(registry)@,
                match resolved {
                    Some(track) => Some(track@),
                    None => None,
                },
            ),
    {
        if self.next >= self.references.len() {
            return false;
        }
        let taken = match resolved {
            None => {
                proof {
                    if registry@.sessions.contains_key(self.guild_id) {
                        assert(registry@.sessions.insert(
                            self.guild_id,
                            registry@.sessions[self.guild_id],
                        ) =~= registry@.sessions);
                    }
                }
                false
            },
            Some(track) => registry.enqueue(self.guild_id, track).is_ok(),
        };
        self.next = self.next + 1;
        if taken {
            self.queued = self.queued + 1;
        }
        taken
    }

    /// The summary of the batch: one notice with the number of tracks
    /// queued, however many references there were.
    pub fn summary(&self) -> (n: Notification)
        ensures
            n@ == NotificationView::QueueingSummary(self@.queued as u64),
    {
        Notification::QueueingSummary(self.queued)
    }
}

/// Driving a pipeline step by step does what the batch does at once: each
/// step deals with one outcome as `ingest_one` does, and counts it exactly
/// when the session takes it.
pub proof fn lemma_pipeline_step(pipeline: PipelineView, registry: RegistryView, outcome: Option<TrackView>)
    requires
        pipeline.wf(),
        !pipeline.done(),
        registry.sessions.contains_key(pipeline.guild_id),
    ensures
        ({
            let session = registry.sessions[pipeline.guild_id];
            let after = pipeline.accept_into(registry, outcome);
            &&& pipeline.accept(registry, outcome).wf()
            &&& after.sessions[pipeline.guild_id] == ingest(session, seq![outcome])
            &&& pipeline.accept(registry, outcome).queued == pipeline.queued + ingest_count(
                session,
                seq![outcome],
            )
        }),
{
    let session = registry.sessions[pipeline.guild_id];
    assert(seq![outcome].drop_last() =~= Seq::<Option<TrackView>>::empty());
    assert(seq![outcome].last() == outcome);
    assert(ingest(session, seq![outcome].drop_last()) == session);
    assert(ingest_count(session, seq![outcome].drop_last()) == 0);
}

/// The pipeline and the registry after the outcomes of the pipeline's
/// next references were accepted one by one, in order.
pub open spec fn drive(pipeline: PipelineView, registry: RegistryView, outcomes: Seq<Option<TrackView>>) -> (
    PipelineView,
    RegistryView,
)
    decreases outcomes.len(),
{
    if outcomes.len() == 0 {
        (pipeline, registry)
    } else {
        let (before, held) = drive(pipeline, registry, outcomes.drop_last());
        (before.accept(held, outcomes.last()), before.accept_into(held, outcomes.last()))
    }
}

/// Driving a fresh pipeline through the outcomes of its references, one by
/// one, does what the batch does at once: the session of the pipeline's
/// guild ends up as `ingest` has it, the pipeline counts what `ingest_count`
/// counts, and no other guild's session is touched.
pub proof fn lemma_pipeline_ingests(
    guild_id: u64,
    references: Seq<Seq<char>>,
    registry: RegistryView,
    outcomes: Seq<Option<TrackView>>,
)
    requires
        outcomes.len() <= references.len(),
        registry.sessions.contains_key(guild_id),
    ensures
        ({
            let session = registry.sessions[guild_id];
            let (pipeline, after) = drive(
                PipelineView::fresh(guild_id, references),
                registry,
                outcomes,
            );
            &&& pipeline.wf()
            &&& pipeline.guild_id == guild_id
            &&& pipeline.references == references
            &&& pipeline.next == outcomes.len()
            &&& pipeline.queued == ingest_count(session, outcomes)
            &&& after.sessions == registry.sessions.insert(guild_id, ingest(session, outcomes))
            &&& after.max_queue_size == registry.max_queue_size
        }),
    decreases outcomes.len(),
{
    let session = registry.sessions[guild_id];
    let fresh = PipelineView::fresh(guild_id, references);
    lemma_ingest_offers_resolved(session, outcomes);
    if outcomes.len() == 0 {
        assert(registry.sessions.insert(guild_id, session) =~= registry.sessions);
    } else {
        let rest = outcomes.drop_last();
        lemma_pipeline_ingests(guild_id, references, registry, rest);
        lemma_ingest_offers_resolved(session, rest);
        let (before, held) = drive(fresh, registry, rest);
        assert(held.get(guild_id) == Some(ingest(session, rest)));
        assert(before.accept_into(held, outcomes.last()).sessions =~= registry.sessions.insert(
            guild_id,
            ingest(session, outcomes),
        ));
    }
}

/// Partial-batch tolerance of the driven pipeline: of `N` references of
/// which `M` fail to resolve, a queue with room for the rest takes exactly
/// `N - M`, the pipeline counts exactly those, and the queue then holds what
/// it held before followed by exactly those tracks, in their relative
/// order.
pub proof fn lemma_pipeline_partial_batch(
    guild_id: u64,
    references: Seq<Seq<char>>,
    registry: RegistryView,
    outcomes: Seq<Option<TrackView>>,
)
    requires
        outcomes.len() == references.len(),
        registry.sessions.contains_key(guild_id),
        registry.sessions[guild_id].queue.tracks.len() + present(outcomes).len()
            <= registry.sessions[guild_id].queue.capacity + 1,
    ensures
        ({
            let session = registry.sessions[guild_id];
            let (pipeline, after) = drive(
                PipelineView::fresh(guild_id, references),
                registry,
                outcomes,
            );
            &&& pipeline.done()
            &&& pipeline.queued == outcomes.len() - missing(outcomes)
            &&& after.sessions.contains_key(guild_id)
            &&& after.sessions[guild_id].queue.tracks == session.queue.tracks + present(outcomes)
            &&& after.sessions[guild_id].queue.capacity == session.queue.capacity
        }),
{
    lemma_pipeline_ingests(guild_id, references, registry, outcomes);
    lemma_partial_batch(registry.sessions[guild_id], outcomes);
}

/// A session that is torn down while its batch is still being worked
/// through does not stop the batch: each remaining reference is skipped,
/// the registry stays as it is, and the count keeps what was queued before.
pub proof fn lemma_torn_down_session_is_skipped(
    pipeline: PipelineView,
    registry: RegistryView,
    outcome: Option<TrackView>,
)
    requires
        pipeline.wf(),
        !pipeline.done(),
        !registry.sessions.contains_key(pipeline.guild_id),
    ensures
        !pipeline.takes(registry, outcome),
        pipeline.accept_into(registry, outcome) == registry,
        pipeline.accept(registry, outcome).queued == pipeline.queued,
        pipeline.accept(registry, outcome).next == pipeline.next + 1,
        pipeline.accept(registry, outcome).wf(),
{
}

} // verus!
