//! The play/pause/skip/loop state machine of one guild's current track.
//!
//! The authoritative state of a stream lives with the transport, so every
//! control operation is check-then-act: the caller reads the stream's state,
//! `decide` says what to do about it, the caller asks the transport to do
//! it, and `settle` records what the transport answered.

use vstd::prelude::*;

use crate::session::queue::{PlaybackQueue, QueueView};
use crate::session::track::{LoopMode, PlayState};

verus! {

/// The state of a session's controller.
#[derive(Clone, Copy, Debug, PartialEq, Eq, Structural)]
pub enum ControllerState {
    /// No current track.
    Empty,
    Playing,
    Paused,
}

/// A control command.
#[derive(Clone, Copy, Debug, PartialEq, Eq, Structural)]
pub enum ControlCommand {
    Pause,
    Resume,
    Skip,
    ToggleLoop,
}

/// The play mode that the transport reports of a stream.
#[derive(Clone, Copy, Debug, PartialEq, Eq, Structural)]
pub enum PlayMode {
    /// The stream is playing.
    Play,
    /// The stream is paused, and can be resumed.
    Pause,
    /// The stream was stopped by hand.
    Stop,
    /// The stream has run to its end.
    End,
}

impl PlayMode {
    /// The mode that the transport reports of a stream in `state`.
    pub open spec fn of(state: PlayState) -> PlayMode {
        match state {
            PlayState::Playing => PlayMode::Play,
            PlayState::Paused => PlayMode::Pause,
        }
    }
}

/// What the transport reports of a stream.
#[derive(Clone, Copy, Debug, PartialEq, Eq, Structural)]
pub struct StreamState {
    pub play_mode: PlayMode,
    pub loop_mode: LoopMode,
}

/// What the transport is asked to do to the current stream.
#[derive(Clone, Copy, Debug, PartialEq, Eq, Structural)]
pub enum StreamAction {
    Pause,
    Resume,
    /// Force-stop the stream, looping or not; its completion signal
    /// advances the queue.
    Stop,
    EnableLoop,
    DisableLoop,
}

/// Why a control command failed.
#[derive(Clone, Copy, Debug, PartialEq, Eq, Structural)]
pub enum ControlError {
    /// The transport rejected the action.
    ControlError,
    /// The stream's state could not be read.
    StateQueryError,
}

/// How a control command ended.
#[derive(Clone, Copy, Debug, PartialEq, Eq, Structural)]
pub enum ControlOutcome {
    /// There is no current track.
    NothingToActOn,
    AlreadyPaused,
    AlreadyPlaying,
    Paused,
    Resumed,
    Skipped,
    LoopEnabled,
    LoopDisabled,
}

/// The verdict on a command, once the stream's state is known.
#[derive(Clone, Copy, Debug, PartialEq, Eq, Structural)]
pub enum Decision {
    /// Nothing is asked of the transport; the command ends here.
    Done(ControlOutcome),
    /// The transport must perform the action; `settle` takes its answer.
    Act(StreamAction),
    /// The command fails without any change.
    Failed(ControlError),
}

impl ControlCommand {
    /// Whether the command is decided on the stream's state.
    pub open spec fn reads_state(self) -> bool {
        self != ControlCommand::Skip
    }
}

impl QueueView {
    /// The controller state that the queue shows.
    pub open spec fn state(self) -> ControllerState {
        match self.current() {
            None => ControllerState::Empty,
            Some(head) => match head.play_state {
                PlayState::Playing => ControllerState::Playing,
                PlayState::Paused => ControllerState::Paused,
            },
        }
    }

    /// What the transport reports of the current track while it agrees with
    /// the queue.
    pub open spec fn mirrored(self) -> Option<StreamState> {
        match self.current() {
            None => None,
            Some(head) => Some(
                StreamState { play_mode: PlayMode::of(head.play_state), loop_mode: head.loop_mode },
            ),
        }
    }

    /// The verdict on `command`, given what was read of the stream
    /// (`None`: the read failed, or was not made). Only a stream that plays
    /// is paused, and only one that is paused is resumed.
    pub open spec fn decide(self, command: ControlCommand, observed: Option<StreamState>) -> Decision {
        if self.tracks.len() == 0 {
            Decision::Done(ControlOutcome::NothingToActOn)
        } else if command == ControlCommand::Skip {
            Decision::Act(StreamAction::Stop)
        } else {
            match observed {
                None => Decision::Failed(ControlError::StateQueryError),
                Some(stream) => match command {
                    ControlCommand::Pause => if stream.play_mode == PlayMode::Play {
                        Decision::Act(StreamAction::Pause)
                    } else {
                        Decision::Done(ControlOutcome::AlreadyPaused)
                    },
                    ControlCommand::Resume => if stream.play_mode == PlayMode::Pause {
                        Decision::Act(StreamAction::Resume)
                    } else {
                        Decision::Done(ControlOutcome::AlreadyPlaying)
                    },
                    _ => if stream.loop_mode == LoopMode::Infinite {
                        Decision::Act(StreamAction::DisableLoop)
                    } else {
                        Decision::Act(StreamAction::EnableLoop)
                    },
                },
            }
        }
    }

    /// The queue after the transport answered to `action`: unchanged where
    /// the transport rejected it, else with the action mirrored on the
    /// head. A stopped stream does not restart, so a stop ends looping.
    pub open spec fn settle(self, action: StreamAction, accepted: bool) -> QueueView {
        match self.current() {
            Some(head) if accepted => match action {
                StreamAction::Pause => self.with_head(head.with_play_state(PlayState::Paused)),
                StreamAction::Resume => self.with_head(head.with_play_state(PlayState::Playing)),
                StreamAction::Stop => self.with_head(head.with_loop_mode(LoopMode::Finite)),
                StreamAction::EnableLoop => self.with_head(head.with_loop_mode(LoopMode::Infinite)),
                StreamAction::DisableLoop => self.with_head(head.with_loop_mode(LoopMode::Finite)),
            },
            _ => self,
        }
    }

    /// What `settle` reports.
    pub open spec fn settle_result(self, action: StreamAction, accepted: bool) -> Result<
        ControlOutcome,
        ControlError,
    > {
        if self.tracks.len() == 0 {
            Ok(ControlOutcome::NothingToActOn)
        } else if !accepted {
            Err(ControlError::ControlError)
        } else {
            Ok(action.outcome())
        }
    }

    /// The queue after a whole command: the verdict, and the transport's
    /// answer where the verdict asks for one.
    pub open spec fn control(
        self,
        command: ControlCommand,
        observed: Option<StreamState>,
        accepted: bool,
    ) -> QueueView {
        match self.decide(command, observed) {
            Decision::Act(action) => self.settle(action, accepted),
            _ => self,
        }
    }
}

impl StreamAction {
    /// How a command ends once the transport accepted the action.
    pub open spec fn outcome(self) -> ControlOutcome {
        match self {
            StreamAction::Pause => ControlOutcome::Paused,
            StreamAction::Resume => ControlOutcome::Resumed,
            StreamAction::Stop => ControlOutcome::Skipped,
            StreamAction::EnableLoop => ControlOutcome::LoopEnabled,
            StreamAction::DisableLoop => ControlOutcome::LoopDisabled,
        }
    }

    pub fn accepted_outcome(self) -> (o: ControlOutcome)
        ensures
            o == self.outcome(),
    {
        match self {
            StreamAction::Pause => ControlOutcome::Paused,
            StreamAction::Resume => ControlOutcome::Resumed,
            StreamAction::Stop => ControlOutcome::Skipped,
            StreamAction::EnableLoop => ControlOutcome::LoopEnabled,
            StreamAction::DisableLoop => ControlOutcome::LoopDisabled,
        }
    }
}

/// The state machine over one guild's queue.
pub struct PlaybackController;

impl PlaybackController {
    /// The controller state that `queue` shows.
    pub fn state(queue: &PlaybackQueue) -> (s: ControllerState)
        ensures
            s == queue@.state(),
    {
        match queue.current() {
            None => ControllerState::Empty,
            Some(head) => match head.play_state {
                PlayState::Playing => ControllerState::Playing,
                PlayState::Paused => ControllerState::Paused,
            },
        }
    }

    /// Whether the stream's state must be read before `decide` can give a
    /// verdict on `command` that is no failure.
    pub fn needs_query(queue: &PlaybackQueue, command: ControlCommand) -> (needed: bool)
        ensures
            needed == (queue@.tracks.len() > 0 && command.reads_state()),
    {
        !queue.is_empty() && !matches!(command, ControlCommand::Skip)
    }

    /// Decides `command` on what was read of the current stream. `observed`
    /// is `None` where the read failed or was not made. Nothing changes.
    pub fn decide(queue: &PlaybackQueue, command: ControlCommand, observed: Option<StreamState>) -> (d:
        Decision)
        ensures
            d == queue@.decide(command, observed),
    {
        if queue.is_empty() {
            return Decision::Done(ControlOutcome::NothingToActOn);
        }
        if matches!(command, ControlCommand::Skip) {
            return Decision::Act(StreamAction::Stop);
        }
        let stream = match observed {
            None => {
                return Decision::Failed(ControlError::StateQueryError);
            },
            Some(stream) => stream,
        };
        match command {
            ControlCommand::Pause => match stream.play_mode {
                PlayMode::Play => Decision::Act(StreamAction::Pause),
                _ => Decision::Done(ControlOutcome::AlreadyPaused),
            },
            ControlCommand::Resume => match stream.play_mode {
                PlayMode::Pause => Decision::Act(StreamAction::Resume),
                _ => Decision::Done(ControlOutcome::AlreadyPlaying),
            },
            _ => match stream.loop_mode {
                LoopMode::Infinite => Decision::Act(StreamAction::DisableLoop),
                LoopMode::Finite => Decision::Act(StreamAction::EnableLoop),
            },
        }
    }

    /// Records the transport's answer to `action`. A rejected action changes
    /// nothing and is a `ControlError`; an accepted one is mirrored on the
    /// current track. A forced stop ends a track for good, so it ends its
    /// looping too; the track itself leaves the queue only when the
    /// completion signal of the stopped stream advances the queue.
    pub fn settle(queue: &mut PlaybackQueue, action: StreamAction, accepted: bool) -> (r: Result<
        ControlOutcome,
        ControlError,
    >)
        requires
            old(queue).wf(),
        ensures
            final(queue).wf(),
            final(queue)@ == old(queue)@.settle(action, accepted),
            r == old(queue)@.settle_result(action, accepted),
    {
        if queue.is_empty() {
            return Ok(ControlOutcome::NothingToActOn);
        }
        if !accepted {
            return Err(ControlError::ControlError);
        }
        match action {
            StreamAction::Pause => queue.set_play_state(PlayState::Paused),
            StreamAction::Resume => queue.set_play_state(PlayState::Playing),
            StreamAction::Stop => queue.set_loop_mode(LoopMode::Finite),
            StreamAction::EnableLoop => queue.set_loop_mode(LoopMode::Infinite),
            StreamAction::DisableLoop => queue.set_loop_mode(LoopMode::Finite),
        }
        Ok(action.accepted_outcome())
    }
}

/// The transition table. With no current track every command leaves the
/// controller empty. Otherwise, read against a stream that agrees with the
/// queue and answered by a transport that accepts: pause leads to `Paused`,
/// resume to `Playing`, and skip and loop leave the play state alone; a
/// command for the state that the stream is already in is reported as such.
pub proof fn lemma_transition_table(q: QueueView, command: ControlCommand)
    ensures
        q.state() == ControllerState::Empty ==> q.control(command, q.mirrored(), true) == q,
        q.state() == ControllerState::Empty ==> q.decide(command, q.mirrored()) == Decision::Done(
            ControlOutcome::NothingToActOn,
        ),
        q.state() != ControllerState::Empty ==> q.control(
            ControlCommand::Pause,
            q.mirrored(),
            true,
        ).state() == ControllerState::Paused,
        q.state() != ControllerState::Empty ==> q.control(
            ControlCommand::Resume,
            q.mirrored(),
            true,
        ).state() == ControllerState::Playing,
        q.control(ControlCommand::Skip, q.mirrored(), true).state() == q.state(),
        q.control(ControlCommand::ToggleLoop, q.mirrored(), true).state() == q.state(),
        q.state() == ControllerState::Paused ==> q.decide(ControlCommand::Pause, q.mirrored())
            == Decision::Done(ControlOutcome::AlreadyPaused),
        q.state() == ControllerState::Playing ==> q.decide(ControlCommand::Resume, q.mirrored())
            == Decision::Done(ControlOutcome::AlreadyPlaying),
{
}

/// Skip advances the queue: once the transport stopped the stream, the
/// completion signal that follows makes the next pending track current,
/// whether the skipped track was looping or not.
pub proof fn lemma_skip_advances(q: QueueView, observed: Option<StreamState>)
    requires
        q.tracks.len() > 0,
    ensures
        q.decide(ControlCommand::Skip, observed) == Decision::Act(StreamAction::Stop),
        q.control(ControlCommand::Skip, observed, true).advance().tracks == q.tracks.skip(1),
        q.control(ControlCommand::Skip, observed, true).advance().capacity == q.capacity,
{
    let stopped = q.control(ControlCommand::Skip, observed, true);
    assert(stopped.tracks.skip(1) =~= q.tracks.skip(1));
}

/// Whatever was read and whatever the transport answered, a command keeps
/// the number of tracks and every track behind the head, and touches the
/// head's runtime state only.
pub proof fn lemma_control_touches_head_only(
    q: QueueView,
    command: ControlCommand,
    observed: Option<StreamState>,
    accepted: bool,
)
    ensures
        ({
            let after = q.control(command, observed, accepted);
            &&& after.capacity == q.capacity
            &&& after.tracks.len() == q.tracks.len()
            &&& forall|i: int| 1 <= i < q.tracks.len() ==> after.tracks[i] == q.tracks[i]
            &&& q.tracks.len() > 0 ==> {
                &&& after.tracks[0].reference == q.tracks[0].reference
                &&& after.tracks[0].title == q.tracks[0].title
                &&& after.tracks[0].thumbnail == q.tracks[0].thumbnail
            }
        }),
{
}

/// A command whose state read failed, or whose action the transport
/// rejected, changes nothing.
pub proof fn lemma_failed_control_changes_nothing(
    q: QueueView,
    command: ControlCommand,
    observed: Option<StreamState>,
)
    ensures
        q.control(command, observed, false) == q,
        command.reads_state() ==> q.control(command, None, true) == q,
{
}

/// Toggling the loop twice, with no completion in between, returns the
/// current track to the loop mode that the first toggle read; where the
/// stream agreed with the queue at the start, the queue is as it was.
pub proof fn lemma_loop_toggle_twice(q: QueueView, first: StreamState)
    requires
        q.tracks.len() > 0,
    ensures
        ({
            let once = q.control(ControlCommand::ToggleLoop, Some(first), true);
            let twice = once.control(ControlCommand::ToggleLoop, once.mirrored(), true);
            &&& once.tracks[0].loop_mode == first.loop_mode.flipped()
            &&& twice.tracks[0].loop_mode == first.loop_mode
            &&& q.mirrored() == Some(first) ==> twice == q
        }),
{
    let once = q.control(ControlCommand::ToggleLoop, Some(first), true);
    let twice = once.control(ControlCommand::ToggleLoop, once.mirrored(), true);
    if q.mirrored() == Some(first) {
        assert(twice.tracks =~= q.tracks);
    }
}

} // verus!
