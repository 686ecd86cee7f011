use poor_jimmy::session::controller::{
    ControlCommand, ControlError, ControlOutcome, ControllerState, Decision, PlayMode, PlaybackController,
    StreamAction, StreamState,
};
use poor_jimmy::session::queue::PlaybackQueue;
use poor_jimmy::session::track::{LoopMode, PlayState, Track};

fn queue_with(names: &[&str]) -> PlaybackQueue {
    let mut q = PlaybackQueue::new(15);
    for n in names {
        assert!(q.enqueue(Track::new(n.to_string(), None, None)).is_ok());
    }
    q
}

fn playing() -> Option<StreamState> {
    Some(StreamState { play_mode: PlayMode::Play, loop_mode: LoopMode::Finite })
}

fn paused() -> Option<StreamState> {
    Some(StreamState { play_mode: PlayMode::Pause, loop_mode: LoopMode::Finite })
}

fn looping() -> Option<StreamState> {
    Some(StreamState { play_mode: PlayMode::Play, loop_mode: LoopMode::Infinite })
}

const COMMANDS: [ControlCommand; 4] =
    [ControlCommand::Pause, ControlCommand::Resume, ControlCommand::Skip, ControlCommand::ToggleLoop];

#[test]
fn empty_queue_has_nothing_to_act_on() {
    let q = queue_with(&[]);
    assert_eq!(PlaybackController::state(&q), ControllerState::Empty);
    for command in COMMANDS {
        for observed in [None, playing(), paused(), looping()] {
            assert_eq!(
                PlaybackController::decide(&q, command, observed),
                Decision::Done(ControlOutcome::NothingToActOn)
            );
        }
        assert!(!PlaybackController::needs_query(&q, command));
    }
}

#[test]
fn only_skip_decides_without_reading_the_stream() {
    let q = queue_with(&["a"]);
    assert!(PlaybackController::needs_query(&q, ControlCommand::Pause));
    assert!(PlaybackController::needs_query(&q, ControlCommand::Resume));
    assert!(PlaybackController::needs_query(&q, ControlCommand::ToggleLoop));
    assert!(!PlaybackController::needs_query(&q, ControlCommand::Skip));
    assert_eq!(PlaybackController::decide(&q, ControlCommand::Skip, None), Decision::Act(StreamAction::Stop));
}

#[test]
fn failed_state_read_fails_the_command() {
    let q = queue_with(&["a"]);
    for command in [ControlCommand::Pause, ControlCommand::Resume, ControlCommand::ToggleLoop] {
        assert_eq!(
            PlaybackController::decide(&q, command, None),
            Decision::Failed(ControlError::StateQueryError)
        );
    }
}

#[test]
fn pause_decisions_follow_the_stream() {
    let q = queue_with(&["a"]);
    assert_eq!(
        PlaybackController::decide(&q, ControlCommand::Pause, playing()),
        Decision::Act(StreamAction::Pause)
    );
    assert_eq!(
        PlaybackController::decide(&q, ControlCommand::Pause, paused()),
        Decision::Done(ControlOutcome::AlreadyPaused)
    );
}

#[test]
fn resume_decisions_follow_the_stream() {
    let q = queue_with(&["a"]);
    assert_eq!(
        PlaybackController::decide(&q, ControlCommand::Resume, paused()),
        Decision::Act(StreamAction::Resume)
    );
    assert_eq!(
        PlaybackController::decide(&q, ControlCommand::Resume, playing()),
        Decision::Done(ControlOutcome::AlreadyPlaying)
    );
}

#[test]
fn stopped_and_ended_streams_are_neither_paused_nor_resumed() {
    let q = queue_with(&["a"]);
    for play_mode in [PlayMode::Stop, PlayMode::End] {
        let observed = Some(StreamState { play_mode, loop_mode: LoopMode::Finite });
        assert_eq!(
            PlaybackController::decide(&q, ControlCommand::Pause, observed),
            Decision::Done(ControlOutcome::AlreadyPaused)
        );
        assert_eq!(
            PlaybackController::decide(&q, ControlCommand::Resume, observed),
            Decision::Done(ControlOutcome::AlreadyPlaying)
        );
    }
}

#[test]
fn loop_decisions_follow_the_stream() {
    let q = queue_with(&["a"]);
    assert_eq!(
        PlaybackController::decide(&q, ControlCommand::ToggleLoop, playing()),
        Decision::Act(StreamAction::EnableLoop)
    );
    assert_eq!(
        PlaybackController::decide(&q, ControlCommand::ToggleLoop, looping()),
        Decision::Act(StreamAction::DisableLoop)
    );
}

#[test]
fn accepted_pause_and_resume_change_the_state() {
    let mut q = queue_with(&["a", "b"]);
    assert_eq!(PlaybackController::state(&q), ControllerState::Playing);
    assert_eq!(PlaybackController::settle(&mut q, StreamAction::Pause, true), Ok(ControlOutcome::Paused));
    assert_eq!(PlaybackController::state(&q), ControllerState::Paused);
    assert_eq!(q.current().map(|t| t.play_state), Some(PlayState::Paused));
    assert_eq!(PlaybackController::settle(&mut q, StreamAction::Resume, true), Ok(ControlOutcome::Resumed));
    assert_eq!(PlaybackController::state(&q), ControllerState::Playing);
    assert_eq!(q.len(), 2);
}

#[test]
fn rejected_action_is_a_control_error_and_changes_nothing() {
    for action in [
        StreamAction::Pause,
        StreamAction::Resume,
        StreamAction::Stop,
        StreamAction::EnableLoop,
        StreamAction::DisableLoop,
    ] {
        let mut q = queue_with(&["a"]);
        let before = q.current().cloned();
        assert_eq!(PlaybackController::settle(&mut q, action, false), Err(ControlError::ControlError));
        assert_eq!(q.current().cloned(), before);
    }
}

#[test]
fn accepted_stop_leaves_the_queue_to_the_completion_signal() {
    let mut q = queue_with(&["a", "b"]);
    assert_eq!(PlaybackController::settle(&mut q, StreamAction::Stop, true), Ok(ControlOutcome::Skipped));
    assert_eq!(q.len(), 2);
    assert_eq!(q.current().map(|t| t.reference.clone()), Some("a".to_string()));
}

#[test]
fn accepted_stop_ends_looping_so_that_the_track_leaves() {
    let mut q = queue_with(&["a", "b"]);
    assert!(PlaybackController::settle(&mut q, StreamAction::EnableLoop, true).is_ok());
    assert!(q.advance().is_none());
    assert_eq!(PlaybackController::settle(&mut q, StreamAction::Stop, false), Err(ControlError::ControlError));
    assert_eq!(q.current().map(|t| t.loop_mode), Some(LoopMode::Infinite));
    assert_eq!(PlaybackController::settle(&mut q, StreamAction::Stop, true), Ok(ControlOutcome::Skipped));
    assert_eq!(q.len(), 2);
    assert_eq!(q.advance().map(|t| t.reference), Some("a".to_string()));
    assert_eq!(q.current().map(|t| t.reference.clone()), Some("b".to_string()));
}

#[test]
fn settle_on_empty_queue_has_nothing_to_act_on() {
    let mut q = queue_with(&[]);
    assert_eq!(PlaybackController::settle(&mut q, StreamAction::Pause, true), Ok(ControlOutcome::NothingToActOn));
    assert_eq!(PlaybackController::settle(&mut q, StreamAction::Pause, false), Ok(ControlOutcome::NothingToActOn));
    assert!(q.is_empty());
}

#[test]
fn toggling_loop_twice_restores_the_loop_mode() {
    let mut q = queue_with(&["a", "b"]);
    let before = q.current().map(|t| t.loop_mode);
    assert_eq!(before, Some(LoopMode::Finite));
    for _ in 0..2 {
        let head = q.current().cloned().unwrap();
        let observed = Some(StreamState { play_mode: PlayMode::Play, loop_mode: head.loop_mode });
        match PlaybackController::decide(&q, ControlCommand::ToggleLoop, observed) {
            Decision::Act(action) => {
                assert!(PlaybackController::settle(&mut q, action, true).is_ok());
            }
            other => panic!("unexpected decision {:?}", other),
        }
    }
    assert_eq!(q.current().map(|t| t.loop_mode), before);
}

#[test]
fn loop_toggle_mirrors_the_loop_mode_on_the_head_only() {
    let mut q = queue_with(&["a", "b"]);
    assert_eq!(
        PlaybackController::settle(&mut q, StreamAction::EnableLoop, true),
        Ok(ControlOutcome::LoopEnabled)
    );
    assert_eq!(q.current().map(|t| t.loop_mode), Some(LoopMode::Infinite));
    assert_eq!(q.current().map(|t| t.play_state), Some(PlayState::Playing));
    assert!(q.advance().is_none());
    assert_eq!(
        PlaybackController::settle(&mut q, StreamAction::DisableLoop, true),
        Ok(ControlOutcome::LoopDisabled)
    );
    assert_eq!(q.advance().map(|t| t.reference), Some("a".to_string()));
    assert_eq!(q.current().map(|t| t.loop_mode), Some(LoopMode::Finite));
}

#[test]
fn accepted_outcomes_name_the_action() {
    assert_eq!(StreamAction::Pause.accepted_outcome(), ControlOutcome::Paused);
    assert_eq!(StreamAction::Resume.accepted_outcome(), ControlOutcome::Resumed);
    assert_eq!(StreamAction::Stop.accepted_outcome(), ControlOutcome::Skipped);
    assert_eq!(StreamAction::EnableLoop.accepted_outcome(), ControlOutcome::LoopEnabled);
    assert_eq!(StreamAction::DisableLoop.accepted_outcome(), ControlOutcome::LoopDisabled);
}
