use poor_jimmy::handlers::track_end::{TrackEndNotifier, VoiceEvent};
use poor_jimmy::session::controller::{
    ControlCommand, ControlError, ControlOutcome, Decision, PlayMode, StreamAction, StreamState,
};
use poor_jimmy::session::notification::Notification;
use poor_jimmy::session::queue::{Cleared, Position, QueueFull};
use poor_jimmy::session::registry::{EnqueueError, JoinError, NotConnected, Session, SessionRegistry};
use poor_jimmy::session::track::{LoopMode, PlayState, Track};

fn track(name: &str) -> Track {
    Track::new(name.to_string(), Some(name.to_uppercase()), None)
}

#[test]
fn new_registry_has_no_sessions() {
    let r = SessionRegistry::new(15);
    assert_eq!(r.max_queue_size(), 15);
    assert!(r.get(1).is_none());
    assert!(!r.contains(1));
}

#[test]
fn lookup_never_creates_a_session() {
    let r = SessionRegistry::new(15);
    assert!(r.get(1).is_none());
    assert!(r.get(1).is_none());
    assert!(!r.contains(1));
}

#[test]
fn join_without_channel_is_no_such_channel() {
    let mut r = SessionRegistry::new(15);
    assert_eq!(r.join(1, None, true, 9).err(), Some(JoinError::NoSuchChannel));
    assert_eq!(r.join(1, None, false, 9).err(), Some(JoinError::NoSuchChannel));
    assert!(!r.contains(1));
}

#[test]
fn join_with_failed_transport_is_connection_error() {
    let mut r = SessionRegistry::new(15);
    assert_eq!(r.join(1, Some(5), false, 9).err(), Some(JoinError::ConnectionError));
    assert!(!r.contains(1));
}

#[test]
fn join_creates_a_session_with_the_configured_capacity() {
    let mut r = SessionRegistry::new(3);
    assert!(r.join(1, Some(5), true, 9).is_ok());
    let s = r.get(1).unwrap();
    assert_eq!(s.guild_id(), 1);
    assert_eq!(s.channel_id(), 5);
    assert_eq!(s.queue().capacity(), 3);
    assert!(s.queue().is_empty());
    assert_eq!(s.notifier(), TrackEndNotifier { channel_id: 9, armed: false });
}

#[test]
fn rejoin_keeps_the_queue_and_replaces_the_subscription() {
    let mut r = SessionRegistry::new(15);
    assert!(r.join(1, Some(5), true, 9).is_ok());
    assert_eq!(r.enqueue(1, track("a")), Ok(Position::Current));
    assert_eq!(r.enqueue(1, track("b")), Ok(Position::Queued));
    assert!(r.join(1, Some(6), true, 10).is_ok());
    let s = r.get(1).unwrap();
    assert_eq!(s.channel_id(), 6);
    assert_eq!(s.queue().len(), 2);
    assert_eq!(s.queue().current().map(|t| t.reference.clone()), Some("a".to_string()));
    assert_eq!(s.notifier(), TrackEndNotifier { channel_id: 10, armed: true });
}

#[test]
fn failed_rejoin_changes_nothing() {
    let mut r = SessionRegistry::new(15);
    assert!(r.join(1, Some(5), true, 9).is_ok());
    assert_eq!(r.join(1, Some(6), false, 10).err(), Some(JoinError::ConnectionError));
    assert_eq!(r.join(1, None, true, 10).err(), Some(JoinError::NoSuchChannel));
    let s = r.get(1).unwrap();
    assert_eq!(s.channel_id(), 5);
    assert_eq!(s.notifier().channel_id, 9);
}

#[test]
fn leave_removes_the_session_and_fails_without_one() {
    let mut r = SessionRegistry::new(15);
    assert_eq!(r.leave(1), Err(NotConnected));
    assert!(r.join(1, Some(5), true, 9).is_ok());
    assert_eq!(r.leave(1), Ok(()));
    assert!(!r.contains(1));
    assert_eq!(r.leave(1), Err(NotConnected));
}

#[test]
fn guilds_are_independent() {
    let mut r = SessionRegistry::new(15);
    assert!(r.join(1, Some(5), true, 9).is_ok());
    assert!(r.join(2, Some(6), true, 10).is_ok());
    assert_eq!(r.enqueue(1, track("a")), Ok(Position::Current));
    assert!(r.get(2).unwrap().queue().is_empty());
    assert_eq!(r.leave(1), Ok(()));
    assert!(r.contains(2));
}

#[test]
fn enqueue_reports_each_error() {
    let mut r = SessionRegistry::new(1);
    assert_eq!(r.enqueue(1, track("a")), Err(EnqueueError::NotConnected));
    assert!(r.join(1, Some(5), true, 9).is_ok());
    assert_eq!(r.enqueue(1, track("a")), Ok(Position::Current));
    assert_eq!(r.enqueue(1, track("b")), Ok(Position::Queued));
    assert_eq!(r.enqueue(1, track("c")), Err(EnqueueError::QueueFull));
    assert_eq!(r.get(1).unwrap().queue().len(), 2);
}

#[test]
fn clear_through_the_registry() {
    let mut r = SessionRegistry::new(15);
    assert_eq!(r.clear(1), Err(NotConnected));
    assert!(r.join(1, Some(5), true, 9).is_ok());
    assert_eq!(r.clear(1), Ok(Cleared::Nothing));
    assert_eq!(r.enqueue(1, track("a")), Ok(Position::Current));
    assert_eq!(r.clear(1), Ok(Cleared::Stopped));
    assert_eq!(r.clear(1), Ok(Cleared::Nothing));
    assert!(r.get(1).unwrap().queue().is_empty());
}

#[test]
fn cleared_queue_announces_its_end_once() {
    let mut r = SessionRegistry::new(15);
    assert!(r.join(1, Some(5), true, 9).is_ok());
    assert_eq!(r.enqueue(1, track("a")), Ok(Position::Current));
    assert_eq!(r.clear(1), Ok(Cleared::Stopped));
    assert_eq!(r.track_ended(1, VoiceEvent::Track), Some(Notification::QueueEnded));
    assert_eq!(r.track_ended(1, VoiceEvent::Track), None);
    assert_eq!(r.enqueue(1, track("b")), Ok(Position::Current));
    assert_eq!(r.track_ended(1, VoiceEvent::Track), Some(Notification::QueueEnded));
    assert_eq!(r.track_ended(1, VoiceEvent::Track), None);
}

#[test]
fn track_end_without_session_says_nothing() {
    let mut r = SessionRegistry::new(15);
    assert_eq!(r.track_ended(1, VoiceEvent::Track), None);
    assert!(!r.contains(1));
}

#[test]
fn control_through_the_registry() {
    let mut r = SessionRegistry::new(15);
    let playing = Some(StreamState { play_mode: PlayMode::Play, loop_mode: LoopMode::Finite });
    assert_eq!(r.decide(1, ControlCommand::Pause, playing), Err(NotConnected));
    assert_eq!(r.settle(1, StreamAction::Pause, true), Err(NotConnected));
    assert!(r.join(1, Some(5), true, 9).is_ok());
    assert_eq!(
        r.decide(1, ControlCommand::Pause, playing),
        Ok(Decision::Done(ControlOutcome::NothingToActOn))
    );
    assert_eq!(r.enqueue(1, track("a")), Ok(Position::Current));
    assert_eq!(r.decide(1, ControlCommand::Pause, playing), Ok(Decision::Act(StreamAction::Pause)));
    assert_eq!(r.settle(1, StreamAction::Pause, false), Ok(Err(ControlError::ControlError)));
    assert_eq!(r.get(1).unwrap().queue().current().map(|t| t.play_state), Some(PlayState::Playing));
    assert_eq!(r.settle(1, StreamAction::Pause, true), Ok(Ok(ControlOutcome::Paused)));
    assert_eq!(r.get(1).unwrap().queue().current().map(|t| t.play_state), Some(PlayState::Paused));
}

#[test]
fn session_works_on_its_own() {
    let mut s = Session::new(1, 5, 9, 1);
    assert_eq!(s.enqueue(track("a")), Ok(Position::Current));
    assert!(s.notifier().armed);
    assert_eq!(s.enqueue(track("b")), Ok(Position::Queued));
    assert_eq!(s.enqueue(track("c")), Err(QueueFull));
    assert_eq!(s.decide(ControlCommand::Skip, None), Decision::Act(StreamAction::Stop));
    assert_eq!(s.settle(StreamAction::Stop, true), Ok(ControlOutcome::Skipped));
    assert_eq!(s.track_ended(VoiceEvent::Track), Some(Notification::NowPlaying("B".to_string())));
    assert_eq!(s.clear(), Cleared::Stopped);
    s.rejoin(6, 10);
    assert_eq!(s.channel_id(), 6);
    assert_eq!(s.notifier(), TrackEndNotifier { channel_id: 10, armed: false });
}

#[test]
fn join_hands_out_the_session() {
    let mut r = SessionRegistry::new(4);
    let session = r.join(1, Some(5), true, 9).unwrap();
    assert_eq!(session.guild_id(), 1);
    assert_eq!(session.channel_id(), 5);
    assert_eq!(session.queue().capacity(), 4);
    assert_eq!(session.notifier().channel_id, 9);
}
