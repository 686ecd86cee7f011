use poor_jimmy::handlers::track_end::{TrackEndNotifier, VoiceEvent, NOTIFICATION_DELAY_SECS};
use poor_jimmy::session::notification::Notification;
use poor_jimmy::session::queue::PlaybackQueue;
use poor_jimmy::session::track::{LoopMode, Track};

fn queue_with(titles: &[Option<&str>]) -> PlaybackQueue {
    let mut q = PlaybackQueue::new(15);
    for (i, t) in titles.iter().enumerate() {
        let track = Track::new(format!("ref{}", i), t.map(|s| s.to_string()), None);
        assert!(q.enqueue(track).is_ok());
    }
    q
}

#[test]
fn notifier_is_armed_by_a_queue_with_a_current_track() {
    let empty = queue_with(&[]);
    let busy = queue_with(&[Some("a")]);
    assert_eq!(TrackEndNotifier::new(7, &empty), TrackEndNotifier { channel_id: 7, armed: false });
    assert_eq!(TrackEndNotifier::new(7, &busy), TrackEndNotifier { channel_id: 7, armed: true });
}

#[test]
fn other_events_are_ignored() {
    let mut q = queue_with(&[Some("a"), Some("b")]);
    let mut n = TrackEndNotifier::new(7, &q);
    assert_eq!(n.act(VoiceEvent::Other, &mut q), None);
    assert_eq!(q.len(), 2);
    assert!(n.armed);
}

#[test]
fn completion_announces_the_next_track() {
    let mut q = queue_with(&[Some("a"), Some("b"), None]);
    let mut n = TrackEndNotifier::new(7, &q);
    assert_eq!(n.act(VoiceEvent::Track, &mut q), Some(Notification::NowPlaying("b".to_string())));
    assert_eq!(n.act(VoiceEvent::Track, &mut q), Some(Notification::NowPlaying("Mystery song".to_string())));
    assert_eq!(q.len(), 1);
    assert_eq!(n.channel_id, 7);
}

#[test]
fn queue_end_is_announced_exactly_once() {
    let mut q = queue_with(&[Some("a")]);
    let mut n = TrackEndNotifier::new(7, &q);
    assert_eq!(n.act(VoiceEvent::Track, &mut q), Some(Notification::QueueEnded));
    assert_eq!(n.act(VoiceEvent::Track, &mut q), None);
    assert_eq!(n.act(VoiceEvent::Track, &mut q), None);
    assert!(q.is_empty());
}

#[test]
fn last_track_ends_the_queue_whatever_the_notifier_knew() {
    let mut q = queue_with(&[]);
    let mut n = TrackEndNotifier::new(7, &q);
    assert!(!n.armed);
    let track = Track::new("a".to_string(), Some("A".to_string()), None);
    assert!(q.enqueue(track).is_ok());
    assert_eq!(n.act(VoiceEvent::Track, &mut q), Some(Notification::QueueEnded));
    assert!(q.is_empty());
    assert!(!n.armed);
    assert_eq!(n.act(VoiceEvent::Track, &mut q), None);
}

#[test]
fn unarmed_notifier_announces_the_next_track_and_then_the_end() {
    let mut q = queue_with(&[]);
    let mut n = TrackEndNotifier::new(7, &q);
    for name in ["a", "b"] {
        assert!(q.enqueue(Track::new(name.to_string(), Some(name.to_uppercase()), None)).is_ok());
    }
    assert_eq!(n.act(VoiceEvent::Track, &mut q), Some(Notification::NowPlaying("B".to_string())));
    assert_eq!(n.act(VoiceEvent::Track, &mut q), Some(Notification::QueueEnded));
    assert_eq!(n.act(VoiceEvent::Track, &mut q), None);
}

#[test]
fn stray_signal_on_a_fresh_queue_says_nothing() {
    let mut q = queue_with(&[]);
    let mut n = TrackEndNotifier::new(7, &q);
    assert_eq!(n.act(VoiceEvent::Track, &mut q), None);
}

#[test]
fn looping_head_is_announced_again() {
    let mut q = PlaybackQueue::new(15);
    let mut t = Track::new("a".to_string(), Some("A".to_string()), None);
    t.loop_mode = LoopMode::Infinite;
    assert!(q.enqueue(t).is_ok());
    let mut n = TrackEndNotifier::new(7, &q);
    assert_eq!(n.act(VoiceEvent::Track, &mut q), Some(Notification::NowPlaying("A".to_string())));
    assert_eq!(q.len(), 1);
}

#[test]
fn notification_messages() {
    assert_eq!(Notification::NowPlaying("Heat Waves".to_string()).message(), "**Now playing:** Heat Waves!");
    assert_eq!(Notification::QueueEnded.message(), "Queue has **ended!**");
    assert_eq!(
        Notification::QueueingStarted.message(),
        "**Queueing** playlist. This may take some time. Some commands will be unavailable until completed."
    );
    assert_eq!(Notification::QueueingSummary(0).message(), "No songs **queued!**");
    assert_eq!(Notification::QueueingSummary(1).message(), "1 songs **queued!** Use **/list** to view them");
    assert_eq!(Notification::QueueingSummary(12).message(), "12 songs **queued!** Use **/list** to view them");
}

#[test]
fn notification_delay_is_two_seconds() {
    assert_eq!(NOTIFICATION_DELAY_SECS, 2);
}
