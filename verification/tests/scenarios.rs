use poor_jimmy::commands::{join, play, skip, Step};
use poor_jimmy::handlers::track_end::VoiceEvent;
use poor_jimmy::session::controller::StreamAction;
use poor_jimmy::session::ingestion::enqueue_batch;
use poor_jimmy::session::notification::Notification;
use poor_jimmy::session::registry::SessionRegistry;
use poor_jimmy::session::track::Track;
use poor_jimmy::utils::result::Outcome;

fn track(name: &str) -> Track {
    Track::new(name.to_string(), Some(name.to_string()), None)
}

fn current(r: &SessionRegistry, guild_id: u64) -> Option<String> {
    r.get(guild_id).unwrap().queue().current().map(|t| t.reference.clone())
}

#[test]
fn join_enqueue_twice_then_skip() {
    let guild = 42;
    let mut registry = SessionRegistry::new(15);
    assert!(registry.get(guild).is_none());
    let joined = join::run(&mut registry, guild, true, Some(7), true, 8);
    assert_eq!(joined.get_description(), "Poor Jimmy joined the voice channel");

    let (first, _) = play::track_resolved(&mut registry, guild, Some(track("trackA")));
    assert_eq!(first.result.outcome, Outcome::Success);
    assert_eq!(first.result.queued_count, None);
    assert_eq!(registry.get(guild).unwrap().queue().len(), 1);
    assert_eq!(current(&registry, guild), Some("trackA".to_string()));

    let (second, _) = play::track_resolved(&mut registry, guild, Some(track("trackB")));
    assert_eq!(second.result.outcome, Outcome::Success);
    assert_eq!(registry.get(guild).unwrap().queue().len(), 2);
    assert_eq!(current(&registry, guild), Some("trackA".to_string()));

    assert_eq!(skip::run(&registry, guild), Step::Ask(StreamAction::Stop));
    let skipped = skip::complete(&mut registry, guild, true);
    assert_eq!(skipped.result.outcome, Outcome::Success);
    assert_eq!(current(&registry, guild), Some("trackA".to_string()));

    let notice = registry.track_ended(guild, VoiceEvent::Track);
    assert_eq!(current(&registry, guild), Some("trackB".to_string()));
    assert_eq!(notice, Some(Notification::NowPlaying("trackB".to_string())));
}

#[test]
fn batch_of_three_with_the_second_failing() {
    let guild = 42;
    let mut registry = SessionRegistry::new(15);
    assert!(registry.join(guild, Some(7), true, 8).is_ok());
    let queued = enqueue_batch(&mut registry, guild, vec![Some(track("r1")), None, Some(track("r3"))]);
    assert_eq!(queued, 2);
    let listed: Vec<String> =
        registry.get(guild).unwrap().queue().list().into_iter().map(|(_, title)| title).collect();
    assert_eq!(listed, vec!["r1".to_string(), "r3".to_string()]);
    assert_eq!(Notification::QueueingSummary(queued).message(), "2 songs **queued!** Use **/list** to view them");
}

#[test]
fn enqueue_past_capacity_from_an_empty_queue() {
    let capacity = 15;
    let mut registry = SessionRegistry::new(capacity);
    assert!(registry.join(1, Some(7), true, 8).is_ok());
    for i in 0..=capacity {
        let (out, position) = play::track_resolved(&mut registry, 1, Some(track(&format!("t{}", i))));
        assert_eq!(out.result.outcome, Outcome::Success, "enqueue {}", i);
        assert!(position.is_some());
    }
    assert_eq!(registry.get(1).unwrap().queue().pending_len(), capacity as usize);
    let (out, position) = play::track_resolved(&mut registry, 1, Some(track("one too many")));
    assert_eq!(out.result.outcome, Outcome::Error);
    assert_eq!(position, None);
    assert_eq!(registry.get(1).unwrap().queue().len(), capacity as usize + 1);
}
