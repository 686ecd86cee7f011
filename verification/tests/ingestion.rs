use poor_jimmy::session::ingestion::{
    collect_references, enqueue_batch, expand_playlist, PlaylistIngestionPipeline, ResolutionError,
    PLAYLIST_ENTRY_PATTERN,
};
use poor_jimmy::session::notification::Notification;
use poor_jimmy::session::queue::Position;
use poor_jimmy::session::registry::SessionRegistry;
use poor_jimmy::session::track::Track;

fn track(name: &str) -> Track {
    Track::new(name.to_string(), Some(name.to_uppercase()), None)
}

fn joined(capacity: u32) -> SessionRegistry {
    let mut r = SessionRegistry::new(capacity);
    assert!(r.join(1, Some(5), true, 9).is_ok());
    r
}

fn queued(r: &SessionRegistry) -> Vec<String> {
    r.get(1).unwrap().queue().list().into_iter().map(|(_, t)| t).collect()
}

const LISTING: &str =
    "{\"_type\": \"url\", \"id\": \"aaaaaaaaaaa\", \"url\": \"https://www.youtube.com/watch?v=aaaaaaaaaaa\", \"title\": \"one\"}\n\
     {\"_type\": \"url\", \"id\": \"bbbbbbbbbbb\", \"url\": \"https://www.youtube.com/watch?v=bbbbbbbbbbb\", \"title\": \"two\"}\n\
     {\"_type\": \"url\", \"id\": \"short\", \"url\": \"https://www.youtube.com/watch?v=short\", \"title\": \"too short\"}\n\
     {\"_type\": \"url\", \"id\": \"c1C2c3C4c5X\", \"url\": \"https://www.youtube.com/watch?v=c1C2c3C4c5X\", \"title\": \"three\"}\n";

#[test]
fn pattern_is_the_quoted_url_field() {
    assert_eq!(PLAYLIST_ENTRY_PATTERN, r#""url": "(https://www.youtube.com/watch\?v=[A-Za-z0-9]{11})""#);
}

#[test]
fn expand_playlist_keeps_the_video_addresses_in_order() {
    assert_eq!(
        expand_playlist(LISTING),
        Ok(vec![
            "https://www.youtube.com/watch?v=aaaaaaaaaaa".to_string(),
            "https://www.youtube.com/watch?v=bbbbbbbbbbb".to_string(),
            "https://www.youtube.com/watch?v=c1C2c3C4c5X".to_string(),
        ])
    );
}

#[test]
fn expand_playlist_of_text_without_entries_is_empty() {
    assert_eq!(expand_playlist(""), Ok(vec![]));
    assert_eq!(expand_playlist("https://www.youtube.com/watch?v=aaaaaaaaaaa"), Ok(vec![]));
    assert_eq!(expand_playlist("\"url\": \"https://www.youtube.com/watch?v=aaaa-aaaaaa\""), Ok(vec![]));
}

#[test]
fn collect_references_keeps_what_took_part() {
    assert_eq!(
        collect_references(Ok(vec![Some("a".to_string()), None, Some("b".to_string())])),
        Ok(vec!["a".to_string(), "b".to_string()])
    );
    assert_eq!(collect_references(Ok(vec![])), Ok(vec![]));
}

#[test]
fn collect_references_fails_on_a_failed_search() {
    let error = regex::Regex::new("(").unwrap_err();
    assert_eq!(collect_references(Err(error)), Err(ResolutionError));
}

#[test]
fn batch_with_one_failure_queues_the_rest_in_order() {
    let mut r = joined(15);
    let n = enqueue_batch(&mut r, 1, vec![Some(track("r1")), None, Some(track("r3"))]);
    assert_eq!(n, 2);
    assert_eq!(queued(&r), vec!["R1".to_string(), "R3".to_string()]);
}

#[test]
fn batch_reports_n_minus_m() {
    let mut r = joined(15);
    let outcomes = vec![None, Some(track("a")), None, None, Some(track("b")), Some(track("c")), None];
    let n = enqueue_batch(&mut r, 1, outcomes);
    assert_eq!(n, 7 - 4);
    assert_eq!(queued(&r), vec!["A".to_string(), "B".to_string(), "C".to_string()]);
}

#[test]
fn empty_batch_queues_nothing() {
    let mut r = joined(15);
    assert_eq!(enqueue_batch(&mut r, 1, vec![]), 0);
    assert!(r.get(1).unwrap().queue().is_empty());
}

#[test]
fn batch_skips_what_finds_no_room() {
    let mut r = joined(1);
    let n = enqueue_batch(&mut r, 1, vec![Some(track("a")), Some(track("b")), Some(track("c")), None]);
    assert_eq!(n, 2);
    assert_eq!(queued(&r), vec!["A".to_string(), "B".to_string()]);
}

#[test]
fn batch_appends_behind_what_is_queued() {
    let mut r = joined(15);
    assert_eq!(r.enqueue(1, track("x")), Ok(Position::Current));
    let n = enqueue_batch(&mut r, 1, vec![Some(track("a")), None, Some(track("b"))]);
    assert_eq!(n, 2);
    assert_eq!(queued(&r), vec!["X".to_string(), "A".to_string(), "B".to_string()]);
}

#[test]
fn batch_without_session_queues_nothing() {
    let mut r = SessionRegistry::new(15);
    assert_eq!(enqueue_batch(&mut r, 1, vec![Some(track("a"))]), 0);
    assert!(!r.contains(1));
}

#[test]
fn pipeline_fails_without_a_listing() {
    assert!(matches!(PlaylistIngestionPipeline::start(1, None), Err(ResolutionError)));
    assert!(matches!(PlaylistIngestionPipeline::from_expansion(1, Err(ResolutionError)), Err(ResolutionError)));
}

#[test]
fn pipeline_starts_with_the_queueing_notice() {
    let (pipeline, notice) = PlaylistIngestionPipeline::start(1, Some(LISTING)).unwrap();
    assert_eq!(notice, Notification::QueueingStarted);
    assert_eq!(pipeline.guild_id(), 1);
    assert_eq!(pipeline.queued(), 0);
    assert!(!pipeline.is_done());
    assert_eq!(
        pipeline.next_reference(),
        Some(&"https://www.youtube.com/watch?v=aaaaaaaaaaa".to_string())
    );
}

#[test]
fn pipeline_walks_the_references_and_counts_what_is_queued() {
    let mut r = joined(15);
    let (mut pipeline, _) = PlaylistIngestionPipeline::start(1, Some(LISTING)).unwrap();
    let mut seen = Vec::new();
    let mut step = 0;
    while let Some(reference) = pipeline.next_reference().cloned() {
        seen.push(reference.clone());
        let resolved = if step == 1 { None } else { Some(Track::new(reference, None, None)) };
        let taken = pipeline.accept(&mut r, resolved);
        assert_eq!(taken, step != 1);
        step += 1;
    }
    assert_eq!(seen.len(), 3);
    assert!(pipeline.is_done());
    assert_eq!(pipeline.queued(), 2);
    assert_eq!(pipeline.summary(), Notification::QueueingSummary(2));
    let s = r.get(1).unwrap();
    assert_eq!(s.queue().len(), 2);
    assert_eq!(
        s.queue().current().map(|t| t.reference.clone()),
        Some("https://www.youtube.com/watch?v=aaaaaaaaaaa".to_string())
    );
    assert!(!pipeline.accept(&mut r, Some(track("late"))));
    assert_eq!(pipeline.queued(), 2);
    assert_eq!(r.get(1).unwrap().queue().len(), 2);
}

#[test]
fn pipeline_over_an_empty_list_is_done_with_zero() {
    let (pipeline, notice) = PlaylistIngestionPipeline::start(1, Some("no entries here")).unwrap();
    assert_eq!(notice, Notification::QueueingStarted);
    assert!(pipeline.is_done());
    assert_eq!(pipeline.next_reference(), None);
    assert_eq!(pipeline.summary(), Notification::QueueingSummary(0));
    assert_eq!(pipeline.summary().message(), "No songs **queued!**");
}

#[test]
fn pipeline_survives_a_session_torn_down_midway() {
    let mut r = joined(15);
    let refs = vec!["a".to_string(), "b".to_string(), "c".to_string()];
    let mut pipeline = PlaylistIngestionPipeline::from_references(1, refs);
    assert!(pipeline.accept(&mut r, Some(track("a"))));
    assert_eq!(r.leave(1), Ok(()));
    assert!(!pipeline.accept(&mut r, Some(track("b"))));
    assert!(!pipeline.accept(&mut r, Some(track("c"))));
    assert!(pipeline.is_done());
    assert_eq!(pipeline.summary(), Notification::QueueingSummary(1));
    assert!(!r.contains(1));
}
