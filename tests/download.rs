use ytermusic::command::{ready_action, RequestKind, SoundAction};
use ytermusic::download::{
    best_audio_stream, AddOutcome, DownloadCoordinator, FetchOutcome, Settlement, StreamInfo,
    DOWNLOADER_COUNT,
};
use ytermusic::track::TrackRef;

fn track(id: &str) -> TrackRef {
    TrackRef::new(id.to_string(), format!("title {}", id), format!("author {}", id))
}

fn stream(mime: &str, audio: bool, video: bool, bitrate: Option<u64>) -> StreamInfo {
    StreamInfo {
        mime: mime.to_string(),
        includes_audio_track: audio,
        includes_video_track: video,
        bitrate,
    }
}

#[test]
fn pool_has_four_workers() {
    assert_eq!(DOWNLOADER_COUNT, 4);
}

#[test]
fn one_failure_one_success() {
    let mut c = DownloadCoordinator::new();
    assert_eq!(c.add(track("A"), RequestKind::Enqueued, false), AddOutcome::Queued);
    assert_eq!(c.add(track("B"), RequestKind::Enqueued, false), AddOutcome::Queued);
    let a = c.take().unwrap();
    let b = c.take().unwrap();
    assert_eq!(a.track.video_id, "A");
    assert_eq!(b.track.video_id, "B");
    assert_eq!(c.in_flight.len(), 2);
    assert!(c.take().is_none());
    assert!(matches!(c.settle(&a, FetchOutcome::Failed), Settlement::Discard));
    match c.settle(&b, FetchOutcome::Downloaded) {
        Settlement::Commit(Some(SoundAction::PlayVideo(t))) => assert_eq!(t.video_id, "B"),
        other => panic!("unexpected settlement {:?}", other),
    }
    assert!(c.in_flight.is_empty());
    assert!(c.pending.is_empty());
}

#[test]
fn immediate_request_twice_is_claimed_once() {
    let mut c = DownloadCoordinator::new();
    assert_eq!(c.add(track("T"), RequestKind::Immediate, false), AddOutcome::Queued);
    assert_eq!(c.add(track("T"), RequestKind::Immediate, false), AddOutcome::AlreadyQueued);
    assert_eq!(c.pending.len(), 1);
    let claim = c.take().unwrap();
    assert!(c.take().is_none());
    assert_eq!(c.add(track("T"), RequestKind::Immediate, false), AddOutcome::AlreadyQueued);
    assert!(c.take().is_none());
    match c.settle(&claim, FetchOutcome::Downloaded) {
        Settlement::Commit(Some(SoundAction::PlayVideoUnary(t))) => assert_eq!(t.video_id, "T"),
        other => panic!("unexpected settlement {:?}", other),
    }
    assert!(matches!(c.settle(&claim, FetchOutcome::Downloaded), Settlement::Abandon));
}

#[test]
fn cached_track_skips_the_queue() {
    let mut c = DownloadCoordinator::new();
    assert_eq!(c.add(track("C"), RequestKind::Enqueued, true), AddOutcome::Cached);
    assert!(c.pending.is_empty());
    assert!(c.in_flight.is_empty());
    assert!(matches!(
        ready_action(track("C"), RequestKind::Enqueued),
        Some(SoundAction::PlayVideo(_))
    ));
    assert!(ready_action(track("C"), RequestKind::LookAhead).is_none());
}

#[test]
fn reset_empties_and_fences_old_claims() {
    let mut c = DownloadCoordinator::new();
    c.add(track("A"), RequestKind::Enqueued, false);
    c.add(track("B"), RequestKind::Enqueued, false);
    let a = c.take().unwrap();
    c.clean();
    assert!(c.pending.is_empty());
    assert!(c.in_flight.is_empty());
    assert_eq!(c.generation, 1);
    assert!(matches!(c.settle(&a, FetchOutcome::Downloaded), Settlement::Abandon));
    c.add(track("A"), RequestKind::Enqueued, false);
    let again = c.take().unwrap();
    assert_eq!(again.generation, 1);
    assert!(matches!(c.settle(&a, FetchOutcome::Downloaded), Settlement::Abandon));
    assert_eq!(c.in_flight.len(), 1);
    assert!(matches!(c.settle(&again, FetchOutcome::AlreadyCached), Settlement::Announce(Some(_))));
}

#[test]
fn look_ahead_commit_posts_nothing() {
    let mut c = DownloadCoordinator::new();
    c.add(track("L"), RequestKind::LookAhead, false);
    let l = c.take().unwrap();
    assert!(matches!(c.settle(&l, FetchOutcome::Downloaded), Settlement::Commit(None)));
}

#[test]
fn best_stream_is_highest_audio_only_first_among_equals() {
    let streams = vec![
        stream("video/mp4", true, true, Some(900)),
        stream("audio/mp4", true, false, Some(128)),
        stream("audio/webm", true, false, Some(500)),
        stream("audio/mp4", true, false, Some(256)),
        stream("audio/mp4", true, false, Some(256)),
        stream("audio/mp4", false, false, Some(999)),
    ];
    assert_eq!(best_audio_stream(&streams), Some(3));
}

#[test]
fn unknown_bitrate_ranks_lowest() {
    let streams = vec![
        stream("audio/mp4", true, false, None),
        stream("audio/mp4", true, false, Some(0)),
    ];
    assert_eq!(best_audio_stream(&streams), Some(1));
    let only = vec![stream("audio/mp4", true, false, None)];
    assert_eq!(best_audio_stream(&only), Some(0));
}

#[test]
fn no_audio_stream_found() {
    let streams = vec![stream("video/mp4", true, true, Some(1)), stream("audio/mp4", true, true, Some(2))];
    assert_eq!(best_audio_stream(&streams), None);
    assert_eq!(best_audio_stream(&Vec::new()), None);
}

#[test]
fn disabled_downloads_claim_nothing() {
    let mut c = DownloadCoordinator::new();
    c.add(track("A"), RequestKind::Enqueued, false);
    c.set_downloads_enabled(false);
    assert!(c.take().is_none());
    assert_eq!(c.pending.len(), 1);
    c.set_downloads_enabled(true);
    assert!(c.take().is_some());
    c.set_downloads_enabled(false);
    c.clean();
    assert!(c.downloads_enabled);
}
