use ytermusic::command::{RequestKind, SoundAction};
use ytermusic::player::{get_action, PlayerEffect, PlayerState};
use ytermusic::status::{row_action, row_status, AppStatus, MusicStatus, MusicStatusAction};
use ytermusic::track::TrackRef;

fn track(id: &str) -> TrackRef {
    TrackRef::new(id.to_string(), format!("title {}", id), format!("author {}", id))
}

fn ready(p: &mut PlayerState, t: TrackRef) -> Vec<PlayerEffect> {
    p.apply_sound_action(SoundAction::PlayEnqueued(t.clone()));
    p.apply_sound_action(SoundAction::PlayVideo(t))
}

fn ids(v: &[TrackRef]) -> Vec<String> {
    v.iter().map(|t| t.video_id.clone()).collect()
}

fn session(previous: &[&str], current: Option<&str>, upcoming: &[&str]) -> PlayerState {
    let mut p = PlayerState::new(50);
    p.previous = previous.iter().map(|s| track(s)).collect();
    p.queue = upcoming.iter().map(|s| track(s)).collect();
    if let Some(c) = current {
        p.current = Some(track(c));
        p.status = AppStatus::Playing;
    }
    p
}

#[test]
fn next_two_from_first_track() {
    let mut p = session(&[], Some("T1"), &["T2", "T3"]);
    let effects = p.apply_sound_action(SoundAction::Next(2));
    assert_eq!(p.current.as_ref().unwrap().video_id, "T3");
    assert!(p.queue.is_empty());
    assert_eq!(ids(&p.previous), vec!["T1", "T2"]);
    assert_eq!(effects.len(), 1);
    assert!(matches!(&effects[0], PlayerEffect::Bind(t) if t.video_id == "T3"));
}

#[test]
fn next_then_previous_restores() {
    let mut p = session(&["H1", "H2", "H3"], Some("C"), &["U1", "U2", "U3"]);
    p.apply_sound_action(SoundAction::Next(2));
    assert_eq!(p.current.as_ref().unwrap().video_id, "U2");
    p.apply_sound_action(SoundAction::Previous(2));
    assert_eq!(p.current.as_ref().unwrap().video_id, "C");
    assert_eq!(ids(&p.previous), vec!["H1", "H2", "H3"]);
    assert_eq!(ids(&p.queue), vec!["U1", "U2", "U3"]);
}

#[test]
fn skipping_past_the_end_stops_at_last() {
    let mut p = session(&[], Some("A"), &["B", "C"]);
    p.apply_sound_action(SoundAction::Next(9));
    assert_eq!(p.current.as_ref().unwrap().video_id, "C");
    assert_eq!(ids(&p.previous), vec!["A", "B"]);
    p.apply_sound_action(SoundAction::Previous(9));
    assert_eq!(p.current.as_ref().unwrap().video_id, "A");
    assert_eq!(ids(&p.queue), vec!["B", "C"]);
    assert!(p.previous.is_empty());
    let effects = p.apply_sound_action(SoundAction::Previous(1));
    assert!(effects.is_empty());
    assert_eq!(p.current.as_ref().unwrap().video_id, "A");
}

#[test]
fn navigation_prefetches_look_ahead_window() {
    let mut p = session(&[], Some("A"), &["B", "C", "D", "E", "F"]);
    let effects = p.apply_sound_action(SoundAction::Next(1));
    assert_eq!(effects.len(), 4);
    assert!(matches!(&effects[1], PlayerEffect::Prefetch(t) if t.video_id == "C"));
    assert!(matches!(&effects[3], PlayerEffect::Prefetch(t) if t.video_id == "E"));
}

#[test]
fn ready_notifications_bind_or_append() {
    let mut p = PlayerState::new(50);
    let e = ready(&mut p, track("A"));
    assert!(matches!(&e[0], PlayerEffect::Bind(t) if t.video_id == "A"));
    assert_eq!(p.status, AppStatus::Playing);
    let e = ready(&mut p, track("B"));
    assert!(e.is_empty());
    assert_eq!(ids(&p.queue), vec!["B"]);
    p.apply_sound_action(SoundAction::PlayImmediate(track("C")));
    p.apply_sound_action(SoundAction::PlayVideoUnary(track("C")));
    assert_eq!(p.current.as_ref().unwrap().video_id, "C");
    assert_eq!(ids(&p.previous), vec!["A"]);
    assert_eq!(ids(&p.queue), vec!["B"]);
}

#[test]
fn transport_and_cleanup() {
    let mut p = PlayerState::new(50);
    assert!(p.apply_sound_action(SoundAction::PlayPause).is_empty());
    assert_eq!(p.status, AppStatus::NoMusic);
    ready(&mut p, track("A"));
    assert!(matches!(p.apply_sound_action(SoundAction::PlayPause)[0], PlayerEffect::Pause));
    assert_eq!(p.status, AppStatus::Paused);
    assert!(matches!(p.apply_sound_action(SoundAction::PlayPause)[0], PlayerEffect::Play));
    p.apply_sound_action(SoundAction::ForcePause);
    assert_eq!(p.status, AppStatus::Paused);
    let e = p.apply_sound_action(SoundAction::RestartPlayer);
    assert_eq!(e.len(), 3);
    assert!(matches!(e[0], PlayerEffect::Rebuild));
    assert!(matches!(e[2], PlayerEffect::Pause));
    p.apply_sound_action(SoundAction::ForcePlay);
    assert_eq!(p.status, AppStatus::Playing);
    ready(&mut p, track("B"));
    let e = p.apply_sound_action(SoundAction::Cleanup);
    assert!(matches!(e[0], PlayerEffect::Release));
    assert!(p.current.is_none());
    assert_eq!(p.status, AppStatus::NoMusic);
    assert_eq!(ids(&p.queue), vec!["B"]);
}

#[test]
fn volume_is_clamped() {
    let mut p = PlayerState::new(200);
    assert_eq!(p.volume, 100);
    let e = p.apply_sound_action(SoundAction::Plus);
    assert!(matches!(e[0], PlayerEffect::SetVolume(100)));
    p.volume = 98;
    p.apply_sound_action(SoundAction::Plus);
    assert_eq!(p.volume, 100);
    p.volume = 3;
    p.apply_sound_action(SoundAction::Minus);
    assert_eq!(p.volume, 0);
    p.volume = 50;
    p.apply_sound_action(SoundAction::Minus);
    assert_eq!(p.volume, 45);
}

#[test]
fn seeking_is_clamped_to_the_track() {
    let mut p = PlayerState::new(50);
    ready(&mut p, track("A"));
    p.update(false, 3, Some(100));
    let e = p.apply_sound_action(SoundAction::Backward);
    assert!(matches!(e[0], PlayerEffect::SeekTo(0)));
    p.update(false, 97, Some(100));
    p.apply_sound_action(SoundAction::Forward);
    assert_eq!(p.elapsed, 100);
    p.update(false, 40, None);
    p.apply_sound_action(SoundAction::Forward);
    assert_eq!(p.elapsed, 45);
    p.apply_sound_action(SoundAction::Backward);
    assert_eq!(p.elapsed, 40);
}

#[test]
fn finished_track_advances() {
    let mut p = session(&[], Some("A"), &["B"]);
    assert!(p.update(false, 10, Some(20)).is_empty());
    let e = p.update(true, 20, Some(20));
    assert!(matches!(&e[0], PlayerEffect::Bind(t) if t.video_id == "B"));
    assert_eq!(p.elapsed, 0);
    assert!(p.update(true, 20, Some(20)).is_empty());
    assert_eq!(p.current.as_ref().unwrap().video_id, "B");
}

#[test]
fn rows_classify_the_session() {
    let p = session(&["H1", "H2", "H3"], Some("C"), &["U1", "U2"]);
    let at = |i| get_action(i, 4, 1, &p.queue, &p.previous, &p.current);
    assert_eq!(at(0), Some(MusicStatusAction::Downloading));
    assert_eq!(at(1), Some(MusicStatusAction::Before(2)));
    assert_eq!(at(2), Some(MusicStatusAction::Before(1)));
    assert_eq!(at(3), Some(MusicStatusAction::Current));
    assert_eq!(at(4), Some(MusicStatusAction::Skip(1)));
    assert_eq!(at(5), Some(MusicStatusAction::Skip(2)));
    assert_eq!(at(6), None);
    assert_eq!(row_action(0, 10, 0, 0, false, 1), Some(MusicStatusAction::Skip(1)));
}

#[test]
fn row_glyphs() {
    assert_eq!(row_status(MusicStatusAction::Current, true), MusicStatus::Paused);
    assert_eq!(row_status(MusicStatusAction::Current, false), MusicStatus::Playing);
    assert_eq!(row_status(MusicStatusAction::Skip(3), false), MusicStatus::Next);
    assert_eq!(row_status(MusicStatusAction::Before(1), false), MusicStatus::Previous);
    assert_eq!(MusicStatus::Playing.character(), '\u{25B6}');
    assert_eq!(MusicStatus::Paused.character(), '\u{23F8}');
    assert_eq!(MusicStatus::Downloading.character(), '\u{2B73}');
    assert_eq!(MusicStatus::Next.character(), ' ');
    assert_eq!(MusicStatus::Previous.character(), ' ');
}

#[test]
fn stale_ready_is_ignored() {
    let mut p = PlayerState::new(50);
    let e = p.apply_sound_action(SoundAction::PlayVideo(track("X")));
    assert!(e.is_empty());
    assert!(p.current.is_none());
    p.apply_sound_action(SoundAction::PlayEnqueued(track("Y")));
    p.apply_sound_action(SoundAction::Cleanup);
    assert!(p.apply_sound_action(SoundAction::PlayVideo(track("Y"))).is_empty());
    assert!(p.current.is_none());
    assert!(p.queue.is_empty());
}

#[test]
fn play_requests_go_to_the_coordinator() {
    let mut p = PlayerState::new(50);
    let e = p.apply_sound_action(SoundAction::PlayImmediate(track("T")));
    assert!(matches!(&e[0], PlayerEffect::Request(t, RequestKind::Immediate) if t.video_id == "T"));
    p.apply_sound_action(SoundAction::PlayImmediate(track("T")));
    assert_eq!(p.awaiting.len(), 2);
    p.apply_sound_action(SoundAction::PlayVideoUnary(track("T")));
    assert_eq!(p.awaiting.len(), 1);
    assert_eq!(p.current.as_ref().unwrap().video_id, "T");
    let e = p.apply_sound_action(SoundAction::PlayEnqueued(track("U")));
    assert!(matches!(&e[0], PlayerEffect::Request(t, RequestKind::Enqueued) if t.video_id == "U"));
}
