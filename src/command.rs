//! Commands carried on the bus to the player controller.
use vstd::prelude::*;

use crate::track::TrackRef;

verus! {

/// Actions that can be sent to the player from other services.
#[derive(Debug, Clone)]
pub enum SoundAction {
    Cleanup,
    PlayPause,
    ForcePause,
    ForcePlay,
    RestartPlayer,
    Plus,
    Minus,
    Previous(usize),
    Forward,
    Backward,
    Next(usize),
    /// Request the track and play it right away once it is cached.
    PlayImmediate(TrackRef),
    /// Request the track and play it after the current one once it is cached.
    PlayEnqueued(TrackRef),
    /// The track is cached and was requested to be played after the current one.
    PlayVideo(TrackRef),
    /// The track is cached and was requested to be played right away.
    PlayVideoUnary(TrackRef),
}

/// Why a track was handed to the download coordinator; decides which
/// "ready" notification follows once it is cached.
#[derive(Debug, Clone, Copy, PartialEq, Eq, Structural)]
pub enum RequestKind {
    /// Play after the current track (or now, when nothing is playing).
    Enqueued,
    /// Play right away.
    Immediate,
    /// Warm the cache only; nobody waits for it.
    LookAhead,
}

/// The notification that announces a cached track for a request of the given kind.
pub open spec fn ready_spec(track: TrackRef, kind: RequestKind) -> Option<SoundAction> {
    match kind {
        RequestKind::Enqueued => Some(SoundAction::PlayVideo(track)),
        RequestKind::Immediate => Some(SoundAction::PlayVideoUnary(track)),
        RequestKind::LookAhead => None,
    }
}

/// The "ready" command to post on the bus once `track` is cached, if any.
pub fn ready_action(track: TrackRef, kind: RequestKind) -> (r: Option<SoundAction>)
    ensures
        r == ready_spec(track, kind),
{
    match kind {
        RequestKind::Enqueued => Some(SoundAction::PlayVideo(track)),
        RequestKind::Immediate => Some(SoundAction::PlayVideoUnary(track)),
        RequestKind::LookAhead => None,
    }
}

} // verus!
