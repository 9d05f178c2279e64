//! The download coordinator: a FIFO of pending requests, the set of tracks
//! that workers are fetching, and a generation counter that fences off the
//! workers of a discarded session.
use vstd::prelude::*;

use crate::command::{ready_action, ready_spec, RequestKind, SoundAction};
use crate::track::TrackRef;

verus! {

/// Number of workers in the download pool.
pub const DOWNLOADER_COUNT: usize = 4;

/// A track waiting for a worker, with the reason it was asked for.
#[derive(Debug, Clone)]
pub struct Request {
    pub track: TrackRef,
    pub kind: RequestKind,
}

/// What a worker holds while it fetches a track.
#[derive(Debug, Clone)]
pub struct Claim {
    pub track: TrackRef,
    pub kind: RequestKind,
    /// The coordinator's generation when the claim was taken.
    pub generation: u64,
}

/// What `add` did with a track.
#[derive(Debug, Clone, Copy, PartialEq, Eq, Structural)]
pub enum AddOutcome {
    /// A sidecar exists: the caller announces the track without queueing it.
    Cached,
    /// Appended to the pending queue.
    Queued,
    /// The identity is already pending or being fetched: nothing changed.
    AlreadyQueued,
}

/// What a worker observed for its claimed track.
#[derive(Debug, Clone, Copy, PartialEq, Eq, Structural)]
pub enum FetchOutcome {
    /// The sidecar already existed when the worker looked.
    AlreadyCached,
    /// The media file was downloaded completely.
    Downloaded,
    /// No usable stream, or the transfer failed.
    Failed,
}

/// What a worker must do to finish its claim.
#[derive(Debug, Clone)]
pub enum Settlement {
    /// Write the sidecar, then post the command, if any.
    Commit(Option<SoundAction>),
    /// Post the command, if any; the cache is already complete.
    Announce(Option<SoundAction>),
    /// Delete the partial media file.
    Discard,
    /// The claim belongs to a discarded session: touch nothing.
    Abandon,
}

/// What a worker needs to know of one remote stream of a track.
#[derive(Debug, Clone)]
pub struct StreamInfo {
    pub mime: String,
    pub includes_audio_track: bool,
    pub includes_video_track: bool,
    pub bitrate: Option<u64>,
}

pub open spec fn audio_mp4() -> Seq<char> {
    seq!['a', 'u', 'd', 'i', 'o', '/', 'm', 'p', '4']
}

/// An audio-only MP4 stream.
pub open spec fn is_audio_candidate(s: StreamInfo) -> bool {
    s.mime@ == audio_mp4() && s.includes_audio_track && !s.includes_video_track
}

/// Bitrates order as options do: an unknown bitrate ranks below every known one.
pub open spec fn bitrate_rank(s: StreamInfo) -> int {
    match s.bitrate {
        Some(b) => b as int,
        None => -1,
    }
}

fn is_audio_mp4(mime: &String) -> (r: bool)
    ensures
        r == (mime@ == audio_mp4()),
{
    let target = String::from_str("audio/mp4");
    proof {
        reveal_strlit("audio/mp4");
    }
    assert("audio/mp4"@ =~= audio_mp4());
    *mime == target
}

/// Picks the stream to download: the audio-only MP4 stream of highest
/// bitrate, the first one listed among equals; `None` when there is none.
pub fn best_audio_stream(streams: &Vec<StreamInfo>) -> (r: Option<usize>)
    ensures
        r is None <==> forall|i: int| 0 <= i < streams@.len() ==> !is_audio_candidate(streams@[i]),
        r matches Some(b) ==> {
            &&& b < streams@.len()
            &&& is_audio_candidate(streams@[b as int])
            &&& forall|j: int|
                0 <= j < streams@.len() && is_audio_candidate(streams@[j]) ==> bitrate_rank(streams@[j])
                    <= bitrate_rank(streams@[b as int])
            &&& forall|j: int|
                0 <= j < b && is_audio_candidate(streams@[j]) ==> bitrate_rank(streams@[j])
                    < bitrate_rank(streams@[b as int])
        },
{
    let mut best: Option<usize> = None;
    let mut i: usize = 0;
    while i < streams.len()
        invariant
            i <= streams@.len(),
            best is None ==> forall|j: int| 0 <= j < i ==> !is_audio_candidate(streams@[j]),
            best matches Some(b) ==> {
                &&& b < i
                &&& is_audio_candidate(streams@[b as int])
                &&& forall|j: int|
                    0 <= j < i && is_audio_candidate(streams@[j]) ==> bitrate_rank(streams@[j])
                        <= bitrate_rank(streams@[b as int])
                &&& forall|j: int|
                    0 <= j < b && is_audio_candidate(streams@[j]) ==> bitrate_rank(streams@[j])
                        < bitrate_rank(streams@[b as int])
            },
        decreases streams.len() - i,
    {
        let s = &streams[i];
        if s.includes_audio_track && !s.includes_video_track && is_audio_mp4(&s.mime) {
            match best {
                None => {
                    best = Some(i);
                },
                Some(b) => {
                    let better = match (streams[b].bitrate, s.bitrate) {
                        (_, None) => false,
                        (None, Some(_)) => true,
                        (Some(x), Some(y)) => y > x,
                    };
                    if better {
                        best = Some(i);
                    }
                },
            }
        }
        i = i + 1;
    }
    best
}

/// The pending queue, the in-flight set and the session generation.
pub struct DownloadCoordinator {
    pub pending: Vec<Request>,
    pub in_flight: Vec<TrackRef>,
    pub generation: u64,
    /// Whether workers may claim pending requests.
    pub downloads_enabled: bool,
}

pub open spec fn ids_of_requests(v: Seq<Request>) -> Seq<Seq<char>> {
    v.map_values(|r: Request| r.track.id())
}

pub open spec fn ids_of_tracks(v: Seq<TrackRef>) -> Seq<Seq<char>> {
    v.map_values(|t: TrackRef| t.id())
}

impl DownloadCoordinator {
    pub open spec fn pending_ids(&self) -> Seq<Seq<char>> {
        ids_of_requests(self.pending@)
    }

    pub open spec fn in_flight_ids(&self) -> Seq<Seq<char>> {
        ids_of_tracks(self.in_flight@)
    }

    /// Whether an identity is waiting for or held by a worker.
    pub open spec fn is_tracked(&self, id: Seq<char>) -> bool {
        self.pending_ids().contains(id) || self.in_flight_ids().contains(id)
    }

    /// Each identity is pending at most once, in flight at most once, and
    /// never both pending and in flight.
    pub open spec fn wf(&self) -> bool {
        &&& self.pending_ids().no_duplicates()
        &&& self.in_flight_ids().no_duplicates()
        &&& forall|i: int, j: int|
            0 <= i < self.pending@.len() && 0 <= j < self.in_flight@.len()
                ==> self.pending_ids()[i] != self.in_flight_ids()[j]
    }

    /// A claim whose worker may still change the cache: it was taken in the
    /// current generation and its track is still in flight.
    pub open spec fn is_live(&self, claim: Claim) -> bool {
        claim.generation == self.generation && self.in_flight_ids().contains(claim.track.id())
    }

    /// `self` is `before` after a reset.
    pub open spec fn is_reset_of(&self, before: DownloadCoordinator) -> bool {
        &&& self.pending@.len() == 0
        &&& self.in_flight@.len() == 0
        &&& self.generation == before.generation + 1
        &&& self.downloads_enabled
    }

    pub fn new() -> (r: DownloadCoordinator)
        ensures
            r.wf(),
            r.pending@.len() == 0,
            r.in_flight@.len() == 0,
            r.generation == 0,
            r.downloads_enabled,
    {
        DownloadCoordinator { pending: Vec::new(), in_flight: Vec::new(), generation: 0, downloads_enabled: true }
    }

    fn tracks_id(&self, id: &String) -> (r: bool)
        ensures
            r == self.is_tracked(id@),
    {
        let mut i: usize = 0;
        while i < self.pending.len()
            invariant
                i <= self.pending@.len(),
                forall|k: int| 0 <= k < i ==> self.pending_ids()[k] != id@,
            decreases self.pending.len() - i,
        {
            if self.pending[i].track.video_id == *id {
                assert(self.pending_ids()[i as int] == id@);
                return true;
            }
            i = i + 1;
        }
        let mut j: usize = 0;
        while j < self.in_flight.len()
            invariant
                j <= self.in_flight@.len(),
                forall|k: int| 0 <= k < self.pending@.len() ==> self.pending_ids()[k] != id@,
                forall|k: int| 0 <= k < j ==> self.in_flight_ids()[k] != id@,
            decreases self.in_flight.len() - j,
        {
            if self.in_flight[j].video_id == *id {
                assert(self.in_flight_ids()[j as int] == id@);
                return true;
            }
            j = j + 1;
        }
        false
    }

    /// Requests a download of `track`. `cached` tells whether its sidecar
    /// exists. A cached track is not queued; an identity that is already
    /// pending or in flight is not queued twice.
    pub fn add(&mut self, track: TrackRef, kind: RequestKind, cached: bool) -> (r: AddOutcome)
        requires
            old(self).wf(),
        ensures
            final(self).wf(),
            final(self).generation == old(self).generation,
            final(self).downloads_enabled == old(self).downloads_enabled,
            final(self).in_flight@ == old(self).in_flight@,
            cached ==> r == AddOutcome::Cached && final(self).pending@ == old(self).pending@,
            !cached && old(self).is_tracked(track.id()) ==> r == AddOutcome::AlreadyQueued
                && final(self).pending@ == old(self).pending@,
            !cached && !old(self).is_tracked(track.id()) ==> r == AddOutcome::Queued
                && final(self).pending@ == old(self).pending@.push(Request { track, kind }),
    {
        if cached {
            return AddOutcome::Cached;
        }
        if self.tracks_id(&track.video_id) {
            return AddOutcome::AlreadyQueued;
        }
        let ghost id = track.id();
        let ghost old_ids = self.pending_ids();
        self.pending.push(Request { track, kind });
        assert(self.pending_ids() =~= old_ids.push(id));
        assert(!old_ids.contains(id));
        assert(!self.in_flight_ids().contains(id));
        assert forall|i: int, j: int|
            0 <= i < self.pending@.len() && 0 <= j < self.in_flight@.len()
                implies self.pending_ids()[i] != self.in_flight_ids()[j] by {
            if i == old_ids.len() {
                assert(self.in_flight_ids()[j] != id);
            }
        }
        AddOutcome::Queued
    }

    /// Claims the oldest pending request for a worker: it leaves the pending
    /// queue and enters the in-flight set in one step. Nothing is claimed
    /// while downloads are disabled.
    pub fn take(&mut self) -> (r: Option<Claim>)
        requires
            old(self).wf(),
        ensures
            final(self).wf(),
            final(self).generation == old(self).generation,
            final(self).downloads_enabled == old(self).downloads_enabled,
            old(self).pending@.len() == 0 || !old(self).downloads_enabled ==> r is None
                && final(self).pending@ == old(self).pending@ && final(self).in_flight@ == old(self).in_flight@,
            old(self).pending@.len() > 0 && old(self).downloads_enabled ==> {
                &&& r == Some(
                    Claim {
                        track: old(self).pending@[0].track,
                        kind: old(self).pending@[0].kind,
                        generation: old(self).generation,
                    },
                )
                &&& final(self).pending@ == old(self).pending@.skip(1)
                &&& final(self).in_flight@ == old(self).in_flight@.push(old(self).pending@[0].track)
            },
    {
        if self.pending.len() == 0 || !self.downloads_enabled {
            return None;
        }
        let ghost old_p = self.pending_ids();
        let ghost old_f = self.in_flight_ids();
        let req = self.pending.remove(0);
        let ghost id = req.track.id();
        assert(old_p[0] == id);
        assert(self.pending_ids() =~= old_p.skip(1));
        self.in_flight.push(req.track.duplicate());
        assert(self.in_flight_ids() =~= old_f.push(id));
        assert forall|j: int| 0 <= j < old_f.len() implies old_f[j] != id by {
            assert(old_p[0] != old_f[j]);
        }
        assert forall|i: int, j: int|
            0 <= i < self.pending@.len() && 0 <= j < self.in_flight@.len()
                implies self.pending_ids()[i] != self.in_flight_ids()[j] by {
            assert(self.pending_ids()[i] == old_p[i + 1]);
            if j < old_f.len() {
                assert(old_p[i + 1] != old_f[j]);
            } else {
                assert(old_p[i + 1] != old_p[0]);
            }
        }
        Some(Claim { track: req.track, kind: req.kind, generation: self.generation })
    }

    fn in_flight_position(&self, id: &String) -> (r: Option<usize>)
        ensures
            r is None ==> !self.in_flight_ids().contains(id@),
            r matches Some(k) ==> k < self.in_flight@.len() && self.in_flight_ids()[k as int] == id@,
    {
        let mut k: usize = 0;
        while k < self.in_flight.len()
            invariant
                k <= self.in_flight@.len(),
                forall|j: int| 0 <= j < k ==> self.in_flight_ids()[j] != id@,
            decreases self.in_flight.len() - k,
        {
            if self.in_flight[k].video_id == *id {
                return Some(k);
            }
            k = k + 1;
        }
        None
    }

    /// Settles a worker's claim after it observed `outcome`. A claim that is
    /// no longer live is abandoned and changes nothing; otherwise its track
    /// leaves the in-flight set and the worker learns what to do.
    pub fn settle(&mut self, claim: &Claim, outcome: FetchOutcome) -> (r: Settlement)
        requires
            old(self).wf(),
        ensures
            final(self).wf(),
            final(self).generation == old(self).generation,
            final(self).downloads_enabled == old(self).downloads_enabled,
            final(self).pending@ == old(self).pending@,
            !old(self).is_live(*claim) ==> r is Abandon && final(self).in_flight@ == old(self).in_flight@,
            old(self).is_live(*claim) ==> {
                &&& !final(self).in_flight_ids().contains(claim.track.id())
                &&& exists|k: int|
                    0 <= k < old(self).in_flight@.len() && old(self).in_flight_ids()[k] == claim.track.id()
                        && final(self).in_flight@ == old(self).in_flight@.remove(k)
                &&& outcome == FetchOutcome::Downloaded ==> r == Settlement::Commit(
                    ready_spec(claim.track, claim.kind),
                )
                &&& outcome == FetchOutcome::AlreadyCached ==> r == Settlement::Announce(
                    ready_spec(claim.track, claim.kind),
                )
                &&& outcome == FetchOutcome::Failed ==> r is Discard
            },
    {
        if claim.generation != self.generation {
            return Settlement::Abandon;
        }
        let k = match self.in_flight_position(&claim.track.video_id) {
            Some(k) => k,
            None => {
                return Settlement::Abandon;
            },
        };
        let ghost old_f = self.in_flight_ids();
        assert(old_f[k as int] == claim.track.id());
        self.in_flight.remove(k);
        assert(self.in_flight_ids() =~= old_f.remove(k as int));
        assert forall|j: int| 0 <= j < self.in_flight@.len() implies self.in_flight_ids()[j]
            != claim.track.id() by {
            if j < k {
                assert(self.in_flight_ids()[j] == old_f[j]);
            } else {
                assert(self.in_flight_ids()[j] == old_f[j + 1]);
            }
        }
        assert forall|i: int, j: int|
            0 <= i < self.pending@.len() && 0 <= j < self.in_flight@.len()
                implies self.pending_ids()[i] != self.in_flight_ids()[j] by {
            if j < k {
                assert(self.in_flight_ids()[j] == old_f[j]);
            } else {
                assert(self.in_flight_ids()[j] == old_f[j + 1]);
            }
        }
        let track = claim.track.duplicate();
        match outcome {
            FetchOutcome::Downloaded => Settlement::Commit(ready_action(track, claim.kind)),
            FetchOutcome::AlreadyCached => Settlement::Announce(ready_action(track, claim.kind)),
            FetchOutcome::Failed => Settlement::Discard,
        }
    }

    /// Lets workers claim pending requests, or stops them from doing so.
    pub fn set_downloads_enabled(&mut self, enabled: bool)
        ensures
            final(self).downloads_enabled == enabled,
            final(self).pending@ == old(self).pending@,
            final(self).in_flight@ == old(self).in_flight@,
            final(self).generation == old(self).generation,
    {
        self.downloads_enabled = enabled;
    }

    /// Empties the pending queue and the in-flight set, enables downloads and
    /// starts a new generation, so that no claim taken before can settle as live.
    pub fn clean(&mut self)
        requires
            old(self).generation < u64::MAX,
        ensures
            final(self).wf(),
            final(self).is_reset_of(*old(self)),
    {
        self.pending.clear();
        self.in_flight.clear();
        self.generation = self.generation + 1;
        self.downloads_enabled = true;
        assert(self.pending_ids() =~= Seq::empty());
        assert(self.in_flight_ids() =~= Seq::empty());
    }
}

/// No duplicate work: in a well-formed coordinator no two in-flight entries
/// share an identity, and no identity is both pending and in flight. Since
/// `add` leaves a tracked identity alone and `settle` takes the identity out
/// of the in-flight set, at most one worker holds it and at most one settlement
/// commits it.
pub proof fn lemma_no_duplicate_work(c: DownloadCoordinator, id: Seq<char>)
    requires
        c.wf(),
    ensures
        forall|i: int, j: int|
            0 <= i < c.in_flight@.len() && 0 <= j < c.in_flight@.len() && c.in_flight_ids()[i] == id
                && c.in_flight_ids()[j] == id ==> i == j,
        c.in_flight_ids().contains(id) ==> !c.pending_ids().contains(id),
{
    if c.in_flight_ids().contains(id) && c.pending_ids().contains(id) {
        let j = choose|j: int| 0 <= j < c.in_flight@.len() && c.in_flight_ids()[j] == id;
        let i = choose|i: int| 0 <= i < c.pending@.len() && c.pending_ids()[i] == id;
        assert(c.pending_ids()[i] != c.in_flight_ids()[j]);
    }
}

/// At most one commit per claim: once a live claim has settled, its identity
/// is out of the in-flight set, so no claim on that identity is live until a
/// worker takes it again, and settling one commits nothing.
pub proof fn lemma_single_commit(after: DownloadCoordinator, settled: Claim, other: Claim)
    requires
        !after.in_flight_ids().contains(settled.track.id()),
        other.track.id() == settled.track.id(),
    ensures
        !after.is_live(other),
{
}

/// Reset completeness: right after a reset nothing is pending or in flight,
/// and a claim taken before the reset is not live then nor in any later state
/// whose generation did not go back.
pub proof fn lemma_reset_fences_old_claims(
    before: DownloadCoordinator,
    after: DownloadCoordinator,
    later: DownloadCoordinator,
    claim: Claim,
)
    requires
        after.is_reset_of(before),
        claim.generation <= before.generation,
        later.generation >= after.generation,
    ensures
        after.pending@.len() == 0,
        after.in_flight@.len() == 0,
        !later.is_live(claim),
{
}

} // verus!
