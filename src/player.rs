//! The player controller: the session queue (previous tracks, current track,
//! upcoming tracks) and the transport state, driven by commands. Each command
//! yields the effects that the audio sink and the download coordinator must
//! carry out.
use vstd::prelude::*;

use crate::command::{RequestKind, SoundAction};
use crate::status::{action_at, row_action, AppStatus, MusicStatusAction};
use crate::track::TrackRef;

verus! {

/// Volume change of one `Plus` or `Minus`, in percent.
pub const VOLUME_STEP: u8 = 5;

/// Seek distance of one `Forward` or `Backward`, in seconds.
pub const SEEK_STEP: u64 = 5;

/// How many upcoming tracks are requested ahead of playback.
pub const LOOK_AHEAD: usize = 3;

/// Work the controller hands to its collaborators.
#[derive(Debug, Clone)]
pub enum PlayerEffect {
    /// Load the cached media of the track into the sink and start it.
    Bind(TrackRef),
    /// Stop the sink and drop its track.
    Release,
    Play,
    Pause,
    SetVolume(u8),
    /// Seek to this position, in seconds.
    SeekTo(u64),
    /// Tear down the audio device binding and build a new one.
    Rebuild,
    /// Ask the download coordinator to cache the track ahead of time.
    Prefetch(TrackRef),
    /// Ask the download coordinator for the track; its "ready" follows.
    Request(TrackRef, RequestKind),
}

/// The controller's state as a mathematical value.
pub struct PlayerView {
    pub previous: Seq<TrackRef>,
    pub current: Option<TrackRef>,
    pub upcoming: Seq<TrackRef>,
    pub status: AppStatus,
    pub volume: u8,
    pub elapsed: u64,
    pub duration: Option<u64>,
    pub awaiting: Seq<TrackRef>,
}

/// The player controller. Its behaviour is `step` over its `view`.
pub struct PlayerState {
    /// Played tracks, the most recent last.
    pub previous: Vec<TrackRef>,
    pub current: Option<TrackRef>,
    /// Tracks to play next, the next one first.
    pub queue: Vec<TrackRef>,
    pub status: AppStatus,
    /// Sink volume in percent.
    pub volume: u8,
    /// Position in the current track, in seconds.
    pub elapsed: u64,
    /// Length of the current track in seconds, when the sink knows it.
    pub duration: Option<u64>,
    /// Tracks requested for playback whose "ready" has not arrived yet.
    pub awaiting: Vec<TrackRef>,
}

pub open spec fn hold(t: Option<TrackRef>) -> Seq<TrackRef> {
    match t {
        Some(t) => seq![t],
        None => Seq::empty(),
    }
}

pub open spec fn min_nat(a: nat, b: nat) -> nat {
    if a < b {
        a
    } else {
        b
    }
}

/// Prefetch requests for the leading upcoming tracks.
pub open spec fn look_ahead(up: Seq<TrackRef>) -> Seq<PlayerEffect> {
    up.take(min_nat(up.len(), LOOK_AHEAD as nat) as int).map_values(|t: TrackRef| PlayerEffect::Prefetch(t))
}

/// Effects of making `t` the current track while `up` is upcoming.
pub open spec fn bind_effects(t: TrackRef, up: Seq<TrackRef>) -> Seq<PlayerEffect> {
    seq![PlayerEffect::Bind(t)] + look_ahead(up)
}

/// `v` with a new session and a freshly bound, playing current track.
pub open spec fn rebound(
    v: PlayerView,
    previous: Seq<TrackRef>,
    current: TrackRef,
    upcoming: Seq<TrackRef>,
) -> PlayerView {
    PlayerView {
        previous,
        current: Some(current),
        upcoming,
        status: AppStatus::Playing,
        elapsed: 0,
        duration: None,
        ..v
    }
}

/// `Next(n)`: the current track and the first `k - 1` upcoming ones move to
/// the previous tracks and the k-th upcoming becomes current, where `k` is
/// `n` or the number of upcoming tracks if smaller. No change when `n` is 0
/// or nothing is upcoming.
pub open spec fn skip_forward(v: PlayerView, n: nat) -> (PlayerView, Seq<PlayerEffect>) {
    let len = v.upcoming.len();
    if n == 0 || len == 0 {
        (v, Seq::empty())
    } else {
        let k = min_nat(n, len);
        let cur = v.upcoming[k - 1];
        let up = v.upcoming.skip(k as int);
        (
            rebound(v, v.previous + hold(v.current) + v.upcoming.take(k - 1), cur, up),
            bind_effects(cur, up),
        )
    }
}

/// `Previous(n)`: the k-th most recent previous track becomes current, the
/// tracks played after it and the current track go, in order, to the front
/// of the upcoming tracks; `k` is `n` or the number of previous tracks if
/// smaller. No change when `n` is 0 or nothing was played.
pub open spec fn skip_back(v: PlayerView, n: nat) -> (PlayerView, Seq<PlayerEffect>) {
    let m = v.previous.len();
    if n == 0 || m == 0 {
        (v, Seq::empty())
    } else {
        let k = min_nat(n, m);
        let cur = v.previous[m - k];
        let up = v.previous.subrange(m - k + 1, m as int) + hold(v.current) + v.upcoming;
        (rebound(v, v.previous.take(m - k), cur, up), bind_effects(cur, up))
    }
}

pub open spec fn volume_up(v: u8) -> u8 {
    if v as int + VOLUME_STEP as int > 100 {
        100
    } else {
        (v + VOLUME_STEP) as u8
    }
}

pub open spec fn volume_down(v: u8) -> u8 {
    if v < VOLUME_STEP {
        0
    } else {
        (v - VOLUME_STEP) as u8
    }
}

/// Seek target of `Forward`: one step on, but not past the end of the track.
pub open spec fn forward_target(elapsed: u64, duration: Option<u64>) -> u64 {
    let bound: int = match duration {
        Some(d) => d as int,
        None => u64::MAX as int,
    };
    if elapsed as int + SEEK_STEP as int > bound {
        bound as u64
    } else {
        (elapsed + SEEK_STEP) as u64
    }
}

/// Seek target of `Backward`: one step back, but not before the start.
pub open spec fn backward_target(elapsed: u64) -> u64 {
    if elapsed < SEEK_STEP {
        0
    } else {
        (elapsed - SEEK_STEP) as u64
    }
}

/// A transport change that needs a bound track.
pub open spec fn set_transport(v: PlayerView, status: AppStatus, effect: PlayerEffect) -> (
    PlayerView,
    Seq<PlayerEffect>,
) {
    if v.current is Some {
        (PlayerView { status, ..v }, seq![effect])
    } else {
        (v, Seq::empty())
    }
}

/// A progress report from the sink: the position and length are recorded,
/// and a finished track gives way to the next upcoming one while playing.
pub open spec fn tick(v: PlayerView, finished: bool, elapsed: u64, duration: Option<u64>) -> (
    PlayerView,
    Seq<PlayerEffect>,
) {
    let w = PlayerView { elapsed, duration, ..v };
    if finished && v.status == AppStatus::Playing && v.upcoming.len() > 0 {
        skip_forward(w, 1)
    } else {
        (w, Seq::empty())
    }
}

/// The position of the first track with identity `id` in `s`.
pub open spec fn first_with_id(s: Seq<TrackRef>, id: Seq<char>) -> int {
    choose|k: int| 0 <= k < s.len() && s[k].id() == id && forall|j: int| 0 <= j < k ==> s[j].id() != id
}

pub open spec fn awaits(s: Seq<TrackRef>, id: Seq<char>) -> bool {
    exists|k: int| 0 <= k < s.len() && s[k].id() == id
}

/// A "ready" for `t` is acted on only if `t` is awaited, and then stops
/// being awaited; any other is stale and ignored.
pub open spec fn on_ready(
    v: PlayerView,
    t: TrackRef,
    act: spec_fn(PlayerView) -> (PlayerView, Seq<PlayerEffect>),
) -> (PlayerView, Seq<PlayerEffect>) {
    if awaits(v.awaiting, t.id()) {
        act(PlayerView { awaiting: v.awaiting.remove(first_with_id(v.awaiting, t.id())), ..v })
    } else {
        (v, Seq::empty())
    }
}

pub open spec fn ready_enqueued(v: PlayerView, t: TrackRef) -> (PlayerView, Seq<PlayerEffect>) {
    match v.current {
        Some(_) => (PlayerView { upcoming: v.upcoming.push(t), ..v }, Seq::empty()),
        None => (rebound(v, v.previous, t, v.upcoming), bind_effects(t, v.upcoming)),
    }
}

pub open spec fn ready_immediate(v: PlayerView, t: TrackRef) -> (PlayerView, Seq<PlayerEffect>) {
    (rebound(v, v.previous + hold(v.current), t, v.upcoming), bind_effects(t, v.upcoming))
}

/// The controller's response to a command: its next state and the effects.
/// `Cleanup` releases the current track and forgets the awaited requests but
/// keeps the previous and upcoming tracks; transport commands need a bound
/// track; volume steps stay within [0, 100]; seeks stay within the track;
/// `PlayImmediate` and `PlayEnqueued` request a download, and the matching
/// "ready" (`PlayVideoUnary`, `PlayVideo`) binds or appends the track.
pub open spec fn step(v: PlayerView, action: SoundAction) -> (PlayerView, Seq<PlayerEffect>) {
    match action {
        SoundAction::Cleanup => (
            PlayerView {
                current: None,
                status: AppStatus::NoMusic,
                elapsed: 0,
                duration: None,
                awaiting: Seq::empty(),
                ..v
            },
            seq![PlayerEffect::Release],
        ),
        SoundAction::PlayPause => if v.status == AppStatus::Playing {
            set_transport(v, AppStatus::Paused, PlayerEffect::Pause)
        } else {
            set_transport(v, AppStatus::Playing, PlayerEffect::Play)
        },
        SoundAction::ForcePause => set_transport(v, AppStatus::Paused, PlayerEffect::Pause),
        SoundAction::ForcePlay => set_transport(v, AppStatus::Playing, PlayerEffect::Play),
        SoundAction::RestartPlayer => match v.current {
            Some(t) => if v.status == AppStatus::Paused {
                (v, seq![PlayerEffect::Rebuild, PlayerEffect::Bind(t), PlayerEffect::Pause])
            } else {
                (v, seq![PlayerEffect::Rebuild, PlayerEffect::Bind(t)])
            },
            None => (v, seq![PlayerEffect::Rebuild]),
        },
        SoundAction::Plus => (
            PlayerView { volume: volume_up(v.volume), ..v },
            seq![PlayerEffect::SetVolume(volume_up(v.volume))],
        ),
        SoundAction::Minus => (
            PlayerView { volume: volume_down(v.volume), ..v },
            seq![PlayerEffect::SetVolume(volume_down(v.volume))],
        ),
        SoundAction::Forward => if v.current is Some {
            (
                PlayerView { elapsed: forward_target(v.elapsed, v.duration), ..v },
                seq![PlayerEffect::SeekTo(forward_target(v.elapsed, v.duration))],
            )
        } else {
            (v, Seq::empty())
        },
        SoundAction::Backward => if v.current is Some {
            (
                PlayerView { elapsed: backward_target(v.elapsed), ..v },
                seq![PlayerEffect::SeekTo(backward_target(v.elapsed))],
            )
        } else {
            (v, Seq::empty())
        },
        SoundAction::Next(n) => skip_forward(v, n as nat),
        SoundAction::Previous(n) => skip_back(v, n as nat),
        SoundAction::PlayImmediate(t) => (
            PlayerView { awaiting: v.awaiting.push(t), ..v },
            seq![PlayerEffect::Request(t, RequestKind::Immediate)],
        ),
        SoundAction::PlayEnqueued(t) => (
            PlayerView { awaiting: v.awaiting.push(t), ..v },
            seq![PlayerEffect::Request(t, RequestKind::Enqueued)],
        ),
        SoundAction::PlayVideo(t) => on_ready(v, t, |w: PlayerView| ready_enqueued(w, t)),
        SoundAction::PlayVideoUnary(t) => on_ready(v, t, |w: PlayerView| ready_immediate(w, t)),
    }
}

fn copy_tracks(v: &Vec<TrackRef>, from: usize, to: usize) -> (r: Vec<TrackRef>)
    requires
        from <= to <= v@.len(),
    ensures
        r@ == v@.subrange(from as int, to as int),
{
    let mut r: Vec<TrackRef> = Vec::new();
    let mut i = from;
    while i < to
        invariant
            from <= i <= to,
            to <= v@.len(),
            r@ == v@.subrange(from as int, i as int),
        decreases to - i,
    {
        r.push(v[i].duplicate());
        assert(r@ =~= v@.subrange(from as int, i + 1));
        i = i + 1;
    }
    r
}

fn append_tracks(dst: &mut Vec<TrackRef>, src: &Vec<TrackRef>, from: usize, to: usize)
    requires
        from <= to <= src@.len(),
    ensures
        final(dst)@ == old(dst)@ + src@.subrange(from as int, to as int),
{
    let mut i = from;
    while i < to
        invariant
            from <= i <= to,
            to <= src@.len(),
            dst@ == old(dst)@ + src@.subrange(from as int, i as int),
        decreases to - i,
    {
        dst.push(src[i].duplicate());
        assert(dst@ =~= old(dst)@ + src@.subrange(from as int, i + 1));
        i = i + 1;
    }
}

fn push_held(dst: &mut Vec<TrackRef>, t: &Option<TrackRef>)
    ensures
        final(dst)@ == old(dst)@ + hold(*t),
{
    match t {
        Some(t) => {
            dst.push(t.duplicate());
        },
        None => {},
    }
    assert(dst@ =~= old(dst)@ + hold(*t));
}

fn bind_effects_of(t: &TrackRef, up: &Vec<TrackRef>) -> (r: Vec<PlayerEffect>)
    ensures
        r@ == bind_effects(*t, up@),
{
    let mut r: Vec<PlayerEffect> = Vec::new();
    r.push(PlayerEffect::Bind(t.duplicate()));
    let n = if up.len() < LOOK_AHEAD {
        up.len()
    } else {
        LOOK_AHEAD
    };
    let ghost la = look_ahead(up@);
    let mut i: usize = 0;
    while i < n
        invariant
            i <= n,
            n == min_nat(up@.len(), LOOK_AHEAD as nat),
            n <= up@.len(),
            la == look_ahead(up@),
            la.len() == n,
            r@ == seq![PlayerEffect::Bind(*t)] + la.take(i as int),
        decreases n - i,
    {
        r.push(PlayerEffect::Prefetch(up[i].duplicate()));
        assert(la[i as int] == PlayerEffect::Prefetch(up@[i as int]));
        assert(r@ =~= seq![PlayerEffect::Bind(*t)] + la.take(i + 1));
        i = i + 1;
    }
    assert(la.take(n as int) =~= la);
    r
}

impl PlayerState {
    pub open spec fn view(&self) -> PlayerView {
        PlayerView {
            previous: self.previous@,
            current: self.current,
            upcoming: self.queue@,
            status: self.status,
            volume: self.volume,
            elapsed: self.elapsed,
            duration: self.duration,
            awaiting: self.awaiting@,
        }
    }

    /// The volume stays within [0, 100], and a track is bound exactly when
    /// the player is not in the no-track state.
    pub open spec fn wf(&self) -> bool {
        &&& self.volume <= 100
        &&& (self.current is None <==> self.status == AppStatus::NoMusic)
    }

    /// An idle player with empty queues; the volume is clamped to 100.
    pub fn new(volume: u8) -> (r: PlayerState)
        ensures
            r.wf(),
            r.previous@.len() == 0,
            r.queue@.len() == 0,
            r.current is None,
            r.status == AppStatus::NoMusic,
            r.volume == if volume > 100 {
                100
            } else {
                volume
            },
            r.elapsed == 0,
            r.duration is None,
            r.awaiting@.len() == 0,
    {
        PlayerState {
            previous: Vec::new(),
            current: None,
            queue: Vec::new(),
            status: AppStatus::NoMusic,
            volume: if volume > 100 {
                100
            } else {
                volume
            },
            elapsed: 0,
            duration: None,
            awaiting: Vec::new(),
        }
    }

    fn bind(&mut self, t: TrackRef) -> (r: Vec<PlayerEffect>)
        ensures
            final(self).view() == rebound(old(self).view(), old(self).previous@, t, old(self).queue@),
            r@ == bind_effects(t, old(self).queue@),
    {
        let r = bind_effects_of(&t, &self.queue);
        self.current = Some(t);
        self.status = AppStatus::Playing;
        self.elapsed = 0;
        self.duration = None;
        r
    }

    /// Stops awaiting `t`, if it was awaited.
    fn take_awaited(&mut self, t: &TrackRef) -> (r: bool)
        ensures
            r == awaits(old(self).awaiting@, t.id()),
            r ==> final(self).view() == (PlayerView {
                awaiting: old(self).awaiting@.remove(first_with_id(old(self).awaiting@, t.id())),
                ..old(self).view()
            }),
            !r ==> *final(self) == *old(self),
    {
        let mut k: usize = 0;
        while k < self.awaiting.len()
            invariant
                *self == *old(self),
                k <= self.awaiting@.len(),
                forall|j: int| 0 <= j < k ==> self.awaiting@[j].id() != t.id(),
            decreases self.awaiting.len() - k,
        {
            if self.awaiting[k].video_id == t.video_id {
                let ghost s = self.awaiting@;
                assert(forall|j: int| 0 <= j < k ==> s[j].id() != t.id());
                let ghost f = first_with_id(s, t.id());
                proof {
                    assert(0 <= k < s.len() && s[k as int].id() == t.id() && forall|j: int| 0 <= j < k ==> s[j].id() != t.id());
                    assert(0 <= f < s.len() && s[f].id() == t.id() && forall|j: int| 0 <= j < f ==> s[j].id() != t.id());
                    if f < k {
                    } else if f > k {
                        assert(s[k as int].id() == t.id());
                    }
                    assert(f == k);
                }
                assert(awaits(s, t.id()));
                self.awaiting.remove(k);
                return true;
            }
            k = k + 1;
        }
        assert(!awaits(self.awaiting@, t.id()));
        false
    }

    fn skip_forward(&mut self, n: usize) -> (r: Vec<PlayerEffect>)
        ensures
            (final(self).view(), r@) == skip_forward(old(self).view(), n as nat),
    {
        let len = self.queue.len();
        if n == 0 || len == 0 {
            return Vec::new();
        }
        let k = if n < len {
            n
        } else {
            len
        };
        let ghost v = self.view();
        let cur = self.queue[k - 1].duplicate();
        push_held(&mut self.previous, &self.current);
        append_tracks(&mut self.previous, &self.queue, 0, k - 1);
        self.queue = copy_tracks(&self.queue, k, len);
        assert(v.upcoming.take(k - 1) =~= v.upcoming.subrange(0, k - 1));
        assert(self.queue@ =~= v.upcoming.skip(k as int));
        self.bind(cur)
    }

    fn skip_back(&mut self, n: usize) -> (r: Vec<PlayerEffect>)
        ensures
            (final(self).view(), r@) == skip_back(old(self).view(), n as nat),
    {
        let m = self.previous.len();
        if n == 0 || m == 0 {
            return Vec::new();
        }
        let k = if n < m {
            n
        } else {
            m
        };
        let ghost v = self.view();
        let cur = self.previous[m - k].duplicate();
        let mut up = copy_tracks(&self.previous, m - k + 1, m);
        push_held(&mut up, &self.current);
        append_tracks(&mut up, &self.queue, 0, self.queue.len());
        assert(v.upcoming.subrange(0, v.upcoming.len() as int) =~= v.upcoming);
        self.previous.truncate(m - k);
        assert(self.previous@ =~= v.previous.take(m - k));
        self.queue = up;
        self.bind(cur)
    }

    /// Applies one command to the controller and returns the effects that
    /// the audio sink and the download coordinator must carry out, in order.
    pub fn apply_sound_action(&mut self, action: SoundAction) -> (r: Vec<PlayerEffect>)
        requires
            old(self).wf(),
        ensures
            final(self).wf(),
            (final(self).view(), r@) == step(old(self).view(), action),
    {
        match action {
            SoundAction::Cleanup => {
                self.awaiting = Vec::new();
                self.current = None;
                self.status = AppStatus::NoMusic;
                self.elapsed = 0;
                self.duration = None;
                vec![PlayerEffect::Release]
            },
            SoundAction::PlayPause => {
                if self.current.is_none() {
                    Vec::new()
                } else if self.status == AppStatus::Playing {
                    self.status = AppStatus::Paused;
                    vec![PlayerEffect::Pause]
                } else {
                    self.status = AppStatus::Playing;
                    vec![PlayerEffect::Play]
                }
            },
            SoundAction::ForcePause => {
                if self.current.is_none() {
                    Vec::new()
                } else {
                    self.status = AppStatus::Paused;
                    vec![PlayerEffect::Pause]
                }
            },
            SoundAction::ForcePlay => {
                if self.current.is_none() {
                    Vec::new()
                } else {
                    self.status = AppStatus::Playing;
                    vec![PlayerEffect::Play]
                }
            },
            SoundAction::RestartPlayer => {
                match &self.current {
                    Some(t) => {
                        if self.status == AppStatus::Paused {
                            vec![PlayerEffect::Rebuild, PlayerEffect::Bind(t.duplicate()), PlayerEffect::Pause]
                        } else {
                            vec![PlayerEffect::Rebuild, PlayerEffect::Bind(t.duplicate())]
                        }
                    },
                    None => vec![PlayerEffect::Rebuild],
                }
            },
            SoundAction::Plus => {
                self.volume = if self.volume > 100 - VOLUME_STEP {
                    100
                } else {
                    self.volume + VOLUME_STEP
                };
                vec![PlayerEffect::SetVolume(self.volume)]
            },
            SoundAction::Minus => {
                self.volume = if self.volume < VOLUME_STEP {
                    0
                } else {
                    self.volume - VOLUME_STEP
                };
                vec![PlayerEffect::SetVolume(self.volume)]
            },
            SoundAction::Forward => {
                if self.current.is_none() {
                    Vec::new()
                } else {
                    let bound = match self.duration {
                        Some(d) => d,
                        None => u64::MAX,
                    };
                    self.elapsed = if self.elapsed > bound || bound - self.elapsed < SEEK_STEP {
                        bound
                    } else {
                        self.elapsed + SEEK_STEP
                    };
                    vec![PlayerEffect::SeekTo(self.elapsed)]
                }
            },
            SoundAction::Backward => {
                if self.current.is_none() {
                    Vec::new()
                } else {
                    self.elapsed = if self.elapsed < SEEK_STEP {
                        0
                    } else {
                        self.elapsed - SEEK_STEP
                    };
                    vec![PlayerEffect::SeekTo(self.elapsed)]
                }
            },
            SoundAction::Next(n) => self.skip_forward(n),
            SoundAction::Previous(n) => self.skip_back(n),
            SoundAction::PlayImmediate(t) => {
                self.awaiting.push(t.duplicate());
                vec![PlayerEffect::Request(t, RequestKind::Immediate)]
            },
            SoundAction::PlayEnqueued(t) => {
                self.awaiting.push(t.duplicate());
                vec![PlayerEffect::Request(t, RequestKind::Enqueued)]
            },
            SoundAction::PlayVideo(t) => {
                if !self.take_awaited(&t) {
                    return Vec::new();
                }
                if self.current.is_some() {
                    self.queue.push(t);
                    Vec::new()
                } else {
                    self.bind(t)
                }
            },
            SoundAction::PlayVideoUnary(t) => {
                if !self.take_awaited(&t) {
                    return Vec::new();
                }
                push_held(&mut self.previous, &self.current);
                self.bind(t)
            },
        }
    }

    /// Records what the sink reports and advances to the next upcoming track
    /// when the current one has finished playing.
    pub fn update(&mut self, finished: bool, elapsed: u64, duration: Option<u64>) -> (r: Vec<
        PlayerEffect,
    >)
        requires
            old(self).wf(),
        ensures
            final(self).wf(),
            (final(self).view(), r@) == tick(old(self).view(), finished, elapsed, duration),
    {
        self.elapsed = elapsed;
        self.duration = duration;
        if finished && self.status == AppStatus::Playing && self.queue.len() > 0 {
            self.skip_forward(1)
        } else {
            Vec::new()
        }
    }
}

/// Classifies row `index` of the playlist view, `height` rows high, that
/// lists `downloading` tracks being fetched followed by the session.
pub fn get_action(
    index: usize,
    height: usize,
    downloading: usize,
    queue: &Vec<TrackRef>,
    previous: &Vec<TrackRef>,
    current: &Option<TrackRef>,
) -> (r: Option<MusicStatusAction>)
    ensures
        r == action_at(
            index as nat,
            height as nat,
            downloading as nat,
            previous@.len(),
            current is Some,
            queue@.len(),
        ),
{
    row_action(index, height, downloading, previous.len(), current.is_some(), queue.len())
}

/// Going forward `n` tracks and then back `n` tracks restores the session
/// and the current track, when at least `n` tracks are upcoming and at least
/// `n` were played, and a track is current.
pub proof fn lemma_next_then_previous(v: PlayerView, n: nat)
    requires
        v.current is Some,
        v.upcoming.len() > 0,
        v.previous.len() > 0,
        v.upcoming.len() >= n,
        v.previous.len() >= n,
    ensures
        skip_back(skip_forward(v, n).0, n).0.previous == v.previous,
        skip_back(skip_forward(v, n).0, n).0.current == v.current,
        skip_back(skip_forward(v, n).0, n).0.upcoming == v.upcoming,
{
    if n > 0 {
        let w = skip_forward(v, n).0;
        let u = skip_back(w, n).0;
        let p: int = v.previous.len() as int;
        assert(w.previous =~= v.previous + hold(v.current) + v.upcoming.take(n - 1));
        assert(w.previous.len() == p + n);
        assert(w.previous[p] == v.current->0);
        assert(u.previous =~= v.previous);
        assert(w.previous.subrange(p + 1, p + n as int) =~= v.upcoming.take(n - 1));
        assert(u.upcoming =~= v.upcoming.take(n - 1) + seq![v.upcoming[n - 1]] + v.upcoming.skip(n as int));
        assert(u.upcoming =~= v.upcoming);
    }
}

/// A click on a row lands where the row says: on an upcoming row the
/// `Next` it asks for makes that row's track current, and on a previous row
/// the `Previous` it asks for does.
pub proof fn lemma_row_navigation(v: PlayerView, index: nat, height: nat, downloading: nat)
    requires
        downloading + v.previous.len() + 1 + v.upcoming.len() <= usize::MAX,
    ensures
        action_at(index, height, downloading, v.previous.len(), v.current is Some, v.upcoming.len())
            matches Some(MusicStatusAction::Skip(k)) ==> 1 <= k <= v.upcoming.len()
            && skip_forward(v, k as nat).0.current == Some(v.upcoming[k - 1]),
        action_at(index, height, downloading, v.previous.len(), v.current is Some, v.upcoming.len())
            matches Some(MusicStatusAction::Before(k)) ==> 1 <= k <= v.previous.len()
            && skip_back(v, k as nat).0.current == Some(v.previous[v.previous.len() - k]),
{
}

/// The session as one sequence: previous tracks, the current one, upcoming ones.
pub open spec fn session_order(v: PlayerView) -> Seq<TrackRef> {
    v.previous + hold(v.current) + v.upcoming
}

/// Navigation only moves tracks between the previous tracks, the current
/// slot and the upcoming tracks: the session keeps every track, once, in the
/// same order.
pub proof fn lemma_navigation_keeps_session(v: PlayerView, n: nat)
    ensures
        session_order(skip_forward(v, n).0) == session_order(v),
        session_order(skip_back(v, n).0) == session_order(v),
{
    let len = v.upcoming.len();
    if n > 0 && len > 0 {
        let k = min_nat(n, len);
        let w = skip_forward(v, n).0;
        assert(v.upcoming =~= v.upcoming.take(k - 1) + seq![v.upcoming[k - 1]] + v.upcoming.skip(k as int));
        assert(session_order(w) =~= session_order(v));
    }
    let m = v.previous.len();
    if n > 0 && m > 0 {
        let k = min_nat(n, m);
        let w = skip_back(v, n).0;
        assert(v.previous =~= v.previous.take(m - k) + seq![v.previous[m - k]] + v.previous.subrange(
            m - k + 1,
            m as int,
        ));
        assert(session_order(w) =~= session_order(v));
    }
}

} // verus!
