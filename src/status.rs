//! Status glyphs and row classification of the playlist view.
use vstd::prelude::*;

verus! {

/// What clicking a row of the playlist view asks for.
#[derive(Debug, Clone, Copy, PartialEq, Eq, Structural)]
pub enum MusicStatusAction {
    /// Skip forward to the k-th upcoming track.
    Skip(usize),
    /// The current track.
    Current,
    /// Go back to the k-th most recently played track.
    Before(usize),
    /// A track still being downloaded.
    Downloading,
}

/// Transport state of the player.
#[derive(Debug, Clone, Copy, PartialEq, Eq, Structural)]
pub enum AppStatus {
    Paused,
    Playing,
    NoMusic,
}

/// Status of one row of the playlist view.
#[derive(Debug, Clone, Copy, PartialEq, Eq, Structural)]
pub enum MusicStatus {
    Playing,
    Paused,
    Previous,
    Next,
    Downloading,
}

pub open spec fn glyph(s: MusicStatus) -> char {
    match s {
        MusicStatus::Playing => '\u{25B6}',
        MusicStatus::Paused => '\u{23F8}',
        MusicStatus::Previous => ' ',
        MusicStatus::Next => ' ',
        MusicStatus::Downloading => '\u{2B73}',
    }
}

impl MusicStatus {
    /// The glyph drawn in front of a row: a play triangle, a pause sign, a
    /// download arrow, or a blank for played and upcoming tracks.
    pub fn character(&self) -> (r: char)
        ensures
            r == glyph(*self),
    {
        match self {
            MusicStatus::Playing => '\u{25B6}',
            MusicStatus::Paused => '\u{23F8}',
            MusicStatus::Previous => ' ',
            MusicStatus::Next => ' ',
            MusicStatus::Downloading => '\u{2B73}',
        }
    }
}

/// How many of the most recent previous tracks the view shows: at most
/// half of its height, so that the current track stays visible.
pub open spec fn shown_previous(previous: nat, height: nat) -> nat {
    if previous < height / 2 {
        previous
    } else {
        height / 2
    }
}

/// The view lists, from the top: the tracks being downloaded, the shown
/// previous tracks (oldest first), the current track, then the upcoming ones.
pub open spec fn action_at(
    row: nat,
    height: nat,
    downloading: nat,
    previous: nat,
    has_current: bool,
    upcoming: nat,
) -> Option<MusicStatusAction> {
    let shown = shown_previous(previous, height);
    let cur: nat = if has_current {
        1
    } else {
        0
    };
    if row < downloading {
        Some(MusicStatusAction::Downloading)
    } else if row < downloading + shown {
        Some(MusicStatusAction::Before((downloading + shown - row) as usize))
    } else if has_current && row == downloading + shown {
        Some(MusicStatusAction::Current)
    } else if row < downloading + shown + cur + upcoming {
        Some(MusicStatusAction::Skip((row - downloading - shown - cur + 1) as usize))
    } else {
        None
    }
}

/// Classifies row `index` of a view `height` rows high.
pub fn row_action(
    index: usize,
    height: usize,
    downloading: usize,
    previous: usize,
    has_current: bool,
    upcoming: usize,
) -> (r: Option<MusicStatusAction>)
    ensures
        r == action_at(
            index as nat,
            height as nat,
            downloading as nat,
            previous as nat,
            has_current,
            upcoming as nat,
        ),
{
    let shown = if previous < height / 2 {
        previous
    } else {
        height / 2
    };
    if index < downloading {
        return Some(MusicStatusAction::Downloading);
    }
    let r1 = index - downloading;
    if r1 < shown {
        return Some(MusicStatusAction::Before(shown - r1));
    }
    let mut r2 = r1 - shown;
    if has_current {
        if r2 == 0 {
            return Some(MusicStatusAction::Current);
        }
        r2 = r2 - 1;
    }
    if r2 < upcoming {
        Some(MusicStatusAction::Skip(r2 + 1))
    } else {
        None
    }
}

/// The status shown for a row classified as `action`; `paused` tells how the
/// current track is drawn.
pub fn row_status(action: MusicStatusAction, paused: bool) -> (r: MusicStatus)
    ensures
        r == match action {
            MusicStatusAction::Downloading => MusicStatus::Downloading,
            MusicStatusAction::Before(_) => MusicStatus::Previous,
            MusicStatusAction::Current => if paused {
                MusicStatus::Paused
            } else {
                MusicStatus::Playing
            },
            MusicStatusAction::Skip(_) => MusicStatus::Next,
        },
{
    match action {
        MusicStatusAction::Downloading => MusicStatus::Downloading,
        MusicStatusAction::Before(_) => MusicStatus::Previous,
        MusicStatusAction::Current => if paused {
            MusicStatus::Paused
        } else {
            MusicStatus::Playing
        },
        MusicStatusAction::Skip(_) => MusicStatus::Next,
    }
}

} // verus!
