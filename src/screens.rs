//! Screens of the terminal interface, the messages routed between them, and
//! the music player screen's input bindings.
use vstd::prelude::*;

use crate::command::SoundAction;
use crate::layout::{contains_spec, rect_contains, relative_pos, split_x, split_y, Rect};
use crate::player::{get_action, PlayerState};
use crate::status::{action_at, MusicStatusAction};
use crate::track::TrackRef;

verus! {

/// The screens of the interface.
#[derive(Clone, Copy, Debug, PartialEq, Eq, Structural)]
pub enum Screens {
    MusicPlayer,
    Playlist,
    Search,
    DeviceLost,
}

/// A message for the screen manager.
#[derive(Debug)]
pub enum ManagerMessage {
    Error(String),
    PassTo(Screens, Box<ManagerMessage>),
    ChangeState(Screens),
    RestartPlayer,
    Quit,
    /// A named playlist for the playlist chooser.
    AddElementToChooser(String, Vec<TrackRef>),
}

/// What a screen answers to an input or a message.
#[derive(Debug)]
pub enum EventResponse {
    Message(Vec<ManagerMessage>),
    Nothing,
}

impl ManagerMessage {
    /// This message, addressed to `screen`.
    pub fn pass_to(self, screen: Screens) -> (r: ManagerMessage)
        ensures
            r == ManagerMessage::PassTo(screen, Box::new(self)),
    {
        ManagerMessage::PassTo(screen, Box::new(self))
    }

    /// A response that carries this message alone.
    pub fn event(self) -> (r: EventResponse)
        ensures
            r matches EventResponse::Message(v) && v@ == seq![self],
    {
        EventResponse::Message(vec![self])
    }
}

/// What the manager does with a message.
#[derive(Debug)]
pub enum Route {
    /// Hand the message to that screen.
    Deliver(Screens, ManagerMessage),
    /// Close the current screen and stop.
    Quit(Screens),
    /// Close the current screen, make the target current and open it.
    Switch { from: Screens, to: Screens },
    /// No one takes the message: report it on the device-lost screen.
    Unroutable(ManagerMessage),
}

/// Decides where a manager message goes while `current` is shown.
pub fn route(current: Screens, message: ManagerMessage) -> (r: Route)
    ensures
        r == match message {
            ManagerMessage::PassTo(s, m) => Route::Deliver(s, *m),
            ManagerMessage::Quit => Route::Quit(current),
            ManagerMessage::ChangeState(s) => Route::Switch { from: current, to: s },
            m => Route::Unroutable(m),
        },
{
    match message {
        ManagerMessage::PassTo(s, m) => Route::Deliver(s, *m),
        ManagerMessage::Quit => Route::Quit(current),
        ManagerMessage::ChangeState(s) => Route::Switch { from: current, to: s },
        m => Route::Unroutable(m),
    }
}

/// A key, as far as the music player screen tells keys apart.
#[derive(Debug, Clone, Copy, PartialEq, Eq, Structural)]
pub enum PlayerKey {
    Esc,
    Char(char),
    Up,
    Down,
    Left,
    Right,
    Other,
}

/// What a key press on the music player screen asks for.
#[derive(Debug, Clone)]
pub enum KeyOutcome {
    Screen(Screens),
    Sound(SoundAction),
    Nothing,
}

pub open spec fn player_key_spec(key: PlayerKey, control: bool) -> KeyOutcome {
    match key {
        PlayerKey::Esc => KeyOutcome::Screen(Screens::Playlist),
        PlayerKey::Char('f') => KeyOutcome::Screen(Screens::Search),
        PlayerKey::Char(' ') => KeyOutcome::Sound(SoundAction::PlayPause),
        PlayerKey::Char('+') | PlayerKey::Up => KeyOutcome::Sound(SoundAction::Plus),
        PlayerKey::Char('-') | PlayerKey::Down => KeyOutcome::Sound(SoundAction::Minus),
        PlayerKey::Char('<') | PlayerKey::Left => if control {
            KeyOutcome::Sound(SoundAction::Previous(1))
        } else {
            KeyOutcome::Sound(SoundAction::Backward)
        },
        PlayerKey::Char('>') | PlayerKey::Right => if control {
            KeyOutcome::Sound(SoundAction::Next(1))
        } else {
            KeyOutcome::Sound(SoundAction::Forward)
        },
        _ => KeyOutcome::Nothing,
    }
}

/// Key bindings of the music player screen; `control` tells whether the
/// control modifier is held.
pub fn player_key(key: PlayerKey, control: bool) -> (r: KeyOutcome)
    ensures
        r == player_key_spec(key, control),
{
    match key {
        PlayerKey::Esc => KeyOutcome::Screen(Screens::Playlist),
        PlayerKey::Char('f') => KeyOutcome::Screen(Screens::Search),
        PlayerKey::Char(' ') => KeyOutcome::Sound(SoundAction::PlayPause),
        PlayerKey::Char('+') | PlayerKey::Up => KeyOutcome::Sound(SoundAction::Plus),
        PlayerKey::Char('-') | PlayerKey::Down => KeyOutcome::Sound(SoundAction::Minus),
        PlayerKey::Char('<') | PlayerKey::Left => if control {
            KeyOutcome::Sound(SoundAction::Previous(1))
        } else {
            KeyOutcome::Sound(SoundAction::Backward)
        },
        PlayerKey::Char('>') | PlayerKey::Right => if control {
            KeyOutcome::Sound(SoundAction::Next(1))
        } else {
            KeyOutcome::Sound(SoundAction::Forward)
        },
        _ => KeyOutcome::Nothing,
    }
}

/// The command that a row classification asks for when clicked.
pub open spec fn click_command(a: Option<MusicStatusAction>) -> Option<SoundAction> {
    match a {
        Some(MusicStatusAction::Skip(k)) => Some(SoundAction::Next(k)),
        Some(MusicStatusAction::Current) => Some(SoundAction::PlayPause),
        Some(MusicStatusAction::Before(k)) => Some(SoundAction::Previous(k)),
        _ => None,
    }
}

/// Height of the progress bar under the playlist, and width of the volume
/// bar beside it.
pub const PROGRESS_HEIGHT: u16 = 3;

pub const VOLUME_WIDTH: u16 = 10;

/// The playlist area of the music player screen within `frame`.
pub open spec fn playlist_area(frame: Rect) -> Rect {
    Rect {
        width: (frame.width - VOLUME_WIDTH) as u16,
        height: (frame.height - PROGRESS_HEIGHT) as u16,
        ..frame
    }
}

/// A mouse press at (`column`, `row`) on the music player screen laid out
/// in `frame`: a press on a playlist row asks for what that row offers.
pub fn player_click(
    frame: Rect,
    column: u16,
    row: u16,
    downloading: usize,
    player: &PlayerState,
) -> (r: Option<SoundAction>)
    requires
        frame.height >= PROGRESS_HEIGHT,
        frame.width >= VOLUME_WIDTH,
        frame.y + frame.height <= u16::MAX,
        frame.x + frame.width <= u16::MAX,
    ensures
        !contains_spec(playlist_area(frame), column, row, 1) ==> r is None,
        contains_spec(playlist_area(frame), column, row, 1) ==> r == click_command(
            action_at(
                (row - frame.y - 1) as nat,
                frame.height as nat,
                downloading as nat,
                player.previous@.len(),
                player.current is Some,
                player.queue@.len(),
            ),
        ),
{
    let rows = split_y(frame, PROGRESS_HEIGHT);
    let top = rows[0];
    let columns = split_x(top, VOLUME_WIDTH);
    let list = columns[0];
    assert(list == playlist_area(frame));
    if !rect_contains(&list, column, row, 1) {
        return None;
    }
    let (_, y) = relative_pos(&list, column, row, 1);
    match get_action(y as usize, frame.height as usize, downloading, &player.queue, &player.previous, &player.current) {
        Some(MusicStatusAction::Skip(k)) => Some(SoundAction::Next(k)),
        Some(MusicStatusAction::Current) => Some(SoundAction::PlayPause),
        Some(MusicStatusAction::Before(k)) => Some(SoundAction::Previous(k)),
        _ => None,
    }
}

} // verus!
