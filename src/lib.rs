//! Download coordination and playback queue engine of a terminal music client.
//!
//! - `track`: track identity and the cache layout on disk.
//! - `command`: the commands carried to the player controller.
//! - `download`: the pending queue, the in-flight set and stream selection.
//! - `player`: the playback session and transport state machine.
//! - `status`, `layout`, `screens`, `search`: the interface's own logic.
use vstd::prelude::*;

pub mod command;
pub mod download;
pub mod layout;
pub mod player;
pub mod screens;
pub mod search;
pub mod status;
pub mod track;

verus! {

} // verus!
