//! Core of a terminal client that mirrors the state of a remote
//! music-playback server: an incrementally synchronized snapshot of the
//! player's status, a queue renderer that keeps the current track centered
//! in the viewport, a projector that advances the displayed elapsed time
//! between server notifications, and a signal protocol that coordinates a
//! display process and an input process over the server's pub/sub channels.

use vstd::prelude::*;

pub mod data;
pub mod ext;
pub mod keys;
pub mod options;
pub mod projector;
pub mod render;
pub mod signal;
pub mod text;
pub mod track;
pub mod window;

verus! {

} // verus!
