//! Playback queue, settings and session logic of a Subsonic music player.
use vstd::prelude::*;

pub mod models;
pub mod playback;
pub mod playback_state;
pub mod profiles;
pub mod queue;
pub mod secrets;
pub mod text;
pub mod urls;

verus! {

} // verus!
