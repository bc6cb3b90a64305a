//! The playback state saved between runs.
use vstd::prelude::*;
use crate::models::browse::SongResponse;

verus! {

/// The version of the saved playback state this library reads and writes.
pub const PLAYBACK_STATE_VERSION: u32 = 1;

/// The name of the file the playback state is saved in.
pub const PLAYBACK_STATE_FILENAME: &'static str = "playback-state.json";

/// The playback state saved for a profile.
#[derive(Debug, Clone, PartialEq, Eq)]
pub struct PlaybackStateFile {
    pub version: u32,
    pub profile_id: String,
    pub queue: Vec<SongResponse>,
    pub current_index: Option<u32>,
    pub play_next_queue_len: u32,
    pub current_position_ms: u32,
}

/// The version assumed for a saved state that names none.
pub fn default_version() -> (r: u32)
    ensures
        r == PLAYBACK_STATE_VERSION,
{
    PLAYBACK_STATE_VERSION
}

/// A saved state as it is used after reading: one of another version is ignored.
pub fn accept_loaded_state(file: PlaybackStateFile) -> (r: Option<PlaybackStateFile>)
    ensures
        file.version == PLAYBACK_STATE_VERSION ==> r == Some(file),
        file.version != PLAYBACK_STATE_VERSION ==> r is None,
{
    if file.version != PLAYBACK_STATE_VERSION {
        None
    } else {
        Some(file)
    }
}

/// Saves the playback state somewhere.
pub trait PlaybackStatePersister {
    fn save(&self, state: &PlaybackStateFile) -> Result<(), String>;
}

/// A persister that saves nothing.
#[derive(Debug, Default, Clone, Copy)]
pub struct NoopPlaybackStatePersister;

impl PlaybackStatePersister for NoopPlaybackStatePersister {
    fn save(&self, state: &PlaybackStateFile) -> (r: Result<(), String>)
        ensures
            r is Ok,
    {
        Ok(())
    }
}

} // verus!
