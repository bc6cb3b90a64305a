//! The Connect service, which shares one playback state between devices.
use vstd::prelude::*;
use super::browse::SongResponse;
use super::playback::{PlaybackStatus, PlayingState};

verus! {

/// The connection state of the Connect client.
#[derive(Debug, Clone, PartialEq, Eq)]
pub struct ConnectRuntimeStatus {
    pub enabled: bool,
    pub connected: bool,
    pub message: Option<String>,
    pub server_url: Option<String>,
    pub device_id: Option<String>,
    pub seq: u32,
}

/// A device known to the Connect server.
#[derive(Debug, Clone, PartialEq, Eq)]
pub struct ConnectDevicePresence {
    pub device_id: String,
    pub display_name: String,
    pub platform: String,
    pub app_version: String,
    pub last_seen_at: String,
    pub online: bool,
}

/// The playback state shared through Connect.
#[derive(Debug, Clone, PartialEq, Eq)]
pub struct ConnectPlaybackState {
    pub playing_state: PlayingState,
    pub queue: Vec<SongResponse>,
    pub current_index: Option<u32>,
    pub play_next_queue_len: u32,
    pub current_position_ms: u32,
    pub current_song_id: Option<String>,
}

impl From<PlaybackStatus> for ConnectPlaybackState {
    fn from(status: PlaybackStatus) -> (r: Self) {
        ConnectPlaybackState {
            playing_state: status.playing_state,
            queue: status.queue,
            current_index: status.current_index,
            play_next_queue_len: status.play_next_queue_len,
            current_position_ms: status.current_position_ms,
            current_song_id: status.current_song_id,
        }
    }
}

impl vstd::std_specs::convert::FromSpecImpl<PlaybackStatus> for ConnectPlaybackState {
    open spec fn obeys_from_spec() -> bool {
        true
    }

    open spec fn from_spec(status: PlaybackStatus) -> Self {
        ConnectPlaybackState {
            playing_state: status.playing_state,
            queue: status.queue,
            current_index: status.current_index,
            play_next_queue_len: status.play_next_queue_len,
            current_position_ms: status.current_position_ms,
            current_song_id: status.current_song_id,
        }
    }
}

/// The shared playback state with its sequence number and origin.
#[derive(Debug, Clone, PartialEq, Eq)]
pub struct ConnectSharedPlaybackState {
    pub seq: u32,
    pub active_device_id: Option<String>,
    pub state: ConnectPlaybackState,
    pub updated_at: String,
    pub updated_by_device_id: Option<String>,
    pub update_reason: Option<String>,
}

/// What the Connect panel shows.
#[derive(Debug, Clone, PartialEq, Eq)]
pub struct ConnectStateSnapshot {
    pub runtime: ConnectRuntimeStatus,
    pub devices: Vec<ConnectDevicePresence>,
    pub shared_playback: Option<ConnectSharedPlaybackState>,
}

/// The event that announces a new Connect state.
#[derive(Debug, Clone, PartialEq, Eq)]
pub struct ConnectStateUpdated {
    pub runtime: ConnectRuntimeStatus,
    pub devices: Vec<ConnectDevicePresence>,
    pub shared_playback: Option<ConnectSharedPlaybackState>,
}

/// A request to move playback to another device.
#[derive(Debug, Clone, PartialEq, Eq)]
pub struct ConnectTransferPlaybackRequest {
    pub target_device_id: String,
}

/// Whether a flag is off; such flags are left out of a command on the wire.
pub fn is_false(value: &bool) -> (r: bool)
    ensures
        r == !*value,
{
    !*value
}

/// A queue command sent to the Connect server; only the fields its `op` needs are set.
#[derive(Debug, Clone, Default, PartialEq, Eq)]
pub struct ConnectPlaybackCommand {
    pub command_id: Option<String>,
    pub base_seq: Option<u32>,
    pub op: String,
    pub queue: Option<Vec<SongResponse>>,
    pub items: Option<Vec<SongResponse>>,
    pub current_index: Option<u32>,
    pub auto_play: bool,
    pub index: Option<u32>,
    pub from_index: Option<u32>,
    pub to_index: Option<u32>,
    pub position_ms: Option<u32>,
    pub target_device_id: Option<String>,
}

} // verus!
