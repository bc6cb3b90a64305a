//! Playback state as reported to the user interface.
use vstd::prelude::*;
use super::browse::{copy_songs, SongResponse};
use super::settings::PlaybackStreamMode;
use super::values::copy_opt_string;

verus! {

/// Where playback stands.
#[derive(Debug, Clone, Copy, PartialEq, Eq, Structural)]
pub enum PlayingState {
    Idle,
    Playing,
    Paused,
    Stopped,
    Interrupted,
    Error,
}

/// Why playback is interrupted.
#[derive(Debug, Clone, Copy, PartialEq, Eq, Structural)]
pub enum InterruptReason {
    InitialLoad,
    StreamBufferingStall,
    Seeking,
    FullReload,
}

/// The state of the preparation of the next track for gapless playback.
#[derive(Debug, Clone, Copy, PartialEq, Eq, Structural)]
pub enum GaplessState {
    Unavailable,
    Off,
    Idle,
    Preparing,
    Ready,
    Failed,
}

/// The gapless state with a message for the user.
#[derive(Debug, Clone, PartialEq, Eq)]
pub struct GaplessStatus {
    pub state: GaplessState,
    pub message: String,
}

/// What a queue request is made of.
#[derive(Debug, Clone, PartialEq, Eq)]
pub enum QueueSource {
    Songs { songs: Vec<SongResponse> },
    Album { album_id: String },
    FolderAlbum { library_id: String, node_id: String, album_id: String },
}

/// A request to replace the queue.
#[derive(Debug, Clone, PartialEq, Eq)]
pub struct PlaybackSetQueueRequest {
    pub items: Vec<QueueSource>,
    pub current_index: Option<u32>,
    pub auto_play: bool,
}

/// A request to seek within the current track.
#[derive(Debug, Clone, Copy, PartialEq, Eq)]
pub struct PlaybackSeekRequest {
    pub position_ms: u32,
}

/// A request to set the position of the stopped current track.
#[derive(Debug, Clone, Copy, PartialEq, Eq)]
pub struct PlaybackSetPositionRequest {
    pub position_ms: u32,
}

/// A request to play a queue entry.
#[derive(Debug, Clone, Copy, PartialEq, Eq)]
pub struct PlaybackPlayQueueIndexRequest {
    pub index: u32,
}

/// A request to remove a queue entry.
#[derive(Debug, Clone, Copy, PartialEq, Eq)]
pub struct PlaybackRemoveQueueIndexRequest {
    pub index: u32,
}

/// A request to move a queue entry.
#[derive(Debug, Clone, Copy, PartialEq, Eq)]
pub struct PlaybackMoveQueueIndexRequest {
    pub from_index: u32,
    pub to_index: u32,
}

/// An error of playback, and whether the backend already handled it.
#[derive(Debug, Clone, PartialEq, Eq)]
pub struct PlaybackError {
    pub message: String,
    pub handled: bool,
}

/// What a stream request was made for.
#[derive(Debug, Clone, Copy, PartialEq, Eq, Structural)]
pub enum PlaybackStreamRequestKind {
    Load,
    Prepare,
    ActivatePrepared,
}

/// The stream that was requested for a song.
#[derive(Debug, Clone, PartialEq, Eq)]
pub struct PlaybackStreamInfo {
    pub request_kind: PlaybackStreamRequestKind,
    pub song_id: String,
    pub song_path: Option<String>,
    pub source_content_type: Option<String>,
    pub source_suffix: Option<String>,
    pub source_bit_rate: Option<u32>,
    pub source_size: Option<u64>,
    pub stream_mode: PlaybackStreamMode,
    pub raw_stream: bool,
    pub stream_format: Option<String>,
    pub stream_max_bit_rate: Option<u32>,
    pub stream_offset_seconds: Option<u32>,
    pub requested_position_ms: u32,
    pub local_start_position_ms: u32,
    pub autoplay: bool,
    pub stream_endpoint: String,
    pub stream_url: String,
}

impl PlaybackStreamInfo {
    /// A copy of this stream information equal to it in every field.
    pub fn duplicate(&self) -> (r: Self)
        ensures
            r == *self,
    {
        PlaybackStreamInfo {
            request_kind: self.request_kind,
            song_id: self.song_id.clone(),
            song_path: copy_opt_string(&self.song_path),
            source_content_type: copy_opt_string(&self.source_content_type),
            source_suffix: copy_opt_string(&self.source_suffix),
            source_bit_rate: self.source_bit_rate,
            source_size: self.source_size,
            stream_mode: self.stream_mode,
            raw_stream: self.raw_stream,
            stream_format: copy_opt_string(&self.stream_format),
            stream_max_bit_rate: self.stream_max_bit_rate,
            stream_offset_seconds: self.stream_offset_seconds,
            requested_position_ms: self.requested_position_ms,
            local_start_position_ms: self.local_start_position_ms,
            autoplay: self.autoplay,
            stream_endpoint: self.stream_endpoint.clone(),
            stream_url: self.stream_url.clone(),
        }
    }
}

/// What the backend reports of the stream it actually decodes.
#[derive(Debug, Clone, PartialEq, Eq)]
pub struct PlaybackActualStreamInfo {
    pub codec: Option<String>,
    pub codec_profile: Option<String>,
    pub sample_rate: Option<u32>,
    pub channels: Option<u32>,
    pub bit_depth: Option<u32>,
    pub bitrate: Option<u32>,
    pub sample_format: Option<String>,
    pub mime_type: Option<String>,
}

impl PlaybackActualStreamInfo {
    /// A copy of this information equal to it in every field.
    pub fn duplicate(&self) -> (r: Self)
        ensures
            r == *self,
    {
        PlaybackActualStreamInfo {
            codec: copy_opt_string(&self.codec),
            codec_profile: copy_opt_string(&self.codec_profile),
            sample_rate: self.sample_rate,
            channels: self.channels,
            bit_depth: self.bit_depth,
            bitrate: self.bitrate,
            sample_format: copy_opt_string(&self.sample_format),
            mime_type: copy_opt_string(&self.mime_type),
        }
    }
}

/// The audio host an output device belongs to.
#[derive(Debug, Clone, Copy, PartialEq, Eq, Structural)]
pub enum PlaybackOutputHost {
    Wasapi,
    Asio,
}

/// An audio output device that can be selected.
#[derive(Debug, Clone, PartialEq, Eq)]
pub struct PlaybackOutputDevice {
    pub id: String,
    pub name: String,
    pub device_name: String,
}

/// Everything the user interface shows of playback.
#[derive(Debug, Clone, PartialEq, Eq)]
pub struct PlaybackStatus {
    pub playing_state: PlayingState,
    pub interrupt_reason: Option<InterruptReason>,
    pub pending_seek_position_ms: Option<u32>,
    pub gapless_status: GaplessStatus,
    pub queue: Vec<SongResponse>,
    pub current_index: Option<u32>,
    pub play_next_queue_len: u32,
    pub current_position_ms: u32,
    pub current_song_id: Option<String>,
    pub playback_error: Option<PlaybackError>,
    pub active_stream_info: Option<PlaybackStreamInfo>,
    pub prepared_stream_info: Option<PlaybackStreamInfo>,
    pub last_stream_request: Option<PlaybackStreamInfo>,
    pub actual_stream_info: Option<PlaybackActualStreamInfo>,
}

/// A tap on the media notification.
#[derive(Debug, Clone, Copy, PartialEq, Eq)]
pub struct MediaNotificationTap {}

/// A request to play songs right after the current one.
#[derive(Debug, Clone, PartialEq, Eq)]
pub struct PlaybackInsertAfterCurrentRequest {
    pub items: Vec<QueueSource>,
}

/// A request to add songs at the end of the queue.
#[derive(Debug, Clone, PartialEq, Eq)]
pub struct PlaybackAppendToQueueRequest {
    pub items: Vec<QueueSource>,
}

/// A copy of optional stream information.
pub fn copy_opt_stream_info(o: &Option<PlaybackStreamInfo>) -> (r: Option<PlaybackStreamInfo>)
    ensures
        r == *o,
{
    match o {
        Some(i) => Some(i.duplicate()),
        None => None,
    }
}

/// A copy of optional actual stream information.
pub fn copy_opt_actual_info(o: &Option<PlaybackActualStreamInfo>) -> (r: Option<
    PlaybackActualStreamInfo,
>)
    ensures
        r == *o,
{
    match o {
        Some(i) => Some(i.duplicate()),
        None => None,
    }
}

/// The message shown while gapless playback is unavailable.
pub open spec fn gapless_unavailable_message() -> Seq<char> {
    "gapless: unavailable"@
}

impl PlaybackStatus {
    /// `self` and `other` agree in every field, the queue entry for entry.
    pub open spec fn same_as(self, other: Self) -> bool {
        &&& self.playing_state == other.playing_state
        &&& self.interrupt_reason == other.interrupt_reason
        &&& self.pending_seek_position_ms == other.pending_seek_position_ms
        &&& self.gapless_status == other.gapless_status
        &&& self.queue@ == other.queue@
        &&& self.current_index == other.current_index
        &&& self.play_next_queue_len == other.play_next_queue_len
        &&& self.current_position_ms == other.current_position_ms
        &&& self.current_song_id == other.current_song_id
        &&& self.playback_error == other.playback_error
        &&& self.active_stream_info == other.active_stream_info
        &&& self.prepared_stream_info == other.prepared_stream_info
        &&& self.last_stream_request == other.last_stream_request
        &&& self.actual_stream_info == other.actual_stream_info
    }

    /// The status of a player with nothing queued.
    pub fn empty() -> (s: Self)
        ensures
            s.playing_state == PlayingState::Idle,
            s.interrupt_reason is None,
            s.pending_seek_position_ms is None,
            s.gapless_status.state == GaplessState::Unavailable,
            s.gapless_status.message@ == gapless_unavailable_message(),
            s.queue@.len() == 0,
            s.current_index is None,
            s.play_next_queue_len == 0,
            s.current_position_ms == 0,
            s.current_song_id is None,
            s.playback_error is None,
            s.active_stream_info is None,
            s.prepared_stream_info is None,
            s.last_stream_request is None,
            s.actual_stream_info is None,
    {
        PlaybackStatus {
            playing_state: PlayingState::Idle,
            interrupt_reason: None,
            pending_seek_position_ms: None,
            gapless_status: GaplessStatus {
                state: GaplessState::Unavailable,
                message: String::from_str("gapless: unavailable"),
            },
            queue: Vec::new(),
            current_index: None,
            play_next_queue_len: 0,
            current_position_ms: 0,
            current_song_id: None,
            playback_error: None,
            active_stream_info: None,
            prepared_stream_info: None,
            last_stream_request: None,
            actual_stream_info: None,
        }
    }

    /// A copy of this status equal to it in every field.
    pub fn duplicate(&self) -> (r: Self)
        ensures
            r.same_as(*self),
    {
        let playback_error = match &self.playback_error {
            Some(e) => Some(PlaybackError { message: e.message.clone(), handled: e.handled }),
            None => None,
        };
        let r = PlaybackStatus {
            playing_state: self.playing_state,
            interrupt_reason: self.interrupt_reason,
            pending_seek_position_ms: self.pending_seek_position_ms,
            gapless_status: GaplessStatus {
                state: self.gapless_status.state,
                message: self.gapless_status.message.clone(),
            },
            queue: copy_songs(&self.queue),
            current_index: self.current_index,
            play_next_queue_len: self.play_next_queue_len,
            current_position_ms: self.current_position_ms,
            current_song_id: copy_opt_string(&self.current_song_id),
            playback_error,
            active_stream_info: copy_opt_stream_info(&self.active_stream_info),
            prepared_stream_info: copy_opt_stream_info(&self.prepared_stream_info),
            last_stream_request: copy_opt_stream_info(&self.last_stream_request),
            actual_stream_info: copy_opt_actual_info(&self.actual_stream_info),
        };
        r
    }
}

} // verus!
