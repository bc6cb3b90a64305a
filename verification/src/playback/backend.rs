//! What a playback backend offers the controller.
use vstd::prelude::*;
use crate::models::playback::PlaybackActualStreamInfo;
use crate::models::session::PlaybackCapabilities;
use crate::models::settings::{PlaybackStreamMode, PlaybackTranscodingCodec};

verus! {

/// A prepared HTTP request for a media stream.
#[derive(Debug, Clone, PartialEq, Eq)]
pub struct PreparedBinaryRequest {
    /// The full request URL, credentials included.
    pub url: String,
    /// The request headers, name and value.
    pub headers: Vec<(String, String)>,
}

/// Two requests with the same URL and headers.
pub open spec fn same_request(a: PreparedBinaryRequest, b: PreparedBinaryRequest) -> bool {
    a.url@ == b.url@ && a.headers@ == b.headers@
}

impl PreparedBinaryRequest {
    /// A copy with the same URL and headers.
    pub fn duplicate(&self) -> (r: Self)
        ensures
            same_request(r, *self),
    {
        let mut headers: Vec<(String, String)> = Vec::new();
        let mut i: usize = 0;
        while i < self.headers.len()
            invariant
                i <= self.headers@.len(),
                headers@ == self.headers@.subrange(0, i as int),
            decreases self.headers@.len() - i,
        {
            headers.push((self.headers[i].0.clone(), self.headers[i].1.clone()));
            i = i + 1;
            assert(headers@ =~= self.headers@.subrange(0, i as int));
        }
        assert(self.headers@.subrange(0, self.headers@.len() as int) =~= self.headers@);
        PreparedBinaryRequest { url: self.url.clone(), headers }
    }
}

/// A request to load or prepare a stream, with what the backend shows of the song.
#[derive(Debug, Clone, PartialEq, Eq)]
pub struct PlaybackBackendLoadRequest {
    pub request: PreparedBinaryRequest,
    pub media_id: String,
    pub title: String,
    pub artist: Option<String>,
    pub album: Option<String>,
    pub source_content_type: Option<String>,
    pub source_suffix: Option<String>,
    pub artwork_path: Option<String>,
    pub absolute_start_position_ms: u32,
    pub local_start_position_ms: u32,
    pub autoplay: bool,
}

/// How a start position is reached: partly by the server's stream offset in whole
/// seconds, the rest by skipping locally.
#[derive(Debug, Clone, Copy, PartialEq, Eq, Structural)]
pub struct PlaybackLoadStrategy {
    pub stream_offset_seconds: Option<u32>,
    pub local_start_position_ms: u32,
}

/// The strategy that a backend using server offsets when it can picks for `position_ms`.
pub open spec fn split_strategy(position_ms: u32, supports_stream_offset: bool) -> PlaybackLoadStrategy {
    if !supports_stream_offset || position_ms == 0 {
        PlaybackLoadStrategy { stream_offset_seconds: None, local_start_position_ms: position_ms }
    } else {
        PlaybackLoadStrategy {
            stream_offset_seconds: Some(position_ms / 1000),
            local_start_position_ms: position_ms % 1000,
        }
    }
}

impl PlaybackLoadStrategy {
    /// Start at `position_ms` by skipping locally only.
    pub fn exact_local(position_ms: u32) -> (r: Self)
        ensures
            r.stream_offset_seconds is None,
            r.local_start_position_ms == position_ms,
    {
        PlaybackLoadStrategy { stream_offset_seconds: None, local_start_position_ms: position_ms }
    }

    /// Start at `position_ms` with the server's offset for the whole seconds, where the
    /// server supports it and the position is not zero.
    pub fn split_by_stream_offset(position_ms: u32, supports_stream_offset: bool) -> (r: Self)
        ensures
            r == split_strategy(position_ms, supports_stream_offset),
            r.stream_offset_seconds matches Some(s) ==> s as int * 1000 + r.local_start_position_ms
                == position_ms,
    {
        if !supports_stream_offset || position_ms == 0 {
            return Self::exact_local(position_ms);
        }
        PlaybackLoadStrategy {
            stream_offset_seconds: Some(position_ms / 1000),
            local_start_position_ms: position_ms % 1000,
        }
    }
}

/// What the backend did with a seek.
#[derive(Debug, Clone, Copy, PartialEq, Eq, Structural)]
pub enum PlaybackSeekAction {
    Applied,
    ReloadRequired,
}

/// An audio backend. Its output volume is set apart from this interface by the application.
/// A command handed to a backend, as its record of commands keeps it.
pub enum BackendCall {
    Load(PlaybackBackendLoadRequest),
    Prepare(PlaybackBackendLoadRequest),
    ActivatePrepared(bool),
    ClearPrepared,
    UpdateArtwork(Seq<char>, Option<String>),
    Seek(u32),
    SetOutputDevice(Option<String>),
    Pause,
    Resume,
    Stop,
}

/// The audio engine the controller drives. Each command it is handed is kept, in order, in
/// its record of commands; questions leave it as it is.
pub trait PlaybackBackend {
    /// The commands handed to this backend so far, in order. The contracts of its commands
    /// hold every implementation to keeping it; one that does not define it shows none.
    closed spec fn handed(&self) -> Seq<BackendCall> {
        Seq::empty()
    }

    /// What this backend can do.
    fn capabilities(&self) -> (r: PlaybackCapabilities)
        default_ensures
            !r.gapless_playback,
            r.transcoding_codecs@ == seq![PlaybackTranscodingCodec::Mp3],
    {
        let mut codecs: Vec<PlaybackTranscodingCodec> = Vec::new();
        codecs.push(PlaybackTranscodingCodec::Mp3);
        PlaybackCapabilities { gapless_playback: false, transcoding_codecs: codecs }
    }

    /// Whether stream requests should ask the server to estimate the content length.
    fn should_estimate_stream_content_length(
        &self,
        stream_mode: PlaybackStreamMode,
        raw_stream: bool,
    ) -> (r: bool)
        default_ensures
            r,
    {
        true
    }

    /// How this backend reaches a start position.
    fn plan_load(&self, requested_position_ms: u32, supports_stream_offset: bool) -> PlaybackLoadStrategy;

    /// Loads and starts (or holds paused) a stream.
    fn load(&mut self, request: PlaybackBackendLoadRequest) -> (r: Result<(), String>)
        ensures
            final(self).handed() == old(self).handed().push(BackendCall::Load(request)),
    ;

    /// Prepares the next stream for a gapless transition; gives its generation.
    fn prepare(&mut self, request: PlaybackBackendLoadRequest) -> (r: Result<u64, String>)
        ensures
            final(self).handed() == old(self).handed().push(BackendCall::Prepare(request)),
    ;

    /// Makes the prepared stream the active one.
    fn activate_prepared(&mut self, autoplay: bool) -> (r: Result<(), String>)
        ensures
            final(self).handed() == old(self).handed().push(BackendCall::ActivatePrepared(autoplay)),
    ;

    /// Drops the prepared stream.
    fn clear_prepared(&mut self)
        ensures
            final(self).handed() == old(self).handed().push(BackendCall::ClearPrepared),
    ;

    /// Replaces the artwork shown for a media item.
    fn update_artwork(&mut self, media_id: &str, artwork_path: Option<String>) -> (r: Result<
        (),
        String,
    >)
        ensures
            final(self).handed() == old(self).handed().push(
                BackendCall::UpdateArtwork(media_id@, artwork_path),
            ),
    ;

    /// Seeks within the active stream.
    fn seek(&mut self, position_ms: u32) -> (r: Result<PlaybackSeekAction, String>)
        ensures
            final(self).handed() == old(self).handed().push(BackendCall::Seek(position_ms)),
    ;

    /// The position within the active stream.
    fn current_position_ms(&self) -> Result<u32, String>;

    /// What is known of the stream actually decoded.
    fn current_stream_info(&self) -> (r: Result<Option<PlaybackActualStreamInfo>, String>)
        default_ensures
            r == Ok::<Option<PlaybackActualStreamInfo>, String>(None),
    {
        Ok(None)
    }

    /// Selects the output device; none selects the default one.
    fn set_output_device(&mut self, output_device_id: Option<String>) -> (r: Result<(), String>)
        ensures
            final(self).handed() == old(self).handed().push(
                BackendCall::SetOutputDevice(output_device_id),
            ),
    ;

    /// Pauses playback.
    fn pause(&mut self) -> (r: Result<(), String>)
        ensures
            final(self).handed() == old(self).handed().push(BackendCall::Pause),
    ;

    /// Resumes playback.
    fn resume(&mut self) -> (r: Result<(), String>)
        ensures
            final(self).handed() == old(self).handed().push(BackendCall::Resume),
    ;

    /// Stops playback and releases the stream.
    fn stop(&mut self) -> (r: Result<(), String>)
        ensures
            final(self).handed() == old(self).handed().push(BackendCall::Stop),
    ;
}

/// The message of a backend that cannot prepare a next track.
pub open spec fn no_gapless_message() -> Seq<char> {
    "Gapless playback is unavailable on this backend."@
}

/// The message of a backend that cannot play on this platform.
pub open spec fn unsupported_backend_message() -> Seq<char> {
    "Playback backend is only implemented for Windows and Android."@
}

/// The backend of platforms without audio output support: every playback request fails,
/// but for stopping and selecting a device.
pub struct UnsupportedPlaybackBackend {
    handed: Ghost<Seq<BackendCall>>,
}

impl PlaybackBackend for UnsupportedPlaybackBackend {
    closed spec fn handed(&self) -> Seq<BackendCall> {
        self.handed@
    }

    fn plan_load(&self, requested_position_ms: u32, supports_stream_offset: bool) -> (r:
        PlaybackLoadStrategy)
        ensures
            r == split_strategy(requested_position_ms, supports_stream_offset),
    {
        PlaybackLoadStrategy::split_by_stream_offset(requested_position_ms, supports_stream_offset)
    }

    fn load(&mut self, request: PlaybackBackendLoadRequest) -> (r: Result<(), String>)
        ensures
            r matches Err(e) && e@ == unsupported_backend_message(),
    {
        self.handed = Ghost(self.handed@.push(BackendCall::Load(request)));
        Err(String::from_str("Playback backend is only implemented for Windows and Android."))
    }

    fn prepare(&mut self, request: PlaybackBackendLoadRequest) -> (r: Result<u64, String>)
        ensures
            r matches Err(e) && e@ == no_gapless_message(),
    {
        self.handed = Ghost(self.handed@.push(BackendCall::Prepare(request)));
        Err(String::from_str("Gapless playback is unavailable on this backend."))
    }

    fn activate_prepared(&mut self, autoplay: bool) -> (r: Result<(), String>)
        ensures
            r matches Err(e) && e@ == no_gapless_message(),
    {
        self.handed = Ghost(self.handed@.push(BackendCall::ActivatePrepared(autoplay)));
        Err(String::from_str("Gapless playback is unavailable on this backend."))
    }

    fn clear_prepared(&mut self) {
        self.handed = Ghost(self.handed@.push(BackendCall::ClearPrepared));
    }

    fn update_artwork(&mut self, media_id: &str, artwork_path: Option<String>) -> (r: Result<
        (),
        String,
    >)
        ensures
            r is Ok,
    {
        self.handed = Ghost(self.handed@.push(BackendCall::UpdateArtwork(media_id@, artwork_path)));
        Ok(())
    }

    fn seek(&mut self, position_ms: u32) -> (r: Result<PlaybackSeekAction, String>)
        ensures
            r matches Err(e) && e@ == unsupported_backend_message(),
    {
        self.handed = Ghost(self.handed@.push(BackendCall::Seek(position_ms)));
        Err(String::from_str("Playback backend is only implemented for Windows and Android."))
    }

    fn current_position_ms(&self) -> (r: Result<u32, String>)
        ensures
            r matches Err(e) && e@ == unsupported_backend_message(),
    {
        Err(String::from_str("Playback backend is only implemented for Windows and Android."))
    }

    fn set_output_device(&mut self, output_device_id: Option<String>) -> (r: Result<(), String>)
        ensures
            r is Ok,
    {
        self.handed = Ghost(self.handed@.push(BackendCall::SetOutputDevice(output_device_id)));
        Ok(())
    }

    fn pause(&mut self) -> (r: Result<(), String>)
        ensures
            r matches Err(e) && e@ == unsupported_backend_message(),
    {
        self.handed = Ghost(self.handed@.push(BackendCall::Pause));
        Err(String::from_str("Playback backend is only implemented for Windows and Android."))
    }

    fn resume(&mut self) -> (r: Result<(), String>)
        ensures
            r matches Err(e) && e@ == unsupported_backend_message(),
    {
        self.handed = Ghost(self.handed@.push(BackendCall::Resume));
        Err(String::from_str("Playback backend is only implemented for Windows and Android."))
    }

    fn stop(&mut self) -> (r: Result<(), String>)
        ensures
            r is Ok,
    {
        self.handed = Ghost(self.handed@.push(BackendCall::Stop));
        Ok(())
    }
}

/// The backend for platforms without audio output support, with no command handed yet.
pub fn create_playback_backend() -> (b: UnsupportedPlaybackBackend)
    ensures
        b.handed().len() == 0,
{
    UnsupportedPlaybackBackend { handed: Ghost(Seq::empty()) }
}

} // verus!
