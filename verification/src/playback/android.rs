//! The Android playback backend: it hands media requests to the platform player through a
//! bridge and keeps track of the prepared next track.
use vstd::prelude::*;
use crate::models::session::PlaybackCapabilities;
use crate::models::settings::PlaybackTranscodingCodec;
use crate::text::{decimal, decimal_text, join3};
use super::backend::{
    BackendCall, PlaybackBackend, PlaybackBackendLoadRequest, PlaybackLoadStrategy, PlaybackSeekAction,
};

verus! {

/// A request header the platform player sends with a stream request.
#[derive(Debug, Clone, PartialEq, Eq)]
pub struct AndroidPlaybackHeader {
    pub name: String,
    pub value: String,
}

/// A media item handed to the platform player.
#[derive(Debug, Clone, PartialEq, Eq)]
pub struct AndroidPreparedMediaRequest {
    pub media_id: String,
    pub stream_url: String,
    pub headers: Vec<AndroidPlaybackHeader>,
    pub absolute_start_position_ms: u32,
    pub local_start_position_ms: u32,
    pub autoplay: bool,
    pub title: String,
    pub artist: Option<String>,
    pub album: Option<String>,
    pub artwork_path: Option<String>,
}

/// Asks the platform player to play the prepared item.
#[derive(Debug, Clone, Copy, PartialEq, Eq, Structural)]
pub struct AndroidActivatePreparedMediaRequest {
    pub autoplay: bool,
}

/// A downloaded cover for the media notification.
#[derive(Debug, Clone, PartialEq, Eq)]
pub struct AndroidUpdateMediaArtworkRequest {
    pub media_id: String,
    pub artwork_path: String,
}

/// The platform player, as the backend drives it.
pub trait AndroidPlaybackControl {
    /// Starts or resumes playback.
    fn play(&self) -> Result<(), String>;

    /// Loads an item in place of the current one.
    fn load_prepared_media(&self, payload: &AndroidPreparedMediaRequest) -> Result<(), String>;

    /// Prepares an item to follow the current one.
    fn prepare_next_media(&self, payload: &AndroidPreparedMediaRequest) -> Result<(), String>;

    /// Moves to the prepared item.
    fn activate_prepared_media(&self, payload: &AndroidActivatePreparedMediaRequest) -> Result<
        (),
        String,
    >;

    /// Drops the prepared item.
    fn clear_prepared_media(&self) -> Result<(), String>;

    /// Shows a cover in the media notification.
    fn update_media_artwork(&self, payload: &AndroidUpdateMediaArtworkRequest) -> Result<
        (),
        String,
    >;

    /// Pauses playback.
    fn pause(&self) -> Result<(), String>;

    /// Stops playback.
    fn stop(&self) -> Result<(), String>;

    /// Moves to a position.
    fn seek_to(&self, position_ms: u32) -> Result<(), String>;

    /// The playback position.
    fn current_position_ms(&self) -> Result<u32, String>;
}

/// The id of the `n`-th media item handed to the platform player for song `media_id`.
pub open spec fn media_instance_id(media_id: Seq<char>, n: u64) -> Seq<char> {
    media_id + "#"@ + decimal(n as nat)
}

/// The message of an activation without a prepared item.
pub open spec fn no_prepared_media_message() -> Seq<char> {
    "No prepared Android playback media is available."@
}

/// The Android playback backend.
pub struct AndroidPlaybackBackend {
    bridge: Box<dyn AndroidPlaybackControl>,
    next_prepare_generation: u64,
    prepared_generation: Option<u64>,
    next_media_instance_id: u64,
    handed: Ghost<Seq<BackendCall>>,
}

impl AndroidPlaybackBackend {
    /// The generation of the prepared item, if one is prepared.
    pub closed spec fn prepared_generation_view(self) -> Option<u64> {
        self.prepared_generation
    }

    /// The generation the last preparation was given.
    pub closed spec fn last_generation_view(self) -> u64 {
        self.next_prepare_generation
    }

    /// How many media items were handed to the platform player.
    pub closed spec fn media_count_view(self) -> u64 {
        self.next_media_instance_id
    }

    /// A backend over the platform player `bridge`, with nothing prepared.
    pub fn new(bridge: Box<dyn AndroidPlaybackControl>) -> (r: Self)
        ensures
            r.handed().len() == 0,
            r.prepared_generation_view() is None,
            r.last_generation_view() == 0,
            r.media_count_view() == 0,
    {
        AndroidPlaybackBackend {
            bridge,
            next_prepare_generation: 0,
            prepared_generation: None,
            next_media_instance_id: 0,
            handed: Ghost(Seq::empty()),
        }
    }

    /// The media item for a load request, with an instance id of its own.
    fn to_request_payload(&mut self, request: PlaybackBackendLoadRequest) -> (r:
        AndroidPreparedMediaRequest)
        ensures
            final(self).media_count_view() == old(self).media_count_view().wrapping_add(1),
            final(self).prepared_generation_view() == old(self).prepared_generation_view(),
            final(self).last_generation_view() == old(self).last_generation_view(),
            r.media_id@ == media_instance_id(request.media_id@, final(self).media_count_view()),
            r.stream_url == request.request.url,
            r.headers@.len() == request.request.headers@.len(),
            forall|i: int|
                0 <= i < r.headers@.len() ==> #[trigger] r.headers@[i].name
                    == request.request.headers@[i].0 && r.headers@[i].value
                    == request.request.headers@[i].1,
            r.absolute_start_position_ms == request.absolute_start_position_ms,
            r.local_start_position_ms == request.local_start_position_ms,
            r.autoplay == request.autoplay,
            r.title == request.title,
            r.artist == request.artist,
            r.album == request.album,
            r.artwork_path == request.artwork_path,
    {
        self.next_media_instance_id = self.next_media_instance_id.wrapping_add(1);
        let n = decimal_text(self.next_media_instance_id);
        let media_id = join3(request.media_id.as_str(), "#", n.as_str());
        let mut headers: Vec<AndroidPlaybackHeader> = Vec::new();
        let mut i: usize = 0;
        while i < request.request.headers.len()
            invariant
                i <= request.request.headers@.len(),
                headers@.len() == i,
                forall|k: int|
                    0 <= k < i ==> #[trigger] headers@[k].name == request.request.headers@[k].0
                        && headers@[k].value == request.request.headers@[k].1,
            decreases request.request.headers@.len() - i,
        {
            headers.push(
                AndroidPlaybackHeader {
                    name: request.request.headers[i].0.clone(),
                    value: request.request.headers[i].1.clone(),
                },
            );
            i = i + 1;
        }
        AndroidPreparedMediaRequest {
            media_id,
            stream_url: request.request.url,
            headers,
            absolute_start_position_ms: request.absolute_start_position_ms,
            local_start_position_ms: request.local_start_position_ms,
            autoplay: request.autoplay,
            title: request.title,
            artist: request.artist,
            album: request.album,
            artwork_path: request.artwork_path,
        }
    }

    /// Loads a media item in place of the current one; nothing stays prepared.
    pub fn load_media(&mut self, request: PlaybackBackendLoadRequest) -> (r: Result<(), String>)
        ensures
            final(self).prepared_generation_view() is None,
            final(self).last_generation_view() == old(self).last_generation_view(),
            final(self).media_count_view() == old(self).media_count_view().wrapping_add(1),
    {
        let payload = self.to_request_payload(request);
        self.prepared_generation = None;
        self.bridge.load_prepared_media(&payload)
    }

    /// Prepares a media item to follow the current one; a preparation the platform player
    /// takes gets the next generation.
    pub fn prepare_media(&mut self, request: PlaybackBackendLoadRequest) -> (r: Result<u64, String>)
        ensures
            final(self).media_count_view() == old(self).media_count_view().wrapping_add(1),
            match r {
                Ok(g) => {
                    &&& g == old(self).last_generation_view().wrapping_add(1)
                    &&& final(self).last_generation_view() == g
                    &&& final(self).prepared_generation_view() == Some(g)
                },
                Err(_) => {
                    &&& final(self).last_generation_view() == old(self).last_generation_view()
                    &&& final(self).prepared_generation_view() == old(self).prepared_generation_view()
                },
            },
    {
        let payload = self.to_request_payload(request);
        match self.bridge.prepare_next_media(&payload) {
            Ok(()) => {},
            Err(e) => {
                return Err(e);
            },
        }
        self.next_prepare_generation = self.next_prepare_generation.wrapping_add(1);
        let generation = self.next_prepare_generation;
        self.prepared_generation = Some(generation);
        Ok(generation)
    }

    /// Moves to the prepared item; without one, an error that says so.
    pub fn activate_prepared_media(&mut self, autoplay: bool) -> (r: Result<(), String>)
        ensures
            final(self).prepared_generation_view() is None,
            final(self).last_generation_view() == old(self).last_generation_view(),
            final(self).media_count_view() == old(self).media_count_view(),
            old(self).prepared_generation_view() is None ==> (r matches Err(e) && e@
                == no_prepared_media_message()),
    {
        match self.prepared_generation {
            None => {
                return Err(String::from_str("No prepared Android playback media is available."));
            },
            Some(_) => {},
        }
        self.prepared_generation = None;
        self.bridge.activate_prepared_media(&AndroidActivatePreparedMediaRequest { autoplay })
    }

    /// Drops the prepared item; a failure of the platform player to drop it is only logged.
    pub fn clear_prepared_media(&mut self)
        ensures
            final(self).prepared_generation_view() is None,
            final(self).last_generation_view() == old(self).last_generation_view(),
            final(self).media_count_view() == old(self).media_count_view(),
    {
        self.prepared_generation = None;
        let _ = self.bridge.clear_prepared_media();
    }

    /// Stops playback; nothing stays prepared.
    pub fn stop_media(&mut self) -> (r: Result<(), String>)
        ensures
            final(self).prepared_generation_view() is None,
            final(self).last_generation_view() == old(self).last_generation_view(),
            final(self).media_count_view() == old(self).media_count_view(),
    {
        self.prepared_generation = None;
        self.bridge.stop()
    }

    /// Shows a downloaded cover for `media_id`; without a cover nothing is done.
    pub fn update_media_artwork(&mut self, media_id: &str, artwork_path: Option<String>) -> (r:
        Result<(), String>)
        ensures
            artwork_path is None ==> r is Ok,
            final(self).prepared_generation_view() == old(self).prepared_generation_view(),
            final(self).last_generation_view() == old(self).last_generation_view(),
            final(self).media_count_view() == old(self).media_count_view(),
    {
        let artwork_path = match artwork_path {
            Some(p) => p,
            None => {
                return Ok(());
            },
        };
        self.bridge.update_media_artwork(
            &AndroidUpdateMediaArtworkRequest { media_id: String::from_str(media_id), artwork_path },
        )
    }
}

impl PlaybackBackend for AndroidPlaybackBackend {
    closed spec fn handed(&self) -> Seq<BackendCall> {
        self.handed@
    }

    fn capabilities(&self) -> (r: PlaybackCapabilities)
        ensures
            r.gapless_playback,
            r.transcoding_codecs@ == seq![PlaybackTranscodingCodec::Mp3],
    {
        let mut codecs: Vec<PlaybackTranscodingCodec> = Vec::new();
        codecs.push(PlaybackTranscodingCodec::Mp3);
        PlaybackCapabilities { gapless_playback: true, transcoding_codecs: codecs }
    }

    fn plan_load(&self, requested_position_ms: u32, supports_stream_offset: bool) -> (r:
        PlaybackLoadStrategy)
        ensures
            r.stream_offset_seconds is None,
            r.local_start_position_ms == requested_position_ms,
    {
        PlaybackLoadStrategy::exact_local(requested_position_ms)
    }

    fn load(&mut self, request: PlaybackBackendLoadRequest) -> (r: Result<(), String>)
        ensures
            final(self).prepared_generation_view() is None,
            final(self).last_generation_view() == old(self).last_generation_view(),
            final(self).media_count_view() == old(self).media_count_view().wrapping_add(1),
    {
        let ghost asked = request;
        let ghost before = self.handed@;
        let r = self.load_media(request);
        self.handed = Ghost(before.push(BackendCall::Load(asked)));
        r
    }

    fn prepare(&mut self, request: PlaybackBackendLoadRequest) -> (r: Result<u64, String>)
        ensures
            final(self).media_count_view() == old(self).media_count_view().wrapping_add(1),
            match r {
                Ok(g) => {
                    &&& g == old(self).last_generation_view().wrapping_add(1)
                    &&& final(self).last_generation_view() == g
                    &&& final(self).prepared_generation_view() == Some(g)
                },
                Err(_) => {
                    &&& final(self).last_generation_view() == old(self).last_generation_view()
                    &&& final(self).prepared_generation_view() == old(self).prepared_generation_view()
                },
            },
    {
        let ghost asked = request;
        let ghost before = self.handed@;
        let r = self.prepare_media(request);
        self.handed = Ghost(before.push(BackendCall::Prepare(asked)));
        r
    }

    fn activate_prepared(&mut self, autoplay: bool) -> (r: Result<(), String>)
        ensures
            final(self).prepared_generation_view() is None,
            final(self).last_generation_view() == old(self).last_generation_view(),
            final(self).media_count_view() == old(self).media_count_view(),
            old(self).prepared_generation_view() is None ==> (r matches Err(e) && e@
                == no_prepared_media_message()),
    {
        let ghost before = self.handed@;
        let r = self.activate_prepared_media(autoplay);
        self.handed = Ghost(before.push(BackendCall::ActivatePrepared(autoplay)));
        r
    }

    fn clear_prepared(&mut self)
        ensures
            final(self).prepared_generation_view() is None,
            final(self).last_generation_view() == old(self).last_generation_view(),
            final(self).media_count_view() == old(self).media_count_view(),
    {
        let ghost before = self.handed@;
        self.clear_prepared_media();
        self.handed = Ghost(before.push(BackendCall::ClearPrepared));
    }

    fn update_artwork(&mut self, media_id: &str, artwork_path: Option<String>) -> (r: Result<
        (),
        String,
    >)
        ensures
            artwork_path is None ==> r is Ok,
            final(self).prepared_generation_view() == old(self).prepared_generation_view(),
            final(self).last_generation_view() == old(self).last_generation_view(),
            final(self).media_count_view() == old(self).media_count_view(),
    {
        let ghost asked = artwork_path;
        let ghost before = self.handed@;
        let r = self.update_media_artwork(media_id, artwork_path);
        self.handed = Ghost(before.push(BackendCall::UpdateArtwork(media_id@, asked)));
        r
    }

    fn seek(&mut self, position_ms: u32) -> (r: Result<PlaybackSeekAction, String>)
        ensures
            r matches Ok(a) ==> a == PlaybackSeekAction::Applied,
            final(self).prepared_generation_view() == old(self).prepared_generation_view(),
            final(self).last_generation_view() == old(self).last_generation_view(),
            final(self).media_count_view() == old(self).media_count_view(),
    {
        self.handed = Ghost(self.handed@.push(BackendCall::Seek(position_ms)));
        match self.bridge.seek_to(position_ms) {
            Ok(()) => Ok(PlaybackSeekAction::Applied),
            Err(e) => Err(e),
        }
    }

    fn current_position_ms(&self) -> Result<u32, String> {
        self.bridge.current_position_ms()
    }

    fn pause(&mut self) -> (r: Result<(), String>)
        ensures
            final(self).prepared_generation_view() == old(self).prepared_generation_view(),
            final(self).last_generation_view() == old(self).last_generation_view(),
            final(self).media_count_view() == old(self).media_count_view(),
    {
        self.handed = Ghost(self.handed@.push(BackendCall::Pause));
        self.bridge.pause()
    }

    fn resume(&mut self) -> (r: Result<(), String>)
        ensures
            final(self).prepared_generation_view() == old(self).prepared_generation_view(),
            final(self).last_generation_view() == old(self).last_generation_view(),
            final(self).media_count_view() == old(self).media_count_view(),
    {
        self.handed = Ghost(self.handed@.push(BackendCall::Resume));
        self.bridge.play()
    }

    fn stop(&mut self) -> (r: Result<(), String>)
        ensures
            final(self).prepared_generation_view() is None,
            final(self).last_generation_view() == old(self).last_generation_view(),
            final(self).media_count_view() == old(self).media_count_view(),
    {
        let ghost before = self.handed@;
        let r = self.stop_media();
        self.handed = Ghost(before.push(BackendCall::Stop));
        r
    }

    fn set_output_device(&mut self, output_device_id: Option<String>) -> (r: Result<(), String>)
        ensures
            r is Ok,
            final(self).prepared_generation_view() == old(self).prepared_generation_view(),
            final(self).last_generation_view() == old(self).last_generation_view(),
            final(self).media_count_view() == old(self).media_count_view(),
    {
        self.handed = Ghost(self.handed@.push(BackendCall::SetOutputDevice(output_device_id)));
        Ok(())
    }
}

} // verus!
