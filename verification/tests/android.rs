//! Tests of the Android playback backend.
use std::sync::{Arc, Mutex};

use transonic::playback::android::{
    AndroidActivatePreparedMediaRequest, AndroidPlaybackBackend, AndroidPlaybackControl,
    AndroidPreparedMediaRequest, AndroidUpdateMediaArtworkRequest,
};
use transonic::playback::backend::{
    PlaybackBackend, PlaybackBackendLoadRequest, PlaybackLoadStrategy, PreparedBinaryRequest,
};

#[derive(Default)]
struct MockAndroidPlaybackControl {
    loaded_media_ids: Vec<String>,
    prepared_media_ids: Vec<String>,
    activated_autoplay: Vec<bool>,
    updated_artwork: Vec<AndroidUpdateMediaArtworkRequest>,
    clear_prepared_calls: usize,
    stop_calls: usize,
}

struct SharedControl(Arc<Mutex<MockAndroidPlaybackControl>>);

impl AndroidPlaybackControl for SharedControl {
    fn play(&self) -> Result<(), String> {
        Ok(())
    }

    fn load_prepared_media(&self, payload: &AndroidPreparedMediaRequest) -> Result<(), String> {
        self.0.lock().unwrap().loaded_media_ids.push(payload.media_id.clone());
        Ok(())
    }

    fn prepare_next_media(&self, payload: &AndroidPreparedMediaRequest) -> Result<(), String> {
        self.0.lock().unwrap().prepared_media_ids.push(payload.media_id.clone());
        Ok(())
    }

    fn activate_prepared_media(
        &self,
        payload: &AndroidActivatePreparedMediaRequest,
    ) -> Result<(), String> {
        self.0.lock().unwrap().activated_autoplay.push(payload.autoplay);
        Ok(())
    }

    fn clear_prepared_media(&self) -> Result<(), String> {
        self.0.lock().unwrap().clear_prepared_calls += 1;
        Ok(())
    }

    fn update_media_artwork(&self, payload: &AndroidUpdateMediaArtworkRequest) -> Result<(), String> {
        self.0.lock().unwrap().updated_artwork.push(payload.clone());
        Ok(())
    }

    fn pause(&self) -> Result<(), String> {
        Ok(())
    }

    fn stop(&self) -> Result<(), String> {
        self.0.lock().unwrap().stop_calls += 1;
        Ok(())
    }

    fn seek_to(&self, _position_ms: u32) -> Result<(), String> {
        Ok(())
    }

    fn current_position_ms(&self) -> Result<u32, String> {
        Ok(0)
    }
}

fn load_request(media_id: &str) -> PlaybackBackendLoadRequest {
    PlaybackBackendLoadRequest {
        request: PreparedBinaryRequest {
            url: "https://example.com/rest/stream.view?id=test".to_string(),
            headers: vec![("Authorization".to_string(), "Bearer test".to_string())],
        },
        media_id: media_id.to_string(),
        title: "Song".to_string(),
        artist: Some("Artist".to_string()),
        album: Some("Album".to_string()),
        source_content_type: None,
        source_suffix: None,
        artwork_path: None,
        absolute_start_position_ms: 0,
        local_start_position_ms: 0,
        autoplay: true,
    }
}

#[test]
fn prepare_increments_generation_and_activate_clears_local_state() {
    let bridge = Arc::new(Mutex::new(MockAndroidPlaybackControl::default()));
    let mut backend = AndroidPlaybackBackend::new(Box::new(SharedControl(bridge.clone())));

    let first_generation = backend.prepare(load_request("song-a")).unwrap();
    let second_generation = backend.prepare(load_request("song-b")).unwrap();

    assert_eq!(first_generation, 1);
    assert_eq!(second_generation, 2);
    backend.activate_prepared(true).unwrap();
    assert_eq!(
        backend.activate_prepared(true).unwrap_err(),
        "No prepared Android playback media is available."
    );

    let state = bridge.lock().unwrap();
    assert_eq!(state.prepared_media_ids.len(), 2);
    assert_eq!(state.activated_autoplay, vec![true]);
}

#[test]
fn clear_prepared_and_stop_reset_prepared_generation() {
    let bridge = Arc::new(Mutex::new(MockAndroidPlaybackControl::default()));
    let mut backend = AndroidPlaybackBackend::new(Box::new(SharedControl(bridge.clone())));

    backend.prepare(load_request("song-a")).unwrap();
    backend.clear_prepared();
    assert_eq!(
        backend.activate_prepared(false).unwrap_err(),
        "No prepared Android playback media is available."
    );

    backend.prepare(load_request("song-b")).unwrap();
    backend.stop().unwrap();
    assert_eq!(
        backend.activate_prepared(false).unwrap_err(),
        "No prepared Android playback media is available."
    );

    let state = bridge.lock().unwrap();
    assert_eq!(state.clear_prepared_calls, 1);
    assert_eq!(state.stop_calls, 1);
}

#[test]
fn load_uses_unique_media_instance_ids() {
    let bridge = Arc::new(Mutex::new(MockAndroidPlaybackControl::default()));
    let mut backend = AndroidPlaybackBackend::new(Box::new(SharedControl(bridge.clone())));

    backend.load(load_request("song-a")).unwrap();
    backend.load(load_request("song-a")).unwrap();

    let state = bridge.lock().unwrap();
    assert_eq!(state.loaded_media_ids.len(), 2);
    assert_ne!(state.loaded_media_ids[0], state.loaded_media_ids[1]);
    assert_eq!(state.loaded_media_ids[0], "song-a#1");
    assert_eq!(state.loaded_media_ids[1], "song-a#2");
}

#[test]
fn update_artwork_forwards_song_id_and_path() {
    let bridge = Arc::new(Mutex::new(MockAndroidPlaybackControl::default()));
    let mut backend = AndroidPlaybackBackend::new(Box::new(SharedControl(bridge.clone())));

    backend.update_artwork("song-a", Some("cache/cover.png".to_string())).unwrap();
    backend.update_artwork("song-b", None).unwrap();

    let state = bridge.lock().unwrap();
    assert_eq!(state.updated_artwork.len(), 1);
    assert_eq!(state.updated_artwork[0].media_id, "song-a");
    assert_eq!(state.updated_artwork[0].artwork_path, "cache/cover.png");
}

#[test]
fn plan_load_uses_exact_local_start_position() {
    let bridge = Arc::new(Mutex::new(MockAndroidPlaybackControl::default()));
    let backend = AndroidPlaybackBackend::new(Box::new(SharedControl(bridge)));

    assert_eq!(
        backend.plan_load(7_500, true),
        PlaybackLoadStrategy { stream_offset_seconds: None, local_start_position_ms: 7_500 }
    );
}
