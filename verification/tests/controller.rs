//! Tests of the playback controller, driven through mock backends and sinks.
use std::sync::{Arc, Mutex};

use transonic::models::browse::SongResponse;
use transonic::models::connect::ConnectPlaybackState;
use transonic::models::playback::{
    GaplessState, InterruptReason, PlaybackActualStreamInfo, PlaybackStatus,
    PlaybackStreamRequestKind, PlayingState,
};
use transonic::models::session::{CapabilityMatrix, PlaybackCapabilities};
use transonic::models::settings::{PlaybackStreamMode, PlaybackTranscodingCodec};
use transonic::playback::backend::{
    PlaybackBackend, PlaybackBackendLoadRequest, PlaybackLoadStrategy, PlaybackSeekAction,
    PreparedBinaryRequest,
};
use transonic::playback::controller::support::{
    playback_error_from_load_failure, ApiError, RetrievalApi, StreamRequest,
    HANDLED_PLAYBACK_ERROR_PREFIX, PREV_RESTART_THRESHOLD_MS,
};
use transonic::playback::controller::actions::{parse_controller_action, ControllerAction};
use transonic::playback::controller::{PlaybackController, PlaybackRuntimeContext};
use transonic::playback::native_events::{
    NativePlaybackEventSource, NoopNativePlaybackEventSource, PlaybackNativeEvent,
};
use transonic::playback::reporting::{NoopQueueSyncGateway, PlaybackReporter, QueueSyncGateway};
use transonic::playback::server_reporting::{
    NoopPlaybackServerReporter, PlaybackServerReporter, ServerPlaybackReportingContext,
    ServerPlaybackState, ServerPlaybackTrack,
};
use transonic::playback_state::{
    NoopPlaybackStatePersister, PlaybackStateFile, PlaybackStatePersister,
};
use transonic::queue::current_song_id;

/// A server client that prepares stream requests the way the Subsonic API spells them.
struct MockClient;

impl RetrievalApi for MockClient {
    fn stream(&self, request: StreamRequest) -> Result<PreparedBinaryRequest, ApiError> {
        let mut url = format!(
            "https://demo.example/rest/stream.view?u=demo&t=token&s=salt&v=1.16.1&c=transonic&f=json&id={}",
            request.id
        );
        if let Some(max_bit_rate) = request.max_bit_rate {
            url.push_str(&format!("&maxBitRate={max_bit_rate}"));
        }
        if let Some(format) = &request.format {
            url.push_str(&format!("&format={format}"));
        }
        if let Some(time_offset) = request.time_offset {
            url.push_str(&format!("&timeOffset={time_offset}"));
        }
        if let Some(estimate) = request.estimate_content_length {
            url.push_str(&format!("&estimateContentLength={estimate}"));
        }
        Ok(PreparedBinaryRequest { url, headers: Vec::new() })
    }
}

#[derive(Debug, Clone, Copy, PartialEq, Eq)]
enum MockSeekBehavior {
    Apply,
    ApplyAndEmitSeekProcessed,
    ReloadRequired,
    Fail,
}

impl Default for MockSeekBehavior {
    fn default() -> Self {
        MockSeekBehavior::Apply
    }
}

#[derive(Debug, Default)]
struct MockBackendState {
    load_calls: Vec<String>,
    load_absolute_start_positions_ms: Vec<u32>,
    load_local_start_positions_ms: Vec<u32>,
    load_artwork_paths: Vec<Option<String>>,
    load_source_content_types: Vec<Option<String>>,
    load_source_suffixes: Vec<Option<String>>,
    prepare_calls: Vec<String>,
    prepare_artwork_paths: Vec<Option<String>>,
    artwork_update_calls: Vec<(String, Option<String>)>,
    next_prepare_generation: u64,
    seek_calls_ms: Vec<u32>,
    current_position_ms: u32,
    current_position_calls: usize,
    fail_first_load: bool,
    always_fail_load: bool,
    load_error: Option<String>,
    fail_standard_load: bool,
    seek_behavior: MockSeekBehavior,
    has_failed_first_load: bool,
    pause_calls: usize,
    resume_calls: usize,
    stop_calls: usize,
    output_device_calls: Vec<Option<String>>,
    fail_output_device: bool,
    activate_prepared_calls: usize,
    clear_prepared_calls: usize,
    activated_prepared_urls: Vec<String>,
    current_stream_info: Option<PlaybackActualStreamInfo>,
    prepared_request: Option<MockPreparedRequest>,
}

#[derive(Debug, Clone)]
struct MockPreparedRequest {
    url: String,
    absolute_start_position_ms: u32,
    actual_stream_info: PlaybackActualStreamInfo,
}

#[derive(Debug, Default)]
struct MockReporterState {
    reported_states: Vec<PlaybackStatus>,
}

#[derive(Debug, Default)]
struct MockQueueSyncState {
    synced_states: Vec<PlaybackStatus>,
}

#[derive(Debug, Clone, PartialEq, Eq)]
struct MockServerReportEvent {
    profile_id: String,
    song_id: String,
    position_ms: u32,
    state: ServerPlaybackState,
}

#[derive(Debug, Default)]
struct MockServerReporterState {
    reported_events: Vec<MockServerReportEvent>,
}

struct MockBackend {
    state: Arc<Mutex<MockBackendState>>,
    playback_capabilities: PlaybackCapabilities,
    estimate_stream_content_length: bool,
    native_events: Option<Arc<Mutex<Vec<PlaybackNativeEvent>>>>,
}

struct MockReporter {
    state: Arc<Mutex<MockReporterState>>,
}

struct MockServerReporter {
    state: Arc<Mutex<MockServerReporterState>>,
}

struct MockQueueSync {
    state: Arc<Mutex<MockQueueSyncState>>,
}

#[derive(Clone, Default)]
struct RecordingPersister {
    states: Arc<Mutex<Vec<PlaybackStateFile>>>,
}

#[derive(Default)]
struct MockNativeEventSource {
    events: Arc<Mutex<Vec<PlaybackNativeEvent>>>,
}

fn mock_actual_stream_info(codec: &str) -> PlaybackActualStreamInfo {
    PlaybackActualStreamInfo {
        codec: Some(codec.to_string()),
        codec_profile: None,
        sample_rate: Some(44_100),
        channels: Some(2),
        bit_depth: Some(16),
        bitrate: Some(320_000),
        sample_format: Some("f32".to_string()),
        mime_type: Some("audio/mock".to_string()),
    }
}

fn mock_actual_stream_info_for_url(url: &str) -> PlaybackActualStreamInfo {
    if url.contains("song-b") {
        mock_actual_stream_info("song-b")
    } else if url.contains("song-c") {
        mock_actual_stream_info("song-c")
    } else {
        mock_actual_stream_info("song-a")
    }
}

impl PlaybackBackend for MockBackend {
    fn capabilities(&self) -> PlaybackCapabilities {
        self.playback_capabilities.clone()
    }

    fn should_estimate_stream_content_length(
        &self,
        _stream_mode: PlaybackStreamMode,
        _raw_stream: bool,
    ) -> bool {
        self.estimate_stream_content_length
    }

    fn plan_load(
        &self,
        requested_position_ms: u32,
        supports_stream_offset: bool,
    ) -> PlaybackLoadStrategy {
        PlaybackLoadStrategy::split_by_stream_offset(
            requested_position_ms,
            supports_stream_offset,
        )
    }

    fn load(&mut self, request: PlaybackBackendLoadRequest) -> Result<(), String> {
        let mut state = self.state.lock().unwrap();
        state.load_calls.push(request.request.url.to_string());
        state
            .load_absolute_start_positions_ms
            .push(request.absolute_start_position_ms);
        state
            .load_local_start_positions_ms
            .push(request.local_start_position_ms);
        state.load_artwork_paths.push(request.artwork_path.clone());
        state
            .load_source_content_types
            .push(request.source_content_type.clone());
        state
            .load_source_suffixes
            .push(request.source_suffix.clone());
        if state.always_fail_load {
            return Err("stream rejected".to_string());
        }
        if let Some(error) = state.load_error.clone() {
            return Err(error);
        }
        if state.fail_standard_load && !request.request.url.as_str().contains("format=raw") {
            return Err("standard stream rejected".to_string());
        }
        if state.fail_first_load && !state.has_failed_first_load {
            state.has_failed_first_load = true;
            return Err("raw stream rejected".to_string());
        }

        state.current_position_ms = request.absolute_start_position_ms;
        state.current_stream_info = Some(mock_actual_stream_info_for_url(
            request.request.url.as_str(),
        ));

        Ok(())
    }

    fn prepare(&mut self, request: PlaybackBackendLoadRequest) -> Result<u64, String> {
        let mut state = self.state.lock().unwrap();
        let url = request.request.url.to_string();
        state.prepare_calls.push(url.clone());
        state
            .prepare_artwork_paths
            .push(request.artwork_path.clone());
        if state.always_fail_load {
            return Err("stream rejected".to_string());
        }
        if let Some(error) = state.load_error.clone() {
            return Err(error);
        }
        if state.fail_standard_load && !url.contains("format=raw") {
            return Err("standard stream rejected".to_string());
        }
        if state.fail_first_load && !state.has_failed_first_load {
            state.has_failed_first_load = true;
            return Err("raw stream rejected".to_string());
        }

        state.next_prepare_generation = state.next_prepare_generation.wrapping_add(1);
        let generation = state.next_prepare_generation;
        state.prepared_request = Some(MockPreparedRequest {
            actual_stream_info: mock_actual_stream_info_for_url(&url),
            url,
            absolute_start_position_ms: request.absolute_start_position_ms,
        });
        Ok(generation)
    }

    fn activate_prepared(&mut self, _autoplay: bool) -> Result<(), String> {
        let mut state = self.state.lock().unwrap();
        let Some(request) = state.prepared_request.take() else {
            return Err("no prepared stream".to_string());
        };
        state.activate_prepared_calls += 1;
        state.activated_prepared_urls.push(request.url);
        state.current_position_ms = request.absolute_start_position_ms;
        state.current_stream_info = Some(request.actual_stream_info);
        Ok(())
    }

    fn clear_prepared(&mut self) {
        let mut state = self.state.lock().unwrap();
        state.clear_prepared_calls += 1;
        state.prepared_request = None;
    }

    fn seek(&mut self, position_ms: u32) -> Result<PlaybackSeekAction, String> {
        let mut state = self.state.lock().unwrap();
        state.seek_calls_ms.push(position_ms);
        match state.seek_behavior {
            MockSeekBehavior::Apply => {
                state.current_position_ms = position_ms;
                Ok(PlaybackSeekAction::Applied)
            }
            MockSeekBehavior::ApplyAndEmitSeekProcessed => {
                state.current_position_ms = position_ms;
                if let Some(native_events) = &self.native_events {
                    native_events
                        .lock()
                        .unwrap()
                        .push(PlaybackNativeEvent::SeekProcessed { position_ms });
                }
                Ok(PlaybackSeekAction::Applied)
            }
            MockSeekBehavior::ReloadRequired => Ok(PlaybackSeekAction::ReloadRequired),
            MockSeekBehavior::Fail => Err("sink rejected seek".to_string()),
        }
    }

    fn current_position_ms(&self) -> Result<u32, String> {
        let mut state = self.state.lock().unwrap();
        state.current_position_calls += 1;
        Ok(state.current_position_ms)
    }

    fn current_stream_info(&self) -> Result<Option<PlaybackActualStreamInfo>, String> {
        Ok(self.state.lock().unwrap().current_stream_info.clone())
    }


    fn set_output_device(&mut self, output_device_id: Option<String>) -> Result<(), String> {
        let mut state = self.state.lock().unwrap();
        if state.fail_output_device {
            return Err("output device rejected".to_string());
        }
        state.output_device_calls.push(output_device_id);
        Ok(())
    }

    fn update_artwork(
        &mut self,
        media_id: &str,
        artwork_path: Option<String>,
    ) -> Result<(), String> {
        self.state
            .lock()
            .unwrap()
            .artwork_update_calls
            .push((media_id.to_string(), artwork_path));
        Ok(())
    }

    fn pause(&mut self) -> Result<(), String> {
        self.state.lock().unwrap().pause_calls += 1;
        Ok(())
    }

    fn resume(&mut self) -> Result<(), String> {
        self.state.lock().unwrap().resume_calls += 1;
        Ok(())
    }

    fn stop(&mut self) -> Result<(), String> {
        let mut state = self.state.lock().unwrap();
        state.stop_calls += 1;
        state.current_position_ms = 0;
        Ok(())
    }
}

impl PlaybackReporter for MockReporter {
    fn report_state(&mut self, status: &PlaybackStatus) -> Result<(), String> {
        self.state
            .lock()
            .unwrap()
            .reported_states
            .push(status.clone());
        Ok(())
    }
}

impl PlaybackStatePersister for RecordingPersister {
    fn save(&self, state: &PlaybackStateFile) -> Result<(), String> {
        self.states.lock().unwrap().push(state.clone());
        Ok(())
    }
}

impl PlaybackServerReporter for MockServerReporter {
    fn report_state(
        &mut self,
        context: ServerPlaybackReportingContext,
        track: ServerPlaybackTrack,
        position_ms: u32,
        state: ServerPlaybackState,
    ) {
        self.state
            .lock()
            .unwrap()
            .reported_events
            .push(MockServerReportEvent {
                profile_id: context.profile_id,
                song_id: track.song_id,
                position_ms,
                state,
            });
    }

    fn clear(&mut self) {}
}

impl QueueSyncGateway for MockQueueSync {
    fn sync_queue(&mut self, status: &PlaybackStatus) -> Result<(), String> {
        self.state
            .lock()
            .unwrap()
            .synced_states
            .push(status.clone());
        Ok(())
    }
}

impl NativePlaybackEventSource for MockNativeEventSource {
    fn drain_events(&mut self) -> Vec<PlaybackNativeEvent> {
        let mut events = self.events.lock().unwrap();
        std::mem::take(&mut *events)
    }
}

fn runtime_context(transcode_offset: bool) -> (MockClient, CapabilityMatrix) {
    runtime_context_with_reporting(transcode_offset, false)
}

fn runtime_context_with_reporting(
    transcode_offset: bool,
    playback_report: bool,
) -> (MockClient, CapabilityMatrix) {
    let mut capability_matrix = CapabilityMatrix::empty();
    capability_matrix.transcode_offset = transcode_offset;
    capability_matrix.playback_report = playback_report;
    (MockClient, capability_matrix)
}

fn mock_playback_capabilities(gapless_playback: bool) -> PlaybackCapabilities {
    mock_playback_capabilities_with_codecs(
        gapless_playback,
        vec![PlaybackTranscodingCodec::Mp3],
    )
}

fn mock_playback_capabilities_with_codecs(
    gapless_playback: bool,
    transcoding_codecs: Vec<PlaybackTranscodingCodec>,
) -> PlaybackCapabilities {
    PlaybackCapabilities {
        gapless_playback,
        transcoding_codecs,
    }
}

fn controller_with_mock_backend(
    fail_first_load: bool,
) -> (
    PlaybackController,
    Arc<Mutex<MockBackendState>>,
    Arc<Mutex<MockReporterState>>,
) {
    controller_with_mock_backend_config(fail_first_load, false, false)
}

fn controller_with_mock_backend_config(
    fail_first_load: bool,
    always_fail_load: bool,
    fail_seek: bool,
) -> (
    PlaybackController,
    Arc<Mutex<MockBackendState>>,
    Arc<Mutex<MockReporterState>>,
) {
    controller_with_mock_backend_full_config(
        fail_first_load,
        always_fail_load,
        false,
        fail_seek,
    )
}

fn controller_with_mock_backend_full_config(
    fail_first_load: bool,
    always_fail_load: bool,
    fail_standard_load: bool,
    fail_seek: bool,
) -> (
    PlaybackController,
    Arc<Mutex<MockBackendState>>,
    Arc<Mutex<MockReporterState>>,
) {
    let state = Arc::new(Mutex::new(MockBackendState {
        fail_first_load,
        always_fail_load,
        fail_standard_load,
        seek_behavior: if fail_seek {
            MockSeekBehavior::Fail
        } else {
            MockSeekBehavior::Apply
        },
        ..MockBackendState::default()
    }));
    let reporter_state = Arc::new(Mutex::new(MockReporterState::default()));
    let backend = Box::new(MockBackend {
        state: state.clone(),
        playback_capabilities: mock_playback_capabilities(true),
        estimate_stream_content_length: true,
        native_events: None,
    });
    let reporter: Box<dyn PlaybackReporter> = Box::new(MockReporter {
        state: reporter_state.clone(),
    });
    let server_reporter: Box<dyn PlaybackServerReporter> = Box::new(NoopPlaybackServerReporter);
    let queue_sync: Box<dyn QueueSyncGateway> = Box::new(NoopQueueSyncGateway);
    let mut controller = PlaybackController::new(
        backend,
        reporter,
        server_reporter,
        queue_sync,
        Box::new(NoopNativePlaybackEventSource),
        Box::new(NoopPlaybackStatePersister),
        false,
        None,
    );
    controller.set_immediate_output_stream_recovery(true);
    (controller, state, reporter_state)
}

fn controller_with_initial_output_device(
    initial_output_device_id: Option<String>,
    fail_output_device: bool,
) -> (
    PlaybackController,
    Arc<Mutex<MockBackendState>>,
    Arc<Mutex<MockReporterState>>,
) {
    let state = Arc::new(Mutex::new(MockBackendState {
        fail_output_device,
        ..MockBackendState::default()
    }));
    let reporter_state = Arc::new(Mutex::new(MockReporterState::default()));
    let backend = Box::new(MockBackend {
        state: state.clone(),
        playback_capabilities: mock_playback_capabilities(true),
        estimate_stream_content_length: true,
        native_events: None,
    });
    let reporter: Box<dyn PlaybackReporter> = Box::new(MockReporter {
        state: reporter_state.clone(),
    });
    let server_reporter: Box<dyn PlaybackServerReporter> = Box::new(NoopPlaybackServerReporter);
    let queue_sync: Box<dyn QueueSyncGateway> = Box::new(NoopQueueSyncGateway);
    let mut controller = PlaybackController::new(
        backend,
        reporter,
        server_reporter,
        queue_sync,
        Box::new(NoopNativePlaybackEventSource),
        Box::new(NoopPlaybackStatePersister),
        false,
        initial_output_device_id,
    );
    controller.set_immediate_output_stream_recovery(true);
    (controller, state, reporter_state)
}

fn controller_with_mock_backend_and_persister(
    persister: Box<dyn PlaybackStatePersister>,
) -> (
    PlaybackController,
    Arc<Mutex<MockBackendState>>,
    Arc<Mutex<MockReporterState>>,
) {
    let state = Arc::new(Mutex::new(MockBackendState::default()));
    let reporter_state = Arc::new(Mutex::new(MockReporterState::default()));
    let backend = Box::new(MockBackend {
        state: state.clone(),
        playback_capabilities: mock_playback_capabilities(true),
        estimate_stream_content_length: true,
        native_events: None,
    });
    let reporter: Box<dyn PlaybackReporter> = Box::new(MockReporter {
        state: reporter_state.clone(),
    });
    let server_reporter: Box<dyn PlaybackServerReporter> = Box::new(NoopPlaybackServerReporter);
    let queue_sync: Box<dyn QueueSyncGateway> = Box::new(NoopQueueSyncGateway);
    let mut controller = PlaybackController::new(
        backend,
        reporter,
        server_reporter,
        queue_sync,
        Box::new(NoopNativePlaybackEventSource),
        persister,
        false,
        None,
    );
    controller.set_immediate_output_stream_recovery(true);
    (controller, state, reporter_state)
}

fn controller_with_mock_backend_and_queue_sync() -> (
    PlaybackController,
    Arc<Mutex<MockBackendState>>,
    Arc<Mutex<MockQueueSyncState>>,
) {
    let state = Arc::new(Mutex::new(MockBackendState::default()));
    let reporter_state = Arc::new(Mutex::new(MockReporterState::default()));
    let queue_sync_state = Arc::new(Mutex::new(MockQueueSyncState::default()));
    let backend = Box::new(MockBackend {
        state: state.clone(),
        playback_capabilities: mock_playback_capabilities(true),
        estimate_stream_content_length: true,
        native_events: None,
    });
    let reporter: Box<dyn PlaybackReporter> = Box::new(MockReporter {
        state: reporter_state,
    });
    let server_reporter: Box<dyn PlaybackServerReporter> = Box::new(NoopPlaybackServerReporter);
    let queue_sync: Box<dyn QueueSyncGateway> = Box::new(MockQueueSync {
        state: queue_sync_state.clone(),
    });
    let mut controller = PlaybackController::new(
        backend,
        reporter,
        server_reporter,
        queue_sync,
        Box::new(NoopNativePlaybackEventSource),
        Box::new(NoopPlaybackStatePersister),
        false,
        None,
    );
    controller.set_immediate_output_stream_recovery(true);
    (controller, state, queue_sync_state)
}

fn controller_with_mock_backend_estimate_content_length(
    estimate_stream_content_length: bool,
) -> (
    PlaybackController,
    Arc<Mutex<MockBackendState>>,
    Arc<Mutex<MockReporterState>>,
) {
    let state = Arc::new(Mutex::new(MockBackendState::default()));
    let reporter_state = Arc::new(Mutex::new(MockReporterState::default()));
    let backend = Box::new(MockBackend {
        state: state.clone(),
        playback_capabilities: mock_playback_capabilities(true),
        estimate_stream_content_length,
        native_events: None,
    });
    let reporter: Box<dyn PlaybackReporter> = Box::new(MockReporter {
        state: reporter_state.clone(),
    });
    let server_reporter: Box<dyn PlaybackServerReporter> = Box::new(NoopPlaybackServerReporter);
    let queue_sync: Box<dyn QueueSyncGateway> = Box::new(NoopQueueSyncGateway);
    let mut controller = PlaybackController::new(
        backend,
        reporter,
        server_reporter,
        queue_sync,
        Box::new(NoopNativePlaybackEventSource),
        Box::new(NoopPlaybackStatePersister),
        false,
        None,
    );
    controller.set_immediate_output_stream_recovery(true);
    (controller, state, reporter_state)
}

fn controller_with_mock_backend_and_native_events(
    fail_first_load: bool,
) -> (
    PlaybackController,
    Arc<Mutex<MockBackendState>>,
    Arc<Mutex<MockReporterState>>,
    Arc<Mutex<Vec<PlaybackNativeEvent>>>,
) {
    let state = Arc::new(Mutex::new(MockBackendState {
        fail_first_load,
        ..MockBackendState::default()
    }));
    let reporter_state = Arc::new(Mutex::new(MockReporterState::default()));
    let native_events = Arc::new(Mutex::new(Vec::new()));
    let backend = Box::new(MockBackend {
        state: state.clone(),
        playback_capabilities: mock_playback_capabilities(true),
        estimate_stream_content_length: true,
        native_events: Some(native_events.clone()),
    });
    let reporter: Box<dyn PlaybackReporter> = Box::new(MockReporter {
        state: reporter_state.clone(),
    });
    let server_reporter: Box<dyn PlaybackServerReporter> = Box::new(NoopPlaybackServerReporter);
    let queue_sync: Box<dyn QueueSyncGateway> = Box::new(NoopQueueSyncGateway);
    let mut controller = PlaybackController::new(
        backend,
        reporter,
        server_reporter,
        queue_sync,
        Box::new(MockNativeEventSource {
            events: native_events.clone(),
        }),
        Box::new(NoopPlaybackStatePersister),
        false,
        None,
    );
    controller.set_immediate_output_stream_recovery(true);
    (controller, state, reporter_state, native_events)
}

fn controller_with_mock_backend_seek_behavior(
    seek_behavior: MockSeekBehavior,
) -> (
    PlaybackController,
    Arc<Mutex<MockBackendState>>,
    Arc<Mutex<MockReporterState>>,
) {
    let (controller, state, reporter_state) =
        controller_with_mock_backend_full_config(false, false, false, false);
    state.lock().unwrap().seek_behavior = seek_behavior;
    (controller, state, reporter_state)
}

fn controller_with_mock_backend_capabilities(
    gapless_playback: bool,
) -> (
    PlaybackController,
    Arc<Mutex<MockBackendState>>,
    Arc<Mutex<MockReporterState>>,
) {
    controller_with_mock_backend_playback_capabilities(mock_playback_capabilities(
        gapless_playback,
    ))
}

fn controller_with_mock_backend_playback_capabilities(
    playback_capabilities: PlaybackCapabilities,
) -> (
    PlaybackController,
    Arc<Mutex<MockBackendState>>,
    Arc<Mutex<MockReporterState>>,
) {
    let state = Arc::new(Mutex::new(MockBackendState::default()));
    let reporter_state = Arc::new(Mutex::new(MockReporterState::default()));
    let backend = Box::new(MockBackend {
        state: state.clone(),
        playback_capabilities,
        estimate_stream_content_length: true,
        native_events: None,
    });
    let reporter: Box<dyn PlaybackReporter> = Box::new(MockReporter {
        state: reporter_state.clone(),
    });
    let server_reporter: Box<dyn PlaybackServerReporter> = Box::new(NoopPlaybackServerReporter);
    let queue_sync: Box<dyn QueueSyncGateway> = Box::new(NoopQueueSyncGateway);
    let mut controller = PlaybackController::new(
        backend,
        reporter,
        server_reporter,
        queue_sync,
        Box::new(NoopNativePlaybackEventSource),
        Box::new(NoopPlaybackStatePersister),
        false,
        None,
    );
    controller.set_immediate_output_stream_recovery(true);
    (controller, state, reporter_state)
}

fn controller_with_mock_backend_and_server_reporter(
    playback_report: bool,
) -> (
    PlaybackController,
    Arc<Mutex<MockBackendState>>,
    Arc<Mutex<MockServerReporterState>>,
) {
    let state = Arc::new(Mutex::new(MockBackendState::default()));
    let reporter_state = Arc::new(Mutex::new(MockReporterState::default()));
    let server_reporter_state = Arc::new(Mutex::new(MockServerReporterState::default()));
    let backend = Box::new(MockBackend {
        state: state.clone(),
        playback_capabilities: mock_playback_capabilities(true),
        estimate_stream_content_length: true,
        native_events: None,
    });
    let reporter: Box<dyn PlaybackReporter> = Box::new(MockReporter {
        state: reporter_state,
    });
    let server_reporter: Box<dyn PlaybackServerReporter> = Box::new(MockServerReporter {
        state: server_reporter_state.clone(),
    });
    let queue_sync: Box<dyn QueueSyncGateway> = Box::new(NoopQueueSyncGateway);
    let mut controller = PlaybackController::new(
        backend,
        reporter,
        server_reporter,
        queue_sync,
        Box::new(NoopNativePlaybackEventSource),
        Box::new(NoopPlaybackStatePersister),
        false,
        None,
    );
    controller.set_immediate_output_stream_recovery(true);
    if playback_report {
        controller.set_active_profile_id(Some("profile-1".to_string()));
    }
    (controller, state, server_reporter_state)
}

fn queue_entries(song_ids: &[&str]) -> Vec<SongResponse> {
    song_ids
        .iter()
        .map(|song_id| SongResponse {
            id: (*song_id).to_string(),
            parent_id: None,
            path: None,
            title: (*song_id).to_string(),
            album: None,
            album_id: None,
            artist: None,
            artist_id: None,
            cover_art_id: None,
            display_cover_art_id: None,
            track: None,
            disc_number: None,
            year: None,
            duration: None,
            size: None,
            content_type: None,
            suffix: None,
            bit_rate: None,
            genre: None,
            created: None,
            starred: None,
            is_directory: false,
            media_type: None,
        })
        .collect()
}

#[test]
fn playback_load_does_not_resolve_cover_art_on_critical_path() {
    let (mut controller, backend_state, _) = controller_with_mock_backend(false);
    let mut queue = queue_entries(&["song-a"]);
    queue[0].cover_art_id = Some("cover-1".to_string());
    controller.set_queue(queue, Some(0)).unwrap();

    let client = MockClient;
    let capability_matrix = CapabilityMatrix::empty();
    let runtime_context = PlaybackRuntimeContext {
        client: &client,
        capability_matrix: &capability_matrix,
        profile_id: Some("profile-1"),
    };

    let status = controller.play(&runtime_context).unwrap();

    assert_eq!(status.playing_state, PlayingState::Playing);
    assert_eq!(backend_state.lock().unwrap().load_artwork_paths, vec![None]);
}

#[test]
fn current_artwork_update_target_prefers_display_cover_art_id() {
    let (mut controller, _, _) = controller_with_mock_backend(false);
    let mut queue = queue_entries(&["song-a"]);
    queue[0].cover_art_id = Some("song-cover".to_string());
    queue[0].display_cover_art_id = Some(" album-cover ".to_string());
    controller.set_queue(queue, Some(0)).unwrap();

    let target = controller.current_artwork_update_target().unwrap();

    assert_eq!(target.queue_index, 0);
    assert_eq!(target.song_id, "song-a");
    assert_eq!(target.cover_art_id, "album-cover");
}

#[test]
fn update_artwork_if_current_updates_backend_for_current_target() {
    let (mut controller, backend_state, _) = controller_with_mock_backend(false);
    let mut queue = queue_entries(&["song-a"]);
    queue[0].cover_art_id = Some("cover-1".to_string());
    controller.set_queue(queue, Some(0)).unwrap();
    let target = controller.current_artwork_update_target().unwrap();

    let updated = controller
        .update_artwork_if_current(&target, "cache/cover.png".to_string())
        .unwrap();

    assert!(updated);
    assert_eq!(
        backend_state.lock().unwrap().artwork_update_calls,
        vec![("song-a".to_string(), Some("cache/cover.png".to_string()))]
    );
}

#[test]
fn update_artwork_if_current_ignores_stale_target() {
    let (mut controller, backend_state, _) = controller_with_mock_backend(false);
    let mut queue = queue_entries(&["song-a", "song-b"]);
    queue[0].cover_art_id = Some("cover-a".to_string());
    queue[1].cover_art_id = Some("cover-b".to_string());
    controller.set_queue(queue.clone(), Some(0)).unwrap();
    let stale_target = controller.current_artwork_update_target().unwrap();
    controller.set_queue(queue, Some(1)).unwrap();

    let updated = controller
        .update_artwork_if_current(&stale_target, "cache/cover-a.png".to_string())
        .unwrap();

    assert!(!updated);
    assert!(backend_state
        .lock()
        .unwrap()
        .artwork_update_calls
        .is_empty());
}

#[test]
fn set_queue_rejects_out_of_range_current_index() {
    let (mut controller, _, _) = controller_with_mock_backend(false);

    let result = controller.set_queue(queue_entries(&["song-a"]), Some(1));

    assert!(result.is_err());
}

#[test]
fn duplicate_song_ids_are_distinguished_by_index() {
    let (mut controller, _, _) = controller_with_mock_backend(false);
    let status = controller
        .set_queue(queue_entries(&["song-a", "song-a", "song-b"]), Some(1))
        .unwrap();

    assert_eq!(status.current_index, Some(1));
    assert_eq!(status.current_song_id.as_deref(), Some("song-a"));
}

#[test]
fn next_prev_enforce_queue_boundaries() {
    let (mut controller, _, _) = controller_with_mock_backend(false);
    let (client, capability_matrix) = runtime_context(true);
    let runtime_context = PlaybackRuntimeContext {
        client: &client,
        capability_matrix: &capability_matrix,
        profile_id: None,
    };
    controller
        .set_queue(queue_entries(&["song-a", "song-b"]), Some(0))
        .unwrap();

    // `prev` at the first entry no longer errors; it restarts the current track from the
    // beginning (there is no previous track to move to).
    let prev_result = controller.prev(&runtime_context).unwrap();
    assert_eq!(prev_result.current_index, Some(0));
    assert_eq!(prev_result.current_position_ms, 0);

    controller.next(&runtime_context).unwrap();
    let next_result = controller.next(&runtime_context);
    assert!(next_result.is_err());
}

#[test]
fn prev_restarts_current_track_past_threshold_and_steps_back_near_head() {
    let (mut controller, backend_state, _) = controller_with_mock_backend(false);
    let (client, capability_matrix) = runtime_context(true);
    let runtime_context = PlaybackRuntimeContext {
        client: &client,
        capability_matrix: &capability_matrix,
        profile_id: None,
    };
    controller
        .set_queue(queue_entries(&["song-a", "song-b"]), Some(0))
        .unwrap();
    controller.play(&runtime_context).unwrap();
    controller.next(&runtime_context).unwrap();
    assert_eq!(controller.state().current_index, Some(1));

    // Past the threshold: `prev` restarts the current track (index unchanged, seek to 0).
    backend_state.lock().unwrap().current_position_ms = PREV_RESTART_THRESHOLD_MS + 2_000;
    let restarted = controller.prev(&runtime_context).unwrap();
    assert_eq!(restarted.current_index, Some(1));
    assert_eq!(restarted.pending_seek_position_ms, Some(0));

    // Near the head: `prev` steps back to the previous track.
    backend_state.lock().unwrap().current_position_ms = PREV_RESTART_THRESHOLD_MS - 2_000;
    let stepped = controller.prev(&runtime_context).unwrap();
    assert_eq!(stepped.current_index, Some(0));
}

#[test]
fn play_pause_seek_stop_follow_consistent_state_transitions() {
    let (mut controller, _, _) = controller_with_mock_backend(false);
    let (client, capability_matrix) = runtime_context(true);
    let runtime_context = PlaybackRuntimeContext {
        client: &client,
        capability_matrix: &capability_matrix,
        profile_id: None,
    };
    controller
        .set_queue(queue_entries(&["song-a"]), Some(0))
        .unwrap();

    assert_eq!(
        controller.play(&runtime_context).unwrap().playing_state,
        PlayingState::Playing
    );
    assert_eq!(
        controller.pause().unwrap().playing_state,
        PlayingState::Paused
    );
    let seeked = controller.seek(&runtime_context, 8_000).unwrap();
    assert_eq!(seeked.playing_state, PlayingState::Paused);
    assert_eq!(seeked.pending_seek_position_ms, Some(8_000));
    assert_eq!(
        controller.stop().unwrap().playing_state,
        PlayingState::Stopped
    );
}

#[test]
fn server_reporting_uses_explicit_playback_transition_points() {
    let (mut controller, backend_state, server_reporter_state) =
        controller_with_mock_backend_and_server_reporter(true);
    let (client, capability_matrix) = runtime_context_with_reporting(true, true);
    let runtime_context = PlaybackRuntimeContext {
        client: &client,
        capability_matrix: &capability_matrix,
        profile_id: Some("profile-1"),
    };
    controller
        .set_queue(queue_entries(&["song-a"]), Some(0))
        .unwrap();

    controller.play(&runtime_context).unwrap();
    backend_state.lock().unwrap().current_position_ms = 2_500;
    controller
        .pause_with_context(Some(&runtime_context))
        .unwrap();
    controller.seek(&runtime_context, 8_000).unwrap();
    controller
        .stop_with_context(Some(&runtime_context))
        .unwrap();

    let events = server_reporter_state
        .lock()
        .unwrap()
        .reported_events
        .clone();
    assert_eq!(
        events,
        vec![
            MockServerReportEvent {
                profile_id: "profile-1".to_string(),
                song_id: "song-a".to_string(),
                position_ms: 0,
                state: ServerPlaybackState::Starting,
            },
            MockServerReportEvent {
                profile_id: "profile-1".to_string(),
                song_id: "song-a".to_string(),
                position_ms: 0,
                state: ServerPlaybackState::Playing,
            },
            MockServerReportEvent {
                profile_id: "profile-1".to_string(),
                song_id: "song-a".to_string(),
                position_ms: 2_500,
                state: ServerPlaybackState::Paused,
            },
            MockServerReportEvent {
                profile_id: "profile-1".to_string(),
                song_id: "song-a".to_string(),
                position_ms: 8_000,
                state: ServerPlaybackState::Paused,
            },
            MockServerReportEvent {
                profile_id: "profile-1".to_string(),
                song_id: "song-a".to_string(),
                position_ms: 8_000,
                state: ServerPlaybackState::Stopped,
            },
        ]
    );
}

#[test]
fn server_reporting_stops_previous_track_before_manual_next() {
    let (mut controller, backend_state, server_reporter_state) =
        controller_with_mock_backend_and_server_reporter(true);
    let (client, capability_matrix) = runtime_context_with_reporting(true, true);
    let runtime_context = PlaybackRuntimeContext {
        client: &client,
        capability_matrix: &capability_matrix,
        profile_id: Some("profile-1"),
    };
    controller
        .set_queue(queue_entries(&["song-a", "song-b"]), Some(0))
        .unwrap();

    controller.play(&runtime_context).unwrap();
    backend_state.lock().unwrap().current_position_ms = 120_000;
    controller.next(&runtime_context).unwrap();

    let events = server_reporter_state
        .lock()
        .unwrap()
        .reported_events
        .clone();
    assert_eq!(
        events,
        vec![
            MockServerReportEvent {
                profile_id: "profile-1".to_string(),
                song_id: "song-a".to_string(),
                position_ms: 0,
                state: ServerPlaybackState::Starting,
            },
            MockServerReportEvent {
                profile_id: "profile-1".to_string(),
                song_id: "song-a".to_string(),
                position_ms: 0,
                state: ServerPlaybackState::Playing,
            },
            MockServerReportEvent {
                profile_id: "profile-1".to_string(),
                song_id: "song-a".to_string(),
                position_ms: 120_000,
                state: ServerPlaybackState::Stopped,
            },
            MockServerReportEvent {
                profile_id: "profile-1".to_string(),
                song_id: "song-b".to_string(),
                position_ms: 0,
                state: ServerPlaybackState::Starting,
            },
            MockServerReportEvent {
                profile_id: "profile-1".to_string(),
                song_id: "song-b".to_string(),
                position_ms: 0,
                state: ServerPlaybackState::Playing,
            },
        ]
    );
}

#[test]
fn server_reporting_stops_previous_track_before_auto_advance() {
    let (mut controller, _, server_reporter_state) =
        controller_with_mock_backend_and_server_reporter(true);
    let (client, capability_matrix) = runtime_context_with_reporting(true, true);
    let runtime_context = PlaybackRuntimeContext {
        client: &client,
        capability_matrix: &capability_matrix,
        profile_id: Some("profile-1"),
    };
    controller
        .set_queue(queue_entries(&["song-a", "song-b"]), Some(0))
        .unwrap();

    controller.play(&runtime_context).unwrap();
    controller
        .handle_track_ended(Some(&runtime_context))
        .unwrap();

    let events = server_reporter_state
        .lock()
        .unwrap()
        .reported_events
        .clone();
    assert_eq!(
        events,
        vec![
            MockServerReportEvent {
                profile_id: "profile-1".to_string(),
                song_id: "song-a".to_string(),
                position_ms: 0,
                state: ServerPlaybackState::Starting,
            },
            MockServerReportEvent {
                profile_id: "profile-1".to_string(),
                song_id: "song-a".to_string(),
                position_ms: 0,
                state: ServerPlaybackState::Playing,
            },
            MockServerReportEvent {
                profile_id: "profile-1".to_string(),
                song_id: "song-a".to_string(),
                position_ms: 0,
                state: ServerPlaybackState::Stopped,
            },
            MockServerReportEvent {
                profile_id: "profile-1".to_string(),
                song_id: "song-b".to_string(),
                position_ms: 0,
                state: ServerPlaybackState::Starting,
            },
            MockServerReportEvent {
                profile_id: "profile-1".to_string(),
                song_id: "song-b".to_string(),
                position_ms: 0,
                state: ServerPlaybackState::Playing,
            },
        ]
    );
}

#[test]
fn play_from_paused_resumes_without_reloading() {
    let (mut controller, backend_state, _) = controller_with_mock_backend(false);
    let (client, capability_matrix) = runtime_context(false);
    let context = PlaybackRuntimeContext {
        client: &client,
        capability_matrix: &capability_matrix,
        profile_id: None,
    };
    controller
        .set_queue(queue_entries(&["a", "b"]), Some(0))
        .unwrap();
    controller.play(&context).unwrap();
    controller.pause().unwrap();

    // Resume from paused — should NOT trigger a new load.
    let load_count_before = backend_state.lock().unwrap().load_calls.len();
    controller.play(&context).unwrap();
    let state = backend_state.lock().unwrap();
    assert_eq!(state.load_calls.len(), load_count_before);
    assert_eq!(state.resume_calls, 1);
    drop(state);

    assert_eq!(controller.state().playing_state, PlayingState::Playing);
}

#[test]
fn synced_state_reads_backend_current_position() {
    let (mut controller, backend_state, _) = controller_with_mock_backend(false);
    let (client, capability_matrix) = runtime_context(true);
    let runtime_context = PlaybackRuntimeContext {
        client: &client,
        capability_matrix: &capability_matrix,
        profile_id: None,
    };
    controller
        .set_queue(queue_entries(&["song-a"]), Some(0))
        .unwrap();
    controller.play(&runtime_context).unwrap();

    backend_state.lock().unwrap().current_position_ms = 12_345;

    let synced = controller.synced_state().unwrap();
    assert_eq!(synced.current_position_ms, 12_345);
    assert_eq!(backend_state.lock().unwrap().current_position_calls, 1);
}

#[test]
fn pause_captures_backend_position_before_transition() {
    let (mut controller, backend_state, _) = controller_with_mock_backend(false);
    let (client, capability_matrix) = runtime_context(true);
    let runtime_context = PlaybackRuntimeContext {
        client: &client,
        capability_matrix: &capability_matrix,
        profile_id: None,
    };
    controller
        .set_queue(queue_entries(&["song-a"]), Some(0))
        .unwrap();
    controller.play(&runtime_context).unwrap();
    backend_state.lock().unwrap().current_position_ms = 2_500;

    let paused = controller.pause().unwrap();
    assert_eq!(paused.playing_state, PlayingState::Paused);
    assert_eq!(paused.current_position_ms, 2_500);
    assert!(paused.actual_stream_info.is_none());
    backend_state.lock().unwrap().current_stream_info =
        Some(mock_actual_stream_info("song-a-resumed"));

    let resumed = controller.play(&runtime_context).unwrap();
    assert_eq!(resumed.playing_state, PlayingState::Playing);
    assert_eq!(
        resumed
            .actual_stream_info
            .as_ref()
            .and_then(|info| info.codec.as_deref()),
        Some("song-a-resumed")
    );
}

#[test]
fn stop_and_state_sync_clear_actual_stream_info_for_current_track() {
    let (mut controller, _, _) = controller_with_mock_backend(false);
    let (client, capability_matrix) = runtime_context(true);
    let runtime_context = PlaybackRuntimeContext {
        client: &client,
        capability_matrix: &capability_matrix,
        profile_id: None,
    };
    controller
        .set_queue(queue_entries(&["song-a"]), Some(0))
        .unwrap();
    controller.play(&runtime_context).unwrap();

    let stopped = controller.stop().unwrap();
    assert_eq!(stopped.playing_state, PlayingState::Stopped);
    assert!(stopped.actual_stream_info.is_none());

    let synced = controller.synced_state().unwrap();
    assert_eq!(synced.playing_state, PlayingState::Stopped);
    assert!(synced.actual_stream_info.is_none());
}

#[test]
fn on_track_finished_does_not_auto_advance_index() {
    let (mut controller, _, _) = controller_with_mock_backend(false);
    let (client, capability_matrix) = runtime_context(true);
    let runtime_context = PlaybackRuntimeContext {
        client: &client,
        capability_matrix: &capability_matrix,
        profile_id: None,
    };
    controller
        .set_queue(queue_entries(&["song-a", "song-b"]), Some(0))
        .unwrap();
    controller.play(&runtime_context).unwrap();

    let status = controller.on_track_finished();
    assert_eq!(status.playing_state, PlayingState::Stopped);
    assert_eq!(status.current_index, Some(0));
}

#[test]
fn native_paused_event_is_applied_before_synced_state_returns() {
    let (mut controller, backend_state, _, native_events) =
        controller_with_mock_backend_and_native_events(false);
    let (client, capability_matrix) = runtime_context(true);
    let runtime_context = PlaybackRuntimeContext {
        client: &client,
        capability_matrix: &capability_matrix,
        profile_id: None,
    };
    controller
        .set_queue(queue_entries(&["song-a"]), Some(0))
        .unwrap();
    controller.play(&runtime_context).unwrap();
    backend_state.lock().unwrap().current_position_ms = 4_321;
    native_events
        .lock()
        .unwrap()
        .push(PlaybackNativeEvent::Paused { position_ms: 4_321 });

    let synced = controller.synced_state().unwrap();

    assert_eq!(synced.playing_state, PlayingState::Paused);
    assert_eq!(synced.current_position_ms, 4_321);
}

#[test]
fn ended_native_event_auto_advances_to_next_track() {
    let (mut controller, backend_state, _, native_events) =
        controller_with_mock_backend_and_native_events(false);
    let (client, capability_matrix) = runtime_context(true);
    let runtime_context = PlaybackRuntimeContext {
        client: &client,
        capability_matrix: &capability_matrix,
        profile_id: None,
    };
    controller
        .set_queue(queue_entries(&["song-a", "song-b"]), Some(0))
        .unwrap();
    controller.play(&runtime_context).unwrap();
    native_events
        .lock()
        .unwrap()
        .push(PlaybackNativeEvent::Ended);

    controller
        .process_native_events(Some(&runtime_context))
        .unwrap();

    let status = controller.state();
    assert_eq!(status.playing_state, PlayingState::Playing);
    assert_eq!(status.current_index, Some(1));
    assert_eq!(status.current_song_id.as_deref(), Some("song-b"));
    assert_eq!(backend_state.lock().unwrap().load_calls.len(), 2);
}

#[test]
fn enabling_gapless_prepares_next_track() {
    let (mut controller, backend_state, _) = controller_with_mock_backend(false);
    let (client, capability_matrix) = runtime_context(true);
    let runtime_context = PlaybackRuntimeContext {
        client: &client,
        capability_matrix: &capability_matrix,
        profile_id: None,
    };
    controller
        .set_queue(queue_entries(&["song-a", "song-b"]), Some(0))
        .unwrap();
    controller.play(&runtime_context).unwrap();

    controller
        .set_gapless_playback_enabled(true, Some(&runtime_context))
        .unwrap();

    let status = controller.state();
    let backend_state = backend_state.lock().unwrap();
    assert_eq!(backend_state.prepare_calls.len(), 1);
    assert!(backend_state.prepare_calls[0].contains("song-b"));
    assert!(matches!(
        status.gapless_status.state,
        GaplessState::Preparing
    ));
}

#[test]
fn stream_setting_change_skips_backend_clear_without_prepared_gapless_track() {
    let (mut controller, backend_state, _) = controller_with_mock_backend(false);

    controller
        .set_stream_settings(
            PlaybackStreamMode::Transcoding,
            192,
            PlaybackTranscodingCodec::Mp3,
            None,
        )
        .unwrap();

    assert_eq!(backend_state.lock().unwrap().clear_prepared_calls, 0);
}

#[test]
fn stream_setting_change_clears_existing_prepared_gapless_track() {
    let (mut controller, backend_state, _) = controller_with_mock_backend(false);
    let (client, capability_matrix) = runtime_context(true);
    let runtime_context = PlaybackRuntimeContext {
        client: &client,
        capability_matrix: &capability_matrix,
        profile_id: None,
    };
    controller
        .set_queue(queue_entries(&["song-a", "song-b"]), Some(0))
        .unwrap();
    controller.play(&runtime_context).unwrap();
    controller
        .set_gapless_playback_enabled(true, Some(&runtime_context))
        .unwrap();

    controller
        .set_stream_settings(
            PlaybackStreamMode::Transcoding,
            192,
            PlaybackTranscodingCodec::Mp3,
            Some(&runtime_context),
        )
        .unwrap();

    let backend_state = backend_state.lock().unwrap();
    assert_eq!(backend_state.clear_prepared_calls, 1);
    assert_eq!(backend_state.prepare_calls.len(), 2);
}

#[test]
fn manual_next_uses_prepared_gapless_track_when_ready() {
    let (mut controller, backend_state, _, native_events) =
        controller_with_mock_backend_and_native_events(false);
    let (client, capability_matrix) = runtime_context(true);
    let runtime_context = PlaybackRuntimeContext {
        client: &client,
        capability_matrix: &capability_matrix,
        profile_id: None,
    };
    controller
        .set_queue(queue_entries(&["song-a", "song-b"]), Some(0))
        .unwrap();
    controller.play(&runtime_context).unwrap();
    controller
        .set_gapless_playback_enabled(true, Some(&runtime_context))
        .unwrap();
    native_events
        .lock()
        .unwrap()
        .push(PlaybackNativeEvent::GaplessPrepared { generation: 1 });
    controller
        .process_native_events(Some(&runtime_context))
        .unwrap();

    controller.next(&runtime_context).unwrap();

    let backend_state = backend_state.lock().unwrap();
    assert_eq!(backend_state.load_calls.len(), 1);
    assert_eq!(backend_state.activate_prepared_calls, 1);
    assert_eq!(controller.state().current_index, Some(1));
    assert_eq!(
        controller.state().current_song_id.as_deref(),
        Some("song-b")
    );
}

#[test]
fn manual_next_uses_prepared_gapless_track_before_ready_event_arrives() {
    let (mut controller, backend_state, _) = controller_with_mock_backend(false);
    let (client, capability_matrix) = runtime_context(true);
    let runtime_context = PlaybackRuntimeContext {
        client: &client,
        capability_matrix: &capability_matrix,
        profile_id: None,
    };
    controller
        .set_queue(queue_entries(&["song-a", "song-b"]), Some(0))
        .unwrap();
    controller.play(&runtime_context).unwrap();
    controller
        .set_gapless_playback_enabled(true, Some(&runtime_context))
        .unwrap();

    controller.next(&runtime_context).unwrap();

    let backend_state = backend_state.lock().unwrap();
    assert_eq!(backend_state.load_calls.len(), 1);
    assert_eq!(backend_state.activate_prepared_calls, 1);
    assert_eq!(controller.state().current_index, Some(1));
    assert_eq!(
        controller.state().current_song_id.as_deref(),
        Some("song-b")
    );
}

#[test]
fn ended_native_event_uses_prepared_gapless_track_when_ready() {
    let (mut controller, backend_state, _, native_events) =
        controller_with_mock_backend_and_native_events(false);
    let (client, capability_matrix) = runtime_context(true);
    let runtime_context = PlaybackRuntimeContext {
        client: &client,
        capability_matrix: &capability_matrix,
        profile_id: None,
    };
    controller
        .set_queue(queue_entries(&["song-a", "song-b"]), Some(0))
        .unwrap();
    controller.play(&runtime_context).unwrap();
    controller
        .set_gapless_playback_enabled(true, Some(&runtime_context))
        .unwrap();
    native_events
        .lock()
        .unwrap()
        .push(PlaybackNativeEvent::GaplessPrepared { generation: 1 });
    controller
        .process_native_events(Some(&runtime_context))
        .unwrap();
    native_events
        .lock()
        .unwrap()
        .push(PlaybackNativeEvent::Ended);

    controller
        .process_native_events(Some(&runtime_context))
        .unwrap();

    let backend_state = backend_state.lock().unwrap();
    assert_eq!(backend_state.load_calls.len(), 1);
    assert_eq!(backend_state.activate_prepared_calls, 1);
    let status = controller.state();
    assert_eq!(status.playing_state, PlayingState::Playing);
    assert_eq!(status.current_index, Some(1));
    assert_eq!(status.current_song_id.as_deref(), Some("song-b"));
}

#[test]
fn gapless_transition_native_event_advances_without_backend_activation() {
    let (mut controller, backend_state, _, native_events) =
        controller_with_mock_backend_and_native_events(false);
    let (client, capability_matrix) = runtime_context(true);
    let runtime_context = PlaybackRuntimeContext {
        client: &client,
        capability_matrix: &capability_matrix,
        profile_id: None,
    };
    controller
        .set_queue(queue_entries(&["song-a", "song-b", "song-c"]), Some(0))
        .unwrap();
    controller.play(&runtime_context).unwrap();
    controller
        .set_gapless_playback_enabled(true, Some(&runtime_context))
        .unwrap();
    native_events
        .lock()
        .unwrap()
        .push(PlaybackNativeEvent::GaplessPrepared { generation: 1 });
    controller
        .process_native_events(Some(&runtime_context))
        .unwrap();
    backend_state.lock().unwrap().current_stream_info = None;
    native_events
        .lock()
        .unwrap()
        .push(PlaybackNativeEvent::GaplessTransition);

    controller
        .process_native_events(Some(&runtime_context))
        .unwrap();

    {
        let backend_state = backend_state.lock().unwrap();
        assert_eq!(backend_state.load_calls.len(), 1);
        assert_eq!(backend_state.activate_prepared_calls, 0);
        assert_eq!(backend_state.prepare_calls.len(), 2);
    }

    let status = controller.state();
    assert_eq!(status.playing_state, PlayingState::Playing);
    assert_eq!(status.current_index, Some(1));
    assert_eq!(status.current_song_id.as_deref(), Some("song-b"));
    assert_eq!(
        status
            .active_stream_info
            .as_ref()
            .map(|info| (info.song_id.as_str(), &info.request_kind)),
        Some(("song-b", &PlaybackStreamRequestKind::ActivatePrepared))
    );
    assert_eq!(
        status
            .actual_stream_info
            .as_ref()
            .and_then(|info| info.codec.as_deref()),
        Some("song-a")
    );
    backend_state.lock().unwrap().current_stream_info = Some(mock_actual_stream_info("song-b"));
    native_events
        .lock()
        .unwrap()
        .push(PlaybackNativeEvent::Playing { position_ms: 0 });
    controller
        .process_native_events(Some(&runtime_context))
        .unwrap();

    let status = controller.state();
    assert_eq!(
        status
            .actual_stream_info
            .as_ref()
            .and_then(|info| info.codec.as_deref()),
        Some("song-b")
    );
    assert!(matches!(
        status.gapless_status.state,
        GaplessState::Preparing
    ));
}

#[test]
fn gapless_transition_native_event_advances_without_ready_signal() {
    let (mut controller, backend_state, _, native_events) =
        controller_with_mock_backend_and_native_events(false);
    let (client, capability_matrix) = runtime_context(true);
    let runtime_context = PlaybackRuntimeContext {
        client: &client,
        capability_matrix: &capability_matrix,
        profile_id: None,
    };
    controller
        .set_queue(queue_entries(&["song-a", "song-b", "song-c"]), Some(0))
        .unwrap();
    controller.play(&runtime_context).unwrap();
    controller
        .set_gapless_playback_enabled(true, Some(&runtime_context))
        .unwrap();
    native_events
        .lock()
        .unwrap()
        .push(PlaybackNativeEvent::GaplessTransition);

    controller
        .process_native_events(Some(&runtime_context))
        .unwrap();

    let backend_state = backend_state.lock().unwrap();
    assert_eq!(backend_state.load_calls.len(), 1);
    assert_eq!(backend_state.activate_prepared_calls, 0);
    assert_eq!(backend_state.prepare_calls.len(), 2);

    let status = controller.state();
    assert_eq!(status.playing_state, PlayingState::Playing);
    assert_eq!(status.current_index, Some(1));
    assert_eq!(status.current_song_id.as_deref(), Some("song-b"));
    assert!(matches!(
        status.gapless_status.state,
        GaplessState::Preparing
    ));
}

#[test]
fn unsupported_backend_reports_gapless_unavailable_and_skips_prepare() {
    let (mut controller, backend_state, _) = controller_with_mock_backend_capabilities(false);
    let (client, capability_matrix) = runtime_context(true);
    let runtime_context = PlaybackRuntimeContext {
        client: &client,
        capability_matrix: &capability_matrix,
        profile_id: None,
    };
    controller
        .set_queue(queue_entries(&["song-a", "song-b"]), Some(0))
        .unwrap();
    controller.play(&runtime_context).unwrap();
    controller
        .set_gapless_playback_enabled(true, Some(&runtime_context))
        .unwrap();

    let status = controller.state();
    let backend_state = backend_state.lock().unwrap();
    assert_eq!(backend_state.prepare_calls.len(), 0);
    assert_eq!(status.gapless_status.state, GaplessState::Unavailable);
}

#[test]
fn ended_native_event_stops_at_end_of_queue() {
    let (mut controller, _, _, native_events) =
        controller_with_mock_backend_and_native_events(false);
    let (client, capability_matrix) = runtime_context(true);
    let runtime_context = PlaybackRuntimeContext {
        client: &client,
        capability_matrix: &capability_matrix,
        profile_id: None,
    };
    controller
        .set_queue(queue_entries(&["song-a"]), Some(0))
        .unwrap();
    controller.play(&runtime_context).unwrap();
    native_events
        .lock()
        .unwrap()
        .push(PlaybackNativeEvent::Ended);

    controller
        .process_native_events(Some(&runtime_context))
        .unwrap();

    let status = controller.state();
    assert_eq!(status.playing_state, PlayingState::Stopped);
    assert_eq!(status.current_index, Some(0));
    assert_eq!(status.current_position_ms, 0);
}

#[test]
fn raw_stream_falls_back_to_standard_stream_when_backend_rejects_raw() {
    let (mut controller, backend_state, _) = controller_with_mock_backend(true);
    let (client, capability_matrix) = runtime_context(true);
    let runtime_context = PlaybackRuntimeContext {
        client: &client,
        capability_matrix: &capability_matrix,
        profile_id: None,
    };
    let mut queue = queue_entries(&["song-a"]);
    queue[0].content_type = Some("audio/x-m4a".to_string());
    queue[0].suffix = Some("m4a".to_string());
    controller.set_queue(queue, Some(0)).unwrap();

    controller.play(&runtime_context).unwrap();

    let state = backend_state.lock().unwrap();
    assert_eq!(state.load_calls.len(), 2);
    assert!(state.load_calls[0].contains("format=raw"));
    assert!(!state.load_calls[1].contains("format=raw"));
    assert_eq!(
        state.load_source_content_types,
        vec![Some("audio/x-m4a".to_string()), None]
    );
    assert_eq!(
        state.load_source_suffixes,
        vec![Some("m4a".to_string()), None]
    );
}

#[test]
fn raw_stream_output_device_error_does_not_fall_back_to_standard_stream() {
    let (mut controller, backend_state, _) = controller_with_mock_backend(false);
    let (client, capability_matrix) = runtime_context(true);
    let runtime_context = PlaybackRuntimeContext {
        client: &client,
        capability_matrix: &capability_matrix,
        profile_id: None,
    };
    controller
        .set_queue(queue_entries(&["song-a"]), Some(0))
        .unwrap();
    backend_state.lock().unwrap().load_error = Some(
        "Audio output device error: failed to build output stream: unavailable".to_string(),
    );

    let result = controller.play(&runtime_context);
    let state = backend_state.lock().unwrap();

    assert!(result.is_err());
    let error = result.unwrap_err();
    assert!(error.contains("Audio output device error"));
    assert!(!error.contains("fallback stream failed"));
    assert_eq!(state.load_calls.len(), 1);
    assert!(state.load_calls[0].contains("format=raw"));
}

#[test]
fn transcoding_stream_uses_standard_stream_with_max_bit_rate() {
    let (mut controller, backend_state, _) = controller_with_mock_backend(false);
    let (client, capability_matrix) = runtime_context(true);
    let runtime_context = PlaybackRuntimeContext {
        client: &client,
        capability_matrix: &capability_matrix,
        profile_id: None,
    };
    controller
        .set_stream_settings(
            PlaybackStreamMode::Transcoding,
            192,
            PlaybackTranscodingCodec::Mp3,
            Some(&runtime_context),
        )
        .unwrap();
    controller
        .set_queue(queue_entries(&["song-a"]), Some(0))
        .unwrap();

    controller.play(&runtime_context).unwrap();

    let load_calls = backend_state.lock().unwrap().load_calls.clone();
    assert_eq!(load_calls.len(), 1);
    assert!(load_calls[0].contains("maxBitRate=192"));
    assert!(load_calls[0].contains("format=mp3"));
    assert!(load_calls[0].contains("estimateContentLength=true"));
    assert!(!load_calls[0].contains("format=raw"));
}

#[test]
fn supported_custom_transcoding_codec_uses_requested_stream_format() {
    let (mut controller, backend_state, _) = controller_with_mock_backend_playback_capabilities(
        mock_playback_capabilities_with_codecs(
            true,
            vec![
                PlaybackTranscodingCodec::Mp3,
                PlaybackTranscodingCodec::Opus,
            ],
        ),
    );
    let (client, capability_matrix) = runtime_context(true);
    let runtime_context = PlaybackRuntimeContext {
        client: &client,
        capability_matrix: &capability_matrix,
        profile_id: None,
    };
    controller
        .set_stream_settings(
            PlaybackStreamMode::Transcoding,
            192,
            PlaybackTranscodingCodec::Opus,
            Some(&runtime_context),
        )
        .unwrap();
    controller
        .set_queue(queue_entries(&["song-a"]), Some(0))
        .unwrap();

    controller.play(&runtime_context).unwrap();

    let load_calls = backend_state.lock().unwrap().load_calls.clone();
    assert_eq!(load_calls.len(), 1);
    assert!(load_calls[0].contains("maxBitRate=192"));
    assert!(load_calls[0].contains("format=opus"));
}

#[test]
fn unsupported_custom_transcoding_codec_falls_back_to_mp3_stream_format() {
    let (mut controller, backend_state, _) = controller_with_mock_backend(false);
    let (client, capability_matrix) = runtime_context(true);
    let runtime_context = PlaybackRuntimeContext {
        client: &client,
        capability_matrix: &capability_matrix,
        profile_id: None,
    };
    controller
        .set_stream_settings(
            PlaybackStreamMode::Transcoding,
            192,
            PlaybackTranscodingCodec::Opus,
            Some(&runtime_context),
        )
        .unwrap();
    controller
        .set_queue(queue_entries(&["song-a"]), Some(0))
        .unwrap();

    controller.play(&runtime_context).unwrap();

    let load_calls = backend_state.lock().unwrap().load_calls.clone();
    assert_eq!(load_calls.len(), 1);
    assert!(load_calls[0].contains("maxBitRate=192"));
    assert!(load_calls[0].contains("format=mp3"));
    assert!(!load_calls[0].contains("format=opus"));
}

#[test]
fn custom_auto_transcoding_codec_omits_stream_format() {
    let (mut controller, backend_state, _) = controller_with_mock_backend(false);
    let (client, capability_matrix) = runtime_context(true);
    let runtime_context = PlaybackRuntimeContext {
        client: &client,
        capability_matrix: &capability_matrix,
        profile_id: None,
    };
    controller
        .set_stream_settings(
            PlaybackStreamMode::Transcoding,
            192,
            PlaybackTranscodingCodec::Auto,
            Some(&runtime_context),
        )
        .unwrap();
    controller
        .set_queue(queue_entries(&["song-a"]), Some(0))
        .unwrap();

    controller.play(&runtime_context).unwrap();

    let load_calls = backend_state.lock().unwrap().load_calls.clone();
    assert_eq!(load_calls.len(), 1);
    assert!(load_calls[0].contains("maxBitRate=192"));
    assert!(!load_calls[0].contains("format="));
}

#[test]
fn stream_request_omits_estimated_content_length_when_backend_disables_it() {
    let (mut controller, backend_state, _) =
        controller_with_mock_backend_estimate_content_length(false);
    let (client, capability_matrix) = runtime_context(true);
    let runtime_context = PlaybackRuntimeContext {
        client: &client,
        capability_matrix: &capability_matrix,
        profile_id: None,
    };
    controller
        .set_stream_settings(
            PlaybackStreamMode::Transcoding,
            192,
            PlaybackTranscodingCodec::Mp3,
            Some(&runtime_context),
        )
        .unwrap();
    controller
        .set_queue(queue_entries(&["song-a"]), Some(0))
        .unwrap();

    controller.play(&runtime_context).unwrap();

    let load_calls = backend_state.lock().unwrap().load_calls.clone();
    assert_eq!(load_calls.len(), 1);
    assert!(load_calls[0].contains("maxBitRate=192"));
    assert!(load_calls[0].contains("format=mp3"));
    assert!(!load_calls[0].contains("estimateContentLength="));
}

#[test]
fn raw_stream_ignores_transcoding_bit_rate() {
    let (mut controller, backend_state, _) = controller_with_mock_backend(false);
    let (client, capability_matrix) = runtime_context(true);
    let runtime_context = PlaybackRuntimeContext {
        client: &client,
        capability_matrix: &capability_matrix,
        profile_id: None,
    };
    controller
        .set_stream_settings(
            PlaybackStreamMode::Raw,
            192,
            PlaybackTranscodingCodec::Opus,
            Some(&runtime_context),
        )
        .unwrap();
    controller
        .set_queue(queue_entries(&["song-a"]), Some(0))
        .unwrap();

    controller.play(&runtime_context).unwrap();

    let load_calls = backend_state.lock().unwrap().load_calls.clone();
    assert_eq!(load_calls.len(), 1);
    assert!(load_calls[0].contains("format=raw"));
    assert!(!load_calls[0].contains("maxBitRate=192"));
    assert!(!load_calls[0].contains("format=opus"));
}

#[test]
fn stream_offset_is_not_sent_when_transcode_offset_extension_is_missing() {
    let (mut controller, backend_state, _) = controller_with_mock_backend(false);
    let (client, capability_matrix) = runtime_context(false);
    let runtime_context = PlaybackRuntimeContext {
        client: &client,
        capability_matrix: &capability_matrix,
        profile_id: None,
    };
    controller
        .set_queue(queue_entries(&["song-a"]), Some(0))
        .unwrap();
    let seeked = controller.seek(&runtime_context, 5_000).unwrap();
    assert_eq!(seeked.current_position_ms, 5_000);
    controller.play(&runtime_context).unwrap();

    let backend_state = backend_state.lock().unwrap();
    let load_calls = backend_state.load_calls.clone();
    assert_eq!(load_calls.len(), 1);
    assert_eq!(backend_state.load_absolute_start_positions_ms, vec![5_000]);
    assert_eq!(backend_state.load_local_start_positions_ms, vec![5_000]);
    assert!(!load_calls[0].contains("timeOffset="));
}

#[test]
fn active_seek_uses_backend_seek_without_reloading_stream() {
    let (mut controller, backend_state, _) = controller_with_mock_backend(false);
    let (client, capability_matrix) = runtime_context(false);
    let runtime_context = PlaybackRuntimeContext {
        client: &client,
        capability_matrix: &capability_matrix,
        profile_id: None,
    };
    controller
        .set_queue(queue_entries(&["song-a"]), Some(0))
        .unwrap();
    controller.play(&runtime_context).unwrap();

    let seeked = controller.seek(&runtime_context, 5_500).unwrap();
    assert_eq!(seeked.current_position_ms, 0);
    assert_eq!(seeked.pending_seek_position_ms, Some(5_500));

    let backend_state = backend_state.lock().unwrap();
    assert_eq!(backend_state.load_calls.len(), 1);
    assert_eq!(backend_state.seek_calls_ms, vec![5_500]);
}

#[test]
fn active_seek_reloads_stream_when_backend_requires_reload_using_standard_stream() {
    let (mut controller, backend_state, _) =
        controller_with_mock_backend_seek_behavior(MockSeekBehavior::ReloadRequired);
    let (client, capability_matrix) = runtime_context(true);
    let runtime_context = PlaybackRuntimeContext {
        client: &client,
        capability_matrix: &capability_matrix,
        profile_id: None,
    };
    controller
        .set_queue(queue_entries(&["song-a"]), Some(0))
        .unwrap();
    controller.play(&runtime_context).unwrap();

    let seeked = controller.seek(&runtime_context, 5_500).unwrap();
    assert_eq!(seeked.current_position_ms, 5_500);
    assert_eq!(seeked.pending_seek_position_ms, None);

    let backend_state = backend_state.lock().unwrap();
    assert_eq!(backend_state.seek_calls_ms, vec![5_500]);
    assert_eq!(backend_state.load_calls.len(), 2);
    assert_eq!(
        backend_state.load_absolute_start_positions_ms,
        vec![0, 5_500]
    );
    assert_eq!(backend_state.load_local_start_positions_ms, vec![0, 500]);
    assert!(backend_state.load_calls[1].contains("timeOffset=5"));
    assert!(!backend_state.load_calls[1].contains("format=raw"));
}

#[test]
fn repeated_reload_required_seeks_continue_using_standard_stream() {
    let (mut controller, backend_state, _) =
        controller_with_mock_backend_seek_behavior(MockSeekBehavior::ReloadRequired);
    let (client, capability_matrix) = runtime_context(true);
    let runtime_context = PlaybackRuntimeContext {
        client: &client,
        capability_matrix: &capability_matrix,
        profile_id: None,
    };
    controller
        .set_queue(queue_entries(&["song-a"]), Some(0))
        .unwrap();

    controller.seek(&runtime_context, 5_000).unwrap();
    controller.play(&runtime_context).unwrap();
    controller.seek(&runtime_context, 7_000).unwrap();

    let backend_state = backend_state.lock().unwrap();
    assert_eq!(backend_state.load_calls.len(), 2);
    assert_eq!(backend_state.seek_calls_ms, vec![7_000]);
    assert!(!backend_state.load_calls[0].contains("format=raw"));
    assert!(!backend_state.load_calls[1].contains("format=raw"));
    assert_eq!(
        backend_state.load_absolute_start_positions_ms,
        vec![5_000, 7_000]
    );
}

#[test]
fn failed_exact_seek_preserves_last_confirmed_position() {
    let (mut controller, backend_state, _) =
        controller_with_mock_backend_seek_behavior(MockSeekBehavior::ReloadRequired);
    backend_state.lock().unwrap().fail_standard_load = true;
    let (client, capability_matrix) = runtime_context(true);
    let runtime_context = PlaybackRuntimeContext {
        client: &client,
        capability_matrix: &capability_matrix,
        profile_id: None,
    };
    controller
        .set_queue(queue_entries(&["song-a"]), Some(0))
        .unwrap();
    controller.play(&runtime_context).unwrap();
    backend_state.lock().unwrap().current_position_ms = 1_750;

    let seek_result = controller.seek(&runtime_context, 5_500);
    assert!(seek_result.is_err());

    let backend_state = backend_state.lock().unwrap();
    assert_eq!(backend_state.seek_calls_ms, vec![5_500]);
    assert_eq!(backend_state.load_calls.len(), 2);
    assert!(!backend_state.load_calls[1].contains("format=raw"));
    drop(backend_state);

    let status = controller.state();
    assert_eq!(status.playing_state, PlayingState::Playing);
    assert_eq!(status.current_position_ms, 1_750);
}

#[test]
fn helper_current_song_id_uses_index() {
    let entries = queue_entries(&["song-a", "song-a"]);
    assert_eq!(
        current_song_id(&entries, Some(1)).as_deref(),
        Some("song-a")
    );
    assert_eq!(current_song_id(&entries, Some(2)), None);
}

#[test]
fn play_queue_index_rejects_out_of_range_index() {
    let (mut controller, _, _) = controller_with_mock_backend(false);
    let (client, capability_matrix) = runtime_context(false);
    let runtime_context = PlaybackRuntimeContext {
        client: &client,
        capability_matrix: &capability_matrix,
        profile_id: None,
    };

    controller
        .set_queue(queue_entries(&["song-a"]), Some(0))
        .unwrap();

    let result = controller.play_queue_index(&runtime_context, 1);

    assert!(result.is_err());
}

#[test]
fn play_queue_index_starts_selected_track_from_zero() {
    let (mut controller, _, _) = controller_with_mock_backend(false);
    let (client, capability_matrix) = runtime_context(false);
    let runtime_context = PlaybackRuntimeContext {
        client: &client,
        capability_matrix: &capability_matrix,
        profile_id: None,
    };

    controller
        .set_queue(queue_entries(&["song-a", "song-b"]), Some(0))
        .unwrap();
    controller.seek(&runtime_context, 5_000).unwrap();

    let status = controller.play_queue_index(&runtime_context, 1).unwrap();

    assert_eq!(status.current_index, Some(1));
    assert_eq!(status.current_song_id.as_deref(), Some("song-b"));
    assert_eq!(status.current_position_ms, 0);
    assert_eq!(status.playing_state, PlayingState::Playing);
}

#[test]
fn load_strategy_split_by_stream_offset_uses_server_seconds_and_local_remainder() {
    assert_eq!(
        PlaybackLoadStrategy::split_by_stream_offset(7_500, true),
        PlaybackLoadStrategy {
            stream_offset_seconds: Some(7),
            local_start_position_ms: 500,
        }
    );
    assert_eq!(
        PlaybackLoadStrategy::split_by_stream_offset(7_500, false),
        PlaybackLoadStrategy {
            stream_offset_seconds: None,
            local_start_position_ms: 7_500,
        }
    );
    assert_eq!(
        PlaybackLoadStrategy::split_by_stream_offset(0, true),
        PlaybackLoadStrategy {
            stream_offset_seconds: None,
            local_start_position_ms: 0,
        }
    );
}

#[test]
fn default_status_is_idle() {
    assert_eq!(PlaybackStatus::empty().playing_state, PlayingState::Idle);
}

#[test]
fn reporter_receives_discrete_state_snapshots_for_mutations() {
    let (mut controller, _, reporter_state) = controller_with_mock_backend(false);
    let (client, capability_matrix) = runtime_context(true);
    let runtime_context = PlaybackRuntimeContext {
        client: &client,
        capability_matrix: &capability_matrix,
        profile_id: None,
    };

    controller
        .set_queue(queue_entries(&["song-a", "song-b"]), Some(0))
        .unwrap();
    controller.play(&runtime_context).unwrap();
    controller.pause().unwrap();
    controller.seek(&runtime_context, 8_000).unwrap();
    controller.next(&runtime_context).unwrap();
    controller.prev(&runtime_context).unwrap();
    controller.stop().unwrap();

    let reported_states = reporter_state.lock().unwrap().reported_states.clone();
    let states = reported_states
        .iter()
        .map(|status| status.playing_state.clone())
        .collect::<Vec<_>>();

    assert_eq!(
        states,
        vec![
            PlayingState::Stopped,
            PlayingState::Interrupted,
            PlayingState::Playing,
            PlayingState::Paused,
            PlayingState::Paused,
            PlayingState::Interrupted,
            PlayingState::Paused,
            PlayingState::Interrupted,
            PlayingState::Paused,
            PlayingState::Stopped,
        ]
    );
    assert_eq!(
        reported_states[1].interrupt_reason,
        Some(InterruptReason::InitialLoad)
    );
    assert_eq!(reported_states[4].pending_seek_position_ms, Some(8_000));
    assert_eq!(
        reported_states[5].interrupt_reason,
        Some(InterruptReason::InitialLoad)
    );
    assert_eq!(
        reported_states[7].interrupt_reason,
        Some(InterruptReason::InitialLoad)
    );
    assert_eq!(reported_states[5].current_index, Some(1));
    assert_eq!(reported_states[8].current_index, Some(0));
}

#[test]
fn reload_required_seek_reports_full_reload_interruption() {
    let (mut controller, _, reporter_state) =
        controller_with_mock_backend_seek_behavior(MockSeekBehavior::ReloadRequired);
    let (client, capability_matrix) = runtime_context(true);
    let runtime_context = PlaybackRuntimeContext {
        client: &client,
        capability_matrix: &capability_matrix,
        profile_id: None,
    };
    controller
        .set_queue(queue_entries(&["song-a"]), Some(0))
        .unwrap();
    controller.play(&runtime_context).unwrap();

    controller.seek(&runtime_context, 5_500).unwrap();

    let reported_states = reporter_state.lock().unwrap().reported_states.clone();
    assert_eq!(
        reported_states[3].interrupt_reason,
        Some(InterruptReason::FullReload)
    );
    assert_eq!(reported_states[3].pending_seek_position_ms, Some(5_500));
    assert_eq!(reported_states[4].interrupt_reason, None);
    assert_eq!(reported_states[4].pending_seek_position_ms, None);
}

#[test]
fn native_seek_is_cleared_by_seek_processed_event() {
    let (mut controller, _, _, native_events) =
        controller_with_mock_backend_and_native_events(false);
    let (client, capability_matrix) = runtime_context(true);
    let runtime_context = PlaybackRuntimeContext {
        client: &client,
        capability_matrix: &capability_matrix,
        profile_id: None,
    };
    controller
        .set_queue(queue_entries(&["song-a"]), Some(0))
        .unwrap();
    controller.play(&runtime_context).unwrap();
    controller.seek(&runtime_context, 5_500).unwrap();

    native_events
        .lock()
        .unwrap()
        .push(PlaybackNativeEvent::SeekProcessed { position_ms: 5_500 });

    controller
        .process_native_events(Some(&runtime_context))
        .unwrap();

    let status = controller.state();
    assert_eq!(status.playing_state, PlayingState::Playing);
    assert_eq!(status.current_position_ms, 5_500);
    assert_eq!(status.pending_seek_position_ms, None);
}

#[test]
fn native_seek_processed_event_queued_during_seek_clears_pending_before_seek_returns() {
    let (mut controller, backend_state, _, _) =
        controller_with_mock_backend_and_native_events(false);
    backend_state.lock().unwrap().seek_behavior = MockSeekBehavior::ApplyAndEmitSeekProcessed;
    let (client, capability_matrix) = runtime_context(true);
    let runtime_context = PlaybackRuntimeContext {
        client: &client,
        capability_matrix: &capability_matrix,
        profile_id: None,
    };
    controller
        .set_queue(queue_entries(&["song-a"]), Some(0))
        .unwrap();
    controller.play(&runtime_context).unwrap();

    let status = controller.seek(&runtime_context, 5_500).unwrap();

    assert_eq!(status.playing_state, PlayingState::Playing);
    assert_eq!(status.current_position_ms, 5_500);
    assert_eq!(status.pending_seek_position_ms, None);
}

#[test]
fn handled_load_failure_marker_is_stripped_from_playback_error() {
    let error = playback_error_from_load_failure(&format!(
        "Failed to load Android playback media: {HANDLED_PLAYBACK_ERROR_PREFIX}timeout"
    ));

    assert!(error.handled);
    assert_eq!(
        error.message,
        "Failed to load Android playback media: timeout"
    );
}

#[test]
fn native_handled_error_keeps_error_state_but_marks_error_handled() {
    let (mut controller, _, _, native_events) =
        controller_with_mock_backend_and_native_events(false);
    let (client, capability_matrix) = runtime_context(true);
    let runtime_context = PlaybackRuntimeContext {
        client: &client,
        capability_matrix: &capability_matrix,
        profile_id: None,
    };
    controller
        .set_queue(queue_entries(&["song-a"]), Some(0))
        .unwrap();
    controller.play(&runtime_context).unwrap();

    native_events
        .lock()
        .unwrap()
        .push(PlaybackNativeEvent::Error {
            message: "network timeout".to_string(),
            handled: true,
        });

    controller
        .process_native_events(Some(&runtime_context))
        .unwrap();

    let status = controller.state();
    let error = status.playback_error.unwrap();
    assert_eq!(status.playing_state, PlayingState::Error);
    assert_eq!(error.message, "network timeout");
    assert!(error.handled);
}

#[test]
fn native_output_stream_error_reloads_current_track_at_current_position() {
    let (mut controller, backend_state, _, native_events) =
        controller_with_mock_backend_and_native_events(false);
    let (client, capability_matrix) = runtime_context(true);
    let runtime_context = PlaybackRuntimeContext {
        client: &client,
        capability_matrix: &capability_matrix,
        profile_id: None,
    };
    controller
        .set_queue(queue_entries(&["song-a"]), Some(0))
        .unwrap();
    controller.play(&runtime_context).unwrap();
    backend_state.lock().unwrap().current_position_ms = 6_543;
    let stop_calls_before = backend_state.lock().unwrap().stop_calls;

    native_events
        .lock()
        .unwrap()
        .push(PlaybackNativeEvent::Error {
            message: "Audio output device error: output stream lost: DeviceNotAvailable"
                .to_string(),
            handled: false,
        });

    controller
        .process_native_events(Some(&runtime_context))
        .unwrap();

    let status = controller.state();
    let backend_state = backend_state.lock().unwrap();
    assert_eq!(status.playing_state, PlayingState::Playing);
    assert_eq!(status.current_position_ms, 6_543);
    assert!(status.playback_error.is_none());
    assert_eq!(backend_state.stop_calls, stop_calls_before + 1);
    assert_eq!(backend_state.load_calls.len(), 2);
    assert_eq!(
        backend_state.load_absolute_start_positions_ms,
        vec![0, 6_543]
    );
}

#[test]
fn repeated_native_output_stream_error_retries_until_recovery_limit() {
    let (mut controller, backend_state, _, native_events) =
        controller_with_mock_backend_and_native_events(false);
    let (client, capability_matrix) = runtime_context(true);
    let runtime_context = PlaybackRuntimeContext {
        client: &client,
        capability_matrix: &capability_matrix,
        profile_id: None,
    };
    controller
        .set_queue(queue_entries(&["song-a"]), Some(0))
        .unwrap();
    controller.play(&runtime_context).unwrap();

    for position_ms in [6_543, 7_777, 8_888] {
        backend_state.lock().unwrap().current_position_ms = position_ms;
        native_events
            .lock()
            .unwrap()
            .push(PlaybackNativeEvent::Error {
                message: "Audio output device error: output stream lost: DeviceNotAvailable"
                    .to_string(),
                handled: false,
            });
        controller
            .process_native_events(Some(&runtime_context))
            .unwrap();

        let status = controller.state();
        assert_eq!(status.playing_state, PlayingState::Playing);
        assert_eq!(status.current_position_ms, position_ms);
    }

    let load_calls_after_recovery_limit = backend_state.lock().unwrap().load_calls.len();
    native_events
        .lock()
        .unwrap()
        .push(PlaybackNativeEvent::Error {
            message: "Audio output device error: output stream lost: DeviceNotAvailable"
                .to_string(),
            handled: false,
        });
    controller
        .process_native_events(Some(&runtime_context))
        .unwrap();

    let status = controller.state();
    let backend_state = backend_state.lock().unwrap();
    assert_eq!(status.playing_state, PlayingState::Error);
    assert!(status.playback_error.as_ref().is_some_and(|error| error
        .message
        .contains("automatic output stream recovery limit reached")));
    assert_eq!(
        backend_state.load_calls.len(),
        load_calls_after_recovery_limit
    );
}

#[test]
fn native_output_stream_error_retry_succeeds_after_initial_reload_failure() {
    let (mut controller, backend_state, _, native_events) =
        controller_with_mock_backend_and_native_events(false);
    let (client, capability_matrix) = runtime_context(true);
    let runtime_context = PlaybackRuntimeContext {
        client: &client,
        capability_matrix: &capability_matrix,
        profile_id: None,
    };
    controller
        .set_queue(queue_entries(&["song-a"]), Some(0))
        .unwrap();
    controller.play(&runtime_context).unwrap();
    backend_state.lock().unwrap().current_position_ms = 8_765;
    backend_state.lock().unwrap().always_fail_load = true;

    native_events
        .lock()
        .unwrap()
        .push(PlaybackNativeEvent::Error {
            message: "Audio output device error: output stream lost: DeviceNotAvailable"
                .to_string(),
            handled: false,
        });

    controller
        .process_native_events(Some(&runtime_context))
        .unwrap();

    let status = controller.state();
    assert_eq!(status.playing_state, PlayingState::Interrupted);
    assert_eq!(status.current_position_ms, 8_765);
    assert!(status.playback_error.is_none());

    backend_state.lock().unwrap().always_fail_load = false;
    controller
        .process_native_events(Some(&runtime_context))
        .unwrap();

    let status = controller.state();
    assert_eq!(status.playing_state, PlayingState::Playing);
    assert_eq!(status.current_position_ms, 8_765);
    assert!(status.playback_error.is_none());
    assert_eq!(backend_state.lock().unwrap().load_calls.len(), 3);
}

#[test]
fn native_output_stream_error_retry_limit_does_not_leave_playing_without_stream() {
    let (mut controller, backend_state, _, native_events) =
        controller_with_mock_backend_and_native_events(false);
    let (client, capability_matrix) = runtime_context(true);
    let runtime_context = PlaybackRuntimeContext {
        client: &client,
        capability_matrix: &capability_matrix,
        profile_id: None,
    };
    controller
        .set_queue(queue_entries(&["song-a"]), Some(0))
        .unwrap();
    controller.play(&runtime_context).unwrap();
    backend_state.lock().unwrap().current_position_ms = 8_765;
    backend_state.lock().unwrap().always_fail_load = true;

    native_events
        .lock()
        .unwrap()
        .push(PlaybackNativeEvent::Error {
            message: "Audio output device error: output stream lost: DeviceNotAvailable"
                .to_string(),
            handled: false,
        });

    controller
        .process_native_events(Some(&runtime_context))
        .unwrap();
    let status = controller.state();
    assert_eq!(status.playing_state, PlayingState::Interrupted);
    assert_eq!(status.current_position_ms, 8_765);
    assert!(status.playback_error.is_none());

    controller
        .process_native_events(Some(&runtime_context))
        .unwrap();
    controller
        .process_native_events(Some(&runtime_context))
        .unwrap();

    let status = controller.state();
    let error = status.playback_error.unwrap();
    assert_eq!(status.playing_state, PlayingState::Error);
    assert_eq!(status.current_position_ms, 8_765);
    assert!(error
        .message
        .contains("automatic output stream recovery failed after 3 attempts"));
    assert_eq!(backend_state.lock().unwrap().load_calls.len(), 4);
}

#[test]
fn runtime_buffering_reports_stream_buffering_stall() {
    let (mut controller, _, _, native_events) =
        controller_with_mock_backend_and_native_events(false);
    let (client, capability_matrix) = runtime_context(true);
    let runtime_context = PlaybackRuntimeContext {
        client: &client,
        capability_matrix: &capability_matrix,
        profile_id: None,
    };
    controller
        .set_queue(queue_entries(&["song-a"]), Some(0))
        .unwrap();
    controller.play(&runtime_context).unwrap();

    native_events
        .lock()
        .unwrap()
        .push(PlaybackNativeEvent::Buffering { position_ms: 1_234 });

    controller
        .process_native_events(Some(&runtime_context))
        .unwrap();

    let status = controller.state();
    assert_eq!(status.playing_state, PlayingState::Interrupted);
    assert_eq!(
        status.interrupt_reason,
        Some(InterruptReason::StreamBufferingStall)
    );
    assert_eq!(status.pending_seek_position_ms, None);
}

#[test]
fn seek_buffering_reports_seeking_interruption_until_ready() {
    let (mut controller, _, _, native_events) =
        controller_with_mock_backend_and_native_events(false);
    let (client, capability_matrix) = runtime_context(true);
    let runtime_context = PlaybackRuntimeContext {
        client: &client,
        capability_matrix: &capability_matrix,
        profile_id: None,
    };
    controller
        .set_queue(queue_entries(&["song-a"]), Some(0))
        .unwrap();
    controller.play(&runtime_context).unwrap();
    controller.seek(&runtime_context, 5_500).unwrap();

    native_events
        .lock()
        .unwrap()
        .push(PlaybackNativeEvent::Buffering { position_ms: 4_000 });

    controller
        .process_native_events(Some(&runtime_context))
        .unwrap();

    let interrupted = controller.state();
    assert_eq!(interrupted.playing_state, PlayingState::Interrupted);
    assert_eq!(interrupted.interrupt_reason, Some(InterruptReason::Seeking));
    assert_eq!(interrupted.pending_seek_position_ms, Some(5_500));

    native_events
        .lock()
        .unwrap()
        .push(PlaybackNativeEvent::Ready { position_ms: 5_500 });

    controller
        .process_native_events(Some(&runtime_context))
        .unwrap();

    let resumed = controller.state();
    assert_eq!(resumed.playing_state, PlayingState::Playing);
    assert_eq!(resumed.current_position_ms, 5_500);
    assert_eq!(resumed.pending_seek_position_ms, None);
}

#[test]
fn set_queue_clears_pending_seek_position() {
    let (mut controller, _, _) = controller_with_mock_backend(false);
    let (client, capability_matrix) = runtime_context(true);
    let runtime_context = PlaybackRuntimeContext {
        client: &client,
        capability_matrix: &capability_matrix,
        profile_id: None,
    };
    controller
        .set_queue(queue_entries(&["song-a"]), Some(0))
        .unwrap();
    controller.play(&runtime_context).unwrap();
    controller.seek(&runtime_context, 5_500).unwrap();

    let status = controller
        .set_queue(queue_entries(&["song-b"]), Some(0))
        .unwrap();

    assert_eq!(status.playing_state, PlayingState::Stopped);
    assert_eq!(status.pending_seek_position_ms, None);
}

#[test]
fn load_failures_are_reported_as_error_snapshots() {
    let (mut controller, _, reporter_state) =
        controller_with_mock_backend_config(false, true, false);
    let (client, capability_matrix) = runtime_context(true);
    let runtime_context = PlaybackRuntimeContext {
        client: &client,
        capability_matrix: &capability_matrix,
        profile_id: None,
    };

    controller
        .set_queue(queue_entries(&["song-a"]), Some(0))
        .unwrap();

    let result = controller.play(&runtime_context);
    assert!(result.is_err());

    let reported_states = reporter_state.lock().unwrap().reported_states.clone();
    let states = reported_states
        .iter()
        .map(|status| status.playing_state.clone())
        .collect::<Vec<_>>();

    assert_eq!(
        states,
        vec![
            PlayingState::Stopped,
            PlayingState::Interrupted,
            PlayingState::Error,
        ]
    );
    assert_eq!(
        reported_states[1].interrupt_reason,
        Some(InterruptReason::InitialLoad)
    );
    assert!(reported_states
        .last()
        .and_then(|status| status.playback_error.as_ref())
        .is_some_and(
            |error| !error.handled && error.message.contains("Failed to load playback stream.")
        ));
}

#[test]
fn reset_clears_status_and_reports_idle() {
    let (mut controller, _, reporter_state) = controller_with_mock_backend(false);
    let (client, capability_matrix) = runtime_context(true);
    let runtime_context = PlaybackRuntimeContext {
        client: &client,
        capability_matrix: &capability_matrix,
        profile_id: None,
    };

    controller
        .set_queue(queue_entries(&["song-a"]), Some(0))
        .unwrap();
    controller.play(&runtime_context).unwrap();

    let status = controller.reset();
    assert_eq!(status.playing_state, PlayingState::Idle);
    assert!(status.queue.is_empty());
    assert_eq!(status.gapless_status.state, GaplessState::Off);

    let reported_states = reporter_state.lock().unwrap().reported_states.clone();
    assert_eq!(
        reported_states
            .last()
            .map(|state| state.playing_state.clone()),
        Some(PlayingState::Idle)
    );
    assert_eq!(
        reported_states
            .last()
            .map(|state| state.gapless_status.state.clone()),
        Some(GaplessState::Off)
    );
}

#[test]
fn insert_after_current_into_empty_queue_initializes_queue() {
    let (mut controller, _, _) = controller_with_mock_backend(false);
    let songs = queue_entries(&["song-x", "song-y"]);
    let status = controller.insert_after_current(songs).unwrap();
    assert_eq!(status.queue.len(), 2);
    assert_eq!(status.current_index, Some(0));
    assert_eq!(status.play_next_queue_len, 1);
    assert_eq!(status.current_song_id, Some("song-x".to_string()));
    assert_eq!(status.playing_state, PlayingState::Stopped);
}

#[test]
fn insert_after_current_inserts_after_current_index() {
    let (mut controller, _, _) = controller_with_mock_backend(false);
    controller
        .set_queue(queue_entries(&["song-a", "song-b", "song-c"]), Some(1))
        .unwrap();

    let status = controller
        .insert_after_current(queue_entries(&["song-x", "song-y"]))
        .unwrap();
    assert_eq!(status.queue.len(), 5);
    assert_eq!(status.queue[0].id, "song-a");
    assert_eq!(status.queue[1].id, "song-b"); // current
    assert_eq!(status.queue[2].id, "song-x"); // inserted
    assert_eq!(status.queue[3].id, "song-y"); // inserted
    assert_eq!(status.queue[4].id, "song-c");
    assert_eq!(status.current_index, Some(1)); // unchanged
    assert_eq!(status.play_next_queue_len, 2);
}

#[test]
fn insert_after_current_appends_to_existing_play_next_queue() {
    let (mut controller, _, _) = controller_with_mock_backend(false);
    controller
        .set_queue(queue_entries(&["song-a", "song-b", "song-c"]), Some(0))
        .unwrap();

    controller
        .insert_after_current(queue_entries(&["song-x"]))
        .unwrap();
    let status = controller
        .insert_after_current(queue_entries(&["song-y"]))
        .unwrap();
    let ids: Vec<_> = status.queue.iter().map(|entry| entry.id.as_str()).collect();

    assert_eq!(ids, vec!["song-a", "song-x", "song-y", "song-b", "song-c"]);
    assert_eq!(status.current_index, Some(0));
    assert_eq!(status.play_next_queue_len, 2);
}

#[test]
fn insert_after_current_preserves_playing_position_from_backend() {
    let (mut controller, backend_state, _) = controller_with_mock_backend(false);
    let (client, capability_matrix) = runtime_context(true);
    let runtime_context = PlaybackRuntimeContext {
        client: &client,
        capability_matrix: &capability_matrix,
        profile_id: None,
    };
    controller
        .set_queue(queue_entries(&["song-a", "song-b"]), Some(0))
        .unwrap();
    controller.play(&runtime_context).unwrap();
    let stop_calls_before = backend_state.lock().unwrap().stop_calls;
    let load_calls_before = backend_state.lock().unwrap().load_calls.len();
    backend_state.lock().unwrap().current_position_ms = 4_321;

    let status = controller
        .insert_after_current(queue_entries(&["song-x"]))
        .unwrap();
    let backend_state = backend_state.lock().unwrap();

    assert_eq!(status.playing_state, PlayingState::Playing);
    assert_eq!(status.current_index, Some(0));
    assert_eq!(status.current_song_id, Some("song-a".to_string()));
    assert_eq!(status.current_position_ms, 4_321);
    assert_eq!(status.play_next_queue_len, 1);
    assert_eq!(backend_state.stop_calls, stop_calls_before);
    assert_eq!(backend_state.load_calls.len(), load_calls_before);
}

#[test]
fn insert_after_current_with_empty_songs_is_noop() {
    let (mut controller, _, _) = controller_with_mock_backend(false);
    controller
        .set_queue(queue_entries(&["song-a"]), Some(0))
        .unwrap();
    let status = controller.insert_after_current(vec![]).unwrap();
    assert_eq!(status.queue.len(), 1);
}

#[test]
fn next_consumes_first_play_next_queue_entry() {
    let (mut controller, _, _) = controller_with_mock_backend(false);
    let (client, capability_matrix) = runtime_context(true);
    let runtime_context = PlaybackRuntimeContext {
        client: &client,
        capability_matrix: &capability_matrix,
        profile_id: None,
    };
    controller
        .set_queue(queue_entries(&["song-a", "song-b"]), Some(0))
        .unwrap();
    controller
        .insert_after_current(queue_entries(&["song-x", "song-y"]))
        .unwrap();

    let status = controller.next(&runtime_context).unwrap();

    assert_eq!(status.current_index, Some(1));
    assert_eq!(status.current_song_id, Some("song-x".to_string()));
    assert_eq!(status.play_next_queue_len, 1);
}

#[test]
fn append_to_queue_into_empty_queue_initializes_queue() {
    let (mut controller, _, _) = controller_with_mock_backend(false);
    let songs = queue_entries(&["song-x", "song-y"]);
    let status = controller.append_to_queue(songs).unwrap();
    assert_eq!(status.queue.len(), 2);
    assert_eq!(status.current_index, Some(0));
    assert_eq!(status.current_song_id, Some("song-x".to_string()));
    assert_eq!(status.playing_state, PlayingState::Stopped);
}

#[test]
fn append_to_queue_appends_to_end() {
    let (mut controller, _, _) = controller_with_mock_backend(false);
    controller
        .set_queue(queue_entries(&["song-a", "song-b"]), Some(0))
        .unwrap();

    let status = controller
        .append_to_queue(queue_entries(&["song-x", "song-y"]))
        .unwrap();
    assert_eq!(status.queue.len(), 4);
    assert_eq!(status.queue[2].id, "song-x");
    assert_eq!(status.queue[3].id, "song-y");
    assert_eq!(status.current_index, Some(0)); // unchanged
}

#[test]
fn append_to_queue_preserves_playing_position_from_backend() {
    let (mut controller, backend_state, _) = controller_with_mock_backend(false);
    let (client, capability_matrix) = runtime_context(true);
    let runtime_context = PlaybackRuntimeContext {
        client: &client,
        capability_matrix: &capability_matrix,
        profile_id: None,
    };
    controller
        .set_queue(queue_entries(&["song-a"]), Some(0))
        .unwrap();
    controller.play(&runtime_context).unwrap();
    let stop_calls_before = backend_state.lock().unwrap().stop_calls;
    let load_calls_before = backend_state.lock().unwrap().load_calls.len();
    backend_state.lock().unwrap().current_position_ms = 5_678;

    let status = controller
        .append_to_queue(queue_entries(&["song-x"]))
        .unwrap();
    let backend_state = backend_state.lock().unwrap();

    assert_eq!(status.playing_state, PlayingState::Playing);
    assert_eq!(status.current_position_ms, 5_678);
    assert_eq!(backend_state.stop_calls, stop_calls_before);
    assert_eq!(backend_state.load_calls.len(), load_calls_before);
}

#[test]
fn active_connect_queue_update_preserves_current_loaded_track() {
    let (mut controller, backend_state, _) = controller_with_mock_backend(false);
    let (client, capability_matrix) = runtime_context(true);
    let runtime_context = PlaybackRuntimeContext {
        client: &client,
        capability_matrix: &capability_matrix,
        profile_id: None,
    };
    controller
        .set_queue(queue_entries(&["song-a"]), Some(0))
        .unwrap();
    controller.play(&runtime_context).unwrap();
    let stop_calls_before = backend_state.lock().unwrap().stop_calls;
    let load_calls_before = backend_state.lock().unwrap().load_calls.len();
    backend_state.lock().unwrap().current_position_ms = 7_654;

    let status = controller
        .apply_connect_shared_state(
            Some(&runtime_context),
            ConnectPlaybackState {
                playing_state: PlayingState::Playing,
                queue: queue_entries(&["song-a", "song-b"]),
                current_index: Some(0),
                play_next_queue_len: 0,
                current_position_ms: 0,
                current_song_id: Some("song-a".to_string()),
            },
            true,
            true,
        )
        .unwrap();
    let backend_state = backend_state.lock().unwrap();

    assert_eq!(status.playing_state, PlayingState::Playing);
    assert_eq!(status.queue.len(), 2);
    assert_eq!(status.current_index, Some(0));
    assert_eq!(status.current_position_ms, 7_654);
    assert_eq!(backend_state.stop_calls, stop_calls_before);
    assert_eq!(backend_state.load_calls.len(), load_calls_before);
}

#[test]
fn active_connect_queue_update_syncs_queue_state() {
    let (mut controller, backend_state, queue_sync_state) =
        controller_with_mock_backend_and_queue_sync();
    let (client, capability_matrix) = runtime_context(true);
    let runtime_context = PlaybackRuntimeContext {
        client: &client,
        capability_matrix: &capability_matrix,
        profile_id: None,
    };
    controller
        .set_queue(queue_entries(&["song-a"]), Some(0))
        .unwrap();
    controller.play(&runtime_context).unwrap();
    let synced_before = queue_sync_state.lock().unwrap().synced_states.len();
    let stop_calls_before = backend_state.lock().unwrap().stop_calls;

    let status = controller
        .apply_connect_shared_state(
            Some(&runtime_context),
            ConnectPlaybackState {
                playing_state: PlayingState::Playing,
                queue: queue_entries(&["song-a", "song-b"]),
                current_index: Some(0),
                play_next_queue_len: 1,
                current_position_ms: 0,
                current_song_id: Some("song-a".to_string()),
            },
            true,
            true,
        )
        .unwrap();

    assert_eq!(status.queue.len(), 2);
    assert_eq!(status.play_next_queue_len, 1);
    assert_eq!(backend_state.lock().unwrap().stop_calls, stop_calls_before);
    let synced_states = queue_sync_state.lock().unwrap();
    assert_eq!(synced_states.synced_states.len(), synced_before + 1);
    let synced = synced_states.synced_states.last().unwrap();
    assert_eq!(synced.queue.len(), 2);
    assert_eq!(synced.play_next_queue_len, 1);
}

#[test]
fn active_connect_transfer_update_loads_even_when_local_status_was_playing() {
    let (mut controller, backend_state, _) = controller_with_mock_backend(false);
    let (client, capability_matrix) = runtime_context(true);
    let runtime_context = PlaybackRuntimeContext {
        client: &client,
        capability_matrix: &capability_matrix,
        profile_id: None,
    };
    controller
        .set_queue(queue_entries(&["song-a"]), Some(0))
        .unwrap();
    controller.play(&runtime_context).unwrap();
    controller
        .apply_connect_shared_state(
            Some(&runtime_context),
            ConnectPlaybackState {
                playing_state: PlayingState::Playing,
                queue: queue_entries(&["song-a"]),
                current_index: Some(0),
                play_next_queue_len: 0,
                current_position_ms: 4_321,
                current_song_id: Some("song-a".to_string()),
            },
            false,
            false,
        )
        .unwrap();
    let load_calls_before = backend_state.lock().unwrap().load_calls.len();

    let status = controller
        .apply_connect_shared_state(
            Some(&runtime_context),
            ConnectPlaybackState {
                playing_state: PlayingState::Playing,
                queue: queue_entries(&["song-a"]),
                current_index: Some(0),
                play_next_queue_len: 0,
                current_position_ms: 5_678,
                current_song_id: Some("song-a".to_string()),
            },
            true,
            false,
        )
        .unwrap();

    assert_eq!(status.playing_state, PlayingState::Playing);
    assert_eq!(status.current_position_ms, 5_678);
    assert_eq!(
        backend_state.lock().unwrap().load_calls.len(),
        load_calls_before + 1
    );
}

#[test]
fn active_connect_clear_queue_stops_loaded_track() {
    let (mut controller, backend_state, _) = controller_with_mock_backend(false);
    let (client, capability_matrix) = runtime_context(true);
    let runtime_context = PlaybackRuntimeContext {
        client: &client,
        capability_matrix: &capability_matrix,
        profile_id: None,
    };
    controller
        .set_queue(queue_entries(&["song-a"]), Some(0))
        .unwrap();
    controller.play(&runtime_context).unwrap();
    let stop_calls_before = backend_state.lock().unwrap().stop_calls;

    let status = controller
        .apply_connect_shared_state(
            Some(&runtime_context),
            ConnectPlaybackState {
                playing_state: PlayingState::Idle,
                queue: vec![],
                current_index: None,
                play_next_queue_len: 0,
                current_position_ms: 0,
                current_song_id: None,
            },
            true,
            true,
        )
        .unwrap();

    assert!(status.queue.is_empty());
    assert_eq!(status.playing_state, PlayingState::Idle);
    assert_eq!(status.current_index, None);
    assert_eq!(status.current_song_id, None);
    assert_eq!(
        backend_state.lock().unwrap().stop_calls,
        stop_calls_before + 1
    );
}

#[test]
fn append_to_queue_with_empty_songs_is_noop() {
    let (mut controller, _, _) = controller_with_mock_backend(false);
    controller
        .set_queue(queue_entries(&["song-a"]), Some(0))
        .unwrap();
    let status = controller.append_to_queue(vec![]).unwrap();
    assert_eq!(status.queue.len(), 1);
}

#[test]
fn move_queue_index_moves_item_and_keeps_current_entry() {
    let (mut controller, _, _) = controller_with_mock_backend(false);
    controller
        .set_queue(
            queue_entries(&["song-a", "song-b", "song-c", "song-d"]),
            Some(2),
        )
        .unwrap();
    controller.set_position(12_345).unwrap();

    let status = controller.move_queue_index(0, 2).unwrap();
    let ids: Vec<_> = status.queue.iter().map(|entry| entry.id.as_str()).collect();

    assert_eq!(ids, vec!["song-b", "song-c", "song-a", "song-d"]);
    assert_eq!(status.current_index, Some(1));
    assert_eq!(status.current_song_id, Some("song-c".to_string()));
    assert_eq!(status.current_position_ms, 12_345);
}

#[test]
fn move_queue_index_before_current_shifts_current_entry_right() {
    let (mut controller, _, _) = controller_with_mock_backend(false);
    controller
        .set_queue(
            queue_entries(&["song-a", "song-b", "song-c", "song-d"]),
            Some(1),
        )
        .unwrap();

    let status = controller.move_queue_index(3, 0).unwrap();
    let ids: Vec<_> = status.queue.iter().map(|entry| entry.id.as_str()).collect();

    assert_eq!(ids, vec!["song-d", "song-a", "song-b", "song-c"]);
    assert_eq!(status.current_index, Some(2));
    assert_eq!(status.current_song_id, Some("song-b".to_string()));
}

#[test]
fn move_current_queue_index_updates_current_index_without_reloading() {
    let (mut controller, backend_state, _) = controller_with_mock_backend(false);
    controller
        .set_queue(queue_entries(&["song-a", "song-b", "song-c"]), Some(1))
        .unwrap();
    controller.set_position(12_345).unwrap();
    let stop_calls_before = backend_state.lock().unwrap().stop_calls;

    let status = controller.move_queue_index(1, 2).unwrap();
    let ids: Vec<_> = status.queue.iter().map(|entry| entry.id.as_str()).collect();

    assert_eq!(ids, vec!["song-a", "song-c", "song-b"]);
    assert_eq!(status.current_index, Some(2));
    assert_eq!(status.current_song_id, Some("song-b".to_string()));
    assert_eq!(status.current_position_ms, 12_345);
    assert_eq!(backend_state.lock().unwrap().stop_calls, stop_calls_before);
}

#[test]
fn move_queue_index_rejects_out_of_range_index() {
    let (mut controller, _, _) = controller_with_mock_backend(false);
    controller
        .set_queue(queue_entries(&["song-a"]), Some(0))
        .unwrap();

    let result = controller.move_queue_index(0, 1);

    assert!(result.is_err());
}

#[test]
fn remove_queue_index_after_current_keeps_current_entry() {
    let (mut controller, _, _) = controller_with_mock_backend(false);
    controller
        .set_queue(queue_entries(&["song-a", "song-b", "song-c"]), Some(0))
        .unwrap();
    controller.set_position(12_345).unwrap();

    let status = controller.remove_queue_index(None, 2).unwrap();
    let ids: Vec<_> = status.queue.iter().map(|entry| entry.id.as_str()).collect();

    assert_eq!(ids, vec!["song-a", "song-b"]);
    assert_eq!(status.current_index, Some(0));
    assert_eq!(status.current_song_id, Some("song-a".to_string()));
    assert_eq!(status.current_position_ms, 12_345);
    assert_eq!(status.playing_state, PlayingState::Stopped);
}

#[test]
fn remove_queue_index_before_current_shifts_current_index() {
    let (mut controller, _, _) = controller_with_mock_backend(false);
    controller
        .set_queue(queue_entries(&["song-a", "song-b", "song-c"]), Some(2))
        .unwrap();
    controller.set_position(12_345).unwrap();

    let status = controller.remove_queue_index(None, 0).unwrap();
    let ids: Vec<_> = status.queue.iter().map(|entry| entry.id.as_str()).collect();

    assert_eq!(ids, vec!["song-b", "song-c"]);
    assert_eq!(status.current_index, Some(1));
    assert_eq!(status.current_song_id, Some("song-c".to_string()));
    assert_eq!(status.current_position_ms, 12_345);
}

#[test]
fn remove_current_queue_index_selects_next_entry_when_stopped() {
    let (mut controller, _, _) = controller_with_mock_backend(false);
    controller
        .set_queue(queue_entries(&["song-a", "song-b", "song-c"]), Some(1))
        .unwrap();
    controller.set_position(12_345).unwrap();

    let status = controller.remove_queue_index(None, 1).unwrap();
    let ids: Vec<_> = status.queue.iter().map(|entry| entry.id.as_str()).collect();

    assert_eq!(ids, vec!["song-a", "song-c"]);
    assert_eq!(status.current_index, Some(1));
    assert_eq!(status.current_song_id, Some("song-c".to_string()));
    assert_eq!(status.current_position_ms, 0);
    assert_eq!(status.playing_state, PlayingState::Stopped);
}

#[test]
fn remove_current_queue_index_selects_previous_entry_at_end() {
    let (mut controller, _, _) = controller_with_mock_backend(false);
    controller
        .set_queue(queue_entries(&["song-a", "song-b", "song-c"]), Some(2))
        .unwrap();

    let status = controller.remove_queue_index(None, 2).unwrap();
    let ids: Vec<_> = status.queue.iter().map(|entry| entry.id.as_str()).collect();

    assert_eq!(ids, vec!["song-a", "song-b"]);
    assert_eq!(status.current_index, Some(1));
    assert_eq!(status.current_song_id, Some("song-b".to_string()));
    assert_eq!(status.current_position_ms, 0);
}

#[test]
fn remove_only_current_queue_index_resets_to_idle() {
    let (mut controller, _, _) = controller_with_mock_backend(false);
    controller
        .set_queue(queue_entries(&["song-a"]), Some(0))
        .unwrap();

    let status = controller.remove_queue_index(None, 0).unwrap();

    assert!(status.queue.is_empty());
    assert_eq!(status.current_index, None);
    assert_eq!(status.current_song_id, None);
    assert_eq!(status.current_position_ms, 0);
    assert_eq!(status.playing_state, PlayingState::Idle);
}

#[test]
fn remove_current_queue_index_loads_replacement_when_playing() {
    let (mut controller, backend_state, _) = controller_with_mock_backend(false);
    let (client, capability_matrix) = runtime_context(true);
    let runtime_context = PlaybackRuntimeContext {
        client: &client,
        capability_matrix: &capability_matrix,
        profile_id: None,
    };
    controller
        .set_queue(queue_entries(&["song-a", "song-b", "song-c"]), Some(1))
        .unwrap();
    controller.play(&runtime_context).unwrap();
    let stop_calls_before = backend_state.lock().unwrap().stop_calls;
    backend_state.lock().unwrap().current_position_ms = 4_321;

    let status = controller
        .remove_queue_index(Some(&runtime_context), 1)
        .unwrap();
    let ids: Vec<_> = status.queue.iter().map(|entry| entry.id.as_str()).collect();
    let backend_state = backend_state.lock().unwrap();

    assert_eq!(ids, vec!["song-a", "song-c"]);
    assert_eq!(status.current_index, Some(1));
    assert_eq!(status.current_song_id, Some("song-c".to_string()));
    assert_eq!(status.current_position_ms, 0);
    assert_eq!(status.playing_state, PlayingState::Playing);
    assert_eq!(backend_state.stop_calls, stop_calls_before + 1);
    assert_eq!(backend_state.load_calls.len(), 2);
    assert!(backend_state.load_calls[1].contains("song-c"));
}

#[test]
fn remove_queue_index_rejects_out_of_range_index() {
    let (mut controller, _, _) = controller_with_mock_backend(false);
    controller
        .set_queue(queue_entries(&["song-a"]), Some(0))
        .unwrap();

    let result = controller.remove_queue_index(None, 1);

    assert!(result.is_err());
}

#[test]
fn clear_queue_stops_backend_and_resets_to_idle() {
    let (mut controller, backend_state, _) = controller_with_mock_backend(false);
    let (client, capability_matrix) = runtime_context(true);
    let runtime_context = PlaybackRuntimeContext {
        client: &client,
        capability_matrix: &capability_matrix,
        profile_id: None,
    };
    controller
        .set_queue(queue_entries(&["song-a", "song-b"]), Some(0))
        .unwrap();
    controller.play(&runtime_context).unwrap();
    backend_state.lock().unwrap().current_position_ms = 12_345;
    let stop_calls_before = backend_state.lock().unwrap().stop_calls;

    let status = controller.clear_queue(Some(&runtime_context)).unwrap();

    assert!(status.queue.is_empty());
    assert_eq!(status.current_index, None);
    assert_eq!(status.current_song_id, None);
    assert_eq!(status.current_position_ms, 0);
    assert_eq!(status.playing_state, PlayingState::Idle);
    assert_eq!(
        backend_state.lock().unwrap().stop_calls,
        stop_calls_before + 1
    );
}

#[test]
fn set_position_updates_stopped_queue_position() {
    let (mut controller, _, _) = controller_with_mock_backend(false);
    controller
        .set_queue(queue_entries(&["song-a"]), Some(0))
        .unwrap();

    let status = controller.set_position(12_345).unwrap();

    assert_eq!(status.playing_state, PlayingState::Stopped);
    assert_eq!(status.current_position_ms, 12_345);
    assert_eq!(status.current_index, Some(0));
    assert_eq!(status.current_song_id, Some("song-a".to_string()));
}

#[test]
fn set_position_stops_loaded_paused_track() {
    let (mut controller, backend_state, _) = controller_with_mock_backend(false);
    let (client, capability_matrix) = runtime_context(true);
    let runtime_context = PlaybackRuntimeContext {
        client: &client,
        capability_matrix: &capability_matrix,
        profile_id: None,
    };
    controller
        .set_queue(queue_entries(&["song-a"]), Some(0))
        .unwrap();
    controller.play(&runtime_context).unwrap();
    controller.pause().unwrap();
    let stop_calls_before = backend_state.lock().unwrap().stop_calls;

    let status = controller.set_position(30_000).unwrap();

    assert_eq!(status.playing_state, PlayingState::Stopped);
    assert_eq!(status.current_position_ms, 30_000);
    assert_eq!(
        backend_state.lock().unwrap().stop_calls,
        stop_calls_before + 1
    );
}

#[test]
fn set_output_device_while_stopped_updates_backend_without_reload() {
    let (mut controller, backend_state, _) = controller_with_mock_backend(false);
    controller
        .set_queue(queue_entries(&["song-a"]), Some(0))
        .unwrap();
    let stop_calls_before = backend_state.lock().unwrap().stop_calls;

    controller
        .set_output_device(Some("output:speakers".to_string()), None)
        .unwrap();

    let backend_state = backend_state.lock().unwrap();
    assert_eq!(
        backend_state.output_device_calls,
        vec![None, Some("output:speakers".to_string())]
    );
    assert_eq!(backend_state.stop_calls, stop_calls_before);
    assert!(backend_state.load_calls.is_empty());
}

#[test]
fn initial_output_device_error_keeps_saved_effective_device_until_clear_succeeds() {
    let (mut controller, backend_state, _) = controller_with_initial_output_device(
        Some("output:temporarily-missing".to_string()),
        true,
    );

    controller
        .set_output_device(Some("output:temporarily-missing".to_string()), None)
        .unwrap();
    let default_switch_result = controller.set_output_device(None, None);

    assert!(default_switch_result.is_err());
    assert!(backend_state.lock().unwrap().output_device_calls.is_empty());
}

#[test]
fn set_output_device_while_playing_reloads_current_track_at_current_position() {
    let (mut controller, backend_state, _) = controller_with_mock_backend(false);
    let (client, capability_matrix) = runtime_context(true);
    let runtime_context = PlaybackRuntimeContext {
        client: &client,
        capability_matrix: &capability_matrix,
        profile_id: None,
    };
    controller
        .set_queue(queue_entries(&["song-a"]), Some(0))
        .unwrap();
    controller.play(&runtime_context).unwrap();
    backend_state.lock().unwrap().current_position_ms = 4_321;
    let stop_calls_before = backend_state.lock().unwrap().stop_calls;

    controller
        .set_output_device(
            Some("output:headphones".to_string()),
            Some(&runtime_context),
        )
        .unwrap();
    let status = controller.state();
    let backend_state = backend_state.lock().unwrap();

    assert_eq!(status.playing_state, PlayingState::Playing);
    assert_eq!(status.current_position_ms, 4_321);
    assert_eq!(backend_state.stop_calls, stop_calls_before + 1);
    assert_eq!(
        backend_state.output_device_calls.last(),
        Some(&Some("output:headphones".to_string()))
    );
    assert_eq!(backend_state.load_calls.len(), 2);
    assert_eq!(
        backend_state.load_absolute_start_positions_ms,
        vec![0, 4_321]
    );
}

#[test]
fn set_output_device_while_paused_reloads_current_track_paused() {
    let (mut controller, backend_state, _) = controller_with_mock_backend(false);
    let (client, capability_matrix) = runtime_context(true);
    let runtime_context = PlaybackRuntimeContext {
        client: &client,
        capability_matrix: &capability_matrix,
        profile_id: None,
    };
    controller
        .set_queue(queue_entries(&["song-a"]), Some(0))
        .unwrap();
    controller.play(&runtime_context).unwrap();
    controller.pause().unwrap();
    backend_state.lock().unwrap().current_position_ms = 2_222;

    controller
        .set_output_device(
            Some("output:headphones".to_string()),
            Some(&runtime_context),
        )
        .unwrap();
    let status = controller.state();
    let backend_state = backend_state.lock().unwrap();

    assert_eq!(status.playing_state, PlayingState::Paused);
    assert_eq!(status.current_position_ms, 2_222);
    assert_eq!(backend_state.load_calls.len(), 2);
    assert_eq!(
        backend_state.load_absolute_start_positions_ms,
        vec![0, 2_222]
    );
}

#[test]
fn set_output_device_clears_prepared_gapless_state() {
    let (mut controller, backend_state, _) = controller_with_mock_backend(false);
    let (client, capability_matrix) = runtime_context(true);
    let runtime_context = PlaybackRuntimeContext {
        client: &client,
        capability_matrix: &capability_matrix,
        profile_id: None,
    };
    controller
        .set_queue(queue_entries(&["song-a", "song-b"]), Some(0))
        .unwrap();
    controller.play(&runtime_context).unwrap();
    controller
        .set_gapless_playback_enabled(true, Some(&runtime_context))
        .unwrap();
    let clear_calls_before = backend_state.lock().unwrap().clear_prepared_calls;

    controller
        .set_output_device(
            Some("output:headphones".to_string()),
            Some(&runtime_context),
        )
        .unwrap();

    assert!(backend_state.lock().unwrap().clear_prepared_calls > clear_calls_before);
}

#[test]
fn set_output_device_backend_error_does_not_stop_active_playback() {
    let (mut controller, backend_state, _) = controller_with_mock_backend(false);
    let (client, capability_matrix) = runtime_context(true);
    let runtime_context = PlaybackRuntimeContext {
        client: &client,
        capability_matrix: &capability_matrix,
        profile_id: None,
    };
    controller
        .set_queue(queue_entries(&["song-a"]), Some(0))
        .unwrap();
    controller.play(&runtime_context).unwrap();
    backend_state.lock().unwrap().fail_output_device = true;
    let stop_calls_before = backend_state.lock().unwrap().stop_calls;

    let result = controller.set_output_device(
        Some("output:headphones".to_string()),
        Some(&runtime_context),
    );
    let status = controller.state();

    assert!(result.is_err());
    assert_eq!(status.playing_state, PlayingState::Playing);
    assert_eq!(backend_state.lock().unwrap().stop_calls, stop_calls_before);
}

#[test]
fn set_output_device_reload_error_rolls_back_and_does_not_leave_playing_without_stream() {
    let (mut controller, backend_state, _) = controller_with_mock_backend(false);
    let (client, capability_matrix) = runtime_context(true);
    let runtime_context = PlaybackRuntimeContext {
        client: &client,
        capability_matrix: &capability_matrix,
        profile_id: None,
    };
    controller
        .set_queue(queue_entries(&["song-a"]), Some(0))
        .unwrap();
    controller.play(&runtime_context).unwrap();
    backend_state.lock().unwrap().current_position_ms = 4_321;
    let stop_calls_before = backend_state.lock().unwrap().stop_calls;
    backend_state.lock().unwrap().always_fail_load = true;

    let result = controller.set_output_device(
        Some("output:headphones".to_string()),
        Some(&runtime_context),
    );
    let status = controller.state();
    let backend_state = backend_state.lock().unwrap();

    assert!(result.is_err());
    assert_eq!(status.playing_state, PlayingState::Error);
    assert_eq!(status.current_position_ms, 4_321);
    assert!(status.playback_error.is_some());
    assert_eq!(backend_state.stop_calls, stop_calls_before + 1);
    assert_eq!(backend_state.output_device_calls.last(), Some(&None));
}

#[test]
fn restore_state_sets_queue_and_stopped_state() {
    let (mut controller, _, _) = controller_with_mock_backend(false);
    let queue = queue_entries(&["song-a", "song-b", "song-c"]);
    let status = controller.restore_state("profile-1".to_string(), queue, Some(1), 1, 5000);
    assert_eq!(status.queue.len(), 3);
    assert_eq!(status.current_index, Some(1));
    assert_eq!(status.play_next_queue_len, 1);
    assert_eq!(status.current_song_id, Some("song-b".to_string()));
    assert_eq!(status.current_position_ms, 5000);
    assert_eq!(status.playing_state, PlayingState::Stopped);
}

#[test]
fn restore_state_with_empty_queue_sets_idle() {
    let (mut controller, _, _) = controller_with_mock_backend(false);
    let status = controller.restore_state("profile-1".to_string(), vec![], None, 0, 0);
    assert_eq!(status.playing_state, PlayingState::Idle);
    assert_eq!(status.queue.len(), 0);
}

#[test]
fn restore_state_with_invalid_index_ignores_queue() {
    let (mut controller, _, _) = controller_with_mock_backend(false);
    let queue = queue_entries(&["song-a"]);
    let status = controller.restore_state("profile-1".to_string(), queue, Some(5), 0, 0);
    // Should start fresh - queue not restored
    assert_eq!(status.queue.len(), 0);
    assert_eq!(status.playing_state, PlayingState::Idle);
}

#[test]
fn is_initialized_for_profile_tracks_active_profile() {
    let (mut controller, _, _) = controller_with_mock_backend(false);

    assert!(!controller.is_initialized_for_profile("profile-1"));

    controller.set_active_profile_id(Some("profile-1".to_string()));
    assert!(controller.is_initialized_for_profile("profile-1"));
    assert!(!controller.is_initialized_for_profile("profile-2"));
}

#[test]
fn deferred_state_restore_is_not_initialized_or_persisted() {
    let persister = RecordingPersister::default();
    let saved_states = persister.states.clone();
    let (mut controller, _, _) =
        controller_with_mock_backend_and_persister(Box::new(persister));

    controller.defer_state_restore("profile-1".to_string());
    controller.sync_and_persist();

    assert!(!controller.is_initialized_for_profile("profile-1"));
    assert!(!controller.can_preserve_active_connect_snapshot_for_profile("profile-1"));
    assert!(saved_states.lock().unwrap().is_empty());
}

#[test]
fn sync_and_persist_stops_loaded_backend_for_app_exit() {
    let persister = RecordingPersister::default();
    let saved_states = persister.states.clone();
    let (mut controller, backend_state, _) =
        controller_with_mock_backend_and_persister(Box::new(persister));
    let (client, capability_matrix) = runtime_context(true);
    let runtime_context = PlaybackRuntimeContext {
        client: &client,
        capability_matrix: &capability_matrix,
        profile_id: Some("profile-1"),
    };
    controller.set_active_profile_id(Some("profile-1".to_string()));
    controller
        .set_queue(queue_entries(&["song-a"]), Some(0))
        .unwrap();
    controller.play(&runtime_context).unwrap();
    backend_state.lock().unwrap().current_position_ms = 12_345;
    let stop_calls_before = backend_state.lock().unwrap().stop_calls;

    controller.sync_and_persist();

    assert_eq!(
        backend_state.lock().unwrap().stop_calls,
        stop_calls_before + 1
    );
    let saved_states = saved_states.lock().unwrap();
    let saved_state = saved_states.last().unwrap();
    assert_eq!(saved_state.current_position_ms, 12_345);
}

#[test]
fn connect_shared_state_clears_deferred_restore_and_persists() {
    let persister = RecordingPersister::default();
    let saved_states = persister.states.clone();
    let (mut controller, _, _) =
        controller_with_mock_backend_and_persister(Box::new(persister));
    let queue = queue_entries(&["song-a"]);
    let (client, capability_matrix) = runtime_context(false);
    let runtime_context = PlaybackRuntimeContext {
        client: &client,
        capability_matrix: &capability_matrix,
        profile_id: Some("profile-1"),
    };

    controller.defer_state_restore("profile-1".to_string());
    controller
        .apply_connect_shared_state(
            Some(&runtime_context),
            ConnectPlaybackState {
                playing_state: PlayingState::Stopped,
                queue,
                current_index: Some(0),
                play_next_queue_len: 0,
                current_position_ms: 42,
                current_song_id: Some("song-a".to_string()),
            },
            true,
            false,
        )
        .unwrap();

    assert!(controller.is_initialized_for_profile("profile-1"));
    assert!(controller.can_preserve_active_connect_snapshot_for_profile("profile-1"));
    let saved_states = saved_states.lock().unwrap();
    assert_eq!(saved_states.len(), 1);
    assert_eq!(saved_states[0].profile_id, "profile-1");
    assert_eq!(saved_states[0].queue[0].id, "song-a");
    assert_eq!(saved_states[0].current_index, Some(0));
}

#[test]
fn handled_marker_at_the_start_marks_the_error_handled() {
    let error = playback_error_from_load_failure(&format!("{HANDLED_PLAYBACK_ERROR_PREFIX}decoder gone"));
    assert!(error.handled);
    assert_eq!(error.message, "decoder gone");

    let plain = playback_error_from_load_failure("decoder gone");
    assert!(!plain.handled);
    assert_eq!(plain.message, "decoder gone");
}

#[test]
fn notification_buttons_name_next_and_prev_only() {
    assert_eq!(parse_controller_action("next"), Some(ControllerAction::Next));
    assert_eq!(parse_controller_action("prev"), Some(ControllerAction::Prev));
    assert_eq!(parse_controller_action("Next"), None);
    assert_eq!(parse_controller_action("stop"), None);
}

#[test]
fn notification_next_without_a_session_fails_and_keeps_the_state() {
    let (mut controller, _, _) = controller_with_mock_backend(false);
    controller.set_queue(queue_entries(&["song-a", "song-b"]), Some(0)).unwrap();
    let before = controller.state();

    let error = controller
        .execute_controller_action(ControllerAction::Next, None)
        .unwrap_err();

    assert_eq!(error, "No active playback session is available.");
    assert_eq!(controller.state(), before);
    assert!(controller.execute_controller_action(ControllerAction::ProcessNativeEvents, None).is_ok());
}

#[test]
fn notification_next_and_prev_move_through_the_queue() {
    let (mut controller, _, _) = controller_with_mock_backend(false);
    let (client, capability_matrix) = runtime_context(true);
    let runtime_context = PlaybackRuntimeContext {
        client: &client,
        capability_matrix: &capability_matrix,
        profile_id: None,
    };
    controller.set_queue(queue_entries(&["song-a", "song-b"]), Some(0)).unwrap();
    controller.play(&runtime_context).unwrap();

    controller
        .execute_controller_action(ControllerAction::Next, Some(&runtime_context))
        .unwrap();
    let status = controller.state();
    assert_eq!(status.current_index, Some(1));
    assert_eq!(status.current_song_id.as_deref(), Some("song-b"));
    assert_eq!(status.playing_state, PlayingState::Playing);

    let error = controller
        .execute_controller_action(ControllerAction::Next, Some(&runtime_context))
        .unwrap_err();
    assert_eq!(error, "Already at the end of the playback queue.");

    controller
        .execute_controller_action(ControllerAction::Prev, Some(&runtime_context))
        .unwrap();
    assert_eq!(controller.state().current_index, Some(0));
}

#[test]
fn restoring_the_saved_state_gives_back_queue_position_and_play_next_region() {
    let (mut controller, _, _) = controller_with_mock_backend(false);
    controller.set_active_profile_id(Some("profile-1".to_string()));
    controller.set_queue(queue_entries(&["song-a", "song-b", "song-c", "song-d"]), Some(1)).unwrap();
    controller.insert_after_current(queue_entries(&["song-x"])).unwrap();
    let saved = controller.persisted_state_file().expect("a profile is active");
    assert_eq!(saved.play_next_queue_len, 1);

    let (mut restored, _, _) = controller_with_mock_backend(false);
    let status = restored.restore_state(
        saved.profile_id.clone(),
        saved.queue.clone(),
        saved.current_index,
        saved.play_next_queue_len,
        saved.current_position_ms,
    );

    assert_eq!(status.queue, saved.queue);
    assert_eq!(status.current_index, Some(1));
    assert_eq!(status.current_song_id.as_deref(), Some("song-b"));
    assert_eq!(status.play_next_queue_len, 1);
    assert_eq!(status.current_position_ms, saved.current_position_ms);
    assert_eq!(restored.persisted_state_file(), Some(saved));
}
