//! The playback controller: it owns the queue and the playback status, drives the audio
//! backend, and reports every change.
use vstd::prelude::*;
use crate::models::browse::SongResponse;
use crate::models::playback::{
    GaplessState, GaplessStatus, PlaybackActualStreamInfo, PlaybackStatus, PlayingState,
};
use crate::models::session::{CapabilityMatrix, PlaybackCapabilities};
use crate::models::settings::{
    normalize_output_device_id, normalized_output_device_id, PlaybackStreamMode,
    PlaybackTranscodingCodec,
};
use crate::playback::backend::{
    BackendCall, PlaybackBackend, PlaybackBackendLoadRequest, PlaybackLoadStrategy, PlaybackSeekAction,
    PreparedBinaryRequest,
};
use crate::playback::native_events::NativePlaybackEventSource;
use crate::playback::reporting::{PlaybackReporter, QueueSyncGateway};
use crate::playback::server_reporting::{
    PlaybackServerReporter, ServerMediaType, ServerPlaybackReportingContext, ServerPlaybackState,
    ServerPlaybackTrack,
};
use crate::playback_state::{PlaybackStateFile, PlaybackStatePersister, PLAYBACK_STATE_VERSION};
use crate::queue::{current_queue_entry, display_cover_art, display_cover_art_id, status_queue_wf};
use crate::text::{decimal, decimal_text, join2, join3, join5, same_text};

pub mod actions;
pub mod clock;
pub mod events;
pub mod gapless;
pub mod loading;
pub mod queue_ops;
pub mod shared;
pub mod support;
pub mod transport;

use support::{ApiError, RetrievalApi, StreamRequest};

verus! {

/// What a playback call needs of the active session.
pub struct PlaybackRuntimeContext<'a> {
    pub client: &'a dyn RetrievalApi,
    pub capability_matrix: &'a CapabilityMatrix,
    pub profile_id: Option<&'a str>,
}

/// The song whose cover the media notification shows, at its queue position.
#[derive(Debug, Clone, PartialEq, Eq)]
pub struct PlaybackArtworkUpdateTarget {
    pub queue_index: u32,
    pub song_id: String,
    pub cover_art_id: String,
}

/// The queue entry prepared for a gapless transition.
#[derive(Debug, Clone, PartialEq, Eq)]
pub struct GaplessTrackTarget {
    pub queue_index: u32,
    pub song_id: String,
}

impl GaplessTrackTarget {
    /// A copy equal to this target.
    pub fn duplicate(&self) -> (r: Self)
        ensures
            r == *self,
    {
        GaplessTrackTarget { queue_index: self.queue_index, song_id: self.song_id.clone() }
    }
}

/// How far the preparation of the next track has come.
#[derive(Debug, Clone, PartialEq, Eq)]
pub enum PreparedGaplessTrackState {
    Preparing { target: GaplessTrackTarget, generation: u64 },
    Ready { target: GaplessTrackTarget, generation: u64 },
    Failed { target: GaplessTrackTarget, generation: Option<u64> },
}

impl PreparedGaplessTrackState {
    /// The entry being prepared.
    pub open spec fn target_view(self) -> GaplessTrackTarget {
        match self {
            PreparedGaplessTrackState::Preparing { target, .. } => target,
            PreparedGaplessTrackState::Ready { target, .. } => target,
            PreparedGaplessTrackState::Failed { target, .. } => target,
        }
    }

    /// The generation of the backend's preparation, where known.
    pub open spec fn generation_view(self) -> Option<u64> {
        match self {
            PreparedGaplessTrackState::Preparing { generation, .. } => Some(generation),
            PreparedGaplessTrackState::Ready { generation, .. } => Some(generation),
            PreparedGaplessTrackState::Failed { generation, .. } => generation,
        }
    }

    /// The entry being prepared.
    pub fn target(&self) -> (r: &GaplessTrackTarget)
        ensures
            *r == self.target_view(),
    {
        match self {
            PreparedGaplessTrackState::Preparing { target, .. } => target,
            PreparedGaplessTrackState::Ready { target, .. } => target,
            PreparedGaplessTrackState::Failed { target, .. } => target,
        }
    }

    /// The generation of the backend's preparation, where known.
    pub fn generation(&self) -> (r: Option<u64>)
        ensures
            r == self.generation_view(),
    {
        match self {
            PreparedGaplessTrackState::Preparing { generation, .. } => Some(*generation),
            PreparedGaplessTrackState::Ready { generation, .. } => Some(*generation),
            PreparedGaplessTrackState::Failed { generation, .. } => *generation,
        }
    }
}

/// A reload of the current track scheduled after the output stream was lost.
pub struct OutputStreamRecoveryPlan {
    pub message: String,
    pub index: u32,
    pub requested_position_ms: u32,
    pub autoplay: bool,
    pub attempt: u8,
    pub not_before: clock::Instant,
}

/// The fields of two statuses that describe the queue and the transport agree.
pub open spec fn core_eq(a: PlaybackStatus, b: PlaybackStatus) -> bool {
    &&& a.queue@ == b.queue@
    &&& a.current_index == b.current_index
    &&& a.play_next_queue_len == b.play_next_queue_len
    &&& a.current_position_ms == b.current_position_ms
    &&& a.current_song_id == b.current_song_id
    &&& a.playing_state == b.playing_state
    &&& a.playback_error == b.playback_error
    &&& a.interrupt_reason == b.interrupt_reason
    &&& a.pending_seek_position_ms == b.pending_seek_position_ms
}

/// A track is loaded in the backend in this state.
pub open spec fn is_loaded(state: PlayingState) -> bool {
    state == PlayingState::Playing || state == PlayingState::Paused || state
        == PlayingState::Interrupted
}

/// The backend holds an active stream in this state.
pub open spec fn is_active(state: PlayingState) -> bool {
    state == PlayingState::Playing || state == PlayingState::Paused
}

/// `n` records a stop that the backend answered with success.
pub open spec fn stop_succeeded(n: ControllerNotice) -> bool {
    match n {
        ControllerNotice::BackendStopped { answer: Ok(()) } => true,
        _ => false,
    }
}

/// The command to the backend that notice `n` records, where it records one.
pub open spec fn backend_call_of(n: ControllerNotice) -> Option<BackendCall> {
    match n {
        ControllerNotice::StreamLoaded { request, prepare_only, .. } => Some(
            if prepare_only {
                BackendCall::Prepare(request)
            } else {
                BackendCall::Load(request)
            },
        ),
        ControllerNotice::BackendStopped { .. } => Some(BackendCall::Stop),
        ControllerNotice::BackendPaused { .. } => Some(BackendCall::Pause),
        ControllerNotice::BackendResumed { .. } => Some(BackendCall::Resume),
        ControllerNotice::BackendSought { position_ms, .. } => Some(BackendCall::Seek(position_ms)),
        ControllerNotice::BackendDeviceSet { device, .. } => Some(BackendCall::SetOutputDevice(device)),
        ControllerNotice::PreparedCleared => Some(BackendCall::ClearPrepared),
        ControllerNotice::PreparedActivated { autoplay, .. } => Some(
            BackendCall::ActivatePrepared(autoplay),
        ),
        ControllerNotice::ArtworkUpdated { media_id, artwork_path, .. } => Some(
            BackendCall::UpdateArtwork(media_id@, artwork_path),
        ),
        _ => None,
    }
}

/// A backend record `handed` is `base` followed by exactly the commands that the notices
/// `ns` record.
#[verifier::opaque]
pub open spec fn handed_in_step(
    handed: Seq<BackendCall>,
    base: Seq<BackendCall>,
    ns: Seq<ControllerNotice>,
) -> bool {
    handed == base + backend_calls_of(ns)
}

/// The commands to the backend that the notices `ns` record, in order.
pub open spec fn backend_calls_of(ns: Seq<ControllerNotice>) -> Seq<BackendCall>
    decreases ns.len(),
{
    if ns.len() == 0 {
        Seq::empty()
    } else {
        match backend_call_of(ns.last()) {
            Some(call) => backend_calls_of(ns.drop_last()).push(call),
            None => backend_calls_of(ns.drop_last()),
        }
    }
}

/// The label of a gapless target: its one-based position and title.
pub open spec fn gapless_label(q: Seq<SongResponse>, target: GaplessTrackTarget) -> Seq<char> {
    let n = if target.queue_index < u32::MAX {
        target.queue_index + 1
    } else {
        target.queue_index as int
    };
    "(#"@ + decimal(n as nat) + " "@ + (if target.queue_index < q.len() {
        q[target.queue_index as int].title@
    } else {
        target.song_id@
    }) + ")"@
}

/// The entry after the current one, which a gapless transition moves to.
pub open spec fn next_target(st: PlaybackStatus) -> Option<GaplessTrackTarget> {
    match st.current_index {
        Some(c) => if c < u32::MAX && c + 1 < st.queue@.len() {
            Some(GaplessTrackTarget { queue_index: (c + 1) as u32, song_id: st.queue@[c + 1].id })
        } else {
            None
        },
        None => None,
    }
}

/// Two gapless targets name the same queue position and song.
pub open spec fn same_target(a: GaplessTrackTarget, b: GaplessTrackTarget) -> bool {
    a.queue_index == b.queue_index && a.song_id@ == b.song_id@
}

/// The artwork target of a status, as its queue position, song id and cover id: its current
/// entry, where that entry's id is the current song id and it has a cover.
pub open spec fn artwork_view(st: PlaybackStatus) -> Option<(u32, Seq<char>, Seq<char>)> {
    match (st.current_index, st.current_song_id) {
        (Some(i), Some(sid)) => if i < st.queue@.len() && st.queue@[i as int].id@ == sid@
            && display_cover_art(st.queue@[i as int]) is Some {
            Some((i, sid@, display_cover_art(st.queue@[i as int])->0))
        } else {
            None
        },
        _ => None,
    }
}

/// An artwork target as its queue position, song id and cover id.
pub open spec fn target_view(t: PlaybackArtworkUpdateTarget) -> (u32, Seq<char>, Seq<char>) {
    (t.queue_index, t.song_id@, t.cover_art_id@)
}

/// What the controller hands to one of its collaborators, in the order it does so; the
/// contracts speak of these handovers, which the collaborators then act on.
pub enum ControllerNotice {
    /// A status published to the reporter.
    StatusReported(PlaybackStatus),
    /// A status sent to the queue sync service.
    QueueSynced(PlaybackStatus),
    /// A transition handed to the server reporter.
    ServerReported {
        context: ServerPlaybackReportingContext,
        track: ServerPlaybackTrack,
        position_ms: u32,
        state: ServerPlaybackState,
    },
    /// The server reporter told to follow no track.
    ServerCleared,
    /// The waiting backend events taken and dropped.
    EventsDropped,
    /// A playback state handed to the persister.
    StateSaved(PlaybackStateFile),
    /// The backend told to stop, with its answer.
    BackendStopped { answer: Result<(), String> },
    /// The backend told to pause, with its answer.
    BackendPaused { answer: Result<(), String> },
    /// The backend told to resume, with its answer.
    BackendResumed { answer: Result<(), String> },
    /// The backend asked to seek to a position, with its answer.
    BackendSought { position_ms: u32, answer: Result<PlaybackSeekAction, String> },
    /// The backend switched to an output device, with its answer.
    BackendDeviceSet { device: Option<String>, answer: Result<(), String> },
    /// The backend asked for its position, with its answer.
    PositionRead { answer: Result<u32, String> },
    /// The backend asked what it decodes, with its answer.
    StreamInfoRead { answer: Result<Option<PlaybackActualStreamInfo>, String> },
    /// The backend told to drop its prepared stream.
    PreparedCleared,
    /// The backend told to switch to its prepared stream, with its answer.
    PreparedActivated { autoplay: bool, answer: Result<(), String> },
    /// The backend handed a cover for a media item, with its answer.
    ArtworkUpdated { media_id: String, artwork_path: Option<String>, answer: Result<(), String> },
    /// The backend asked how to reach a start position, with its answer.
    LoadPlanned { position_ms: u32, supports_stream_offset: bool, answer: PlaybackLoadStrategy },
    /// The backend asked whether a stream should carry a length estimate, with its answer.
    EstimateAsked { stream_mode: PlaybackStreamMode, raw_stream: bool, answer: bool },
    /// A stream request asked of the server API, with its answer.
    StreamRequested { request: StreamRequest, answer: Result<PreparedBinaryRequest, ApiError> },
    /// A stream handed to the backend to load (or to prepare as the next track), with the
    /// backend's answer: the generation of a preparation.
    StreamLoaded {
        request: PlaybackBackendLoadRequest,
        prepare_only: bool,
        answer: Result<Option<u64>, String>,
    },
}

/// Whether `n` reports `song_id` to the server for a session with these capabilities and
/// profile: at queue position `queue_index`, with a duration of `duration` seconds, at
/// `position_ms` in `state`.
pub open spec fn server_report(
    n: ControllerNotice,
    playback_report: bool,
    profile_id: Seq<char>,
    song_id: Seq<char>,
    media_type: ServerMediaType,
    queue_index: Option<u32>,
    duration: Option<u32>,
    position_ms: u32,
    state: ServerPlaybackState,
) -> bool {
    n matches ControllerNotice::ServerReported { context, track, position_ms: p, state: s } && {
        &&& context.playback_report == playback_report
        &&& context.profile_id@ == profile_id
        &&& track.song_id@ == song_id
        &&& track.media_type == media_type
        &&& track.queue_index == queue_index
        &&& track.duration_ms == match duration {
            Some(d) => Some((d * 1000) as u64),
            None => None,
        }
        &&& p == position_ms
        &&& s == state
    }
}

/// `c` reported the current entry of `b` to the server, at `position_ms` in `state`, where
/// there is a current entry and a profile; otherwise it handed nothing over.
pub open spec fn reported_current(
    c: PlaybackController,
    b: PlaybackController,
    playback_report: bool,
    profile_id: Option<Seq<char>>,
    position_ms: u32,
    state: ServerPlaybackState,
) -> bool {
    match (b.st().current_index, profile_id) {
        (Some(i), Some(p)) => if i < b.st().queue@.len() {
            let e = b.st().queue@[i as int];
            PlaybackController::one_more_notice(c, b) && server_report(
                c.notices().last(),
                playback_report,
                p,
                e.id@,
                server_media_type(e),
                Some(i),
                e.duration,
                position_ms,
                state,
            )
        } else {
            c.notices() == b.notices()
        },
        _ => c.notices() == b.notices(),
    }
}

/// How a song is reported to the server: a podcast episode where its media type says so.
pub open spec fn server_media_type(entry: SongResponse) -> ServerMediaType {
    if entry.media_type matches Some(m) && m@ == "podcast"@ {
        ServerMediaType::Podcast
    } else {
        ServerMediaType::Song
    }
}

/// Drives the audio backend for the queue and reports each change.
pub struct PlaybackController {
    backend: Box<dyn PlaybackBackend>,
    reporter: Box<dyn PlaybackReporter>,
    server_reporter: Box<dyn PlaybackServerReporter>,
    queue_sync: Box<dyn QueueSyncGateway>,
    native_events: Box<dyn NativePlaybackEventSource>,
    persister: Box<dyn PlaybackStatePersister>,
    playback_capabilities: PlaybackCapabilities,
    gapless_playback_enabled: bool,
    stream_mode: PlaybackStreamMode,
    transcoding_max_bit_rate: u32,
    transcoding_codec: PlaybackTranscodingCodec,
    output_device_id: Option<String>,
    output_stream_recovery_attempts: u8,
    pending_output_stream_recovery: Option<OutputStreamRecoveryPlan>,
    prepared_next: Option<PreparedGaplessTrackState>,
    gapless_failure: Option<String>,
    status: PlaybackStatus,
    interrupted_resume_state: Option<PlayingState>,
    active_profile_id: Option<String>,
    restore_state_deferred: bool,
    immediate_output_stream_recovery: bool,
    applied_events: Ghost<nat>,
    notices: Ghost<Seq<ControllerNotice>>,
    backend_base: Ghost<Seq<BackendCall>>,
}

impl PlaybackController {
    /// The status the controller holds.
    pub closed spec fn st(self) -> PlaybackStatus {
        self.status
    }

    /// The profile whose playback state this is.
    pub closed spec fn active_profile(self) -> Option<String> {
        self.active_profile_id
    }

    /// Whether restoring the saved state is put off, so nothing is saved meanwhile.
    pub closed spec fn restore_deferred(self) -> bool {
        self.restore_state_deferred
    }

    /// Whether gapless playback is enabled.
    pub closed spec fn gapless_enabled(self) -> bool {
        self.gapless_playback_enabled
    }

    /// The stream mode of new stream requests.
    pub closed spec fn stream_mode_view(self) -> PlaybackStreamMode {
        self.stream_mode
    }

    /// The bit-rate limit of transcoded streams.
    pub closed spec fn max_bit_rate_view(self) -> u32 {
        self.transcoding_max_bit_rate
    }

    /// The codec asked for transcoded streams.
    pub closed spec fn codec_view(self) -> PlaybackTranscodingCodec {
        self.transcoding_codec
    }

    /// The selected output device.
    pub closed spec fn output_device_view(self) -> Option<String> {
        self.output_device_id
    }

    /// What the backend can do.
    pub closed spec fn capabilities_view(self) -> PlaybackCapabilities {
        self.playback_capabilities
    }

    /// The preparation of the next track for gapless playback.
    pub closed spec fn prepared_view(self) -> Option<PreparedGaplessTrackState> {
        self.prepared_next
    }

    /// How many output stream recoveries were attempted in a row.
    pub closed spec fn recovery_attempts_view(self) -> u8 {
        self.output_stream_recovery_attempts
    }

    /// The scheduled output stream recovery: its message, queue index, position, autoplay
    /// and attempt number.
    pub closed spec fn recovery_plan(self) -> Option<(Seq<char>, u32, u32, bool, u8)> {
        match self.pending_output_stream_recovery {
            Some(p) => Some((p.message@, p.index, p.requested_position_ms, p.autoplay, p.attempt)),
            None => None,
        }
    }

    /// Whether an output stream recovery is scheduled.
    pub open spec fn recovery_pending(self) -> bool {
        self.recovery_plan() is Some
    }

    /// The state playback returns to once an interruption ends.
    pub closed spec fn resume_state_view(self) -> Option<PlayingState> {
        self.interrupted_resume_state
    }

    /// The reason the last preparation of the next track failed.
    pub closed spec fn gapless_failure_view(self) -> Option<String> {
        self.gapless_failure
    }

    /// How many backend events and scheduled recoveries the controller has applied.
    pub closed spec fn events_applied(self) -> nat {
        self.applied_events@
    }

    /// What the controller has handed to its collaborators so far, oldest first.
    pub closed spec fn notices(self) -> Seq<ControllerNotice> {
        self.notices@
    }

    /// The commands the backend holds in its own record.
    pub closed spec fn backend_handed(self) -> Seq<BackendCall> {
        self.backend.handed()
    }

    /// The commands the backend had been handed before this controller took it over.
    pub closed spec fn backend_base(self) -> Seq<BackendCall> {
        self.backend_base@
    }

    /// The backend's own record of commands is what it held when this controller took it
    /// over, followed by exactly the commands that the notices record, in their order.
    pub open spec fn in_step(self) -> bool {
        handed_in_step(self.backend_handed(), self.backend_base(), self.notices())
    }

    /// `c` handed over everything `b` had, and maybe more after it, and its backend stays in
    /// step with what it handed over where `b`'s was.
    pub open spec fn grows(c: Self, b: Self) -> bool {
        &&& b.notices().len() <= c.notices().len()
        &&& forall|i: int| 0 <= i < b.notices().len() ==> #[trigger] c.notices()[i] == b.notices()[i]
        &&& c.backend_base() == b.backend_base()
        &&& b.in_step() ==> c.in_step()
    }

    /// `c` handed exactly one more thing to its collaborators than `b`.
    pub open spec fn one_more_notice(c: Self, b: Self) -> bool {
        &&& c.notices().len() == b.notices().len() + 1
        &&& c.notices().drop_last() == b.notices()
        &&& Self::grows(c, b)
    }

    /// Since `b`, `c` told the backend to stop.
    pub open spec fn stopped_since(c: Self, b: Self) -> bool {
        exists|k: int|
            b.notices().len() <= k < c.notices().len() && #[trigger] c.notices()[k] is BackendStopped
    }

    /// Since `b`, `c` told the backend to stop exactly once, and the backend answered that
    /// stop with success exactly where `ok` holds.
    pub open spec fn stopped_once(c: Self, b: Self, ok: bool) -> bool {
        exists|k: int|
            b.notices().len() <= k < c.notices().len() && #[trigger] c.notices()[k] is BackendStopped
                && (stop_succeeded(c.notices()[k]) <==> ok) && Self::no_stop_between(
                c,
                b.notices().len() as int,
                k,
            ) && Self::no_stop_between(c, k + 1, c.notices().len() as int)
    }

    /// Since `b`, `c` told the backend to stop, and the backend answered that stop with
    /// success exactly where `ok` holds.
    pub open spec fn stop_answered(c: Self, b: Self, ok: bool) -> bool {
        exists|k: int|
            b.notices().len() <= k < c.notices().len() && #[trigger] c.notices()[k] is BackendStopped
                && (stop_succeeded(c.notices()[k]) <==> ok)
    }

    /// `c` records no stop of the backend from notice `from` up to notice `to`.
    pub open spec fn no_stop_between(c: Self, from: int, to: int) -> bool {
        forall|j: int| from <= j < to ==> !(#[trigger] c.notices()[j] is BackendStopped)
    }

    /// A record without a stop from `from` on keeps that once a notice other than a stop, or
    /// none, follows.
    proof fn lemma_no_stop_kept(c: Self, b: Self, from: int)
        requires
            0 <= from,
            Self::no_stop_between(b, from, b.notices().len() as int),
            c.notices() == b.notices() || (Self::one_more_notice(c, b) && !(c.notices().last() is BackendStopped)),
        ensures
            Self::no_stop_between(c, from, c.notices().len() as int),
    {
        assert forall|j: int| from <= j < c.notices().len() implies !(#[trigger] c.notices()[j] is BackendStopped) by {
            if j < b.notices().len() {
                if c.notices() != b.notices() {
                    assert(Self::grows(c, b));
                }
                assert(c.notices()[j] == b.notices()[j]);
            }
        }
    }

    /// Since `b`, `c` saved the playback state exactly once, and what it saved is the state it
    /// holds: its profile, queue, current entry, play-next length and position.
    pub open spec fn saved_once(c: Self, b: Self) -> bool {
        exists|m: int|
            b.notices().len() <= m < c.notices().len() && (#[trigger] c.notices()[m] matches ControllerNotice::StateSaved(f)
                && c.saved_state(f)) && Self::no_save_between(c, b.notices().len() as int, m) && Self::no_save_between(
                c,
                m + 1,
                c.notices().len() as int,
            )
    }

    /// `c` records no saved state from notice `from` up to notice `to`.
    pub open spec fn no_save_between(c: Self, from: int, to: int) -> bool {
        forall|j: int| from <= j < to ==> !(#[trigger] c.notices()[j] is StateSaved)
    }

    /// Since `b`, `c` neither stopped the backend nor saved the state.
    pub open spec fn calm_since(c: Self, b: Self) -> bool {
        &&& Self::grows(c, b)
        &&& Self::no_stop_between(c, b.notices().len() as int, c.notices().len() as int)
        &&& Self::no_save_between(c, b.notices().len() as int, c.notices().len() as int)
    }

    /// One more notice, and the backend handed exactly the command it records, if any: the
    /// backend stays in step with the notices.
    proof fn lemma_in_step_push(c: Self, b: Self)
        requires
            c.notices().len() == b.notices().len() + 1,
            c.notices().drop_last() == b.notices(),
            c.backend_base() == b.backend_base(),
            c.backend_handed() == match backend_call_of(c.notices().last()) {
                Some(x) => b.backend_handed().push(x),
                None => b.backend_handed(),
            },
        ensures
            b.in_step() ==> c.in_step(),
    {
        reveal(handed_in_step);
        if b.in_step() {
            let base = b.backend_base();
            let calls = backend_calls_of(b.notices());
            assert(backend_calls_of(c.notices()) == match backend_call_of(c.notices().last()) {
                Some(x) => calls.push(x),
                None => calls,
            });
            match backend_call_of(c.notices().last()) {
                Some(x) => {
                    assert((base + calls).push(x) =~= base + calls.push(x));
                },
                None => {},
            }
        }
    }

    /// Handing over nothing, or one notice that is neither a stop nor a saved state, is calm.
    proof fn lemma_calm_step(c: Self, b: Self)
        requires
            Self::grows(c, b),
            c.notices() == b.notices() || (Self::one_more_notice(c, b) && !(c.notices().last() is BackendStopped)
                && !(c.notices().last() is StateSaved)),
        ensures
            Self::calm_since(c, b),
    {
    }

    /// Two calm stretches make a calm one.
    proof fn lemma_calm_chain(c: Self, m: Self, b: Self)
        requires
            Self::calm_since(m, b),
            Self::calm_since(c, m),
        ensures
            Self::calm_since(c, b),
    {
        assert forall|j: int| b.notices().len() <= j < c.notices().len() implies !(#[trigger] c.notices()[j] is BackendStopped)
            && !(c.notices()[j] is StateSaved) by {
            if j < m.notices().len() {
                assert(c.notices()[j] == m.notices()[j]);
            }
        }
    }

    /// What `v1` saved after `v0` is still the state of a later `c` that holds the same
    /// profile, queue, current entry, play-next length and position.
    proof fn lemma_saved_state_kept(c: Self, v0: Self, v1: Self)
        requires
            v1.notices() == v0.notices() || (Self::one_more_notice(v1, v0) && (v1.notices().last() matches ControllerNotice::StateSaved(f)
                && v0.saved_state(f))),
            c.active_profile() == v0.active_profile(),
            c.st().queue@ == v0.st().queue@,
            c.st().current_index == v0.st().current_index,
            c.st().play_next_queue_len == v0.st().play_next_queue_len,
            c.st().current_position_ms == v0.st().current_position_ms,
        ensures
            v1.notices() == v0.notices() || (Self::one_more_notice(v1, v0) && (v1.notices().last() matches ControllerNotice::StateSaved(f)
                && c.saved_state(f))),
    {
    }

    /// A calm stretch, one stop, a calm stretch, a save or nothing, a calm stretch and a
    /// last step that hands over nothing, ending in a state with the saved profile, queue,
    /// current entry, play-next length and position: one stop, answered as that stop was,
    /// and one save of that state where there was one.
    proof fn lemma_shown_handover(c: Self, p: Self, b: Self, s0: Self, s1: Self, v0: Self, v1: Self)
        requires
            Self::grows(c, p),
            c.notices() == p.notices(),
            Self::calm_since(p, v1),
            Self::calm_since(s0, b),
            Self::one_more_notice(s1, s0),
            s1.notices().last() is BackendStopped,
            Self::calm_since(v0, s1),
            v1.notices() == v0.notices() || (Self::one_more_notice(v1, v0) && (v1.notices().last() matches ControllerNotice::StateSaved(f)
                && v0.saved_state(f))),
            c.active_profile() == v0.active_profile(),
            c.st().queue@ == v0.st().queue@,
            c.st().current_index == v0.st().current_index,
            c.st().play_next_queue_len == v0.st().play_next_queue_len,
            c.st().current_position_ms == v0.st().current_position_ms,
        ensures
            Self::stopped_once(c, b, stop_succeeded(s1.notices().last())),
            v1.notices() != v0.notices() ==> Self::saved_once(c, b),
    {
        Self::lemma_calm_step(c, p);
        Self::lemma_calm_chain(c, p, v1);
        Self::lemma_saved_state_kept(c, v0, v1);
        Self::lemma_stop_then_save(c, b, s0, s1, v0, v1);
    }

    /// A calm stretch, one stop, and no stop after it: one stop, answered as that stop was.
    proof fn lemma_stopped_once(c: Self, b: Self, s0: Self, s1: Self)
        requires
            Self::calm_since(s0, b),
            Self::one_more_notice(s1, s0),
            s1.notices().last() is BackendStopped,
            Self::grows(c, s1),
            Self::no_stop_between(c, s1.notices().len() as int, c.notices().len() as int),
        ensures
            Self::stopped_once(c, b, stop_succeeded(s1.notices().last())),
    {
        let k = s0.notices().len() as int;
        let n = b.notices().len() as int;
        assert(c.notices()[k] == s1.notices()[k]);
        assert(Self::no_stop_between(c, n, k)) by {
            assert forall|j: int| n <= j < k implies !(#[trigger] c.notices()[j] is BackendStopped) by {
                assert(c.notices()[j] == s1.notices()[j]);
                assert(s1.notices()[j] == s0.notices()[j]);
            }
        }
    }

    /// A calm stretch, one stop, a calm stretch, a save or nothing, and a calm stretch: one
    /// stop, answered as that stop was, and one save where there was one.
    proof fn lemma_stop_then_save(c: Self, b: Self, s0: Self, s1: Self, v0: Self, v1: Self)
        requires
            Self::calm_since(s0, b),
            Self::one_more_notice(s1, s0),
            s1.notices().last() is BackendStopped,
            Self::calm_since(v0, s1),
            v1.notices() == v0.notices() || (Self::one_more_notice(v1, v0) && (v1.notices().last() matches ControllerNotice::StateSaved(f)
                && c.saved_state(f))),
            Self::calm_since(c, v1),
        ensures
            Self::stopped_once(c, b, stop_succeeded(s1.notices().last())),
            v1.notices() != v0.notices() ==> Self::saved_once(c, b),
    {
        let k = s0.notices().len() as int;
        let m = v0.notices().len() as int;
        let n = b.notices().len() as int;
        assert(c.notices()[k] == s1.notices()[k]) by {
            assert(v0.notices()[k] == s1.notices()[k]);
            assert(v1.notices()[k] == v0.notices()[k]);
        }
        assert(Self::no_stop_between(c, n, k)) by {
            assert forall|j: int| n <= j < k implies !(#[trigger] c.notices()[j] is BackendStopped) by {
                assert(v0.notices()[j] == s1.notices()[j]);
                assert(v1.notices()[j] == v0.notices()[j]);
                assert(s1.notices()[j] == s0.notices()[j]);
            }
        }
        assert(Self::no_stop_between(c, k + 1, c.notices().len() as int)) by {
            assert forall|j: int| k + 1 <= j < c.notices().len() implies !(#[trigger] c.notices()[j] is BackendStopped) by {
                if j < v1.notices().len() {
                    assert(v1.notices()[j] == c.notices()[j]);
                    if j < m {
                        assert(v1.notices()[j] == v0.notices()[j]);
                    }
                }
            }
        }
        if v1.notices() != v0.notices() {
            assert(c.notices()[m] == v1.notices()[m]);
            assert(Self::no_save_between(c, n, m)) by {
                assert forall|j: int| n <= j < m implies !(#[trigger] c.notices()[j] is StateSaved) by {
                    assert(v1.notices()[j] == v0.notices()[j]);
                    assert(c.notices()[j] == v1.notices()[j]);
                    if j < k {
                        assert(v0.notices()[j] == s1.notices()[j]);
                        assert(s1.notices()[j] == s0.notices()[j]);
                    } else if j > k {
                    } else {
                        assert(v0.notices()[j] == s1.notices()[j]);
                    }
                }
            }
            assert(Self::saved_once(c, b));
        }
    }

    /// Whether scheduled output stream recoveries are due at once.
    pub closed spec fn immediate_recovery(self) -> bool {
        self.immediate_output_stream_recovery
    }

    /// The gapless state the status shows: unavailable without backend support, off when
    /// disabled, else how far the preparation of the next track has come.
    pub open spec fn expected_gapless_state(self) -> GaplessState {
        if !self.capabilities_view().gapless_playback {
            GaplessState::Unavailable
        } else if !self.gapless_enabled() {
            GaplessState::Off
        } else {
            match self.prepared_view() {
                Some(PreparedGaplessTrackState::Preparing { .. }) => GaplessState::Preparing,
                Some(PreparedGaplessTrackState::Ready { .. }) => GaplessState::Ready,
                Some(PreparedGaplessTrackState::Failed { .. }) => GaplessState::Failed,
                None => GaplessState::Idle,
            }
        }
    }

    /// The controller's invariant: the queue invariant of its status.
    pub closed spec fn wf(self) -> bool {
        &&& status_queue_wf(self.status)
        &&& self.status.current_song_id == crate::queue::song_id_at(self.status.queue@, self.status.current_index)
    }

    /// A well-formed controller's current entry lies in its queue, and its current song id
    /// is the id of that entry (none without a current entry).
    pub proof fn law_current_song_id_names_current_entry(c: Self)
        requires
            c.wf(),
        ensures
            status_queue_wf(c.st()),
            c.st().current_song_id == crate::queue::song_id_at(c.st().queue@, c.st().current_index),
    {
    }

    /// The settings and session fields of `a` and `b` agree.
    pub open spec fn same_config(a: Self, b: Self) -> bool {
        &&& a.active_profile() == b.active_profile()
        &&& a.restore_deferred() == b.restore_deferred()
        &&& a.gapless_enabled() == b.gapless_enabled()
        &&& a.stream_mode_view() == b.stream_mode_view()
        &&& a.max_bit_rate_view() == b.max_bit_rate_view()
        &&& a.codec_view() == b.codec_view()
        &&& a.output_device_view() == b.output_device_view()
        &&& a.capabilities_view() == b.capabilities_view()
    }

    /// The settings and the session of `a` and `b` agree, but for whether restoring the saved
    /// state is put off.
    pub open spec fn same_session_settings(a: Self, b: Self) -> bool {
        &&& a.active_profile() == b.active_profile()
        &&& a.gapless_enabled() == b.gapless_enabled()
        &&& a.stream_mode_view() == b.stream_mode_view()
        &&& a.max_bit_rate_view() == b.max_bit_rate_view()
        &&& a.codec_view() == b.codec_view()
        &&& a.output_device_view() == b.output_device_view()
        &&& a.capabilities_view() == b.capabilities_view()
    }

    /// Every field but the status and the count of applied events agrees between `a` and `b`.
    pub open spec fn same_state(a: Self, b: Self) -> bool {
        &&& Self::same_config(a, b)
        &&& a.prepared_view() == b.prepared_view()
        &&& a.gapless_failure_view() == b.gapless_failure_view()
        &&& a.resume_state_view() == b.resume_state_view()
        &&& a.recovery_attempts_view() == b.recovery_attempts_view()
        &&& a.recovery_plan() == b.recovery_plan()
    }

    /// Every field but the status agrees between `a` and `b`.
    pub open spec fn same_aux(a: Self, b: Self) -> bool {
        &&& Self::same_state(a, b)
        &&& a.events_applied() == b.events_applied()
    }

    /// The queue, transport, settings and recovery state agree between `a` and `b`; only the
    /// gapless preparation, the stream information and the count of applied events may
    /// differ.
    pub open spec fn kept_state(a: Self, b: Self) -> bool {
        &&& core_eq(a.st(), b.st())
        &&& Self::same_config(a, b)
        &&& a.resume_state_view() == b.resume_state_view()
        &&& a.recovery_attempts_view() == b.recovery_attempts_view()
        &&& a.recovery_plan() == b.recovery_plan()
        &&& a.st().actual_stream_info == b.st().actual_stream_info
    }

    /// As [`Self::kept_state`], with the same count of applied events.
    pub open spec fn kept(a: Self, b: Self) -> bool {
        &&& Self::kept_state(a, b)
        &&& a.events_applied() == b.events_applied()
    }

    /// A controller over a backend and the sinks of its reports, with an empty queue. The
    /// backend is switched to the normalized initial output device; a failure there is only
    /// logged. The application sets the initial volume on the backend beforehand.
    pub fn new(
        mut backend: Box<dyn PlaybackBackend>,
        reporter: Box<dyn PlaybackReporter>,
        server_reporter: Box<dyn PlaybackServerReporter>,
        queue_sync: Box<dyn QueueSyncGateway>,
        native_events: Box<dyn NativePlaybackEventSource>,
        persister: Box<dyn PlaybackStatePersister>,
        gapless_playback_enabled: bool,
        initial_output_device_id: Option<String>,
    ) -> (c: Self)
        ensures
            c.wf(),
            c.st().playing_state == PlayingState::Idle,
            c.st().queue@.len() == 0,
            c.st().current_index is None,
            c.st().play_next_queue_len == 0,
            c.st().current_position_ms == 0,
            c.st().current_song_id is None,
            c.st().playback_error is None,
            c.active_profile() is None,
            !c.restore_deferred(),
            c.gapless_enabled() == gapless_playback_enabled,
            c.stream_mode_view() == PlaybackStreamMode::Raw,
            c.max_bit_rate_view() == 320,
            c.codec_view() == PlaybackTranscodingCodec::Mp3,
            match c.output_device_view() {
                Some(d) => normalized_output_device_id(initial_output_device_id) == Some(d@),
                None => normalized_output_device_id(initial_output_device_id) is None,
            },
            c.prepared_view() is None,
            c.recovery_attempts_view() == 0,
            !c.recovery_pending(),
            c.resume_state_view() is None,
            c.notices().len() == 1,
            c.notices()[0] matches ControllerNotice::BackendDeviceSet { device, .. } && loading::opt_chars(device)
                == normalized_output_device_id(initial_output_device_id),
            !c.immediate_recovery(),
            c.in_step(),
    {
        let playback_capabilities = backend.capabilities();
        let output_device_id = normalize_output_device_id(initial_output_device_id);
        let initial_device = crate::models::values::copy_opt_string(&output_device_id);
        let mut controller = PlaybackController {
            backend,
            reporter,
            server_reporter,
            queue_sync,
            native_events,
            persister,
            playback_capabilities,
            gapless_playback_enabled,
            stream_mode: PlaybackStreamMode::Raw,
            transcoding_max_bit_rate: 320,
            transcoding_codec: PlaybackTranscodingCodec::Mp3,
            output_device_id,
            output_stream_recovery_attempts: 0,
            pending_output_stream_recovery: None,
            prepared_next: None,
            gapless_failure: None,
            status: PlaybackStatus::empty(),
            interrupted_resume_state: None,
            active_profile_id: None,
            restore_state_deferred: false,
            immediate_output_stream_recovery: false,
            applied_events: Ghost(0),
            notices: Ghost(Seq::empty()),
            backend_base: Ghost(Seq::empty()),
        };
        controller.backend_base = Ghost(controller.backend_handed());
        assert(controller.in_step()) by {
            reveal(handed_in_step);
            let handed = controller.backend_handed();
            assert(backend_calls_of(controller.notices()) =~= Seq::<BackendCall>::empty());
            assert(handed + Seq::<BackendCall>::empty() =~= handed);
        }
        let _ = controller.backend_set_output_device(initial_device);
        controller
    }

    /// Makes scheduled output stream recoveries due at once instead of after a growing delay,
    /// for a host that drives event processing by hand.
    pub fn set_immediate_output_stream_recovery(&mut self, immediate: bool)
        ensures
            Self::grows(*final(self), *old(self)),
            final(self).immediate_recovery() == immediate,
            final(self).notices() == old(self).notices(),
            final(self).st() == old(self).st(),
            Self::same_aux(*final(self), *old(self)),
            old(self).wf() ==> final(self).wf(),
    {
        self.immediate_output_stream_recovery = immediate;
    }

    /// Whether the controller holds the restored state of `profile_id`.
    pub fn is_initialized_for_profile(&self, profile_id: &str) -> (r: bool)
        ensures
            r == (self.active_profile() matches Some(p) && p@ == profile_id@ && !self.restore_deferred()),
    {
        match &self.active_profile_id {
            Some(p) => same_text(p.as_str(), profile_id) && !self.restore_state_deferred,
            None => false,
        }
    }

    /// Whether a Connect snapshot may be kept for `profile_id`: its state is restored and
    /// something is queued.
    pub fn can_preserve_active_connect_snapshot_for_profile(&self, profile_id: &str) -> (r: bool)
        ensures
            r == (self.active_profile() matches Some(p) && p@ == profile_id@ && !self.restore_deferred()
                && self.st().queue@.len() > 0),
    {
        self.is_initialized_for_profile(profile_id) && self.status.queue.len() > 0
    }

    /// What the backend can do.
    pub fn capabilities(&self) -> (r: PlaybackCapabilities)
        ensures
            r.gapless_playback == self.capabilities_view().gapless_playback,
    {
        PlaybackCapabilities {
            gapless_playback: self.playback_capabilities.gapless_playback,
            transcoding_codecs: self.copy_codecs(),
        }
    }

    fn copy_codecs(&self) -> (r: Vec<PlaybackTranscodingCodec>)
        ensures
            r@ == self.playback_capabilities.transcoding_codecs@,
    {
        let v = &self.playback_capabilities.transcoding_codecs;
        let mut out: Vec<PlaybackTranscodingCodec> = Vec::new();
        let mut i: usize = 0;
        while i < v.len()
            invariant
                i <= v@.len(),
                out@ == v@.subrange(0, i as int),
            decreases v@.len() - i,
        {
            out.push(v[i]);
            i = i + 1;
            assert(out@ =~= v@.subrange(0, i as int));
        }
        assert(v@.subrange(0, v@.len() as int) =~= v@);
        out
    }

    /// The status, with the gapless status brought up to date.
    pub fn state(&mut self) -> (r: PlaybackStatus)
        ensures
            Self::grows(*final(self), *old(self)),
            core_eq(r, final(self).st()),
            r.same_as(final(self).st()),
            core_eq(final(self).st(), old(self).st()),
            final(self).st() == (PlaybackStatus {
                gapless_status: final(self).st().gapless_status,
                ..old(self).st()
            }),
            Self::same_config(*final(self), *old(self)),
            final(self).prepared_view() == old(self).prepared_view(),
            final(self).events_applied() == old(self).events_applied(),
            final(self).resume_state_view() == old(self).resume_state_view(),
            final(self).recovery_attempts_view() == old(self).recovery_attempts_view(),
            final(self).recovery_plan() == old(self).recovery_plan(),
            final(self).notices() == old(self).notices(),
            old(self).wf() ==> final(self).wf(),
    {
        self.update_gapless_status();
        self.status.duplicate()
    }

    /// The song whose cover the media notification shows: the current entry, where its id
    /// is the current song id and it has a cover.
    pub fn current_artwork_update_target(&self) -> (r: Option<PlaybackArtworkUpdateTarget>)
        ensures
            match r {
                Some(t) => artwork_view(self.st()) == Some(target_view(t)),
                None => artwork_view(self.st()) is None,
            },
    {
        let queue_index = match self.status.current_index {
            Some(i) => i,
            None => {
                return None;
            },
        };
        let entry = match current_queue_entry(&self.status.queue, Some(queue_index)) {
            Some(e) => e,
            None => {
                return None;
            },
        };
        let song_id = match &self.status.current_song_id {
            Some(s) => s,
            None => {
                return None;
            },
        };
        if !same_text(entry.id.as_str(), song_id.as_str()) {
            return None;
        }
        match display_cover_art_id(entry) {
            Some(cover_art_id) => Some(
                PlaybackArtworkUpdateTarget { queue_index, song_id: song_id.clone(), cover_art_id },
            ),
            None => None,
        }
    }

    /// Hands the downloaded cover of `target` to the backend, where `target` is still the
    /// current artwork target: `true` when it was handed over.
    pub fn update_artwork_if_current(
        &mut self,
        target: &PlaybackArtworkUpdateTarget,
        artwork_path: String,
    ) -> (r: Result<bool, String>)
        ensures
            Self::grows(*final(self), *old(self)),
            final(self).st() == old(self).st(),
            Self::same_aux(*final(self), *old(self)),
            artwork_view(old(self).st()) != Some(target_view(*target)) ==> r == Ok::<bool, String>(
                false,
            ),
            r == Ok::<bool, String>(true) ==> artwork_view(old(self).st()) == Some(target_view(*target)),
            artwork_view(old(self).st()) == Some(target_view(*target)) ==> r != Ok::<bool, String>(
                false,
            ),
            artwork_view(old(self).st()) == Some(target_view(*target)) ==> Self::one_more_notice(
                *final(self),
                *old(self),
            ) && (final(self).notices().last() matches ControllerNotice::ArtworkUpdated {
                media_id,
                artwork_path: path,
                answer,
            } && media_id@ == target.song_id@ && path == Some(artwork_path) && (answer is Ok <==> r is Ok)),
            artwork_view(old(self).st()) != Some(target_view(*target)) ==> final(self).notices()
                == old(self).notices(),
    {
        let current_target = match self.current_artwork_update_target() {
            Some(t) => t,
            None => {
                return Ok(false);
            },
        };
        if !(current_target.queue_index == target.queue_index && same_text(
            current_target.song_id.as_str(),
            target.song_id.as_str(),
        ) && same_text(current_target.cover_art_id.as_str(), target.cover_art_id.as_str())) {
            return Ok(false);
        }
        match self.backend_update_artwork(target.song_id.as_str(), Some(artwork_path)) {
            Ok(()) => Ok(true),
            Err(e) => Err(e),
        }
    }

    /// Whether the backend can prepare the next track.
    fn supports_gapless_playback(&self) -> (r: bool)
        ensures
            r == self.playback_capabilities.gapless_playback,
    {
        self.playback_capabilities.gapless_playback
    }

    /// Whether a next track may be prepared now: a track is active.
    fn can_prepare_gapless_from_current_state(&self) -> (r: bool)
        ensures
            r == is_active(self.status.playing_state),
    {
        self.status.playing_state == PlayingState::Playing || self.status.playing_state
            == PlayingState::Paused
    }

    /// The entry after the current one, the one a gapless transition would move to.
    fn current_gapless_target(&self) -> (r: Option<GaplessTrackTarget>)
        ensures
            r == next_target(self.status),
    {
        let current_index = match self.status.current_index {
            Some(c) => c,
            None => return None,
        };
        if current_index == u32::MAX {
            return None;
        }
        let next_index = current_index + 1;
        match current_queue_entry(&self.status.queue, Some(next_index)) {
            Some(entry) => Some(GaplessTrackTarget { queue_index: next_index, song_id: entry.id.clone() }),
            None => None,
        }
    }

    /// The label of a gapless target for the status message.
    fn gapless_target_label(&self, target: &GaplessTrackTarget) -> (r: String)
        ensures
            r@ == gapless_label(self.status.queue@, *target),
    {
        let n: u64 = if target.queue_index < u32::MAX {
            target.queue_index as u64 + 1
        } else {
            target.queue_index as u64
        };
        let number = decimal_text(n);
        let name = match current_queue_entry(&self.status.queue, Some(target.queue_index)) {
            Some(entry) => entry.title.clone(),
            None => target.song_id.clone(),
        };
        let mut s = join3("(#", number.as_str(), " ");
        s.append(name.as_str());
        s.append(")");
        s
    }

    /// Brings the gapless status in line with the controller's state.
    fn update_gapless_status(&mut self)
        ensures
            Self::grows(*final(self), *old(self)),
            core_eq(final(self).st(), old(self).st()),
            final(self).status == (PlaybackStatus {
                gapless_status: final(self).status.gapless_status,
                ..old(self).status
            }),
            final(self).st().active_stream_info == old(self).st().active_stream_info,
            final(self).st().prepared_stream_info == old(self).st().prepared_stream_info,
            final(self).st().last_stream_request == old(self).st().last_stream_request,
            final(self).st().actual_stream_info == old(self).st().actual_stream_info,
            Self::same_config(*final(self), *old(self)),
            final(self).prepared_view() == old(self).prepared_view(),
            final(self).gapless_failure_view() == old(self).gapless_failure_view(),
            final(self).resume_state_view() == old(self).resume_state_view(),
            final(self).recovery_attempts_view() == old(self).recovery_attempts_view(),
            final(self).recovery_plan() == old(self).recovery_plan(),
            final(self).events_applied() == old(self).events_applied(),
            final(self).st().gapless_status.state == old(self).expected_gapless_state(),
            final(self).notices() == old(self).notices(),
    {
        let status = if !self.supports_gapless_playback() {
            GaplessStatus {
                state: GaplessState::Unavailable,
                message: String::from_str("gapless: unavailable"),
            }
        } else if !self.gapless_playback_enabled {
            GaplessStatus { state: GaplessState::Off, message: String::from_str("gapless: off") }
        } else {
            match &self.prepared_next {
                Some(PreparedGaplessTrackState::Preparing { target, .. }) => {
                    let label = self.gapless_target_label(target);
                    GaplessStatus {
                        state: GaplessState::Preparing,
                        message: join2("gapless: preparing ", label.as_str()),
                    }
                },
                Some(PreparedGaplessTrackState::Ready { target, .. }) => {
                    let label = self.gapless_target_label(target);
                    GaplessStatus {
                        state: GaplessState::Ready,
                        message: join2("gapless: ready ", label.as_str()),
                    }
                },
                Some(PreparedGaplessTrackState::Failed { target, .. }) => {
                    let label = self.gapless_target_label(target);
                    let reason = match &self.gapless_failure {
                        Some(r) => r.clone(),
                        None => String::from_str("unknown error"),
                    };
                    GaplessStatus {
                        state: GaplessState::Failed,
                        message: join5(
                            "gapless: failed ",
                            label.as_str(),
                            " (",
                            reason.as_str(),
                            ")",
                        ),
                    }
                },
                None => {
                    if !self.can_prepare_gapless_from_current_state() {
                        GaplessStatus {
                            state: GaplessState::Idle,
                            message: String::from_str("gapless: idle (waiting for playback)"),
                        }
                    } else {
                        match self.current_gapless_target() {
                            Some(target) => {
                                let label = self.gapless_target_label(&target);
                                GaplessStatus {
                                    state: GaplessState::Idle,
                                    message: join2("gapless: idle ", label.as_str()),
                                }
                            },
                            None => GaplessStatus {
                                state: GaplessState::Idle,
                                message: String::from_str("gapless: idle (no next track)"),
                            },
                        }
                    }
                },
            }
        };
        self.status.gapless_status = status;
    }

    /// Publishes the status to the reporter.
    fn report_status(&mut self)
        ensures
            Self::grows(*final(self), *old(self)),
            core_eq(final(self).st(), old(self).st()),
            final(self).status == (PlaybackStatus {
                gapless_status: final(self).status.gapless_status,
                ..old(self).status
            }),
            final(self).st().active_stream_info == old(self).st().active_stream_info,
            final(self).st().prepared_stream_info == old(self).st().prepared_stream_info,
            final(self).st().last_stream_request == old(self).st().last_stream_request,
            final(self).st().actual_stream_info == old(self).st().actual_stream_info,
            Self::same_config(*final(self), *old(self)),
            final(self).prepared_view() == old(self).prepared_view(),
            final(self).gapless_failure_view() == old(self).gapless_failure_view(),
            final(self).resume_state_view() == old(self).resume_state_view(),
            final(self).recovery_attempts_view() == old(self).recovery_attempts_view(),
            final(self).recovery_plan() == old(self).recovery_plan(),
            final(self).events_applied() == old(self).events_applied(),
            final(self).st().gapless_status.state == old(self).expected_gapless_state(),
            Self::one_more_notice(*final(self), *old(self)),
            final(self).notices().last() == ControllerNotice::StatusReported(final(self).st()),
    {
        self.update_gapless_status();
        let ghost pre = *self;
        let _ = self.reporter.report_state(&self.status);
        self.notices = Ghost(self.notices@.push(ControllerNotice::StatusReported(self.status)));
        assert(self.notices@.drop_last() =~= old(self).notices@);
        proof { Self::lemma_in_step_push(*self, pre); }
    }

    /// Sends the queue to the queue sync service.
    fn sync_queue_state(&mut self)
        ensures
            Self::grows(*final(self), *old(self)),
            final(self).st() == old(self).st(),
            Self::same_config(*final(self), *old(self)),
            final(self).prepared_view() == old(self).prepared_view(),
            final(self).gapless_failure_view() == old(self).gapless_failure_view(),
            final(self).resume_state_view() == old(self).resume_state_view(),
            final(self).recovery_attempts_view() == old(self).recovery_attempts_view(),
            final(self).recovery_plan() == old(self).recovery_plan(),
            final(self).events_applied() == old(self).events_applied(),
            Self::one_more_notice(*final(self), *old(self)),
            final(self).notices().last() == ControllerNotice::QueueSynced(old(self).st()),
    {
        let _ = self.queue_sync.sync_queue(&self.status);
        self.notices = Ghost(self.notices@.push(ControllerNotice::QueueSynced(self.status)));
        assert(self.notices@.drop_last() =~= old(self).notices@);
        proof { Self::lemma_in_step_push(*self, *old(self)); }
    }

    /// Tells the server reporter that no track is followed any more.
    fn clear_server_reporting(&mut self)
        ensures
            Self::grows(*final(self), *old(self)),
            final(self).st() == old(self).st(),
            Self::same_config(*final(self), *old(self)),
            final(self).prepared_view() == old(self).prepared_view(),
            final(self).gapless_failure_view() == old(self).gapless_failure_view(),
            final(self).resume_state_view() == old(self).resume_state_view(),
            final(self).recovery_attempts_view() == old(self).recovery_attempts_view(),
            final(self).recovery_plan() == old(self).recovery_plan(),
            final(self).events_applied() == old(self).events_applied(),
            Self::one_more_notice(*final(self), *old(self)),
            final(self).notices().last() == ControllerNotice::ServerCleared,
    {
        self.server_reporter.clear();
        self.notices = Ghost(self.notices@.push(ControllerNotice::ServerCleared));
        assert(self.notices@.drop_last() =~= old(self).notices@);
        proof { Self::lemma_in_step_push(*self, *old(self)); }
    }

    /// Drops the backend events waiting to be processed.
    fn clear_native_events(&mut self)
        ensures
            Self::grows(*final(self), *old(self)),
            final(self).st() == old(self).st(),
            Self::same_config(*final(self), *old(self)),
            final(self).prepared_view() == old(self).prepared_view(),
            final(self).gapless_failure_view() == old(self).gapless_failure_view(),
            final(self).resume_state_view() == old(self).resume_state_view(),
            final(self).recovery_attempts_view() == old(self).recovery_attempts_view(),
            final(self).recovery_plan() == old(self).recovery_plan(),
            final(self).events_applied() == old(self).events_applied(),
            Self::one_more_notice(*final(self), *old(self)),
            final(self).notices().last() == ControllerNotice::EventsDropped,
    {
        let _ = self.native_events.drain_events();
        self.notices = Ghost(self.notices@.push(ControllerNotice::EventsDropped));
        assert(self.notices@.drop_last() =~= old(self).notices@);
        proof { Self::lemma_in_step_push(*self, *old(self)); }
    }

    /// Drops the prepared next track, in the backend too where one may be there.
    pub fn clear_gapless_preparation(&mut self)
        ensures
            Self::grows(*final(self), *old(self)),
            core_eq(final(self).st(), old(self).st()),
            final(self).st() == (PlaybackStatus {
                gapless_status: final(self).st().gapless_status,
                prepared_stream_info: None,
                ..old(self).st()
            }),
            final(self).st().prepared_stream_info is None,
            final(self).st().active_stream_info == old(self).st().active_stream_info,
            final(self).st().last_stream_request == old(self).st().last_stream_request,
            final(self).st().actual_stream_info == old(self).st().actual_stream_info,
            Self::same_config(*final(self), *old(self)),
            final(self).prepared_view() is None,
            final(self).gapless_failure_view() is None,
            final(self).resume_state_view() == old(self).resume_state_view(),
            final(self).recovery_attempts_view() == old(self).recovery_attempts_view(),
            final(self).recovery_plan() == old(self).recovery_plan(),
            final(self).events_applied() == old(self).events_applied(),
            final(self).notices() == old(self).notices() || (Self::one_more_notice(
                *final(self),
                *old(self),
            ) && final(self).notices().last() == ControllerNotice::PreparedCleared),
            old(self).wf() ==> final(self).wf(),
    {
        if self.prepared_next.is_some() || self.status.prepared_stream_info.is_some() {
            self.backend_clear_prepared();
        }
        self.prepared_next = None;
        self.status.prepared_stream_info = None;
        self.gapless_failure = None;
        self.update_gapless_status();
    }

    /// Forgets the output stream recovery attempts.
    fn reset_output_stream_recovery_attempts(&mut self)
        ensures
            Self::grows(*final(self), *old(self)),
            final(self).st() == old(self).st(),
            Self::same_config(*final(self), *old(self)),
            final(self).prepared_view() == old(self).prepared_view(),
            final(self).gapless_failure_view() == old(self).gapless_failure_view(),
            final(self).resume_state_view() == old(self).resume_state_view(),
            final(self).recovery_attempts_view() == 0,
            !final(self).recovery_pending(),
            final(self).events_applied() == old(self).events_applied(),
            final(self).notices() == old(self).notices(),
    {
        self.output_stream_recovery_attempts = 0;
        self.pending_output_stream_recovery = None;
    }

    /// Whether a reload should start playing: playback is playing, or was before an
    /// interruption.
    fn should_autoplay(&self) -> (r: bool)
        ensures
            r == (self.status.playing_state == PlayingState::Playing
                || self.interrupted_resume_state == Some(PlayingState::Playing)),
    {
        self.status.playing_state == PlayingState::Playing || match self.interrupted_resume_state {
            Some(PlayingState::Playing) => true,
            _ => false,
        }
    }

    /// The saved state that [`Self::persist_state`] writes: the queue, current entry,
    /// play-next length and position of the active profile.
    pub open spec fn saved_state(self, file: PlaybackStateFile) -> bool {
        &&& self.active_profile() matches Some(p) && file.profile_id == p
        &&& file.version == PLAYBACK_STATE_VERSION
        &&& file.queue@ == self.st().queue@
        &&& file.current_index == self.st().current_index
        &&& file.play_next_queue_len == self.st().play_next_queue_len
        &&& file.current_position_ms == self.st().current_position_ms
    }

    /// Restoring the state a controller saves, for the profile it was saved for, gives back
    /// its queue, its current entry, its play-next region and its position.
    pub proof fn law_restore_gives_back_saved_state(
        saver: Self,
        file: PlaybackStateFile,
        after: Self,
    )
        requires
            saver.wf(),
            saver.saved_state(file),
            after.active_profile() == Some(file.profile_id),
            queue_ops::restored(
                after,
                file.queue@,
                file.current_index,
                file.play_next_queue_len,
                file.current_position_ms,
            ),
        ensures
            after.active_profile() == saver.active_profile(),
            after.st().queue@ == saver.st().queue@,
            after.st().current_index == saver.st().current_index,
            after.st().play_next_queue_len == saver.st().play_next_queue_len,
            after.st().current_position_ms == saver.st().current_position_ms,
            after.st().current_song_id == crate::queue::song_id_at(
                saver.st().queue@,
                saver.st().current_index,
            ),
    {
    }

    /// Saves the playback state for the active profile, unless there is none or the restore
    /// is put off. A failure to save is only logged.
    pub fn persist_state(&mut self)
        ensures
            Self::grows(*final(self), *old(self)),
            final(self).st() == old(self).st(),
            Self::same_aux(*final(self), *old(self)),
            old(self).wf() ==> final(self).wf(),
            if old(self).active_profile() is Some && !old(self).restore_deferred() {
                &&& Self::one_more_notice(*final(self), *old(self))
                &&& final(self).notices().last() matches ControllerNotice::StateSaved(f)
                    && old(self).saved_state(f)
            } else {
                final(self).notices() == old(self).notices()
            },
    {
        let profile_id = match &self.active_profile_id {
            Some(p) => p,
            None => return,
        };
        if self.restore_state_deferred {
            return;
        }
        let state_file = PlaybackStateFile {
            version: PLAYBACK_STATE_VERSION,
            profile_id: profile_id.clone(),
            queue: crate::models::browse::copy_songs(&self.status.queue),
            current_index: self.status.current_index,
            play_next_queue_len: self.status.play_next_queue_len,
            current_position_ms: self.status.current_position_ms,
        };
        let _ = self.persister.save(&state_file);
        self.notices = Ghost(self.notices@.push(ControllerNotice::StateSaved(state_file)));
        assert(self.notices@.drop_last() =~= old(self).notices@);
        proof { Self::lemma_in_step_push(*self, *old(self)); }
    }

    /// The saved state that a persist call would write now, or none when nothing is saved.
    pub fn persisted_state_file(&self) -> (r: Option<PlaybackStateFile>)
        ensures
            match r {
                Some(f) => self.saved_state(f) && !self.restore_deferred(),
                None => self.active_profile() is None || self.restore_deferred(),
            },
    {
        let profile_id = match &self.active_profile_id {
            Some(p) => p,
            None => return None,
        };
        if self.restore_state_deferred {
            return None;
        }
        Some(
            PlaybackStateFile {
                version: PLAYBACK_STATE_VERSION,
                profile_id: profile_id.clone(),
                queue: crate::models::browse::copy_songs(&self.status.queue),
                current_index: self.status.current_index,
                play_next_queue_len: self.status.play_next_queue_len,
                current_position_ms: self.status.current_position_ms,
            },
        )
    }

    /// Reports a transition of `entry` to the server, if the session has a profile.
    fn report_server_playback_state(
        &mut self,
        context: &PlaybackRuntimeContext<'_>,
        song_id: &String,
        media_type: ServerMediaType,
        duration: Option<u32>,
        position_ms: u32,
        state: ServerPlaybackState,
    )
        ensures
            Self::grows(*final(self), *old(self)),
            final(self).st() == old(self).st(),
            Self::same_config(*final(self), *old(self)),
            final(self).prepared_view() == old(self).prepared_view(),
            final(self).gapless_failure_view() == old(self).gapless_failure_view(),
            final(self).resume_state_view() == old(self).resume_state_view(),
            final(self).recovery_attempts_view() == old(self).recovery_attempts_view(),
            final(self).recovery_plan() == old(self).recovery_plan(),
            final(self).events_applied() == old(self).events_applied(),
            match context.profile_id {
                Some(p) => Self::one_more_notice(*final(self), *old(self)) && server_report(
                    final(self).notices().last(),
                    context.capability_matrix.playback_report,
                    p@,
                    song_id@,
                    media_type,
                    old(self).st().current_index,
                    duration,
                    position_ms,
                    state,
                ),
                None => final(self).notices() == old(self).notices(),
            },
    {
        let profile_id = match context.profile_id {
            Some(p) => p,
            None => return,
        };
        let reporting_context = ServerPlaybackReportingContext::new(
            context.capability_matrix,
            String::from_str(profile_id),
        );
        let duration_ms = match duration {
            Some(d) => Some(d as u64 * 1000),
            None => None,
        };
        let track = ServerPlaybackTrack {
            song_id: song_id.clone(),
            media_type,
            queue_index: self.status.current_index,
            duration_ms,
        };
        let ghost notice = ControllerNotice::ServerReported {
            context: reporting_context,
            track,
            position_ms,
            state,
        };
        self.server_reporter.report_state(reporting_context, track, position_ms, state);
        self.notices = Ghost(self.notices@.push(notice));
        assert(self.notices@.drop_last() =~= old(self).notices@);
        proof { Self::lemma_in_step_push(*self, *old(self)); }
    }

    /// Reports the current entry at `position_ms` in `state`, where there is one.
    fn report_current_server_playback_state(
        &mut self,
        context: &PlaybackRuntimeContext<'_>,
        position_ms: u32,
        state: ServerPlaybackState,
    )
        ensures
            Self::grows(*final(self), *old(self)),
            final(self).st() == old(self).st(),
            Self::same_config(*final(self), *old(self)),
            final(self).prepared_view() == old(self).prepared_view(),
            final(self).gapless_failure_view() == old(self).gapless_failure_view(),
            final(self).resume_state_view() == old(self).resume_state_view(),
            final(self).recovery_attempts_view() == old(self).recovery_attempts_view(),
            final(self).recovery_plan() == old(self).recovery_plan(),
            final(self).events_applied() == old(self).events_applied(),
            reported_current(*final(self), *old(self), context.capability_matrix.playback_report, match context.profile_id {
                Some(p) => Some(p@),
                None => None,
            }, position_ms, state),
    {
        let (song_id, media_type, duration) = match current_queue_entry(
            &self.status.queue,
            self.status.current_index,
        ) {
            Some(entry) => (entry.id.clone(), server_playback_media_type(entry), entry.duration),
            None => {
                return ;
            },
        };
        self.report_server_playback_state(
            context,
            &song_id,
            media_type,
            duration,
            position_ms,
            state,
        );
    }

    /// Reports the current entry as stopped at `position_ms`.
    fn report_current_server_playback_stopped(
        &mut self,
        context: &PlaybackRuntimeContext<'_>,
        position_ms: u32,
    )
        ensures
            Self::grows(*final(self), *old(self)),
            final(self).st() == old(self).st(),
            Self::same_config(*final(self), *old(self)),
            final(self).prepared_view() == old(self).prepared_view(),
            final(self).gapless_failure_view() == old(self).gapless_failure_view(),
            final(self).resume_state_view() == old(self).resume_state_view(),
            final(self).recovery_attempts_view() == old(self).recovery_attempts_view(),
            final(self).recovery_plan() == old(self).recovery_plan(),
            final(self).events_applied() == old(self).events_applied(),
            reported_current(*final(self), *old(self), context.capability_matrix.playback_report, match context.profile_id {
                Some(p) => Some(p@),
                None => None,
            }, position_ms, ServerPlaybackState::Stopped),
    {
        self.report_current_server_playback_state(context, position_ms, ServerPlaybackState::Stopped);
    }
}

/// Whether a song is reported to the server as a podcast episode or as a song.
pub fn server_playback_media_type(entry: &SongResponse) -> (r: ServerMediaType)
    ensures
        r == (if entry.media_type matches Some(m) && m@ == "podcast"@ {
            ServerMediaType::Podcast
        } else {
            ServerMediaType::Song
        }),
{
    match &entry.media_type {
        Some(m) => {
            if same_text(m.as_str(), "podcast") {
                ServerMediaType::Podcast
            } else {
                ServerMediaType::Song
            }
        },
        None => ServerMediaType::Song,
    }
}

/// A call to the backend, recorded with its answer.
impl PlaybackController {
    /// `c` is `b` with one more call recorded; nothing else changed.
    pub open spec fn logged_call(c: Self, b: Self) -> bool {
        &&& c.st() == b.st()
        &&& Self::same_aux(c, b)
        &&& c.immediate_recovery() == b.immediate_recovery()
        &&& Self::one_more_notice(c, b)
    }

    /// Stops the backend.
    pub(crate) fn backend_stop(&mut self) -> (r: Result<(), String>)
        ensures
            Self::logged_call(*final(self), *old(self)),
            final(self).notices().last() == (ControllerNotice::BackendStopped { answer: r }),
    {
        let r = self.backend.stop();
        self.notices = Ghost(self.notices@.push(ControllerNotice::BackendStopped { answer: r }));
        assert(self.notices@.drop_last() =~= old(self).notices@);
        proof { Self::lemma_in_step_push(*self, *old(self)); }
        r
    }

    /// Pauses the backend.
    pub(crate) fn backend_pause(&mut self) -> (r: Result<(), String>)
        ensures
            Self::logged_call(*final(self), *old(self)),
            final(self).notices().last() == (ControllerNotice::BackendPaused { answer: r }),
    {
        let r = self.backend.pause();
        self.notices = Ghost(self.notices@.push(ControllerNotice::BackendPaused { answer: r }));
        assert(self.notices@.drop_last() =~= old(self).notices@);
        proof { Self::lemma_in_step_push(*self, *old(self)); }
        r
    }

    /// Resumes the backend.
    pub(crate) fn backend_resume(&mut self) -> (r: Result<(), String>)
        ensures
            Self::logged_call(*final(self), *old(self)),
            final(self).notices().last() == (ControllerNotice::BackendResumed { answer: r }),
    {
        let r = self.backend.resume();
        self.notices = Ghost(self.notices@.push(ControllerNotice::BackendResumed { answer: r }));
        assert(self.notices@.drop_last() =~= old(self).notices@);
        proof { Self::lemma_in_step_push(*self, *old(self)); }
        r
    }

    /// Asks the backend to seek to `position_ms`.
    pub(crate) fn backend_seek(&mut self, position_ms: u32) -> (r: Result<PlaybackSeekAction, String>)
        ensures
            Self::logged_call(*final(self), *old(self)),
            final(self).notices().last() == (ControllerNotice::BackendSought { position_ms, answer: r }),
    {
        let r = self.backend.seek(position_ms);
        self.notices = Ghost(
            self.notices@.push(ControllerNotice::BackendSought { position_ms, answer: r }),
        );
        assert(self.notices@.drop_last() =~= old(self).notices@);
        proof { Self::lemma_in_step_push(*self, *old(self)); }
        r
    }

    /// Switches the backend to `device`.
    pub(crate) fn backend_set_output_device(&mut self, device: Option<String>) -> (r: Result<(), String>)
        ensures
            Self::logged_call(*final(self), *old(self)),
            final(self).notices().last() == (ControllerNotice::BackendDeviceSet { device, answer: r }),
    {
        let ghost asked = device;
        let r = self.backend.set_output_device(device);
        self.notices = Ghost(
            self.notices@.push(ControllerNotice::BackendDeviceSet { device: asked, answer: r }),
        );
        assert(self.notices@.drop_last() =~= old(self).notices@);
        proof { Self::lemma_in_step_push(*self, *old(self)); }
        r
    }

    /// Reads the backend's position.
    pub(crate) fn backend_position(&mut self) -> (r: Result<u32, String>)
        ensures
            Self::logged_call(*final(self), *old(self)),
            final(self).notices().last() == (ControllerNotice::PositionRead { answer: r }),
    {
        let r = self.backend.current_position_ms();
        self.notices = Ghost(self.notices@.push(ControllerNotice::PositionRead { answer: r }));
        assert(self.notices@.drop_last() =~= old(self).notices@);
        proof { Self::lemma_in_step_push(*self, *old(self)); }
        r
    }

    /// Reads what the backend decodes.
    pub(crate) fn backend_stream_info(&mut self) -> (r: Result<Option<PlaybackActualStreamInfo>, String>)
        ensures
            Self::logged_call(*final(self), *old(self)),
            final(self).notices().last() == (ControllerNotice::StreamInfoRead { answer: r }),
    {
        let r = self.backend.current_stream_info();
        self.notices = Ghost(self.notices@.push(ControllerNotice::StreamInfoRead { answer: r }));
        assert(self.notices@.drop_last() =~= old(self).notices@);
        proof { Self::lemma_in_step_push(*self, *old(self)); }
        r
    }

    /// Tells the backend to drop its prepared stream.
    pub(crate) fn backend_clear_prepared(&mut self)
        ensures
            Self::logged_call(*final(self), *old(self)),
            final(self).notices().last() == ControllerNotice::PreparedCleared,
    {
        self.backend.clear_prepared();
        self.notices = Ghost(self.notices@.push(ControllerNotice::PreparedCleared));
        assert(self.notices@.drop_last() =~= old(self).notices@);
        proof { Self::lemma_in_step_push(*self, *old(self)); }
    }

    /// Tells the backend to switch to its prepared stream.
    pub(crate) fn backend_activate_prepared(&mut self, autoplay: bool) -> (r: Result<(), String>)
        ensures
            Self::logged_call(*final(self), *old(self)),
            final(self).notices().last() == (ControllerNotice::PreparedActivated { autoplay, answer: r }),
    {
        let r = self.backend.activate_prepared(autoplay);
        self.notices = Ghost(
            self.notices@.push(ControllerNotice::PreparedActivated { autoplay, answer: r }),
        );
        assert(self.notices@.drop_last() =~= old(self).notices@);
        proof { Self::lemma_in_step_push(*self, *old(self)); }
        r
    }

    /// Hands the backend a cover for `media_id`.
    pub(crate) fn backend_update_artwork(&mut self, media_id: &str, artwork_path: Option<String>) -> (r:
        Result<(), String>)
        ensures
            Self::logged_call(*final(self), *old(self)),
            final(self).notices().last() matches ControllerNotice::ArtworkUpdated {
                media_id: m,
                artwork_path: a,
                answer,
            } && m@ == media_id@ && a == artwork_path && answer == r,
    {
        let ghost asked = artwork_path;
        let recorded_id = String::from_str(media_id);
        let r = self.backend.update_artwork(media_id, artwork_path);
        self.notices = Ghost(
            self.notices@.push(
                ControllerNotice::ArtworkUpdated {
                    media_id: recorded_id,
                    artwork_path: asked,
                    answer: r,
                },
            ),
        );
        assert(self.notices@.drop_last() =~= old(self).notices@);
        proof { Self::lemma_in_step_push(*self, *old(self)); }
        r
    }

    /// Asks the backend how to reach `position_ms`.
    pub(crate) fn backend_plan_load(&mut self, position_ms: u32, supports_stream_offset: bool) -> (r:
        PlaybackLoadStrategy)
        ensures
            Self::logged_call(*final(self), *old(self)),
            final(self).notices().last() == (ControllerNotice::LoadPlanned {
                position_ms,
                supports_stream_offset,
                answer: r,
            }),
    {
        let r = self.backend.plan_load(position_ms, supports_stream_offset);
        self.notices = Ghost(
            self.notices@.push(
                ControllerNotice::LoadPlanned { position_ms, supports_stream_offset, answer: r },
            ),
        );
        assert(self.notices@.drop_last() =~= old(self).notices@);
        proof { Self::lemma_in_step_push(*self, *old(self)); }
        r
    }

    /// Asks the backend whether a stream should carry a length estimate.
    pub(crate) fn backend_should_estimate(&mut self, stream_mode: PlaybackStreamMode, raw_stream: bool) -> (r:
        bool)
        ensures
            Self::logged_call(*final(self), *old(self)),
            final(self).notices().last() == (ControllerNotice::EstimateAsked {
                stream_mode,
                raw_stream,
                answer: r,
            }),
    {
        let r = self.backend.should_estimate_stream_content_length(stream_mode, raw_stream);
        self.notices = Ghost(
            self.notices@.push(ControllerNotice::EstimateAsked { stream_mode, raw_stream, answer: r }),
        );
        assert(self.notices@.drop_last() =~= old(self).notices@);
        proof { Self::lemma_in_step_push(*self, *old(self)); }
        r
    }
}

} // verus!
