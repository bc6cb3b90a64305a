//! Loading streams: choosing how a song is requested, and loading it into the backend.
use vstd::prelude::*;
use crate::models::browse::SongResponse;
use crate::models::playback::{
    InterruptReason, PlaybackStatus, PlaybackStreamInfo, PlaybackStreamRequestKind, PlayingState,
};
use crate::models::settings::{codec_stream_format, PlaybackStreamMode, PlaybackTranscodingCodec};
use crate::playback::backend::{
    same_request, PlaybackBackendLoadRequest, PlaybackLoadStrategy, PreparedBinaryRequest,
};
use crate::playback::server_reporting::ServerPlaybackState;
use crate::queue::{
    clamp_play_next_queue_len, clamped_play_next, current_queue_entry, lemma_clamped_play_next_wf,
    play_next_start, queue_wf, status_queue_wf,
};
use crate::models::values::copy_opt_string;
use crate::text::{join2, join3, join5};
use super::support::{
    api_error_message, stream_request, ApiError, stream_request_for, stream_request_outcome, RetrievalApi, handled_marker, is_output_device_error, is_output_device_load_error,
    endpoint_of_url, playback_error_from_load_failure, redacted_stream_url, redacted_url_of,
    stream_request_endpoint,
};
use super::transport::{lemma_load_recorded_kept, load_recorded};
use super::gapless::prepared_for;
use super::{core_eq, is_active, ControllerNotice, PlaybackController, PlaybackRuntimeContext};

verus! {

/// The codec a transcoded stream asks for: the requested one where the backend decodes it
/// (or it is `Auto`), else MP3 where the backend decodes that, else no explicit format.
pub open spec fn supported_codec(
    caps: Seq<PlaybackTranscodingCodec>,
    requested: PlaybackTranscodingCodec,
) -> PlaybackTranscodingCodec {
    if requested == PlaybackTranscodingCodec::Auto || caps.contains(requested) {
        requested
    } else if caps.contains(PlaybackTranscodingCodec::Mp3) {
        PlaybackTranscodingCodec::Mp3
    } else {
        PlaybackTranscodingCodec::Auto
    }
}

/// The characters of an optional text.
pub open spec fn opt_chars(o: Option<String>) -> Option<Seq<char>> {
    match o {
        Some(s) => Some(s@),
        None => None,
    }
}

/// How a song is requested: at position zero in raw mode, the stored file (`format=raw`)
/// first, the server's standard stream as the fallback; otherwise the standard stream, in
/// transcoding mode with the bit-rate limit and the supported codec's format.
pub open spec fn stream_shape_ok(
    info: PlaybackStreamInfo,
    mode: PlaybackStreamMode,
    position_ms: u32,
    max_bit_rate: u32,
    codec: PlaybackTranscodingCodec,
    caps: Seq<PlaybackTranscodingCodec>,
) -> bool {
    if position_ms == 0 && mode == PlaybackStreamMode::Raw {
        &&& info.stream_max_bit_rate is None
        &&& (info.raw_stream && opt_chars(info.stream_format) == Some("raw"@)) || (!info.raw_stream
            && info.stream_format is None)
    } else {
        &&& !info.raw_stream
        &&& info.stream_max_bit_rate == (if mode == PlaybackStreamMode::Raw {
            None
        } else {
            Some(max_bit_rate)
        })
        &&& opt_chars(info.stream_format) == (if mode == PlaybackStreamMode::Raw {
            None
        } else {
            codec_stream_format(supported_codec(caps, codec))
        })
    }
}

/// `r` is the error with message `m`.
pub open spec fn fails_with(r: Result<Option<u64>, String>, m: Seq<char>) -> bool {
    r matches Err(x) && x@ == m
}

/// "load", or "prepare" for a preparation of the next track.
pub open spec fn verb_of(prepare_only: bool) -> Seq<char> {
    if prepare_only {
        "prepare"@
    } else {
        "load"@
    }
}

/// The error of a stream the backend refused.
pub open spec fn load_failed_message(prepare_only: bool, e: Seq<char>) -> Seq<char> {
    "Failed to "@ + verb_of(prepare_only) + " playback stream: "@ + e + ""@
}

/// The error when both the stored file and the standard stream were refused.
pub open spec fn fallback_failed_message(prepare_only: bool, raw: Seq<char>, fallback: Seq<char>) -> Seq<char> {
    "Failed to "@ + verb_of(prepare_only) + " playback stream. raw stream failed: "@ + raw
        + "; fallback stream failed: "@ + fallback
}

/// The server's answer recorded in a stream request notice.
pub open spec fn request_answer(n: ControllerNotice) -> Result<PreparedBinaryRequest, ApiError> {
    match n {
        ControllerNotice::StreamRequested { answer, .. } => answer,
        _ => arbitrary(),
    }
}

/// The backend's answer recorded in a stream load notice.
pub open spec fn load_answer(n: ControllerNotice) -> Result<Option<u64>, String> {
    match n {
        ControllerNotice::StreamLoaded { answer, .. } => answer,
        _ => arbitrary(),
    }
}

/// The start the backend planned, recorded in a load plan notice.
pub open spec fn planned(n: ControllerNotice) -> PlaybackLoadStrategy {
    match n {
        ControllerNotice::LoadPlanned { answer, .. } => answer,
        _ => arbitrary(),
    }
}

/// Whether the backend wanted a length estimate, recorded in an estimate notice.
pub open spec fn estimate_answer(n: ControllerNotice) -> bool {
    match n {
        ControllerNotice::EstimateAsked { answer, .. } => answer,
        _ => arbitrary(),
    }
}

/// Notice `k` asks the backend whether the stream (raw or not) should carry a length
/// estimate; notice `k + 1` asks the server API for a stream of `entry` with this bit-rate
/// limit and format, the planned time offset and the estimate as the backend answered; where
/// the server answered, notice `k + 2` hands exactly that answer to the backend, to start at
/// `pos` (the planned part of it locally) as `autoplay` says, with the stored file's content
/// type and suffix as hints for a raw request only.
pub open spec fn stream_attempt(
    ns: Seq<ControllerNotice>,
    k: int,
    plan: PlaybackLoadStrategy,
    entry: SongResponse,
    max_bit_rate: Option<u32>,
    format: Option<Seq<char>>,
    raw: bool,
    pos: u32,
    autoplay: bool,
    prepare_only: bool,
) -> bool {
    &&& ns[k] matches ControllerNotice::EstimateAsked { raw_stream, .. } && raw_stream == raw
    &&& ns[k + 1] matches ControllerNotice::StreamRequested { request, .. } && request.id@ == entry.id@
        && request.max_bit_rate == max_bit_rate && opt_chars(request.format) == format
        && request.time_offset == plan.stream_offset_seconds && request.estimate_content_length == (
    if estimate_answer(ns[k]) {
        Some(true)
    } else {
        None
    })
    &&& request_answer(ns[k + 1]) matches Ok(stream) ==> (ns[k + 2] matches ControllerNotice::StreamLoaded {
        request,
        prepare_only: p,
        ..
    } && same_request(request.request, stream) && request.media_id == entry.id
        && request.source_content_type == (if raw {
        entry.content_type
    } else {
        None
    }) && request.source_suffix == (if raw {
        entry.suffix
    } else {
        None
    }) && request.absolute_start_position_ms == pos && request.local_start_position_ms
        == plan.local_start_position_ms && request.autoplay == autoplay && p == prepare_only)
}

/// What a single attempt with its request at notice `k` ends in: the server's refusal, the
/// backend's answer, or its refusal as a load failure.
pub open spec fn standard_attempt_ends(
    ns: Seq<ControllerNotice>,
    k: int,
    end: int,
    prepare_only: bool,
    r: Result<Option<u64>, String>,
) -> bool {
    match request_answer(ns[k]) {
        Err(e) => end == k + 1 && fails_with(r, api_error_message(e)),
        Ok(_) => end == k + 2 && match load_answer(ns[k + 1]) {
            Ok(g) => r == Ok::<Option<u64>, String>(g),
            Err(e) => fails_with(r, load_failed_message(prepare_only, e@)),
        },
    }
}

/// What is asked of the backend and the server API, and handed to the backend, for `entry`
/// from `pos`: the notices `ns[n..end]`, for a controller with this stream mode, bit-rate
/// limit, codec and backend codecs. First the backend plans the start; then, at position
/// zero in raw mode, the stored file (`format=raw`, no bit-rate limit) is tried; where the
/// backend refuses it for a reason other than the output device, one standard stream without
/// a format follows. Otherwise one standard stream, in transcoding mode with the bit-rate
/// limit and the supported codec's format.
pub open spec fn stream_requests(
    ns: Seq<ControllerNotice>,
    n: int,
    end: int,
    mode: PlaybackStreamMode,
    max_bit_rate: u32,
    codec: PlaybackTranscodingCodec,
    caps: Seq<PlaybackTranscodingCodec>,
    supports_stream_offset: bool,
    entry: SongResponse,
    pos: u32,
    autoplay: bool,
    prepare_only: bool,
    r: Result<Option<u64>, String>,
) -> bool {
    let plan = planned(ns[n]);
    &&& ns[n] matches ControllerNotice::LoadPlanned { position_ms, supports_stream_offset: o, .. }
        && position_ms == pos && o == supports_stream_offset
    &&& if pos == 0 && mode == PlaybackStreamMode::Raw {
        &&& stream_attempt(ns, n + 1, plan, entry, None, Some("raw"@), true, pos, autoplay, prepare_only)
        &&& match request_answer(ns[n + 2]) {
            Err(e) => end == n + 3 && fails_with(r, api_error_message(e)),
            Ok(_) => match load_answer(ns[n + 3]) {
                Ok(g) => end == n + 4 && r == Ok::<Option<u64>, String>(g),
                Err(e) => if is_output_device_error(e@) {
                    end == n + 4 && fails_with(r, load_failed_message(prepare_only, e@))
                } else {
                    &&& stream_attempt(ns, n + 4, plan, entry, None, None, false, pos, autoplay, prepare_only)
                    &&& match request_answer(ns[n + 5]) {
                        Err(e2) => end == n + 6 && fails_with(r, api_error_message(e2)),
                        Ok(_) => end == n + 7 && match load_answer(ns[n + 6]) {
                            Ok(g) => r == Ok::<Option<u64>, String>(g),
                            Err(e2) => fails_with(r, fallback_failed_message(prepare_only, e@, e2@)),
                        },
                    }
                },
            },
        }
    } else {
        let transcoding = mode == PlaybackStreamMode::Transcoding;
        &&& stream_attempt(
            ns,
            n + 1,
            plan,
            entry,
            if transcoding {
                Some(max_bit_rate)
            } else {
                None
            },
            if transcoding {
                codec_stream_format(supported_codec(caps, codec))
            } else {
                None
            },
            false,
            pos,
            autoplay,
            prepare_only,
        )
        &&& standard_attempt_ends(ns, n + 2, end, prepare_only, r)
    }
}

/// The answer of a load as its stream requests record it.
pub open spec fn load_answer_of(r: Result<(), String>) -> Result<Option<u64>, String> {
    match r {
        Ok(()) => Ok(None),
        Err(e) => Err(e),
    }
}

/// The stream requests recorded in `ns1` are still recorded once more notices follow.
pub proof fn lemma_stream_requests_kept(
    ns1: Seq<ControllerNotice>,
    ns2: Seq<ControllerNotice>,
    n: int,
    end: int,
    mode: PlaybackStreamMode,
    max_bit_rate: u32,
    codec: PlaybackTranscodingCodec,
    caps: Seq<PlaybackTranscodingCodec>,
    supports_stream_offset: bool,
    entry: SongResponse,
    pos: u32,
    autoplay: bool,
    prepare_only: bool,
    r: Result<Option<u64>, String>,
)
    requires
        0 <= n <= end <= ns1.len() <= ns2.len(),
        forall|i: int| 0 <= i < ns1.len() ==> #[trigger] ns2[i] == ns1[i],
        stream_requests(
            ns1,
            n,
            end,
            mode,
            max_bit_rate,
            codec,
            caps,
            supports_stream_offset,
            entry,
            pos,
            autoplay,
            prepare_only,
            r,
        ),
    ensures
        stream_requests(
            ns2,
            n,
            end,
            mode,
            max_bit_rate,
            codec,
            caps,
            supports_stream_offset,
            entry,
            pos,
            autoplay,
            prepare_only,
            r,
        ),
{
    assert forall|i: int| n <= i < n + 7 && i < ns1.len() implies ns2[i] == ns1[i] by {}
    if n < ns1.len() {
        assert(ns2[n] == ns1[n]);
    }
    if n + 1 < ns1.len() {
        assert(ns2[n + 1] == ns1[n + 1]);
    }
    if n + 2 < ns1.len() {
        assert(ns2[n + 2] == ns1[n + 2]);
    }
    if n + 3 < ns1.len() {
        assert(ns2[n + 3] == ns1[n + 3]);
    }
    if n + 4 < ns1.len() {
        assert(ns2[n + 4] == ns1[n + 4]);
    }
    if n + 5 < ns1.len() {
        assert(ns2[n + 5] == ns1[n + 5]);
    }
    if n + 6 < ns1.len() {
        assert(ns2[n + 6] == ns1[n + 6]);
    }
}

/// The notices that the stream requests of a load record are neither stops of the backend
/// nor saved states.
pub proof fn lemma_stream_requests_calm(
    ns: Seq<ControllerNotice>,
    n: int,
    end: int,
    mode: PlaybackStreamMode,
    max_bit_rate: u32,
    codec: PlaybackTranscodingCodec,
    caps: Seq<PlaybackTranscodingCodec>,
    supports_stream_offset: bool,
    entry: SongResponse,
    pos: u32,
    autoplay: bool,
    prepare_only: bool,
    r: Result<Option<u64>, String>,
)
    requires
        stream_requests(
            ns,
            n,
            end,
            mode,
            max_bit_rate,
            codec,
            caps,
            supports_stream_offset,
            entry,
            pos,
            autoplay,
            prepare_only,
            r,
        ),
    ensures
        forall|k: int| n <= k < end ==> !(#[trigger] ns[k] is BackendStopped) && !(ns[k] is StateSaved),
{
    assert forall|k: int| n <= k < end implies !(#[trigger] ns[k] is BackendStopped) && !(ns[k] is StateSaved) by {
        if k == n {
        } else if k == n + 1 {
        } else if k == n + 2 {
        } else if k == n + 3 {
        } else if k == n + 4 {
        } else if k == n + 5 {
        } else {
        }
    }
}

/// What a load of `entry` from `pos` by a controller like `b`, in a session that can or
/// cannot offset streams, asks of the backend and the server API and hands to the backend,
/// recorded in `ns` from `n` to `end`.
pub open spec fn load_requests(
    ns: Seq<ControllerNotice>,
    n: int,
    end: int,
    b: PlaybackController,
    supports_stream_offset: bool,
    entry: SongResponse,
    pos: u32,
    autoplay: bool,
    prepare_only: bool,
    r: Result<Option<u64>, String>,
) -> bool {
    stream_requests(
        ns,
        n,
        end,
        b.stream_mode_view(),
        b.max_bit_rate_view(),
        b.codec_view(),
        b.capabilities_view().transcoding_codecs@,
        supports_stream_offset,
        entry,
        pos,
        autoplay,
        prepare_only,
        r,
    )
}

/// The message for a load or preparation of an entry that is not there.
pub open spec fn missing_entry_message() -> Seq<char> {
    "Current playback entry does not exist."@
}

/// What a load of entry `index` from `pos` leaves behind, `b` being the controller before
/// it: an entry that is not there is an error that changes nothing; else the entry becomes
/// current at `pos`, playing or paused as `autoplay` says, or in the error state with the
/// error returned.
pub open spec fn load_outcome(
    c: PlaybackController,
    b: PlaybackController,
    index: u32,
    pos: u32,
    autoplay: bool,
    r: Result<(), String>,
) -> bool {
    if index >= b.st().queue@.len() {
        &&& r matches Err(e) && e@ == missing_entry_message()
        &&& c.st() == b.st()
        &&& PlaybackController::same_state(c, b)
    } else {
        &&& c.st().current_index == Some(index)
        &&& c.st().current_song_id == Some(b.st().queue@[index as int].id)
        &&& c.st().current_position_ms == pos
        &&& c.st().interrupt_reason is None
        &&& c.st().pending_seek_position_ms is None
        &&& c.resume_state_view() is None
        &&& match r {
            Ok(()) => {
                &&& c.st().playing_state == (if autoplay {
                    PlayingState::Playing
                } else {
                    PlayingState::Paused
                })
                &&& c.st().playback_error is None
                &&& c.recovery_attempts_view() == 0
                &&& !c.recovery_pending()
            },
            Err(e) => {
                &&& c.st().playing_state == PlayingState::Error
                &&& c.st().playback_error matches Some(pe) && pe.message == e
                &&& c.st().actual_stream_info is None
                &&& c.recovery_attempts_view() == b.recovery_attempts_view()
                &&& c.recovery_plan() == b.recovery_plan()
            },
        }
    }
}

/// What an exact reload of entry `index` from `pos` leaves behind, `b` being the controller
/// before it: an entry that is not there is an error that changes nothing; a failed load
/// puts the queue and transport back as they were; else the entry is current at `pos`,
/// playing or paused as `autoplay` says, with the play-next length cut to what fits.
pub open spec fn reload_outcome(
    c: PlaybackController,
    b: PlaybackController,
    index: u32,
    pos: u32,
    autoplay: bool,
    r: Result<(), String>,
) -> bool {
    if index >= b.st().queue@.len() {
        &&& r matches Err(e) && e@ == missing_entry_message()
        &&& c.st() == b.st()
        &&& PlaybackController::same_state(c, b)
    } else if r is Ok {
        &&& c.st().current_index == Some(index)
        &&& c.st().current_song_id == Some(b.st().queue@[index as int].id)
        &&& c.st().current_position_ms == pos
        &&& c.st().play_next_queue_len == clamped_play_next(
            b.st().queue@.len() as int,
            Some(index),
            b.st().play_next_queue_len as int,
        )
        &&& c.st().playing_state == (if autoplay {
            PlayingState::Playing
        } else {
            PlayingState::Paused
        })
        &&& c.st().playback_error is None
        &&& c.st().interrupt_reason is None
        &&& c.st().pending_seek_position_ms is None
        &&& c.resume_state_view() is None
        &&& c.recovery_attempts_view() == 0
        &&& !c.recovery_pending()
    } else {
        &&& core_eq(c.st(), b.st())
        &&& c.st().actual_stream_info == b.st().actual_stream_info
        &&& c.resume_state_view() == b.resume_state_view()
        &&& c.recovery_attempts_view() == b.recovery_attempts_view()
        &&& c.recovery_plan() == b.recovery_plan()
    }
}

impl PlaybackController {
    /// The codec a transcoded stream asks for.
    fn supported_transcoding_codec(&self, requested: PlaybackTranscodingCodec) -> (r:
        PlaybackTranscodingCodec)
        ensures
            r == supported_codec(self.playback_capabilities.transcoding_codecs@, requested),
    {
        let caps = &self.playback_capabilities.transcoding_codecs;
        let mut has_requested = false;
        let mut has_mp3 = false;
        let mut i: usize = 0;
        while i < caps.len()
            invariant
                i <= caps@.len(),
                has_requested == caps@.subrange(0, i as int).contains(requested),
                has_mp3 == caps@.subrange(0, i as int).contains(PlaybackTranscodingCodec::Mp3),
            decreases caps@.len() - i,
        {
            let ghost before = caps@.subrange(0, i as int);
            let c = caps[i];
            assert(caps@.subrange(0, i + 1) =~= before.push(c));
            if c == requested {
                has_requested = true;
            }
            if c == PlaybackTranscodingCodec::Mp3 {
                has_mp3 = true;
            }
            proof {
                let after = before.push(c);
                if has_requested && !before.contains(requested) {
                    assert(after[i as int] == requested);
                }
                if !has_requested {
                    assert forall|k: int| 0 <= k < after.len() implies after[k] != requested by {
                        if k < before.len() {
                            assert(after[k] == before[k]);
                        }
                    }
                }
                if has_mp3 && !before.contains(PlaybackTranscodingCodec::Mp3) {
                    assert(after[i as int] == PlaybackTranscodingCodec::Mp3);
                }
                if !has_mp3 {
                    assert forall|k: int| 0 <= k < after.len() implies after[k]
                        != PlaybackTranscodingCodec::Mp3 by {
                        if k < before.len() {
                            assert(after[k] == before[k]);
                        }
                    }
                }
            }
            i = i + 1;
        }
        assert(caps@.subrange(0, caps@.len() as int) =~= caps@);
        if requested == PlaybackTranscodingCodec::Auto || has_requested {
            return requested;
        }
        if has_mp3 {
            return PlaybackTranscodingCodec::Mp3;
        }
        PlaybackTranscodingCodec::Auto
    }

    /// The request handed to the backend for a song.
    fn build_backend_load_request(
        &self,
        entry: &SongResponse,
        request: PreparedBinaryRequest,
        use_source_media_type_hint: bool,
        absolute_start_position_ms: u32,
        local_start_position_ms: u32,
        autoplay: bool,
    ) -> (r: PlaybackBackendLoadRequest)
        ensures
            r.request == request,
            r.media_id == entry.id,
            r.title == entry.title,
            r.source_content_type == (if use_source_media_type_hint {
                entry.content_type
            } else {
                None
            }),
            r.source_suffix == (if use_source_media_type_hint {
                entry.suffix
            } else {
                None
            }),
            r.artwork_path is None,
            r.absolute_start_position_ms == absolute_start_position_ms,
            r.local_start_position_ms == local_start_position_ms,
            r.autoplay == autoplay,
    {
        PlaybackBackendLoadRequest {
            request,
            media_id: entry.id.clone(),
            title: entry.title.clone(),
            artist: copy_opt_string(&entry.artist),
            album: copy_opt_string(&entry.album),
            source_content_type: if use_source_media_type_hint {
                copy_opt_string(&entry.content_type)
            } else {
                None
            },
            source_suffix: if use_source_media_type_hint {
                copy_opt_string(&entry.suffix)
            } else {
                None
            },
            artwork_path: None,
            absolute_start_position_ms,
            local_start_position_ms,
            autoplay,
        }
    }

    /// What the status shows of a stream request.
    fn build_stream_info(
        &self,
        request_kind: PlaybackStreamRequestKind,
        entry: &SongResponse,
        stream_mode: PlaybackStreamMode,
        raw_stream: bool,
        stream_format: Option<&str>,
        stream_max_bit_rate: Option<u32>,
        stream_offset_seconds: Option<u32>,
        requested_position_ms: u32,
        local_start_position_ms: u32,
        autoplay: bool,
        request: &PreparedBinaryRequest,
    ) -> (r: PlaybackStreamInfo)
        ensures
            r.request_kind == request_kind,
            r.song_id == entry.id,
            r.stream_mode == stream_mode,
            r.raw_stream == raw_stream,
            opt_chars(r.stream_format) == match stream_format {
                Some(f) => Some(f@),
                None => None,
            },
            r.stream_max_bit_rate == stream_max_bit_rate,
            r.stream_offset_seconds == stream_offset_seconds,
            r.requested_position_ms == requested_position_ms,
            r.local_start_position_ms == local_start_position_ms,
            r.autoplay == autoplay,
            r.stream_endpoint@ == endpoint_of_url(request.url@),
            r.stream_url@ == redacted_url_of(request.url@),
    {
        PlaybackStreamInfo {
            request_kind,
            song_id: entry.id.clone(),
            song_path: copy_opt_string(&entry.path),
            source_content_type: copy_opt_string(&entry.content_type),
            source_suffix: copy_opt_string(&entry.suffix),
            source_bit_rate: entry.bit_rate,
            source_size: entry.size,
            stream_mode,
            raw_stream,
            stream_format: match stream_format {
                Some(f) => Some(String::from_str(f)),
                None => None,
            },
            stream_max_bit_rate,
            stream_offset_seconds,
            requested_position_ms,
            local_start_position_ms,
            autoplay,
            stream_endpoint: stream_request_endpoint(request.url.as_str()),
            stream_url: redacted_stream_url(request.url.as_str()),
        }
    }

    /// Hands a request to the backend, to load it or to prepare it as the next track, and
    /// records it in the status.
    fn apply_stream_request(
        &mut self,
        stream_info: PlaybackStreamInfo,
        request: PlaybackBackendLoadRequest,
        prepare_only: bool,
    ) -> (r: Result<Option<u64>, String>)
        ensures
            Self::grows(*final(self), *old(self)),
            Self::kept(*final(self), *old(self)),
            final(self).prepared_next == old(self).prepared_next,
            final(self).status.last_stream_request == Some(stream_info),
            r matches Ok(g) ==> (g is Some <==> prepare_only),
            r is Ok && prepare_only ==> final(self).status.prepared_stream_info == Some(stream_info)
                && final(self).status.active_stream_info == old(self).status.active_stream_info,
            r is Ok && !prepare_only ==> final(self).status.active_stream_info == Some(stream_info)
                && final(self).status.prepared_stream_info is None,
            r is Err ==> final(self).status.active_stream_info == old(self).status.active_stream_info
                && final(self).status.prepared_stream_info == old(self).status.prepared_stream_info,
            old(self).wf() ==> final(self).wf(),
            Self::one_more_notice(*final(self), *old(self)),
            final(self).notices().last() == (ControllerNotice::StreamLoaded {
                request,
                prepare_only,
                answer: r,
            }),
    {
        let ghost handed = request;
        self.status.last_stream_request = Some(stream_info.duplicate());
        let result = if prepare_only {
            match self.backend.prepare(request) {
                Ok(g) => Ok(Some(g)),
                Err(e) => Err(e),
            }
        } else {
            match self.backend.load(request) {
                Ok(()) => Ok(None),
                Err(e) => Err(e),
            }
        };
        if result.is_ok() {
            if prepare_only {
                self.status.prepared_stream_info = Some(stream_info);
            } else {
                self.status.active_stream_info = Some(stream_info);
                self.status.prepared_stream_info = None;
            }
        }
        self.notices = Ghost(
            self.notices@.push(
                ControllerNotice::StreamLoaded { request: handed, prepare_only, answer: result },
            ),
        );
        assert(self.notices@.drop_last() =~= old(self).notices@);
        proof { Self::lemma_in_step_push(*self, *old(self)); }
        result
    }

    /// Asks the server API for the stream request of a song, built by `stream_request`; its
    /// failure becomes the message of the API error.
    fn request_stream(
        &mut self,
        client: &dyn RetrievalApi,
        song_id: &str,
        stream_offset_seconds: Option<u32>,
        max_bit_rate: Option<u32>,
        stream_format: Option<&str>,
        estimate_content_length: bool,
    ) -> (r: Result<PreparedBinaryRequest, String>)
        ensures
            final(self).status == old(self).status,
            Self::same_aux(*final(self), *old(self)),
            final(self).prepared_next == old(self).prepared_next,
            Self::one_more_notice(*final(self), *old(self)),
            final(self).notices().last() matches ControllerNotice::StreamRequested { request, answer }
                && stream_request_for(
                song_id@,
                stream_offset_seconds,
                max_bit_rate,
                match stream_format {
                    Some(f) => Some(f@),
                    None => None,
                },
                estimate_content_length,
                request,
            ) && match answer {
                Ok(p) => r == Ok::<PreparedBinaryRequest, String>(p),
                Err(e) => r matches Err(m) && m@ == api_error_message(e),
            },
    {
        let request = stream_request(
            song_id,
            stream_offset_seconds,
            max_bit_rate,
            stream_format,
            estimate_content_length,
        );
        let ghost asked = request;
        let answer = client.stream(request);
        let ghost answered = answer;
        let r = stream_request_outcome(answer);
        self.notices = Ghost(
            self.notices@.push(ControllerNotice::StreamRequested { request: asked, answer: answered }),
        );
        assert(self.notices@.drop_last() =~= old(self).notices@);
        proof { Self::lemma_in_step_push(*self, *old(self)); }
        r
    }

    /// Loads (or prepares as the next track) the stream of `entry` from `requested_position_ms`.
    /// At position zero in raw mode the stored file is tried first, and the standard stream
    /// after it fails, unless the failure was about the output device.
    #[verifier::rlimit(60)]
    #[verifier::spinoff_prover]
    pub(super) fn load_or_prepare_stream_for_song(
        &mut self,
        context: &PlaybackRuntimeContext<'_>,
        entry: &SongResponse,
        requested_position_ms: u32,
        autoplay: bool,
        prepare_only: bool,
    ) -> (r: Result<Option<u64>, String>)
        ensures
            Self::grows(*final(self), *old(self)),
            Self::kept(*final(self), *old(self)),
            final(self).prepared_next == old(self).prepared_next,
            r matches Ok(g) ==> (g is Some <==> prepare_only),
            r is Ok ==> (final(self).status.last_stream_request matches Some(info) && info.song_id
                == entry.id && info.requested_position_ms == requested_position_ms && info.autoplay
                == autoplay && info.stream_mode == old(self).stream_mode && info.request_kind == (
            if prepare_only {
                PlaybackStreamRequestKind::Prepare
            } else {
                PlaybackStreamRequestKind::Load
            }) && stream_shape_ok(
                info,
                old(self).stream_mode,
                requested_position_ms,
                old(self).transcoding_max_bit_rate,
                old(self).transcoding_codec,
                old(self).playback_capabilities.transcoding_codecs@,
            )),
            r is Ok && !prepare_only ==> final(self).status.active_stream_info
                == final(self).status.last_stream_request,
            r is Ok && prepare_only ==> final(self).status.prepared_stream_info
                == final(self).status.last_stream_request,
            prepare_only ==> final(self).status.active_stream_info
                == old(self).status.active_stream_info,
            old(self).wf() ==> final(self).wf(),
            stream_requests(
                final(self).notices(),
                old(self).notices().len() as int,
                final(self).notices().len() as int,
                old(self).stream_mode_view(),
                old(self).max_bit_rate_view(),
                old(self).codec_view(),
                old(self).capabilities_view().transcoding_codecs@,
                context.capability_matrix.transcode_offset,
                *entry,
                requested_position_ms,
                autoplay,
                prepare_only,
                r,
            ),
    {
        let ghost start = *self;
        let ghost n = self.notices@.len() as int;
        let load_strategy = self.backend_plan_load(
            requested_position_ms,
            context.capability_matrix.transcode_offset,
        );
        let stream_offset_seconds = load_strategy.stream_offset_seconds;
        let local_start_position_ms = load_strategy.local_start_position_ms;
        let stream_mode = self.stream_mode;
        let transcoding_max_bit_rate = self.transcoding_max_bit_rate;
        let requested_transcoding_codec = self.transcoding_codec;
        let transcoding_codec = match stream_mode {
            PlaybackStreamMode::Raw => requested_transcoding_codec,
            PlaybackStreamMode::Transcoding => self.supported_transcoding_codec(
                requested_transcoding_codec,
            ),
        };
        let stream_max_bit_rate = match stream_mode {
            PlaybackStreamMode::Raw => None,
            PlaybackStreamMode::Transcoding => Some(transcoding_max_bit_rate),
        };
        let transcoding_stream_format = match stream_mode {
            PlaybackStreamMode::Raw => None,
            PlaybackStreamMode::Transcoding => transcoding_codec.stream_format(),
        };
        let request_kind = if prepare_only {
            PlaybackStreamRequestKind::Prepare
        } else {
            PlaybackStreamRequestKind::Load
        };
        let verb = if prepare_only {
            "prepare"
        } else {
            "load"
        };
        if requested_position_ms == 0 && stream_mode == PlaybackStreamMode::Raw {
            let estimate = self.backend_should_estimate(stream_mode, true);
            let raw_stream = match self.request_stream(
                context.client,
                entry.id.as_str(),
                stream_offset_seconds,
                None,
                Some("raw"),
                estimate,
            ) {
                Ok(s) => s,
                Err(e) => {
                    return Err(e);
                },
            };
            let ghost asked = self.notices@;
            let raw_request = self.build_backend_load_request(
                entry,
                raw_stream.duplicate(),
                true,
                requested_position_ms,
                local_start_position_ms,
                autoplay,
            );
            let raw_info = self.build_stream_info(
                request_kind,
                entry,
                stream_mode,
                true,
                Some("raw"),
                None,
                stream_offset_seconds,
                requested_position_ms,
                local_start_position_ms,
                autoplay,
                &raw_stream,
            );
            match self.apply_stream_request(raw_info, raw_request, prepare_only) {
                Ok(result) => {
                    assert(self.notices@[n] == asked[n]);
                    assert(self.notices@[n + 1] == asked[n + 1]);
                    assert(self.notices@[n + 2] == asked[n + 2]);
                    return Ok(result);
                },
                Err(raw_error) => {
                    if is_output_device_load_error(raw_error.as_str()) {
                        return Err(join5("Failed to ", verb, " playback stream: ", raw_error.as_str(), ""));
                    }
                    let estimate = self.backend_should_estimate(
                        stream_mode,
                        false,
                    );
                    let fallback_stream = match self.request_stream(
                        context.client,
                        entry.id.as_str(),
                        stream_offset_seconds,
                        None,
                        None,
                        estimate,
                    ) {
                        Ok(s) => s,
                        Err(e) => {
                            return Err(e);
                        },
                    };
                    let ghost asked_again = self.notices@;
                    let fallback_request = self.build_backend_load_request(
                        entry,
                        fallback_stream.duplicate(),
                        false,
                        requested_position_ms,
                        local_start_position_ms,
                        autoplay,
                    );
                    let fallback_info = self.build_stream_info(
                        request_kind,
                        entry,
                        stream_mode,
                        false,
                        None,
                        None,
                        stream_offset_seconds,
                        requested_position_ms,
                        local_start_position_ms,
                        autoplay,
                        &fallback_stream,
                    );
                    match self.apply_stream_request(fallback_info, fallback_request, prepare_only) {
                        Ok(result) => {
                            assert(self.notices@[n] == asked[n]);
                            assert(self.notices@[n + 1] == asked[n + 1]);
                            assert(self.notices@[n + 2] == asked[n + 2]);
                            assert(self.notices@[n + 3] == asked_again[n + 3]);
                            assert(self.notices@[n + 4] == asked_again[n + 4]);
                            assert(self.notices@[n + 5] == asked_again[n + 5]);
                            return Ok(result);
                        },
                        Err(fallback_error) => {
                            let mut message = join3("Failed to ", verb, " playback stream. raw stream failed: ");
                            message.append(raw_error.as_str());
                            message.append("; fallback stream failed: ");
                            message.append(fallback_error.as_str());
                            return Err(message);
                        },
                    }
                },
            }
        }
        let estimate = self.backend_should_estimate(stream_mode, false);
        let standard_stream = match self.request_stream(
            context.client,
            entry.id.as_str(),
            stream_offset_seconds,
            stream_max_bit_rate,
            transcoding_stream_format,
            estimate,
        ) {
            Ok(s) => s,
            Err(e) => {
                return Err(e);
            },
        };
        let ghost asked = self.notices@;
        let standard_request = self.build_backend_load_request(
            entry,
            standard_stream.duplicate(),
            false,
            requested_position_ms,
            local_start_position_ms,
            autoplay,
        );
        let standard_info = self.build_stream_info(
            request_kind,
            entry,
            stream_mode,
            false,
            transcoding_stream_format,
            stream_max_bit_rate,
            stream_offset_seconds,
            requested_position_ms,
            local_start_position_ms,
            autoplay,
            &standard_stream,
        );
        let outcome = self.apply_stream_request(standard_info, standard_request, prepare_only);
        assert(self.notices@[n] == asked[n]);
        assert(self.notices@[n + 1] == asked[n + 1]);
        assert(self.notices@[n + 2] == asked[n + 2]);
        match outcome {
            Ok(result) => Ok(result),
            Err(error) => Err(join5("Failed to ", verb, " playback stream: ", error.as_str(), "")),
        }
    }

    /// Loads the stream of `entry` from `requested_position_ms`.
    pub(super) fn load_stream_for_song(
        &mut self,
        context: &PlaybackRuntimeContext<'_>,
        entry: &SongResponse,
        requested_position_ms: u32,
        autoplay: bool,
    ) -> (r: Result<(), String>)
        ensures
            Self::grows(*final(self), *old(self)),
            Self::kept(*final(self), *old(self)),
            final(self).prepared_next == old(self).prepared_next,
            r is Ok ==> (final(self).status.active_stream_info matches Some(info) && info.song_id
                == entry.id),
            old(self).wf() ==> final(self).wf(),
            load_requests(
                final(self).notices(),
                old(self).notices().len() as int,
                final(self).notices().len() as int,
                *old(self),
                context.capability_matrix.transcode_offset,
                *entry,
                requested_position_ms,
                autoplay,
                false,
                load_answer_of(r),
            ),
            Self::calm_since(*final(self), *old(self)),
    {
        let loaded = self.load_or_prepare_stream_for_song(
            context,
            entry,
            requested_position_ms,
            autoplay,
            false,
        );
        proof {
            lemma_stream_requests_calm(
                self.notices@,
                old(self).notices@.len() as int,
                self.notices@.len() as int,
                old(self).stream_mode_view(),
                old(self).max_bit_rate_view(),
                old(self).codec_view(),
                old(self).capabilities_view().transcoding_codecs@,
                context.capability_matrix.transcode_offset,
                *entry,
                requested_position_ms,
                autoplay,
                false,
                loaded,
            );
        }
        match loaded {
            Ok(_) => Ok(()),
            Err(e) => Err(e),
        }
    }

    /// Prepares the stream of `entry` as the next track; gives the backend's generation.
    pub(super) fn prepare_stream_for_song(
        &mut self,
        context: &PlaybackRuntimeContext<'_>,
        entry: &SongResponse,
    ) -> (r: Result<u64, String>)
        ensures
            Self::grows(*final(self), *old(self)),
            Self::kept(*final(self), *old(self)),
            final(self).prepared_next == old(self).prepared_next,
            final(self).status.active_stream_info == old(self).status.active_stream_info,
            r is Ok ==> (final(self).status.prepared_stream_info matches Some(info) && info.song_id
                == entry.id && info.request_kind == PlaybackStreamRequestKind::Prepare),
            old(self).wf() ==> final(self).wf(),
            load_requests(
                final(self).notices(),
                old(self).notices().len() as int,
                final(self).notices().len() as int,
                *old(self),
                context.capability_matrix.transcode_offset,
                *entry,
                0,
                false,
                true,
                match r {
                    Ok(g) => Ok(Some(g)),
                    Err(e) => Err(e),
                },
            ),
            Self::calm_since(*final(self), *old(self)),
    {
        let prepared = self.load_or_prepare_stream_for_song(context, entry, 0, false, true);
        proof {
            lemma_stream_requests_calm(
                self.notices@,
                old(self).notices@.len() as int,
                self.notices@.len() as int,
                old(self).stream_mode_view(),
                old(self).max_bit_rate_view(),
                old(self).codec_view(),
                old(self).capabilities_view().transcoding_codecs@,
                context.capability_matrix.transcode_offset,
                *entry,
                0,
                false,
                true,
                prepared,
            );
        }
        match prepared {
            Ok(Some(generation)) => Ok(generation),
            Ok(None) => Err(String::from_str("Missing gapless generation.")),
            Err(e) => Err(e),
        }
    }

    /// Replaces the decoded stream information with what the backend reports now.
    pub(super) fn replace_actual_stream_info_from_backend(&mut self)
        ensures
            Self::grows(*final(self), *old(self)),
            Self::same_aux(*final(self), *old(self)),
            final(self).status == (PlaybackStatus {
                actual_stream_info: final(self).status.actual_stream_info,
                ..old(self).status
            }),
            old(self).wf() ==> final(self).wf(),
    {
        match self.backend_stream_info() {
            Ok(info) => {
                self.status.actual_stream_info = info;
            },
            Err(_) => {},
        }
    }

    /// Loads entry `index` from `requested_position_ms` and makes it the current entry,
    /// playing or paused as `autoplay` says; the prepared next track is used where it is
    /// that entry. A failed load leaves playback in the error state, with the error that
    /// the load failure becomes.
    #[verifier::rlimit(60)]
    #[verifier::spinoff_prover]
    pub(super) fn load_track_at_index(
        &mut self,
        context: &PlaybackRuntimeContext<'_>,
        index: u32,
        requested_position_ms: u32,
        autoplay: bool,
    ) -> (r: Result<(), String>)
        requires
            old(self).wf(),
            index < old(self).st().queue@.len() ==> queue_wf(
                old(self).st().queue@.len() as int,
                Some(index),
                old(self).st().play_next_queue_len as int,
            ),
        ensures
            Self::grows(*final(self), *old(self)),
            final(self).wf(),
            final(self).st().queue@ == old(self).st().queue@,
            final(self).st().play_next_queue_len == old(self).st().play_next_queue_len,
            Self::same_config(*final(self), *old(self)),
            final(self).events_applied() == old(self).events_applied(),
            load_outcome(*final(self), *old(self), index, requested_position_ms, autoplay, r),
            index < old(self).st().queue@.len() && !prepared_for(
                *old(self),
                index,
                old(self).st().queue@[index as int].id@,
                requested_position_ms,
            ) ==> exists|k: int, e: int, r0: Result<Option<u64>, String>|
                old(self).notices().len() <= k <= e <= final(self).notices().len() && (r0 is Ok
                    <==> r is Ok) && #[trigger] load_requests(
                    final(self).notices(),
                    k,
                    e,
                    *old(self),
                    context.capability_matrix.transcode_offset,
                    old(self).st().queue@[index as int],
                    requested_position_ms,
                    autoplay,
                    false,
                    r0,
                ),
    {
        let ghost start = *self;
        let entry = match current_queue_entry(&self.status.queue, Some(index)) {
            Some(e) => e.duplicate(),
            None => {
                return Err(String::from_str("Current playback entry does not exist."));
            },
        };
        let song_id = entry.id.clone();
        self.clear_native_events();
        self.status.playing_state = PlayingState::Interrupted;
        self.status.interrupt_reason = Some(InterruptReason::InitialLoad);
        self.status.pending_seek_position_ms = None;
        self.status.current_index = Some(index);
        self.status.current_song_id = Some(song_id.clone());
        self.status.current_position_ms = requested_position_ms;
        self.status.playback_error = None;
        self.interrupted_resume_state = None;
        self.report_status();
        self.report_current_server_playback_state(
            context,
            requested_position_ms,
            ServerPlaybackState::Starting,
        );
        let ghost mut k: int = 0;
        let ghost mut e: int = 0;
        let ghost mut loaded_ns: Seq<ControllerNotice> = Seq::empty();
        let ghost before_try = *self;
        let load_result = match self.try_activate_prepared_gapless_track(
            index,
            &entry,
            requested_position_ms,
            autoplay,
        ) {
            Ok(true) => Ok(()),
            Ok(false) => {
                proof {
                    k = self.notices@.len() as int;
                }
                let lr = self.load_stream_for_song(context, &entry, requested_position_ms, autoplay);
                proof {
                    e = self.notices@.len() as int;
                    loaded_ns = self.notices@;
                }
                lr
            },
            Err(_) => {
                self.clear_gapless_preparation();
                proof {
                    k = self.notices@.len() as int;
                }
                let lr = self.load_stream_for_song(context, &entry, requested_position_ms, autoplay);
                proof {
                    e = self.notices@.len() as int;
                    loaded_ns = self.notices@;
                }
                lr
            },
        };
        let ghost r0 = load_answer_of(load_result);
        match load_result {
            Err(error) => {
                let playback_error = playback_error_from_load_failure(error.as_str());
                let returned_error = playback_error.message.clone();
                self.status.playing_state = PlayingState::Error;
                self.status.playback_error = Some(playback_error);
                self.status.interrupt_reason = None;
                self.status.pending_seek_position_ms = None;
                self.status.actual_stream_info = None;
                self.clear_server_reporting();
                self.report_status();
                proof {
                    if !prepared_for(start, index, start.st().queue@[index as int].id@, requested_position_ms) {
                        lemma_stream_requests_kept(
                            loaded_ns,
                            self.notices@,
                            k,
                            e,
                            start.stream_mode_view(),
                            start.max_bit_rate_view(),
                            start.codec_view(),
                            start.capabilities_view().transcoding_codecs@,
                            context.capability_matrix.transcode_offset,
                            start.st().queue@[index as int],
                            requested_position_ms,
                            autoplay,
                            false,
                            r0,
                        );
                        assert(load_requests(self.notices@, k, e, start, context.capability_matrix.transcode_offset, start.st().queue@[index as int], requested_position_ms, autoplay, false, r0));
                    }
                }
                return Err(returned_error);
            },
            Ok(()) => {},
        }
        self.clear_native_events();
        self.status.playing_state = if autoplay {
            PlayingState::Playing
        } else {
            PlayingState::Paused
        };
        self.status.current_position_ms = requested_position_ms;
        self.status.current_song_id = Some(song_id);
        self.status.playback_error = None;
        self.status.interrupt_reason = None;
        self.status.pending_seek_position_ms = None;
        self.replace_actual_stream_info_from_backend();
        self.interrupted_resume_state = None;
        self.reset_output_stream_recovery_attempts();
        let _ = self.sync_gapless_for_current_track(Some(context));
        self.report_current_server_playback_state(
            context,
            requested_position_ms,
            if autoplay {
                ServerPlaybackState::Playing
            } else {
                ServerPlaybackState::Paused
            },
        );
        proof {
            if !prepared_for(start, index, start.st().queue@[index as int].id@, requested_position_ms) {
                lemma_stream_requests_kept(
                    loaded_ns,
                    self.notices@,
                    k,
                    e,
                    start.stream_mode_view(),
                    start.max_bit_rate_view(),
                    start.codec_view(),
                    start.capabilities_view().transcoding_codecs@,
                    context.capability_matrix.transcode_offset,
                    start.st().queue@[index as int],
                    requested_position_ms,
                    autoplay,
                    false,
                    r0,
                );
                assert(load_requests(self.notices@, k, e, start, context.capability_matrix.transcode_offset, start.st().queue@[index as int], requested_position_ms, autoplay, false, r0));
            }
        }
        Ok(())
    }

    /// Reloads entry `index` from exactly `requested_position_ms`, as a recovery or a seek
    /// that the backend cannot apply in place. A failed load restores the status that was
    /// there before. The play-next length is cut to what fits after the entry.
    pub(super) fn reload_track_at_index_exact(
        &mut self,
        context: &PlaybackRuntimeContext<'_>,
        index: u32,
        requested_position_ms: u32,
        autoplay: bool,
    ) -> (r: Result<(), String>)
        requires
            old(self).wf(),
        ensures
            Self::grows(*final(self), *old(self)),
            final(self).wf(),
            final(self).st().queue@ == old(self).st().queue@,
            Self::same_config(*final(self), *old(self)),
            final(self).events_applied() == old(self).events_applied(),
            reload_outcome(*final(self), *old(self), index, requested_position_ms, autoplay, r),
            Self::calm_since(*final(self), *old(self)),
            index < old(self).st().queue@.len() ==> load_recorded(
                *final(self),
                *old(self),
                old(self).notices().len() as int,
                context.capability_matrix.transcode_offset,
                old(self).st().queue@[index as int],
                requested_position_ms,
                autoplay,
                r is Ok,
                true,
            ),
    {
        let ghost offset = context.capability_matrix.transcode_offset;
        let entry = match current_queue_entry(&self.status.queue, Some(index)) {
            Some(e) => e.duplicate(),
            None => {
                return Err(String::from_str("Current playback entry does not exist."));
            },
        };
        let song_id = entry.id.clone();
        let previous_status = self.status.duplicate();
        let previous_resume_state = self.interrupted_resume_state;
        self.clear_native_events();
        proof { Self::lemma_calm_step(*self, *old(self)); }
        self.status.playing_state = PlayingState::Interrupted;
        self.status.interrupt_reason = Some(InterruptReason::FullReload);
        self.status.pending_seek_position_ms = Some(requested_position_ms);
        self.status.current_index = Some(index);
        clamp_play_next_queue_len(&mut self.status);
        proof {
            lemma_clamped_play_next_wf(
                old(self).status.queue@.len() as int,
                Some(index),
                old(self).status.play_next_queue_len as int,
            );
        }
        self.status.current_song_id = Some(song_id.clone());
        self.status.playback_error = None;
        self.interrupted_resume_state = None;
        let ghost p = *self;
        self.report_status();
        proof { Self::lemma_calm_step(*self, p); Self::lemma_calm_chain(*self, p, *old(self)); }
        let ghost p = *self;
        self.report_current_server_playback_state(
            context,
            requested_position_ms,
            ServerPlaybackState::Starting,
        );
        proof { Self::lemma_calm_step(*self, p); Self::lemma_calm_chain(*self, p, *old(self)); }
        let ghost p = *self;
        let loaded = self.load_stream_for_song(context, &entry, requested_position_ms, autoplay);
        proof { Self::lemma_calm_chain(*self, p, *old(self)); }
        let ghost before_load = p;
        let ghost after_load = *self;
        assert(load_recorded(
            after_load,
            before_load,
            before_load.notices().len() as int,
            offset,
            entry,
            requested_position_ms,
            autoplay,
            loaded is Ok,
            true,
        ));
        match loaded {
            Err(error) => {
                self.status = previous_status;
                self.interrupted_resume_state = previous_resume_state;
                let ghost p = *self;
                self.clear_server_reporting();
                proof { Self::lemma_calm_step(*self, p); Self::lemma_calm_chain(*self, p, *old(self)); }
                let ghost p = *self;
                self.report_status();
                proof {
                    Self::lemma_calm_step(*self, p);
                    Self::lemma_calm_chain(*self, p, *old(self));
                    lemma_load_recorded_kept(
                        after_load,
                        before_load,
                        before_load.notices().len() as int,
                        *self,
                        *old(self),
                        old(self).notices().len() as int,
                        offset,
                        entry,
                        requested_position_ms,
                        autoplay,
                        false,
                        true,
                        false,
                        true,
                    );
                }
                return Err(error);
            },
            Ok(()) => {},
        }
        let ghost p = *self;
        self.clear_native_events();
        proof { Self::lemma_calm_step(*self, p); Self::lemma_calm_chain(*self, p, *old(self)); }
        self.status.playing_state = if autoplay {
            PlayingState::Playing
        } else {
            PlayingState::Paused
        };
        self.status.current_index = Some(index);
        self.status.current_song_id = Some(song_id);
        self.status.current_position_ms = requested_position_ms;
        self.status.playback_error = None;
        self.status.interrupt_reason = None;
        self.status.pending_seek_position_ms = None;
        self.interrupted_resume_state = None;
        let ghost p = *self;
        self.reset_output_stream_recovery_attempts();
        proof { Self::lemma_calm_step(*self, p); Self::lemma_calm_chain(*self, p, *old(self)); }
        let ghost p = *self;
        let _ = self.sync_gapless_for_current_track(Some(context));
        proof { Self::lemma_calm_chain(*self, p, *old(self)); }
        let ghost p = *self;
        self.report_current_server_playback_state(
            context,
            requested_position_ms,
            if autoplay {
                ServerPlaybackState::Playing
            } else {
                ServerPlaybackState::Paused
            },
        );
        proof { Self::lemma_calm_step(*self, p); Self::lemma_calm_chain(*self, p, *old(self)); }
        proof {
            lemma_load_recorded_kept(
                after_load,
                before_load,
                before_load.notices().len() as int,
                *self,
                *old(self),
                old(self).notices().len() as int,
                offset,
                entry,
                requested_position_ms,
                autoplay,
                true,
                true,
                true,
                true,
            );
        }
        Ok(())
    }
}

} // verus!
