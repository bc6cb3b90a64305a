//! Transport: play, pause, stop, seek and moving through the queue.
use vstd::prelude::*;
use crate::models::playback::{PlaybackStatus, PlayingState};
use crate::playback::backend::PlaybackSeekAction;
use crate::playback::server_reporting::ServerPlaybackState;
use crate::queue::{
    adjusted_play_next, adjusted_play_next_queue_len_for_current_change, clamped_play_next,
    current_song_id, lemma_adjusted_play_next_wf, queue_wf,
};
use super::queue_ops::{pos_synced, queue_empty_message, queue_index_out_of_range_message};
use crate::models::settings::{normalize_output_device_id, normalized_output_device_id};
use crate::models::values::copy_opt_string;
use crate::text::same_text;
use super::loading::{lemma_stream_requests_kept, load_requests, opt_chars};
use super::gapless::prepared_for;
use crate::models::browse::SongResponse;
use super::support::{
    format_output_device_change_error, playback_error_from_load_failure, PREV_RESTART_THRESHOLD_MS,
};
use super::events::resumes_playing;
use super::{
    core_eq, is_active, is_loaded, ControllerNotice, PlaybackController, PlaybackRuntimeContext,
};

verus! {

/// The entry a transport command acts on: the current one, or the first where there is none.
pub open spec fn current_or_first(st: PlaybackStatus) -> u32 {
    match st.current_index {
        Some(i) => i,
        None => 0,
    }
}

/// The play-next length once the first entry was chosen as the current one, where there
/// was none.
pub open spec fn pnl_after_choice(st: PlaybackStatus) -> int {
    match st.current_index {
        Some(_) => st.play_next_queue_len as int,
        None => clamped_play_next(st.queue@.len() as int, Some(0), st.play_next_queue_len as int),
    }
}

/// No backend event was applied between `b` and `c`.
pub open spec fn quiet(c: PlaybackController, b: PlaybackController) -> bool {
    c.events_applied() == b.events_applied()
}

/// The message for "next" past the largest queue position.
pub open spec fn position_out_of_range_message() -> Seq<char> {
    "The current queue position is out of range."@
}

/// The message for "next" on the last entry.
pub open spec fn end_of_queue_message() -> Seq<char> {
    "Already at the end of the playback queue."@
}

/// What a seek to `pos` leaves behind, `b` being the controller before it and no backend
/// event having been applied: the entry stays current; a track that is not active is moved
/// to `pos`; an active one is sought by the backend (`pos` pending) or reloaded at `pos`.
pub open spec fn seek_outcome(c: PlaybackController, b: PlaybackController, pos: u32) -> bool {
    &&& c.st().current_index == Some(current_or_first(b.st()))
    &&& c.st().playback_error is None
    &&& c.st().interrupt_reason is None
    &&& if !is_active(b.st().playing_state) {
        &&& c.st().current_position_ms == pos
        &&& c.st().pending_seek_position_ms is None
        &&& c.st().playing_state == b.st().playing_state
        &&& c.st().play_next_queue_len == pnl_after_choice(b.st())
        &&& c.resume_state_view() is None
    } else {
        ||| c.st().pending_seek_position_ms == Some(pos) && c.st().playing_state
            == b.st().playing_state
        ||| {
            &&& c.st().current_position_ms == pos
            &&& c.st().pending_seek_position_ms is None
            &&& c.st().playing_state == (if resumes_playing(b) {
                PlayingState::Playing
            } else {
                PlayingState::Paused
            })
        }
    }
}

/// `n` records a read of the backend position that failed.
pub open spec fn read_failed(n: ControllerNotice) -> bool {
    match n {
        ControllerNotice::PositionRead { answer: Err(_) } => true,
        _ => false,
    }
}

/// `n` records a pause that the backend refused.
pub open spec fn pause_refused(n: ControllerNotice) -> bool {
    match n {
        ControllerNotice::BackendPaused { answer: Err(_) } => true,
        _ => false,
    }
}

/// What a pause hands to the backend, `b` being the controller before: an active track's
/// position is read first, and a failed read is the error; then the backend is asked to
/// pause, and its refusal is the error.
pub open spec fn pause_handover(c: PlaybackController, b: PlaybackController, r: Result<PlaybackStatus, String>) -> bool {
    let n = b.notices().len() as int;
    let active = is_active(b.st().playing_state);
    let k: int = if active {
        n + 1
    } else {
        n
    };
    &&& active ==> n < c.notices().len() && c.notices()[n] is PositionRead
    &&& if active && read_failed(c.notices()[n]) {
        r is Err
    } else {
        &&& k < c.notices().len()
        &&& c.notices()[k] is BackendPaused
        &&& pause_refused(c.notices()[k]) ==> r is Err
    }
}

/// What a seek to `pos` of an active track hands to the backend and makes of its answers,
/// `b` being the controller before: first the position is read from the backend, and a
/// failed read is the error; then the backend is asked to seek to `pos`. A refusal is the
/// error; a seek applied in place succeeds, leaving `pos` pending and the track playing or
/// paused as before; a seek that needs a reload loads the entry again at `pos`, and succeeds
/// exactly where that load did (these where no backend event was applied).
pub open spec fn seek_handover(
    c: PlaybackController,
    b: PlaybackController,
    supports_stream_offset: bool,
    pos: u32,
    r: Result<PlaybackStatus, String>,
) -> bool {
    seek_handover_at(
        c,
        b.notices().len() as int,
        b.st().playing_state,
        b.st().queue@[current_or_first(b.st()) as int],
        resumes_playing(b),
        b.events_applied(),
        b,
        supports_stream_offset,
        pos,
        r,
    )
}

/// [`seek_handover`] for a seek whose notices start at `n`, of an active track in `state`
/// whose entry is `entry`, resuming playing where `autoplay` says, with `events` backend
/// events applied before and `cfg`'s stream settings.
pub open spec fn seek_handover_at(
    c: PlaybackController,
    n: int,
    state: PlayingState,
    entry: SongResponse,
    autoplay: bool,
    events: nat,
    cfg: PlaybackController,
    supports_stream_offset: bool,
    pos: u32,
    r: Result<PlaybackStatus, String>,
) -> bool {
    let quiet_since = c.events_applied() == events;
    &&& 0 <= n < c.notices().len()
    &&& c.notices()[n] is PositionRead
    &&& match c.notices()[n] {
        ControllerNotice::PositionRead { answer: Err(_) } => r is Err,
        _ => n + 1 < c.notices().len() && match c.notices()[n + 1] {
            ControllerNotice::BackendSought { position_ms, answer } => position_ms == pos
                && match answer {
                Err(_) => r is Err,
                Ok(PlaybackSeekAction::Applied) => quiet_since ==> (r is Ok
                    && c.st().pending_seek_position_ms == Some(pos) && c.st().playing_state
                    == state),
                Ok(PlaybackSeekAction::ReloadRequired) => load_recorded(
                    c,
                    cfg,
                    n,
                    supports_stream_offset,
                    entry,
                    pos,
                    autoplay,
                    r is Ok,
                    quiet_since,
                ) && (r is Ok && quiet_since ==> (c.st().current_position_ms == pos
                    && c.st().pending_seek_position_ms is None && c.st().playing_state == (
                if autoplay {
                    PlayingState::Playing
                } else {
                    PlayingState::Paused
                }))),
            },
            _ => false,
        },
    }
}

/// A recorded seek is still recorded once more notices follow without changing the status
/// or applying events, and for a controller with the same stream settings.
pub proof fn lemma_seek_handover_kept(
    c1: PlaybackController,
    c2: PlaybackController,
    n: int,
    state: PlayingState,
    entry: SongResponse,
    autoplay: bool,
    events: nat,
    cfg1: PlaybackController,
    cfg2: PlaybackController,
    supports_stream_offset: bool,
    pos: u32,
    r: Result<PlaybackStatus, String>,
)
    requires
        seek_handover_at(c1, n, state, entry, autoplay, events, cfg1, supports_stream_offset, pos, r),
        PlaybackController::grows(c2, c1),
        c2.st() == c1.st(),
        c2.events_applied() == c1.events_applied(),
        same_stream_settings(cfg1, cfg2),
    ensures
        seek_handover_at(c2, n, state, entry, autoplay, events, cfg2, supports_stream_offset, pos, r),
{
    assert(c2.notices()[n] == c1.notices()[n]);
    if n + 1 < c1.notices().len() {
        assert(c2.notices()[n + 1] == c1.notices()[n + 1]);
    }
    if !(c1.notices()[n] matches ControllerNotice::PositionRead { answer: Err(_) }) {
        if let ControllerNotice::BackendSought { position_ms, answer } = c1.notices()[n + 1] {
            if answer == Ok::<PlaybackSeekAction, String>(PlaybackSeekAction::ReloadRequired) {
                let quiet_since = c1.events_applied() == events;
                lemma_load_recorded_kept(
                    c1,
                    cfg1,
                    n,
                    c2,
                    cfg2,
                    n,
                    supports_stream_offset,
                    entry,
                    pos,
                    autoplay,
                    r is Ok,
                    quiet_since,
                    r is Ok,
                    quiet_since,
                );
            }
        }
    }
}

/// `c` moved from `b`'s entry `from` to entry `to` at its start, playing or paused as before
/// where a track was active, stopped otherwise; the play-next region shrinks as
/// [`adjusted_play_next`] says.
pub open spec fn stepped_to(c: PlaybackController, b: PlaybackController, from: u32, to: u32) -> bool {
    &&& c.st().current_index == Some(to)
    &&& c.st().current_song_id == Some(b.st().queue@[to as int].id)
    &&& c.st().current_position_ms == 0
    &&& c.st().play_next_queue_len == adjusted_play_next(
        b.st().queue@.len() as int,
        Some(from),
        pnl_after_choice(b.st()),
        Some(to),
    )
    &&& c.st().playing_state == (if !is_active(b.st().playing_state) {
        PlayingState::Stopped
    } else if resumes_playing(b) {
        PlayingState::Playing
    } else {
        PlayingState::Paused
    })
    &&& c.st().playback_error is None
    &&& c.st().interrupt_reason is None
    &&& c.st().pending_seek_position_ms is None
}

/// The first thing `c` handed over since `b` is a request to the backend to resume; it
/// answered with success where `ok` holds.
pub open spec fn resumed_first(c: PlaybackController, b: PlaybackController, ok: bool) -> bool {
    &&& b.notices().len() < c.notices().len()
    &&& (c.notices()[b.notices().len() as int] matches ControllerNotice::BackendResumed { answer }
        && (ok ==> answer is Ok))
}

/// From notice `from` on, `c` records a load of `entry` from `pos`, to play or to pause
/// there as `autoplay` says, asked of the backend and the server API in the way
/// [`load_requests`] records it for a controller with `b`'s stream settings. Where `ok`
/// holds that load succeeded; where `exact` holds too, `ok` holds exactly when it did.
pub open spec fn load_recorded(
    c: PlaybackController,
    b: PlaybackController,
    from: int,
    supports_stream_offset: bool,
    entry: SongResponse,
    pos: u32,
    autoplay: bool,
    ok: bool,
    exact: bool,
) -> bool {
    exists|k: int, e: int, r0: Result<Option<u64>, String>|
        from <= k <= e <= c.notices().len() && (ok ==> r0 is Ok) && (exact && r0 is Ok ==> ok)
            && #[trigger] load_requests(
            c.notices(),
            k,
            e,
            b,
            supports_stream_offset,
            entry,
            pos,
            autoplay,
            false,
            r0,
        )
}

/// Since `b`, `c` asked the backend to load `b`'s entry `index` from `pos`, as
/// [`load_recorded`] says with `ok` and `exact`. Where the prepared next track was that
/// entry, the backend switched to it instead.
pub open spec fn asked_to_load(
    c: PlaybackController,
    b: PlaybackController,
    supports_stream_offset: bool,
    index: u32,
    pos: u32,
    autoplay: bool,
    ok: bool,
    exact: bool,
) -> bool {
    index < b.st().queue@.len() && !prepared_for(b, index, b.st().queue@[index as int].id@, pos)
        ==> load_recorded(
        c,
        b,
        b.notices().len() as int,
        supports_stream_offset,
        b.st().queue@[index as int],
        pos,
        autoplay,
        ok,
        exact,
    )
}

/// `a` and `b` ask for streams alike: the same stream mode, bit-rate limit, codec and
/// backend capabilities.
pub open spec fn same_stream_settings(a: PlaybackController, b: PlaybackController) -> bool {
    &&& a.stream_mode_view() == b.stream_mode_view()
    &&& a.max_bit_rate_view() == b.max_bit_rate_view()
    &&& a.codec_view() == b.codec_view()
    &&& a.capabilities_view() == b.capabilities_view()
}

/// A recorded load is still recorded once more notices follow, from an earlier notice on,
/// for a controller with the same stream settings, with a weaker claim on its answer.
pub proof fn lemma_load_recorded_kept(
    c1: PlaybackController,
    b1: PlaybackController,
    from1: int,
    c2: PlaybackController,
    b2: PlaybackController,
    from2: int,
    supports_stream_offset: bool,
    entry: SongResponse,
    pos: u32,
    autoplay: bool,
    ok1: bool,
    exact1: bool,
    ok2: bool,
    exact2: bool,
)
    requires
        load_recorded(c1, b1, from1, supports_stream_offset, entry, pos, autoplay, ok1, exact1),
        PlaybackController::grows(c2, c1),
        same_stream_settings(b1, b2),
        0 <= from2 <= from1,
        ok2 ==> ok1,
        exact2 ==> exact1 && (ok1 ==> ok2),
    ensures
        load_recorded(c2, b2, from2, supports_stream_offset, entry, pos, autoplay, ok2, exact2),
{
    let (k, e, r0) = choose|k: int, e: int, r0: Result<Option<u64>, String>|
        from1 <= k <= e <= c1.notices().len() && (ok1 ==> r0 is Ok) && (exact1 && r0 is Ok ==> ok1)
            && #[trigger] load_requests(
            c1.notices(),
            k,
            e,
            b1,
            supports_stream_offset,
            entry,
            pos,
            autoplay,
            false,
            r0,
        );
    lemma_stream_requests_kept(
        c1.notices(),
        c2.notices(),
        k,
        e,
        b1.stream_mode_view(),
        b1.max_bit_rate_view(),
        b1.codec_view(),
        b1.capabilities_view().transcoding_codecs@,
        supports_stream_offset,
        entry,
        pos,
        autoplay,
        false,
        r0,
    );
    assert(load_requests(c2.notices(), k, e, b2, supports_stream_offset, entry, pos, autoplay, false, r0));
}

/// A load asked for is still recorded once more notices follow, and it is the same load
/// for a controller with the same queue, stream settings and prepared track that had
/// handed over no more, with a weaker claim on its answer.
pub proof fn lemma_asked_to_load_kept(
    c1: PlaybackController,
    b1: PlaybackController,
    c2: PlaybackController,
    b2: PlaybackController,
    supports_stream_offset: bool,
    index: u32,
    pos: u32,
    autoplay: bool,
    ok1: bool,
    exact1: bool,
    ok2: bool,
    exact2: bool,
)
    requires
        asked_to_load(c1, b1, supports_stream_offset, index, pos, autoplay, ok1, exact1),
        PlaybackController::grows(c2, c1),
        PlaybackController::same_config(b1, b2),
        b1.st().queue@ == b2.st().queue@,
        b1.prepared_view() == b2.prepared_view(),
        b2.notices().len() <= b1.notices().len(),
        ok2 ==> ok1,
        exact2 ==> exact1 && (ok1 ==> ok2),
    ensures
        asked_to_load(c2, b2, supports_stream_offset, index, pos, autoplay, ok2, exact2),
{
    if index < b2.st().queue@.len() && !prepared_for(b2, index, b2.st().queue@[index as int].id@, pos) {
        lemma_load_recorded_kept(
            c1,
            b1,
            b1.notices().len() as int,
            c2,
            b2,
            b2.notices().len() as int,
            supports_stream_offset,
            b1.st().queue@[index as int],
            pos,
            autoplay,
            ok1,
            exact1,
            ok2,
            exact2,
        );
    }
}

/// Whether "previous" on `b` moves to the entry before: there is one, and the position
/// (read from the backend first where a track is active, as `c` records) is within the
/// restart threshold.
pub open spec fn goes_back(c: PlaybackController, b: PlaybackController) -> bool {
    let pos = if is_active(b.st().playing_state) {
        read_position(c.notices()[b.notices().len() as int], b.st().current_position_ms)
    } else {
        b.st().current_position_ms
    };
    current_or_first(b.st()) != 0 && pos <= PREV_RESTART_THRESHOLD_MS
}

/// The position that a read of the backend position `n` gave, or `fallback` where it gave none.
pub open spec fn read_position(n: ControllerNotice, fallback: u32) -> u32 {
    match n {
        ControllerNotice::PositionRead { answer: Ok(p) } => p,
        _ => fallback,
    }
}

/// What `c` handed over on the way out, `b` being the controller before: with an active
/// profile whose restore is not put off, the position read from the backend while playing,
/// then the saved state of `c`, whose position is the one the backend gave (the earlier one
/// where it gave none); then, with a loaded track, the backend stopped and the waiting events
/// dropped.
pub open spec fn persisted_and_stopped(c: PlaybackController, b: PlaybackController) -> bool {
    let saves = b.active_profile() is Some && !b.restore_deferred();
    let reads = saves && b.st().playing_state == PlayingState::Playing;
    let n = b.notices().len() as int;
    let k: int = if reads {
        n + 1
    } else {
        n
    };
    let m: int = if saves {
        k + 1
    } else {
        n
    };
    &&& c.notices().len() == m + (if is_loaded(b.st().playing_state) {
        2int
    } else {
        0int
    })
    &&& c.notices().subrange(0, n) == b.notices()
    &&& reads ==> c.notices()[n] is PositionRead
    &&& saves ==> (c.notices()[k] matches ControllerNotice::StateSaved(f) && c.saved_state(f)
        && f.current_position_ms == (if reads {
        read_position(c.notices()[n], b.st().current_position_ms)
    } else {
        b.st().current_position_ms
    }))
    &&& is_loaded(b.st().playing_state) ==> c.notices()[m] is BackendStopped
        && c.notices()[m + 1] == ControllerNotice::EventsDropped
}

/// What a failed device change leaves behind, `b` being the controller before: the playing
/// state is kept (the position of an active track may have been read from the backend), or,
/// where reloading the active track on the new device failed, playback is in the error state
/// and the returned error starts with the message of the playback error.
pub open spec fn device_change_failed(c: PlaybackController, b: PlaybackController, e: Seq<char>) -> bool {
    ||| {
        &&& c.st().playing_state == b.st().playing_state
        &&& (c.st().playback_error == b.st().playback_error || is_active(b.st().playing_state))
    }
    ||| {
        &&& is_active(b.st().playing_state)
        &&& c.st().playing_state == PlayingState::Error
        &&& c.st().playback_error matches Some(pe) && e.len() >= pe.message@.len() && e.subrange(
            0,
            pe.message@.len() as int,
        ) == pe.message@
        &&& c.st().interrupt_reason is None
        &&& c.st().pending_seek_position_ms is None
        &&& c.st().actual_stream_info is None
    }
}

/// After notice `k`, `c` switched the backend to `device`.
pub open spec fn switched_back(c: PlaybackController, k: int, device: Option<String>) -> bool {
    exists|j: int|
        k < j < c.notices().len() && (#[trigger] c.notices()[j] matches ControllerNotice::BackendDeviceSet {
            device: d,
            ..
        } && opt_chars(d) == opt_chars(device))
}

/// What a change to the output device `new` hands to the backend, `b` being the controller
/// before: without an active track the backend is switched, and its refusal is the error.
/// With one, a session and a queue, the position is read first, and a failed read is the error; then
/// the backend is switched, and its refusal is the error; once the backend took the new
/// device it is stopped exactly once. A refused stop is the error and keeps the playing
/// state; after a stop the entry is loaded again at the position read, and the change
/// succeeds exactly where that load did, a failed load leaving playback in the error
/// state. Where the change fails after the backend took the new device, the backend is
/// switched back to `b`'s device and the position is the one read.
pub open spec fn device_switch(
    c: PlaybackController,
    b: PlaybackController,
    new: Option<Seq<char>>,
    has_context: bool,
    supports_stream_offset: bool,
    r: Result<(), String>,
) -> bool {
    let n = b.notices().len() as int;
    if !is_active(b.st().playing_state) {
        &&& n < c.notices().len()
        &&& (c.notices()[n] matches ControllerNotice::BackendDeviceSet { device, answer } && opt_chars(
            device,
        ) == new && (answer is Err <==> r is Err))
    } else if has_context && b.st().queue@.len() > 0 {
        let pos = read_position(c.notices()[n], b.st().current_position_ms);
        &&& n < c.notices().len()
        &&& c.notices()[n] is PositionRead
        &&& read_failed(c.notices()[n]) ==> r is Err
        &&& !read_failed(c.notices()[n]) ==> (n + 1 < c.notices().len() && (c.notices()[n
            + 1] matches ControllerNotice::BackendDeviceSet { device, answer } && opt_chars(device)
            == new && (answer is Err ==> r is Err) && (answer is Ok ==> ({
            ||| PlaybackController::stopped_once(c, b, false) && r is Err
                && c.st().playing_state == b.st().playing_state
            ||| PlaybackController::stopped_once(c, b, true) && load_recorded(
                c,
                b,
                n,
                supports_stream_offset,
                b.st().queue@[current_or_first(b.st()) as int],
                pos,
                b.st().playing_state == PlayingState::Playing,
                r is Ok,
                true,
            ) && (r is Err ==> c.st().playing_state == PlayingState::Error
                && c.st().playback_error is Some)
        })) && (answer is Ok && r is Err ==> switched_back(c, n + 1, b.output_device_view())
            && c.st().current_position_ms == pos)))
    } else {
        true
    }
}

/// The message for a device change that needs a reload without a session.
pub open spec fn no_reload_session_message() -> Seq<char> {
    "No active session is available to reload playback after output device change."@
}

impl PlaybackController {
    /// Stops playback, keeping the current entry and rewinding it to its start; the stopped
    /// track is reported to the server where a session is given.
    pub fn stop_with_context(&mut self, context: Option<&PlaybackRuntimeContext<'_>>) -> (r:
        Result<PlaybackStatus, String>)
        requires
            old(self).wf(),
        ensures
            Self::grows(*final(self), *old(self)),
            final(self).wf(),
            final(self).st().queue@ == old(self).st().queue@,
            final(self).st().current_index == old(self).st().current_index,
            final(self).st().current_song_id == old(self).st().current_song_id,
            final(self).st().play_next_queue_len == old(self).st().play_next_queue_len,
            Self::same_config(*final(self), *old(self)),
            quiet(*final(self), *old(self)),
            r matches Ok(s) ==> {
                &&& s.same_as(final(self).st())
                &&& final(self).st().playing_state == PlayingState::Stopped
                &&& final(self).st().current_position_ms == 0
                &&& final(self).st().playback_error is None
                &&& final(self).st().interrupt_reason is None
                &&& final(self).st().pending_seek_position_ms is None
                &&& final(self).st().actual_stream_info is None
                &&& final(self).prepared_view() is None
                &&& final(self).resume_state_view() is None
                &&& final(self).recovery_attempts_view() == 0
                &&& !final(self).recovery_pending()
            },
            is_active(old(self).st().playing_state) ==> old(self).notices().len()
                < final(self).notices().len() && final(self).notices()[old(self).notices().len() as int] is PositionRead
                && (read_failed(final(self).notices()[old(self).notices().len() as int]) ==> r is Err),
            !(is_active(old(self).st().playing_state) && read_failed(
                final(self).notices()[old(self).notices().len() as int],
            )) ==> Self::stopped_once(*final(self), *old(self), r is Ok),
    {
        let ghost start = *self;
        match self.sync_current_position_from_backend() {
            Ok(()) => {},
            Err(e) => {
                return Err(e);
            },
        }
        proof { Self::lemma_calm_step(*self, start); }
        let stop_position_ms = self.status.current_position_ms;
        let ghost p = *self;
        self.clear_gapless_preparation();
        proof { Self::lemma_calm_step(*self, p); Self::lemma_calm_chain(*self, p, start); }
        let ghost before_stop = *self;
        let stopped = self.backend_stop();
        let ghost after_stop = *self;
        match stopped {
            Ok(()) => {},
            Err(e) => {
                proof {
                    Self::lemma_calm_step(*self, after_stop);
                    Self::lemma_stopped_once(*self, start, before_stop, after_stop);
                }
                return Err(e);
            },
        }
        self.clear_native_events();
        proof { Self::lemma_calm_step(*self, after_stop); }
        let ghost p = *self;
        match context {
            Some(ctx) => self.report_current_server_playback_stopped(ctx, stop_position_ms),
            None => {},
        }
        proof { Self::lemma_calm_step(*self, p); Self::lemma_calm_chain(*self, p, after_stop); }
        let ghost p = *self;
        self.clear_server_reporting();
        proof { Self::lemma_calm_step(*self, p); Self::lemma_calm_chain(*self, p, after_stop); }
        self.status.playing_state = PlayingState::Stopped;
        self.status.current_position_ms = 0;
        self.status.playback_error = None;
        self.status.interrupt_reason = None;
        self.status.pending_seek_position_ms = None;
        self.status.actual_stream_info = None;
        self.interrupted_resume_state = None;
        let ghost p = *self;
        self.reset_output_stream_recovery_attempts();
        proof { Self::lemma_calm_step(*self, p); Self::lemma_calm_chain(*self, p, after_stop); }
        let ghost q = *self;
        self.persist_state();
        proof { Self::lemma_no_stop_kept(*self, q, after_stop.notices().len() as int); }
        let ghost q = *self;
        self.report_status();
        proof { Self::lemma_no_stop_kept(*self, q, after_stop.notices().len() as int); }
        let ghost q = *self;
        let status = self.state();
        proof {
            Self::lemma_no_stop_kept(*self, q, after_stop.notices().len() as int);
            Self::lemma_stopped_once(*self, start, before_stop, after_stop);
        }
        Ok(status)
    }

    /// Stops playback without reporting to the server.
    pub fn stop(&mut self) -> (r: Result<PlaybackStatus, String>)
        requires
            old(self).wf(),
        ensures
            Self::grows(*final(self), *old(self)),
            final(self).wf(),
            final(self).st().queue@ == old(self).st().queue@,
            final(self).st().current_index == old(self).st().current_index,
            final(self).st().current_song_id == old(self).st().current_song_id,
            final(self).st().play_next_queue_len == old(self).st().play_next_queue_len,
            Self::same_config(*final(self), *old(self)),
            quiet(*final(self), *old(self)),
            r matches Ok(s) ==> {
                &&& s.same_as(final(self).st())
                &&& final(self).st().playing_state == PlayingState::Stopped
                &&& final(self).st().current_position_ms == 0
                &&& final(self).st().playback_error is None
                &&& final(self).st().interrupt_reason is None
                &&& final(self).st().pending_seek_position_ms is None
                &&& final(self).st().actual_stream_info is None
                &&& final(self).prepared_view() is None
                &&& final(self).resume_state_view() is None
                &&& final(self).recovery_attempts_view() == 0
                &&& !final(self).recovery_pending()
            },
            is_active(old(self).st().playing_state) ==> old(self).notices().len()
                < final(self).notices().len() && final(self).notices()[old(self).notices().len() as int] is PositionRead
                && (read_failed(final(self).notices()[old(self).notices().len() as int]) ==> r is Err),
            !(is_active(old(self).st().playing_state) && read_failed(
                final(self).notices()[old(self).notices().len() as int],
            )) ==> Self::stopped_once(*final(self), *old(self), r is Ok),
    {
        self.stop_with_context(None)
    }

    /// Pauses playback at the position the backend reports; the pause is reported to the
    /// server where a session is given. When no backend event was applied meanwhile, the
    /// current entry is paused.
    pub fn pause_with_context(&mut self, context: Option<&PlaybackRuntimeContext<'_>>) -> (r:
        Result<PlaybackStatus, String>)
        requires
            old(self).wf(),
        ensures
            Self::grows(*final(self), *old(self)),
            final(self).wf(),
            final(self).events_applied() >= old(self).events_applied(),
            final(self).st().queue@ == old(self).st().queue@,
            Self::same_config(*final(self), *old(self)),
            r matches Ok(s) ==> s.same_as(final(self).st()),
            r is Ok && quiet(*final(self), *old(self)) ==> {
                &&& final(self).st().playing_state == PlayingState::Paused
                &&& final(self).st().current_index == old(self).st().current_index
                &&& final(self).st().current_song_id == old(self).st().current_song_id
                &&& final(self).st().play_next_queue_len == old(self).st().play_next_queue_len
                &&& !is_active(old(self).st().playing_state) ==> final(self).st().current_position_ms
                    == old(self).st().current_position_ms
                &&& final(self).st().playback_error is None
                &&& final(self).st().interrupt_reason is None
                &&& final(self).st().pending_seek_position_ms is None
                &&& final(self).st().actual_stream_info is None
                &&& final(self).resume_state_view() is None
            },
            pause_handover(*final(self), *old(self), r),
    {
        let ghost n = self.notices@.len() as int;
        match self.sync_current_position_from_backend() {
            Ok(()) => {},
            Err(e) => {
                return Err(e);
            },
        }
        let ghost k = self.notices@.len() as int;
        let paused = self.backend_pause();
        assert(self.notices@[k] == (ControllerNotice::BackendPaused { answer: paused }));
        match paused {
            Ok(()) => {},
            Err(e) => {
                return Err(e);
            },
        }
        self.status.playing_state = PlayingState::Paused;
        self.status.playback_error = None;
        self.status.interrupt_reason = None;
        self.status.pending_seek_position_ms = None;
        self.status.actual_stream_info = None;
        self.interrupted_resume_state = None;
        match self.process_native_events_inner(None, false) {
            Ok(_) => {},
            Err(e) => {
                return Err(e);
            },
        }
        self.persist_state();
        match context {
            Some(ctx) => {
                let position_ms = self.status.current_position_ms;
                self.report_current_server_playback_state(
                    ctx,
                    position_ms,
                    ServerPlaybackState::Paused,
                );
            },
            None => {},
        }
        self.report_status();
        Ok(self.state())
    }

    /// Pauses playback without reporting to the server.
    pub fn pause(&mut self) -> (r: Result<PlaybackStatus, String>)
        requires
            old(self).wf(),
        ensures
            Self::grows(*final(self), *old(self)),
            final(self).wf(),
            final(self).events_applied() >= old(self).events_applied(),
            final(self).st().queue@ == old(self).st().queue@,
            Self::same_config(*final(self), *old(self)),
            r matches Ok(s) ==> s.same_as(final(self).st()),
            r is Ok && quiet(*final(self), *old(self)) ==> {
                &&& final(self).st().playing_state == PlayingState::Paused
                &&& final(self).st().current_index == old(self).st().current_index
                &&& final(self).st().current_song_id == old(self).st().current_song_id
                &&& final(self).st().play_next_queue_len == old(self).st().play_next_queue_len
                &&& !is_active(old(self).st().playing_state) ==> final(self).st().current_position_ms
                    == old(self).st().current_position_ms
                &&& final(self).st().playback_error is None
                &&& final(self).st().interrupt_reason is None
                &&& final(self).st().pending_seek_position_ms is None
                &&& final(self).st().actual_stream_info is None
                &&& final(self).resume_state_view() is None
            },
            pause_handover(*final(self), *old(self), r),
    {
        self.pause_with_context(None)
    }

    /// Plays the current entry, the first one where there is none: a paused track resumes
    /// where it is, anything else is loaded from the current position. When no backend
    /// event was applied meanwhile, that entry plays.
    pub fn play(&mut self, context: &PlaybackRuntimeContext<'_>) -> (r: Result<
        PlaybackStatus,
        String,
    >)
        requires
            old(self).wf(),
        ensures
            Self::grows(*final(self), *old(self)),
            final(self).wf(),
            final(self).events_applied() >= old(self).events_applied(),
            final(self).st().queue@ == old(self).st().queue@,
            Self::same_config(*final(self), *old(self)),
            old(self).st().queue@.len() == 0 ==> (r matches Err(e) && e@ == queue_empty_message()
                && final(self).st() == old(self).st()),
            r matches Ok(s) ==> s.same_as(final(self).st()),
            r is Ok && quiet(*final(self), *old(self)) ==> {
                &&& final(self).st().current_index == Some(current_or_first(old(self).st()))
                &&& final(self).st().play_next_queue_len == pnl_after_choice(old(self).st())
                &&& final(self).st().playing_state == PlayingState::Playing
                &&& final(self).st().current_position_ms == old(self).st().current_position_ms
                &&& final(self).st().playback_error is None
                &&& final(self).st().interrupt_reason is None
                &&& old(self).st().playing_state != PlayingState::Paused
                    ==> final(self).st().current_song_id == Some(
                    old(self).st().queue@[current_or_first(old(self).st()) as int].id,
                )
                &&& final(self).recovery_attempts_view() == 0
                &&& !final(self).recovery_pending()
            },
            old(self).st().queue@.len() > 0 && old(self).st().playing_state == PlayingState::Paused
                ==> resumed_first(*final(self), *old(self), r is Ok),
            old(self).st().playing_state != PlayingState::Paused ==> asked_to_load(
                *final(self),
                *old(self),
                context.capability_matrix.transcode_offset,
                current_or_first(old(self).st()),
                old(self).st().current_position_ms,
                true,
                r is Ok,
                quiet(*final(self), *old(self)),
            ),
    {
        let ghost start = *self;
        let index = match self.ensure_current_index() {
            Ok(i) => i,
            Err(e) => {
                return Err(e);
            },
        };
        let ghost n = start.notices().len() as int;
        if self.status.playing_state == PlayingState::Paused {
            let resumed = self.backend_resume();
            let ghost resumed_notice = self.notices@[n];
            assert(resumed_notice == (ControllerNotice::BackendResumed { answer: resumed }));
            match resumed {
                Ok(()) => {},
                Err(e) => {
                    return Err(e);
                },
            }
            self.status.playing_state = PlayingState::Playing;
            self.status.playback_error = None;
            self.status.interrupt_reason = None;
            self.sync_actual_stream_info_from_backend();
            self.reset_output_stream_recovery_attempts();
            match self.process_native_events_inner(Some(context), false) {
                Ok(_) => {},
                Err(e) => {
                    return Err(e);
                },
            }
            let position_ms = self.status.current_position_ms;
            self.report_current_server_playback_state(
                context,
                position_ms,
                ServerPlaybackState::Playing,
            );
            self.report_status();
            return Ok(self.state());
        }
        let requested_position_ms = self.status.current_position_ms;
        let ghost mid = *self;
        let loaded = self.load_track_at_index(context, index, requested_position_ms, true);
        let ghost after_load = *self;
        let ghost offset = context.capability_matrix.transcode_offset;
        assert(asked_to_load(after_load, mid, offset, index, requested_position_ms, true, loaded is Ok, true));
        match loaded {
            Ok(()) => {},
            Err(e) => {
                proof {
                    lemma_asked_to_load_kept(after_load, mid, *self, start, offset, index, requested_position_ms, true, false, true, false, quiet(*self, start));
                }
                return Err(e);
            },
        }
        match self.process_native_events_inner(Some(context), false) {
            Ok(_) => {},
            Err(e) => {
                proof {
                    lemma_asked_to_load_kept(after_load, mid, *self, start, offset, index, requested_position_ms, true, true, true, false, quiet(*self, start));
                }
                return Err(e);
            },
        }
        self.report_status();
        proof {
            lemma_asked_to_load_kept(after_load, mid, *self, start, offset, index, requested_position_ms, true, true, true, true, quiet(*self, start));
        }
        Ok(self.state())
    }

    /// Plays entry `index` from its start, after stopping what plays; the play-next region
    /// shrinks as [`adjusted_play_next`] says.
    pub fn play_queue_index(&mut self, context: &PlaybackRuntimeContext<'_>, index: u32) -> (r:
        Result<PlaybackStatus, String>)
        requires
            old(self).wf(),
        ensures
            Self::grows(*final(self), *old(self)),
            final(self).wf(),
            final(self).events_applied() >= old(self).events_applied(),
            final(self).st().queue@ == old(self).st().queue@,
            Self::same_config(*final(self), *old(self)),
            index >= old(self).st().queue@.len() ==> (r matches Err(e) && e@
                == queue_index_out_of_range_message() && final(self).st() == old(self).st()
                && Self::same_aux(*final(self), *old(self))),
            r matches Ok(s) ==> s.same_as(final(self).st()),
            r is Ok && quiet(*final(self), *old(self)) ==> {
                &&& final(self).st().current_index == Some(index)
                &&& final(self).st().current_song_id == Some(old(self).st().queue@[index as int].id)
                &&& final(self).st().play_next_queue_len == adjusted_play_next(
                    old(self).st().queue@.len() as int,
                    old(self).st().current_index,
                    old(self).st().play_next_queue_len as int,
                    Some(index),
                )
                &&& final(self).st().playing_state == PlayingState::Playing
                &&& final(self).st().current_position_ms == 0
                &&& final(self).st().playback_error is None
                &&& final(self).st().interrupt_reason is None
            },
            index < old(self).st().queue@.len() && is_active(old(self).st().playing_state)
                ==> old(self).notices().len() < final(self).notices().len() && final(self).notices()[old(self).notices().len() as int] is PositionRead
                && (read_failed(final(self).notices()[old(self).notices().len() as int]) ==> r is Err),
            index < old(self).st().queue@.len() && !(is_active(old(self).st().playing_state)
                && read_failed(final(self).notices()[old(self).notices().len() as int])) ==> {
                ||| Self::stop_answered(*final(self), *old(self), false) && r is Err
                ||| Self::stop_answered(*final(self), *old(self), true) && asked_to_load(
                    *final(self),
                    *old(self),
                    context.capability_matrix.transcode_offset,
                    index,
                    0,
                    true,
                    r is Ok,
                    quiet(*final(self), *old(self)),
                )
            },
    {
        let ghost start = *self;
        if index as usize >= self.status.queue.len() {
            return Err(String::from_str("Playback queue index is out of range."));
        }
        if self.status.playing_state == PlayingState::Playing || self.status.playing_state
            == PlayingState::Paused || self.status.playing_state == PlayingState::Interrupted {
            match self.sync_current_position_from_backend() {
                Ok(()) => {},
                Err(e) => {
                    return Err(e);
                },
            }
            let position_ms = self.status.current_position_ms;
            self.report_current_server_playback_stopped(context, position_ms);
        }
        let previous_current_index = self.status.current_index;
        let previous_play_next_queue_len = self.status.play_next_queue_len;
        let ghost k = self.notices@.len() as int;
        let stopped = self.backend_stop();
        let ghost stop_notice = self.notices@[k];
        match stopped {
            Ok(()) => {},
            Err(e) => {
                assert(self.notices@[k] == stop_notice);
                return Err(e);
            },
        }
        self.clear_native_events();
        let ghost before = self.status;
        self.status.current_index = Some(index);
        self.status.play_next_queue_len = adjusted_play_next_queue_len_for_current_change(
            self.status.queue.len(),
            previous_current_index,
            previous_play_next_queue_len,
            Some(index),
        );
        proof {
            lemma_adjusted_play_next_wf(
                before.queue@.len() as int,
                previous_current_index,
                previous_play_next_queue_len as int,
                Some(index),
            );
        }
        self.status.current_song_id = current_song_id(&self.status.queue, Some(index));
        self.status.current_position_ms = 0;
        self.status.playing_state = PlayingState::Stopped;
        self.status.playback_error = None;
        self.status.interrupt_reason = None;
        self.status.pending_seek_position_ms = None;
        self.status.actual_stream_info = None;
        self.interrupted_resume_state = None;
        self.persist_state();
        let ghost mid = *self;
        let r = self.play(context);
        proof {
            lemma_asked_to_load_kept(
                *self,
                mid,
                *self,
                start,
                context.capability_matrix.transcode_offset,
                index,
                0,
                true,
                r is Ok,
                quiet(*self, mid),
                r is Ok,
                quiet(*self, start),
            );
            assert(self.notices@[k] == stop_notice);
        }
        r
    }

    /// Marks the current track finished: playback stops at the start of the current entry.
    pub fn on_track_finished(&mut self) -> (r: PlaybackStatus)
        requires
            old(self).wf(),
        ensures
            Self::grows(*final(self), *old(self)),
            final(self).wf(),
            r.same_as(final(self).st()),
            final(self).st() == (PlaybackStatus {
                playing_state: PlayingState::Stopped,
                current_position_ms: 0,
                playback_error: None,
                interrupt_reason: None,
                pending_seek_position_ms: None,
                actual_stream_info: None,
                prepared_stream_info: None,
                gapless_status: final(self).st().gapless_status,
                ..old(self).st()
            }),
            Self::same_config(*final(self), *old(self)),
            final(self).prepared_view() is None,
            final(self).resume_state_view() is None,
            quiet(*final(self), *old(self)),
    {
        self.clear_gapless_preparation();
        self.clear_server_reporting();
        self.clear_native_events();
        self.status.playing_state = PlayingState::Stopped;
        self.status.current_position_ms = 0;
        self.status.playback_error = None;
        self.status.interrupt_reason = None;
        self.status.pending_seek_position_ms = None;
        self.status.actual_stream_info = None;
        self.interrupted_resume_state = None;
        self.report_status();
        self.state()
    }

    /// Stops the backend and forgets the queue and the profile: the controller is as new.
    pub fn reset(&mut self) -> (r: PlaybackStatus)
        ensures
            Self::grows(*final(self), *old(self)),
            final(self).wf(),
            r.same_as(final(self).st()),
            final(self).st().queue@.len() == 0,
            final(self).st().current_index is None,
            final(self).st().play_next_queue_len == 0,
            final(self).st().current_position_ms == 0,
            final(self).st().current_song_id is None,
            final(self).st().playing_state == PlayingState::Idle,
            final(self).st().playback_error is None,
            final(self).st().interrupt_reason is None,
            final(self).st().pending_seek_position_ms is None,
            final(self).st().actual_stream_info is None,
            final(self).prepared_view() is None,
            final(self).resume_state_view() is None,
            final(self).active_profile() is None,
            !final(self).restore_deferred(),
            final(self).gapless_enabled() == old(self).gapless_enabled(),
            final(self).output_device_view() == old(self).output_device_view(),
            Self::stopped_since(*final(self), *old(self)),
    {
        self.clear_gapless_preparation();
        self.clear_server_reporting();
        let ghost k = self.notices@.len() as int;
        let _ = self.backend_stop();
        self.clear_native_events();
        self.status = PlaybackStatus::empty();
        self.interrupted_resume_state = None;
        self.active_profile_id = None;
        self.restore_state_deferred = false;
        self.sync_queue_state();
        self.persist_state();
        self.report_status();
        let status = self.state();
        assert(self.notices@[k] is BackendStopped);
        status
    }

    /// Before the application exits: saves the playback state, with the position read from
    /// the backend while playing, and stops a loaded track.
    pub fn sync_and_persist(&mut self)
        requires
            old(self).wf(),
        ensures
            Self::grows(*final(self), *old(self)),
            final(self).wf(),
            Self::same_aux(*final(self), *old(self)),
            final(self).st() == old(self).st() || (old(self).st().playing_state
                == PlayingState::Playing && pos_synced(old(self).st(), final(self).st())),
            persisted_and_stopped(*final(self), *old(self)),
    {
        let ghost start = self.notices@;
        let ghost b = *self;
        if self.active_profile_id.is_some() && !self.restore_state_deferred {
            if self.status.playing_state == PlayingState::Playing {
                let _ = self.sync_current_position_from_backend();
                assert(self.notices@ =~= start.push(self.notices@.last()));
            } else {
                assert(self.notices@ =~= start);
            }
            let ghost read = self.notices@;
            let ghost before_save = *self;
            self.persist_state();
            assert(self.notices@ =~= read.push(self.notices@.last()));
            proof {
                let n = start.len() as int;
                if let ControllerNotice::StateSaved(f) = self.notices@.last() {
                    assert(before_save.saved_state(f));
                    if b.st().playing_state == PlayingState::Playing {
                        assert(self.notices@[n] == read[n]);
                        assert(read[n] is PositionRead);
                        if let ControllerNotice::PositionRead { answer } = read[n] {
                            if let Ok(p) = answer {
                                assert(before_save.st().current_position_ms == p);
                            } else {
                                assert(before_save.st() == b.st());
                            }
                        }
                    } else {
                        assert(before_save.st() == b.st());
                    }
                }
            }
        } else {
            assert(self.notices@ =~= start);
        }
        let ghost saved = self.notices@;
        let ghost mid = *self;
        if self.status.playing_state == PlayingState::Playing || self.status.playing_state
            == PlayingState::Paused || self.status.playing_state == PlayingState::Interrupted {
            let stop_answer = self.backend_stop();
            let ghost stopped = self.notices@;
            self.clear_native_events();
            assert(self.notices@ =~= self.notices@.drop_last().push(self.notices@.last()));
            assert(self.notices@ =~= stopped.push(ControllerNotice::EventsDropped));
            assert(self.notices@ =~= saved + seq![
                ControllerNotice::BackendStopped { answer: stop_answer },
                ControllerNotice::EventsDropped,
            ]);
        } else {
            assert(self.notices@ =~= saved + Seq::<ControllerNotice>::empty());
        }
        proof {
            let n = start.len() as int;
            assert forall|i: int| 0 <= i < saved.len() implies self.notices@[i] == saved[i] by {}
            if saved.len() > start.len() {
                if let ControllerNotice::StateSaved(f) = saved.last() {
                    assert(mid.saved_state(f));
                    assert(self.saved_state(f));
                }
            }
            assert(self.notices@.subrange(0, n) =~= start);
        }
    }

    /// Seeks the current entry (the first one where there is none) to `requested_position_ms`:
    /// an active track is sought by the backend, or reloaded there when the backend cannot
    /// seek in place; anything else only moves the position.
    #[verifier::rlimit(60)]
    pub fn seek(&mut self, context: &PlaybackRuntimeContext<'_>, requested_position_ms: u32) -> (r:
        Result<PlaybackStatus, String>)
        requires
            old(self).wf(),
        ensures
            Self::grows(*final(self), *old(self)),
            final(self).wf(),
            final(self).events_applied() >= old(self).events_applied(),
            final(self).st().queue@ == old(self).st().queue@,
            Self::same_config(*final(self), *old(self)),
            old(self).st().queue@.len() == 0 ==> (r matches Err(e) && e@ == queue_empty_message()
                && final(self).st() == old(self).st()),
            r matches Ok(s) ==> s.same_as(final(self).st()),
            r is Ok && quiet(*final(self), *old(self)) ==> seek_outcome(
                *final(self),
                *old(self),
                requested_position_ms,
            ),
            old(self).st().queue@.len() > 0 && !is_active(old(self).st().playing_state) && quiet(
                *final(self),
                *old(self),
            ) ==> r is Ok && final(self).notices().len() == old(self).notices().len() + 1
                && final(self).notices().last() is StatusReported,
            old(self).st().queue@.len() > 0 && is_active(old(self).st().playing_state) ==> seek_handover(
                *final(self),
                *old(self),
                context.capability_matrix.transcode_offset,
                requested_position_ms,
                r,
            ),
    {
        let ghost start = *self;
        let ghost n = self.notices@.len() as int;
        let index = match self.ensure_current_index() {
            Ok(i) => i,
            Err(e) => {
                return Err(e);
            },
        };
        let autoplay = self.should_autoplay();
        let ghost offset = context.capability_matrix.transcode_offset;
        let ghost mut reload_path = false;
        let ghost mut reload_before = *self;
        let ghost mut reload_after = *self;
        let ghost mut reload_ok = false;
        if self.status.playing_state == PlayingState::Playing || self.status.playing_state
            == PlayingState::Paused {
            match self.sync_current_position_from_backend() {
                Ok(()) => {},
                Err(e) => {
                    return Err(e);
                },
            }
            let sought = self.backend_seek(requested_position_ms);
            assert(self.notices@[n + 1] == (ControllerNotice::BackendSought { position_ms: requested_position_ms, answer: sought }));
            match sought {
                Ok(PlaybackSeekAction::Applied) => {
                    self.status.playback_error = None;
                    self.status.interrupt_reason = None;
                    self.status.pending_seek_position_ms = Some(requested_position_ms);
                },
                Ok(PlaybackSeekAction::ReloadRequired) => {
                    let ghost rb = *self;
                    let reloaded = self.reload_track_at_index_exact(
                        context,
                        index,
                        requested_position_ms,
                        autoplay,
                    );
                    proof {
                        reload_path = true;
                        reload_before = rb;
                        reload_after = *self;
                        reload_ok = reloaded is Ok;
                    }
                    match reloaded {
                        Ok(()) => {},
                        Err(e) => {
                            proof {
                                lemma_load_recorded_kept(
                                    reload_after,
                                    reload_before,
                                    reload_before.notices().len() as int,
                                    *self,
                                    start,
                                    n,
                                    offset,
                                    start.st().queue@[index as int],
                                    requested_position_ms,
                                    autoplay,
                                    false,
                                    true,
                                    false,
                                    quiet(*self, start),
                                );
                            }
                            return Err(e);
                        },
                    }
                },
                Err(e) => {
                    return Err(e);
                },
            }
        } else {
            self.status.current_position_ms = requested_position_ms;
            self.status.playback_error = None;
            self.status.interrupt_reason = None;
            self.status.pending_seek_position_ms = None;
            self.interrupted_resume_state = None;
        }
        match self.process_native_events_inner(Some(context), false) {
            Ok(_) => {},
            Err(e) => {
                proof {
                    if reload_path {
                        lemma_load_recorded_kept(
                            reload_after,
                            reload_before,
                            reload_before.notices().len() as int,
                            *self,
                            start,
                            n,
                            offset,
                            start.st().queue@[index as int],
                            requested_position_ms,
                            autoplay,
                            true,
                            true,
                            false,
                            quiet(*self, start),
                        );
                    }
                }
                return Err(e);
            },
        }
        let reported_position_ms = match self.status.pending_seek_position_ms {
            Some(p) => p,
            None => self.status.current_position_ms,
        };
        if self.status.playing_state == PlayingState::Playing {
            self.report_current_server_playback_state(
                context,
                reported_position_ms,
                ServerPlaybackState::Playing,
            );
        } else if self.status.playing_state == PlayingState::Paused {
            self.report_current_server_playback_state(
                context,
                reported_position_ms,
                ServerPlaybackState::Paused,
            );
        }
        let ghost pre = self.notices@;
        self.report_status();
        assert(self.notices@ =~= pre.push(self.notices@.last()));
        proof {
            if !is_active(start.st().playing_state) && self.events_applied() == start.events_applied() {
                assert(pre == start.notices());
            }
        }
        let status = self.state();
        proof {
            if reload_path {
                lemma_load_recorded_kept(
                    reload_after,
                    reload_before,
                    reload_before.notices().len() as int,
                    *self,
                    start,
                    n,
                    offset,
                    start.st().queue@[index as int],
                    requested_position_ms,
                    autoplay,
                    true,
                    true,
                    true,
                    quiet(*self, start),
                );
            }
        }
        Ok(status)
    }

    /// Moves to the entry after the current one (the first entry where there is none), at
    /// its start: loaded, playing or paused as before, where a track was active; stopped
    /// otherwise. The play-next region shrinks as [`adjusted_play_next`] says.
    pub fn next(&mut self, context: &PlaybackRuntimeContext<'_>) -> (r: Result<
        PlaybackStatus,
        String,
    >)
        requires
            old(self).wf(),
        ensures
            Self::grows(*final(self), *old(self)),
            final(self).wf(),
            final(self).events_applied() >= old(self).events_applied(),
            final(self).st().queue@ == old(self).st().queue@,
            Self::same_config(*final(self), *old(self)),
            old(self).st().queue@.len() == 0 ==> (r matches Err(e) && e@ == queue_empty_message()
                && final(self).st() == old(self).st()),
            old(self).st().queue@.len() > 0 && current_or_first(old(self).st()) == u32::MAX ==> (
            r matches Err(e) && e@ == position_out_of_range_message()),
            old(self).st().queue@.len() > 0 && current_or_first(old(self).st()) < u32::MAX
                && current_or_first(old(self).st()) + 1 >= old(self).st().queue@.len() ==> (
            r matches Err(e) && e@ == end_of_queue_message()),
            r matches Ok(s) ==> s.same_as(final(self).st()),
            r is Ok && quiet(*final(self), *old(self)) ==> stepped_to(
                *final(self),
                *old(self),
                current_or_first(old(self).st()),
                (current_or_first(old(self).st()) + 1) as u32,
            ),
            old(self).st().queue@.len() > 0 && current_or_first(old(self).st()) < u32::MAX
                && current_or_first(old(self).st()) + 1 < old(self).st().queue@.len() && !is_active(old(self).st().playing_state) && quiet(
                *final(self),
                *old(self),
            ) ==> r is Ok,
            old(self).st().queue@.len() > 0 && current_or_first(old(self).st()) < u32::MAX
                && current_or_first(old(self).st()) + 1 < old(self).st().queue@.len() && is_active(old(self).st().playing_state) ==> {
                let n = old(self).notices().len() as int;
                &&& n < final(self).notices().len()
                &&& final(self).notices()[n] is PositionRead
                &&& read_failed(final(self).notices()[n]) ==> r is Err
                &&& !read_failed(final(self).notices()[n]) ==> asked_to_load(
                    *final(self),
                    *old(self),
                    context.capability_matrix.transcode_offset,
                    (current_or_first(old(self).st()) + 1) as u32,
                    0,
                    resumes_playing(*old(self)),
                    r is Ok,
                    quiet(*final(self), *old(self)),
                )
            },
    {
        let ghost start = *self;
        let ghost offset = context.capability_matrix.transcode_offset;
        let current_index = match self.ensure_current_index() {
            Ok(i) => i,
            Err(e) => {
                return Err(e);
            },
        };
        if current_index == u32::MAX {
            return Err(String::from_str("The current queue position is out of range."));
        }
        let next_index = current_index + 1;
        if next_index as usize >= self.status.queue.len() {
            return Err(String::from_str("Already at the end of the playback queue."));
        }
        let autoplay = self.should_autoplay();
        let ghost before = self.status;
        self.status.play_next_queue_len = adjusted_play_next_queue_len_for_current_change(
            self.status.queue.len(),
            Some(current_index),
            self.status.play_next_queue_len,
            Some(next_index),
        );
        proof {
            lemma_adjusted_play_next_wf(
                before.queue@.len() as int,
                Some(current_index),
                before.play_next_queue_len as int,
                Some(next_index),
            );
        }
        if self.status.playing_state == PlayingState::Playing || self.status.playing_state
            == PlayingState::Paused {
            match self.sync_current_position_from_backend() {
                Ok(()) => {},
                Err(e) => {
                    return Err(e);
                },
            }
            let position_ms = self.status.current_position_ms;
            self.report_current_server_playback_stopped(context, position_ms);
            let ghost mid = *self;
            let loaded = self.load_track_at_index(context, next_index, 0, autoplay);
            let ghost after_load = *self;
            assert(asked_to_load(after_load, mid, offset, next_index, 0, autoplay, loaded is Ok, true));
            match loaded {
                Ok(()) => {},
                Err(e) => {
                    proof {
                        lemma_asked_to_load_kept(after_load, mid, *self, start, offset, next_index, 0, autoplay, false, true, false, quiet(*self, start));
                    }
                    return Err(e);
                },
            }
            proof {
                lemma_asked_to_load_kept(after_load, mid, after_load, start, offset, next_index, 0, autoplay, true, true, true, quiet(after_load, start));
            }
        } else {
            self.status.current_index = Some(next_index);
            self.status.current_song_id = current_song_id(&self.status.queue, Some(next_index));
            self.status.current_position_ms = 0;
            self.status.playing_state = PlayingState::Stopped;
            self.status.playback_error = None;
            self.status.interrupt_reason = None;
            self.status.pending_seek_position_ms = None;
            self.interrupted_resume_state = None;
        }
        let ghost stepped = *self;
        self.persist_state();
        match self.process_native_events_inner(Some(context), false) {
            Ok(_) => {},
            Err(e) => {
                proof {
                    if is_active(start.st().playing_state) {
                        lemma_asked_to_load_kept(stepped, start, *self, start, offset, next_index, 0, autoplay, true, quiet(stepped, start), false, quiet(*self, start));
                    }
                }
                return Err(e);
            },
        }
        self.report_status();
        let r = self.state();
        proof {
            if is_active(start.st().playing_state) {
                lemma_asked_to_load_kept(stepped, start, *self, start, offset, next_index, 0, autoplay, true, quiet(stepped, start), true, quiet(*self, start));
            }
        }
        Ok(r)
    }

    /// Goes back: near the start of a track to the entry before it, at its start; past
    /// three seconds into it, or on the first entry, to the start of the current track.
    #[verifier::rlimit(80)]
    #[verifier::spinoff_prover]
    pub fn prev(&mut self, context: &PlaybackRuntimeContext<'_>) -> (r: Result<
        PlaybackStatus,
        String,
    >)
        requires
            old(self).wf(),
        ensures
            Self::grows(*final(self), *old(self)),
            final(self).wf(),
            final(self).events_applied() >= old(self).events_applied(),
            final(self).st().queue@ == old(self).st().queue@,
            Self::same_config(*final(self), *old(self)),
            old(self).st().queue@.len() == 0 ==> (r matches Err(e) && e@ == queue_empty_message()
                && final(self).st() == old(self).st()),
            r matches Ok(s) ==> s.same_as(final(self).st()),
            r is Ok && quiet(*final(self), *old(self)) ==> ({
                let cur = current_or_first(old(self).st());
                if goes_back(*final(self), *old(self)) {
                    stepped_to(*final(self), *old(self), cur, (cur - 1) as u32)
                } else {
                    seek_outcome(*final(self), *old(self), 0)
                }
            }),
            old(self).st().queue@.len() > 0 && !is_active(old(self).st().playing_state) && quiet(
                *final(self),
                *old(self),
            ) ==> r is Ok,
            old(self).st().queue@.len() > 0 && is_active(old(self).st().playing_state) ==> {
                let n = old(self).notices().len() as int;
                &&& n < final(self).notices().len()
                &&& final(self).notices()[n] is PositionRead
                &&& read_failed(final(self).notices()[n]) ==> r is Err
                &&& !read_failed(final(self).notices()[n]) && !goes_back(*final(self), *old(self))
                    ==> seek_handover_at(
                    *final(self),
                    n + 1,
                    old(self).st().playing_state,
                    old(self).st().queue@[current_or_first(old(self).st()) as int],
                    resumes_playing(*old(self)),
                    old(self).events_applied(),
                    *old(self),
                    context.capability_matrix.transcode_offset,
                    0,
                    r,
                )
                &&& !read_failed(final(self).notices()[n]) && goes_back(*final(self), *old(self)) ==> {
                    &&& n + 1 < final(self).notices().len()
                    &&& final(self).notices()[n + 1] is PositionRead
                    &&& read_failed(final(self).notices()[n + 1]) ==> r is Err
                    &&& !read_failed(final(self).notices()[n + 1]) ==> asked_to_load(
                        *final(self),
                        *old(self),
                        context.capability_matrix.transcode_offset,
                        (current_or_first(old(self).st()) - 1) as u32,
                        0,
                        resumes_playing(*old(self)),
                        r is Ok,
                        quiet(*final(self), *old(self)),
                    )
                }
            },
    {
        let ghost start = *self;
        let ghost n = self.notices@.len() as int;
        let ghost offset = context.capability_matrix.transcode_offset;
        let current_index = match self.ensure_current_index() {
            Ok(i) => i,
            Err(e) => {
                return Err(e);
            },
        };
        let ghost chosen = *self;
        if self.status.playing_state == PlayingState::Playing || self.status.playing_state
            == PlayingState::Paused {
            match self.sync_current_position_from_backend() {
                Ok(()) => {},
                Err(e) => {
                    return Err(e);
                },
            }
        }
        if current_index == 0 || self.status.current_position_ms > PREV_RESTART_THRESHOLD_MS {
            let ghost before_seek = *self;
            let sought = self.seek(context, 0);
            let ghost after_seek = *self;
            let state = match sought {
                Ok(s) => s,
                Err(e) => {
                    proof {
                        if is_active(start.st().playing_state) {
                            lemma_seek_handover_kept(
                                after_seek,
                                *self,
                                n + 1,
                                start.st().playing_state,
                                start.st().queue@[current_or_first(start.st()) as int],
                                resumes_playing(start),
                                start.events_applied(),
                                before_seek,
                                start,
                                offset,
                                0,
                                sought,
                            );
                        }
                    }
                    return Err(e);
                },
            };
            self.persist_state();
            proof {
                if is_active(start.st().playing_state) {
                    lemma_seek_handover_kept(
                        after_seek,
                        *self,
                        n + 1,
                        start.st().playing_state,
                        start.st().queue@[current_or_first(start.st()) as int],
                        resumes_playing(start),
                        start.events_applied(),
                        before_seek,
                        start,
                        offset,
                        0,
                        sought,
                    );
                }
            }
            return Ok(state);
        }
        let prev_index = current_index - 1;
        let autoplay = self.should_autoplay();
        let ghost before = self.status;
        self.status.play_next_queue_len = adjusted_play_next_queue_len_for_current_change(
            self.status.queue.len(),
            Some(current_index),
            self.status.play_next_queue_len,
            Some(prev_index),
        );
        proof {
            lemma_adjusted_play_next_wf(
                before.queue@.len() as int,
                Some(current_index),
                before.play_next_queue_len as int,
                Some(prev_index),
            );
        }
        if self.status.playing_state == PlayingState::Playing || self.status.playing_state
            == PlayingState::Paused {
            match self.sync_current_position_from_backend() {
                Ok(()) => {},
                Err(e) => {
                    return Err(e);
                },
            }
            let position_ms = self.status.current_position_ms;
            self.report_current_server_playback_stopped(context, position_ms);
            let ghost mid = *self;
            let loaded = self.load_track_at_index(context, prev_index, 0, autoplay);
            let ghost after_load = *self;
            assert(asked_to_load(after_load, mid, offset, prev_index, 0, autoplay, loaded is Ok, true));
            match loaded {
                Ok(()) => {},
                Err(e) => {
                    proof {
                        lemma_asked_to_load_kept(after_load, mid, *self, start, offset, prev_index, 0, autoplay, false, true, false, quiet(*self, start));
                    }
                    return Err(e);
                },
            }
            proof {
                lemma_asked_to_load_kept(after_load, mid, after_load, start, offset, prev_index, 0, autoplay, true, true, true, quiet(after_load, start));
            }
        } else {
            self.status.current_index = Some(prev_index);
            self.status.current_song_id = current_song_id(&self.status.queue, Some(prev_index));
            self.status.current_position_ms = 0;
            self.status.playing_state = PlayingState::Stopped;
            self.status.playback_error = None;
            self.status.interrupt_reason = None;
            self.status.pending_seek_position_ms = None;
            self.interrupted_resume_state = None;
        }
        let ghost stepped = *self;
        self.persist_state();
        match self.process_native_events_inner(Some(context), false) {
            Ok(_) => {},
            Err(e) => {
                proof {
                    if is_active(start.st().playing_state) {
                        lemma_asked_to_load_kept(stepped, start, *self, start, offset, prev_index, 0, autoplay, true, quiet(stepped, start), false, quiet(*self, start));
                    }
                }
                return Err(e);
            },
        }
        self.report_status();
        let r = self.state();
        proof {
            if is_active(start.st().playing_state) {
                lemma_asked_to_load_kept(stepped, start, *self, start, offset, prev_index, 0, autoplay, true, quiet(stepped, start), true, quiet(*self, start));
            }
        }
        Ok(r)
    }

    /// Switches the output device (normalized). An active track is reloaded on the new device
    /// at its position, playing or paused as before; where the backend cannot stop the old
    /// stream or the reload fails, the previous device is selected again and the error is
    /// returned. Nothing happens when the device does not change.
    #[verifier::rlimit(100)]
    #[verifier::spinoff_prover]
    pub fn set_output_device(
        &mut self,
        output_device_id: Option<String>,
        context: Option<&PlaybackRuntimeContext<'_>>,
    ) -> (r: Result<(), String>)
        requires
            old(self).wf(),
        ensures
            Self::grows(*final(self), *old(self)),
            final(self).wf(),
            final(self).st().queue@ == old(self).st().queue@,
            final(self).active_profile() == old(self).active_profile(),
            final(self).restore_deferred() == old(self).restore_deferred(),
            final(self).gapless_enabled() == old(self).gapless_enabled(),
            final(self).capabilities_view() == old(self).capabilities_view(),
            final(self).stream_mode_view() == old(self).stream_mode_view(),
            final(self).max_bit_rate_view() == old(self).max_bit_rate_view(),
            final(self).codec_view() == old(self).codec_view(),
            quiet(*final(self), *old(self)),
            opt_chars(old(self).output_device_view()) == normalized_output_device_id(output_device_id)
                ==> r is Ok && *final(self) == *old(self),
            opt_chars(old(self).output_device_view()) != normalized_output_device_id(output_device_id)
                && is_active(old(self).st().playing_state) && context is None ==> (r matches Err(e)
                && e@ == no_reload_session_message() && final(self).st() == old(self).st()
                && Self::same_aux(*final(self), *old(self))),
            r is Ok ==> opt_chars(final(self).output_device_view()) == normalized_output_device_id(
                output_device_id,
            ),
            r is Err ==> final(self).output_device_view() == old(self).output_device_view(),
            r matches Err(e) ==> device_change_failed(*final(self), *old(self), e@),
            r is Ok && opt_chars(old(self).output_device_view()) != normalized_output_device_id(
                output_device_id,
            ) ==> {
                &&& final(self).recovery_attempts_view() == 0
                &&& !final(self).recovery_pending()
                &&& if is_active(old(self).st().playing_state) {
                    &&& final(self).st().current_index == Some(current_or_first(old(self).st()))
                    &&& final(self).st().playing_state == old(self).st().playing_state
                    &&& final(self).st().playback_error is None
                    &&& final(self).st().interrupt_reason is None
                    &&& final(self).st().pending_seek_position_ms is None
                } else {
                    core_eq(final(self).st(), old(self).st())
                }
            },
            opt_chars(old(self).output_device_view()) != normalized_output_device_id(output_device_id)
                ==> device_switch(
                *final(self),
                *old(self),
                normalized_output_device_id(output_device_id),
                context is Some,
                match context {
                    Some(ctx) => ctx.capability_matrix.transcode_offset,
                    None => false,
                },
                r,
            ),
    {
        let ghost n = self.notices@.len() as int;
        let ghost start = *self;
        let output_device_id = normalize_output_device_id(output_device_id);
        let unchanged = match (&self.output_device_id, &output_device_id) {
            (Some(a), Some(b)) => same_text(a.as_str(), b.as_str()),
            (None, None) => true,
            _ => false,
        };
        if unchanged {
            return Ok(());
        }
        let previous_output_device_id = copy_opt_string(&self.output_device_id);
        let should_reload = self.status.playing_state == PlayingState::Playing
            || self.status.playing_state == PlayingState::Paused;
        let reload_context = if should_reload {
            match context {
                Some(ctx) => Some(ctx),
                None => {
                    return Err(
                        String::from_str(
                            "No active session is available to reload playback after output device change.",
                        ),
                    );
                },
            }
        } else {
            None
        };
        let reload_index = if should_reload {
            let index = match self.ensure_current_index() {
                Ok(i) => i,
                Err(e) => {
                    return Err(e);
                },
            };
            match self.sync_current_position_from_backend() {
                Ok(()) => {},
                Err(e) => {
                    return Err(e);
                },
            }
            Some(index)
        } else {
            None
        };
        proof { Self::lemma_calm_step(*self, start); }
        let reload_position_ms = self.status.current_position_ms;
        let autoplay = self.status.playing_state == PlayingState::Playing;
        let ghost k1 = self.notices@.len() as int;
        let ghost p = *self;
        let switched = self.backend_set_output_device(copy_opt_string(&output_device_id));
        proof { Self::lemma_calm_step(*self, p); Self::lemma_calm_chain(*self, p, start); }
        let ghost switched_notice = self.notices@[k1];
        assert(switched_notice == (ControllerNotice::BackendDeviceSet { device: output_device_id, answer: switched }));
        match switched {
            Ok(()) => {},
            Err(e) => {
                return Err(e);
            },
        }
        self.output_device_id = output_device_id;
        let ghost p = *self;
        self.clear_gapless_preparation();
        proof { Self::lemma_calm_step(*self, p); Self::lemma_calm_chain(*self, p, start); }
        let ghost mut before_stop = *self;
        let ghost mut after_stop = *self;
        let ghost mut reload_before = *self;
        let ghost mut reload_after = *self;
        let ghost offset = match context {
            Some(ctx) => ctx.capability_matrix.transcode_offset,
            None => false,
        };
        match (reload_index, reload_context) {
            (Some(index), Some(ctx)) => {
                let stopped = self.backend_stop();
                proof { after_stop = *self; }
                match stopped {
                    Ok(()) => {},
                    Err(error) => {
                        let ghost j = self.notices@.len() as int;
                        let rollback_error = match self.backend_set_output_device(
                            copy_opt_string(&previous_output_device_id),
                        ) {
                            Ok(()) => None,
                            Err(e) => Some(e),
                        };
                        proof {
                            Self::lemma_calm_step(*self, after_stop);
                            Self::lemma_stopped_once(*self, start, before_stop, after_stop);
                        }
                        assert(self.notices@[j] is BackendDeviceSet);
                        self.output_device_id = previous_output_device_id;
                        assert(self.notices@[k1] == switched_notice);
                        return Err(format_output_device_change_error(error, rollback_error));
                    },
                }
                let ghost p = *self;
                self.clear_native_events();
                proof { Self::lemma_calm_step(*self, p); }
                let ghost q = *self;
                self.clear_server_reporting();
                proof { Self::lemma_calm_step(*self, q); Self::lemma_calm_chain(*self, q, p); }
                self.status.actual_stream_info = None;
                let ghost q = *self;
                let reloaded = self.reload_track_at_index_exact(ctx, index, reload_position_ms, autoplay);
                proof { Self::lemma_calm_chain(*self, q, p); }
                proof {
                    reload_before = q;
                    reload_after = *self;
                }
                match reloaded {
                    Ok(()) => {},
                    Err(error) => {
                        let ghost j = self.notices@.len() as int;
                        let ghost q = *self;
                        let rollback_error = match self.backend_set_output_device(
                            copy_opt_string(&previous_output_device_id),
                        ) {
                            Ok(()) => None,
                            Err(e) => Some(e),
                        };
                        proof { Self::lemma_calm_step(*self, q); Self::lemma_calm_chain(*self, q, p); }
                        let ghost rolled = self.notices@[j];
                        assert(rolled is BackendDeviceSet);
                        self.output_device_id = previous_output_device_id;
                        let playback_error = playback_error_from_load_failure(error.as_str());
                        let returned_error = playback_error.message.clone();
                        self.status.playing_state = PlayingState::Error;
                        self.status.current_position_ms = reload_position_ms;
                        self.status.playback_error = Some(playback_error);
                        self.status.interrupt_reason = None;
                        self.status.pending_seek_position_ms = None;
                        self.status.actual_stream_info = None;
                        self.interrupted_resume_state = None;
                        let ghost q = *self;
                        self.clear_gapless_preparation();
                        proof { Self::lemma_calm_step(*self, q); Self::lemma_calm_chain(*self, q, p); }
                        let ghost q = *self;
                        self.clear_server_reporting();
                        proof { Self::lemma_calm_step(*self, q); Self::lemma_calm_chain(*self, q, p); }
                        let ghost q = *self;
                        self.report_status();
                        proof {
                            Self::lemma_calm_step(*self, q);
                            Self::lemma_calm_chain(*self, q, p);
                            Self::lemma_calm_chain(*self, p, after_stop);
                            Self::lemma_stopped_once(*self, start, before_stop, after_stop);
                            lemma_load_recorded_kept(
                                reload_after,
                                reload_before,
                                reload_before.notices().len() as int,
                                *self,
                                start,
                                start.notices().len() as int,
                                offset,
                                start.st().queue@[index as int],
                                reload_position_ms,
                                autoplay,
                                false,
                                true,
                                false,
                                true,
                            );
                        }
                        let ghost message = returned_error@;
                        let returned = format_output_device_change_error(returned_error, rollback_error);
                        assert(returned@.subrange(0, message.len() as int) =~= message);
                        assert(self.notices@[j] == rolled);
                        assert(self.notices@[k1] == switched_notice);
                        return Err(returned);
                    },
                }
                proof { Self::lemma_calm_chain(*self, p, after_stop); }
            },
            _ => {},
        }
        let ghost p = *self;
        self.reset_output_stream_recovery_attempts();
        let ghost q = *self;
        self.persist_state();
        let ghost v = *self;
        self.report_status();
        proof {
            if reload_index is Some && reload_context is Some {
                Self::lemma_calm_step(q, p);
                Self::lemma_calm_chain(q, p, after_stop);
                Self::lemma_no_stop_kept(v, q, after_stop.notices().len() as int);
                Self::lemma_no_stop_kept(*self, v, after_stop.notices().len() as int);
                Self::lemma_stopped_once(*self, start, before_stop, after_stop);
                lemma_load_recorded_kept(
                    reload_after,
                    reload_before,
                    reload_before.notices().len() as int,
                    *self,
                    start,
                    start.notices().len() as int,
                    offset,
                    start.st().queue@[reload_index->0 as int],
                    reload_position_ms,
                    autoplay,
                    true,
                    true,
                    true,
                    true,
                );
            }
        }
        Ok(())
    }
}

} // verus!
