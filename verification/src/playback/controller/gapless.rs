//! Gapless playback: preparing the next queue entry in the backend and switching to it.
use vstd::prelude::*;
use crate::models::browse::SongResponse;
use crate::models::playback::{PlaybackStreamInfo, PlaybackStreamRequestKind, PlayingState};
use crate::models::settings::{PlaybackStreamMode, PlaybackTranscodingCodec};
use crate::playback::server_reporting::ServerPlaybackState;
use crate::queue::{
    adjusted_play_next, adjusted_play_next_queue_len_for_current_change, current_queue_entry,
    lemma_adjusted_play_next_wf,
};
use crate::text::same_text;
use super::support::{is_missing_prepared_error, is_missing_prepared_stream_error};
use super::{
    core_eq, is_active, next_target, same_target, PlaybackController, PlaybackRuntimeContext,
    PreparedGaplessTrackState,
};

verus! {

/// The stream information of a prepared track once it plays: the same request, marked as an
/// activation, with the given autoplay.
pub open spec fn activated_info(info: Option<PlaybackStreamInfo>, autoplay: bool) -> Option<
    PlaybackStreamInfo,
> {
    match info {
        Some(i) => Some(
            PlaybackStreamInfo {
                request_kind: PlaybackStreamRequestKind::ActivatePrepared,
                autoplay,
                ..i
            },
        ),
        None => None,
    }
}

/// Whether a next track is wanted now: the backend supports gapless playback, a session is
/// there, gapless playback is enabled and a track is active.
pub open spec fn gapless_wanted(c: PlaybackController, has_context: bool) -> bool {
    &&& c.capabilities_view().gapless_playback
    &&& has_context
    &&& c.gapless_enabled()
    &&& is_active(c.st().playing_state)
}

/// The preparation of the next track after it was brought in line with the current track,
/// `before` being the preparation that was there: where no next track is wanted, none; where
/// `before` already prepares the entry after the current one, `before`; else a new
/// preparation of that entry, failed exactly when the call failed.
pub open spec fn gapless_synced(
    c: PlaybackController,
    before: Option<PreparedGaplessTrackState>,
    has_context: bool,
    ok: bool,
) -> bool {
    if gapless_wanted(c, has_context) && next_target(c.st()) is Some {
        let t = next_target(c.st())->0;
        if before matches Some(p) && same_target(p.target_view(), t) {
            ok && c.prepared_view() == before
        } else {
            match c.prepared_view() {
                Some(PreparedGaplessTrackState::Preparing { target, .. }) => ok && target == t,
                Some(PreparedGaplessTrackState::Failed { target, generation }) => !ok && target
                    == t && generation is None,
                _ => false,
            }
        }
    } else {
        ok && c.prepared_view() is None
    }
}

/// The profile, restore, output device and capabilities of `a` and `b` agree.
pub open spec fn same_session(a: PlaybackController, b: PlaybackController) -> bool {
    &&& a.active_profile() == b.active_profile()
    &&& a.restore_deferred() == b.restore_deferred()
    &&& a.output_device_view() == b.output_device_view()
    &&& a.capabilities_view() == b.capabilities_view()
}

/// The stream settings of `a` and `b` agree.
pub open spec fn same_stream_settings(a: PlaybackController, b: PlaybackController) -> bool {
    &&& a.stream_mode_view() == b.stream_mode_view()
    &&& a.max_bit_rate_view() == b.max_bit_rate_view()
    &&& a.codec_view() == b.codec_view()
}

/// A preparation that a gapless transition can move to: one preparing or ready.
pub open spec fn transition_ready(p: Option<PreparedGaplessTrackState>) -> bool {
    p matches Some(s) && !(s is Failed)
}

/// What a gapless transition leaves behind, `b` being the controller before it: without
/// gapless support the preparation is dropped; without a preparing or ready track nothing
/// changes; a prepared entry that is no longer in the queue is dropped; else the prepared
/// entry is current, playing from its start, the play-next region shrinks as
/// [`adjusted_play_next`] says, the prepared stream becomes the active one, and the entry after
/// it is prepared where that is wanted.
pub open spec fn gapless_transition_outcome(
    c: PlaybackController,
    b: PlaybackController,
    has_context: bool,
    r: Result<bool, String>,
) -> bool {
    if !b.capabilities_view().gapless_playback {
        &&& r == Ok::<bool, String>(false)
        &&& core_eq(c.st(), b.st())
        &&& c.prepared_view() is None
    } else if !transition_ready(b.prepared_view()) {
        &&& r == Ok::<bool, String>(false)
        &&& c.st() == b.st()
        &&& c.prepared_view() == b.prepared_view()
    } else {
        let t = b.prepared_view()->0.target_view();
        if t.queue_index >= b.st().queue@.len() {
            &&& r == Ok::<bool, String>(false)
            &&& core_eq(c.st(), b.st())
            &&& c.prepared_view() is None
        } else {
            &&& r == Ok::<bool, String>(true)
            &&& c.st().current_index == Some(t.queue_index)
            &&& c.st().current_song_id == Some(b.st().queue@[t.queue_index as int].id)
            &&& c.st().current_position_ms == 0
            &&& c.st().playing_state == PlayingState::Playing
            &&& c.st().play_next_queue_len == adjusted_play_next(
                b.st().queue@.len() as int,
                b.st().current_index,
                b.st().play_next_queue_len as int,
                Some(t.queue_index),
            )
            &&& c.st().playback_error is None
            &&& c.st().interrupt_reason is None
            &&& c.st().pending_seek_position_ms is None
            &&& c.st().active_stream_info == activated_info(b.st().prepared_stream_info, true)
            &&& c.resume_state_view() is None
            &&& (gapless_synced(c, None, has_context, true) || gapless_synced(
                c,
                None,
                has_context,
                false,
            ))
        }
    }
}

/// What the report that the backend finished preparing `generation` leaves behind, `b`
/// being the controller before it: a preparation of that generation becomes ready, and
/// anything else is left as it was; `changed` says which.
pub open spec fn gapless_prepared_outcome(
    c: PlaybackController,
    b: PlaybackController,
    generation: u64,
    changed: bool,
) -> bool {
    &&& c.st() == b.st()
    &&& PlaybackController::kept_state(c, b)
    &&& changed == (b.prepared_view() matches Some(
        PreparedGaplessTrackState::Preparing { generation: g, .. },
    ) && g == generation)
    &&& changed ==> c.prepared_view() == Some(
        PreparedGaplessTrackState::Ready { target: b.prepared_view()->0.target_view(), generation },
    ) && c.gapless_failure_view() is None
    &&& !changed ==> c.prepared_view() == b.prepared_view() && c.gapless_failure_view()
        == b.gapless_failure_view()
}

/// What the report that the backend failed to prepare `generation` leaves behind, `b` being
/// the controller before it: a preparation of that generation is marked failed with
/// `message`, and anything else is left as it was; `changed` says which.
pub open spec fn gapless_failed_outcome(
    c: PlaybackController,
    b: PlaybackController,
    generation: u64,
    message: String,
    changed: bool,
) -> bool {
    &&& c.st() == b.st()
    &&& PlaybackController::kept_state(c, b)
    &&& changed == (b.prepared_view() matches Some(p) && p.generation_view() == Some(generation))
    &&& changed ==> c.prepared_view() == Some(
        PreparedGaplessTrackState::Failed {
            target: b.prepared_view()->0.target_view(),
            generation: Some(generation),
        },
    ) && c.gapless_failure_view() == Some(message)
    &&& !changed ==> c.prepared_view() == b.prepared_view() && c.gapless_failure_view()
        == b.gapless_failure_view()
}

/// The backend of `c` can switch to a preparation that did not fail, of entry `index` with
/// song `song_id`, asked for from its start.
pub open spec fn prepared_for(c: PlaybackController, index: u32, song_id: Seq<char>, pos: u32) -> bool {
    &&& c.capabilities_view().gapless_playback
    &&& pos == 0
    &&& c.prepared_view() matches Some(p) && p.target_view().queue_index == index
        && p.target_view().song_id@ == song_id && !(p is Failed)
}

impl PlaybackController {
    /// Asks the backend to play the prepared track. A backend that has no prepared stream
    /// drops the preparation and answers `false`.
    fn try_activate_backend_prepared_track(&mut self, autoplay: bool) -> (r: Result<bool, String>)
        ensures
            Self::grows(*final(self), *old(self)),
            Self::kept(*final(self), *old(self)),
            final(self).st().active_stream_info == old(self).st().active_stream_info,
            final(self).st().last_stream_request == old(self).st().last_stream_request,
            r matches Ok(true) ==> final(self).prepared_view() is None
                && final(self).gapless_failure_view() is None
                && final(self).st().prepared_stream_info == old(self).st().prepared_stream_info,
            r matches Ok(false) ==> final(self).prepared_view() is None
                && final(self).st().prepared_stream_info is None,
            r matches Err(e) ==> !is_missing_prepared_error(e@) && final(self).st() == old(self).st()
                && Self::same_aux(*final(self), *old(self)),
            old(self).wf() ==> final(self).wf(),
    {
        match self.backend_activate_prepared(autoplay) {
            Ok(()) => {
                self.gapless_failure = None;
                self.prepared_next = None;
                self.update_gapless_status();
                Ok(true)
            },
            Err(error) => {
                if is_missing_prepared_stream_error(error.as_str()) {
                    self.clear_gapless_preparation();
                    Ok(false)
                } else {
                    Err(error)
                }
            },
        }
    }

    /// Plays the prepared next track in place of a load, where it is the entry asked for
    /// from its start: `true` when the backend switched to it. A preparation of another
    /// entry, or one that failed, is dropped.
    pub(super) fn try_activate_prepared_gapless_track(
        &mut self,
        index: u32,
        entry: &SongResponse,
        requested_position_ms: u32,
        autoplay: bool,
    ) -> (r: Result<bool, String>)
        ensures
            Self::grows(*final(self), *old(self)),
            Self::kept(*final(self), *old(self)),
            final(self).st().last_stream_request == old(self).st().last_stream_request,
            r matches Ok(true) ==> {
                &&& old(self).capabilities_view().gapless_playback
                &&& requested_position_ms == 0
                &&& old(self).prepared_view() matches Some(p) && p.target_view().queue_index
                    == index && p.target_view().song_id@ == entry.id@ && !(p is Failed)
                &&& final(self).prepared_view() is None
                &&& final(self).st().active_stream_info == activated_info(
                    old(self).st().prepared_stream_info,
                    autoplay,
                )
                &&& final(self).st().prepared_stream_info is None
            },
            r matches Ok(false) ==> {
                &&& final(self).st().active_stream_info == old(self).st().active_stream_info
                &&& if old(self).capabilities_view().gapless_playback
                    && old(self).prepared_view() is Some {
                    final(self).prepared_view() is None
                } else {
                    final(self).prepared_view() == old(self).prepared_view()
                }
            },
            r is Err ==> final(self).st() == old(self).st() && Self::same_aux(*final(self), *old(self)),
            !prepared_for(*old(self), index, entry.id@, requested_position_ms) ==> r == Ok::<
                bool,
                String,
            >(false),
            old(self).wf() ==> final(self).wf(),
    {
        if !self.supports_gapless_playback() {
            return Ok(false);
        }
        let (is_target, failed) = match &self.prepared_next {
            None => {
                return Ok(false);
            },
            Some(prepared) => {
                let target = prepared.target();
                let is_target = requested_position_ms == 0 && target.queue_index == index
                    && same_text(target.song_id.as_str(), entry.id.as_str());
                let failed = match prepared {
                    PreparedGaplessTrackState::Failed { .. } => true,
                    _ => false,
                };
                (is_target, failed)
            },
        };
        if !is_target || failed {
            self.clear_gapless_preparation();
            return Ok(false);
        }
        let activated = match self.try_activate_backend_prepared_track(autoplay) {
            Ok(a) => a,
            Err(e) => {
                return Err(e);
            },
        };
        if activated {
            let active = match &self.status.prepared_stream_info {
                Some(info) => {
                    let mut i = info.duplicate();
                    i.request_kind = PlaybackStreamRequestKind::ActivatePrepared;
                    i.autoplay = autoplay;
                    Some(i)
                },
                None => None,
            };
            self.status.prepared_stream_info = None;
            self.status.active_stream_info = active;
        }
        Ok(activated)
    }

    /// Brings the preparation of the next track in line with the current track: prepares
    /// the entry after the current one while gapless playback is wanted, and drops the
    /// preparation otherwise.
    pub(super) fn sync_gapless_for_current_track(
        &mut self,
        context: Option<&PlaybackRuntimeContext<'_>>,
    ) -> (r: Result<(), String>)
        ensures
            Self::grows(*final(self), *old(self)),
            Self::kept(*final(self), *old(self)),
            final(self).st().active_stream_info == old(self).st().active_stream_info,
            gapless_synced(*final(self), old(self).prepared_view(), context is Some, r is Ok),
            old(self).wf() ==> final(self).wf(),
            Self::calm_since(*final(self), *old(self)),
    {
        if !self.supports_gapless_playback() {
            self.clear_gapless_preparation();
            proof { Self::lemma_calm_step(*self, *old(self)); }
            return Ok(());
        }
        let context = match context {
            Some(c) => c,
            None => {
                self.clear_gapless_preparation();
                proof { Self::lemma_calm_step(*self, *old(self)); }
                return Ok(());
            },
        };
        if !self.gapless_playback_enabled || !self.can_prepare_gapless_from_current_state() {
            self.clear_gapless_preparation();
            proof { Self::lemma_calm_step(*self, *old(self)); }
            return Ok(());
        }
        let target = match self.current_gapless_target() {
            Some(t) => t,
            None => {
                self.clear_gapless_preparation();
                proof { Self::lemma_calm_step(*self, *old(self)); }
                return Ok(());
            },
        };
        let already = match &self.prepared_next {
            Some(prepared) => {
                let t = prepared.target();
                t.queue_index == target.queue_index && same_text(
                    t.song_id.as_str(),
                    target.song_id.as_str(),
                )
            },
            None => false,
        };
        if already {
            proof { Self::lemma_calm_step(*self, *old(self)); }
            return Ok(());
        }
        self.clear_gapless_preparation();
        proof { Self::lemma_calm_step(*self, *old(self)); }
        let ghost cleared = *self;
        let entry = match current_queue_entry(&self.status.queue, Some(target.queue_index)) {
            Some(e) => e.duplicate(),
            None => {
                return Err(String::from_str("Current playback entry does not exist."));
            },
        };
        let prepared = self.prepare_stream_for_song(context, &entry);
        proof { Self::lemma_calm_chain(*self, cleared, *old(self)); }
        let ghost after_prepare = *self;
        match prepared {
            Ok(generation) => {
                self.gapless_failure = None;
                self.prepared_next = Some(
                    PreparedGaplessTrackState::Preparing { target, generation },
                );
                self.update_gapless_status();
                proof {
                    Self::lemma_calm_step(*self, after_prepare);
                    Self::lemma_calm_chain(*self, after_prepare, *old(self));
                }
                Ok(())
            },
            Err(error) => {
                self.gapless_failure = Some(error.clone());
                self.prepared_next = Some(
                    PreparedGaplessTrackState::Failed { target, generation: None },
                );
                self.update_gapless_status();
                proof {
                    Self::lemma_calm_step(*self, after_prepare);
                    Self::lemma_calm_chain(*self, after_prepare, *old(self));
                }
                Err(error)
            },
        }
    }

    /// Turns gapless playback on or off, and brings the preparation of the next track in
    /// line. Nothing happens when the setting does not change.
    pub fn set_gapless_playback_enabled(
        &mut self,
        enabled: bool,
        context: Option<&PlaybackRuntimeContext<'_>>,
    ) -> (r: Result<(), String>)
        requires
            old(self).wf(),
        ensures
            Self::grows(*final(self), *old(self)),
            final(self).wf(),
            final(self).gapless_enabled() == enabled,
            old(self).gapless_enabled() == enabled ==> r is Ok && *final(self) == *old(self),
            core_eq(final(self).st(), old(self).st()),
            same_session(*final(self), *old(self)),
            same_stream_settings(*final(self), *old(self)),
            old(self).gapless_enabled() != enabled ==> gapless_synced(
                *final(self),
                old(self).prepared_view(),
                context is Some,
                r is Ok,
            ),
    {
        if self.gapless_playback_enabled == enabled {
            return Ok(());
        }
        self.gapless_playback_enabled = enabled;
        let result = self.sync_gapless_for_current_track(context);
        self.report_status();
        result
    }

    /// Sets how new streams are requested. A change drops the prepared next track, which
    /// was requested the old way, and prepares it anew where gapless playback is wanted.
    pub fn set_stream_settings(
        &mut self,
        mode: PlaybackStreamMode,
        transcoding_max_bit_rate: u32,
        transcoding_codec: PlaybackTranscodingCodec,
        context: Option<&PlaybackRuntimeContext<'_>>,
    ) -> (r: Result<(), String>)
        requires
            old(self).wf(),
        ensures
            Self::grows(*final(self), *old(self)),
            final(self).wf(),
            final(self).stream_mode_view() == mode,
            final(self).max_bit_rate_view() == transcoding_max_bit_rate,
            final(self).codec_view() == transcoding_codec,
            core_eq(final(self).st(), old(self).st()),
            same_session(*final(self), *old(self)),
            final(self).gapless_enabled() == old(self).gapless_enabled(),
            (old(self).stream_mode_view() == mode && old(self).max_bit_rate_view()
                == transcoding_max_bit_rate && old(self).codec_view() == transcoding_codec) ==> (r is Ok
                && *final(self) == *old(self)),
            !(old(self).stream_mode_view() == mode && old(self).max_bit_rate_view()
                == transcoding_max_bit_rate && old(self).codec_view() == transcoding_codec)
                ==> gapless_synced(*final(self), None, context is Some, r is Ok),
    {
        if self.stream_mode == mode && self.transcoding_max_bit_rate == transcoding_max_bit_rate
            && self.transcoding_codec == transcoding_codec {
            return Ok(());
        }
        self.stream_mode = mode;
        self.transcoding_max_bit_rate = transcoding_max_bit_rate;
        self.transcoding_codec = transcoding_codec;
        self.clear_gapless_preparation();
        let result = self.sync_gapless_for_current_track(context);
        self.report_status();
        result
    }

    /// The backend finished preparing generation `generation`: a preparation of that
    /// generation becomes ready. Answers whether anything changed.
    pub(super) fn handle_gapless_prepared(&mut self, generation: u64) -> (r: bool)
        ensures
            Self::grows(*final(self), *old(self)),
            gapless_prepared_outcome(*final(self), *old(self), generation, r),
    {
        let target = match &self.prepared_next {
            Some(PreparedGaplessTrackState::Preparing { target, generation: g }) => {
                if *g != generation {
                    return false;
                }
                target.duplicate()
            },
            _ => {
                return false;
            },
        };
        self.gapless_failure = None;
        self.prepared_next = Some(PreparedGaplessTrackState::Ready { target, generation });
        true
    }

    /// The backend failed to prepare generation `generation`: a preparation of that
    /// generation is marked failed with `message`. Answers whether anything changed.
    pub(super) fn handle_gapless_failed(&mut self, generation: u64, message: String) -> (r: bool)
        ensures
            Self::grows(*final(self), *old(self)),
            gapless_failed_outcome(*final(self), *old(self), generation, message, r),
    {
        let target = match &self.prepared_next {
            Some(prepared) => {
                if prepared.generation() != Some(generation) {
                    return false;
                }
                prepared.target().duplicate()
            },
            None => {
                return false;
            },
        };
        self.gapless_failure = Some(message);
        self.prepared_next = Some(
            PreparedGaplessTrackState::Failed { target, generation: Some(generation) },
        );
        true
    }

    /// The backend moved on to the prepared track by itself: the prepared entry becomes the
    /// current one, playing from its start, the play-next region shrinks as
    /// [`adjusted_play_next`] says, and the entry after it is prepared. Answers whether the
    /// current entry changed.
    pub(super) fn handle_gapless_transition(
        &mut self,
        context: Option<&PlaybackRuntimeContext<'_>>,
    ) -> (r: Result<bool, String>)
        requires
            old(self).wf(),
        ensures
            Self::grows(*final(self), *old(self)),
            final(self).wf(),
            final(self).st().queue@ == old(self).st().queue@,
            Self::same_config(*final(self), *old(self)),
            final(self).recovery_attempts_view() == old(self).recovery_attempts_view(),
            final(self).recovery_plan() == old(self).recovery_plan(),
            final(self).events_applied() == old(self).events_applied(),
            gapless_transition_outcome(*final(self), *old(self), context is Some, r),
    {
        if !self.supports_gapless_playback() {
            self.clear_gapless_preparation();
            return Ok(false);
        }
        let target = match &self.prepared_next {
            Some(PreparedGaplessTrackState::Preparing { target, .. }) => target.duplicate(),
            Some(PreparedGaplessTrackState::Ready { target, .. }) => target.duplicate(),
            _ => {
                return Ok(false);
            },
        };
        let song_id = match current_queue_entry(&self.status.queue, Some(target.queue_index)) {
            Some(entry) => entry.id.clone(),
            None => {
                self.clear_gapless_preparation();
                return Ok(false);
            },
        };
        let ended_position_ms = self.status.current_position_ms;
        match context {
            Some(ctx) => self.report_current_server_playback_stopped(ctx, ended_position_ms),
            None => {},
        }
        let ghost before = self.status;
        self.status.play_next_queue_len = adjusted_play_next_queue_len_for_current_change(
            self.status.queue.len(),
            self.status.current_index,
            self.status.play_next_queue_len,
            Some(target.queue_index),
        );
        proof {
            lemma_adjusted_play_next_wf(
                before.queue@.len() as int,
                before.current_index,
                before.play_next_queue_len as int,
                Some(target.queue_index),
            );
        }
        self.status.playing_state = PlayingState::Playing;
        self.status.interrupt_reason = None;
        self.status.pending_seek_position_ms = None;
        self.status.current_index = Some(target.queue_index);
        self.status.current_song_id = Some(song_id);
        self.status.current_position_ms = 0;
        self.status.playback_error = None;
        let active = match &self.status.prepared_stream_info {
            Some(info) => {
                let mut i = info.duplicate();
                i.request_kind = PlaybackStreamRequestKind::ActivatePrepared;
                i.autoplay = true;
                Some(i)
            },
            None => None,
        };
        self.status.prepared_stream_info = None;
        self.status.active_stream_info = active;
        self.sync_actual_stream_info_from_backend();
        self.interrupted_resume_state = None;
        self.gapless_failure = None;
        self.prepared_next = None;
        let _ = self.sync_gapless_for_current_track(context);
        match context {
            Some(ctx) => {
                let position_ms = self.status.current_position_ms;
                self.report_current_server_playback_state(
                    ctx,
                    position_ms,
                    ServerPlaybackState::Playing,
                );
            },
            None => {},
        }
        Ok(true)
    }
}

} // verus!
