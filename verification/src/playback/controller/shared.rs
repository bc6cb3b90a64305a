//! Taking over the playback state that Connect shares between devices.
use vstd::prelude::*;
use crate::models::browse::SongResponse;
use crate::models::connect::ConnectPlaybackState;
use crate::models::playback::{PlaybackStatus, PlayingState};
use crate::queue::{
    clamp_play_next_queue_len, clamped_play_next, current_queue_entry, current_song_id,
    index_in_range, index_omitted_message, index_out_of_range_message, lemma_clamped_play_next_wf,
    song_id_at, validate_queue_index,
};
use crate::text::same_text;
use super::queue_ops::same_opt_text;
use super::transport::{current_or_first, lemma_load_recorded_kept, load_recorded, pnl_after_choice, quiet};
use super::{is_active, ControllerNotice, PlaybackController, PlaybackRuntimeContext};

verus! {

/// The message for a shared state that asks to play without a session.
pub open spec fn no_session_message() -> Seq<char> {
    "No active session is available."@
}

/// Whether the track loaded in `b` can keep playing under the shared `state`: this is the
/// active device, the playing state agrees and is active, and both current entries are the
/// same song at the same path, `state`'s current song id naming its current entry.
pub open spec fn preserves_track(
    b: PlaybackController,
    state: ConnectPlaybackState,
    is_active_device: bool,
) -> bool {
    &&& is_active_device
    &&& b.st().playing_state == state.playing_state
    &&& is_active(b.st().playing_state)
    &&& b.st().current_index is Some
    &&& b.st().current_index->0 < b.st().queue@.len()
    &&& state.current_index is Some
    &&& state.current_index->0 < state.queue@.len()
    &&& state.current_song_id is Some
    &&& state.current_song_id->0@ == state.queue@[state.current_index->0 as int].id@
    &&& b.st().queue@[b.st().current_index->0 as int].id@ == state.queue@[state.current_index->0 as int].id@
    &&& same_opt_text(
        b.st().queue@[b.st().current_index->0 as int].path,
        state.queue@[state.current_index->0 as int].path,
    )
}

/// Whether taking over `state` starts the track here: this is the active device, the shared
/// queue is not empty, the loaded track is not kept, and the shared state plays or pauses.
pub open spec fn starts_shared_track(
    state: ConnectPlaybackState,
    is_active_device: bool,
    preserved: bool,
) -> bool {
    &&& !preserved
    &&& is_active_device
    &&& state.queue@.len() > 0
    &&& (state.playing_state == PlayingState::Playing || state.playing_state == PlayingState::Paused)
}

/// The playing state after taking over `state`.
pub open spec fn shared_playing_state(
    state: ConnectPlaybackState,
    is_active_device: bool,
    preserved: bool,
) -> PlayingState {
    if preserved {
        state.playing_state
    } else if state.queue@.len() == 0 {
        PlayingState::Idle
    } else if !is_active_device {
        state.playing_state
    } else if state.playing_state == PlayingState::Interrupted || state.playing_state
        == PlayingState::Error {
        PlayingState::Stopped
    } else {
        state.playing_state
    }
}

/// The current index after taking over `state`: the shared one, the first entry where a
/// track starts here without one, none in an empty queue.
pub open spec fn shared_current_index(
    state: ConnectPlaybackState,
    is_active_device: bool,
    preserved: bool,
) -> Option<u32> {
    if state.queue@.len() == 0 {
        None
    } else if starts_shared_track(state, is_active_device, preserved) && state.current_index is None {
        Some(0)
    } else {
        state.current_index
    }
}

/// The entry a shared track starts from: the shared current entry, the first where there is
/// none.
pub open spec fn shared_start_index(state: ConnectPlaybackState) -> int {
    match state.current_index {
        Some(i) => i as int,
        None => 0,
    }
}

impl PlaybackController {
    /// Whether the loaded track can keep playing under the shared `state`.
    fn should_preserve_active_track_for_shared_state(
        &self,
        state: &ConnectPlaybackState,
        is_active_device: bool,
    ) -> (r: bool)
        ensures
            r == preserves_track(*self, *state, is_active_device),
    {
        if !is_active_device {
            return false;
        }
        if self.status.playing_state != state.playing_state {
            return false;
        }
        if !(self.status.playing_state == PlayingState::Playing || self.status.playing_state
            == PlayingState::Paused) {
            return false;
        }
        let current_entry = match current_queue_entry(&self.status.queue, self.status.current_index) {
            Some(e) => e,
            None => {
                return false;
            },
        };
        let next_entry = match current_queue_entry(&state.queue, state.current_index) {
            Some(e) => e,
            None => {
                return false;
            },
        };
        match &state.current_song_id {
            Some(id) => {
                if !same_text(id.as_str(), next_entry.id.as_str()) {
                    return false;
                }
            },
            None => {
                return false;
            },
        }
        same_text(current_entry.id.as_str(), next_entry.id.as_str()) && match (
            &current_entry.path,
            &next_entry.path,
        ) {
            (Some(a), Some(b)) => same_text(a.as_str(), b.as_str()),
            (None, None) => true,
            _ => false,
        }
    }

    /// Replaces the queue, current entry, play-next length and position with shared ones,
    /// after dropping the prepared track, the server reporting and the waiting events.
    fn adopt_shared_queue(
        &mut self,
        queue: Vec<SongResponse>,
        current_index: Option<u32>,
        play_next_queue_len: u32,
        current_position_ms: u32,
    )
        requires
            old(self).wf(),
            index_in_range(queue@.len() as int, current_index),
        ensures
            Self::calm_since(*final(self), *old(self)),
            final(self).wf(),
            final(self).st().queue@ == queue@,
            final(self).st().current_index == current_index,
            final(self).st().play_next_queue_len == clamped_play_next(
                queue@.len() as int,
                current_index,
                play_next_queue_len as int,
            ),
            final(self).st().current_position_ms == current_position_ms,
            final(self).st().current_song_id == song_id_at(queue@, current_index),
            final(self).st().playing_state == old(self).st().playing_state,
            final(self).st().playback_error is None,
            final(self).st().interrupt_reason is None,
            final(self).st().pending_seek_position_ms is None,
            final(self).prepared_view() is None,
            final(self).resume_state_view() is None,
            Self::same_config(*final(self), *old(self)),
            final(self).recovery_attempts_view() == old(self).recovery_attempts_view(),
            final(self).recovery_plan() == old(self).recovery_plan(),
            final(self).events_applied() == old(self).events_applied(),
    {
        let ghost start = *self;
        self.clear_gapless_preparation();
        proof { Self::lemma_calm_step(*self, start); }
        let ghost p = *self;
        self.clear_server_reporting();
        proof { Self::lemma_calm_step(*self, p); Self::lemma_calm_chain(*self, p, start); }
        let ghost p = *self;
        self.clear_native_events();
        proof { Self::lemma_calm_step(*self, p); Self::lemma_calm_chain(*self, p, start); }
        let ghost shared_queue = queue@;
        self.status.queue = queue;
        self.status.current_index = current_index;
        self.status.play_next_queue_len = play_next_queue_len;
        clamp_play_next_queue_len(&mut self.status);
        proof {
            lemma_clamped_play_next_wf(
                shared_queue.len() as int,
                current_index,
                play_next_queue_len as int,
            );
        }
        self.status.current_position_ms = current_position_ms;
        self.status.current_song_id = current_song_id(&self.status.queue, self.status.current_index);
        self.status.playback_error = None;
        self.status.interrupt_reason = None;
        self.status.pending_seek_position_ms = None;
        let ghost p = *self;
        self.sync_actual_stream_info_from_backend();
        proof { Self::lemma_calm_chain(*self, p, start); }
        self.interrupted_resume_state = None;
    }

    /// Starts the shared track taken over: plays the current entry (the first where there is
    /// none) from its position, then pauses it where `paused` says.
    fn start_shared_track(&mut self, context: &PlaybackRuntimeContext<'_>, paused: bool) -> (r:
        Result<PlaybackStatus, String>)
        requires
            old(self).wf(),
            old(self).st().playing_state != PlayingState::Paused,
            old(self).prepared_view() is None,
            old(self).st().queue@.len() > 0,
        ensures
            Self::grows(*final(self), *old(self)),
            final(self).wf(),
            final(self).events_applied() >= old(self).events_applied(),
            final(self).st().queue@ == old(self).st().queue@,
            Self::same_config(*final(self), *old(self)),
            r matches Ok(s) ==> s.same_as(final(self).st()),
            r is Ok && quiet(*final(self), *old(self)) ==> {
                &&& final(self).st().current_index == Some(current_or_first(old(self).st()))
                &&& final(self).st().current_song_id == Some(
                    old(self).st().queue@[current_or_first(old(self).st()) as int].id,
                )
                &&& final(self).st().play_next_queue_len == pnl_after_choice(old(self).st())
                &&& final(self).st().playing_state == (if paused {
                    PlayingState::Paused
                } else {
                    PlayingState::Playing
                })
                &&& !paused ==> final(self).st().current_position_ms == old(self).st().current_position_ms
                &&& final(self).st().playback_error is None
            },
            load_recorded(
                *final(self),
                *old(self),
                old(self).notices().len() as int,
                context.capability_matrix.transcode_offset,
                old(self).st().queue@[current_or_first(old(self).st()) as int],
                old(self).st().current_position_ms,
                true,
                r is Ok,
                !paused && quiet(*final(self), *old(self)),
            ),
    {
        let ghost start = *self;
        let played = self.play(context);
        let ghost after_play = *self;
        if !paused {
            return played;
        }
        match played {
            Ok(_) => {},
            Err(e) => {
                proof {
                    lemma_load_recorded_kept(
                        after_play,
                        start,
                        start.notices().len() as int,
                        *self,
                        start,
                        start.notices().len() as int,
                        context.capability_matrix.transcode_offset,
                        start.st().queue@[current_or_first(start.st()) as int],
                        start.st().current_position_ms,
                        true,
                        false,
                        quiet(after_play, start),
                        false,
                        false,
                    );
                }
                return Err(e);
            },
        }
        let paused_status = self.pause_with_context(Some(context));
        proof {
            lemma_load_recorded_kept(
                after_play,
                start,
                start.notices().len() as int,
                *self,
                start,
                start.notices().len() as int,
                context.capability_matrix.transcode_offset,
                start.st().queue@[current_or_first(start.st()) as int],
                start.st().current_position_ms,
                true,
                true,
                quiet(after_play, start),
                paused_status is Ok,
                false,
            );
        }
        paused_status
    }

    /// Takes over the playback state shared through Connect: its queue, current entry,
    /// play-next length and position. The track loaded here keeps playing where it is the
    /// shared one; else, on the active device, the shared track is started, playing or
    /// paused as shared; elsewhere the shared playing state is only shown.
    #[verifier::rlimit(100)]
    #[verifier::spinoff_prover]
    pub fn apply_connect_shared_state(
        &mut self,
        context: Option<&PlaybackRuntimeContext<'_>>,
        state: ConnectPlaybackState,
        is_active_device: bool,
        allow_preserve_active_track: bool,
    ) -> (r: Result<PlaybackStatus, String>)
        requires
            old(self).wf(),
        ensures
            Self::grows(*final(self), *old(self)),
            final(self).wf(),
            !index_in_range(state.queue@.len() as int, state.current_index) ==> (r matches Err(e)
                && e@ == (if state.queue@.len() == 0 {
                index_omitted_message()
            } else {
                index_out_of_range_message()
            }) && final(self).st() == old(self).st() && Self::same_aux(*final(self), *old(self))
                && final(self).notices() == old(self).notices()),
            index_in_range(state.queue@.len() as int, state.current_index) && (context matches Some(
                ctx,
            ) && ctx.profile_id matches Some(p)) ==> (final(self).active_profile() matches Some(a)
                && a@ == context->0.profile_id->0@ && !final(self).restore_deferred()),
            index_in_range(state.queue@.len() as int, state.current_index)
                && allow_preserve_active_track && preserves_track(*old(self), state, is_active_device)
                ==> r is Ok,
            index_in_range(state.queue@.len() as int, state.current_index) && !(
            allow_preserve_active_track && preserves_track(*old(self), state, is_active_device))
                && r is Ok ==> Self::stopped_since(*final(self), *old(self)),
            r matches Ok(s) ==> s.same_as(final(self).st()) && final(self).st().queue@
                == state.queue@,
            index_in_range(state.queue@.len() as int, state.current_index) && !(
            allow_preserve_active_track && preserves_track(*old(self), state, is_active_device))
                && !starts_shared_track(state, is_active_device, false) ==> Self::stopped_once(
                *final(self),
                *old(self),
                r is Ok,
            ),
            index_in_range(state.queue@.len() as int, state.current_index) && !(
            allow_preserve_active_track && preserves_track(*old(self), state, is_active_device))
                && !starts_shared_track(state, is_active_device, false) && r is Ok
                && final(self).active_profile() is Some && !final(self).restore_deferred()
                ==> Self::saved_once(*final(self), *old(self)),
            index_in_range(state.queue@.len() as int, state.current_index) && !(
            allow_preserve_active_track && preserves_track(*old(self), state, is_active_device))
                && starts_shared_track(state, is_active_device, false) && context is Some ==> {
                ||| Self::stop_answered(*final(self), *old(self), false) && r is Err
                ||| Self::stop_answered(*final(self), *old(self), true) && load_recorded(
                    *final(self),
                    *old(self),
                    old(self).notices().len() as int,
                    context->0.capability_matrix.transcode_offset,
                    state.queue@[shared_start_index(state)],
                    state.current_position_ms,
                    true,
                    r is Ok,
                    state.playing_state == PlayingState::Playing && quiet(*final(self), *old(self)),
                )
            },
            ({
                let preserved = allow_preserve_active_track && preserves_track(
                    *old(self),
                    state,
                    is_active_device,
                );
                &&& (index_in_range(state.queue@.len() as int, state.current_index)
                    && starts_shared_track(state, is_active_device, preserved) && context is None)
                    ==> r is Err
                &&& (r is Ok && quiet(*final(self), *old(self))) ==> {
                    &&& final(self).st().current_index == shared_current_index(
                        state,
                        is_active_device,
                        preserved,
                    )
                    &&& final(self).st().current_song_id == song_id_at(
                        state.queue@,
                        final(self).st().current_index,
                    )
                    &&& final(self).st().playing_state == shared_playing_state(
                        state,
                        is_active_device,
                        preserved,
                    )
                    &&& (final(self).st().current_index == state.current_index
                        ==> final(self).st().play_next_queue_len == clamped_play_next(
                        state.queue@.len() as int,
                        state.current_index,
                        state.play_next_queue_len as int,
                    ))
                    &&& (!preserved && state.queue@.len() > 0 && !(is_active_device
                        && state.playing_state == PlayingState::Paused))
                        ==> final(self).st().current_position_ms == state.current_position_ms
                    &&& (state.queue@.len() == 0 ==> final(self).st().current_position_ms == 0)
                    &&& final(self).st().playback_error is None
                }
            }),
    {
        match validate_queue_index(&state.queue, state.current_index) {
            Ok(()) => {},
            Err(e) => {
                return Err(e);
            },
        }
        let ghost start = *self;
        match context {
            Some(ctx) => match ctx.profile_id {
                Some(p) => self.set_active_profile_id(Some(String::from_str(p))),
                None => {},
            },
            None => {},
        }
        proof {
            if self.notices@ == start.notices@ {
                Self::lemma_calm_step(*self, start);
            }
        }
        let desired_playing_state = state.playing_state;
        let ghost profiled = *self;
        if self.status.playing_state == PlayingState::Playing || self.status.playing_state
            == PlayingState::Paused || self.status.playing_state == PlayingState::Interrupted {
            let _ = self.sync_current_position_from_backend();
        }
        proof {
            Self::lemma_calm_step(*self, profiled);
            Self::lemma_calm_chain(*self, profiled, start);
        }
        if allow_preserve_active_track && self.should_preserve_active_track_for_shared_state(
            &state,
            is_active_device,
        ) {
            self.clear_gapless_preparation();
            let ghost shared = state;
            self.status.queue = state.queue;
            self.status.current_index = state.current_index;
            self.status.play_next_queue_len = state.play_next_queue_len;
            clamp_play_next_queue_len(&mut self.status);
            proof {
                lemma_clamped_play_next_wf(
                    shared.queue@.len() as int,
                    shared.current_index,
                    shared.play_next_queue_len as int,
                );
            }
            self.status.current_song_id = current_song_id(
                &self.status.queue,
                self.status.current_index,
            );
            self.status.playing_state = desired_playing_state;
            self.status.playback_error = None;
            self.status.interrupt_reason = None;
            self.status.pending_seek_position_ms = None;
            self.interrupted_resume_state = None;
            let _ = self.sync_gapless_for_current_track(context);
            self.sync_queue_state();
            self.persist_state();
            self.report_status();
            return Ok(self.state());
        }
        let ghost k0 = self.notices@.len() as int;
        let ghost before_stop = *self;
        let stopped = self.backend_stop();
        let ghost after_stop = *self;
        let ghost stop_notice = self.notices@[k0];
        assert(stop_notice == (ControllerNotice::BackendStopped { answer: stopped }));
        match stopped {
            Ok(()) => {},
            Err(e) => {
                assert(self.notices@[k0] == stop_notice);
                proof {
                    Self::lemma_calm_step(*self, after_stop);
                    Self::lemma_stop_then_save(*self, start, before_stop, after_stop, after_stop, after_stop);
                }
                return Err(e);
            },
        }
        self.adopt_shared_queue(
            state.queue,
            state.current_index,
            state.play_next_queue_len,
            state.current_position_ms,
        );
        if self.status.queue.len() == 0 {
            self.status.playing_state = PlayingState::Idle;
            self.status.current_index = None;
            self.status.current_song_id = None;
            self.status.current_position_ms = 0;
            let ghost p = *self;
            self.sync_queue_state();
            proof { Self::lemma_calm_step(*self, p); Self::lemma_calm_chain(*self, p, after_stop); }
            let ghost before_save = *self;
            self.persist_state();
            let ghost after_save = *self;
            self.report_status();
            proof { Self::lemma_calm_step(*self, after_save); }
            let ghost p = *self;
            let status = self.state();
            proof {
                Self::lemma_shown_handover(*self, p, start, before_stop, after_stop, before_save, after_save);
            }
            assert(self.notices@[k0] is BackendStopped);
            return Ok(status);
        }
        if !is_active_device {
            self.status.playing_state = desired_playing_state;
            let ghost p = *self;
            self.sync_queue_state();
            proof { Self::lemma_calm_step(*self, p); Self::lemma_calm_chain(*self, p, after_stop); }
            let ghost before_save = *self;
            self.persist_state();
            let ghost after_save = *self;
            self.report_status();
            proof { Self::lemma_calm_step(*self, after_save); }
            let ghost p = *self;
            let status = self.state();
            proof {
                Self::lemma_shown_handover(*self, p, start, before_stop, after_stop, before_save, after_save);
            }
            assert(self.notices@[k0] is BackendStopped);
            return Ok(status);
        }
        self.status.playing_state = PlayingState::Stopped;
        let ghost p = *self;
        self.sync_queue_state();
        proof { Self::lemma_calm_step(*self, p); Self::lemma_calm_chain(*self, p, after_stop); }
        let ghost before_save = *self;
        self.persist_state();
        let ghost after_save = *self;
        let result = match desired_playing_state {
            PlayingState::Playing | PlayingState::Paused => match context {
                Some(ctx) => {
                    let ghost mid = *self;
                    let started = self.start_shared_track(
                        ctx,
                        desired_playing_state == PlayingState::Paused,
                    );
                    proof {
                        lemma_load_recorded_kept(
                            *self,
                            mid,
                            mid.notices().len() as int,
                            *self,
                            start,
                            start.notices().len() as int,
                            ctx.capability_matrix.transcode_offset,
                            mid.st().queue@[current_or_first(mid.st()) as int],
                            mid.st().current_position_ms,
                            true,
                            started is Ok,
                            desired_playing_state != PlayingState::Paused && quiet(*self, mid),
                            started is Ok,
                            desired_playing_state != PlayingState::Paused && quiet(*self, start),
                        );
                    }
                    assert(self.notices@[k0] == stop_notice);
                    started
                },
                None => Err(String::from_str("No active session is available.")),
            },
            PlayingState::Stopped | PlayingState::Idle => {
                self.status.playing_state = desired_playing_state;
                self.report_status();
                proof { Self::lemma_calm_step(*self, after_save); }
                let ghost p = *self;
                let status = self.state();
                proof {
                    Self::lemma_shown_handover(*self, p, start, before_stop, after_stop, before_save, after_save);
                }
                Ok(status)
            },
            PlayingState::Interrupted | PlayingState::Error => {
                self.status.playing_state = PlayingState::Stopped;
                self.report_status();
                proof { Self::lemma_calm_step(*self, after_save); }
                let ghost p = *self;
                let status = self.state();
                proof {
                    Self::lemma_shown_handover(*self, p, start, before_stop, after_stop, before_save, after_save);
                }
                Ok(status)
            },
        };
        assert(self.notices@[k0] is BackendStopped);
        result
    }
}

} // verus!
