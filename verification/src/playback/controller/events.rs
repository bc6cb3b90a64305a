//! Events of the backend: draining them, applying each to the status, and recovering a lost
//! output stream.
use vstd::prelude::*;
use crate::models::playback::{InterruptReason, PlaybackError, PlaybackStatus, PlayingState};
use crate::playback::native_events::PlaybackNativeEvent;
use crate::playback::server_reporting::ServerPlaybackState;
use crate::text::{contains_seq, decimal, decimal_text, join2, join3, remove_all_seq};
use super::support::{
    handled_marker, is_output_stream_error, is_output_stream_runtime_error,
    output_stream_recovery_delay, playback_error_from_load_failure, recovery_delay,
    OUTPUT_STREAM_RECOVERY_MAX_ATTEMPTS,
};
use crate::queue::{
    adjusted_play_next, adjusted_play_next_queue_len_for_current_change, lemma_adjusted_play_next_wf,
};
use super::gapless::{
    gapless_synced, gapless_failed_outcome, gapless_prepared_outcome, gapless_transition_outcome,
};
use super::loading::load_outcome;
use super::{
    clock, is_active, is_loaded, ControllerNotice, OutputStreamRecoveryPlan, PlaybackController,
    PlaybackRuntimeContext,
};

verus! {

/// The settings, the gapless preparation and the recovery state of `a` and `b` agree.
pub open spec fn same_plans(a: PlaybackController, b: PlaybackController) -> bool {
    &&& PlaybackController::same_config(a, b)
    &&& a.prepared_view() == b.prepared_view()
    &&& a.gapless_failure_view() == b.gapless_failure_view()
    &&& a.recovery_attempts_view() == b.recovery_attempts_view()
    &&& a.recovery_plan() == b.recovery_plan()
}

/// `st` in the error state with the error `message`.
pub open spec fn errored_status(st: PlaybackStatus, message: String, handled: bool) -> PlaybackStatus {
    PlaybackStatus {
        playing_state: PlayingState::Error,
        interrupt_reason: None,
        pending_seek_position_ms: None,
        playback_error: Some(PlaybackError { message, handled }),
        actual_stream_info: None,
        ..st
    }
}

/// An error message that is `base`, or `base` followed by the failure to stop the output
/// stream.
pub open spec fn with_stop_failure(m: Seq<char>, base: Seq<char>) -> bool {
    m == base || exists|e: Seq<char>| m == base + "; failed to stop output stream: "@ + e
}

/// The error of a lost output stream once the recovery limit is reached.
pub open spec fn limit_message(message: Seq<char>) -> Seq<char> {
    message + "; automatic output stream recovery limit reached"@
}

/// The error of a lost output stream without a session to reload it with.
pub open spec fn no_session_message(message: Seq<char>) -> Seq<char> {
    message + "; cannot recover output stream without an active session"@
}

/// The error of a lost output stream without a current entry to reload.
pub open spec fn no_index_message(message: Seq<char>) -> Seq<char> {
    message + "; cannot recover output stream without a current queue index"@
}

/// The error of a load that failed on the last recovery attempt `attempt`.
pub open spec fn recovery_failed_message(message: Seq<char>, attempt: u8, error: Seq<char>) -> Seq<
    char,
> {
    message + "; automatic output stream recovery failed after "@ + decimal(attempt as nat)
        + " attempts: "@ + error
}

/// `c` is `b` with the output stream stopped and playback in the error state, with an
/// error that is `base`, or `base` with the failure to stop the stream.
pub open spec fn stopped_with_error(c: PlaybackController, b: PlaybackController, base: Seq<char>) -> bool {
    &&& c.st() == (PlaybackStatus {
        playing_state: PlayingState::Error,
        interrupt_reason: None,
        pending_seek_position_ms: None,
        playback_error: c.st().playback_error,
        actual_stream_info: None,
        prepared_stream_info: None,
        gapless_status: c.st().gapless_status,
        ..b.st()
    })
    &&& c.st().playback_error matches Some(pe) && !pe.handled && with_stop_failure(pe.message@, base)
    &&& c.prepared_view() is None
    &&& c.resume_state_view() is None
    &&& c.recovery_plan() == b.recovery_plan()
}

/// Whether a reload after a lost output stream should start playing.
pub open spec fn resumes_playing(c: PlaybackController) -> bool {
    c.st().playing_state == PlayingState::Playing || c.resume_state_view() == Some(
        PlayingState::Playing,
    )
}

/// What handling a lost output stream leaves behind, `b` being the controller before: a
/// recovery already scheduled makes it ignored; without a loaded track it is a plain error;
/// once the attempts are spent, without a session or without a current entry the stream is
/// stopped with an error that says why; else the stream is stopped and a reload of the
/// current entry is scheduled as the next attempt, or, where stopping failed, playback ends
/// in an error that says so.
pub open spec fn output_stream_error_outcome(
    c: PlaybackController,
    b: PlaybackController,
    message: String,
    has_context: bool,
    r: Result<bool, String>,
) -> bool {
    if b.recovery_pending() {
        &&& r == Ok::<bool, String>(false)
        &&& c.st() == b.st()
        &&& same_plans(c, b)
        &&& c.resume_state_view() == b.resume_state_view()
    } else if !is_loaded(b.st().playing_state) {
        &&& r == Ok::<bool, String>(true)
        &&& c.st() == errored_status(b.st(), message, false)
        &&& same_plans(c, b)
        &&& c.resume_state_view() is None
    } else if b.recovery_attempts_view() >= OUTPUT_STREAM_RECOVERY_MAX_ATTEMPTS {
        r == Ok::<bool, String>(true) && stopped_with_error(c, b, limit_message(message@))
    } else if !has_context {
        r == Ok::<bool, String>(true) && stopped_with_error(c, b, no_session_message(message@))
    } else if b.st().current_index is None {
        r == Ok::<bool, String>(true) && stopped_with_error(c, b, no_index_message(message@))
    } else {
        let k = b.notices().len() + (if is_active(b.st().playing_state) {
            1int
        } else {
            0int
        });
        &&& r == Ok::<bool, String>(true)
        &&& !is_active(b.st().playing_state) ==> c.st().current_position_ms
            == b.st().current_position_ms
        &&& c.st().queue@ == b.st().queue@
        &&& c.st().current_index == b.st().current_index
        &&& c.st().current_song_id == b.st().current_song_id
        &&& c.st().play_next_queue_len == b.st().play_next_queue_len
        &&& c.prepared_view() is None
        &&& c.resume_state_view() is None
        &&& c.st().actual_stream_info is None
        &&& k < c.notices().len()
        &&& c.notices()[k] is BackendStopped
        &&& match stop_refusal(c.notices()[k]) {
            None => {
                &&& c.recovery_plan() == Some(
                    (
                        message@,
                        b.st().current_index->0,
                        c.st().current_position_ms,
                        resumes_playing(b),
                        (b.recovery_attempts_view() + 1) as u8,
                    ),
                )
                &&& c.st().playing_state == PlayingState::Interrupted
                &&& c.st().interrupt_reason == Some(InterruptReason::FullReload)
                &&& c.st().pending_seek_position_ms == Some(c.st().current_position_ms)
                &&& c.st().playback_error is None
            },
            Some(e) => {
                &&& c.recovery_plan() is None
                &&& c.st().playing_state == PlayingState::Error
                &&& c.st().playback_error matches Some(pe) && !pe.handled && pe.message@ == message@
                    + "; failed to stop output stream for recovery: "@ + e
            },
        }
    }
}

/// The backend's refusal recorded in a stop notice, where it refused.
pub open spec fn stop_refusal(n: ControllerNotice) -> Option<Seq<char>> {
    match n {
        ControllerNotice::BackendStopped { answer: Err(e) } => Some(e@),
        _ => None,
    }
}

/// What a reload attempt of a lost output stream leaves behind, `b` being the controller
/// before it: the entry reloaded, with the attempt counted; or, where the reload failed,
/// the next attempt scheduled; or, after the last attempt, playback in the error state with
/// the load failure.
pub open spec fn recovery_attempt_outcome(
    c: PlaybackController,
    b: PlaybackController,
    message: Seq<char>,
    index: u32,
    pos: u32,
    autoplay: bool,
    attempt: u8,
) -> bool {
    &&& c.st().queue@ == b.st().queue@
    &&& ({
        ||| {
            &&& index < b.st().queue@.len()
            &&& c.st().current_index == Some(index)
            &&& c.st().current_song_id == Some(b.st().queue@[index as int].id)
            &&& c.st().current_position_ms == pos
            &&& c.st().playing_state == (if autoplay {
                PlayingState::Playing
            } else {
                PlayingState::Paused
            })
            &&& c.st().playback_error is None
            &&& c.st().interrupt_reason is None
            &&& c.st().pending_seek_position_ms is None
            &&& c.recovery_attempts_view() == attempt
            &&& !c.recovery_pending()
        }
        ||| {
            &&& attempt < OUTPUT_STREAM_RECOVERY_MAX_ATTEMPTS
            &&& c.recovery_attempts_view() == attempt
            &&& c.recovery_plan() == Some((message, index, pos, autoplay, (attempt + 1) as u8))
            &&& c.st().current_index == b.st().current_index
            &&& c.st().playing_state == PlayingState::Interrupted
            &&& c.st().interrupt_reason == Some(InterruptReason::FullReload)
            &&& c.st().pending_seek_position_ms == Some(pos)
            &&& c.st().current_position_ms == pos
            &&& c.st().playback_error is None
        }
        ||| {
            &&& attempt >= OUTPUT_STREAM_RECOVERY_MAX_ATTEMPTS
            &&& c.recovery_attempts_view() == OUTPUT_STREAM_RECOVERY_MAX_ATTEMPTS
            &&& !c.recovery_pending()
            &&& c.st().current_index == b.st().current_index
            &&& c.st().playing_state == PlayingState::Error
            &&& c.st().current_position_ms == pos
            &&& c.st().interrupt_reason is None
            &&& c.st().pending_seek_position_ms is None
            &&& c.st().actual_stream_info is None
            &&& c.prepared_view() is None
            &&& c.resume_state_view() is None
            &&& c.st().playback_error matches Some(pe) && exists|e: Seq<char>|
                pe.message@ == remove_all_seq(
                    #[trigger] recovery_failed_message(message, attempt, e),
                    handled_marker(),
                ) && pe.handled == contains_seq(
                    recovery_failed_message(message, attempt, e),
                    handled_marker(),
                )
        }
    })
}

/// `c` is `b` stopped at the end of the queue: the last entry stays current, at position
/// zero, and the preparation of a next track is dropped.
pub open spec fn stopped_at_end(c: PlaybackController, b: PlaybackController) -> bool {
    &&& c.st() == (PlaybackStatus {
        playing_state: PlayingState::Stopped,
        current_position_ms: 0,
        playback_error: None,
        interrupt_reason: None,
        pending_seek_position_ms: None,
        actual_stream_info: None,
        prepared_stream_info: None,
        gapless_status: c.st().gapless_status,
        ..b.st()
    })
    &&& c.prepared_view() is None
    &&& c.resume_state_view() is None
    &&& c.recovery_attempts_view() == b.recovery_attempts_view()
    &&& c.recovery_plan() == b.recovery_plan()
}

/// What the end of the current track leaves behind, `b` being the controller before it:
/// without a current entry nothing; at the end of the queue, or without a session, playback
/// stops; else the next entry is loaded and plays, the play-next region shrinking as
/// [`adjusted_play_next`] says.
pub open spec fn track_ended_outcome(
    c: PlaybackController,
    b: PlaybackController,
    has_context: bool,
    r: Result<bool, String>,
) -> bool {
    match b.st().current_index {
        None => r == Ok::<bool, String>(false) && c.st() == b.st() && PlaybackController::same_state(
            c,
            b,
        ),
        Some(cur) => if cur == u32::MAX || cur as int + 1 >= b.st().queue@.len() || !has_context {
            r == Ok::<bool, String>(true) && stopped_at_end(c, b)
        } else {
            &&& r != Ok::<bool, String>(true)
            &&& c.st().play_next_queue_len == adjusted_play_next(
                b.st().queue@.len() as int,
                Some(cur),
                b.st().play_next_queue_len as int,
                Some((cur + 1) as u32),
            )
            &&& load_outcome(
                c,
                b,
                (cur + 1) as u32,
                0,
                true,
                match r {
                    Ok(_) => Ok(()),
                    Err(e) => Err(e),
                },
            )
        },
    }
}

/// What applying one backend event leaves behind, `b` being the controller before it.
pub open spec fn event_outcome(
    c: PlaybackController,
    b: PlaybackController,
    event: PlaybackNativeEvent,
    has_context: bool,
    r: Result<bool, String>,
) -> bool {
    match event {
        PlaybackNativeEvent::Buffering { position_ms } => {
            &&& r == Ok::<bool, String>(true)
            &&& c.st() == (PlaybackStatus {
                playing_state: PlayingState::Interrupted,
                interrupt_reason: Some(
                    if b.st().pending_seek_position_ms is Some {
                        InterruptReason::Seeking
                    } else {
                        InterruptReason::StreamBufferingStall
                    },
                ),
                current_position_ms: position_ms,
                playback_error: None,
                ..b.st()
            })
            &&& c.resume_state_view() == (if b.st().playing_state == PlayingState::Interrupted {
                b.resume_state_view()
            } else {
                Some(b.st().playing_state)
            })
            &&& same_plans(c, b)
        },
        PlaybackNativeEvent::Ready { position_ms } => {
            &&& r == Ok::<bool, String>(true)
            &&& c.st() == (PlaybackStatus {
                playing_state: if b.st().playing_state == PlayingState::Interrupted {
                    match b.resume_state_view() {
                        Some(s) => s,
                        None => PlayingState::Paused,
                    }
                } else {
                    b.st().playing_state
                },
                interrupt_reason: None,
                pending_seek_position_ms: None,
                current_position_ms: position_ms,
                playback_error: None,
                actual_stream_info: c.st().actual_stream_info,
                ..b.st()
            })
            &&& c.resume_state_view() is None
            &&& same_plans(c, b)
        },
        PlaybackNativeEvent::Playing { position_ms } => {
            &&& r == Ok::<bool, String>(true)
            &&& c.st() == (PlaybackStatus {
                playing_state: PlayingState::Playing,
                interrupt_reason: None,
                pending_seek_position_ms: None,
                current_position_ms: position_ms,
                playback_error: None,
                actual_stream_info: c.st().actual_stream_info,
                ..b.st()
            })
            &&& c.resume_state_view() is None
            &&& same_plans(c, b)
        },
        PlaybackNativeEvent::Paused { position_ms } => {
            &&& r == Ok::<bool, String>(true)
            &&& c.st() == (PlaybackStatus {
                playing_state: PlayingState::Paused,
                interrupt_reason: None,
                pending_seek_position_ms: None,
                current_position_ms: position_ms,
                playback_error: None,
                actual_stream_info: c.st().actual_stream_info,
                ..b.st()
            })
            &&& c.resume_state_view() is None
            &&& same_plans(c, b)
        },
        PlaybackNativeEvent::SeekProcessed { position_ms } => {
            &&& r == Ok::<bool, String>(true)
            &&& c.st() == (PlaybackStatus {
                pending_seek_position_ms: None,
                current_position_ms: position_ms,
                playback_error: None,
                ..b.st()
            })
            &&& c.resume_state_view() == b.resume_state_view()
            &&& same_plans(c, b)
        },
        PlaybackNativeEvent::Error { message, handled } => if !handled && is_output_stream_error(
            message@,
        ) {
            output_stream_error_outcome(c, b, message, has_context, r)
        } else {
            &&& r == Ok::<bool, String>(true)
            &&& c.st() == errored_status(b.st(), message, handled)
            &&& c.resume_state_view() is None
            &&& same_plans(c, b)
        },
        PlaybackNativeEvent::GaplessPrepared { generation } => r matches Ok(changed)
            && gapless_prepared_outcome(c, b, generation, changed),
        PlaybackNativeEvent::GaplessFailed { generation, message } => r matches Ok(changed)
            && gapless_failed_outcome(c, b, generation, message, changed),
        PlaybackNativeEvent::GaplessTransition => gapless_transition_outcome(c, b, has_context, r),
        PlaybackNativeEvent::Ended => track_ended_outcome(c, b, has_context, r),
    }
}

impl PlaybackController {
    /// Puts playback in the error state with `message`.
    fn transition_to_playback_error(&mut self, message: String, handled: bool)
        ensures
            Self::grows(*final(self), *old(self)),
            final(self).st() == errored_status(old(self).st(), message, handled),
            same_plans(*final(self), *old(self)),
            final(self).resume_state_view() is None,
            final(self).events_applied() == old(self).events_applied(),
            old(self).wf() ==> final(self).wf(),
    {
        self.status.playing_state = PlayingState::Error;
        self.status.interrupt_reason = None;
        self.status.pending_seek_position_ms = None;
        self.status.playback_error = Some(PlaybackError { message, handled });
        self.status.actual_stream_info = None;
        self.interrupted_resume_state = None;
    }

    /// Stops playback at the end of the queue, keeping the last entry current.
    fn transition_to_stopped_end_of_queue(&mut self)
        ensures
            Self::grows(*final(self), *old(self)),
            final(self).st() == (PlaybackStatus {
                playing_state: PlayingState::Stopped,
                current_position_ms: 0,
                playback_error: None,
                interrupt_reason: None,
                pending_seek_position_ms: None,
                actual_stream_info: None,
                prepared_stream_info: None,
                gapless_status: final(self).st().gapless_status,
                ..old(self).st()
            }),
            Self::same_config(*final(self), *old(self)),
            final(self).prepared_view() is None,
            final(self).resume_state_view() is None,
            final(self).recovery_attempts_view() == old(self).recovery_attempts_view(),
            final(self).recovery_plan() == old(self).recovery_plan(),
            final(self).events_applied() == old(self).events_applied(),
            old(self).wf() ==> final(self).wf(),
    {
        self.clear_gapless_preparation();
        self.clear_server_reporting();
        self.status.playing_state = PlayingState::Stopped;
        self.status.current_position_ms = 0;
        self.status.playback_error = None;
        self.status.interrupt_reason = None;
        self.status.pending_seek_position_ms = None;
        self.status.actual_stream_info = None;
        self.interrupted_resume_state = None;
    }

    /// Stops the backend after the output stream was lost, and drops what depended on the
    /// stream; gives the failure to stop, if any.
    fn stop_backend_after_output_stream_error(&mut self) -> (r: Option<String>)
        ensures
            Self::grows(*final(self), *old(self)),
            final(self).st() == (PlaybackStatus {
                actual_stream_info: None,
                prepared_stream_info: None,
                gapless_status: final(self).st().gapless_status,
                ..old(self).st()
            }),
            Self::same_config(*final(self), *old(self)),
            final(self).prepared_view() is None,
            final(self).resume_state_view() == old(self).resume_state_view(),
            final(self).recovery_attempts_view() == old(self).recovery_attempts_view(),
            final(self).recovery_plan() == old(self).recovery_plan(),
            final(self).events_applied() == old(self).events_applied(),
            old(self).wf() ==> final(self).wf(),
            old(self).notices().len() < final(self).notices().len(),
            final(self).notices()[old(self).notices().len() as int] is BackendStopped,
            stop_refusal(final(self).notices()[old(self).notices().len() as int]) == match r {
                Some(e) => Some(e@),
                None => None::<Seq<char>>,
            },
    {
        let stop_error = match self.backend_stop() {
            Ok(()) => None,
            Err(e) => Some(e),
        };
        self.clear_native_events();
        self.clear_gapless_preparation();
        self.clear_server_reporting();
        self.status.actual_stream_info = None;
        stop_error
    }

    /// Schedules reload attempt `attempt` of entry `index` from `requested_position_ms`, due
    /// after the delay of that attempt (at once where recoveries are immediate), and asks for
    /// the events to be processed again once it is due.
    fn schedule_output_stream_recovery(
        &mut self,
        message: String,
        index: u32,
        requested_position_ms: u32,
        autoplay: bool,
        attempt: u8,
    )
        ensures
            Self::grows(*final(self), *old(self)),
            final(self).recovery_plan() == Some(
                (message@, index, requested_position_ms, autoplay, attempt),
            ),
            final(self).st() == (PlaybackStatus {
                playing_state: PlayingState::Interrupted,
                interrupt_reason: Some(InterruptReason::FullReload),
                pending_seek_position_ms: Some(requested_position_ms),
                current_position_ms: requested_position_ms,
                actual_stream_info: None,
                playback_error: None,
                ..old(self).st()
            }),
            Self::same_config(*final(self), *old(self)),
            final(self).prepared_view() == old(self).prepared_view(),
            final(self).gapless_failure_view() == old(self).gapless_failure_view(),
            final(self).resume_state_view() is None,
            final(self).recovery_attempts_view() == old(self).recovery_attempts_view(),
            final(self).events_applied() == old(self).events_applied(),
            old(self).wf() ==> final(self).wf(),
    {
        let delay_ms = if self.immediate_output_stream_recovery {
            0
        } else {
            output_stream_recovery_delay(attempt)
        };
        let start = clock::now();
        // A moment the clock cannot represent is never reached: the reload is due at once.
        let due_at = match clock::after(start, clock::millis(delay_ms)) {
            Some(t) => t,
            None => start,
        };
        self.pending_output_stream_recovery = Some(
            OutputStreamRecoveryPlan {
                message,
                index,
                requested_position_ms,
                autoplay,
                attempt,
                not_before: due_at,
            },
        );
        self.status.playing_state = PlayingState::Interrupted;
        self.status.interrupt_reason = Some(InterruptReason::FullReload);
        self.status.pending_seek_position_ms = Some(requested_position_ms);
        self.status.current_position_ms = requested_position_ms;
        self.status.actual_stream_info = None;
        self.status.playback_error = None;
        self.interrupted_resume_state = None;
        self.native_events.request_processing_after(delay_ms);
    }

    /// Handles a lost or failed output stream: schedules a reload of the current entry, or
    /// ends in an error where that cannot be done.
    fn handle_output_stream_error(
        &mut self,
        message: String,
        context: Option<&PlaybackRuntimeContext<'_>>,
    ) -> (r: Result<bool, String>)
        requires
            old(self).wf(),
        ensures
            Self::grows(*final(self), *old(self)),
            final(self).wf(),
            Self::same_config(*final(self), *old(self)),
            final(self).recovery_attempts_view() == old(self).recovery_attempts_view(),
            final(self).events_applied() == old(self).events_applied(),
            output_stream_error_outcome(*final(self), *old(self), message, context is Some, r),
    {
        if self.pending_output_stream_recovery.is_some() {
            return Ok(false);
        }
        if !(self.status.playing_state == PlayingState::Playing || self.status.playing_state
            == PlayingState::Paused || self.status.playing_state == PlayingState::Interrupted) {
            self.transition_to_playback_error(message, false);
            return Ok(true);
        }
        if self.output_stream_recovery_attempts >= OUTPUT_STREAM_RECOVERY_MAX_ATTEMPTS {
            let current_position_ms = self.status.current_position_ms;
            let stop_error = self.stop_backend_after_output_stream_error();
            match context {
                Some(ctx) => self.report_current_server_playback_stopped(ctx, current_position_ms),
                None => {},
            }
            let base = join2(message.as_str(), "; automatic output stream recovery limit reached");
            let full = match stop_error {
                Some(e) => join3(base.as_str(), "; failed to stop output stream: ", e.as_str()),
                None => base,
            };
            self.transition_to_playback_error(full, false);
            return Ok(true);
        }
        let context = match context {
            Some(ctx) => ctx,
            None => {
                let stop_error = self.stop_backend_after_output_stream_error();
                let base = join2(
                    message.as_str(),
                    "; cannot recover output stream without an active session",
                );
                let full = match stop_error {
                    Some(e) => join3(base.as_str(), "; failed to stop output stream: ", e.as_str()),
                    None => base,
                };
                self.transition_to_playback_error(full, false);
                return Ok(true);
            },
        };
        let index = match self.status.current_index {
            Some(i) => i,
            None => {
                let current_position_ms = self.status.current_position_ms;
                let stop_error = self.stop_backend_after_output_stream_error();
                self.report_current_server_playback_stopped(context, current_position_ms);
                let base = join2(
                    message.as_str(),
                    "; cannot recover output stream without a current queue index",
                );
                let full = match stop_error {
                    Some(e) => join3(base.as_str(), "; failed to stop output stream: ", e.as_str()),
                    None => base,
                };
                self.transition_to_playback_error(full, false);
                return Ok(true);
            },
        };
        let ghost before = *self;
        let autoplay = self.should_autoplay();
        if self.status.playing_state == PlayingState::Playing || self.status.playing_state
            == PlayingState::Paused {
            let _ = self.sync_current_position_from_backend();
        }
        let requested_position_ms = self.status.current_position_ms;
        let next_attempt = self.output_stream_recovery_attempts + 1;
        match self.stop_backend_after_output_stream_error() {
            Some(stop_error) => {
                self.report_current_server_playback_stopped(context, requested_position_ms);
                self.transition_to_playback_error(
                    join3(
                        message.as_str(),
                        "; failed to stop output stream for recovery: ",
                        stop_error.as_str(),
                    ),
                    false,
                );
                return Ok(true);
            },
            None => {},
        }
        self.schedule_output_stream_recovery(
            message,
            index,
            requested_position_ms,
            autoplay,
            next_attempt,
        );
        Ok(true)
    }

    /// Runs a scheduled reload of a lost output stream: on failure the next attempt is
    /// scheduled, and after the last one playback ends in the error state.
    fn run_output_stream_recovery_attempt(
        &mut self,
        message: String,
        index: u32,
        requested_position_ms: u32,
        autoplay: bool,
        attempt: u8,
        context: &PlaybackRuntimeContext<'_>,
    ) -> (r: Result<bool, String>)
        requires
            old(self).wf(),
            !old(self).recovery_pending(),
        ensures
            Self::grows(*final(self), *old(self)),
            final(self).wf(),
            r == Ok::<bool, String>(true),
            Self::same_config(*final(self), *old(self)),
            final(self).events_applied() == old(self).events_applied(),
            recovery_attempt_outcome(
                *final(self),
                *old(self),
                message@,
                index,
                requested_position_ms,
                autoplay,
                attempt,
            ),
    {
        match self.reload_track_at_index_exact(context, index, requested_position_ms, autoplay) {
            Ok(()) => {
                self.output_stream_recovery_attempts = attempt;
                Ok(true)
            },
            Err(reload_error) => {
                if attempt < OUTPUT_STREAM_RECOVERY_MAX_ATTEMPTS {
                    self.output_stream_recovery_attempts = attempt;
                    self.schedule_output_stream_recovery(
                        message,
                        index,
                        requested_position_ms,
                        autoplay,
                        attempt + 1,
                    );
                    Ok(true)
                } else {
                    self.output_stream_recovery_attempts = OUTPUT_STREAM_RECOVERY_MAX_ATTEMPTS;
                    self.report_current_server_playback_stopped(context, requested_position_ms);
                    let count = decimal_text(attempt as u64);
                    let mut text = join3(
                        message.as_str(),
                        "; automatic output stream recovery failed after ",
                        count.as_str(),
                    );
                    text.append(" attempts: ");
                    text.append(reload_error.as_str());
                    let playback_error = playback_error_from_load_failure(text.as_str());
                    proof {
                        assert(text@ == recovery_failed_message(message@, attempt, reload_error@));
                    }
                    self.status.playing_state = PlayingState::Error;
                    self.status.current_position_ms = requested_position_ms;
                    self.status.playback_error = Some(playback_error);
                    self.status.interrupt_reason = None;
                    self.status.pending_seek_position_ms = None;
                    self.status.actual_stream_info = None;
                    self.interrupted_resume_state = None;
                    self.clear_gapless_preparation();
                    self.clear_server_reporting();
                    Ok(true)
                }
            },
        }
    }

    /// Runs the scheduled reload of a lost output stream once it is due; without a session
    /// it cannot run, and playback ends in the error state. Answers whether it ran.
    fn process_due_output_stream_recovery(
        &mut self,
        context: Option<&PlaybackRuntimeContext<'_>>,
    ) -> (r: Result<bool, String>)
        requires
            old(self).wf(),
        ensures
            Self::grows(*final(self), *old(self)),
            final(self).wf(),
            final(self).st().queue@ == old(self).st().queue@,
            Self::same_config(*final(self), *old(self)),
            old(self).recovery_plan() is None ==> r == Ok::<bool, String>(false),
            r == Ok::<bool, String>(false) ==> final(self).st() == old(self).st() && Self::same_aux(
                *final(self),
                *old(self),
            ) && final(self).notices() == old(self).notices(),
            r != Ok::<bool, String>(false) ==> {
                &&& r == Ok::<bool, String>(true)
                &&& final(self).events_applied() == old(self).events_applied() + 1
                &&& old(self).recovery_plan() matches Some((m, i, p, a, n)) && if context is Some {
                    recovery_attempt_outcome(*final(self), *old(self), m, i, p, a, n)
                } else {
                    &&& final(self).st().playback_error matches Some(pe) && pe.message@
                        == no_session_message(m) && final(self).st() == errored_status(
                        old(self).st(),
                        pe.message,
                        false,
                    )
                    &&& final(self).recovery_attempts_view() == OUTPUT_STREAM_RECOVERY_MAX_ATTEMPTS
                    &&& !final(self).recovery_pending()
                    &&& final(self).resume_state_view() is None
                }
            },
    {
        let (message, index, requested_position_ms, autoplay, attempt, due) =
            match &self.pending_output_stream_recovery {
            None => {
                return Ok(false);
            },
            Some(plan) => {
                let now = clock::now();
                (
                    plan.message.clone(),
                    plan.index,
                    plan.requested_position_ms,
                    plan.autoplay,
                    plan.attempt,
                    clock::reached(&now, &plan.not_before),
                )
            },
        };
        if !due {
            return Ok(false);
        }
        self.applied_events = Ghost(self.applied_events@ + 1);
        let context = match context {
            Some(ctx) => ctx,
            None => {
                self.pending_output_stream_recovery = None;
                self.output_stream_recovery_attempts = OUTPUT_STREAM_RECOVERY_MAX_ATTEMPTS;
                self.transition_to_playback_error(
                    join2(
                        message.as_str(),
                        "; cannot recover output stream without an active session",
                    ),
                    false,
                );
                return Ok(true);
            },
        };
        self.pending_output_stream_recovery = None;
        self.run_output_stream_recovery_attempt(
            message,
            index,
            requested_position_ms,
            autoplay,
            attempt,
            context,
        )
    }

    /// Moves on after the current track ended: to the next entry, or to a stop at the end
    /// of the queue.
    pub fn handle_track_ended(&mut self, context: Option<&PlaybackRuntimeContext<'_>>) -> (r: Result<
        bool,
        String,
    >)
        requires
            old(self).wf(),
        ensures
            Self::grows(*final(self), *old(self)),
            final(self).wf(),
            final(self).st().queue@ == old(self).st().queue@,
            Self::same_config(*final(self), *old(self)),
            final(self).events_applied() == old(self).events_applied(),
            track_ended_outcome(*final(self), *old(self), context is Some, r),
    {
        let current_index = match self.status.current_index {
            Some(c) => c,
            None => {
                return Ok(false);
            },
        };
        let ended_position_ms = self.status.current_position_ms;
        if current_index == u32::MAX || current_index as usize + 1 >= self.status.queue.len() {
            match context {
                Some(ctx) => self.report_current_server_playback_stopped(ctx, ended_position_ms),
                None => {},
            }
            self.transition_to_stopped_end_of_queue();
            return Ok(true);
        }
        let next_index = current_index + 1;
        let runtime_context = match context {
            Some(ctx) => ctx,
            None => {
                self.transition_to_stopped_end_of_queue();
                return Ok(true);
            },
        };
        self.report_current_server_playback_stopped(runtime_context, ended_position_ms);
        let ghost before = self.status;
        self.status.play_next_queue_len = adjusted_play_next_queue_len_for_current_change(
            self.status.queue.len(),
            Some(current_index),
            self.status.play_next_queue_len,
            Some(next_index),
        );
        proof {
            lemma_adjusted_play_next_wf(
                before.queue@.len() as int,
                Some(current_index),
                before.play_next_queue_len as int,
                Some(next_index),
            );
        }
        match self.load_track_at_index(runtime_context, next_index, 0, true) {
            Ok(()) => {},
            Err(e) => {
                return Err(e);
            },
        }
        self.report_status();
        Ok(false)
    }

    /// Applies one event of the backend to the status.
    pub fn apply_native_event(
        &mut self,
        event: PlaybackNativeEvent,
        context: Option<&PlaybackRuntimeContext<'_>>,
    ) -> (r: Result<bool, String>)
        requires
            old(self).wf(),
        ensures
            Self::grows(*final(self), *old(self)),
            final(self).wf(),
            final(self).st().queue@ == old(self).st().queue@,
            Self::same_config(*final(self), *old(self)),
            final(self).events_applied() == old(self).events_applied() + 1,
            event_outcome(*final(self), *old(self), event, context is Some, r),
    {
        let ghost counted = self.applied_events@ + 1;
        let r = match event {
            PlaybackNativeEvent::Buffering { position_ms } => {
                if self.status.playing_state != PlayingState::Interrupted {
                    self.interrupted_resume_state = Some(self.status.playing_state);
                }
                self.status.playing_state = PlayingState::Interrupted;
                self.status.interrupt_reason = Some(
                    if self.status.pending_seek_position_ms.is_some() {
                        InterruptReason::Seeking
                    } else {
                        InterruptReason::StreamBufferingStall
                    },
                );
                self.status.current_position_ms = position_ms;
                self.status.playback_error = None;
                Ok(true)
            },
            PlaybackNativeEvent::Ready { position_ms } => {
                self.status.current_position_ms = position_ms;
                self.status.playback_error = None;
                self.status.pending_seek_position_ms = None;
                self.status.interrupt_reason = None;
                if self.status.playing_state == PlayingState::Interrupted {
                    self.status.playing_state = match self.interrupted_resume_state {
                        Some(s) => s,
                        None => PlayingState::Paused,
                    };
                }
                self.interrupted_resume_state = None;
                self.sync_actual_stream_info_from_backend();
                Ok(true)
            },
            PlaybackNativeEvent::Playing { position_ms } => {
                self.status.playing_state = PlayingState::Playing;
                self.status.interrupt_reason = None;
                self.status.current_position_ms = position_ms;
                self.status.playback_error = None;
                self.status.pending_seek_position_ms = None;
                self.interrupted_resume_state = None;
                self.sync_actual_stream_info_from_backend();
                Ok(true)
            },
            PlaybackNativeEvent::Paused { position_ms } => {
                self.status.playing_state = PlayingState::Paused;
                self.status.interrupt_reason = None;
                self.status.current_position_ms = position_ms;
                self.status.playback_error = None;
                self.status.pending_seek_position_ms = None;
                self.interrupted_resume_state = None;
                self.sync_actual_stream_info_from_backend();
                Ok(true)
            },
            PlaybackNativeEvent::SeekProcessed { position_ms } => {
                self.status.current_position_ms = position_ms;
                self.status.playback_error = None;
                self.status.pending_seek_position_ms = None;
                Ok(true)
            },
            PlaybackNativeEvent::Error { message, handled } => {
                if !handled && is_output_stream_runtime_error(message.as_str()) {
                    self.handle_output_stream_error(message, context)
                } else {
                    self.transition_to_playback_error(message, handled);
                    Ok(true)
                }
            },
            PlaybackNativeEvent::GaplessPrepared { generation } => Ok(
                self.handle_gapless_prepared(generation),
            ),
            PlaybackNativeEvent::GaplessFailed { generation, message } => Ok(
                self.handle_gapless_failed(generation, message),
            ),
            PlaybackNativeEvent::GaplessTransition => self.handle_gapless_transition(context),
            PlaybackNativeEvent::Ended => self.handle_track_ended(context),
        };
        self.applied_events = Ghost(counted);
        r
    }

    /// Drains the events of the backend and applies them in order, then runs a due output
    /// stream recovery; reports the status when something changed and `report_changes` is
    /// set. Answers whether anything changed. When no event was applied, nothing changed.
    pub(super) fn process_native_events_inner(
        &mut self,
        context: Option<&PlaybackRuntimeContext<'_>>,
        report_changes: bool,
    ) -> (r: Result<bool, String>)
        requires
            old(self).wf(),
        ensures
            Self::grows(*final(self), *old(self)),
            final(self).wf(),
            final(self).st().queue@ == old(self).st().queue@,
            Self::same_config(*final(self), *old(self)),
            final(self).events_applied() >= old(self).events_applied(),
            final(self).events_applied() == old(self).events_applied() ==> r == Ok::<bool, String>(
                false,
            ) && final(self).st() == old(self).st() && Self::same_aux(*final(self), *old(self))
                && final(self).notices() == old(self).notices(),
    {
        let mut events = self.native_events.drain_events();
        let mut changed = false;
        while events.len() > 0
            invariant
                Self::grows(*self, *old(self)),
                self.wf(),
                self.st().queue@ == old(self).st().queue@,
                Self::same_config(*self, *old(self)),
                self.events_applied() >= old(self).events_applied(),
                self.events_applied() == old(self).events_applied() ==> !changed && self.st()
                    == old(self).st() && Self::same_aux(*self, *old(self)) && self.notices()
                    == old(self).notices(),
            decreases events.len(),
        {
            let event = events.remove(0);
            match self.apply_native_event(event, context) {
                Ok(c) => {
                    changed = changed || c;
                },
                Err(e) => {
                    return Err(e);
                },
            }
        }
        match self.process_due_output_stream_recovery(context) {
            Ok(c) => {
                changed = changed || c;
            },
            Err(e) => {
                return Err(e);
            },
        }
        if changed && report_changes {
            self.report_status();
        }
        Ok(changed)
    }

    /// Drains and applies the events of the backend, and reports the status when anything
    /// changed. What each event does is [`Self::apply_native_event`]'s contract; when no
    /// event was applied, nothing changed.
    pub fn process_native_events(&mut self, context: Option<&PlaybackRuntimeContext<'_>>) -> (r:
        Result<(), String>)
        requires
            old(self).wf(),
        ensures
            Self::grows(*final(self), *old(self)),
            final(self).wf(),
            final(self).st().queue@ == old(self).st().queue@,
            Self::same_config(*final(self), *old(self)),
            final(self).events_applied() >= old(self).events_applied(),
            final(self).events_applied() == old(self).events_applied() ==> r is Ok && final(self).st()
                == old(self).st() && Self::same_aux(*final(self), *old(self)),
    {
        match self.process_native_events_inner(context, true) {
            Ok(_) => Ok(()),
            Err(e) => Err(e),
        }
    }

    /// The status after applying the events of the backend and reading its position and
    /// stream information, with the next track prepared where that is wanted. When no event
    /// was applied, only the position of an active track and what depends on the backend's
    /// stream changed.
    pub fn synced_state_with_context(&mut self, context: Option<&PlaybackRuntimeContext<'_>>) -> (r:
        Result<PlaybackStatus, String>)
        requires
            old(self).wf(),
        ensures
            Self::grows(*final(self), *old(self)),
            final(self).wf(),
            final(self).events_applied() >= old(self).events_applied(),
            final(self).st().queue@ == old(self).st().queue@,
            Self::same_config(*final(self), *old(self)),
            final(self).events_applied() == old(self).events_applied() && !is_active(
                old(self).st().playing_state,
            ) ==> r is Ok,
            r matches Ok(s) ==> s.same_as(final(self).st()),
            r is Ok && final(self).events_applied() == old(self).events_applied() ==> {
                &&& final(self).st().current_index == old(self).st().current_index
                &&& final(self).st().current_song_id == old(self).st().current_song_id
                &&& final(self).st().play_next_queue_len == old(self).st().play_next_queue_len
                &&& final(self).st().playing_state == old(self).st().playing_state
                &&& final(self).st().interrupt_reason == old(self).st().interrupt_reason
                &&& final(self).st().pending_seek_position_ms == old(self).st().pending_seek_position_ms
                &&& !is_active(old(self).st().playing_state) ==> final(self).st().current_position_ms
                    == old(self).st().current_position_ms && final(self).st().playback_error
                    == old(self).st().playback_error
                &&& is_active(old(self).st().playing_state) ==> final(self).st().playback_error is None
                &&& final(self).resume_state_view() == old(self).resume_state_view()
                &&& (gapless_synced(*final(self), old(self).prepared_view(), context is Some, true)
                    || gapless_synced(*final(self), old(self).prepared_view(), context is Some, false))
            },
    {
        match self.process_native_events_inner(context, false) {
            Ok(_) => {},
            Err(e) => {
                return Err(e);
            },
        }
        match self.sync_current_position_from_backend() {
            Ok(()) => {},
            Err(e) => {
                return Err(e);
            },
        }
        self.sync_actual_stream_info_from_backend();
        let _ = self.sync_gapless_for_current_track(context);
        Ok(self.state())
    }

    /// The status after applying the events of the backend and reading its position, without
    /// a session.
    pub fn synced_state(&mut self) -> (r: Result<PlaybackStatus, String>)
        requires
            old(self).wf(),
        ensures
            Self::grows(*final(self), *old(self)),
            final(self).wf(),
            final(self).events_applied() >= old(self).events_applied(),
            final(self).st().queue@ == old(self).st().queue@,
            Self::same_config(*final(self), *old(self)),
            final(self).events_applied() == old(self).events_applied() && !is_active(
                old(self).st().playing_state,
            ) ==> r is Ok,
            r matches Ok(s) ==> s.same_as(final(self).st()),
            r is Ok && final(self).events_applied() == old(self).events_applied() ==> {
                &&& final(self).st().current_index == old(self).st().current_index
                &&& final(self).st().current_song_id == old(self).st().current_song_id
                &&& final(self).st().play_next_queue_len == old(self).st().play_next_queue_len
                &&& final(self).st().playing_state == old(self).st().playing_state
                &&& !is_active(old(self).st().playing_state) ==> final(self).st().current_position_ms
                    == old(self).st().current_position_ms
                &&& final(self).prepared_view() is None
            },
    {
        self.synced_state_with_context(None)
    }
}

} // verus!
