//! Queue operations of the controller: replacing, extending, reordering and trimming the queue.
use vstd::prelude::*;
use crate::models::browse::SongResponse;
use crate::models::connect::ConnectPlaybackState;
use crate::models::playback::{PlaybackStatus, PlayingState};
use crate::playback::server_reporting::ServerPlaybackState;
use crate::queue::{
    adjusted_play_next, adjusted_play_next_queue_len_for_current_change, clamp_play_next_queue_len,
    clamped_play_next, clamped_play_next_queue_len, current_queue_entry, current_song_id,
    in_play_next, index_filtered, index_in_range, insert_songs_at, inserted_at,
    is_play_next_queue_index, lemma_adjusted_play_next_wf, lemma_clamped_play_next_wf,
    move_entry, moved, moved_current_index, moved_index, play_next_end, play_next_end_index,
    queue_wf, removed_index, song_id_at, status_queue_wf, validate_queue_index,
};
use super::events::resumes_playing;
use super::{core_eq, is_active, is_loaded, stop_succeeded, ControllerNotice, PlaybackController, PlaybackRuntimeContext};
use super::transport::{lemma_load_recorded_kept, load_recorded, read_failed, quiet};

verus! {

/// The message for a queue index past the end of the queue.
pub open spec fn queue_index_out_of_range_message() -> Seq<char> {
    "Playback queue index is out of range."@
}

/// The message for an operation that needs a queue.
pub open spec fn queue_empty_message() -> Seq<char> {
    "Playback queue is empty."@
}

/// The message for a current index past the end of the queue.
pub open spec fn current_index_out_of_range_message() -> Seq<char> {
    "Current playback index is out of range."@
}

/// Two optional texts are both absent, or both present with the same characters.
pub open spec fn same_opt_text(a: Option<String>, b: Option<String>) -> bool {
    match (a, b) {
        (Some(x), Some(y)) => x@ == y@,
        (None, None) => true,
        _ => false,
    }
}

/// The play-next length after removing entry `index`: one less when the current entry or an
/// entry of the region was removed.
pub open spec fn pnl_after_removal(len: int, current: Option<u32>, pnl: int, index: int) -> int {
    if (current == Some(index as u32) && pnl > 0) || in_play_next(len, current, pnl, index) {
        pnl - 1
    } else {
        pnl
    }
}

/// The current index after removing entry `index` from a queue of `len` entries.
pub open spec fn current_after_removal(current: Option<u32>, index: int, len: int) -> Option<u32> {
    match removed_index(current, index, len - 1) {
        Some(n) => Some(n as u32),
        None => None,
    }
}

/// What removing entry `index` leaves behind, `b` being the controller before it and no
/// backend event having been applied: the entry is gone; the current entry stays current
/// where it was not the one removed; a removed current entry is replaced by the entry that
/// took its place, stopped at its start (loaded and playing or paused as before where a
/// track was active and a session is given), or by nothing in an emptied queue.
pub open spec fn removal_outcome(
    c: PlaybackController,
    b: PlaybackController,
    index: u32,
    has_context: bool,
) -> bool {
    let len = b.st().queue@.len() as int;
    let cur = b.st().current_index;
    let next = current_after_removal(cur, index as int, len);
    &&& c.st().queue@ == b.st().queue@.remove(index as int)
    &&& c.st().current_index == next
    &&& c.st().play_next_queue_len == clamped_play_next(
        len - 1,
        next,
        pnl_after_removal(len, cur, b.st().play_next_queue_len as int, index as int),
    )
    &&& c.st().current_song_id == song_id_at(c.st().queue@, next)
    &&& !c.restore_deferred()
    &&& if cur != Some(index) {
        &&& (cur matches Some(k) ==> c.st().queue@[next->0 as int] == b.st().queue@[k as int])
        &&& c.st().playing_state == b.st().playing_state
        &&& (c.st().current_position_ms == b.st().current_position_ms || is_active(
            b.st().playing_state,
        ))
    } else if len == 1 {
        &&& c.st().playing_state == PlayingState::Idle
        &&& c.st().current_position_ms == 0
    } else if is_loaded(b.st().playing_state) && has_context {
        &&& c.st().current_position_ms == 0
        &&& c.st().playing_state == (if resumes_playing(b) {
            PlayingState::Playing
        } else {
            PlayingState::Paused
        })
    } else {
        &&& c.st().current_position_ms == 0
        &&& c.st().playing_state == PlayingState::Stopped
        &&& c.st().playback_error is None
        &&& c.st().pending_seek_position_ms is None
    }
}

/// What removing the loaded current entry `index` hands to the backend, `b` being the
/// controller before, with the session's offset support where a session is given: the
/// position of an active track is read first, and a failed read is the error; then the
/// backend is stopped, and a refused stop is the error. After a stop, where a session is
/// given and an entry takes the removed one's place, that entry is loaded from its start,
/// playing or paused as before, and the removal succeeds exactly where that load did (where
/// no backend event was applied); else the removal succeeds.
pub open spec fn removal_handover(
    c: PlaybackController,
    b: PlaybackController,
    index: u32,
    session_offset: Option<bool>,
    r: Result<PlaybackStatus, String>,
) -> bool {
    let n = b.notices().len() as int;
    let len = b.st().queue@.len() as int;
    &&& is_active(b.st().playing_state) ==> n < c.notices().len() && c.notices()[n] is PositionRead
        && (read_failed(c.notices()[n]) ==> r is Err)
    &&& !(is_active(b.st().playing_state) && read_failed(c.notices()[n])) ==> {
        ||| PlaybackController::stop_answered(c, b, false) && r is Err
        ||| PlaybackController::stop_answered(c, b, true) && if session_offset is Some && len > 1 {
            load_recorded(
                c,
                b,
                n,
                session_offset->0,
                b.st().queue@.remove(index as int)[current_after_removal(
                    Some(index),
                    index as int,
                    len,
                )->0 as int],
                0,
                resumes_playing(b),
                r is Ok,
                quiet(c, b),
            )
        } else {
            r is Ok
        }
    }
}

/// Removing an entry of the play-next region other than the current one keeps the current
/// entry and shrinks the region by exactly that entry: the old region's other entries stay
/// the region.
pub proof fn law_removal_in_play_next_shrinks_region(
    c: PlaybackController,
    b: PlaybackController,
    index: u32,
    has_context: bool,
    k: u32,
)
    requires
        b.wf(),
        removal_outcome(c, b, index, has_context),
        b.st().current_index == Some(k),
        k < index,
        index <= k + b.st().play_next_queue_len,
    ensures
        c.st().queue@ == b.st().queue@.remove(index as int),
        c.st().current_index == Some(k),
        c.st().play_next_queue_len == b.st().play_next_queue_len - 1,
{
    PlaybackController::law_current_song_id_names_current_entry(b);
}

/// Removing an entry outside the play-next region, other than the current one, keeps the
/// region's length; the current entry stays, one place forward where the removed entry came
/// before it.
pub proof fn law_removal_outside_play_next_keeps_region(
    c: PlaybackController,
    b: PlaybackController,
    index: u32,
    has_context: bool,
    k: u32,
)
    requires
        b.wf(),
        removal_outcome(c, b, index, has_context),
        b.st().current_index == Some(k),
        index < b.st().queue@.len(),
        index < k || k + b.st().play_next_queue_len < index,
    ensures
        c.st().queue@ == b.st().queue@.remove(index as int),
        c.st().current_index == Some(
            if index < k {
                (k - 1) as u32
            } else {
                k
            },
        ),
        c.st().play_next_queue_len == b.st().play_next_queue_len,
        c.st().current_song_id == Some(b.st().queue@[k as int].id),
{
    PlaybackController::law_current_song_id_names_current_entry(b);
    let q = b.st().queue@;
    if index < k {
        assert(q.remove(index as int)[k - 1] == q[k as int]);
    } else {
        assert(q.remove(index as int)[k as int] == q[k as int]);
    }
}

/// Removing the current entry `i` from a queue that keeps entries makes the entry that took
/// its place current (the one after it), or the entry before it where it was last; where
/// the play-next region was not empty, its first entry is the one that took the place, so
/// the region loses exactly that entry.
pub proof fn law_removing_current_selects_its_successor(
    c: PlaybackController,
    b: PlaybackController,
    index: u32,
    has_context: bool,
)
    requires
        b.wf(),
        removal_outcome(c, b, index, has_context),
        b.st().current_index == Some(index),
        b.st().queue@.len() > 1,
    ensures
        c.st().queue@ == b.st().queue@.remove(index as int),
        c.st().current_index == Some(
            if index + 1 < b.st().queue@.len() {
                index
            } else {
                (index - 1) as u32
            },
        ),
        c.st().current_song_id == Some(
            b.st().queue@[if index + 1 < b.st().queue@.len() {
                index + 1
            } else {
                index - 1
            }].id,
        ),
        c.st().play_next_queue_len == (if b.st().play_next_queue_len > 0 {
            b.st().play_next_queue_len - 1
        } else {
            0
        }),
{
    PlaybackController::law_current_song_id_names_current_entry(b);
    let q = b.st().queue@;
    if index + 1 < q.len() {
        assert(q.remove(index as int)[index as int] == q[index + 1]);
    } else {
        assert(q.remove(index as int)[index - 1] == q[index - 1]);
    }
}

/// Removing the last entry empties the queue: nothing is current and nothing plays next.
pub proof fn law_removing_last_entry_empties_queue(
    c: PlaybackController,
    b: PlaybackController,
    index: u32,
    has_context: bool,
)
    requires
        b.wf(),
        removal_outcome(c, b, index, has_context),
        b.st().queue@.len() == 1,
        index == 0,
    ensures
        c.st().queue@.len() == 0,
        c.st().current_index is None,
        c.st().current_song_id is None,
        c.st().play_next_queue_len == 0,
{
    PlaybackController::law_current_song_id_names_current_entry(b);
}

impl PlaybackController {
    /// Switches the profile the playback state belongs to; a new profile drops the prepared
    /// next track and the server reporting. The restore is no longer put off.
    pub fn set_active_profile_id(&mut self, profile_id: Option<String>)
        requires
            old(self).wf(),
        ensures
            Self::grows(*final(self), *old(self)),
            final(self).wf(),
            final(self).active_profile() == profile_id,
            !final(self).restore_deferred(),
            core_eq(final(self).st(), old(self).st()),
            !same_opt_text(old(self).active_profile(), profile_id) ==> final(self).prepared_view() is None,
            same_opt_text(old(self).active_profile(), profile_id) ==> final(self).prepared_view() == old(self).prepared_view(),
            final(self).st().actual_stream_info == old(self).st().actual_stream_info,
            final(self).gapless_enabled() == old(self).gapless_enabled(),
            final(self).stream_mode_view() == old(self).stream_mode_view(),
            final(self).max_bit_rate_view() == old(self).max_bit_rate_view(),
            final(self).codec_view() == old(self).codec_view(),
            final(self).output_device_view() == old(self).output_device_view(),
            final(self).capabilities_view() == old(self).capabilities_view(),
            final(self).resume_state_view() == old(self).resume_state_view(),
            final(self).recovery_attempts_view() == old(self).recovery_attempts_view(),
            final(self).recovery_plan() == old(self).recovery_plan(),
            final(self).events_applied() == old(self).events_applied(),
            Self::calm_since(*final(self), *old(self)),
    {
        let ghost start = *self;
        let changed = match (&self.active_profile_id, &profile_id) {
            (Some(a), Some(b)) => !crate::text::same_text(a.as_str(), b.as_str()),
            (None, None) => false,
            _ => true,
        };
        if changed {
            let ghost p = *self;
            self.clear_gapless_preparation();
            proof { Self::lemma_calm_step(*self, p); }
            let ghost q = *self;
            self.clear_server_reporting();
            proof {
                Self::lemma_calm_step(*self, q);
                Self::lemma_calm_chain(*self, q, p);
            }
        }
        self.active_profile_id = profile_id;
        self.restore_state_deferred = false;
    }
}


/// `c` holds a restored queue, stopped at the restored position: the play-next region is
/// clamped to the queue, and nothing is prepared.
pub open spec fn restored(
    c: PlaybackController,
    queue: Seq<SongResponse>,
    current_index: Option<u32>,
    play_next_queue_len: u32,
    current_position_ms: u32,
) -> bool {
    &&& c.st().queue@ == queue
    &&& c.st().current_index == current_index
    &&& c.st().play_next_queue_len == clamped_play_next(
        queue.len() as int,
        current_index,
        play_next_queue_len as int,
    )
    &&& c.st().current_position_ms == current_position_ms
    &&& c.st().current_song_id == song_id_at(queue, current_index)
    &&& c.st().playing_state == (if queue.len() == 0 {
        PlayingState::Idle
    } else {
        PlayingState::Stopped
    })
    &&& c.st().playback_error is None
    &&& c.st().interrupt_reason is None
    &&& c.st().pending_seek_position_ms is None
    &&& c.prepared_view() is None
}

/// `n` records a position read from the backend: the call succeeds exactly when the backend
/// answered, and then the position is the one it gave.
pub open spec fn position_read(n: ControllerNotice, r: Result<(), String>, position_ms: u32) -> bool {
    n matches ControllerNotice::PositionRead { answer } && match answer {
        Ok(p) => r is Ok && position_ms == p,
        Err(_) => r is Err,
    }
}

/// `b` is `a` with a position read from the backend and the playback error cleared.
pub open spec fn pos_synced(a: PlaybackStatus, b: PlaybackStatus) -> bool {
    b == PlaybackStatus { current_position_ms: b.current_position_ms, playback_error: None, ..a }
}

/// The message for a failed read of the backend position.
pub open spec fn sync_error_message(e: Seq<char>) -> Seq<char> {
    "Failed to sync the backend playback position: "@ + e
}

impl PlaybackController {
    /// Reads the position from the backend while a track is active.
    pub(super) fn sync_current_position_from_backend(&mut self) -> (r: Result<(), String>)
        ensures
            Self::grows(*final(self), *old(self)),
            Self::same_aux(*final(self), *old(self)),
            !is_active(old(self).status.playing_state) ==> r is Ok && final(self).status
                == old(self).status && final(self).notices() == old(self).notices(),
            is_active(old(self).status.playing_state) ==> Self::one_more_notice(*final(self), *old(self))
                && position_read(final(self).notices().last(), r, final(self).status.current_position_ms),
            is_active(old(self).status.playing_state) ==> match r {
                Ok(()) => pos_synced(old(self).status, final(self).status),
                Err(e) => final(self).status == old(self).status,
            },
            old(self).wf() ==> final(self).wf(),
    {
        if !(self.status.playing_state == PlayingState::Playing || self.status.playing_state
            == PlayingState::Paused) {
            return Ok(());
        }
        match self.backend_position() {
            Ok(p) => {
                self.status.current_position_ms = p;
                self.status.playback_error = None;
                Ok(())
            },
            Err(error) => Err(
                crate::text::join2(
                    "Failed to sync the backend playback position: ",
                    error.as_str(),
                ),
            ),
        }
    }

    /// Reads the position from the backend before a queue change; a failure is only logged.
    pub(super) fn sync_current_position_for_queue_mutation(&mut self)
        ensures
            Self::grows(*final(self), *old(self)),
            Self::same_aux(*final(self), *old(self)),
            final(self).status == old(self).status || (is_active(old(self).status.playing_state)
                && pos_synced(old(self).status, final(self).status)),
            old(self).wf() ==> final(self).wf(),
            Self::calm_since(*final(self), *old(self)),
    {
        let _ = self.sync_current_position_from_backend();
        proof { Self::lemma_calm_step(*self, *old(self)); }
    }

    /// The current index, choosing the first entry when there is none; an error when the
    /// queue is empty.
    pub(super) fn ensure_current_index(&mut self) -> (r: Result<u32, String>)
        requires
            old(self).wf(),
        ensures
            Self::grows(*final(self), *old(self)),
            final(self).wf(),
            Self::same_aux(*final(self), *old(self)),
            final(self).notices() == old(self).notices(),
            old(self).status.queue@.len() == 0 ==> (r matches Err(e) && e@ == queue_empty_message()
                && final(self).status == old(self).status),
            old(self).status.queue@.len() > 0 ==> match old(self).status.current_index {
                Some(i) => r == Ok::<u32, String>(i) && final(self).status == old(self).status,
                None => r == Ok::<u32, String>(0) && final(self).status == (PlaybackStatus {
                    current_index: Some(0),
                    play_next_queue_len: clamped_play_next(
                        old(self).status.queue@.len() as int,
                        Some(0),
                        old(self).status.play_next_queue_len as int,
                    ) as u32,
                    current_song_id: Some(old(self).status.queue@[0].id),
                    ..old(self).status
                }),
            },
            r matches Ok(i) ==> i < final(self).status.queue@.len(),
    {
        if self.status.queue.len() == 0 {
            return Err(String::from_str("Playback queue is empty."));
        }
        match self.status.current_index {
            Some(index) => {
                return Ok(index);
            },
            None => {},
        }
        self.status.current_index = Some(0);
        clamp_play_next_queue_len(&mut self.status);
        self.status.current_song_id = current_song_id(&self.status.queue, Some(0));
        proof {
            lemma_clamped_play_next_wf(
                self.status.queue@.len() as int,
                Some(0),
                old(self).status.play_next_queue_len as int,
            );
        }
        Ok(0)
    }

    /// Reads what the backend knows of the decoded stream while a track is loaded; keeps the
    /// last known information while the backend has none.
    pub(super) fn sync_actual_stream_info_from_backend(&mut self)
        ensures
            Self::grows(*final(self), *old(self)),
            Self::same_aux(*final(self), *old(self)),
            final(self).status == (PlaybackStatus {
                actual_stream_info: final(self).status.actual_stream_info,
                ..old(self).status
            }),
            (old(self).status.current_index is None || old(self).status.current_song_id is None
                || !is_loaded(old(self).status.playing_state)) ==> (final(self).status.actual_stream_info is None),
            old(self).wf() ==> final(self).wf(),
            Self::calm_since(*final(self), *old(self)),
    {
        if self.status.current_index.is_none() || self.status.current_song_id.is_none() {
            self.status.actual_stream_info = None;
            return;
        }
        if !(self.status.playing_state == PlayingState::Playing || self.status.playing_state
            == PlayingState::Paused || self.status.playing_state == PlayingState::Interrupted) {
            self.status.actual_stream_info = None;
            return;
        }
        match self.backend_stream_info() {
            Ok(Some(info)) => {
                self.status.actual_stream_info = Some(info);
            },
            Ok(None) => {},
            Err(_) => {},
        }
    }

    /// Puts off restoring the saved state of `profile_id`: nothing is saved until the state
    /// is restored or replaced.
    pub fn defer_state_restore(&mut self, profile_id: String)
        requires
            old(self).wf(),
        ensures
            Self::grows(*final(self), *old(self)),
            final(self).wf(),
            final(self).active_profile() == Some(profile_id),
            final(self).restore_deferred(),
            core_eq(final(self).st(), old(self).st()),
    {
        let same = match &self.active_profile_id {
            Some(a) => crate::text::same_text(a.as_str(), profile_id.as_str()),
            None => false,
        };
        if !same {
            self.clear_gapless_preparation();
            self.clear_server_reporting();
        }
        self.active_profile_id = Some(profile_id);
        self.restore_state_deferred = true;
    }

    /// Restores a saved queue for `profile_id`, stopped at the saved position. A saved current
    /// index that names no entry discards the saved queue.
    pub fn restore_state(
        &mut self,
        profile_id: String,
        queue: Vec<SongResponse>,
        current_index: Option<u32>,
        play_next_queue_len: u32,
        current_position_ms: u32,
    ) -> (r: PlaybackStatus)
        requires
            old(self).wf(),
        ensures
            Self::grows(*final(self), *old(self)),
            final(self).wf(),
            r.same_as(final(self).st()),
            final(self).active_profile() == Some(profile_id),
            !final(self).restore_deferred(),
            !index_in_range(queue@.len() as int, current_index) ==> core_eq(
                final(self).st(),
                old(self).st(),
            ),
            index_in_range(queue@.len() as int, current_index) ==> restored(
                *final(self),
                queue@,
                current_index,
                play_next_queue_len,
                current_position_ms,
            ),
    {
        if validate_queue_index(&queue, current_index).is_err() {
            self.active_profile_id = Some(profile_id);
            self.restore_state_deferred = false;
            return self.state();
        }
        let next_song_id = current_song_id(&queue, current_index);
        self.status.queue = queue;
        self.status.current_index = current_index;
        self.status.play_next_queue_len = play_next_queue_len;
        clamp_play_next_queue_len(&mut self.status);
        proof {
            lemma_clamped_play_next_wf(
                self.status.queue@.len() as int,
                current_index,
                play_next_queue_len as int,
            );
        }
        self.status.current_position_ms = current_position_ms;
        self.status.current_song_id = next_song_id;
        self.status.playing_state = if self.status.queue.len() == 0 {
            PlayingState::Idle
        } else {
            PlayingState::Stopped
        };
        self.status.playback_error = None;
        self.status.interrupt_reason = None;
        self.status.pending_seek_position_ms = None;
        self.interrupted_resume_state = None;
        self.clear_gapless_preparation();
        self.clear_server_reporting();
        self.active_profile_id = Some(profile_id);
        self.restore_state_deferred = false;
        self.report_status();
        self.state()
    }

    /// Replaces the queue and stops playback; the given entry becomes current, at the start.
    pub fn set_queue(&mut self, entries: Vec<SongResponse>, current_index: Option<u32>) -> (r: Result<
        PlaybackStatus,
        String,
    >)
        requires
            old(self).wf(),
        ensures
            Self::grows(*final(self), *old(self)),
            final(self).wf(),
            !index_in_range(entries@.len() as int, current_index) ==> (r matches Err(e) && e@ == (
            if entries@.len() == 0 {
                crate::queue::index_omitted_message()
            } else {
                crate::queue::index_out_of_range_message()
            }) && final(self).st() == old(self).st() && Self::same_aux(*final(self), *old(self))
                && *final(self) == *old(self)),
            index_in_range(entries@.len() as int, current_index) ==> Self::stopped_once(
                *final(self),
                *old(self),
                r is Ok,
            ),
            r is Err ==> core_eq(final(self).st(), old(self).st()),
            r matches Ok(s) ==> {
                &&& s.same_as(final(self).st())
                &&& index_in_range(entries@.len() as int, current_index)
                &&& final(self).st().queue@ == entries@
                &&& final(self).st().current_index == current_index
                &&& final(self).st().play_next_queue_len == 0
                &&& final(self).st().current_position_ms == 0
                &&& final(self).st().current_song_id == song_id_at(entries@, current_index)
                &&& final(self).st().playing_state == (if entries@.len() == 0 {
                    PlayingState::Idle
                } else {
                    PlayingState::Stopped
                })
                &&& final(self).st().playback_error is None
                &&& final(self).st().interrupt_reason is None
                &&& final(self).st().pending_seek_position_ms is None
                &&& final(self).st().actual_stream_info is None
                &&& final(self).prepared_view() is None
                &&& !final(self).restore_deferred()
            },
    {
        match validate_queue_index(&entries, current_index) {
            Err(e) => {
                return Err(e);
            },
            Ok(()) => {},
        }
        let ghost n = self.notices@.len() as int;
        self.restore_state_deferred = false;
        let stopped = self.backend_stop();
        assert(self.notices@[n] == (ControllerNotice::BackendStopped { answer: stopped }));
        match stopped {
            Err(e) => {
                assert(Self::no_stop_between(*self, n + 1, self.notices@.len() as int));
                return Err(e);
            },
            Ok(()) => {},
        }
        let ghost p = *self;
        self.clear_gapless_preparation();
        proof { Self::lemma_no_stop_kept(*self, p, n + 1); }
        let ghost p = *self;
        self.clear_server_reporting();
        proof { Self::lemma_no_stop_kept(*self, p, n + 1); }
        let ghost p = *self;
        self.clear_native_events();
        proof { Self::lemma_no_stop_kept(*self, p, n + 1); }
        let next_song_id = current_song_id(&entries, current_index);
        self.status.queue = entries;
        self.status.current_index = current_index;
        self.status.play_next_queue_len = 0;
        self.status.current_position_ms = 0;
        self.status.current_song_id = next_song_id;
        self.status.playback_error = None;
        self.status.interrupt_reason = None;
        self.status.pending_seek_position_ms = None;
        self.status.actual_stream_info = None;
        self.interrupted_resume_state = None;
        self.reset_output_stream_recovery_attempts();
        self.status.playing_state = if self.status.queue.len() == 0 {
            PlayingState::Idle
        } else {
            PlayingState::Stopped
        };
        let ghost p = *self;
        self.sync_queue_state();
        proof { Self::lemma_no_stop_kept(*self, p, n + 1); }
        let ghost p = *self;
        self.persist_state();
        proof { Self::lemma_no_stop_kept(*self, p, n + 1); }
        let ghost p = *self;
        self.report_status();
        proof { Self::lemma_no_stop_kept(*self, p, n + 1); }
        let ghost p = *self;
        let st = self.state();
        proof {
            Self::lemma_no_stop_kept(*self, p, n + 1);
            assert(self.notices@[n] is BackendStopped);
        }
        Ok(st)
    }

    /// Empties the queue and stops playback, reporting the stopped track to the server.
    pub fn clear_queue(&mut self, context: Option<&PlaybackRuntimeContext<'_>>) -> (r: Result<
        PlaybackStatus,
        String,
    >)
        requires
            old(self).wf(),
        ensures
            Self::grows(*final(self), *old(self)),
            final(self).wf(),
            r is Err ==> final(self).st().queue@ == old(self).st().queue@ && final(self).st().current_index
                == old(self).st().current_index,
            r matches Ok(s) ==> {
                &&& s.same_as(final(self).st())
                &&& final(self).st().queue@.len() == 0
                &&& final(self).st().current_index is None
                &&& final(self).st().play_next_queue_len == 0
                &&& final(self).st().current_position_ms == 0
                &&& final(self).st().current_song_id is None
                &&& final(self).st().playing_state == PlayingState::Idle
                &&& final(self).st().playback_error is None
                &&& final(self).st().interrupt_reason is None
                &&& final(self).st().pending_seek_position_ms is None
                &&& final(self).st().actual_stream_info is None
                &&& final(self).prepared_view() is None
                &&& !final(self).restore_deferred()
            },
            r is Ok ==> Self::stopped_since(*final(self), *old(self)),
            is_active(old(self).st().playing_state) ==> old(self).notices().len()
                < final(self).notices().len() && final(self).notices()[old(self).notices().len() as int] is PositionRead
                && (read_failed(final(self).notices()[old(self).notices().len() as int]) ==> r is Err),
            !(is_active(old(self).st().playing_state) && read_failed(
                final(self).notices()[old(self).notices().len() as int],
            )) ==> Self::stopped_once(*final(self), *old(self), r is Ok),
    {
        let ghost start = *self;
        let ghost n = self.notices@.len() as int;
        match self.sync_current_position_from_backend() {
            Err(e) => {
                return Err(e);
            },
            Ok(()) => {},
        }
        proof { Self::lemma_no_stop_kept(*self, start, n); }
        self.restore_state_deferred = false;
        let stop_position_ms = self.status.current_position_ms;
        let stop_entry = match current_queue_entry(&self.status.queue, self.status.current_index) {
            Some(entry) => Some(
                (entry.id.clone(), super::server_playback_media_type(entry), entry.duration),
            ),
            None => None,
        };
        let ghost p = *self;
        self.clear_gapless_preparation();
        proof { Self::lemma_no_stop_kept(*self, p, n); }
        let ghost k0 = self.notices@.len() as int;
        let ghost before_stop = *self;
        let stopped = self.backend_stop();
        assert(self.notices@[k0] == (ControllerNotice::BackendStopped { answer: stopped }));
        assert(Self::no_stop_between(*self, n, k0)) by {
            assert forall|j: int| n <= j < k0 implies !(#[trigger] self.notices@[j] is BackendStopped) by {
                assert(self.notices@[j] == before_stop.notices@[j]);
            }
        }
        match stopped {
            Err(e) => {
                assert(Self::no_stop_between(*self, k0 + 1, self.notices@.len() as int));
                return Err(e);
            },
            Ok(()) => {},
        }
        let ghost p = *self;
        self.clear_native_events();
        proof { Self::lemma_no_stop_kept(*self, p, k0 + 1); }
        assert(self.notices@[k0] is BackendStopped);
        match (context, &stop_entry) {
            (Some(context), Some((song_id, media_type, duration))) => {
                let ghost p = *self;
                self.report_server_playback_state(
                    context,
                    song_id,
                    *media_type,
                    *duration,
                    stop_position_ms,
                    ServerPlaybackState::Stopped,
                );
                proof { Self::lemma_no_stop_kept(*self, p, k0 + 1); }
                assert(self.notices@[k0] is BackendStopped);
            },
            _ => {},
        }
        let ghost p = *self;
        self.clear_server_reporting();
        proof { Self::lemma_no_stop_kept(*self, p, k0 + 1); }
        assert(self.notices@[k0] is BackendStopped);
        self.status.queue = Vec::new();
        self.status.current_index = None;
        self.status.play_next_queue_len = 0;
        self.status.current_position_ms = 0;
        self.status.current_song_id = None;
        self.status.playing_state = PlayingState::Idle;
        self.status.playback_error = None;
        self.status.interrupt_reason = None;
        self.status.pending_seek_position_ms = None;
        self.status.actual_stream_info = None;
        self.interrupted_resume_state = None;
        self.reset_output_stream_recovery_attempts();
        let ghost p = *self;
        self.sync_queue_state();
        proof { Self::lemma_no_stop_kept(*self, p, k0 + 1); }
        let ghost p = *self;
        self.persist_state();
        proof { Self::lemma_no_stop_kept(*self, p, k0 + 1); }
        let ghost p = *self;
        self.report_status();
        proof { Self::lemma_no_stop_kept(*self, p, k0 + 1); }
        let ghost p = *self;
        let status = self.state();
        proof { Self::lemma_no_stop_kept(*self, p, k0 + 1); }
        assert(self.notices@[k0] is BackendStopped);
        assert(Self::no_stop_between(*self, n, k0)) by {
            assert forall|j: int| n <= j < k0 implies !(#[trigger] self.notices@[j] is BackendStopped) by {
                assert(self.notices@[j] == before_stop.notices@[j]);
            }
        }
        Ok(status)
    }

    /// Sets where the current track starts; a loaded track is stopped first.
    pub fn set_position(&mut self, position_ms: u32) -> (r: Result<PlaybackStatus, String>)
        requires
            old(self).wf(),
        ensures
            Self::grows(*final(self), *old(self)),
            final(self).wf(),
            final(self).st().queue@ == old(self).st().queue@,
            old(self).st().queue@.len() == 0 ==> (r matches Err(e) && e@ == queue_empty_message()),
            r matches Ok(s) ==> {
                &&& s.same_as(final(self).st())
                &&& final(self).st().current_index == (match old(self).st().current_index {
                    Some(i) => Some(i),
                    None => Some(0u32),
                })
                &&& final(self).st().current_song_id == song_id_at(
                    old(self).st().queue@,
                    final(self).st().current_index,
                )
                &&& final(self).st().current_position_ms == position_ms
                &&& final(self).st().playing_state == (if is_loaded(old(self).st().playing_state) {
                    PlayingState::Stopped
                } else {
                    old(self).st().playing_state
                })
                &&& final(self).st().playback_error is None
                &&& final(self).st().interrupt_reason is None
                &&& final(self).st().pending_seek_position_ms is None
                &&& !final(self).restore_deferred()
            },
            old(self).st().queue@.len() > 0 && is_loaded(old(self).st().playing_state)
                ==> Self::stopped_once(*final(self), *old(self), r is Ok),
            old(self).st().queue@.len() > 0 && !is_loaded(old(self).st().playing_state) ==> r is Ok
                && Self::no_stop_between(
                *final(self),
                old(self).notices().len() as int,
                final(self).notices().len() as int,
            ),
    {
        let ghost start = *self;
        let index = match self.ensure_current_index() {
            Err(e) => {
                return Err(e);
            },
            Ok(i) => i,
        };
        self.restore_state_deferred = false;
        proof { Self::lemma_calm_step(*self, start); }
        let ghost before_stop = *self;
        let ghost mut after_stop = *self;
        if self.status.playing_state == PlayingState::Playing || self.status.playing_state
            == PlayingState::Paused || self.status.playing_state == PlayingState::Interrupted {
            let stopped = self.backend_stop();
            proof { after_stop = *self; }
            match stopped {
                Err(e) => {
                    proof {
                        Self::lemma_calm_step(*self, after_stop);
                        Self::lemma_stopped_once(*self, start, before_stop, after_stop);
                    }
                    return Err(e);
                },
                Ok(()) => {},
            }
            self.clear_gapless_preparation();
            proof { Self::lemma_calm_step(*self, after_stop); }
            let ghost p = *self;
            self.clear_native_events();
            proof { Self::lemma_calm_step(*self, p); Self::lemma_calm_chain(*self, p, after_stop); }
            let ghost p = *self;
            self.clear_server_reporting();
            proof { Self::lemma_calm_step(*self, p); Self::lemma_calm_chain(*self, p, after_stop); }
            self.status.playing_state = PlayingState::Stopped;
        } else {
            proof { Self::lemma_calm_step(*self, after_stop); }
        }
        self.status.current_song_id = current_song_id(&self.status.queue, Some(index));
        self.status.current_position_ms = position_ms;
        self.status.playback_error = None;
        self.status.interrupt_reason = None;
        self.status.pending_seek_position_ms = None;
        let ghost p = *self;
        self.sync_actual_stream_info_from_backend();
        proof { Self::lemma_calm_chain(*self, p, after_stop); }
        self.interrupted_resume_state = None;
        let ghost p = *self;
        self.reset_output_stream_recovery_attempts();
        proof { Self::lemma_calm_step(*self, p); Self::lemma_calm_chain(*self, p, after_stop); }
        let ghost q = *self;
        self.persist_state();
        proof { Self::lemma_no_stop_kept(*self, q, after_stop.notices().len() as int); }
        let ghost q = *self;
        self.report_status();
        proof { Self::lemma_no_stop_kept(*self, q, after_stop.notices().len() as int); }
        let ghost q = *self;
        let status = self.state();
        proof {
            Self::lemma_no_stop_kept(*self, q, after_stop.notices().len() as int);
            if is_loaded(start.st().playing_state) {
                Self::lemma_stopped_once(*self, start, before_stop, after_stop);
            } else {
                assert(after_stop == before_stop);
                assert(Self::no_stop_between(*self, start.notices().len() as int, before_stop.notices().len() as int)) by {
                    assert forall|j: int| start.notices().len() <= j < before_stop.notices().len() implies !(#[trigger] self.notices@[j] is BackendStopped) by {
                        assert(self.notices@[j] == before_stop.notices@[j]);
                    }
                }
            }
        }
        Ok(status)
    }
}


/// The play-next length after `count` songs are added to the region: the saturated sum, cut
/// to what fits.
pub open spec fn grown_play_next(len: int, current: Option<u32>, pnl: int, count: int) -> int {
    clamped_play_next(len, current, if pnl + count > u32::MAX {
        u32::MAX as int
    } else {
        pnl + count
    })
}

/// Queueing `count` songs to play next grows the play-next region by exactly `count` where
/// the length stays within `u32`: the region's old entries stay and the new songs follow them.
pub proof fn law_queueing_next_grows_region(len: int, current: Option<u32>, pnl: int, count: int)
    requires
        0 <= pnl,
        0 < count,
        pnl + count <= u32::MAX,
        match current {
            Some(c) => c < len && c + pnl < len,
            None => pnl <= len,
        },
    ensures
        grown_play_next(len + count, current, pnl, count) == pnl + count,
{
}

impl PlaybackController {
    /// Queues `songs` to play right after the current song, behind the songs already queued
    /// that way. Into an empty queue they come as a new queue whose first song is current and
    /// whose other songs are all queued to play next.
    pub fn insert_after_current(&mut self, songs: Vec<SongResponse>) -> (r: Result<PlaybackStatus, String>)
        requires
            old(self).wf(),
        ensures
            Self::grows(*final(self), *old(self)),
            final(self).wf(),
            r matches Ok(s) && s.same_as(final(self).st()),
            songs@.len() == 0 ==> core_eq(final(self).st(), old(self).st()),
            songs@.len() > 0 && old(self).st().queue@.len() == 0 ==> {
                &&& final(self).st().queue@ == songs@
                &&& final(self).st().current_index == Some(0u32)
                &&& final(self).st().play_next_queue_len == clamped_play_next(
                    songs@.len() as int,
                    Some(0),
                    if songs@.len() - 1 > u32::MAX { u32::MAX as int } else { songs@.len() - 1 },
                )
                &&& final(self).st().current_song_id == Some(songs@[0].id)
                &&& final(self).st().playing_state == PlayingState::Stopped
                &&& !final(self).restore_deferred()
            },
            songs@.len() > 0 && old(self).st().queue@.len() > 0 ==> {
                let len = old(self).st().queue@.len() as int;
                let cur = old(self).st().current_index;
                let pnl = clamped_play_next(len, cur, old(self).st().play_next_queue_len as int);
                let at = play_next_end(len, cur, pnl);
                &&& final(self).st().queue@ == inserted_at(old(self).st().queue@, at, songs@)
                &&& final(self).st().current_index == cur
                &&& final(self).st().current_song_id == old(self).st().current_song_id
                &&& final(self).st().play_next_queue_len == grown_play_next(
                    len + songs@.len(),
                    cur,
                    pnl,
                    songs@.len() as int,
                )
                &&& final(self).st().playing_state == old(self).st().playing_state
                &&& !final(self).restore_deferred()
            },
            !is_active(old(self).st().playing_state) ==> final(self).st().current_position_ms
                == old(self).st().current_position_ms,
    {
        if songs.len() == 0 {
            return Ok(self.state());
        }
        self.restore_state_deferred = false;
        self.clear_gapless_preparation();
        self.sync_current_position_for_queue_mutation();
        if self.status.queue.len() == 0 {
            let next_song_id = current_song_id(&songs, Some(0));
            let count = songs.len();
            self.status.queue = songs;
            self.status.current_index = Some(0);
            self.status.play_next_queue_len = if count - 1 > u32::MAX as usize {
                u32::MAX
            } else {
                (count - 1) as u32
            };
            clamp_play_next_queue_len(&mut self.status);
            proof {
                lemma_clamped_play_next_wf(count as int, Some(0), (if count - 1 > u32::MAX { u32::MAX as int } else { count - 1 }));
            }
            self.status.current_song_id = next_song_id;
            self.status.playing_state = PlayingState::Stopped;
        } else {
            clamp_play_next_queue_len(&mut self.status);
            let insert_pos = play_next_end_index(&self.status);
            let count = songs.len();
            let ghost before = self.status.queue@;
            insert_songs_at(&mut self.status.queue, insert_pos, songs);
            let added: u32 = if count > u32::MAX as usize {
                u32::MAX
            } else {
                count as u32
            };
            self.status.play_next_queue_len = self.status.play_next_queue_len.saturating_add(added);
            clamp_play_next_queue_len(&mut self.status);
            proof {
                let len2 = self.status.queue@.len() as int;
                lemma_clamped_play_next_wf(
                    len2,
                    self.status.current_index,
                    self.status.play_next_queue_len as int,
                );
            }
        }
        self.persist_state();
        self.report_status();
        Ok(self.state())
    }

    /// Adds `songs` at the end of the queue; into an empty queue they come as a new queue
    /// whose first song is current.
    pub fn append_to_queue(&mut self, songs: Vec<SongResponse>) -> (r: Result<PlaybackStatus, String>)
        requires
            old(self).wf(),
        ensures
            Self::grows(*final(self), *old(self)),
            final(self).wf(),
            r matches Ok(s) && s.same_as(final(self).st()),
            songs@.len() == 0 ==> core_eq(final(self).st(), old(self).st()),
            songs@.len() > 0 && old(self).st().queue@.len() == 0 ==> {
                &&& final(self).st().queue@ == songs@
                &&& final(self).st().current_index == Some(0u32)
                &&& final(self).st().play_next_queue_len == 0
                &&& final(self).st().current_song_id == Some(songs@[0].id)
                &&& final(self).st().playing_state == PlayingState::Stopped
                &&& !final(self).restore_deferred()
            },
            songs@.len() > 0 && old(self).st().queue@.len() > 0 ==> {
                &&& final(self).st().queue@ == old(self).st().queue@ + songs@
                &&& final(self).st().current_index == old(self).st().current_index
                &&& final(self).st().current_song_id == old(self).st().current_song_id
                &&& final(self).st().play_next_queue_len == old(self).st().play_next_queue_len
                &&& final(self).st().playing_state == old(self).st().playing_state
                &&& !final(self).restore_deferred()
            },
            !is_active(old(self).st().playing_state) ==> final(self).st().current_position_ms
                == old(self).st().current_position_ms,
    {
        if songs.len() == 0 {
            return Ok(self.state());
        }
        self.restore_state_deferred = false;
        self.clear_gapless_preparation();
        self.sync_current_position_for_queue_mutation();
        if self.status.queue.len() == 0 {
            let next_song_id = current_song_id(&songs, Some(0));
            self.status.queue = songs;
            self.status.current_index = Some(0);
            self.status.play_next_queue_len = 0;
            self.status.current_song_id = next_song_id;
            self.status.playing_state = PlayingState::Stopped;
        } else {
            let mut songs = songs;
            self.status.queue.append(&mut songs);
        }
        self.persist_state();
        self.report_status();
        Ok(self.state())
    }

    /// Moves the entry at `from_index` to `to_index`. The current entry stays current where it
    /// went; the play-next region keeps its length while the current index holds, else keeps
    /// what lies after the new current position.
    pub fn move_queue_index(&mut self, from_index: u32, to_index: u32) -> (r: Result<PlaybackStatus, String>)
        requires
            old(self).wf(),
        ensures
            Self::grows(*final(self), *old(self)),
            final(self).wf(),
            (from_index >= old(self).st().queue@.len() || to_index >= old(self).st().queue@.len())
                ==> (r matches Err(e) && e@ == queue_index_out_of_range_message() && final(self).st()
                == old(self).st() && Self::same_aux(*final(self), *old(self)) && final(self).notices()
                == old(self).notices()),
            r matches Ok(s) ==> s.same_as(final(self).st()),
            (from_index < old(self).st().queue@.len() && to_index < old(self).st().queue@.len()) ==> (
            r is Ok),
            from_index == to_index ==> core_eq(final(self).st(), old(self).st()),
            from_index < old(self).st().queue@.len() && to_index < old(self).st().queue@.len()
                && old(self).st().current_index is Some ==> final(self).st().current_index is Some
                && final(self).st().queue@[final(self).st().current_index->0 as int] == old(
                self,
            ).st().queue@[old(self).st().current_index->0 as int] && final(self).st().current_song_id
                == Some(old(self).st().queue@[old(self).st().current_index->0 as int].id),
            (from_index < old(self).st().queue@.len() && to_index < old(self).st().queue@.len()
                && from_index != to_index) ==> {
                let len = old(self).st().queue@.len() as int;
                let q = old(self).st().queue@;
                let cur = old(self).st().current_index;
                let next = match cur {
                    Some(c) => Some(moved_index(c as int, from_index as int, to_index as int) as u32),
                    None => None,
                };
                &&& final(self).st().queue@ == moved(q, from_index as int, to_index as int)
                &&& final(self).st().current_index == next
                &&& (cur matches Some(c) ==> final(self).st().queue@[next.unwrap() as int] == q[c as int])
                &&& final(self).st().play_next_queue_len == (if next == cur {
                    clamped_play_next(len, next, old(self).st().play_next_queue_len as int)
                } else {
                    adjusted_play_next(len, cur, old(self).st().play_next_queue_len as int, next)
                })
                &&& final(self).st().current_song_id == song_id_at(final(self).st().queue@, next)
                &&& final(self).st().playing_state == old(self).st().playing_state
                &&& (final(self).st().current_position_ms == old(self).st().current_position_ms
                    || is_active(old(self).st().playing_state))
                &&& !final(self).restore_deferred()
            },
    {
        if from_index as usize >= self.status.queue.len() || to_index as usize >= self.status.queue.len() {
            return Err(String::from_str("Playback queue index is out of range."));
        }
        if from_index == to_index {
            return Ok(self.state());
        }
        self.restore_state_deferred = false;
        let previous_current_index = self.status.current_index;
        let previous_play_next_queue_len = self.status.play_next_queue_len;
        self.clear_gapless_preparation();
        self.sync_current_position_for_queue_mutation();
        let ghost q = self.status.queue@;
        move_entry(&mut self.status.queue, from_index as usize, to_index as usize);
        let next_current_index = moved_current_index(previous_current_index, from_index, to_index);
        proof {
            match previous_current_index {
                Some(c) => {
                    crate::queue::law_move_keeps_current_entry(q, from_index as int, to_index as int, c as int);
                },
                None => {},
            }
        }
        self.status.current_index = next_current_index;
        let len = self.status.queue.len();
        self.status.play_next_queue_len = if next_current_index == previous_current_index {
            clamped_play_next_queue_len(len, next_current_index, previous_play_next_queue_len)
        } else {
            adjusted_play_next_queue_len_for_current_change(
                len,
                previous_current_index,
                previous_play_next_queue_len,
                next_current_index,
            )
        };
        proof {
            lemma_clamped_play_next_wf(len as int, next_current_index, previous_play_next_queue_len as int);
            lemma_adjusted_play_next_wf(len as int, previous_current_index, previous_play_next_queue_len as int, next_current_index);
        }
        self.status.current_song_id = current_song_id(&self.status.queue, self.status.current_index);
        self.sync_queue_state();
        self.persist_state();
        self.report_status();
        Ok(self.state())
    }

    /// Takes entry `index` out of the queue, moving the current index and the play-next length
    /// along.
    fn remove_entry(&mut self, index: u32)
        requires
            old(self).wf(),
            index < old(self).st().queue@.len(),
        ensures
            Self::grows(*final(self), *old(self)),
            final(self).wf(),
            Self::same_aux(*final(self), *old(self)),
            final(self).st() == (PlaybackStatus {
                queue: final(self).st().queue,
                current_index: current_after_removal(
                    old(self).st().current_index,
                    index as int,
                    old(self).st().queue@.len() as int,
                ),
                play_next_queue_len: final(self).st().play_next_queue_len,
                current_song_id: final(self).st().current_song_id,
                ..old(self).st()
            }),
            final(self).st().queue@ == old(self).st().queue@.remove(index as int),
            final(self).st().play_next_queue_len == clamped_play_next(
                old(self).st().queue@.len() - 1,
                final(self).st().current_index,
                pnl_after_removal(
                    old(self).st().queue@.len() as int,
                    old(self).st().current_index,
                    old(self).st().play_next_queue_len as int,
                    index as int,
                ),
            ),
            final(self).st().current_song_id == song_id_at(
                final(self).st().queue@,
                final(self).st().current_index,
            ),
            old(self).st().current_index matches Some(k) ==> (k != index ==> final(self).st().queue@[
                final(self).st().current_index->0 as int] == old(self).st().queue@[k as int]),
    {
        let remove_index = index as usize;
        let current_index = self.status.current_index;
        let previous_play_next_queue_len = self.status.play_next_queue_len;
        let removing_current = current_index == Some(index);
        let was_in_play_next_queue = is_play_next_queue_index(
            self.status.queue.len(),
            current_index,
            previous_play_next_queue_len,
            remove_index,
        );
        let ghost q = self.status.queue@;
        let _ = self.status.queue.remove(remove_index);
        let new_len = self.status.queue.len();
        let next_play_next_queue_len = if (removing_current && previous_play_next_queue_len > 0)
            || was_in_play_next_queue {
            previous_play_next_queue_len - 1
        } else {
            previous_play_next_queue_len
        };
        let next_current_index: Option<u32> = match current_index {
            None => None,
            Some(c) => {
                if new_len == 0 {
                    None
                } else if c > index {
                    Some(c - 1)
                } else if c < index {
                    Some(c)
                } else if remove_index < new_len {
                    Some(index)
                } else {
                    Some((new_len - 1) as u32)
                }
            },
        };
        proof {
            match current_index {
                Some(k) => {
                    if k != index {
                        crate::queue::law_remove_keeps_current_entry(q, remove_index as int, k);
                    }
                },
                None => {},
            }
        }
        self.status.current_index = next_current_index;
        self.status.play_next_queue_len = clamped_play_next_queue_len(
            new_len,
            next_current_index,
            next_play_next_queue_len,
        );
        proof {
            lemma_clamped_play_next_wf(
                new_len as int,
                next_current_index,
                next_play_next_queue_len as int,
            );
        }
        self.status.current_song_id = current_song_id(&self.status.queue, next_current_index);
    }

    /// Reads the position from the backend before a removal (a failure matters only where
    /// the current entry is removed) and drops the prepared next track.
    fn sync_for_removal(&mut self, removing_current: bool) -> (r: Result<(), String>)
        ensures
            Self::calm_since(*final(self), *old(self)),
            old(self).wf() ==> final(self).wf(),
            Self::same_config(*final(self), *old(self)),
            r is Ok ==> final(self).prepared_view() is None,
            final(self).resume_state_view() == old(self).resume_state_view(),
            final(self).recovery_attempts_view() == old(self).recovery_attempts_view(),
            final(self).recovery_plan() == old(self).recovery_plan(),
            final(self).events_applied() == old(self).events_applied(),
            final(self).st() == (PlaybackStatus {
                current_position_ms: final(self).st().current_position_ms,
                playback_error: final(self).st().playback_error,
                prepared_stream_info: final(self).st().prepared_stream_info,
                gapless_status: final(self).st().gapless_status,
                ..old(self).st()
            }),
            final(self).st().current_position_ms == old(self).st().current_position_ms || is_active(
                old(self).st().playing_state,
            ),
            !removing_current ==> r is Ok,
            removing_current && !is_active(old(self).st().playing_state) ==> r is Ok,
            removing_current && is_active(old(self).st().playing_state) ==> old(self).notices().len()
                < final(self).notices().len() && final(self).notices()[old(self).notices().len() as int] is PositionRead
                && (read_failed(final(self).notices()[old(self).notices().len() as int]) <==> r is Err),
    {
        let ghost start = *self;
        if removing_current {
            match self.sync_current_position_from_backend() {
                Ok(()) => {},
                Err(e) => {
                    proof { Self::lemma_calm_step(*self, start); }
                    return Err(e);
                },
            }
            proof { Self::lemma_calm_step(*self, start); }
        } else {
            self.sync_current_position_for_queue_mutation();
        }
        let ghost p = *self;
        self.clear_gapless_preparation();
        proof { Self::lemma_calm_step(*self, p); Self::lemma_calm_chain(*self, p, start); }
        Ok(())
    }

    /// Sends the changed queue to the queue sync service, saves the state and reports it.
    fn publish_queue_change(&mut self) -> (r: PlaybackStatus)
        ensures
            Self::grows(*final(self), *old(self)),
            old(self).wf() ==> final(self).wf(),
            core_eq(final(self).st(), old(self).st()),
            final(self).st().actual_stream_info == old(self).st().actual_stream_info,
            r.same_as(final(self).st()),
            Self::same_config(*final(self), *old(self)),
            final(self).prepared_view() == old(self).prepared_view(),
            final(self).resume_state_view() == old(self).resume_state_view(),
            final(self).recovery_attempts_view() == old(self).recovery_attempts_view(),
            final(self).recovery_plan() == old(self).recovery_plan(),
            final(self).events_applied() == old(self).events_applied(),
    {
        self.sync_queue_state();
        self.persist_state();
        self.report_status();
        self.state()
    }

    /// Stops the backend for the removal of the loaded current entry, then drops the
    /// waiting events and reports the stop at `position_ms` to the server.
    fn stop_for_removal(&mut self, context: Option<&PlaybackRuntimeContext<'_>>, position_ms: u32) -> (r:
        Result<(), String>)
        ensures
            Self::grows(*final(self), *old(self)),
            final(self).st() == old(self).st(),
            Self::same_state(*final(self), *old(self)),
            final(self).events_applied() == old(self).events_applied(),
            old(self).wf() ==> final(self).wf(),
            old(self).notices().len() < final(self).notices().len(),
            final(self).notices()[old(self).notices().len() as int] is BackendStopped,
            stop_succeeded(final(self).notices()[old(self).notices().len() as int]) <==> r is Ok,
    {
        let ghost k0 = self.notices@.len() as int;
        let stopped = self.backend_stop();
        match stopped {
            Ok(()) => {},
            Err(e) => {
                return Err(e);
            },
        }
        self.clear_native_events();
        match context {
            Some(ctx) => self.report_current_server_playback_stopped(ctx, position_ms),
            None => {},
        }
        self.clear_server_reporting();
        assert(self.notices@[k0] is BackendStopped);
        Ok(())
    }

    /// Loads entry `next_index`, which took the place of a removed current entry, from its
    /// start, playing or paused as `autoplay` says, then saves the state and applies the
    /// backend's events.
    fn load_replacement(
        &mut self,
        context: &PlaybackRuntimeContext<'_>,
        next_index: u32,
        autoplay: bool,
    ) -> (r: Result<PlaybackStatus, String>)
        requires
            old(self).wf(),
            next_index < old(self).st().queue@.len(),
            queue_wf(
                old(self).st().queue@.len() as int,
                Some(next_index),
                old(self).st().play_next_queue_len as int,
            ),
            old(self).prepared_view() is None,
        ensures
            Self::grows(*final(self), *old(self)),
            final(self).wf(),
            final(self).events_applied() >= old(self).events_applied(),
            final(self).st().queue@ == old(self).st().queue@,
            Self::same_config(*final(self), *old(self)),
            r matches Ok(s) ==> s.same_as(final(self).st()),
            r is Ok && quiet(*final(self), *old(self)) ==> {
                &&& final(self).st().current_index == Some(next_index)
                &&& final(self).st().current_song_id == Some(old(self).st().queue@[next_index as int].id)
                &&& final(self).st().current_position_ms == 0
                &&& final(self).st().play_next_queue_len == old(self).st().play_next_queue_len
                &&& final(self).st().playing_state == (if autoplay {
                    PlayingState::Playing
                } else {
                    PlayingState::Paused
                })
                &&& final(self).st().playback_error is None
                &&& final(self).st().interrupt_reason is None
                &&& final(self).st().pending_seek_position_ms is None
            },
            load_recorded(
                *final(self),
                *old(self),
                old(self).notices().len() as int,
                context.capability_matrix.transcode_offset,
                old(self).st().queue@[next_index as int],
                0,
                autoplay,
                r is Ok,
                quiet(*final(self), *old(self)),
            ),
    {
        let ghost start = *self;
        let ghost offset = context.capability_matrix.transcode_offset;
        let loaded = self.load_track_at_index(context, next_index, 0, autoplay);
        let ghost after_load = *self;
        assert(load_recorded(
            after_load,
            start,
            start.notices().len() as int,
            offset,
            start.st().queue@[next_index as int],
            0,
            autoplay,
            loaded is Ok,
            true,
        ));
        match loaded {
            Ok(()) => {},
            Err(e) => {
                proof {
                    lemma_load_recorded_kept(after_load, start, start.notices().len() as int, *self, start, start.notices().len() as int, offset, start.st().queue@[next_index as int], 0, autoplay, false, true, false, quiet(*self, start));
                }
                return Err(e);
            },
        }
        self.persist_state();
        match self.process_native_events_inner(Some(context), false) {
            Ok(_) => {},
            Err(e) => {
                proof {
                    lemma_load_recorded_kept(after_load, start, start.notices().len() as int, *self, start, start.notices().len() as int, offset, start.st().queue@[next_index as int], 0, autoplay, true, true, false, quiet(*self, start));
                }
                return Err(e);
            },
        }
        self.report_status();
        let status = self.state();
        proof {
            lemma_load_recorded_kept(after_load, start, start.notices().len() as int, *self, start, start.notices().len() as int, offset, start.st().queue@[next_index as int], 0, autoplay, true, true, true, quiet(*self, start));
        }
        Ok(status)
    }

    /// Removes entry `index` from the queue. Removing the current entry stops it and makes
    /// the entry that took its place current, loaded where a track was active and a session
    /// is given.
    #[verifier::rlimit(100)]
    #[verifier::spinoff_prover]
    pub fn remove_queue_index(
        &mut self,
        context: Option<&PlaybackRuntimeContext<'_>>,
        index: u32,
    ) -> (r: Result<PlaybackStatus, String>)
        requires
            old(self).wf(),
        ensures
            Self::grows(*final(self), *old(self)),
            final(self).wf(),
            final(self).events_applied() >= old(self).events_applied(),
            Self::same_session_settings(*final(self), *old(self)),
            index >= old(self).st().queue@.len() ==> (r matches Err(e) && e@
                == queue_index_out_of_range_message() && *final(self) == *old(self)),
            index < old(self).st().queue@.len() && !(old(self).st().current_index == Some(index)
                && is_loaded(old(self).st().playing_state)) ==> r is Ok
                && final(self).events_applied() == old(self).events_applied(),
            r matches Ok(s) ==> s.same_as(final(self).st()),
            r is Ok && final(self).events_applied() == old(self).events_applied() ==> removal_outcome(
                *final(self),
                *old(self),
                index,
                context is Some,
            ),
            r is Ok && old(self).st().current_index == Some(index) && is_loaded(
                old(self).st().playing_state,
            ) ==> Self::stopped_since(*final(self), *old(self)),
            index < old(self).st().queue@.len() && old(self).st().current_index == Some(index)
                && is_loaded(old(self).st().playing_state) ==> removal_handover(
                *final(self),
                *old(self),
                index,
                match context {
                    Some(ctx) => Some(ctx.capability_matrix.transcode_offset),
                    None => None,
                },
                r,
            ),
    {
        let ghost start = *self;
        if index as usize >= self.status.queue.len() {
            return Err(String::from_str("Playback queue index is out of range."));
        }
        self.restore_state_deferred = false;
        let removing_current = self.status.current_index == Some(index);
        let was_loaded = self.status.playing_state == PlayingState::Playing
            || self.status.playing_state == PlayingState::Paused || self.status.playing_state
            == PlayingState::Interrupted;
        let autoplay = self.should_autoplay();
        match self.sync_for_removal(removing_current) {
            Ok(()) => {},
            Err(e) => {
                return Err(e);
            },
        }
        let removed_position_ms = self.status.current_position_ms;
        let ghost mut k0: int = -1;
        if removing_current && was_loaded {
            proof {
                k0 = self.notices@.len() as int;
            }
            match self.stop_for_removal(context, removed_position_ms) {
                Ok(()) => {},
                Err(e) => {
                    assert(self.notices@[k0] is BackendStopped);
                    return Err(e);
                },
            }
        }
        self.remove_entry(index);
        let new_len = self.status.queue.len();
        let next_current_index = self.status.current_index;
        if removing_current {
            self.status.current_position_ms = 0;
            self.status.playback_error = None;
            self.status.interrupt_reason = None;
            self.status.pending_seek_position_ms = None;
            self.interrupted_resume_state = None;
            if new_len == 0 {
                self.status.playing_state = PlayingState::Idle;
            } else {
                self.status.playing_state = PlayingState::Stopped;
                if was_loaded {
                    match (context, next_current_index) {
                        (Some(ctx), Some(next_index)) => {
                            self.sync_queue_state();
                            let ghost mid = *self;
                            let r = self.load_replacement(ctx, next_index, autoplay);
                            proof {
                                lemma_load_recorded_kept(
                                    *self,
                                    mid,
                                    mid.notices().len() as int,
                                    *self,
                                    start,
                                    start.notices().len() as int,
                                    ctx.capability_matrix.transcode_offset,
                                    mid.st().queue@[next_index as int],
                                    0,
                                    autoplay,
                                    r is Ok,
                                    quiet(*self, mid),
                                    r is Ok,
                                    quiet(*self, start),
                                );
                            }
                            assert(self.notices@[k0] is BackendStopped);
                            return r;
                        },
                        _ => {},
                    }
                }
            }
        }
        let status = self.publish_queue_change();
        assert(k0 >= 0 ==> self.notices@[k0] is BackendStopped);
        Ok(status)
    }
}

} // verus!
