//! Reporting playback to the server: the `reportPlayback` extension with its heartbeat, or,
//! where the server lacks it, classic scrobbles.
//!
//! The decisions are taken here from the reports, the clearing of the track and the time that
//! passed; the application runs the loop that waits, measures the time and sends the requests.
use vstd::prelude::*;
use crate::models::session::CapabilityMatrix;

verus! {

/// The playback state as reported to the server.
#[derive(Debug, Clone, Copy, PartialEq, Eq, Structural)]
pub enum ServerPlaybackState {
    Starting,
    Playing,
    Paused,
    Stopped,
}

/// The kind of media being reported.
#[derive(Debug, Clone, Copy, PartialEq, Eq, Structural)]
pub enum ServerMediaType {
    Song,
    Podcast,
}

/// The session a report belongs to: its profile, and whether its server offers the
/// `playbackReport` extension.
#[derive(Debug, Clone, PartialEq, Eq)]
pub struct ServerPlaybackReportingContext {
    pub playback_report: bool,
    pub profile_id: String,
}

impl ServerPlaybackReportingContext {
    /// The context of a session with these capabilities.
    pub fn new(capability_matrix: &CapabilityMatrix, profile_id: String) -> (r: Self)
        ensures
            r.playback_report == capability_matrix.playback_report,
            r.profile_id == profile_id,
    {
        ServerPlaybackReportingContext {
            playback_report: capability_matrix.playback_report,
            profile_id,
        }
    }

    /// A copy equal to this context.
    pub fn duplicate(&self) -> (r: Self)
        ensures
            r == *self,
    {
        ServerPlaybackReportingContext {
            playback_report: self.playback_report,
            profile_id: self.profile_id.clone(),
        }
    }
}

/// The track a report is about.
#[derive(Debug, Clone, PartialEq, Eq)]
pub struct ServerPlaybackTrack {
    pub song_id: String,
    pub media_type: ServerMediaType,
    pub queue_index: Option<u32>,
    pub duration_ms: Option<u64>,
}

impl ServerPlaybackTrack {
    /// A copy equal to this track.
    pub fn duplicate(&self) -> (r: Self)
        ensures
            r == *self,
    {
        ServerPlaybackTrack {
            song_id: self.song_id.clone(),
            media_type: self.media_type,
            queue_index: self.queue_index,
            duration_ms: self.duration_ms,
        }
    }
}

/// Receives the playback transitions the controller reports to the server.
pub trait PlaybackServerReporter {
    fn report_state(
        &mut self,
        context: ServerPlaybackReportingContext,
        track: ServerPlaybackTrack,
        position_ms: u32,
        state: ServerPlaybackState,
    );

    fn clear(&mut self);
}

/// A server reporter that reports nothing.
#[derive(Debug, Default, Clone, Copy)]
pub struct NoopPlaybackServerReporter;

impl PlaybackServerReporter for NoopPlaybackServerReporter {
    fn report_state(
        &mut self,
        context: ServerPlaybackReportingContext,
        track: ServerPlaybackTrack,
        position_ms: u32,
        state: ServerPlaybackState,
    ) {
    }

    fn clear(&mut self) {
    }
}

/// The interval between heartbeats while playing, in milliseconds.
pub const HEARTBEAT_INTERVAL_MS: u64 = 15_000;

/// How long the reporter waits when nothing is playing, in milliseconds.
pub const IDLE_TIMEOUT_MS: u64 = 3_600_000;

/// The longest play time a fallback scrobble ever waits for: four minutes.
pub const FALLBACK_SCROBBLE_MAX_THRESHOLD_MS: u64 = 240_000;

/// The play time a fallback scrobble waits for when the duration is unknown.
pub const FALLBACK_SCROBBLE_UNKNOWN_DURATION_THRESHOLD_MS: u64 = 30_000;

/// The play time after which a track counts as played: half its duration, at most four
/// minutes; thirty seconds when the duration is unknown or zero.
pub open spec fn scrobble_threshold(duration_ms: Option<u64>) -> u64 {
    match duration_ms {
        Some(d) => if d > 0 {
            if d / 2 <= FALLBACK_SCROBBLE_MAX_THRESHOLD_MS {
                d / 2
            } else {
                FALLBACK_SCROBBLE_MAX_THRESHOLD_MS
            }
        } else {
            FALLBACK_SCROBBLE_UNKNOWN_DURATION_THRESHOLD_MS
        },
        None => FALLBACK_SCROBBLE_UNKNOWN_DURATION_THRESHOLD_MS,
    }
}

/// The play time after which a track counts as played.
pub fn fallback_scrobble_threshold_ms(duration_ms: Option<u64>) -> (r: u64)
    ensures
        r == scrobble_threshold(duration_ms),
{
    match duration_ms {
        Some(d) => {
            if d > 0 {
                let half = d / 2;
                if half <= FALLBACK_SCROBBLE_MAX_THRESHOLD_MS {
                    half
                } else {
                    FALLBACK_SCROBBLE_MAX_THRESHOLD_MS
                }
            } else {
                FALLBACK_SCROBBLE_UNKNOWN_DURATION_THRESHOLD_MS
            }
        },
        None => FALLBACK_SCROBBLE_UNKNOWN_DURATION_THRESHOLD_MS,
    }
}

/// Whether a played scrobble is due: not yet sent, and the threshold reached.
pub fn should_submit_fallback_scrobble(
    played_ms: u64,
    duration_ms: Option<u64>,
    already_scrobbled: bool,
) -> (r: bool)
    ensures
        r == (!already_scrobbled && played_ms >= scrobble_threshold(duration_ms)),
{
    !already_scrobbled && played_ms >= fallback_scrobble_threshold_ms(duration_ms)
}

/// What tells one track play from another: profile, song and queue position.
#[derive(Debug, Clone, PartialEq, Eq)]
pub struct FallbackTrackKey {
    pub profile_id: String,
    pub song_id: String,
    pub queue_index: Option<u32>,
}

/// The key of a report.
pub fn fallback_track_key(
    context: &ServerPlaybackReportingContext,
    track: &ServerPlaybackTrack,
) -> (k: FallbackTrackKey)
    ensures
        k.profile_id == context.profile_id,
        k.song_id == track.song_id,
        k.queue_index == track.queue_index,
{
    FallbackTrackKey {
        profile_id: context.profile_id.clone(),
        song_id: track.song_id.clone(),
        queue_index: track.queue_index,
    }
}

/// Two keys name the same track play: same profile text, song text and queue position.
pub open spec fn keys_match(a: FallbackTrackKey, b: FallbackTrackKey) -> bool {
    a.profile_id@ == b.profile_id@ && a.song_id@ == b.song_id@ && a.queue_index == b.queue_index
}

/// Whether two keys name the same track play.
pub fn same_track_key(a: &FallbackTrackKey, b: &FallbackTrackKey) -> (r: bool)
    ensures
        r == keys_match(*a, *b),
{
    let same_index = match (a.queue_index, b.queue_index) {
        (Some(x), Some(y)) => x == y,
        (None, None) => true,
        _ => false,
    };
    a.profile_id == b.profile_id && a.song_id == b.song_id && same_index
}

/// The track being played, as the scrobble fallback follows it.
#[derive(Debug, Clone, PartialEq, Eq)]
pub struct ActiveFallbackScrobbleSession {
    pub context: ServerPlaybackReportingContext,
    pub track: ServerPlaybackTrack,
    pub state: ServerPlaybackState,
    pub position_ms: u64,
    pub played_ms: u64,
    pub now_playing_reported: bool,
    pub played_scrobbled: bool,
}

/// A request the scrobble fallback asks to be sent.
#[derive(Debug, Clone, PartialEq, Eq)]
pub enum FallbackScrobbleAction {
    /// A "now playing" scrobble (not a submission).
    NowPlaying { context: ServerPlaybackReportingContext, track: ServerPlaybackTrack },
    /// A played scrobble (a submission).
    Played { context: ServerPlaybackReportingContext, track: ServerPlaybackTrack },
}

impl FallbackScrobbleAction {
    /// A copy equal to this action.
    pub fn duplicate(&self) -> (r: Self)
        ensures
            r == *self,
    {
        match self {
            FallbackScrobbleAction::NowPlaying { context, track } => FallbackScrobbleAction::NowPlaying {
                context: context.duplicate(),
                track: track.duplicate(),
            },
            FallbackScrobbleAction::Played { context, track } => FallbackScrobbleAction::Played {
                context: context.duplicate(),
                track: track.duplicate(),
            },
        }
    }
}

impl ActiveFallbackScrobbleSession {
    /// A session that starts with this report.
    pub fn new(
        context: ServerPlaybackReportingContext,
        track: ServerPlaybackTrack,
        position_ms: u32,
        state: ServerPlaybackState,
    ) -> (s: Self)
        ensures
            s.context == context,
            s.track == track,
            s.state == state,
            s.position_ms == position_ms,
            s.played_ms == 0,
            !s.now_playing_reported,
            !s.played_scrobbled,
    {
        ActiveFallbackScrobbleSession {
            context,
            track,
            state,
            position_ms: position_ms as u64,
            played_ms: 0,
            now_playing_reported: false,
            played_scrobbled: false,
        }
    }

    /// The key of this session.
    pub fn key(&self) -> (k: FallbackTrackKey)
        ensures
            k.profile_id == self.context.profile_id,
            k.song_id == self.track.song_id,
            k.queue_index == self.track.queue_index,
    {
        fallback_track_key(&self.context, &self.track)
    }

    /// Counts `elapsed_ms` of play time if the track is playing.
    pub fn refresh_progress(&mut self, elapsed_ms: u64)
        ensures
            final(self).played_ms == (if old(self).state == ServerPlaybackState::Playing {
                sat_add(old(self).played_ms, elapsed_ms)
            } else {
                old(self).played_ms
            }),
            final(self).position_ms == (if old(self).state == ServerPlaybackState::Playing {
                sat_add(old(self).position_ms, elapsed_ms)
            } else {
                old(self).position_ms
            }),
            final(self).state == old(self).state,
            final(self).context == old(self).context,
            final(self).track == old(self).track,
            final(self).now_playing_reported == old(self).now_playing_reported,
            final(self).played_scrobbled == old(self).played_scrobbled,
    {
        if self.state == ServerPlaybackState::Playing {
            self.played_ms = self.played_ms.saturating_add(elapsed_ms);
            self.position_ms = self.position_ms.saturating_add(elapsed_ms);
        }
    }

    /// Takes a new report for the same track after `elapsed_ms`.
    pub fn update(&mut self, position_ms: u32, state: ServerPlaybackState, elapsed_ms: u64)
        ensures
            final(self).played_ms == (if old(self).state == ServerPlaybackState::Playing {
                sat_add(old(self).played_ms, elapsed_ms)
            } else {
                old(self).played_ms
            }),
            final(self).position_ms == position_ms,
            final(self).state == state,
            final(self).context == old(self).context,
            final(self).track == old(self).track,
            final(self).now_playing_reported == old(self).now_playing_reported,
            final(self).played_scrobbled == old(self).played_scrobbled,
    {
        self.refresh_progress(elapsed_ms);
        self.position_ms = position_ms as u64;
        self.state = state;
    }

    /// Counts `elapsed_ms` of play time, and answers whether the played scrobble is due: it
    /// was not sent yet and enough of the track was played.
    pub fn should_submit_played_scrobble(&mut self, elapsed_ms: u64) -> (r: bool)
        ensures
            r == should_scrobble_after(*old(self), elapsed_ms),
            final(self).played_ms == (if old(self).state == ServerPlaybackState::Playing {
                sat_add(old(self).played_ms, elapsed_ms)
            } else {
                old(self).played_ms
            }),
            final(self).state == old(self).state,
            final(self).context == old(self).context,
            final(self).track == old(self).track,
            final(self).now_playing_reported == old(self).now_playing_reported,
            final(self).played_scrobbled == old(self).played_scrobbled,
    {
        self.refresh_progress(elapsed_ms);
        should_submit_fallback_scrobble(self.played_ms, self.track.duration_ms, self.played_scrobbled)
    }
}

/// `a + b`, saturating at the largest `u64`.
pub open spec fn sat_add(a: u64, b: u64) -> u64 {
    if a + b > u64::MAX {
        u64::MAX
    } else {
        (a + b) as u64
    }
}

/// Sends the played scrobble of `session` if it is due, counting `elapsed_ms` first.
pub fn submit_fallback_scrobble_if_ready(
    session: &mut ActiveFallbackScrobbleSession,
    elapsed_ms: u64,
    actions: &mut Vec<FallbackScrobbleAction>,
)
    ensures
        final(session).played_scrobbled == (old(session).played_scrobbled || should_scrobble_after(
            *old(session),
            elapsed_ms,
        )),
        final(actions)@ == (if should_scrobble_after(*old(session), elapsed_ms) {
            old(actions)@.push(
                FallbackScrobbleAction::Played {
                    context: old(session).context,
                    track: old(session).track,
                },
            )
        } else {
            old(actions)@
        }),
        final(session).context == old(session).context,
        final(session).track == old(session).track,
        final(session).state == old(session).state,
        final(session).now_playing_reported == old(session).now_playing_reported,
        final(session).position_ms == (if old(session).state == ServerPlaybackState::Playing {
            sat_add(old(session).position_ms, elapsed_ms)
        } else {
            old(session).position_ms
        }),
{
    session.refresh_progress(elapsed_ms);
    if should_submit_fallback_scrobble(
        session.played_ms,
        session.track.duration_ms,
        session.played_scrobbled,
    ) {
        actions.push(
            FallbackScrobbleAction::Played {
                context: session.context.duplicate(),
                track: session.track.duplicate(),
            },
        );
        session.played_scrobbled = true;
    }
}

/// A played scrobble is due once `elapsed_ms` more play time is counted.
pub open spec fn should_scrobble_after(s: ActiveFallbackScrobbleSession, elapsed_ms: u64) -> bool {
    let played = if s.state == ServerPlaybackState::Playing {
        sat_add(s.played_ms, elapsed_ms)
    } else {
        s.played_ms
    };
    !s.played_scrobbled && played >= scrobble_threshold(s.track.duration_ms)
}


/// Ends the followed track play: its played scrobble is sent if due, and nothing is followed.
pub fn finalize_fallback_scrobble(
    active_session: &mut Option<ActiveFallbackScrobbleSession>,
    elapsed_ms: u64,
    actions: &mut Vec<FallbackScrobbleAction>,
)
    ensures
        *final(active_session) is None,
        match *old(active_session) {
            Some(s) => final(actions)@ == (if should_scrobble_after(s, elapsed_ms) {
                old(actions)@.push(FallbackScrobbleAction::Played { context: s.context, track: s.track })
            } else {
                old(actions)@
            }),
            None => final(actions)@ == old(actions)@,
        },
{
    match active_session {
        Some(session) => {
            submit_fallback_scrobble_if_ready(session, elapsed_ms, actions);
        },
        None => {},
    }
    *active_session = None;
}

/// The followed track play continues with a report for `key`.
pub open spec fn continues_play(active: Option<ActiveFallbackScrobbleSession>, key: FallbackTrackKey) -> bool {
    match active {
        Some(s) => keys_match(
            FallbackTrackKey {
                profile_id: s.context.profile_id,
                song_id: s.track.song_id,
                queue_index: s.track.queue_index,
            },
            key,
        ),
        None => false,
    }
}

/// The key of a report.
pub open spec fn report_key(context: ServerPlaybackReportingContext, track: ServerPlaybackTrack) -> FallbackTrackKey {
    FallbackTrackKey {
        profile_id: context.profile_id,
        song_id: track.song_id,
        queue_index: track.queue_index,
    }
}

/// The followed play once a report is taken, before any scrobble is sent: the same play
/// updated (its play time counted while it was playing), or a new play of the reported track.
pub open spec fn session_after_report(
    active: Option<ActiveFallbackScrobbleSession>,
    context: ServerPlaybackReportingContext,
    track: ServerPlaybackTrack,
    position_ms: u32,
    state: ServerPlaybackState,
    elapsed_ms: u64,
) -> ActiveFallbackScrobbleSession {
    if continues_play(active, report_key(context, track)) {
        let s = active->0;
        ActiveFallbackScrobbleSession {
            played_ms: if s.state == ServerPlaybackState::Playing {
                sat_add(s.played_ms, elapsed_ms)
            } else {
                s.played_ms
            },
            position_ms: position_ms as u64,
            state,
            ..s
        }
    } else {
        ActiveFallbackScrobbleSession {
            context,
            track,
            state,
            position_ms: position_ms as u64,
            played_ms: 0,
            now_playing_reported: false,
            played_scrobbled: false,
        }
    }
}

/// The scrobbles a report asks for, in order: the played scrobble of a play that another
/// track ends, where due; "now playing" the first time the play is reported playing; the
/// played scrobble of the play, where due, unless it is only starting.
pub open spec fn fallback_report_actions(
    active: Option<ActiveFallbackScrobbleSession>,
    context: ServerPlaybackReportingContext,
    track: ServerPlaybackTrack,
    position_ms: u32,
    state: ServerPlaybackState,
    elapsed_ms: u64,
) -> Seq<FallbackScrobbleAction> {
    let ended = match active {
        Some(s) => if !continues_play(active, report_key(context, track)) && should_scrobble_after(
            s,
            elapsed_ms,
        ) {
            seq![FallbackScrobbleAction::Played { context: s.context, track: s.track }]
        } else {
            Seq::empty()
        },
        None => Seq::empty(),
    };
    let n = session_after_report(active, context, track, position_ms, state, elapsed_ms);
    let now_playing = if state == ServerPlaybackState::Playing && !n.now_playing_reported {
        seq![FallbackScrobbleAction::NowPlaying { context: n.context, track: n.track }]
    } else {
        Seq::empty()
    };
    let played = if state != ServerPlaybackState::Starting && should_scrobble_after(n, 0) {
        seq![FallbackScrobbleAction::Played { context: n.context, track: n.track }]
    } else {
        Seq::empty()
    };
    ended + now_playing + played
}

/// Takes one report where the server lacks the `playbackReport` extension, `elapsed_ms` after
/// the followed play was last counted. A report for another track ends the followed play
/// first. Playing sends "now playing" once per play; playing and pausing send the played
/// scrobble once it is due; stopping ends the play.
pub fn handle_fallback_report(
    active_session: &mut Option<ActiveFallbackScrobbleSession>,
    context: ServerPlaybackReportingContext,
    track: ServerPlaybackTrack,
    position_ms: u32,
    state: ServerPlaybackState,
    elapsed_ms: u64,
    actions: &mut Vec<FallbackScrobbleAction>,
)
    ensures
        state == ServerPlaybackState::Stopped ==> *final(active_session) is None,
        state != ServerPlaybackState::Stopped ==> (*final(active_session) matches Some(s) && s.state
            == state && s.position_ms == position_ms && keys_match(
            FallbackTrackKey {
                profile_id: s.context.profile_id,
                song_id: s.track.song_id,
                queue_index: s.track.queue_index,
            },
            FallbackTrackKey {
                profile_id: context.profile_id,
                song_id: track.song_id,
                queue_index: track.queue_index,
            },
        )),
        state == ServerPlaybackState::Playing ==> (*final(active_session) matches Some(s)
            && s.now_playing_reported),
        final(actions)@ == old(actions)@ + fallback_report_actions(
            *old(active_session),
            context,
            track,
            position_ms,
            state,
            elapsed_ms,
        ),
{
    let next_key = fallback_track_key(&context, &track);
    let ghost old_actions = actions@;
    let ghost old_active = *active_session;
    let ghost n = session_after_report(old_active, context, track, position_ms, state, elapsed_ms);
    let ghost want = fallback_report_actions(old_active, context, track, position_ms, state, elapsed_ms);
    let differs = match active_session {
        Some(session) => !same_track_key(&session.key(), &next_key),
        None => false,
    };
    let mut elapsed = elapsed_ms;
    if differs {
        finalize_fallback_scrobble(active_session, elapsed, actions);
        elapsed = 0;
    }
    match active_session {
        Some(session) => {
            session.update(position_ms, state, elapsed);
        },
        None => {
            *active_session = Some(ActiveFallbackScrobbleSession::new(context, track, position_ms, state));
        },
    }
    let ghost mid_actions = actions@;
    assert(*active_session == Some(n));
    assert(mid_actions =~= old_actions + match old_active {
        Some(s) => if !continues_play(old_active, report_key(context, track)) && should_scrobble_after(
            s,
            elapsed_ms,
        ) {
            seq![FallbackScrobbleAction::Played { context: s.context, track: s.track }]
        } else {
            Seq::empty()
        },
        None => Seq::empty(),
    });
    match state {
        ServerPlaybackState::Playing => {
            match active_session {
                Some(session) => {
                    if !session.now_playing_reported {
                        actions.push(
                            FallbackScrobbleAction::NowPlaying {
                                context: session.context.duplicate(),
                                track: session.track.duplicate(),
                            },
                        );
                        session.now_playing_reported = true;
                    }
                    submit_fallback_scrobble_if_ready(session, 0, actions);
                },
                None => {},
            }
        },
        ServerPlaybackState::Paused => {
            match active_session {
                Some(session) => {
                    submit_fallback_scrobble_if_ready(session, 0, actions);
                },
                None => {},
            }
        },
        ServerPlaybackState::Stopped => {
            finalize_fallback_scrobble(active_session, 0, actions);
        },
        ServerPlaybackState::Starting => {},
    }
    assert(actions@ =~= old_actions + want);
}


/// The track being reported through the `playbackReport` extension.
#[derive(Debug, Clone, PartialEq, Eq)]
pub struct ActiveReportPlaybackSession {
    pub context: ServerPlaybackReportingContext,
    pub track: ServerPlaybackTrack,
    pub state: ServerPlaybackState,
    pub position_ms: u64,
}

/// How long to wait before the next heartbeat, `elapsed_ms` after the last report.
pub open spec fn report_timeout(state: ServerPlaybackState, elapsed_ms: u64) -> u64 {
    if state != ServerPlaybackState::Playing {
        IDLE_TIMEOUT_MS
    } else if elapsed_ms >= HEARTBEAT_INTERVAL_MS {
        0
    } else {
        (HEARTBEAT_INTERVAL_MS - elapsed_ms) as u64
    }
}

impl ActiveReportPlaybackSession {
    /// How long to wait before the next heartbeat, `elapsed_ms` after the last report: the
    /// rest of the heartbeat interval while playing, the idle timeout otherwise.
    pub fn next_timeout_ms(&self, elapsed_ms: u64) -> (r: u64)
        ensures
            r == report_timeout(self.state, elapsed_ms),
    {
        if self.state != ServerPlaybackState::Playing {
            return IDLE_TIMEOUT_MS;
        }
        if elapsed_ms >= HEARTBEAT_INTERVAL_MS {
            0
        } else {
            HEARTBEAT_INTERVAL_MS - elapsed_ms
        }
    }

    /// The position a heartbeat reports `elapsed_ms` after the last report.
    pub fn heartbeat_position_ms(&self, elapsed_ms: u64) -> (r: u64)
        ensures
            r == (if self.state != ServerPlaybackState::Playing {
                self.position_ms
            } else {
                sat_add(self.position_ms, elapsed_ms)
            }),
    {
        if self.state != ServerPlaybackState::Playing {
            return self.position_ms;
        }
        self.position_ms.saturating_add(elapsed_ms)
    }
}

/// A message to the server reporter.
#[derive(Debug, Clone, PartialEq, Eq)]
pub enum ServerPlaybackCommand {
    Report {
        context: ServerPlaybackReportingContext,
        track: ServerPlaybackTrack,
        position_ms: u32,
        state: ServerPlaybackState,
    },
    Clear,
}

/// A request the server reporter asks to be sent.
#[derive(Debug, Clone, PartialEq, Eq)]
pub enum ServerReportAction {
    /// A `reportPlayback` request.
    ReportPlayback {
        context: ServerPlaybackReportingContext,
        track: ServerPlaybackTrack,
        position_ms: u64,
        state: ServerPlaybackState,
    },
    /// A scrobble of the fallback path.
    Scrobble { action: FallbackScrobbleAction },
}

/// What the server reporter follows between messages.
#[derive(Debug, Clone, PartialEq, Eq)]
pub struct ServerReporterState {
    pub active_report_playback: Option<ActiveReportPlaybackSession>,
    pub active_fallback_scrobble: Option<ActiveFallbackScrobbleSession>,
}

impl ServerReporterState {
    /// A reporter following nothing.
    pub fn new() -> (r: Self)
        ensures
            r.active_report_playback is None,
            r.active_fallback_scrobble is None,
    {
        ServerReporterState { active_report_playback: None, active_fallback_scrobble: None }
    }

    /// How long to wait for the next message, `elapsed_ms` after the last report.
    pub fn next_timeout_ms(&self, elapsed_ms: u64) -> (r: u64)
        ensures
            r == match self.active_report_playback {
                Some(s) => report_timeout(s.state, elapsed_ms),
                None => IDLE_TIMEOUT_MS,
            },
    {
        match &self.active_report_playback {
            Some(session) => session.next_timeout_ms(elapsed_ms),
            None => IDLE_TIMEOUT_MS,
        }
    }

    /// Takes a message; `elapsed_ms` is the time since the followed fallback play was last
    /// counted. A report to a server with `playbackReport` is forwarded as it is and followed
    /// for heartbeats until it stops; other reports go to the scrobble fallback. Clearing
    /// forgets both.
    pub fn on_command(&mut self, command: ServerPlaybackCommand, elapsed_ms: u64) -> (actions: Vec<
        ServerReportAction,
    >)
        ensures
            match command {
                ServerPlaybackCommand::Clear => {
                    &&& final(self).active_report_playback is None
                    &&& final(self).active_fallback_scrobble is None
                    &&& actions@.len() == 0
                },
                ServerPlaybackCommand::Report { context, track, position_ms, state } => {
                    if context.playback_report {
                        &&& actions@ == seq![
                            ServerReportAction::ReportPlayback {
                                context,
                                track,
                                position_ms: position_ms as u64,
                                state,
                            },
                        ]
                        &&& final(self).active_fallback_scrobble is None
                        &&& if state == ServerPlaybackState::Stopped {
                            final(self).active_report_playback is None
                        } else {
                            final(self).active_report_playback == Some(
                                ActiveReportPlaybackSession {
                                    context,
                                    track,
                                    state,
                                    position_ms: position_ms as u64,
                                },
                            )
                        }
                    } else {
                        &&& final(self).active_report_playback is None
                        &&& actions@ == fallback_report_actions(
                            old(self).active_fallback_scrobble,
                            context,
                            track,
                            position_ms,
                            state,
                            elapsed_ms,
                        ).map_values(|a: FallbackScrobbleAction| ServerReportAction::Scrobble { action: a })
                        &&& (state == ServerPlaybackState::Stopped
                            ==> final(self).active_fallback_scrobble is None)
                        &&& (state == ServerPlaybackState::Playing ==> (
                        final(self).active_fallback_scrobble matches Some(s)
                            && s.now_playing_reported))
                    }
                },
            },
    {
        match command {
            ServerPlaybackCommand::Clear => {
                self.active_report_playback = None;
                self.active_fallback_scrobble = None;
                Vec::new()
            },
            ServerPlaybackCommand::Report { context, track, position_ms, state } => {
                if context.playback_report {
                    let mut actions: Vec<ServerReportAction> = Vec::new();
                    actions.push(
                        ServerReportAction::ReportPlayback {
                            context: context.duplicate(),
                            track: track.duplicate(),
                            position_ms: position_ms as u64,
                            state,
                        },
                    );
                    self.active_report_playback = if state == ServerPlaybackState::Stopped {
                        None
                    } else {
                        Some(
                            ActiveReportPlaybackSession {
                                context,
                                track,
                                state,
                                position_ms: position_ms as u64,
                            },
                        )
                    };
                    self.active_fallback_scrobble = None;
                    proof {
                        assert(actions@ =~= seq![
                            ServerReportAction::ReportPlayback {
                                context,
                                track,
                                position_ms: position_ms as u64,
                                state,
                            },
                        ]);
                    }
                    actions
                } else {
                    let mut scrobbles: Vec<FallbackScrobbleAction> = Vec::new();
                    handle_fallback_report(
                        &mut self.active_fallback_scrobble,
                        context,
                        track,
                        position_ms,
                        state,
                        elapsed_ms,
                        &mut scrobbles,
                    );
                    self.active_report_playback = None;
                    let mut actions: Vec<ServerReportAction> = Vec::new();
                    let mut i: usize = 0;
                    while i < scrobbles.len()
                        invariant
                            i <= scrobbles@.len(),
                            actions@ =~= scrobbles@.subrange(0, i as int).map_values(
                                |a: FallbackScrobbleAction| ServerReportAction::Scrobble { action: a },
                            ),
                        decreases scrobbles@.len() - i,
                    {
                        let action = scrobbles[i].duplicate();
                        actions.push(ServerReportAction::Scrobble { action });
                        i = i + 1;
                        assert(actions@ =~= scrobbles@.subrange(0, i as int).map_values(
                            |a: FallbackScrobbleAction| ServerReportAction::Scrobble { action: a },
                        ));
                    }
                    assert(scrobbles@.subrange(0, scrobbles@.len() as int) =~= scrobbles@);
                    actions
                }
            },
        }
    }

    /// The heartbeat due when the wait for a message ends, `elapsed_ms` after the last report:
    /// while a reported track plays, its position moves on and is reported again.
    pub fn on_timeout(&mut self, elapsed_ms: u64) -> (actions: Vec<ServerReportAction>)
        ensures
            final(self).active_fallback_scrobble == old(self).active_fallback_scrobble,
            match old(self).active_report_playback {
                Some(s) => if s.state == ServerPlaybackState::Playing {
                    &&& actions@ == seq![
                        ServerReportAction::ReportPlayback {
                            context: s.context,
                            track: s.track,
                            position_ms: sat_add(s.position_ms, elapsed_ms),
                            state: ServerPlaybackState::Playing,
                        },
                    ]
                    &&& final(self).active_report_playback == Some(
                        ActiveReportPlaybackSession {
                            position_ms: sat_add(s.position_ms, elapsed_ms),
                            ..s
                        },
                    )
                } else {
                    &&& actions@.len() == 0
                    &&& final(self).active_report_playback == old(self).active_report_playback
                },
                None => {
                    &&& actions@.len() == 0
                    &&& final(self).active_report_playback is None
                },
            },
    {
        let mut actions: Vec<ServerReportAction> = Vec::new();
        match &mut self.active_report_playback {
            Some(session) => {
                if session.state == ServerPlaybackState::Playing {
                    let position_ms = session.heartbeat_position_ms(elapsed_ms);
                    actions.push(
                        ServerReportAction::ReportPlayback {
                            context: session.context.duplicate(),
                            track: session.track.duplicate(),
                            position_ms,
                            state: ServerPlaybackState::Playing,
                        },
                    );
                    session.position_ms = position_ms;
                    proof {
                        assert(actions@ =~= seq![
                            ServerReportAction::ReportPlayback {
                                context: session.context,
                                track: session.track,
                                position_ms,
                                state: ServerPlaybackState::Playing,
                            },
                        ]);
                    }
                }
            },
            None => {},
        }
        actions
    }
}

/// A track play gets at most one played scrobble: once it was sent, it is never due again,
/// however long the track keeps playing.
pub proof fn law_played_scrobble_at_most_once(s: ActiveFallbackScrobbleSession, elapsed_ms: u64)
    requires
        s.played_scrobbled,
    ensures
        !should_scrobble_after(s, elapsed_ms),
{
}

/// The played scrobble of a track of known length is due once half of it was played, or
/// four minutes of it, whichever comes first.
pub proof fn law_scrobble_threshold_bounds(duration_ms: u64)
    requires
        duration_ms > 0,
    ensures
        scrobble_threshold(Some(duration_ms)) <= duration_ms / 2,
        scrobble_threshold(Some(duration_ms)) <= 240_000,
        scrobble_threshold(Some(duration_ms)) == duration_ms / 2 || scrobble_threshold(
            Some(duration_ms),
        ) == 240_000,
{
}

} // verus!
