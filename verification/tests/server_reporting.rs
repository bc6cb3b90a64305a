//! Tests of the server reporting rules.
use transonic::models::session::CapabilityMatrix;
use transonic::playback::server_reporting::{
    fallback_scrobble_threshold_ms, should_submit_fallback_scrobble, ActiveFallbackScrobbleSession,
    FallbackScrobbleAction, ServerPlaybackCommand, ServerReportAction, ServerReporterState,
    ServerMediaType, ServerPlaybackReportingContext, ServerPlaybackState, ServerPlaybackTrack,
    FALLBACK_SCROBBLE_MAX_THRESHOLD_MS, FALLBACK_SCROBBLE_UNKNOWN_DURATION_THRESHOLD_MS,
};

#[test]
fn fallback_scrobble_threshold_uses_half_duration_capped_at_four_minutes() {
    assert_eq!(fallback_scrobble_threshold_ms(Some(180_000)), 90_000);
    assert_eq!(
        fallback_scrobble_threshold_ms(Some(20 * 60 * 1000)),
        FALLBACK_SCROBBLE_MAX_THRESHOLD_MS
    );
}

#[test]
fn fallback_scrobble_threshold_uses_unknown_duration_default() {
    assert_eq!(
        fallback_scrobble_threshold_ms(None),
        FALLBACK_SCROBBLE_UNKNOWN_DURATION_THRESHOLD_MS
    );
    assert_eq!(
        fallback_scrobble_threshold_ms(Some(0)),
        FALLBACK_SCROBBLE_UNKNOWN_DURATION_THRESHOLD_MS
    );
}

#[test]
fn fallback_scrobble_submission_requires_threshold_and_no_prior_submission() {
    assert!(!should_submit_fallback_scrobble(89_999, Some(180_000), false));
    assert!(should_submit_fallback_scrobble(90_000, Some(180_000), false));
    assert!(!should_submit_fallback_scrobble(90_000, Some(180_000), true));
}

fn session(duration_ms: Option<u64>, state: ServerPlaybackState) -> ActiveFallbackScrobbleSession {
    let context = ServerPlaybackReportingContext::new(&CapabilityMatrix::empty(), "profile-1".to_string());
    let track = ServerPlaybackTrack {
        song_id: "song-a".to_string(),
        media_type: ServerMediaType::Song,
        queue_index: Some(0),
        duration_ms,
    };
    ActiveFallbackScrobbleSession::new(context, track, 0, state)
}

#[test]
fn played_scrobble_is_due_once_enough_was_played() {
    let mut s = session(Some(180_000), ServerPlaybackState::Playing);
    assert!(!s.should_submit_played_scrobble(60_000));
    assert_eq!(s.played_ms, 60_000);
    assert!(s.should_submit_played_scrobble(30_000));
    s.played_scrobbled = true;
    assert!(!s.should_submit_played_scrobble(300_000));
}

#[test]
fn paused_time_does_not_count_towards_the_played_scrobble() {
    let mut s = session(Some(60_000), ServerPlaybackState::Paused);
    assert!(!s.should_submit_played_scrobble(120_000));
    assert_eq!(s.played_ms, 0);
}

fn fallback_context() -> ServerPlaybackReportingContext {
    ServerPlaybackReportingContext { playback_report: false, profile_id: "profile-1".to_string() }
}

fn fallback_track(song_id: &str) -> ServerPlaybackTrack {
    ServerPlaybackTrack {
        song_id: song_id.to_string(),
        media_type: ServerMediaType::Song,
        queue_index: Some(0),
        duration_ms: Some(60_000),
    }
}

fn report(song_id: &str, state: ServerPlaybackState) -> ServerPlaybackCommand {
    ServerPlaybackCommand::Report {
        context: fallback_context(),
        track: fallback_track(song_id),
        position_ms: 0,
        state,
    }
}

#[test]
fn fallback_reports_scrobble_now_playing_once_and_played_once_due() {
    let mut reporter = ServerReporterState::new();
    let actions = reporter.on_command(report("song-a", ServerPlaybackState::Playing), 0);
    assert_eq!(
        actions,
        vec![ServerReportAction::Scrobble {
            action: FallbackScrobbleAction::NowPlaying {
                context: fallback_context(),
                track: fallback_track("song-a"),
            },
        }]
    );
    // Half of the minute played: the played scrobble is due, and sent once.
    let actions = reporter.on_command(report("song-a", ServerPlaybackState::Paused), 30_000);
    assert_eq!(
        actions,
        vec![ServerReportAction::Scrobble {
            action: FallbackScrobbleAction::Played {
                context: fallback_context(),
                track: fallback_track("song-a"),
            },
        }]
    );
    let actions = reporter.on_command(report("song-a", ServerPlaybackState::Playing), 0);
    assert!(actions.is_empty());
}

#[test]
fn fallback_report_of_another_track_ends_the_followed_play() {
    let mut reporter = ServerReporterState::new();
    reporter.on_command(report("song-a", ServerPlaybackState::Playing), 0);
    let actions = reporter.on_command(report("song-b", ServerPlaybackState::Playing), 40_000);
    assert_eq!(
        actions,
        vec![
            ServerReportAction::Scrobble {
                action: FallbackScrobbleAction::Played {
                    context: fallback_context(),
                    track: fallback_track("song-a"),
                },
            },
            ServerReportAction::Scrobble {
                action: FallbackScrobbleAction::NowPlaying {
                    context: fallback_context(),
                    track: fallback_track("song-b"),
                },
            },
        ]
    );
}
