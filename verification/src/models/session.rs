//! Server profiles, sessions and the capabilities a server offers.
use vstd::prelude::*;
use super::auth::AuthKind;
use super::settings::PlaybackTranscodingCodec;

verus! {

/// A request to connect to a server profile.
#[derive(Debug, Clone, PartialEq, Eq)]
pub struct ConnectServerProfileRequest {
    pub profile_id: Option<String>,
    pub display_name: Option<String>,
    pub server_url: String,
    pub auth: super::auth::AuthInput,
}

/// A request naming a profile.
#[derive(Debug, Clone, PartialEq, Eq)]
pub struct ProfileIdRequest {
    pub profile_id: String,
}

/// An OpenSubsonic extension a server announces.
#[derive(Debug, Clone, PartialEq, Eq)]
pub struct OpenSubsonicExtension {
    pub name: String,
    pub versions: Vec<u32>,
}

/// The features a server supports, derived from the extensions it announces.
#[derive(Debug, Clone, PartialEq, Eq)]
pub struct CapabilityMatrix {
    pub open_subsonic: bool,
    pub raw_extensions: Vec<OpenSubsonicExtension>,
    pub api_key_auth: bool,
    pub index_based_queue: bool,
    pub playback_report: bool,
    pub transcoding: bool,
    pub transcode_offset: bool,
    pub song_lyrics: bool,
}

/// Some extension in `extensions` carries the name `name`.
pub open spec fn has_extension_spec(extensions: Seq<OpenSubsonicExtension>, name: Seq<char>) -> bool {
    exists|i: int| 0 <= i < extensions.len() && #[trigger] extensions[i].name@ == name
}

/// Whether some extension in `extensions` is named `expected_name`.
pub fn has_extension(extensions: &Vec<OpenSubsonicExtension>, expected_name: &str) -> (b: bool)
    ensures
        b == has_extension_spec(extensions@, expected_name@),
{
    let mut i: usize = 0;
    while i < extensions.len()
        invariant
            i <= extensions@.len(),
            forall|k: int| 0 <= k < i ==> extensions@[k].name@ != expected_name@,
        decreases extensions@.len() - i,
    {
        if crate::text::same_text(extensions[i].name.as_str(), expected_name) {
            assert(extensions@[i as int].name@ == expected_name@);
            return true;
        }
        i = i + 1;
    }
    false
}

impl CapabilityMatrix {
    /// A server without any capability.
    pub fn empty() -> (m: Self)
        ensures
            !m.open_subsonic,
            m.raw_extensions@.len() == 0,
            !m.api_key_auth,
            !m.index_based_queue,
            !m.playback_report,
            !m.transcoding,
            !m.transcode_offset,
            !m.song_lyrics,
    {
        CapabilityMatrix {
            open_subsonic: false,
            raw_extensions: Vec::new(),
            api_key_auth: false,
            index_based_queue: false,
            playback_report: false,
            transcoding: false,
            transcode_offset: false,
            song_lyrics: false,
        }
    }

    /// The capabilities of a server that announces `raw_extensions`.
    pub fn from_extensions(open_subsonic: bool, raw_extensions: Vec<OpenSubsonicExtension>) -> (m:
        Self)
        ensures
            m.open_subsonic == open_subsonic,
            m.raw_extensions@ == raw_extensions@,
            m.api_key_auth == has_extension_spec(raw_extensions@, "apiKeyAuthentication"@),
            m.index_based_queue == has_extension_spec(raw_extensions@, "indexBasedQueue"@),
            m.playback_report == has_extension_spec(raw_extensions@, "playbackReport"@),
            m.transcoding == has_extension_spec(raw_extensions@, "transcoding"@),
            m.transcode_offset == has_extension_spec(raw_extensions@, "transcodeOffset"@),
            m.song_lyrics == has_extension_spec(raw_extensions@, "songLyrics"@),
    {
        let mut matrix = Self::empty();
        matrix.open_subsonic = open_subsonic;
        matrix.api_key_auth = has_extension(&raw_extensions, "apiKeyAuthentication");
        matrix.index_based_queue = has_extension(&raw_extensions, "indexBasedQueue");
        matrix.playback_report = has_extension(&raw_extensions, "playbackReport");
        matrix.transcoding = has_extension(&raw_extensions, "transcoding");
        matrix.transcode_offset = has_extension(&raw_extensions, "transcodeOffset");
        matrix.song_lyrics = has_extension(&raw_extensions, "songLyrics");
        matrix.raw_extensions = raw_extensions;
        matrix
    }
}

/// How the last connection attempt of a profile ended.
#[derive(Debug, Clone, Copy, PartialEq, Eq, Structural)]
pub enum LastConnectionState {
    Never,
    Connected,
    Offline,
    ReauthRequired,
}

/// What the profile list shows of a saved profile.
#[derive(Debug, Clone, PartialEq, Eq)]
pub struct SavedProfileSummary {
    pub profile_id: String,
    pub display_name: String,
    pub normalized_server_url: String,
    pub auth_kind: AuthKind,
    pub username: String,
    pub last_connection_state: LastConnectionState,
    pub is_active: bool,
}

/// What the playback backend can do.
#[derive(Debug, Clone, PartialEq, Eq)]
pub struct PlaybackCapabilities {
    pub gapless_playback: bool,
    pub transcoding_codecs: Vec<PlaybackTranscodingCodec>,
}

/// How restoring the last session on start went.
#[derive(Debug, Clone, Copy, PartialEq, Eq, Structural)]
pub enum RestoreStatus {
    NothingToRestore,
    Restored,
    NetworkError,
    ConnectionError,
    ReauthRequired,
}

} // verus!
