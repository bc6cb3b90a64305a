//! User settings and the rules that derive effective playback settings from them.
use vstd::prelude::*;
use crate::text::{starts_with, starts_with_seq, strip_trailing_seq, trim, trim_end_text, trim_seq};
use crate::urls::{url_origin_and_port, url_origin_and_port_of, URL_REWRITE_LIMIT};

verus! {

/// How album lists are displayed.
#[derive(Debug, Clone, Copy, PartialEq, Eq, Structural)]
pub enum AlbumDisplayMode {
    Grid,
    List,
}

impl Default for AlbumDisplayMode {
    fn default() -> (r: Self)
        ensures
            r == AlbumDisplayMode::Grid,
    {
        AlbumDisplayMode::Grid
    }
}

/// Appearance settings.
#[derive(Debug, Clone, Copy, PartialEq, Eq, Structural)]
pub struct AppearanceSettings {
    pub album_display_mode: AlbumDisplayMode,
}

impl Default for AppearanceSettings {
    fn default() -> (r: Self)
        ensures
            r.album_display_mode == AlbumDisplayMode::Grid,
    {
        AppearanceSettings { album_display_mode: AlbumDisplayMode::Grid }
    }
}

/// Whether the current network is billed by volume.
#[derive(Debug, Clone, Copy, PartialEq, Eq, Structural)]
pub enum NetworkCostState {
    Unknown,
    Metered,
    Unmetered,
}

impl Default for NetworkCostState {
    fn default() -> (r: Self)
        ensures
            r == NetworkCostState::Unknown,
    {
        NetworkCostState::Unknown
    }
}

/// Whether songs are streamed as stored or transcoded by the server.
#[derive(Debug, Clone, Copy, PartialEq, Eq, Structural)]
pub enum PlaybackStreamMode {
    Raw,
    Transcoding,
}

impl Default for PlaybackStreamMode {
    fn default() -> (r: Self)
        ensures
            r == PlaybackStreamMode::Raw,
    {
        PlaybackStreamMode::Raw
    }
}

/// The codec the server is asked to transcode to.
#[derive(Debug, Clone, Copy, PartialEq, Eq, Structural)]
pub enum PlaybackTranscodingCodec {
    Auto,
    Mp3,
    Flac,
    Aac,
    Alac,
    Vorbis,
    Opus,
}

/// The `format` parameter of a stream request for a codec; none for `Auto`.
pub open spec fn codec_stream_format(codec: PlaybackTranscodingCodec) -> Option<Seq<char>> {
    match codec {
        PlaybackTranscodingCodec::Auto => None,
        PlaybackTranscodingCodec::Mp3 => Some("mp3"@),
        PlaybackTranscodingCodec::Flac => Some("flac"@),
        PlaybackTranscodingCodec::Aac => Some("aac"@),
        PlaybackTranscodingCodec::Alac => Some("alac"@),
        PlaybackTranscodingCodec::Vorbis => Some("vorbis"@),
        PlaybackTranscodingCodec::Opus => Some("opus"@),
    }
}

impl PlaybackTranscodingCodec {
    /// The `format` parameter of a stream request for this codec.
    pub fn stream_format(self) -> (r: Option<&'static str>)
        ensures
            match r {
                Some(s) => codec_stream_format(self) == Some(s@),
                None => codec_stream_format(self) is None,
            },
    {
        match self {
            PlaybackTranscodingCodec::Auto => None,
            PlaybackTranscodingCodec::Mp3 => Some("mp3"),
            PlaybackTranscodingCodec::Flac => Some("flac"),
            PlaybackTranscodingCodec::Aac => Some("aac"),
            PlaybackTranscodingCodec::Alac => Some("alac"),
            PlaybackTranscodingCodec::Vorbis => Some("vorbis"),
            PlaybackTranscodingCodec::Opus => Some("opus"),
        }
    }
}

impl Default for PlaybackTranscodingCodec {
    fn default() -> (r: Self)
        ensures
            r == PlaybackTranscodingCodec::Auto,
    {
        PlaybackTranscodingCodec::Auto
    }
}

/// The bit-rate limit used when none is saved, in kbit/s.
pub const DEFAULT_TRANSCODING_BITRATE_LIMIT: u32 = 320;

/// The codec actually asked for: the chosen one, or MP3 unless a custom codec is enabled.
pub fn effective_transcoding_codec(
    use_custom_transcoding_codec: bool,
    transcoding_codec: PlaybackTranscodingCodec,
) -> (r: PlaybackTranscodingCodec)
    ensures
        r == (if use_custom_transcoding_codec {
            transcoding_codec
        } else {
            PlaybackTranscodingCodec::Mp3
        }),
{
    if use_custom_transcoding_codec {
        transcoding_codec
    } else {
        PlaybackTranscodingCodec::Mp3
    }
}

/// A saved bit-rate limit with the default in place of zero.
pub fn normalize_transcoding_bitrate_limit(limit: u32) -> (r: u32)
    ensures
        r == (if limit > 0 { limit } else { DEFAULT_TRANSCODING_BITRATE_LIMIT }),
{
    if limit > 0 {
        limit
    } else {
        DEFAULT_TRANSCODING_BITRATE_LIMIT
    }
}

/// The bit-rate limit used when none is saved.
pub fn default_transcoding_bitrate_limit() -> (r: u32)
    ensures
        r == DEFAULT_TRANSCODING_BITRATE_LIMIT,
{
    DEFAULT_TRANSCODING_BITRATE_LIMIT
}

/// Playback settings, without the output volume, which the application keeps beside them.
#[derive(Debug, Clone, PartialEq, Eq)]
pub struct PlaybackSettings {
    pub gapless_playback_enabled: bool,
    pub use_custom_output: bool,
    /// Whether ASIO devices are offered in the custom output list. Off by default:
    /// ASIO takes exclusive control of the device and bypasses the Windows mixer.
    pub use_asio_output: bool,
    pub output_device_id: Option<String>,
    pub stream_mode: PlaybackStreamMode,
    pub metered_network_transcoding_enabled: bool,
    pub transcoding_bitrate_limit: u32,
    pub use_custom_transcoding_codec: bool,
    pub transcoding_codec: PlaybackTranscodingCodec,
}

impl Default for PlaybackSettings {
    fn default() -> (r: Self)
        ensures
            r.gapless_playback_enabled,
            !r.use_custom_output,
            !r.use_asio_output,
            r.output_device_id is None,
            r.stream_mode == PlaybackStreamMode::Raw,
            !r.metered_network_transcoding_enabled,
            r.transcoding_bitrate_limit == DEFAULT_TRANSCODING_BITRATE_LIMIT,
            !r.use_custom_transcoding_codec,
            r.transcoding_codec == PlaybackTranscodingCodec::Auto,
    {
        PlaybackSettings {
            gapless_playback_enabled: true,
            use_custom_output: false,
            use_asio_output: false,
            output_device_id: None,
            stream_mode: PlaybackStreamMode::Raw,
            metered_network_transcoding_enabled: false,
            transcoding_bitrate_limit: DEFAULT_TRANSCODING_BITRATE_LIMIT,
            use_custom_transcoding_codec: false,
            transcoding_codec: PlaybackTranscodingCodec::Auto,
        }
    }
}

/// Stored playback settings as they were read, before defaults and older names are applied.
#[derive(Debug, Clone, PartialEq, Eq)]
pub struct RawPlaybackSettings {
    pub gapless_playback_enabled: Option<bool>,
    pub prebuffer_strategy: Option<String>,
    pub use_custom_output: Option<bool>,
    pub use_asio_output: bool,
    pub output_device_id: Option<String>,
    pub stream_mode: PlaybackStreamMode,
    pub metered_network_transcoding_enabled: bool,
    pub transcoding_bitrate_limit: u32,
    pub use_custom_transcoding_codec: bool,
    pub transcoding_codec: PlaybackTranscodingCodec,
}

/// The settings that decide how the next stream is requested.
#[derive(Debug, Clone, Copy, PartialEq, Eq, Structural)]
pub struct EffectivePlaybackStreamSettings {
    pub stream_mode: PlaybackStreamMode,
    pub transcoding_bitrate_limit: u32,
    pub transcoding_codec: PlaybackTranscodingCodec,
}

/// The stream mode in force: transcoding on a network that may be metered, if so
/// configured; otherwise the saved mode.
pub open spec fn effective_stream_mode(playback: PlaybackSettings, cost: NetworkCostState) -> PlaybackStreamMode {
    if playback.metered_network_transcoding_enabled && cost != NetworkCostState::Unmetered {
        PlaybackStreamMode::Transcoding
    } else {
        playback.stream_mode
    }
}

/// The settings for the next stream request on a network of the given cost.
pub fn resolve_effective_stream_settings(
    playback: &PlaybackSettings,
    network_cost_state: NetworkCostState,
) -> (r: EffectivePlaybackStreamSettings)
    ensures
        r.stream_mode == effective_stream_mode(*playback, network_cost_state),
        r.transcoding_bitrate_limit == playback.transcoding_bitrate_limit,
        r.transcoding_codec == (if playback.use_custom_transcoding_codec {
            playback.transcoding_codec
        } else {
            PlaybackTranscodingCodec::Mp3
        }),
{
    let stream_mode = if playback.metered_network_transcoding_enabled && network_cost_state
        != NetworkCostState::Unmetered {
        PlaybackStreamMode::Transcoding
    } else {
        playback.stream_mode
    };
    EffectivePlaybackStreamSettings {
        stream_mode,
        transcoding_bitrate_limit: playback.transcoding_bitrate_limit,
        transcoding_codec: effective_transcoding_codec(
            playback.use_custom_transcoding_codec,
            playback.transcoding_codec,
        ),
    }
}

/// The network cost state a platform name stands for.
pub open spec fn network_cost_named(value: Seq<char>) -> Option<NetworkCostState> {
    if value == "unknown"@ {
        Some(NetworkCostState::Unknown)
    } else if value == "metered"@ {
        Some(NetworkCostState::Metered)
    } else if value == "unmetered"@ {
        Some(NetworkCostState::Unmetered)
    } else {
        None
    }
}

/// The network cost state the platform reports by name.
pub fn parse_network_cost_state(value: &str) -> (r: Option<NetworkCostState>)
    ensures
        r == network_cost_named(value@),
{
    if crate::text::same_text(value, "unknown") {
        Some(NetworkCostState::Unknown)
    } else if crate::text::same_text(value, "metered") {
        Some(NetworkCostState::Metered)
    } else if crate::text::same_text(value, "unmetered") {
        Some(NetworkCostState::Unmetered)
    } else {
        None
    }
}

/// The stream settings to switch to when the network cost changes from `previous` to
/// `next`: none where the effective settings stay the same.
pub fn stream_settings_after_network_change(
    playback: &PlaybackSettings,
    previous: NetworkCostState,
    next: NetworkCostState,
) -> (r: Option<EffectivePlaybackStreamSettings>)
    ensures
        effective_stream_mode(*playback, previous) == effective_stream_mode(*playback, next)
            ==> r is None,
        effective_stream_mode(*playback, previous) != effective_stream_mode(*playback, next)
            ==> (r matches Some(s) && s.stream_mode == effective_stream_mode(*playback, next)
            && s.transcoding_bitrate_limit == playback.transcoding_bitrate_limit
            && s.transcoding_codec == (if playback.use_custom_transcoding_codec {
            playback.transcoding_codec
        } else {
            PlaybackTranscodingCodec::Mp3
        })),
{
    if previous == next {
        return None;
    }
    let before = resolve_effective_stream_settings(playback, previous);
    let after = resolve_effective_stream_settings(playback, next);
    if before == after {
        None
    } else {
        Some(after)
    }
}

/// A saved output device id, trimmed; none where nothing remains.
pub open spec fn normalized_output_device_id(id: Option<String>) -> Option<Seq<char>> {
    match id {
        Some(s) => if trim_seq(s@).len() > 0 { Some(trim_seq(s@)) } else { None },
        None => None,
    }
}

/// Normalizing an output device id that was normalized already gives it back unchanged.
pub proof fn law_normalize_output_device_id_twice(id: Option<String>, normalized: String)
    requires
        normalized_output_device_id(id) == Some(normalized@),
    ensures
        normalized_output_device_id(Some(normalized)) == Some(normalized@),
{
    let s = id->0@;
    crate::text::law_trim_idempotent(s);
}

/// A saved output device id with surrounding white space removed, or none if empty.
pub fn normalize_output_device_id(output_device_id: Option<String>) -> (r: Option<String>)
    ensures
        match r {
            Some(s) => normalized_output_device_id(output_device_id) == Some(s@),
            None => normalized_output_device_id(output_device_id) is None,
        },
{
    match output_device_id {
        Some(value) => {
            let trimmed = trim(value.as_str());
            if trimmed.as_str().unicode_len() > 0 {
                Some(trimmed)
            } else {
                None
            }
        },
        None => None,
    }
}

/// The audio host an output device id names: `asio:` and `wasapi:` ids name a host.
pub open spec fn output_host_of(id: Seq<char>) -> Option<super::playback::PlaybackOutputHost> {
    if starts_with_seq(id, "asio:"@) {
        Some(super::playback::PlaybackOutputHost::Asio)
    } else if starts_with_seq(id, "wasapi:"@) {
        Some(super::playback::PlaybackOutputHost::Wasapi)
    } else {
        None
    }
}

impl super::playback::PlaybackOutputHost {
    /// The audio host an output device id belongs to.
    pub fn from_output_device_id(output_device_id: &str) -> (r: Option<Self>)
        ensures
            r == output_host_of(output_device_id@),
    {
        if starts_with(output_device_id, "asio:") {
            Some(super::playback::PlaybackOutputHost::Asio)
        } else if starts_with(output_device_id, "wasapi:") {
            Some(super::playback::PlaybackOutputHost::Wasapi)
        } else {
            None
        }
    }
}

/// Whether a saved output device id refers to an ASIO device.
pub fn is_asio_output_device_id(output_device_id: &str) -> (b: bool)
    ensures
        b == (output_host_of(output_device_id@) == Some(super::playback::PlaybackOutputHost::Asio)),
{
    match super::playback::PlaybackOutputHost::from_output_device_id(output_device_id) {
        Some(super::playback::PlaybackOutputHost::Asio) => true,
        _ => false,
    }
}

/// The output device in force: the saved one while custom output is on, except an ASIO
/// device while ASIO output is off.
pub open spec fn effective_output_device(playback: PlaybackSettings) -> Option<Seq<char>> {
    match playback.output_device_id {
        Some(id) => if playback.use_custom_output && (playback.use_asio_output || output_host_of(id@)
            != Some(super::playback::PlaybackOutputHost::Asio)) {
            Some(id@)
        } else {
            None
        },
        None => None,
    }
}

/// The output device playback should use.
pub fn effective_output_device_id(playback: &PlaybackSettings) -> (r: Option<&str>)
    ensures
        match r {
            Some(s) => effective_output_device(*playback) == Some(s@),
            None => effective_output_device(*playback) is None,
        },
{
    if !playback.use_custom_output {
        return None;
    }
    match &playback.output_device_id {
        Some(id) => {
            // A saved ASIO device is only honoured while ASIO output is enabled.
            if !playback.use_asio_output && is_asio_output_device_id(id.as_str()) {
                None
            } else {
                Some(id.as_str())
            }
        },
        None => None,
    }
}

impl PlaybackSettings {
    /// The settings a stored record stands for: a missing gapless flag follows the older
    /// `next_track` prebuffer strategy, a missing custom-output flag follows whether a device is
    /// saved, the device id is normalized and a zero bit-rate limit becomes the default.
    pub fn from_raw(raw: RawPlaybackSettings) -> (r: Self)
        ensures
            r.gapless_playback_enabled == (match raw.gapless_playback_enabled {
                Some(b) => b,
                None => match raw.prebuffer_strategy {
                    Some(s) => s@ == "next_track"@,
                    None => false,
                },
            }),
            r.output_device_id.is_some() == normalized_output_device_id(raw.output_device_id).is_some(),
            r.output_device_id matches Some(id) ==> normalized_output_device_id(raw.output_device_id) == Some(id@),
            r.use_custom_output == (match raw.use_custom_output {
                Some(b) => b,
                None => normalized_output_device_id(raw.output_device_id).is_some(),
            }),
            r.use_asio_output == raw.use_asio_output,
            r.stream_mode == raw.stream_mode,
            r.metered_network_transcoding_enabled == raw.metered_network_transcoding_enabled,
            r.transcoding_bitrate_limit == (if raw.transcoding_bitrate_limit > 0 {
                raw.transcoding_bitrate_limit
            } else {
                DEFAULT_TRANSCODING_BITRATE_LIMIT
            }),
            r.use_custom_transcoding_codec == raw.use_custom_transcoding_codec,
            r.transcoding_codec == raw.transcoding_codec,
    {
        let ghost raw_id = raw.output_device_id;
        let output_device_id = normalize_output_device_id(raw.output_device_id);
        let use_custom_output = match raw.use_custom_output {
            Some(b) => b,
            None => output_device_id.is_some(),
        };
        let gapless_playback_enabled = match raw.gapless_playback_enabled {
            Some(b) => b,
            None => match &raw.prebuffer_strategy {
                Some(s) => crate::text::same_text(s.as_str(), "next_track"),
                None => false,
            },
        };
        PlaybackSettings {
            gapless_playback_enabled,
            use_custom_output,
            use_asio_output: raw.use_asio_output,
            output_device_id,
            stream_mode: raw.stream_mode,
            metered_network_transcoding_enabled: raw.metered_network_transcoding_enabled,
            transcoding_bitrate_limit: normalize_transcoding_bitrate_limit(
                raw.transcoding_bitrate_limit,
            ),
            use_custom_transcoding_codec: raw.use_custom_transcoding_codec,
            transcoding_codec: raw.transcoding_codec,
        }
    }
}

/// The port of the Connect server used when none is saved.
pub const DEFAULT_CONNECT_SERVER_PORT: u16 = 4747;

/// Whether the Subsonic server's host is used for Connect when nothing is saved.
pub fn default_use_subsonic_server_host() -> (r: bool)
    ensures
        r,
{
    true
}

/// The port of the Connect server used when none is saved.
pub fn default_connect_server_port() -> (r: u16)
    ensures
        r == DEFAULT_CONNECT_SERVER_PORT,
{
    DEFAULT_CONNECT_SERVER_PORT
}

/// Settings of the Connect service that shares playback between devices.
#[derive(Debug, Clone, PartialEq, Eq)]
pub struct ConnectSettings {
    pub enabled: bool,
    pub use_subsonic_server_host: bool,
    pub connect_server_host: Option<String>,
    pub connect_server_port: u16,
    pub device_id: String,
    pub device_name: Option<String>,
    pub allow_insecure_connect_server: bool,
}

impl Default for ConnectSettings {
    fn default() -> (r: Self)
        ensures
            !r.enabled,
            r.use_subsonic_server_host,
            r.connect_server_host is None,
            r.connect_server_port == DEFAULT_CONNECT_SERVER_PORT,
            r.device_id@.len() == 0,
            r.device_name is None,
            !r.allow_insecure_connect_server,
    {
        ConnectSettings {
            enabled: false,
            use_subsonic_server_host: true,
            connect_server_host: None,
            connect_server_port: DEFAULT_CONNECT_SERVER_PORT,
            device_id: String::new(),
            device_name: None,
            allow_insecure_connect_server: false,
        }
    }
}

/// The saved Connect settings as read, older saves with a single server URL among them.
#[derive(Debug, Clone, PartialEq, Eq)]
pub struct RawConnectSettings {
    pub enabled: bool,
    pub use_subsonic_server_host: bool,
    pub connect_server_host: Option<String>,
    pub connect_server_port: u16,
    pub server_url: Option<String>,
    pub device_id: String,
    pub device_name: Option<String>,
    pub allow_insecure_connect_server: bool,
}

/// The host part of a server URL, without trailing slashes, and its port, where it parses.
/// A URL longer than the URL bound is not read.
pub open spec fn host_and_port_of(raw_url: Seq<char>) -> Option<(Seq<char>, Option<u16>)> {
    if raw_url.len() > URL_REWRITE_LIMIT {
        None
    } else {
        match url_origin_and_port_of(raw_url) {
            Some((origin, port)) => Some((strip_trailing_seq(origin, "/"@), port)),
            None => None,
        }
    }
}

/// Splits an old single Connect server URL into its host part and its port.
pub fn split_url_host_and_port(raw_url: &str) -> (r: Option<(String, Option<u16>)>)
    ensures
        match r {
            Some((host, port)) => host_and_port_of(raw_url@) == Some((host@, port)),
            None => host_and_port_of(raw_url@) is None,
        },
{
    if raw_url.unicode_len() > URL_REWRITE_LIMIT {
        return None;
    }
    match url_origin_and_port(raw_url) {
        Some((origin, port)) => Some((trim_end_text(origin.as_str(), "/"), port)),
        None => None,
    }
}

/// The host and port that an old save's server URL gives, where it has one that parses.
pub open spec fn legacy_host_and_port(raw: RawConnectSettings) -> Option<(Seq<char>, Option<u16>)> {
    match raw.server_url {
        Some(u) => host_and_port_of(u@),
        None => None,
    }
}

impl ConnectSettings {
    /// The Connect settings of a save: a blank saved host gives way to the host of an old
    /// server URL, and that URL's port, where it has one, wins over the saved port.
    pub fn from_raw(raw: RawConnectSettings) -> (r: Self)
        ensures
            r.enabled == raw.enabled,
            r.use_subsonic_server_host == raw.use_subsonic_server_host,
            r.device_id == raw.device_id,
            r.device_name == raw.device_name,
            r.allow_insecure_connect_server == raw.allow_insecure_connect_server,
            match raw.connect_server_host {
                Some(h) if trim_seq(h@).len() > 0 => r.connect_server_host == Some(h),
                _ => match legacy_host_and_port(raw) {
                    Some((host, _)) => r.connect_server_host matches Some(x) && x@ == host,
                    None => r.connect_server_host is None,
                },
            },
            r.connect_server_port == match legacy_host_and_port(raw) {
                Some((_, Some(port))) => port,
                _ => raw.connect_server_port,
            },
    {
        let legacy = match &raw.server_url {
            Some(u) => split_url_host_and_port(u.as_str()),
            None => None,
        };
        let saved_host = match raw.connect_server_host {
            Some(h) => {
                if trim(h.as_str()).unicode_len() > 0 {
                    Some(h)
                } else {
                    None
                }
            },
            None => None,
        };
        let connect_server_host = match saved_host {
            Some(h) => Some(h),
            None => match &legacy {
                Some((host, _)) => Some(host.clone()),
                None => None,
            },
        };
        let connect_server_port = match &legacy {
            Some((_, Some(port))) => *port,
            _ => raw.connect_server_port,
        };
        ConnectSettings {
            enabled: raw.enabled,
            use_subsonic_server_host: raw.use_subsonic_server_host,
            connect_server_host,
            connect_server_port,
            device_id: raw.device_id,
            device_name: raw.device_name,
            allow_insecure_connect_server: raw.allow_insecure_connect_server,
        }
    }
}

impl AppearanceSettings {
    /// The appearance settings of a save: grid display where none is saved.
    pub fn from_raw(album_display_mode: Option<AlbumDisplayMode>) -> (r: Self)
        ensures
            r.album_display_mode == match album_display_mode {
                Some(m) => m,
                None => AlbumDisplayMode::Grid,
            },
    {
        AppearanceSettings {
            album_display_mode: match album_display_mode {
                Some(m) => m,
                None => AlbumDisplayMode::Grid,
            },
        }
    }
}

/// All user settings.
#[derive(Debug, Clone, PartialEq, Eq)]
pub struct AppSettings {
    pub appearance: AppearanceSettings,
    pub playback: PlaybackSettings,
    pub connect: ConnectSettings,
}

impl Default for AppSettings {
    fn default() -> (r: Self)
        ensures
            r.appearance.album_display_mode == AlbumDisplayMode::Grid,
            r.playback.gapless_playback_enabled,
            r.playback.output_device_id is None,
            r.playback.transcoding_bitrate_limit == DEFAULT_TRANSCODING_BITRATE_LIMIT,
            !r.connect.enabled,
            r.connect.connect_server_port == DEFAULT_CONNECT_SERVER_PORT,
    {
        AppSettings {
            appearance: AppearanceSettings::default(),
            playback: PlaybackSettings::default(),
            connect: ConnectSettings::default(),
        }
    }
}

/// Whether the settings came from storage or are the defaults.
#[derive(Debug, Clone, Copy, PartialEq, Eq, Structural)]
pub enum SettingsOrigin {
    Default,
    Stored,
}

/// A request to save settings.
#[derive(Debug, Clone, PartialEq, Eq)]
pub struct SettingsUpdateRequest {
    pub settings: AppSettings,
}

} // verus!
