//! The data model shared by the library: songs, playback status, settings and sessions.
pub mod auth;
pub mod browse;
pub mod catalog;
pub mod connect;
pub mod playback;
pub mod session;
pub mod settings;
pub mod values;

pub use auth::{AuthInput, AuthKind};
pub use browse::SongResponse;
pub use connect::ConnectPlaybackState;
pub use playback::{
    GaplessState, GaplessStatus, InterruptReason, PlaybackActualStreamInfo, PlaybackError,
    PlaybackStatus, PlaybackStreamInfo, PlaybackStreamRequestKind, PlayingState,
};
pub use session::{CapabilityMatrix, OpenSubsonicExtension, PlaybackCapabilities};
pub use settings::{PlaybackStreamMode, PlaybackTranscodingCodec};
