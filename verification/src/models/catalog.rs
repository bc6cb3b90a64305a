//! Album lists, search, cover art and server backups.
use vstd::prelude::*;
use super::browse::{ArtistSummary, SongResponse};

verus! {

/// Which album list is requested.
#[derive(Debug, Clone, Copy, PartialEq, Eq, Structural)]
pub enum AlbumListContext {
    Random,
    Newest,
    Frequent,
    Recent,
    Starred,
    AlphabeticalByName,
    AlphabeticalByArtist,
    ByYear,
    ByGenre,
}

/// A request for an album list.
#[derive(Debug, Clone, PartialEq, Eq)]
pub struct AlbumListRequest {
    pub context: AlbumListContext,
    pub size: Option<u32>,
    pub offset: Option<u32>,
    pub from_year: Option<u32>,
    pub to_year: Option<u32>,
    pub genre: Option<String>,
    pub music_folder_id: Option<String>,
}

/// An album of an album list.
#[derive(Debug, Clone, PartialEq, Eq)]
pub struct AlbumListItem {
    pub id: String,
    pub name: String,
    pub artist: Option<String>,
    pub artist_id: Option<String>,
    pub cover_art_id: Option<String>,
    pub song_count: Option<u32>,
    pub duration: Option<u32>,
    pub play_count: Option<u32>,
    pub year: Option<u32>,
    pub genre: Option<String>,
    pub created: Option<String>,
    pub starred: Option<String>,
}

/// An album list.
#[derive(Debug, Clone, PartialEq, Eq)]
pub struct AlbumListResponse {
    pub context: AlbumListContext,
    pub albums: Vec<AlbumListItem>,
}

/// A search request.
#[derive(Debug, Clone, PartialEq, Eq)]
pub struct SearchRequest {
    pub query: String,
}

/// What a search found.
#[derive(Debug, Clone, PartialEq, Eq)]
pub struct SearchResponse {
    pub artists: Vec<ArtistSummary>,
    pub albums: Vec<AlbumListItem>,
    pub songs: Vec<SongResponse>,
}

/// A request for a cover image.
#[derive(Debug, Clone, PartialEq, Eq)]
pub struct CoverArtRequest {
    pub profile_id: String,
    pub cover_art_id: String,
    pub size: Option<u32>,
    pub cached_fallback_sizes: Vec<u32>,
}

/// Where a cover image was stored.
#[derive(Debug, Clone, PartialEq, Eq)]
pub struct CoverArtResponse {
    pub local_path: String,
}

/// The result of exporting server profiles.
#[derive(Debug, Clone, PartialEq, Eq)]
pub struct ServerBackupExportResult {
    pub path: String,
    pub profile_count: u32,
}

/// The result of importing server profiles.
#[derive(Debug, Clone, PartialEq, Eq)]
pub struct ServerBackupImportResult {
    pub path: String,
    pub profile_count: u32,
}

/// A request to import server profiles.
#[derive(Debug, Clone, Copy, PartialEq, Eq)]
pub struct ServerBackupImportRequest {
    pub replace_existing: bool,
}

} // verus!
