//! Library browsing: folders, artists, albums and songs.
use vstd::prelude::*;
use super::values::copy_opt_string;

verus! {

/// A music folder of the server.
#[derive(Debug, Clone, PartialEq, Eq)]
pub struct MusicFolderSummary {
    pub id: String,
    pub name: String,
}

/// The music folders of the server.
#[derive(Debug, Clone, PartialEq, Eq)]
pub struct MusicFoldersResponse {
    pub music_folders: Vec<MusicFolderSummary>,
}

/// A request for the root nodes of a library's folder structure.
#[derive(Debug, Clone, PartialEq, Eq)]
pub struct FolderStructureRootsRequest {
    pub library_id: String,
}

/// Where a folder structure was read from.
#[derive(Debug, Clone, Copy, PartialEq, Eq, Structural)]
pub enum FolderStructureSource {
    Directory,
    Indexes,
}

/// A root node of a folder structure.
#[derive(Debug, Clone, PartialEq, Eq)]
pub struct FolderStructureRootNode {
    pub id: String,
    pub name: String,
}

/// The root nodes of a library's folder structure.
#[derive(Debug, Clone, PartialEq, Eq)]
pub struct FolderStructureRootsResponse {
    pub library_id: String,
    pub library_name: String,
    pub source: FolderStructureSource,
    pub root_nodes: Vec<FolderStructureRootNode>,
}

/// A request for the albums below a folder node.
#[derive(Debug, Clone, PartialEq, Eq)]
pub struct FolderStructureAlbumsRequest {
    pub library_id: String,
    pub node_id: String,
}

/// An album found below a folder node.
#[derive(Debug, Clone, PartialEq, Eq)]
pub struct FolderStructureAlbumItem {
    pub id: String,
    pub name: String,
    pub artist: Option<String>,
    pub cover_art_id: Option<String>,
    pub year: Option<u32>,
}

/// The albums below a folder node.
#[derive(Debug, Clone, PartialEq, Eq)]
pub struct FolderStructureAlbumsResponse {
    pub library_id: String,
    pub node_id: String,
    pub node_name: String,
    pub albums: Vec<FolderStructureAlbumItem>,
}

/// An artist as listed by the server.
#[derive(Debug, Clone, PartialEq, Eq)]
pub struct ArtistSummary {
    pub id: String,
    pub name: String,
    pub cover_art_id: Option<String>,
    pub album_count: Option<u32>,
    pub artist_image_url: Option<String>,
    pub starred: Option<String>,
    pub music_brainz_id: Option<String>,
    pub sort_name: Option<String>,
    pub roles: Vec<String>,
}

/// Artists grouped under an index letter.
#[derive(Debug, Clone, PartialEq, Eq)]
pub struct ArtistGroup {
    pub name: String,
    pub artists: Vec<ArtistSummary>,
}

/// The artist index of the server.
#[derive(Debug, Clone, PartialEq, Eq)]
pub struct ArtistsResponse {
    pub ignored_articles: Option<String>,
    pub indexes: Vec<ArtistGroup>,
}

/// A request for the artist index.
#[derive(Debug, Clone, PartialEq, Eq)]
pub struct ArtistsRequest {
    pub music_folder_id: Option<String>,
}

/// A request for one artist.
#[derive(Debug, Clone, PartialEq, Eq)]
pub struct ArtistRequest {
    pub id: String,
}

/// An album of an artist.
#[derive(Debug, Clone, PartialEq, Eq)]
pub struct ArtistAlbum {
    pub id: String,
    pub parent_id: Option<String>,
    pub title: Option<String>,
    pub album: Option<String>,
    pub name: Option<String>,
    pub artist: Option<String>,
    pub artist_id: Option<String>,
    pub cover_art_id: Option<String>,
    pub song_count: Option<u32>,
    pub duration: Option<u32>,
    pub play_count: Option<u32>,
    pub year: Option<u32>,
    pub genre: Option<String>,
    pub starred: Option<String>,
}

/// One artist with its albums.
#[derive(Debug, Clone, PartialEq, Eq)]
pub struct ArtistResponse {
    pub id: String,
    pub name: String,
    pub cover_art_id: Option<String>,
    pub album_count: Option<u32>,
    pub artist_image_url: Option<String>,
    pub starred: Option<String>,
    pub music_brainz_id: Option<String>,
    pub sort_name: Option<String>,
    pub roles: Vec<String>,
    pub albums: Vec<ArtistAlbum>,
}

/// A request for the extended information of an artist.
#[derive(Debug, Clone, PartialEq, Eq)]
pub struct ArtistInfo2Request {
    pub id: String,
    pub count: Option<u32>,
    pub include_not_present: Option<bool>,
}

/// The extended information of an artist.
#[derive(Debug, Clone, PartialEq, Eq)]
pub struct ArtistInfo2Response {
    pub biography: Option<String>,
    pub music_brainz_id: Option<String>,
    pub last_fm_url: Option<String>,
    pub small_image_url: Option<String>,
    pub medium_image_url: Option<String>,
    pub large_image_url: Option<String>,
    pub similar_artists: Vec<ArtistSummary>,
}

/// A request for a music directory.
#[derive(Debug, Clone, PartialEq, Eq)]
pub struct MusicDirectoryRequest {
    pub id: String,
}

/// A request for one song.
#[derive(Debug, Clone, PartialEq, Eq)]
pub struct SongRequest {
    pub id: String,
}

/// A request for the songs of an album.
#[derive(Debug, Clone, PartialEq, Eq)]
pub struct AlbumSongsRequest {
    pub id: String,
}

/// A request for the songs of an album below a folder node.
#[derive(Debug, Clone, PartialEq, Eq)]
pub struct FolderStructureAlbumSongsRequest {
    pub library_id: String,
    pub node_id: String,
    pub album_id: String,
}

/// An entry of a music directory.
#[derive(Debug, Clone, PartialEq, Eq)]
pub struct MusicDirectoryChild {
    pub id: String,
    pub parent_id: Option<String>,
    pub path: Option<String>,
    pub title: String,
    pub album: Option<String>,
    pub album_id: Option<String>,
    pub artist: Option<String>,
    pub artist_id: Option<String>,
    pub cover_art_id: Option<String>,
    pub track: Option<u32>,
    pub disc_number: Option<u32>,
    pub year: Option<u32>,
    pub size: Option<u64>,
    pub content_type: Option<String>,
    pub suffix: Option<String>,
    pub bit_rate: Option<u32>,
    pub genre: Option<String>,
    pub created: Option<String>,
    pub starred: Option<String>,
    pub is_directory: bool,
    pub media_type: Option<String>,
}

/// A music directory with its entries.
#[derive(Debug, Clone, PartialEq, Eq)]
pub struct MusicDirectoryResponse {
    pub id: String,
    pub name: String,
    pub children: Vec<MusicDirectoryChild>,
}

/// A song, as it stands in the playback queue.
#[derive(Debug, Clone, PartialEq, Eq)]
pub struct SongResponse {
    pub id: String,
    pub parent_id: Option<String>,
    pub path: Option<String>,
    pub title: String,
    pub album: Option<String>,
    pub album_id: Option<String>,
    pub artist: Option<String>,
    pub artist_id: Option<String>,
    pub cover_art_id: Option<String>,
    pub display_cover_art_id: Option<String>,
    pub track: Option<u32>,
    pub disc_number: Option<u32>,
    pub year: Option<u32>,
    pub duration: Option<u32>,
    pub size: Option<u64>,
    pub content_type: Option<String>,
    pub suffix: Option<String>,
    pub bit_rate: Option<u32>,
    pub genre: Option<String>,
    pub created: Option<String>,
    pub starred: Option<String>,
    pub is_directory: bool,
    pub media_type: Option<String>,
}

impl SongResponse {
    /// A copy of this song equal to it in every field.
    pub fn duplicate(&self) -> (r: Self)
        ensures
            r == *self,
    {
        SongResponse {
            id: self.id.clone(),
            parent_id: copy_opt_string(&self.parent_id),
            path: copy_opt_string(&self.path),
            title: self.title.clone(),
            album: copy_opt_string(&self.album),
            album_id: copy_opt_string(&self.album_id),
            artist: copy_opt_string(&self.artist),
            artist_id: copy_opt_string(&self.artist_id),
            cover_art_id: copy_opt_string(&self.cover_art_id),
            display_cover_art_id: copy_opt_string(&self.display_cover_art_id),
            track: self.track,
            disc_number: self.disc_number,
            year: self.year,
            duration: self.duration,
            size: self.size,
            content_type: copy_opt_string(&self.content_type),
            suffix: copy_opt_string(&self.suffix),
            bit_rate: self.bit_rate,
            genre: copy_opt_string(&self.genre),
            created: copy_opt_string(&self.created),
            starred: copy_opt_string(&self.starred),
            is_directory: self.is_directory,
            media_type: copy_opt_string(&self.media_type),
        }
    }
}

/// A copy of a list of songs, equal to it entry for entry.
pub fn copy_songs(v: &Vec<SongResponse>) -> (r: Vec<SongResponse>)
    ensures
        r@ == v@,
{
    let mut out: Vec<SongResponse> = Vec::new();
    let mut i: usize = 0;
    while i < v.len()
        invariant
            i <= v@.len(),
            out@ == v@.subrange(0, i as int),
        decreases v@.len() - i,
    {
        out.push(v[i].duplicate());
        i = i + 1;
        assert(out@ =~= v@.subrange(0, i as int));
    }
    assert(v@.subrange(0, v@.len() as int) =~= v@);
    out
}

/// The songs of an album.
#[derive(Debug, Clone, PartialEq, Eq)]
pub struct AlbumSongsResponse {
    pub id: String,
    pub name: Option<String>,
    pub artist: Option<String>,
    pub artist_id: Option<String>,
    pub cover_art_id: Option<String>,
    pub song_count: Option<u32>,
    pub duration: Option<u32>,
    pub play_count: Option<u32>,
    pub year: Option<u32>,
    pub genre: Option<String>,
    pub created: Option<String>,
    pub starred: Option<String>,
    pub songs: Vec<SongResponse>,
}

/// The songs of an album below a folder node.
#[derive(Debug, Clone, PartialEq, Eq)]
pub struct FolderStructureAlbumSongsResponse {
    pub library_id: String,
    pub node_id: String,
    pub album_id: String,
    pub songs: Vec<SongResponse>,
}

} // verus!
