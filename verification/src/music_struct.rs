//! The three record kinds of the catalogue and their search projections.
//!
//! A record is what the document store holds; its projection is the reduced
//! document that the search index keeps: the identifier and the fields that
//! are displayed or ranked. Timestamps are milliseconds since the Unix epoch,
//! the precision at which the store keeps them.
//!
//! Records and projections are plain data: each is its own mathematical
//! model, and a projection is stated field by field from its record.

use vstd::prelude::*;

verus! {

/// Identifier of a record, assigned upstream and unique within its kind.
pub type DeezerId = i64;

/// A track as the document store holds it.
#[derive(Clone, Debug, PartialEq, Eq)]
pub struct Music {
    pub id: DeezerId,
    pub title: String,
    pub artist_name: String,
    /// Publication time, in milliseconds since the Unix epoch.
    pub published_date: i64,
    pub track_number: Option<i64>,
    pub disc_number: Option<i64>,
    pub file_path: Option<String>,
    pub image_url: Option<String>,
    pub views: i64,
    pub likes: i64,
    pub rank: i64,
    /// Time of the last view, in milliseconds since the Unix epoch.
    pub last_view: i64,
}

/// What the search index keeps of a track.
#[derive(Clone, Debug, PartialEq, Eq)]
pub struct MusicMeilisearch {
    pub id: DeezerId,
    pub title: String,
    pub artist_name: String,
    pub image_url: Option<String>,
    pub rank: i64,
}

impl From<Music> for MusicMeilisearch {
    /// Keeps the identifier, the title, the artist's name, the artwork and the
    /// rank. The dates, the numbers of track and disc, the file path and the
    /// counts of views and likes are left out.
    fn from(music: Music) -> (projection: Self)
        ensures
            projection.id == music.id,
    {
        MusicMeilisearch {
            id: music.id,
            title: music.title,
            artist_name: music.artist_name,
            image_url: music.image_url,
            rank: music.rank,
        }
    }
}

impl vstd::std_specs::convert::FromSpecImpl<Music> for MusicMeilisearch {
    open spec fn obeys_from_spec() -> bool {
        true
    }

    open spec fn from_spec(music: Music) -> Self {
        MusicMeilisearch {
            id: music.id,
            title: music.title,
            artist_name: music.artist_name,
            image_url: music.image_url,
            rank: music.rank,
        }
    }
}

/// An album as the document store holds it.
#[derive(Clone, Debug, PartialEq, Eq)]
pub struct Album {
    pub id: DeezerId,
    pub name: String,
    pub cover: String,
    /// Whether every track of the album is known to the store.
    pub is_complete: bool,
    pub musics: Option<Vec<DeezerId>>,
}

/// What the search index keeps of an album.
#[derive(Clone, Debug, PartialEq, Eq)]
pub struct AlbumMeilisearch {
    pub id: DeezerId,
    pub name: String,
    pub cover: String,
}

impl From<Album> for AlbumMeilisearch {
    /// Keeps the identifier, the name and the cover. The completeness flag and
    /// the list of tracks are left out.
    fn from(album: Album) -> (projection: Self)
        ensures
            projection.id == album.id,
    {
        AlbumMeilisearch { id: album.id, name: album.name, cover: album.cover }
    }
}

impl vstd::std_specs::convert::FromSpecImpl<Album> for AlbumMeilisearch {
    open spec fn obeys_from_spec() -> bool {
        true
    }

    open spec fn from_spec(album: Album) -> Self {
        AlbumMeilisearch { id: album.id, name: album.name, cover: album.cover }
    }
}

/// An artist as the document store holds it.
#[derive(Clone, Debug, PartialEq, Eq)]
pub struct Artist {
    pub id: DeezerId,
    pub name: String,
    pub picture: String,
    pub albums: Option<Vec<DeezerId>>,
    pub top_tracks: Option<Vec<DeezerId>>,
    pub related_artists: Option<Vec<DeezerId>>,
    /// Time of the last update, in milliseconds since the Unix epoch.
    pub last_update: i64,
}

/// What the search index keeps of an artist.
#[derive(Clone, Debug, PartialEq, Eq)]
pub struct ArtistMeilisearch {
    pub id: DeezerId,
    pub name: String,
    pub picture: String,
}

impl From<Artist> for ArtistMeilisearch {
    /// Keeps the identifier, the name and the picture. The lists of albums, top
    /// tracks and related artists and the date of the last update are left out.
    fn from(artist: Artist) -> (projection: Self)
        ensures
            projection.id == artist.id,
    {
        ArtistMeilisearch { id: artist.id, name: artist.name, picture: artist.picture }
    }
}

impl vstd::std_specs::convert::FromSpecImpl<Artist> for ArtistMeilisearch {
    open spec fn obeys_from_spec() -> bool {
        true
    }

    open spec fn from_spec(artist: Artist) -> Self {
        ArtistMeilisearch { id: artist.id, name: artist.name, picture: artist.picture }
    }
}

} // verus!
