//! The two sync endpoints' work between wire and store: compare reads
//! the catalog's fingerprint sets and diffs them against the peer's;
//! batch hydrates exactly the requested records. Each call is
//! stateless and self-contained — batch never depends on a compare
//! having happened.

use vstd::prelude::*;

use crate::compare::{compare_catalog, CompareResponse};
use crate::records::{AlbumRow, ArtistRow, PlaylistRow, SongRow};
use crate::store::{
    get_albums_by_fingerprints, get_all_fingerprints, get_artists_by_fingerprints,
    get_playlists_by_fingerprints, get_songs_by_fingerprints,
};

verus! {

/// The hydrated records a batch request returns, one list per entity
/// type; unknown fingerprints are silently omitted, never an error.
pub struct BatchResponse {
    pub songs: Vec<SongRow>,
    pub albums: Vec<AlbumRow>,
    pub artists: Vec<ArtistRow>,
    pub playlists: Vec<PlaylistRow>,
}

/// The compare step against the live catalog: reads all four
/// fingerprint sets from the store and returns what the peer is
/// missing, with each total the length of its missing list. A store
/// failure surfaces as the error; the diff itself is
/// `compare_catalog`.
pub fn compare_request(
    conn: &rusqlite::Connection,
    peer_songs: &Vec<String>,
    peer_albums: &Vec<String>,
    peer_artists: &Vec<String>,
    peer_playlists: &Vec<String>,
) -> (r: Result<CompareResponse, String>)
    ensures
        (r matches Ok(c) ==> {
            &&& c.totals.songs == c.missing_songs@.len()
            &&& c.totals.albums == c.missing_albums@.len()
            &&& c.totals.artists == c.missing_artists@.len()
            &&& c.totals.playlists == c.missing_playlists@.len()
        }),
{
    let desktop_songs = match get_all_fingerprints(conn, "songs") {
        Ok(v) => v,
        Err(e) => {
            return Err(e);
        },
    };
    let desktop_albums = match get_all_fingerprints(conn, "albums") {
        Ok(v) => v,
        Err(e) => {
            return Err(e);
        },
    };
    let desktop_artists = match get_all_fingerprints(conn, "artists") {
        Ok(v) => v,
        Err(e) => {
            return Err(e);
        },
    };
    let desktop_playlists = match get_all_fingerprints(conn, "playlists") {
        Ok(v) => v,
        Err(e) => {
            return Err(e);
        },
    };
    Ok(
        compare_catalog(
            &desktop_songs,
            &desktop_albums,
            &desktop_artists,
            &desktop_playlists,
            peer_songs,
            peer_albums,
            peer_artists,
            peer_playlists,
        ),
    )
}

/// The batch step against the live catalog: hydrates the records for
/// exactly the requested fingerprints that exist, per entity type. An
/// empty request list yields an empty record list for that type; a
/// store failure surfaces as the error.
pub fn batch_request(
    conn: &rusqlite::Connection,
    song_fingerprints: &Vec<String>,
    album_fingerprints: &Vec<String>,
    artist_fingerprints: &Vec<String>,
    playlist_fingerprints: &Vec<String>,
) -> (r: Result<BatchResponse, String>)
    ensures
        (r matches Ok(b) ==> {
            &&& song_fingerprints@.len() == 0 ==> b.songs@.len() == 0
            &&& album_fingerprints@.len() == 0 ==> b.albums@.len() == 0
            &&& artist_fingerprints@.len() == 0 ==> b.artists@.len() == 0
            &&& playlist_fingerprints@.len() == 0 ==> b.playlists@.len() == 0
        }),
        song_fingerprints@.len() == 0 && album_fingerprints@.len() == 0
            && artist_fingerprints@.len() == 0 && playlist_fingerprints@.len() == 0 ==> r is Ok,
{
    let songs = match get_songs_by_fingerprints(conn, song_fingerprints) {
        Ok(v) => v,
        Err(e) => {
            return Err(e);
        },
    };
    let albums = match get_albums_by_fingerprints(conn, album_fingerprints) {
        Ok(v) => v,
        Err(e) => {
            return Err(e);
        },
    };
    let artists = match get_artists_by_fingerprints(conn, artist_fingerprints) {
        Ok(v) => v,
        Err(e) => {
            return Err(e);
        },
    };
    let playlists = match get_playlists_by_fingerprints(conn, playlist_fingerprints) {
        Ok(v) => v,
        Err(e) => {
            return Err(e);
        },
    };
    Ok(BatchResponse { songs, albums, artists, playlists })
}

} // verus!
