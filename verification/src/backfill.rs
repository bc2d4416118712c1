//! Backfill of missing fingerprints. Rows whose fingerprint is unset
//! are read, their fingerprints computed from identity fields, and the
//! rows updated one by one — best-effort and idempotent: a row with a
//! fingerprint is never selected again, so a second run updates
//! nothing. A failure aborts the remaining rows of the same pass but
//! rolls nothing back; the passes (artists, albums, playlists, songs)
//! are independent.

use vstd::prelude::*;

use crate::fingerprint::{
    generate_album_fingerprint, generate_artist_fingerprint, generate_playlist_fingerprint,
    generate_song_fingerprint,
};
use crate::store::{
    execute_keyed_update, query_album_seed_rows, query_id_name_rows, query_song_seed_rows,
    query_strings_by_id, AlbumSeedRow, IdNameRow, SongSeedRow,
};

verus! {

/// `a + b`, capped at the largest representable count.
fn add_saturating(a: u64, b: u64) -> (r: u64)
    ensures
        r == if a + b <= u64::MAX {
            a + b
        } else {
            u64::MAX as int
        },
{
    if b <= u64::MAX - a {
        a + b
    } else {
        u64::MAX
    }
}

/// Computes and persists a fingerprint for each given artist row.
/// On success the count is exactly the number of rows handed in; a
/// failed update surfaces as the error, with earlier updates kept.
fn backfill_artist_rows(conn: &rusqlite::Connection, rows: &Vec<IdNameRow>) -> (r: Result<
    u64,
    String,
>)
    ensures
        (r matches Ok(n) ==> n == rows@.len()),
{
    let mut i: usize = 0;
    while i < rows.len()
        invariant
            i <= rows@.len(),
        decreases rows@.len() - i,
    {
        let fp = generate_artist_fingerprint(rows[i].name.as_str());
        match execute_keyed_update(
            conn,
            "UPDATE artists SET fingerprint = ?1 WHERE id = ?2",
            fp.as_str(),
            rows[i].id,
        ) {
            Ok(_) => {
            },
            Err(e) => {
                return Err(e);
            },
        }
        i += 1;
    }
    Ok(rows.len() as u64)
}

/// Computes and persists a fingerprint for each given playlist row.
fn backfill_playlist_rows(conn: &rusqlite::Connection, rows: &Vec<IdNameRow>) -> (r: Result<
    u64,
    String,
>)
    ensures
        (r matches Ok(n) ==> n == rows@.len()),
{
    let mut i: usize = 0;
    while i < rows.len()
        invariant
            i <= rows@.len(),
        decreases rows@.len() - i,
    {
        let fp = generate_playlist_fingerprint(rows[i].name.as_str());
        match execute_keyed_update(
            conn,
            "UPDATE playlists SET fingerprint = ?1 WHERE id = ?2",
            fp.as_str(),
            rows[i].id,
        ) {
            Ok(_) => {
            },
            Err(e) => {
                return Err(e);
            },
        }
        i += 1;
    }
    Ok(rows.len() as u64)
}

/// Computes and persists a fingerprint for each given album row,
/// reading that album's credited artist names for the identity.
fn backfill_album_rows(conn: &rusqlite::Connection, rows: &Vec<AlbumSeedRow>) -> (r: Result<
    u64,
    String,
>)
    ensures
        (r matches Ok(n) ==> n == rows@.len()),
{
    let mut i: usize = 0;
    while i < rows.len()
        invariant
            i <= rows@.len(),
        decreases rows@.len() - i,
    {
        let artist_names = match query_strings_by_id(
            conn,
            "SELECT ar.name FROM album_artists aa JOIN artists ar ON aa.artist_id = ar.id WHERE aa.album_id = ?1 ORDER BY aa.artist_order",
            rows[i].id,
        ) {
            Ok(v) => v,
            Err(e) => {
                return Err(e);
            },
        };
        let fp = generate_album_fingerprint(
            rows[i].name.as_str(),
            rows[i].album_type.as_str(),
            &artist_names,
        );
        match execute_keyed_update(
            conn,
            "UPDATE albums SET fingerprint = ?1 WHERE id = ?2",
            fp.as_str(),
            rows[i].id,
        ) {
            Ok(_) => {
            },
            Err(e) => {
                return Err(e);
            },
        }
        i += 1;
    }
    Ok(rows.len() as u64)
}

/// Computes and persists a fingerprint for each given song row,
/// reading that song's credited artist names for the identity.
fn backfill_song_rows(conn: &rusqlite::Connection, rows: &Vec<SongSeedRow>) -> (r: Result<
    u64,
    String,
>)
    ensures
        (r matches Ok(n) ==> n == rows@.len()),
{
    let mut i: usize = 0;
    while i < rows.len()
        invariant
            i <= rows@.len(),
        decreases rows@.len() - i,
    {
        let artist_names = match query_strings_by_id(
            conn,
            "SELECT ar.name FROM song_artists sa JOIN artists ar ON sa.artist_id = ar.id WHERE sa.song_id = ?1 ORDER BY sa.artist_order",
            rows[i].id,
        ) {
            Ok(v) => v,
            Err(e) => {
                return Err(e);
            },
        };
        let album = match &rows[i].album_name {
            Some(a) => Some(a.as_str()),
            None => None,
        };
        let fp = generate_song_fingerprint(
            rows[i].name.as_str(),
            rows[i].duration,
            &artist_names,
            album,
        );
        match execute_keyed_update(
            conn,
            "UPDATE songs SET fingerprint = ?1 WHERE id = ?2",
            fp.as_str(),
            rows[i].id,
        ) {
            Ok(_) => {
            },
            Err(e) => {
                return Err(e);
            },
        }
        i += 1;
    }
    Ok(rows.len() as u64)
}

/// One backfill pass over every artist row whose fingerprint is unset.
fn backfill_artist_fingerprints(conn: &rusqlite::Connection) -> Result<u64, String> {
    let rows = match query_id_name_rows(
        conn,
        "SELECT id, name FROM artists WHERE fingerprint IS NULL",
    ) {
        Ok(v) => v,
        Err(e) => {
            return Err(e);
        },
    };
    backfill_artist_rows(conn, &rows)
}

/// One backfill pass over every album row whose fingerprint is unset.
fn backfill_album_fingerprints(conn: &rusqlite::Connection) -> Result<u64, String> {
    let rows = match query_album_seed_rows(
        conn,
        "SELECT id, name, album_type FROM albums WHERE fingerprint IS NULL",
    ) {
        Ok(v) => v,
        Err(e) => {
            return Err(e);
        },
    };
    backfill_album_rows(conn, &rows)
}

/// One backfill pass over every playlist row whose fingerprint is
/// unset.
fn backfill_playlist_fingerprints(conn: &rusqlite::Connection) -> Result<u64, String> {
    let rows = match query_id_name_rows(
        conn,
        "SELECT id, name FROM playlists WHERE fingerprint IS NULL",
    ) {
        Ok(v) => v,
        Err(e) => {
            return Err(e);
        },
    };
    backfill_playlist_rows(conn, &rows)
}

/// One backfill pass over every song row whose fingerprint is unset.
fn backfill_song_fingerprints(conn: &rusqlite::Connection) -> Result<u64, String> {
    let rows = match query_song_seed_rows(
        conn,
        "SELECT s.id, s.name, s.duration, a.name as album_name FROM songs s LEFT JOIN albums a ON s.album_id = a.id WHERE s.fingerprint IS NULL",
    ) {
        Ok(v) => v,
        Err(e) => {
            return Err(e);
        },
    };
    backfill_song_rows(conn, &rows)
}

/// Fills in every missing fingerprint: artists, then albums, then
/// playlists, then songs, each pass best-effort and independent.
/// Returns how many rows were updated in all. A second run finds no
/// row without a fingerprint and updates nothing.
pub fn backfill_all_fingerprints(conn: &rusqlite::Connection) -> Result<u64, String> {
    let a = match backfill_artist_fingerprints(conn) {
        Ok(n) => n,
        Err(e) => {
            return Err(e);
        },
    };
    let b = match backfill_album_fingerprints(conn) {
        Ok(n) => n,
        Err(e) => {
            return Err(e);
        },
    };
    let c = match backfill_playlist_fingerprints(conn) {
        Ok(n) => n,
        Err(e) => {
            return Err(e);
        },
    };
    let d = match backfill_song_fingerprints(conn) {
        Ok(n) => n,
        Err(e) => {
            return Err(e);
        },
    };
    Ok(add_saturating(add_saturating(add_saturating(a, b), c), d))
}

} // verus!
