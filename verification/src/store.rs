//! The catalog store adapter: read access to the relational catalog.
//! SQL text and key-set placeholder lists are assembled by verified
//! code; executing a statement is the store's job and sits behind
//! trusted wrappers around rusqlite. Relation lookups are batched by
//! the caller's whole id set, never issued row by row.

use vstd::prelude::*;

use crate::records::{
    hydrate_albums, hydrate_artists, hydrate_playlists, hydrate_songs, AlbumRow, ArtistLink,
    ArtistRow, MemberLink, PlaylistRow, RawAlbumRow, RawArtistRow, RawPlaylistRow, RawSongRow,
    SongRow,
};
use crate::text::str_eq;

verus! {

broadcast use vstd::seq::group_seq_axioms;

#[verifier::external_type_specification]
#[verifier::external_body]
pub struct ExConnection(rusqlite::Connection);

/// Relies on rusqlite's Connection::open_with_flags with the read-only
/// flag: opens the database file read-only.
#[verifier::external_body]
pub fn open_readonly(db_path: &str) -> Result<rusqlite::Connection, String> {
    rusqlite::Connection::open_with_flags(db_path, rusqlite::OpenFlags::SQLITE_OPEN_READ_ONLY)
        .map_err(|e| e.to_string())
}

/// Relies on rusqlite's Connection::open: opens the database file for
/// reading and writing, creating it if absent.
#[verifier::external_body]
pub fn open_readwrite(db_path: &str) -> Result<rusqlite::Connection, String> {
    rusqlite::Connection::open(db_path).map_err(|e| e.to_string())
}

/// Relies on rusqlite's prepare/query_map: runs the given
/// single-text-column query with no parameters and collects the rows.
#[verifier::external_body]
fn query_strings(conn: &rusqlite::Connection, sql: &str) -> Result<Vec<String>, String> {
    let mut stmt = conn.prepare(sql).map_err(|e| e.to_string())?;
    let rows = stmt.query_map([], |row| row.get::<_, String>(0)).map_err(|e| e.to_string())?;
    rows.collect::<rusqlite::Result<Vec<String>>>().map_err(|e| e.to_string())
}

/// Relies on rusqlite's prepare/query_map: runs the given
/// single-text-column query with one integer parameter and collects the
/// rows.
#[verifier::external_body]
pub(crate) fn query_strings_by_id(conn: &rusqlite::Connection, sql: &str, id: i64) -> Result<
    Vec<String>,
    String,
> {
    let mut stmt = conn.prepare(sql).map_err(|e| e.to_string())?;
    let rows = stmt.query_map((id,), |row| row.get::<_, String>(0)).map_err(|e| e.to_string())?;
    rows.collect::<rusqlite::Result<Vec<String>>>().map_err(|e| e.to_string())
}

/// Relies on rusqlite's prepare/query_map/params_from_iter: runs the
/// given ten-column song query, one parameter per key, and collects the
/// raw rows.
#[verifier::external_body]
fn query_song_rows(conn: &rusqlite::Connection, sql: &str, keys: &Vec<String>) -> Result<
    Vec<RawSongRow>,
    String,
> {
    let mut stmt = conn.prepare(sql).map_err(|e| e.to_string())?;
    let rows = stmt.query_map(rusqlite::params_from_iter(keys.iter()), |row| {
        Ok(RawSongRow {
            id: row.get(0)?, fingerprint: row.get(1)?, name: row.get(2)?,
            duration: row.get(3)?, release_year: row.get(4)?, is_favorite: row.get(5)?,
            lyrics: row.get(6)?, file: row.get(7)?, thumbnail: row.get(8)?,
            album_fingerprint: row.get(9)?,
        })
    }).map_err(|e| e.to_string())?;
    rows.collect::<rusqlite::Result<Vec<RawSongRow>>>().map_err(|e| e.to_string())
}

/// Relies on rusqlite's prepare/query_map/params_from_iter: runs the
/// given seven-column album query, one parameter per key, and collects
/// the raw rows.
#[verifier::external_body]
fn query_album_rows(conn: &rusqlite::Connection, sql: &str, keys: &Vec<String>) -> Result<
    Vec<RawAlbumRow>,
    String,
> {
    let mut stmt = conn.prepare(sql).map_err(|e| e.to_string())?;
    let rows = stmt.query_map(rusqlite::params_from_iter(keys.iter()), |row| {
        Ok(RawAlbumRow {
            id: row.get(0)?, fingerprint: row.get(1)?, name: row.get(2)?,
            album_type: row.get(3)?, release_year: row.get(4)?, is_favorite: row.get(5)?,
            thumbnail: row.get(6)?,
        })
    }).map_err(|e| e.to_string())?;
    rows.collect::<rusqlite::Result<Vec<RawAlbumRow>>>().map_err(|e| e.to_string())
}

/// Relies on rusqlite's prepare/query_map/params_from_iter: runs the
/// given four-column artist query, one parameter per key, and collects
/// the raw rows.
#[verifier::external_body]
fn query_artist_rows(conn: &rusqlite::Connection, sql: &str, keys: &Vec<String>) -> Result<
    Vec<RawArtistRow>,
    String,
> {
    let mut stmt = conn.prepare(sql).map_err(|e| e.to_string())?;
    let rows = stmt.query_map(rusqlite::params_from_iter(keys.iter()), |row| {
        Ok(RawArtistRow {
            fingerprint: row.get(0)?, name: row.get(1)?, is_favorite: row.get(2)?,
            thumbnail: row.get(3)?,
        })
    }).map_err(|e| e.to_string())?;
    rows.collect::<rusqlite::Result<Vec<RawArtistRow>>>().map_err(|e| e.to_string())
}

/// Relies on rusqlite's prepare/query_map/params_from_iter: runs the
/// given five-column playlist query, one parameter per key, and
/// collects the raw rows.
#[verifier::external_body]
fn query_playlist_rows(conn: &rusqlite::Connection, sql: &str, keys: &Vec<String>) -> Result<
    Vec<RawPlaylistRow>,
    String,
> {
    let mut stmt = conn.prepare(sql).map_err(|e| e.to_string())?;
    let rows = stmt.query_map(rusqlite::params_from_iter(keys.iter()), |row| {
        Ok(RawPlaylistRow {
            id: row.get(0)?, fingerprint: row.get(1)?, name: row.get(2)?,
            is_favorite: row.get(3)?, thumbnail: row.get(4)?,
        })
    }).map_err(|e| e.to_string())?;
    rows.collect::<rusqlite::Result<Vec<RawPlaylistRow>>>().map_err(|e| e.to_string())
}

/// Relies on rusqlite's prepare/query_map/params_from_iter: runs the
/// given (owner id, fingerprint, display order) relation query, one
/// parameter per owner id, and collects the rows.
#[verifier::external_body]
fn query_artist_links(conn: &rusqlite::Connection, sql: &str, ids: &Vec<i64>) -> Result<
    Vec<ArtistLink>,
    String,
> {
    let mut stmt = conn.prepare(sql).map_err(|e| e.to_string())?;
    let rows = stmt.query_map(rusqlite::params_from_iter(ids.iter()), |row| {
        Ok(ArtistLink { owner_id: row.get(0)?, fingerprint: row.get(1)?, artist_order: row.get(2)? })
    }).map_err(|e| e.to_string())?;
    rows.collect::<rusqlite::Result<Vec<ArtistLink>>>().map_err(|e| e.to_string())
}

/// Relies on rusqlite's prepare/query_map/params_from_iter: runs the
/// given (owner id, fingerprint) relation query, one parameter per
/// owner id, and collects the rows.
#[verifier::external_body]
fn query_member_links(conn: &rusqlite::Connection, sql: &str, ids: &Vec<i64>) -> Result<
    Vec<MemberLink>,
    String,
> {
    let mut stmt = conn.prepare(sql).map_err(|e| e.to_string())?;
    let rows = stmt.query_map(rusqlite::params_from_iter(ids.iter()), |row| {
        Ok(MemberLink { owner_id: row.get(0)?, fingerprint: row.get(1)? })
    }).map_err(|e| e.to_string())?;
    rows.collect::<rusqlite::Result<Vec<MemberLink>>>().map_err(|e| e.to_string())
}

/// Relies on rusqlite's prepare/query_row: runs the given
/// single-text-column lookup with one parameter. Only the no-rows
/// outcome reads as None; any other store failure surfaces as the
/// error.
#[verifier::external_body]
fn query_file_name(conn: &rusqlite::Connection, sql: &str, key: &str) -> Result<
    Option<String>,
    String,
> {
    let mut stmt = conn.prepare(sql).map_err(|e| e.to_string())?;
    match stmt.query_row((key,), |row| row.get::<_, String>(0)) {
        Ok(name) => Ok(Some(name)),
        Err(rusqlite::Error::QueryReturnedNoRows) => Ok(None),
        Err(e) => Err(e.to_string()),
    }
}

/// Relies on rusqlite's prepare/query_row: as `query_file_name`, for a
/// nullable text column; a stored NULL, like a missing row, reads as
/// None, and any other store failure surfaces as the error.
#[verifier::external_body]
fn query_opt_file_name(conn: &rusqlite::Connection, sql: &str, key: &str) -> Result<
    Option<String>,
    String,
> {
    let mut stmt = conn.prepare(sql).map_err(|e| e.to_string())?;
    match stmt.query_row((key,), |row| row.get::<_, Option<String>>(0)) {
        Ok(name) => Ok(name),
        Err(rusqlite::Error::QueryReturnedNoRows) => Ok(None),
        Err(e) => Err(e.to_string()),
    }
}

/// Relies on rusqlite's Connection::execute: runs the given update
/// statement with a text and an integer parameter; returns the number
/// of rows changed.
#[verifier::external_body]
pub(crate) fn execute_keyed_update(
    conn: &rusqlite::Connection,
    sql: &str,
    text: &str,
    id: i64,
) -> Result<usize, String> {
    conn.execute(sql, (text, id)).map_err(|e| e.to_string())
}

/// An (id, name) row used by the backfill passes.
#[derive(Debug)]
pub struct IdNameRow {
    pub id: i64,
    pub name: String,
}

/// An (id, name, album type) row used by the album backfill pass.
#[derive(Debug)]
pub struct AlbumSeedRow {
    pub id: i64,
    pub name: String,
    pub album_type: String,
}

/// An (id, name, duration, album name) row used by the song backfill
/// pass.
#[derive(Debug)]
pub struct SongSeedRow {
    pub id: i64,
    pub name: String,
    pub duration: i64,
    pub album_name: Option<String>,
}

/// Relies on rusqlite's prepare/query_map: runs the given (id, name)
/// query with no parameters and collects the rows.
#[verifier::external_body]
pub(crate) fn query_id_name_rows(conn: &rusqlite::Connection, sql: &str) -> Result<
    Vec<IdNameRow>,
    String,
> {
    let mut stmt = conn.prepare(sql).map_err(|e| e.to_string())?;
    let rows = stmt.query_map([], |row| {
        Ok(IdNameRow { id: row.get(0)?, name: row.get(1)? })
    }).map_err(|e| e.to_string())?;
    rows.collect::<rusqlite::Result<Vec<IdNameRow>>>().map_err(|e| e.to_string())
}

/// Relies on rusqlite's prepare/query_map: runs the given (id, name,
/// album type) query with no parameters and collects the rows.
#[verifier::external_body]
pub(crate) fn query_album_seed_rows(conn: &rusqlite::Connection, sql: &str) -> Result<
    Vec<AlbumSeedRow>,
    String,
> {
    let mut stmt = conn.prepare(sql).map_err(|e| e.to_string())?;
    let rows = stmt.query_map([], |row| {
        Ok(AlbumSeedRow { id: row.get(0)?, name: row.get(1)?, album_type: row.get(2)? })
    }).map_err(|e| e.to_string())?;
    rows.collect::<rusqlite::Result<Vec<AlbumSeedRow>>>().map_err(|e| e.to_string())
}

/// Relies on rusqlite's prepare/query_map: runs the given (id, name,
/// duration, album name) query with no parameters and collects the
/// rows.
#[verifier::external_body]
pub(crate) fn query_song_seed_rows(conn: &rusqlite::Connection, sql: &str) -> Result<
    Vec<SongSeedRow>,
    String,
> {
    let mut stmt = conn.prepare(sql).map_err(|e| e.to_string())?;
    let rows = stmt.query_map([], |row| {
        Ok(SongSeedRow {
            id: row.get(0)?, name: row.get(1)?, duration: row.get(2)?, album_name: row.get(3)?,
        })
    }).map_err(|e| e.to_string())?;
    rows.collect::<rusqlite::Result<Vec<SongSeedRow>>>().map_err(|e| e.to_string())
}

/// A comma-separated list of `n` SQL placeholders.
pub open spec fn placeholders_spec(n: nat) -> Seq<char>
    decreases n,
{
    if n == 0 {
        Seq::empty()
    } else if n == 1 {
        seq!['?']
    } else {
        placeholders_spec((n - 1) as nat) + seq![',', '?']
    }
}

/// A comma-separated list of `n` SQL placeholders, for a key set of
/// size `n`: the parameterized fetch-by-key-set form, never
/// interpolated values.
pub fn sql_placeholders(n: usize) -> (r: String)
    ensures
        r@ == placeholders_spec(n as nat),
{
    let mut out = String::new();
    if n == 0 {
        assert(out@ =~= placeholders_spec(0));
        return out;
    }
    out.append("?");
    proof {
        reveal_strlit("?");
        assert(out@ =~= placeholders_spec(1));
    }
    let mut i: usize = 1;
    while i < n
        invariant
            1 <= i <= n,
            out@ == placeholders_spec(i as nat),
        decreases n - i,
    {
        out.append(",?");
        proof {
            reveal_strlit(",?");
            assert(",?"@ =~= seq![',', '?']);
            assert(out@ =~= placeholders_spec((i + 1) as nat));
        }
        i += 1;
    }
    out
}

/// `dir`, a separator, and `name`: where a stored file name lives under
/// a media root directory.
pub fn path_join(dir: &str, name: &str) -> (r: String)
    ensures
        r@ == dir@ + seq!['/'] + name@,
{
    let mut out = String::new();
    out.append(dir);
    out.append("/");
    out.append(name);
    proof {
        reveal_strlit("/");
        assert("/"@ =~= seq!['/']);
        assert(out@ =~= dir@ + seq!['/'] + name@);
    }
    out
}

/// Where the catalog database lives under the application data
/// directory.
pub fn resolve_db_path(app_data_dir: &str) -> (r: String)
    ensures
        r@ == app_data_dir@ + seq!['/'] + "database.db"@,
{
    path_join(app_data_dir, "database.db")
}

/// The statement that lists every stored fingerprint of a table.
fn all_fingerprints_sql(table_name: &str) -> (r: String)
    ensures
        r@ == "SELECT fingerprint FROM "@ + table_name@ + " WHERE fingerprint IS NOT NULL"@,
{
    let mut sql = String::new();
    sql.append("SELECT fingerprint FROM ");
    sql.append(table_name);
    sql.append(" WHERE fingerprint IS NOT NULL");
    proof {
        assert(sql@ =~= "SELECT fingerprint FROM "@ + table_name@
            + " WHERE fingerprint IS NOT NULL"@);
    }
    sql
}

/// All stored fingerprints of the given table, via a single query.
pub fn get_all_fingerprints(conn: &rusqlite::Connection, table_name: &str) -> Result<
    Vec<String>,
    String,
> {
    let sql = all_fingerprints_sql(table_name);
    query_strings(conn, sql.as_str())
}

fn collect_song_ids(raws: &Vec<RawSongRow>) -> (r: Vec<i64>)
    ensures
        r@.len() == raws@.len(),
        forall|k: int| 0 <= k < r@.len() ==> r@[k] == raws@[k].id,
{
    let mut out: Vec<i64> = Vec::new();
    let mut i: usize = 0;
    while i < raws.len()
        invariant
            i <= raws@.len(),
            out@.len() == i,
            forall|k: int| 0 <= k < i ==> out@[k] == raws@[k].id,
        decreases raws@.len() - i,
    {
        out.push(raws[i].id);
        i += 1;
    }
    out
}

fn collect_album_ids(raws: &Vec<RawAlbumRow>) -> (r: Vec<i64>)
    ensures
        r@.len() == raws@.len(),
        forall|k: int| 0 <= k < r@.len() ==> r@[k] == raws@[k].id,
{
    let mut out: Vec<i64> = Vec::new();
    let mut i: usize = 0;
    while i < raws.len()
        invariant
            i <= raws@.len(),
            out@.len() == i,
            forall|k: int| 0 <= k < i ==> out@[k] == raws@[k].id,
        decreases raws@.len() - i,
    {
        out.push(raws[i].id);
        i += 1;
    }
    out
}

fn collect_playlist_ids(raws: &Vec<RawPlaylistRow>) -> (r: Vec<i64>)
    ensures
        r@.len() == raws@.len(),
        forall|k: int| 0 <= k < r@.len() ==> r@[k] == raws@[k].id,
{
    let mut out: Vec<i64> = Vec::new();
    let mut i: usize = 0;
    while i < raws.len()
        invariant
            i <= raws@.len(),
            out@.len() == i,
            forall|k: int| 0 <= k < i ==> out@[k] == raws@[k].id,
        decreases raws@.len() - i,
    {
        out.push(raws[i].id);
        i += 1;
    }
    out
}

/// A fetch-by-key-set statement: the given prefix, `n` placeholders,
/// one per key, and the given suffix.
fn keyed_sql(prefix: &str, n: usize, suffix: &str) -> (r: String)
    ensures
        r@ == prefix@ + placeholders_spec(n as nat) + suffix@,
{
    let mut sql = String::new();
    sql.append(prefix);
    let ph = sql_placeholders(n);
    sql.append(ph.as_str());
    sql.append(suffix);
    proof {
        assert(sql@ =~= prefix@ + placeholders_spec(n as nat) + suffix@);
    }
    sql
}

fn songs_select_sql(n: usize) -> (r: String)
    ensures
        r@ == "SELECT s.id, s.fingerprint, s.name, s.duration, s.release_year, s.is_favorite, s.lyrics, s.file, s.thumbnail, a.fingerprint as album_fingerprint FROM songs s LEFT JOIN albums a ON s.album_id = a.id WHERE s.fingerprint IN ("@ + placeholders_spec(n as nat) + ")"@,
{
    keyed_sql(
        "SELECT s.id, s.fingerprint, s.name, s.duration, s.release_year, s.is_favorite, s.lyrics, s.file, s.thumbnail, a.fingerprint as album_fingerprint FROM songs s LEFT JOIN albums a ON s.album_id = a.id WHERE s.fingerprint IN (",
        n,
        ")",
    )
}

fn song_artists_sql(n: usize) -> (r: String)
    ensures
        r@ == "SELECT sa.song_id, ar.fingerprint, sa.artist_order FROM song_artists sa JOIN artists ar ON sa.artist_id = ar.id WHERE sa.song_id IN ("@ + placeholders_spec(n as nat) + ") AND ar.fingerprint IS NOT NULL ORDER BY sa.artist_order"@,
{
    keyed_sql(
        "SELECT sa.song_id, ar.fingerprint, sa.artist_order FROM song_artists sa JOIN artists ar ON sa.artist_id = ar.id WHERE sa.song_id IN (",
        n,
        ") AND ar.fingerprint IS NOT NULL ORDER BY sa.artist_order",
    )
}

fn song_playlists_sql(n: usize) -> (r: String)
    ensures
        r@ == "SELECT ps.song_id, p.fingerprint FROM playlist_songs ps JOIN playlists p ON ps.playlist_id = p.id WHERE ps.song_id IN ("@ + placeholders_spec(n as nat) + ") AND p.fingerprint IS NOT NULL"@,
{
    keyed_sql(
        "SELECT ps.song_id, p.fingerprint FROM playlist_songs ps JOIN playlists p ON ps.playlist_id = p.id WHERE ps.song_id IN (",
        n,
        ") AND p.fingerprint IS NOT NULL",
    )
}

fn albums_select_sql(n: usize) -> (r: String)
    ensures
        r@ == "SELECT id, fingerprint, name, album_type, release_year, is_favorite, thumbnail FROM albums WHERE fingerprint IN ("@ + placeholders_spec(n as nat) + ")"@,
{
    keyed_sql(
        "SELECT id, fingerprint, name, album_type, release_year, is_favorite, thumbnail FROM albums WHERE fingerprint IN (",
        n,
        ")",
    )
}

fn album_artists_sql(n: usize) -> (r: String)
    ensures
        r@ == "SELECT aa.album_id, ar.fingerprint, aa.artist_order FROM album_artists aa JOIN artists ar ON aa.artist_id = ar.id WHERE aa.album_id IN ("@ + placeholders_spec(n as nat) + ") AND ar.fingerprint IS NOT NULL ORDER BY aa.artist_order"@,
{
    keyed_sql(
        "SELECT aa.album_id, ar.fingerprint, aa.artist_order FROM album_artists aa JOIN artists ar ON aa.artist_id = ar.id WHERE aa.album_id IN (",
        n,
        ") AND ar.fingerprint IS NOT NULL ORDER BY aa.artist_order",
    )
}

fn artists_select_sql(n: usize) -> (r: String)
    ensures
        r@ == "SELECT fingerprint, name, is_favorite, thumbnail FROM artists WHERE fingerprint IN ("@ + placeholders_spec(n as nat) + ")"@,
{
    keyed_sql(
        "SELECT fingerprint, name, is_favorite, thumbnail FROM artists WHERE fingerprint IN (",
        n,
        ")",
    )
}

fn playlists_select_sql(n: usize) -> (r: String)
    ensures
        r@ == "SELECT id, fingerprint, name, is_favorite, thumbnail FROM playlists WHERE fingerprint IN ("@ + placeholders_spec(n as nat) + ")"@,
{
    keyed_sql(
        "SELECT id, fingerprint, name, is_favorite, thumbnail FROM playlists WHERE fingerprint IN (",
        n,
        ")",
    )
}

fn playlist_songs_sql(n: usize) -> (r: String)
    ensures
        r@ == "SELECT ps.playlist_id, s.fingerprint FROM playlist_songs ps JOIN songs s ON ps.song_id = s.id WHERE ps.playlist_id IN ("@ + placeholders_spec(n as nat) + ") AND s.fingerprint IS NOT NULL"@,
{
    keyed_sql(
        "SELECT ps.playlist_id, s.fingerprint FROM playlist_songs ps JOIN songs s ON ps.song_id = s.id WHERE ps.playlist_id IN (",
        n,
        ") AND s.fingerprint IS NOT NULL",
    )
}

/// The hydrated song records for exactly the requested fingerprints
/// that exist in the catalog; an empty request short-circuits to an
/// empty result without touching the store. Every returned record is
/// fully hydrated against the relation rows the store returned.
pub fn get_songs_by_fingerprints(conn: &rusqlite::Connection, fingerprints: &Vec<String>) -> (r:
    Result<Vec<SongRow>, String>)
    ensures
        fingerprints@.len() == 0 ==> (r matches Ok(v) && v@.len() == 0),
{
    if fingerprints.len() == 0 {
        return Ok(Vec::new());
    }
    let sql = songs_select_sql(fingerprints.len());
    let raws = match query_song_rows(conn, sql.as_str(), fingerprints) {
        Ok(v) => v,
        Err(e) => {
            return Err(e);
        },
    };
    if raws.len() == 0 {
        return Ok(Vec::new());
    }
    let ids = collect_song_ids(&raws);
    let asql = song_artists_sql(ids.len());
    let links = match query_artist_links(conn, asql.as_str(), &ids) {
        Ok(v) => v,
        Err(e) => {
            return Err(e);
        },
    };
    let psql = song_playlists_sql(ids.len());
    let members = match query_member_links(conn, psql.as_str(), &ids) {
        Ok(v) => v,
        Err(e) => {
            return Err(e);
        },
    };
    Ok(hydrate_songs(&raws, &links, &members))
}

/// The hydrated album records for exactly the requested fingerprints
/// that exist in the catalog; an empty request short-circuits.
pub fn get_albums_by_fingerprints(conn: &rusqlite::Connection, fingerprints: &Vec<String>) -> (r:
    Result<Vec<AlbumRow>, String>)
    ensures
        fingerprints@.len() == 0 ==> (r matches Ok(v) && v@.len() == 0),
{
    if fingerprints.len() == 0 {
        return Ok(Vec::new());
    }
    let sql = albums_select_sql(fingerprints.len());
    let raws = match query_album_rows(conn, sql.as_str(), fingerprints) {
        Ok(v) => v,
        Err(e) => {
            return Err(e);
        },
    };
    if raws.len() == 0 {
        return Ok(Vec::new());
    }
    let ids = collect_album_ids(&raws);
    let asql = album_artists_sql(ids.len());
    let links = match query_artist_links(conn, asql.as_str(), &ids) {
        Ok(v) => v,
        Err(e) => {
            return Err(e);
        },
    };
    Ok(hydrate_albums(&raws, &links))
}

/// The hydrated artist records for exactly the requested fingerprints
/// that exist in the catalog; an empty request short-circuits.
pub fn get_artists_by_fingerprints(conn: &rusqlite::Connection, fingerprints: &Vec<String>) -> (r:
    Result<Vec<ArtistRow>, String>)
    ensures
        fingerprints@.len() == 0 ==> (r matches Ok(v) && v@.len() == 0),
{
    if fingerprints.len() == 0 {
        return Ok(Vec::new());
    }
    let sql = artists_select_sql(fingerprints.len());
    let raws = match query_artist_rows(conn, sql.as_str(), fingerprints) {
        Ok(v) => v,
        Err(e) => {
            return Err(e);
        },
    };
    Ok(hydrate_artists(&raws))
}

/// The hydrated playlist records for exactly the requested fingerprints
/// that exist in the catalog; an empty request short-circuits.
pub fn get_playlists_by_fingerprints(conn: &rusqlite::Connection, fingerprints: &Vec<String>) -> (r:
    Result<Vec<PlaylistRow>, String>)
    ensures
        fingerprints@.len() == 0 ==> (r matches Ok(v) && v@.len() == 0),
{
    if fingerprints.len() == 0 {
        return Ok(Vec::new());
    }
    let sql = playlists_select_sql(fingerprints.len());
    let raws = match query_playlist_rows(conn, sql.as_str(), fingerprints) {
        Ok(v) => v,
        Err(e) => {
            return Err(e);
        },
    };
    if raws.len() == 0 {
        return Ok(Vec::new());
    }
    let ids = collect_playlist_ids(&raws);
    let ssql = playlist_songs_sql(ids.len());
    let members = match query_member_links(conn, ssql.as_str(), &ids) {
        Ok(v) => v,
        Err(e) => {
            return Err(e);
        },
    };
    Ok(hydrate_playlists(&raws, &members))
}

/// Where the audio file of the song with this fingerprint lives under
/// the songs directory, if the catalog knows the song; a failing store
/// lookup surfaces as the error, never as a missing file.
pub fn get_song_file_path(
    conn: &rusqlite::Connection,
    fingerprint: &str,
    songs_dir: &str,
) -> (r: Result<Option<String>, String>)
    ensures
        r matches Ok(Some(p)) ==> exists|f: Seq<char>| p@ == songs_dir@ + seq!['/'] + f,
{
    let name = match query_file_name(conn, "SELECT file FROM songs WHERE fingerprint = ?1", fingerprint) {
        Ok(v) => v,
        Err(e) => {
            return Err(e);
        },
    };
    match name {
        Some(f) => {
            let p = path_join(songs_dir, f.as_str());
            assert(p@ == songs_dir@ + seq!['/'] + f@);
            Ok(Some(p))
        },
        None => Ok(None),
    }
}

/// Whether a thumbnail lookup knows this entity-type discriminator.
pub open spec fn known_entity_type(t: Seq<char>) -> bool {
    t == "song"@ || t == "album"@ || t == "artist"@ || t == "playlist"@
}

/// Where the thumbnail of the entity with this fingerprint lives under
/// the thumbnails directory, if the entity type is known, the catalog
/// knows the entity, and it has a thumbnail. An unrecognized entity
/// type reads as not-found, never as an error; a failing store lookup
/// surfaces as the error.
pub fn get_thumbnail_path(
    conn: &rusqlite::Connection,
    fingerprint: &str,
    entity_type: &str,
    thumbnails_dir: &str,
) -> (r: Result<Option<String>, String>)
    ensures
        !known_entity_type(entity_type@) ==> (r matches Ok(o) && o is None),
        r matches Ok(Some(p)) ==> exists|f: Seq<char>| p@ == thumbnails_dir@ + seq!['/'] + f,
{
    let sql: &str = if str_eq(entity_type, "song") {
        "SELECT thumbnail FROM songs WHERE fingerprint = ?1"
    } else if str_eq(entity_type, "album") {
        "SELECT thumbnail FROM albums WHERE fingerprint = ?1"
    } else if str_eq(entity_type, "artist") {
        "SELECT thumbnail FROM artists WHERE fingerprint = ?1"
    } else if str_eq(entity_type, "playlist") {
        "SELECT thumbnail FROM playlists WHERE fingerprint = ?1"
    } else {
        return Ok(None);
    };
    let name = match query_opt_file_name(conn, sql, fingerprint) {
        Ok(v) => v,
        Err(e) => {
            return Err(e);
        },
    };
    match name {
        Some(f) => {
            let p = path_join(thumbnails_dir, f.as_str());
            assert(p@ == thumbnails_dir@ + seq!['/'] + f@);
            Ok(Some(p))
        },
        None => Ok(None),
    }
}

} // verus!
