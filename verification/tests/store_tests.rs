use rusqlite::Connection;

use tunno_sync::backfill::backfill_all_fingerprints;
use tunno_sync::fingerprint::{generate_artist_fingerprint, generate_song_fingerprint};
use tunno_sync::protocol::{batch_request, compare_request};
use tunno_sync::store::{
    get_all_fingerprints, get_song_file_path, get_songs_by_fingerprints, get_thumbnail_path,
    resolve_db_path,
};

fn test_catalog() -> Connection {
    let conn = Connection::open_in_memory().expect("in-memory catalog");
    conn.execute_batch(
        "CREATE TABLE artists (id INTEGER PRIMARY KEY, fingerprint TEXT, name TEXT NOT NULL, \
         is_favorite INTEGER NOT NULL DEFAULT 0, thumbnail TEXT);
         CREATE TABLE albums (id INTEGER PRIMARY KEY, fingerprint TEXT, name TEXT NOT NULL, \
         album_type TEXT NOT NULL, release_year INTEGER, is_favorite INTEGER NOT NULL DEFAULT 0, \
         thumbnail TEXT);
         CREATE TABLE songs (id INTEGER PRIMARY KEY, fingerprint TEXT, name TEXT NOT NULL, \
         duration INTEGER NOT NULL, release_year INTEGER, is_favorite INTEGER NOT NULL DEFAULT 0, \
         lyrics TEXT, file TEXT NOT NULL, thumbnail TEXT, album_id INTEGER);
         CREATE TABLE playlists (id INTEGER PRIMARY KEY, fingerprint TEXT, name TEXT NOT NULL, \
         is_favorite INTEGER NOT NULL DEFAULT 0, thumbnail TEXT);
         CREATE TABLE song_artists (song_id INTEGER NOT NULL, artist_id INTEGER NOT NULL, \
         artist_order INTEGER NOT NULL);
         CREATE TABLE album_artists (album_id INTEGER NOT NULL, artist_id INTEGER NOT NULL, \
         artist_order INTEGER NOT NULL);
         CREATE TABLE playlist_songs (playlist_id INTEGER NOT NULL, song_id INTEGER NOT NULL);",
    )
    .expect("schema");
    conn
}

fn seed_two_artist_song(conn: &Connection) {
    // two artists credited in display order [Beta, Alpha], the reverse
    // of their alphabetical order
    conn.execute(
        "INSERT INTO artists (id, name, thumbnail) VALUES (1, 'Alpha', 'alpha.png')",
        (),
    )
    .unwrap();
    conn.execute("INSERT INTO artists (id, name) VALUES (2, 'Beta')", ()).unwrap();
    conn.execute(
        "INSERT INTO albums (id, name, album_type, release_year) VALUES (1, 'First', 'lp', 1999)",
        (),
    )
    .unwrap();
    conn.execute(
        "INSERT INTO songs (id, name, duration, file, album_id, lyrics) \
         VALUES (1, 'Duet', 200, 'duet.mp3', 1, 'la la')",
        (),
    )
    .unwrap();
    conn.execute("INSERT INTO playlists (id, name) VALUES (1, 'Mix')", ()).unwrap();
    conn.execute("INSERT INTO song_artists VALUES (1, 2, 0)", ()).unwrap();
    conn.execute("INSERT INTO song_artists VALUES (1, 1, 1)", ()).unwrap();
    conn.execute("INSERT INTO album_artists VALUES (1, 1, 0)", ()).unwrap();
    conn.execute("INSERT INTO album_artists VALUES (1, 2, 1)", ()).unwrap();
    conn.execute("INSERT INTO playlist_songs VALUES (1, 1)", ()).unwrap();
}

#[test]
fn backfill_is_idempotent() {
    let conn = test_catalog();
    seed_two_artist_song(&conn);
    let first = backfill_all_fingerprints(&conn).expect("first backfill");
    assert_eq!(first, 5); // 2 artists + 1 album + 1 playlist + 1 song
    let second = backfill_all_fingerprints(&conn).expect("second backfill");
    assert_eq!(second, 0);
}

#[test]
fn backfill_writes_the_engine_fingerprints() {
    let conn = test_catalog();
    seed_two_artist_song(&conn);
    backfill_all_fingerprints(&conn).unwrap();
    let stored: String = conn
        .query_row("SELECT fingerprint FROM songs WHERE id = 1", (), |row| row.get(0))
        .unwrap();
    let expected = generate_song_fingerprint(
        "Duet",
        200,
        &vec!["Beta".to_string(), "Alpha".to_string()],
        Some("First"),
    );
    assert_eq!(stored, expected);
}

#[test]
fn batch_omits_unknown_fingerprints_without_error() {
    let conn = test_catalog();
    seed_two_artist_song(&conn);
    backfill_all_fingerprints(&conn).unwrap();
    let real = generate_song_fingerprint(
        "Duet",
        200,
        &vec!["Beta".to_string(), "Alpha".to_string()],
        Some("First"),
    );
    let request = vec![real.clone(), "bogus-fp".to_string()];
    let songs = get_songs_by_fingerprints(&conn, &request).expect("batch fetch");
    assert_eq!(songs.len(), 1);
    assert_eq!(songs[0].fingerprint, real);
}

#[test]
fn batch_preserves_display_order_of_artists() {
    let conn = test_catalog();
    seed_two_artist_song(&conn);
    backfill_all_fingerprints(&conn).unwrap();
    let song_fp = generate_song_fingerprint(
        "Duet",
        200,
        &vec!["Beta".to_string(), "Alpha".to_string()],
        Some("First"),
    );
    let songs = get_songs_by_fingerprints(&conn, &vec![song_fp]).expect("batch fetch");
    let credits = &songs[0].artist_fingerprints;
    assert_eq!(credits.len(), 2);
    // display order is [Beta, Alpha] even though the identity hash
    // sorted the names alphabetically
    assert_eq!(credits[0].fingerprint, generate_artist_fingerprint("Beta"));
    assert_eq!(credits[0].artist_order, 0);
    assert_eq!(credits[1].fingerprint, generate_artist_fingerprint("Alpha"));
    assert_eq!(credits[1].artist_order, 1);
}

#[test]
fn batch_hydrates_scalar_fields_and_relations() {
    let conn = test_catalog();
    seed_two_artist_song(&conn);
    backfill_all_fingerprints(&conn).unwrap();
    let song_fp = generate_song_fingerprint(
        "Duet",
        200,
        &vec!["Beta".to_string(), "Alpha".to_string()],
        Some("First"),
    );
    let songs = get_songs_by_fingerprints(&conn, &vec![song_fp]).unwrap();
    let song = &songs[0];
    assert_eq!(song.name, "Duet");
    assert_eq!(song.duration, 200);
    assert_eq!(song.lyrics.as_deref(), Some("la la"));
    assert_eq!(song.file, "duet.mp3");
    assert!(!song.is_favorite);
    assert!(!song.has_thumbnail);
    assert!(song.album_fingerprint.is_some());
    assert_eq!(song.playlist_fingerprints.len(), 1);
}

#[test]
fn batch_request_covers_all_four_types() {
    let conn = test_catalog();
    seed_two_artist_song(&conn);
    backfill_all_fingerprints(&conn).unwrap();
    let songs = get_all_fingerprints(&conn, "songs").unwrap();
    let albums = get_all_fingerprints(&conn, "albums").unwrap();
    let artists = get_all_fingerprints(&conn, "artists").unwrap();
    let playlists = get_all_fingerprints(&conn, "playlists").unwrap();
    let batch = batch_request(&conn, &songs, &albums, &artists, &playlists).unwrap();
    assert_eq!(batch.songs.len(), 1);
    assert_eq!(batch.albums.len(), 1);
    assert_eq!(batch.artists.len(), 2);
    assert_eq!(batch.playlists.len(), 1);
    assert_eq!(batch.albums[0].artist_fingerprints.len(), 2);
    assert!(batch.artists.iter().any(|a| a.has_thumbnail));
    assert_eq!(batch.playlists[0].song_fingerprints.len(), 1);
}

#[test]
fn empty_batch_request_short_circuits() {
    let conn = test_catalog();
    let none: Vec<String> = Vec::new();
    let batch = batch_request(&conn, &none, &none, &none, &none).unwrap();
    assert!(batch.songs.is_empty());
    assert!(batch.albums.is_empty());
    assert!(batch.artists.is_empty());
    assert!(batch.playlists.is_empty());
}

#[test]
fn compare_request_diffs_against_the_catalog() {
    let conn = test_catalog();
    seed_two_artist_song(&conn);
    backfill_all_fingerprints(&conn).unwrap();
    let all_artists = get_all_fingerprints(&conn, "artists").unwrap();
    let peer_artists = vec![all_artists[0].clone(), all_artists[0].clone()];
    let none: Vec<String> = Vec::new();
    let r = compare_request(&conn, &none, &none, &peer_artists, &none).unwrap();
    assert_eq!(r.totals.songs, 1);
    assert_eq!(r.totals.albums, 1);
    assert_eq!(r.totals.artists, 1); // peer duplicates count once
    assert_eq!(r.totals.playlists, 1);
    assert!(!r.missing_artists.contains(&all_artists[0]));
}

#[test]
fn all_fingerprints_skips_unset_rows() {
    let conn = test_catalog();
    conn.execute("INSERT INTO artists (id, name, fingerprint) VALUES (1, 'A', 'fp-a')", ())
        .unwrap();
    conn.execute("INSERT INTO artists (id, name) VALUES (2, 'B')", ()).unwrap();
    let fps = get_all_fingerprints(&conn, "artists").unwrap();
    assert_eq!(fps, vec!["fp-a".to_string()]);
}

#[test]
fn song_file_path_joins_the_media_root() {
    let conn = test_catalog();
    conn.execute(
        "INSERT INTO songs (id, fingerprint, name, duration, file) \
         VALUES (1, 'fp-song', 'S', 10, 'track.flac')",
        (),
    )
    .unwrap();
    let found = get_song_file_path(&conn, "fp-song", "/data/songs").unwrap();
    assert_eq!(found, Some("/data/songs/track.flac".to_string()));
    let absent = get_song_file_path(&conn, "no-such", "/data/songs").unwrap();
    assert_eq!(absent, None);
}

#[test]
fn thumbnail_path_honors_entity_type() {
    let conn = test_catalog();
    conn.execute(
        "INSERT INTO artists (id, fingerprint, name, thumbnail) VALUES (1, 'fp-ar', 'A', 'a.webp')",
        (),
    )
    .unwrap();
    conn.execute("INSERT INTO playlists (id, fingerprint, name) VALUES (1, 'fp-pl', 'P')", ())
        .unwrap();
    let found = get_thumbnail_path(&conn, "fp-ar", "artist", "/data/thumbs").unwrap();
    assert_eq!(found, Some("/data/thumbs/a.webp".to_string()));
    let no_thumb = get_thumbnail_path(&conn, "fp-pl", "playlist", "/data/thumbs").unwrap();
    assert_eq!(no_thumb, None);
    let bad_type = get_thumbnail_path(&conn, "fp-ar", "podcast", "/data/thumbs").unwrap();
    assert_eq!(bad_type, None);
}

#[test]
fn db_path_sits_under_the_app_data_directory() {
    assert_eq!(resolve_db_path("/home/u/.local/share/app"), "/home/u/.local/share/app/database.db");
}

#[test]
fn corrupt_file_cell_is_a_store_error() {
    let conn = test_catalog();
    conn.execute(
        "INSERT INTO songs (id, fingerprint, name, duration, file) \
         VALUES (1, 'fp-bad', 'S', 10, x'0011')",
        (),
    )
    .unwrap();
    let r = get_song_file_path(&conn, "fp-bad", "/data/songs");
    assert!(r.is_err());
}

#[test]
fn corrupt_thumbnail_cell_is_a_store_error() {
    let conn = test_catalog();
    conn.execute(
        "INSERT INTO artists (id, fingerprint, name, thumbnail) VALUES (1, 'fp-bad', 'A', x'00')",
        (),
    )
    .unwrap();
    let r = get_thumbnail_path(&conn, "fp-bad", "artist", "/data/thumbs");
    assert!(r.is_err());
}
