use tunno_sync::fingerprint::{
    generate_album_fingerprint, generate_artist_fingerprint, generate_playlist_fingerprint,
    generate_song_fingerprint,
};

fn strings(names: &[&str]) -> Vec<String> {
    names.iter().map(|n| n.to_string()).collect()
}

#[test]
fn song_fingerprint_matches_known_digest() {
    let fp = generate_song_fingerprint("hello world", 180, &strings(&["a", "b"]), Some("x"));
    assert_eq!(fp, "772e6059515715aea8436539cb0c406e1bebf8db31b456675afa0f5f80095a7c");
}

#[test]
fn artist_fingerprint_matches_known_digest() {
    let fp = generate_artist_fingerprint("test");
    assert_eq!(fp, "6c66a3cdce10bceb1677e5f2842dc8484e3401b8b106bb77394ca2b33f599501");
}

#[test]
fn playlist_fingerprint_matches_known_digest() {
    let fp = generate_playlist_fingerprint("Road  Trip ");
    assert_eq!(fp, "c158da41fe0de151440b589be5cfe49832dfa3b84de7b68c7ca1315a51cdf55b");
}

#[test]
fn album_fingerprint_matches_known_digest() {
    let fp = generate_album_fingerprint("Thriller", "LP", &strings(&["b", "a"]));
    assert_eq!(fp, "5acfe7824df975a16eb422d17e3c6999e8315337cfbee7825c7e3a38d5379b2c");
}

#[test]
fn song_fingerprint_canonicalization_and_artist_order() {
    let messy = generate_song_fingerprint(" Hello  World ", 180, &strings(&["B", "a"]), Some("X"));
    let clean = generate_song_fingerprint("hello world", 180, &strings(&["a", "b"]), Some("x"));
    assert_eq!(messy, clean);
}

#[test]
fn song_fingerprint_is_repeatable() {
    let a = generate_song_fingerprint("Song", 200, &strings(&["x"]), None);
    let b = generate_song_fingerprint("Song", 200, &strings(&["x"]), None);
    assert_eq!(a, b);
}

#[test]
fn song_fingerprint_changes_with_duration() {
    let a = generate_song_fingerprint("Song", 180, &strings(&["x"]), Some("Al"));
    let b = generate_song_fingerprint("Song", 181, &strings(&["x"]), Some("Al"));
    assert_ne!(a, b);
}

#[test]
fn song_fingerprint_changes_with_added_artist() {
    let a = generate_song_fingerprint("Song", 180, &strings(&["x"]), Some("Al"));
    let b = generate_song_fingerprint("Song", 180, &strings(&["x", "y"]), Some("Al"));
    assert_ne!(a, b);
}

#[test]
fn song_fingerprint_distinguishes_missing_album_from_named_album() {
    let none = generate_song_fingerprint("Song", 180, &strings(&["x"]), None);
    let named = generate_song_fingerprint("Song", 180, &strings(&["x"]), Some("Al"));
    assert_ne!(none, named);
}

#[test]
fn entity_tags_separate_namespaces() {
    let artist = generate_artist_fingerprint("same name");
    let playlist = generate_playlist_fingerprint("same name");
    assert_ne!(artist, playlist);
}

#[test]
fn album_fingerprint_ignores_credit_order() {
    let ab = generate_album_fingerprint("Alb", "lp", &strings(&["Ann", "Bob"]));
    let ba = generate_album_fingerprint("Alb", "lp", &strings(&["Bob", "Ann"]));
    assert_eq!(ab, ba);
}

#[test]
fn fingerprint_is_lowercase_hex_of_fixed_length() {
    let fp = generate_artist_fingerprint("Anyone");
    assert_eq!(fp.len(), 64);
    assert!(fp.chars().all(|c| c.is_ascii_hexdigit() && !c.is_ascii_uppercase()));
}

#[test]
fn unicode_whitespace_is_canonicalized() {
    let a = generate_artist_fingerprint("Jane\u{00A0}\u{00A0}Doe");
    let b = generate_artist_fingerprint("jane doe");
    assert_eq!(a, b);
}
