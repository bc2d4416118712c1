use tunno_sync::compare::{compare_catalog, compute_missing};

fn strings(names: &[&str]) -> Vec<String> {
    names.iter().map(|n| n.to_string()).collect()
}

#[test]
fn missing_is_desktop_minus_peer() {
    let desktop = strings(&["a", "b", "c", "d"]);
    let peer = strings(&["b", "d"]);
    let missing = compute_missing(&desktop, &peer);
    assert_eq!(missing, strings(&["a", "c"]));
}

#[test]
fn peer_duplicates_do_not_inflate_counts() {
    let desktop = strings(&["a", "b", "c"]);
    let peer = strings(&["b", "b", "b"]);
    let missing = compute_missing(&desktop, &peer);
    assert_eq!(missing, strings(&["a", "c"]));
}

#[test]
fn superset_peer_is_missing_nothing() {
    let desktop = strings(&["a", "b"]);
    let peer = strings(&["c", "b", "a"]);
    let missing = compute_missing(&desktop, &peer);
    assert!(missing.is_empty());
}

#[test]
fn empty_peer_is_missing_everything() {
    let desktop = strings(&["a", "b"]);
    let peer = strings(&[]);
    let missing = compute_missing(&desktop, &peer);
    assert_eq!(missing, desktop);
}

#[test]
fn peer_order_does_not_matter() {
    let desktop = strings(&["a", "b", "c"]);
    let m1 = compute_missing(&desktop, &strings(&["c", "a"]));
    let m2 = compute_missing(&desktop, &strings(&["a", "c"]));
    assert_eq!(m1, m2);
}

#[test]
fn compare_catalog_reports_per_type_missing_and_totals() {
    let r = compare_catalog(
        &strings(&["s1", "s2"]),
        &strings(&["al1"]),
        &strings(&["ar1", "ar2", "ar3"]),
        &strings(&[]),
        &strings(&["s2"]),
        &strings(&[]),
        &strings(&["ar1", "ar3"]),
        &strings(&["p9"]),
    );
    assert_eq!(r.missing_songs, strings(&["s1"]));
    assert_eq!(r.missing_albums, strings(&["al1"]));
    assert_eq!(r.missing_artists, strings(&["ar2"]));
    assert!(r.missing_playlists.is_empty());
    assert_eq!(r.totals.songs, 1);
    assert_eq!(r.totals.albums, 1);
    assert_eq!(r.totals.artists, 1);
    assert_eq!(r.totals.playlists, 0);
}
