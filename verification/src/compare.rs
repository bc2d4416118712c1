//! The compare step of the diff protocol: a true set difference between
//! the desktop's fingerprint catalog and the fingerprints a peer already
//! knows. Order-independent, duplicate-insensitive, and cheap — no
//! records are fetched here.

use vstd::prelude::*;

use crate::order::views_of;
use crate::text::str_eq;

verus! {

broadcast use vstd::seq::group_seq_axioms;

/// The predicate "this fingerprint does not occur in `peer`".
pub open spec fn absent_from(peer: Seq<Seq<char>>) -> spec_fn(Seq<char>) -> bool {
    |f: Seq<char>| !peer.contains(f)
}

/// The fingerprints the peer is missing: those of the desktop catalog
/// that do not appear in the peer's set, in catalog order.
pub open spec fn missing_spec(desktop: Seq<Seq<char>>, peer: Seq<Seq<char>>) -> Seq<Seq<char>> {
    desktop.filter(absent_from(peer))
}

/// Whether any string in `v` has exactly the content of `x`.
pub fn contains_str(v: &Vec<String>, x: &str) -> (r: bool)
    ensures
        r == views_of(v@).contains(x@),
{
    let mut j: usize = 0;
    while j < v.len()
        invariant
            j <= v@.len(),
            forall|k: int| 0 <= k < j ==> views_of(v@)[k] != x@,
        decreases v@.len() - j,
    {
        if str_eq(v[j].as_str(), x) {
            assert(views_of(v@)[j as int] == x@);
            return true;
        }
        j += 1;
    }
    false
}

/// The subset of `desktop` whose entries do not occur in `peer`,
/// in order. Duplicates in `peer` cannot affect the result, since only
/// membership is consulted.
pub fn compute_missing(desktop: &Vec<String>, peer: &Vec<String>) -> (r: Vec<String>)
    ensures
        views_of(r@) == missing_spec(views_of(desktop@), views_of(peer@)),
{
    let mut out: Vec<String> = Vec::new();
    let mut i: usize = 0;
    proof {
        assert(views_of(out@) =~= views_of(desktop@).subrange(0, 0));
        assert(views_of(out@) == missing_spec(
            views_of(desktop@).subrange(0, 0),
            views_of(peer@),
        ));
    }
    while i < desktop.len()
        invariant
            i <= desktop@.len(),
            views_of(out@) == missing_spec(
                views_of(desktop@).subrange(0, i as int),
                views_of(peer@),
            ),
        decreases desktop@.len() - i,
    {
        let ghost pre = views_of(out@);
        let known = contains_str(peer, desktop[i].as_str());
        if !known {
            out.push(desktop[i].clone());
        }
        proof {
            broadcast use vstd::seq::Seq::lemma_filter_push;

            let all = views_of(desktop@);
            let pv = views_of(peer@);
            let t = all.subrange(0, i + 1);
            let head = all.subrange(0, i as int);
            assert(t =~= head.push(all[i as int]));
            assert(known == pv.contains(all[i as int]));
            assert(absent_from(pv)(all[i as int]) == !pv.contains(all[i as int]));
            assert(missing_spec(t, pv) == head.push(all[i as int]).filter(absent_from(pv)));
            if !known {
                assert(views_of(out@) =~= pre.push(all[i as int]));
            }
            assert(views_of(out@) == missing_spec(t, pv));
        }
        i += 1;
    }
    proof {
        assert(views_of(desktop@).subrange(0, desktop@.len() as int) =~= views_of(desktop@));
    }
    out
}

/// Compare is a true set difference: as sets, the missing fingerprints
/// are exactly the desktop set minus the peer set.
pub proof fn lemma_missing_is_set_difference(d: Seq<Seq<char>>, p: Seq<Seq<char>>)
    ensures
        missing_spec(d, p).to_set() == d.to_set().difference(p.to_set()),
{
    broadcast use vstd::seq_lib::group_filter_ensures;

    let pred = absent_from(p);
    let m = missing_spec(d, p);
    assert forall|x: Seq<char>| #[trigger] m.to_set().contains(x) implies d.to_set().difference(
        p.to_set(),
    ).contains(x) by {
        let i = choose|i: int| 0 <= i < m.len() && m[i] == x;
        assert(pred(m[i]));
        d.lemma_filter_contains_rev(pred, x);
    }
    assert forall|x: Seq<char>| #[trigger] d.to_set().difference(p.to_set()).contains(x)
        implies m.to_set().contains(x) by {
        let i = choose|i: int| 0 <= i < d.len() && d[i] == x;
        assert(pred(d[i]));
        assert(m.contains(d[i]));
    }
    assert(m.to_set() =~= d.to_set().difference(p.to_set()));
}

/// When the peer already knows every desktop fingerprint, nothing is
/// missing.
pub proof fn lemma_missing_empty_when_superset(d: Seq<Seq<char>>, p: Seq<Seq<char>>)
    requires
        forall|x: Seq<char>| d.contains(x) ==> p.contains(x),
    ensures
        missing_spec(d, p) == Seq::<Seq<char>>::empty(),
{
    broadcast use vstd::seq_lib::group_filter_ensures;

    let pred = absent_from(p);
    let m = missing_spec(d, p);
    if m.len() > 0 {
        let y = m[0];
        assert(pred(y));
        d.lemma_filter_contains_rev(pred, y);
        assert(d.contains(y));
    }
    assert(m =~= Seq::<Seq<char>>::empty());
}

/// Only membership in the peer set matters: peer lists with the same
/// members — whatever their order or duplication — give the same
/// missing list.
pub proof fn lemma_missing_peer_duplicates_ignored(
    d: Seq<Seq<char>>,
    p1: Seq<Seq<char>>,
    p2: Seq<Seq<char>>,
)
    requires
        forall|x: Seq<char>| p1.contains(x) == p2.contains(x),
    ensures
        missing_spec(d, p1) == missing_spec(d, p2),
    decreases d.len(),
{
    if d.len() == 0 {
        assert(d.filter(absent_from(p1)) == d);
        assert(d.filter(absent_from(p2)) == d);
    } else {
        broadcast use vstd::seq::Seq::lemma_filter_push;

        lemma_missing_peer_duplicates_ignored(d.drop_last(), p1, p2);
        assert(absent_from(p1)(d.last()) == absent_from(p2)(d.last()));
        assert(d =~= d.drop_last().push(d.last()));
        assert(missing_spec(d, p1) == d.drop_last().push(d.last()).filter(absent_from(p1)));
        assert(missing_spec(d, p2) == d.drop_last().push(d.last()).filter(absent_from(p2)));
        assert(missing_spec(d, p1) == missing_spec(d, p2));
    }
}

/// The outcome of a compare request: for each entity type, the desktop
/// fingerprints the peer lacks, with their counts.
pub struct CompareResponse {
    pub missing_songs: Vec<String>,
    pub missing_albums: Vec<String>,
    pub missing_artists: Vec<String>,
    pub missing_playlists: Vec<String>,
    pub totals: CompareTotals,
}

/// How many fingerprints of each entity type the peer is missing.
pub struct CompareTotals {
    pub songs: usize,
    pub albums: usize,
    pub artists: usize,
    pub playlists: usize,
}

/// The full compare step over all four entity types. Each missing list
/// is the set difference of the desktop catalog against the peer's set,
/// and each total is the length of the corresponding missing list.
pub fn compare_catalog(
    desktop_songs: &Vec<String>,
    desktop_albums: &Vec<String>,
    desktop_artists: &Vec<String>,
    desktop_playlists: &Vec<String>,
    peer_songs: &Vec<String>,
    peer_albums: &Vec<String>,
    peer_artists: &Vec<String>,
    peer_playlists: &Vec<String>,
) -> (r: CompareResponse)
    ensures
        views_of(r.missing_songs@) == missing_spec(views_of(desktop_songs@), views_of(peer_songs@)),
        views_of(r.missing_albums@) == missing_spec(
            views_of(desktop_albums@),
            views_of(peer_albums@),
        ),
        views_of(r.missing_artists@) == missing_spec(
            views_of(desktop_artists@),
            views_of(peer_artists@),
        ),
        views_of(r.missing_playlists@) == missing_spec(
            views_of(desktop_playlists@),
            views_of(peer_playlists@),
        ),
        r.totals.songs == r.missing_songs@.len(),
        r.totals.albums == r.missing_albums@.len(),
        r.totals.artists == r.missing_artists@.len(),
        r.totals.playlists == r.missing_playlists@.len(),
{
    let missing_songs = compute_missing(desktop_songs, peer_songs);
    let missing_albums = compute_missing(desktop_albums, peer_albums);
    let missing_artists = compute_missing(desktop_artists, peer_artists);
    let missing_playlists = compute_missing(desktop_playlists, peer_playlists);
    let totals = CompareTotals {
        songs: missing_songs.len(),
        albums: missing_albums.len(),
        artists: missing_artists.len(),
        playlists: missing_playlists.len(),
    };
    CompareResponse { missing_songs, missing_albums, missing_artists, missing_playlists, totals }
}

} // verus!
