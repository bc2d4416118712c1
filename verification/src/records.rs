//! Catalog record shapes and their hydration. Raw rows and relation
//! links come back from the store; hydration assembles them into the
//! records the batch endpoint returns. Artist credits are ordered by
//! their recorded display order (`artist_order`) — an ordering kept
//! deliberately separate from the alphabetical order used for hashing.

use vstd::prelude::*;

verus! {

broadcast use vstd::seq::group_seq_axioms;

/// One artist credit of a song or album, in display order.
#[derive(Debug)]
pub struct ArtistOrder {
    pub fingerprint: String,
    pub artist_order: i64,
}

/// A fully hydrated song record.
#[derive(Debug)]
pub struct SongRow {
    pub fingerprint: String,
    pub name: String,
    pub duration: i64,
    pub release_year: Option<i64>,
    pub is_favorite: bool,
    pub lyrics: Option<String>,
    pub file: String,
    pub has_thumbnail: bool,
    pub album_fingerprint: Option<String>,
    pub artist_fingerprints: Vec<ArtistOrder>,
    pub playlist_fingerprints: Vec<String>,
}

/// A fully hydrated album record.
#[derive(Debug)]
pub struct AlbumRow {
    pub fingerprint: String,
    pub name: String,
    pub album_type: String,
    pub release_year: Option<i64>,
    pub is_favorite: bool,
    pub has_thumbnail: bool,
    pub artist_fingerprints: Vec<ArtistOrder>,
}

/// A fully hydrated artist record.
#[derive(Debug)]
pub struct ArtistRow {
    pub fingerprint: String,
    pub name: String,
    pub is_favorite: bool,
    pub has_thumbnail: bool,
}

/// A fully hydrated playlist record.
#[derive(Debug)]
pub struct PlaylistRow {
    pub fingerprint: String,
    pub name: String,
    pub is_favorite: bool,
    pub has_thumbnail: bool,
    pub song_fingerprints: Vec<String>,
}

/// A song row as it comes out of the store, before hydration.
#[derive(Debug)]
pub struct RawSongRow {
    pub id: i64,
    pub fingerprint: String,
    pub name: String,
    pub duration: i64,
    pub release_year: Option<i64>,
    pub is_favorite: i64,
    pub lyrics: Option<String>,
    pub file: String,
    pub thumbnail: Option<String>,
    pub album_fingerprint: Option<String>,
}

/// An album row as it comes out of the store, before hydration.
#[derive(Debug)]
pub struct RawAlbumRow {
    pub id: i64,
    pub fingerprint: String,
    pub name: String,
    pub album_type: String,
    pub release_year: Option<i64>,
    pub is_favorite: i64,
    pub thumbnail: Option<String>,
}

/// An artist row as it comes out of the store.
#[derive(Debug)]
pub struct RawArtistRow {
    pub fingerprint: String,
    pub name: String,
    pub is_favorite: i64,
    pub thumbnail: Option<String>,
}

/// A playlist row as it comes out of the store, before hydration.
#[derive(Debug)]
pub struct RawPlaylistRow {
    pub id: i64,
    pub fingerprint: String,
    pub name: String,
    pub is_favorite: i64,
    pub thumbnail: Option<String>,
}

/// One artist-credit relation row: which artist is credited on which
/// song or album, and at which display position.
#[derive(Debug)]
pub struct ArtistLink {
    pub owner_id: i64,
    pub fingerprint: String,
    pub artist_order: i64,
}

/// One unordered membership relation row (song in playlist, seen from
/// either side).
#[derive(Debug)]
pub struct MemberLink {
    pub owner_id: i64,
    pub fingerprint: String,
}

/// The predicate "this credit belongs to the entity with this row id".
pub open spec fn credit_of(id: i64) -> spec_fn(ArtistLink) -> bool {
    |l: ArtistLink| l.owner_id == id
}

/// The predicate "this membership belongs to the entity with this row
/// id".
pub open spec fn member_of(id: i64) -> spec_fn(MemberLink) -> bool {
    |m: MemberLink| m.owner_id == id
}

/// `x` inserted into `s` after every element whose display order does
/// not exceed its own: the insertion step of a stable sort.
pub open spec fn insert_link(x: ArtistLink, s: Seq<ArtistLink>) -> Seq<ArtistLink>
    decreases s.len(),
{
    if s.len() == 0 {
        seq![x]
    } else if x.artist_order < s[0].artist_order {
        seq![x] + s
    } else {
        seq![s[0]] + insert_link(x, s.drop_first())
    }
}

/// `l` stably sorted by display order: equal orders keep their relative
/// position.
pub open spec fn sort_links(l: Seq<ArtistLink>) -> Seq<ArtistLink>
    decreases l.len(),
{
    if l.len() == 0 {
        Seq::empty()
    } else {
        insert_link(l.last(), sort_links(l.drop_last()))
    }
}

/// The displayed artist credits of the entity with row id `id`: its
/// credits, stably sorted by display order.
pub open spec fn credits_of(links: Seq<ArtistLink>, id: i64) -> Seq<ArtistOrder> {
    sort_links(links.filter(credit_of(id))).map_values(
        |l: ArtistLink| ArtistOrder { fingerprint: l.fingerprint, artist_order: l.artist_order },
    )
}

/// The memberships of the entity with row id `id`, in store order.
pub open spec fn memberships_of(members: Seq<MemberLink>, id: i64) -> Seq<String> {
    members.filter(member_of(id)).map_values(|m: MemberLink| m.fingerprint)
}

proof fn lemma_insert_link_sorted(x: ArtistLink, s: Seq<ArtistLink>)
    requires
        forall|p: int, q: int|
            0 <= p < q < s.len() ==> #[trigger] s[p].artist_order <= #[trigger] s[q].artist_order,
    ensures
        forall|p: int, q: int|
            0 <= p < q < insert_link(x, s).len() ==> #[trigger] insert_link(x, s)[p].artist_order
                <= #[trigger] insert_link(x, s)[q].artist_order,
        insert_link(x, s).len() == s.len() + 1,
    decreases s.len(),
{
    if s.len() == 0 {
    } else if x.artist_order < s[0].artist_order {
        let r = seq![x] + s;
        assert forall|p: int, q: int| 0 <= p < q < r.len() implies #[trigger] r[p].artist_order
            <= #[trigger] r[q].artist_order by {
            if p == 0 {
                if q == 1 {
                    assert(r[q] == s[0]);
                } else {
                    assert(r[q] == s[q - 1]);
                    assert(s[0].artist_order <= s[q - 1].artist_order);
                }
            } else {
                assert(r[p] == s[p - 1] && r[q] == s[q - 1]);
            }
        }
    } else {
        let rest = s.drop_first();
        lemma_insert_link_sorted(x, rest);
        let inner = insert_link(x, rest);
        let r = seq![s[0]] + inner;
        assert forall|p: int, q: int| 0 <= p < q < r.len() implies #[trigger] r[p].artist_order
            <= #[trigger] r[q].artist_order by {
            if p == 0 {
                assert(r[q] == inner[q - 1]);
                // s[0] is below x and below every element of rest
                if inner[q - 1] == x {
                    assert(s[0].artist_order <= x.artist_order);
                }
                // every element of inner is x or an element of rest
                lemma_insert_link_membership(x, rest, q - 1);
            } else {
                assert(r[p] == inner[p - 1] && r[q] == inner[q - 1]);
            }
        }
    }
}

/// Every element of `insert_link(x, s)` is `x` or an element of `s`.
proof fn lemma_insert_link_membership(x: ArtistLink, s: Seq<ArtistLink>, i: int)
    requires
        0 <= i < insert_link(x, s).len(),
    ensures
        insert_link(x, s)[i] == x || exists|k: int|
            0 <= k < s.len() && insert_link(x, s)[i] == s[k],
    decreases s.len(),
{
    if s.len() == 0 {
    } else if x.artist_order < s[0].artist_order {
        if i > 0 {
            assert(insert_link(x, s)[i] == s[i - 1]);
        }
    } else {
        if i > 0 {
            lemma_insert_link_membership(x, s.drop_first(), i - 1);
            let inner = insert_link(x, s.drop_first());
            if inner[i - 1] != x {
                let k = choose|k: int|
                    0 <= k < s.drop_first().len() && inner[i - 1] == s.drop_first()[k];
                assert(insert_link(x, s)[i] == s[k + 1]);
            }
        }
    }
}

/// A stably sorted credit list is sorted by display order.
pub proof fn lemma_sort_links_sorted(l: Seq<ArtistLink>)
    ensures
        forall|p: int, q: int|
            0 <= p < q < sort_links(l).len() ==> #[trigger] sort_links(l)[p].artist_order
                <= #[trigger] sort_links(l)[q].artist_order,
        sort_links(l).len() == l.len(),
    decreases l.len(),
{
    if l.len() > 0 {
        lemma_sort_links_sorted(l.drop_last());
        lemma_insert_link_sorted(l.last(), sort_links(l.drop_last()));
    }
}

/// Displayed artist credits are sorted by their recorded display
/// order, whatever order the store handed the links back in.
pub proof fn lemma_credits_sorted(links: Seq<ArtistLink>, id: i64)
    ensures
        forall|p: int, q: int|
            0 <= p < q < credits_of(links, id).len() ==> #[trigger] credits_of(
                links,
                id,
            )[p].artist_order <= #[trigger] credits_of(links, id)[q].artist_order,
{
    let sorted = sort_links(links.filter(credit_of(id)));
    lemma_sort_links_sorted(links.filter(credit_of(id)));
    assert forall|p: int, q: int| 0 <= p < q < credits_of(links, id).len() implies #[trigger]
        credits_of(links, id)[p].artist_order <= #[trigger] credits_of(
        links,
        id,
    )[q].artist_order by {
        assert(credits_of(links, id)[p].artist_order == sorted[p].artist_order);
        assert(credits_of(links, id)[q].artist_order == sorted[q].artist_order);
    }
}

proof fn lemma_insert_link_at(x: ArtistLink, s: Seq<ArtistLink>, j: int)
    requires
        0 <= j <= s.len(),
        forall|k: int| 0 <= k < j ==> !(x.artist_order < #[trigger] s[k].artist_order),
        j == s.len() || x.artist_order < s[j].artist_order,
    ensures
        insert_link(x, s) == s.subrange(0, j) + seq![x] + s.subrange(j, s.len() as int),
    decreases j,
{
    if j == 0 {
        if s.len() == 0 {
            assert(insert_link(x, s) =~= s.subrange(0, 0) + seq![x] + s.subrange(0, 0));
        } else {
            assert(insert_link(x, s) =~= s.subrange(0, 0) + seq![x] + s.subrange(
                0,
                s.len() as int,
            ));
        }
    } else {
        let rest = s.drop_first();
        assert(forall|k: int| 0 <= k < j - 1 ==> !(x.artist_order < #[trigger] rest[k].artist_order));
        lemma_insert_link_at(x, rest, j - 1);
        assert(insert_link(x, s) == seq![s[0]] + insert_link(x, rest));
        assert(seq![s[0]] + (rest.subrange(0, j - 1) + seq![x] + rest.subrange(
            j - 1,
            rest.len() as int,
        )) =~= s.subrange(0, j) + seq![x] + s.subrange(j, s.len() as int));
    }
}

/// The first position in `out` whose element's display order exceeds
/// that of `x`, or the length of `out` if there is none.
fn find_link_pos(x: &ArtistLink, out: &Vec<ArtistLink>) -> (j: usize)
    ensures
        j <= out@.len(),
        forall|k: int| 0 <= k < j ==> !(x.artist_order < #[trigger] out@[k].artist_order),
        j < out@.len() ==> x.artist_order < out@[j as int].artist_order,
{
    let mut j: usize = 0;
    while j < out.len()
        invariant
            j <= out@.len(),
            forall|k: int| 0 <= k < j ==> !(x.artist_order < #[trigger] out@[k].artist_order),
        decreases out@.len() - j,
    {
        if x.artist_order < out[j].artist_order {
            return j;
        }
        j += 1;
    }
    j
}

fn clone_string(s: &String) -> (r: String)
    ensures
        r == *s,
{
    s.clone()
}

fn clone_opt_string(o: &Option<String>) -> (r: Option<String>)
    ensures
        r == *o,
{
    match o {
        Some(s) => Some(s.clone()),
        None => None,
    }
}

fn clone_link(l: &ArtistLink) -> (r: ArtistLink)
    ensures
        r == *l,
{
    ArtistLink {
        owner_id: l.owner_id,
        fingerprint: l.fingerprint.clone(),
        artist_order: l.artist_order,
    }
}

/// The credits among `links` that belong to row id `id`, in given order.
fn filter_credits(links: &Vec<ArtistLink>, id: i64) -> (r: Vec<ArtistLink>)
    ensures
        r@ == links@.filter(credit_of(id)),
{
    let mut out: Vec<ArtistLink> = Vec::new();
    let mut i: usize = 0;
    proof {
        assert(links@.subrange(0, 0).filter(credit_of(id)) =~= out@);
    }
    while i < links.len()
        invariant
            i <= links@.len(),
            out@ == links@.subrange(0, i as int).filter(credit_of(id)),
        decreases links@.len() - i,
    {
        let ghost pre = out@;
        if links[i].owner_id == id {
            let l = clone_link(&links[i]);
            out.push(l);
        }
        proof {
            broadcast use vstd::seq::Seq::lemma_filter_push;

            let head = links@.subrange(0, i as int);
            assert(links@.subrange(0, i + 1) =~= head.push(links@[i as int]));
            assert(credit_of(id)(links@[i as int]) == (links@[i as int].owner_id == id));
        }
        i += 1;
    }
    proof {
        assert(links@.subrange(0, links@.len() as int) =~= links@);
    }
    out
}

/// The credits of `v` stably sorted by display order.
fn sort_credits(v: Vec<ArtistLink>) -> (r: Vec<ArtistLink>)
    ensures
        r@ == sort_links(v@),
{
    let mut out: Vec<ArtistLink> = Vec::new();
    let mut i: usize = 0;
    proof {
        assert(v@.subrange(0, 0) =~= Seq::<ArtistLink>::empty());
        assert(out@ =~= sort_links(v@.subrange(0, 0)));
    }
    while i < v.len()
        invariant
            i <= v@.len(),
            out@ == sort_links(v@.subrange(0, i as int)),
        decreases v@.len() - i,
    {
        let x = clone_link(&v[i]);
        let ghost pre = out@;
        let j = find_link_pos(&x, &out);
        proof {
            lemma_insert_link_at(x, pre, j as int);
        }
        out.insert(j, x);
        proof {
            assert(out@ =~= pre.subrange(0, j as int) + seq![v@[i as int]] + pre.subrange(
                j as int,
                pre.len() as int,
            ));
            assert(v@.subrange(0, i + 1).drop_last() =~= v@.subrange(0, i as int));
            assert(v@.subrange(0, i + 1).last() == v@[i as int]);
        }
        i += 1;
    }
    proof {
        assert(v@.subrange(0, v@.len() as int) =~= v@);
    }
    out
}

/// The displayed artist credits of row id `id`: filtered from `links`
/// and stably sorted by display order.
pub fn credits_for(links: &Vec<ArtistLink>, id: i64) -> (r: Vec<ArtistOrder>)
    ensures
        r@ == credits_of(links@, id),
{
    let filtered = filter_credits(links, id);
    let sorted = sort_credits(filtered);
    let mut out: Vec<ArtistOrder> = Vec::new();
    let mut i: usize = 0;
    while i < sorted.len()
        invariant
            i <= sorted@.len(),
            out@.len() == i,
            forall|k: int|
                0 <= k < i ==> out@[k] == (ArtistOrder {
                    fingerprint: sorted@[k].fingerprint,
                    artist_order: sorted@[k].artist_order,
                }),
        decreases sorted@.len() - i,
    {
        let fp = clone_string(&sorted[i].fingerprint);
        out.push(ArtistOrder { fingerprint: fp, artist_order: sorted[i].artist_order });
        i += 1;
    }
    proof {
        assert(out@ =~= credits_of(links@, id));
    }
    out
}

/// The membership fingerprints of row id `id`, in store order.
pub fn memberships_for(members: &Vec<MemberLink>, id: i64) -> (r: Vec<String>)
    ensures
        r@ == memberships_of(members@, id),
{
    let mut out: Vec<String> = Vec::new();
    let mut i: usize = 0;
    proof {
        assert(members@.subrange(0, 0).filter(member_of(id)) =~= Seq::<MemberLink>::empty());
        assert(out@ =~= memberships_of(members@.subrange(0, 0), id));
    }
    while i < members.len()
        invariant
            i <= members@.len(),
            out@ == memberships_of(members@.subrange(0, i as int), id),
        decreases members@.len() - i,
    {
        let ghost pre = out@;
        if members[i].owner_id == id {
            let fp = clone_string(&members[i].fingerprint);
            out.push(fp);
        }
        proof {
            broadcast use vstd::seq::Seq::lemma_filter_push;

            let head = members@.subrange(0, i as int);
            assert(members@.subrange(0, i + 1) =~= head.push(members@[i as int]));
            assert(member_of(id)(members@[i as int]) == (members@[i as int].owner_id == id));
            assert(memberships_of(members@.subrange(0, i + 1), id) =~= out@);
        }
        i += 1;
    }
    proof {
        assert(members@.subrange(0, members@.len() as int) =~= members@);
    }
    out
}

/// How a hydrated song record relates to its raw row and the relation
/// links: every scalar field carried over, the favorite flag and
/// thumbnail presence decoded, artist credits in display order,
/// playlist memberships in store order.
pub open spec fn song_hydrated(
    s: SongRow,
    raw: RawSongRow,
    links: Seq<ArtistLink>,
    members: Seq<MemberLink>,
) -> bool {
    &&& s.fingerprint == raw.fingerprint
    &&& s.name == raw.name
    &&& s.duration == raw.duration
    &&& s.release_year == raw.release_year
    &&& s.is_favorite == (raw.is_favorite != 0)
    &&& s.lyrics == raw.lyrics
    &&& s.file == raw.file
    &&& s.has_thumbnail == (raw.thumbnail is Some)
    &&& s.album_fingerprint == raw.album_fingerprint
    &&& s.artist_fingerprints@ == credits_of(links, raw.id)
    &&& s.playlist_fingerprints@ == memberships_of(members, raw.id)
}

/// How a hydrated album record relates to its raw row and links.
pub open spec fn album_hydrated(a: AlbumRow, raw: RawAlbumRow, links: Seq<ArtistLink>) -> bool {
    &&& a.fingerprint == raw.fingerprint
    &&& a.name == raw.name
    &&& a.album_type == raw.album_type
    &&& a.release_year == raw.release_year
    &&& a.is_favorite == (raw.is_favorite != 0)
    &&& a.has_thumbnail == (raw.thumbnail is Some)
    &&& a.artist_fingerprints@ == credits_of(links, raw.id)
}

/// How a hydrated artist record relates to its raw row.
pub open spec fn artist_hydrated(a: ArtistRow, raw: RawArtistRow) -> bool {
    &&& a.fingerprint == raw.fingerprint
    &&& a.name == raw.name
    &&& a.is_favorite == (raw.is_favorite != 0)
    &&& a.has_thumbnail == (raw.thumbnail is Some)
}

/// How a hydrated playlist record relates to its raw row and
/// memberships.
pub open spec fn playlist_hydrated(
    p: PlaylistRow,
    raw: RawPlaylistRow,
    members: Seq<MemberLink>,
) -> bool {
    &&& p.fingerprint == raw.fingerprint
    &&& p.name == raw.name
    &&& p.is_favorite == (raw.is_favorite != 0)
    &&& p.has_thumbnail == (raw.thumbnail is Some)
    &&& p.song_fingerprints@ == memberships_of(members, raw.id)
}

/// Hydrates each raw song row, in order, against the relation links.
pub fn hydrate_songs(
    raws: &Vec<RawSongRow>,
    artist_links: &Vec<ArtistLink>,
    playlist_links: &Vec<MemberLink>,
) -> (r: Vec<SongRow>)
    ensures
        r@.len() == raws@.len(),
        forall|i: int|
            0 <= i < r@.len() ==> song_hydrated(
                #[trigger] r@[i],
                raws@[i],
                artist_links@,
                playlist_links@,
            ),
{
    let mut out: Vec<SongRow> = Vec::new();
    let mut i: usize = 0;
    while i < raws.len()
        invariant
            i <= raws@.len(),
            out@.len() == i,
            forall|k: int|
                0 <= k < i ==> song_hydrated(
                    #[trigger] out@[k],
                    raws@[k],
                    artist_links@,
                    playlist_links@,
                ),
        decreases raws@.len() - i,
    {
        let raw = &raws[i];
        let credits = credits_for(artist_links, raw.id);
        let pls = memberships_for(playlist_links, raw.id);
        let has_thumbnail = raw.thumbnail.is_some();
        let row = SongRow {
            fingerprint: clone_string(&raw.fingerprint),
            name: clone_string(&raw.name),
            duration: raw.duration,
            release_year: raw.release_year,
            is_favorite: raw.is_favorite != 0,
            lyrics: clone_opt_string(&raw.lyrics),
            file: clone_string(&raw.file),
            has_thumbnail,
            album_fingerprint: clone_opt_string(&raw.album_fingerprint),
            artist_fingerprints: credits,
            playlist_fingerprints: pls,
        };
        out.push(row);
        i += 1;
    }
    out
}

/// Hydrates each raw album row, in order, against the credit links.
pub fn hydrate_albums(raws: &Vec<RawAlbumRow>, artist_links: &Vec<ArtistLink>) -> (r: Vec<
    AlbumRow,
>)
    ensures
        r@.len() == raws@.len(),
        forall|i: int|
            0 <= i < r@.len() ==> album_hydrated(#[trigger] r@[i], raws@[i], artist_links@),
{
    let mut out: Vec<AlbumRow> = Vec::new();
    let mut i: usize = 0;
    while i < raws.len()
        invariant
            i <= raws@.len(),
            out@.len() == i,
            forall|k: int|
                0 <= k < i ==> album_hydrated(#[trigger] out@[k], raws@[k], artist_links@),
        decreases raws@.len() - i,
    {
        let raw = &raws[i];
        let credits = credits_for(artist_links, raw.id);
        let has_thumbnail = raw.thumbnail.is_some();
        let row = AlbumRow {
            fingerprint: clone_string(&raw.fingerprint),
            name: clone_string(&raw.name),
            album_type: clone_string(&raw.album_type),
            release_year: raw.release_year,
            is_favorite: raw.is_favorite != 0,
            has_thumbnail,
            artist_fingerprints: credits,
        };
        out.push(row);
        i += 1;
    }
    out
}

/// Hydrates each raw artist row, in order.
pub fn hydrate_artists(raws: &Vec<RawArtistRow>) -> (r: Vec<ArtistRow>)
    ensures
        r@.len() == raws@.len(),
        forall|i: int| 0 <= i < r@.len() ==> artist_hydrated(#[trigger] r@[i], raws@[i]),
{
    let mut out: Vec<ArtistRow> = Vec::new();
    let mut i: usize = 0;
    while i < raws.len()
        invariant
            i <= raws@.len(),
            out@.len() == i,
            forall|k: int| 0 <= k < i ==> artist_hydrated(#[trigger] out@[k], raws@[k]),
        decreases raws@.len() - i,
    {
        let raw = &raws[i];
        let has_thumbnail = raw.thumbnail.is_some();
        let row = ArtistRow {
            fingerprint: clone_string(&raw.fingerprint),
            name: clone_string(&raw.name),
            is_favorite: raw.is_favorite != 0,
            has_thumbnail,
        };
        out.push(row);
        i += 1;
    }
    out
}

/// Hydrates each raw playlist row, in order, against the memberships.
pub fn hydrate_playlists(raws: &Vec<RawPlaylistRow>, song_links: &Vec<MemberLink>) -> (r: Vec<
    PlaylistRow,
>)
    ensures
        r@.len() == raws@.len(),
        forall|i: int|
            0 <= i < r@.len() ==> playlist_hydrated(#[trigger] r@[i], raws@[i], song_links@),
{
    let mut out: Vec<PlaylistRow> = Vec::new();
    let mut i: usize = 0;
    while i < raws.len()
        invariant
            i <= raws@.len(),
            out@.len() == i,
            forall|k: int|
                0 <= k < i ==> playlist_hydrated(#[trigger] out@[k], raws@[k], song_links@),
        decreases raws@.len() - i,
    {
        let raw = &raws[i];
        let songs = memberships_for(song_links, raw.id);
        let has_thumbnail = raw.thumbnail.is_some();
        let row = PlaylistRow {
            fingerprint: clone_string(&raw.fingerprint),
            name: clone_string(&raw.name),
            is_favorite: raw.is_favorite != 0,
            has_thumbnail,
            song_fingerprints: songs,
        };
        out.push(row);
        i += 1;
    }
    out
}

} // verus!
