//! Deterministic content fingerprinting of catalog entities. An entity's
//! identity fields are canonicalized, composed into a colon-joined,
//! type-tagged identity string, and hashed; the fingerprint is the
//! lowercase hexadecimal digest. Identical logical identities therefore
//! always yield identical fingerprints, on every device.

use vstd::prelude::*;

use crate::join::{
    join_commas, lemma_join_len, lemma_sum_len_multiset, lemma_sum_len_push, sum_len,
};
use crate::norm::{norm_spec, normalize_string};
use crate::numfmt::{dec_int, i64_to_string, lemma_dec_int_injective};
use crate::order::{lex_leq, sort_strings, views_of};
use crate::text::{lemma_concat_cancel_left, lemma_concat_cancel_right};

use sha2::Digest;

verus! {

broadcast use vstd::seq::group_seq_axioms;

/// What the SHA-256 digest of the UTF-8 encoding of `s` is. Named, not
/// defined: nothing in this crate recomputes the hash function.
pub uninterp spec fn sha256_of(s: Seq<char>) -> Seq<u8>;

/// Relies on sha2's Sha256 through the Digest trait: the digest is a pure
/// function of the input bytes, 32 bytes long.
#[verifier::external_body]
fn sha256_bytes(s: &str) -> (r: Vec<u8>)
    ensures
        r@ == sha256_of(s@),
        r@.len() == 32,
{
    sha2::Sha256::digest(s.as_bytes()).as_slice().to_vec()
}

/// The character for a single hexadecimal digit value, lowercase.
pub open spec fn hex_digit(d: int) -> char {
    if d == 0 {
        '0'
    } else if d == 1 {
        '1'
    } else if d == 2 {
        '2'
    } else if d == 3 {
        '3'
    } else if d == 4 {
        '4'
    } else if d == 5 {
        '5'
    } else if d == 6 {
        '6'
    } else if d == 7 {
        '7'
    } else if d == 8 {
        '8'
    } else if d == 9 {
        '9'
    } else if d == 10 {
        'a'
    } else if d == 11 {
        'b'
    } else if d == 12 {
        'c'
    } else if d == 13 {
        'd'
    } else if d == 14 {
        'e'
    } else {
        'f'
    }
}

/// The lowercase hexadecimal rendering of the bytes from index `i` on,
/// two digits per byte.
pub open spec fn hex_from(bytes: Seq<u8>, i: int) -> Seq<char>
    decreases bytes.len() - i,
{
    if i < 0 || i >= bytes.len() {
        Seq::empty()
    } else {
        seq![hex_digit(bytes[i] as int / 16), hex_digit(bytes[i] as int % 16)] + hex_from(
            bytes,
            i + 1,
        )
    }
}

/// The lowercase hexadecimal rendering of a byte string.
pub open spec fn hex_of(bytes: Seq<u8>) -> Seq<char> {
    hex_from(bytes, 0)
}

/// Whether `c` is a lowercase hexadecimal digit.
pub open spec fn is_lower_hex_char(c: char) -> bool {
    c == '0' || c == '1' || c == '2' || c == '3' || c == '4' || c == '5' || c == '6' || c == '7'
        || c == '8' || c == '9' || c == 'a' || c == 'b' || c == 'c' || c == 'd' || c == 'e'
        || c == 'f'
}

/// A hexadecimal rendering is two lowercase hex digits per byte.
pub proof fn lemma_hex_from_shape(bytes: Seq<u8>, i: int)
    requires
        0 <= i <= bytes.len(),
    ensures
        hex_from(bytes, i).len() == 2 * (bytes.len() - i),
        forall|k: int|
            0 <= k < hex_from(bytes, i).len() ==> is_lower_hex_char(#[trigger] hex_from(
                bytes,
                i,
            )[k]),
    decreases bytes.len() - i,
{
    if i < bytes.len() {
        lemma_hex_from_shape(bytes, i + 1);
        let pair = seq![hex_digit(bytes[i] as int / 16), hex_digit(bytes[i] as int % 16)];
        assert(is_lower_hex_char(pair[0]));
        assert(is_lower_hex_char(pair[1]));
        assert forall|k: int| 0 <= k < hex_from(bytes, i).len() implies is_lower_hex_char(
            #[trigger] hex_from(bytes, i)[k],
        ) by {
            if k >= 2 {
                assert(hex_from(bytes, i)[k] == hex_from(bytes, i + 1)[k - 2]);
            }
        }
    }
}

fn hex_char(d: u8) -> (c: char)
    requires
        d < 16,
    ensures
        c == hex_digit(d as int),
{
    if d == 0 {
        '0'
    } else if d == 1 {
        '1'
    } else if d == 2 {
        '2'
    } else if d == 3 {
        '3'
    } else if d == 4 {
        '4'
    } else if d == 5 {
        '5'
    } else if d == 6 {
        '6'
    } else if d == 7 {
        '7'
    } else if d == 8 {
        '8'
    } else if d == 9 {
        '9'
    } else if d == 10 {
        'a'
    } else if d == 11 {
        'b'
    } else if d == 12 {
        'c'
    } else if d == 13 {
        'd'
    } else if d == 14 {
        'e'
    } else {
        'f'
    }
}

/// The lowercase hexadecimal rendering of a byte string.
pub fn bytes_to_hex(bytes: &Vec<u8>) -> (r: String)
    ensures
        r@ == hex_of(bytes@),
{
    let mut out = String::new();
    let mut i: usize = 0;
    while i < bytes.len()
        invariant
            i <= bytes@.len(),
            out@ + hex_from(bytes@, i as int) == hex_of(bytes@),
        decreases bytes@.len() - i,
    {
        let b = bytes[i];
        let ghost pre = out@;
        crate::text::push_char(&mut out, hex_char(b / 16));
        crate::text::push_char(&mut out, hex_char(b % 16));
        proof {
            assert(hex_from(bytes@, i as int) == seq![
                hex_digit(b as int / 16),
                hex_digit(b as int % 16),
            ] + hex_from(bytes@, i + 1));
            assert(out@ + hex_from(bytes@, i + 1) =~= pre + hex_from(bytes@, i as int));
        }
        i += 1;
    }
    proof {
        assert(hex_from(bytes@, bytes@.len() as int) =~= Seq::<char>::empty());
        assert(out@ =~= hex_of(bytes@));
    }
    out
}

/// The fingerprint of an identity string: the lowercase hexadecimal
/// SHA-256 digest of its UTF-8 encoding.
pub open spec fn fingerprint_of(identity: Seq<char>) -> Seq<char> {
    hex_of(sha256_of(identity))
}

fn hash_string(input: &str) -> (r: String)
    ensures
        r@ == fingerprint_of(input@),
        r@.len() == 64,
        forall|i: int| 0 <= i < r@.len() ==> is_lower_hex_char(#[trigger] r@[i]),
{
    let bytes = sha256_bytes(input);
    proof {
        lemma_hex_from_shape(bytes@, 0);
    }
    bytes_to_hex(&bytes)
}

/// The canonical forms of a list of textual fields.
pub open spec fn norms_of(names: Seq<Seq<char>>) -> Seq<Seq<char>> {
    names.map_values(|n: Seq<char>| norm_spec(n))
}

/// The artist portion of an identity string: canonical artist names,
/// sorted lexicographically (so credit order cannot matter), joined
/// with commas.
pub open spec fn artists_key(artists: Seq<Seq<char>>) -> Seq<char> {
    join_commas(norms_of(artists).sort_by(lex_leq()))
}

/// The view of an optional textual field.
pub open spec fn opt_view(o: Option<&str>) -> Option<Seq<char>> {
    match o {
        Some(s) => Some(s@),
        None => None,
    }
}

/// The album portion of a song identity: the canonical album name, or
/// empty when the song has no album.
pub open spec fn album_part(album: Option<Seq<char>>) -> Seq<char> {
    match album {
        Some(a) => norm_spec(a),
        None => Seq::empty(),
    }
}

/// The identity string of a song: tag, canonical name, duration in
/// seconds, sorted canonical artist names, canonical album name.
pub open spec fn song_identity(
    name: Seq<char>,
    duration: int,
    artists: Seq<Seq<char>>,
    album: Option<Seq<char>>,
) -> Seq<char> {
    seq!['s', 'o', 'n', 'g', ':'] + norm_spec(name) + seq![':'] + dec_int(duration) + seq![':']
        + artists_key(artists) + seq![':'] + album_part(album)
}

/// The identity string of an album: tag, canonical name, canonical album
/// type, sorted canonical artist names.
pub open spec fn album_identity(name: Seq<char>, album_type: Seq<char>, artists: Seq<Seq<char>>) -> Seq<
    char,
> {
    seq!['a', 'l', 'b', 'u', 'm', ':'] + norm_spec(name) + seq![':'] + norm_spec(album_type)
        + seq![':'] + artists_key(artists)
}

/// The identity string of an artist: tag and canonical name.
pub open spec fn artist_identity(name: Seq<char>) -> Seq<char> {
    seq!['a', 'r', 't', 'i', 's', 't', ':'] + norm_spec(name)
}

/// The identity string of a playlist: tag and canonical name.
pub open spec fn playlist_identity(name: Seq<char>) -> Seq<char> {
    seq!['p', 'l', 'a', 'y', 'l', 'i', 's', 't', ':'] + norm_spec(name)
}

/// Each name of `names` in canonical form, in order.
fn normalize_all(names: &Vec<String>) -> (r: Vec<String>)
    ensures
        views_of(r@) == norms_of(views_of(names@)),
{
    let mut out: Vec<String> = Vec::new();
    let mut i: usize = 0;
    while i < names.len()
        invariant
            i <= names@.len(),
            out@.len() == i,
            forall|k: int| 0 <= k < i ==> out@[k]@ == norm_spec(names@[k]@),
        decreases names@.len() - i,
    {
        let n = normalize_string(names[i].as_str());
        out.push(n);
        i += 1;
    }
    proof {
        assert(views_of(out@) =~= norms_of(views_of(names@)));
    }
    out
}

/// The comma-joined, lexicographically sorted, canonical artist names.
fn build_artists_key(artist_names: &Vec<String>) -> (r: String)
    ensures
        r@ == artists_key(views_of(artist_names@)),
{
    let normed = normalize_all(artist_names);
    let sorted = sort_strings(&normed);
    crate::join::join_with_commas(&sorted)
}

/// The fingerprint of a song with the given identity fields.
pub fn generate_song_fingerprint(
    name: &str,
    duration: i64,
    artist_names: &Vec<String>,
    album_name: Option<&str>,
) -> (r: String)
    ensures
        r@ == fingerprint_of(
            song_identity(name@, duration as int, views_of(artist_names@), opt_view(album_name)),
        ),
        r@.len() == 64,
        forall|i: int| 0 <= i < r@.len() ==> is_lower_hex_char(#[trigger] r@[i]),
{
    let normalized_name = normalize_string(name);
    let artists_str = build_artists_key(artist_names);
    let normalized_album = match album_name {
        Some(a) => normalize_string(a),
        None => String::new(),
    };
    let dur = i64_to_string(duration);
    let mut input = String::new();
    input.append("song:");
    input.append(normalized_name.as_str());
    input.append(":");
    input.append(dur.as_str());
    input.append(":");
    input.append(artists_str.as_str());
    input.append(":");
    input.append(normalized_album.as_str());
    proof {
        reveal_strlit("song:");
        reveal_strlit(":");
        assert("song:"@ =~= seq!['s', 'o', 'n', 'g', ':']);
        assert(":"@ =~= seq![':']);
        assert(input@ =~= song_identity(
            name@,
            duration as int,
            views_of(artist_names@),
            opt_view(album_name),
        ));
    }
    hash_string(input.as_str())
}

/// The fingerprint of an album with the given identity fields.
pub fn generate_album_fingerprint(
    name: &str,
    album_type: &str,
    artist_names: &Vec<String>,
) -> (r: String)
    ensures
        r@ == fingerprint_of(album_identity(name@, album_type@, views_of(artist_names@))),
        r@.len() == 64,
        forall|i: int| 0 <= i < r@.len() ==> is_lower_hex_char(#[trigger] r@[i]),
{
    let normalized_name = normalize_string(name);
    let normalized_type = normalize_string(album_type);
    let artists_str = build_artists_key(artist_names);
    let mut input = String::new();
    input.append("album:");
    input.append(normalized_name.as_str());
    input.append(":");
    input.append(normalized_type.as_str());
    input.append(":");
    input.append(artists_str.as_str());
    proof {
        reveal_strlit("album:");
        reveal_strlit(":");
        assert("album:"@ =~= seq!['a', 'l', 'b', 'u', 'm', ':']);
        assert(":"@ =~= seq![':']);
        assert(input@ =~= album_identity(name@, album_type@, views_of(artist_names@)));
    }
    hash_string(input.as_str())
}

/// The fingerprint of an artist with the given name.
pub fn generate_artist_fingerprint(name: &str) -> (r: String)
    ensures
        r@ == fingerprint_of(artist_identity(name@)),
        r@.len() == 64,
        forall|i: int| 0 <= i < r@.len() ==> is_lower_hex_char(#[trigger] r@[i]),
{
    let normalized_name = normalize_string(name);
    let mut input = String::new();
    input.append("artist:");
    input.append(normalized_name.as_str());
    proof {
        reveal_strlit("artist:");
        assert("artist:"@ =~= seq!['a', 'r', 't', 'i', 's', 't', ':']);
        assert(input@ =~= artist_identity(name@));
    }
    hash_string(input.as_str())
}

/// The fingerprint of a playlist with the given name.
pub fn generate_playlist_fingerprint(name: &str) -> (r: String)
    ensures
        r@ == fingerprint_of(playlist_identity(name@)),
        r@.len() == 64,
        forall|i: int| 0 <= i < r@.len() ==> is_lower_hex_char(#[trigger] r@[i]),
{
    let normalized_name = normalize_string(name);
    let mut input = String::new();
    input.append("playlist:");
    input.append(normalized_name.as_str());
    proof {
        reveal_strlit("playlist:");
        assert("playlist:"@ =~= seq!['p', 'l', 'a', 'y', 'l', 'i', 's', 't', ':']);
        assert(input@ =~= playlist_identity(name@));
    }
    hash_string(input.as_str())
}

/// A song fingerprint depends only on the canonicalized identity: any
/// formatting of the name and album and any ordering of the artist
/// credits that canonicalize alike give the identical identity string,
/// hence the identical fingerprint.
pub proof fn lemma_song_identity_canonical(
    n1: Seq<char>,
    n2: Seq<char>,
    d: int,
    a1: Seq<Seq<char>>,
    a2: Seq<Seq<char>>,
    al1: Option<Seq<char>>,
    al2: Option<Seq<char>>,
)
    requires
        norm_spec(n1) == norm_spec(n2),
        norms_of(a1).to_multiset() == norms_of(a2).to_multiset(),
        album_part(al1) == album_part(al2),
    ensures
        song_identity(n1, d, a1, al1) == song_identity(n2, d, a2, al2),
{
    lemma_artists_key_permutation(a1, a2);
}

/// An album fingerprint depends only on the canonicalized identity, in
/// the same way.
pub proof fn lemma_album_identity_canonical(
    n1: Seq<char>,
    n2: Seq<char>,
    t1: Seq<char>,
    t2: Seq<char>,
    a1: Seq<Seq<char>>,
    a2: Seq<Seq<char>>,
)
    requires
        norm_spec(n1) == norm_spec(n2),
        norm_spec(t1) == norm_spec(t2),
        norms_of(a1).to_multiset() == norms_of(a2).to_multiset(),
    ensures
        album_identity(n1, t1, a1) == album_identity(n2, t2, a2),
{
    lemma_artists_key_permutation(a1, a2);
}

/// Artist lists whose canonical forms are the same multiset give the
/// same artist portion of an identity string.
pub proof fn lemma_artists_key_permutation(a1: Seq<Seq<char>>, a2: Seq<Seq<char>>)
    requires
        norms_of(a1).to_multiset() == norms_of(a2).to_multiset(),
    ensures
        artists_key(a1) == artists_key(a2),
{
    let leq = lex_leq();
    crate::order::lemma_lex_total_ordering();
    norms_of(a1).lemma_sort_by_ensures(leq);
    norms_of(a2).lemma_sort_by_ensures(leq);
    vstd::seq_lib::lemma_sorted_unique(norms_of(a1).sort_by(leq), norms_of(a2).sort_by(leq), leq);
}

/// Two songs that differ in duration have different identity strings;
/// distinct identity strings are what the engine hands to the hash.
pub proof fn lemma_song_identity_duration_sensitive(
    name: Seq<char>,
    d1: int,
    d2: int,
    artists: Seq<Seq<char>>,
    album: Option<Seq<char>>,
)
    requires
        d1 != d2,
    ensures
        song_identity(name, d1, artists, album) != song_identity(name, d2, artists, album),
{
    let p = seq!['s', 'o', 'n', 'g', ':'] + norm_spec(name) + seq![':'];
    let s = seq![':'] + artists_key(artists) + seq![':'] + album_part(album);
    if song_identity(name, d1, artists, album) == song_identity(name, d2, artists, album) {
        assert(song_identity(name, d1, artists, album) =~= p + (dec_int(d1) + s));
        assert(song_identity(name, d2, artists, album) =~= p + (dec_int(d2) + s));
        lemma_concat_cancel_left(p, dec_int(d1) + s, dec_int(d2) + s);
        lemma_concat_cancel_right(dec_int(d1), dec_int(d2), s);
        lemma_dec_int_injective(d1, d2);
    }
}

/// Crediting one more artist (whose canonical name is nonempty) changes
/// a song's identity string: the artist portion, and with it the whole
/// identity, becomes strictly longer.
pub proof fn lemma_song_identity_artist_added(
    name: Seq<char>,
    d: int,
    artists: Seq<Seq<char>>,
    extra: Seq<char>,
    album: Option<Seq<char>>,
)
    requires
        norm_spec(extra).len() > 0,
    ensures
        song_identity(name, d, artists.push(extra), album) != song_identity(
            name,
            d,
            artists,
            album,
        ),
{
    broadcast use vstd::seq_lib::group_to_multiset_ensures;

    let leq = lex_leq();
    crate::order::lemma_lex_total_ordering();
    let m = norms_of(artists);
    let me = norm_spec(extra);
    assert(norms_of(artists.push(extra)) =~= m.push(me));
    let s1 = m.sort_by(leq);
    let s2 = m.push(me).sort_by(leq);
    m.lemma_sort_by_ensures(leq);
    m.push(me).lemma_sort_by_ensures(leq);
    lemma_sum_len_multiset(s1, m);
    lemma_sum_len_multiset(s2, m.push(me));
    lemma_sum_len_push(m, me);
    assert(s1.to_multiset().len() == s1.len());
    assert(m.to_multiset().len() == m.len());
    assert(s2.to_multiset().len() == s2.len());
    assert(m.push(me).to_multiset().len() == m.push(me).len());
    assert(s1.len() == m.len());
    assert(s2.len() == m.len() + 1);
    lemma_join_len(s1);
    lemma_join_len(s2);
    assert(join_commas(s2).len() > join_commas(s1).len());
    assert(song_identity(name, d, artists.push(extra), album).len() != song_identity(
        name,
        d,
        artists,
        album,
    ).len());
}

} // verus!
