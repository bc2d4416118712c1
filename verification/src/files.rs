//! File-serving decisions: the fixed extension-to-MIME table, extension
//! extraction from a resolved path, and the response outcome for a
//! fingerprint-keyed file request. Reading bytes off disk is the
//! caller's business; every decision about the response is made here.

use vstd::prelude::*;

use crate::text::str_eq;

verus! {

broadcast use vstd::seq::group_seq_axioms;

/// The MIME type for a file extension: a fixed table, with a generic
/// binary type for anything unknown.
pub open spec fn content_type_spec(ext: Seq<char>) -> Seq<char> {
    if ext == "mp3"@ {
        "audio/mpeg"@
    } else if ext == "m4a"@ || ext == "aac"@ {
        "audio/mp4"@
    } else if ext == "ogg"@ || ext == "oga"@ {
        "audio/ogg"@
    } else if ext == "flac"@ {
        "audio/flac"@
    } else if ext == "wav"@ {
        "audio/wav"@
    } else if ext == "wma"@ {
        "audio/x-ms-wma"@
    } else if ext == "opus"@ {
        "audio/opus"@
    } else if ext == "webm"@ {
        "audio/webm"@
    } else if ext == "jpg"@ || ext == "jpeg"@ {
        "image/jpeg"@
    } else if ext == "png"@ {
        "image/png"@
    } else if ext == "webp"@ {
        "image/webp"@
    } else {
        "application/octet-stream"@
    }
}

/// The MIME type for a file extension.
pub fn content_type_for_extension(ext: &str) -> (r: &'static str)
    ensures
        r@ == content_type_spec(ext@),
{
    if str_eq(ext, "mp3") {
        "audio/mpeg"
    } else if str_eq(ext, "m4a") || str_eq(ext, "aac") {
        "audio/mp4"
    } else if str_eq(ext, "ogg") || str_eq(ext, "oga") {
        "audio/ogg"
    } else if str_eq(ext, "flac") {
        "audio/flac"
    } else if str_eq(ext, "wav") {
        "audio/wav"
    } else if str_eq(ext, "wma") {
        "audio/x-ms-wma"
    } else if str_eq(ext, "opus") {
        "audio/opus"
    } else if str_eq(ext, "webm") {
        "audio/webm"
    } else if str_eq(ext, "jpg") || str_eq(ext, "jpeg") {
        "image/jpeg"
    } else if str_eq(ext, "png") {
        "image/png"
    } else if str_eq(ext, "webp") {
        "image/webp"
    } else {
        "application/octet-stream"
    }
}

/// The index of the last occurrence of `c` in `s`, or -1 if none.
pub open spec fn last_occurrence(s: Seq<char>, c: char) -> int
    decreases s.len(),
{
    if s.len() == 0 {
        -1
    } else if s.last() == c {
        s.len() - 1
    } else {
        last_occurrence(s.drop_last(), c)
    }
}

/// The extension of the file named by `path`: what follows the last
/// dot of the final path component, empty when that component has no
/// dot, or none but a leading one.
pub open spec fn ext_spec(path: Seq<char>) -> Seq<char> {
    let d = last_occurrence(path, '.');
    let sl = last_occurrence(path, '/');
    if d > sl + 1 {
        path.skip(d + 1)
    } else {
        Seq::empty()
    }
}

proof fn lemma_last_occurrence_bounds(s: Seq<char>, c: char)
    ensures
        -1 <= last_occurrence(s, c) < s.len(),
    decreases s.len(),
{
    if s.len() > 0 && s.last() != c {
        lemma_last_occurrence_bounds(s.drop_last(), c);
    }
}

/// The index one past the last occurrence of `c` in `s`, as an
/// executable scan; 0 if none.
fn last_occurrence_end(s: &str, c: char) -> (r: usize)
    ensures
        r as int == last_occurrence(s@, c) + 1,
        r <= s@.len(),
{
    proof {
        lemma_last_occurrence_bounds(s@, c);
    }
    let n = s.unicode_len();
    let mut best: usize = 0;
    let mut i: usize = 0;
    proof {
        assert(s@.subrange(0, 0) =~= Seq::<char>::empty());
    }
    while i < n
        invariant
            i <= n,
            n == s@.len(),
            best as int == last_occurrence(s@.subrange(0, i as int), c) + 1,
        decreases n - i,
    {
        let ch = s.get_char(i);
        proof {
            let t = s@.subrange(0, i + 1);
            assert(t.drop_last() =~= s@.subrange(0, i as int));
            assert(t.last() == s@[i as int]);
        }
        if ch == c {
            best = i + 1;
        }
        i += 1;
    }
    proof {
        assert(s@.subrange(0, n as int) =~= s@);
    }
    best
}

/// The extension of the file named by `path`.
pub fn extension_of(path: &str) -> (r: String)
    ensures
        r@ == ext_spec(path@),
{
    let n = path.unicode_len();
    let dot_end = last_occurrence_end(path, '.');
    let slash_end = last_occurrence_end(path, '/');
    if dot_end >= 2 && dot_end - 2 >= slash_end {
        let r = String::from_str(path.substring_char(dot_end, n));
        proof {
            assert(r@ =~= path@.skip(last_occurrence(path@, '.') + 1));
        }
        r
    } else {
        let r = String::new();
        proof {
            assert(r@ =~= ext_spec(path@));
        }
        r
    }
}

/// What a file request is answered with.
pub enum ServeOutcome {
    /// Serve the file at this path with this MIME type.
    Serve(String, String),
    /// The fingerprint resolves to no record, or the file is gone.
    NotFound,
    /// The store lookup itself failed, with its message.
    StoreError(String),
}

/// The HTTP status for an outcome.
pub fn status_for(outcome: &ServeOutcome) -> (r: u16)
    ensures
        (outcome is Serve) == (r == 200),
        (outcome is NotFound) == (r == 404),
        (outcome is StoreError) == (r == 500),
{
    match outcome {
        ServeOutcome::Serve(_, _) => 200,
        ServeOutcome::NotFound => 404,
        ServeOutcome::StoreError(_) => 500,
    }
}

/// Decides a file request from the store lookup and the file's
/// presence on disk: a resolved, present file is served with the MIME
/// type of its extension; an unknown fingerprint or an absent file is
/// not-found; a store failure is a server error carrying its message.
pub fn serve_decision(lookup: Result<Option<String>, String>, file_exists: bool) -> (r:
    ServeOutcome)
    ensures
        (match lookup {
            Ok(Some(p)) => if file_exists {
                r matches ServeOutcome::Serve(path, ct) && path == p && ct@ == content_type_spec(
                    ext_spec(p@),
                )
            } else {
                r is NotFound
            },
            Ok(None) => r is NotFound,
            Err(e) => (r matches ServeOutcome::StoreError(m) && m == e),
        }),
{
    match lookup {
        Ok(Some(p)) => {
            if file_exists {
                let ext = extension_of(p.as_str());
                let ct = content_type_for_extension(ext.as_str());
                let ct_string = String::from_str(ct);
                ServeOutcome::Serve(p, ct_string)
            } else {
                ServeOutcome::NotFound
            }
        },
        Ok(None) => ServeOutcome::NotFound,
        Err(e) => ServeOutcome::StoreError(e),
    }
}

} // verus!
