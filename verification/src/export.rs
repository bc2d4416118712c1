//! Layout of the manual export bundle: one track per directory under a
//! fixed root, each with its metadata entry beside the audio and
//! thumbnail files. The entry names are composed here; writing the
//! archive is the embedding process's business.

use vstd::prelude::*;

verus! {

broadcast use vstd::seq::group_seq_axioms;

/// What one exported track carries into a bundle.
#[derive(Debug)]
pub struct TrackExportData {
    pub dir_name: String,
    pub audio_file: String,
    pub thumbnails: Vec<String>,
    pub metadata_json: String,
}

/// The bundle directory of one track.
pub fn track_dir(track: &TrackExportData) -> (r: String)
    ensures
        r@ == "tracks/"@ + track.dir_name@,
{
    let mut out = String::new();
    out.append("tracks/");
    out.append(track.dir_name.as_str());
    out
}

/// The bundle entry for a file inside a track's directory.
pub fn track_entry(dir: &str, file_name: &str) -> (r: String)
    ensures
        r@ == dir@ + seq!['/'] + file_name@,
{
    let mut out = String::new();
    out.append(dir);
    out.append("/");
    out.append(file_name);
    proof {
        reveal_strlit("/");
        assert("/"@ =~= seq!['/']);
        assert(out@ =~= dir@ + seq!['/'] + file_name@);
    }
    out
}

/// The bundle entry of a track's metadata document.
pub fn metadata_entry(dir: &str) -> (r: String)
    ensures
        r@ == dir@ + seq!['/'] + "metadata.json"@,
{
    track_entry(dir, "metadata.json")
}

/// The file name of a bundle stamped with the given timestamp.
pub fn bundle_file_name(timestamp: &str) -> (r: String)
    ensures
        r@ == "Tunno_FastUpload_"@ + timestamp@ + ".zip"@,
{
    let mut out = String::new();
    out.append("Tunno_FastUpload_");
    out.append(timestamp);
    out.append(".zip");
    proof {
        assert(out@ =~= "Tunno_FastUpload_"@ + timestamp@ + ".zip"@);
    }
    out
}

} // verus!
