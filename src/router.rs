use vstd::prelude::*;

use crate::outside::{extension_of, lower_of, path_extension, path_stem, stem_of, to_lower};
use crate::error::OrchestratorError;
use crate::task::text_eq;

verus! {

/// Registry key of the transcription worker.
pub const TRANSCRIPTION_WORKER: &'static str = "vitra_lag";

/// Registry key of the generation worker, also the default route.
pub const GENERATION_WORKER: &'static str = "ghost_lag";

/// The lower-cased extension of a path, if it has one.
pub open spec fn lowered_extension(p: Seq<char>) -> Option<Seq<char>> {
    match path_extension(p) {
        Some(e) => Some(lower_of(e)),
        None => None,
    }
}

/// Extensions of audio and video files.
pub open spec fn is_media_ext(e: Seq<char>) -> bool {
    e == "mp3"@ || e == "wav"@ || e == "flac"@ || e == "aac"@ || e == "ogg"@ || e == "m4a"@
        || e == "mp4"@ || e == "avi"@ || e == "mkv"@ || e == "mov"@ || e == "wmv"@ || e
        == "flv"@ || e == "webm"@
}

/// Extensions of text-based files.
pub open spec fn is_text_ext(e: Seq<char>) -> bool {
    e == "txt"@ || e == "md"@ || e == "json"@ || e == "xml"@ || e == "html"@ || e == "css"@
        || e == "js"@ || e == "ts"@ || e == "rs"@ || e == "py"@
}

/// Extensions that the router sends to the transcription worker.
pub open spec fn is_transcription_ext(e: Seq<char>) -> bool {
    e == "mp3"@ || e == "wav"@ || e == "mp4"@ || e == "avi"@ || e == "mov"@
}

/// The routing table: transcription for audio and video, generation for
/// everything else (documents and unknown types alike).
pub open spec fn route(e: Seq<char>) -> Seq<char> {
    if is_transcription_ext(e) {
        TRANSCRIPTION_WORKER@
    } else {
        GENERATION_WORKER@
    }
}

/// The worker that a file path is routed to.
pub open spec fn route_for_path(p: Seq<char>) -> Seq<char> {
    match lowered_extension(p) {
        Some(e) => route(e),
        None => route(Seq::empty()),
    }
}

/// The lower-cased extension of `file_path`, if it has one.
pub fn get_file_extension(file_path: &str) -> (r: Option<String>)
    ensures
        match r {
            Some(e) => lowered_extension(file_path@) == Some(e@),
            None => lowered_extension(file_path@) is None,
        },
{
    match extension_of(file_path) {
        Some(e) => Some(to_lower(e.as_str())),
        None => None,
    }
}

/// Whether a lower-cased extension is one of audio or video.
pub fn is_media_extension(ext: &str) -> (r: bool)
    ensures
        r == is_media_ext(ext@),
{
    text_eq(ext, "mp3") || text_eq(ext, "wav") || text_eq(ext, "flac") || text_eq(ext, "aac")
        || text_eq(ext, "ogg") || text_eq(ext, "m4a") || text_eq(ext, "mp4") || text_eq(ext, "avi")
        || text_eq(ext, "mkv") || text_eq(ext, "mov") || text_eq(ext, "wmv") || text_eq(ext, "flv")
        || text_eq(ext, "webm")
}

/// Whether a lower-cased extension is one of a text-based file.
pub fn is_text_extension(ext: &str) -> (r: bool)
    ensures
        r == is_text_ext(ext@),
{
    text_eq(ext, "txt") || text_eq(ext, "md") || text_eq(ext, "json") || text_eq(ext, "xml")
        || text_eq(ext, "html") || text_eq(ext, "css") || text_eq(ext, "js") || text_eq(ext, "ts")
        || text_eq(ext, "rs") || text_eq(ext, "py")
}

/// Whether `file_path` names an audio or video file, by its extension.
pub fn is_media_file(file_path: &str) -> (r: bool)
    ensures
        r == (lowered_extension(file_path@) matches Some(e) && is_media_ext(e)),
{
    match get_file_extension(file_path) {
        Some(e) => is_media_extension(e.as_str()),
        None => false,
    }
}

/// Whether `file_path` names a text-based file, by its extension.
pub fn is_text_file(file_path: &str) -> (r: bool)
    ensures
        r == (lowered_extension(file_path@) matches Some(e) && is_text_ext(e)),
{
    match get_file_extension(file_path) {
        Some(e) => is_text_extension(e.as_str()),
        None => false,
    }
}

/// The worker for a lower-cased extension, by the routing table.
pub fn agent_for_extension(ext: &str) -> (r: String)
    ensures
        r@ == route(ext@),
{
    if text_eq(ext, "mp3") || text_eq(ext, "wav") || text_eq(ext, "mp4") || text_eq(ext, "avi")
        || text_eq(ext, "mov") {
        String::from_str(TRANSCRIPTION_WORKER)
    } else {
        String::from_str(GENERATION_WORKER)
    }
}

/// The worker that `file_path` is routed to; a path without an extension
/// goes where an empty extension goes.
pub fn determine_agent_for_file(file_path: &str) -> (r: String)
    ensures
        r@ == route_for_path(file_path@),
{
    match get_file_extension(file_path) {
        Some(e) => agent_for_extension(e.as_str()),
        None => {
            proof {
                reveal_strlit("");
                assert(""@ =~= Seq::<char>::empty());
            }
            agent_for_extension("")
        },
    }
}

/// `<stem>_<suffix>.<ext>`: the name of a file derived from another.
pub fn join_output_path(stem: &str, suffix: &str, ext: &str) -> (r: String)
    ensures
        r@ == stem@ + "_"@ + suffix@ + "."@ + ext@,
{
    let mut r = String::from_str(stem);
    r.append("_");
    r.append(suffix);
    r.append(".");
    r.append(ext);
    r
}

pub open spec fn text_or_empty(o: Option<Seq<char>>) -> Seq<char> {
    match o {
        Some(s) => s,
        None => Seq::empty(),
    }
}

/// The name of the output file for `input_path`: its stem, `_`, `suffix`, `.`
/// and its extension (either part empty where the path has none).
pub fn create_output_path(input_path: &str, suffix: &str) -> (r: String)
    ensures
        r@ == text_or_empty(path_stem(input_path@)) + "_"@ + suffix@ + "."@ + text_or_empty(
            path_extension(input_path@),
        ),
{
    let stem = match stem_of(input_path) {
        Some(s) => s,
        None => String::new(),
    };
    let ext = match extension_of(input_path) {
        Some(e) => e,
        None => String::new(),
    };
    join_output_path(stem.as_str(), suffix, ext.as_str())
}

/// Judges a path from what the file system reports of it: `FileNotFound`
/// where nothing exists there, `NotAFile` where something other than a
/// regular file does.
pub fn validate_file(exists: bool, is_file: bool) -> (r: Result<(), OrchestratorError>)
    ensures
        !exists ==> r == Err::<(), OrchestratorError>(OrchestratorError::FileNotFound),
        exists && !is_file ==> r == Err::<(), OrchestratorError>(OrchestratorError::NotAFile),
        exists && is_file ==> r is Ok,
{
    if !exists {
        return Err(OrchestratorError::FileNotFound);
    }
    if !is_file {
        return Err(OrchestratorError::NotAFile);
    }
    Ok(())
}

} // verus!
