use vstd::prelude::*;

use crate::task::text_eq;

verus! {

/// The command-line arguments of one whisper run on `file_path`: the model,
/// JSON output into `transcripts`, and the language unless it is `auto`.
pub open spec fn whisper_args_spec(file_path: Seq<char>, language: Seq<char>, model: Seq<char>) -> Seq<
    Seq<char>,
> {
    let base = seq![
        file_path,
        "--model"@,
        model,
        "--output_dir"@,
        "transcripts"@,
        "--output_format"@,
        "json"@,
    ];
    if language == "auto"@ {
        base
    } else {
        base + seq!["--language"@, language]
    }
}

/// The arguments of a whisper run (see `whisper_args_spec`).
pub fn whisper_args(file_path: &str, language: &str, model: &str) -> (r: Vec<String>)
    ensures
        r@.map_values(|s: String| s@) == whisper_args_spec(file_path@, language@, model@),
{
    let mut r: Vec<String> = Vec::new();
    r.push(String::from_str(file_path));
    r.push(String::from_str("--model"));
    r.push(String::from_str(model));
    r.push(String::from_str("--output_dir"));
    r.push(String::from_str("transcripts"));
    r.push(String::from_str("--output_format"));
    r.push(String::from_str("json"));
    if !text_eq(language, "auto") {
        r.push(String::from_str("--language"));
        r.push(String::from_str(language));
    }
    assert(r@.map_values(|s: String| s@) =~= whisper_args_spec(file_path@, language@, model@));
    r
}

/// Where the subtitles of `file_path` are written: the path with `.srt` appended.
pub fn srt_path(file_path: &str) -> (r: String)
    ensures
        r@ == file_path@ + ".srt"@,
{
    let mut r = String::from_str(file_path);
    r.append(".srt");
    r
}

/// A one-cue subtitle file holding the whole transcription for the first thirty seconds.
pub fn srt_content(transcription: &str) -> (r: String)
    ensures
        r@ == "1\n00:00:00,000 --> 00:00:30,000\n"@ + transcription@ + "\n\n"@,
{
    let mut r = String::from_str("1\n00:00:00,000 --> 00:00:30,000\n");
    r.append(transcription);
    r.append("\n\n");
    r
}

/// The languages the transcriber accepts, as ISO 639-1 codes.
pub fn default_languages() -> (r: Vec<String>)
    ensures
        r@.len() == 10,
        r@.map_values(|s: String| s@) == seq![
            "en"@,
            "es"@,
            "fr"@,
            "de"@,
            "it"@,
            "pt"@,
            "ru"@,
            "ja"@,
            "ko"@,
            "zh"@,
        ],
{
    let r = vec![
        String::from_str("en"),
        String::from_str("es"),
        String::from_str("fr"),
        String::from_str("de"),
        String::from_str("it"),
        String::from_str("pt"),
        String::from_str("ru"),
        String::from_str("ja"),
        String::from_str("ko"),
        String::from_str("zh"),
    ];
    assert(r@.map_values(|s: String| s@) =~= seq![
        "en"@,
        "es"@,
        "fr"@,
        "de"@,
        "it"@,
        "pt"@,
        "ru"@,
        "ja"@,
        "ko"@,
        "zh"@,
    ]);
    r
}

} // verus!
