use vhq_lag::database::get_database_url;
use vhq_lag::diagnostics::{TestResult, TestResults};
use vhq_lag::error::OrchestratorError;
use vhq_lag::router::{
    agent_for_extension, create_output_path, determine_agent_for_file, get_file_extension,
    is_media_extension, is_media_file, is_text_extension, is_text_file, join_output_path,
    validate_file,
};

#[test]
fn test_text_file_validation() {
    assert!(is_text_file("test.txt"));
    assert!(is_text_file("test.md"));
    assert!(!is_text_file("test.mp3"));
}

#[test]
fn extension_is_lower_cased() {
    assert_eq!(get_file_extension("Song.MP3"), Some("mp3".to_string()));
    assert_eq!(get_file_extension("dir/archive.tar.GZ"), Some("gz".to_string()));
    assert_eq!(get_file_extension("README"), None);
    assert_eq!(get_file_extension(".bashrc"), None);
}

#[test]
fn media_and_text_files_by_extension() {
    assert!(is_media_file("clip.mp3"));
    assert!(is_media_file("movie.WEBM"));
    assert!(!is_media_file("notes.txt"));
    assert!(!is_media_file("noext"));
    assert!(is_text_file("main.RS"));
    assert!(!is_text_file("noext"));
    assert!(is_media_extension("flac"));
    assert!(!is_media_extension("FLAC"));
    assert!(is_text_extension("py"));
    assert!(!is_text_extension("docx"));
}

#[test]
fn router_table() {
    assert_eq!(agent_for_extension("mp3"), "vitra_lag");
    assert_eq!(agent_for_extension("mov"), "vitra_lag");
    assert_eq!(agent_for_extension("flac"), "ghost_lag");
    assert_eq!(agent_for_extension("docx"), "ghost_lag");
    assert_eq!(agent_for_extension(""), "ghost_lag");
    assert_eq!(determine_agent_for_file("clip.mp3"), "vitra_lag");
    assert_eq!(determine_agent_for_file("CLIP.MP4"), "vitra_lag");
    assert_eq!(determine_agent_for_file("notes.md"), "ghost_lag");
    assert_eq!(determine_agent_for_file("unknown.xyz"), "ghost_lag");
    assert_eq!(determine_agent_for_file("no_extension"), "ghost_lag");
}

#[test]
fn output_path_from_stem_and_extension() {
    assert_eq!(create_output_path("media/song.wav", "subs"), "song_subs.wav");
    assert_eq!(create_output_path("Report.PDF", "v2"), "Report_v2.PDF");
    assert_eq!(create_output_path("plain", "out"), "plain_out.");
    assert_eq!(join_output_path("a", "b", "c"), "a_b.c");
}

#[test]
fn file_validation_errors() {
    assert_eq!(validate_file(false, false), Err(OrchestratorError::FileNotFound));
    assert_eq!(validate_file(true, false), Err(OrchestratorError::NotAFile));
    assert_eq!(validate_file(true, true), Ok(()));
}

#[test]
fn database_url_prefix() {
    assert_eq!(get_database_url("/tmp/app.db"), "sqlite:/tmp/app.db");
    assert_eq!(get_database_url(""), "sqlite:");
}

#[test]
fn self_check_summary() {
    let mut r = TestResults::new();
    assert!(!r.all_passed());
    assert_eq!(r.summary(), "Tests: 0/5 passed");
    r.database = TestResult::Passed;
    r.agents = TestResult::Passed;
    r.system = TestResult::Failed("boom".to_string());
    assert_eq!(r.summary(), "Tests: 2/5 passed");
    r.system = TestResult::Passed;
    r.performance = TestResult::Passed;
    r.security = TestResult::Passed;
    assert!(r.all_passed());
    assert_eq!(r.summary(), "Tests: 5/5 passed");
}

#[test]
fn self_check_result_text() {
    assert_eq!(TestResult::NotRun.to_text(), "Not Run");
    assert_eq!(TestResult::Passed.to_text(), "Passed");
    assert_eq!(TestResult::Failed("db down".to_string()).to_text(), "Failed: db down");
}
