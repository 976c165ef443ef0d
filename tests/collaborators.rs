use vhq_lag::ceo::{create_agent_status, HealthStatus};
use vhq_lag::generation::{
    apply_template, default_template, generated_file_path, generated_title, lookup_variable,
    placeholder_of, ContentTemplate,
};
use vhq_lag::transcription::{default_languages, srt_content, srt_path, whisper_args};

fn vars(pairs: &[(&str, &str)]) -> Vec<(String, String)> {
    pairs.iter().map(|(k, v)| (k.to_string(), v.to_string())).collect()
}

#[test]
fn default_template_fills_content() {
    let t = default_template("default");
    assert_eq!(t.name, "default");
    assert_eq!(t.variables, vec!["content".to_string()]);
    let prompt = apply_template(&t, &vars(&[("content", "hello")]));
    assert_eq!(
        prompt,
        "Generate content based on the following input:\n\nhello\n\nPlease provide a well-structured response."
    );
}

#[test]
fn template_replaces_every_occurrence_and_skips_unbound() {
    let t = ContentTemplate {
        name: "t".to_string(),
        prompt_template: "{a} and {a} but {b}".to_string(),
        variables: vec!["a".to_string(), "b".to_string()],
        content_type: "article".to_string(),
        description: String::new(),
    };
    assert_eq!(apply_template(&t, &vars(&[("a", "x")])), "x and x but {b}");
    assert_eq!(apply_template(&t, &vars(&[("b", "1"), ("a", "2"), ("b", "3")])), "2 and 2 but 1");
}

#[test]
fn variable_lookup_takes_first_binding() {
    let v = vars(&[("k", "first"), ("k", "second")]);
    assert_eq!(lookup_variable(&v, "k"), Some("first".to_string()));
    assert_eq!(lookup_variable(&v, "z"), None);
    assert_eq!(placeholder_of("name"), "{name}");
}

#[test]
fn generated_names() {
    assert_eq!(generated_file_path("out", "article", "20240101_120000"), "out/article_20240101_120000.txt");
    assert_eq!(generated_title("summary"), "Generated summary content");
}

#[test]
fn whisper_arguments() {
    assert_eq!(
        whisper_args("a.mp3", "auto", "base"),
        vec!["a.mp3", "--model", "base", "--output_dir", "transcripts", "--output_format", "json"]
    );
    assert_eq!(
        whisper_args("a.mp3", "en", "small"),
        vec![
            "a.mp3", "--model", "small", "--output_dir", "transcripts", "--output_format", "json",
            "--language", "en"
        ]
    );
}

#[test]
fn subtitles() {
    assert_eq!(srt_path("talk.wav"), "talk.wav.srt");
    assert_eq!(srt_content("hi there"), "1\n00:00:00,000 --> 00:00:30,000\nhi there\n\n");
    assert_eq!(default_languages().len(), 10);
    assert_eq!(default_languages()[9], "zh");
}

#[test]
fn agent_status_record() {
    let s = create_agent_status("VITRA_LAG", "running", 7, 250);
    assert_eq!(s.name, "VITRA_LAG");
    assert_eq!(s.status, "running");
    assert_eq!((s.memory_usage, s.cpu_usage), (7, 250));
    assert!(!s.last_activity.is_empty());
    assert_ne!(HealthStatus::Healthy, HealthStatus::Critical);
}

#[test]
fn template_with_bound_and_unbound_variable() {
    let t = ContentTemplate {
        name: "greeting".to_string(),
        prompt_template: "Hi {content} / {tone}".to_string(),
        variables: vec!["content".to_string(), "tone".to_string()],
        content_type: "article".to_string(),
        description: String::new(),
    };
    assert_eq!(apply_template(&t, &vars(&[("content", "Ann")])), "Hi Ann / {tone}");
    assert_eq!(apply_template(&t, &vars(&[("tone", "warm"), ("content", "Ann")])), "Hi Ann / warm");
}
