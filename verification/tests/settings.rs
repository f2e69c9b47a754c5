use phrasedj::error::CoreError;
use phrasedj::settings::{LyricsSettings, NetworkSettings, StemsSettings, UiSettings};
use phrasedj::toml_merge::{merge_toml, TomlEntry, TomlNode};

#[test]
fn stems_defaults() {
    let s = StemsSettings::default();
    assert_eq!(s.model, "htdemucs");
    assert_eq!(s.stem_count, 4);
    assert!(s.auto_analyse);
    assert_eq!(s.max_parallel_jobs, 0);
}

#[test]
fn privacy_defaults_are_off() {
    let l = LyricsSettings::default();
    assert!(!l.online_lookup);
    assert_eq!(l.online_service_url, "https://lrclib.net/api/get");
    assert_eq!(l.whisper_model, "ggml-base.en");
    assert_eq!(l.online_timeout_secs, 5);
    assert!(!NetworkSettings::default().update_check);
}

#[test]
fn ui_defaults() {
    let u = UiSettings::default();
    assert_eq!(u.target_fps, 60);
    assert_eq!(u.default_mode, "classic");
}

fn entry(key: &str, node: TomlNode) -> TomlEntry {
    TomlEntry { key: key.to_string(), node }
}

fn lookup<'a>(node: &'a TomlNode, key: &str) -> Option<&'a TomlNode> {
    match node {
        TomlNode::Table(es) => es.iter().find(|e| e.key == key).map(|e| &e.node),
        TomlNode::Value(_) => None,
    }
}

fn slot(node: Option<&TomlNode>) -> Option<usize> {
    match node {
        Some(TomlNode::Value(s)) => Some(*s),
        _ => None,
    }
}

#[test]
fn user_value_wins_and_missing_keys_keep_defaults() {
    // [audio] sample_rate = slot 1, buffer_size = slot 2; [ui] target_fps = slot 3
    let mut base = TomlNode::Table(vec![
        entry("audio", TomlNode::Table(vec![entry("sample_rate", TomlNode::Value(1)), entry("buffer_size", TomlNode::Value(2))])),
        entry("ui", TomlNode::Table(vec![entry("target_fps", TomlNode::Value(3))])),
    ]);
    // [audio] buffer_size = slot 10
    let user = TomlNode::Table(vec![entry("audio", TomlNode::Table(vec![entry("buffer_size", TomlNode::Value(10))]))]);
    merge_toml(&mut base, user);
    let audio = lookup(&base, "audio").unwrap();
    assert_eq!(slot(lookup(audio, "buffer_size")), Some(10));
    assert_eq!(slot(lookup(audio, "sample_rate")), Some(1));
    assert_eq!(slot(lookup(lookup(&base, "ui").unwrap(), "target_fps")), Some(3));
}

#[test]
fn new_user_keys_are_added_and_scalars_replace_tables() {
    let mut base = TomlNode::Table(vec![entry("a", TomlNode::Table(vec![entry("x", TomlNode::Value(1))]))]);
    let user = TomlNode::Table(vec![entry("a", TomlNode::Value(7)), entry("b", TomlNode::Value(8))]);
    merge_toml(&mut base, user);
    assert_eq!(slot(lookup(&base, "a")), Some(7));
    assert_eq!(slot(lookup(&base, "b")), Some(8));
    match &base {
        TomlNode::Table(es) => assert_eq!(es.len(), 2),
        TomlNode::Value(_) => panic!("table expected"),
    }
}

#[test]
fn a_non_table_user_document_replaces_the_base() {
    let mut base = TomlNode::Table(vec![entry("a", TomlNode::Value(1))]);
    merge_toml(&mut base, TomlNode::Value(5));
    assert!(matches!(base, TomlNode::Value(5)));
}

#[test]
fn core_error_messages() {
    assert_eq!(CoreError::Settings("bad".to_string()).message(), "settings error: bad");
    assert_eq!(CoreError::FileNotFound { path: "/x".to_string() }.message(), "file not found: /x");
    assert_eq!(CoreError::Database("gone".to_string()).message(), "database error: gone");
    assert_eq!(CoreError::Other("plain".to_string()).message(), "plain");
    assert!(matches!(CoreError::other("hi"), CoreError::Other(m) if m == "hi"));
}

#[test]
fn wrapped_error_messages_keep_their_prefix() {
    let io = CoreError::from(std::io::Error::new(std::io::ErrorKind::Other, "disk gone"));
    assert_eq!(io.message(), "I/O error: disk gone");
    let toml_err = toml::from_str::<toml::Value>("= no key").unwrap_err();
    let msg = CoreError::from(toml_err).message();
    assert!(msg.starts_with("TOML parse error: ") && msg.len() > "TOML parse error: ".len());
    let json_err = serde_json::from_str::<serde_json::Value>("{").unwrap_err();
    let msg = CoreError::from(json_err).message();
    assert!(msg.starts_with("JSON error: ") && msg.len() > "JSON error: ".len());
}
