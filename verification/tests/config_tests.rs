use whistle::config::{load_config, read_mappings, Mapping};
use whistle::error::RelayError;
use whistle::resolve::resolve_webhook;

fn mapping(path: Option<&str>, url: Option<&str>) -> Mapping {
    Mapping { path: path.map(|p| p.to_string()), url: url.map(|u| u.to_string()) }
}

#[test]
fn load_plain_config() {
    let cfg = load_config(r#"[{"path":"alerts","url":"https://discord.example/abc"}]"#);
    assert_eq!(cfg.len(), 1);
    assert_eq!(cfg[0], mapping(Some("alerts"), Some("https://discord.example/abc")));
}

#[test]
fn load_percent_encoded_config() {
    // The whole array percent-encoded: decoding must happen for the lookup to work.
    let encoded = "%5B%7B%22path%22%3A%22alerts%22%2C%22url%22%3A%22https%3A%2F%2Fdiscord.example%2Fabc%22%7D%5D";
    let cfg = load_config(encoded);
    assert_eq!(cfg.len(), 1);
    assert_eq!(cfg[0], mapping(Some("alerts"), Some("https://discord.example/abc")));
}

#[test]
fn load_malformed_json_yields_empty() {
    let cfg = load_config("this is not json");
    assert!(cfg.is_empty());
}

#[test]
fn load_invalid_encoding_yields_empty() {
    // "%FF" decodes to a lone 0xFF byte, which is not valid UTF-8.
    let cfg = load_config("%FF");
    assert!(cfg.is_empty());
}

#[test]
fn load_empty_value_yields_empty() {
    let cfg = load_config("[]");
    assert!(cfg.is_empty());
}

#[test]
fn load_non_array_json_yields_no_mappings() {
    let cfg = load_config(r#"{"path":"alerts","url":"https://discord.example/abc"}"#);
    assert!(cfg.is_empty());
}

#[test]
fn read_mappings_projects_fields() {
    let v: serde_json::Value = serde_json::from_str(
        r#"[{"path":"a","url":"u"},{"path":"b"},{"url":3},"stray",{"path":7,"url":"w"}]"#,
    )
    .unwrap();
    let ms = read_mappings(&v);
    assert_eq!(ms.len(), 5);
    assert_eq!(ms[0], mapping(Some("a"), Some("u")));
    assert_eq!(ms[1], mapping(Some("b"), None));
    // a non-string url member is treated as absent
    assert_eq!(ms[2], mapping(None, None));
    // a non-object element has neither member
    assert_eq!(ms[3], mapping(None, None));
    // a non-string path member is treated as absent
    assert_eq!(ms[4], mapping(None, Some("w")));
}

#[test]
fn resolve_returns_first_match() {
    let cfg = vec![
        mapping(Some("other"), Some("https://discord.example/zzz")),
        mapping(Some("alerts"), Some("https://discord.example/first")),
        mapping(Some("alerts"), Some("https://discord.example/second")),
    ];
    assert_eq!(resolve_webhook(&cfg, "alerts"), Ok("https://discord.example/first".to_string()));
}

#[test]
fn resolve_absent_path_fails() {
    let cfg = vec![mapping(Some("alerts"), Some("https://discord.example/abc"))];
    assert_eq!(resolve_webhook(&cfg, "unknown"), Err(RelayError::NoMatchingWebhook));
}

#[test]
fn resolve_empty_config_fails() {
    let cfg: Vec<Mapping> = Vec::new();
    assert_eq!(resolve_webhook(&cfg, "alerts"), Err(RelayError::NoMatchingWebhook));
}

#[test]
fn resolve_match_without_url_fails() {
    // The first matching entry wins even when its url is unusable.
    let cfg = vec![
        mapping(Some("alerts"), None),
        mapping(Some("alerts"), Some("https://discord.example/abc")),
    ];
    assert_eq!(resolve_webhook(&cfg, "alerts"), Err(RelayError::NoMatchingWebhook));
}

#[test]
fn resolve_entry_without_path_never_matches() {
    let cfg = vec![mapping(None, Some("https://discord.example/abc"))];
    assert_eq!(resolve_webhook(&cfg, ""), Err(RelayError::NoMatchingWebhook));
}
