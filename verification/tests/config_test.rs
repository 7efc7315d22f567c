use std::cell::RefCell;
use std::collections::HashMap;
use std::time::Duration;

use weir_agent::config::Config;

fn source(pairs: &[(&str, &str)]) -> impl Fn(&str) -> Option<String> {
    let map: HashMap<String, String> =
        pairs.iter().map(|(k, v)| (k.to_string(), v.to_string())).collect();
    move |k| map.get(k).cloned()
}

const REQUIRED: [(&str, &str); 3] = [
    ("WEIR_AGENT_BACKEND_URL", "https://b/i"),
    ("WEIR_AGENT_ORG_KEY", "k"),
    ("WEIR_AGENT_INSTANCE_ID", "i"),
];

fn build(extra: &[(&str, &str)]) -> Result<Config, String> {
    let mut map: HashMap<String, String> =
        REQUIRED.iter().map(|(k, v)| (k.to_string(), v.to_string())).collect();
    for (k, v) in extra {
        map.insert(k.to_string(), v.to_string());
    }
    Config::from_source(move |k: &str| map.get(k).cloned())
}

#[test]
fn parses_required_and_defaults() {
    let cfg = Config::from_source(source(&[
        ("WEIR_AGENT_BACKEND_URL", "https://backend.example/v1/ingest"),
        ("WEIR_AGENT_ORG_KEY", "sk-org-123"),
        ("WEIR_AGENT_INSTANCE_ID", "prod-us-east"),
    ]))
    .unwrap();
    assert_eq!(cfg.backend_url, "https://backend.example/v1/ingest");
    assert_eq!(cfg.org_key, "sk-org-123");
    assert_eq!(cfg.instance_id, "prod-us-east");
    assert_eq!(cfg.events_url, "http://localhost:8080/events");
    assert_eq!(cfg.poll_interval, Duration::from_secs(15));
    assert_eq!(cfg.batch_size, 500);
    assert_eq!(cfg.state_file, "./weir-agent-state.json");
}

#[test]
fn missing_required_is_error() {
    let err = Config::from_source(source(&[("WEIR_AGENT_ORG_KEY", "x")])).unwrap_err();
    assert!(err.contains("WEIR_AGENT_BACKEND_URL"));
}

#[test]
fn overrides_are_applied() {
    let cfg = Config::from_source(source(&[
        ("WEIR_AGENT_BACKEND_URL", "https://b/i"),
        ("WEIR_AGENT_ORG_KEY", "k"),
        ("WEIR_AGENT_INSTANCE_ID", "i"),
        ("WEIR_AGENT_EVENTS_URL", "http://weir:9000/events"),
        ("WEIR_AGENT_POLL_INTERVAL_SECS", "5"),
        ("WEIR_AGENT_BATCH_SIZE", "100"),
        ("WEIR_AGENT_STATE_FILE", "/var/lib/weir-agent/state.json"),
    ]))
    .unwrap();
    assert_eq!(cfg.events_url, "http://weir:9000/events");
    assert_eq!(cfg.poll_interval, Duration::from_secs(5));
    assert_eq!(cfg.batch_size, 100);
    assert_eq!(cfg.state_file, "/var/lib/weir-agent/state.json");
}

#[test]
fn zero_batch_size_is_error() {
    let err = Config::from_source(source(&[
        ("WEIR_AGENT_BACKEND_URL", "https://b/i"),
        ("WEIR_AGENT_ORG_KEY", "k"),
        ("WEIR_AGENT_INSTANCE_ID", "i"),
        ("WEIR_AGENT_BATCH_SIZE", "0"),
    ]))
    .unwrap_err();
    assert!(err.contains("BATCH_SIZE"));
}

#[test]
fn zero_poll_interval_is_error() {
    let err = Config::from_source(source(&[
        ("WEIR_AGENT_BACKEND_URL", "https://b/i"),
        ("WEIR_AGENT_ORG_KEY", "k"),
        ("WEIR_AGENT_INSTANCE_ID", "i"),
        ("WEIR_AGENT_POLL_INTERVAL_SECS", "0"),
    ]))
    .unwrap_err();
    assert!(err.contains("POLL_INTERVAL"));
}

#[test]
fn missing_required_are_checked_in_order() {
    let none = Config::from_source(source(&[])).unwrap_err();
    assert_eq!(none, "missing required config: WEIR_AGENT_BACKEND_URL");
    let no_key = Config::from_source(source(&[("WEIR_AGENT_BACKEND_URL", "https://b/i")])).unwrap_err();
    assert_eq!(no_key, "missing required config: WEIR_AGENT_ORG_KEY");
    let no_instance = Config::from_source(source(&[
        ("WEIR_AGENT_BACKEND_URL", "https://b/i"),
        ("WEIR_AGENT_ORG_KEY", "k"),
    ]))
    .unwrap_err();
    assert_eq!(no_instance, "missing required config: WEIR_AGENT_INSTANCE_ID");
}

#[test]
fn empty_required_counts_as_missing() {
    let err = build(&[("WEIR_AGENT_ORG_KEY", "")]).unwrap_err();
    assert_eq!(err, "missing required config: WEIR_AGENT_ORG_KEY");
}

#[test]
fn empty_optional_text_falls_back_to_default() {
    let cfg = build(&[("WEIR_AGENT_EVENTS_URL", ""), ("WEIR_AGENT_STATE_FILE", "")]).unwrap();
    assert_eq!(cfg.events_url, "http://localhost:8080/events");
    assert_eq!(cfg.state_file, "./weir-agent-state.json");
}

#[test]
fn non_integer_poll_interval_is_error() {
    for bad in ["", "abc", "-5", " 5", "5 ", "1_0", "+", "18446744073709551616"] {
        let err = build(&[("WEIR_AGENT_POLL_INTERVAL_SECS", bad)]).unwrap_err();
        assert_eq!(err, "WEIR_AGENT_POLL_INTERVAL_SECS must be a positive integer");
    }
}

#[test]
fn poll_interval_takes_plus_sign_and_leading_zeros() {
    let cfg = build(&[("WEIR_AGENT_POLL_INTERVAL_SECS", "+007")]).unwrap();
    assert_eq!(cfg.poll_interval, Duration::from_secs(7));
    let max = build(&[("WEIR_AGENT_POLL_INTERVAL_SECS", "18446744073709551615")]).unwrap();
    assert_eq!(max.poll_interval, Duration::from_secs(u64::MAX));
}

#[test]
fn non_integer_batch_size_is_error() {
    for bad in ["", "ten", "-1", "3.5"] {
        let err = build(&[("WEIR_AGENT_BATCH_SIZE", bad)]).unwrap_err();
        assert_eq!(err, "WEIR_AGENT_BATCH_SIZE must be a positive integer");
    }
    let zero = build(&[("WEIR_AGENT_BATCH_SIZE", "000")]).unwrap_err();
    assert_eq!(zero, "WEIR_AGENT_BATCH_SIZE must be greater than 0");
}

#[test]
fn poll_interval_error_comes_before_batch_size_error() {
    let err = build(&[("WEIR_AGENT_POLL_INTERVAL_SECS", "0"), ("WEIR_AGENT_BATCH_SIZE", "0")]).unwrap_err();
    assert_eq!(err, "WEIR_AGENT_POLL_INTERVAL_SECS must be greater than 0");
}

#[test]
fn from_values_matches_from_source() {
    let cfg = Config::from_values(
        Some("https://b/i".to_string()),
        Some("k".to_string()),
        Some("i".to_string()),
        None,
        Some("30".to_string()),
        Some("2".to_string()),
        Some("s.json".to_string()),
    )
    .unwrap();
    assert_eq!(cfg.backend_url, "https://b/i");
    assert_eq!(cfg.events_url, "http://localhost:8080/events");
    assert_eq!(cfg.poll_interval, Duration::from_secs(30));
    assert_eq!(cfg.batch_size, 2);
    assert_eq!(cfg.state_file, "s.json");
}

#[test]
fn lookups_stop_at_the_first_problem() {
    let asked: RefCell<Vec<String>> = RefCell::new(Vec::new());
    let err = Config::from_source(|k: &str| {
        asked.borrow_mut().push(k.to_string());
        match k {
            "WEIR_AGENT_BACKEND_URL" => Some("https://b/i".to_string()),
            _ => None,
        }
    })
    .unwrap_err();
    assert_eq!(err, "missing required config: WEIR_AGENT_ORG_KEY");
    assert_eq!(*asked.borrow(), vec!["WEIR_AGENT_BACKEND_URL".to_string(), "WEIR_AGENT_ORG_KEY".to_string()]);
}

#[test]
fn config_clone_keeps_every_field() {
    let cfg = build(&[("WEIR_AGENT_POLL_INTERVAL_SECS", "9")]).unwrap();
    let copy = cfg.clone();
    assert_eq!(copy.backend_url, cfg.backend_url);
    assert_eq!(copy.poll_interval, Duration::from_secs(9));
    assert_eq!(copy.state_file, cfg.state_file);
}
