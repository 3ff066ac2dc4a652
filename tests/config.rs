use shuttle_datadog_logs::config::{compose_tags, resolve_config, VERSION};
use shuttle_datadog_logs::error::BootstrapError;
use shuttle_datadog_logs::secrets::BuildMode;
use shuttle_secrets::SecretStore;
use std::collections::BTreeMap;

fn store(pairs: &[(&str, &str)]) -> SecretStore {
    let mut m = BTreeMap::new();
    for (k, v) in pairs {
        m.insert(k.to_string(), v.to_string());
    }
    SecretStore::new(m)
}

#[test]
fn tags_with_resolver_tag() {
    assert_eq!(compose_tags(Some("env:prod".to_string())), "env:prod,version:0.1.0");
}

#[test]
fn tags_without_resolver_tag() {
    assert_eq!(compose_tags(None), "version:0.1.0");
    assert_eq!(VERSION, "version:0.1.0");
}

#[test]
fn tags_with_empty_resolver_tag() {
    assert_eq!(compose_tags(Some(String::new())), ",version:0.1.0");
}

#[test]
fn resolve_reads_all_three_keys() {
    let s = store(&[("DD_API_KEY", "key"), ("DD_TAGS", "env:prod"), ("LOG_LEVEL", "DEBUG")]);
    let c = resolve_config(&s, BuildMode::Production).unwrap();
    assert_eq!(c.api_key, "key");
    assert_eq!(c.tags, "env:prod,version:0.1.0");
    assert_eq!(c.log_level, "DEBUG");
}

#[test]
fn resolve_defaults_level_and_tags() {
    let s = store(&[("DD_API_KEY_DEV", "devkey")]);
    let c = resolve_config(&s, BuildMode::Development).unwrap();
    assert_eq!(c.api_key, "devkey");
    assert_eq!(c.tags, "version:0.1.0");
    assert_eq!(c.log_level, "INFO");
}

#[test]
fn resolve_without_api_key_fails() {
    let s = store(&[("DD_TAGS", "env:prod"), ("LOG_LEVEL", "DEBUG")]);
    match resolve_config(&s, BuildMode::Production) {
        Err(BootstrapError::SecretMissing(k)) => assert_eq!(k, "DD_API_KEY"),
        other => panic!("unexpected: {:?}", other.map(|c| c.api_key)),
    }
}

#[test]
fn resolve_in_development_needs_dev_api_key() {
    let s = store(&[("DD_API_KEY", "key")]);
    match resolve_config(&s, BuildMode::Development) {
        Err(BootstrapError::SecretMissing(k)) => assert_eq!(k, "DD_API_KEY"),
        other => panic!("unexpected: {:?}", other.map(|c| c.api_key)),
    }
}
