use shuttle_datadog_logs::bootstrap::{event_of, Action, Bootstrapper, Event, Stage};
use shuttle_datadog_logs::config::resolve_config;
use shuttle_datadog_logs::error::BootstrapError;
use shuttle_datadog_logs::logging::build_pipeline;
use shuttle_datadog_logs::secrets::BuildMode;

#[test]
fn successful_run_reaches_ready_once() {
    let mut b = Bootstrapper::new();
    let expected = [
        Action::ResolveSecrets,
        Action::InstallLogging,
        Action::ProvisionResources,
        Action::BuildRouter,
        Action::HandOver,
    ];
    for a in expected {
        assert_eq!(b.next_action(), a);
        b.advance(Event::StepSucceeded);
    }
    assert!(matches!(b.stage, Stage::ServiceReady));
    assert_eq!(b.next_action(), Action::Done);
    b.advance(Event::StepSucceeded);
    b.advance(Event::StepFailed(BootstrapError::LogLevelInvalid));
    assert_eq!(b.next_action(), Action::Done);
    assert!(b.error().is_none());
}

#[test]
fn missing_secret_aborts_before_provisioning() {
    let mut b = Bootstrapper::new();
    b.advance(Event::StepFailed(BootstrapError::SecretMissing("DD_API_KEY".to_string())));
    assert_eq!(b.next_action(), Action::Abort);
    b.advance(Event::StepSucceeded);
    assert_eq!(b.next_action(), Action::Abort);
    match b.error() {
        Some(BootstrapError::SecretMissing(k)) => assert_eq!(k, "DD_API_KEY"),
        _ => panic!("expected SecretMissing"),
    }
}

#[test]
fn invalid_level_stops_at_logging() {
    let mut b = Bootstrapper::new();
    b.advance(Event::StepSucceeded);
    assert_eq!(b.next_action(), Action::InstallLogging);
    b.advance(Event::StepFailed(BootstrapError::LogLevelInvalid));
    assert_eq!(b.next_action(), Action::Abort);
    assert!(matches!(b.error(), Some(BootstrapError::LogLevelInvalid)));
}

#[test]
fn event_of_results() {
    let ok: Result<u8, BootstrapError> = Ok(1);
    assert!(matches!(event_of(&ok), Event::StepSucceeded));
    let err: Result<u8, BootstrapError> = Err(BootstrapError::ResourceProvisionFailed("no db".to_string()));
    match event_of(&err) {
        Event::StepFailed(BootstrapError::ResourceProvisionFailed(m)) => assert_eq!(m, "no db"),
        _ => panic!("expected the error"),
    }
}

fn store(pairs: &[(&str, &str)]) -> shuttle_secrets::SecretStore {
    let mut m = std::collections::BTreeMap::new();
    for (k, v) in pairs {
        m.insert(k.to_string(), v.to_string());
    }
    shuttle_secrets::SecretStore::new(m)
}

#[test]
fn run_without_api_key_never_provisions() {
    let s = store(&[("DD_TAGS", "env:prod")]);
    let mut b = Bootstrapper::new();
    let r = resolve_config(&s, BuildMode::Production);
    b.advance(event_of(&r));
    for _ in 0..5 {
        assert_ne!(b.next_action(), Action::ProvisionResources);
        b.advance(Event::StepSucceeded);
    }
    assert_eq!(b.next_action(), Action::Abort);
}

#[test]
fn run_with_unparseable_level_fails_at_logging() {
    let s = store(&[("DD_API_KEY", "key"), ("LOG_LEVEL", "%%%")]);
    let mut b = Bootstrapper::new();
    let c = resolve_config(&s, BuildMode::Production);
    b.advance(event_of(&c));
    assert_eq!(b.next_action(), Action::InstallLogging);
    let c = c.ok().unwrap();
    let p = build_pipeline(c.log_level, c.api_key, c.tags);
    assert!(p.is_err());
    b.advance(event_of(&p));
    assert!(matches!(b.error(), Some(BootstrapError::LogLevelInvalid)));
    assert_eq!(b.next_action(), Action::Abort);
}
