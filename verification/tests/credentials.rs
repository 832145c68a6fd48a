use datamancer::providers::credentials::{
    rest_credentials_changed, AlpacaCredentials, CredentialsSource, Resolved,
};
use datamancer::providers::runtime::WatchSlot;

fn creds(key: &str) -> AlpacaCredentials {
    AlpacaCredentials { key_id: key.to_string(), secret: "s3cret".to_string() }
}

#[test]
fn debug_redacts_the_secret() {
    let debug = creds("AKID").debug_string();
    assert!(!debug.contains("s3cret"), "secret leaked: {debug}");
    assert!(debug.contains("AKID"));
    assert_eq!(debug, "AlpacaCredentials { key_id: \"AKID\", secret: \"********\" }");
}

#[test]
fn debug_escapes_the_key_id() {
    assert_eq!(
        creds("a\"b\n").debug_string(),
        "AlpacaCredentials { key_id: \"a\\\"b\\n\", secret: \"********\" }"
    );
}

#[test]
fn env_source_resolves_to_env() {
    assert!(matches!(CredentialsSource::Env.current(), Resolved::Env));
}

#[test]
fn static_source_resolves_to_its_credentials() {
    match CredentialsSource::Static(creds("A")).current() {
        Resolved::Creds(c) => assert_eq!(c.key_id, "A"),
        _ => panic!("expected Creds"),
    }
}

#[test]
fn credentials_watch_clone_does_not_see_pre_clone_sends() {
    let (tx, rx) = tokio::sync::watch::channel(None);
    let source = CredentialsSource::Watch(rx);
    assert!(tx.send(Some(creds("A"))).is_ok());
    let fresh = source.watch().expect("watchable");
    assert_eq!(fresh.into_receiver().has_changed().ok(), Some(false));
}

#[test]
fn credentials_watch_clone_sees_post_clone_sends() {
    let (tx, rx) = tokio::sync::watch::channel(None);
    let source = CredentialsSource::Watch(rx);
    let fresh = source.watch().expect("watchable");
    assert!(tx.send(Some(creds("A"))).is_ok());
    assert_eq!(fresh.into_receiver().has_changed().ok(), Some(true));
}

#[test]
fn rest_change_detection_consumes_the_marker() {
    let (tx, rx) = tokio::sync::watch::channel(None);
    let source = CredentialsSource::Watch(rx);
    let mut cached = WatchSlot::new(source.watch());
    assert!(!rest_credentials_changed(&mut cached));
    assert!(tx.send(Some(creds("A"))).is_ok());
    assert!(rest_credentials_changed(&mut cached));
    assert!(!rest_credentials_changed(&mut cached));
}

#[test]
fn rest_change_detection_syncs_once_on_closed_channel() {
    let (tx, rx) = tokio::sync::watch::channel(None);
    let source = CredentialsSource::Watch(rx);
    let mut cached = WatchSlot::new(source.watch());
    assert!(tx.send(Some(creds("FINAL"))).is_ok());
    drop(tx);
    assert!(rest_credentials_changed(&mut cached));
    assert!(!rest_credentials_changed(&mut cached));
    assert!(!rest_credentials_changed(&mut cached));
}

#[test]
fn rest_change_detection_ignores_non_watch_sources() {
    let mut cached = WatchSlot::new(CredentialsSource::Env.watch());
    assert!(!rest_credentials_changed(&mut cached));
}

#[test]
fn watch_source_tracks_updates_and_none_is_missing() {
    let (tx, rx) = tokio::sync::watch::channel(None);
    let source = CredentialsSource::Watch(rx);
    assert!(matches!(source.current(), Resolved::Missing));
    assert!(tx.send(Some(creds("B"))).is_ok());
    match source.current() {
        Resolved::Creds(c) => assert_eq!(c.key_id, "B"),
        _ => panic!("expected Creds"),
    }
}

#[test]
fn cloned_sources_watch_the_same_value() {
    let (tx, rx) = tokio::sync::watch::channel(None);
    let copy = CredentialsSource::Watch(rx).clone();
    assert!(tx.send(Some(creds("C"))).is_ok());
    match copy.current() {
        Resolved::Creds(c) => assert_eq!(c.key_id, "C"),
        _ => panic!("expected Creds"),
    }
    assert!(matches!(CredentialsSource::default(), CredentialsSource::Env));
}
