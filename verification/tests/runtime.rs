use datamancer::providers::runtime::{watch_changed, SettingsSource, WatchSlot};

#[test]
fn static_source_is_always_enabled() {
    let src = SettingsSource::Static(7_u32);
    assert_eq!(src.current(), Some(7));
    assert!(src.watch().is_none());
}

#[test]
fn watch_source_none_is_disabled_and_tracks_updates() {
    let (tx, rx) = tokio::sync::watch::channel(None);
    let src = SettingsSource::Watch(rx);
    assert_eq!(src.current(), None);
    tx.send(Some(7_u32)).unwrap();
    assert_eq!(src.current(), Some(7));
}

#[test]
fn runtime_watch_clone_does_not_see_pre_clone_sends() {
    let (tx, rx) = tokio::sync::watch::channel(None);
    let src = SettingsSource::Watch(rx);
    tx.send(Some(1_u32)).unwrap();
    let fresh = src.watch().expect("watchable");
    assert_eq!(fresh.into_receiver().has_changed().ok(), Some(false));
}

#[test]
fn runtime_watch_clone_sees_post_clone_sends() {
    let (tx, rx) = tokio::sync::watch::channel(None);
    let src = SettingsSource::Watch(rx);
    let fresh = src.watch().expect("watchable");
    tx.send(Some(1_u32)).unwrap();
    assert_eq!(fresh.into_receiver().has_changed().ok(), Some(true));
}

#[test]
fn watch_changed_consumes_the_marker() {
    let (tx, rx) = tokio::sync::watch::channel(None);
    let src = SettingsSource::Watch(rx);
    let mut cached = WatchSlot::new(src.watch());
    assert!(!watch_changed(&mut cached));
    tx.send(Some(1_u32)).unwrap();
    assert!(watch_changed(&mut cached));
    assert!(!watch_changed(&mut cached));
}

#[test]
fn watch_changed_syncs_once_on_closed_channel() {
    let (tx, rx) = tokio::sync::watch::channel(None);
    let src = SettingsSource::Watch(rx);
    let mut cached = WatchSlot::new(src.watch());
    tx.send(Some(1_u32)).unwrap();
    drop(tx);
    assert!(watch_changed(&mut cached));
    assert!(!watch_changed(&mut cached));
    assert!(!watch_changed(&mut cached));
}

#[test]
fn watch_changed_ignores_static_sources() {
    let mut cached = WatchSlot::new(SettingsSource::Static(1_u32).watch());
    assert!(!watch_changed(&mut cached));
}
