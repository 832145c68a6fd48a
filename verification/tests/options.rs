use datamancer::event::Adjustment;
use datamancer::session::options::{PersistenceOptions, ReconnectPolicy};

#[test]
fn presets_compose_the_four_modes() {
    assert_eq!(PersistenceOptions::none(), PersistenceOptions::default());
    assert!(!PersistenceOptions::none().read_cache && !PersistenceOptions::none().write_cache);
    assert!(PersistenceOptions::cached().read_cache && PersistenceOptions::cached().write_cache);
    assert!(
        PersistenceOptions::read_only().read_cache && !PersistenceOptions::read_only().write_cache
    );
    assert!(!PersistenceOptions::refresh().read_cache && PersistenceOptions::refresh().write_cache);
}

#[test]
fn uses_cache_is_true_when_any_axis_set() {
    assert!(!PersistenceOptions::none().uses_cache());
    assert!(PersistenceOptions::cached().uses_cache());
    assert!(PersistenceOptions::read_only().uses_cache());
    assert!(PersistenceOptions::refresh().uses_cache());
}

#[test]
fn tap_log_axis_defaults_off_and_presets_stay_cache_only() {
    assert!(!PersistenceOptions::none().write_tap_log);
    assert!(!PersistenceOptions::cached().write_tap_log);
    assert!(!PersistenceOptions::read_only().write_tap_log);
    assert!(!PersistenceOptions::refresh().write_tap_log);
    assert!(!PersistenceOptions::default().write_tap_log);
}

#[test]
fn with_tap_log_sets_only_the_tap_axis() {
    let opts = PersistenceOptions::none().with_tap_log(true);
    assert!(opts.write_tap_log);
    assert!(!opts.read_cache);
    assert!(!opts.write_cache);
    let stacked = PersistenceOptions::cached().with_tap_log(true);
    assert!(stacked.read_cache && stacked.write_cache && stacked.write_tap_log);
    assert!(!PersistenceOptions::none().with_tap_log(true).uses_cache());
}

#[test]
fn options_are_served_only_with_the_stores_they_need() {
    let cached = PersistenceOptions::cached();
    let tapped = PersistenceOptions::none().with_tap_log(true);
    assert!(PersistenceOptions::none().is_served_by(false, false));
    assert!(!cached.is_served_by(false, true));
    assert!(cached.is_served_by(true, false));
    assert!(!tapped.is_served_by(true, false));
    assert!(tapped.is_served_by(false, true));
}

#[test]
fn default_policy_and_adjustment() {
    let p = ReconnectPolicy::default();
    assert_eq!((p.initial_backoff_ms, p.max_backoff_ms, p.jitter), (500, 30_000, true));
    assert_eq!(Adjustment::default(), Adjustment::All);
}
