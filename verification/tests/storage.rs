use datamancer::event::{BarInterval, EventKind};
use datamancer::storage::surreal::SurrealCache;

fn assert_send_sync<T: Send + Sync>() {}

#[test]
fn turso_handles_are_send_sync() {
    assert_send_sync::<turso::Database>();
    assert_send_sync::<turso::Connection>();
}

#[test]
fn kind_for_inverts_table_for() {
    for kind in [
        EventKind::Trade,
        EventKind::Quote,
        EventKind::Bar(BarInterval::OneSecond),
        EventKind::Bar(BarInterval::OneMinute),
        EventKind::Bar(BarInterval::FiveMinute),
        EventKind::Bar(BarInterval::FifteenMinute),
        EventKind::Bar(BarInterval::OneHour),
        EventKind::Bar(BarInterval::OneDay),
    ] {
        assert_eq!(SurrealCache::kind_for(SurrealCache::table_for(kind)), Some(kind));
    }
    assert_eq!(SurrealCache::kind_for("not_a_table"), None);
}
