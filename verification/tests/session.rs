use datamancer::accounting::ProviderAccounting;
use datamancer::client::fanout::SubscriberId;
use datamancer::client::stats::ClientSessionId;
use datamancer::error::Error;
use datamancer::event::{
    Adjustment, AssetClass, BarInterval, Control, ControlKind, EventKind, GapSpan, Instrument,
    MarketEvent, Price, ProviderId, Quantity, SeqNo, Timestamp, Trade,
};
use datamancer::request::CacheKey;
use datamancer::session::controller::{
    CommandOutcome, Controller, SessionCommand, Sink,
};
use datamancer::session::datamancer::{
    backfill_start, default_buffer, AuthoritativeSession, Claim, Datamancer, DatamancerBuilder,
    LiveRegistry, LiveSessionId, Session, SessionPlan, StreamSource,
    DEFAULT_RESUME_BUFFER_EVENTS,
};
use datamancer::session::fetch_locks::FetchLocks;
use datamancer::session::lifecycle::{
    HistoricalSession, HistoryAction, HistoryEvent, LiveAction, LiveEvent, LiveRun,
};
use datamancer::session::machine::{
    SegmentAction, SegmentEvent, SegmentOutcome, SegmentRun,
};
use datamancer::session::options::{PersistenceOptions, Scope};
use datamancer::session::segment::Segment;
use datamancer::session::stream::{
    backfill_segments, plan_backfill, plan_historical, BackfillPlan, CachedPlan, FetchEnd,
    HistoricalPlan, PlanStep, SegmentStream,
};
use datamancer::table::Pair;
use tokio::sync::mpsc;

fn inst(provider: &str, symbol: &str) -> Instrument {
    Instrument::new(ProviderId::from_static(provider), AssetClass::Equity, symbol)
}

fn trade(ts: i64) -> MarketEvent {
    MarketEvent::Trade(Trade {
        instrument: inst("p", "AAPL"),
        source_ts: Timestamp(ts),
        rx_ts: Timestamp(ts),
        seq: SeqNo(0),
        price: Price::from_raw(1_000_000_000),
        size: Quantity::from_units(1),
    })
}

fn builder() -> DatamancerBuilder {
    Datamancer::builder()
        .provider("p".to_string())
        .historical_cache()
        .tap_log()
        .resume_buffer_events(2)
}

fn historical(options: PersistenceOptions, from: i64, to: i64) -> Controller {
    let dm = builder().build().unwrap();
    let scope = Scope::Historical { from: Timestamp(from), to: Timestamp(to) };
    match dm.session(inst("p", "AAPL"), EventKind::Trade, scope, options, &vec![true]) {
        Ok(SessionPlan::Historical { controller, provider, .. }) => {
            assert_eq!(provider, 0);
            controller
        }
        _ => panic!("expected a historical session"),
    }
}

fn live(
    options: PersistenceOptions,
    backfill_from: Option<Timestamp>,
) -> (Controller, mpsc::Receiver<MarketEvent>) {
    let dm = builder().build().unwrap();
    let (tx, rx) = mpsc::channel(16);
    let ctl = dm.create_authoritative(
        0,
        inst("p", "AAPL"),
        EventKind::Trade,
        Scope::Live { backfill_from },
        options,
        SubscriberId(0),
        tx,
    );
    (ctl, rx)
}

fn seq_of(ev: &MarketEvent) -> u64 {
    ev.seq().unwrap().0
}

fn drain(rx: &mut mpsc::Receiver<MarketEvent>) -> Vec<MarketEvent> {
    let mut out = Vec::new();
    while let Ok(ev) = rx.try_recv() {
        out.push(ev);
    }
    out
}

fn kind_of(ev: &MarketEvent) -> &ControlKind {
    match ev {
        MarketEvent::Control(Control { kind, .. }) => kind,
        other => panic!("expected a control, got {other:?}"),
    }
}

// --- Building and routing ---------------------------------------------------

#[test]
fn building_needs_distinct_known_providers() {
    let dm = Datamancer::builder().provider("a".to_string()).build().unwrap();
    assert_eq!(dm.resume_buffer_events, DEFAULT_RESUME_BUFFER_EVENTS);
    assert_eq!(dm.adjustment, Adjustment::All);
    assert_eq!(dm.provider("a"), Ok(0));
    assert_eq!(dm.provider("b"), Err(Error::UnknownProvider("b".to_string())));
    assert_eq!(default_buffer(), 1024);

    let twice = Datamancer::builder().provider("a".to_string()).provider("a".to_string()).build();
    assert!(matches!(twice, Err(Error::Config(said)) if said == "duplicate provider id: a"));
    // A pin to a provider that is not there decides nothing.
    let astray = Datamancer::builder()
        .provider("a".to_string())
        .pin(inst("a", "AAPL"), "b".to_string())
        .build()
        .unwrap();
    assert_eq!(astray.route(&inst("a", "AAPL"), EventKind::Trade, &vec![true]), Ok(0));
    assert_eq!(
        astray.route(&inst("a", "AAPL"), EventKind::Trade, &vec![false]),
        Err(Error::UnsupportedEventKind {
            kind: EventKind::Trade,
            instrument: inst("a", "AAPL"),
        })
    );
}

#[test]
fn pins_decide_among_supporters() {
    let dm = Datamancer::builder()
        .provider("a".to_string())
        .provider("b".to_string())
        .provider("c".to_string())
        .pin(inst("a", "AAPL"), "b".to_string())
        .build()
        .unwrap();
    let aapl = inst("a", "AAPL");
    let trade = EventKind::Trade;
    assert_eq!(dm.route(&aapl, trade, &vec![true, true, true]), Ok(1));
    assert_eq!(dm.route(&aapl, trade, &vec![true, false, true]), Ok(0));
    assert_eq!(dm.route(&aapl, trade, &vec![false, false, true]), Ok(2));
    assert_eq!(
        dm.route(&aapl, trade, &vec![false, false, false]),
        Err(Error::UnsupportedEventKind { kind: trade, instrument: inst("a", "AAPL") })
    );
    assert_eq!(dm.route(&inst("a", "MSFT"), trade, &vec![true, true, true]), Ok(0));
}

#[test]
fn sessions_need_their_stores() {
    let bare = Datamancer::builder().provider("p".to_string()).build().unwrap();
    let scope = Scope::Historical { from: Timestamp(0), to: Timestamp(9) };
    let plan = bare.session(
        inst("p", "AAPL"),
        EventKind::Trade,
        scope,
        PersistenceOptions::cached(),
        &vec![true],
    );
    assert!(matches!(plan, Err(Error::PersistenceRequired)));
    let live = bare.session(
        inst("p", "AAPL"),
        EventKind::Trade,
        Scope::Live { backfill_from: None },
        PersistenceOptions::none(),
        &vec![true],
    );
    assert!(matches!(live, Ok(SessionPlan::Live { provider: 0 })));
    assert_eq!(backfill_start(scope), None);
    assert_eq!(
        backfill_start(Scope::Live { backfill_from: Some(Timestamp(3)) }),
        Some(Timestamp(3))
    );
}

#[test]
fn clients_start_empty_and_detached() {
    let dm = builder().build().unwrap();
    let (session, controller) = dm.client_session(ClientSessionId(5));
    assert_eq!(session.id(), ClientSessionId(5));
    assert!(controller.subscriptions().is_empty());
    assert_eq!(controller.stats.resume_buffer_snapshot().capacity, 2);
}

#[test]
fn one_live_session_per_symbol() {
    let mut registry = LiveRegistry::new();
    let pair = Pair { instrument: inst("p", "AAPL"), kind: EventKind::Trade };
    assert_eq!(registry.claim(pair.clone(), LiveSessionId(1), false), Claim::Won);
    assert_eq!(
        registry.claim(pair.clone(), LiveSessionId(2), true),
        Claim::Held(LiveSessionId(1))
    );
    assert_eq!(registry.claim(pair.clone(), LiveSessionId(3), false), Claim::Won);
    registry.release(&pair, true);
    assert_eq!(registry.holder(&pair), Some(LiveSessionId(3)));
    registry.release(&pair, false);
    assert_eq!(registry.holder(&pair), None);
}

#[test]
fn subscriber_ids_are_handed_out_once() {
    let mut s = AuthoritativeSession::new(
        Pair { instrument: inst("p", "AAPL"), kind: EventKind::Trade },
        "p".to_string(),
        Scope::Live { backfill_from: None },
        PersistenceOptions::none(),
    );
    let a = s.alloc_subscriber_id();
    let b = s.alloc_subscriber_id();
    assert_ne!(a, b);
    assert_eq!(
        s.set_persistence(PersistenceOptions::none(), Err(Error::PersistenceRequired)),
        Err(Error::PersistenceRequired)
    );
    assert_eq!(s.set_persistence(PersistenceOptions::cached(), Ok(())), Ok(()));
    assert_eq!(s.persistence(), PersistenceOptions::cached());
}

#[test]
fn historical_streams_are_taken_once() {
    let scope = Scope::Historical { from: Timestamp(0), to: Timestamp(9) };
    let mut s = Session::new(inst("p", "AAPL"), EventKind::Trade, scope, PersistenceOptions::none());
    assert_eq!(s.take_events(), Ok(StreamSource::Own));
    assert_eq!(s.take_events(), Err(Error::EventsAlreadyTaken));
    assert_eq!((s.kind(), s.scope()), (EventKind::Trade, scope));
    assert_eq!(s.instrument().symbol(), "AAPL");

    let open = Scope::Live { backfill_from: None };
    let mut s = Session::new(inst("p", "AAPL"), EventKind::Trade, open, PersistenceOptions::none());
    assert_eq!(s.take_events(), Ok(StreamSource::Client));
    assert_eq!(s.take_events(), Ok(StreamSource::Client));
    assert_eq!(s.set_persistence(PersistenceOptions::none().with_tap_log(true), Ok(())), Ok(()));
    assert!(s.persistence().write_tap_log);
}

// --- Fetch slots ------------------------------------------------------------

fn key(from: i64, to: i64) -> CacheKey {
    CacheKey {
        instrument: inst("rec", "AAPL"),
        kind: EventKind::Bar(BarInterval::OneMinute),
        from: Timestamp(from),
        to: Timestamp(to),
        adjustment: Adjustment::Raw,
    }
}

#[test]
fn same_key_serializes() {
    let mut locks = FetchLocks::new();
    let k = key(0, 1000);
    let first = locks.acquire(&k, false);
    assert_eq!(locks.current(&k), Some(first));
    assert_eq!(locks.acquire(&k, true), first);
    // Once nobody holds or awaits the slot, a fresh one is free at once.
    assert_ne!(locks.acquire(&k, false), first);
}

#[test]
fn distinct_keys_do_not_contend() {
    let mut locks = FetchLocks::new();
    let a = locks.acquire(&key(0, 1000), false);
    let b = locks.acquire(&key(1000, 2000), false);
    assert_ne!(a, b);
}

// --- The controller ----------------------------------------------------------

#[test]
fn places_are_contiguous_and_rejected_events_are_buffered() {
    let mut ctl = historical(PersistenceOptions::none(), 0, 100);
    let first = ctl.emit(trade(10), true).expect("the stream is attached");
    assert_eq!(seq_of(&first), 0);
    ctl.rejected(first);
    assert!(ctl.emit(trade(20), true).is_none());
    assert!(ctl.emit(trade(30), true).is_none());
    match &ctl.sink {
        Sink::Detached(ring) => {
            let seqs: Vec<u64> = ring.buf.iter().map(seq_of).collect();
            assert_eq!(seqs, vec![1, 2]);
            assert_eq!(
                ring.dropped,
                Some(GapSpan { from_source_ts: Timestamp(10), to_source_ts: Timestamp(11) })
            );
            assert_eq!(ring.dropped_first_seq, Some(SeqNo(0)));
        }
        Sink::Attached => panic!("expected a buffer"),
    }
}

#[test]
fn only_live_data_is_recorded() {
    let on = PersistenceOptions::none().with_tap_log(true);
    let (mut ctl, _rx) = live(on, None);
    assert!(ctl.should_tee(&trade(1)));
    assert!(!ctl.should_tee(&Controller::closing_event(Timestamp(1))));
    assert!(!historical(PersistenceOptions::none(), 0, 9).should_tee(&trade(1)));
    match ctl.handle_command(SessionCommand::SetPersistence(PersistenceOptions::none())) {
        CommandOutcome::Persistence(res) => assert_eq!(res, Ok(())),
        other => panic!("expected an answer, got {other:?}"),
    }
    assert!(!ctl.should_tee(&trade(1)));
}

#[test]
fn persistence_needs_its_store() {
    let dm = Datamancer::builder().provider("p".to_string()).build().unwrap();
    let (tx, _rx) = mpsc::channel(1);
    let mut ctl = dm.create_authoritative(
        0,
        inst("p", "AAPL"),
        EventKind::Trade,
        Scope::Live { backfill_from: None },
        PersistenceOptions::none(),
        SubscriberId(0),
        tx,
    );
    let tap = PersistenceOptions::none().with_tap_log(true);
    assert_eq!(ctl.apply_persistence(tap), Err(Error::PersistenceRequired));
    assert_eq!(ctl.apply_persistence(PersistenceOptions::read_only()), Err(Error::PersistenceRequired));
    assert_eq!(ctl.persistence, PersistenceOptions::none());
}

// --- A live session -----------------------------------------------------------

#[test]
fn live_data_is_recorded_before_it_is_delivered() {
    let (ctl, mut rx) = live(PersistenceOptions::none().with_tap_log(true), None);
    let mut run = LiveRun::new(ctl);
    let mut acct = ProviderAccounting::default();
    assert!(run.begin().is_empty());
    let acts = run.step(&mut acct, LiveEvent::Arrived(Some(trade(5))));
    let stamped = match &acts[..] {
        [LiveAction::Record(a), LiveAction::Deliver] => {
            assert_eq!(seq_of(a), 0);
            a.clone()
        }
        other => panic!("expected a recording and a delivery, got {other:?}"),
    };
    assert!(drain(&mut rx).is_empty());
    assert!(run.step(&mut acct, LiveEvent::Recorded).is_empty());
    assert_eq!(drain(&mut rx), vec![stamped]);
    assert_eq!(acct.messages(), 1);
}

#[test]
fn last_referrer_ends_the_session() {
    let (ctl, _rx) = live(PersistenceOptions::none(), None);
    let mut run = LiveRun::new(ctl);
    let mut acct = ProviderAccounting::default();
    let (tx, mut second) = mpsc::channel(4);
    let acts = run.step(
        &mut acct,
        LiveEvent::Command(SessionCommand::AddSubscriber { id: SubscriberId(1), sender: tx }),
    );
    assert!(matches!(acts[..], [LiveAction::Answer(CommandOutcome::Added)]));
    assert!(run.step(&mut acct, LiveEvent::Removed(Some(SubscriberId(0)))).is_empty());
    assert_eq!(run.ctl.stats.subscriber_count(), 1);
    run.step(&mut acct, LiveEvent::Arrived(Some(trade(5))));
    run.step(&mut acct, LiveEvent::Recorded);
    assert_eq!(drain(&mut second).len(), 1);
    let acts = run.step(&mut acct, LiveEvent::Removed(Some(SubscriberId(1))));
    assert!(matches!(acts[..], [LiveAction::TearDown]));
    Controller::torn_down(&mut acct);
    assert_eq!(acct.unsubscribes(), 1);
}

#[test]
fn two_openings_see_the_same_places() {
    let mut registry = LiveRegistry::new();
    let pair = Pair { instrument: inst("p", "AAPL"), kind: EventKind::Trade };
    assert_eq!(registry.claim(pair.clone(), LiveSessionId(1), false), Claim::Won);
    assert_eq!(registry.claim(pair, LiveSessionId(2), true), Claim::Held(LiveSessionId(1)));

    let (ctl, mut first) = live(PersistenceOptions::none(), None);
    let mut run = LiveRun::new(ctl);
    let mut acct = ProviderAccounting::default();
    let mut hand = |run: &mut LiveRun, ts: i64| {
        run.step(&mut acct, LiveEvent::Arrived(Some(trade(ts))));
        run.step(&mut acct, LiveEvent::Recorded);
    };
    hand(&mut run, 10);
    let (tx, mut second) = mpsc::channel(4);
    let mut other = ProviderAccounting::default();
    run.step(
        &mut other,
        LiveEvent::Command(SessionCommand::AddSubscriber { id: SubscriberId(1), sender: tx }),
    );
    hand(&mut run, 20);
    hand(&mut run, 15);
    let early = drain(&mut first);
    let late = drain(&mut second);
    assert_eq!(early.len(), 3);
    assert_eq!(late, early[1..]);
    assert_eq!(late.iter().map(seq_of).collect::<Vec<u64>>(), vec![1, 2]);
}

#[test]
fn live_session_stops_when_closed_or_cut_off() {
    let mut acct = ProviderAccounting::default();
    let (ctl, mut rx) = live(PersistenceOptions::none(), None);
    let mut run = LiveRun::new(ctl);
    let acts = run.step(&mut acct, LiveEvent::Command(SessionCommand::Close));
    assert!(matches!(
        acts[..],
        [LiveAction::ShutDown, LiveAction::Answer(CommandOutcome::ShutDown), LiveAction::TearDown]
    ));
    assert!(run.ctl.shutdown(Timestamp(7), false).is_none());
    assert_eq!(*kind_of(&drain(&mut rx)[0]), ControlKind::SessionClosing);
    for ev in [
        LiveEvent::Command(SessionCommand::HandleDropped),
        LiveEvent::Removed(None),
        LiveEvent::Arrived(None),
    ] {
        let acts = run.step(&mut acct, ev);
        assert!(matches!(acts[..], [LiveAction::TearDown]));
    }
}

// --- A plain historical fetch --------------------------------------------------

#[test]
fn failed_fetch_is_reported_behind_its_data() {
    let ctl = historical(PersistenceOptions::none(), 100, 200);
    match plan_historical(&ctl, Timestamp(100), Timestamp(200)) {
        HistoricalPlan::Direct(request) => {
            assert_eq!((request.from, request.to), (Timestamp(100), Timestamp(200)));
            assert_eq!(request.adjustment, Adjustment::All);
        }
        other => panic!("expected one fetch, got {other:?}"),
    }
    let mut acct = ProviderAccounting::default();
    let mut s = HistoricalSession::fetching(ctl, &mut acct, Timestamp(100));
    assert_eq!(acct.history_fetches(), 1);
    let acts = s.step(&mut acct, HistoryEvent::Fetched(trade(150)), true);
    assert!(matches!(&acts[..], [HistoryAction::Publish(ev)] if seq_of(ev) == 0));
    let end = FetchEnd::Failed {
        error: Error::Provider { provider: "p".to_string(), message: "boom".to_string() },
        rendered: "provider p: boom".to_string(),
    };
    let acts = s.step(&mut acct, HistoryEvent::FetchEnded(end), true);
    match &acts[..] {
        [HistoryAction::Publish(ev), HistoryAction::AskFinish] => {
            assert_eq!(seq_of(ev), 1);
            match ev {
                MarketEvent::Control(c) => {
                    assert_eq!(c.source_ts, Timestamp(150));
                    assert_eq!(
                        c.kind,
                        ControlKind::ProviderError {
                            provider: "p".to_string(),
                            message: "boom".to_string(),
                        }
                    );
                }
                other => panic!("expected a control, got {other:?}"),
            }
        }
        other => panic!("expected a report, got {other:?}"),
    }
    assert_eq!(acct.last_error(), Some("boom".to_string()));
    let acts = s.step(
        &mut acct,
        HistoryEvent::Finish { stream_taken: true, now: Timestamp(999) },
        true,
    );
    match &acts[..] {
        [HistoryAction::Publish(ev), HistoryAction::AskSettled] => {
            assert_eq!(*kind_of(ev), ControlKind::SessionClosing);
        }
        other => panic!("expected an announcement, got {other:?}"),
    }
    let acts = s.step(&mut acct, HistoryEvent::Settled, true);
    assert!(matches!(acts[..], [HistoryAction::AwaitDrain]));
    let acts = s.step(&mut acct, HistoryEvent::Drained, false);
    assert!(matches!(acts[..], [HistoryAction::ShutDown, HistoryAction::Stop]));
}

#[test]
fn untaken_stream_is_not_waited_for() {
    let mut acct = ProviderAccounting::default();
    let ctl = historical(PersistenceOptions::none(), 0, 9);
    let mut s = HistoricalSession::fetching(ctl, &mut acct, Timestamp(0));
    let acts = s.step(&mut acct, HistoryEvent::FetchEnded(FetchEnd::Cancelled), true);
    assert!(matches!(acts[..], [HistoryAction::AskFinish]));
    let acts = s.step(
        &mut acct,
        HistoryEvent::Finish { stream_taken: false, now: Timestamp(1) },
        true,
    );
    assert!(matches!(acts[..], [HistoryAction::ShutDown, HistoryAction::Stop]));

    let mut s = HistoricalSession::fetching(
        historical(PersistenceOptions::none(), 0, 9),
        &mut acct,
        Timestamp(0),
    );
    let acts = s.step(&mut acct, HistoryEvent::Command(SessionCommand::HandleDropped), true);
    assert!(matches!(acts[..], [HistoryAction::AbortFetch, HistoryAction::Stop]));
}

// --- Serving segments -----------------------------------------------------------

fn serve(options: PersistenceOptions, segments: Vec<Segment>) -> SegmentRun {
    SegmentRun {
        stream: SegmentStream::new(segments, options, None, 2),
        ctl: historical(options, 0, 100),
    }
}

#[test]
fn cached_plan_asks_fetches_and_coalesces() {
    let ctl = historical(PersistenceOptions::cached(), 0, 100);
    let mut acct = ProviderAccounting::default();
    assert!(matches!(
        plan_historical(&ctl, Timestamp(0), Timestamp(100)),
        HistoricalPlan::Cached
    ));
    let plan = CachedPlan { from: Timestamp(0), to: Timestamp(100), read_cache: true };
    assert!(matches!(plan.begin(&ctl), PlanStep::QueryCache(_)));
    // Fully covered: no slot, no fetch.
    match plan.on_first_report(&ctl, Some(vec![])) {
        PlanStep::Ready(segments) => assert_eq!(
            segments,
            vec![Segment::Covered { from: Timestamp(0), to: Timestamp(100) }]
        ),
        other => panic!("expected a plan, got {other:?}"),
    }
    assert!(matches!(plan.on_first_report(&ctl, None), PlanStep::AcquireSlot(_)));
    // Somebody else filled the range meanwhile.
    let locked = plan.on_locked_report(&mut acct, Some(vec![]));
    assert!(!locked.hold_slot);
    assert_eq!(acct.history_fetch_coalesced(), 1);
    let span = GapSpan { from_source_ts: Timestamp(40), to_source_ts: Timestamp(100) };
    let locked = plan.on_locked_report(&mut acct, Some(vec![span]));
    assert!(locked.hold_slot);
    assert_eq!(
        locked.segments,
        vec![
            Segment::Covered { from: Timestamp(0), to: Timestamp(40) },
            Segment::Gap { from: Timestamp(40), to: Timestamp(100) },
        ]
    );
    let refresh = CachedPlan { read_cache: false, ..plan };
    match refresh.begin(&ctl) {
        PlanStep::Ready(segments) => assert_eq!(
            segments,
            vec![Segment::Gap { from: Timestamp(0), to: Timestamp(100) }]
        ),
        other => panic!("expected a plan, got {other:?}"),
    }
}

#[test]
fn segments_are_replayed_and_fetched_in_order() {
    let mut acct = ProviderAccounting::default();
    let mut run = serve(
        PersistenceOptions::cached(),
        vec![
            Segment::Covered { from: Timestamp(0), to: Timestamp(40) },
            Segment::Gap { from: Timestamp(40), to: Timestamp(100) },
        ],
    );
    let acts = run.step(&mut acct, SegmentEvent::Proceed, true);
    match &acts[..] {
        [SegmentAction::OpenReplay { key, request }] => {
            assert_eq!((key.from, key.to), (Timestamp(0), Timestamp(40)));
            assert_eq!(request.kinds, vec![EventKind::Trade]);
        }
        _ => panic!("expected a replay"),
    }
    let acts = run.step(&mut acct, SegmentEvent::Replayed(trade(10)), true);
    assert!(matches!(&acts[..], [SegmentAction::Publish(ev)] if seq_of(ev) == 0));
    let acts = run.step(&mut acct, SegmentEvent::ReplayEnded, true);
    assert!(matches!(acts[..], [SegmentAction::Again]));
    let acts = run.step(&mut acct, SegmentEvent::Proceed, true);
    assert!(matches!(&acts[..], [SegmentAction::StartFetch(r)] if r.from == Timestamp(40)));
    run.step(&mut acct, SegmentEvent::Fetched(trade(50)), true);
    let acts = run.step(&mut acct, SegmentEvent::FetchEnded(FetchEnd::Completed), true);
    match &acts[..] {
        [SegmentAction::Store { key, batch }, SegmentAction::Again] => {
            assert_eq!((key.from, key.to), (Timestamp(40), Timestamp(100)));
            assert_eq!(*batch, vec![trade(50)]);
        }
        _ => panic!("expected a store"),
    }
    let acts = run.step(&mut acct, SegmentEvent::Proceed, true);
    assert!(matches!(acts[..], [SegmentAction::Finish(SegmentOutcome::Done)]));
    assert_eq!(acct.history_fetches(), 1);
}

#[test]
fn failed_segment_claims_what_arrived_and_reports_the_rest() {
    let mut acct = ProviderAccounting::default();
    let mut run = serve(
        PersistenceOptions::cached(),
        vec![
            Segment::Gap { from: Timestamp(0), to: Timestamp(50) },
            Segment::Gap { from: Timestamp(60), to: Timestamp(100) },
        ],
    );
    run.step(&mut acct, SegmentEvent::Proceed, true);
    run.step(&mut acct, SegmentEvent::Fetched(trade(20)), true);
    let end = FetchEnd::Panicked("task 3".to_string());
    let acts = run.step(&mut acct, SegmentEvent::FetchEnded(end), true);
    match &acts[..] {
        [SegmentAction::Store { key, .. }, SegmentAction::Publish(gap), SegmentAction::Publish(error), SegmentAction::Again] =>
        {
            assert_eq!((key.from, key.to), (Timestamp(0), Timestamp(21)));
            assert_eq!(
                *kind_of(gap),
                ControlKind::Gap {
                    provider: "p".to_string(),
                    instrument: inst("p", "AAPL"),
                    span: GapSpan { from_source_ts: Timestamp(21), to_source_ts: Timestamp(50) },
                }
            );
            assert_eq!(
                *kind_of(error),
                ControlKind::ProviderError {
                    provider: "p".to_string(),
                    message: "fetch task panicked: task 3".to_string(),
                }
            );
            assert_eq!((seq_of(gap), seq_of(error)), (1, 2));
        }
        _ => panic!("expected a claim and two reports"),
    }
    // The rest is abandoned.
    let acts = run.step(&mut acct, SegmentEvent::Proceed, true);
    assert!(matches!(acts[..], [SegmentAction::Finish(SegmentOutcome::Done)]));
    assert_eq!(acct.gaps_emitted(), 1);
}

#[test]
fn unreadable_segment_becomes_a_gap() {
    let mut acct = ProviderAccounting::default();
    let mut run = serve(
        PersistenceOptions::cached(),
        vec![Segment::Covered { from: Timestamp(0), to: Timestamp(40) }],
    );
    run.step(&mut acct, SegmentEvent::Proceed, true);
    let acts = run.step(&mut acct, SegmentEvent::ReplayFailed, true);
    match &acts[..] {
        [SegmentAction::Publish(MarketEvent::Control(c)), SegmentAction::Again] => {
            assert_eq!(c.source_ts, Timestamp(0));
            assert!(matches!(c.kind, ControlKind::Gap { .. }));
        }
        _ => panic!("expected a gap"),
    }
}

#[test]
fn closing_aborts_the_fetch() {
    let mut acct = ProviderAccounting::default();
    let segments = || vec![Segment::Gap { from: Timestamp(0), to: Timestamp(50) }];
    let mut run = serve(PersistenceOptions::cached(), segments());
    run.step(&mut acct, SegmentEvent::Proceed, true);
    let acts = run.step(&mut acct, SegmentEvent::Command(SessionCommand::Close), true);
    assert!(matches!(
        acts[..],
        [
            SegmentAction::ShutDown,
            SegmentAction::Answer(CommandOutcome::ShutDown),
            SegmentAction::AbortFetch,
            SegmentAction::Finish(SegmentOutcome::Closed)
        ]
    ));
    let mut run = serve(PersistenceOptions::cached(), segments());
    let acts = run.step(&mut acct, SegmentEvent::SessionDropped, true);
    assert!(matches!(
        acts[..],
        [SegmentAction::ShutDown, SegmentAction::Finish(SegmentOutcome::Closed)]
    ));
}

// --- Backfill ------------------------------------------------------------------

#[test]
fn live_arrivals_follow_the_backfill() {
    let options = PersistenceOptions::cached().with_tap_log(true);
    let (mut ctl, mut rx) = live(options, Some(Timestamp(0)));
    let mut acct = ProviderAccounting::default();
    assert!(matches!(
        plan_backfill(&mut ctl, Timestamp(100), Timestamp(100)),
        BackfillPlan::Skip
    ));
    assert!(!ctl.stats.backfilling());
    assert!(matches!(
        plan_backfill(&mut ctl, Timestamp(0), Timestamp(100)),
        BackfillPlan::QueryCache(_)
    ));
    assert!(ctl.stats.backfilling());
    let segments = backfill_segments(Timestamp(0), Timestamp(100), None);
    let mut run = SegmentRun {
        stream: SegmentStream::new(segments, options, Some(Timestamp(100)), 2),
        ctl,
    };
    run.step(&mut acct, SegmentEvent::Proceed, true);
    for ts in [101, 102, 103] {
        let acts = run.step(&mut acct, SegmentEvent::Live(Some(trade(ts))), true);
        assert!(matches!(acts[..], [SegmentAction::Record(_)]));
    }
    run.step(&mut acct, SegmentEvent::Fetched(trade(60)), true);
    let acts = run.step(&mut acct, SegmentEvent::FetchEnded(FetchEnd::Completed), true);
    // At the live edge only what arrived is claimed.
    match &acts[..] {
        [SegmentAction::Store { key, .. }, SegmentAction::Again] => {
            assert_eq!(key.to, Timestamp(61));
        }
        _ => panic!("expected a store"),
    }
    assert!(run.step(&mut acct, SegmentEvent::Live(None), true).is_empty());
    let mut ctl = run.ctl;
    let ring = run.stream.pending.unwrap();
    ctl.flush_backfill_pending(&mut acct, ring);
    let got = drain(&mut rx);
    let seqs: Vec<u64> = got.iter().map(seq_of).collect();
    assert_eq!(seqs, vec![0, 1, 2, 3]);
    assert_eq!(
        *kind_of(&got[1]),
        ControlKind::Gap {
            provider: "p".to_string(),
            instrument: inst("p", "AAPL"),
            span: GapSpan { from_source_ts: Timestamp(101), to_source_ts: Timestamp(102) },
        }
    );
    assert!(!ctl.stats.backfilling());
}

#[test]
fn abandoned_backfill_is_over() {
    let (mut ctl, _rx) = live(PersistenceOptions::none(), Some(Timestamp(0)));
    assert!(matches!(
        plan_backfill(&mut ctl, Timestamp(0), Timestamp(100)),
        BackfillPlan::FetchAll(_)
    ));
    ctl.abandon_backfill();
    assert!(!ctl.stats.backfilling());
}
