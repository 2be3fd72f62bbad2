use guibiao_backend::alert_gate::{AlertGate, ALERT_DEBOUNCE_SECS};
use guibiao_backend::flows::{
    post_measurement_start, post_measurement_step, require_default_station, run_monte_carlo_start,
    run_monte_carlo_step, MonteCarloAction, MonteCarloEvent, MonteCarloState, PostMeasurementAction,
    PostMeasurementEvent, PostMeasurementState, ANALYSIS_SOURCE_LIMIT, DEFAULT_STATION_ID, LATEST_LIMIT, LISTING_LIMIT,
};
use guibiao_backend::ids::{ensure_measurement_id, RANDOM_VERSION_VARIANT, VERSION_VARIANT_MASK};
use guibiao_backend::instant::{day_before, within_seconds, Instant};
use guibiao_backend::live_feed::{keeps_listening, keeps_pushing, ClientFrame, ClientRead, FeedPush};
use guibiao_backend::refusal::Refusal;
use guibiao_backend::response::{ApiResponse, DEFAULT_STATION_NOT_FOUND, NO_MEASUREMENTS, STATION_NOT_FOUND};
use guibiao_backend::time_range::{resolve_time_range, resolve_time_range_now, TimeRangeQuery};

fn at(secs: i64, nanos: u32) -> Instant {
    Instant { secs, nanos }
}

// ---------------------------------------------------------------- responses

#[test]
fn ok_response_carries_data() {
    let r = ApiResponse::ok("OK".to_string());
    assert!(r.success);
    assert_eq!(r.data, Some("OK".to_string()));
    assert_eq!(r.error, None);
}

#[test]
fn err_response_carries_message() {
    let r: ApiResponse<u32> = ApiResponse::err("Station not found");
    assert!(!r.success);
    assert_eq!(r.data, None);
    assert_eq!(r.error, Some("Station not found".to_string()));
}

#[test]
fn read_result_is_answered() {
    let good: ApiResponse<Vec<u32>> = ApiResponse::from_read(Ok(vec![1, 2, 3]));
    assert!(good.success);
    assert_eq!(good.data, Some(vec![1, 2, 3]));
    let bad: ApiResponse<Vec<u32>> = ApiResponse::from_read(Err("connection refused".to_string()));
    assert!(!bad.success);
    assert_eq!(bad.error, Some("connection refused".to_string()));
    assert_eq!(bad.data, None);
}

#[test]
fn lookup_result_is_answered() {
    let found: ApiResponse<u32> = ApiResponse::from_lookup(Ok(Some(7)), STATION_NOT_FOUND);
    assert_eq!(found.data, Some(7));
    assert!(found.success);
    let missing: ApiResponse<u32> = ApiResponse::from_lookup(Ok(None), STATION_NOT_FOUND);
    assert!(!missing.success);
    assert_eq!(missing.error, Some("Station not found".to_string()));
    let failed: ApiResponse<u32> = ApiResponse::from_lookup(Err("timeout".to_string()), STATION_NOT_FOUND);
    assert_eq!(failed.error, Some("timeout".to_string()));
}

#[test]
fn refusal_messages() {
    assert_eq!(Refusal::StationNotFound.message(), "Station not found");
    assert_eq!(Refusal::DefaultStationNotFound.message(), "Default station not found");
    assert_eq!(Refusal::NoMeasurements.message(), "No measurements available");
    assert_eq!(Refusal::StoreError("disk full".to_string()).message(), "disk full");
    assert_eq!(DEFAULT_STATION_NOT_FOUND, "Default station not found");
    assert_eq!(NO_MEASUREMENTS, "No measurements available");
}

#[test]
fn listing_limits() {
    assert_eq!(LATEST_LIMIT, 100);
    assert_eq!(LISTING_LIMIT, 1000);
}

#[test]
fn default_station_lookup() {
    assert_eq!(DEFAULT_STATION_ID, "dengfeng_001");
    assert!(matches!(require_default_station(Ok(Some(3u8))), Ok(3)));
    assert!(matches!(require_default_station::<u8>(Ok(None)), Err(Refusal::DefaultStationNotFound)));
    assert!(matches!(
        require_default_station::<u8>(Err("boom".to_string())),
        Err(Refusal::DefaultStationNotFound)
    ));
}

// ---------------------------------------------------------------- instants

#[test]
fn day_before_subtracts_a_day() {
    assert_eq!(day_before(at(1_703_219_400, 5)), at(1_703_133_000, 5));
}

#[test]
fn whole_seconds_window() {
    let t0 = at(1000, 0);
    assert!(within_seconds(t0, at(1059, 999_999_999), 60));
    assert!(!within_seconds(t0, at(1060, 0), 60));
    assert!(within_seconds(at(1000, 500), at(1060, 499), 60));
    assert!(!within_seconds(at(1000, 500), at(1060, 500), 60));
    // a clock that went backwards counts as no time elapsed
    assert!(within_seconds(t0, at(900, 0), 60));
}

// ---------------------------------------------------------------- alert debounce

#[test]
fn first_alert_goes_through_and_is_recorded() {
    let mut gate = AlertGate::new();
    let station = "dengfeng_001".to_string();
    assert_eq!(gate.last_alert(&station), None);
    assert!(gate.try_alert(&station, at(1000, 0)));
    assert_eq!(gate.last_alert(&station), Some(at(1000, 0)));
}

#[test]
fn repeat_alert_within_window_is_refused() {
    let mut gate = AlertGate::new();
    let station = "dengfeng_001".to_string();
    assert!(gate.try_alert(&station, at(1000, 0)));
    assert!(!gate.try_alert(&station, at(1030, 0)));
    assert!(!gate.try_alert(&station, at(1059, 999_999_999)));
    // the refused attempts did not move the window
    assert_eq!(gate.last_alert(&station), Some(at(1000, 0)));
    assert!(gate.try_alert(&station, at(1060, 0)));
    assert_eq!(gate.last_alert(&station), Some(at(1060, 0)));
    assert_eq!(ALERT_DEBOUNCE_SECS, 60);
}

#[test]
fn stations_are_debounced_independently() {
    let mut gate = AlertGate::new();
    let a = "dengfeng_001".to_string();
    let b = "gaocheng_002".to_string();
    assert!(gate.try_alert(&a, at(1000, 0)));
    assert!(gate.try_alert(&b, at(1001, 0)));
    assert!(!gate.try_alert(&a, at(1002, 0)));
    assert!(!gate.try_alert(&b, at(1003, 0)));
    assert_eq!(gate.last_alert(&a), Some(at(1000, 0)));
    assert_eq!(gate.last_alert(&b), Some(at(1001, 0)));
}

#[test]
fn alert_now_reads_the_clock() {
    let mut gate = AlertGate::new();
    let station = "test".to_string();
    let first = gate.try_alert_now(&station).expect("a first alert always goes through");
    // well after 2023-01-01
    assert!(first.secs > 1_672_531_200);
    assert!(first.nanos < 1_000_000_000);
    assert_eq!(gate.last_alert(&station), Some(first));
    // immediately afterwards the same station is held back
    assert_eq!(gate.try_alert_now(&station), None);
}

// ---------------------------------------------------------------- time range

#[test]
fn given_bounds_are_used() {
    let q = TimeRangeQuery {
        start: Some("2023-12-22T04:30:00Z".to_string()),
        end: Some("2023-12-22T12:30:00.25+08:00".to_string()),
    };
    let (start, end) = resolve_time_range(&q, at(2_000_000_000, 0), at(2_000_000_001, 0));
    assert_eq!(start, at(1_703_219_400, 0));
    assert_eq!(end, at(1_703_219_400, 250_000_000));
}

#[test]
fn missing_or_unreadable_bounds_fall_back() {
    let q = TimeRangeQuery { start: None, end: Some("yesterday".to_string()) };
    let (start, end) = resolve_time_range(&q, at(1_703_219_400, 7), at(1_703_219_401, 8));
    assert_eq!(start, at(1_703_133_000, 7));
    assert_eq!(end, at(1_703_219_401, 8));
    let q = TimeRangeQuery { start: Some("2023-13-40T00:00:00Z".to_string()), end: None };
    let (start, end) = resolve_time_range(&q, at(100_000, 0), at(100_000, 0));
    assert_eq!(start, at(13_600, 0));
    assert_eq!(end, at(100_000, 0));
}

#[test]
fn time_range_now_defaults_to_last_day() {
    let q = TimeRangeQuery { start: None, end: None };
    let (start, end) = resolve_time_range_now(&q);
    assert!(end.secs >= start.secs + 86_400);
    assert!(end.secs - start.secs <= 86_401);
    let q = TimeRangeQuery {
        start: Some("2024-12-21T00:00:00Z".to_string()),
        end: Some("2024-12-22T00:00:00Z".to_string()),
    };
    let (start, end) = resolve_time_range_now(&q);
    assert_eq!(start, at(1_734_739_200, 0));
    assert_eq!(end, at(1_734_825_600, 0));
}

// ---------------------------------------------------------------- identifiers

#[test]
fn given_identifier_is_kept() {
    assert_eq!(ensure_measurement_id(42), 42);
    assert_eq!(ensure_measurement_id(u128::MAX), u128::MAX);
}

#[test]
fn nil_identifier_is_replaced_by_random_one() {
    let a = ensure_measurement_id(0);
    let b = ensure_measurement_id(0);
    assert_ne!(a, 0);
    assert_eq!(a & VERSION_VARIANT_MASK, RANDOM_VERSION_VARIANT);
    assert_eq!(b & VERSION_VARIANT_MASK, RANDOM_VERSION_VARIANT);
    assert_ne!(a, b);
}

// ---------------------------------------------------------------- posting a measurement

fn run_post(events: Vec<PostMeasurementEvent>) -> (PostMeasurementState, Vec<String>) {
    let (mut state, first) = post_measurement_start();
    let mut actions = vec![format!("{:?}", first)];
    for e in events {
        let (s, a) = post_measurement_step(state, e).expect("event accepted");
        state = s;
        actions.push(format!("{:?}", a));
    }
    (state, actions)
}

#[test]
fn post_with_alert_runs_every_step() {
    let (state, actions) = run_post(vec![
        PostMeasurementEvent::StationFound,
        PostMeasurementEvent::StoreFailed("insert failed".to_string()),
        PostMeasurementEvent::Done,
        PostMeasurementEvent::Done,
        PostMeasurementEvent::AlertRaised,
        PostMeasurementEvent::Done,
        PostMeasurementEvent::Done,
        PostMeasurementEvent::Done,
        PostMeasurementEvent::Done,
    ]);
    assert_eq!(state, PostMeasurementState::Finished);
    assert_eq!(
        actions,
        vec![
            "LookUpStation",
            "StoreMeasurement",
            "Simulate",
            "StoreSimulation",
            "CheckAlert",
            "StoreAlert",
            "BroadcastAlert",
            "BroadcastMeasurement",
            "BroadcastSimulation",
            "RespondWithSimulation",
        ]
    );
}

#[test]
fn post_without_alert_skips_alert_steps() {
    let (state, actions) = run_post(vec![PostMeasurementEvent::StationFound, PostMeasurementEvent::Done, PostMeasurementEvent::Done, PostMeasurementEvent::Done, PostMeasurementEvent::NoAlert, PostMeasurementEvent::Done, PostMeasurementEvent::Done]);
    assert_eq!(state, PostMeasurementState::Finished);
    assert_eq!(actions.last().unwrap(), "RespondWithSimulation");
    assert!(!actions.iter().any(|a| a.contains("Alert") && a != "CheckAlert"));
}

#[test]
fn post_for_unknown_station_is_refused() {
    let (state, a) = post_measurement_step(PostMeasurementState::AwaitingStation, PostMeasurementEvent::StationMissing)
        .unwrap();
    assert_eq!(state, PostMeasurementState::Finished);
    assert!(matches!(a, PostMeasurementAction::RespondWithError(Refusal::StationNotFound)));
    let (state, a) = post_measurement_step(
        PostMeasurementState::AwaitingStation,
        PostMeasurementEvent::StationLookupFailed("network down".to_string()),
    )
    .unwrap();
    assert_eq!(state, PostMeasurementState::Finished);
    match a {
        PostMeasurementAction::RespondWithError(r) => assert_eq!(r.message(), "network down"),
        other => panic!("unexpected {:?}", other),
    }
}

#[test]
fn post_rejects_out_of_order_events() {
    assert!(post_measurement_step(PostMeasurementState::Finished, PostMeasurementEvent::Done).is_none());
    assert!(post_measurement_step(PostMeasurementState::Simulating, PostMeasurementEvent::AlertRaised).is_none());
    assert!(post_measurement_step(
        PostMeasurementState::Simulating,
        PostMeasurementEvent::StoreFailed("x".to_string())
    )
    .is_none());
    assert!(post_measurement_step(PostMeasurementState::CheckingAlert, PostMeasurementEvent::Done).is_none());
}

// ---------------------------------------------------------------- Monte Carlo request

#[test]
fn analysis_request_succeeds() {
    let (state, first) = run_monte_carlo_start();
    assert_eq!(state, MonteCarloState::AwaitingLatest);
    assert!(matches!(first, MonteCarloAction::FetchLatest(1)));
    assert_eq!(ANALYSIS_SOURCE_LIMIT, 1);
    let (s, a) = run_monte_carlo_step(state, MonteCarloEvent::LatestFetched(1)).unwrap();
    assert!(matches!(a, MonteCarloAction::LookUpStation));
    let (s, a) = run_monte_carlo_step(s, MonteCarloEvent::StationFound).unwrap();
    assert!(matches!(a, MonteCarloAction::Analyze));
    let (s, a) = run_monte_carlo_step(s, MonteCarloEvent::Done).unwrap();
    assert!(matches!(a, MonteCarloAction::StoreResult));
    let (s, a) = run_monte_carlo_step(s, MonteCarloEvent::StoreFailed("full".to_string())).unwrap();
    assert!(matches!(a, MonteCarloAction::RespondWithResult));
    assert_eq!(s, MonteCarloState::Finished);
}

#[test]
fn analysis_request_refusals() {
    let (_, a) = run_monte_carlo_step(MonteCarloState::AwaitingLatest, MonteCarloEvent::LatestFetched(0)).unwrap();
    assert!(matches!(a, MonteCarloAction::RespondWithError(Refusal::NoMeasurements)));
    let (_, a) = run_monte_carlo_step(
        MonteCarloState::AwaitingLatest,
        MonteCarloEvent::LatestFetchFailed("down".to_string()),
    )
    .unwrap();
    assert!(matches!(a, MonteCarloAction::RespondWithError(Refusal::NoMeasurements)));
    let (_, a) = run_monte_carlo_step(MonteCarloState::AwaitingStation, MonteCarloEvent::StationMissing).unwrap();
    assert!(matches!(a, MonteCarloAction::RespondWithError(Refusal::StationNotFound)));
    let (_, a) = run_monte_carlo_step(
        MonteCarloState::AwaitingStation,
        MonteCarloEvent::StationLookupFailed("down".to_string()),
    )
    .unwrap();
    assert!(matches!(a, MonteCarloAction::RespondWithError(Refusal::StationNotFound)));
    assert!(run_monte_carlo_step(MonteCarloState::Finished, MonteCarloEvent::Done).is_none());
}

// ---------------------------------------------------------------- live feed

#[test]
fn live_feed_listening() {
    assert!(keeps_listening(ClientRead::Frame(ClientFrame::Text)));
    assert!(keeps_listening(ClientRead::Frame(ClientFrame::Binary)));
    assert!(keeps_listening(ClientRead::Frame(ClientFrame::Ping)));
    assert!(keeps_listening(ClientRead::Frame(ClientFrame::Pong)));
    assert!(!keeps_listening(ClientRead::Frame(ClientFrame::Close)));
    assert!(!keeps_listening(ClientRead::Failed));
    assert!(!keeps_listening(ClientRead::Ended));
}

#[test]
fn live_feed_pushing() {
    assert!(keeps_pushing(FeedPush::Sent));
    assert!(keeps_pushing(FeedPush::Unencodable));
    assert!(!keeps_pushing(FeedPush::SendFailed));
    assert!(!keeps_pushing(FeedPush::SourceClosed));
}
