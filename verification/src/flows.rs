use vstd::prelude::*;
use crate::refusal::Refusal;

verus! {

// ---------------------------------------------------------------------------
// Requests that work against the default station
// ---------------------------------------------------------------------------

/// Identifier of the station that requests without a station work against.
pub const DEFAULT_STATION_ID: &'static str = "dengfeng_001";

/// Number of most recent measurements listed by the "latest" endpoint.
pub const LATEST_LIMIT: u64 = 100;

/// Number of most recent measurements listed by the plain listing endpoint.
pub const LISTING_LIMIT: u64 = 1000;

/// Number of most recent measurements a Monte Carlo analysis draws on.
pub const ANALYSIS_SOURCE_LIMIT: u64 = 1;

/// The default station where the lookup found it; any other outcome, a
/// missing record or a failed read, refuses the request alike.
pub fn require_default_station<T>(read: Result<Option<T>, String>) -> (res: Result<T, Refusal>)
    ensures
        match read {
            Ok(Some(s)) => res == Ok::<T, Refusal>(s),
            _ => res matches Err(Refusal::DefaultStationNotFound),
        },
{
    match read {
        Ok(Some(s)) => Ok(s),
        _ => Err(Refusal::DefaultStationNotFound),
    }
}

// ---------------------------------------------------------------------------
// Posting a measurement
// ---------------------------------------------------------------------------

/// Where the handling of a posted measurement stands.
#[derive(Clone, Copy, Debug, PartialEq, Eq, Structural)]
pub enum PostMeasurementState {
    AwaitingStation,
    StoringMeasurement,
    Simulating,
    StoringSimulation,
    CheckingAlert,
    StoringAlert,
    BroadcastingAlert,
    BroadcastingMeasurement,
    BroadcastingSimulation,
    Finished,
}

/// What the outside work of the last action came to.
#[derive(Debug)]
pub enum PostMeasurementEvent {
    /// The measurement's station is on record.
    StationFound,
    /// The measurement's station is not on record.
    StationMissing,
    /// Reading the station failed with this message.
    StationLookupFailed(String),
    /// The action completed.
    Done,
    /// Storing failed with this message (the failure is only reported).
    StoreFailed(String),
    /// The alert check raised an alert.
    AlertRaised,
    /// The alert check raised no alert.
    NoAlert,
}

/// The outside work to do next.
#[derive(Debug)]
pub enum PostMeasurementAction {
    LookUpStation,
    StoreMeasurement,
    Simulate,
    StoreSimulation,
    CheckAlert,
    StoreAlert,
    BroadcastAlert,
    BroadcastMeasurement,
    BroadcastSimulation,
    /// Answer with the simulation result.
    RespondWithSimulation,
    /// Answer with a failure.
    RespondWithError(Refusal),
}

/// An action that answers the request, which ends its handling.
pub open spec fn is_post_response(a: PostMeasurementAction) -> bool {
    a is RespondWithSimulation || a is RespondWithError
}

/// One step of the handling of a posted measurement: the next state and
/// action, or `None` where the event cannot follow the state.
pub open spec fn post_next(state: PostMeasurementState, event: PostMeasurementEvent) -> Option<
    (PostMeasurementState, PostMeasurementAction),
> {
    match (state, event) {
        (PostMeasurementState::AwaitingStation, PostMeasurementEvent::StationFound) => Some(
            (PostMeasurementState::StoringMeasurement, PostMeasurementAction::StoreMeasurement),
        ),
        (PostMeasurementState::AwaitingStation, PostMeasurementEvent::StationMissing) => Some(
            (PostMeasurementState::Finished, PostMeasurementAction::RespondWithError(Refusal::StationNotFound)),
        ),
        (PostMeasurementState::AwaitingStation, PostMeasurementEvent::StationLookupFailed(e)) => Some(
            (PostMeasurementState::Finished, PostMeasurementAction::RespondWithError(Refusal::StoreError(e))),
        ),
        (PostMeasurementState::StoringMeasurement, PostMeasurementEvent::Done) => Some(
            (PostMeasurementState::Simulating, PostMeasurementAction::Simulate),
        ),
        (PostMeasurementState::StoringMeasurement, PostMeasurementEvent::StoreFailed(_)) => Some(
            (PostMeasurementState::Simulating, PostMeasurementAction::Simulate),
        ),
        (PostMeasurementState::Simulating, PostMeasurementEvent::Done) => Some(
            (PostMeasurementState::StoringSimulation, PostMeasurementAction::StoreSimulation),
        ),
        (PostMeasurementState::StoringSimulation, PostMeasurementEvent::Done) => Some(
            (PostMeasurementState::CheckingAlert, PostMeasurementAction::CheckAlert),
        ),
        (PostMeasurementState::StoringSimulation, PostMeasurementEvent::StoreFailed(_)) => Some(
            (PostMeasurementState::CheckingAlert, PostMeasurementAction::CheckAlert),
        ),
        (PostMeasurementState::CheckingAlert, PostMeasurementEvent::AlertRaised) => Some(
            (PostMeasurementState::StoringAlert, PostMeasurementAction::StoreAlert),
        ),
        (PostMeasurementState::CheckingAlert, PostMeasurementEvent::NoAlert) => Some(
            (PostMeasurementState::BroadcastingMeasurement, PostMeasurementAction::BroadcastMeasurement),
        ),
        (PostMeasurementState::StoringAlert, PostMeasurementEvent::Done) => Some(
            (PostMeasurementState::BroadcastingAlert, PostMeasurementAction::BroadcastAlert),
        ),
        (PostMeasurementState::StoringAlert, PostMeasurementEvent::StoreFailed(_)) => Some(
            (PostMeasurementState::BroadcastingAlert, PostMeasurementAction::BroadcastAlert),
        ),
        (PostMeasurementState::BroadcastingAlert, PostMeasurementEvent::Done) => Some(
            (PostMeasurementState::BroadcastingMeasurement, PostMeasurementAction::BroadcastMeasurement),
        ),
        (PostMeasurementState::BroadcastingMeasurement, PostMeasurementEvent::Done) => Some(
            (PostMeasurementState::BroadcastingSimulation, PostMeasurementAction::BroadcastSimulation),
        ),
        (PostMeasurementState::BroadcastingSimulation, PostMeasurementEvent::Done) => Some(
            (PostMeasurementState::Finished, PostMeasurementAction::RespondWithSimulation),
        ),
        _ => None,
    }
}

/// The handling of a posted measurement begins by looking up its station.
pub fn post_measurement_start() -> (res: (PostMeasurementState, PostMeasurementAction))
    ensures
        res == (PostMeasurementState::AwaitingStation, PostMeasurementAction::LookUpStation),
{
    (PostMeasurementState::AwaitingStation, PostMeasurementAction::LookUpStation)
}

/// The next state and action after `event` in `state`; `None` where the
/// event cannot follow the state.
pub fn post_measurement_step(state: PostMeasurementState, event: PostMeasurementEvent) -> (res: Option<
    (PostMeasurementState, PostMeasurementAction),
>)
    ensures
        res == post_next(state, event),
{
    match (state, event) {
        (PostMeasurementState::AwaitingStation, PostMeasurementEvent::StationFound) => Some(
            (PostMeasurementState::StoringMeasurement, PostMeasurementAction::StoreMeasurement),
        ),
        (PostMeasurementState::AwaitingStation, PostMeasurementEvent::StationMissing) => Some(
            (PostMeasurementState::Finished, PostMeasurementAction::RespondWithError(Refusal::StationNotFound)),
        ),
        (PostMeasurementState::AwaitingStation, PostMeasurementEvent::StationLookupFailed(e)) => Some(
            (PostMeasurementState::Finished, PostMeasurementAction::RespondWithError(Refusal::StoreError(e))),
        ),
        (PostMeasurementState::StoringMeasurement, PostMeasurementEvent::Done) => Some(
            (PostMeasurementState::Simulating, PostMeasurementAction::Simulate),
        ),
        (PostMeasurementState::StoringMeasurement, PostMeasurementEvent::StoreFailed(_)) => Some(
            (PostMeasurementState::Simulating, PostMeasurementAction::Simulate),
        ),
        (PostMeasurementState::Simulating, PostMeasurementEvent::Done) => Some(
            (PostMeasurementState::StoringSimulation, PostMeasurementAction::StoreSimulation),
        ),
        (PostMeasurementState::StoringSimulation, PostMeasurementEvent::Done) => Some(
            (PostMeasurementState::CheckingAlert, PostMeasurementAction::CheckAlert),
        ),
        (PostMeasurementState::StoringSimulation, PostMeasurementEvent::StoreFailed(_)) => Some(
            (PostMeasurementState::CheckingAlert, PostMeasurementAction::CheckAlert),
        ),
        (PostMeasurementState::CheckingAlert, PostMeasurementEvent::AlertRaised) => Some(
            (PostMeasurementState::StoringAlert, PostMeasurementAction::StoreAlert),
        ),
        (PostMeasurementState::CheckingAlert, PostMeasurementEvent::NoAlert) => Some(
            (PostMeasurementState::BroadcastingMeasurement, PostMeasurementAction::BroadcastMeasurement),
        ),
        (PostMeasurementState::StoringAlert, PostMeasurementEvent::Done) => Some(
            (PostMeasurementState::BroadcastingAlert, PostMeasurementAction::BroadcastAlert),
        ),
        (PostMeasurementState::StoringAlert, PostMeasurementEvent::StoreFailed(_)) => Some(
            (PostMeasurementState::BroadcastingAlert, PostMeasurementAction::BroadcastAlert),
        ),
        (PostMeasurementState::BroadcastingAlert, PostMeasurementEvent::Done) => Some(
            (PostMeasurementState::BroadcastingMeasurement, PostMeasurementAction::BroadcastMeasurement),
        ),
        (PostMeasurementState::BroadcastingMeasurement, PostMeasurementEvent::Done) => Some(
            (PostMeasurementState::BroadcastingSimulation, PostMeasurementAction::BroadcastSimulation),
        ),
        (PostMeasurementState::BroadcastingSimulation, PostMeasurementEvent::Done) => Some(
            (PostMeasurementState::Finished, PostMeasurementAction::RespondWithSimulation),
        ),
        _ => None,
    }
}

/// The handling of a posted measurement from `state` through `events`: the
/// state reached and the actions taken, or `None` where some event cannot
/// follow the state it meets.
pub open spec fn post_replay(state: PostMeasurementState, events: Seq<PostMeasurementEvent>) -> Option<
    (PostMeasurementState, Seq<PostMeasurementAction>),
>
    decreases events.len(),
{
    if events.len() == 0 {
        Some((state, Seq::empty()))
    } else {
        match post_next(state, events[0]) {
            Some((next, action)) => match post_replay(next, events.drop_first()) {
                Some((last, actions)) => Some((last, seq![action] + actions)),
                None => None,
            },
            None => None,
        }
    }
}

/// The states in which the station has been found and the handling is not
/// yet finished.
pub open spec fn post_after_station(state: PostMeasurementState) -> bool {
    state != PostMeasurementState::AwaitingStation && state != PostMeasurementState::Finished
}

proof fn lemma_post_replay(state: PostMeasurementState, events: Seq<PostMeasurementEvent>)
    ensures
        match post_replay(state, events) {
            Some((last, actions)) => {
                &&& actions.len() == events.len()
                &&& forall|i: int| 0 <= i < events.len() ==>
                    ((#[trigger] actions[i] is StoreAlert) <==> (events[i] is AlertRaised))
                &&& state == PostMeasurementState::Finished ==> events.len() == 0
                &&& (last == PostMeasurementState::Finished && state != PostMeasurementState::Finished) ==> {
                    &&& events.len() >= 1
                    &&& is_post_response(actions.last())
                    &&& forall|i: int| 0 <= i < actions.len() - 1 ==> !is_post_response(#[trigger] actions[i])
                    &&& post_after_station(state) ==> actions.last() is RespondWithSimulation
                }
            },
            None => true,
        },
    decreases events.len(),
{
    if events.len() > 0 {
        let rest = events.drop_first();
        match post_next(state, events[0]) {
            Some((next, action)) => {
                lemma_post_replay(next, rest);
                match post_replay(next, rest) {
                    Some((last, tail)) => {
                        let actions = seq![action] + tail;
                        assert forall|i: int| 0 <= i < events.len() implies ((#[trigger] actions[i] is StoreAlert)
                            <==> (events[i] is AlertRaised)) by {
                            if i > 0 {
                                assert(actions[i] == tail[i - 1]);
                                assert(events[i] == rest[i - 1]);
                            }
                        }
                        if last == PostMeasurementState::Finished {
                            if next == PostMeasurementState::Finished {
                                assert(tail.len() == 0);
                                assert(actions.last() == action);
                            } else {
                                assert(actions.last() == tail.last());
                                assert forall|i: int| 0 <= i < actions.len() - 1 implies !is_post_response(
                                    #[trigger] actions[i]) by {
                                    if i > 0 {
                                        assert(actions[i] == tail[i - 1]);
                                    }
                                }
                            }
                        }
                    },
                    None => {},
                }
            },
            None => {},
        }
    }
}

/// A posted measurement is answered exactly once, by the last action of its
/// handling, and the answer is the simulation result exactly when the
/// measurement's station was found; otherwise it is "Station not found" or
/// the store's error message.
pub proof fn law_post_measurement_answers_once(
    events: Seq<PostMeasurementEvent>,
    actions: Seq<PostMeasurementAction>,
)
    requires
        post_replay(PostMeasurementState::AwaitingStation, events) == Some(
            (PostMeasurementState::Finished, actions),
        ),
    ensures
        actions.len() == events.len(),
        events.len() >= 1,
        is_post_response(actions.last()),
        forall|i: int| 0 <= i < actions.len() - 1 ==> !is_post_response(#[trigger] actions[i]),
        (actions.last() is RespondWithSimulation) <==> (events[0] is StationFound),
        events[0] is StationMissing ==> actions.last() == PostMeasurementAction::RespondWithError(
            Refusal::StationNotFound,
        ),
        events[0] matches PostMeasurementEvent::StationLookupFailed(e)
            ==> actions.last() == PostMeasurementAction::RespondWithError(Refusal::StoreError(e)),
{
    lemma_post_replay(PostMeasurementState::AwaitingStation, events);
    let rest = events.drop_first();
    match post_next(PostMeasurementState::AwaitingStation, events[0]) {
        Some((next, action)) => {
            lemma_post_replay(next, rest);
            let tail = post_replay(next, rest).unwrap().1;
            if next == PostMeasurementState::Finished {
                assert(tail.len() == 0);
                assert(actions =~= seq![action]);
            } else {
                assert(actions =~= seq![action] + tail);
                assert(actions.last() == tail.last());
            }
        },
        None => {},
    }
}

proof fn lemma_post_tail(state: PostMeasurementState, events: Seq<PostMeasurementEvent>)
    ensures
        match post_replay(state, events) {
            Some((last, actions)) => last == PostMeasurementState::Finished ==> {
            &&& state == PostMeasurementState::BroadcastingSimulation ==> actions
                =~= seq![PostMeasurementAction::RespondWithSimulation]
            &&& state == PostMeasurementState::BroadcastingMeasurement ==> actions =~= seq![
                PostMeasurementAction::BroadcastSimulation,
                PostMeasurementAction::RespondWithSimulation,
            ]
            &&& (state == PostMeasurementState::CheckingAlert || state == PostMeasurementState::StoringAlert
                || state == PostMeasurementState::BroadcastingAlert) ==> {
                &&& actions.len() >= 3
                &&& actions[actions.len() - 3] == PostMeasurementAction::BroadcastMeasurement
                &&& actions[actions.len() - 2] == PostMeasurementAction::BroadcastSimulation
                &&& actions[actions.len() - 1] == PostMeasurementAction::RespondWithSimulation
            }
            },
            None => true,
        },
    decreases events.len(),
{
    if events.len() > 0 {
        let rest = events.drop_first();
        match post_next(state, events[0]) {
            Some((next, action)) => {
                lemma_post_tail(next, rest);
                lemma_post_replay(next, rest);
                match post_replay(next, rest) {
                    Some((last, tail)) => {
                        let actions = seq![action] + tail;
                        if last == PostMeasurementState::Finished && next != PostMeasurementState::Finished {
                            assert(tail.len() >= 1);
                            assert(actions[actions.len() - 1] == tail[tail.len() - 1]);
                            if tail.len() >= 2 {
                                assert(actions[actions.len() - 2] == tail[tail.len() - 2]);
                            }
                            if tail.len() >= 3 {
                                assert(actions[actions.len() - 3] == tail[tail.len() - 3]);
                            }
                        }
                        if next == PostMeasurementState::Finished {
                            assert(tail.len() == 0);
                        }
                    },
                    None => {},
                }
            },
            None => {},
        }
    }
}

/// A measurement whose station is found is stored first, then simulated,
/// then its simulation is stored and the alert check runs; the handling ends
/// by broadcasting the measurement, then the simulation, then answering.
pub proof fn law_post_measurement_order(events: Seq<PostMeasurementEvent>, actions: Seq<PostMeasurementAction>)
    requires
        post_replay(PostMeasurementState::AwaitingStation, events) == Some(
            (PostMeasurementState::Finished, actions),
        ),
        events[0] is StationFound,
    ensures
        actions.len() >= 7,
        actions[0] == PostMeasurementAction::StoreMeasurement,
        actions[1] == PostMeasurementAction::Simulate,
        actions[2] == PostMeasurementAction::StoreSimulation,
        actions[3] == PostMeasurementAction::CheckAlert,
        actions[actions.len() - 3] == PostMeasurementAction::BroadcastMeasurement,
        actions[actions.len() - 2] == PostMeasurementAction::BroadcastSimulation,
        actions[actions.len() - 1] == PostMeasurementAction::RespondWithSimulation,
{
    let e0 = events;
    let e1 = e0.drop_first();
    let e2 = e1.drop_first();
    let e3 = e2.drop_first();
    let e4 = e3.drop_first();
    lemma_post_replay(PostMeasurementState::StoringMeasurement, e1);
    lemma_post_replay(PostMeasurementState::Simulating, e2);
    lemma_post_replay(PostMeasurementState::StoringSimulation, e3);
    let a1 = post_replay(PostMeasurementState::StoringMeasurement, e1).unwrap().1;
    assert(actions =~= seq![PostMeasurementAction::StoreMeasurement] + a1);
    let a2 = post_replay(PostMeasurementState::Simulating, e2).unwrap().1;
    assert(a1 =~= seq![PostMeasurementAction::Simulate] + a2);
    let a3 = post_replay(PostMeasurementState::StoringSimulation, e3).unwrap().1;
    assert(a2 =~= seq![PostMeasurementAction::StoreSimulation] + a3);
    let a4 = post_replay(PostMeasurementState::CheckingAlert, e4).unwrap().1;
    assert(a3 =~= seq![PostMeasurementAction::CheckAlert] + a4);
    lemma_post_tail(PostMeasurementState::CheckingAlert, e4);
    assert(actions =~= seq![
        PostMeasurementAction::StoreMeasurement,
        PostMeasurementAction::Simulate,
        PostMeasurementAction::StoreSimulation,
        PostMeasurementAction::CheckAlert,
    ] + a4);
}

/// An alert is stored exactly at the steps at which the alert check raised
/// one, whatever else happens.
pub proof fn law_post_measurement_alerts(
    state: PostMeasurementState,
    events: Seq<PostMeasurementEvent>,
    last: PostMeasurementState,
    actions: Seq<PostMeasurementAction>,
)
    requires
        post_replay(state, events) == Some((last, actions)),
    ensures
        actions.len() == events.len(),
        forall|i: int| 0 <= i < events.len() ==> ((#[trigger] actions[i] is StoreAlert) <==> (events[i] is AlertRaised)),
{
    lemma_post_replay(state, events);
}

/// A failed store changes nothing: the handling goes on as after a store
/// that succeeded.
pub proof fn law_post_store_failure_ignored(state: PostMeasurementState, msg: String)
    requires
        state == PostMeasurementState::StoringMeasurement || state == PostMeasurementState::StoringSimulation
            || state == PostMeasurementState::StoringAlert,
    ensures
        post_next(state, PostMeasurementEvent::StoreFailed(msg)) is Some,
        post_next(state, PostMeasurementEvent::StoreFailed(msg)) == post_next(state, PostMeasurementEvent::Done),
{
}

// ---------------------------------------------------------------------------
// Running a Monte Carlo analysis
// ---------------------------------------------------------------------------

/// Where the handling of a Monte Carlo analysis request stands.
#[derive(Clone, Copy, Debug, PartialEq, Eq, Structural)]
pub enum MonteCarloState {
    AwaitingLatest,
    AwaitingStation,
    Analyzing,
    StoringResult,
    Finished,
}

/// What the outside work of the last action came to.
#[derive(Debug)]
pub enum MonteCarloEvent {
    /// The most recent measurements were read; this many came back.
    LatestFetched(usize),
    /// Reading the most recent measurements failed with this message.
    LatestFetchFailed(String),
    /// The measurement's station is on record.
    StationFound,
    /// The measurement's station is not on record.
    StationMissing,
    /// Reading the station failed with this message.
    StationLookupFailed(String),
    /// The action completed.
    Done,
    /// Storing the result failed with this message (the failure is only reported).
    StoreFailed(String),
}

/// The outside work to do next.
#[derive(Debug)]
pub enum MonteCarloAction {
    /// Read this many most recent measurements.
    FetchLatest(u64),
    /// Look up the station of the most recent measurement.
    LookUpStation,
    /// Analyse the most recent measurement.
    Analyze,
    StoreResult,
    /// Answer with the analysis result.
    RespondWithResult,
    /// Answer with a failure.
    RespondWithError(Refusal),
}

/// An action that answers the request, which ends its handling.
pub open spec fn is_analysis_response(a: MonteCarloAction) -> bool {
    a is RespondWithResult || a is RespondWithError
}

/// One step of the handling of an analysis request: the next state and
/// action, or `None` where the event cannot follow the state.
pub open spec fn analysis_next(state: MonteCarloState, event: MonteCarloEvent) -> Option<(MonteCarloState, MonteCarloAction)> {
    match (state, event) {
        (MonteCarloState::AwaitingLatest, MonteCarloEvent::LatestFetched(n)) => if n > 0 {
            Some((MonteCarloState::AwaitingStation, MonteCarloAction::LookUpStation))
        } else {
            Some((MonteCarloState::Finished, MonteCarloAction::RespondWithError(Refusal::NoMeasurements)))
        },
        (MonteCarloState::AwaitingLatest, MonteCarloEvent::LatestFetchFailed(_)) => Some(
            (MonteCarloState::Finished, MonteCarloAction::RespondWithError(Refusal::NoMeasurements)),
        ),
        (MonteCarloState::AwaitingStation, MonteCarloEvent::StationFound) => Some(
            (MonteCarloState::Analyzing, MonteCarloAction::Analyze),
        ),
        (MonteCarloState::AwaitingStation, MonteCarloEvent::StationMissing) => Some(
            (MonteCarloState::Finished, MonteCarloAction::RespondWithError(Refusal::StationNotFound)),
        ),
        (MonteCarloState::AwaitingStation, MonteCarloEvent::StationLookupFailed(_)) => Some(
            (MonteCarloState::Finished, MonteCarloAction::RespondWithError(Refusal::StationNotFound)),
        ),
        (MonteCarloState::Analyzing, MonteCarloEvent::Done) => Some(
            (MonteCarloState::StoringResult, MonteCarloAction::StoreResult),
        ),
        (MonteCarloState::StoringResult, MonteCarloEvent::Done) => Some(
            (MonteCarloState::Finished, MonteCarloAction::RespondWithResult),
        ),
        (MonteCarloState::StoringResult, MonteCarloEvent::StoreFailed(_)) => Some(
            (MonteCarloState::Finished, MonteCarloAction::RespondWithResult),
        ),
        _ => None,
    }
}

/// The handling of an analysis request begins by reading the most recent
/// measurement.
pub fn run_monte_carlo_start() -> (res: (MonteCarloState, MonteCarloAction))
    ensures
        res == (MonteCarloState::AwaitingLatest, MonteCarloAction::FetchLatest(ANALYSIS_SOURCE_LIMIT)),
{
    (MonteCarloState::AwaitingLatest, MonteCarloAction::FetchLatest(ANALYSIS_SOURCE_LIMIT))
}

/// The next state and action after `event` in `state`; `None` where the
/// event cannot follow the state.
pub fn run_monte_carlo_step(state: MonteCarloState, event: MonteCarloEvent) -> (res: Option<(MonteCarloState, MonteCarloAction)>)
    ensures
        res == analysis_next(state, event),
{
    match (state, event) {
        (MonteCarloState::AwaitingLatest, MonteCarloEvent::LatestFetched(n)) => if n > 0 {
            Some((MonteCarloState::AwaitingStation, MonteCarloAction::LookUpStation))
        } else {
            Some((MonteCarloState::Finished, MonteCarloAction::RespondWithError(Refusal::NoMeasurements)))
        },
        (MonteCarloState::AwaitingLatest, MonteCarloEvent::LatestFetchFailed(_)) => Some(
            (MonteCarloState::Finished, MonteCarloAction::RespondWithError(Refusal::NoMeasurements)),
        ),
        (MonteCarloState::AwaitingStation, MonteCarloEvent::StationFound) => Some(
            (MonteCarloState::Analyzing, MonteCarloAction::Analyze),
        ),
        (MonteCarloState::AwaitingStation, MonteCarloEvent::StationMissing) => Some(
            (MonteCarloState::Finished, MonteCarloAction::RespondWithError(Refusal::StationNotFound)),
        ),
        (MonteCarloState::AwaitingStation, MonteCarloEvent::StationLookupFailed(_)) => Some(
            (MonteCarloState::Finished, MonteCarloAction::RespondWithError(Refusal::StationNotFound)),
        ),
        (MonteCarloState::Analyzing, MonteCarloEvent::Done) => Some(
            (MonteCarloState::StoringResult, MonteCarloAction::StoreResult),
        ),
        (MonteCarloState::StoringResult, MonteCarloEvent::Done) => Some(
            (MonteCarloState::Finished, MonteCarloAction::RespondWithResult),
        ),
        (MonteCarloState::StoringResult, MonteCarloEvent::StoreFailed(_)) => Some(
            (MonteCarloState::Finished, MonteCarloAction::RespondWithResult),
        ),
        _ => None,
    }
}

/// The handling of an analysis request from `state` through `events`: the
/// state reached and the actions taken, or `None` where some event cannot
/// follow the state it meets.
pub open spec fn analysis_replay(state: MonteCarloState, events: Seq<MonteCarloEvent>) -> Option<
    (MonteCarloState, Seq<MonteCarloAction>),
>
    decreases events.len(),
{
    if events.len() == 0 {
        Some((state, Seq::empty()))
    } else {
        match analysis_next(state, events[0]) {
            Some((next, action)) => match analysis_replay(next, events.drop_first()) {
                Some((last, actions)) => Some((last, seq![action] + actions)),
                None => None,
            },
            None => None,
        }
    }
}

/// The first event reports at least one recent measurement.
pub open spec fn found_measurement(e: MonteCarloEvent) -> bool {
    e matches MonteCarloEvent::LatestFetched(n) && n > 0
}

proof fn lemma_analysis_replay(state: MonteCarloState, events: Seq<MonteCarloEvent>)
    ensures
        match analysis_replay(state, events) {
            Some((last, actions)) => {
                &&& actions.len() == events.len()
                &&& state == MonteCarloState::Finished ==> events.len() == 0
                &&& (last == MonteCarloState::Finished && state != MonteCarloState::Finished) ==> {
                    &&& events.len() >= 1
                    &&& is_analysis_response(actions.last())
                    &&& forall|i: int| 0 <= i < actions.len() - 1 ==> !is_analysis_response(#[trigger] actions[i])
                    &&& (state == MonteCarloState::Analyzing || state == MonteCarloState::StoringResult)
                        ==> actions.last() is RespondWithResult
                }
            },
            None => true,
        },
    decreases events.len(),
{
    if events.len() > 0 {
        let rest = events.drop_first();
        match analysis_next(state, events[0]) {
            Some((next, action)) => {
                lemma_analysis_replay(next, rest);
                match analysis_replay(next, rest) {
                    Some((last, tail)) => {
                        let actions = seq![action] + tail;
                        if last == MonteCarloState::Finished {
                            if next == MonteCarloState::Finished {
                                assert(tail.len() == 0);
                                assert(actions.last() == action);
                            } else {
                                assert(actions.last() == tail.last());
                                assert forall|i: int| 0 <= i < actions.len() - 1 implies !is_analysis_response(
                                    #[trigger] actions[i]) by {
                                    if i > 0 {
                                        assert(actions[i] == tail[i - 1]);
                                    }
                                }
                            }
                        }
                    },
                    None => {},
                }
            },
            None => {},
        }
    }
}

/// An analysis request is answered exactly once, by the last action of its
/// handling. The answer is the analysis result exactly when a recent
/// measurement was found and its station is on record; it is "No measurements
/// available" when no recent measurement could be read, and "Station not
/// found" when the station could not be read.
pub proof fn law_run_monte_carlo_answers_once(events: Seq<MonteCarloEvent>, actions: Seq<MonteCarloAction>)
    requires
        analysis_replay(MonteCarloState::AwaitingLatest, events) == Some((MonteCarloState::Finished, actions)),
    ensures
        actions.len() == events.len(),
        events.len() >= 1,
        is_analysis_response(actions.last()),
        forall|i: int| 0 <= i < actions.len() - 1 ==> !is_analysis_response(#[trigger] actions[i]),
        (actions.last() is RespondWithResult) <==> (found_measurement(events[0]) && events[1] is StationFound),
        !found_measurement(events[0]) ==> actions.last() == MonteCarloAction::RespondWithError(Refusal::NoMeasurements),
        found_measurement(events[0]) && !(events[1] is StationFound) ==> actions.last()
            == MonteCarloAction::RespondWithError(Refusal::StationNotFound),
{
    lemma_analysis_replay(MonteCarloState::AwaitingLatest, events);
    let rest = events.drop_first();
    let (next, action) = analysis_next(MonteCarloState::AwaitingLatest, events[0]).unwrap();
    lemma_analysis_replay(next, rest);
    let tail = analysis_replay(next, rest).unwrap().1;
    if next == MonteCarloState::Finished {
        assert(tail.len() == 0);
        assert(actions =~= seq![action]);
    } else {
        assert(actions =~= seq![action] + tail);
        assert(actions.last() == tail.last());
        assert(rest[0] == events[1]);
        let rest2 = rest.drop_first();
        let (next2, action2) = analysis_next(next, rest[0]).unwrap();
        lemma_analysis_replay(next2, rest2);
        let tail2 = analysis_replay(next2, rest2).unwrap().1;
        if next2 == MonteCarloState::Finished {
            assert(tail2.len() == 0);
            assert(tail =~= seq![action2]);
        } else {
            assert(tail =~= seq![action2] + tail2);
            assert(tail.last() == tail2.last());
        }
    }
}

/// A failed store of the analysis result changes nothing: the request is
/// answered with the result as after a store that succeeded.
pub proof fn law_run_monte_carlo_store_failure_ignored(msg: String)
    ensures
        analysis_next(MonteCarloState::StoringResult, MonteCarloEvent::StoreFailed(msg)) == analysis_next(
            MonteCarloState::StoringResult,
            MonteCarloEvent::Done,
        ),
        analysis_next(MonteCarloState::StoringResult, MonteCarloEvent::Done) == Some(
            (MonteCarloState::Finished, MonteCarloAction::RespondWithResult),
        ),
{
}

} // verus!
