use std::collections::HashMap;

use chrono::Utc;
use rustmob::error::TimerError;
use rustmob::identity::get_connection_id;
use rustmob::record::{encode_record, retrieve_future_time, store_future_time, Validation};
use rustmob::session::{
    exit_code, option_cancel, option_join, option_new, Action, Event, Outcome, Session,
    SessionPhase,
};

const FIVE_MINUTES: u64 = 5;

/// A store in memory that counts what is asked of it.
struct Store {
    records: HashMap<String, String>,
    reads: usize,
    writes: usize,
    removals: usize,
    up: bool,
}

fn empty_store() -> Store {
    Store { records: HashMap::new(), reads: 0, writes: 0, removals: 0, up: true }
}

fn perform(store: &mut Store, action: &Action) -> Option<Event> {
    match action {
        Action::Finish { .. } | Action::Idle => None,
        _ if !store.up => Some(Event::Unavailable),
        Action::Fetch { key } => {
            store.reads += 1;
            let body = store.records.get(key).cloned().unwrap_or("null".to_string());
            Some(Event::Fetched { body })
        }
        Action::Store { key, payload } => {
            store.writes += 1;
            store.records.insert(key.clone(), payload.clone());
            Some(Event::Stored)
        }
        Action::Delete { key } => {
            store.removals += 1;
            store.records.remove(key);
            Some(Event::Deleted)
        }
    }
}

/// Runs a session to its end, at the given time or by the clock.
fn run(store: &mut Store, begun: (Session, Action), now: Option<i64>) -> Outcome {
    let (mut session, mut action) = begun;
    for _ in 0..4 {
        match perform(store, &action) {
            Some(event) => {
                action = match now {
                    Some(now) => session.advance_at(event, now),
                    None => session.advance(event),
                }
            }
            None => break,
        }
    }
    assert_eq!(session.phase(), SessionPhase::Done);
    match action {
        Action::Finish { outcome } => outcome,
        other => panic!("the session did not finish: {:?}", other),
    }
}

fn as_result(outcome: Outcome) -> Result<(), TimerError> {
    match outcome {
        Outcome::Stopped { error } => Err(error),
        _ => Ok(()),
    }
}

fn stopped(error: TimerError) -> Outcome {
    Outcome::Stopped { error }
}

#[test]
fn option_new_exits_when_timer_already_started() {
    const SOME_UID: &str = "TEST-option_new_exits_when_timer_already_started";
    let mut store = empty_store();
    let request = store_future_time(None, FIVE_MINUTES, &get_connection_id(SOME_UID)).unwrap();
    store.records.insert(request.key, request.payload);

    let outcome = run(&mut store, option_new(SOME_UID, FIVE_MINUTES, Validation::Tolerant), None);

    assert!(as_result(outcome).is_err());
}

#[test]
fn new_stores_the_end_time() {
    let mut store = empty_store();
    let id = get_connection_id("machine");

    let outcome = run(&mut store, option_new("machine", 5, Validation::Tolerant), Some(0));

    assert_eq!(outcome, Outcome::Started { id: id.clone(), end_time: 300 });
    assert_eq!(store.records[&id], "{\"endTime\":300}");
    assert_eq!(retrieve_future_time(&store.records[&id], Validation::Tolerant), Ok(Some(300)));
    assert_eq!((store.reads, store.writes, store.removals), (1, 1, 0));
}

#[test]
fn new_twice_is_refused_and_writes_nothing() {
    let mut store = empty_store();
    let id = get_connection_id("machine");
    let first = run(&mut store, option_new("machine", 5, Validation::Tolerant), Some(1_000));
    assert_eq!(first, Outcome::Started { id: id.clone(), end_time: 1_300 });
    assert_eq!(store.writes, 1);

    let second = run(&mut store, option_new("machine", 5, Validation::Tolerant), Some(1_001));

    assert_eq!(second, stopped(TimerError::AlreadyRunning));
    assert_eq!(store.writes, 1);
    assert_eq!(store.records[&id], "{\"endTime\":1300}");
}

#[test]
fn new_by_the_clock_is_refused_while_the_first_runs() {
    let mut store = empty_store();
    let before = Utc::now().timestamp();
    let first = run(&mut store, option_new("machine", 5, Validation::Tolerant), None);
    match first {
        Outcome::Started { id, end_time } => {
            assert_eq!(id, get_connection_id("machine"));
            assert!(before + 300 <= end_time && end_time <= Utc::now().timestamp() + 300);
        }
        other => panic!("expected a start, got {:?}", other),
    }
    let second = run(&mut store, option_new("machine", 5, Validation::Tolerant), None);
    assert_eq!(second, stopped(TimerError::AlreadyRunning));
    assert_eq!(store.writes, 1);
}

#[test]
fn new_is_refused_up_to_the_end_time_itself() {
    let id = get_connection_id("machine");
    for (now, refused) in [(1_299i64, true), (1_300, true), (1_301, false)] {
        let mut store = empty_store();
        store.records.insert(id.clone(), encode_record(1_300));
        let outcome = run(&mut store, option_new("machine", 1, Validation::Tolerant), Some(now));
        if refused {
            assert_eq!(outcome, stopped(TimerError::AlreadyRunning));
            assert_eq!(store.writes, 0);
            assert_eq!(store.records[&id], "{\"endTime\":1300}");
        } else {
            assert_eq!(outcome, Outcome::Started { id: id.clone(), end_time: 1_361 });
            assert_eq!(store.records[&id], "{\"endTime\":1361}");
        }
    }
}

#[test]
fn new_replaces_a_record_that_ran_out() {
    let mut store = empty_store();
    let id = get_connection_id("machine");
    store.records.insert(id.clone(), encode_record(10));
    store.records.insert("other".to_string(), encode_record(99_999));

    let outcome = run(&mut store, option_new("machine", 2, Validation::Strict), Some(500));

    assert_eq!(outcome, Outcome::Started { id: id.clone(), end_time: 620 });
    assert_eq!(store.records[&id], "{\"endTime\":620}");
    assert_eq!(store.records["other"], "{\"endTime\":99999}");
    assert_eq!(store.records.len(), 2);
}

#[test]
fn new_with_zero_minutes_ends_at_once() {
    let mut store = empty_store();
    let id = get_connection_id("machine");
    let outcome = run(&mut store, option_new("machine", 0, Validation::Tolerant), Some(777));
    assert_eq!(outcome, Outcome::Started { id: id.clone(), end_time: 777 });
    assert_eq!(store.records[&id], "{\"endTime\":777}");
}

#[test]
fn new_first_reads_its_own_key() {
    let (session, action) = option_new("abc", 5, Validation::Tolerant);
    assert_eq!(action, Action::Fetch { key: "900150983cd24fb0d6963f7d28e17f72".to_string() });
    assert_eq!(session.key(), "900150983cd24fb0d6963f7d28e17f72");
    assert_eq!(session.phase(), SessionPhase::AwaitingExisting { duration_minutes: 5 });
}

#[test]
fn new_asks_for_the_write_and_waits_for_it() {
    let (mut session, _) = option_new("abc", 5, Validation::Tolerant);
    let action = session.advance_at(Event::Fetched { body: "null".to_string() }, 0);
    assert_eq!(
        action,
        Action::Store {
            key: "900150983cd24fb0d6963f7d28e17f72".to_string(),
            payload: "{\"endTime\":300}".to_string(),
        }
    );
    assert_eq!(session.phase(), SessionPhase::AwaitingStore { end_time: 300 });
    let done = session.advance_at(Event::Stored, 123_456);
    assert_eq!(
        done,
        Action::Finish {
            outcome: Outcome::Started {
                id: "900150983cd24fb0d6963f7d28e17f72".to_string(),
                end_time: 300,
            },
        }
    );
    assert_eq!(session.phase(), SessionPhase::Done);
}

#[test]
fn new_over_a_malformed_record_depends_on_validation() {
    let id = get_connection_id("machine");
    for body in ["not json", "{\"endTime\":\"soon\"}"] {
        let mut tolerant = empty_store();
        tolerant.records.insert(id.clone(), body.to_string());
        let outcome = run(&mut tolerant, option_new("machine", 1, Validation::Tolerant), Some(0));
        assert_eq!(outcome, Outcome::Started { id: id.clone(), end_time: 60 });
        assert_eq!(tolerant.records[&id], "{\"endTime\":60}");

        let mut strict = empty_store();
        strict.records.insert(id.clone(), body.to_string());
        let outcome = run(&mut strict, option_new("machine", 1, Validation::Strict), Some(0));
        assert_eq!(outcome, stopped(TimerError::MalformedPayload));
        assert_eq!(strict.writes, 0);
        assert_eq!(strict.records[&id], body);
    }
}

#[test]
fn new_beyond_the_last_second_is_refused() {
    let mut store = empty_store();
    let outcome = run(&mut store, option_new("machine", 1, Validation::Tolerant), Some(i64::MAX));
    assert_eq!(outcome, stopped(TimerError::EndTimeOutOfRange));
    let outcome = run(&mut store, option_new("machine", u64::MAX, Validation::Tolerant), None);
    assert_eq!(outcome, stopped(TimerError::EndTimeOutOfRange));
    assert_eq!(store.writes, 0);
    assert!(store.records.is_empty());
}

#[test]
fn join_of_an_unknown_id_stops() {
    let mut store = empty_store();
    store.records.insert("known-id".to_string(), encode_record(i64::MAX));

    let outcome = run(&mut store, option_join("unknown-id", Validation::Tolerant), None);

    assert_eq!(outcome, stopped(TimerError::UnknownId));
    assert_eq!((store.reads, store.writes, store.removals), (1, 0, 0));
}

#[test]
fn join_of_an_expired_timer_stops() {
    let mut store = empty_store();
    store.records.insert("id".to_string(), encode_record(Utc::now().timestamp() - 1));
    let outcome = run(&mut store, option_join("id", Validation::Tolerant), None);
    assert_eq!(outcome, stopped(TimerError::Expired));

    let pinned = run(&mut store, option_join("id", Validation::Strict), Some(i64::MAX));
    assert_eq!(pinned, stopped(TimerError::Expired));
    assert_eq!((store.reads, store.writes, store.removals), (2, 0, 0));
}

#[test]
fn join_expires_at_the_end_time_itself() {
    let mut store = empty_store();
    store.records.insert("id".to_string(), encode_record(300));
    assert_eq!(
        run(&mut store, option_join("id", Validation::Tolerant), Some(299)),
        Outcome::Joined { id: "id".to_string(), end_time: 300, remaining: 1 }
    );
    assert_eq!(
        run(&mut store, option_join("id", Validation::Tolerant), Some(300)),
        stopped(TimerError::Expired)
    );
    assert_eq!(
        run(&mut store, option_join("id", Validation::Tolerant), Some(301)),
        stopped(TimerError::Expired)
    );
}

#[test]
fn join_of_a_running_timer_gives_what_is_left() {
    let mut store = empty_store();
    let started = run(&mut store, option_new("owner", 5, Validation::Tolerant), Some(1_000));
    let token = match started {
        Outcome::Started { id, .. } => id,
        other => panic!("expected a start, got {:?}", other),
    };

    let joined = run(&mut store, option_join(&token, Validation::Tolerant), Some(1_100));

    assert_eq!(joined, Outcome::Joined { id: token, end_time: 1_300, remaining: 200 });
    assert_eq!(store.writes, 1);
}

#[test]
fn join_by_the_clock_gives_what_is_left() {
    let mut store = empty_store();
    let end_time = Utc::now().timestamp() + 90;
    store.records.insert("shared".to_string(), encode_record(end_time));
    match run(&mut store, option_join("shared", Validation::Tolerant), None) {
        Outcome::Joined { id, end_time: joined_end, remaining } => {
            assert_eq!(id, "shared");
            assert_eq!(joined_end, end_time);
            assert!(88 <= remaining && remaining <= 90);
        }
        other => panic!("expected to join, got {:?}", other),
    }
}

#[test]
fn join_over_a_malformed_record_depends_on_validation() {
    for body in ["", "{\"endTime\"", "}"] {
        let mut store = empty_store();
        store.records.insert("id".to_string(), body.to_string());
        assert_eq!(
            run(&mut store, option_join("id", Validation::Tolerant), Some(0)),
            stopped(TimerError::UnknownId)
        );
        assert_eq!(
            run(&mut store, option_join("id", Validation::Strict), Some(0)),
            stopped(TimerError::MalformedPayload)
        );
    }
    let mut store = empty_store();
    store.records.insert("id".to_string(), "{}".to_string());
    assert_eq!(
        run(&mut store, option_join("id", Validation::Tolerant), Some(0)),
        stopped(TimerError::UnknownId)
    );
    assert_eq!(
        run(&mut store, option_join("id", Validation::Strict), Some(0)),
        stopped(TimerError::MalformedPayload)
    );
}

#[test]
fn join_first_reads_the_given_key() {
    let (session, action) = option_join("shared-id", Validation::Strict);
    assert_eq!(action, Action::Fetch { key: "shared-id".to_string() });
    assert_eq!(session.key(), "shared-id");
    assert_eq!(session.validation(), Validation::Strict);
    assert_eq!(session.phase(), SessionPhase::AwaitingRecord);
}

#[test]
fn cancel_twice_succeeds_where_no_record_was() {
    let mut store = empty_store();
    store.records.insert("other".to_string(), encode_record(5));

    let first = run(&mut store, option_cancel("machine"), None);
    let second = run(&mut store, option_cancel("machine"), None);

    assert_eq!(first, Outcome::Cancelled);
    assert_eq!(second, Outcome::Cancelled);
    assert_eq!((store.reads, store.writes, store.removals), (0, 0, 2));
    assert_eq!(store.records.len(), 1);
    assert_eq!(store.records["other"], "{\"endTime\":5}");
}

#[test]
fn cancel_removes_the_own_record() {
    let mut store = empty_store();
    let id = get_connection_id("machine");
    run(&mut store, option_new("machine", 5, Validation::Tolerant), Some(0));
    assert!(store.records.contains_key(&id));

    assert_eq!(run(&mut store, option_cancel("machine"), Some(1)), Outcome::Cancelled);

    assert!(!store.records.contains_key(&id));
    assert_eq!(
        run(&mut store, option_join(&id, Validation::Tolerant), Some(1)),
        stopped(TimerError::UnknownId)
    );
    assert_eq!(
        run(&mut store, option_new("machine", 5, Validation::Tolerant), Some(2)),
        Outcome::Started { id, end_time: 302 }
    );
}

#[test]
fn cancel_first_removes_its_own_key() {
    let (session, action) = option_cancel("abc");
    assert_eq!(action, Action::Delete { key: "900150983cd24fb0d6963f7d28e17f72".to_string() });
    assert_eq!(session.key(), "900150983cd24fb0d6963f7d28e17f72");
    assert_eq!(session.phase(), SessionPhase::AwaitingDelete);
}

#[test]
fn unavailable_store_stops_every_session() {
    let mut store = empty_store();
    store.up = false;
    let unavailable = stopped(TimerError::StoreUnavailable);
    assert_eq!(run(&mut store, option_new("m", 5, Validation::Tolerant), Some(0)), unavailable);
    assert_eq!(run(&mut store, option_join("id", Validation::Tolerant), Some(0)), unavailable);
    assert_eq!(run(&mut store, option_cancel("m"), Some(0)), unavailable);
    assert_eq!(run(&mut store, option_new("m", 5, Validation::Strict), None), unavailable);
}

#[test]
fn store_that_fails_on_the_write_stops_the_start() {
    let (mut session, _) = option_new("m", 5, Validation::Tolerant);
    let write = session.advance_at(Event::Fetched { body: "null".to_string() }, 0);
    assert!(matches!(write, Action::Store { .. }));
    let done = session.advance_at(Event::Unavailable, 0);
    assert_eq!(done, Action::Finish { outcome: stopped(TimerError::StoreUnavailable) });
    assert_eq!(session.phase(), SessionPhase::Done);
}

#[test]
fn events_out_of_turn_change_no_session() {
    let (mut starting, _) = option_new("m", 5, Validation::Tolerant);
    assert_eq!(starting.advance_at(Event::Stored, 0), Action::Idle);
    assert_eq!(starting.advance_at(Event::Deleted, 0), Action::Idle);
    assert_eq!(starting.phase(), SessionPhase::AwaitingExisting { duration_minutes: 5 });
    starting.advance_at(Event::Fetched { body: "null".to_string() }, 0);
    assert_eq!(starting.advance_at(Event::Fetched { body: "null".to_string() }, 0), Action::Idle);
    assert_eq!(starting.advance(Event::Deleted), Action::Idle);
    assert_eq!(starting.phase(), SessionPhase::AwaitingStore { end_time: 300 });

    let (mut joining, _) = option_join("id", Validation::Tolerant);
    assert_eq!(joining.advance_at(Event::Stored, 0), Action::Idle);
    assert_eq!(joining.advance_at(Event::Deleted, 0), Action::Idle);
    assert_eq!(joining.phase(), SessionPhase::AwaitingRecord);

    let (mut cancelling, _) = option_cancel("m");
    assert_eq!(cancelling.advance_at(Event::Stored, 0), Action::Idle);
    assert_eq!(cancelling.advance_at(Event::Fetched { body: "null".to_string() }, 0), Action::Idle);
    assert_eq!(cancelling.phase(), SessionPhase::AwaitingDelete);
}

#[test]
fn finished_session_answers_nothing_more() {
    let (mut session, _) = option_cancel("m");
    assert_eq!(session.advance_at(Event::Deleted, 0), Action::Finish { outcome: Outcome::Cancelled });
    for _ in 0..3 {
        assert_eq!(session.advance_at(Event::Deleted, 0), Action::Idle);
        assert_eq!(session.advance_at(Event::Stored, 0), Action::Idle);
        assert_eq!(session.advance_at(Event::Unavailable, 0), Action::Idle);
        assert_eq!(session.advance(Event::Fetched { body: "null".to_string() }), Action::Idle);
        assert_eq!(session.phase(), SessionPhase::Done);
    }
}

#[test]
fn only_failures_give_a_nonzero_exit_status() {
    assert_eq!(exit_code(&Outcome::Started { id: "id".to_string(), end_time: 300 }), 0);
    assert_eq!(
        exit_code(&Outcome::Joined { id: "id".to_string(), end_time: 300, remaining: 3 }),
        0
    );
    assert_eq!(exit_code(&Outcome::Cancelled), 0);
    assert_eq!(exit_code(&stopped(TimerError::UnknownId)), 0);
    assert_eq!(exit_code(&stopped(TimerError::Expired)), 0);
    assert_eq!(exit_code(&stopped(TimerError::AlreadyRunning)), 1);
    assert_eq!(exit_code(&stopped(TimerError::StoreUnavailable)), 1);
    assert_eq!(exit_code(&stopped(TimerError::MalformedPayload)), 1);
    assert_eq!(exit_code(&stopped(TimerError::EndTimeOutOfRange)), 1);
}
