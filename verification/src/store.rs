//! The remote store as the protocol sees it, and what whole sessions do to it.
//!
//! The store keeps at most one record under a key. A write puts its text in
//! the place of whatever was there, a removal leaves the key without a
//! record, and a read of a key without a record is answered with `null`.
//! Nothing here runs: this is the model against which the sessions are
//! stated.

use crate::clock::in_past;
use crate::error::TimerError;
use crate::identity::connection_id;
use crate::record::{
    end_time_in_range, json_reading, record_text, stored_end_time, timer_end, JsonReading,
    Validation, END_TIME_KEY,
};
use crate::session::{
    cancel_session, join_session, new_session, session_step, ActionView, EventView, OutcomeView,
    SessionView,
};
use vstd::prelude::*;

verus! {

/// What the store holds: the text of the record under each key that has one.
pub type Records = Map<Seq<char>, Seq<char>>;

/// What the store answers for a key under which it holds no record.
pub const NO_RECORD: &'static str = "null";

/// What a read of `key` is answered with.
pub open spec fn body_at(store: Records, key: Seq<char>) -> Seq<char> {
    if store.contains_key(key) {
        store[key]
    } else {
        NO_RECORD@
    }
}

/// What the store holds once it has performed `action`.
pub open spec fn contents_after(store: Records, action: ActionView) -> Records {
    match action {
        ActionView::Store { key, payload } => store.insert(key, payload),
        ActionView::Delete { key } => store.remove(key),
        _ => store,
    }
}

/// What the store reports of `action`; nothing for an action that asks
/// nothing of it.
pub open spec fn reply_to(store: Records, action: ActionView) -> Option<EventView> {
    match action {
        ActionView::Fetch { key } => Some(EventView::Fetched { body: body_at(store, key) }),
        ActionView::Store { .. } => Some(EventView::Stored),
        ActionView::Delete { .. } => Some(EventView::Deleted),
        _ => None,
    }
}

/// Runs a session against the store for at most `rounds` actions, with the
/// clock at `now`: what the store holds in the end, and the last action.
pub open spec fn run(begun: (SessionView, ActionView), store: Records, now: int, rounds: nat) -> (
    Records,
    ActionView,
)
    decreases rounds,
{
    match reply_to(store, begun.1) {
        Some(event) if rounds > 0 => run(
            session_step(begun.0, event, now),
            contents_after(store, begun.1),
            now,
            (rounds - 1) as nat,
        ),
        _ => (store, begun.1),
    }
}

/// A record that was stored is fetched again: once the record of `end_time`
/// has been written under `key`, whatever the key held before, a read of the
/// key stands for that end time, under either validation. This rests on one
/// thing that is not proved here, and is therefore a premise: that the JSON
/// reader finds in the text of the record the integer that was written.
pub proof fn lemma_stored_record_is_fetched(
    store: Records,
    key: Seq<char>,
    end_time: i64,
    validation: Validation,
)
    ensures
        ({
            let written = contents_after(
                store,
                ActionView::Store { key, payload: record_text(end_time as int) },
            );
            &&& body_at(written, key) == record_text(end_time as int)
            &&& json_reading(record_text(end_time as int), END_TIME_KEY@) == Some(
                JsonReading { is_null: false, integer: Some(end_time) },
            ) ==> stored_end_time(body_at(written, key), validation) == Ok::<
                Option<i64>,
                TimerError,
            >(Some(end_time))
        }),
{
}

/// Cancelling is idempotent. Against any store the cancellation ends as
/// cancelled and leaves the store without the machine's record; a second one
/// ends the same way and changes nothing more. Where no record was there, not
/// even the first changes the store.
pub proof fn lemma_cancel_is_idempotent(
    store: Records,
    machine_uid: Seq<char>,
    now: int,
    later: int,
)
    ensures
        ({
            let first = run(cancel_session(machine_uid), store, now, 2);
            let second = run(cancel_session(machine_uid), first.0, later, 2);
            &&& first.1 == ActionView::Finish { outcome: OutcomeView::Cancelled }
            &&& second.1 == ActionView::Finish { outcome: OutcomeView::Cancelled }
            &&& first.0 == store.remove(connection_id(machine_uid))
            &&& second.0 == first.0
            &&& !store.contains_key(connection_id(machine_uid)) ==> first.0 == store
        }),
{
    let key = connection_id(machine_uid);
    reveal_with_fuel(run, 3);
    assert(store.remove(key).remove(key) =~= store.remove(key));
    if !store.contains_key(key) {
        assert(store.remove(key) =~= store);
    }
}

/// Joining never writes: whatever the store holds and however the session
/// ends, the store holds the same afterwards, and the session is over after
/// its one read.
pub proof fn lemma_join_never_writes(
    store: Records,
    id: Seq<char>,
    validation: Validation,
    now: int,
)
    ensures
        run(join_session(id, validation), store, now, 2).0 == store,
        run(join_session(id, validation), store, now, 2).1 is Finish,
{
    reveal_with_fuel(run, 3);
}

/// Starting a timer writes at most once, and only the machine's own record:
/// the session ends either as started, with the record of its end time in
/// the store under the machine's identifier and all else as before, or as
/// stopped, with the store unchanged.
pub proof fn lemma_start_writes_own_record(
    store: Records,
    machine_uid: Seq<char>,
    duration_minutes: u64,
    validation: Validation,
    now: i64,
)
    ensures
        ({
            let id = connection_id(machine_uid);
            let end = timer_end(now as int, duration_minutes as int);
            let ended = run(
                new_session(machine_uid, duration_minutes, validation),
                store,
                now as int,
                3,
            );
            ||| {
                &&& ended.1 == ActionView::Finish { outcome: OutcomeView::Started { id, end_time: end } }
                &&& ended.0 == store.insert(id, record_text(end))
                &&& end_time_in_range(now as int, duration_minutes as int)
            }
            ||| {
                &&& ended.1 matches ActionView::Finish { outcome: OutcomeView::Stopped { .. } }
                &&& ended.0 == store
            }
        }),
{
    reveal_with_fuel(run, 4);
}

/// A timer that has not run out is kept: where the machine's record reads as
/// an end time that is not yet in the past, starting a timer is refused as
/// already running and the store is left as it was.
pub proof fn lemma_running_timer_is_kept(
    store: Records,
    machine_uid: Seq<char>,
    duration_minutes: u64,
    validation: Validation,
    now: i64,
)
    ensures
        ({
            let existing = stored_end_time(body_at(store, connection_id(machine_uid)), validation);
            let ended = run(
                new_session(machine_uid, duration_minutes, validation),
                store,
                now as int,
                3,
            );
            existing matches Ok(Some(current_end_time)) && !in_past(
                now as int,
                current_end_time as int,
            )
                ==> ended.0 == store && ended.1 == ActionView::Finish {
                outcome: OutcomeView::Stopped { error: TimerError::AlreadyRunning },
            }
        }),
{
    reveal_with_fuel(run, 4);
}

/// A second start is refused while the first timer runs: where a timer was
/// started at `now`, another start on the same machine at `later`, no later
/// than the end of the first, is refused as already running, and the store
/// keeps the record of the first. The premise is the one that no proof here
/// gives: that the JSON reader finds in the text of the record the integer
/// that was written.
pub proof fn lemma_second_start_is_refused(
    store: Records,
    machine_uid: Seq<char>,
    duration_minutes: u64,
    again_minutes: u64,
    validation: Validation,
    now: i64,
    later: i64,
)
    requires
        later <= timer_end(now as int, duration_minutes as int),
    ensures
        ({
            let end = timer_end(now as int, duration_minutes as int);
            let first = run(
                new_session(machine_uid, duration_minutes, validation),
                store,
                now as int,
                3,
            );
            let second = run(
                new_session(machine_uid, again_minutes, validation),
                first.0,
                later as int,
                3,
            );
            first.1 is Finish && first.1->outcome is Started && json_reading(
                record_text(end),
                END_TIME_KEY@,
            ) == Some(JsonReading { is_null: false, integer: Some(end as i64) }) ==> {
                &&& second.1 == ActionView::Finish {
                    outcome: OutcomeView::Stopped { error: TimerError::AlreadyRunning },
                }
                &&& second.0 == first.0
                &&& body_at(second.0, connection_id(machine_uid)) == record_text(end)
            }
        }),
{
    lemma_start_writes_own_record(store, machine_uid, duration_minutes, validation, now);
    let end = timer_end(now as int, duration_minutes as int);
    let written = store.insert(connection_id(machine_uid), record_text(end));
    lemma_running_timer_is_kept(written, machine_uid, again_minutes, validation, later);
}

/// How joining ends is decided by what the record under the identifier reads
/// as: no record is an unknown identifier, an end time that the clock has
/// reached is an expired timer, and a later end time is joined with the
/// seconds that are left. Only the last leads to a suspension. A malformed
/// record is an unknown identifier, or under strict validation a malformed
/// payload.
pub proof fn lemma_join_outcome(
    store: Records,
    id: Seq<char>,
    validation: Validation,
    now: i64,
)
    ensures
        ({
            let existing = stored_end_time(body_at(store, id), validation);
            let ended = run(join_session(id, validation), store, now as int, 2).1;
            match existing {
                Ok(None) => ended == ActionView::Finish {
                    outcome: OutcomeView::Stopped { error: TimerError::UnknownId },
                },
                Ok(Some(end_time)) => if end_time <= now {
                    ended == ActionView::Finish {
                        outcome: OutcomeView::Stopped { error: TimerError::Expired },
                    }
                } else {
                    ended == ActionView::Finish {
                        outcome: OutcomeView::Joined {
                            id,
                            end_time: end_time as int,
                            remaining: end_time - now,
                        },
                    }
                },
                Err(_) => ended == ActionView::Finish {
                    outcome: OutcomeView::Stopped {
                        error: if validation == Validation::Strict {
                            TimerError::MalformedPayload
                        } else {
                            TimerError::UnknownId
                        },
                    },
                },
            }
        }),
{
    reveal_with_fuel(run, 3);
}

} // verus!
