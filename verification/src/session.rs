//! The session controller: what a participant does to start a timer, to join
//! one, and to cancel its own.
//!
//! A session never talks to the remote store itself. It answers each event
//! with the next action, and its caller performs the action and reports what
//! came of it. A session ends with a `Finish` action that carries its outcome.

use crate::clock::{current_timestamp, in_past, is_in_past_at};
use crate::error::TimerError;
use crate::identity::{connection_id, get_connection_id};
use crate::record::{
    end_time_in_range, record_text, retrieve_future_time, store_future_time, stored_end_time,
    timer_end, Validation,
};
use crate::wake::{delay_until, wake_delay};
use vstd::prelude::*;
use vstd::string::*;

verus! {

/// What the remote store did with the last action.
#[derive(Clone, Debug, PartialEq, Eq)]
pub enum Event {
    /// The store answered a `Fetch` with `body`.
    Fetched { body: String },
    /// The store took the record of a `Store`.
    Stored,
    /// The store holds no record under the key of a `Delete` any more.
    Deleted,
    /// The store could not be reached, or refused the request.
    Unavailable,
}

/// An `Event` as plain values.
pub enum EventView {
    Fetched { body: Seq<char> },
    Stored,
    Deleted,
    Unavailable,
}

impl View for Event {
    type V = EventView;

    open spec fn view(&self) -> EventView {
        match self {
            Event::Fetched { body } => EventView::Fetched { body: body@ },
            Event::Stored => EventView::Stored,
            Event::Deleted => EventView::Deleted,
            Event::Unavailable => EventView::Unavailable,
        }
    }
}

/// How a session ended.
#[derive(Clone, Debug, PartialEq, Eq)]
pub enum Outcome {
    /// A timer was started under `id`, the token by which others join it. Its
    /// end time goes to the wake scheduler.
    Started { id: String, end_time: i64 },
    /// The timer under `id` was joined with `remaining` seconds to go. Its end
    /// time goes to the wake scheduler.
    Joined { id: String, end_time: i64, remaining: u64 },
    /// The caller's own record is gone, whether or not there was one.
    Cancelled,
    /// The session stopped without a timer to wait for.
    Stopped { error: TimerError },
}

/// An `Outcome` as plain values.
pub enum OutcomeView {
    Started { id: Seq<char>, end_time: int },
    Joined { id: Seq<char>, end_time: int, remaining: int },
    Cancelled,
    Stopped { error: TimerError },
}

impl View for Outcome {
    type V = OutcomeView;

    open spec fn view(&self) -> OutcomeView {
        match self {
            Outcome::Started { id, end_time } => OutcomeView::Started {
                id: id@,
                end_time: *end_time as int,
            },
            Outcome::Joined { id, end_time, remaining } => OutcomeView::Joined {
                id: id@,
                end_time: *end_time as int,
                remaining: *remaining as int,
            },
            Outcome::Cancelled => OutcomeView::Cancelled,
            Outcome::Stopped { error } => OutcomeView::Stopped { error: *error },
        }
    }
}

/// Whether a session that ended with `outcome` failed. A timer that was
/// started, joined or cancelled is a success. An unknown identifier and an
/// expired timer are answers, not failures. Every other stop is a failure.
pub open spec fn is_failure(outcome: OutcomeView) -> bool {
    match outcome {
        OutcomeView::Stopped { error } => error != TimerError::UnknownId && error
            != TimerError::Expired,
        _ => false,
    }
}

/// The exit status of a process that ran a session to `outcome`: zero unless
/// the session failed.
pub fn exit_code(outcome: &Outcome) -> (code: i32)
    ensures
        code == if is_failure(outcome@) {
            1int
        } else {
            0int
        },
{
    match outcome {
        Outcome::Stopped { error } => match error {
            TimerError::UnknownId => 0,
            TimerError::Expired => 0,
            _ => 1,
        },
        _ => 0,
    }
}

/// What the caller is to do next.
#[derive(Clone, Debug, PartialEq, Eq)]
pub enum Action {
    /// Read the record under `key`, then report `Fetched` or `Unavailable`.
    Fetch { key: String },
    /// Write `payload` under `key` in place of whatever record is there, then
    /// report `Stored` or `Unavailable`.
    Store { key: String, payload: String },
    /// Remove the record under `key`, then report `Deleted` or `Unavailable`.
    Delete { key: String },
    /// The session is over.
    Finish { outcome: Outcome },
    /// Nothing: the event was not one that the session waits for.
    Idle,
}

/// An `Action` as plain values.
pub enum ActionView {
    Fetch { key: Seq<char> },
    Store { key: Seq<char>, payload: Seq<char> },
    Delete { key: Seq<char> },
    Finish { outcome: OutcomeView },
    Idle,
}

impl View for Action {
    type V = ActionView;

    open spec fn view(&self) -> ActionView {
        match self {
            Action::Fetch { key } => ActionView::Fetch { key: key@ },
            Action::Store { key, payload } => ActionView::Store { key: key@, payload: payload@ },
            Action::Delete { key } => ActionView::Delete { key: key@ },
            Action::Finish { outcome } => ActionView::Finish { outcome: outcome@ },
            Action::Idle => ActionView::Idle,
        }
    }
}

/// What a session waits for.
#[derive(Clone, Copy, Debug, PartialEq, Eq, Structural)]
pub enum SessionPhase {
    /// Starting a timer: for the record that may exist under the own key.
    AwaitingExisting { duration_minutes: u64 },
    /// Starting a timer: for the store to take the new record.
    AwaitingStore { end_time: i64 },
    /// Joining a timer: for its record.
    AwaitingRecord,
    /// Cancelling: for the store to remove the own record.
    AwaitingDelete,
    /// Nothing: the session is over.
    Done,
}

/// One operation under way: the key it works on, how strictly it reads
/// records, and what it waits for.
#[derive(Debug)]
pub struct Session {
    key: String,
    validation: Validation,
    phase: SessionPhase,
}

/// A `Session` as plain values.
pub struct SessionView {
    pub key: Seq<char>,
    pub validation: Validation,
    pub phase: SessionPhase,
}

impl View for Session {
    type V = SessionView;

    closed spec fn view(&self) -> SessionView {
        SessionView { key: self.key@, validation: self.validation, phase: self.phase }
    }
}

/// The session `session` once it is over, and the action that says how it
/// ended.
pub open spec fn finish(session: SessionView, outcome: OutcomeView) -> (SessionView, ActionView) {
    (SessionView { phase: SessionPhase::Done, ..session }, ActionView::Finish { outcome })
}

/// The session `session` stopped by `error`.
pub open spec fn stop(session: SessionView, error: TimerError) -> (SessionView, ActionView) {
    finish(session, OutcomeView::Stopped { error })
}

/// What a session that starts a timer of `duration_minutes` does once the
/// store has answered for its own key, where `existing` is what the answer
/// stands for and the clock reads `now`.
///
/// A record whose end time is not yet in the past refuses the start, and
/// nothing is written. A record that has run out is replaced like one that
/// was never there. A malformed answer counts as no record, or under strict
/// validation stops the session.
pub open spec fn start_decision(
    session: SessionView,
    existing: Result<Option<i64>, TimerError>,
    duration_minutes: int,
    now: int,
) -> (SessionView, ActionView) {
    if existing is Err && session.validation == Validation::Strict {
        stop(session, TimerError::MalformedPayload)
    } else if existing matches Ok(Some(current_end_time)) && !in_past(now, current_end_time as int) {
        stop(session, TimerError::AlreadyRunning)
    } else if !end_time_in_range(now, duration_minutes) {
        stop(session, TimerError::EndTimeOutOfRange)
    } else {
        (
            SessionView {
                phase: SessionPhase::AwaitingStore {
                    end_time: timer_end(now, duration_minutes) as i64,
                },
                ..session
            },
            ActionView::Store {
                key: session.key,
                payload: record_text(timer_end(now, duration_minutes)),
            },
        )
    }
}

/// What a session that joins a timer does once the store has answered for the
/// timer's key, where `existing` is what the answer stands for and the clock
/// reads `now`.
///
/// No record means an unknown identifier. A record whose end time has been
/// reached means an expired timer. Otherwise the timer is joined, with the
/// seconds that are left. A malformed answer counts as no record, or under
/// strict validation stops the session.
pub open spec fn join_decision(
    session: SessionView,
    existing: Result<Option<i64>, TimerError>,
    now: int,
) -> (SessionView, ActionView) {
    match existing {
        Err(_) => if session.validation == Validation::Strict {
            stop(session, TimerError::MalformedPayload)
        } else {
            stop(session, TimerError::UnknownId)
        },
        Ok(None) => stop(session, TimerError::UnknownId),
        Ok(Some(end_time)) => if end_time <= now {
            stop(session, TimerError::Expired)
        } else {
            finish(
                session,
                OutcomeView::Joined {
                    id: session.key,
                    end_time: end_time as int,
                    remaining: delay_until(end_time as int, now),
                },
            )
        },
    }
}

/// One step of a session: the session afterwards and the action, for the
/// event that came when the clock read `now`.
///
/// A store that is unavailable stops any session that waits for it. An event
/// that the session does not wait for changes nothing.
pub open spec fn session_step(session: SessionView, event: EventView, now: int) -> (
    SessionView,
    ActionView,
) {
    match (session.phase, event) {
        (SessionPhase::Done, _) => (session, ActionView::Idle),
        (_, EventView::Unavailable) => stop(session, TimerError::StoreUnavailable),
        (
            SessionPhase::AwaitingExisting { duration_minutes },
            EventView::Fetched { body },
        ) => start_decision(
            session,
            stored_end_time(body, session.validation),
            duration_minutes as int,
            now,
        ),
        (SessionPhase::AwaitingStore { end_time }, EventView::Stored) => finish(
            session,
            OutcomeView::Started { id: session.key, end_time: end_time as int },
        ),
        (SessionPhase::AwaitingRecord, EventView::Fetched { body }) => join_decision(
            session,
            stored_end_time(body, session.validation),
            now,
        ),
        (SessionPhase::AwaitingDelete, EventView::Deleted) => finish(
            session,
            OutcomeView::Cancelled,
        ),
        _ => (session, ActionView::Idle),
    }
}

/// How often a session asks for a write along `trace`, a run of events each
/// with the clock's reading at its step.
pub open spec fn write_count(session: SessionView, trace: Seq<(EventView, int)>) -> nat
    decreases trace.len(),
{
    if trace.len() == 0 {
        0
    } else {
        let (next, action) = session_step(session, trace[0].0, trace[0].1);
        let written: nat = if action is Store {
            1
        } else {
            0
        };
        written + write_count(next, trace.drop_first())
    }
}

/// Whatever the store reports and in whatever order, a session asks for at
/// most one write, and for none unless it still waits for the record that may
/// exist under its own key. A session that joins or cancels never writes, and
/// neither does one that has been refused.
pub proof fn lemma_write_count(session: SessionView, trace: Seq<(EventView, int)>)
    ensures
        write_count(session, trace) <= 1,
        !(session.phase is AwaitingExisting) ==> write_count(session, trace) == 0,
    decreases trace.len(),
{
    if trace.len() > 0 {
        let next = session_step(session, trace[0].0, trace[0].1).0;
        lemma_write_count(next, trace.drop_first());
    }
}

/// The session that starts a timer of `duration_minutes` on the machine whose
/// identity is `machine_uid`, and its first action: to read the record under
/// the machine's own connection identifier.
pub open spec fn new_session(machine_uid: Seq<char>, duration_minutes: u64, validation: Validation) -> (
    SessionView,
    ActionView,
) {
    (
        SessionView {
            key: connection_id(machine_uid),
            validation,
            phase: SessionPhase::AwaitingExisting { duration_minutes },
        },
        ActionView::Fetch { key: connection_id(machine_uid) },
    )
}

/// The session that joins the timer under `id`, and its first action: to read
/// the record under `id`.
pub open spec fn join_session(id: Seq<char>, validation: Validation) -> (SessionView, ActionView) {
    (
        SessionView { key: id, validation, phase: SessionPhase::AwaitingRecord },
        ActionView::Fetch { key: id },
    )
}

/// The session that cancels the timer of the machine whose identity is
/// `machine_uid`, and its first action: to remove the record under the
/// machine's own connection identifier, without reading it.
pub open spec fn cancel_session(machine_uid: Seq<char>) -> (SessionView, ActionView) {
    (
        SessionView {
            key: connection_id(machine_uid),
            validation: Validation::Tolerant,
            phase: SessionPhase::AwaitingDelete,
        },
        ActionView::Delete { key: connection_id(machine_uid) },
    )
}

/// Begins to start a timer of `duration_minutes` under the connection
/// identifier of this machine.
pub fn option_new(machine_uid: &str, duration_minutes: u64, validation: Validation) -> (begun: (
    Session,
    Action,
))
    ensures
        (begun.0@, begun.1@) == new_session(machine_uid@, duration_minutes, validation),
{
    let key = get_connection_id(machine_uid);
    let action = Action::Fetch { key: key.clone() };
    (
        Session { key, validation, phase: SessionPhase::AwaitingExisting { duration_minutes } },
        action,
    )
}

/// Begins to join the timer that was started under `id`.
pub fn option_join(id: &str, validation: Validation) -> (begun: (Session, Action))
    ensures
        (begun.0@, begun.1@) == join_session(id@, validation),
{
    let key = String::from_str(id);
    let action = Action::Fetch { key: key.clone() };
    (Session { key, validation, phase: SessionPhase::AwaitingRecord }, action)
}

/// Begins to cancel the timer of this machine.
pub fn option_cancel(machine_uid: &str) -> (begun: (Session, Action))
    ensures
        (begun.0@, begun.1@) == cancel_session(machine_uid@),
{
    let key = get_connection_id(machine_uid);
    let action = Action::Delete { key: key.clone() };
    (
        Session { key, validation: Validation::Tolerant, phase: SessionPhase::AwaitingDelete },
        action,
    )
}

/// The connection identifier of this machine. The store is not touched.
pub fn option_print_id(machine_uid: &str) -> (id: String)
    ensures
        id@ == connection_id(machine_uid@),
{
    get_connection_id(machine_uid)
}

impl Session {
    /// The key that the session works on.
    pub fn key(&self) -> (key: &str)
        ensures
            key@ == self@.key,
    {
        self.key.as_str()
    }

    /// How strictly the session reads records.
    pub fn validation(&self) -> (validation: Validation)
        ensures
            validation == self@.validation,
    {
        self.validation
    }

    /// What the session waits for.
    pub fn phase(&self) -> (phase: SessionPhase)
        ensures
            phase == self@.phase,
    {
        self.phase
    }

    /// Ends the session with `outcome`.
    fn finish(&mut self, outcome: Outcome) -> (action: Action)
        ensures
            (final(self)@, action@) == finish(old(self)@, outcome@),
    {
        self.phase = SessionPhase::Done;
        Action::Finish { outcome }
    }

    /// Stops the session with `error`.
    fn stop(&mut self, error: TimerError) -> (action: Action)
        ensures
            (final(self)@, action@) == stop(old(self)@, error),
    {
        self.finish(Outcome::Stopped { error })
    }

    /// Decides on the start of a timer, given what the store holds under the
    /// own key.
    fn decide_start(
        &mut self,
        existing: Result<Option<i64>, TimerError>,
        duration_minutes: u64,
        now: i64,
    ) -> (action: Action)
        ensures
            (final(self)@, action@) == start_decision(
                old(self)@,
                existing,
                duration_minutes as int,
                now as int,
            ),
    {
        let strict = match self.validation {
            Validation::Strict => true,
            Validation::Tolerant => false,
        };
        match existing {
            Err(_) => {
                if strict {
                    return self.stop(TimerError::MalformedPayload);
                }
            },
            Ok(Some(current_end_time)) => {
                if !is_in_past_at(now, current_end_time) {
                    return self.stop(TimerError::AlreadyRunning);
                }
            },
            Ok(None) => {},
        }
        match store_future_time(Some(now), duration_minutes, self.key.as_str()) {
            Ok(request) => {
                self.phase = SessionPhase::AwaitingStore { end_time: request.end_time };
                Action::Store { key: request.key, payload: request.payload }
            },
            Err(error) => self.stop(error),
        }
    }

    /// Decides on joining a timer, given what the store holds under its key.
    fn decide_join(&mut self, existing: Result<Option<i64>, TimerError>, now: i64) -> (action:
        Action)
        ensures
            (final(self)@, action@) == join_decision(old(self)@, existing, now as int),
    {
        match existing {
            Err(_) => match self.validation {
                Validation::Strict => self.stop(TimerError::MalformedPayload),
                Validation::Tolerant => self.stop(TimerError::UnknownId),
            },
            Ok(None) => self.stop(TimerError::UnknownId),
            Ok(Some(end_time)) => {
                if end_time <= now {
                    self.stop(TimerError::Expired)
                } else {
                    let id = self.key.clone();
                    self.finish(
                        Outcome::Joined { id, end_time, remaining: wake_delay(end_time, now) },
                    )
                }
            },
        }
    }

    /// Takes `event`, which came when the clock read `now`, and says what to
    /// do next.
    pub fn advance_at(&mut self, event: Event, now: i64) -> (action: Action)
        ensures
            (final(self)@, action@) == session_step(old(self)@, event@, now as int),
    {
        match self.phase {
            SessionPhase::Done => Action::Idle,
            SessionPhase::AwaitingExisting { duration_minutes } => match event {
                Event::Unavailable => self.stop(TimerError::StoreUnavailable),
                Event::Fetched { body } => {
                    let existing = retrieve_future_time(body.as_str(), self.validation);
                    self.decide_start(existing, duration_minutes, now)
                },
                _ => Action::Idle,
            },
            SessionPhase::AwaitingStore { end_time } => match event {
                Event::Unavailable => self.stop(TimerError::StoreUnavailable),
                Event::Stored => {
                    let id = self.key.clone();
                    self.finish(Outcome::Started { id, end_time })
                },
                _ => Action::Idle,
            },
            SessionPhase::AwaitingRecord => match event {
                Event::Unavailable => self.stop(TimerError::StoreUnavailable),
                Event::Fetched { body } => {
                    let existing = retrieve_future_time(body.as_str(), self.validation);
                    self.decide_join(existing, now)
                },
                _ => Action::Idle,
            },
            SessionPhase::AwaitingDelete => match event {
                Event::Unavailable => self.stop(TimerError::StoreUnavailable),
                Event::Deleted => self.finish(Outcome::Cancelled),
                _ => Action::Idle,
            },
        }
    }

    /// Takes `event` and says what to do next, by the clock's reading.
    ///
    /// The answer is the one that `advance_at` gives for some reading of the
    /// clock. Only the answers to `Fetched` depend on the clock.
    pub fn advance(&mut self, event: Event) -> (action: Action)
        ensures
            exists|now: i64|
                (final(self)@, action@) == #[trigger] session_step(
                    old(self)@,
                    event@,
                    now as int,
                ),
    {
        let now = current_timestamp();
        let ghost before = event@;
        let action = self.advance_at(event, now);
        assert((self@, action@) == session_step(old(self)@, before, now as int));
        action
    }
}

} // verus!
