//! The timer record: when a timer ends, how that is written for the remote
//! store, and how it is read back.

use crate::clock::time_or_now;
use crate::error::TimerError;
use crate::text::{decimal_text, push_decimal};
use vstd::prelude::*;
use vstd::string::*;

verus! {

/// The name of the record's one member.
pub const END_TIME_KEY: &'static str = "endTime";

/// The end of a timer that starts at `now` and runs for `duration_minutes`.
pub open spec fn timer_end(now: int, duration_minutes: int) -> int {
    now + duration_minutes * 60
}

/// Whether the end of such a timer is a timestamp that an `i64` can hold.
pub open spec fn end_time_in_range(now: int, duration_minutes: int) -> bool {
    i64::MIN <= timer_end(now, duration_minutes) <= i64::MAX
}

/// Whether the end of a timer that starts at `now` and runs for
/// `duration_minutes` can be represented.
pub fn end_time_fits(now: i64, duration_minutes: u64) -> (fits: bool)
    ensures
        fits == end_time_in_range(now as int, duration_minutes as int),
{
    let end: i128 = now as i128 + (duration_minutes as i128) * 60;
    end <= i64::MAX as i128
}

/// The end of a timer that starts at `now` and runs for `duration_minutes`:
/// sixty seconds for each minute, nothing rounded and nothing clamped. A
/// duration of zero ends the timer at `now`.
pub fn compute_end_time(now: i64, duration_minutes: u64) -> (end: i64)
    requires
        end_time_in_range(now as int, duration_minutes as int),
    ensures
        end == timer_end(now as int, duration_minutes as int),
{
    let end: i128 = now as i128 + (duration_minutes as i128) * 60;
    end as i64
}

/// The text of the record of a timer that ends at `end_time`: a JSON object
/// with the one member `endTime`.
pub open spec fn record_text(end_time: int) -> Seq<char> {
    "{\"endTime\":"@ + decimal_text(end_time) + "}"@
}

/// Writes the record of a timer that ends at `end_time`.
pub fn encode_record(end_time: i64) -> (payload: String)
    ensures
        payload@ == record_text(end_time as int),
{
    let mut payload = String::from_str("{\"endTime\":");
    push_decimal(&mut payload, end_time);
    payload.append("}");
    payload
}

/// What is to be written to the remote store to start a timer.
#[derive(Clone, Debug, PartialEq, Eq)]
pub struct StoreRequest {
    /// The key under which the record goes.
    pub key: String,
    /// The text of the record.
    pub payload: String,
    /// When the timer ends.
    pub end_time: i64,
}

/// A `StoreRequest` as plain values.
pub struct StoreRequestView {
    pub key: Seq<char>,
    pub payload: Seq<char>,
    pub end_time: int,
}

impl View for StoreRequest {
    type V = StoreRequestView;

    open spec fn view(&self) -> StoreRequestView {
        StoreRequestView { key: self.key@, payload: self.payload@, end_time: self.end_time as int }
    }
}

/// The request that starts a timer of `wait_minutes` at `start` under the key
/// `uid`, or the error where its end cannot be represented.
pub open spec fn store_request(start: int, wait_minutes: int, uid: Seq<char>) -> Result<
    StoreRequestView,
    TimerError,
> {
    if end_time_in_range(start, wait_minutes) {
        Ok(
            StoreRequestView {
                key: uid,
                payload: record_text(timer_end(start, wait_minutes)),
                end_time: timer_end(start, wait_minutes),
            },
        )
    } else {
        Err(TimerError::EndTimeOutOfRange)
    }
}

/// Whether `result` is what `store_request` gives for a timer that starts at
/// `start`.
pub open spec fn is_store_request(
    result: Result<StoreRequest, TimerError>,
    start: int,
    wait_minutes: int,
    uid: Seq<char>,
) -> bool {
    match result {
        Ok(request) => store_request(start, wait_minutes, uid) == Ok::<
            StoreRequestView,
            TimerError,
        >(request@),
        Err(error) => store_request(start, wait_minutes, uid) == Err::<
            StoreRequestView,
            TimerError,
        >(error),
    }
}

/// Prepares the record of a timer that runs for `wait_minutes` from
/// `given_time`, or from the clock's reading where no time is given, to be
/// stored under `uid`. Writing it replaces whatever record the key held.
///
/// The request carries the end time, so that the caller can go on with it
/// once the store has taken the record.
pub fn store_future_time(given_time: Option<i64>, wait_minutes: u64, uid: &str) -> (result: Result<
    StoreRequest,
    TimerError,
>)
    ensures
        exists|start: i64|
            {
                &&& #[trigger] is_store_request(result, start as int, wait_minutes as int, uid@)
                &&& given_time matches Some(t) ==> start == t
            },
{
    let start = time_or_now(given_time);
    let result = if end_time_fits(start, wait_minutes) {
        let end = compute_end_time(start, wait_minutes);
        Ok(StoreRequest { key: String::from_str(uid), payload: encode_record(end), end_time: end })
    } else {
        Err(TimerError::EndTimeOutOfRange)
    };
    assert(is_store_request(result, start as int, wait_minutes as int, uid@));
    result
}

/// What a JSON document shows of itself and of one of its members.
#[derive(Clone, Copy, Debug, PartialEq, Eq)]
pub struct JsonReading {
    /// Whether the document is the value `null`.
    pub is_null: bool,
    /// The member's value, where the document is an object that has the
    /// member and the value is an integer that an `i64` can hold.
    pub integer: Option<i64>,
}

/// What `serde_json` reads from `text` of the document and of its member
/// `key`; `None` where `text` is not one JSON document.
pub uninterp spec fn json_reading(text: Seq<char>, key: Seq<char>) -> Option<JsonReading>;

/// Parses `text` with `serde_json::from_str` into a `serde_json::Value`, and
/// reads the value with `Value::is_null` and the member with `Value`'s index
/// operator and `Value::as_i64`. A parse error gives `None`.
///
/// The reading is a function of the text and the key alone; what it is, is
/// not stated.
#[verifier::external_body]
fn read_json_member(text: &str, key: &str) -> (reading: Option<JsonReading>)
    ensures
        reading == json_reading(text@, key@),
{
    match serde_json::from_str::<serde_json::Value>(text) {
        Ok(document) => Some(
            JsonReading { is_null: document.is_null(), integer: document[key].as_i64() },
        ),
        Err(_) => None,
    }
}

/// How much is asked of a record that is there.
#[derive(Clone, Copy, Debug, PartialEq, Eq, Structural)]
pub enum Validation {
    /// A value without a usable end time counts as no timer.
    Tolerant,
    /// A value other than `null` must hold an end time.
    Strict,
}

/// The end time that a reading stands for.
///
/// Text that is no JSON is malformed. The value `null` is what the store
/// answers for a key that it does not hold: no timer. Any other value holds a
/// timer where its member is an integer; where it is not, the value counts as
/// no timer, or under strict validation as malformed.
pub open spec fn end_time_of(reading: Option<JsonReading>, validation: Validation) -> Result<
    Option<i64>,
    TimerError,
> {
    match reading {
        None => Err(TimerError::MalformedPayload),
        Some(reading) => if reading.is_null {
            Ok(None)
        } else if reading.integer is Some {
            Ok(reading.integer)
        } else if validation == Validation::Strict {
            Err(TimerError::MalformedPayload)
        } else {
            Ok(None)
        },
    }
}

/// The end time that the store's answer `body` stands for.
pub open spec fn stored_end_time(body: Seq<char>, validation: Validation) -> Result<
    Option<i64>,
    TimerError,
> {
    end_time_of(json_reading(body, END_TIME_KEY@), validation)
}

/// Decides what a reading of the store's answer means: a timer's end time, no
/// timer, or a malformed payload.
pub fn read_end_time(reading: Option<JsonReading>, validation: Validation) -> (result: Result<
    Option<i64>,
    TimerError,
>)
    ensures
        result == end_time_of(reading, validation),
{
    match reading {
        None => Err(TimerError::MalformedPayload),
        Some(reading) => {
            if reading.is_null {
                Ok(None)
            } else {
                match reading.integer {
                    Some(end_time) => Ok(Some(end_time)),
                    None => match validation {
                        Validation::Strict => Err(TimerError::MalformedPayload),
                        Validation::Tolerant => Ok(None),
                    },
                }
            }
        },
    }
}

/// Reads the end time out of `body`, the store's answer for a key.
///
/// The only error is `MalformedPayload`.
pub fn retrieve_future_time(body: &str, validation: Validation) -> (result: Result<
    Option<i64>,
    TimerError,
>)
    ensures
        result == stored_end_time(body@, validation),
        result matches Err(error) ==> error == TimerError::MalformedPayload,
{
    read_end_time(read_json_member(body, END_TIME_KEY), validation)
}

} // verus!
