//! The record that the remote-call service exchanges, and its conversion
//! to and from the record that the library works on.
//!
//! On the wire a moment is a count of seconds since 1970-01-01 00:00:00
//! UTC with a count of nanoseconds beside it; in the library it is a
//! calendar date and time of day, read as UTC. Decoding keeps the
//! nanoseconds. Encoding drops them: an encoded moment is always a whole
//! second, the one in which the moment lies.

use crate::model::{BackendError, CivilTime};
use chrono::{Datelike, Timelike};
use prost_types::TimestampError;
use vstd::prelude::*;

verus! {

/// A moment on the wire.
#[derive(Copy, Debug, PartialEq, Eq, Structural)]
pub struct Timestamp {
    pub seconds: i64,
    pub nanos: i32,
}

impl Clone for Timestamp {
    fn clone(&self) -> (r: Self)
        ensures
            r == *self,
    {
        *self
    }
}

/// A `Times` on the wire.
#[derive(Debug, PartialEq, Eq)]
pub struct Times {
    pub id: u64,
    pub title: String,
    pub created_at: Option<Timestamp>,
    pub updated_at: Option<Timestamp>,
}

#[verifier::external_type_specification]
#[verifier::external_body]
pub struct ExTimestampError(TimestampError);

/// The calendar date and time of day, in UTC, of the moment `seconds` and
/// `nanos` after the epoch, as chrono computes it; `None` where chrono
/// has no such moment.
pub uninterp spec fn utc_civil(seconds: i64, nanos: u32) -> Option<CivilTime>;

/// The count of seconds from the epoch to the given UTC date and time, as
/// prost computes it; `None` where prost finds the date or the time
/// invalid.
pub uninterp spec fn civil_seconds(
    year: i64,
    month: u8,
    day: u8,
    hour: u8,
    minute: u8,
    second: u8,
) -> Option<i64>;

/// `chrono::DateTime::from_timestamp`, read back field by field through
/// `naive_local`, `Datelike` and `Timelike`. chrono answers `None` for a
/// count of seconds outside its range of dates and for a count of
/// nanoseconds of a second or more; only where the count of seconds is
/// the last of a minute does it take a count of nanoseconds below two
/// seconds, as a leap second. The result is a function of the two
/// arguments alone, and the contract only gives it its name.
#[verifier::external_body]
fn civil_from_timestamp(seconds: i64, nanos: u32) -> (civil: Option<CivilTime>)
    ensures
        civil == utc_civil(seconds, nanos),
{
    match chrono::DateTime::from_timestamp(seconds, nanos) {
        Some(moment) => {
            let local = moment.naive_local();
            let (year, month, day) = (local.year(), local.month(), local.day());
            let (hour, minute, second) = (local.hour(), local.minute(), local.second());
            Some(CivilTime { year, month, day, hour, minute, second, nanosecond: local.nanosecond() })
        },
        None => None,
    }
}

/// `prost_types::Timestamp::date_time`: the wire form of a UTC date and
/// time. prost refuses an invalid date or time with an error, and else
/// answers with the count of seconds that the contract names and with no
/// nanoseconds.
#[verifier::external_body]
fn timestamp_from_civil(year: i64, month: u8, day: u8, hour: u8, minute: u8, second: u8) -> (stamp:
    Result<Timestamp, TimestampError>)
    ensures
        stamp is Ok <==> civil_seconds(year, month, day, hour, minute, second) is Some,
        stamp matches Ok(t) ==> t == (Timestamp {
            seconds: civil_seconds(year, month, day, hour, minute, second)->0,
            nanos: 0,
        }),
{
    match prost_types::Timestamp::date_time(year, month, day, hour, minute, second) {
        Ok(stamp) => Ok(Timestamp { seconds: stamp.seconds, nanos: stamp.nanos }),
        Err(error) => Err(error),
    }
}

/// The calendar form of a moment on the wire: none for a negative count
/// of nanoseconds, and else what chrono makes of it.
pub open spec fn decoded(stamp: Timestamp) -> Option<CivilTime> {
    if stamp.nanos < 0 {
        None
    } else {
        utc_civil(stamp.seconds, stamp.nanos as u32)
    }
}

/// Whether each field that the wire form is computed from fits the width
/// that prost takes it in.
pub open spec fn fits_wire(civil: CivilTime) -> bool {
    civil.month <= u8::MAX && civil.day <= u8::MAX && civil.hour <= u8::MAX && civil.minute
        <= u8::MAX && civil.second <= u8::MAX
}

/// The wire form of a calendar date and time: none where a field does not
/// fit or prost finds the date or the time invalid, and else the whole
/// second that prost computes. The nanoseconds are dropped.
pub open spec fn encoded(civil: CivilTime) -> Option<Timestamp> {
    if fits_wire(civil) {
        match civil_seconds(
            civil.year as i64,
            civil.month as u8,
            civil.day as u8,
            civil.hour as u8,
            civil.minute as u8,
            civil.second as u8,
        ) {
            Some(seconds) => Some(Timestamp { seconds, nanos: 0 }),
            None => None,
        }
    } else {
        None
    }
}

/// The text of the failure to decode or encode a record without a moment
/// of creation.
pub open spec fn missing_text() -> Seq<char> {
    "creation time is missing"@
}

/// The text of the failure to decode or encode a moment.
pub open spec fn range_text() -> Seq<char> {
    "time is out of range"@
}

/// Whether `error` reports malformed data with the given text.
pub open spec fn malformed(error: BackendError, text: Seq<char>) -> bool {
    error matches BackendError::Malformed(detail) && detail@ == text
}

/// Turns a moment on the wire into its calendar form.
pub fn decode_time(stamp: Timestamp) -> (civil: Option<CivilTime>)
    ensures
        civil == decoded(stamp),
{
    if stamp.nanos < 0 {
        None
    } else {
        civil_from_timestamp(stamp.seconds, stamp.nanos as u32)
    }
}

/// Turns a calendar date and time into a moment on the wire.
pub fn encode_time(civil: CivilTime) -> (stamp: Option<Timestamp>)
    ensures
        stamp == encoded(civil),
        stamp matches Some(t) ==> t.nanos == 0,
{
    if civil.month <= 255 && civil.day <= 255 && civil.hour <= 255 && civil.minute <= 255
        && civil.second <= 255 {
        match timestamp_from_civil(
            civil.year as i64,
            civil.month as u8,
            civil.day as u8,
            civil.hour as u8,
            civil.minute as u8,
            civil.second as u8,
        ) {
            Ok(stamp) => Some(stamp),
            Err(_) => None,
        }
    } else {
        None
    }
}

/// Puts a record together from its parts once its two moments have been
/// converted, whichever way. `created_at` is `None` where the source had
/// no moment of creation, and holds `None` where that moment could not be
/// converted; the same holds of `updated_at`, which a record need not
/// have. The result is the record, or the first failure in that order.
pub fn converted<T>(
    created_at: Option<Option<T>>,
    updated_at: Option<Option<T>>,
) -> (moments: Result<(T, Option<T>), BackendError>)
    ensures
        match moments {
            Ok((created, updated)) => {
                &&& created_at == Some(Some(created))
                &&& updated_at != Some(None::<T>)
                &&& updated == match updated_at {
                    Some(inner) => inner,
                    None => None,
                }
            },
            Err(error) => {
                &&& created_at is None ==> malformed(error, missing_text())
                &&& created_at is Some ==> {
                    &&& created_at == Some(None::<T>) || updated_at == Some(None::<T>)
                    &&& malformed(error, range_text())
                }
            },
        },
{
    match created_at {
        None => Err(BackendError::Malformed(String::from_str("creation time is missing"))),
        Some(None) => Err(BackendError::Malformed(String::from_str("time is out of range"))),
        Some(Some(created)) => match updated_at {
            Some(None) => Err(BackendError::Malformed(String::from_str("time is out of range"))),
            Some(Some(updated)) => Ok((created, Some(updated))),
            None => Ok((created, None)),
        },
    }
}

impl Times {
    /// Decodes a record from the wire. The identifier and the title are
    /// kept; each moment is decoded as `decoded` says. A record without a
    /// moment of creation, or with a moment that cannot be decoded, is
    /// malformed.
    pub fn into(self) -> (times: Result<crate::model::Times, BackendError>)
        ensures
            match times {
                Ok(t) => {
                    &&& self.created_at is Some
                    &&& decoded(self.created_at->0) == Some(t.created_at)
                    &&& t.id == self.id
                    &&& t.title == self.title
                    &&& match self.updated_at {
                        Some(u) => decoded(u) is Some && t.updated_at == decoded(u),
                        None => t.updated_at is None,
                    }
                },
                Err(error) => {
                    &&& self.created_at is None ==> malformed(error, missing_text())
                    &&& self.created_at is Some ==> {
                        &&& decoded(self.created_at->0) is None || (self.updated_at is Some
                            && decoded(self.updated_at->0) is None)
                        &&& malformed(error, range_text())
                    }
                },
            },
    {
        let created_at = match self.created_at {
            Some(stamp) => Some(decode_time(stamp)),
            None => None,
        };
        let updated_at = match self.updated_at {
            Some(stamp) => Some(decode_time(stamp)),
            None => None,
        };
        match converted(created_at, updated_at) {
            Ok((created, updated)) => Ok(
                crate::model::Times {
                    id: self.id,
                    title: self.title,
                    created_at: created,
                    updated_at: updated,
                },
            ),
            Err(error) => Err(error),
        }
    }

    /// Encodes a record for the wire. The identifier and the title are
    /// kept; each moment is encoded as `encoded` says, so every moment of
    /// the result is a whole second. A record with a moment that cannot be
    /// encoded is malformed.
    pub fn from(value: crate::model::Times) -> (times: Result<Times, BackendError>)
        ensures
            match times {
                Ok(t) => {
                    &&& encoded(value.created_at) is Some
                    &&& t.created_at == encoded(value.created_at)
                    &&& t.id == value.id
                    &&& t.title == value.title
                    &&& match value.updated_at {
                        Some(u) => encoded(u) is Some && t.updated_at == encoded(u),
                        None => t.updated_at is None,
                    }
                },
                Err(error) => {
                    &&& encoded(value.created_at) is None || (value.updated_at is Some
                        && encoded(value.updated_at->0) is None)
                    &&& malformed(error, range_text())
                },
            },
    {
        let created_at = Some(encode_time(value.created_at));
        let updated_at = match value.updated_at {
            Some(civil) => Some(encode_time(civil)),
            None => None,
        };
        match converted(created_at, updated_at) {
            Ok((created, updated)) => Ok(
                Times {
                    id: value.id,
                    title: value.title,
                    created_at: Some(created),
                    updated_at: updated,
                },
            ),
            Err(error) => Err(error),
        }
    }
}

} // verus!
