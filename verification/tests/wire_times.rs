use timesman::model::{BackendError, CivilTime, Times};
use timesman::wire::{converted, decode_time, encode_time, Timestamp};

fn civil(year: i32, month: u32, day: u32, hour: u32, minute: u32, second: u32) -> CivilTime {
    CivilTime { year, month, day, hour, minute, second, nanosecond: 0 }
}

fn wire(created_at: Option<Timestamp>, updated_at: Option<Timestamp>) -> timesman::wire::Times {
    timesman::wire::Times { id: 7, title: "20240101".to_string(), created_at, updated_at }
}

fn out_of_range() -> BackendError {
    BackendError::Malformed("time is out of range".to_string())
}

#[test]
fn decode_reads_the_moment_as_utc() {
    assert_eq!(
        decode_time(Timestamp { seconds: 1431648000, nanos: 0 }),
        Some(civil(2015, 5, 15, 0, 0, 0))
    );
    assert_eq!(decode_time(Timestamp { seconds: 0, nanos: 0 }), Some(civil(1970, 1, 1, 0, 0, 0)));
    assert_eq!(
        decode_time(Timestamp { seconds: -1, nanos: 500 }),
        Some(CivilTime { nanosecond: 500, ..civil(1969, 12, 31, 23, 59, 59) })
    );
    assert_eq!(
        decode_time(Timestamp { seconds: 1704110400, nanos: 999_999_999 }),
        Some(CivilTime { nanosecond: 999_999_999, ..civil(2024, 1, 1, 12, 0, 0) })
    );
}

#[test]
fn decode_refuses_what_is_no_moment() {
    assert_eq!(decode_time(Timestamp { seconds: 0, nanos: -1 }), None);
    assert_eq!(decode_time(Timestamp { seconds: 0, nanos: 2_000_000_000 }), None);
    assert_eq!(decode_time(Timestamp { seconds: i64::MAX, nanos: 0 }), None);
    assert_eq!(decode_time(Timestamp { seconds: i64::MIN, nanos: 0 }), None);
}

#[test]
fn encode_gives_whole_seconds_since_the_epoch() {
    assert_eq!(
        encode_time(civil(2015, 5, 15, 0, 0, 0)),
        Some(Timestamp { seconds: 1431648000, nanos: 0 })
    );
    assert_eq!(encode_time(civil(1970, 1, 1, 0, 0, 0)), Some(Timestamp { seconds: 0, nanos: 0 }));
    assert_eq!(
        encode_time(CivilTime { nanosecond: 999_999_999, ..civil(2024, 1, 1, 12, 0, 0) }),
        Some(Timestamp { seconds: 1704110400, nanos: 0 })
    );
    assert_eq!(
        encode_time(civil(1969, 12, 31, 23, 59, 59)),
        Some(Timestamp { seconds: -1, nanos: 0 })
    );
}

#[test]
fn encode_refuses_what_is_no_date_or_time() {
    assert_eq!(encode_time(civil(2024, 13, 1, 0, 0, 0)), None);
    assert_eq!(encode_time(civil(2024, 0, 1, 0, 0, 0)), None);
    assert_eq!(encode_time(civil(2023, 2, 29, 0, 0, 0)), None);
    assert_eq!(encode_time(civil(2024, 2, 29, 0, 0, 0)).map(|t| t.nanos), Some(0));
    assert_eq!(encode_time(civil(2024, 1, 1, 24, 0, 0)), None);
    assert_eq!(encode_time(civil(2024, 1, 1, 0, 60, 0)), None);
    assert_eq!(encode_time(civil(2024, 1, 1, 0, 0, 60)), None);
    assert_eq!(encode_time(civil(2024, 257, 1, 0, 0, 0)), None);
    assert_eq!(encode_time(civil(2024, 1, 257, 0, 0, 0)), None);
    assert_eq!(encode_time(civil(2024, 1, 1, 256, 0, 0)), None);
    assert_eq!(encode_time(civil(2024, 1, 1, 0, 256, 0)), None);
    assert_eq!(encode_time(civil(2024, 1, 1, 0, 0, 256)), None);
}

#[test]
fn moments_round_trip_to_the_whole_second() {
    for seconds in [0i64, 1, 59, 86_399, 86_400, 951_782_400, 1_709_251_199, -86_401, 4_102_444_800] {
        for nanos in [0i32, 1, 999_999_999] {
            let civil = decode_time(Timestamp { seconds, nanos }).unwrap();
            assert_eq!(encode_time(civil), Some(Timestamp { seconds, nanos: 0 }));
        }
    }
}

#[test]
fn into_keeps_id_and_title_and_decodes_both_moments() {
    let decoded = wire(
        Some(Timestamp { seconds: 1704110400, nanos: 5 }),
        Some(Timestamp { seconds: 1704196800, nanos: 0 }),
    )
    .into();
    assert_eq!(
        decoded,
        Ok(Times {
            id: 7,
            title: "20240101".to_string(),
            created_at: CivilTime { nanosecond: 5, ..civil(2024, 1, 1, 12, 0, 0) },
            updated_at: Some(civil(2024, 1, 2, 12, 0, 0)),
        })
    );
    let decoded = wire(Some(Timestamp { seconds: 0, nanos: 0 }), None).into().unwrap();
    assert_eq!(decoded.updated_at, None);
    assert_eq!(decoded.created_at, civil(1970, 1, 1, 0, 0, 0));
}

#[test]
fn into_reports_malformed_records() {
    assert_eq!(
        wire(None, None).into(),
        Err(BackendError::Malformed("creation time is missing".to_string()))
    );
    assert_eq!(
        wire(None, Some(Timestamp { seconds: 0, nanos: -1 })).into(),
        Err(BackendError::Malformed("creation time is missing".to_string()))
    );
    assert_eq!(wire(Some(Timestamp { seconds: 0, nanos: -1 }), None).into(), Err(out_of_range()));
    assert_eq!(
        wire(Some(Timestamp { seconds: 0, nanos: 0 }), Some(Timestamp { seconds: i64::MAX, nanos: 0 }))
            .into(),
        Err(out_of_range())
    );
}

#[test]
fn from_keeps_id_and_title_and_encodes_both_moments() {
    let value = Times {
        id: 7,
        title: "20240101".to_string(),
        created_at: CivilTime { nanosecond: 123, ..civil(2024, 1, 1, 12, 0, 0) },
        updated_at: Some(civil(2024, 1, 2, 12, 0, 0)),
    };
    assert_eq!(
        timesman::wire::Times::from(value),
        Ok(wire(
            Some(Timestamp { seconds: 1704110400, nanos: 0 }),
            Some(Timestamp { seconds: 1704196800, nanos: 0 }),
        ))
    );
    let value = Times {
        id: 7,
        title: "20240101".to_string(),
        created_at: civil(1970, 1, 1, 0, 0, 1),
        updated_at: None,
    };
    assert_eq!(
        timesman::wire::Times::from(value),
        Ok(wire(Some(Timestamp { seconds: 1, nanos: 0 }), None))
    );
}

#[test]
fn from_reports_moments_that_are_no_date() {
    let value = Times {
        id: 7,
        title: "x".to_string(),
        created_at: civil(2024, 2, 30, 0, 0, 0),
        updated_at: None,
    };
    assert_eq!(timesman::wire::Times::from(value), Err(out_of_range()));
    let value = Times {
        id: 7,
        title: "x".to_string(),
        created_at: civil(2024, 2, 28, 0, 0, 0),
        updated_at: Some(civil(2024, 300, 1, 0, 0, 0)),
    };
    assert_eq!(timesman::wire::Times::from(value), Err(out_of_range()));
}

#[test]
fn wire_round_trip_drops_the_nanoseconds_only() {
    let sent = wire(
        Some(Timestamp { seconds: 1704110400, nanos: 750_000_000 }),
        Some(Timestamp { seconds: 1704196801, nanos: 1 }),
    );
    let back = timesman::wire::Times::from(sent.into().unwrap()).unwrap();
    assert_eq!(
        back,
        wire(
            Some(Timestamp { seconds: 1704110400, nanos: 0 }),
            Some(Timestamp { seconds: 1704196801, nanos: 0 }),
        )
    );
}

#[test]
fn converted_reports_the_first_failure() {
    assert_eq!(converted(Some(Some(1)), Some(Some(2))), Ok((1, Some(2))));
    assert_eq!(converted(Some(Some(1)), None), Ok((1, None)));
    assert_eq!(
        converted::<u8>(None, Some(None)),
        Err(BackendError::Malformed("creation time is missing".to_string()))
    );
    assert_eq!(converted::<u8>(Some(None), None), Err(out_of_range()));
    assert_eq!(converted(Some(Some(1)), Some(None)), Err(out_of_range()));
}
