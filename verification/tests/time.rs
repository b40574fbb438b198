use netwatching::message::decode;
use netwatching::message::encode;
use netwatching::message::DecodeError;
use netwatching::message::HeartbeatMsg;
use netwatching::time::Timestamp;

/// The text that an instant has on the wire: the second field of a heartbeat
/// with an empty name.
fn text_of(t: Timestamp) -> Option<String> {
    match encode(&HeartbeatMsg::new("", t)) {
        Ok(bytes) => {
            assert_eq!(bytes[..8], [0u8; 8]);
            assert_eq!(bytes[8..16], ((bytes.len() - 16) as u64).to_le_bytes());
            Some(String::from_utf8(bytes[16..].to_vec()).expect("the text is UTF-8"))
        }
        Err(_) => None,
    }
}

/// The instant that a text on the wire is read as.
fn instant_of(text: &str) -> Option<Timestamp> {
    let mut bytes = vec![0u8; 8];
    bytes.extend_from_slice(&(text.len() as u64).to_le_bytes());
    bytes.extend_from_slice(text.as_bytes());
    match decode(&bytes) {
        Ok(msg) => {
            assert_eq!(msg.name, "");
            Some(msg.sending_time)
        }
        Err(e) => {
            assert_eq!(e, DecodeError::BadTimestamp);
            None
        }
    }
}

#[test]
fn timestamp_new_keeps_both_numbers() {
    let t = Timestamp::new(-5, 17);
    assert_eq!(t.seconds, -5);
    assert_eq!(t.nanoseconds, 17);
}

#[test]
fn time_text_is_utc_with_z() {
    assert_eq!(text_of(Timestamp::new(0, 0)).as_deref(), Some("1970-01-01T00:00:00Z"));
    assert_eq!(
        text_of(Timestamp::new(1_700_000_000, 123_456_789)).as_deref(),
        Some("2023-11-14T22:13:20.123456789Z")
    );
    assert_eq!(
        text_of(Timestamp::new(1_700_000_000, 123_000_000)).as_deref(),
        Some("2023-11-14T22:13:20.123Z")
    );
    assert_eq!(text_of(Timestamp::new(-1, 0)).as_deref(), Some("1969-12-31T23:59:59Z"));
}

#[test]
fn time_text_signs_years_beyond_four_digits() {
    assert_eq!(
        text_of(Timestamp::new(253_402_300_800, 0)).as_deref(),
        Some("+10000-01-01T00:00:00Z")
    );
    assert_eq!(
        text_of(Timestamp::new(-62_167_219_201, 0)).as_deref(),
        Some("-0001-12-31T23:59:59Z")
    );
}

#[test]
fn time_text_writes_a_leap_second_as_second_sixty() {
    assert_eq!(
        text_of(Timestamp::new(1_483_228_799, 1_250_000_000)).as_deref(),
        Some("2016-12-31T23:59:60.250Z")
    );
}

#[test]
fn time_has_no_text_outside_the_calendar() {
    assert_eq!(text_of(Timestamp::new(i64::MAX, 0)), None);
    assert_eq!(text_of(Timestamp::new(i64::MIN, 0)), None);
    assert_eq!(text_of(Timestamp::new(0, 2_000_000_000)), None);
    assert_eq!(text_of(Timestamp::new(0, 1_000_000_000)), None);
}

#[test]
fn time_text_reads_back() {
    let instants: [(i64, u32); 7] = [
        (0, 0),
        (1_700_000_000, 123_456_789),
        (-1, 999_999_999),
        (1_483_228_799, 1_999_999_999),
        (253_402_300_800, 0),
        (-62_167_219_201, 5),
        (8_210_266_876_799, 999_999_999),
    ];
    for (seconds, nanoseconds) in instants {
        let t = Timestamp::new(seconds, nanoseconds);
        let text = text_of(t).expect("the instant has a text");
        assert_eq!(instant_of(&text), Some(t), "{}", text);
    }
}

#[test]
fn time_text_with_offset_is_read_and_the_rest_rejected() {
    assert_eq!(
        instant_of("2023-11-15T06:13:20.5+08:00"),
        Some(Timestamp::new(1_700_000_000, 500_000_000))
    );
    assert_eq!(instant_of("2023-11-14T22:13:20"), None);
    assert_eq!(instant_of("node-a"), None);
    assert_eq!(instant_of(""), None);
}

#[test]
fn text_reads_back_all_over_the_calendar() {
    let first = chrono::DateTime::<chrono::Utc>::MIN_UTC.timestamp();
    let last = chrono::DateTime::<chrono::Utc>::MAX_UTC.timestamp();
    let span = (last - first) as u64 + 1;
    let mut state = 0x9e37_79b9_7f4a_7c15u64;
    let mut next = move || {
        state ^= state << 13;
        state ^= state >> 7;
        state ^= state << 17;
        state
    };
    let fractions = [0, 1, 999, 1_000, 999_000, 1_000_000, 120_000_000, 999_999_999];
    for round in 0..200_000u64 {
        let mut seconds = first + (next() % span) as i64;
        if round % 4 == 0 {
            seconds = 1_700_000_000 + (next() % 1_000_000) as i64;
        }
        let mut nanoseconds = if round % 2 == 0 {
            fractions[(next() % fractions.len() as u64) as usize]
        } else {
            (next() % 1_000_000_000) as u32
        };
        if seconds.rem_euclid(60) == 59 && round % 3 == 0 {
            nanoseconds += 1_000_000_000;
        }
        let t = Timestamp::new(seconds, nanoseconds);
        let text = text_of(t).expect("the instant is on the calendar");
        assert_eq!(instant_of(&text), Some(t), "{}", text);
    }
}

#[test]
fn text_is_what_chrono_serializes() {
    let instants: [(i64, u32); 5] = [
        (0, 0),
        (1_700_000_000, 123_456_789),
        (1_483_228_799, 1_000_000_000),
        (253_402_300_800, 7_000),
        (-62_167_219_201, 0),
    ];
    for (seconds, nanoseconds) in instants {
        let instant = chrono::DateTime::<chrono::Utc>::from_timestamp(seconds, nanoseconds).unwrap();
        let serialized = bincode::serialize(&instant).unwrap();
        let text = text_of(Timestamp::new(seconds, nanoseconds)).unwrap();
        assert_eq!(&serialized[8..], text.as_bytes());
        assert_eq!(serialized[..8], (text.len() as u64).to_le_bytes());
    }
}
