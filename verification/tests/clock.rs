use chrono::{DateTime, FixedOffset, Utc};
use mini_cli::clock::{Timestamp, MAX_SECS, MIN_SECS};

fn by_chrono(secs: i64, nanos: u32, offset: i32) -> String {
    let zone = FixedOffset::east_opt(offset).expect("an offset");
    let time = DateTime::from_timestamp(secs, nanos).expect("an instant").with_timezone(&zone);
    time.format("%Y-%m-%d %H:%M").to_string()
}

#[test]
fn the_range_of_instants_is_that_of_chrono() {
    assert_eq!(MIN_SECS, DateTime::<Utc>::MIN_UTC.timestamp());
    assert_eq!(MAX_SECS, DateTime::<Utc>::MAX_UTC.timestamp());
    assert!(Timestamp::new(MIN_SECS, 0, 0).is_some());
    assert!(Timestamp::new(MIN_SECS - 1, 0, 0).is_none());
    assert!(Timestamp::new(MAX_SECS, 999_999_999, 0).is_some());
    assert!(Timestamp::new(MAX_SECS + 1, 0, 0).is_none());
    assert!(Timestamp::new(i64::MIN, 0, 0).is_none());
    assert!(Timestamp::new(i64::MAX, 0, 0).is_none());
}

#[test]
fn a_timestamp_is_valid_exactly_where_chrono_has_the_instant() {
    let seconds = [
        i64::MIN, MIN_SECS - 1, MIN_SECS, MIN_SECS + 59, MIN_SECS + 60, -86_401, -86_400, -61,
        -60, -2, -1, 0, 1, 58, 59, 60, 119, 1_700_000_000, 1_700_000_039, MAX_SECS - 60,
        MAX_SECS - 1, MAX_SECS, MAX_SECS + 1, i64::MAX,
    ];
    let nanos = [0, 1, 999_999_999, 1_000_000_000, 1_500_000_000, 1_999_999_999, 2_000_000_000, u32::MAX];
    for secs in seconds {
        for nanos in nanos {
            let made = Timestamp::new(secs, nanos, 0);
            assert_eq!(
                made.is_some(),
                DateTime::from_timestamp(secs, nanos).is_some(),
                "{} {}",
                secs,
                nanos
            );
            if let Some(t) = made {
                assert_eq!((t.secs(), t.nanos(), t.offset()), (secs, nanos, 0));
            }
        }
    }
}

#[test]
fn an_offset_is_valid_exactly_where_chrono_has_the_zone() {
    for offset in [i32::MIN, -86_401, -86_400, -86_399, -3600, -1, 0, 1, 19_800, 86_399, 86_400, 86_401, i32::MAX] {
        assert_eq!(
            Timestamp::new(0, 0, offset).is_some(),
            FixedOffset::east_opt(offset).is_some(),
            "{}",
            offset
        );
    }
}

#[test]
fn the_epoch_is_written_to_the_minute() {
    let epoch = Timestamp::new(0, 0, 0).expect("the epoch");
    assert_eq!(epoch.to_minute_text(), "1970-01-01 00:00");
    let east = Timestamp::new(0, 0, 3600).expect("the epoch, one hour east");
    assert_eq!(east.to_minute_text(), "1970-01-01 01:00");
    let west = Timestamp::new(0, 0, -60).expect("the epoch, one minute west");
    assert_eq!(west.to_minute_text(), "1969-12-31 23:59");
}

#[test]
fn seconds_and_nanoseconds_do_not_show() {
    let t = Timestamp::new(1_700_000_000, 0, 0).expect("an instant");
    assert_eq!(t.to_minute_text(), "2023-11-14 22:13");
    let later = Timestamp::new(1_700_000_039, 999_999_999, 0).expect("an instant");
    assert_eq!(later.to_minute_text(), "2023-11-14 22:13");
    let next = Timestamp::new(1_700_000_040, 0, 0).expect("an instant");
    assert_eq!(next.to_minute_text(), "2023-11-14 22:14");
    let india = Timestamp::new(1_700_000_000, 0, 19_800).expect("an instant");
    assert_eq!(india.to_minute_text(), "2023-11-15 03:43");
}

#[test]
fn the_text_is_what_chrono_writes() {
    let seconds = [MIN_SECS, -62_167_219_200, -1, 0, 951_782_400, 1_700_000_000, 253_402_300_799, 253_402_300_800, MAX_SECS];
    for secs in seconds {
        for offset in [-86_399, -3600, 0, 1, 5400, 86_399] {
            let t = Timestamp::new(secs, 0, offset).expect("an instant");
            assert_eq!(t.to_minute_text(), by_chrono(secs, 0, offset), "{} {}", secs, offset);
        }
    }
    let leap = Timestamp::new(1_483_228_799, 1_000_000_000, 0).expect("a leap second");
    assert_eq!(leap.to_minute_text(), "2016-12-31 23:59");
}

#[test]
fn now_is_now() {
    let before = Utc::now().timestamp();
    let now = Timestamp::now();
    let after = Utc::now().timestamp();
    assert!(before <= now.secs() && now.secs() <= after);
    assert!(now.nanos() < 1_000_000_000);
    assert!(-86_400 < now.offset() && now.offset() < 86_400);
    assert_eq!(Timestamp::new(now.secs(), now.nanos(), now.offset()), Some(now));
    assert_eq!(now.to_minute_text(), by_chrono(now.secs(), now.nanos(), now.offset()));
}
