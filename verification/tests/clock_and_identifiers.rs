use std::time::{Duration, SystemTime};
use vehicle_information_service::clock::{timestamp_millis, unix_timestamp_at, UnixTime};
use vehicle_information_service::identifier::{ReqID, SubscriptionID, Uuid};
use vehicle_information_service::{unix_timestamp, unix_timestamp_ms};

#[test]
fn milliseconds_drop_what_is_below_one() {
    let time = UnixTime { secs: 12, nanos: 345_999_999 };
    assert_eq!(time.as_millis(), 12_345);
    assert_eq!(timestamp_millis(Some(time)), 12_345);
}

#[test]
fn no_reading_counts_as_zero() {
    assert_eq!(timestamp_millis(None), 0);
}

#[test]
fn the_largest_time_fits() {
    let time = UnixTime { secs: u64::MAX, nanos: 999_999_999 };
    assert_eq!(time.as_millis(), 18_446_744_073_709_551_615_999);
}

#[test]
fn milliseconds_follow_the_clock() {
    let earlier = UnixTime { secs: 1, nanos: 999_999_999 };
    let later = UnixTime { secs: 2, nanos: 0 };
    assert!(earlier.as_millis() <= later.as_millis());
}

#[test]
fn moments_are_read_from_the_epoch_on() {
    let epoch = SystemTime::UNIX_EPOCH;
    assert_eq!(unix_timestamp_at(epoch), Some(UnixTime { secs: 0, nanos: 0 }));
    assert_eq!(
        unix_timestamp_at(epoch + Duration::new(12, 345_999_900)),
        Some(UnixTime { secs: 12, nanos: 345_999_900 })
    );
    assert_eq!(unix_timestamp_at(epoch - Duration::from_secs(1)), None);
}

#[test]
fn the_clock_stands_after_the_turn_of_the_century() {
    let reading = unix_timestamp().unwrap();
    assert!(reading.secs > 946_684_800);
    assert!(reading.nanos < 1_000_000_000);
    assert!(unix_timestamp_ms() >= reading.as_millis());
}

#[test]
fn drawn_identifiers_are_of_version_four() {
    for _ in 0..64 {
        let id = Uuid::new_v4();
        assert_eq!((id.bits >> 76) & 0xf, 4);
        assert_eq!((id.bits >> 62) & 0x3, 2);
        assert!(!id.is_nil());
        assert_eq!(
            uuid::Uuid::from_u128(id.bits).get_version(),
            Some(uuid::Version::Random)
        );
    }
    assert!(Uuid::nil().is_nil());
}

#[test]
fn a_default_request_id_is_drawn() {
    match ReqID::default() {
        ReqID::ReqIDUUID(id) => assert!(!id.is_nil()),
        ReqID::ReqIDInt(_) => panic!("not drawn"),
    }
    assert_ne!(ReqID::default(), ReqID::default());
}

#[test]
fn subscriptions_are_filed_by_their_bits() {
    let id = SubscriptionID::SubscriptionIDUUID(Uuid { bits: 77 });
    assert_eq!(id.key(), 77);
}
