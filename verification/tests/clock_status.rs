use offchain::Duration;
use offchain::HttpRequestStatus;
use offchain::Timestamp;

#[test]
fn timestamp_ops() {
    let t = Timestamp(5);
    assert_eq!(t.add(Duration::from_millis(10)), Timestamp(15));
    assert_eq!(t.sub(Duration::from_millis(10)), Timestamp(0));
    assert_eq!(t.diff(&Timestamp(3)), Duration(2));
}

#[test]
fn timestamp_accessors() {
    assert_eq!(Timestamp::from_unix_millis(1234), Timestamp(1234));
    assert_eq!(Timestamp(1234).unix_millis(), 1234);
    assert_eq!(Duration::from_millis(77).millis(), 77);
    assert_eq!(Timestamp::default(), Timestamp(0));
    assert_eq!(Duration::default(), Duration(0));
}

#[test]
fn add_saturates_at_max() {
    let near_max = Timestamp(u64::MAX - 3);
    assert_eq!(near_max.add(Duration::from_millis(10)), Timestamp(u64::MAX));
    assert_eq!(near_max.add(Duration::from_millis(3)), Timestamp(u64::MAX));
    assert_eq!(near_max.add(Duration::from_millis(2)), Timestamp(u64::MAX - 1));
}

#[test]
fn add_then_sub_returns_original() {
    let t = Timestamp(100);
    let d = Duration::from_millis(50);
    assert_eq!(t.add(d).sub(d), t);
    let zero = Timestamp(0);
    assert_eq!(zero.add(d).sub(d), zero);
}

#[test]
fn sub_saturates_at_zero() {
    assert_eq!(Timestamp(0).sub(Duration::from_millis(1)), Timestamp(0));
    assert_eq!(Timestamp(9).sub(Duration::from_millis(10)), Timestamp(0));
    assert_eq!(Timestamp(10).sub(Duration::from_millis(10)), Timestamp(0));
}

#[test]
fn diff_is_zero_when_other_is_later() {
    assert_eq!(Timestamp(3).diff(&Timestamp(5)), Duration(0));
    assert_eq!(Timestamp(5).diff(&Timestamp(5)), Duration(0));
    assert_eq!(Timestamp(5).diff(&Timestamp(3)).millis(), 2);
}

#[test]
fn status_decodes_internal_states() {
    assert_eq!(
        HttpRequestStatus::from_u32(0),
        Some(HttpRequestStatus::Unknown)
    );
    assert_eq!(
        HttpRequestStatus::from_u32(10),
        Some(HttpRequestStatus::DeadlineReached)
    );
    assert_eq!(
        HttpRequestStatus::from_u32(20),
        Some(HttpRequestStatus::Timeout)
    );
    assert_eq!(
        HttpRequestStatus::from_u32(200),
        Some(HttpRequestStatus::Finished(200))
    );
    assert_eq!(
        HttpRequestStatus::from_u32(999),
        Some(HttpRequestStatus::Finished(999))
    );
}

#[test]
fn status_rejects_reserved_and_out_of_range_codes() {
    // 50 sits in the internally-reserved-but-unassigned range below 100.
    assert_eq!(HttpRequestStatus::from_u32(50), None);
    for code in 1..=9u32 {
        assert_eq!(HttpRequestStatus::from_u32(code), None);
    }
    for code in 11..=19u32 {
        assert_eq!(HttpRequestStatus::from_u32(code), None);
    }
    for code in 21..=99u32 {
        assert_eq!(HttpRequestStatus::from_u32(code), None);
    }
    for code in 1000..=1100u32 {
        assert_eq!(HttpRequestStatus::from_u32(code), None);
    }
    assert_eq!(HttpRequestStatus::from_u32(u32::MAX), None);
}

#[test]
fn status_round_trip_over_every_accepted_code() {
    let mut accepted = vec![0u32, 10, 20];
    for code in 100..=999u32 {
        accepted.push(code);
    }
    for code in accepted {
        let status = HttpRequestStatus::from_u32(code).unwrap();
        assert_eq!(status.as_u32(), code);
        assert_eq!(HttpRequestStatus::from_u32(status.as_u32()), Some(status));
    }
}

#[test]
fn status_encodes_each_variant() {
    assert_eq!(HttpRequestStatus::Unknown.as_u32(), 0);
    assert_eq!(HttpRequestStatus::DeadlineReached.as_u32(), 10);
    assert_eq!(HttpRequestStatus::Timeout.as_u32(), 20);
    assert_eq!(HttpRequestStatus::Finished(404).as_u32(), 404);
}
