use dust_orbit::clock::{access_token_expiry, is_before, otp_expires_at, session_expires_at, Timestamp};
use dust_orbit::ids::format_uuid;
use uuid::Uuid;

#[test]
fn format_uuid_matches_uuid_display() {
    let values: [u128; 6] = [
        0,
        u128::MAX,
        0x0199_a3c2_7c1e_7b2a_9f00_1234_5678_9abc,
        0x0123_4567_89ab_cdef_fedc_ba98_7654_3210,
        1,
        1 << 127,
    ];
    for v in values {
        assert_eq!(format_uuid(v), Uuid::from_u128(v).to_string());
    }
    for _ in 0..100 {
        let id = Uuid::now_v7();
        assert_eq!(format_uuid(id.as_u128()), id.to_string());
    }
}

#[test]
fn format_uuid_layout() {
    assert_eq!(format_uuid(0), "00000000-0000-0000-0000-000000000000");
    assert_eq!(
        format_uuid(0x0123_4567_89ab_cdef_fedc_ba98_7654_3210),
        "01234567-89ab-cdef-fedc-ba9876543210"
    );
}

#[test]
fn expiry_times() {
    let now = Timestamp { secs: 1_700_000_000, nanos: 123_456_789 };
    assert_eq!(otp_expires_at(now), Timestamp { secs: 1_700_000_900, nanos: 123_456_789 });
    assert_eq!(session_expires_at(now), Timestamp { secs: 1_702_592_000, nanos: 123_456_789 });
    assert_eq!(access_token_expiry(now), 1_700_000_900);
    assert_eq!(access_token_expiry(Timestamp { secs: 0, nanos: 999_999_999 }), 900);
}

#[test]
fn instants_compare_like_chrono() {
    let pairs = [
        ((5, 10), (5, 11)),
        ((5, 999_999_999), (6, 0)),
        ((6, 0), (5, 999_999_999)),
        ((7, 3), (7, 3)),
    ];
    for ((s1, n1), (s2, n2)) in pairs {
        let a = chrono::DateTime::from_timestamp(s1, n1).unwrap();
        let b = chrono::DateTime::from_timestamp(s2, n2).unwrap();
        assert_eq!(
            is_before(Timestamp { secs: s1, nanos: n1 }, Timestamp { secs: s2, nanos: n2 }),
            a < b
        );
    }
}

#[test]
fn second_fresh_id_is_version_7_and_differs_from_the_first() {
    let first = dust_orbit::ids::new_uuid_v7_besides(0);
    let second = dust_orbit::ids::new_uuid_v7_besides(first);
    assert_ne!(first, second);
    assert_eq!(uuid::Uuid::from_u128(second).get_version_num(), 7);
    assert_eq!((second >> 62) & 0x3, 2);
}
