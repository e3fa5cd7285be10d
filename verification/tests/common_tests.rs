use valqeron::common::{os_str_is_off, CalendarDate, UniqueIdentifier};

#[test]
fn lib_is_off_recognizes_disable_values() {
    for v in ["off", "OFF", "Off", "false", "0", "none", "  off  "] {
        assert!(os_str_is_off(v), "{v:?} should disable");
    }
    for v in ["on", "1", "true", "/tmp/logs/x.log"] {
        assert!(!os_str_is_off(v), "{v:?} should not disable");
    }
}

#[test]
fn common_is_off_recognizes_disable_values() {
    for v in ["off", "OFF", "Off", "false", "0", "none", "  off  "] {
        assert!(os_str_is_off(v), "{v:?} should disable");
    }
    for v in ["on", "1", "true", "/tmp/logs/x.log"] {
        assert!(!os_str_is_off(v), "{v:?} should not disable");
    }
}

#[test]
fn lib_test_unique_identifier_uuid_v7() {
    let id = UniqueIdentifier::new();
    assert_eq!(id.value(), uuid::Uuid::from_bytes(*id.as_bytes()).to_string());
}

#[test]
fn common_test_unique_identifier_uuid_v7() {
    let id = UniqueIdentifier::new();
    assert_eq!(id.value(), uuid::Uuid::from_bytes(*id.as_bytes()).to_string());
    assert_eq!(uuid::Uuid::from_bytes(*id.as_bytes()).get_version_num(), 7);
}

#[test]
fn unique_identifier_text_is_hyphenated_lower_hex() {
    let id = UniqueIdentifier::from_bytes([
        0x01, 0x8f, 0x6e, 0x80, 0x8e, 0x2b, 0x7b, 0x00, 0xa5, 0x4b, 0xd7, 0xd8, 0xe9, 0xf0, 0x12,
        0x34,
    ]);
    assert_eq!(id.value(), "018f6e80-8e2b-7b00-a54b-d7d8e9f01234");
}

#[test]
fn calendar_dates_exist_only_on_real_days() {
    let leap = CalendarDate::from_ymd_opt(2024, 2, 29).unwrap();
    assert_eq!(leap.to_string(), "2024-02-29");
    assert!(CalendarDate::from_ymd_opt(2023, 2, 29).is_none());
    assert!(CalendarDate::from_ymd_opt(1900, 2, 29).is_none());
    assert!(CalendarDate::from_ymd_opt(2000, 2, 29).is_some());
    assert!(CalendarDate::from_ymd_opt(2024, 4, 31).is_none());
    assert!(CalendarDate::from_ymd_opt(2024, 13, 1).is_none());
    let earlier = CalendarDate::from_ymd_opt(2024, 1, 31).unwrap();
    assert!(earlier.is_before(&leap));
    assert!(!leap.is_before(&earlier));
}
