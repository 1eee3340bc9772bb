use bleasy::common::characteristics::{BATTERY_LEVEL, HEART_RATE_MEASUREMENT};
use bleasy::common::uuid_from_u16;
use bleasy::ScanConfig;
use std::time::Duration;
use uuid::Uuid;

#[test]
fn default_config_filters_nothing() {
    let c = ScanConfig::default();
    assert_eq!(c.adapter_index, 0);
    assert!(!c.address_filter);
    assert!(!c.name_filter);
    assert!(!c.name_required);
    assert!(!c.characteristics_filter);
    assert_eq!(c.max_results, None);
    assert_eq!(c.timeout, None);
    assert!(!c.force_disconnect);
}

#[test]
fn builders_set_one_setting_each() {
    let c = ScanConfig::default()
        .adapter_index(2)
        .filter_by_address()
        .filter_by_characteristics()
        .stop_after_matches(5)
        .stop_after_timeout(Duration::from_secs(3))
        .force_disconnect(true);
    assert_eq!(c.adapter_index, 2);
    assert!(c.address_filter);
    assert!(c.characteristics_filter);
    assert!(!c.name_filter);
    assert!(!c.name_required);
    assert_eq!(c.max_results, Some(5));
    assert_eq!(c.timeout, Some(Duration::from_secs(3)));
    assert!(c.force_disconnect);
}

#[test]
fn stop_after_first_match_is_one_match() {
    let c = ScanConfig::default().stop_after_matches(9).stop_after_first_match();
    assert_eq!(c.max_results, Some(1));
}

#[test]
fn require_name_sets_non_empty_rule() {
    let c = ScanConfig::default().require_name();
    assert!(c.name_required);
    assert!(!c.name_filter);
    let twice = ScanConfig::default().require_name().require_name();
    assert!(twice.name_required);
}

#[test]
fn require_name_keeps_custom_rule_and_requires_a_name() {
    let c = ScanConfig::default().filter_by_name().require_name();
    assert!(c.name_filter);
    assert!(c.name_required);
    let d = ScanConfig::default().require_name().filter_by_name();
    assert!(d.name_filter);
    assert!(d.name_required);
}

#[test]
fn short_uuid_fills_base_uuid() {
    assert_eq!(
        uuid_from_u16(0x1122),
        Uuid::parse_str("00001122-0000-1000-8000-00805f9b34fb").unwrap().as_u128()
    );
    assert_eq!(uuid_from_u16(0), 0x00000000_0000_1000_8000_00805f9b34fb);
    assert_eq!(uuid_from_u16(0xFFFF), 0x0000ffff_0000_1000_8000_00805f9b34fb);
}

#[test]
fn characteristic_constants_are_their_short_forms() {
    assert_eq!(HEART_RATE_MEASUREMENT, uuid_from_u16(0x2A37));
    assert_eq!(BATTERY_LEVEL, uuid_from_u16(0x2A19));
    assert_eq!(
        Uuid::from_u128(BATTERY_LEVEL),
        Uuid::parse_str("00002a19-0000-1000-8000-00805f9b34fb").unwrap()
    );
}
