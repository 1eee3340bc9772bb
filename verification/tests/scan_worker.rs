use bleasy::common::characteristics::BATTERY_LEVEL;
use bleasy::{CentralEventKind, ScanAction, ScanConfig, ScanInput, ScanState};

fn feed(s: &mut ScanState, input: ScanInput) -> ScanAction {
    assert!(s.expects(&input));
    s.step(input)
}

#[test]
fn unfiltered_device_is_announced_once() {
    let mut s = ScanState::new(ScanConfig::default());
    let a = feed(&mut s, ScanInput::Event(CentralEventKind::Discovered, 1));
    assert!(matches!(a, ScanAction::LookupPeripheral(1)));
    let a = feed(&mut s, ScanInput::Lookup(Some(0xAABB)));
    assert!(matches!(a, ScanAction::Emit(CentralEventKind::Discovered)));
    // Two receivers got the event: still one match.
    let a = feed(&mut s, ScanInput::Sent(Some(2)));
    assert!(matches!(a, ScanAction::Done));
    assert_eq!(s.result_count(), 1);

    // Seen again: already filtered, not announced again.
    let a = feed(&mut s, ScanInput::Event(CentralEventKind::Discovered, 1));
    assert!(matches!(a, ScanAction::LookupPeripheral(1)));
    let a = feed(&mut s, ScanInput::Lookup(Some(0xAABB)));
    assert!(matches!(a, ScanAction::Done));
    assert_eq!(s.result_count(), 1);

    // Updates of a matched device are forwarded, and do not count.
    feed(&mut s, ScanInput::Event(CentralEventKind::Updated, 1));
    let a = feed(&mut s, ScanInput::Lookup(Some(0xAABB)));
    assert!(matches!(a, ScanAction::Emit(CentralEventKind::Updated)));
    let a = feed(&mut s, ScanInput::Sent(Some(1)));
    assert!(matches!(a, ScanAction::Done));
    assert_eq!(s.result_count(), 1);
}

#[test]
fn other_events_and_lost_peripherals_are_done_at_once() {
    let mut s = ScanState::new(ScanConfig::default());
    let a = feed(&mut s, ScanInput::Event(CentralEventKind::Other, 3));
    assert!(matches!(a, ScanAction::Done));
    feed(&mut s, ScanInput::Event(CentralEventKind::Discovered, 3));
    let a = feed(&mut s, ScanInput::Lookup(None));
    assert!(matches!(a, ScanAction::Done));
    assert_eq!(s.result_count(), 0);
}

#[test]
fn match_counts_without_receivers() {
    let mut s = ScanState::new(ScanConfig::default().stop_after_first_match());
    feed(&mut s, ScanInput::Event(CentralEventKind::Discovered, 4));
    feed(&mut s, ScanInput::Lookup(Some(4)));
    let a = feed(&mut s, ScanInput::Sent(None));
    assert!(matches!(a, ScanAction::Done));
    assert_eq!(s.result_count(), 1);
    assert!(s.should_stop(false, false));
}

#[test]
fn stops_after_matches_not_receivers() {
    let mut s = ScanState::new(ScanConfig::default().stop_after_matches(2));
    feed(&mut s, ScanInput::Event(CentralEventKind::Discovered, 1));
    feed(&mut s, ScanInput::Lookup(Some(1)));
    feed(&mut s, ScanInput::Sent(Some(2)));
    assert!(!s.should_stop(false, false));
    feed(&mut s, ScanInput::Event(CentralEventKind::Discovered, 2));
    feed(&mut s, ScanInput::Lookup(Some(2)));
    feed(&mut s, ScanInput::Sent(Some(0)));
    assert!(s.should_stop(false, false));
}

#[test]
fn unmatched_disconnection_is_not_forwarded() {
    let mut s = ScanState::new(ScanConfig::default());
    feed(&mut s, ScanInput::Event(CentralEventKind::Disconnected, 5));
    let a = feed(&mut s, ScanInput::Lookup(Some(5)));
    assert!(matches!(a, ScanAction::Done));
}

#[test]
fn address_filter_failure_skips_device() {
    let mut s = ScanState::new(ScanConfig::default().filter_by_address());
    feed(&mut s, ScanInput::Event(CentralEventKind::Discovered, 2));
    let a = feed(&mut s, ScanInput::Lookup(Some(0x1234)));
    assert!(matches!(a, ScanAction::RunAddressFilter(0x1234)));
    let a = feed(&mut s, ScanInput::AddressFilter(false));
    assert!(matches!(a, ScanAction::CheckConnected));
    // Connected: the address filter is asked again on the advertised address.
    let a = feed(&mut s, ScanInput::Connected(Some(true)));
    assert!(matches!(a, ScanAction::FetchPropertiesAddress));
    let a = feed(&mut s, ScanInput::PropertiesAddress(Some(0x1234)));
    assert!(matches!(a, ScanAction::RunAddressFilter(0x1234)));
    let a = feed(&mut s, ScanInput::AddressFilter(false));
    assert!(matches!(a, ScanAction::Done));
    // Not filtered again.
    feed(&mut s, ScanInput::Event(CentralEventKind::Updated, 2));
    let a = feed(&mut s, ScanInput::Lookup(Some(0x1234)));
    assert!(matches!(a, ScanAction::Done));
}

#[test]
fn skipped_disconnected_device_is_left_alone() {
    let mut s = ScanState::new(ScanConfig::default().filter_by_address());
    feed(&mut s, ScanInput::Event(CentralEventKind::Discovered, 2));
    feed(&mut s, ScanInput::Lookup(Some(1)));
    feed(&mut s, ScanInput::AddressFilter(false));
    let a = feed(&mut s, ScanInput::Connected(Some(false)));
    assert!(matches!(a, ScanAction::Done));
}

#[test]
fn address_filter_pass_announces() {
    let mut s = ScanState::new(ScanConfig::default().filter_by_address());
    feed(&mut s, ScanInput::Event(CentralEventKind::Discovered, 2));
    feed(&mut s, ScanInput::Lookup(Some(7)));
    let a = feed(&mut s, ScanInput::AddressFilter(true));
    assert!(matches!(a, ScanAction::Emit(CentralEventKind::Discovered)));
}

#[test]
fn required_name_rejects_empty_name() {
    let mut s = ScanState::new(ScanConfig::default().require_name());
    feed(&mut s, ScanInput::Event(CentralEventKind::Discovered, 8));
    let a = feed(&mut s, ScanInput::Lookup(Some(8)));
    assert!(matches!(a, ScanAction::FetchLocalName));
    let a = feed(&mut s, ScanInput::LocalName(Some(String::new())));
    assert!(matches!(a, ScanAction::CheckConnected));
    let a = feed(&mut s, ScanInput::Connected(None));
    // A required name refuses the empty name, so nothing to disconnect.
    assert!(matches!(a, ScanAction::FetchLocalName));
    let a = feed(&mut s, ScanInput::LocalName(Some(String::new())));
    assert!(matches!(a, ScanAction::Done));
    assert_eq!(s.result_count(), 0);
}

#[test]
fn required_name_waits_for_unknown_name_then_accepts() {
    let mut s = ScanState::new(ScanConfig::default().require_name());
    feed(&mut s, ScanInput::Event(CentralEventKind::Discovered, 8));
    feed(&mut s, ScanInput::Lookup(Some(8)));
    let a = feed(&mut s, ScanInput::LocalName(None));
    assert!(matches!(a, ScanAction::Done));
    // Not filtered yet: the next update runs the filters again.
    feed(&mut s, ScanInput::Event(CentralEventKind::Updated, 8));
    let a = feed(&mut s, ScanInput::Lookup(Some(8)));
    assert!(matches!(a, ScanAction::FetchLocalName));
    let a = feed(&mut s, ScanInput::LocalName(Some(String::from("Sensor"))));
    assert!(matches!(a, ScanAction::Emit(CentralEventKind::Discovered)));
}

#[test]
fn custom_name_filter_is_asked() {
    let mut s = ScanState::new(ScanConfig::default().filter_by_address().filter_by_name());
    feed(&mut s, ScanInput::Event(CentralEventKind::Discovered, 9));
    feed(&mut s, ScanInput::Lookup(Some(9)));
    feed(&mut s, ScanInput::AddressFilter(false));
    let a = feed(&mut s, ScanInput::LocalName(Some(String::from("abc"))));
    match a {
        ScanAction::RunNameFilter(n) => assert_eq!(n, "abc"),
        _ => panic!("expected the name filter"),
    }
    // The address failed, so a passing name does not help.
    let a = feed(&mut s, ScanInput::NameFilter(true));
    assert!(matches!(a, ScanAction::CheckConnected));
}

#[test]
fn skipped_connected_device_is_disconnected_when_name_passes() {
    let mut s = ScanState::new(ScanConfig::default().filter_by_address().filter_by_name());
    feed(&mut s, ScanInput::Event(CentralEventKind::Discovered, 9));
    feed(&mut s, ScanInput::Lookup(Some(9)));
    feed(&mut s, ScanInput::AddressFilter(false));
    feed(&mut s, ScanInput::LocalName(Some(String::from("abc"))));
    feed(&mut s, ScanInput::NameFilter(false));
    feed(&mut s, ScanInput::Connected(Some(true)));
    let a = feed(&mut s, ScanInput::PropertiesAddress(None));
    assert!(matches!(a, ScanAction::FetchLocalName));
    feed(&mut s, ScanInput::LocalName(Some(String::from("abc"))));
    let a = feed(&mut s, ScanInput::NameFilter(true));
    assert!(matches!(a, ScanAction::Disconnect));
    let a = feed(&mut s, ScanInput::Ack);
    assert!(matches!(a, ScanAction::Done));
}

#[test]
fn forced_disconnect_paths() {
    let mut s = ScanState::new(ScanConfig::default().force_disconnect(true));
    feed(&mut s, ScanInput::Event(CentralEventKind::Discovered, 3));
    let a = feed(&mut s, ScanInput::Lookup(Some(3)));
    assert!(matches!(a, ScanAction::Disconnect));
    let a = feed(&mut s, ScanInput::Ack);
    assert!(matches!(a, ScanAction::Emit(CentralEventKind::Discovered)));

    let mut t = ScanState::new(ScanConfig::default().filter_by_address().force_disconnect(true));
    feed(&mut t, ScanInput::Event(CentralEventKind::Discovered, 3));
    feed(&mut t, ScanInput::Lookup(Some(3)));
    let a = feed(&mut t, ScanInput::AddressFilter(false));
    assert!(matches!(a, ScanAction::Disconnect));
    let a = feed(&mut t, ScanInput::Ack);
    assert!(matches!(a, ScanAction::Done));
}

#[test]
fn characteristics_filter_connects_then_checks() {
    let mut s = ScanState::new(ScanConfig::default().filter_by_characteristics());
    feed(&mut s, ScanInput::Event(CentralEventKind::Discovered, 7));
    let a = feed(&mut s, ScanInput::Lookup(Some(7)));
    assert!(matches!(a, ScanAction::CheckConnected));
    let a = feed(&mut s, ScanInput::Connected(Some(false)));
    assert!(matches!(a, ScanAction::SpawnConnect(7)));
    let a = feed(&mut s, ScanInput::Ack);
    assert!(matches!(a, ScanAction::Done));

    // Seen again while connecting: no second connection attempt.
    feed(&mut s, ScanInput::Event(CentralEventKind::Updated, 7));
    feed(&mut s, ScanInput::Lookup(Some(7)));
    let a = feed(&mut s, ScanInput::Connected(None));
    assert!(matches!(a, ScanAction::Done));

    // The connection is made.
    let a = feed(&mut s, ScanInput::Event(CentralEventKind::Connected, 7));
    assert!(matches!(a, ScanAction::LookupPeripheral(7)));
    let a = feed(&mut s, ScanInput::Lookup(Some(7)));
    assert!(matches!(a, ScanAction::CheckConnected));
    let a = feed(&mut s, ScanInput::Connected(Some(true)));
    assert!(matches!(a, ScanAction::CheckConnected));
    let a = feed(&mut s, ScanInput::Connected(Some(true)));
    assert!(matches!(a, ScanAction::ListCharacteristics));
    let a = feed(&mut s, ScanInput::Characteristics(vec![]));
    assert!(matches!(a, ScanAction::DiscoverServices));
    let a = feed(&mut s, ScanInput::ServicesDiscovered(true));
    assert!(matches!(a, ScanAction::ListCharacteristics));
    let a = feed(&mut s, ScanInput::Characteristics(vec![BATTERY_LEVEL]));
    match a {
        ScanAction::RunCharacteristicsFilter(u) => assert_eq!(u, vec![BATTERY_LEVEL]),
        _ => panic!("expected the characteristics filter"),
    }
    let a = feed(&mut s, ScanInput::CharacteristicsFilter(true));
    assert!(matches!(a, ScanAction::Emit(CentralEventKind::Discovered)));
    let a = feed(&mut s, ScanInput::Sent(Some(1)));
    assert!(matches!(a, ScanAction::Done));
    assert_eq!(s.result_count(), 1);
}

#[test]
fn known_characteristics_go_through_the_filter() {
    let mut s = ScanState::new(ScanConfig::default().filter_by_characteristics());
    feed(&mut s, ScanInput::Event(CentralEventKind::Discovered, 7));
    feed(&mut s, ScanInput::Lookup(Some(7)));
    feed(&mut s, ScanInput::Connected(Some(true)));
    feed(&mut s, ScanInput::Connected(Some(true)));
    let a = feed(&mut s, ScanInput::Characteristics(vec![1, 2]));
    match a {
        ScanAction::RunCharacteristicsFilter(u) => assert_eq!(u, vec![1, 2]),
        _ => panic!("expected the characteristics filter"),
    }
    // The filter refuses (no battery level): skipped, not announced.
    let a = feed(&mut s, ScanInput::CharacteristicsFilter(false));
    assert!(matches!(a, ScanAction::CheckConnected));
    feed(&mut s, ScanInput::Connected(Some(true)));
    assert_eq!(s.result_count(), 0);
}

#[test]
fn failed_discovery_skips_and_lost_connection_waits() {
    let mut s = ScanState::new(ScanConfig::default().filter_by_characteristics());
    feed(&mut s, ScanInput::Event(CentralEventKind::Discovered, 7));
    feed(&mut s, ScanInput::Lookup(Some(7)));
    feed(&mut s, ScanInput::Connected(Some(true)));
    feed(&mut s, ScanInput::Connected(Some(true)));
    feed(&mut s, ScanInput::Characteristics(vec![]));
    let a = feed(&mut s, ScanInput::ServicesDiscovered(false));
    assert!(matches!(a, ScanAction::CheckConnected));

    let mut t = ScanState::new(ScanConfig::default().filter_by_characteristics());
    feed(&mut t, ScanInput::Event(CentralEventKind::Discovered, 6));
    feed(&mut t, ScanInput::Lookup(Some(6)));
    feed(&mut t, ScanInput::Connected(Some(true)));
    // The connection dropped between the two checks: the characteristics could not be
    // checked, so nothing is decided yet; the next event runs the filters again.
    let a = feed(&mut t, ScanInput::Connected(Some(false)));
    assert!(matches!(a, ScanAction::Done));
    assert_eq!(t.result_count(), 0);
    feed(&mut t, ScanInput::Event(CentralEventKind::Updated, 6));
    let a = feed(&mut t, ScanInput::Lookup(Some(6)));
    assert!(matches!(a, ScanAction::CheckConnected));
}

#[test]
fn failed_connection_allows_a_new_attempt() {
    let mut s = ScanState::new(ScanConfig::default().filter_by_characteristics());
    feed(&mut s, ScanInput::Event(CentralEventKind::Discovered, 7));
    feed(&mut s, ScanInput::Lookup(Some(7)));
    feed(&mut s, ScanInput::Connected(Some(false)));
    feed(&mut s, ScanInput::Ack);
    s.connect_failed(7);
    feed(&mut s, ScanInput::Event(CentralEventKind::Updated, 7));
    feed(&mut s, ScanInput::Lookup(Some(7)));
    let a = feed(&mut s, ScanInput::Connected(Some(false)));
    assert!(matches!(a, ScanAction::SpawnConnect(7)));
}

#[test]
fn disconnection_ends_connection_attempt() {
    let mut s = ScanState::new(ScanConfig::default().filter_by_characteristics());
    feed(&mut s, ScanInput::Event(CentralEventKind::Discovered, 7));
    feed(&mut s, ScanInput::Lookup(Some(7)));
    feed(&mut s, ScanInput::Connected(Some(false)));
    feed(&mut s, ScanInput::Ack);
    feed(&mut s, ScanInput::Event(CentralEventKind::Disconnected, 7));
    let a = feed(&mut s, ScanInput::Lookup(None));
    assert!(matches!(a, ScanAction::Done));
    feed(&mut s, ScanInput::Event(CentralEventKind::Updated, 7));
    feed(&mut s, ScanInput::Lookup(Some(7)));
    let a = feed(&mut s, ScanInput::Connected(Some(false)));
    assert!(matches!(a, ScanAction::SpawnConnect(7)));
}

#[test]
fn stop_conditions() {
    let mut s = ScanState::new(ScanConfig::default().stop_after_matches(2));
    assert!(!s.should_stop(false, false));
    assert!(s.should_stop(true, false));
    assert!(s.should_stop(false, true));
    feed(&mut s, ScanInput::Event(CentralEventKind::Discovered, 1));
    feed(&mut s, ScanInput::Lookup(Some(1)));
    feed(&mut s, ScanInput::Sent(Some(1)));
    assert!(!s.should_stop(false, false));
    feed(&mut s, ScanInput::Event(CentralEventKind::Discovered, 2));
    feed(&mut s, ScanInput::Lookup(Some(2)));
    feed(&mut s, ScanInput::Sent(Some(1)));
    assert!(s.should_stop(false, false));

    let u = ScanState::new(ScanConfig::default());
    assert!(!u.should_stop(false, false));
    let z = ScanState::new(ScanConfig::default().stop_after_matches(0));
    assert!(z.should_stop(false, false));
}

#[test]
fn inputs_out_of_turn_are_refused() {
    let mut s = ScanState::new(ScanConfig::default());
    assert!(!s.expects(&ScanInput::Ack));
    assert!(!s.expects(&ScanInput::Lookup(Some(1))));
    assert!(s.expects(&ScanInput::Event(CentralEventKind::Discovered, 1)));
    feed(&mut s, ScanInput::Event(CentralEventKind::Discovered, 1));
    assert!(!s.expects(&ScanInput::Event(CentralEventKind::Discovered, 2)));
    feed(&mut s, ScanInput::Lookup(Some(1)));
    assert!(!s.expects(&ScanInput::Ack));
    assert!(s.expects(&ScanInput::Sent(Some(3))));
    assert!(s.expects(&ScanInput::Sent(None)));
    assert_eq!(s.config().adapter_index, 0);
}

#[test]
fn announced_only_when_every_filter_accepts() {
    let config = ScanConfig::default().filter_by_address().require_name();
    // Address accepted, name empty: skipped.
    let mut s = ScanState::new(config);
    feed(&mut s, ScanInput::Event(CentralEventKind::Discovered, 1));
    feed(&mut s, ScanInput::Lookup(Some(1)));
    let a = feed(&mut s, ScanInput::AddressFilter(true));
    assert!(matches!(a, ScanAction::FetchLocalName));
    let a = feed(&mut s, ScanInput::LocalName(Some(String::new())));
    assert!(matches!(a, ScanAction::CheckConnected));
    // Address refused, name given: skipped.
    feed(&mut s, ScanInput::Connected(Some(false)));
    feed(&mut s, ScanInput::Event(CentralEventKind::Discovered, 2));
    feed(&mut s, ScanInput::Lookup(Some(2)));
    feed(&mut s, ScanInput::AddressFilter(false));
    let a = feed(&mut s, ScanInput::LocalName(Some(String::from("x"))));
    assert!(matches!(a, ScanAction::CheckConnected));
    feed(&mut s, ScanInput::Connected(Some(false)));
    // Both accepted: announced.
    feed(&mut s, ScanInput::Event(CentralEventKind::Discovered, 3));
    feed(&mut s, ScanInput::Lookup(Some(3)));
    feed(&mut s, ScanInput::AddressFilter(true));
    let a = feed(&mut s, ScanInput::LocalName(Some(String::from("x"))));
    assert!(matches!(a, ScanAction::Emit(CentralEventKind::Discovered)));
}

#[test]
fn required_name_overrides_accepting_custom_rule() {
    // The caller's rule accepts every name, but a name is required.
    let config = ScanConfig::default().filter_by_name().require_name();
    let mut s = ScanState::new(config);
    feed(&mut s, ScanInput::Event(CentralEventKind::Discovered, 1));
    let a = feed(&mut s, ScanInput::Lookup(Some(1)));
    assert!(matches!(a, ScanAction::FetchLocalName));
    // Empty name: refused without asking the caller's rule.
    let a = feed(&mut s, ScanInput::LocalName(Some(String::new())));
    assert!(matches!(a, ScanAction::CheckConnected));
    // Skipped and connected: an empty name is not disconnected on the name.
    feed(&mut s, ScanInput::Connected(Some(true)));
    let a = feed(&mut s, ScanInput::LocalName(Some(String::new())));
    assert!(matches!(a, ScanAction::Done));
    assert_eq!(s.result_count(), 0);

    // A name that is not empty goes to the caller's rule.
    feed(&mut s, ScanInput::Event(CentralEventKind::Discovered, 2));
    feed(&mut s, ScanInput::Lookup(Some(2)));
    let a = feed(&mut s, ScanInput::LocalName(Some(String::from("a"))));
    assert!(matches!(a, ScanAction::RunNameFilter(_)));
    let a = feed(&mut s, ScanInput::NameFilter(true));
    assert!(matches!(a, ScanAction::Emit(CentralEventKind::Discovered)));
}

#[test]
fn battery_filter_announces_device_listing_battery() {
    let mut s = ScanState::new(ScanConfig::default().filter_by_characteristics());
    feed(&mut s, ScanInput::Event(CentralEventKind::Discovered, 5));
    feed(&mut s, ScanInput::Lookup(Some(5)));
    feed(&mut s, ScanInput::Connected(Some(true)));
    feed(&mut s, ScanInput::Connected(Some(true)));
    let listing = vec![7u128, BATTERY_LEVEL];
    let a = feed(&mut s, ScanInput::Characteristics(listing.clone()));
    let accepted = match a {
        ScanAction::RunCharacteristicsFilter(u) => u,
        _ => panic!("expected the characteristics filter"),
    };
    let passed = accepted.contains(&BATTERY_LEVEL);
    let a = feed(&mut s, ScanInput::CharacteristicsFilter(passed));
    assert!(matches!(a, ScanAction::Emit(CentralEventKind::Discovered)));
    assert_eq!(bleasy::device::first_with_uuid(&listing, BATTERY_LEVEL), Some(1));
}

#[test]
fn forced_disconnect_of_skipped_device() {
    let mut s = ScanState::new(ScanConfig::default().require_name().force_disconnect(true));
    feed(&mut s, ScanInput::Event(CentralEventKind::Discovered, 1));
    feed(&mut s, ScanInput::Lookup(Some(1)));
    let a = feed(&mut s, ScanInput::LocalName(Some(String::new())));
    assert!(matches!(a, ScanAction::Disconnect));
    let a = feed(&mut s, ScanInput::Ack);
    assert!(matches!(a, ScanAction::Done));
}
