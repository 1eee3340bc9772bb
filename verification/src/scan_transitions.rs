//! What each step of a scan does, case by case: for every phase and every outcome the
//! scan waits for there, the state it moves to and the action it asks for.

use crate::config::ScanConfig;
use crate::worker::{CentralEventKind, ScanAction, ScanInput, ScanPhase, ScanView};
use vstd::prelude::*;

verus! {

/// The handling of the event is over: the scan is idle again, and a peripheral that
/// disconnected is no longer being connected to.
pub open spec fn handled(v: ScanView) -> (ScanView, ScanAction) {
    (
        ScanView {
            phase: ScanPhase::Idle,
            connecting: if v.kind == CentralEventKind::Disconnected {
                v.connecting.remove(v.current)
            } else {
                v.connecting
            },
            ..v
        },
        ScanAction::Done,
    )
}

/// The peripheral is announced: it becomes filtered and matched, and the clients are sent
/// a `Discovered` event about it.
pub open spec fn announced(v: ScanView) -> (ScanView, ScanAction) {
    (
        ScanView {
            filtered: v.filtered.insert(v.current),
            matched: v.matched.insert(v.current),
            phase: ScanPhase::Announcing,
            ..v
        },
        ScanAction::Emit(CentralEventKind::Discovered),
    )
}

/// The peripheral failed a filter: it becomes filtered (not matched), and is disconnected
/// at once where disconnection is forced, else asked whether it is connected.
pub open spec fn refused(v: ScanView) -> (ScanView, ScanAction) {
    if v.config.force_disconnect {
        (
            ScanView { filtered: v.filtered.insert(v.current), phase: ScanPhase::SkipDisconnect, ..v },
            ScanAction::Disconnect,
        )
    } else {
        (
            ScanView {
                filtered: v.filtered.insert(v.current),
                phase: ScanPhase::SkipConnectionCheck,
                ..v
            },
            ScanAction::CheckConnected,
        )
    }
}

/// The peripheral passed the filters that need no connection: with a characteristics
/// filter it is asked whether it is connected; else, where disconnection is forced, it is
/// disconnected; else it is announced.
pub open spec fn passed(v: ScanView) -> (ScanView, ScanAction) {
    if v.config.characteristics_filter {
        (ScanView { phase: ScanPhase::FirstConnectionCheck, ..v }, ScanAction::CheckConnected)
    } else if v.config.force_disconnect {
        (ScanView { phase: ScanPhase::DisconnectBeforeAdd, ..v }, ScanAction::Disconnect)
    } else {
        announced(v)
    }
}

/// Whether some check on the name is set.
pub open spec fn checks_name(c: ScanConfig) -> bool {
    c.name_filter || c.name_required
}

/// For a refused peripheral, the name is asked for where a check on the name is set.
pub open spec fn refused_name_check(v: ScanView) -> (ScanView, ScanAction) {
    if checks_name(v.config) {
        (ScanView { phase: ScanPhase::SkipLocalName, ..v }, ScanAction::FetchLocalName)
    } else {
        handled(v)
    }
}

/// For a refused peripheral, the advertised address is asked for where an address filter
/// is set.
pub open spec fn refused_address_check(v: ScanView) -> (ScanView, ScanAction) {
    if v.config.address_filter {
        (ScanView { phase: ScanPhase::SkipProperties, ..v }, ScanAction::FetchPropertiesAddress)
    } else {
        refused_name_check(v)
    }
}

/// The filters start on a peripheral not filtered yet: the address filter first, then
/// the name, then the verdict.
pub open spec fn filters_start(v: ScanView) -> (ScanView, ScanAction) {
    if v.config.address_filter {
        (ScanView { phase: ScanPhase::PreAddressFilter, ..v }, ScanAction::RunAddressFilter(v.address))
    } else if checks_name(v.config) {
        (
            ScanView { phase: ScanPhase::PreLocalName { address_ok: true }, ..v },
            ScanAction::FetchLocalName,
        )
    } else {
        passed(v)
    }
}

/// A fresh scan has filtered, matched and connected to nothing, counted nothing, and is
/// idle.
pub proof fn law_fresh_scan(config: ScanConfig)
    ensures
        ScanView::initial(config).filtered == Set::<u64>::empty(),
        ScanView::initial(config).matched == Set::<u64>::empty(),
        ScanView::initial(config).connecting == Set::<u64>::empty(),
        ScanView::initial(config).result_count == 0,
        ScanView::initial(config).phase == ScanPhase::Idle,
        ScanView::initial(config).config == config,
        ScanView::initial(config).connection_needed == config.characteristics_filter,
{
}

/// On a fresh scan without filters or forced disconnection, the first discovered
/// peripheral, whatever its key and address, is looked up and then announced.
pub proof fn law_fresh_scan_announces(config: ScanConfig, id: u64, address: u64)
    requires
        !config.address_filter,
        !checks_name(config),
        !config.characteristics_filter,
        !config.force_disconnect,
    ensures
        ScanView::initial(config).next(ScanInput::Event(CentralEventKind::Discovered, id)).1
            == ScanAction::LookupPeripheral(id),
        ScanView::initial(config).next(
            ScanInput::Event(CentralEventKind::Discovered, id),
        ).0.next(ScanInput::Lookup(Some(address))).1 == ScanAction::Emit(
            CentralEventKind::Discovered,
        ),
        ScanView::initial(config).next(
            ScanInput::Event(CentralEventKind::Discovered, id),
        ).0.next(ScanInput::Lookup(Some(address))).0.matched == Set::<u64>::empty().insert(id),
{
}

/// An adapter event starts the handling of its peripheral: it is looked up (after a
/// connection, it is no longer being connected to); other adapter events change nothing.
pub proof fn law_event(v: ScanView, kind: CentralEventKind, id: u64)
    requires
        v.phase == ScanPhase::Idle,
    ensures
        kind == CentralEventKind::Other ==> v.next(ScanInput::Event(kind, id)) == (
            v,
            ScanAction::Done,
        ),
        kind != CentralEventKind::Other ==> v.next(ScanInput::Event(kind, id)) == (
            ScanView {
                phase: ScanPhase::Lookup,
                current: id,
                kind,
                connecting: if kind == CentralEventKind::Connected {
                    v.connecting.remove(id)
                } else {
                    v.connecting
                },
                ..v
            },
            ScanAction::LookupPeripheral(id),
        ),
{
}

/// What follows the lookup: a peripheral that cannot be had ends the handling; events
/// about a matched peripheral (but its discovery) are forwarded; a peripheral not filtered
/// yet goes through the filters, on the address it was found with; the rest ends.
pub proof fn law_lookup(v: ScanView, address: u64)
    requires
        v.phase == ScanPhase::Lookup,
        v.kind != CentralEventKind::Other,
        v.connection_needed == v.config.characteristics_filter,
        v.matched.subset_of(v.filtered),
    ensures
        v.next(ScanInput::Lookup(None)) == handled(v),
        ({
            let w = ScanView { address, ..v };
            let r = v.next(ScanInput::Lookup(Some(address)));
            &&& v.kind != CentralEventKind::Discovered && v.matched.contains(v.current) ==> r == (
                ScanView { phase: ScanPhase::Forwarding, ..w },
                ScanAction::Emit(v.kind),
            )
            &&& v.kind != CentralEventKind::Disconnected && !v.filtered.contains(v.current)
                ==> r == filters_start(w)
            &&& v.kind == CentralEventKind::Disconnected && !v.matched.contains(v.current) ==> r
                == handled(w)
            &&& v.filtered.contains(v.current) && !(v.kind != CentralEventKind::Discovered
                && v.matched.contains(v.current)) ==> r == handled(w)
        }),
{
}

/// The address filter's answer: on a peripheral being filtered, the name is checked next
/// (remembering the answer) or the answer is the verdict; on a refused peripheral, an
/// accepted address gets it disconnected, else the name is checked.
pub proof fn law_address_filter(v: ScanView, accepted: bool)
    requires
        v.connection_needed == v.config.characteristics_filter,
    ensures
        v.phase == ScanPhase::PreAddressFilter && checks_name(v.config) ==> v.next(
            ScanInput::AddressFilter(accepted),
        ) == (
            ScanView { phase: ScanPhase::PreLocalName { address_ok: accepted }, ..v },
            ScanAction::FetchLocalName,
        ),
        v.phase == ScanPhase::PreAddressFilter && !checks_name(v.config) ==> v.next(
            ScanInput::AddressFilter(accepted),
        ) == (if accepted {
            passed(v)
        } else {
            refused(v)
        }),
        v.phase == ScanPhase::SkipAddressFilter ==> v.next(ScanInput::AddressFilter(accepted)) == (
        if accepted {
            (ScanView { phase: ScanPhase::SkipAddressDisconnect, ..v }, ScanAction::Disconnect)
        } else {
            refused_name_check(v)
        }),
{
}

/// The local name: unknown, it ends the handling (the filters run again on a later event);
/// empty where a name is required, it fails; else the caller's rule (if set) is run on it,
/// or the verdict is the address filter's. On a refused peripheral, a name that passes
/// gets it disconnected.
pub proof fn law_local_name(v: ScanView, name: Option<String>, address_ok: bool)
    requires
        v.connection_needed == v.config.characteristics_filter,
    ensures
        v.phase == (ScanPhase::PreLocalName { address_ok }) ==> v.next(ScanInput::LocalName(name))
            == (match name {
            None => handled(v),
            Some(n) => if v.config.name_required && n@.len() == 0 {
                refused(v)
            } else if v.config.name_filter {
                (
                    ScanView { phase: ScanPhase::PreNameFilter { address_ok }, ..v },
                    ScanAction::RunNameFilter(n),
                )
            } else if address_ok {
                passed(v)
            } else {
                refused(v)
            },
        }),
        v.phase == ScanPhase::SkipLocalName ==> v.next(ScanInput::LocalName(name)) == (match name {
            None => handled(v),
            Some(n) => if v.config.name_required && n@.len() == 0 {
                handled(v)
            } else if v.config.name_filter {
                (ScanView { phase: ScanPhase::SkipNameFilter, ..v }, ScanAction::RunNameFilter(n))
            } else {
                (ScanView { phase: ScanPhase::SkipNameDisconnect, ..v }, ScanAction::Disconnect)
            },
        }),
{
}

/// The caller's name rule: on a peripheral being filtered, it passes exactly when both the
/// address and the name were accepted; on a refused peripheral, an accepted name gets it
/// disconnected.
pub proof fn law_name_filter(v: ScanView, accepted: bool, address_ok: bool)
    requires
        v.connection_needed == v.config.characteristics_filter,
    ensures
        v.phase == (ScanPhase::PreNameFilter { address_ok }) ==> v.next(
            ScanInput::NameFilter(accepted),
        ) == (if address_ok && accepted {
            passed(v)
        } else {
            refused(v)
        }),
        v.phase == ScanPhase::SkipNameFilter ==> v.next(ScanInput::NameFilter(accepted)) == (
        if accepted {
            (ScanView { phase: ScanPhase::SkipNameDisconnect, ..v }, ScanAction::Disconnect)
        } else {
            handled(v)
        }),
{
}

/// Whether the peripheral is connected. First check: a connected one is checked again; a
/// connection is started for one not connected, unless one is under way. Second check: a
/// connected one lists its characteristics, else the handling ends. On a refused
/// peripheral: one known not to be connected is left alone, else its address is checked.
pub proof fn law_connected(v: ScanView, connected: Option<bool>)
    ensures
        v.phase == ScanPhase::FirstConnectionCheck ==> v.next(ScanInput::Connected(connected)) == (
        if connected == Some(true) {
            (
                ScanView { phase: ScanPhase::SecondConnectionCheck, ..v },
                ScanAction::CheckConnected,
            )
        } else if v.connecting.contains(v.current) {
            handled(v)
        } else {
            (
                ScanView {
                    connecting: v.connecting.insert(v.current),
                    phase: ScanPhase::Spawning,
                    ..v
                },
                ScanAction::SpawnConnect(v.current),
            )
        }),
        v.phase == ScanPhase::SecondConnectionCheck ==> v.next(ScanInput::Connected(connected))
            == (if connected == Some(true) {
            (ScanView { phase: ScanPhase::FirstListing, ..v }, ScanAction::ListCharacteristics)
        } else {
            handled(v)
        }),
        v.phase == ScanPhase::SkipConnectionCheck ==> v.next(ScanInput::Connected(connected)) == (
        if connected == Some(false) {
            handled(v)
        } else {
            refused_address_check(v)
        }),
{
}

/// A refused peripheral's advertised address goes to the caller's address filter; where
/// it is unknown, the name is checked.
pub proof fn law_properties_address(v: ScanView, address: Option<u64>)
    requires
        v.phase == ScanPhase::SkipProperties,
    ensures
        v.next(ScanInput::PropertiesAddress(address)) == (match address {
            Some(a) => (
                ScanView { phase: ScanPhase::SkipAddressFilter, ..v },
                ScanAction::RunAddressFilter(a),
            ),
            None => refused_name_check(v),
        }),
{
}

/// A listing of characteristics is remembered; an empty first listing leads to service
/// discovery, any other listing goes to the caller's characteristics filter, as it is.
pub proof fn law_characteristics(v: ScanView, uuids: Vec<u128>)
    requires
        v.phase == ScanPhase::FirstListing || v.phase == ScanPhase::SecondListing,
    ensures
        v.next(ScanInput::Characteristics(uuids)) == (if v.phase == ScanPhase::FirstListing
            && uuids@.len() == 0 {
            (
                ScanView { phase: ScanPhase::Discovering, last_listing: uuids@, ..v },
                ScanAction::DiscoverServices,
            )
        } else {
            (
                ScanView {
                    phase: ScanPhase::CharacteristicsFilter,
                    last_listing: uuids@,
                    ..v
                },
                ScanAction::RunCharacteristicsFilter(uuids),
            )
        }),
{
}

/// Service discovery: on success the characteristics are listed again; on failure the
/// peripheral fails the filters.
pub proof fn law_services_discovered(v: ScanView, ok: bool)
    requires
        v.phase == ScanPhase::Discovering,
    ensures
        v.next(ScanInput::ServicesDiscovered(ok)) == (if ok {
            (ScanView { phase: ScanPhase::SecondListing, ..v }, ScanAction::ListCharacteristics)
        } else {
            refused(v)
        }),
{
}

/// The caller's characteristics filter decides: accepted, the peripheral is announced;
/// refused, it fails the filters.
pub proof fn law_characteristics_filter(v: ScanView, accepted: bool)
    requires
        v.phase == ScanPhase::CharacteristicsFilter,
    ensures
        v.next(ScanInput::CharacteristicsFilter(accepted)) == (if accepted {
            announced(v)
        } else {
            refused(v)
        }),
{
}

/// Once an event is sent the handling ends; an announcement counts one match, whatever
/// the send gave.
pub proof fn law_sent(v: ScanView, sent: Option<usize>)
    ensures
        v.phase == ScanPhase::Announcing ==> v.next(ScanInput::Sent(sent)) == handled(
            ScanView { result_count: (v.result_count + 1) as usize, ..v },
        ),
        v.phase == ScanPhase::Forwarding ==> v.next(ScanInput::Sent(sent)) == handled(v),
{
}

/// Work whose outcome does not matter is done: after the disconnect before an
/// announcement, the peripheral is announced; after a disconnect on a refused peripheral's
/// address, its name is checked; otherwise the handling ends.
pub proof fn law_ack(v: ScanView)
    ensures
        v.phase == ScanPhase::DisconnectBeforeAdd ==> v.next(ScanInput::Ack) == announced(v),
        v.phase == ScanPhase::SkipAddressDisconnect ==> v.next(ScanInput::Ack)
            == refused_name_check(v),
        (v.phase == ScanPhase::Spawning || v.phase == ScanPhase::SkipDisconnect || v.phase
            == ScanPhase::SkipNameDisconnect) ==> v.next(ScanInput::Ack) == handled(v),
{
}

/// Which outcomes the scan waits for in each phase: an adapter event only when idle, and
/// at each other phase the outcome of the work it asked for.
pub proof fn law_accepts(v: ScanView, input: ScanInput)
    ensures
        v.phase == ScanPhase::Idle ==> (v.accepts(input) <==> input is Event),
        v.phase == ScanPhase::Lookup ==> (v.accepts(input) <==> input is Lookup),
        (v.phase == ScanPhase::PreAddressFilter || v.phase == ScanPhase::SkipAddressFilter) ==> (
        v.accepts(input) <==> input is AddressFilter),
        (v.phase is PreLocalName || v.phase == ScanPhase::SkipLocalName) ==> (v.accepts(input)
            <==> input is LocalName),
        (v.phase is PreNameFilter || v.phase == ScanPhase::SkipNameFilter) ==> (v.accepts(input)
            <==> input is NameFilter),
        (v.phase == ScanPhase::FirstConnectionCheck || v.phase == ScanPhase::SecondConnectionCheck
            || v.phase == ScanPhase::SkipConnectionCheck) ==> (v.accepts(input)
            <==> input is Connected),
        v.phase == ScanPhase::SkipProperties ==> (v.accepts(input) <==> input is PropertiesAddress),
        (v.phase == ScanPhase::FirstListing || v.phase == ScanPhase::SecondListing) ==> (v.accepts(
            input,
        ) <==> input is Characteristics),
        v.phase == ScanPhase::Discovering ==> (v.accepts(input) <==> input is ServicesDiscovered),
        v.phase == ScanPhase::CharacteristicsFilter ==> (v.accepts(input)
            <==> input is CharacteristicsFilter),
        v.phase == ScanPhase::Forwarding ==> (v.accepts(input) <==> input is Sent),
        v.phase == ScanPhase::Announcing ==> (v.accepts(input) <==> (input is Sent
            && v.result_count < usize::MAX)),
        (v.phase == ScanPhase::Spawning || v.phase == ScanPhase::DisconnectBeforeAdd || v.phase
            == ScanPhase::SkipDisconnect || v.phase == ScanPhase::SkipAddressDisconnect || v.phase
            == ScanPhase::SkipNameDisconnect) ==> (v.accepts(input) <==> input is Ack),
{
}

} // verus!
