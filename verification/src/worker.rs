//! The decisions of a running scan.
//!
//! A scan reacts to the adapter's events one at a time. For each event the caller feeds
//! `ScanInput::Event` to `ScanState::step` and then, until the step answers
//! `ScanAction::Done`, performs the action it got (look a peripheral up, run a filter of
//! its own, ask whether a peripheral is connected, send an event to the clients, ...) and
//! feeds the outcome back as the next input. After `Done` the caller asks
//! `ScanState::should_stop` whether the scan ends.
//!
//! Peripherals are named by a `u64` key of the caller's choosing, one key per peripheral.

use crate::config::ScanConfig;
use std::collections::HashSet;
use vstd::prelude::*;

verus! {

broadcast use vstd::std_specs::hash::group_hash_axioms;

/// The kinds of adapter events that a scan reacts to.
#[derive(Clone, Copy, Debug, PartialEq, Eq, Structural)]
pub enum CentralEventKind {
    /// A peripheral was seen for the first time.
    Discovered,
    /// A peripheral's advertised data changed.
    Updated,
    /// A peripheral connected.
    Connected,
    /// A peripheral disconnected.
    Disconnected,
    /// Any other adapter event.
    Other,
}

/// Where the handling of the current event stands: which outcome the scan waits for.
#[derive(Clone, Copy, Debug, PartialEq, Eq, Structural)]
pub enum ScanPhase {
    /// No event is being handled.
    Idle,
    /// Waiting for the peripheral of the current event (`ScanInput::Lookup`).
    Lookup,
    /// Waiting for the caller's address filter (`ScanInput::AddressFilter`).
    PreAddressFilter,
    /// Waiting for the local name (`ScanInput::LocalName`).
    PreLocalName { address_ok: bool },
    /// Waiting for the caller's name filter (`ScanInput::NameFilter`).
    PreNameFilter { address_ok: bool },
    /// Waiting to know whether the peripheral is connected (`ScanInput::Connected`).
    FirstConnectionCheck,
    /// Waiting for a connection attempt to be under way (`ScanInput::Ack`).
    Spawning,
    /// Waiting to know whether the peripheral is still connected (`ScanInput::Connected`);
    /// where it is not, the filters are checked again on a later event.
    SecondConnectionCheck,
    /// Waiting for the known characteristics (`ScanInput::Characteristics`): the
    /// characteristics filter runs on them, or, where none are known, services are discovered.
    FirstListing,
    /// Waiting for service discovery (`ScanInput::ServicesDiscovered`).
    Discovering,
    /// Waiting for the characteristics after discovery (`ScanInput::Characteristics`).
    SecondListing,
    /// Waiting for the caller's characteristics filter (`ScanInput::CharacteristicsFilter`).
    CharacteristicsFilter,
    /// Waiting for a disconnect before the peripheral is announced (`ScanInput::Ack`).
    DisconnectBeforeAdd,
    /// Waiting for the `Discovered` event to be sent (`ScanInput::Sent`).
    Announcing,
    /// Waiting for an event about a matched peripheral to be sent (`ScanInput::Sent`).
    Forwarding,
    /// Waiting for the forced disconnect of a skipped peripheral (`ScanInput::Ack`).
    SkipDisconnect,
    /// Waiting to know whether a skipped peripheral is connected (`ScanInput::Connected`).
    SkipConnectionCheck,
    /// Waiting for a skipped peripheral's advertised address (`ScanInput::PropertiesAddress`).
    SkipProperties,
    /// Waiting for the caller's address filter on a skipped peripheral (`ScanInput::AddressFilter`).
    SkipAddressFilter,
    /// Waiting for a disconnect after the address check (`ScanInput::Ack`).
    SkipAddressDisconnect,
    /// Waiting for a skipped peripheral's local name (`ScanInput::LocalName`).
    SkipLocalName,
    /// Waiting for the caller's name filter on a skipped peripheral (`ScanInput::NameFilter`).
    SkipNameFilter,
    /// Waiting for a disconnect after the name check (`ScanInput::Ack`).
    SkipNameDisconnect,
}

/// An outcome of the caller's work, handed to the scan.
#[derive(Debug)]
pub enum ScanInput {
    /// An adapter event about the peripheral with the given key.
    Event(CentralEventKind, u64),
    /// The peripheral was found (with its address), or could not be had.
    Lookup(Option<u64>),
    /// What the caller's address filter answered.
    AddressFilter(bool),
    /// The advertised local name; `None` when the properties or the name are not known.
    LocalName(Option<String>),
    /// What the caller's name filter answered.
    NameFilter(bool),
    /// Whether the peripheral is connected; `None` when that could not be found out.
    Connected(Option<bool>),
    /// The address in the advertised properties; `None` when they are not known.
    PropertiesAddress(Option<u64>),
    /// The UUIDs of the peripheral's known characteristics.
    Characteristics(Vec<u128>),
    /// Whether service discovery succeeded.
    ServicesDiscovered(bool),
    /// What the caller's characteristics filter answered.
    CharacteristicsFilter(bool),
    /// The event was sent to that many receivers, or could not be sent. A `Discovered`
    /// event counts as one match either way.
    Sent(Option<usize>),
    /// The requested work is done (its outcome does not matter).
    Ack,
}

/// What the scan asks the caller to do next.
#[derive(Debug)]
pub enum ScanAction {
    /// Look up the peripheral with the given key.
    LookupPeripheral(u64),
    /// Run the caller's address filter on this address.
    RunAddressFilter(u64),
    /// Fetch the current peripheral's local name.
    FetchLocalName,
    /// Run the caller's name filter on this name.
    RunNameFilter(String),
    /// Find out whether the current peripheral is connected.
    CheckConnected,
    /// Start connecting to the peripheral with the given key, without waiting; report a
    /// failure through `ScanState::connect_failed`.
    SpawnConnect(u64),
    /// Disconnect the current peripheral, ignoring the outcome.
    Disconnect,
    /// Fetch the address in the current peripheral's advertised properties.
    FetchPropertiesAddress,
    /// List the UUIDs of the current peripheral's characteristics.
    ListCharacteristics,
    /// Discover the current peripheral's services.
    DiscoverServices,
    /// Run the caller's characteristics filter on these UUIDs.
    RunCharacteristicsFilter(Vec<u128>),
    /// Send an event of this kind about the current peripheral to the clients.
    Emit(CentralEventKind),
    /// The event is handled.
    Done,
}

/// The abstract state of a scan.
pub struct ScanView {
    /// The settings of the scan.
    pub config: ScanConfig,
    /// Whether a connection is needed in order to pass the filters.
    pub connection_needed: bool,
    /// Number of matching devices found so far: one per announced device.
    pub result_count: usize,
    /// Peripherals that have been filtered and are not filtered again.
    pub filtered: Set<u64>,
    /// Peripherals that matched the filters.
    pub matched: Set<u64>,
    /// Peripherals that are being connected to.
    pub connecting: Set<u64>,
    /// Where the handling of the current event stands.
    pub phase: ScanPhase,
    /// The peripheral of the current event.
    pub current: u64,
    /// The kind of the current event.
    pub kind: CentralEventKind,
    /// The address of the current peripheral.
    pub address: u64,
    /// The characteristic UUIDs the current peripheral listed last.
    pub last_listing: Seq<u128>,
}

/// Whether the scan is running a peripheral through the filters, before deciding on it.
pub open spec fn is_filtering(phase: ScanPhase) -> bool {
    match phase {
        ScanPhase::PreAddressFilter | ScanPhase::PreLocalName { .. } | ScanPhase::PreNameFilter {
            ..
        } | ScanPhase::FirstConnectionCheck | ScanPhase::Spawning
        | ScanPhase::SecondConnectionCheck | ScanPhase::FirstListing | ScanPhase::Discovering
        | ScanPhase::SecondListing | ScanPhase::CharacteristicsFilter
        | ScanPhase::DisconnectBeforeAdd => true,
        _ => false,
    }
}

impl ScanView {
    /// The state of a scan that has just been set up with `config`.
    pub open spec fn initial(config: ScanConfig) -> ScanView {
        ScanView {
            config,
            connection_needed: config.characteristics_filter,
            result_count: 0,
            filtered: Set::empty(),
            matched: Set::empty(),
            connecting: Set::empty(),
            phase: ScanPhase::Idle,
            current: 0,
            kind: CentralEventKind::Other,
            address: 0,
            last_listing: Seq::empty(),
        }
    }

    /// The same state in another phase.
    pub open spec fn in_phase(self, phase: ScanPhase) -> ScanView {
        ScanView { phase, ..self }
    }

    /// The handling of the current event ends; after a disconnection the peripheral is
    /// no longer being connected to.
    pub open spec fn finish(self) -> (ScanView, ScanAction) {
        let connecting = if self.kind == CentralEventKind::Disconnected {
            self.connecting.remove(self.current)
        } else {
            self.connecting
        };
        (ScanView { phase: ScanPhase::Idle, connecting, ..self }, ScanAction::Done)
    }

    /// The peripheral matched: it is filtered and matched, and announced.
    pub open spec fn add(self) -> (ScanView, ScanAction) {
        (
            ScanView {
                filtered: self.filtered.insert(self.current),
                matched: self.matched.insert(self.current),
                phase: ScanPhase::Announcing,
                ..self
            },
            ScanAction::Emit(CentralEventKind::Discovered),
        )
    }

    /// The checks on a skipped peripheral's name: disconnect it where the name passes.
    pub open spec fn skip_name(self) -> (ScanView, ScanAction) {
        if self.config.name_filter || self.config.name_required {
            (self.in_phase(ScanPhase::SkipLocalName), ScanAction::FetchLocalName)
        } else {
            self.finish()
        }
    }

    /// The checks on a skipped peripheral's address: disconnect it where the address passes.
    pub open spec fn skip_address(self) -> (ScanView, ScanAction) {
        if self.config.address_filter {
            (self.in_phase(ScanPhase::SkipProperties), ScanAction::FetchPropertiesAddress)
        } else {
            self.skip_name()
        }
    }

    /// The peripheral failed a filter: it is filtered, and it is disconnected where the
    /// settings say so.
    pub open spec fn skip(self) -> (ScanView, ScanAction) {
        let s = ScanView { filtered: self.filtered.insert(self.current), ..self };
        if self.config.force_disconnect {
            (s.in_phase(ScanPhase::SkipDisconnect), ScanAction::Disconnect)
        } else {
            (s.in_phase(ScanPhase::SkipConnectionCheck), ScanAction::CheckConnected)
        }
    }

    /// The peripheral passed the filters that need no connection.
    pub open spec fn after_pre_connect(self) -> (ScanView, ScanAction) {
        if self.connection_needed {
            (self.in_phase(ScanPhase::FirstConnectionCheck), ScanAction::CheckConnected)
        } else if self.config.force_disconnect {
            (self.in_phase(ScanPhase::DisconnectBeforeAdd), ScanAction::Disconnect)
        } else {
            self.add()
        }
    }

    /// What follows the verdict of the filters that need no connection: `None` when they
    /// could not all be checked yet.
    pub open spec fn pre_connect_verdict(self, verdict: Option<bool>) -> (ScanView, ScanAction) {
        match verdict {
            Some(true) => self.after_pre_connect(),
            Some(false) => self.skip(),
            None => self.finish(),
        }
    }

    /// The checks on the name (a required name, a rule of the caller's), once the address
    /// filter (if any) answered `address_ok`.
    pub open spec fn name_stage(self, address_ok: bool) -> (ScanView, ScanAction) {
        if self.config.name_filter || self.config.name_required {
            (self.in_phase(ScanPhase::PreLocalName { address_ok }), ScanAction::FetchLocalName)
        } else {
            self.pre_connect_verdict(Some(address_ok))
        }
    }

    /// Run the current peripheral through the filters, unless it has been filtered already.
    pub open spec fn begin_filter(self) -> (ScanView, ScanAction) {
        if self.filtered.contains(self.current) {
            self.finish()
        } else if self.config.address_filter {
            (self.in_phase(ScanPhase::PreAddressFilter), ScanAction::RunAddressFilter(self.address))
        } else {
            self.name_stage(true)
        }
    }

    /// The current peripheral was found with `address`.
    pub open spec fn after_lookup(self, address: u64) -> (ScanView, ScanAction) {
        let s = ScanView { address, ..self };
        match self.kind {
            CentralEventKind::Discovered => s.begin_filter(),
            CentralEventKind::Updated | CentralEventKind::Connected => if s.matched.contains(
                s.current,
            ) {
                (s.in_phase(ScanPhase::Forwarding), ScanAction::Emit(s.kind))
            } else {
                s.begin_filter()
            },
            CentralEventKind::Disconnected => if s.matched.contains(s.current) {
                (s.in_phase(ScanPhase::Forwarding), ScanAction::Emit(s.kind))
            } else {
                s.finish()
            },
            CentralEventKind::Other => s.finish(),
        }
    }

    /// A new adapter event about the peripheral `id`.
    pub open spec fn on_event(self, kind: CentralEventKind, id: u64) -> (ScanView, ScanAction) {
        if kind == CentralEventKind::Other {
            (self, ScanAction::Done)
        } else {
            let connecting = if kind == CentralEventKind::Connected {
                self.connecting.remove(id)
            } else {
                self.connecting
            };
            (
                ScanView { phase: ScanPhase::Lookup, current: id, kind, connecting, ..self },
                ScanAction::LookupPeripheral(id),
            )
        }
    }

    /// Whether the scan waits for `input` now.
    pub open spec fn accepts(self, input: ScanInput) -> bool {
        match input {
            ScanInput::Event(..) => self.phase == ScanPhase::Idle,
            ScanInput::Lookup(..) => self.phase == ScanPhase::Lookup,
            ScanInput::AddressFilter(..) => self.phase == ScanPhase::PreAddressFilter || self.phase
                == ScanPhase::SkipAddressFilter,
            ScanInput::LocalName(..) => self.phase is PreLocalName || self.phase
                == ScanPhase::SkipLocalName,
            ScanInput::NameFilter(..) => self.phase is PreNameFilter || self.phase
                == ScanPhase::SkipNameFilter,
            ScanInput::Connected(..) => self.phase == ScanPhase::FirstConnectionCheck || self.phase
                == ScanPhase::SecondConnectionCheck || self.phase
                == ScanPhase::SkipConnectionCheck,
            ScanInput::PropertiesAddress(..) => self.phase == ScanPhase::SkipProperties,
            ScanInput::Characteristics(..) => self.phase == ScanPhase::FirstListing || self.phase
                == ScanPhase::SecondListing,
            ScanInput::ServicesDiscovered(..) => self.phase == ScanPhase::Discovering,
            ScanInput::CharacteristicsFilter(..) => self.phase
                == ScanPhase::CharacteristicsFilter,
            ScanInput::Sent(_) => {
                &&& (self.phase == ScanPhase::Announcing || self.phase == ScanPhase::Forwarding)
                &&& (self.phase == ScanPhase::Announcing ==> self.result_count < usize::MAX)
            },
            ScanInput::Ack => self.phase == ScanPhase::Spawning || self.phase
                == ScanPhase::DisconnectBeforeAdd || self.phase == ScanPhase::SkipDisconnect
                || self.phase == ScanPhase::SkipAddressDisconnect || self.phase
                == ScanPhase::SkipNameDisconnect,
        }
    }

    /// The next state of the scan and the action it asks for, on an input it accepts.
    pub open spec fn next(self, input: ScanInput) -> (ScanView, ScanAction) {
        match input {
            ScanInput::Event(kind, id) => self.on_event(kind, id),
            ScanInput::Lookup(found) => match found {
                Some(address) => self.after_lookup(address),
                None => self.finish(),
            },
            ScanInput::AddressFilter(passed) => if self.phase == ScanPhase::PreAddressFilter {
                self.name_stage(passed)
            } else if passed {
                (self.in_phase(ScanPhase::SkipAddressDisconnect), ScanAction::Disconnect)
            } else {
                self.skip_name()
            },
            ScanInput::LocalName(name) => match self.phase {
                ScanPhase::PreLocalName { address_ok } => match name {
                    None => self.pre_connect_verdict(None),
                    Some(n) => if self.config.name_required && n@.len() == 0 {
                        self.pre_connect_verdict(Some(false))
                    } else if self.config.name_filter {
                        (
                            self.in_phase(ScanPhase::PreNameFilter { address_ok }),
                            ScanAction::RunNameFilter(n),
                        )
                    } else {
                        self.pre_connect_verdict(Some(address_ok))
                    },
                },
                _ => match name {
                    None => self.finish(),
                    Some(n) => if self.config.name_required && n@.len() == 0 {
                        self.finish()
                    } else if self.config.name_filter {
                        (self.in_phase(ScanPhase::SkipNameFilter), ScanAction::RunNameFilter(n))
                    } else {
                        (self.in_phase(ScanPhase::SkipNameDisconnect), ScanAction::Disconnect)
                    },
                },
            },
            ScanInput::NameFilter(passed) => match self.phase {
                ScanPhase::PreNameFilter { address_ok } => self.pre_connect_verdict(
                    Some(address_ok && passed),
                ),
                _ => if passed {
                    (self.in_phase(ScanPhase::SkipNameDisconnect), ScanAction::Disconnect)
                } else {
                    self.finish()
                },
            },
            ScanInput::Connected(connected) => {
                let is_connected = connected == Some(true);
                if self.phase == ScanPhase::FirstConnectionCheck {
                    if is_connected {
                        (self.in_phase(ScanPhase::SecondConnectionCheck), ScanAction::CheckConnected)
                    } else if self.connecting.contains(self.current) {
                        self.finish()
                    } else {
                        (
                            ScanView {
                                connecting: self.connecting.insert(self.current),
                                phase: ScanPhase::Spawning,
                                ..self
                            },
                            ScanAction::SpawnConnect(self.current),
                        )
                    }
                } else if self.phase == ScanPhase::SecondConnectionCheck {
                    if is_connected {
                        (self.in_phase(ScanPhase::FirstListing), ScanAction::ListCharacteristics)
                    } else {
                        self.finish()
                    }
                } else if connected == Some(false) {
                    self.finish()
                } else {
                    self.skip_address()
                }
            },
            ScanInput::PropertiesAddress(address) => match address {
                Some(a) => (self.in_phase(ScanPhase::SkipAddressFilter), ScanAction::RunAddressFilter(a)),
                None => self.skip_name(),
            },
            ScanInput::Characteristics(uuids) => {
                let s = ScanView { last_listing: uuids@, ..self };
                if self.phase == ScanPhase::FirstListing && uuids@.len() == 0 {
                    (s.in_phase(ScanPhase::Discovering), ScanAction::DiscoverServices)
                } else {
                    (
                        s.in_phase(ScanPhase::CharacteristicsFilter),
                        ScanAction::RunCharacteristicsFilter(uuids),
                    )
                }
            },
            ScanInput::ServicesDiscovered(ok) => if ok {
                (self.in_phase(ScanPhase::SecondListing), ScanAction::ListCharacteristics)
            } else {
                self.skip()
            },
            ScanInput::CharacteristicsFilter(passed) => if passed {
                self.add()
            } else {
                self.skip()
            },
            ScanInput::Sent(_) => {
                let s = if self.phase == ScanPhase::Announcing {
                    ScanView { result_count: (self.result_count + 1) as usize, ..self }
                } else {
                    self
                };
                s.finish()
            },
            ScanInput::Ack => if self.phase == ScanPhase::DisconnectBeforeAdd {
                self.add()
            } else if self.phase == ScanPhase::SkipAddressDisconnect {
                self.skip_name()
            } else {
                self.finish()
            },
        }
    }
}

/// The state of a running scan.
pub struct ScanState {
    config: ScanConfig,
    connection_needed: bool,
    result_count: usize,
    filtered: HashSet<u64>,
    matched: HashSet<u64>,
    connecting: HashSet<u64>,
    phase: ScanPhase,
    current: u64,
    kind: CentralEventKind,
    address: u64,
    last_listing: Ghost<Seq<u128>>,
}

impl View for ScanState {
    type V = ScanView;

    closed spec fn view(&self) -> ScanView {
        ScanView {
            config: self.config,
            connection_needed: self.connection_needed,
            result_count: self.result_count,
            filtered: self.filtered@,
            matched: self.matched@,
            connecting: self.connecting@,
            phase: self.phase,
            current: self.current,
            kind: self.kind,
            address: self.address,
            last_listing: self.last_listing@,
        }
    }
}

impl ScanState {
    /// A scan set up with `config`: nothing is filtered, matched or connecting yet.
    pub fn new(config: ScanConfig) -> (s: Self)
        ensures
            s@ == ScanView::initial(config),
            s@.config == config,
            s@.connection_needed == config.characteristics_filter,
            s@.result_count == 0,
            s@.filtered == Set::<u64>::empty(),
            s@.matched == Set::<u64>::empty(),
            s@.connecting == Set::<u64>::empty(),
            s@.phase == ScanPhase::Idle,
    {
        let connection_needed = config.characteristics_filter;
        ScanState {
            config,
            connection_needed,
            result_count: 0,
            filtered: HashSet::new(),
            matched: HashSet::new(),
            connecting: HashSet::new(),
            phase: ScanPhase::Idle,
            current: 0,
            kind: CentralEventKind::Other,
            address: 0,
            last_listing: Ghost(Seq::empty()),
        }
    }

    /// The settings of the scan.
    pub fn config(&self) -> (c: &ScanConfig)
        ensures
            *c == self@.config,
    {
        &self.config
    }

    /// Number of matching devices found so far.
    pub fn result_count(&self) -> (n: usize)
        ensures
            n == self@.result_count,
    {
        self.result_count
    }

    /// Whether the scan waits for `input` now.
    pub fn expects(&self, input: &ScanInput) -> (r: bool)
        ensures
            r == self@.accepts(*input),
    {
        match input {
            ScanInput::Event(..) => self.phase == ScanPhase::Idle,
            ScanInput::Lookup(..) => self.phase == ScanPhase::Lookup,
            ScanInput::AddressFilter(..) => self.phase == ScanPhase::PreAddressFilter || self.phase
                == ScanPhase::SkipAddressFilter,
            ScanInput::LocalName(..) => match self.phase {
                ScanPhase::PreLocalName { .. } | ScanPhase::SkipLocalName => true,
                _ => false,
            },
            ScanInput::NameFilter(..) => match self.phase {
                ScanPhase::PreNameFilter { .. } | ScanPhase::SkipNameFilter => true,
                _ => false,
            },
            ScanInput::Connected(..) => self.phase == ScanPhase::FirstConnectionCheck || self.phase
                == ScanPhase::SecondConnectionCheck || self.phase
                == ScanPhase::SkipConnectionCheck,
            ScanInput::PropertiesAddress(..) => self.phase == ScanPhase::SkipProperties,
            ScanInput::Characteristics(..) => self.phase == ScanPhase::FirstListing || self.phase
                == ScanPhase::SecondListing,
            ScanInput::ServicesDiscovered(..) => self.phase == ScanPhase::Discovering,
            ScanInput::CharacteristicsFilter(..) => self.phase
                == ScanPhase::CharacteristicsFilter,
            ScanInput::Sent(_) => {
                if self.phase == ScanPhase::Announcing {
                    self.result_count < usize::MAX
                } else {
                    self.phase == ScanPhase::Forwarding
                }
            },
            ScanInput::Ack => self.phase == ScanPhase::Spawning || self.phase
                == ScanPhase::DisconnectBeforeAdd || self.phase == ScanPhase::SkipDisconnect
                || self.phase == ScanPhase::SkipAddressDisconnect || self.phase
                == ScanPhase::SkipNameDisconnect,
        }
    }

    /// Whether the scan ends now: the timeout was reached, the number of results reached
    /// the maximum, or a stop was requested.
    pub fn should_stop(&self, timeout_reached: bool, stop_requested: bool) -> (r: bool)
        ensures
            r == (timeout_reached || (self@.config.max_results matches Some(m)
                && self@.result_count >= m) || stop_requested),
    {
        let max_result_reached = match self.config.max_results {
            Some(m) => self.result_count >= m,
            None => false,
        };
        timeout_reached || max_result_reached || stop_requested
    }

    /// A connection attempt to the peripheral `id` failed: it is no longer being
    /// connected to.
    pub fn connect_failed(&mut self, id: u64)
        ensures
            final(self)@ == (ScanView { connecting: old(self)@.connecting.remove(id), ..old(self)@ }),
    {
        self.connecting.remove(&id);
    }

    fn set_phase(&mut self, phase: ScanPhase)
        ensures
            final(self)@ == old(self)@.in_phase(phase),
    {
        self.phase = phase;
    }

    fn finish(&mut self) -> (a: ScanAction)
        ensures
            (final(self)@, a) == old(self)@.finish(),
    {
        if self.kind == CentralEventKind::Disconnected {
            self.connecting.remove(&self.current);
        }
        self.phase = ScanPhase::Idle;
        ScanAction::Done
    }

    fn add(&mut self) -> (a: ScanAction)
        ensures
            (final(self)@, a) == old(self)@.add(),
    {
        self.filtered.insert(self.current);
        self.matched.insert(self.current);
        self.phase = ScanPhase::Announcing;
        ScanAction::Emit(CentralEventKind::Discovered)
    }

    fn skip_name(&mut self) -> (a: ScanAction)
        ensures
            (final(self)@, a) == old(self)@.skip_name(),
    {
        if self.config.name_filter || self.config.name_required {
            self.set_phase(ScanPhase::SkipLocalName);
            ScanAction::FetchLocalName
        } else {
            self.finish()
        }
    }

    fn skip_address(&mut self) -> (a: ScanAction)
        ensures
            (final(self)@, a) == old(self)@.skip_address(),
    {
        if self.config.address_filter {
            self.set_phase(ScanPhase::SkipProperties);
            ScanAction::FetchPropertiesAddress
        } else {
            self.skip_name()
        }
    }

    fn skip(&mut self) -> (a: ScanAction)
        ensures
            (final(self)@, a) == old(self)@.skip(),
    {
        self.filtered.insert(self.current);
        if self.config.force_disconnect {
            self.set_phase(ScanPhase::SkipDisconnect);
            ScanAction::Disconnect
        } else {
            self.set_phase(ScanPhase::SkipConnectionCheck);
            ScanAction::CheckConnected
        }
    }

    fn after_pre_connect(&mut self) -> (a: ScanAction)
        ensures
            (final(self)@, a) == old(self)@.after_pre_connect(),
    {
        if self.connection_needed {
            self.set_phase(ScanPhase::FirstConnectionCheck);
            ScanAction::CheckConnected
        } else if self.config.force_disconnect {
            self.set_phase(ScanPhase::DisconnectBeforeAdd);
            ScanAction::Disconnect
        } else {
            self.add()
        }
    }

    fn pre_connect_verdict(&mut self, verdict: Option<bool>) -> (a: ScanAction)
        ensures
            (final(self)@, a) == old(self)@.pre_connect_verdict(verdict),
    {
        match verdict {
            Some(true) => self.after_pre_connect(),
            Some(false) => self.skip(),
            None => self.finish(),
        }
    }

    fn name_stage(&mut self, address_ok: bool) -> (a: ScanAction)
        ensures
            (final(self)@, a) == old(self)@.name_stage(address_ok),
    {
        if self.config.name_filter || self.config.name_required {
            self.set_phase(ScanPhase::PreLocalName { address_ok });
            ScanAction::FetchLocalName
        } else {
            self.pre_connect_verdict(Some(address_ok))
        }
    }

    fn begin_filter(&mut self) -> (a: ScanAction)
        ensures
            (final(self)@, a) == old(self)@.begin_filter(),
    {
        if self.filtered.contains(&self.current) {
            self.finish()
        } else if self.config.address_filter {
            self.set_phase(ScanPhase::PreAddressFilter);
            ScanAction::RunAddressFilter(self.address)
        } else {
            self.name_stage(true)
        }
    }

    fn after_lookup(&mut self, address: u64) -> (a: ScanAction)
        ensures
            (final(self)@, a) == old(self)@.after_lookup(address),
    {
        self.address = address;
        match self.kind {
            CentralEventKind::Discovered => self.begin_filter(),
            CentralEventKind::Updated | CentralEventKind::Connected => {
                if self.matched.contains(&self.current) {
                    self.set_phase(ScanPhase::Forwarding);
                    ScanAction::Emit(self.kind)
                } else {
                    self.begin_filter()
                }
            },
            CentralEventKind::Disconnected => {
                if self.matched.contains(&self.current) {
                    self.set_phase(ScanPhase::Forwarding);
                    ScanAction::Emit(self.kind)
                } else {
                    self.finish()
                }
            },
            CentralEventKind::Other => self.finish(),
        }
    }

    fn on_event(&mut self, kind: CentralEventKind, id: u64) -> (a: ScanAction)
        ensures
            (final(self)@, a) == old(self)@.on_event(kind, id),
    {
        if kind == CentralEventKind::Other {
            ScanAction::Done
        } else {
            if kind == CentralEventKind::Connected {
                self.connecting.remove(&id);
            }
            self.phase = ScanPhase::Lookup;
            self.current = id;
            self.kind = kind;
            ScanAction::LookupPeripheral(id)
        }
    }

    /// Hand the scan the outcome it waits for; it answers with what to do next.
    pub fn step(&mut self, input: ScanInput) -> (a: ScanAction)
        requires
            old(self)@.accepts(input),
        ensures
            (final(self)@, a) == old(self)@.next(input),
    {
        match input {
            ScanInput::Event(kind, id) => self.on_event(kind, id),
            ScanInput::Lookup(found) => match found {
                Some(address) => self.after_lookup(address),
                None => self.finish(),
            },
            ScanInput::AddressFilter(passed) => {
                if self.phase == ScanPhase::PreAddressFilter {
                    self.name_stage(passed)
                } else if passed {
                    self.set_phase(ScanPhase::SkipAddressDisconnect);
                    ScanAction::Disconnect
                } else {
                    self.skip_name()
                }
            },
            ScanInput::LocalName(name) => match self.phase {
                ScanPhase::PreLocalName { address_ok } => match name {
                    None => self.pre_connect_verdict(None),
                    Some(n) => {
                        if self.config.name_required && n.as_str().is_empty() {
                            self.pre_connect_verdict(Some(false))
                        } else if self.config.name_filter {
                            self.set_phase(ScanPhase::PreNameFilter { address_ok });
                            ScanAction::RunNameFilter(n)
                        } else {
                            self.pre_connect_verdict(Some(address_ok))
                        }
                    },
                },
                _ => match name {
                    None => self.finish(),
                    Some(n) => {
                        if self.config.name_required && n.as_str().is_empty() {
                            self.finish()
                        } else if self.config.name_filter {
                            self.set_phase(ScanPhase::SkipNameFilter);
                            ScanAction::RunNameFilter(n)
                        } else {
                            self.set_phase(ScanPhase::SkipNameDisconnect);
                            ScanAction::Disconnect
                        }
                    },
                },
            },
            ScanInput::NameFilter(passed) => match self.phase {
                ScanPhase::PreNameFilter { address_ok } => self.pre_connect_verdict(
                    Some(address_ok && passed),
                ),
                _ => {
                    if passed {
                        self.set_phase(ScanPhase::SkipNameDisconnect);
                        ScanAction::Disconnect
                    } else {
                        self.finish()
                    }
                },
            },
            ScanInput::Connected(connected) => {
                let is_connected = match connected {
                    Some(c) => c,
                    None => false,
                };
                if self.phase == ScanPhase::FirstConnectionCheck {
                    if is_connected {
                        self.set_phase(ScanPhase::SecondConnectionCheck);
                        ScanAction::CheckConnected
                    } else if self.connecting.contains(&self.current) {
                        self.finish()
                    } else {
                        self.connecting.insert(self.current);
                        self.phase = ScanPhase::Spawning;
                        ScanAction::SpawnConnect(self.current)
                    }
                } else if self.phase == ScanPhase::SecondConnectionCheck {
                    if is_connected {
                        self.set_phase(ScanPhase::FirstListing);
                        ScanAction::ListCharacteristics
                    } else {
                        self.finish()
                    }
                } else if connected == Some(false) {
                    self.finish()
                } else {
                    self.skip_address()
                }
            },
            ScanInput::PropertiesAddress(address) => match address {
                Some(a) => {
                    self.set_phase(ScanPhase::SkipAddressFilter);
                    ScanAction::RunAddressFilter(a)
                },
                None => self.skip_name(),
            },
            ScanInput::Characteristics(uuids) => {
                self.last_listing = Ghost(uuids@);
                if self.phase == ScanPhase::FirstListing && uuids.len() == 0 {
                    self.set_phase(ScanPhase::Discovering);
                    ScanAction::DiscoverServices
                } else {
                    self.set_phase(ScanPhase::CharacteristicsFilter);
                    ScanAction::RunCharacteristicsFilter(uuids)
                }
            },
            ScanInput::ServicesDiscovered(ok) => {
                if ok {
                    self.set_phase(ScanPhase::SecondListing);
                    ScanAction::ListCharacteristics
                } else {
                    self.skip()
                }
            },
            ScanInput::CharacteristicsFilter(passed) => {
                if passed {
                    self.add()
                } else {
                    self.skip()
                }
            },
            ScanInput::Sent(_) => {
                if self.phase == ScanPhase::Announcing {
                    self.result_count = self.result_count + 1;
                }
                self.finish()
            },
            ScanInput::Ack => {
                if self.phase == ScanPhase::DisconnectBeforeAdd {
                    self.add()
                } else if self.phase == ScanPhase::SkipAddressDisconnect {
                    self.skip_name()
                } else {
                    self.finish()
                }
            },
        }
    }
}

} // verus!
