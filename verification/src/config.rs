//! The settings of a scan.

use std::time::Duration;
use vstd::prelude::*;

verus! {

/// The settings of a scan: which adapter, which filters are set, and when to stop.
///
/// A filter of the caller's own (on the address, the name, or the characteristics) is run
/// by the caller; these settings record that it is set.
pub struct ScanConfig {
    /// Index of the Bluetooth adapter to use. The first found adapter is used by default.
    pub adapter_index: usize,
    /// Whether found devices are filtered on their address.
    pub address_filter: bool,
    /// Whether found devices are filtered on their local name by a rule of the caller's.
    pub name_filter: bool,
    /// Whether found devices must advertise a local name that is not empty.
    pub name_required: bool,
    /// Whether found devices are filtered on their characteristics; this needs a connection.
    pub characteristics_filter: bool,
    /// Maximum results before the scan is stopped.
    pub max_results: Option<usize>,
    /// The scan is stopped when this much time has passed.
    pub timeout: Option<Duration>,
    /// Disconnect from devices that the filters have looked at without a connection.
    pub force_disconnect: bool,
}

impl ScanConfig {
    /// Whether `self` and `other` agree on every setting but the one numbered `field`, in
    /// the order: adapter index, address filter, name filter, characteristics filter,
    /// maximum results, timeout, forced disconnection, name required.
    pub open spec fn same_but(self, other: ScanConfig, field: int) -> bool {
        &&& (field != 0 ==> self.adapter_index == other.adapter_index)
        &&& (field != 1 ==> self.address_filter == other.address_filter)
        &&& (field != 2 ==> self.name_filter == other.name_filter)
        &&& (field != 3 ==> self.characteristics_filter == other.characteristics_filter)
        &&& (field != 4 ==> self.max_results == other.max_results)
        &&& (field != 5 ==> self.timeout == other.timeout)
        &&& (field != 6 ==> self.force_disconnect == other.force_disconnect)
        &&& (field != 7 ==> self.name_required == other.name_required)
    }

    /// The settings of a scan that filters nothing and never stops by itself.
    pub open spec fn initial() -> ScanConfig {
        ScanConfig {
            adapter_index: 0,
            address_filter: false,
            name_filter: false,
            name_required: false,
            characteristics_filter: false,
            max_results: None,
            timeout: None,
            force_disconnect: false,
        }
    }

    /// What `require_name` makes of `c`.
    pub open spec fn spec_require_name(c: ScanConfig) -> ScanConfig {
        ScanConfig { name_required: true, ..c }
    }

    /// What `filter_by_name` makes of `self`.
    pub open spec fn filter_by_name_spec(self) -> ScanConfig {
        ScanConfig { name_filter: true, ..self }
    }

    /// Index of bluetooth adapter to use
    pub fn adapter_index(self, index: usize) -> (r: Self)
        ensures
            r.adapter_index == index,
            r.same_but(self, 0),
    {
        ScanConfig { adapter_index: index, ..self }
    }

    /// Filter scanned devices based on the device address
    pub fn filter_by_address(self) -> (r: Self)
        ensures
            r.address_filter,
            r.same_but(self, 1),
    {
        ScanConfig { address_filter: true, ..self }
    }

    /// Filter scanned devices based on the device name
    pub fn filter_by_name(self) -> (r: Self)
        ensures
            r == self.filter_by_name_spec(),
            r.name_filter,
            r.same_but(self, 2),
    {
        ScanConfig { name_filter: true, ..self }
    }

    /// Filter scanned devices based on available characteristics
    pub fn filter_by_characteristics(self) -> (r: Self)
        ensures
            r.characteristics_filter,
            r.same_but(self, 3),
    {
        ScanConfig { characteristics_filter: true, ..self }
    }

    /// Stop the scan after given number of matches
    pub fn stop_after_matches(self, max_results: usize) -> (r: Self)
        ensures
            r.max_results == Some(max_results),
            r.same_but(self, 4),
    {
        ScanConfig { max_results: Some(max_results), ..self }
    }

    /// Stop the scan after the first match
    pub fn stop_after_first_match(self) -> (r: Self)
        ensures
            r.max_results == Some(1usize),
            r.same_but(self, 4),
    {
        self.stop_after_matches(1)
    }

    /// Stop the scan after given duration
    pub fn stop_after_timeout(self, timeout: Duration) -> (r: Self)
        ensures
            r.timeout == Some(timeout),
            r.same_but(self, 5),
    {
        ScanConfig { timeout: Some(timeout), ..self }
    }

    /// Disconnect from devices that were looked at without a connection
    pub fn force_disconnect(self, force_disconnect: bool) -> (r: Self)
        ensures
            r.force_disconnect == force_disconnect,
            r.same_but(self, 6),
    {
        ScanConfig { force_disconnect, ..self }
    }

    /// Require that the scanned devices have a name: a device must advertise a local name
    /// that is not empty, and, where the caller also set a rule on the name, that rule must
    /// accept it too.
    pub fn require_name(self) -> (r: Self)
        ensures
            r == Self::spec_require_name(self),
            r.name_required,
            r.same_but(self, 7),
    {
        ScanConfig { name_required: true, ..self }
    }
}

impl Default for ScanConfig {
    fn default() -> (r: Self)
        ensures
            r == ScanConfig::initial(),
            r.adapter_index == 0,
            !r.address_filter,
            !r.name_filter,
            !r.name_required,
            !r.characteristics_filter,
            r.max_results == None::<usize>,
            r.timeout == None::<Duration>,
            !r.force_disconnect,
    {
        ScanConfig {
            adapter_index: 0,
            address_filter: false,
            name_filter: false,
            name_required: false,
            characteristics_filter: false,
            max_results: None,
            timeout: None,
            force_disconnect: false,
        }
    }
}

/// Each builder touches only its own setting: two settings that agree on all but one
/// setting, and on that one too, are the same settings.
pub proof fn law_same_but(a: ScanConfig, b: ScanConfig)
    ensures
        a.same_but(b, 0) && a.adapter_index == b.adapter_index ==> a == b,
        a.same_but(b, 1) && a.address_filter == b.address_filter ==> a == b,
        a.same_but(b, 2) && a.name_filter == b.name_filter ==> a == b,
        a.same_but(b, 3) && a.characteristics_filter == b.characteristics_filter ==> a == b,
        a.same_but(b, 4) && a.max_results == b.max_results ==> a == b,
        a.same_but(b, 5) && a.timeout == b.timeout ==> a == b,
        a.same_but(b, 6) && a.force_disconnect == b.force_disconnect ==> a == b,
        a.same_but(b, 7) && a.name_required == b.name_required ==> a == b,
{
}

/// Requiring a name twice is requiring it once.
pub proof fn lemma_require_name_idempotent(c: ScanConfig)
    ensures
        ScanConfig::spec_require_name(ScanConfig::spec_require_name(c))
            == ScanConfig::spec_require_name(c),
{
}

/// After `require_name` a name that is not empty is required, whatever rule of the
/// caller's on the name is set, and that rule stays.
pub proof fn lemma_require_name_requires_a_name(c: ScanConfig)
    ensures
        ScanConfig::spec_require_name(c).name_required,
        ScanConfig::spec_require_name(c).name_filter == c.name_filter,
        ScanConfig::spec_require_name(c.filter_by_name_spec()).name_required,
        ScanConfig::spec_require_name(c).filter_by_name_spec().name_required,
{
}

} // verus!
