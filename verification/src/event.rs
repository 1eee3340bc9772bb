//! Events about devices, as the clients of a scan receive them.

use crate::worker::CentralEventKind;
use vstd::prelude::*;

verus! {

/// An event about a device that matched the scan's filters.
#[derive(Debug, Clone)]
pub enum DeviceEvent<D> {
    /// The device matched the filters.
    Discovered(D),
    /// The device connected.
    Connected(D),
    /// The device disconnected.
    Disconnected(D),
    /// The device's advertised data changed.
    Updated(D),
}

impl<D> DeviceEvent<D> {
    /// The device the event is about.
    pub open spec fn spec_device(self) -> D {
        match self {
            DeviceEvent::Discovered(d) => d,
            DeviceEvent::Connected(d) => d,
            DeviceEvent::Disconnected(d) => d,
            DeviceEvent::Updated(d) => d,
        }
    }

    /// The event of the given kind about `device`; there is none for other adapter events.
    pub open spec fn of_kind(kind: CentralEventKind, device: D) -> Option<DeviceEvent<D>> {
        match kind {
            CentralEventKind::Discovered => Some(DeviceEvent::Discovered(device)),
            CentralEventKind::Connected => Some(DeviceEvent::Connected(device)),
            CentralEventKind::Disconnected => Some(DeviceEvent::Disconnected(device)),
            CentralEventKind::Updated => Some(DeviceEvent::Updated(device)),
            CentralEventKind::Other => None,
        }
    }

    /// The device, where the event says it was discovered.
    pub open spec fn spec_discovered(self) -> Option<D> {
        match self {
            DeviceEvent::Discovered(d) => Some(d),
            _ => None,
        }
    }

    /// The event of the given kind about `device`; there is none for other adapter events.
    pub fn from_kind(kind: CentralEventKind, device: D) -> (r: Option<DeviceEvent<D>>)
        ensures
            r == Self::of_kind(kind, device),
    {
        match kind {
            CentralEventKind::Discovered => Some(DeviceEvent::Discovered(device)),
            CentralEventKind::Connected => Some(DeviceEvent::Connected(device)),
            CentralEventKind::Disconnected => Some(DeviceEvent::Disconnected(device)),
            CentralEventKind::Updated => Some(DeviceEvent::Updated(device)),
            CentralEventKind::Other => None,
        }
    }

    /// The device the event is about.
    pub fn device(&self) -> (d: &D)
        ensures
            *d == self.spec_device(),
    {
        match self {
            DeviceEvent::Discovered(d) => d,
            DeviceEvent::Connected(d) => d,
            DeviceEvent::Disconnected(d) => d,
            DeviceEvent::Updated(d) => d,
        }
    }

    /// The device, where the event says it was discovered; nothing for other events.
    pub fn discovered(self) -> (r: Option<D>)
        ensures
            r == self.spec_discovered(),
    {
        match self {
            DeviceEvent::Discovered(d) => Some(d),
            _ => None,
        }
    }
}

/// The kind of adapter event an event stands for.
pub open spec fn kind_of<D>(e: DeviceEvent<D>) -> CentralEventKind {
    match e {
        DeviceEvent::Discovered(_) => CentralEventKind::Discovered,
        DeviceEvent::Connected(_) => CentralEventKind::Connected,
        DeviceEvent::Disconnected(_) => CentralEventKind::Disconnected,
        DeviceEvent::Updated(_) => CentralEventKind::Updated,
    }
}

/// The event made from an adapter event's kind stands for that same kind and is about the
/// given device; a stream of discovered devices yields that device exactly for `Discovered`.
pub proof fn law_event_kind<D>(kind: CentralEventKind, device: D)
    ensures
        kind != CentralEventKind::Other ==> kind_of(DeviceEvent::of_kind(kind, device)->0)
            == kind,
        kind != CentralEventKind::Other ==> DeviceEvent::of_kind(kind, device)->0.spec_discovered()
            == (if kind == CentralEventKind::Discovered {
            Some(device)
        } else {
            None
        }),
{
}

/// Every adapter event but `Other` becomes an event about the same device, and a stream
/// of discovered devices yields the device of exactly the `Discovered` events.
pub proof fn lemma_event_of_kind<D>(kind: CentralEventKind, device: D)
    ensures
        DeviceEvent::of_kind(kind, device) is Some <==> kind != CentralEventKind::Other,
        kind != CentralEventKind::Other ==> DeviceEvent::of_kind(kind, device)->0.spec_device()
            == device,
        kind != CentralEventKind::Other ==> (DeviceEvent::of_kind(
            kind,
            device,
        )->0.spec_discovered() is Some <==> kind == CentralEventKind::Discovered),
{
}

} // verus!
