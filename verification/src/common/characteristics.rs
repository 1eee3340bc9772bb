//! UUIDs of standard GATT characteristics.

use crate::common::ble_uuid;
use vstd::prelude::*;

verus! {

/// Heart Rate Measurement, short UUID `0x2A37`.
pub const HEART_RATE_MEASUREMENT: u128 = 0x00002a37_0000_1000_8000_00805f9b34fb;

/// Battery Level, short UUID `0x2A19`.
pub const BATTERY_LEVEL: u128 = 0x00002a19_0000_1000_8000_00805f9b34fb;

/// Each constant is the full UUID of its short form.
pub proof fn lemma_characteristic_uuids()
    ensures
        HEART_RATE_MEASUREMENT == ble_uuid(0x2A37),
        BATTERY_LEVEL == ble_uuid(0x2A19),
{
}

} // verus!
